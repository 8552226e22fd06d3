//! The four things a visitor can ask of the board, each answered from the
//! store and a template.

use vstd::prelude::*;
use crate::clock::is_minute_stamp;
use crate::post::{field_view, given_or, submitted};
use crate::post::{DEFAULT_AUTHOR, DEFAULT_CONTENT, DEFAULT_TITLE};
use crate::render::{list_page, post_page, render_list, render_post};
use crate::store::{appended, lookup, numbered, PostStore};

verus! {

/// The content type of every page.
pub const PAGE_TYPE: &'static str = "text/html; charset=utf-8";

/// Where the list of posts is found, and where a submission leads.
pub const LIST_PATH: &'static str = "/";

/// What is said where a post is asked for that the board does not have.
pub const NOT_FOUND_MESSAGE: &'static str = "게시글을 찾을 수 없습니다.";

/// What goes back to the visitor.
#[derive(Debug)]
pub enum Reply {
    /// A page, sent as found (status 200) with `PAGE_TYPE`.
    Page { body: String },
    /// Nothing to show here: the visitor is sent on (status 303).
    SeeOther { location: String },
    /// No such thing (status 404), with a plain message.
    NotFound { body: String },
}

/// A reply as plain mathematical values.
pub enum ReplyView {
    Page { body: Seq<char> },
    SeeOther { location: Seq<char> },
    NotFound { body: Seq<char> },
}

impl View for Reply {
    type V = ReplyView;

    open spec fn view(&self) -> ReplyView {
        match self {
            Reply::Page { body } => ReplyView::Page { body: body@ },
            Reply::SeeOther { location } => ReplyView::SeeOther { location: location@ },
            Reply::NotFound { body } => ReplyView::NotFound { body: body@ },
        }
    }
}

impl Reply {
    /// The status code that goes with the reply.
    pub fn status(&self) -> (code: u16)
        ensures
            code == match self@ {
                ReplyView::Page { .. } => 200u16,
                ReplyView::SeeOther { .. } => 303u16,
                ReplyView::NotFound { .. } => 404u16,
            },
    {
        match self {
            Reply::Page { .. } => 200,
            Reply::SeeOther { .. } => 303,
            Reply::NotFound { .. } => 404,
        }
    }

    /// The content type that is named with the reply: that of a page for a
    /// page, none for the others.
    pub fn content_type(&self) -> (named: Option<&'static str>)
        ensures
            named == match self@ {
                ReplyView::Page { .. } => Some(PAGE_TYPE),
                ReplyView::SeeOther { .. } => None::<&'static str>,
                ReplyView::NotFound { .. } => None::<&'static str>,
            },
    {
        match self {
            Reply::Page { .. } => Some(PAGE_TYPE),
            Reply::SeeOther { .. } => None,
            Reply::NotFound { .. } => None,
        }
    }
}

/// The list of all posts, the most recent first.
pub fn index(store: &PostStore, template: &str) -> (reply: Reply)
    ensures
        reply@ == (ReplyView::Page { body: list_page(template@, store@.reverse()) }),
{
    let posts = store.list_newest_first();
    Reply::Page { body: render_list(template, &posts) }
}

/// The form on which a post is written: the template as it is.
pub fn write_page(template: &str) -> (reply: Reply)
    ensures
        reply@ == (ReplyView::Page { body: template@ }),
{
    Reply::Page { body: template.to_owned() }
}

/// Takes a submission in: the post is in the store before the visitor is
/// sent on to the list.
pub fn create_post(
    store: &mut PostStore,
    title: Option<String>,
    author: Option<String>,
    content: Option<String>,
) -> (reply: Reply)
    requires
        old(store)@.len() < usize::MAX,
    ensures
        reply@ == (ReplyView::SeeOther { location: LIST_PATH@ }),
        final(store)@ == appended(
            old(store)@,
            submitted(title, author, content, final(store)@.last().date),
        ),
        final(store)@.len() == old(store)@.len() + 1,
        final(store)@.drop_last() == old(store)@,
        final(store)@.last().id == old(store)@.len() + 1,
        final(store)@.last().title == given_or(field_view(title), DEFAULT_TITLE@),
        final(store)@.last().author == given_or(field_view(author), DEFAULT_AUTHOR@),
        final(store)@.last().content == given_or(field_view(content), DEFAULT_CONTENT@),
        is_minute_stamp(final(store)@.last().date),
        numbered(final(store)@),
{
    let _ = store.append(title, author, content);
    assert(store@.drop_last() =~= old(store)@);
    Reply::SeeOther { location: LIST_PATH.to_owned() }
}

/// The page of the post with identifier `id`, or the word that there is
/// no such post.
pub fn view_post(store: &PostStore, template: &str, id: usize) -> (reply: Reply)
    ensures
        reply@ == match lookup(store@, id as nat) {
            Some(post) => ReplyView::Page { body: post_page(template@, post) },
            None => ReplyView::NotFound { body: NOT_FOUND_MESSAGE@ },
        },
{
    match store.find_by_id(id) {
        Some(post) => Reply::Page { body: render_post(template, post) },
        None => Reply::NotFound { body: NOT_FOUND_MESSAGE.to_owned() },
    }
}

} // verus!
