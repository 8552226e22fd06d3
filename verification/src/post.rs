//! A post of the board and the values that stand in for fields left out.

use vstd::prelude::*;

verus! {

/// The title given to a post that came without one.
pub const DEFAULT_TITLE: &'static str = "제목 없음";

/// The author given to a post that came without one.
pub const DEFAULT_AUTHOR: &'static str = "익명";

/// The content given to a post that came without any.
pub const DEFAULT_CONTENT: &'static str = "";

/// One entry of the board. Once it is in a store it never changes.
#[derive(Debug)]
pub struct Post {
    /// Position in creation order, counted from one.
    pub id: usize,
    pub title: String,
    pub author: String,
    pub content: String,
    /// When the post was made, to the minute, in local time.
    pub date: String,
}

/// What a post holds, as plain mathematical values.
pub struct PostView {
    pub id: nat,
    pub title: Seq<char>,
    pub author: Seq<char>,
    pub content: Seq<char>,
    pub date: Seq<char>,
}

impl View for Post {
    type V = PostView;

    open spec fn view(&self) -> PostView {
        PostView {
            id: self.id as nat,
            title: self.title@,
            author: self.author@,
            content: self.content@,
            date: self.date@,
        }
    }
}

impl Clone for Post {
    fn clone(&self) -> (copy: Self)
        ensures
            copy == *self,
    {
        Post {
            id: self.id,
            title: self.title.clone(),
            author: self.author.clone(),
            content: self.content.clone(),
            date: self.date.clone(),
        }
    }
}

impl PartialEq for Post {
    fn eq(&self, other: &Self) -> (same: bool) {
        self.id == other.id && self.title == other.title && self.author == other.author
            && self.content == other.content && self.date == other.date
    }
}

impl vstd::std_specs::cmp::PartialEqSpecImpl for Post {
    open spec fn obeys_eq_spec() -> bool {
        true
    }

    open spec fn eq_spec(&self, other: &Self) -> bool {
        self@ == other@
    }
}

impl Eq for Post {

}

/// The views of a sequence of posts, in the same order.
pub open spec fn views(posts: Seq<Post>) -> Seq<PostView> {
    posts.map_values(|p: Post| p@)
}

/// The text a field gets: what was given, or `default` where nothing or
/// an empty text was given.
pub open spec fn given_or(given: Option<Seq<char>>, default: Seq<char>) -> Seq<char> {
    match given {
        Some(text) => if text.len() == 0 {
            default
        } else {
            text
        },
        None => default,
    }
}

/// What a field of a submission holds, as a plain value.
pub open spec fn field_view(field: Option<String>) -> Option<Seq<char>> {
    match field {
        Some(text) => Some(text@),
        None => None,
    }
}

/// What is handed in to make a post: three fields, each of which may be
/// missing, and the date at which it arrives.
pub struct Submission {
    pub title: Option<Seq<char>>,
    pub author: Option<Seq<char>>,
    pub content: Option<Seq<char>>,
    pub date: Seq<char>,
}

/// The submission made of the given fields and date.
pub open spec fn submitted(
    title: Option<String>,
    author: Option<String>,
    content: Option<String>,
    date: Seq<char>,
) -> Submission {
    Submission {
        title: field_view(title),
        author: field_view(author),
        content: field_view(content),
        date,
    }
}

/// The post that a submission gives rise to when it is the `id`-th of the
/// board.
pub open spec fn new_post(id: nat, from: Submission) -> PostView {
    PostView {
        id,
        title: given_or(from.title, DEFAULT_TITLE@),
        author: given_or(from.author, DEFAULT_AUTHOR@),
        content: given_or(from.content, DEFAULT_CONTENT@),
        date: from.date,
    }
}

/// Whether a field came without a text: not at all, or empty.
pub open spec fn left_out(field: Option<Seq<char>>) -> bool {
    match field {
        Some(text) => text.len() == 0,
        None => true,
    }
}

/// A field that was left out gets its default and any other field keeps
/// its text, each on its own; the default of the content is the empty text.
pub proof fn lemma_fields_left_out_get_defaults(id: nat, from: Submission)
    ensures
        new_post(id, from).id == id,
        new_post(id, from).date == from.date,
        new_post(id, from).title == if left_out(from.title) {
            DEFAULT_TITLE@
        } else {
            from.title->0
        },
        new_post(id, from).author == if left_out(from.author) {
            DEFAULT_AUTHOR@
        } else {
            from.author->0
        },
        new_post(id, from).content == if left_out(from.content) {
            Seq::<char>::empty()
        } else {
            from.content->0
        },
{
    reveal_strlit("");
}

/// Hands back `given`, or `default` where nothing or an empty text was given.
pub fn fill(given: Option<String>, default: &str) -> (text: String)
    ensures
        text@ == given_or(field_view(given), default@),
{
    match given {
        Some(text) => {
            if text.as_str().is_empty() {
                default.to_owned()
            } else {
                text
            }
        },
        None => default.to_owned(),
    }
}

} // verus!
