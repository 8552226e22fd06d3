//! The store of posts: an append-only sequence, numbered from one in
//! creation order.

use vstd::prelude::*;
use crate::clock::local_minute_stamp;
use crate::clock::is_minute_stamp;
use crate::post::{fill, new_post, submitted, views, Post, PostView, Submission};
use crate::post::{DEFAULT_AUTHOR, DEFAULT_CONTENT, DEFAULT_TITLE};

verus! {

/// Whether each post carries its position, counted from one, as its
/// identifier.
pub open spec fn numbered(posts: Seq<PostView>) -> bool {
    forall|i: int| 0 <= i < posts.len() ==> (#[trigger] posts[i]).id == i + 1
}

/// The post with identifier `id` among `posts`, if there is one.
pub open spec fn lookup(posts: Seq<PostView>, id: nat) -> Option<PostView> {
    if 1 <= id <= posts.len() {
        Some(posts[id - 1])
    } else {
        None
    }
}

/// The posts after one more submission: those before, and the new post
/// with the next identifier at the end.
pub open spec fn appended(posts: Seq<PostView>, from: Submission) -> Seq<PostView> {
    posts.push(new_post(posts.len() + 1, from))
}

/// The posts after a run of submissions, taken in the order given.
pub open spec fn appended_all(posts: Seq<PostView>, run: Seq<Submission>) -> Seq<PostView>
    decreases run.len(),
{
    if run.len() == 0 {
        posts
    } else {
        appended(appended_all(posts, run.drop_last()), run.last())
    }
}

/// All posts of one board, oldest first.
///
/// Whatever has happened to a store, its posts are numbered: the value
/// cannot be had in any other state. Adding a post takes the store
/// exclusively, so no two additions overlap; those who share one store
/// among threads keep it behind a lock and add one after the other.
pub struct PostStore {
    posts: Vec<Post>,
}

impl View for PostStore {
    type V = Seq<PostView>;

    closed spec fn view(&self) -> Seq<PostView> {
        views(self.posts@)
    }
}

impl PostStore {
    #[verifier::type_invariant]
    spec fn well_numbered(self) -> bool {
        numbered(views(self.posts@))
    }

    /// A store without posts.
    pub fn new() -> (store: Self)
        ensures
            store@ == Seq::<PostView>::empty(),
    {
        PostStore { posts: Vec::new() }
    }

    /// The number of posts.
    pub fn len(&self) -> (n: usize)
        ensures
            n == self@.len(),
            numbered(self@),
    {
        proof {
            use_type_invariant(self);
        }
        self.posts.len()
    }

    /// Adds a post made at `date` and hands back a copy of it.
    ///
    /// The post gets the next identifier; a field that is missing or empty
    /// gets its default.
    pub fn append_at(
        &mut self,
        title: Option<String>,
        author: Option<String>,
        content: Option<String>,
        date: String,
    ) -> (post: Post)
        requires
            old(self)@.len() < usize::MAX,
        ensures
            post@ == new_post(old(self)@.len() + 1, submitted(title, author, content, date@)),
            final(self)@ == appended(old(self)@, submitted(title, author, content, date@)),
            final(self)@.len() == old(self)@.len() + 1,
            final(self)@.drop_last() == old(self)@,
            final(self)@.last() == post@,
            numbered(final(self)@),
    {
        proof {
            use_type_invariant(&*self);
        }
        let id: usize = self.posts.len() + 1;
        let post = Post {
            id,
            title: fill(title, DEFAULT_TITLE),
            author: fill(author, DEFAULT_AUTHOR),
            content: fill(content, DEFAULT_CONTENT),
            date,
        };
        let copy = post.clone();
        // The vector leaves the store while it grows and comes back whole:
        // at no moment does the store hold posts that are not numbered.
        let mut posts: Vec<Post> = Vec::new();
        core::mem::swap(&mut self.posts, &mut posts);
        posts.push(post);
        assert(views(posts@) =~= views(old(self).posts@).push(copy@));
        core::mem::swap(&mut self.posts, &mut posts);
        assert(self@.drop_last() =~= old(self)@);
        copy
    }

    /// Adds a post made now and hands back a copy of it.
    pub fn append(
        &mut self,
        title: Option<String>,
        author: Option<String>,
        content: Option<String>,
    ) -> (post: Post)
        requires
            old(self)@.len() < usize::MAX,
        ensures
            is_minute_stamp(post.date@),
            post@ == new_post(old(self)@.len() + 1, submitted(title, author, content, post.date@)),
            final(self)@ == appended(old(self)@, submitted(title, author, content, post.date@)),
            final(self)@.len() == old(self)@.len() + 1,
            final(self)@.drop_last() == old(self)@,
            final(self)@.last() == post@,
            numbered(final(self)@),
    {
        let date = local_minute_stamp();
        self.append_at(title, author, content, date)
    }

    /// The post with identifier `id`, or `None` where the store has none.
    pub fn find_by_id(&self, id: usize) -> (found: Option<&Post>)
        ensures
            match found {
                Some(post) => lookup(self@, id as nat) == Some(post@),
                None => lookup(self@, id as nat) is None,
            },
            numbered(self@),
    {
        proof {
            use_type_invariant(self);
        }
        let mut i: usize = 0;
        while i < self.posts.len()
            invariant
                i <= self.posts.len(),
                numbered(views(self.posts@)),
                forall|k: int| 0 <= k < i ==> (#[trigger] views(self.posts@)[k]).id != id,
            decreases self.posts.len() - i,
        {
            if self.posts[i].id == id {
                assert(views(self.posts@)[i as int] == self.posts@[i as int]@);
                return Some(&self.posts[i]);
            }
            i += 1;
        }
        None
    }

    /// Copies of all posts, the most recent first.
    pub fn list_newest_first(&self) -> (list: Vec<Post>)
        ensures
            views(list@) == self@.reverse(),
            numbered(self@),
    {
        proof {
            use_type_invariant(self);
        }
        let mut list: Vec<Post> = Vec::new();
        let n: usize = self.posts.len();
        let mut i: usize = n;
        while i > 0
            invariant
                n == self.posts.len(),
                i <= n,
                list@.len() == n - i,
                forall|k: int| 0 <= k < list@.len() ==> (#[trigger] list@[k])@ == self.posts@[n - 1 - k]@,
            decreases i,
        {
            i -= 1;
            list.push(self.posts[i].clone());
        }
        list
    }
}

impl Default for PostStore {
    fn default() -> (store: Self)
        ensures
            store@ == Seq::<PostView>::empty(),
    {
        PostStore::new()
    }
}

/// One more submission keeps the posts numbered and everything before it
/// in place.
pub proof fn lemma_appended_numbered(posts: Seq<PostView>, from: Submission)
    requires
        numbered(posts),
    ensures
        numbered(appended(posts, from)),
        appended(posts, from).len() == posts.len() + 1,
        appended(posts, from).drop_last() == posts,
        appended(posts, from).last() == new_post(posts.len() + 1, from),
{
}

/// After any run of submissions to an empty board there is one post for
/// each, in the order of the run, and the identifiers are one, two, three
/// and so on, with none missing and none twice.
pub proof fn lemma_appends_number_from_one(run: Seq<Submission>)
    ensures
        appended_all(Seq::empty(), run).len() == run.len(),
        numbered(appended_all(Seq::empty(), run)),
        forall|i: int|
            0 <= i < run.len() ==> #[trigger] appended_all(Seq::empty(), run)[i] == new_post(
                (i + 1) as nat,
                run[i],
            ),
    decreases run.len(),
{
    if run.len() > 0 {
        lemma_appends_number_from_one(run.drop_last());
        let earlier = appended_all(Seq::empty(), run.drop_last());
        lemma_appended_numbered(earlier, run.last());
    }
}

/// Numbered posts carry the identifiers from one up to their number, and
/// no two of them carry the same.
pub proof fn lemma_numbered_identifiers_differ(posts: Seq<PostView>)
    requires
        numbered(posts),
    ensures
        forall|i: int| 0 <= i < posts.len() ==> 1 <= (#[trigger] posts[i]).id <= posts.len(),
        forall|i: int, j: int|
            0 <= i < j < posts.len() ==> (#[trigger] posts[i]).id != (#[trigger] posts[j]).id,
{
}

/// Whatever the order in which a number of submissions reach an empty
/// board, and whatever they hold, the identifiers given out are the same:
/// the first to arrive gets one, the next two, and so on.
pub proof fn lemma_identifiers_whatever_the_order(first: Seq<Submission>, second: Seq<Submission>)
    requires
        first.len() == second.len(),
    ensures
        appended_all(Seq::empty(), first).len() == appended_all(Seq::empty(), second).len(),
        forall|i: int|
            0 <= i < first.len() ==> (#[trigger] appended_all(Seq::empty(), first)[i]).id
                == appended_all(Seq::empty(), second)[i].id,
{
    lemma_appends_number_from_one(first);
    lemma_appends_number_from_one(second);
}

/// Listed newest first, numbered posts come with their identifiers
/// counting down from the number of posts to one.
pub proof fn lemma_newest_first_counts_down(posts: Seq<PostView>)
    requires
        numbered(posts),
    ensures
        posts.reverse().len() == posts.len(),
        forall|i: int|
            0 <= i < posts.len() ==> #[trigger] posts.reverse()[i] == posts[posts.len() - 1 - i],
        forall|i: int| 0 <= i < posts.len() ==> (#[trigger] posts.reverse()[i]).id == posts.len() - i,
{
}

/// Among numbered posts, looking up an identifier gives the first post
/// that carries it, and there is one just for the identifiers from one up
/// to the number of posts.
pub proof fn lemma_lookup_finds_the_post(posts: Seq<PostView>, id: nat)
    requires
        numbered(posts),
    ensures
        1 <= id <= posts.len() ==> lookup(posts, id) == Some(posts[id - 1]) && posts[id - 1].id
            == id,
        (id == 0 || id > posts.len()) ==> lookup(posts, id) is None,
        forall|i: int| 0 <= i < posts.len() && #[trigger] posts[i].id == id ==> i == id - 1,
{
}

/// After a run of submissions to an empty board, each identifier from one
/// up to the length of the run finds the post of the submission at that
/// place, and no other identifier finds anything.
pub proof fn lemma_lookup_after_appends(run: Seq<Submission>, id: nat)
    ensures
        1 <= id <= run.len() ==> lookup(appended_all(Seq::empty(), run), id) == Some(
            new_post(id, run[id - 1]),
        ),
        (id == 0 || id > run.len()) ==> lookup(appended_all(Seq::empty(), run), id) is None,
{
    lemma_appends_number_from_one(run);
}

} // verus!
