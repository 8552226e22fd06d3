//! Pages made from templates: a template is plain text in which a few
//! tokens stand for what is put in.

use vstd::prelude::*;
use crate::post::{views, Post, PostView};
use crate::text::{append_chars, append_decimal, append_str, chars_of, decimal, finds_token};
use crate::text::{lemma_occurs_after_skip, lemma_substitute_absent, lemma_substitute_first};
use crate::text::{occurs_at, replace_all, string_of, substitute, token_at};

verus! {

/// Stands in the list template where the rows go.
pub const POSTS_TOKEN: &'static str = "{{posts}}";

/// Stands in the post template for the title.
pub const TITLE_TOKEN: &'static str = "{{title}}";

/// Stands in the post template for the author.
pub const AUTHOR_TOKEN: &'static str = "{{author}}";

/// Stands in the post template for the date.
pub const DATE_TOKEN: &'static str = "{{date}}";

/// Stands in the post template for the content.
pub const CONTENT_TOKEN: &'static str = "{{content}}";

/// What a line end of the content becomes on the page.
pub const LINE_BREAK: &'static str = "<br>";

/// A row up to the identifier in its link.
pub const ROW_OPEN: &'static str = "<tr onclick=\"location.href='/post/";

/// Between the identifier in the link and the identifier shown.
pub const ROW_ID: &'static str = "'\">\n                <td>";

/// Between the identifier shown and the title.
pub const ROW_TITLE: &'static str = "</td>\n                <td class=\"title\">";

/// Before the author and before the date.
pub const ROW_CELL: &'static str = "</td>\n                <td>";

/// A row after the date.
pub const ROW_CLOSE: &'static str = "</td>\n            </tr>";

/// The row of the list for one post: a line that leads to the post's own
/// page and shows identifier, title, author and date, not the content.
pub open spec fn row(post: PostView) -> Seq<char> {
    ROW_OPEN@ + decimal(post.id) + ROW_ID@ + decimal(post.id) + ROW_TITLE@ + post.title + ROW_CELL@
        + post.author + ROW_CELL@ + post.date + ROW_CLOSE@
}

/// The rows of `posts`, one after the other in the order given.
pub open spec fn rows(posts: Seq<PostView>) -> Seq<char>
    decreases posts.len(),
{
    if posts.len() == 0 {
        Seq::empty()
    } else {
        rows(posts.drop_last()) + row(posts.last())
    }
}

/// The list page: the template with the rows of `posts` in place of the
/// list token.
pub open spec fn list_page(template: Seq<char>, posts: Seq<PostView>) -> Seq<char> {
    substitute(template, POSTS_TOKEN@, rows(posts))
}

/// What one character of the content becomes on the page.
pub open spec fn shown(c: char) -> Seq<char> {
    if c == '\n' {
        LINE_BREAK@
    } else {
        seq![c]
    }
}

/// `content` with a line break in place of each line end, and every
/// other character as it was.
pub open spec fn break_lines(content: Seq<char>) -> Seq<char>
    decreases content.len(),
{
    if content.len() == 0 {
        Seq::empty()
    } else {
        break_lines(content.drop_last()) + shown(content.last())
    }
}

/// The template read once from left to right. Where one of the four
/// tokens stands, its value is put in as it is and reading goes on behind
/// the token; any other character is kept. What was put in is not read:
/// a token that came with a value stays as it came.
pub open spec fn filled(
    template: Seq<char>,
    title: Seq<char>,
    author: Seq<char>,
    date: Seq<char>,
    content: Seq<char>,
) -> Seq<char>
    decreases template.len(),
{
    if template.len() == 0 {
        template
    } else if token_at(template, TITLE_TOKEN@, 0) {
        title + filled(template.skip(TITLE_TOKEN@.len() as int), title, author, date, content)
    } else if token_at(template, AUTHOR_TOKEN@, 0) {
        author + filled(template.skip(AUTHOR_TOKEN@.len() as int), title, author, date, content)
    } else if token_at(template, DATE_TOKEN@, 0) {
        date + filled(template.skip(DATE_TOKEN@.len() as int), title, author, date, content)
    } else if token_at(template, CONTENT_TOKEN@, 0) {
        content + filled(template.skip(CONTENT_TOKEN@.len() as int), title, author, date, content)
    } else {
        seq![template[0]] + filled(template.skip(1), title, author, date, content)
    }
}

/// The page of one post: the template filled with title, author and date
/// as they are and with the content after its lines were broken.
pub open spec fn post_page(template: Seq<char>, post: PostView) -> Seq<char> {
    filled(template, post.title, post.author, post.date, break_lines(post.content))
}

/// Whether none of the four tokens of a post page stands in `text` at
/// position `at`.
pub open spec fn no_token_at(text: Seq<char>, at: int) -> bool {
    &&& !token_at(text, TITLE_TOKEN@, at)
    &&& !token_at(text, AUTHOR_TOKEN@, at)
    &&& !token_at(text, DATE_TOKEN@, at)
    &&& !token_at(text, CONTENT_TOKEN@, at)
}

/// Appends the row of `post` to `out`.
pub fn append_row(out: &mut Vec<char>, post: &Post)
    ensures
        final(out)@ == old(out)@ + row(post@),
{
    append_str(out, ROW_OPEN);
    append_decimal(out, post.id);
    append_str(out, ROW_ID);
    append_decimal(out, post.id);
    append_str(out, ROW_TITLE);
    append_str(out, post.title.as_str());
    append_str(out, ROW_CELL);
    append_str(out, post.author.as_str());
    append_str(out, ROW_CELL);
    append_str(out, post.date.as_str());
    append_str(out, ROW_CLOSE);
}

/// Renders the list page for `posts`, which come in the order in which
/// they are to be shown.
pub fn render_list(template: &str, posts: &Vec<Post>) -> (page: String)
    ensures
        page@ == list_page(template@, views(posts@)),
{
    let mut fragment: Vec<char> = Vec::new();
    let mut i: usize = 0;
    while i < posts.len()
        invariant
            i <= posts.len(),
            fragment@ == rows(views(posts@).take(i as int)),
        decreases posts.len() - i,
    {
        assert(views(posts@).take(i + 1).drop_last() =~= views(posts@).take(i as int));
        append_row(&mut fragment, &posts[i]);
        i += 1;
    }
    assert(views(posts@).take(i as int) =~= views(posts@));
    let text = chars_of(template);
    let token = chars_of(POSTS_TOKEN);
    string_of(&replace_all(&text, &token, &fragment))
}

/// The characters of `content`, with a line break for each line end.
pub fn with_line_breaks(content: &str) -> (out: Vec<char>)
    ensures
        out@ == break_lines(content@),
{
    let mut out: Vec<char> = Vec::new();
    for c in it: content.chars()
        invariant
            it.seq() == content@,
            out@ == break_lines(content@.take(it.index() as int)),
    {
        assert(content@.take(it.index() + 1).drop_last() =~= content@.take(it.index() as int));
        if c == '\n' {
            append_str(&mut out, LINE_BREAK);
        } else {
            out.push(c);
        }
    }
    assert(content@.take(content@.len() as int) =~= content@);
    out
}

/// Fills a template of a post page with the four values, in one pass
/// from left to right.
pub fn fill(
    template: &Vec<char>,
    title: &Vec<char>,
    author: &Vec<char>,
    date: &Vec<char>,
    content: &Vec<char>,
) -> (out: Vec<char>)
    ensures
        out@ == filled(template@, title@, author@, date@, content@),
{
    let title_token = chars_of(TITLE_TOKEN);
    let author_token = chars_of(AUTHOR_TOKEN);
    let date_token = chars_of(DATE_TOKEN);
    let content_token = chars_of(CONTENT_TOKEN);
    let mut out: Vec<char> = Vec::new();
    let mut i: usize = 0;
    assert(template@.skip(0) =~= template@);
    while i < template.len()
        invariant
            i <= template.len(),
            title_token@ == TITLE_TOKEN@,
            author_token@ == AUTHOR_TOKEN@,
            date_token@ == DATE_TOKEN@,
            content_token@ == CONTENT_TOKEN@,
            out@ + filled(template@.skip(i as int), title@, author@, date@, content@) == filled(
                template@,
                title@,
                author@,
                date@,
                content@,
            ),
        decreases template.len() - i,
    {
        let ghost rest = template@.skip(i as int);
        proof {
            lemma_occurs_after_skip(template@, TITLE_TOKEN@, i as int, 0);
            lemma_occurs_after_skip(template@, AUTHOR_TOKEN@, i as int, 0);
            lemma_occurs_after_skip(template@, DATE_TOKEN@, i as int, 0);
            lemma_occurs_after_skip(template@, CONTENT_TOKEN@, i as int, 0);
        }
        if finds_token(template, &title_token, i) {
            assert(rest.skip(title_token@.len() as int) =~= template@.skip(i + title_token@.len()));
            append_chars(&mut out, title);
            i += title_token.len();
        } else if finds_token(template, &author_token, i) {
            assert(rest.skip(author_token@.len() as int) =~= template@.skip(
                i + author_token@.len(),
            ));
            append_chars(&mut out, author);
            i += author_token.len();
        } else if finds_token(template, &date_token, i) {
            assert(rest.skip(date_token@.len() as int) =~= template@.skip(i + date_token@.len()));
            append_chars(&mut out, date);
            i += date_token.len();
        } else if finds_token(template, &content_token, i) {
            assert(rest.skip(content_token@.len() as int) =~= template@.skip(
                i + content_token@.len(),
            ));
            append_chars(&mut out, content);
            i += content_token.len();
        } else {
            assert(rest.skip(1) =~= template@.skip(i + 1));
            out.push(template[i]);
            i += 1;
        }
    }
    out
}

/// Renders the page of `post`.
///
/// The template is read once: the values take the place of the tokens of
/// the template, and a token inside a value is not filled. Nothing that
/// is put in is escaped: markup in a title, an author or a content
/// reaches the page as it is.
pub fn render_post(template: &str, post: &Post) -> (page: String)
    ensures
        page@ == post_page(template@, post@),
{
    let text = fill(
        &chars_of(template),
        &chars_of(post.title.as_str()),
        &chars_of(post.author.as_str()),
        &chars_of(post.date.as_str()),
        &with_line_breaks(post.content.as_str()),
    );
    string_of(&text)
}

/// One character alone becomes what it is shown as.
pub proof fn lemma_break_lines_single(c: char)
    ensures
        break_lines(seq![c]) == shown(c),
{
    let one = seq![c];
    assert(break_lines(one.drop_last()) =~= Seq::<char>::empty());
}

/// Breaking the lines of two texts joined is breaking the lines of each.
pub proof fn lemma_break_lines_joined(left: Seq<char>, right: Seq<char>)
    ensures
        break_lines(left + right) == break_lines(left) + break_lines(right),
    decreases right.len(),
{
    if right.len() > 0 {
        assert((left + right).drop_last() =~= left + right.drop_last());
        lemma_break_lines_joined(left, right.drop_last());
    }
}

/// Every line end becomes a line break, and nothing else changes: what
/// stands before a line end and what stands after it are treated on their
/// own, with the line break between them.
pub proof fn lemma_line_end_becomes_break(left: Seq<char>, right: Seq<char>)
    ensures
        break_lines(left + seq!['\n'] + right) == break_lines(left) + LINE_BREAK@ + break_lines(
            right,
        ),
{
    lemma_break_lines_joined(left + seq!['\n'], right);
    lemma_break_lines_joined(left, seq!['\n']);
    lemma_break_lines_single('\n');
}

/// A content without a line end is shown as it is.
pub proof fn lemma_plain_content_unchanged(content: Seq<char>)
    requires
        forall|i: int| 0 <= i < content.len() ==> content[i] != '\n',
    ensures
        break_lines(content) == content,
    decreases content.len(),
{
    if content.len() > 0 {
        lemma_plain_content_unchanged(content.drop_last());
    }
}

/// The page of a post whose content has no line end holds that content
/// as it is, where the template asks for it.
pub proof fn lemma_post_page_of_plain_content(template: Seq<char>, post: PostView)
    requires
        forall|i: int| 0 <= i < post.content.len() ==> post.content[i] != '\n',
    ensures
        post_page(template, post) == filled(
            template,
            post.title,
            post.author,
            post.date,
            post.content,
        ),
{
    lemma_plain_content_unchanged(post.content);
}

/// What stands in a template before its first token is kept as it is,
/// and the filling goes on behind it.
pub proof fn lemma_filled_after_plain(
    before: Seq<char>,
    rest: Seq<char>,
    title: Seq<char>,
    author: Seq<char>,
    date: Seq<char>,
    content: Seq<char>,
)
    requires
        forall|at: int| 0 <= at < before.len() ==> no_token_at(before + rest, at),
    ensures
        filled(before + rest, title, author, date, content) == before + filled(
            rest,
            title,
            author,
            date,
            content,
        ),
    decreases before.len(),
{
    let text = before + rest;
    if before.len() == 0 {
        assert(text =~= rest);
    } else {
        assert(no_token_at(text, 0));
        let shorter = before.skip(1);
        assert(text.skip(1) =~= shorter + rest);
        assert forall|at: int| 0 <= at < shorter.len() implies no_token_at(shorter + rest, at) by {
            assert(no_token_at(text, 1 + at));
            lemma_occurs_after_skip(text, TITLE_TOKEN@, 1, at);
            lemma_occurs_after_skip(text, AUTHOR_TOKEN@, 1, at);
            lemma_occurs_after_skip(text, DATE_TOKEN@, 1, at);
            lemma_occurs_after_skip(text, CONTENT_TOKEN@, 1, at);
        }
        lemma_filled_after_plain(shorter, rest, title, author, date, content);
        assert(seq![text[0]] + (shorter + filled(rest, title, author, date, content)) =~= before
            + filled(rest, title, author, date, content));
    }
}

/// A template in which none of the four tokens stands comes out as it
/// went in.
pub proof fn lemma_filled_without_tokens(
    template: Seq<char>,
    title: Seq<char>,
    author: Seq<char>,
    date: Seq<char>,
    content: Seq<char>,
)
    requires
        forall|at: int| 0 <= at < template.len() ==> no_token_at(template, at),
    ensures
        filled(template, title, author, date, content) == template,
{
    let nothing = Seq::<char>::empty();
    assert(template + nothing =~= template);
    lemma_filled_after_plain(template, nothing, title, author, date, content);
}

/// Where a token stands at the start of a template, its value comes out
/// as it is, whatever it holds, and the filling goes on behind the token:
/// the title for the title token, the author for the author token, the
/// date for the date token and the content for the content token.
pub proof fn lemma_filled_at_token(
    rest: Seq<char>,
    title: Seq<char>,
    author: Seq<char>,
    date: Seq<char>,
    content: Seq<char>,
)
    ensures
        filled(TITLE_TOKEN@ + rest, title, author, date, content) == title + filled(
            rest,
            title,
            author,
            date,
            content,
        ),
        filled(AUTHOR_TOKEN@ + rest, title, author, date, content) == author + filled(
            rest,
            title,
            author,
            date,
            content,
        ),
        filled(DATE_TOKEN@ + rest, title, author, date, content) == date + filled(
            rest,
            title,
            author,
            date,
            content,
        ),
        filled(CONTENT_TOKEN@ + rest, title, author, date, content) == content + filled(
            rest,
            title,
            author,
            date,
            content,
        ),
{
    reveal_strlit("{{title}}");
    reveal_strlit("{{author}}");
    reveal_strlit("{{date}}");
    reveal_strlit("{{content}}");
    lemma_token_leads(TITLE_TOKEN@, rest);
    lemma_token_leads(AUTHOR_TOKEN@, rest);
    lemma_token_leads(DATE_TOKEN@, rest);
    lemma_token_leads(CONTENT_TOKEN@, rest);
    lemma_third_letter_tells(AUTHOR_TOKEN@ + rest, TITLE_TOKEN@);
    lemma_third_letter_tells(DATE_TOKEN@ + rest, TITLE_TOKEN@);
    lemma_third_letter_tells(DATE_TOKEN@ + rest, AUTHOR_TOKEN@);
    lemma_third_letter_tells(CONTENT_TOKEN@ + rest, TITLE_TOKEN@);
    lemma_third_letter_tells(CONTENT_TOKEN@ + rest, AUTHOR_TOKEN@);
    lemma_third_letter_tells(CONTENT_TOKEN@ + rest, DATE_TOKEN@);
}

/// A text that begins with a token has the token at its start and the
/// rest behind it.
proof fn lemma_token_leads(token: Seq<char>, rest: Seq<char>)
    ensures
        occurs_at(token + rest, token, 0),
        (token + rest).skip(token.len() as int) == rest,
{
    assert((token + rest).subrange(0, token.len() as int) =~= token);
    assert((token + rest).skip(token.len() as int) =~= rest);
}

/// A token does not stand at the start of a text whose third character
/// is not the token's.
proof fn lemma_third_letter_tells(text: Seq<char>, token: Seq<char>)
    requires
        text.len() > 2,
        token.len() > 2,
        text[2] != token[2],
    ensures
        !occurs_at(text, token, 0),
{
    if token.len() <= text.len() {
        assert(text.subrange(0, token.len() as int)[2] == text[2]);
    }
}

/// Breaking lines is the substitution of the line break for the line end.
pub proof fn lemma_break_lines_is_substitution(content: Seq<char>)
    ensures
        break_lines(content) == substitute(content, seq!['\n'], LINE_BREAK@),
    decreases content.len(),
{
    let end = seq!['\n'];
    if content.len() > 0 {
        let head = seq![content[0]];
        let tail = content.skip(1);
        assert(head + tail =~= content);
        lemma_break_lines_joined(head, tail);
        lemma_break_lines_single(content[0]);
        lemma_break_lines_is_substitution(tail);
        if content[0] == '\n' {
            assert(content.subrange(0, 1) =~= end);
        } else {
            assert(content.subrange(0, 1)[0] != end[0]);
        }
    }
}

/// The rows of two runs of posts joined are the rows of each, joined.
pub proof fn lemma_rows_joined(first: Seq<PostView>, second: Seq<PostView>)
    ensures
        rows(first + second) == rows(first) + rows(second),
    decreases second.len(),
{
    if second.len() > 0 {
        assert((first + second).drop_last() =~= first + second.drop_last());
        lemma_rows_joined(first, second.drop_last());
    }
}

/// In a template that holds the list token once, the rows take the place
/// of the token and everything around it stays as it is.
pub proof fn lemma_list_page_keeps_surroundings(
    before: Seq<char>,
    after: Seq<char>,
    posts: Seq<PostView>,
)
    requires
        forall|at: int|
            occurs_at(before + POSTS_TOKEN@ + after, POSTS_TOKEN@, at) ==> at == before.len(),
    ensures
        list_page(before + POSTS_TOKEN@ + after, posts) == before + rows(posts) + after,
{
    reveal_strlit("{{posts}}");
    let token = POSTS_TOKEN@;
    let template = before + token + after;
    assert forall|at: int| !occurs_at(after, token, at) by {
        if 0 <= at {
            let n = (before.len() + token.len()) as int;
            lemma_occurs_after_skip(template, token, n, at);
            assert(template.skip(n) =~= after);
        }
    }
    lemma_substitute_absent(after, token, rows(posts));
    lemma_substitute_first(before, token, after, rows(posts));
}

/// The list page of a board without posts has no row: the token is gone
/// and the rest of the template is unchanged.
pub proof fn lemma_empty_list_page(before: Seq<char>, after: Seq<char>)
    requires
        forall|at: int|
            occurs_at(before + POSTS_TOKEN@ + after, POSTS_TOKEN@, at) ==> at == before.len(),
    ensures
        rows(Seq::<PostView>::empty()) == Seq::<char>::empty(),
        list_page(before + POSTS_TOKEN@ + after, Seq::empty()) == before + after,
{
    lemma_list_page_keeps_surroundings(before, after, Seq::empty());
}

/// A template without the list token is its own list page, whatever the
/// posts.
pub proof fn lemma_list_page_without_token(template: Seq<char>, posts: Seq<PostView>)
    requires
        forall|at: int| !occurs_at(template, POSTS_TOKEN@, at),
    ensures
        list_page(template, posts) == template,
{
    lemma_substitute_absent(template, POSTS_TOKEN@, rows(posts));
}

} // verus!
