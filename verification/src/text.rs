//! Text as sequences of characters: conversion between strings and
//! character vectors, decimal numerals, and the substitution of a token.

use vstd::prelude::*;

verus! {

/// The characters of `s`, one by one.
pub fn chars_of(s: &str) -> (out: Vec<char>)
    ensures
        out@ == s@,
{
    let mut out: Vec<char> = Vec::new();
    for c in it: s.chars()
        invariant
            it.seq() == s@,
            out@ == s@.take(it.index() as int),
    {
        out.push(c);
    }
    out
}

/// Appends one character to a string.
///
/// Wraps `String::push` of the standard library, which appends the given
/// character to the end of the string and leaves the rest as it was.
#[verifier::external_body]
fn push_char(s: &mut String, c: char)
    ensures
        final(s)@ == old(s)@.push(c),
{
    s.push(c);
}

/// The string made of the characters of `chars`, in order.
pub fn string_of(chars: &Vec<char>) -> (out: String)
    ensures
        out@ == chars@,
{
    let mut out = String::new();
    let mut i: usize = 0;
    while i < chars.len()
        invariant
            i <= chars.len(),
            out@ == chars@.take(i as int),
        decreases chars.len() - i,
    {
        push_char(&mut out, chars[i]);
        i += 1;
    }
    out
}

/// Appends the characters of `more` to `out`.
pub fn append_chars(out: &mut Vec<char>, more: &Vec<char>)
    ensures
        final(out)@ == old(out)@ + more@,
{
    let mut i: usize = 0;
    while i < more.len()
        invariant
            i <= more.len(),
            out@ == old(out)@ + more@.take(i as int),
        decreases more.len() - i,
    {
        out.push(more[i]);
        i += 1;
    }
}

/// Appends the characters of the string `more` to `out`.
pub fn append_str(out: &mut Vec<char>, more: &str)
    ensures
        final(out)@ == old(out)@ + more@,
{
    for c in it: more.chars()
        invariant
            it.seq() == more@,
            out@ == old(out)@ + more@.take(it.index() as int),
    {
        out.push(c);
    }
}

/// The decimal digit for `d`, where `d` is below ten.
pub open spec fn digit(d: nat) -> char
    recommends
        d < 10,
{
    if d == 0 {
        '0'
    } else if d == 1 {
        '1'
    } else if d == 2 {
        '2'
    } else if d == 3 {
        '3'
    } else if d == 4 {
        '4'
    } else if d == 5 {
        '5'
    } else if d == 6 {
        '6'
    } else if d == 7 {
        '7'
    } else if d == 8 {
        '8'
    } else {
        '9'
    }
}

/// The decimal numeral of `n`: no sign, no leading zero but for zero itself.
pub open spec fn decimal(n: nat) -> Seq<char>
    decreases n,
{
    if n < 10 {
        seq![digit(n)]
    } else {
        decimal(n / 10).push(digit(n % 10))
    }
}

fn digit_char(d: usize) -> (c: char)
    requires
        d < 10,
    ensures
        c == digit(d as nat),
{
    if d == 0 {
        '0'
    } else if d == 1 {
        '1'
    } else if d == 2 {
        '2'
    } else if d == 3 {
        '3'
    } else if d == 4 {
        '4'
    } else if d == 5 {
        '5'
    } else if d == 6 {
        '6'
    } else if d == 7 {
        '7'
    } else if d == 8 {
        '8'
    } else {
        '9'
    }
}

/// Appends the decimal numeral of `n` to `out`.
pub fn append_decimal(out: &mut Vec<char>, n: usize)
    ensures
        final(out)@ == old(out)@ + decimal(n as nat),
    decreases n,
{
    if n >= 10 {
        append_decimal(out, n / 10);
    }
    out.push(digit_char(n % 10));
}

/// Whether `token` stands in `text` at position `at`.
pub open spec fn occurs_at(text: Seq<char>, token: Seq<char>, at: int) -> bool {
    &&& 0 <= at
    &&& at + token.len() <= text.len()
    &&& text.subrange(at, at + token.len()) == token
}

/// `text` with every occurrence of `token` replaced by `value`.
///
/// Occurrences are taken from left to right and do not overlap; what was
/// put in is not searched again. An empty token occurs nowhere.
pub open spec fn substitute(text: Seq<char>, token: Seq<char>, value: Seq<char>) -> Seq<char>
    decreases text.len(),
{
    if token.len() == 0 || text.len() == 0 {
        text
    } else if occurs_at(text, token, 0) {
        value + substitute(text.skip(token.len() as int), token, value)
    } else {
        seq![text[0]] + substitute(text.skip(1), token, value)
    }
}

/// Whether `token` is not empty and stands in `text` at position `at`.
pub open spec fn token_at(text: Seq<char>, token: Seq<char>, at: int) -> bool {
    token.len() > 0 && occurs_at(text, token, at)
}

/// Tells whether `token` stands in `text` at position `at`.
pub fn stands_at(text: &Vec<char>, token: &Vec<char>, at: usize) -> (found: bool)
    ensures
        found == occurs_at(text@, token@, at as int),
{
    if at > text.len() || token.len() > text.len() - at {
        return false;
    }
    let mut j: usize = 0;
    while j < token.len()
        invariant
            at + token.len() <= text.len(),
            j <= token.len(),
            forall|k: int| 0 <= k < j ==> text@[at + k] == token@[k],
        decreases token.len() - j,
    {
        if text[at + j] != token[j] {
            return false;
        }
        j += 1;
    }
    assert(text@.subrange(at as int, at + token.len()) =~= token@);
    true
}

/// Tells whether `token` is not empty and stands in `text` at position `at`.
pub fn finds_token(text: &Vec<char>, token: &Vec<char>, at: usize) -> (found: bool)
    ensures
        found == token_at(text@, token@, at as int),
{
    token.len() > 0 && stands_at(text, token, at)
}

/// Replaces every occurrence of `token` in `text` by `value`.
pub fn replace_all(text: &Vec<char>, token: &Vec<char>, value: &Vec<char>) -> (out: Vec<char>)
    ensures
        out@ == substitute(text@, token@, value@),
{
    let mut out: Vec<char> = Vec::new();
    if token.len() == 0 {
        append_chars(&mut out, text);
        return out;
    }
    let mut i: usize = 0;
    assert(text@.skip(0) =~= text@);
    while i < text.len()
        invariant
            token.len() > 0,
            i <= text.len(),
            out@ + substitute(text@.skip(i as int), token@, value@) == substitute(
                text@,
                token@,
                value@,
            ),
        decreases text.len() - i,
    {
        let ghost rest = text@.skip(i as int);
        if stands_at(text, token, i) {
            assert(occurs_at(rest, token@, 0)) by {
                assert(rest.subrange(0, token@.len() as int) =~= text@.subrange(
                    i as int,
                    i + token@.len(),
                ));
            }
            assert(rest.skip(token@.len() as int) =~= text@.skip(i + token@.len()));
            append_chars(&mut out, value);
            i += token.len();
        } else {
            assert(!occurs_at(rest, token@, 0)) by {
                if rest.len() >= token@.len() {
                    assert(rest.subrange(0, token@.len() as int) =~= text@.subrange(
                        i as int,
                        i + token@.len(),
                    ));
                }
            }
            assert(rest.skip(1) =~= text@.skip(i + 1));
            out.push(text[i]);
            i += 1;
        }
    }
    out
}

/// An occurrence in what is left of `text` after its first `n` characters
/// is an occurrence in `text`, `n` places further on.
pub proof fn lemma_occurs_after_skip(text: Seq<char>, token: Seq<char>, n: int, at: int)
    requires
        0 <= n <= text.len(),
        0 <= at,
    ensures
        occurs_at(text.skip(n), token, at) == occurs_at(text, token, n + at),
{
    if at + token.len() <= text.len() - n {
        assert(text.skip(n).subrange(at, at + token.len()) =~= text.subrange(
            n + at,
            n + at + token.len(),
        ));
    }
}

/// A text in which the token occurs nowhere comes out as it went in.
pub proof fn lemma_substitute_absent(text: Seq<char>, token: Seq<char>, value: Seq<char>)
    requires
        forall|at: int| !occurs_at(text, token, at),
    ensures
        substitute(text, token, value) == text,
    decreases text.len(),
{
    if token.len() > 0 && text.len() > 0 {
        assert forall|at: int| !occurs_at(text.skip(1), token, at) by {
            if 0 <= at {
                lemma_occurs_after_skip(text, token, 1, at);
            }
        }
        lemma_substitute_absent(text.skip(1), token, value);
    }
}

/// Where the token first occurs right after `before`, what stands before
/// it is kept, the value takes its place, and the substitution goes on in
/// what follows.
pub proof fn lemma_substitute_first(
    before: Seq<char>,
    token: Seq<char>,
    after: Seq<char>,
    value: Seq<char>,
)
    requires
        token.len() > 0,
        forall|at: int| 0 <= at < before.len() ==> !occurs_at(before + token + after, token, at),
    ensures
        substitute(before + token + after, token, value) == before + value + substitute(
            after,
            token,
            value,
        ),
    decreases before.len(),
{
    let text = before + token + after;
    if before.len() == 0 {
        assert(text.subrange(0, token.len() as int) =~= token);
        assert(text.skip(token.len() as int) =~= after);
    } else {
        let rest = before.skip(1);
        assert(text.skip(1) =~= rest + token + after);
        assert forall|at: int| 0 <= at < rest.len() implies !occurs_at(
            rest + token + after,
            token,
            at,
        ) by {
            lemma_occurs_after_skip(text, token, 1, at);
        }
        lemma_substitute_first(rest, token, after, value);
    }
}

} // verus!
