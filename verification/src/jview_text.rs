//! Strings as sequences of characters.
//!
//! Every length and offset in this crate counts Unicode scalar values, never
//! bytes, so that cutting a line can not split a character.

use vstd::prelude::*;

verus! {

/// The character sequences of a list of strings, in order.
pub open spec fn texts(lines: Seq<String>) -> Seq<Seq<char>> {
    Seq::new(lines.len(), |i: int| lines[i]@)
}

/// Trusted: `String::push` appends exactly the given character and leaves
/// the characters before it as they were.
#[verifier::external_body]
pub(crate) fn push_char(text: &mut String, c: char)
    ensures
        final(text)@ == old(text)@.push(c),
{
    text.push(c);
}

/// Trusted: `String::pop` removes the last character and returns it, or
/// returns `None` and changes nothing when the string is empty.
#[verifier::external_body]
pub(crate) fn pop_char(text: &mut String) -> (last: Option<char>)
    ensures
        old(text)@.len() == 0 ==> last is None && final(text)@ == old(text)@,
        old(text)@.len() > 0 ==> last == Some(old(text)@.last()) && final(text)@ == old(
            text,
        )@.drop_last(),
{
    text.pop()
}

/// The part of `line` from character `from` on, empty when `from` is at or
/// past the end.
pub open spec fn tail_from(line: Seq<char>, from: nat) -> Seq<char> {
    if line.len() > from {
        line.skip(from as int)
    } else {
        Seq::empty()
    }
}

/// Copies the part of `line` that starts at character `from`.
pub fn string_tail(line: &str, from: usize) -> (r: String)
    ensures
        r@ == tail_from(line@, from as nat),
{
    let len = line.unicode_len();
    if len > from {
        line.substring_char(from, len).to_owned()
    } else {
        String::new()
    }
}

/// Index of the first line feed in `s`, or the length of `s` when it has
/// none.
pub open spec fn first_newline(s: Seq<char>) -> int
    decreases s.len(),
{
    if s.len() == 0 {
        0
    } else if s[0] == '\n' {
        0
    } else {
        1 + first_newline(s.skip(1))
    }
}

/// `line` without the carriage return at its end, if it has one there.
pub open spec fn without_cr(line: Seq<char>) -> Seq<char> {
    if line.len() > 0 && line.last() == '\r' {
        line.drop_last()
    } else {
        line
    }
}

/// The lines of a text. A line ends at a line feed, or at a carriage
/// return and a line feed, neither of which belongs to the line. What
/// stands behind the last line feed is a line too, unless it is empty, and
/// keeps a carriage return at its end.
pub open spec fn lines_spec(s: Seq<char>) -> Seq<Seq<char>>
    decreases s.len(),
{
    if s.len() == 0 {
        Seq::empty()
    } else {
        let n = first_newline(s);
        if 0 <= n < s.len() {
            seq![without_cr(s.take(n))] + lines_spec(s.skip(n + 1))
        } else {
            seq![s]
        }
    }
}

/// The first line feed of `head + tail` is that of `tail` when `head` has none.
proof fn lemma_first_newline_skips(head: Seq<char>, tail: Seq<char>)
    requires
        forall|k: int| 0 <= k < head.len() ==> head[k] != '\n',
    ensures
        first_newline(head + tail) == head.len() + first_newline(tail),
        0 <= first_newline(tail) <= tail.len(),
    decreases head.len() + tail.len(),
{
    if head.len() > 0 {
        assert((head + tail).skip(1) =~= head.skip(1) + tail);
        lemma_first_newline_skips(head.skip(1), tail);
    } else {
        assert(head + tail =~= tail);
        if tail.len() > 0 && tail[0] != '\n' {
            lemma_first_newline_skips(head, tail.skip(1));
            assert(head + tail.skip(1) =~= tail.skip(1));
        }
    }
}

/// Splits a text into its lines.
pub fn split_lines(text: &str) -> (lines: Vec<String>)
    ensures
        texts(lines@) == lines_spec(text@),
{
    let mut lines: Vec<String> = Vec::new();
    let mut line = String::new();
    let mut after_cr = false;
    assert(line@ + text@.skip(0) =~= text@);
    for c in it: text.chars()
        invariant
            it.seq() == text@,
            forall|k: int| 0 <= k < line@.len() ==> line@[k] != '\n',
            after_cr == (line@.len() > 0 && line@.last() == '\r'),
            lines_spec(text@) == texts(lines@) + lines_spec(
                line@ + text@.skip(it.index() as int),
            ),
    {
        let ghost at = it.index() as int;
        let ghost rest = text@.skip(at);
        let ghost whole = line@ + rest;
        if c == '\n' {
            proof {
                lemma_first_newline_skips(line@, rest);
                assert(first_newline(whole) == line@.len());
                assert(whole.take(line@.len() as int) =~= line@);
                assert(whole.skip(line@.len() as int + 1) =~= text@.skip(at + 1));
                assert(Seq::<char>::empty() + text@.skip(at + 1) =~= text@.skip(at + 1));
            }
            if after_cr {
                let _ = pop_char(&mut line);
            }
            let ghost before = texts(lines@);
            lines.push(line);
            assert(texts(lines@) =~= before + seq![without_cr(whole.take(first_newline(whole)))]);
            line = String::new();
            after_cr = false;
        } else {
            push_char(&mut line, c);
            after_cr = c == '\r';
            assert(line@ + text@.skip(at + 1) =~= whole);
        }
    }
    proof {
        assert(line@ + text@.skip(text@.len() as int) =~= line@);
        lemma_first_newline_skips(line@, Seq::empty());
        assert(line@ + Seq::<char>::empty() =~= line@);
    }
    if !line.as_str().is_empty() {
        let ghost before = texts(lines@);
        lines.push(line);
        assert(texts(lines@) =~= before + seq![line@]);
    }
    lines
}

} // verus!
