//! Text helpers shared by the other modules.

use vstd::prelude::*;

verus! {

/// Equality of string slices, as `str`'s `PartialEq` documents it: two slices
/// are equal exactly when they hold the same characters.
pub assume_specification[ <str as PartialEq>::eq ](a: &str, b: &str) -> (r: bool)
    ensures
        r == (a@ == b@),
;

/// `String::push`: appends one character at the end of the string.
#[verifier::external_body]
pub(crate) fn push_char(s: &mut String, c: char)
    ensures
        final(s)@ == old(s)@.push(c),
{
    s.push(c)
}

/// `String::from_utf8`: the text that `bytes` encode, if they are valid
/// UTF-8, and nothing otherwise.
#[verifier::external_body]
pub(crate) fn decode_text(bytes: Vec<u8>) -> (r: Option<String>)
    ensures
        r is Some <==> vstd::utf8::valid_utf8(bytes@),
        r matches Some(s) ==> s@ == vstd::utf8::decode_utf8(bytes@),
{
    String::from_utf8(bytes).ok()
}

/// Whether `char::is_whitespace` holds of `c`: whether the character has
/// Unicode's property `White_Space`.
pub uninterp spec fn white_space(c: char) -> bool;

/// `char::is_whitespace`. The result is `white_space` of the character.
#[verifier::external_body]
pub(crate) fn is_white_space(c: char) -> (r: bool)
    ensures
        r == white_space(c),
{
    c.is_whitespace()
}

/// The items of `parts`, each followed by `separator`, in one sequence.
pub open spec fn terminated(parts: Seq<Seq<char>>, separator: Seq<char>) -> Seq<char>
    decreases parts.len(),
{
    if parts.len() == 0 {
        Seq::empty()
    } else {
        terminated(parts.drop_last(), separator) + parts.last() + separator
    }
}

/// Whether `s` ends with `suffix`.
pub open spec fn has_suffix(s: Seq<char>, suffix: Seq<char>) -> bool {
    suffix.len() <= s.len() && s.subrange(s.len() - suffix.len(), s.len() as int) == suffix
}

/// A copy of `s`.
pub fn copy_text(s: &String) -> (r: String)
    ensures
        r@ == s@,
{
    s.clone()
}

/// A copy of an optional text.
pub fn copy_optional(s: &Option<String>) -> (r: Option<String>)
    ensures
        r.deep_view() == s.deep_view(),
{
    match s {
        Some(t) => Some(t.clone()),
        None => None,
    }
}

/// The characters of a text, one by one.
pub fn characters(text: &str) -> (r: Vec<char>)
    ensures
        r@ == text@,
{
    let mut out: Vec<char> = Vec::new();
    for c in it: text.chars()
        invariant
            it.seq() == text@,
            out@ == text@.take(it.index() as int),
    {
        out.push(c);
        assert(out@ =~= text@.take(it.index() + 1));
    }
    assert(text@.take(text@.len() as int) =~= text@);
    out
}

/// The text made of the characters of `s` from `start` up to `end`.
pub(crate) fn text_between(s: &Vec<char>, start: usize, end: usize) -> (r: String)
    requires
        start <= end <= s.len(),
    ensures
        r@ == s@.subrange(start as int, end as int),
{
    let mut out = String::new();
    let mut i: usize = start;
    while i < end
        invariant
            start <= i <= end <= s.len(),
            out@ == s@.subrange(start as int, i as int),
        decreases end - i,
    {
        push_char(&mut out, s[i]);
        i = i + 1;
        assert(out@ =~= s@.subrange(start as int, i as int));
    }
    out
}

/// The place of the first line feed in `s` at or after `from`; the length
/// of `s` where there is none.
pub open spec fn newline_from(s: Seq<char>, from: int) -> int
    decreases s.len() - from,
{
    if from < 0 || from >= s.len() {
        s.len() as int
    } else if s[from] == '\n' {
        from
    } else {
        newline_from(s, from + 1)
    }
}

/// The first line of a text, without the line feed and without a carriage
/// return before it.
pub open spec fn first_line(s: Seq<char>) -> Seq<char> {
    let line = s.take(newline_from(s, 0));
    if line.len() > 0 && line.last() == '\r' {
        line.drop_last()
    } else {
        line
    }
}

/// The first place at or after `from` that holds no white space; the
/// length of `s` where only white space follows.
pub open spec fn word_start(s: Seq<char>, from: int) -> int
    decreases s.len() - from,
{
    if from < 0 || from >= s.len() {
        s.len() as int
    } else if !white_space(s[from]) {
        from
    } else {
        word_start(s, from + 1)
    }
}

/// The first place at or after `from` that holds white space; the length
/// of `s` where none follows.
pub open spec fn word_end(s: Seq<char>, from: int) -> int
    decreases s.len() - from,
{
    if from < 0 || from >= s.len() {
        s.len() as int
    } else if white_space(s[from]) {
        from
    } else {
        word_end(s, from + 1)
    }
}

/// The word of `s` with the number `n`, counting from 0 the words that
/// start at or after `from`. A word is a longest run of characters that are
/// no white space.
pub open spec fn nth_word(s: Seq<char>, from: int, n: nat) -> Option<Seq<char>>
    decreases n,
{
    let start = word_start(s, from);
    if start >= s.len() {
        None
    } else if n == 0 {
        Some(s.subrange(start, word_end(s, start)))
    } else {
        nth_word(s, word_end(s, start), (n - 1) as nat)
    }
}

/// The first line of a text, as characters.
pub fn first_line_of(text: &str) -> (r: Vec<char>)
    ensures
        r@ == first_line(text@),
{
    let mut line = characters(text);
    let mut end: usize = 0;
    while end < line.len() && line[end] != '\n'
        invariant
            end <= line.len(),
            line@ == text@,
            newline_from(text@, 0) == newline_from(text@, end as int),
        decreases line.len() - end,
    {
        end = end + 1;
    }
    line.truncate(end);
    assert(line@ =~= text@.take(end as int));
    if end > 0 && line[end - 1] == '\r' {
        line.truncate(end - 1);
        assert(line@ =~= text@.take(end as int).drop_last());
    }
    line
}

/// The place where the next word starts.
fn next_word_start(s: &Vec<char>, from: usize) -> (r: usize)
    requires
        from <= s.len(),
    ensures
        r == word_start(s@, from as int),
        from <= r <= s.len(),
{
    let mut i: usize = from;
    loop
        invariant
            from <= i <= s.len(),
            word_start(s@, from as int) == word_start(s@, i as int),
        ensures
            from <= i <= s.len(),
            i == word_start(s@, from as int),
        decreases s.len() - i,
    {
        if i >= s.len() {
            break ;
        }
        if !is_white_space(s[i]) {
            break ;
        }
        i = i + 1;
    }
    i
}

/// The place where the word that starts at `from` ends.
fn this_word_end(s: &Vec<char>, from: usize) -> (r: usize)
    requires
        from <= s.len(),
    ensures
        r == word_end(s@, from as int),
        from <= r <= s.len(),
{
    let mut i: usize = from;
    loop
        invariant
            from <= i <= s.len(),
            word_end(s@, from as int) == word_end(s@, i as int),
        ensures
            from <= i <= s.len(),
            i == word_end(s@, from as int),
        decreases s.len() - i,
    {
        if i >= s.len() {
            break ;
        }
        if is_white_space(s[i]) {
            break ;
        }
        i = i + 1;
    }
    i
}

/// The word of `s` with the number `n`, counting from 0, if `s` has so
/// many words.
pub fn word(s: &Vec<char>, n: usize) -> (r: Option<String>)
    ensures
        r.deep_view() == nth_word(s@, 0, n as nat),
{
    let mut from: usize = 0;
    let mut left: usize = n;
    loop
        invariant
            from <= s.len(),
            nth_word(s@, 0, n as nat) == nth_word(s@, from as int, left as nat),
        decreases left,
    {
        let start = next_word_start(s, from);
        if start >= s.len() {
            return None;
        }
        let end = this_word_end(s, start);
        if left == 0 {
            return Some(text_between(s, start, end));
        }
        from = end;
        left = left - 1;
    }
}

} // verus!
