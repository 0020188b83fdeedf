//! Character classification and UTF-8 byte accounting.
//!
//! The lexer's rules are driven by four character classes: trivia
//! (whitespace), word characters (for keywords and identifiers), ASCII
//! digits, and the quote.  Spans are measured in bytes, so the byte width of
//! each character's UTF-8 encoding is defined here as well.

use vstd::prelude::*;

verus! {

/// The Unicode `White_Space` code points: the characters the lexer skips as
/// trivia between tokens.
pub open spec fn is_ws_char(c: char) -> bool {
    let u = c as u32;
    u == 0x09 || u == 0x0a || u == 0x0b || u == 0x0c || u == 0x0d || u == 0x20 || u == 0x85
        || u == 0xa0 || u == 0x1680 || (0x2000 <= u && u <= 0x200a) || u == 0x2028 || u == 0x2029
        || u == 0x202f || u == 0x205f || u == 0x3000
}

/// Whether `c` is trivia, skipped between tokens.
pub fn is_trivia(c: char) -> (r: bool)
    ensures
        r == is_ws_char(c),
{
    let u = c as u32;
    u == 0x09 || u == 0x0a || u == 0x0b || u == 0x0c || u == 0x0d || u == 0x20 || u == 0x85
        || u == 0xa0 || u == 0x1680 || (0x2000 <= u && u <= 0x200a) || u == 0x2028 || u == 0x2029
        || u == 0x202f || u == 0x205f || u == 0x3000
}

/// Whether `c` is an ASCII decimal digit.
pub open spec fn is_digit_char(c: char) -> bool {
    0x30 <= (c as u32) && (c as u32) <= 0x39
}

/// The numeric value of an ASCII decimal digit.
pub open spec fn digit_val(c: char) -> nat {
    ((c as u32) - 0x30) as nat
}

/// Whether `c` is an ASCII decimal digit.
pub fn is_digit(c: char) -> (r: bool)
    ensures
        r == is_digit_char(c),
{
    let u = c as u32;
    0x30 <= u && u <= 0x39
}

/// The `Alphabetic` property beyond ASCII, left abstract.
pub uninterp spec fn unicode_alpha(c: char) -> bool;

/// The `is_alphanumeric` classification beyond ASCII, left abstract.
pub uninterp spec fn unicode_alnum(c: char) -> bool;

/// The Unicode `Alphabetic` property: on ASCII, exactly the letters.
pub open spec fn is_alpha_char(c: char) -> bool {
    let u = c as u32;
    if u < 0x80 {
        (0x41 <= u && u <= 0x5a) || (0x61 <= u && u <= 0x7a)
    } else {
        unicode_alpha(c)
    }
}

/// Alphabetic-or-numeric: on ASCII, exactly the letters and digits.
pub open spec fn is_alnum_char(c: char) -> bool {
    let u = c as u32;
    if u < 0x80 {
        (0x41 <= u && u <= 0x5a) || (0x61 <= u && u <= 0x7a) || (0x30 <= u && u <= 0x39)
    } else {
        unicode_alnum(c)
    }
}

/// Relies on char::is_alphabetic: true exactly of characters with the Unicode
/// `Alphabetic` property, which on ASCII holds of the letters alone.
pub assume_specification[ char::is_alphabetic ](c: char) -> (r: bool)
    ensures
        r == is_alpha_char(c),
        (c as u32) >= 0x80 ==> r == unicode_alpha(c),
;

/// Relies on char::is_alphanumeric: true exactly of characters that are
/// alphabetic or numeric, which on ASCII are the letters and digits alone.
pub assume_specification[ char::is_alphanumeric ](c: char) -> (r: bool)
    ensures
        r == is_alnum_char(c),
        (c as u32) >= 0x80 ==> r == unicode_alnum(c),
;

/// Whether `c` may begin a keyword or identifier: alphabetic or `_`.
pub open spec fn is_word_start_char(c: char) -> bool {
    is_alpha_char(c) || c == '_'
}

/// Whether `c` may continue a keyword or identifier: alphanumeric or `_`.
pub open spec fn is_word_cont_char(c: char) -> bool {
    is_alnum_char(c) || c == '_'
}

/// Whether `c` may begin a keyword or identifier.
pub fn is_word_start(c: char) -> (r: bool)
    ensures
        r == is_word_start_char(c),
{
    c.is_alphabetic() || c == '_'
}

/// Whether `c` may continue a keyword or identifier.
pub fn is_word_cont(c: char) -> (r: bool)
    ensures
        r == is_word_cont_char(c),
{
    c.is_alphanumeric() || c == '_'
}

/// The byte width of `c`'s UTF-8 encoding.
pub open spec fn char_bytes(c: char) -> nat {
    let u = c as u32;
    if u < 0x80 {
        1
    } else if u < 0x800 {
        2
    } else if u < 0x10000 {
        3
    } else {
        4
    }
}

/// The byte length of a character sequence under UTF-8.
pub open spec fn bytes_len(s: Seq<char>) -> nat
    decreases s.len(),
{
    if s.len() == 0 {
        0
    } else {
        bytes_len(s.drop_last()) + char_bytes(s.last())
    }
}

/// The byte offset of the `i`-th character: the byte length of the prefix
/// before it.
pub open spec fn bytes_upto(s: Seq<char>, i: int) -> nat {
    bytes_len(s.take(i))
}

/// The byte width of `c`'s UTF-8 encoding.
pub fn utf8_width(c: char) -> (n: usize)
    ensures
        n == char_bytes(c),
{
    let u = c as u32;
    if u < 0x80 {
        1
    } else if u < 0x800 {
        2
    } else if u < 0x10000 {
        3
    } else {
        4
    }
}

/// Consuming one more character adds exactly its width to the byte offset.
pub proof fn lemma_bytes_upto_step(s: Seq<char>, i: int)
    requires
        0 <= i < s.len(),
    ensures
        bytes_upto(s, i + 1) == bytes_upto(s, i) + char_bytes(s[i]),
{
    assert(s.take(i + 1).drop_last() =~= s.take(i));
    assert(s.take(i + 1).last() == s[i]);
}

/// Byte offsets grow with character positions.
pub proof fn lemma_bytes_upto_mono(s: Seq<char>, i: int, j: int)
    requires
        0 <= i <= j <= s.len(),
    ensures
        bytes_upto(s, i) <= bytes_upto(s, j),
    decreases j - i,
{
    if i < j {
        lemma_bytes_upto_mono(s, i, j - 1);
        lemma_bytes_upto_step(s, j - 1);
    }
}

/// The byte offset past the last character is the whole byte length.
pub proof fn lemma_bytes_upto_full(s: Seq<char>)
    ensures
        bytes_upto(s, s.len() as int) == bytes_len(s),
{
    assert(s.take(s.len() as int) =~= s);
}

/// Relies on String::push: appends the character to the end of the string.
#[verifier::external_body]
pub fn push_char(s: &mut String, c: char)
    ensures
        final(s)@ == old(s)@.push(c),
{
    s.push(c);
}

} // verus!
