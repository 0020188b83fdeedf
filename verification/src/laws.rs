//! Stream-level guarantees of the scanning rules, stated and proved once
//! over the spec functions that `Lexer::read_token` is verified against.

use crate::chars::{
    bytes_upto, is_digit_char, is_word_cont_char, is_word_start_char, is_ws_char,
    lemma_bytes_upto_mono,
};
use crate::error::TokenError;
use crate::scan::{
    char_sym, classify_word, digits_val, lemma_skip_ws_bounds, lemma_token_at_bounds, lex_all,
    lex_all_from, merge_sym, num_end, scan_number, skip_ws, token_at, word_end, wrap_i32,
};
use crate::token::TokenView;
use vstd::arithmetic::div_mod::lemma_small_mod;
use vstd::prelude::*;

verus! {

/// A digit run leaves the numeric scan where it was: consuming digits
/// changes only the position, never the mode.
proof fn lemma_num_run(s: Seq<char>, j: int, e: int, seen_dot: bool)
    requires
        0 <= j <= e <= s.len(),
        forall|m: int| j <= m < e ==> is_digit_char(s[m]),
    ensures
        num_end(s, j, seen_dot) == num_end(s, e, seen_dot),
    decreases e - j,
{
    if j < e {
        lemma_num_run(s, j + 1, e, seen_dot);
    }
}

/// A run of word characters leaves the word scan where it was.
proof fn lemma_word_run(s: Seq<char>, j: int, e: int)
    requires
        0 <= j <= e <= s.len(),
        forall|m: int| j <= m < e ==> is_word_cont_char(s[m]),
    ensures
        word_end(s, j) == word_end(s, e),
    decreases e - j,
{
    if j < e {
        lemma_word_run(s, j + 1, e);
    }
}

/// A character of the one-character symbol table is neither trivia, nor a
/// word start, nor a digit, nor a quote.
proof fn lemma_sym_char_class(c: char)
    requires
        char_sym(c) is Some,
    ensures
        !is_ws_char(c),
        !is_word_start_char(c),
        !is_digit_char(c),
        c != '"',
{
}

/// An ASCII digit is neither trivia, nor a word start, nor a quote, nor in
/// the symbol table.
proof fn lemma_digit_char_class(c: char)
    requires
        is_digit_char(c),
    ensures
        !is_ws_char(c),
        !is_word_start_char(c),
        c != '"',
        char_sym(c) is None,
{
}

/// Truncation to 32 bits is the identity on values already in range.
pub proof fn lemma_wrap_identity(v: int)
    requires
        i32::MIN <= v <= i32::MAX,
    ensures
        wrap_i32(v) == v,
{
    if v >= 0 {
        lemma_small_mod(v as nat, 0x1_0000_0000);
    } else {
        assert((v % 0x1_0000_0000) == v + 0x1_0000_0000) by {
            lemma_small_mod((v + 0x1_0000_0000) as nat, 0x1_0000_0000);
            assert((v % 0x1_0000_0000) == ((v + 0x1_0000_0000) % 0x1_0000_0000));
        };
    }
}

/// An input whose one token consumes it whole lexes to exactly that token,
/// spanning the full text.
proof fn lemma_single_token(s: Seq<char>)
    requires
        0 < s.len(),
        !is_ws_char(s[0]),
        token_at(s, 0).1 == s.len(),
    ensures
        lex_all(s) == seq![(token_at(s, 0).0, 0int, s.len() as int)],
{
    assert(skip_ws(s, 0) == 0);
    assert(skip_ws(s, s.len() as int) == s.len() as int);
    assert(lex_all_from(s, s.len() as int) =~= Seq::<(TokenView, int, int)>::empty());
    assert(lex_all(s) =~= seq![(token_at(s, 0).0, 0int, s.len() as int)]);
}

/// A run of digits scans as one numeric literal covering exactly the run,
/// in integer mode, with the run's value.
proof fn lemma_digit_text_scans(s: Seq<char>, w: Seq<char>, at: int)
    requires
        0 <= at,
        at + w.len() <= s.len(),
        w.len() > 0,
        forall|k: int| 0 <= k < w.len() ==> is_digit_char(w[k]),
        s.subrange(at, at + w.len()) == w,
        at + w.len() == s.len() || (!is_digit_char(s[at + w.len()]) && s[at + w.len()] != '.'),
    ensures
        num_end(s, at, false) == (at + w.len(), false),
        digits_val(s.subrange(at, num_end(s, at, false).0)) == digits_val(w),
{
    assert(forall|m: int| at <= m < at + w.len() ==> s[m] == w[m - at] && is_digit_char(s[m]));
    lemma_num_run(s, at, at + w.len(), false);
}

/// Lexing the decimal text of an integer in 32-bit range yields exactly one
/// 32-bit integer token with that value, spanning the full literal text.
pub proof fn lemma_integer_literal(w: Seq<char>)
    requires
        w.len() > 0,
        forall|k: int| 0 <= k < w.len() ==> is_digit_char(w[k]),
        digits_val(w) <= i32::MAX,
    ensures
        lex_all(w) == seq![
            (TokenView::LitI32(digits_val(w) as i32), 0int, w.len() as int),
        ],
{
    assert(w.subrange(0, w.len() as int) =~= w);
    lemma_digit_text_scans(w, w, 0);
    lemma_digit_char_class(w[0]);
    lemma_wrap_identity(digits_val(w) as int);
    assert(scan_number(w, 0, false) == Some(
        (TokenView::LitI32(digits_val(w) as i32), w.len() as int),
    ));
    lemma_single_token(w);
}

/// A leading `-` directly followed by a digit run folds into a single
/// negative-literal token, never a `Minus` token and a literal: the value
/// is negated before the 32-bit narrowing, and a run beyond the 64-bit
/// parse range is a single invalid-literal error.
pub proof fn lemma_negative_literal_folds(w: Seq<char>)
    requires
        w.len() > 0,
        forall|k: int| 0 <= k < w.len() ==> is_digit_char(w[k]),
    ensures
        digits_val(w) <= i64::MAX ==> lex_all(seq!['-'] + w) == seq![
            (
                TokenView::LitI32(wrap_i32(-(digits_val(w) as int))),
                0int,
                (w.len() + 1) as int,
            ),
        ],
        digits_val(w) > i64::MAX ==> lex_all(seq!['-'] + w) == seq![
            (TokenView::Unknown(TokenError::InvalidToken), 0int, (w.len() + 1) as int),
        ],
{
    let s = seq!['-'] + w;
    assert(s[0] == '-');
    assert(forall|k: int| 0 <= k < w.len() ==> s[1 + k] == w[k]);
    assert(s.subrange(1, 1 + w.len() as int) =~= w);
    lemma_digit_text_scans(s, w, 1);
    lemma_digit_char_class(w[0]);
    lemma_sym_char_class('-');
    assert(char_sym(s[1]) is None);
    assert(scan_number(s, 1, true) == Some(token_at(s, 0)));
    lemma_single_token(s);
}

/// Appending the `l` suffix to an integer literal widens it to 64 bits
/// while preserving the numeric value: without the suffix the same text
/// round-trips to the same value at 32-bit width.
pub proof fn lemma_long_suffix_widens(w: Seq<char>)
    requires
        w.len() > 0,
        forall|k: int| 0 <= k < w.len() ==> is_digit_char(w[k]),
        digits_val(w) <= i32::MAX,
    ensures
        lex_all(w) == seq![
            (TokenView::LitI32(digits_val(w) as i32), 0int, w.len() as int),
        ],
        lex_all(w + seq!['l']) == seq![
            (TokenView::LitI64(digits_val(w) as i64), 0int, (w.len() + 1) as int),
        ],
{
    lemma_integer_literal(w);
    let s = w + seq!['l'];
    assert(forall|k: int| 0 <= k < w.len() ==> s[k] == w[k]);
    assert(s.subrange(0, w.len() as int) =~= w);
    assert(s[w.len() as int] == 'l');
    lemma_digit_text_scans(s, w, 0);
    lemma_digit_char_class(s[0]);
    assert(scan_number(s, 0, false) == Some(
        (TokenView::LitI64(digits_val(w) as i64), s.len() as int),
    ));
    lemma_single_token(s);
}

/// Appending the `d` suffix to a decimal literal widens it to a 64-bit
/// float token while preserving the carried numeric text exactly.
pub proof fn lemma_double_suffix_keeps_text(a: Seq<char>, b: Seq<char>)
    requires
        a.len() > 0,
        forall|k: int| 0 <= k < a.len() ==> is_digit_char(a[k]),
        forall|k: int| 0 <= k < b.len() ==> is_digit_char(b[k]),
    ensures
        ({
            let w = a + seq!['.'] + b;
            lex_all(w) == seq![(TokenView::LitF32(w), 0int, w.len() as int)]
                && lex_all(w + seq!['d']) == seq![
                (TokenView::LitF64(w), 0int, (w.len() + 1) as int),
            ]
        }),
{
    let w = a + seq!['.'] + b;
    lemma_decimal_scans(w, a, b);
    lemma_digit_char_class(w[0]);
    lemma_single_token(w);
    let s = w + seq!['d'];
    assert(forall|k: int| 0 <= k < w.len() ==> s[k] == w[k]);
    lemma_decimal_scans(s, a, b);
    lemma_digit_char_class(s[0]);
    assert(s.subrange(0, w.len() as int) =~= w);
    assert(s[w.len() as int] == 'd');
    lemma_single_token(s);
}

/// A digits-dot-digits text scans as one numeric literal in decimal mode,
/// covering exactly the text.
proof fn lemma_decimal_scans(s: Seq<char>, a: Seq<char>, b: Seq<char>)
    requires
        a.len() > 0,
        forall|k: int| 0 <= k < a.len() ==> is_digit_char(a[k]),
        forall|k: int| 0 <= k < b.len() ==> is_digit_char(b[k]),
        s.len() >= a.len() + 1 + b.len(),
        forall|k: int| 0 <= k < a.len() + 1 + b.len() ==> s[k] == (a + seq!['.'] + b)[k],
        a.len() + 1 + b.len() == s.len() || (!is_digit_char(s[(a.len() + 1 + b.len()) as int])
            && s[(a.len() + 1 + b.len()) as int] != '.'),
    ensures
        num_end(s, 0, false) == ((a.len() + 1 + b.len()) as int, true),
        s.subrange(0, (a.len() + 1 + b.len()) as int) == a + seq!['.'] + b,
        is_digit_char(s[0]),
{
    let w = a + seq!['.'] + b;
    let al: int = a.len() as int;
    let e: int = al + 1 + b.len();
    assert(forall|k: int| 0 <= k < a.len() ==> w[k] == a[k]);
    assert(w[al] == '.');
    assert(forall|k: int| 0 <= k < b.len() ==> w[al + 1 + k] == b[k]);
    assert(forall|m: int| 0 <= m < al ==> is_digit_char(s[m]));
    lemma_num_run(s, 0, al, false);
    assert(s[al] == '.');
    assert(!is_digit_char('.'));
    assert(num_end(s, al, false) == num_end(s, al + 1, true));
    assert(forall|m: int| al + 1 <= m < e ==> is_digit_char(s[m]));
    lemma_num_run(s, al + 1, e, true);
    assert(num_end(s, e, true) == (e, true));
    assert(s.subrange(0, e) =~= w);
}

/// Every two-character merge-table entry, fed as exactly those two
/// characters, lexes to exactly one merged token, never two singles.
pub proof fn lemma_merge_pair(a: char, b: char, fa: TokenView, fb: TokenView, m: TokenView)
    requires
        char_sym(a) == Some(fa),
        char_sym(b) == Some(fb),
        merge_sym(fa, fb) == Some(m),
    ensures
        lex_all(seq![a, b]) == seq![(m, 0int, 2int)],
{
    let s = seq![a, b];
    lemma_sym_char_class(a);
    lemma_sym_char_class(b);
    assert(token_at(s, 0) == (m, 2int));
    lemma_single_token(s);
}

/// Two symbol-table characters with trivia between them lex to the two
/// single-character tokens, with spans excluding the trivia: no merge
/// reaches across the gap.
pub proof fn lemma_merge_pair_separated(a: char, b: char, c: char, fa: TokenView, fb: TokenView)
    requires
        char_sym(a) == Some(fa),
        char_sym(b) == Some(fb),
        is_ws_char(c),
    ensures
        lex_all(seq![a, c, b]) == seq![(fa, 0int, 1int), (fb, 2int, 3int)],
{
    let s = seq![a, c, b];
    lemma_sym_char_class(a);
    lemma_sym_char_class(b);
    assert(char_sym(s[1]) is None);
    assert(token_at(s, 0) == (fa, 1int));
    assert(skip_ws(s, 2) == 2);
    assert(skip_ws(s, 1) == 2);
    assert(token_at(s, 2) == (fb, 3int));
    assert(skip_ws(s, 3) == 3);
    assert(lex_all_from(s, 3) =~= Seq::<(TokenView, int, int)>::empty());
    assert(lex_all_from(s, 1) =~= seq![(fb, 2int, 3int)]);
    assert(lex_all(s) =~= seq![(fa, 0int, 1int)] + seq![(fb, 2int, 3int)]);
    assert(seq![(fa, 0int, 1int)] + seq![(fb, 2int, 3int)] =~= seq![
        (fa, 0int, 1int),
        (fb, 2int, 3int),
    ]);
}

/// A maximal run of word characters lexes to exactly one token carrying
/// the keyword table's verdict on the exact text: a keyword's variant for
/// a listed keyword, and an identifier carrying the text for any other
/// word.
pub proof fn lemma_word_classified(w: Seq<char>)
    requires
        w.len() > 0,
        is_word_start_char(w[0]),
        !is_ws_char(w[0]),
        forall|k: int| 0 <= k < w.len() ==> is_word_cont_char(w[k]),
    ensures
        lex_all(w) == seq![(classify_word(w), 0int, w.len() as int)],
{
    assert(w.subrange(0, w.len() as int) =~= w);
    lemma_word_run(w, 0, w.len() as int);
    assert(word_end(w, 0) == w.len() as int);
    assert(w[0] != '"');
    lemma_single_token(w);
}

/// Every identifier: any word that matches no keyword lexes to a single
/// identifier token carrying that exact text.
pub proof fn lemma_identifier(w: Seq<char>)
    requires
        w.len() > 0,
        is_word_start_char(w[0]),
        !is_ws_char(w[0]),
        forall|k: int| 0 <= k < w.len() ==> is_word_cont_char(w[k]),
        classify_word(w) == TokenView::Ident(w),
    ensures
        lex_all(w) == seq![(TokenView::Ident(w), 0int, w.len() as int)],
{
    lemma_word_classified(w);
}

/// Trivia never produces a token, and token ranges are orderly: every
/// token in the stream starts at a non-trivia character just past the
/// skipped run, ranges are nonempty, in bounds and strictly in order, and
/// between one token's end and the next token's start stands trivia alone.
pub proof fn lemma_stream_spans(s: Seq<char>, i: int)
    requires
        0 <= i <= s.len(),
    ensures
        lex_all_from(s, i).len() > 0 ==> lex_all_from(s, i)[0].1 == skip_ws(s, i),
        forall|k: int|
            0 <= k < lex_all_from(s, i).len() ==> {
                let t = #[trigger] lex_all_from(s, i)[k];
                &&& i <= t.1 < t.2 <= s.len()
                &&& !is_ws_char(s[t.1])
            },
        forall|k: int|
            0 <= k && k + 1 < lex_all_from(s, i).len() ==> #[trigger] lex_all_from(s, i)[k + 1].1
                == skip_ws(s, lex_all_from(s, i)[k].2),
        forall|k: int|
            0 <= k && k + 1 < lex_all_from(s, i).len() ==> lex_all_from(s, i)[k].2
                <= #[trigger] lex_all_from(s, i)[k + 1].1,
        forall|k: int, g: int|
            #![trigger lex_all_from(s, i)[k], s[g]]
            0 <= k && k + 1 < lex_all_from(s, i).len() && lex_all_from(s, i)[k].2 <= g
                < lex_all_from(s, i)[k + 1].1 ==> is_ws_char(s[g]),
    decreases s.len() - i,
{
    lemma_skip_ws_bounds(s, i);
    let j = skip_ws(s, i);
    if j < s.len() {
        lemma_token_at_bounds(s, j);
        let r = token_at(s, j);
        lemma_stream_spans(s, r.1);
        lemma_skip_ws_bounds(s, r.1);
        let head = (r.0, j, r.1);
        let tail = lex_all_from(s, r.1);
        assert(lex_all_from(s, i) == seq![head] + tail);
        assert(lex_all_from(s, i)[0] == head);
        assert(forall|k: int| 0 <= k < tail.len() ==> lex_all_from(s, i)[k + 1] == tail[k]);
    }
}

/// Lexing the decimal text of a negative integer in 32-bit range yields
/// exactly one 32-bit integer token with that negative value, spanning the
/// full literal text, sign included.
pub proof fn lemma_negative_integer_literal(w: Seq<char>)
    requires
        w.len() > 0,
        forall|k: int| 0 <= k < w.len() ==> is_digit_char(w[k]),
        -(digits_val(w) as int) >= i32::MIN,
    ensures
        lex_all(seq!['-'] + w) == seq![
            (
                TokenView::LitI32((-(digits_val(w) as int)) as i32),
                0int,
                (w.len() + 1) as int,
            ),
        ],
{
    lemma_negative_literal_folds(w);
    lemma_wrap_identity(-(digits_val(w) as int));
}

/// Byte spans follow character positions: adjacent tokens' byte ranges
/// never overlap, since byte offsets grow with character positions.
pub proof fn lemma_byte_spans_ordered(s: Seq<char>, i: int, k: int)
    requires
        0 <= i <= s.len(),
        0 <= k,
        k + 1 < lex_all_from(s, i).len(),
    ensures
        bytes_upto(s, lex_all_from(s, i)[k].2) <= bytes_upto(s, lex_all_from(s, i)[k + 1].1),
{
    lemma_stream_spans(s, i);
    lemma_bytes_upto_mono(s, lex_all_from(s, i)[k].2, lex_all_from(s, i)[k + 1].1);
}

} // verus!

