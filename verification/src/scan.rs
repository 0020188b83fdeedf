//! The scanning rules, stated once as spec functions over character
//! sequences.
//!
//! A position is a character index into the source sequence; byte offsets
//! for spans are recovered through `chars::bytes_upto`.  Rules are tried in
//! the lexer's fixed precedence order: string literal, keyword/identifier,
//! numeric literal, symbol, and an unknown-character error as the explicit
//! last resort.

use crate::chars::{
    digit_val, is_digit_char, is_word_cont_char, is_word_start_char, is_ws_char,
};
use crate::error::TokenError;
use crate::token::TokenView;
use vstd::prelude::*;

verus! {

/// The first position at or after `i` holding a non-trivia character, or the
/// end of input.
pub open spec fn skip_ws(s: Seq<char>, i: int) -> int
    decreases s.len() - i when 0 <= i <= s.len()
{
    if i < s.len() && is_ws_char(s[i]) {
        skip_ws(s, i + 1)
    } else {
        i
    }
}

/// The position of the first `"` at or after `j`, if any.
pub open spec fn close_quote(s: Seq<char>, j: int) -> Option<int>
    decreases s.len() - j when 0 <= j <= s.len()
{
    if j >= s.len() {
        None
    } else if s[j] == '"' {
        Some(j)
    } else {
        close_quote(s, j + 1)
    }
}

/// The end of the maximal run of word characters starting at `j`.
pub open spec fn word_end(s: Seq<char>, j: int) -> int
    decreases s.len() - j when 0 <= j <= s.len()
{
    if j < s.len() && is_word_cont_char(s[j]) {
        word_end(s, j + 1)
    } else {
        j
    }
}

/// The end of the maximal run of digits and at most one `.` starting at `j`,
/// together with whether a `.` was consumed (decimal mode).
pub open spec fn num_end(s: Seq<char>, j: int, seen_dot: bool) -> (int, bool)
    decreases s.len() - j when 0 <= j <= s.len()
{
    if j < s.len() && (is_digit_char(s[j]) || (s[j] == '.' && !seen_dot)) {
        num_end(s, j + 1, seen_dot || s[j] == '.')
    } else {
        (j, seen_dot)
    }
}

/// The value of a run of ASCII decimal digits.
pub open spec fn digits_val(w: Seq<char>) -> nat
    decreases w.len(),
{
    if w.len() == 0 {
        0
    } else {
        digits_val(w.drop_last()) * 10 + digit_val(w.last())
    }
}

/// Two's-complement truncation to 32 bits: the narrowing an unsuffixed
/// integer literal undergoes after its 64-bit parse.
pub open spec fn wrap_i32(v: int) -> i32 {
    let m = v % 0x1_0000_0000;
    if m >= 0x8000_0000 {
        (m - 0x1_0000_0000) as i32
    } else {
        m as i32
    }
}

/// The fixed keyword table: the exact texts that are keywords (or the
/// literals `null`, `true`, `false`); every other word is an identifier
/// carrying its text.
pub open spec fn classify_word(w: Seq<char>) -> TokenView {
    if w == "null"@ {
        TokenView::LitNull
    } else if w == "true"@ {
        TokenView::LitBool(true)
    } else if w == "false"@ {
        TokenView::LitBool(false)
    } else if w == "fn"@ {
        TokenView::KwFn
    } else if w == "rec"@ {
        TokenView::KwRec
    } else if w == "if"@ {
        TokenView::KwIf
    } else if w == "else"@ {
        TokenView::KwElse
    } else if w == "while"@ {
        TokenView::KwWhile
    } else if w == "for"@ {
        TokenView::KwFor
    } else if w == "return"@ {
        TokenView::KwReturn
    } else if w == "break"@ {
        TokenView::KwBreak
    } else if w == "continue"@ {
        TokenView::KwContinue
    } else if w == "void"@ {
        TokenView::KwVoid
    } else if w == "i32"@ {
        TokenView::KwI32
    } else if w == "i64"@ {
        TokenView::KwI64
    } else if w == "f32"@ {
        TokenView::KwF32
    } else if w == "f64"@ {
        TokenView::KwF64
    } else if w == "bool"@ {
        TokenView::KwBool
    } else if w == "string"@ {
        TokenView::KwStr
    } else if w == "struct"@ {
        TokenView::KwStruct
    } else if w == "impl"@ {
        TokenView::KwImpl
    } else if w == "let"@ {
        TokenView::KwLet
    } else if w == "const"@ {
        TokenView::KwConst
    } else if w == "inline"@ {
        TokenView::KwInline
    } else if w == "use"@ {
        TokenView::KwUse
    } else if w == "as"@ {
        TokenView::KwAs
    } else if w == "mod"@ {
        TokenView::KwMod
    } else if w == "pub"@ {
        TokenView::KwPub
    } else {
        TokenView::Ident(w)
    }
}

/// The fixed one-character symbol table.
pub open spec fn char_sym(c: char) -> Option<TokenView> {
    if c == '+' {
        Some(TokenView::Plus)
    } else if c == '-' {
        Some(TokenView::Minus)
    } else if c == '*' {
        Some(TokenView::Star)
    } else if c == '/' {
        Some(TokenView::Slash)
    } else if c == '%' {
        Some(TokenView::Percent)
    } else if c == '!' {
        Some(TokenView::Exclamation)
    } else if c == '&' {
        Some(TokenView::Ampersand)
    } else if c == '|' {
        Some(TokenView::Pipe)
    } else if c == '=' {
        Some(TokenView::Assign)
    } else if c == ',' {
        Some(TokenView::Comma)
    } else if c == ';' {
        Some(TokenView::Semicolon)
    } else if c == ':' {
        Some(TokenView::Colon)
    } else if c == '.' {
        Some(TokenView::Dot)
    } else if c == '(' {
        Some(TokenView::LParen)
    } else if c == ')' {
        Some(TokenView::RParen)
    } else if c == '{' {
        Some(TokenView::LBrace)
    } else if c == '}' {
        Some(TokenView::RBrace)
    } else if c == '[' {
        Some(TokenView::LBracket)
    } else if c == ']' {
        Some(TokenView::RBracket)
    } else if c == '<' {
        Some(TokenView::LAngle)
    } else if c == '>' {
        Some(TokenView::RAngle)
    } else {
        None
    }
}

/// The fixed two-character merge table, keyed by the ordered pair of
/// single-character tokens.  A longer match always wins over its one-character
/// prefix.
pub open spec fn merge_sym(first: TokenView, second: TokenView) -> Option<TokenView> {
    match (first, second) {
        (TokenView::LAngle, TokenView::Assign) => Some(TokenView::Leq),
        (TokenView::RAngle, TokenView::Assign) => Some(TokenView::Geq),
        (TokenView::Assign, TokenView::Assign) => Some(TokenView::Equal),
        (TokenView::Exclamation, TokenView::Assign) => Some(TokenView::NotEqual),
        (TokenView::Plus, TokenView::Assign) => Some(TokenView::PlusAssign),
        (TokenView::Minus, TokenView::Assign) => Some(TokenView::MinusAssign),
        (TokenView::Star, TokenView::Assign) => Some(TokenView::StarAssign),
        (TokenView::Slash, TokenView::Assign) => Some(TokenView::SlashAssign),
        (TokenView::Percent, TokenView::Assign) => Some(TokenView::PercentAssign),
        (TokenView::Ampersand, TokenView::Ampersand) => Some(TokenView::And),
        (TokenView::Pipe, TokenView::Pipe) => Some(TokenView::Or),
        (TokenView::Plus, TokenView::Plus) => Some(TokenView::PlusPlus),
        (TokenView::Minus, TokenView::Minus) => Some(TokenView::MinusMinus),
        (TokenView::Minus, TokenView::RAngle) => Some(TokenView::Arrow),
        (TokenView::Colon, TokenView::Colon) => Some(TokenView::DoubleColon),
        _ => None,
    }
}

/// Rule: a string literal, fired when the next character is `"`.  Characters
/// are taken verbatim (no escapes) up to the closing quote; input exhausted
/// first means an unclosed-string error that consumes the rest.
pub open spec fn scan_string(s: Seq<char>, i: int) -> Option<(TokenView, int)> {
    if 0 <= i < s.len() && s[i] == '"' {
        match close_quote(s, i + 1) {
            Some(k) => Some((TokenView::LitStr(s.subrange(i + 1, k)), k + 1)),
            None => Some((TokenView::Unknown(TokenError::UnclosedString), s.len() as int)),
        }
    } else {
        None
    }
}

/// Rule: a keyword or identifier, fired when the next character is a word
/// start; consumes the maximal word run and classifies it against the
/// keyword table.
pub open spec fn scan_word(s: Seq<char>, i: int) -> Option<(TokenView, int)> {
    if 0 <= i < s.len() && is_word_start_char(s[i]) {
        let e = word_end(s, i);
        if e == i {
            None
        } else {
            Some((classify_word(s.subrange(i, e)), e))
        }
    } else {
        None
    }
}

/// Rule: a numeric literal, fired when the next character is a digit.  The
/// digit run (with at most one `.`) is parsed; a `.` switches to decimal
/// mode.  An integer literal takes an optional `l` suffix (64-bit; absent
/// means narrowing to 32 bits by truncation); a decimal literal takes an
/// optional `d` suffix (64-bit float; absent means 32-bit) and carries its
/// numeric text.  An integer run whose value exceeds the 64-bit parse is an
/// invalid-literal error, with no suffix consumed.
pub open spec fn scan_number(s: Seq<char>, i: int, negate: bool) -> Option<(TokenView, int)> {
    if 0 <= i < s.len() && is_digit_char(s[i]) {
        let e = num_end(s, i, false).0;
        let decimal = num_end(s, i, false).1;
        let text = s.subrange(i, e);
        if decimal {
            let full = if negate {
                seq!['-'] + text
            } else {
                text
            };
            if e < s.len() && s[e] == 'd' {
                Some((TokenView::LitF64(full), e + 1))
            } else {
                Some((TokenView::LitF32(full), e))
            }
        } else {
            let v = digits_val(text);
            if v > i64::MAX {
                Some((TokenView::Unknown(TokenError::InvalidToken), e))
            } else {
                let sv: int = if negate {
                    -(v as int)
                } else {
                    v as int
                };
                if e < s.len() && s[e] == 'l' {
                    Some((TokenView::LitI64(sv as i64), e + 1))
                } else {
                    Some((TokenView::LitI32(wrap_i32(sv)), e))
                }
            }
        }
    } else {
        None
    }
}

/// Rule: a symbol, fired when the next character is in the one-character
/// table.  A second table character merging with the first wins; failing
/// that, a `-` directly followed by a digit folds into a negative numeric
/// literal; otherwise the single-character token stands.
pub open spec fn scan_symbol(s: Seq<char>, i: int) -> Option<(TokenView, int)> {
    if 0 <= i < s.len() {
        match char_sym(s[i]) {
            None => None,
            Some(first) => {
                let merged = if i + 1 < s.len() {
                    match char_sym(s[i + 1]) {
                        Some(second) => merge_sym(first, second),
                        None => None,
                    }
                } else {
                    None
                };
                match merged {
                    Some(m) => Some((m, i + 2)),
                    None => {
                        if first == TokenView::Minus && i + 1 < s.len() && is_digit_char(
                            s[i + 1],
                        ) {
                            scan_number(s, i + 1, true)
                        } else {
                            Some((first, i + 1))
                        }
                    },
                }
            },
        }
    } else {
        None
    }
}

/// One token-or-error at position `i` (which must hold a non-trivia
/// character): the rules in precedence order, with an unknown-character
/// error consuming exactly one character as the explicit last resort.
pub open spec fn token_at(s: Seq<char>, i: int) -> (TokenView, int) {
    match scan_string(s, i) {
        Some(r) => r,
        None => match scan_word(s, i) {
            Some(r) => r,
            None => match scan_number(s, i, false) {
                Some(r) => r,
                None => match scan_symbol(s, i) {
                    Some(r) => r,
                    None => (TokenView::Unknown(TokenError::UnknownCharacter(s[i])), i + 1),
                },
            },
        },
    }
}

/// Trivia skipping lands in bounds, passes only trivia, and stops at a
/// non-trivia character or the end.
pub proof fn lemma_skip_ws_bounds(s: Seq<char>, i: int)
    requires
        0 <= i <= s.len(),
    ensures
        i <= skip_ws(s, i) <= s.len(),
        forall|k: int| i <= k < skip_ws(s, i) ==> is_ws_char(s[k]),
        skip_ws(s, i) < s.len() ==> !is_ws_char(s[skip_ws(s, i)]),
    decreases s.len() - i,
{
    if i < s.len() && is_ws_char(s[i]) {
        lemma_skip_ws_bounds(s, i + 1);
    }
}

/// The closing-quote search lands in bounds: a hit is the first quote at or
/// after `j`; a miss means no quote remains.
pub proof fn lemma_close_quote_bounds(s: Seq<char>, j: int)
    requires
        0 <= j <= s.len(),
    ensures
        match close_quote(s, j) {
            Some(k) => j <= k < s.len() && s[k] == '"' && forall|m: int|
                j <= m < k ==> s[m] != '"',
            None => forall|m: int| j <= m < s.len() ==> s[m] != '"',
        },
    decreases s.len() - j,
{
    if j < s.len() && s[j] != '"' {
        lemma_close_quote_bounds(s, j + 1);
    }
}

/// The word run lands in bounds, covers only word characters, and is
/// maximal.
pub proof fn lemma_word_end_bounds(s: Seq<char>, j: int)
    requires
        0 <= j <= s.len(),
    ensures
        j <= word_end(s, j) <= s.len(),
        forall|m: int| j <= m < word_end(s, j) ==> is_word_cont_char(s[m]),
        word_end(s, j) < s.len() ==> !is_word_cont_char(s[word_end(s, j)]),
    decreases s.len() - j,
{
    if j < s.len() && is_word_cont_char(s[j]) {
        lemma_word_end_bounds(s, j + 1);
    }
}

/// The numeric run lands in bounds and covers only digits and dots.
pub proof fn lemma_num_end_bounds(s: Seq<char>, j: int, seen_dot: bool)
    requires
        0 <= j <= s.len(),
    ensures
        j <= num_end(s, j, seen_dot).0 <= s.len(),
        forall|m: int|
            j <= m < num_end(s, j, seen_dot).0 ==> is_digit_char(s[m]) || s[m] == '.',
    decreases s.len() - j,
{
    if j < s.len() && (is_digit_char(s[j]) || (s[j] == '.' && !seen_dot)) {
        lemma_num_end_bounds(s, j + 1, seen_dot || s[j] == '.');
    }
}

/// Every rule consumes at least one character and stays within the input.
pub proof fn lemma_token_at_bounds(s: Seq<char>, i: int)
    requires
        0 <= i < s.len(),
    ensures
        i < token_at(s, i).1 <= s.len(),
{
    lemma_close_quote_bounds(s, i + 1);
    lemma_word_end_bounds(s, i);
    lemma_num_end_bounds(s, i, false);
    if i + 1 < s.len() {
        lemma_num_end_bounds(s, i + 1, false);
    }
}

/// The whole stream of tokens-or-errors from position `i`, each with the
/// character range it covers: what repeatedly pulling tokens yields, end of
/// input excluded.
pub open spec fn lex_all_from(s: Seq<char>, i: int) -> Seq<(TokenView, int, int)>
    decreases s.len() - i when 0 <= i <= s.len()
{
    let j = skip_ws(s, i);
    if !(0 <= i <= s.len()) || j >= s.len() {
        Seq::empty()
    } else {
        proof {
            lemma_skip_ws_bounds(s, i);
            lemma_token_at_bounds(s, j);
        }
        let r = token_at(s, j);
        seq![(r.0, j, r.1)] + lex_all_from(s, r.1)
    }
}

/// The token stream over a whole source text.
pub open spec fn lex_all(s: Seq<char>) -> Seq<(TokenView, int, int)> {
    lex_all_from(s, 0)
}

} // verus!
