//! The lexer engine: a single-pass, pull-based scanner over one source
//! buffer.
//!
//! The cursor walks the text one character at a time with one- and
//! two-character lookahead; every produced token is proved to be exactly
//! what the spec-level rules in `scan` yield at the cursor's position.

use crate::chars::{
    bytes_len, bytes_upto, digit_val, is_digit, is_trivia, is_word_cont, is_word_start, lemma_bytes_upto_full,
    lemma_bytes_upto_mono, lemma_bytes_upto_step, push_char, utf8_width,
};
use crate::error::TokenError;
use crate::scan::{
    char_sym, classify_word, close_quote, digits_val, lemma_close_quote_bounds, merge_sym,
    num_end, scan_number, scan_string, scan_symbol, scan_word, skip_ws, token_at, word_end,
    wrap_i32,
};
use crate::span::{BytePos, Span};
use crate::token::{Token, TokenType, TokenView};
use vstd::arithmetic::div_mod::lemma_fundamental_div_mod;
use vstd::arithmetic::mul::lemma_mul_inequality;
use vstd::prelude::*;
use vstd::string::StrSliceExecFns;
use vstd::string::StringExecFns;

verus! {

/// A pull lexer over one source buffer: a cursor over the character stream
/// plus the total byte length, needed for the final token's upper bound.
pub struct Lexer<'s> {
    input: &'s str,
    /// The input's length in characters.
    n_chars: usize,
    /// The cursor, in characters.
    pos: usize,
    /// The byte offset of the cursor.
    byte_pos: usize,
    /// The input's length in bytes.
    end: usize,
}

impl<'s> Lexer<'s> {
    /// The source text being scanned.
    pub closed spec fn src(&self) -> Seq<char> {
        self.input@
    }

    /// The cursor: how many characters have been consumed.
    pub closed spec fn cursor(&self) -> int {
        self.pos as int
    }

    /// The cursor is in bounds and the byte bookkeeping matches it.
    pub closed spec fn wf(&self) -> bool {
        &&& self.n_chars == self.src().len()
        &&& 0 <= self.pos <= self.n_chars
        &&& self.byte_pos == bytes_upto(self.src(), self.cursor())
        &&& self.end == bytes_len(self.src())
        &&& bytes_len(self.src()) <= u32::MAX
    }

    /// A fresh lexer over `input`, with the cursor at the start.
    ///
    /// Spans are 32-bit byte offsets, so the input's byte length must fit
    /// in one.
    pub fn new(input: &'s str) -> (lx: Lexer<'s>)
        requires
            bytes_len(input@) <= u32::MAX,
        ensures
            lx.wf(),
            lx.src() == input@,
            lx.cursor() == 0,
    {
        let n = input.unicode_len();
        let mut end: usize = 0;
        let mut i: usize = 0;
        while i < n
            invariant
                n == input@.len(),
                0 <= i <= n,
                end == bytes_upto(input@, i as int),
                bytes_len(input@) <= u32::MAX,
            decreases n - i,
        {
            let c = input.get_char(i);
            proof {
                lemma_bytes_upto_step(input@, i as int);
                lemma_bytes_upto_mono(input@, i + 1, input@.len() as int);
                lemma_bytes_upto_full(input@);
            }
            end = end + utf8_width(c);
            i = i + 1;
        }
        proof {
            lemma_bytes_upto_full(input@);
        }
        Lexer { input, n_chars: n, pos: 0, byte_pos: 0, end }
    }

    /// The character under the cursor, if any remains.
    fn peek(&self) -> (r: Option<char>)
        requires
            self.wf(),
        ensures
            match r {
                Some(c) => self.cursor() < self.src().len() && c == self.src()[self.cursor()],
                None => self.cursor() == self.src().len(),
            },
    {
        if self.pos < self.n_chars {
            Some(self.input.get_char(self.pos))
        } else {
            None
        }
    }

    /// Consumes one character.
    fn advance(&mut self)
        requires
            old(self).wf(),
            old(self).cursor() < old(self).src().len(),
        ensures
            final(self).wf(),
            final(self).src() == old(self).src(),
            final(self).cursor() == old(self).cursor() + 1,
    {
        let c = self.input.get_char(self.pos);
        proof {
            lemma_bytes_upto_step(self.src(), self.pos as int);
            lemma_bytes_upto_mono(self.src(), self.pos + 1, self.src().len() as int);
            lemma_bytes_upto_full(self.src());
        }
        self.byte_pos = self.byte_pos + utf8_width(c);
        self.pos = self.pos + 1;
    }

    /// The byte offset of the cursor, as a span bound.
    fn byte_offset(&self) -> (b: u32)
        requires
            self.wf(),
        ensures
            b == bytes_upto(self.src(), self.cursor()),
    {
        proof {
            lemma_bytes_upto_mono(self.src(), self.cursor(), self.src().len() as int);
            lemma_bytes_upto_full(self.src());
        }
        self.byte_pos as u32
    }

    /// The end-of-stream token: `Eof` with the empty span at the input's
    /// byte length.
    fn get_eof_token(&self) -> (t: Token)
        requires
            self.wf(),
        ensures
            t.token_type@ == TokenView::Eof,
            t.span == (Span {
                lo: BytePos(bytes_len(self.src()) as u32),
                hi: BytePos(bytes_len(self.src()) as u32),
            }),
    {
        Token {
            token_type: TokenType::Eof,
            span: Span { lo: BytePos(self.end as u32), hi: BytePos(self.end as u32) },
        }
    }

    /// Applies the string-literal rule at the cursor.
    fn try_read_string(&mut self) -> (r: Option<TokenType>)
        requires
            old(self).wf(),
        ensures
            final(self).wf(),
            final(self).src() == old(self).src(),
            match scan_string(old(self).src(), old(self).cursor()) {
                Some(te) => r matches Some(tt) && tt@ == te.0 && final(self).cursor() == te.1,
                None => r is None && final(self).cursor() == old(self).cursor(),
            },
    {
        let ghost s = self.src();
        let ghost start = self.cursor();
        let opened = match self.peek() {
            Some(c) => c == '"',
            None => false,
        };
        if !opened {
            return None;
        }
        self.advance();
        let mut build = String::new();
        proof {
            assert(build@ =~= s.subrange(start + 1, start + 1));
        }
        loop
            invariant
                self.wf(),
                self.src() == s,
                0 <= start < s.len(),
                s[start] == '"',
                old(self).src() == s,
                old(self).cursor() == start,
                start + 1 <= self.cursor() <= s.len(),
                build@ == s.subrange(start + 1, self.cursor()),
                forall|m: int| start + 1 <= m < self.cursor() ==> s[m] != '"',
            ensures
                self.wf(),
                self.src() == s,
                self.cursor() == s.len(),
                close_quote(s, start + 1) is None,
            decreases s.len() - self.cursor(),
        {
            match self.peek() {
                Some(c) => {
                    if c == '"' {
                        proof {
                            lemma_close_quote_bounds(s, start + 1);
                        }
                        self.advance();
                        return Some(TokenType::LitStr(build));
                    }
                    self.advance();
                    push_char(&mut build, c);
                    proof {
                        assert(s.subrange(start + 1, self.cursor()) =~= s.subrange(
                            start + 1,
                            self.cursor() - 1,
                        ).push(s[self.cursor() - 1]));
                    }
                },
                None => {
                    proof {
                        lemma_close_quote_bounds(s, start + 1);
                    }
                    break;
                },
            }
        }
        Some(TokenType::Unknown(TokenError::UnclosedString))
    }

    /// Applies the keyword/identifier rule at the cursor.
    fn try_read_keyword(&mut self) -> (r: Option<TokenType>)
        requires
            old(self).wf(),
        ensures
            final(self).wf(),
            final(self).src() == old(self).src(),
            match scan_word(old(self).src(), old(self).cursor()) {
                Some(te) => r matches Some(tt) && tt@ == te.0 && final(self).cursor() == te.1,
                None => r is None && final(self).cursor() == old(self).cursor(),
            },
    {
        let ghost s = self.src();
        let ghost start = self.cursor();
        let starts = match self.peek() {
            Some(c) => is_word_start(c),
            None => false,
        };
        if !starts {
            return None;
        }
        let mut token_str = String::new();
        proof {
            assert(token_str@ =~= s.subrange(start, start));
        }
        loop
            invariant
                self.wf(),
                self.src() == s,
                0 <= start <= s.len(),
                start <= self.cursor() <= s.len(),
                word_end(s, start) == word_end(s, self.cursor()),
                token_str@ == s.subrange(start, self.cursor()),
            ensures
                self.wf(),
                self.src() == s,
                self.cursor() == word_end(s, start),
                token_str@ == s.subrange(start, word_end(s, start)),
            decreases s.len() - self.cursor(),
        {
            match self.peek() {
                Some(c) => {
                    if is_word_cont(c) {
                        self.advance();
                        push_char(&mut token_str, c);
                        proof {
                            assert(s.subrange(start, self.cursor()) =~= s.subrange(
                                start,
                                self.cursor() - 1,
                            ).push(s[self.cursor() - 1]));
                        }
                    } else {
                        break;
                    }
                },
                None => {
                    break;
                },
            }
        }
        if token_str.as_str().is_empty() {
            proof {
                assert(s.subrange(start, word_end(s, start)).len() == 0);
            }
            return None;
        }
        Some(classify(token_str))
    }

    /// Applies the numeric-literal rule at the cursor; with `negate`, a `-`
    /// was just consumed and folds into the literal.
    fn try_read_number(&mut self, negate: bool) -> (r: Option<TokenType>)
        requires
            old(self).wf(),
        ensures
            final(self).wf(),
            final(self).src() == old(self).src(),
            match scan_number(old(self).src(), old(self).cursor(), negate) {
                Some(te) => r matches Some(tt) && tt@ == te.0 && final(self).cursor() == te.1,
                None => r is None && final(self).cursor() == old(self).cursor(),
            },
    {
        let ghost s = self.src();
        let ghost start = self.cursor();
        let leads = match self.peek() {
            Some(c) => is_digit(c),
            None => false,
        };
        if !leads {
            return None;
        }
        let mut number = String::new();
        proof {
            assert(number@ =~= s.subrange(start, start));
        }
        let mut is_decimal = false;
        let mut acc: u64 = 0;
        let mut too_big = false;
        loop
            invariant
                self.wf(),
                self.src() == s,
                0 <= start < s.len(),
                start <= self.cursor() <= s.len(),
                num_end(s, start, false) == num_end(s, self.cursor(), is_decimal),
                number@ == s.subrange(start, self.cursor()),
                !is_decimal && !too_big ==> acc == digits_val(number@) && acc
                    <= 0x7fff_ffff_ffff_ffffu64,
                !is_decimal && too_big ==> digits_val(number@) > 0x7fff_ffff_ffff_ffffu64,
            ensures
                self.wf(),
                self.src() == s,
                self.cursor() == num_end(s, start, false).0,
                is_decimal == num_end(s, start, false).1,
                number@ == s.subrange(start, num_end(s, start, false).0),
                !is_decimal && !too_big ==> acc == digits_val(number@) && acc
                    <= 0x7fff_ffff_ffff_ffffu64,
                !is_decimal && too_big ==> digits_val(number@) > 0x7fff_ffff_ffff_ffffu64,
            decreases s.len() - self.cursor(),
        {
            let next = match self.peek() {
                Some(c) => {
                    if is_digit(c) || (c == '.' && !is_decimal) {
                        Some(c)
                    } else {
                        None
                    }
                },
                None => None,
            };
            match next {
                Some(c) => {
                    let ghost prev = number@;
                    self.advance();
                    push_char(&mut number, c);
                    proof {
                        assert(s.subrange(start, self.cursor()) =~= s.subrange(
                            start,
                            self.cursor() - 1,
                        ).push(s[self.cursor() - 1]));
                        assert(number@.drop_last() =~= prev);
                        assert(digits_val(number@) == digits_val(prev) * 10 + digit_val(c));
                    }
                    if c == '.' {
                        is_decimal = true;
                    } else if !is_decimal {
                        let d = (c as u32 - 0x30) as u64;
                        if !too_big {
                            proof {
                                lemma_digit_step_bounds(acc as nat, d as nat);
                            }
                            if acc > (0x7fff_ffff_ffff_ffffu64 - d) / 10 {
                                too_big = true;
                            } else {
                                acc = acc * 10 + d;
                            }
                        }
                    }
                },
                None => {
                    break;
                },
            }
        }
        if is_decimal {
            let full = if negate {
                proof {
                    reveal_strlit("-");
                }
                let mut t = String::from_str("-");
                t.append(number.as_str());
                proof {
                    assert(t@ =~= seq!['-'] + s.subrange(start, num_end(s, start, false).0));
                }
                t
            } else {
                number
            };
            let has_d = match self.peek() {
                Some(c) => c == 'd',
                None => false,
            };
            if has_d {
                self.advance();
                Some(TokenType::LitF64(full))
            } else {
                Some(TokenType::LitF32(full))
            }
        } else {
            if too_big {
                Some(TokenType::Unknown(TokenError::InvalidToken))
            } else {
                let has_l = match self.peek() {
                    Some(c) => c == 'l',
                    None => false,
                };
                if has_l {
                    self.advance();
                    let v: i64 = if negate {
                        -(acc as i64)
                    } else {
                        acc as i64
                    };
                    Some(TokenType::LitI64(v))
                } else {
                    let v = narrow_to_i32(acc, negate);
                    Some(TokenType::LitI32(v))
                }
            }
        }
    }

    /// The one-character symbol table, applied to the character under the
    /// cursor without consuming it.
    fn peek_character_token(&self) -> (r: Option<TokenType>)
        requires
            self.wf(),
        ensures
            ({
                let cs = if self.cursor() < self.src().len() {
                    char_sym(self.src()[self.cursor()])
                } else {
                    None
                };
                match r {
                    Some(tt) => cs == Some(tt@),
                    None => cs is None,
                }
            }),
    {
        match self.peek() {
            None => None,
            Some(c) => {
                if c == '+' {
                    Some(TokenType::Plus)
                } else if c == '-' {
                    Some(TokenType::Minus)
                } else if c == '*' {
                    Some(TokenType::Star)
                } else if c == '/' {
                    Some(TokenType::Slash)
                } else if c == '%' {
                    Some(TokenType::Percent)
                } else if c == '!' {
                    Some(TokenType::Exclamation)
                } else if c == '&' {
                    Some(TokenType::Ampersand)
                } else if c == '|' {
                    Some(TokenType::Pipe)
                } else if c == '=' {
                    Some(TokenType::Assign)
                } else if c == ',' {
                    Some(TokenType::Comma)
                } else if c == ';' {
                    Some(TokenType::Semicolon)
                } else if c == ':' {
                    Some(TokenType::Colon)
                } else if c == '.' {
                    Some(TokenType::Dot)
                } else if c == '(' {
                    Some(TokenType::LParen)
                } else if c == ')' {
                    Some(TokenType::RParen)
                } else if c == '{' {
                    Some(TokenType::LBrace)
                } else if c == '}' {
                    Some(TokenType::RBrace)
                } else if c == '[' {
                    Some(TokenType::LBracket)
                } else if c == ']' {
                    Some(TokenType::RBracket)
                } else if c == '<' {
                    Some(TokenType::LAngle)
                } else if c == '>' {
                    Some(TokenType::RAngle)
                } else {
                    None
                }
            },
        }
    }

    /// The two-character merge table, keyed by the pair of one-character
    /// tokens.
    fn match_character_tokens(&self, first: &TokenType, second: &TokenType) -> (r: Option<
        TokenType,
    >)
        ensures
            match r {
                Some(m) => merge_sym(first@, second@) == Some(m@),
                None => merge_sym(first@, second@) is None,
            },
    {
        match (first, second) {
            (TokenType::LAngle, TokenType::Assign) => Some(TokenType::Leq),
            (TokenType::RAngle, TokenType::Assign) => Some(TokenType::Geq),
            (TokenType::Assign, TokenType::Assign) => Some(TokenType::Equal),
            (TokenType::Exclamation, TokenType::Assign) => Some(TokenType::NotEqual),
            (TokenType::Plus, TokenType::Assign) => Some(TokenType::PlusAssign),
            (TokenType::Minus, TokenType::Assign) => Some(TokenType::MinusAssign),
            (TokenType::Star, TokenType::Assign) => Some(TokenType::StarAssign),
            (TokenType::Slash, TokenType::Assign) => Some(TokenType::SlashAssign),
            (TokenType::Percent, TokenType::Assign) => Some(TokenType::PercentAssign),
            (TokenType::Ampersand, TokenType::Ampersand) => Some(TokenType::And),
            (TokenType::Pipe, TokenType::Pipe) => Some(TokenType::Or),
            (TokenType::Plus, TokenType::Plus) => Some(TokenType::PlusPlus),
            (TokenType::Minus, TokenType::Minus) => Some(TokenType::MinusMinus),
            (TokenType::Minus, TokenType::RAngle) => Some(TokenType::Arrow),
            (TokenType::Colon, TokenType::Colon) => Some(TokenType::DoubleColon),
            _ => None,
        }
    }

    /// Applies the symbol rule at the cursor: greedy two-character merge,
    /// then the negative-literal fold, then the single symbol.
    fn try_read_symbol(&mut self) -> (r: Option<TokenType>)
        requires
            old(self).wf(),
        ensures
            final(self).wf(),
            final(self).src() == old(self).src(),
            match scan_symbol(old(self).src(), old(self).cursor()) {
                Some(te) => r matches Some(tt) && tt@ == te.0 && final(self).cursor() == te.1,
                None => r is None && final(self).cursor() == old(self).cursor(),
            },
    {
        match self.peek_character_token() {
            None => None,
            Some(first) => {
                self.advance();
                let merged = match self.peek_character_token() {
                    Some(second) => self.match_character_tokens(&first, &second),
                    None => None,
                };
                match merged {
                    Some(m) => {
                        self.advance();
                        Some(m)
                    },
                    None => {
                        let minus = match first {
                            TokenType::Minus => true,
                            _ => false,
                        };
                        if minus {
                            match self.try_read_number(true) {
                                Some(n) => Some(n),
                                None => Some(first),
                            }
                        } else {
                            Some(first)
                        }
                    },
                }
            },
        }
    }

    /// Produces the next token-or-error in the stream.
    ///
    /// Trivia before the lexeme is skipped and belongs to no span.  At the
    /// end of input the `Eof` token is returned, over and over.  An
    /// unrecognized character is surfaced as an explicit
    /// `Unknown(UnknownCharacter)` token consuming exactly that character,
    /// never by silently ending the stream.
    pub fn read_token(&mut self) -> (t: Token)
        requires
            old(self).wf(),
        ensures
            final(self).wf(),
            final(self).src() == old(self).src(),
            ({
                let s = old(self).src();
                let j = skip_ws(s, old(self).cursor());
                if j >= s.len() {
                    &&& final(self).cursor() == s.len()
                    &&& t.token_type@ == TokenView::Eof
                    &&& t.span == (Span {
                        lo: BytePos(bytes_len(s) as u32),
                        hi: BytePos(bytes_len(s) as u32),
                    })
                } else {
                    &&& final(self).cursor() == token_at(s, j).1
                    &&& t.token_type@ == token_at(s, j).0
                    &&& t.span == (Span {
                        lo: BytePos(bytes_upto(s, j) as u32),
                        hi: BytePos(bytes_upto(s, token_at(s, j).1) as u32),
                    })
                }
            }),
    {
        let ghost s = self.src();
        let ghost i0 = self.cursor();
        loop
            invariant
                self.wf(),
                self.src() == s,
                0 <= i0 <= s.len(),
                i0 <= self.cursor() <= s.len(),
                skip_ws(s, i0) == skip_ws(s, self.cursor()),
            ensures
                self.wf(),
                self.src() == s,
                self.cursor() == skip_ws(s, i0),
            decreases s.len() - self.cursor(),
        {
            match self.peek() {
                Some(c) => {
                    if is_trivia(c) {
                        self.advance();
                    } else {
                        break;
                    }
                },
                None => {
                    break;
                },
            }
        }
        let lo = self.byte_offset();
        match self.peek() {
            None => self.get_eof_token(),
            Some(c0) => {
                let token_type = if let Some(string_literal) = self.try_read_string() {
                    string_literal
                } else if let Some(keyword) = self.try_read_keyword() {
                    keyword
                } else if let Some(number) = self.try_read_number(false) {
                    number
                } else if let Some(symbol) = self.try_read_symbol() {
                    symbol
                } else {
                    self.advance();
                    TokenType::Unknown(TokenError::UnknownCharacter(c0))
                };
                let hi = self.byte_offset();
                Token { token_type, span: Span { lo: BytePos(lo), hi: BytePos(hi) } }
            },
        }
    }
}

/// Classifies a scanned word against the fixed keyword table; any other
/// text is an identifier carrying that exact text.
fn classify(w: String) -> (t: TokenType)
    ensures
        t@ == classify_word(w@),
{
    if w == String::from_str("null") {
        TokenType::LitNull
    } else if w == String::from_str("true") {
        TokenType::LitBool(true)
    } else if w == String::from_str("false") {
        TokenType::LitBool(false)
    } else if w == String::from_str("fn") {
        TokenType::KwFn
    } else if w == String::from_str("rec") {
        TokenType::KwRec
    } else if w == String::from_str("if") {
        TokenType::KwIf
    } else if w == String::from_str("else") {
        TokenType::KwElse
    } else if w == String::from_str("while") {
        TokenType::KwWhile
    } else if w == String::from_str("for") {
        TokenType::KwFor
    } else if w == String::from_str("return") {
        TokenType::KwReturn
    } else if w == String::from_str("break") {
        TokenType::KwBreak
    } else if w == String::from_str("continue") {
        TokenType::KwContinue
    } else if w == String::from_str("void") {
        TokenType::KwVoid
    } else if w == String::from_str("i32") {
        TokenType::KwI32
    } else if w == String::from_str("i64") {
        TokenType::KwI64
    } else if w == String::from_str("f32") {
        TokenType::KwF32
    } else if w == String::from_str("f64") {
        TokenType::KwF64
    } else if w == String::from_str("bool") {
        TokenType::KwBool
    } else if w == String::from_str("string") {
        TokenType::KwStr
    } else if w == String::from_str("struct") {
        TokenType::KwStruct
    } else if w == String::from_str("impl") {
        TokenType::KwImpl
    } else if w == String::from_str("let") {
        TokenType::KwLet
    } else if w == String::from_str("const") {
        TokenType::KwConst
    } else if w == String::from_str("inline") {
        TokenType::KwInline
    } else if w == String::from_str("use") {
        TokenType::KwUse
    } else if w == String::from_str("as") {
        TokenType::KwAs
    } else if w == String::from_str("mod") {
        TokenType::KwMod
    } else if w == String::from_str("pub") {
        TokenType::KwPub
    } else {
        TokenType::Ident(w)
    }
}

/// One more digit multiplies the accumulated value by ten and adds the
/// digit; the guard `acc > (max - d) / 10` decides exactly whether the
/// result still fits.
proof fn lemma_digit_step_bounds(acc: nat, d: nat)
    requires
        d <= 9,
        acc <= 0x7fff_ffff_ffff_ffff,
    ensures
        acc > (0x7fff_ffff_ffff_ffff - d) / 10 ==> acc * 10 + d > 0x7fff_ffff_ffff_ffff,
        acc <= (0x7fff_ffff_ffff_ffff - d) / 10 ==> acc * 10 + d <= 0x7fff_ffff_ffff_ffff,
{
    let max: int = 0x7fff_ffff_ffff_ffff;
    let q: int = (max - d) / 10;
    lemma_fundamental_div_mod(max - d, 10);
    if acc > q {
        lemma_mul_inequality(q + 1, acc as int, 10);
    } else {
        lemma_mul_inequality(acc as int, q, 10);
    }
}

/// Narrows the parsed 64-bit magnitude (negated if asked) to 32 bits by
/// two's-complement truncation, without any machine-level cast.
fn narrow_to_i32(acc: u64, negate: bool) -> (r: i32)
    requires
        acc <= 0x7fff_ffff_ffff_ffffu64,
    ensures
        r == wrap_i32(
            if negate {
                -(acc as int)
            } else {
                acc as int
            },
        ),
{
    let m: u64 = if negate {
        (0x1_0000_0000u64 - (acc % 0x1_0000_0000u64)) % 0x1_0000_0000u64
    } else {
        acc % 0x1_0000_0000u64
    };
    proof {
        if negate {
            lemma_fundamental_div_mod(acc as int, 0x1_0000_0000);
            lemma_fundamental_div_mod((-(acc as int)) % 0x1_0000_0000, 0x1_0000_0000);
        }
    }
    if m >= 0x8000_0000u64 {
        ((m as i64) - 0x1_0000_0000i64) as i32
    } else {
        m as i32
    }
}

} // verus!
