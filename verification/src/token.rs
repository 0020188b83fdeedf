//! The token taxonomy: payload-bearing tokens, their discriminant-only
//! projection, and the cheap category-equality test.

use crate::error::TokenError;
use crate::span::Span;
use vstd::prelude::*;

verus! {

/// A classified lexeme, as the lexer produces it.
///
/// Numeric literal payloads: integers carry their parsed value; an integer
/// literal without the `l` suffix is narrowed from the 64-bit parse to 32
/// bits by two's-complement truncation.  Float literals carry the numeric
/// source text (sign folded in, suffix excluded); converting that text to a
/// machine float is the consumer's business, since this crate holds no
/// floating-point values.
#[derive(Debug, Clone, PartialEq)]
pub enum TokenType {
    /// An identifier, carrying its text.
    Ident(String),
    /// `null`
    LitNull,
    /// `true` / `false`
    LitBool(bool),
    /// An integer literal without suffix, narrowed to 32 bits.
    LitI32(i32),
    /// An integer literal with the `l` suffix.
    LitI64(i64),
    /// A decimal literal without suffix, carrying its numeric text.
    LitF32(String),
    /// A decimal literal with the `d` suffix, carrying its numeric text.
    LitF64(String),
    /// A string literal, carrying its text without the quotes.
    LitStr(String),
    /// `+`
    Plus,
    /// `-`
    Minus,
    /// `*`
    Star,
    /// `/`
    Slash,
    /// `%`
    Percent,
    /// `!`
    Exclamation,
    /// `&`
    Ampersand,
    /// `|`
    Pipe,
    /// `&&`
    And,
    /// `||`
    Or,
    /// `++`
    PlusPlus,
    /// `--`
    MinusMinus,
    /// `==`
    Equal,
    /// `!=`
    NotEqual,
    /// `<=`
    Leq,
    /// `>=`
    Geq,
    /// `=`
    Assign,
    /// `+=`
    PlusAssign,
    /// `-=`
    MinusAssign,
    /// `*=`
    StarAssign,
    /// `/=`
    SlashAssign,
    /// `%=`
    PercentAssign,
    /// `,`
    Comma,
    /// `;`
    Semicolon,
    /// `:`
    Colon,
    /// `.`
    Dot,
    /// `(`
    LParen,
    /// `)`
    RParen,
    /// `{`
    LBrace,
    /// `}`
    RBrace,
    /// `[`
    LBracket,
    /// `]`
    RBracket,
    /// `<`
    LAngle,
    /// `>`
    RAngle,
    /// `->`
    Arrow,
    /// `::`
    DoubleColon,
    /// `const`
    KwConst,
    /// `void`
    KwVoid,
    /// `i32`
    KwI32,
    /// `i64`
    KwI64,
    /// `f32`
    KwF32,
    /// `f64`
    KwF64,
    /// `bool`
    KwBool,
    /// `string`
    KwStr,
    /// `struct`
    KwStruct,
    /// `impl`
    KwImpl,
    /// `let`
    KwLet,
    /// `fn`
    KwFn,
    /// `rec`
    KwRec,
    /// `inline`
    KwInline,
    /// `if`
    KwIf,
    /// `else`
    KwElse,
    /// `while`
    KwWhile,
    /// `for`
    KwFor,
    /// `return`
    KwReturn,
    /// `break`
    KwBreak,
    /// `continue`
    KwContinue,
    /// `use`
    KwUse,
    /// `as`
    KwAs,
    /// `mod`
    KwMod,
    /// `pub`
    KwPub,
    /// End of the stream: every further pull returns this.
    Eof,
    /// A failed lexeme attempt, carrying its failure category.
    Unknown(TokenError),
}

/// The mathematical model of a token: the same variant set, with text
/// payloads as character sequences.
pub enum TokenView {
    Ident(Seq<char>),
    LitNull,
    LitBool(bool),
    LitI32(i32),
    LitI64(i64),
    LitF32(Seq<char>),
    LitF64(Seq<char>),
    LitStr(Seq<char>),
    Plus,
    Minus,
    Star,
    Slash,
    Percent,
    Exclamation,
    Ampersand,
    Pipe,
    And,
    Or,
    PlusPlus,
    MinusMinus,
    Equal,
    NotEqual,
    Leq,
    Geq,
    Assign,
    PlusAssign,
    MinusAssign,
    StarAssign,
    SlashAssign,
    PercentAssign,
    Comma,
    Semicolon,
    Colon,
    Dot,
    LParen,
    RParen,
    LBrace,
    RBrace,
    LBracket,
    RBracket,
    LAngle,
    RAngle,
    Arrow,
    DoubleColon,
    KwConst,
    KwVoid,
    KwI32,
    KwI64,
    KwF32,
    KwF64,
    KwBool,
    KwStr,
    KwStruct,
    KwImpl,
    KwLet,
    KwFn,
    KwRec,
    KwInline,
    KwIf,
    KwElse,
    KwWhile,
    KwFor,
    KwReturn,
    KwBreak,
    KwContinue,
    KwUse,
    KwAs,
    KwMod,
    KwPub,
    Eof,
    Unknown(TokenError),
}

impl View for TokenType {
    type V = TokenView;

    open spec fn view(&self) -> TokenView {
        match self {
            TokenType::Ident(s) => TokenView::Ident(s@),
            TokenType::LitNull => TokenView::LitNull,
            TokenType::LitBool(b) => TokenView::LitBool(*b),
            TokenType::LitI32(n) => TokenView::LitI32(*n),
            TokenType::LitI64(n) => TokenView::LitI64(*n),
            TokenType::LitF32(t) => TokenView::LitF32(t@),
            TokenType::LitF64(t) => TokenView::LitF64(t@),
            TokenType::LitStr(s) => TokenView::LitStr(s@),
            TokenType::Plus => TokenView::Plus,
            TokenType::Minus => TokenView::Minus,
            TokenType::Star => TokenView::Star,
            TokenType::Slash => TokenView::Slash,
            TokenType::Percent => TokenView::Percent,
            TokenType::Exclamation => TokenView::Exclamation,
            TokenType::Ampersand => TokenView::Ampersand,
            TokenType::Pipe => TokenView::Pipe,
            TokenType::And => TokenView::And,
            TokenType::Or => TokenView::Or,
            TokenType::PlusPlus => TokenView::PlusPlus,
            TokenType::MinusMinus => TokenView::MinusMinus,
            TokenType::Equal => TokenView::Equal,
            TokenType::NotEqual => TokenView::NotEqual,
            TokenType::Leq => TokenView::Leq,
            TokenType::Geq => TokenView::Geq,
            TokenType::Assign => TokenView::Assign,
            TokenType::PlusAssign => TokenView::PlusAssign,
            TokenType::MinusAssign => TokenView::MinusAssign,
            TokenType::StarAssign => TokenView::StarAssign,
            TokenType::SlashAssign => TokenView::SlashAssign,
            TokenType::PercentAssign => TokenView::PercentAssign,
            TokenType::Comma => TokenView::Comma,
            TokenType::Semicolon => TokenView::Semicolon,
            TokenType::Colon => TokenView::Colon,
            TokenType::Dot => TokenView::Dot,
            TokenType::LParen => TokenView::LParen,
            TokenType::RParen => TokenView::RParen,
            TokenType::LBrace => TokenView::LBrace,
            TokenType::RBrace => TokenView::RBrace,
            TokenType::LBracket => TokenView::LBracket,
            TokenType::RBracket => TokenView::RBracket,
            TokenType::LAngle => TokenView::LAngle,
            TokenType::RAngle => TokenView::RAngle,
            TokenType::Arrow => TokenView::Arrow,
            TokenType::DoubleColon => TokenView::DoubleColon,
            TokenType::KwConst => TokenView::KwConst,
            TokenType::KwVoid => TokenView::KwVoid,
            TokenType::KwI32 => TokenView::KwI32,
            TokenType::KwI64 => TokenView::KwI64,
            TokenType::KwF32 => TokenView::KwF32,
            TokenType::KwF64 => TokenView::KwF64,
            TokenType::KwBool => TokenView::KwBool,
            TokenType::KwStr => TokenView::KwStr,
            TokenType::KwStruct => TokenView::KwStruct,
            TokenType::KwImpl => TokenView::KwImpl,
            TokenType::KwLet => TokenView::KwLet,
            TokenType::KwFn => TokenView::KwFn,
            TokenType::KwRec => TokenView::KwRec,
            TokenType::KwInline => TokenView::KwInline,
            TokenType::KwIf => TokenView::KwIf,
            TokenType::KwElse => TokenView::KwElse,
            TokenType::KwWhile => TokenView::KwWhile,
            TokenType::KwFor => TokenView::KwFor,
            TokenType::KwReturn => TokenView::KwReturn,
            TokenType::KwBreak => TokenView::KwBreak,
            TokenType::KwContinue => TokenView::KwContinue,
            TokenType::KwUse => TokenView::KwUse,
            TokenType::KwAs => TokenView::KwAs,
            TokenType::KwMod => TokenView::KwMod,
            TokenType::KwPub => TokenView::KwPub,
            TokenType::Eof => TokenView::Eof,
            TokenType::Unknown(e) => TokenView::Unknown(*e),
        }
    }
}

/// The category of a token, independent of any payload: a parallel
/// no-payload enum, so that "is this token of category X" needs no dummy
/// payload value.
#[derive(Debug, Clone, Copy, PartialEq, Eq, Structural)]
pub enum TokenKind {
    Ident,
    LitNull,
    LitBool,
    LitI32,
    LitI64,
    LitF32,
    LitF64,
    LitStr,
    Plus,
    Minus,
    Star,
    Slash,
    Percent,
    Exclamation,
    Ampersand,
    Pipe,
    And,
    Or,
    PlusPlus,
    MinusMinus,
    Equal,
    NotEqual,
    Leq,
    Geq,
    Assign,
    PlusAssign,
    MinusAssign,
    StarAssign,
    SlashAssign,
    PercentAssign,
    Comma,
    Semicolon,
    Colon,
    Dot,
    LParen,
    RParen,
    LBrace,
    RBrace,
    LBracket,
    RBracket,
    LAngle,
    RAngle,
    Arrow,
    DoubleColon,
    KwConst,
    KwVoid,
    KwI32,
    KwI64,
    KwF32,
    KwF64,
    KwBool,
    KwStr,
    KwStruct,
    KwImpl,
    KwLet,
    KwFn,
    KwRec,
    KwInline,
    KwIf,
    KwElse,
    KwWhile,
    KwFor,
    KwReturn,
    KwBreak,
    KwContinue,
    KwUse,
    KwAs,
    KwMod,
    KwPub,
    Eof,
    Unknown,
}

/// The category of a token model.
pub open spec fn kind_of(t: TokenView) -> TokenKind {
    match t {
        TokenView::Ident(_) => TokenKind::Ident,
        TokenView::LitNull => TokenKind::LitNull,
        TokenView::LitBool(_) => TokenKind::LitBool,
        TokenView::LitI32(_) => TokenKind::LitI32,
        TokenView::LitI64(_) => TokenKind::LitI64,
        TokenView::LitF32(_) => TokenKind::LitF32,
        TokenView::LitF64(_) => TokenKind::LitF64,
        TokenView::LitStr(_) => TokenKind::LitStr,
        TokenView::Plus => TokenKind::Plus,
        TokenView::Minus => TokenKind::Minus,
        TokenView::Star => TokenKind::Star,
        TokenView::Slash => TokenKind::Slash,
        TokenView::Percent => TokenKind::Percent,
        TokenView::Exclamation => TokenKind::Exclamation,
        TokenView::Ampersand => TokenKind::Ampersand,
        TokenView::Pipe => TokenKind::Pipe,
        TokenView::And => TokenKind::And,
        TokenView::Or => TokenKind::Or,
        TokenView::PlusPlus => TokenKind::PlusPlus,
        TokenView::MinusMinus => TokenKind::MinusMinus,
        TokenView::Equal => TokenKind::Equal,
        TokenView::NotEqual => TokenKind::NotEqual,
        TokenView::Leq => TokenKind::Leq,
        TokenView::Geq => TokenKind::Geq,
        TokenView::Assign => TokenKind::Assign,
        TokenView::PlusAssign => TokenKind::PlusAssign,
        TokenView::MinusAssign => TokenKind::MinusAssign,
        TokenView::StarAssign => TokenKind::StarAssign,
        TokenView::SlashAssign => TokenKind::SlashAssign,
        TokenView::PercentAssign => TokenKind::PercentAssign,
        TokenView::Comma => TokenKind::Comma,
        TokenView::Semicolon => TokenKind::Semicolon,
        TokenView::Colon => TokenKind::Colon,
        TokenView::Dot => TokenKind::Dot,
        TokenView::LParen => TokenKind::LParen,
        TokenView::RParen => TokenKind::RParen,
        TokenView::LBrace => TokenKind::LBrace,
        TokenView::RBrace => TokenKind::RBrace,
        TokenView::LBracket => TokenKind::LBracket,
        TokenView::RBracket => TokenKind::RBracket,
        TokenView::LAngle => TokenKind::LAngle,
        TokenView::RAngle => TokenKind::RAngle,
        TokenView::Arrow => TokenKind::Arrow,
        TokenView::DoubleColon => TokenKind::DoubleColon,
        TokenView::KwConst => TokenKind::KwConst,
        TokenView::KwVoid => TokenKind::KwVoid,
        TokenView::KwI32 => TokenKind::KwI32,
        TokenView::KwI64 => TokenKind::KwI64,
        TokenView::KwF32 => TokenKind::KwF32,
        TokenView::KwF64 => TokenKind::KwF64,
        TokenView::KwBool => TokenKind::KwBool,
        TokenView::KwStr => TokenKind::KwStr,
        TokenView::KwStruct => TokenKind::KwStruct,
        TokenView::KwImpl => TokenKind::KwImpl,
        TokenView::KwLet => TokenKind::KwLet,
        TokenView::KwFn => TokenKind::KwFn,
        TokenView::KwRec => TokenKind::KwRec,
        TokenView::KwInline => TokenKind::KwInline,
        TokenView::KwIf => TokenKind::KwIf,
        TokenView::KwElse => TokenKind::KwElse,
        TokenView::KwWhile => TokenKind::KwWhile,
        TokenView::KwFor => TokenKind::KwFor,
        TokenView::KwReturn => TokenKind::KwReturn,
        TokenView::KwBreak => TokenKind::KwBreak,
        TokenView::KwContinue => TokenKind::KwContinue,
        TokenView::KwUse => TokenKind::KwUse,
        TokenView::KwAs => TokenKind::KwAs,
        TokenView::KwMod => TokenKind::KwMod,
        TokenView::KwPub => TokenKind::KwPub,
        TokenView::Eof => TokenKind::Eof,
        TokenView::Unknown(_) => TokenKind::Unknown,
    }
}

impl TokenType {
    /// The category of this token, computed without touching any payload.
    pub fn kind(&self) -> (k: TokenKind)
        ensures
            k == kind_of(self@),
    {
        match self {
            TokenType::Ident(_) => TokenKind::Ident,
            TokenType::LitNull => TokenKind::LitNull,
            TokenType::LitBool(_) => TokenKind::LitBool,
            TokenType::LitI32(_) => TokenKind::LitI32,
            TokenType::LitI64(_) => TokenKind::LitI64,
            TokenType::LitF32(_) => TokenKind::LitF32,
            TokenType::LitF64(_) => TokenKind::LitF64,
            TokenType::LitStr(_) => TokenKind::LitStr,
            TokenType::Plus => TokenKind::Plus,
            TokenType::Minus => TokenKind::Minus,
            TokenType::Star => TokenKind::Star,
            TokenType::Slash => TokenKind::Slash,
            TokenType::Percent => TokenKind::Percent,
            TokenType::Exclamation => TokenKind::Exclamation,
            TokenType::Ampersand => TokenKind::Ampersand,
            TokenType::Pipe => TokenKind::Pipe,
            TokenType::And => TokenKind::And,
            TokenType::Or => TokenKind::Or,
            TokenType::PlusPlus => TokenKind::PlusPlus,
            TokenType::MinusMinus => TokenKind::MinusMinus,
            TokenType::Equal => TokenKind::Equal,
            TokenType::NotEqual => TokenKind::NotEqual,
            TokenType::Leq => TokenKind::Leq,
            TokenType::Geq => TokenKind::Geq,
            TokenType::Assign => TokenKind::Assign,
            TokenType::PlusAssign => TokenKind::PlusAssign,
            TokenType::MinusAssign => TokenKind::MinusAssign,
            TokenType::StarAssign => TokenKind::StarAssign,
            TokenType::SlashAssign => TokenKind::SlashAssign,
            TokenType::PercentAssign => TokenKind::PercentAssign,
            TokenType::Comma => TokenKind::Comma,
            TokenType::Semicolon => TokenKind::Semicolon,
            TokenType::Colon => TokenKind::Colon,
            TokenType::Dot => TokenKind::Dot,
            TokenType::LParen => TokenKind::LParen,
            TokenType::RParen => TokenKind::RParen,
            TokenType::LBrace => TokenKind::LBrace,
            TokenType::RBrace => TokenKind::RBrace,
            TokenType::LBracket => TokenKind::LBracket,
            TokenType::RBracket => TokenKind::RBracket,
            TokenType::LAngle => TokenKind::LAngle,
            TokenType::RAngle => TokenKind::RAngle,
            TokenType::Arrow => TokenKind::Arrow,
            TokenType::DoubleColon => TokenKind::DoubleColon,
            TokenType::KwConst => TokenKind::KwConst,
            TokenType::KwVoid => TokenKind::KwVoid,
            TokenType::KwI32 => TokenKind::KwI32,
            TokenType::KwI64 => TokenKind::KwI64,
            TokenType::KwF32 => TokenKind::KwF32,
            TokenType::KwF64 => TokenKind::KwF64,
            TokenType::KwBool => TokenKind::KwBool,
            TokenType::KwStr => TokenKind::KwStr,
            TokenType::KwStruct => TokenKind::KwStruct,
            TokenType::KwImpl => TokenKind::KwImpl,
            TokenType::KwLet => TokenKind::KwLet,
            TokenType::KwFn => TokenKind::KwFn,
            TokenType::KwRec => TokenKind::KwRec,
            TokenType::KwInline => TokenKind::KwInline,
            TokenType::KwIf => TokenKind::KwIf,
            TokenType::KwElse => TokenKind::KwElse,
            TokenType::KwWhile => TokenKind::KwWhile,
            TokenType::KwFor => TokenKind::KwFor,
            TokenType::KwReturn => TokenKind::KwReturn,
            TokenType::KwBreak => TokenKind::KwBreak,
            TokenType::KwContinue => TokenKind::KwContinue,
            TokenType::KwUse => TokenKind::KwUse,
            TokenType::KwAs => TokenKind::KwAs,
            TokenType::KwMod => TokenKind::KwMod,
            TokenType::KwPub => TokenKind::KwPub,
            TokenType::Eof => TokenKind::Eof,
            TokenType::Unknown(_) => TokenKind::Unknown,
        }
    }
}

/// Whether `ty` falls under the category `kind`, irrespective of payload
/// contents.  O(1): it compares category tags only.
pub fn is_same(ty: &TokenType, kind: TokenKind) -> (r: bool)
    ensures
        r == (kind_of(ty@) == kind),
{
    ty.kind() == kind
}

/// A classified, position-tagged lexeme: the kind-tagged payload plus the
/// half-open byte range it occupies in the source.
#[derive(Debug, Clone, PartialEq)]
pub struct Token {
    pub token_type: TokenType,
    pub span: Span,
}

} // verus!
