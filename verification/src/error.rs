//! The closed set of lexical failure categories.

use vstd::prelude::*;

verus! {

/// A lexical failure, surfaced to the caller in place of an ordinary token.
///
/// Each failure is local to one lexeme attempt: the lexer keeps no global
/// error state, and the caller may keep pulling tokens after one.
#[derive(Debug, Clone, Copy, PartialEq, Eq, Structural)]
pub enum TokenError {
    /// A character no scanning rule recognizes; it carries the character.
    UnknownCharacter(char),
    /// Digit-grammar text whose value does not fit the target numeric type.
    InvalidToken,
    /// A string literal opened but never closed before input ends.
    UnclosedString,
}

} // verus!
