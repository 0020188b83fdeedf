//! Lexical analysis for a small statically-typed language.
//!
//! The crate turns raw source text into a stream of classified,
//! position-tagged tokens: byte-offset spans (`span`), the closed token and
//! error taxonomies (`token`, `error`), and a single-pass pull lexer
//! (`lexer`).  The scanning rules themselves are stated once, as spec
//! functions over character sequences (`scan`), and the executable lexer is
//! proved to follow them; `laws` states the stream-level guarantees.

pub mod chars;
pub mod error;
pub mod laws;
pub mod lexer;
pub mod scan;
pub mod span;
pub mod token;
