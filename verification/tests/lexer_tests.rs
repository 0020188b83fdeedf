use bfc_lexer::error::TokenError;
use bfc_lexer::lexer::Lexer;
use bfc_lexer::token::TokenType;

#[test]
fn test_literal_tokens() {
    let mut lexer = Lexer::new(
        "null true false -1234 0 1234 -1234l 0l 1234l -1234.0 0.0 1234.0 -1234.0d 0.0d 1234.0d \"hello world\"",
    );
    assert_eq!(lexer.read_token().token_type, TokenType::LitNull);
    assert_eq!(lexer.read_token().token_type, TokenType::LitBool(true));
    assert_eq!(lexer.read_token().token_type, TokenType::LitBool(false));
    assert_eq!(lexer.read_token().token_type, TokenType::LitI32(-1234));
    assert_eq!(lexer.read_token().token_type, TokenType::LitI32(0));
    assert_eq!(lexer.read_token().token_type, TokenType::LitI32(1234));
    assert_eq!(lexer.read_token().token_type, TokenType::LitI64(-1234));
    assert_eq!(lexer.read_token().token_type, TokenType::LitI64(0));
    assert_eq!(lexer.read_token().token_type, TokenType::LitI64(1234));
    // Float literals carry their numeric text; parsing that text gives the
    // literal's value.
    let f = lexer.read_token().token_type;
    assert_eq!(f, TokenType::LitF32(String::from("-1234.0")));
    match f {
        TokenType::LitF32(t) => assert_eq!(t.parse::<f32>().unwrap(), -1234.0f32),
        _ => unreachable!(),
    }
    let f = lexer.read_token().token_type;
    assert_eq!(f, TokenType::LitF32(String::from("0.0")));
    match f {
        TokenType::LitF32(t) => assert_eq!(t.parse::<f32>().unwrap(), 0.0f32),
        _ => unreachable!(),
    }
    let f = lexer.read_token().token_type;
    assert_eq!(f, TokenType::LitF32(String::from("1234.0")));
    match f {
        TokenType::LitF32(t) => assert_eq!(t.parse::<f32>().unwrap(), 1234.0f32),
        _ => unreachable!(),
    }
    let f = lexer.read_token().token_type;
    assert_eq!(f, TokenType::LitF64(String::from("-1234.0")));
    match f {
        TokenType::LitF64(t) => assert_eq!(t.parse::<f64>().unwrap(), -1234.0f64),
        _ => unreachable!(),
    }
    let f = lexer.read_token().token_type;
    assert_eq!(f, TokenType::LitF64(String::from("0.0")));
    match f {
        TokenType::LitF64(t) => assert_eq!(t.parse::<f64>().unwrap(), 0.0f64),
        _ => unreachable!(),
    }
    let f = lexer.read_token().token_type;
    assert_eq!(f, TokenType::LitF64(String::from("1234.0")));
    match f {
        TokenType::LitF64(t) => assert_eq!(t.parse::<f64>().unwrap(), 1234.0f64),
        _ => unreachable!(),
    }
    assert_eq!(
        lexer.read_token().token_type,
        TokenType::LitStr(String::from("hello world"))
    );
    assert_eq!(lexer.read_token().token_type, TokenType::Eof);
}

#[test]
fn test_unclosed_string() {
    let mut lexer = Lexer::new("\"hello world");
    assert_eq!(
        lexer.read_token().token_type,
        TokenType::Unknown(TokenError::UnclosedString)
    );
}

#[test]
fn test_singletons() {
    let mut lexer = Lexer::new("= + - * / % ! & | , ; : . ( ) { } [ ] < >");
    assert_eq!(lexer.read_token().token_type, TokenType::Assign);
    assert_eq!(lexer.read_token().token_type, TokenType::Plus);
    assert_eq!(lexer.read_token().token_type, TokenType::Minus);
    assert_eq!(lexer.read_token().token_type, TokenType::Star);
    assert_eq!(lexer.read_token().token_type, TokenType::Slash);
    assert_eq!(lexer.read_token().token_type, TokenType::Percent);
    assert_eq!(lexer.read_token().token_type, TokenType::Exclamation);
    assert_eq!(lexer.read_token().token_type, TokenType::Ampersand);
    assert_eq!(lexer.read_token().token_type, TokenType::Pipe);
    assert_eq!(lexer.read_token().token_type, TokenType::Comma);
    assert_eq!(lexer.read_token().token_type, TokenType::Semicolon);
    assert_eq!(lexer.read_token().token_type, TokenType::Colon);
    assert_eq!(lexer.read_token().token_type, TokenType::Dot);
    assert_eq!(lexer.read_token().token_type, TokenType::LParen);
    assert_eq!(lexer.read_token().token_type, TokenType::RParen);
    assert_eq!(lexer.read_token().token_type, TokenType::LBrace);
    assert_eq!(lexer.read_token().token_type, TokenType::RBrace);
    assert_eq!(lexer.read_token().token_type, TokenType::LBracket);
    assert_eq!(lexer.read_token().token_type, TokenType::RBracket);
    assert_eq!(lexer.read_token().token_type, TokenType::LAngle);
    assert_eq!(lexer.read_token().token_type, TokenType::RAngle);
    assert_eq!(lexer.read_token().token_type, TokenType::Eof);
}

#[test]
fn test_merged() {
    let mut lexer = Lexer::new("&& || ++ -- == != <= >= += -= *= /= %= -> ::");
    assert_eq!(lexer.read_token().token_type, TokenType::And);
    assert_eq!(lexer.read_token().token_type, TokenType::Or);
    assert_eq!(lexer.read_token().token_type, TokenType::PlusPlus);
    assert_eq!(lexer.read_token().token_type, TokenType::MinusMinus);
    assert_eq!(lexer.read_token().token_type, TokenType::Equal);
    assert_eq!(lexer.read_token().token_type, TokenType::NotEqual);
    assert_eq!(lexer.read_token().token_type, TokenType::Leq);
    assert_eq!(lexer.read_token().token_type, TokenType::Geq);
    assert_eq!(lexer.read_token().token_type, TokenType::PlusAssign);
    assert_eq!(lexer.read_token().token_type, TokenType::MinusAssign);
    assert_eq!(lexer.read_token().token_type, TokenType::StarAssign);
    assert_eq!(lexer.read_token().token_type, TokenType::SlashAssign);
    assert_eq!(lexer.read_token().token_type, TokenType::PercentAssign);
    assert_eq!(lexer.read_token().token_type, TokenType::Arrow);
    assert_eq!(lexer.read_token().token_type, TokenType::DoubleColon);
    assert_eq!(lexer.read_token().token_type, TokenType::Eof);
}

#[test]
fn test_keywords() {
    let mut lexer = Lexer::new(
        "fn rec if else while for return break continue void i32 i64 f32 f64 bool string struct impl let const inline use as mod pub",
    );
    assert_eq!(lexer.read_token().token_type, TokenType::KwFn);
    assert_eq!(lexer.read_token().token_type, TokenType::KwRec);
    assert_eq!(lexer.read_token().token_type, TokenType::KwIf);
    assert_eq!(lexer.read_token().token_type, TokenType::KwElse);
    assert_eq!(lexer.read_token().token_type, TokenType::KwWhile);
    assert_eq!(lexer.read_token().token_type, TokenType::KwFor);
    assert_eq!(lexer.read_token().token_type, TokenType::KwReturn);
    assert_eq!(lexer.read_token().token_type, TokenType::KwBreak);
    assert_eq!(lexer.read_token().token_type, TokenType::KwContinue);
    assert_eq!(lexer.read_token().token_type, TokenType::KwVoid);
    assert_eq!(lexer.read_token().token_type, TokenType::KwI32);
    assert_eq!(lexer.read_token().token_type, TokenType::KwI64);
    assert_eq!(lexer.read_token().token_type, TokenType::KwF32);
    assert_eq!(lexer.read_token().token_type, TokenType::KwF64);
    assert_eq!(lexer.read_token().token_type, TokenType::KwBool);
    assert_eq!(lexer.read_token().token_type, TokenType::KwStr);
    assert_eq!(lexer.read_token().token_type, TokenType::KwStruct);
    assert_eq!(lexer.read_token().token_type, TokenType::KwImpl);
    assert_eq!(lexer.read_token().token_type, TokenType::KwLet);
    assert_eq!(lexer.read_token().token_type, TokenType::KwConst);
    assert_eq!(lexer.read_token().token_type, TokenType::KwInline);
    assert_eq!(lexer.read_token().token_type, TokenType::KwUse);
    assert_eq!(lexer.read_token().token_type, TokenType::KwAs);
    assert_eq!(lexer.read_token().token_type, TokenType::KwMod);
    assert_eq!(lexer.read_token().token_type, TokenType::KwPub);
    assert_eq!(lexer.read_token().token_type, TokenType::Eof);
}

#[test]
fn test_eof() {
    let mut lexer = Lexer::new("fn");
    assert_eq!(lexer.read_token().token_type, TokenType::KwFn);
    assert_eq!(lexer.read_token().token_type, TokenType::Eof);
    assert_eq!(lexer.read_token().token_type, TokenType::Eof);
    assert_eq!(lexer.read_token().token_type, TokenType::Eof);
    assert_eq!(lexer.read_token().token_type, TokenType::Eof);
}

#[test]
fn test_string_literal_span() {
    // One string token, no escaping, span covering both quote characters.
    let mut lexer = Lexer::new("\"hello world\"");
    let t = lexer.read_token();
    assert_eq!(t.token_type, TokenType::LitStr(String::from("hello world")));
    assert_eq!(t.span.lo.0, 0);
    assert_eq!(t.span.hi.0, 13);
    assert_eq!(lexer.read_token().token_type, TokenType::Eof);
}

#[test]
fn test_unterminated_string_span() {
    // Exactly one unclosed-string error, spanning from the opening quote to
    // the input's end.
    let mut lexer = Lexer::new("\"unterminated");
    let t = lexer.read_token();
    assert_eq!(t.token_type, TokenType::Unknown(TokenError::UnclosedString));
    assert_eq!(t.span.lo.0, 0);
    assert_eq!(t.span.hi.0, 13);
    assert_eq!(lexer.read_token().token_type, TokenType::Eof);
}

#[test]
fn test_end_to_end_spans() {
    let mut lexer = Lexer::new("let x = 42 + 1;");
    let expected = [
        (TokenType::KwLet, 0u32, 3u32),
        (TokenType::Ident(String::from("x")), 4, 5),
        (TokenType::Assign, 6, 7),
        (TokenType::LitI32(42), 8, 10),
        (TokenType::Plus, 11, 12),
        (TokenType::LitI32(1), 13, 14),
        (TokenType::Semicolon, 14, 15),
    ];
    let mut consumed: u32 = 0;
    let mut prev_hi: u32 = 0;
    for (tt, lo, hi) in expected {
        let t = lexer.read_token();
        assert_eq!(t.token_type, tt);
        assert_eq!(t.span.lo.0, lo);
        assert_eq!(t.span.hi.0, hi);
        // spans never overlap and never include skipped whitespace
        assert!(prev_hi <= lo);
        prev_hi = hi;
        consumed += hi - lo;
    }
    // the spans sum to the consumed byte length, whitespace excluded
    assert_eq!(consumed, 10);
    assert_eq!(lexer.read_token().token_type, TokenType::Eof);
}

#[test]
fn test_unknown_character() {
    // An unrecognized character is surfaced as an explicit error consuming
    // exactly that character; the stream then continues.
    let mut lexer = Lexer::new("a # b");
    assert_eq!(
        lexer.read_token().token_type,
        TokenType::Ident(String::from("a"))
    );
    let t = lexer.read_token();
    assert_eq!(
        t.token_type,
        TokenType::Unknown(TokenError::UnknownCharacter('#'))
    );
    assert_eq!(t.span.lo.0, 2);
    assert_eq!(t.span.hi.0, 3);
    assert_eq!(
        lexer.read_token().token_type,
        TokenType::Ident(String::from("b"))
    );
    assert_eq!(lexer.read_token().token_type, TokenType::Eof);
}

#[test]
fn test_narrowing_wraps() {
    // An unsuffixed literal beyond 32-bit range narrows by two's-complement
    // truncation of the 64-bit parse.
    let mut lexer = Lexer::new("4294967297 2147483648");
    assert_eq!(lexer.read_token().token_type, TokenType::LitI32(1));
    assert_eq!(lexer.read_token().token_type, TokenType::LitI32(-2147483648));
    assert_eq!(lexer.read_token().token_type, TokenType::Eof);
}

#[test]
fn test_long_suffix_wide_value() {
    let mut lexer = Lexer::new("2147483648l -2147483649l");
    assert_eq!(lexer.read_token().token_type, TokenType::LitI64(2147483648));
    assert_eq!(lexer.read_token().token_type, TokenType::LitI64(-2147483649));
    assert_eq!(lexer.read_token().token_type, TokenType::Eof);
}

#[test]
fn test_invalid_numeric_literal() {
    // A digit run beyond the 64-bit parse range is an invalid-literal
    // error; the suffix is not consumed and lexes on its own.
    let mut lexer = Lexer::new("9223372036854775808");
    assert_eq!(
        lexer.read_token().token_type,
        TokenType::Unknown(TokenError::InvalidToken)
    );
    assert_eq!(lexer.read_token().token_type, TokenType::Eof);

    let mut lexer = Lexer::new("99999999999999999999l");
    assert_eq!(
        lexer.read_token().token_type,
        TokenType::Unknown(TokenError::InvalidToken)
    );
    assert_eq!(
        lexer.read_token().token_type,
        TokenType::Ident(String::from("l"))
    );
    assert_eq!(lexer.read_token().token_type, TokenType::Eof);
}

#[test]
fn test_minus_folding() {
    // A `-` directly before a digit run folds into one negative literal;
    // separated or merged forms do not.
    let mut lexer = Lexer::new("-5");
    assert_eq!(lexer.read_token().token_type, TokenType::LitI32(-5));
    assert_eq!(lexer.read_token().token_type, TokenType::Eof);

    let mut lexer = Lexer::new("- 5");
    assert_eq!(lexer.read_token().token_type, TokenType::Minus);
    assert_eq!(lexer.read_token().token_type, TokenType::LitI32(5));

    let mut lexer = Lexer::new("--5");
    assert_eq!(lexer.read_token().token_type, TokenType::MinusMinus);
    assert_eq!(lexer.read_token().token_type, TokenType::LitI32(5));

    let mut lexer = Lexer::new("-x");
    assert_eq!(lexer.read_token().token_type, TokenType::Minus);
    assert_eq!(
        lexer.read_token().token_type,
        TokenType::Ident(String::from("x"))
    );

    let mut lexer = Lexer::new("1-2");
    assert_eq!(lexer.read_token().token_type, TokenType::LitI32(1));
    assert_eq!(lexer.read_token().token_type, TokenType::LitI32(-2));
}

#[test]
fn test_merge_needs_adjacency() {
    // Merge-table characters with trivia between them stay two singles.
    let mut lexer = Lexer::new("& &");
    assert_eq!(lexer.read_token().token_type, TokenType::Ampersand);
    assert_eq!(lexer.read_token().token_type, TokenType::Ampersand);
    assert_eq!(lexer.read_token().token_type, TokenType::Eof);

    let mut lexer = Lexer::new("< =");
    assert_eq!(lexer.read_token().token_type, TokenType::LAngle);
    assert_eq!(lexer.read_token().token_type, TokenType::Assign);
    assert_eq!(lexer.read_token().token_type, TokenType::Eof);
}

#[test]
fn test_identifiers_exact_text() {
    let mut lexer = Lexer::new("foo _bar baz123 letx nul nulll");
    assert_eq!(
        lexer.read_token().token_type,
        TokenType::Ident(String::from("foo"))
    );
    assert_eq!(
        lexer.read_token().token_type,
        TokenType::Ident(String::from("_bar"))
    );
    assert_eq!(
        lexer.read_token().token_type,
        TokenType::Ident(String::from("baz123"))
    );
    assert_eq!(
        lexer.read_token().token_type,
        TokenType::Ident(String::from("letx"))
    );
    assert_eq!(
        lexer.read_token().token_type,
        TokenType::Ident(String::from("nul"))
    );
    assert_eq!(
        lexer.read_token().token_type,
        TokenType::Ident(String::from("nulll"))
    );
    assert_eq!(lexer.read_token().token_type, TokenType::Eof);
}

#[test]
fn test_suffix_only_when_adjacent() {
    let mut lexer = Lexer::new("1 l");
    assert_eq!(lexer.read_token().token_type, TokenType::LitI32(1));
    assert_eq!(
        lexer.read_token().token_type,
        TokenType::Ident(String::from("l"))
    );

    let mut lexer = Lexer::new("1.0 d");
    assert_eq!(
        lexer.read_token().token_type,
        TokenType::LitF32(String::from("1.0"))
    );
    assert_eq!(
        lexer.read_token().token_type,
        TokenType::Ident(String::from("d"))
    );

    let mut lexer = Lexer::new("1l5");
    assert_eq!(lexer.read_token().token_type, TokenType::LitI64(1));
    assert_eq!(lexer.read_token().token_type, TokenType::LitI32(5));
}

#[test]
fn test_second_dot_ends_literal() {
    let mut lexer = Lexer::new("1.2.3");
    assert_eq!(
        lexer.read_token().token_type,
        TokenType::LitF32(String::from("1.2"))
    );
    assert_eq!(lexer.read_token().token_type, TokenType::Dot);
    assert_eq!(lexer.read_token().token_type, TokenType::LitI32(3));
    assert_eq!(lexer.read_token().token_type, TokenType::Eof);
}

#[test]
fn test_float_text_values() {
    let mut lexer = Lexer::new("1.5 1.5d -0.5 1.");
    let t = lexer.read_token().token_type;
    assert_eq!(t, TokenType::LitF32(String::from("1.5")));
    let t = lexer.read_token().token_type;
    assert_eq!(t, TokenType::LitF64(String::from("1.5")));
    match t {
        TokenType::LitF64(s) => assert_eq!(s.parse::<f64>().unwrap(), 1.5f64),
        _ => unreachable!(),
    }
    assert_eq!(
        lexer.read_token().token_type,
        TokenType::LitF32(String::from("-0.5"))
    );
    let t = lexer.read_token().token_type;
    assert_eq!(t, TokenType::LitF32(String::from("1.")));
    match t {
        TokenType::LitF32(s) => assert_eq!(s.parse::<f32>().unwrap(), 1.0f32),
        _ => unreachable!(),
    }
    assert_eq!(lexer.read_token().token_type, TokenType::Eof);
}

#[test]
fn test_empty_and_whitespace_only() {
    let mut lexer = Lexer::new("");
    let t = lexer.read_token();
    assert_eq!(t.token_type, TokenType::Eof);
    assert_eq!(t.span.lo.0, 0);
    assert_eq!(t.span.hi.0, 0);

    let mut lexer = Lexer::new(" \t\n\r ");
    let t = lexer.read_token();
    assert_eq!(t.token_type, TokenType::Eof);
    assert_eq!(t.span.lo.0, 5);
    assert_eq!(t.span.hi.0, 5);
}

#[test]
fn test_spans_exclude_whitespace() {
    let mut lexer = Lexer::new("  a   b ");
    let t = lexer.read_token();
    assert_eq!(t.token_type, TokenType::Ident(String::from("a")));
    assert_eq!((t.span.lo.0, t.span.hi.0), (2, 3));
    let t = lexer.read_token();
    assert_eq!(t.token_type, TokenType::Ident(String::from("b")));
    assert_eq!((t.span.lo.0, t.span.hi.0), (6, 7));
    let t = lexer.read_token();
    assert_eq!(t.token_type, TokenType::Eof);
    assert_eq!((t.span.lo.0, t.span.hi.0), (8, 8));
}

#[test]
fn test_multibyte_spans() {
    // Spans measure bytes, not characters: a two-byte character widens the
    // span accordingly.
    let mut lexer = Lexer::new("h\u{e9}llo x");
    let t = lexer.read_token();
    assert_eq!(t.token_type, TokenType::Ident(String::from("h\u{e9}llo")));
    assert_eq!((t.span.lo.0, t.span.hi.0), (0, 6));
    let t = lexer.read_token();
    assert_eq!(t.token_type, TokenType::Ident(String::from("x")));
    assert_eq!((t.span.lo.0, t.span.hi.0), (7, 8));
}

#[test]
fn test_string_keeps_inner_whitespace() {
    let mut lexer = Lexer::new("\" a\tb \"");
    assert_eq!(
        lexer.read_token().token_type,
        TokenType::LitStr(String::from(" a\tb "))
    );
    assert_eq!(lexer.read_token().token_type, TokenType::Eof);
}
