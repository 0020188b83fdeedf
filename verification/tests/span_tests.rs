use bfc_lexer::span::{join_spans, BytePos, Span};

#[test]
fn test_span_to_extends() {
    let a = Span { lo: BytePos(2), hi: BytePos(5) };
    let b = Span { lo: BytePos(7), hi: BytePos(9) };
    let joined = a.to(&b);
    assert_eq!(joined, Span { lo: BytePos(2), hi: BytePos(9) });
}

#[test]
fn test_join_spans_covers() {
    let spans = vec![
        Span { lo: BytePos(4), hi: BytePos(6) },
        Span { lo: BytePos(1), hi: BytePos(3) },
        Span { lo: BytePos(5), hi: BytePos(9) },
    ];
    assert_eq!(
        join_spans(&spans),
        Span { lo: BytePos(1), hi: BytePos(9) }
    );
}

#[test]
fn test_join_spans_single_and_empty() {
    let one = vec![Span { lo: BytePos(3), hi: BytePos(8) }];
    assert_eq!(join_spans(&one), Span { lo: BytePos(3), hi: BytePos(8) });
    let none: Vec<Span> = vec![];
    assert_eq!(join_spans(&none), Span { lo: BytePos(0), hi: BytePos(0) });
}
