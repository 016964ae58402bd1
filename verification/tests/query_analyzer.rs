use unnamed::completion::query_analyzer::{CompletionContext, QueryAnalyzer, Span, Token};

fn text(s: &str, start: usize, end: usize) -> (Token, Span) {
    (Token::Text(s.to_string()), Span { start, end })
}

fn tok(t: Token, start: usize, end: usize) -> (Token, Span) {
    (t, Span { start, end })
}

#[test]
fn test_cursor_beyond_query_length() {
    // Cursor position beyond query length should be clamped
    let tokens = vec![text("hello", 0, 5)];
    match QueryAnalyzer::analyze("hello", 100, &tokens) {
        CompletionContext::PartialFieldOrTerm { text, .. } => {
            assert_eq!(text, "hello");
        }
        other => panic!("Expected PartialFieldOrTerm, got {:?}", other),
    }
}

#[test]
fn test_cursor_mid_word() {
    // Cursor in middle of "hello" at position 3
    assert_eq!(QueryAnalyzer::query_to_cursor("hello world", 3), "hel");
    let tokens = vec![text("hel", 0, 3)];
    match QueryAnalyzer::analyze("hello world", 3, &tokens) {
        CompletionContext::PartialFieldOrTerm { text, start_pos } => {
            assert_eq!(text, "hel");
            assert_eq!(start_pos, 0);
        }
        other => panic!("Expected PartialFieldOrTerm, got {:?}", other),
    }
}

#[test]
fn test_cursor_mid_field_value() {
    // Cursor in middle of field value
    assert_eq!(QueryAnalyzer::query_to_cursor("root:/etc/bin", 9), "root:/etc");
    let tokens = vec![text("root", 0, 4), tok(Token::Colon, 4, 5), text("/etc", 5, 9)];
    match QueryAnalyzer::analyze("root:/etc/bin", 9, &tokens) {
        CompletionContext::FieldValue { field, value, value_start } => {
            assert_eq!(field, "root");
            assert_eq!(value, "/etc");
            assert_eq!(value_start, 5);
        }
        other => panic!("Expected FieldValue, got {:?}", other),
    }
}

#[test]
fn test_complex_query_after_group() {
    // "(a OR b) AND |" - cursor after AND
    let tokens = vec![
        tok(Token::LParen, 0, 1),
        text("a", 1, 2),
        tok(Token::Or, 3, 5),
        text("b", 6, 7),
        tok(Token::RParen, 7, 8),
        tok(Token::And, 9, 12),
    ];
    assert!(matches!(
        QueryAnalyzer::analyze("(a OR b) AND ", 13, &tokens),
        CompletionContext::AfterOperator
    ));
}

#[test]
fn test_complex_query_in_nested_group() {
    // "((a AND |" - typing inside nested group
    let tokens = vec![
        tok(Token::LParen, 0, 1),
        tok(Token::LParen, 1, 2),
        text("a", 2, 3),
        tok(Token::And, 4, 7),
    ];
    match QueryAnalyzer::analyze("((a AND ", 8, &tokens) {
        CompletionContext::AfterOperator => {}
        other => panic!("Expected AfterOperator, got {:?}", other),
    }
}

#[test]
fn test_complex_query_field_in_group() {
    // "(root:/etc|" - field:value inside group
    let tokens = vec![
        tok(Token::LParen, 0, 1),
        text("root", 1, 5),
        tok(Token::Colon, 5, 6),
        text("/etc", 6, 10),
    ];
    match QueryAnalyzer::analyze("(root:/etc", 10, &tokens) {
        CompletionContext::FieldValue { field, value, .. } => {
            assert_eq!(field, "root");
            assert_eq!(value, "/etc");
        }
        other => panic!("Expected FieldValue, got {:?}", other),
    }
}

#[test]
fn test_escaped_quote_closed() {
    // Properly closed string with escaped quote inside
    let query = r#""hello \"world\"""#;
    let tokens = vec![tok(Token::QuotedText(r#"hello \"world\""#.to_string()), 0, query.len())];
    assert!(
        matches!(
            QueryAnalyzer::analyze(query, query.len(), &tokens),
            CompletionContext::InQuotedString // ends without space, inside completed quote
        ) | matches!(
            QueryAnalyzer::analyze(query, query.len(), &tokens),
            CompletionContext::AfterTerm
        )
    );
}

#[test]
fn test_completed_quoted_string_with_space() {
    let query = r#""hello" "#;
    let tokens = vec![tok(Token::QuotedText("hello".to_string()), 0, 7)];
    assert!(matches!(
        QueryAnalyzer::analyze(query, query.len(), &tokens),
        CompletionContext::AfterTerm
    ));
}

#[test]
fn unclosed_quote_cases() {
    let cases: Vec<(&str, bool)> = vec![
        ("", false),
        ("hello", false),
        (r#""hello""#, false),
        (r#""hello"#, true),
        (r#"""#, true),
        (r#""hello\" world""#, false),
        (r#""hello\""#, true),
        (r#""a" "b""#, false),
        (r#""a" "b"#, true),
    ];
    for (input, expected) in cases {
        assert_eq!(QueryAnalyzer::has_unclosed_quote(input), expected, "input {:?}", input);
    }
}

#[test]
fn empty_or_blank_query_is_empty_context() {
    assert!(matches!(QueryAnalyzer::analyze("", 0, &[]), CompletionContext::Empty));
    assert!(matches!(QueryAnalyzer::analyze("   ", 3, &[]), CompletionContext::Empty));
}

#[test]
fn unclosed_quote_gives_in_quoted_string() {
    let tokens: Vec<(Token, Span)> = vec![];
    assert!(matches!(
        QueryAnalyzer::analyze("\"abc", 4, &tokens),
        CompletionContext::InQuotedString
    ));
}

#[test]
fn open_group_gives_depth() {
    let tokens = vec![tok(Token::LParen, 0, 1), tok(Token::LParen, 1, 2)];
    match QueryAnalyzer::analyze("((", 2, &tokens) {
        CompletionContext::InGroup { depth } => assert_eq!(depth, 2),
        other => panic!("Expected InGroup, got {:?}", other),
    }
}

#[test]
fn field_then_colon_gives_empty_value() {
    let tokens = vec![text("root", 0, 4), tok(Token::Colon, 4, 5)];
    match QueryAnalyzer::analyze("root:", 5, &tokens) {
        CompletionContext::FieldValue { field, value, value_start } => {
            assert_eq!(field, "root");
            assert_eq!(value, "");
            assert_eq!(value_start, 5);
        }
        other => panic!("Expected FieldValue, got {:?}", other),
    }
}

#[test]
fn term_then_space_gives_after_term() {
    let tokens = vec![text("hello", 0, 5)];
    assert!(matches!(QueryAnalyzer::analyze("hello ", 6, &tokens), CompletionContext::AfterTerm));
}

#[test]
fn cutting_the_query_at_the_cursor_gives_the_same_context() {
    let query = "ext:rs hello world";
    let cursor = 12;
    let pre = QueryAnalyzer::query_to_cursor(query, cursor);
    assert_eq!(pre, "ext:rs hello");
    let tokens = vec![
        text("ext", 0, 3),
        tok(Token::Colon, 3, 4),
        text("rs", 4, 6),
        text("hello", 7, 12),
    ];
    let whole = format!("{:?}", QueryAnalyzer::analyze(query, cursor, &tokens));
    let at_end = format!("{:?}", QueryAnalyzer::analyze(pre, pre.len(), &tokens));
    let past_end = format!("{:?}", QueryAnalyzer::analyze(pre, usize::MAX, &tokens));
    assert_eq!(whole, at_end);
    assert_eq!(whole, past_end);
    assert!(whole.contains("hello"));
}
