use cliparse::tokenize;

#[test]
fn tokenize_quoted_input() {
    let toks = tokenize("-n=\"John Doe\" --age=20 -h");
    assert_eq!(
        toks,
        vec!["-n=John Doe".to_string(), "--age=20".to_string(), "-h".to_string()]
    );
}

#[test]
fn tokenize_empty_input_has_no_tokens() {
    let toks = tokenize("");
    assert!(toks.is_empty());
}

#[test]
fn tokenize_whitespace_only_has_no_tokens() {
    let toks = tokenize("   ");
    assert!(toks.is_empty());
}

#[test]
fn tokenize_collapses_consecutive_spaces() {
    let toks = tokenize("a  b   c");
    assert_eq!(toks, vec!["a".to_string(), "b".to_string(), "c".to_string()]);
}

#[test]
fn tokenize_unterminated_quote_keeps_rest() {
    let toks = tokenize("\"a b");
    assert_eq!(toks, vec!["a b".to_string()]);
}

#[test]
fn tokenize_single_quotes_too() {
    let toks = tokenize("-n='John Doe' x");
    assert_eq!(toks, vec!["-n=John Doe".to_string(), "x".to_string()]);
}
