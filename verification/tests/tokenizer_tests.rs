use segment_utils::errors::TokenizeError;
use segment_utils::tokenizer::tokenize;

#[test]
fn quoted_evictor_line() {
    let tokens = tokenize(String::from("create foo evictor \"least recently used\"")).unwrap();
    assert_eq!(
        tokens,
        vec![
            String::from("create"),
            String::from("foo"),
            String::from("evictor"),
            String::from("least recently used"),
        ]
    );
}

#[test]
fn unterminated_quote_is_rejected_wholesale() {
    let r = tokenize(String::from("\"unterminated"));
    assert!(matches!(r, Err(TokenizeError::MalformedInput)));
}

#[test]
fn repeated_spaces_yield_no_empty_tokens() {
    let tokens = tokenize(String::from("a  b")).unwrap();
    assert_eq!(tokens, vec![String::from("a"), String::from("b")]);
}

#[test]
fn whitespace_only_yields_empty_sequence() {
    let tokens = tokenize(String::from("   ")).unwrap();
    assert!(tokens.is_empty());
}

#[test]
fn empty_input_yields_empty_sequence() {
    let tokens = tokenize(String::new()).unwrap();
    assert!(tokens.is_empty());
}

#[test]
fn adjacent_quoted_segments_yield_two_tokens() {
    let tokens = tokenize(String::from("\"a\"\"b\"")).unwrap();
    assert_eq!(tokens, vec![String::from("a"), String::from("b")]);
}

#[test]
fn mixed_quoted_and_unquoted_concatenate() {
    let tokens = tokenize(String::from("ab\"cd\"")).unwrap();
    assert_eq!(tokens, vec![String::from("abcd")]);
}

#[test]
fn closing_quote_emits_even_without_space() {
    let tokens = tokenize(String::from("a\"b c\"d")).unwrap();
    assert_eq!(tokens, vec![String::from("ab c"), String::from("d")]);
}

#[test]
fn leading_and_trailing_spaces_are_skipped() {
    let tokens = tokenize(String::from("  ping  ")).unwrap();
    assert_eq!(tokens, vec![String::from("ping")]);
}

#[test]
fn non_ascii_characters_pass_through() {
    let tokens = tokenize(String::from("héllo wörld")).unwrap();
    assert_eq!(tokens, vec![String::from("héllo"), String::from("wörld")]);
}

#[test]
fn empty_quotes_emit_nothing() {
    let tokens = tokenize(String::from("\"\" a")).unwrap();
    assert_eq!(tokens, vec![String::from("a")]);
}
