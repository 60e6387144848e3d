use memedsn::token::{Tok, Token};

#[test]
fn test_tok_from_str_case_sensitive() {
    // Tok::from_str is case-sensitive and expects snake_case
    // The lexer handles case-insensitivity by converting to lowercase first
    assert_eq!(Tok::from_str("area").unwrap(), Tok::Area);
    assert_eq!(Tok::from_str("pcb").unwrap(), Tok::Pcb);
    assert_eq!(Tok::from_str("net").unwrap(), Tok::Net);
    // Mixed case should fail
    assert!(Tok::from_str("AREA").is_err());
    assert!(Tok::from_str("Area").is_err());
}

#[test]
fn test_tok_from_str_invalid() {
    assert!(Tok::from_str("invalid_keyword").is_err());
    assert!(Tok::from_str("notakeyword").is_err());
    assert!(Tok::from_str("").is_err());
}

#[test]
fn test_token_display() {
    let token = Token { tok: Tok::Area, s: "area".to_string() };
    assert_eq!(token.to_string(), "Token(area:area)");

    let token2 = Token { tok: Tok::Literal, s: "my_custom_id".to_string() };
    assert_eq!(token2.to_string(), "Token(literal:my_custom_id)");
}
