use memedsn::lexer::Lexer;
use memedsn::token::Tok;

#[test]
fn simple_tokens() {
    let data = "(pcb test)";
    let tokens = Lexer::new(data).unwrap().lex().unwrap();
    assert_eq!(tokens.len(), 4);
    assert_eq!(tokens[0].tok, Tok::Lparen);
    assert_eq!(tokens[1].tok, Tok::Pcb);
    assert_eq!(tokens[2].tok, Tok::Literal);
    assert_eq!(tokens[2].s, "test");
    assert_eq!(tokens[3].tok, Tok::Rparen);
}

#[test]
fn nested_expressions() {
    let data = "(pcb (net test))";
    let tokens = Lexer::new(data).unwrap().lex().unwrap();
    assert_eq!(tokens.len(), 7);
    assert_eq!(tokens[0].tok, Tok::Lparen);
    assert_eq!(tokens[1].tok, Tok::Pcb);
    assert_eq!(tokens[2].tok, Tok::Lparen);
    assert_eq!(tokens[3].tok, Tok::Net);
    assert_eq!(tokens[4].tok, Tok::Literal);
    assert_eq!(tokens[4].s, "test");
    assert_eq!(tokens[5].tok, Tok::Rparen);
    assert_eq!(tokens[6].tok, Tok::Rparen);
}

#[test]
fn whitespace_handling() {
    let data = "  (  pcb   test  )  ";
    let tokens = Lexer::new(data).unwrap().lex().unwrap();
    assert_eq!(tokens.len(), 4);
    assert_eq!(tokens[0].tok, Tok::Lparen);
    assert_eq!(tokens[1].tok, Tok::Pcb);
    assert_eq!(tokens[2].tok, Tok::Literal);
    assert_eq!(tokens[2].s, "test");
    assert_eq!(tokens[3].tok, Tok::Rparen);
}

#[test]
fn string_quote_double() {
    let data = r#"(string_quote ") (net "test name")"#;
    let tokens = Lexer::new(data).unwrap().lex().unwrap();
    assert_eq!(tokens[1].tok, Tok::Net);
    assert_eq!(tokens[2].tok, Tok::Literal);
    assert_eq!(tokens[2].s, "test name");
}

#[test]
fn quoted_keyword_is_literal() {
    let data = r#"(string_quote ") (net "pcb")"#;
    let tokens = Lexer::new(data).unwrap().lex().unwrap();
    assert_eq!(tokens[1].tok, Tok::Net);
    assert_eq!(tokens[2].tok, Tok::Literal);
    assert_eq!(tokens[2].s, "pcb");
}

#[test]
fn space_in_quoted_tokens_off() {
    let data = r#"(string_quote ") (space_in_quoted_tokens off) (net "ab")"#;
    let tokens = Lexer::new(data).unwrap().lex().unwrap();
    assert_eq!(tokens[1].tok, Tok::Net);
    assert_eq!(tokens[2].tok, Tok::Literal);
    assert_eq!(tokens[2].s, "\"ab\"");
}

#[test]
fn space_in_quoted_tokens_off_spaces() {
    let data = r#"(string_quote ") (space_in_quoted_tokens off) (net "a b")"#;
    let tokens = Lexer::new(data).unwrap().lex().unwrap();
    assert_eq!(tokens[1].tok, Tok::Net);
    assert_eq!(tokens[2].tok, Tok::Literal);
    assert_eq!(tokens[2].s, "\"a");
    assert_eq!(tokens[3].tok, Tok::Literal);
    assert_eq!(tokens[3].s, "b\"");
}

#[test]
fn string_quote_single() {
    let data = "(string_quote ') (net 'test name')";
    let tokens = Lexer::new(data).unwrap().lex().unwrap();
    assert_eq!(tokens[1].tok, Tok::Net);
    assert_eq!(tokens[2].tok, Tok::Literal);
    assert_eq!(tokens[2].s, "test name");
}

#[test]
fn string_quote_dollar() {
    let data = "(string_quote $) (net $test name$)";
    let tokens = Lexer::new(data).unwrap().lex().unwrap();
    assert_eq!(tokens[1].tok, Tok::Net);
    assert_eq!(tokens[2].tok, Tok::Literal);
    assert_eq!(tokens[2].s, "test name");
}

#[test]
fn unclosed_quoted_string_errors() {
    let data = r#"(string_quote ") (pcb "unclosed string)"#;
    let lexer = Lexer::new(data).unwrap();
    assert!(lexer.lex().is_err());
}

#[test]
fn empty_input() {
    let data = "";
    let tokens = Lexer::new(data).unwrap().lex().unwrap();
    assert_eq!(tokens.len(), 0);
}

#[test]
fn only_whitespace() {
    let data = "   \n\t  ";
    let tokens = Lexer::new(data).unwrap().lex().unwrap();
    assert_eq!(tokens.len(), 0);
}

#[test]
fn case_insensitive_keywords() {
    let data = "(PCB NET VIA)";
    let tokens = Lexer::new(data).unwrap().lex().unwrap();
    assert_eq!(tokens[1].tok, Tok::Pcb);
    assert_eq!(tokens[2].tok, Tok::Net);
    assert_eq!(tokens[3].tok, Tok::Via);
}

#[test]
fn lexer_negative_numbers() {
    let data = "(vertex -10.5 -20.3)";
    let tokens = Lexer::new(data).unwrap().lex().unwrap();
    assert_eq!(tokens[1].tok, Tok::Literal);
    assert_eq!(tokens[1].s, "vertex");
    assert_eq!(tokens[2].tok, Tok::Literal);
    assert_eq!(tokens[2].s, "-10.5");
    assert_eq!(tokens[3].tok, Tok::Literal);
    assert_eq!(tokens[3].s, "-20.3");
}

#[test]
fn identifiers_with_underscores() {
    let data = "(net my_net_name_123)";
    let tokens = Lexer::new(data).unwrap().lex().unwrap();
    assert_eq!(tokens[2].tok, Tok::Literal);
    assert_eq!(tokens[2].s, "my_net_name_123");
}

#[test]
fn identifiers_with_dashes() {
    let data = "(component R1-123-test)";
    let tokens = Lexer::new(data).unwrap().lex().unwrap();
    assert_eq!(tokens[2].tok, Tok::Literal);
    assert_eq!(tokens[2].s, "R1-123-test");
}

#[test]
fn real_pcb_snippet() {
    let data = "(pcb test_board (resolution mm 1000))";
    let tokens = Lexer::new(data).unwrap().lex().unwrap();
    assert_eq!(tokens[0].tok, Tok::Lparen);
    assert_eq!(tokens[1].tok, Tok::Pcb);
    assert_eq!(tokens[2].tok, Tok::Literal);
    assert_eq!(tokens[2].s, "test_board");
    assert_eq!(tokens[3].tok, Tok::Lparen);
    assert_eq!(tokens[4].tok, Tok::Resolution);
    assert_eq!(tokens[5].tok, Tok::Mm);
    assert_eq!(tokens[6].tok, Tok::Literal);
    assert_eq!(tokens[6].s, "1000");
}

#[test]
fn multiline_input() {
    let data = "(pcb test\n  (net mynet)\n  (via v1))";
    let tokens = Lexer::new(data).unwrap().lex().unwrap();
    assert_eq!(tokens[1].tok, Tok::Pcb);
    assert_eq!(tokens[2].tok, Tok::Literal);
    assert_eq!(tokens[2].s, "test");
    assert_eq!(tokens[4].tok, Tok::Net);
    assert_eq!(tokens[5].tok, Tok::Literal);
    assert_eq!(tokens[5].s, "mynet");
    assert_eq!(tokens[8].tok, Tok::Via);
    assert_eq!(tokens[9].tok, Tok::Literal);
    assert_eq!(tokens[9].s, "v1");
}

#[test]
fn quoted_empty_string() {
    let data = r#"(string_quote ") (net "")"#;
    let tokens = Lexer::new(data).unwrap().lex().unwrap();
    let net_idx = tokens.iter().position(|t| t.tok == Tok::Net).expect("expected net token");
    assert_eq!(tokens[net_idx + 1].s, "");
}

#[test]
fn invalid_quote_character() {
    let data = r"(string_quote x) (pcb test)";
    assert!(Lexer::new(data).is_err());
}
