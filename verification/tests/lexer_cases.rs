use memedsn::error::LexError;
use memedsn::lexer::Lexer;
use memedsn::token::{Tok, Token};

fn lex(data: &str) -> Vec<Token> {
    Lexer::new(data).unwrap().lex().unwrap()
}

fn texts(tokens: &[Token]) -> Vec<&str> {
    tokens.iter().map(|t| t.s.as_str()).collect()
}

fn tags(tokens: &[Token]) -> Vec<Tok> {
    tokens.iter().map(|t| t.tok).collect()
}

#[test]
fn one_token_per_word_and_parenthesis() {
    let tokens = lex(" ( a\tbb  (ccc)\n) d ");
    assert_eq!(texts(&tokens), vec!["(", "a", "bb", "(", "ccc", ")", ")", "d"]);
    assert_eq!(
        tags(&tokens),
        vec![
            Tok::Lparen,
            Tok::Literal,
            Tok::Literal,
            Tok::Lparen,
            Tok::Literal,
            Tok::Rparen,
            Tok::Rparen,
            Tok::Literal
        ]
    );
}

#[test]
fn parentheses_need_no_space_around_them() {
    let tokens = lex("(net(a)b)");
    assert_eq!(texts(&tokens), vec!["(", "net", "(", "a", ")", "b", ")"]);
    assert_eq!(tokens[1].tok, Tok::Net);
}

#[test]
fn unbalanced_parentheses_still_lex() {
    let tokens = lex(")) x ((");
    assert_eq!(texts(&tokens), vec![")", ")", "x", "(", "("]);
}

#[test]
fn unicode_whitespace_separates_words() {
    let tokens = lex("a\u{a0}b\u{2003}c\u{3000}d\r\ne\u{b}f\u{c}g");
    assert_eq!(texts(&tokens), vec!["a", "b", "c", "d", "e", "f", "g"]);
}

#[test]
fn keyword_keeps_its_case() {
    let tokens = lex("PcB Via_Keepout DEFAULT_SMD");
    assert_eq!(tags(&tokens), vec![Tok::Pcb, Tok::ViaKeepout, Tok::DefaultSmd]);
    assert_eq!(texts(&tokens), vec!["PcB", "Via_Keepout", "DEFAULT_SMD"]);
}

#[test]
fn the_word_literal_is_a_literal() {
    let tokens = lex("literal lparen rparen");
    assert_eq!(tags(&tokens), vec![Tok::Literal, Tok::Literal, Tok::Literal]);
}

#[test]
fn quoted_literal_may_hold_parentheses_and_spaces() {
    let tokens = lex(r#"(string_quote ") "a (b) c" d"#);
    assert_eq!(texts(&tokens), vec!["a (b) c", "d"]);
    assert_eq!(tags(&tokens), vec![Tok::Literal, Tok::Literal]);
}

#[test]
fn quoted_keyword_is_a_literal_in_any_case() {
    let tokens = lex(r#"(string_quote ') 'PCB' 'net' pcb"#);
    assert_eq!(tags(&tokens), vec![Tok::Literal, Tok::Literal, Tok::Pcb]);
    assert_eq!(texts(&tokens), vec!["PCB", "net", "pcb"]);
}

#[test]
fn quote_continues_the_word_it_touches() {
    let tokens = lex(r#"(string_quote ") ab"c d"e"#);
    assert_eq!(texts(&tokens), vec!["abc d", "e"]);
    assert_eq!(tags(&tokens), vec![Tok::Literal, Tok::Literal]);
}

#[test]
fn without_a_quote_directive_nothing_is_quoted() {
    let tokens = lex(r#"(net "a b" 'c d' $e f$)"#);
    assert_eq!(texts(&tokens), vec!["(", "net", "\"a", "b\"", "'c", "d'", "$e", "f$", ")"]);
}

#[test]
fn only_the_named_quote_character_quotes() {
    let tokens = lex(r#"(string_quote $) "a b" $c d$"#);
    assert_eq!(texts(&tokens), vec!["\"a", "b\"", "c d"]);
}

#[test]
fn quoting_off_splits_a_quoted_literal_at_its_spaces() {
    let on = lex(r#"(string_quote ") "one two  three""#);
    assert_eq!(texts(&on), vec!["one two  three"]);
    let off = lex(r#"(string_quote ") (space_in_quoted_tokens off) "one two  three""#);
    assert_eq!(texts(&off), vec!["\"one", "two", "three\""]);
    assert_eq!(tags(&off), vec![Tok::Literal, Tok::Literal, Tok::Literal]);
}

#[test]
fn directive_governs_the_text_before_it() {
    let tokens = lex(r#"(net "a b") (string_quote ")"#);
    assert_eq!(texts(&tokens), vec!["(", "net", "a b", ")"]);
    let tokens = lex(r#"(string_quote ") (net "a b") (space_in_quoted_tokens off)"#);
    assert_eq!(texts(&tokens), vec!["(", "net", "\"a", "b\"", ")"]);
}

#[test]
fn directives_are_cut_out_of_the_text() {
    let tokens = lex("(pcb x (parser (string_quote \") (space_in_quoted_tokens off)))");
    assert_eq!(texts(&tokens), vec!["(", "pcb", "x", "(", "parser", ")", ")"]);
}

#[test]
fn directives_are_found_in_any_case_and_spacing() {
    let tokens = lex("(  STRING_QUOTE\n'  ) ( Space_In_Quoted_Tokens   OFF ) 'a b'");
    assert_eq!(texts(&tokens), vec!["'a", "b'"]);
}

#[test]
fn space_in_quoted_tokens_on_is_no_directive() {
    let tokens = lex(r#"(string_quote ") (space_in_quoted_tokens on) "a b""#);
    assert_eq!(texts(&tokens), vec!["(", "space_in_quoted_tokens", "on", ")", "a b"]);
}

#[test]
fn first_quote_directive_names_the_quote_and_all_are_cut() {
    let tokens = lex(r#"(string_quote ') (string_quote ") 'a b' "c d""#);
    assert_eq!(texts(&tokens), vec!["a b", "\"c", "d\""]);
}

#[test]
fn unknown_quote_character_is_reported() {
    let unknown = |q: &str| LexError::UnknownQuote(q.to_string());
    assert_eq!(Lexer::new("(string_quote x)").unwrap_err(), unknown("x"));
    assert_eq!(Lexer::new("(string_quote `)").unwrap_err(), unknown("`"));
    assert_eq!(Lexer::new("(string_quote \n)").unwrap_err(), unknown("\n"));
    assert_eq!(Lexer::new("(string_quote ))").unwrap_err(), unknown(")"));
    assert!(Lexer::new("(string_quote \")").is_ok());
    assert!(Lexer::new("(string_quote ')").is_ok());
    assert!(Lexer::new("(string_quote $)").is_ok());
}

#[test]
fn unclosed_quote_is_unexpected_eof() {
    let lexer = Lexer::new(r#"(string_quote ") x "abc"#).unwrap();
    assert_eq!(lexer.lex().unwrap_err(), LexError::UnexpectedEof);
    let lexer = Lexer::new(r#"(string_quote ") ""#).unwrap();
    assert_eq!(lexer.lex().unwrap_err(), LexError::UnexpectedEof);
}

#[test]
fn with_directives_takes_what_the_prescan_found() {
    let lexer = Lexer::with_directives(Some("$".to_string()), false, "a $b c$").unwrap();
    assert_eq!(texts(&lexer.lex().unwrap()), vec!["a", "b c"]);
    let lexer = Lexer::with_directives(Some("$".to_string()), true, "a $b c$").unwrap();
    assert_eq!(texts(&lexer.lex().unwrap()), vec!["a", "$b", "c$"]);
    let lexer = Lexer::with_directives(None, false, "a $b c$").unwrap();
    assert_eq!(texts(&lexer.lex().unwrap()), vec!["a", "$b", "c$"]);
    assert_eq!(
        Lexer::with_directives(Some("ab".to_string()), false, "x").unwrap_err(),
        LexError::UnknownQuote("ab".to_string())
    );
    assert_eq!(
        Lexer::with_directives(Some(String::new()), false, "x").unwrap_err(),
        LexError::UnknownQuote(String::new())
    );
}

#[test]
fn lex_error_messages() {
    assert_eq!(LexError::UnexpectedEof.message(), "unexpected EOF");
    assert_eq!(
        LexError::UnknownQuote("x".to_string()).message(),
        "unknown string quote character x"
    );
    assert_eq!(LexError::Pattern.message(), "invalid directive pattern");
}
