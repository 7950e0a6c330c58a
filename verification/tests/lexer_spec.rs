use rcc::lexer::lexer;
use rcc::lexer::LexErrorKind;
use rcc::lexer::Token;

#[test]
fn lexer_spec_emptiness() {
    let tokens = lexer("").unwrap();
    assert!(tokens.is_empty());
}

#[test]
fn lexer_spec_listing_1_1() {
    let input = "int main(void) {\n                 return 2;\n}";
    let tokens = lexer(input).unwrap();
    assert_eq!(
        tokens,
        vec![
            Token::Keyword(String::from("int")),
            Token::Identifier(String::from("main")),
            Token::Lparen,
            Token::Keyword(String::from("void")),
            Token::Rparen,
            Token::Lbrace,
            Token::Keyword(String::from("return")),
            Token::Constant(2),
            Token::Semicolon,
            Token::Rbrace,
        ]
    );
}

#[test]
fn round_trip_ten_tokens() {
    let tokens = lexer("int main(void) { return 2; }").unwrap();
    assert_eq!(
        tokens,
        vec![
            Token::Keyword(String::from("int")),
            Token::Identifier(String::from("main")),
            Token::Lparen,
            Token::Keyword(String::from("void")),
            Token::Rparen,
            Token::Lbrace,
            Token::Keyword(String::from("return")),
            Token::Constant(2),
            Token::Semicolon,
            Token::Rbrace,
        ]
    );
}

#[test]
fn error_accumulation_continues_past_invalid_characters() {
    let errors = lexer("<<>>").unwrap_err();
    assert_eq!(errors.len(), 4);
    for (k, error) in errors.iter().enumerate() {
        assert_eq!(error.position, k);
        assert_eq!(error.kind, LexErrorKind::UnrecognizedCharacter);
    }
}

#[test]
fn keywords_take_priority_over_identifiers() {
    assert_eq!(lexer("int").unwrap(), vec![Token::Keyword(String::from("int"))]);
    assert_eq!(lexer("void").unwrap(), vec![Token::Keyword(String::from("void"))]);
    assert_eq!(lexer("return").unwrap(), vec![Token::Keyword(String::from("return"))]);
}

#[test]
fn keyword_prefix_is_an_identifier() {
    assert_eq!(lexer("intx").unwrap(), vec![Token::Identifier(String::from("intx"))]);
    assert_eq!(lexer("returned").unwrap(), vec![Token::Identifier(String::from("returned"))]);
}

#[test]
fn identifiers_allow_underscore_and_digits() {
    assert_eq!(lexer("_main2").unwrap(), vec![Token::Identifier(String::from("_main2"))]);
}

#[test]
fn whitespace_is_accepted_around_every_token() {
    assert_eq!(
        lexer("  \t\n ( \r ) \n").unwrap(),
        vec![Token::Lparen, Token::Rparen]
    );
}

#[test]
fn largest_constant_fits() {
    assert_eq!(lexer("4294967295").unwrap(), vec![Token::Constant(4294967295)]);
}

#[test]
fn oversized_constant_is_an_error() {
    let errors = lexer("4294967296").unwrap_err();
    assert_eq!(errors.len(), 1);
    assert_eq!(errors[0].position, 0);
    assert_eq!(errors[0].kind, LexErrorKind::ConstantTooLarge);
}

#[test]
fn negative_forms_are_unsupported() {
    // A sign or a hexadecimal prefix must fail as unrecognized input rather
    // than silently truncating.
    let errors = lexer("-1").unwrap_err();
    assert_eq!(errors[0].position, 0);
    assert_eq!(errors[0].kind, LexErrorKind::UnrecognizedCharacter);
}

#[test]
fn errors_carry_their_positions() {
    let errors = lexer("int @ void $").unwrap_err();
    assert_eq!(errors.len(), 2);
    assert_eq!(errors[0].position, 4);
    assert_eq!(errors[1].position, 11);
}
