use letter_rdp_rust::{init, ParseError, Token, TokenKind};

#[test]
fn empty_text_is_no_program() {
    let mut parser = init();

    assert_eq!(
        parser.parse(""),
        Err(ParseError::UnexpectedEndOfInput { expected: TokenKind::Identifier })
    );
}

#[test]
fn whitespace_and_comments_alone_are_no_program() {
    let mut parser = init();

    assert_eq!(
        parser.parse("  \n // nothing here\n /* nor\n here */  "),
        Err(ParseError::UnexpectedEndOfInput { expected: TokenKind::Identifier })
    );
}

#[test]
fn invalid_assignment_target_fails() {
    let mut parser = init();

    assert_eq!(parser.parse("1 = 2;"), Err(ParseError::InvalidAssignmentTarget));
    assert_eq!(parser.parse("x + 1 = 2;"), Err(ParseError::InvalidAssignmentTarget));
    assert_eq!(parser.parse("(x) += 2;"), Ok(parser_tree("x += 2;")));
}

fn parser_tree(text: &str) -> letter_rdp_rust::Program {
    init().parse(text).expect("the text parses")
}

#[test]
fn the_scanner_is_asked_only_as_far_as_the_parser_gets() {
    let mut parser = init();

    assert_eq!(parser.parse("1 = 2; @"), Err(ParseError::InvalidAssignmentTarget));
}

#[test]
fn a_missing_semicolon_is_the_end_of_input() {
    let mut parser = init();

    assert_eq!(
        parser.parse("x"),
        Err(ParseError::UnexpectedEndOfInput { expected: TokenKind::Semicolon })
    );
    assert_eq!(
        parser.parse("1 + 2"),
        Err(ParseError::UnexpectedEndOfInput { expected: TokenKind::Semicolon })
    );
    assert_eq!(
        parser.parse("{ 1;"),
        Err(ParseError::UnexpectedEndOfInput { expected: TokenKind::CloseBrace })
    );
}

#[test]
fn a_token_of_the_wrong_kind_is_named() {
    let mut parser = init();

    assert_eq!(
        parser.parse("1 + ;"),
        Err(ParseError::UnexpectedToken {
            found: TokenKind::Semicolon,
            expected: TokenKind::Identifier
        })
    );
    assert_eq!(
        parser.parse("if x) ;"),
        Err(ParseError::UnexpectedToken {
            found: TokenKind::Identifier,
            expected: TokenKind::OpenParen
        })
    );
    assert_eq!(
        parser.parse("let x y;"),
        Err(ParseError::UnexpectedToken {
            found: TokenKind::Identifier,
            expected: TokenKind::SimpleAssign
        })
    );
    assert_eq!(
        parser.parse("let 1;"),
        Err(ParseError::UnexpectedToken {
            found: TokenKind::Number,
            expected: TokenKind::Identifier
        })
    );
}

#[test]
fn a_character_that_starts_no_token_is_reported_with_its_position() {
    let mut parser = init();

    assert_eq!(
        parser.parse("x @"),
        Err(ParseError::UnexpectedCharacter { character: '@', position: 2 })
    );
    assert_eq!(
        parser.parse("#"),
        Err(ParseError::UnexpectedCharacter { character: '#', position: 0 })
    );
    assert_eq!(
        parser.parse("'\u{e9}\u{e9}' ^"),
        Err(ParseError::UnexpectedCharacter { character: '^', position: 5 })
    );
}

#[test]
fn a_literal_cannot_start_with_any_other_token() {
    let mut parser = init();
    parser.lookahead = Some(Token { typ: TokenKind::Semicolon, value: String::from(";") });

    assert_eq!(
        parser.literal(),
        Err(ParseError::UnsupportedTokenType { kind: TokenKind::Semicolon })
    );
    assert_eq!(
        parser.lookahead,
        Some(Token { typ: TokenKind::Semicolon, value: String::from(";") })
    );
    assert_eq!(parser.tokenizer.cursor, 0);
}

#[test]
fn eat_consumes_nothing_when_it_fails() {
    let mut parser = init();
    parser.tokenizer.init("x ; y");
    parser.lookahead = parser.tokenizer.next().expect("a token");

    assert_eq!(
        parser.eat(TokenKind::Number),
        Err(ParseError::UnexpectedToken {
            found: TokenKind::Identifier,
            expected: TokenKind::Number
        })
    );
    assert_eq!(
        parser.lookahead,
        Some(Token { typ: TokenKind::Identifier, value: String::from("x") })
    );
    assert_eq!(parser.tokenizer.cursor, 1);

    assert_eq!(
        parser.eat(TokenKind::Identifier),
        Ok(Token { typ: TokenKind::Identifier, value: String::from("x") })
    );
    assert_eq!(
        parser.lookahead,
        Some(Token { typ: TokenKind::Semicolon, value: String::from(";") })
    );
    assert_eq!(parser.tokenizer.cursor, 3);
}

#[test]
fn eat_at_the_end_of_input_changes_nothing() {
    let mut parser = init();
    parser.tokenizer.init("x");
    parser.tokenizer.cursor = 1;

    assert_eq!(
        parser.eat(TokenKind::CloseParen),
        Err(ParseError::UnexpectedEndOfInput { expected: TokenKind::CloseParen })
    );
    assert_eq!(parser.lookahead, None);
    assert_eq!(parser.tokenizer.cursor, 1);
}

#[test]
fn a_literal_at_the_end_of_input_fails() {
    let mut parser = init();

    assert_eq!(
        parser.literal(),
        Err(ParseError::UnexpectedEndOfInput { expected: TokenKind::Number })
    );
}
