use atl::lexer::Lexer;
use atl::lexer::Token;

#[test]
fn test_empty_input_peeks_none() {
    let lexer = Lexer::new("").unwrap();
    assert_eq!(lexer.peek(), None);
}

#[test]
fn test_trivia_only_peeks_none() {
    let lexer = Lexer::new("  \t\n // a comment\n\x0c ").unwrap();
    assert_eq!(lexer.peek(), None);
}

#[test]
fn test_comment_to_end_of_input() {
    let lexer = Lexer::new("// no newline after this").unwrap();
    assert_eq!(lexer.peek(), None);
}

#[test]
fn test_unrecognized_first_character() {
    let e = match Lexer::new("@") {
        Ok(_) => panic!("lexer construction should fail"),
        Err(e) => e,
    };
    assert_eq!(
        e.message(),
        "error encountered at token \"@\" while parsing unrecognized token\n"
    );
}

#[test]
fn test_unrecognized_after_trivia() {
    assert!(Lexer::new("  // c\n @x").is_err());
}

#[test]
fn test_unterminated_string_literal() {
    assert!(Lexer::new("\"unterminated").is_err());
}

#[test]
fn test_unterminated_char_literal() {
    assert!(Lexer::new("'unterminated").is_err());
}

#[test]
fn test_tok_string_empty_before_consuming() {
    let lexer = Lexer::new("abc").unwrap();
    assert_eq!(lexer.tok_string(), "");
}

#[test]
fn test_token_sequence_with_keywords() {
    let mut lexer = Lexer::new("let x = 5;").unwrap();
    assert_eq!(lexer.peek(), Some(Token::Let));
    assert_eq!(lexer.next().unwrap(), Some(Token::Let));
    assert_eq!(lexer.tok_string(), "let");
    assert_eq!(lexer.next().unwrap(), Some(Token::Identifier));
    assert_eq!(lexer.tok_string(), "x");
    assert_eq!(lexer.next().unwrap(), Some(Token::Equals));
    assert_eq!(lexer.next().unwrap(), Some(Token::Number));
    assert_eq!(lexer.tok_string(), "5");
    assert_eq!(lexer.next().unwrap(), Some(Token::SemiColon));
    assert_eq!(lexer.peek(), None);
    assert_eq!(lexer.next().unwrap(), None);
}

#[test]
fn test_def_keyword_and_punctuation() {
    let mut lexer = Lexer::new("def f : a -> b :: c . , + - * / % ^ & | !").unwrap();
    let expected = [
        Token::Def,
        Token::Identifier,
        Token::Colon,
        Token::Identifier,
        Token::Arrow,
        Token::Identifier,
        Token::DoubleColon,
        Token::Identifier,
        Token::Dot,
        Token::Comma,
        Token::Plus,
        Token::Minus,
        Token::Asterisk,
        Token::Slash,
        Token::Percent,
        Token::Caret,
        Token::Ampersand,
        Token::Bar,
        Token::ExclamationPoint,
    ];
    for t in expected {
        assert_eq!(lexer.next().unwrap(), Some(t));
    }
    assert_eq!(lexer.next().unwrap(), None);
}

#[test]
fn test_brackets_and_literals() {
    let mut lexer = Lexer::new("( ) [ ] { } < > \"hi there\" 'c'").unwrap();
    let expected = [
        Token::LeftParen,
        Token::RightParen,
        Token::LeftBracket,
        Token::RightBracket,
        Token::LeftCurlyBrace,
        Token::RightCurlyBrace,
        Token::LeftAngleBracket,
        Token::RightAngleBracket,
        Token::String,
        Token::Char,
    ];
    for t in expected {
        assert_eq!(lexer.next().unwrap(), Some(t));
    }
    assert_eq!(lexer.tok_string(), "'c'");
    assert_eq!(lexer.next().unwrap(), None);
}

#[test]
fn test_keyword_prefix_is_identifier() {
    let mut lexer = Lexer::new("lets defs").unwrap();
    assert_eq!(lexer.next().unwrap(), Some(Token::Identifier));
    assert_eq!(lexer.tok_string(), "lets");
    assert_eq!(lexer.next().unwrap(), Some(Token::Identifier));
    assert_eq!(lexer.tok_string(), "defs");
}

#[test]
fn test_number_then_identifier() {
    let mut lexer = Lexer::new("10810ident").unwrap();
    assert_eq!(lexer.next().unwrap(), Some(Token::Number));
    assert_eq!(lexer.tok_string(), "10810");
    assert_eq!(lexer.next().unwrap(), Some(Token::Identifier));
    assert_eq!(lexer.tok_string(), "ident");
    assert_eq!(lexer.next().unwrap(), None);
}

#[test]
fn test_slash_outside_comment() {
    let mut lexer = Lexer::new("a / b // trailing\nc").unwrap();
    assert_eq!(lexer.next().unwrap(), Some(Token::Identifier));
    assert_eq!(lexer.next().unwrap(), Some(Token::Slash));
    assert_eq!(lexer.next().unwrap(), Some(Token::Identifier));
    assert_eq!(lexer.tok_string(), "b");
    assert_eq!(lexer.next().unwrap(), Some(Token::Identifier));
    assert_eq!(lexer.tok_string(), "c");
    assert_eq!(lexer.next().unwrap(), None);
}

#[test]
fn test_error_during_advance_carries_bad_slice() {
    let mut lexer = Lexer::new("identifier@name").unwrap();
    assert_eq!(lexer.peek(), Some(Token::Identifier));
    let e = lexer.next().unwrap_err();
    assert_eq!(
        e.message(),
        "error encountered at token \"@\" while parsing unrecognized token\n"
    );
}
