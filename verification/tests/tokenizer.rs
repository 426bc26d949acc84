use chemp::tokenizer::{Token, Tokenizer};
use chemp::Error;

#[test]
fn tokenizer_next_token() {
    let mut tokenizer = Tokenizer::new("Ca(NO3)2*2H2O");

    assert_eq!(tokenizer.next_token().unwrap(), Some(Token::Symbol("Ca")));

    assert_eq!(tokenizer.next_token().unwrap(), Some(Token::LParen));

    assert_eq!(tokenizer.next_token().unwrap(), Some(Token::Symbol("N")));

    assert_eq!(tokenizer.next_token().unwrap(), Some(Token::Symbol("O")));

    assert_eq!(tokenizer.next_token().unwrap(), Some(Token::Number("3")));

    assert_eq!(tokenizer.next_token().unwrap(), Some(Token::RParen));

    assert_eq!(tokenizer.next_token().unwrap(), Some(Token::Number("2")));

    assert_eq!(tokenizer.next_token().unwrap(), Some(Token::Asterisk));

    assert_eq!(tokenizer.next_token().unwrap(), Some(Token::Number("2")));

    assert_eq!(tokenizer.next_token().unwrap(), Some(Token::Symbol("H")));

    assert_eq!(tokenizer.next_token().unwrap(), Some(Token::Number("2")));

    assert_eq!(tokenizer.next_token().unwrap(), Some(Token::Symbol("O")));

    assert_eq!(tokenizer.next_token().unwrap(), None);

    assert_eq!(tokenizer.next_token().unwrap(), None);
}

#[test]
fn tokenizer_cursor_follows_the_tokens() {
    let mut tokenizer = Tokenizer::new("Mg3(OH)");
    assert_eq!(tokenizer.cursor(), 0);
    tokenizer.next_token().unwrap();
    assert_eq!(tokenizer.cursor(), 2);
    tokenizer.next_token().unwrap();
    assert_eq!(tokenizer.cursor(), 3);
    tokenizer.next_token().unwrap();
    assert_eq!(tokenizer.cursor(), 4);
    tokenizer.next_token().unwrap();
    assert_eq!(tokenizer.cursor(), 5);
    tokenizer.next_token().unwrap();
    assert_eq!(tokenizer.cursor(), 6);
    tokenizer.next_token().unwrap();
    assert_eq!(tokenizer.cursor(), 7);
    assert_eq!(tokenizer.next_token().unwrap(), None);
    assert_eq!(tokenizer.cursor(), 7);
}

#[test]
fn tokenizer_symbol_is_the_longest_run() {
    let mut tokenizer = Tokenizer::new("CoCl2");
    assert_eq!(tokenizer.next_token().unwrap(), Some(Token::Symbol("Co")));
    assert_eq!(tokenizer.next_token().unwrap(), Some(Token::Symbol("Cl")));
    assert_eq!(tokenizer.next_token().unwrap(), Some(Token::Number("2")));
    assert_eq!(tokenizer.next_token().unwrap(), None);

    let mut tokenizer = Tokenizer::new("Uuo");
    assert_eq!(tokenizer.next_token().unwrap(), Some(Token::Symbol("Uuo")));
    assert_eq!(tokenizer.next_token().unwrap(), None);
}

#[test]
fn tokenizer_number_is_the_longest_run() {
    let mut tokenizer = Tokenizer::new("1050H");
    assert_eq!(tokenizer.next_token().unwrap(), Some(Token::Number("1050")));
    assert_eq!(tokenizer.next_token().unwrap(), Some(Token::Symbol("H")));
    assert_eq!(tokenizer.next_token().unwrap(), None);
}

#[test]
fn tokenizer_number_may_begin_with_zero() {
    let mut tokenizer = Tokenizer::new("05");
    assert_eq!(tokenizer.next_token().unwrap(), Some(Token::Number("05")));
    assert_eq!(tokenizer.cursor(), 2);
    assert_eq!(tokenizer.next_token().unwrap(), None);

    let mut tokenizer = Tokenizer::new("H0");
    assert_eq!(tokenizer.next_token().unwrap(), Some(Token::Symbol("H")));
    assert_eq!(tokenizer.next_token().unwrap(), Some(Token::Number("0")));
    assert_eq!(tokenizer.cursor(), 2);

    let mut tokenizer = Tokenizer::new("0123456789A");
    assert_eq!(
        tokenizer.next_token().unwrap(),
        Some(Token::Number("0123456789"))
    );
    assert_eq!(tokenizer.next_token().unwrap(), Some(Token::Symbol("A")));
}

#[test]
fn tokenizer_error_exactly_at_other_characters() {
    for code in 0u8..128 {
        let character = code as char;
        let text = character.to_string();
        let mut tokenizer = Tokenizer::new(&text);
        let begins_a_token = character.is_ascii_uppercase()
            || character.is_ascii_digit()
            || character == '('
            || character == ')'
            || character == '*';
        let result = tokenizer.next_token();
        if begins_a_token {
            assert!(matches!(result, Ok(Some(_))));
            assert_eq!(tokenizer.cursor(), 1);
        } else {
            assert_eq!(result, Err(Error::UnexpectedToken(text.clone(), 0)));
            assert_eq!(tokenizer.cursor(), 0);
        }
    }
}

#[test]
fn tokenizer_rejects_other_characters() {
    let mut tokenizer = Tokenizer::new("h");
    assert_eq!(
        tokenizer.next_token(),
        Err(Error::UnexpectedToken("h".to_string(), 0))
    );

    let mut tokenizer = Tokenizer::new("Na Cl");
    assert_eq!(tokenizer.next_token().unwrap(), Some(Token::Symbol("Na")));
    assert_eq!(
        tokenizer.next_token(),
        Err(Error::UnexpectedToken(" ".to_string(), 2))
    );
    assert_eq!(
        tokenizer.next_token(),
        Err(Error::UnexpectedToken(" ".to_string(), 2))
    );

    let mut tokenizer = Tokenizer::new("Fé");
    assert_eq!(tokenizer.next_token().unwrap(), Some(Token::Symbol("F")));
    assert_eq!(
        tokenizer.next_token(),
        Err(Error::UnexpectedToken("é".to_string(), 1))
    );
}

#[test]
fn tokenizer_empty_formula() {
    let mut tokenizer = Tokenizer::new("");
    assert_eq!(tokenizer.next_token().unwrap(), None);
    assert_eq!(tokenizer.cursor(), 0);
}

#[test]
fn token_value() {
    assert_eq!(Token::Symbol("Mg").value(), "Mg");
    assert_eq!(Token::Number("12").value(), "12");
    assert_eq!(Token::LParen.value(), "(");
    assert_eq!(Token::RParen.value(), ")");
    assert_eq!(Token::Asterisk.value(), "*");
}
