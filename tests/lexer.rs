use lua_interpreter::lexer::{LexError, Lexer, Token};

#[test]
fn test_print_hello_world() {
    let code = "print \"hello world!\"".to_string();
    let mut lexer = Lexer::new(code.as_bytes());
    assert_eq!(lexer.next(), Ok(Token::Name("print".to_string())));
    assert_eq!(lexer.next(), Ok(Token::String("hello world!".to_string())));
    assert_eq!(lexer.next(), Ok(Token::Eos));
}

#[test]
fn test_parse_strings() {
    let code = "\"<< >>\"".to_string();
    let mut lexer = Lexer::new(code.as_bytes());
    assert_eq!(lexer.next(), Ok(Token::String("<< >>".to_string())));
}

#[test]
fn test_parse_integer() {
    let code = "local a = 0".to_string();
    let mut lexer = Lexer::new(code.as_bytes());
    assert_eq!(lexer.next(), Ok(Token::Local));
    assert_eq!(lexer.next(), Ok(Token::Name("a".to_string())));
    assert_eq!(lexer.next(), Ok(Token::Assign));
    assert_eq!(lexer.next(), Ok(Token::Integer(0)));
}

#[test]
fn test_parse_float() {
    let code = "local a = 0.5".to_string();
    let mut lexer = Lexer::new(code.as_bytes());
    assert_eq!(lexer.next(), Ok(Token::Local));
    assert_eq!(lexer.next(), Ok(Token::Name("a".to_string())));
    assert_eq!(lexer.next(), Ok(Token::Assign));
    match lexer.next() {
        Ok(Token::Float(text)) => {
            assert_eq!(text.parse::<f64>().unwrap(), 0.5);
            assert_eq!(text, "0.5");
        }
        other => panic!("expected a float, got {:?}", other),
    }
}

#[test]
fn test_parse_dots() {
    let code = ". .. ...".to_string();
    let mut lexer = Lexer::new(code.as_bytes());
    assert_eq!(lexer.next(), Ok(Token::Dot));
    assert_eq!(lexer.next(), Ok(Token::Concat));
    assert_eq!(lexer.next(), Ok(Token::Dots));
}

#[test]
fn test_parse_shifts() {
    let code = "<< >> < >".to_string();
    let mut lexer = Lexer::new(code.as_bytes());
    assert_eq!(lexer.next(), Ok(Token::ShiftL));
    assert_eq!(lexer.next(), Ok(Token::ShiftR));
    assert_eq!(lexer.next(), Ok(Token::Less));
    assert_eq!(lexer.next(), Ok(Token::Greater));
}

#[test]
fn test_parse_addition() {
    let code = "5+5".to_string();
    let mut lexer = Lexer::new(code.as_bytes());
    assert_eq!(lexer.next(), Ok(Token::Integer(5)));
    assert_eq!(lexer.next(), Ok(Token::Add));
    assert_eq!(lexer.next(), Ok(Token::Integer(5)));
}

#[test]
fn lex_longest_operators() {
    let mut lexer = Lexer::new(b"<= >= // / == = ~= ~ :: : <<=");
    let expected = vec![
        Token::LesEq,
        Token::GreEq,
        Token::Idiv,
        Token::Div,
        Token::Equal,
        Token::Assign,
        Token::NotEq,
        Token::BitXor,
        Token::DoubColon,
        Token::Colon,
        Token::ShiftL,
        Token::Assign,
        Token::Eos,
    ];
    for t in expected {
        assert_eq!(lexer.next(), Ok(t));
    }
}

#[test]
fn lex_operator_does_not_swallow_next_byte() {
    let mut lexer = Lexer::new(b"<<x");
    assert_eq!(lexer.next(), Ok(Token::ShiftL));
    assert_eq!(lexer.next(), Ok(Token::Name("x".to_string())));
}

#[test]
fn lex_keywords_and_names() {
    let mut lexer = Lexer::new(b"while whilex _a1 nil true false");
    assert_eq!(lexer.next(), Ok(Token::While));
    assert_eq!(lexer.next(), Ok(Token::Name("whilex".to_string())));
    assert_eq!(lexer.next(), Ok(Token::Name("_a1".to_string())));
    assert_eq!(lexer.next(), Ok(Token::Nil));
    assert_eq!(lexer.next(), Ok(Token::True));
    assert_eq!(lexer.next(), Ok(Token::False));
}

#[test]
fn lex_name_ends_at_punctuation() {
    let mut lexer = Lexer::new(b"print(1)");
    assert_eq!(lexer.next(), Ok(Token::Name("print".to_string())));
    assert_eq!(lexer.next(), Ok(Token::ParL));
    assert_eq!(lexer.next(), Ok(Token::Integer(1)));
    assert_eq!(lexer.next(), Ok(Token::ParR));
    assert_eq!(lexer.next(), Ok(Token::Eos));
}

#[test]
fn lex_eos_repeats() {
    let mut lexer = Lexer::new(b"  \t\r\n");
    assert_eq!(lexer.next(), Ok(Token::Eos));
    assert_eq!(lexer.next(), Ok(Token::Eos));
    let mut empty = Lexer::new(b"");
    assert_eq!(empty.next(), Ok(Token::Eos));
    assert_eq!(empty.next(), Ok(Token::Eos));
}

#[test]
fn lex_float_canonical_text() {
    let mut lexer = Lexer::new(b"007.50 1. 0.000 12.25");
    assert_eq!(lexer.next(), Ok(Token::Float("7.5".to_string())));
    assert_eq!(lexer.next(), Ok(Token::Float("1.0".to_string())));
    assert_eq!(lexer.next(), Ok(Token::Float("0.0".to_string())));
    assert_eq!(lexer.next(), Ok(Token::Float("12.25".to_string())));
}

#[test]
fn lex_largest_integer() {
    let mut lexer = Lexer::new(b"9223372036854775807");
    assert_eq!(lexer.next(), Ok(Token::Integer(i64::MAX)));
}

#[test]
fn lex_integer_overflow_is_malformed() {
    let mut lexer = Lexer::new(b"9223372036854775808");
    assert_eq!(lexer.next(), Err(LexError::MalformedNumber));
}

#[test]
fn lex_two_dots_is_malformed() {
    let mut lexer = Lexer::new(b"1.2.3");
    assert_eq!(lexer.next(), Err(LexError::MalformedNumber));
}

#[test]
fn lex_unexpected_char() {
    let mut lexer = Lexer::new(b"a @");
    assert_eq!(lexer.next(), Ok(Token::Name("a".to_string())));
    assert_eq!(lexer.next(), Err(LexError::UnexpectedChar(b'@')));
}

#[test]
fn lex_nul_byte_is_unexpected() {
    let mut lexer = Lexer::new(b"\0");
    assert_eq!(lexer.next(), Err(LexError::UnexpectedChar(0)));
}

#[test]
fn lex_unterminated_string() {
    let mut lexer = Lexer::new(b"\"abc");
    assert_eq!(lexer.next(), Err(LexError::UnterminatedString));
}

#[test]
fn lex_string_keeps_control_bytes() {
    let mut lexer = Lexer::new(b"\"a\tb\nc\"");
    assert_eq!(lexer.next(), Ok(Token::String("a\tb\nc".to_string())));
}

#[test]
fn lex_read_char_and_match_pattern() {
    let mut lexer = Lexer::new(b"<=x");
    assert_eq!(lexer.read_char(), Some(b'<'));
    assert!(!lexer.match_pattern(b'<', b"<<"));
    assert!(lexer.match_pattern(b'<', b"<="));
    assert_eq!(lexer.read_char(), Some(b'x'));
    assert_eq!(lexer.read_char(), None);
}
