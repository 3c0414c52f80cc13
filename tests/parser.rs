use lua_interpreter::bytecode::ByteCode;
use lua_interpreter::lexer::{LexError, Token};
use lua_interpreter::parser::{load, LoadError, ParseError};
use lua_interpreter::value::Value;

#[test]
fn parse_print_hello_world() {
    let proto = load(b"print \"hello world!\"\n").unwrap();
    assert_eq!(
        proto.constants,
        vec![
            Value::String("print".to_string()),
            Value::String("hello world!".to_string())
        ]
    );
}

#[test]
fn parser_parse_print_large_integer() {
    let proto = load(b"print(33000)").unwrap();
    assert_eq!(
        proto.constants,
        vec![Value::String("print".to_string()), Value::Integer(33000)]
    );
}

#[test]
fn parse_print_small_integer() {
    let proto = load(b"print(1)").unwrap();
    assert_eq!(
        proto.byte_codes,
        vec![
            ByteCode::GetGlobal(0, 0),
            ByteCode::LoadInteger(1, 1_i16),
            ByteCode::Call(0, 1)
        ]
    );
}

#[test]
fn parser_parse_print_float() {
    let proto = load(b"print(1.5)").unwrap();
    assert_eq!(
        proto.constants,
        vec![Value::String("print".to_string()), Value::Float("1.5".to_string())]
    );
    match &proto.constants[1] {
        Value::Float(text) => assert_eq!(text.parse::<f64>().unwrap(), 1.5),
        other => panic!("expected a float, got {:?}", other),
    }
}

#[test]
fn multiple_constants_stored_only_once() {
    let proto = load(b"print(1.5)\nprint(1.5)").unwrap();
    assert_eq!(
        proto.constants,
        vec![Value::String("print".to_string()), Value::Float("1.5".to_string())]
    );
}

#[test]
fn assign_variable() {
    let proto = load(b"local a = 1\nprint(a)").unwrap();
    assert_eq!(
        proto.byte_codes,
        vec![
            ByteCode::LoadInteger(0, 1),
            ByteCode::GetGlobal(1, 0),
            ByteCode::Move(2, 0),
            ByteCode::Call(1, 1)
        ]
    );
}

#[test]
fn integer_range_edges() {
    let proto = load(b"print(32767)\nprint(32768)\nprint(0)").unwrap();
    assert_eq!(
        proto.byte_codes,
        vec![
            ByteCode::GetGlobal(0, 0),
            ByteCode::LoadInteger(1, 32767),
            ByteCode::Call(0, 1),
            ByteCode::GetGlobal(0, 0),
            ByteCode::LoadConst(1, 1),
            ByteCode::Call(0, 1),
            ByteCode::GetGlobal(0, 0),
            ByteCode::LoadInteger(1, 0),
            ByteCode::Call(0, 1),
        ]
    );
    assert_eq!(
        proto.constants,
        vec![Value::String("print".to_string()), Value::Integer(32768)]
    );
}

#[test]
fn repeated_literal_shares_one_index() {
    let proto = load(b"print(40000) print \"x\" print(40000) print \"x\"").unwrap();
    assert_eq!(
        proto.constants,
        vec![
            Value::String("print".to_string()),
            Value::Integer(40000),
            Value::String("x".to_string())
        ]
    );
    assert_eq!(proto.byte_codes[1], ByteCode::LoadConst(1, 1));
    assert_eq!(proto.byte_codes[7], ByteCode::LoadConst(1, 1));
    assert_eq!(proto.byte_codes[4], ByteCode::LoadConst(1, 2));
    assert_eq!(proto.byte_codes[10], ByteCode::LoadConst(1, 2));
}

#[test]
fn large_local_goes_to_pool() {
    let proto = load(b"local big = 70000").unwrap();
    assert_eq!(proto.byte_codes, vec![ByteCode::LoadConst(0, 0)]);
    assert_eq!(proto.constants, vec![Value::Integer(70000)]);
}

#[test]
fn shadowed_local_resolves_to_latest() {
    let proto = load(b"local a = 1 local b = 2 local a = 3 print(a) print(b)").unwrap();
    assert_eq!(
        proto.byte_codes,
        vec![
            ByteCode::LoadInteger(0, 1),
            ByteCode::LoadInteger(1, 2),
            ByteCode::LoadInteger(2, 3),
            ByteCode::GetGlobal(3, 0),
            ByteCode::Move(4, 2),
            ByteCode::Call(3, 1),
            ByteCode::GetGlobal(3, 0),
            ByteCode::Move(4, 1),
            ByteCode::Call(3, 1),
        ]
    );
}

#[test]
fn literal_arguments() {
    let proto = load(b"f(nil) f(true) f(false) f(\"s\")").unwrap();
    assert_eq!(
        proto.byte_codes,
        vec![
            ByteCode::GetGlobal(0, 0),
            ByteCode::LoadNil(1),
            ByteCode::Call(0, 1),
            ByteCode::GetGlobal(0, 0),
            ByteCode::LoadBool(1, true),
            ByteCode::Call(0, 1),
            ByteCode::GetGlobal(0, 0),
            ByteCode::LoadBool(1, false),
            ByteCode::Call(0, 1),
            ByteCode::GetGlobal(0, 0),
            ByteCode::LoadConst(1, 1),
            ByteCode::Call(0, 1),
        ]
    );
}

#[test]
fn empty_program() {
    let proto = load(b"").unwrap();
    assert!(proto.constants.is_empty());
    assert!(proto.byte_codes.is_empty());
}

#[test]
fn undeclared_argument_is_parse_error() {
    assert_eq!(
        load(b"print(a)").unwrap_err(),
        LoadError::Parse(ParseError::UnresolvedName("a".to_string()))
    );
}

#[test]
fn unexpected_statement_start() {
    assert_eq!(
        load(b"print(1) 5").unwrap_err(),
        LoadError::Parse(ParseError::UnexpectedToken(Token::Integer(5)))
    );
}

#[test]
fn missing_closing_paren() {
    assert_eq!(
        load(b"print(1").unwrap_err(),
        LoadError::Parse(ParseError::UnexpectedToken(Token::Eos))
    );
}

#[test]
fn local_needs_integer() {
    assert_eq!(
        load(b"local a = \"s\"").unwrap_err(),
        LoadError::Parse(ParseError::UnexpectedToken(Token::String("s".to_string())))
    );
    assert_eq!(
        load(b"local = 1").unwrap_err(),
        LoadError::Parse(ParseError::UnexpectedToken(Token::Assign))
    );
}

#[test]
fn lex_error_surfaces() {
    assert_eq!(
        load(b"print(1) $").unwrap_err(),
        LoadError::Lex(LexError::UnexpectedChar(b'$'))
    );
}

#[test]
fn too_many_constants() {
    let mut src = String::new();
    for i in 0..256 {
        src.push_str(&format!("f{} \"\"\n", i));
    }
    let err = load(src.as_bytes()).unwrap_err();
    assert_eq!(err, LoadError::Parse(ParseError::TooManyConstants));
    let mut ok = String::new();
    for i in 0..255 {
        ok.push_str(&format!("f{} \"\"\n", i));
    }
    assert_eq!(load(ok.as_bytes()).unwrap().constants.len(), 256);
}

#[test]
fn too_many_registers() {
    let mut src = String::new();
    for i in 0..255 {
        src.push_str(&format!("local v{} = 1\n", i));
    }
    assert!(load(src.as_bytes()).is_ok());
    src.push_str("print(v0)\n");
    assert_eq!(
        load(src.as_bytes()).unwrap_err(),
        LoadError::Parse(ParseError::TooManyRegisters)
    );
}
