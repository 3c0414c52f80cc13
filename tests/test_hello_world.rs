use lua_interpreter::lexer::LexError;
use lua_interpreter::parser::{LoadError, ParseError};
use lua_interpreter::vm::RuntimeError;
use lua_interpreter::{lua, Error};

fn run(code: &str) -> (String, Result<(), Error>) {
    let mut output = String::new();
    let r = lua(code.as_bytes(), &mut output);
    (output, r)
}

#[test]
fn test_hello_world_test_hello_world() {
    assert_eq!(run("print \"hello world!\"\n"), ("hello world!\n".to_string(), Ok(())));
}

#[test]
fn test_print_integer() {
    assert_eq!(run("print(1)\n"), ("1\n".to_string(), Ok(())));
}

#[test]
fn test_print_bool() {
    assert_eq!(run("print(true)\n"), ("true\n".to_string(), Ok(())));
}

#[test]
fn test_print_nil() {
    assert_eq!(run("print(nil)\n"), ("nil\n".to_string(), Ok(())));
}

#[test]
fn test_print_local_variable() {
    assert_eq!(run("local a = 1\nprint(a)"), ("1\n".to_string(), Ok(())));
}

#[test]
fn print_float_round_trip() {
    assert_eq!(run("print(1.5)"), ("1.5\n".to_string(), Ok(())));
}

#[test]
fn lua_compile_error_writes_nothing() {
    assert_eq!(
        run("print(1)\nprint(b)"),
        (
            String::new(),
            Err(Error::Load(LoadError::Parse(ParseError::UnresolvedName("b".to_string()))))
        )
    );
    assert_eq!(
        run("print(1) !"),
        (String::new(), Err(Error::Load(LoadError::Lex(LexError::UnexpectedChar(b'!')))))
    );
}

#[test]
fn lua_runtime_error_keeps_output() {
    assert_eq!(
        run("print(1)\nmissing(2)\nprint(3)"),
        ("1\n".to_string(), Err(Error::Runtime(RuntimeError::NotAFunction(0))))
    );
}

#[test]
fn lua_appends_to_output() {
    let mut output = "> ".to_string();
    assert_eq!(lua(b"print(\"a\")", &mut output), Ok(()));
    assert_eq!(output, "> a\n");
}
