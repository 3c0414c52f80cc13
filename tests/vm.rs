use lua_interpreter::bytecode::ByteCode;
use lua_interpreter::parser::{load, ParseProto};
use lua_interpreter::value::{NativeFunction, Value};
use lua_interpreter::vm::{ExeState, RuntimeError};

fn run_source(code: &str) -> String {
    let proto = load(code.as_bytes()).unwrap();
    let mut vm = ExeState::new();
    vm.execute(&proto).unwrap();
    vm.output().clone()
}

#[test]
fn vm_test_hello_world() {
    assert_eq!(run_source("print \"hello world!\"\n"), "hello world!\n");
}

#[test]
fn test_print_small_integer() {
    assert_eq!(run_source("print(1)"), "1\n");
}

#[test]
fn vm_parse_print_large_integer() {
    assert_eq!(run_source("print(33000)"), "33000\n");
}

#[test]
fn vm_parse_print_float() {
    assert_eq!(run_source("print(1.5)"), "1.5\n");
}

#[test]
fn assign_local_variable_then_print() {
    assert_eq!(run_source("local a = 1\nprint(a)"), "1\n");
}

#[test]
fn print_several_values() {
    assert_eq!(
        run_source("print(false) print(\"s\") print(9223372036854775807) print(2.50)"),
        "false\ns\n9223372036854775807\n2.5\n"
    );
}

#[test]
fn locals_survive_calls() {
    assert_eq!(
        run_source("local a = 7 local b = 40000 print(b) print(a) print(b)"),
        "40000\n7\n40000\n"
    );
}

#[test]
fn unbound_global_reads_nil_then_call_fails() {
    let proto = load(b"nothing(1)").unwrap();
    let mut vm = ExeState::new();
    assert_eq!(vm.execute(&proto), Err(RuntimeError::NotAFunction(0)));
    assert_eq!(vm.output(), "");
}

#[test]
fn output_before_failure_is_kept() {
    let proto = load(b"print(1) nothing(2)").unwrap();
    let mut vm = ExeState::new();
    assert_eq!(vm.execute(&proto), Err(RuntimeError::NotAFunction(0)));
    assert_eq!(vm.output(), "1\n");
}

#[test]
fn print_function_value() {
    let proto = ParseProto {
        constants: vec![Value::String("print".to_string())],
        byte_codes: vec![
            ByteCode::GetGlobal(0, 0),
            ByteCode::Move(1, 0),
            ByteCode::Call(0, 1),
        ],
    };
    let mut vm = ExeState::new();
    assert_eq!(vm.execute(&proto), Ok(()));
    assert_eq!(vm.output(), "function\n");
}

#[test]
fn write_past_top_is_refused() {
    let proto = ParseProto { constants: vec![], byte_codes: vec![ByteCode::LoadNil(1)] };
    let mut vm = ExeState::new();
    assert_eq!(vm.execute(&proto), Err(RuntimeError::RegisterOutOfBounds(1)));
}

#[test]
fn read_of_unwritten_register_is_refused() {
    let proto = ParseProto { constants: vec![], byte_codes: vec![ByteCode::Move(0, 3)] };
    let mut vm = ExeState::new();
    assert_eq!(vm.execute(&proto), Err(RuntimeError::RegisterOutOfBounds(3)));
}

#[test]
fn global_key_must_be_string() {
    let proto = ParseProto {
        constants: vec![Value::Integer(1)],
        byte_codes: vec![ByteCode::GetGlobal(0, 0)],
    };
    let mut vm = ExeState::new();
    assert_eq!(vm.execute(&proto), Err(RuntimeError::InvalidGlobalKey(0)));
}

#[test]
fn constant_index_must_be_in_pool() {
    let proto = ParseProto { constants: vec![], byte_codes: vec![ByteCode::LoadConst(0, 2)] };
    let mut vm = ExeState::new();
    assert_eq!(vm.execute(&proto), Err(RuntimeError::ConstantOutOfBounds(2)));
}

#[test]
fn print_without_argument() {
    let proto = ParseProto {
        constants: vec![Value::String("print".to_string())],
        byte_codes: vec![ByteCode::GetGlobal(0, 0), ByteCode::Call(0, 0)],
    };
    let mut vm = ExeState::new();
    assert_eq!(vm.execute(&proto), Err(RuntimeError::MissingArgument));
}

#[test]
fn call_of_non_function() {
    let proto = ParseProto {
        constants: vec![],
        byte_codes: vec![ByteCode::LoadInteger(0, 3), ByteCode::LoadNil(1), ByteCode::Call(0, 1)],
    };
    let mut vm = ExeState::new();
    assert_eq!(vm.execute(&proto), Err(RuntimeError::NotAFunction(0)));
}

#[test]
fn value_rendering() {
    assert_eq!(Value::Integer(-42).render(), "-42");
    assert_eq!(Value::Integer(i64::MIN).render(), "-9223372036854775808");
    assert_eq!(Value::Integer(0).render(), "0");
    assert_eq!(Value::Nil.render(), "nil");
    assert_eq!(Value::Boolean(true).render(), "true");
    assert_eq!(Value::Function(NativeFunction::Print).render(), "function");
    assert_eq!(Value::String("x y".to_string()).render(), "x y");
}

#[test]
fn value_equality() {
    assert_eq!(Value::Integer(3), Value::Integer(3));
    assert_ne!(Value::Integer(3), Value::Float("3.0".to_string()));
    assert_ne!(Value::String("a".to_string()), Value::String("b".to_string()));
    assert_eq!(
        Value::Function(NativeFunction::Print),
        Value::Function(NativeFunction::Print)
    );
    assert_eq!(Value::Nil, Value::Nil);
}
