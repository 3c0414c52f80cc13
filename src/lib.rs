//! A small scripting-language runtime: a tokenizer, a single-pass compiler to a
//! register-oriented instruction stream, and a virtual machine that runs it.
use vstd::prelude::*;

pub mod bytecode;
pub mod value;
pub mod lexer;
pub mod parser;
pub mod vm;
pub mod soundness;
pub mod end_to_end;

use crate::parser::{compile, load, LoadError};
use crate::vm::{initial_machine, run_from, ExeState, RuntimeError};

verus! {

/// Why a program could not be compiled or run.
#[derive(Clone, Debug, PartialEq)]
pub enum Error {
    Load(LoadError),
    Runtime(RuntimeError),
}

/// Compiles `input` and runs it in a fresh state, appending what the program
/// writes to `output`. A program that fails to compile writes nothing; one
/// that fails while running keeps what it wrote before the failure.
pub fn lua(input: &[u8], output: &mut String) -> (r: Result<(), Error>)
    ensures
        match compile(input@) {
            Err(e) => (r matches Err(Error::Load(err)) && err@ == e) && final(output)@ == old(
                output,
            )@,
            Ok(p) => {
                let (m, err) = run_from(initial_machine(), p.constants, p.byte_codes, 0);
                &&& final(output)@ == old(output)@ + m.output
                &&& match err {
                    None => r is Ok,
                    Some(e) => r == Err::<(), Error>(Error::Runtime(e)),
                }
            },
        },
{
    let proto = match load(input) {
        Ok(p) => p,
        Err(e) => {
            return Err(Error::Load(e));
        },
    };
    let mut state = ExeState::new();
    let r = state.execute(&proto);
    output.append(state.output().as_str());
    match r {
        Ok(()) => Ok(()),
        Err(e) => Err(Error::Runtime(e)),
    }
}

} // verus!
