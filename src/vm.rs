use vstd::prelude::*;

use crate::bytecode::ByteCode;
use crate::parser::ParseProto;
use crate::value::{push_char, text_of, values_view, NativeFunction, Value, ValueView};

verus! {

/// Why a program stopped.
#[derive(Clone, Copy, Debug, PartialEq, Eq, Structural)]
pub enum RuntimeError {
    /// A read of a register that was never written, or a write past the
    /// first free register.
    RegisterOutOfBounds(usize),
    /// A constant index past the end of the pool.
    ConstantOutOfBounds(u8),
    /// A global lookup through a constant that is not a string.
    InvalidGlobalKey(u8),
    /// A call of a register that holds no function.
    NotAFunction(u8),
    /// A native function called without the argument it reads.
    MissingArgument,
}

/// The mathematical model of an [`ExeState`].
pub struct MachineView {
    pub globals: Seq<(Seq<char>, ValueView)>,
    pub stack: Seq<ValueView>,
    pub output: Seq<char>,
    pub func_index: int,
}

/// The value bound to `key` from index `i` of the globals on, nil when none is.
pub open spec fn lookup_from(globals: Seq<(Seq<char>, ValueView)>, key: Seq<char>, i: int) -> ValueView
    decreases globals.len() - i,
{
    if 0 <= i < globals.len() {
        if globals[i].0 == key {
            globals[i].1
        } else {
            lookup_from(globals, key, i + 1)
        }
    } else {
        ValueView::Nil
    }
}

pub open spec fn lookup(globals: Seq<(Seq<char>, ValueView)>, key: Seq<char>) -> ValueView {
    lookup_from(globals, key, 0)
}

/// Writes `v` into register `dst`: in place below the top of the stack,
/// pushed at the top, refused above it.
pub open spec fn write(m: MachineView, dst: u8, v: ValueView) -> Result<MachineView, RuntimeError> {
    if (dst as int) < m.stack.len() {
        Ok(MachineView { stack: m.stack.update(dst as int, v), ..m })
    } else if dst as int == m.stack.len() {
        Ok(MachineView { stack: m.stack.push(v), ..m })
    } else {
        Err(RuntimeError::RegisterOutOfBounds(dst as usize))
    }
}

/// Runs a native function whose call base is `m.func_index`.
pub open spec fn call_native(m: MachineView, f: NativeFunction) -> Result<MachineView, RuntimeError> {
    match f {
        NativeFunction::Print => {
            let a = m.func_index + 1;
            if a < m.stack.len() {
                Ok(MachineView { output: m.output + text_of(m.stack[a]) + seq!['\n'], ..m })
            } else {
                Err(RuntimeError::MissingArgument)
            }
        },
    }
}

/// The effect of one instruction.
pub open spec fn step(m: MachineView, consts: Seq<ValueView>, b: ByteCode) -> Result<
    MachineView,
    RuntimeError,
> {
    match b {
        ByteCode::GetGlobal(dst, k) => if (k as int) < consts.len() {
            match consts[k as int] {
                ValueView::String(key) => write(m, dst, lookup(m.globals, key)),
                _ => Err(RuntimeError::InvalidGlobalKey(k)),
            }
        } else {
            Err(RuntimeError::ConstantOutOfBounds(k))
        },
        ByteCode::LoadConst(dst, k) => if (k as int) < consts.len() {
            write(m, dst, consts[k as int])
        } else {
            Err(RuntimeError::ConstantOutOfBounds(k))
        },
        ByteCode::Call(f, _) => if (f as int) < m.stack.len() {
            match m.stack[f as int] {
                ValueView::Function(nf) => call_native(MachineView { func_index: f as int, ..m }, nf),
                _ => Err(RuntimeError::NotAFunction(f)),
            }
        } else {
            Err(RuntimeError::RegisterOutOfBounds(f as usize))
        },
        ByteCode::LoadBool(dst, v) => write(m, dst, ValueView::Boolean(v)),
        ByteCode::LoadNil(dst) => write(m, dst, ValueView::Nil),
        ByteCode::LoadInteger(dst, v) => write(m, dst, ValueView::Integer(v as i64)),
        ByteCode::Move(dst, src) => if (src as int) < m.stack.len() {
            write(m, dst, m.stack[src as int])
        } else {
            Err(RuntimeError::RegisterOutOfBounds(src as usize))
        },
    }
}

/// Runs the instructions from index `i` on: the machine where it stopped, and
/// the error that stopped it, if one did.
pub open spec fn run_from(m: MachineView, consts: Seq<ValueView>, code: Seq<ByteCode>, i: int) -> (
    MachineView,
    Option<RuntimeError>,
)
    decreases code.len() - i,
{
    if 0 <= i < code.len() {
        match step(m, consts, code[i]) {
            Ok(m2) => run_from(m2, consts, code, i + 1),
            Err(e) => (m, Some(e)),
        }
    } else {
        (m, None)
    }
}

/// Whether two machines agree but for the call base.
pub open spec fn agree(a: MachineView, b: MachineView) -> bool {
    a.globals == b.globals && a.stack == b.stack && a.output == b.output
}

/// The machine before a run: `print` bound, no register written, no output.
pub open spec fn initial_machine() -> MachineView {
    MachineView {
        globals: seq![("print"@, ValueView::Function(NativeFunction::Print))],
        stack: seq![],
        output: seq![],
        func_index: 0,
    }
}

pub open spec fn globals_view(g: Seq<(String, Value)>) -> Seq<(Seq<char>, ValueView)> {
    g.map_values(|e: (String, Value)| (e.0@, e.1@))
}

/// The execution state of one run: the globals, the register stack, the
/// text written so far, and the base register of the active call.
pub struct ExeState {
    globals: Vec<(String, Value)>,
    stack: Vec<Value>,
    output: String,
    func_index: usize,
}

impl View for ExeState {
    type V = MachineView;

    closed spec fn view(&self) -> MachineView {
        MachineView {
            globals: globals_view(self.globals@),
            stack: values_view(self.stack@),
            output: self.output@,
            func_index: self.func_index as int,
        }
    }
}

impl ExeState {
    /// A fresh state with the builtin `print` bound.
    pub fn new() -> (r: Self)
        ensures
            r@ == initial_machine(),
    {
        let mut globals: Vec<(String, Value)> = Vec::new();
        globals.push((String::from_str("print"), Value::Function(NativeFunction::Print)));
        let r = ExeState { globals, stack: Vec::new(), output: String::new(), func_index: 0 };
        proof {
            assert(r@.globals =~= initial_machine().globals);
            assert(r@.stack =~= initial_machine().stack);
        }
        r
    }

    /// The text written by the program so far.
    pub fn output(&self) -> (r: &String)
        ensures
            r@ == self@.output,
    {
        &self.output
    }

    fn set_stack(&mut self, dst: u8, c: Value) -> (r: Result<(), RuntimeError>)
        ensures
            match write(old(self)@, dst, c@) {
                Ok(m) => r is Ok && final(self)@ == m,
                Err(e) => r == Err::<(), RuntimeError>(e) && final(self)@ == old(self)@,
            },
    {
        let d = dst as usize;
        if d < self.stack.len() {
            let ghost before = self.stack@;
            self.stack.set(d, c);
            proof {
                assert(values_view(self.stack@) =~= values_view(before).update(d as int, c@));
            }
            Ok(())
        } else if d == self.stack.len() {
            let ghost before = self.stack@;
            self.stack.push(c);
            proof {
                assert(values_view(self.stack@) =~= values_view(before).push(c@));
            }
            Ok(())
        } else {
            Err(RuntimeError::RegisterOutOfBounds(d))
        }
    }

    fn get_stack(&self, src: u8) -> (r: Result<Value, RuntimeError>)
        ensures
            (src as int) < self@.stack.len() ==> (r matches Ok(v) && v@ == self@.stack[src as int]),
            (src as int) >= self@.stack.len() ==> r == Err::<Value, RuntimeError>(
                RuntimeError::RegisterOutOfBounds(src as usize),
            ),
    {
        let s = src as usize;
        if s < self.stack.len() {
            Ok(self.stack[s].duplicate())
        } else {
            Err(RuntimeError::RegisterOutOfBounds(s))
        }
    }

    /// The value bound to global `key`, nil when there is none.
    fn get_global(&self, key: &String) -> (r: Value)
        ensures
            r@ == lookup(self@.globals, key@),
    {
        let ghost g = self@.globals;
        let mut i: usize = 0;
        while i < self.globals.len()
            invariant
                i <= self.globals@.len(),
                g == globals_view(self.globals@),
                lookup(g, key@) == lookup_from(g, key@, i as int),
            decreases self.globals@.len() - i,
        {
            if self.globals[i].0 == *key {
                return self.globals[i].1.duplicate();
            }
            i = i + 1;
        }
        Value::Nil
    }

    /// Runs the native function `f`, whose call base has been recorded.
    fn call_function(&mut self, f: NativeFunction) -> (r: Result<i32, RuntimeError>)
        ensures
            match call_native(old(self)@, f) {
                Ok(m) => r == Ok::<i32, RuntimeError>(0) && final(self)@ == m,
                Err(e) => r == Err::<i32, RuntimeError>(e) && final(self)@ == old(self)@,
            },
    {
        match f {
            NativeFunction::Print => lib_print(self),
        }
    }

    /// Runs one instruction against the constant pool `constants`.
    fn step(&mut self, constants: &Vec<Value>, code: ByteCode) -> (r: Result<(), RuntimeError>)
        ensures
            match step(old(self)@, values_view(constants@), code) {
                Ok(m) => r is Ok && final(self)@ == m,
                Err(e) => r == Err::<(), RuntimeError>(e) && agree(final(self)@, old(self)@),
            },
    {
        match code {
            ByteCode::GetGlobal(dst, name) => {
                if (name as usize) < constants.len() {
                    match &constants[name as usize] {
                        Value::String(key) => {
                            let v = self.get_global(key);
                            self.set_stack(dst, v)
                        },
                        _ => Err(RuntimeError::InvalidGlobalKey(name)),
                    }
                } else {
                    Err(RuntimeError::ConstantOutOfBounds(name))
                }
            },
            ByteCode::LoadConst(dst, c) => {
                if (c as usize) < constants.len() {
                    let v = constants[c as usize].duplicate();
                    self.set_stack(dst, v)
                } else {
                    Err(RuntimeError::ConstantOutOfBounds(c))
                }
            },
            ByteCode::Call(func, _) => {
                let f = func as usize;
                if f < self.stack.len() {
                    match &self.stack[f] {
                        Value::Function(nf) => {
                            let nf = *nf;
                            self.func_index = f;
                            match self.call_function(nf) {
                                Ok(_) => Ok(()),
                                Err(e) => Err(e),
                            }
                        },
                        _ => Err(RuntimeError::NotAFunction(func)),
                    }
                } else {
                    Err(RuntimeError::RegisterOutOfBounds(f))
                }
            },
            ByteCode::LoadNil(dst) => self.set_stack(dst, Value::Nil),
            ByteCode::LoadBool(dst, v) => self.set_stack(dst, Value::Boolean(v)),
            ByteCode::LoadInteger(dst, v) => self.set_stack(dst, Value::Integer(v as i64)),
            ByteCode::Move(dst, src) => match self.get_stack(src) {
                Ok(v) => self.set_stack(dst, v),
                Err(e) => Err(e),
            },
        }
    }

    /// Runs every instruction of `proto` in order, stopping at the first
    /// error. On an error the state is the one where the run stopped, its
    /// call base aside.
    pub fn execute(&mut self, proto: &ParseProto) -> (r: Result<(), RuntimeError>)
        ensures
            ({
                let (m, err) = run_from(old(self)@, proto@.constants, proto@.byte_codes, 0);
                match err {
                    None => r is Ok && final(self)@ == m,
                    Some(e) => r == Err::<(), RuntimeError>(e) && agree(final(self)@, m),
                }
            }),
    {
        let mut i: usize = 0;
        while i < proto.byte_codes.len()
            invariant
                i <= proto.byte_codes@.len(),
                run_from(old(self)@, proto@.constants, proto@.byte_codes, 0) == run_from(
                    self@,
                    proto@.constants,
                    proto@.byte_codes,
                    i as int,
                ),
            decreases proto.byte_codes@.len() - i,
        {
            let code = proto.byte_codes[i];
            match self.step(&proto.constants, code) {
                Ok(()) => {},
                Err(e) => {
                    return Err(e);
                },
            }
            i = i + 1;
        }
        Ok(())
    }
}

/// The builtin `print`: writes the canonical text of the value just above
/// the call base, then a newline.
fn lib_print(state: &mut ExeState) -> (r: Result<i32, RuntimeError>)
    ensures
        match call_native(old(state)@, NativeFunction::Print) {
            Ok(m) => r == Ok::<i32, RuntimeError>(0) && final(state)@ == m,
            Err(e) => r == Err::<i32, RuntimeError>(e) && final(state)@ == old(state)@,
        },
{
    if state.stack.len() == 0 || state.func_index >= state.stack.len() - 1 {
        return Err(RuntimeError::MissingArgument);
    }
    let text = state.stack[state.func_index + 1].render();
    let ghost before = state.output@;
    state.output.append(text.as_str());
    push_char(&mut state.output, '\n');
    proof {
        assert(state.output@ =~= before + text_of(old(state)@.stack[old(state).func_index + 1])
            + seq!['\n']);
    }
    Ok(0)
}

pub proof fn lemma_lookup_absent(globals: Seq<(Seq<char>, ValueView)>, key: Seq<char>, i: int)
    requires
        0 <= i,
        forall|k: int| 0 <= k < globals.len() ==> (#[trigger] globals[k]).0 != key,
    ensures
        lookup_from(globals, key, i) == ValueView::Nil,
    decreases globals.len() - i,
{
    if i < globals.len() {
        lemma_lookup_absent(globals, key, i + 1);
    }
}

/// A global that nothing binds reads as nil: `GetGlobal` of its name writes
/// nil into its register and does not fail.
pub proof fn lemma_unbound_global(
    m: MachineView,
    consts: Seq<ValueView>,
    dst: u8,
    k: u8,
    key: Seq<char>,
)
    requires
        (k as int) < consts.len(),
        consts[k as int] == ValueView::String(key),
        forall|i: int| 0 <= i < m.globals.len() ==> (#[trigger] m.globals[i]).0 != key,
        (dst as int) <= m.stack.len(),
    ensures
        step(m, consts, ByteCode::GetGlobal(dst, k)) matches Ok(m2) && m2.stack[dst as int]
            == ValueView::Nil && m2.output == m.output && m2.globals == m.globals,
{
    lemma_lookup_absent(m.globals, key, 0);
}

} // verus!
