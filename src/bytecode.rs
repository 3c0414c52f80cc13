use vstd::prelude::*;

verus! {

/// One instruction of the virtual machine. Register operands are `u8`
/// indices into the register stack; constant operands are `u8` indices into
/// the program's constant pool.
#[derive(Clone, Copy, Debug, PartialEq, Eq, Structural)]
pub enum ByteCode {
    /// `GetGlobal(dst, name)`: look the string constant `name` up in the
    /// globals and write the result (nil when absent) into register `dst`.
    GetGlobal(u8, u8),
    /// `LoadConst(dst, idx)`: copy constant `idx` into register `dst`.
    LoadConst(u8, u8),
    /// `Call(func, argc)`: call the native function held in register `func`;
    /// its arguments sit in the registers just above it.
    Call(u8, u8),
    /// `LoadBool(dst, b)`: write a boolean into register `dst`.
    LoadBool(u8, bool),
    /// `LoadNil(dst)`: write nil into register `dst`.
    LoadNil(u8),
    /// `LoadInteger(dst, v)`: write a small integer, held in the instruction
    /// itself, into register `dst`.
    LoadInteger(u8, i16),
    /// `Move(dst, src)`: copy register `src` into register `dst`.
    Move(u8, u8),
}

} // verus!
