use vstd::prelude::*;

use crate::bytecode::ByteCode;
use crate::lexer::{head, lex_from, rest, Token, TokenStream, TokenView};
use crate::parser::{
    compile, const_operand, emit, emit_argument, emit_const, empty_state, fits_i16, intern,
    lemma_emit_const, lemma_emit_plain, lemma_intern, lemma_refs_grow, lemma_rfind, lemma_statement,
    parse_from, refs_below, rfind, statement, well_formed, Compiled, Step,
};
use crate::value::ValueView;
use crate::vm::{run_from, step, MachineView};

verus! {

/// The register that an instruction writes, if it writes one.
pub open spec fn written(b: ByteCode) -> Option<u8> {
    match b {
        ByteCode::GetGlobal(d, _) => Some(d),
        ByteCode::LoadConst(d, _) => Some(d),
        ByteCode::LoadBool(d, _) => Some(d),
        ByteCode::LoadNil(d) => Some(d),
        ByteCode::LoadInteger(d, _) => Some(d),
        ByteCode::Move(d, _) => Some(d),
        ByteCode::Call(_, _) => None,
    }
}

/// Whether `b` can run once registers `0..h` are written: it reads only
/// written registers, a call finds its argument above its callee, and a
/// write lands at most one past the written ones.
pub open spec fn fits_registers(b: ByteCode, h: int) -> bool {
    &&& written(b) matches Some(d) ==> d as int <= h
    &&& b matches ByteCode::Move(_, s) ==> (s as int) < h
    &&& b matches ByteCode::Call(f, _) ==> (f as int) + 1 < h
}

/// How many registers are written after `b`, when `h` were before.
pub open spec fn height_after(b: ByteCode, h: int) -> int {
    match written(b) {
        Some(d) => if d as int + 1 > h {
            d as int + 1
        } else {
            h
        },
        None => h,
    }
}

/// How many registers are written after `code` runs from an empty stack,
/// or `None` when some instruction of it does not fit the registers.
pub open spec fn height(code: Seq<ByteCode>) -> Option<int>
    decreases code.len(),
{
    if code.len() == 0 {
        Some(0)
    } else {
        match height(code.drop_last()) {
            Some(h) => if fits_registers(code.last(), h) {
                Some(height_after(code.last(), h))
            } else {
                None
            },
            None => None,
        }
    }
}

/// Every `GetGlobal` of `code` names a string constant of `consts`.
pub open spec fn keys_are_strings(code: Seq<ByteCode>, consts: Seq<ValueView>) -> bool {
    forall|i: int|
        0 <= i < code.len() ==> (#[trigger] code[i] matches ByteCode::GetGlobal(_, k) ==> (k as int)
            < consts.len() && consts[k as int] is String)
}

/// The compiler's state keeps the locals in written registers and its
/// global lookups on string constants.
pub open spec fn disciplined(st: Compiled) -> bool {
    &&& height(st.code) matches Some(h) && st.locals.len() <= h
    &&& keys_are_strings(st.code, st.constants)
}

pub proof fn lemma_height_prefix(code: Seq<ByteCode>, k: int)
    requires
        height(code) is Some,
        0 <= k <= code.len(),
    ensures
        height(code.take(k)) is Some,
    decreases code.len(),
{
    if k == code.len() {
        assert(code.take(k) =~= code);
    } else {
        lemma_height_prefix(code.drop_last(), k);
        assert(code.drop_last().take(k) =~= code.take(k));
    }
}

proof fn lemma_run_safe(m: MachineView, consts: Seq<ValueView>, code: Seq<ByteCode>, i: int)
    requires
        0 <= i <= code.len(),
        height(code) is Some,
        height(code.take(i)) == Some(m.stack.len() as int),
        refs_below(code, consts.len() as int),
        keys_are_strings(code, consts),
    ensures
        run_from(m, consts, code, i).1 matches Some(e) ==> e is NotAFunction,
    decreases code.len() - i,
{
    if i < code.len() {
        lemma_height_prefix(code, i + 1);
        assert(code.take(i + 1).drop_last() =~= code.take(i));
        assert(code.take(i + 1).last() == code[i]);
        let b = code[i];
        assert(fits_registers(b, m.stack.len() as int));
                match step(m, consts, b) {
            Ok(m2) => {
                lemma_run_safe(m2, consts, code, i + 1);
            },
            Err(e) => {
                if let ByteCode::LoadConst(_, k) = b {
                    assert(const_operand(b) == Some(k));
                }
            },
        }
    }
}

/// `b` appended to code of height `h` that it fits.
proof fn lemma_height_push(code: Seq<ByteCode>, h: int, b: ByteCode)
    requires
        height(code) == Some(h),
        fits_registers(b, h),
    ensures
        height(code.push(b)) == Some(height_after(b, h)),
{
    assert(code.push(b).drop_last() =~= code);
}

proof fn lemma_keys_push(
    code: Seq<ByteCode>,
    consts: Seq<ValueView>,
    more: Seq<ValueView>,
    b: ByteCode,
)
    requires
        keys_are_strings(code, consts),
        consts.len() <= more.len(),
        more.subrange(0, consts.len() as int) == consts,
        b matches ByteCode::GetGlobal(_, k) ==> (k as int) < more.len() && more[k as int] is String,
    ensures
        keys_are_strings(code.push(b), more),
{
    let c2 = code.push(b);
    assert forall|i: int| 0 <= i < c2.len() implies (#[trigger] c2[i] matches ByteCode::GetGlobal(_, k)
        ==> (k as int) < more.len() && more[k as int] is String) by {
        if i < code.len() {
            assert(c2[i] == code[i]);
            if let ByteCode::GetGlobal(_, k) = code[i] {
                assert(more[k as int] == more.subrange(0, consts.len() as int)[k as int]);
            }
        }
    }
}

/// What emitting into register `dst` does to a disciplined state: the
/// height grows to cover `dst`, and the rest is kept.
pub open spec fn grew(st: Compiled, st2: Compiled, h: int, dst: int) -> bool {
    &&& height(st2.code) == Some(if dst + 1 > h {
        dst + 1
    } else {
        h
    })
    &&& keys_are_strings(st2.code, st2.constants)
    &&& st2.locals == st.locals
    &&& well_formed(st2)
}

proof fn lemma_emit_const_grows(st: Compiled, h: int, dst: int, v: ValueView)
    requires
        well_formed(st),
        height(st.code) == Some(h),
        keys_are_strings(st.code, st.constants),
        0 <= dst <= h,
        dst < 256,
    ensures
        emit_const(st, dst, v) matches Ok(st2) ==> grew(st, st2, h, dst),
{
    lemma_emit_const(st, dst, v);
    lemma_intern(st.constants, v);
    if let Ok((pool, i)) = intern(st.constants, v) {
        let b = ByteCode::LoadConst(dst as u8, i as u8);
        lemma_height_push(st.code, h, b);
        lemma_keys_push(st.code, st.constants, pool, b);
    }
}

proof fn lemma_emit_plain_grows(st: Compiled, h: int, dst: int, b: ByteCode)
    requires
        well_formed(st),
        height(st.code) == Some(h),
        keys_are_strings(st.code, st.constants),
        0 <= dst <= h,
        dst < 256,
        written(b) == Some(dst as u8),
        fits_registers(b, h),
        const_operand(b) is None,
    ensures
        grew(st, emit(st, b), h, dst),
{
    lemma_height_push(st.code, h, b);
    assert(st.constants.subrange(0, st.constants.len() as int) =~= st.constants);
    lemma_keys_push(st.code, st.constants, st.constants, b);
    lemma_emit_plain(st, b);
}

proof fn lemma_emit_argument_grows(st: Compiled, h: int, dst: int, arg: TokenView)
    requires
        well_formed(st),
        height(st.code) == Some(h),
        keys_are_strings(st.code, st.constants),
        st.locals.len() <= h,
        0 <= dst <= h,
        dst < 256,
    ensures
        emit_argument(st, dst, arg) matches Ok(st2) ==> grew(st, st2, h, dst),
{
    match arg {
        TokenView::Name(x) => {
            lemma_rfind(st.locals, x, st.locals.len() as int);
            let i = rfind(st.locals, x, st.locals.len() as int);
            if i >= 0 {
                lemma_emit_plain_grows(st, h, dst, ByteCode::Move(dst as u8, i as u8));
            }
        },
        TokenView::Integer(n) => {
            if fits_i16(n) {
                lemma_emit_plain_grows(st, h, dst, ByteCode::LoadInteger(dst as u8, n as i16));
            } else {
                lemma_emit_const_grows(st, h, dst, ValueView::Integer(n));
            }
        },
        TokenView::Float(t) => lemma_emit_const_grows(st, h, dst, ValueView::Float(t)),
        TokenView::String(t) => lemma_emit_const_grows(st, h, dst, ValueView::String(t)),
        TokenView::Fixed(Token::Nil) => lemma_emit_plain_grows(
            st,
            h,
            dst,
            ByteCode::LoadNil(dst as u8),
        ),
        TokenView::Fixed(Token::True) => lemma_emit_plain_grows(
            st,
            h,
            dst,
            ByteCode::LoadBool(dst as u8, true),
        ),
        TokenView::Fixed(Token::False) => lemma_emit_plain_grows(
            st,
            h,
            dst,
            ByteCode::LoadBool(dst as u8, false),
        ),
        _ => {},
    }
}

/// Closing a call whose callee sits in register `l` and its argument above.
proof fn lemma_call_fits(st: Compiled, h: int, l: int)
    requires
        well_formed(st),
        height(st.code) == Some(h),
        keys_are_strings(st.code, st.constants),
        0 <= l <= 254,
        l + 2 <= h,
        st.locals.len() <= l,
    ensures
        well_formed(emit(st, ByteCode::Call(l as u8, 1))),
        disciplined(emit(st, ByteCode::Call(l as u8, 1))),
{
    let b = ByteCode::Call(l as u8, 1);
    lemma_height_push(st.code, h, b);
    lemma_emit_plain(st, b);
    assert(st.constants.subrange(0, st.constants.len() as int) =~= st.constants);
    lemma_keys_push(st.code, st.constants, st.constants, b);
}

proof fn lemma_statement_disciplined(s: TokenStream, st: Compiled)
    requires
        well_formed(st),
        disciplined(st),
    ensures
        statement(s, st) matches Step::Continue(_, st2) ==> disciplined(st2),
{
    lemma_statement(s, st);
    let h = height(st.code)->0;
    let l = st.locals.len() as int;
    match head(s) {
        Ok(TokenView::Fixed(Token::Local)) => {
            if l <= 255 {
                if let Ok(TokenView::Integer(n)) = head(rest(rest(rest(s)))) {
                    if fits_i16(n) {
                        lemma_emit_plain_grows(st, h, l, ByteCode::LoadInteger(l as u8, n as i16));
                    } else {
                        lemma_emit_const_grows(st, h, l, ValueView::Integer(n));
                    }
                }
            }
        },
        Ok(TokenView::Name(f)) => {
            if l <= 254 {
                lemma_intern(st.constants, ValueView::String(f));
                if let Ok((pool, k)) = intern(st.constants, ValueView::String(f)) {
                    let b = ByteCode::GetGlobal(l as u8, k as u8);
                    lemma_height_push(st.code, h, b);
                    lemma_keys_push(st.code, st.constants, pool, b);
                    let st1 = Compiled { constants: pool, code: st.code.push(b), locals: st.locals };
                    lemma_refs_grow(st.code, st.constants.len() as int, pool.len() as int, b);
                    let h1 = height_after(b, h);
                    let s0 = rest(s);
                    match head(s0) {
                        Ok(TokenView::Fixed(Token::ParL)) => {
                            if let Ok(arg) = head(rest(s0)) {
                                lemma_emit_argument_grows(st1, h1, l + 1, arg);
                                if let Ok(st2) = emit_argument(st1, l + 1, arg) {
                                    lemma_call_fits(st2, if l + 2 > h1 {
                                        l + 2
                                    } else {
                                        h1
                                    }, l);
                                }
                            }
                        },
                        Ok(TokenView::String(text)) => {
                            lemma_emit_const_grows(st1, h1, l + 1, ValueView::String(text));
                            if let Ok(st2) = emit_const(st1, l + 1, ValueView::String(text)) {
                                lemma_call_fits(st2, if l + 2 > h1 {
                                    l + 2
                                } else {
                                    h1
                                }, l);
                            }
                        },
                        _ => {},
                    }
                }
            }
        },
        _ => {},
    }
}

proof fn lemma_parse_disciplined(s: TokenStream, st: Compiled)
    requires
        well_formed(st),
        disciplined(st),
    ensures
        parse_from(s, st) matches Ok(st2) ==> well_formed(st2) && disciplined(st2),
    decreases s.tokens.len(),
{
    lemma_statement(s, st);
    lemma_statement_disciplined(s, st);
    if let Step::Continue(s2, st2) = statement(s, st) {
        if s2.tokens.len() < s.tokens.len() {
            lemma_parse_disciplined(s2, st2);
        }
    }
}

/// A compiled program, run on a machine with no register written, reads
/// only registers it has written, writes none past the top, finds every
/// constant and every global name where it looks, and gives a call its
/// argument: the only error it can stop with is a call of a value that is no
/// function (a global that nothing binds, for one).
pub proof fn lemma_compiled_program_runs(inp: Seq<u8>, m: MachineView)
    requires
        m.stack.len() == 0,
    ensures
        compile(inp) matches Ok(p) ==> (run_from(m, p.constants, p.byte_codes, 0).1 matches Some(e)
            ==> e is NotAFunction),
{
    let st0 = empty_state();
    assert(well_formed(st0));
    assert(disciplined(st0));
    lemma_parse_disciplined(lex_from(inp, 0), st0);
    if let Ok(st) = parse_from(lex_from(inp, 0), st0) {
        assert(st.code.take(0) =~= Seq::<ByteCode>::empty());
        lemma_run_safe(m, st.constants, st.code, 0);
    }
}

} // verus!
