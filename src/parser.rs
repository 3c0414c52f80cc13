use vstd::prelude::*;

use crate::bytecode::ByteCode;
use crate::lexer::{head, lemma_lex_step, lex_from, rest, LexError, Lexer, Token, TokenStream, TokenView};
use crate::value::{values_view, Value, ValueView};

verus! {

/// The compiled program: instructions and the constant pool they index.
#[derive(Debug)]
pub struct ParseProto {
    pub constants: Vec<Value>,
    pub byte_codes: Vec<ByteCode>,
}

/// The mathematical model of a [`ParseProto`].
pub struct ProtoView {
    pub constants: Seq<ValueView>,
    pub byte_codes: Seq<ByteCode>,
}

impl View for ParseProto {
    type V = ProtoView;

    open spec fn view(&self) -> ProtoView {
        ProtoView { constants: values_view(self.constants@), byte_codes: self.byte_codes@ }
    }
}

/// A grammar violation.
#[derive(Clone, Debug, PartialEq)]
pub enum ParseError {
    /// A token where the grammar allows none of its kind.
    UnexpectedToken(Token),
    /// A name used as an argument that is no declared local.
    UnresolvedName(String),
    /// A new constant when the pool already holds 256.
    TooManyConstants,
    /// A local or a call that needs a register above 255.
    TooManyRegisters,
}

/// Why a program could not be compiled.
#[derive(Clone, Debug, PartialEq)]
pub enum LoadError {
    Lex(LexError),
    Parse(ParseError),
}

/// The mathematical model of a [`LoadError`].
pub enum LoadErrorView {
    Lex(LexError),
    UnexpectedToken(TokenView),
    UnresolvedName(Seq<char>),
    TooManyConstants,
    TooManyRegisters,
}

impl View for LoadError {
    type V = LoadErrorView;

    open spec fn view(&self) -> LoadErrorView {
        match self {
            LoadError::Lex(e) => LoadErrorView::Lex(*e),
            LoadError::Parse(ParseError::UnexpectedToken(t)) => LoadErrorView::UnexpectedToken(t@),
            LoadError::Parse(ParseError::UnresolvedName(n)) => LoadErrorView::UnresolvedName(n@),
            LoadError::Parse(ParseError::TooManyConstants) => LoadErrorView::TooManyConstants,
            LoadError::Parse(ParseError::TooManyRegisters) => LoadErrorView::TooManyRegisters,
        }
    }
}

/// What the compiler holds between statements: the constant pool, the
/// instructions emitted so far, and the names of the locals, each at the
/// register of its index.
pub struct Compiled {
    pub constants: Seq<ValueView>,
    pub code: Seq<ByteCode>,
    pub locals: Seq<Seq<char>>,
}

pub open spec fn empty_state() -> Compiled {
    Compiled { constants: seq![], code: seq![], locals: seq![] }
}

/// The first index at or after `i` that holds `v`, or the pool's length.
pub open spec fn find_value(pool: Seq<ValueView>, v: ValueView, i: int) -> int
    decreases pool.len() - i,
{
    if 0 <= i < pool.len() {
        if pool[i] == v {
            i
        } else {
            find_value(pool, v, i + 1)
        }
    } else {
        pool.len() as int
    }
}

/// Adds `v` to the pool unless it is there already, and gives its index.
pub open spec fn intern(pool: Seq<ValueView>, v: ValueView) -> Result<
    (Seq<ValueView>, int),
    LoadErrorView,
> {
    let i = find_value(pool, v, 0);
    if i < pool.len() {
        Ok((pool, i))
    } else if pool.len() >= 256 {
        Err(LoadErrorView::TooManyConstants)
    } else {
        Ok((pool.push(v), pool.len() as int))
    }
}

/// The last index of `x` among the first `n` names, or -1.
pub open spec fn rfind(names: Seq<Seq<char>>, x: Seq<char>, n: int) -> int
    decreases n,
{
    if n <= 0 {
        -1
    } else if names[n - 1] == x {
        n - 1
    } else {
        rfind(names, x, n - 1)
    }
}

pub open spec fn emit(st: Compiled, b: ByteCode) -> Compiled {
    Compiled { constants: st.constants, code: st.code.push(b), locals: st.locals }
}

/// Emits a load of constant `v` into register `dst`.
pub open spec fn emit_const(st: Compiled, dst: int, v: ValueView) -> Result<Compiled, LoadErrorView> {
    match intern(st.constants, v) {
        Ok((pool, i)) => Ok(
            Compiled {
                constants: pool,
                code: st.code.push(ByteCode::LoadConst(dst as u8, i as u8)),
                locals: st.locals,
            },
        ),
        Err(e) => Err(e),
    }
}

pub open spec fn fits_i16(i: i64) -> bool {
    -32768 <= i <= 32767
}

/// Emits a load of integer `i` into register `dst`: held in the instruction
/// when it fits 16 bits, in the constant pool otherwise.
pub open spec fn emit_integer(st: Compiled, dst: int, i: i64) -> Result<Compiled, LoadErrorView> {
    if fits_i16(i) {
        Ok(emit(st, ByteCode::LoadInteger(dst as u8, i as i16)))
    } else {
        emit_const(st, dst, ValueView::Integer(i))
    }
}

/// Emits the evaluation of the argument `arg` into register `dst`.
pub open spec fn emit_argument(st: Compiled, dst: int, arg: TokenView) -> Result<
    Compiled,
    LoadErrorView,
> {
    match arg {
        TokenView::Name(x) => {
            let i = rfind(st.locals, x, st.locals.len() as int);
            if i < 0 {
                Err(LoadErrorView::UnresolvedName(x))
            } else {
                Ok(emit(st, ByteCode::Move(dst as u8, i as u8)))
            }
        },
        TokenView::Integer(i) => emit_integer(st, dst, i),
        TokenView::Float(t) => emit_const(st, dst, ValueView::Float(t)),
        TokenView::String(t) => emit_const(st, dst, ValueView::String(t)),
        TokenView::Fixed(Token::Nil) => Ok(emit(st, ByteCode::LoadNil(dst as u8))),
        TokenView::Fixed(Token::True) => Ok(emit(st, ByteCode::LoadBool(dst as u8, true))),
        TokenView::Fixed(Token::False) => Ok(emit(st, ByteCode::LoadBool(dst as u8, false))),
        _ => Err(LoadErrorView::UnexpectedToken(arg)),
    }
}

/// The outcome of compiling one statement.
pub enum Step {
    /// The statement was compiled; the stream and the state that follow.
    Continue(TokenStream, Compiled),
    /// The input is at its end.
    Finished,
    Failed(LoadErrorView),
}

/// `local <name> = <integer>`, after `local`.
pub open spec fn local_declaration(s: TokenStream, st: Compiled) -> Step {
    match head(s) {
        Err(e) => Step::Failed(LoadErrorView::Lex(e)),
        Ok(TokenView::Name(x)) => {
            let s1 = rest(s);
            match head(s1) {
                Err(e) => Step::Failed(LoadErrorView::Lex(e)),
                Ok(TokenView::Fixed(Token::Assign)) => {
                    let s2 = rest(s1);
                    match head(s2) {
                        Err(e) => Step::Failed(LoadErrorView::Lex(e)),
                        Ok(TokenView::Integer(i)) => {
                            let slot = st.locals.len() as int;
                            if slot > 255 {
                                Step::Failed(LoadErrorView::TooManyRegisters)
                            } else {
                                match emit_integer(st, slot, i) {
                                    Err(e) => Step::Failed(e),
                                    Ok(st2) => Step::Continue(
                                        rest(s2),
                                        Compiled {
                                            constants: st2.constants,
                                            code: st2.code,
                                            locals: st2.locals.push(x),
                                        },
                                    ),
                                }
                            }
                        },
                        Ok(t) => Step::Failed(LoadErrorView::UnexpectedToken(t)),
                    }
                },
                Ok(t) => Step::Failed(LoadErrorView::UnexpectedToken(t)),
            }
        },
        Ok(t) => Step::Failed(LoadErrorView::UnexpectedToken(t)),
    }
}

/// `<f> ( <argument> )` or `<f> "<string>"`, after the name `f`. The callee
/// goes to the first register above the locals, its argument just above it.
pub open spec fn call_statement(f: Seq<char>, s: TokenStream, st: Compiled) -> Step {
    let callee = st.locals.len() as int;
    if callee > 254 {
        Step::Failed(LoadErrorView::TooManyRegisters)
    } else {
        match intern(st.constants, ValueView::String(f)) {
            Err(e) => Step::Failed(e),
            Ok((pool, k)) => {
                let st1 = Compiled {
                    constants: pool,
                    code: st.code.push(ByteCode::GetGlobal(callee as u8, k as u8)),
                    locals: st.locals,
                };
                match head(s) {
                    Err(e) => Step::Failed(LoadErrorView::Lex(e)),
                    Ok(TokenView::Fixed(Token::ParL)) => {
                        let s1 = rest(s);
                        match head(s1) {
                            Err(e) => Step::Failed(LoadErrorView::Lex(e)),
                            Ok(arg) => match emit_argument(st1, callee + 1, arg) {
                                Err(e) => Step::Failed(e),
                                Ok(st2) => {
                                    let s2 = rest(s1);
                                    match head(s2) {
                                        Err(e) => Step::Failed(LoadErrorView::Lex(e)),
                                        Ok(TokenView::Fixed(Token::ParR)) => Step::Continue(
                                            rest(s2),
                                            emit(st2, ByteCode::Call(callee as u8, 1)),
                                        ),
                                        Ok(t) => Step::Failed(LoadErrorView::UnexpectedToken(t)),
                                    }
                                },
                            },
                        }
                    },
                    Ok(TokenView::String(text)) => match emit_const(
                        st1,
                        callee + 1,
                        ValueView::String(text),
                    ) {
                        Err(e) => Step::Failed(e),
                        Ok(st2) => Step::Continue(rest(s), emit(st2, ByteCode::Call(callee as u8, 1))),
                    },
                    Ok(t) => Step::Failed(LoadErrorView::UnexpectedToken(t)),
                }
            },
        }
    }
}

/// One statement, or the end of the input.
pub open spec fn statement(s: TokenStream, st: Compiled) -> Step {
    match head(s) {
        Err(e) => Step::Failed(LoadErrorView::Lex(e)),
        Ok(TokenView::Fixed(Token::Eos)) => Step::Finished,
        Ok(TokenView::Fixed(Token::Local)) => local_declaration(rest(s), st),
        Ok(TokenView::Name(f)) => call_statement(f, rest(s), st),
        Ok(t) => Step::Failed(LoadErrorView::UnexpectedToken(t)),
    }
}

/// Compiles statements until the end of the stream or the first error.
pub open spec fn parse_from(s: TokenStream, st: Compiled) -> Result<Compiled, LoadErrorView>
    decreases s.tokens.len(),
{
    match statement(s, st) {
        Step::Finished => Ok(st),
        Step::Failed(e) => Err(e),
        Step::Continue(s2, st2) => if s2.tokens.len() < s.tokens.len() {
            parse_from(s2, st2)
        } else {
            Ok(st)
        },
    }
}

/// The program that the source text `inp` compiles to, or the error.
pub open spec fn compile(inp: Seq<u8>) -> Result<ProtoView, LoadErrorView> {
    match parse_from(lex_from(inp, 0), empty_state()) {
        Ok(st) => Ok(ProtoView { constants: st.constants, byte_codes: st.code }),
        Err(e) => Err(e),
    }
}

/// Adds `v` to the constant pool unless an equal value is there already, and
/// gives the index of the value in the pool.
fn add_const(constants: &mut Vec<Value>, v: Value) -> (r: Result<u8, LoadError>)
    ensures
        match intern(values_view(old(constants)@), v@) {
            Ok((pool, i)) => r == Ok::<u8, LoadError>(i as u8) && values_view(final(constants)@) == pool,
            Err(e) => r matches Err(err) && err@ == e,
        },
{
    let ghost pool = values_view(constants@);
    let mut i: usize = 0;
    while i < constants.len()
        invariant
            i <= constants@.len(),
            constants@ == old(constants)@,
            pool == values_view(constants@),
            find_value(pool, v@, 0) == find_value(pool, v@, i as int),
        decreases constants@.len() - i,
    {
        if constants[i].same_as(&v) {
            return Ok(i as u8);
        }
        i = i + 1;
    }
    if constants.len() >= 256 {
        return Err(LoadError::Parse(ParseError::TooManyConstants));
    }
    constants.push(v);
    proof {
        assert(values_view(constants@) =~= pool.push(v@));
    }
    Ok(i as u8)
}

/// The instruction that loads `v`, through the constant pool, into register
/// `dst`.
fn load_const(constants: &mut Vec<Value>, dst: u8, v: Value) -> (r: Result<ByteCode, LoadError>)
    ensures
        match intern(values_view(old(constants)@), v@) {
            Ok((pool, i)) => r == Ok::<ByteCode, LoadError>(ByteCode::LoadConst(dst, i as u8))
                && values_view(final(constants)@) == pool,
            Err(e) => r matches Err(err) && err@ == e,
        },
{
    match add_const(constants, v) {
        Ok(i) => Ok(ByteCode::LoadConst(dst, i)),
        Err(e) => Err(e),
    }
}

/// The compiler's state while it walks through the tokens.
struct Compiler<'a> {
    lex: Lexer<'a>,
    constants: Vec<Value>,
    byte_codes: Vec<ByteCode>,
    locals: Vec<String>,
}

pub open spec fn names_view(v: Seq<String>) -> Seq<Seq<char>> {
    v.map_values(|s: String| s@)
}

impl<'a> Compiler<'a> {
    spec fn stream(&self) -> TokenStream {
        lex_from(self.lex.source(), self.lex.position())
    }

    spec fn state(&self) -> Compiled {
        Compiled {
            constants: values_view(self.constants@),
            code: self.byte_codes@,
            locals: names_view(self.locals@),
        }
    }

    spec fn wf(&self) -> bool {
        self.lex.wf() && self.locals@.len() <= 256
    }

    /// Whether this state, reached with result `r`, is what `step` gives.
    spec fn reached(&self, step: Step, r: Result<(), LoadError>) -> bool {
        match step {
            Step::Continue(s2, st2) => r is Ok && self.stream() == s2 && self.state() == st2,
            Step::Finished => false,
            Step::Failed(e) => r matches Err(err) && err@ == e,
        }
    }

    fn next_token(&mut self) -> (r: Result<Token, LoadError>)
        requires
            old(self).wf(),
        ensures
            final(self).wf(),
            final(self).lex.source() == old(self).lex.source(),
            final(self).state() == old(self).state(),
            match head(old(self).stream()) {
                Ok(t) => r matches Ok(tok) && tok@ == t && final(self).stream() == rest(
                    old(self).stream(),
                ),
                Err(e) => r matches Err(err) && err@ == LoadErrorView::Lex(e),
            },
    {
        proof {
            lemma_lex_step(self.lex.source(), self.lex.position());
        }
        match self.lex.next() {
            Ok(t) => Ok(t),
            Err(e) => Err(LoadError::Lex(e)),
        }
    }

    /// Emits the load of constant `v` into register `dst`.
    fn load_constant(&mut self, dst: u8, v: Value) -> (r: Result<(), LoadError>)
        requires
            old(self).wf(),
        ensures
            final(self).wf(),
            final(self).lex == old(self).lex,
            match emit_const(old(self).state(), dst as int, v@) {
                Ok(st) => r is Ok && final(self).state() == st,
                Err(e) => r matches Err(err) && err@ == e,
            },
    {
        match load_const(&mut self.constants, dst, v) {
            Ok(b) => {
                self.byte_codes.push(b);
                Ok(())
            },
            Err(e) => Err(e),
        }
    }

    /// Emits the load of integer `i` into register `dst`.
    fn load_integer(&mut self, dst: u8, i: i64) -> (r: Result<(), LoadError>)
        requires
            old(self).wf(),
        ensures
            final(self).wf(),
            final(self).lex == old(self).lex,
            match emit_integer(old(self).state(), dst as int, i) {
                Ok(st) => r is Ok && final(self).state() == st,
                Err(e) => r matches Err(err) && err@ == e,
            },
    {
        if -32768 <= i && i <= 32767 {
            self.byte_codes.push(ByteCode::LoadInteger(dst, i as i16));
            Ok(())
        } else {
            self.load_constant(dst, Value::Integer(i))
        }
    }

    /// The register of the latest local named `x`, if there is one.
    fn find_local(&self, x: &String) -> (r: Option<usize>)
        ensures
            match r {
                Some(i) => i == rfind(names_view(self.locals@), x@, self.locals@.len() as int),
                None => rfind(names_view(self.locals@), x@, self.locals@.len() as int) < 0,
            },
    {
        let ghost names = names_view(self.locals@);
        let mut n = self.locals.len();
        while n > 0
            invariant
                n <= self.locals@.len(),
                names == names_view(self.locals@),
                rfind(names, x@, self.locals@.len() as int) == rfind(names, x@, n as int),
            decreases n,
        {
            if self.locals[n - 1] == *x {
                return Some(n - 1);
            }
            n = n - 1;
        }
        None
    }

    /// Emits the evaluation of the argument `arg` into register `dst`.
    fn load_argument(&mut self, dst: u8, arg: Token) -> (r: Result<(), LoadError>)
        requires
            old(self).wf(),
        ensures
            final(self).wf(),
            final(self).lex == old(self).lex,
            match emit_argument(old(self).state(), dst as int, arg@) {
                Ok(st) => r is Ok && final(self).state() == st,
                Err(e) => r matches Err(err) && err@ == e,
            },
    {
        match arg {
            Token::Name(x) => match self.find_local(&x) {
                Some(i) => {
                    self.byte_codes.push(ByteCode::Move(dst, i as u8));
                    Ok(())
                },
                None => Err(LoadError::Parse(ParseError::UnresolvedName(x))),
            },
            Token::Integer(i) => self.load_integer(dst, i),
            Token::Float(t) => self.load_constant(dst, Value::Float(t)),
            Token::String(t) => self.load_constant(dst, Value::String(t)),
            Token::Nil => {
                self.byte_codes.push(ByteCode::LoadNil(dst));
                Ok(())
            },
            Token::True => {
                self.byte_codes.push(ByteCode::LoadBool(dst, true));
                Ok(())
            },
            Token::False => {
                self.byte_codes.push(ByteCode::LoadBool(dst, false));
                Ok(())
            },
            other => Err(LoadError::Parse(ParseError::UnexpectedToken(other))),
        }
    }

    /// Compiles `local <name> = <integer>`; `local` has been read.
    fn local_declaration(&mut self) -> (r: Result<(), LoadError>)
        requires
            old(self).wf(),
        ensures
            final(self).wf(),
            final(self).lex.source() == old(self).lex.source(),
            r is Ok ==> final(self).stream().tokens.len() <= old(self).stream().tokens.len(),
            final(self).reached(local_declaration(old(self).stream(), old(self).state()), r),
    {
        let name = match self.next_token() {
            Ok(Token::Name(x)) => x,
            Ok(other) => {
                return Err(LoadError::Parse(ParseError::UnexpectedToken(other)));
            },
            Err(e) => {
                return Err(e);
            },
        };
        match self.next_token() {
            Ok(Token::Assign) => {},
            Ok(other) => {
                return Err(LoadError::Parse(ParseError::UnexpectedToken(other)));
            },
            Err(e) => {
                return Err(e);
            },
        }
        let i = match self.next_token() {
            Ok(Token::Integer(i)) => i,
            Ok(other) => {
                return Err(LoadError::Parse(ParseError::UnexpectedToken(other)));
            },
            Err(e) => {
                return Err(e);
            },
        };
        let slot = self.locals.len();
        if slot > 255 {
            return Err(LoadError::Parse(ParseError::TooManyRegisters));
        }
        match self.load_integer(slot as u8, i) {
            Ok(()) => {},
            Err(e) => {
                return Err(e);
            },
        }
        let ghost before = self.locals@;
        self.locals.push(name);
        proof {
            assert(names_view(self.locals@) =~= names_view(before).push(name@));
        }
        Ok(())
    }

    /// Compiles a call of the global `name`; the name has been read.
    fn call_statement(&mut self, name: String) -> (r: Result<(), LoadError>)
        requires
            old(self).wf(),
        ensures
            final(self).wf(),
            final(self).lex.source() == old(self).lex.source(),
            r is Ok ==> final(self).stream().tokens.len() <= old(self).stream().tokens.len(),
            final(self).reached(call_statement(name@, old(self).stream(), old(self).state()), r),
    {
        let callee = self.locals.len();
        if callee > 254 {
            return Err(LoadError::Parse(ParseError::TooManyRegisters));
        }
        let k = match add_const(&mut self.constants, Value::String(name)) {
            Ok(k) => k,
            Err(e) => {
                return Err(e);
            },
        };
        self.byte_codes.push(ByteCode::GetGlobal(callee as u8, k));
        match self.next_token() {
            Ok(Token::ParL) => {
                let arg = match self.next_token() {
                    Ok(a) => a,
                    Err(e) => {
                        return Err(e);
                    },
                };
                match self.load_argument((callee + 1) as u8, arg) {
                    Ok(()) => {},
                    Err(e) => {
                        return Err(e);
                    },
                }
                match self.next_token() {
                    Ok(Token::ParR) => {},
                    Ok(other) => {
                        return Err(LoadError::Parse(ParseError::UnexpectedToken(other)));
                    },
                    Err(e) => {
                        return Err(e);
                    },
                }
                self.byte_codes.push(ByteCode::Call(callee as u8, 1));
                Ok(())
            },
            Ok(Token::String(text)) => {
                match self.load_constant((callee + 1) as u8, Value::String(text)) {
                    Ok(()) => {},
                    Err(e) => {
                        return Err(e);
                    },
                }
                self.byte_codes.push(ByteCode::Call(callee as u8, 1));
                Ok(())
            },
            Ok(other) => Err(LoadError::Parse(ParseError::UnexpectedToken(other))),
            Err(e) => Err(e),
        }
    }
}

/// Compiles the source text `input` in one pass: each statement is turned
/// into instructions as soon as its tokens are read.
pub fn load(input: &[u8]) -> (r: Result<ParseProto, LoadError>)
    ensures
        match compile(input@) {
            Ok(p) => r matches Ok(proto) && proto@ == p,
            Err(e) => r matches Err(err) && err@ == e,
        },
{
    let mut c = Compiler {
        lex: Lexer::new(input),
        constants: Vec::new(),
        byte_codes: Vec::new(),
        locals: Vec::new(),
    };
    let ghost result = parse_from(lex_from(input@, 0), empty_state());
    proof {
        assert(c.state().constants =~= empty_state().constants);
        assert(c.state().locals =~= empty_state().locals);
        assert(c.state() == empty_state());
    }
    loop
        invariant
            c.wf(),
            c.lex.source() == input@,
            parse_from(c.stream(), c.state()) == result,
            result == parse_from(lex_from(input@, 0), empty_state()),
        decreases c.stream().tokens.len(),
    {
        let ghost s = c.stream();
        let ghost st = c.state();
        match c.next_token() {
            Ok(Token::Eos) => {
                return Ok(ParseProto { constants: c.constants, byte_codes: c.byte_codes });
            },
            Ok(Token::Local) => match c.local_declaration() {
                Ok(()) => {},
                Err(e) => {
                    return Err(e);
                },
            },
            Ok(Token::Name(f)) => match c.call_statement(f) {
                Ok(()) => {},
                Err(e) => {
                    return Err(e);
                },
            },
            Ok(other) => {
                return Err(LoadError::Parse(ParseError::UnexpectedToken(other)));
            },
            Err(e) => {
                return Err(e);
            },
        }
    }
}

/// The constant index that an instruction holds, if it holds one.
pub open spec fn const_operand(b: ByteCode) -> Option<u8> {
    match b {
        ByteCode::GetGlobal(_, k) => Some(k),
        ByteCode::LoadConst(_, k) => Some(k),
        _ => None,
    }
}

/// Every constant index in `code` is below `n`.
pub open spec fn refs_below(code: Seq<ByteCode>, n: int) -> bool {
    forall|i: int|
        0 <= i < code.len() ==> (#[trigger] const_operand(code[i]) matches Some(k) ==> (k as int)
            < n)
}

/// What holds of the compiler's state between statements: a pool of at
/// most 256 distinct values, instructions that index inside it, and locals
/// that fit the registers.
pub open spec fn well_formed(st: Compiled) -> bool {
    &&& st.constants.len() <= 256
    &&& st.constants.no_duplicates()
    &&& refs_below(st.code, st.constants.len() as int)
    &&& st.locals.len() <= 256
}

pub proof fn lemma_find_value(pool: Seq<ValueView>, v: ValueView, i: int)
    requires
        0 <= i <= pool.len(),
    ensures
        i <= find_value(pool, v, i) <= pool.len(),
        find_value(pool, v, i) < pool.len() ==> pool[find_value(pool, v, i)] == v,
        forall|k: int| i <= k < find_value(pool, v, i) ==> pool[k] != v,
    decreases pool.len() - i,
{
    if i < pool.len() && pool[i] != v {
        lemma_find_value(pool, v, i + 1);
    }
}

/// Interning keeps the pool free of duplicates, only ever appends, and gives
/// an index that holds the value.
pub proof fn lemma_intern(pool: Seq<ValueView>, v: ValueView)
    requires
        pool.no_duplicates(),
        pool.len() <= 256,
    ensures
        intern(pool, v) matches Ok((p2, k)) ==> {
            &&& p2.no_duplicates()
            &&& p2.len() <= 256
            &&& pool.len() <= p2.len()
            &&& p2.subrange(0, pool.len() as int) == pool
            &&& 0 <= k < p2.len()
            &&& p2[k] == v
        },
        intern(pool, v) is Err ==> pool.len() == 256,
{
    lemma_find_value(pool, v, 0);
    let i = find_value(pool, v, 0);
    if i < pool.len() {
        assert(pool.subrange(0, pool.len() as int) =~= pool);
    } else if pool.len() < 256 {
        let p2 = pool.push(v);
        assert(p2.subrange(0, pool.len() as int) =~= pool);
        assert forall|a: int, b: int| 0 <= a < p2.len() && 0 <= b < p2.len() && a != b implies p2[a]
            != p2[b] by {
            if a < pool.len() && b < pool.len() {
            } else if a < pool.len() {
                assert(pool[a] != v);
            } else {
                assert(pool[b] != v);
            }
        }
    }
}

/// Interning a value a second time changes nothing and gives the index it
/// gave the first time.
pub proof fn lemma_intern_idempotent(pool: Seq<ValueView>, v: ValueView)
    requires
        pool.no_duplicates(),
        pool.len() <= 256,
    ensures
        intern(pool, v) matches Ok((p2, k)) ==> intern(p2, v) == Ok::<
            (Seq<ValueView>, int),
            LoadErrorView,
        >((p2, k)),
{
    lemma_intern(pool, v);
    if let Ok((p2, k)) = intern(pool, v) {
        lemma_find_value(p2, v, 0);
        let j = find_value(p2, v, 0);
        assert(j == k) by {
            if j < k {
                assert(p2[k] != v);
            } else if j > k {
                assert(p2[k] != v);
            }
        }
    }
}

pub(crate) proof fn lemma_refs_grow(code: Seq<ByteCode>, n: int, m: int, b: ByteCode)
    requires
        refs_below(code, n),
        n <= m,
        const_operand(b) matches Some(k) ==> (k as int) < m,
    ensures
        refs_below(code.push(b), m),
{
    assert forall|i: int| 0 <= i < code.push(b).len() implies (#[trigger] const_operand(
        code.push(b)[i],
    ) matches Some(k) ==> (k as int) < m) by {
        if i < code.len() {
            assert(code.push(b)[i] == code[i]);
        }
    }
}

pub(crate) proof fn lemma_emit_const(st: Compiled, dst: int, v: ValueView)
    requires
        well_formed(st),
    ensures
        emit_const(st, dst, v) matches Ok(st2) ==> well_formed(st2) && st2.locals == st.locals,
{
    lemma_intern(st.constants, v);
    if let Ok((pool, i)) = intern(st.constants, v) {
        lemma_refs_grow(
            st.code,
            st.constants.len() as int,
            pool.len() as int,
            ByteCode::LoadConst(dst as u8, i as u8),
        );
    }
}

pub(crate) proof fn lemma_emit_plain(st: Compiled, b: ByteCode)
    requires
        well_formed(st),
        const_operand(b) is None,
    ensures
        well_formed(emit(st, b)),
{
    lemma_refs_grow(st.code, st.constants.len() as int, st.constants.len() as int, b);
}

proof fn lemma_emit_integer(st: Compiled, dst: int, i: i64)
    requires
        well_formed(st),
    ensures
        emit_integer(st, dst, i) matches Ok(st2) ==> well_formed(st2) && st2.locals == st.locals,
{
    if fits_i16(i) {
        lemma_emit_plain(st, ByteCode::LoadInteger(dst as u8, i as i16));
    } else {
        lemma_emit_const(st, dst, ValueView::Integer(i));
    }
}

proof fn lemma_emit_argument(st: Compiled, dst: int, arg: TokenView)
    requires
        well_formed(st),
    ensures
        emit_argument(st, dst, arg) matches Ok(st2) ==> well_formed(st2) && st2.locals
            == st.locals,
{
    match arg {
        TokenView::Name(x) => {
            let i = rfind(st.locals, x, st.locals.len() as int);
            lemma_emit_plain(st, ByteCode::Move(dst as u8, i as u8));
        },
        TokenView::Integer(i) => lemma_emit_integer(st, dst, i),
        TokenView::Float(t) => lemma_emit_const(st, dst, ValueView::Float(t)),
        TokenView::String(t) => lemma_emit_const(st, dst, ValueView::String(t)),
        _ => {
            lemma_emit_plain(st, ByteCode::LoadNil(dst as u8));
            lemma_emit_plain(st, ByteCode::LoadBool(dst as u8, true));
            lemma_emit_plain(st, ByteCode::LoadBool(dst as u8, false));
        },
    }
}

pub(crate) proof fn lemma_statement(s: TokenStream, st: Compiled)
    requires
        well_formed(st),
    ensures
        statement(s, st) matches Step::Continue(_, st2) ==> well_formed(st2),
{
    match head(s) {
        Ok(TokenView::Fixed(Token::Local)) => {
            let s1 = rest(rest(rest(s)));
            if let Ok(TokenView::Integer(i)) = head(s1) {
                lemma_emit_integer(st, st.locals.len() as int, i);
            }
        },
        Ok(TokenView::Name(f)) => {
            let callee = st.locals.len() as int;
            lemma_intern(st.constants, ValueView::String(f));
            if let Ok((pool, k)) = intern(st.constants, ValueView::String(f)) {
                let b = ByteCode::GetGlobal(callee as u8, k as u8);
                lemma_refs_grow(st.code, st.constants.len() as int, pool.len() as int, b);
                let st1 = Compiled { constants: pool, code: st.code.push(b), locals: st.locals };
                let s0 = rest(s);
                match head(s0) {
                    Ok(TokenView::Fixed(Token::ParL)) => {
                        if let Ok(arg) = head(rest(s0)) {
                            lemma_emit_argument(st1, callee + 1, arg);
                            if let Ok(st2) = emit_argument(st1, callee + 1, arg) {
                                lemma_emit_plain(st2, ByteCode::Call(callee as u8, 1));
                            }
                        }
                    },
                    Ok(TokenView::String(text)) => {
                        lemma_emit_const(st1, callee + 1, ValueView::String(text));
                        if let Ok(st2) = emit_const(st1, callee + 1, ValueView::String(text)) {
                            lemma_emit_plain(st2, ByteCode::Call(callee as u8, 1));
                        }
                    },
                    _ => {},
                }
            }
        },
        _ => {},
    }
}

proof fn lemma_parse_from(s: TokenStream, st: Compiled)
    requires
        well_formed(st),
    ensures
        parse_from(s, st) matches Ok(st2) ==> well_formed(st2),
    decreases s.tokens.len(),
{
    lemma_statement(s, st);
    if let Step::Continue(s2, st2) = statement(s, st) {
        if s2.tokens.len() < s.tokens.len() {
            lemma_parse_from(s2, st2);
        }
    }
}

/// A compiled program's constant pool holds no value twice, and every
/// constant index in its instructions is inside the pool; so two
/// instructions that reach equal constants reach them by the same index.
pub proof fn lemma_compiled_constants(inp: Seq<u8>)
    ensures
        compile(inp) matches Ok(p) ==> {
            &&& p.constants.no_duplicates()
            &&& p.constants.len() <= 256
            &&& refs_below(p.byte_codes, p.constants.len() as int)
            &&& forall|i: int, j: int|
                0 <= i < p.byte_codes.len() && 0 <= j < p.byte_codes.len() && (
                #[trigger] const_operand(p.byte_codes[i])) is Some && (#[trigger] const_operand(
                    p.byte_codes[j],
                )) is Some && p.constants[const_operand(p.byte_codes[i])->0 as int]
                    == p.constants[const_operand(p.byte_codes[j])->0 as int] ==> const_operand(
                    p.byte_codes[i],
                ) == const_operand(p.byte_codes[j])
        },
{
    let st0 = empty_state();
    assert(well_formed(st0));
    lemma_parse_from(lex_from(inp, 0), st0);
}

/// In a call `f(n)` with an integer literal `n`, the argument is loaded by
/// `LoadInteger` when `n` fits 16 bits, and otherwise by `LoadConst` of a
/// pool entry equal to `n`; only the limits on constants and registers can
/// stop the statement.
pub proof fn lemma_integer_argument(f: Seq<char>, n: i64, s: TokenStream, st: Compiled)
    requires
        well_formed(st),
        s.tokens.len() >= 3,
        s.tokens[0] == TokenView::Fixed(Token::ParL),
        s.tokens[1] == TokenView::Integer(n),
        s.tokens[2] == TokenView::Fixed(Token::ParR),
    ensures
        ({
            let c = st.code.len() as int;
            let dst = (st.locals.len() + 1) as u8;
            match call_statement(f, s, st) {
                Step::Continue(_, st2) => {
                    &&& st2.code.len() == c + 3
                    &&& fits_i16(n) ==> st2.code[c + 1] == ByteCode::LoadInteger(dst, n as i16)
                    &&& !fits_i16(n) ==> (st2.code[c + 1] matches ByteCode::LoadConst(d, k) && d
                        == dst && (k as int) < st2.constants.len() && st2.constants[k as int]
                        == ValueView::Integer(n))
                },
                Step::Failed(e) => e == LoadErrorView::TooManyConstants || e
                    == LoadErrorView::TooManyRegisters,
                Step::Finished => false,
            }
        }),
{
    let s1 = rest(s);
    let s2 = rest(s1);
    assert(s1.tokens[0] == s.tokens[1]);
    assert(s2.tokens[0] == s.tokens[2]);
    lemma_intern(st.constants, ValueView::String(f));
    if let Ok((pool, k)) = intern(st.constants, ValueView::String(f)) {
        lemma_intern(pool, ValueView::Integer(n));
    }
}

/// In `local x = n`, the literal goes to the local's register, the first one
/// above the locals before it: by `LoadInteger` when `n` fits 16 bits, and
/// otherwise by `LoadConst` of a pool entry equal to `n`.
pub proof fn lemma_integer_local(x: Seq<char>, n: i64, s: TokenStream, st: Compiled)
    requires
        well_formed(st),
        s.tokens.len() >= 4,
        s.tokens[0] == TokenView::Fixed(Token::Local),
        s.tokens[1] == TokenView::Name(x),
        s.tokens[2] == TokenView::Fixed(Token::Assign),
        s.tokens[3] == TokenView::Integer(n),
    ensures
        ({
            let c = st.code.len() as int;
            let dst = st.locals.len() as u8;
            match statement(s, st) {
                Step::Continue(_, st2) => {
                    &&& st2.code.len() == c + 1
                    &&& st2.locals == st.locals.push(x)
                    &&& fits_i16(n) ==> st2.code[c] == ByteCode::LoadInteger(dst, n as i16)
                    &&& !fits_i16(n) ==> (st2.code[c] matches ByteCode::LoadConst(d, k) && d == dst
                        && (k as int) < st2.constants.len() && st2.constants[k as int]
                        == ValueView::Integer(n))
                },
                Step::Failed(e) => e == LoadErrorView::TooManyConstants || e
                    == LoadErrorView::TooManyRegisters,
                Step::Finished => false,
            }
        }),
{
    let r1 = rest(s);
    let r2 = rest(r1);
    let r3 = rest(r2);
    assert(r1.tokens[0] == s.tokens[1]);
    assert(r2.tokens[0] == s.tokens[2]);
    assert(r3.tokens[0] == s.tokens[3]);
    lemma_intern(st.constants, ValueView::Integer(n));
}

pub proof fn lemma_rfind(names: Seq<Seq<char>>, x: Seq<char>, n: int)
    requires
        0 <= n <= names.len(),
    ensures
        -1 <= rfind(names, x, n) < n,
        rfind(names, x, n) >= 0 ==> names[rfind(names, x, n)] == x,
        rfind(names, x, n) < 0 ==> forall|k: int| 0 <= k < n ==> names[k] != x,
    decreases n,
{
    if n > 0 && names[n - 1] != x {
        lemma_rfind(names, x, n - 1);
    }
}

/// A local declared and then passed to a call is read by a `Move` from the
/// register of its declaration, which is the first register above the
/// locals declared before it; only the limits on constants and registers can
/// stop the two statements.
pub proof fn lemma_local_reference(x: Seq<char>, n: i64, f: Seq<char>, s: TokenStream, st: Compiled)
    requires
        well_formed(st),
        s.tokens.len() >= 8,
        s.tokens[0] == TokenView::Fixed(Token::Local),
        s.tokens[1] == TokenView::Name(x),
        s.tokens[2] == TokenView::Fixed(Token::Assign),
        s.tokens[3] == TokenView::Integer(n),
        s.tokens[4] == TokenView::Name(f),
        s.tokens[5] == TokenView::Fixed(Token::ParL),
        s.tokens[6] == TokenView::Name(x),
        s.tokens[7] == TokenView::Fixed(Token::ParR),
    ensures
        ({
            let l = st.locals.len() as int;
            match statement(s, st) {
                Step::Continue(s1, st1) => st1.locals == st.locals.push(x) && match statement(
                    s1,
                    st1,
                ) {
                    Step::Continue(_, st2) => st2.code.len() == st1.code.len() + 3
                        && st2.code[st1.code.len() + 1int] == ByteCode::Move((l + 2) as u8, l as u8),
                    Step::Failed(e) => e == LoadErrorView::TooManyConstants || e
                        == LoadErrorView::TooManyRegisters,
                    Step::Finished => false,
                },
                Step::Failed(e) => e == LoadErrorView::TooManyConstants || e
                    == LoadErrorView::TooManyRegisters,
                Step::Finished => false,
            }
        }),
{
    let r1 = rest(s);
    let r2 = rest(r1);
    let r3 = rest(r2);
    let r4 = rest(r3);
    let r5 = rest(r4);
    let r6 = rest(r5);
    let r7 = rest(r6);
    assert(r1.tokens[0] == s.tokens[1]);
    assert(r2.tokens[0] == s.tokens[2]);
    assert(r3.tokens[0] == s.tokens[3]);
    assert(r4.tokens[0] == s.tokens[4]);
    assert(r5.tokens[0] == s.tokens[5]);
    assert(r6.tokens[0] == s.tokens[6]);
    assert(r7.tokens[0] == s.tokens[7]);
    let l = st.locals.len() as int;
    lemma_emit_integer(st, l, n);
    if let Step::Continue(s1, st1) = statement(s, st) {
        assert(s1 == r4);
        assert(st1.locals[l] == x);
        assert(rfind(st1.locals, x, l + 1) == l);
        lemma_intern(st1.constants, ValueView::String(f));
    }
}

/// Passing a name that no local declares fails with an unresolved-name
/// error, unless a limit on constants or registers stops the call before.
pub proof fn lemma_undeclared_argument(f: Seq<char>, x: Seq<char>, s: TokenStream, st: Compiled)
    requires
        well_formed(st),
        s.tokens.len() >= 2,
        s.tokens[0] == TokenView::Fixed(Token::ParL),
        s.tokens[1] == TokenView::Name(x),
        !st.locals.contains(x),
    ensures
        call_statement(f, s, st) == Step::Failed(LoadErrorView::UnresolvedName(x))
            || call_statement(f, s, st) == Step::Failed(LoadErrorView::TooManyConstants)
            || call_statement(f, s, st) == Step::Failed(LoadErrorView::TooManyRegisters),
{
    let s1 = rest(s);
    assert(s1.tokens[0] == s.tokens[1]);
    lemma_intern(st.constants, ValueView::String(f));
    lemma_rfind(st.locals, x, st.locals.len() as int);
    if rfind(st.locals, x, st.locals.len() as int) >= 0 {
        assert(st.locals.contains(x));
    }
}

} // verus!
