use vstd::prelude::*;

use crate::bytecode::ByteCode;
use crate::lexer::{
    find_in, head, keyword_token, latin1, lemma_find_in, lex_from, rest, scan, word_end, LexError,
    Scan, Token, TokenView,
};
use crate::parser::{
    call_statement, compile, emit_const, empty_state, find_value, intern, parse_from, statement,
    Compiled, LoadErrorView, ProtoView, Step,
};
use crate::value::ValueView;
use crate::vm::{initial_machine, run_from};

verus! {

/// The source text `print "<s>"`.
pub open spec fn print_string_source(s: Seq<u8>) -> Seq<u8> {
    seq![112u8, 114u8, 105u8, 110u8, 116u8, 32u8, 34u8] + s + seq![34u8]
}

/// For every string body `s` without a `"` (other than `print` itself),
/// `print "<s>"` compiles to a lookup of `print`, a load of the string and a
/// call, and running it writes exactly the string's characters and a
/// newline.
pub proof fn lemma_print_string(s: Seq<u8>)
    requires
        forall|i: int| 0 <= i < s.len() ==> s[i] != 34u8,
        latin1(s) != "print"@,
    ensures
        compile(print_string_source(s)) == Ok::<ProtoView, LoadErrorView>(
            ProtoView {
                constants: seq![ValueView::String("print"@), ValueView::String(latin1(s))],
                byte_codes: seq![
                    ByteCode::GetGlobal(0, 0),
                    ByteCode::LoadConst(1, 1),
                    ByteCode::Call(0, 1),
                ],
            },
        ),
        ({
            let p = compile(print_string_source(s))->Ok_0;
            let (m, err) = run_from(initial_machine(), p.constants, p.byte_codes, 0);
            err is None && m.output == latin1(s) + seq!['\n']
        }),
{
    let inp = print_string_source(s);
    let n = inp.len() as int;
    reveal_strlit("print");
    reveal_strlit("and");
    reveal_strlit("break");
    reveal_strlit("do");
    reveal_strlit("else");
    reveal_strlit("elseif");
    reveal_strlit("end");
    reveal_strlit("false");
    reveal_strlit("for");
    reveal_strlit("function");
    reveal_strlit("goto");
    reveal_strlit("if");
    reveal_strlit("in");
    reveal_strlit("local");
    reveal_strlit("nil");
    reveal_strlit("not");
    reveal_strlit("or");
    reveal_strlit("repeat");
    reveal_strlit("return");
    reveal_strlit("then");
    reveal_strlit("true");
    reveal_strlit("until");
    reveal_strlit("while");
    assert(inp[0] == 112u8 && inp[1] == 114u8 && inp[2] == 105u8 && inp[3] == 110u8 && inp[4] == 116u8);
    assert(inp[5] == 32u8 && inp[6] == 34u8 && inp[n - 1] == 34u8);
    assert(inp.subrange(7, n - 1) =~= s);
    // the name
    reveal_with_fuel(word_end, 6);
    assert(word_end(inp, 0) == 5);
    let w = latin1(inp.subrange(0, 5));
    assert(w =~= "print"@);
    assert(w.len() == 5 && w[0] == 'p' && w[1] == 'r');
    assert(keyword_token(w) is None);
    assert(scan(inp, 0) == Scan::Token(TokenView::Name("print"@), 5));
    // the string
    lemma_find_in(inp, 34, 7, n);
    assert forall|k: int| 7 <= k < n - 1 implies inp[k] != 34u8 by {
        assert(inp[k] == s[k - 7]);
    }
    assert(find_in(inp, 34, 7, n) == n - 1);
    assert(scan(inp, 6) == Scan::Token(TokenView::String(latin1(s)), n));
    assert(scan(inp, n) == Scan::Token(TokenView::Fixed(Token::Eos), n));
    let tail = lex_from(inp, n);
    assert(tail.tokens.len() == 0 && tail.error is None);
    let mid = lex_from(inp, 5);
    assert(mid.tokens =~= seq![TokenView::String(latin1(s))]);
    let all = lex_from(inp, 0);
    assert(all.tokens =~= seq![TokenView::Name("print"@), TokenView::String(latin1(s))]);
    assert(all.error is None);
    assert(ValueView::String(latin1(s)) != ValueView::String("print"@));
    let s1 = rest(all);
    let s2 = rest(s1);
    let st0 = empty_state();
    let st = Compiled {
        constants: seq![ValueView::String("print"@), ValueView::String(latin1(s))],
        code: seq![ByteCode::GetGlobal(0, 0), ByteCode::LoadConst(1, 1), ByteCode::Call(0, 1)],
        locals: seq![],
    };
    let pool1 = seq![ValueView::String("print"@)];
    assert(Seq::<ValueView>::empty().push(ValueView::String("print"@)) =~= pool1);
    assert(pool1.push(ValueView::String(latin1(s))) =~= st.constants);
    assert(st0.code.push(ByteCode::GetGlobal(0, 0)) =~= seq![ByteCode::GetGlobal(0, 0)]);
    assert(seq![ByteCode::GetGlobal(0, 0)].push(ByteCode::LoadConst(1, 1)) =~= seq![
        ByteCode::GetGlobal(0, 0),
        ByteCode::LoadConst(1, 1),
    ]);
    assert(seq![ByteCode::GetGlobal(0, 0), ByteCode::LoadConst(1, 1)].push(ByteCode::Call(0, 1))
        =~= st.code);
    assert(intern(seq![], ValueView::String("print"@)) == Ok::<
        (Seq<ValueView>, int),
        LoadErrorView,
    >((pool1, 0)));
    assert(find_value(pool1, ValueView::String(latin1(s)), 1) == 1);
    assert(find_value(pool1, ValueView::String(latin1(s)), 0) == 1);
    assert(intern(pool1, ValueView::String(latin1(s))) == Ok::<
        (Seq<ValueView>, int),
        LoadErrorView,
    >((st.constants, 1)));
    let st1 = Compiled {
        constants: pool1,
        code: seq![ByteCode::GetGlobal(0, 0)],
        locals: seq![],
    };
    assert(head(s1) == Ok::<TokenView, LexError>(
        TokenView::String(latin1(s)),
    ));
    assert(emit_const(st1, 1, ValueView::String(latin1(s))) == Ok::<
        Compiled,
        LoadErrorView,
    >(
        Compiled {
            constants: st.constants,
            code: seq![ByteCode::GetGlobal(0, 0), ByteCode::LoadConst(1, 1)],
            locals: seq![],
        },
    ));
    assert(call_statement("print"@, s1, st0) == Step::Continue(
        s2,
        st,
    ));
    assert(statement(all, st0) == Step::Continue(s2, st));
    assert(parse_from(s2, st) == Ok::<Compiled, LoadErrorView>(st));
    // running it
    reveal_with_fuel(run_from, 4);
}

} // verus!
