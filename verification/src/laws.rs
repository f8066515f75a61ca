//! Laws of the pipeline, stated over the mathematical models the public
//! contracts speak of and proved once and for all.
use crate::ast::{AstV, BinOp};
use crate::codegen::all_supported;
use crate::eval::{binop_result, eval, run_program, Eff, StateV};
use crate::parser::{sp_program, PRes, PARSE_FUEL};
use crate::token::TokenV;
use crate::tokenizer::spec_tokenize;
use crate::value::ValueV;
use vstd::prelude::*;

verus! {

/// Law (round-trip determinism): tokenizing then parsing the same source
/// twice yields structurally identical ASTs.
///
/// `tokenize` is proved to return exactly `spec_tokenize` of the source and
/// `Parser::parse` exactly `sp_program` of the token images, both functions
/// of the input alone, so two runs over the same source cannot disagree.
pub proof fn round_trip_deterministic(
    source: Seq<char>,
    t1: Seq<TokenV>,
    t2: Seq<TokenV>,
    a1: Seq<AstV>,
    p1: nat,
    a2: Seq<AstV>,
    p2: nat,
)
    requires
        t1 == spec_tokenize(source),
        t2 == spec_tokenize(source),
        sp_program(t1, 0, PARSE_FUEL as nat) == PRes::<Seq<AstV>>::Parsed(a1, p1),
        sp_program(t2, 0, PARSE_FUEL as nat) == PRes::<Seq<AstV>>::Parsed(a2, p2),
    ensures
        t1 == t2,
        a1 == a2,
        p1 == p2,
{
}

/// Law (no short-circuit): a binary operator always evaluates both
/// operands. Whatever the left operand's value — even one that alone would
/// decide `&&` or `||` — the right operand's effects on bindings and output
/// take place, and the final state is the state after both evaluations.
pub proof fn binary_evaluates_both_operands(
    l: AstV,
    op: BinOp,
    r: AstV,
    st: StateV,
    fuel: nat,
    lv: ValueV,
    st1: StateV,
    rv: ValueV,
    st2: StateV,
)
    requires
        eval(l, st, fuel) == Eff::Val(lv, st1),
        eval(r, st1, fuel) == Eff::Val(rv, st2),
    ensures
        eval(AstV::Binary(Box::new(l), op, Box::new(r)), st, fuel) == (match binop_result(
            op,
            lv,
            rv,
        ) {
            Ok(v) => Eff::Val(v, st2),
            Err(m) => Eff::Fail(m, st2),
        }),
{
}

/// Law (flat environment): a call re-executes the stored body against the
/// single global variable mapping and binds no parameters, so two calls of
/// the same function from the same state behave identically whatever the
/// arguments are.
pub proof fn call_ignores_arguments(
    name: Seq<char>,
    args1: Seq<AstV>,
    args2: Seq<AstV>,
    st: StateV,
    fuel: nat,
)
    ensures
        eval(AstV::Call(name, args1), st, fuel) == eval(AstV::Call(name, args2), st, fuel),
{
}

/// Law (code generator parity): every program the code generator accepts —
/// by `CodeGen::compile`'s contract, one whose statements are all supported
/// constructs — the interpreter runs successfully too, with no change to
/// its bindings and no output; the generated function likewise returns the
/// zero value. Everything else the generator rejects with an explicit
/// unsupported-construct error, so the two backends never silently diverge.
pub proof fn codegen_parity(stmts: Seq<AstV>, st: StateV, fuel: nat)
    requires
        all_supported(stmts),
    ensures
        run_program(stmts, st, fuel) == Eff::Val(ValueV::Int(0), st),
    decreases stmts.len(),
{
    if stmts.len() > 0 {
        assert(stmts[0] is Literal);
        codegen_parity(stmts.drop_first(), st, fuel);
    }
}

} // verus!
