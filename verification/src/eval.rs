//! The mathematical semantics of the source language: a step-budgeted,
//! depth-first, left-to-right evaluator over AST images.
//!
//! Evaluation is strict: both operands of `&&` and `||` are always evaluated
//! before the boolean combination is applied, and a call's body re-executes
//! against the single global variable mapping (parameters are not bound).
//! `return` produces a `Ret` outcome that stops every enclosing statement
//! sequence early and is unwrapped at the nearest call boundary.
//!
//! The budget (`fuel`) is consumed only by loop iterations and calls; a
//! budget of zero left yields `More`, which the interpreter surfaces as a
//! step-limit error. The interpreter runs with a budget of `2^64 - 1`, which
//! no terminating program of practical size exhausts.
use crate::ast::{AstV, BinOp, FloatV, UnaryOp};
use crate::value::{ValueV, render};
use vstd::prelude::*;

verus! {

/// The interpreter's mathematical state: the single global variable mapping,
/// the single global function mapping, and the output emitted so far.
pub struct StateV {
    pub vars: Map<Seq<char>, ValueV>,
    pub funcs: Map<Seq<char>, AstV>,
    pub out: Seq<Seq<char>>,
}

/// The state of a fresh interpreter: nothing bound, nothing written.
pub open spec fn init_state() -> StateV {
    StateV { vars: Map::empty(), funcs: Map::empty(), out: Seq::empty() }
}

/// The outcome of evaluating one node.
pub enum Eff {
    /// Normal completion with a value.
    Val(ValueV, StateV),
    /// A `return` unwinding towards the enclosing call.
    Ret(ValueV, StateV),
    /// A runtime fault, with its message and the state at the fault.
    Fail(Seq<char>, StateV),
    /// The step budget ran out.
    More,
}

/// The outcome of evaluating a list of expressions to values.
pub enum ListEff {
    Vals(Seq<ValueV>, StateV),
    Ret(ValueV, StateV),
    Fail(Seq<char>, StateV),
    More,
}

pub open spec fn msg_type_mismatch() -> Seq<char> {
    "Type mismatch in binary op."@
}

pub open spec fn msg_invalid_unary() -> Seq<char> {
    "Invalid unary op."@
}

pub open spec fn msg_undefined_variable() -> Seq<char> {
    "Undefined variable."@
}

pub open spec fn msg_undefined_function() -> Seq<char> {
    "Undefined function."@
}

pub open spec fn msg_division_by_zero() -> Seq<char> {
    "Division by zero."@
}

pub open spec fn msg_condition_bool() -> Seq<char> {
    "Condition must be bool."@
}

pub open spec fn msg_index_out_of_bounds() -> Seq<char> {
    "Index out of bounds."@
}

pub open spec fn msg_index_int() -> Seq<char> {
    "Index must be int."@
}

pub open spec fn msg_index_non_array() -> Seq<char> {
    "Cannot index non-array."@
}

pub open spec fn msg_step_limit() -> Seq<char> {
    "Step limit exceeded."@
}

/// Two's-complement wrapping addition.
pub open spec fn wrap_add(a: i64, b: i64) -> i64 {
    vstd::wrapping::i64_specs::wrapping_add(a, b)
}

/// Two's-complement wrapping subtraction.
pub open spec fn wrap_sub(a: i64, b: i64) -> i64 {
    vstd::wrapping::i64_specs::wrapping_sub(a, b)
}

/// Two's-complement wrapping multiplication.
pub open spec fn wrap_mul(a: i64, b: i64) -> i64 {
    vstd::wrapping::i64_specs::wrapping_mul(a, b)
}

/// Two's-complement wrapping negation.
pub open spec fn wrap_neg(a: i64) -> i64 {
    if a == i64::MIN {
        i64::MIN
    } else {
        (-(a as int)) as i64
    }
}

/// Truncating (round-towards-zero) division, wrapping on `MIN / -1`.
pub open spec fn div_trunc(a: i64, b: i64) -> i64
    recommends
        b != 0,
{
    if a == i64::MIN && b == -1 {
        i64::MIN
    } else if a >= 0 {
        ((a as int) / (b as int)) as i64
    } else {
        (-((-(a as int)) / (b as int))) as i64
    }
}

/// Truncating remainder, zero on `MIN % -1`.
pub open spec fn rem_trunc(a: i64, b: i64) -> i64
    recommends
        b != 0,
{
    if a == i64::MIN && b == -1 {
        0
    } else if a >= 0 {
        ((a as int) % (b as int)) as i64
    } else {
        (-((-(a as int)) % (b as int))) as i64
    }
}

/// The result of a binary operator on two already-evaluated operands.
/// Arithmetic and comparisons need `Int` on both sides; `&&` and `||` need
/// `Bool` on both sides; every other combination is a type mismatch. There
/// is no implicit numeric promotion. Division and modulo by zero fail.
pub open spec fn binop_result(op: BinOp, l: ValueV, r: ValueV) -> Result<ValueV, Seq<char>> {
    match (l, r) {
        (ValueV::Int(a), ValueV::Int(b)) => match op {
            BinOp::Add => Ok(ValueV::Int(wrap_add(a, b))),
            BinOp::Sub => Ok(ValueV::Int(wrap_sub(a, b))),
            BinOp::Mul => Ok(ValueV::Int(wrap_mul(a, b))),
            BinOp::Div => if b == 0 {
                Err(msg_division_by_zero())
            } else {
                Ok(ValueV::Int(div_trunc(a, b)))
            },
            BinOp::Mod => if b == 0 {
                Err(msg_division_by_zero())
            } else {
                Ok(ValueV::Int(rem_trunc(a, b)))
            },
            BinOp::Eq => Ok(ValueV::Bool(a == b)),
            BinOp::Neq => Ok(ValueV::Bool(a != b)),
            BinOp::Lt => Ok(ValueV::Bool(a < b)),
            BinOp::Gt => Ok(ValueV::Bool(a > b)),
            BinOp::Le => Ok(ValueV::Bool(a <= b)),
            BinOp::Ge => Ok(ValueV::Bool(a >= b)),
            _ => Err(msg_type_mismatch()),
        },
        (ValueV::Bool(a), ValueV::Bool(b)) => match op {
            BinOp::And => Ok(ValueV::Bool(a && b)),
            BinOp::Or => Ok(ValueV::Bool(a || b)),
            _ => Err(msg_type_mismatch()),
        },
        _ => Err(msg_type_mismatch()),
    }
}

/// The result of a unary operator: negation on integers (wrapping) and
/// floats (sign flip), logical not on booleans.
pub open spec fn unop_result(op: UnaryOp, v: ValueV) -> Result<ValueV, Seq<char>> {
    match (op, v) {
        (UnaryOp::Neg, ValueV::Int(a)) => Ok(ValueV::Int(wrap_neg(a))),
        (UnaryOp::Neg, ValueV::Float(f)) => Ok(
            ValueV::Float(FloatV { neg: !f.neg, digits: f.digits }),
        ),
        (UnaryOp::Not, ValueV::Bool(b)) => Ok(ValueV::Bool(!b)),
        _ => Err(msg_invalid_unary()),
    }
}

/// The result of indexing: the operand must be an array, the index an
/// integer within bounds; a failed lookup is an explicit bounds error.
pub open spec fn index_result(av: ValueV, iv: ValueV) -> Result<ValueV, Seq<char>> {
    match av {
        ValueV::Array(vs) => match iv {
            ValueV::Int(i) => if 0 <= i < vs.len() {
                Ok(vs[i as int])
            } else {
                Err(msg_index_out_of_bounds())
            },
            _ => Err(msg_index_int()),
        },
        _ => Err(msg_index_non_array()),
    }
}

/// The size of a node: one more than the sizes of its children. Used as the
/// structural part of the evaluator's termination measure.
pub open spec fn size(n: AstV) -> nat
    decreases n,
{
    1 + match n {
        AstV::Binary(l, _, r) => size(*l) + size(*r),
        AstV::Unary(_, e) => size(*e),
        AstV::VarDecl(_, _, init) => size(*init),
        AstV::FuncDecl(_, _, _, body) => size(*body),
        AstV::Call(_, args) => sizes(args),
        AstV::If(c, t, e) => size(*c) + size(*t) + match e {
            Some(els) => size(*els),
            None => 0,
        },
        AstV::While(c, b) => size(*c) + size(*b),
        AstV::For(_, init, c, inc, b) => size(*init) + size(*c) + size(*inc) + size(*b),
        AstV::Return(e) => match e {
            Some(expr) => size(*expr),
            None => 0,
        },
        AstV::Block(stmts) => sizes(stmts),
        AstV::Write(e) => size(*e),
        AstV::ArrayLiteral(elems) => sizes(elems),
        AstV::Index(a, i) => size(*a) + size(*i),
        _ => 0,
    }
}

/// The combined size of a node sequence, at least one.
pub open spec fn sizes(s: Seq<AstV>) -> nat
    decreases s,
{
    if s.len() == 0 {
        1
    } else {
        1 + size(s[0]) + sizes(s.drop_first())
    }
}

/// Every element weighs less than its sequence.
pub proof fn lemma_sizes_index(s: Seq<AstV>, i: int)
    requires
        0 <= i < s.len(),
    ensures
        size(s[i]) < sizes(s),
    decreases s,
{
    if i > 0 {
        lemma_sizes_index(s.drop_first(), i - 1);
    }
}

/// Evaluates one node in the given state with the given step budget.
pub open spec fn eval(n: AstV, st: StateV, fuel: nat) -> Eff
    decreases fuel, size(n), 1int,
{
    match n {
        AstV::Literal(v) => Eff::Val(ValueV::Int(v), st),
        AstV::FloatLiteral(f) => Eff::Val(ValueV::Float(f), st),
        AstV::BoolLiteral(b) => Eff::Val(ValueV::Bool(b), st),
        AstV::StringLiteral(s) => Eff::Val(ValueV::String(s), st),
        AstV::Binary(l, op, r) => match eval(*l, st, fuel) {
            Eff::Val(lv, st1) => match eval(*r, st1, fuel) {
                Eff::Val(rv, st2) => match binop_result(op, lv, rv) {
                    Ok(v) => Eff::Val(v, st2),
                    Err(m) => Eff::Fail(m, st2),
                },
                other => other,
            },
            other => other,
        },
        AstV::Unary(op, e) => match eval(*e, st, fuel) {
            Eff::Val(v, st1) => match unop_result(op, v) {
                Ok(rv) => Eff::Val(rv, st1),
                Err(m) => Eff::Fail(m, st1),
            },
            other => other,
        },
        AstV::VarDecl(name, _t, init) => match eval(*init, st, fuel) {
            Eff::Val(v, st1) => Eff::Val(
                ValueV::Int(0),
                StateV { vars: st1.vars.insert(name, v), ..st1 },
            ),
            other => other,
        },
        AstV::VarRef(name) => if st.vars.contains_key(name) {
            Eff::Val(st.vars[name], st)
        } else {
            Eff::Fail(msg_undefined_variable(), st)
        },
        AstV::FuncDecl(name, _params, _ret, body) => Eff::Val(
            ValueV::Int(0),
            StateV { funcs: st.funcs.insert(name, *body), ..st },
        ),
        AstV::Call(name, _args) => if !st.funcs.contains_key(name) {
            Eff::Fail(msg_undefined_function(), st)
        } else if fuel == 0 {
            Eff::More
        } else {
            match eval(st.funcs[name], st, (fuel - 1) as nat) {
                Eff::Val(v, st1) => Eff::Val(v, st1),
                Eff::Ret(v, st1) => Eff::Val(v, st1),
                other => other,
            }
        },
        AstV::If(c, t, e) => match eval(*c, st, fuel) {
            Eff::Val(ValueV::Bool(true), st1) => eval(*t, st1, fuel),
            Eff::Val(ValueV::Bool(false), st1) => match e {
                Some(els) => eval(*els, st1, fuel),
                None => Eff::Val(ValueV::Int(0), st1),
            },
            Eff::Val(_, st1) => Eff::Fail(msg_condition_bool(), st1),
            other => other,
        },
        AstV::While(c, b) => eval_while(*c, *b, st, fuel),
        AstV::For(_name, init, c, inc, b) => match eval(*init, st, fuel) {
            Eff::Val(_, st1) => eval_for(*c, *inc, *b, st1, fuel),
            other => other,
        },
        AstV::Return(e) => match e {
            Some(expr) => match eval(*expr, st, fuel) {
                Eff::Val(v, st1) => Eff::Ret(v, st1),
                other => other,
            },
            None => Eff::Ret(ValueV::Int(0), st),
        },
        AstV::Block(stmts) => eval_block(stmts, ValueV::Int(0), st, fuel),
        AstV::Write(e) => match eval(*e, st, fuel) {
            Eff::Val(v, st1) => Eff::Val(
                ValueV::Int(0),
                StateV { out: st1.out.push(render(v)), ..st1 },
            ),
            other => other,
        },
        AstV::ArrayLiteral(elems) => match eval_list(elems, st, fuel) {
            ListEff::Vals(vs, st1) => Eff::Val(ValueV::Array(vs), st1),
            ListEff::Ret(v, st1) => Eff::Ret(v, st1),
            ListEff::Fail(m, st1) => Eff::Fail(m, st1),
            ListEff::More => Eff::More,
        },
        AstV::Index(a, idx) => match eval(*a, st, fuel) {
            Eff::Val(av, st1) => match eval(*idx, st1, fuel) {
                Eff::Val(iv, st2) => match index_result(av, iv) {
                    Ok(v) => Eff::Val(v, st2),
                    Err(m) => Eff::Fail(m, st2),
                },
                other => other,
            },
            other => other,
        },
    }
}

/// A `while` loop: the condition is re-evaluated before every iteration,
/// must be a boolean, and a normal exit yields the zero value. Each
/// iteration consumes one unit of budget.
pub open spec fn eval_while(c: AstV, b: AstV, st: StateV, fuel: nat) -> Eff
    decreases fuel, size(c) + size(b) + 1, 0int,
{
    match eval(c, st, fuel) {
        Eff::Val(ValueV::Bool(true), st1) => match eval(b, st1, fuel) {
            Eff::Val(_, st2) => if fuel == 0 {
                Eff::More
            } else {
                eval_while(c, b, st2, (fuel - 1) as nat)
            },
            other => other,
        },
        Eff::Val(ValueV::Bool(false), st1) => Eff::Val(ValueV::Int(0), st1),
        Eff::Val(_, st1) => Eff::Fail(msg_condition_bool(), st1),
        other => other,
    }
}

/// A `for` loop after its init statement has run: condition, then body,
/// then increment, repeating while the condition holds.
pub open spec fn eval_for(c: AstV, inc: AstV, b: AstV, st: StateV, fuel: nat) -> Eff
    decreases fuel, size(c) + size(inc) + size(b) + 1, 0int,
{
    match eval(c, st, fuel) {
        Eff::Val(ValueV::Bool(true), st1) => match eval(b, st1, fuel) {
            Eff::Val(_, st2) => match eval(inc, st2, fuel) {
                Eff::Val(_, st3) => if fuel == 0 {
                    Eff::More
                } else {
                    eval_for(c, inc, b, st3, (fuel - 1) as nat)
                },
                other => other,
            },
            other => other,
        },
        Eff::Val(ValueV::Bool(false), st1) => Eff::Val(ValueV::Int(0), st1),
        Eff::Val(_, st1) => Eff::Fail(msg_condition_bool(), st1),
        other => other,
    }
}

/// A statement sequence: each statement runs in order; the result is the
/// last statement's value (`last` arriving as the zero value), and a `Ret`
/// stops the sequence early.
pub open spec fn eval_block(ns: Seq<AstV>, last: ValueV, st: StateV, fuel: nat) -> Eff
    decreases fuel, sizes(ns), 0int,
{
    if ns.len() == 0 {
        Eff::Val(last, st)
    } else {
        match eval(ns[0], st, fuel) {
            Eff::Val(v, st1) => eval_block(ns.drop_first(), v, st1, fuel),
            other => other,
        }
    }
}

/// An expression list evaluated left to right into values.
pub open spec fn eval_list(ns: Seq<AstV>, st: StateV, fuel: nat) -> ListEff
    decreases fuel, sizes(ns), 0int,
{
    if ns.len() == 0 {
        ListEff::Vals(Seq::empty(), st)
    } else {
        match eval(ns[0], st, fuel) {
            Eff::Val(v, st1) => match eval_list(ns.drop_first(), st1, fuel) {
                ListEff::Vals(vs, st2) => ListEff::Vals(seq![v] + vs, st2),
                other => other,
            },
            Eff::Ret(v, st1) => ListEff::Ret(v, st1),
            Eff::Fail(m, st1) => ListEff::Fail(m, st1),
            Eff::More => ListEff::More,
        }
    }
}

/// A whole program: top-level statements run in order, each with the full
/// budget; a top-level `return` stops the run (successfully), as does the
/// first fault.
pub open spec fn run_program(stmts: Seq<AstV>, st: StateV, fuel: nat) -> Eff
    decreases stmts.len(),
{
    if stmts.len() == 0 {
        Eff::Val(ValueV::Int(0), st)
    } else {
        match eval(stmts[0], st, fuel) {
            Eff::Val(_, st1) => run_program(stmts.drop_first(), st1, fuel),
            other => other,
        }
    }
}

/// Prepends already-evaluated values to a list outcome.
pub open spec fn list_extend(prefix: Seq<ValueV>, e: ListEff) -> ListEff {
    match e {
        ListEff::Vals(vs, st) => ListEff::Vals(prefix + vs, st),
        other => other,
    }
}

/// Prepending nothing changes nothing.
pub proof fn lemma_list_extend_empty(e: ListEff)
    ensures
        list_extend(Seq::empty(), e) == e,
{
    match e {
        ListEff::Vals(vs, st) => {
            assert(Seq::<ValueV>::empty() + vs =~= vs);
        },
        _ => {},
    }
}

/// Prefixes compose by concatenation.
pub proof fn lemma_list_extend_compose(a: Seq<ValueV>, b: Seq<ValueV>, e: ListEff)
    ensures
        list_extend(a, list_extend(b, e)) == list_extend(a + b, e),
{
    match e {
        ListEff::Vals(vs, st) => {
            assert(a + (b + vs) =~= (a + b) + vs);
        },
        _ => {},
    }
}

/// One successful element peels off the front of a list evaluation.
pub proof fn lemma_eval_list_step(ns: Seq<AstV>, st: StateV, fuel: nat, v: ValueV, st1: StateV)
    requires
        ns.len() > 0,
        eval(ns[0], st, fuel) == Eff::Val(v, st1),
    ensures
        eval_list(ns, st, fuel) == list_extend(seq![v], eval_list(ns.drop_first(), st1, fuel)),
{
    match eval_list(ns.drop_first(), st1, fuel) {
        ListEff::Vals(vs, st2) => {},
        _ => {},
    }
}

} // verus!
