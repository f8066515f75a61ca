//! The tree-walking interpreter: walks the AST depth-first, left to right,
//! and produces runtime values, holding its variable and function bindings in
//! two process-wide mappings and collecting `write` output in order.
//!
//! `interpret` is proved to behave exactly as the mathematical evaluator
//! `eval::run_program` with the `STEP_FUEL` budget: the same faults with the
//! same messages, the same bindings, and the same output.
use crate::arena::Arena;
use crate::ast::{AstNode, asts_view, ast_view, clone_node, lemma_asts_view};
use crate::eval::{
    Eff, ListEff, StateV, eval, eval_block, eval_for, eval_list, eval_while, init_state,
    binop_result, unop_result, index_result, list_extend, lemma_eval_list_step,
    lemma_list_extend_compose, lemma_sizes_index, run_program, size,
};
use crate::strmap::StrMap;
use crate::value::{
    Value, ValueV, clone_value, lemma_values_view, lemma_values_view_push, render,
    render_value, values_view,
};
use crate::ast::FloatLit;
use vstd::prelude::*;
use vstd::string::StringExecFns;

verus! {

/// The interpreter's step budget: consumed one unit per loop iteration and
/// per call. No terminating program of practical size reaches it; a program
/// that does (one that would otherwise run essentially forever) is stopped
/// with a step-limit error instead of blocking the process without end.
pub const STEP_FUEL: u64 = u64::MAX;

/// The views of a sequence of strings.
pub open spec fn strings_view(s: Seq<String>) -> Seq<Seq<char>> {
    s.map_values(|x: String| x@)
}

/// How one statement finished: normally, or unwinding from a `return`.
enum Control {
    Normal(Value),
    Returning(Value),
}

/// Why execution stopped: a runtime fault, or the step budget ran out.
enum Halt {
    Fault(String),
    OutOfSteps,
}

/// The exec outcome `r` with final state `st` is the image of the
/// mathematical outcome `e`.
spec fn eff_matches(e: Eff, r: Result<Control, Halt>, st: StateV) -> bool {
    match e {
        Eff::Val(v, s) => r matches Ok(Control::Normal(rv)) && rv@ == v && st == s,
        Eff::Ret(v, s) => r matches Ok(Control::Returning(rv)) && rv@ == v && st == s,
        Eff::Fail(m, s) => r matches Err(Halt::Fault(msg)) && msg@ == m && st == s,
        Eff::More => r matches Err(Halt::OutOfSteps),
    }
}

/// Applies a binary operator to two evaluated operands.
fn apply_binop(op: crate::ast::BinOp, l: &Value, r: &Value) -> (res: Result<Value, String>)
    ensures
        match binop_result(op, l@, r@) {
            Ok(v) => res matches Ok(rv) && rv@ == v,
            Err(m) => res matches Err(s) && s@ == m,
        },
{
    match (l, r) {
        (Value::Int(a), Value::Int(b)) => match op {
            crate::ast::BinOp::Add => Ok(Value::Int(a.wrapping_add(*b))),
            crate::ast::BinOp::Sub => Ok(Value::Int(a.wrapping_sub(*b))),
            crate::ast::BinOp::Mul => Ok(Value::Int(a.wrapping_mul(*b))),
            crate::ast::BinOp::Div => {
                if *b == 0 {
                    Err(String::from_str("Division by zero."))
                } else if *a == i64::MIN && *b == -1 {
                    Ok(Value::Int(i64::MIN))
                } else {
                    Ok(Value::Int(*a / *b))
                }
            },
            crate::ast::BinOp::Mod => {
                if *b == 0 {
                    Err(String::from_str("Division by zero."))
                } else if *a == i64::MIN && *b == -1 {
                    Ok(Value::Int(0))
                } else {
                    Ok(Value::Int(*a % *b))
                }
            },
            crate::ast::BinOp::Eq => Ok(Value::Bool(*a == *b)),
            crate::ast::BinOp::Neq => Ok(Value::Bool(*a != *b)),
            crate::ast::BinOp::Lt => Ok(Value::Bool(*a < *b)),
            crate::ast::BinOp::Gt => Ok(Value::Bool(*a > *b)),
            crate::ast::BinOp::Le => Ok(Value::Bool(*a <= *b)),
            crate::ast::BinOp::Ge => Ok(Value::Bool(*a >= *b)),
            _ => Err(String::from_str("Type mismatch in binary op.")),
        },
        (Value::Bool(a), Value::Bool(b)) => match op {
            crate::ast::BinOp::And => Ok(Value::Bool(*a && *b)),
            crate::ast::BinOp::Or => Ok(Value::Bool(*a || *b)),
            _ => Err(String::from_str("Type mismatch in binary op.")),
        },
        _ => Err(String::from_str("Type mismatch in binary op.")),
    }
}

/// Applies a unary operator to an evaluated operand.
fn apply_unop(op: crate::ast::UnaryOp, v: &Value) -> (res: Result<Value, String>)
    ensures
        match unop_result(op, v@) {
            Ok(rv) => res matches Ok(x) && x@ == rv,
            Err(m) => res matches Err(s) && s@ == m,
        },
{
    match (op, v) {
        (crate::ast::UnaryOp::Neg, Value::Int(a)) => {
            if *a == i64::MIN {
                Ok(Value::Int(i64::MIN))
            } else {
                Ok(Value::Int(-*a))
            }
        },
        (crate::ast::UnaryOp::Neg, Value::Float(f)) => Ok(
            Value::Float(FloatLit { neg: !f.neg, digits: f.digits.clone() }),
        ),
        (crate::ast::UnaryOp::Not, Value::Bool(b)) => Ok(Value::Bool(!*b)),
        _ => Err(String::from_str("Invalid unary op.")),
    }
}

/// Indexes an evaluated array with an evaluated index, copying the element
/// out (arrays are copied on read, never aliased).
fn apply_index(av: &Value, iv: &Value) -> (res: Result<Value, String>)
    ensures
        match index_result(av@, iv@) {
            Ok(rv) => res matches Ok(x) && x@ == rv,
            Err(m) => res matches Err(s) && s@ == m,
        },
{
    match av {
        Value::Array(vs) => match iv {
            Value::Int(i) => {
                proof {
                    lemma_values_view(vs@);
                }
                if *i >= 0 && (*i as u64) < (vs.len() as u64) {
                    Ok(clone_value(&vs[*i as usize]))
                } else {
                    Err(String::from_str("Index out of bounds."))
                }
            },
            _ => Err(String::from_str("Index must be int.")),
        },
        _ => Err(String::from_str("Cannot index non-array.")),
    }
}

/// The interpreter: the two global mappings, the output gathered so far, and
/// the arena whose buffer lives for the whole session.
pub struct Interpreter {
    variables: StrMap<Value>,
    functions: StrMap<AstNode>,
    output: Vec<String>,
    arena: Arena,
}

impl View for Interpreter {
    type V = StateV;

    closed spec fn view(&self) -> StateV {
        StateV {
            vars: self.variables@,
            funcs: self.functions@,
            out: strings_view(self.output@),
        }
    }
}

impl Interpreter {
    /// A fresh interpreter: nothing bound, nothing written.
    pub fn new() -> (it: Interpreter)
        ensures
            it@ == init_state(),
    {
        let it = Interpreter {
            variables: StrMap::new(),
            functions: StrMap::new(),
            output: Vec::new(),
            arena: Arena::new(),
        };
        proof {
            assert(strings_view(it.output@) =~= Seq::<Seq<char>>::empty());
            assert(it@ == init_state());
        }
        it
    }

    /// Everything `write` has emitted so far, in order.
    pub fn output(&self) -> (o: &Vec<String>)
        ensures
            strings_view(o@) == self@.out,
    {
        &self.output
    }

    /// Runs the statements in order against the current state. Stops at the
    /// first fault (returning its message), stops early after a top-level
    /// `return` (successfully), and otherwise runs everything: exactly
    /// `run_program` of the statement images with the `STEP_FUEL` budget.
    #[verifier::loop_isolation(false)]
    pub fn interpret(&mut self, ast: &Vec<AstNode>) -> (r: Result<(), String>)
        ensures
            match run_program(asts_view(ast@), old(self)@, STEP_FUEL as nat) {
                Eff::Val(_, st) => r is Ok && final(self)@ == st,
                Eff::Ret(_, st) => r is Ok && final(self)@ == st,
                Eff::Fail(m, st) => (r matches Err(msg) && msg@ == m) && final(self)@ == st,
                Eff::More => r matches Err(msg) && msg@ == "Step limit exceeded."@,
            },
    {
        let ghost av = asts_view(ast@);
        let ghost st0 = self@;
        proof {
            lemma_asts_view(ast@);
            assert(av.skip(0) =~= av);
        }
        let mut i: usize = 0;
        while i < ast.len()
            invariant
                0 <= i <= ast@.len(),
                av == asts_view(ast@),
                av.len() == ast@.len(),
                forall|t: int| 0 <= t < ast@.len() ==> av[t] == ast_view(ast@[t]),
                run_program(av, st0, STEP_FUEL as nat) == run_program(
                    av.skip(i as int),
                    self@,
                    STEP_FUEL as nat,
                ),
            decreases ast@.len() - i,
        {
            let ghost pre = self@;
            let r = self.execute(&ast[i], STEP_FUEL);
            proof {
                assert(av.skip(i as int)[0] == av[i as int]);
                assert(av.skip(i as int).drop_first() =~= av.skip(i as int + 1));
            }
            match r {
                Ok(Control::Normal(_)) => {},
                Ok(Control::Returning(_)) => {
                    return Ok(());
                },
                Err(Halt::Fault(m)) => {
                    return Err(m);
                },
                Err(Halt::OutOfSteps) => {
                    return Err(String::from_str("Step limit exceeded."));
                },
            }
            i += 1;
        }
        proof {
            assert(av.skip(av.len() as int) =~= Seq::<crate::ast::AstV>::empty());
        }
        Ok(())
    }

    /// Evaluates one node, mirroring `eval` with the same budget.
    #[verifier::loop_isolation(false)]
    fn execute(&mut self, node: &AstNode, fuel: u64) -> (r: Result<Control, Halt>)
        ensures
            eff_matches(eval(ast_view(*node), old(self)@, fuel as nat), r, final(self)@),
        decreases fuel, size(ast_view(*node)), 1int,
    {
        match node {
            AstNode::Literal(v) => Ok(Control::Normal(Value::Int(*v))),
            AstNode::FloatLiteral(f) => Ok(
                Control::Normal(
                    Value::Float(FloatLit { neg: f.neg, digits: f.digits.clone() }),
                ),
            ),
            AstNode::BoolLiteral(b) => Ok(Control::Normal(Value::Bool(*b))),
            AstNode::StringLiteral(s) => Ok(Control::Normal(Value::String(s.clone()))),
            AstNode::Binary(l, op, rr) => {
                let lv = match self.execute(&**l, fuel) {
                    Ok(Control::Normal(v)) => v,
                    Ok(Control::Returning(v)) => {
                        return Ok(Control::Returning(v));
                    },
                    Err(h) => {
                        return Err(h);
                    },
                };
                let rv = match self.execute(&**rr, fuel) {
                    Ok(Control::Normal(v)) => v,
                    Ok(Control::Returning(v)) => {
                        return Ok(Control::Returning(v));
                    },
                    Err(h) => {
                        return Err(h);
                    },
                };
                match apply_binop(*op, &lv, &rv) {
                    Ok(v) => Ok(Control::Normal(v)),
                    Err(m) => Err(Halt::Fault(m)),
                }
            },
            AstNode::Unary(op, e) => {
                let v = match self.execute(&**e, fuel) {
                    Ok(Control::Normal(v)) => v,
                    Ok(Control::Returning(v)) => {
                        return Ok(Control::Returning(v));
                    },
                    Err(h) => {
                        return Err(h);
                    },
                };
                match apply_unop(*op, &v) {
                    Ok(rv) => Ok(Control::Normal(rv)),
                    Err(m) => Err(Halt::Fault(m)),
                }
            },
            AstNode::VarDecl(name, _t, init) => {
                let v = match self.execute(&**init, fuel) {
                    Ok(Control::Normal(v)) => v,
                    Ok(Control::Returning(v)) => {
                        return Ok(Control::Returning(v));
                    },
                    Err(h) => {
                        return Err(h);
                    },
                };
                self.variables.insert(name.clone(), v);
                Ok(Control::Normal(Value::Int(0)))
            },
            AstNode::VarRef(name) => {
                let got = self.variables.get(name.as_str());
                match got {
                    Some(v) => Ok(Control::Normal(clone_value(v))),
                    None => Err(Halt::Fault(String::from_str("Undefined variable."))),
                }
            },
            AstNode::FuncDecl(name, _params, _ret, body) => {
                let b = clone_node(&**body);
                self.functions.insert(name.clone(), b);
                Ok(Control::Normal(Value::Int(0)))
            },
            AstNode::Call(name, _args) => {
                let known = match self.functions.get(name.as_str()) {
                    Some(_) => true,
                    None => false,
                };
                if !known {
                    return Err(Halt::Fault(String::from_str("Undefined function.")));
                }
                if fuel == 0 {
                    return Err(Halt::OutOfSteps);
                }
                let body = match self.functions.get(name.as_str()) {
                    Some(b) => clone_node(b),
                    None => {
                        return Err(Halt::Fault(String::from_str("Undefined function.")));
                    },
                };
                match self.execute(&body, fuel - 1) {
                    Ok(Control::Normal(v)) => Ok(Control::Normal(v)),
                    Ok(Control::Returning(v)) => Ok(Control::Normal(v)),
                    Err(h) => Err(h),
                }
            },
            AstNode::If(c, t, e) => {
                let cv = match self.execute(&**c, fuel) {
                    Ok(Control::Normal(v)) => v,
                    Ok(Control::Returning(v)) => {
                        return Ok(Control::Returning(v));
                    },
                    Err(h) => {
                        return Err(h);
                    },
                };
                match cv {
                    Value::Bool(true) => self.execute(&**t, fuel),
                    Value::Bool(false) => match e {
                        Some(els) => self.execute(&**els, fuel),
                        None => Ok(Control::Normal(Value::Int(0))),
                    },
                    _ => Err(Halt::Fault(String::from_str("Condition must be bool."))),
                }
            },
            AstNode::While(c, b) => {
                let ghost cv = ast_view(*(*c));
                let ghost bv = ast_view(*(*b));
                let mut fl = fuel;
                loop
                    invariant
                        fl <= fuel,
                        eval_while(cv, bv, old(self)@, fuel as nat) == eval_while(
                            cv,
                            bv,
                            self@,
                            fl as nat,
                        ),
                    decreases fl,
                {
                    let cr = self.execute(&**c, fl);
                    match cr {
                        Ok(Control::Normal(Value::Bool(true))) => {},
                        Ok(Control::Normal(Value::Bool(false))) => {
                            return Ok(Control::Normal(Value::Int(0)));
                        },
                        Ok(Control::Normal(_)) => {
                            return Err(
                                Halt::Fault(String::from_str("Condition must be bool.")),
                            );
                        },
                        Ok(Control::Returning(v)) => {
                            return Ok(Control::Returning(v));
                        },
                        Err(h) => {
                            return Err(h);
                        },
                    }
                    let br = self.execute(&**b, fl);
                    match br {
                        Ok(Control::Normal(_)) => {},
                        Ok(Control::Returning(v)) => {
                            return Ok(Control::Returning(v));
                        },
                        Err(h) => {
                            return Err(h);
                        },
                    }
                    if fl == 0 {
                        return Err(Halt::OutOfSteps);
                    }
                    fl = fl - 1;
                }
            },
            AstNode::For(_name, init, c, inc, b) => {
                match self.execute(&**init, fuel) {
                    Ok(Control::Normal(_)) => {},
                    Ok(Control::Returning(v)) => {
                        return Ok(Control::Returning(v));
                    },
                    Err(h) => {
                        return Err(h);
                    },
                }
                let ghost cv = ast_view(*(*c));
                let ghost iv = ast_view(*(*inc));
                let ghost bv = ast_view(*(*b));
                let ghost stm = self@;
                let mut fl = fuel;
                loop
                    invariant
                        fl <= fuel,
                        eval_for(cv, iv, bv, stm, fuel as nat) == eval_for(
                            cv,
                            iv,
                            bv,
                            self@,
                            fl as nat,
                        ),
                    decreases fl,
                {
                    let cr = self.execute(&**c, fl);
                    match cr {
                        Ok(Control::Normal(Value::Bool(true))) => {},
                        Ok(Control::Normal(Value::Bool(false))) => {
                            return Ok(Control::Normal(Value::Int(0)));
                        },
                        Ok(Control::Normal(_)) => {
                            return Err(
                                Halt::Fault(String::from_str("Condition must be bool.")),
                            );
                        },
                        Ok(Control::Returning(v)) => {
                            return Ok(Control::Returning(v));
                        },
                        Err(h) => {
                            return Err(h);
                        },
                    }
                    match self.execute(&**b, fl) {
                        Ok(Control::Normal(_)) => {},
                        Ok(Control::Returning(v)) => {
                            return Ok(Control::Returning(v));
                        },
                        Err(h) => {
                            return Err(h);
                        },
                    }
                    match self.execute(&**inc, fl) {
                        Ok(Control::Normal(_)) => {},
                        Ok(Control::Returning(v)) => {
                            return Ok(Control::Returning(v));
                        },
                        Err(h) => {
                            return Err(h);
                        },
                    }
                    if fl == 0 {
                        return Err(Halt::OutOfSteps);
                    }
                    fl = fl - 1;
                }
            },
            AstNode::Return(e) => match e {
                Some(expr) => match self.execute(&**expr, fuel) {
                    Ok(Control::Normal(v)) => Ok(Control::Returning(v)),
                    Ok(Control::Returning(v)) => Ok(Control::Returning(v)),
                    Err(h) => Err(h),
                },
                None => Ok(Control::Returning(Value::Int(0))),
            },
            AstNode::Block(stmts) => {
                let ghost sv = asts_view(stmts@);
                let ghost stb = self@;
                proof {
                    lemma_asts_view(stmts@);
                    assert(sv.skip(0) =~= sv);
                }
                let mut last = Value::Int(0);
                let mut i: usize = 0;
                while i < stmts.len()
                    invariant
                        0 <= i <= stmts@.len(),
                        eval_block(sv, ValueV::Int(0), stb, fuel as nat) == eval_block(
                            sv.skip(i as int),
                            last@,
                            self@,
                            fuel as nat,
                        ),
                    decreases stmts@.len() - i,
                {
                    proof {
                        lemma_sizes_index(sv, i as int);
                        assert(sv.skip(i as int)[0] == sv[i as int]);
                        assert(sv.skip(i as int).drop_first() =~= sv.skip(i as int + 1));
                    }
                    match self.execute(&stmts[i], fuel) {
                        Ok(Control::Normal(v)) => {
                            last = v;
                        },
                        Ok(Control::Returning(v)) => {
                            return Ok(Control::Returning(v));
                        },
                        Err(h) => {
                            return Err(h);
                        },
                    }
                    i += 1;
                }
                proof {
                    assert(sv.skip(sv.len() as int) =~= Seq::<crate::ast::AstV>::empty());
                }
                Ok(Control::Normal(last))
            },
            AstNode::Write(e) => {
                let v = match self.execute(&**e, fuel) {
                    Ok(Control::Normal(v)) => v,
                    Ok(Control::Returning(v)) => {
                        return Ok(Control::Returning(v));
                    },
                    Err(h) => {
                        return Err(h);
                    },
                };
                let ghost preout = self.output@;
                let line = render_value(&v);
                self.output.push(line);
                proof {
                    assert(strings_view(self.output@) =~= strings_view(preout).push(
                        render(v@),
                    ));
                }
                Ok(Control::Normal(Value::Int(0)))
            },
            AstNode::ArrayLiteral(elems) => {
                let ghost ev = asts_view(elems@);
                let ghost stb = self@;
                proof {
                    lemma_asts_view(elems@);
                    crate::eval::lemma_list_extend_empty(
                        eval_list(ev, stb, fuel as nat),
                    );
                    assert(ev.skip(0) =~= ev);
                    assert(values_view(Seq::<Value>::empty()) =~= Seq::<ValueV>::empty());
                }
                let mut vals: Vec<Value> = Vec::new();
                let mut i: usize = 0;
                while i < elems.len()
                    invariant
                        0 <= i <= elems@.len(),
                        eval_list(ev, stb, fuel as nat) == list_extend(
                            values_view(vals@),
                            eval_list(ev.skip(i as int), self@, fuel as nat),
                        ),
                    decreases elems@.len() - i,
                {
                    proof {
                        lemma_sizes_index(ev, i as int);
                        assert(ev.skip(i as int)[0] == ev[i as int]);
                    }
                    let ghost stpre = self@;
                    match self.execute(&elems[i], fuel) {
                        Ok(Control::Normal(v)) => {
                            let ghost vv = v@;
                            let ghost prevals = vals@;
                            vals.push(v);
                            proof {
                                assert(ev.skip(i as int).drop_first() =~= ev.skip(
                                    i as int + 1,
                                ));
                                lemma_eval_list_step(
                                    ev.skip(i as int),
                                    stpre,
                                    fuel as nat,
                                    vv,
                                    self@,
                                );
                                lemma_list_extend_compose(
                                    values_view(prevals),
                                    seq![vv],
                                    eval_list(ev.skip(i as int + 1), self@, fuel as nat),
                                );
                                lemma_values_view_push(prevals, vals@[vals@.len() - 1]);
                                assert(values_view(prevals) + seq![vv] =~= values_view(
                                    vals@,
                                ));
                            }
                            i += 1;
                        },
                        Ok(Control::Returning(v)) => {
                            return Ok(Control::Returning(v));
                        },
                        Err(h) => {
                            return Err(h);
                        },
                    }
                }
                proof {
                    assert(ev.skip(ev.len() as int) =~= Seq::<crate::ast::AstV>::empty());
                    assert(values_view(vals@) + Seq::<ValueV>::empty() =~= values_view(
                        vals@,
                    ));
                }
                Ok(Control::Normal(Value::Array(vals)))
            },
            AstNode::Index(a, idx) => {
                let av = match self.execute(&**a, fuel) {
                    Ok(Control::Normal(v)) => v,
                    Ok(Control::Returning(v)) => {
                        return Ok(Control::Returning(v));
                    },
                    Err(h) => {
                        return Err(h);
                    },
                };
                let ivv = match self.execute(&**idx, fuel) {
                    Ok(Control::Normal(v)) => v,
                    Ok(Control::Returning(v)) => {
                        return Ok(Control::Returning(v));
                    },
                    Err(h) => {
                        return Err(h);
                    },
                };
                match apply_index(&av, &ivv) {
                    Ok(v) => Ok(Control::Normal(v)),
                    Err(m) => Err(Halt::Fault(m)),
                }
            },
        }
    }
}

} // verus!
