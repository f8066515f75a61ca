//! Runtime values of the interpreter, and the human-readable rendering that
//! `write` emits.
//!
//! Rendering is exact: integers print in decimal, booleans as `true`/`false`,
//! strings as their text, floats as their spelling, arrays in brackets with
//! comma-separated elements.
use crate::ast::{FloatLit, FloatV};
use crate::tokenizer::string_from_chars;
use vstd::prelude::*;
use vstd::string::StrSliceExecFns;

verus! {

/// A runtime value. Values are produced fresh by evaluation; arrays are
/// copied on read, so values never alias.
#[derive(Debug, PartialEq)]
pub enum Value {
    Int(i64),
    Float(FloatLit),
    Bool(bool),
    String(String),
    Array(Vec<Value>),
}

/// The mathematical image of a runtime value.
pub enum ValueV {
    Int(i64),
    Float(FloatV),
    Bool(bool),
    String(Seq<char>),
    Array(Seq<ValueV>),
}

/// The image of a value.
pub open spec fn value_view(v: Value) -> ValueV
    decreases v,
{
    match v {
        Value::Int(i) => ValueV::Int(i),
        Value::Float(f) => ValueV::Float(f@),
        Value::Bool(b) => ValueV::Bool(b),
        Value::String(s) => ValueV::String(s@),
        Value::Array(vs) => ValueV::Array(values_view(vs@)),
    }
}

/// The images of a sequence of values, in order.
pub open spec fn values_view(s: Seq<Value>) -> Seq<ValueV>
    decreases s,
{
    if s.len() == 0 {
        Seq::empty()
    } else {
        seq![value_view(s[0])] + values_view(s.drop_first())
    }
}

impl View for Value {
    type V = ValueV;

    open spec fn view(&self) -> ValueV {
        value_view(*self)
    }
}

/// `values_view` maps the view over the sequence pointwise.
pub proof fn lemma_values_view(s: Seq<Value>)
    ensures
        values_view(s).len() == s.len(),
        forall|i: int| 0 <= i < s.len() ==> values_view(s)[i] == value_view(s[i]),
    decreases s,
{
    if s.len() > 0 {
        lemma_values_view(s.drop_first());
    }
}

/// Views distribute over `push`.
pub proof fn lemma_values_view_push(s: Seq<Value>, v: Value)
    ensures
        values_view(s.push(v)) == values_view(s).push(value_view(v)),
{
    lemma_values_view(s);
    lemma_values_view(s.push(v));
    assert(values_view(s.push(v)) =~= values_view(s).push(value_view(v)));
}

/// A deep copy of a value, equal to the original in its image.
#[verifier::loop_isolation(false)]
pub fn clone_value(v: &Value) -> (r: Value)
    ensures
        r@ == v@,
    decreases v,
{
    match v {
        Value::Int(i) => Value::Int(*i),
        Value::Float(f) => Value::Float(FloatLit { neg: f.neg, digits: f.digits.clone() }),
        Value::Bool(b) => Value::Bool(*b),
        Value::String(s) => Value::String(s.clone()),
        Value::Array(vs) => {
            let mut out: Vec<Value> = Vec::new();
            let mut i: usize = 0;
            while i < vs.len()
                invariant
                    0 <= i <= vs@.len(),
                    values_view(out@) == values_view(vs@.subrange(0, i as int)),
                    out@.len() == i,
                decreases vs@.len() - i,
            {
                let ghost pre = out@;
                proof {
                    assert(decreases_to!(*v => *vs));
                    assert(decreases_to!(*vs => vs@));
                    assert(decreases_to!(vs@ => vs@[i as int]));
                    assert(decreases_to!(*v => vs@[i as int]));
                }
                out.push(clone_value(&vs[i]));
                proof {
                    lemma_values_view_push(pre, out@[out@.len() - 1]);
                    lemma_values_view_push(
                        vs@.subrange(0, i as int),
                        vs@[i as int],
                    );
                    assert(vs@.subrange(0, i as int).push(vs@[i as int]) =~= vs@.subrange(
                        0,
                        i + 1,
                    ));
                }
                i += 1;
            }
            proof {
                assert(vs@.subrange(0, vs@.len() as int) =~= vs@);
            }
            Value::Array(out)
        },
    }
}

/// The decimal digit character for `d` (0 through 9).
pub open spec fn digit_of(d: nat) -> char {
    ((d + 48) as u8) as char
}

/// The decimal spelling of a natural number, most significant digit first.
pub open spec fn dec_u64(n: nat) -> Seq<char>
    decreases n,
{
    if n < 10 {
        seq![digit_of(n)]
    } else {
        dec_u64(n / 10).push(digit_of(n % 10))
    }
}

/// The decimal spelling of a signed integer.
pub open spec fn dec_i64(i: i64) -> Seq<char> {
    if i < 0 {
        seq!['-'] + dec_u64((-(i as int)) as nat)
    } else {
        dec_u64(i as nat)
    }
}

/// The human-readable rendering of a value, as `write` emits it.
pub open spec fn render(v: ValueV) -> Seq<char>
    decreases v, 0int,
{
    match v {
        ValueV::Int(i) => dec_i64(i),
        ValueV::Float(f) => if f.neg {
            seq!['-'] + f.digits
        } else {
            f.digits
        },
        ValueV::Bool(b) => if b {
            "true"@
        } else {
            "false"@
        },
        ValueV::String(s) => s,
        ValueV::Array(vs) => seq!['['] + render_items(vs, 0) + seq![']'],
    }
}

/// The renderings of `vs[i..]`, separated by `", "`.
pub open spec fn render_items(vs: Seq<ValueV>, i: nat) -> Seq<char>
    decreases vs, vs.len() - i,
{
    if i >= vs.len() {
        Seq::empty()
    } else if i + 1 == vs.len() {
        render(vs[i as int])
    } else {
        render(vs[i as int]) + ", "@ + render_items(vs, i + 1)
    }
}

/// Appends the characters of `s` to `out`.
fn push_str_chars(s: &str, out: &mut Vec<char>)
    ensures
        final(out)@ == old(out)@ + s@,
{
    let n = s.unicode_len();
    let mut i: usize = 0;
    while i < n
        invariant
            0 <= i <= n,
            n == s@.len(),
            out@ == old(out)@ + s@.subrange(0, i as int),
        decreases n - i,
    {
        out.push(s.get_char(i));
        proof {
            assert(old(out)@ + s@.subrange(0, i + 1) =~= (old(out)@ + s@.subrange(
                0,
                i as int,
            )).push(s@[i as int]));
        }
        i += 1;
    }
    proof {
        assert(s@.subrange(0, s@.len() as int) =~= s@);
    }
}

/// Appends the decimal spelling of `n` to `out`.
fn push_u64_dec(n: u64, out: &mut Vec<char>)
    ensures
        final(out)@ == old(out)@ + dec_u64(n as nat),
    decreases n,
{
    if n < 10 {
        out.push((48 + n as u8) as char);
        proof {
            assert(out@ =~= old(out)@ + seq![digit_of(n as nat)]);
        }
    } else {
        push_u64_dec(n / 10, out);
        out.push((48 + (n % 10) as u8) as char);
        proof {
            assert(out@ =~= old(out)@ + dec_u64((n / 10) as nat).push(
                digit_of((n % 10) as nat),
            ));
            assert((n / 10) as nat == (n as nat) / 10);
            assert((n % 10) as nat == (n as nat) % 10);
        }
    }
}

/// Appends the rendering of `v` to `out`.
#[verifier::loop_isolation(false)]
fn push_render(v: &Value, out: &mut Vec<char>)
    ensures
        final(out)@ == old(out)@ + render(v@),
    decreases v, 1int,
{
    match v {
        Value::Int(i) => {
            if *i >= 0 {
                push_u64_dec(*i as u64, out);
            } else {
                out.push('-');
                let mag = (-(*i as i128)) as u64;
                push_u64_dec(mag, out);
                proof {
                    assert(out@ =~= old(out)@ + (seq!['-'] + dec_u64(mag as nat)));
                }
            }
        },
        Value::Float(f) => {
            if f.neg {
                out.push('-');
            }
            push_str_chars(f.digits.as_str(), out);
            proof {
                if f.neg {
                    assert(out@ =~= old(out)@ + (seq!['-'] + f.digits@));
                }
            }
        },
        Value::Bool(b) => {
            if *b {
                push_str_chars("true", out);
            } else {
                push_str_chars("false", out);
            }
        },
        Value::String(s) => {
            push_str_chars(s.as_str(), out);
        },
        Value::Array(vs) => {
            out.push('[');
            let ghost base = out@;
            let ghost vsv = values_view(vs@);
            proof {
                lemma_values_view(vs@);
            }
            let mut i: usize = 0;
            while i < vs.len()
                invariant
                    0 <= i <= vs@.len(),
                    vsv == values_view(vs@),
                    vsv.len() == vs@.len(),
                    forall|t: int| 0 <= t < vs@.len() ==> vsv[t] == value_view(vs@[t]),
                    base == old(out)@ + seq!['['],
                    out@.len() >= base.len(),
                    out@.subrange(0, base.len() as int) == base,
                    render_items(vsv, 0) == out@.skip(base.len() as int) + render_items(
                        vsv,
                        i as nat,
                    ),
                decreases vs@.len() - i,
            {
                let ghost pre = out@;
                proof {
                    assert(decreases_to!(*v => *vs));
                    assert(decreases_to!(*vs => vs@));
                    assert(decreases_to!(vs@ => vs@[i as int]));
                    assert(decreases_to!(*v => vs@[i as int]));
                }
                push_render(&vs[i], out);
                if i + 1 < vs.len() {
                    out.push(',');
                    out.push(' ');
                    proof {
                        reveal_strlit(", ");
                        assert(out@ =~= pre + (render(vsv[i as int]) + ", "@));
                        assert(out@.skip(base.len() as int) =~= pre.skip(base.len() as int)
                            + (render(vsv[i as int]) + ", "@));
                        assert(render_items(vsv, i as nat) == render(vsv[i as int]) + ", "@
                            + render_items(vsv, (i + 1) as nat));
                        assert(out@.skip(base.len() as int) + render_items(vsv, (i + 1) as nat)
                            =~= pre.skip(base.len() as int) + render_items(vsv, i as nat));
                        assert(out@.subrange(0, base.len() as int) =~= base);
                    }
                } else {
                    proof {
                        assert(out@ =~= pre + render(vsv[i as int]));
                        assert(out@.skip(base.len() as int) =~= pre.skip(base.len() as int)
                            + render(vsv[i as int]));
                        assert(render_items(vsv, i as nat) == render(vsv[i as int]));
                        assert(render_items(vsv, (i + 1) as nat) =~= Seq::<char>::empty());
                        assert(out@.skip(base.len() as int) + render_items(vsv, (i + 1) as nat)
                            =~= pre.skip(base.len() as int) + render_items(vsv, i as nat));
                        assert(out@.subrange(0, base.len() as int) =~= base);
                    }
                }
                i += 1;
            }
            let ghost pre2 = out@;
            out.push(']');
            proof {
                assert(render_items(vsv, vs@.len() as nat) =~= Seq::<char>::empty());
                assert(render_items(vsv, 0) =~= pre2.skip(base.len() as int));
                assert(pre2 =~= base + pre2.skip(base.len() as int));
                assert(out@ =~= old(out)@ + (seq!['['] + render_items(vsv, 0) + seq![']']));
            }
        },
    }
}

/// The rendering of a value as a string, exactly `render` of its image.
pub fn render_value(v: &Value) -> (r: String)
    ensures
        r@ == render(v@),
{
    let mut out: Vec<char> = Vec::new();
    push_render(v, &mut out);
    string_from_chars(&out)
}

} // verus!
