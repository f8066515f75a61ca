//! The AST and type vocabulary shared by the interpreter and the code
//! generator, together with the mathematical image (`view`) of every node.
//!
//! Float literals are carried as their spelling (sign and digit text): the
//! pipeline only stores and prints them, it never computes with them.
use vstd::prelude::*;

verus! {

/// Declared types of the source language: the closed set the parser accepts
/// for parameter, variable and return annotations.
#[derive(Debug, PartialEq)]
pub enum ViraType {
    Int,
    Float,
    Bool,
    String,
    Array(Box<ViraType>),
}

/// The mathematical image of a `ViraType`.
pub enum TypeV {
    Int,
    Float,
    Bool,
    String,
    Array(Box<TypeV>),
}

/// A name together with its declared type.
#[derive(Debug, PartialEq)]
pub struct Variable {
    pub name: String,
    pub typ: ViraType,
}

/// A float literal as spelled in the source: an optional leading minus
/// (introduced only by unary negation) and the digit text, a run of digits
/// with at most one interior dot.
#[derive(Debug, PartialEq)]
pub struct FloatLit {
    pub neg: bool,
    pub digits: String,
}

/// The mathematical image of a `FloatLit`.
pub struct FloatV {
    pub neg: bool,
    pub digits: Seq<char>,
}

impl View for FloatLit {
    type V = FloatV;

    open spec fn view(&self) -> FloatV {
        FloatV { neg: self.neg, digits: self.digits@ }
    }
}

/// Binary operators.
#[derive(Debug, Clone, Copy, PartialEq, Eq, Structural)]
pub enum BinOp {
    Add,
    Sub,
    Mul,
    Div,
    Mod,
    Eq,
    Neq,
    Lt,
    Gt,
    Le,
    Ge,
    And,
    Or,
}

/// Unary operators.
#[derive(Debug, Clone, Copy, PartialEq, Eq, Structural)]
pub enum UnaryOp {
    Neg,
    Not,
}

/// A node of the abstract syntax tree. Each node exclusively owns its
/// children: the tree is never cyclic.
#[derive(Debug, PartialEq)]
pub enum AstNode {
    Literal(i64),
    FloatLiteral(FloatLit),
    BoolLiteral(bool),
    StringLiteral(String),
    Binary(Box<AstNode>, BinOp, Box<AstNode>),
    Unary(UnaryOp, Box<AstNode>),
    VarDecl(String, ViraType, Box<AstNode>),
    VarRef(String),
    FuncDecl(String, Vec<(String, ViraType)>, ViraType, Box<AstNode>),
    Call(String, Vec<AstNode>),
    If(Box<AstNode>, Box<AstNode>, Option<Box<AstNode>>),
    While(Box<AstNode>, Box<AstNode>),
    For(String, Box<AstNode>, Box<AstNode>, Box<AstNode>, Box<AstNode>),
    Return(Option<Box<AstNode>>),
    Block(Vec<AstNode>),
    Write(Box<AstNode>),
    ArrayLiteral(Vec<AstNode>),
    Index(Box<AstNode>, Box<AstNode>),
}

/// The mathematical image of an `AstNode`: the same shape over sequences.
pub enum AstV {
    Literal(i64),
    FloatLiteral(FloatV),
    BoolLiteral(bool),
    StringLiteral(Seq<char>),
    Binary(Box<AstV>, BinOp, Box<AstV>),
    Unary(UnaryOp, Box<AstV>),
    VarDecl(Seq<char>, TypeV, Box<AstV>),
    VarRef(Seq<char>),
    FuncDecl(Seq<char>, Seq<(Seq<char>, TypeV)>, TypeV, Box<AstV>),
    Call(Seq<char>, Seq<AstV>),
    If(Box<AstV>, Box<AstV>, Option<Box<AstV>>),
    While(Box<AstV>, Box<AstV>),
    For(Seq<char>, Box<AstV>, Box<AstV>, Box<AstV>, Box<AstV>),
    Return(Option<Box<AstV>>),
    Block(Seq<AstV>),
    Write(Box<AstV>),
    ArrayLiteral(Seq<AstV>),
    Index(Box<AstV>, Box<AstV>),
}

/// The image of a declared type.
pub open spec fn type_view(t: ViraType) -> TypeV
    decreases t,
{
    match t {
        ViraType::Int => TypeV::Int,
        ViraType::Float => TypeV::Float,
        ViraType::Bool => TypeV::Bool,
        ViraType::String => TypeV::String,
        ViraType::Array(inner) => TypeV::Array(Box::new(type_view(*inner))),
    }
}

impl View for ViraType {
    type V = TypeV;

    open spec fn view(&self) -> TypeV {
        type_view(*self)
    }
}

/// The image of a typed parameter list.
pub open spec fn params_view(ps: Seq<(String, ViraType)>) -> Seq<(Seq<char>, TypeV)> {
    ps.map_values(|p: (String, ViraType)| (p.0@, type_view(p.1)))
}

/// The image of an AST node.
pub open spec fn ast_view(n: AstNode) -> AstV
    decreases n,
{
    match n {
        AstNode::Literal(v) => AstV::Literal(v),
        AstNode::FloatLiteral(f) => AstV::FloatLiteral(f@),
        AstNode::BoolLiteral(b) => AstV::BoolLiteral(b),
        AstNode::StringLiteral(s) => AstV::StringLiteral(s@),
        AstNode::Binary(l, op, r) => AstV::Binary(
            Box::new(ast_view(*l)),
            op,
            Box::new(ast_view(*r)),
        ),
        AstNode::Unary(op, e) => AstV::Unary(op, Box::new(ast_view(*e))),
        AstNode::VarDecl(name, t, init) => AstV::VarDecl(
            name@,
            type_view(t),
            Box::new(ast_view(*init)),
        ),
        AstNode::VarRef(name) => AstV::VarRef(name@),
        AstNode::FuncDecl(name, params, ret, body) => AstV::FuncDecl(
            name@,
            params_view(params@),
            type_view(ret),
            Box::new(ast_view(*body)),
        ),
        AstNode::Call(name, args) => AstV::Call(name@, asts_view(args@)),
        AstNode::If(c, t, e) => AstV::If(
            Box::new(ast_view(*c)),
            Box::new(ast_view(*t)),
            match e {
                Some(els) => Some(Box::new(ast_view(*els))),
                None => None,
            },
        ),
        AstNode::While(c, b) => AstV::While(Box::new(ast_view(*c)), Box::new(ast_view(*b))),
        AstNode::For(name, init, cond, incr, body) => AstV::For(
            name@,
            Box::new(ast_view(*init)),
            Box::new(ast_view(*cond)),
            Box::new(ast_view(*incr)),
            Box::new(ast_view(*body)),
        ),
        AstNode::Return(e) => AstV::Return(
            match e {
                Some(expr) => Some(Box::new(ast_view(*expr))),
                None => None,
            },
        ),
        AstNode::Block(stmts) => AstV::Block(asts_view(stmts@)),
        AstNode::Write(e) => AstV::Write(Box::new(ast_view(*e))),
        AstNode::ArrayLiteral(elems) => AstV::ArrayLiteral(asts_view(elems@)),
        AstNode::Index(a, i) => AstV::Index(Box::new(ast_view(*a)), Box::new(ast_view(*i))),
    }
}

/// The images of a sequence of AST nodes, in order.
pub open spec fn asts_view(s: Seq<AstNode>) -> Seq<AstV>
    decreases s,
{
    if s.len() == 0 {
        Seq::empty()
    } else {
        seq![ast_view(s[0])] + asts_view(s.drop_first())
    }
}

impl View for AstNode {
    type V = AstV;

    open spec fn view(&self) -> AstV {
        ast_view(*self)
    }
}

/// `asts_view` maps the view over the sequence pointwise.
pub proof fn lemma_asts_view(s: Seq<AstNode>)
    ensures
        asts_view(s).len() == s.len(),
        forall|i: int| 0 <= i < s.len() ==> asts_view(s)[i] == ast_view(s[i]),
    decreases s,
{
    if s.len() > 0 {
        lemma_asts_view(s.drop_first());
    }
}

/// Views distribute over `push`.
pub proof fn lemma_asts_view_push(s: Seq<AstNode>, n: AstNode)
    ensures
        asts_view(s.push(n)) == asts_view(s).push(ast_view(n)),
    decreases s,
{
    lemma_asts_view(s);
    lemma_asts_view(s.push(n));
    assert(asts_view(s.push(n)) =~= asts_view(s).push(ast_view(n)));
}

/// A deep copy of a declared type, equal in its image.
pub fn clone_type(t: &ViraType) -> (r: ViraType)
    ensures
        r@ == t@,
    decreases t,
{
    match t {
        ViraType::Int => ViraType::Int,
        ViraType::Float => ViraType::Float,
        ViraType::Bool => ViraType::Bool,
        ViraType::String => ViraType::String,
        ViraType::Array(inner) => ViraType::Array(Box::new(clone_type(&**inner))),
    }
}

/// A deep copy of a typed parameter list, equal in its image.
pub fn clone_params(ps: &Vec<(String, ViraType)>) -> (r: Vec<(String, ViraType)>)
    ensures
        params_view(r@) == params_view(ps@),
{
    let mut out: Vec<(String, ViraType)> = Vec::new();
    let mut i: usize = 0;
    while i < ps.len()
        invariant
            0 <= i <= ps@.len(),
            params_view(out@) == params_view(ps@.subrange(0, i as int)),
        decreases ps@.len() - i,
    {
        let ghost pre = out@;
        out.push((ps[i].0.clone(), clone_type(&ps[i].1)));
        proof {
            assert(params_view(out@) =~= params_view(pre).push(
                (ps@[i as int].0@, type_view(ps@[i as int].1)),
            ));
            assert(params_view(ps@.subrange(0, i + 1)) =~= params_view(
                ps@.subrange(0, i as int),
            ).push((ps@[i as int].0@, type_view(ps@[i as int].1))));
        }
        i += 1;
    }
    proof {
        assert(ps@.subrange(0, ps@.len() as int) =~= ps@);
    }
    out
}

/// A deep copy of a node sequence, equal in its image.
#[verifier::loop_isolation(false)]
pub fn clone_nodes(ns: &Vec<AstNode>) -> (r: Vec<AstNode>)
    ensures
        asts_view(r@) == asts_view(ns@),
    decreases ns,
{
    let mut out: Vec<AstNode> = Vec::new();
    let mut i: usize = 0;
    while i < ns.len()
        invariant
            0 <= i <= ns@.len(),
            asts_view(out@) == asts_view(ns@.subrange(0, i as int)),
        decreases ns@.len() - i,
    {
        let ghost pre = out@;
        proof {
            assert(decreases_to!(*ns => ns@));
            assert(decreases_to!(ns@ => ns@[i as int]));
        }
        out.push(clone_node(&ns[i]));
        proof {
            lemma_asts_view_push(pre, out@[out@.len() - 1]);
            lemma_asts_view_push(ns@.subrange(0, i as int), ns@[i as int]);
            assert(ns@.subrange(0, i as int).push(ns@[i as int]) =~= ns@.subrange(0, i + 1));
        }
        i += 1;
    }
    proof {
        assert(ns@.subrange(0, ns@.len() as int) =~= ns@);
    }
    out
}

/// A deep copy of an AST node, equal in its image.
pub fn clone_node(n: &AstNode) -> (r: AstNode)
    ensures
        r@ == n@,
    decreases n,
{
    match n {
        AstNode::Literal(v) => AstNode::Literal(*v),
        AstNode::FloatLiteral(f) => AstNode::FloatLiteral(
            FloatLit { neg: f.neg, digits: f.digits.clone() },
        ),
        AstNode::BoolLiteral(b) => AstNode::BoolLiteral(*b),
        AstNode::StringLiteral(s) => AstNode::StringLiteral(s.clone()),
        AstNode::Binary(l, op, r) => AstNode::Binary(
            Box::new(clone_node(&**l)),
            *op,
            Box::new(clone_node(&**r)),
        ),
        AstNode::Unary(op, e) => AstNode::Unary(*op, Box::new(clone_node(&**e))),
        AstNode::VarDecl(name, t, init) => AstNode::VarDecl(
            name.clone(),
            clone_type(t),
            Box::new(clone_node(&**init)),
        ),
        AstNode::VarRef(name) => AstNode::VarRef(name.clone()),
        AstNode::FuncDecl(name, params, ret, body) => AstNode::FuncDecl(
            name.clone(),
            clone_params(params),
            clone_type(ret),
            Box::new(clone_node(&**body)),
        ),
        AstNode::Call(name, args) => AstNode::Call(name.clone(), clone_nodes(args)),
        AstNode::If(c, t, e) => AstNode::If(
            Box::new(clone_node(&**c)),
            Box::new(clone_node(&**t)),
            match e {
                Some(els) => Some(Box::new(clone_node(&**els))),
                None => None,
            },
        ),
        AstNode::While(c, b) => AstNode::While(
            Box::new(clone_node(&**c)),
            Box::new(clone_node(&**b)),
        ),
        AstNode::For(name, init, cond, incr, body) => AstNode::For(
            name.clone(),
            Box::new(clone_node(&**init)),
            Box::new(clone_node(&**cond)),
            Box::new(clone_node(&**incr)),
            Box::new(clone_node(&**body)),
        ),
        AstNode::Return(e) => AstNode::Return(
            match e {
                Some(expr) => Some(Box::new(clone_node(&**expr))),
                None => None,
            },
        ),
        AstNode::Block(stmts) => AstNode::Block(clone_nodes(stmts)),
        AstNode::Write(e) => AstNode::Write(Box::new(clone_node(&**e))),
        AstNode::ArrayLiteral(elems) => AstNode::ArrayLiteral(clone_nodes(elems)),
        AstNode::Index(a, i) => AstNode::Index(
            Box::new(clone_node(&**a)),
            Box::new(clone_node(&**i)),
        ),
    }
}

/// Views distribute over prepending (insertion at the front).
pub proof fn lemma_asts_view_prepend(s: Seq<AstNode>, n: AstNode)
    ensures
        asts_view(s.insert(0, n)) == seq![ast_view(n)] + asts_view(s),
{
    assert(s.insert(0, n) =~= seq![n] + s);
    assert((seq![n] + s)[0] == n);
    assert((seq![n] + s).drop_first() =~= s);
    assert(asts_view(seq![n] + s) == seq![ast_view(n)] + asts_view(s));
}

/// Parameter views distribute over prepending.
pub proof fn lemma_params_view_prepend(ps: Seq<(String, ViraType)>, p: (String, ViraType))
    ensures
        params_view(ps.insert(0, p)) == seq![(p.0@, type_view(p.1))] + params_view(ps),
{
    assert(params_view(ps.insert(0, p)) =~= seq![(p.0@, type_view(p.1))] + params_view(ps));
}

} // verus!
