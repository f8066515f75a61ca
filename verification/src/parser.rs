//! Recursive-descent parser: consumes tokens and builds the AST with
//! explicit precedence levels, failing with a descriptive message at the
//! first unexpected token (no recovery).
//!
//! The grammar is written out once as spec functions (`sp_*`) over token
//! images; every parser method is proved to return exactly what its spec
//! function says. The spec functions carry a step budget so that their
//! recursion is well founded on any token sequence; the parser runs with
//! the `PARSE_FUEL` budget, which no input of practical size exhausts, and
//! reports a budget error otherwise.
//!
//! Precedence, lowest first: `||`, `&&`, equality, comparison, additive,
//! multiplicative, unary, postfix/primary. All binary levels associate to
//! the left. Blocks accept `[...]` or `{...}`; the bracket form is told
//! apart from array literals purely by position (statement or expression),
//! and a `[` straight after an expression is claimed by the index postfix,
//! so a block that follows an expression (a loop body, say) is written with
//! braces.
use crate::ast::{AstNode, AstV, BinOp, FloatLit, FloatV, TypeV, UnaryOp, ViraType, ast_view,
    asts_view, lemma_asts_view, params_view, type_view};
use crate::token::{Token, TokenType, TokenV, copy_token, tokens_view};
use crate::tokenizer::is_digit_char;
use vstd::prelude::*;
use vstd::string::StrSliceExecFns;
use vstd::string::StringExecFns;

verus! {

/// The parser's step budget. Parsing consumes at least one token for every
/// handful of steps, so only an input of astronomically many tokens could
/// exhaust it; such an input is answered with a budget error, never with a
/// wrong parse.
pub const PARSE_FUEL: u64 = u64::MAX;

/// The outcome of one grammar rule: a parse with the position after it, a
/// failure with its message, or the step budget ran out.
pub enum PRes<T> {
    Parsed(T, nat),
    Fail(Seq<char>),
    Out,
}

/// The token at `pos`, or `Eof` past the end.
pub open spec fn peek_t(toks: Seq<TokenV>, pos: nat) -> TokenV {
    if pos < toks.len() {
        toks[pos as int]
    } else {
        TokenV { typ: TokenType::Eof, lexeme: Seq::empty() }
    }
}

/// Whether the scan position stands on the end-of-input token.
pub open spec fn at_end(toks: Seq<TokenV>, pos: nat) -> bool {
    peek_t(toks, pos).typ == TokenType::Eof
}

/// Whether the current token has type `t` (never true at the end).
pub open spec fn spec_check(toks: Seq<TokenV>, pos: nat, t: TokenType) -> bool {
    if at_end(toks, pos) {
        false
    } else {
        peek_t(toks, pos).typ == t
    }
}

/// Whether some token is `Eof`: what the parser needs of its input to walk
/// it safely. The tokenizer always ends its output with `Eof`.
pub open spec fn has_eof(toks: Seq<TokenV>) -> bool {
    exists|k: int| 0 <= k < toks.len() && toks[k].typ == TokenType::Eof
}

/// The numeric value of `c` as a decimal digit, zero if it is none.
pub open spec fn char_digit(c: char) -> nat {
    if is_digit_char(c) {
        (c as u32 - 48) as nat
    } else {
        0
    }
}

/// The value of a digit string read in base ten.
pub open spec fn digits_value(s: Seq<char>) -> nat
    decreases s,
{
    if s.len() == 0 {
        0
    } else {
        digits_value(s.drop_last()) * 10 + char_digit(s.last())
    }
}

/// All characters are decimal digits.
pub open spec fn all_digits(s: Seq<char>) -> bool {
    forall|i: int| 0 <= i < s.len() ==> is_digit_char(s[i])
}

/// An integer literal lexeme parses to its value when it is a nonempty
/// digit string whose value fits in an `i64`; anything else is rejected.
pub open spec fn parse_int_opt(s: Seq<char>) -> Option<i64> {
    if s.len() >= 1 && all_digits(s) && digits_value(s) <= i64::MAX {
        Some(digits_value(s) as i64)
    } else {
        None
    }
}

/// The number of `'.'` characters in the lexeme.
pub open spec fn dot_count(s: Seq<char>) -> nat
    decreases s,
{
    if s.len() == 0 {
        0
    } else {
        dot_count(s.drop_last()) + if s.last() == '.' {
            1nat
        } else {
            0nat
        }
    }
}

/// A float literal lexeme: a run of digits, starting with a digit, with at
/// most one interior `'.'`.
pub open spec fn valid_float(s: Seq<char>) -> bool {
    &&& s.len() >= 1
    &&& is_digit_char(s[0])
    &&& forall|i: int| 0 <= i < s.len() ==> is_digit_char(s[i]) || s[i] == '.'
    &&& dot_count(s) <= 1
}

/// `statement := funcDecl | varDecl | ifStmt | whileStmt | forStmt
///             | returnStmt | writeStmt | block | exprStmt`
pub open spec fn sp_statement(toks: Seq<TokenV>, pos: nat, fuel: nat) -> PRes<AstV>
    decreases fuel, 7int, 0int,
{
    if fuel == 0 {
        PRes::Out
    } else if spec_check(toks, pos, TokenType::Func) {
        sp_func_decl(toks, pos + 1, (fuel - 1) as nat)
    } else if spec_check(toks, pos, TokenType::Let) {
        sp_var_decl(toks, pos + 1, (fuel - 1) as nat)
    } else if spec_check(toks, pos, TokenType::If) {
        sp_if_stmt(toks, pos + 1, (fuel - 1) as nat)
    } else if spec_check(toks, pos, TokenType::While) {
        sp_while_stmt(toks, pos + 1, (fuel - 1) as nat)
    } else if spec_check(toks, pos, TokenType::For) {
        sp_for_stmt(toks, pos + 1, (fuel - 1) as nat)
    } else if spec_check(toks, pos, TokenType::Return) {
        sp_return_stmt(toks, pos + 1, (fuel - 1) as nat)
    } else if spec_check(toks, pos, TokenType::Write) {
        sp_write_stmt(toks, pos + 1, (fuel - 1) as nat)
    } else if spec_check(toks, pos, TokenType::LeftBracket) || spec_check(
        toks,
        pos,
        TokenType::LeftBrace,
    ) {
        sp_block(toks, pos + 1, (fuel - 1) as nat)
    } else {
        sp_expression(toks, pos, (fuel - 1) as nat)
    }
}

/// `funcDecl := name '(' params? ')' '->' type statement`, the position
/// arriving just after the `func` keyword. The return type annotation is
/// mandatory.
pub open spec fn sp_func_decl(toks: Seq<TokenV>, pos: nat, fuel: nat) -> PRes<AstV>
    decreases fuel, 7int, 0int,
{
    if fuel == 0 {
        PRes::Out
    } else if !spec_check(toks, pos, TokenType::Identifier) {
        PRes::Fail("Expect function name."@)
    } else {
        let name = peek_t(toks, pos).lexeme;
        if !spec_check(toks, pos + 1, TokenType::LeftParen) {
            PRes::Fail("Expect '(' after name."@)
        } else {
            let p2 = pos + 2;
            let params_res = if spec_check(toks, p2, TokenType::RightParen) {
                PRes::Parsed(Seq::empty(), p2)
            } else {
                sp_params(toks, p2, (fuel - 1) as nat)
            };
            match params_res {
                PRes::Parsed(params, p3) => if !spec_check(toks, p3, TokenType::RightParen) {
                    PRes::Fail("Expect ')' after params."@)
                } else if spec_check(toks, p3 + 1, TokenType::Arrow) {
                    match sp_type(toks, p3 + 2, (fuel - 1) as nat) {
                        PRes::Parsed(ret, p4) => match sp_statement(
                            toks,
                            p4,
                            (fuel - 1) as nat,
                        ) {
                            PRes::Parsed(body, p5) => PRes::Parsed(
                                AstV::FuncDecl(name, params, ret, Box::new(body)),
                                p5,
                            ),
                            PRes::Fail(m) => PRes::Fail(m),
                            PRes::Out => PRes::Out,
                        },
                        PRes::Fail(m) => PRes::Fail(m),
                        PRes::Out => PRes::Out,
                    }
                } else {
                    PRes::Fail("Missing '->' in function declaration."@)
                },
                PRes::Fail(m) => PRes::Fail(m),
                PRes::Out => PRes::Out,
            }
        }
    }
}

/// `params := name ':' type (',' name ':' type)*`
pub open spec fn sp_params(toks: Seq<TokenV>, pos: nat, fuel: nat) -> PRes<
    Seq<(Seq<char>, TypeV)>,
>
    decreases fuel, 7int, 0int,
{
    if fuel == 0 {
        PRes::Out
    } else if !spec_check(toks, pos, TokenType::Identifier) {
        PRes::Fail("Expect param name."@)
    } else {
        let name = peek_t(toks, pos).lexeme;
        if !spec_check(toks, pos + 1, TokenType::Colon) {
            PRes::Fail("Expect ':' after param name."@)
        } else {
            match sp_type(toks, pos + 2, (fuel - 1) as nat) {
                PRes::Parsed(ty, p3) => if spec_check(toks, p3, TokenType::Comma) {
                    match sp_params(toks, p3 + 1, (fuel - 1) as nat) {
                        PRes::Parsed(rest, p4) => PRes::Parsed(seq![(name, ty)] + rest, p4),
                        PRes::Fail(m) => PRes::Fail(m),
                        PRes::Out => PRes::Out,
                    }
                } else {
                    PRes::Parsed(seq![(name, ty)], p3)
                },
                PRes::Fail(m) => PRes::Fail(m),
                PRes::Out => PRes::Out,
            }
        }
    }
}

/// `varDecl := name (':' type)? '=' expression`, the position arriving just
/// after `let`; an omitted annotation defaults to `int`.
pub open spec fn sp_var_decl(toks: Seq<TokenV>, pos: nat, fuel: nat) -> PRes<AstV>
    decreases fuel, 7int, 0int,
{
    if fuel == 0 {
        PRes::Out
    } else if !spec_check(toks, pos, TokenType::Identifier) {
        PRes::Fail("Expect variable name."@)
    } else {
        let name = peek_t(toks, pos).lexeme;
        let typ_res = if spec_check(toks, pos + 1, TokenType::Colon) {
            sp_type(toks, pos + 2, (fuel - 1) as nat)
        } else {
            PRes::Parsed(TypeV::Int, pos + 1)
        };
        match typ_res {
            PRes::Parsed(ty, p2) => if !spec_check(toks, p2, TokenType::Equals) {
                PRes::Fail("Expect '=' after variable."@)
            } else {
                match sp_expression(toks, p2 + 1, (fuel - 1) as nat) {
                    PRes::Parsed(init, p3) => PRes::Parsed(
                        AstV::VarDecl(name, ty, Box::new(init)),
                        p3,
                    ),
                    PRes::Fail(m) => PRes::Fail(m),
                    PRes::Out => PRes::Out,
                }
            },
            PRes::Fail(m) => PRes::Fail(m),
            PRes::Out => PRes::Out,
        }
    }
}

/// `ifStmt := expression statement ('else' statement)?`
pub open spec fn sp_if_stmt(toks: Seq<TokenV>, pos: nat, fuel: nat) -> PRes<AstV>
    decreases fuel, 7int, 0int,
{
    if fuel == 0 {
        PRes::Out
    } else {
        match sp_expression(toks, pos, (fuel - 1) as nat) {
            PRes::Parsed(cond, p1) => match sp_statement(toks, p1, (fuel - 1) as nat) {
                PRes::Parsed(then, p2) => if spec_check(toks, p2, TokenType::Else) {
                    match sp_statement(toks, p2 + 1, (fuel - 1) as nat) {
                        PRes::Parsed(els, p3) => PRes::Parsed(
                            AstV::If(Box::new(cond), Box::new(then), Some(Box::new(els))),
                            p3,
                        ),
                        PRes::Fail(m) => PRes::Fail(m),
                        PRes::Out => PRes::Out,
                    }
                } else {
                    PRes::Parsed(AstV::If(Box::new(cond), Box::new(then), None), p2)
                },
                PRes::Fail(m) => PRes::Fail(m),
                PRes::Out => PRes::Out,
            },
            PRes::Fail(m) => PRes::Fail(m),
            PRes::Out => PRes::Out,
        }
    }
}

/// `whileStmt := expression statement`
pub open spec fn sp_while_stmt(toks: Seq<TokenV>, pos: nat, fuel: nat) -> PRes<AstV>
    decreases fuel, 7int, 0int,
{
    if fuel == 0 {
        PRes::Out
    } else {
        match sp_expression(toks, pos, (fuel - 1) as nat) {
            PRes::Parsed(cond, p1) => match sp_statement(toks, p1, (fuel - 1) as nat) {
                PRes::Parsed(body, p2) => PRes::Parsed(
                    AstV::While(Box::new(cond), Box::new(body)),
                    p2,
                ),
                PRes::Fail(m) => PRes::Fail(m),
                PRes::Out => PRes::Out,
            },
            PRes::Fail(m) => PRes::Fail(m),
            PRes::Out => PRes::Out,
        }
    }
}

/// `forStmt := statement expression expression statement`: init, condition,
/// increment, body. No loop-variable binding syntax exists, so the name on
/// the node is always empty.
pub open spec fn sp_for_stmt(toks: Seq<TokenV>, pos: nat, fuel: nat) -> PRes<AstV>
    decreases fuel, 7int, 0int,
{
    if fuel == 0 {
        PRes::Out
    } else {
        match sp_statement(toks, pos, (fuel - 1) as nat) {
            PRes::Parsed(init, p1) => match sp_expression(toks, p1, (fuel - 1) as nat) {
                PRes::Parsed(cond, p2) => match sp_expression(toks, p2, (fuel - 1) as nat) {
                    PRes::Parsed(incr, p3) => match sp_statement(
                        toks,
                        p3,
                        (fuel - 1) as nat,
                    ) {
                        PRes::Parsed(body, p4) => PRes::Parsed(
                            AstV::For(
                                ""@,
                                Box::new(init),
                                Box::new(cond),
                                Box::new(incr),
                                Box::new(body),
                            ),
                            p4,
                        ),
                        PRes::Fail(m) => PRes::Fail(m),
                        PRes::Out => PRes::Out,
                    },
                    PRes::Fail(m) => PRes::Fail(m),
                    PRes::Out => PRes::Out,
                },
                PRes::Fail(m) => PRes::Fail(m),
                PRes::Out => PRes::Out,
            },
            PRes::Fail(m) => PRes::Fail(m),
            PRes::Out => PRes::Out,
        }
    }
}

/// `returnStmt := 'return' expression?`: the expression is present unless a
/// block closer follows directly.
pub open spec fn sp_return_stmt(toks: Seq<TokenV>, pos: nat, fuel: nat) -> PRes<AstV>
    decreases fuel, 7int, 0int,
{
    if fuel == 0 {
        PRes::Out
    } else if !spec_check(toks, pos, TokenType::RightBracket) && !spec_check(
        toks,
        pos,
        TokenType::RightBrace,
    ) {
        match sp_expression(toks, pos, (fuel - 1) as nat) {
            PRes::Parsed(e, p1) => PRes::Parsed(AstV::Return(Some(Box::new(e))), p1),
            PRes::Fail(m) => PRes::Fail(m),
            PRes::Out => PRes::Out,
        }
    } else {
        PRes::Parsed(AstV::Return(None), pos)
    }
}

/// `writeStmt := 'write' expression`
pub open spec fn sp_write_stmt(toks: Seq<TokenV>, pos: nat, fuel: nat) -> PRes<AstV>
    decreases fuel, 7int, 0int,
{
    if fuel == 0 {
        PRes::Out
    } else {
        match sp_expression(toks, pos, (fuel - 1) as nat) {
            PRes::Parsed(e, p1) => PRes::Parsed(AstV::Write(Box::new(e)), p1),
            PRes::Fail(m) => PRes::Fail(m),
            PRes::Out => PRes::Out,
        }
    }
}

/// The statements of a block, up to (not including) its closer.
pub open spec fn sp_block_items(toks: Seq<TokenV>, pos: nat, fuel: nat) -> PRes<Seq<AstV>>
    decreases fuel, 7int, 0int,
{
    if spec_check(toks, pos, TokenType::RightBracket) || spec_check(
        toks,
        pos,
        TokenType::RightBrace,
    ) || at_end(toks, pos) {
        PRes::Parsed(Seq::empty(), pos)
    } else if fuel == 0 {
        PRes::Out
    } else {
        match sp_statement(toks, pos, (fuel - 1) as nat) {
            PRes::Parsed(n, p1) => match sp_block_items(toks, p1, (fuel - 1) as nat) {
                PRes::Parsed(rest, p2) => PRes::Parsed(seq![n] + rest, p2),
                PRes::Fail(m) => PRes::Fail(m),
                PRes::Out => PRes::Out,
            },
            PRes::Fail(m) => PRes::Fail(m),
            PRes::Out => PRes::Out,
        }
    }
}

/// `block := ('[' | '{') statement* (']' | '}')`: either closer ends either
/// opener; a missing closer is reported against `'}'`.
pub open spec fn sp_block(toks: Seq<TokenV>, pos: nat, fuel: nat) -> PRes<AstV>
    decreases fuel, 7int, 0int,
{
    if fuel == 0 {
        PRes::Out
    } else {
        match sp_block_items(toks, pos, (fuel - 1) as nat) {
            PRes::Parsed(ns, p1) => if spec_check(toks, p1, TokenType::RightBracket) {
                PRes::Parsed(AstV::Block(ns), p1 + 1)
            } else if spec_check(toks, p1, TokenType::RightBrace) {
                PRes::Parsed(AstV::Block(ns), p1 + 1)
            } else {
                PRes::Fail("Expect '}' after block."@)
            },
            PRes::Fail(m) => PRes::Fail(m),
            PRes::Out => PRes::Out,
        }
    }
}

/// `expression := logicalOr`
pub open spec fn sp_expression(toks: Seq<TokenV>, pos: nat, fuel: nat) -> PRes<AstV>
    decreases fuel, 7int, 0int,
{
    if fuel == 0 {
        PRes::Out
    } else {
        sp_logical_or(toks, pos, (fuel - 1) as nat)
    }
}

/// The operator that continues binary level `lvl` (6 highest: `||`; then
/// `&&`, equality, comparison, additive, multiplicative at 1), or `None`.
pub open spec fn level_op(lvl: int, t: TokenType) -> Option<BinOp> {
    if lvl == 6 {
        if t == TokenType::Or {
            Some(BinOp::Or)
        } else {
            None
        }
    } else if lvl == 5 {
        if t == TokenType::And {
            Some(BinOp::And)
        } else {
            None
        }
    } else if lvl == 4 {
        if t == TokenType::EqualEqual {
            Some(BinOp::Eq)
        } else if t == TokenType::BangEqual {
            Some(BinOp::Neq)
        } else {
            None
        }
    } else if lvl == 3 {
        if t == TokenType::Less {
            Some(BinOp::Lt)
        } else if t == TokenType::Greater {
            Some(BinOp::Gt)
        } else if t == TokenType::LessEqual {
            Some(BinOp::Le)
        } else if t == TokenType::GreaterEqual {
            Some(BinOp::Ge)
        } else {
            None
        }
    } else if lvl == 2 {
        if t == TokenType::Minus {
            Some(BinOp::Sub)
        } else if t == TokenType::Plus {
            Some(BinOp::Add)
        } else {
            None
        }
    } else {
        if t == TokenType::Star {
            Some(BinOp::Mul)
        } else if t == TokenType::Slash {
            Some(BinOp::Div)
        } else if t == TokenType::Mod {
            Some(BinOp::Mod)
        } else {
            None
        }
    }
}

/// The operand of binary level `lvl`: the next level down, or a unary
/// expression below the lowest level.
pub open spec fn sp_operand(lvl: int, toks: Seq<TokenV>, pos: nat, fuel: nat) -> PRes<AstV>
    decreases fuel, lvl, 0int,
    when 1 <= lvl
{
    if lvl > 1 {
        sp_level(lvl - 1, toks, pos, fuel)
    } else {
        sp_unary(toks, pos, fuel)
    }
}

/// One left-associative binary level: an operand, then operator-operand
/// pairs folded left.
pub open spec fn sp_level(lvl: int, toks: Seq<TokenV>, pos: nat, fuel: nat) -> PRes<AstV>
    decreases fuel, lvl, 2int,
{
    if fuel == 0 {
        PRes::Out
    } else {
        match sp_operand(lvl, toks, pos, (fuel - 1) as nat) {
            PRes::Parsed(lhs, p1) => sp_level_rest(lvl, lhs, toks, p1, (fuel - 1) as nat),
            PRes::Fail(m) => PRes::Fail(m),
            PRes::Out => PRes::Out,
        }
    }
}

/// The operator-operand continuation of a binary level.
pub open spec fn sp_level_rest(lvl: int, lhs: AstV, toks: Seq<TokenV>, pos: nat, fuel: nat) -> PRes<
    AstV,
>
    decreases fuel, lvl, 1int,
{
    if at_end(toks, pos) || level_op(lvl, peek_t(toks, pos).typ) is None {
        PRes::Parsed(lhs, pos)
    } else if fuel == 0 {
        PRes::Out
    } else {
        let op = level_op(lvl, peek_t(toks, pos).typ)->Some_0;
        match sp_operand(lvl, toks, pos + 1, (fuel - 1) as nat) {
            PRes::Parsed(rhs, p1) => sp_level_rest(
                lvl,
                AstV::Binary(Box::new(lhs), op, Box::new(rhs)),
                toks,
                p1,
                (fuel - 1) as nat,
            ),
            PRes::Fail(m) => PRes::Fail(m),
            PRes::Out => PRes::Out,
        }
    }
}

/// `logicalOr := logicalAnd ('||' logicalAnd)*`
pub open spec fn sp_logical_or(toks: Seq<TokenV>, pos: nat, fuel: nat) -> PRes<AstV>
    decreases fuel, 7int, 0int,
{
    sp_level(6, toks, pos, fuel)
}

/// `logicalAnd := equality ('&&' equality)*`
pub open spec fn sp_logical_and(toks: Seq<TokenV>, pos: nat, fuel: nat) -> PRes<AstV>
    decreases fuel, 7int, 0int,
{
    sp_level(5, toks, pos, fuel)
}

/// `equality := comparison (('==' | '!=') comparison)*`
pub open spec fn sp_equality(toks: Seq<TokenV>, pos: nat, fuel: nat) -> PRes<AstV>
    decreases fuel, 7int, 0int,
{
    sp_level(4, toks, pos, fuel)
}

/// `comparison := term (('<' | '>' | '<=' | '>=') term)*`
pub open spec fn sp_comparison(toks: Seq<TokenV>, pos: nat, fuel: nat) -> PRes<AstV>
    decreases fuel, 7int, 0int,
{
    sp_level(3, toks, pos, fuel)
}

/// `term := factor (('-' | '+') factor)*`
pub open spec fn sp_term(toks: Seq<TokenV>, pos: nat, fuel: nat) -> PRes<AstV>
    decreases fuel, 7int, 0int,
{
    sp_level(2, toks, pos, fuel)
}

/// `factor := unary (('*' | '/' | '%') unary)*`
pub open spec fn sp_factor(toks: Seq<TokenV>, pos: nat, fuel: nat) -> PRes<AstV>
    decreases fuel, 7int, 0int,
{
    sp_level(1, toks, pos, fuel)
}

/// `unary := ('-' | '!') unary | primary`
pub open spec fn sp_unary(toks: Seq<TokenV>, pos: nat, fuel: nat) -> PRes<AstV>
    decreases fuel, 0int, 0int,
{
    if fuel == 0 {
        PRes::Out
    } else if spec_check(toks, pos, TokenType::Minus) {
        match sp_unary(toks, pos + 1, (fuel - 1) as nat) {
            PRes::Parsed(e, p1) => PRes::Parsed(AstV::Unary(UnaryOp::Neg, Box::new(e)), p1),
            PRes::Fail(m) => PRes::Fail(m),
            PRes::Out => PRes::Out,
        }
    } else if spec_check(toks, pos, TokenType::Bang) {
        match sp_unary(toks, pos + 1, (fuel - 1) as nat) {
            PRes::Parsed(e, p1) => PRes::Parsed(AstV::Unary(UnaryOp::Not, Box::new(e)), p1),
            PRes::Fail(m) => PRes::Fail(m),
            PRes::Out => PRes::Out,
        }
    } else {
        sp_primary(toks, pos, (fuel - 1) as nat)
    }
}

/// A comma-separated expression list (call arguments or array elements),
/// at least one expression.
pub open spec fn sp_expr_list(toks: Seq<TokenV>, pos: nat, fuel: nat) -> PRes<Seq<AstV>>
    decreases fuel, 7int, 0int,
{
    if fuel == 0 {
        PRes::Out
    } else {
        match sp_expression(toks, pos, (fuel - 1) as nat) {
            PRes::Parsed(e, p1) => if spec_check(toks, p1, TokenType::Comma) {
                match sp_expr_list(toks, p1 + 1, (fuel - 1) as nat) {
                    PRes::Parsed(es, p2) => PRes::Parsed(seq![e] + es, p2),
                    PRes::Fail(m) => PRes::Fail(m),
                    PRes::Out => PRes::Out,
                }
            } else {
                PRes::Parsed(seq![e], p1)
            },
            PRes::Fail(m) => PRes::Fail(m),
            PRes::Out => PRes::Out,
        }
    }
}

/// `primary := base ('[' expression ']')*`: a base expression, then any
/// number of index postfixes, which bind tightest of all.
pub open spec fn sp_primary(toks: Seq<TokenV>, pos: nat, fuel: nat) -> PRes<AstV>
    decreases fuel, 7int, 0int,
{
    if fuel == 0 {
        PRes::Out
    } else {
        match sp_primary_base(toks, pos, (fuel - 1) as nat) {
            PRes::Parsed(base, p1) => sp_postfix(base, toks, p1, (fuel - 1) as nat),
            PRes::Fail(m) => PRes::Fail(m),
            PRes::Out => PRes::Out,
        }
    }
}

/// The index postfixes after a base expression: `e[i]` folded left.
pub open spec fn sp_postfix(base: AstV, toks: Seq<TokenV>, pos: nat, fuel: nat) -> PRes<AstV>
    decreases fuel, 7int, 0int,
{
    if !spec_check(toks, pos, TokenType::LeftBracket) {
        PRes::Parsed(base, pos)
    } else if fuel == 0 {
        PRes::Out
    } else {
        match sp_expression(toks, pos + 1, (fuel - 1) as nat) {
            PRes::Parsed(idx, p1) => if spec_check(toks, p1, TokenType::RightBracket) {
                sp_postfix(
                    AstV::Index(Box::new(base), Box::new(idx)),
                    toks,
                    p1 + 1,
                    (fuel - 1) as nat,
                )
            } else {
                PRes::Fail("Expect ']' after index."@)
            },
            PRes::Fail(m) => PRes::Fail(m),
            PRes::Out => PRes::Out,
        }
    }
}

/// `base := number | float | 'true' | 'false' | string
///        | identifier ('(' args? ')')? | '[' elements? ']'
///        | '(' expression ')'`
pub open spec fn sp_primary_base(toks: Seq<TokenV>, pos: nat, fuel: nat) -> PRes<AstV>
    decreases fuel, 7int, 0int,
{
    if fuel == 0 {
        PRes::Out
    } else if spec_check(toks, pos, TokenType::Number) {
        match parse_int_opt(peek_t(toks, pos).lexeme) {
            Some(v) => PRes::Parsed(AstV::Literal(v), pos + 1),
            None => PRes::Fail("Invalid number."@),
        }
    } else if spec_check(toks, pos, TokenType::Float) {
        if valid_float(peek_t(toks, pos).lexeme) {
            PRes::Parsed(
                AstV::FloatLiteral(FloatV { neg: false, digits: peek_t(toks, pos).lexeme }),
                pos + 1,
            )
        } else {
            PRes::Fail("Invalid float."@)
        }
    } else if spec_check(toks, pos, TokenType::True) {
        PRes::Parsed(AstV::BoolLiteral(true), pos + 1)
    } else if spec_check(toks, pos, TokenType::False) {
        PRes::Parsed(AstV::BoolLiteral(false), pos + 1)
    } else if spec_check(toks, pos, TokenType::String) {
        PRes::Parsed(AstV::StringLiteral(peek_t(toks, pos).lexeme), pos + 1)
    } else if spec_check(toks, pos, TokenType::Identifier) {
        let name = peek_t(toks, pos).lexeme;
        if spec_check(toks, pos + 1, TokenType::LeftParen) {
            let p2 = pos + 2;
            let args_res = if spec_check(toks, p2, TokenType::RightParen) {
                PRes::Parsed(Seq::empty(), p2)
            } else {
                sp_expr_list(toks, p2, (fuel - 1) as nat)
            };
            match args_res {
                PRes::Parsed(args, p3) => if spec_check(toks, p3, TokenType::RightParen) {
                    PRes::Parsed(AstV::Call(name, args), p3 + 1)
                } else {
                    PRes::Fail("Expect ')' after arguments."@)
                },
                PRes::Fail(m) => PRes::Fail(m),
                PRes::Out => PRes::Out,
            }
        } else {
            PRes::Parsed(AstV::VarRef(name), pos + 1)
        }
    } else if spec_check(toks, pos, TokenType::LeftBracket) {
        let p1 = pos + 1;
        let elems_res = if spec_check(toks, p1, TokenType::RightBracket) {
            PRes::Parsed(Seq::empty(), p1)
        } else {
            sp_expr_list(toks, p1, (fuel - 1) as nat)
        };
        match elems_res {
            PRes::Parsed(elems, p2) => if spec_check(toks, p2, TokenType::RightBracket) {
                PRes::Parsed(AstV::ArrayLiteral(elems), p2 + 1)
            } else {
                PRes::Fail("Expect ']' after array."@)
            },
            PRes::Fail(m) => PRes::Fail(m),
            PRes::Out => PRes::Out,
        }
    } else if spec_check(toks, pos, TokenType::LeftParen) {
        match sp_expression(toks, pos + 1, (fuel - 1) as nat) {
            PRes::Parsed(e, p1) => if spec_check(toks, p1, TokenType::RightParen) {
                PRes::Parsed(e, p1 + 1)
            } else {
                PRes::Fail("Expect ')' after expression."@)
            },
            PRes::Fail(m) => PRes::Fail(m),
            PRes::Out => PRes::Out,
        }
    } else {
        PRes::Fail("Unexpected token: "@ + peek_t(toks, pos).lexeme)
    }
}

/// `type := 'int' | 'float' | 'bool' | 'string' | 'array' '<' type '>'`.
/// The four base names arrive as their own token kinds; `array` arrives as
/// an identifier.
pub open spec fn sp_type(toks: Seq<TokenV>, pos: nat, fuel: nat) -> PRes<TypeV>
    decreases fuel, 7int, 0int,
{
    if fuel == 0 {
        PRes::Out
    } else if spec_check(toks, pos, TokenType::IntType) {
        PRes::Parsed(TypeV::Int, pos + 1)
    } else if spec_check(toks, pos, TokenType::FloatType) {
        PRes::Parsed(TypeV::Float, pos + 1)
    } else if spec_check(toks, pos, TokenType::BoolType) {
        PRes::Parsed(TypeV::Bool, pos + 1)
    } else if spec_check(toks, pos, TokenType::StringType) {
        PRes::Parsed(TypeV::String, pos + 1)
    } else if spec_check(toks, pos, TokenType::Identifier) {
        if peek_t(toks, pos).lexeme == "array"@ {
            if !spec_check(toks, pos + 1, TokenType::Less) {
                PRes::Fail("Expect '<' for array type."@)
            } else {
                match sp_type(toks, pos + 2, (fuel - 1) as nat) {
                    PRes::Parsed(inner, p1) => if spec_check(toks, p1, TokenType::Greater) {
                        PRes::Parsed(TypeV::Array(Box::new(inner)), p1 + 1)
                    } else {
                        PRes::Fail("Expect '>' for array type."@)
                    },
                    PRes::Fail(m) => PRes::Fail(m),
                    PRes::Out => PRes::Out,
                }
            }
        } else {
            PRes::Fail("Unknown type."@)
        }
    } else {
        PRes::Fail("Expect type."@)
    }
}

/// A whole program: statements until the end of input.
pub open spec fn sp_program(toks: Seq<TokenV>, pos: nat, fuel: nat) -> PRes<Seq<AstV>>
    decreases fuel, 7int, 0int,
{
    if at_end(toks, pos) {
        PRes::Parsed(Seq::empty(), pos)
    } else if fuel == 0 {
        PRes::Out
    } else {
        match sp_statement(toks, pos, (fuel - 1) as nat) {
            PRes::Parsed(n, p1) => match sp_program(toks, p1, (fuel - 1) as nat) {
                PRes::Parsed(rest, p2) => PRes::Parsed(seq![n] + rest, p2),
                PRes::Fail(m) => PRes::Fail(m),
                PRes::Out => PRes::Out,
            },
            PRes::Fail(m) => PRes::Fail(m),
            PRes::Out => PRes::Out,
        }
    }
}

/// An internal parse failure: a message, or the step budget ran out.
enum PErr {
    Msg(String),
    Out,
}

/// The exec result `r` with final position `p` is the image of the spec
/// outcome `e` for one node.
spec fn pm_node(e: PRes<AstV>, r: Result<AstNode, PErr>, p: nat) -> bool {
    match e {
        PRes::Parsed(n, q) => (r matches Ok(a) && ast_view(a) == n) && p == q,
        PRes::Fail(m) => r matches Err(x) && (x matches PErr::Msg(s) && s@ == m),
        PRes::Out => r matches Err(x) && x is Out,
    }
}

/// As `pm_node`, for statement lists.
spec fn pm_nodes(e: PRes<Seq<AstV>>, r: Result<Vec<AstNode>, PErr>, p: nat) -> bool {
    match e {
        PRes::Parsed(ns, q) => (r matches Ok(v) && asts_view(v@) == ns) && p == q,
        PRes::Fail(m) => r matches Err(x) && (x matches PErr::Msg(s) && s@ == m),
        PRes::Out => r matches Err(x) && x is Out,
    }
}

/// As `pm_node`, for type annotations.
spec fn pm_type(e: PRes<TypeV>, r: Result<ViraType, PErr>, p: nat) -> bool {
    match e {
        PRes::Parsed(t, q) => (r matches Ok(a) && type_view(a) == t) && p == q,
        PRes::Fail(m) => r matches Err(x) && (x matches PErr::Msg(s) && s@ == m),
        PRes::Out => r matches Err(x) && x is Out,
    }
}

/// As `pm_node`, for parameter lists.
spec fn pm_params(
    e: PRes<Seq<(Seq<char>, TypeV)>>,
    r: Result<Vec<(String, ViraType)>, PErr>,
    p: nat,
) -> bool {
    match e {
        PRes::Parsed(ps, q) => (r matches Ok(v) && params_view(v@) == ps) && p == q,
        PRes::Fail(m) => r matches Err(x) && (x matches PErr::Msg(s) && s@ == m),
        PRes::Out => r matches Err(x) && x is Out,
    }
}

/// The operator continuing binary level `lvl`, as executable code.
fn level_op_exec(lvl: u8, t: TokenType) -> (r: Option<BinOp>)
    ensures
        r == level_op(lvl as int, t),
{
    if lvl == 6 {
        if t == TokenType::Or {
            Some(BinOp::Or)
        } else {
            None
        }
    } else if lvl == 5 {
        if t == TokenType::And {
            Some(BinOp::And)
        } else {
            None
        }
    } else if lvl == 4 {
        if t == TokenType::EqualEqual {
            Some(BinOp::Eq)
        } else if t == TokenType::BangEqual {
            Some(BinOp::Neq)
        } else {
            None
        }
    } else if lvl == 3 {
        if t == TokenType::Less {
            Some(BinOp::Lt)
        } else if t == TokenType::Greater {
            Some(BinOp::Gt)
        } else if t == TokenType::LessEqual {
            Some(BinOp::Le)
        } else if t == TokenType::GreaterEqual {
            Some(BinOp::Ge)
        } else {
            None
        }
    } else if lvl == 2 {
        if t == TokenType::Minus {
            Some(BinOp::Sub)
        } else if t == TokenType::Plus {
            Some(BinOp::Add)
        } else {
            None
        }
    } else {
        if t == TokenType::Star {
            Some(BinOp::Mul)
        } else if t == TokenType::Slash {
            Some(BinOp::Div)
        } else if t == TokenType::Mod {
            Some(BinOp::Mod)
        } else {
            None
        }
    }
}

/// Whether the lexeme is a nonempty digit string whose value fits an `i64`;
/// if so, its value.
fn parse_int_lexeme(s: &str) -> (r: Option<i64>)
    ensures
        r == parse_int_opt(s@),
{
    let n = s.unicode_len();
    if n == 0 {
        return None;
    }
    let mut acc: i64 = 0;
    let mut i: usize = 0;
    while i < n
        invariant
            0 <= i <= n,
            n == s@.len(),
            forall|t: int| 0 <= t < i ==> is_digit_char(s@[t]),
            acc == digits_value(s@.take(i as int)),
            0 <= acc,
        decreases n - i,
    {
        let c = s.get_char(i);
        let u = c as u32;
        if !(48 <= u && u <= 57) {
            proof {
                assert(!is_digit_char(s@[i as int]));
            }
            return None;
        }
        let d = (u - 48) as i64;
        proof {
            assert(s@.take(i + 1).drop_last() =~= s@.take(i as int));
            assert(s@.take(i + 1).last() == s@[i as int]);
            assert(char_digit(s@[i as int]) == d);
        }
        let acc10 = match acc.checked_mul(10) {
            Some(x) => x,
            None => {
                proof {
                    lemma_digits_mono(s@, i + 1);
                }
                return None;
            },
        };
        acc = match acc10.checked_add(d) {
            Some(x) => x,
            None => {
                proof {
                    lemma_digits_mono(s@, i + 1);
                }
                return None;
            },
        };
        i += 1;
    }
    proof {
        assert(s@.take(n as int) =~= s@);
    }
    Some(acc)
}

/// Every prefix of a digit string is worth no more than the whole.
proof fn lemma_digits_mono(s: Seq<char>, i: int)
    requires
        0 <= i <= s.len(),
    ensures
        digits_value(s.take(i)) <= digits_value(s),
    decreases s.len() - i,
{
    if i < s.len() {
        assert(s.take(i + 1).drop_last() =~= s.take(i));
        assert(s.take(i + 1).last() == s[i]);
        assert(digits_value(s.take(i + 1)) == digits_value(s.take(i)) * 10 + char_digit(
            s[i],
        ));
        lemma_digits_mono(s, i + 1);
    } else {
        assert(s.take(i) =~= s);
    }
}

/// Whether the lexeme has the shape of a float literal.
fn check_float_lexeme(s: &str) -> (r: bool)
    ensures
        r == valid_float(s@),
{
    let n = s.unicode_len();
    if n == 0 {
        return false;
    }
    let u0 = s.get_char(0) as u32;
    if !(48 <= u0 && u0 <= 57) {
        return false;
    }
    let mut dots: usize = 0;
    let mut i: usize = 0;
    while i < n
        invariant
            0 <= i <= n,
            n == s@.len(),
            forall|t: int| 0 <= t < i ==> is_digit_char(s@[t]) || s@[t] == '.',
            dots == dot_count(s@.take(i as int)),
            dots <= i,
        decreases n - i,
    {
        let c = s.get_char(i);
        let u = c as u32;
        proof {
            assert(s@.take(i + 1).drop_last() =~= s@.take(i as int));
            assert(s@.take(i + 1).last() == s@[i as int]);
        }
        if 48 <= u && u <= 57 {
        } else if c == '.' {
            dots += 1;
        } else {
            proof {
                assert(!(is_digit_char(s@[i as int]) || s@[i as int] == '.'));
            }
            return false;
        }
        i += 1;
    }
    proof {
        assert(s@.take(n as int) =~= s@);
    }
    dots <= 1
}

/// The parser: the token sequence and the index of the token being looked
/// at. Its view is the token image sequence.
pub struct Parser {
    tokens: Vec<Token>,
    current: usize,
}

impl View for Parser {
    type V = Seq<TokenV>;

    closed spec fn view(&self) -> Seq<TokenV> {
        tokens_view(self.tokens@)
    }
}

impl Parser {
    /// The index of the token being looked at.
    pub closed spec fn pos(&self) -> nat {
        self.current as nat
    }

    /// The parser stands on a token and an `Eof` lies ahead, so every walk
    /// stops before the end of the vector. The tokenizer's output always
    /// satisfies this.
    pub closed spec fn wf(&self) -> bool {
        &&& self.current < self.tokens@.len()
        &&& exists|k: int|
            self.current <= k < self.tokens@.len() && self.tokens@[k].typ == TokenType::Eof
    }

    /// A parser over the given tokens, standing at the first one.
    pub fn new(tokens: Vec<Token>) -> (p: Parser)
        requires
            has_eof(tokens_view(tokens@)),
        ensures
            p@ == tokens_view(tokens@),
            p.pos() == 0,
            p.wf(),
    {
        let p = Parser { tokens, current: 0 };
        proof {
            let k = choose|k: int|
                0 <= k < tokens_view(p.tokens@).len() && tokens_view(p.tokens@)[k].typ
                    == TokenType::Eof;
            assert(tokens_view(p.tokens@)[k] == p.tokens@[k]@);
            assert(p.tokens@[k].typ == TokenType::Eof);
        }
        p
    }

    /// Whether the parser stands on the end-of-input token.
    fn is_at_end(&self) -> (r: bool)
        requires
            self.wf(),
        ensures
            r == at_end(self@, self.pos()),
    {
        proof {
            assert(self@[self.current as int] == self.tokens@[self.current as int]@);
        }
        self.tokens[self.current].typ == TokenType::Eof
    }

    /// The token being looked at.
    fn peek(&self) -> (t: Token)
        requires
            self.wf(),
        ensures
            t@ == peek_t(self@, self.pos()),
    {
        proof {
            assert(self@[self.current as int] == self.tokens@[self.current as int]@);
        }
        copy_token(&self.tokens[self.current])
    }

    /// Whether the current token has type `t` (never true at the end).
    fn check(&self, t: TokenType) -> (r: bool)
        requires
            self.wf(),
        ensures
            r == spec_check(self@, self.pos(), t),
    {
        if self.is_at_end() {
            false
        } else {
            proof {
                assert(self@[self.current as int] == self.tokens@[self.current as int]@);
            }
            self.tokens[self.current].typ == t
        }
    }

    /// Moves past the current token unless it is `Eof`.
    fn advance(&mut self)
        requires
            old(self).wf(),
        ensures
            final(self)@ == old(self)@,
            final(self).wf(),
            final(self).pos() == if at_end(old(self)@, old(self).pos()) {
                old(self).pos()
            } else {
                old(self).pos() + 1
            },
    {
        if !self.is_at_end() {
            let n = self.tokens.len();
            proof {
                let k = choose|k: int|
                    self.current <= k < self.tokens@.len() && self.tokens@[k].typ
                        == TokenType::Eof;
                assert(self@[self.current as int] == self.tokens@[self.current as int]@);
                assert(self.tokens@[self.current as int].typ != TokenType::Eof);
                assert(k >= self.current + 1);
                assert(self.current + 1 <= k < self.tokens@.len() && self.tokens@[k].typ
                    == TokenType::Eof);
            }
            self.current = self.current + 1;
        }
    }

    /// Consumes the current token if it has type `t`.
    fn match_token(&mut self, t: TokenType) -> (r: bool)
        requires
            old(self).wf(),
        ensures
            final(self)@ == old(self)@,
            final(self).wf(),
            r == spec_check(old(self)@, old(self).pos(), t),
            final(self).pos() == if r {
                old(self).pos() + 1
            } else {
                old(self).pos()
            },
    {
        if self.check(t) {
            self.advance();
            true
        } else {
            false
        }
    }

    /// Consumes the current token if it has type `t`, failing with `msg`
    /// otherwise.
    fn consume(&mut self, t: TokenType, msg: &str) -> (r: Result<Token, PErr>)
        requires
            old(self).wf(),
        ensures
            final(self)@ == old(self)@,
            final(self).wf(),
            if spec_check(old(self)@, old(self).pos(), t) {
                (r matches Ok(tok) && tok@ == peek_t(old(self)@, old(self).pos()))
                    && final(self).pos() == old(self).pos() + 1
            } else {
                (r matches Err(e) && (e matches PErr::Msg(s) && s@ == msg@)) && final(self).pos() == old(self).pos()
            },
    {
        if self.check(t) {
            let tok = self.peek();
            self.advance();
            Ok(tok)
        } else {
            Err(PErr::Msg(String::from_str(msg)))
        }
    }

    /// `statement := funcDecl | varDecl | ifStmt | whileStmt | forStmt
    ///             | returnStmt | writeStmt | block | exprStmt`
    fn statement(&mut self, fuel: u64) -> (r: Result<AstNode, PErr>)
        requires
            old(self).wf(),
        ensures
            final(self)@ == old(self)@,
            final(self).wf(),
            pm_node(sp_statement(old(self)@, old(self).pos(), fuel as nat), r, final(self).pos()),
        decreases fuel, 7int, 0int,
    {
        if fuel == 0 {
            return Err(PErr::Out);
        }
        if self.match_token(TokenType::Func) {
            self.func_decl(fuel - 1)
        } else if self.match_token(TokenType::Let) {
            self.var_decl(fuel - 1)
        } else if self.match_token(TokenType::If) {
            self.if_stmt(fuel - 1)
        } else if self.match_token(TokenType::While) {
            self.while_stmt(fuel - 1)
        } else if self.match_token(TokenType::For) {
            self.for_stmt(fuel - 1)
        } else if self.match_token(TokenType::Return) {
            self.return_stmt(fuel - 1)
        } else if self.match_token(TokenType::Write) {
            self.write_stmt(fuel - 1)
        } else if self.match_token(TokenType::LeftBracket) || self.match_token(
            TokenType::LeftBrace,
        ) {
            self.block(fuel - 1)
        } else {
            self.expression(fuel - 1)
        }
    }

    /// `funcDecl := name '(' params? ')' '->' type statement`
    fn func_decl(&mut self, fuel: u64) -> (r: Result<AstNode, PErr>)
        requires
            old(self).wf(),
        ensures
            final(self)@ == old(self)@,
            final(self).wf(),
            pm_node(sp_func_decl(old(self)@, old(self).pos(), fuel as nat), r, final(self).pos()),
        decreases fuel, 7int, 0int,
    {
        if fuel == 0 {
            return Err(PErr::Out);
        }
        let name = match self.consume(TokenType::Identifier, "Expect function name.") {
            Ok(t) => t.lexeme,
            Err(e) => {
                return Err(e);
            },
        };
        match self.consume(TokenType::LeftParen, "Expect '(' after name.") {
            Ok(_) => {},
            Err(e) => {
                return Err(e);
            },
        }
        let mut params: Vec<(String, ViraType)> = Vec::new();
        if !self.check(TokenType::RightParen) {
            params = match self.params_list(fuel - 1) {
                Ok(ps) => ps,
                Err(e) => {
                    return Err(e);
                },
            };
        } else {
            proof {
                assert(params_view(params@) =~= Seq::<(Seq<char>, TypeV)>::empty());
            }
        }
        match self.consume(TokenType::RightParen, "Expect ')' after params.") {
            Ok(_) => {},
            Err(e) => {
                return Err(e);
            },
        }
        if self.match_token(TokenType::Arrow) {
            let ret = match self.parse_type(fuel - 1) {
                Ok(t) => t,
                Err(e) => {
                    return Err(e);
                },
            };
            let body = match self.statement(fuel - 1) {
                Ok(b) => b,
                Err(e) => {
                    return Err(e);
                },
            };
            Ok(AstNode::FuncDecl(name, params, ret, Box::new(body)))
        } else {
            Err(PErr::Msg(String::from_str("Missing '->' in function declaration.")))
        }
    }

    /// `params := name ':' type (',' name ':' type)*`
    fn params_list(&mut self, fuel: u64) -> (r: Result<Vec<(String, ViraType)>, PErr>)
        requires
            old(self).wf(),
        ensures
            final(self)@ == old(self)@,
            final(self).wf(),
            pm_params(sp_params(old(self)@, old(self).pos(), fuel as nat), r, final(self).pos()),
        decreases fuel, 7int, 0int,
    {
        if fuel == 0 {
            return Err(PErr::Out);
        }
        let name = match self.consume(TokenType::Identifier, "Expect param name.") {
            Ok(t) => t.lexeme,
            Err(e) => {
                return Err(e);
            },
        };
        match self.consume(TokenType::Colon, "Expect ':' after param name.") {
            Ok(_) => {},
            Err(e) => {
                return Err(e);
            },
        }
        let ty = match self.parse_type(fuel - 1) {
            Ok(t) => t,
            Err(e) => {
                return Err(e);
            },
        };
        let ghost namev = name@;
        let ghost tyv = type_view(ty);
        if self.match_token(TokenType::Comma) {
            match self.params_list(fuel - 1) {
                Ok(mut rest) => {
                    let ghost prev = rest@;
                    rest.insert(0, (name, ty));
                    proof {
                        crate::ast::lemma_params_view_prepend(prev, rest@[0]);
                        assert(rest@[0].0@ == namev);
                        assert(type_view(rest@[0].1) == tyv);
                    }
                    Ok(rest)
                },
                Err(e) => Err(e),
            }
        } else {
            let mut v: Vec<(String, ViraType)> = Vec::new();
            v.push((name, ty));
            proof {
                assert(params_view(v@) =~= seq![(namev, tyv)]);
            }
            Ok(v)
        }
    }

    /// `varDecl := name (':' type)? '=' expression`
    fn var_decl(&mut self, fuel: u64) -> (r: Result<AstNode, PErr>)
        requires
            old(self).wf(),
        ensures
            final(self)@ == old(self)@,
            final(self).wf(),
            pm_node(sp_var_decl(old(self)@, old(self).pos(), fuel as nat), r, final(self).pos()),
        decreases fuel, 7int, 0int,
    {
        if fuel == 0 {
            return Err(PErr::Out);
        }
        let name = match self.consume(TokenType::Identifier, "Expect variable name.") {
            Ok(t) => t.lexeme,
            Err(e) => {
                return Err(e);
            },
        };
        let mut typ = ViraType::Int;
        if self.match_token(TokenType::Colon) {
            typ = match self.parse_type(fuel - 1) {
                Ok(t) => t,
                Err(e) => {
                    return Err(e);
                },
            };
        }
        match self.consume(TokenType::Equals, "Expect '=' after variable.") {
            Ok(_) => {},
            Err(e) => {
                return Err(e);
            },
        }
        let init = match self.expression(fuel - 1) {
            Ok(e) => e,
            Err(e) => {
                return Err(e);
            },
        };
        Ok(AstNode::VarDecl(name, typ, Box::new(init)))
    }

    /// `ifStmt := expression statement ('else' statement)?`
    fn if_stmt(&mut self, fuel: u64) -> (r: Result<AstNode, PErr>)
        requires
            old(self).wf(),
        ensures
            final(self)@ == old(self)@,
            final(self).wf(),
            pm_node(sp_if_stmt(old(self)@, old(self).pos(), fuel as nat), r, final(self).pos()),
        decreases fuel, 7int, 0int,
    {
        if fuel == 0 {
            return Err(PErr::Out);
        }
        let cond = match self.expression(fuel - 1) {
            Ok(e) => e,
            Err(e) => {
                return Err(e);
            },
        };
        let then = match self.statement(fuel - 1) {
            Ok(s) => s,
            Err(e) => {
                return Err(e);
            },
        };
        if self.match_token(TokenType::Else) {
            let els = match self.statement(fuel - 1) {
                Ok(s) => s,
                Err(e) => {
                    return Err(e);
                },
            };
            Ok(AstNode::If(Box::new(cond), Box::new(then), Some(Box::new(els))))
        } else {
            Ok(AstNode::If(Box::new(cond), Box::new(then), None))
        }
    }

    /// `whileStmt := expression statement`
    fn while_stmt(&mut self, fuel: u64) -> (r: Result<AstNode, PErr>)
        requires
            old(self).wf(),
        ensures
            final(self)@ == old(self)@,
            final(self).wf(),
            pm_node(sp_while_stmt(old(self)@, old(self).pos(), fuel as nat), r, final(self).pos()),
        decreases fuel, 7int, 0int,
    {
        if fuel == 0 {
            return Err(PErr::Out);
        }
        let cond = match self.expression(fuel - 1) {
            Ok(e) => e,
            Err(e) => {
                return Err(e);
            },
        };
        let body = match self.statement(fuel - 1) {
            Ok(s) => s,
            Err(e) => {
                return Err(e);
            },
        };
        Ok(AstNode::While(Box::new(cond), Box::new(body)))
    }

    /// `forStmt := statement expression expression statement`
    fn for_stmt(&mut self, fuel: u64) -> (r: Result<AstNode, PErr>)
        requires
            old(self).wf(),
        ensures
            final(self)@ == old(self)@,
            final(self).wf(),
            pm_node(sp_for_stmt(old(self)@, old(self).pos(), fuel as nat), r, final(self).pos()),
        decreases fuel, 7int, 0int,
    {
        if fuel == 0 {
            return Err(PErr::Out);
        }
        let init = match self.statement(fuel - 1) {
            Ok(s) => s,
            Err(e) => {
                return Err(e);
            },
        };
        let cond = match self.expression(fuel - 1) {
            Ok(e) => e,
            Err(e) => {
                return Err(e);
            },
        };
        let incr = match self.expression(fuel - 1) {
            Ok(e) => e,
            Err(e) => {
                return Err(e);
            },
        };
        let body = match self.statement(fuel - 1) {
            Ok(s) => s,
            Err(e) => {
                return Err(e);
            },
        };
        Ok(
            AstNode::For(
                String::from_str(""),
                Box::new(init),
                Box::new(cond),
                Box::new(incr),
                Box::new(body),
            ),
        )
    }

    /// `returnStmt := 'return' expression?`
    fn return_stmt(&mut self, fuel: u64) -> (r: Result<AstNode, PErr>)
        requires
            old(self).wf(),
        ensures
            final(self)@ == old(self)@,
            final(self).wf(),
            pm_node(
                sp_return_stmt(old(self)@, old(self).pos(), fuel as nat),
                r,
                final(self).pos(),
            ),
        decreases fuel, 7int, 0int,
    {
        if fuel == 0 {
            return Err(PErr::Out);
        }
        if !self.check(TokenType::RightBracket) && !self.check(TokenType::RightBrace) {
            let e = match self.expression(fuel - 1) {
                Ok(e) => e,
                Err(e) => {
                    return Err(e);
                },
            };
            Ok(AstNode::Return(Some(Box::new(e))))
        } else {
            Ok(AstNode::Return(None))
        }
    }

    /// `writeStmt := 'write' expression`
    fn write_stmt(&mut self, fuel: u64) -> (r: Result<AstNode, PErr>)
        requires
            old(self).wf(),
        ensures
            final(self)@ == old(self)@,
            final(self).wf(),
            pm_node(sp_write_stmt(old(self)@, old(self).pos(), fuel as nat), r, final(self).pos()),
        decreases fuel, 7int, 0int,
    {
        if fuel == 0 {
            return Err(PErr::Out);
        }
        let e = match self.expression(fuel - 1) {
            Ok(e) => e,
            Err(e) => {
                return Err(e);
            },
        };
        Ok(AstNode::Write(Box::new(e)))
    }

    /// The statements of a block, up to its closer.
    fn block_items(&mut self, fuel: u64) -> (r: Result<Vec<AstNode>, PErr>)
        requires
            old(self).wf(),
        ensures
            final(self)@ == old(self)@,
            final(self).wf(),
            pm_nodes(
                sp_block_items(old(self)@, old(self).pos(), fuel as nat),
                r,
                final(self).pos(),
            ),
        decreases fuel, 7int, 0int,
    {
        if self.check(TokenType::RightBracket) || self.check(TokenType::RightBrace)
            || self.is_at_end() {
            proof {
                assert(asts_view(Seq::<AstNode>::empty()) =~= Seq::<AstV>::empty());
            }
            return Ok(Vec::new());
        }
        if fuel == 0 {
            return Err(PErr::Out);
        }
        let n = match self.statement(fuel - 1) {
            Ok(n) => n,
            Err(e) => {
                return Err(e);
            },
        };
        let ghost nv = ast_view(n);
        match self.block_items(fuel - 1) {
            Ok(mut rest) => {
                let ghost prev = rest@;
                rest.insert(0, n);
                proof {
                    crate::ast::lemma_asts_view_prepend(prev, rest@[0]);
                    assert(ast_view(rest@[0]) == nv);
                }
                Ok(rest)
            },
            Err(e) => Err(e),
        }
    }

    /// `block := ('[' | '{') statement* (']' | '}')`
    fn block(&mut self, fuel: u64) -> (r: Result<AstNode, PErr>)
        requires
            old(self).wf(),
        ensures
            final(self)@ == old(self)@,
            final(self).wf(),
            pm_node(sp_block(old(self)@, old(self).pos(), fuel as nat), r, final(self).pos()),
        decreases fuel, 7int, 0int,
    {
        if fuel == 0 {
            return Err(PErr::Out);
        }
        let items = match self.block_items(fuel - 1) {
            Ok(v) => v,
            Err(e) => {
                return Err(e);
            },
        };
        if self.check(TokenType::RightBracket) {
            match self.consume(TokenType::RightBracket, "Expect ']' after block.") {
                Ok(_) => Ok(AstNode::Block(items)),
                Err(e) => Err(e),
            }
        } else {
            match self.consume(TokenType::RightBrace, "Expect '}' after block.") {
                Ok(_) => Ok(AstNode::Block(items)),
                Err(e) => Err(e),
            }
        }
    }

    /// `expression := logicalOr`
    fn expression(&mut self, fuel: u64) -> (r: Result<AstNode, PErr>)
        requires
            old(self).wf(),
        ensures
            final(self)@ == old(self)@,
            final(self).wf(),
            pm_node(sp_expression(old(self)@, old(self).pos(), fuel as nat), r, final(self).pos()),
        decreases fuel, 7int, 0int,
    {
        if fuel == 0 {
            return Err(PErr::Out);
        }
        let r = self.level(6, fuel - 1);
        proof {
            assert(sp_logical_or(old(self)@, old(self).pos(), (fuel - 1) as nat) == sp_level(
                6,
                old(self)@,
                old(self).pos(),
                (fuel - 1) as nat,
            ));
        }
        r
    }

    /// One left-associative binary level (6 is `||` down to 1 for `* / %`).
    fn level(&mut self, lvl: u8, fuel: u64) -> (r: Result<AstNode, PErr>)
        requires
            old(self).wf(),
            1 <= lvl <= 6,
        ensures
            final(self)@ == old(self)@,
            final(self).wf(),
            pm_node(
                sp_level(lvl as int, old(self)@, old(self).pos(), fuel as nat),
                r,
                final(self).pos(),
            ),
        decreases fuel, lvl as int, 2int,
    {
        if fuel == 0 {
            return Err(PErr::Out);
        }
        let lhs = match self.operand(lvl, fuel - 1) {
            Ok(e) => e,
            Err(e) => {
                return Err(e);
            },
        };
        self.level_rest(lvl, lhs, fuel - 1)
    }

    /// The operand of binary level `lvl`: the level below, or a unary
    /// expression at the bottom.
    fn operand(&mut self, lvl: u8, fuel: u64) -> (r: Result<AstNode, PErr>)
        requires
            old(self).wf(),
            1 <= lvl <= 6,
        ensures
            final(self)@ == old(self)@,
            final(self).wf(),
            pm_node(
                sp_operand(lvl as int, old(self)@, old(self).pos(), fuel as nat),
                r,
                final(self).pos(),
            ),
        decreases fuel, lvl as int, 0int,
    {
        if lvl > 1 {
            self.level(lvl - 1, fuel)
        } else {
            self.unary(fuel)
        }
    }

    /// The operator-operand continuation of a binary level, folding left.
    fn level_rest(&mut self, lvl: u8, lhs: AstNode, fuel: u64) -> (r: Result<AstNode, PErr>)
        requires
            old(self).wf(),
            1 <= lvl <= 6,
        ensures
            final(self)@ == old(self)@,
            final(self).wf(),
            pm_node(
                sp_level_rest(lvl as int, ast_view(lhs), old(self)@, old(self).pos(), fuel as nat),
                r,
                final(self).pos(),
            ),
        decreases fuel, lvl as int, 1int,
    {
        if self.is_at_end() {
            return Ok(lhs);
        }
        let t = self.peek();
        let opo = level_op_exec(lvl, t.typ);
        match opo {
            None => Ok(lhs),
            Some(op) => {
                if fuel == 0 {
                    return Err(PErr::Out);
                }
                self.advance();
                let ghost lv = ast_view(lhs);
                let rhs = match self.operand(lvl, fuel - 1) {
                    Ok(e) => e,
                    Err(e) => {
                        return Err(e);
                    },
                };
                self.level_rest(
                    lvl,
                    AstNode::Binary(Box::new(lhs), op, Box::new(rhs)),
                    fuel - 1,
                )
            },
        }
    }

    /// `unary := ('-' | '!') unary | primary`
    fn unary(&mut self, fuel: u64) -> (r: Result<AstNode, PErr>)
        requires
            old(self).wf(),
        ensures
            final(self)@ == old(self)@,
            final(self).wf(),
            pm_node(sp_unary(old(self)@, old(self).pos(), fuel as nat), r, final(self).pos()),
        decreases fuel, 0int, 0int,
    {
        if fuel == 0 {
            return Err(PErr::Out);
        }
        if self.match_token(TokenType::Minus) {
            match self.unary(fuel - 1) {
                Ok(e) => Ok(AstNode::Unary(UnaryOp::Neg, Box::new(e))),
                Err(e) => Err(e),
            }
        } else if self.match_token(TokenType::Bang) {
            match self.unary(fuel - 1) {
                Ok(e) => Ok(AstNode::Unary(UnaryOp::Not, Box::new(e))),
                Err(e) => Err(e),
            }
        } else {
            self.primary(fuel - 1)
        }
    }

    /// A comma-separated expression list (call arguments, array elements).
    fn expr_list(&mut self, fuel: u64) -> (r: Result<Vec<AstNode>, PErr>)
        requires
            old(self).wf(),
        ensures
            final(self)@ == old(self)@,
            final(self).wf(),
            pm_nodes(sp_expr_list(old(self)@, old(self).pos(), fuel as nat), r, final(self).pos()),
        decreases fuel, 7int, 0int,
    {
        if fuel == 0 {
            return Err(PErr::Out);
        }
        let e = match self.expression(fuel - 1) {
            Ok(e) => e,
            Err(e) => {
                return Err(e);
            },
        };
        let ghost ev = ast_view(e);
        if self.match_token(TokenType::Comma) {
            match self.expr_list(fuel - 1) {
                Ok(mut rest) => {
                    let ghost prev = rest@;
                    rest.insert(0, e);
                    proof {
                        crate::ast::lemma_asts_view_prepend(prev, rest@[0]);
                        assert(ast_view(rest@[0]) == ev);
                    }
                    Ok(rest)
                },
                Err(err) => Err(err),
            }
        } else {
            let mut v: Vec<AstNode> = Vec::new();
            v.push(e);
            proof {
                lemma_asts_view(v@);
                assert(asts_view(v@) =~= seq![ev]);
            }
            Ok(v)
        }
    }

    /// `primary := base ('[' expression ']')*`
    fn primary(&mut self, fuel: u64) -> (r: Result<AstNode, PErr>)
        requires
            old(self).wf(),
        ensures
            final(self)@ == old(self)@,
            final(self).wf(),
            pm_node(sp_primary(old(self)@, old(self).pos(), fuel as nat), r, final(self).pos()),
        decreases fuel, 7int, 0int,
    {
        if fuel == 0 {
            return Err(PErr::Out);
        }
        let base = match self.primary_base(fuel - 1) {
            Ok(b) => b,
            Err(e) => {
                return Err(e);
            },
        };
        self.postfix(base, fuel - 1)
    }

    /// The index postfixes after a base expression, folded left.
    fn postfix(&mut self, base: AstNode, fuel: u64) -> (r: Result<AstNode, PErr>)
        requires
            old(self).wf(),
        ensures
            final(self)@ == old(self)@,
            final(self).wf(),
            pm_node(
                sp_postfix(ast_view(base), old(self)@, old(self).pos(), fuel as nat),
                r,
                final(self).pos(),
            ),
        decreases fuel, 7int, 0int,
    {
        if !self.check(TokenType::LeftBracket) {
            return Ok(base);
        }
        if fuel == 0 {
            return Err(PErr::Out);
        }
        self.advance();
        let idx = match self.expression(fuel - 1) {
            Ok(e) => e,
            Err(e) => {
                return Err(e);
            },
        };
        if self.check(TokenType::RightBracket) {
            self.advance();
            self.postfix(AstNode::Index(Box::new(base), Box::new(idx)), fuel - 1)
        } else {
            Err(PErr::Msg(String::from_str("Expect ']' after index.")))
        }
    }

    /// `base := number | float | 'true' | 'false' | string
    ///        | identifier ('(' args? ')')? | '[' elements? ']'
    ///        | '(' expression ')'`
    fn primary_base(&mut self, fuel: u64) -> (r: Result<AstNode, PErr>)
        requires
            old(self).wf(),
        ensures
            final(self)@ == old(self)@,
            final(self).wf(),
            pm_node(
                sp_primary_base(old(self)@, old(self).pos(), fuel as nat),
                r,
                final(self).pos(),
            ),
        decreases fuel, 7int, 0int,
    {
        if fuel == 0 {
            return Err(PErr::Out);
        }
        if self.check(TokenType::Number) {
            let t = self.peek();
            self.advance();
            match parse_int_lexeme(t.lexeme.as_str()) {
                Some(v) => Ok(AstNode::Literal(v)),
                None => Err(PErr::Msg(String::from_str("Invalid number."))),
            }
        } else if self.check(TokenType::Float) {
            let t = self.peek();
            self.advance();
            if check_float_lexeme(t.lexeme.as_str()) {
                Ok(AstNode::FloatLiteral(FloatLit { neg: false, digits: t.lexeme }))
            } else {
                Err(PErr::Msg(String::from_str("Invalid float.")))
            }
        } else if self.match_token(TokenType::True) {
            Ok(AstNode::BoolLiteral(true))
        } else if self.match_token(TokenType::False) {
            Ok(AstNode::BoolLiteral(false))
        } else if self.check(TokenType::String) {
            let t = self.peek();
            self.advance();
            Ok(AstNode::StringLiteral(t.lexeme))
        } else if self.check(TokenType::Identifier) {
            let t = self.peek();
            self.advance();
            let name = t.lexeme;
            if self.match_token(TokenType::LeftParen) {
                let mut args: Vec<AstNode> = Vec::new();
                if !self.check(TokenType::RightParen) {
                    args = match self.expr_list(fuel - 1) {
                        Ok(v) => v,
                        Err(e) => {
                            return Err(e);
                        },
                    };
                } else {
                    proof {
                        assert(asts_view(args@) =~= Seq::<AstV>::empty());
                    }
                }
                match self.consume(TokenType::RightParen, "Expect ')' after arguments.") {
                    Ok(_) => Ok(AstNode::Call(name, args)),
                    Err(e) => Err(e),
                }
            } else {
                Ok(AstNode::VarRef(name))
            }
        } else if self.match_token(TokenType::LeftBracket) {
            let mut elems: Vec<AstNode> = Vec::new();
            if !self.check(TokenType::RightBracket) {
                elems = match self.expr_list(fuel - 1) {
                    Ok(v) => v,
                    Err(e) => {
                        return Err(e);
                    },
                };
            } else {
                proof {
                    assert(asts_view(elems@) =~= Seq::<AstV>::empty());
                }
            }
            match self.consume(TokenType::RightBracket, "Expect ']' after array.") {
                Ok(_) => Ok(AstNode::ArrayLiteral(elems)),
                Err(e) => Err(e),
            }
        } else if self.match_token(TokenType::LeftParen) {
            let e = match self.expression(fuel - 1) {
                Ok(e) => e,
                Err(e) => {
                    return Err(e);
                },
            };
            match self.consume(TokenType::RightParen, "Expect ')' after expression.") {
                Ok(_) => Ok(e),
                Err(e2) => Err(e2),
            }
        } else {
            let t = self.peek();
            let mut m = String::from_str("Unexpected token: ");
            m.append(t.lexeme.as_str());
            Err(PErr::Msg(m))
        }
    }

    /// `type := 'int' | 'float' | 'bool' | 'string' | 'array' '<' type '>'`
    fn parse_type(&mut self, fuel: u64) -> (r: Result<ViraType, PErr>)
        requires
            old(self).wf(),
        ensures
            final(self)@ == old(self)@,
            final(self).wf(),
            pm_type(sp_type(old(self)@, old(self).pos(), fuel as nat), r, final(self).pos()),
        decreases fuel, 7int, 0int,
    {
        if fuel == 0 {
            return Err(PErr::Out);
        }
        if self.match_token(TokenType::IntType) {
            Ok(ViraType::Int)
        } else if self.match_token(TokenType::FloatType) {
            Ok(ViraType::Float)
        } else if self.match_token(TokenType::BoolType) {
            Ok(ViraType::Bool)
        } else if self.match_token(TokenType::StringType) {
            Ok(ViraType::String)
        } else if self.check(TokenType::Identifier) {
            let t = self.peek();
            if crate::strmap::str_eq(t.lexeme.as_str(), "array") {
                self.advance();
                match self.consume(TokenType::Less, "Expect '<' for array type.") {
                    Ok(_) => {},
                    Err(e) => {
                        return Err(e);
                    },
                }
                let inner = match self.parse_type(fuel - 1) {
                    Ok(t) => t,
                    Err(e) => {
                        return Err(e);
                    },
                };
                match self.consume(TokenType::Greater, "Expect '>' for array type.") {
                    Ok(_) => Ok(ViraType::Array(Box::new(inner))),
                    Err(e) => Err(e),
                }
            } else {
                Err(PErr::Msg(String::from_str("Unknown type.")))
            }
        } else {
            Err(PErr::Msg(String::from_str("Expect type.")))
        }
    }

    /// The statements of a whole program, up to the end of input.
    fn program_items(&mut self, fuel: u64) -> (r: Result<Vec<AstNode>, PErr>)
        requires
            old(self).wf(),
        ensures
            final(self)@ == old(self)@,
            final(self).wf(),
            pm_nodes(sp_program(old(self)@, old(self).pos(), fuel as nat), r, final(self).pos()),
        decreases fuel, 7int, 0int,
    {
        if self.is_at_end() {
            proof {
                assert(asts_view(Seq::<AstNode>::empty()) =~= Seq::<AstV>::empty());
            }
            return Ok(Vec::new());
        }
        if fuel == 0 {
            return Err(PErr::Out);
        }
        let n = match self.statement(fuel - 1) {
            Ok(n) => n,
            Err(e) => {
                return Err(e);
            },
        };
        let ghost nv = ast_view(n);
        match self.program_items(fuel - 1) {
            Ok(mut rest) => {
                let ghost prev = rest@;
                rest.insert(0, n);
                proof {
                    crate::ast::lemma_asts_view_prepend(prev, rest@[0]);
                    assert(ast_view(rest@[0]) == nv);
                }
                Ok(rest)
            },
            Err(e) => Err(e),
        }
    }

    /// Parses the whole token sequence into the program's statements,
    /// failing with a descriptive message at the first unexpected token:
    /// exactly `sp_program` over the token images with the `PARSE_FUEL`
    /// budget.
    pub fn parse(&mut self) -> (r: Result<Vec<AstNode>, String>)
        requires
            old(self).wf(),
        ensures
            final(self)@ == old(self)@,
            final(self).wf(),
            match sp_program(old(self)@, old(self).pos(), PARSE_FUEL as nat) {
                PRes::Parsed(ns, p) => (r matches Ok(v) && asts_view(v@) == ns) && final(self).pos() == p,
                PRes::Fail(m) => r matches Err(s) && s@ == m,
                PRes::Out => r matches Err(s) && s@ == "Parse step limit exceeded."@,
            },
    {
        match self.program_items(PARSE_FUEL) {
            Ok(v) => Ok(v),
            Err(PErr::Msg(m)) => Err(m),
            Err(PErr::Out) => Err(String::from_str("Parse step limit exceeded.")),
        }
    }
}

} // verus!
