//! Tokens: a classification tag plus the exact source text matched.
use vstd::prelude::*;

verus! {

/// Classification of a token.
#[derive(Clone, Copy, Debug, PartialEq, Eq, Structural)]
pub enum TokenType {
    Func,
    Let,
    If,
    Else,
    While,
    For,
    Return,
    Write,
    Identifier,
    Number,
    Float,
    String,
    True,
    False,
    Plus,
    Minus,
    Star,
    Slash,
    Mod,
    Bang,
    And,
    Or,
    EqualEqual,
    BangEqual,
    Less,
    Greater,
    LessEqual,
    GreaterEqual,
    LeftBracket,
    RightBracket,
    LeftParen,
    RightParen,
    Colon,
    Arrow,
    Equals,
    Comma,
    LeftBrace,
    RightBrace,
    IntType,
    FloatType,
    BoolType,
    StringType,
    Eof,
}

/// A token: its classification and the source text it was matched from.
/// For string literals the lexeme is the text between the quotes.
#[derive(Debug, PartialEq)]
pub struct Token {
    pub typ: TokenType,
    pub lexeme: String,
}

/// The mathematical image of a token: the tag and the lexeme as a character
/// sequence.
pub struct TokenV {
    pub typ: TokenType,
    pub lexeme: Seq<char>,
}

impl View for Token {
    type V = TokenV;

    open spec fn view(&self) -> TokenV {
        TokenV { typ: self.typ, lexeme: self.lexeme@ }
    }
}

/// The views of a sequence of tokens.
pub open spec fn tokens_view(ts: Seq<Token>) -> Seq<TokenV> {
    ts.map_values(|t: Token| t@)
}

/// A copy of a token, equal in its image.
pub fn copy_token(t: &Token) -> (r: Token)
    ensures
        r@ == t@,
{
    Token { typ: t.typ, lexeme: t.lexeme.clone() }
}

} // verus!
