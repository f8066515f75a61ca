//! The tokenizer and parser on their own: token classification, lexemes,
//! error messages, and parse determinism.
use vira::ast::AstNode;
use vira::parser::Parser;
use vira::token::TokenType;
use vira::tokenizer::{matches_keyword, tokenize};

fn types_of(src: &str) -> Vec<TokenType> {
    tokenize(src).into_iter().map(|t| t.typ).collect()
}

fn parse_src(src: &str) -> Result<Vec<AstNode>, String> {
    let mut parser = Parser::new(tokenize(src));
    parser.parse()
}

#[test]
fn keywords_and_identifiers() {
    assert_eq!(
        types_of("func let if else while for return write true false"),
        vec![
            TokenType::Func,
            TokenType::Let,
            TokenType::If,
            TokenType::Else,
            TokenType::While,
            TokenType::For,
            TokenType::Return,
            TokenType::Write,
            TokenType::True,
            TokenType::False,
            TokenType::Eof
        ]
    );
}

#[test]
fn keyword_prefix_match_consumes_the_keyword() {
    // Keyword recognition is by exact prefix match: `funcx` scans as the
    // keyword `func` followed by the identifier `x`.
    let toks = tokenize("funcx");
    assert_eq!(toks[0].typ, TokenType::Func);
    assert_eq!(toks[1].typ, TokenType::Identifier);
    assert_eq!(toks[1].lexeme, "x");
    assert_eq!(toks[2].typ, TokenType::Eof);
}

#[test]
fn two_character_operators_take_precedence() {
    assert_eq!(
        types_of("-> == != <= >= && || < > ! = -"),
        vec![
            TokenType::Arrow,
            TokenType::EqualEqual,
            TokenType::BangEqual,
            TokenType::LessEqual,
            TokenType::GreaterEqual,
            TokenType::And,
            TokenType::Or,
            TokenType::Less,
            TokenType::Greater,
            TokenType::Bang,
            TokenType::Equals,
            TokenType::Minus,
            TokenType::Eof
        ]
    );
}

#[test]
fn numbers_and_floats() {
    let toks = tokenize("12 3.5 1.2.3");
    assert_eq!(toks[0].typ, TokenType::Number);
    assert_eq!(toks[0].lexeme, "12");
    assert_eq!(toks[1].typ, TokenType::Float);
    assert_eq!(toks[1].lexeme, "3.5");
    // A second dot ends the number; the lone dot is dropped, the rest is a
    // fresh number.
    assert_eq!(toks[2].typ, TokenType::Float);
    assert_eq!(toks[2].lexeme, "1.2");
    assert_eq!(toks[3].typ, TokenType::Number);
    assert_eq!(toks[3].lexeme, "3");
}

#[test]
fn string_literals_and_unterminated_string() {
    let toks = tokenize("\"hello\"");
    assert_eq!(toks[0].typ, TokenType::String);
    assert_eq!(toks[0].lexeme, "hello");
    // Unterminated: consumes to end of input without erroring.
    let toks = tokenize("\"abc");
    assert_eq!(toks[0].typ, TokenType::String);
    assert_eq!(toks[0].lexeme, "abc");
    assert_eq!(toks[1].typ, TokenType::Eof);
}

#[test]
fn unrecognized_characters_are_dropped() {
    assert_eq!(types_of("1 @ # $ 2"), vec![
        TokenType::Number,
        TokenType::Number,
        TokenType::Eof
    ]);
}

#[test]
fn type_names_scan_to_their_own_kinds() {
    assert_eq!(
        types_of("int float bool string array"),
        vec![
            TokenType::IntType,
            TokenType::FloatType,
            TokenType::BoolType,
            TokenType::StringType,
            TokenType::Identifier,
            TokenType::Eof
        ]
    );
}

#[test]
fn empty_input_still_ends_with_eof() {
    let toks = tokenize("");
    assert_eq!(toks.len(), 1);
    assert_eq!(toks[0].typ, TokenType::Eof);
    assert_eq!(toks[0].lexeme, "");
}

#[test]
fn matches_keyword_exact_prefix() {
    let chars: Vec<char> = "while".chars().collect();
    assert!(matches_keyword(&chars, 1, "hile"));
    assert!(!matches_keyword(&chars, 1, "hale"));
    assert!(!matches_keyword(&chars, 3, "hile"));
}

#[test]
fn round_trip_parsing_is_deterministic() {
    let src = "func f(a: int, b: array<int>) -> int [ if a < 1 return 2 else return f(a - 1, b) ] write f(3, [1])";
    let a1 = parse_src(src).unwrap();
    let a2 = parse_src(src).unwrap();
    assert_eq!(a1, a2);
}

#[test]
fn function_declaration_requires_arrow() {
    assert_eq!(
        parse_src("func f() int").unwrap_err(),
        "Missing '->' in function declaration."
    );
}

#[test]
fn parse_error_messages() {
    assert_eq!(parse_src("let = 1").unwrap_err(), "Expect variable name.");
    assert_eq!(parse_src("let x 1").unwrap_err(), "Expect '=' after variable.");
    assert_eq!(parse_src("let x: array(int) = 1").unwrap_err(), "Expect '<' for array type.");
    assert_eq!(parse_src("let x: wibble = 1").unwrap_err(), "Unknown type.");
    assert_eq!(parse_src("write (1").unwrap_err(), "Expect ')' after expression.");
    assert_eq!(parse_src("{ write 1").unwrap_err(), "Expect '}' after block.");
    assert_eq!(parse_src("write +").unwrap_err(), "Unexpected token: +");
}

#[test]
fn number_too_large_is_invalid() {
    assert_eq!(parse_src("write 99999999999999999999").unwrap_err(), "Invalid number.");
}

#[test]
fn brackets_and_braces_both_delimit_blocks() {
    let a = parse_src("[ write 1 ]").unwrap();
    let b = parse_src("{ write 1 }").unwrap();
    assert_eq!(a, b);
    // Mixed closers are accepted too: a block opened with `{` may close
    // with `]`.
    assert!(parse_src("{ write 1 ]").is_ok());
}

#[test]
fn array_literal_in_expression_position() {
    let ast = parse_src("let a = [1, 2]").unwrap();
    assert_eq!(ast.len(), 1);
    match &ast[0] {
        AstNode::VarDecl(name, _, init) => {
            assert_eq!(name, "a");
            match &**init {
                AstNode::ArrayLiteral(elems) => assert_eq!(elems.len(), 2),
                other => panic!("expected array literal, got {:?}", other),
            }
        },
        other => panic!("expected variable declaration, got {:?}", other),
    }
}

#[test]
fn left_associative_subtraction() {
    // 10 - 3 - 2 parses as (10 - 3) - 2.
    let ast = parse_src("write 10 - 3 - 2").unwrap();
    match &ast[0] {
        AstNode::Write(e) => match &**e {
            AstNode::Binary(l, _, _) => match &**l {
                AstNode::Binary(_, _, _) => {},
                other => panic!("left operand should be a nested binary, got {:?}", other),
            },
            other => panic!("expected binary, got {:?}", other),
        },
        other => panic!("expected write, got {:?}", other),
    }
}

#[test]
fn for_loop_name_is_empty() {
    let ast = parse_src("for let i = 0; i < 1; 0 write i").unwrap();
    match &ast[0] {
        AstNode::For(name, _, _, _, _) => assert_eq!(name, ""),
        other => panic!("expected for, got {:?}", other),
    }
}
