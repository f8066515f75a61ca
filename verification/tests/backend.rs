//! The code generator, the arena, the name map, and value rendering.
use vira::arena::Arena;
use vira::ast::FloatLit;
use vira::codegen::{supports, CodeGen};
use vira::interpreter::Interpreter;
use vira::parser::Parser;
use vira::strmap::StrMap;
use vira::tokenizer::tokenize;
use vira::value::{render_value, Value};

fn parse_src(src: &str) -> Vec<vira::ast::AstNode> {
    let mut parser = Parser::new(tokenize(src));
    parser.parse().expect("parse")
}

#[test]
fn codegen_accepts_integer_literal_programs() {
    let ast = parse_src("1 2 3");
    assert!(supports(&ast));
    let mut cg = CodeGen::new().expect("host supported");
    let id = cg.compile(&ast).expect("compile");
    // The entry point exists in the module once compilation succeeded.
    let code = cg.module().get_finalized_function(id);
    assert!(!code.is_null());
}

#[test]
fn codegen_accepts_the_empty_program() {
    let ast = parse_src("");
    assert!(supports(&ast));
    let mut cg = CodeGen::new().expect("host supported");
    assert!(cg.compile(&ast).is_ok());
}

#[test]
fn codegen_rejects_unsupported_constructs() {
    let ast = parse_src("write 1");
    assert!(!supports(&ast));
    let mut cg = CodeGen::new().expect("host supported");
    assert_eq!(cg.compile(&ast).unwrap_err(), "Unsupported node for codegen.");
}

#[test]
fn codegen_parity_interpreter_succeeds_on_supported_programs() {
    // What the generator accepts, the interpreter runs too: no output, no
    // error.
    let ast = parse_src("1 2 3");
    assert!(supports(&ast));
    let mut interp = Interpreter::new();
    assert!(interp.interpret(&ast).is_ok());
    assert!(interp.output().is_empty());
}

#[test]
fn arena_aligns_and_appends() {
    let mut arena = Arena::new();
    assert_eq!(arena.len(), 0);
    let at = arena.allocate(4, &vec![1u8, 2, 3]).unwrap();
    assert_eq!(at, 0);
    assert_eq!(arena.len(), 3);
    // The next 4-aligned offset after 3 is 4: one padding byte first.
    let at2 = arena.allocate(4, &vec![9u8]).unwrap();
    assert_eq!(at2, 4);
    assert_eq!(arena.len(), 5);
    let at3 = arena.allocate(1, &vec![7u8, 7]).unwrap();
    assert_eq!(at3, 5);
    assert_eq!(arena.len(), 7);
}

#[test]
fn arena_read_recovers_allocated_bytes() {
    let mut arena = Arena::new();
    let at = arena.allocate(8, &vec![5u8, 6, 7]).unwrap();
    let at2 = arena.allocate(8, &vec![42u8]).unwrap();
    assert_eq!(arena.read(at, 3), vec![5u8, 6, 7]);
    assert_eq!(arena.read(at2, 1), vec![42u8]);
    // The padding between the two allocations reads back as zero bytes.
    assert_eq!(arena.read(3, 5), vec![0u8, 0, 0, 0, 0]);
}

#[test]
fn strmap_insert_overwrites_and_get_finds() {
    let mut m: StrMap<Value> = StrMap::new();
    assert!(m.get("x").is_none());
    m.insert("x".to_string(), Value::Int(1));
    m.insert("y".to_string(), Value::Int(2));
    m.insert("x".to_string(), Value::Int(3));
    assert_eq!(m.get("x"), Some(&Value::Int(3)));
    assert_eq!(m.get("y"), Some(&Value::Int(2)));
    assert!(m.get("z").is_none());
}

#[test]
fn rendering_of_values() {
    assert_eq!(render_value(&Value::Int(0)), "0");
    assert_eq!(render_value(&Value::Int(-120)), "-120");
    assert_eq!(render_value(&Value::Int(i64::MIN)), "-9223372036854775808");
    assert_eq!(render_value(&Value::Bool(true)), "true");
    assert_eq!(render_value(&Value::String("abc".to_string())), "abc");
    assert_eq!(
        render_value(&Value::Float(FloatLit { neg: true, digits: "1.25".to_string() })),
        "-1.25"
    );
    assert_eq!(
        render_value(&Value::Array(vec![Value::Int(1), Value::Bool(false)])),
        "[1, false]"
    );
    assert_eq!(render_value(&Value::Array(vec![])), "[]");
}
