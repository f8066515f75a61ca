//! End-to-end behavior of the language: tokenize, parse, interpret.
use vira::interpreter::Interpreter;
use vira::parser::Parser;
use vira::tokenizer::tokenize;

fn run(src: &str) -> Result<Vec<String>, String> {
    let tokens = tokenize(src);
    let mut parser = Parser::new(tokens);
    let ast = parser.parse()?;
    let mut interp = Interpreter::new();
    interp.interpret(&ast)?;
    Ok(interp.output().clone())
}

fn outputs(src: &str) -> Vec<String> {
    run(src).expect("program should run")
}

#[test]
fn arithmetic_precedence() {
    assert_eq!(outputs("write 2 + 3 * 4"), vec!["14".to_string()]);
}

#[test]
fn arithmetic_grouping() {
    assert_eq!(outputs("write (2 + 3) * 4"), vec!["20".to_string()]);
}

#[test]
fn integer_division_truncates() {
    assert_eq!(outputs("write 7 / 2"), vec!["3".to_string()]);
}

#[test]
fn modulo() {
    assert_eq!(outputs("write 7 % 2"), vec!["1".to_string()]);
}

#[test]
fn boolean_and() {
    assert_eq!(outputs("write true && false"), vec!["false".to_string()]);
}

#[test]
fn boolean_or() {
    assert_eq!(outputs("write true || false"), vec!["true".to_string()]);
}

#[test]
fn or_evaluates_right_operand_side_effects() {
    // The left operand alone decides the value, yet the right operand's
    // call still runs and writes.
    let out = outputs("func g() -> bool [ write 9 true ] write true || g()");
    assert_eq!(out, vec!["9".to_string(), "true".to_string()]);
}

#[test]
fn and_evaluates_right_operand_side_effects() {
    let out = outputs("func g() -> bool [ write 9 false ] write false && g()");
    assert_eq!(out, vec!["9".to_string(), "false".to_string()]);
}

#[test]
fn flat_environment_function_mutates_global() {
    // Declaring inside a function body overwrites the single global
    // binding; arguments are not bound, so both calls behave identically.
    let out = outputs("let x = 1 func f(a: int) -> int [ let x = 2 write x ] f(10) f(20) write x");
    assert_eq!(
        out,
        vec!["2".to_string(), "2".to_string(), "2".to_string()]
    );
}

#[test]
fn array_out_of_bounds_is_error_not_crash() {
    let err = run("let a = [1,2,3] write a[5]").unwrap_err();
    assert_eq!(err, "Index out of bounds.");
}

#[test]
fn array_indexing() {
    assert_eq!(outputs("let a = [10,20,30] write a[1]"), vec!["20".to_string()]);
}

#[test]
fn negative_index_is_out_of_bounds() {
    let err = run("let a = [1] write a[0 - 1]").unwrap_err();
    assert_eq!(err, "Index out of bounds.");
}

#[test]
fn for_loop_runs_body_exactly_five_times() {
    // Counting from 0 while less than 5, incrementing by 1 per iteration
    // (the increment expression is a call, the only expression with an
    // effect): the body's write runs exactly five times.
    let src = "func bump() -> int [ let i = i + 1 ] let i = 0 for let n = 0; i < 5; bump() { write i }";
    assert_eq!(
        outputs(src),
        vec![
            "0".to_string(),
            "1".to_string(),
            "2".to_string(),
            "3".to_string(),
            "4".to_string()
        ]
    );
}

#[test]
fn while_loop_counts() {
    let src = "func bump() -> int [ let i = i + 1 ] let i = 0 while i < 3 { write i bump() }";
    assert_eq!(
        outputs(src),
        vec!["0".to_string(), "1".to_string(), "2".to_string()]
    );
}

#[test]
fn if_else_branches() {
    assert_eq!(outputs("if 1 < 2 write 7 else write 8"), vec!["7".to_string()]);
    assert_eq!(outputs("if 2 < 1 write 7 else write 8"), vec!["8".to_string()]);
}

#[test]
fn non_bool_condition_is_error() {
    assert_eq!(run("if 1 write 2").unwrap_err(), "Condition must be bool.");
    assert_eq!(run("while 1 write 2").unwrap_err(), "Condition must be bool.");
}

#[test]
fn division_by_zero_is_error() {
    assert_eq!(run("write 1 / 0").unwrap_err(), "Division by zero.");
    assert_eq!(run("write 1 % 0").unwrap_err(), "Division by zero.");
}

#[test]
fn undefined_variable_is_error() {
    assert_eq!(run("write nope").unwrap_err(), "Undefined variable.");
}

#[test]
fn undefined_function_is_error() {
    assert_eq!(run("nope()").unwrap_err(), "Undefined function.");
}

#[test]
fn type_mismatch_in_binary_op() {
    assert_eq!(
        run("write 1 + true").unwrap_err(),
        "Type mismatch in binary op."
    );
    assert_eq!(
        run("write true + false").unwrap_err(),
        "Type mismatch in binary op."
    );
}

#[test]
fn invalid_unary_is_error() {
    assert_eq!(run("write -true").unwrap_err(), "Invalid unary op.");
    assert_eq!(run("write !1").unwrap_err(), "Invalid unary op.");
}

#[test]
fn indexing_type_errors() {
    assert_eq!(run("write 1[0]").unwrap_err(), "Cannot index non-array.");
    assert_eq!(run("let a = [1] write a[true]").unwrap_err(), "Index must be int.");
}

#[test]
fn return_exits_function_body_early() {
    let out = outputs("func f() -> int [ return 7 write 99 ] write f()");
    assert_eq!(out, vec!["7".to_string()]);
}

#[test]
fn call_yields_last_block_value() {
    assert_eq!(outputs("func f() -> int [ 41 + 1 ] write f()"), vec!["42".to_string()]);
}

#[test]
fn unary_negation_and_not() {
    assert_eq!(outputs("write -5"), vec!["-5".to_string()]);
    assert_eq!(outputs("write !true"), vec!["false".to_string()]);
    assert_eq!(outputs("write - - 5"), vec!["5".to_string()]);
}

#[test]
fn wrapping_addition_at_i64_max() {
    assert_eq!(
        outputs("write 9223372036854775807 + 1"),
        vec!["-9223372036854775808".to_string()]
    );
}

#[test]
fn comparisons() {
    assert_eq!(outputs("write 1 == 1"), vec!["true".to_string()]);
    assert_eq!(outputs("write 1 != 1"), vec!["false".to_string()]);
    assert_eq!(outputs("write 2 >= 3"), vec!["false".to_string()]);
    assert_eq!(outputs("write 2 <= 2"), vec!["true".to_string()]);
}

#[test]
fn string_and_float_and_array_rendering() {
    assert_eq!(outputs("write \"hi\""), vec!["hi".to_string()]);
    assert_eq!(outputs("write 3.14"), vec!["3.14".to_string()]);
    assert_eq!(outputs("write -2.5"), vec!["-2.5".to_string()]);
    assert_eq!(outputs("write [1, 2, 3]"), vec!["[1, 2, 3]".to_string()]);
    assert_eq!(outputs("write [[1], [true]]"), vec!["[[1], [true]]".to_string()]);
}

#[test]
fn partial_output_survives_a_fault() {
    let tokens = tokenize("write 1 write nope");
    let mut parser = Parser::new(tokens);
    let ast = parser.parse().unwrap();
    let mut interp = Interpreter::new();
    assert_eq!(interp.interpret(&ast).unwrap_err(), "Undefined variable.");
    assert_eq!(interp.output().clone(), vec!["1".to_string()]);
}

#[test]
fn state_persists_across_interpret_calls() {
    // One interpreter instance across lines, as the interactive loop uses it.
    let mut interp = Interpreter::new();
    let mut parser = Parser::new(tokenize("let x = 41"));
    interp.interpret(&parser.parse().unwrap()).unwrap();
    let mut parser2 = Parser::new(tokenize("write x + 1"));
    interp.interpret(&parser2.parse().unwrap()).unwrap();
    assert_eq!(interp.output().clone(), vec!["42".to_string()]);
}

#[test]
fn top_level_return_stops_the_program() {
    assert_eq!(outputs("write 1 return 0 write 2"), vec!["1".to_string()]);
}

#[test]
fn function_redeclaration_overwrites() {
    let out = outputs("func f() -> int [ write 1 ] func f() -> int [ write 2 ] f()");
    assert_eq!(out, vec!["2".to_string()]);
}
