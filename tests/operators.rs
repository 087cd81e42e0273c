use wabznasm::evaluator::evaluate_expression;

#[test]
fn test_jit_addition() {
    assert_eq!(evaluate_expression("1+2").unwrap(), 3);
}

#[test]
fn test_jit_precedence_and_mul() {
    assert_eq!(evaluate_expression("2*3+4").unwrap(), 10);
    assert_eq!(evaluate_expression("2+3*4").unwrap(), 14);
}

#[test]
fn test_jit_parentheses() {
    assert_eq!(evaluate_expression("2*(3+4)").unwrap(), 14);
}

#[test]
fn test_jit_unary() {
    assert_eq!(evaluate_expression("-5").unwrap(), -5);
    assert_eq!(evaluate_expression("--5").unwrap(), 5);
}

#[test]
fn test_jit_factorial() {
    assert_eq!(evaluate_expression("3!").unwrap(), 6);
    assert_eq!(evaluate_expression("3!!").unwrap(), 720);
}

#[test]
fn test_jit_power() {
    assert_eq!(evaluate_expression("2^3").unwrap(), 8);
    assert_eq!(evaluate_expression("2^3^2").unwrap(), 512);
}

#[test]
fn test_jit_error_division_by_zero() {
    let err = evaluate_expression("1/0").unwrap_err();
    let msg = err.message();
    assert!(msg.contains("Division by zero"));
}
#[test]
fn test_jit_modulo() {
    assert_eq!(evaluate_expression("5%2").unwrap(), 1);
    assert_eq!(evaluate_expression("2+5%3").unwrap(), 2 + 5 % 3);
    assert_eq!(evaluate_expression("10%3*2").unwrap(), 2);
}

#[test]
fn test_jit_error_modulo_by_zero() {
    let err = evaluate_expression("5%0").unwrap_err();
    let msg = err.message();
    assert!(msg.contains("Division by zero"));
}

#[test]
fn test_jit_error_syntax() {
    let err = evaluate_expression("").unwrap_err();
    let msg = err.message();
    assert!(msg.contains("Syntax error in expression"));
}

#[test]
fn test_jit_negative_exponent() {
    let err = evaluate_expression("2^-1").unwrap_err();
    let msg = err.message();
    assert!(msg.contains("Negative exponent"));
}

#[test]
fn test_jit_exponent_too_large() {
    let err = evaluate_expression("2^64").unwrap_err();
    let msg = err.message();
    assert!(msg.contains("Exponent too large"));
}

#[test]
fn test_jit_factorial_too_large() {
    let err = evaluate_expression("21!").unwrap_err();
    let msg = err.message();
    assert!(msg.contains("Factorial too large"));
}

#[test]
fn test_jit_missing_operand() {
    let err = evaluate_expression("1+").unwrap_err();
    let msg = err.message();
    assert!(msg.contains("Syntax error in expression"));
}

#[test]
fn test_jit_invalid_token() {
    let err = evaluate_expression("@#$").unwrap_err();
    let msg = err.message();
    assert!(msg.contains("Syntax error in expression"));
}

#[test]
fn test_jit_complex_expression() {
    assert_eq!(evaluate_expression("2 * (3 + 4) + 5").unwrap(), 19);
}

#[test]
fn test_jit_whitespace() {
    assert_eq!(evaluate_expression("   1    +     2   ").unwrap(), 3);
}

#[test]
fn test_table_driven_binary_ops() {
    assert_eq!(evaluate_expression("4*5").unwrap(), 20);

    assert_eq!(evaluate_expression("10/2").unwrap(), 5);

    assert_eq!(evaluate_expression("10%3").unwrap(), 1);

    assert_eq!(evaluate_expression("7-2").unwrap(), 5);

    assert_eq!(evaluate_expression("7+8").unwrap(), 15);
}

#[test]
fn test_table_driven_div_by_zero() {
    let err = evaluate_expression("42/0").unwrap_err();
    let msg = err.message();
    assert!(msg.contains("Division by zero"));

    let err = evaluate_expression("42/(3-3)").unwrap_err();
    let msg = err.message();
    assert!(msg.contains("Division by zero"));
}

#[test]
fn test_table_driven_mod_by_zero() {
    let err = evaluate_expression("42%0").unwrap_err();
    let msg = err.message();
    assert!(msg.contains("Division by zero"));

    let err = evaluate_expression("42%(2-2)").unwrap_err();
    let msg = err.message();
    assert!(msg.contains("Division by zero"));
}
