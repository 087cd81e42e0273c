use wabznasm::evaluator::evaluate_expression;

#[test]
fn test_simple_addition() {
    assert_eq!(evaluate_expression("1+2").unwrap(), 3);
    assert_eq!(evaluate_expression("10+5").unwrap(), 15);
    assert_eq!(evaluate_expression("100+200").unwrap(), 300);
}

#[test]
fn test_simple_subtraction() {
    assert_eq!(evaluate_expression("5-2").unwrap(), 3);
    assert_eq!(evaluate_expression("10-7").unwrap(), 3);
    assert_eq!(evaluate_expression("0-5").unwrap(), -5);
}

#[test]
fn test_multiplication() {
    assert_eq!(evaluate_expression("3*4").unwrap(), 12);
    assert_eq!(evaluate_expression("7*8").unwrap(), 56);
    assert_eq!(evaluate_expression("0*100").unwrap(), 0);
}

#[test]
fn test_division() {
    assert_eq!(evaluate_expression("10/2").unwrap(), 5);
    assert_eq!(evaluate_expression("15/3").unwrap(), 5);
    assert_eq!(evaluate_expression("20/4").unwrap(), 5);
}

#[test]
fn test_modulo() {
    assert_eq!(evaluate_expression("5%2").unwrap(), 1);
    assert_eq!(evaluate_expression("10%3").unwrap(), 1);
    assert_eq!(evaluate_expression("7%4").unwrap(), 3);
}

#[test]
fn test_modulo_with_other_ops() {
    assert_eq!(evaluate_expression("2+5%3").unwrap(), 4);
    assert_eq!(evaluate_expression("10%3*2").unwrap(), 2);
}

#[test]
fn test_unary_negation() {
    assert_eq!(evaluate_expression("-5").unwrap(), -5);
    assert_eq!(evaluate_expression("-(-3)").unwrap(), 3);
    assert_eq!(evaluate_expression("--5").unwrap(), 5);
}

#[test]
fn test_precedence() {
    assert_eq!(evaluate_expression("2*3+4").unwrap(), 10);
    assert_eq!(evaluate_expression("2+3*4").unwrap(), 14);
    assert_eq!(evaluate_expression("10-2*3").unwrap(), 4);
    assert_eq!(evaluate_expression("20/4+2").unwrap(), 7);
}

#[test]
fn test_parentheses() {
    assert_eq!(evaluate_expression("2*(3+4)").unwrap(), 14);
    assert_eq!(evaluate_expression("(5-2)*3").unwrap(), 9);
    assert_eq!(evaluate_expression("10/(2+3)").unwrap(), 2);
}

#[test]
fn test_power() {
    assert_eq!(evaluate_expression("2^3").unwrap(), 8);
    assert_eq!(evaluate_expression("3^2").unwrap(), 9);
    assert_eq!(evaluate_expression("5^0").unwrap(), 1);
    assert_eq!(evaluate_expression("1^10").unwrap(), 1);
}

#[test]
fn test_power_precedence() {
    assert_eq!(evaluate_expression("2^3^2").unwrap(), 512);
    assert_eq!(evaluate_expression("2*3^2").unwrap(), 18);
}

#[test]
fn evaluator_test_factorial() {
    assert_eq!(evaluate_expression("0!").unwrap(), 1);
    assert_eq!(evaluate_expression("1!").unwrap(), 1);
    assert_eq!(evaluate_expression("3!").unwrap(), 6);
    assert_eq!(evaluate_expression("4!").unwrap(), 24);
    assert_eq!(evaluate_expression("5!").unwrap(), 120);
}

#[test]
fn test_multiple_factorials() {
    assert_eq!(evaluate_expression("3!!").unwrap(), 720);
    assert_eq!(evaluate_expression("2!!!").unwrap(), 2);
}

#[test]
fn evaluator_test_complex_expressions() {
    assert_eq!(evaluate_expression("2 * (3 + 4) + 5").unwrap(), 19);
    assert_eq!(evaluate_expression("(10 - 5) * 2 + 3").unwrap(), 13);
    assert_eq!(evaluate_expression("2^3 + 3!").unwrap(), 14);
    assert_eq!(evaluate_expression("4! / 2^3").unwrap(), 3);
}

#[test]
fn test_whitespace() {
    assert_eq!(evaluate_expression("   1    +     2   ").unwrap(), 3);
    assert_eq!(evaluate_expression("\t5\n*\r3\t").unwrap(), 15);
}

#[test]
fn test_constants() {
    assert_eq!(evaluate_expression("42").unwrap(), 42);
    assert_eq!(evaluate_expression("0").unwrap(), 0);
    assert_eq!(evaluate_expression("999").unwrap(), 999);
}

#[test]
fn evaluator_test_division_by_zero() {
    let err = evaluate_expression("1/0").unwrap_err();
    let msg = err.message();
    assert!(msg.contains("Division by zero"));

    let err = evaluate_expression("42/(3-3)").unwrap_err();
    let msg = err.message();
    assert!(msg.contains("Division by zero"));
}

#[test]
fn test_modulo_by_zero() {
    let err = evaluate_expression("5%0").unwrap_err();
    let msg = err.message();
    assert!(msg.contains("Division by zero"));

    let err = evaluate_expression("42%(2-2)").unwrap_err();
    let msg = err.message();
    assert!(msg.contains("Division by zero"));
}

#[test]
fn evaluator_test_negative_exponent() {
    let err = evaluate_expression("2^-1").unwrap_err();
    let msg = err.message();
    assert!(msg.contains("Negative exponent"));

    let err = evaluate_expression("5^(-2)").unwrap_err();
    let msg = err.message();
    assert!(msg.contains("Negative exponent"));
}

#[test]
fn test_exponent_too_large() {
    let err = evaluate_expression("2^64").unwrap_err();
    let msg = err.message();
    assert!(msg.contains("Exponent too large"));

    let err = evaluate_expression("2^100").unwrap_err();
    let msg = err.message();
    assert!(msg.contains("Exponent too large"));
}

#[test]
fn test_factorial_negative() {
    let err = evaluate_expression("(-1)!").unwrap_err();
    let msg = err.message();
    assert!(msg.contains("Factorial of negative"));

    let err = evaluate_expression("(-5)!").unwrap_err();
    let msg = err.message();
    assert!(msg.contains("Factorial of negative"));
}

#[test]
fn test_factorial_too_large() {
    let err = evaluate_expression("21!").unwrap_err();
    let msg = err.message();
    assert!(msg.contains("Factorial too large"));

    let err = evaluate_expression("25!").unwrap_err();
    let msg = err.message();
    assert!(msg.contains("Factorial too large"));
}

#[test]
fn test_syntax_errors() {
    let err = evaluate_expression("").unwrap_err();
    let msg = err.message();
    assert!(msg.contains("Syntax error in expression"));

    let err = evaluate_expression("1+").unwrap_err();
    let msg = err.message();
    assert!(msg.contains("Syntax error in expression"));

    let err = evaluate_expression("@#$").unwrap_err();
    let msg = err.message();
    assert!(msg.contains("Syntax error in expression"));
}

#[test]
fn test_power_edge_cases() {
    assert_eq!(evaluate_expression("0^0").unwrap(), 1);
    assert_eq!(evaluate_expression("0^5").unwrap(), 0);
    assert_eq!(evaluate_expression("(-2)^3").unwrap(), -8);
    assert_eq!(evaluate_expression("(-2)^2").unwrap(), 4);
}

#[test]
fn test_factorial_edge_cases() {
    assert_eq!(evaluate_expression("0!").unwrap(), 1);
    assert_eq!(evaluate_expression("1!").unwrap(), 1);
    assert_eq!(evaluate_expression("20!").unwrap(), 2432902008176640000);
}

#[test]
fn test_nested_expressions() {
    assert_eq!(evaluate_expression("((((1+2)*3)+4)*5)").unwrap(), 65);
    assert_eq!(evaluate_expression("2^(3^(2))").unwrap(), 512);
}

#[test]
fn test_mixed_operations() {
    assert_eq!(evaluate_expression("2^3 * 4! - 5").unwrap(), 187);
    assert_eq!(evaluate_expression("3! + 2^2 - 1").unwrap(), 9);
    assert_eq!(evaluate_expression("(2+3)! / 5^2").unwrap(), 4);
}

#[test]
fn test_associativity() {
    assert_eq!(evaluate_expression("10-5-2").unwrap(), 3);
    assert_eq!(evaluate_expression("20/4/2").unwrap(), 2);

    assert_eq!(evaluate_expression("2^3^2").unwrap(), 512);
}

#[test]
fn test_evaluator_table_driven_binary_ops() {
    assert_eq!(evaluate_expression("4*5").unwrap(), 20);

    assert_eq!(evaluate_expression("10/2").unwrap(), 5);

    assert_eq!(evaluate_expression("10%3").unwrap(), 1);

    assert_eq!(evaluate_expression("7-2").unwrap(), 5);

    assert_eq!(evaluate_expression("7+8").unwrap(), 15);
}

#[test]
fn test_evaluator_table_driven_div_by_zero() {
    let err = evaluate_expression("42/0").unwrap_err();
    let msg = err.message();
    assert!(msg.contains("Division by zero"));

    let err = evaluate_expression("42/(3-3)").unwrap_err();
    let msg = err.message();
    assert!(msg.contains("Division by zero"));
}

#[test]
fn test_evaluator_table_driven_mod_by_zero() {
    let err = evaluate_expression("42%0").unwrap_err();
    let msg = err.message();
    assert!(msg.contains("Division by zero"));

    let err = evaluate_expression("42%(2-2)").unwrap_err();
    let msg = err.message();
    assert!(msg.contains("Division by zero"));
}
