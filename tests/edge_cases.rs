use std::time::{Duration, Instant};
use wabznasm::evaluator::evaluate_expression;

#[test]
fn test_negative_exponent_timeout_fix() {
    let expr = "-3^2^1^-4!";

    let first_result = evaluate_expression(expr);
    assert!(
        first_result.is_err(),
        "Evaluation should error on negative exponent"
    );

    let start = Instant::now();
    let second_result = evaluate_expression(expr);
    let elapsed = start.elapsed();

    assert!(
        elapsed < Duration::from_millis(100),
        "Evaluation took too long: {:?}, likely infinite loop",
        elapsed
    );

    assert!(
        second_result.is_err(),
        "Evaluation should error on negative exponent"
    );

    println!("First run: {:?}", first_result);
    println!("Second run: {:?}", second_result);
    println!("Elapsed: {:?}", elapsed);
}

#[test]
fn test_factorial_too_large_fix() {
    let expr = "2/5!!";

    let first_result = evaluate_expression(expr);
    assert!(
        first_result.is_err(),
        "Evaluation should error on factorial too large"
    );

    let start = Instant::now();
    let second_result = evaluate_expression(expr);
    let elapsed = start.elapsed();

    assert!(
        elapsed < Duration::from_millis(100),
        "Evaluation took too long: {:?}, likely infinite loop",
        elapsed
    );

    assert!(
        second_result.is_err(),
        "Evaluation should error on factorial too large"
    );

    println!("First run: {:?}", first_result);
    println!("Second run: {:?}", second_result);
    println!("Elapsed: {:?}", elapsed);
}

#[test]
fn test_stack_overflow_fix() {
    let mut expr = "5".to_string();
    for _ in 0..150 {
        expr.push('!');
    }

    let start = Instant::now();
    let second_result = evaluate_expression(&expr);
    let elapsed = start.elapsed();

    assert!(
        elapsed < Duration::from_millis(500),
        "Evaluation took too long: {:?}, likely infinite recursion",
        elapsed
    );

    assert!(second_result.is_err(), "Evaluation should error on deep recursion");

    println!("Deep factorial chain: {:?}", second_result);
    println!("Elapsed: {:?}", elapsed);
}

#[test]
fn test_large_exponent_chains() {
    let test_cases = vec![
        "2^2^2^2",
        "3^3^2",
        "2^2^2^2^2",
    ];

    for expr in test_cases {
        let start = Instant::now();
        let result = evaluate_expression(expr);
        let elapsed = start.elapsed();

        assert!(
            elapsed < Duration::from_millis(100),
            "Expression '{}' took too long: {:?}",
            expr,
            elapsed
        );

        println!("'{}' -> {:?} in {:?}", expr, result, elapsed);
    }
}
