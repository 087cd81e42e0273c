use wabznasm::display::Value;
use wabznasm::session::JupyterSession;

#[test]
fn test_jupyter_session_new() {
    let session = JupyterSession::new();
    assert_eq!(session.execution_count(), 0);
}

#[test]
fn test_jupyter_session_execution_count() {
    let mut session = JupyterSession::new();

    // Execute some code to increment counter
    let result = session.execute("2+3");
    assert!(result.is_ok());
    assert_eq!(session.execution_count(), 1);

    // Execute again
    let result = session.execute("5*6");
    assert!(result.is_ok());
    assert_eq!(session.execution_count(), 2);
}

#[test]
fn test_jupyter_session_basic_arithmetic() {
    let mut session = JupyterSession::new();

    let result = session.execute("2+3").unwrap();
    assert!(result.is_some());

    if let Some(Value::Integer(n)) = result {
        assert_eq!(n, 5);
    } else {
        panic!("Expected integer result");
    }
}

#[test]
fn test_jupyter_session_assignment() {
    let mut session = JupyterSession::new();

    let _result = session.execute("x: 42").unwrap();

    // Now retrieve the value
    let result = session.execute("x").unwrap();
    assert!(result.is_some());

    if let Some(Value::Integer(n)) = result {
        assert_eq!(n, 42);
    } else {
        panic!("Expected integer result");
    }
}

#[test]
fn test_jupyter_session_persistent_environment() {
    let mut session = JupyterSession::new();

    // Set a variable in one execution
    session.execute("x: 10").unwrap();

    // Use it in another execution
    let result = session.execute("x * 2").unwrap();
    assert!(result.is_some());

    if let Some(Value::Integer(n)) = result {
        assert_eq!(n, 20);
    } else {
        panic!("Expected integer result");
    }
}

#[test]
fn test_jupyter_session_empty_code() {
    let mut session = JupyterSession::new();

    let result = session.execute("");
    if result.is_ok() {
        assert!(result.unwrap().is_none());
    }
    assert_eq!(session.execution_count(), 1); // Counter still increments
}

#[test]
fn test_jupyter_session_syntax_error() {
    let mut session = JupyterSession::new();

    let result = session.execute("1+*2");
    assert!(result.is_err());
}

#[test]
fn test_jupyter_session_reset() {
    let mut session = JupyterSession::new();

    // Set up some state
    session.execute("x: 100").unwrap();
    assert_eq!(session.execution_count(), 1);

    // Reset
    session.reset();
    assert_eq!(session.execution_count(), 0);

    // Variable should be gone
    let result = session.execute("x");
    assert!(result.is_err()); // Should be undefined variable error
}

#[test]
fn kernel_integration_test_basic_arithmetic() {
    let mut session = JupyterSession::new();
    assert_eq!(
        session.execute("2 + 3 * 4").unwrap().unwrap().as_integer().unwrap(),
        14
    );
    assert_eq!(
        session.execute("2 ^ 3").unwrap().unwrap().as_integer().unwrap(),
        8
    );
    assert_eq!(
        session.execute("5!").unwrap().unwrap().as_integer().unwrap(),
        120
    );
}

#[test]
fn test_variable_assignment_and_persistence() {
    let mut session = JupyterSession::new();
    assert_eq!(
        session.execute("x: 42").unwrap().unwrap().as_integer().unwrap(),
        42
    );
    assert_eq!(
        session.execute("y: x + 8").unwrap().unwrap().as_integer().unwrap(),
        50
    );
    assert_eq!(
        session.execute("y").unwrap().unwrap().as_integer().unwrap(),
        50
    );
}

#[test]
fn test_multi_statement_cells() {
    let mut session = JupyterSession::new();
    session.execute("a:10").unwrap();
    session.execute("b:20").unwrap();
    assert!(session.execute("c:a+b").unwrap().is_some());
    assert_eq!(
        session.execute("c").unwrap().unwrap().as_integer().unwrap(),
        30
    );

    session.execute("x_multi:5").unwrap();
    session.execute("y_multi:10").unwrap();
    let result = session.execute("x_multi+y_multi").unwrap().unwrap();
    assert_eq!(result.as_integer().unwrap(), 15);
}

#[test]
fn test_state_reset() {
    let mut session = JupyterSession::new();
    assert!(session.execute("val: 123").unwrap().is_some());
    assert_eq!(
        session.execute("val").unwrap().unwrap().as_integer().unwrap(),
        123
    );
    session.reset();
    assert!(session.execute("val").is_err()); // Should be undefined after reset
}

#[test]
fn session_undefined_variable_message() {
    let mut session = JupyterSession::new();
    let err = session.execute("missing + 1").unwrap_err();
    assert_eq!(err.code(), Some("OTHER_ERROR"));
    assert_eq!(err.message(), "Undefined variable: missing");
    assert_eq!(session.execution_count(), 1);
}

#[test]
fn session_rebinding_hides_earlier_value() {
    let mut session = JupyterSession::new();
    session.execute("x: 1").unwrap();
    session.execute("x: x + 41").unwrap();
    assert_eq!(session.execute("x").unwrap(), Some(Value::Integer(42)));
    assert_eq!(session.get_environment().size(), 2);
}

#[test]
fn session_failed_binding_keeps_bindings() {
    let mut session = JupyterSession::new();
    assert!(session.execute("z: 1/0").is_err());
    assert!(session.execute("z").is_err());
    assert_eq!(session.execution_count(), 2);
}

#[test]
fn session_backslash_comments() {
    let mut session = JupyterSession::new();
    let result = session.execute("x: 42 \\ This is a backslash comment").unwrap();
    assert_eq!(result, Some(Value::Integer(42)));
    assert_eq!(session.execute("x").unwrap(), Some(Value::Integer(42)));
    assert_eq!(session.execute("\\ only a comment").unwrap(), None);
    assert_eq!(
        session.execute("1 + \\ comment\n 2").unwrap(),
        Some(Value::Integer(3))
    );
}
