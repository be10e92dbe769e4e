use design_patterns::raii_guard::{ConnectionError, ConnectionGuard};

#[test]
fn test_raii_guard() {
    let connection_guard = ConnectionGuard::new();

    assert!(connection_guard.send_data("Something New!").is_ok());
}

#[test]
fn send_after_close_fails() {
    let mut guard = ConnectionGuard::new();
    guard.close();

    assert_eq!(guard.send_data("late"), Err(ConnectionError::Closed));
}

#[test]
fn closing_twice_is_harmless() {
    let mut guard = ConnectionGuard::new();
    guard.close();
    guard.close();

    assert_eq!(guard.send_data("late"), Err(ConnectionError::Closed));
}
