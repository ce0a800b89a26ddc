use mcss::error::INTERNAL_SERVER_ERROR;
use mcss::AppError;

#[test]
fn every_error_is_internal_server_error() {
    let e = AppError::new("database is locked".to_string());
    assert_eq!(e.status_code(), 500);
    assert_eq!(INTERNAL_SERVER_ERROR, 500);
}

#[test]
fn error_response_carries_cause_text() {
    let (status, body) = AppError::new("pool timed out".to_string()).into_response_parts();
    assert_eq!(status, 500);
    assert_eq!(body, "pool timed out");
}
