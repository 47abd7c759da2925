use sms_auth::config::ConfigError;
use sms_auth::errors::{AppError, TokenError};

fn seen_by_client(e: AppError) -> (u16, String) {
    let response = e.into_response();
    (response.status, response.message)
}

#[test]
fn server_faults_answer_500_without_detail() {
    assert_eq!(
        seen_by_client(AppError::ConfigError(ConfigError::MissingVar("JWT_SECRET".to_string()))),
        (500, "Server configuration error".to_string())
    );
    assert_eq!(
        seen_by_client(AppError::DatabaseError("connection reset".to_string())),
        (500, "Database operation failed".to_string())
    );
    assert_eq!(
        seen_by_client(AppError::PasswordHashingError(bcrypt::BcryptError::InvalidCost(
            "x".to_string()
        ))),
        (500, "Internal server error".to_string())
    );
    assert_eq!(
        seen_by_client(AppError::InternalServerError("bind failed".to_string())),
        (500, "An unexpected error occurred".to_string())
    );
}

#[test]
fn authentication_failures_answer_401() {
    assert_eq!(
        seen_by_client(AppError::JwtError(TokenError::Expired)),
        (401, "Invalid or expired token".to_string())
    );
    assert_eq!(
        seen_by_client(AppError::JwtError(TokenError::MissingClaim)),
        (401, "Invalid or expired token".to_string())
    );
    assert_eq!(
        seen_by_client(AppError::InvalidCredentials),
        (401, "Incorrect email or password".to_string())
    );
    assert_eq!(
        seen_by_client(AppError::Unauthorized),
        (401, "Authentication required".to_string())
    );
}

#[test]
fn taken_name_answers_409() {
    assert_eq!(
        seen_by_client(AppError::UserAlreadyExists),
        (409, "Username is already in use".to_string())
    );
}

#[test]
fn bad_request_echoes_its_message() {
    assert_eq!(
        seen_by_client(AppError::BadRequest("no body".to_string())),
        (400, "no body".to_string())
    );
    assert_eq!(seen_by_client(AppError::BadRequest(String::new())), (400, String::new()));
}

#[test]
fn failed_insert_is_a_taken_name_or_a_directory_failure() {
    assert!(matches!(
        AppError::from_insert_failure(true, "duplicate key".to_string()),
        AppError::UserAlreadyExists
    ));
    match AppError::from_insert_failure(false, "timeout".to_string()) {
        AppError::DatabaseError(cause) => assert_eq!(cause, "timeout"),
        _ => panic!("expected a directory failure"),
    }
}
