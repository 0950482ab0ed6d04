use axum::http::StatusCode;
use micro_frontend::errors::{
    database_operation_failed, json_parsing_failed, template_rendering_failed, AppError, ErrorCode,
};

#[test]
fn test_error_creation() {
    let validation_error = AppError::validation_failed("Invalid input");
    assert!(matches!(validation_error.code, ErrorCode::ValidationFailed));
    assert_eq!(validation_error.message, "Invalid input");

    let user_not_found = AppError::user_not_found("testuser");
    assert!(matches!(user_not_found.code, ErrorCode::UserNotFound));
    assert_eq!(user_not_found.message, "User 'testuser' not found");

    let db_error = AppError::database_error("Connection failed");
    assert!(matches!(db_error.code, ErrorCode::DatabaseError));
    assert_eq!(db_error.message, "Connection failed");

    let invalid_input = AppError::invalid_input("Invalid JSON");
    assert!(matches!(invalid_input.code, ErrorCode::InvalidInput));
    assert_eq!(invalid_input.message, "Invalid JSON");

    let server_error = AppError::internal_server_error("Unknown error");
    assert!(matches!(server_error.code, ErrorCode::InternalServerError));
    assert_eq!(server_error.message, "Unknown error");
}

#[test]
fn test_error_display() {
    let error = AppError::validation_failed("Test message");
    assert_eq!(format!("{}", error.to_display_string()), "ValidationFailed: Test message");
}

#[test]
fn test_error_response_status_codes() {
    let status = |e: AppError| StatusCode::from_u16(e.status_code()).unwrap();

    let validation_error = status(AppError::validation_failed("Invalid input"));
    assert_eq!(validation_error, StatusCode::BAD_REQUEST);

    let not_found_error = status(AppError::user_not_found("testuser"));
    assert_eq!(not_found_error, StatusCode::NOT_FOUND);

    let db_error = status(AppError::database_error("DB error"));
    assert_eq!(db_error, StatusCode::INTERNAL_SERVER_ERROR);

    let invalid_input = status(AppError::invalid_input("Bad input"));
    assert_eq!(invalid_input, StatusCode::BAD_REQUEST);

    let server_error = status(AppError::internal_server_error("Unknown error"));
    assert_eq!(server_error, StatusCode::INTERNAL_SERVER_ERROR);
}

#[test]
fn test_error_conversions() {
    let sqlx_error = sqlx::Error::PoolTimedOut;
    let app_error = AppError::from(sqlx_error);
    assert!(matches!(app_error.code, ErrorCode::DatabaseError));

    let anyhow_error = anyhow::Error::msg("Test error");
    let app_error = AppError::from(anyhow_error);
    assert!(matches!(app_error.code, ErrorCode::InternalServerError));

    let json_error = serde_json::from_str::<serde_json::Value>("invalid json").unwrap_err();
    let app_error = AppError::from(json_error);
    assert!(matches!(app_error.code, ErrorCode::InvalidInput));
}

#[test]
fn a_converted_error_quotes_its_cause() {
    let cause = sqlx::Error::PoolTimedOut.to_string();
    let error = AppError::from(sqlx::Error::PoolTimedOut);
    assert_eq!(error.message, format!("Database operation failed: {}", cause));

    let json_error = serde_json::from_str::<serde_json::Value>("{").unwrap_err();
    let cause = json_error.to_string();
    let error = AppError::from(json_error);
    assert_eq!(error.message, format!("JSON parsing failed: {}", cause));

    let template_error =
        minijinja::Environment::new().render_str("{{ 1 +", minijinja::Value::UNDEFINED).unwrap_err();
    let cause = template_error.to_string();
    let error = AppError::from(template_error);
    assert!(matches!(error.code, ErrorCode::InternalServerError));
    assert_eq!(error.message, format!("Template rendering failed: {}", cause));

    let error = AppError::from(anyhow::Error::msg("Test error"));
    assert_eq!(error.message, "Test error");
    assert!(error.details.is_none());
}

#[test]
fn errors_made_from_a_cause_have_fixed_prefixes() {
    assert_eq!(database_operation_failed("x").message, "Database operation failed: x");
    assert_eq!(template_rendering_failed("y").message, "Template rendering failed: y");
    assert_eq!(json_parsing_failed("z").message, "JSON parsing failed: z");
    assert!(matches!(database_operation_failed("x").code, ErrorCode::DatabaseError));
    assert!(matches!(template_rendering_failed("y").code, ErrorCode::InternalServerError));
    assert!(matches!(json_parsing_failed("z").code, ErrorCode::InvalidInput));
}

#[test]
fn every_code_has_its_name_status_and_summary() {
    let all = [
        (ErrorCode::ValidationFailed, "ValidationFailed", 400, "Validation failed"),
        (ErrorCode::UserNotFound, "UserNotFound", 404, "User not found"),
        (ErrorCode::DatabaseError, "DatabaseError", 500, "Database error"),
        (ErrorCode::AuthenticationFailed, "AuthenticationFailed", 401, "Authentication failed"),
        (ErrorCode::InvalidInput, "InvalidInput", 400, "Invalid input"),
        (ErrorCode::InternalServerError, "InternalServerError", 500, "Internal server error"),
    ];
    for (code, name, status, summary) in all {
        assert_eq!(code.name(), name);
        assert_eq!(format!("{:?}", code), name);
        assert_eq!(code.status_code(), status);
        assert_eq!(code.summary(), summary);
        assert_eq!(AppError::new(code, "m").to_display_string(), format!("{}: m", name));
    }
    let error = AppError::authentication_failed("no token");
    assert!(matches!(error.code, ErrorCode::AuthenticationFailed));
    assert_eq!(error.status_code(), 401);
}

#[test]
fn details_are_attached_and_replaced() {
    let error = AppError::new(ErrorCode::InvalidInput, "bad");
    assert!(error.details.is_none());
    let error = error.with_details("first");
    assert_eq!(error.details.as_deref(), Some("first"));
    let error = error.with_details("second");
    assert_eq!(error.details.as_deref(), Some("second"));
    assert_eq!(error.message, "bad");
    assert!(matches!(error.code, ErrorCode::InvalidInput));
}
