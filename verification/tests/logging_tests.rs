use micro_frontend::logging::{
    error_logging_middleware, is_auth_endpoint, request_context_middleware,
    security_access_record, security_event_logging_middleware, FieldValue, LogLevel, LogRecord,
    RequestContext,
};

fn text(record: &LogRecord, name: &str) -> Option<String> {
    record.fields.iter().find(|(n, _)| n == name).and_then(|(_, v)| match v {
        FieldValue::Text(t) => Some(t.clone()),
        FieldValue::OptionalText(t) => t.clone(),
        FieldValue::Number(n) => Some(n.to_string()),
    })
}

fn names(record: &LogRecord) -> Vec<String> {
    record.fields.iter().map(|(n, _)| n.clone()).collect()
}

fn context() -> RequestContext {
    RequestContext::with_request_id(
        "req-1".to_string(),
        "/edit".to_string(),
        "GET".to_string(),
        Some("agent".to_string()),
        1000,
    )
}

#[test]
fn test_log_structured_data() {
    let record = LogRecord {
        level: LogLevel::Info,
        message: "User logged in successfully".to_string(),
        fields: vec![
            ("user_id".to_string(), FieldValue::Text("test123".to_string())),
            ("action".to_string(), FieldValue::Text("login".to_string())),
            ("status".to_string(), FieldValue::Text("success".to_string())),
        ],
    };
    assert_eq!(record.level, LogLevel::Info);
    assert_eq!(text(&record, "user_id").as_deref(), Some("test123"));
    assert_eq!(text(&record, "action").as_deref(), Some("login"));
    assert_eq!(text(&record, "status").as_deref(), Some("success"));
}

#[test]
fn a_new_context_gets_a_fresh_identifier() {
    let a = RequestContext::new("/a".to_string(), "GET".to_string(), None, 5);
    let b = RequestContext::new("/a".to_string(), "GET".to_string(), None, 5);
    assert_eq!(a.request_id.len(), 36);
    assert_eq!(a.request_id.matches('-').count(), 4);
    assert_ne!(a.request_id, b.request_id);
    for id in [&a.request_id, &b.request_id] {
        let chars: Vec<char> = id.chars().collect();
        assert_eq!(chars.len(), 36);
        for (i, c) in chars.iter().enumerate() {
            if i == 8 || i == 13 || i == 18 || i == 23 {
                assert_eq!(*c, '-');
            } else {
                assert!(matches!(*c, '0'..='9' | 'a'..='f'), "{id}");
            }
        }
        assert_eq!(chars[14], '4');
        assert!(matches!(chars[19], '8' | '9' | 'a' | 'b'), "{id}");
    }
    assert_eq!(a.start_time, 5);
    assert_eq!(a.path, "/a");
    assert_eq!(a.method, "GET");
    assert!(a.username.is_none());
    assert!(a.user_agent.is_none());
}

#[test]
fn with_username_changes_only_the_username() {
    let ctx = context().with_username(Some("alice".to_string()));
    assert_eq!(ctx.username.as_deref(), Some("alice"));
    assert_eq!(ctx.request_id, "req-1");
    assert_eq!(ctx.start_time, 1000);
    assert_eq!(ctx.user_agent.as_deref(), Some("agent"));
    let ctx = ctx.with_username(None);
    assert!(ctx.username.is_none());
}

#[test]
fn the_start_of_a_request_is_an_info_record() {
    let record = context().log_request_start();
    assert_eq!(record.level, LogLevel::Info);
    assert_eq!(record.message, "Request started");
    assert_eq!(names(&record), ["request_id", "path", "method", "username", "user_agent"]);
    assert_eq!(text(&record, "user_agent").as_deref(), Some("agent"));
    assert_eq!(text(&record, "username"), None);
}

#[test]
fn the_completion_record_carries_status_and_duration() {
    let record = context().log_request_completion(204, 1250);
    assert_eq!(record.level, LogLevel::Info);
    assert_eq!(record.message, "Request completed");
    assert_eq!(
        names(&record),
        ["request_id", "path", "method", "username", "status", "duration_ms"]
    );
    assert_eq!(text(&record, "status").as_deref(), Some("204"));
    assert_eq!(text(&record, "duration_ms").as_deref(), Some("250"));
    let record = context().log_request_completion(200, 999);
    assert_eq!(text(&record, "duration_ms").as_deref(), Some("0"));
}

#[test]
fn a_database_operation_is_a_note_or_a_warning() {
    let ok = context().log_database_operation("get_user", true, 7);
    assert_eq!(ok.level, LogLevel::Debug);
    assert_eq!(ok.message, "Database operation completed successfully");
    assert_eq!(names(&ok), ["request_id", "operation", "duration_ms"]);
    assert_eq!(text(&ok, "operation").as_deref(), Some("get_user"));
    let failed = context().log_database_operation("get_user", false, 7);
    assert_eq!(failed.level, LogLevel::Warn);
    assert_eq!(failed.message, "Database operation failed");
    assert_eq!(text(&failed, "duration_ms").as_deref(), Some("7"));
}

#[test]
fn an_auth_event_gives_the_reason_only_for_a_failure() {
    let ok = context().log_auth_event(true, Some("ignored"));
    assert_eq!(ok.level, LogLevel::Info);
    assert_eq!(ok.message, "Authentication successful");
    assert_eq!(names(&ok), ["request_id", "username"]);
    let failed = context().log_auth_event(false, Some("expired"));
    assert_eq!(failed.level, LogLevel::Warn);
    assert_eq!(failed.message, "Authentication failed");
    assert_eq!(names(&failed), ["request_id", "username", "reason"]);
    assert_eq!(text(&failed, "reason").as_deref(), Some("expired"));
    let failed = context().log_auth_event(false, None);
    assert_eq!(text(&failed, "reason"), None);
}

#[test]
fn an_error_is_logged_with_its_text() {
    let record = context().log_error("boom");
    assert_eq!(record.level, LogLevel::Error);
    assert_eq!(record.message, "Request error occurred");
    assert_eq!(names(&record), ["request_id", "path", "method", "username", "error"]);
    assert_eq!(text(&record, "error").as_deref(), Some("boom"));
}

#[test]
fn only_error_responses_are_logged_again() {
    assert!(request_context_middleware(&context(), 200, 3).is_none());
    assert!(request_context_middleware(&context(), 399, 3).is_none());
    let record = request_context_middleware(&context(), 400, 3).unwrap();
    assert_eq!(record.level, LogLevel::Warn);
    assert_eq!(record.message, "Request resulted in error response");
    assert_eq!(text(&record, "level").as_deref(), Some("warn"));
    assert_eq!(text(&record, "status_code").as_deref(), Some("400"));
    let record = request_context_middleware(&context(), 499, 3).unwrap();
    assert_eq!(text(&record, "level").as_deref(), Some("warn"));
    let record = request_context_middleware(&context(), 500, 3).unwrap();
    assert_eq!(record.level, LogLevel::Warn);
    assert_eq!(text(&record, "level").as_deref(), Some("error"));
}

#[test]
fn the_error_log_tells_server_errors_from_client_errors() {
    assert!(error_logging_middleware(Some("r"), "/", "GET", 200).is_none());
    assert!(error_logging_middleware(Some("r"), "/", "GET", 399).is_none());
    assert!(error_logging_middleware(Some("r"), "/", "GET", 600).is_none());
    let client = error_logging_middleware(None, "/p", "POST", 404).unwrap();
    assert_eq!(client.level, LogLevel::Warn);
    assert_eq!(client.message, "Client error occurred");
    assert_eq!(text(&client, "request_id").as_deref(), Some("unknown"));
    assert_eq!(names(&client), ["request_id", "status_code", "path", "method"]);
    let server = error_logging_middleware(Some("r9"), "/p", "POST", 599).unwrap();
    assert_eq!(server.level, LogLevel::Error);
    assert_eq!(server.message, "Server error occurred");
    assert_eq!(text(&server, "request_id").as_deref(), Some("r9"));
    for status in 0u16..700 {
        let code = axum::http::StatusCode::from_u16(status);
        let expected = code.map(|c| c.is_server_error() || c.is_client_error()).unwrap_or(false);
        assert_eq!(error_logging_middleware(None, "/", "GET", status).is_some(), expected);
    }
}

#[test]
fn sensitive_endpoints_are_found_anywhere_in_the_path() {
    assert!(is_auth_endpoint("/edit"));
    assert!(is_auth_endpoint("/api/username"));
    assert!(is_auth_endpoint("/api/username/admin"));
    assert!(is_auth_endpoint("/debug/set-token/alice"));
    assert!(is_auth_endpoint("/x/edit/y"));
    assert!(!is_auth_endpoint("/health"));
    assert!(!is_auth_endpoint("/edi"));
    assert!(!is_auth_endpoint(""));
    let record = security_access_record(Some("r"), "/edit", "GET").unwrap();
    assert_eq!(record.level, LogLevel::Info);
    assert_eq!(record.message, "Access to security-sensitive endpoint");
    assert_eq!(names(&record), ["request_id", "path", "method"]);
    assert!(security_access_record(Some("r"), "/health", "GET").is_none());
}

#[test]
fn refused_requests_are_security_events() {
    let record = security_event_logging_middleware(None, "/edit", "GET", 401).unwrap();
    assert_eq!(record.level, LogLevel::Warn);
    assert_eq!(record.message, "Authentication failure");
    assert_eq!(text(&record, "request_id").as_deref(), Some("unknown"));
    let record = security_event_logging_middleware(Some("r"), "/edit", "GET", 403).unwrap();
    assert_eq!(record.message, "Authorization failure");
    assert!(security_event_logging_middleware(Some("r"), "/edit", "GET", 200).is_none());
    assert!(security_event_logging_middleware(Some("r"), "/edit", "GET", 404).is_none());
}
