//! The error type shared by every part of the service.

use vstd::prelude::*;
use vstd::std_specs::convert::FromSpecImpl;
use vstd::string::StringExecFns;

verus! {

/// The kinds of failure the service reports.
#[derive(Debug, Clone, Copy, PartialEq, Eq, Structural)]
pub enum ErrorCode {
    ValidationFailed,
    UserNotFound,
    DatabaseError,
    AuthenticationFailed,
    InvalidInput,
    InternalServerError,
}

/// A failure with its kind, a message for the client, and optional detail for the log.
#[derive(Debug)]
pub struct AppError {
    pub code: ErrorCode,
    pub message: String,
    pub details: Option<String>,
}

/// The mathematical content of an [`AppError`].
pub struct AppErrorView {
    pub code: ErrorCode,
    pub message: Seq<char>,
    pub details: Option<Seq<char>>,
}

impl View for AppError {
    type V = AppErrorView;

    open spec fn view(&self) -> AppErrorView {
        AppErrorView {
            code: self.code,
            message: self.message@,
            details: match self.details {
                Some(d) => Some(d@),
                None => None,
            },
        }
    }
}

/// The name under which a code appears in responses and logs.
pub open spec fn code_name(code: ErrorCode) -> Seq<char> {
    match code {
        ErrorCode::ValidationFailed => "ValidationFailed"@,
        ErrorCode::UserNotFound => "UserNotFound"@,
        ErrorCode::DatabaseError => "DatabaseError"@,
        ErrorCode::AuthenticationFailed => "AuthenticationFailed"@,
        ErrorCode::InvalidInput => "InvalidInput"@,
        ErrorCode::InternalServerError => "InternalServerError"@,
    }
}

/// The HTTP status that a code is answered with.
pub open spec fn code_status(code: ErrorCode) -> int {
    match code {
        ErrorCode::ValidationFailed => 400,
        ErrorCode::UserNotFound => 404,
        ErrorCode::DatabaseError => 500,
        ErrorCode::AuthenticationFailed => 401,
        ErrorCode::InvalidInput => 400,
        ErrorCode::InternalServerError => 500,
    }
}

/// The short summary that is logged for a code.
pub open spec fn code_summary(code: ErrorCode) -> Seq<char> {
    match code {
        ErrorCode::ValidationFailed => "Validation failed"@,
        ErrorCode::UserNotFound => "User not found"@,
        ErrorCode::DatabaseError => "Database error"@,
        ErrorCode::AuthenticationFailed => "Authentication failed"@,
        ErrorCode::InvalidInput => "Invalid input"@,
        ErrorCode::InternalServerError => "Internal server error"@,
    }
}

/// The message of the error for a user that does not exist.
pub open spec fn user_not_found_message(username: Seq<char>) -> Seq<char> {
    "User '"@ + username + "' not found"@
}

/// What an error prints as: its code's name, a colon and a space, then the message.
pub open spec fn display_text(e: AppErrorView) -> Seq<char> {
    code_name(e.code) + ": "@ + e.message
}

impl ErrorCode {
    /// The name under which this code appears in responses and logs.
    pub fn name(&self) -> (r: &'static str)
        ensures
            r@ == code_name(*self),
    {
        match self {
            ErrorCode::ValidationFailed => "ValidationFailed",
            ErrorCode::UserNotFound => "UserNotFound",
            ErrorCode::DatabaseError => "DatabaseError",
            ErrorCode::AuthenticationFailed => "AuthenticationFailed",
            ErrorCode::InvalidInput => "InvalidInput",
            ErrorCode::InternalServerError => "InternalServerError",
        }
    }

    /// The HTTP status that this code is answered with.
    pub fn status_code(&self) -> (r: u16)
        ensures
            r == code_status(*self),
    {
        match self {
            ErrorCode::ValidationFailed => 400,
            ErrorCode::UserNotFound => 404,
            ErrorCode::DatabaseError => 500,
            ErrorCode::AuthenticationFailed => 401,
            ErrorCode::InvalidInput => 400,
            ErrorCode::InternalServerError => 500,
        }
    }

    /// The short summary that is logged for this code.
    pub fn summary(&self) -> (r: &'static str)
        ensures
            r@ == code_summary(*self),
    {
        match self {
            ErrorCode::ValidationFailed => "Validation failed",
            ErrorCode::UserNotFound => "User not found",
            ErrorCode::DatabaseError => "Database error",
            ErrorCode::AuthenticationFailed => "Authentication failed",
            ErrorCode::InvalidInput => "Invalid input",
            ErrorCode::InternalServerError => "Internal server error",
        }
    }
}

impl AppError {
    /// An error of the given kind, without details.
    pub fn new(code: ErrorCode, message: &str) -> (e: Self)
        ensures
            e@ == (AppErrorView { code, message: message@, details: None }),
    {
        Self { code, message: message.to_owned(), details: None }
    }

    /// The same error with `details` attached, replacing any earlier details.
    pub fn with_details(self, details: &str) -> (e: Self)
        ensures
            e@ == (AppErrorView { details: Some(details@), ..self@ }),
    {
        let mut e = self;
        e.details = Some(details.to_owned());
        e
    }

    /// The error for input that breaks a rule of validation.
    pub fn validation_failed(message: &str) -> (e: Self)
        ensures
            e@ == (AppErrorView {
                code: ErrorCode::ValidationFailed,
                message: message@,
                details: None,
            }),
    {
        Self::new(ErrorCode::ValidationFailed, message)
    }

    /// The error for a username that no user has.
    pub fn user_not_found(username: &str) -> (e: Self)
        ensures
            e@ == (AppErrorView {
                code: ErrorCode::UserNotFound,
                message: user_not_found_message(username@),
                details: None,
            }),
    {
        let mut message = String::from_str("User '");
        message.append(username);
        message.append("' not found");
        Self { code: ErrorCode::UserNotFound, message, details: None }
    }

    /// The error for a failure of the user store.
    pub fn database_error(message: &str) -> (e: Self)
        ensures
            e@ == (AppErrorView { code: ErrorCode::DatabaseError, message: message@, details: None }),
    {
        Self::new(ErrorCode::DatabaseError, message)
    }

    /// The error for a request that could not be authenticated.
    pub fn authentication_failed(message: &str) -> (e: Self)
        ensures
            e@ == (AppErrorView {
                code: ErrorCode::AuthenticationFailed,
                message: message@,
                details: None,
            }),
    {
        Self::new(ErrorCode::AuthenticationFailed, message)
    }

    /// The error for input that cannot be read.
    pub fn invalid_input(message: &str) -> (e: Self)
        ensures
            e@ == (AppErrorView { code: ErrorCode::InvalidInput, message: message@, details: None }),
    {
        Self::new(ErrorCode::InvalidInput, message)
    }

    /// The error for a failure of the service itself.
    pub fn internal_server_error(message: &str) -> (e: Self)
        ensures
            e@ == (AppErrorView {
                code: ErrorCode::InternalServerError,
                message: message@,
                details: None,
            }),
    {
        Self::new(ErrorCode::InternalServerError, message)
    }

    /// The HTTP status this error is answered with.
    pub fn status_code(&self) -> (r: u16)
        ensures
            r == code_status(self.code),
    {
        self.code.status_code()
    }

    /// The text this error prints as.
    pub fn to_display_string(&self) -> (r: String)
        ensures
            r@ == display_text(self@),
    {
        let mut out = String::from_str(self.code.name());
        out.append(": ");
        out.append(self.message.as_str());
        out
    }
}

/// The error type of `serde_json`, carried through as an opaque value.
#[verifier::external_type_specification]
#[verifier::external_body]
pub struct ExJsonError(serde_json::Error);

/// The error type of `sqlx`, carried through as an opaque value.
#[verifier::external_type_specification]
#[verifier::external_body]
pub struct ExSqlError(sqlx::Error);

/// The error type of `minijinja`, carried through as an opaque value.
#[verifier::external_type_specification]
#[verifier::external_body]
pub struct ExTemplateError(minijinja::Error);

/// The error type of `anyhow`, carried through as an opaque value.
#[verifier::external_type_specification]
#[verifier::external_body]
pub struct ExAnyError(anyhow::Error);

/// The error for a database operation that failed with `cause`.
pub fn database_operation_failed(cause: &str) -> (e: AppError)
    ensures
        e@ == (AppErrorView {
            code: ErrorCode::DatabaseError,
            message: "Database operation failed: "@ + cause@,
            details: None,
        }),
{
    let mut message = String::from_str("Database operation failed: ");
    message.append(cause);
    AppError { code: ErrorCode::DatabaseError, message, details: None }
}

/// The error for a template that failed to render with `cause`.
pub fn template_rendering_failed(cause: &str) -> (e: AppError)
    ensures
        e@ == (AppErrorView {
            code: ErrorCode::InternalServerError,
            message: "Template rendering failed: "@ + cause@,
            details: None,
        }),
{
    let mut message = String::from_str("Template rendering failed: ");
    message.append(cause);
    AppError { code: ErrorCode::InternalServerError, message, details: None }
}

/// The error for a JSON document that failed to parse with `cause`.
pub fn json_parsing_failed(cause: &str) -> (e: AppError)
    ensures
        e@ == (AppErrorView {
            code: ErrorCode::InvalidInput,
            message: "JSON parsing failed: "@ + cause@,
            details: None,
        }),
{
    let mut message = String::from_str("JSON parsing failed: ");
    message.append(cause);
    AppError { code: ErrorCode::InvalidInput, message, details: None }
}

impl From<sqlx::Error> for AppError {
    /// A failed database operation is a `DatabaseError` that quotes what the driver reported.
    fn from(err: sqlx::Error) -> (e: AppError)
        ensures
            e.code == ErrorCode::DatabaseError,
            "Database operation failed: "@.is_prefix_of(e.message@),
            e.details is None,
    {
        let cause = err.to_string();
        database_operation_failed(cause.as_str())
    }
}

impl FromSpecImpl<sqlx::Error> for AppError {
    open spec fn obeys_from_spec() -> bool {
        false
    }

    open spec fn from_spec(err: sqlx::Error) -> AppError {
        arbitrary()
    }
}

impl From<minijinja::Error> for AppError {
    /// A failed rendering is an `InternalServerError` that quotes what the engine reported.
    fn from(err: minijinja::Error) -> (e: AppError)
        ensures
            e.code == ErrorCode::InternalServerError,
            "Template rendering failed: "@.is_prefix_of(e.message@),
            e.details is None,
    {
        let cause = err.to_string();
        template_rendering_failed(cause.as_str())
    }
}

impl FromSpecImpl<minijinja::Error> for AppError {
    open spec fn obeys_from_spec() -> bool {
        false
    }

    open spec fn from_spec(err: minijinja::Error) -> AppError {
        arbitrary()
    }
}

impl From<serde_json::Error> for AppError {
    /// A document that does not parse is an `InvalidInput` that quotes what the parser reported.
    fn from(err: serde_json::Error) -> (e: AppError)
        ensures
            e.code == ErrorCode::InvalidInput,
            "JSON parsing failed: "@.is_prefix_of(e.message@),
            e.details is None,
    {
        let cause = err.to_string();
        json_parsing_failed(cause.as_str())
    }
}

impl FromSpecImpl<serde_json::Error> for AppError {
    open spec fn obeys_from_spec() -> bool {
        false
    }

    open spec fn from_spec(err: serde_json::Error) -> AppError {
        arbitrary()
    }
}

impl From<anyhow::Error> for AppError {
    /// Any other failure is an `InternalServerError` whose message is what the failure printed.
    fn from(err: anyhow::Error) -> (e: AppError)
        ensures
            e.code == ErrorCode::InternalServerError,
            e.details is None,
    {
        let cause = err.to_string();
        AppError::internal_server_error(cause.as_str())
    }
}

impl FromSpecImpl<anyhow::Error> for AppError {
    open spec fn obeys_from_spec() -> bool {
        false
    }

    open spec fn from_spec(err: anyhow::Error) -> AppError {
        arbitrary()
    }
}

} // verus!
