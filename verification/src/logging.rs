//! What is written to the log about a request, and at which level.

use vstd::prelude::*;
use vstd::string::StringExecFns;

use crate::text::{chars_of, contains_chars, has_substring, optional_str, optional_text};

verus! {

/// How much a log record matters.
#[derive(Debug, Clone, Copy, PartialEq, Eq, Structural)]
pub enum LogLevel {
    Trace,
    Debug,
    Info,
    Warn,
    Error,
}

/// The value of one field of a log record.
#[derive(Debug)]
pub enum FieldValue {
    /// Text that is printed as it is.
    Text(String),
    /// Text that may be absent, printed so that absence shows.
    OptionalText(Option<String>),
    /// A number.
    Number(u64),
}

/// The mathematical content of a [`FieldValue`].
pub enum FieldValueView {
    Text(Seq<char>),
    OptionalText(Option<Seq<char>>),
    Number(u64),
}

impl View for FieldValue {
    type V = FieldValueView;

    open spec fn view(&self) -> FieldValueView {
        match self {
            FieldValue::Text(t) => FieldValueView::Text(t@),
            FieldValue::OptionalText(t) => FieldValueView::OptionalText(optional_text(*t)),
            FieldValue::Number(n) => FieldValueView::Number(*n),
        }
    }
}

/// One record for the log: its level, its message, and its named fields in order.
#[derive(Debug)]
pub struct LogRecord {
    pub level: LogLevel,
    pub message: String,
    pub fields: Vec<(String, FieldValue)>,
}

/// The mathematical content of a [`LogRecord`].
pub struct LogRecordView {
    pub level: LogLevel,
    pub message: Seq<char>,
    pub fields: Seq<(Seq<char>, FieldValueView)>,
}

/// The contents of a list of fields.
pub open spec fn fields_view(fields: Seq<(String, FieldValue)>) -> Seq<(Seq<char>, FieldValueView)> {
    Seq::new(fields.len(), |i: int| (fields[i].0@, fields[i].1@))
}

impl View for LogRecord {
    type V = LogRecordView;

    open spec fn view(&self) -> LogRecordView {
        LogRecordView {
            level: self.level,
            message: self.message@,
            fields: fields_view(self.fields@),
        }
    }
}

/// A copy of an optional string.
pub fn clone_optional_text(s: &Option<String>) -> (r: Option<String>)
    ensures
        optional_text(r) == optional_text(*s),
{
    match s {
        Some(t) => Some(t.clone()),
        None => None,
    }
}

/// A field that holds text.
fn text_field(name: &str, value: &str) -> (r: (String, FieldValue))
    ensures
        r.0@ == name@,
        r.1@ == FieldValueView::Text(value@),
{
    (String::from_str(name), FieldValue::Text(value.to_owned()))
}

/// A field that holds text that may be absent.
fn optional_field(name: &str, value: &Option<String>) -> (r: (String, FieldValue))
    ensures
        r.0@ == name@,
        r.1@ == FieldValueView::OptionalText(optional_text(*value)),
{
    (String::from_str(name), FieldValue::OptionalText(clone_optional_text(value)))
}

/// A field that holds a number.
fn number_field(name: &str, value: u64) -> (r: (String, FieldValue))
    ensures
        r.0@ == name@,
        r.1@ == FieldValueView::Number(value),
{
    (String::from_str(name), FieldValue::Number(value))
}

/// Whether `c` is a digit or one of the small letters `a` to `f`.
pub open spec fn is_lower_hex(c: char) -> bool {
    ('0' <= c && c <= '9') || ('a' <= c && c <= 'f')
}

/// Whether `id` is written as a random UUID is: 36 characters, of which those at the
/// places 8, 13, 18 and 23 are `-` and the others digits or small letters from `a` to
/// `f`. The one at the place 14 is `4`, which marks the identifier as a random one, and
/// the one at the place 19 is `8`, `9`, `a` or `b`.
pub open spec fn is_fresh_id(id: Seq<char>) -> bool {
    &&& id.len() == 36
    &&& forall|i: int|
        0 <= i < 36 ==> if i == 8 || i == 13 || i == 18 || i == 23 {
            #[trigger] id[i] == '-'
        } else {
            is_lower_hex(id[i])
        }
    &&& id[14] == '4'
    &&& (id[19] == '8' || id[19] == '9' || id[19] == 'a' || id[19] == 'b')
}

/// Makes a fresh identifier for a request with `uuid`'s `Uuid::new_v4`, printed in the
/// hyphenated form, in small letters and with the marks of a random UUID. The identifier
/// is drawn from the system's source of randomness, which is taken to be at hand: which
/// identifier it is, is not said.
#[verifier::external_body]
pub(crate) fn fresh_request_id() -> (r: String)
    ensures
        is_fresh_id(r@),
{
    uuid::Uuid::new_v4().to_string()
}

/// What is known of a request while it is being served.
#[derive(Debug)]
pub struct RequestContext {
    /// The identifier under which everything about this request is logged.
    pub request_id: String,
    /// The authenticated user, once there is one.
    pub username: Option<String>,
    /// The time at which the request came in, in milliseconds.
    pub start_time: u64,
    pub path: String,
    pub method: String,
    pub user_agent: Option<String>,
}

impl RequestContext {
    /// The context of a request that came in at the time `now`, in milliseconds, under a
    /// fresh identifier and without a user.
    pub fn new(path: String, method: String, user_agent: Option<String>, now: u64) -> (r: Self)
        ensures
            is_fresh_id(r.request_id@),
            r.username is None,
            r.start_time == now,
            r.path == path,
            r.method == method,
            r.user_agent == user_agent,
    {
        Self::with_request_id(fresh_request_id(), path, method, user_agent, now)
    }

    /// The context of a request that came in at the time `now`, in milliseconds, under the
    /// identifier `request_id` and without a user.
    pub fn with_request_id(
        request_id: String,
        path: String,
        method: String,
        user_agent: Option<String>,
        now: u64,
    ) -> (r: Self)
        ensures
            r.request_id == request_id,
            r.username is None,
            r.start_time == now,
            r.path == path,
            r.method == method,
            r.user_agent == user_agent,
    {
        Self { request_id, username: None, start_time: now, path, method, user_agent }
    }

    /// The same context with the authenticated user set to `username`.
    pub fn with_username(self, username: Option<String>) -> (r: Self)
        ensures
            r.username == username,
            r.request_id == self.request_id,
            r.start_time == self.start_time,
            r.path == self.path,
            r.method == self.method,
            r.user_agent == self.user_agent,
    {
        let mut r = self;
        r.username = username;
        r
    }

    /// The milliseconds from the start of the request to the time `now`, and none where
    /// the clock has gone back.
    pub open spec fn elapsed(&self, now: u64) -> u64 {
        if now >= self.start_time {
            (now - self.start_time) as u64
        } else {
            0
        }
    }

    /// The record of the start of the request.
    pub fn log_request_start(&self) -> (r: LogRecord)
        ensures
            r@ == (LogRecordView {
                level: LogLevel::Info,
                message: "Request started"@,
                fields: seq![
                    ("request_id"@, FieldValueView::Text(self.request_id@)),
                    ("path"@, FieldValueView::Text(self.path@)),
                    ("method"@, FieldValueView::Text(self.method@)),
                    ("username"@, FieldValueView::OptionalText(optional_text(self.username))),
                    ("user_agent"@, FieldValueView::OptionalText(optional_text(self.user_agent))),
                ],
            }),
    {
        let mut fields: Vec<(String, FieldValue)> = Vec::new();
        fields.push(text_field("request_id", self.request_id.as_str()));
        fields.push(text_field("path", self.path.as_str()));
        fields.push(text_field("method", self.method.as_str()));
        fields.push(optional_field("username", &self.username));
        fields.push(optional_field("user_agent", &self.user_agent));
        let r = LogRecord {
            level: LogLevel::Info,
            message: String::from_str("Request started"),
            fields,
        };
        assert(r@.fields =~= seq![
            ("request_id"@, FieldValueView::Text(self.request_id@)),
            ("path"@, FieldValueView::Text(self.path@)),
            ("method"@, FieldValueView::Text(self.method@)),
            ("username"@, FieldValueView::OptionalText(optional_text(self.username))),
            ("user_agent"@, FieldValueView::OptionalText(optional_text(self.user_agent))),
        ]);
        r
    }

    /// The record of the end of the request at the time `now`, with the status that was
    /// answered and the time it took.
    pub fn log_request_completion(&self, status_code: u16, now: u64) -> (r: LogRecord)
        ensures
            r@ == (LogRecordView {
                level: LogLevel::Info,
                message: "Request completed"@,
                fields: seq![
                    ("request_id"@, FieldValueView::Text(self.request_id@)),
                    ("path"@, FieldValueView::Text(self.path@)),
                    ("method"@, FieldValueView::Text(self.method@)),
                    ("username"@, FieldValueView::OptionalText(optional_text(self.username))),
                    ("status"@, FieldValueView::Number(status_code as u64)),
                    ("duration_ms"@, FieldValueView::Number(self.elapsed(now))),
                ],
            }),
    {
        let duration = if now >= self.start_time {
            now - self.start_time
        } else {
            0
        };
        let mut fields: Vec<(String, FieldValue)> = Vec::new();
        fields.push(text_field("request_id", self.request_id.as_str()));
        fields.push(text_field("path", self.path.as_str()));
        fields.push(text_field("method", self.method.as_str()));
        fields.push(optional_field("username", &self.username));
        fields.push(number_field("status", status_code as u64));
        fields.push(number_field("duration_ms", duration));
        let r = LogRecord {
            level: LogLevel::Info,
            message: String::from_str("Request completed"),
            fields,
        };
        assert(r@.fields =~= seq![
            ("request_id"@, FieldValueView::Text(self.request_id@)),
            ("path"@, FieldValueView::Text(self.path@)),
            ("method"@, FieldValueView::Text(self.method@)),
            ("username"@, FieldValueView::OptionalText(optional_text(self.username))),
            ("status"@, FieldValueView::Number(status_code as u64)),
            ("duration_ms"@, FieldValueView::Number(self.elapsed(now))),
        ]);
        r
    }

    /// The record of an operation on the user store: a note where it succeeded, a
    /// warning where it failed.
    pub fn log_database_operation(&self, operation: &str, success: bool, duration_ms: u64) -> (r:
        LogRecord)
        ensures
            r@ == (LogRecordView {
                level: if success {
                    LogLevel::Debug
                } else {
                    LogLevel::Warn
                },
                message: if success {
                    "Database operation completed successfully"@
                } else {
                    "Database operation failed"@
                },
                fields: seq![
                    ("request_id"@, FieldValueView::Text(self.request_id@)),
                    ("operation"@, FieldValueView::Text(operation@)),
                    ("duration_ms"@, FieldValueView::Number(duration_ms)),
                ],
            }),
    {
        let mut fields: Vec<(String, FieldValue)> = Vec::new();
        fields.push(text_field("request_id", self.request_id.as_str()));
        fields.push(text_field("operation", operation));
        fields.push(number_field("duration_ms", duration_ms));
        let r = if success {
            LogRecord {
                level: LogLevel::Debug,
                message: String::from_str("Database operation completed successfully"),
                fields,
            }
        } else {
            LogRecord {
                level: LogLevel::Warn,
                message: String::from_str("Database operation failed"),
                fields,
            }
        };
        assert(r@.fields =~= seq![
            ("request_id"@, FieldValueView::Text(self.request_id@)),
            ("operation"@, FieldValueView::Text(operation@)),
            ("duration_ms"@, FieldValueView::Number(duration_ms)),
        ]);
        r
    }

    /// The record of an attempt to authenticate: a note where it succeeded, and a
    /// warning with the reason where it failed.
    pub fn log_auth_event(&self, success: bool, reason: Option<&str>) -> (r: LogRecord)
        ensures
            r@ == (LogRecordView {
                level: if success {
                    LogLevel::Info
                } else {
                    LogLevel::Warn
                },
                message: if success {
                    "Authentication successful"@
                } else {
                    "Authentication failed"@
                },
                fields: if success {
                    seq![
                        ("request_id"@, FieldValueView::Text(self.request_id@)),
                        ("username"@, FieldValueView::OptionalText(optional_text(self.username))),
                    ]
                } else {
                    seq![
                        ("request_id"@, FieldValueView::Text(self.request_id@)),
                        ("username"@, FieldValueView::OptionalText(optional_text(self.username))),
                        ("reason"@, FieldValueView::OptionalText(optional_str(reason))),
                    ]
                },
            }),
    {
        let mut fields: Vec<(String, FieldValue)> = Vec::new();
        fields.push(text_field("request_id", self.request_id.as_str()));
        fields.push(optional_field("username", &self.username));
        if success {
            let r = LogRecord {
                level: LogLevel::Info,
                message: String::from_str("Authentication successful"),
                fields,
            };
            assert(r@.fields =~= seq![
                ("request_id"@, FieldValueView::Text(self.request_id@)),
                ("username"@, FieldValueView::OptionalText(optional_text(self.username))),
            ]);
            r
        } else {
            let reason_text = match reason {
                Some(t) => Some(t.to_owned()),
                None => None,
            };
            fields.push((String::from_str("reason"), FieldValue::OptionalText(reason_text)));
            let r = LogRecord {
                level: LogLevel::Warn,
                message: String::from_str("Authentication failed"),
                fields,
            };
            assert(r@.fields =~= seq![
                ("request_id"@, FieldValueView::Text(self.request_id@)),
                ("username"@, FieldValueView::OptionalText(optional_text(self.username))),
                ("reason"@, FieldValueView::OptionalText(optional_str(reason))),
            ]);
            r
        }
    }

    /// The record of a failure while the request was served, with the failure as it prints.
    pub fn log_error(&self, error: &str) -> (r: LogRecord)
        ensures
            r@ == (LogRecordView {
                level: LogLevel::Error,
                message: "Request error occurred"@,
                fields: seq![
                    ("request_id"@, FieldValueView::Text(self.request_id@)),
                    ("path"@, FieldValueView::Text(self.path@)),
                    ("method"@, FieldValueView::Text(self.method@)),
                    ("username"@, FieldValueView::OptionalText(optional_text(self.username))),
                    ("error"@, FieldValueView::Text(error@)),
                ],
            }),
    {
        let mut fields: Vec<(String, FieldValue)> = Vec::new();
        fields.push(text_field("request_id", self.request_id.as_str()));
        fields.push(text_field("path", self.path.as_str()));
        fields.push(text_field("method", self.method.as_str()));
        fields.push(optional_field("username", &self.username));
        fields.push(text_field("error", error));
        let r = LogRecord {
            level: LogLevel::Error,
            message: String::from_str("Request error occurred"),
            fields,
        };
        assert(r@.fields =~= seq![
            ("request_id"@, FieldValueView::Text(self.request_id@)),
            ("path"@, FieldValueView::Text(self.path@)),
            ("method"@, FieldValueView::Text(self.method@)),
            ("username"@, FieldValueView::OptionalText(optional_text(self.username))),
            ("error"@, FieldValueView::Text(error@)),
        ]);
        r
    }
}

/// The word for how bad a status is: `warn` below 500, `error` from there on.
pub open spec fn severity_word(status: u16) -> Seq<char> {
    if status < 500 {
        "warn"@
    } else {
        "error"@
    }
}

/// What is logged, besides the completion, about a response with the given status that
/// took `duration_ms`: a warning where the status is 400 or more, and nothing otherwise.
pub fn request_context_middleware(context: &RequestContext, status: u16, duration_ms: u64) -> (r:
    Option<LogRecord>)
    ensures
        r is Some <==> status >= 400,
        r matches Some(record) ==> record@ == (LogRecordView {
            level: LogLevel::Warn,
            message: "Request resulted in error response"@,
            fields: seq![
                ("request_id"@, FieldValueView::Text(context.request_id@)),
                ("status_code"@, FieldValueView::Number(status as u64)),
                ("path"@, FieldValueView::Text(context.path@)),
                ("method"@, FieldValueView::Text(context.method@)),
                ("duration_ms"@, FieldValueView::Number(duration_ms)),
                ("level"@, FieldValueView::Text(severity_word(status))),
            ],
        }),
{
    if status < 400 {
        return None;
    }
    let level = if status < 500 {
        "warn"
    } else {
        "error"
    };
    let mut fields: Vec<(String, FieldValue)> = Vec::new();
    fields.push(text_field("request_id", context.request_id.as_str()));
    fields.push(number_field("status_code", status as u64));
    fields.push(text_field("path", context.path.as_str()));
    fields.push(text_field("method", context.method.as_str()));
    fields.push(number_field("duration_ms", duration_ms));
    fields.push(text_field("level", level));
    let record = LogRecord {
        level: LogLevel::Warn,
        message: String::from_str("Request resulted in error response"),
        fields,
    };
    assert(record@.fields =~= seq![
        ("request_id"@, FieldValueView::Text(context.request_id@)),
        ("status_code"@, FieldValueView::Number(status as u64)),
        ("path"@, FieldValueView::Text(context.path@)),
        ("method"@, FieldValueView::Text(context.method@)),
        ("duration_ms"@, FieldValueView::Number(duration_ms)),
        ("level"@, FieldValueView::Text(severity_word(status))),
    ]);
    Some(record)
}

/// The identifier under which a request is logged: the one it carries, or `unknown`.
pub open spec fn logged_request_id(request_id: Option<Seq<char>>) -> Seq<char> {
    match request_id {
        Some(id) => id,
        None => "unknown"@,
    }
}

/// The fields that the error log and the security log give every record.
pub open spec fn request_fields(
    request_id: Option<Seq<char>>,
    path: Seq<char>,
    method: Seq<char>,
) -> Seq<(Seq<char>, FieldValueView)> {
    seq![
        ("request_id"@, FieldValueView::Text(logged_request_id(request_id))),
        ("path"@, FieldValueView::Text(path)),
        ("method"@, FieldValueView::Text(method)),
    ]
}

/// Whether `status` says that the server failed.
pub open spec fn is_server_error(status: u16) -> bool {
    500 <= status < 600
}

/// Whether `status` says that the client was at fault.
pub open spec fn is_client_error(status: u16) -> bool {
    400 <= status < 500
}

/// What the error log says of a response with the given status: an error where the server
/// failed, a warning where the client was at fault, and nothing otherwise.
pub fn error_logging_middleware(
    request_id: Option<&str>,
    path: &str,
    method: &str,
    status: u16,
) -> (r: Option<LogRecord>)
    ensures
        r is Some <==> is_server_error(status) || is_client_error(status),
        r matches Some(record) ==> record@ == (LogRecordView {
            level: if is_server_error(status) {
                LogLevel::Error
            } else {
                LogLevel::Warn
            },
            message: if is_server_error(status) {
                "Server error occurred"@
            } else {
                "Client error occurred"@
            },
            fields: seq![
                ("request_id"@, FieldValueView::Text(logged_request_id(optional_str(request_id)))),
                ("status_code"@, FieldValueView::Number(status as u64)),
                ("path"@, FieldValueView::Text(path@)),
                ("method"@, FieldValueView::Text(method@)),
            ],
        }),
{
    if status < 400 || status >= 600 {
        return None;
    }
    let id = match request_id {
        Some(id) => id,
        None => "unknown",
    };
    let mut fields: Vec<(String, FieldValue)> = Vec::new();
    fields.push(text_field("request_id", id));
    fields.push(number_field("status_code", status as u64));
    fields.push(text_field("path", path));
    fields.push(text_field("method", method));
    let record = if status >= 500 {
        LogRecord {
            level: LogLevel::Error,
            message: String::from_str("Server error occurred"),
            fields,
        }
    } else {
        LogRecord {
            level: LogLevel::Warn,
            message: String::from_str("Client error occurred"),
            fields,
        }
    };
    assert(record@.fields =~= seq![
        ("request_id"@, FieldValueView::Text(logged_request_id(optional_str(request_id)))),
        ("status_code"@, FieldValueView::Number(status as u64)),
        ("path"@, FieldValueView::Text(path@)),
        ("method"@, FieldValueView::Text(method@)),
    ]);
    Some(record)
}

/// Whether `path` leads to an endpoint where identity matters: the username API, the page
/// that sets a token, or the editor.
pub open spec fn is_sensitive_path(path: Seq<char>) -> bool {
    ||| has_substring(path, "/api/username"@)
    ||| has_substring(path, "/debug/set-token"@)
    ||| has_substring(path, "/edit"@)
}

/// Whether `path` leads to an endpoint where identity matters.
pub fn is_auth_endpoint(path: &str) -> (r: bool)
    ensures
        r == is_sensitive_path(path@),
{
    let chars = chars_of(path);
    contains_chars(chars.as_slice(), chars_of("/api/username").as_slice()) || contains_chars(
        chars.as_slice(),
        chars_of("/debug/set-token").as_slice(),
    ) || contains_chars(chars.as_slice(), chars_of("/edit").as_slice())
}

/// A record with the fields of a request.
fn request_record(
    level: LogLevel,
    message: &str,
    request_id: Option<&str>,
    path: &str,
    method: &str,
) -> (r: LogRecord)
    ensures
        r@ == (LogRecordView {
            level,
            message: message@,
            fields: request_fields(optional_str(request_id), path@, method@),
        }),
{
    let id = match request_id {
        Some(id) => id,
        None => "unknown",
    };
    let mut fields: Vec<(String, FieldValue)> = Vec::new();
    fields.push(text_field("request_id", id));
    fields.push(text_field("path", path));
    fields.push(text_field("method", method));
    let r = LogRecord { level, message: String::from_str(message), fields };
    assert(r@.fields =~= request_fields(optional_str(request_id), path@, method@));
    r
}

/// What the security log says when a request comes in: a note where the request is for
/// an endpoint where identity matters, and nothing otherwise.
pub fn security_access_record(request_id: Option<&str>, path: &str, method: &str) -> (r: Option<
    LogRecord,
>)
    ensures
        r is Some <==> is_sensitive_path(path@),
        r matches Some(record) ==> record@ == (LogRecordView {
            level: LogLevel::Info,
            message: "Access to security-sensitive endpoint"@,
            fields: request_fields(optional_str(request_id), path@, method@),
        }),
{
    if is_auth_endpoint(path) {
        Some(
            request_record(
                LogLevel::Info,
                "Access to security-sensitive endpoint",
                request_id,
                path,
                method,
            ),
        )
    } else {
        None
    }
}

/// What the security log says of the response: a warning where the request was not
/// authenticated (401) or not allowed (403), and nothing otherwise.
pub fn security_event_logging_middleware(
    request_id: Option<&str>,
    path: &str,
    method: &str,
    status: u16,
) -> (r: Option<LogRecord>)
    ensures
        r is Some <==> status == 401 || status == 403,
        r matches Some(record) ==> record@ == (LogRecordView {
            level: LogLevel::Warn,
            message: if status == 401 {
                "Authentication failure"@
            } else {
                "Authorization failure"@
            },
            fields: request_fields(optional_str(request_id), path@, method@),
        }),
{
    if status == 401 {
        Some(request_record(LogLevel::Warn, "Authentication failure", request_id, path, method))
    } else if status == 403 {
        Some(request_record(LogLevel::Warn, "Authorization failure", request_id, path, method))
    } else {
        None
    }
}

} // verus!
