//! The short health report: the service is up, and what the store says of itself.

use vstd::prelude::*;
use vstd::string::StringExecFns;

use crate::database::UserDatabase;
use crate::handlers::get_health::{text_result, utc_now, Timestamp};
use crate::logging::{fresh_request_id, is_fresh_id};
use crate::text::{concatenated, optional_text};

verus! {

/// The query string of a health request.
#[derive(Debug)]
pub struct HealthQuery {
    pub request_id: Option<String>,
}

/// The short health report.
#[derive(Debug)]
pub struct HealthResponse {
    pub status: String,
    pub version: String,
    pub timestamp: Timestamp,
    pub request_id: String,
    pub database_status: String,
}

/// The mathematical content of a [`HealthResponse`].
pub struct HealthResponseView {
    pub status: Seq<char>,
    pub version: Seq<char>,
    pub timestamp: Timestamp,
    pub request_id: Seq<char>,
    pub database_status: Seq<char>,
}

impl View for HealthResponse {
    type V = HealthResponseView;

    open spec fn view(&self) -> HealthResponseView {
        HealthResponseView {
            status: self.status@,
            version: self.version@,
            timestamp: self.timestamp,
            request_id: self.request_id@,
            database_status: self.database_status@,
        }
    }
}

/// What the report says of the store: the line that the store gave, or that it failed
/// and why.
pub open spec fn database_status(answer: Result<Seq<char>, Seq<char>>) -> Seq<char> {
    match answer {
        Ok(line) => line,
        Err(cause) => "database_error: "@ + cause,
    }
}

/// The short report at the time `now` for the program of the given version, given what
/// the store answered. The service itself always counts as healthy.
pub fn health_response(
    request_id: String,
    version: String,
    now: Timestamp,
    answer: Result<String, String>,
) -> (r: HealthResponse)
    ensures
        r@ == (HealthResponseView {
            status: "healthy"@,
            version: version@,
            timestamp: now,
            request_id: request_id@,
            database_status: database_status(text_result(answer)),
        }),
{
    let database_status = match answer {
        Ok(line) => line,
        Err(cause) => concatenated("database_error: ", cause.as_str()),
    };
    HealthResponse {
        status: String::from_str("healthy"),
        version,
        timestamp: now,
        request_id,
        database_status,
    }
}

/// Draws up the short report: under the identifier that the request names, or a fresh
/// one; at the present time; with what `database` says of itself.
pub fn health_check<D: UserDatabase>(database: &D, params: HealthQuery, version: String) -> (r:
    HealthResponse)
    ensures
        r@.status == "healthy"@,
        r@.version == version@,
        params.request_id matches Some(id) ==> r@.request_id == id@,
        params.request_id is None ==> is_fresh_id(r@.request_id),
        exists|answer: Result<Seq<char>, Seq<char>>|
            database.may_report(answer) && r@.database_status == #[trigger] database_status(
                answer,
            ),
{
    let request_id = match params.request_id {
        Some(id) => id,
        None => fresh_request_id(),
    };
    let answer = database.health_check();
    health_response(request_id, version, utc_now(), answer)
}

} // verus!
