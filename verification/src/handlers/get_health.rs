//! The health report.

use vstd::prelude::*;
use vstd::string::StringExecFns;

use crate::database::UserDatabase;
use crate::logging::{fresh_request_id, is_fresh_id};
use crate::text::{concatenated, optional_text, same_text};

verus! {

/// A point in time: seconds and nanoseconds since the Unix epoch.
#[derive(Debug, Clone, Copy, PartialEq, Eq, Structural)]
pub struct Timestamp {
    pub seconds: i64,
    pub nanoseconds: u32,
}

/// The query string of a health request.
#[derive(Debug)]
pub struct HealthQuery {
    pub request_id: Option<String>,
}

/// The outcome of one check.
#[derive(Debug)]
pub struct CheckStatus {
    pub status: String,
    pub message: Option<String>,
    pub timestamp: Timestamp,
}

/// The mathematical content of a [`CheckStatus`].
pub struct CheckStatusView {
    pub status: Seq<char>,
    pub message: Option<Seq<char>>,
    pub timestamp: Timestamp,
}

impl View for CheckStatus {
    type V = CheckStatusView;

    open spec fn view(&self) -> CheckStatusView {
        CheckStatusView {
            status: self.status@,
            message: match self.message {
                Some(m) => Some(m@),
                None => None,
            },
            timestamp: self.timestamp,
        }
    }
}

/// The health report: the overall status and the named checks it was drawn from. The
/// checks stand in a vector, each under its name, in the order in which they were made:
/// of a hash map with texts for keys `vstd` states nothing.
#[derive(Debug)]
pub struct HealthResponse {
    pub status: String,
    pub version: String,
    pub timestamp: Timestamp,
    pub request_id: String,
    pub uptime_seconds: u64,
    pub checks: Vec<(String, CheckStatus)>,
}

/// The mathematical content of a [`HealthResponse`].
pub struct HealthResponseView {
    pub status: Seq<char>,
    pub version: Seq<char>,
    pub timestamp: Timestamp,
    pub request_id: Seq<char>,
    pub uptime_seconds: u64,
    pub checks: Seq<(Seq<char>, CheckStatusView)>,
}

/// The content of a list of named checks.
pub open spec fn checks_view(checks: Seq<(String, CheckStatus)>) -> Seq<(Seq<char>, CheckStatusView)> {
    Seq::new(checks.len(), |i: int| (checks[i].0@, checks[i].1@))
}

impl View for HealthResponse {
    type V = HealthResponseView;

    open spec fn view(&self) -> HealthResponseView {
        HealthResponseView {
            status: self.status@,
            version: self.version@,
            timestamp: self.timestamp,
            request_id: self.request_id@,
            uptime_seconds: self.uptime_seconds,
            checks: checks_view(self.checks@),
        }
    }
}

/// What was found out about the process and its surroundings before the report is drawn up.
#[derive(Debug)]
pub struct HealthProbes {
    /// The version of the running program.
    pub version: String,
    /// The seconds since the program started.
    pub uptime_seconds: u64,
    /// Whether the template engine can load its base template.
    pub template_engine_ok: bool,
    /// Whether the public key file could be read, and why not if it could not.
    pub jwt_public_key: Result<(), String>,
    /// The name of the environment the program was told it runs in, if it was told.
    pub environment: Option<String>,
}

/// The status word of a check.
pub open spec fn status_word(healthy: bool) -> Seq<char> {
    if healthy {
        "healthy"@
    } else {
        "unhealthy"@
    }
}

/// The check of the user store, from what its own health check answered.
pub open spec fn database_check(
    answer: Result<Seq<char>, Seq<char>>,
    now: Timestamp,
) -> CheckStatusView {
    match answer {
        Ok(line) => CheckStatusView { status: status_word(true), message: Some(line), timestamp: now },
        Err(cause) => CheckStatusView {
            status: status_word(false),
            message: Some("Database error: "@ + cause),
            timestamp: now,
        },
    }
}

/// The check of the template engine.
pub open spec fn template_check(ok: bool, now: Timestamp) -> CheckStatusView {
    CheckStatusView {
        status: status_word(ok),
        message: Some(
            if ok {
                "Template engine initialized"@
            } else {
                "Template engine failed"@
            },
        ),
        timestamp: now,
    }
}

/// The check of the public key file.
pub open spec fn jwt_key_check(read: Result<(), Seq<char>>, now: Timestamp) -> CheckStatusView {
    match read {
        Ok(_) => CheckStatusView {
            status: status_word(true),
            message: Some("JWT public key is accessible"@),
            timestamp: now,
        },
        Err(cause) => CheckStatusView {
            status: status_word(false),
            message: Some("JWT public key error: "@ + cause),
            timestamp: now,
        },
    }
}

/// The name of the environment, `development` where none was given.
pub open spec fn environment_name(environment: Option<Seq<char>>) -> Seq<char> {
    match environment {
        Some(name) => name,
        None => "development"@,
    }
}

/// The check of the environment, which always passes.
pub open spec fn environment_check(environment: Option<Seq<char>>, now: Timestamp) -> CheckStatusView {
    CheckStatusView {
        status: status_word(true),
        message: Some("Running in "@ + environment_name(environment) + " mode"@),
        timestamp: now,
    }
}

/// The check of memory, which always passes and says nothing.
pub open spec fn memory_check(now: Timestamp) -> CheckStatusView {
    CheckStatusView { status: status_word(true), message: None, timestamp: now }
}

/// The content of a result that holds text on both sides.
pub open spec fn text_result(r: Result<String, String>) -> Result<Seq<char>, Seq<char>> {
    match r {
        Ok(s) => Ok(s@),
        Err(e) => Err(e@),
    }
}

/// The content of a result that holds text on its error side.
pub open spec fn unit_result(r: Result<(), String>) -> Result<(), Seq<char>> {
    match r {
        Ok(_) => Ok(()),
        Err(e) => Err(e@),
    }
}

/// The report for the given findings: five checks in a fixed order, and an overall status
/// that is `healthy` only if the store, the template engine and the key file all passed.
pub open spec fn health_report(
    request_id: Seq<char>,
    now: Timestamp,
    database: Result<Seq<char>, Seq<char>>,
    probes: HealthProbes,
) -> HealthResponseView {
    HealthResponseView {
        status: status_word(
            database is Ok && probes.template_engine_ok && probes.jwt_public_key is Ok,
        ),
        version: probes.version@,
        timestamp: now,
        request_id,
        uptime_seconds: probes.uptime_seconds,
        checks: seq![
            ("database"@, database_check(database, now)),
            ("template_engine"@, template_check(probes.template_engine_ok, now)),
            ("jwt_public_key"@, jwt_key_check(unit_result(probes.jwt_public_key), now)),
            ("environment"@, environment_check(optional_text(probes.environment), now)),
            ("memory"@, memory_check(now)),
        ],
    }
}

/// Whether every check in `checks` has the status `healthy`.
pub open spec fn all_healthy(checks: Seq<(Seq<char>, CheckStatusView)>) -> bool {
    forall|i: int| 0 <= i < checks.len() ==> (#[trigger] checks[i]).1.status == "healthy"@
}

/// The overall status of a report says whether every one of its checks passed.
pub proof fn lemma_report_is_healthy_if_all_checks_are(
    request_id: Seq<char>,
    now: Timestamp,
    database: Result<Seq<char>, Seq<char>>,
    probes: HealthProbes,
)
    ensures
        health_report(request_id, now, database, probes).status == status_word(
            all_healthy(health_report(request_id, now, database, probes).checks),
        ),
{
    reveal_strlit("healthy");
    reveal_strlit("unhealthy");
}

/// Whether every check in `checks` has the status `healthy`.
pub fn every_check_healthy(checks: &Vec<(String, CheckStatus)>) -> (r: bool)
    ensures
        r == all_healthy(checks_view(checks@)),
{
    let mut i: usize = 0;
    while i < checks.len()
        invariant
            i <= checks.len(),
            forall|k: int| 0 <= k < i ==> (#[trigger] checks_view(checks@)[k]).1.status == "healthy"@,
        decreases checks.len() - i,
    {
        if !same_text(checks[i].1.status.as_str(), "healthy") {
            assert(checks_view(checks@)[i as int].1.status != "healthy"@);
            return false;
        }
        i += 1;
    }
    true
}

/// One check with the given status and message.
fn make_check(healthy: bool, message: Option<String>, now: Timestamp) -> (c: CheckStatus)
    ensures
        c@ == (CheckStatusView {
            status: status_word(healthy),
            message: optional_text(message),
            timestamp: now,
        }),
{
    let status = if healthy {
        String::from_str("healthy")
    } else {
        String::from_str("unhealthy")
    };
    CheckStatus { status, message, timestamp: now }
}

/// Draws up the report from the findings.
pub fn build_health_response(
    request_id: String,
    now: Timestamp,
    database: Result<String, String>,
    probes: HealthProbes,
) -> (r: HealthResponse)
    ensures
        r@ == health_report(request_id@, now, text_result(database), probes),
{
    let ghost expected = health_report(request_id@, now, text_result(database), probes);
    let mut checks: Vec<(String, CheckStatus)> = Vec::new();
    let database_status = match database {
        Ok(line) => make_check(true, Some(line), now),
        Err(cause) => make_check(false, Some(concatenated("Database error: ", cause.as_str())), now),
    };
    checks.push((String::from_str("database"), database_status));
    let template_message = if probes.template_engine_ok {
        String::from_str("Template engine initialized")
    } else {
        String::from_str("Template engine failed")
    };
    checks.push(
        (
            String::from_str("template_engine"),
            make_check(probes.template_engine_ok, Some(template_message), now),
        ),
    );
    let key_status = match &probes.jwt_public_key {
        Ok(_) => make_check(true, Some(String::from_str("JWT public key is accessible")), now),
        Err(cause) => make_check(
            false,
            Some(concatenated("JWT public key error: ", cause.as_str())),
            now,
        ),
    };
    checks.push((String::from_str("jwt_public_key"), key_status));
    let mut environment_message = String::from_str("Running in ");
    match &probes.environment {
        Some(name) => environment_message.append(name.as_str()),
        None => environment_message.append("development"),
    }
    environment_message.append(" mode");
    checks.push(
        (String::from_str("environment"), make_check(true, Some(environment_message), now)),
    );
    checks.push((String::from_str("memory"), make_check(true, None, now)));
    assert(checks_view(checks@) =~= expected.checks);
    let healthy = every_check_healthy(&checks);
    proof {
        lemma_report_is_healthy_if_all_checks_are(request_id@, now, text_result(database), probes);
    }
    let status = if healthy {
        String::from_str("healthy")
    } else {
        String::from_str("unhealthy")
    };
    HealthResponse {
        status,
        version: probes.version,
        timestamp: now,
        request_id,
        uptime_seconds: probes.uptime_seconds,
        checks,
    }
}

/// Reads the present time with `chrono`'s `Utc::now` and takes its seconds
/// (`DateTime::timestamp`) and nanoseconds (`DateTime::timestamp_subsec_nanos`). The time
/// is that of the system clock, which is taken to stand at or after the Unix epoch:
/// nothing is promised of the result.
#[verifier::external_body]
pub(crate) fn utc_now() -> Timestamp {
    let now = chrono::Utc::now();
    Timestamp { seconds: now.timestamp(), nanoseconds: now.timestamp_subsec_nanos() }
}

/// Draws up the health report: under the identifier that the request names, or a fresh
/// one; at the present time; with what `database` says of itself and what `probes` found.
pub fn get_health<D: UserDatabase>(database: &D, params: HealthQuery, probes: HealthProbes) -> (r:
    HealthResponse)
    ensures
        params.request_id matches Some(id) ==> r@.request_id == id@,
        params.request_id is None ==> is_fresh_id(r@.request_id),
        exists|answer: Result<Seq<char>, Seq<char>>|
            database.may_report(answer) && r@ == #[trigger] health_report(
                r@.request_id,
                r@.timestamp,
                answer,
                probes,
            ),
{
    let request_id = match params.request_id {
        Some(id) => id,
        None => fresh_request_id(),
    };
    let now = utc_now();
    let answer = database.health_check();
    let ghost said = text_result(answer);
    let r = build_health_response(request_id, now, answer, probes);
    assert(r@ == health_report(r@.request_id, r@.timestamp, said, probes));
    r
}

} // verus!
