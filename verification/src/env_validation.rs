//! The check of the process environment that is made before anything else starts.

use vstd::prelude::*;
use vstd::string::StringExecFns;

use crate::config::{lookup, Environment};
use crate::text::{
    concatenated, concatenated3, join, joined, parse_unsigned, parsed_unsigned, same_text, texts,
};

verus! {

/// The names of the variables that switch a feature on or off.
pub open spec fn boolean_flags() -> Seq<Seq<char>> {
    seq![
        "ENABLE_METRICS"@,
        "ENABLE_DEBUG_LOGGING"@,
        "ENABLE_MINIFICATION"@,
        "ENABLE_CACHING"@,
        "ENABLE_SECURITY_HEADERS"@,
        "ENABLE_RATE_LIMITING"@,
        "ENABLE_TEMPLATE_CACHING"@,
        "ENABLE_DATABASE_QUERY_CACHING"@,
        "ENABLE_GZIP_COMPRESSION"@,
        "ENABLE_BROTLI_COMPRESSION"@,
    ]
}

/// The required variables that `vars` does not set, in the order in which they are asked for.
pub open spec fn missing_required(vars: Seq<(Seq<char>, Seq<char>)>) -> Seq<Seq<char>> {
    (if lookup(vars, "DATABASE_ADAPTER"@) is None {
        seq!["DATABASE_ADAPTER"@]
    } else {
        Seq::empty()
    }) + (if lookup(vars, "JWT_PUBLIC_KEY"@) is None {
        seq!["JWT_PUBLIC_KEY"@]
    } else {
        Seq::empty()
    })
}

/// Whether `value` names a store that exists.
pub open spec fn is_adapter(value: Seq<char>) -> bool {
    value == "mock"@ || value == "mysql"@
}

/// Whether `value` names a log level.
pub open spec fn is_log_level(value: Seq<char>) -> bool {
    ||| value == "trace"@
    ||| value == "debug"@
    ||| value == "info"@
    ||| value == "warn"@
    ||| value == "error"@
}

/// Whether `value` is one of the two words a switch may hold.
pub open spec fn is_switch(value: Seq<char>) -> bool {
    value == "true"@ || value == "false"@
}

/// Whether `value` is a port number from 1 to 65535.
pub open spec fn is_port(value: Seq<char>) -> bool {
    parsed_unsigned(value, 65535) matches Some(port) && port > 0
}

/// The complaint about the store that `vars` chooses, if there is one to make.
pub open spec fn adapter_errors(vars: Seq<(Seq<char>, Seq<char>)>) -> Seq<Seq<char>> {
    match lookup(vars, "DATABASE_ADAPTER"@) {
        Some(value) if !is_adapter(value) => seq![
            "DATABASE_ADAPTER must be 'mock' or 'mysql', got: "@ + value,
        ],
        _ => Seq::empty(),
    }
}

/// The complaint about the log level that `vars` chooses, if there is one to make.
pub open spec fn log_level_errors(vars: Seq<(Seq<char>, Seq<char>)>) -> Seq<Seq<char>> {
    match lookup(vars, "LOG_LEVEL"@) {
        Some(value) if !is_log_level(value) => seq![
            "LOG_LEVEL must be one of: trace, debug, info, warn, error. Got: "@ + value,
        ],
        _ => Seq::empty(),
    }
}

/// The complaint about the switch `flag`, if there is one to make.
pub open spec fn flag_errors(vars: Seq<(Seq<char>, Seq<char>)>, flag: Seq<char>) -> Seq<Seq<char>> {
    match lookup(vars, flag) {
        Some(value) if !is_switch(value) => seq![
            flag + " must be 'true' or 'false', got: "@ + value,
        ],
        _ => Seq::empty(),
    }
}

/// The complaints about the switches `flags`, in their order.
pub open spec fn all_flag_errors(vars: Seq<(Seq<char>, Seq<char>)>, flags: Seq<Seq<char>>) -> Seq<
    Seq<char>,
>
    decreases flags.len(),
{
    if flags.len() == 0 {
        Seq::empty()
    } else {
        all_flag_errors(vars, flags.drop_last()) + flag_errors(vars, flags.last())
    }
}

/// The complaint about the database port, if there is one to make.
pub open spec fn port_errors(vars: Seq<(Seq<char>, Seq<char>)>) -> Seq<Seq<char>> {
    match lookup(vars, "DATABASE_PORT"@) {
        Some(value) if !is_port(value) => seq![
            "DATABASE_PORT must be a valid port number (1-65535), got: "@ + value,
        ],
        _ => Seq::empty(),
    }
}

/// Every complaint about the values in `vars`: the store, the log level, the switches, the
/// port, in that order.
pub open spec fn validation_errors(vars: Seq<(Seq<char>, Seq<char>)>) -> Seq<Seq<char>> {
    adapter_errors(vars) + log_level_errors(vars) + all_flag_errors(vars, boolean_flags())
        + port_errors(vars)
}

/// What is wrong with `vars`, or `None` if nothing is. Missing variables are reported alone;
/// only when none is missing are the values looked at.
pub open spec fn environment_problem(vars: Seq<(Seq<char>, Seq<char>)>) -> Option<Seq<char>> {
    if missing_required(vars).len() > 0 {
        Some("Missing required environment variables: "@ + join(missing_required(vars), ", "@))
    } else if validation_errors(vars).len() > 0 {
        Some("Environment validation errors:\n"@ + join(validation_errors(vars), "\n"@))
    } else {
        None
    }
}

/// The text of a result's error.
pub open spec fn error_text(r: Result<(), String>) -> Option<Seq<char>> {
    match r {
        Ok(_) => None,
        Err(e) => Some(e@),
    }
}

/// The names of the variables that switch a feature on or off.
fn boolean_flag_names() -> (names: Vec<String>)
    ensures
        texts(names@) == boolean_flags(),
{
    let mut names: Vec<String> = Vec::new();
    names.push(String::from_str("ENABLE_METRICS"));
    names.push(String::from_str("ENABLE_DEBUG_LOGGING"));
    names.push(String::from_str("ENABLE_MINIFICATION"));
    names.push(String::from_str("ENABLE_CACHING"));
    names.push(String::from_str("ENABLE_SECURITY_HEADERS"));
    names.push(String::from_str("ENABLE_RATE_LIMITING"));
    names.push(String::from_str("ENABLE_TEMPLATE_CACHING"));
    names.push(String::from_str("ENABLE_DATABASE_QUERY_CACHING"));
    names.push(String::from_str("ENABLE_GZIP_COMPRESSION"));
    names.push(String::from_str("ENABLE_BROTLI_COMPRESSION"));
    names
}

/// Whether `value` is a port number from 1 to 65535.
pub fn is_valid_port(value: &str) -> (r: bool)
    ensures
        r == is_port(value@),
{
    match parse_unsigned(value, 65535) {
        Some(port) => port > 0,
        None => false,
    }
}

/// Checks that the required variables are set and that the values of the known ones make
/// sense. The error lists every missing name, or else every value that does not.
#[verifier::loop_isolation(false)]
pub fn validate_environment(env: &Environment) -> (r: Result<(), String>)
    ensures
        error_text(r) == environment_problem(env@),
{
    let mut missing: Vec<String> = Vec::new();
    if env.var("DATABASE_ADAPTER").is_none() {
        missing.push(String::from_str("DATABASE_ADAPTER"));
    }
    if env.var("JWT_PUBLIC_KEY").is_none() {
        missing.push(String::from_str("JWT_PUBLIC_KEY"));
    }
    assert(texts(missing@) =~= missing_required(env@));
    if missing.len() > 0 {
        let list = joined(&missing, ", ");
        return Err(concatenated("Missing required environment variables: ", list.as_str()));
    }
    let mut errors: Vec<String> = Vec::new();
    match env.var("DATABASE_ADAPTER") {
        Some(value) => {
            if !(same_text(value, "mock") || same_text(value, "mysql")) {
                errors.push(concatenated("DATABASE_ADAPTER must be 'mock' or 'mysql', got: ", value));
            }
        },
        None => {},
    }
    match env.var("LOG_LEVEL") {
        Some(value) => {
            if !(same_text(value, "trace") || same_text(value, "debug") || same_text(value, "info")
                || same_text(value, "warn") || same_text(value, "error")) {
                errors.push(
                    concatenated(
                        "LOG_LEVEL must be one of: trace, debug, info, warn, error. Got: ",
                        value,
                    ),
                );
            }
        },
        None => {},
    }
    assert(texts(errors@) =~= adapter_errors(env@) + log_level_errors(env@));
    let flags = boolean_flag_names();
    let ghost before_flags = texts(errors@);
    let mut i: usize = 0;
    while i < flags.len()
        invariant
            i <= flags.len(),
            texts(errors@) == before_flags + all_flag_errors(env@, boolean_flags().take(i as int)),
        decreases flags.len() - i,
    {
        let ghost earlier = texts(errors@);
        proof {
            assert(boolean_flags().take(i + 1).drop_last() == boolean_flags().take(i as int));
        }
        match env.var(flags[i].as_str()) {
            Some(value) => {
                if !(same_text(value, "true") || same_text(value, "false")) {
                    errors.push(
                        concatenated3(flags[i].as_str(), " must be 'true' or 'false', got: ", value),
                    );
                }
            },
            None => {},
        }
        assert(texts(errors@) =~= earlier + flag_errors(env@, flags@[i as int]@));
        i += 1;
    }
    assert(boolean_flags().take(flags.len() as int) == boolean_flags());
    let ghost before_port = texts(errors@);
    match env.var("DATABASE_PORT") {
        Some(value) => {
            if !is_valid_port(value) {
                errors.push(
                    concatenated("DATABASE_PORT must be a valid port number (1-65535), got: ", value),
                );
            }
        },
        None => {},
    }
    assert(texts(errors@) =~= before_port + port_errors(env@));
    if errors.len() > 0 {
        let list = joined(&errors, "\n");
        return Err(concatenated("Environment validation errors:\n", list.as_str()));
    }
    Ok(())
}

} // verus!
