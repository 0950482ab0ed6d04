//! Settings read from the process environment.

pub mod database;

use vstd::prelude::*;
use vstd::string::StringExecFns;

use crate::logging::LogLevel;
use crate::text::{
    decimal_text, optional_str, parse_unsigned, parsed_unsigned, push_decimal, same_text,
};

verus! {

/// The variables of the process environment that hold text, as pairs of name and value.
#[derive(Debug)]
pub struct Environment {
    pub vars: Vec<(String, String)>,
}

/// The value that the first pair named `name` gives, if there is such a pair.
pub open spec fn lookup(vars: Seq<(Seq<char>, Seq<char>)>, name: Seq<char>) -> Option<Seq<char>>
    decreases vars.len(),
{
    if vars.len() == 0 {
        None
    } else if vars[0].0 == name {
        Some(vars[0].1)
    } else {
        lookup(vars.drop_first(), name)
    }
}

impl View for Environment {
    type V = Seq<(Seq<char>, Seq<char>)>;

    open spec fn view(&self) -> Seq<(Seq<char>, Seq<char>)> {
        Seq::new(self.vars@.len(), |i: int| (self.vars@[i].0@, self.vars@[i].1@))
    }
}

impl Environment {
    /// The value of the variable `name`, if it is set.
    pub fn var(&self, name: &str) -> (r: Option<&str>)
        ensures
            optional_str(r) == lookup(self@, name@),
    {
        let mut i: usize = 0;
        assert(self@.skip(0) == self@);
        while i < self.vars.len()
            invariant
                i <= self.vars.len(),
                lookup(self@, name@) == lookup(self@.skip(i as int), name@),
            decreases self.vars.len() - i,
        {
            if same_text(self.vars[i].0.as_str(), name) {
                return Some(self.vars[i].1.as_str());
            }
            assert(self@.skip(i as int).drop_first() == self@.skip(i + 1));
            i += 1;
        }
        None
    }
}

/// The value of `name` in `env`, or `default` where it is not set.
pub open spec fn value_or(vars: Seq<(Seq<char>, Seq<char>)>, name: Seq<char>, default: Seq<char>) -> Seq<
    char,
> {
    match lookup(vars, name) {
        Some(v) => v,
        None => default,
    }
}

/// The value of `name` in `env`, or `default` where it is not set.
pub fn var_or<'a>(env: &'a Environment, name: &str, default: &'a str) -> (r: &'a str)
    ensures
        r@ == value_or(env@, name@, default@),
{
    match env.var(name) {
        Some(v) => v,
        None => default,
    }
}

/// The switch that `value` sets: on for `true`, off for `false`, and `default` where it
/// is not set or holds neither word.
pub open spec fn switch_or(value: Option<Seq<char>>, default: bool) -> bool {
    match value {
        Some(text) => if text == "true"@ {
            true
        } else if text == "false"@ {
            false
        } else {
            default
        },
        None => default,
    }
}

/// The switch that `value` sets.
pub fn parse_switch(value: Option<&str>, default: bool) -> (r: bool)
    ensures
        r == switch_or(optional_str(value), default),
{
    match value {
        Some(text) => {
            if same_text(text, "true") {
                true
            } else if same_text(text, "false") {
                false
            } else {
                default
            }
        },
        None => default,
    }
}

/// The number that `value` denotes within `max`, or `default` where it is not set or
/// denotes no such number.
pub open spec fn number_setting(value: Option<Seq<char>>, max: u64, default: u64) -> u64 {
    match value {
        Some(text) => match parsed_unsigned(text, max) {
            Some(n) => n,
            None => default,
        },
        None => default,
    }
}

/// The number that `value` denotes within `max`, or `default`.
pub fn parse_number_setting(value: Option<&str>, max: u64, default: u64) -> (r: u64)
    ensures
        r == number_setting(optional_str(value), max, default),
        default <= max ==> r <= max,
{
    match value {
        Some(text) => match parse_unsigned(text, max) {
            Some(n) => n,
            None => default,
        },
        None => default,
    }
}

/// The log level that `name` names, if it names one.
pub open spec fn log_level_named(name: Seq<char>) -> Option<LogLevel> {
    if name == "trace"@ {
        Some(LogLevel::Trace)
    } else if name == "debug"@ {
        Some(LogLevel::Debug)
    } else if name == "info"@ {
        Some(LogLevel::Info)
    } else if name == "warn"@ {
        Some(LogLevel::Warn)
    } else if name == "error"@ {
        Some(LogLevel::Error)
    } else {
        None
    }
}

/// The log level that `name` names, if it names one.
pub fn parse_log_level(name: &str) -> (r: Option<LogLevel>)
    ensures
        r == log_level_named(name@),
{
    if same_text(name, "trace") {
        Some(LogLevel::Trace)
    } else if same_text(name, "debug") {
        Some(LogLevel::Debug)
    } else if same_text(name, "info") {
        Some(LogLevel::Info)
    } else if same_text(name, "warn") {
        Some(LogLevel::Warn)
    } else if same_text(name, "error") {
        Some(LogLevel::Error)
    } else {
        None
    }
}

/// The level at which the server logs when it was asked for the level named `name`: that
/// level, and `Info` where the name names none.
pub open spec fn effective_log_level(name: Seq<char>) -> LogLevel {
    match log_level_named(name) {
        Some(level) => level,
        None => LogLevel::Info,
    }
}

/// How the server is to run: what it logs and where it listens.
#[derive(Debug)]
pub struct ServerSettings {
    /// The name of the log level as it was asked for.
    pub log_level: String,
    /// The level at which the server logs.
    pub level: LogLevel,
    /// Whether the name that was asked for names a level.
    pub log_level_recognised: bool,
    /// The port to listen on.
    pub port: u16,
    /// The address to bind to, on every interface.
    pub bind_address: String,
}

/// The address on which a server listens on `port` on every interface.
pub open spec fn bind_address_text(port: u16) -> Seq<char> {
    "0.0.0.0:"@ + decimal_text(port as nat)
}

/// The settings of the server that `env` gives: the log level `info` and the port 80
/// where the environment is silent, and the port 80 where it names none that exists.
pub fn server_settings(env: &Environment) -> (r: ServerSettings)
    ensures
        r.log_level@ == value_or(env@, "LOG_LEVEL"@, "info"@),
        r.level == effective_log_level(r.log_level@),
        r.log_level_recognised == log_level_named(r.log_level@) is Some,
        r.port == number_setting(lookup(env@, "PORT"@), 65535, 80),
        r.bind_address@ == bind_address_text(r.port),
{
    let port = parse_number_setting(env.var("PORT"), 65535, 80) as u16;
    let mut bind_address = String::from_str("0.0.0.0:");
    push_decimal(&mut bind_address, port as u64);
    let log_level = var_or(env, "LOG_LEVEL", "info");
    let (level, log_level_recognised) = match parse_log_level(log_level) {
        Some(level) => (level, true),
        None => (LogLevel::Info, false),
    };
    ServerSettings {
        log_level: log_level.to_owned(),
        level,
        log_level_recognised,
        port,
        bind_address,
    }
}

} // verus!
