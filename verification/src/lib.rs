//! The rules of a small web service that shows a user's display name and lets the user
//! change it, with proofs that the code keeps to them.
//!
//! The service answers requests over HTTP; this library is everything about it that can
//! be said without a socket: what makes a username or a display name acceptable, which
//! token of a request is taken for authentication, which headers a response is given, how
//! long an answer of the user store is kept, how many requests a client may make, and what
//! each endpoint answers once the outside world has spoken. Every function states in its
//! contract what it returns, and the verifier checks the code against that statement.
//!
//! Time is handed in by the caller wherever a rule depends on it, so that every rule can
//! be tried at any moment one cares to name. Calls into other crates stand behind small
//! functions whose contracts say what is taken on trust.

pub mod config;
pub mod database;
pub mod env_validation;
pub mod errors;
pub mod handlers;
pub mod logging;
pub mod metrics;
pub mod middleware;
pub mod template;
pub mod text;
pub mod validation;
