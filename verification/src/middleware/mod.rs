//! Request-processing rules that sit in front of the handlers.

pub mod jwt_auth;
pub mod rate_limiting;
pub mod security;

use vstd::prelude::*;
use vstd::string::StringExecFns;

use crate::metrics::{AuthOutcome, AuthOutcomeView};

verus! {

/// What is counted for a response with the given status: a failure for want of a valid
/// token where it is 401, a failure for want of permission where it is 403, and otherwise
/// a success of the user that the response names, if it names one.
pub open spec fn auth_outcome(status: u16, username: Option<Seq<char>>) -> AuthOutcomeView {
    if status == 401 {
        AuthOutcomeView::Failure("invalid_token"@)
    } else if status == 403 {
        AuthOutcomeView::Failure("insufficient_permissions"@)
    } else {
        match username {
            Some(name) => AuthOutcomeView::Success(name),
            None => AuthOutcomeView::Unknown,
        }
    }
}

/// What is counted for a response with the given status that names the given user.
pub fn auth_metrics_middleware(status: u16, username: Option<&str>) -> (r: AuthOutcome)
    ensures
        r@ == auth_outcome(
            status,
            match username {
                Some(name) => Some(name@),
                None => None,
            },
        ),
{
    if status == 401 {
        AuthOutcome::Failure(String::from_str("invalid_token"))
    } else if status == 403 {
        AuthOutcome::Failure(String::from_str("insufficient_permissions"))
    } else {
        match username {
            Some(name) => AuthOutcome::Success(name.to_owned()),
            None => AuthOutcome::Unknown,
        }
    }
}

} // verus!
