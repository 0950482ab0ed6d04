//! The change of one's own display name over the API, answered with a bare status where
//! it fails.

use vstd::prelude::*;

use crate::database::UserDatabase;
use crate::handlers::update_view;
use crate::handlers::username::{response_view, UsernameResponse, UsernameResponseView};
use crate::validation::{
    is_valid_display_name, is_valid_username, validate_display_name, validate_username,
};

verus! {

/// The body of a request to change a display name.
#[derive(Debug)]
pub struct UpdateUsernameRequest {
    pub display_name: String,
}

/// The status with which a request of `username` to be shown as `display_name` is turned
/// down before the store is asked: 400 for a display name that is not valid, 500 for a
/// username that is not, since it came from a token that was accepted.
pub open spec fn update_refusal(username: Seq<char>, display_name: Seq<char>) -> Option<u16> {
    if !is_valid_display_name(display_name) {
        Some(400u16)
    } else if !is_valid_username(username) {
        Some(500u16)
    } else {
        None
    }
}

/// What is answered to a valid request of `username` to be shown as `display_name`, given
/// what the store answered: the user as it is now, or 500 where the store failed.
pub open spec fn update_answer(
    username: Seq<char>,
    display_name: Seq<char>,
    answer: Result<(), Seq<char>>,
) -> Result<UsernameResponseView, u16> {
    match answer {
        Ok(_) => Ok(UsernameResponseView { username, display_name }),
        Err(_) => Err(500u16),
    }
}

/// What is answered to a valid request, given what the store answered.
pub fn update_response(username: &str, display_name: String, answer: Result<(), String>) -> (r:
    Result<UsernameResponse, u16>)
    ensures
        response_view(r) == update_answer(username@, display_name@, update_view(answer)),
{
    match answer {
        Ok(()) => Ok(UsernameResponse { username: username.to_owned(), display_name }),
        Err(_) => Err(500),
    }
}

/// Asks the store to change the display name of the authenticated user `username` to
/// what `payload` asks for, and answers with what the store answered. A request that is
/// turned down leaves the store as it is.
pub fn update_username_api<D: UserDatabase>(
    database: &mut D,
    username: &str,
    payload: UpdateUsernameRequest,
) -> (r: Result<UsernameResponse, u16>)
    ensures
        match update_refusal(username@, payload.display_name@) {
            Some(status) => *final(database) == *old(database) && response_view(r) == Err::<
                UsernameResponseView,
                u16,
            >(status),
            None => exists|answer: Result<(), Seq<char>>|
                old(database).may_update(
                    username@,
                    payload.display_name@,
                    answer,
                    *final(database),
                ) && response_view(r) == #[trigger] update_answer(
                    username@,
                    payload.display_name@,
                    answer,
                ),
        },
{
    match validate_display_name(payload.display_name.as_str()) {
        Ok(()) => {},
        Err(_) => {
            return Err(400);
        },
    }
    match validate_username(username) {
        Ok(()) => {},
        Err(_) => {
            return Err(500);
        },
    }
    let answer = database.update_user_display_name(username, payload.display_name.as_str());
    update_response(username, payload.display_name, answer)
}

} // verus!
