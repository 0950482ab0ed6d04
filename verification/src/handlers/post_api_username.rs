//! The change of one's own display name over the API.

use vstd::prelude::*;

use crate::database::UserDatabase;
use crate::errors::{AppError, AppErrorView};
use crate::handlers::get_api_username::{
    response_view, store_failure, UsernameResponse, UsernameResponseView,
};
use crate::handlers::update_view;
use crate::text::{concatenated, trim};
use crate::validation::{
    display_name_problem, sanitize_display_name, username_problem, validation_failure,
    ValidatedDisplayName, ValidatedUsername,
};

verus! {

/// The body of a request to change a display name.
#[derive(Debug)]
pub struct UpdateUsernameRequest {
    pub display_name: String,
}

/// What is wrong with a request of the user `username` to be shown as `display_name`, or
/// `None` if nothing is. The username is looked at first; the display name is looked at
/// without the white space around it.
pub open spec fn update_problem(username: Seq<char>, display_name: Seq<char>) -> Option<Seq<char>> {
    match username_problem(username) {
        Some(problem) => Some(problem),
        None => display_name_problem(trim(display_name)),
    }
}

/// What the API answers to a valid request of `username` to be shown as `display_name`,
/// given what the store answered: the user as it is now, or that the store failed.
pub open spec fn update_answer(
    username: Seq<char>,
    display_name: Seq<char>,
    answer: Result<(), Seq<char>>,
) -> Result<UsernameResponseView, AppErrorView> {
    match answer {
        Ok(_) => Ok(UsernameResponseView { username, display_name }),
        Err(cause) => Err(store_failure("Failed to update user: "@, cause)),
    }
}

/// What the API answers to a request of `username` to be shown as `display_name`, given
/// what the store answered.
pub fn update_response(
    username: ValidatedUsername,
    display_name: ValidatedDisplayName,
    answer: Result<(), String>,
) -> (r: Result<UsernameResponse, AppError>)
    ensures
        response_view(r) == update_answer(username@, display_name@, update_view(answer)),
{
    match answer {
        Ok(()) => Ok(
            UsernameResponse {
                username: username.into_string(),
                display_name: display_name.into_string(),
            },
        ),
        Err(cause) => {
            let message = concatenated("Failed to update user: ", cause.as_str());
            Err(AppError::database_error(message.as_str()))
        },
    }
}

/// Asks the store to change the display name of the authenticated user `username` to
/// what `payload` asks for, less the white space around it, and answers with what the
/// store answered. A request that is not valid is turned down before the store is asked,
/// and leaves the store as it is.
pub fn post_api_username<D: UserDatabase>(
    database: &mut D,
    username: String,
    payload: UpdateUsernameRequest,
) -> (r: Result<UsernameResponse, AppError>)
    ensures
        match update_problem(username@, payload.display_name@) {
            Some(problem) => *final(database) == *old(database) && response_view(r) == Err::<
                UsernameResponseView,
                AppErrorView,
            >(validation_failure(problem)),
            None => exists|answer: Result<(), Seq<char>>|
                old(database).may_update(
                    username@,
                    trim(payload.display_name@),
                    answer,
                    *final(database),
                ) && response_view(r) == #[trigger] update_answer(
                    username@,
                    trim(payload.display_name@),
                    answer,
                ),
        },
{
    let validated_username = match ValidatedUsername::new(username) {
        Ok(v) => v,
        Err(e) => {
            return Err(e);
        },
    };
    let sanitized_display_name = sanitize_display_name(payload.display_name.as_str());
    let validated_display_name = match ValidatedDisplayName::new(sanitized_display_name) {
        Ok(v) => v,
        Err(e) => {
            return Err(e);
        },
    };
    let answer = database.update_user_display_name(
        validated_username.as_str(),
        validated_display_name.as_str(),
    );
    update_response(validated_username, validated_display_name, answer)
}

} // verus!
