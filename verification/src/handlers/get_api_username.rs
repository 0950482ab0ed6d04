//! The lookup of a user over the API.

use vstd::prelude::*;

use crate::database::{User, UserDatabase, UserView};
use crate::errors::{user_not_found_message, AppError, AppErrorView, ErrorCode};
use crate::handlers::lookup_view;
use crate::text::concatenated;
use crate::validation::{
    is_valid_username, username_problem, validation_failure, ValidatedUsername,
};

verus! {

/// A user as the API shows it.
#[derive(Debug)]
pub struct UsernameResponse {
    pub username: String,
    pub display_name: String,
}

/// The mathematical content of a [`UsernameResponse`].
pub struct UsernameResponseView {
    pub username: Seq<char>,
    pub display_name: Seq<char>,
}

impl View for UsernameResponse {
    type V = UsernameResponseView;

    open spec fn view(&self) -> UsernameResponseView {
        UsernameResponseView { username: self.username@, display_name: self.display_name@ }
    }
}

/// The content of a response or the error in its place.
pub open spec fn response_view(r: Result<UsernameResponse, AppError>) -> Result<
    UsernameResponseView,
    AppErrorView,
> {
    match r {
        Ok(response) => Ok(response@),
        Err(e) => Err(e@),
    }
}

/// The error for a store that failed while `action` was under way.
pub open spec fn store_failure(action: Seq<char>, cause: Seq<char>) -> AppErrorView {
    AppErrorView { code: ErrorCode::DatabaseError, message: action + cause, details: None }
}

/// What the API answers to a lookup of the valid username `username`, given what the
/// store answered: the user as the store has it; that there is no such user; or that the
/// store failed.
pub open spec fn api_username_answer(
    username: Seq<char>,
    answer: Result<Option<UserView>, Seq<char>>,
) -> Result<UsernameResponseView, AppErrorView> {
    match answer {
        Ok(Some(user)) => Ok(
            UsernameResponseView { username: user.username, display_name: user.display_name },
        ),
        Ok(None) => Err(
            AppErrorView {
                code: ErrorCode::UserNotFound,
                message: user_not_found_message(username),
                details: None,
            },
        ),
        Err(cause) => Err(store_failure("Failed to get user: "@, cause)),
    }
}

/// What the API answers to a lookup of `username`, given what the store answered.
pub fn api_username_response(username: &ValidatedUsername, answer: Result<Option<User>, String>) -> (r:
    Result<UsernameResponse, AppError>)
    ensures
        response_view(r) == api_username_answer(username@, lookup_view(answer)),
{
    match answer {
        Ok(Some(user)) => Ok(
            UsernameResponse { username: user.username, display_name: user.display_name },
        ),
        Ok(None) => Err(AppError::user_not_found(username.as_str())),
        Err(cause) => {
            let message = concatenated("Failed to get user: ", cause.as_str());
            Err(AppError::database_error(message.as_str()))
        },
    }
}

/// Looks up `username` in `database` for the API, and answers with what the store
/// answered to that lookup. A username that is not valid is turned down before the store
/// is asked.
pub fn get_api_username<D: UserDatabase>(database: &D, username: String) -> (r: Result<
    UsernameResponse,
    AppError,
>)
    ensures
        match username_problem(username@) {
            Some(problem) => response_view(r) == Err::<UsernameResponseView, AppErrorView>(
                validation_failure(problem),
            ),
            None => exists|answer: Result<Option<UserView>, Seq<char>>|
                database.may_answer(username@, answer) && response_view(r)
                    == #[trigger] api_username_answer(username@, answer),
        },
{
    let validated_username = match ValidatedUsername::new(username) {
        Ok(v) => v,
        Err(e) => {
            return Err(e);
        },
    };
    let answer = database.get_user(validated_username.as_str());
    api_username_response(&validated_username, answer)
}

} // verus!
