//! The lookup of a user over the API, answered with a bare status where it fails.

use vstd::prelude::*;

use crate::database::{User, UserDatabase, UserView};
use crate::handlers::lookup_view;
use crate::validation::{is_valid_username, validate_username};

verus! {

/// A user as this endpoint shows it.
#[derive(Debug)]
pub struct UsernameResponse {
    pub username: String,
    pub display_name: String,
}

/// The mathematical content of a [`UsernameResponse`].
pub struct UsernameResponseView {
    pub username: Seq<char>,
    pub display_name: Seq<char>,
}

impl View for UsernameResponse {
    type V = UsernameResponseView;

    open spec fn view(&self) -> UsernameResponseView {
        UsernameResponseView { username: self.username@, display_name: self.display_name@ }
    }
}

/// The content of a response or the status in its place.
pub open spec fn response_view(r: Result<UsernameResponse, u16>) -> Result<
    UsernameResponseView,
    u16,
> {
    match r {
        Ok(response) => Ok(response@),
        Err(status) => Err(status),
    }
}

/// What is answered to a lookup of a valid username, given what the store answered: the
/// user as the store has it; 404 where there is no such user; 500 where the store failed.
pub open spec fn username_answer(answer: Result<Option<UserView>, Seq<char>>) -> Result<
    UsernameResponseView,
    u16,
> {
    match answer {
        Ok(Some(user)) => Ok(
            UsernameResponseView { username: user.username, display_name: user.display_name },
        ),
        Ok(None) => Err(404u16),
        Err(_) => Err(500u16),
    }
}

/// What is answered to a lookup of a valid username, given what the store answered.
pub fn username_response(answer: Result<Option<User>, String>) -> (r: Result<UsernameResponse, u16>)
    ensures
        response_view(r) == username_answer(lookup_view(answer)),
{
    match answer {
        Ok(Some(user)) => Ok(
            UsernameResponse { username: user.username, display_name: user.display_name },
        ),
        Ok(None) => Err(404),
        Err(_) => Err(500),
    }
}

/// Looks up `username` in `database`, and answers with what the store answered to that
/// lookup. A username that is not valid is answered with 400 before the store is asked.
pub fn get_username_api<D: UserDatabase>(database: &D, username: &str) -> (r: Result<
    UsernameResponse,
    u16,
>)
    ensures
        if is_valid_username(username@) {
            exists|answer: Result<Option<UserView>, Seq<char>>|
                database.may_answer(username@, answer) && response_view(r)
                    == #[trigger] username_answer(answer)
        } else {
            response_view(r) == Err::<UsernameResponseView, u16>(400u16)
        },
{
    match validate_username(username) {
        Ok(()) => {},
        Err(_) => {
            return Err(400);
        },
    }
    let answer = database.get_user(username);
    username_response(answer)
}

} // verus!
