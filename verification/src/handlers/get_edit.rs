//! The page on which a user edits the own display name.

use vstd::prelude::*;
use vstd::string::StringExecFns;

use crate::database::{User, UserDatabase, UserView};
use crate::errors::{AppError, AppErrorView};
use crate::handlers::get_api_username::store_failure;
use crate::handlers::get_display::entry;
use crate::handlers::{context_view, lookup_view, page_result_view, TemplatePage, TemplatePageView};
use crate::middleware::jwt_auth::Claims;
use crate::text::concatenated;
use crate::validation::{username_problem, validation_failure, ValidatedUsername};

verus! {

/// The display name that the form starts out with: that of the user, the username where
/// the user has an empty one, and the name from the token where there is no user yet.
pub open spec fn current_display_name(username: Seq<char>, user: Option<UserView>) -> Seq<char> {
    match user {
        Some(user) => if user.display_name.len() == 0 {
            user.username
        } else {
            user.display_name
        },
        None => username,
    }
}

/// The edit page for `username` that starts out with `display_name`.
pub open spec fn edit_page(username: Seq<char>, display_name: Seq<char>) -> TemplatePageView {
    TemplatePageView {
        template: "edit.html"@,
        context: seq![
            ("username"@, username),
            ("display_name"@, display_name),
            ("title"@, "Edit - "@ + username),
            (
                "description"@,
                "Content management system to edit display name for user "@ + username,
            ),
            ("keywords"@, "edit, cms, content management, display name, profile"@),
        ],
    }
}

/// What is shown to the user with the valid username `username`, given what the store
/// answered: the edit page, or that the store failed.
pub open spec fn edit_answer(username: Seq<char>, answer: Result<Option<UserView>, Seq<char>>) -> Result<
    TemplatePageView,
    AppErrorView,
> {
    match answer {
        Ok(user) => Ok(edit_page(username, current_display_name(username, user))),
        Err(cause) => Err(store_failure("Failed to get user: "@, cause)),
    }
}

/// What is shown to the user `username`, given what the store answered.
pub fn edit_response(username: &ValidatedUsername, answer: Result<Option<User>, String>) -> (r:
    Result<TemplatePage, AppError>)
    ensures
        page_result_view(r) == edit_answer(username@, lookup_view(answer)),
{
    let display_name = match answer {
        Ok(Some(user)) => {
            if user.display_name.as_str().is_empty() {
                user.username
            } else {
                user.display_name
            }
        },
        Ok(None) => username.as_str().to_owned(),
        Err(cause) => {
            let message = concatenated("Failed to get user: ", cause.as_str());
            return Err(AppError::database_error(message.as_str()));
        },
    };
    let mut context: Vec<(String, String)> = Vec::new();
    context.push(entry("username", username.as_str()));
    context.push(entry("display_name", display_name.as_str()));
    let title = concatenated("Edit - ", username.as_str());
    context.push(entry("title", title.as_str()));
    let description = concatenated(
        "Content management system to edit display name for user ",
        username.as_str(),
    );
    context.push(entry("description", description.as_str()));
    context.push(entry("keywords", "edit, cms, content management, display name, profile"));
    assert(context_view(context@) =~= edit_page(username@, display_name@).context);
    Ok(TemplatePage { template: String::from_str("edit.html"), context })
}

/// Chooses the page on which the user that `claims` speaks of edits the own display name,
/// from what the store answered to a lookup of that user. A subject that is no valid
/// username is turned down before the store is asked.
pub fn get_edit<D: UserDatabase>(database: &D, claims: &Claims) -> (r: Result<
    TemplatePage,
    AppError,
>)
    ensures
        match username_problem(claims.sub@) {
            Some(problem) => page_result_view(r) == Err::<TemplatePageView, AppErrorView>(
                validation_failure(problem),
            ),
            None => exists|answer: Result<Option<UserView>, Seq<char>>|
                database.may_answer(claims.sub@, answer) && page_result_view(r)
                    == #[trigger] edit_answer(claims.sub@, answer),
        },
{
    let validated_username = match ValidatedUsername::new(claims.sub.clone()) {
        Ok(v) => v,
        Err(e) => {
            return Err(e);
        },
    };
    let answer = database.get_user(validated_username.as_str());
    edit_response(&validated_username, answer)
}

} // verus!
