//! The page that shows a user's display name.

use vstd::prelude::*;
use vstd::string::StringExecFns;

use crate::database::{User, UserDatabase, UserView};
use crate::errors::{AppError, AppErrorView};
use crate::handlers::get_api_username::store_failure;
use crate::handlers::{context_view, lookup_view, page_result_view, TemplatePage, TemplatePageView};
use crate::text::concatenated;
use crate::validation::{username_problem, validation_failure, ValidatedUsername};

verus! {

/// One named value of a page.
pub fn entry(name: &str, value: &str) -> (r: (String, String))
    ensures
        r.0@ == name@,
        r.1@ == value@,
{
    (String::from_str(name), value.to_owned())
}

/// The display page for a user that exists.
pub open spec fn display_page(user: UserView) -> TemplatePageView {
    TemplatePageView {
        template: "display.html"@,
        context: seq![
            ("username"@, user.username),
            ("display_name"@, user.display_name),
            ("title"@, "Display - "@ + user.username),
            ("description"@, "View the display name for user "@ + user.username),
            ("keywords"@, "user, display, profile, username"@),
        ],
    }
}

/// The display page for a username that no user has.
pub open spec fn display_missing_page(username: Seq<char>) -> TemplatePageView {
    TemplatePageView {
        template: "display.html"@,
        context: seq![("username"@, username), ("error"@, "User not found"@)],
    }
}

/// What is shown for the valid username `username`, given what the store answered: the
/// page of the user; the page that says there is no such user; or that the store failed.
pub open spec fn display_answer(
    username: Seq<char>,
    answer: Result<Option<UserView>, Seq<char>>,
) -> Result<TemplatePageView, AppErrorView> {
    match answer {
        Ok(Some(user)) => Ok(display_page(user)),
        Ok(None) => Ok(display_missing_page(username)),
        Err(cause) => Err(store_failure("Failed to get user: "@, cause)),
    }
}

/// What is shown for `username`, given what the store answered.
pub fn display_response(username: &ValidatedUsername, answer: Result<Option<User>, String>) -> (r:
    Result<TemplatePage, AppError>)
    ensures
        page_result_view(r) == display_answer(username@, lookup_view(answer)),
{
    match answer {
        Ok(Some(user)) => {
            let mut context: Vec<(String, String)> = Vec::new();
            context.push(entry("username", user.username.as_str()));
            context.push(entry("display_name", user.display_name.as_str()));
            let title = concatenated("Display - ", user.username.as_str());
            context.push(entry("title", title.as_str()));
            let description = concatenated("View the display name for user ", user.username.as_str());
            context.push(entry("description", description.as_str()));
            context.push(entry("keywords", "user, display, profile, username"));
            assert(context_view(context@) =~= display_page(user@).context);
            Ok(TemplatePage { template: String::from_str("display.html"), context })
        },
        Ok(None) => {
            let mut context: Vec<(String, String)> = Vec::new();
            context.push(entry("username", username.as_str()));
            context.push(entry("error", "User not found"));
            assert(context_view(context@) =~= display_missing_page(username@).context);
            Ok(TemplatePage { template: String::from_str("display.html"), context })
        },
        Err(cause) => {
            let message = concatenated("Failed to get user: ", cause.as_str());
            Err(AppError::database_error(message.as_str()))
        },
    }
}

/// Chooses the page that shows `username`, from what the store answered to a lookup of
/// that username. A username that is not valid is turned down before the store is asked.
pub fn get_display_username<D: UserDatabase>(database: &D, username: String) -> (r: Result<
    TemplatePage,
    AppError,
>)
    ensures
        match username_problem(username@) {
            Some(problem) => page_result_view(r) == Err::<TemplatePageView, AppErrorView>(
                validation_failure(problem),
            ),
            None => exists|answer: Result<Option<UserView>, Seq<char>>|
                database.may_answer(username@, answer) && page_result_view(r)
                    == #[trigger] display_answer(username@, answer),
        },
{
    let validated_username = match ValidatedUsername::new(username) {
        Ok(v) => v,
        Err(e) => {
            return Err(e);
        },
    };
    let answer = database.get_user(validated_username.as_str());
    display_response(&validated_username, answer)
}

} // verus!
