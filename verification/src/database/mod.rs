//! Storage of users: the record, the interface of a store, and the choice of a store.

pub mod cache;
pub mod mock;
pub mod mysql;
pub mod seeding;

use vstd::prelude::*;
use vstd::string::StringExecFns;

use crate::text::{concatenated, same_text};

verus! {

/// A user: a unique username and the display name shown for it.
#[derive(Debug)]
pub struct User {
    pub username: String,
    pub display_name: String,
}

/// The mathematical content of a [`User`].
pub struct UserView {
    pub username: Seq<char>,
    pub display_name: Seq<char>,
}

impl View for User {
    type V = UserView;

    open spec fn view(&self) -> UserView {
        UserView { username: self.username@, display_name: self.display_name@ }
    }
}

impl Clone for User {
    fn clone(&self) -> (r: Self)
        ensures
            r@ == self@,
    {
        User { username: self.username.clone(), display_name: self.display_name.clone() }
    }
}

/// The content of an optional user.
pub open spec fn optional_user_view(user: Option<User>) -> Option<UserView> {
    match user {
        Some(u) => Some(u@),
        None => None,
    }
}

/// A copy of an optional user.
pub fn clone_optional_user(user: &Option<User>) -> (r: Option<User>)
    ensures
        optional_user_view(r) == optional_user_view(*user),
{
    match user {
        Some(u) => Some(u.clone()),
        None => None,
    }
}

/// The content of what a store answered to a lookup.
pub open spec fn lookup_view(answer: Result<Option<User>, String>) -> Result<
    Option<UserView>,
    Seq<char>,
> {
    match answer {
        Ok(user) => Ok(optional_user_view(user)),
        Err(cause) => Err(cause@),
    }
}

/// The content of what a store answered to an update.
pub open spec fn update_view(answer: Result<(), String>) -> Result<(), Seq<char>> {
    match answer {
        Ok(_) => Ok(()),
        Err(cause) => Err(cause@),
    }
}

/// The content of what a store reported of itself.
pub open spec fn report_view(answer: Result<String, String>) -> Result<Seq<char>, Seq<char>> {
    match answer {
        Ok(line) => Ok(line@),
        Err(cause) => Err(cause@),
    }
}

/// A store of users. A failure is reported as the text of its cause.
///
/// Nothing is promised of what a store answers: it may sit on the far side of a network.
/// Each store may say for itself which answers it may give; one that does not say may
/// give any. All that is said of every store is that what it answers is an answer it may
/// give.
pub trait UserDatabase: Sized {
    /// Whether `answer` is an answer that this store may give to a lookup of `username`.
    open spec fn may_answer(
        &self,
        username: Seq<char>,
        answer: Result<Option<UserView>, Seq<char>>,
    ) -> bool {
        true
    }

    /// Whether this store, asked to set the display name of `username` to `display_name`,
    /// may give `answer` and be `after` from then on.
    open spec fn may_update(
        &self,
        username: Seq<char>,
        display_name: Seq<char>,
        answer: Result<(), Seq<char>>,
        after: Self,
    ) -> bool {
        true
    }

    /// Whether `answer` is a report that this store may give of itself.
    open spec fn may_report(&self, answer: Result<Seq<char>, Seq<char>>) -> bool {
        true
    }

    /// Looks up the user with the given username.
    fn get_user(&self, username: &str) -> (r: Result<Option<User>, String>)
        ensures
            self.may_answer(username@, lookup_view(r)),
    ;

    /// Sets the display name of a user, creating the user if there is none of that name.
    fn update_user_display_name(&mut self, username: &str, display_name: &str) -> (r: Result<
        (),
        String,
    >)
        ensures
            old(self).may_update(username@, display_name@, update_view(r), *final(self)),
    ;

    /// Reports on the state of the store in one line.
    fn health_check(&self) -> (r: Result<String, String>)
        ensures
            self.may_report(report_view(r)),
    ;
}

/// Which store to use and whether to put a cache in front of it.
pub struct DatabaseConfig {
    pub adapter_type: String,
    pub cache_enabled: bool,
    pub cache_ttl_seconds: u64,
}

impl Default for DatabaseConfig {
    /// The mock store, without a cache, with a time to live of five minutes should one be added.
    fn default() -> (r: Self)
        ensures
            r.adapter_type@ == "mock"@,
            !r.cache_enabled,
            r.cache_ttl_seconds == 300,
    {
        Self { adapter_type: String::from_str("mock"), cache_enabled: false, cache_ttl_seconds: 300 }
    }
}

/// The kinds of store that there are.
#[derive(Debug, Clone, Copy, PartialEq, Eq, Structural)]
pub enum AdapterKind {
    /// The store that lives in memory.
    Mock,
    /// The store on a MySQL server.
    MySql,
}

/// The store to set up, and for how many seconds a cache in front of it is to keep an
/// answer, if there is to be a cache.
#[derive(Debug, Clone, Copy, PartialEq, Eq, Structural)]
pub struct DatabasePlan {
    pub adapter: AdapterKind,
    pub cache_ttl_seconds: Option<u64>,
}

/// The kind of store that `name` names, if it names one.
pub open spec fn adapter_named(name: Seq<char>) -> Option<AdapterKind> {
    if name == "mock"@ {
        Some(AdapterKind::Mock)
    } else if name == "mysql"@ {
        Some(AdapterKind::MySql)
    } else {
        None
    }
}

/// The store to set up for `config`, and the cache in front of it. A name that names no
/// store is an error.
pub fn select_adapter(config: &DatabaseConfig) -> (r: Result<DatabasePlan, String>)
    ensures
        r is Ok <==> adapter_named(config.adapter_type@) is Some,
        r matches Ok(plan) ==> Some(plan.adapter) == adapter_named(config.adapter_type@)
            && plan.cache_ttl_seconds == (if config.cache_enabled {
            Some(config.cache_ttl_seconds)
        } else {
            None
        }),
        r matches Err(e) ==> e@ == "Unknown database adapter: "@ + config.adapter_type@,
{
    let adapter = if same_text(config.adapter_type.as_str(), "mock") {
        AdapterKind::Mock
    } else if same_text(config.adapter_type.as_str(), "mysql") {
        AdapterKind::MySql
    } else {
        return Err(concatenated("Unknown database adapter: ", config.adapter_type.as_str()));
    };
    let cache_ttl_seconds = if config.cache_enabled {
        Some(config.cache_ttl_seconds)
    } else {
        None
    };
    Ok(DatabasePlan { adapter, cache_ttl_seconds })
}

} // verus!
