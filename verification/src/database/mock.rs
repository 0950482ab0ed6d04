//! A store of users that lives in memory.

use vstd::prelude::*;
use vstd::string::StringExecFns;

use crate::database::{optional_user_view, User, UserDatabase, UserView};
use crate::text::{
    all_distinct, decimal_text, first_index, first_index_from, lemma_first_index_from,
    push_decimal, same_text,
};

verus! {

/// A store of users that keeps them in memory, in the order in which they were added.
/// A user is found by name. `vstd` states what a hash map holds only for keys of whose
/// hashing it knows, and a text is none of them, so the users stand in a vector in which
/// no name occurs twice.
pub struct MockUserDatabase {
    users: Vec<User>,
}

/// The contents of a list of users.
pub open spec fn users_view(users: Seq<User>) -> Seq<UserView> {
    Seq::new(users.len(), |i: int| users[i]@)
}

/// The usernames of `users`, in order.
pub open spec fn usernames_of(users: Seq<UserView>) -> Seq<Seq<char>> {
    Seq::new(users.len(), |i: int| users[i].username)
}

/// The user named `username` among `users`, if there is one.
pub open spec fn find_user(users: Seq<UserView>, username: Seq<char>) -> Option<UserView> {
    match first_index(usernames_of(users), username) {
        Some(i) => Some(users[i]),
        None => None,
    }
}

/// `users` after the display name of `username` is set: changed in place where there is
/// such a user, and with a new user at the end where there is none.
pub open spec fn with_display_name(
    users: Seq<UserView>,
    username: Seq<char>,
    display_name: Seq<char>,
) -> Seq<UserView> {
    match first_index(usernames_of(users), username) {
        Some(i) => users.update(i, UserView { username: users[i].username, display_name }),
        None => users.push(UserView { username, display_name }),
    }
}

/// The users that a new store starts with.
pub open spec fn sample_users() -> Seq<UserView> {
    seq![
        UserView { username: "admin"@, display_name: "Administrator"@ },
        UserView { username: "johndoe"@, display_name: "John Doe"@ },
        UserView { username: "alice"@, display_name: "Alice Smith"@ },
    ]
}

/// The line with which a store of `count` users reports that it is well.
pub open spec fn health_line(count: nat) -> Seq<char> {
    "mock_db_healthy_with_"@ + decimal_text(count) + "_users"@
}

impl View for MockUserDatabase {
    type V = Seq<UserView>;

    closed spec fn view(&self) -> Seq<UserView> {
        users_view(self.users@)
    }
}

/// The first position at which `users` holds a user named `username`, if there is one.
fn position(users: &Vec<User>, username: &str) -> (r: Option<usize>)
    ensures
        match r {
            Some(i) => first_index(usernames_of(users_view(users@)), username@) == Some(i as int)
                && i < users.len() && users@[i as int].username@ == username@,
            None => first_index(usernames_of(users_view(users@)), username@) is None && forall|
                j: int,
            |
                0 <= j < users.len() ==> users@[j].username@ != username@,
        },
{
    let ghost names = usernames_of(users_view(users@));
    let mut i: usize = 0;
    while i < users.len()
        invariant
            i <= users.len(),
            names == usernames_of(users_view(users@)),
            first_index(names, username@) == first_index_from(names, username@, i as int),
            forall|j: int| 0 <= j < i ==> users@[j].username@ != username@,
        decreases users.len() - i,
    {
        if same_text(users[i].username.as_str(), username) {
            return Some(i);
        }
        i += 1;
    }
    None
}

/// A user with the given names.
fn user(username: &str, display_name: &str) -> (r: User)
    ensures
        r@ == (UserView { username: username@, display_name: display_name@ }),
{
    User { username: username.to_owned(), display_name: display_name.to_owned() }
}

impl MockUserDatabase {
    #[verifier::type_invariant]
    spec fn well_formed(self) -> bool {
        all_distinct(usernames_of(users_view(self.users@)))
    }

    /// A store with three sample users.
    pub fn new() -> (r: Self)
        ensures
            r@ == sample_users(),
    {
        let mut users: Vec<User> = Vec::new();
        users.push(user("admin", "Administrator"));
        users.push(user("johndoe", "John Doe"));
        users.push(user("alice", "Alice Smith"));
        proof {
            reveal_strlit("admin");
            reveal_strlit("johndoe");
            reveal_strlit("alice");
            let names = usernames_of(users_view(users@));
            assert(names[0][1] == 'd' && names[2][1] == 'l');
        }
        MockUserDatabase { users }
    }

    /// A store without users.
    pub fn new_empty() -> (r: Self)
        ensures
            r@ == Seq::<UserView>::empty(),
    {
        let users: Vec<User> = Vec::new();
        MockUserDatabase { users }
    }

    /// The number of users. No two of them have the same username.
    pub fn user_count(&self) -> (r: usize)
        ensures
            r == self@.len(),
            all_distinct(usernames_of(self@)),
    {
        proof {
            use_type_invariant(self);
        }
        self.users.len()
    }

    /// Whether there is a user named `username`.
    pub fn user_exists(&self, username: &str) -> (r: bool)
        ensures
            r == find_user(self@, username@) is Some,
    {
        position(&self.users, username).is_some()
    }

    /// The user named `username`, if there is one.
    pub fn find(&self, username: &str) -> (r: Option<User>)
        ensures
            optional_user_view(r) == find_user(self@, username@),
    {
        match position(&self.users, username) {
            Some(i) => Some(self.users[i].clone()),
            None => None,
        }
    }

    /// Sets the display name of `username`, adding the user where there is none of that name.
    pub fn set_display_name(&mut self, username: &str, display_name: &str)
        ensures
            final(self)@ == with_display_name(old(self)@, username@, display_name@),
    {
        proof {
            use_type_invariant(&*self);
        }
        let mut users: Vec<User> = Vec::new();
        core::mem::swap(&mut self.users, &mut users);
        let ghost before = users_view(users@);
        let ghost names = usernames_of(before);
        match position(&users, username) {
            Some(i) => {
                let changed = User {
                    username: users[i].username.clone(),
                    display_name: display_name.to_owned(),
                };
                users.set(i, changed);
                proof {
                    assert(usernames_of(users_view(users@)) =~= names);
                }
            },
            None => {
                users.push(user(username, display_name));
                proof {
                    assert(usernames_of(users_view(users@)) =~= names.push(username@));
                }
            },
        }
        self.users = users;
    }

    /// The line with which the store reports that it is well.
    pub fn health_line(&self) -> (r: String)
        ensures
            r@ == health_line(self@.len()),
    {
        let mut out = String::from_str("mock_db_healthy_with_");
        push_decimal(&mut out, self.users.len() as u64);
        out.append("_users");
        out
    }
}

impl UserDatabase for MockUserDatabase {
    /// A lookup is answered with the user of that name, if there is one, and never fails.
    open spec fn may_answer(
        &self,
        username: Seq<char>,
        answer: Result<Option<UserView>, Seq<char>>,
    ) -> bool {
        answer == Ok::<Option<UserView>, Seq<char>>(find_user(self@, username))
    }

    /// An update never fails, and leaves the store with the display name set.
    open spec fn may_update(
        &self,
        username: Seq<char>,
        display_name: Seq<char>,
        answer: Result<(), Seq<char>>,
        after: Self,
    ) -> bool {
        answer is Ok && after@ == with_display_name(self@, username, display_name)
    }

    /// The store always reports that it is well, with the number of its users.
    open spec fn may_report(&self, answer: Result<Seq<char>, Seq<char>>) -> bool {
        answer == Ok::<Seq<char>, Seq<char>>(health_line(self@.len()))
    }

    /// The user named `username`, if there is one. The lookup never fails.
    fn get_user(&self, username: &str) -> (r: Result<Option<User>, String>)
        ensures
            r matches Ok(found) && optional_user_view(found) == find_user(self@, username@),
    {
        Ok(self.find(username))
    }

    /// Sets the display name of `username`, adding the user where there is none of that
    /// name. The update never fails.
    fn update_user_display_name(&mut self, username: &str, display_name: &str) -> (r: Result<
        (),
        String,
    >)
        ensures
            r is Ok,
            final(self)@ == with_display_name(old(self)@, username@, display_name@),
    {
        self.set_display_name(username, display_name);
        Ok(())
    }

    /// The line with which the store reports that it is well, which it always is.
    fn health_check(&self) -> (r: Result<String, String>)
        ensures
            r matches Ok(line) && line@ == health_line(self@.len()),
    {
        Ok(self.health_line())
    }
}

/// Once the display name of a username is set, a lookup of that username finds a user
/// with that display name; the store has grown by one user if there was none of that
/// name, and has kept its size if there was.
pub proof fn lemma_update_is_found(users: Seq<UserView>, username: Seq<char>, display_name: Seq<char>)
    ensures
        find_user(with_display_name(users, username, display_name), username) matches Some(user)
            && user.username == username && user.display_name == display_name,
        with_display_name(users, username, display_name).len() == (if find_user(
            users,
            username,
        ) is Some {
            users.len()
        } else {
            users.len() + 1
        }),
{
    let after = with_display_name(users, username, display_name);
    lemma_first_index_from(usernames_of(users), username, 0);
    lemma_first_index_from(usernames_of(after), username, 0);
    match first_index(usernames_of(users), username) {
        Some(i) => {
            assert(usernames_of(after)[i] == username);
            assert forall|j: int| 0 <= j < i implies usernames_of(after)[j] != username by {
                assert(usernames_of(after)[j] == usernames_of(users)[j]);
            }
        },
        None => {
            assert(usernames_of(after)[users.len() as int] == username);
            assert forall|j: int| 0 <= j < users.len() implies usernames_of(after)[j]
                != username by {
                assert(usernames_of(after)[j] == usernames_of(users)[j]);
            }
        },
    }
}

/// Setting a display name never makes two users share a username.
pub proof fn lemma_update_keeps_usernames_distinct(
    users: Seq<UserView>,
    username: Seq<char>,
    display_name: Seq<char>,
)
    requires
        all_distinct(usernames_of(users)),
    ensures
        all_distinct(usernames_of(with_display_name(users, username, display_name))),
{
    let names = usernames_of(users);
    let after = usernames_of(with_display_name(users, username, display_name));
    lemma_first_index_from(names, username, 0);
    match first_index(names, username) {
        Some(i) => {
            assert(after =~= names);
        },
        None => {
            assert(after =~= names.push(username));
        },
    }
}

/// Setting the display name of one username leaves every other user as it was.
pub proof fn lemma_update_keeps_others(
    users: Seq<UserView>,
    username: Seq<char>,
    display_name: Seq<char>,
    other: Seq<char>,
)
    requires
        other != username,
    ensures
        find_user(with_display_name(users, username, display_name), other) == find_user(
            users,
            other,
        ),
{
    let before_names = usernames_of(users);
    let after_names = usernames_of(with_display_name(users, username, display_name));
    lemma_first_index_from(before_names, username, 0);
    lemma_first_index_from(before_names, other, 0);
    lemma_first_index_from(after_names, other, 0);
    assert forall|j: int| 0 <= j < users.len() implies (after_names[j] == other
        <==> before_names[j] == other) by {}
}

} // verus!
