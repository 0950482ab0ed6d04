//! Whether the store holds the users that it is seeded with.

use vstd::prelude::*;
use vstd::string::StringExecFns;

use crate::database::{optional_user_view, UserDatabase, UserView};
use crate::text::texts;

verus! {

/// What was found of the seed users.
#[derive(Debug)]
pub struct SeedStatus {
    /// Whether any seed user was found.
    pub is_seeded: bool,
    /// The number of seed users that were found.
    pub seed_record_count: u32,
    /// The seed users that were found, in the order in which they are expected.
    pub found_seed_users: Vec<String>,
    /// The seed users that were not found, in the order in which they are expected.
    pub missing_seed_users: Vec<String>,
}

/// The mathematical content of a [`SeedStatus`].
pub struct SeedStatusView {
    pub is_seeded: bool,
    pub seed_record_count: u32,
    pub found_seed_users: Seq<Seq<char>>,
    pub missing_seed_users: Seq<Seq<char>>,
}

impl View for SeedStatus {
    type V = SeedStatusView;

    open spec fn view(&self) -> SeedStatusView {
        SeedStatusView {
            is_seeded: self.is_seeded,
            seed_record_count: self.seed_record_count,
            found_seed_users: texts(self.found_seed_users@),
            missing_seed_users: texts(self.missing_seed_users@),
        }
    }
}

/// The users that the store is seeded with.
pub const EXPECTED_SEED_USERS: [&'static str; 3] = ["admin", "testuser", "demo"];

/// The users that the store is seeded with.
pub open spec fn expected_seed_users() -> Seq<Seq<char>> {
    seq!["admin"@, "testuser"@, "demo"@]
}

/// Those of `names` for which `present` says `wanted`, in their order.
pub open spec fn selected(names: Seq<Seq<char>>, present: Seq<bool>, wanted: bool) -> Seq<Seq<char>>
    decreases names.len(),
{
    if names.len() == 0 || present.len() != names.len() {
        Seq::empty()
    } else if present.last() == wanted {
        selected(names.drop_last(), present.drop_last(), wanted).push(names.last())
    } else {
        selected(names.drop_last(), present.drop_last(), wanted)
    }
}

/// The report on the seed users where `present` says of each whether it was found: the
/// store counts as seeded if any was.
pub open spec fn seed_report(present: Seq<bool>) -> SeedStatusView {
    let found = selected(expected_seed_users(), present, true);
    SeedStatusView {
        is_seeded: found.len() > 0,
        seed_record_count: found.len() as u32,
        found_seed_users: found,
        missing_seed_users: selected(expected_seed_users(), present, false),
    }
}

/// No more names are selected than there are.
pub proof fn lemma_selected_len(names: Seq<Seq<char>>, present: Seq<bool>, wanted: bool)
    ensures
        selected(names, present, wanted).len() <= names.len(),
    decreases names.len(),
{
    if names.len() > 0 && present.len() == names.len() {
        lemma_selected_len(names.drop_last(), present.drop_last(), wanted);
    }
}

/// The report on the seed users where `present` says of each, in the order in which they
/// are expected, whether it was found.
pub fn seed_status(present: &[bool; 3]) -> (r: SeedStatus)
    ensures
        r@ == seed_report(present@),
{
    let mut found_users: Vec<String> = Vec::new();
    let mut missing_users: Vec<String> = Vec::new();
    let ghost names = expected_seed_users();
    let mut i: usize = 0;
    while i < 3
        invariant
            i <= 3,
            names == expected_seed_users(),
            texts(found_users@) == selected(names.take(i as int), present@.take(i as int), true),
            texts(missing_users@) == selected(names.take(i as int), present@.take(i as int), false),
            found_users.len() <= i,
        decreases 3 - i,
    {
        let name = EXPECTED_SEED_USERS[i];
        proof {
            assert(names.take(i + 1).drop_last() =~= names.take(i as int));
            assert(present@.take(i + 1).drop_last() =~= present@.take(i as int));
        }
        if present[i] {
            found_users.push(String::from_str(name));
        } else {
            missing_users.push(String::from_str(name));
        }
        i += 1;
    }
    proof {
        assert(names.take(3) =~= names);
        assert(present@.take(3) =~= present@);
    }
    let is_seeded = found_users.len() > 0;
    let seed_record_count = found_users.len() as u32;
    SeedStatus {
        is_seeded,
        seed_record_count,
        found_seed_users: found_users,
        missing_seed_users: missing_users,
    }
}

/// Whether `db` may answer the lookups of the first seed users, as many as `found` is
/// long, with the users of `found`, in the order in which the seed users are expected.
pub open spec fn seed_lookups_answered<D: UserDatabase>(db: D, found: Seq<Option<UserView>>) -> bool {
    &&& found.len() <= 3
    &&& forall|i: int|
        0 <= i < found.len() ==> db.may_answer(
            expected_seed_users()[i],
            Ok::<Option<UserView>, Seq<char>>(#[trigger] found[i]),
        )
}

/// Which of the lookups that were answered with `found` found a user.
pub open spec fn presence(found: Seq<Option<UserView>>) -> Seq<bool> {
    Seq::new(found.len(), |i: int| found[i] is Some)
}

/// Looks up each seed user in `db`, in the order in which they are expected, and reports
/// which were found. The first lookup that fails ends the check with that failure, and
/// the seed users after it are not looked up.
pub fn check_database_seeding<D: UserDatabase>(db: &D) -> (r: Result<SeedStatus, String>)
    ensures
        match r {
            Ok(status) => exists|found: Seq<Option<UserView>>|
                found.len() == 3 && #[trigger] seed_lookups_answered(*db, found) && status@
                    == seed_report(presence(found)),
            Err(cause) => exists|found: Seq<Option<UserView>>|
                found.len() < 3 && #[trigger] seed_lookups_answered(*db, found) && db.may_answer(
                    expected_seed_users()[found.len() as int],
                    Err::<Option<UserView>, Seq<char>>(cause@),
                ),
        },
{
    let mut present: [bool; 3] = [false, false, false];
    let ghost mut found: Seq<Option<UserView>> = Seq::empty();
    let mut i: usize = 0;
    while i < 3
        invariant
            i <= 3,
            found.len() == i,
            seed_lookups_answered(*db, found),
            forall|k: int| 0 <= k < i ==> present@[k] == (found[k] is Some),
        decreases 3 - i,
    {
        let name = EXPECTED_SEED_USERS[i];
        assert(name@ == expected_seed_users()[i as int]);
        match db.get_user(name) {
            Ok(user) => {
                present[i] = user.is_some();
                proof {
                    found = found.push(optional_user_view(user));
                }
            },
            Err(cause) => {
                return Err(cause);
            },
        }
        i += 1;
    }
    assert(present@ =~= presence(found));
    Ok(seed_status(&present))
}

} // verus!
