//! The report on whether the store holds its seed users.

use vstd::prelude::*;

use crate::database::seeding::{
    check_database_seeding, expected_seed_users, presence, seed_lookups_answered, seed_report,
    SeedStatus, SeedStatusView,
};
use crate::database::{UserDatabase, UserView};

verus! {

/// The report as the endpoint shows it.
#[derive(Debug)]
pub struct SeedStatusResponse {
    pub is_seeded: bool,
    pub seed_record_count: u32,
    pub found_seed_users: Vec<String>,
    pub missing_seed_users: Vec<String>,
}

impl View for SeedStatusResponse {
    type V = SeedStatusView;

    open spec fn view(&self) -> SeedStatusView {
        SeedStatusView {
            is_seeded: self.is_seeded,
            seed_record_count: self.seed_record_count,
            found_seed_users: crate::text::texts(self.found_seed_users@),
            missing_seed_users: crate::text::texts(self.missing_seed_users@),
        }
    }
}

/// The report as the endpoint shows it: what the check found, unchanged.
pub fn seed_status_response(status: SeedStatus) -> (r: SeedStatusResponse)
    ensures
        r@ == status@,
{
    SeedStatusResponse {
        is_seeded: status.is_seeded,
        seed_record_count: status.seed_record_count,
        found_seed_users: status.found_seed_users,
        missing_seed_users: status.missing_seed_users,
    }
}

/// Checks `database` for its seed users, and reports which of them the store answered
/// for. Where a lookup fails, the answer is 500.
pub fn get_seed_status<D: UserDatabase>(database: &D) -> (r: Result<SeedStatusResponse, u16>)
    ensures
        match r {
            Ok(response) => exists|found: Seq<Option<UserView>>|
                found.len() == 3 && #[trigger] seed_lookups_answered(*database, found)
                    && response@ == seed_report(presence(found)),
            Err(status) => status == 500 && exists|
                found: Seq<Option<UserView>>,
                cause: Seq<char>,
            |
                found.len() < 3 && #[trigger] seed_lookups_answered(*database, found)
                    && #[trigger] database.may_answer(
                    expected_seed_users()[found.len() as int],
                    Err::<Option<UserView>, Seq<char>>(cause),
                ),
        },
{
    match check_database_seeding(database) {
        Ok(status) => Ok(seed_status_response(status)),
        Err(_) => Err(500),
    }
}

} // verus!
