//! A cache of lookups in front of a store of users. An answer is kept for a fixed time,
//! and the cache is emptied when it has grown to its limit.

use vstd::prelude::*;

use crate::database::{
    clone_optional_user, lookup_view, optional_user_view, report_view, update_view, User,
    UserDatabase, UserView,
};
use crate::text::{
    all_distinct, first_index, first_index_from, lemma_first_index_from, same_text,
};

verus! {

/// The number of entries at which the cache is emptied before the next one is stored.
pub const CACHE_LIMIT: usize = 1000;

/// An answer that is kept: whether there is a user of that name, and until when to believe it.
struct CacheEntry {
    username: String,
    user: Option<User>,
    expires_at: u128,
}

/// The mathematical content of an entry of the cache.
pub struct CacheEntryView {
    pub username: Seq<char>,
    pub user: Option<UserView>,
    pub expires_at: int,
}

impl View for CacheEntry {
    type V = CacheEntryView;

    closed spec fn view(&self) -> CacheEntryView {
        CacheEntryView {
            username: self.username@,
            user: optional_user_view(self.user),
            expires_at: self.expires_at as int,
        }
    }
}

/// The contents of a list of entries.
spec fn entries_view(entries: Seq<CacheEntry>) -> Seq<CacheEntryView> {
    Seq::new(entries.len(), |i: int| entries[i]@)
}

/// The usernames of `entries`, in order.
pub open spec fn cached_names(entries: Seq<CacheEntryView>) -> Seq<Seq<char>> {
    Seq::new(entries.len(), |i: int| entries[i].username)
}

/// What a cache with the entries `entries` answers for `username` at the time `now`: the
/// answer that is kept for that name, unless it has expired or the cache is switched off.
/// `Some(None)` is the kept answer that there is no such user.
pub open spec fn cached_answer(
    entries: Seq<CacheEntryView>,
    enabled: bool,
    username: Seq<char>,
    now: u64,
) -> Option<Option<UserView>> {
    if !enabled {
        None
    } else {
        match first_index(cached_names(entries), username) {
            Some(i) if entries[i].expires_at > now => Some(entries[i].user),
            _ => None,
        }
    }
}

/// `entries` with `entry` in place of the entry of the same name, or at the end where
/// there is none of that name.
pub open spec fn with_entry(entries: Seq<CacheEntryView>, entry: CacheEntryView) -> Seq<
    CacheEntryView,
> {
    match first_index(cached_names(entries), entry.username) {
        Some(i) => entries.update(i, entry),
        None => entries.push(entry),
    }
}

/// The entries of a cache after the answer `user` for `username` is stored until the time
/// `expires_at`. A cache that has reached its limit is emptied first.
pub open spec fn after_store(
    entries: Seq<CacheEntryView>,
    username: Seq<char>,
    user: Option<UserView>,
    expires_at: int,
) -> Seq<CacheEntryView> {
    with_entry(
        if entries.len() >= CACHE_LIMIT {
            Seq::empty()
        } else {
            entries
        },
        CacheEntryView { username, user, expires_at },
    )
}

/// `entries` without the entry for `username`.
pub open spec fn without_entry(entries: Seq<CacheEntryView>, username: Seq<char>) -> Seq<
    CacheEntryView,
> {
    match first_index(cached_names(entries), username) {
        Some(i) => entries.remove(i),
        None => entries,
    }
}

/// The number of entries of `entries` that have expired at the time `now`.
pub open spec fn expired_count(entries: Seq<CacheEntryView>, now: u64) -> nat
    decreases entries.len(),
{
    if entries.len() == 0 {
        0
    } else {
        expired_count(entries.drop_last(), now) + if entries.last().expires_at <= now {
            1nat
        } else {
            0nat
        }
    }
}

/// The kept answers, the time for which an answer is kept, and whether any is kept at all.
/// The answers are found by the user's name. `vstd` states what a hash map holds only for
/// keys of whose hashing it knows, and a text is none of them, so the answers stand in a
/// vector in which no name occurs twice.
pub struct UserCache {
    entries: Vec<CacheEntry>,
    ttl: u64,
    enabled: bool,
}

impl View for UserCache {
    type V = Seq<CacheEntryView>;

    closed spec fn view(&self) -> Seq<CacheEntryView> {
        entries_view(self.entries@)
    }
}

/// The content of an optional answer.
pub open spec fn answer_view(answer: Option<Option<User>>) -> Option<Option<UserView>> {
    match answer {
        Some(user) => Some(optional_user_view(user)),
        None => None,
    }
}

/// The first position at which `entries` holds an entry for `username`, if there is one.
fn position(entries: &Vec<CacheEntry>, username: &str) -> (r: Option<usize>)
    ensures
        match r {
            Some(i) => first_index(cached_names(entries_view(entries@)), username@) == Some(
                i as int,
            ) && i < entries.len() && entries@[i as int]@.username == username@,
            None => first_index(cached_names(entries_view(entries@)), username@) is None
                && forall|j: int|
                0 <= j < entries.len() ==> cached_names(entries_view(entries@))[j] != username@,
        },
{
    let ghost names = cached_names(entries_view(entries@));
    let mut i: usize = 0;
    while i < entries.len()
        invariant
            i <= entries.len(),
            names == cached_names(entries_view(entries@)),
            first_index(names, username@) == first_index_from(names, username@, i as int),
            forall|j: int| 0 <= j < i ==> names[j] != username@,
        decreases entries.len() - i,
    {
        if same_text(entries[i].username.as_str(), username) {
            return Some(i);
        }
        i += 1;
    }
    None
}

impl UserCache {
    #[verifier::type_invariant]
    spec fn well_formed(self) -> bool {
        &&& all_distinct(cached_names(entries_view(self.entries@)))
        &&& self.entries@.len() <= CACHE_LIMIT
    }

    /// The time for which an answer is kept, in milliseconds.
    pub closed spec fn ttl(&self) -> u64 {
        self.ttl
    }

    /// Whether answers are kept at all.
    pub closed spec fn enabled(&self) -> bool {
        self.enabled
    }

    /// An empty cache that keeps an answer for `ttl` milliseconds, if it is enabled.
    pub fn new(ttl: u64, enabled: bool) -> (r: Self)
        ensures
            r@ == Seq::<CacheEntryView>::empty(),
            r.ttl() == ttl,
            r.enabled() == enabled,
    {
        let entries: Vec<CacheEntry> = Vec::new();
        UserCache { entries, ttl, enabled }
    }

    /// The number of entries: never more than the limit, and no two of them for the same
    /// username.
    pub fn len(&self) -> (r: usize)
        ensures
            r == self@.len(),
            r <= CACHE_LIMIT,
            all_distinct(cached_names(self@)),
    {
        proof {
            use_type_invariant(self);
        }
        self.entries.len()
    }

    /// The answer that is kept for `username` and has not expired at the time `now`.
    pub fn get(&self, username: &str, now: u64) -> (r: Option<Option<User>>)
        ensures
            answer_view(r) == cached_answer(self@, self.enabled(), username@, now),
    {
        if !self.enabled {
            return None;
        }
        match position(&self.entries, username) {
            Some(i) => {
                if self.entries[i].expires_at > now as u128 {
                    Some(clone_optional_user(&self.entries[i].user))
                } else {
                    None
                }
            },
            None => None,
        }
    }

    /// Keeps the answer `user` for `username`, from the time `now` on.
    pub fn store(&mut self, username: &str, user: Option<User>, now: u64)
        ensures
            final(self).ttl() == old(self).ttl(),
            final(self).enabled() == old(self).enabled(),
            final(self)@ == if old(self).enabled() {
                after_store(old(self)@, username@, optional_user_view(user), now + old(self).ttl())
            } else {
                old(self)@
            },
    {
        if !self.enabled {
            return ;
        }
        proof {
            use_type_invariant(&*self);
        }
        let mut entries: Vec<CacheEntry> = Vec::new();
        core::mem::swap(&mut self.entries, &mut entries);
        if entries.len() >= CACHE_LIMIT {
            entries = Vec::new();
        }
        let ghost base = entries_view(entries@);
        let ghost names = cached_names(base);
        let entry = CacheEntry {
            username: username.to_owned(),
            user,
            expires_at: now as u128 + self.ttl as u128,
        };
        match position(&entries, username) {
            Some(i) => {
                entries.set(i, entry);
                proof {
                    assert(cached_names(entries_view(entries@)) =~= names);
                }
            },
            None => {
                entries.push(entry);
                proof {
                    assert(cached_names(entries_view(entries@)) =~= names.push(username@));
                }
            },
        }
        self.entries = entries;
    }

    /// Forgets the answer that is kept for `username`: no entry of that name is left, and
    /// every other entry stays as it is.
    pub fn invalidate(&mut self, username: &str)
        ensures
            final(self).ttl() == old(self).ttl(),
            final(self).enabled() == old(self).enabled(),
            final(self)@ == if old(self).enabled() {
                without_entry(old(self)@, username@)
            } else {
                old(self)@
            },
            old(self).enabled() ==> first_index(cached_names(final(self)@), username@) is None,
    {
        if !self.enabled {
            return ;
        }
        proof {
            use_type_invariant(&*self);
            lemma_forgotten_name_is_gone(self@, username@);
        }
        let mut entries: Vec<CacheEntry> = Vec::new();
        core::mem::swap(&mut self.entries, &mut entries);
        let ghost base = entries_view(entries@);
        let ghost names = cached_names(base);
        match position(&entries, username) {
            Some(i) => {
                entries.remove(i);
                proof {
                    assert(cached_names(entries_view(entries@)) =~= names.remove(i as int));
                }
            },
            None => {},
        }
        self.entries = entries;
        assert(self@ == without_entry(old(self)@, username@));
    }

    /// Forgets every answer, whether or not the cache is enabled.
    pub fn clear(&mut self)
        ensures
            final(self).ttl() == old(self).ttl(),
            final(self).enabled() == old(self).enabled(),
            final(self)@ == Seq::<CacheEntryView>::empty(),
    {
        let entries: Vec<CacheEntry> = Vec::new();
        self.entries = entries;
    }

    /// The number of entries, and how many of them have expired at the time `now`.
    pub fn stats(&self, now: u64) -> (r: (usize, usize))
        ensures
            r.0 == self@.len(),
            r.1 == expired_count(self@, now),
            r.1 <= r.0 <= CACHE_LIMIT,
            all_distinct(cached_names(self@)),
    {
        proof {
            use_type_invariant(self);
        }
        let mut expired: usize = 0;
        let mut i: usize = 0;
        let ghost all = entries_view(self.entries@);
        while i < self.entries.len()
            invariant
                i <= self.entries.len(),
                all == entries_view(self.entries@),
                expired == expired_count(all.take(i as int), now),
                expired <= i,
            decreases self.entries.len() - i,
        {
            proof {
                assert(all.take(i + 1).drop_last() =~= all.take(i as int));
            }
            if self.entries[i].expires_at <= now as u128 {
                expired += 1;
            }
            i += 1;
        }
        assert(all.take(self.entries.len() as int) =~= all);
        (self.entries.len(), expired)
    }
}

/// A store of users with a cache of lookups in front of it.
pub struct CachedUserDatabase<D: UserDatabase> {
    inner: D,
    cache: UserCache,
}

impl<D: UserDatabase> View for CachedUserDatabase<D> {
    type V = Seq<CacheEntryView>;

    closed spec fn view(&self) -> Seq<CacheEntryView> {
        self.cache@
    }
}

impl<D: UserDatabase> CachedUserDatabase<D> {
    /// The store behind the cache.
    pub closed spec fn store(&self) -> D {
        self.inner
    }

    /// The time for which an answer is kept, in milliseconds.
    pub closed spec fn ttl(&self) -> u64 {
        self.cache.ttl()
    }

    /// Whether answers are kept at all.
    pub closed spec fn enabled(&self) -> bool {
        self.cache.enabled()
    }

    /// A cache in front of `inner` that keeps an answer for `cache_ttl` milliseconds, if
    /// it is enabled. It starts out empty.
    pub fn new(inner: D, cache_ttl: u64, cache_enabled: bool) -> (r: Self)
        ensures
            r@ == Seq::<CacheEntryView>::empty(),
            r.store() == inner,
            r.ttl() == cache_ttl,
            r.enabled() == cache_enabled,
    {
        CachedUserDatabase { inner, cache: UserCache::new(cache_ttl, cache_enabled) }
    }

    /// The answer that is kept for `username` and has not expired at the time `now`.
    pub fn get_cached_user(&self, username: &str, now: u64) -> (r: Option<Option<User>>)
        ensures
            answer_view(r) == cached_answer(self@, self.enabled(), username@, now),
    {
        self.cache.get(username, now)
    }

    /// Keeps the answer `user` for `username`, from the time `now` on.
    pub fn cache_user(&mut self, username: &str, user: Option<User>, now: u64)
        ensures
            final(self).store() == old(self).store(),
            final(self).ttl() == old(self).ttl(),
            final(self).enabled() == old(self).enabled(),
            final(self)@ == if old(self).enabled() {
                after_store(old(self)@, username@, optional_user_view(user), now + old(self).ttl())
            } else {
                old(self)@
            },
    {
        self.cache.store(username, user, now);
    }

    /// Forgets the answer that is kept for `username`: no entry of that name is left, and
    /// every other entry stays as it is. The store is not asked.
    pub fn invalidate_user_cache(&mut self, username: &str)
        ensures
            final(self).store() == old(self).store(),
            final(self).ttl() == old(self).ttl(),
            final(self).enabled() == old(self).enabled(),
            final(self)@ == if old(self).enabled() {
                without_entry(old(self)@, username@)
            } else {
                old(self)@
            },
            old(self).enabled() ==> first_index(cached_names(final(self)@), username@) is None,
    {
        self.cache.invalidate(username);
    }

    /// Forgets every answer, whether or not the cache is enabled.
    pub fn clear_cache(&mut self)
        ensures
            final(self).store() == old(self).store(),
            final(self).ttl() == old(self).ttl(),
            final(self).enabled() == old(self).enabled(),
            final(self)@ == Seq::<CacheEntryView>::empty(),
    {
        self.cache.clear();
    }

    /// The number of entries, and how many of them have expired at the time `now`. There
    /// are never more entries than the limit, and no two of them are for the same username.
    pub fn cache_stats(&self, now: u64) -> (r: (usize, usize))
        ensures
            r.0 == self@.len(),
            r.1 == expired_count(self@, now),
            r.1 <= r.0 <= CACHE_LIMIT,
            all_distinct(cached_names(self@)),
    {
        self.cache.stats(now)
    }

    /// The user named `username` at the time `now`: the answer that is kept, where one is
    /// and has not expired; otherwise what the store answers, which is then kept.
    /// A failure of the store is handed on and nothing is kept.
    pub fn get_user(&mut self, username: &str, now: u64) -> (r: Result<Option<User>, String>)
        ensures
            final(self).store() == old(self).store(),
            final(self).ttl() == old(self).ttl(),
            final(self).enabled() == old(self).enabled(),
            match cached_answer(old(self)@, old(self).enabled(), username@, now) {
                Some(answer) => r matches Ok(user) && optional_user_view(user) == answer
                    && final(self)@ == old(self)@,
                None => old(self).store().may_answer(username@, lookup_view(r)) && match r {
                    Ok(user) => final(self)@ == if old(self).enabled() {
                        after_store(
                            old(self)@,
                            username@,
                            optional_user_view(user),
                            now + old(self).ttl(),
                        )
                    } else {
                        old(self)@
                    },
                    Err(_) => final(self)@ == old(self)@,
                },
            },
    {
        match self.cache.get(username, now) {
            Some(answer) => {
                return Ok(answer);
            },
            None => {},
        }
        let user = match self.inner.get_user(username) {
            Ok(user) => user,
            Err(cause) => {
                return Err(cause);
            },
        };
        self.cache.store(username, clone_optional_user(&user), now);
        Ok(user)
    }

    /// Asks the store to set the display name of `username`, and hands on what the store
    /// answers. Where the store succeeds, the answer that is kept for that name is
    /// forgotten, so that the next lookup asks the store; where it fails, the cache is
    /// left as it is.
    pub fn update_user_display_name(&mut self, username: &str, display_name: &str) -> (r: Result<
        (),
        String,
    >)
        ensures
            old(self).store().may_update(
                username@,
                display_name@,
                update_view(r),
                final(self).store(),
            ),
            final(self).ttl() == old(self).ttl(),
            final(self).enabled() == old(self).enabled(),
            final(self)@ == if r is Ok && old(self).enabled() {
                without_entry(old(self)@, username@)
            } else {
                old(self)@
            },
            r is Ok && old(self).enabled() ==> first_index(cached_names(final(self)@), username@)
                is None,
    {
        match self.inner.update_user_display_name(username, display_name) {
            Ok(()) => {},
            Err(cause) => {
                return Err(cause);
            },
        }
        self.cache.invalidate(username);
        Ok(())
    }

    /// What the store reports of its state; the cache is not asked.
    pub fn health_check(&self) -> (r: Result<String, String>)
        ensures
            self.store().may_report(report_view(r)),
    {
        self.inner.health_check()
    }
}

/// No more entries have expired than there are.
pub proof fn lemma_expired_count_bound(entries: Seq<CacheEntryView>, now: u64)
    ensures
        expired_count(entries, now) <= entries.len(),
    decreases entries.len(),
{
    if entries.len() > 0 {
        lemma_expired_count_bound(entries.drop_last(), now);
    }
}

/// An answer that was stored is the answer that is kept until it expires, and is not
/// kept from then on.
pub proof fn lemma_stored_answer_is_kept(
    entries: Seq<CacheEntryView>,
    username: Seq<char>,
    user: Option<UserView>,
    expires_at: int,
    now: u64,
)
    ensures
        cached_answer(after_store(entries, username, user, expires_at), true, username, now) == (
        if expires_at > now {
            Some(user)
        } else {
            None
        }),
{
    let base = if entries.len() >= CACHE_LIMIT {
        Seq::<CacheEntryView>::empty()
    } else {
        entries
    };
    let entry = CacheEntryView { username, user, expires_at };
    let after = with_entry(base, entry);
    lemma_first_index_from(cached_names(base), username, 0);
    lemma_first_index_from(cached_names(after), username, 0);
    match first_index(cached_names(base), username) {
        Some(i) => {
            assert(cached_names(after)[i] == username);
            assert forall|j: int| 0 <= j < i implies cached_names(after)[j] != username by {
                assert(cached_names(after)[j] == cached_names(base)[j]);
            }
        },
        None => {
            assert(cached_names(after)[base.len() as int] == username);
            assert forall|j: int| 0 <= j < base.len() implies cached_names(after)[j]
                != username by {
                assert(cached_names(after)[j] == cached_names(base)[j]);
            }
        },
    }
}

/// Once the entry for a name is taken out, no entry of that name is left.
pub proof fn lemma_forgotten_name_is_gone(entries: Seq<CacheEntryView>, username: Seq<char>)
    requires
        all_distinct(cached_names(entries)),
    ensures
        first_index(cached_names(without_entry(entries, username)), username) is None,
{
    let after = without_entry(entries, username);
    lemma_first_index_from(cached_names(entries), username, 0);
    lemma_first_index_from(cached_names(after), username, 0);
    match first_index(cached_names(entries), username) {
        Some(i) => {
            assert forall|j: int| 0 <= j < after.len() implies cached_names(after)[j]
                != username by {
                if j < i {
                    assert(cached_names(after)[j] == cached_names(entries)[j]);
                } else {
                    assert(cached_names(after)[j] == cached_names(entries)[j + 1]);
                }
            }
        },
        None => {},
    }
}

/// Once the answer for a name is forgotten, none is kept for that name.
pub proof fn lemma_forgotten_answer_is_gone(
    entries: Seq<CacheEntryView>,
    enabled: bool,
    username: Seq<char>,
    now: u64,
)
    requires
        all_distinct(cached_names(entries)),
    ensures
        cached_answer(without_entry(entries, username), enabled, username, now) is None,
{
    lemma_forgotten_name_is_gone(entries, username);
}

/// Neither storing an answer nor forgetting one ever leaves two entries for one username.
pub proof fn lemma_entries_stay_distinct(
    entries: Seq<CacheEntryView>,
    username: Seq<char>,
    user: Option<UserView>,
    expires_at: int,
)
    requires
        all_distinct(cached_names(entries)),
    ensures
        all_distinct(cached_names(after_store(entries, username, user, expires_at))),
        all_distinct(cached_names(without_entry(entries, username))),
{
    let names = cached_names(entries);
    lemma_first_index_from(names, username, 0);
    match first_index(names, username) {
        Some(i) => {
            assert(cached_names(without_entry(entries, username)) =~= names.remove(i));
        },
        None => {},
    }
    if entries.len() >= CACHE_LIMIT {
        let empty = Seq::<CacheEntryView>::empty();
        lemma_first_index_from(cached_names(empty), username, 0);
        assert(cached_names(after_store(entries, username, user, expires_at)) =~= seq![username]);
    } else {
        match first_index(names, username) {
            Some(i) => {
                assert(cached_names(after_store(entries, username, user, expires_at)) =~= names);
            },
            None => {
                assert(cached_names(after_store(entries, username, user, expires_at))
                    =~= names.push(username));
            },
        }
    }
}

/// Storing an answer for one name leaves the answers for every other name as they were,
/// unless the cache had reached its limit and was emptied.
pub proof fn lemma_store_keeps_other_answers(
    entries: Seq<CacheEntryView>,
    username: Seq<char>,
    user: Option<UserView>,
    expires_at: int,
    other: Seq<char>,
    now: u64,
)
    requires
        entries.len() < CACHE_LIMIT,
        other != username,
    ensures
        cached_answer(after_store(entries, username, user, expires_at), true, other, now)
            == cached_answer(entries, true, other, now),
{
    let entry = CacheEntryView { username, user, expires_at };
    let before_names = cached_names(entries);
    let after_names = cached_names(with_entry(entries, entry));
    lemma_first_index_from(before_names, username, 0);
    lemma_first_index_from(before_names, other, 0);
    lemma_first_index_from(after_names, other, 0);
    assert forall|j: int| 0 <= j < entries.len() implies (after_names[j] == other
        <==> before_names[j] == other) by {}
}

/// Storing an answer leaves the cache with at most as many entries as its limit, if it
/// had no more before.
pub proof fn lemma_store_keeps_bound(
    entries: Seq<CacheEntryView>,
    username: Seq<char>,
    user: Option<UserView>,
    expires_at: int,
)
    requires
        entries.len() <= CACHE_LIMIT,
    ensures
        after_store(entries, username, user, expires_at).len() <= CACHE_LIMIT,
{
    lemma_first_index_from(cached_names(entries), username, 0);
}

} // verus!
