//! What requests share: settings, the stored data and the failed attempts to log in.
use vstd::hash_map::StringHashMap;
use vstd::prelude::*;

use crate::config::Args;
use crate::db::Database;
use crate::outside;

verus! {

/// What every request can see.
#[derive(Debug)]
pub struct AppState {
    pub db: Database,
    pub args: Args,
    /// The secret that tokens are signed with.
    pub jwt_secret: String,
}

impl AppState {
    /// Puts the parts together.
    pub fn new(db: Database, args: Args, jwt_secret: String) -> (state: AppState)
        ensures
            state == (AppState { db, args, jwt_secret }),
    {
        AppState { db, args, jwt_secret }
    }
}

/// Failed attempts to log in from one place.
#[derive(Clone, Copy, Debug)]
pub struct LoginFailure {
    /// Failures since the last lock or success.
    pub count: u32,
    /// Second, since 1970, until which attempts are turned away.
    pub locked_until: i64,
}

/// Failures in a row that lead to a lock.
pub const MAX_FAILURES: u32 = 3;

/// Seconds that a lock lasts.
pub const LOCK_SECONDS: i64 = 600;

/// What is known of a place without failures.
pub open spec fn no_failure() -> LoginFailure {
    LoginFailure { count: 0, locked_until: 0 }
}

/// What is known of a place after one more failure: the third in a row locks it for ten minutes;
/// failures during a lock are not counted.
pub open spec fn after_failure(before: LoginFailure, now: i64) -> LoginFailure {
    let count = if before.locked_until <= now {
        before.count + 1
    } else {
        before.count as int
    };
    if count >= MAX_FAILURES {
        LoginFailure { count: 0, locked_until: (now + LOCK_SECONDS) as i64 }
    } else {
        LoginFailure { count: count as u32, locked_until: before.locked_until }
    }
}

/// The failed attempts to log in, by the place they came from.
pub struct LoginFailures {
    entries: StringHashMap<LoginFailure>,
}

impl View for LoginFailures {
    type V = Map<Seq<char>, LoginFailure>;

    closed spec fn view(&self) -> Map<Seq<char>, LoginFailure> {
        self.entries@
    }
}

/// What is known of a place.
pub open spec fn failure_at(failures: Map<Seq<char>, LoginFailure>, key: Seq<char>) -> LoginFailure {
    if failures.contains_key(key) {
        failures[key]
    } else {
        no_failure()
    }
}

/// Whether attempts from a place are turned away.
pub open spec fn locked(failures: Map<Seq<char>, LoginFailure>, key: Seq<char>, now: i64) -> bool {
    failures.contains_key(key) && failures[key].locked_until > now
}

/// The failures after one more from a place.
pub open spec fn recorded(
    failures: Map<Seq<char>, LoginFailure>,
    key: Seq<char>,
    now: i64,
) -> Map<Seq<char>, LoginFailure> {
    failures.insert(key, after_failure(failure_at(failures, key), now))
}

impl LoginFailures {
    /// Whether every place has fewer failures than lead to a lock.
    pub open spec fn wf(self) -> bool {
        forall|key: Seq<char>| #[trigger]
            self@.contains_key(key) ==> self@[key].count < MAX_FAILURES
    }

    /// No failures.
    pub fn new() -> (failures: LoginFailures)
        ensures
            failures@ == Map::<Seq<char>, LoginFailure>::empty(),
            failures.wf(),
    {
        LoginFailures { entries: StringHashMap::new() }
    }

    /// Tells whether attempts from a place are turned away.
    pub fn is_locked(&self, key: &str, now: i64) -> (turned_away: bool)
        ensures
            turned_away == locked(self@, key@, now),
    {
        match self.entries.get(key) {
            Some(failure) => failure.locked_until > now,
            None => false,
        }
    }

    /// Notes a failure.
    pub fn record(&mut self, key: String, now: i64)
        requires
            old(self).wf(),
            now <= outside::CLOCK_LIMIT,
        ensures
            final(self).wf(),
            final(self)@ == recorded(old(self)@, key@, now),
    {
        let mut entry = match self.entries.get(key.as_str()) {
            Some(failure) => *failure,
            None => LoginFailure { count: 0, locked_until: 0 },
        };
        assert(entry == failure_at(self@, key@));
        assert(self@.contains_key(key@) ==> self@[key@].count < MAX_FAILURES);
        if entry.locked_until <= now {
            entry.count = entry.count + 1;
        }
        if entry.count >= MAX_FAILURES {
            entry.locked_until = now + LOCK_SECONDS;
            entry.count = 0;
        }
        self.entries.insert(key, entry);
    }

    /// Forgets the failures from a place.
    pub fn clear(&mut self, key: &str)
        requires
            old(self).wf(),
        ensures
            final(self).wf(),
            final(self)@ == old(self)@.remove(key@),
    {
        self.entries.remove(key);
    }
}

/// Three failures in a row lock a place for ten minutes: of a place that is open and has no
/// failures counted, the first and the second leave it open, the third locks it until ten
/// minutes later, and then it is open again.
pub proof fn law_three_failures_lock(
    failures: Map<Seq<char>, LoginFailure>,
    key: Seq<char>,
    first: i64,
    second: i64,
    third: i64,
    now: i64,
)
    requires
        failure_at(failures, key).count == 0,
        failure_at(failures, key).locked_until <= first <= second <= third <= outside::CLOCK_LIMIT,
        third <= now,
    ensures
        !locked(recorded(failures, key, first), key, second),
        !locked(recorded(recorded(failures, key, first), key, second), key, third),
        locked(
            recorded(recorded(recorded(failures, key, first), key, second), key, third),
            key,
            now,
        ) <==> now < third + LOCK_SECONDS,
{
}

/// A lock is not prolonged by failures that come while it lasts.
pub proof fn law_lock_is_not_prolonged(before: LoginFailure, now: i64)
    requires
        before.count < MAX_FAILURES,
        now < before.locked_until,
    ensures
        after_failure(before, now) == before,
{
}

/// After a lock has ended, it takes three failures again.
pub proof fn law_lock_starts_anew(
    before: LoginFailure,
    locking: i64,
    first: i64,
    second: i64,
)
    requires
        before.count == MAX_FAILURES - 1,
        before.locked_until <= locking <= outside::CLOCK_LIMIT,
        locking + LOCK_SECONDS <= first <= second,
    ensures
        after_failure(before, locking).count == 0,
        after_failure(after_failure(after_failure(before, locking), first), second).count == 2,
        after_failure(
            after_failure(after_failure(before, locking), first),
            second,
        ).locked_until <= second,
{
}

/// Failures from one place say nothing of another, and forgetting them opens the place.
pub proof fn law_places_are_apart(
    failures: Map<Seq<char>, LoginFailure>,
    key: Seq<char>,
    other: Seq<char>,
    now: i64,
    later: i64,
)
    requires
        key != other,
    ensures
        locked(recorded(failures, key, now), other, later) == locked(failures, other, later),
        locked(failures.remove(key), other, later) == locked(failures, other, later),
        !locked(failures.remove(key), key, later),
{
}

} // verus!
