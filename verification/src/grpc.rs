//! When to connect to the dashboard again.
use vstd::prelude::*;

verus! {

/// How many short sessions in a row make the client give up.
pub const MAX_RETRIES: u32 = 30;

/// How long a session has to last to count as stable, in nanoseconds.
pub const STABLE_SESSION_NANOS: u128 = 60_000_000_000;

/// The pause between two sessions, in seconds.
pub const RETRY_DELAY_SECS: u64 = 2;

/// The number of short sessions in a row after one that lasted this long.
pub open spec fn counted(retries: int, lasted_nanos: int) -> int {
    if lasted_nanos > STABLE_SESSION_NANOS {
        0
    } else {
        retries + 1
    }
}

/// The number of short sessions in a row after several sessions.
pub open spec fn counted_all(retries: int, lasted: Seq<int>) -> int
    decreases lasted.len(),
{
    if lasted.len() == 0 {
        retries
    } else {
        counted(counted_all(retries, lasted.drop_last()), lasted.last())
    }
}

/// Counts the sessions that failed early.
#[derive(Debug)]
pub struct SessionRetries {
    retries: u32,
}

impl SessionRetries {
    /// The number of short sessions in a row.
    pub closed spec fn count(&self) -> int {
        self.retries as int
    }

    /// No session yet.
    pub fn new() -> (r: Self)
        ensures
            r.count() == 0,
    {
        SessionRetries { retries: 0 }
    }

    /// The number of the coming attempt, counted from one.
    pub fn attempt(&self) -> (r: u32)
        requires
            self.count() < MAX_RETRIES,
        ensures
            r == self.count() + 1,
    {
        self.retries + 1
    }

    /// Counts a session that ended with an error; says whether to try again.
    pub fn session_failed(&mut self, lasted_nanos: u128) -> (r: bool)
        requires
            old(self).count() < MAX_RETRIES,
        ensures
            final(self).count() == counted(old(self).count(), lasted_nanos as int),
            r == (final(self).count() < MAX_RETRIES),
    {
        if lasted_nanos > STABLE_SESSION_NANOS {
            self.retries = 0;
        } else {
            self.retries += 1;
        }
        self.retries < MAX_RETRIES
    }
}

/// A stable session starts the count anew, whatever came before it.
pub proof fn stable_session_resets(retries: int, lasted: Seq<int>, stable: int)
    requires
        stable > 60_000_000_000,
    ensures
        counted_all(retries, lasted.push(stable)) == 0,
{
    assert(lasted.push(stable).drop_last() =~= lasted);
}

/// As many short sessions in a row as the limit are needed, and enough, to give up.
pub proof fn short_sessions_add_up(lasted: Seq<int>)
    requires
        forall|i: int| 0 <= i < lasted.len() ==> #[trigger] lasted[i] <= 60_000_000_000,
    ensures
        counted_all(0, lasted) == lasted.len(),
        counted_all(0, lasted) < MAX_RETRIES <==> lasted.len() < 30,
    decreases lasted.len(),
{
    if lasted.len() > 0 {
        let init = lasted.drop_last();
        assert forall|i: int| 0 <= i < init.len() implies #[trigger] init[i]
            <= 60_000_000_000 by {
            assert(lasted[i] == init[i]);
        }
        short_sessions_add_up(init);
        assert(lasted[lasted.len() - 1] <= 60_000_000_000);
    }
}

} // verus!
