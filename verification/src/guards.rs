//! What keeps an arb from being executed again: an execution in flight, or a
//! cooldown after one that failed.
//!
//! Times are nanoseconds of a monotonic clock.
use crate::text;
use vstd::hash_map::StringHashMap;
use vstd::hash_set::StringHashSet;
use vstd::prelude::*;

verus! {

/// The cooldown in seconds where none is configured.
pub const DEFAULT_COOLDOWN_SECS: u64 = 30;

/// The cooldown that a setting asks for.
pub open spec fn cooldown_setting(raw: Option<Seq<char>>) -> u64 {
    match raw {
        Some(text) => match text::u64_value(text::trimmed(text)) {
            Some(secs) => secs,
            None => DEFAULT_COOLDOWN_SECS,
        },
        None => DEFAULT_COOLDOWN_SECS,
    }
}

/// The text of an optional setting.
pub open spec fn setting_view(raw: Option<String>) -> Option<Seq<char>> {
    match raw {
        Some(s) => Some(s@),
        None => None,
    }
}

/// Reads the cooldown setting: a number of seconds, or the default.
pub fn cooldown_secs(raw: &Option<String>) -> (r: u64)
    ensures
        r == cooldown_setting(setting_view(*raw)),
{
    match raw {
        Some(s) => match text::parse_u64(text::trim(s.as_str())) {
            Some(secs) => secs,
            None => DEFAULT_COOLDOWN_SECS,
        },
        None => DEFAULT_COOLDOWN_SECS,
    }
}

/// Which arbs are in flight or cooling down.
#[verifier::ext_equal]
pub struct Guarding {
    /// Ids of the arbs with an execution in flight.
    pub in_flight: Set<Seq<char>>,
    /// Id to the time at which the arb's cooldown began.
    pub cooldown: Map<Seq<char>, u128>,
}

/// The time that passed from `since` to `now`, none where `since` lies ahead.
pub open spec fn elapsed(since: u128, now: u128) -> int {
    if now < since {
        0
    } else {
        now - since
    }
}

/// Whether the arb's cooldown still runs.
pub open spec fn cooling(g: Guarding, cid: Seq<char>, length: int, now: u128) -> bool {
    g.cooldown.contains_key(cid) && elapsed(g.cooldown[cid], now) < length
}

/// Whether the arb must not be executed now.
pub open spec fn blocked(g: Guarding, cid: Seq<char>, length: int, now: u128) -> bool {
    g.in_flight.contains(cid) || cooling(g, cid, length, now)
}

/// The guards after the arb was looked at: a cooldown that has run out is
/// forgotten, unless the arb is in flight.
pub open spec fn looked_at(g: Guarding, cid: Seq<char>, length: int, now: u128) -> Guarding {
    if g.in_flight.contains(cid) || cooling(g, cid, length, now) {
        g
    } else {
        Guarding { in_flight: g.in_flight, cooldown: g.cooldown.remove(cid) }
    }
}

/// The arbs that are in flight or cooling down.
pub struct Guards {
    in_flight: StringHashSet,
    cooldown: StringHashMap<u128>,
    cooldown_nanos: u128,
}

impl View for Guards {
    type V = Guarding;

    closed spec fn view(&self) -> Guarding {
        Guarding { in_flight: self.in_flight@, cooldown: self.cooldown@ }
    }
}

impl Guards {
    /// The length of a cooldown in nanoseconds.
    pub closed spec fn length(&self) -> int {
        self.cooldown_nanos as int
    }

    /// No arb in flight and none cooling down.
    pub fn new(cooldown_secs: u64) -> (r: Self)
        ensures
            r@ == (Guarding {
                in_flight: Set::<Seq<char>>::empty(),
                cooldown: Map::<Seq<char>, u128>::empty(),
            }),
            r.length() == cooldown_secs * 1_000_000_000,
    {
        Guards {
            in_flight: StringHashSet::new(),
            cooldown: StringHashMap::new(),
            cooldown_nanos: cooldown_secs as u128 * 1_000_000_000,
        }
    }

    /// Whether an execution of the arb is in flight.
    pub fn is_in_flight(&self, cid: &str) -> (r: bool)
        ensures
            r == self@.in_flight.contains(cid@),
    {
        self.in_flight.contains(cid)
    }

    /// Whether a cooldown is noted for the arb, be it over or not.
    pub fn has_cooldown(&self, cid: &str) -> (r: bool)
        ensures
            r == self@.cooldown.contains_key(cid@),
    {
        self.cooldown.contains_key(cid)
    }

    /// Whether the arb must not be executed now; forgets a cooldown that has run
    /// out.
    pub fn check(&mut self, cid: &str, now: u128) -> (r: bool)
        ensures
            r == blocked(old(self)@, cid@, old(self).length(), now),
            final(self)@ == looked_at(old(self)@, cid@, old(self).length(), now),
            final(self).length() == old(self).length(),
    {
        if self.in_flight.contains(cid) {
            return true;
        }
        let since: u128 = match self.cooldown.get(cid) {
            Some(since) => *since,
            None => {
                assert(self.cooldown@.remove(cid@) =~= self.cooldown@);
                return false;
            },
        };
        let passed: u128 = if now < since {
            0
        } else {
            now - since
        };
        if passed < self.cooldown_nanos {
            return true;
        }
        self.cooldown.remove(cid);
        false
    }

    /// Notes that the arb was handed to the executor, if it was.
    pub fn submitted(&mut self, cid: &str, accepted: bool)
        ensures
            final(self)@.cooldown == old(self)@.cooldown,
            final(self)@.in_flight == if accepted {
                old(self)@.in_flight.insert(cid@)
            } else {
                old(self)@.in_flight
            },
            final(self).length() == old(self).length(),
    {
        if accepted {
            self.in_flight.insert(cid.to_owned());
        }
    }

    /// Notes that the execution of the arb is over.
    pub fn release(&mut self, cid: &str)
        ensures
            final(self)@.cooldown == old(self)@.cooldown,
            final(self)@.in_flight == old(self)@.in_flight.remove(cid@),
            final(self).length() == old(self).length(),
    {
        self.in_flight.remove(cid);
    }

    /// Starts a cooldown of the arb.
    pub fn cool(&mut self, cid: &str, now: u128)
        ensures
            final(self)@.in_flight == old(self)@.in_flight,
            final(self)@.cooldown == old(self)@.cooldown.insert(cid@, now),
            final(self).length() == old(self).length(),
    {
        self.cooldown.insert(cid.to_owned(), now);
    }
}

/// An arb whose cooldown began at `since` stays blocked for the length of the
/// cooldown and, unless it is in flight, is free from then on.
pub proof fn cooldown_lasts_its_length(
    g: Guarding,
    cid: Seq<char>,
    length: int,
    since: u128,
    now: u128,
)
    requires
        g.cooldown.contains_key(cid),
        g.cooldown[cid] == since,
        since <= now,
    ensures
        now - since < length ==> blocked(g, cid, length, now),
        now - since >= length && !g.in_flight.contains(cid) ==> !blocked(g, cid, length, now)
            && !looked_at(g, cid, length, now).cooldown.contains_key(cid),
{
}

/// An arb that is neither in flight nor has a cooldown noted is free, and looking at one
/// arb never changes what is known of another.
pub proof fn unguarded_arbs_are_free(
    g: Guarding,
    cid: Seq<char>,
    length: int,
    now: u128,
    other: Seq<char>,
)
    ensures
        !g.in_flight.contains(cid) && !g.cooldown.contains_key(cid) ==> !blocked(
            g,
            cid,
            length,
            now,
        ),
        looked_at(g, cid, length, now).in_flight == g.in_flight,
        other != cid ==> (looked_at(g, cid, length, now).cooldown.contains_key(other)
            <==> g.cooldown.contains_key(other)),
        other != cid && g.cooldown.contains_key(other) ==> looked_at(
            g,
            cid,
            length,
            now,
        ).cooldown[other] == g.cooldown[other],
        other != cid ==> blocked(looked_at(g, cid, length, now), other, length, now) == blocked(
            g,
            other,
            length,
            now,
        ),
{
}

/// Looking at an arb twice is looking at it once.
pub proof fn looking_is_idempotent(g: Guarding, cid: Seq<char>, length: int, now: u128)
    ensures
        blocked(looked_at(g, cid, length, now), cid, length, now) == blocked(g, cid, length, now),
        looked_at(looked_at(g, cid, length, now), cid, length, now) == looked_at(
            g,
            cid,
            length,
            now,
        ),
{
    assert(g.cooldown.remove(cid).remove(cid) =~= g.cooldown.remove(cid));
}

/// The cooldown is the number of seconds that the setting gives, spaces around it aside,
/// and thirty seconds where it gives none.
pub proof fn cooldowns_default_to_thirty_seconds(raw: Option<Seq<char>>)
    ensures
        raw is None ==> cooldown_setting(raw) == 30,
        raw matches Some(t) ==> match text::u64_value(text::trimmed(t)) {
            Some(secs) => cooldown_setting(raw) == secs,
            None => cooldown_setting(raw) == 30,
        },
{
}

/// An arb that was handed to the executor is blocked until its execution is over.
pub proof fn in_flight_blocks(g: Guarding, cid: Seq<char>, length: int, now: u128)
    requires
        g.in_flight.contains(cid),
    ensures
        blocked(g, cid, length, now),
        looked_at(g, cid, length, now) == g,
{
}

} // verus!
