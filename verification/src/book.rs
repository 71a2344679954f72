//! The in-memory index of all watched arbs.
//!
//! Two indexes are kept: the registry leads from a market to every arb that has
//! it as a leg, and the records lead from an arb to both of its legs.
use crate::idset::IdSet;
use crate::models::{ArbMinifiedInfo, ArbWatch, Platform, TopOfBook};
use vstd::hash_map::StringHashMap;
use vstd::prelude::*;

verus! {

/// What is being watched, and the latest prices.
#[verifier::ext_equal]
pub struct Watching {
    /// Market key to the ids of the arbs that have the market as a leg.
    pub registry: Map<Seq<char>, Set<Seq<char>>>,
    /// Arb id to the arb with both legs.
    pub records: Map<Seq<char>, ArbWatch>,
    /// Market key to the latest top of book.
    pub tobs: Map<Seq<char>, TopOfBook>,
}

/// The ids registered for a market, none where the market is not watched.
pub open spec fn watchers(registry: Map<Seq<char>, Set<Seq<char>>>, key: Seq<char>) -> Set<
    Seq<char>,
> {
    if registry.contains_key(key) {
        registry[key]
    } else {
        Set::empty()
    }
}

/// The registry with `cid` added to the market's watchers.
pub open spec fn joined(
    registry: Map<Seq<char>, Set<Seq<char>>>,
    key: Seq<char>,
    cid: Seq<char>,
) -> Map<Seq<char>, Set<Seq<char>>> {
    registry.insert(key, watchers(registry, key).insert(cid))
}

/// What is watched once the arb has left a leg that it had before, unless it has
/// that market as a leg still.
pub open spec fn moved_off(w: Watching, leg: ArbMinifiedInfo, watch: ArbWatch) -> Watching {
    if has_leg(watch, leg.market_key@) {
        w
    } else {
        departed(w, leg.market_key@, watch.correlation_id@)
    }
}

/// The subscription that ends when the arb leaves a leg that it had before, if any.
pub open spec fn move_off(w: Watching, leg: ArbMinifiedInfo, watch: ArbWatch) -> Seq<
    (Platform, Seq<char>),
> {
    if has_leg(watch, leg.market_key@) {
        Seq::empty()
    } else {
        departure(w, leg, watch.correlation_id@)
    }
}

/// What is watched once the arb has left the legs that it was registered with and
/// no longer has.
pub open spec fn vacated(w: Watching, watch: ArbWatch) -> Watching {
    if w.records.contains_key(watch.correlation_id@) {
        let before = w.records[watch.correlation_id@].arb;
        moved_off(moved_off(w, before.anchor, watch), before.matched, watch)
    } else {
        w
    }
}

/// The subscriptions that end when the arb leaves the legs that it was registered
/// with and no longer has.
pub open spec fn superseded(w: Watching, watch: ArbWatch) -> Seq<(Platform, Seq<char>)> {
    if w.records.contains_key(watch.correlation_id@) {
        let before = w.records[watch.correlation_id@].arb;
        move_off(w, before.anchor, watch) + move_off(
            moved_off(w, before.anchor, watch),
            before.matched,
            watch,
        )
    } else {
        Seq::empty()
    }
}

/// What is watched once `watch` has been registered. An arb that was registered
/// before leaves the legs that it no longer has.
pub open spec fn registered(w: Watching, watch: ArbWatch) -> Watching {
    let cid = watch.correlation_id@;
    let left = vacated(w, watch);
    Watching {
        registry: joined(
            joined(left.registry, watch.arb.anchor.market_key@, cid),
            watch.arb.matched.market_key@,
            cid,
        ),
        records: w.records.insert(cid, watch),
        tobs: left.tobs,
    }
}

/// Whether the market loses its last watcher when `cid` leaves it.
pub open spec fn goes_quiet(w: Watching, key: Seq<char>, cid: Seq<char>) -> bool {
    w.registry.contains_key(key) && w.registry[key].remove(cid) == Set::<Seq<char>>::empty()
}

/// What is watched once `cid` has left the market: a market without watchers is
/// dropped together with its prices.
pub open spec fn departed(w: Watching, key: Seq<char>, cid: Seq<char>) -> Watching {
    if !w.registry.contains_key(key) {
        w
    } else if goes_quiet(w, key, cid) {
        Watching {
            registry: w.registry.remove(key),
            records: w.records,
            tobs: w.tobs.remove(key),
        }
    } else {
        Watching {
            registry: w.registry.insert(key, w.registry[key].remove(cid)),
            records: w.records,
            tobs: w.tobs,
        }
    }
}

/// The subscription that ends when `cid` leaves the leg's market, if any.
pub open spec fn departure(w: Watching, leg: ArbMinifiedInfo, cid: Seq<char>) -> Seq<
    (Platform, Seq<char>),
> {
    if goes_quiet(w, leg.market_key@, cid) {
        seq![(leg.platform, leg.token_id@)]
    } else {
        Seq::empty()
    }
}

/// `w` without the record of `cid`.
pub open spec fn forgotten(w: Watching, cid: Seq<char>) -> Watching {
    Watching { registry: w.registry, records: w.records.remove(cid), tobs: w.tobs }
}

/// What is watched once `cid` has been unregistered.
pub open spec fn unregistered(w: Watching, cid: Seq<char>) -> Watching {
    if w.records.contains_key(cid) {
        let arb = w.records[cid].arb;
        departed(
            departed(forgotten(w, cid), arb.anchor.market_key@, cid),
            arb.matched.market_key@,
            cid,
        )
    } else {
        w
    }
}

/// The subscriptions that end when `cid` is unregistered.
pub open spec fn unsubscribed(w: Watching, cid: Seq<char>) -> Seq<(Platform, Seq<char>)> {
    if w.records.contains_key(cid) {
        let arb = w.records[cid].arb;
        let bare = forgotten(w, cid);
        departure(bare, arb.anchor, cid) + departure(
            departed(bare, arb.anchor.market_key@, cid),
            arb.matched,
            cid,
        )
    } else {
        Seq::empty()
    }
}

/// What is watched once the ids have been unregistered one after the other.
pub open spec fn all_unregistered(w: Watching, cids: Seq<Seq<char>>) -> Watching
    decreases cids.len(),
{
    if cids.len() == 0 {
        w
    } else {
        unregistered(all_unregistered(w, cids.drop_last()), cids.last())
    }
}

/// The subscriptions that end while the ids are unregistered one after the other.
pub open spec fn all_unsubscribed(w: Watching, cids: Seq<Seq<char>>) -> Seq<(Platform, Seq<char>)>
    decreases cids.len(),
{
    if cids.len() == 0 {
        Seq::empty()
    } else {
        all_unsubscribed(w, cids.drop_last()) + unsubscribed(
            all_unregistered(w, cids.drop_last()),
            cids.last(),
        )
    }
}

/// In-memory state of all watched arbs.
pub struct Book {
    /// Market key to the ids of the arbs that have the market as a leg.
    pub registry: StringHashMap<IdSet>,
    /// Arb id to the arb with both legs.
    pub records: StringHashMap<ArbWatch>,
}

/// The registry as a map from keys to sets.
pub open spec fn registry_view(registry: Map<Seq<char>, IdSet>) -> Map<Seq<char>, Set<Seq<char>>> {
    registry.map_values(|ids: IdSet| ids@)
}

impl Book {
    /// An empty book.
    pub fn new() -> (r: Self)
        ensures
            r.registry@ == Map::<Seq<char>, IdSet>::empty(),
            r.records@ == Map::<Seq<char>, ArbWatch>::empty(),
    {
        Book {
            registry: StringHashMap::with_capacity(512),
            records: StringHashMap::with_capacity(512),
        }
    }

    /// Adds `cid` to the watchers of the market.
    pub fn join(&mut self, key: &str, cid: &str)
        ensures
            final(self).records@ == old(self).records@,
            registry_view(final(self).registry@) == joined(
                registry_view(old(self).registry@),
                key@,
                cid@,
            ),
    {
        let mut ids = match self.registry.get(key) {
            Some(ids) => ids.clone(),
            None => IdSet::new(),
        };
        ids.insert(cid.to_owned());
        self.registry.insert(key.to_owned(), ids);
        assert(registry_view(self.registry@) =~= joined(
            registry_view(old(self).registry@),
            key@,
            cid@,
        ));
    }

    /// Removes `cid` from the watchers of the market, and the market itself once
    /// nobody watches it; says whether the latter happened.
    pub fn leave(&mut self, key: &str, cid: &str) -> (quiet: bool)
        ensures
            final(self).records@ == old(self).records@,
            ({
                let w = Watching {
                    registry: registry_view(old(self).registry@),
                    records: old(self).records@,
                    tobs: Map::empty(),
                };
                &&& quiet == goes_quiet(w, key@, cid@)
                &&& registry_view(final(self).registry@) == departed(w, key@, cid@).registry
            }),
    {
        let mut ids = match self.registry.get(key) {
            Some(ids) => ids.clone(),
            None => return false,
        };
        ids.remove(cid);
        if ids.is_empty() {
            self.registry.remove(key);
            assert(registry_view(self.registry@) =~= registry_view(old(self).registry@).remove(
                key@,
            ));
            true
        } else {
            let ghost left = ids@;
            self.registry.insert(key.to_owned(), ids);
            assert(registry_view(self.registry@) =~= registry_view(old(self).registry@).insert(
                key@,
                left,
            ));
            false
        }
    }
}

// ---------------------------------------------------------------------------
// Both indexes say the same
// ---------------------------------------------------------------------------
/// Whether the arb has the market as a leg.
pub open spec fn has_leg(watch: ArbWatch, key: Seq<char>) -> bool {
    watch.arb.anchor.market_key@ == key || watch.arb.matched.market_key@ == key
}

/// Whether every record is stored under its own id.
pub open spec fn records_named(w: Watching) -> bool {
    forall|cid: Seq<char>| #[trigger]
        w.records.contains_key(cid) ==> w.records[cid].correlation_id@ == cid
}

/// Whether every arb with a record is a watcher of both of its legs.
pub open spec fn records_registered(w: Watching) -> bool {
    forall|cid: Seq<char>, key: Seq<char>|
        w.records.contains_key(cid) && #[trigger] has_leg(w.records[cid], key) ==> watchers(
            w.registry,
            key,
        ).contains(cid)
}

/// Whether every watcher of a market has a record with that market as a leg.
pub open spec fn watchers_recorded(w: Watching) -> bool {
    forall|cid: Seq<char>, key: Seq<char>| #[trigger]
        watchers(w.registry, key).contains(cid) ==> w.records.contains_key(cid) && has_leg(
            w.records[cid],
            key,
        )
}

/// Whether every market in the registry has a watcher.
pub open spec fn markets_watched(w: Watching) -> bool {
    forall|key: Seq<char>| #[trigger]
        w.registry.contains_key(key) ==> w.registry[key] != Set::<Seq<char>>::empty()
}

/// Whether the two indexes say the same.
pub open spec fn in_sync(w: Watching) -> bool {
    &&& records_named(w)
    &&& records_registered(w)
    &&& watchers_recorded(w)
    &&& markets_watched(w)
}

/// The indexes agree as long as nothing is watched.
pub proof fn empty_is_in_sync(w: Watching)
    requires
        w.registry == Map::<Seq<char>, Set<Seq<char>>>::empty(),
        w.records == Map::<Seq<char>, ArbWatch>::empty(),
    ensures
        in_sync(w),
{
}

proof fn lemma_departed(w: Watching, key: Seq<char>, cid: Seq<char>, other: Seq<char>)
    ensures
        departed(w, key, cid).records == w.records,
        watchers(departed(w, key, cid).registry, other) == if other == key {
            watchers(w.registry, key).remove(cid)
        } else {
            watchers(w.registry, other)
        },
        markets_watched(w) ==> markets_watched(departed(w, key, cid)),
{
    if !w.registry.contains_key(key) {
        assert(Set::<Seq<char>>::empty().remove(cid) =~= Set::empty());
    }
}

/// The arb was registered with the market as a leg.
pub open spec fn had_leg(w: Watching, cid: Seq<char>, key: Seq<char>) -> bool {
    w.records.contains_key(cid) && has_leg(w.records[cid], key)
}

proof fn lemma_vacated(w: Watching, watch: ArbWatch, key: Seq<char>)
    ensures
        vacated(w, watch).records == w.records,
        watchers(vacated(w, watch).registry, key) == if had_leg(w, watch.correlation_id@, key)
            && !has_leg(watch, key) {
            watchers(w.registry, key).remove(watch.correlation_id@)
        } else {
            watchers(w.registry, key)
        },
        markets_watched(w) ==> markets_watched(vacated(w, watch)),
{
    let cid = watch.correlation_id@;
    if w.records.contains_key(cid) {
        let before = w.records[cid].arb;
        let middle = moved_off(w, before.anchor, watch);
        lemma_departed(w, before.anchor.market_key@, cid, key);
        lemma_departed(middle, before.matched.market_key@, cid, key);
        let set = watchers(w.registry, key);
        assert(set.remove(cid).remove(cid) =~= set.remove(cid));
    }
}

/// Registering an arb makes it a watcher of both of its legs. It leaves the legs
/// that it was registered with before and no longer has, and nothing else in the
/// registry changes.
pub proof fn register_watches_both_legs(w: Watching, watch: ArbWatch, key: Seq<char>)
    ensures
        ({
            let cid = watch.correlation_id@;
            let after = watchers(registered(w, watch).registry, key);
            after == if has_leg(watch, key) {
                watchers(w.registry, key).insert(cid)
            } else if had_leg(w, cid, key) {
                watchers(w.registry, key).remove(cid)
            } else {
                watchers(w.registry, key)
            }
        }),
{
    let cid = watch.correlation_id@;
    lemma_vacated(w, watch, key);
    let set = watchers(vacated(w, watch).registry, key);
    assert(set.insert(cid).insert(cid) =~= set.insert(cid));
}

/// Registering keeps the indexes in sync, also where the arb was registered with
/// other legs before: afterwards it watches exactly the legs that it now has.
pub proof fn register_keeps_sync(w: Watching, watch: ArbWatch)
    requires
        in_sync(w),
    ensures
        in_sync(registered(w, watch)),
        forall|key: Seq<char>| #[trigger]
            watchers(registered(w, watch).registry, key).contains(watch.correlation_id@)
                <==> has_leg(watch, key),
{
    let after = registered(w, watch);
    let id = watch.correlation_id@;
    assert forall|cid: Seq<char>, key: Seq<char>|
        after.records.contains_key(cid) && #[trigger] has_leg(
            after.records[cid],
            key,
        ) implies watchers(after.registry, key).contains(cid) by {
        register_watches_both_legs(w, watch, key);
        if cid != id {
            assert(has_leg(w.records[cid], key));
        }
    }
    assert forall|cid: Seq<char>, key: Seq<char>| #[trigger]
        watchers(after.registry, key).contains(cid) implies after.records.contains_key(cid)
        && has_leg(after.records[cid], key) by {
        register_watches_both_legs(w, watch, key);
        if cid != id || !has_leg(watch, key) {
            assert(watchers(w.registry, key).contains(cid));
        }
    }
    lemma_registered_markets(w, watch);
    assert forall|key: Seq<char>| #[trigger] watchers(after.registry, key).contains(id)
        <==> has_leg(watch, key) by {
        if has_leg(watch, key) {
            assert(has_leg(after.records[id], key));
        }
    }
}

proof fn lemma_registered_markets(w: Watching, watch: ArbWatch)
    requires
        markets_watched(w),
    ensures
        markets_watched(registered(w, watch)),
{
    let after = registered(w, watch);
    let left = vacated(w, watch);
    let id = watch.correlation_id@;
    assert forall|key: Seq<char>| #[trigger] after.registry.contains_key(key) implies
        after.registry[key] != Set::<Seq<char>>::empty() by {
        lemma_vacated(w, watch, key);
        if has_leg(watch, key) {
            register_watches_both_legs(w, watch, key);
            assert(watchers(after.registry, key).contains(id));
        } else {
            assert(left.registry.contains_key(key));
        }
    }
}

/// Registering leaves the prices alone of every market that is a leg of the arb or
/// of another one.
pub proof fn register_keeps_prices(
    w: Watching,
    watch: ArbWatch,
    other: Seq<char>,
    key: Seq<char>,
)
    requires
        in_sync(w),
        has_leg(watch, key) || other != watch.correlation_id@ && had_leg(w, other, key),
    ensures
        w.tobs.contains_key(key) == registered(w, watch).tobs.contains_key(key),
        w.tobs.contains_key(key) ==> w.tobs[key] == registered(w, watch).tobs[key],
{
    let cid = watch.correlation_id@;
    if w.records.contains_key(cid) && !has_leg(watch, key) {
        let before = w.records[cid].arb;
        let middle = moved_off(w, before.anchor, watch);
        assert(watchers(w.registry, key).contains(other));
        lemma_departed(w, before.anchor.market_key@, cid, key);
        assert(watchers(middle.registry, key).contains(other));
        assert(!goes_quiet(w, key, cid)) by {
            if goes_quiet(w, key, cid) {
                assert(w.registry[key].remove(cid).contains(other));
            }
        }
        assert(!goes_quiet(middle, key, cid)) by {
            if goes_quiet(middle, key, cid) {
                assert(middle.registry[key].remove(cid).contains(other));
            }
        }
    }
}

/// A market that an arb no longer has as a leg when it is registered again, and
/// that no other arb has, is no longer registered, loses its prices and ends its
/// subscription.
pub proof fn vacated_markets_are_dropped(w: Watching, watch: ArbWatch, key: Seq<char>)
    requires
        in_sync(w),
        had_leg(w, watch.correlation_id@, key),
        !has_leg(watch, key),
        forall|other: Seq<char>|
            other != watch.correlation_id@ && #[trigger] w.records.contains_key(other)
                ==> !has_leg(w.records[other], key),
    ensures
        !registered(w, watch).registry.contains_key(key),
        !registered(w, watch).tobs.contains_key(key),
        ends_leg(superseded(w, watch), w.records[watch.correlation_id@], key),
{
    let cid = watch.correlation_id@;
    let before = w.records[cid].arb;
    let middle = moved_off(w, before.anchor, watch);
    assert(watchers(w.registry, key).contains(cid));
    assert(watchers(w.registry, key) =~= set![cid]) by {
        assert forall|x: Seq<char>| #[trigger]
            watchers(w.registry, key).contains(x) <==> set![cid].contains(x) by {}
    }
    assert(w.registry[key].remove(cid) =~= Set::empty());
    assert(goes_quiet(w, key, cid));
    let ended = superseded(w, watch);
    if before.anchor.market_key@ == key {
        assert(ended[0] == (before.anchor.platform, before.anchor.token_id@));
    } else {
        assert(before.matched.market_key@ == key);
        assert(goes_quiet(middle, key, cid));
        let last = ended.len() - 1;
        assert(ended[last] == (before.matched.platform, before.matched.token_id@));
    }
}

/// Whether one of the ended subscriptions is that of the arb's leg on the market.
pub open spec fn ends_leg(
    ended: Seq<(Platform, Seq<char>)>,
    watch: ArbWatch,
    key: Seq<char>,
) -> bool {
    exists|i: int|
        #![trigger ended[i]]
        0 <= i < ended.len() && ({
            let arb = watch.arb;
            ||| arb.anchor.market_key@ == key && ended[i] == (
                arb.anchor.platform,
                arb.anchor.token_id@,
            )
            ||| arb.matched.market_key@ == key && ended[i] == (
                arb.matched.platform,
                arb.matched.token_id@,
            )
        })
}

/// Unregistering an arb removes it from the watchers of its legs, and changes
/// nothing else in the registry.
pub proof fn unregister_leaves_both_legs(w: Watching, cid: Seq<char>, key: Seq<char>)
    ensures
        unregistered(w, cid).records == w.records.remove(cid),
        watchers(unregistered(w, cid).registry, key) == if w.records.contains_key(cid) && has_leg(
            w.records[cid],
            key,
        ) {
            watchers(w.registry, key).remove(cid)
        } else {
            watchers(w.registry, key)
        },
{
    if w.records.contains_key(cid) {
        let arb = w.records[cid].arb;
        let bare = forgotten(w, cid);
        let middle = departed(bare, arb.anchor.market_key@, cid);
        lemma_departed(bare, arb.anchor.market_key@, cid, key);
        lemma_departed(middle, arb.matched.market_key@, cid, key);
        let set = watchers(w.registry, key);
        assert(set.remove(cid).remove(cid) =~= set.remove(cid));
    } else {
        assert(w.records.remove(cid) =~= w.records);
    }
}

/// Unregistering keeps the indexes in sync.
pub proof fn unregister_keeps_sync(w: Watching, cid: Seq<char>)
    requires
        in_sync(w),
    ensures
        in_sync(unregistered(w, cid)),
{
    let after = unregistered(w, cid);
    unregister_leaves_both_legs(w, cid, Seq::empty());
    assert forall|id: Seq<char>, key: Seq<char>|
        after.records.contains_key(id) && #[trigger] has_leg(
            after.records[id],
            key,
        ) implies watchers(after.registry, key).contains(id) by {
        unregister_leaves_both_legs(w, cid, key);
        assert(has_leg(w.records[id], key));
    }
    assert forall|id: Seq<char>, key: Seq<char>| #[trigger]
        watchers(after.registry, key).contains(id) implies after.records.contains_key(id)
        && has_leg(after.records[id], key) by {
        unregister_leaves_both_legs(w, cid, key);
        assert(watchers(w.registry, key).contains(id));
    }
    lemma_unregistered_markets(w, cid);
}

proof fn lemma_unregistered_markets(w: Watching, cid: Seq<char>)
    requires
        markets_watched(w),
    ensures
        markets_watched(unregistered(w, cid)),
{
    if w.records.contains_key(cid) {
        let arb = w.records[cid].arb;
        let bare = forgotten(w, cid);
        lemma_departed(bare, arb.anchor.market_key@, cid, Seq::empty());
        lemma_departed(
            departed(bare, arb.anchor.market_key@, cid),
            arb.matched.market_key@,
            cid,
            Seq::empty(),
        );
    }
}

/// Unregistering an arb that occurred nowhere before it was registered leads back
/// to what was watched before.
pub proof fn unregister_undoes_register(w: Watching, watch: ArbWatch)
    requires
        markets_watched(w),
        !w.records.contains_key(watch.correlation_id@),
        forall|key: Seq<char>|
            !(#[trigger] watchers(w.registry, key)).contains(watch.correlation_id@),
    ensures
        ({
            let back = unregistered(registered(w, watch), watch.correlation_id@);
            back.registry == w.registry && back.records == w.records
        }),
{
    let cid = watch.correlation_id@;
    let there = registered(w, watch);
    let back = unregistered(there, cid);
    lemma_registered_markets(w, watch);
    lemma_unregistered_markets(there, cid);
    assert forall|key: Seq<char>| watchers(back.registry, key) == watchers(w.registry, key) by {
        register_watches_both_legs(w, watch, key);
        unregister_leaves_both_legs(there, cid, key);
        assert(!watchers(w.registry, key).contains(cid));
        let set = watchers(w.registry, key);
        assert(set.insert(cid).remove(cid) =~= set);
    }
    assert forall|key: Seq<char>| #[trigger]
        back.registry.contains_key(key) <==> w.registry.contains_key(key) by {
        assert(watchers(back.registry, key) == watchers(w.registry, key));
    }
    assert(back.registry =~= w.registry) by {
        assert forall|key: Seq<char>| #[trigger]
            w.registry.contains_key(key) implies back.registry[key] == w.registry[key] by {
            assert(watchers(back.registry, key) == watchers(w.registry, key));
            assert(back.registry.contains_key(key));
        }
    }
    unregister_leaves_both_legs(there, cid, Seq::empty());
    assert(back.records =~= w.records);
}

/// Unregistering an arb leaves the prices of every market alone that another arb
/// has as a leg.
pub proof fn others_keep_their_prices(
    w: Watching,
    cid: Seq<char>,
    other: Seq<char>,
    key: Seq<char>,
)
    requires
        in_sync(w),
        w.records.contains_key(other),
        other != cid,
        has_leg(w.records[other], key),
    ensures
        w.tobs.contains_key(key) == unregistered(w, cid).tobs.contains_key(key),
        w.tobs.contains_key(key) ==> w.tobs[key] == unregistered(w, cid).tobs[key],
{
    if w.records.contains_key(cid) {
        let arb = w.records[cid].arb;
        let bare = forgotten(w, cid);
        let middle = departed(bare, arb.anchor.market_key@, cid);
        assert(watchers(w.registry, key).contains(other));
        lemma_departed(bare, arb.anchor.market_key@, cid, key);
        assert(watchers(middle.registry, key).contains(other));
        assert(!goes_quiet(bare, key, cid)) by {
            if goes_quiet(bare, key, cid) {
                assert(w.registry[key].remove(cid).contains(other));
            }
        }
        assert(!goes_quiet(middle, key, cid)) by {
            if goes_quiet(middle, key, cid) {
                assert(middle.registry[key].remove(cid).contains(other));
            }
        }
    }
}

/// A market whose last watcher is unregistered loses its prices and ends its
/// subscription.
pub proof fn quiet_markets_are_dropped(w: Watching, cid: Seq<char>, key: Seq<char>)
    requires
        in_sync(w),
        w.records.contains_key(cid),
        has_leg(w.records[cid], key),
        forall|other: Seq<char>|
            other != cid && #[trigger] w.records.contains_key(other) ==> !has_leg(
                w.records[other],
                key,
            ),
    ensures
        !unregistered(w, cid).registry.contains_key(key),
        !unregistered(w, cid).tobs.contains_key(key),
        ends_leg(unsubscribed(w, cid), w.records[cid], key),
{
    let arb = w.records[cid].arb;
    let bare = forgotten(w, cid);
    let ka = arb.anchor.market_key@;
    let km = arb.matched.market_key@;
    let middle = departed(bare, ka, cid);
    assert(watchers(w.registry, key).contains(cid));
    assert(watchers(w.registry, key) =~= set![cid]) by {
        assert forall|x: Seq<char>| #[trigger]
            watchers(w.registry, key).contains(x) <==> set![cid].contains(x) by {}
    }
    assert(w.registry[key].remove(cid) =~= Set::empty());
    assert(goes_quiet(bare, key, cid));
    let ended = unsubscribed(w, cid);
    if ka == key {
        assert(ended[0] == (arb.anchor.platform, arb.anchor.token_id@));
    } else {
        assert(km == key);
        assert(goes_quiet(middle, key, cid));
        let last = ended.len() - 1;
        assert(ended[last] == (arb.matched.platform, arb.matched.token_id@));
    }
}

/// Registering an arb records it as it is and leaves every other record alone; where it is
/// new, no price changes and no subscription ends.
pub proof fn register_records_the_arb(w: Watching, watch: ArbWatch, other: Seq<char>)
    ensures
        registered(w, watch).records.contains_key(watch.correlation_id@),
        registered(w, watch).records[watch.correlation_id@] == watch,
        other != watch.correlation_id@ ==> (registered(w, watch).records.contains_key(other)
            <==> w.records.contains_key(other)),
        other != watch.correlation_id@ && w.records.contains_key(other) ==> registered(
            w,
            watch,
        ).records[other] == w.records[other],
        !w.records.contains_key(watch.correlation_id@) ==> registered(w, watch).tobs == w.tobs
            && superseded(w, watch).len() == 0,
{
}

/// Whether every ended subscription is that of a leg of the arb whose market nobody
/// watches any longer.
pub open spec fn ends_only_quiet_legs(
    ended: Seq<(Platform, Seq<char>)>,
    watch: ArbWatch,
    after: Watching,
) -> bool {
    forall|i: int|
        0 <= i < ended.len() ==> ({
            let (anchor, matched) = (watch.arb.anchor, watch.arb.matched);
            ||| #[trigger] ended[i] == (anchor.platform, anchor.token_id@)
                && !after.registry.contains_key(anchor.market_key@)
            ||| ended[i] == (matched.platform, matched.token_id@) && !after.registry.contains_key(
                matched.market_key@,
            )
        })
}

/// No subscription ends but that of a market that the arb leaves and that nobody watches
/// any longer, whether the arb is unregistered or comes again with other legs.
pub proof fn watched_markets_stay_subscribed(w: Watching, cid: Seq<char>, watch: ArbWatch)
    ensures
        w.records.contains_key(cid) ==> ends_only_quiet_legs(
            unsubscribed(w, cid),
            w.records[cid],
            unregistered(w, cid),
        ),
        !w.records.contains_key(cid) ==> unsubscribed(w, cid).len() == 0,
        w.records.contains_key(watch.correlation_id@) ==> ends_only_quiet_legs(
            superseded(w, watch),
            w.records[watch.correlation_id@],
            registered(w, watch),
        ),
{
}

/// Unregistering an arb leaves the prices of every market alone that is not one of its
/// legs.
pub proof fn unrelated_prices_stay(w: Watching, cid: Seq<char>, key: Seq<char>)
    requires
        w.records.contains_key(cid) ==> !has_leg(w.records[cid], key),
    ensures
        unregistered(w, cid).tobs.contains_key(key) <==> w.tobs.contains_key(key),
        w.tobs.contains_key(key) ==> unregistered(w, cid).tobs[key] == w.tobs[key],
        unregistered(w, cid).registry.contains_key(key) <==> w.registry.contains_key(key),
{
}

/// Unregistering one list of ids after another is unregistering both in one go.
pub proof fn unregister_in_steps(w: Watching, first: Seq<Seq<char>>, then_ids: Seq<Seq<char>>)
    ensures
        all_unregistered(w, first + then_ids) == all_unregistered(
            all_unregistered(w, first),
            then_ids,
        ),
        all_unsubscribed(w, first + then_ids) == all_unsubscribed(w, first) + all_unsubscribed(
            all_unregistered(w, first),
            then_ids,
        ),
    decreases then_ids.len(),
{
    if then_ids.len() == 0 {
        assert(first + then_ids =~= first);
        assert(all_unsubscribed(w, first) + Seq::<(Platform, Seq<char>)>::empty()
            =~= all_unsubscribed(w, first));
    } else {
        let whole = first + then_ids;
        unregister_in_steps(w, first, then_ids.drop_last());
        assert(whole.drop_last() =~= first + then_ids.drop_last());
        assert(whole.last() == then_ids.last());
        assert(all_unsubscribed(w, whole) =~= all_unsubscribed(w, first) + all_unsubscribed(
            all_unregistered(w, first),
            then_ids,
        ));
    }
}

/// Unregistering a list of ids keeps the indexes in sync, removes their records,
/// leaves every other record as it is and removes, from any market's watchers, at
/// most those ids.
pub proof fn unregister_all_removes(w: Watching, cids: Seq<Seq<char>>, key: Seq<char>)
    ensures
        in_sync(w) ==> in_sync(all_unregistered(w, cids)),
        forall|cid: Seq<char>| #[trigger]
            all_unregistered(w, cids).records.contains_key(cid) <==> w.records.contains_key(cid)
                && !cids.contains(cid),
        forall|cid: Seq<char>| #[trigger]
            all_unregistered(w, cids).records.contains_key(cid) ==> all_unregistered(
                w,
                cids,
            ).records[cid] == w.records[cid],
        forall|cid: Seq<char>| #[trigger]
            watchers(all_unregistered(w, cids).registry, key).contains(cid) ==> watchers(
                w.registry,
                key,
            ).contains(cid),
        forall|cid: Seq<char>| #[trigger]
            watchers(w.registry, key).contains(cid) && !cids.contains(cid) ==> watchers(
                all_unregistered(w, cids).registry,
                key,
            ).contains(cid),
    decreases cids.len(),
{
    if cids.len() > 0 {
        let init = cids.drop_last();
        let last = cids.last();
        let before = all_unregistered(w, init);
        unregister_all_removes(w, init, key);
        if in_sync(w) {
            unregister_keeps_sync(before, last);
        }
        unregister_leaves_both_legs(before, last, key);
        assert forall|cid: Seq<char>| #[trigger] cids.contains(cid) <==> init.contains(cid) || cid
            == last by {
            if cids.contains(cid) {
                let i = choose|i: int| 0 <= i < cids.len() && cids[i] == cid;
                if i < init.len() {
                    assert(init[i] == cid);
                }
            }
            if init.contains(cid) {
                let i = choose|i: int| 0 <= i < init.len() && init[i] == cid;
                assert(cids[i] == cid);
            }
            assert(cids[cids.len() - 1] == last);
        }
    }
}

/// Once every watcher of a market has been unregistered, among others or not, the
/// market is no longer registered and no record has it as a leg.
pub proof fn watched_by_none_is_gone(w: Watching, key: Seq<char>, order: Seq<Seq<char>>)
    requires
        in_sync(w),
        forall|cid: Seq<char>| #[trigger]
            watchers(w.registry, key).contains(cid) ==> order.contains(cid),
    ensures
        ({
            let after = all_unregistered(w, order);
            &&& in_sync(after)
            &&& !after.registry.contains_key(key)
            &&& forall|cid: Seq<char>| #[trigger]
                after.records.contains_key(cid) ==> !has_leg(after.records[cid], key)
        }),
{
    let after = all_unregistered(w, order);
    unregister_all_removes(w, order, key);
    assert forall|cid: Seq<char>| #[trigger] after.records.contains_key(cid) implies !has_leg(
        after.records[cid],
        key,
    ) by {
        if has_leg(after.records[cid], key) {
            assert(watchers(after.registry, key).contains(cid));
            assert(watchers(w.registry, key).contains(cid));
        }
    }
    if after.registry.contains_key(key) {
        let set = after.registry[key];
        assert(set != Set::<Seq<char>>::empty());
        if forall|x: Seq<char>| !set.contains(x) {
            assert(set =~= Set::empty());
        }
        let cid = choose|x: Seq<char>| set.contains(x);
        assert(watchers(after.registry, key).contains(cid));
    }
}

/// Once exactly the watchers of a market have been unregistered, the market is no
/// longer registered and no record has it as a leg.
pub proof fn dropped_market_is_gone(w: Watching, key: Seq<char>, order: Seq<Seq<char>>)
    requires
        in_sync(w),
        order.to_set() == watchers(w.registry, key),
    ensures
        ({
            let after = all_unregistered(w, order);
            &&& in_sync(after)
            &&& !after.registry.contains_key(key)
            &&& forall|cid: Seq<char>| #[trigger]
                after.records.contains_key(cid) ==> !has_leg(after.records[cid], key)
        }),
{
    assert forall|cid: Seq<char>| #[trigger]
        watchers(w.registry, key).contains(cid) implies order.contains(cid) by {
        assert(order.to_set().contains(cid));
    }
    watched_by_none_is_gone(w, key, order);
}

} // verus!
