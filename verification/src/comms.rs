//! Watching accepted arbs: registering them, following prices and deciding when
//! to ask for an execution.
use crate::book::{
    all_unregistered, all_unsubscribed, departed, departure, dropped_market_is_gone, forgotten,
    has_leg, in_sync, move_off, moved_off, register_keeps_sync, register_watches_both_legs,
    registered, registry_view,
    superseded, unregister_all_removes, unregister_in_steps, unregister_keeps_sync, unregistered,
    unsubscribed, vacated, watched_by_none_is_gone, watchers, Book, Watching,
};
use crate::clock;
use crate::dec::Dec;
use crate::guards::{self, Guards};
use crate::ids::views;
use crate::models::{
    arb_error, market_key, pairs, Arb, ArbEssentials, ArbError, ArbMinifiedInfo,
    ArbMinifiedInfoPair, ArbWatch, CorrelationId, ExecutionRequest, F32Bits, Leg, LegCode, MarketKey,
    Platform, PlatformCode, TopOfBook,
};
use crate::models;
use crate::text;
use vstd::hash_map::StringHashMap;
use vstd::prelude::*;

verus! {

/// A price subscription that is no longer needed.
#[derive(Debug)]
pub struct Unsubscribe {
    pub platform: Platform,
    pub token_id: String,
}

/// The venue and token of each subscription.
pub open spec fn unsubscribe_views(list: Seq<Unsubscribe>) -> Seq<(Platform, Seq<char>)> {
    list.map_values(|u: Unsubscribe| (u.platform, u.token_id@))
}

/// The watched arbs and the latest prices of their markets.
pub struct PickerComms {
    book: Book,
    top_of_book: StringHashMap<TopOfBook>,
}

impl View for PickerComms {
    type V = Watching;

    closed spec fn view(&self) -> Watching {
        Watching {
            registry: registry_view(self.book.registry@),
            records: self.book.records@,
            tobs: self.top_of_book@,
        }
    }
}

/// How an event in the life of a Kalshi market is dealt with.
#[derive(Debug, Clone, Copy, PartialEq, Eq, Structural)]
pub enum Lifecycle {
    /// The closing time of the market has changed.
    CloseDateUpdated,
    /// The market is no longer traded.
    Ended,
    /// Nothing that matters here.
    Other,
}

/// How an event of this type is dealt with.
pub open spec fn lifecycle_of(event_type: Seq<char>) -> Lifecycle {
    if event_type == "close_date_updated"@ {
        Lifecycle::CloseDateUpdated
    } else if event_type == "determined"@ || event_type == "settled"@ || event_type
        == "deactivated"@ {
        Lifecycle::Ended
    } else {
        Lifecycle::Other
    }
}

/// How an event of this type is dealt with.
pub fn lifecycle(event_type: &str) -> (r: Lifecycle)
    ensures
        r == lifecycle_of(event_type@),
{
    if text::same(event_type, "close_date_updated") {
        Lifecycle::CloseDateUpdated
    } else if text::same(event_type, "determined") || text::same(event_type, "settled")
        || text::same(event_type, "deactivated") {
        Lifecycle::Ended
    } else {
        Lifecycle::Other
    }
}

/// The leg with the new closing time, where it is a leg on the market.
pub open spec fn leg_retimed(leg: ArbMinifiedInfo, key: Seq<char>, close_time_ms: i64) ->
    ArbMinifiedInfo {
    if leg.market_key@ == key {
        ArbMinifiedInfo { close_time_ms, ..leg }
    } else {
        leg
    }
}

/// The arb with the new closing time on those legs that are on the market.
pub open spec fn retimed(watch: ArbWatch, key: Seq<char>, close_time_ms: i64) -> ArbWatch {
    ArbWatch {
        correlation_id: watch.correlation_id,
        arb: ArbMinifiedInfoPair {
            anchor: leg_retimed(watch.arb.anchor, key, close_time_ms),
            matched: leg_retimed(watch.arb.matched, key, close_time_ms),
            scored: watch.arb.scored,
        },
    }
}

/// The records once the market's closing time has changed for the given arbs.
pub open spec fn all_retimed(
    records: Map<Seq<char>, ArbWatch>,
    cids: Set<Seq<char>>,
    key: Seq<char>,
    close_time_ms: i64,
) -> Map<Seq<char>, ArbWatch> {
    records.map_entries(
        |cid: Seq<char>, watch: ArbWatch|
            if cids.contains(cid) {
                retimed(watch, key, close_time_ms)
            } else {
                watch
            },
    )
}

/// Whether `after` and the ended subscriptions are what unregistering every
/// watcher of the market, in some order, leads to.
pub open spec fn market_dropped(
    w: Watching,
    key: Seq<char>,
    after: Watching,
    ended: Seq<(Platform, Seq<char>)>,
) -> bool {
    exists|order: Seq<Seq<char>>|
        {
            &&& order.no_duplicates()
            &&& order.to_set() == watchers(w.registry, key)
            &&& after == #[trigger] all_unregistered(w, order)
            &&& ended == all_unsubscribed(w, order)
        }
}

/// Whether some asset of the list is watched by the arb.
pub open spec fn watches_one_of(w: Watching, assets: Seq<Seq<char>>, cid: Seq<char>) -> bool {
    exists|i: int|
        0 <= i < assets.len() && watchers(
            w.registry,
            market_key(#[trigger] assets[i], Platform::Polymarket),
        ).contains(cid)
}

/// Whether `order` names exactly the arbs that watch an asset of the list.
pub open spec fn names_watchers(
    order: Seq<Seq<char>>,
    w: Watching,
    assets: Seq<Seq<char>>,
) -> bool {
    forall|cid: Seq<char>| #[trigger] order.contains(cid) <==> watches_one_of(w, assets, cid)
}

/// Whether `after` and the ended subscriptions are what unregistering every arb
/// that watches one of the Polymarket assets, in some order, leads to.
pub open spec fn markets_dropped(
    w: Watching,
    assets: Seq<Seq<char>>,
    after: Watching,
    ended: Seq<(Platform, Seq<char>)>,
) -> bool {
    exists|order: Seq<Seq<char>>|
        {
            &&& names_watchers(order, w, assets)
            &&& after == #[trigger] all_unregistered(w, order)
            &&& ended == all_unsubscribed(w, order)
        }
}

proof fn lemma_more_dropped(
    start: Watching,
    order: Seq<Seq<char>>,
    more: Seq<Seq<char>>,
    assets: Seq<Seq<char>>,
    i: int,
)
    requires
        0 <= i < assets.len(),
        names_watchers(order, start, assets.take(i)),
        more.to_set() == watchers(
            all_unregistered(start, order).registry,
            market_key(assets[i], Platform::Polymarket),
        ),
    ensures
        names_watchers(order + more, start, assets.take(i + 1)),
{
    let key = market_key(assets[i], Platform::Polymarket);
    let now = all_unregistered(start, order);
    let both = order + more;
    let upto = assets.take(i + 1);
    unregister_all_removes(start, order, key);
    assert forall|cid: Seq<char>| #[trigger]
        both.contains(cid) <==> watches_one_of(start, upto, cid) by {
        assert(both.contains(cid) <==> order.contains(cid) || more.contains(cid)) by {
            if both.contains(cid) {
                let j = choose|j: int| 0 <= j < both.len() && both[j] == cid;
                if j < order.len() {
                    assert(order[j] == cid);
                } else {
                    assert(more[j - order.len()] == cid);
                }
            }
            if order.contains(cid) {
                let j = choose|j: int| 0 <= j < order.len() && order[j] == cid;
                assert(both[j] == cid);
            }
            if more.contains(cid) {
                let j = choose|j: int| 0 <= j < more.len() && more[j] == cid;
                assert(both[j + order.len()] == cid);
            }
        }
        assert(more.contains(cid) <==> more.to_set().contains(cid));
        if order.contains(cid) {
            let j = choose|j: int|
                0 <= j < assets.take(i).len() && watchers(
                    start.registry,
                    market_key(#[trigger] assets.take(i)[j], Platform::Polymarket),
                ).contains(cid);
            assert(upto[j] == assets.take(i)[j]);
        }
        if more.contains(cid) {
            assert(upto[i] == assets[i]);
            assert(watchers(now.registry, key).contains(cid));
        }
        if watches_one_of(start, upto, cid) {
            let j = choose|j: int|
                0 <= j < upto.len() && watchers(
                    start.registry,
                    market_key(#[trigger] upto[j], Platform::Polymarket),
                ).contains(cid);
            if j < i {
                assert(assets.take(i)[j] == upto[j]);
                assert(watches_one_of(start, assets.take(i), cid));
            } else if !order.contains(cid) {
                assert(watchers(start.registry, key).contains(cid));
                assert(watchers(now.registry, key).contains(cid));
            }
        }
    }
}

/// Whether a top of book at `key` is newer than what is known.
pub open spec fn is_news(w: Watching, key: Seq<char>, tob: TopOfBook) -> bool {
    !w.tobs.contains_key(key) || w.tobs[key].tob_timestamp_ms < tob.tob_timestamp_ms
}

/// What is watched after a price update.
pub open spec fn price_updated(w: Watching, key: Seq<char>, tob: TopOfBook) -> Watching {
    if is_news(w, key, tob) {
        Watching { registry: w.registry, records: w.records, tobs: w.tobs.insert(key, tob) }
    } else {
        w
    }
}

/// The arbs that a price update asks to be evaluated.
pub open spec fn to_evaluate(w: Watching, key: Seq<char>, tob: TopOfBook) -> Set<Seq<char>> {
    if is_news(w, key, tob) {
        watchers(w.registry, key)
    } else {
        Set::empty()
    }
}

/// Whether `list` names each id of `cids` once.
pub open spec fn walks(list: Seq<String>, cids: Set<Seq<char>>) -> bool {
    views(list).no_duplicates() && views(list).to_set() == cids
}

/// Where the effective ask of a leg comes from.
#[derive(Debug, Clone, Copy, PartialEq, Eq, Structural)]
pub enum Ask {
    /// The price itself.
    Price(F32Bits),
    /// One dollar less the price.
    OneMinus(F32Bits),
}

/// The effective ask to own the outcome of a leg.
pub open spec fn effective_ask(tob: TopOfBook, leg: ArbMinifiedInfo) -> Ask {
    match (leg.platform, leg.leg) {
        (Platform::Polymarket, _) => Ask::Price(tob.best_ask),
        (Platform::Kalshi, Leg::Left) => Ask::Price(tob.best_ask),
        (Platform::Kalshi, Leg::Right) => Ask::OneMinus(tob.best_bid),
    }
}

/// The size that is on offer at the effective ask.
pub open spec fn effective_size(tob: TopOfBook, leg: ArbMinifiedInfo) -> F32Bits {
    match (leg.platform, leg.leg) {
        (Platform::Polymarket, _) => tob.ask_size,
        (Platform::Kalshi, Leg::Left) => tob.ask_size,
        (Platform::Kalshi, Leg::Right) => tob.bid_size,
    }
}

/// The effective ask to own the outcome of a leg.
pub fn needed_ask_price(tob: &TopOfBook, leg: &ArbMinifiedInfo) -> (r: Ask)
    ensures
        r == effective_ask(*tob, *leg),
{
    match leg.platform {
        Platform::Kalshi => match leg.leg {
            Leg::Left => Ask::Price(tob.best_ask),
            Leg::Right => Ask::OneMinus(tob.best_bid),
        },
        Platform::Polymarket => Ask::Price(tob.best_ask),
    }
}

/// The size that is on offer at the effective ask.
pub fn needed_ask_size(tob: &TopOfBook, leg: &ArbMinifiedInfo) -> (r: F32Bits)
    ensures
        r == effective_size(*tob, *leg),
{
    match leg.platform {
        Platform::Kalshi => match leg.leg {
            Leg::Left => tob.ask_size,
            Leg::Right => tob.bid_size,
        },
        Platform::Polymarket => tob.ask_size,
    }
}

/// The prices and sizes that decide whether an arb is worth executing.
#[derive(Debug, Clone, Copy, PartialEq, Eq, Structural)]
pub struct Quotes {
    pub anchor_ask: Ask,
    pub match_ask: Ask,
    pub anchor_size: F32Bits,
    pub match_size: F32Bits,
}

/// How long before its close a pair is no longer executed, in milliseconds.
pub const EXECUTION_CLOSE_GUARD_MS: u32 = 600_000;

/// How long before its close a pair is no longer accepted, in milliseconds.
pub const ADMISSION_CLOSE_GUARD_MS: u32 = 3_600_000;

/// Whether a leg closes too soon for the pair to be executed.
pub open spec fn closes_too_soon(watch: ArbWatch, now_ms: i64) -> bool {
    let anchor = watch.arb.anchor.close_time_ms as int;
    let matched = watch.arb.matched.close_time_ms as int;
    &&& clock::representable(anchor)
    &&& clock::representable(matched)
    &&& clock::closes_within(anchor, now_ms as int, EXECUTION_CLOSE_GUARD_MS as int)
        || clock::closes_within(matched, now_ms as int, EXECUTION_CLOSE_GUARD_MS as int)
}

/// The quotes of an arb that may be executed as far as its record and the prices
/// go.
pub open spec fn quotes_of(w: Watching, cid: Seq<char>, now_ms: i64) -> Option<Quotes> {
    if !w.records.contains_key(cid) || closes_too_soon(w.records[cid], now_ms) {
        None
    } else {
        let arb = w.records[cid].arb;
        let anchor_key = arb.anchor.market_key@;
        let match_key = arb.matched.market_key@;
        if w.tobs.contains_key(anchor_key) && w.tobs.contains_key(match_key) {
            Some(
                Quotes {
                    anchor_ask: effective_ask(w.tobs[anchor_key], arb.anchor),
                    match_ask: effective_ask(w.tobs[match_key], arb.matched),
                    anchor_size: effective_size(w.tobs[anchor_key], arb.anchor),
                    match_size: effective_size(w.tobs[match_key], arb.matched),
                },
            )
        } else {
            None
        }
    }
}

/// Whether `r` is what evaluating an arb under the guards gives.
pub open spec fn evaluated(
    w: Watching,
    cid: Seq<char>,
    g: guards::Guarding,
    length: int,
    now: u128,
    now_ms: i64,
    r: Option<Quotes>,
) -> bool {
    r == if guards::blocked(g, cid, length, now) {
        None
    } else {
        quotes_of(w, cid, now_ms)
    }
}

/// A pair is held back once either of its legs, whichever it is, closes within the
/// next ten minutes.
pub proof fn closing_pairs_are_held_back(
    w: Watching,
    cid: Seq<char>,
    g: guards::Guarding,
    length: int,
    now: u128,
    now_ms: i64,
    r: Option<Quotes>,
)
    requires
        evaluated(w, cid, g, length, now, now_ms, r),
        w.records.contains_key(cid),
        clock::representable(w.records[cid].arb.anchor.close_time_ms as int),
        clock::representable(w.records[cid].arb.matched.close_time_ms as int),
    ensures
        now_ms < w.records[cid].arb.anchor.close_time_ms <= now_ms + 600_000 ==> r is None,
        now_ms < w.records[cid].arb.matched.close_time_ms <= now_ms + 600_000 ==> r is None,
{
}

/// A watched pair that no guard blocks and none of whose legs closes within the next
/// ten minutes is quoted as soon as both of its markets have prices.
pub proof fn open_pairs_are_quoted(
    w: Watching,
    cid: Seq<char>,
    g: guards::Guarding,
    length: int,
    now: u128,
    now_ms: i64,
    r: Option<Quotes>,
)
    requires
        evaluated(w, cid, g, length, now, now_ms, r),
        !g.in_flight.contains(cid),
        g.cooldown.contains_key(cid) ==> g.cooldown[cid] <= now && now - g.cooldown[cid] >= length,
        w.records.contains_key(cid),
        w.tobs.contains_key(w.records[cid].arb.anchor.market_key@),
        w.tobs.contains_key(w.records[cid].arb.matched.market_key@),
        !(now_ms < w.records[cid].arb.anchor.close_time_ms <= now_ms + 600_000),
        !(now_ms < w.records[cid].arb.matched.close_time_ms <= now_ms + 600_000),
    ensures
        r is Some,
{
}

/// Nothing is quoted for an arb that is in flight or cools down, that is not watched,
/// or one of whose markets has no prices.
pub proof fn guarded_pairs_are_held_back(
    w: Watching,
    cid: Seq<char>,
    g: guards::Guarding,
    length: int,
    now: u128,
    now_ms: i64,
    r: Option<Quotes>,
)
    requires
        evaluated(w, cid, g, length, now, now_ms, r),
    ensures
        g.in_flight.contains(cid) ==> r is None,
        g.cooldown.contains_key(cid) && g.cooldown[cid] <= now && now - g.cooldown[cid] < length
            ==> r is None,
        !w.records.contains_key(cid) ==> r is None,
        w.records.contains_key(cid) && !(w.tobs.contains_key(
            w.records[cid].arb.anchor.market_key@,
        ) && w.tobs.contains_key(w.records[cid].arb.matched.market_key@)) ==> r is None,
{
}

/// Each leg is quoted from the prices of its own market: at the ask with the size on
/// the ask, except that the right side of a Kalshi market is bought at one dollar less
/// the bid, in the size on the bid.
pub proof fn legs_are_quoted_apart(
    w: Watching,
    cid: Seq<char>,
    g: guards::Guarding,
    length: int,
    now: u128,
    now_ms: i64,
    q: Quotes,
)
    requires
        evaluated(w, cid, g, length, now, now_ms, Some(q)),
    ensures
        w.records.contains_key(cid),
        ({
            let arb = w.records[cid].arb;
            let (a, m) = (w.tobs[arb.anchor.market_key@], w.tobs[arb.matched.market_key@]);
            &&& arb.anchor.platform is Kalshi && arb.anchor.leg is Right ==> q.anchor_ask
                == Ask::OneMinus(a.best_bid) && q.anchor_size == a.bid_size
            &&& !(arb.anchor.platform is Kalshi && arb.anchor.leg is Right) ==> q.anchor_ask
                == Ask::Price(a.best_ask) && q.anchor_size == a.ask_size
            &&& arb.matched.platform is Kalshi && arb.matched.leg is Right ==> q.match_ask
                == Ask::OneMinus(m.best_bid) && q.match_size == m.bid_size
            &&& !(arb.matched.platform is Kalshi && arb.matched.leg is Right) ==> q.match_ask
                == Ask::Price(m.best_ask) && q.match_size == m.ask_size
        }),
{
}

/// What a market ticker of Kalshi says, as far as its numbers could be read.
#[derive(Debug)]
pub struct KalshiTicker {
    pub market_ticker: String,
    pub best_bid: Option<F32Bits>,
    pub best_ask: Option<F32Bits>,
    pub bid_size: Option<F32Bits>,
    pub ask_size: Option<F32Bits>,
    pub spread: F32Bits,
    pub ts: i64,
    pub sid: i64,
}

/// What a price message of Polymarket says of one asset, as far as its numbers
/// could be read.
#[derive(Debug)]
pub struct PolyQuote {
    pub asset_id: String,
    pub best_bid: Option<F32Bits>,
    pub best_ask: Option<F32Bits>,
    pub spread: F32Bits,
}

/// The float zero.
pub open spec fn zero_bits() -> F32Bits {
    F32Bits { bits: 0 }
}

/// The number, zero where it could not be read.
pub open spec fn or_zero(bits: Option<F32Bits>) -> F32Bits {
    match bits {
        Some(b) => b,
        None => zero_bits(),
    }
}

fn bits_or_zero(bits: Option<F32Bits>) -> (r: F32Bits)
    ensures
        r == or_zero(bits),
{
    match bits {
        Some(b) => b,
        None => F32Bits { bits: 0 },
    }
}

/// The top of book that a Polymarket quote gives, if all of it could be read.
pub open spec fn poly_tob(quote: PolyQuote, timestamp: Seq<char>) -> Option<TopOfBook> {
    match (quote.best_bid, quote.best_ask, text::i64_value(timestamp)) {
        (Some(best_bid), Some(best_ask), Some(tob_timestamp_ms)) => Some(
            TopOfBook {
                best_bid,
                bid_size: zero_bits(),
                best_ask,
                ask_size: zero_bits(),
                spread: quote.spread,
                tob_timestamp_ms,
                sid: None,
            },
        ),
        _ => None,
    }
}

/// The top of book that a Kalshi ticker gives, if its prices could be read.
pub open spec fn kalshi_tob(ticker: KalshiTicker) -> Option<TopOfBook> {
    match (ticker.best_bid, ticker.best_ask) {
        (Some(best_bid), Some(best_ask)) => Some(
            TopOfBook {
                best_bid,
                bid_size: or_zero(ticker.bid_size),
                best_ask,
                ask_size: or_zero(ticker.ask_size),
                spread: ticker.spread,
                tob_timestamp_ms: (ticker.ts * 1_000) as i64,
                sid: Some(ticker.sid),
            },
        ),
        _ => None,
    }
}

/// The top of book that seeds a leg, if there is an ask.
pub open spec fn seeded(
    ask: Option<F32Bits>,
    bid: Option<F32Bits>,
    spread: F32Bits,
    time_ms: i64,
) -> Option<TopOfBook> {
    match ask {
        None => None,
        Some(best_ask) => Some(
            TopOfBook {
                best_bid: or_zero(bid),
                bid_size: zero_bits(),
                best_ask,
                ask_size: zero_bits(),
                spread,
                tob_timestamp_ms: time_ms,
                sid: None,
            },
        ),
    }
}

/// A leg is seeded exactly where there is an ask, with that ask; a missing bid counts
/// as zero, and no size is known yet.
pub proof fn seeds_need_an_ask(
    ask: Option<F32Bits>,
    bid: Option<F32Bits>,
    spread: F32Bits,
    time_ms: i64,
)
    ensures
        seeded(ask, bid, spread, time_ms) is Some <==> ask is Some,
        seeded(ask, bid, spread, time_ms) matches Some(tob) ==> {
            &&& Some(tob.best_ask) == ask
            &&& bid is Some ==> Some(tob.best_bid) == bid
            &&& bid is None ==> tob.best_bid.bits == 0
            &&& tob.spread == spread
            &&& tob.tob_timestamp_ms == time_ms
            &&& tob.ask_size.bits == 0 && tob.bid_size.bits == 0
        },
{
}

/// The top of book that seeds a Polymarket leg: the first ask, which has to be
/// there, the first bid or zero, and the book's own time or else now.
pub fn seed_poly(
    best_ask: Option<F32Bits>,
    best_bid: Option<F32Bits>,
    spread: F32Bits,
    timestamp: &str,
    now_ms: i64,
) -> (r: Option<TopOfBook>)
    ensures
        r == seeded(
            best_ask,
            best_bid,
            spread,
            match text::i64_value(timestamp@) {
                Some(ms) => ms,
                None => now_ms,
            },
        ),
{
    let best_ask = match best_ask {
        Some(ask) => ask,
        None => return None,
    };
    let tob_timestamp_ms: i64 = match text::parse_i64(timestamp) {
        Some(ms) => ms,
        None => now_ms,
    };
    Some(
        TopOfBook {
            best_bid: bits_or_zero(best_bid),
            bid_size: F32Bits { bits: 0 },
            best_ask,
            ask_size: F32Bits { bits: 0 },
            spread,
            tob_timestamp_ms,
            sid: None,
        },
    )
}

/// The top of book that seeds a Kalshi leg: one dollar less the best bid for the
/// other side, which has to be there, the best bid or zero, and the time now.
pub fn seed_kalshi(
    yes_ask: Option<F32Bits>,
    yes_bid: Option<F32Bits>,
    spread: F32Bits,
    now_ms: i64,
) -> (r: Option<TopOfBook>)
    ensures
        r == seeded(yes_ask, yes_bid, spread, now_ms),
{
    let best_ask = match yes_ask {
        Some(ask) => ask,
        None => return None,
    };
    Some(
        TopOfBook {
            best_bid: bits_or_zero(yes_bid),
            bid_size: F32Bits { bits: 0 },
            best_ask,
            ask_size: F32Bits { bits: 0 },
            spread,
            tob_timestamp_ms: now_ms,
            sid: None,
        },
    )
}

/// Why an arb cannot be looked at.
#[derive(Debug, Clone, Copy, PartialEq, Eq, Structural)]
pub enum AdmissionError {
    Missing,
    MissingDiscovery,
    MissingMarketInfo,
    UnknownPlatform(i32),
    InvalidCloseTime(i64),
}

/// A leg of an arb that is to be subscribed to.
#[derive(Debug)]
pub struct LegTarget {
    pub platform: Platform,
    pub close_time_ms: i64,
    pub token_id: String,
}

/// What is to be done with an accepted arb.
#[derive(Debug)]
pub enum Admission {
    /// Close to its end: have it deleted.
    Refuse,
    /// Subscribe to both legs.
    Subscribe(LegTarget, LegTarget),
}

/// The first thing that keeps a leg from being looked at, if anything does.
pub open spec fn target_error(essentials: Option<ArbEssentials>) -> Option<AdmissionError> {
    match essentials {
        None => Some(AdmissionError::Missing),
        Some(e) => match e.discovery {
            None => Some(AdmissionError::MissingDiscovery),
            Some(d) => match d.market_info {
                None => Some(AdmissionError::MissingMarketInfo),
                Some(info) => if info.platform is Unknown {
                    Some(AdmissionError::UnknownPlatform(info.platform->Unknown_0))
                } else if !clock::representable(info.close_time_ms as int) {
                    Some(AdmissionError::InvalidCloseTime(info.close_time_ms))
                } else {
                    None
                },
            },
        },
    }
}

/// Whether `target` is the leg's venue, closing time and token.
pub open spec fn targets(target: LegTarget, essentials: Option<ArbEssentials>) -> bool {
    &&& essentials matches Some(e)
    &&& e.discovery matches Some(d)
    &&& d.market_info matches Some(info)
    &&& info.platform == PlatformCode::Known(target.platform)
    &&& info.close_time_ms == target.close_time_ms
    &&& e.token_id@ == target.token_id@
}

/// The closing time of a leg.
pub open spec fn close_of(essentials: Option<ArbEssentials>) -> int {
    essentials->0.discovery->0.market_info->0.close_time_ms as int
}

fn leg_target(essentials: &Option<ArbEssentials>) -> (r: Result<LegTarget, AdmissionError>)
    ensures
        r matches Ok(target) ==> target_error(*essentials) is None && targets(target, *essentials),
        r matches Err(e) ==> target_error(*essentials) == Some(e),
{
    let e = match essentials {
        Some(e) => e,
        None => return Err(AdmissionError::Missing),
    };
    let d = match &e.discovery {
        Some(d) => d,
        None => return Err(AdmissionError::MissingDiscovery),
    };
    let info = match &d.market_info {
        Some(info) => info,
        None => return Err(AdmissionError::MissingMarketInfo),
    };
    let platform = match info.platform {
        PlatformCode::Known(platform) => platform,
        PlatformCode::Unknown(code) => return Err(AdmissionError::UnknownPlatform(code)),
    };
    if !clock::has_date(info.close_time_ms) {
        return Err(AdmissionError::InvalidCloseTime(info.close_time_ms));
    }
    Ok(
        LegTarget {
            platform,
            close_time_ms: info.close_time_ms,
            token_id: e.token_id.clone(),
        },
    )
}

/// Whether a leg of the arb closes within the hour.
pub open spec fn closes_within_the_hour(arb: Arb, now_ms: i64) -> bool {
    let window = ADMISSION_CLOSE_GUARD_MS as int;
    clock::closes_within(close_of(arb.anchor), now_ms as int, window) || clock::closes_within(
        close_of(arb.matched),
        now_ms as int,
        window,
    )
}

/// What keeps an arb from being looked at: on which leg, and what.
pub open spec fn admission_error(arb: Arb) -> Option<(Leg, AdmissionError)> {
    match (target_error(arb.anchor), target_error(arb.matched)) {
        (Some(e), _) => Some((Leg::Left, e)),
        (None, Some(e)) => Some((Leg::Right, e)),
        (None, None) => None,
    }
}

/// Whether `r` is what is to be done with an accepted arb.
pub open spec fn admitted(
    arb: Arb,
    now_ms: i64,
    r: Result<Admission, (Leg, AdmissionError)>,
) -> bool {
    &&& r matches Err(e) ==> admission_error(arb) == Some(e)
    &&& r is Ok <==> admission_error(arb) is None
    &&& r matches Ok(Admission::Refuse) ==> closes_within_the_hour(arb, now_ms)
    &&& r matches Ok(Admission::Subscribe(anchor, matched)) ==> !closes_within_the_hour(
        arb,
        now_ms,
    ) && targets(anchor, arb.anchor) && targets(matched, arb.matched)
}

/// The market that a leg of an arb was discovered on.
pub open spec fn market_of(essentials: Option<ArbEssentials>) -> Option<models::MarketInfo> {
    match essentials {
        Some(e) => match e.discovery {
            Some(d) => d.market_info,
            None => None,
        },
        None => None,
    }
}

/// Whether a leg can be looked at: it names its market, the market's venue is known
/// and its closing time has a date.
pub open spec fn lookable(essentials: Option<ArbEssentials>) -> bool {
    &&& market_of(essentials) matches Some(info)
    &&& info.platform is Known
    &&& clock::representable(info.close_time_ms as int)
}

/// An arb is an error exactly where one of its legs cannot be looked at, the anchor's
/// first. Of the others exactly those are refused that have a leg, whichever it is,
/// which closes within the next hour.
pub proof fn arbs_are_refused_in_their_last_hour(
    arb: Arb,
    now_ms: i64,
    r: Result<Admission, (Leg, AdmissionError)>,
)
    requires
        admitted(arb, now_ms, r),
    ensures
        r is Ok <==> lookable(arb.anchor) && lookable(arb.matched),
        r is Err ==> (r->Err_0.0 is Left <==> !lookable(arb.anchor)),
        lookable(arb.anchor) && lookable(arb.matched) ==> ({
            let anchor = market_of(arb.anchor)->0.close_time_ms;
            let matched = market_of(arb.matched)->0.close_time_ms;
            r->Ok_0 is Refuse <==> now_ms < anchor <= now_ms + 3_600_000 || now_ms < matched
                <= now_ms + 3_600_000
        }),
{
}

/// An arb that is not refused is subscribed to leg by leg: each on its own venue and
/// by its own token.
pub proof fn legs_are_subscribed_to_apart(
    arb: Arb,
    now_ms: i64,
    anchor: LegTarget,
    matched: LegTarget,
)
    requires
        admitted(
            arb,
            now_ms,
            Ok::<Admission, (Leg, AdmissionError)>(Admission::Subscribe(anchor, matched)),
        ),
    ensures
        anchor.token_id@ == arb.anchor->0.token_id@,
        matched.token_id@ == arb.matched->0.token_id@,
        market_of(arb.anchor)->0.platform == PlatformCode::Known(anchor.platform),
        market_of(arb.matched)->0.platform == PlatformCode::Known(matched.platform),
        market_of(arb.anchor)->0.close_time_ms == anchor.close_time_ms,
        market_of(arb.matched)->0.close_time_ms == matched.close_time_ms,
{
}

/// Decides what is to be done with an accepted arb. An error names the anchor as
/// the left leg and the match as the right one.
pub fn decide_admission(arb: &Arb, now_ms: i64) -> (r: Result<Admission, (Leg, AdmissionError)>)
    ensures
        admitted(*arb, now_ms, r),
{
    let anchor = match leg_target(&arb.anchor) {
        Ok(target) => target,
        Err(e) => return Err((Leg::Left, e)),
    };
    let matched = match leg_target(&arb.matched) {
        Ok(target) => target,
        Err(e) => return Err((Leg::Right, e)),
    };
    if clock::is_closing(anchor.close_time_ms, now_ms, ADMISSION_CLOSE_GUARD_MS)
        || clock::is_closing(matched.close_time_ms, now_ms, ADMISSION_CLOSE_GUARD_MS) {
        return Ok(Admission::Refuse);
    }
    Ok(Admission::Subscribe(anchor, matched))
}

/// An arb that has come to be watched.
#[derive(Debug)]
pub struct Started {
    /// Both of its legs.
    pub pair: ArbMinifiedInfoPair,
    /// The subscriptions that nothing needs any longer.
    pub ended: Vec<Unsubscribe>,
}

/// Whether `r` and `after` are what a price message of Polymarket leads to.
pub open spec fn poly_quoted(
    w: Watching,
    quote: PolyQuote,
    timestamp: Seq<char>,
    after: Watching,
    r: Seq<String>,
) -> bool {
    let key = market_key(quote.asset_id@, Platform::Polymarket);
    match poly_tob(quote, timestamp) {
        Some(tob) => after == price_updated(w, key, tob) && walks(r, to_evaluate(w, key, tob)),
        None => after == w && r.len() == 0,
    }
}

/// Whether `r` and `after` are what a market ticker of Kalshi leads to.
pub open spec fn kalshi_quoted(
    w: Watching,
    ticker: KalshiTicker,
    after: Watching,
    r: Seq<String>,
) -> bool {
    let key = market_key(ticker.market_ticker@, Platform::Kalshi);
    if w.registry.contains_key(key) && kalshi_tob(ticker) is Some {
        let tob = kalshi_tob(ticker)->0;
        after == price_updated(w, key, tob) && walks(r, to_evaluate(w, key, tob))
    } else {
        after == w && r.len() == 0
    }
}

/// Whether `after` and the ended subscriptions are what an event in the life of a
/// Kalshi market leads to.
pub open spec fn lifecycle_handled(
    w: Watching,
    market_ticker: Seq<char>,
    event_type: Seq<char>,
    close_ts: Option<i64>,
    after: Watching,
    ended: Seq<(Platform, Seq<char>)>,
) -> bool {
    let key = market_key(market_ticker, Platform::Kalshi);
    match lifecycle_of(event_type) {
        Lifecycle::CloseDateUpdated => {
            &&& ended.len() == 0
            &&& after == match close_ts {
                Some(ts) => Watching {
                    registry: w.registry,
                    records: all_retimed(
                        w.records,
                        watchers(w.registry, key),
                        key,
                        (ts * 1_000) as i64,
                    ),
                    tobs: w.tobs,
                },
                None => w,
            }
        },
        Lifecycle::Ended => market_dropped(w, key, after, ended),
        Lifecycle::Other => after == w && ended.len() == 0,
    }
}

/// Whether `r` and `after` are what starting to watch an arb leads to, given whether
/// its legs could be subscribed to.
pub open spec fn watching_started(
    w: Watching,
    arb: Arb,
    cid: CorrelationId,
    anchor_subscribed: bool,
    match_subscribed: bool,
    r: Result<Option<Started>, ArbError>,
    after: Watching,
) -> bool {
    if !anchor_subscribed || !match_subscribed {
        &&& r == Ok::<Option<Started>, ArbError>(None)
        &&& after == w
    } else if arb_error(arb) is Some {
        &&& r == Err::<Option<Started>, ArbError>(arb_error(arb)->0)
        &&& after == w
    } else {
        &&& r matches Ok(Some(started))
        &&& pairs(started.pair, arb)
        &&& after == registered(w, ArbWatch { correlation_id: cid, arb: started.pair })
        &&& unsubscribe_views(started.ended@) == superseded(
            w,
            ArbWatch { correlation_id: cid, arb: started.pair },
        )
    }
}

/// An arb is watched only once both of its legs have been subscribed to.
pub proof fn half_subscribed_arbs_are_not_watched(
    w: Watching,
    arb: Arb,
    cid: CorrelationId,
    anchor_subscribed: bool,
    match_subscribed: bool,
    r: Result<Option<Started>, ArbError>,
    after: Watching,
)
    requires
        watching_started(w, arb, cid, anchor_subscribed, match_subscribed, r, after),
    ensures
        !anchor_subscribed || !match_subscribed ==> after == w && r is Ok && r->Ok_0 is None,
        r is Err || r->Ok_0 is None ==> after == w,
        r is Ok && r->Ok_0 is Some ==> anchor_subscribed && match_subscribed
            && after.records.contains_key(cid@) && after.records[cid@].correlation_id@ == cid@,
{
}

/// An arb that has come to be watched is a watcher of both of its legs under the keys
/// of their tokens: that under which prices and events of the tokens arrive.
pub proof fn started_arbs_are_watched_by_token(
    w: Watching,
    arb: Arb,
    cid: CorrelationId,
    started: Started,
    after: Watching,
)
    requires
        watching_started(
            w,
            arb,
            cid,
            true,
            true,
            Ok::<Option<Started>, ArbError>(Some(started)),
            after,
        ),
    ensures
        ({
            let (a, m) = (market_of(arb.anchor)->0, market_of(arb.matched)->0);
            &&& a.platform matches PlatformCode::Known(pa)
            &&& m.platform matches PlatformCode::Known(pm)
            &&& watchers(
                after.registry,
                market_key(arb.anchor->0.token_id@, pa),
            ).contains(cid@)
            &&& watchers(
                after.registry,
                market_key(arb.matched->0.token_id@, pm),
            ).contains(cid@)
            &&& after.records[cid@].arb.anchor.close_time_ms == a.close_time_ms
            &&& after.records[cid@].arb.matched.close_time_ms == m.close_time_ms
            &&& after.records[cid@].arb.anchor.platform == pa
            &&& after.records[cid@].arb.matched.platform == pm
            &&& after.records[cid@].arb.anchor.token_id@ == arb.anchor->0.token_id@
            &&& after.records[cid@].arb.matched.token_id@ == arb.matched->0.token_id@
            &&& after.records[cid@].arb.anchor.market_id@ == a.market_id@
            &&& after.records[cid@].arb.matched.market_id@ == m.market_id@
            &&& arb.anchor->0.discovery->0.leg == LegCode::Known(
                after.records[cid@].arb.anchor.leg,
            )
            &&& arb.matched->0.discovery->0.leg == LegCode::Known(
                after.records[cid@].arb.matched.leg,
            )
        }),
{
    let watch = ArbWatch { correlation_id: cid, arb: started.pair };
    register_watches_both_legs(w, watch, watch.arb.anchor.market_key@);
    register_watches_both_legs(w, watch, watch.arb.matched.market_key@);
}

/// A newer quote for a Polymarket token of a watched arb asks for the arb to be
/// evaluated, and becomes the token's top of book.
pub proof fn quotes_reach_the_arb(
    w: Watching,
    quote: PolyQuote,
    timestamp: Seq<char>,
    after: Watching,
    r: Seq<String>,
    cid: Seq<char>,
)
    requires
        poly_quoted(w, quote, timestamp, after, r),
        watchers(w.registry, market_key(quote.asset_id@, Platform::Polymarket)).contains(cid),
        quote.best_bid is Some,
        quote.best_ask is Some,
        text::i64_value(timestamp) is Some,
        ({
            let key = market_key(quote.asset_id@, Platform::Polymarket);
            w.tobs.contains_key(key) ==> w.tobs[key].tob_timestamp_ms < text::i64_value(
                timestamp,
            )->0
        }),
    ensures
        views(r).contains(cid),
        ({
            let key = market_key(quote.asset_id@, Platform::Polymarket);
            &&& after.tobs.contains_key(key)
            &&& Some(after.tobs[key].best_bid) == quote.best_bid
            &&& Some(after.tobs[key].best_ask) == quote.best_ask
            &&& after.tobs[key].spread == quote.spread
            &&& Some(after.tobs[key].tob_timestamp_ms) == text::i64_value(timestamp)
        }),
{
    assert(views(r).to_set().contains(cid));
}

/// A newer ticker of a Kalshi market of a watched arb asks for the arb to be
/// evaluated, and becomes the market's top of book, at the millisecond of its second.
pub proof fn tickers_reach_the_arb(
    w: Watching,
    ticker: KalshiTicker,
    after: Watching,
    r: Seq<String>,
    cid: Seq<char>,
)
    requires
        kalshi_quoted(w, ticker, after, r),
        watchers(w.registry, market_key(ticker.market_ticker@, Platform::Kalshi)).contains(cid),
        ticker.best_bid is Some,
        ticker.best_ask is Some,
        i64::MIN <= ticker.ts * 1_000 <= i64::MAX,
        ({
            let key = market_key(ticker.market_ticker@, Platform::Kalshi);
            w.tobs.contains_key(key) ==> w.tobs[key].tob_timestamp_ms < ticker.ts * 1_000
        }),
    ensures
        views(r).contains(cid),
        ({
            let key = market_key(ticker.market_ticker@, Platform::Kalshi);
            &&& after.tobs.contains_key(key)
            &&& Some(after.tobs[key].best_bid) == ticker.best_bid
            &&& Some(after.tobs[key].best_ask) == ticker.best_ask
            &&& ticker.bid_size is Some ==> Some(after.tobs[key].bid_size) == ticker.bid_size
            &&& ticker.ask_size is Some ==> Some(after.tobs[key].ask_size) == ticker.ask_size
            &&& ticker.bid_size is None ==> after.tobs[key].bid_size.bits == 0
            &&& ticker.ask_size is None ==> after.tobs[key].ask_size.bits == 0
            &&& after.tobs[key].spread == ticker.spread
            &&& after.tobs[key].tob_timestamp_ms == ticker.ts * 1_000
        }),
{
    assert(views(r).to_set().contains(cid));
}

/// Whether `r` is the request to execute a watched arb at the given prices and sizes.
pub open spec fn requested(
    w: Watching,
    cid: Seq<char>,
    anchor_ws_price: Dec,
    match_ws_price: Dec,
    anchor_ws_size: Dec,
    match_ws_size: Dec,
    r: Option<ExecutionRequest>,
) -> bool {
    &&& r is Some <==> w.records.contains_key(cid)
    &&& r matches Some(request) ==> {
        &&& request.correlation_id@ == cid
        &&& request.anchor == w.records[cid].arb.anchor
        &&& request.matched == w.records[cid].arb.matched
        &&& request.anchor_ws_price == anchor_ws_price
        &&& request.match_ws_price == match_ws_price
        &&& request.anchor_ws_size == anchor_ws_size
        &&& request.match_ws_size == match_ws_size
    }
}

/// A request is made exactly for a watched arb; it trades the arb's own legs, each at its
/// own price and size.
pub proof fn requests_trade_the_watched_legs(
    w: Watching,
    cid: Seq<char>,
    anchor_ws_price: Dec,
    match_ws_price: Dec,
    anchor_ws_size: Dec,
    match_ws_size: Dec,
    r: Option<ExecutionRequest>,
)
    requires
        requested(w, cid, anchor_ws_price, match_ws_price, anchor_ws_size, match_ws_size, r),
    ensures
        r is Some <==> w.records.contains_key(cid),
        r matches Some(request) ==> {
            let arb = w.records[cid].arb;
            &&& request.correlation_id@ == cid
            &&& request.anchor.token_id@ == arb.anchor.token_id@
            &&& request.anchor.platform == arb.anchor.platform
            &&& request.anchor.leg == arb.anchor.leg
            &&& request.matched.token_id@ == arb.matched.token_id@
            &&& request.matched.platform == arb.matched.platform
            &&& request.matched.leg == arb.matched.leg
            &&& request.anchor_ws_price@ == anchor_ws_price@
            &&& request.anchor_ws_size@ == anchor_ws_size@
            &&& request.match_ws_price@ == match_ws_price@
            &&& request.match_ws_size@ == match_ws_size@
        },
{
}

/// No price asks for an arb to be evaluated that does not watch the market.
pub proof fn only_watchers_are_evaluated(
    w: Watching,
    quote: PolyQuote,
    timestamp: Seq<char>,
    ticker: KalshiTicker,
    after: Watching,
    r: Seq<String>,
    i: int,
)
    requires
        0 <= i < r.len(),
    ensures
        poly_quoted(w, quote, timestamp, after, r) ==> watchers(
            w.registry,
            market_key(quote.asset_id@, Platform::Polymarket),
        ).contains(r[i]@),
        kalshi_quoted(w, ticker, after, r) ==> watchers(
            w.registry,
            market_key(ticker.market_ticker@, Platform::Kalshi),
        ).contains(r[i]@),
{
    assert(views(r)[i] == r[i]@);
    assert(views(r).to_set().contains(r[i]@));
}

/// A quote that is not newer than what is known, or that could not be read, changes
/// nothing and asks for nothing; no quote touches another market.
pub proof fn stale_quotes_change_nothing(
    w: Watching,
    quote: PolyQuote,
    timestamp: Seq<char>,
    after: Watching,
    r: Seq<String>,
    other: Seq<char>,
)
    requires
        poly_quoted(w, quote, timestamp, after, r),
    ensures
        ({
            let key = market_key(quote.asset_id@, Platform::Polymarket);
            &&& w.tobs.contains_key(key) && (text::i64_value(timestamp) matches Some(ms)
                && ms <= w.tobs[key].tob_timestamp_ms) ==> after == w && r.len() == 0
            &&& quote.best_bid is None || quote.best_ask is None || text::i64_value(timestamp)
                is None ==> after == w && r.len() == 0
            &&& after.registry == w.registry && after.records == w.records
            &&& other != key ==> (after.tobs.contains_key(other) <==> w.tobs.contains_key(other))
            &&& other != key && w.tobs.contains_key(other) ==> after.tobs[other] == w.tobs[other]
        }),
{
    lemma_walks_nothing(r);
}

/// A ticker that is not newer than what is known, that could not be read, or whose
/// market nobody watches changes nothing and asks for nothing; no ticker touches
/// another market.
pub proof fn stale_tickers_change_nothing(
    w: Watching,
    ticker: KalshiTicker,
    after: Watching,
    r: Seq<String>,
    other: Seq<char>,
)
    requires
        kalshi_quoted(w, ticker, after, r),
        i64::MIN <= ticker.ts * 1_000 <= i64::MAX,
    ensures
        ({
            let key = market_key(ticker.market_ticker@, Platform::Kalshi);
            &&& w.tobs.contains_key(key) && ticker.ts * 1_000 <= w.tobs[key].tob_timestamp_ms
                ==> after == w && r.len() == 0
            &&& ticker.best_bid is None || ticker.best_ask is None || !w.registry.contains_key(key)
                ==> after == w && r.len() == 0
            &&& after.registry == w.registry && after.records == w.records
            &&& other != key ==> (after.tobs.contains_key(other) <==> w.tobs.contains_key(other))
            &&& other != key && w.tobs.contains_key(other) ==> after.tobs[other] == w.tobs[other]
        }),
{
    lemma_walks_nothing(r);
}

proof fn lemma_walks_nothing(r: Seq<String>)
    ensures
        walks(r, Set::<Seq<char>>::empty()) ==> r.len() == 0,
{
    if r.len() > 0 {
        assert(views(r)[0] == r[0]@);
        assert(views(r).to_set().contains(r[0]@));
    }
}

/// Once a Polymarket token is resolved, or a Kalshi market is determined, settled or
/// deactivated, no arb with a leg on it is watched any longer.
pub proof fn ended_markets_lose_their_arbs(
    w: Watching,
    token: Seq<char>,
    assets: Seq<Seq<char>>,
    event_type: Seq<char>,
    close_ts: Option<i64>,
    after: Watching,
    ended: Seq<(Platform, Seq<char>)>,
    cid: Seq<char>,
)
    requires
        in_sync(w),
    ensures
        markets_dropped(w, assets, after, ended) && assets.contains(token) && watchers(
            w.registry,
            market_key(token, Platform::Polymarket),
        ).contains(cid) ==> !after.records.contains_key(cid),
        lifecycle_handled(w, token, event_type, close_ts, after, ended) && (event_type
            == "determined"@ || event_type == "settled"@ || event_type == "deactivated"@)
            && watchers(w.registry, market_key(token, Platform::Kalshi)).contains(cid)
            ==> !after.records.contains_key(cid),
{
    lemma_event_types();
    if markets_dropped(w, assets, after, ended) && assets.contains(token) && watchers(
        w.registry,
        market_key(token, Platform::Polymarket),
    ).contains(cid) {
        let order = choose|order: Seq<Seq<char>>|
            {
                &&& names_watchers(order, w, assets)
                &&& after == #[trigger] all_unregistered(w, order)
                &&& ended == all_unsubscribed(w, order)
            };
        let i = choose|i: int| 0 <= i < assets.len() && assets[i] == token;
        assert(watchers(
            w.registry,
            market_key(assets[i], Platform::Polymarket),
        ).contains(cid));
        assert(watches_one_of(w, assets, cid));
        unregister_all_removes(w, order, Seq::empty());
    }
    let key = market_key(token, Platform::Kalshi);
    if market_dropped(w, key, after, ended) && watchers(w.registry, key).contains(cid) {
        let order = choose|order: Seq<Seq<char>>|
            {
                &&& order.no_duplicates()
                &&& order.to_set() == watchers(w.registry, key)
                &&& after == #[trigger] all_unregistered(w, order)
                &&& ended == all_unsubscribed(w, order)
            };
        assert(order.to_set().contains(cid));
        unregister_all_removes(w, order, Seq::empty());
    }
}

/// An arb without a leg on any market that ended stays watched as it was.
pub proof fn other_arbs_stay_watched(
    w: Watching,
    token: Seq<char>,
    assets: Seq<Seq<char>>,
    event_type: Seq<char>,
    close_ts: Option<i64>,
    after: Watching,
    ended: Seq<(Platform, Seq<char>)>,
    cid: Seq<char>,
)
    requires
        in_sync(w),
        w.records.contains_key(cid),
    ensures
        markets_dropped(w, assets, after, ended) && (forall|i: int|
            0 <= i < assets.len() ==> !has_leg(
                w.records[cid],
                market_key(#[trigger] assets[i], Platform::Polymarket),
            )) ==> after.records.contains_key(cid) && after.records[cid] == w.records[cid],
        lifecycle_handled(w, token, event_type, close_ts, after, ended) && !has_leg(
            w.records[cid],
            market_key(token, Platform::Kalshi),
        ) ==> after.records.contains_key(cid) && after.records[cid] == w.records[cid],
{
    let key = market_key(token, Platform::Kalshi);
    if markets_dropped(w, assets, after, ended) && (forall|i: int|
        0 <= i < assets.len() ==> !has_leg(
            w.records[cid],
            market_key(#[trigger] assets[i], Platform::Polymarket),
        )) {
        let order = choose|order: Seq<Seq<char>>|
            {
                &&& names_watchers(order, w, assets)
                &&& after == #[trigger] all_unregistered(w, order)
                &&& ended == all_unsubscribed(w, order)
            };
        unregister_all_removes(w, order, Seq::empty());
        if order.contains(cid) {
            assert(watches_one_of(w, assets, cid));
        }
    }
    if lifecycle_handled(w, token, event_type, close_ts, after, ended) && !has_leg(
        w.records[cid],
        key,
    ) {
        assert(!watchers(w.registry, key).contains(cid));
        if lifecycle_of(event_type) is Ended {
            let order = choose|order: Seq<Seq<char>>|
                {
                    &&& order.no_duplicates()
                    &&& order.to_set() == watchers(w.registry, key)
                    &&& after == #[trigger] all_unregistered(w, order)
                    &&& ended == all_unsubscribed(w, order)
                };
            unregister_all_removes(w, order, Seq::empty());
            if order.contains(cid) {
                assert(order.to_set().contains(cid));
            }
        }
    }
}

proof fn lemma_event_types()
    ensures
        "determined"@ != "close_date_updated"@,
        "settled"@ != "close_date_updated"@,
        "deactivated"@ != "close_date_updated"@,
{
    reveal_strlit("determined");
    reveal_strlit("settled");
    reveal_strlit("deactivated");
    reveal_strlit("close_date_updated");
    assert("determined"@.len() == 10);
    assert("settled"@.len() == 7);
    assert("deactivated"@.len() == 11);
    assert("close_date_updated"@.len() == 18);
}

/// A new closing time in seconds is noted in milliseconds on exactly the legs that are
/// on the market, and changes nothing else.
pub proof fn new_closing_times_are_noted(
    w: Watching,
    market_ticker: Seq<char>,
    ts: i64,
    after: Watching,
    ended: Seq<(Platform, Seq<char>)>,
    cid: Seq<char>,
)
    requires
        in_sync(w),
        lifecycle_handled(w, market_ticker, "close_date_updated"@, Some(ts), after, ended),
        i64::MIN <= ts * 1_000 <= i64::MAX,
        w.records.contains_key(cid),
    ensures
        ended.len() == 0,
        after.registry == w.registry,
        after.tobs == w.tobs,
        after.records.contains_key(cid),
        ({
            let key = market_key(market_ticker, Platform::Kalshi);
            let (before, now) = (w.records[cid].arb, after.records[cid].arb);
            &&& now.anchor.market_key@ == before.anchor.market_key@
            &&& now.matched.market_key@ == before.matched.market_key@
            &&& before.anchor.market_key@ == key ==> now.anchor.close_time_ms == ts * 1_000
            &&& before.anchor.market_key@ != key ==> now.anchor == before.anchor
            &&& before.matched.market_key@ == key ==> now.matched.close_time_ms == ts * 1_000
            &&& before.matched.market_key@ != key ==> now.matched == before.matched
            &&& now.scored == before.scored
        }),
{
    let key = market_key(market_ticker, Platform::Kalshi);
    if has_leg(w.records[cid], key) {
        assert(watchers(w.registry, key).contains(cid));
    }
}

/// An event of any other type changes nothing.
pub proof fn other_events_change_nothing(
    w: Watching,
    market_ticker: Seq<char>,
    event_type: Seq<char>,
    close_ts: Option<i64>,
    after: Watching,
    ended: Seq<(Platform, Seq<char>)>,
)
    requires
        lifecycle_handled(w, market_ticker, event_type, close_ts, after, ended),
        event_type != "determined"@,
        event_type != "settled"@,
        event_type != "deactivated"@,
        event_type != "close_date_updated"@ || close_ts is None,
    ensures
        after == w,
        ended.len() == 0,
{
}

/// Once a market is no longer traded, it is no longer registered and no watched
/// arb has it as a leg.
pub proof fn dropped_market_is_not_watched(
    w: Watching,
    key: Seq<char>,
    after: Watching,
    ended: Seq<(Platform, Seq<char>)>,
)
    requires
        in_sync(w),
        market_dropped(w, key, after, ended),
    ensures
        in_sync(after),
        !after.registry.contains_key(key),
        forall|cid: Seq<char>| #[trigger]
            after.records.contains_key(cid) ==> !has_leg(after.records[cid], key),
{
    let order = choose|order: Seq<Seq<char>>|
        {
            &&& order.no_duplicates()
            &&& order.to_set() == watchers(w.registry, key)
            &&& after == #[trigger] all_unregistered(w, order)
            &&& ended == all_unsubscribed(w, order)
        };
    dropped_market_is_gone(w, key, order);
}

/// Once assets are resolved, none of them is registered any longer and no watched
/// arb has one of them as a leg.
pub proof fn resolved_assets_are_not_watched(
    w: Watching,
    assets: Seq<Seq<char>>,
    after: Watching,
    ended: Seq<(Platform, Seq<char>)>,
    i: int,
)
    requires
        in_sync(w),
        markets_dropped(w, assets, after, ended),
        0 <= i < assets.len(),
    ensures
        in_sync(after),
        !after.registry.contains_key(market_key(assets[i], Platform::Polymarket)),
        forall|cid: Seq<char>| #[trigger]
            after.records.contains_key(cid) ==> !has_leg(
                after.records[cid],
                market_key(assets[i], Platform::Polymarket),
            ),
{
    let key = market_key(assets[i], Platform::Polymarket);
    let order = choose|order: Seq<Seq<char>>|
        {
            &&& names_watchers(order, w, assets)
            &&& after == #[trigger] all_unregistered(w, order)
            &&& ended == all_unsubscribed(w, order)
        };
    assert forall|cid: Seq<char>| #[trigger]
        watchers(w.registry, key).contains(cid) implies order.contains(cid) by {
        assert(watchers(
            w.registry,
            market_key(assets[i], Platform::Polymarket),
        ).contains(cid));
        assert(watches_one_of(w, assets, cid));
    }
    watched_by_none_is_gone(w, key, order);
}

/// No price update, whatever it says, makes a known top of book older or
/// disappear.
pub proof fn prices_never_go_back(w: Watching, key: Seq<char>, tob: TopOfBook, other: Seq<char>)
    requires
        w.tobs.contains_key(other),
    ensures
        price_updated(w, key, tob).tobs.contains_key(other),
        price_updated(w, key, tob).tobs[other].tob_timestamp_ms
            >= w.tobs[other].tob_timestamp_ms,
{
}

/// A price update leaves the indexes as they are.
pub proof fn price_update_keeps_sync(w: Watching, key: Seq<char>, tob: TopOfBook)
    requires
        in_sync(w),
    ensures
        in_sync(price_updated(w, key, tob)),
{
}

/// A new closing time leaves the indexes in sync and the ids and markets of every
/// arb as they are.
pub proof fn retime_keeps_sync(w: Watching, key: Seq<char>, close_time_ms: i64)
    requires
        in_sync(w),
    ensures
        in_sync(
            (Watching {
                registry: w.registry,
                records: all_retimed(
                    w.records,
                    watchers(w.registry, key),
                    key,
                    close_time_ms,
                ),
                tobs: w.tobs,
            }),
        ),
{
    let records = all_retimed(w.records, watchers(w.registry, key), key, close_time_ms);
    let after = Watching { registry: w.registry, records, tobs: w.tobs };
    assert forall|cid: Seq<char>, k: Seq<char>|
        after.records.contains_key(cid) && #[trigger] has_leg(
            after.records[cid],
            k,
        ) implies watchers(after.registry, k).contains(cid) by {
        assert(has_leg(w.records[cid], k));
    }
}

/// A new closing time reaches every leg on the market: afterwards each watched
/// arb closes on that market at the new time.
pub proof fn retime_reaches_every_leg(
    w: Watching,
    key: Seq<char>,
    close_time_ms: i64,
    cid: Seq<char>,
)
    requires
        in_sync(w),
        w.records.contains_key(cid),
    ensures
        ({
            let cids = watchers(w.registry, key);
            let arb = all_retimed(w.records, cids, key, close_time_ms)[cid].arb;
            &&& arb.anchor.market_key@ == key ==> arb.anchor.close_time_ms == close_time_ms
            &&& arb.matched.market_key@ == key ==> arb.matched.close_time_ms == close_time_ms
        }),
{
    if has_leg(w.records[cid], key) {
        assert(watchers(w.registry, key).contains(cid));
    }
}

impl PickerComms {
    /// Watches nothing.
    pub fn new() -> (r: Self)
        ensures
            r@ == (Watching {
                registry: Map::<Seq<char>, Set<Seq<char>>>::empty(),
                records: Map::<Seq<char>, ArbWatch>::empty(),
                tobs: Map::<Seq<char>, TopOfBook>::empty(),
            }),
            in_sync(r@),
    {
        let r = PickerComms { book: Book::new(), top_of_book: StringHashMap::new() };
        assert(registry_view(r.book.registry@) =~= Map::<Seq<char>, Set<Seq<char>>>::empty());
        r
    }

    /// Whether some arb has the market as a leg.
    pub fn is_watched(&self, key: &str) -> (r: bool)
        ensures
            r == self@.registry.contains_key(key@),
    {
        self.book.registry.contains_key(key)
    }

    /// The latest top of book of the market.
    pub fn top_of_book(&self, key: &str) -> (r: Option<TopOfBook>)
        ensures
            match r {
                Some(tob) => self@.tobs.contains_key(key@) && tob == self@.tobs[key@],
                None => !self@.tobs.contains_key(key@),
            },
    {
        match self.top_of_book.get(key) {
            Some(tob) => Some(*tob),
            None => None,
        }
    }

    /// The watched arb with this id.
    pub fn record(&self, cid: &str) -> (r: Option<&ArbWatch>)
        ensures
            match r {
                Some(watch) => self@.records.contains_key(cid@) && *watch == self@.records[cid@],
                None => !self@.records.contains_key(cid@),
            },
    {
        self.book.records.get(cid)
    }

    /// Starts watching an arb. One that is watched already leaves the legs that it
    /// no longer has; gives the subscriptions that nothing needs any longer.
    pub fn register_arb(&mut self, watch: ArbWatch) -> (r: Vec<Unsubscribe>)
        ensures
            final(self)@ == registered(old(self)@, watch),
            unsubscribe_views(r@) == superseded(old(self)@, watch),
            in_sync(old(self)@) ==> in_sync(final(self)@),
            in_sync(old(self)@) ==> forall|key: Seq<char>| #[trigger]
                watchers(final(self)@.registry, key).contains(watch.correlation_id@) <==> has_leg(
                    watch,
                    key,
                ),
    {
        let cid = watch.correlation_id.clone();
        let mut ended: Vec<Unsubscribe> = Vec::new();
        assert(unsubscribe_views(ended@) =~= Seq::empty());
        let before = match self.book.records.get(cid.as_str()) {
            Some(before) => Some(before.clone()),
            None => None,
        };
        if let Some(before) = before {
            self.move_off_leg(&before.arb.anchor, &watch, &mut ended);
            self.move_off_leg(&before.arb.matched, &watch, &mut ended);
        }
        assert(unsubscribe_views(ended@) =~= superseded(old(self)@, watch));
        assert(self@ == vacated(old(self)@, watch));
        self.book.join(watch.arb.anchor.market_key.as_str(), cid.as_str());
        self.book.join(watch.arb.matched.market_key.as_str(), cid.as_str());
        self.book.records.insert(cid, watch);
        proof {
            if in_sync(old(self)@) {
                register_keeps_sync(old(self)@, watch);
            }
        }
        ended
    }

    fn move_off_leg(
        &mut self,
        leg: &ArbMinifiedInfo,
        watch: &ArbWatch,
        ended: &mut Vec<Unsubscribe>,
    )
        ensures
            final(self)@ == moved_off(old(self)@, *leg, *watch),
            unsubscribe_views(final(ended)@) == unsubscribe_views(old(ended)@) + move_off(
                old(self)@,
                *leg,
                *watch,
            ),
    {
        let key = leg.market_key.as_str();
        if text::same(key, watch.arb.anchor.market_key.as_str()) || text::same(
            key,
            watch.arb.matched.market_key.as_str(),
        ) {
            assert(unsubscribe_views(ended@) =~= unsubscribe_views(old(ended)@) + Seq::empty());
        } else {
            self.drop_leg(leg, watch.correlation_id.as_str(), ended);
        }
    }

    fn drop_leg(&mut self, leg: &ArbMinifiedInfo, cid: &str, ended: &mut Vec<Unsubscribe>)
        ensures
            final(self)@ == departed(old(self)@, leg.market_key@, cid@),
            unsubscribe_views(final(ended)@) == unsubscribe_views(old(ended)@) + departure(
                old(self)@,
                *leg,
                cid@,
            ),
    {
        let key = leg.market_key.as_str();
        if self.book.leave(key, cid) {
            self.top_of_book.remove(key);
            ended.push(Unsubscribe { platform: leg.platform, token_id: leg.token_id.clone() });
            assert(unsubscribe_views(ended@) =~= unsubscribe_views(old(ended)@) + seq![
                (leg.platform, leg.token_id@),
            ]);
        } else {
            assert(unsubscribe_views(ended@) =~= unsubscribe_views(old(ended)@) + Seq::empty());
        }
    }

    fn unregister_into(&mut self, cid: &str, ended: &mut Vec<Unsubscribe>)
        ensures
            final(self)@ == unregistered(old(self)@, cid@),
            unsubscribe_views(final(ended)@) == unsubscribe_views(old(ended)@) + unsubscribed(
                old(self)@,
                cid@,
            ),
    {
        let watch = match self.book.records.get(cid) {
            Some(watch) => watch.clone(),
            None => {
                assert(unsubscribe_views(ended@) =~= unsubscribe_views(old(ended)@)
                    + Seq::empty());
                return;
            },
        };
        self.book.records.remove(cid);
        assert(self@ == forgotten(old(self)@, cid@));
        self.drop_leg(&watch.arb.anchor, cid, ended);
        self.drop_leg(&watch.arb.matched, cid, ended);
        assert(unsubscribe_views(ended@) =~= unsubscribe_views(old(ended)@) + unsubscribed(
            old(self)@,
            cid@,
        ));
    }

    /// Stops watching an arb; gives the subscriptions that nothing needs any
    /// longer.
    pub fn unregister_arb(&mut self, cid: &str) -> (r: Vec<Unsubscribe>)
        ensures
            final(self)@ == unregistered(old(self)@, cid@),
            unsubscribe_views(r@) == unsubscribed(old(self)@, cid@),
            in_sync(old(self)@) ==> in_sync(final(self)@),
    {
        let mut ended: Vec<Unsubscribe> = Vec::new();
        self.unregister_into(cid, &mut ended);
        proof {
            if in_sync(old(self)@) {
                unregister_keeps_sync(old(self)@, cid@);
            }
        }
        assert(unsubscribe_views(Seq::<Unsubscribe>::empty()) =~= Seq::empty());
        assert(unsubscribe_views(ended@) =~= unsubscribed(old(self)@, cid@));
        ended
    }

    fn watchers_of(&self, key: &str) -> (r: Vec<String>)
        ensures
            walks(r@, watchers(self@.registry, key@)),
    {
        match self.book.registry.get(key) {
            Some(ids) => {
                    ids.to_vec()
            },
            None => {
                let r: Vec<String> = Vec::new();
                assert(views(r@) =~= Seq::<Seq<char>>::empty());
                assert(views(r@).to_set() =~= Set::<Seq<char>>::empty());
                r
            },
        }
    }

    fn drop_market_into(&mut self, key: &str, ended: &mut Vec<Unsubscribe>) -> (order: Ghost<
        Seq<Seq<char>>,
    >)
        ensures
            order@.no_duplicates(),
            order@.to_set() == watchers(old(self)@.registry, key@),
            final(self)@ == all_unregistered(old(self)@, order@),
            unsubscribe_views(final(ended)@) == unsubscribe_views(old(ended)@)
                + all_unsubscribed(old(self)@, order@),
    {
        let cids = self.watchers_of(key);
        let ghost order = views(cids@);
        let ghost start = self@;
        let ghost before = unsubscribe_views(ended@);
        assert(order.take(0) =~= Seq::<Seq<char>>::empty());
        assert(before + Seq::<(Platform, Seq<char>)>::empty() =~= before);
        let mut i: usize = 0;
        while i < cids.len()
            invariant
                i <= cids@.len(),
                order == views(cids@),
                self@ == all_unregistered(start, order.take(i as int)),
                unsubscribe_views(ended@) == before + all_unsubscribed(
                    start,
                    order.take(i as int),
                ),
            decreases cids@.len() - i,
        {
            self.unregister_into(cids[i].as_str(), ended);
            proof {
                let next = order.take(i + 1);
                assert(next.drop_last() =~= order.take(i as int));
                assert(next.last() == cids@[i as int]@);
                assert(unsubscribe_views(ended@) =~= before + all_unsubscribed(start, next));
            }
            i += 1;
        }
        assert(order.take(order.len() as int) =~= order);
        Ghost(order)
    }

    /// Stops watching every arb that has the market as a leg.
    pub fn drop_market(&mut self, key: &str) -> (r: Vec<Unsubscribe>)
        ensures
            market_dropped(old(self)@, key@, final(self)@, unsubscribe_views(r@)),
            in_sync(old(self)@) ==> in_sync(final(self)@),
    {
        let mut ended: Vec<Unsubscribe> = Vec::new();
        assert(unsubscribe_views(ended@) =~= Seq::empty());
        let Ghost(order) = self.drop_market_into(key, &mut ended);
        proof {
            unregister_all_removes(old(self)@, order, key@);
        }
        assert(unsubscribe_views(ended@) =~= all_unsubscribed(old(self)@, order));
        ended
    }

    /// Stops watching every arb that has one of the resolved assets as a leg.
    pub fn on_market_resolved(&mut self, asset_ids: &Vec<String>) -> (r: Vec<Unsubscribe>)
        ensures
            markets_dropped(
                old(self)@,
                views(asset_ids@),
                final(self)@,
                unsubscribe_views(r@),
            ),
            in_sync(old(self)@) ==> in_sync(final(self)@),
    {
        let ghost start = self@;
        let ghost mut order: Seq<Seq<char>> = Seq::empty();
        let mut ended: Vec<Unsubscribe> = Vec::new();
        assert(unsubscribe_views(ended@) =~= Seq::empty());
        let mut i: usize = 0;
        while i < asset_ids.len()
            invariant
                i <= asset_ids@.len(),
                self@ == all_unregistered(start, order),
                unsubscribe_views(ended@) == all_unsubscribed(start, order),
                names_watchers(order, start, views(asset_ids@).take(i as int)),
            decreases asset_ids@.len() - i,
        {
            let key = models::make_market_key(asset_ids[i].as_str(), Platform::Polymarket);
            let Ghost(more) = self.drop_market_into(key.as_str(), &mut ended);
            proof {
                lemma_more_dropped(start, order, more, views(asset_ids@), i as int);
                unregister_in_steps(start, order, more);
                order = order + more;
            }
            i += 1;
        }
        assert(views(asset_ids@).take(asset_ids@.len() as int) =~= views(asset_ids@));
        proof {
            unregister_all_removes(start, order, Seq::empty());
        }
        ended
    }

    /// Notes a newer top of book of a market; gives the arbs to evaluate.
    pub fn on_price_update(&mut self, key: MarketKey, tob: TopOfBook) -> (r: Vec<CorrelationId>)
        ensures
            final(self)@ == price_updated(old(self)@, key@, tob),
            in_sync(old(self)@) ==> in_sync(final(self)@),
            walks(r@, to_evaluate(old(self)@, key@, tob)),
    {
        let stale = match self.top_of_book.get(key.as_str()) {
            Some(existing) => tob.tob_timestamp_ms <= existing.tob_timestamp_ms,
            None => false,
        };
        if stale {
            let r: Vec<String> = Vec::new();
            assert(views(r@) =~= Seq::<Seq<char>>::empty());
            assert(views(r@).to_set() =~= Set::<Seq<char>>::empty());
            return r;
        }
        let r = self.watchers_of(key.as_str());
        self.top_of_book.insert(key, tob);
        r
    }

    /// Notes what Polymarket says of the price of an asset; gives the arbs to
    /// evaluate. A quote that could not be read is skipped.
    pub fn on_poly_quote(&mut self, quote: &PolyQuote, timestamp: &str) -> (r: Vec<CorrelationId>)
        ensures
            in_sync(old(self)@) ==> in_sync(final(self)@),
            poly_quoted(old(self)@, *quote, timestamp@, final(self)@, r@),
    {
        let best_bid = match quote.best_bid {
            Some(bits) => bits,
            None => return Vec::new(),
        };
        let best_ask = match quote.best_ask {
            Some(bits) => bits,
            None => return Vec::new(),
        };
        let tob_timestamp_ms: i64 = match text::parse_i64(timestamp) {
            Some(ms) => ms,
            None => return Vec::new(),
        };
        self.on_price_update(
            models::make_market_key(quote.asset_id.as_str(), Platform::Polymarket),
            TopOfBook {
                best_bid,
                bid_size: F32Bits { bits: 0 },
                best_ask,
                ask_size: F32Bits { bits: 0 },
                spread: quote.spread,
                tob_timestamp_ms,
                sid: None,
            },
        )
    }

    /// Notes what Kalshi says of the price of a market; gives the arbs to
    /// evaluate. A market that nobody watches and prices that could not be read
    /// are skipped.
    pub fn on_kalshi_ticker(&mut self, ticker: &KalshiTicker) -> (r: Vec<CorrelationId>)
        requires
            old(self)@.registry.contains_key(market_key(ticker.market_ticker@, Platform::Kalshi))
                && ticker.best_bid is Some && ticker.best_ask is Some ==> i64::MIN <= ticker.ts
                * 1_000 <= i64::MAX,
        ensures
            in_sync(old(self)@) ==> in_sync(final(self)@),
            kalshi_quoted(old(self)@, *ticker, final(self)@, r@),
    {
        let key = models::make_market_key(ticker.market_ticker.as_str(), Platform::Kalshi);
        if !self.is_watched(key.as_str()) {
            return Vec::new();
        }
        let best_bid = match ticker.best_bid {
            Some(bits) => bits,
            None => return Vec::new(),
        };
        let best_ask = match ticker.best_ask {
            Some(bits) => bits,
            None => return Vec::new(),
        };
        self.on_price_update(
            key,
            TopOfBook {
                best_bid,
                bid_size: bits_or_zero(ticker.bid_size),
                best_ask,
                ask_size: bits_or_zero(ticker.ask_size),
                spread: ticker.spread,
                tob_timestamp_ms: ticker.ts * 1_000,
                sid: Some(ticker.sid),
            },
        )
    }

    fn retime(&mut self, key: &str, close_time_ms: i64)
        ensures
            final(self)@ == (Watching {
                registry: old(self)@.registry,
                records: all_retimed(
                    old(self)@.records,
                    watchers(old(self)@.registry, key@),
                    key@,
                    close_time_ms,
                ),
                tobs: old(self)@.tobs,
            }),
    {
        let cids = self.watchers_of(key);
        let ghost order = views(cids@);
        let ghost start = self@;
        assert(order.take(0).to_set() =~= Set::<Seq<char>>::empty());
        assert(self.book.records@ =~= all_retimed(
            start.records,
            order.take(0).to_set(),
            key@,
            close_time_ms,
        ));
        let mut i: usize = 0;
        while i < cids.len()
            invariant
                i <= cids@.len(),
                order == views(cids@),
                order.no_duplicates(),
                self@.registry == start.registry,
                self@.tobs == start.tobs,
                self.book.records@ == all_retimed(
                    start.records,
                    order.take(i as int).to_set(),
                    key@,
                    close_time_ms,
                ),
            decreases cids@.len() - i,
        {
            let cid = cids[i].as_str();
            let ghost done = order.take(i as int).to_set();
            let ghost now_done = order.take(i + 1).to_set();
            proof {
                assert(order.take(i + 1) =~= order.take(i as int).push(cid@));
                assert(order[i as int] == cid@);
                assert(now_done =~= done.insert(cid@)) by {
                    let a = order.take(i as int);
                    assert forall|x: Seq<char>| #[trigger]
                        now_done.contains(x) <==> done.insert(cid@).contains(x) by {
                        if a.contains(x) {
                            let j = choose|j: int| 0 <= j < a.len() && a[j] == x;
                            assert(a.push(cid@)[j] == x);
                        }
                        assert(a.push(cid@)[a.len() as int] == cid@);
                    }
                }
                assert(!done.contains(cid@)) by {
                    if done.contains(cid@) {
                        let a = order.take(i as int);
                        let j = choose|j: int| 0 <= j < a.len() && a[j] == cid@;
                        assert(order[j] == order[i as int]);
                    }
                }
            }
            if let Some(watch) = self.book.records.get(cid) {
                let mut watch = watch.clone();
                if text::same(watch.arb.anchor.market_key.as_str(), key) {
                    watch.arb.anchor.close_time_ms = close_time_ms;
                }
                if text::same(watch.arb.matched.market_key.as_str(), key) {
                    watch.arb.matched.close_time_ms = close_time_ms;
                }
                assert(watch == retimed(start.records[cid@], key@, close_time_ms));
                self.book.records.insert(cid.to_owned(), watch);
            }
            assert(self.book.records@ =~= all_retimed(
                start.records,
                now_done,
                key@,
                close_time_ms,
            ));
            i += 1;
        }
        assert(order.take(order.len() as int) =~= order);
    }

    /// Deals with an event in the life of a Kalshi market: a new closing time is
    /// noted on every leg on the market, and the arbs on a market that is no
    /// longer traded are dropped. Gives the subscriptions that nothing needs any
    /// longer.
    pub fn on_kalshi_lifecycle(
        &mut self,
        market_ticker: &str,
        event_type: &str,
        close_ts: Option<i64>,
    ) -> (r: Vec<Unsubscribe>)
        requires
            old(self)@.registry.contains_key(market_key(market_ticker@, Platform::Kalshi))
                && lifecycle_of(event_type@) is CloseDateUpdated && close_ts is Some ==> i64::MIN
                <= close_ts->0 * 1_000 <= i64::MAX,
        ensures
            in_sync(old(self)@) ==> in_sync(final(self)@),
            lifecycle_handled(
                old(self)@,
                market_ticker@,
                event_type@,
                close_ts,
                final(self)@,
                unsubscribe_views(r@),
            ),
    {
        let key = models::make_market_key(market_ticker, Platform::Kalshi);
        match lifecycle(event_type) {
            Lifecycle::CloseDateUpdated => {
                if let Some(ts) = close_ts {
                    if self.is_watched(key.as_str()) {
                        self.retime(key.as_str(), ts * 1_000);
                        proof {
                            if in_sync(old(self)@) {
                                retime_keeps_sync(old(self)@, key@, (ts * 1_000) as i64);
                            }
                        }
                    } else {
                        assert(all_retimed(
                            self@.records,
                            Set::empty(),
                            key@,
                            (ts * 1_000) as i64,
                        ) =~= self@.records);
                    }
                }
                let none: Vec<Unsubscribe> = Vec::new();
                assert(unsubscribe_views(none@) =~= Seq::empty());
                none
            },
            Lifecycle::Ended => self.drop_market(key.as_str()),
            Lifecycle::Other => {
                let none: Vec<Unsubscribe> = Vec::new();
                assert(unsubscribe_views(none@) =~= Seq::empty());
                none
            },
        }
    }

    /// Decides whether an arb may be executed as far as guards, closing times and
    /// known prices go, and gives the quotes to price it with.
    pub fn evaluate_arb(&self, cid: &str, guards: &mut Guards, now: u128, now_ms: i64) -> (r:
        Option<Quotes>)
        ensures
            evaluated(self@, cid@, old(guards)@, old(guards).length(), now, now_ms, r),
            final(guards)@ == guards::looked_at(old(guards)@, cid@, old(guards).length(), now),
            final(guards).length() == old(guards).length(),
    {
        if guards.check(cid, now) {
            return None;
        }
        let watch = match self.book.records.get(cid) {
            Some(watch) => watch,
            None => return None,
        };
        let anchor_close = watch.arb.anchor.close_time_ms;
        let match_close = watch.arb.matched.close_time_ms;
        if clock::has_date(anchor_close) && clock::has_date(match_close) && (clock::is_closing(
            anchor_close,
            now_ms,
            EXECUTION_CLOSE_GUARD_MS,
        ) || clock::is_closing(match_close, now_ms, EXECUTION_CLOSE_GUARD_MS)) {
            return None;
        }
        let anchor_tob = self.top_of_book.get(watch.arb.anchor.market_key.as_str());
        let match_tob = self.top_of_book.get(watch.arb.matched.market_key.as_str());
        match (anchor_tob, match_tob) {
            (Some(anchor_tob), Some(match_tob)) => Some(
                Quotes {
                    anchor_ask: needed_ask_price(anchor_tob, &watch.arb.anchor),
                    match_ask: needed_ask_price(match_tob, &watch.arb.matched),
                    anchor_size: needed_ask_size(anchor_tob, &watch.arb.anchor),
                    match_size: needed_ask_size(match_tob, &watch.arb.matched),
                },
            ),
            _ => None,
        }
    }

    /// The request to execute a watched arb at the given prices and sizes.
    pub fn execution_request(
        &self,
        cid: &str,
        anchor_ws_price: Dec,
        match_ws_price: Dec,
        anchor_ws_size: Dec,
        match_ws_size: Dec,
    ) -> (r: Option<ExecutionRequest>)
        ensures
            requested(
                self@,
                cid@,
                anchor_ws_price,
                match_ws_price,
                anchor_ws_size,
                match_ws_size,
                r,
            ),
    {
        let watch = match self.book.records.get(cid) {
            Some(watch) => watch,
            None => return None,
        };
        Some(
            ExecutionRequest {
                correlation_id: cid.to_owned(),
                anchor: watch.arb.anchor.clone(),
                matched: watch.arb.matched.clone(),
                anchor_ws_price,
                match_ws_price,
                anchor_ws_size,
                match_ws_size,
            },
        )
    }

    /// Starts watching an arb once its legs have been subscribed to. Nothing
    /// happens unless both were; a leg that is not usable is an error. Gives the
    /// legs to seed with prices.
    pub fn start_watching(
        &mut self,
        arb: Arb,
        cid: CorrelationId,
        anchor_subscribed: bool,
        match_subscribed: bool,
    ) -> (r: Result<Option<Started>, ArbError>)
        ensures
            watching_started(
                old(self)@,
                arb,
                cid,
                anchor_subscribed,
                match_subscribed,
                r,
                final(self)@,
            ),
            in_sync(old(self)@) ==> in_sync(final(self)@),
    {
        if !anchor_subscribed || !match_subscribed {
            return Ok(None);
        }
        let pair = match ArbMinifiedInfoPair::try_from_arb(arb) {
            Ok(pair) => pair,
            Err(e) => return Err(e),
        };
        let ended = self.register_arb(ArbWatch { correlation_id: cid, arb: pair.clone() });
        Ok(Some(Started { pair, ended }))
    }
}

} // verus!
