//! Collecting the markets that a venue already has, page by page.
use crate::clock;
use crate::ids::views;
use crate::kalshi::first_topic;
use crate::markets::{or_empty, GammaMarket, KalshiMarket};
use crate::models::Platform;
use crate::tags::{tag_identifiers, MarketTag};
use crate::text;
use vstd::hash_set::StringHashSet;
use vstd::prelude::*;

verus! {

/// How often a page is asked for before it is given up.
pub const MAX_ATTEMPTS: u32 = 3;

/// How many markets a page holds.
pub const PAGE_SIZE: u32 = 100;

/// What is done after a page could not be had.
#[derive(Debug, Clone, Copy, PartialEq, Eq, Structural)]
pub enum Retry {
    /// Ask again after this many milliseconds.
    Wait(u64),
    /// Give the page up.
    GiveUp,
}

/// What is done after the given number of failures in a row: a failure that may
/// pass is waited out, longer each time.
pub open spec fn retry_after(passing: bool, failures: int, unit_ms: int) -> Retry {
    if passing && failures < MAX_ATTEMPTS {
        Retry::Wait((unit_ms * failures) as u64)
    } else {
        Retry::GiveUp
    }
}

fn retry(passing: bool, failures: u32, unit_ms: u32) -> (r: Retry)
    ensures
        r == retry_after(passing, failures as int, unit_ms as int),
{
    if passing && failures < MAX_ATTEMPTS {
        let ms: u64 = if failures == 0 {
            0
        } else if failures == 1 {
            unit_ms as u64
        } else {
            unit_ms as u64 * 2
        };
        Retry::Wait(ms)
    } else {
        Retry::GiveUp
    }
}

/// Whether Kalshi's error text says that too much was asked of it.
pub open spec fn rate_limited(error: Seq<char>) -> bool {
    text::occurs(error, "429"@) || text::occurs(error, "too_many_requests"@)
}

/// Whether Polymarket's error text tells of a failure that may pass.
pub open spec fn transient(error: Seq<char>) -> bool {
    text::occurs(error, "error sending request"@) || text::occurs(
        error,
        "error decoding response body"@,
    )
}

/// The pause per failure on Kalshi, in milliseconds.
pub const KALSHI_RETRY_MS: u32 = 2_000;

/// The pause per failure on Polymarket, in milliseconds.
pub const POLYMARKET_RETRY_MS: u32 = 200;

/// How far back to collect, in seconds, where nothing has been collected before.
pub const FULL_BACKFILL_SECS: u64 = 450_000;

/// How far back to collect, in seconds: to the last stored market and an hour
/// more, or as far as a first collection goes.
pub open spec fn backfill_span(last_insert_ms: Option<i64>, now_ms: i64) -> int {
    match last_insert_ms {
        Some(last) => (if now_ms > last {
            (now_ms - last) / 1_000
        } else {
            0
        }) + 3_600,
        None => FULL_BACKFILL_SECS as int,
    }
}

/// A collection reaches back to an hour before the last stored market, to the second, and
/// an hour where that lies ahead; a first one reaches back 450,000 seconds.
pub proof fn backfills_overlap_by_an_hour(last_ms: i64, now_ms: i64)
    ensures
        now_ms >= last_ms ==> last_ms - 3_600_000 <= now_ms - backfill_span(
            Some(last_ms),
            now_ms,
        ) * 1_000 < last_ms - 3_599_000,
        now_ms < last_ms ==> backfill_span(Some(last_ms), now_ms) == 3_600,
        backfill_span(None, now_ms) == 450_000,
{
}

/// How far back to collect, in seconds.
pub fn backfill_secs(last_insert_ms: Option<i64>, now_ms: i64) -> (r: u64)
    ensures
        r == backfill_span(last_insert_ms, now_ms),
{
    match last_insert_ms {
        Some(last) => if now_ms > last {
            let ms: i128 = now_ms as i128 - last as i128;
            (ms / 1_000) as u64 + 3_600
        } else {
            3_600
        },
        None => FULL_BACKFILL_SECS,
    }
}

/// The millisecond `secs` seconds before `now_ms`, if there is a date for it.
pub fn backfill_start_ms(now_ms: i64, secs: u64) -> (r: Option<i64>)
    ensures
        r is Some <==> clock::representable(now_ms - secs * 1_000),
        r matches Some(ms) ==> ms == now_ms - secs * 1_000,
{
    let start: i128 = now_ms as i128 - secs as i128 * 1_000;
    if start < clock::MIN_MILLIS as i128 || start > clock::MAX_MILLIS as i128 {
        return None;
    }
    Some(start as i64)
}

/// A series of Kalshi markets.
#[derive(Debug)]
pub struct Series {
    pub ticker: String,
    pub tags: Option<Vec<String>>,
}

/// A sport whose series are collected.
#[derive(Debug, Clone, Copy, PartialEq, Eq, Structural)]
pub enum Sport {
    Soccer,
    Football,
    Basketball,
}

/// The sport that a tag names.
pub open spec fn sport_named(tag: Seq<char>) -> Option<Sport> {
    if text::trimmed(tag) == "Soccer"@ {
        Some(Sport::Soccer)
    } else if text::trimmed(tag) == "Football"@ {
        Some(Sport::Football)
    } else if text::trimmed(tag) == "Basketball"@ {
        Some(Sport::Basketball)
    } else {
        None
    }
}

/// The sport that the first tag that names one names.
pub open spec fn first_sport(tags: Seq<Seq<char>>) -> Option<Sport>
    decreases tags.len(),
{
    if tags.len() == 0 {
        None
    } else {
        match sport_named(tags[0]) {
            Some(sport) => Some(sport),
            None => first_sport(tags.subrange(1, tags.len() as int)),
        }
    }
}

/// The sport of a series.
pub open spec fn sport_of(series: Series) -> Option<Sport> {
    match series.tags {
        Some(tags) => first_sport(views(tags@)),
        None => None,
    }
}

fn sport_of_tag(tag: &str) -> (r: Option<Sport>)
    ensures
        r == sport_named(tag@),
{
    let tag = text::trim(tag);
    if text::same(tag, "Soccer") {
        Some(Sport::Soccer)
    } else if text::same(tag, "Football") {
        Some(Sport::Football)
    } else if text::same(tag, "Basketball") {
        Some(Sport::Basketball)
    } else {
        None
    }
}

/// The sport of a series: that of its first tag that, trimmed, names one.
pub fn series_sport(series: &Series) -> (r: Option<Sport>)
    ensures
        r == sport_of(*series),
{
    let tags = match &series.tags {
        Some(tags) => tags,
        None => return None,
    };
    let ghost all = views(tags@);
    assert(all.subrange(0, all.len() as int) =~= all);
    let mut i: usize = 0;
    while i < tags.len()
        invariant
            i <= tags@.len(),
            all == views(tags@),
            sport_of(*series) == first_sport(all),
            first_sport(all) == first_sport(all.subrange(i as int, all.len() as int)),
        decreases tags@.len() - i,
    {
        let found = sport_of_tag(tags[i].as_str());
        proof {
            let rest = all.subrange(i as int, all.len() as int);
            assert(rest[0] == tags@[i as int]@);
            assert(rest.subrange(1, rest.len() as int) =~= all.subrange(i + 1, all.len() as int));
        }
        if found.is_some() {
            return found;
        }
        i += 1;
    }
    None
}

/// The tickers of the series of one sport, in their order.
pub open spec fn tickers_of(series: Seq<Series>, sport: Sport) -> Seq<Seq<char>>
    decreases series.len(),
{
    if series.len() == 0 {
        Seq::empty()
    } else {
        let init = tickers_of(series.drop_last(), sport);
        if sport_of(series.last()) == Some(sport) {
            init.push(series.last().ticker@)
        } else {
            init
        }
    }
}

/// The first tag that, trimmed, names a sport decides which sport a series is of.
pub proof fn the_first_sport_decides(tags: Seq<Seq<char>>, i: int)
    requires
        0 <= i < tags.len(),
        forall|j: int| 0 <= j < i ==> sport_named(#[trigger] tags[j]) is None,
    ensures
        sport_named(tags[i]) is Some ==> first_sport(tags) == sport_named(tags[i]),
        i == tags.len() - 1 && sport_named(tags[i]) is None ==> first_sport(tags) is None,
    decreases tags.len(),
{
    reveal_with_fuel(first_sport, 2);
    let rest = tags.subrange(1, tags.len() as int);
    if i > 0 {
        assert(sport_named(tags[0]) is None);
        assert(rest[i - 1] == tags[i]);
        assert forall|j: int| 0 <= j < i - 1 implies sport_named(#[trigger] rest[j]) is None by {
            assert(rest[j] == tags[j + 1]);
        }
        the_first_sport_decides(rest, i - 1);
    }
}

/// A sport is named by its own word, spaces around it aside, and by no other.
pub proof fn sports_are_named_by_their_word(tag: Seq<char>)
    ensures
        sport_named(tag) == Some(Sport::Soccer) <==> text::trimmed(tag) == "Soccer"@,
        sport_named(tag) == Some(Sport::Football) <==> text::trimmed(tag) == "Football"@,
        sport_named(tag) == Some(Sport::Basketball) <==> text::trimmed(tag) == "Basketball"@,
{
    reveal_strlit("Soccer");
    reveal_strlit("Football");
    reveal_strlit("Basketball");
    assert("Soccer"@.len() == 6);
    assert("Football"@.len() == 8);
    assert("Basketball"@.len() == 10);
}

/// A series of a sport has its ticker among those of the sport, and a ticker there is that
/// of a series of the sport.
pub proof fn series_are_sorted_by_their_sport(series: Seq<Series>, sport: Sport, ticker: Seq<char>)
    ensures
        tickers_of(series, sport).contains(ticker) <==> exists|i: int|
            0 <= i < series.len() && sport_of(#[trigger] series[i]) == Some(sport)
                && series[i].ticker@ == ticker,
    decreases series.len(),
{
    if series.len() > 0 {
        let (init, last) = (series.drop_last(), series.last());
        series_are_sorted_by_their_sport(init, sport, ticker);
        let (before, all) = (tickers_of(init, sport), tickers_of(series, sport));
        if tickers_of(series, sport).contains(ticker) {
            let k = choose|k: int| 0 <= k < all.len() && all[k] == ticker;
            if k < before.len() {
                assert(before[k] == ticker);
                let i = choose|i: int|
                    0 <= i < init.len() && sport_of(#[trigger] init[i]) == Some(sport)
                        && init[i].ticker@ == ticker;
                assert(series[i] == init[i]);
            } else {
                assert(series[series.len() - 1] == last);
            }
        }
        if exists|i: int|
            0 <= i < series.len() && sport_of(#[trigger] series[i]) == Some(sport)
                && series[i].ticker@ == ticker {
            let i = choose|i: int|
                0 <= i < series.len() && sport_of(#[trigger] series[i]) == Some(sport)
                    && series[i].ticker@ == ticker;
            if i < init.len() {
                assert(init[i] == series[i]);
                let k = choose|k: int| 0 <= k < before.len() && before[k] == ticker;
                assert(all[k] == ticker);
            } else {
                assert(all[all.len() - 1] == ticker);
            }
        }
    }
}

/// The tickers of sports series, by sport.
#[derive(Debug)]
pub struct SportTickers {
    pub soccer: Vec<String>,
    pub football: Vec<String>,
    pub basketball: Vec<String>,
}

/// Sorts series by sport; those of no known sport are left out.
pub fn sort_series(series: &Vec<Series>) -> (r: SportTickers)
    ensures
        views(r.soccer@) == tickers_of(series@, Sport::Soccer),
        views(r.football@) == tickers_of(series@, Sport::Football),
        views(r.basketball@) == tickers_of(series@, Sport::Basketball),
{
    let mut soccer: Vec<String> = Vec::new();
    let mut football: Vec<String> = Vec::new();
    let mut basketball: Vec<String> = Vec::new();
    assert(views(soccer@) =~= Seq::<Seq<char>>::empty());
    assert(views(football@) =~= Seq::<Seq<char>>::empty());
    assert(views(basketball@) =~= Seq::<Seq<char>>::empty());
    let mut i: usize = 0;
    while i < series.len()
        invariant
            i <= series@.len(),
            views(soccer@) == tickers_of(series@.take(i as int), Sport::Soccer),
            views(football@) == tickers_of(series@.take(i as int), Sport::Football),
            views(basketball@) == tickers_of(series@.take(i as int), Sport::Basketball),
        decreases series@.len() - i,
    {
        let ghost (s, f, b) = (views(soccer@), views(football@), views(basketball@));
        let ghost ticker = series@[i as int].ticker@;
        assert(series@.take(i + 1).drop_last() =~= series@.take(i as int));
        match series_sport(&series[i]) {
            Some(Sport::Soccer) => {
                soccer.push(series[i].ticker.clone());
                assert(views(soccer@) =~= s.push(ticker));
            },
            Some(Sport::Football) => {
                football.push(series[i].ticker.clone());
                assert(views(football@) =~= f.push(ticker));
            },
            Some(Sport::Basketball) => {
                basketball.push(series[i].ticker.clone());
                assert(views(basketball@) =~= b.push(ticker));
            },
            None => {},
        }
        i += 1;
    }
    assert(series@.take(series@.len() as int) =~= series@);
    SportTickers { soccer, football, basketball }
}

/// A sport's series are filed under the topic that the same tag identifies.
pub proof fn sport_is_topic(tag: Seq<char>)
    ensures
        sport_named(tag) == Some(Sport::Soccer) ==> first_topic(Platform::Kalshi, seq![tag])
            == Some(MarketTag::Soccer),
        sport_named(tag) == Some(Sport::Football) ==> first_topic(Platform::Kalshi, seq![tag])
            == Some(MarketTag::Nfl),
        sport_named(tag) == Some(Sport::Basketball) ==> first_topic(Platform::Kalshi, seq![tag])
            == Some(MarketTag::Nba),
{
    reveal_strlit("Soccer");
    reveal_strlit("Football");
    reveal_strlit("Basketball");
    reveal_strlit("Politics");
    reveal_strlit("Elections");
    reveal_strlit("Companies");
    reveal_strlit("Mentions");
    let t = text::trimmed(tag);
    let p = Platform::Kalshi;
    assert("Soccer"@.len() == 6);
    assert("Football"@.len() == 8 && "Football"@[0] == 'F');
    assert("Basketball"@.len() == 10);
    assert("Politics"@.len() == 8 && "Politics"@[0] == 'P');
    assert("Elections"@.len() == 9);
    assert("Companies"@.len() == 9);
    assert("Mentions"@.len() == 8 && "Mentions"@[0] == 'M');
    if sport_named(tag) is Some {
        assert(!crate::tags::identifies(MarketTag::Politics, p, t));
    }
    assert(tag_identifiers(MarketTag::Soccer, p)[0] == "Soccer");
    assert(tag_identifiers(MarketTag::Nfl, p)[0] == "Football");
    assert(tag_identifiers(MarketTag::Nba, p)[0] == "Basketball");
    assert(seq![tag][0] == tag);
}

// ---------------------------------------------------------------------------
// Kalshi
// ---------------------------------------------------------------------------
/// How far a collection of Kalshi markets has come.
#[verifier::ext_equal]
pub struct KalshiProgress {
    /// The series that are still to be collected, the current one first.
    pub series: Seq<Seq<char>>,
    /// Where the current series continues, if not at its start.
    pub cursor: Option<Seq<char>>,
    /// How often the current page has failed in a row.
    pub failures: int,
    /// What has been collected.
    pub collected: Seq<KalshiMarket>,
}

/// The progress once the current series is done with.
pub open spec fn next_series(p: KalshiProgress) -> KalshiProgress {
    KalshiProgress {
        series: p.series.subrange(1, p.series.len() as int),
        cursor: None,
        failures: 0,
        collected: p.collected,
    }
}

/// The progress once a page has come.
pub open spec fn page_collected(
    p: KalshiProgress,
    markets: Seq<KalshiMarket>,
    next: Option<Seq<char>>,
) -> KalshiProgress {
    let kept = KalshiProgress { collected: p.collected + markets, ..p };
    if next is Some && next->0.len() > 0 {
        KalshiProgress { cursor: next, failures: 0, ..kept }
    } else {
        next_series(kept)
    }
}

/// The progress once a page has failed.
pub open spec fn page_failed(p: KalshiProgress, error: Seq<char>) -> KalshiProgress {
    if retry_after(rate_limited(error), p.failures + 1, KALSHI_RETRY_MS as int) is GiveUp {
        next_series(p)
    } else {
        KalshiProgress { failures: p.failures + 1, ..p }
    }
}

/// Asks for a page of open markets of a series.
#[derive(Debug)]
pub struct KalshiPageQuery {
    pub limit: u32,
    pub cursor: Option<String>,
    pub status: &'static str,
    pub series_ticker: String,
    pub min_created_ts: u64,
}

/// A collection of Kalshi markets.
#[derive(Debug)]
pub struct KalshiBackfill {
    tickers: Vec<String>,
    position: usize,
    cursor: Option<String>,
    failures: u32,
    min_created_ts: u64,
    collected: Vec<KalshiMarket>,
}

/// The text of an optional cursor.
pub open spec fn cursor_view(cursor: Option<String>) -> Option<Seq<char>> {
    match cursor {
        Some(s) => Some(s@),
        None => None,
    }
}

impl View for KalshiBackfill {
    type V = KalshiProgress;

    closed spec fn view(&self) -> KalshiProgress {
        KalshiProgress {
            series: views(self.tickers@).subrange(
                self.position as int,
                self.tickers@.len() as int,
            ),
            cursor: cursor_view(self.cursor),
            failures: self.failures as int,
            collected: self.collected@,
        }
    }
}

impl KalshiBackfill {
    /// The position is within the series, and fewer failures are counted than make
    /// a page be given up.
    #[verifier::type_invariant]
    spec fn counters_in_range(self) -> bool {
        self.position <= self.tickers@.len() && self.failures < MAX_ATTEMPTS
    }

    /// The time from which on markets are asked for, in seconds.
    pub closed spec fn since(&self) -> int {
        self.min_created_ts as int
    }

    /// Starts collecting the markets of the series that were created within the
    /// last `duration_secs` seconds.
    pub fn new(tickers: Vec<String>, now_secs: u64, duration_secs: u64) -> (r: Self)
        requires
            duration_secs <= now_secs,
        ensures
            r.since() == now_secs - duration_secs,
            r@ == (KalshiProgress {
                series: views(tickers@),
                cursor: None,
                failures: 0,
                collected: Seq::empty(),
            }),
    {
        let r = KalshiBackfill {
            tickers,
            position: 0,
            cursor: None,
            failures: 0,
            min_created_ts: now_secs - duration_secs,
            collected: Vec::new(),
        };
        assert(r@.series =~= views(tickers@));
        r
    }

    /// What to ask for next, if anything.
    pub fn query(&self) -> (r: Option<KalshiPageQuery>)
        ensures
            r is Some <==> self@.series.len() > 0,
            r matches Some(q) ==> {
                &&& q.limit == PAGE_SIZE
                &&& cursor_view(q.cursor) == self@.cursor
                &&& q.status@ == "open"@
                &&& q.series_ticker@ == self@.series[0]
                &&& q.min_created_ts == self.since()
            },
    {
        proof {
            use_type_invariant(self);
        }
        if self.position >= self.tickers.len() {
            return None;
        }
        let cursor = match &self.cursor {
            Some(s) => Some(s.clone()),
            None => None,
        };
        Some(
            KalshiPageQuery {
                limit: PAGE_SIZE,
                cursor,
                status: "open",
                series_ticker: self.tickers[self.position].clone(),
                min_created_ts: self.min_created_ts,
            },
        )
    }

    fn advance(&mut self)
        requires
            old(self)@.series.len() > 0,
        ensures
            final(self).since() == old(self).since(),
            final(self)@ == next_series(old(self)@),
    {
        proof {
            use_type_invariant(&*self);
        }
        let count: usize = self.tickers.len();
        assert(self.position < count);
        self.position += 1;
        self.cursor = None;
        self.failures = 0;
        assert(self@.series =~= next_series(old(self)@).series);
    }

    /// Takes in a page of the current series and where it continues.
    pub fn on_page(&mut self, markets: Vec<KalshiMarket>, next: Option<String>)
        requires
            old(self)@.series.len() > 0,
        ensures
            final(self).since() == old(self).since(),
            final(self)@ == page_collected(old(self)@, markets@, cursor_view(next)),
    {
        proof {
            use_type_invariant(&*self);
        }
        let mut markets = markets;
        let mut collected: Vec<KalshiMarket> = Vec::new();
        std::mem::swap(&mut self.collected, &mut collected);
        collected.append(&mut markets);
        self.collected = collected;
        match next {
            Some(cursor) => if cursor.as_str().is_empty() {
                self.advance();
            } else {
                self.cursor = Some(cursor);
                self.failures = 0;
            },
            None => {
                self.advance();
            },
        }
    }

    /// Decides what to do after a page failed. A page that is given up ends its
    /// series.
    pub fn on_error(&mut self, error: &str) -> (r: Retry)
        requires
            old(self)@.series.len() > 0,
        ensures
            final(self).since() == old(self).since(),
            final(self)@ == page_failed(old(self)@, error@),
            r == retry_after(
                rate_limited(error@),
                old(self)@.failures + 1,
                KALSHI_RETRY_MS as int,
            ),
    {
        proof {
            use_type_invariant(&*self);
        }
        let limited = text::contains(error, "429") || text::contains(error, "too_many_requests");
        let failures: u32 = self.failures + 1;
        let decision = retry(limited, failures, KALSHI_RETRY_MS);
        match decision {
            Retry::Wait(_) => {
                self.failures = failures;
            },
            Retry::GiveUp => {
                self.advance();
            },
        }
        decision
    }

    /// What has been collected.
    pub fn into_markets(self) -> (r: Vec<KalshiMarket>)
        ensures
            r@ == self@.collected,
    {
        self.collected
    }
}

/// Nothing that was collected is lost: whatever comes back for a page, the markets
/// collected before stay in front.
pub proof fn kalshi_keeps_collected(
    p: KalshiProgress,
    markets: Seq<KalshiMarket>,
    next: Option<Seq<char>>,
    error: Seq<char>,
)
    ensures
        page_collected(p, markets, next).collected == p.collected + markets,
        page_failed(p, error).collected == p.collected,
{
}

/// A page that says where its series continues is followed by the page from there on; one
/// that says nothing, or nothing but an empty text, is the last of its series, and the
/// next series starts at its own beginning.
pub proof fn kalshi_pages_lead_on(
    p: KalshiProgress,
    markets: Seq<KalshiMarket>,
    next: Option<Seq<char>>,
)
    requires
        p.series.len() > 0,
    ensures
        ({
            let after = page_collected(p, markets, next);
            &&& after.failures == 0
            &&& next matches Some(cursor) ==> {
                &&& cursor.len() > 0 ==> after.series == p.series && after.cursor == next
                &&& cursor.len() == 0 ==> after.series == p.series.subrange(
                    1,
                    p.series.len() as int,
                ) && after.cursor is None
            }
            &&& next is None ==> after.series == p.series.subrange(1, p.series.len() as int)
                && after.cursor is None
        }),
{
}

/// A failure of Kalshi's that is about asking too much, by one of two texts, leaves
/// everything as it is but for the count of failures, until it is the third in a row; that
/// one, and any other failure, ends the series.
pub proof fn kalshi_waits_out_limits(p: KalshiProgress, error: Seq<char>)
    requires
        p.series.len() > 0,
        p.failures >= 0,
    ensures
        ({
            let limited = text::occurs(error, "429"@) || text::occurs(
                error,
                "too_many_requests"@,
            );
            let after = page_failed(p, error);
            &&& after.collected == p.collected
            &&& limited && p.failures < 2 ==> after.series == p.series && after.cursor == p.cursor
                && after.failures == p.failures + 1
            &&& !limited || p.failures >= 2 ==> after.series == p.series.subrange(
                1,
                p.series.len() as int,
            ) && after.cursor is None && after.failures == 0
        }),
{
}

/// What came back for a page of Kalshi markets.
pub enum KalshiReply {
    /// Its markets, and where the series continues.
    Page(Seq<KalshiMarket>, Option<Seq<char>>),
    /// An error.
    Failure(Seq<char>),
}

/// The progress once all the replies have come, one after the other.
pub open spec fn kalshi_run(p: KalshiProgress, replies: Seq<KalshiReply>) -> KalshiProgress
    decreases replies.len(),
{
    if replies.len() == 0 {
        p
    } else {
        let before = kalshi_run(p, replies.drop_last());
        match replies.last() {
            KalshiReply::Page(markets, next) => page_collected(before, markets, next),
            KalshiReply::Failure(error) => page_failed(before, error),
        }
    }
}

/// The markets of all pages among the replies, joined in order.
pub open spec fn kalshi_pages(replies: Seq<KalshiReply>) -> Seq<KalshiMarket>
    decreases replies.len(),
{
    if replies.len() == 0 {
        Seq::empty()
    } else {
        match replies.last() {
            KalshiReply::Page(markets, _) => kalshi_pages(replies.drop_last()) + markets,
            KalshiReply::Failure(_) => kalshi_pages(replies.drop_last()),
        }
    }
}

/// After any sequence of pages and failures, what has been collected is what was
/// collected at the start and the pages, joined in order: a collection that started
/// with nothing holds exactly the pages.
pub proof fn kalshi_collects_the_pages(p: KalshiProgress, replies: Seq<KalshiReply>)
    ensures
        kalshi_run(p, replies).collected == p.collected + kalshi_pages(replies),
        p.collected.len() == 0 ==> kalshi_run(p, replies).collected == kalshi_pages(replies),
    decreases replies.len(),
{
    if replies.len() > 0 {
        kalshi_collects_the_pages(p, replies.drop_last());
    }
    assert(kalshi_run(p, replies).collected =~= p.collected + kalshi_pages(replies));
    assert(p.collected.len() == 0 ==> p.collected + kalshi_pages(replies) =~= kalshi_pages(
        replies,
    ));
}

/// A page fails at most three times: the third failure in a row ends the series,
/// and so does the first one that is not about asking too much.
pub proof fn kalshi_gives_up(p: KalshiProgress, error: Seq<char>)
    requires
        p.series.len() > 0,
    ensures
        p.failures == 2 || !rate_limited(error) ==> page_failed(p, error).series.len()
            == p.series.len() - 1,
        rate_limited(error) && p.failures == 0 ==> retry_after(
            true,
            p.failures + 1,
            KALSHI_RETRY_MS as int,
        ) == Retry::Wait(2_000),
        rate_limited(error) && p.failures == 1 ==> retry_after(
            true,
            p.failures + 1,
            KALSHI_RETRY_MS as int,
        ) == Retry::Wait(4_000),
{
}

// ---------------------------------------------------------------------------
// Polymarket
// ---------------------------------------------------------------------------
/// The condition ids of markets, empty where there is none.
pub open spec fn condition_ids(markets: Seq<GammaMarket>) -> Seq<Seq<char>> {
    markets.map_values(|m: GammaMarket| or_empty(m.condition_id))
}

/// Those markets of the list whose condition id neither was seen before nor
/// occurs earlier in the list.
pub open spec fn unseen(seen: Set<Seq<char>>, markets: Seq<GammaMarket>) -> Seq<GammaMarket>
    decreases markets.len(),
{
    if markets.len() == 0 {
        Seq::empty()
    } else {
        let init = unseen(seen, markets.drop_last());
        let id = or_empty(markets.last().condition_id);
        if seen.contains(id) || condition_ids(init).contains(id) {
            init
        } else {
            init.push(markets.last())
        }
    }
}

/// How far a collection of Polymarket markets has come.
#[verifier::ext_equal]
pub struct PolyProgress {
    /// The tags that are still to be collected, the current one first.
    pub tags: Seq<&'static str>,
    /// Where the current tag continues.
    pub offset: int,
    /// How often the current page has failed in a row.
    pub failures: int,
    /// What has been collected.
    pub collected: Seq<GammaMarket>,
}

/// The progress once the current tag is done with.
pub open spec fn next_tag(p: PolyProgress) -> PolyProgress {
    PolyProgress {
        tags: p.tags.subrange(1, p.tags.len() as int),
        offset: 0,
        failures: 0,
        collected: p.collected,
    }
}

/// The progress once a page has come: a page that is not full is the last of its
/// tag.
pub open spec fn poly_page_collected(p: PolyProgress, markets: Seq<GammaMarket>) -> PolyProgress {
    let kept = PolyProgress {
        collected: p.collected + unseen(condition_ids(p.collected).to_set(), markets),
        ..p
    };
    if markets.len() < PAGE_SIZE {
        next_tag(kept)
    } else {
        PolyProgress { offset: p.offset + PAGE_SIZE, failures: 0, ..kept }
    }
}

/// The progress once a page has failed.
pub open spec fn poly_page_failed(p: PolyProgress, error: Seq<char>) -> PolyProgress {
    if retry_after(transient(error), p.failures + 1, POLYMARKET_RETRY_MS as int) is GiveUp {
        next_tag(p)
    } else {
        PolyProgress { failures: p.failures + 1, ..p }
    }
}

/// Asks for a page of the open markets of a tag that started at a time or later.
#[derive(Debug)]
pub struct PolyPageQuery {
    pub limit: u32,
    pub offset: u64,
    pub tag_id: &'static str,
    pub closed: bool,
    pub ascending: bool,
    pub include_tag: bool,
    pub start_date_min: String,
}

/// A collection of Polymarket markets.
pub struct PolyBackfill {
    tags: &'static [&'static str],
    position: usize,
    offset: u64,
    failures: u32,
    start_date_min: String,
    collection: Collection,
}

/// Markets, and the set of their condition ids.
struct Collection {
    seen: StringHashSet,
    markets: Vec<GammaMarket>,
}

impl Collection {
    /// Whether the set holds exactly the condition ids of the markets, and none of
    /// them occurs twice.
    spec fn distinct(self) -> bool {
        &&& forall|id: Seq<char>| #[trigger]
            self.seen@.contains(id) <==> condition_ids(self.markets@).contains(id)
        &&& condition_ids(self.markets@).no_duplicates()
    }

    fn new() -> (r: Self)
        ensures
            r.distinct(),
            r.markets@ == Seq::<GammaMarket>::empty(),
    {
        let r = Collection { seen: StringHashSet::new(), markets: Vec::new() };
        assert(condition_ids(r.markets@) =~= Seq::<Seq<char>>::empty());
        r
    }
}

impl View for PolyBackfill {
    type V = PolyProgress;

    closed spec fn view(&self) -> PolyProgress {
        PolyProgress {
            tags: self.tags@.subrange(self.position as int, self.tags@.len() as int),
            offset: self.offset as int,
            failures: self.failures as int,
            collected: self.collection.markets@,
        }
    }
}

proof fn lemma_condition_ids_push(markets: Seq<GammaMarket>, m: GammaMarket)
    ensures
        condition_ids(markets.push(m)) == condition_ids(markets).push(or_empty(m.condition_id)),
{
    assert(condition_ids(markets.push(m)) =~= condition_ids(markets).push(
        or_empty(m.condition_id),
    ));
}

proof fn lemma_contains_concat(a: Seq<Seq<char>>, b: Seq<Seq<char>>, x: Seq<char>)
    ensures
        (a + b).contains(x) <==> a.contains(x) || b.contains(x),
{
    let both = a + b;
    if both.contains(x) {
        let i = choose|i: int| 0 <= i < both.len() && both[i] == x;
        if i < a.len() {
            assert(a[i] == x);
        } else {
            assert(b[i - a.len()] == x);
        }
    }
    if a.contains(x) {
        let i = choose|i: int| 0 <= i < a.len() && a[i] == x;
        assert(both[i] == x);
    }
    if b.contains(x) {
        let i = choose|i: int| 0 <= i < b.len() && b[i] == x;
        assert(both[a.len() + i] == x);
    }
}

impl PolyBackfill {
    /// The counters are within bounds and no condition id has been collected twice.
    #[verifier::type_invariant]
    spec fn in_order(self) -> bool {
        &&& self.position <= self.tags@.len()
        &&& self.failures < MAX_ATTEMPTS
        &&& self.collection.distinct()
    }

    /// The start time from which on markets are asked for.
    pub closed spec fn since(&self) -> Seq<char> {
        self.start_date_min@
    }

    /// Starts collecting the markets of a topic that started at `start_ms` or later.
    pub fn new(market: MarketTag, start_ms: i64) -> (r: Self)
        requires
            clock::representable(start_ms as int),
        ensures
            r.since() == clock::rfc3339_text(start_ms as int),
            r@ == (PolyProgress {
                tags: tag_identifiers(market, Platform::Polymarket),
                offset: 0,
                failures: 0,
                collected: Seq::empty(),
            }),
    {
        let tags = market.identifiers(Platform::Polymarket);
        let r = PolyBackfill {
            tags,
            position: 0,
            offset: 0,
            failures: 0,
            start_date_min: clock::to_rfc3339(start_ms),
            collection: Collection::new(),
        };
        assert(r@.tags =~= tags@);
        r
    }

    /// What to ask for next, if anything.
    pub fn query(&self) -> (r: Option<PolyPageQuery>)
        ensures
            r is Some <==> self@.tags.len() > 0,
            r matches Some(q) ==> {
                &&& q.limit == PAGE_SIZE
                &&& q.offset == self@.offset
                &&& q.tag_id == self@.tags[0]
                &&& !q.closed
                &&& !q.ascending
                &&& q.include_tag
                &&& q.start_date_min@ == self.since()
            },
    {
        proof {
            use_type_invariant(self);
        }
        if self.position >= self.tags.len() {
            return None;
        }
        Some(
            PolyPageQuery {
                limit: PAGE_SIZE,
                offset: self.offset,
                tag_id: self.tags[self.position],
                closed: false,
                ascending: false,
                include_tag: true,
                start_date_min: self.start_date_min.clone(),
            },
        )
    }

    fn advance(&mut self)
        requires
            old(self)@.tags.len() > 0,
        ensures
            final(self).since() == old(self).since(),
            final(self)@ == next_tag(old(self)@),
    {
        proof {
            use_type_invariant(&*self);
        }
        let count: usize = self.tags.len();
        assert(self.position < count);
        self.position += 1;
        self.offset = 0;
        self.failures = 0;
        assert(self@.tags =~= next_tag(old(self)@).tags);
    }

    /// Takes in a page of the current tag; markets that were collected before are
    /// passed over.
    pub fn on_page(&mut self, markets: Vec<GammaMarket>)
        requires
            old(self)@.tags.len() > 0,
            old(self)@.offset + PAGE_SIZE <= u64::MAX,
        ensures
            final(self).since() == old(self).since(),
            final(self)@ == poly_page_collected(old(self)@, markets@),
    {
        proof {
            use_type_invariant(&*self);
        }
        let len = markets.len();
        let ghost page = markets@;
        let mut collection = Collection::new();
        std::mem::swap(&mut self.collection, &mut collection);
        let ghost before = collection.markets@;
        let ghost known = condition_ids(before).to_set();
        assert(before + Seq::<GammaMarket>::empty() =~= before);
        for m in it: markets
            invariant
                it.seq() == page,
                collection.distinct(),
                self.tags == old(self).tags,
                self.position == old(self).position,
                self.offset == old(self).offset,
                self.failures == old(self).failures,
                self.start_date_min == old(self).start_date_min,
                known == condition_ids(before).to_set(),
                collection.markets@ == before + unseen(known, page.take(it.index())),
        {
            let ghost fresh = unseen(known, page.take(it.index()));
            let id = match &m.condition_id {
                Some(id) => id.clone(),
                None => {
                    proof {
                        reveal_strlit("");
                    }
                    String::new()
                },
            };
            let ghost key = id@;
            proof {
                assert(key == or_empty(m.condition_id));
                assert(page.take(it.index() + 1).drop_last() =~= page.take(it.index()));
                assert(page.take(it.index() + 1).last() == m);
                assert(condition_ids(before + fresh) =~= condition_ids(before) + condition_ids(
                    fresh,
                ));
                lemma_contains_concat(condition_ids(before), condition_ids(fresh), key);
                assert(known.contains(key) <==> condition_ids(before).contains(key));
            }
            let ghost collected = collection.markets@;
            if collection.seen.insert(id) {
                collection.markets.push(m);
                proof {
                    lemma_condition_ids_push(collected, m);
                    let ids = condition_ids(collected);
                    assert forall|x: Seq<char>| #[trigger]
                        collection.seen@.contains(x) <==> condition_ids(
                        collection.markets@,
                    ).contains(x) by {
                        lemma_contains_concat(ids, seq![key], x);
                        assert(ids.push(key) =~= ids + seq![key]);
                        assert(seq![key][0] == key);
                    }
                    assert(collection.markets@ =~= before + fresh.push(m));
                }
            } else {
                assert forall|x: Seq<char>| #[trigger]
                    collection.seen@.contains(x) <==> condition_ids(
                        collection.markets@,
                    ).contains(x) by {}
            }
        }
        assert(page.take(page.len() as int) =~= page);
        self.collection = collection;
        if len < PAGE_SIZE as usize {
            self.advance();
        } else {
            self.offset += PAGE_SIZE as u64;
            self.failures = 0;
        }
    }

    /// Decides what to do after a page failed. A page that is given up ends its
    /// tag.
    pub fn on_error(&mut self, error: &str) -> (r: Retry)
        requires
            old(self)@.tags.len() > 0,
        ensures
            final(self).since() == old(self).since(),
            final(self)@ == poly_page_failed(old(self)@, error@),
            r == retry_after(
                transient(error@),
                old(self)@.failures + 1,
                POLYMARKET_RETRY_MS as int,
            ),
    {
        proof {
            use_type_invariant(&*self);
        }
        let passing = text::contains(error, "error sending request") || text::contains(
            error,
            "error decoding response body",
        );
        let failures: u32 = self.failures + 1;
        let decision = retry(passing, failures, POLYMARKET_RETRY_MS);
        match decision {
            Retry::Wait(_) => {
                self.failures = failures;
            },
            Retry::GiveUp => {
                self.advance();
            },
        }
        decision
    }

    /// What has been collected: no condition id twice.
    pub fn into_markets(self) -> (r: Vec<GammaMarket>)
        ensures
            r@ == self@.collected,
            condition_ids(r@).no_duplicates(),
    {
        proof {
            use_type_invariant(&self);
        }
        self.collection.markets
    }
}

/// Nothing that was collected is lost: whatever comes back for a page, the markets
/// collected before stay in front.
pub proof fn polymarket_keeps_collected(
    p: PolyProgress,
    markets: Seq<GammaMarket>,
    error: Seq<char>,
)
    ensures
        p.collected.is_prefix_of(poly_page_collected(p, markets).collected),
        poly_page_failed(p, error).collected == p.collected,
{
}

/// What came back for a page of Polymarket markets.
pub enum PolyReply {
    /// Its markets.
    Page(Seq<GammaMarket>),
    /// An error.
    Failure(Seq<char>),
}

/// The progress once all the replies have come, one after the other.
pub open spec fn poly_run(p: PolyProgress, replies: Seq<PolyReply>) -> PolyProgress
    decreases replies.len(),
{
    if replies.len() == 0 {
        p
    } else {
        let before = poly_run(p, replies.drop_last());
        match replies.last() {
            PolyReply::Page(markets) => poly_page_collected(before, markets),
            PolyReply::Failure(error) => poly_page_failed(before, error),
        }
    }
}

/// The markets of all pages among the replies, joined in order.
pub open spec fn poly_pages(replies: Seq<PolyReply>) -> Seq<GammaMarket>
    decreases replies.len(),
{
    if replies.len() == 0 {
        Seq::empty()
    } else {
        match replies.last() {
            PolyReply::Page(markets) => poly_pages(replies.drop_last()) + markets,
            PolyReply::Failure(_) => poly_pages(replies.drop_last()),
        }
    }
}

proof fn lemma_unseen_in_steps(first: Seq<GammaMarket>, then_markets: Seq<GammaMarket>)
    ensures
        ({
            let none = Set::<Seq<char>>::empty();
            let before = unseen(none, first);
            unseen(none, first + then_markets) == before + unseen(
                condition_ids(before).to_set(),
                then_markets,
            )
        }),
    decreases then_markets.len(),
{
    let none = Set::<Seq<char>>::empty();
    let before = unseen(none, first);
    let seen = condition_ids(before).to_set();
    let both = first + then_markets;
    if then_markets.len() == 0 {
        assert(both =~= first);
        assert(before + Seq::<GammaMarket>::empty() =~= before);
    } else {
        let init = then_markets.drop_last();
        let last = then_markets.last();
        let id = or_empty(last.condition_id);
        lemma_unseen_in_steps(first, init);
        assert(both.drop_last() =~= first + init);
        assert(both.last() == last);
        let fresh = unseen(seen, init);
        assert(condition_ids(before + fresh) =~= condition_ids(before) + condition_ids(fresh));
        lemma_contains_concat(condition_ids(before), condition_ids(fresh), id);
        assert(seen.contains(id) <==> condition_ids(before).contains(id));
        assert((before + fresh).push(last) =~= before + fresh.push(last));
    }
}

/// After any sequence of pages and failures, a collection that started with nothing
/// holds exactly the pages joined in order, each condition id once, by the first
/// market that has it.
pub proof fn polymarket_collects_the_pages(p: PolyProgress, replies: Seq<PolyReply>)
    requires
        p.collected.len() == 0,
    ensures
        poly_run(p, replies).collected == unseen(Set::empty(), poly_pages(replies)),
    decreases replies.len(),
{
    if replies.len() > 0 {
        polymarket_collects_the_pages(p, replies.drop_last());
        match replies.last() {
            PolyReply::Page(markets) => {
                lemma_unseen_in_steps(poly_pages(replies.drop_last()), markets);
            },
            PolyReply::Failure(_) => {},
        }
    } else {
        assert(p.collected =~= Seq::empty());
    }
}

/// A page fails at most three times: the third failure in a row ends the tag, and so
/// does the first one that will not pass.
pub proof fn polymarket_gives_up(p: PolyProgress, error: Seq<char>)
    requires
        p.tags.len() > 0,
    ensures
        p.failures == 2 || !transient(error) ==> poly_page_failed(p, error).tags.len()
            == p.tags.len() - 1,
        transient(error) && p.failures == 0 ==> retry_after(
            true,
            p.failures + 1,
            POLYMARKET_RETRY_MS as int,
        ) == Retry::Wait(200),
        transient(error) && p.failures == 1 ==> retry_after(
            true,
            p.failures + 1,
            POLYMARKET_RETRY_MS as int,
        ) == Retry::Wait(400),
{
}

/// A page that is not full ends its tag; a full one is followed by the next page of
/// the same tag.
pub proof fn full_pages_go_on(p: PolyProgress, markets: Seq<GammaMarket>)
    requires
        p.tags.len() > 0,
    ensures
        markets.len() < 100 ==> poly_page_collected(p, markets).tags == p.tags.subrange(
            1,
            p.tags.len() as int,
        ) && poly_page_collected(p, markets).offset == 0,
        markets.len() >= 100 ==> poly_page_collected(p, markets).tags == p.tags
            && poly_page_collected(p, markets).offset == p.offset + 100,
        poly_page_collected(p, markets).failures == 0,
{
}

/// A failure of Polymarket's that may pass, by one of two texts, leaves everything as it
/// is but for the count of failures, until it is the third in a row; that one, and any
/// other failure, ends the tag.
pub proof fn polymarket_waits_out_what_may_pass(p: PolyProgress, error: Seq<char>)
    requires
        p.tags.len() > 0,
        p.failures >= 0,
    ensures
        ({
            let passing = text::occurs(error, "error sending request"@) || text::occurs(
                error,
                "error decoding response body"@,
            );
            let after = poly_page_failed(p, error);
            &&& after.collected == p.collected
            &&& passing && p.failures < 2 ==> after.tags == p.tags && after.offset == p.offset
                && after.failures == p.failures + 1
            &&& !passing || p.failures >= 2 ==> after.tags == p.tags.subrange(
                1,
                p.tags.len() as int,
            ) && after.offset == 0 && after.failures == 0
        }),
{
}

/// What is collected of a page comes from the page, with a condition id that was not
/// seen before, and no condition id is collected twice.
pub proof fn only_new_markets_are_collected(
    seen: Set<Seq<char>>,
    markets: Seq<GammaMarket>,
    k: int,
)
    requires
        0 <= k < unseen(seen, markets).len(),
    ensures
        markets.contains(unseen(seen, markets)[k]),
        !seen.contains(or_empty(unseen(seen, markets)[k].condition_id)),
        forall|j: int|
            0 <= j < unseen(seen, markets).len() && j != k ==> or_empty(
                (#[trigger] unseen(seen, markets)[j]).condition_id,
            ) != or_empty(unseen(seen, markets)[k].condition_id),
    decreases markets.len(),
{
    let init = unseen(seen, markets.drop_last());
    let all = unseen(seen, markets);
    let last = markets.last();
    assert(markets[markets.len() - 1] == last);
    if k < init.len() {
        only_new_markets_are_collected(seen, markets.drop_last(), k);
        let i = choose|i: int|
            0 <= i < markets.drop_last().len() && markets.drop_last()[i] == init[k];
        assert(markets[i] == init[k]);
        assert(all[k] == init[k]);
        assert(condition_ids(init)[k] == or_empty(init[k].condition_id));
        assert forall|j: int| 0 <= j < all.len() && j != k implies or_empty(
            (#[trigger] all[j]).condition_id,
        ) != or_empty(all[k].condition_id) by {
            if j < init.len() {
                assert(all[j] == init[j]);
            } else {
                assert(condition_ids(init).contains(or_empty(init[k].condition_id)));
            }
        }
    } else {
        assert(all[k] == last);
        assert forall|j: int| 0 <= j < all.len() && j != k implies or_empty(
            (#[trigger] all[j]).condition_id,
        ) != or_empty(all[k].condition_id) by {
            assert(all[j] == init[j]);
            assert(condition_ids(init)[j] == or_empty(init[j].condition_id));
            assert(condition_ids(init).contains(or_empty(init[j].condition_id)));
        }
    }
}

/// Every market of a page is in the collection afterwards, itself or by another
/// one with its condition id.
pub proof fn no_market_is_lost(seen: Set<Seq<char>>, markets: Seq<GammaMarket>, i: int)
    requires
        0 <= i < markets.len(),
    ensures
        ({
            let id = or_empty(markets[i].condition_id);
            seen.contains(id) || condition_ids(unseen(seen, markets)).contains(id)
        }),
    decreases markets.len(),
{
    let init = unseen(seen, markets.drop_last());
    let last = markets.last();
    let id = or_empty(markets[i].condition_id);
    if i < markets.len() - 1 {
        no_market_is_lost(seen, markets.drop_last(), i);
        if condition_ids(init).contains(id) {
            lemma_condition_ids_push(init, last);
            lemma_contains_concat(condition_ids(init), seq![or_empty(last.condition_id)], id);
            assert(condition_ids(init).push(or_empty(last.condition_id)) =~= condition_ids(init)
                + seq![or_empty(last.condition_id)]);
        }
    } else {
        lemma_condition_ids_push(init, last);
        let ids = condition_ids(init.push(last));
        assert(ids[ids.len() - 1] == id);
    }
}

/// The report on a venue's backfills, given whether the one for sports and the one
/// for politics went through; none where both did.
pub open spec fn failure_report(venue: Seq<char>, sport_ok: bool, politics_ok: bool) -> Option<
    Seq<char>,
> {
    let sport = "\n- "@ + venue + " sport backfill failed"@;
    let politics = "\n- "@ + venue + " politics backfill failed"@;
    match (sport_ok, politics_ok) {
        (true, true) => None,
        (false, true) => Some("multiple backfill errors:"@ + sport),
        (true, false) => Some("multiple backfill errors:"@ + politics),
        (false, false) => Some("multiple backfill errors:"@ + sport + politics),
    }
}

/// Sums up a venue's backfills.
pub fn backfill_report(venue: &str, sport_ok: bool, politics_ok: bool) -> (r: Result<(), String>)
    ensures
        match failure_report(venue@, sport_ok, politics_ok) {
            None => r is Ok,
            Some(report) => r matches Err(text) && text@ == report,
        },
{
    if sport_ok && politics_ok {
        return Ok(());
    }
    let mut report = "multiple backfill errors:".to_owned();
    if !sport_ok {
        report.append("\n- ");
        report.append(venue);
        report.append(" sport backfill failed");
    }
    if !politics_ok {
        report.append("\n- ");
        report.append(venue);
        report.append(" politics backfill failed");
    }
    proof {
        let full = failure_report(venue@, sport_ok, politics_ok)->0;
        assert(report@ =~= full);
    }
    Err(report)
}

} // verus!
