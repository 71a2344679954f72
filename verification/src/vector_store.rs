//! What is asked of the vector store, and what its answers mean.
use crate::clock;
use crate::markets::{
    payload_error, GammaMarket, KalshiMarket, QdrantMarketConverter, QdrantPayload,
    QdrantPointData,
};
use crate::messages::{all_some, hit_message, ClientAction, ClientEbo, MatchCandidate, SimilarityHit};
use crate::ids;
use crate::models::{MarketInfo, Platform, PlatformCode};
use crate::tags::{tag_info, topics_are_filed_apart, MarketTag};
use vstd::prelude::*;

verus! {

/// The collection that holds the markets.
pub const COLLECTION_NAME: &'static str = "Aroni";

/// Payload field: the market's identifier.
pub const FIELD_UUID: &'static str = "market_info.uuid";

/// Payload field: the market's category.
pub const FIELD_MARKET_CATEGORY: &'static str = "market_info.market_category";

/// Payload field: the market's venue.
pub const FIELD_PLATFORM: &'static str = "market_info.platform";

/// Payload field: the market's subcategory.
pub const FIELD_MARKET_SUBCATEGORY: &'static str = "market_info.market_subcategory";

/// Payload field: when the market closes.
pub const FIELD_CLOSE_TIME_MS: &'static str = "market_info.close_time_ms";

/// Payload field: when the market was stored.
pub const FIELD_INSERTED_AT: &'static str = "qdrant_inserted_at";

/// How a payload field is indexed.
#[derive(Debug, Clone, Copy, PartialEq, Eq, Structural)]
pub enum FieldKind {
    Uuid,
    Integer,
    Keyword,
}

/// A payload field to index.
#[derive(Debug, Clone, Copy)]
pub struct PayloadIndex {
    pub field: &'static str,
    pub kind: FieldKind,
}

/// The payload fields to index, in order.
pub fn payload_indexes() -> (r: [PayloadIndex; 6])
    ensures
        r@ == seq![
            PayloadIndex { field: FIELD_UUID, kind: FieldKind::Uuid },
            PayloadIndex { field: FIELD_PLATFORM, kind: FieldKind::Integer },
            PayloadIndex { field: FIELD_MARKET_CATEGORY, kind: FieldKind::Keyword },
            PayloadIndex { field: FIELD_MARKET_SUBCATEGORY, kind: FieldKind::Keyword },
            PayloadIndex { field: FIELD_CLOSE_TIME_MS, kind: FieldKind::Integer },
            PayloadIndex { field: FIELD_INSERTED_AT, kind: FieldKind::Integer },
        ],
{
    [
        PayloadIndex { field: FIELD_UUID, kind: FieldKind::Uuid },
        PayloadIndex { field: FIELD_PLATFORM, kind: FieldKind::Integer },
        PayloadIndex { field: FIELD_MARKET_CATEGORY, kind: FieldKind::Keyword },
        PayloadIndex { field: FIELD_MARKET_SUBCATEGORY, kind: FieldKind::Keyword },
        PayloadIndex { field: FIELD_CLOSE_TIME_MS, kind: FieldKind::Integer },
        PayloadIndex { field: FIELD_INSERTED_AT, kind: FieldKind::Integer },
    ]
}

/// The edges per node of the graph index: 32 where none are asked for.
pub fn edges_per_node(asked: u64) -> (r: u64)
    ensures
        r == if asked == 0 {
            32
        } else {
            asked
        },
{
    if asked == 0 {
        32
    } else {
        asked
    }
}

/// The number of hits to ask for: 10 where none are asked for.
pub fn search_limit(asked: u64) -> (r: u64)
    ensures
        r == if asked == 0 {
            10
        } else {
            asked
        },
{
    if asked == 0 {
        10
    } else {
        asked
    }
}

/// The number of points to store at a time: at least two thousand.
pub fn insert_chunk(asked: usize) -> (r: usize)
    ensures
        r == if asked < 2_000 {
            2_000
        } else {
            asked
        },
{
    if asked < 2_000 {
        2_000
    } else {
        asked
    }
}

/// A condition on a stored market.
#[derive(Debug)]
pub enum FieldMatch {
    Keyword(&'static str, String),
    Venue(&'static str, Platform),
}

/// Which stored markets a search looks at.
#[derive(Debug)]
pub struct StoreFilter {
    pub must: Vec<FieldMatch>,
    pub must_not: Vec<FieldMatch>,
}

/// Whether the condition is that the field holds the keyword.
pub open spec fn is_keyword(m: FieldMatch, field: Seq<char>, value: Seq<char>) -> bool {
    m matches FieldMatch::Keyword(f, v) && f@ == field && v@ == value
}

/// Whether the condition is that the market is of the venue.
pub open spec fn is_venue(m: FieldMatch, platform: Platform) -> bool {
    m matches FieldMatch::Venue(f, p) && f@ == FIELD_PLATFORM@ && p == platform
}

/// Whether the filter admits exactly the markets of the topic on other venues.
pub open spec fn finds_other_venues(f: StoreFilter, platform: Platform, market: MarketTag) -> bool {
    &&& f.must@.len() == 2
    &&& is_keyword(f.must@[0], FIELD_MARKET_CATEGORY@, tag_info(market).0)
    &&& is_keyword(f.must@[1], FIELD_MARKET_SUBCATEGORY@, tag_info(market).1)
    &&& f.must_not@.len() == 1
    &&& is_venue(f.must_not@[0], platform)
}

/// Whether the filter admits exactly the markets of the topic on the same venue.
pub open spec fn finds_same_venue(f: StoreFilter, platform: Platform, market: MarketTag) -> bool {
    &&& f.must@.len() == 3
    &&& is_venue(f.must@[0], platform)
    &&& is_keyword(f.must@[1], FIELD_MARKET_CATEGORY@, tag_info(market).0)
    &&& is_keyword(f.must@[2], FIELD_MARKET_SUBCATEGORY@, tag_info(market).1)
    &&& f.must_not@.len() == 0
}

/// What is stored of a market under a payload field, as far as filters look at it.
pub open spec fn stored_keyword(info: MarketInfo, field: Seq<char>) -> Option<Seq<char>> {
    if field == "market_info.market_category"@ {
        Some(info.market_category@)
    } else if field == "market_info.market_subcategory"@ {
        Some(info.market_subcategory@)
    } else {
        None
    }
}

/// Whether a condition holds of a stored market.
pub open spec fn holds_of(m: FieldMatch, info: MarketInfo) -> bool {
    match m {
        FieldMatch::Keyword(field, value) => stored_keyword(info, field@) == Some(value@),
        FieldMatch::Venue(field, venue) => field@ == "market_info.platform"@ && info.platform
            == PlatformCode::Known(venue),
    }
}

/// Whether a filter admits a stored market: every condition that must hold does, and
/// none that must not hold does.
pub open spec fn admits(f: StoreFilter, info: MarketInfo) -> bool {
    &&& forall|i: int| 0 <= i < f.must@.len() ==> holds_of(#[trigger] f.must@[i], info)
    &&& forall|i: int| 0 <= i < f.must_not@.len() ==> !holds_of(#[trigger] f.must_not@[i], info)
}

proof fn lemma_field_names()
    ensures
        "market_info.market_category"@ != "market_info.market_subcategory"@,
{
    reveal_strlit("market_info.market_category");
    reveal_strlit("market_info.market_subcategory");
    assert("market_info.market_category"@.len() == 27);
    assert("market_info.market_subcategory"@.len() == 30);
}

/// A search for other venues looks at exactly those stored markets that are filed
/// under the topic and are not of the given venue.
pub proof fn cross_searches_look_elsewhere(
    f: StoreFilter,
    platform: Platform,
    market: MarketTag,
    info: MarketInfo,
)
    requires
        finds_other_venues(f, platform, market),
    ensures
        admits(f, info) <==> {
            &&& info.market_category@ == tag_info(market).0
            &&& info.market_subcategory@ == tag_info(market).1
            &&& info.platform != PlatformCode::Known(platform)
        },
{
    lemma_field_names();
    if admits(f, info) {
        assert(holds_of(f.must@[0], info));
        assert(holds_of(f.must@[1], info));
        assert(!holds_of(f.must_not@[0], info));
    }
}

/// A search on the same venue looks at exactly those stored markets that are filed
/// under the topic and are of the given venue.
pub proof fn intra_searches_look_at_home(
    f: StoreFilter,
    platform: Platform,
    market: MarketTag,
    info: MarketInfo,
)
    requires
        finds_same_venue(f, platform, market),
    ensures
        admits(f, info) <==> {
            &&& info.market_category@ == tag_info(market).0
            &&& info.market_subcategory@ == tag_info(market).1
            &&& info.platform == PlatformCode::Known(platform)
        },
{
    lemma_field_names();
    if admits(f, info) {
        assert(holds_of(f.must@[0], info));
        assert(holds_of(f.must@[1], info));
        assert(holds_of(f.must@[2], info));
    }
}

/// Of the markets that are filed under a topic, each is found by exactly one of the
/// two searches that start from a venue.
pub proof fn every_market_is_on_one_side(
    cross: StoreFilter,
    intra: StoreFilter,
    platform: Platform,
    market: MarketTag,
    info: MarketInfo,
)
    requires
        finds_other_venues(cross, platform, market),
        finds_same_venue(intra, platform, market),
    ensures
        !(admits(cross, info) && admits(intra, info)),
        (info.market_category@, info.market_subcategory@) == tag_info(market) ==> admits(
            cross,
            info,
        ) || admits(intra, info),
{
    cross_searches_look_elsewhere(cross, platform, market, info);
    intra_searches_look_at_home(intra, platform, market, info);
}

/// A market of one venue that was converted under a topic is found by a search for
/// the same topic from the other venue, and by none from its own or for another topic.
pub proof fn equivalent_markets_find_each_other(
    f: StoreFilter,
    platform: Platform,
    market: MarketTag,
    kalshi: KalshiMarket,
    gamma: GammaMarket,
    topic: MarketTag,
    payload: QdrantPayload,
    now_ms: i64,
)
    requires
        finds_other_venues(f, platform, market),
    ensures
        <QdrantPayload as QdrantMarketConverter<KalshiMarket>>::converts(
            payload,
            kalshi,
            tag_info(topic).0,
            tag_info(topic).1,
            now_ms,
        ) ==> (admits(f, payload.market_info->0) <==> platform is Polymarket && topic == market),
        <QdrantPayload as QdrantMarketConverter<GammaMarket>>::converts(
            payload,
            gamma,
            tag_info(topic).0,
            tag_info(topic).1,
            now_ms,
        ) ==> (admits(f, payload.market_info->0) <==> platform is Kalshi && topic == market),
{
    topics_are_filed_apart(topic, market);
    cross_searches_look_elsewhere(f, platform, market, payload.market_info->0);
}

/// The filter for markets of a topic on other venues.
pub fn create_cross_platform_filter(platform: Option<Platform>, market: &MarketTag) -> (r: Option<
    StoreFilter,
>)
    ensures
        match platform {
            None => r is None,
            Some(p) => r matches Some(f) && finds_other_venues(f, p, *market),
        },
{
    let platform = match platform {
        Some(platform) => platform,
        None => return None,
    };
    let info = market.info();
    let mut must: Vec<FieldMatch> = Vec::new();
    must.push(FieldMatch::Keyword(FIELD_MARKET_CATEGORY, info.market_category.to_owned()));
    must.push(FieldMatch::Keyword(FIELD_MARKET_SUBCATEGORY, info.market_subcategory.to_owned()));
    let mut must_not: Vec<FieldMatch> = Vec::new();
    must_not.push(FieldMatch::Venue(FIELD_PLATFORM, platform));
    Some(StoreFilter { must, must_not })
}

/// The filter for markets of a topic on the same venue.
pub fn create_intra_platform_filter(platform: Option<Platform>, market: &MarketTag) -> (r: Option<
    StoreFilter,
>)
    ensures
        match platform {
            None => r is None,
            Some(p) => r matches Some(f) && finds_same_venue(f, p, *market),
        },
{
    let platform = match platform {
        Some(platform) => platform,
        None => return None,
    };
    let info = market.info();
    let mut must: Vec<FieldMatch> = Vec::new();
    must.push(FieldMatch::Venue(FIELD_PLATFORM, platform));
    must.push(FieldMatch::Keyword(FIELD_MARKET_CATEGORY, info.market_category.to_owned()));
    must.push(FieldMatch::Keyword(FIELD_MARKET_SUBCATEGORY, info.market_subcategory.to_owned()));
    Some(StoreFilter { must, must_not: Vec::new() })
}

/// How long a market is kept after it has closed, in milliseconds.
pub const KEPT_AFTER_CLOSE_MS: i64 = 172_800_000;

/// The closing time before which stored markets are deleted: two days ago.
pub fn cleanup_cutoff_ms(now_ms: i64) -> (r: i64)
    requires
        clock::representable(now_ms - KEPT_AFTER_CLOSE_MS),
    ensures
        r == now_ms - KEPT_AFTER_CLOSE_MS,
        now_ms - r == 2 * 24 * 60 * 60 * 1_000,
{
    now_ms - KEPT_AFTER_CLOSE_MS
}

/// The time of the last insert, as stored; an error where there is no date for it.
pub fn last_insert_time(stored_ms: Option<i64>) -> (r: Result<Option<i64>, i64>)
    ensures
        match stored_ms {
            None => r == Ok::<Option<i64>, i64>(None),
            Some(ms) => if clock::representable(ms as int) {
                r == Ok::<Option<i64>, i64>(Some(ms))
            } else {
                r == Err::<Option<i64>, i64>(ms)
            },
        },
{
    match stored_ms {
        None => Ok(None),
        Some(ms) => if clock::has_date(ms) {
            Ok(Some(ms))
        } else {
            Err(ms)
        },
    }
}

/// Why the hits of a search cannot be reported.
#[derive(Debug, Clone, Copy, PartialEq, Eq, Structural)]
pub enum SearchError {
    MissingMarketInfo,
    UnreadableHit,
}

/// Whether `ebo` reports the hits for a market.
pub open spec fn reports_hits(
    ebo: ClientEbo,
    anchor: QdrantPayload,
    hits: Seq<Option<MatchCandidate>>,
    now_ms: i64,
) -> bool {
    &&& anchor.market_info matches Some(info)
    &&& ebo.correlation_id@ == ids::uuid_v5(info.uuid@ + ":"@ + info.market_id@)
    &&& ebo.action_at == now_ms
    &&& ebo.action matches ClientAction::CrossPlatformHit(hit)
    &&& hit.anchor == anchor.market_info
    &&& hit.matches@ == hits.map_values(|m: Option<MatchCandidate>| m->0)
}

/// What keeps the hits for a market from being reported, if anything does.
pub open spec fn search_error(anchor: QdrantPayload, hits: Seq<Option<MatchCandidate>>) -> Option<
    SearchError,
> {
    if hits.len() == 0 {
        None
    } else if anchor.market_info is None {
        Some(SearchError::MissingMarketInfo)
    } else if !all_some(hits) {
        Some(SearchError::UnreadableHit)
    } else {
        None
    }
}

/// What a search for a market comes to. The market is to be stored unless there is
/// an error; a message goes out if there are hits.
pub fn search_outcome(anchor: QdrantPayload, hits: Vec<Option<MatchCandidate>>, now_ms: i64) -> (r:
    Result<Option<ClientEbo>, SearchError>)
    ensures
        searched(anchor, hits@, now_ms, r),
{
    if hits.len() == 0 {
        return Ok(None);
    }
    let info = match &anchor.market_info {
        Some(info) => info.clone(),
        None => return Err(SearchError::MissingMarketInfo),
    };
    match SimilarityHit::try_from_results(anchor, hits) {
        Some(hit) => Ok(Some(hit_message(&info, hit, now_ms))),
        None => Err(SearchError::UnreadableHit),
    }
}

/// Whether `r` is what a search for a market comes to.
pub open spec fn searched(
    anchor: QdrantPayload,
    hits: Seq<Option<MatchCandidate>>,
    now_ms: i64,
    r: Result<Option<ClientEbo>, SearchError>,
) -> bool {
    &&& r matches Err(e) ==> search_error(anchor, hits) == Some(e)
    &&& r is Ok <==> search_error(anchor, hits) is None
    &&& r matches Ok(None) ==> hits.len() == 0
    &&& r matches Ok(Some(ebo)) ==> hits.len() > 0 && reports_hits(ebo, anchor, hits, now_ms)
}

/// A search without hits is never an error and reports nothing. One with hits is
/// reported exactly where the market and every hit could be read, and the report names
/// the market and all hits in their order.
pub proof fn hits_are_reported_in_full(
    anchor: QdrantPayload,
    hits: Seq<Option<MatchCandidate>>,
    now_ms: i64,
    r: Result<Option<ClientEbo>, SearchError>,
)
    requires
        searched(anchor, hits, now_ms, r),
    ensures
        hits.len() == 0 ==> r is Ok && r->Ok_0 is None,
        hits.len() > 0 ==> (r is Ok <==> anchor.market_info is Some && forall|i: int|
            0 <= i < hits.len() ==> #[trigger] hits[i] is Some),
        hits.len() > 0 && r is Ok ==> {
            &&& r->Ok_0 matches Some(ebo)
            &&& ebo.action_at == now_ms
            &&& ebo.correlation_id@ == ids::uuid_v5(
                anchor.market_info->0.uuid@ + ":"@ + anchor.market_info->0.market_id@,
            )
            &&& ebo.action matches ClientAction::CrossPlatformHit(hit)
            &&& hit.anchor == anchor.market_info
            &&& hit.matches@.len() == hits.len()
            &&& forall|i: int| 0 <= i < hits.len() ==> Some(#[trigger] hit.matches@[i]) == hits[i]
        },
{
}

/// A market to store and the filter for its search.
#[derive(Debug)]
pub struct BatchItem {
    pub payload: QdrantPayload,
    pub filter: Option<StoreFilter>,
}

/// A market that is fit to be stored and the filter for its search.
#[derive(Debug)]
pub struct BatchPoint {
    pub point: QdrantPointData,
    pub filter: Option<StoreFilter>,
}

/// The points of those items whose markets are valid, each with its filter, in
/// their order.
pub fn prepare_batch(items: Vec<BatchItem>) -> (r: Vec<BatchPoint>)
    ensures
        r@.map_values(|p: BatchPoint| BatchItem { payload: p.point.stored(), filter: p.filter })
            == items@.filter(|item: BatchItem| payload_error(item.payload) is None),
{
    let ghost all = items@;
    let ghost back = |p: BatchPoint| BatchItem { payload: p.point.stored(), filter: p.filter };
    let ghost valid = |item: BatchItem| payload_error(item.payload) is None;
    let mut points: Vec<BatchPoint> = Vec::new();
    proof {
        reveal(Seq::filter);
    }
    for item in it: items
        invariant
            it.seq() == all,
            back == (|p: BatchPoint| BatchItem { payload: p.point.stored(), filter: p.filter }),
            valid == (|item: BatchItem| payload_error(item.payload) is None),
            points@.map_values(back) == all.take(it.index()).filter(valid),
    {
        let ghost before = points@;
        let ghost this = item;
        proof {
            reveal(Seq::filter);
            assert(all.take(it.index() + 1).drop_last() =~= all.take(it.index()));
            assert(all.take(it.index() + 1).last() == item);
        }
        let BatchItem { payload, filter } = item;
        if let Ok(point) = QdrantPointData::new(payload) {
            points.push(BatchPoint { point, filter });
            assert(points@.map_values(back) =~= before.map_values(back).push(this));
        }
    }
    assert(all.take(all.len() as int) =~= all);
    points
}

/// What a batch of searches comes to.
#[derive(Debug)]
pub enum BatchOutcome {
    /// The store answered a different number of searches than it was asked; nothing
    /// is stored.
    Misaligned(usize, usize),
    /// The markets are to be stored and the messages sent; the search that could not
    /// be reported, if any, ended the batch.
    Aligned(Vec<ClientEbo>, Option<SearchError>),
}

/// The messages for the first searches of a batch.
pub open spec fn batch_reports(
    messages: Seq<ClientEbo>,
    anchors: Seq<QdrantPayload>,
    hits: Seq<Vec<Option<MatchCandidate>>>,
    now_ms: i64,
) -> bool
    decreases anchors.len(),
{
    if anchors.len() == 0 || hits.len() == 0 {
        messages.len() == 0
    } else if hits.last()@.len() == 0 {
        batch_reports(messages, anchors.drop_last(), hits.drop_last(), now_ms)
    } else {
        &&& messages.len() > 0
        &&& reports_hits(messages.last(), anchors.last(), hits.last()@, now_ms)
        &&& batch_reports(messages.drop_last(), anchors.drop_last(), hits.drop_last(), now_ms)
    }
}

/// Whether none of the first `n` searches of a batch fails to be reported.
pub open spec fn reportable(
    anchors: Seq<QdrantPayload>,
    hits: Seq<Vec<Option<MatchCandidate>>>,
    n: int,
) -> bool {
    forall|i: int| 0 <= i < n ==> #[trigger] search_error(anchors[i], hits[i]@) is None
}

/// The number of searches that found something.
pub open spec fn fruitful(hits: Seq<Vec<Option<MatchCandidate>>>) -> nat
    decreases hits.len(),
{
    if hits.len() == 0 {
        0
    } else if hits.last()@.len() == 0 {
        fruitful(hits.drop_last())
    } else {
        fruitful(hits.drop_last()) + 1
    }
}

/// A batch gives one message for each search that found something, and each search
/// that did is reported by one of them.
pub proof fn every_fruitful_search_is_reported(
    messages: Seq<ClientEbo>,
    anchors: Seq<QdrantPayload>,
    hits: Seq<Vec<Option<MatchCandidate>>>,
    now_ms: i64,
)
    requires
        batch_reports(messages, anchors, hits, now_ms),
        anchors.len() == hits.len(),
    ensures
        messages.len() == fruitful(hits),
        forall|i: int|
            0 <= i < hits.len() && (#[trigger] hits[i])@.len() > 0 ==> exists|k: int|
                0 <= k < messages.len() && #[trigger] reports_hits(
                    messages[k],
                    anchors[i],
                    hits[i]@,
                    now_ms,
                ),
    decreases anchors.len(),
{
    if anchors.len() > 0 {
        let (a, h) = (anchors.drop_last(), hits.drop_last());
        let quiet = hits.last()@.len() == 0;
        let m = if quiet {
            messages
        } else {
            messages.drop_last()
        };
        every_fruitful_search_is_reported(m, a, h, now_ms);
        assert forall|i: int| 0 <= i < hits.len() && (#[trigger] hits[i])@.len() > 0 implies exists|
            k: int,
        |
            0 <= k < messages.len() && #[trigger] reports_hits(
                messages[k],
                anchors[i],
                hits[i]@,
                now_ms,
            ) by {
            if i < h.len() {
                assert(h[i] == hits[i] && a[i] == anchors[i]);
                let k = choose|k: int|
                    0 <= k < m.len() && #[trigger] reports_hits(m[k], a[i], h[i]@, now_ms);
                assert(reports_hits(messages[k], anchors[i], hits[i]@, now_ms));
            } else {
                let k = messages.len() - 1;
                assert(reports_hits(messages[k], anchors[i], hits[i]@, now_ms));
            }
        }
    }
}

/// Whether `r` is what a batch of searches comes to.
pub open spec fn batch_came_to(
    anchors: Seq<QdrantPayload>,
    hits: Seq<Vec<Option<MatchCandidate>>>,
    now_ms: i64,
    r: BatchOutcome,
) -> bool {
    if hits.len() == 0 {
        r matches BatchOutcome::Aligned(messages, None) && messages@.len() == 0
    } else if anchors.len() != hits.len() {
        r == BatchOutcome::Misaligned(anchors.len() as usize, hits.len() as usize)
    } else {
        &&& r matches BatchOutcome::Aligned(messages, failure)
        &&& match failure {
            None => reportable(anchors, hits, anchors.len() as int) && batch_reports(
                messages@,
                anchors,
                hits,
                now_ms,
            ),
            Some(e) => exists|n: int|
                {
                    &&& 0 <= n < anchors.len()
                    &&& #[trigger] reportable(anchors, hits, n)
                    &&& search_error(anchors[n], hits[n]@) == Some(e)
                    &&& batch_reports(messages@, anchors.take(n), hits.take(n), now_ms)
                },
        }
    }
}

/// A batch is refused exactly where the store answered some searches but not as many as
/// it was asked. Of the others, a batch whose every search can be reported is reported in
/// full, one message for each search that found something; one that the store did not
/// answer at all reports nothing.
pub proof fn batches_are_all_reported(
    anchors: Seq<QdrantPayload>,
    hits: Seq<Vec<Option<MatchCandidate>>>,
    now_ms: i64,
    r: BatchOutcome,
)
    requires
        batch_came_to(anchors, hits, now_ms, r),
    ensures
        r is Misaligned <==> hits.len() > 0 && anchors.len() != hits.len(),
        r matches BatchOutcome::Aligned(messages, failure) ==> {
            &&& hits.len() == 0 ==> messages@.len() == 0 && failure is None
            &&& failure is None && hits.len() > 0 ==> messages@.len() == fruitful(hits)
            &&& hits.len() > 0 ==> (failure is None <==> forall|i: int|
                0 <= i < hits.len() ==> (#[trigger] hits[i])@.len() == 0 || (
                anchors[i].market_info is Some && all_some(hits[i]@)))
        },
{
    if let BatchOutcome::Aligned(messages, failure) = r {
        if hits.len() > 0 {
            if failure is None {
                every_fruitful_search_is_reported(messages@, anchors, hits, now_ms);
                assert forall|i: int| 0 <= i < hits.len() implies (#[trigger] hits[i])@.len() == 0
                    || (anchors[i].market_info is Some && all_some(hits[i]@)) by {
                    assert(search_error(anchors[i], hits[i]@) is None);
                }
            } else {
                let n = choose|n: int|
                    {
                        &&& 0 <= n < anchors.len()
                        &&& #[trigger] reportable(anchors, hits, n)
                        &&& search_error(anchors[n], hits[n]@) == failure
                        &&& batch_reports(messages@, anchors.take(n), hits.take(n), now_ms)
                    };
                assert(hits[n]@.len() > 0 && !(anchors[n].market_info is Some && all_some(
                    hits[n]@,
                )));
            }
        }
    }
}

/// What a batch of searches comes to. A store that answers nothing at all has found
/// nothing.
pub fn batch_outcome(
    anchors: Vec<QdrantPayload>,
    hits: Vec<Vec<Option<MatchCandidate>>>,
    now_ms: i64,
) -> (r: BatchOutcome)
    ensures
        batch_came_to(anchors@, hits@, now_ms, r),
{
    if hits.len() == 0 {
        return BatchOutcome::Aligned(Vec::new(), None);
    }
    if anchors.len() != hits.len() {
        return BatchOutcome::Misaligned(anchors.len(), hits.len());
    }
    let ghost all_anchors = anchors@;
    let ghost all_hits = hits@;
    let mut messages: Vec<ClientEbo> = Vec::new();
    let mut hits_left = hits;
    let mut anchors_left = anchors;
    let mut i: usize = 0;
    let total: usize = hits_left.len();
    while i < total
        invariant
            i <= total == all_anchors.len(),
            total == all_hits.len(),
            anchors_left@ == all_anchors.subrange(i as int, total as int),
            hits_left@ == all_hits.subrange(i as int, total as int),
            all_anchors == anchors@,
            all_hits == hits@,
            reportable(all_anchors, all_hits, i as int),
            batch_reports(
                messages@,
                all_anchors.take(i as int),
                all_hits.take(i as int),
                now_ms,
            ),
        decreases total - i,
    {
        let anchor = anchors_left.remove(0);
        let found = hits_left.remove(0);
        let ghost seen = found@;
        proof {
            assert(anchor == all_anchors[i as int]);
            assert(found == all_hits[i as int]);
            assert(anchors_left@ =~= all_anchors.subrange(i + 1, total as int));
            assert(hits_left@ =~= all_hits.subrange(i + 1, total as int));
            assert(all_anchors.take(i + 1).drop_last() =~= all_anchors.take(i as int));
            assert(all_hits.take(i + 1).drop_last() =~= all_hits.take(i as int));
            assert(all_anchors.take(i + 1).last() == anchor);
            assert(all_hits.take(i + 1).last() == found);
        }
        match search_outcome(anchor, found, now_ms) {
            Err(e) => {
                assert(reportable(all_anchors, all_hits, i as int));
                return BatchOutcome::Aligned(messages, Some(e));
            },
            Ok(None) => {},
            Ok(Some(ebo)) => {
                let ghost before = messages@;
                messages.push(ebo);
                assert(messages@.drop_last() =~= before);
            },
        }
        i += 1;
    }
    assert(all_anchors.take(total as int) =~= all_anchors);
    assert(all_hits.take(total as int) =~= all_hits);
    BatchOutcome::Aligned(messages, None)
}

} // verus!
