//! What the engine tells the dashboard.
use crate::dec::Dec;
use crate::ids;
use crate::markets::QdrantPayload;
use crate::models::{Arb, ArbEssentials, Discovery, F32Bits, MarketInfo, Platform, PlatformCode};
use crate::text;
use vstd::prelude::*;

verus! {

/// A market that resembles another one.
#[derive(Debug)]
pub struct MatchCandidate {
    pub scored: F32Bits,
    pub market_info: Option<MarketInfo>,
}

/// A market and those that resemble it.
#[derive(Debug)]
pub struct SimilarityHit {
    pub anchor: Option<MarketInfo>,
    pub matches: Vec<MatchCandidate>,
}

/// Reports the two orders of an arb.
#[derive(Debug)]
pub struct OrderMade {
    pub anchor_cost: Dec,
    pub match_cost: Dec,
    pub anchor_fill: Dec,
    pub match_fill: Dec,
    pub excess_fill: Dec,
    pub anchor_order_id: String,
    pub match_order_id: String,
    pub arb_correlation_id: String,
}

/// Reports the order that sells what one leg bought in excess.
#[derive(Debug)]
pub struct ExcessFillOrderMade {
    pub order_id: String,
    pub platform: Platform,
    pub excess_fill_size: Dec,
    pub excess_fill_cost: Dec,
}

/// What a message to the dashboard is about.
#[derive(Debug)]
pub enum ClientAction {
    CrossPlatformHit(SimilarityHit),
    CrossPlatformArb(Arb),
    DeleteRunningArbs(Vec<String>),
    GetRunningCrossPlatformArbs,
    OrderSubmitted(OrderMade),
    ExcessFillSubmitted(ExcessFillOrderMade),
}

/// A message to the dashboard.
#[derive(Debug)]
pub struct ClientEbo {
    pub correlation_id: String,
    pub action_at: i64,
    pub action: ClientAction,
}

/// A label, a value and the end of the line.
pub open spec fn text_line(label: Seq<char>, value: Seq<char>) -> Seq<char> {
    label + value + "\n"@
}

fn push_line(out: &mut String, label: &str, value: &str)
    ensures
        final(out)@ == old(out)@ + text_line(label@, value@),
{
    out.append(label);
    out.append(value);
    out.append("\n");
    assert(out@ =~= old(out)@ + text_line(label@, value@));
}

/// The lines on a market's categories, rules and ticker.
pub open spec fn filing_lines(info: MarketInfo) -> Seq<char> {
    text_line("Market category : "@, info.market_category@) + text_line(
        "Market subcategory : "@,
        info.market_subcategory@,
    ) + text_line("Rules : "@, info.rules@) + text_line("ticker : "@, info.market_id@)
}

fn push_filing_lines(out: &mut String, info: &MarketInfo)
    ensures
        final(out)@ == old(out)@ + filing_lines(*info),
{
    push_line(out, "Market category : ", info.market_category.as_str());
    push_line(out, "Market subcategory : ", info.market_subcategory.as_str());
    push_line(out, "Rules : ", info.rules.as_str());
    push_line(out, "ticker : ", info.market_id.as_str());
    assert(out@ =~= old(out)@ + filing_lines(*info));
}

/// A candidate in words: nothing where its market is missing.
pub open spec fn candidate_text(
    candidate: MatchCandidate,
    similarity: Seq<char>,
    venue: Seq<char>,
) -> Seq<char> {
    match candidate.market_info {
        None => Seq::empty(),
        Some(info) => "----------------------------------------\n"@ + text_line(
            "Question : "@,
            info.question@,
        ) + text_line("Outcomes : "@, info.outcome@) + text_line("Similarity : "@, similarity)
            + text_line("Platform : "@, venue) + filing_lines(info),
    }
}

impl MatchCandidate {
    /// The candidate in words, given the rendered similarity and venue.
    pub fn describe(&self, similarity: &str, venue: &str) -> (r: String)
        ensures
            r@ == candidate_text(*self, similarity@, venue@),
    {
        let mut out = String::new();
        if let Some(info) = &self.market_info {
            out.append("----------------------------------------\n");
            push_line(&mut out, "Question : ", info.question.as_str());
            push_line(&mut out, "Outcomes : ", info.outcome.as_str());
            push_line(&mut out, "Similarity : ", similarity);
            push_line(&mut out, "Platform : ", venue);
            push_filing_lines(&mut out, info);
        }
        assert(out@ =~= candidate_text(*self, similarity@, venue@));
        out
    }
}

/// Numbered candidates, each already in words.
pub open spec fn numbered(candidates: Seq<Seq<char>>) -> Seq<char>
    decreases candidates.len(),
{
    if candidates.len() == 0 {
        Seq::empty()
    } else {
        numbered(candidates.drop_last()) + text_line(
            "\nMatch #"@,
            text::numeral(candidates.len()),
        ) + text_line(candidates.last(), Seq::empty())
    }
}

/// A hit in words.
pub open spec fn hit_text(
    hit: SimilarityHit,
    venue: Seq<char>,
    candidates: Seq<Seq<char>>,
) -> Seq<char> {
    match hit.anchor {
        None => "ANCHOR MARKET: <missing>\n"@,
        Some(info) => "==============start================\nANCHOR MARKET\n"@ + text_line(
            "Question : "@,
            info.question@,
        ) + text_line("Outcomes : "@, info.outcome@) + text_line("Platform : "@, venue)
            + filing_lines(info) + text_line(
            "\nCANDIDATE MATCHES: "@,
            text::numeral(candidates.len()),
        ) + numbered(candidates) + "==============end================\n"@,
    }
}

/// Whether every conversion of a list succeeded.
pub open spec fn all_some<T>(list: Seq<Option<T>>) -> bool {
    forall|i: int| 0 <= i < list.len() ==> #[trigger] list[i] is Some
}

impl SimilarityHit {
    /// The hit for a market, given the candidates as far as they could be read;
    /// `None` where one could not.
    pub fn try_from_results(anchor: QdrantPayload, matches: Vec<Option<MatchCandidate>>) -> (r:
        Option<SimilarityHit>)
        ensures
            r is Some <==> all_some(matches@),
            r matches Some(hit) ==> hit.anchor == anchor.market_info && hit.matches@
                == matches@.map_values(|m: Option<MatchCandidate>| m->0),
    {
        let mut read: Vec<MatchCandidate> = Vec::new();
        let ghost all = matches@;
        for m in it: matches
            invariant
                it.seq() == all,
                read@.len() == it.index(),
                forall|j: int|
                    0 <= j < it.index() ==> #[trigger] all[j] is Some && read@[j] == all[j]->0,
        {
            match m {
                Some(candidate) => read.push(candidate),
                None => {
                    assert(all[it.index()] is None);
                    return None;
                },
            }
        }
        assert(read@ =~= all.map_values(|m: Option<MatchCandidate>| m->0));
        Some(SimilarityHit { anchor: anchor.market_info, matches: read })
    }

    /// The hit in words, given the rendered venue of its market and its candidates,
    /// each already in words.
    pub fn describe(&self, venue: &str, candidates: &Vec<String>) -> (r: String)
        requires
            candidates@.len() == self.matches@.len(),
        ensures
            r@ == hit_text(*self, venue@, ids::views(candidates@)),
    {
        let info = match &self.anchor {
            Some(info) => info,
            None => return "ANCHOR MARKET: <missing>\n".to_owned(),
        };
        let mut out = "==============start================\nANCHOR MARKET\n".to_owned();
        push_line(&mut out, "Question : ", info.question.as_str());
        push_line(&mut out, "Outcomes : ", info.outcome.as_str());
        push_line(&mut out, "Platform : ", venue);
        push_filing_lines(&mut out, info);
        let count = text::u64_text(candidates.len() as u64);
        push_line(&mut out, "\nCANDIDATE MATCHES: ", count.as_str());
        let ghost head = out@;
        let ghost all = ids::views(candidates@);
        assert(all.take(0) =~= Seq::<Seq<char>>::empty());
        assert(head + Seq::<char>::empty() =~= head);
        proof {
            reveal_strlit("");
            assert(""@ =~= Seq::<char>::empty());
        }
        let mut i: usize = 0;
        while i < candidates.len()
            invariant
                i <= candidates@.len(),
                all == ids::views(candidates@),
                ""@ == Seq::<char>::empty(),
                out@ == head + numbered(all.take(i as int)),
            decreases candidates@.len() - i,
        {
            let ghost before = out@;
            let number = text::u64_text(i as u64 + 1);
            push_line(&mut out, "\nMatch #", number.as_str());
            push_line(&mut out, candidates[i].as_str(), "");
            proof {
                let next = all.take(i + 1);
                assert(next.drop_last() =~= all.take(i as int));
                assert(next.last() == candidates@[i as int]@);
                assert(out@ =~= head + numbered(next));
            }
            i += 1;
        }
        assert(all.take(all.len() as int) =~= all);
        out.append("==============end================\n");
        assert(out@ =~= hit_text(*self, venue@, all));
        out
    }
}

/// Reports a hit under an id derived from the market's identifier and its id on
/// its venue.
pub fn hit_message(info: &MarketInfo, hit: SimilarityHit, now_ms: i64) -> (r: ClientEbo)
    ensures
        r.correlation_id@ == ids::uuid_v5(info.uuid@ + ":"@ + info.market_id@),
        r.action_at == now_ms,
        r.action == ClientAction::CrossPlatformHit(hit),
{
    ClientEbo {
        correlation_id: ids::joined_id(info.uuid.as_str(), info.market_id.as_str()),
        action_at: now_ms,
        action: ClientAction::CrossPlatformHit(hit),
    }
}

/// Asks for the removal of one arb.
pub fn delete_message(cid: &str) -> (r: ClientEbo)
    ensures
        r.correlation_id@ == Seq::<char>::empty(),
        r.action_at == 0,
        r.action matches ClientAction::DeleteRunningArbs(cids) && ids::views(cids@) == seq![cid@],
{
    let mut cids: Vec<String> = Vec::new();
    cids.push(cid.to_owned());
    assert(ids::views(cids@) =~= seq![cid@]);
    ClientEbo {
        correlation_id: String::new(),
        action_at: 0,
        action: ClientAction::DeleteRunningArbs(cids),
    }
}

/// Asks for the arbs that are to be watched.
pub fn running_arbs_message() -> (r: ClientEbo)
    ensures
        r.correlation_id@ == Seq::<char>::empty(),
        r.action_at == 0,
        r.action == ClientAction::GetRunningCrossPlatformArbs,
{
    ClientEbo {
        correlation_id: String::new(),
        action_at: 0,
        action: ClientAction::GetRunningCrossPlatformArbs,
    }
}

/// Why a discovered market cannot be looked up.
#[derive(Debug, Clone, Copy, PartialEq, Eq, Structural)]
pub enum DiscoveryError {
    MissingMarketInfo,
    UnknownPlatform(i32),
}

/// The venue on which a discovered market is to be looked up.
pub fn discovery_platform(discovery: &Discovery) -> (r: Result<Platform, DiscoveryError>)
    ensures
        match discovery.market_info {
            None => r == Err::<Platform, DiscoveryError>(DiscoveryError::MissingMarketInfo),
            Some(info) => match info.platform {
                PlatformCode::Known(platform) => r == Ok::<Platform, DiscoveryError>(platform),
                PlatformCode::Unknown(code) => r == Err::<Platform, DiscoveryError>(
                    DiscoveryError::UnknownPlatform(code),
                ),
            },
        },
{
    match &discovery.market_info {
        None => Err(DiscoveryError::MissingMarketInfo),
        Some(info) => match info.platform {
            PlatformCode::Known(platform) => Ok(platform),
            PlatformCode::Unknown(code) => Err(DiscoveryError::UnknownPlatform(code)),
        },
    }
}

/// Whether `r` is the arb leg for a discovered market that was looked up again.
pub open spec fn refreshes(
    discovery: Discovery,
    looked_up: MarketInfo,
    token_id: String,
    r: Option<ArbEssentials>,
) -> bool {
    &&& r is None <==> discovery.market_info is None
    &&& r matches Some(essentials) ==> {
        &&& essentials.token_id == token_id
        &&& essentials.discovery matches Some(d)
        &&& d.leg == discovery.leg
        &&& d.leg_str == discovery.leg_str
        &&& d.market_info == Some(
            MarketInfo {
                market_category: discovery.market_info->0.market_category,
                market_subcategory: discovery.market_info->0.market_subcategory,
                ..looked_up
            },
        )
    }
}

/// A leg takes everything of its market from the lookup but for the categories, which, like
/// the side, are those that it was discovered under; its token is the given one.
pub proof fn lookups_keep_the_filing(
    discovery: Discovery,
    looked_up: MarketInfo,
    token_id: String,
    r: Option<ArbEssentials>,
)
    requires
        refreshes(discovery, looked_up, token_id, r),
    ensures
        r is Some <==> discovery.market_info is Some,
        r matches Some(essentials) ==> {
            let d = essentials.discovery->0;
            let (found, info) = (discovery.market_info->0, d.market_info->0);
            &&& essentials.discovery is Some && d.market_info is Some
            &&& essentials.token_id@ == token_id@
            &&& d.leg == discovery.leg && d.leg_str@ == discovery.leg_str@
            &&& info.market_category@ == found.market_category@
            &&& info.market_subcategory@ == found.market_subcategory@
            &&& info.uuid@ == looked_up.uuid@ && info.market_id@ == looked_up.market_id@
            &&& info.question@ == looked_up.question@ && info.outcome@ == looked_up.outcome@
            &&& info.rules@ == looked_up.rules@
            &&& info.platform == looked_up.platform
            &&& info.close_time_ms == looked_up.close_time_ms
        },
{
}

/// The arb leg for a discovered market, with the market as it was looked up and
/// the categories that it was discovered under.
pub fn arb_essentials(discovery: Discovery, looked_up: MarketInfo, token_id: String) -> (r: Option<
    ArbEssentials,
>)
    ensures
        refreshes(discovery, looked_up, token_id, r),
{
    let found = match discovery.market_info {
        Some(info) => info,
        None => return None,
    };
    let mut market = looked_up;
    market.market_category = found.market_category;
    market.market_subcategory = found.market_subcategory;
    Some(
        ArbEssentials {
            discovery: Some(
                Discovery {
                    market_info: Some(market),
                    leg: discovery.leg,
                    leg_str: discovery.leg_str,
                },
            ),
            token_id,
        },
    )
}

/// Whether `r` reports an arb.
pub open spec fn announces(
    anchor: ArbEssentials,
    matched: ArbEssentials,
    scored: F32Bits,
    now_ms: i64,
    r: ClientEbo,
) -> bool {
    &&& r.correlation_id@ == ids::uuid_v5(anchor.token_id@ + ":"@ + matched.token_id@)
    &&& r.action_at == now_ms
    &&& r.action == ClientAction::CrossPlatformArb(
        Arb { anchor: Some(anchor), matched: Some(matched), scored },
    )
}

/// A reported arb holds both legs, each in its place, and its score, under an id that only
/// the tokens of the two decide: reporting it again gives the same id.
pub proof fn arbs_are_reported_under_their_tokens(
    anchor: ArbEssentials,
    matched: ArbEssentials,
    scored: F32Bits,
    now_ms: i64,
    r: ClientEbo,
    later_anchor: ArbEssentials,
    later_matched: ArbEssentials,
    later_scored: F32Bits,
    later_ms: i64,
    later: ClientEbo,
)
    requires
        announces(anchor, matched, scored, now_ms, r),
        announces(later_anchor, later_matched, later_scored, later_ms, later),
    ensures
        r.action_at == now_ms,
        r.action matches ClientAction::CrossPlatformArb(arb) && arb.anchor == Some(anchor)
            && arb.matched == Some(matched) && arb.scored == scored,
        r.correlation_id@ == ids::uuid_v5(anchor.token_id@ + ":"@ + matched.token_id@),
        anchor.token_id@ == later_anchor.token_id@ && matched.token_id@ == later_matched.token_id@
            ==> r.correlation_id@ == later.correlation_id@,
{
}

/// Reports an arb under an id derived from the tokens of its legs.
pub fn arb_message(
    anchor: ArbEssentials,
    matched: ArbEssentials,
    scored: F32Bits,
    now_ms: i64,
) -> (r: ClientEbo)
    ensures
        announces(anchor, matched, scored, now_ms, r),
{
    ClientEbo {
        correlation_id: ids::joined_id(anchor.token_id.as_str(), matched.token_id.as_str()),
        action_at: now_ms,
        action: ClientAction::CrossPlatformArb(
            Arb { anchor: Some(anchor), matched: Some(matched), scored },
        ),
    }
}

} // verus!
