//! The values that venues, the dashboard and the engine exchange.
use crate::dec::Dec;
use crate::ids;
use crate::text;
use vstd::prelude::*;

verus! {

/// A trading venue.
#[derive(Debug, Clone, Copy, PartialEq, Eq, Hash, Structural)]
pub enum Platform {
    Kalshi,
    Polymarket,
}

/// The side of a market that an arb buys.
#[derive(Debug, Clone, Copy, PartialEq, Eq, Hash, Structural)]
pub enum Leg {
    Left,
    Right,
}

/// A platform field as received: one of the venues, or a number that stands
/// for none.
#[derive(Debug, Clone, Copy, PartialEq, Eq, Structural)]
pub enum PlatformCode {
    Known(Platform),
    Unknown(i32),
}

/// A leg field as received: one of the legs, or a number that stands for none.
#[derive(Debug, Clone, Copy, PartialEq, Eq, Structural)]
pub enum LegCode {
    Known(Leg),
    Unknown(i32),
}

/// A 32-bit float that is carried through unread, as its bit pattern.
#[derive(Debug, Clone, Copy, PartialEq, Eq, Structural)]
pub struct F32Bits {
    pub bits: u32,
}

/// The name under which a venue appears in keys and identifiers.
pub open spec fn platform_name(platform: Platform) -> Seq<char> {
    match platform {
        Platform::Kalshi => "KALSHI"@,
        Platform::Polymarket => "POLYMARKET"@,
    }
}

/// The position of a leg among a market's outcome tokens.
pub open spec fn leg_index(leg: Leg) -> int {
    match leg {
        Leg::Left => 0,
        Leg::Right => 1,
    }
}

impl Platform {
    /// The name under which this venue appears in keys and identifiers.
    pub fn name(self) -> (r: &'static str)
        ensures
            r@ == platform_name(self),
    {
        match self {
            Platform::Kalshi => "KALSHI",
            Platform::Polymarket => "POLYMARKET",
        }
    }
}

impl Leg {
    /// The position of this leg among a market's outcome tokens.
    pub fn index(self) -> (r: usize)
        ensures
            r == leg_index(self),
    {
        match self {
            Leg::Left => 0,
            Leg::Right => 1,
        }
    }
}

impl LegCode {
    /// The leg, the left one where the number stands for none.
    pub open spec fn or_left(self) -> Leg {
        match self {
            LegCode::Known(leg) => leg,
            LegCode::Unknown(_) => Leg::Left,
        }
    }

    /// The leg, the left one where the number stands for none.
    pub fn leg(self) -> (r: Leg)
        ensures
            r == self.or_left(),
    {
        match self {
            LegCode::Known(leg) => leg,
            LegCode::Unknown(_) => Leg::Left,
        }
    }
}

/// A leg field that names a leg is that leg; any other number counts as the left one.
pub proof fn unknown_legs_count_as_left(code: LegCode, leg: Leg)
    ensures
        code == LegCode::Known(leg) ==> code.or_left() == leg,
        code is Unknown ==> code.or_left() is Left,
{
}

/// Identifies a market on a venue: the venue's name, a colon and the asset id
/// (Polymarket) or the market ticker (Kalshi).
pub type MarketKey = String;

/// Identifies an accepted pair of markets.
pub type CorrelationId = String;

/// What [`make_market_key`] returns.
pub open spec fn market_key(asset_id: Seq<char>, platform: Platform) -> Seq<char> {
    platform_name(platform) + ":"@ + asset_id
}

/// The key of the market with this asset id or ticker.
pub fn make_market_key(asset_id: &str, platform: Platform) -> (r: MarketKey)
    ensures
        r@ == market_key(asset_id@, platform),
{
    text::concat3(platform.name(), ":", asset_id)
}

/// Two markets share a key only if they are the same market of the same venue.
pub proof fn market_keys_are_distinct(a: Seq<char>, p: Platform, b: Seq<char>, q: Platform)
    requires
        market_key(a, p) == market_key(b, q),
    ensures
        a == b,
        p == q,
{
    reveal_strlit("KALSHI");
    reveal_strlit("POLYMARKET");
    reveal_strlit(":");
    let ka = market_key(a, p);
    let kb = market_key(b, q);
    assert(ka[0] == platform_name(p)[0]);
    assert(kb[0] == platform_name(q)[0]);
    assert(p == q);
    let n = platform_name(p).len() as int + 1;
    assert(a =~= ka.subrange(n, ka.len() as int));
    assert(b =~= kb.subrange(n, kb.len() as int));
}

/// A key is the venue's name in capitals, a colon and the asset id or ticker as it is.
pub proof fn market_keys_name_the_venue(asset_id: Seq<char>)
    ensures
        market_key(asset_id, Platform::Kalshi) == "KALSHI:"@ + asset_id,
        market_key(asset_id, Platform::Polymarket) == "POLYMARKET:"@ + asset_id,
{
    reveal_strlit("KALSHI");
    reveal_strlit("POLYMARKET");
    reveal_strlit(":");
    reveal_strlit("KALSHI:");
    reveal_strlit("POLYMARKET:");
    assert("KALSHI"@ + ":"@ =~= "KALSHI:"@);
    assert("POLYMARKET"@ + ":"@ =~= "POLYMARKET:"@);
}

/// What is known of a market, in the form shared by both venues.
#[derive(Debug)]
pub struct MarketInfo {
    pub uuid: String,
    pub question: String,
    pub outcome: String,
    pub rules: String,
    pub market_id: String,
    pub market_category: String,
    pub market_subcategory: String,
    pub platform: PlatformCode,
    pub close_time_ms: i64,
}

impl Clone for MarketInfo {
    fn clone(&self) -> (r: Self)
        ensures
            r == *self,
    {
        MarketInfo {
            uuid: self.uuid.clone(),
            question: self.question.clone(),
            outcome: self.outcome.clone(),
            rules: self.rules.clone(),
            market_id: self.market_id.clone(),
            market_category: self.market_category.clone(),
            market_subcategory: self.market_subcategory.clone(),
            platform: self.platform,
            close_time_ms: self.close_time_ms,
        }
    }
}

/// A market that was found for one leg of a pair.
#[derive(Debug)]
pub struct Discovery {
    pub market_info: Option<MarketInfo>,
    pub leg: LegCode,
    pub leg_str: String,
}

/// A discovered market with the token to trade.
#[derive(Debug)]
pub struct ArbEssentials {
    pub discovery: Option<Discovery>,
    pub token_id: String,
}

/// A pair of equivalent markets with its similarity score.
#[derive(Debug)]
pub struct Arb {
    pub anchor: Option<ArbEssentials>,
    pub matched: Option<ArbEssentials>,
    pub scored: F32Bits,
}

/// One leg of a watched pair.
#[derive(Debug)]
pub struct ArbMinifiedInfo {
    pub market_key: MarketKey,
    pub platform: Platform,
    pub market_id: String,
    pub token_id: String,
    pub leg: Leg,
    pub close_time_ms: i64,
}

impl Clone for ArbMinifiedInfo {
    fn clone(&self) -> (r: Self)
        ensures
            r == *self,
    {
        ArbMinifiedInfo {
            market_key: self.market_key.clone(),
            platform: self.platform,
            market_id: self.market_id.clone(),
            token_id: self.token_id.clone(),
            leg: self.leg,
            close_time_ms: self.close_time_ms,
        }
    }
}

/// Both legs of a watched pair.
#[derive(Debug)]
pub struct ArbMinifiedInfoPair {
    pub anchor: ArbMinifiedInfo,
    pub matched: ArbMinifiedInfo,
    pub scored: F32Bits,
}

impl Clone for ArbMinifiedInfoPair {
    fn clone(&self) -> (r: Self)
        ensures
            r == *self,
    {
        ArbMinifiedInfoPair {
            anchor: self.anchor.clone(),
            matched: self.matched.clone(),
            scored: self.scored,
        }
    }
}

/// A watched pair under its correlation id.
#[derive(Debug)]
pub struct ArbWatch {
    pub correlation_id: CorrelationId,
    pub arb: ArbMinifiedInfoPair,
}

impl Clone for ArbWatch {
    fn clone(&self) -> (r: Self)
        ensures
            r == *self,
    {
        ArbWatch { correlation_id: self.correlation_id.clone(), arb: self.arb.clone() }
    }
}

/// The best prices of a market, carried as bit patterns, and when they held.
#[derive(Debug, Clone, Copy, PartialEq, Eq, Structural)]
pub struct TopOfBook {
    pub best_bid: F32Bits,
    pub bid_size: F32Bits,
    pub best_ask: F32Bits,
    pub ask_size: F32Bits,
    pub spread: F32Bits,
    pub tob_timestamp_ms: i64,
    pub sid: Option<i64>,
}

/// Asks the executor to buy both legs.
#[derive(Debug)]
pub struct ExecutionRequest {
    pub correlation_id: CorrelationId,
    pub anchor: ArbMinifiedInfo,
    pub matched: ArbMinifiedInfo,
    pub anchor_ws_price: Dec,
    pub match_ws_price: Dec,
    pub anchor_ws_size: Dec,
    pub match_ws_size: Dec,
}

/// Why a leg of an arb is not usable.
#[derive(Debug, Clone, Copy, PartialEq, Eq, Structural)]
pub enum LegError {
    MissingDiscovery,
    MissingMarketInfo,
    EmptyMarketId,
    ZeroCloseTime,
    EmptyTokenId,
    UnknownPlatform(i32),
    UnknownLeg(i32),
}

/// Why an arb is not usable.
#[derive(Debug, Clone, Copy, PartialEq, Eq, Structural)]
pub enum ArbError {
    MissingAnchor,
    MissingMatch,
    Anchor(LegError),
    Match(LegError),
}

/// The first thing that is wrong with a leg, if anything is.
pub open spec fn leg_error(essentials: ArbEssentials) -> Option<LegError> {
    match essentials.discovery {
        None => Some(LegError::MissingDiscovery),
        Some(discovery) => match discovery.market_info {
            None => Some(LegError::MissingMarketInfo),
            Some(info) => if info.market_id@.len() == 0 {
                Some(LegError::EmptyMarketId)
            } else if info.close_time_ms == 0 {
                Some(LegError::ZeroCloseTime)
            } else if essentials.token_id@.len() == 0 {
                Some(LegError::EmptyTokenId)
            } else if info.platform is Unknown {
                Some(LegError::UnknownPlatform(info.platform->Unknown_0))
            } else if discovery.leg is Unknown {
                Some(LegError::UnknownLeg(discovery.leg->Unknown_0))
            } else {
                None
            },
        },
    }
}

/// Whether `leg` is the watched form of `essentials`.
pub open spec fn minifies(leg: ArbMinifiedInfo, essentials: ArbEssentials) -> bool {
    &&& essentials.discovery matches Some(discovery)
    &&& discovery.market_info matches Some(info)
    &&& info.platform == PlatformCode::Known(leg.platform)
    &&& discovery.leg == LegCode::Known(leg.leg)
    &&& leg.market_key@ == market_key(essentials.token_id@, leg.platform)
    &&& leg.market_id == info.market_id
    &&& leg.token_id == essentials.token_id
    &&& leg.close_time_ms == info.close_time_ms
}

impl ArbMinifiedInfo {
    /// The watched form of one leg of an arb.
    pub fn try_from_essentials(essentials: ArbEssentials) -> (r: Result<Self, LegError>)
        ensures
            r matches Ok(leg) ==> leg_error(essentials) is None && minifies(leg, essentials),
            r matches Err(e) ==> leg_error(essentials) == Some(e),
    {
        let discovery = match essentials.discovery {
            Some(discovery) => discovery,
            None => return Err(LegError::MissingDiscovery),
        };
        let info = match discovery.market_info {
            Some(info) => info,
            None => return Err(LegError::MissingMarketInfo),
        };
        if info.market_id.as_str().is_empty() {
            return Err(LegError::EmptyMarketId);
        }
        if info.close_time_ms == 0 {
            return Err(LegError::ZeroCloseTime);
        }
        if essentials.token_id.as_str().is_empty() {
            return Err(LegError::EmptyTokenId);
        }
        let platform = match info.platform {
            PlatformCode::Known(platform) => platform,
            PlatformCode::Unknown(code) => return Err(LegError::UnknownPlatform(code)),
        };
        let leg = match discovery.leg {
            LegCode::Known(leg) => leg,
            LegCode::Unknown(code) => return Err(LegError::UnknownLeg(code)),
        };
        Ok(
            ArbMinifiedInfo {
                market_key: make_market_key(essentials.token_id.as_str(), platform),
                market_id: info.market_id,
                token_id: essentials.token_id,
                platform,
                leg,
                close_time_ms: info.close_time_ms,
            },
        )
    }
}

/// A leg is usable exactly where its market is named, with an id, a closing time, a
/// known venue and a known side, and its token too.
pub proof fn usable_legs_are_complete(essentials: ArbEssentials)
    ensures
        leg_error(essentials) is None <==> {
            &&& essentials.token_id@.len() > 0
            &&& essentials.discovery matches Some(discovery)
            &&& discovery.leg is Known
            &&& discovery.market_info matches Some(info)
            &&& info.market_id@.len() > 0
            &&& info.close_time_ms != 0
            &&& info.platform is Known
        },
{
}

/// A usable leg keeps everything of its market that trading needs; its key is that of
/// its token on its venue, whatever the market's own id is.
pub proof fn legs_are_keyed_by_their_token(leg: ArbMinifiedInfo, essentials: ArbEssentials)
    requires
        minifies(leg, essentials),
    ensures
        leg.market_key@ == market_key(essentials.token_id@, leg.platform),
        leg.market_key@ == market_key(leg.token_id@, leg.platform),
        leg.token_id@ == essentials.token_id@,
        essentials.discovery->0.leg == LegCode::Known(leg.leg),
        essentials.discovery->0.market_info->0.platform == PlatformCode::Known(leg.platform),
        essentials.discovery->0.market_info->0.market_id@ == leg.market_id@,
        essentials.discovery->0.market_info->0.close_time_ms == leg.close_time_ms,
{
}

/// The first thing that is wrong with an arb, if anything is.
pub open spec fn arb_error(arb: Arb) -> Option<ArbError> {
    match (arb.anchor, arb.matched) {
        (None, _) => Some(ArbError::MissingAnchor),
        (_, None) => Some(ArbError::MissingMatch),
        (Some(anchor), Some(matched)) => match (leg_error(anchor), leg_error(matched)) {
            (Some(e), _) => Some(ArbError::Anchor(e)),
            (_, Some(e)) => Some(ArbError::Match(e)),
            (None, None) => None,
        },
    }
}

/// Whether `pair` is the watched form of `arb`.
pub open spec fn pairs(pair: ArbMinifiedInfoPair, arb: Arb) -> bool {
    &&& arb.anchor matches Some(anchor)
    &&& arb.matched matches Some(matched)
    &&& minifies(pair.anchor, anchor)
    &&& minifies(pair.matched, matched)
    &&& pair.scored == arb.scored
}

/// An arb is usable exactly where both of its legs are there and usable, and an error
/// names the leg that it is about.
pub proof fn usable_arbs_have_usable_legs(arb: Arb)
    ensures
        arb_error(arb) is None <==> {
            &&& arb.anchor matches Some(anchor)
            &&& arb.matched matches Some(matched)
            &&& leg_error(anchor) is None
            &&& leg_error(matched) is None
        },
        arb_error(arb) matches Some(ArbError::Anchor(e)) ==> arb.anchor matches Some(anchor)
            && leg_error(anchor) == Some(e),
        arb_error(arb) matches Some(ArbError::Match(e)) ==> arb.matched matches Some(matched)
            && leg_error(matched) == Some(e),
        arb_error(arb) is Some && arb_error(arb)->0 is MissingAnchor ==> arb.anchor is None,
        arb_error(arb) is Some && arb_error(arb)->0 is MissingMatch ==> arb.matched is None,
{
}

/// The two legs of a watched pair are those of the arb, the anchor as the anchor and the
/// match as the match.
pub proof fn pairs_keep_their_legs_apart(pair: ArbMinifiedInfoPair, arb: Arb)
    requires
        pairs(pair, arb),
    ensures
        arb.anchor matches Some(anchor) && pair.anchor.token_id@ == anchor.token_id@,
        arb.matched matches Some(matched) && pair.matched.token_id@ == matched.token_id@,
        pair.scored == arb.scored,
{
}

impl ArbMinifiedInfoPair {
    /// The watched form of an arb.
    pub fn try_from_arb(arb: Arb) -> (r: Result<Self, ArbError>)
        ensures
            r matches Ok(pair) ==> arb_error(arb) is None && pairs(pair, arb),
            r matches Err(e) ==> arb_error(arb) == Some(e),
    {
        let anchor = match arb.anchor {
            Some(anchor) => anchor,
            None => return Err(ArbError::MissingAnchor),
        };
        let matched = match arb.matched {
            Some(matched) => matched,
            None => return Err(ArbError::MissingMatch),
        };
        let anchor = match ArbMinifiedInfo::try_from_essentials(anchor) {
            Ok(leg) => leg,
            Err(e) => return Err(ArbError::Anchor(e)),
        };
        let matched = match ArbMinifiedInfo::try_from_essentials(matched) {
            Ok(leg) => leg,
            Err(e) => return Err(ArbError::Match(e)),
        };
        Ok(ArbMinifiedInfoPair { anchor, matched, scored: arb.scored })
    }
}

/// Why a text does not give an amount.
#[derive(Debug, Clone, Copy, PartialEq, Eq, Structural)]
pub enum DecimalError {
    Missing,
    Unreadable,
}

/// Reads an amount.
pub fn str_to_decimal(value: &str) -> (r: Result<Dec, DecimalError>)
    ensures
        match crate::dec::parsed_decimal(value@) {
            Some(n) => r matches Ok(d) && d@ == n,
            None => r == Err::<Dec, DecimalError>(DecimalError::Unreadable),
        },
{
    match Dec::parse(value) {
        Some(d) => Ok(d),
        None => Err(DecimalError::Unreadable),
    }
}

/// Reads an amount that has to be there.
pub fn opt_str_to_decimal_strict(value: &Option<String>) -> (r: Result<Dec, DecimalError>)
    ensures
        match *value {
            None => r == Err::<Dec, DecimalError>(DecimalError::Missing),
            Some(text) => match crate::dec::parsed_decimal(text@) {
                Some(n) => r matches Ok(d) && d@ == n,
                None => r == Err::<Dec, DecimalError>(DecimalError::Unreadable),
            },
        },
{
    match value {
        Some(text) => str_to_decimal(text.as_str()),
        None => Err(DecimalError::Missing),
    }
}

/// Why an arb has no token for its leg.
#[derive(Debug, Clone, Copy, PartialEq, Eq, Structural)]
pub enum TokenError {
    MissingTokens,
    UnreadableTokens,
    NoTokenForLeg(usize),
}

/// The token of a leg among a market's outcome tokens, as far as they could be read.
pub open spec fn token_for(tokens: Option<Seq<Seq<char>>>, leg: Leg) -> Result<
    Seq<char>,
    TokenError,
> {
    match tokens {
        None => Err(TokenError::UnreadableTokens),
        Some(list) => if leg_index(leg) < list.len() {
            Ok(list[leg_index(leg)])
        } else {
            Err(TokenError::NoTokenForLeg(leg_index(leg) as usize))
        },
    }
}

/// The left leg trades the first of a market's tokens and the right leg the second.
pub proof fn legs_trade_their_own_token(list: Seq<Seq<char>>)
    ensures
        list.len() >= 1 ==> token_for(Some(list), Leg::Left) == Ok::<Seq<char>, TokenError>(
            list[0],
        ),
        list.len() >= 2 ==> token_for(Some(list), Leg::Right) == Ok::<Seq<char>, TokenError>(
            list[1],
        ),
        list.len() < 1 ==> token_for(Some(list), Leg::Left) is Err,
        list.len() < 2 ==> token_for(Some(list), Leg::Right) is Err,
{
}

/// Picks the token of `leg` from a market's outcome tokens.
pub fn leg_token(tokens: Option<Vec<String>>, leg: Leg) -> (r: Result<String, TokenError>)
    ensures
        ({
            let lists = match tokens {
                Some(list) => Some(ids::views(list@)),
                None => None,
            };
            match token_for(lists, leg) {
                Ok(token) => r matches Ok(text) && text@ == token,
                Err(e) => r == Err::<String, TokenError>(e),
            }
        }),
        match tokens {
            None => r == Err::<String, TokenError>(TokenError::UnreadableTokens),
            Some(list) => if leg_index(leg) < list@.len() {
                r == Ok::<String, TokenError>(list@[leg_index(leg)])
            } else {
                r == Err::<String, TokenError>(TokenError::NoTokenForLeg(leg_index(leg) as usize))
            },
        },
{
    match tokens {
        None => Err(TokenError::UnreadableTokens),
        Some(list) => {
            let index: usize = leg.index();
            if index < list.len() {
                Ok(list[index].clone())
            } else {
                Err(TokenError::NoTokenForLeg(index))
            }
        },
    }
}

/// The token of `leg` in the JSON list that Polymarket gives for a market.
pub fn clob_token(clob_token_ids: &Option<String>, leg: Leg) -> (r: Result<String, TokenError>)
    ensures
        *clob_token_ids matches Some(text) ==> match token_for(ids::json_strings(text@), leg) {
            Ok(token) => r matches Ok(text) && text@ == token,
            Err(e) => r == Err::<String, TokenError>(e),
        },
        match *clob_token_ids {
            None => r == Err::<String, TokenError>(TokenError::MissingTokens),
            Some(text) => match ids::json_strings(text@) {
                None => r == Err::<String, TokenError>(TokenError::UnreadableTokens),
                Some(list) => if leg_index(leg) < list.len() {
                    r matches Ok(token) && token@ == list[leg_index(leg)]
                } else {
                    r == Err::<String, TokenError>(
                        TokenError::NoTokenForLeg(leg_index(leg) as usize),
                    )
                },
            },
        },
{
    match clob_token_ids {
        None => Err(TokenError::MissingTokens),
        Some(text) => leg_token(ids::parse_json_strings(text.as_str()), leg),
    }
}

} // verus!
