use degenerate::dec::Dec;
use degenerate::ids;
use degenerate::models::{
    clob_token, leg_token, make_market_key, opt_str_to_decimal_strict, str_to_decimal, Arb,
    ArbEssentials, ArbError, ArbMinifiedInfo, ArbMinifiedInfoPair, DecimalError, Discovery,
    F32Bits, Leg, LegCode, LegError, MarketInfo, Platform, PlatformCode, TokenError,
};
use degenerate::tags::MarketTag;
use uuid::Uuid;

fn info(market_id: &str, platform: PlatformCode, close_time_ms: i64) -> MarketInfo {
    MarketInfo {
        uuid: String::new(),
        question: String::new(),
        outcome: String::new(),
        rules: String::new(),
        market_id: market_id.to_string(),
        market_category: String::new(),
        market_subcategory: String::new(),
        platform,
        close_time_ms,
    }
}

fn essentials(market_info: Option<MarketInfo>, leg: LegCode, token_id: &str) -> ArbEssentials {
    ArbEssentials {
        discovery: Some(Discovery { market_info, leg, leg_str: String::new() }),
        token_id: token_id.to_string(),
    }
}

const KALSHI: PlatformCode = PlatformCode::Known(Platform::Kalshi);
const RIGHT: LegCode = LegCode::Known(Leg::Right);

#[test]
fn market_keys_name_venue_and_asset() {
    assert_eq!(make_market_key("123", Platform::Polymarket), "POLYMARKET:123");
    assert_eq!(make_market_key("KXBTC-1", Platform::Kalshi), "KALSHI:KXBTC-1");
    assert_ne!(make_market_key("1", Platform::Kalshi), make_market_key("1", Platform::Polymarket));
    assert_ne!(make_market_key("1", Platform::Kalshi), make_market_key(":1", Platform::Kalshi));
}

#[test]
fn legs_are_numbered() {
    assert_eq!(Leg::Left.index(), 0);
    assert_eq!(Leg::Right.index(), 1);
    assert_eq!(LegCode::Unknown(9).leg(), Leg::Left);
    assert_eq!(RIGHT.leg(), Leg::Right);
}

#[test]
fn usable_legs_are_watched() {
    let leg = ArbMinifiedInfo::try_from_essentials(essentials(
        Some(info("KX", KALSHI, 5)),
        RIGHT,
        "KX-1",
    ))
    .unwrap();
    assert_eq!(leg.market_key, "KALSHI:KX-1");
    assert_eq!(leg.market_id, "KX");
    assert_eq!(leg.token_id, "KX-1");
    assert_eq!(leg.platform, Platform::Kalshi);
    assert_eq!(leg.leg, Leg::Right);
    assert_eq!(leg.close_time_ms, 5);
}

#[test]
fn unusable_legs_are_told_apart() {
    let unknown = PlatformCode::Unknown(7);
    let cases = [
        (ArbEssentials { discovery: None, token_id: "t".to_string() }, LegError::MissingDiscovery),
        (essentials(None, RIGHT, "t"), LegError::MissingMarketInfo),
        (essentials(Some(info("", KALSHI, 0)), RIGHT, ""), LegError::EmptyMarketId),
        (essentials(Some(info("m", KALSHI, 0)), RIGHT, ""), LegError::ZeroCloseTime),
        (essentials(Some(info("m", unknown, 1)), RIGHT, ""), LegError::EmptyTokenId),
        (essentials(Some(info("m", unknown, 1)), LegCode::Unknown(3), "t"), LegError::UnknownPlatform(7)),
        (essentials(Some(info("m", KALSHI, 1)), LegCode::Unknown(3), "t"), LegError::UnknownLeg(3)),
    ];
    for (case, expected) in cases {
        assert_eq!(ArbMinifiedInfo::try_from_essentials(case).unwrap_err(), expected);
    }
}

#[test]
fn arbs_need_both_legs() {
    let good = || Some(essentials(Some(info("m", KALSHI, 1)), RIGHT, "t"));
    let bad = || Some(essentials(None, RIGHT, "t"));
    let scored = F32Bits { bits: 0x3f40_0000 };
    let pair = |anchor, matched| ArbMinifiedInfoPair::try_from_arb(Arb { anchor, matched, scored });
    assert_eq!(pair(None, None).unwrap_err(), ArbError::MissingAnchor);
    assert_eq!(pair(bad(), None).unwrap_err(), ArbError::MissingMatch);
    assert_eq!(pair(bad(), bad()).unwrap_err(), ArbError::Anchor(LegError::MissingMarketInfo));
    assert_eq!(pair(good(), bad()).unwrap_err(), ArbError::Match(LegError::MissingMarketInfo));
    let ok = pair(good(), good()).unwrap();
    assert_eq!(ok.anchor.market_key, ok.matched.market_key);
    assert_eq!(ok.scored, scored);
}

#[test]
fn amounts_are_read_from_text() {
    assert!(str_to_decimal("0.5600").unwrap().eq_value(Dec::new(56, 2)));
    assert!(str_to_decimal("-12").unwrap().eq_value(Dec::new(-12, 0)));
    assert_eq!(str_to_decimal("abc").unwrap_err(), DecimalError::Unreadable);
    assert_eq!(str_to_decimal("").unwrap_err(), DecimalError::Unreadable);
    assert_eq!(opt_str_to_decimal_strict(&None).unwrap_err(), DecimalError::Missing);
    assert_eq!(opt_str_to_decimal_strict(&Some("x".to_string())).unwrap_err(), DecimalError::Unreadable);
    assert!(opt_str_to_decimal_strict(&Some("10".to_string())).unwrap().eq_value(Dec::new(10, 0)));
}

#[test]
fn tokens_go_by_leg() {
    let list = Some("[\"111\", \"222\"]".to_string());
    assert_eq!(clob_token(&list, Leg::Left).unwrap(), "111");
    assert_eq!(clob_token(&list, Leg::Right).unwrap(), "222");
    let single = Some("[\"111\"]".to_string());
    assert_eq!(clob_token(&single, Leg::Right).unwrap_err(), TokenError::NoTokenForLeg(1));
    assert_eq!(clob_token(&None, Leg::Left).unwrap_err(), TokenError::MissingTokens);
    let broken = Some("[1, 2]".to_string());
    assert_eq!(clob_token(&broken, Leg::Left).unwrap_err(), TokenError::UnreadableTokens);
    assert_eq!(leg_token(None, Leg::Left).unwrap_err(), TokenError::UnreadableTokens);
    assert_eq!(leg_token(Some(vec![]), Leg::Left).unwrap_err(), TokenError::NoTokenForLeg(0));
    assert_eq!(leg_token(Some(vec!["a".to_string()]), Leg::Left).unwrap(), "a");
}

#[test]
fn ids_are_derived_or_random() {
    let expected = Uuid::new_v5(&Uuid::NAMESPACE_OID, b"KALSHI:KX-1").to_string();
    assert_eq!(ids::generate_uuid_v5("KALSHI:KX-1"), expected);
    assert_eq!(ids::joined_id("KALSHI", "KX-1"), expected);
    assert_ne!(ids::generate_uuid_v5("KALSHI:KX-2"), expected);
    let (a, b) = (ids::random_id(), ids::random_id());
    assert_ne!(a, b);
    assert_eq!(Uuid::try_parse(&a).unwrap().get_version_num(), 4);
    assert_eq!(Uuid::try_parse(&b).unwrap().get_version_num(), 4);
}

#[test]
fn tags_lead_to_topics_and_back() {
    for platform in [Platform::Kalshi, Platform::Polymarket] {
        for tag in MarketTag::all() {
            for id in tag.identifiers(platform) {
                assert_eq!(MarketTag::lookup(platform, id), Some(tag), "{id}");
            }
        }
    }
    assert_eq!(MarketTag::Politics.identifiers(Platform::Polymarket).len(), 47);
    for tag in MarketTag::all() {
        for platform in [Platform::Kalshi, Platform::Polymarket] {
            let mut ids = tag.identifiers(platform).to_vec();
            let count = ids.len();
            ids.sort();
            ids.dedup();
            assert_eq!(ids.len(), count);
        }
    }
    assert_eq!(MarketTag::lookup(Platform::Kalshi, "745"), None);
    assert_eq!(MarketTag::lookup(Platform::Polymarket, "745"), Some(MarketTag::Nba));
    assert_eq!(MarketTag::lookup(Platform::Kalshi, " Soccer"), None);
}

#[test]
fn topics_have_categories() {
    let soccer = MarketTag::Soccer.info();
    assert_eq!((soccer.market_category, soccer.market_subcategory), ("sport", "Socer"));
    assert_eq!(soccer.label(), "sport_Socer");
    assert_eq!(MarketTag::Nba.info().label(), "sport_NBA");
    assert_eq!(MarketTag::Nfl.info().label(), "sport_NFL");
    assert_eq!(MarketTag::Politics.info().label(), "politics_Politics");
}
