use degenerate::config::{grpc_url, qdrant_url, setting_or};
use degenerate::grpc::SessionRetries;
use degenerate::markets::QdrantPayload;
use degenerate::messages::{
    arb_essentials, arb_message, delete_message, discovery_platform, hit_message,
    running_arbs_message, ClientAction, ClientEbo, DiscoveryError, MatchCandidate, SimilarityHit,
};
use degenerate::models::{
    ArbEssentials, Discovery, F32Bits, Leg, LegCode, MarketInfo, Platform, PlatformCode,
};
use degenerate::tags::MarketTag;
use degenerate::vector_store::{
    batch_outcome, cleanup_cutoff_ms, create_cross_platform_filter, create_intra_platform_filter,
    edges_per_node, insert_chunk, last_insert_time, payload_indexes, prepare_batch, search_limit,
    search_outcome, BatchItem, BatchOutcome, FieldKind, FieldMatch, SearchError, COLLECTION_NAME,
    FIELD_MARKET_CATEGORY, FIELD_MARKET_SUBCATEGORY, FIELD_PLATFORM,
};
use degenerate::ws::{accept_text, read_text, text_frame, Frame, FrameAction, ManageWS, NotJson};
use uuid::Uuid;

fn info(uuid: &str, market_id: &str) -> MarketInfo {
    MarketInfo {
        uuid: uuid.to_string(),
        question: "Q?".to_string(),
        outcome: "O".to_string(),
        rules: "R".to_string(),
        market_id: market_id.to_string(),
        market_category: "c".to_string(),
        market_subcategory: "s".to_string(),
        platform: PlatformCode::Known(Platform::Kalshi),
        close_time_ms: 1,
    }
}

fn payload(market_info: Option<MarketInfo>, at: i64) -> QdrantPayload {
    QdrantPayload { market_info, qdrant_inserted_at: at }
}

fn candidate(id: &str) -> Option<MatchCandidate> {
    Some(MatchCandidate { scored: F32Bits { bits: 1 }, market_info: Some(info("u", id)) })
}

fn hit_ids(ebo: &ClientEbo) -> Vec<String> {
    match &ebo.action {
        ClientAction::CrossPlatformHit(hit) => {
            hit.matches.iter().map(|m| m.market_info.as_ref().unwrap().market_id.clone()).collect()
        }
        _ => panic!("no hit"),
    }
}

#[test]
fn store_requests_have_defaults() {
    assert_eq!(COLLECTION_NAME, "Aroni");
    assert_eq!((edges_per_node(0), edges_per_node(16)), (32, 16));
    assert_eq!((search_limit(0), search_limit(3)), (10, 3));
    assert_eq!((insert_chunk(100), insert_chunk(2_000), insert_chunk(5_000)), (2_000, 2_000, 5_000));
    assert_eq!(cleanup_cutoff_ms(172_800_005), 5);
    let fields: Vec<(&str, FieldKind)> = payload_indexes().iter().map(|i| (i.field, i.kind)).collect();
    assert_eq!(fields[0], ("market_info.uuid", FieldKind::Uuid));
    assert_eq!(fields[1], ("market_info.platform", FieldKind::Integer));
    assert_eq!(fields[2], ("market_info.market_category", FieldKind::Keyword));
    assert_eq!(fields[3], ("market_info.market_subcategory", FieldKind::Keyword));
    assert_eq!(fields[4], ("market_info.close_time_ms", FieldKind::Integer));
    assert_eq!(fields[5], ("qdrant_inserted_at", FieldKind::Integer));
}

#[test]
fn stored_times_need_a_date() {
    assert_eq!(last_insert_time(None), Ok(None));
    assert_eq!(last_insert_time(Some(5)), Ok(Some(5)));
    let (first, last) = (-8_334_601_228_800_000, 8_210_266_876_799_999);
    assert_eq!(last_insert_time(Some(first)), Ok(Some(first)));
    assert_eq!(last_insert_time(Some(last)), Ok(Some(last)));
    assert_eq!(last_insert_time(Some(first - 1)), Err(first - 1));
    assert_eq!(last_insert_time(Some(last + 1)), Err(last + 1));
}

fn keyword(m: &FieldMatch) -> (&str, &str) {
    match m {
        FieldMatch::Keyword(f, v) => (f, v.as_str()),
        FieldMatch::Venue(_, _) => panic!("no keyword"),
    }
}

fn venue(m: &FieldMatch) -> (&str, Platform) {
    match m {
        FieldMatch::Venue(f, p) => (f, *p),
        FieldMatch::Keyword(_, _) => panic!("no venue"),
    }
}

#[test]
fn searches_look_at_the_other_venue() {
    assert!(create_cross_platform_filter(None, &MarketTag::Nba).is_none());
    let f = create_cross_platform_filter(Some(Platform::Kalshi), &MarketTag::Nba).unwrap();
    assert_eq!(f.must.len(), 2);
    assert_eq!(keyword(&f.must[0]), (FIELD_MARKET_CATEGORY, "sport"));
    assert_eq!(keyword(&f.must[1]), (FIELD_MARKET_SUBCATEGORY, "NBA"));
    assert_eq!(f.must_not.len(), 1);
    assert_eq!(venue(&f.must_not[0]), (FIELD_PLATFORM, Platform::Kalshi));
}

#[test]
fn searches_may_look_at_the_same_venue() {
    assert!(create_intra_platform_filter(None, &MarketTag::Nba).is_none());
    let f = create_intra_platform_filter(Some(Platform::Polymarket), &MarketTag::Politics).unwrap();
    assert_eq!(f.must.len(), 3);
    assert_eq!(venue(&f.must[0]), (FIELD_PLATFORM, Platform::Polymarket));
    assert_eq!(keyword(&f.must[1]), (FIELD_MARKET_CATEGORY, "politics"));
    assert_eq!(keyword(&f.must[2]), (FIELD_MARKET_SUBCATEGORY, "Politics"));
    assert!(f.must_not.is_empty());
}

#[test]
fn hits_are_reported() {
    let ebo = search_outcome(payload(Some(info("u1", "m1")), 3), vec![candidate("x"), candidate("y")], 9)
        .unwrap()
        .unwrap();
    assert_eq!(ebo.correlation_id, Uuid::new_v5(&Uuid::NAMESPACE_OID, b"u1:m1").to_string());
    assert_eq!(ebo.action_at, 9);
    assert_eq!(hit_ids(&ebo), vec!["x", "y"]);
    assert!(search_outcome(payload(None, 3), vec![], 9).unwrap().is_none());
    assert_eq!(
        search_outcome(payload(None, 3), vec![candidate("x")], 9).unwrap_err(),
        SearchError::MissingMarketInfo
    );
    assert_eq!(
        search_outcome(payload(Some(info("u", "m")), 3), vec![candidate("x"), None], 9).unwrap_err(),
        SearchError::UnreadableHit
    );
}

#[test]
fn hits_need_readable_candidates() {
    assert!(SimilarityHit::try_from_results(payload(None, 0), vec![candidate("x"), None]).is_none());
    let hit = SimilarityHit::try_from_results(payload(None, 0), vec![candidate("x")]).unwrap();
    assert!(hit.anchor.is_none());
    assert_eq!(hit.matches.len(), 1);
    let ebo = hit_message(&info("u", "m"), hit, 4);
    assert_eq!(hit_ids(&ebo), vec!["x"]);
}

#[test]
fn batches_report_each_search() {
    let anchors = || vec![payload(Some(info("u1", "m1")), 1), payload(Some(info("u2", "m2")), 2), payload(Some(info("u3", "m3")), 3)];
    match batch_outcome(anchors(), vec![vec![candidate("x")], vec![], vec![candidate("y")]], 5) {
        BatchOutcome::Aligned(messages, None) => {
            assert_eq!(messages.len(), 2);
            assert_eq!(hit_ids(&messages[0]), vec!["x"]);
            assert_eq!(hit_ids(&messages[1]), vec!["y"]);
        }
        _ => panic!("not aligned"),
    }
    match batch_outcome(anchors(), vec![vec![candidate("x")], vec![None], vec![candidate("y")]], 5) {
        BatchOutcome::Aligned(messages, Some(e)) => {
            assert_eq!((messages.len(), e), (1, SearchError::UnreadableHit));
        }
        _ => panic!("not cut short"),
    }
    assert!(matches!(batch_outcome(anchors(), vec![vec![]], 5), BatchOutcome::Misaligned(3, 1)));
    match batch_outcome(anchors(), vec![], 5) {
        BatchOutcome::Aligned(messages, None) => assert!(messages.is_empty()),
        _ => panic!("not aligned"),
    }
}

#[test]
fn batches_leave_out_invalid_markets() {
    let uuid = Uuid::new_v5(&Uuid::NAMESPACE_OID, b"x").to_string();
    let item = |market_info, at, filter| BatchItem { payload: payload(market_info, at), filter };
    let points = prepare_batch(vec![
        item(Some(info(&uuid, "a")), 1, None),
        item(None, 2, None),
        item(Some(info(&uuid, "b")), 3, create_cross_platform_filter(Some(Platform::Kalshi), &MarketTag::Nfl)),
    ]);
    assert_eq!(points.len(), 2);
    assert_eq!(points[0].point.get_payload().qdrant_inserted_at, 1);
    assert!(points[0].filter.is_none());
    assert_eq!(points[1].point.get_payload().qdrant_inserted_at, 3);
    assert!(points[1].filter.is_some());
}

fn discovery(market_info: Option<MarketInfo>) -> Discovery {
    Discovery { market_info, leg: LegCode::Known(Leg::Right), leg_str: "no".to_string() }
}

#[test]
fn discoveries_become_arbs() {
    assert_eq!(discovery_platform(&discovery(Some(info("u", "m")))), Ok(Platform::Kalshi));
    assert_eq!(discovery_platform(&discovery(None)), Err(DiscoveryError::MissingMarketInfo));
    let odd = MarketInfo { platform: PlatformCode::Unknown(8), ..info("u", "m") };
    assert_eq!(discovery_platform(&discovery(Some(odd))), Err(DiscoveryError::UnknownPlatform(8)));
    let mut fresh = info("u2", "m2");
    fresh.market_category = String::new();
    let e = arb_essentials(discovery(Some(info("u", "m"))), fresh, "tok".to_string()).unwrap();
    assert_eq!(e.token_id, "tok");
    let d = e.discovery.unwrap();
    assert_eq!((d.leg, d.leg_str.as_str()), (LegCode::Known(Leg::Right), "no"));
    let i = d.market_info.unwrap();
    assert_eq!((i.uuid.as_str(), i.market_category.as_str(), i.market_subcategory.as_str()), ("u2", "c", "s"));
    assert!(arb_essentials(discovery(None), info("u", "m"), "t".to_string()).is_none());
}

#[test]
fn messages_carry_their_ids() {
    let leg = |t: &str| ArbEssentials { discovery: None, token_id: t.to_string() };
    let ebo = arb_message(leg("t1"), leg("t2"), F32Bits { bits: 9 }, 6);
    assert_eq!(ebo.correlation_id, Uuid::new_v5(&Uuid::NAMESPACE_OID, b"t1:t2").to_string());
    match ebo.action {
        ClientAction::CrossPlatformArb(arb) => {
            assert_eq!(arb.anchor.unwrap().token_id, "t1");
            assert_eq!(arb.matched.unwrap().token_id, "t2");
            assert_eq!(arb.scored.bits, 9);
        }
        _ => panic!("no arb"),
    }
    let ebo = delete_message("c1");
    assert_eq!((ebo.correlation_id.as_str(), ebo.action_at), ("", 0));
    match ebo.action {
        ClientAction::DeleteRunningArbs(cids) => assert_eq!(cids, vec!["c1"]),
        _ => panic!("no deletion"),
    }
    assert!(matches!(running_arbs_message().action, ClientAction::GetRunningCrossPlatformArbs));
}

#[test]
fn sessions_are_retried_until_thirty_fail_early() {
    let mut r = SessionRetries::new();
    let second: u128 = 1_000_000_000;
    for n in 0..29 {
        assert_eq!(r.attempt(), n + 1);
        assert!(r.session_failed(60 * second));
    }
    assert!(r.session_failed(60 * second + 1));
    assert_eq!(r.attempt(), 1);
    for _ in 0..29 {
        assert!(r.session_failed(0));
    }
    assert!(!r.session_failed(0));
}

#[test]
fn addresses_have_defaults() {
    let some = |s: &str| Some(s.to_string());
    assert_eq!(qdrant_url(None), "http://localhost:6334");
    assert_eq!(qdrant_url(some("  ")), "http://localhost:6334");
    assert_eq!(qdrant_url(some(" http://q ")), " http://q ");
    assert_eq!(grpc_url(None), "http://127.0.0.1:50051");
    assert_eq!(grpc_url(some("http://d")), "http://d");
    assert_eq!(setting_or(some(""), "x"), "x");
}

#[test]
fn frames_move_the_connection() {
    assert_eq!(text_frame("PONG"), Frame::KeepAlive);
    assert_eq!(text_frame(""), Frame::KeepAlive);
    assert_eq!(text_frame("{}"), Frame::Text);
    let mut ws = ManageWS::new("wss://x", 10_000, true);
    assert!(!ws.is_connected());
    assert_eq!((ws.base_url(), ws.ping_interval(), ws.auto_reconnect()), ("wss://x", 10_000, true));
    for end in [Frame::Close, Frame::Failed, Frame::Ended] {
        ws.on_connected();
        assert!(ws.is_connected());
        for frame in [Frame::KeepAlive, Frame::Pong, Frame::Other] {
            assert_eq!(ws.on_frame(frame), FrameAction::ReadOn);
        }
        assert_eq!(ws.on_frame(Frame::Text), FrameAction::Deliver);
        assert_eq!(ws.on_frame(Frame::Ping), FrameAction::AnswerPing);
        assert!(ws.is_connected());
        assert_eq!(ws.on_frame(end), FrameAction::Fail);
        assert!(!ws.is_connected());
    }
}

#[test]
fn texts_have_to_be_json() {
    for text in ["PONG", ""] {
        assert_eq!(read_text(text), Ok(Frame::KeepAlive));
        assert_eq!(accept_text(text, false), Ok(Frame::KeepAlive));
    }
    for text in ["{\"a\": [1, null]}", "[]", "12", " \"x\" "] {
        assert_eq!(read_text(text), Ok(Frame::Text), "{text}");
    }
    for text in ["PING", "{", "{'a': 1}", " "] {
        assert_eq!(read_text(text), Err(NotJson), "{text}");
    }
    assert_eq!(accept_text("x", true), Ok(Frame::Text));
    assert_eq!(accept_text("{}", false), Err(NotJson));
}

#[test]
fn hits_are_put_in_words() {
    let candidate = candidate("x").unwrap();
    let words = candidate.describe("87.50%", "1");
    assert_eq!(
        words,
        "----------------------------------------\nQuestion : Q?\nOutcomes : O\nSimilarity : 87.50%\nPlatform : 1\nMarket category : c\nMarket subcategory : s\nRules : R\nticker : x\n"
    );
    let bare = MatchCandidate { scored: F32Bits { bits: 0 }, market_info: None };
    assert_eq!(bare.describe("1%", "0"), "");
    let hit = SimilarityHit { anchor: Some(info("u", "m")), matches: vec![candidate, bare] };
    assert_eq!(
        hit.describe("0", &vec!["A\n".to_string(), String::new()]),
        "==============start================\nANCHOR MARKET\nQuestion : Q?\nOutcomes : O\nPlatform : 0\nMarket category : c\nMarket subcategory : s\nRules : R\nticker : m\n\nCANDIDATE MATCHES: 2\n\nMatch #1\nA\n\n\nMatch #2\n\n==============end================\n"
    );
    let lost = SimilarityHit { anchor: None, matches: vec![] };
    assert_eq!(lost.describe("0", &vec![]), "ANCHOR MARKET: <missing>\n");
}
