use degenerate::clock;
use degenerate::markets::{
    as_sentence, validate, GammaMarket, KalshiMarket, PointError, QdrantMarketConverter,
    QdrantPayload, QdrantPointData,
};
use degenerate::models::{MarketInfo, Platform, PlatformCode};
use uuid::Uuid;

fn text(s: &str) -> Option<String> {
    Some(s.to_string())
}

fn gamma() -> GammaMarket {
    GammaMarket {
        condition_id: text("0xabc"),
        slug: text("will-it-rain"),
        question: text("Will it rain"),
        outcomes: text("[\\\"Yes\\\", \\\"No\\\"]"),
        description: text("Rain counts."),
        end_date_iso: text("2026-01-02"),
        end_date: text("2026-01-03T00:00:00Z"),
        clob_token_ids: None,
    }
}

fn kalshi() -> KalshiMarket {
    KalshiMarket {
        ticker: "KXRAIN".to_string(),
        title: " Will it rain? ".to_string(),
        subtitle: "".to_string(),
        yes_sub_title: " Rain ".to_string(),
        no_sub_title: "Dry".to_string(),
        rules_primary: "Rain counts".to_string(),
        rules_secondary: "".to_string(),
        close_time: "2026-01-02T03:04:05Z".to_string(),
        expiration_time: text("2027-01-01T00:00:00Z"),
    }
}

#[test]
fn times_are_read_in_two_forms() {
    assert_eq!(clock::parse_ts_to_millis("1970-01-01T00:00:01.5Z"), 1_500);
    assert_eq!(clock::parse_ts_to_millis("1970-01-01T01:00:00+01:00"), 0);
    assert_eq!(clock::parse_ts_to_millis("1970-01-02"), 86_400_000);
    assert_eq!(clock::parse_ts_to_millis("1970-02-30"), 0);
    assert_eq!(clock::parse_ts_to_millis(""), 0);
    assert_eq!(clock::first_reading(Some(5), Some(7)), 5);
    assert_eq!(clock::first_reading(None, Some(7)), 7);
    assert_eq!(clock::first_reading(None, None), 0);
}

#[test]
fn closing_windows_are_half_open() {
    assert!(!clock::is_closing(1_000, 1_000, 500));
    assert!(clock::is_closing(1_001, 1_000, 500));
    assert!(clock::is_closing(1_500, 1_000, 500));
    assert!(!clock::is_closing(1_501, 1_000, 500));
    assert!(!clock::is_closing(999, 1_000, 500));
    assert!(!clock::is_closing(i64::MAX, i64::MIN, 500));
}

#[test]
fn questions_end_as_sentences() {
    assert_eq!(as_sentence("Why?".to_string()), "Why?");
    assert_eq!(as_sentence("So.".to_string()), "So.");
    assert_eq!(as_sentence("So".to_string()), "So.");
    assert_eq!(as_sentence("".to_string()), ".");
}

#[test]
fn polymarket_markets_are_described() {
    let info = MarketInfo::from_gamma(&gamma());
    assert_eq!(info.uuid, Uuid::new_v5(&Uuid::NAMESPACE_OID, b"POLYMARKET:will-it-rain").to_string());
    assert_eq!(info.question, "Will it rain.");
    assert_eq!(info.outcome, "[\"Yes\", \"No\"]");
    assert_eq!(info.rules, "Rain counts.");
    assert_eq!(info.market_id, "will-it-rain");
    assert_eq!(info.market_category, "");
    assert_eq!(info.platform, PlatformCode::Known(Platform::Polymarket));
    assert_eq!(info.close_time_ms, 1_767_312_000_000);
    let mut bare = gamma();
    bare.end_date_iso = None;
    assert_eq!(MarketInfo::from_gamma(&bare).close_time_ms, 1_767_398_400_000);
    bare.end_date = None;
    bare.slug = None;
    bare.question = None;
    let info = MarketInfo::from_gamma(&bare);
    assert_eq!((info.close_time_ms, info.question.as_str(), info.market_id.as_str()), (0, ".", ""));
}

#[test]
fn kalshi_markets_are_described() {
    let info = MarketInfo::from_kalshi(&kalshi());
    assert_eq!(info.uuid, Uuid::new_v5(&Uuid::NAMESPACE_OID, b"KALSHI:KXRAIN").to_string());
    assert_eq!(info.question, "Will it rain?");
    assert_eq!(info.outcome, "[Yes(Rain), No(Not Dry)]");
    assert_eq!(info.rules, "Rain counts");
    assert_eq!(info.market_id, "KXRAIN");
    assert_eq!(info.platform, PlatformCode::Known(Platform::Kalshi));
    assert_eq!(info.close_time_ms, 1_767_323_045_000);
    let mut more = kalshi();
    more.subtitle = " In Lagos ".to_string();
    more.rules_secondary = "Hail does not.".to_string();
    more.close_time = "".to_string();
    let info = MarketInfo::from_kalshi(&more);
    assert_eq!(info.question, "Will it rain? In Lagos.");
    assert_eq!(info.rules, "Rain counts. Hail does not.");
    assert_eq!(info.close_time_ms, 1_798_761_600_000);
    more.rules_primary = "Rain counts.".to_string();
    more.expiration_time = None;
    let info = MarketInfo::from_kalshi(&more);
    assert_eq!(info.rules, "Rain counts. Hail does not.");
    assert_eq!(info.close_time_ms, 0);
}

#[test]
fn conversion_files_and_stamps() {
    let payload = QdrantPayload::from_market(&gamma(), "sport", "NBA", 42);
    assert_eq!(payload.qdrant_inserted_at, 42);
    let info = payload.market_info.unwrap();
    assert_eq!((info.market_category.as_str(), info.market_subcategory.as_str()), ("sport", "NBA"));
    let payloads = QdrantPayload::from_markets(&vec![kalshi(), kalshi()], "politics", "Politics", 7);
    assert_eq!(payloads.len(), 2);
    for p in payloads {
        assert_eq!(p.qdrant_inserted_at, 7);
        assert_eq!(p.market_info.unwrap().market_category, "politics");
    }
}

#[test]
fn converted_markets_become_points() {
    let payload = QdrantPayload::from_market(&kalshi(), "sport", "NBA", 42);
    let point = QdrantPointData::new(payload).unwrap();
    assert_eq!(point.get_id(), Uuid::new_v5(&Uuid::NAMESPACE_OID, b"KALSHI:KXRAIN").to_string());
    assert_eq!(
        point.get_question_vector(),
        "Question: Will it rain? Possible outcomes: [Yes(Rain), No(Not Dry)]"
    );
    assert_eq!(point.get_payload().qdrant_inserted_at, 42);
}

#[test]
fn invalid_markets_are_told_apart() {
    let good = || MarketInfo::from_kalshi(&kalshi());
    let filed = || {
        let mut i = good();
        i.market_category = "c".to_string();
        i.market_subcategory = "s".to_string();
        i
    };
    assert!(validate(&filed(), true).is_ok());
    assert_eq!(validate(&filed(), false).unwrap_err(), PointError::InvalidUuid);
    let check = |i: MarketInfo, e: PointError| {
        let p = QdrantPayload { market_info: Some(i), qdrant_inserted_at: 0 };
        assert_eq!(QdrantPointData::new(p).unwrap_err(), e);
    };
    check(MarketInfo { uuid: "no".to_string(), ..filed() }, PointError::InvalidUuid);
    check(MarketInfo { market_id: " ".to_string(), ..filed() }, PointError::EmptyMarketId);
    check(MarketInfo { question: "\t".to_string(), ..filed() }, PointError::EmptyQuestion);
    check(MarketInfo { outcome: "".to_string(), ..filed() }, PointError::EmptyOutcome);
    check(MarketInfo { rules: "".to_string(), ..filed() }, PointError::EmptyRules);
    check(good(), PointError::EmptyCategory);
    check(MarketInfo { market_category: "c".to_string(), ..good() }, PointError::EmptySubcategory);
    check(MarketInfo { platform: PlatformCode::Unknown(5), ..filed() }, PointError::UnknownPlatform);
    check(MarketInfo { close_time_ms: 0, ..filed() }, PointError::ZeroCloseTime);
    let empty = QdrantPayload { market_info: None, qdrant_inserted_at: 0 };
    assert_eq!(QdrantPointData::new(empty).unwrap_err(), PointError::MissingMarketInfo);
}

#[test]
fn points_of_many_leave_out_the_invalid() {
    let good = QdrantPayload::from_market(&kalshi(), "c", "s", 1);
    let bad = QdrantPayload { market_info: None, qdrant_inserted_at: 2 };
    let other = QdrantPayload::from_market(&gamma(), "c", "s", 3);
    let points = QdrantPointData::new_many(vec![good, bad, other]).unwrap();
    let stamps: Vec<i64> = points.iter().map(|p| p.get_payload().qdrant_inserted_at).collect();
    assert_eq!(stamps, vec![1, 3]);
}
