use degenerate::comms::{
    decide_admission, lifecycle, needed_ask_price, needed_ask_size, seed_kalshi, seed_poly,
    Admission, AdmissionError, Ask, KalshiTicker, Lifecycle, PickerComms, PolyQuote,
};
use degenerate::dec::Dec;
use degenerate::guards::{cooldown_secs, Guards};
use degenerate::models::{
    Arb, ArbEssentials, ArbError, ArbMinifiedInfo, ArbMinifiedInfoPair, ArbWatch, Discovery,
    F32Bits, Leg, LegCode, LegError, MarketInfo, Platform, PlatformCode, TopOfBook,
};

const HOUR: i64 = 3_600_000;
const NOW: i64 = 1_700_000_000_000;

fn bits(x: f32) -> F32Bits {
    F32Bits { bits: x.to_bits() }
}

fn tob(ask: f32, at: i64) -> TopOfBook {
    TopOfBook {
        best_bid: bits(ask - 0.1),
        bid_size: bits(11.0),
        best_ask: bits(ask),
        ask_size: bits(22.0),
        spread: bits(0.1),
        tob_timestamp_ms: at,
        sid: None,
    }
}

fn leg(platform: Platform, token: &str, side: Leg, close: i64) -> ArbMinifiedInfo {
    ArbMinifiedInfo {
        market_key: format!("{}:{}", platform.name(), token),
        platform,
        market_id: token.to_string(),
        token_id: token.to_string(),
        leg: side,
        close_time_ms: close,
    }
}

fn watch(cid: &str, kalshi: &str, poly: &str) -> ArbWatch {
    ArbWatch {
        correlation_id: cid.to_string(),
        arb: ArbMinifiedInfoPair {
            anchor: leg(Platform::Kalshi, kalshi, Leg::Right, NOW + 2 * HOUR),
            matched: leg(Platform::Polymarket, poly, Leg::Left, NOW + 2 * HOUR),
            scored: bits(0.8),
        },
    }
}

fn sorted(mut v: Vec<String>) -> Vec<String> {
    v.sort();
    v
}

fn ended(list: &[degenerate::comms::Unsubscribe]) -> Vec<(Platform, String)> {
    list.iter().map(|u| (u.platform, u.token_id.clone())).collect()
}

#[test]
fn a_market_is_dropped_with_its_last_watcher() {
    let mut w = PickerComms::new();
    w.register_arb(watch("a", "K1", "P1"));
    w.register_arb(watch("b", "K1", "P2"));
    w.on_price_update("KALSHI:K1".to_string(), tob(0.4, 1));
    w.on_price_update("POLYMARKET:P1".to_string(), tob(0.4, 1));
    assert_eq!(ended(&w.unregister_arb("a")), vec![(Platform::Polymarket, "P1".to_string())]);
    assert!(w.is_watched("KALSHI:K1"));
    assert!(w.top_of_book("KALSHI:K1").is_some());
    assert!(!w.is_watched("POLYMARKET:P1"));
    assert!(w.top_of_book("POLYMARKET:P1").is_none());
    assert!(w.record("a").is_none());
    assert_eq!(
        ended(&w.unregister_arb("b")),
        vec![(Platform::Kalshi, "K1".to_string()), (Platform::Polymarket, "P2".to_string())]
    );
    assert!(!w.is_watched("KALSHI:K1"));
    assert!(w.top_of_book("KALSHI:K1").is_none());
    assert!(w.unregister_arb("b").is_empty());
}

#[test]
fn unregistering_undoes_registering() {
    let mut w = PickerComms::new();
    w.register_arb(watch("a", "K1", "P1"));
    w.register_arb(watch("b", "K2", "P1"));
    w.unregister_arb("b");
    assert!(w.is_watched("KALSHI:K1"));
    assert!(w.is_watched("POLYMARKET:P1"));
    assert!(!w.is_watched("KALSHI:K2"));
    assert_eq!(w.record("a").unwrap().arb.anchor.token_id, "K1");
    assert!(w.record("b").is_none());
}

#[test]
fn an_arb_that_comes_again_leaves_its_old_legs() {
    let mut w = PickerComms::new();
    assert!(w.register_arb(watch("a", "K1", "P1")).is_empty());
    assert!(w.register_arb(watch("b", "K1", "P2")).is_empty());
    w.on_price_update("KALSHI:K1".to_string(), tob(0.4, 1));
    w.on_price_update("POLYMARKET:P1".to_string(), tob(0.4, 1));
    // K1 is still a leg of "b"; nobody else watches P1
    let left = w.register_arb(watch("a", "K3", "P3"));
    assert_eq!(ended(&left), vec![(Platform::Polymarket, "P1".to_string())]);
    assert!(w.is_watched("KALSHI:K1") && w.top_of_book("KALSHI:K1").is_some());
    assert!(!w.is_watched("POLYMARKET:P1") && w.top_of_book("POLYMARKET:P1").is_none());
    assert!(w.is_watched("KALSHI:K3") && w.is_watched("POLYMARKET:P3"));
    assert_eq!(w.on_price_update("KALSHI:K1".to_string(), tob(0.4, 2)), vec!["b".to_string()]);
    assert_eq!(w.on_price_update("KALSHI:K3".to_string(), tob(0.4, 2)), vec!["a".to_string()]);
    // a leg that stays keeps its prices
    let left = w.register_arb(watch("a", "K3", "P4"));
    assert_eq!(ended(&left), vec![(Platform::Polymarket, "P3".to_string())]);
    assert!(w.top_of_book("KALSHI:K3").is_some());
    // the same legs again change nothing
    assert!(w.register_arb(watch("a", "K3", "P4")).is_empty());
    assert_eq!(
        ended(&w.unregister_arb("a")),
        vec![(Platform::Kalshi, "K3".to_string()), (Platform::Polymarket, "P4".to_string())]
    );
    // both old legs on one market end once
    let mut both = watch("c", "K9", "P9");
    both.arb.matched = leg(Platform::Kalshi, "K9", Leg::Left, 1);
    w.register_arb(both);
    assert_eq!(ended(&w.register_arb(watch("c", "K8", "P8"))), vec![(Platform::Kalshi, "K9".to_string())]);
}

#[test]
fn both_legs_on_one_market_end_once() {
    let mut w = PickerComms::new();
    let mut both = watch("a", "K1", "P1");
    both.arb.matched = leg(Platform::Kalshi, "K1", Leg::Left, 1);
    w.register_arb(both);
    assert_eq!(ended(&w.unregister_arb("a")), vec![(Platform::Kalshi, "K1".to_string())]);
}

#[test]
fn stale_prices_are_dropped() {
    let mut w = PickerComms::new();
    w.register_arb(watch("a", "K1", "P1"));
    w.register_arb(watch("b", "K1", "P2"));
    let key = || "KALSHI:K1".to_string();
    assert_eq!(sorted(w.on_price_update(key(), tob(0.4, 10))), vec!["a", "b"]);
    assert!(w.on_price_update(key(), tob(0.5, 10)).is_empty());
    assert!(w.on_price_update(key(), tob(0.5, 9)).is_empty());
    assert_eq!(w.top_of_book("KALSHI:K1").unwrap(), tob(0.4, 10));
    assert_eq!(w.on_price_update(key(), tob(0.6, 11)).len(), 2);
    assert_eq!(w.top_of_book("KALSHI:K1").unwrap(), tob(0.6, 11));
    assert!(w.on_price_update("KALSHI:other".to_string(), tob(0.6, 11)).is_empty());
}

#[test]
fn polymarket_quotes_have_to_be_readable() {
    let mut w = PickerComms::new();
    w.register_arb(watch("a", "K1", "P1"));
    let quote = |bid, ask| PolyQuote { asset_id: "P1".to_string(), best_bid: bid, best_ask: ask, spread: bits(0.25) };
    let (b, a) = (Some(bits(0.25)), Some(bits(0.5)));
    assert!(w.on_poly_quote(&quote(None, a), "5").is_empty());
    assert!(w.on_poly_quote(&quote(b, None), "5").is_empty());
    assert!(w.on_poly_quote(&quote(b, a), "5x").is_empty());
    assert!(w.top_of_book("POLYMARKET:P1").is_none());
    assert_eq!(w.on_poly_quote(&quote(b, a), "5"), vec!["a"]);
    let known = w.top_of_book("POLYMARKET:P1").unwrap();
    assert_eq!((known.best_bid, known.best_ask, known.spread), (bits(0.25), bits(0.5), bits(0.25)));
    assert_eq!((known.tob_timestamp_ms, known.sid, known.bid_size), (5, None, bits(0.0)));
}

#[test]
fn kalshi_tickers_are_taken_for_watched_markets() {
    let mut w = PickerComms::new();
    w.register_arb(watch("a", "K1", "P1"));
    let ticker = |market: &str, bid| KalshiTicker {
        market_ticker: market.to_string(),
        best_bid: bid,
        best_ask: Some(bits(0.5)),
        bid_size: None,
        ask_size: Some(bits(3.0)),
        spread: bits(0.25),
        ts: 7,
        sid: 9,
    };
    assert!(w.on_kalshi_ticker(&ticker("K9", Some(bits(0.25)))).is_empty());
    assert!(w.top_of_book("KALSHI:K9").is_none());
    assert!(w.on_kalshi_ticker(&ticker("K1", None)).is_empty());
    assert_eq!(w.on_kalshi_ticker(&ticker("K1", Some(bits(0.25)))), vec!["a"]);
    let known = w.top_of_book("KALSHI:K1").unwrap();
    assert_eq!((known.bid_size, known.ask_size), (bits(0.0), bits(3.0)));
    assert_eq!((known.tob_timestamp_ms, known.sid), (7_000, Some(9)));
}

#[test]
fn lifecycle_events_retime_or_drop() {
    assert_eq!(lifecycle("close_date_updated"), Lifecycle::CloseDateUpdated);
    for e in ["determined", "settled", "deactivated"] {
        assert_eq!(lifecycle(e), Lifecycle::Ended);
    }
    assert_eq!(lifecycle("created"), Lifecycle::Other);
    let mut w = PickerComms::new();
    w.register_arb(watch("a", "K1", "P1"));
    w.register_arb(watch("b", "K1", "P2"));
    w.register_arb(watch("c", "K2", "P1"));
    assert!(w.on_kalshi_lifecycle("K1", "close_date_updated", Some(123)).is_empty());
    for cid in ["a", "b"] {
        let arb = &w.record(cid).unwrap().arb;
        assert_eq!(arb.anchor.close_time_ms, 123_000);
        assert_eq!(arb.matched.close_time_ms, NOW + 2 * HOUR);
    }
    assert_eq!(w.record("c").unwrap().arb.anchor.close_time_ms, NOW + 2 * HOUR);
    assert!(w.on_kalshi_lifecycle("K1", "close_date_updated", None).is_empty());
    assert!(w.on_kalshi_lifecycle("K9", "close_date_updated", Some(i64::MAX)).is_empty());
    assert!(w.on_kalshi_lifecycle("K1", "created", Some(1)).is_empty());
    assert_eq!(w.record("a").unwrap().arb.anchor.close_time_ms, 123_000);
    let gone = ended(&w.on_kalshi_lifecycle("K1", "settled", None));
    assert_eq!(gone.len(), 2);
    assert!(gone.contains(&(Platform::Kalshi, "K1".to_string())));
    assert!(gone.contains(&(Platform::Polymarket, "P2".to_string())));
    assert!(w.record("a").is_none() && w.record("b").is_none());
    assert!(w.record("c").is_some());
    assert!(!w.is_watched("KALSHI:K1"));
    assert!(w.on_kalshi_lifecycle("K1", "settled", None).is_empty());
}

#[test]
fn resolved_assets_are_dropped() {
    let mut w = PickerComms::new();
    w.register_arb(watch("a", "K1", "P1"));
    w.register_arb(watch("b", "K1", "P2"));
    w.register_arb(watch("c", "K3", "P3"));
    let assets = vec!["P1".to_string(), "none".to_string(), "P2".to_string(), "P1".to_string()];
    let gone = ended(&w.on_market_resolved(&assets));
    assert_eq!(gone.len(), 3);
    assert!(w.record("a").is_none() && w.record("b").is_none());
    assert!(w.record("c").is_some());
    assert!(!w.is_watched("KALSHI:K1"));
    assert_eq!(ended(&w.drop_market("KALSHI:K3")).len(), 2);
    assert!(w.record("c").is_none());
}

#[test]
fn effective_asks_depend_on_venue_and_side() {
    let t = tob(0.6, 1);
    let ask = |p, side| needed_ask_price(&t, &leg(p, "x", side, 0));
    assert_eq!(ask(Platform::Polymarket, Leg::Left), Ask::Price(t.best_ask));
    assert_eq!(ask(Platform::Polymarket, Leg::Right), Ask::Price(t.best_ask));
    assert_eq!(ask(Platform::Kalshi, Leg::Left), Ask::Price(t.best_ask));
    assert_eq!(ask(Platform::Kalshi, Leg::Right), Ask::OneMinus(t.best_bid));
    let size = |p, side| needed_ask_size(&t, &leg(p, "x", side, 0));
    assert_eq!(size(Platform::Polymarket, Leg::Right), t.ask_size);
    assert_eq!(size(Platform::Kalshi, Leg::Left), t.ask_size);
    assert_eq!(size(Platform::Kalshi, Leg::Right), t.bid_size);
}

#[test]
fn guards_decide_what_is_evaluated() {
    let mut w = PickerComms::new();
    let mut g = Guards::new(30);
    w.register_arb(watch("a", "K1", "P1"));
    assert!(w.evaluate_arb("a", &mut g, 0, NOW).is_none());
    w.on_price_update("KALSHI:K1".to_string(), tob(0.4, 1));
    assert!(w.evaluate_arb("a", &mut g, 0, NOW).is_none());
    w.on_price_update("POLYMARKET:P1".to_string(), tob(0.3, 1));
    let q = w.evaluate_arb("a", &mut g, 0, NOW).unwrap();
    assert_eq!(q.anchor_ask, Ask::OneMinus(tob(0.4, 1).best_bid));
    assert_eq!(q.match_ask, Ask::Price(bits(0.3)));
    assert_eq!((q.anchor_size, q.match_size), (bits(11.0), bits(22.0)));
    assert!(w.evaluate_arb("nobody", &mut g, 0, NOW).is_none());
    // in flight
    g.submitted("a", false);
    assert!(!g.is_in_flight("a"));
    g.submitted("a", true);
    assert!(g.is_in_flight("a"));
    assert!(w.evaluate_arb("a", &mut g, 0, NOW).is_none());
    g.release("a");
    assert!(w.evaluate_arb("a", &mut g, 0, NOW).is_some());
    // cooling down
    let second: u128 = 1_000_000_000;
    g.cool("a", 100 * second);
    assert!(w.evaluate_arb("a", &mut g, 130 * second - 1, NOW).is_none());
    assert!(w.evaluate_arb("a", &mut g, 50 * second, NOW).is_none());
    assert!(g.has_cooldown("a"));
    assert!(w.evaluate_arb("a", &mut g, 130 * second, NOW).is_some());
    assert!(!g.has_cooldown("a"));
}

#[test]
fn arbs_near_their_close_are_not_executed() {
    let mut w = PickerComms::new();
    let mut g = Guards::new(30);
    w.register_arb(watch("a", "K1", "P1"));
    w.on_price_update("KALSHI:K1".to_string(), tob(0.4, 1));
    w.on_price_update("POLYMARKET:P1".to_string(), tob(0.3, 1));
    let close = NOW + 2 * HOUR;
    let ten = 600_000;
    assert!(w.evaluate_arb("a", &mut g, 0, close - ten - 1).is_some());
    assert!(w.evaluate_arb("a", &mut g, 0, close - ten).is_none());
    assert!(w.evaluate_arb("a", &mut g, 0, close - 1).is_none());
    assert!(w.evaluate_arb("a", &mut g, 0, close).is_some());
    // a closing time without a date lifts the guard
    let mut odd = watch("b", "K1", "P1");
    odd.arb.matched.close_time_ms = i64::MAX;
    odd.arb.anchor.close_time_ms = close;
    w.register_arb(odd);
    assert!(w.evaluate_arb("b", &mut g, 0, close - 1).is_some());
}

#[test]
fn requests_carry_both_legs() {
    let mut w = PickerComms::new();
    w.register_arb(watch("a", "K1", "P1"));
    let d = |n| Dec::new(n, 2);
    let r = w.execution_request("a", d(1), d(2), d(3), d(4)).unwrap();
    assert_eq!(r.correlation_id, "a");
    assert_eq!((r.anchor.token_id.as_str(), r.matched.token_id.as_str()), ("K1", "P1"));
    assert!(r.anchor_ws_price.eq_value(d(1)) && r.match_ws_price.eq_value(d(2)));
    assert!(r.anchor_ws_size.eq_value(d(3)) && r.match_ws_size.eq_value(d(4)));
    assert!(w.execution_request("b", d(1), d(2), d(3), d(4)).is_none());
}

fn essentials(platform: PlatformCode, token: &str, close: i64) -> ArbEssentials {
    ArbEssentials {
        discovery: Some(Discovery {
            market_info: Some(MarketInfo {
                uuid: String::new(),
                question: String::new(),
                outcome: String::new(),
                rules: String::new(),
                market_id: token.to_string(),
                market_category: String::new(),
                market_subcategory: String::new(),
                platform,
                close_time_ms: close,
            }),
            leg: LegCode::Known(Leg::Left),
            leg_str: String::new(),
        }),
        token_id: token.to_string(),
    }
}

fn arb(anchor_close: i64, match_close: i64) -> Arb {
    Arb {
        anchor: Some(essentials(PlatformCode::Known(Platform::Kalshi), "K1", anchor_close)),
        matched: Some(essentials(PlatformCode::Known(Platform::Polymarket), "P1", match_close)),
        scored: bits(0.9),
    }
}

#[test]
fn pairs_that_close_within_the_hour_are_refused() {
    let far = NOW + 5 * HOUR;
    let refused = |a, m| match decide_admission(&arb(a, m), NOW).unwrap() {
        Admission::Refuse => true,
        Admission::Subscribe(_, _) => false,
    };
    assert!(refused(NOW + HOUR, far));
    assert!(refused(far, NOW + 1));
    assert!(!refused(NOW + HOUR + 1, far));
    assert!(!refused(NOW, NOW - HOUR));
    match decide_admission(&arb(far, far), NOW).unwrap() {
        Admission::Subscribe(anchor, matched) => {
            assert_eq!((anchor.platform, anchor.token_id.as_str()), (Platform::Kalshi, "K1"));
            assert_eq!((matched.platform, matched.token_id.as_str()), (Platform::Polymarket, "P1"));
            assert_eq!(anchor.close_time_ms, far);
        }
        Admission::Refuse => panic!("refused"),
    }
}

#[test]
fn incomplete_arbs_are_told_apart() {
    let far = NOW + 5 * HOUR;
    let error = |a: Arb| decide_admission(&a, NOW).unwrap_err();
    assert_eq!(error(Arb { anchor: None, ..arb(far, far) }), (Leg::Left, AdmissionError::Missing));
    assert_eq!(error(Arb { matched: None, ..arb(far, far) }), (Leg::Right, AdmissionError::Missing));
    let bare = ArbEssentials { discovery: None, token_id: String::new() };
    assert_eq!(error(Arb { anchor: Some(bare), ..arb(far, far) }), (Leg::Left, AdmissionError::MissingDiscovery));
    let mut blank = essentials(PlatformCode::Unknown(4), "x", far);
    blank.discovery = Some(Discovery { market_info: None, leg: LegCode::Unknown(1), leg_str: String::new() });
    assert_eq!(error(Arb { anchor: Some(blank), ..arb(far, far) }), (Leg::Left, AdmissionError::MissingMarketInfo));
    let unknown = essentials(PlatformCode::Unknown(4), "x", far);
    assert_eq!(error(Arb { matched: Some(unknown), ..arb(far, far) }), (Leg::Right, AdmissionError::UnknownPlatform(4)));
    assert_eq!(error(arb(far, i64::MIN)), (Leg::Right, AdmissionError::InvalidCloseTime(i64::MIN)));
}

#[test]
fn watching_starts_with_both_subscriptions() {
    let far = NOW + 5 * HOUR;
    let mut w = PickerComms::new();
    for (a, m) in [(false, false), (true, false), (false, true)] {
        assert!(w.start_watching(arb(far, far), "a".to_string(), a, m).unwrap().is_none());
    }
    assert!(w.record("a").is_none());
    let zero = w.start_watching(arb(far, 0), "a".to_string(), true, true);
    assert_eq!(zero.unwrap_err(), ArbError::Match(LegError::ZeroCloseTime));
    assert!(w.record("a").is_none());
    let started = w.start_watching(arb(far, far), "a".to_string(), true, true).unwrap().unwrap();
    assert_eq!(started.pair.anchor.market_key, "KALSHI:K1");
    assert!(started.ended.is_empty());
    assert_eq!(w.record("a").unwrap().arb.matched.market_key, "POLYMARKET:P1");
    assert!(w.is_watched("KALSHI:K1") && w.is_watched("POLYMARKET:P1"));
}

#[test]
fn seeds_need_an_ask() {
    assert!(seed_poly(None, Some(bits(0.1)), bits(0.0), "5", 9).is_none());
    let t = seed_poly(Some(bits(0.5)), None, bits(0.5), "5", 9).unwrap();
    assert_eq!((t.best_bid, t.best_ask, t.tob_timestamp_ms), (bits(0.0), bits(0.5), 5));
    let t = seed_poly(Some(bits(0.5)), Some(bits(0.4)), bits(0.1), "soon", 9).unwrap();
    assert_eq!((t.best_bid, t.tob_timestamp_ms), (bits(0.4), 9));
    assert!(seed_kalshi(None, Some(bits(0.1)), bits(0.0), 9).is_none());
    let t = seed_kalshi(Some(bits(0.5)), None, bits(0.5), 9).unwrap();
    assert_eq!((t.best_bid, t.best_ask, t.tob_timestamp_ms), (bits(0.0), bits(0.5), 9));
}

#[test]
fn cooldown_setting_has_a_default() {
    let secs = |s: &str| cooldown_secs(&Some(s.to_string()));
    assert_eq!(cooldown_secs(&None), 30);
    assert_eq!(secs(" 45 "), 45);
    assert_eq!(secs("-1"), 30);
    assert_eq!(secs(""), 30);
    assert_eq!(secs("0"), 0);
}
