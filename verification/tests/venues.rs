use degenerate::backfill::{
    backfill_report, backfill_secs, backfill_start_ms, series_sport, sort_series, KalshiBackfill,
    PolyBackfill, Retry, Series, Sport,
};
use degenerate::idset::IdSet;
use degenerate::kalshi::{
    is_ignored_error, lifecycle_route, sort_kalshi_tags, AddPlan, KalshiAction, KalshiMessage,
    LifecycleRoute, MyKalshiClient,
};
use degenerate::markets::{GammaMarket, KalshiMarket};
use degenerate::models::Platform;
use degenerate::platforms::{
    format_duration_ago, is_transport_error, reconnect_delay_ms, stream_action, Platfroms,
    StreamAction, StreamEvent,
};
use degenerate::polymarket::{
    message_action, new_market_topic, sort_polymarket_tags, MissingTags, MyPolymarketClient,
    PolyAction, PolyMessageKind, PolymarketReconnectError,
};
use degenerate::tags::MarketTag;

fn list(items: &[&str]) -> Vec<String> {
    items.iter().map(|s| s.to_string()).collect()
}

#[test]
fn sets_hold_each_id_once() {
    let mut s = IdSet::new();
    assert!(s.is_empty());
    assert!(s.insert("a".to_string()));
    assert!(!s.insert("a".to_string()));
    assert!(s.insert("b".to_string()));
    assert_eq!(s.to_vec(), list(&["a", "b"]));
    let copy = s.clone();
    assert!(s.remove("a"));
    assert!(!s.remove("a"));
    assert!(s.contains("b") && !s.contains("a"));
    assert_eq!(copy.to_vec(), list(&["a", "b"]));
}

#[test]
fn durations_are_put_in_words() {
    let cases = [
        (0, "0s ago"),
        (59, "59s ago"),
        (60, "1m ago"),
        (3_599, "59m ago"),
        (3_600, "1h 0m ago"),
        (86_399, "23h 59m ago"),
        (86_400, "1d 0h ago"),
        (450_000, "5d 5h ago"),
    ];
    for (secs, text) in cases {
        assert_eq!(format_duration_ago(secs), text);
    }
}

#[test]
fn transport_errors_are_recognised() {
    for e in ["transport closed", "Io(Os)", "bad TLS"] {
        assert!(is_transport_error(Platform::Kalshi, e));
        assert!(is_transport_error(Platform::Polymarket, e));
    }
    assert!(is_transport_error(Platform::Polymarket, "BadRecordMac"));
    assert!(!is_transport_error(Platform::Kalshi, "BadRecordMac"));
    assert!(!is_transport_error(Platform::Polymarket, "tls io transpor"));
}

#[test]
fn reconnects_back_off_and_end() {
    let delays: Vec<Option<u64>> = (1..=6).map(reconnect_delay_ms).collect();
    assert_eq!(delays, vec![Some(500), Some(1_000), Some(2_000), Some(4_000), Some(8_000), None]);
}

#[test]
fn kalshi_channels_open_lazily() {
    let mut k = MyKalshiClient::new();
    assert_eq!(k.add_market_ticker("K1"), AddPlan::Subscribe);
    assert!(k.insert_subscribed_asset("K1".to_string()));
    assert!(!k.insert_subscribed_asset("K1".to_string()));
    assert_eq!(k.add_market_ticker("K1"), AddPlan::Nothing);
    k.on_subscribed("orderbook_delta", 5);
    k.on_subscribed("orderbook_delta", 6);
    k.on_subscribed("market_lifecycle_v2", 1);
    assert_eq!(k.add_market_ticker("K2"), AddPlan::AddMarkets(5));
    assert_eq!(k.subscribe_ticker_channel(), AddPlan::Subscribe);
    k.on_subscribed("ticker", 7);
    assert_eq!(k.subscribe_ticker_channel(), AddPlan::AddMarkets(7));
    assert_eq!(k.subscribe_orderbook_channel(), AddPlan::AddMarkets(5));
    assert!(k.is_asset_subscribed("K1"));
    assert_eq!(k.del_market_ticker("K1"), vec![7, 5]);
    assert!(!k.is_asset_subscribed("K1"));
    assert!(!k.remove_subscribed_asset("K1"));
}

#[test]
fn kalshi_reconnects_with_fresh_ids() {
    let mut k = MyKalshiClient::new();
    k.insert_subscribed_asset("K1".to_string());
    k.insert_subscribed_asset("K2".to_string());
    k.on_subscribed("orderbook_delta", 5);
    k.on_subscribed("ticker", 6);
    assert_eq!(k.on_disconnected(), list(&["K1", "K2"]));
    assert!(k.is_asset_subscribed("K1"));
    assert_eq!(k.add_market_ticker("K3"), AddPlan::Subscribe);
    assert!(k.del_market_ticker("K1").is_empty());
    k.on_subscribed("orderbook_delta", 9);
    assert_eq!(k.add_market_ticker("K3"), AddPlan::AddMarkets(9));
}

#[test]
fn kalshi_events_are_routed() {
    for e in ["created", "activated"] {
        assert_eq!(lifecycle_route(e), LifecycleRoute::Discover);
    }
    for e in ["deactivated", "close_date_updated", "determined", "settled"] {
        assert_eq!(lifecycle_route(e), LifecycleRoute::Forward);
    }
    assert_eq!(lifecycle_route("paused"), LifecycleRoute::Ignore);
    assert!(is_ignored_error("Unable to process MESSAGE"));
    assert!(!is_ignored_error("unknown ticker"));
}

#[test]
fn polymarket_subscriptions_are_tracked() {
    let mut p = MyPolymarketClient::new();
    p.insert_subscribed_asset("1".to_string());
    p.insert_subscribed_asset("2".to_string());
    p.insert_subscribed_asset("3".to_string());
    let some = p.to_unsubscribe(&list(&["2", "9", "2", "1"]));
    assert_eq!(some, list(&["2", "2", "1"]));
    p.on_unsubscribed(&some);
    assert_eq!(p.to_resubscribe(), list(&["3"]));
    assert!(p.is_asset_subscribed("3"));
    assert!(p.remove_subscribed_asset("3"));
    assert!(!p.remove_subscribed_asset("3"));
    assert_eq!(PolymarketReconnectError.message(), "polymarket clob reconnect failed");
}

#[test]
fn both_clients_are_at_hand() {
    let mut k = MyKalshiClient::new();
    k.insert_subscribed_asset("K".to_string());
    let mut p = MyPolymarketClient::new();
    p.insert_subscribed_asset("P".to_string());
    let both = Platfroms::new(k, p);
    assert!(both.kalshi().is_asset_subscribed("K"));
    assert!(both.polymarket().is_asset_subscribed("P"));
}

#[test]
fn tags_are_tried_in_order() {
    assert_eq!(sort_kalshi_tags(&Some(list(&["x", " Football ", "Soccer"]))), Some(MarketTag::Nfl));
    assert_eq!(sort_kalshi_tags(&Some(list(&["x"]))), None);
    assert_eq!(sort_kalshi_tags(&None), None);
    assert_eq!(sort_polymarket_tags(&list(&["0", " 306", "745"])), Some(MarketTag::Soccer));
    assert_eq!(sort_polymarket_tags(&list(&[])), None);
}

#[test]
fn series_are_sorted_by_sport() {
    let series = |ticker: &str, tags: Option<&[&str]>| Series {
        ticker: ticker.to_string(),
        tags: tags.map(list),
    };
    let all = vec![
        series("a", Some(&["Soccer"])),
        series("b", None),
        series("c", Some(&["Golf", " Basketball"])),
        series("d", Some(&["Football", "Soccer"])),
        series("e", Some(&["Golf"])),
        series("f", Some(&["Soccer "])),
    ];
    assert_eq!(series_sport(&all[3]), Some(Sport::Football));
    let sorted = sort_series(&all);
    assert_eq!(sorted.soccer, list(&["a", "f"]));
    assert_eq!(sorted.football, list(&["d"]));
    assert_eq!(sorted.basketball, list(&["c"]));
}

#[test]
fn backfills_reach_back_an_hour_more() {
    assert_eq!(backfill_secs(None, 0), 450_000);
    assert_eq!(backfill_secs(Some(0), 5_999), 3_605);
    assert_eq!(backfill_secs(Some(10), 0), 3_600);
    assert_eq!(backfill_start_ms(10_000, 4), Some(6_000));
    assert_eq!(backfill_start_ms(0, u64::MAX), None);
}

fn kalshi_market(ticker: &str) -> KalshiMarket {
    KalshiMarket {
        ticker: ticker.to_string(),
        title: String::new(),
        subtitle: String::new(),
        yes_sub_title: String::new(),
        no_sub_title: String::new(),
        rules_primary: String::new(),
        rules_secondary: String::new(),
        close_time: String::new(),
        expiration_time: None,
    }
}

#[test]
fn kalshi_pages_follow_their_cursor() {
    let mut b = KalshiBackfill::new(list(&["S1", "S2"]), 1_000, 400);
    let q = b.query().unwrap();
    assert_eq!((q.limit, q.status, q.series_ticker.as_str()), (100, "open", "S1"));
    assert_eq!((q.cursor, q.min_created_ts), (None, 600));
    b.on_page(vec![kalshi_market("a")], Some("next".to_string()));
    let q = b.query().unwrap();
    assert_eq!((q.series_ticker.as_str(), q.cursor.as_deref()), ("S1", Some("next")));
    b.on_page(vec![kalshi_market("b")], Some("".to_string()));
    let q = b.query().unwrap();
    assert_eq!((q.series_ticker.as_str(), q.cursor), ("S2", None));
    b.on_page(vec![], None);
    assert!(b.query().is_none());
    let tickers: Vec<String> = b.into_markets().into_iter().map(|m| m.ticker).collect();
    assert_eq!(tickers, list(&["a", "b"]));
}

#[test]
fn kalshi_pages_are_tried_three_times() {
    let mut b = KalshiBackfill::new(list(&["S1", "S2", "S3"]), 1_000, 400);
    assert_eq!(b.on_error("HTTP 429"), Retry::Wait(2_000));
    assert_eq!(b.on_error("too_many_requests"), Retry::Wait(4_000));
    assert_eq!(b.query().unwrap().series_ticker, "S1");
    assert_eq!(b.on_error("HTTP 429"), Retry::GiveUp);
    assert_eq!(b.query().unwrap().series_ticker, "S2");
    assert_eq!(b.on_error("HTTP 500"), Retry::GiveUp);
    assert_eq!(b.query().unwrap().series_ticker, "S3");
    // a page that came resets the count
    assert_eq!(b.on_error("429"), Retry::Wait(2_000));
    b.on_page(vec![kalshi_market("a")], Some("n".to_string()));
    assert_eq!(b.on_error("429"), Retry::Wait(2_000));
}

fn gamma_market(condition: Option<&str>) -> GammaMarket {
    GammaMarket {
        condition_id: condition.map(|c| c.to_string()),
        slug: None,
        question: None,
        outcomes: None,
        description: None,
        end_date_iso: None,
        end_date: None,
        clob_token_ids: None,
    }
}

#[test]
fn polymarket_markets_are_collected_once() {
    let mut b = PolyBackfill::new(MarketTag::Soccer, 1_500);
    let q = b.query().unwrap();
    assert_eq!((q.limit, q.offset, q.tag_id), (100, 0, "306"));
    assert_eq!((q.closed, q.ascending, q.include_tag), (false, false, true));
    assert_eq!(q.start_date_min, "1970-01-01T00:00:01Z");
    let full: Vec<GammaMarket> = (0..100).map(|i| gamma_market(Some(&format!("{}", i % 60)))).collect();
    b.on_page(full);
    let q = b.query().unwrap();
    assert_eq!((q.offset, q.tag_id), (100, "306"));
    b.on_page(vec![gamma_market(Some("59")), gamma_market(None), gamma_market(Some("60")), gamma_market(None)]);
    let q = b.query().unwrap();
    assert_eq!((q.offset, q.tag_id), (0, "100350"));
    b.on_page(vec![gamma_market(Some("60")), gamma_market(Some(""))]);
    let markets = b.into_markets();
    assert_eq!(markets.len(), 62);
    assert_eq!(markets[60].condition_id, None);
    assert_eq!(markets[61].condition_id.as_deref(), Some("60"));
}

#[test]
fn polymarket_pages_are_tried_three_times() {
    let mut b = PolyBackfill::new(MarketTag::Soccer, 0);
    assert_eq!(b.on_error("error sending request for url"), Retry::Wait(200));
    assert_eq!(b.on_error("error decoding response body"), Retry::Wait(400));
    assert_eq!(b.query().unwrap().tag_id, "306");
    assert_eq!(b.on_error("error sending request"), Retry::GiveUp);
    assert_eq!(b.query().unwrap().tag_id, "100350");
    assert_eq!(b.on_error("HTTP 500"), Retry::GiveUp);
    assert_eq!(b.query().unwrap().tag_id, "100834");
    b.on_page(vec![]);
    b.on_page(vec![]);
    assert!(b.query().is_none());
    assert!(b.into_markets().is_empty());
}

#[test]
fn a_backfill_holds_its_pages_in_order() {
    let mut k = KalshiBackfill::new(list(&["S1", "S2"]), 1_000, 400);
    k.on_page(vec![kalshi_market("A"), kalshi_market("B")], Some("next".to_string()));
    k.on_error("429");
    k.on_page(vec![kalshi_market("C")], None);
    k.on_error("HTTP 500");
    assert!(k.query().is_none());
    let tickers: Vec<String> = k.into_markets().into_iter().map(|m| m.ticker).collect();
    assert_eq!(tickers, list(&["A", "B", "C"]));

    let mut p = PolyBackfill::new(MarketTag::Soccer, 0);
    p.on_page(vec![gamma_market(Some("1")), gamma_market(Some("2"))]);
    p.on_error("error sending request");
    p.on_page(vec![gamma_market(Some("2")), gamma_market(Some("3")), gamma_market(Some("1"))]);
    p.on_error("HTTP 500");
    p.on_page(vec![gamma_market(Some("4")), gamma_market(Some("4"))]);
    assert!(p.query().is_none());
    let ids: Vec<String> = p.into_markets().into_iter().map(|m| m.condition_id.unwrap()).collect();
    assert_eq!(ids, list(&["1", "2", "3", "4"]));
}

#[test]
fn backfill_failures_are_summed_up() {
    assert!(backfill_report("kalshi", true, true).is_ok());
    assert_eq!(
        backfill_report("kalshi", false, false).unwrap_err(),
        "multiple backfill errors:\n- kalshi sport backfill failed\n- kalshi politics backfill failed"
    );
    assert_eq!(
        backfill_report("polymarket", true, false).unwrap_err(),
        "multiple backfill errors:\n- polymarket politics backfill failed"
    );
    assert_eq!(
        backfill_report("polymarket", false, true).unwrap_err(),
        "multiple backfill errors:\n- polymarket sport backfill failed"
    );
}

#[test]
fn broken_streams_are_connected_again() {
    for p in [Platform::Kalshi, Platform::Polymarket] {
        assert_eq!(stream_action(p, StreamEvent::Message), StreamAction::Handle);
        assert_eq!(stream_action(p, StreamEvent::Ended), StreamAction::Reconnect);
        assert_eq!(stream_action(p, StreamEvent::Failed("Io(x)")), StreamAction::Reconnect);
        assert_eq!(stream_action(p, StreamEvent::Failed("bad json")), StreamAction::Note);
    }
}

#[test]
fn kalshi_messages_are_dispatched() {
    let mut k = MyKalshiClient::new();
    let lifecycle = |e: &str| KalshiMessage::Lifecycle(e.to_string());
    assert_eq!(k.on_message(&lifecycle("created")), KalshiAction::Discover);
    assert_eq!(k.on_message(&lifecycle("settled")), KalshiAction::Forward);
    assert_eq!(k.on_message(&lifecycle("paused")), KalshiAction::Nothing);
    assert_eq!(k.on_message(&KalshiMessage::Ticker), KalshiAction::Forward);
    assert_eq!(k.on_message(&KalshiMessage::Ping), KalshiAction::Pong);
    assert_eq!(k.on_message(&KalshiMessage::Close), KalshiAction::Reconnect);
    assert_eq!(k.on_message(&KalshiMessage::Unhandled), KalshiAction::Note);
    assert_eq!(k.on_message(&KalshiMessage::Other), KalshiAction::Nothing);
    let reply = |t: &str| KalshiMessage::ErrorReply(t.to_string());
    assert_eq!(k.on_message(&reply("UNABLE to process message")), KalshiAction::Nothing);
    assert_eq!(k.on_message(&reply("bad ticker")), KalshiAction::Note);
    assert_eq!(k.subscribe_orderbook_channel(), AddPlan::Subscribe);
    let sub = KalshiMessage::Subscribed("orderbook_delta".to_string(), 3);
    assert_eq!(k.on_message(&sub), KalshiAction::Nothing);
    assert_eq!(k.subscribe_orderbook_channel(), AddPlan::AddMarkets(3));
}

#[test]
fn kalshi_reopens_the_channels_it_needs() {
    let mut k = MyKalshiClient::new();
    k.on_subscribed("ticker", 4);
    k.on_disconnected();
    assert_eq!(k.channels_to_reopen(), vec!["market_lifecycle_v2", "ticker"]);
    assert_eq!(k.subscribe_ticker_channel(), AddPlan::Subscribe);
    k.insert_subscribed_asset("K1".to_string());
    k.insert_subscribed_asset("K2".to_string());
    assert_eq!(k.channels_to_reopen(), vec!["market_lifecycle_v2", "ticker", "orderbook_delta"]);
    assert!(k.markets_to_reopen("market_lifecycle_v2").is_empty());
    assert!(k.markets_to_reopen("ticker").is_empty());
    assert_eq!(k.markets_to_reopen("orderbook_delta"), list(&["K1", "K2"]));
}

#[test]
fn polymarket_messages_are_dispatched() {
    assert_eq!(message_action(PolyMessageKind::NewMarket), PolyAction::Discover);
    for kind in [PolyMessageKind::BestBidAsk, PolyMessageKind::PriceChange, PolyMessageKind::MarketResolved] {
        assert_eq!(message_action(kind), PolyAction::Forward);
    }
    assert_eq!(message_action(PolyMessageKind::Ping), PolyAction::Pong);
    assert_eq!(message_action(PolyMessageKind::Close), PolyAction::Reconnect);
    assert_eq!(message_action(PolyMessageKind::Other), PolyAction::Nothing);
    assert_eq!(new_market_topic(&None), Err(MissingTags));
    assert_eq!(new_market_topic(&Some(list(&["450"]))), Ok(Some(MarketTag::Nfl)));
    assert_eq!(new_market_topic(&Some(list(&["0"]))), Ok(None));
}
