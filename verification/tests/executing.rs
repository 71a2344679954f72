use degenerate::balance::BalanceTracker;
use degenerate::dec::Dec;
use degenerate::exec::{
    book_prices, decide, fetch_failed, hedge_placed, hedged_leg, is_optimistic, settle,
    streamed_prices, Decision, Pricing, Settlement,
};
use degenerate::guards::Guards;
use degenerate::messages::{ClientAction, ClientEbo};
use degenerate::models::{ArbMinifiedInfo, DecimalError, ExecutionRequest, Leg, Platform};
use degenerate::orderbook::{
    find_level, find_seed_levels, first_level, last_level, BookLevel, KalshiBook, MetricsError,
    OrderBook, PolyBook,
};
use degenerate::orders::{
    combine_kalshi_fill, execution_metrics, fak_order, hedge_order, hedge_sell_order, kalshi_fill,
    make_fak_order, metrics_of_level, poly_fill, refusal, Fill, FillError, OrderError,
    OrderRequest, Side, Standing,
};
use uuid::Uuid;

fn dec(mantissa: i64, scale: u32) -> Dec {
    Dec::new(mantissa, scale)
}

fn huge() -> Dec {
    Dec::from_parts((1 << 96) - 1, 0).unwrap()
}

fn is(d: Dec, mantissa: i64, scale: u32) -> bool {
    d.eq_value(dec(mantissa, scale))
}

fn leg(platform: Platform, token: &str, side: Leg) -> ArbMinifiedInfo {
    ArbMinifiedInfo {
        market_key: format!("{}:{}", platform.name(), token),
        platform,
        market_id: token.to_string(),
        token_id: token.to_string(),
        leg: side,
        close_time_ms: 1,
    }
}

fn request() -> ExecutionRequest {
    ExecutionRequest {
        correlation_id: "arb-1".to_string(),
        anchor: leg(Platform::Kalshi, "KX", Leg::Right),
        matched: leg(Platform::Polymarket, "300", Leg::Left),
        anchor_ws_price: dec(40, 2),
        match_ws_price: dec(50, 2),
        anchor_ws_size: dec(30, 0),
        match_ws_size: dec(255, 1),
    }
}

fn balances() -> BalanceTracker {
    let mut b = BalanceTracker::new(&None, &None);
    b.set_kalshi(dec(100, 0));
    b.set_poly(dec(100, 0));
    b
}

fn in_flight() -> Guards {
    let mut g = Guards::new(30);
    g.submitted("arb-1", true);
    g
}

fn priced(anchor: Dec, matched: Dec) -> Pricing {
    Pricing { anchor_price: anchor, anchor_size: dec(30, 0), match_price: matched, match_size: dec(255, 1) }
}

fn level(price: &str, size: &str) -> BookLevel {
    BookLevel { price: price.to_string(), size: size.to_string() }
}

fn poly_book(asks: Vec<BookLevel>) -> OrderBook {
    OrderBook::Polymarket(PolyBook { asks, bids: vec![level("0.1", "1"), level("0.05", "2")], timestamp: "7".to_string() })
}

fn kalshi_book(yes: Option<Vec<BookLevel>>, no: Option<Vec<BookLevel>>) -> OrderBook {
    OrderBook::Kalshi(KalshiBook { yes_dollars: yes, no_dollars: no })
}

#[test]
fn execution_mode_is_read() {
    let mode = |s: &str| is_optimistic(&Some(s.to_string()));
    assert!(mode("OPTIMISTIC"));
    assert!(!mode("http"));
    assert!(!mode(" optimistic"));
    assert!(!is_optimistic(&None));
}

#[test]
fn streamed_prices_are_used_when_trusted() {
    assert!(streamed_prices(&request(), false).is_none());
    let p = streamed_prices(&request(), true).unwrap();
    assert!(is(p.anchor_price, 40, 2) && is(p.match_price, 50, 2));
    assert!(is(p.anchor_size, 30, 0) && is(p.match_size, 255, 1));
}

#[test]
fn books_give_price_and_size() {
    let (p, s) = execution_metrics(&poly_book(vec![level("0.45", "12.5"), level("0.50", "1")]), Leg::Right).unwrap();
    assert!(is(p, 45, 2) && is(s, 125, 1));
    let bids = || Some(vec![level("0.10", "1"), level("0.62", "40")]);
    let (p, s) = execution_metrics(&kalshi_book(None, bids()), Leg::Left).unwrap();
    assert!(is(p, 38, 2) && is(s, 40, 0));
    let (p, s) = execution_metrics(&kalshi_book(bids(), None), Leg::Right).unwrap();
    assert!(is(p, 38, 2) && is(s, 40, 0));
}

#[test]
fn unusable_books_are_told_apart() {
    let error = |b: &OrderBook, l| execution_metrics(b, l).unwrap_err();
    assert_eq!(error(&poly_book(vec![]), Leg::Left), MetricsError::EmptyBook);
    assert_eq!(error(&kalshi_book(None, None), Leg::Left), MetricsError::MissingBook);
    assert_eq!(error(&kalshi_book(None, None), Leg::Right), MetricsError::MissingBook);
    assert_eq!(error(&kalshi_book(Some(vec![]), None), Leg::Right), MetricsError::EmptyBook);
    assert_eq!(error(&poly_book(vec![level("x", "y")]), Leg::Left), MetricsError::UnreadablePrice);
    assert_eq!(error(&poly_book(vec![level("1", "y")]), Leg::Left), MetricsError::UnreadableSize);
    assert_eq!(metrics_of_level(true, Some(huge()), None).unwrap_err(), MetricsError::UnreadableSize);
    let lowest = Dec::from_parts(1 - (1 << 96), 0).unwrap();
    assert_eq!(metrics_of_level(true, Some(lowest), Some(dec(1, 0))).unwrap_err(), MetricsError::Overflow);
    assert!(is(metrics_of_level(false, Some(dec(3, 1)), Some(dec(1, 0))).unwrap().0, 3, 1));
    assert!(find_level(&poly_book(vec![level("1", "2")]), Leg::Left).unwrap().price == "1");
}

#[test]
fn seeds_come_from_the_best_levels() {
    let book = poly_book(vec![level("0.45", "1"), level("0.5", "1")]);
    let (ask, bid) = find_seed_levels(&book);
    assert_eq!((ask.unwrap().price.as_str(), bid.unwrap().price.as_str()), ("0.45", "0.1"));
    let book = kalshi_book(Some(vec![level("0.3", "1"), level("0.4", "1")]), Some(vec![level("0.5", "1"), level("0.55", "1")]));
    let (ask, bid) = find_seed_levels(&book);
    assert_eq!((ask.unwrap().price.as_str(), bid.unwrap().price.as_str()), ("0.55", "0.4"));
    let book = kalshi_book(None, Some(vec![]));
    let (ask, bid) = find_seed_levels(&book);
    assert!(ask.is_none() && bid.is_none());
    assert!(first_level(&vec![]).is_none());
    assert!(last_level(&None).is_none());
}

#[test]
fn book_prices_name_the_leg_that_fails() {
    let kalshi = || kalshi_book(Some(vec![level("0.60", "9")]), None);
    let poly = || poly_book(vec![level("0.45", "8")]);
    let p = book_prices(&request(), &kalshi(), &poly()).unwrap();
    assert!(is(p.anchor_price, 40, 2) && is(p.anchor_size, 9, 0));
    assert!(is(p.match_price, 45, 2) && is(p.match_size, 8, 0));
    let e = book_prices(&request(), &kalshi_book(None, None), &poly_book(vec![])).unwrap_err();
    assert_eq!(e, (Leg::Left, MetricsError::MissingBook));
    let e = book_prices(&request(), &kalshi(), &poly_book(vec![])).unwrap_err();
    assert_eq!(e, (Leg::Right, MetricsError::EmptyBook));
}

#[test]
fn kalshi_buys_are_limit_orders_in_cents() {
    let l = leg(Platform::Kalshi, "KX", Leg::Left);
    match make_fak_order(&l, dec(79, 1), dec(5678, 4), "arb-1").unwrap() {
        OrderRequest::Kalshi(o) => {
            assert_eq!((o.ticker.as_str(), o.action, o.side, o.count), ("KX", "buy", "yes", 7));
            assert_eq!((o.order_type, o.yes_price, o.no_price), ("limit", Some(56), None));
            assert_eq!((o.post_only, o.time_in_force), (false, "immediate_or_cancel"));
            let id = Uuid::new_v5(&Uuid::NAMESPACE_OID, b"arb-1:7:0.5678").to_string();
            assert_eq!(o.client_order_id, id);
        }
        OrderRequest::Polymarket(_) => panic!("wrong venue"),
    }
    let l = leg(Platform::Kalshi, "KX", Leg::Right);
    match make_fak_order(&l, dec(3, 0), dec(1, 0), "arb-1").unwrap() {
        OrderRequest::Kalshi(o) => {
            assert_eq!((o.side, o.yes_price, o.no_price), ("no", None, Some(100)));
            let id = Uuid::new_v5(&Uuid::NAMESPACE_OID, b"arb-1:3:1").to_string();
            assert_eq!(o.client_order_id, id);
        }
        OrderRequest::Polymarket(_) => panic!("wrong venue"),
    }
}

#[test]
fn order_ids_spell_out_the_price() {
    let cases = [
        (dec(0, 0), "0"),
        (dec(0, 2), "0.00"),
        (dec(5, 2), "0.05"),
        (dec(500, 2), "5.00"),
        (dec(12_345, 3), "12.345"),
    ];
    for (price, text) in cases {
        let l = leg(Platform::Kalshi, "KX", Leg::Left);
        let seed = format!("c:1:{text}");
        match make_fak_order(&l, dec(1, 0), price, "c").unwrap() {
            OrderRequest::Kalshi(o) => assert_eq!(
                o.client_order_id,
                Uuid::new_v5(&Uuid::NAMESPACE_OID, seed.as_bytes()).to_string(),
                "{text}"
            ),
            OrderRequest::Polymarket(_) => panic!("wrong venue"),
        }
    }
}

#[test]
fn kalshi_buys_need_sane_numbers() {
    let l = leg(Platform::Kalshi, "KX", Leg::Left);
    let error = |size, price| make_fak_order(&l, size, price, "c").unwrap_err();
    assert_eq!(error(dec(1, 0), huge()), OrderError::Overflow);
    assert_eq!(error(dec(1, 0), dec(-1, 2)), OrderError::InvalidPrice);
    assert_eq!(error(dec(-1, 0), dec(1, 2)), OrderError::InvalidSize);
    assert_eq!(error(huge(), dec(1, 2)), OrderError::InvalidSize);
    assert_eq!(error(dec(9, 1), dec(1, 2)), OrderError::ZeroSize);
    assert_eq!(fak_order(&l, dec(1, 0), dec(1, 0), None, None, "c").unwrap_err(), OrderError::Overflow);
}

#[test]
fn polymarket_orders_are_rounded() {
    let l = leg(Platform::Polymarket, "0x100000000000000002", Leg::Right);
    match make_fak_order(&l, dec(12_345, 3), dec(455, 3), "c").unwrap() {
        OrderRequest::Polymarket(o) => {
            assert_eq!(o.token, [2, 16, 0, 0]);
            assert!(is(o.size, 1_234, 2) && is(o.price, 46, 2));
            assert_eq!((o.side, o.standing), (Side::Buy, Standing::FillAndKill));
        }
        OrderRequest::Kalshi(_) => panic!("wrong venue"),
    }
    match make_fak_order(&l, dec(12_355, 3), dec(-25, 1), "c").unwrap() {
        OrderRequest::Polymarket(o) => assert!(is(o.size, 1_236, 2) && is(o.price, -25, 1)),
        OrderRequest::Kalshi(_) => panic!("wrong venue"),
    }
    let bad = leg(Platform::Polymarket, "KX", Leg::Right);
    assert_eq!(make_fak_order(&bad, dec(1, 0), dec(1, 0), "c").unwrap_err(), OrderError::InvalidToken);
    assert_eq!(fak_order(&l, dec(1, 0), dec(1, 0), None, None, "c").unwrap_err(), OrderError::InvalidToken);
}

#[test]
fn hedges_are_capped_sales() {
    let l = leg(Platform::Kalshi, "KX", Leg::Right);
    let (order, at) = hedge_sell_order(&l, dec(29, 1), dec(120, 2));
    assert!(is(at, 99, 2));
    match order.unwrap() {
        OrderRequest::Kalshi(o) => {
            assert_eq!((o.action, o.side, o.count), ("sell", "no", 2));
            assert_eq!((o.yes_price, o.no_price), (None, Some(99)));
            assert_eq!((o.post_only, o.time_in_force), (true, "good_till_canceled"));
            assert!(Uuid::try_parse(&o.client_order_id).is_ok());
        }
        OrderRequest::Polymarket(_) => panic!("wrong venue"),
    }
    let (order, at) = hedge_sell_order(&l, dec(1, 0), dec(425, 3));
    assert!(is(at, 425, 3));
    match order.unwrap() {
        OrderRequest::Kalshi(o) => assert_eq!(o.no_price, Some(42)),
        OrderRequest::Polymarket(_) => panic!("wrong venue"),
    }
    // a price that is no number of cents is asked as 99
    match hedge_sell_order(&l, dec(1, 0), dec(-5, 2)).0.unwrap() {
        OrderRequest::Kalshi(o) => assert_eq!(o.no_price, Some(99)),
        OrderRequest::Polymarket(_) => panic!("wrong venue"),
    }
    assert_eq!(hedge_sell_order(&l, dec(9, 1), dec(5, 1)).0.unwrap_err(), OrderError::ZeroSize);
    assert_eq!(hedge_sell_order(&l, dec(-9, 0), dec(5, 1)).0.unwrap_err(), OrderError::ZeroSize);
    let lowest = Dec::from_parts(1 - (1 << 96), 0).unwrap();
    assert_eq!(hedge_sell_order(&l, dec(1, 0), lowest).0.unwrap_err(), OrderError::Overflow);
}

#[test]
fn polymarket_hedges_stand_until_cancelled() {
    let l = leg(Platform::Polymarket, "7", Leg::Left);
    let (order, at) = hedge_sell_order(&l, dec(2_505, 3), dec(52, 2));
    assert!(is(at, 52, 2));
    match order.unwrap() {
        OrderRequest::Polymarket(o) => {
            assert_eq!(o.token, [7, 0, 0, 0]);
            assert!(is(o.size, 250, 2) && is(o.price, 52, 2));
            assert_eq!((o.side, o.standing), (Side::Sell, Standing::GoodTillCancelled));
        }
        OrderRequest::Kalshi(_) => panic!("wrong venue"),
    }
    let r = hedge_order(&l, dec(1, 0), dec(1, 0), None, None, "id".to_string());
    assert_eq!(r.unwrap_err(), OrderError::InvalidToken);
}

#[test]
fn kalshi_replies_are_read() {
    let t = |s: &str| Some(s.to_string());
    let f = kalshi_fill(&t("3.00"), &t("4"), "o".to_string()).unwrap();
    assert!(is(f.filled, 3, 0) && is(f.remaining, 4, 0));
    assert_eq!(f.order_id, "o");
    assert!(matches!(
        kalshi_fill(&None, &t("x"), "o".to_string()),
        Err(FillError::Amount(DecimalError::Missing))
    ));
    assert!(matches!(
        kalshi_fill(&t("1"), &t("x"), "o".to_string()),
        Err(FillError::Amount(DecimalError::Unreadable))
    ));
    let f = combine_kalshi_fill(Ok(dec(1, 0)), Ok(dec(2, 0)), "o".to_string()).unwrap();
    assert!(is(f.filled, 1, 0) && is(f.remaining, 2, 0));
}

#[test]
fn polymarket_replies_come_in_millionths() {
    let f = poly_fill(dec(10, 0), true, None, dec(7_250_000, 0), "o".to_string()).unwrap();
    assert!(is(f.filled, 725, 2) && is(f.remaining, 275, 2));
    match poly_fill(dec(10, 0), false, Some("no money".to_string()), dec(0, 0), "o".to_string()) {
        Err(FillError::Refused(m)) => assert_eq!(m, "no money"),
        _ => panic!("not refused"),
    }
    match poly_fill(dec(10, 0), false, None, dec(0, 0), "o".to_string()) {
        Err(FillError::Refused(m)) => assert_eq!(m, "Unknown error"),
        _ => panic!("not refused"),
    }
    let lowest = Dec::from_parts(1 - (1 << 96), 0).unwrap();
    assert!(matches!(
        poly_fill(huge(), true, None, lowest, "o".to_string()),
        Err(FillError::Overflow)
    ));
    assert_eq!(refusal(None), "Unknown error");
}

#[test]
fn unprofitable_pairs_are_abandoned() {
    // a dollar or more: cooled down
    let mut g = in_flight();
    assert!(matches!(decide(&request(), priced(dec(50, 2), dec(50, 2)), &balances(), &mut g, 5), Decision::Abandon));
    assert!(!g.is_in_flight("arb-1") && g.has_cooldown("arb-1"));
    // close to a dollar, or nothing at all: just dropped
    let dropped = [
        (dec(485, 3), dec(50, 2)),
        (dec(4_501, 4), dec(50, 2)),
        (dec(45, 2), dec(50, 2)),
        (dec(0, 0), dec(0, 0)),
        (dec(-50, 2), dec(20, 2)),
    ];
    for (a, m) in dropped {
        let mut g = in_flight();
        assert!(matches!(decide(&request(), priced(a, m), &balances(), &mut g, 5), Decision::Abandon));
        assert!(!g.is_in_flight("arb-1") && !g.has_cooldown("arb-1"));
    }
    // just below 95 cents
    let mut g = in_flight();
    assert!(matches!(decide(&request(), priced(dec(4_499, 4), dec(50, 2)), &balances(), &mut g, 5), Decision::Place(_)));
    assert!(g.is_in_flight("arb-1"));
}

#[test]
fn small_trades_end_the_execution() {
    let mut g = in_flight();
    let poor = BalanceTracker::new(&None, &None);
    assert!(matches!(decide(&request(), priced(dec(40, 2), dec(50, 2)), &poor, &mut g, 5), Decision::Skip));
    assert!(!g.is_in_flight("arb-1") && !g.has_cooldown("arb-1"));
}

#[test]
fn both_legs_are_bought_in_the_same_size() {
    let mut g = in_flight();
    match decide(&request(), priced(dec(40, 2), dec(50, 2)), &balances(), &mut g, 5) {
        Decision::Place(p) => {
            assert!(is(p.size, 22, 0));
            match p.anchor_order.unwrap() {
                OrderRequest::Kalshi(o) => assert_eq!((o.count, o.no_price), (22, Some(40))),
                OrderRequest::Polymarket(_) => panic!("wrong venue"),
            }
            match p.match_order.unwrap() {
                OrderRequest::Polymarket(o) => {
                    assert_eq!(o.token, [300, 0, 0, 0]);
                    assert!(is(o.size, 22, 0) && is(o.price, 50, 2));
                }
                OrderRequest::Kalshi(_) => panic!("wrong venue"),
            }
        }
        _ => panic!("not placed"),
    }
    assert!(g.is_in_flight("arb-1"));
    assert!(matches!(decide(&request(), priced(huge(), huge()), &balances(), &mut g, 5), Decision::Overflow));
    assert!(g.is_in_flight("arb-1"));
}

#[test]
fn failed_fetches_end_the_execution() {
    let mut g = in_flight();
    g.submitted("other", true);
    fetch_failed(&request(), &mut g);
    assert!(!g.is_in_flight("arb-1") && g.is_in_flight("other"));
}

fn fill(filled: Dec, id: &str) -> Option<Fill> {
    Some(Fill { filled, remaining: dec(0, 0), order_id: id.to_string() })
}

fn settled(a: Option<Fill>, m: Option<Fill>) -> (Settlement, BalanceTracker, Guards) {
    let mut b = balances();
    let mut g = in_flight();
    let s = settle(
        &request(),
        priced(dec(40, 2), dec(50, 2)),
        a,
        m,
        &mut b,
        &mut g,
        "msg".to_string(),
        5,
        77,
    );
    (s, b, g)
}

fn check_report(ebo: ClientEbo, a: (i64, u32), m: (i64, u32), excess: (i64, u32), ids: (&str, &str)) {
    assert_eq!((ebo.correlation_id.as_str(), ebo.action_at), ("msg", 77));
    match ebo.action {
        ClientAction::OrderSubmitted(o) => {
            assert!(is(o.anchor_cost, 40, 2) && is(o.match_cost, 50, 2));
            assert!(is(o.anchor_fill, a.0, a.1) && is(o.match_fill, m.0, m.1));
            assert!(is(o.excess_fill, excess.0, excess.1));
            assert_eq!((o.anchor_order_id.as_str(), o.match_order_id.as_str()), ids);
            assert_eq!(o.arb_correlation_id, "arb-1");
        }
        _ => panic!("no report"),
    }
}

#[test]
fn a_miss_on_both_legs_cools_down() {
    for (a, m) in [(None, None), (fill(dec(0, 2), "x"), None)] {
        let (s, b, g) = settled(a, m);
        assert!(matches!(s, Settlement::Missed));
        assert!(!g.is_in_flight("arb-1") && g.has_cooldown("arb-1"));
        assert!(is(b.kalshi(), 100, 0) && is(b.poly(), 100, 0));
    }
}

#[test]
fn equal_fills_are_perfect() {
    let (s, b, g) = settled(fill(dec(10, 0), "x"), fill(dec(1_000, 2), "y"));
    match s {
        Settlement::Perfect(ebo) => check_report(ebo, (10, 0), (10, 0), (0, 0), ("x", "y")),
        _ => panic!("not perfect"),
    }
    assert!(!g.is_in_flight("arb-1") && !g.has_cooldown("arb-1"));
    assert!(is(b.kalshi(), 96, 0) && is(b.poly(), 95, 0));
}

#[test]
fn an_anchor_excess_is_hedged() {
    let (s, b, g) = settled(fill(dec(10, 0), "x"), fill(dec(75, 1), "y"));
    match s {
        Settlement::Legged(h) => {
            assert_eq!(h.leg, Leg::Left);
            assert!(is(h.size, 25, 1) && is(h.price, 42, 2));
            check_report(h.report, (10, 0), (75, 1), (25, 1), ("x", "y"));
        }
        _ => panic!("not legged"),
    }
    assert!(g.is_in_flight("arb-1"));
    assert!(is(b.kalshi(), 97, 0) && is(b.poly(), 9_625, 2));
}

#[test]
fn a_match_excess_is_hedged() {
    let (s, b, g) = settled(None, fill(dec(4, 0), "y"));
    match s {
        Settlement::Legged(h) => {
            assert_eq!(h.leg, Leg::Right);
            assert!(is(h.size, 4, 0) && is(h.price, 52, 2));
            check_report(h.report, (0, 0), (4, 0), (4, 0), ("", "y"));
        }
        _ => panic!("not legged"),
    }
    assert!(g.is_in_flight("arb-1"));
    assert!(is(b.kalshi(), 100, 0) && is(b.poly(), 100, 0));
}

#[test]
fn settling_beyond_range_is_told() {
    let (s, b, g) = settled(fill(huge(), "x"), fill(huge(), "y"));
    // paying for the fills takes the balances below what they hold, but fits
    assert!(matches!(s, Settlement::Perfect(_)));
    assert!(!g.is_in_flight("arb-1"));
    assert!(!is(b.kalshi(), 100, 0));
    let lowest = Dec::from_parts(1 - (1 << 96), 0).unwrap();
    let (s, _, g) = settled(fill(huge(), "x"), fill(lowest, "y"));
    assert!(matches!(s, Settlement::Overflow));
    assert!(g.is_in_flight("arb-1"));
}

#[test]
fn hedging_ends_the_execution() {
    let r = request();
    assert_eq!(hedged_leg(&r, Leg::Left).token_id, "KX");
    let mut g = in_flight();
    let ebo = hedge_placed(&r, Leg::Right, dec(4, 0), dec(52, 2), Some("sale".to_string()), "msg".to_string(), &mut g, 78).unwrap();
    assert!(!g.is_in_flight("arb-1"));
    assert_eq!((ebo.correlation_id.as_str(), ebo.action_at), ("msg", 78));
    match ebo.action {
        ClientAction::ExcessFillSubmitted(o) => {
            assert_eq!((o.order_id.as_str(), o.platform), ("sale", Platform::Polymarket));
            assert!(is(o.excess_fill_size, 4, 0) && is(o.excess_fill_cost, 52, 2));
        }
        _ => panic!("no report"),
    }
    let mut g = in_flight();
    assert!(hedge_placed(&r, Leg::Left, dec(4, 0), dec(52, 2), None, "msg".to_string(), &mut g, 78).is_none());
    assert!(!g.is_in_flight("arb-1"));
}
