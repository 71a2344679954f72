//! Executing an arb: pricing it, buying both legs, and selling what one leg bought
//! in excess of the other.
//!
//! An execution runs through a few steps. Each step decides from what came back
//! from the venues what is to be done next; the arb stays in flight until the step
//! that ends its execution.
use crate::balance::{both_debited, sized, within_limits, BalanceTracker, Balances};
use crate::dec::{
    aligned_fit, common_scale, decimal_difference, decimal_product, decimal_sum, equal,
    exact_difference, exact_sum, fits, floor_of, lemma_floor_grows, lemma_floor_sign,
    lemma_less_equal, lemma_less_whole, lemma_pow10_adds, lemma_pow10_positive, less, magnitude,
    pow10, rounded, smaller, smaller_is_above_neither, whole, zero, Dec, Num,
};
use crate::guards::{blocked, Guarding, Guards};
use crate::ids;
use crate::messages::{ClientAction, ClientEbo, ExcessFillOrderMade, OrderMade};
use crate::models::{ArbMinifiedInfo, ExecutionRequest, Leg};
use crate::orderbook::{MetricsError, OrderBook};
use crate::orders::{
    book_metrics, execution_metrics, fak_error, is_fak_order, make_fak_order, Fill, OrderError,
    OrderRequest,
};
use crate::text;
use vstd::prelude::*;

verus! {

/// The prices and sizes at which the legs of an arb can be bought.
#[derive(Debug, Clone, Copy)]
pub struct Pricing {
    pub anchor_price: Dec,
    pub anchor_size: Dec,
    pub match_price: Dec,
    pub match_size: Dec,
}

/// Whether the setting asks for executions that trust the streamed prices.
pub fn is_optimistic(exec_mode: &Option<String>) -> (r: bool)
    ensures
        r == match *exec_mode {
            Some(mode) => text::same_ignoring_ascii_case(mode@, "optimistic"@),
            None => false,
        },
{
    match exec_mode {
        Some(mode) => text::eq_ignore_ascii_case(mode.as_str(), "optimistic"),
        None => false,
    }
}

/// The streamed prices, if those are trusted.
pub open spec fn trusted_prices(request: ExecutionRequest, optimistic: bool) -> Option<Pricing> {
    if optimistic {
        Some(
            Pricing {
                anchor_price: request.anchor_ws_price,
                anchor_size: request.anchor_ws_size,
                match_price: request.match_ws_price,
                match_size: request.match_ws_size,
            },
        )
    } else {
        None
    }
}

/// The streamed prices are taken, each for its own leg, exactly where they are trusted;
/// otherwise the books are looked at again.
pub proof fn streamed_prices_need_trust(request: ExecutionRequest, optimistic: bool)
    ensures
        trusted_prices(request, optimistic) is Some <==> optimistic,
        trusted_prices(request, optimistic) matches Some(p) ==> {
            &&& p.anchor_price@ == request.anchor_ws_price@
            &&& p.anchor_size@ == request.anchor_ws_size@
            &&& p.match_price@ == request.match_ws_price@
            &&& p.match_size@ == request.match_ws_size@
        },
{
}

/// The prices to execute at without looking at the books again: the streamed ones,
/// if those are trusted.
pub fn streamed_prices(request: &ExecutionRequest, optimistic: bool) -> (r: Option<Pricing>)
    ensures
        r == trusted_prices(*request, optimistic),
{
    if optimistic {
        Some(
            Pricing {
                anchor_price: request.anchor_ws_price,
                anchor_size: request.anchor_ws_size,
                match_price: request.match_ws_price,
                match_size: request.match_ws_size,
            },
        )
    } else {
        None
    }
}

/// Whether `r` holds the prices that the order books of both legs give.
pub open spec fn priced_by_books(
    request: ExecutionRequest,
    anchor_book: OrderBook,
    match_book: OrderBook,
    r: Result<Pricing, (Leg, MetricsError)>,
) -> bool {
    match (
        book_metrics(anchor_book, request.anchor.leg),
        book_metrics(match_book, request.matched.leg),
    ) {
        (Ok(a), Ok(m)) => r matches Ok(p) && (p.anchor_price@, p.anchor_size@) == a && (
            p.match_price@,
            p.match_size@,
        ) == m,
        (Err(e), _) => r == Err::<Pricing, (Leg, MetricsError)>((Leg::Left, e)),
        (Ok(_), Err(e)) => r == Err::<Pricing, (Leg, MetricsError)>((Leg::Right, e)),
    }
}

/// Each leg is priced from its own book, by the side that it buys there, and no
/// leg's price depends on the other leg's book.
pub proof fn legs_are_priced_apart(
    request: ExecutionRequest,
    anchor_book: OrderBook,
    match_book: OrderBook,
    p: Pricing,
)
    requires
        priced_by_books(
            request,
            anchor_book,
            match_book,
            Ok::<Pricing, (Leg, MetricsError)>(p),
        ),
    ensures
        book_metrics(anchor_book, request.anchor.leg) == Ok::<(Num, Num), MetricsError>(
            (p.anchor_price@, p.anchor_size@),
        ),
        book_metrics(match_book, request.matched.leg) == Ok::<(Num, Num), MetricsError>(
            (p.match_price@, p.match_size@),
        ),
{
}

/// The prices to execute at, from the order books of both legs. An error names the
/// anchor as the left leg and the match as the right one.
pub fn book_prices(
    request: &ExecutionRequest,
    anchor_book: &OrderBook,
    match_book: &OrderBook,
) -> (r: Result<Pricing, (Leg, MetricsError)>)
    ensures
        priced_by_books(*request, *anchor_book, *match_book, r),
{
    let anchor = match execution_metrics(anchor_book, request.anchor.leg) {
        Ok(metrics) => metrics,
        Err(e) => return Err((Leg::Left, e)),
    };
    let matched = match execution_metrics(match_book, request.matched.leg) {
        Ok(metrics) => metrics,
        Err(e) => return Err((Leg::Right, e)),
    };
    Ok(
        Pricing {
            anchor_price: anchor.0,
            anchor_size: anchor.1,
            match_price: matched.0,
            match_size: matched.1,
        },
    )
}

/// The guards once the execution of the arb is over.
pub open spec fn released(g: Guarding, cid: Seq<char>) -> Guarding {
    Guarding { in_flight: g.in_flight.remove(cid), cooldown: g.cooldown }
}

/// The guards once the execution of the arb is over and its cooldown has begun.
pub open spec fn released_to_cool(g: Guarding, cid: Seq<char>, now: u128) -> Guarding {
    Guarding { in_flight: g.in_flight.remove(cid), cooldown: g.cooldown.insert(cid, now) }
}

/// However an execution ends, the arb is no longer in flight, and no other arb is
/// affected.
pub proof fn ending_releases(g: Guarding, cid: Seq<char>, now: u128, other: Seq<char>)
    ensures
        !released(g, cid).in_flight.contains(cid),
        !released_to_cool(g, cid, now).in_flight.contains(cid),
        other != cid ==> released(g, cid).in_flight.contains(other) == g.in_flight.contains(other)
            && released_to_cool(g, cid, now).in_flight.contains(other) == g.in_flight.contains(
            other,
        ) && released_to_cool(g, cid, now).cooldown.contains_key(other)
            == g.cooldown.contains_key(other),
        released(g, cid).cooldown == g.cooldown,
        released_to_cool(g, cid, now).cooldown.contains_key(cid),
{
}

/// An arb whose execution ended in a cooldown is blocked for the length of the
/// cooldown and free from then on.
pub proof fn failed_executions_cool_down(
    g: Guarding,
    cid: Seq<char>,
    ended: u128,
    length: int,
    now: u128,
)
    requires
        ended <= now,
    ensures
        blocked(released_to_cool(g, cid, ended), cid, length, now) <==> now - ended < length,
{
}

/// Ends the execution of an arb whose order books could not be had.
pub fn fetch_failed(request: &ExecutionRequest, guards: &mut Guards)
    ensures
        final(guards)@ == released(old(guards)@, request.correlation_id@),
        final(guards).length() == old(guards).length(),
{
    guards.release(request.correlation_id.as_str());
}

/// The cost below which a pair is worth buying.
pub open spec fn price_limit() -> Num {
    Num { mantissa: 95, scale: 2 }
}

/// Whether a pair costs nothing or too much to be worth buying.
pub open spec fn unprofitable(total: Num) -> bool {
    !less(zero(), total) || !less(total, price_limit())
}

/// Every pair that is bought costs more than nothing and more than five cents less
/// than the dollar that it pays.
pub proof fn bought_pairs_pay(total: Num)
    requires
        !unprofitable(total),
    ensures
        less(zero(), total),
        less(exact_sum(total, Num { mantissa: 5, scale: 2 }), whole(1)),
        less(total, whole(1)),
{
    let scale = common_scale(total, price_limit());
    let (more, rest) = ((scale - total.scale) as nat, (scale - 2) as nat);
    lemma_pow10_positive(total.scale);
    lemma_pow10_positive(more);
    lemma_pow10_adds(total.scale, more);
    lemma_pow10_adds(2, rest);
    reveal_with_fuel(pow10, 3);
    let (m, p, q, r) = (total.mantissa, pow10(total.scale), pow10(more), pow10(rest));
    assert(scale == total.scale + more && scale == 2 + rest);
    assert(m * 100 < 95 * p);
    assert(m * q + 5 * r < p * q) by (nonlinear_arith)
        requires
            m * 100 < 95 * p,
            p * q == 100 * r,
            q > 0,
    ;
    let five = Num { mantissa: 5, scale: 2 };
    assert(exact_sum(total, five) == (Num { mantissa: m * q + 5 * r, scale }));
    lemma_less_whole(exact_sum(total, five), 1);
    lemma_less_whole(total, 1);
}

/// The two buy orders of an arb, as far as they could be built.
#[derive(Debug)]
pub struct Placement {
    pub size: Dec,
    pub anchor_order: Result<OrderRequest, OrderError>,
    pub match_order: Result<OrderRequest, OrderError>,
}

/// What is to be done with an arb at the given prices.
#[derive(Debug)]
pub enum Decision {
    /// Nothing; the pair is no longer worth buying.
    Abandon,
    /// Nothing; the trade would be too small.
    Skip,
    /// Buy both legs.
    Place(Placement),
    /// An amount is beyond what a decimal holds.
    Overflow,
}

/// Whether `order` is the order that buys the leg, or what keeps it from being
/// built.
pub open spec fn is_order_for(
    order: Result<OrderRequest, OrderError>,
    leg: ArbMinifiedInfo,
    size: Num,
    price: Num,
    cid: Seq<char>,
) -> bool {
    let scaled = decimal_product(price, whole(100));
    let token = ids::u256_limbs(leg.token_id@);
    match order {
        Err(e) => fak_error(leg, size, scaled, token) == Some(e),
        Ok(o) => fak_error(leg, size, scaled, token) is None && is_fak_order(
            o,
            leg,
            size,
            price,
            scaled,
            token,
            cid,
        ),
    }
}

/// Whether the placement buys the same number of contracts on both legs.
pub open spec fn buys_both(
    p: Placement,
    request: ExecutionRequest,
    pricing: Pricing,
    size: Num,
) -> bool {
    let cid = request.correlation_id@;
    &&& p.size@ == size
    &&& is_order_for(p.anchor_order, request.anchor, size, pricing.anchor_price@, cid)
    &&& is_order_for(p.match_order, request.matched, size, pricing.match_price@, cid)
}

/// Whether `r` is what is to be done with an arb at the given prices, and `after`
/// the guards that it leaves.
pub open spec fn decided(
    request: ExecutionRequest,
    pricing: Pricing,
    b: Balances,
    g: Guarding,
    now: u128,
    r: Decision,
    after: Guarding,
) -> bool {
    let cid = request.correlation_id@;
    let (ap, mp) = (pricing.anchor_price@, pricing.match_price@);
    let liq = smaller(pricing.anchor_size@, pricing.match_size@);
    match decimal_sum(ap, mp) {
        None => r is Overflow && after == g,
        Some(total) => if unprofitable(total) {
            r is Abandon && after == if less(total, whole(1)) {
                released(g, cid)
            } else {
                released_to_cool(g, cid, now)
            }
        } else {
            match sized(b, ap, mp, liq) {
                None => r is Overflow && after == g,
                Some(None) => r is Skip && after == released(g, cid),
                Some(Some(size)) => {
                    &&& r matches Decision::Place(p)
                    &&& buys_both(p, request, pricing, size)
                    &&& within_limits(b, ap, mp, liq, size)
                    &&& after == g
                },
            }
        },
    }
}

/// Decides what is to be done with an arb at the given prices. A pair that costs a
/// dollar or more cools down.
pub fn decide(
    request: &ExecutionRequest,
    pricing: Pricing,
    balances: &BalanceTracker,
    guards: &mut Guards,
    now: u128,
) -> (r: Decision)
    ensures
        final(guards).length() == old(guards).length(),
        decided(*request, pricing, balances@, old(guards)@, now, r, final(guards)@),
{
    let cid = request.correlation_id.as_str();
    let total = match pricing.anchor_price.checked_add(pricing.match_price) {
        Some(total) => total,
        None => return Decision::Overflow,
    };
    if !Dec::zero().lt(total) || !total.lt(Dec::new(95, 2)) {
        if !total.lt(Dec::one()) {
            guards.cool(cid, now);
        }
        guards.release(cid);
        return Decision::Abandon;
    }
    let market_liq = pricing.anchor_size.min(pricing.match_size);
    match balances.try_compute_size(pricing.anchor_price, pricing.match_price, market_liq) {
        None => Decision::Overflow,
        Some(None) => {
            guards.release(cid);
            Decision::Skip
        },
        Some(Some(size)) => {
            let anchor_order = make_fak_order(&request.anchor, size, pricing.anchor_price, cid);
            let match_order = make_fak_order(&request.matched, size, pricing.match_price, cid);
            Decision::Place(Placement { size, anchor_order, match_order })
        },
    }
}

/// A pair is abandoned exactly where it costs nothing or 95 cents and more: every
/// pair that costs less than that, however little, is worth buying.
pub proof fn cheap_pairs_are_never_abandoned(
    request: ExecutionRequest,
    pricing: Pricing,
    b: Balances,
    g: Guarding,
    now: u128,
    r: Decision,
    after: Guarding,
    total: Num,
)
    requires
        decided(request, pricing, b, g, now, r, after),
        decimal_sum(pricing.anchor_price@, pricing.match_price@) == Some(total),
    ensures
        r is Abandon <==> !(less(whole(0), total) && less(total, Num { mantissa: 95, scale: 2 })),
        less(whole(0), total) && less(total, Num { mantissa: 95, scale: 2 }) ==> r is Place || r
            is Skip || r is Overflow,
{
}

/// The more a pair costs, the less it is bought: if a pair is not abandoned, neither
/// is one that costs something but no more.
pub proof fn cheaper_is_no_worse(total: Num, cheaper: Num)
    requires
        !unprofitable(total),
        less(whole(0), cheaper),
        !less(total, cheaper),
    ensures
        !unprofitable(cheaper),
{
    let limit = Num { mantissa: 95, scale: 2 };
    lemma_pow10_positive(total.scale);
    lemma_pow10_positive(cheaper.scale);
    lemma_pow10_positive(2);
    let (m, n, p, q) = (
        total.mantissa,
        cheaper.mantissa,
        pow10(total.scale),
        pow10(cheaper.scale),
    );
    let h = pow10(2);
    assert(n * h < 95 * q) by (nonlinear_arith)
        requires
            m * h < 95 * p,
            n * p <= m * q,
            p > 0,
            q > 0,
            h > 0,
    ;
    assert(less(cheaper, limit));
}

/// An arb that is abandoned or skipped is no longer in flight. It cools down from
/// now on exactly where the pair costs a dollar or more.
pub proof fn dear_pairs_cool_down(
    request: ExecutionRequest,
    pricing: Pricing,
    b: Balances,
    g: Guarding,
    now: u128,
    r: Decision,
    after: Guarding,
    total: Num,
)
    requires
        decided(request, pricing, b, g, now, r, after),
        decimal_sum(pricing.anchor_price@, pricing.match_price@) == Some(total),
    ensures
        r is Abandon || r is Skip ==> after.in_flight == g.in_flight.remove(
            request.correlation_id@,
        ),
        r is Abandon && !less(total, whole(1)) ==> after.cooldown == g.cooldown.insert(
            request.correlation_id@,
            now,
        ),
        !(r is Abandon && !less(total, whole(1))) ==> after.cooldown == g.cooldown,
        r is Place || r is Overflow ==> after.in_flight == g.in_flight,
{
}

/// Both legs are bought in the same whole number of contracts, each on its own
/// market, and never in more than is on offer on either of them.
pub proof fn both_legs_are_bought_alike(
    request: ExecutionRequest,
    pricing: Pricing,
    b: Balances,
    g: Guarding,
    now: u128,
    r: Decision,
    after: Guarding,
    p: Placement,
)
    requires
        decided(request, pricing, b, g, now, r, after),
        r == Decision::Place(p),
    ensures
        p.size@.scale == 0,
        p.size@.mantissa <= floor_of(pricing.anchor_size@),
        p.size@.mantissa <= floor_of(pricing.match_size@),
        buys_leg(p.anchor_order, request.anchor, p.size@, pricing.anchor_price@),
        buys_leg(p.match_order, request.matched, p.size@, pricing.match_price@),
{
    let (a, m) = (pricing.anchor_size@, pricing.match_size@);
    smaller_is_above_neither(a, m);
    lemma_floor_grows(smaller(a, m), a);
    lemma_floor_grows(smaller(a, m), m);
    assert(pow10(0) == 1);
    lemma_order_buys_leg(
        p.anchor_order,
        request.anchor,
        p.size@,
        pricing.anchor_price@,
        request.correlation_id@,
    );
    lemma_order_buys_leg(
        p.match_order,
        request.matched,
        p.size@,
        pricing.match_price@,
        request.correlation_id@,
    );
}

proof fn lemma_order_buys_leg(
    order: Result<OrderRequest, OrderError>,
    leg: ArbMinifiedInfo,
    size: Num,
    price: Num,
    cid: Seq<char>,
)
    requires
        is_order_for(order, leg, size, price, cid),
        size.scale == 0,
    ensures
        buys_leg(order, leg, size, price),
{
    assert(pow10(0) == 1);
    assert(floor_of(size) == size.mantissa);
    if order is Ok && leg.platform is Kalshi {
        lemma_floor_sign(decimal_product(price, whole(100))->0);
    }
}

/// Whether an order, if there is one, buys `size` contracts of the leg on the leg's
/// own market at the price: on Kalshi in whole cents that are not above it, on
/// Polymarket rounded to cents.
pub open spec fn buys_leg(
    order: Result<OrderRequest, OrderError>,
    leg: ArbMinifiedInfo,
    size: Num,
    price: Num,
) -> bool {
    match order {
        Err(_) => true,
        Ok(OrderRequest::Kalshi(o)) => {
            &&& leg.platform is Kalshi
            &&& o.action@ == "buy"@
            &&& o.ticker@ == leg.token_id@
            &&& o.count == size.mantissa
            &&& decimal_product(price, whole(100)) matches Some(in_cents)
            &&& leg.leg is Left ==> o.side@ == "yes"@ && o.no_price is None && o.yes_price == Some(
                floor_of(in_cents) as u64,
            )
            &&& leg.leg is Right ==> o.side@ == "no"@ && o.yes_price is None && o.no_price == Some(
                floor_of(in_cents) as u64,
            )
        },
        Ok(OrderRequest::Polymarket(o)) => {
            &&& leg.platform is Polymarket
            &&& o.side is Buy
            &&& ids::u256_limbs(leg.token_id@) == Some(o.token@)
            &&& o.size@ == size
            &&& o.price@ == rounded(price, 2)
        },
    }
}

/// What a leg bought, nothing where its order failed.
pub open spec fn bought(fill: Option<Fill>) -> Num {
    match fill {
        Some(f) => f.filled@,
        None => zero(),
    }
}

/// The id of a leg's order, empty where its order failed.
pub open spec fn bought_under(fill: Option<Fill>) -> Seq<char> {
    match fill {
        Some(f) => f.order_id@,
        None => Seq::empty(),
    }
}

/// The sale that a leg's excess asks for.
#[derive(Debug)]
pub struct Hedge {
    /// Reports both orders.
    pub report: ClientEbo,
    /// The leg that bought too much: the anchor as the left one, the match as the
    /// right one.
    pub leg: Leg,
    /// How much it bought in excess.
    pub size: Dec,
    /// The price to ask.
    pub price: Dec,
}

/// What is to be done once the buy orders are through.
#[derive(Debug)]
pub enum Settlement {
    /// Nothing; neither leg bought anything.
    Missed,
    /// Report; both legs bought the same.
    Perfect(ClientEbo),
    /// Report and sell what one leg bought in excess.
    Legged(Hedge),
    /// Nothing; the fills differ by less than a decimal can tell.
    Even,
    /// An amount is beyond what a decimal holds.
    Overflow,
}

/// Whether `ebo` reports the two orders of an arb.
pub open spec fn reports(
    ebo: ClientEbo,
    request: ExecutionRequest,
    pricing: Pricing,
    anchor: Option<Fill>,
    matched: Option<Fill>,
    excess: Num,
    message_id: Seq<char>,
    now_ms: i64,
) -> bool {
    &&& ebo.correlation_id@ == message_id
    &&& ebo.action_at == now_ms
    &&& ebo.action matches ClientAction::OrderSubmitted(o)
    &&& o.anchor_cost == pricing.anchor_price
    &&& o.match_cost == pricing.match_price
    &&& o.anchor_fill@ == bought(anchor)
    &&& o.match_fill@ == bought(matched)
    &&& o.excess_fill@ == excess
    &&& o.anchor_order_id@ == bought_under(anchor)
    &&& o.match_order_id@ == bought_under(matched)
    &&& o.arb_correlation_id@ == request.correlation_id@
}

/// How much more a leg's excess is offered for than it was bought for.
pub open spec fn hedge_markup() -> Num {
    Num { mantissa: 2, scale: 2 }
}

/// The number without its sign.
pub open spec fn absolute(n: Num) -> Num {
    Num { mantissa: magnitude(n.mantissa) as int, scale: n.scale }
}

/// The balances once the fill that both legs share has been paid for.
pub open spec fn paid(
    b: Balances,
    request: ExecutionRequest,
    pricing: Pricing,
    anchor: Option<Fill>,
    matched: Option<Fill>,
) -> Option<Balances> {
    both_debited(
        b,
        request.anchor.platform,
        pricing.anchor_price@,
        request.matched.platform,
        pricing.match_price@,
        smaller(bought(anchor), bought(matched)),
    )
}

/// The leg that bought too much, if the fills differ: how much, and the price that
/// it bought at.
pub open spec fn excess_leg(
    pricing: Pricing,
    anchor: Option<Fill>,
    matched: Option<Fill>,
) -> Option<(Leg, Num, Num)> {
    match decimal_difference(bought(anchor), bought(matched)) {
        None => None,
        Some(excess) => if less(zero(), excess) {
            Some((Leg::Left, excess, pricing.anchor_price@))
        } else if less(excess, zero()) {
            Some((Leg::Right, absolute(excess), pricing.match_price@))
        } else {
            None
        },
    }
}

fn fill_or_nothing(fill: Option<Fill>) -> (r: (Dec, String))
    ensures
        r.0@ == bought(fill),
        r.1@ == bought_under(fill),
{
    match fill {
        Some(f) => (f.filled, f.order_id),
        None => (Dec::zero(), String::new()),
    }
}

/// Whether `r` is what is to be done once both buy orders are through, and
/// `balances` and `after` what it leaves.
pub open spec fn settled(
    request: ExecutionRequest,
    pricing: Pricing,
    anchor: Option<Fill>,
    matched: Option<Fill>,
    b: Balances,
    g: Guarding,
    message_id: Seq<char>,
    now: u128,
    now_ms: i64,
    r: Settlement,
    balances: Balances,
    after: Guarding,
) -> bool {
    let cid = request.correlation_id@;
    let (a, m) = (bought(anchor), bought(matched));
    match paid(b, request, pricing, anchor, matched) {
        None => r is Overflow && balances == b && after == g,
        Some(rest) => {
            &&& balances == rest
            &&& if equal(a, m) {
                if equal(a, zero()) {
                    r is Missed && after == released_to_cool(g, cid, now)
                } else {
                    &&& after == released(g, cid)
                    &&& r matches Settlement::Perfect(report)
                    &&& reports(
                        report,
                        request,
                        pricing,
                        anchor,
                        matched,
                        zero(),
                        message_id,
                        now_ms,
                    )
                }
            } else if decimal_difference(a, m) is None {
                r is Overflow && after == g
            } else {
                match excess_leg(pricing, anchor, matched) {
                    None => r is Even && after == released(g, cid),
                    Some((leg, size, price)) => {
                        &&& after == g
                        &&& match decimal_sum(price, hedge_markup()) {
                            None => r is Overflow,
                            Some(asked) => {
                                &&& r matches Settlement::Legged(hedge)
                                &&& hedge.leg == leg
                                &&& hedge.size@ == size
                                &&& hedge.price@ == asked
                                &&& reports(
                                    hedge.report,
                                    request,
                                    pricing,
                                    anchor,
                                    matched,
                                    size,
                                    message_id,
                                    now_ms,
                                )
                            },
                        }
                    },
                }
            }
        },
    }
}

/// Settles an execution once both buy orders are through: the shared fill is paid
/// for, and a difference between the legs is to be sold off at two cents above the
/// price it was bought at. A miss on both legs makes the arb cool down.
pub fn settle(
    request: &ExecutionRequest,
    pricing: Pricing,
    anchor: Option<Fill>,
    matched: Option<Fill>,
    balances: &mut BalanceTracker,
    guards: &mut Guards,
    message_id: String,
    now: u128,
    now_ms: i64,
) -> (r: Settlement)
    ensures
        final(guards).length() == old(guards).length(),
        settled(
            *request,
            pricing,
            anchor,
            matched,
            old(balances)@,
            old(guards)@,
            message_id@,
            now,
            now_ms,
            r,
            final(balances)@,
            final(guards)@,
        ),
        r matches Settlement::Legged(hedge) ==> evens_out(hedge, bought(anchor), bought(matched)),
        r matches Settlement::Legged(hedge) ==> sold_above_cost(
            hedge.price@,
            match hedge.leg {
                Leg::Left => pricing.anchor_price@,
                Leg::Right => pricing.match_price@,
            },
        ),
{
    let cid = request.correlation_id.as_str();
    let (anchor_fill, anchor_order_id) = fill_or_nothing(anchor);
    let (match_fill, match_order_id) = fill_or_nothing(matched);
    if !balances.try_deduct_fill(
        request.anchor.platform,
        pricing.anchor_price,
        request.matched.platform,
        pricing.match_price,
        anchor_fill.min(match_fill),
    ) {
        return Settlement::Overflow;
    }
    if anchor_fill.eq_value(match_fill) {
        if anchor_fill.eq_value(Dec::zero()) {
            guards.cool(cid, now);
            guards.release(cid);
            return Settlement::Missed;
        }
        guards.release(cid);
        return Settlement::Perfect(
            order_report(
                request,
                pricing,
                anchor_fill,
                match_fill,
                Dec::zero(),
                anchor_order_id,
                match_order_id,
                message_id,
                now_ms,
            ),
        );
    }
    let excess = match anchor_fill.checked_sub(match_fill) {
        Some(excess) => excess,
        None => return Settlement::Overflow,
    };
    let (leg, size, price) = if Dec::zero().lt(excess) {
        (Leg::Left, excess, pricing.anchor_price)
    } else if excess.lt(Dec::zero()) {
        (Leg::Right, excess.abs(), pricing.match_price)
    } else {
        guards.release(cid);
        return Settlement::Even;
    };
    let cost = price;
    let price = match cost.checked_add(Dec::new(2, 2)) {
        Some(price) => price,
        None => return Settlement::Overflow,
    };
    proof {
        let exact = exact_sum(cost@, Num { mantissa: 2, scale: 2 });
        lemma_two_cents_more(cost@);
        if equal(price@, exact) {
            lemma_less_equal(cost@, exact, price@);
        }
    }
    let report = order_report(
        request,
        pricing,
        anchor_fill,
        match_fill,
        size,
        anchor_order_id,
        match_order_id,
        message_id,
        now_ms,
    );
    Settlement::Legged(Hedge { report, leg, size, price })
}

/// An excess is offered at two cents above the price that the very leg which is sold
/// was bought at.
pub proof fn excess_is_sold_above_its_own_price(
    request: ExecutionRequest,
    pricing: Pricing,
    anchor: Option<Fill>,
    matched: Option<Fill>,
    b: Balances,
    g: Guarding,
    message_id: Seq<char>,
    now: u128,
    now_ms: i64,
    r: Settlement,
    balances: Balances,
    after: Guarding,
    hedge: Hedge,
)
    requires
        settled(
            request,
            pricing,
            anchor,
            matched,
            b,
            g,
            message_id,
            now,
            now_ms,
            r,
            balances,
            after,
        ),
        r == Settlement::Legged(hedge),
    ensures
        hedge.leg is Left ==> decimal_sum(pricing.anchor_price@, Num { mantissa: 2, scale: 2 })
            == Some(hedge.price@),
        hedge.leg is Right ==> decimal_sum(pricing.match_price@, Num { mantissa: 2, scale: 2 })
            == Some(hedge.price@),
{
}

/// The leg that bought more sells, and exactly what it bought more.
pub proof fn the_larger_fill_is_sold_down(
    request: ExecutionRequest,
    pricing: Pricing,
    anchor: Option<Fill>,
    matched: Option<Fill>,
    b: Balances,
    g: Guarding,
    message_id: Seq<char>,
    now: u128,
    now_ms: i64,
    r: Settlement,
    balances: Balances,
    after: Guarding,
    hedge: Hedge,
    fa: Fill,
    fm: Fill,
)
    requires
        settled(
            request,
            pricing,
            anchor,
            matched,
            b,
            g,
            message_id,
            now,
            now_ms,
            r,
            balances,
            after,
        ),
        r == Settlement::Legged(hedge),
        anchor == Some(fa),
        matched == Some(fm),
    ensures
        decimal_difference(fa.filled@, fm.filled@) is Some,
        ({
            let more = decimal_difference(fa.filled@, fm.filled@)->0;
            &&& hedge.size@.mantissa > 0
            &&& hedge.size@.scale == more.scale
            &&& hedge.leg is Left <==> more.mantissa > 0
            &&& hedge.leg is Left ==> hedge.size@.mantissa == more.mantissa
            &&& hedge.leg is Right ==> hedge.size@.mantissa == -more.mantissa
        }),
{
    let more = decimal_difference(fa.filled@, fm.filled@)->0;
    lemma_less_whole(more, 0);
}

/// An order that failed counts as one that filled nothing, under no id.
pub proof fn failed_orders_bought_nothing(
    request: ExecutionRequest,
    pricing: Pricing,
    anchor: Option<Fill>,
    matched: Option<Fill>,
    b: Balances,
    g: Guarding,
    message_id: Seq<char>,
    now: u128,
    now_ms: i64,
    r: Settlement,
    balances: Balances,
    after: Guarding,
    nothing: Fill,
)
    requires
        nothing.filled@ == whole(0),
        nothing.order_id@ == Seq::<char>::empty(),
    ensures
        anchor is None ==> (settled(
            request,
            pricing,
            anchor,
            matched,
            b,
            g,
            message_id,
            now,
            now_ms,
            r,
            balances,
            after,
        ) <==> settled(
            request,
            pricing,
            Some(nothing),
            matched,
            b,
            g,
            message_id,
            now,
            now_ms,
            r,
            balances,
            after,
        )),
        matched is None ==> (settled(
            request,
            pricing,
            anchor,
            matched,
            b,
            g,
            message_id,
            now,
            now_ms,
            r,
            balances,
            after,
        ) <==> settled(
            request,
            pricing,
            anchor,
            Some(nothing),
            b,
            g,
            message_id,
            now,
            now_ms,
            r,
            balances,
            after,
        )),
{
}

/// Fills of the same value end the execution: reported where something was bought,
/// and as a miss that makes the arb cool down from now on where nothing was. Fills
/// that differ are neither.
pub proof fn equal_fills_end_the_execution(
    request: ExecutionRequest,
    pricing: Pricing,
    anchor: Option<Fill>,
    matched: Option<Fill>,
    b: Balances,
    g: Guarding,
    message_id: Seq<char>,
    now: u128,
    now_ms: i64,
    r: Settlement,
    balances: Balances,
    after: Guarding,
    fa: Fill,
    fm: Fill,
)
    requires
        settled(
            request,
            pricing,
            anchor,
            matched,
            b,
            g,
            message_id,
            now,
            now_ms,
            r,
            balances,
            after,
        ),
        anchor == Some(fa),
        matched == Some(fm),
        r !is Overflow,
    ensures
        r is Perfect || r is Missed <==> equal(fa.filled@, fm.filled@),
        r is Missed <==> equal(fa.filled@, fm.filled@) && fa.filled@.mantissa == 0,
        r is Legged ==> after == g,
        r !is Legged ==> after.in_flight == g.in_flight.remove(request.correlation_id@),
        r is Missed ==> after.cooldown == g.cooldown.insert(request.correlation_id@, now),
        r !is Missed ==> after.cooldown == g.cooldown,
{
    lemma_pow10_positive(fa.filled@.scale);
    let (m, p) = (fa.filled@.mantissa, pow10(fa.filled@.scale));
    assert(pow10(0) == 1);
    assert(m * pow10(0) == 0 * p <==> m == 0) by (nonlinear_arith)
        requires
            pow10(0) == 1,
    ;
}

/// Every execution that bought something is reported with what each leg cost and
/// bought, under the ids of its own orders.
pub proof fn orders_are_reported_leg_by_leg(
    request: ExecutionRequest,
    pricing: Pricing,
    anchor: Option<Fill>,
    matched: Option<Fill>,
    b: Balances,
    g: Guarding,
    message_id: Seq<char>,
    now: u128,
    now_ms: i64,
    r: Settlement,
    balances: Balances,
    after: Guarding,
    report: ClientEbo,
    fa: Fill,
    fm: Fill,
)
    requires
        settled(
            request,
            pricing,
            anchor,
            matched,
            b,
            g,
            message_id,
            now,
            now_ms,
            r,
            balances,
            after,
        ),
        anchor == Some(fa),
        matched == Some(fm),
        r == Settlement::Perfect(report) || (r is Legged && r->Legged_0.report == report),
    ensures
        report.correlation_id@ == message_id,
        report.action_at == now_ms,
        report.action matches ClientAction::OrderSubmitted(o) && {
            &&& o.anchor_cost@ == pricing.anchor_price@
            &&& o.match_cost@ == pricing.match_price@
            &&& o.anchor_fill@ == fa.filled@
            &&& o.match_fill@ == fm.filled@
            &&& o.anchor_order_id@ == fa.order_id@
            &&& o.match_order_id@ == fm.order_id@
            &&& o.arb_correlation_id@ == request.correlation_id@
            &&& r is Perfect ==> o.excess_fill@.mantissa == 0
            &&& r is Legged ==> o.excess_fill@ == r->Legged_0.size@
        },
{
}

/// Each leg of the fill that both share is paid for on its own venue, at its own
/// price, whichever of the two is on which.
pub proof fn the_shared_fill_is_paid_leg_by_leg(
    request: ExecutionRequest,
    pricing: Pricing,
    anchor: Option<Fill>,
    matched: Option<Fill>,
    b: Balances,
    g: Guarding,
    message_id: Seq<char>,
    now: u128,
    now_ms: i64,
    r: Settlement,
    balances: Balances,
    after: Guarding,
    fa: Fill,
    fm: Fill,
    shared: Num,
)
    requires
        settled(
            request,
            pricing,
            anchor,
            matched,
            b,
            g,
            message_id,
            now,
            now_ms,
            r,
            balances,
            after,
        ),
        anchor == Some(fa),
        matched == Some(fm),
        shared == (if less(fm.filled@, fa.filled@) {
            fm.filled@
        } else {
            fa.filled@
        }),
        r !is Overflow,
    ensures
        ({
            let anchor_cost = decimal_product(pricing.anchor_price@, shared);
            let match_cost = decimal_product(pricing.match_price@, shared);
            &&& anchor_cost is Some && match_cost is Some
            &&& request.anchor.platform is Kalshi && request.matched.platform is Polymarket ==> {
                &&& decimal_difference(b.kalshi, anchor_cost->0) == Some(balances.kalshi)
                &&& decimal_difference(b.poly, match_cost->0) == Some(balances.poly)
            }
            &&& request.anchor.platform is Polymarket && request.matched.platform is Kalshi ==> {
                &&& decimal_difference(b.poly, anchor_cost->0) == Some(balances.poly)
                &&& decimal_difference(b.kalshi, match_cost->0) == Some(balances.kalshi)
            }
        }),
        balances.fraction == b.fraction,
        balances.minimum == b.minimum,
{
}

/// Whether an excess that was bought at `cost` is offered at exactly two cents above
/// it. Stated for costs to which a decimal can add two cents exactly.
pub open spec fn sold_above_cost(price: Num, cost: Num) -> bool {
    let asked = exact_sum(cost, Num { mantissa: 2, scale: 2 });
    aligned_fit(cost, Num { mantissa: 2, scale: 2 }) && fits(asked.mantissa) ==> equal(
        price,
        asked,
    ) && less(cost, price)
}

proof fn lemma_two_cents_more(cost: Num)
    ensures
        less(cost, exact_sum(cost, Num { mantissa: 2, scale: 2 })),
{
    let cents = Num { mantissa: 2, scale: 2 };
    let scale = common_scale(cost, cents);
    let (more, rest) = ((scale - cost.scale) as nat, (scale - 2) as nat);
    lemma_pow10_positive(cost.scale);
    lemma_pow10_positive(rest);
    lemma_pow10_adds(cost.scale, more);
    assert(scale == cost.scale + more);
    let (m, p, q, r) = (cost.mantissa, pow10(cost.scale), pow10(more), pow10(rest));
    assert(m * (p * q) < (m * q + 2 * r) * p) by (nonlinear_arith)
        requires
            p > 0,
            r > 0,
    ;
}

/// Whether selling the hedge's size on its leg leaves both legs with the same
/// amount. Stated for fills whose difference a decimal holds exactly.
pub open spec fn evens_out(hedge: Hedge, anchor: Num, matched: Num) -> bool {
    let signed = match hedge.leg {
        Leg::Left => hedge.size@,
        Leg::Right => Num { mantissa: -hedge.size@.mantissa, scale: hedge.size@.scale },
    };
    &&& less(zero(), hedge.size@)
    &&& aligned_fit(anchor, matched) && fits(exact_difference(anchor, matched).mantissa) ==> equal(
        signed,
        exact_difference(anchor, matched),
    )
}

fn order_report(
    request: &ExecutionRequest,
    pricing: Pricing,
    anchor_fill: Dec,
    match_fill: Dec,
    excess_fill: Dec,
    anchor_order_id: String,
    match_order_id: String,
    message_id: String,
    now_ms: i64,
) -> (r: ClientEbo)
    ensures
        r.correlation_id == message_id,
        r.action_at == now_ms,
        r.action matches ClientAction::OrderSubmitted(o) && o.anchor_cost == pricing.anchor_price
            && o.match_cost == pricing.match_price && o.anchor_fill == anchor_fill && o.match_fill
            == match_fill && o.excess_fill == excess_fill && o.anchor_order_id == anchor_order_id
            && o.match_order_id == match_order_id && o.arb_correlation_id
            == request.correlation_id,
{
    ClientEbo {
        correlation_id: message_id,
        action_at: now_ms,
        action: ClientAction::OrderSubmitted(
            OrderMade {
                anchor_cost: pricing.anchor_price,
                match_cost: pricing.match_price,
                anchor_fill,
                match_fill,
                excess_fill,
                anchor_order_id,
                match_order_id,
                arb_correlation_id: request.correlation_id.clone(),
            },
        ),
    }
}

/// The leg of a request: the anchor as the left one, the match as the right one.
pub open spec fn leg_of(request: ExecutionRequest, leg: Leg) -> ArbMinifiedInfo {
    match leg {
        Leg::Left => request.anchor,
        Leg::Right => request.matched,
    }
}

/// The leg of a request: the anchor as the left one, the match as the right one.
pub fn hedged_leg(request: &ExecutionRequest, leg: Leg) -> (r: &ArbMinifiedInfo)
    ensures
        *r == leg_of(*request, leg),
{
    match leg {
        Leg::Left => &request.anchor,
        Leg::Right => &request.matched,
    }
}

/// Whether `r` reports the sale of an excess, if there is one.
pub open spec fn hedge_reported(
    request: ExecutionRequest,
    leg: Leg,
    size: Dec,
    sold_at: Dec,
    order_id: Option<String>,
    message_id: Seq<char>,
    now_ms: i64,
    r: Option<ClientEbo>,
) -> bool {
    &&& r is Some <==> order_id is Some
    &&& r matches Some(ebo) ==> {
        &&& ebo.correlation_id@ == message_id
        &&& ebo.action_at == now_ms
        &&& ebo.action == ClientAction::ExcessFillSubmitted(
            ExcessFillOrderMade {
                order_id: order_id->0,
                platform: leg_of(request, leg).platform,
                excess_fill_size: size,
                excess_fill_cost: sold_at,
            },
        )
    }
}

/// A sale is reported exactly where there is an order, under the id that reports the
/// buy orders and for the venue of the leg that was sold.
pub proof fn sales_are_reported_for_their_venue(
    request: ExecutionRequest,
    leg: Leg,
    size: Dec,
    sold_at: Dec,
    order_id: Option<String>,
    message_id: Seq<char>,
    now_ms: i64,
    r: Option<ClientEbo>,
)
    requires
        hedge_reported(request, leg, size, sold_at, order_id, message_id, now_ms, r),
    ensures
        order_id is None ==> r is None,
        order_id is Some ==> {
            &&& r matches Some(ebo)
            &&& ebo.correlation_id@ == message_id
            &&& ebo.action_at == now_ms
            &&& ebo.action matches ClientAction::ExcessFillSubmitted(sale)
            &&& Some(sale.order_id) == order_id
            &&& leg is Left ==> sale.platform == request.anchor.platform
            &&& leg is Right ==> sale.platform == request.matched.platform
            &&& sale.excess_fill_size == size
            &&& sale.excess_fill_cost == sold_at
        },
{
}

/// Ends an execution once the excess was offered for sale, or could not be: reports
/// the sale, if there is one, under the id of the report on the buy orders.
pub fn hedge_placed(
    request: &ExecutionRequest,
    leg: Leg,
    size: Dec,
    sold_at: Dec,
    order_id: Option<String>,
    message_id: String,
    guards: &mut Guards,
    now_ms: i64,
) -> (r: Option<ClientEbo>)
    ensures
        final(guards)@ == released(old(guards)@, request.correlation_id@),
        final(guards).length() == old(guards).length(),
        hedge_reported(*request, leg, size, sold_at, order_id, message_id@, now_ms, r),
{
    guards.release(request.correlation_id.as_str());
    match order_id {
        Some(order_id) => Some(
            ClientEbo {
                correlation_id: message_id,
                action_at: now_ms,
                action: ClientAction::ExcessFillSubmitted(
                    ExcessFillOrderMade {
                        order_id,
                        platform: hedged_leg(request, leg).platform,
                        excess_fill_size: size,
                        excess_fill_cost: sold_at,
                    },
                ),
            },
        ),
        None => None,
    }
}

} // verus!
