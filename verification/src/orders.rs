//! Building orders for either venue and reading what became of them.
use crate::dec::{
    aligned_fit, decimal_difference, decimal_product, decimal_quotient, decimal_text, equal,
    exact_difference, exact_product, fits, floor_is_next_below, floor_of, lemma_floor_sign, less,
    magnitude, parsed_decimal, result_view, rounded, smaller, u64_part, whole, Dec, Num,
};
use crate::ids;
use crate::models::{self, ArbMinifiedInfo, DecimalError, Leg, Platform};
use crate::orderbook::{best_level, find_level, MetricsError, OrderBook};
use crate::text;
use vstd::prelude::*;

verus! {

/// Whether an order buys or sells.
#[derive(Debug, Clone, Copy, PartialEq, Eq, Structural)]
pub enum Side {
    Buy,
    Sell,
}

/// How long an order stands.
#[derive(Debug, Clone, Copy, PartialEq, Eq, Structural)]
pub enum Standing {
    /// Fills what it can at once; the rest is killed.
    FillAndKill,
    /// Stands until it is cancelled.
    GoodTillCancelled,
}

/// A limit order on Kalshi. Prices are whole cents.
#[derive(Debug)]
pub struct KalshiOrder {
    pub ticker: String,
    pub action: &'static str,
    pub side: &'static str,
    pub count: u64,
    pub order_type: &'static str,
    pub yes_price: Option<u64>,
    pub no_price: Option<u64>,
    pub client_order_id: String,
    pub post_only: bool,
    pub time_in_force: &'static str,
}

/// A limit order on Polymarket. The token is a 256-bit number, as four limbs from
/// the lowest.
#[derive(Debug)]
pub struct PolyOrder {
    pub token: [u64; 4],
    pub size: Dec,
    pub price: Dec,
    pub side: Side,
    pub standing: Standing,
}

/// An order on either venue.
#[derive(Debug)]
pub enum OrderRequest {
    Kalshi(KalshiOrder),
    Polymarket(PolyOrder),
}

/// Why there is no order.
#[derive(Debug, Clone, Copy, PartialEq, Eq, Structural)]
pub enum OrderError {
    /// An amount is beyond what a decimal holds.
    Overflow,
    /// The price is no number of cents.
    InvalidPrice,
    /// The size is negative or too large.
    InvalidSize,
    /// The size comes to no contract at all.
    ZeroSize,
    /// The token id is no number.
    InvalidToken,
}

/// The side of a Kalshi market that a leg is on.
pub open spec fn kalshi_side(leg: Leg) -> Seq<char> {
    match leg {
        Leg::Left => "yes"@,
        Leg::Right => "no"@,
    }
}

/// The whole cents of a price in dollars, as far as 64 bits hold them.
pub open spec fn cents(price_in_cents: Num) -> Option<u64> {
    u64_part(whole(floor_of(price_in_cents)))
}

/// The seed of the id of a buy order.
pub open spec fn order_seed(cid: Seq<char>, count: u64, price: Num) -> Seq<char> {
    cid + ":"@ + text::numeral(count as nat) + ":"@ + decimal_text(price)
}

/// What a buy order of a leg is, or why there is none. `scaled` is the limit price
/// in cents and `token` the number that the token id denotes.
pub open spec fn fak_error(
    leg: ArbMinifiedInfo,
    size: Num,
    scaled: Option<Num>,
    token: Option<Seq<u64>>,
) -> Option<OrderError> {
    match leg.platform {
        Platform::Kalshi => match scaled {
            None => Some(OrderError::Overflow),
            Some(s) => if cents(s) is None {
                Some(OrderError::InvalidPrice)
            } else {
                match u64_part(size) {
                    None => Some(OrderError::InvalidSize),
                    Some(count) => if count == 0 {
                        Some(OrderError::ZeroSize)
                    } else {
                        None
                    },
                }
            },
        },
        Platform::Polymarket => if token is None {
            Some(OrderError::InvalidToken)
        } else {
            None
        },
    }
}

/// Whether a Kalshi order is a limit order on the leg's side at the given cents.
pub open spec fn kalshi_limit(order: KalshiOrder, leg: ArbMinifiedInfo, price_cents: u64) -> bool {
    &&& order.ticker@ == leg.token_id@
    &&& order.side@ == kalshi_side(leg.leg)
    &&& order.order_type@ == "limit"@
    &&& order.yes_price == if leg.leg is Left {
        Some(price_cents)
    } else {
        None
    }
    &&& order.no_price == if leg.leg is Right {
        Some(price_cents)
    } else {
        None
    }
}

/// Whether `order` buys `size` contracts of the leg at the limit price, at once or
/// not at all.
pub open spec fn is_fak_order(
    order: OrderRequest,
    leg: ArbMinifiedInfo,
    size: Num,
    price: Num,
    scaled: Option<Num>,
    token: Option<Seq<u64>>,
    cid: Seq<char>,
) -> bool {
    match leg.platform {
        Platform::Kalshi => {
            &&& order matches OrderRequest::Kalshi(o)
            &&& kalshi_limit(o, leg, cents(scaled->0)->0)
            &&& o.action@ == "buy"@
            &&& Some(o.count) == u64_part(size)
            &&& o.client_order_id@ == ids::uuid_v5(order_seed(cid, o.count, price))
            &&& !o.post_only
            &&& o.time_in_force@ == "immediate_or_cancel"@
        },
        Platform::Polymarket => {
            &&& order matches OrderRequest::Polymarket(o)
            &&& token == Some(o.token@)
            &&& o.size@ == rounded(size, 2)
            &&& o.price@ == rounded(price, 2)
            &&& o.side is Buy
            &&& o.standing is FillAndKill
        },
    }
}

/// Builds the order that buys `size` contracts of a leg at the limit price, given
/// the price in cents and the number that the token id denotes.
pub fn fak_order(
    leg: &ArbMinifiedInfo,
    size: Dec,
    limit_price: Dec,
    scaled: Option<Dec>,
    token: Option<[u64; 4]>,
    cid: &str,
) -> (r: Result<OrderRequest, OrderError>)
    ensures
        ({
            let limbs = match token {
                Some(t) => Some(t@),
                None => None,
            };
            &&& r matches Err(e) ==> fak_error(*leg, size@, result_view(scaled), limbs) == Some(e)
            &&& r matches Ok(order) ==> fak_error(*leg, size@, result_view(scaled), limbs) is None
                && is_fak_order(
                order,
                *leg,
                size@,
                limit_price@,
                result_view(scaled),
                limbs,
                cid@,
            )
        }),
{
    match leg.platform {
        Platform::Kalshi => {
            let scaled = match scaled {
                Some(scaled) => scaled,
                None => return Err(OrderError::Overflow),
            };
            let price_cents = match scaled.floor().to_u64() {
                Some(price_cents) => price_cents,
                None => return Err(OrderError::InvalidPrice),
            };
            let count = match size.to_u64() {
                Some(count) => count,
                None => return Err(OrderError::InvalidSize),
            };
            if count == 0 {
                return Err(OrderError::ZeroSize);
            }
            let mut seed = cid.to_owned();
            seed.append(":");
            text::push_u64(&mut seed, count);
            seed.append(":");
            let price_text = limit_price.to_text();
            seed.append(price_text.as_str());
            let client_order_id = ids::generate_uuid_v5(seed.as_str());
            Ok(
                OrderRequest::Kalshi(
                    kalshi_order(
                        leg,
                        "buy",
                        count,
                        price_cents,
                        client_order_id,
                        false,
                        "immediate_or_cancel",
                    ),
                ),
            )
        },
        Platform::Polymarket => {
            let token = match token {
                Some(token) => token,
                None => return Err(OrderError::InvalidToken),
            };
            Ok(
                OrderRequest::Polymarket(
                    PolyOrder {
                        token,
                        size: size.round_dp(2),
                        price: limit_price.round_dp(2),
                        side: Side::Buy,
                        standing: Standing::FillAndKill,
                    },
                ),
            )
        },
    }
}

fn kalshi_order(
    leg: &ArbMinifiedInfo,
    action: &'static str,
    count: u64,
    price_cents: u64,
    client_order_id: String,
    post_only: bool,
    time_in_force: &'static str,
) -> (r: KalshiOrder)
    ensures
        kalshi_limit(r, *leg, price_cents),
        r.action@ == action@,
        r.count == count,
        r.client_order_id == client_order_id,
        r.post_only == post_only,
        r.time_in_force@ == time_in_force@,
{
    let (side, yes_price, no_price) = match leg.leg {
        Leg::Left => ("yes", Some(price_cents), None),
        Leg::Right => ("no", None, Some(price_cents)),
    };
    KalshiOrder {
        ticker: leg.token_id.clone(),
        action,
        side,
        count,
        order_type: "limit",
        yes_price,
        no_price,
        client_order_id,
        post_only,
        time_in_force,
    }
}

/// Builds the order that buys `size` contracts of a leg at the limit price, at
/// once or not at all.
pub fn make_fak_order(leg: &ArbMinifiedInfo, size: Dec, limit_price: Dec, cid: &str) -> (r: Result<
    OrderRequest,
    OrderError,
>)
    ensures
        ({
            let scaled = decimal_product(limit_price@, whole(100));
            let token = ids::u256_limbs(leg.token_id@);
            &&& r matches Err(e) ==> fak_error(*leg, size@, scaled, token) == Some(e)
            &&& r matches Ok(order) ==> fak_error(*leg, size@, scaled, token) is None
                && is_fak_order(order, *leg, size@, limit_price@, scaled, token, cid@)
        }),
{
    let scaled = limit_price.checked_mul(Dec::hundred());
    let token = ids::parse_u256(leg.token_id.as_str());
    fak_order(leg, size, limit_price, scaled, token, cid)
}

/// The highest price at which an excess is sold.
pub open spec fn hedge_cap() -> Num {
    Num { mantissa: 99, scale: 2 }
}

/// The price at which an excess is sold.
pub open spec fn hedge_price(price: Num) -> Num {
    smaller(price, hedge_cap())
}

/// The number, `default` where there is none.
pub open spec fn or_default(n: Option<u64>, default: u64) -> u64 {
    match n {
        Some(v) => v,
        None => default,
    }
}

/// Why an excess of a leg cannot be sold, if anything keeps it from being.
pub open spec fn hedge_error(
    leg: ArbMinifiedInfo,
    size: Num,
    scaled: Option<Num>,
    token: Option<Seq<u64>>,
) -> Option<OrderError> {
    match leg.platform {
        Platform::Kalshi => if scaled is None {
            Some(OrderError::Overflow)
        } else if or_default(u64_part(whole(floor_of(size))), 0) == 0 {
            Some(OrderError::ZeroSize)
        } else {
            None
        },
        Platform::Polymarket => if token is None {
            Some(OrderError::InvalidToken)
        } else {
            None
        },
    }
}

/// Whether `order` offers `size` contracts of the leg for sale at the price, until
/// cancelled. `scaled` is the price in cents.
pub open spec fn is_hedge_order(
    order: OrderRequest,
    leg: ArbMinifiedInfo,
    size: Num,
    price: Num,
    scaled: Option<Num>,
    token: Option<Seq<u64>>,
    order_id: Seq<char>,
) -> bool {
    match leg.platform {
        Platform::Kalshi => {
            &&& order matches OrderRequest::Kalshi(o)
            &&& kalshi_limit(o, leg, or_default(cents(scaled->0), 99))
            &&& o.action@ == "sell"@
            &&& Some(o.count) == u64_part(whole(floor_of(size)))
            &&& o.client_order_id@ == order_id
            &&& o.post_only
            &&& o.time_in_force@ == "good_till_canceled"@
        },
        Platform::Polymarket => {
            &&& order matches OrderRequest::Polymarket(o)
            &&& token == Some(o.token@)
            &&& o.size@ == rounded(size, 2)
            &&& o.price@ == rounded(price, 2)
            &&& o.side is Sell
            &&& o.standing is GoodTillCancelled
        },
    }
}

/// Builds the order that offers an excess of a leg for sale, given the price, the
/// price in cents, the number that the token id denotes and an id for the order.
pub fn hedge_order(
    leg: &ArbMinifiedInfo,
    excess_size: Dec,
    safe_price: Dec,
    scaled: Option<Dec>,
    token: Option<[u64; 4]>,
    order_id: String,
) -> (r: Result<OrderRequest, OrderError>)
    ensures
        ({
            let limbs = match token {
                Some(t) => Some(t@),
                None => None,
            };
            &&& r matches Err(e) ==> hedge_error(*leg, excess_size@, result_view(scaled), limbs)
                == Some(e)
            &&& r matches Ok(order) ==> hedge_error(
                *leg,
                excess_size@,
                result_view(scaled),
                limbs,
            ) is None && is_hedge_order(
                order,
                *leg,
                excess_size@,
                safe_price@,
                result_view(scaled),
                limbs,
                order_id@,
            )
        }),
{
    match leg.platform {
        Platform::Kalshi => {
            let scaled = match scaled {
                Some(scaled) => scaled,
                None => return Err(OrderError::Overflow),
            };
            let price_cents: u64 = match scaled.floor().to_u64() {
                Some(price_cents) => price_cents,
                None => 99,
            };
            let count: u64 = match excess_size.floor().to_u64() {
                Some(count) => count,
                None => 0,
            };
            if count == 0 {
                return Err(OrderError::ZeroSize);
            }
            Ok(
                OrderRequest::Kalshi(
                    kalshi_order(
                        leg,
                        "sell",
                        count,
                        price_cents,
                        order_id,
                        true,
                        "good_till_canceled",
                    ),
                ),
            )
        },
        Platform::Polymarket => {
            let token = match token {
                Some(token) => token,
                None => return Err(OrderError::InvalidToken),
            };
            Ok(
                OrderRequest::Polymarket(
                    PolyOrder {
                        token,
                        size: excess_size.round_dp(2),
                        price: safe_price.round_dp(2),
                        side: Side::Sell,
                        standing: Standing::GoodTillCancelled,
                    },
                ),
            )
        },
    }
}

/// Builds the order that offers an excess of a leg for sale, at the given price
/// but at most 99 cents, under a random id. Gives the price with it.
pub fn hedge_sell_order(leg: &ArbMinifiedInfo, excess_size: Dec, sell_price: Dec) -> (r: (
    Result<OrderRequest, OrderError>,
    Dec,
))
    ensures
        ({
            let price = hedge_price(sell_price@);
            let scaled = decimal_product(price, whole(100));
            let token = ids::u256_limbs(leg.token_id@);
            &&& r.1@ == price
            &&& r.0 matches Err(e) ==> hedge_error(*leg, excess_size@, scaled, token) == Some(e)
            &&& r.0 matches Ok(order) ==> hedge_error(*leg, excess_size@, scaled, token) is None
                && exists|order_id: Seq<char>|
                ids::is_uuid(order_id) && #[trigger] is_hedge_order(
                    order,
                    *leg,
                    excess_size@,
                    price,
                    scaled,
                    token,
                    order_id,
                )
        }),
{
    let safe_price = sell_price.min(Dec::new(99, 2));
    let scaled = safe_price.checked_mul(Dec::hundred());
    let token = ids::parse_u256(leg.token_id.as_str());
    let order_id = ids::random_id();
    let ghost id = order_id@;
    let order = hedge_order(leg, excess_size, safe_price, scaled, token, order_id);
    assert(order matches Ok(o) ==> is_hedge_order(
        o,
        *leg,
        excess_size@,
        safe_price@,
        result_view(scaled),
        ids::u256_limbs(leg.token_id@),
        id,
    ));
    (order, safe_price)
}

/// An excess is never offered above 99 cents, and at the asked price where that
/// is lower.
pub proof fn hedge_price_is_capped(price: Num)
    ensures
        ({
            let cap = Num { mantissa: 99, scale: 2 };
            &&& !less(cap, hedge_price(price))
            &&& !less(cap, price) ==> hedge_price(price) == price
            &&& less(cap, price) ==> hedge_price(price) == cap
        }),
{
}

/// A buy order on Kalshi takes, of the leg's market and side, the whole contracts of
/// the size at the whole cents of the limit price, at once or not at all.
pub proof fn kalshi_buys_keep_to_the_limit(
    order: OrderRequest,
    leg: ArbMinifiedInfo,
    size: Num,
    price: Num,
    in_cents: Num,
    token: Option<Seq<u64>>,
    cid: Seq<char>,
)
    requires
        leg.platform is Kalshi,
        fak_error(leg, size, Some(in_cents), token) is None,
        is_fak_order(order, leg, size, price, Some(in_cents), token, cid),
    ensures
        order matches OrderRequest::Kalshi(o) && {
            &&& o.ticker@ == leg.token_id@
            &&& o.action@ == "buy"@
            &&& o.order_type@ == "limit"@
            &&& o.time_in_force@ == "immediate_or_cancel"@
            &&& !o.post_only
            &&& o.count >= 1
            &&& !less(size, whole(o.count as int))
            &&& less(size, whole(o.count + 1))
            &&& on_its_side(o, leg.leg, in_cents)
            &&& o.client_order_id@ == ids::uuid_v5(
                cid + ":"@ + text::numeral(o.count as nat) + ":"@ + decimal_text(price),
            )
        },
{
    floor_is_next_below(size);
    lemma_floor_sign(size);
    lemma_whole_cents(in_cents);
}

/// Whether the order names exactly one price, on the side of the leg: the whole cents
/// that are not above `in_cents`.
pub open spec fn on_its_side(order: KalshiOrder, leg: Leg, in_cents: Num) -> bool {
    &&& leg is Left ==> order.side@ == "yes"@ && order.no_price is None && (order.yes_price matches
        Some(c) && !less(in_cents, whole(c as int)) && less(in_cents, whole(c + 1)))
    &&& leg is Right ==> order.side@ == "no"@ && order.yes_price is None && (order.no_price matches
        Some(c) && !less(in_cents, whole(c as int)) && less(in_cents, whole(c + 1)))
}

proof fn lemma_whole_cents(in_cents: Num)
    ensures
        cents(in_cents) matches Some(c) ==> !less(in_cents, whole(c as int)) && less(
            in_cents,
            whole(c + 1),
        ),
{
    floor_is_next_below(in_cents);
    lemma_floor_sign(in_cents);
}

/// A sale on Kalshi offers, on the leg's market and side, the whole contracts of the
/// size at the whole cents of the price, and stands until it is cancelled without ever
/// taking an offer.
pub proof fn kalshi_sales_stand(
    order: OrderRequest,
    leg: ArbMinifiedInfo,
    size: Num,
    price: Num,
    in_cents: Num,
    token: Option<Seq<u64>>,
    order_id: Seq<char>,
)
    requires
        leg.platform is Kalshi,
        hedge_error(leg, size, Some(in_cents), token) is None,
        is_hedge_order(order, leg, size, price, Some(in_cents), token, order_id),
        0 <= floor_of(in_cents) <= u64::MAX,
    ensures
        order matches OrderRequest::Kalshi(o) && {
            &&& o.ticker@ == leg.token_id@
            &&& o.action@ == "sell"@
            &&& o.order_type@ == "limit"@
            &&& o.time_in_force@ == "good_till_canceled"@
            &&& o.post_only
            &&& o.count >= 1
            &&& !less(size, whole(o.count as int))
            &&& less(size, whole(o.count + 1))
            &&& on_its_side(o, leg.leg, in_cents)
            &&& o.client_order_id@ == order_id
        },
{
    floor_is_next_below(size);
    lemma_whole_cents(in_cents);
    lemma_floor_sign(size);
    lemma_floor_sign(in_cents);
}

/// On Polymarket a buy takes what it can at once and a sale stands until it is
/// cancelled; both are on the leg's own token, with size and price rounded to two
/// places.
pub proof fn polymarket_orders_are_on_the_token(
    buy: OrderRequest,
    sale: OrderRequest,
    leg: ArbMinifiedInfo,
    size: Num,
    price: Num,
    in_cents: Option<Num>,
    token: Option<Seq<u64>>,
    id: Seq<char>,
)
    requires
        leg.platform is Polymarket,
        is_fak_order(buy, leg, size, price, in_cents, token, id),
        is_hedge_order(sale, leg, size, price, in_cents, token, id),
    ensures
        buy matches OrderRequest::Polymarket(o) && {
            &&& token == Some(o.token@)
            &&& o.side is Buy && o.standing is FillAndKill
            &&& o.size@ == rounded(size, 2) && o.price@ == rounded(price, 2)
        },
        sale matches OrderRequest::Polymarket(o) && {
            &&& token == Some(o.token@)
            &&& o.side is Sell && o.standing is GoodTillCancelled
            &&& o.size@ == rounded(size, 2) && o.price@ == rounded(price, 2)
        },
{
}

/// There is a buy order on Kalshi exactly for a price in cents and a size that 64 bits
/// hold, neither negative, with at least one whole contract; and one on Polymarket
/// exactly for a token id that is a number.
pub proof fn orders_need_sound_amounts(
    leg: ArbMinifiedInfo,
    size: Num,
    in_cents: Option<Num>,
    token: Option<Seq<u64>>,
)
    ensures
        leg.platform is Kalshi ==> (fak_error(leg, size, in_cents, token) is None <==> {
            &&& in_cents matches Some(c)
            &&& 0 <= floor_of(c) <= u64::MAX
            &&& size.mantissa >= 0
            &&& 1 <= floor_of(size) <= u64::MAX
        }),
        leg.platform is Polymarket ==> (fak_error(leg, size, in_cents, token) is None <==> token
            is Some),
        leg.platform is Kalshi ==> (hedge_error(leg, size, in_cents, token) is None <==> in_cents
            is Some && 1 <= floor_of(size) <= u64::MAX),
        leg.platform is Polymarket ==> (hedge_error(leg, size, in_cents, token) is None <==> token
            is Some),
{
    if let Some(c) = in_cents {
        lemma_floor_sign(c);
    }
    lemma_floor_sign(size);
}

/// What became of a buy order.
#[derive(Debug)]
pub struct Fill {
    pub filled: Dec,
    pub remaining: Dec,
    pub order_id: String,
}

/// Why a reply to an order cannot be used.
#[derive(Debug)]
pub enum FillError {
    /// An amount is missing or unreadable.
    Amount(DecimalError),
    /// The venue refused the order, with its reason.
    Refused(String),
    /// An amount is beyond what a decimal holds.
    Overflow,
}

/// The number that an optional text denotes.
pub open spec fn strict_decimal(text: Option<String>) -> Result<Num, DecimalError> {
    match text {
        None => Err(DecimalError::Missing),
        Some(t) => match parsed_decimal(t@) {
            Some(n) => Ok(n),
            None => Err(DecimalError::Unreadable),
        },
    }
}

/// Combines the two amounts of a Kalshi reply.
pub fn combine_kalshi_fill(
    filled: Result<Dec, DecimalError>,
    remaining: Result<Dec, DecimalError>,
    order_id: String,
) -> (r: Result<Fill, FillError>)
    ensures
        match (filled, remaining) {
            (Ok(f), Ok(m)) => r matches Ok(fill) && fill.filled == f && fill.remaining == m
                && fill.order_id == order_id,
            (Err(e), _) => r == Err::<Fill, FillError>(FillError::Amount(e)),
            (Ok(_), Err(e)) => r == Err::<Fill, FillError>(FillError::Amount(e)),
        },
{
    match (filled, remaining) {
        (Ok(filled), Ok(remaining)) => Ok(Fill { filled, remaining, order_id }),
        (Err(e), _) => Err(FillError::Amount(e)),
        (Ok(_), Err(e)) => Err(FillError::Amount(e)),
    }
}

/// Whether `r` is what Kalshi's reply to a buy order says.
pub open spec fn kalshi_filled(
    fill_count: Option<String>,
    remaining_count: Option<String>,
    order_id: Seq<char>,
    r: Result<Fill, FillError>,
) -> bool {
    match (strict_decimal(fill_count), strict_decimal(remaining_count)) {
        (Ok(f), Ok(m)) => r matches Ok(fill) && fill.filled@ == f && fill.remaining@ == m
            && fill.order_id@ == order_id,
        (Err(e), _) => r == Err::<Fill, FillError>(FillError::Amount(e)),
        (Ok(_), Err(e)) => r == Err::<Fill, FillError>(FillError::Amount(e)),
    }
}

/// A reply of Kalshi's can be used exactly where both amounts are there and readable;
/// what was filled and what remains are then those amounts, under the order's id.
pub proof fn kalshi_replies_are_taken_at_their_word(
    fill_count: Option<String>,
    remaining_count: Option<String>,
    order_id: Seq<char>,
    r: Result<Fill, FillError>,
)
    requires
        kalshi_filled(fill_count, remaining_count, order_id, r),
    ensures
        r is Ok <==> {
            &&& fill_count matches Some(f)
            &&& remaining_count matches Some(m)
            &&& parsed_decimal(f@) is Some
            &&& parsed_decimal(m@) is Some
        },
        r matches Ok(fill) ==> {
            &&& Some(fill.filled@) == parsed_decimal(fill_count->0@)
            &&& Some(fill.remaining@) == parsed_decimal(remaining_count->0@)
            &&& fill.order_id@ == order_id
        },
        fill_count is None ==> r == Err::<Fill, FillError>(
            FillError::Amount(DecimalError::Missing),
        ),
{
}

/// Reads Kalshi's reply to a buy order.
pub fn kalshi_fill(
    fill_count: &Option<String>,
    remaining_count: &Option<String>,
    order_id: String,
) -> (r: Result<Fill, FillError>)
    ensures
        kalshi_filled(*fill_count, *remaining_count, order_id@, r),
{
    let filled = models::opt_str_to_decimal_strict(fill_count);
    let remaining = models::opt_str_to_decimal_strict(remaining_count);
    combine_kalshi_fill(filled, remaining, order_id)
}

/// The reason that a venue gives, or that it gives none.
pub fn refusal(error_msg: Option<String>) -> (r: String)
    ensures
        match error_msg {
            Some(msg) => r == msg,
            None => r@ == "Unknown error"@,
        },
{
    match error_msg {
        Some(msg) => msg,
        None => "Unknown error".to_owned(),
    }
}

/// Whether `r` is what Polymarket's reply to a buy order says.
pub open spec fn poly_filled(
    size: Num,
    success: bool,
    error_msg: Option<String>,
    taking_amount: Num,
    order_id: Seq<char>,
    r: Result<Fill, FillError>,
) -> bool {
    if !success {
        r matches Err(FillError::Refused(msg)) && match error_msg {
            Some(m) => msg == m,
            None => msg@ == "Unknown error"@,
        }
    } else {
        match decimal_quotient(taking_amount, whole(1_000_000)) {
            None => r matches Err(FillError::Overflow),
            Some(f) => match decimal_difference(size, f) {
                None => r matches Err(FillError::Overflow),
                Some(m) => r matches Ok(fill) && fill.filled@ == f && fill.remaining@ == m
                    && fill.order_id@ == order_id,
            },
        }
    }
}

/// A reply of Polymarket's is a fill only if the venue calls it a success: then a
/// millionth of the amount taken was filled and the rest of the size remains. A refusal
/// keeps the venue's words.
pub proof fn polymarket_fills_are_millionths(
    size: Num,
    success: bool,
    error_msg: Option<String>,
    taking_amount: Num,
    order_id: Seq<char>,
    r: Result<Fill, FillError>,
)
    requires
        poly_filled(size, success, error_msg, taking_amount, order_id, r),
    ensures
        r is Ok ==> success,
        !success ==> (r matches Err(FillError::Refused(msg)) && (error_msg is Some ==> Some(msg)
            == error_msg)),
        r matches Ok(fill) ==> {
            &&& decimal_quotient(taking_amount, whole(1_000_000)) == Some(fill.filled@)
            &&& decimal_difference(size, fill.filled@) == Some(fill.remaining@)
            &&& fill.order_id@ == order_id
        },
{
}

/// Reads Polymarket's reply to a buy order of `size` contracts. The amount taken
/// comes in millionths.
pub fn poly_fill(
    size: Dec,
    success: bool,
    error_msg: Option<String>,
    taking_amount: Dec,
    order_id: String,
) -> (r: Result<Fill, FillError>)
    ensures
        poly_filled(size@, success, error_msg, taking_amount@, order_id@, r),
        r matches Ok(fill) ==> (magnitude(taking_amount@.mantissa) < 0x1_0000_0000_0000_0000
            && taking_amount@.scale <= 19 ==> equal(
            exact_product(fill.filled@, whole(1_000_000)),
            taking_amount@,
        )),
        r matches Ok(fill) ==> (aligned_fit(size@, fill.filled@) && fits(
            exact_difference(size@, fill.filled@).mantissa,
        ) ==> equal(fill.remaining@, exact_difference(size@, fill.filled@))),
{
    if !success {
        return Err(FillError::Refused(refusal(error_msg)));
    }
    let filled = match taking_amount.checked_div(Dec::new(1_000_000, 0)) {
        Some(filled) => filled,
        None => return Err(FillError::Overflow),
    };
    let remaining = match size.checked_sub(filled) {
        Some(remaining) => remaining,
        None => return Err(FillError::Overflow),
    };
    Ok(Fill { filled, remaining, order_id })
}

/// The price and size at which a leg can be bought, from a level's price and size:
/// a Kalshi bid for the other side is bought against at one dollar less its price.
pub open spec fn level_metrics(complement: bool, price: Option<Num>, size: Option<Num>) -> Result<
    (Num, Num),
    MetricsError,
> {
    match (price, size) {
        (None, _) => Err(MetricsError::UnreadablePrice),
        (_, None) => Err(MetricsError::UnreadableSize),
        (Some(p), Some(s)) => if complement {
            match decimal_difference(whole(1), p) {
                Some(ask) => Ok((ask, s)),
                None => Err(MetricsError::Overflow),
            }
        } else {
            Ok((p, s))
        },
    }
}

/// The price of a level is what a leg costs on Polymarket, and one dollar less that on
/// Kalshi, where the level is a bid for the other side; the size is the level's on
/// both.
pub proof fn opposite_bids_cost_the_rest_of_the_dollar(
    book: OrderBook,
    leg: Leg,
    price: Num,
    size: Num,
)
    requires
        book_metrics(book, leg) == Ok::<(Num, Num), MetricsError>((price, size)),
    ensures
        best_level(book, leg) matches Ok(level) && {
            &&& parsed_decimal(level.size@) == Some(size)
            &&& book is Polymarket ==> parsed_decimal(level.price@) == Some(price)
            &&& book is Kalshi ==> (parsed_decimal(level.price@) matches Some(bid)
                && decimal_difference(whole(1), bid) == Some(price))
        },
{
}

/// The price and size at which a leg can be bought, given a level's price and size
/// as far as they could be read.
pub fn metrics_of_level(complement: bool, price: Option<Dec>, size: Option<Dec>) -> (r: Result<
    (Dec, Dec),
    MetricsError,
>)
    ensures
        r matches Ok(m) ==> level_metrics(complement, result_view(price), result_view(size)) == Ok::<
            (Num, Num),
            MetricsError,
        >((m.0@, m.1@)),
        r matches Err(e) ==> level_metrics(complement, result_view(price), result_view(size))
            == Err::<(Num, Num), MetricsError>(e),
        r matches Ok(m) ==> (complement && aligned_fit(whole(1), price->0@) && fits(
            exact_difference(whole(1), price->0@).mantissa,
        ) ==> equal(m.0@, exact_difference(whole(1), price->0@))),
{
    let price = match price {
        Some(price) => price,
        None => return Err(MetricsError::UnreadablePrice),
    };
    let size = match size {
        Some(size) => size,
        None => return Err(MetricsError::UnreadableSize),
    };
    if complement {
        match Dec::one().checked_sub(price) {
            Some(ask) => Ok((ask, size)),
            None => Err(MetricsError::Overflow),
        }
    } else {
        Ok((price, size))
    }
}

/// The price and size at which a leg can be bought from a book.
pub open spec fn book_metrics(book: OrderBook, leg: Leg) -> Result<(Num, Num), MetricsError> {
    match best_level(book, leg) {
        Err(e) => Err(e),
        Ok(level) => level_metrics(
            book is Kalshi,
            parsed_decimal(level.price@),
            parsed_decimal(level.size@),
        ),
    }
}

/// The price and size at which a leg can be bought from a book.
pub fn execution_metrics(book: &OrderBook, leg: Leg) -> (r: Result<(Dec, Dec), MetricsError>)
    ensures
        r matches Ok(m) ==> book_metrics(*book, leg) == Ok::<(Num, Num), MetricsError>(
            (m.0@, m.1@),
        ),
        r matches Err(e) ==> book_metrics(*book, leg) == Err::<(Num, Num), MetricsError>(e),
{
    let level = match find_level(book, leg) {
        Ok(level) => level,
        Err(e) => return Err(e),
    };
    let complement = match book {
        OrderBook::Polymarket(_) => false,
        OrderBook::Kalshi(_) => true,
    };
    metrics_of_level(
        complement,
        Dec::parse(level.price.as_str()),
        Dec::parse(level.size.as_str()),
    )
}

} // verus!
