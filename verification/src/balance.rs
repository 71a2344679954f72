//! Available capital per venue, and how much of it a trade may use.
use crate::dec::{
    aligned_fit, common_scale, decimal_difference, decimal_product, decimal_quotient, decimal_sum,
    equal, exact_product, exact_sum, fits, floor_of, lemma_fewer_places, lemma_less_whole,
    lemma_pow10_positive, less, parsed_decimal, pow10, result_view, smaller, whole, zero, Dec, Num,
};
use crate::models::Platform;
use crate::text;
use vstd::prelude::*;

verus! {

/// Capital per venue, the fraction of the smaller balance that a trade may use,
/// and the least worth of a trade.
pub struct Balances {
    pub kalshi: Num,
    pub poly: Num,
    pub fraction: Num,
    pub minimum: Num,
}

/// The value of a numeric setting: a positive number, below one where it is a
/// fraction, and the default otherwise.
pub open spec fn accepted_setting(parsed: Option<Num>, default: Num, fraction: bool) -> Num {
    match parsed {
        Some(v) => if less(zero(), v) && (!fraction || less(v, whole(1))) {
            v
        } else {
            default
        },
        None => default,
    }
}

/// The value that a setting's text gives.
pub open spec fn decimal_setting(raw: Option<Seq<char>>, default: Num, fraction: bool) -> Num {
    match raw {
        Some(t) => if text::blank(t) {
            default
        } else {
            accepted_setting(parsed_decimal(text::trimmed(t)), default, fraction)
        },
        None => default,
    }
}

/// The fraction of the smaller balance that a trade uses by default.
pub open spec fn default_trade_fraction() -> Num {
    Num { mantissa: 20, scale: 2 }
}

/// The least worth of a trade in dollars by default.
pub open spec fn default_min_trade_size() -> Num {
    whole(2)
}

/// Picks the value of a numeric setting, given what its text denotes.
pub fn accept_setting(parsed: Option<Dec>, default: Dec, fraction: bool) -> (r: Dec)
    ensures
        r@ == accepted_setting(result_view(parsed), default@, fraction),
{
    match parsed {
        Some(v) => if Dec::zero().lt(v) && (!fraction || v.lt(Dec::one())) {
            v
        } else {
            default
        },
        None => default,
    }
}

/// Reads a numeric setting. Text that is missing, blank, unreadable or out of
/// range gives the default.
pub fn parse_env_decimal(raw: &Option<String>, default: Dec, fraction: bool) -> (r: Dec)
    ensures
        r@ == decimal_setting(crate::guards::setting_view(*raw), default@, fraction),
{
    match raw {
        Some(s) => if text::is_blank(s.as_str()) {
            default
        } else {
            accept_setting(Dec::parse(text::trim(s.as_str())), default, fraction)
        },
        None => default,
    }
}

/// The dollars that a trade may cost; none where the product is beyond what a
/// decimal holds.
pub open spec fn budget(b: Balances) -> Option<Num> {
    decimal_product(smaller(b.kalshi, b.poly), b.fraction)
}

/// The exact dollars that a trade may cost.
pub open spec fn exact_budget(b: Balances) -> Num {
    exact_product(smaller(b.kalshi, b.poly), b.fraction)
}

/// The number of contracts that budget and liquidity allow at a cost per pair.
pub open spec fn affordable(quotient: Num, market_liq: Num) -> Num {
    smaller(whole(floor_of(quotient)), whole(floor_of(market_liq)))
}

/// The number of contracts to trade: `Some(None)` where the trade is not worth
/// it, `None` where an amount is beyond what a decimal holds.
pub open spec fn sized(b: Balances, anchor_price: Num, match_price: Num, market_liq: Num) -> Option<
    Option<Num>,
> {
    match (budget(b), decimal_sum(anchor_price, match_price)) {
        (Some(dollars), Some(cost)) => if cost.mantissa == 0 {
            Some(None)
        } else {
            match decimal_quotient(dollars, cost) {
                Some(q) => {
                    let size = affordable(q, market_liq);
                    match decimal_product(size, cost) {
                        Some(spent) => if less(spent, b.minimum) {
                            Some(None)
                        } else {
                            Some(Some(size))
                        },
                        None => None,
                    }
                },
                None => None,
            }
        },
        _ => None,
    }
}

/// The balances once the cost of `size` contracts at `price` has been taken off
/// the venue; none where an amount is beyond what a decimal holds.
pub open spec fn debited(b: Balances, platform: Platform, price: Num, size: Num) -> Option<
    Balances,
> {
    match decimal_product(price, size) {
        Some(cost) => match platform {
            Platform::Kalshi => match decimal_difference(b.kalshi, cost) {
                Some(kalshi) => Some(Balances { kalshi, ..b }),
                None => None,
            },
            Platform::Polymarket => match decimal_difference(b.poly, cost) {
                Some(poly) => Some(Balances { poly, ..b }),
                None => None,
            },
        },
        None => None,
    }
}

/// The balances once both legs of a fill have been paid for.
pub open spec fn both_debited(
    b: Balances,
    anchor_platform: Platform,
    anchor_price: Num,
    match_platform: Platform,
    match_price: Num,
    size: Num,
) -> Option<Balances> {
    match debited(b, anchor_platform, anchor_price, size) {
        Some(after) => debited(after, match_platform, match_price, size),
        None => None,
    }
}

/// A trade may use the fraction of whichever balance is smaller, and never depends on
/// how much more the other venue holds.
pub proof fn the_smaller_balance_sets_the_budget(b: Balances, other: Balances)
    ensures
        !less(b.poly, b.kalshi) ==> budget(b) == decimal_product(b.kalshi, b.fraction)
            && exact_budget(b) == exact_product(b.kalshi, b.fraction),
        less(b.poly, b.kalshi) ==> budget(b) == decimal_product(b.poly, b.fraction)
            && exact_budget(b) == exact_product(b.poly, b.fraction),
        other.kalshi == b.kalshi && other.fraction == b.fraction && !less(b.poly, b.kalshi)
            && !less(other.poly, other.kalshi) ==> budget(other) == budget(b),
        other.poly == b.poly && other.fraction == b.fraction && less(b.poly, b.kalshi) && less(
            other.poly,
            other.kalshi,
        ) ==> budget(other) == budget(b),
{
}

/// By default a trade may use a fifth of the smaller balance, and has to be worth two
/// dollars.
pub proof fn defaults_risk_a_fifth(b: Balances, worth: Num)
    requires
        b.fraction == default_trade_fraction(),
        b.minimum == default_min_trade_size(),
    ensures
        equal(exact_product(exact_budget(b), whole(5)), smaller(b.kalshi, b.poly)),
        less(worth, b.minimum) <==> worth.mantissa < 2 * pow10(worth.scale),
{
    let least = smaller(b.kalshi, b.poly);
    crate::dec::lemma_pow10_adds(least.scale, 2);
    reveal_with_fuel(pow10, 3);
    let (m, p) = (least.mantissa, pow10(least.scale));
    assert(((m * 20) * 5) * p == m * (p * 100)) by (nonlinear_arith);
    lemma_less_whole(worth, 2);
}

/// A setting is taken exactly where it is a number above zero, and below one where it
/// is a fraction; otherwise the default stands.
pub proof fn settings_are_taken_in_range(raw: Option<Seq<char>>, default: Num, fraction: bool)
    ensures
        raw is None ==> decimal_setting(raw, default, fraction) == default,
        raw matches Some(t) ==> {
            &&& text::blank(t) ==> decimal_setting(raw, default, fraction) == default
            &&& !text::blank(t) ==> match parsed_decimal(text::trimmed(t)) {
                None => decimal_setting(raw, default, fraction) == default,
                Some(v) => {
                    let in_range = v.mantissa > 0 && (fraction ==> v.mantissa < pow10(v.scale));
                    decimal_setting(raw, default, fraction) == if in_range {
                        v
                    } else {
                        default
                    }
                },
            }
        },
{
    if let Some(t) = raw {
        if let Some(v) = parsed_decimal(text::trimmed(t)) {
            lemma_less_whole(v, 0);
            lemma_less_whole(v, 1);
        }
    }
}

/// A trade that is made takes a whole number of contracts: what the budget buys or what
/// is on offer, whichever is less, and it is worth the minimum. A trade is skipped only
/// where the pair costs nothing or that number would be worth less than the minimum.
pub proof fn trades_take_what_they_can(
    b: Balances,
    anchor_price: Num,
    match_price: Num,
    market_liq: Num,
    dollars: Num,
    cost: Num,
    pairs: Num,
)
    requires
        decimal_product(smaller(b.kalshi, b.poly), b.fraction) == Some(dollars),
        decimal_sum(anchor_price, match_price) == Some(cost),
        cost.mantissa != 0,
        decimal_quotient(dollars, cost) == Some(pairs),
    ensures
        ({
            let (most, offered) = (floor_of(pairs), floor_of(market_liq));
            let n = if offered < most {
                offered
            } else {
                most
            };
            match decimal_product(whole(n), cost) {
                None => sized(b, anchor_price, match_price, market_liq) is None,
                Some(worth) => sized(b, anchor_price, match_price, market_liq) == Some(
                    if less(worth, b.minimum) {
                        None
                    } else {
                        Some(whole(n))
                    },
                ),
            }
        }),
{
    let (most, offered) = (floor_of(pairs), floor_of(market_liq));
    lemma_less_whole(whole(offered), most);
    assert(pow10(0) == 1);
    assert(most * pow10(0) == most) by (nonlinear_arith)
        requires
            pow10(0) == 1,
    ;
}

/// A pair that costs nothing is not traded.
pub proof fn free_pairs_are_not_traded(
    b: Balances,
    anchor_price: Num,
    match_price: Num,
    market_liq: Num,
)
    requires
        budget(b) is Some,
        decimal_sum(anchor_price, match_price) matches Some(cost) && cost.mantissa == 0,
    ensures
        sized(b, anchor_price, match_price, market_liq) == Some(None::<Num>),
{
}

/// Two legs on the same venue are both paid for there, one after the other, and the
/// other venue's balance stays as it is.
pub proof fn one_venue_pays_for_both(
    b: Balances,
    platform: Platform,
    anchor_price: Num,
    match_price: Num,
    size: Num,
)
    requires
        both_debited(b, platform, anchor_price, platform, match_price, size) is Some,
    ensures
        ({
            let after = both_debited(b, platform, anchor_price, platform, match_price, size)->0;
            let (x, y) = (decimal_product(anchor_price, size), decimal_product(match_price, size));
            &&& x is Some && y is Some
            &&& platform is Kalshi ==> after.poly == b.poly && (decimal_difference(b.kalshi, x->0)
                matches Some(rest) && decimal_difference(rest, y->0) == Some(after.kalshi))
            &&& platform is Polymarket ==> after.kalshi == b.kalshi && (decimal_difference(
                b.poly,
                x->0,
            ) matches Some(rest) && decimal_difference(rest, y->0) == Some(after.poly))
        }),
{
}

/// A leg's fill is paid for on its own venue: the other balance and the settings
/// stay as they are.
pub proof fn debit_touches_one_venue(b: Balances, platform: Platform, price: Num, size: Num)
    requires
        debited(b, platform, price, size) is Some,
    ensures
        ({
            let after = debited(b, platform, price, size)->0;
            &&& after.fraction == b.fraction
            &&& after.minimum == b.minimum
            &&& platform is Kalshi ==> after.poly == b.poly
            &&& platform is Polymarket ==> after.kalshi == b.kalshi
        }),
{
}

/// What a cross-venue fill costs is split by venue: each balance falls by its own
/// leg's price times the size.
pub proof fn cross_venue_fill_debits_both(
    b: Balances,
    anchor_price: Num,
    match_price: Num,
    size: Num,
)
    requires
        both_debited(
            b,
            Platform::Kalshi,
            anchor_price,
            Platform::Polymarket,
            match_price,
            size,
        ) is Some,
    ensures
        both_debited(b, Platform::Kalshi, anchor_price, Platform::Polymarket, match_price, size)
            == Some(
            (Balances {
                kalshi: decimal_difference(
                    b.kalshi,
                    decimal_product(anchor_price, size)->0,
                )->0,
                poly: decimal_difference(b.poly, decimal_product(match_price, size)->0)->0,
                fraction: b.fraction,
                minimum: b.minimum,
            }),
        ),
        both_debited(b, Platform::Kalshi, anchor_price, Platform::Polymarket, match_price, size)
            == both_debited(
            b,
            Platform::Polymarket,
            match_price,
            Platform::Kalshi,
            anchor_price,
            size,
        ),
{
}

/// Tracks available capital per venue.
#[derive(Debug)]
pub struct BalanceTracker {
    kalshi_usdc: Dec,
    polymarket_usdc: Dec,
    trade_fraction: Dec,
    min_trade_size: Dec,
}

impl View for BalanceTracker {
    type V = Balances;

    closed spec fn view(&self) -> Balances {
        Balances {
            kalshi: self.kalshi_usdc@,
            poly: self.polymarket_usdc@,
            fraction: self.trade_fraction@,
            minimum: self.min_trade_size@,
        }
    }
}

impl BalanceTracker {
    /// The fraction lies between zero and one, and the least worth of a trade is
    /// positive.
    #[verifier::type_invariant]
    spec fn settings_in_range(self) -> bool {
        &&& less(zero(), self.trade_fraction@)
        &&& less(self.trade_fraction@, whole(1))
        &&& less(zero(), self.min_trade_size@)
    }

    /// No capital yet, with the settings as given.
    pub fn new(trade_fraction: &Option<String>, min_trade_size: &Option<String>) -> (r: Self)
        ensures
            r@ == (Balances {
                kalshi: zero(),
                poly: zero(),
                fraction: decimal_setting(
                    crate::guards::setting_view(*trade_fraction),
                    default_trade_fraction(),
                    true,
                ),
                minimum: decimal_setting(
                    crate::guards::setting_view(*min_trade_size),
                    default_min_trade_size(),
                    false,
                ),
            }),
            r.has_sane_settings(),
    {
        reveal_with_fuel(pow10, 3);
        let trade_fraction = parse_env_decimal(trade_fraction, Dec::new(20, 2), true);
        let min_trade_size = parse_env_decimal(min_trade_size, Dec::new(2, 0), false);
        BalanceTracker {
            kalshi_usdc: Dec::zero(),
            polymarket_usdc: Dec::zero(),
            trade_fraction,
            min_trade_size,
        }
    }

    /// Whether the fraction lies between zero and one and the least worth of a
    /// trade is positive.
    pub open spec fn has_sane_settings(&self) -> bool {
        &&& less(zero(), self@.fraction)
        &&& less(self@.fraction, whole(1))
        &&& less(zero(), self@.minimum)
    }

    /// The capital on Kalshi.
    pub fn kalshi(&self) -> (r: Dec)
        ensures
            r@ == self@.kalshi,
            self.has_sane_settings(),
    {
        proof {
            use_type_invariant(self);
        }
        self.kalshi_usdc
    }

    /// The capital on Polymarket.
    pub fn poly(&self) -> (r: Dec)
        ensures
            r@ == self@.poly,
            self.has_sane_settings(),
    {
        proof {
            use_type_invariant(self);
        }
        self.polymarket_usdc
    }

    /// Notes the capital on Kalshi.
    pub fn set_kalshi(&mut self, v: Dec)
        ensures
            final(self)@ == (Balances { kalshi: v@, ..old(self)@ }),
    {
        proof {
            use_type_invariant(&*self);
        }
        self.kalshi_usdc = v;
    }

    /// Notes the capital on Polymarket.
    pub fn set_poly(&mut self, v: Dec)
        ensures
            final(self)@ == (Balances { poly: v@, ..old(self)@ }),
    {
        proof {
            use_type_invariant(&*self);
        }
        self.polymarket_usdc = v;
    }

    /// Notes the balances that the venues report: Kalshi's in cents, and
    /// Polymarket's where it could be had.
    pub fn refresh(&mut self, kalshi_cents: i64, poly: Option<Dec>)
        ensures
            equal(exact_product(final(self)@.kalshi, whole(100)), whole(kalshi_cents as int)),
            final(self)@ == (Balances {
                kalshi: final(self)@.kalshi,
                poly: match poly {
                    Some(v) => v@,
                    None => old(self)@.poly,
                },
                ..old(self)@
            }),
    {
        self.set_kalshi(cents_to_dollars(kalshi_cents));
        if let Some(v) = poly {
            self.set_poly(v);
        }
    }

    /// The dollars that a trade may cost: a fraction of the smaller balance.
    pub fn max_trade_dollars(&self) -> (r: Dec)
        requires
            budget(self@) is Some,
        ensures
            Some(r@) == budget(self@),
            fits(exact_budget(self@).mantissa) && exact_budget(self@).scale <= 28 ==> equal(
                r@,
                exact_budget(self@),
            ),
            r@.scale <= exact_budget(self@).scale,
    {
        let effective = self.kalshi_usdc.min(self.polymarket_usdc);
        match effective.checked_mul(self.trade_fraction) {
            Some(product) => product,
            None => Dec::zero(),
        }
    }

    /// The dollars that a trade may cost, or `None` where the product is beyond
    /// what a decimal holds.
    pub fn try_max_trade_dollars(&self) -> (r: Option<Dec>)
        ensures
            result_view(r) == budget(self@),
            fits(exact_budget(self@).mantissa) && exact_budget(self@).scale <= 28 ==> r is Some
                && equal(r->0@, exact_budget(self@)),
            r is Some ==> r->0@.scale <= exact_budget(self@).scale,
    {
        let effective = self.kalshi_usdc.min(self.polymarket_usdc);
        match effective.checked_mul(self.trade_fraction) {
            Some(_) => Some(self.max_trade_dollars()),
            None => None,
        }
    }

    /// The number of contracts to trade at the given prices and liquidity, or
    /// `None` where the trade would be worth less than the minimum.
    pub fn compute_size(&self, anchor_price: Dec, match_price: Dec, market_liq: Dec) -> (r: Option<
        Dec,
    >)
        requires
            sized(self@, anchor_price@, match_price@, market_liq@) is Some,
        ensures
            Some(result_view(r)) == sized(self@, anchor_price@, match_price@, market_liq@),
            r matches Some(size) ==> within_limits(
                self@,
                anchor_price@,
                match_price@,
                market_liq@,
                size@,
            ),
    {
        match self.checked_size(anchor_price, match_price, market_liq) {
            Some(size) => size,
            None => None,
        }
    }

    /// The number of contracts to trade: `Some(None)` where the trade would be
    /// worth less than the minimum, `None` where an amount is beyond what a
    /// decimal holds.
    pub fn try_compute_size(&self, anchor_price: Dec, match_price: Dec, market_liq: Dec) -> (r:
        Option<Option<Dec>>)
        ensures
            r is None <==> sized(self@, anchor_price@, match_price@, market_liq@) is None,
            r matches Some(size) ==> sized(self@, anchor_price@, match_price@, market_liq@)
                == Some(result_view(size)),
            r matches Some(Some(size)) ==> within_limits(
                self@,
                anchor_price@,
                match_price@,
                market_liq@,
                size@,
            ),
    {
        match self.checked_size(anchor_price, match_price, market_liq) {
            Some(_) => Some(self.compute_size(anchor_price, match_price, market_liq)),
            None => None,
        }
    }

    fn checked_size(&self, anchor_price: Dec, match_price: Dec, market_liq: Dec) -> (r: Option<
        Option<Dec>,
    >)
        ensures
            r is None <==> sized(self@, anchor_price@, match_price@, market_liq@) is None,
            r matches Some(size) ==> sized(self@, anchor_price@, match_price@, market_liq@)
                == Some(result_view(size)),
            r matches Some(Some(size)) ==> within_limits(
                self@,
                anchor_price@,
                match_price@,
                market_liq@,
                size@,
            ),
    {
        let dollars = match self.try_max_trade_dollars() {
            Some(dollars) => dollars,
            None => return None,
        };
        let cost = match anchor_price.checked_add(match_price) {
            Some(cost) => cost,
            None => return None,
        };
        if cost.is_zero() {
            return Some(None);
        }
        let quotient = match dollars.checked_div(cost) {
            Some(quotient) => quotient,
            None => return None,
        };
        let size = quotient.floor().min(market_liq.floor());
        let spent = match size.checked_mul(cost) {
            Some(spent) => spent,
            None => return None,
        };
        if spent.lt(self.min_trade_size) {
            Some(None)
        } else {
            proof {
                let (most, offered) = (floor_of(quotient@), floor_of(market_liq@));
                lemma_less_whole(whole(offered), most);
                assert(size@ == affordable(quotient@, market_liq@));
                assert(size@.mantissa <= most && size@.mantissa <= offered) by (nonlinear_arith)
                    requires
                        size@.mantissa == if offered < most * pow10(0) {
                            offered
                        } else {
                            most
                        },
                        pow10(0) == 1,
                ;
                assert(size@ == whole(size@.mantissa));
                if usual_amounts(self@, anchor_price@, match_price@) {
                    let exact = exact_sum(anchor_price@, match_price@);
                    lemma_prices_align(anchor_price@, match_price@);
                    lemma_fewer_places(cost@, exact);
                    lemma_fewer_places(dollars@, exact_budget(self@));
                    assert forall|n: int|
                        less(exact_budget(self@), exact_product(#[trigger] whole(n), exact))
                            <==> most < n by {
                        lemma_within_budget(
                            dollars@,
                            exact_budget(self@),
                            cost@,
                            exact,
                            most,
                            n,
                        );
                    }
                    assert(!less(
                        exact_budget(self@),
                        exact_product(whole(size@.mantissa), exact),
                    ));
                    assert(size@.mantissa < offered ==> size@.mantissa == most);
                }
            }
            Some(Some(size))
        }
    }

    /// Takes the cost of a fill of `size` contracts off the venue of each leg.
    pub fn deduct_fill(
        &mut self,
        anchor_platform: Platform,
        anchor_price: Dec,
        match_platform: Platform,
        match_price: Dec,
        size: Dec,
    )
        requires
            both_debited(
                old(self)@,
                anchor_platform,
                anchor_price@,
                match_platform,
                match_price@,
                size@,
            ) is Some,
        ensures
            Some(final(self)@) == both_debited(
                old(self)@,
                anchor_platform,
                anchor_price@,
                match_platform,
                match_price@,
                size@,
            ),
    {
        self.debit(anchor_platform, anchor_price, size);
        self.debit(match_platform, match_price, size);
    }

    /// Takes the cost of a fill of `size` contracts off the venue of each leg, or
    /// gives `false` and leaves the balances alone where an amount is beyond what
    /// a decimal holds.
    pub fn try_deduct_fill(
        &mut self,
        anchor_platform: Platform,
        anchor_price: Dec,
        match_platform: Platform,
        match_price: Dec,
        size: Dec,
    ) -> (r: bool)
        ensures
            ({
                let after = both_debited(
                    old(self)@,
                    anchor_platform,
                    anchor_price@,
                    match_platform,
                    match_price@,
                    size@,
                );
                &&& r == (after is Some)
                &&& final(self)@ == if r {
                    after->0
                } else {
                    old(self)@
                }
            }),
    {
        let kalshi = self.kalshi_usdc;
        let poly = self.polymarket_usdc;
        let possible = self.debit(anchor_platform, anchor_price, size) && self.debit(
            match_platform,
            match_price,
            size,
        );
        self.set_kalshi(kalshi);
        self.set_poly(poly);
        if possible {
            self.deduct_fill(anchor_platform, anchor_price, match_platform, match_price, size);
        }
        possible
    }

    fn debit(&mut self, platform: Platform, price: Dec, size: Dec) -> (r: bool)
        ensures
            r == (debited(old(self)@, platform, price@, size@) is Some),
            r ==> Some(final(self)@) == debited(old(self)@, platform, price@, size@),
            !r ==> final(self)@ == old(self)@,
    {
        let cost = match price.checked_mul(size) {
            Some(cost) => cost,
            None => return false,
        };
        match platform {
            Platform::Kalshi => match self.kalshi_usdc.checked_sub(cost) {
                Some(v) => {
                    self.set_kalshi(v);
                    true
                },
                None => false,
            },
            Platform::Polymarket => match self.polymarket_usdc.checked_sub(cost) {
                Some(v) => {
                    self.set_poly(v);
                    true
                },
                None => false,
            },
        }
    }
}

/// Whether balances and prices are of the usual size: a budget that is not negative,
/// with a mantissa below `2^63` and at most 18 decimal places, and prices that are not
/// negative, with at most 9 decimal places, whose sum is positive and has a mantissa
/// below `2^32`.
pub open spec fn usual_amounts(b: Balances, anchor_price: Num, match_price: Num) -> bool {
    let cost = exact_sum(anchor_price, match_price);
    &&& 0 <= exact_budget(b).mantissa < 0x8000_0000_0000_0000
    &&& exact_budget(b).scale <= 18
    &&& 0 <= anchor_price.mantissa
    &&& 0 <= match_price.mantissa
    &&& 0 < cost.mantissa < 0x1_0000_0000
    &&& cost.scale <= 9
}

/// What a computed size keeps to: it is at most the whole liquidity on offer, the
/// trade is worth at least the minimum, and at amounts of the usual size the trade
/// costs at most the budget, while every larger one that the liquidity allows would
/// cost more than that.
pub open spec fn within_limits(
    b: Balances,
    anchor_price: Num,
    match_price: Num,
    market_liq: Num,
    size: Num,
) -> bool {
    let cost = decimal_sum(anchor_price, match_price)->0;
    &&& size.scale == 0
    &&& size.mantissa <= floor_of(market_liq)
    &&& !less(decimal_product(size, cost)->0, b.minimum)
    &&& usual_amounts(b, anchor_price, match_price) ==> !less(
        exact_budget(b),
        exact_product(size, exact_sum(anchor_price, match_price)),
    )
    &&& usual_amounts(b, anchor_price, match_price) ==> forall|n: int|
        size.mantissa < n <= floor_of(market_liq) ==> less(
            exact_budget(b),
            exact_product(#[trigger] whole(n), exact_sum(anchor_price, match_price)),
        )
}

proof fn lemma_prices_align(a: Num, b: Num)
    requires
        0 <= a.mantissa,
        0 <= b.mantissa,
        exact_sum(a, b).mantissa < 0x1_0000_0000,
    ensures
        aligned_fit(a, b),
        fits(exact_sum(a, b).mantissa),
{
    let scale = common_scale(a, b);
    let (m, n) = (a.mantissa, b.mantissa);
    let (p, q) = (pow10((scale - a.scale) as nat), pow10((scale - b.scale) as nat));
    lemma_pow10_positive((scale - a.scale) as nat);
    lemma_pow10_positive((scale - b.scale) as nat);
    assert(0 <= m * p && 0 <= n * q) by (nonlinear_arith)
        requires
            0 <= m,
            0 <= n,
            0 < p,
            0 < q,
    ;
}

/// Exactly a size of at most the quotient of budget and cost costs at most the
/// budget, whichever way the two are written.
proof fn lemma_within_budget(
    dollars: Num,
    limit: Num,
    cost: Num,
    exact_cost: Num,
    quotient: int,
    size: int,
)
    requires
        equal(dollars, limit),
        equal(cost, exact_cost),
        0 < cost.mantissa,
        quotient == (dollars.mantissa * pow10(cost.scale)) / (cost.mantissa * pow10(
            dollars.scale,
        )),
    ensures
        less(limit, exact_product(whole(size), exact_cost)) <==> quotient < size,
{
    lemma_pow10_positive(dollars.scale);
    lemma_pow10_positive(limit.scale);
    lemma_pow10_positive(cost.scale);
    lemma_pow10_positive(exact_cost.scale);
    let (d, dp, l, lp) = (
        dollars.mantissa,
        pow10(dollars.scale),
        limit.mantissa,
        pow10(limit.scale),
    );
    let (c, cp, e, ep) = (
        cost.mantissa,
        pow10(cost.scale),
        exact_cost.mantissa,
        pow10(exact_cost.scale),
    );
    let (a, k) = (d * cp, c * dp);
    assert(k > 0) by (nonlinear_arith)
        requires
            k == c * dp,
            c > 0,
            dp > 0,
    ;
    assert(a < size * k <==> a / k < size) by (nonlinear_arith)
        requires
            k > 0,
    ;
    assert(l * ep < size * e * lp <==> a < size * k) by {
        let (both, rest) = (dp * cp, lp * ep);
        assert(both > 0 && rest > 0) by (nonlinear_arith)
            requires
                both == dp * cp,
                rest == lp * ep,
                dp > 0,
                cp > 0,
                lp > 0,
                ep > 0,
        ;
        assert((size * (c * dp)) * (lp * ep) == (size * lp * dp) * (c * ep)) by (nonlinear_arith);
        assert((size * e * lp) * (dp * cp) == (size * lp * dp) * (e * cp)) by (nonlinear_arith);
        assert((d * cp) * (lp * ep) == (cp * ep) * (d * lp)) by (nonlinear_arith);
        assert((l * ep) * (dp * cp) == (cp * ep) * (l * dp)) by (nonlinear_arith);
        let (x, y, z) = (size * e * lp, l * ep, size * k);
        assert(y < x <==> a < z) by (nonlinear_arith)
            requires
                z * rest == x * both,
                a * rest == y * both,
                both > 0,
                rest > 0,
        ;
    }
    assert(exact_product(whole(size), exact_cost).scale == exact_cost.scale);
}

/// The dollars that an amount of cents is.
pub fn cents_to_dollars(cents: i64) -> (r: Dec)
    ensures
        equal(exact_product(r@, whole(100)), whole(cents as int)),
{
    match Dec::new(cents, 0).checked_div(Dec::hundred()) {
        Some(dollars) => dollars,
        None => Dec::zero(),
    }
}

} // verus!
