//! Order books of both venues, and which of their levels matter.
use crate::dec::{less, parsed_decimal};
use crate::models::Leg;
use vstd::prelude::*;

verus! {

/// One level of an order book.
#[derive(Debug)]
pub struct BookLevel {
    pub price: String,
    pub size: String,
}

/// An order book of Polymarket: asks from the lowest, bids from the highest.
#[derive(Debug)]
pub struct PolyBook {
    pub asks: Vec<BookLevel>,
    pub bids: Vec<BookLevel>,
    pub timestamp: String,
}

/// An order book of Kalshi: the bids for either side, from the lowest.
#[derive(Debug)]
pub struct KalshiBook {
    pub yes_dollars: Option<Vec<BookLevel>>,
    pub no_dollars: Option<Vec<BookLevel>>,
}

/// The first level.
pub fn first_level(levels: &Vec<BookLevel>) -> (r: Option<&BookLevel>)
    ensures
        levels@.len() == 0 ==> r is None,
        levels@.len() > 0 ==> r == Some(&levels@[0]),
{
    if levels.len() == 0 {
        None
    } else {
        Some(&levels[0])
    }
}

/// The last level of a side that may be missing.
pub fn last_level(levels: &Option<Vec<BookLevel>>) -> (r: Option<&BookLevel>)
    ensures
        match *levels {
            None => r is None,
            Some(list) => if list@.len() == 0 {
                r is None
            } else {
                r == Some(&list@.last())
            },
        },
{
    match levels {
        None => None,
        Some(list) => if list.len() == 0 {
            None
        } else {
            Some(&list[list.len() - 1])
        },
    }
}

/// Why an order book does not give a price and a size.
#[derive(Debug, Clone, Copy, PartialEq, Eq, Structural)]
pub enum MetricsError {
    MissingBook,
    EmptyBook,
    UnreadablePrice,
    UnreadableSize,
    Overflow,
}

/// An order book of either venue.
#[derive(Debug)]
pub enum OrderBook {
    Polymarket(PolyBook),
    Kalshi(KalshiBook),
}

/// The side of a Kalshi book that a leg trades against: the bids for the other
/// side.
pub open spec fn opposite_bids(book: KalshiBook, leg: Leg) -> Option<Vec<BookLevel>> {
    match leg {
        Leg::Left => book.no_dollars,
        Leg::Right => book.yes_dollars,
    }
}

/// The level of a book that a leg trades against.
pub open spec fn best_level(book: OrderBook, leg: Leg) -> Result<BookLevel, MetricsError> {
    match book {
        OrderBook::Polymarket(b) => if b.asks@.len() == 0 {
            Err(MetricsError::EmptyBook)
        } else {
            Ok(b.asks@[0])
        },
        OrderBook::Kalshi(b) => match opposite_bids(b, leg) {
            None => Err(MetricsError::MissingBook),
            Some(levels) => if levels@.len() == 0 {
                Err(MetricsError::EmptyBook)
            } else {
                Ok(levels@.last())
            },
        },
    }
}

/// Finds the level of a book that a leg trades against: the lowest ask on
/// Polymarket, the highest bid for the other side on Kalshi.
pub fn find_level(book: &OrderBook, leg: Leg) -> (r: Result<&BookLevel, MetricsError>)
    ensures
        match best_level(*book, leg) {
            Ok(level) => r == Ok::<&BookLevel, MetricsError>(&level),
            Err(e) => r == Err::<&BookLevel, MetricsError>(e),
        },
{
    match book {
        OrderBook::Polymarket(b) => match first_level(&b.asks) {
            Some(level) => Ok(level),
            None => Err(MetricsError::EmptyBook),
        },
        OrderBook::Kalshi(b) => {
            let bids = match leg {
                Leg::Left => &b.no_dollars,
                Leg::Right => &b.yes_dollars,
            };
            match bids {
                None => Err(MetricsError::MissingBook),
                Some(levels) => if levels.len() == 0 {
                    Err(MetricsError::EmptyBook)
                } else {
                    Ok(&levels[levels.len() - 1])
                },
            }
        },
    }
}

/// Whether the prices of the levels are numbers that never fall from one level to the
/// next.
pub open spec fn rising(levels: Seq<BookLevel>) -> bool {
    &&& forall|i: int|
        0 <= i < levels.len() ==> parsed_decimal((#[trigger] levels[i]).price@) is Some
    &&& forall|i: int, j: int|
        0 <= i < j < levels.len() ==> !less(
            parsed_decimal((#[trigger] levels[j]).price@)->0,
            parsed_decimal((#[trigger] levels[i]).price@)->0,
        )
}

/// On Polymarket a leg is bought at the cheapest ask: where the asks rise from the
/// first one on, none of them is below the one that is taken.
pub proof fn the_cheapest_ask_is_taken(book: PolyBook, leg: Leg, i: int)
    requires
        rising(book.asks@),
        0 <= i < book.asks@.len(),
    ensures
        best_level(OrderBook::Polymarket(book), leg) matches Ok(level) && book.asks@.contains(level)
            && !less(
            parsed_decimal(book.asks@[i].price@)->0,
            parsed_decimal(level.price@)->0,
        ),
{
    assert(book.asks@.contains(book.asks@[0]));
}

/// On Kalshi a leg is bought against the highest bid for the other side: a yes against
/// the bids for no, and a no against those for yes. Where the bids rise up to the last
/// one, none of them is above the one that is taken.
pub proof fn the_highest_opposite_bid_is_taken(
    book: KalshiBook,
    leg: Leg,
    bids: Vec<BookLevel>,
    i: int,
)
    requires
        leg is Left ==> book.no_dollars == Some(bids),
        leg is Right ==> book.yes_dollars == Some(bids),
        rising(bids@),
        0 <= i < bids@.len(),
    ensures
        best_level(OrderBook::Kalshi(book), leg) matches Ok(level) && bids@.contains(level)
            && !less(parsed_decimal(level.price@)->0, parsed_decimal(bids@[i].price@)->0),
{
    let last = bids@.len() - 1;
    assert(bids@.contains(bids@[last]));
}

/// A side that a leg needs and that is missing or empty is an error; the other side
/// never matters.
pub proof fn only_the_needed_side_matters(
    a: KalshiBook,
    b: KalshiBook,
    x: PolyBook,
    y: PolyBook,
    leg: Leg,
)
    ensures
        leg is Left && a.no_dollars == b.no_dollars ==> best_level(OrderBook::Kalshi(a), leg)
            == best_level(OrderBook::Kalshi(b), leg),
        leg is Right && a.yes_dollars == b.yes_dollars ==> best_level(OrderBook::Kalshi(a), leg)
            == best_level(OrderBook::Kalshi(b), leg),
        x.asks@ == y.asks@ ==> best_level(OrderBook::Polymarket(x), leg) == best_level(
            OrderBook::Polymarket(y),
            leg,
        ),
        leg is Left && a.no_dollars is None ==> best_level(OrderBook::Kalshi(a), leg)
            == Err::<BookLevel, MetricsError>(MetricsError::MissingBook),
        leg is Right && a.yes_dollars is None ==> best_level(OrderBook::Kalshi(a), leg)
            == Err::<BookLevel, MetricsError>(MetricsError::MissingBook),
        x.asks@.len() == 0 ==> best_level(OrderBook::Polymarket(x), leg) == Err::<
            BookLevel,
            MetricsError,
        >(MetricsError::EmptyBook),
{
}

/// A market is seeded with the levels that its left leg trades at and against: the ask
/// is that of [`best_level`] where there is one, and the bid is the level that the
/// right leg of a Kalshi market trades against, or Polymarket's first bid.
pub proof fn seeds_are_the_best_levels(book: OrderBook)
    ensures
        match best_level(book, Leg::Left) {
            Ok(level) => seed_levels(book).0 == Some(level),
            Err(_) => seed_levels(book).0 is None,
        },
        book is Kalshi ==> match best_level(book, Leg::Right) {
            Ok(level) => seed_levels(book).1 == Some(level),
            Err(_) => seed_levels(book).1 is None,
        },
        book matches OrderBook::Polymarket(b) ==> {
            &&& b.bids@.len() == 0 ==> seed_levels(book).1 is None
            &&& b.bids@.len() > 0 ==> seed_levels(book).1 == Some(b.bids@[0])
        },
{
}

/// The prices that seed a market, as far as the book has them: the ask, or the bid
/// for the other side that an ask follows from, and the bid.
pub open spec fn seed_levels(book: OrderBook) -> (Option<BookLevel>, Option<BookLevel>) {
    match book {
        OrderBook::Polymarket(b) => (first_of(b.asks@), first_of(b.bids@)),
        OrderBook::Kalshi(b) => (last_of(b.no_dollars), last_of(b.yes_dollars)),
    }
}

/// The first level, if there is one.
pub open spec fn first_of(levels: Seq<BookLevel>) -> Option<BookLevel> {
    if levels.len() == 0 {
        None
    } else {
        Some(levels[0])
    }
}

/// The last level of a side, if there is one.
pub open spec fn last_of(levels: Option<Vec<BookLevel>>) -> Option<BookLevel> {
    match levels {
        None => None,
        Some(list) => if list@.len() == 0 {
            None
        } else {
            Some(list@.last())
        },
    }
}

/// The level of the ask and that of the bid that seed a market. On Polymarket these
/// are the first ones of either side; on Kalshi the last bid for the other side, from
/// which the ask follows, and the last bid.
pub fn find_seed_levels(book: &OrderBook) -> (r: (Option<&BookLevel>, Option<&BookLevel>))
    ensures
        match seed_levels(*book).0 {
            Some(level) => r.0 == Some(&level),
            None => r.0 is None,
        },
        match seed_levels(*book).1 {
            Some(level) => r.1 == Some(&level),
            None => r.1 is None,
        },
{
    match book {
        OrderBook::Polymarket(b) => (first_level(&b.asks), first_level(&b.bids)),
        OrderBook::Kalshi(b) => (last_level(&b.no_dollars), last_level(&b.yes_dollars)),
    }
}

} // verus!
