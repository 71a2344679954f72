//! The state of a Polymarket connection: which assets are subscribed to.
use crate::ids::views;
use crate::idset::IdSet;
use crate::kalshi::{first_topic, sort_tags};
use crate::models::Platform;
use crate::tags::MarketTag;
use vstd::prelude::*;

verus! {

/// The stream broke and could not be connected again.
#[derive(Debug, Clone, Copy, PartialEq, Eq, Structural)]
pub struct PolymarketReconnectError;

impl PolymarketReconnectError {
    /// The error in words.
    pub fn message(&self) -> (r: &'static str)
        ensures
            r@ == "polymarket clob reconnect failed"@,
    {
        "polymarket clob reconnect failed"
    }
}

/// The kind of a message of Polymarket's stream.
#[derive(Debug, Clone, Copy, PartialEq, Eq, Structural)]
pub enum PolyMessageKind {
    NewMarket,
    BestBidAsk,
    PriceChange,
    MarketResolved,
    Ping,
    Close,
    Other,
}

/// What is done with a message.
#[derive(Debug, Clone, Copy, PartialEq, Eq, Structural)]
pub enum PolyAction {
    Nothing,
    /// Look the market up and store it.
    Discover,
    /// Hand the message to the watcher.
    Forward,
    /// Answer the ping.
    Pong,
    /// Connect again and subscribe to all assets anew.
    Reconnect,
}

/// What is done with a message.
pub open spec fn poly_action(kind: PolyMessageKind) -> PolyAction {
    match kind {
        PolyMessageKind::NewMarket => PolyAction::Discover,
        PolyMessageKind::BestBidAsk | PolyMessageKind::PriceChange
        | PolyMessageKind::MarketResolved => PolyAction::Forward,
        PolyMessageKind::Ping => PolyAction::Pong,
        PolyMessageKind::Close => PolyAction::Reconnect,
        PolyMessageKind::Other => PolyAction::Nothing,
    }
}

/// Prices and resolutions, and nothing else, go to the watcher; new markets, and nothing
/// else, are looked up; only a ping is answered, and only a closed stream is connected
/// again.
pub proof fn messages_go_where_they_belong(kind: PolyMessageKind)
    ensures
        poly_action(kind) is Forward <==> kind is BestBidAsk || kind is PriceChange || kind
            is MarketResolved,
        poly_action(kind) is Discover <==> kind is NewMarket,
        poly_action(kind) is Pong <==> kind is Ping,
        poly_action(kind) is Reconnect <==> kind is Close,
{
}

/// Decides what is done with a message: prices and resolutions go to the watcher.
pub fn message_action(kind: PolyMessageKind) -> (r: PolyAction)
    ensures
        r == poly_action(kind),
{
    match kind {
        PolyMessageKind::NewMarket => PolyAction::Discover,
        PolyMessageKind::BestBidAsk | PolyMessageKind::PriceChange
        | PolyMessageKind::MarketResolved => PolyAction::Forward,
        PolyMessageKind::Ping => PolyAction::Pong,
        PolyMessageKind::Close => PolyAction::Reconnect,
        PolyMessageKind::Other => PolyAction::Nothing,
    }
}

/// A market that was looked up came without tags.
#[derive(Debug, Clone, Copy, PartialEq, Eq, Structural)]
pub struct MissingTags;

/// The topic of a new market, if it is one that is collected. A market without tags
/// is an error.
pub fn new_market_topic(tag_ids: &Option<Vec<String>>) -> (r: Result<Option<MarketTag>, MissingTags>)
    ensures
        r == match *tag_ids {
            None => Err::<Option<MarketTag>, MissingTags>(MissingTags),
            Some(ids) => Ok::<Option<MarketTag>, MissingTags>(
                first_topic(Platform::Polymarket, views(ids@)),
            ),
        },
{
    match tag_ids {
        None => Err(MissingTags),
        Some(ids) => Ok(sort_polymarket_tags(ids)),
    }
}

/// The subscription state of a Polymarket connection.
#[derive(Debug)]
pub struct MyPolymarketClient {
    subscribed_assets: IdSet,
}

impl View for MyPolymarketClient {
    type V = Set<Seq<char>>;

    closed spec fn view(&self) -> Set<Seq<char>> {
        self.subscribed_assets@
    }
}

/// `assets` without those of the list.
pub open spec fn without(assets: Set<Seq<char>>, list: Seq<Seq<char>>) -> Set<Seq<char>>
    decreases list.len(),
{
    if list.len() == 0 {
        assets
    } else {
        without(assets, list.drop_last()).remove(list.last())
    }
}

/// An asset is left exactly if it was there and is not in the list.
pub proof fn without_removes_the_list(assets: Set<Seq<char>>, list: Seq<Seq<char>>, id: Seq<char>)
    ensures
        without(assets, list).contains(id) <==> assets.contains(id) && !list.contains(id),
    decreases list.len(),
{
    if list.len() > 0 {
        let init = list.drop_last();
        without_removes_the_list(assets, init, id);
        assert(list.contains(id) <==> init.contains(id) || id == list.last()) by {
            if list.contains(id) {
                let i = choose|i: int| 0 <= i < list.len() && list[i] == id;
                if i < init.len() {
                    assert(init[i] == id);
                }
            }
            if init.contains(id) {
                let i = choose|i: int| 0 <= i < init.len() && init[i] == id;
                assert(list[i] == id);
            }
            assert(list[list.len() - 1] == list.last());
        }
    }
}

/// The topic of a Polymarket market, from the ids of its tags.
pub fn sort_polymarket_tags(tag_ids: &Vec<String>) -> (r: Option<MarketTag>)
    ensures
        r == first_topic(Platform::Polymarket, views(tag_ids@)),
{
    sort_tags(Platform::Polymarket, tag_ids)
}

impl MyPolymarketClient {
    /// Nothing subscribed to.
    pub fn new() -> (r: Self)
        ensures
            r@ == Set::<Seq<char>>::empty(),
    {
        MyPolymarketClient { subscribed_assets: IdSet::new() }
    }

    /// Whether the asset is subscribed to.
    pub fn is_asset_subscribed(&self, asset_id: &str) -> (r: bool)
        ensures
            r == self@.contains(asset_id@),
    {
        self.subscribed_assets.contains(asset_id)
    }

    /// Notes that the asset is subscribed to.
    pub fn insert_subscribed_asset(&mut self, asset_id: String)
        ensures
            final(self)@ == old(self)@.insert(asset_id@),
    {
        self.subscribed_assets.insert(asset_id);
    }

    /// Notes that the asset is no longer subscribed to; says whether it was.
    pub fn remove_subscribed_asset(&mut self, asset_id: &str) -> (r: bool)
        ensures
            final(self)@ == old(self)@.remove(asset_id@),
            r == old(self)@.contains(asset_id@),
    {
        self.subscribed_assets.remove(asset_id)
    }

    /// Those assets of the list that are subscribed to and so can be unsubscribed
    /// from.
    pub fn to_unsubscribe(&self, asset_ids: &Vec<String>) -> (r: Vec<String>)
        ensures
            views(r@) == views(asset_ids@).filter(|id: Seq<char>| self@.contains(id)),
    {
        let mut out: Vec<String> = Vec::new();
        let ghost all = views(asset_ids@);
        assert(views(out@) =~= Seq::<Seq<char>>::empty());
        assert(all.take(0) =~= Seq::<Seq<char>>::empty());
        proof {
            reveal(Seq::filter);
        }
        let mut i: usize = 0;
        while i < asset_ids.len()
            invariant
                i <= asset_ids@.len(),
                all == views(asset_ids@),
                views(out@) == all.take(i as int).filter(|id: Seq<char>| self@.contains(id)),
            decreases asset_ids@.len() - i,
        {
            let ghost before = views(out@);
            proof {
                reveal(Seq::filter);
                assert(all.take(i + 1).drop_last() =~= all.take(i as int));
                assert(all.take(i + 1).last() == asset_ids@[i as int]@);
            }
            if self.is_asset_subscribed(asset_ids[i].as_str()) {
                out.push(asset_ids[i].clone());
                assert(views(out@) =~= before.push(asset_ids@[i as int]@));
            }
            i += 1;
        }
        assert(all.take(all.len() as int) =~= all);
        out
    }

    /// Notes that the assets have been unsubscribed from.
    pub fn on_unsubscribed(&mut self, asset_ids: &Vec<String>)
        ensures
            final(self)@ == without(old(self)@, views(asset_ids@)),
    {
        let ghost all = views(asset_ids@);
        assert(all.take(0) =~= Seq::<Seq<char>>::empty());
        let ghost start = self@;
        let mut i: usize = 0;
        while i < asset_ids.len()
            invariant
                i <= asset_ids@.len(),
                all == views(asset_ids@),
                self@ == without(start, all.take(i as int)),
            decreases asset_ids@.len() - i,
        {
            self.remove_subscribed_asset(asset_ids[i].as_str());
            proof {
                assert(all.take(i + 1).drop_last() =~= all.take(i as int));
                assert(all.take(i + 1).last() == asset_ids@[i as int]@);
            }
            i += 1;
        }
        assert(all.take(all.len() as int) =~= all);
    }

    /// The assets to subscribe to again after the stream was connected anew.
    pub fn to_resubscribe(&self) -> (r: Vec<String>)
        ensures
            views(r@).no_duplicates(),
            views(r@).to_set() == self@,
    {
        self.subscribed_assets.to_vec()
    }
}

} // verus!
