//! The state of a Kalshi connection: which markets are subscribed to, and under
//! which subscription ids.
use crate::comms::lifecycle_of;
use crate::ids::views;
use crate::idset::IdSet;
use crate::models::Platform;
use crate::tags::{tag_of, MarketTag};
use crate::text;
use vstd::prelude::*;

verus! {

/// Which markets are subscribed to, and the ids of the channel subscriptions.
#[verifier::ext_equal]
pub struct Subscriptions {
    pub assets: Set<Seq<char>>,
    pub ticker_sid: Option<u64>,
    pub orderbook_sid: Option<u64>,
}

/// The subscription state of a Kalshi connection.
#[derive(Debug)]
pub struct MyKalshiClient {
    subscribed_assets: IdSet,
    ticker_sid: Option<u64>,
    orderbook_sid: Option<u64>,
}

impl View for MyKalshiClient {
    type V = Subscriptions;

    closed spec fn view(&self) -> Subscriptions {
        Subscriptions {
            assets: self.subscribed_assets@,
            ticker_sid: self.ticker_sid,
            orderbook_sid: self.orderbook_sid,
        }
    }
}

/// How a market is added to a channel.
#[derive(Debug, Clone, Copy, PartialEq, Eq, Structural)]
pub enum AddPlan {
    /// It is subscribed to already.
    Nothing,
    /// Open the channel with it.
    Subscribe,
    /// Add it to the open channel with this subscription id.
    AddMarkets(u64),
}

/// How a market is added to a channel that may be open.
pub open spec fn channel_plan(sid: Option<u64>) -> AddPlan {
    match sid {
        None => AddPlan::Subscribe,
        Some(sid) => AddPlan::AddMarkets(sid),
    }
}

/// How a market comes to be followed.
pub open spec fn following_plan(s: Subscriptions, ticker: Seq<char>) -> AddPlan {
    if s.assets.contains(ticker) {
        AddPlan::Nothing
    } else {
        channel_plan(s.orderbook_sid)
    }
}

/// The channels to open after connecting again.
pub open spec fn reopened_channels(s: Subscriptions) -> Seq<&'static str> {
    if s.assets == Set::<Seq<char>>::empty() {
        seq!["market_lifecycle_v2", "ticker"]
    } else {
        seq!["market_lifecycle_v2", "ticker", "orderbook_delta"]
    }
}

/// A market that is followed already is left alone; any other one is added to the order
/// book channel where that is open, under the channel's own id, and opens it otherwise.
pub proof fn markets_join_the_open_channel(s: Subscriptions, ticker: Seq<char>, sid: u64)
    ensures
        s.assets.contains(ticker) <==> following_plan(s, ticker) is Nothing,
        !s.assets.contains(ticker) && s.orderbook_sid == Some(sid) ==> following_plan(s, ticker)
            == AddPlan::AddMarkets(sid),
        !s.assets.contains(ticker) && s.orderbook_sid is None ==> following_plan(s, ticker)
            is Subscribe,
        following_plan(
            confirmed(disconnected(s), "orderbook_delta"@, sid),
            ticker,
        ) is Nothing || following_plan(confirmed(disconnected(s), "orderbook_delta"@, sid), ticker)
            == AddPlan::AddMarkets(sid),
{
    reveal_strlit("ticker");
    reveal_strlit("orderbook_delta");
    assert("ticker"@.len() == 6);
    assert("orderbook_delta"@.len() == 15);
}

/// A confirmed subscription is noted for its own channel only, and where that channel
/// has no id yet.
pub proof fn channels_are_confirmed_apart(s: Subscriptions, sid: u64, channel: Seq<char>)
    ensures
        s.ticker_sid is None ==> confirmed(s, "ticker"@, sid).ticker_sid == Some(sid),
        confirmed(s, "ticker"@, sid).orderbook_sid == s.orderbook_sid,
        s.orderbook_sid is None ==> confirmed(s, "orderbook_delta"@, sid).orderbook_sid == Some(
            sid,
        ),
        confirmed(s, "orderbook_delta"@, sid).ticker_sid == s.ticker_sid,
        channel != "ticker"@ && channel != "orderbook_delta"@ ==> confirmed(s, channel, sid) == s,
{
    reveal_strlit("ticker");
    reveal_strlit("orderbook_delta");
    assert("ticker"@.len() == 6);
    assert("orderbook_delta"@.len() == 15);
}

/// The open ids are exactly those of the two channels that have one.
pub proof fn open_sids_are_those_confirmed(s: Subscriptions, sid: u64)
    ensures
        open_sids(s).contains(sid) <==> s.ticker_sid == Some(sid) || s.orderbook_sid == Some(sid),
{
    let sids = open_sids(s);
    if let Some(t) = s.ticker_sid {
        assert(sids[0] == t);
        if let Some(o) = s.orderbook_sid {
            assert(sids[1] == o);
        }
    } else if let Some(o) = s.orderbook_sid {
        assert(sids[0] == o);
    }
}

/// After connecting again, the lifecycle and ticker channels are always opened, and the
/// order book channel exactly where a market is followed.
pub proof fn every_needed_channel_is_reopened(s: Subscriptions, ticker: Seq<char>)
    ensures
        reopened_channels(s).contains("market_lifecycle_v2"),
        reopened_channels(s).contains("ticker"),
        s.assets.contains(ticker) ==> reopened_channels(s).contains("orderbook_delta"),
        s.assets == Set::<Seq<char>>::empty() ==> reopened_channels(s).len() == 2,
        reopened_channels(s).len() <= 3,
{
    let channels = reopened_channels(s);
    assert(channels[0] == "market_lifecycle_v2");
    assert(channels[1] == "ticker");
    if s.assets.contains(ticker) {
        assert(channels[2] == "orderbook_delta");
    }
}

/// The ids of the open channels.
pub open spec fn open_sids(s: Subscriptions) -> Seq<u64> {
    match (s.ticker_sid, s.orderbook_sid) {
        (Some(t), Some(o)) => seq![t, o],
        (Some(t), None) => seq![t],
        (None, Some(o)) => seq![o],
        (None, None) => Seq::empty(),
    }
}

/// The state once a channel has confirmed its subscription: the first id of a
/// channel is kept.
pub open spec fn confirmed(s: Subscriptions, channel: Seq<char>, sid: u64) -> Subscriptions {
    if channel == "ticker"@ && s.ticker_sid is None {
        Subscriptions { ticker_sid: Some(sid), ..s }
    } else if channel == "orderbook_delta"@ && s.orderbook_sid is None {
        Subscriptions { orderbook_sid: Some(sid), ..s }
    } else {
        s
    }
}

/// The state once the connection is lost: the ids are void, the markets are kept.
pub open spec fn disconnected(s: Subscriptions) -> Subscriptions {
    Subscriptions { assets: s.assets, ticker_sid: None, orderbook_sid: None }
}

/// What is done with an event in the life of a market.
#[derive(Debug, Clone, Copy, PartialEq, Eq, Structural)]
pub enum LifecycleRoute {
    /// Look the market up and store it.
    Discover,
    /// Hand it to the watcher.
    Forward,
    /// Nothing.
    Ignore,
}

/// What is done with an event of this type.
pub open spec fn route_of(event_type: Seq<char>) -> LifecycleRoute {
    if event_type == "created"@ || event_type == "activated"@ {
        LifecycleRoute::Discover
    } else if event_type == "deactivated"@ || event_type == "close_date_updated"@ || event_type
        == "determined"@ || event_type == "settled"@ {
        LifecycleRoute::Forward
    } else {
        LifecycleRoute::Ignore
    }
}

/// What is done with an event of this type.
pub fn lifecycle_route(event_type: &str) -> (r: LifecycleRoute)
    ensures
        r == route_of(event_type@),
{
    if text::same(event_type, "created") || text::same(event_type, "activated") {
        LifecycleRoute::Discover
    } else if text::same(event_type, "deactivated") || text::same(event_type, "close_date_updated")
        || text::same(event_type, "determined") || text::same(event_type, "settled") {
        LifecycleRoute::Forward
    } else {
        LifecycleRoute::Ignore
    }
}

/// The watcher is handed exactly the events that it acts upon.
pub proof fn watcher_gets_what_it_needs(event_type: Seq<char>)
    ensures
        route_of(event_type) is Forward <==> !(lifecycle_of(event_type) is Other),
{
    reveal_strlit("created");
    reveal_strlit("activated");
    reveal_strlit("deactivated");
    reveal_strlit("close_date_updated");
    reveal_strlit("determined");
    reveal_strlit("settled");
    assert("created"@.len() == 7);
    assert("settled"@.len() == 7);
    assert("created"@[0] == 'c');
    assert("settled"@[0] == 's');
    assert("activated"@.len() == 9);
    assert("deactivated"@.len() == 11);
    assert("close_date_updated"@.len() == 18);
    assert("determined"@.len() == 10);
}

/// Whether an error reply is one that is passed over without a word.
pub fn is_ignored_error(message: &str) -> (r: bool)
    ensures
        r == text::same_ignoring_ascii_case(message@, "unable to process message"@),
{
    text::eq_ignore_ascii_case(message, "unable to process message")
}

/// A message of Kalshi's stream, as far as it decides what is done with it.
#[derive(Debug)]
pub enum KalshiMessage {
    /// A channel's subscription was given this id.
    Subscribed(String, u64),
    /// An event of this type in the life of a market.
    Lifecycle(String),
    Ticker,
    Ping,
    Close,
    /// An error reply, in words.
    ErrorReply(String),
    /// A message of no known form.
    Unhandled,
    Other,
}

/// What is done with a message.
#[derive(Debug, Clone, Copy, PartialEq, Eq, Structural)]
pub enum KalshiAction {
    Nothing,
    /// Look the market up and store it.
    Discover,
    /// Hand the message to the watcher.
    Forward,
    /// Answer the ping.
    Pong,
    /// Connect again.
    Reconnect,
    /// Note the message.
    Note,
}

/// What is done with a message.
pub open spec fn kalshi_action(message: KalshiMessage) -> KalshiAction {
    match message {
        KalshiMessage::Subscribed(_, _) => KalshiAction::Nothing,
        KalshiMessage::Lifecycle(event_type) => match route_of(event_type@) {
            LifecycleRoute::Discover => KalshiAction::Discover,
            LifecycleRoute::Forward => KalshiAction::Forward,
            LifecycleRoute::Ignore => KalshiAction::Nothing,
        },
        KalshiMessage::Ticker => KalshiAction::Forward,
        KalshiMessage::Ping => KalshiAction::Pong,
        KalshiMessage::Close => KalshiAction::Reconnect,
        KalshiMessage::ErrorReply(text) => if text::same_ignoring_ascii_case(
            text@,
            "unable to process message"@,
        ) {
            KalshiAction::Nothing
        } else {
            KalshiAction::Note
        },
        KalshiMessage::Unhandled => KalshiAction::Note,
        KalshiMessage::Other => KalshiAction::Nothing,
    }
}

/// The state once a message has come: only a confirmed subscription changes it.
pub open spec fn informed(s: Subscriptions, message: KalshiMessage) -> Subscriptions {
    match message {
        KalshiMessage::Subscribed(channel, sid) => confirmed(s, channel@, sid),
        _ => s,
    }
}

/// The topic of the first tag that identifies one.
pub open spec fn first_topic(platform: Platform, tags: Seq<Seq<char>>) -> Option<MarketTag>
    decreases tags.len(),
{
    if tags.len() == 0 {
        None
    } else {
        match tag_of(platform, text::trimmed(tags[0])) {
            Some(tag) => Some(tag),
            None => first_topic(platform, tags.subrange(1, tags.len() as int)),
        }
    }
}

/// The first tag that, trimmed, identifies a topic decides; the tags behind it do not
/// matter, and there is no topic only where no tag identifies one.
pub proof fn the_first_known_tag_decides(platform: Platform, tags: Seq<Seq<char>>, i: int)
    requires
        0 <= i < tags.len(),
        forall|j: int|
            0 <= j < i ==> tag_of(platform, text::trimmed(#[trigger] tags[j])) is None,
    ensures
        tag_of(platform, text::trimmed(tags[i])) is Some ==> first_topic(platform, tags) == tag_of(
            platform,
            text::trimmed(tags[i]),
        ),
        i == tags.len() - 1 && tag_of(platform, text::trimmed(tags[i])) is None ==> first_topic(
            platform,
            tags,
        ) is None,
    decreases tags.len(),
{
    reveal_with_fuel(first_topic, 2);
    let rest = tags.subrange(1, tags.len() as int);
    if i > 0 {
        assert(tag_of(platform, text::trimmed(tags[0])) is None);
        assert(rest[i - 1] == tags[i]);
        assert forall|j: int| 0 <= j < i - 1 implies tag_of(
            platform,
            text::trimmed(#[trigger] rest[j]),
        ) is None by {
            assert(rest[j] == tags[j + 1]);
        }
        the_first_known_tag_decides(platform, rest, i - 1);
    }
}

/// Only a confirmed subscription changes the state. Prices, and the events that the
/// watcher needs, go to the watcher; new markets are looked up; a ping is answered and
/// a closed connection made again. Errors are noted but for the one that is ignored.
pub proof fn messages_go_where_they_belong(s: Subscriptions, message: KalshiMessage)
    ensures
        message !is Subscribed ==> informed(s, message) == s,
        message matches KalshiMessage::Subscribed(channel, sid) ==> informed(s, message)
            == confirmed(s, channel@, sid),
        kalshi_action(message) is Pong <==> message is Ping,
        kalshi_action(message) is Reconnect <==> message is Close,
        message is Ticker ==> kalshi_action(message) is Forward,
        message matches KalshiMessage::Lifecycle(e) ==> {
            &&& e@ == "created"@ || e@ == "activated"@ ==> kalshi_action(message) is Discover
            &&& lifecycle_of(e@) !is Other ==> kalshi_action(message) is Forward
        },
        kalshi_action(message) is Discover ==> (message matches KalshiMessage::Lifecycle(e) && (e@
            == "created"@ || e@ == "activated"@)),
        kalshi_action(message) is Note <==> message is Unhandled || (message matches
            KalshiMessage::ErrorReply(e) && !text::same_ignoring_ascii_case(
            e@,
            "unable to process message"@,
        )),
{
    if let KalshiMessage::Lifecycle(e) = message {
        watcher_gets_what_it_needs(e@);
    }
}

/// The topic of the first tag that, trimmed, identifies one.
pub fn sort_tags(platform: Platform, tags: &Vec<String>) -> (r: Option<MarketTag>)
    ensures
        r == first_topic(platform, views(tags@)),
{
    let ghost all = views(tags@);
    assert(all.subrange(0, all.len() as int) =~= all);
    let mut i: usize = 0;
    while i < tags.len()
        invariant
            i <= tags@.len(),
            all == views(tags@),
            first_topic(platform, all) == first_topic(
                platform,
                all.subrange(i as int, all.len() as int),
            ),
        decreases tags@.len() - i,
    {
        let found = MarketTag::lookup(platform, text::trim(tags[i].as_str()));
        proof {
            let rest = all.subrange(i as int, all.len() as int);
            assert(rest[0] == tags@[i as int]@);
            assert(rest.subrange(1, rest.len() as int) =~= all.subrange(i + 1, all.len() as int));
        }
        if found.is_some() {
            return found;
        }
        i += 1;
    }
    None
}

/// The topic of a Kalshi series, if it has tags and one identifies it.
pub fn sort_kalshi_tags(tags: &Option<Vec<String>>) -> (r: Option<MarketTag>)
    ensures
        r == match *tags {
            Some(list) => first_topic(Platform::Kalshi, views(list@)),
            None => None,
        },
{
    match tags {
        Some(list) => sort_tags(Platform::Kalshi, list),
        None => None,
    }
}

impl MyKalshiClient {
    /// Nothing subscribed to.
    pub fn new() -> (r: Self)
        ensures
            r@ == (Subscriptions {
                assets: Set::<Seq<char>>::empty(),
                ticker_sid: None,
                orderbook_sid: None,
            }),
    {
        MyKalshiClient { subscribed_assets: IdSet::new(), ticker_sid: None, orderbook_sid: None }
    }

    /// Whether the market is subscribed to.
    pub fn is_asset_subscribed(&self, asset_id: &str) -> (r: bool)
        ensures
            r == self@.assets.contains(asset_id@),
    {
        self.subscribed_assets.contains(asset_id)
    }

    /// Notes that the market is subscribed to; says whether that is new.
    pub fn insert_subscribed_asset(&mut self, asset_id: String) -> (r: bool)
        ensures
            final(self)@ == (Subscriptions {
                assets: old(self)@.assets.insert(asset_id@),
                ..old(self)@
            }),
            r == !old(self)@.assets.contains(asset_id@),
    {
        self.subscribed_assets.insert(asset_id)
    }

    /// Notes that the market is no longer subscribed to; says whether it was.
    pub fn remove_subscribed_asset(&mut self, asset_id: &str) -> (r: bool)
        ensures
            final(self)@ == (Subscriptions {
                assets: old(self)@.assets.remove(asset_id@),
                ..old(self)@
            }),
            r == old(self)@.assets.contains(asset_id@),
    {
        self.subscribed_assets.remove(asset_id)
    }

    /// How a market is added to the ticker channel.
    pub fn subscribe_ticker_channel(&self) -> (r: AddPlan)
        ensures
            r == channel_plan(self@.ticker_sid),
    {
        match self.ticker_sid {
            None => AddPlan::Subscribe,
            Some(sid) => AddPlan::AddMarkets(sid),
        }
    }

    /// How a market is added to the order book channel.
    pub fn subscribe_orderbook_channel(&self) -> (r: AddPlan)
        ensures
            r == channel_plan(self@.orderbook_sid),
    {
        match self.orderbook_sid {
            None => AddPlan::Subscribe,
            Some(sid) => AddPlan::AddMarkets(sid),
        }
    }

    /// How a market comes to be followed: not at all if it is already, else on the
    /// order book channel.
    pub fn add_market_ticker(&self, ticker: &str) -> (r: AddPlan)
        ensures
            r == following_plan(self@, ticker@),
    {
        if self.is_asset_subscribed(ticker) {
            AddPlan::Nothing
        } else {
            self.subscribe_orderbook_channel()
        }
    }

    /// Stops following a market; gives the ids of the channels to remove it from.
    pub fn del_market_ticker(&mut self, ticker: &str) -> (r: Vec<u64>)
        ensures
            final(self)@ == (Subscriptions {
                assets: old(self)@.assets.remove(ticker@),
                ..old(self)@
            }),
            r@ == open_sids(old(self)@),
    {
        self.remove_subscribed_asset(ticker);
        let mut sids: Vec<u64> = Vec::new();
        if let Some(sid) = self.ticker_sid {
            sids.push(sid);
        }
        if let Some(sid) = self.orderbook_sid {
            sids.push(sid);
        }
        assert(sids@ =~= open_sids(old(self)@));
        sids
    }

    /// Notes the id that a channel's subscription was given, unless the channel has
    /// one already.
    pub fn on_subscribed(&mut self, channel: &str, sid: u64)
        ensures
            final(self)@ == confirmed(old(self)@, channel@, sid),
    {
        proof {
            reveal_strlit("ticker");
            reveal_strlit("orderbook_delta");
            assert("ticker"@.len() == 6);
            assert("orderbook_delta"@.len() == 15);
        }
        if text::same(channel, "ticker") {
            if self.ticker_sid.is_none() {
                self.ticker_sid = Some(sid);
            }
        } else if text::same(channel, "orderbook_delta") {
            if self.orderbook_sid.is_none() {
                self.orderbook_sid = Some(sid);
            }
        }
    }

    /// Takes in a message and decides what is done with it.
    pub fn on_message(&mut self, message: &KalshiMessage) -> (r: KalshiAction)
        ensures
            final(self)@ == informed(old(self)@, *message),
            r == kalshi_action(*message),
    {
        match message {
            KalshiMessage::Subscribed(channel, sid) => {
                self.on_subscribed(channel.as_str(), *sid);
                KalshiAction::Nothing
            },
            KalshiMessage::Lifecycle(event_type) => match lifecycle_route(event_type.as_str()) {
                LifecycleRoute::Discover => KalshiAction::Discover,
                LifecycleRoute::Forward => KalshiAction::Forward,
                LifecycleRoute::Ignore => KalshiAction::Nothing,
            },
            KalshiMessage::Ticker => KalshiAction::Forward,
            KalshiMessage::Ping => KalshiAction::Pong,
            KalshiMessage::Close => KalshiAction::Reconnect,
            KalshiMessage::ErrorReply(text) => if is_ignored_error(text.as_str()) {
                KalshiAction::Nothing
            } else {
                KalshiAction::Note
            },
            KalshiMessage::Unhandled => KalshiAction::Note,
            KalshiMessage::Other => KalshiAction::Nothing,
        }
    }

    /// The channels to open after connecting again: those for the lifecycle and the
    /// prices of all markets, and the order book channel if there are markets to
    /// follow.
    pub fn channels_to_reopen(&self) -> (r: Vec<&'static str>)
        ensures
            r@ == reopened_channels(self@),
    {
        let mut channels: Vec<&'static str> = Vec::new();
        channels.push("market_lifecycle_v2");
        channels.push("ticker");
        if !self.subscribed_assets.is_empty() {
            channels.push("orderbook_delta");
        }
        channels
    }

    /// The markets to open a channel with after connecting again: those followed for
    /// the order book channel, and none for a channel that runs without a filter.
    pub fn markets_to_reopen(&self, channel: &str) -> (r: Vec<String>)
        ensures
            views(r@).no_duplicates(),
            views(r@).to_set() == if channel@ == "orderbook_delta"@ {
                self@.assets
            } else {
                Set::<Seq<char>>::empty()
            },
    {
        if text::same(channel, "orderbook_delta") {
            self.subscribed_assets.to_vec()
        } else {
            let none: Vec<String> = Vec::new();
            assert(views(none@) =~= Seq::<Seq<char>>::empty());
            assert(views(none@).to_set() =~= Set::<Seq<char>>::empty());
            none
        }
    }

    /// Voids the subscription ids after the connection was lost; gives the markets
    /// to subscribe to again.
    pub fn on_disconnected(&mut self) -> (r: Vec<String>)
        ensures
            final(self)@ == disconnected(old(self)@),
            views(r@).no_duplicates(),
            views(r@).to_set() == old(self)@.assets,
    {
        self.ticker_sid = None;
        self.orderbook_sid = None;
        self.subscribed_assets.to_vec()
    }
}

/// A channel's subscription id stays what it was first confirmed as until the
/// connection is lost.
pub proof fn first_sid_is_kept(s: Subscriptions, channel: Seq<char>, sid: u64)
    ensures
        s.ticker_sid is Some ==> confirmed(s, channel, sid).ticker_sid == s.ticker_sid,
        s.orderbook_sid is Some ==> confirmed(s, channel, sid).orderbook_sid == s.orderbook_sid,
        confirmed(s, channel, sid).assets == s.assets,
{
}

/// After a lost connection no stale subscription id is used, and the next market
/// opens its channel anew.
pub proof fn no_stale_sids(s: Subscriptions)
    ensures
        open_sids(disconnected(s)) == Seq::<u64>::empty(),
        channel_plan(disconnected(s).orderbook_sid) == AddPlan::Subscribe,
        channel_plan(disconnected(s).ticker_sid) == AddPlan::Subscribe,
        disconnected(s).assets == s.assets,
{
}

} // verus!
