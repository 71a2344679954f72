//! What both venues have in common: handles, reconnecting and reading errors.
use crate::kalshi::MyKalshiClient;
use crate::models::Platform;
use crate::polymarket::MyPolymarketClient;
use crate::text;
use vstd::prelude::*;

verus! {

/// The clients of both venues.
#[derive(Debug)]
pub struct Platfroms {
    kalshi: MyKalshiClient,
    polymarket: MyPolymarketClient,
}

impl Platfroms {
    /// The Kalshi client.
    pub closed spec fn kalshi_client(&self) -> MyKalshiClient {
        self.kalshi
    }

    /// The Polymarket client.
    pub closed spec fn polymarket_client(&self) -> MyPolymarketClient {
        self.polymarket
    }

    /// Holds both clients.
    pub fn new(k: MyKalshiClient, p: MyPolymarketClient) -> (r: Self)
        ensures
            r.kalshi_client() == k,
            r.polymarket_client() == p,
    {
        Platfroms { kalshi: k, polymarket: p }
    }

    /// The Kalshi client.
    pub fn kalshi(&self) -> (r: &MyKalshiClient)
        ensures
            *r == self.kalshi_client(),
    {
        &self.kalshi
    }

    /// The Polymarket client.
    pub fn polymarket(&self) -> (r: &MyPolymarketClient)
        ensures
            *r == self.polymarket_client(),
    {
        &self.polymarket
    }
}

/// A span of time in words: its two leading units, or one where it is short.
pub open spec fn duration_ago(secs: nat) -> Seq<char> {
    let days = secs / 86_400;
    let hours = (secs % 86_400) / 3_600;
    let minutes = (secs % 3_600) / 60;
    if days > 0 {
        text::numeral(days) + "d "@ + text::numeral(hours) + "h ago"@
    } else if hours > 0 {
        text::numeral(hours) + "h "@ + text::numeral(minutes) + "m ago"@
    } else if minutes > 0 {
        text::numeral(minutes) + "m ago"@
    } else {
        text::numeral(secs) + "s ago"@
    }
}

/// A span is told in days and hours, in hours and minutes, in minutes or in seconds: by
/// its largest unit that is not zero, and the next smaller one for days and hours.
pub proof fn spans_are_told_by_their_largest_unit(days: nat, hours: nat, minutes: nat, secs: nat)
    requires
        hours < 24,
        minutes < 60,
        secs < 60,
    ensures
        ({
            let span = days * 86_400 + hours * 3_600 + minutes * 60 + secs;
            &&& days > 0 ==> duration_ago(span) == text::numeral(days) + "d "@ + text::numeral(
                hours,
            ) + "h ago"@
            &&& days == 0 && hours > 0 ==> duration_ago(span) == text::numeral(hours) + "h "@
                + text::numeral(minutes) + "m ago"@
            &&& days == 0 && hours == 0 && minutes > 0 ==> duration_ago(span) == text::numeral(
                minutes,
            ) + "m ago"@
            &&& days == 0 && hours == 0 && minutes == 0 ==> duration_ago(span) == text::numeral(
                secs,
            ) + "s ago"@
        }),
{
    let span = days * 86_400 + hours * 3_600 + minutes * 60 + secs;
    assert(span / 86_400 == days);
    assert((span % 86_400) / 3_600 == hours);
    assert((span % 3_600) / 60 == minutes);
}

/// Says how long ago something was, given the whole seconds since.
pub fn format_duration_ago(secs: u64) -> (r: String)
    ensures
        r@ == duration_ago(secs as nat),
{
    let days = secs / 86_400;
    let hours = (secs % 86_400) / 3_600;
    let minutes = (secs % 3_600) / 60;
    if days > 0 {
        let mut out = text::u64_text(days);
        out.append("d ");
        text::push_u64(&mut out, hours);
        out.append("h ago");
        out
    } else if hours > 0 {
        let mut out = text::u64_text(hours);
        out.append("h ");
        text::push_u64(&mut out, minutes);
        out.append("m ago");
        out
    } else if minutes > 0 {
        let mut out = text::u64_text(minutes);
        out.append("m ago");
        out
    } else {
        let mut out = text::u64_text(secs);
        out.append("s ago");
        out
    }
}

/// Whether an error text of a venue's stream tells of a broken connection.
pub open spec fn transport_error(platform: Platform, error: Seq<char>) -> bool {
    ||| text::occurs(error, "transport"@)
    ||| text::occurs(error, "Io("@)
    ||| text::occurs(error, "TLS"@)
    ||| platform is Polymarket && text::occurs(error, "BadRecordMac"@)
}

/// A broken connection is told by three words on either venue and by a fourth one on
/// Polymarket alone; a text that holds none of them tells of none.
pub proof fn broken_connections_are_told_by_their_words(error: Seq<char>)
    ensures
        text::occurs(error, "transport"@) || text::occurs(error, "Io("@) || text::occurs(
            error,
            "TLS"@,
        ) <==> transport_error(Platform::Kalshi, error),
        transport_error(Platform::Kalshi, error) ==> transport_error(Platform::Polymarket, error),
        transport_error(Platform::Polymarket, error) && !transport_error(Platform::Kalshi, error)
            <==> text::occurs(error, "BadRecordMac"@) && !transport_error(
            Platform::Kalshi,
            error,
        ),
{
}

/// Whether an error text of a venue's stream tells of a broken connection.
pub fn is_transport_error(platform: Platform, error: &str) -> (r: bool)
    ensures
        r == transport_error(platform, error@),
{
    let common = text::contains(error, "transport") || text::contains(error, "Io(")
        || text::contains(error, "TLS");
    match platform {
        Platform::Kalshi => common,
        Platform::Polymarket => common || text::contains(error, "BadRecordMac"),
    }
}

/// What a venue's stream yields.
#[derive(Debug, Clone, Copy)]
pub enum StreamEvent<'a> {
    /// A message.
    Message,
    /// The end of the stream.
    Ended,
    /// An error, in words.
    Failed(&'a str),
}

/// What is done with what a venue's stream yields.
#[derive(Debug, Clone, Copy, PartialEq, Eq, Structural)]
pub enum StreamAction {
    /// Deal with the message.
    Handle,
    /// Connect again.
    Reconnect,
    /// Note the error and read on.
    Note,
}

/// What is done with what a venue's stream yields.
pub open spec fn action_on(platform: Platform, event: StreamEvent) -> StreamAction {
    match event {
        StreamEvent::Message => StreamAction::Handle,
        StreamEvent::Ended => StreamAction::Reconnect,
        StreamEvent::Failed(error) => if transport_error(platform, error@) {
            StreamAction::Reconnect
        } else {
            StreamAction::Note
        },
    }
}

/// A stream is connected again exactly where it ended or its connection broke; a message
/// is always dealt with, and any other error is only noted.
pub proof fn streams_are_mended_when_broken(platform: Platform, event: StreamEvent)
    ensures
        action_on(platform, event) is Handle <==> event is Message,
        event is Ended ==> action_on(platform, event) is Reconnect,
        event matches StreamEvent::Failed(error) ==> {
            &&& transport_error(platform, error@) <==> action_on(platform, event) is Reconnect
            &&& !transport_error(platform, error@) <==> action_on(platform, event) is Note
        },
{
}

/// Decides what is done with what a venue's stream yields: an end and a broken
/// connection are reason to connect again.
pub fn stream_action(platform: Platform, event: StreamEvent) -> (r: StreamAction)
    ensures
        r == action_on(platform, event),
{
    match event {
        StreamEvent::Message => StreamAction::Handle,
        StreamEvent::Ended => StreamAction::Reconnect,
        StreamEvent::Failed(error) => if is_transport_error(platform, error) {
            StreamAction::Reconnect
        } else {
            StreamAction::Note
        },
    }
}

/// How often a broken stream is reconnected before giving up.
pub const MAX_RECONNECT_ATTEMPTS: u32 = 5;

/// The pause before a reconnect attempt in milliseconds: half a second before the
/// first, and twice as long before each further one.
pub open spec fn backoff_ms(attempt: nat) -> nat
    decreases attempt,
{
    if attempt <= 1 {
        500
    } else {
        2 * backoff_ms((attempt - 1) as nat)
    }
}

/// The first pause is half a second, and each further one is twice the one before it.
pub proof fn pauses_double(attempt: nat)
    requires
        attempt >= 1,
    ensures
        backoff_ms(1) == 500,
        backoff_ms(attempt + 1) == 2 * backoff_ms(attempt),
        backoff_ms(attempt) == 500 * vstd::arithmetic::power2::pow2((attempt - 1) as nat),
    decreases attempt,
{
    if attempt > 1 {
        pauses_double((attempt - 1) as nat);
        vstd::arithmetic::power2::lemma_pow2_unfold((attempt - 1) as nat);
    } else {
        vstd::arithmetic::power2::lemma2_to64();
    }
}

/// The pause before a reconnect attempt, counted from one, in milliseconds; `None`
/// once the attempts are used up.
pub fn reconnect_delay_ms(attempt: u32) -> (r: Option<u64>)
    requires
        attempt >= 1,
    ensures
        r is Some <==> attempt <= MAX_RECONNECT_ATTEMPTS,
        r is Some <==> attempt <= 5,
        r matches Some(ms) ==> ms == backoff_ms(attempt as nat),
{
    if attempt > MAX_RECONNECT_ATTEMPTS {
        return None;
    }
    let mut ms: u64 = 500;
    let mut i: u32 = 1;
    while i < attempt
        invariant
            1 <= i <= attempt <= MAX_RECONNECT_ATTEMPTS,
            ms == backoff_ms(i as nat),
            i == 1 ==> ms == 500,
            i == 2 ==> ms == 1_000,
            i == 3 ==> ms == 2_000,
            i == 4 ==> ms == 4_000,
            i == 5 ==> ms == 8_000,
        decreases attempt - i,
    {
        ms = ms * 2;
        i += 1;
    }
    Some(ms)
}

} // verus!
