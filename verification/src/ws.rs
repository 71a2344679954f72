//! The life of a plain WebSocket connection: when it may be written to, and what an
//! incoming frame asks for.
use crate::text;
use vstd::prelude::*;

verus! {

/// Where a connection stands.
#[derive(Debug, Clone, Copy, PartialEq, Eq, Structural)]
pub enum ConnectionStatus {
    /// Attempting to connect.
    Connecting,
    /// Successfully connected.
    Connected,
    /// Disconnected from server.
    Disconnected,
}

/// What came in.
#[derive(Debug, Clone, Copy, PartialEq, Eq, Structural)]
pub enum Frame {
    /// A text without content, or the server's answer to a ping.
    KeepAlive,
    /// Any other text.
    Text,
    Ping,
    Pong,
    Close,
    /// The stream failed.
    Failed,
    /// The stream is over.
    Ended,
    /// Anything else.
    Other,
}

/// What an incoming frame asks for.
#[derive(Debug, Clone, Copy, PartialEq, Eq, Structural)]
pub enum FrameAction {
    /// Read on.
    ReadOn,
    /// Hand the text over.
    Deliver,
    /// Answer with a pong and read on.
    AnswerPing,
    /// Report that the connection is gone.
    Fail,
}

/// What an incoming frame asks for.
pub open spec fn action_for(frame: Frame) -> FrameAction {
    match frame {
        Frame::KeepAlive | Frame::Pong | Frame::Other => FrameAction::ReadOn,
        Frame::Text => FrameAction::Deliver,
        Frame::Ping => FrameAction::AnswerPing,
        Frame::Close | Frame::Failed | Frame::Ended => FrameAction::Fail,
    }
}

/// A connection is reported as gone exactly where the server closed it or the stream
/// failed or is over; only a text with content is handed over and only a ping answered.
pub proof fn frames_ask_for_what_they_need(frame: Frame)
    ensures
        action_for(frame) is Fail <==> frame is Close || frame is Failed || frame is Ended,
        action_for(frame) is Deliver <==> frame is Text,
        action_for(frame) is AnswerPing <==> frame is Ping,
        action_for(frame) is ReadOn <==> frame is KeepAlive || frame is Pong || frame is Other,
{
}

/// What kind of frame a text is.
pub fn text_frame(content: &str) -> (r: Frame)
    ensures
        r == if content@ == "PONG"@ || content@.len() == 0 {
            Frame::KeepAlive
        } else {
            Frame::Text
        },
{
    if text::same(content, "PONG") || content.is_empty() {
        Frame::KeepAlive
    } else {
        Frame::Text
    }
}

/// Whether `serde_json::from_str` reads the text as a JSON value.
pub uninterp spec fn is_json(text: Seq<char>) -> bool;

/// Calls `serde_json::from_str` for a JSON value of any kind and keeps whether it
/// succeeded, which is named [`is_json`].
#[verifier::external_body]
pub(crate) fn parse_json(text: &str) -> (r: bool)
    ensures
        r == is_json(text@),
{
    serde_json::from_str::<serde_json::Value>(text).is_ok()
}

/// A text that is not JSON.
#[derive(Debug, Clone, Copy, PartialEq, Eq, Structural)]
pub struct NotJson;

/// What a text frame is, given whether its content is JSON: content that is to be
/// handed over has to be.
pub open spec fn text_read(content: Seq<char>, json: bool) -> Result<Frame, NotJson> {
    if content == "PONG"@ || content.len() == 0 {
        Ok(Frame::KeepAlive)
    } else if json {
        Ok(Frame::Text)
    } else {
        Err(NotJson)
    }
}

/// An empty text and the answer to a ping keep the connection alive, JSON or not; every
/// other text is handed over exactly where it is JSON.
pub proof fn texts_are_handed_over_as_json(content: Seq<char>, json: bool)
    ensures
        content.len() == 0 || content == "PONG"@ ==> text_read(content, json) == Ok::<
            Frame,
            NotJson,
        >(Frame::KeepAlive),
        content.len() > 0 && content != "PONG"@ ==> {
            &&& json <==> text_read(content, json) == Ok::<Frame, NotJson>(Frame::Text)
            &&& !json <==> text_read(content, json) is Err
        },
{
}

/// What a text frame is, given whether its content is JSON.
pub fn accept_text(content: &str, json: bool) -> (r: Result<Frame, NotJson>)
    ensures
        r == text_read(content@, json),
{
    match text_frame(content) {
        Frame::KeepAlive => Ok(Frame::KeepAlive),
        frame => if json {
            Ok(frame)
        } else {
            Err(NotJson)
        },
    }
}

/// What a text frame is: a text that neither keeps the connection alive nor is JSON
/// is an error.
pub fn read_text(content: &str) -> (r: Result<Frame, NotJson>)
    ensures
        r == text_read(content@, is_json(content@)),
{
    accept_text(content, parse_json(content))
}

/// A connection to a server.
#[derive(Debug)]
pub struct ManageWS {
    base_url: String,
    ping_interval_ms: u64,
    auto_reconnect: bool,
    status: ConnectionStatus,
}

impl ManageWS {
    /// Where the connection stands.
    pub closed spec fn state(&self) -> ConnectionStatus {
        self.status
    }

    /// The address of the server.
    pub closed spec fn url(&self) -> Seq<char> {
        self.base_url@
    }

    /// The pause between two pings in milliseconds, and whether to reconnect.
    pub closed spec fn settings(&self) -> (u64, bool) {
        (self.ping_interval_ms, self.auto_reconnect)
    }

    /// A connection that has not been made yet.
    pub fn new(base_url: &str, ping_interval_ms: u64, auto_reconnect: bool) -> (r: Self)
        ensures
            r.state() == ConnectionStatus::Disconnected,
            r.url() == base_url@,
            r.settings() == (ping_interval_ms, auto_reconnect),
    {
        ManageWS {
            base_url: base_url.to_owned(),
            ping_interval_ms,
            auto_reconnect,
            status: ConnectionStatus::Disconnected,
        }
    }

    /// Notes that the connection was made.
    pub fn on_connected(&mut self)
        ensures
            final(self).state() == ConnectionStatus::Connected,
            final(self).url() == old(self).url(),
            final(self).settings() == old(self).settings(),
    {
        self.status = ConnectionStatus::Connected;
    }

    /// Whether frames may be sent and read, and pings keep going.
    pub fn is_connected(&self) -> (r: bool)
        ensures
            r == (self.state() == ConnectionStatus::Connected),
    {
        match self.status {
            ConnectionStatus::Connected => true,
            _ => false,
        }
    }

    /// Deals with an incoming frame: one that ends the stream disconnects.
    pub fn on_frame(&mut self, frame: Frame) -> (r: FrameAction)
        ensures
            r == action_for(frame),
            final(self).state() == if r is Fail {
                ConnectionStatus::Disconnected
            } else {
                old(self).state()
            },
            final(self).url() == old(self).url(),
            final(self).settings() == old(self).settings(),
    {
        match frame {
            Frame::KeepAlive | Frame::Pong | Frame::Other => FrameAction::ReadOn,
            Frame::Text => FrameAction::Deliver,
            Frame::Ping => FrameAction::AnswerPing,
            Frame::Close | Frame::Failed | Frame::Ended => {
                self.status = ConnectionStatus::Disconnected;
                FrameAction::Fail
            },
        }
    }

    /// The address of the server.
    pub fn base_url(&self) -> (r: &str)
        ensures
            r@ == self.url(),
    {
        self.base_url.as_str()
    }

    /// The pause between two pings in milliseconds.
    pub fn ping_interval(&self) -> (r: u64)
        ensures
            r == self.settings().0,
    {
        self.ping_interval_ms
    }

    /// Whether a lost connection is to be made again.
    pub fn auto_reconnect(&self) -> (r: bool)
        ensures
            r == self.settings().1,
    {
        self.auto_reconnect
    }
}

} // verus!
