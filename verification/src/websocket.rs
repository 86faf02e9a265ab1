//! Supervised, reconnecting streams.
//!
//! A [`StreamSupervisor`] owns the lifecycle of one subscription. It performs
//! no I/O itself: it is told what happened ([`Event`]) and answers with the
//! one thing to do next ([`Action`]). Whoever drives it opens the transport,
//! reads frames, pushes envelopes onto the subscription's bounded channel and
//! sleeps, and reports each outcome back.

use vstd::prelude::*;
use vstd::string::*;
use vstd::arithmetic::power2::{pow2, lemma2_to64};
use crate::config::BinanceConfig;
use crate::decode::{decode, decoded, envelope_view, DomainEventView, Envelope, StreamKind};
use crate::endpoints::WebSocketStreams;
use crate::error::{Error, ErrorView};
use crate::models::Interval;
use crate::text::{join2, lowercase};

verus! {

/// Entries that a subscription's output channel holds before a push blocks.
pub const CHANNEL_CAPACITY: usize = 100;

/// Connection attempts per cycle before the cycle's connect error surfaces.
pub const CONNECT_ATTEMPTS: u32 = 5;

/// The fixed delay between the end of one connection and the next cycle, in
/// milliseconds.
pub const RECONNECT_DELAY_MS: u64 = 5000;

/// The state of a subscription.
#[derive(Debug, Clone, Copy, PartialEq, Eq, Structural)]
pub enum StreamState {
    Connecting,
    Active,
    Backoff,
    Closed,
}

/// One inbound frame of a transport.
#[derive(Debug, Clone, PartialEq, Eq)]
pub enum Frame {
    /// A data frame.
    Text(String),
    /// A keepalive probe, to be answered with a pong of the same payload.
    Ping(Vec<u8>),
    /// The peer closes the connection.
    Close,
    /// Any other frame: binary data, a pong.
    Other,
}

/// The mathematical value of a [`Frame`].
pub enum FrameView {
    Text(Seq<char>),
    Ping(Seq<u8>),
    Close,
    Other,
}

impl View for Frame {
    type V = FrameView;

    open spec fn view(&self) -> FrameView {
        match *self {
            Frame::Text(s) => FrameView::Text(s@),
            Frame::Ping(d) => FrameView::Ping(d@),
            Frame::Close => FrameView::Close,
            Frame::Other => FrameView::Other,
        }
    }
}

/// What happened since the supervisor's last action.
#[derive(Debug, Clone, PartialEq, Eq)]
pub enum Event {
    /// The transport is open.
    Connected,
    /// The attempt to open the transport failed, with the transport's words.
    ConnectFailed(String),
    /// A frame was read, at this time (milliseconds since the Unix epoch).
    Frame { frame: Frame, received_at: i64 },
    /// Reading failed, with the transport's words.
    ReadFailed(String),
    /// The transport has no more frames.
    StreamEnded,
    /// The envelope is on the channel.
    Delivered,
    /// The push failed: the consumer has dropped its end of the channel.
    ConsumerGone,
    /// The pong was sent.
    PongSent,
    /// Sending the pong failed, with the transport's words.
    PongFailed(String),
    /// The delay has passed.
    DelayElapsed,
    /// The transport is closed and released.
    Released,
    /// The caller cancels the subscription.
    Cancelled,
}

/// The mathematical value of an [`Event`].
pub enum EventView {
    Connected,
    ConnectFailed(Seq<char>),
    Frame { frame: FrameView, received_at: i64 },
    ReadFailed(Seq<char>),
    StreamEnded,
    Delivered,
    ConsumerGone,
    PongSent,
    PongFailed(Seq<char>),
    DelayElapsed,
    Released,
    Cancelled,
}

impl View for Event {
    type V = EventView;

    open spec fn view(&self) -> EventView {
        match *self {
            Event::Connected => EventView::Connected,
            Event::ConnectFailed(s) => EventView::ConnectFailed(s@),
            Event::Frame { frame, received_at } => EventView::Frame { frame: frame@, received_at },
            Event::ReadFailed(s) => EventView::ReadFailed(s@),
            Event::StreamEnded => EventView::StreamEnded,
            Event::Delivered => EventView::Delivered,
            Event::ConsumerGone => EventView::ConsumerGone,
            Event::PongSent => EventView::PongSent,
            Event::PongFailed(s) => EventView::PongFailed(s@),
            Event::DelayElapsed => EventView::DelayElapsed,
            Event::Released => EventView::Released,
            Event::Cancelled => EventView::Cancelled,
        }
    }
}

/// The one thing to do next.
#[derive(Debug, PartialEq, Eq)]
pub enum Action {
    /// Open a transport to the URL.
    Connect { url: String },
    /// Read the next frame.
    Read,
    /// Answer a ping with a pong of this payload.
    Pong(Vec<u8>),
    /// Push the envelope onto the channel, waiting while the channel is full.
    Deliver(Envelope),
    /// Wait this many milliseconds.
    Sleep { millis: u64 },
    /// Close and release the transport.
    Release,
    /// The subscription is over: do nothing more.
    Stop,
    /// The event was out of turn: go on waiting for the outcome of the
    /// action before.
    Wait,
}

/// The mathematical value of an [`Action`].
pub enum ActionView {
    Connect { url: Seq<char> },
    Read,
    Pong(Seq<u8>),
    Deliver(std::result::Result<DomainEventView, ErrorView>),
    Sleep { millis: u64 },
    Release,
    Stop,
    Wait,
}

impl View for Action {
    type V = ActionView;

    open spec fn view(&self) -> ActionView {
        match *self {
            Action::Connect { url } => ActionView::Connect { url: url@ },
            Action::Read => ActionView::Read,
            Action::Pong(d) => ActionView::Pong(d@),
            Action::Deliver(e) => ActionView::Deliver(envelope_view(e)),
            Action::Sleep { millis } => ActionView::Sleep { millis },
            Action::Release => ActionView::Release,
            Action::Stop => ActionView::Stop,
            Action::Wait => ActionView::Wait,
        }
    }
}

/// Where a subscription stands: its state, and within it the action whose
/// outcome is awaited.
#[derive(Debug, Clone, PartialEq, Eq)]
pub enum Phase {
    /// Created, not started.
    Idle,
    /// Connection attempt number `attempt` of this cycle is under way.
    Connecting { attempt: u32 },
    /// Attempt number `attempt` failed; the delay before the next is running.
    RetryDelay { attempt: u32 },
    /// A read is under way.
    Reading,
    /// The envelope of a frame is being pushed onto the channel.
    Delivering,
    /// A pong is being sent.
    Ponging,
    /// The connection ended with `fault`; the transport is being released.
    Releasing { fault: Error },
    /// The error that ended the cycle is being pushed onto the channel.
    Reporting,
    /// The fixed delay before the next cycle is running.
    Backoff,
    /// Over, for good.
    Closed,
}

/// The mathematical value of a [`Phase`].
pub enum PhaseView {
    Idle,
    Connecting { attempt: u32 },
    RetryDelay { attempt: u32 },
    Reading,
    Delivering,
    Ponging,
    Releasing { fault: ErrorView },
    Reporting,
    Backoff,
    Closed,
}

impl View for Phase {
    type V = PhaseView;

    open spec fn view(&self) -> PhaseView {
        match *self {
            Phase::Idle => PhaseView::Idle,
            Phase::Connecting { attempt } => PhaseView::Connecting { attempt },
            Phase::RetryDelay { attempt } => PhaseView::RetryDelay { attempt },
            Phase::Reading => PhaseView::Reading,
            Phase::Delivering => PhaseView::Delivering,
            Phase::Ponging => PhaseView::Ponging,
            Phase::Releasing { fault } => PhaseView::Releasing { fault: fault@ },
            Phase::Reporting => PhaseView::Reporting,
            Phase::Backoff => PhaseView::Backoff,
            Phase::Closed => PhaseView::Closed,
        }
    }
}

impl PhaseView {
    /// The state that the phase belongs to.
    pub open spec fn state(self) -> StreamState {
        match self {
            PhaseView::Idle | PhaseView::Connecting { .. } | PhaseView::RetryDelay { .. } =>
                StreamState::Connecting,
            PhaseView::Reading | PhaseView::Delivering | PhaseView::Ponging => StreamState::Active,
            PhaseView::Releasing { .. } | PhaseView::Reporting | PhaseView::Backoff =>
                StreamState::Backoff,
            PhaseView::Closed => StreamState::Closed,
        }
    }

    /// Whether a transport is open in this phase.
    pub open spec fn holds_transport(self) -> bool {
        self is Reading || self is Delivering || self is Ponging
    }

    /// Attempt numbers stay within a cycle's limit.
    pub open spec fn well_formed(self) -> bool {
        match self {
            PhaseView::Connecting { attempt } => 1 <= attempt <= CONNECT_ATTEMPTS,
            PhaseView::RetryDelay { attempt } => 1 <= attempt < CONNECT_ATTEMPTS,
            _ => true,
        }
    }
}

/// The delay after failed connection attempt number `attempt`: `2^(attempt-1)`
/// seconds, in milliseconds.
pub open spec fn connect_delay_ms(attempt: nat) -> nat {
    1000 * pow2((attempt - 1) as nat)
}

/// The error of a cycle whose connection attempts are used up.
pub open spec fn connect_exhausted(reason: Seq<char>) -> ErrorView {
    ErrorView::WebSocketError("Failed to connect after 5 attempts: "@ + reason)
}

/// What a subscription of `kind` for `symbol` at `url` does in `phase` when
/// `event` is reported: the phase it moves to and the action it asks for.
pub open spec fn transition(
    kind: StreamKind,
    symbol: Seq<char>,
    url: Seq<char>,
    phase: PhaseView,
    event: EventView,
) -> (PhaseView, ActionView) {
    if phase is Closed {
        (PhaseView::Closed, ActionView::Stop)
    } else if event is Cancelled {
        (
            PhaseView::Closed,
            if phase.holds_transport() {
                ActionView::Release
            } else {
                ActionView::Stop
            },
        )
    } else {
        match (phase, event) {
            (PhaseView::Connecting { attempt }, EventView::Connected) => (
                PhaseView::Reading,
                ActionView::Read,
            ),
            (PhaseView::Connecting { attempt }, EventView::ConnectFailed(reason)) => if attempt
                >= CONNECT_ATTEMPTS {
                (PhaseView::Reporting, ActionView::Deliver(Err(connect_exhausted(reason))))
            } else {
                (
                    PhaseView::RetryDelay { attempt },
                    ActionView::Sleep { millis: connect_delay_ms(attempt as nat) as u64 },
                )
            },
            (PhaseView::RetryDelay { attempt }, EventView::DelayElapsed) => (
                PhaseView::Connecting { attempt: (attempt + 1) as u32 },
                ActionView::Connect { url },
            ),
            (PhaseView::Reading, EventView::Frame { frame, received_at }) => match frame {
                FrameView::Text(text) => (
                    PhaseView::Delivering,
                    ActionView::Deliver(decoded(kind, symbol, text, received_at)),
                ),
                FrameView::Ping(payload) => (PhaseView::Ponging, ActionView::Pong(payload)),
                FrameView::Close => (
                    PhaseView::Releasing { fault: ErrorView::WebSocketClosed },
                    ActionView::Release,
                ),
                FrameView::Other => (PhaseView::Reading, ActionView::Read),
            },
            (PhaseView::Reading, EventView::ReadFailed(reason)) => (
                PhaseView::Releasing { fault: ErrorView::WebSocketError(reason) },
                ActionView::Release,
            ),
            (PhaseView::Reading, EventView::StreamEnded) => (
                PhaseView::Releasing { fault: ErrorView::WebSocketClosed },
                ActionView::Release,
            ),
            (PhaseView::Delivering, EventView::Delivered) => (PhaseView::Reading, ActionView::Read),
            (PhaseView::Delivering, EventView::ConsumerGone) => (
                PhaseView::Closed,
                ActionView::Release,
            ),
            (PhaseView::Ponging, EventView::PongSent) => (PhaseView::Reading, ActionView::Read),
            (PhaseView::Ponging, EventView::PongFailed(reason)) => (
                PhaseView::Releasing { fault: ErrorView::WebSocketError(reason) },
                ActionView::Release,
            ),
            (PhaseView::Releasing { fault }, EventView::Released) => (
                PhaseView::Reporting,
                ActionView::Deliver(Err(fault)),
            ),
            (PhaseView::Reporting, EventView::Delivered) => (
                PhaseView::Backoff,
                ActionView::Sleep { millis: RECONNECT_DELAY_MS },
            ),
            (PhaseView::Reporting, EventView::ConsumerGone) => (
                PhaseView::Closed,
                ActionView::Stop,
            ),
            (PhaseView::Backoff, EventView::DelayElapsed) => (
                PhaseView::Connecting { attempt: 1 },
                ActionView::Connect { url },
            ),
            _ => (phase, ActionView::Wait),
        }
    }
}

/// The delay after failed attempt number `attempt` of a cycle.
pub fn connect_delay(attempt: u32) -> (millis: u64)
    requires
        1 <= attempt < CONNECT_ATTEMPTS,
    ensures
        millis == connect_delay_ms(attempt as nat),
{
    proof {
        lemma2_to64();
    }
    if attempt == 1 {
        1000
    } else if attempt == 2 {
        2000
    } else if attempt == 3 {
        4000
    } else {
        8000
    }
}

/// One step of a subscription: see [`transition`].
pub fn advance(kind: StreamKind, symbol: &str, url: &str, phase: Phase, event: Event) -> (r: (
    Phase,
    Action,
))
    requires
        phase@.well_formed(),
    ensures
        (r.0@, r.1@) == transition(kind, symbol@, url@, phase@, event@),
        r.0@.well_formed(),
{
    match phase {
        Phase::Closed => (Phase::Closed, Action::Stop),
        Phase::Idle => match event {
            Event::Cancelled => (Phase::Closed, Action::Stop),
            _ => (Phase::Idle, Action::Wait),
        },
        Phase::Connecting { attempt } => match event {
            Event::Cancelled => (Phase::Closed, Action::Stop),
            Event::Connected => (Phase::Reading, Action::Read),
            Event::ConnectFailed(reason) => {
                if attempt >= CONNECT_ATTEMPTS {
                    let message = join2("Failed to connect after 5 attempts: ", reason.as_str());
                    (Phase::Reporting, Action::Deliver(Err(Error::WebSocketError(message))))
                } else {
                    (
                        Phase::RetryDelay { attempt },
                        Action::Sleep { millis: connect_delay(attempt) },
                    )
                }
            },
            _ => (Phase::Connecting { attempt }, Action::Wait),
        },
        Phase::RetryDelay { attempt } => match event {
            Event::Cancelled => (Phase::Closed, Action::Stop),
            Event::DelayElapsed => (
                Phase::Connecting { attempt: attempt + 1 },
                Action::Connect { url: url.to_owned() },
            ),
            _ => (Phase::RetryDelay { attempt }, Action::Wait),
        },
        Phase::Reading => match event {
            Event::Cancelled => (Phase::Closed, Action::Release),
            Event::Frame { frame, received_at } => match frame {
                Frame::Text(text) => (
                    Phase::Delivering,
                    Action::Deliver(decode(kind, symbol, text.as_str(), received_at)),
                ),
                Frame::Ping(payload) => (Phase::Ponging, Action::Pong(payload)),
                Frame::Close => (Phase::Releasing { fault: Error::WebSocketClosed }, Action::Release),
                Frame::Other => (Phase::Reading, Action::Read),
            },
            Event::ReadFailed(reason) => (
                Phase::Releasing { fault: Error::WebSocketError(reason) },
                Action::Release,
            ),
            Event::StreamEnded => (
                Phase::Releasing { fault: Error::WebSocketClosed },
                Action::Release,
            ),
            _ => (Phase::Reading, Action::Wait),
        },
        Phase::Delivering => match event {
            Event::Cancelled => (Phase::Closed, Action::Release),
            Event::Delivered => (Phase::Reading, Action::Read),
            Event::ConsumerGone => (Phase::Closed, Action::Release),
            _ => (Phase::Delivering, Action::Wait),
        },
        Phase::Ponging => match event {
            Event::Cancelled => (Phase::Closed, Action::Release),
            Event::PongSent => (Phase::Reading, Action::Read),
            Event::PongFailed(reason) => (
                Phase::Releasing { fault: Error::WebSocketError(reason) },
                Action::Release,
            ),
            _ => (Phase::Ponging, Action::Wait),
        },
        Phase::Releasing { fault } => match event {
            Event::Cancelled => (Phase::Closed, Action::Stop),
            Event::Released => (Phase::Reporting, Action::Deliver(Err(fault))),
            _ => (Phase::Releasing { fault }, Action::Wait),
        },
        Phase::Reporting => match event {
            Event::Cancelled => (Phase::Closed, Action::Stop),
            Event::Delivered => (Phase::Backoff, Action::Sleep { millis: RECONNECT_DELAY_MS }),
            Event::ConsumerGone => (Phase::Closed, Action::Stop),
            _ => (Phase::Reporting, Action::Wait),
        },
        Phase::Backoff => match event {
            Event::Cancelled => (Phase::Closed, Action::Stop),
            Event::DelayElapsed => (
                Phase::Connecting { attempt: 1 },
                Action::Connect { url: url.to_owned() },
            ),
            _ => (Phase::Backoff, Action::Wait),
        },
    }
}

/// The supervisor of one subscription: a stream kind decides the decoder, a
/// symbol and a URL the target.
pub struct StreamSupervisor {
    kind: StreamKind,
    symbol: String,
    url: String,
    phase: Phase,
}

impl StreamSupervisor {
    pub closed spec fn kind(&self) -> StreamKind {
        self.kind
    }

    pub closed spec fn symbol(&self) -> Seq<char> {
        self.symbol@
    }

    pub closed spec fn url(&self) -> Seq<char> {
        self.url@
    }

    pub closed spec fn phase(&self) -> PhaseView {
        self.phase@
    }

    #[verifier::type_invariant]
    spec fn well_formed(&self) -> bool {
        self.phase@.well_formed()
    }

    /// A subscription that has not started.
    pub fn new(kind: StreamKind, symbol: String, url: String) -> (r: StreamSupervisor)
        ensures
            r.kind() == kind,
            r.symbol() == symbol@,
            r.url() == url@,
            r.phase() == PhaseView::Idle,
    {
        StreamSupervisor { kind, symbol, url, phase: Phase::Idle }
    }

    /// Starts the first cycle. Started once, a subscription is not started
    /// again: the answer is then [`Action::Wait`], or [`Action::Stop`] where
    /// it is closed.
    pub fn start(&mut self) -> (action: Action)
        ensures
            final(self).kind() == old(self).kind(),
            final(self).symbol() == old(self).symbol(),
            final(self).url() == old(self).url(),
            old(self).phase() is Idle ==> final(self).phase() == (PhaseView::Connecting {
                attempt: 1,
            }) && action@ == (ActionView::Connect { url: old(self).url() }),
            !(old(self).phase() is Idle) ==> final(self).phase() == old(self).phase() && action@
                == if old(self).phase() is Closed {
                ActionView::Stop
            } else {
                ActionView::Wait
            },
    {
        match &self.phase {
            Phase::Idle => {
                self.phase = Phase::Connecting { attempt: 1 };
                Action::Connect { url: self.url.clone() }
            },
            Phase::Closed => Action::Stop,
            _ => Action::Wait,
        }
    }

    /// Reports an event and asks what to do next: see [`transition`].
    pub fn step(&mut self, event: Event) -> (action: Action)
        ensures
            final(self).kind() == old(self).kind(),
            final(self).symbol() == old(self).symbol(),
            final(self).url() == old(self).url(),
            (final(self).phase(), action@) == transition(
                old(self).kind(),
                old(self).symbol(),
                old(self).url(),
                old(self).phase(),
                event@,
            ),
    {
        proof {
            use_type_invariant(&*self);
        }
        let mut phase = Phase::Closed;
        std::mem::swap(&mut self.phase, &mut phase);
        let (next, action) = advance(self.kind, self.symbol.as_str(), self.url.as_str(), phase, event);
        self.phase = next;
        action
    }

    /// Cancels the subscription: the same as reporting [`Event::Cancelled`].
    pub fn cancel(&mut self) -> (action: Action)
        ensures
            final(self).kind() == old(self).kind(),
            final(self).symbol() == old(self).symbol(),
            final(self).url() == old(self).url(),
            final(self).phase() is Closed,
            action@ == if old(self).phase().holds_transport() {
                ActionView::Release
            } else {
                ActionView::Stop
            },
    {
        self.step(Event::Cancelled)
    }

    /// The state of the subscription.
    pub fn state(&self) -> (r: StreamState)
        ensures
            r == self.phase().state(),
    {
        match &self.phase {
            Phase::Idle => StreamState::Connecting,
            Phase::Connecting { .. } => StreamState::Connecting,
            Phase::RetryDelay { .. } => StreamState::Connecting,
            Phase::Reading => StreamState::Active,
            Phase::Delivering => StreamState::Active,
            Phase::Ponging => StreamState::Active,
            Phase::Releasing { .. } => StreamState::Backoff,
            Phase::Reporting => StreamState::Backoff,
            Phase::Backoff => StreamState::Backoff,
            Phase::Closed => StreamState::Closed,
        }
    }
}

/// The parts of a list joined, with a slash between each two.
pub open spec fn joined(parts: Seq<&str>) -> Seq<char>
    decreases parts.len(),
{
    if parts.len() == 0 {
        Seq::empty()
    } else if parts.len() == 1 {
        parts[0]@
    } else {
        joined(parts.drop_last()) + "/"@ + parts.last()@
    }
}

/// WebSocket connection manager: makes the subscriptions of a configuration.
pub struct BinanceWebSocket {
    config: BinanceConfig,
}

impl BinanceWebSocket {
    pub closed spec fn config(&self) -> BinanceConfig {
        self.config
    }

    /// The URL of a stream by its name.
    pub open spec fn stream_url(&self, name: Seq<char>) -> Seq<char> {
        self.config().spec_ws_url() + "/"@ + name
    }

    /// Create new WebSocket client. A configuration that does not validate
    /// is refused with its own error.
    pub fn new(config: BinanceConfig) -> (r: Result<Self, Error>)
        ensures
            r is Ok <==> config.validation() is Ok,
            r matches Ok(ws) ==> ws.config() == config,
            r matches Err(e) ==> config.validation() == Err::<(), ErrorView>(e@),
    {
        match config.validate() {
            Ok(()) => Ok(Self { config }),
            Err(e) => Err(e),
        }
    }

    fn subscription(&self, kind: StreamKind, symbol: &str, name: String) -> (r: StreamSupervisor)
        ensures
            r.kind() == kind,
            r.symbol() == symbol@,
            r.url() == self.stream_url(name@),
            r.phase() is Idle,
    {
        let mut url = self.config.get_ws_url();
        url.append("/");
        url.append(name.as_str());
        StreamSupervisor::new(kind, symbol.to_owned(), url)
    }

    /// The subscription to the 24-hour ticker of a symbol, not yet started.
    pub fn ticker_stream(&self, symbol: &str) -> (r: StreamSupervisor)
        ensures
            r.kind() == StreamKind::Ticker,
            r.symbol() == symbol@,
            r.url() == self.stream_url(lowercase(symbol@) + "@ticker"@),
            r.phase() is Idle,
    {
        self.subscription(StreamKind::Ticker, symbol, WebSocketStreams::ticker(symbol))
    }

    /// The subscription to the candlesticks of a symbol at an interval, not
    /// yet started.
    pub fn kline_stream(&self, symbol: &str, interval: Interval) -> (r: StreamSupervisor)
        ensures
            r.kind() == StreamKind::Kline,
            r.symbol() == symbol@,
            r.url() == self.stream_url(lowercase(symbol@) + "@kline_"@ + interval.name()),
            r.phase() is Idle,
    {
        self.subscription(
            StreamKind::Kline,
            symbol,
            WebSocketStreams::kline(symbol, interval.as_str()),
        )
    }

    /// The subscription to the trades of a symbol, not yet started.
    pub fn trade_stream(&self, symbol: &str) -> (r: StreamSupervisor)
        ensures
            r.kind() == StreamKind::Trade,
            r.symbol() == symbol@,
            r.url() == self.stream_url(lowercase(symbol@) + "@trade"@),
            r.phase() is Idle,
    {
        self.subscription(StreamKind::Trade, symbol, WebSocketStreams::trade(symbol))
    }

    /// The subscription to the order book updates of a symbol, not yet started.
    pub fn depth_stream(&self, symbol: &str) -> (r: StreamSupervisor)
        ensures
            r.kind() == StreamKind::Depth,
            r.symbol() == symbol@,
            r.url() == self.stream_url(lowercase(symbol@) + "@depth"@),
            r.phase() is Idle,
    {
        self.subscription(StreamKind::Depth, symbol, WebSocketStreams::depth(symbol))
    }

    /// The subscription to the mini ticker of a symbol, not yet started.
    pub fn mini_ticker_stream(&self, symbol: &str) -> (r: StreamSupervisor)
        ensures
            r.kind() == StreamKind::MiniTicker,
            r.symbol() == symbol@,
            r.url() == self.stream_url(lowercase(symbol@) + "@miniTicker"@),
            r.phase() is Idle,
    {
        self.subscription(StreamKind::MiniTicker, symbol, WebSocketStreams::mini_ticker(symbol))
    }

    /// The subscription to several streams combined, by their names, not yet
    /// started. Its frames are handed on as text.
    pub fn combined_stream(&self, streams: &[&str]) -> (r: StreamSupervisor)
        ensures
            r.kind() == StreamKind::Raw,
            r.symbol() == Seq::<char>::empty(),
            r.url() == self.stream_url("stream?streams="@ + joined(streams@)),
            r.phase() is Idle,
    {
        let mut name = "stream?streams=".to_owned();
        let mut i: usize = 0;
        assert(streams@.subrange(0, 0) =~= Seq::<&str>::empty());
        assert(name@ + Seq::<char>::empty() =~= name@);
        while i < streams.len()
            invariant
                i <= streams.len(),
                name@ == "stream?streams="@ + joined(streams@.subrange(0, i as int)),
            decreases streams.len() - i,
        {
            let ghost before = streams@.subrange(0, i as int);
            let ghost after = streams@.subrange(0, i + 1);
            proof {
                assert(after.drop_last() =~= before);
                assert(after.last() == streams@[i as int]);
            }
            if i > 0 {
                name.append("/");
            }
            name.append(streams[i]);
            proof {
                if i == 0 {
                    assert(joined(before) =~= Seq::<char>::empty());
                    assert(name@ =~= "stream?streams="@ + joined(after));
                } else {
                    assert(name@ =~= "stream?streams="@ + joined(after));
                }
            }
            i = i + 1;
        }
        assert(streams@.subrange(0, streams.len() as int) =~= streams@);
        let r = self.subscription(StreamKind::Raw, "", name);
        proof {
            reveal_strlit("");
            assert(""@ =~= Seq::<char>::empty());
        }
        r
    }
}

/// Closed is terminal: whatever is reported, the subscription stays closed
/// and asks for nothing but to stop.
pub proof fn lemma_closed_is_terminal(
    kind: StreamKind,
    symbol: Seq<char>,
    url: Seq<char>,
    event: EventView,
)
    ensures
        transition(kind, symbol, url, PhaseView::Closed, event) == (
            PhaseView::Closed,
            ActionView::Stop,
        ),
{
}

/// A subscription closes only when the consumer is gone or the caller
/// cancels; every other event leaves it open.
pub proof fn lemma_closes_only_on_request(
    kind: StreamKind,
    symbol: Seq<char>,
    url: Seq<char>,
    phase: PhaseView,
    event: EventView,
)
    requires
        !(phase is Closed),
        transition(kind, symbol, url, phase, event).0 is Closed,
    ensures
        event is Cancelled || event is ConsumerGone,
{
}

/// Once the consumer is gone no read and no connection is asked for again:
/// the transport, where one is open, is released, and the subscription is
/// closed.
pub proof fn lemma_consumer_gone_stops(
    kind: StreamKind,
    symbol: Seq<char>,
    url: Seq<char>,
    phase: PhaseView,
)
    requires
        phase is Delivering || phase is Reporting,
    ensures
        transition(kind, symbol, url, phase, EventView::ConsumerGone).0 is Closed,
        transition(kind, symbol, url, phase, EventView::ConsumerGone).1 == if phase is Delivering {
            ActionView::Release
        } else {
            ActionView::Stop
        },
{
}

/// No frame is lost: a text frame that is reported while a read is awaited
/// is delivered by the very next action, decoded for the subscription's kind.
pub proof fn lemma_text_frame_is_delivered(
    kind: StreamKind,
    symbol: Seq<char>,
    url: Seq<char>,
    phase: PhaseView,
    text: Seq<char>,
    received_at: i64,
)
    requires
        transition(
            kind,
            symbol,
            url,
            phase,
            EventView::Frame { frame: FrameView::Text(text), received_at },
        ).1 != ActionView::Wait,
        !(phase is Closed),
    ensures
        phase is Reading,
        transition(
            kind,
            symbol,
            url,
            phase,
            EventView::Frame { frame: FrameView::Text(text), received_at },
        ) == (PhaseView::Delivering, ActionView::Deliver(decoded(kind, symbol, text, received_at))),
{
}

/// Nothing is delivered twice and nothing is made up: an envelope is asked
/// to be delivered only for the text frame just read, for the error with
/// which the connection just released had ended, or for the fifth failed
/// connection attempt of a cycle.
pub proof fn lemma_delivery_has_a_cause(
    kind: StreamKind,
    symbol: Seq<char>,
    url: Seq<char>,
    phase: PhaseView,
    event: EventView,
)
    requires
        transition(kind, symbol, url, phase, event).1 is Deliver,
    ensures
        ({
            let envelope = transition(kind, symbol, url, phase, event).1->Deliver_0;
            ||| event matches EventView::Frame { frame: FrameView::Text(text), received_at }
                && phase is Reading && envelope == decoded(kind, symbol, text, received_at)
            ||| phase matches PhaseView::Releasing { fault } && event is Released && envelope
                == Err::<DomainEventView, ErrorView>(fault)
            ||| phase matches PhaseView::Connecting { attempt } && (event matches EventView::ConnectFailed(
                reason,
            ) && attempt >= CONNECT_ATTEMPTS && envelope == Err::<DomainEventView, ErrorView>(
                connect_exhausted(reason),
            ))
        }),
{
}

/// A delay is either the fixed reconnect delay, after the report that ends a
/// cycle, or the exponential one after a failed connection attempt that was
/// not the cycle's last.
pub proof fn lemma_delays(
    kind: StreamKind,
    symbol: Seq<char>,
    url: Seq<char>,
    phase: PhaseView,
    event: EventView,
)
    requires
        phase.well_formed(),
        transition(kind, symbol, url, phase, event).1 is Sleep,
    ensures
        ({
            let millis = transition(kind, symbol, url, phase, event).1->Sleep_millis;
            ||| phase is Reporting && event is Delivered && millis == RECONNECT_DELAY_MS
            ||| phase matches PhaseView::Connecting { attempt } && attempt < CONNECT_ATTEMPTS
                && event is ConnectFailed && millis == connect_delay_ms(attempt as nat)
        }),
{
    lemma2_to64();
}

/// The phase after a run of reported events.
pub open spec fn phase_after(
    kind: StreamKind,
    symbol: Seq<char>,
    url: Seq<char>,
    phase: PhaseView,
    events: Seq<EventView>,
) -> PhaseView
    decreases events.len(),
{
    if events.len() == 0 {
        phase
    } else {
        transition(
            kind,
            symbol,
            url,
            phase_after(kind, symbol, url, phase, events.drop_last()),
            events.last(),
        ).0
    }
}

/// The action asked for in answer to the last of a run of reported events.
pub open spec fn last_action(
    kind: StreamKind,
    symbol: Seq<char>,
    url: Seq<char>,
    phase: PhaseView,
    events: Seq<EventView>,
) -> ActionView
    recommends
        events.len() > 0,
{
    transition(
        kind,
        symbol,
        url,
        phase_after(kind, symbol, url, phase, events.drop_last()),
        events.last(),
    ).1
}

/// Once closed, a subscription asks for no read, no connection and no
/// delivery ever again, whatever is reported and for however long.
pub proof fn lemma_stays_closed(
    kind: StreamKind,
    symbol: Seq<char>,
    url: Seq<char>,
    events: Seq<EventView>,
)
    ensures
        phase_after(kind, symbol, url, PhaseView::Closed, events) is Closed,
        events.len() > 0 ==> last_action(kind, symbol, url, PhaseView::Closed, events)
            == ActionView::Stop,
    decreases events.len(),
{
    if events.len() > 0 {
        lemma_stays_closed(kind, symbol, url, events.drop_last());
    }
}

/// Whether every event of a run is heeded: it is reported to a subscription
/// that is not closed, and it is the outcome that the subscription waits for.
pub open spec fn heeded(
    kind: StreamKind,
    symbol: Seq<char>,
    url: Seq<char>,
    phase: PhaseView,
    events: Seq<EventView>,
) -> bool
    decreases events.len(),
{
    events.len() == 0 || {
        &&& heeded(kind, symbol, url, phase, events.drop_last())
        &&& !(phase_after(kind, symbol, url, phase, events.drop_last()) is Closed)
        &&& last_action(kind, symbol, url, phase, events) != ActionView::Wait
    }
}

/// What the text frames among a run of events decode to, in the order in
/// which they were read.
pub open spec fn frames_decoded(kind: StreamKind, symbol: Seq<char>, events: Seq<EventView>) -> Seq<
    std::result::Result<DomainEventView, ErrorView>,
>
    decreases events.len(),
{
    if events.len() == 0 {
        Seq::empty()
    } else {
        let before = frames_decoded(kind, symbol, events.drop_last());
        match events.last() {
            EventView::Frame { frame: FrameView::Text(text), received_at } => before.push(
                decoded(kind, symbol, text, received_at),
            ),
            _ => before,
        }
    }
}

/// The envelopes that a subscription asks to be delivered in answer to the
/// frames among a run of events, in the order in which it asks.
pub open spec fn frames_delivered(
    kind: StreamKind,
    symbol: Seq<char>,
    url: Seq<char>,
    phase: PhaseView,
    events: Seq<EventView>,
) -> Seq<std::result::Result<DomainEventView, ErrorView>>
    decreases events.len(),
{
    if events.len() == 0 {
        Seq::empty()
    } else {
        let before = frames_delivered(kind, symbol, url, phase, events.drop_last());
        if events.last() is Frame && last_action(kind, symbol, url, phase, events) is Deliver {
            before.push(last_action(kind, symbol, url, phase, events)->Deliver_0)
        } else {
            before
        }
    }
}

/// Within a subscription, and across its reconnects, the envelopes of the
/// frames are delivered in the order in which the frames were read, each
/// once and none left out: whatever run of events is heeded, what is asked
/// to be delivered for its frames is what its text frames decode to.
pub proof fn lemma_frames_are_delivered_in_order(
    kind: StreamKind,
    symbol: Seq<char>,
    url: Seq<char>,
    phase: PhaseView,
    events: Seq<EventView>,
)
    requires
        heeded(kind, symbol, url, phase, events),
    ensures
        frames_delivered(kind, symbol, url, phase, events) == frames_decoded(kind, symbol, events),
    decreases events.len(),
{
    if events.len() > 0 {
        lemma_frames_are_delivered_in_order(kind, symbol, url, phase, events.drop_last());
    }
}

/// Attempt numbers stay within the limit of a cycle, whatever is reported.
pub proof fn lemma_well_formed_is_kept(
    kind: StreamKind,
    symbol: Seq<char>,
    url: Seq<char>,
    phase: PhaseView,
    event: EventView,
)
    requires
        phase.well_formed(),
    ensures
        transition(kind, symbol, url, phase, event).0.well_formed(),
{
}

/// A decode error does not end the connection: the envelope of a text frame,
/// event or error, is delivered, and after it the next frame is read.
pub proof fn lemma_decode_error_is_not_fatal(
    kind: StreamKind,
    symbol: Seq<char>,
    url: Seq<char>,
    text: Seq<char>,
    received_at: i64,
)
    ensures
        transition(
            kind,
            symbol,
            url,
            PhaseView::Reading,
            EventView::Frame { frame: FrameView::Text(text), received_at },
        ) == (PhaseView::Delivering, ActionView::Deliver(decoded(kind, symbol, text, received_at))),
        transition(kind, symbol, url, PhaseView::Delivering, EventView::Delivered) == (
            PhaseView::Reading,
            ActionView::Read,
        ),
{
}

} // verus!
