//! The session loop: one serialized state machine for the socket, the timer and
//! the callers.
//!
//! The loop owns the registry. Every event (a caller's request, a timer tick, an
//! inbound frame, the outcome of a send) is handed to [`SessionLoop::step`], which
//! changes the state and returns the effects to perform, in order. Nothing here
//! waits on a delivery sink: a delivery is an effect like any other.

use vstd::prelude::*;
use super::guarantees::lemma_step_keeps_invariant;
use super::registry::{
    distinct_channels, distinct_sinks, sink_of, with_entry, without, Registry, SinkId, SubscriptionEntry,
};
use super::types::{Channel, MessageType, SubscribeMessage, SubscribeMessageView};
use super::{DflowWsError, DflowWsErrorView};
use crate::json::{routing_key, spec_routing_key};
use crate::text::same_text;

verus! {

/// Where a session stands. The order is one-way: a session never runs again once
/// it has begun to shut down.
#[derive(Debug, Clone, Copy, PartialEq, Eq, Structural)]
pub enum Phase {
    /// The session serves its callers and its socket.
    Running,
    /// A shutdown was asked for. The close frame is on its way; requests are
    /// refused and inbound frames are passed over until it is flushed.
    ShuttingDown,
    /// The session has ended: every sink is closed. A session gets here from
    /// `ShuttingDown` once the close frame is flushed, and at once when the peer
    /// closes the socket or the socket fails.
    Terminated,
}

/// Close code of a normal closure.
pub const CLOSE_NORMAL: u16 = 1000;

/// Why a socket is closed: the close frame's payload.
#[derive(Debug, Clone)]
pub struct CloseReason {
    pub code: u16,
    pub reason: String,
}

/// A close reason as the contracts see it.
pub struct CloseReasonView {
    pub code: u16,
    pub reason: Seq<char>,
}

impl DeepView for CloseReason {
    type V = CloseReasonView;

    open spec fn deep_view(&self) -> CloseReasonView {
        CloseReasonView { code: self.code, reason: self.reason@ }
    }
}

/// A frame of the socket.
#[derive(Debug, Clone)]
pub enum Frame {
    Text(String),
    Binary(Vec<u8>),
    Ping(Vec<u8>),
    Pong(Vec<u8>),
    Close(Option<CloseReason>),
}

/// A frame as the contracts see it.
pub enum FrameView {
    Text(Seq<char>),
    Binary(Seq<u8>),
    Ping(Seq<u8>),
    Pong(Seq<u8>),
    Close(Option<CloseReasonView>),
}

impl DeepView for Frame {
    type V = FrameView;

    open spec fn deep_view(&self) -> FrameView {
        match self {
            Frame::Text(text) => FrameView::Text(text@),
            Frame::Binary(data) => FrameView::Binary(data@),
            Frame::Ping(data) => FrameView::Ping(data@),
            Frame::Pong(data) => FrameView::Pong(data@),
            Frame::Close(reason) => FrameView::Close(reason.deep_view()),
        }
    }
}

/// What the loop is to learn of a send it asked for.
#[derive(Debug, Clone, Copy, PartialEq, Eq, Structural)]
pub enum SendReport {
    /// Nothing: a failure of this send changes nothing.
    Ignore,
    /// A failure of this send ends the session: report it as
    /// [`Event::SocketFailed`].
    Fatal,
    /// The send carries a subscribe request for this channel: report how it went
    /// as [`Event::SubscribeSent`].
    Subscription(Channel),
}

/// The single-use right to cancel the subscription of one channel.
///
/// It cannot be copied, and [`UnsubscribeCapability::redeem`] consumes it.
#[derive(Debug)]
pub struct UnsubscribeCapability {
    channel: Channel,
}

impl View for UnsubscribeCapability {
    type V = Channel;

    closed spec fn view(&self) -> Channel {
        self.channel
    }
}

impl UnsubscribeCapability {
    /// The channel that the capability is bound to.
    pub fn channel(&self) -> (channel: Channel)
        ensures
            channel == self@,
    {
        self.channel
    }

    /// Uses the capability up: the result is the request to hand to the session.
    pub fn redeem(self) -> (event: Event)
        ensures
            event.deep_view() == EventView::Unsubscribe(self@),
    {
        Event::Unsubscribe(self.channel)
    }
}

/// What the session loop waits for.
#[derive(Debug)]
pub enum Event {
    /// The client asked for an orderly shutdown.
    Shutdown,
    /// The keepalive timer fired.
    Tick,
    /// A caller asked for a subscription.
    Subscribe(SubscribeMessage),
    /// The subscribe request of a channel was written to the socket, or failed to
    /// be.
    SubscribeSent { channel: Channel, outcome: Result<(), tokio_tungstenite::tungstenite::Error> },
    /// A caller redeemed an unsubscribe capability.
    Unsubscribe(Channel),
    /// The socket delivered a frame.
    Frame(Frame),
    /// Reading from the socket failed, or a send marked [`SendReport::Fatal`]
    /// did.
    SocketFailed,
    /// The socket's stream of frames ended.
    SocketEnded,
    /// The flush that follows the close frame has returned.
    CloseFlushed,
}

/// An event as the contracts see it.
pub enum EventView {
    Shutdown,
    Tick,
    Subscribe(SubscribeMessageView),
    SubscribeSent { channel: Channel, outcome: Result<(), tokio_tungstenite::tungstenite::Error> },
    Unsubscribe(Channel),
    Frame(FrameView),
    SocketFailed,
    SocketEnded,
    CloseFlushed,
}

impl DeepView for Event {
    type V = EventView;

    open spec fn deep_view(&self) -> EventView {
        match self {
            Event::Shutdown => EventView::Shutdown,
            Event::Tick => EventView::Tick,
            Event::Subscribe(request) => EventView::Subscribe(request.deep_view()),
            Event::SubscribeSent { channel, outcome } => EventView::SubscribeSent {
                channel: *channel,
                outcome: *outcome,
            },
            Event::Unsubscribe(channel) => EventView::Unsubscribe(*channel),
            Event::Frame(frame) => EventView::Frame(frame.deep_view()),
            Event::SocketFailed => EventView::SocketFailed,
            Event::SocketEnded => EventView::SocketEnded,
            Event::CloseFlushed => EventView::CloseFlushed,
        }
    }
}

/// What the session asks of its surroundings in answer to an event.
#[derive(Debug)]
pub enum Effect {
    /// Write the frame to the socket, and report as `report` says.
    Send { frame: Frame, report: SendReport },
    /// Flush the socket, whatever comes of it, then report
    /// [`Event::CloseFlushed`].
    Flush,
    /// Put the payload into the sink, without waiting for its reader.
    Deliver { sink: SinkId, payload: String },
    /// Close the sink: its subscriber's sequence ends.
    CloseSink(SinkId),
    /// Open the sink and answer the caller with its reading end and the
    /// capability.
    SubscribeAccepted { sink: SinkId, capability: UnsubscribeCapability },
    /// Answer the caller of the subscribe request with the error.
    SubscribeRejected(DflowWsError),
    /// Tell the caller of the unsubscribe request that it is done.
    UnsubscribeAcknowledged,
    /// Record that an inbound text frame could not be read.
    Malformed,
}

/// An effect as the contracts see it: a granted subscription shows the channel
/// that its capability is bound to.
pub enum EffectView {
    Send { frame: FrameView, report: SendReport },
    Flush,
    Deliver { sink: SinkId, payload: Seq<char> },
    CloseSink(SinkId),
    SubscribeAccepted { sink: SinkId, channel: Channel },
    SubscribeRejected(DflowWsErrorView),
    UnsubscribeAcknowledged,
    Malformed,
}

impl DeepView for Effect {
    type V = EffectView;

    open spec fn deep_view(&self) -> EffectView {
        match self {
            Effect::Send { frame, report } => EffectView::Send {
                frame: frame.deep_view(),
                report: *report,
            },
            Effect::Flush => EffectView::Flush,
            Effect::Deliver { sink, payload } => EffectView::Deliver {
                sink: *sink,
                payload: payload@,
            },
            Effect::CloseSink(sink) => EffectView::CloseSink(*sink),
            Effect::SubscribeAccepted { sink, capability } => EffectView::SubscribeAccepted {
                sink: *sink,
                channel: capability@,
            },
            Effect::SubscribeRejected(error) => EffectView::SubscribeRejected(error.deep_view()),
            Effect::UnsubscribeAcknowledged => EffectView::UnsubscribeAcknowledged,
            Effect::Malformed => EffectView::Malformed,
        }
    }
}

/// The channel that a wire name stands for.
pub open spec fn channel_named(name: Seq<char>) -> Option<Channel> {
    if name == Channel::Prices.name() {
        Some(Channel::Prices)
    } else if name == Channel::Trades.name() {
        Some(Channel::Trades)
    } else if name == Channel::Orderbook.name() {
        Some(Channel::Orderbook)
    } else {
        None
    }
}

/// The close frame of an orderly shutdown.
pub open spec fn shutdown_frame() -> FrameView {
    FrameView::Close(Some(CloseReasonView { code: CLOSE_NORMAL, reason: "Client shutdown"@ }))
}

/// The error for a request that found the session no longer running.
pub open spec fn not_running() -> EffectView {
    EffectView::SubscribeRejected(DflowWsErrorView::SendFailed)
}

/// The error for a request whose answer the session could no longer give.
pub open spec fn answer_lost() -> EffectView {
    EffectView::SubscribeRejected(DflowWsErrorView::ConnectionClosed("Response channel closed"@))
}

/// The error for a request that finds every sink identifier used.
pub open spec fn sinks_exhausted() -> EffectView {
    EffectView::SubscribeRejected(
        DflowWsErrorView::SubscriptionFailed("no sink identifier left"@),
    )
}

/// The effect that closes a replaced or removed sink, where there is one.
pub open spec fn closing(sink: Option<SinkId>) -> Seq<EffectView> {
    match sink {
        Some(s) => seq![EffectView::CloseSink(s)],
        None => Seq::<EffectView>::empty(),
    }
}

/// The state of a session as the contracts see it.
pub struct SessionView {
    pub phase: Phase,
    pub entries: Seq<SubscriptionEntry>,
    pub next_sink: SinkId,
}

impl SessionView {
    /// The invariant of a session: each channel has at most one entry, no sink
    /// serves two entries, every sink in use was issued before `next_sink`, and a
    /// terminated session holds no entry.
    pub open spec fn wf(self) -> bool {
        &&& distinct_channels(self.entries)
        &&& distinct_sinks(self.entries)
        &&& forall|i: int| 0 <= i < self.entries.len() ==> (#[trigger] self.entries[i]).sink < self.next_sink
        &&& self.phase is Terminated ==> self.entries.len() == 0
    }

    /// One effect for each entry, in their order: close its sink.
    pub open spec fn close_all(self) -> Seq<EffectView> {
        self.entries.map_values(|e: SubscriptionEntry| EffectView::CloseSink(e.sink))
    }

    /// The session at its end: no entry is left.
    pub open spec fn ended(self) -> SessionView {
        SessionView {
            phase: Phase::Terminated,
            entries: Seq::<SubscriptionEntry>::empty(),
            next_sink: self.next_sink,
        }
    }

    /// A shutdown request: a running session sends the close frame, flushes, and
    /// shuts down. Otherwise nothing happens.
    pub open spec fn on_shutdown(self) -> (SessionView, Seq<EffectView>) {
        if self.phase is Running {
            (
                SessionView { phase: Phase::ShuttingDown, ..self },
                seq![
                    EffectView::Send { frame: shutdown_frame(), report: SendReport::Ignore },
                    EffectView::Flush,
                ],
            )
        } else {
            (self, Seq::<EffectView>::empty())
        }
    }

    /// A timer tick: a running session sends an empty ping, whose failure is
    /// fatal.
    pub open spec fn on_tick(self) -> (SessionView, Seq<EffectView>) {
        if self.phase is Running {
            (
                self,
                seq![
                    EffectView::Send {
                        frame: FrameView::Ping(Seq::<u8>::empty()),
                        report: SendReport::Fatal,
                    },
                ],
            )
        } else {
            (self, Seq::<EffectView>::empty())
        }
    }

    /// A subscribe request whose wire text is `wire` (`None`: it could not be
    /// written). Nothing is registered yet: a running session sends the text and
    /// waits for the outcome.
    pub open spec fn on_subscribe(self, channel: Channel, wire: Option<Seq<char>>) -> (
        SessionView,
        Seq<EffectView>,
    ) {
        if !(self.phase is Running) {
            (self, seq![not_running()])
        } else if wire is None {
            (self, seq![EffectView::SubscribeRejected(DflowWsErrorView::SerializeError)])
        } else if self.next_sink == u64::MAX {
            (self, seq![sinks_exhausted()])
        } else {
            (
                self,
                seq![
                    EffectView::Send {
                        frame: FrameView::Text(wire->0),
                        report: SendReport::Subscription(channel),
                    },
                ],
            )
        }
    }

    /// The outcome of sending a subscribe request. On success the channel gets a
    /// fresh sink in place of any earlier one, which is closed first. A failed
    /// send registers nothing and is answered to the caller; and since the socket
    /// that failed is the one socket of all subscriptions, the session then
    /// closes every sink and ends.
    pub open spec fn on_subscribe_sent(
        self,
        channel: Channel,
        outcome: Result<(), tokio_tungstenite::tungstenite::Error>,
    ) -> (SessionView, Seq<EffectView>) {
        if !(self.phase is Running) {
            (self, seq![answer_lost()])
        } else if outcome is Err {
            (
                self.ended(),
                seq![
                    EffectView::SubscribeRejected(
                        DflowWsErrorView::ConnectionFailed(outcome->Err_0),
                    ),
                ] + self.close_all(),
            )
        } else if self.next_sink == u64::MAX {
            (self, seq![sinks_exhausted()])
        } else {
            (
                SessionView {
                    phase: self.phase,
                    entries: with_entry(self.entries, channel, self.next_sink),
                    next_sink: (self.next_sink + 1) as SinkId,
                },
                closing(sink_of(self.entries, channel)).push(
                    EffectView::SubscribeAccepted { sink: self.next_sink, channel },
                ),
            )
        }
    }

    /// An unsubscribe request whose wire text is `wire`. A running session takes
    /// the entry out and closes its sink, sends the text without caring for the
    /// outcome, and acknowledges. Otherwise it only acknowledges.
    pub open spec fn on_unsubscribe(self, channel: Channel, wire: Option<Seq<char>>) -> (
        SessionView,
        Seq<EffectView>,
    ) {
        if !(self.phase is Running) {
            (self, seq![EffectView::UnsubscribeAcknowledged])
        } else {
            (
                SessionView { entries: without(self.entries, channel), ..self },
                closing(sink_of(self.entries, channel)) + (match wire {
                    Some(text) => seq![
                        EffectView::Send {
                            frame: FrameView::Text(text),
                            report: SendReport::Ignore,
                        },
                    ],
                    None => Seq::<EffectView>::empty(),
                }) + seq![EffectView::UnsubscribeAcknowledged],
            )
        }
    }

    /// An inbound text frame whose routing key is `key` (`None`: the text could
    /// not be read). The payload goes to the sink of the channel that the key
    /// names, if that channel is subscribed; otherwise it is dropped.
    pub open spec fn on_text(self, key: Option<Seq<char>>, payload: Seq<char>) -> (
        SessionView,
        Seq<EffectView>,
    ) {
        if !(self.phase is Running) {
            (self, Seq::<EffectView>::empty())
        } else if key is None {
            (self, seq![EffectView::Malformed])
        } else {
            match channel_named(key->0) {
                Some(channel) => match sink_of(self.entries, channel) {
                    Some(sink) => (self, seq![EffectView::Deliver { sink, payload }]),
                    None => (self, Seq::<EffectView>::empty()),
                },
                None => (self, Seq::<EffectView>::empty()),
            }
        }
    }

    /// An inbound ping: a running session answers with a pong of the same
    /// payload, whose failure is fatal.
    pub open spec fn on_ping(self, data: Seq<u8>) -> (SessionView, Seq<EffectView>) {
        if self.phase is Running {
            (
                self,
                seq![EffectView::Send { frame: FrameView::Pong(data), report: SendReport::Fatal }],
            )
        } else {
            (self, Seq::<EffectView>::empty())
        }
    }

    /// The socket is gone (the peer closed it, it failed, or it ended): the
    /// session closes every sink and ends.
    pub open spec fn on_socket_closed(self) -> (SessionView, Seq<EffectView>) {
        (self.ended(), self.close_all())
    }

    /// The close frame is flushed: a session that was shutting down closes every
    /// sink and ends.
    pub open spec fn on_close_flushed(self) -> (SessionView, Seq<EffectView>) {
        if self.phase is ShuttingDown {
            (self.ended(), self.close_all())
        } else {
            (self, Seq::<EffectView>::empty())
        }
    }

    /// The wire text of the request that cancels every subscription of a channel.
    pub open spec fn unsubscribe_text(channel: Channel) -> Seq<char> {
        (SubscribeMessageView {
            msg_type: MessageType::Unsubscribe,
            channel,
            all: Some(true),
            tickers: None,
        }).wire_text(None)
    }

    /// The session's answer to an event: the state that follows and the effects,
    /// in the order in which they are to be performed.
    pub open spec fn step(self, event: EventView) -> (SessionView, Seq<EffectView>) {
        match event {
            EventView::Shutdown => self.on_shutdown(),
            EventView::Tick => self.on_tick(),
            EventView::Subscribe(request) => self.on_subscribe(request.channel, request.to_json()),
            EventView::SubscribeSent { channel, outcome } => self.on_subscribe_sent(
                channel,
                outcome,
            ),
            EventView::Unsubscribe(channel) => self.on_unsubscribe(
                channel,
                Some(Self::unsubscribe_text(channel)),
            ),
            EventView::Frame(FrameView::Text(text)) => self.on_text(spec_routing_key(text), text),
            EventView::Frame(FrameView::Ping(data)) => self.on_ping(data),
            EventView::Frame(FrameView::Pong(_)) => (self, Seq::<EffectView>::empty()),
            EventView::Frame(FrameView::Binary(_)) => (self, Seq::<EffectView>::empty()),
            EventView::Frame(FrameView::Close(_)) => self.on_socket_closed(),
            EventView::SocketFailed => self.on_socket_closed(),
            EventView::SocketEnded => self.on_socket_closed(),
            EventView::CloseFlushed => self.on_close_flushed(),
        }
    }
}

impl Channel {
    /// The channel that a wire name stands for, if it is one.
    pub fn from_name(name: &str) -> (channel: Option<Channel>)
        ensures
            channel == channel_named(name@),
    {
        if same_text(name, Channel::Prices.as_str()) {
            Some(Channel::Prices)
        } else if same_text(name, Channel::Trades.as_str()) {
            Some(Channel::Trades)
        } else if same_text(name, Channel::Orderbook.as_str()) {
            Some(Channel::Orderbook)
        } else {
            None
        }
    }
}

/// The session loop's state: where it stands, the registry, and the identifier
/// that the next sink will get.
pub struct SessionLoop {
    phase: Phase,
    registry: Registry,
    next_sink: SinkId,
}

impl View for SessionLoop {
    type V = SessionView;

    closed spec fn view(&self) -> SessionView {
        SessionView { phase: self.phase, entries: self.registry@, next_sink: self.next_sink }
    }
}

fn one(effect: Effect) -> (effects: Vec<Effect>)
    ensures
        effects.deep_view() == seq![effect.deep_view()],
{
    let mut effects: Vec<Effect> = Vec::new();
    effects.push(effect);
    assert(effects.deep_view() =~= seq![effect.deep_view()]);
    effects
}

fn none() -> (effects: Vec<Effect>)
    ensures
        effects.deep_view() == Seq::<EffectView>::empty(),
{
    let effects: Vec<Effect> = Vec::new();
    assert(effects.deep_view() =~= Seq::<EffectView>::empty());
    effects
}

fn push(effects: &mut Vec<Effect>, effect: Effect)
    ensures
        final(effects).deep_view() == old(effects).deep_view().push(effect.deep_view()),
{
    effects.push(effect);
    assert(effects.deep_view() =~= old(effects).deep_view().push(effect.deep_view()));
}

fn append(effects: &mut Vec<Effect>, more: &mut Vec<Effect>)
    ensures
        final(effects).deep_view() == old(effects).deep_view() + old(more).deep_view(),
{
    let ghost first = effects.deep_view();
    let ghost second = more.deep_view();
    let ghost a = effects@;
    let ghost b = more@;
    effects.append(more);
    assert(effects@ == a + b);
    assert(effects.deep_view() =~= first + second) by {
        assert forall|i: int| 0 <= i < effects@.len() implies effects.deep_view()[i] == (first
            + second)[i] by {
            if i < a.len() {
                assert(effects@[i] == a[i]);
            } else {
                assert(effects@[i] == b[i - a.len()]);
            }
        }
    }
}

fn close(sink: Option<SinkId>) -> (effects: Vec<Effect>)
    ensures
        effects.deep_view() == closing(sink),
{
    match sink {
        Some(s) => one(Effect::CloseSink(s)),
        None => none(),
    }
}

impl SessionLoop {
    /// A running session without subscriptions.
    pub fn new() -> (session: Self)
        ensures
            session@ == (SessionView {
                phase: Phase::Running,
                entries: Seq::<SubscriptionEntry>::empty(),
                next_sink: 0,
            }),
            session@.wf(),
    {
        SessionLoop { phase: Phase::Running, registry: Registry::new(), next_sink: 0 }
    }

    /// A running session without subscriptions whose first sink will get the
    /// identifier `first_sink`: for a client that opens one session after another
    /// and wants no identifier used twice.
    pub fn with_first_sink(first_sink: SinkId) -> (session: Self)
        ensures
            session@ == (SessionView {
                phase: Phase::Running,
                entries: Seq::<SubscriptionEntry>::empty(),
                next_sink: first_sink,
            }),
            session@.wf(),
    {
        SessionLoop { phase: Phase::Running, registry: Registry::new(), next_sink: first_sink }
    }

    /// The identifier that the next sink will get.
    pub fn next_sink(&self) -> (sink: SinkId)
        ensures
            sink == self@.next_sink,
    {
        self.next_sink
    }

    /// Where the session stands.
    pub fn phase(&self) -> (phase: Phase)
        ensures
            phase == self@.phase,
    {
        self.phase
    }

    /// Whether the session has ended.
    pub fn is_terminated(&self) -> (ended: bool)
        ensures
            ended == (self@.phase is Terminated),
    {
        match self.phase {
            Phase::Terminated => true,
            _ => false,
        }
    }

    /// The number of subscribed channels.
    pub fn subscription_count(&self) -> (n: usize)
        ensures
            n == self@.entries.len(),
    {
        self.registry.len()
    }

    /// The sink that a channel feeds, if it is subscribed.
    pub fn sink_for(&self, channel: Channel) -> (sink: Option<SinkId>)
        ensures
            sink == sink_of(self@.entries, channel),
    {
        self.registry.get(channel)
    }

    fn is_running(&self) -> (running: bool)
        ensures
            running == (self@.phase is Running),
    {
        match self.phase {
            Phase::Running => true,
            _ => false,
        }
    }

    /// Takes a shutdown request.
    pub fn on_shutdown(&mut self) -> (effects: Vec<Effect>)
        ensures
            (final(self)@, effects.deep_view()) == old(self)@.on_shutdown(),
    {
        if self.is_running() {
            self.phase = Phase::ShuttingDown;
            let reason = CloseReason { code: CLOSE_NORMAL, reason: "Client shutdown".to_owned() };
            let mut effects = one(
                Effect::Send { frame: Frame::Close(Some(reason)), report: SendReport::Ignore },
            );
            push(&mut effects, Effect::Flush);
            assert(effects.deep_view() =~= old(self)@.on_shutdown().1);
            effects
        } else {
            none()
        }
    }

    /// Takes a tick of the keepalive timer.
    pub fn on_tick(&mut self) -> (effects: Vec<Effect>)
        ensures
            (final(self)@, effects.deep_view()) == old(self)@.on_tick(),
    {
        if self.is_running() {
            let effects = one(
                Effect::Send { frame: Frame::Ping(Vec::new()), report: SendReport::Fatal },
            );
            assert(effects.deep_view() =~= old(self)@.on_tick().1);
            effects
        } else {
            none()
        }
    }

    /// Takes a subscribe request for `channel` whose wire text is `wire`.
    pub fn on_subscribe(&mut self, channel: Channel, wire: Result<String, serde_json::Error>) -> (effects:
        Vec<Effect>)
        ensures
            (final(self)@, effects.deep_view()) == old(self)@.on_subscribe(
                channel,
                (match wire {
                    Ok(text) => Some(text@),
                    Err(_) => None,
                }),
            ),
    {
        if !self.is_running() {
            return one(Effect::SubscribeRejected(DflowWsError::SendFailed));
        }
        match wire {
            Err(error) => one(Effect::SubscribeRejected(DflowWsError::SerializeError(error))),
            Ok(text) => {
                if self.next_sink == u64::MAX {
                    one(
                        Effect::SubscribeRejected(
                            DflowWsError::SubscriptionFailed("no sink identifier left".to_owned()),
                        ),
                    )
                } else {
                    one(
                        Effect::Send {
                            frame: Frame::Text(text),
                            report: SendReport::Subscription(channel),
                        },
                    )
                }
            },
        }
    }

    /// Takes the outcome of sending the subscribe request of `channel`.
    pub fn on_subscribe_sent(
        &mut self,
        channel: Channel,
        outcome: Result<(), tokio_tungstenite::tungstenite::Error>,
    ) -> (effects: Vec<Effect>)
        ensures
            (final(self)@, effects.deep_view()) == old(self)@.on_subscribe_sent(channel, outcome),
    {
        if !self.is_running() {
            return one(
                Effect::SubscribeRejected(
                    DflowWsError::ConnectionClosed("Response channel closed".to_owned()),
                ),
            );
        }
        match outcome {
            Err(error) => {
                let mut effects = one(
                    Effect::SubscribeRejected(DflowWsError::ConnectionFailed(error)),
                );
                let mut closed = self.on_socket_closed();
                append(&mut effects, &mut closed);
                effects
            },
            Ok(_) => {
                if self.next_sink == u64::MAX {
                    one(
                        Effect::SubscribeRejected(
                            DflowWsError::SubscriptionFailed("no sink identifier left".to_owned()),
                        ),
                    )
                } else {
                    let sink = self.next_sink;
                    let replaced = self.registry.insert(channel, sink);
                    self.next_sink = sink + 1;
                    let mut effects = close(replaced);
                    push(
                        &mut effects,
                        Effect::SubscribeAccepted {
                            sink,
                            capability: UnsubscribeCapability { channel },
                        },
                    );
                    effects
                }
            },
        }
    }

    /// Takes an unsubscribe request for `channel` whose wire text is `wire`.
    pub fn on_unsubscribe(&mut self, channel: Channel, wire: Option<String>) -> (effects: Vec<
        Effect,
    >)
        ensures
            (final(self)@, effects.deep_view()) == old(self)@.on_unsubscribe(
                channel,
                wire.deep_view(),
            ),
    {
        if !self.is_running() {
            return one(Effect::UnsubscribeAcknowledged);
        }
        let removed = self.registry.remove(channel);
        let mut effects = close(removed);
        match wire {
            Some(text) => {
                push(
                    &mut effects,
                    Effect::Send { frame: Frame::Text(text), report: SendReport::Ignore },
                );
            },
            None => {},
        }
        push(&mut effects, Effect::UnsubscribeAcknowledged);
        assert(effects.deep_view() =~= old(self)@.on_unsubscribe(channel, wire.deep_view()).1);
        effects
    }

    /// Takes an inbound text frame whose routing key is `key`.
    pub fn on_text(&mut self, key: Option<String>, payload: String) -> (effects: Vec<Effect>)
        ensures
            (final(self)@, effects.deep_view()) == old(self)@.on_text(key.deep_view(), payload@),
    {
        if !self.is_running() {
            return none();
        }
        match key {
            None => one(Effect::Malformed),
            Some(name) => match Channel::from_name(name.as_str()) {
                Some(channel) => match self.registry.get(channel) {
                    Some(sink) => one(Effect::Deliver { sink, payload }),
                    None => none(),
                },
                None => none(),
            },
        }
    }

    /// Takes an inbound ping.
    pub fn on_ping(&mut self, data: Vec<u8>) -> (effects: Vec<Effect>)
        ensures
            (final(self)@, effects.deep_view()) == old(self)@.on_ping(data@),
    {
        if self.is_running() {
            one(Effect::Send { frame: Frame::Pong(data), report: SendReport::Fatal })
        } else {
            none()
        }
    }

    /// Takes the loss of the socket.
    pub fn on_socket_closed(&mut self) -> (effects: Vec<Effect>)
        ensures
            (final(self)@, effects.deep_view()) == old(self)@.on_socket_closed(),
    {
        let sinks = self.registry.drain();
        self.phase = Phase::Terminated;
        let mut effects: Vec<Effect> = none();
        let mut i: usize = 0;
        while i < sinks.len()
            invariant
                i <= sinks.len(),
                effects.deep_view() == sinks@.take(i as int).map_values(
                    |s: SinkId| EffectView::CloseSink(s),
                ),
            decreases sinks.len() - i,
        {
            push(&mut effects, Effect::CloseSink(sinks[i]));
            assert(sinks@.take(i + 1).map_values(|s: SinkId| EffectView::CloseSink(s))
                =~= sinks@.take(i as int).map_values(|s: SinkId| EffectView::CloseSink(s)).push(
                EffectView::CloseSink(sinks@[i as int]),
            ));
            i = i + 1;
        }
        assert(sinks@.take(i as int) =~= sinks@);
        assert(effects.deep_view() =~= old(self)@.close_all());
        effects
    }

    /// Takes the news that the close frame is flushed.
    pub fn on_close_flushed(&mut self) -> (effects: Vec<Effect>)
        ensures
            (final(self)@, effects.deep_view()) == old(self)@.on_close_flushed(),
    {
        match self.phase {
            Phase::ShuttingDown => self.on_socket_closed(),
            _ => none(),
        }
    }

    /// Takes the next event: changes the state and returns the effects to perform,
    /// in order.
    pub fn step(&mut self, event: Event) -> (effects: Vec<Effect>)
        ensures
            (final(self)@, effects.deep_view()) == old(self)@.step(event.deep_view()),
            old(self)@.wf() ==> final(self)@.wf(),
    {
        proof {
            if self@.wf() {
                lemma_step_keeps_invariant(self@, event.deep_view());
            }
        }
        match event {
            Event::Shutdown => self.on_shutdown(),
            Event::Tick => self.on_tick(),
            Event::Subscribe(request) => {
                let wire = request.to_json();
                self.on_subscribe(request.channel, wire)
            },
            Event::SubscribeSent { channel, outcome } => self.on_subscribe_sent(channel, outcome),
            Event::Unsubscribe(channel) => {
                let request = SubscribeMessage::unsubscribe_all(channel);
                let wire = request.encode_with(None);
                self.on_unsubscribe(channel, Some(wire))
            },
            Event::Frame(Frame::Text(text)) => {
                let key = routing_key(text.as_str());
                self.on_text(key, text)
            },
            Event::Frame(Frame::Ping(data)) => self.on_ping(data),
            Event::Frame(Frame::Pong(_)) => none(),
            Event::Frame(Frame::Binary(_)) => none(),
            Event::Frame(Frame::Close(_)) => self.on_socket_closed(),
            Event::SocketFailed => self.on_socket_closed(),
            Event::SocketEnded => self.on_socket_closed(),
            Event::CloseFlushed => self.on_close_flushed(),
        }
    }
}

} // verus!
