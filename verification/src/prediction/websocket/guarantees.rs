//! What holds of every session, whatever events reach it and in whatever order.
//!
//! The statements are about [`SessionView::step`], the function that
//! [`SessionLoop::step`](super::session::SessionLoop::step) is proved to compute,
//! and about runs: sequences of events taken one after another.

use vstd::prelude::*;
use super::registry::{
    lemma_insert_then_remove, lemma_live_after_insert, lemma_live_after_remove,
    lemma_occurrences, lemma_position_meaning, lemma_sink_after_insert, lemma_sink_after_remove,
    lemma_with_entry_distinct, lemma_without_distinct, live, occurrences, sink_of, without,
    SinkId,
};
use super::session::{
    channel_named, EffectView, EventView, FrameView, Phase, SendReport, SessionView,
};
use super::types::Channel;
use crate::json::spec_routing_key;

verus! {

/// The state after a run of events.
pub open spec fn run(start: SessionView, events: Seq<EventView>) -> SessionView
    decreases events.len(),
{
    if events.len() == 0 {
        start
    } else {
        run(start, events.drop_last()).step(events.last()).0
    }
}

/// The effects of a run of events, in the order in which they were asked for.
pub open spec fn effects_of(start: SessionView, events: Seq<EventView>) -> Seq<EffectView>
    decreases events.len(),
{
    if events.len() == 0 {
        Seq::<EffectView>::empty()
    } else {
        effects_of(start, events.drop_last()) + run(start, events.drop_last()).step(
            events.last(),
        ).1
    }
}

/// How far a session has come on its one-way road.
pub open spec fn rank(phase: Phase) -> int {
    match phase {
        Phase::Running => 0,
        Phase::ShuttingDown => 1,
        Phase::Terminated => 2,
    }
}

/// Whether the effect puts a payload into a sink.
pub open spec fn delivers(effect: EffectView) -> bool {
    effect is Deliver
}

/// Whether the effect grants a subscription.
pub open spec fn accepts(effect: EffectView) -> bool {
    effect is SubscribeAccepted
}

/// The sink of the last subscription that the effects grant.
pub open spec fn last_accepted(effects: Seq<EffectView>) -> Option<SinkId>
    decreases effects.len(),
{
    if effects.len() == 0 {
        None
    } else {
        match effects.last() {
            EffectView::SubscribeAccepted { sink, .. } => Some(sink),
            _ => last_accepted(effects.drop_last()),
        }
    }
}

/// Whether the event belongs to a subscribe call for the channel: the request, or
/// the outcome of sending it.
pub open spec fn subscribes_to(event: EventView, channel: Channel) -> bool {
    match event {
        EventView::Subscribe(request) => request.channel == channel,
        EventView::SubscribeSent { channel: sent, .. } => sent == channel,
        _ => false,
    }
}

/// Every step keeps the session's invariant, never moves it back on its road, and
/// never takes back a sink identifier.
pub proof fn lemma_step_keeps_invariant(s: SessionView, event: EventView)
    requires
        s.wf(),
    ensures
        s.step(event).0.wf(),
        rank(s.phase) <= rank(s.step(event).0.phase),
        s.next_sink <= s.step(event).0.next_sink,
{
    match event {
        EventView::SubscribeSent { channel, outcome } => {
            if s.phase is Running && outcome is Ok && s.next_sink != u64::MAX {
                lemma_with_entry_distinct(s.entries, channel, s.next_sink);
                lemma_position_meaning(s.entries, channel);
                lemma_live_after_insert(s.entries, channel, s.next_sink, s.next_sink);
            }
        },
        EventView::Unsubscribe(channel) => {
            if s.phase is Running {
                lemma_without_distinct(s.entries, channel);
                lemma_position_meaning(s.entries, channel);
                lemma_live_after_remove(s.entries, channel, 0);
            }
        },
        _ => {},
    }
}

/// Every run keeps the session's invariant, never moves it back on its road, and
/// never takes back a sink identifier.
pub proof fn lemma_run_keeps_invariant(start: SessionView, events: Seq<EventView>)
    requires
        start.wf(),
    ensures
        run(start, events).wf(),
        rank(start.phase) <= rank(run(start, events).phase),
        start.next_sink <= run(start, events).next_sink,
    decreases events.len(),
{
    if events.len() > 0 {
        lemma_run_keeps_invariant(start, events.drop_last());
        lemma_step_keeps_invariant(run(start, events.drop_last()), events.last());
    }
}

/// A session holds at most one entry for each channel.
pub proof fn lemma_at_most_one_entry(s: SessionView, channel: Channel)
    requires
        s.wf(),
    ensures
        occurrences(s.entries, channel) <= 1,
        occurrences(s.entries, channel) == 1 <==> sink_of(s.entries, channel) is Some,
{
    lemma_occurrences(s.entries, channel);
}

/// Last subscribe wins. Take any run of subscribe calls to one channel, with no
/// other event between them, whatever the requests ask for and however their
/// sends go. The registry never holds more than one entry for the channel. If
/// the session is still running after the run and the run granted a
/// subscription, the registry holds exactly one entry for the channel, and it
/// feeds the sink that was granted last; if the run granted none, the registry
/// is as it was.
pub proof fn lemma_last_subscribe_wins(start: SessionView, channel: Channel, events: Seq<EventView>)
    requires
        start.wf(),
        forall|i: int| 0 <= i < events.len() ==> subscribes_to(#[trigger] events[i], channel),
    ensures
        occurrences(run(start, events).entries, channel) <= 1,
        run(start, events).phase is Running ==> (match last_accepted(effects_of(start, events)) {
            Some(sink) => sink_of(run(start, events).entries, channel) == Some(sink)
                && occurrences(run(start, events).entries, channel) == 1,
            None => run(start, events).entries == start.entries,
        }),
    decreases events.len(),
{
    lemma_run_keeps_invariant(start, events);
    lemma_at_most_one_entry(run(start, events), channel);
    if events.len() > 0 {
        let before = events.drop_last();
        assert forall|i: int| 0 <= i < before.len() implies subscribes_to(
            #[trigger] before[i],
            channel,
        ) by {
            assert(before[i] == events[i]);
        }
        lemma_last_subscribe_wins(start, channel, before);
        lemma_run_keeps_invariant(start, before);
        let s = run(start, before);
        let earlier = effects_of(start, before);
        let (after, added) = s.step(events.last());
        assert(subscribes_to(events[events.len() - 1], channel));
        lemma_step_keeps_invariant(s, events.last());
        if after.phase is Running {
            if added.len() > 0 && accepts(added.last()) {
                lemma_sink_after_insert(s.entries, channel, s.next_sink, channel);
                assert((earlier + added).last() == added.last());
            } else {
                assert(after == s);
                assert(added.len() == 1);
                assert((earlier + added).last() == added[0]);
                assert((earlier + added).drop_last() =~= earlier);
            }
        }
    }
}

/// Subscribe, then unsubscribe at once. Whatever the request asks for and
/// however its send goes, the channel then has no entry, and a registry that
/// was empty is empty again; where the send went well, the registry is as if
/// the channel had only been taken out. None of the three steps puts anything
/// into a sink, and a sink that the subscription was granted is closed.
pub proof fn lemma_subscribe_then_unsubscribe(
    s: SessionView,
    channel: Channel,
    wire: Option<Seq<char>>,
    outcome: Result<(), tokio_tungstenite::tungstenite::Error>,
    unsubscribe_wire: Option<Seq<char>>,
)
    requires
        s.wf(),
        s.phase is Running,
    ensures
        ({
            let (s1, e1) = s.on_subscribe(channel, wire);
            let (s2, e2) = s1.on_subscribe_sent(channel, outcome);
            let (s3, e3) = s2.on_unsubscribe(channel, unsubscribe_wire);
            &&& outcome is Ok ==> s3.entries == without(s.entries, channel)
            &&& s.entries.len() == 0 ==> s3.entries.len() == 0
            &&& sink_of(s3.entries, channel) is None
            &&& forall|i: int| 0 <= i < e1.len() ==> !delivers(#[trigger] e1[i])
            &&& forall|i: int| 0 <= i < e2.len() ==> !delivers(#[trigger] e2[i])
            &&& forall|i: int| 0 <= i < e3.len() ==> !delivers(#[trigger] e3[i])
            &&& forall|sink: SinkId|
                e2.contains(EffectView::SubscribeAccepted { sink, channel }) ==> e3.contains(
                    EffectView::CloseSink(sink),
                )
        }),
{
    let (s1, e1) = s.on_subscribe(channel, wire);
    let (s2, e2) = s1.on_subscribe_sent(channel, outcome);
    let (s3, e3) = s2.on_unsubscribe(channel, unsubscribe_wire);
    lemma_insert_then_remove(s.entries, channel, s.next_sink);
    lemma_position_meaning(s.entries, channel);
    lemma_step_keeps_invariant(s, EventView::SubscribeSent { channel, outcome });
    lemma_sink_after_remove(s2.entries, channel, channel);
    assert(s1 == s);
    if outcome is Ok && s.next_sink != u64::MAX {
        lemma_sink_after_insert(s.entries, channel, s.next_sink, channel);
        assert(e3[0] == EffectView::CloseSink(s.next_sink));
        assert forall|sink: SinkId|
            e2.contains(EffectView::SubscribeAccepted { sink, channel }) implies e3.contains(
            EffectView::CloseSink(sink),
        ) by {
            let i = choose|i: int|
                0 <= i < e2.len() && e2[i] == (EffectView::SubscribeAccepted { sink, channel });
            assert(sink == s.next_sink);
        }
    } else if outcome is Ok {
        assert(s2 == s);
    } else {
        assert(s2 == s.ended());
        assert(e2 =~= seq![
            EffectView::SubscribeRejected(
                super::DflowWsErrorView::ConnectionFailed(outcome->Err_0),
            ),
        ] + s.close_all());
        assert forall|i: int| 0 <= i < e2.len() implies !delivers(#[trigger] e2[i]) by {
            if i > 0 {
                assert(e2[i] == s.close_all()[i - 1]);
            }
        }
        assert forall|sink: SinkId|
            e2.contains(EffectView::SubscribeAccepted { sink, channel }) implies e3.contains(
            EffectView::CloseSink(sink),
        ) by {
            let i = choose|i: int|
                0 <= i < e2.len() && e2[i] == (EffectView::SubscribeAccepted { sink, channel });
            if i > 0 {
                assert(e2[i] == s.close_all()[i - 1]);
            }
        }
    }
}

/// Whether the effects close the sink.
pub open spec fn closes(effects: Seq<EffectView>, sink: SinkId) -> bool {
    effects.contains(EffectView::CloseSink(sink))
}

/// The sink of the subscription that the effect grants, if it grants one.
pub open spec fn granted_sink(effect: EffectView) -> Option<SinkId> {
    match effect {
        EffectView::SubscribeAccepted { sink, .. } => Some(sink),
        _ => None,
    }
}

/// Whether the effects grant a subscription that the sink serves.
pub open spec fn grants(effects: Seq<EffectView>, sink: SinkId) -> bool {
    exists|i: int| 0 <= i < effects.len() && granted_sink(#[trigger] effects[i]) == Some(sink)
}

/// Whether the event says that a subscribe request was written to the socket.
pub open spec fn sent_with_success(event: EventView) -> bool {
    match event {
        EventView::SubscribeSent { outcome, .. } => outcome is Ok,
        _ => false,
    }
}

/// Whether the effects close the sink twice.
pub open spec fn closes_twice(effects: Seq<EffectView>, sink: SinkId) -> bool {
    exists|i: int, j: int|
        0 <= i < j < effects.len() && #[trigger] effects[i] == EffectView::CloseSink(sink)
            && #[trigger] effects[j] == EffectView::CloseSink(sink)
}

/// The life of a sink through one step. A sink is closed only if it was live, and
/// then it is live no more; a sink that stops being live is closed; a sink
/// becomes live only by being granted, which happens only when a subscribe
/// request was sent with success, and then its identifier is a fresh one; and no
/// step closes a sink twice.
pub proof fn lemma_sink_life_in_a_step(s: SessionView, event: EventView, sink: SinkId)
    requires
        s.wf(),
    ensures
        closes(s.step(event).1, sink) <==> live(s.entries, sink) && !live(
            s.step(event).0.entries,
            sink,
        ),
        grants(s.step(event).1, sink) <==> !live(s.entries, sink) && live(
            s.step(event).0.entries,
            sink,
        ),
        grants(s.step(event).1, sink) ==> s.next_sink == sink && sink < s.step(event).0.next_sink
            && sent_with_success(event),
        !closes_twice(s.step(event).1, sink),
{
    let (after, fx) = s.step(event);
    assert(!live(s.entries, s.next_sink)) by {
        if live(s.entries, s.next_sink) {
            let i = choose|i: int|
                0 <= i < s.entries.len() && (#[trigger] s.entries[i]).sink == s.next_sink;
            assert(s.entries[i].sink < s.next_sink);
        }
    }
    match event {
        EventView::SubscribeSent { channel, outcome } => {
            if s.phase is Running && outcome is Ok && s.next_sink != u64::MAX {
                lemma_live_after_insert(s.entries, channel, s.next_sink, sink);
                lemma_sink_is_live(s.entries, channel);
                let accepted = EffectView::SubscribeAccepted { sink: s.next_sink, channel };
                match sink_of(s.entries, channel) {
                    Some(old) => {
                        assert(fx =~= seq![EffectView::CloseSink(old), accepted]);
                        assert(fx[0] == EffectView::CloseSink(old));
                        assert(fx[1] == accepted);
                    },
                    None => {
                        assert(fx =~= seq![accepted]);
                        assert(fx[0] == accepted);
                    },
                }
            } else if s.phase is Running && outcome is Err {
                lemma_close_all(s, sink);
                assert(fx =~= seq![
                    EffectView::SubscribeRejected(
                        super::DflowWsErrorView::ConnectionFailed(outcome->Err_0),
                    ),
                ] + s.close_all());
                let head = seq![
                    EffectView::SubscribeRejected(
                        super::DflowWsErrorView::ConnectionFailed(outcome->Err_0),
                    ),
                ];
                assert forall|i: int| 1 <= i < fx.len() implies fx[i] == s.close_all()[i - 1] by {}
                if closes(s.close_all(), sink) {
                    let i = choose|i: int|
                        0 <= i < s.close_all().len() && s.close_all()[i] == EffectView::CloseSink(
                            sink,
                        );
                    assert(fx[i + 1] == EffectView::CloseSink(sink));
                }
                if closes(fx, sink) {
                    let i = choose|i: int|
                        0 <= i < fx.len() && fx[i] == EffectView::CloseSink(sink);
                    assert(s.close_all()[i - 1] == EffectView::CloseSink(sink));
                }
                if closes_twice(fx, sink) {
                    let (i, j) = choose|i: int, j: int|
                        0 <= i < j < fx.len() && #[trigger] fx[i] == EffectView::CloseSink(sink)
                            && #[trigger] fx[j] == EffectView::CloseSink(sink);
                    assert(s.close_all()[i - 1] == EffectView::CloseSink(sink));
                    assert(s.close_all()[j - 1] == EffectView::CloseSink(sink));
                }
                if grants(fx, sink) {
                    let i = choose|i: int|
                        0 <= i < fx.len() && granted_sink(#[trigger] fx[i]) == Some(sink);
                    assert(i >= 1);
                    assert(fx[i] == s.close_all()[i - 1]);
                }
            }
        },
        EventView::Unsubscribe(channel) => {
            if s.phase is Running {
                lemma_live_after_remove(s.entries, channel, sink);
                lemma_sink_is_live(s.entries, channel);
                let text = EffectView::Send {
                    frame: FrameView::Text(SessionView::unsubscribe_text(channel)),
                    report: SendReport::Ignore,
                };
                match sink_of(s.entries, channel) {
                    Some(old) => {
                        assert(fx =~= seq![
                            EffectView::CloseSink(old),
                            text,
                            EffectView::UnsubscribeAcknowledged,
                        ]);
                        assert(fx[0] == EffectView::CloseSink(old));
                    },
                    None => {
                        assert(fx =~= seq![text, EffectView::UnsubscribeAcknowledged]);
                    },
                }
            }
        },
        EventView::Frame(FrameView::Close(_)) => {
            lemma_close_all(s, sink);
        },
        EventView::SocketFailed => {
            lemma_close_all(s, sink);
        },
        EventView::SocketEnded => {
            lemma_close_all(s, sink);
        },
        EventView::CloseFlushed => {
            lemma_close_all(s, sink);
        },
        _ => {},
    }
}

/// The sink that a channel feeds is live.
proof fn lemma_sink_is_live(entries: Seq<super::registry::SubscriptionEntry>, channel: Channel)
    ensures
        sink_of(entries, channel) matches Some(sink) ==> live(entries, sink),
{
    lemma_position_meaning(entries, channel);
}

/// Closing all closes exactly the live sinks, each once, and grants nothing.
proof fn lemma_close_all(s: SessionView, sink: SinkId)
    requires
        s.wf(),
    ensures
        closes(s.close_all(), sink) <==> live(s.entries, sink),
        !closes_twice(s.close_all(), sink),
        !grants(s.close_all(), sink),
        s.close_all().len() == s.entries.len(),
{
    let all = s.close_all();
    if live(s.entries, sink) {
        let i = choose|i: int| 0 <= i < s.entries.len() && (#[trigger] s.entries[i]).sink == sink;
        assert(all[i] == EffectView::CloseSink(sink));
    }
    if closes(all, sink) {
        let i = choose|i: int| 0 <= i < all.len() && all[i] == EffectView::CloseSink(sink);
        assert(s.entries[i].sink == sink);
    }
    if closes_twice(all, sink) {
        let (i, j) = choose|i: int, j: int|
            0 <= i < j < all.len() && #[trigger] all[i] == EffectView::CloseSink(sink)
                && #[trigger] all[j] == EffectView::CloseSink(sink);
        assert(s.entries[i].sink != s.entries[j].sink);
    }
}

/// What two runs of effects do to a sink, one after the other.
proof fn lemma_effects_joined(a: Seq<EffectView>, b: Seq<EffectView>, sink: SinkId)
    ensures
        closes(a + b, sink) <==> closes(a, sink) || closes(b, sink),
        grants(a + b, sink) <==> grants(a, sink) || grants(b, sink),
        closes_twice(a + b, sink) <==> closes_twice(a, sink) || closes_twice(b, sink) || (closes(
            a,
            sink,
        ) && closes(b, sink)),
{
    let ab = a + b;
    let close = EffectView::CloseSink(sink);
    assert forall|i: int| 0 <= i < a.len() implies #[trigger] ab[i] == a[i] by {}
    assert forall|i: int| 0 <= i < b.len() implies #[trigger] ab[i + a.len()] == b[i] by {}
    if closes(a, sink) {
        let i = choose|i: int| 0 <= i < a.len() && a[i] == close;
        assert(ab[i] == close);
    }
    if closes(b, sink) {
        let i = choose|i: int| 0 <= i < b.len() && b[i] == close;
        assert(ab[i + a.len()] == close);
    }
    if closes(ab, sink) {
        let i = choose|i: int| 0 <= i < ab.len() && ab[i] == close;
        if i < a.len() {
            assert(a[i] == close);
        } else {
            assert(ab[(i - a.len()) + a.len()] == b[i - a.len()]);
            assert(b[i - a.len()] == close);
        }
    }
    if grants(a, sink) {
        let i = choose|i: int| 0 <= i < a.len() && granted_sink(#[trigger] a[i]) == Some(sink);
        assert(granted_sink(ab[i]) == Some(sink));
    }
    if grants(b, sink) {
        let i = choose|i: int| 0 <= i < b.len() && granted_sink(#[trigger] b[i]) == Some(sink);
        assert(granted_sink(ab[i + a.len()]) == Some(sink));
    }
    if grants(ab, sink) {
        let i = choose|i: int| 0 <= i < ab.len() && granted_sink(#[trigger] ab[i]) == Some(sink);
        if i < a.len() {
            assert(granted_sink(a[i]) == Some(sink));
        } else {
            assert(ab[(i - a.len()) + a.len()] == b[i - a.len()]);
            assert(granted_sink(b[i - a.len()]) == Some(sink));
        }
    }
    if closes_twice(a, sink) {
        let (i, j) = choose|i: int, j: int|
            0 <= i < j < a.len() && #[trigger] a[i] == close && #[trigger] a[j] == close;
        assert(ab[i] == close && ab[j] == close);
    }
    if closes_twice(b, sink) {
        let (i, j) = choose|i: int, j: int|
            0 <= i < j < b.len() && #[trigger] b[i] == close && #[trigger] b[j] == close;
        assert(ab[i + a.len()] == close && ab[j + a.len()] == close);
    }
    if closes(a, sink) && closes(b, sink) {
        let i = choose|i: int| 0 <= i < a.len() && a[i] == close;
        let j = choose|j: int| 0 <= j < b.len() && b[j] == close;
        assert(ab[i] == close && ab[j + a.len()] == close);
    }
    if closes_twice(ab, sink) {
        let (i, j) = choose|i: int, j: int|
            0 <= i < j < ab.len() && #[trigger] ab[i] == close && #[trigger] ab[j] == close;
        if j < a.len() {
            assert(a[i] == close && a[j] == close);
        } else if i >= a.len() {
            assert(ab[(i - a.len()) + a.len()] == b[i - a.len()]);
            assert(ab[(j - a.len()) + a.len()] == b[j - a.len()]);
            assert(b[i - a.len()] == close && b[j - a.len()] == close);
        } else {
            assert(a[i] == close);
            assert(ab[(j - a.len()) + a.len()] == b[j - a.len()]);
            assert(b[j - a.len()] == close);
        }
    }
}

/// No sink is leaked, and none is closed twice. In any run of events: a sink that
/// is live at the end was live at the start or was granted on the way; a sink
/// that was live at the start or was granted on the way, and is not live at the
/// end, has been closed; a sink is closed only if it was live or granted, and
/// is then live no more; no sink is closed twice; and a granted sink has an
/// identifier that was never in use before.
pub proof fn lemma_sink_life_in_a_run(start: SessionView, events: Seq<EventView>, sink: SinkId)
    requires
        start.wf(),
    ensures
        live(run(start, events).entries, sink) ==> live(start.entries, sink) || grants(
            effects_of(start, events),
            sink,
        ),
        (live(start.entries, sink) || grants(effects_of(start, events), sink)) && !live(
            run(start, events).entries,
            sink,
        ) ==> closes(effects_of(start, events), sink),
        closes(effects_of(start, events), sink) ==> (live(start.entries, sink) || grants(
            effects_of(start, events),
            sink,
        )) && !live(run(start, events).entries, sink),
        !closes_twice(effects_of(start, events), sink),
        grants(effects_of(start, events), sink) ==> start.next_sink <= sink < run(
            start,
            events,
        ).next_sink && !live(start.entries, sink),
    decreases events.len(),
{
    lemma_sink_is_issued(start, sink);
    if events.len() > 0 {
        let before = events.drop_last();
        let s = run(start, before);
        let earlier = effects_of(start, before);
        let (after, added) = s.step(events.last());
        lemma_sink_life_in_a_run(start, before, sink);
        lemma_run_keeps_invariant(start, before);
        lemma_step_keeps_invariant(s, events.last());
        lemma_sink_life_in_a_step(s, events.last(), sink);
        lemma_effects_joined(earlier, added, sink);
        lemma_sink_is_issued(s, sink);
        lemma_sink_is_issued(after, sink);
    } else {
        assert(!closes(Seq::<EffectView>::empty(), sink));
        assert(!grants(Seq::<EffectView>::empty(), sink));
        assert(!closes_twice(Seq::<EffectView>::empty(), sink));
    }
}

/// A live sink was issued before the next one.
proof fn lemma_sink_is_issued(s: SessionView, sink: SinkId)
    requires
        s.wf(),
    ensures
        live(s.entries, sink) ==> sink < s.next_sink,
{
    if live(s.entries, sink) {
        let i = choose|i: int| 0 <= i < s.entries.len() && (#[trigger] s.entries[i]).sink == sink;
        assert(s.entries[i].sink < s.next_sink);
    }
}

/// A payload reaches a sink only through an inbound text frame whose routing key
/// names a subscribed channel, and then it reaches the sink of that channel and
/// no other. So a frame for a channel without an entry is dropped: the step has
/// no effect on any sink and leaves the state as it was.
pub proof fn lemma_delivery_needs_entry(s: SessionView, event: EventView, i: int)
    requires
        s.wf(),
        0 <= i < s.step(event).1.len(),
        delivers(s.step(event).1[i]),
    ensures
        s.phase is Running,
        event matches EventView::Frame(FrameView::Text(text)) && spec_routing_key(text) is Some && (
        match channel_named(spec_routing_key(text)->0) {
            Some(channel) => s.step(event).1 == seq![
                EffectView::Deliver { sink: sink_of(s.entries, channel)->0, payload: text },
            ] && sink_of(s.entries, channel) is Some,
            None => false,
        }),
{
    match event {
        EventView::SubscribeSent { channel, outcome } => {
            let fx = s.step(event).1;
            if s.phase is Running && outcome is Err {
                if i > 0 {
                    assert(fx[i] == s.close_all()[i - 1]);
                }
            }
        },
        EventView::Unsubscribe(channel) => {},
        EventView::Frame(FrameView::Close(_)) => {},
        EventView::SocketFailed => {},
        EventView::SocketEnded => {},
        EventView::CloseFlushed => {},
        _ => {},
    }
}

/// An inbound text whose routing key names no subscribed channel is dropped: the
/// state stays as it was, and nothing is put into any sink.
pub proof fn lemma_unrouted_text_is_dropped(s: SessionView, key: Option<Seq<char>>, payload: Seq<char>)
    requires
        key is None || channel_named(key->0) is None || sink_of(
            s.entries,
            channel_named(key->0)->0,
        ) is None,
    ensures
        s.on_text(key, payload).0 == s,
        forall|i: int|
            0 <= i < s.on_text(key, payload).1.len() ==> !delivers(
                #[trigger] s.on_text(key, payload).1[i],
            ),
{
}

/// Shutdown ends every subscription. A running session that is asked to shut
/// down and then told that the close frame is flushed has ended: it holds no
/// entry, and the second step closes the sink of every entry that was there.
pub proof fn lemma_shutdown_closes_every_sink(s: SessionView)
    requires
        s.wf(),
        s.phase is Running,
    ensures
        s.step(EventView::Shutdown).0.phase is ShuttingDown,
        s.step(EventView::Shutdown).0.step(EventView::CloseFlushed).0.phase is Terminated,
        s.step(EventView::Shutdown).0.step(EventView::CloseFlushed).0.entries.len() == 0,
        s.step(EventView::Shutdown).0.step(EventView::CloseFlushed).1.len() == s.entries.len(),
        forall|i: int|
            0 <= i < s.entries.len() ==> s.step(EventView::Shutdown).0.step(
                EventView::CloseFlushed,
            ).1[i] == EffectView::CloseSink(#[trigger] s.entries[i].sink),
{
}

/// Once a session is no longer running, no run of events grants a subscription
/// or puts anything into a sink, and the session never runs again.
pub proof fn lemma_nothing_after_shutdown(start: SessionView, events: Seq<EventView>)
    requires
        start.wf(),
        !(start.phase is Running),
    ensures
        !(run(start, events).phase is Running),
        forall|i: int|
            0 <= i < effects_of(start, events).len() ==> !accepts(
                #[trigger] effects_of(start, events)[i],
            ) && !delivers(effects_of(start, events)[i]),
    decreases events.len(),
{
    lemma_run_keeps_invariant(start, events);
    if events.len() > 0 {
        let before = events.drop_last();
        lemma_nothing_after_shutdown(start, before);
        lemma_run_keeps_invariant(start, before);
        let s = run(start, before);
        let earlier = effects_of(start, before);
        let added = s.step(events.last()).1;
        assert forall|i: int| 0 <= i < added.len() implies !accepts(#[trigger] added[i])
            && !delivers(added[i]) by {
            lemma_stopped_step(s, events.last(), i);
        }
        assert forall|i: int| 0 <= i < (earlier + added).len() implies !accepts(
            #[trigger] (earlier + added)[i],
        ) && !delivers((earlier + added)[i]) by {
            if i < earlier.len() {
                assert((earlier + added)[i] == earlier[i]);
            } else {
                assert((earlier + added)[i] == added[i - earlier.len()]);
            }
        }
    }
}

/// One step of a session that is no longer running grants nothing and delivers
/// nothing.
proof fn lemma_stopped_step(s: SessionView, event: EventView, i: int)
    requires
        s.wf(),
        !(s.phase is Running),
        0 <= i < s.step(event).1.len(),
    ensures
        !accepts(s.step(event).1[i]),
        !delivers(s.step(event).1[i]),
{
}

/// A ping is answered at once. A running session answers an inbound ping with
/// one effect, the pong of the same payload, and changes nothing else.
pub proof fn lemma_ping_is_answered(s: SessionView, data: Seq<u8>)
    requires
        s.phase is Running,
    ensures
        s.step(EventView::Frame(FrameView::Ping(data))) == (
            s,
            seq![EffectView::Send { frame: FrameView::Pong(data), report: SendReport::Fatal }],
        ),
{
}

/// The effects of the first events of a run come first among the effects of the
/// whole run.
pub proof fn lemma_effects_keep_their_order(start: SessionView, events: Seq<EventView>, k: int)
    requires
        0 <= k <= events.len(),
    ensures
        effects_of(start, events.take(k)).is_prefix_of(effects_of(start, events)),
    decreases events.len(),
{
    if k == events.len() {
        assert(events.take(k) =~= events);
    } else {
        let before = events.drop_last();
        lemma_effects_keep_their_order(start, before, k);
        assert(before.take(k) =~= events.take(k));
        let a = effects_of(start, events.take(k));
        let b = effects_of(start, before);
        let c = effects_of(start, events);
        assert(c.subrange(0, b.len() as int) =~= b);
        assert(c.subrange(0, a.len() as int) =~= b.subrange(0, a.len() as int));
    }
}

/// The pong comes before the next frame is looked at. In any run, whatever
/// subscribe and unsubscribe traffic is interleaved, a ping that a running
/// session receives as its `k`-th event has its pong as the last effect of the
/// first `k + 1` events, and those effects stand, in that order, at the front of
/// the effects of the whole run: nothing that a later event asks for comes before
/// the pong.
pub proof fn lemma_pong_before_next_frame(
    start: SessionView,
    events: Seq<EventView>,
    k: int,
    data: Seq<u8>,
)
    requires
        0 <= k < events.len(),
        events[k] == EventView::Frame(FrameView::Ping(data)),
        run(start, events.take(k)).phase is Running,
    ensures
        effects_of(start, events.take(k + 1)) == effects_of(start, events.take(k)).push(
            EffectView::Send { frame: FrameView::Pong(data), report: SendReport::Fatal },
        ),
        effects_of(start, events.take(k + 1)).is_prefix_of(effects_of(start, events)),
        run(start, events.take(k + 1)) == run(start, events.take(k)),
{
    lemma_effects_keep_their_order(start, events, k + 1);
    let upto = events.take(k + 1);
    assert(upto.drop_last() =~= events.take(k));
    assert(upto.last() == events[k]);
    lemma_ping_is_answered(run(start, events.take(k)), data);
    assert(effects_of(start, events.take(k)) + seq![
        EffectView::Send { frame: FrameView::Pong(data), report: SendReport::Fatal },
    ] =~= effects_of(start, events.take(k)).push(
        EffectView::Send { frame: FrameView::Pong(data), report: SendReport::Fatal },
    ));
}

} // verus!
