use dflow_api_client::prediction::websocket::registry::SinkId;
use dflow_api_client::prediction::websocket::session::{
    Effect, Event, Frame, Phase, SendReport, SessionLoop, UnsubscribeCapability, CLOSE_NORMAL,
};
use dflow_api_client::prediction::websocket::subscription::{Delivery, Subscription};
use dflow_api_client::prediction::websocket::types::{Channel, SubscribeMessage, WsMessage};
use dflow_api_client::prediction::websocket::DflowWsError;
use tokio_tungstenite::tungstenite::Error as SocketError;

const PRICE_FRAME: &str = "{\"channel\":\"prices\",\"marketTicker\":\"X-1\",\"yesBid\":\"0.42\"}";

fn subscribe(session: &mut SessionLoop, request: SubscribeMessage) -> (SinkId, UnsubscribeCapability, Vec<Effect>) {
    let channel = request.channel;
    let effects = session.step(Event::Subscribe(request));
    assert_eq!(effects.len(), 1);
    assert!(matches!(
        &effects[0],
        Effect::Send { frame: Frame::Text(_), report: SendReport::Subscription(c) } if *c == channel
    ));
    let mut effects = session.step(Event::SubscribeSent { channel, outcome: Ok(()) });
    match effects.pop() {
        Some(Effect::SubscribeAccepted { sink, capability }) => (sink, capability, effects),
        other => panic!("unexpected effect {:?}", other),
    }
}

fn text(frame: &str) -> Event {
    Event::Frame(Frame::Text(frame.to_string()))
}

#[test]
fn price_frame_reaches_its_subscriber_once() {
    let mut session = SessionLoop::new();
    let effects = session.step(Event::Subscribe(SubscribeMessage::all(Channel::Prices)));
    assert_eq!(effects.len(), 1);
    match &effects[0] {
        Effect::Send { frame: Frame::Text(wire), report } => {
            assert_eq!(wire, "{\"type\":\"subscribe\",\"channel\":\"prices\",\"all\":true}");
            assert_eq!(*report, SendReport::Subscription(Channel::Prices));
        }
        other => panic!("unexpected effect {:?}", other),
    }
    assert_eq!(session.subscription_count(), 0);
    let effects = session.step(Event::SubscribeSent { channel: Channel::Prices, outcome: Ok(()) });
    assert_eq!(effects.len(), 1);
    let (sink, capability) = match effects.into_iter().next() {
        Some(Effect::SubscribeAccepted { sink, capability }) => (sink, capability),
        other => panic!("unexpected effect {:?}", other),
    };
    assert_eq!(sink, 0);
    assert_eq!(capability.channel(), Channel::Prices);
    assert_eq!(session.sink_for(Channel::Prices), Some(0));
    let mut subscription = Subscription::new(Channel::Prices);

    let effects = session.step(text(PRICE_FRAME));
    assert_eq!(effects.len(), 1);
    let mut updates = Vec::new();
    match &effects[0] {
        Effect::Deliver { sink: to, payload } => {
            assert_eq!(*to, sink);
            assert_eq!(payload, PRICE_FRAME);
            match subscription.receive(Some(payload.as_str())) {
                Delivery::Item(WsMessage::Price(update)) => updates.push(update),
                other => panic!("unexpected delivery {:?}", other),
            }
        }
        other => panic!("unexpected effect {:?}", other),
    }
    assert_eq!(updates.len(), 1);
    assert_eq!(updates[0].market_ticker, "X-1");
    assert_eq!(updates[0].channel, "prices");
    assert_eq!(updates[0].yes_bid.as_deref(), Some("0.42"));
    assert_eq!(updates[0].yes_ask, None);

    let effects = session.step(capability.redeem());
    assert_eq!(effects.len(), 3);
    assert!(matches!(effects[0], Effect::CloseSink(0)));
    match &effects[1] {
        Effect::Send { frame: Frame::Text(wire), report: SendReport::Ignore } => {
            assert_eq!(wire, "{\"type\":\"unsubscribe\",\"channel\":\"prices\",\"all\":true}");
        }
        other => panic!("unexpected effect {:?}", other),
    }
    assert!(matches!(effects[2], Effect::UnsubscribeAcknowledged));
    assert!(matches!(subscription.receive(None), Delivery::Ended));
    assert!(subscription.is_ended());

    let effects = session.step(text(PRICE_FRAME));
    assert!(effects.is_empty());
    assert!(matches!(subscription.receive(Some(PRICE_FRAME)), Delivery::Ended));
    assert_eq!(session.subscription_count(), 0);
    assert_eq!(session.phase(), Phase::Running);
}

#[test]
fn each_subscriber_gets_only_its_own_channel() {
    let mut session = SessionLoop::new();
    let (trades, _t, _) = subscribe(&mut session, SubscribeMessage::all(Channel::Trades));
    let (orderbook, _o, _) = subscribe(&mut session, SubscribeMessage::all(Channel::Orderbook));
    assert_ne!(trades, orderbook);
    let trade_frame = "{\"channel\":\"trades\",\"type\":\"trade\",\"marketTicker\":\"T-1\",\"tradeId\":\"t9\",\"price\":41,\"count\":3,\"yesPrice\":41,\"noPrice\":59,\"yesPriceDollars\":\"0.41\",\"noPriceDollars\":\"0.59\",\"takerSide\":\"yes\",\"createdTime\":1700000000000}";
    let book_frame = "{\"channel\":\"orderbook\",\"type\":\"orderbook\",\"marketTicker\":\"O-1\",\"yesBids\":{\"0.40\":10},\"noBids\":{}}";

    let effects = session.step(text(trade_frame));
    assert_eq!(effects.len(), 1);
    match &effects[0] {
        Effect::Deliver { sink, payload } => {
            assert_eq!(*sink, trades);
            match WsMessage::from_json(Channel::Trades, payload) {
                Some(WsMessage::Trade(update)) => {
                    assert_eq!(update.market_ticker, "T-1");
                    assert_eq!(update.price, 41);
                    assert_eq!(update.created_time, 1_700_000_000_000);
                }
                other => panic!("unexpected message {:?}", other),
            }
        }
        other => panic!("unexpected effect {:?}", other),
    }
    let effects = session.step(text(book_frame));
    assert_eq!(effects.len(), 1);
    match &effects[0] {
        Effect::Deliver { sink, payload } => {
            assert_eq!(*sink, orderbook);
            match WsMessage::from_json(Channel::Orderbook, payload) {
                Some(WsMessage::Orderbook(update)) => {
                    assert_eq!(update.market_ticker, "O-1");
                    assert_eq!(update.yes_bids.get("0.40"), Some(&10));
                    assert!(update.no_bids.is_empty());
                }
                other => panic!("unexpected message {:?}", other),
            }
        }
        other => panic!("unexpected effect {:?}", other),
    }
    // No price subscriber: a price frame goes nowhere.
    assert!(session.step(text(PRICE_FRAME)).is_empty());
}

#[test]
fn last_subscribe_wins() {
    let mut session = SessionLoop::new();
    let (first, _c1, closed) = subscribe(&mut session, SubscribeMessage::all(Channel::Prices));
    assert!(closed.is_empty());
    let (second, _c2, closed) = subscribe(
        &mut session,
        SubscribeMessage::tickers(Channel::Prices, vec!["X-1".to_string()]),
    );
    assert_eq!((first, second), (0, 1));
    assert_eq!(closed.len(), 1);
    assert!(matches!(closed[0], Effect::CloseSink(0)));
    let (third, _c3, closed) = subscribe(&mut session, SubscribeMessage::all(Channel::Prices));
    assert_eq!(third, 2);
    assert!(matches!(closed[0], Effect::CloseSink(1)));
    assert_eq!(session.subscription_count(), 1);
    assert_eq!(session.sink_for(Channel::Prices), Some(2));
    let effects = session.step(text(PRICE_FRAME));
    assert!(matches!(&effects[0], Effect::Deliver { sink: 2, .. }));
}

#[test]
fn failed_subscribe_send_is_answered_and_ends_the_session() {
    let mut session = SessionLoop::new();
    let (first, _c, _) = subscribe(&mut session, SubscribeMessage::all(Channel::Trades));
    let (second, _d, _) = subscribe(&mut session, SubscribeMessage::all(Channel::Prices));
    let effects = session.step(Event::Subscribe(SubscribeMessage::all(Channel::Orderbook)));
    assert_eq!(effects.len(), 1);
    assert_eq!(session.subscription_count(), 2);
    let effects = session.step(Event::SubscribeSent {
        channel: Channel::Orderbook,
        outcome: Err(SocketError::ConnectionClosed),
    });
    assert_eq!(effects.len(), 3);
    assert!(matches!(
        &effects[0],
        Effect::SubscribeRejected(DflowWsError::ConnectionFailed(SocketError::ConnectionClosed))
    ));
    assert!(matches!(&effects[1], Effect::CloseSink(s) if *s == first));
    assert!(matches!(&effects[2], Effect::CloseSink(s) if *s == second));
    assert_eq!(session.sink_for(Channel::Orderbook), None);
    assert_eq!(session.subscription_count(), 0);
    assert_eq!(session.phase(), Phase::Terminated);
}

#[test]
fn failed_unsubscribe_send_is_not_reported() {
    let mut session = SessionLoop::new();
    let (_sink, capability, _) = subscribe(&mut session, SubscribeMessage::all(Channel::Trades));
    let effects = session.step(capability.redeem());
    assert!(matches!(&effects[1], Effect::Send { report: SendReport::Ignore, .. }));
    assert_eq!(session.phase(), Phase::Running);
}

#[test]
fn subscribe_then_unsubscribe_leaves_the_registry_empty() {
    let mut session = SessionLoop::new();
    let (sink, capability, closed) = subscribe(&mut session, SubscribeMessage::all(Channel::Orderbook));
    assert!(closed.is_empty());
    let effects = session.step(capability.redeem());
    assert!(effects.iter().all(|e| !matches!(e, Effect::Deliver { .. })));
    assert!(matches!(&effects[0], Effect::CloseSink(s) if *s == sink));
    assert_eq!(session.subscription_count(), 0);
    assert_eq!(session.sink_for(Channel::Orderbook), None);
}

#[test]
fn unsubscribe_without_subscription_still_tells_the_server() {
    let mut session = SessionLoop::new();
    let effects = session.step(Event::Unsubscribe(Channel::Trades));
    assert_eq!(effects.len(), 2);
    match &effects[0] {
        Effect::Send { frame: Frame::Text(wire), report: SendReport::Ignore } => {
            assert_eq!(wire, "{\"type\":\"unsubscribe\",\"channel\":\"trades\",\"all\":true}");
        }
        other => panic!("unexpected effect {:?}", other),
    }
    assert!(matches!(effects[1], Effect::UnsubscribeAcknowledged));
}

#[test]
fn frame_for_unknown_channel_is_dropped() {
    let mut session = SessionLoop::new();
    let (_sink, _c, _) = subscribe(&mut session, SubscribeMessage::all(Channel::Prices));
    assert!(session.step(text("{\"channel\":\"weather\",\"marketTicker\":\"X-1\"}")).is_empty());
    assert!(session.step(text("{\"channel\":\"trades\",\"marketTicker\":\"X-1\"}")).is_empty());
    assert!(session.step(text("{\"channel\":\"Prices\"}")).is_empty());
    assert_eq!(session.subscription_count(), 1);
}

#[test]
fn malformed_text_is_recorded_and_the_session_goes_on() {
    let mut session = SessionLoop::new();
    let (sink, _c, _) = subscribe(&mut session, SubscribeMessage::all(Channel::Prices));
    for bad in ["", "not json", "[1,2]", "{\"marketTicker\":\"X-1\"}", "{\"channel\":7}", "{\"channel\":null}"] {
        let effects = session.step(text(bad));
        assert_eq!(effects.len(), 1, "for {:?}", bad);
        assert!(matches!(effects[0], Effect::Malformed), "for {:?}", bad);
    }
    assert_eq!(session.phase(), Phase::Running);
    let effects = session.step(text(PRICE_FRAME));
    assert!(matches!(&effects[0], Effect::Deliver { sink: to, .. } if *to == sink));
}

#[test]
fn ping_is_answered_with_the_same_payload() {
    let mut session = SessionLoop::new();
    let effects = session.step(Event::Frame(Frame::Ping(vec![1, 2, 3])));
    assert_eq!(effects.len(), 1);
    match &effects[0] {
        Effect::Send { frame: Frame::Pong(data), report: SendReport::Fatal } => {
            assert_eq!(data, &vec![1u8, 2, 3]);
        }
        other => panic!("unexpected effect {:?}", other),
    }
    assert_eq!(session.phase(), Phase::Running);
}

#[test]
fn pong_comes_before_anything_later() {
    let mut session = SessionLoop::new();
    let mut all = Vec::new();
    all.extend(session.step(Event::Subscribe(SubscribeMessage::all(Channel::Prices))));
    all.extend(session.step(Event::Frame(Frame::Ping(vec![9]))));
    let at = all.len() - 1;
    all.extend(session.step(Event::SubscribeSent { channel: Channel::Prices, outcome: Ok(()) }));
    all.extend(session.step(text(PRICE_FRAME)));
    all.extend(session.step(Event::Unsubscribe(Channel::Prices)));
    assert!(matches!(&all[at], Effect::Send { frame: Frame::Pong(d), .. } if d == &vec![9u8]));
    assert!(matches!(&all[at + 1], Effect::SubscribeAccepted { .. }));
    assert!(matches!(&all[at + 2], Effect::Deliver { .. }));
    assert_eq!(all.len(), at + 6);
}

#[test]
fn pong_and_binary_frames_change_nothing() {
    let mut session = SessionLoop::new();
    assert!(session.step(Event::Frame(Frame::Pong(vec![1]))).is_empty());
    assert!(session.step(Event::Frame(Frame::Binary(vec![1, 2]))).is_empty());
    assert_eq!(session.phase(), Phase::Running);
}

#[test]
fn tick_sends_an_empty_ping_whose_failure_is_fatal() {
    let mut session = SessionLoop::new();
    let (sink, _c, _) = subscribe(&mut session, SubscribeMessage::all(Channel::Prices));
    let effects = session.step(Event::Tick);
    assert_eq!(effects.len(), 1);
    match &effects[0] {
        Effect::Send { frame: Frame::Ping(data), report: SendReport::Fatal } => assert!(data.is_empty()),
        other => panic!("unexpected effect {:?}", other),
    }
    let effects = session.step(Event::SocketFailed);
    assert_eq!(effects.len(), 1);
    assert!(matches!(&effects[0], Effect::CloseSink(s) if *s == sink));
    assert!(session.is_terminated());
    assert!(session.step(Event::Tick).is_empty());
}

#[test]
fn shutdown_closes_every_sink_and_refuses_new_subscriptions() {
    let mut session = SessionLoop::new();
    let (prices, capability, _) = subscribe(&mut session, SubscribeMessage::all(Channel::Prices));
    let (trades, _c, _) = subscribe(&mut session, SubscribeMessage::all(Channel::Trades));
    let effects = session.step(Event::Shutdown);
    assert_eq!(effects.len(), 2);
    match &effects[0] {
        Effect::Send { frame: Frame::Close(Some(reason)), report: SendReport::Ignore } => {
            assert_eq!(reason.code, CLOSE_NORMAL);
            assert_eq!(reason.code, 1000);
            assert_eq!(reason.reason, "Client shutdown");
        }
        other => panic!("unexpected effect {:?}", other),
    }
    assert!(matches!(effects[1], Effect::Flush));
    assert_eq!(session.phase(), Phase::ShuttingDown);

    let effects = session.step(Event::Subscribe(SubscribeMessage::all(Channel::Orderbook)));
    assert_eq!(effects.len(), 1);
    assert!(matches!(&effects[0], Effect::SubscribeRejected(DflowWsError::SendFailed)));
    assert!(session.step(text(PRICE_FRAME)).is_empty());

    let effects = session.step(Event::CloseFlushed);
    assert_eq!(effects.len(), 2);
    assert!(matches!(&effects[0], Effect::CloseSink(s) if *s == prices));
    assert!(matches!(&effects[1], Effect::CloseSink(s) if *s == trades));
    assert_eq!(session.phase(), Phase::Terminated);
    assert!(session.is_terminated());
    assert_eq!(session.subscription_count(), 0);

    let effects = session.step(Event::Subscribe(SubscribeMessage::all(Channel::Prices)));
    assert!(matches!(&effects[0], Effect::SubscribeRejected(DflowWsError::SendFailed)));
    let effects = session.step(Event::SubscribeSent { channel: Channel::Prices, outcome: Ok(()) });
    assert_eq!(effects.len(), 1);
    match &effects[0] {
        Effect::SubscribeRejected(DflowWsError::ConnectionClosed(message)) => {
            assert_eq!(message, "Response channel closed");
        }
        other => panic!("unexpected effect {:?}", other),
    }
    // The capability of an ended session is a safe no-op.
    let effects = session.step(capability.redeem());
    assert_eq!(effects.len(), 1);
    assert!(matches!(effects[0], Effect::UnsubscribeAcknowledged));
    assert!(session.step(Event::Shutdown).is_empty());
    assert!(session.step(Event::CloseFlushed).is_empty());
    assert!(session.step(Event::Frame(Frame::Ping(vec![]))).is_empty());
    assert_eq!(session.phase(), Phase::Terminated);
}

#[test]
fn peer_close_ends_the_session_at_once() {
    let mut session = SessionLoop::new();
    let (sink, _c, _) = subscribe(&mut session, SubscribeMessage::all(Channel::Orderbook));
    let effects = session.step(Event::Frame(Frame::Close(None)));
    assert_eq!(effects.len(), 1);
    assert!(matches!(&effects[0], Effect::CloseSink(s) if *s == sink));
    assert_eq!(session.phase(), Phase::Terminated);
}

#[test]
fn end_of_stream_ends_the_session() {
    let mut session = SessionLoop::new();
    assert!(session.step(Event::SocketEnded).is_empty());
    assert_eq!(session.phase(), Phase::Terminated);
}

#[test]
fn close_flushed_means_nothing_to_a_running_session() {
    let mut session = SessionLoop::new();
    let (sink, _c, _) = subscribe(&mut session, SubscribeMessage::all(Channel::Prices));
    assert!(session.step(Event::CloseFlushed).is_empty());
    assert_eq!(session.phase(), Phase::Running);
    assert_eq!(session.sink_for(Channel::Prices), Some(sink));
}

#[test]
fn serialize_failure_is_answered_to_the_caller_alone() {
    let mut session = SessionLoop::new();
    let error = serde_json::from_str::<i32>("x").unwrap_err();
    let effects = session.on_subscribe(Channel::Prices, Err(error));
    assert_eq!(effects.len(), 1);
    assert!(matches!(&effects[0], Effect::SubscribeRejected(DflowWsError::SerializeError(_))));
    assert_eq!(session.phase(), Phase::Running);
    assert_eq!(session.subscription_count(), 0);
}

#[test]
fn exhausted_sink_identifiers_refuse_the_subscription() {
    let mut session = SessionLoop::with_first_sink(u64::MAX - 1);
    let (sink, _c, _) = subscribe(&mut session, SubscribeMessage::all(Channel::Prices));
    assert_eq!(sink, u64::MAX - 1);
    assert_eq!(session.next_sink(), u64::MAX);
    let effects = session.step(Event::Subscribe(SubscribeMessage::all(Channel::Trades)));
    assert_eq!(effects.len(), 1);
    match &effects[0] {
        Effect::SubscribeRejected(DflowWsError::SubscriptionFailed(message)) => {
            assert_eq!(message, "no sink identifier left");
        }
        other => panic!("unexpected effect {:?}", other),
    }
    let effects = session.step(Event::SubscribeSent { channel: Channel::Trades, outcome: Ok(()) });
    assert!(matches!(&effects[0], Effect::SubscribeRejected(DflowWsError::SubscriptionFailed(_))));
    assert_eq!(session.subscription_count(), 1);
}

#[test]
fn handlers_take_the_decoded_parts() {
    let mut session = SessionLoop::new();
    let effects = session.on_subscribe(Channel::Prices, Ok("wire".to_string()));
    assert!(matches!(&effects[0], Effect::Send { frame: Frame::Text(t), .. } if t == "wire"));
    let effects = session.on_subscribe_sent(Channel::Prices, Ok(()));
    assert!(matches!(&effects[0], Effect::SubscribeAccepted { sink: 0, .. }));
    let effects = session.on_text(Some("prices".to_string()), "payload".to_string());
    assert!(matches!(&effects[0], Effect::Deliver { sink: 0, payload } if payload == "payload"));
    assert!(session.on_text(Some("trades".to_string()), "payload".to_string()).is_empty());
    let effects = session.on_text(None, "payload".to_string());
    assert!(matches!(effects[0], Effect::Malformed));
    let effects = session.on_unsubscribe(Channel::Prices, None);
    assert_eq!(effects.len(), 2);
    assert!(matches!(effects[0], Effect::CloseSink(0)));
    assert!(matches!(effects[1], Effect::UnsubscribeAcknowledged));
    let effects = session.on_ping(vec![7]);
    assert!(matches!(&effects[0], Effect::Send { frame: Frame::Pong(d), .. } if d == &vec![7u8]));
    assert_eq!(session.on_tick().len(), 1);
    assert_eq!(session.on_shutdown().len(), 2);
    assert!(session.on_close_flushed().is_empty());
    assert!(session.is_terminated());
    assert!(session.on_socket_closed().is_empty());
}

#[test]
fn subscription_skips_what_it_cannot_read() {
    let mut subscription = Subscription::new(Channel::Prices);
    assert_eq!(subscription.channel(), Channel::Prices);
    assert!(matches!(subscription.receive(Some("{\"channel\":\"prices\"}")), Delivery::Skipped));
    assert!(matches!(subscription.receive(Some("garbage")), Delivery::Skipped));
    assert!(!subscription.is_ended());
    assert!(matches!(subscription.receive(Some(PRICE_FRAME)), Delivery::Item(WsMessage::Price(_))));
    assert!(matches!(subscription.take(Some(None)), Delivery::Skipped));
    assert!(matches!(subscription.take(None), Delivery::Ended));
    assert!(matches!(subscription.receive(Some(PRICE_FRAME)), Delivery::Ended));
}

#[test]
fn every_granted_sink_is_closed_exactly_once() {
    let mut session = SessionLoop::new();
    let mut effects = Vec::new();
    let mut granted = Vec::new();
    let events = vec![
        Event::SubscribeSent { channel: Channel::Prices, outcome: Ok(()) },
        Event::SubscribeSent { channel: Channel::Trades, outcome: Ok(()) },
        Event::SubscribeSent { channel: Channel::Prices, outcome: Ok(()) },
        Event::Unsubscribe(Channel::Trades),
        Event::Unsubscribe(Channel::Trades),
        Event::SubscribeSent { channel: Channel::Orderbook, outcome: Ok(()) },
        Event::Frame(Frame::Ping(vec![])),
        Event::SubscribeSent { channel: Channel::Trades, outcome: Ok(()) },
        Event::Shutdown,
        Event::SubscribeSent { channel: Channel::Prices, outcome: Ok(()) },
        Event::CloseFlushed,
        Event::SocketFailed,
    ];
    for event in events {
        effects.extend(session.step(event));
    }
    let mut closed = Vec::new();
    for effect in &effects {
        match effect {
            Effect::SubscribeAccepted { sink, .. } => {
                assert!(!granted.contains(sink));
                granted.push(*sink);
            }
            Effect::CloseSink(sink) => {
                assert!(granted.contains(sink));
                assert!(!closed.contains(sink));
                closed.push(*sink);
            }
            _ => {}
        }
    }
    assert_eq!(granted, vec![0, 1, 2, 3, 4]);
    assert_eq!(closed, vec![0, 1, 2, 3, 4]);
    assert!(session.is_terminated());
    assert_eq!(session.subscription_count(), 0);
}
