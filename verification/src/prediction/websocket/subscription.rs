//! The subscriber's side of a subscription: a sequence of typed updates that
//! ends when its sink is closed, and only then.

use vstd::prelude::*;
use super::types::{Channel, WsMessage, WsMessageView};

verus! {

/// What a subscriber's sequence makes of what its sink hands over.
#[derive(Debug)]
pub enum Delivery {
    /// The next update of the sequence.
    Item(WsMessage),
    /// The payload did not hold an update of the channel: it is passed over, and
    /// the sequence goes on.
    Skipped,
    /// The sink is closed: the sequence has ended.
    Ended,
}

/// [`Delivery`] as the contracts see it: strings as sequences of characters.
pub enum DeliveryView {
    Item(WsMessageView),
    Skipped,
    Ended,
}

impl DeepView for Delivery {
    type V = DeliveryView;

    open spec fn deep_view(&self) -> DeliveryView {
        match self {
            Delivery::Item(message) => DeliveryView::Item(message.deep_view()),
            Delivery::Skipped => DeliveryView::Skipped,
            Delivery::Ended => DeliveryView::Ended,
        }
    }
}

/// The reading end of a subscription.
#[derive(Debug)]
pub struct Subscription {
    channel: Channel,
    ended: bool,
}

/// A subscription as the contracts see it.
pub struct SubscriptionView {
    pub channel: Channel,
    pub ended: bool,
}

impl View for Subscription {
    type V = SubscriptionView;

    closed spec fn view(&self) -> SubscriptionView {
        SubscriptionView { channel: self.channel, ended: self.ended }
    }
}

impl SubscriptionView {
    /// What the sequence makes of the next thing from its sink: `None` is the
    /// sink's end, `Some(None)` a payload that holds no update of the channel,
    /// `Some(Some(m))` one that holds the update `m`. A sequence that has ended
    /// stays ended.
    pub open spec fn take(self, item: Option<Option<WsMessageView>>) -> (
        SubscriptionView,
        DeliveryView,
    ) {
        if self.ended {
            (self, DeliveryView::Ended)
        } else {
            match item {
                None => (SubscriptionView { ended: true, ..self }, DeliveryView::Ended),
                Some(None) => (self, DeliveryView::Skipped),
                Some(Some(message)) => (self, DeliveryView::Item(message)),
            }
        }
    }

    /// What the sequence makes of the next payload from its sink, or of the
    /// sink's end (`None`).
    pub open spec fn receive(self, payload: Option<Seq<char>>) -> (SubscriptionView, DeliveryView) {
        self.take(
            match payload {
                Some(text) => Some(WsMessageView::from_json(self.channel, text)),
                None => None,
            },
        )
    }
}

impl Subscription {
    /// The reading end of a new subscription to `channel`.
    pub fn new(channel: Channel) -> (subscription: Self)
        ensures
            subscription@ == (SubscriptionView { channel, ended: false }),
    {
        Subscription { channel, ended: false }
    }

    /// The channel of the subscription.
    pub fn channel(&self) -> (channel: Channel)
        ensures
            channel == self@.channel,
    {
        self.channel
    }

    /// Whether the sequence has ended.
    pub fn is_ended(&self) -> (ended: bool)
        ensures
            ended == self@.ended,
    {
        self.ended
    }

    /// Takes the next thing from the sink, already read: see
    /// [`SubscriptionView::take`].
    pub fn take(&mut self, item: Option<Option<WsMessage>>) -> (delivery: Delivery)
        ensures
            (final(self)@, delivery.deep_view()) == old(self)@.take(item.deep_view()),
    {
        if self.ended {
            return Delivery::Ended;
        }
        match item {
            None => {
                self.ended = true;
                Delivery::Ended
            },
            Some(None) => Delivery::Skipped,
            Some(Some(message)) => Delivery::Item(message),
        }
    }

    /// Takes the next payload from the sink (`None`: the sink is closed) and
    /// reads it as an update of the subscription's channel.
    pub fn receive(&mut self, payload: Option<&str>) -> (delivery: Delivery)
        ensures
            (final(self)@, delivery.deep_view()) == old(self)@.receive(payload.deep_view()),
    {
        let item = match payload {
            Some(text) => Some(WsMessage::from_json(self.channel, text)),
            None => None,
        };
        self.take(item)
    }
}

} // verus!
