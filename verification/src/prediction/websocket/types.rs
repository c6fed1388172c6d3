//! Message types of the streaming API.

use vstd::prelude::*;
use vstd::string::StringExecFns;
use std::collections::HashMap;
use crate::json::{
    defaulted_string_member, integer_map_member, integer_member, json_object_members,
    json_string_list, object_members, optional_string_member, read_defaulted_string_member,
    read_integer_map_member, read_integer_member, read_optional_string_member,
    read_string_member, string_member, write_string_list,
};

verus! {

/// The update categories a client can subscribe to.
#[derive(Debug, Clone, Copy, PartialEq, Eq, Hash, Structural)]
pub enum Channel {
    /// Real-time bid/ask price updates
    Prices,
    /// Real-time trade execution updates
    Trades,
    /// Real-time orderbook depth updates
    Orderbook,
}

impl Channel {
    /// The channel's identity on the wire, which is also its key in the registry.
    pub open spec fn name(self) -> Seq<char> {
        match self {
            Channel::Prices => "prices"@,
            Channel::Trades => "trades"@,
            Channel::Orderbook => "orderbook"@,
        }
    }

    /// Returns the channel name as a string slice.
    pub fn as_str(&self) -> (name: &'static str)
        ensures
            name@ == self.name(),
    {
        match self {
            Channel::Prices => "prices",
            Channel::Trades => "trades",
            Channel::Orderbook => "orderbook",
        }
    }
}

/// Message type for subscribe/unsubscribe operations.
#[derive(Debug, Clone, Copy, PartialEq, Eq, Structural)]
pub enum MessageType {
    Subscribe,
    Unsubscribe,
}

impl MessageType {
    /// The word that stands for the operation on the wire.
    pub open spec fn name(self) -> Seq<char> {
        match self {
            MessageType::Subscribe => "subscribe"@,
            MessageType::Unsubscribe => "unsubscribe"@,
        }
    }

    /// Returns the operation's wire name as a string slice.
    pub fn as_str(&self) -> (name: &'static str)
        ensures
            name@ == self.name(),
    {
        match self {
            MessageType::Subscribe => "subscribe",
            MessageType::Unsubscribe => "unsubscribe",
        }
    }
}

/// Subscription request message sent to the server.
///
/// Use this to subscribe to all markets or specific tickers on a channel.
#[derive(Debug, Clone)]
pub struct SubscribeMessage {
    pub msg_type: MessageType,
    pub channel: Channel,
    /// If true, subscribe to all markets on this channel.
    pub all: Option<bool>,
    /// Specific market tickers to subscribe to.
    pub tickers: Option<Vec<String>>,
}

/// A subscription request as the contracts see it.
pub struct SubscribeMessageView {
    pub msg_type: MessageType,
    pub channel: Channel,
    pub all: Option<bool>,
    pub tickers: Option<Seq<Seq<char>>>,
}

impl DeepView for SubscribeMessage {
    type V = SubscribeMessageView;

    open spec fn deep_view(&self) -> SubscribeMessageView {
        SubscribeMessageView {
            msg_type: self.msg_type,
            channel: self.channel,
            all: self.all,
            tickers: self.tickers.deep_view(),
        }
    }
}

impl SubscribeMessageView {
    /// The request as one line of JSON: `type`, `channel`, then `all` and `tickers`
    /// where they are set. `tickers_json` is the ticker list, already written as a
    /// JSON array.
    pub open spec fn wire_text(self, tickers_json: Option<Seq<char>>) -> Seq<char> {
        "{\"type\":\""@ + self.msg_type.name() + "\",\"channel\":\""@ + self.channel.name() + "\""@
            + (match self.all {
            Some(true) => ",\"all\":true"@,
            Some(false) => ",\"all\":false"@,
            None => Seq::<char>::empty(),
        }) + (match tickers_json {
            Some(list) => ",\"tickers\":"@ + list,
            None => Seq::<char>::empty(),
        }) + "}"@
    }

    /// The request on the wire; `None` where the ticker list cannot be written.
    pub open spec fn to_json(self) -> Option<Seq<char>> {
        match self.tickers {
            Some(list) => match json_string_list(list) {
                Some(text) => Some(self.wire_text(Some(text))),
                None => None,
            },
            None => Some(self.wire_text(None)),
        }
    }
}

impl SubscribeMessage {
    /// Create a subscription message for all markets on a channel.
    pub fn all(channel: Channel) -> (msg: Self)
        ensures
            msg.deep_view() == (SubscribeMessageView {
                msg_type: MessageType::Subscribe,
                channel,
                all: Some(true),
                tickers: None,
            }),
    {
        Self { msg_type: MessageType::Subscribe, channel, all: Some(true), tickers: None }
    }

    /// Create a subscription message for specific tickers on a channel.
    pub fn tickers(channel: Channel, tickers: Vec<String>) -> (msg: Self)
        ensures
            msg.deep_view() == (SubscribeMessageView {
                msg_type: MessageType::Subscribe,
                channel,
                all: None,
                tickers: Some(tickers.deep_view()),
            }),
    {
        Self { msg_type: MessageType::Subscribe, channel, all: None, tickers: Some(tickers) }
    }

    /// Create an unsubscription message for all markets on a channel.
    pub fn unsubscribe_all(channel: Channel) -> (msg: Self)
        ensures
            msg.deep_view() == (SubscribeMessageView {
                msg_type: MessageType::Unsubscribe,
                channel,
                all: Some(true),
                tickers: None,
            }),
    {
        Self { msg_type: MessageType::Unsubscribe, channel, all: Some(true), tickers: None }
    }

    /// Create an unsubscription message for specific tickers on a channel.
    pub fn unsubscribe_tickers(channel: Channel, tickers: Vec<String>) -> (msg: Self)
        ensures
            msg.deep_view() == (SubscribeMessageView {
                msg_type: MessageType::Unsubscribe,
                channel,
                all: None,
                tickers: Some(tickers.deep_view()),
            }),
    {
        Self { msg_type: MessageType::Unsubscribe, channel, all: None, tickers: Some(tickers) }
    }

    /// Lays the request out as one line of JSON around a ticker list that is
    /// already written.
    pub fn encode_with(&self, tickers_json: Option<&str>) -> (text: String)
        ensures
            text@ == self.deep_view().wire_text(
                match tickers_json {
                    Some(list) => Some(list@),
                    None => None,
                },
            ),
    {
        let mut text = "{\"type\":\"".to_owned();
        text.append(self.msg_type.as_str());
        text.append("\",\"channel\":\"");
        text.append(self.channel.as_str());
        text.append("\"");
        match self.all {
            Some(true) => text.append(",\"all\":true"),
            Some(false) => text.append(",\"all\":false"),
            None => {},
        }
        match tickers_json {
            Some(list) => {
                text.append(",\"tickers\":");
                text.append(list);
            },
            None => {},
        }
        text.append("}");
        text
    }

    /// Writes the request as it goes over the wire. The ticker list, where there is
    /// one, is written by `serde_json`; its error is handed on.
    pub fn to_json(&self) -> (text: Result<String, serde_json::Error>)
        ensures
            (match text {
                Ok(t) => self.deep_view().to_json() == Some(t@),
                Err(_) => self.deep_view().to_json() is None,
            }),
    {
        match &self.tickers {
            Some(list) => match write_string_list(list) {
                Ok(written) => Ok(self.encode_with(Some(written.as_str()))),
                Err(error) => Err(error),
            },
            None => Ok(self.encode_with(None)),
        }
    }
}

/// Price update message from the prices channel.
///
/// Contains real-time bid/ask prices for YES and NO outcomes.
#[derive(Debug, Clone)]
pub struct PriceUpdate {
    /// Always "prices"
    pub channel: String,
    /// Message type (e.g., "ticker")
    pub msg_type: String,
    /// Market ticker identifier
    pub market_ticker: String,
    /// Best bid price for YES outcome (may be null)
    pub yes_bid: Option<String>,
    /// Best ask price for YES outcome (may be null)
    pub yes_ask: Option<String>,
    /// Best bid price for NO outcome (may be null)
    pub no_bid: Option<String>,
    /// Best ask price for NO outcome (may be null)
    pub no_ask: Option<String>,
}

/// [`PriceUpdate`] as the contracts see it: strings as sequences of characters.
pub struct PriceUpdateView {
    pub channel: Seq<char>,
    pub msg_type: Seq<char>,
    pub market_ticker: Seq<char>,
    pub yes_bid: Option<Seq<char>>,
    pub yes_ask: Option<Seq<char>>,
    pub no_bid: Option<Seq<char>>,
    pub no_ask: Option<Seq<char>>,
}

impl DeepView for PriceUpdate {
    type V = PriceUpdateView;

    open spec fn deep_view(&self) -> PriceUpdateView {
        PriceUpdateView {
            channel: self.channel@,
            msg_type: self.msg_type@,
            market_ticker: self.market_ticker@,
            yes_bid: self.yes_bid.deep_view(),
            yes_ask: self.yes_ask.deep_view(),
            no_bid: self.no_bid.deep_view(),
            no_ask: self.no_ask.deep_view(),
        }
    }
}

impl PriceUpdateView {
    /// The price update that the members of a JSON object hold: `channel` and
    /// `marketTicker` must be strings, `type` is a string or missing, and each of
    /// `yesBid`, `yesAsk`, `noBid`, `noAsk` is a string, `null` or missing. Other
    /// members are passed over.
    pub open spec fn from_members(members: Seq<(Seq<char>, Seq<char>)>) -> Option<
        PriceUpdateView,
    > {
        match (
            string_member(members, "channel"@),
            defaulted_string_member(members, "type"@),
            string_member(members, "marketTicker"@),
            optional_string_member(members, "yesBid"@),
            optional_string_member(members, "yesAsk"@),
            optional_string_member(members, "noBid"@),
            optional_string_member(members, "noAsk"@),
        ) {
            (
                Some(channel),
                Some(msg_type),
                Some(market_ticker),
                Some(yes_bid),
                Some(yes_ask),
                Some(no_bid),
                Some(no_ask),
            ) => Some(
                PriceUpdateView {
                    channel,
                    msg_type,
                    market_ticker,
                    yes_bid,
                    yes_ask,
                    no_bid,
                    no_ask,
                },
            ),
            _ => None,
        }
    }

    /// The price update that a JSON text holds.
    pub open spec fn from_json(text: Seq<char>) -> Option<PriceUpdateView> {
        match json_object_members(text) {
            Some(members) => Self::from_members(members),
            None => None,
        }
    }
}

impl PriceUpdate {
    /// Reads a price update from the members of a JSON object.
    pub fn from_members(members: &Vec<(String, String)>) -> (update: Option<PriceUpdate>)
        ensures
            update.deep_view() == PriceUpdateView::from_members(members.deep_view()),
    {
        let channel = read_string_member(members, "channel");
        let msg_type = read_defaulted_string_member(members, "type");
        let market_ticker = read_string_member(members, "marketTicker");
        let yes_bid = read_optional_string_member(members, "yesBid");
        let yes_ask = read_optional_string_member(members, "yesAsk");
        let no_bid = read_optional_string_member(members, "noBid");
        let no_ask = read_optional_string_member(members, "noAsk");
        match (channel, msg_type, market_ticker, yes_bid, yes_ask, no_bid, no_ask) {
            (
                Some(channel),
                Some(msg_type),
                Some(market_ticker),
                Some(yes_bid),
                Some(yes_ask),
                Some(no_bid),
                Some(no_ask),
            ) => Some(
                PriceUpdate { channel, msg_type, market_ticker, yes_bid, yes_ask, no_bid, no_ask },
            ),
            _ => None,
        }
    }

    /// Reads a price update from the payload of an inbound message; `None` where
    /// the payload does not hold one.
    pub fn from_json(text: &str) -> (update: Option<PriceUpdate>)
        ensures
            update.deep_view() == PriceUpdateView::from_json(text@),
    {
        match object_members(text) {
            Some(members) => PriceUpdate::from_members(&members),
            None => None,
        }
    }
}

/// Trade update message from the trades channel.
///
/// Contains information about a single trade execution.
#[derive(Debug, Clone)]
pub struct TradeUpdate {
    /// Always "trades"
    pub channel: String,
    /// Always "trade"
    pub msg_type: String,
    /// Market ticker identifier
    pub market_ticker: String,
    /// Unique trade identifier
    pub trade_id: String,
    /// Trade execution price (1-99)
    pub price: i64,
    /// Number of contracts traded
    pub count: i64,
    /// YES outcome price at execution (1-99)
    pub yes_price: i64,
    /// NO outcome price at execution (1-99)
    pub no_price: i64,
    /// YES price formatted in dollars
    pub yes_price_dollars: String,
    /// NO price formatted in dollars
    pub no_price_dollars: String,
    /// Side of the taker ("yes" or "no")
    pub taker_side: String,
    /// Trade creation time (Unix timestamp in milliseconds)
    pub created_time: i64,
}

/// [`TradeUpdate`] as the contracts see it: strings as sequences of characters.
pub struct TradeUpdateView {
    pub channel: Seq<char>,
    pub msg_type: Seq<char>,
    pub market_ticker: Seq<char>,
    pub trade_id: Seq<char>,
    pub price: i64,
    pub count: i64,
    pub yes_price: i64,
    pub no_price: i64,
    pub yes_price_dollars: Seq<char>,
    pub no_price_dollars: Seq<char>,
    pub taker_side: Seq<char>,
    pub created_time: i64,
}

impl DeepView for TradeUpdate {
    type V = TradeUpdateView;

    open spec fn deep_view(&self) -> TradeUpdateView {
        TradeUpdateView {
            channel: self.channel@,
            msg_type: self.msg_type@,
            market_ticker: self.market_ticker@,
            trade_id: self.trade_id@,
            price: self.price,
            count: self.count,
            yes_price: self.yes_price,
            no_price: self.no_price,
            yes_price_dollars: self.yes_price_dollars@,
            no_price_dollars: self.no_price_dollars@,
            taker_side: self.taker_side@,
            created_time: self.created_time,
        }
    }
}

impl TradeUpdateView {
    /// The strings of a trade update, as far as the members hold them.
    pub open spec fn texts(members: Seq<(Seq<char>, Seq<char>)>) -> Option<
        (Seq<char>, Seq<char>, Seq<char>, Seq<char>, Seq<char>, Seq<char>, Seq<char>),
    > {
        match (
            string_member(members, "channel"@),
            defaulted_string_member(members, "type"@),
            string_member(members, "marketTicker"@),
            string_member(members, "tradeId"@),
            string_member(members, "yesPriceDollars"@),
            string_member(members, "noPriceDollars"@),
            string_member(members, "takerSide"@),
        ) {
            (Some(a), Some(b), Some(c), Some(d), Some(e), Some(f), Some(g)) => Some(
                (a, b, c, d, e, f, g),
            ),
            _ => None,
        }
    }

    /// The numbers of a trade update, as far as the members hold them.
    pub open spec fn numbers(members: Seq<(Seq<char>, Seq<char>)>) -> Option<
        (i64, i64, i64, i64, i64),
    > {
        match (
            integer_member(members, "price"@),
            integer_member(members, "count"@),
            integer_member(members, "yesPrice"@),
            integer_member(members, "noPrice"@),
            integer_member(members, "createdTime"@),
        ) {
            (Some(a), Some(b), Some(c), Some(d), Some(e)) => Some((a, b, c, d, e)),
            _ => None,
        }
    }

    /// The trade update that the members of a JSON object hold: `type` is a
    /// string or missing; `channel`, `marketTicker`, `tradeId`,
    /// `yesPriceDollars`, `noPriceDollars` and `takerSide` must be strings;
    /// `price`, `count`, `yesPrice`, `noPrice` and `createdTime` must be
    /// integers. Other members are passed over.
    pub open spec fn from_members(members: Seq<(Seq<char>, Seq<char>)>) -> Option<
        TradeUpdateView,
    > {
        match (Self::texts(members), Self::numbers(members)) {
            (Some(texts), Some(numbers)) => Some(
                TradeUpdateView {
                    channel: texts.0,
                    msg_type: texts.1,
                    market_ticker: texts.2,
                    trade_id: texts.3,
                    price: numbers.0,
                    count: numbers.1,
                    yes_price: numbers.2,
                    no_price: numbers.3,
                    yes_price_dollars: texts.4,
                    no_price_dollars: texts.5,
                    taker_side: texts.6,
                    created_time: numbers.4,
                },
            ),
            _ => None,
        }
    }

    /// The trade update that a JSON text holds.
    pub open spec fn from_json(text: Seq<char>) -> Option<TradeUpdateView> {
        match json_object_members(text) {
            Some(members) => Self::from_members(members),
            None => None,
        }
    }
}

impl TradeUpdate {
    /// Reads a trade update from the members of a JSON object.
    pub fn from_members(members: &Vec<(String, String)>) -> (update: Option<TradeUpdate>)
        ensures
            update.deep_view() == TradeUpdateView::from_members(members.deep_view()),
    {
        let channel = read_string_member(members, "channel");
        let msg_type = read_defaulted_string_member(members, "type");
        let market_ticker = read_string_member(members, "marketTicker");
        let trade_id = read_string_member(members, "tradeId");
        let yes_price_dollars = read_string_member(members, "yesPriceDollars");
        let no_price_dollars = read_string_member(members, "noPriceDollars");
        let taker_side = read_string_member(members, "takerSide");
        let price = read_integer_member(members, "price");
        let count = read_integer_member(members, "count");
        let yes_price = read_integer_member(members, "yesPrice");
        let no_price = read_integer_member(members, "noPrice");
        let created_time = read_integer_member(members, "createdTime");
        match (
            channel,
            msg_type,
            market_ticker,
            trade_id,
            yes_price_dollars,
            no_price_dollars,
            taker_side,
        ) {
            (
                Some(channel),
                Some(msg_type),
                Some(market_ticker),
                Some(trade_id),
                Some(yes_price_dollars),
                Some(no_price_dollars),
                Some(taker_side),
            ) => match (price, count, yes_price, no_price, created_time) {
                (Some(price), Some(count), Some(yes_price), Some(no_price), Some(created_time)) => {
                    Some(
                        TradeUpdate {
                            channel,
                            msg_type,
                            market_ticker,
                            trade_id,
                            price,
                            count,
                            yes_price,
                            no_price,
                            yes_price_dollars,
                            no_price_dollars,
                            taker_side,
                            created_time,
                        },
                    )
                },
                _ => None,
            },
            _ => None,
        }
    }

    /// Reads a trade update from the payload of an inbound message; `None` where
    /// the payload does not hold one.
    pub fn from_json(text: &str) -> (update: Option<TradeUpdate>)
        ensures
            update.deep_view() == TradeUpdateView::from_json(text@),
    {
        match object_members(text) {
            Some(members) => TradeUpdate::from_members(&members),
            None => None,
        }
    }
}

/// Orderbook update message from the orderbook channel.
///
/// Contains the current orderbook depth for a market.
#[derive(Debug, Clone)]
pub struct OrderbookUpdate {
    /// Always "orderbook"
    pub channel: String,
    /// Message type (e.g., "orderbook")
    pub msg_type: String,
    /// Market ticker identifier
    pub market_ticker: String,
    /// Map of price (string) to quantity for YES outcome bids
    pub yes_bids: HashMap<String, i64>,
    /// Map of price (string) to quantity for NO outcome bids
    pub no_bids: HashMap<String, i64>,
}

/// [`OrderbookUpdate`] as the contracts see it: strings as sequences of characters.
pub struct OrderbookUpdateView {
    pub channel: Seq<char>,
    pub msg_type: Seq<char>,
    pub market_ticker: Seq<char>,
    pub yes_bids: Map<Seq<char>, i64>,
    pub no_bids: Map<Seq<char>, i64>,
}

impl DeepView for OrderbookUpdate {
    type V = OrderbookUpdateView;

    open spec fn deep_view(&self) -> OrderbookUpdateView {
        OrderbookUpdateView {
            channel: self.channel@,
            msg_type: self.msg_type@,
            market_ticker: self.market_ticker@,
            yes_bids: self.yes_bids.deep_view(),
            no_bids: self.no_bids.deep_view(),
        }
    }
}

impl OrderbookUpdateView {
    /// The orderbook update that the members of a JSON object hold: `channel`
    /// and `marketTicker` must be strings, `type` is a string or missing, and
    /// each of `yesBids` and `noBids` is a map from prices to quantities or
    /// missing, which stands for the empty map. Other members are passed over.
    pub open spec fn from_members(members: Seq<(Seq<char>, Seq<char>)>) -> Option<
        OrderbookUpdateView,
    > {
        match (
            string_member(members, "channel"@),
            defaulted_string_member(members, "type"@),
            string_member(members, "marketTicker"@),
            integer_map_member(members, "yesBids"@),
            integer_map_member(members, "noBids"@),
        ) {
            (Some(channel), Some(msg_type), Some(market_ticker), Some(yes_bids), Some(no_bids)) => {
                Some(OrderbookUpdateView { channel, msg_type, market_ticker, yes_bids, no_bids })
            },
            _ => None,
        }
    }

    /// The orderbook update that a JSON text holds.
    pub open spec fn from_json(text: Seq<char>) -> Option<OrderbookUpdateView> {
        match json_object_members(text) {
            Some(members) => Self::from_members(members),
            None => None,
        }
    }
}

impl OrderbookUpdate {
    /// Reads an orderbook update from the members of a JSON object.
    pub fn from_members(members: &Vec<(String, String)>) -> (update: Option<OrderbookUpdate>)
        ensures
            update.deep_view() == OrderbookUpdateView::from_members(members.deep_view()),
    {
        let channel = read_string_member(members, "channel");
        let msg_type = read_defaulted_string_member(members, "type");
        let market_ticker = read_string_member(members, "marketTicker");
        let yes_bids = read_integer_map_member(members, "yesBids");
        let no_bids = read_integer_map_member(members, "noBids");
        match (channel, msg_type, market_ticker, yes_bids, no_bids) {
            (Some(channel), Some(msg_type), Some(market_ticker), Some(yes_bids), Some(no_bids)) => {
                Some(OrderbookUpdate { channel, msg_type, market_ticker, yes_bids, no_bids })
            },
            _ => None,
        }
    }

    /// Reads an orderbook update from the payload of an inbound message; `None`
    /// where the payload does not hold one.
    pub fn from_json(text: &str) -> (update: Option<OrderbookUpdate>)
        ensures
            update.deep_view() == OrderbookUpdateView::from_json(text@),
    {
        match object_members(text) {
            Some(members) => OrderbookUpdate::from_members(&members),
            None => None,
        }
    }
}

/// A unified message that can be any of the channel-specific updates.
#[derive(Debug, Clone)]
pub enum WsMessage {
    /// Price update from the prices channel
    Price(PriceUpdate),
    /// Trade update from the trades channel
    Trade(TradeUpdate),
    /// Orderbook update from the orderbook channel
    Orderbook(OrderbookUpdate),
}

/// [`WsMessage`] as the contracts see it: strings as sequences of characters.
pub enum WsMessageView {
    Price(PriceUpdateView),
    Trade(TradeUpdateView),
    Orderbook(OrderbookUpdateView),
}

impl DeepView for WsMessage {
    type V = WsMessageView;

    open spec fn deep_view(&self) -> WsMessageView {
        match self {
            WsMessage::Price(update) => WsMessageView::Price(update.deep_view()),
            WsMessage::Trade(update) => WsMessageView::Trade(update.deep_view()),
            WsMessage::Orderbook(update) => WsMessageView::Orderbook(update.deep_view()),
        }
    }
}

impl WsMessageView {
    /// The update that a payload of the given channel holds.
    pub open spec fn from_json(channel: Channel, text: Seq<char>) -> Option<WsMessageView> {
        match channel {
            Channel::Prices => match PriceUpdateView::from_json(text) {
                Some(update) => Some(WsMessageView::Price(update)),
                None => None,
            },
            Channel::Trades => match TradeUpdateView::from_json(text) {
                Some(update) => Some(WsMessageView::Trade(update)),
                None => None,
            },
            Channel::Orderbook => match OrderbookUpdateView::from_json(text) {
                Some(update) => Some(WsMessageView::Orderbook(update)),
                None => None,
            },
        }
    }
}

impl WsMessage {
    /// Reads the payload of a message that came in on `channel` as the update of
    /// that channel; `None` where the payload does not hold one.
    pub fn from_json(channel: Channel, text: &str) -> (message: Option<WsMessage>)
        ensures
            message.deep_view() == WsMessageView::from_json(channel, text@),
    {
        match channel {
            Channel::Prices => match PriceUpdate::from_json(text) {
                Some(update) => Some(WsMessage::Price(update)),
                None => None,
            },
            Channel::Trades => match TradeUpdate::from_json(text) {
                Some(update) => Some(WsMessage::Trade(update)),
                None => None,
            },
            Channel::Orderbook => match OrderbookUpdate::from_json(text) {
                Some(update) => Some(WsMessage::Orderbook(update)),
                None => None,
            },
        }
    }
}

} // verus!
