//! Data types of the prediction market API.

use std::collections::HashMap;
use vstd::prelude::*;

verus! {

/// Settlement source information for an event
#[derive(Debug, Clone)]
pub struct SettlementSource {
    pub name: String,
    pub url: String,
}

/// Market accounts containing Solana public keys
#[derive(Debug, Clone)]
pub struct MarketAccounts {
    pub market_ledger: Option<String>,
    pub yes_mint: Option<String>,
    pub no_mint: Option<String>,
    pub amm: Option<String>,
}

/// A prediction market
#[derive(Debug, Clone)]
pub struct Market {
    /// Market ticker ID
    pub ticker: String,
    /// Market title
    pub title: String,
    /// Market subtitle
    pub subtitle: String,
    /// Event ticker this market belongs to
    pub event_ticker: String,
    /// Market type (e.g., "binary")
    pub market_type: String,
    /// Market status (e.g., "active", "closed", "determined")
    pub status: String,
    /// Market result (e.g., "yes", "no", or empty if not determined)
    pub result: String,
    /// Whether the market can close early
    pub can_close_early: bool,
    /// Market open time (Unix timestamp in milliseconds)
    pub open_time: i64,
    /// Market close time (Unix timestamp in milliseconds)
    pub close_time: i64,
    /// Market expiration time (Unix timestamp in milliseconds)
    pub expiration_time: i64,
    /// Total trading volume
    pub volume: i64,
    /// Open interest
    pub open_interest: i64,
    /// Primary rules
    pub rules_primary: String,
    /// Yes outcome subtitle
    pub yes_sub_title: String,
    /// No outcome subtitle
    pub no_sub_title: String,
    /// Solana accounts related to this market
    pub accounts: MarketAccounts,
    /// Secondary rules (optional)
    pub rules_secondary: Option<String>,
    /// Early close condition description (optional)
    pub early_close_condition: Option<String>,
    /// Best yes ask price (optional)
    pub yes_ask: Option<String>,
    /// Best yes bid price (optional)
    pub yes_bid: Option<String>,
    /// Best no ask price (optional)
    pub no_ask: Option<String>,
    /// Best no bid price (optional)
    pub no_bid: Option<String>,
}

/// A prediction market event (can contain multiple markets)
#[derive(Debug, Clone)]
pub struct Event {
    /// Event ticker ID
    pub ticker: String,
    /// Event title
    pub title: String,
    /// Event subtitle
    pub subtitle: String,
    /// Series ticker this event belongs to
    pub series_ticker: String,
    /// Competition name (optional)
    pub competition: Option<String>,
    /// Competition scope (optional)
    pub competition_scope: Option<String>,
    /// Event image URL (optional)
    pub image_url: Option<String>,
    /// Total liquidity across all markets (optional)
    pub liquidity: Option<i64>,
    /// Total trading volume across all markets (optional)
    pub volume: Option<i64>,
    /// 24-hour trading volume (optional)
    pub volume24h: Option<i64>,
    /// Total open interest across all markets (optional)
    pub open_interest: Option<i64>,
    /// Strike date (Unix timestamp in milliseconds, optional)
    pub strike_date: Option<i64>,
    /// Strike period description (optional)
    pub strike_period: Option<String>,
    /// Settlement sources (optional)
    pub settlement_sources: Option<Vec<SettlementSource>>,
    /// Nested markets (optional, only included if requested)
    pub markets: Option<Vec<Market>>,
}

/// Response for get_events endpoint
#[derive(Debug, Clone)]
pub struct EventsResponse {
    /// List of events
    pub events: Vec<Event>,
    /// Cursor for pagination (optional)
    pub cursor: Option<i32>,
}

/// Response for get_markets endpoint
#[derive(Debug, Clone)]
pub struct MarketsResponse {
    /// List of markets
    pub markets: Vec<Market>,
    /// Cursor for pagination (optional)
    pub cursor: Option<i32>,
}

/// Response for get_outcome_mints endpoint
#[derive(Debug, Clone)]
pub struct OutcomeMintsResponse {
    /// List of outcome mint addresses
    pub mints: Vec<String>,
}

/// Response for filter_outcome_mints endpoint
#[derive(Debug, Clone)]
pub struct FilterOutcomeMintsResponse {
    /// List of addresses that are outcome mints
    pub outcome_mints: Vec<String>,
}

/// Sort options for events/markets queries
#[derive(Debug, Clone, Copy)]
pub enum SortField {
    Volume,
    Volume24h,
    Liquidity,
    OpenInterest,
    StartDate,
}

impl SortField {
    /// The word that stands for the field in a query.
    pub open spec fn name(self) -> Seq<char> {
        match self {
            SortField::Volume => "volume"@,
            SortField::Volume24h => "volume24h"@,
            SortField::Liquidity => "liquidity"@,
            SortField::OpenInterest => "openInterest"@,
            SortField::StartDate => "startDate"@,
        }
    }

    pub fn as_str(&self) -> (name: &'static str)
        ensures
            name@ == self.name(),
    {
        match self {
            SortField::Volume => "volume",
            SortField::Volume24h => "volume24h",
            SortField::Liquidity => "liquidity",
            SortField::OpenInterest => "openInterest",
            SortField::StartDate => "startDate",
        }
    }
}

/// Market status filter options
#[derive(Debug, Clone, Copy)]
pub enum MarketStatus {
    Initialized,
    Active,
    Inactive,
    Closed,
    Determined,
}

impl MarketStatus {
    /// The word that stands for the status in a query.
    pub open spec fn name(self) -> Seq<char> {
        match self {
            MarketStatus::Initialized => "initialized"@,
            MarketStatus::Active => "active"@,
            MarketStatus::Inactive => "inactive"@,
            MarketStatus::Closed => "closed"@,
            MarketStatus::Determined => "determined"@,
        }
    }

    pub fn as_str(&self) -> (name: &'static str)
        ensures
            name@ == self.name(),
    {
        match self {
            MarketStatus::Initialized => "initialized",
            MarketStatus::Active => "active",
            MarketStatus::Inactive => "inactive",
            MarketStatus::Closed => "closed",
            MarketStatus::Determined => "determined",
        }
    }
}

/// Period interval options for candlesticks (in minutes)
#[derive(Debug, Clone, Copy)]
pub enum PeriodInterval {
    /// 1 minute
    OneMinute,
    /// 1 hour (60 minutes)
    OneHour,
    /// 1 day (1440 minutes)
    OneDay,
}

impl PeriodInterval {
    /// The length of the period in minutes.
    pub open spec fn minutes(self) -> int {
        match self {
            PeriodInterval::OneMinute => 1,
            PeriodInterval::OneHour => 60,
            PeriodInterval::OneDay => 1440,
        }
    }

    pub fn as_i32(&self) -> (minutes: i32)
        ensures
            minutes == self.minutes(),
    {
        match self {
            PeriodInterval::OneMinute => 1,
            PeriodInterval::OneHour => 60,
            PeriodInterval::OneDay => 1440,
        }
    }
}

/// Query parameters for get_events endpoint
#[derive(Debug, Clone, Default)]
pub struct GetEventsParams {
    /// Maximum number of events to return
    pub limit: Option<i32>,
    /// Include nested markets in response
    pub with_nested_markets: Option<bool>,
    /// Pagination cursor (number of events to skip)
    pub cursor: Option<i32>,
    /// Filter by series tickers (comma-separated, max 25)
    pub series_tickers: Option<String>,
    /// Filter events that are initialized
    pub is_initialized: Option<bool>,
    /// Filter by market status
    pub status: Option<MarketStatus>,
    /// Sort field
    pub sort: Option<SortField>,
}

/// Query parameters for get_markets endpoint
#[derive(Debug, Clone, Default)]
pub struct GetMarketsParams {
    /// Maximum number of markets to return
    pub limit: Option<i32>,
    /// Pagination cursor (number of markets to skip)
    pub cursor: Option<i32>,
    /// Filter markets that are initialized (have a corresponding market ledger)
    pub is_initialized: Option<bool>,
    /// Filter by market status
    pub status: Option<MarketStatus>,
    /// Sort field
    pub sort: Option<SortField>,
}

/// Query parameters for get_outcome_mints endpoint
#[derive(Debug, Clone, Default)]
pub struct GetOutcomeMintsParams {
    /// Minimum close timestamp (Unix timestamp in seconds).
    /// Only markets with close_time >= min_close_ts will be included.
    pub min_close_ts: Option<i64>,
}

/// Query parameters for candlestick endpoints
#[derive(Debug, Clone, Default)]
pub struct GetCandlesticksParams {
    /// Start timestamp (Unix timestamp in seconds)
    pub start_ts: Option<i64>,
    /// End timestamp (Unix timestamp in seconds)
    pub end_ts: Option<i64>,
    /// Time period length of each candlestick in minutes (1, 60, or 1440)
    pub period_interval: Option<i32>,
}

/// Query parameters for forecast percentile history endpoint
#[derive(Debug, Clone, Default)]
pub struct GetForecastPercentileHistoryParams {
    /// Comma-separated list of percentile values (0-10000, max 10 values)
    pub percentiles: Option<String>,
    /// Start timestamp (Unix timestamp in seconds)
    pub start_ts: Option<i64>,
    /// End timestamp (Unix timestamp in seconds)
    pub end_ts: Option<i64>,
    /// Period interval in minutes (0, 1, 60, or 1440)
    pub period_interval: Option<i32>,
}

/// A single trade record
#[derive(Debug, Clone)]
pub struct Trade {
    /// Trade ID
    pub trade_id: String,
    /// Market ticker
    pub ticker: String,
    /// Trade count/quantity
    pub count: i64,
    /// Trade price (1-99)
    pub price: i64,
    /// Yes price (1-99)
    pub yes_price: i64,
    /// No price (1-99)
    pub no_price: i64,
    /// Yes price in dollars
    pub yes_price_dollars: String,
    /// No price in dollars
    pub no_price_dollars: String,
    /// Taker side ("yes" or "no")
    pub taker_side: String,
    /// Trade creation time (Unix timestamp in milliseconds)
    pub created_time: i64,
}

/// Response for get_trades endpoint
#[derive(Debug, Clone)]
pub struct TradesResponse {
    /// List of trades
    pub trades: Vec<Trade>,
    /// Cursor for pagination
    pub cursor: Option<String>,
}

/// Query parameters for get_trades endpoint
#[derive(Debug, Clone, Default)]
pub struct GetTradesParams {
    /// Maximum number of trades to return (1-1000, default 100)
    pub limit: Option<i32>,
    /// Pagination cursor (trade ID) to start from
    pub cursor: Option<String>,
    /// Filter by market ticker
    pub ticker: Option<String>,
    /// Filter trades after this Unix timestamp
    pub min_ts: Option<i64>,
    /// Filter trades before this Unix timestamp
    pub max_ts: Option<i64>,
}

/// Query parameters for get_series endpoint
#[derive(Debug, Clone, Default)]
pub struct GetSeriesParams {
    /// Filter series by category (e.g., Politics, Economics, Entertainment)
    pub category: Option<String>,
    /// Filter series by tags (comma-separated list)
    pub tags: Option<String>,
    /// Filter series that are initialized (have a corresponding market ledger)
    pub is_initialized: Option<bool>,
    /// Filter series by market status
    pub status: Option<MarketStatus>,
}

/// Response for get_tags_by_categories endpoint
#[derive(Debug, Clone)]
pub struct TagsByCategoriesResponse {
    /// Map of category to list of tags
    pub tags_by_categories: HashMap<String, Vec<String>>,
}

/// Sort order for search results
#[derive(Debug, Clone, Copy)]
pub enum SortOrder {
    Asc,
    Desc,
}

impl SortOrder {
    /// The word that stands for the order in a query.
    pub open spec fn name(self) -> Seq<char> {
        match self {
            SortOrder::Asc => "asc"@,
            SortOrder::Desc => "desc"@,
        }
    }

    pub fn as_str(&self) -> (name: &'static str)
        ensures
            name@ == self.name(),
    {
        match self {
            SortOrder::Asc => "asc",
            SortOrder::Desc => "desc",
        }
    }
}

/// Response for search endpoint
#[derive(Debug, Clone)]
pub struct SearchResponse {
    /// List of matching events with nested markets
    pub events: Vec<Event>,
    /// Cursor for pagination
    pub cursor: Option<i32>,
}

/// Query parameters for search endpoint
#[derive(Debug, Clone, Default)]
pub struct SearchParams {
    /// The query string to search for (required)
    pub q: String,
    /// Field to sort by
    pub sort: Option<SortField>,
    /// Sort order (asc or desc)
    pub order: Option<SortOrder>,
    /// Maximum number of results to return
    pub limit: Option<i32>,
    /// Cursor for pagination
    pub cursor: Option<i32>,
    /// Include nested markets in response
    pub with_nested_markets: Option<bool>,
    /// Include market account information
    pub with_market_accounts: Option<bool>,
}

} // verus!
