//! Prediction market API: the data types, the request paths of the resource
//! endpoints, and the streaming client's logic.

pub mod error;
pub mod types;
pub mod websocket;

use vstd::prelude::*;
use vstd::string::StringExecFns;
use crate::common::{
    as_int32, as_int64, build_query_string, flag_value, join_texts, joined, number_value,
    query_string, text_value, write_flag, write_i32, write_i64,
};
use self::types::{
    GetCandlesticksParams, GetEventsParams, GetForecastPercentileHistoryParams, GetMarketsParams,
    GetOutcomeMintsParams, GetSeriesParams, GetTradesParams, SearchParams,
};

verus! {

/// Default base URL of the prediction market API
pub const DEFAULT_BASE_URL: &'static str = "https://prediction-markets-api.dflow.net";

/// Path of the endpoint that returns several markets at once.
pub const MARKETS_BATCH_PATH: &'static str = "/api/v1/markets/batch";

/// Path of the endpoint that filters addresses down to outcome mints.
pub const FILTER_OUTCOME_MINTS_PATH: &'static str = "/api/v1/filter_outcome_mints";

/// Path of the endpoint that lists tags by category.
pub const TAGS_BY_CATEGORIES_PATH: &'static str = "/api/v1/tags_by_categories";

/// Path of the endpoint that lists filters by sport.
pub const FILTERS_BY_SPORTS_PATH: &'static str = "/api/v1/filters_by_sports";

/// The query parameters of an events listing.
pub open spec fn events_query(params: GetEventsParams) -> Seq<(Seq<char>, Option<Seq<char>>)> {
    seq![
        ("limit"@, number_value(as_int32(params.limit))),
        ("withNestedMarkets"@, flag_value(params.with_nested_markets)),
        ("cursor"@, number_value(as_int32(params.cursor))),
        ("seriesTickers"@, params.series_tickers.deep_view()),
        ("isInitialized"@, flag_value(params.is_initialized)),
        (
            "status"@,
            match params.status {
                Some(v) => Some(v.name()),
                None => None,
            },
        ),
        (
            "sort"@,
            match params.sort {
                Some(v) => Some(v.name()),
                None => None,
            },
        ),
    ]
}

fn write_events_query(params: &GetEventsParams) -> (query: String)
    ensures
        query@ == query_string(events_query(*params)),
{
    let list: [(&str, Option<String>); 7] = [
        ("limit", write_i32(params.limit)),
        ("withNestedMarkets", write_flag(params.with_nested_markets)),
        ("cursor", write_i32(params.cursor)),
        ("seriesTickers", text_value(&params.series_tickers)),
        ("isInitialized", write_flag(params.is_initialized)),
        (
            "status",
            match params.status {
                Some(v) => Some(v.as_str().to_owned()),
                None => None,
            },
        ),
        (
            "sort",
            match params.sort {
                Some(v) => Some(v.as_str().to_owned()),
                None => None,
            },
        ),
    ];
    let pairs = list.as_slice();
    assert(pairs.deep_view() =~= events_query(*params));
    build_query_string(pairs)
}

/// The query parameters of a forecast percentile history.
pub open spec fn forecast_query(params: GetForecastPercentileHistoryParams) -> Seq<(Seq<char>, Option<Seq<char>>)> {
    seq![
        ("percentiles"@, params.percentiles.deep_view()),
        ("startTs"@, number_value(as_int64(params.start_ts))),
        ("endTs"@, number_value(as_int64(params.end_ts))),
        ("periodInterval"@, number_value(as_int32(params.period_interval))),
    ]
}

fn write_forecast_query(params: &GetForecastPercentileHistoryParams) -> (query: String)
    ensures
        query@ == query_string(forecast_query(*params)),
{
    let list: [(&str, Option<String>); 4] = [
        ("percentiles", text_value(&params.percentiles)),
        ("startTs", write_i64(params.start_ts)),
        ("endTs", write_i64(params.end_ts)),
        ("periodInterval", write_i32(params.period_interval)),
    ];
    let pairs = list.as_slice();
    assert(pairs.deep_view() =~= forecast_query(*params));
    build_query_string(pairs)
}

/// The query parameters of a candlestick request.
pub open spec fn candlesticks_query(params: GetCandlesticksParams) -> Seq<(Seq<char>, Option<Seq<char>>)> {
    seq![
        ("startTs"@, number_value(as_int64(params.start_ts))),
        ("endTs"@, number_value(as_int64(params.end_ts))),
        ("periodInterval"@, number_value(as_int32(params.period_interval))),
    ]
}

fn write_candlesticks_query(params: &GetCandlesticksParams) -> (query: String)
    ensures
        query@ == query_string(candlesticks_query(*params)),
{
    let list: [(&str, Option<String>); 3] = [
        ("startTs", write_i64(params.start_ts)),
        ("endTs", write_i64(params.end_ts)),
        ("periodInterval", write_i32(params.period_interval)),
    ];
    let pairs = list.as_slice();
    assert(pairs.deep_view() =~= candlesticks_query(*params));
    build_query_string(pairs)
}

/// The query parameters of a markets listing.
pub open spec fn markets_query(params: GetMarketsParams) -> Seq<(Seq<char>, Option<Seq<char>>)> {
    seq![
        ("limit"@, number_value(as_int32(params.limit))),
        ("cursor"@, number_value(as_int32(params.cursor))),
        ("isInitialized"@, flag_value(params.is_initialized)),
        (
            "status"@,
            match params.status {
                Some(v) => Some(v.name()),
                None => None,
            },
        ),
        (
            "sort"@,
            match params.sort {
                Some(v) => Some(v.name()),
                None => None,
            },
        ),
    ]
}

fn write_markets_query(params: &GetMarketsParams) -> (query: String)
    ensures
        query@ == query_string(markets_query(*params)),
{
    let list: [(&str, Option<String>); 5] = [
        ("limit", write_i32(params.limit)),
        ("cursor", write_i32(params.cursor)),
        ("isInitialized", write_flag(params.is_initialized)),
        (
            "status",
            match params.status {
                Some(v) => Some(v.as_str().to_owned()),
                None => None,
            },
        ),
        (
            "sort",
            match params.sort {
                Some(v) => Some(v.as_str().to_owned()),
                None => None,
            },
        ),
    ];
    let pairs = list.as_slice();
    assert(pairs.deep_view() =~= markets_query(*params));
    build_query_string(pairs)
}

/// The query parameters of an outcome mints listing.
pub open spec fn outcome_mints_query(params: GetOutcomeMintsParams) -> Seq<(Seq<char>, Option<Seq<char>>)> {
    seq![
        ("minCloseTs"@, number_value(as_int64(params.min_close_ts))),
    ]
}

fn write_outcome_mints_query(params: &GetOutcomeMintsParams) -> (query: String)
    ensures
        query@ == query_string(outcome_mints_query(*params)),
{
    let list: [(&str, Option<String>); 1] = [
        ("minCloseTs", write_i64(params.min_close_ts)),
    ];
    let pairs = list.as_slice();
    assert(pairs.deep_view() =~= outcome_mints_query(*params));
    build_query_string(pairs)
}

/// The query parameters of a trades listing.
pub open spec fn trades_query(params: GetTradesParams) -> Seq<(Seq<char>, Option<Seq<char>>)> {
    seq![
        ("limit"@, number_value(as_int32(params.limit))),
        ("cursor"@, params.cursor.deep_view()),
        ("ticker"@, params.ticker.deep_view()),
        ("minTs"@, number_value(as_int64(params.min_ts))),
        ("maxTs"@, number_value(as_int64(params.max_ts))),
    ]
}

fn write_trades_query(params: &GetTradesParams) -> (query: String)
    ensures
        query@ == query_string(trades_query(*params)),
{
    let list: [(&str, Option<String>); 5] = [
        ("limit", write_i32(params.limit)),
        ("cursor", text_value(&params.cursor)),
        ("ticker", text_value(&params.ticker)),
        ("minTs", write_i64(params.min_ts)),
        ("maxTs", write_i64(params.max_ts)),
    ];
    let pairs = list.as_slice();
    assert(pairs.deep_view() =~= trades_query(*params));
    build_query_string(pairs)
}

/// The query parameters of a trades listing for one mint: the ticker filter is
/// left out.
pub open spec fn trades_by_mint_query(params: GetTradesParams) -> Seq<(Seq<char>, Option<Seq<char>>)> {
    seq![
        ("limit"@, number_value(as_int32(params.limit))),
        ("cursor"@, params.cursor.deep_view()),
        ("minTs"@, number_value(as_int64(params.min_ts))),
        ("maxTs"@, number_value(as_int64(params.max_ts))),
    ]
}

fn write_trades_by_mint_query(params: &GetTradesParams) -> (query: String)
    ensures
        query@ == query_string(trades_by_mint_query(*params)),
{
    let list: [(&str, Option<String>); 4] = [
        ("limit", write_i32(params.limit)),
        ("cursor", text_value(&params.cursor)),
        ("minTs", write_i64(params.min_ts)),
        ("maxTs", write_i64(params.max_ts)),
    ];
    let pairs = list.as_slice();
    assert(pairs.deep_view() =~= trades_by_mint_query(*params));
    build_query_string(pairs)
}

/// The query parameters of a series listing.
pub open spec fn series_query(params: GetSeriesParams) -> Seq<(Seq<char>, Option<Seq<char>>)> {
    seq![
        ("category"@, params.category.deep_view()),
        ("tags"@, params.tags.deep_view()),
        ("isInitialized"@, flag_value(params.is_initialized)),
        (
            "status"@,
            match params.status {
                Some(v) => Some(v.name()),
                None => None,
            },
        ),
    ]
}

fn write_series_query(params: &GetSeriesParams) -> (query: String)
    ensures
        query@ == query_string(series_query(*params)),
{
    let list: [(&str, Option<String>); 4] = [
        ("category", text_value(&params.category)),
        ("tags", text_value(&params.tags)),
        ("isInitialized", write_flag(params.is_initialized)),
        (
            "status",
            match params.status {
                Some(v) => Some(v.as_str().to_owned()),
                None => None,
            },
        ),
    ];
    let pairs = list.as_slice();
    assert(pairs.deep_view() =~= series_query(*params));
    build_query_string(pairs)
}

/// The query parameters of a search.
pub open spec fn search_query(params: SearchParams) -> Seq<(Seq<char>, Option<Seq<char>>)> {
    seq![
        ("q"@, Some(params.q@)),
        (
            "sort"@,
            match params.sort {
                Some(v) => Some(v.name()),
                None => None,
            },
        ),
        (
            "order"@,
            match params.order {
                Some(v) => Some(v.name()),
                None => None,
            },
        ),
        ("limit"@, number_value(as_int32(params.limit))),
        ("cursor"@, number_value(as_int32(params.cursor))),
        ("withNestedMarkets"@, flag_value(params.with_nested_markets)),
        ("withMarketAccounts"@, flag_value(params.with_market_accounts)),
    ]
}

fn write_search_query(params: &SearchParams) -> (query: String)
    ensures
        query@ == query_string(search_query(*params)),
{
    let list: [(&str, Option<String>); 7] = [
        ("q", Some(params.q.clone())),
        (
            "sort",
            match params.sort {
                Some(v) => Some(v.as_str().to_owned()),
                None => None,
            },
        ),
        (
            "order",
            match params.order {
                Some(v) => Some(v.as_str().to_owned()),
                None => None,
            },
        ),
        ("limit", write_i32(params.limit)),
        ("cursor", write_i32(params.cursor)),
        ("withNestedMarkets", write_flag(params.with_nested_markets)),
        ("withMarketAccounts", write_flag(params.with_market_accounts)),
    ];
    let pairs = list.as_slice();
    assert(pairs.deep_view() =~= search_query(*params));
    build_query_string(pairs)
}

/// The path and query of the events listing.
pub fn get_events_path(params: &GetEventsParams) -> (path: String)
    ensures
        path@ == "/api/v1/events"@ + query_string(events_query(*params)),
{
    let mut path = "/api/v1/events".to_owned();
    let query = write_events_query(params);
    path.append(query.as_str());
    path
}

/// The path and query of the forecast percentile history of an event.
pub fn get_event_forecast_percentile_history_path(series_ticker: &str, event_id: &str, params: &GetForecastPercentileHistoryParams) -> (path: String)
    ensures
        path@ == "/api/v1/event/"@ + series_ticker@ + "/"@ + event_id@ + "/forecast_percentile_history"@ + query_string(forecast_query(*params)),
{
    let mut path = "/api/v1/event/".to_owned();
    path.append(series_ticker);
    path.append("/");
    path.append(event_id);
    path.append("/forecast_percentile_history");
    let query = write_forecast_query(params);
    path.append(query.as_str());
    path
}

/// The path and query of the forecast percentile history by mint address.
pub fn get_event_forecast_percentile_history_by_mint_path(mint: &str, params: &GetForecastPercentileHistoryParams) -> (path: String)
    ensures
        path@ == "/api/v1/event/by-mint/"@ + mint@ + "/forecast_percentile_history"@ + query_string(forecast_query(*params)),
{
    let mut path = "/api/v1/event/by-mint/".to_owned();
    path.append(mint);
    path.append("/forecast_percentile_history");
    let query = write_forecast_query(params);
    path.append(query.as_str());
    path
}

/// The path and query of the candlesticks of an event.
pub fn get_event_candlesticks_path(ticker: &str, params: &GetCandlesticksParams) -> (path: String)
    ensures
        path@ == "/api/v1/event/"@ + ticker@ + "/candlesticks"@ + query_string(candlesticks_query(*params)),
{
    let mut path = "/api/v1/event/".to_owned();
    path.append(ticker);
    path.append("/candlesticks");
    let query = write_candlesticks_query(params);
    path.append(query.as_str());
    path
}

/// The path of a single market.
pub fn get_market_path(market_id: &str) -> (path: String)
    ensures
        path@ == "/api/v1/market/"@ + market_id@,
{
    let mut path = "/api/v1/market/".to_owned();
    path.append(market_id);
    path
}

/// The path of a market by mint address.
pub fn get_market_by_mint_path(mint: &str) -> (path: String)
    ensures
        path@ == "/api/v1/market/by-mint/"@ + mint@,
{
    let mut path = "/api/v1/market/by-mint/".to_owned();
    path.append(mint);
    path
}

/// The path and query of the markets listing.
pub fn get_markets_path(params: &GetMarketsParams) -> (path: String)
    ensures
        path@ == "/api/v1/markets"@ + query_string(markets_query(*params)),
{
    let mut path = "/api/v1/markets".to_owned();
    let query = write_markets_query(params);
    path.append(query.as_str());
    path
}

/// The path and query of the outcome mints listing.
pub fn get_outcome_mints_path(params: &GetOutcomeMintsParams) -> (path: String)
    ensures
        path@ == "/api/v1/outcome_mints"@ + query_string(outcome_mints_query(*params)),
{
    let mut path = "/api/v1/outcome_mints".to_owned();
    let query = write_outcome_mints_query(params);
    path.append(query.as_str());
    path
}

/// The path and query of the candlesticks of a market.
pub fn get_market_candlesticks_path(ticker: &str, params: &GetCandlesticksParams) -> (path: String)
    ensures
        path@ == "/api/v1/market/"@ + ticker@ + "/candlesticks"@ + query_string(candlesticks_query(*params)),
{
    let mut path = "/api/v1/market/".to_owned();
    path.append(ticker);
    path.append("/candlesticks");
    let query = write_candlesticks_query(params);
    path.append(query.as_str());
    path
}

/// The path and query of the candlesticks of a market by mint address.
pub fn get_market_candlesticks_by_mint_path(mint: &str, params: &GetCandlesticksParams) -> (path: String)
    ensures
        path@ == "/api/v1/market/by-mint/"@ + mint@ + "/candlesticks"@ + query_string(candlesticks_query(*params)),
{
    let mut path = "/api/v1/market/by-mint/".to_owned();
    path.append(mint);
    path.append("/candlesticks");
    let query = write_candlesticks_query(params);
    path.append(query.as_str());
    path
}

/// The path of the orderbook of a market.
pub fn get_orderbook_path(market_ticker: &str) -> (path: String)
    ensures
        path@ == "/api/v1/orderbook/"@ + market_ticker@,
{
    let mut path = "/api/v1/orderbook/".to_owned();
    path.append(market_ticker);
    path
}

/// The path of the orderbook of a market by mint address.
pub fn get_orderbook_by_mint_path(mint: &str) -> (path: String)
    ensures
        path@ == "/api/v1/orderbook/by-mint/"@ + mint@,
{
    let mut path = "/api/v1/orderbook/by-mint/".to_owned();
    path.append(mint);
    path
}

/// The path and query of the trades listing.
pub fn get_trades_path(params: &GetTradesParams) -> (path: String)
    ensures
        path@ == "/api/v1/trades"@ + query_string(trades_query(*params)),
{
    let mut path = "/api/v1/trades".to_owned();
    let query = write_trades_query(params);
    path.append(query.as_str());
    path
}

/// The path and query of the trades of a market by mint address.
pub fn get_trades_by_mint_path(mint: &str, params: &GetTradesParams) -> (path: String)
    ensures
        path@ == "/api/v1/trades/by-mint/"@ + mint@ + query_string(trades_by_mint_query(*params)),
{
    let mut path = "/api/v1/trades/by-mint/".to_owned();
    path.append(mint);
    let query = write_trades_by_mint_query(params);
    path.append(query.as_str());
    path
}

/// The path of the live data of an event.
pub fn get_live_data_by_event_path(event_ticker: &str) -> (path: String)
    ensures
        path@ == "/api/v1/live_data/by-event/"@ + event_ticker@,
{
    let mut path = "/api/v1/live_data/by-event/".to_owned();
    path.append(event_ticker);
    path
}

/// The path of the live data of a market by mint address.
pub fn get_live_data_by_mint_path(mint: &str) -> (path: String)
    ensures
        path@ == "/api/v1/live_data/by-mint/"@ + mint@,
{
    let mut path = "/api/v1/live_data/by-mint/".to_owned();
    path.append(mint);
    path
}

/// The path and query of the series listing.
pub fn get_series_path(params: &GetSeriesParams) -> (path: String)
    ensures
        path@ == "/api/v1/series"@ + query_string(series_query(*params)),
{
    let mut path = "/api/v1/series".to_owned();
    let query = write_series_query(params);
    path.append(query.as_str());
    path
}

/// The path of a single series.
pub fn get_series_by_ticker_path(series_ticker: &str) -> (path: String)
    ensures
        path@ == "/api/v1/series/"@ + series_ticker@,
{
    let mut path = "/api/v1/series/".to_owned();
    path.append(series_ticker);
    path
}

/// The path and query of a search for events.
pub fn search_events_path(params: &SearchParams) -> (path: String)
    ensures
        path@ == "/api/v1/search"@ + query_string(search_query(*params)),
{
    let mut path = "/api/v1/search".to_owned();
    let query = write_search_query(params);
    path.append(query.as_str());
    path
}

/// The query parameters of a request for a single event.
pub open spec fn event_query(with_nested_markets: Option<bool>) -> Seq<
    (Seq<char>, Option<Seq<char>>),
> {
    seq![("withNestedMarkets"@, flag_value(with_nested_markets))]
}

/// The path and query of a single event.
pub fn get_event_path(event_id: &str, with_nested_markets: Option<bool>) -> (path: String)
    ensures
        path@ == "/api/v1/event/"@ + event_id@ + query_string(event_query(with_nested_markets)),
{
    let list: [(&str, Option<String>); 1] = [("withNestedMarkets", write_flag(with_nested_markets))];
    let pairs = list.as_slice();
    assert(pairs.deep_view() =~= event_query(with_nested_markets));
    let query = build_query_string(pairs);
    let mut path = "/api/v1/event/".to_owned();
    path.append(event_id);
    path.append(query.as_str());
    path
}

/// The query parameters of a live data request: the milestone identifiers,
/// joined by commas.
pub open spec fn live_data_query(milestone_ids: Seq<Seq<char>>) -> Seq<
    (Seq<char>, Option<Seq<char>>),
> {
    seq![("milestoneIds"@, Some(joined(milestone_ids, ","@)))]
}

/// The path and query of the live data of some milestones.
pub fn get_live_data_path(milestone_ids: &[String]) -> (path: String)
    ensures
        path@ == "/api/v1/live_data"@ + query_string(live_data_query(milestone_ids.deep_view())),
{
    let ids = join_texts(milestone_ids, ",");
    let list: [(&str, Option<String>); 1] = [("milestoneIds", Some(ids))];
    let pairs = list.as_slice();
    assert(pairs.deep_view() =~= live_data_query(milestone_ids.deep_view()));
    let query = build_query_string(pairs);
    let mut path = "/api/v1/live_data".to_owned();
    path.append(query.as_str());
    path
}

} // verus!
