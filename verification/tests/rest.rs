use dflow_api_client::common::{
    build_query_string, choose_error_message, endpoint_url, join_texts, read_error_message,
    text_value, write_flag, write_i32, write_i64, ApiErrorResponse, DflowApiError,
};
use dflow_api_client::prediction::{
    FILTERS_BY_SPORTS_PATH, FILTER_OUTCOME_MINTS_PATH, MARKETS_BATCH_PATH, TAGS_BY_CATEGORIES_PATH, get_event_candlesticks_path, get_event_forecast_percentile_history_by_mint_path, get_event_forecast_percentile_history_path, get_event_path, get_events_path, get_live_data_by_event_path, get_live_data_by_mint_path, get_live_data_path, get_market_by_mint_path, get_market_candlesticks_by_mint_path, get_market_candlesticks_path, get_market_path, get_markets_path, get_orderbook_by_mint_path, get_orderbook_path, get_outcome_mints_path, get_series_by_ticker_path, get_series_path, get_trades_by_mint_path, get_trades_path, search_events_path,
};
use dflow_api_client::swap::{SUBMIT_INTENT_PATH, SWAP_PATH, intent_path, quote_path};
use dflow_api_client::prediction::error::DflowPredictionApiError;
use dflow_api_client::prediction::types::{
    GetCandlesticksParams, GetEventsParams, GetForecastPercentileHistoryParams, GetMarketsParams,
    GetOutcomeMintsParams, GetSeriesParams, GetTradesParams, MarketStatus, PeriodInterval,
    SearchParams, SortField, SortOrder,
};
use dflow_api_client::swap::error::DflowSwapApiError;
use dflow_api_client::swap::types::{GetIntentParams, GetQuoteParams, IntentStatus};
use dflow_api_client::text::{bool_to_string, i64_to_string, u64_to_string};

#[test]
fn query_string_of_nothing_is_empty() {
    assert_eq!(build_query_string(&[]), "");
    assert_eq!(build_query_string(&[("a", None), ("b", None)]), "");
}

#[test]
fn query_string_joins_the_present_values() {
    assert_eq!(build_query_string(&[("limit", Some("10".to_string()))]), "?limit=10");
    assert_eq!(
        build_query_string(&[
            ("a", None),
            ("b", Some("1".to_string())),
            ("c", None),
            ("d", Some("x y".to_string())),
            ("e", Some(String::new())),
        ]),
        "?b=1&d=x y&e="
    );
}

#[test]
fn join_texts_puts_the_separator_between() {
    assert_eq!(join_texts(&[], ","), "");
    assert_eq!(join_texts(&["a".to_string()], ","), "a");
    assert_eq!(join_texts(&["a".to_string(), "b".to_string(), "".to_string()], ", "), "a, b, ");
}

#[test]
fn numbers_in_decimal() {
    for n in [0i64, 1, 9, 10, 11, 99, 100, 1440, -1, -10, -1234567, i64::MAX, i64::MIN, i64::MIN + 1] {
        assert_eq!(i64_to_string(n), n.to_string());
    }
    for n in [0u64, 5, 10, 4294967295, u64::MAX] {
        assert_eq!(u64_to_string(n), n.to_string());
    }
    assert_eq!(i64_to_string(-9223372036854775808), "-9223372036854775808");
    assert_eq!(u64_to_string(18446744073709551615), "18446744073709551615");
    assert_eq!(i64_to_string(60), "60");
}

#[test]
fn flags_as_words() {
    assert_eq!(bool_to_string(true), "true");
    assert_eq!(bool_to_string(false), "false");
}

#[test]
fn query_values() {
    assert_eq!(text_value(&Some("x".to_string())), Some("x".to_string()));
    assert_eq!(text_value(&None), None);
    assert_eq!(write_flag(Some(false)), Some("false".to_string()));
    assert_eq!(write_flag(None), None);
    assert_eq!(write_i32(Some(-5)), Some("-5".to_string()));
    assert_eq!(write_i32(Some(i32::MIN)), Some("-2147483648".to_string()));
    assert_eq!(write_i32(None), None);
    assert_eq!(write_i64(Some(1700000000)), Some("1700000000".to_string()));
    assert_eq!(write_i64(None), None);
}

#[test]
fn endpoint_url_appends_the_path() {
    assert_eq!(endpoint_url("https://h", "/api/v1/x?y=1"), "https://h/api/v1/x?y=1");
    assert_eq!(endpoint_url("", ""), "");
}

#[test]
fn sort_and_status_words() {
    assert_eq!(SortField::Volume.as_str(), "volume");
    assert_eq!(SortField::Volume24h.as_str(), "volume24h");
    assert_eq!(SortField::Liquidity.as_str(), "liquidity");
    assert_eq!(SortField::OpenInterest.as_str(), "openInterest");
    assert_eq!(SortField::StartDate.as_str(), "startDate");
    assert_eq!(MarketStatus::Initialized.as_str(), "initialized");
    assert_eq!(MarketStatus::Active.as_str(), "active");
    assert_eq!(MarketStatus::Inactive.as_str(), "inactive");
    assert_eq!(MarketStatus::Closed.as_str(), "closed");
    assert_eq!(MarketStatus::Determined.as_str(), "determined");
    assert_eq!(SortOrder::Asc.as_str(), "asc");
    assert_eq!(SortOrder::Desc.as_str(), "desc");
}

#[test]
fn period_interval_in_minutes() {
    assert_eq!(PeriodInterval::OneMinute.as_i32(), 1);
    assert_eq!(PeriodInterval::OneHour.as_i32(), 60);
    assert_eq!(PeriodInterval::OneDay.as_i32(), 1440);
}

#[test]
fn intent_status_words() {
    assert_eq!(IntentStatus::Pending.as_str(), "pending");
    assert_eq!(IntentStatus::Executing.as_str(), "executing");
    assert_eq!(IntentStatus::Completed.as_str(), "completed");
    assert_eq!(IntentStatus::Failed.as_str(), "failed");
    assert_eq!(IntentStatus::Expired.as_str(), "expired");
    assert_eq!(IntentStatus::Pending, IntentStatus::Pending);
}

#[test]
fn error_message_prefers_message_then_error_then_body() {
    assert_eq!(read_error_message("{\"error\":\"e\",\"message\":\"m\",\"details\":\"d\"}"), "m");
    assert_eq!(read_error_message("{\"error\":\"e\",\"message\":null}"), "e");
    assert_eq!(read_error_message("{\"error\":\"e\"}"), "e");
    assert_eq!(read_error_message("{\"details\":\"d\"}"), "{\"details\":\"d\"}");
    assert_eq!(read_error_message("{}"), "{}");
    assert_eq!(read_error_message("{\"message\":5}"), "{\"message\":5}");
    assert_eq!(read_error_message("{\"message\":\"m\",\"details\":5}"), "{\"message\":\"m\",\"details\":5}");
    assert_eq!(read_error_message("Internal Server Error"), "Internal Server Error");
    assert_eq!(read_error_message(""), "");
}

#[test]
fn error_body_is_read_member_by_member() {
    let response = ApiErrorResponse::from_json("{\"error\":\"e\",\"details\":\"d\",\"more\":1}").unwrap();
    assert_eq!(response.error.as_deref(), Some("e"));
    assert_eq!(response.message, None);
    assert_eq!(response.details.as_deref(), Some("d"));
    assert!(ApiErrorResponse::from_json("{\"error\":1}").is_none());
    assert!(ApiErrorResponse::from_json("nope").is_none());
    let chosen = choose_error_message(Some(response), "body");
    assert_eq!(chosen, "e");
    assert_eq!(choose_error_message(None, "body"), "body");
}

#[test]
fn api_error_from_response() {
    assert!(matches!(DflowApiError::from_response(401, "x"), DflowApiError::Unauthorized));
    assert!(matches!(DflowApiError::from_response(404, "gone"), DflowApiError::NotFound(b) if b == "gone"));
    assert!(matches!(DflowApiError::from_response(429, "x"), DflowApiError::RateLimited));
    match DflowApiError::from_response(500, "{\"message\":\"boom\"}") {
        DflowApiError::ApiError { status_code, message } => {
            assert_eq!(status_code, 500);
            assert_eq!(message, "boom");
        }
        other => panic!("unexpected error {:?}", other),
    }
    match DflowApiError::from_response(400, "plain") {
        DflowApiError::ApiError { status_code, message } => {
            assert_eq!(status_code, 400);
            assert_eq!(message, "plain");
        }
        other => panic!("unexpected error {:?}", other),
    }
}

#[test]
fn prediction_error_from_response() {
    assert!(matches!(
        DflowPredictionApiError::from_response(401, ""),
        DflowPredictionApiError::Unauthorized
    ));
    assert!(matches!(
        DflowPredictionApiError::from_response(404, "b"),
        DflowPredictionApiError::NotFound(b) if b == "b"
    ));
    assert!(matches!(
        DflowPredictionApiError::from_response(429, ""),
        DflowPredictionApiError::RateLimited
    ));
    assert!(matches!(
        DflowPredictionApiError::from_response(503, "{\"error\":\"down\"}"),
        DflowPredictionApiError::ApiError { status_code: 503, message } if message == "down"
    ));
}

#[test]
fn swap_error_from_response() {
    assert!(matches!(DflowSwapApiError::from_response(401, ""), DflowSwapApiError::Unauthorized));
    assert!(matches!(
        DflowSwapApiError::from_response(404, "b"),
        DflowSwapApiError::NotFound(b) if b == "b"
    ));
    assert!(matches!(DflowSwapApiError::from_response(429, ""), DflowSwapApiError::RateLimited));
    assert!(matches!(
        DflowSwapApiError::from_response(200, "odd"),
        DflowSwapApiError::ApiError { status_code: 200, message } if message == "odd"
    ));
}

#[test]
fn event_paths() {
    assert_eq!(get_event_path("EV", None), "/api/v1/event/EV");
    assert_eq!(get_event_path("EV", Some(true)), "/api/v1/event/EV?withNestedMarkets=true");
    assert_eq!(get_events_path(&GetEventsParams::default()), "/api/v1/events");
    let params = GetEventsParams {
        limit: Some(10),
        with_nested_markets: Some(false),
        cursor: Some(20),
        series_tickers: Some("A,B".to_string()),
        is_initialized: Some(true),
        status: Some(MarketStatus::Active),
        sort: Some(SortField::Volume24h),
    };
    assert_eq!(
        get_events_path(&params),
        "/api/v1/events?limit=10&withNestedMarkets=false&cursor=20&seriesTickers=A,B&isInitialized=true&status=active&sort=volume24h"
    );
    let forecast = GetForecastPercentileHistoryParams {
        percentiles: Some("2500,7500".to_string()),
        start_ts: Some(1),
        end_ts: Some(2),
        period_interval: Some(60),
    };
    assert_eq!(
        get_event_forecast_percentile_history_path("SER", "EV", &forecast),
        "/api/v1/event/SER/EV/forecast_percentile_history?percentiles=2500,7500&startTs=1&endTs=2&periodInterval=60"
    );
    assert_eq!(
        get_event_forecast_percentile_history_by_mint_path("MINT", &GetForecastPercentileHistoryParams::default()),
        "/api/v1/event/by-mint/MINT/forecast_percentile_history"
    );
    let candles = GetCandlesticksParams { start_ts: None, end_ts: Some(-5), period_interval: Some(1440) };
    assert_eq!(
        get_event_candlesticks_path("EV", &candles),
        "/api/v1/event/EV/candlesticks?endTs=-5&periodInterval=1440"
    );
}

#[test]
fn market_paths() {
    assert_eq!(get_market_path("MKT"), "/api/v1/market/MKT");
    assert_eq!(get_market_by_mint_path("MINT"), "/api/v1/market/by-mint/MINT");
    assert_eq!(get_markets_path(&GetMarketsParams::default()), "/api/v1/markets");
    let params = GetMarketsParams {
        limit: Some(5),
        cursor: None,
        is_initialized: None,
        status: Some(MarketStatus::Determined),
        sort: Some(SortField::OpenInterest),
    };
    assert_eq!(get_markets_path(&params), "/api/v1/markets?limit=5&status=determined&sort=openInterest");
    assert_eq!(MARKETS_BATCH_PATH, "/api/v1/markets/batch");
    assert_eq!(FILTER_OUTCOME_MINTS_PATH, "/api/v1/filter_outcome_mints");
    assert_eq!(get_outcome_mints_path(&GetOutcomeMintsParams { min_close_ts: None }), "/api/v1/outcome_mints");
    assert_eq!(
        get_outcome_mints_path(&GetOutcomeMintsParams { min_close_ts: Some(1700000000) }),
        "/api/v1/outcome_mints?minCloseTs=1700000000"
    );
    let candles = GetCandlesticksParams { start_ts: Some(1), end_ts: Some(2), period_interval: Some(1) };
    assert_eq!(
        get_market_candlesticks_path("MKT", &candles),
        "/api/v1/market/MKT/candlesticks?startTs=1&endTs=2&periodInterval=1"
    );
    assert_eq!(
        get_market_candlesticks_by_mint_path("MINT", &candles),
        "/api/v1/market/by-mint/MINT/candlesticks?startTs=1&endTs=2&periodInterval=1"
    );
    assert_eq!(get_orderbook_path("MKT"), "/api/v1/orderbook/MKT");
    assert_eq!(get_orderbook_by_mint_path("MINT"), "/api/v1/orderbook/by-mint/MINT");
}

#[test]
fn trade_series_and_search_paths() {
    let trades = GetTradesParams {
        limit: Some(100),
        cursor: Some("c1".to_string()),
        ticker: Some("MKT".to_string()),
        min_ts: Some(3),
        max_ts: None,
    };
    assert_eq!(get_trades_path(&trades), "/api/v1/trades?limit=100&cursor=c1&ticker=MKT&minTs=3");
    assert_eq!(get_trades_by_mint_path("MINT", &trades), "/api/v1/trades/by-mint/MINT?limit=100&cursor=c1&minTs=3");
    assert_eq!(get_trades_path(&GetTradesParams::default()), "/api/v1/trades");
    assert_eq!(get_live_data_path(&["m1".to_string(), "m2".to_string()]), "/api/v1/live_data?milestoneIds=m1,m2");
    assert_eq!(get_live_data_path(&[]), "/api/v1/live_data?milestoneIds=");
    assert_eq!(get_live_data_by_event_path("EV"), "/api/v1/live_data/by-event/EV");
    assert_eq!(get_live_data_by_mint_path("MINT"), "/api/v1/live_data/by-mint/MINT");
    let series = GetSeriesParams {
        category: Some("Politics".to_string()),
        tags: None,
        is_initialized: Some(true),
        status: Some(MarketStatus::Closed),
    };
    assert_eq!(get_series_path(&series), "/api/v1/series?category=Politics&isInitialized=true&status=closed");
    assert_eq!(get_series_by_ticker_path("SER"), "/api/v1/series/SER");
    assert_eq!(TAGS_BY_CATEGORIES_PATH, "/api/v1/tags_by_categories");
    assert_eq!(FILTERS_BY_SPORTS_PATH, "/api/v1/filters_by_sports");
    let search = SearchParams {
        q: "rain".to_string(),
        sort: Some(SortField::Liquidity),
        order: Some(SortOrder::Desc),
        limit: Some(3),
        cursor: Some(0),
        with_nested_markets: Some(true),
        with_market_accounts: Some(false),
    };
    assert_eq!(
        search_events_path(&search),
        "/api/v1/search?q=rain&sort=liquidity&order=desc&limit=3&cursor=0&withNestedMarkets=true&withMarketAccounts=false"
    );
    assert_eq!(search_events_path(&SearchParams::default()), "/api/v1/search?q=");
    assert_eq!(dflow_api_client::prediction::DEFAULT_BASE_URL, "https://prediction-markets-api.dflow.net");
}

#[test]
fn swap_paths() {
    let quote = GetQuoteParams {
        input_mint: "IN".to_string(),
        output_mint: "OUT".to_string(),
        amount: "1000".to_string(),
        slippage_bps: Some(50),
        exact_in: Some(true),
        user_public_key: None,
    };
    assert_eq!(quote_path(&quote), "/quote?inputMint=IN&outputMint=OUT&amount=1000&slippageBps=50&exactIn=true");
    assert_eq!(quote_path(&GetQuoteParams::default()), "/quote?inputMint=&outputMint=&amount=");
    let intent = GetIntentParams {
        input_mint: "IN".to_string(),
        output_mint: "OUT".to_string(),
        amount: "7".to_string(),
        exact_in: None,
        user_public_key: Some("KEY".to_string()),
    };
    assert_eq!(intent_path(&intent), "/intent?inputMint=IN&outputMint=OUT&amount=7&userPublicKey=KEY");
    assert_eq!(SWAP_PATH, "/swap");
    assert_eq!(SUBMIT_INTENT_PATH, "/submit-intent");
    assert_eq!(dflow_api_client::swap::DEFAULT_BASE_URL, "https://swap-api.dflow.net");
    let max = GetQuoteParams { slippage_bps: Some(u32::MAX), ..GetQuoteParams::default() };
    assert_eq!(quote_path(&max), "/quote?inputMint=&outputMint=&amount=&slippageBps=4294967295");
}
