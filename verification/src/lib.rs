//! Verified core of a market-index dashboard backend: request validation,
//! code normalisation, response parsing and the K-line cache policy.

pub mod cache;
pub mod endpoints;
pub mod json;
pub mod kline;
pub mod kline_fetch;
pub mod minute;
pub mod quotes;
pub mod request;
pub mod text;

pub use cache::{
    cache_entry_at, cache_file, cache_file_name, cache_tmp_file, cache_tmp_file_name, cached_series, epoch_millis,
    fresh_at,
    is_fresh, new_cache_entry, now_ms, CachedKline,
};
pub use endpoints::{
    greet, index_url, kline_url, minute_url, INDEX_CODES, KLINE_URL_PREFIX, MINUTE_URL_PREFIX,
    QUOTE_URL_PREFIX,
};
pub use json::{parse_json, JsonMember, JsonValue};
pub use kline::{kline_data_from_body, kline_data_from_json, KlineBar, KlineData, KlineError};
pub use kline_fetch::{KlineAction, KlineEvent, KlineFetch, KlineStage};
pub use minute::{minute_series_from_body, minute_series_from_json, MinuteError, MinuteRow, MinuteSeries};
pub use quotes::{parse_index_response, parse_index_text, quote_from_line, IndexQuote};
pub use request::{
    ifzq_code, kline_count_or_default, market_type, period_ttl_ms, validate_code,
    validate_kline_count, validate_period, RequestError, DEFAULT_KLINE_COUNT, MAX_KLINE_COUNT,
};
