//! A client library for a candlestick trading-data REST service.
//!
//! The verified core consists of a token-bucket rate limiter that gates
//! outbound requests, a query builder that serializes time-series requests
//! to a canonical query string, and a pagination driver that walks an
//! unbounded series page by page without gaps or duplicated boundary
//! records.

mod account;
mod candle;
mod client;
mod format;
mod pagination;
mod query;
mod rate_limiter;
mod timestamp;

pub use account::Account;
pub use account::ClientExtensions;
pub use account::InstrumentType;
pub use account::OrderState;
pub use account::TradeState;
pub use candle::spec_candles_sorted;
pub use candle::spec_candles_wf;
pub use candle::Candlestick;
pub use candle::CandlestickData;
pub use candle::Pricing;
pub use client::Client;
pub use client::ClientModel;
pub use client::REQUEST_BURST_CAPACITY;
pub use client::REQUEST_REFILL_INTERVAL_MS;
pub use client::REQUEST_REFILL_QUANTUM;
pub use format::spec_bool_text;
pub use format::spec_decimal;
pub use format::spec_pad2;
pub use format::spec_pad4;
pub use format::spec_signed_decimal;
pub use format::u32_to_decimal;
pub use pagination::lemma_cursor_advance;
pub use pagination::lemma_cursor_dominates_page;
pub use pagination::lemma_done_is_absorbing;
pub use pagination::lemma_empty_page_terminates;
pub use pagination::spec_next_request;
pub use pagination::spec_on_page;
pub use pagination::DriverModel;
pub use pagination::DriverState;
pub use pagination::PaginationDriver;
pub use query::lemma_query_string_deterministic;
pub use query::spec_query_string;
pub use query::PricingQuery;
pub use query::QueryModel;
pub use rate_limiter::lemma_burst_bound;
pub use rate_limiter::lemma_grant_needs_token_or_refill;
pub use rate_limiter::lemma_rate_bound;
pub use rate_limiter::lemma_starved_until_refill;
pub use rate_limiter::spec_refill;
pub use rate_limiter::spec_run;
pub use rate_limiter::spec_try_acquire;
pub use rate_limiter::LimiterModel;
pub use rate_limiter::RateLimiter;
pub use timestamp::spec_display_text;
pub use timestamp::spec_rfc3339;
pub use timestamp::Timestamp;
