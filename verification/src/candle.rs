//! Candlestick data: one parsed page of a time series.

use vstd::prelude::*;

use crate::timestamp::Timestamp;

verus! {

/// One open/high/low/close quadruple, as the service renders it: decimal
/// price text.
#[derive(Clone, Debug)]
pub struct CandlestickData {
    /// The first (open) price in the candlestick's time range.
    pub o: String,
    /// The highest price in the candlestick's time range.
    pub h: String,
    /// The lowest price in the candlestick's time range.
    pub l: String,
    /// The last (closing) price in the candlestick's time range.
    pub c: String,
}

/// One candlestick: a fixed-duration aggregate of price data, with up to
/// three quadruples keyed by price component.
#[derive(Clone, Debug)]
pub struct Candlestick {
    /// The start time of the candlestick.
    pub time: Timestamp,
    /// Bid-based data; present only if bid candles were requested.
    pub bid: Option<CandlestickData>,
    /// Ask-based data; present only if ask candles were requested.
    pub ask: Option<CandlestickData>,
    /// Midpoint-based data; present only if midpoint candles were requested.
    pub mid: Option<CandlestickData>,
    /// The number of prices created during the candlestick's time range.
    pub volume: i32,
    /// Whether the candlestick's ending time is not in the future.
    pub complete: bool,
}

/// One parsed page of a time series.
#[derive(Clone, Debug)]
pub struct Pricing {
    /// The instrument whose prices the candlesticks represent.
    pub instrument: String,
    /// The granularity of the candlesticks provided.
    pub granularity: String,
    /// The candlesticks that satisfy the request.
    pub candles: Vec<Candlestick>,
}

/// Every candlestick in the sequence has a valid start time.
pub open spec fn spec_candles_wf(s: Seq<Candlestick>) -> bool {
    forall|i: int| 0 <= i < s.len() ==> (#[trigger] s[i]).time.wf()
}

/// The sequence is chronologically non-decreasing by start time.
pub open spec fn spec_candles_sorted(s: Seq<Candlestick>) -> bool {
    forall|i: int, j: int| 0 <= i <= j < s.len() ==> s[i].time.spec_le(s[j].time)
}

} // verus!
