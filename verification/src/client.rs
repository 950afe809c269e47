//! The client: base URL, credential, and the shared admission gate.
//!
//! The HTTP transport itself lives outside the library; what is verified
//! here is everything the transport is handed — the request URL, the
//! authorization header value, and the admission decision of the shared
//! rate limiter.

use vstd::prelude::*;

use crate::query::PricingQuery;
use crate::query::QueryModel;
use crate::rate_limiter::spec_try_acquire;
use crate::rate_limiter::LimiterModel;
use crate::rate_limiter::RateLimiter;
use crate::timestamp::Timestamp;

verus! {

/// The service allows on average no more than one request per 9
/// milliseconds for each access token, with bursts of no more than 60
/// requests; excess requests are rejected. These constants configure the
/// shared token bucket accordingly.
pub const REQUEST_BURST_CAPACITY: u64 = 60;

/// Tokens regained per refill interval.
pub const REQUEST_REFILL_QUANTUM: u64 = 1;

/// The refill interval, in milliseconds.
pub const REQUEST_REFILL_INTERVAL_MS: u64 = 9;

/// The mathematical content of a client.
pub ghost struct ClientModel {
    /// The base URL of the service.
    pub url: Seq<char>,
    /// The access token sent with every request.
    pub api_key: Seq<char>,
    /// The shared token bucket.
    pub limiter: LimiterModel,
}

/// A client of the trading-data service: base URL, credential, and the
/// rate limiter shared by every request the client issues.
pub struct Client {
    url: String,
    api_key: String,
    rate_limiter: RateLimiter,
}

impl View for Client {
    type V = ClientModel;

    closed spec fn view(&self) -> ClientModel {
        ClientModel { url: self.url@, api_key: self.api_key@, limiter: self.rate_limiter@ }
    }
}

impl Client {
    /// A valid client: its token bucket is valid.
    pub open spec fn wf(self) -> bool {
        self@.limiter.wf()
    }

    /// Builds a client with the default admission gate, whose bucket starts
    /// full at clock value `now_ms`.
    pub fn new(url: &str, api_key: &str, now_ms: u64) -> (r: Client)
        requires
            now_ms + REQUEST_REFILL_INTERVAL_MS <= u64::MAX,
        ensures
            r@ == (ClientModel {
                url: url@,
                api_key: api_key@,
                limiter: LimiterModel {
                    capacity: REQUEST_BURST_CAPACITY as int,
                    quantum: REQUEST_REFILL_QUANTUM as int,
                    interval_ms: REQUEST_REFILL_INTERVAL_MS as int,
                    available: REQUEST_BURST_CAPACITY as int,
                    next_refill_ms: now_ms + REQUEST_REFILL_INTERVAL_MS,
                },
            }),
            r.wf(),
    {
        let rate_limiter = RateLimiter::new(
            REQUEST_BURST_CAPACITY,
            REQUEST_REFILL_QUANTUM,
            REQUEST_REFILL_INTERVAL_MS,
            now_ms,
        );
        Client { url: url.to_owned(), api_key: api_key.to_owned(), rate_limiter }
    }

    /// The admission decision for one outbound request at clock value
    /// `now_ms`: exactly the shared bucket's admission check. The URL and
    /// credential are untouched.
    pub fn try_acquire(&mut self, now_ms: u64) -> (granted: bool)
        requires
            old(self).wf(),
            now_ms + old(self)@.limiter.interval_ms <= u64::MAX,
        ensures
            final(self)@.limiter == spec_try_acquire(old(self)@.limiter, now_ms as int).0,
            granted == spec_try_acquire(old(self)@.limiter, now_ms as int).1,
            final(self)@.url == old(self)@.url,
            final(self)@.api_key == old(self)@.api_key,
            final(self).wf(),
    {
        self.rate_limiter.try_acquire(now_ms)
    }

    /// The absolute URL of a resource: the base URL, a slash, and the
    /// resource path with its query.
    pub fn request_url(&self, path_and_query: &str) -> (s: String)
        ensures
            s@ == self@.url + "/"@ + path_and_query@,
    {
        let mut s = String::new();
        s.append(self.url.as_str());
        s.append("/");
        s.append(path_and_query);
        proof {
            assert(s@ =~= self@.url + "/"@ + path_and_query@);
        }
        s
    }

    /// The value of the authorization header sent with every request.
    pub fn bearer_header(&self) -> (s: String)
        ensures
            s@ == "Bearer "@ + self@.api_key,
    {
        let mut s = String::new();
        s.append("Bearer ");
        s.append(self.api_key.as_str());
        proof {
            assert(s@ =~= "Bearer "@ + self@.api_key);
        }
        s
    }

    /// Begins a candlestick query for `instrument` starting at `from`.
    pub fn pricing_for(&self, instrument: String, from: Timestamp) -> (q: PricingQuery)
        requires
            from.wf(),
        ensures
            q@ == (QueryModel {
                instrument: instrument@,
                price: None,
                granularity: None,
                count: None,
                from,
                to: None,
                smooth: None,
                include_first: None,
                daily_alignment: None,
                alignment_timezone: None,
                weekly_alignment: None,
            }),
            q.wf(),
    {
        PricingQuery::new(instrument, from)
    }
}

} // verus!
