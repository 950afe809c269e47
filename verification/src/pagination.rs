//! The pagination driver: a cursor walk over an unbounded time series.
//!
//! The driver holds the `from` cursor between pages. After a non-empty
//! page it advances the cursor to the start time of the page's last candle
//! and excludes that boundary candle from the next request, so no record
//! is fetched twice and none is skipped; an empty page ends the walk.

use vstd::prelude::*;

use crate::candle::spec_candles_sorted;
use crate::candle::spec_candles_wf;
use crate::candle::Candlestick;
use crate::candle::Pricing;
use crate::query::PricingQuery;
use crate::query::QueryModel;
use crate::timestamp::Timestamp;

verus! {

/// The two states of the walk: still fetching pages, or finished.
#[derive(Clone, Copy, PartialEq, Eq, Structural, Debug)]
pub enum DriverState {
    Fetching,
    Done,
}

/// The mathematical state of the driver.
pub ghost struct DriverModel {
    /// The instrument being walked.
    pub instrument: Seq<char>,
    /// The `from` timestamp of the next request.
    pub cursor: Timestamp,
    /// The `includeFirst` flag of the next request: the caller's choice on
    /// the first request, `false` after every non-empty page.
    pub include_first: Option<bool>,
    /// Whether the walk is still fetching.
    pub state: DriverState,
    /// How many pages have been taken in.
    pub pages_fetched: int,
    /// How many candles the walk has yielded in total.
    pub candles_yielded: int,
}

/// The driver after taking in one page's candles: an empty page ends the
/// walk; a non-empty page advances the cursor to the last candle's start
/// time and excludes that boundary candle from the next request. A
/// finished driver is unchanged.
pub open spec fn spec_on_page(d: DriverModel, candles: Seq<Candlestick>) -> DriverModel {
    if d.state is Done {
        d
    } else if candles.len() == 0 {
        DriverModel { state: DriverState::Done, pages_fetched: d.pages_fetched + 1, ..d }
    } else {
        DriverModel {
            cursor: candles.last().time,
            include_first: Some(false),
            pages_fetched: d.pages_fetched + 1,
            candles_yielded: d.candles_yielded + candles.len(),
            ..d
        }
    }
}

/// The request a driver issues next: none once it is done, else a query
/// for its instrument from its cursor, with its `includeFirst` flag and no
/// other optional parameter.
pub open spec fn spec_next_request(d: DriverModel) -> Option<QueryModel> {
    if d.state is Done {
        None
    } else {
        Some(
            QueryModel {
                instrument: d.instrument,
                price: None,
                granularity: None,
                count: None,
                from: d.cursor,
                to: None,
                smooth: None,
                include_first: d.include_first,
                daily_alignment: None,
                alignment_timezone: None,
                weekly_alignment: None,
            },
        )
    }
}

/// Walks a candlestick time series page by page.
pub struct PaginationDriver {
    instrument: String,
    cursor: Timestamp,
    include_first: Option<bool>,
    state: DriverState,
    pages_fetched: u64,
    candles_yielded: u64,
}

impl View for PaginationDriver {
    type V = DriverModel;

    closed spec fn view(&self) -> DriverModel {
        DriverModel {
            instrument: self.instrument@,
            cursor: self.cursor,
            include_first: self.include_first,
            state: self.state,
            pages_fetched: self.pages_fetched as int,
            candles_yielded: self.candles_yielded as int,
        }
    }
}

impl PaginationDriver {
    /// A valid driver: its cursor is a valid timestamp.
    pub open spec fn wf(self) -> bool {
        self@.cursor.wf()
    }

    /// Starts a walk over `instrument` from the caller's initial cursor,
    /// with the caller's choice of `includeFirst` for the first request.
    pub fn new(instrument: String, from: Timestamp, include_first: Option<bool>) -> (d:
        PaginationDriver)
        requires
            from.wf(),
        ensures
            d@ == (DriverModel {
                instrument: instrument@,
                cursor: from,
                include_first,
                state: DriverState::Fetching,
                pages_fetched: 0,
                candles_yielded: 0,
            }),
            d.wf(),
    {
        PaginationDriver {
            instrument,
            cursor: from,
            include_first,
            state: DriverState::Fetching,
            pages_fetched: 0,
            candles_yielded: 0,
        }
    }

    /// Whether the walk has ended.
    pub fn is_done(&self) -> (r: bool)
        ensures
            r == (self@.state is Done),
    {
        match self.state {
            DriverState::Done => true,
            DriverState::Fetching => false,
        }
    }

    /// How many pages the walk has taken in.
    pub fn pages_fetched(&self) -> (r: u64)
        ensures
            r == self@.pages_fetched,
    {
        self.pages_fetched
    }

    /// How many candles the walk has yielded in total.
    pub fn candles_yielded(&self) -> (r: u64)
        ensures
            r == self@.candles_yielded,
    {
        self.candles_yielded
    }

    /// The request to issue next: none once the walk is done, as
    /// `spec_next_request` describes.
    pub fn next_request(&self) -> (r: Option<PricingQuery>)
        requires
            self.wf(),
        ensures
            match r {
                Some(q) => spec_next_request(self@) == Some(q@) && q.wf(),
                None => spec_next_request(self@) is None,
            },
    {
        match self.state {
            DriverState::Done => None,
            DriverState::Fetching => {
                let mut q = PricingQuery::new(self.instrument.clone(), self.cursor);
                if let Some(b) = self.include_first {
                    q.with_include_first(b);
                }
                Some(q)
            },
        }
    }

    /// Takes in one fetched page, as `spec_on_page` describes: an empty
    /// page ends the walk, a non-empty page advances the cursor past its
    /// last candle, and a finished driver is unchanged.
    pub fn on_page(&mut self, page: &Pricing)
        requires
            old(self).wf(),
            spec_candles_wf(page.candles@),
            old(self)@.pages_fetched + 1 <= u64::MAX,
            old(self)@.candles_yielded + page.candles@.len() <= u64::MAX,
        ensures
            final(self)@ == spec_on_page(old(self)@, page.candles@),
            final(self).wf(),
    {
        match self.state {
            DriverState::Done => {},
            DriverState::Fetching => {
                self.pages_fetched = self.pages_fetched + 1;
                if page.candles.len() == 0 {
                    self.state = DriverState::Done;
                } else {
                    self.cursor = page.candles[page.candles.len() - 1].time;
                    self.include_first = Some(false);
                    self.candles_yielded = self.candles_yielded + page.candles.len() as u64;
                }
            },
        }
    }
}

/// Cursor advance: from a fetching driver, a page whose last candle starts
/// at `T1` leads to a next request with `from = T1` and
/// `includeFirst = false`, whatever the cursor was before.
pub proof fn lemma_cursor_advance(d: DriverModel, candles: Seq<Candlestick>)
    requires
        d.state is Fetching,
        candles.len() > 0,
    ensures
        ({
            let next = spec_next_request(spec_on_page(d, candles));
            &&& next is Some
            &&& next->Some_0.from == candles.last().time
            &&& next->Some_0.include_first == Some(false)
        }),
{
}

/// No gaps: when a page is chronologically non-decreasing, the advanced
/// cursor is at or past every candle the page yielded, so nothing the walk
/// has already seen lies after the next request's start.
pub proof fn lemma_cursor_dominates_page(d: DriverModel, candles: Seq<Candlestick>)
    requires
        d.state is Fetching,
        candles.len() > 0,
        spec_candles_sorted(candles),
    ensures
        forall|i: int|
            0 <= i < candles.len() ==> (#[trigger] candles[i]).time.spec_le(
                spec_on_page(d, candles).cursor,
            ),
{
}

/// Termination: an empty page puts the driver in the done state, and a
/// done driver issues no further request.
pub proof fn lemma_empty_page_terminates(d: DriverModel, candles: Seq<Candlestick>)
    requires
        d.state is Fetching,
        candles.len() == 0,
    ensures
        spec_on_page(d, candles).state is Done,
        spec_next_request(spec_on_page(d, candles)) is None,
        spec_on_page(d, candles).candles_yielded == d.candles_yielded,
{
}

/// The done state is absorbing: no page changes a finished driver, and it
/// never issues another request.
pub proof fn lemma_done_is_absorbing(d: DriverModel, candles: Seq<Candlestick>)
    requires
        d.state is Done,
    ensures
        spec_on_page(d, candles) == d,
        spec_next_request(d) is None,
{
}

} // verus!
