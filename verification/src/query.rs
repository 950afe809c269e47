//! A candlestick query and its canonical serialization.
//!
//! A query always carries the instrument and the `from` timestamp; every
//! other parameter is optional and contributes `&name=value` to the query
//! string only when present, in one fixed order. `spec_query_string` is the
//! single definition of that string, and `to_query_string` is proved to
//! produce exactly it.

use vstd::prelude::*;

use crate::format::bool_to_text;
use crate::format::i32_to_decimal;
use crate::format::spec_bool_text;
use crate::format::spec_signed_decimal;
use crate::timestamp::spec_display_text;
use crate::timestamp::spec_rfc3339;
use crate::timestamp::Timestamp;

verus! {

/// The mathematical content of a candlestick query: everything the query
/// string is built from, as plain values.
pub ghost struct QueryModel {
    pub instrument: Seq<char>,
    pub price: Option<Seq<char>>,
    pub granularity: Option<Seq<char>>,
    pub count: Option<int>,
    pub from: Timestamp,
    pub to: Option<Timestamp>,
    pub smooth: Option<bool>,
    pub include_first: Option<bool>,
    pub daily_alignment: Option<int>,
    pub alignment_timezone: Option<Seq<char>>,
    pub weekly_alignment: Option<Seq<char>>,
}

impl QueryModel {
    /// A valid query: its timestamps are valid calendar times.
    pub open spec fn wf(self) -> bool {
        &&& self.from.wf()
        &&& match self.to {
            Some(t) => t.wf(),
            None => true,
        }
    }
}

/// The contribution of an optional textual parameter to the query string:
/// nothing when absent, `&name=value` when present.
pub open spec fn spec_opt_text(name: Seq<char>, v: Option<Seq<char>>) -> Seq<char> {
    match v {
        Some(s) => "&"@ + name + "="@ + s,
        None => Seq::<char>::empty(),
    }
}

/// The contribution of an optional integer parameter.
pub open spec fn spec_opt_int(name: Seq<char>, v: Option<int>) -> Seq<char> {
    match v {
        Some(n) => "&"@ + name + "="@ + spec_signed_decimal(n),
        None => Seq::<char>::empty(),
    }
}

/// The contribution of an optional boolean parameter.
pub open spec fn spec_opt_bool(name: Seq<char>, v: Option<bool>) -> Seq<char> {
    match v {
        Some(b) => "&"@ + name + "="@ + spec_bool_text(b),
        None => Seq::<char>::empty(),
    }
}

/// The contribution of an optional timestamp parameter, rendered in plain
/// display form.
pub open spec fn spec_opt_time(name: Seq<char>, v: Option<Timestamp>) -> Seq<char> {
    match v {
        Some(t) => "&"@ + name + "="@ + spec_display_text(t),
        None => Seq::<char>::empty(),
    }
}

/// The canonical query string of a query: `instrument/candles?from=...`
/// followed by each present optional parameter, in this fixed order.
pub open spec fn spec_query_string(m: QueryModel) -> Seq<char> {
    m.instrument + "/candles?from="@ + spec_rfc3339(m.from) + spec_opt_text("price"@, m.price)
        + spec_opt_text("granularity"@, m.granularity) + spec_opt_int("count"@, m.count)
        + spec_opt_time("to"@, m.to) + spec_opt_bool("smooth"@, m.smooth) + spec_opt_bool(
        "includeFirst"@,
        m.include_first,
    ) + spec_opt_int("dailyAlignment"@, m.daily_alignment) + spec_opt_text(
        "alignmentTimezone"@,
        m.alignment_timezone,
    ) + spec_opt_text("weeklyAlignment"@, m.weekly_alignment)
}

/// A request for one page of candlestick data.
pub struct PricingQuery {
    /// Name of the instrument; always present.
    instrument: String,
    /// The price components to fetch: any combination of `M` (midpoint),
    /// `B` (bid) and `A` (ask).
    price: Option<String>,
    /// The duration of each candlestick bucket.
    granularity: Option<String>,
    /// The maximum number of candlesticks to return.
    count: Option<i32>,
    /// The start of the time range; always present.
    from: Timestamp,
    /// The end of the time range.
    to: Option<Timestamp>,
    /// Whether each candlestick opens at the previous close price.
    smooth: Option<bool>,
    /// Whether the candlestick covered by `from` itself is included.
    include_first: Option<bool>,
    /// The hour of the day used for daily alignment.
    daily_alignment: Option<i32>,
    /// The time zone in which the daily alignment hour is taken.
    alignment_timezone: Option<String>,
    /// The day of the week used for weekly alignment.
    weekly_alignment: Option<String>,
}

impl View for PricingQuery {
    type V = QueryModel;

    closed spec fn view(&self) -> QueryModel {
        QueryModel {
            instrument: self.instrument@,
            price: match self.price {
                Some(s) => Some(s@),
                None => None,
            },
            granularity: match self.granularity {
                Some(s) => Some(s@),
                None => None,
            },
            count: match self.count {
                Some(n) => Some(n as int),
                None => None,
            },
            from: self.from,
            to: self.to,
            smooth: self.smooth,
            include_first: self.include_first,
            daily_alignment: match self.daily_alignment {
                Some(n) => Some(n as int),
                None => None,
            },
            alignment_timezone: match self.alignment_timezone {
                Some(s) => Some(s@),
                None => None,
            },
            weekly_alignment: match self.weekly_alignment {
                Some(s) => Some(s@),
                None => None,
            },
        }
    }
}

fn append_text_param(s: &mut String, name: &str, v: &Option<String>)
    ensures
        final(s)@ == old(s)@ + spec_opt_text(
            name@,
            match *v {
                Some(x) => Some(x@),
                None => None,
            },
        ),
{
    proof {
        reveal_strlit("&");
        reveal_strlit("=");
    }
    if let Some(x) = v {
        s.append("&");
        s.append(name);
        s.append("=");
        s.append(x.as_str());
        proof {
            assert(s@ =~= old(s)@ + ("&"@ + name@ + "="@ + x@));
        }
    } else {
        proof {
            assert(s@ =~= old(s)@ + Seq::<char>::empty());
        }
    }
}

fn append_int_param(s: &mut String, name: &str, v: &Option<i32>)
    ensures
        final(s)@ == old(s)@ + spec_opt_int(
            name@,
            match *v {
                Some(n) => Some(n as int),
                None => None,
            },
        ),
{
    proof {
        reveal_strlit("&");
        reveal_strlit("=");
    }
    if let Some(n) = v {
        s.append("&");
        s.append(name);
        s.append("=");
        let text = i32_to_decimal(*n);
        s.append(text.as_str());
        proof {
            assert(s@ =~= old(s)@ + ("&"@ + name@ + "="@ + spec_signed_decimal(*n as int)));
        }
    } else {
        proof {
            assert(s@ =~= old(s)@ + Seq::<char>::empty());
        }
    }
}

fn append_bool_param(s: &mut String, name: &str, v: &Option<bool>)
    ensures
        final(s)@ == old(s)@ + spec_opt_bool(name@, *v),
{
    proof {
        reveal_strlit("&");
        reveal_strlit("=");
    }
    if let Some(b) = v {
        s.append("&");
        s.append(name);
        s.append("=");
        s.append(bool_to_text(*b));
        proof {
            assert(s@ =~= old(s)@ + ("&"@ + name@ + "="@ + spec_bool_text(*b)));
        }
    } else {
        proof {
            assert(s@ =~= old(s)@ + Seq::<char>::empty());
        }
    }
}

fn append_time_param(s: &mut String, name: &str, v: &Option<Timestamp>)
    requires
        match *v {
            Some(t) => t.wf(),
            None => true,
        },
    ensures
        final(s)@ == old(s)@ + spec_opt_time(name@, *v),
{
    proof {
        reveal_strlit("&");
        reveal_strlit("=");
    }
    if let Some(t) = v {
        s.append("&");
        s.append(name);
        s.append("=");
        let text = t.to_display_text();
        s.append(text.as_str());
        proof {
            assert(s@ =~= old(s)@ + ("&"@ + name@ + "="@ + spec_display_text(*t)));
        }
    } else {
        proof {
            assert(s@ =~= old(s)@ + Seq::<char>::empty());
        }
    }
}

impl PricingQuery {
    /// A valid query: its timestamps are valid calendar times.
    pub open spec fn wf(self) -> bool {
        self@.wf()
    }

    /// Builds a query for `instrument` starting at `from`, with every
    /// optional parameter absent.
    pub fn new(instrument: String, from: Timestamp) -> (q: PricingQuery)
        requires
            from.wf(),
        ensures
            q@ == (QueryModel {
                instrument: instrument@,
                price: None,
                granularity: None,
                count: None,
                from,
                to: None,
                smooth: None,
                include_first: None,
                daily_alignment: None,
                alignment_timezone: None,
                weekly_alignment: None,
            }),
            q.wf(),
    {
        PricingQuery {
            instrument,
            price: None,
            granularity: None,
            count: None,
            from,
            to: None,
            smooth: None,
            include_first: None,
            daily_alignment: None,
            alignment_timezone: None,
            weekly_alignment: None,
        }
    }

    /// Sets the price components parameter.
    pub fn with_price(&mut self, price: String) -> (r: &mut PricingQuery)
        ensures
            (*r)@ == (QueryModel { price: Some(price@), ..old(self)@ }),
            *final(self) == *final(r),
    {
        self.price = Some(price);
        self
    }

    /// Sets the granularity parameter.
    pub fn with_granularity(&mut self, granularity: String) -> (r: &mut PricingQuery)
        ensures
            (*r)@ == (QueryModel { granularity: Some(granularity@), ..old(self)@ }),
            *final(self) == *final(r),
    {
        self.granularity = Some(granularity);
        self
    }

    /// Sets the maximum candle count parameter.
    pub fn with_count(&mut self, count: i32) -> (r: &mut PricingQuery)
        ensures
            (*r)@ == (QueryModel { count: Some(count as int), ..old(self)@ }),
            *final(self) == *final(r),
    {
        self.count = Some(count);
        self
    }

    /// Sets the end of the time range.
    pub fn with_to(&mut self, to: Timestamp) -> (r: &mut PricingQuery)
        requires
            to.wf(),
        ensures
            (*r)@ == (QueryModel { to: Some(to), ..old(self)@ }),
            *final(self) == *final(r),
    {
        self.to = Some(to);
        self
    }

    /// Sets the smoothing flag.
    pub fn with_smooth(&mut self, smooth: bool) -> (r: &mut PricingQuery)
        ensures
            (*r)@ == (QueryModel { smooth: Some(smooth), ..old(self)@ }),
            *final(self) == *final(r),
    {
        self.smooth = Some(smooth);
        self
    }

    /// Sets whether the candlestick covered by `from` is included.
    pub fn with_include_first(&mut self, include_first: bool) -> (r: &mut PricingQuery)
        ensures
            (*r)@ == (QueryModel { include_first: Some(include_first), ..old(self)@ }),
            *final(self) == *final(r),
    {
        self.include_first = Some(include_first);
        self
    }

    /// Sets the daily alignment hour.
    pub fn with_daily_alignment(&mut self, daily_alignment: i32) -> (r: &mut PricingQuery)
        ensures
            (*r)@ == (QueryModel { daily_alignment: Some(daily_alignment as int), ..old(self)@ }),
            *final(self) == *final(r),
    {
        self.daily_alignment = Some(daily_alignment);
        self
    }

    /// Sets the alignment time zone.
    pub fn with_alignment_timezone(&mut self, alignment_timezone: String) -> (r: &mut PricingQuery)
        ensures
            (*r)@ == (QueryModel {
                alignment_timezone: Some(alignment_timezone@),
                ..old(self)@
            }),
            *final(self) == *final(r),
    {
        self.alignment_timezone = Some(alignment_timezone);
        self
    }

    /// Sets the weekly alignment day.
    pub fn with_weekly_alignment(&mut self, weekly_alignment: String) -> (r: &mut PricingQuery)
        ensures
            (*r)@ == (QueryModel { weekly_alignment: Some(weekly_alignment@), ..old(self)@ }),
            *final(self) == *final(r),
    {
        self.weekly_alignment = Some(weekly_alignment);
        self
    }

    /// Serializes the query to its canonical query string. The result is a
    /// function of the query's content alone, so serialization is
    /// deterministic and order-stable.
    pub fn to_query_string(&self) -> (s: String)
        requires
            self.wf(),
        ensures
            s@ == spec_query_string(self@),
    {
        let mut s = String::new();
        s.append(self.instrument.as_str());
        s.append("/candles?from=");
        let from_text = self.from.to_rfc3339();
        s.append(from_text.as_str());
        append_text_param(&mut s, "price", &self.price);
        append_text_param(&mut s, "granularity", &self.granularity);
        append_int_param(&mut s, "count", &self.count);
        append_time_param(&mut s, "to", &self.to);
        append_bool_param(&mut s, "smooth", &self.smooth);
        append_bool_param(&mut s, "includeFirst", &self.include_first);
        append_int_param(&mut s, "dailyAlignment", &self.daily_alignment);
        append_text_param(&mut s, "alignmentTimezone", &self.alignment_timezone);
        append_text_param(&mut s, "weeklyAlignment", &self.weekly_alignment);
        proof {
            assert(s@ =~= spec_query_string(self@));
        }
        s
    }

    /// The resource path of the query on the remote service: the candles
    /// resource under `instruments/`, with the canonical query string.
    pub fn resource_path(&self) -> (s: String)
        requires
            self.wf(),
        ensures
            s@ == "instruments/"@ + spec_query_string(self@),
    {
        let mut s = String::new();
        s.append("instruments/");
        let query = self.to_query_string();
        s.append(query.as_str());
        s
    }
}

/// Serialization is deterministic: queries with the same content have the
/// same canonical query string.
pub proof fn lemma_query_string_deterministic(a: QueryModel, b: QueryModel)
    requires
        a == b,
    ensures
        spec_query_string(a) == spec_query_string(b),
{
}

} // verus!
