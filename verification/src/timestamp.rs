//! A calendar timestamp in UTC, held as plain field values.
//!
//! The remote service speaks RFC 3339 text; the library keeps timestamps as
//! year, month, day, hour, minute and second so that rendering and ordering
//! can be stated and proved exactly.

use vstd::prelude::*;

use crate::format::spec_pad2;
use crate::format::spec_pad4;
use crate::format::u16_to_pad4;
use crate::format::u8_to_pad2;

verus! {

/// A whole-second instant in UTC, as a calendar date and time of day.
#[derive(Clone, Copy, PartialEq, Eq, Structural, Debug)]
pub struct Timestamp {
    pub year: u16,
    pub month: u8,
    pub day: u8,
    pub hour: u8,
    pub minute: u8,
    pub second: u8,
}

impl Timestamp {
    /// A valid timestamp: a calendar date with a time of day, in the range
    /// that four-digit years can render.
    pub open spec fn wf(self) -> bool {
        &&& self.year <= 9999
        &&& 1 <= self.month <= 12
        &&& 1 <= self.day <= 31
        &&& self.hour <= 23
        &&& self.minute <= 59
        &&& self.second <= 59
    }

    /// Strict chronological order, lexicographic over the fields from year
    /// down to second.
    pub open spec fn spec_lt(self, other: Timestamp) -> bool {
        if self.year != other.year {
            self.year < other.year
        } else if self.month != other.month {
            self.month < other.month
        } else if self.day != other.day {
            self.day < other.day
        } else if self.hour != other.hour {
            self.hour < other.hour
        } else if self.minute != other.minute {
            self.minute < other.minute
        } else {
            self.second < other.second
        }
    }

    /// Chronological order or equality.
    pub open spec fn spec_le(self, other: Timestamp) -> bool {
        self.spec_lt(other) || self == other
    }

    /// Builds a timestamp, accepting exactly the field values that form a
    /// valid one.
    pub fn new(year: u16, month: u8, day: u8, hour: u8, minute: u8, second: u8) -> (r: Option<
        Timestamp,
    >)
        ensures
            r is Some <==> (Timestamp {
                year,
                month,
                day,
                hour,
                minute,
                second,
            }).wf(),
            r is Some ==> r->Some_0 == (Timestamp { year, month, day, hour, minute, second }),
    {
        if year <= 9999 && 1 <= month && month <= 12 && 1 <= day && day <= 31 && hour <= 23
            && minute <= 59 && second <= 59 {
            Some(Timestamp { year, month, day, hour, minute, second })
        } else {
            None
        }
    }

    /// Decides strict chronological order.
    pub fn lt(&self, other: &Timestamp) -> (r: bool)
        ensures
            r == self.spec_lt(*other),
    {
        if self.year != other.year {
            self.year < other.year
        } else if self.month != other.month {
            self.month < other.month
        } else if self.day != other.day {
            self.day < other.day
        } else if self.hour != other.hour {
            self.hour < other.hour
        } else if self.minute != other.minute {
            self.minute < other.minute
        } else {
            self.second < other.second
        }
    }

    /// Renders the timestamp as RFC 3339 text, exactly as `spec_rfc3339`
    /// describes.
    pub fn to_rfc3339(&self) -> (s: String)
        requires
            self.wf(),
        ensures
            s@ == spec_rfc3339(*self),
    {
        proof {
            reveal_strlit("-");
            reveal_strlit("T");
            reveal_strlit(":");
            reveal_strlit("+00:00");
        }
        let mut s = u16_to_pad4(self.year);
        s.append("-");
        let part = u8_to_pad2(self.month);
        s.append(part.as_str());
        s.append("-");
        let part = u8_to_pad2(self.day);
        s.append(part.as_str());
        s.append("T");
        let part = u8_to_pad2(self.hour);
        s.append(part.as_str());
        s.append(":");
        let part = u8_to_pad2(self.minute);
        s.append(part.as_str());
        s.append(":");
        let part = u8_to_pad2(self.second);
        s.append(part.as_str());
        s.append("+00:00");
        proof {
            assert(s@ =~= spec_rfc3339(*self));
        }
        s
    }

    /// Renders the timestamp in the plain display form the service's `to`
    /// parameter carries, exactly as `spec_display_text` describes.
    pub fn to_display_text(&self) -> (s: String)
        requires
            self.wf(),
        ensures
            s@ == spec_display_text(*self),
    {
        proof {
            reveal_strlit("-");
            reveal_strlit(" ");
            reveal_strlit(":");
            reveal_strlit(" UTC");
        }
        let mut s = u16_to_pad4(self.year);
        s.append("-");
        let part = u8_to_pad2(self.month);
        s.append(part.as_str());
        s.append("-");
        let part = u8_to_pad2(self.day);
        s.append(part.as_str());
        s.append(" ");
        let part = u8_to_pad2(self.hour);
        s.append(part.as_str());
        s.append(":");
        let part = u8_to_pad2(self.minute);
        s.append(part.as_str());
        s.append(":");
        let part = u8_to_pad2(self.second);
        s.append(part.as_str());
        s.append(" UTC");
        proof {
            assert(s@ =~= spec_display_text(*self));
        }
        s
    }
}

/// The RFC 3339 rendering of a UTC timestamp:
/// `YYYY-MM-DDTHH:MM:SS+00:00`.
pub open spec fn spec_rfc3339(t: Timestamp) -> Seq<char> {
    spec_pad4(t.year as nat) + seq!['-'] + spec_pad2(t.month as nat) + seq!['-'] + spec_pad2(
        t.day as nat,
    ) + seq!['T'] + spec_pad2(t.hour as nat) + seq![':'] + spec_pad2(t.minute as nat) + seq![':']
        + spec_pad2(t.second as nat) + seq!['+', '0', '0', ':', '0', '0']
}

/// The plain display rendering of a UTC timestamp:
/// `YYYY-MM-DD HH:MM:SS UTC`.
pub open spec fn spec_display_text(t: Timestamp) -> Seq<char> {
    spec_pad4(t.year as nat) + seq!['-'] + spec_pad2(t.month as nat) + seq!['-'] + spec_pad2(
        t.day as nat,
    ) + seq![' '] + spec_pad2(t.hour as nat) + seq![':'] + spec_pad2(t.minute as nat) + seq![':']
        + spec_pad2(t.second as nat) + seq![' ', 'U', 'T', 'C']
}

} // verus!
