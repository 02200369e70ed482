//! Calendar timestamps as plain values, and their rendering in the shape
//! clients receive: `YYYY-MM-DDTHH:MM:SS.sssZ` (millisecond precision, UTC,
//! trailing `Z`).
//!
//! The storage layer keeps timestamps in its own representation; at the
//! boundary they are handed over as the plain fields below.

use vstd::prelude::*;
use vstd::string::StringExecFns;

use crate::numfmt::{dec_pad, dec_pad_string};

verus! {

/// A calendar timestamp, UTC, split into plain fields.
#[derive(Clone, Copy, Debug, PartialEq, Eq, Structural)]
pub struct Timestamp {
    pub year: u16,
    pub month: u8,
    pub day: u8,
    pub hour: u8,
    pub minute: u8,
    pub second: u8,
    pub millisecond: u16,
}

impl Timestamp {
    /// The fields form a date and time of day (days are not checked
    /// against the month's length).
    pub open spec fn wf(self) -> bool {
        &&& self.year <= 9999
        &&& 1 <= self.month <= 12
        &&& 1 <= self.day <= 31
        &&& self.hour <= 23
        &&& self.minute <= 59
        &&& self.second <= 59
        &&& self.millisecond <= 999
    }

    /// The rendering of this timestamp: four-digit year, two-digit date and
    /// time fields, three-digit milliseconds, `T` between date and time,
    /// and a trailing `Z`.
    pub open spec fn spec_format(self) -> Seq<char> {
        dec_pad(self.year as int, 4) + seq!['-'] + dec_pad(self.month as int, 2) + seq!['-']
            + dec_pad(self.day as int, 2) + seq!['T'] + dec_pad(self.hour as int, 2) + seq![':']
            + dec_pad(self.minute as int, 2) + seq![':'] + dec_pad(self.second as int, 2)
            + seq!['.'] + dec_pad(self.millisecond as int, 3) + seq!['Z']
    }

    /// Renders the timestamp for a response body.
    pub fn format(&self) -> (r: String)
        ensures
            r@ == self.spec_format(),
    {
        let mut r = dec_pad_string(self.year as u64, 4);
        r.append("-");
        let month = dec_pad_string(self.month as u64, 2);
        r.append(month.as_str());
        r.append("-");
        let day = dec_pad_string(self.day as u64, 2);
        r.append(day.as_str());
        r.append("T");
        let hour = dec_pad_string(self.hour as u64, 2);
        r.append(hour.as_str());
        r.append(":");
        let minute = dec_pad_string(self.minute as u64, 2);
        r.append(minute.as_str());
        r.append(":");
        let second = dec_pad_string(self.second as u64, 2);
        r.append(second.as_str());
        r.append(".");
        let millisecond = dec_pad_string(self.millisecond as u64, 3);
        r.append(millisecond.as_str());
        r.append("Z");
        proof {
            reveal_strlit("-");
            reveal_strlit("T");
            reveal_strlit(":");
            reveal_strlit(".");
            reveal_strlit("Z");
            assert(r@ =~= self.spec_format());
        }
        r
    }
}

} // verus!
