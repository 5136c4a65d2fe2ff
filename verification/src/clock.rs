//! Points in time and their RFC 3339 form.

use vstd::prelude::*;

verus! {

/// A point in time: whole seconds since 1970-01-01T00:00:00Z, and nanoseconds.
#[derive(Clone, Copy, Debug, PartialEq, Eq, Structural)]
pub struct Moment {
    pub secs: i64,
    pub nanos: u32,
}

impl Moment {
    /// Is this moment one that the calendar can write?
    pub open spec fn in_calendar(self) -> bool {
        -8_334_601_228_800 <= self.secs <= 8_210_266_876_799 && self.nanos < 1_000_000_000
    }

    /// Is this moment before `other`?
    pub open spec fn is_before(self, other: Moment) -> bool {
        self.secs < other.secs || (self.secs == other.secs && self.nanos < other.nanos)
    }

    /// This moment, `secs` seconds later. A leap second, which has more than a
    /// thousand million nanoseconds, ends when time moves on or back.
    pub open spec fn later(self, secs: int) -> Moment {
        if self.nanos < 1_000_000_000 || secs == 0 {
            Moment { secs: (self.secs + secs) as i64, nanos: self.nanos }
        } else if secs > 0 {
            Moment { secs: (self.secs + secs) as i64, nanos: (self.nanos - 1_000_000_000) as u32 }
        } else {
            Moment {
                secs: (self.secs + secs + 1) as i64,
                nanos: (self.nanos - 1_000_000_000) as u32,
            }
        }
    }

    /// Does the calendar reach to `secs` seconds after this moment? A leap second
    /// that time moves back from ends at the second after it.
    pub open spec fn can_add(self, secs: int) -> bool {
        let end = if self.nanos < 1_000_000_000 || secs >= 0 {
            self.secs + secs
        } else {
            self.secs + secs + 1
        };
        self.nanos < 2_000_000_000 && -8_334_601_228_800 <= end <= 8_210_266_876_799
    }

    /// Can the calendar tell this moment's date?
    pub fn is_dated(&self) -> (r: bool)
        ensures
            r == self.in_calendar(),
    {
        -8_334_601_228_800 <= self.secs && self.secs <= 8_210_266_876_799 && self.nanos
            < 1_000_000_000
    }

    /// Is this moment before `other`?
    pub fn before(&self, other: &Moment) -> (r: bool)
        ensures
            r == self.is_before(*other),
    {
        self.secs < other.secs || (self.secs == other.secs && self.nanos < other.nanos)
    }

    /// This moment, `secs` seconds later.
    pub fn plus(&self, secs: i64) -> (r: Moment)
        requires
            self.can_add(secs as int),
        ensures
            r == self.later(secs as int),
            self.nanos < 1_000_000_000 || secs != 0 ==> r.in_calendar(),
    {
        if self.nanos < 1_000_000_000 || secs == 0 {
            Moment { secs: self.secs + secs, nanos: self.nanos }
        } else if secs > 0 {
            Moment { secs: self.secs + secs, nanos: self.nanos - 1_000_000_000 }
        } else {
            Moment { secs: self.secs + secs + 1, nanos: self.nanos - 1_000_000_000 }
        }
    }

    /// Does the calendar reach to `secs` seconds after this moment?
    pub fn reaches(&self, secs: i64) -> (r: bool)
        ensures
            r == self.can_add(secs as int),
    {
        let sum: i128 = self.secs as i128 + secs as i128;
        let end: i128 = if self.nanos < 1_000_000_000 || secs >= 0 {
            sum
        } else {
            sum + 1
        };
        self.nanos < 2_000_000_000 && -8_334_601_228_800 <= end && end <= 8_210_266_876_799
    }
}

/// The moment that an RFC 3339 text stands for, as seconds and nanoseconds.
pub uninterp spec fn rfc3339_parts(text: Seq<char>) -> Option<(i64, u32)>;

/// The RFC 3339 text, in UTC, of a number of seconds and nanoseconds.
pub uninterp spec fn rfc3339_text(secs: i64, nanos: u32) -> Seq<char>;

/// The moment that an RFC 3339 text stands for.
pub open spec fn rfc3339_moment(text: Seq<char>) -> Option<Moment> {
    match rfc3339_parts(text) {
        Some(p) => Some(Moment { secs: p.0, nanos: p.1 }),
        None => None,
    }
}

/// Calls `chrono::DateTime::parse_from_rfc3339` and takes the timestamp and
/// the nanoseconds of what it found; the result is named.
#[verifier::external_body]
pub(crate) fn parse_rfc3339_parts(text: &str) -> (r: Option<(i64, u32)>)
    ensures
        r == rfc3339_parts(text@),
{
    chrono::DateTime::parse_from_rfc3339(text).ok().map(
        |t| (t.timestamp(), t.timestamp_subsec_nanos()),
    )
}

/// Calls `chrono::DateTime::<Utc>::to_rfc3339`. The result is named; from 1970
/// to the year 9999 it parses to the moment it was made from.
#[verifier::external_body]
pub(crate) fn format_rfc3339(t: &Moment) -> (r: String)
    requires
        t.in_calendar(),
    ensures
        r@ == rfc3339_text(t.secs, t.nanos),
        0 <= t.secs <= 253_402_300_799 ==> rfc3339_parts(r@) == Some((t.secs, t.nanos)),
{
    chrono::DateTime::from_timestamp(t.secs, t.nanos).expect("in the calendar").to_rfc3339()
}

/// The moment that an RFC 3339 text stands for.
pub fn parse_rfc3339(text: &str) -> (r: Option<Moment>)
    ensures
        r == rfc3339_moment(text@),
{
    match parse_rfc3339_parts(text) {
        Some(p) => Some(Moment { secs: p.0, nanos: p.1 }),
        None => None,
    }
}

/// The RFC 3339 text of a moment, in UTC.
pub fn to_rfc3339(t: &Moment) -> (r: String)
    requires
        t.in_calendar(),
    ensures
        r@ == rfc3339_text(t.secs, t.nanos),
        0 <= t.secs <= 253_402_300_799 ==> rfc3339_moment(r@) == Some(*t),
{
    format_rfc3339(t)
}

/// The Unix second that an RFC 3339 text stands for; 0 where it stands for
/// none, and 0 where there is no text.
pub open spec fn unix_or_zero(text: Option<Seq<char>>) -> i64 {
    match text {
        Some(t) => match rfc3339_parts(t) {
            Some(p) => p.0,
            None => 0,
        },
        None => 0,
    }
}

/// The Unix second that an optional RFC 3339 text stands for, or 0.
pub fn unix_seconds(text: &Option<String>) -> (r: i64)
    ensures
        r == unix_or_zero(crate::text::opt_text(*text)),
{
    match text {
        Some(t) => match parse_rfc3339_parts(t.as_str()) {
            Some(p) => p.0,
            None => 0,
        },
        None => 0,
    }
}

} // verus!
