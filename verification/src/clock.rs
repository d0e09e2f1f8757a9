//! Points in time: the current time, RFC 3339 rendering and parsing, and order.
//!
//! An [`Instant`] is a count of non-leap seconds since the Unix epoch together
//! with the nanoseconds past that second, the two numbers by which `chrono`
//! identifies a UTC date-time. Instants are ordered by seconds, then
//! nanoseconds, which is the order of the date-times they stand for.

use vstd::prelude::*;

use chrono::{DateTime, Utc};

verus! {

/// What `chrono` renders for the UTC date-time with Unix timestamp `secs` and
/// `nanos` nanoseconds: `DateTime::<Utc>::from_timestamp(secs, nanos)` followed by
/// `to_rfc3339`, `None` where `from_timestamp` gives no date-time.
pub uninterp spec fn rfc3339_of(secs: i64, nanos: u32) -> Option<Seq<char>>;

/// What `chrono` reads from `text`: `DateTime::parse_from_rfc3339(text)` taken to
/// UTC, as its Unix timestamp and nanoseconds, or `None` where parsing fails.
pub uninterp spec fn rfc3339_instant(text: Seq<char>) -> Option<(i64, u32)>;

/// A point in time that `chrono` can represent as a UTC date-time.
#[derive(Debug, Clone, Copy)]
pub struct Instant {
    secs: i64,
    nanos: u32,
}

/// Order of instants: by seconds, then by nanoseconds.
pub open spec fn instant_le(a: (i64, u32), b: (i64, u32)) -> bool {
    a.0 < b.0 || (a.0 == b.0 && a.1 <= b.1)
}

/// Strict order of instants.
pub open spec fn instant_lt(a: (i64, u32), b: (i64, u32)) -> bool {
    instant_le(a, b) && a != b
}

/// The seconds of the instants in the years 0000 to 9999, the years that RFC 3339
/// writes with four digits.
pub open spec fn four_digit_year(secs: i64) -> bool {
    -62167219200 <= secs < 253402300800
}

/// The RFC 3339 text of an instant that `chrono` can represent.
pub open spec fn rendered(t: (i64, u32)) -> Seq<char> {
    rfc3339_of(t.0, t.1).unwrap()
}

impl View for Instant {
    type V = (i64, u32);

    closed spec fn view(&self) -> (i64, u32) {
        (self.secs, self.nanos)
    }
}

/// Renders the UTC date-time of a timestamp. Calls `DateTime::<Utc>::from_timestamp`
/// and `DateTime::to_rfc3339`; the result is what `rfc3339_of` names. For years
/// 0000 to 9999 outside a leap second (`nanos` below one second) the text is read
/// back by `DateTime::parse_from_rfc3339` as the same instant: `to_rfc3339` writes
/// such a year with four digits and the fraction with as many digits as it needs
/// (`SecondsFormat::AutoSi`). Other years are written with a sign, which
/// `parse_from_rfc3339` refuses; nothing is claimed of them.
#[verifier::external_body]
fn render_timestamp(secs: i64, nanos: u32) -> (r: Option<String>)
    ensures
        match r {
            Some(s) => rfc3339_of(secs, nanos) == Some(s@),
            None => rfc3339_of(secs, nanos) is None,
        },
        r is Some && nanos < 1_000_000_000 && four_digit_year(secs) ==> rfc3339_instant(r->0@) == Some(
            (secs, nanos),
        ),
{
    match DateTime::<Utc>::from_timestamp(secs, nanos) {
        Some(d) => Some(d.to_rfc3339()),
        None => None,
    }
}

/// Reads the system clock with `SystemTime::now` and takes it to a UTC date-time
/// with chrono's `DateTime::<Utc>::from`, which gives times before 1970 negative
/// timestamps (where `Utc::now` would panic). Nothing is claimed of the reading
/// but that it is a UTC date-time, which `chrono` can render, and that it is not a
/// leap second: the conversion builds it from whole seconds and the nanoseconds
/// below one second. The conversion unwraps `Utc.timestamp_opt`, which fails only
/// for a clock beyond the years `chrono` represents (past year 262142).
#[verifier::external_body]
fn read_clock() -> (r: Instant)
    ensures
        rfc3339_of(r@.0, r@.1) is Some,
        r@.1 < 1_000_000_000,
{
    let d = DateTime::<Utc>::from(std::time::SystemTime::now());
    Instant { secs: d.timestamp(), nanos: d.timestamp_subsec_nanos() }
}

/// Parses RFC 3339 text with `DateTime::parse_from_rfc3339` and takes the result
/// to UTC; the claim is that the result is what `rfc3339_instant` names and, being
/// a UTC date-time, can be rendered.
#[verifier::external_body]
fn read_rfc3339(text: &str) -> (r: Option<Instant>)
    ensures
        match r {
            Some(t) => rfc3339_instant(text@) == Some(t@) && rfc3339_of(t@.0, t@.1) is Some,
            None => rfc3339_instant(text@) is None,
        },
{
    match DateTime::parse_from_rfc3339(text) {
        Ok(d) => {
            let u = d.with_timezone(&Utc);
            Some(Instant { secs: u.timestamp(), nanos: u.timestamp_subsec_nanos() })
        },
        Err(_) => None,
    }
}

impl Instant {
    #[verifier::type_invariant]
    spec fn representable(self) -> bool {
        rfc3339_of(self.secs, self.nanos) is Some
    }

    /// The instant `secs` seconds and `nanos` nanoseconds after the Unix epoch, if
    /// `chrono` can represent it.
    pub fn new(secs: i64, nanos: u32) -> (r: Option<Instant>)
        ensures
            r matches Some(t) ==> t@ == (secs, nanos),
            r is Some <==> rfc3339_of(secs, nanos) is Some,
    {
        match render_timestamp(secs, nanos) {
            Some(_) => Some(Instant { secs, nanos }),
            None => None,
        }
    }

    /// The current time.
    pub fn now() -> (r: Instant)
        ensures
            r@.1 < 1_000_000_000,
    {
        read_clock()
    }

    /// Seconds since the Unix epoch.
    pub fn secs(&self) -> (r: i64)
        ensures
            r == self@.0,
    {
        self.secs
    }

    /// Nanoseconds past the second.
    pub fn nanos(&self) -> (r: u32)
        ensures
            r == self@.1,
    {
        self.nanos
    }

    /// Whether `self` is no later than `other`.
    pub fn le(&self, other: &Instant) -> (r: bool)
        ensures
            r == instant_le(self@, other@),
    {
        self.secs < other.secs || (self.secs == other.secs && self.nanos <= other.nanos)
    }

    /// Whether `self` is strictly earlier than `other`.
    pub fn lt(&self, other: &Instant) -> (r: bool)
        ensures
            r == instant_lt(self@, other@),
    {
        self.secs < other.secs || (self.secs == other.secs && self.nanos < other.nanos)
    }

    /// The RFC 3339 text of this instant, as `DateTime::to_rfc3339` writes it.
    pub fn to_rfc3339(&self) -> (r: String)
        ensures
            rfc3339_of(self@.0, self@.1) == Some(r@),
            r@ == rendered(self@),
            self@.1 < 1_000_000_000 && four_digit_year(self@.0) ==> rfc3339_instant(r@) == Some(
                self@,
            ),
    {
        proof {
            use_type_invariant(self);
        }
        match render_timestamp(self.secs, self.nanos) {
            Some(s) => s,
            None => {
                assert(false);
                String::new()
            },
        }
    }

    /// The instant that RFC 3339 `text` denotes, `None` when it is not RFC 3339.
    pub fn parse_rfc3339(text: &str) -> (r: Option<Instant>)
        ensures
            match r {
                Some(t) => rfc3339_instant(text@) == Some(t@),
                None => rfc3339_instant(text@) is None,
            },
    {
        read_rfc3339(text)
    }
}

/// The current time in RFC 3339, as the service stamps its records.
pub fn now() -> (r: String)
    ensures
        exists|t: (i64, u32)|
            r@ == rendered(t) && rfc3339_of(t.0, t.1) is Some && t.1 < 1_000_000_000 && (
            four_digit_year(t.0) ==> rfc3339_instant(r@) == Some(t)),
{
    let t = Instant::now();
    let r = t.to_rfc3339();
    assert(r@ == rendered(t@) && rfc3339_of(t@.0, t@.1) is Some && t@.1 < 1_000_000_000 && (
    four_digit_year(t@.0) ==> rfc3339_instant(r@) == Some(t@)));
    r
}

} // verus!
