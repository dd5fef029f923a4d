//! Instants and spans of time, and the two things only the system clock and
//! chrono can supply: the current instant and the `HH:MM:SS` text of a time
//! of day.

use vstd::prelude::*;

verus! {

/// Nanoseconds in one second.
pub const NANOS_PER_SEC: i128 = 1_000_000_000;

/// Seconds in one day.
pub const SECS_PER_DAY: i64 = 86400;

/// An instant: `secs` whole seconds and `nanos` nanoseconds after the Unix
/// epoch (UTC). `nanos` is normally below one second.
#[derive(Clone, Copy, Debug, PartialEq, Eq)]
pub struct Timestamp {
    pub secs: i64,
    pub nanos: u32,
}

/// A signed length of time, in nanoseconds.
#[derive(Clone, Copy, Debug, PartialEq, Eq)]
pub struct Span {
    pub nanos: i128,
}

/// The character of a decimal digit.
pub open spec fn digit_char(d: nat) -> char {
    if d == 0 { '0' }
    else if d == 1 { '1' }
    else if d == 2 { '2' }
    else if d == 3 { '3' }
    else if d == 4 { '4' }
    else if d == 5 { '5' }
    else if d == 6 { '6' }
    else if d == 7 { '7' }
    else if d == 8 { '8' }
    else { '9' }
}

/// `n` (below 100) written with exactly two digits.
pub open spec fn two_digits(n: nat) -> Seq<char> {
    seq![digit_char(n / 10), digit_char(n % 10)]
}

/// The `HH:MM:SS` text of the time of day `s` seconds after midnight.
pub open spec fn hms_text(s: nat) -> Seq<char> {
    two_digits(s / 3600) + seq![':'] + two_digits((s % 3600) / 60) + seq![':'] + two_digits(s % 60)
}

impl Timestamp {
    /// The instant, in nanoseconds after the epoch.
    pub open spec fn instant(self) -> int {
        self.secs * NANOS_PER_SEC + self.nanos
    }

    /// Seconds since the last UTC midnight.
    pub open spec fn second_of_day(self) -> int {
        (self.secs as int) % 86400
    }

    /// The instant `secs` seconds and `nanos` nanoseconds after the epoch;
    /// `None` unless `nanos` is below one second.
    pub fn new(secs: i64, nanos: u32) -> (r: Option<Timestamp>)
        ensures
            r is Some <==> nanos < 1_000_000_000,
            r is Some ==> r->0 == (Timestamp { secs, nanos }),
    {
        if nanos < 1_000_000_000 {
            Some(Timestamp { secs, nanos })
        } else {
            None
        }
    }

    /// The instant in nanoseconds after the epoch.
    pub fn instant_nanos(&self) -> (r: i128)
        ensures
            r == self.instant(),
    {
        (self.secs as i128) * NANOS_PER_SEC + (self.nanos as i128)
    }

    /// How long after `earlier` this instant is (negative if it is before).
    pub fn since(&self, earlier: &Timestamp) -> (r: Span)
        ensures
            r.nanos == self.instant() - earlier.instant(),
    {
        Span { nanos: self.instant_nanos() - earlier.instant_nanos() }
    }

    /// Seconds since the last UTC midnight, in `0..86400`.
    pub fn seconds_of_day(&self) -> (r: u32)
        ensures
            r == self.second_of_day(),
            r < 86400,
    {
        let s = self.secs;
        if s >= 0 {
            (s % SECS_PER_DAY) as u32
        } else {
            let k: i64 = -(s + 1);
            let m: i64 = k % SECS_PER_DAY;
            proof {
                let q = k / 86400;
                assert(k == q * 86400 + m) by (nonlinear_arith)
                    requires k >= 0, q == k / 86400, m == k % 86400;
                assert(s == (-q - 1) * 86400 + (86399 - m)) by (nonlinear_arith)
                    requires s == -(k + 1), k == q * 86400 + m;
                assert(s % 86400 == 86399 - m) by (nonlinear_arith)
                    requires s == (-q - 1) * 86400 + (86399 - m), 0 <= m < 86400;
            }
            (86399 - m) as u32
        }
    }
}

impl Span {
    /// A span of `s` seconds.
    pub fn seconds(s: i64) -> (r: Span)
        ensures
            r.nanos == s * NANOS_PER_SEC,
    {
        Span { nanos: (s as i128) * NANOS_PER_SEC }
    }

    /// A span of `ms` milliseconds.
    pub fn milliseconds(ms: i64) -> (r: Span)
        ensures
            r.nanos == ms * 1_000_000,
    {
        Span { nanos: (ms as i128) * 1_000_000 }
    }

    /// Whether the span is not negative.
    pub fn is_nonnegative(&self) -> (r: bool)
        ensures
            r == (self.nanos >= 0),
    {
        self.nanos >= 0
    }
}

/// Relies on chrono's `From<SystemTime>` for `DateTime<Utc>`, applied to
/// std's `SystemTime::now`: the system clock as whole seconds since the Unix
/// epoch (negative before it) and the nanoseconds within that second, which
/// chrono keeps below one second. chrono panics only for a clock reading
/// outside its range of dates (beyond about 262,000 years from year 0).
#[verifier::external_body]
pub(crate) fn now() -> (r: Timestamp)
    ensures
        r.nanos < 1_000_000_000,
{
    let t = chrono::DateTime::<chrono::Utc>::from(std::time::SystemTime::now());
    Timestamp { secs: t.timestamp(), nanos: t.timestamp_subsec_nanos() }
}

/// Relies on chrono's `NaiveTime::from_num_seconds_from_midnight_opt` (which
/// accepts any second below 86400 with no fraction) and its `%H:%M:%S` format:
/// hour, minute and second, each zero-padded to two digits.
#[verifier::external_body]
fn clock_text(second_of_day: u32) -> (r: String)
    requires
        second_of_day < 86400,
    ensures
        r@ == hms_text(second_of_day as nat),
{
    let t = chrono::NaiveTime::from_num_seconds_from_midnight_opt(second_of_day, 0).unwrap();
    t.format("%H:%M:%S").to_string()
}

/// The `HH:MM:SS` text of the UTC time of day of `t`.
pub fn time_of_day_text(t: &Timestamp) -> (r: String)
    ensures
        r@ == hms_text(t.second_of_day() as nat),
{
    clock_text(t.seconds_of_day())
}

} // verus!
