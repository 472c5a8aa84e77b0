//! Wall-clock time and random identifiers, from `chrono` and `uuid`.

use vstd::prelude::*;

verus! {

/// A point in time: microseconds since the Unix epoch (UTC).
#[derive(Debug, Clone, Copy, PartialEq, Eq, Structural)]
pub struct Timestamp {
    pub micros: i64,
}

impl Timestamp {
    /// Whole seconds since the Unix epoch, rounded down.
    pub open spec fn spec_seconds(self) -> int {
        self.micros as int / 1_000_000
    }

    /// Whole seconds since the Unix epoch, rounded down, as
    /// `DateTime::timestamp` gives them.
    pub fn seconds(&self) -> (s: i64)
        ensures
            s == self.spec_seconds(),
    {
        let m = self.micros;
        if m >= 0 {
            let q = (m as u64) / 1_000_000;
            assert(q == m as int / 1_000_000) by (nonlinear_arith)
                requires
                    m >= 0,
                    q == (m as u64) / 1_000_000u64,
            ;
            q as i64
        } else {
            let n = (-(m + 1)) as u64;
            let q = n / 1_000_000;
            assert(-(q as int) - 1 == m as int / 1_000_000) by (nonlinear_arith)
                requires
                    m < 0,
                    n == -(m + 1),
                    q == n / 1_000_000u64,
            ;
            -(q as i64) - 1
        }
    }
}

/// The current time: `chrono::Utc::now` read with `timestamp_micros`.
/// Nothing is claimed of it: it depends on the clock.
#[verifier::external_body]
pub(crate) fn now() -> (t: Timestamp) {
    Timestamp { micros: chrono::Utc::now().timestamp_micros() }
}

/// The instant `secs` whole seconds after the epoch:
/// `DateTime::<Utc>::from_timestamp(secs, 0)` read back with
/// `timestamp_micros`. chrono's calendar spans years -262143 to 262142, so
/// the instant exists at least within 8 * 10^12 seconds of the epoch;
/// beyond the calendar chrono answers `None`.
#[verifier::external_body]
pub(crate) fn from_whole_seconds(secs: i64) -> (r: Option<Timestamp>)
    ensures
        r is Some ==> r->0.micros == secs * 1_000_000,
        -8_000_000_000_000 <= secs <= 8_000_000_000_000 ==> r is Some,
{
    match chrono::DateTime::<chrono::Utc>::from_timestamp(secs, 0) {
        Some(d) => Some(Timestamp { micros: d.timestamp_micros() }),
        None => None,
    }
}

/// A fresh random identifier: `uuid::Uuid::new_v4` rendered with
/// `to_string`. Nothing is claimed of its text: it is random.
#[verifier::external_body]
pub(crate) fn new_id() -> (s: String) {
    uuid::Uuid::new_v4().to_string()
}

/// The instant lies within chrono's calendar, which spans years -262143 to
/// 262142: here, within 8 * 10^18 microseconds of the epoch.
pub open spec fn in_calendar(t: Timestamp) -> bool {
    -8_000_000_000_000_000_000 <= t.micros <= 8_000_000_000_000_000_000
}

/// What `DateTime::<Utc>::to_rfc3339` writes for the instant with these
/// microseconds since the epoch.
pub uninterp spec fn rfc3339_text(micros: int) -> Seq<char>;

/// The instant as RFC 3339 text: `DateTime::<Utc>::from_timestamp_micros`
/// then `to_rfc3339`. The text is named, not stated: it is chrono's
/// rendering, such as `2024-01-01T00:00:00+00:00`.
#[verifier::external_body]
pub(crate) fn format_rfc3339(t: Timestamp) -> (s: String)
    requires
        in_calendar(t),
    ensures
        s@ == rfc3339_text(t.micros as int),
{
    chrono::DateTime::<chrono::Utc>::from_timestamp_micros(t.micros).unwrap().to_rfc3339()
}

/// The instant that RFC 3339 text names, in microseconds since the epoch,
/// when chrono can read it.
pub uninterp spec fn rfc3339_instant(text: Seq<char>) -> Option<int>;

/// Reads RFC 3339 text: `DateTime::parse_from_rfc3339`, taken to UTC and
/// read back with `timestamp_micros`; `None` where chrono refuses the
/// text. Which texts chrono accepts is named, not stated.
#[verifier::external_body]
pub(crate) fn parse_rfc3339(text: &str) -> (r: Option<Timestamp>)
    ensures
        r is None <==> rfc3339_instant(text@) is None,
        r matches Some(t) ==> rfc3339_instant(text@) == Some(t.micros as int),
{
    match chrono::DateTime::parse_from_rfc3339(text) {
        Ok(d) => Some(Timestamp { micros: d.with_timezone(&chrono::Utc).timestamp_micros() }),
        Err(_) => None,
    }
}

} // verus!
