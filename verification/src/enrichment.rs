//! The Memory tab's recall-enrichment panel: the clamped query bounds, the
//! freshness of the metrics snapshot, and what the panel may claim.

use vstd::prelude::*;

verus! {

/// A snapshot older than this many seconds is stale.
pub const FRESHNESS_SECS: i64 = 300;

/// Trailing window in hours when none is asked for.
pub const DEFAULT_WINDOW_HOURS: u64 = 24;

/// Longest trailing window in hours (one year).
pub const MAX_WINDOW_HOURS: u64 = 8760;

/// Records scanned when no limit is asked for.
pub const DEFAULT_LIMIT: u64 = 500;

/// Most records scanned.
pub const MAX_LIMIT: u64 = 1000;

/// `v` (or `default` when absent) brought into `lo..=hi`.
pub open spec fn clamp_spec(v: Option<u64>, default: u64, lo: u64, hi: u64) -> u64 {
    let x = match v {
        Some(x) => x,
        None => default,
    };
    if x < lo {
        lo
    } else if x > hi {
        hi
    } else {
        x
    }
}

/// The trailing window in hours: 24 by default, clamped to `1..=8760`.
pub fn clamp_window_hours(v: Option<u64>) -> (h: u64)
    ensures
        h == clamp_spec(v, DEFAULT_WINDOW_HOURS, 1, MAX_WINDOW_HOURS),
        1 <= h <= MAX_WINDOW_HOURS,
{
    let x = match v {
        Some(x) => x,
        None => DEFAULT_WINDOW_HOURS,
    };
    if x < 1 {
        1
    } else if x > MAX_WINDOW_HOURS {
        MAX_WINDOW_HOURS
    } else {
        x
    }
}

/// The most records to scan: 500 by default, clamped to `1..=1000`.
pub fn clamp_limit(v: Option<u64>) -> (l: u64)
    ensures
        l == clamp_spec(v, DEFAULT_LIMIT, 1, MAX_LIMIT),
        1 <= l <= MAX_LIMIT,
{
    let x = match v {
        Some(x) => x,
        None => DEFAULT_LIMIT,
    };
    if x < 1 {
        1
    } else if x > MAX_LIMIT {
        MAX_LIMIT
    } else {
        x
    }
}

/// Whole seconds from the RFC 3339 timestamp `ts` to the UTC instant
/// `now_secs` + `now_nanos` (seconds since the epoch and nanoseconds), as
/// `chrono` counts them; nothing when `ts` does not parse.
pub uninterp spec fn rfc3339_age(ts: Seq<char>, now_secs: i64, now_nanos: u32) -> Option<i64>;

/// Parses `ts` with `chrono::DateTime::parse_from_rfc3339` and gives the
/// whole seconds (`TimeDelta::num_seconds`) from it to the instant made by
/// `DateTime::from_timestamp(now_secs, now_nanos)`; nothing when either is
/// not a valid time. The result is only named.
#[verifier::external_body]
fn rfc3339_age_chrono(ts: &str, now_secs: i64, now_nanos: u32) -> (r: Option<i64>)
    ensures
        r == rfc3339_age(ts@, now_secs, now_nanos),
{
    match (chrono::DateTime::parse_from_rfc3339(ts), chrono::DateTime::from_timestamp(now_secs, now_nanos)) {
        (Ok(then), Some(now)) => Some(now.signed_duration_since(then.with_timezone(&chrono::Utc)).num_seconds()),
        _ => None,
    }
}

/// How fresh a snapshot is.
#[derive(Clone, Copy, Debug, PartialEq, Eq, Structural)]
pub enum Freshness {
    Live,
    Stale,
    Missing,
}

impl Freshness {
    /// The label the panel shows: `live`, `stale` or `missing`.
    pub fn as_str(&self) -> (s: &'static str)
        ensures
            s@ == match *self {
                Freshness::Live => "live"@,
                Freshness::Stale => "stale"@,
                Freshness::Missing => "missing"@,
            },
    {
        match self {
            Freshness::Live => "live",
            Freshness::Stale => "stale",
            Freshness::Missing => "missing",
        }
    }
}

/// The freshness of a snapshot of age `age` (in seconds, unknown when its
/// timestamp did not parse), and the age shown (never negative): an
/// unparseable timestamp is live with no age, never falsely stale.
pub open spec fn freshness_spec(age: Option<i64>) -> (Freshness, Option<i64>) {
    match age {
        None => (Freshness::Live, None),
        Some(a) => (
            if a > FRESHNESS_SECS {
                Freshness::Stale
            } else {
                Freshness::Live
            },
            Some(if a < 0 {
                0
            } else {
                a
            }),
        ),
    }
}

/// The freshness of a snapshot captured at `captured_at`, at the instant
/// `now_secs` + `now_nanos`.
pub fn classify_freshness(captured_at: &str, now_secs: i64, now_nanos: u32) -> (r: (Freshness, Option<i64>))
    ensures
        r == freshness_spec(rfc3339_age(captured_at@, now_secs, now_nanos)),
{
    match rfc3339_age_chrono(captured_at, now_secs, now_nanos) {
        None => (Freshness::Live, None),
        Some(a) => {
            let label = if a > FRESHNESS_SECS {
                Freshness::Stale
            } else {
                Freshness::Live
            };
            (label, Some(if a < 0 {
                0
            } else {
                a
            }))
        },
    }
}

/// What the panel may claim: whether the enrichment figures are available,
/// the snapshot's freshness and age, and the window they cover.
pub struct EnrichmentStatus {
    pub available: bool,
    pub freshness: Freshness,
    pub snapshot_age_seconds: Option<i64>,
    pub window_hours: u64,
}

/// The panel's status from the snapshot's capture time (absent when there
/// is no snapshot) and whether it has an enrichment section: without a
/// snapshot nothing is available and freshness is `missing`; with one but no
/// section, nothing is available (never a false 0%).
pub fn enrichment_status(
    window_hours: Option<u64>,
    captured_at: Option<&str>,
    has_section: bool,
    now_secs: i64,
    now_nanos: u32,
) -> (s: EnrichmentStatus)
    ensures
        s.window_hours == clamp_spec(window_hours, DEFAULT_WINDOW_HOURS, 1, MAX_WINDOW_HOURS),
        captured_at is None ==> !s.available && s.freshness == Freshness::Missing && s.snapshot_age_seconds is None,
        captured_at matches Some(c) ==> {
            &&& s.available == has_section
            &&& (s.freshness, s.snapshot_age_seconds) == freshness_spec(rfc3339_age(c@, now_secs, now_nanos))
        },
{
    let hours = clamp_window_hours(window_hours);
    match captured_at {
        None => EnrichmentStatus {
            available: false,
            freshness: Freshness::Missing,
            snapshot_age_seconds: None,
            window_hours: hours,
        },
        Some(c) => {
            let (f, age) = classify_freshness(c, now_secs, now_nanos);
            EnrichmentStatus { available: has_section, freshness: f, snapshot_age_seconds: age, window_hours: hours }
        },
    }
}

} // verus!
