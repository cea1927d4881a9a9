//! Instants in UTC with nanosecond precision, in the range that `chrono`
//! represents, and their text forms.
use vstd::prelude::*;

verus! {

/// First second that `chrono` represents: -262143-01-01T00:00:00Z.
pub const MIN_SECS: i64 = -8334601315200;

/// Last second that `chrono` represents: +262142-12-31T23:59:59Z.
pub const MAX_SECS: i64 = 8210266876799;

/// An instant: seconds since the Unix epoch and the nanoseconds within that
/// second.
#[derive(Clone, Copy, Debug, PartialEq, Eq, Structural)]
pub struct Timestamp {
    pub secs: i64,
    pub nanos: u32,
}

impl Timestamp {
    /// The instant lies in `chrono`'s range and its nanoseconds are below one
    /// second.
    pub open spec fn wf(self) -> bool {
        MIN_SECS <= self.secs <= MAX_SECS && self.nanos < 1_000_000_000
    }
}

/// `a` is strictly later than `b`.
pub open spec fn later(a: Timestamp, b: Timestamp) -> bool {
    a.secs > b.secs || (a.secs == b.secs && a.nanos > b.nanos)
}

/// Whether `a` is strictly later than `b`.
pub fn is_later(a: Timestamp, b: Timestamp) -> (r: bool)
    ensures
        r == later(a, b),
{
    a.secs > b.secs || (a.secs == b.secs && a.nanos > b.nanos)
}

/// `a` moved by a whole number of seconds, or `None` when the result would
/// leave `chrono`'s range (where `chrono` panics).
pub fn add_seconds(a: Timestamp, delta: i64) -> (r: Option<Timestamp>)
    requires
        a.wf(),
    ensures
        r is Some <==> MIN_SECS <= a.secs + delta <= MAX_SECS,
        r matches Some(t) ==> t.secs == a.secs + delta && t.nanos == a.nanos && t.wf(),
{
    let lo: i64 = MIN_SECS;
    let hi: i64 = MAX_SECS;
    if delta > 0 && a.secs > hi - delta {
        return None;
    }
    if delta < 0 && a.secs < lo - delta {
        return None;
    }
    Some(Timestamp { secs: a.secs + delta, nanos: a.nanos })
}

/// The RFC 3339 text that `chrono` gives an instant (`DateTime::to_rfc3339`).
pub uninterp spec fn rfc3339_text(secs: int, nanos: int) -> Seq<char>;

/// The RFC 2822 text that `chrono` gives an instant (`DateTime::to_rfc2822`).
pub uninterp spec fn rfc2822_text(secs: int, nanos: int) -> Seq<char>;

/// `chrono::DateTime::<Utc>::from_timestamp` followed by `to_rfc3339`. The
/// text depends on the instant alone; its format is not restated here.
#[verifier::external_body]
pub(crate) fn to_rfc3339(t: Timestamp) -> (s: String)
    requires
        t.wf(),
    ensures
        s@ == rfc3339_text(t.secs as int, t.nanos as int),
{
    chrono::DateTime::from_timestamp(t.secs, t.nanos).unwrap().to_rfc3339()
}

/// The instant lies in the years 0 to 9999, the only ones RFC 2822 can
/// write (`chrono` panics on others).
pub open spec fn in_rfc2822_range(t: Timestamp) -> bool {
    -62167219200 <= t.secs <= 253402300799
}

/// `chrono::DateTime::<Utc>::from_timestamp` followed by `to_rfc2822`. The
/// text depends on the instant alone; its format is not restated here.
#[verifier::external_body]
pub(crate) fn to_rfc2822(t: Timestamp) -> (s: String)
    requires
        t.wf(),
        in_rfc2822_range(t),
    ensures
        s@ == rfc2822_text(t.secs as int, t.nanos as int),
{
    chrono::DateTime::from_timestamp(t.secs, t.nanos).unwrap().to_rfc2822()
}


/// The RFC 3339 text with a `Z` suffix and only the fractional digits needed
/// that `chrono` gives an instant when serialising it.
pub uninterp spec fn rfc3339_z_text(secs: int, nanos: int) -> Seq<char>;

/// `chrono::DateTime::<Utc>::from_timestamp` followed by
/// `to_rfc3339_opts(SecondsFormat::AutoSi, true)`, the form `chrono`'s serde
/// support writes. The text depends on the instant alone; its format is not
/// restated here.
#[verifier::external_body]
pub(crate) fn to_rfc3339_z(t: Timestamp) -> (s: String)
    requires
        t.wf(),
    ensures
        s@ == rfc3339_z_text(t.secs as int, t.nanos as int),
{
    chrono::DateTime::from_timestamp(t.secs, t.nanos).unwrap().to_rfc3339_opts(chrono::SecondsFormat::AutoSi, true)
}

} // verus!
