//! An instant together with the UTC offset it is seen in, and the calls into
//! `chrono` that move it along the local clock.
//!
//! A `Moment` holds what `chrono::DateTime<FixedOffset>` holds, as plain
//! integers: the UNIX timestamp, the nanoseconds past that second, and the
//! offset east of UTC in seconds. The wrappers below rebuild the `DateTime`,
//! make the `chrono` call, and read the result back.

use chrono::{TimeZone, Timelike};
use vstd::prelude::*;

verus! {

/// The largest distance from the UNIX epoch, in seconds, at which a moment
/// is handed to `chrono` (`chrono` represents about ±8.2e12 s).
pub const REPRESENTABLE_SECS: i64 = 8_100_000_000_000;

/// The largest distance from the UNIX epoch, in seconds, of a moment that the
/// schedule works from: four days inside `REPRESENTABLE_SECS`, room enough to
/// move to another time of the same day, to read it at another offset, and
/// to go on to the next day.
pub const SCHEDULABLE_SECS: i64 = 8_099_999_654_400;

/// Seconds in a day.
pub const SECS_PER_DAY: i64 = 86_400;

/// Nanoseconds in a second.
pub const NANOS_PER_SEC: i64 = 1_000_000_000;

/// An instant (UNIX timestamp and nanoseconds) seen at a fixed UTC offset.
#[derive(Clone, Copy, Debug, PartialEq, Eq, Structural)]
pub struct Moment {
    /// Whole seconds since 1970-01-01 00:00:00 UTC.
    pub timestamp: i64,
    /// Nanoseconds past `timestamp`.
    pub nanos: u32,
    /// The offset of the local clock east of UTC, in seconds.
    pub offset: i32,
}

impl Moment {
    /// The moment can be handed to `chrono` and read back: no leap second,
    /// an offset of less than a day, and a timestamp well inside `chrono`'s
    /// range.
    pub open spec fn representable(self) -> bool {
        &&& self.nanos < NANOS_PER_SEC
        &&& -SECS_PER_DAY < self.offset < SECS_PER_DAY
        &&& -REPRESENTABLE_SECS <= self.timestamp <= REPRESENTABLE_SECS
    }

    /// A representable moment with room to move a few days along the clock.
    pub open spec fn wf(self) -> bool {
        &&& self.representable()
        &&& -SCHEDULABLE_SECS <= self.timestamp <= SCHEDULABLE_SECS
    }

    /// Nanoseconds since the UNIX epoch.
    pub open spec fn instant(self) -> int {
        self.timestamp * NANOS_PER_SEC + self.nanos
    }

    /// Seconds on the local clock, counted from the local 1970-01-01 00:00.
    pub open spec fn local_seconds(self) -> int {
        self.timestamp + self.offset
    }

    /// Seconds since local midnight (hour * 3600 + minute * 60 + second).
    pub open spec fn second_of_day(self) -> int {
        self.local_seconds() % (SECS_PER_DAY as int)
    }

    /// The local day, counted from 1970-01-01.
    pub open spec fn local_day(self) -> int {
        self.local_seconds() / (SECS_PER_DAY as int)
    }

    /// The local hour (0-23).
    pub open spec fn hour(self) -> int {
        self.second_of_day() / 3600
    }

    /// The local minute (0-59).
    pub open spec fn minute(self) -> int {
        self.second_of_day() % 3600 / 60
    }

    /// The local second (0-59).
    pub open spec fn second(self) -> int {
        self.second_of_day() % 60
    }

    /// The same moment shifted by `secs` seconds of local clock time.
    pub open spec fn shifted(self, secs: int) -> Moment {
        Moment { timestamp: (self.timestamp + secs) as i64, ..self }
    }

    /// The same moment with the local second of the day set to `sod`.
    pub open spec fn at_second_of_day(self, sod: int) -> Moment {
        self.shifted(sod - self.second_of_day())
    }

    /// A moment from its parts, when they describe a schedulable moment.
    pub fn new(timestamp: i64, nanos: u32, offset: i32) -> (r: Option<Moment>)
        ensures
            r is Some <==> (Moment { timestamp, nanos, offset }).wf(),
            r is Some ==> r->0 == (Moment { timestamp, nanos, offset }),
    {
        let m = Moment { timestamp, nanos, offset };
        if nanos < 1_000_000_000 && -86_400 < offset && offset < 86_400 && -SCHEDULABLE_SECS
            <= timestamp && timestamp <= SCHEDULABLE_SECS {
            Some(m)
        } else {
            None
        }
    }

    /// `self` is strictly later than `other` (`DateTime`'s `>`: instants are
    /// compared, offsets play no part).
    pub fn is_after(&self, other: &Moment) -> (r: bool)
        requires
            self.nanos < NANOS_PER_SEC,
            other.nanos < NANOS_PER_SEC,
        ensures
            r == (self.instant() > other.instant()),
    {
        self.timestamp > other.timestamp || (self.timestamp == other.timestamp && self.nanos
            > other.nanos)
    }

    /// `self` is at or after `other` (`DateTime`'s `>=`).
    pub fn is_at_or_after(&self, other: &Moment) -> (r: bool)
        requires
            self.nanos < NANOS_PER_SEC,
            other.nanos < NANOS_PER_SEC,
        ensures
            r == (self.instant() >= other.instant()),
    {
        self.timestamp > other.timestamp || (self.timestamp == other.timestamp && self.nanos
            >= other.nanos)
    }
}

/// Whole seconds from `earlier` to `later`, rounded toward zero (what
/// `TimeDelta::num_seconds` gives for `later - earlier`).
pub open spec fn whole_seconds(later: Moment, earlier: Moment) -> int {
    let d = later.instant() - earlier.instant();
    if d >= 0 {
        d / (NANOS_PER_SEC as int)
    } else {
        -((-d) / (NANOS_PER_SEC as int))
    }
}

/// A non-negative distance of at most `k` seconds is at most `k` whole
/// seconds.
pub proof fn lemma_whole_seconds_bound(later: Moment, earlier: Moment, k: int)
    requires
        k >= 0,
        0 <= later.instant() - earlier.instant() <= k * NANOS_PER_SEC,
    ensures
        0 <= whole_seconds(later, earlier) <= k,
{
    let d = later.instant() - earlier.instant();
    assert(d / 1_000_000_000 <= k) by (nonlinear_arith)
        requires
            0 <= d <= k * 1_000_000_000,
    ;
    assert(d / 1_000_000_000 >= 0) by (nonlinear_arith)
        requires
            0 <= d,
    ;
}

/// Between two representable moments lie fewer whole seconds than an `i64`
/// holds.
pub proof fn lemma_whole_seconds_fits(later: Moment, earlier: Moment)
    requires
        later.representable(),
        earlier.representable(),
    ensures
        -2 * REPRESENTABLE_SECS - 1 <= whole_seconds(later, earlier) <= 2 * REPRESENTABLE_SECS + 1,
{
    let k = 2 * REPRESENTABLE_SECS + 1;
    if later.instant() >= earlier.instant() {
        lemma_whole_seconds_bound(later, earlier, k);
    } else {
        lemma_whole_seconds_bound(earlier, later, k);
        let d = later.instant() - earlier.instant();
        assert((-d) / 1_000_000_000 == whole_seconds(earlier, later));
    }
}

// ---------------------------------------------------------------------------
// Calls into chrono
// ---------------------------------------------------------------------------

/// `Timelike::with_hour` on the `DateTime<FixedOffset>` that `m` describes:
/// the local hour is replaced and minute, second and nanoseconds are kept;
/// `None` for an hour of 24 or more. A fixed offset has no gaps or
/// repetitions, so every local time exists exactly once.
#[verifier::external_body]
pub(crate) fn with_hour(m: Moment, hour: u32) -> (r: Option<Moment>)
    requires
        m.representable(),
    ensures
        hour >= 24 ==> r is None,
        hour < 24 ==> r == Some(m.at_second_of_day(hour * 3600 + m.second_of_day() % 3600)),
{
    let dt = chrono::DateTime::from_timestamp(m.timestamp, m.nanos).unwrap().with_timezone(
        &chrono::FixedOffset::east_opt(m.offset).unwrap(),
    );
    match dt.with_hour(hour) {
        Some(r) => Some(
            Moment {
                timestamp: r.timestamp(),
                nanos: r.timestamp_subsec_nanos(),
                offset: r.offset().local_minus_utc(),
            },
        ),
        None => None,
    }
}

/// `Timelike::with_minute` on the `DateTime<FixedOffset>` that `m` describes:
/// the local minute is replaced and hour, second and nanoseconds are kept;
/// `None` for a minute of 60 or more.
#[verifier::external_body]
pub(crate) fn with_minute(m: Moment, minute: u32) -> (r: Option<Moment>)
    requires
        m.representable(),
    ensures
        minute >= 60 ==> r is None,
        minute < 60 ==> r == Some(
            m.at_second_of_day(
                m.second_of_day() / 3600 * 3600 + minute * 60 + m.second_of_day() % 60,
            ),
        ),
{
    let dt = chrono::DateTime::from_timestamp(m.timestamp, m.nanos).unwrap().with_timezone(
        &chrono::FixedOffset::east_opt(m.offset).unwrap(),
    );
    match dt.with_minute(minute) {
        Some(r) => Some(
            Moment {
                timestamp: r.timestamp(),
                nanos: r.timestamp_subsec_nanos(),
                offset: r.offset().local_minus_utc(),
            },
        ),
        None => None,
    }
}

/// `Timelike::with_second` on the `DateTime<FixedOffset>` that `m` describes:
/// the local second is replaced and hour, minute and nanoseconds are kept;
/// `None` for a second of 60 or more.
#[verifier::external_body]
pub(crate) fn with_second(m: Moment, second: u32) -> (r: Option<Moment>)
    requires
        m.representable(),
    ensures
        second >= 60 ==> r is None,
        second < 60 ==> r == Some(
            m.at_second_of_day(m.second_of_day() / 60 * 60 + second),
        ),
{
    let dt = chrono::DateTime::from_timestamp(m.timestamp, m.nanos).unwrap().with_timezone(
        &chrono::FixedOffset::east_opt(m.offset).unwrap(),
    );
    match dt.with_second(second) {
        Some(r) => Some(
            Moment {
                timestamp: r.timestamp(),
                nanos: r.timestamp_subsec_nanos(),
                offset: r.offset().local_minus_utc(),
            },
        ),
        None => None,
    }
}

/// `Timelike::with_nanosecond` on the `DateTime<FixedOffset>` that `m`
/// describes: the nanoseconds are replaced and everything else is kept.
/// Only values below one second (no leap second) are asked for here.
#[verifier::external_body]
pub(crate) fn with_nanosecond(m: Moment, nanos: u32) -> (r: Option<Moment>)
    requires
        m.representable(),
        nanos < NANOS_PER_SEC,
    ensures
        r == Some(Moment { nanos, ..m }),
{
    let dt = chrono::DateTime::from_timestamp(m.timestamp, m.nanos).unwrap().with_timezone(
        &chrono::FixedOffset::east_opt(m.offset).unwrap(),
    );
    match dt.with_nanosecond(nanos) {
        Some(r) => Some(
            Moment {
                timestamp: r.timestamp(),
                nanos: r.timestamp_subsec_nanos(),
                offset: r.offset().local_minus_utc(),
            },
        ),
        None => None,
    }
}

/// `DateTime<FixedOffset> + TimeDelta::days(days)`: the instant moves by
/// `days` times 86 400 seconds and the offset is kept. The `requires` keeps
/// the result inside `chrono`'s range, where the addition does not panic.
#[verifier::external_body]
pub(crate) fn add_days(m: Moment, days: i64) -> (r: Moment)
    requires
        m.representable(),
        -REPRESENTABLE_SECS <= m.timestamp + days * SECS_PER_DAY <= REPRESENTABLE_SECS,
    ensures
        r == m.shifted(days * SECS_PER_DAY),
{
    let dt = chrono::DateTime::from_timestamp(m.timestamp, m.nanos).unwrap().with_timezone(
        &chrono::FixedOffset::east_opt(m.offset).unwrap(),
    );
    let r = dt + chrono::Duration::days(days);
    Moment {
        timestamp: r.timestamp(),
        nanos: r.timestamp_subsec_nanos(),
        offset: r.offset().local_minus_utc(),
    }
}

/// `(later - earlier).num_seconds()` on the `DateTime<FixedOffset>`s that the
/// two moments describe: the signed distance in whole seconds, rounded
/// toward zero.
#[verifier::external_body]
pub(crate) fn num_seconds_between(later: Moment, earlier: Moment) -> (r: i64)
    requires
        later.representable(),
        earlier.representable(),
    ensures
        r == whole_seconds(later, earlier),
{
    let l = chrono::DateTime::from_timestamp(later.timestamp, later.nanos).unwrap().with_timezone(
        &chrono::FixedOffset::east_opt(later.offset).unwrap(),
    );
    let e = chrono::DateTime::from_timestamp(earlier.timestamp, earlier.nanos).unwrap().with_timezone(
        &chrono::FixedOffset::east_opt(earlier.offset).unwrap(),
    );
    (l - e).num_seconds()
}

/// `Local.offset_from_local_datetime(..).single()` for the local date and time
/// that `local_seconds` counts (seconds from the local 1970-01-01 00:00), as
/// seconds east of UTC, next to the local time it was asked about. The answer
/// depends on the machine's time zone: `None` where that local time is
/// skipped or repeated there (a daylight-saving change); otherwise the
/// offset, which `chrono` keeps below a day. Nothing more is stated of it.
#[verifier::external_body]
pub(crate) fn local_offset_at(local_seconds: i64) -> (r: (i64, Option<i32>))
    requires
        -REPRESENTABLE_SECS - SECS_PER_DAY <= local_seconds <= REPRESENTABLE_SECS + SECS_PER_DAY,
    ensures
        r.0 == local_seconds,
        r.1 matches Some(o) ==> -SECS_PER_DAY < o < SECS_PER_DAY,
{
    let naive = chrono::DateTime::from_timestamp(local_seconds, 0).unwrap().naive_utc();
    match chrono::Local.offset_from_local_datetime(&naive).single() {
        Some(o) => (local_seconds, Some(o.local_minus_utc())),
        None => (local_seconds, None),
    }
}

} // verus!
