//! Pure scheduling: given a wall-clock moment, work out the next moment a
//! time of day occurs, how far away a moment is, and which times of day are
//! valid.

use crate::moment::{
    add_days, local_offset_at, num_seconds_between, whole_seconds, with_hour, with_minute, with_nanosecond,
    with_second, Moment, NANOS_PER_SEC, REPRESENTABLE_SECS, SCHEDULABLE_SECS, SECS_PER_DAY,
};
use crate::text::{decimal, push_decimal};
use vstd::arithmetic::div_mod::lemma_fundamental_div_mod_converse;
use vstd::prelude::*;
use vstd::string::*;

verus! {

/// The second of the day at which `hour:minute:00` falls.
pub open spec fn time_of_day(hour: int, minute: int) -> int {
    hour * 3600 + minute * 60
}

/// `hour:minute:00.000` on the local day of `now`.
pub open spec fn today_at(now: Moment, hour: int, minute: int) -> Moment {
    Moment { nanos: 0, ..now.at_second_of_day(time_of_day(hour, minute)) }
}

/// The next occurrence of `hour:minute` strictly after `now`: today's if it
/// is still ahead, else one day (86 400 s) later.
pub open spec fn next_occurrence_spec(now: Moment, hour: int, minute: int) -> Moment {
    let today = today_at(now, hour, minute);
    if today.instant() > now.instant() {
        today
    } else {
        today.shifted(SECS_PER_DAY as int)
    }
}

/// `hour:minute:00.000` on the local day of `now` (read at `now`'s offset),
/// taken as a time on a clock at `offset`: the same local date and time,
/// another instant.
pub open spec fn today_at_offset(now: Moment, hour: int, minute: int, offset: int) -> Moment {
    let today = today_at(now, hour, minute);
    Moment { timestamp: (today.timestamp + now.offset - offset) as i64, offset: offset as i32, ..today }
}

/// The next occurrence of `hour:minute` after `now` when today's
/// `hour:minute` falls at `offset`: today's if it is still ahead, else one day
/// (86 400 s) later.
pub open spec fn next_occurrence_at_offset_spec(
    now: Moment,
    hour: int,
    minute: int,
    offset: int,
) -> Moment {
    let today = today_at_offset(now, hour, minute, offset);
    if today.instant() > now.instant() {
        today
    } else {
        today.shifted(SECS_PER_DAY as int)
    }
}

/// Whole seconds from `now` until `target`, never negative.
pub open spec fn seconds_until_spec(now: Moment, target: Moment) -> int {
    let s = whole_seconds(target, now);
    if s > 0 {
        s
    } else {
        0
    }
}

/// The message `validate` rejects a time of day with, if it does.
pub open spec fn time_error(hour: u32, minute: u32) -> Option<Seq<char>> {
    if hour > 23 {
        Some("hour "@ + decimal(hour as nat) + " out of range (0-23)"@)
    } else if minute > 59 {
        Some("minute "@ + decimal(minute as nat) + " out of range (0-59)"@)
    } else {
        None
    }
}

/// Moving a moment to a second of its own local day keeps the day and sets
/// the second of the day; doing it twice is doing the last one.
proof fn lemma_at_second_of_day(m: Moment, x: int, y: int)
    requires
        m.representable(),
        -SCHEDULABLE_SECS <= m.timestamp <= SCHEDULABLE_SECS,
        0 <= x < SECS_PER_DAY,
        0 <= y < SECS_PER_DAY,
    ensures
        m.at_second_of_day(x).second_of_day() == x,
        m.at_second_of_day(x).local_day() == m.local_day(),
        m.at_second_of_day(x).representable(),
        m.at_second_of_day(x).timestamp == m.timestamp - m.second_of_day() + x,
        m.at_second_of_day(x).at_second_of_day(y) == m.at_second_of_day(y),
        m.local_seconds() == m.local_day() * SECS_PER_DAY + m.second_of_day(),
        0 <= m.second_of_day() < SECS_PER_DAY,
{
    let d = SECS_PER_DAY as int;
    let q = m.local_day();
    let r = m.second_of_day();
    assert(m.local_seconds() == q * d + r && 0 <= r < d) by {
        vstd::arithmetic::div_mod::lemma_fundamental_div_mod(m.local_seconds(), d);
    }
    let n = m.at_second_of_day(x);
    assert(n.local_seconds() == q * d + x);
    lemma_fundamental_div_mod_converse(n.local_seconds(), d, q, x);
    let n2 = n.at_second_of_day(y);
    assert(n2.timestamp == m.at_second_of_day(y).timestamp);
}

/// `hour * 3600 + rest` splits back into `hour` and `rest` when `rest` is
/// below an hour, and likewise for minutes.
proof fn lemma_split_time(hour: int, minute: int, rest: int)
    requires
        0 <= hour < 24,
        0 <= minute < 60,
        0 <= rest < 60,
    ensures
        (hour * 3600 + minute * 60 + rest) / 3600 == hour,
        (hour * 3600 + minute * 60 + rest) / 60 * 60 == hour * 3600 + minute * 60,
        (hour * 3600 + minute * 60 + rest) % 60 == rest,
{
    lemma_fundamental_div_mod_converse(hour * 3600 + minute * 60 + rest, 3600, hour, minute * 60 + rest);
    lemma_fundamental_div_mod_converse(hour * 3600 + minute * 60 + rest, 60, hour * 60 + minute, rest);
}

/// What `next_occurrence` gives: strictly after `now`, at most one day after
/// it, at `hour:minute:00.000` on the local clock of `now`'s offset, on
/// `now`'s local day when that time is still ahead today and on the next
/// local day otherwise, and no other such moment lies between `now` and it.
pub proof fn lemma_next_occurrence(now: Moment, hour: int, minute: int)
    requires
        now.wf(),
        0 <= hour < 24,
        0 <= minute < 60,
    ensures
        ({
            let r = next_occurrence_spec(now, hour, minute);
            &&& r.instant() > now.instant()
            &&& r.instant() <= now.instant() + SECS_PER_DAY * NANOS_PER_SEC
            &&& r.second_of_day() == time_of_day(hour, minute)
            &&& r.hour() == hour
            &&& r.minute() == minute
            &&& r.second() == 0
            &&& r.nanos == 0
            &&& r.offset == now.offset
            &&& r.representable()
            &&& (now.second_of_day() < time_of_day(hour, minute) ==> r.local_day() == now.local_day())
            &&& (now.second_of_day() >= time_of_day(hour, minute) ==> r.local_day() == now.local_day() + 1)
        }),
        forall|m: Moment|
            #![trigger m.instant()]
            m.offset == now.offset && m.nanos == 0 && m.second_of_day() == time_of_day(hour, minute)
                && m.instant() > now.instant() ==> m.instant() >= next_occurrence_spec(
                now,
                hour,
                minute,
            ).instant(),
{
    let t = time_of_day(hour, minute);
    let d = SECS_PER_DAY as int;
    lemma_split_time(hour, minute, 0);
    lemma_at_second_of_day(now, t, t);
    let today = today_at(now, hour, minute);
    let r = next_occurrence_spec(now, hour, minute);
    let q = now.local_day();
    assert(today.local_seconds() == q * d + t);
    if today.instant() <= now.instant() {
        assert(r.local_seconds() == (q + 1) * d + t);
        lemma_fundamental_div_mod_converse(r.local_seconds(), d, q + 1, t);
        assert(now.second_of_day() >= t);
    } else {
        assert(now.second_of_day() < t || now.second_of_day() == t);
    }
    assert forall|m: Moment|
        #![trigger m.instant()]
        m.offset == now.offset && m.nanos == 0 && m.second_of_day() == t && m.instant()
            > now.instant() implies m.instant() >= r.instant() by {
        let k = m.local_seconds() / d;
        vstd::arithmetic::div_mod::lemma_fundamental_div_mod(m.local_seconds(), d);
        assert(m.local_seconds() == k * d + t);
        if today.instant() > now.instant() {
            if k < q {
                assert(k * d <= q * d - d) by (nonlinear_arith)
                    requires
                        k < q,
                        d > 0,
                ;
            }
        } else {
            if k <= q {
                assert(k * d <= q * d) by (nonlinear_arith)
                    requires
                        k <= q,
                        d > 0,
                ;
            }
        }
    }
}

/// Reading today's time at `now`'s own offset is the fixed-offset schedule,
/// and at any offset the result is at most three days after `now` and at
/// `hour:minute:00.000` on its own clock. (When the offset differs from
/// `now`'s, one day after today's time can still lie before `now`: the
/// rollover adds exactly 86 400 s, as `DateTime + TimeDelta::days(1)` does.)
pub proof fn lemma_next_occurrence_at_offset(now: Moment, hour: int, minute: int, offset: int)
    requires
        now.wf(),
        0 <= hour < 24,
        0 <= minute < 60,
        -SECS_PER_DAY < offset < SECS_PER_DAY,
    ensures
        next_occurrence_at_offset_spec(now, hour, minute, now.offset as int) == next_occurrence_spec(
            now,
            hour,
            minute,
        ),
        ({
            let r = next_occurrence_at_offset_spec(now, hour, minute, offset);
            &&& r.instant() <= now.instant() + 3 * SECS_PER_DAY * NANOS_PER_SEC
            &&& r.second_of_day() == time_of_day(hour, minute)
            &&& r.hour() == hour
            &&& r.minute() == minute
            &&& r.second() == 0
            &&& r.nanos == 0
            &&& r.offset == offset
            &&& r.representable()
        }),
{
    let t = time_of_day(hour, minute);
    lemma_split_time(hour, minute, 0);
    lemma_at_second_of_day(now, t, t);
    lemma_next_occurrence(now, hour, minute);
    let today = today_at(now, hour, minute);
    let moved = today_at_offset(now, hour, minute, offset);
    assert(moved.local_seconds() == today.local_seconds());
    let r = next_occurrence_at_offset_spec(now, hour, minute, offset);
    let d = SECS_PER_DAY as int;
    let q = today.local_day();
    vstd::arithmetic::div_mod::lemma_fundamental_div_mod(today.local_seconds(), d);
    if moved.instant() <= now.instant() {
        assert(r.local_seconds() == (q + 1) * d + t);
        lemma_fundamental_div_mod_converse(r.local_seconds(), d, q + 1, t);
    } else {
        lemma_fundamental_div_mod_converse(r.local_seconds(), d, q, t);
    }
}

/// The countdown never goes up: the later one looks, the fewer whole seconds
/// remain until a given target.
pub proof fn lemma_countdown_never_increases(earlier: Moment, later: Moment, target: Moment)
    requires
        earlier.instant() <= later.instant(),
    ensures
        seconds_until_spec(later, target) <= seconds_until_spec(earlier, target),
{
    let d1 = target.instant() - earlier.instant();
    let d2 = target.instant() - later.instant();
    if d2 > 0 {
        assert(d2 / 1_000_000_000 <= d1 / 1_000_000_000) by (nonlinear_arith)
            requires
                0 < d2 <= d1,
        ;
    }
}

/// Validate a user-supplied time of day: `Ok` exactly when the hour is at
/// most 23 and the minute at most 59, else the message for the first field
/// that is out of range.
pub fn validate(hour: u32, minute: u32) -> (r: Result<(), String>)
    ensures
        r is Ok <==> (hour <= 23 && minute <= 59),
        r is Ok <==> time_error(hour, minute) is None,
        r matches Err(e) ==> Some(e@) == time_error(hour, minute),
{
    if hour > 23 {
        let mut e = String::from_str("hour ");
        push_decimal(&mut e, hour);
        e.append(" out of range (0-23)");
        return Err(e);
    }
    if minute > 59 {
        let mut e = String::from_str("minute ");
        push_decimal(&mut e, minute);
        e.append(" out of range (0-59)");
        return Err(e);
    }
    Ok(())
}

/// `hour:minute:00.000` on the local day of `now`, at `now`'s offset, moved
/// there with `chrono`.
fn today_at_time(now: Moment, hour: u32, minute: u32) -> (r: Moment)
    requires
        now.wf(),
        hour < 24,
        minute < 60,
    ensures
        r == today_at(now, hour as int, minute as int),
{
    let ghost h = hour as int;
    let ghost mi = minute as int;
    let ghost s0 = now.second_of_day();
    proof {
        lemma_at_second_of_day(now, 0, 0);
    }
    let t1 = with_hour(now, hour).unwrap();
    let ghost x1 = h * 3600 + s0 % 3600;
    proof {
        lemma_at_second_of_day(now, x1, 0);
        lemma_fundamental_div_mod_converse(x1, 3600, h, s0 % 3600);
    }
    let t2 = with_minute(t1, minute).unwrap();
    let ghost x2 = h * 3600 + mi * 60 + x1 % 60;
    proof {
        lemma_fundamental_div_mod_converse(s0 % 3600, 60, (s0 % 3600) / 60, (s0 % 3600) % 60);
        lemma_fundamental_div_mod_converse(x1, 60, h * 60 + (s0 % 3600) / 60, (s0 % 3600) % 60);
        lemma_at_second_of_day(now, x1, x2);
        lemma_split_time(h, mi, x1 % 60);
        lemma_at_second_of_day(now, x2, time_of_day(h, mi));
    }
    let t3 = with_second(t2, 0).unwrap();
    let today = with_nanosecond(t3, 0).unwrap();
    assert(today == today_at(now, h, mi));
    today
}

/// The next occurrence of `hour:minute` after `now`, on the local clock of
/// `now`'s offset. If the time has already passed today (or is exactly
/// now), it rolls over to tomorrow; if it is later today, it is today.
pub fn next_occurrence(now: Moment, hour: u32, minute: u32) -> (r: Moment)
    requires
        now.wf(),
        hour < 24,
        minute < 60,
    ensures
        r == next_occurrence_spec(now, hour as int, minute as int),
        r.instant() > now.instant(),
        r.instant() <= now.instant() + SECS_PER_DAY * NANOS_PER_SEC,
        r.hour() == hour,
        r.minute() == minute,
        r.second() == 0,
        r.nanos == 0,
        r.offset == now.offset,
        r.representable(),
        now.second_of_day() < time_of_day(hour as int, minute as int) ==> r.local_day()
            == now.local_day(),
        now.second_of_day() >= time_of_day(hour as int, minute as int) ==> r.local_day()
            == now.local_day() + 1,
{
    proof {
        lemma_next_occurrence(now, hour as int, minute as int);
    }
    let today = today_at_time(now, hour, minute);
    if today.is_after(&now) {
        today
    } else {
        add_days(today, 1)
    }
}

/// The next occurrence of `hour:minute` after `now` when today's
/// `hour:minute` (on `now`'s local date) falls at UTC offset `offset`, as it
/// does on a clock that changes its offset during the day: that local time
/// today if it is still ahead, else 86 400 s later.
pub fn next_occurrence_at_offset(now: Moment, hour: u32, minute: u32, offset: i32) -> (r: Moment)
    requires
        now.wf(),
        hour < 24,
        minute < 60,
        -SECS_PER_DAY < offset < SECS_PER_DAY,
    ensures
        r == next_occurrence_at_offset_spec(now, hour as int, minute as int, offset as int),
        r.instant() <= now.instant() + 3 * SECS_PER_DAY * NANOS_PER_SEC,
        r.hour() == hour,
        r.minute() == minute,
        r.second() == 0,
        r.nanos == 0,
        r.offset == offset,
        r.representable(),
        offset == now.offset ==> r == next_occurrence_spec(now, hour as int, minute as int),
{
    proof {
        lemma_next_occurrence_at_offset(now, hour as int, minute as int, offset as int);
        lemma_next_occurrence_at_offset(now, hour as int, minute as int, now.offset as int);
    }
    let today = today_at_time(now, hour, minute);
    let moved = Moment {
        timestamp: today.timestamp + now.offset as i64 - offset as i64,
        nanos: 0,
        offset,
    };
    if moved.is_after(&now) {
        moved
    } else {
        add_days(moved, 1)
    }
}

/// Seconds on the local clock (counted from the local 1970-01-01 00:00) at
/// which `hour:minute:00` falls on the local date of `now`.
pub fn target_local_seconds(now: Moment, hour: u32, minute: u32) -> (r: i64)
    requires
        now.wf(),
        hour < 24,
        minute < 60,
    ensures
        r == today_at(now, hour as int, minute as int).local_seconds(),
        -REPRESENTABLE_SECS - SECS_PER_DAY <= r <= REPRESENTABLE_SECS + SECS_PER_DAY,
{
    let today = today_at_time(now, hour, minute);
    proof {
        lemma_next_occurrence(now, hour as int, minute as int);
    }
    today.timestamp + now.offset as i64
}

/// The UTC offset that the machine's local time zone has at `hour:minute` on
/// the local date of `now` (`None` where that local time is skipped or
/// repeated), next to the local time the zone was asked about: that is
/// `target_local_seconds(now, hour, minute)`, and the zone's answer is handed
/// on as it came. Which offset comes back depends on the machine; whatever it
/// is, it is less than a day.
pub fn local_target_offset(now: Moment, hour: u32, minute: u32) -> (r: (i64, Option<i32>))
    requires
        now.wf(),
        hour < 24,
        minute < 60,
    ensures
        r.0 == today_at(now, hour as int, minute as int).local_seconds(),
        r.1 matches Some(o) ==> -SECS_PER_DAY < o < SECS_PER_DAY,
{
    let local = target_local_seconds(now, hour, minute);
    local_offset_at(local)
}

/// Whole seconds from `now` until `target`, never negative: the distance
/// rounded down when `target` is ahead, and 0 when it is not.
pub fn seconds_until(now: Moment, target: Moment) -> (r: i64)
    requires
        now.representable(),
        target.representable(),
    ensures
        r == seconds_until_spec(now, target),
        r >= 0,
        target.instant() <= now.instant() ==> r == 0,
        target.instant() > now.instant() ==> r == (target.instant() - now.instant())
            / (NANOS_PER_SEC as int),
{
    let s = num_seconds_between(target, now);
    if s > 0 {
        s
    } else {
        0
    }
}

} // verus!
