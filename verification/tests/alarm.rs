use std::sync::atomic::AtomicBool;
use std::sync::Arc;

use chrono::{FixedOffset, TimeZone};
use loud_alarm::alarm::{AlarmEngine, RingOrder, Zone};
use loud_alarm::moment::Moment;
use loud_alarm::siren::SoundKind;

type Engine = AlarmEngine<Arc<AtomicBool>>;

fn at(y: i32, mo: u32, d: u32, h: u32, mi: u32, s: u32) -> Moment {
    let dt = FixedOffset::east_opt(0).unwrap().with_ymd_and_hms(y, mo, d, h, mi, s).unwrap();
    Moment::new(dt.timestamp(), dt.timestamp_subsec_nanos(), dt.offset().local_minus_utc()).unwrap()
}

fn flag() -> Arc<AtomicBool> {
    Arc::new(AtomicBool::new(false))
}

#[test]
fn arm_then_disarm_updates_status() {
    let mut engine = Engine::new();
    let now = at(2026, 6, 22, 9, 0, 0);
    let status = engine.arm(now, 17, 0, SoundKind::Siren, true).unwrap();
    assert!(status.armed);
    assert_eq!(status.hour, 17);
    assert!(status.force_volume);
    assert!(status.seconds_remaining > 0);

    let status = engine.disarm(now);
    assert!(!status.armed);
}

#[test]
fn arm_rejects_invalid_time() {
    let mut engine = Engine::new();
    let now = at(2026, 6, 22, 9, 0, 0);
    assert!(engine.arm(now, 25, 0, SoundKind::Beep, true).is_err());
}

#[test]
fn stop_clears_ringing() {
    let mut engine = Engine::new();
    let now = at(2026, 6, 22, 9, 0, 0);
    engine.arm(now, 9, 1, SoundKind::Siren, false).unwrap();
    // Whatever the local zone, the target is within three days.
    assert!(engine.tick(at(2026, 6, 25, 9, 1, 0), flag()).is_some());
    assert!(engine.status(now).ringing);
    let (status, stop_flag) = engine.stop(now);
    assert!(!status.ringing);
    assert!(stop_flag.is_some());
}

#[test]
fn fresh_engine_is_idle() {
    let engine = Engine::new_in(Zone::NowOffset);
    let now = at(2026, 6, 22, 9, 0, 0);
    let status = engine.status(now);
    assert!(!status.armed && !status.ringing);
    assert_eq!((status.hour, status.minute, status.seconds_remaining), (0, 0, 0));
    assert_eq!(status.sound, SoundKind::Siren);
    assert!(!status.force_volume);
}

#[test]
fn arm_reports_time_remaining_and_settings() {
    let mut engine = Engine::new_in(Zone::NowOffset);
    let now = at(2026, 6, 22, 16, 0, 0);
    let status = engine.arm(now, 17, 30, SoundKind::Chirp, false).unwrap();
    assert_eq!(status.seconds_remaining, 5400);
    assert_eq!((status.hour, status.minute), (17, 30));
    assert_eq!(status.sound, SoundKind::Chirp);
    // Later, the countdown has moved on.
    assert_eq!(engine.status(at(2026, 6, 22, 17, 0, 0)).seconds_remaining, 1800);
    // Past the target but before a tick, it shows zero.
    assert_eq!(engine.status(at(2026, 6, 22, 18, 0, 0)).seconds_remaining, 0);
}

#[test]
fn rejected_arm_changes_nothing() {
    let mut engine = Engine::new_in(Zone::NowOffset);
    let now = at(2026, 6, 22, 16, 0, 0);
    engine.arm(now, 7, 0, SoundKind::Beep, true).unwrap();
    let before = engine.status(now);
    assert_eq!(
        engine.arm(now, 7, 60, SoundKind::Chirp, false),
        Err("minute 60 out of range (0-59)".to_string())
    );
    assert_eq!(engine.status(now), before);
}

#[test]
fn tick_fires_only_when_due_and_only_once() {
    let mut engine = Engine::new_in(Zone::NowOffset);
    let now = at(2026, 6, 22, 6, 0, 0);
    engine.arm(now, 7, 0, SoundKind::Beep, true).unwrap();
    assert_eq!(engine.tick(at(2026, 6, 22, 6, 59, 59), flag()), None);
    assert!(!engine.status(now).ringing);
    let order = engine.tick(at(2026, 6, 22, 7, 0, 0), flag());
    assert_eq!(order, Some(RingOrder { sound: SoundKind::Beep, force_volume: true }));
    let status = engine.status(now);
    assert!(status.ringing && !status.armed);
    // No second ring while the first goes on, nor after it ends.
    assert_eq!(engine.tick(at(2026, 6, 22, 7, 0, 1), flag()), None);
    engine.ring_finished();
    assert!(!engine.status(now).ringing);
    assert_eq!(engine.tick(at(2026, 6, 22, 8, 0, 0), flag()), None);
}

#[test]
fn disarmed_alarm_never_fires() {
    let mut engine = Engine::new_in(Zone::NowOffset);
    let now = at(2026, 6, 22, 6, 0, 0);
    engine.arm(now, 7, 0, SoundKind::Siren, true).unwrap();
    engine.disarm(now);
    assert_eq!(engine.tick(at(2026, 6, 23, 7, 0, 0), flag()), None);
}

#[test]
fn stop_hands_back_the_flag_of_the_ring() {
    let mut engine = Engine::new_in(Zone::NowOffset);
    let now = at(2026, 6, 22, 6, 0, 0);
    engine.arm(now, 6, 30, SoundKind::Siren, true).unwrap();
    let ring_flag = flag();
    engine.tick(at(2026, 6, 22, 6, 30, 0), ring_flag.clone()).unwrap();
    let (_, taken) = engine.stop(now);
    assert!(Arc::ptr_eq(&taken.unwrap(), &ring_flag));
    let (_, again) = engine.stop(now);
    assert!(again.is_none());
}

#[test]
fn arm_named_parses_the_sound_first() {
    let mut engine = Engine::new_in(Zone::NowOffset);
    let now = at(2026, 6, 22, 6, 0, 0);
    assert_eq!(
        engine.arm_named(now, 99, 0, "kazoo", true),
        Err("unknown sound 'kazoo'".to_string())
    );
    assert_eq!(
        engine.arm_named(now, 99, 0, "Beep", true),
        Err("hour 99 out of range (0-23)".to_string())
    );
    let status = engine.arm_named(now, 7, 15, "CHIRP", false).unwrap();
    assert_eq!(status.sound, SoundKind::Chirp);
    assert_eq!(status.seconds_remaining, 4500);
}


#[test]
fn local_engine_arms_on_the_local_clock() {
    let mut engine = Engine::new_in(Zone::Local);
    let now = at(2026, 6, 22, 9, 0, 0);
    let status = engine.arm(now, 17, 0, SoundKind::Siren, false).unwrap();
    assert!(status.armed);
    assert_eq!((status.hour, status.minute), (17, 0));
    assert!(status.seconds_remaining >= 0);
    assert!(engine.arm(now, 24, 0, SoundKind::Siren, false).is_err());
}

#[test]
fn arm_with_zone_offset_reads_today_at_the_given_offset() {
    let mut engine = Engine::new_in(Zone::NowOffset);
    let now = at(2026, 6, 22, 9, 0, 0);
    // 17:00 today at UTC+02:00 is 15:00 UTC: six hours away.
    let status = engine.arm_with_zone_offset(now, 17, 0, SoundKind::Beep, false, Some(7200)).unwrap();
    assert_eq!(status.seconds_remaining, 6 * 3600);
    // No answer from the zone: now's offset, as `next_occurrence`.
    let status = engine.arm_with_zone_offset(now, 17, 0, SoundKind::Beep, false, None).unwrap();
    assert_eq!(status.seconds_remaining, 8 * 3600);
    assert_eq!(
        engine.arm_with_zone_offset(now, 17, 61, SoundKind::Beep, false, Some(7200)),
        Err("minute 61 out of range (0-59)".to_string())
    );
}

#[test]
fn default_engine_reads_the_local_clock() {
    let mut local = Engine::new();
    let mut explicit = Engine::new_in(Zone::NowOffset);
    let now = at(2026, 6, 22, 9, 0, 0);
    let a = local.arm(now, 12, 0, SoundKind::Siren, false).unwrap();
    let (_, answer) = loud_alarm::schedule::local_target_offset(now, 12, 0);
    let offset = answer.unwrap_or(now.offset);
    let b = explicit.arm_with_zone_offset(now, 12, 0, SoundKind::Siren, false, Some(offset)).unwrap();
    assert_eq!(a, b);
}
