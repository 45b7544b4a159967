//! The alarm engine: holds the armed state and decides, on each clock tick,
//! whether the alarm fires.
//!
//! The engine is a state machine. The caller owns the clock, the threads and
//! the audio: it hands the engine the current moment, and on `tick` a fresh
//! stop flag, of a type the engine never looks into. When a tick fires, the
//! engine keeps that flag; `stop` hands it back so that the caller can raise
//! it, and the ringing side reports back with `ring_finished`.

use crate::moment::{lemma_whole_seconds_bound, lemma_whole_seconds_fits, Moment};
use crate::schedule::{
    today_at, lemma_next_occurrence, lemma_next_occurrence_at_offset, local_target_offset,
    next_occurrence_at_offset, next_occurrence_at_offset_spec, next_occurrence_spec,
    seconds_until, seconds_until_spec, time_error, validate,
};
use crate::siren::{parse_sound, SoundKind};
use vstd::prelude::*;

verus! {

/// Length of the sound preview, in milliseconds.
pub const PREVIEW_MILLIS: u64 = 1200;

/// How often the scheduler looks at the clock, in seconds.
pub const TICK_SECS: u64 = 1;

/// Snapshot of the engine for the UI.
#[derive(Clone, Copy, Debug, PartialEq, Eq, Structural)]
pub struct Status {
    pub armed: bool,
    pub ringing: bool,
    pub hour: u32,
    pub minute: u32,
    pub seconds_remaining: i64,
    pub force_volume: bool,
    pub sound: SoundKind,
}

/// Which clock the alarm's time of day is read on.
#[derive(Clone, Copy, Debug, PartialEq, Eq, Structural)]
pub enum Zone {
    /// The clock of the moment of arming: its UTC offset holds all day.
    NowOffset,
    /// The machine's local time zone: today's time of day falls at the
    /// offset the zone has then (a daylight-saving change during the day
    /// moves it); where that local time is skipped or repeated, the offset of
    /// the moment of arming is used.
    Local,
}

/// What a tick that fires asks the caller to ring.
#[derive(Clone, Copy, Debug, PartialEq, Eq, Structural)]
pub struct RingOrder {
    pub sound: SoundKind,
    pub force_volume: bool,
}

/// The offset today's time of day falls at: the zone's answer when there is
/// one, else the offset of the moment of arming.
pub open spec fn zone_offset(now: Moment, local: Option<i32>) -> int {
    match local {
        Some(o) => o as int,
        None => now.offset as int,
    }
}

/// The state of the engine, as the contracts see it.
pub struct EngineView<F> {
    pub zone: Zone,
    pub armed: bool,
    pub target: Option<Moment>,
    pub hour: u32,
    pub minute: u32,
    pub sound: SoundKind,
    pub force_volume: bool,
    pub ringing: bool,
    pub stop: Option<F>,
    /// On the local clock, the last question put to the time zone when
    /// arming: the local time asked about and the zone's answer.
    pub lookup: Option<(i64, Option<i32>)>,
}

impl<F> EngineView<F> {
    /// The engine's invariant: it rings exactly while it holds a stop flag,
    /// an armed engine has a target, the time of day is valid, and the target
    /// (if any) falls on that time of day.
    pub open spec fn wf(self) -> bool {
        &&& (self.ringing <==> self.stop is Some)
        &&& (self.armed ==> self.target is Some)
        &&& self.hour < 24
        &&& self.minute < 60
        &&& (self.target matches Some(t) ==> {
            &&& t.representable()
            &&& t.hour() == self.hour
            &&& t.minute() == self.minute
            &&& t.second() == 0
            &&& t.nanos == 0
        })
    }

    /// A fresh engine: nothing armed, nothing ringing.
    pub open spec fn initial(zone: Zone) -> Self {
        EngineView {
            zone,
            armed: false,
            target: None,
            hour: 0,
            minute: 0,
            sound: SoundKind::Siren,
            force_volume: false,
            ringing: false,
            stop: None,
            lookup: None,
        }
    }

    /// The snapshot shown at `now`: the seconds remaining count down to the
    /// target while armed and are 0 otherwise.
    pub open spec fn status(self, now: Moment) -> Status {
        Status {
            armed: self.armed,
            ringing: self.ringing,
            hour: self.hour,
            minute: self.minute,
            seconds_remaining: if self.armed && self.target is Some {
                seconds_until_spec(now, self.target->0) as i64
            } else {
                0
            },
            force_volume: self.force_volume,
            sound: self.sound,
        }
    }

    /// Armed at `now` for the next `hour:minute`, today's `hour:minute`
    /// falling at UTC offset `offset`, with these settings.
    pub open spec fn armed_at(
        self,
        now: Moment,
        hour: u32,
        minute: u32,
        sound: SoundKind,
        force_volume: bool,
        offset: int,
    ) -> Self {
        EngineView {
            armed: true,
            target: Some(next_occurrence_at_offset_spec(now, hour as int, minute as int, offset)),
            hour,
            minute,
            sound,
            force_volume,
            ..self
        }
    }

    /// What arming a valid time of day at `now` leads to. On the clock of the
    /// moment of arming: armed at `now`'s offset. On the local clock: the
    /// zone was asked about today's local `hour:minute`, the question and its
    /// answer are recorded, and the target falls at the zone's answer, or at
    /// `now`'s offset when the zone gave none.
    pub open spec fn arm_result(
        self,
        after: Self,
        now: Moment,
        hour: u32,
        minute: u32,
        sound: SoundKind,
        force_volume: bool,
    ) -> bool {
        match self.zone {
            Zone::NowOffset => after == self.armed_at(
                now,
                hour,
                minute,
                sound,
                force_volume,
                now.offset as int,
            ),
            Zone::Local => match after.lookup {
                Some((asked, answer)) => {
                    &&& asked == today_at(now, hour as int, minute as int).local_seconds()
                    &&& after == (EngineView {
                        lookup: after.lookup,
                        ..self.armed_at(
                            now,
                            hour,
                            minute,
                            sound,
                            force_volume,
                            zone_offset(now, answer),
                        )
                    })
                },
                None => false,
            },
        }
    }

    /// Disarmed; everything else kept.
    pub open spec fn disarmed(self) -> Self {
        EngineView { armed: false, ..self }
    }

    /// Not ringing and holding no stop flag.
    pub open spec fn silenced(self) -> Self {
        EngineView { ringing: false, stop: None, ..self }
    }

    /// The alarm is due at `now`: armed, not already ringing, and its target
    /// has been reached.
    pub open spec fn due(self, now: Moment) -> bool {
        &&& self.armed
        &&& !self.ringing
        &&& self.target matches Some(t) && now.instant() >= t.instant()
    }

    /// Fired: no longer armed, ringing, and holding `flag` to stop it.
    pub open spec fn fired(self, flag: F) -> Self {
        EngineView { armed: false, ringing: true, stop: Some(flag), ..self }
    }

    /// What a tick at `now` with a fresh `flag` leads to: the fired state and
    /// an order to ring when due, else no change.
    pub open spec fn tick(self, now: Moment, flag: F) -> (Self, Option<RingOrder>) {
        if self.due(now) {
            (self.fired(flag), Some(RingOrder { sound: self.sound, force_volume: self.force_volume }))
        } else {
            (self, None)
        }
    }
}

/// The alarm engine.
pub struct AlarmEngine<F> {
    zone: Zone,
    armed: bool,
    target: Option<Moment>,
    hour: u32,
    minute: u32,
    sound: SoundKind,
    force_volume: bool,
    ringing: bool,
    stop: Option<F>,
    lookup: Ghost<Option<(i64, Option<i32>)>>,
}

impl<F> View for AlarmEngine<F> {
    type V = EngineView<F>;

    closed spec fn view(&self) -> EngineView<F> {
        EngineView {
            zone: self.zone,
            armed: self.armed,
            target: self.target,
            hour: self.hour,
            minute: self.minute,
            sound: self.sound,
            force_volume: self.force_volume,
            ringing: self.ringing,
            stop: self.stop,
            lookup: self.lookup@,
        }
    }
}

impl<F> AlarmEngine<F> {
    /// A fresh engine that reads the time of day on the machine's local
    /// clock: nothing armed, nothing ringing.
    pub fn new() -> (r: Self)
        ensures
            r@ == EngineView::<F>::initial(Zone::Local),
            r@.wf(),
    {
        Self::new_in(Zone::Local)
    }

    /// A fresh engine that reads the time of day on the clock `zone`:
    /// nothing armed, nothing ringing.
    pub fn new_in(zone: Zone) -> (r: Self)
        ensures
            r@ == EngineView::<F>::initial(zone),
            r@.wf(),
    {
        AlarmEngine {
            zone,
            armed: false,
            target: None,
            hour: 0,
            minute: 0,
            sound: SoundKind::Siren,
            force_volume: false,
            ringing: false,
            stop: None,
            lookup: Ghost(None),
        }
    }

    /// The snapshot of the engine at `now`.
    pub fn status(&self, now: Moment) -> (r: Status)
        requires
            self@.wf(),
            now.representable(),
        ensures
            r == self@.status(now),
            r.armed == self@.armed && r.ringing == self@.ringing && r.hour == self@.hour
                && r.minute == self@.minute && r.force_volume == self@.force_volume && r.sound
                == self@.sound,
            !self@.armed ==> r.seconds_remaining == 0,
            self@.armed ==> r.seconds_remaining == seconds_until_spec(now, self@.target->0),
            r.seconds_remaining >= 0,
    {
        proof {
            if self@.target is Some {
                lemma_whole_seconds_fits(self@.target->0, now);
            }
        }
        let remaining: i64 = match (self.armed, self.target) {
            (true, Some(target)) => seconds_until(now, target),
            _ => 0,
        };
        Status {
            armed: self.armed,
            ringing: self.ringing,
            hour: self.hour,
            minute: self.minute,
            seconds_remaining: remaining,
            force_volume: self.force_volume,
            sound: self.sound,
        }
    }

    /// Arms the alarm at `now` for the next occurrence of `hour:minute`,
    /// today's `hour:minute` falling at UTC offset `local` when that is given
    /// and at `now`'s offset when it is not. An invalid time of day is
    /// rejected with `validate`'s message and changes nothing; otherwise the
    /// engine is armed with these settings (whether it is ringing is left
    /// alone) and its status at `now` is returned.
    pub fn arm_with_zone_offset(
        &mut self,
        now: Moment,
        hour: u32,
        minute: u32,
        sound: SoundKind,
        force_volume: bool,
        local: Option<i32>,
    ) -> (r: Result<Status, String>)
        requires
            old(self)@.wf(),
            now.wf(),
            local matches Some(o) ==> -86_400 < o < 86_400,
        ensures
            final(self)@.wf(),
            r is Ok <==> time_error(hour, minute) is None,
            r is Ok ==> final(self)@ == old(self)@.armed_at(
                now,
                hour,
                minute,
                sound,
                force_volume,
                zone_offset(now, local),
            ),
            r is Ok ==> final(self)@.target == Some(
                next_occurrence_at_offset_spec(
                    now,
                    hour as int,
                    minute as int,
                    zone_offset(now, local),
                ),
            ),
            r is Ok && local is None ==> final(self)@.target == Some(
                next_occurrence_spec(now, hour as int, minute as int),
            ),
            r matches Ok(s) ==> s == final(self)@.status(now),
            r matches Ok(s) ==> s.armed && 0 <= s.seconds_remaining,
            r matches Ok(s) ==> s.force_volume == force_volume && s.sound == sound && s.hour
                == hour && s.minute == minute,
            r is Ok ==> final(self)@.armed && final(self)@.force_volume == force_volume
                && final(self)@.sound == sound && final(self)@.hour == hour && final(self)@.minute
                == minute && final(self)@.ringing == old(self)@.ringing && final(self)@.stop == old(
                self,
            )@.stop,
            local is None ==> (r matches Ok(s) ==> s.seconds_remaining <= 86_400),
            r matches Err(e) ==> final(self)@ == old(self)@ && time_error(hour, minute) == Some(
                e@,
            ),
    {
        match validate(hour, minute) {
            Err(e) => {
                return Err(e);
            },
            Ok(()) => {},
        }
        let offset: i32 = match local {
            Some(o) => o,
            None => now.offset,
        };
        let target = next_occurrence_at_offset(now, hour, minute, offset);
        proof {
            lemma_next_occurrence(now, hour as int, minute as int);
            lemma_next_occurrence_at_offset(now, hour as int, minute as int, offset as int);
            lemma_whole_seconds_fits(target, now);
            if offset == now.offset {
                lemma_whole_seconds_bound(target, now, 86_400);
            }
        }
        proof {
            lemma_arming_takes_the_settings(
                old(self)@,
                now,
                hour,
                minute,
                sound,
                force_volume,
                offset as int,
            );
        }
        self.armed = true;
        self.target = Some(target);
        self.hour = hour;
        self.minute = minute;
        self.sound = sound;
        self.force_volume = force_volume;
        Ok(self.status(now))
    }

    /// Arms the alarm at `now` for the next occurrence of `hour:minute` on the
    /// engine's clock (see `arm_with_zone_offset`): on the clock of the moment
    /// of arming, the target is `next_occurrence(now, hour, minute)`; on the
    /// local clock, today's `hour:minute` is read at the offset that
    /// `local_target_offset` gives for it, or at `now`'s offset where that
    /// local time is skipped or repeated.
    pub fn arm(
        &mut self,
        now: Moment,
        hour: u32,
        minute: u32,
        sound: SoundKind,
        force_volume: bool,
    ) -> (r: Result<Status, String>)
        requires
            old(self)@.wf(),
            now.wf(),
        ensures
            final(self)@.wf(),
            r is Ok <==> time_error(hour, minute) is None,
            r is Ok ==> old(self)@.arm_result(final(self)@, now, hour, minute, sound, force_volume),
            r is Ok ==> final(self)@.target == Some(
                next_occurrence_at_offset_spec(
                    now,
                    hour as int,
                    minute as int,
                    final(self)@.target->0.offset as int,
                ),
            ),
            r is Ok && old(self)@.zone == Zone::NowOffset ==> final(self)@.target
                == Some(next_occurrence_spec(now, hour as int, minute as int)),
            r matches Ok(s) ==> s == final(self)@.status(now),
            r matches Ok(s) ==> s.armed && 0 <= s.seconds_remaining,
            r matches Ok(s) ==> s.force_volume == force_volume && s.sound == sound && s.hour
                == hour && s.minute == minute,
            r is Ok ==> final(self)@.armed && final(self)@.force_volume == force_volume
                && final(self)@.sound == sound && final(self)@.hour == hour && final(self)@.minute
                == minute && final(self)@.ringing == old(self)@.ringing && final(self)@.stop == old(
                self,
            )@.stop,
            old(self)@.zone == Zone::NowOffset ==> (r matches Ok(s) ==> s.seconds_remaining
                <= 86_400),
            r matches Err(e) ==> final(self)@ == old(self)@ && time_error(hour, minute) == Some(
                e@,
            ),
    {
        proof {
            lemma_arming_takes_the_settings(
                old(self)@,
                now,
                hour,
                minute,
                sound,
                force_volume,
                now.offset as int,
            );
        }
        match self.zone {
            Zone::NowOffset => {
                let r = self.arm_with_zone_offset(now, hour, minute, sound, force_volume, None);
                proof {
                    if r is Ok {
                        lemma_next_occurrence_at_offset(
                            now,
                            hour as int,
                            minute as int,
                            now.offset as int,
                        );
                    }
                }
                r
            },
            Zone::Local => {
                if hour < 24 && minute < 60 {
                    let (asked, answer) = local_target_offset(now, hour, minute);
                    let r = self.arm_with_zone_offset(now, hour, minute, sound, force_volume, answer);
                    self.lookup = Ghost(Some((asked, answer)));
                    proof {
                        lemma_next_occurrence_at_offset(
                            now,
                            hour as int,
                            minute as int,
                            zone_offset(now, answer),
                        );
                    }
                    r
                } else {
                    self.arm_with_zone_offset(now, hour, minute, sound, force_volume, None)
                }
            },
        }
    }

    /// Arms the alarm with the sound named `sound` (see
    /// `SoundKind::from_str`): an unknown name is rejected first, with its
    /// message, and changes nothing.
    pub fn arm_named(
        &mut self,
        now: Moment,
        hour: u32,
        minute: u32,
        sound: &str,
        force_volume: bool,
    ) -> (r: Result<Status, String>)
        requires
            old(self)@.wf(),
            now.wf(),
        ensures
            final(self)@.wf(),
            parse_sound(sound@) matches Err(msg) ==> {
                &&& final(self)@ == old(self)@
                &&& r matches Err(e) && e@ == msg
            },
            parse_sound(sound@) matches Ok(k) ==> {
                &&& r is Ok <==> time_error(hour, minute) is None
                &&& r is Ok ==> old(self)@.arm_result(final(self)@, now, hour, minute, k, force_volume)
                &&& r is Ok && old(self)@.zone == Zone::NowOffset ==> final(self)@.target
                    == Some(next_occurrence_spec(now, hour as int, minute as int))
                &&& r matches Ok(s) ==> s == final(self)@.status(now)
                &&& r matches Ok(s) ==> s.armed && s.force_volume == force_volume && s.sound == k
                    && s.hour == hour && s.minute == minute
                &&& r is Ok ==> final(self)@.force_volume == force_volume && final(self)@.sound == k
                &&& r matches Err(e) ==> final(self)@ == old(self)@ && time_error(hour, minute)
                    == Some(e@)
            },
    {
        let kind = match SoundKind::from_str(sound) {
            Ok(k) => k,
            Err(e) => {
                return Err(e);
            },
        };
        self.arm(now, hour, minute, kind, force_volume)
    }

    /// Disarms the alarm (a ring in progress goes on) and returns the status
    /// at `now`.
    pub fn disarm(&mut self, now: Moment) -> (r: Status)
        requires
            old(self)@.wf(),
            now.representable(),
        ensures
            final(self)@.wf(),
            final(self)@ == old(self)@.disarmed(),
            r == final(self)@.status(now),
            !r.armed,
            r.seconds_remaining == 0,
    {
        self.armed = false;
        self.status(now)
    }

    /// Stops ringing: hands back the stop flag of the ring in progress (if
    /// any) for the caller to raise, and returns the status at `now`.
    pub fn stop(&mut self, now: Moment) -> (r: (Status, Option<F>))
        requires
            old(self)@.wf(),
            now.representable(),
        ensures
            final(self)@.wf(),
            final(self)@ == old(self)@.silenced(),
            r.0 == final(self)@.status(now),
            !r.0.ringing,
            r.1 == old(self)@.stop,
    {
        let flag = self.stop.take();
        self.ringing = false;
        (self.status(now), flag)
    }

    /// One look at the clock. When the alarm is due at `now` (armed, not
    /// ringing, target reached) it fires: it is disarmed, starts ringing,
    /// keeps `flag` as the ring's stop flag, and orders the caller to ring
    /// with its sound and volume setting. Otherwise nothing changes.
    pub fn tick(&mut self, now: Moment, flag: F) -> (r: Option<RingOrder>)
        requires
            old(self)@.wf(),
            now.nanos < 1_000_000_000,
        ensures
            final(self)@.wf(),
            (final(self)@, r) == old(self)@.tick(now, flag),
            r is Some <==> old(self)@.due(now),
            r is Some <==> (old(self)@.armed && !old(self)@.ringing && old(self)@.target is Some
                && now.instant() >= old(self)@.target->0.instant()),
            r is Some ==> r == Some(
                (RingOrder { sound: old(self)@.sound, force_volume: old(self)@.force_volume }),
            ),
            r is Some ==> !final(self)@.armed && final(self)@.ringing && final(self)@.stop == Some(
                flag,
            ) && final(self)@.sound == old(self)@.sound && final(self)@.force_volume == old(
                self,
            )@.force_volume,
            r is None ==> final(self)@ == old(self)@,
    {
        proof {
            lemma_tick_rings_as_armed(old(self)@, now, flag);
        }
        let due = self.armed && !self.ringing && match self.target {
            Some(t) => now.is_at_or_after(&t),
            None => false,
        };
        if due {
            self.armed = false;
            self.ringing = true;
            self.stop = Some(flag);
            Some(RingOrder { sound: self.sound, force_volume: self.force_volume })
        } else {
            None
        }
    }

    /// The ring has finished (stopped, timed out, or no audio device): not
    /// ringing, no stop flag.
    pub fn ring_finished(&mut self)
        requires
            old(self)@.wf(),
        ensures
            final(self)@.wf(),
            final(self)@ == old(self)@.silenced(),
    {
        self.ringing = false;
        self.stop = None;
    }
}

// ---------------------------------------------------------------------------
// Laws
// ---------------------------------------------------------------------------

/// Every step keeps the engine's invariant.
pub proof fn lemma_steps_keep_invariant<F>(
    v: EngineView<F>,
    now: Moment,
    hour: u32,
    minute: u32,
    sound: SoundKind,
    force_volume: bool,
    flag: F,
    offset: int,
    zone: Zone,
)
    requires
        v.wf(),
        now.wf(),
        -86_400 < offset < 86_400,
    ensures
        EngineView::<F>::initial(zone).wf(),
        time_error(hour, minute) is None ==> v.armed_at(
            now,
            hour,
            minute,
            sound,
            force_volume,
            offset,
        ).wf(),
        v.disarmed().wf(),
        v.silenced().wf(),
        v.tick(now, flag).0.wf(),
{
    if time_error(hour, minute) is None {
        lemma_next_occurrence_at_offset(now, hour as int, minute as int, offset);
    }
}

/// Once armed, the alarm is not due before its target and is due from the
/// target on, as long as nothing is ringing. On the clock of the moment of
/// arming the target is the next occurrence of the time of day after that
/// moment, so the alarm is not due at once.
pub proof fn lemma_armed_alarm_fires_at_target<F>(
    v: EngineView<F>,
    now: Moment,
    hour: u32,
    minute: u32,
    sound: SoundKind,
    force_volume: bool,
    later: Moment,
    offset: int,
)
    requires
        v.wf(),
        now.wf(),
        time_error(hour, minute) is None,
        !v.ringing,
        -86_400 < offset < 86_400,
    ensures
        ({
            let a = v.armed_at(now, hour, minute, sound, force_volume, offset);
            let target = next_occurrence_at_offset_spec(now, hour as int, minute as int, offset);
            &&& a.due(later) <==> later.instant() >= target.instant()
            &&& offset == now.offset ==> !a.due(now)
        }),
{
    lemma_next_occurrence(now, hour as int, minute as int);
    lemma_next_occurrence_at_offset(now, hour as int, minute as int, offset);
}

/// A tick fires exactly when the alarm is armed, not already ringing, and
/// its target has been reached; the ring it orders has the sound and the
/// volume setting the alarm was armed with, and the engine then rings,
/// disarmed, holding the tick's flag. A tick that does not fire changes
/// nothing.
pub proof fn lemma_tick_rings_as_armed<F>(v: EngineView<F>, now: Moment, flag: F)
    ensures
        v.tick(now, flag).1 is Some <==> (v.armed && !v.ringing && v.target is Some && now.instant()
            >= v.target->0.instant()),
        v.tick(now, flag).1 is Some ==> v.tick(now, flag).1 == Some(
            (RingOrder { sound: v.sound, force_volume: v.force_volume }),
        ),
        v.tick(now, flag).1 is Some ==> {
            let w = v.tick(now, flag).0;
            &&& !w.armed
            &&& w.ringing
            &&& w.stop == Some(flag)
            &&& w.sound == v.sound
            &&& w.force_volume == v.force_volume
            &&& w.target == v.target
            &&& w.hour == v.hour
            &&& w.minute == v.minute
        },
        v.tick(now, flag).1 is None ==> v.tick(now, flag).0 == v,
{
}

/// Arming takes the settings it is given, whatever the engine held before:
/// it is armed, for that time of day, with that sound and that volume
/// setting; the zone, the ringing state and the stop flag are kept.
pub proof fn lemma_arming_takes_the_settings<F>(
    v: EngineView<F>,
    now: Moment,
    hour: u32,
    minute: u32,
    sound: SoundKind,
    force_volume: bool,
    offset: int,
)
    ensures
        ({
            let a = v.armed_at(now, hour, minute, sound, force_volume, offset);
            &&& a.armed
            &&& a.hour == hour
            &&& a.minute == minute
            &&& a.sound == sound
            &&& a.force_volume == force_volume
            &&& a.zone == v.zone
            &&& a.ringing == v.ringing
            &&& a.stop == v.stop
            &&& a.status(now).force_volume == force_volume
            &&& a.status(now).sound == sound
            &&& a.status(now).armed
        }),
{
}

/// A fired alarm does not fire again: after firing, and after disarming,
/// stopping or finishing the ring, it is not due at any moment until it is
/// armed again.
pub proof fn lemma_fires_once<F>(v: EngineView<F>, flag: F, later: Moment)
    ensures
        !v.fired(flag).due(later),
        !v.fired(flag).disarmed().due(later),
        !v.fired(flag).silenced().due(later),
        !v.fired(flag).silenced().disarmed().due(later),
        !v.disarmed().due(later),
{
}

/// A ringing alarm never fires a second ring: a tick while ringing changes
/// nothing.
pub proof fn lemma_no_overlapping_rings<F>(v: EngineView<F>, now: Moment, flag: F)
    requires
        v.ringing,
    ensures
        v.tick(now, flag) == (v, None::<RingOrder>),
{
}

/// Stopping silences the alarm and leaves the armed state alone; a disarmed
/// engine reports no time remaining.
pub proof fn lemma_stop_and_disarm_status<F>(v: EngineView<F>, now: Moment)
    ensures
        !v.silenced().status(now).ringing,
        v.silenced().armed == v.armed,
        v.silenced().target == v.target,
        !v.disarmed().status(now).armed,
        v.disarmed().status(now).seconds_remaining == 0,
        v.disarmed().ringing == v.ringing,
{
}

/// The time remaining is never negative, and right after arming on the
/// clock of the moment of arming it is at most one day.
pub proof fn lemma_status_remaining<F>(
    v: EngineView<F>,
    now: Moment,
    hour: u32,
    minute: u32,
    sound: SoundKind,
    force_volume: bool,
)
    requires
        v.wf(),
        now.wf(),
        time_error(hour, minute) is None,
    ensures
        v.status(now).seconds_remaining >= 0,
        0 <= v.armed_at(
            now,
            hour,
            minute,
            sound,
            force_volume,
            now.offset as int,
        ).status(now).seconds_remaining <= 86_400,
{
    lemma_next_occurrence(now, hour as int, minute as int);
    lemma_next_occurrence_at_offset(now, hour as int, minute as int, now.offset as int);
    let target = next_occurrence_spec(now, hour as int, minute as int);
    lemma_whole_seconds_bound(target, now, 86_400);
    if v.armed && v.target is Some {
        lemma_whole_seconds_fits(v.target->0, now);
    }
}

} // verus!
