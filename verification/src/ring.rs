//! One ring, from start to end.
//!
//! When the alarm is set to force the volume, the system volume and mute
//! state are read before the volume is first forced up, overridden for the
//! duration of the ring (re-asserted before every burst), and set back to
//! exactly what was read once the ring ends. The ring ends when it is stopped
//! or after `MAX_RING_SECS`. The caller plays the bursts and runs the volume
//! commands; the session decides what comes next.

use crate::volume::SystemVolume;
use vstd::prelude::*;

verus! {

/// Length of a single ring burst, in milliseconds, before the volume is
/// re-asserted.
pub const RING_BURST_MILLIS: u64 = 1500;

/// Safety net so a forgotten alarm doesn't ring forever: five minutes.
pub const MAX_RING_SECS: u64 = 300;

/// What the ringing side does next.
#[derive(Clone, Copy, Debug, PartialEq, Eq, Structural)]
pub enum RingStep {
    /// Read the system volume and mute state (`volume::snapshot`) and report
    /// it with `RingSession::captured`, before the volume is first forced up.
    Capture,
    /// Play one more burst, first forcing the volume up if asked to.
    Burst { maximize_volume: bool },
    /// Set the system volume and mute state back to `volume` (the commands of
    /// `volume::set_commands` for its level and mute state).
    Restore { volume: SystemVolume },
    /// The ring is over.
    Finish,
}

/// The state of a ring, as the contracts see it.
pub struct RingView {
    /// The ring forces the volume up.
    pub force_volume: bool,
    /// The volume state has been read (or there was nothing to read).
    pub capture_done: bool,
    /// What was read, when it could be read.
    pub captured: Option<SystemVolume>,
    /// The restore has been asked for.
    pub restored: bool,
    /// The ring is over.
    pub ended: bool,
}

impl RingView {
    /// A ring that has just started.
    pub open spec fn start(force_volume: bool) -> RingView {
        RingView { force_volume, capture_done: false, captured: None, restored: false, ended: false }
    }

    /// Nothing is captured without forcing the volume, nothing is restored
    /// that was not captured, and a ring is over only once whatever was
    /// captured has been restored.
    pub open spec fn wf(self) -> bool {
        &&& (self.captured is Some ==> self.force_volume && self.capture_done)
        &&& (self.restored ==> self.captured is Some)
        &&& (self.ended ==> (self.captured is Some ==> self.restored))
    }

    /// The ring has to wind down: stopped, or past the safety limit.
    pub open spec fn winding_down(stopped: bool, elapsed_secs: u64) -> bool {
        stopped || elapsed_secs >= MAX_RING_SECS
    }

    /// The next step, after `elapsed_secs` seconds of ringing, with the stop
    /// flag at `stopped`, and the state it leads to.
    pub open spec fn next(self, stopped: bool, elapsed_secs: u64) -> (RingView, RingStep) {
        if self.ended {
            (self, RingStep::Finish)
        } else if Self::winding_down(stopped, elapsed_secs) {
            match self.captured {
                Some(v) if !self.restored => (
                    RingView { restored: true, ..self },
                    RingStep::Restore { volume: v },
                ),
                _ => (RingView { ended: true, ..self }, RingStep::Finish),
            }
        } else if self.force_volume && !self.capture_done {
            (self, RingStep::Capture)
        } else {
            (self, RingStep::Burst { maximize_volume: self.force_volume })
        }
    }

    /// The volume state read before ringing has been reported.
    pub open spec fn record_capture(self, volume: Option<SystemVolume>) -> RingView {
        if self.force_volume && !self.capture_done && !self.ended {
            RingView { capture_done: true, captured: volume, ..self }
        } else {
            self
        }
    }
}

/// The decisions of one ring.
pub struct RingSession {
    force_volume: bool,
    capture_done: bool,
    captured: Option<SystemVolume>,
    restored: bool,
    ended: bool,
}

impl View for RingSession {
    type V = RingView;

    closed spec fn view(&self) -> RingView {
        RingView {
            force_volume: self.force_volume,
            capture_done: self.capture_done,
            captured: self.captured,
            restored: self.restored,
            ended: self.ended,
        }
    }
}

impl RingSession {
    /// A ring that starts now, forcing the volume up or not.
    pub fn new(force_volume: bool) -> (r: RingSession)
        ensures
            r@ == RingView::start(force_volume),
            r@.wf(),
    {
        RingSession { force_volume, capture_done: false, captured: None, restored: false, ended: false }
    }

    /// What to do next, after `elapsed_secs` seconds of ringing, with the stop
    /// flag at `stopped`: once stopped or past `MAX_RING_SECS`, restore the
    /// captured volume (once) and then finish; otherwise capture the volume
    /// first if the volume is to be forced and it has not been read yet, else
    /// play a burst, forcing the volume up first when asked to.
    pub fn next(&mut self, stopped: bool, elapsed_secs: u64) -> (r: RingStep)
        requires
            old(self)@.wf(),
        ensures
            final(self)@.wf(),
            (final(self)@, r) == old(self)@.next(stopped, elapsed_secs),
            stopped || elapsed_secs >= 300 ==> (r is Restore || r is Finish),
            !stopped && elapsed_secs < 300 && !old(self)@.ended ==> (r is Burst || r is Capture),
            r matches RingStep::Burst { maximize_volume } ==> maximize_volume
                == old(self)@.force_volume,
            r matches RingStep::Restore { volume } ==> old(self)@.captured == Some(volume)
                && !old(self)@.restored && final(self)@.restored,
            r is Capture ==> old(self)@.force_volume && !old(self)@.capture_done,
            r is Finish ==> (old(self)@.captured is Some ==> old(self)@.restored)
                && final(self)@.ended,
            r == (RingStep::Burst { maximize_volume: true }) ==> old(self)@.capture_done,
    {
        proof {
            lemma_no_burst_past_the_limit(old(self)@, stopped, elapsed_secs);
        }
        if self.ended {
            return RingStep::Finish;
        }
        if stopped || elapsed_secs >= MAX_RING_SECS {
            match self.captured {
                Some(v) => {
                    if !self.restored {
                        self.restored = true;
                        return RingStep::Restore { volume: v };
                    }
                },
                None => {},
            }
            self.ended = true;
            return RingStep::Finish;
        }
        if self.force_volume && !self.capture_done {
            RingStep::Capture
        } else {
            RingStep::Burst { maximize_volume: self.force_volume }
        }
    }

    /// Reports the volume state read after a `Capture` step (`None` where it
    /// could not be read, so that nothing is restored).
    pub fn captured(&mut self, volume: Option<SystemVolume>)
        requires
            old(self)@.wf(),
        ensures
            final(self)@.wf(),
            final(self)@ == old(self)@.record_capture(volume),
            old(self)@.force_volume && !old(self)@.capture_done && !old(self)@.ended
                ==> final(self)@.captured == volume && final(self)@.capture_done,
            !(old(self)@.force_volume && !old(self)@.capture_done && !old(self)@.ended)
                ==> final(self)@ == old(self)@,
    {
        if self.force_volume && !self.capture_done && !self.ended {
            self.capture_done = true;
            self.captured = volume;
        }
    }
}

// ---------------------------------------------------------------------------
// Laws
// ---------------------------------------------------------------------------

/// The volume is never forced up before it has been read: a burst that
/// forces the volume comes only once the capture is done.
pub proof fn lemma_capture_before_forcing(s: RingView, stopped: bool, elapsed_secs: u64)
    requires
        s.wf(),
    ensures
        s.next(stopped, elapsed_secs).1 == (RingStep::Burst { maximize_volume: true })
            ==> s.capture_done,
        s.next(stopped, elapsed_secs).1 is Burst ==> s.next(stopped, elapsed_secs).1
            == (RingStep::Burst { maximize_volume: s.force_volume }),
{
}

/// The ring plays no burst once stopped or once 300 seconds (five minutes)
/// have passed, however far past; before that, while it is not over, it
/// plays bursts (after reading the volume, when it forces it), forcing the
/// volume up exactly when the ring was asked to.
pub proof fn lemma_no_burst_past_the_limit(s: RingView, stopped: bool, elapsed_secs: u64)
    ensures
        stopped || elapsed_secs >= 300 ==> (s.next(stopped, elapsed_secs).1 is Restore || s.next(
            stopped,
            elapsed_secs,
        ).1 is Finish),
        !stopped && elapsed_secs < 300 && !s.ended ==> (s.next(stopped, elapsed_secs).1 is Burst
            || s.next(stopped, elapsed_secs).1 is Capture),
        s.next(stopped, elapsed_secs).1 matches RingStep::Burst { maximize_volume }
            ==> maximize_volume == s.force_volume,
{
}

/// Once stopped or past the safety limit, no burst is played: the session
/// restores what it captured (once, and exactly that) and finishes, and a
/// finished ring stays finished.
pub proof fn lemma_ring_winds_down(s: RingView, stopped: bool, elapsed_secs: u64)
    requires
        s.wf(),
        RingView::winding_down(stopped, elapsed_secs) || s.ended,
    ensures
        ({
            let (t, step) = s.next(stopped, elapsed_secs);
            &&& step is Restore || step is Finish
            &&& step matches RingStep::Restore { volume } ==> s.captured == Some(volume)
                && !s.restored && t.restored && !t.ended
            &&& step is Finish ==> t.ended
            &&& t.ended ==> t.next(stopped, elapsed_secs) == (t, RingStep::Finish)
            &&& t.wf()
        }),
{
}

/// A ring that captured the volume restores it before it is over: once the
/// session has captured `v`, it finishes only after a `Restore { volume: v }`
/// step, and the capture is never replaced.
pub proof fn lemma_captured_volume_is_restored(
    s: RingView,
    v: SystemVolume,
    stopped: bool,
    elapsed_secs: u64,
    again: Option<SystemVolume>,
)
    requires
        s.wf(),
        s.captured == Some(v),
        !s.restored,
    ensures
        s.next(stopped, elapsed_secs).1 is Finish ==> false,
        RingView::winding_down(stopped, elapsed_secs) ==> s.next(stopped, elapsed_secs).1
            == (RingStep::Restore { volume: v }),
        s.record_capture(again) == s,
{
}

/// Without forcing the volume nothing is read or restored: the ring plays
/// plain bursts until it winds down, then finishes.
pub proof fn lemma_plain_ring(s: RingView, stopped: bool, elapsed_secs: u64)
    requires
        s.wf(),
        !s.force_volume,
    ensures
        s.next(stopped, elapsed_secs).1 == (if s.ended || RingView::winding_down(
            stopped,
            elapsed_secs,
        ) {
            RingStep::Finish
        } else {
            RingStep::Burst { maximize_volume: false }
        }),
{
}

} // verus!
