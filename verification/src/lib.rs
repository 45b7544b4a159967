//! Loud Alarm: the verified core of a cross-platform alarm that beats a muted
//! system volume and sounds through Focus / Do Not Disturb.
//!
//! - `text`: the small string routines the rest builds on (decimal digits,
//!   ASCII case folding, Unicode trimming, `u8` parsing).
//! - `moment`: an instant with its UTC offset, and the calls into `chrono`.
//! - `schedule`: "next occurrence of HH:MM" and time-of-day validation.
//! - `siren`: the selectable alarm sounds.
//! - `volume`: the commands that set the system output volume, and what
//!   their outputs mean.
//! - `alarm`: the alarm engine as a state machine driven by clock ticks.
//! - `ring`: one ring, from reading the volume to restoring it.

pub mod text;
pub mod moment;
pub mod schedule;
pub mod siren;
pub mod volume;
pub mod alarm;
pub mod ring;
