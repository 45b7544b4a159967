# loud_alarm

The verified core of Loud Alarm, a desktop alarm that rings loudly even when
the machine is muted and sounds through Focus / Do Not Disturb.

- `src/` is the library, verified with Verus:
  - `text.rs`: decimal rendering, ASCII case folding, Unicode trimming and
    `u8` parsing, each against the meaning std gives it;
  - `moment.rs`: `Moment` (UNIX timestamp, nanoseconds, UTC offset) and the
    calls into `chrono` that move a moment along its local clock;
  - `schedule.rs`: the next occurrence of a time of day (at the offset of
    the moment of arming, or at the offset the local time zone has then),
    the countdown to it, and time-of-day validation;
  - `siren.rs`: the selectable sounds and how a name selects one;
  - `volume.rs`: the commands that set or read the system volume on each
    platform, what their outputs mean, and how their outcomes are reported;
  - `alarm.rs`: the alarm engine as a state machine (arm, disarm, stop, the
    scheduler's tick, the end of a ring);
  - `ring.rs`: one ring: read the volume before forcing it, bursts until
    stopped or five minutes are up, then restore what was read.
- `tests/` exercises the library on concrete values.
- `app/` is the desktop shell: the Tauri commands, the wall clock, the
  scheduler and ring threads, audio output with `rodio` (including the
  floating-point tone synthesis), and running the volume commands.
