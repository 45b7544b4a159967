//! Cross-platform system-volume control with snapshot/restore.
//!
//! There is no public macOS API that lets a normal app play *through* a
//! hardware mute or *above* the system volume without changing it. So to ring
//! loudly even when the machine is muted, the alarm overrides the volume with
//! external commands. This module decides which commands to run, what their
//! outputs say about the current volume, and how their outcomes are reported;
//! running them is left to the caller.

use crate::text::{
    decimal, eq_ignore_ascii_case, parse_u8, parse_u8_spec, push_decimal, trim, trimmed,
    ascii_case_insensitive_eq,
};
use vstd::prelude::*;
use vstd::string::*;

verus! {

/// A single external command to run, as (program, args).
pub type VolumeCommand = (String, Vec<String>);

/// The platforms whose volume control differs.
#[derive(Clone, Copy, Debug, PartialEq, Eq, Structural)]
pub enum Platform {
    /// macOS: `osascript`.
    MacOs,
    /// Linux: PulseAudio / PipeWire through `pactl`.
    Linux,
    /// Anything else: no absolute volume control yet.
    Other,
}

/// A captured system output volume state, used to restore after ringing.
#[derive(Clone, Copy, Debug, PartialEq, Eq, Structural)]
pub struct SystemVolume {
    pub level: u8,
    pub muted: bool,
}

/// How running one command went.
pub enum CommandOutcome {
    /// It ran and exited successfully.
    Succeeded,
    /// It ran and exited unsuccessfully, with this exit status (as text) and
    /// this standard error output.
    Failed { status: String, stderr: String },
    /// It could not be started, for this reason.
    NotRun { error: String },
}

/// A command as text: the program and its arguments.
pub open spec fn command_view(c: VolumeCommand) -> (Seq<char>, Seq<Seq<char>>) {
    (c.0@, c.1@.map_values(|a: String| a@))
}

/// Commands as text.
pub open spec fn commands_view(cs: Seq<VolumeCommand>) -> Seq<(Seq<char>, Seq<Seq<char>>)> {
    cs.map_values(|c: VolumeCommand| command_view(c))
}

/// The level actually set: at most 100.
pub open spec fn clamp_level(level: u8) -> nat {
    if level > 100 {
        100
    } else {
        level as nat
    }
}

/// `true` or `false`, as `Display` writes a `bool`.
pub open spec fn bool_text(b: bool) -> Seq<char> {
    if b {
        "true"@
    } else {
        "false"@
    }
}

/// The commands that set the output volume to `level` (clamped to 100) and
/// the mute state to `muted` on `platform`.
pub open spec fn set_commands_spec(platform: Platform, level: u8, muted: bool) -> Seq<
    (Seq<char>, Seq<Seq<char>>),
> {
    let l = decimal(clamp_level(level));
    match platform {
        Platform::MacOs => seq![
            (
                "osascript"@,
                seq![
                    "-e"@,
                    "set volume output muted "@ + bool_text(muted),
                    "-e"@,
                    "set volume output volume "@ + l,
                ],
            ),
        ],
        Platform::Linux => seq![
            (
                "pactl"@,
                seq!["set-sink-mute"@, "@DEFAULT_SINK@"@, if muted { "1"@ } else { "0"@ }],
            ),
            ("pactl"@, seq!["set-sink-volume"@, "@DEFAULT_SINK@"@, l + "%"@]),
        ],
        Platform::Other => seq![],
    }
}

/// The script that reads the output volume level on macOS.
pub open spec fn level_script() -> Seq<char> {
    "output volume of (get volume settings)"@
}

/// The script that reads the output mute state on macOS.
pub open spec fn muted_script() -> Seq<char> {
    "output muted of (get volume settings)"@
}

/// The commands whose outputs `snapshot` reads, in order: level, then mute.
pub open spec fn snapshot_queries_spec(platform: Platform) -> Seq<(Seq<char>, Seq<Seq<char>>)> {
    match platform {
        Platform::MacOs => seq![
            ("osascript"@, seq!["-e"@, level_script()]),
            ("osascript"@, seq!["-e"@, muted_script()]),
        ],
        _ => seq![],
    }
}

/// The level that the level query's output gives: on macOS the output,
/// trimmed, must parse as a `u8`; elsewhere nothing is queried. Only when this
/// is `Some` is the mute state queried at all.
pub open spec fn snapshot_level_spec(platform: Platform, level_output: Option<Seq<char>>) -> Option<
    u8,
> {
    match (platform, level_output) {
        (Platform::MacOs, Some(l)) => parse_u8_spec(trim(l)),
        _ => None,
    }
}

/// The volume state once the level is known: the mute query's output,
/// trimmed, reads as muted exactly when it is `true` in any case; `None`
/// when the mute query could not run.
pub open spec fn snapshot_with_level_spec(level: u8, muted_output: Option<Seq<char>>) -> Option<
    SystemVolume,
> {
    match muted_output {
        Some(m) => Some(SystemVolume { level, muted: eq_ignore_ascii_case(trim(m), "true"@) }),
        None => None,
    }
}

/// The volume state that the query outputs describe: the level first, and
/// the mute state only once the level has been read.
pub open spec fn snapshot_spec(
    platform: Platform,
    level_output: Option<Seq<char>>,
    muted_output: Option<Seq<char>>,
) -> Option<SystemVolume> {
    match snapshot_level_spec(platform, level_output) {
        Some(level) => snapshot_with_level_spec(level, muted_output),
        None => None,
    }
}

/// A text argument as a sequence of characters.
pub open spec fn opt_view(s: Option<&str>) -> Option<Seq<char>> {
    match s {
        Some(t) => Some(t@),
        None => None,
    }
}

/// The mute state is asked for only after the level has been read: when the
/// level query fails or its output does not parse, the snapshot is `None`
/// whatever the mute query would have said, so it need not run.
pub proof fn lemma_mute_query_follows_level(
    platform: Platform,
    level_output: Option<Seq<char>>,
    muted_a: Option<Seq<char>>,
    muted_b: Option<Seq<char>>,
)
    ensures
        snapshot_level_spec(platform, level_output) is None ==> snapshot_spec(
            platform,
            level_output,
            muted_a,
        ) is None && snapshot_spec(platform, level_output, muted_b) is None,
        snapshot_level_spec(platform, level_output) matches Some(level) ==> snapshot_spec(
            platform,
            level_output,
            muted_a,
        ) == snapshot_with_level_spec(level, muted_a),
{
}

/// The error that one command's outcome contributes, if any.
pub open spec fn outcome_error(program: Seq<char>, outcome: CommandOutcome) -> Option<Seq<char>> {
    match outcome {
        CommandOutcome::Succeeded => None,
        CommandOutcome::Failed { status, stderr } => Some(
            program + " exited with "@ + status@ + ": "@ + trim(stderr@),
        ),
        CommandOutcome::NotRun { error } => Some("failed to run "@ + program + ": "@ + error@),
    }
}

/// The errors of the first `n` commands, in order.
pub open spec fn outcome_errors(
    programs: Seq<Seq<char>>,
    outcomes: Seq<CommandOutcome>,
    n: nat,
) -> Seq<Seq<char>>
    decreases n,
{
    if n == 0 {
        seq![]
    } else {
        let before = outcome_errors(programs, outcomes, (n - 1) as nat);
        match outcome_error(programs[n - 1], outcomes[n - 1]) {
            Some(e) => before.push(e),
            None => before,
        }
    }
}

/// `parts` joined with `sep` between neighbours.
pub open spec fn join(parts: Seq<Seq<char>>, sep: Seq<char>) -> Seq<char>
    decreases parts.len(),
{
    if parts.len() == 0 {
        seq![]
    } else if parts.len() == 1 {
        parts[0]
    } else {
        join(parts.drop_last(), sep) + sep + parts.last()
    }
}

/// The report on running commands: `Ok` when none failed, else every error
/// in order, joined with `"; "`.
pub open spec fn apply_report_spec(programs: Seq<Seq<char>>, outcomes: Seq<CommandOutcome>) -> Result<
    (),
    Seq<char>,
> {
    let errors = outcome_errors(programs, outcomes, outcomes.len());
    if errors.len() == 0 {
        Ok(())
    } else {
        Err(join(errors, "; "@))
    }
}

/// The volume never goes above 100: any larger level sets the same commands
/// as 100, and the level written into them is at most 100.
pub proof fn lemma_level_is_clamped(platform: Platform, level: u8, muted: bool)
    ensures
        clamp_level(level) <= 100,
        level >= 100 ==> set_commands_spec(platform, level, muted) == set_commands_spec(
            platform,
            100,
            muted,
        ),
        level <= 100 ==> clamp_level(level) == level,
{
}

/// The errors of the first `n` commands are none exactly when each of those
/// commands succeeded.
proof fn lemma_no_errors_iff_all_succeeded(
    programs: Seq<Seq<char>>,
    outcomes: Seq<CommandOutcome>,
    n: nat,
)
    requires
        n <= outcomes.len(),
    ensures
        outcome_errors(programs, outcomes, n).len() == 0 <==> forall|i: int|
            0 <= i < n ==> #[trigger] outcomes[i] is Succeeded,
    decreases n,
{
    if n > 0 {
        lemma_no_errors_iff_all_succeeded(programs, outcomes, (n - 1) as nat);
        if outcome_errors(programs, outcomes, n).len() == 0 {
            assert forall|i: int| 0 <= i < n implies #[trigger] outcomes[i] is Succeeded by {
                if i < n - 1 {
                } else {
                    assert(outcome_error(programs[n - 1], outcomes[n - 1]) is None);
                }
            }
        }
    }
}

/// Running commands is reported as success exactly when every one of them
/// succeeded; a single failure anywhere makes the report an error.
pub proof fn lemma_report_ok_iff_all_succeeded(programs: Seq<Seq<char>>, outcomes: Seq<CommandOutcome>)
    ensures
        apply_report_spec(programs, outcomes) is Ok <==> forall|i: int|
            0 <= i < outcomes.len() ==> #[trigger] outcomes[i] is Succeeded,
{
    lemma_no_errors_iff_all_succeeded(programs, outcomes, outcomes.len());
}

/// The commands, read as text: on macOS one `osascript` call that sets the
/// mute state (`true`/`false`) and then the volume, the level capped at 100;
/// on Linux a `pactl` call that sets the mute state (`1`/`0`) and one that
/// sets the volume in percent, capped at 100; elsewhere none.
pub proof fn lemma_commands_as_text(platform: Platform, level: u8, muted: bool)
    ensures
        ({
            let c = set_commands_spec(platform, level, muted);
            let l = decimal(
                if level > 100 {
                    100
                } else {
                    level as nat
                },
            );
            &&& platform == Platform::MacOs ==> c.len() == 1 && c[0].0 == "osascript"@ && c[0].1.len()
                == 4 && c[0].1[1] == "set volume output muted "@ + (if muted {
                "true"@
            } else {
                "false"@
            }) && c[0].1[3] == "set volume output volume "@ + l
            &&& platform == Platform::Linux ==> c.len() == 2 && c[0].0 == "pactl"@ && c[1].0
                == "pactl"@ && c[0].1.len() == 3 && c[1].1.len() == 3 && c[0].1[0]
                == "set-sink-mute"@ && c[0].1[2] == (if muted {
                "1"@
            } else {
                "0"@
            }) && c[1].1[0] == "set-sink-volume"@ && c[1].1[2] == l + "%"@
            &&& platform == Platform::Other ==> c.len() == 0
        }),
{
}

/// A `String` holding `s`.
fn text(s: &str) -> (r: String)
    ensures
        r@ == s@,
{
    String::from_str(s)
}

/// Commands that set the system output volume to `level` (0-100; larger
/// values are clamped to 100) and the mute state to `muted`.
pub fn set_commands(platform: Platform, level: u8, muted: bool) -> (r: Vec<VolumeCommand>)
    ensures
        commands_view(r@) == set_commands_spec(platform, level, muted),
        platform == Platform::MacOs ==> {
            &&& r@.len() == 1
            &&& r@[0].0@ == "osascript"@
            &&& r@[0].1@.len() == 4
            &&& r@[0].1@[1]@ == "set volume output muted "@ + (if muted {
                "true"@
            } else {
                "false"@
            })
            &&& r@[0].1@[3]@ == "set volume output volume "@ + decimal(
                if level > 100 {
                    100
                } else {
                    level as nat
                },
            )
        },
        platform == Platform::Linux ==> {
            &&& r@.len() == 2
            &&& r@[0].0@ == "pactl"@ && r@[1].0@ == "pactl"@
            &&& r@[0].1@.len() == 3 && r@[1].1@.len() == 3
            &&& r@[0].1@[0]@ == "set-sink-mute"@
            &&& r@[0].1@[2]@ == (if muted {
                "1"@
            } else {
                "0"@
            })
            &&& r@[1].1@[0]@ == "set-sink-volume"@
            &&& r@[1].1@[2]@ == decimal(
                if level > 100 {
                    100
                } else {
                    level as nat
                },
            ) + "%"@
        },
        platform == Platform::Other ==> r@.len() == 0,
{
    proof {
        lemma_commands_as_text(platform, level, muted);
    }
    let level: u8 = if level > 100 {
        100
    } else {
        level
    };
    match platform {
        Platform::MacOs => {
            let mut muted_script = text("set volume output muted ");
            muted_script.append(if muted {
                "true"
            } else {
                "false"
            });
            let mut volume_script = text("set volume output volume ");
            push_decimal(&mut volume_script, level as u32);
            let args = vec![text("-e"), muted_script, text("-e"), volume_script];
            let r = vec![(text("osascript"), args)];
            assert(commands_view(r@) =~= set_commands_spec(platform, level, muted)) by {
                assert(command_view(r@[0]).1 =~= set_commands_spec(platform, level, muted)[0].1);
            }
            r
        },
        Platform::Linux => {
            let mut percent = String::new();
            push_decimal(&mut percent, level as u32);
            percent.append("%");
            let mute_args = vec![
                text("set-sink-mute"),
                text("@DEFAULT_SINK@"),
                text(
                    if muted {
                        "1"
                    } else {
                        "0"
                    },
                ),
            ];
            let volume_args = vec![text("set-sink-volume"), text("@DEFAULT_SINK@"), percent];
            let r = vec![(text("pactl"), mute_args), (text("pactl"), volume_args)];
            assert(commands_view(r@) =~= set_commands_spec(platform, level, muted)) by {
                assert(command_view(r@[0]).1 =~= set_commands_spec(platform, level, muted)[0].1);
                assert(command_view(r@[1]).1 =~= set_commands_spec(platform, level, muted)[1].1);
            }
            r
        },
        Platform::Other => {
            let r: Vec<VolumeCommand> = Vec::new();
            assert(commands_view(r@) =~= set_commands_spec(platform, level, muted));
            r
        },
    }
}

/// The commands that read the current volume state: on macOS one query for
/// the level and one for the mute state; none elsewhere.
pub fn snapshot_queries(platform: Platform) -> (r: Vec<VolumeCommand>)
    ensures
        commands_view(r@) == snapshot_queries_spec(platform),
{
    match platform {
        Platform::MacOs => {
            let level = vec![text("-e"), text("output volume of (get volume settings)")];
            let muted = vec![text("-e"), text("output muted of (get volume settings)")];
            let r = vec![(text("osascript"), level), (text("osascript"), muted)];
            assert(commands_view(r@) =~= snapshot_queries_spec(platform)) by {
                assert(command_view(r@[0]).1 =~= snapshot_queries_spec(platform)[0].1);
                assert(command_view(r@[1]).1 =~= snapshot_queries_spec(platform)[1].1);
            }
            r
        },
        _ => {
            let r: Vec<VolumeCommand> = Vec::new();
            assert(commands_view(r@) =~= snapshot_queries_spec(platform));
            r
        },
    }
}

/// First step of reading the volume state: the level, from the output of the
/// level query (`snapshot_queries(platform)[0]`; `None` where it could not
/// run). `None` means there is nothing to restore, and the mute query
/// (`snapshot_queries(platform)[1]`) is not run.
pub fn snapshot_level(platform: Platform, level_output: Option<&str>) -> (r: Option<u8>)
    ensures
        r == snapshot_level_spec(platform, opt_view(level_output)),
{
    match (platform, level_output) {
        (Platform::MacOs, Some(l)) => {
            let level_text = trimmed(l);
            parse_u8(level_text.as_str())
        },
        _ => None,
    }
}

/// Second step of reading the volume state, once `snapshot_level` gave
/// `level`: the mute state, from the output of the mute query (`None` where
/// it could not run).
pub fn snapshot_with_level(level: u8, muted_output: Option<&str>) -> (r: Option<SystemVolume>)
    ensures
        r == snapshot_with_level_spec(level, opt_view(muted_output)),
{
    match muted_output {
        Some(m) => {
            let muted_text = trimmed(m);
            let muted = ascii_case_insensitive_eq(muted_text.as_str(), "true");
            Some(SystemVolume { level, muted })
        },
        None => None,
    }
}

/// The current system output volume and mute state, read from the outputs of
/// the two `snapshot_queries` (`None` where a query could not run); the mute
/// output counts only once the level has been read. `None` on platforms where
/// it cannot be queried, so the caller skips restoring.
pub fn snapshot(platform: Platform, level_output: Option<&str>, muted_output: Option<&str>) -> (r:
    Option<SystemVolume>)
    ensures
        r == snapshot_spec(platform, opt_view(level_output), opt_view(muted_output)),
{
    match snapshot_level(platform, level_output) {
        Some(level) => snapshot_with_level(level, muted_output),
        None => None,
    }
}

/// `parts` joined with `sep` between neighbours.
pub fn join_strings(parts: &Vec<String>, sep: &str) -> (r: String)
    ensures
        r@ == join(parts@.map_values(|p: String| p@), sep@),
{
    let ghost views = parts@.map_values(|p: String| p@);
    let mut r = String::new();
    let mut i: usize = 0;
    while i < parts.len()
        invariant
            views == parts@.map_values(|p: String| p@),
            i <= parts@.len(),
            r@ == join(views.subrange(0, i as int), sep@),
        decreases parts.len() - i,
    {
        if i > 0 {
            r.append(sep);
        }
        r.append(parts[i].as_str());
        i = i + 1;
        assert(views.subrange(0, i as int).drop_last() =~= views.subrange(0, i - 1));
    }
    assert(views.subrange(0, parts@.len() as int) =~= views);
    r
}

/// The report on running `commands`, given how each of them went
/// (`outcomes[i]` for `commands[i]`): `Ok(())` when every command succeeded,
/// else the errors, in order, joined with `"; "`: `<program> exited with
/// <status>: <stderr, trimmed>` for a command that failed and `failed to run
/// <program>: <error>` for one that could not start. A failure never stops
/// the rest from being tried.
pub fn apply_report(commands: &Vec<VolumeCommand>, outcomes: &Vec<CommandOutcome>) -> (r: Result<
    (),
    String,
>)
    requires
        commands@.len() == outcomes@.len(),
    ensures
        ({
            let spec = apply_report_spec(commands_view(commands@).map_values(|c: (Seq<char>, Seq<Seq<char>>)| c.0), outcomes@);
            &&& r is Ok <==> spec is Ok
            &&& r matches Err(e) ==> spec == Err::<(), Seq<char>>(e@)
        }),
        r is Ok <==> forall|i: int| 0 <= i < outcomes@.len() ==> #[trigger] outcomes@[i] is Succeeded,
{
    proof {
        lemma_report_ok_iff_all_succeeded(
            commands_view(commands@).map_values(|c: (Seq<char>, Seq<Seq<char>>)| c.0),
            outcomes@,
        );
    }
    let ghost programs = commands_view(commands@).map_values(|c: (Seq<char>, Seq<Seq<char>>)| c.0);
    let mut errors: Vec<String> = Vec::new();
    let mut i: usize = 0;
    while i < outcomes.len()
        invariant
            commands@.len() == outcomes@.len(),
            programs == commands_view(commands@).map_values(|c: (Seq<char>, Seq<Seq<char>>)| c.0),
            i <= outcomes@.len(),
            errors@.map_values(|p: String| p@) == outcome_errors(programs, outcomes@, i as nat),
        decreases outcomes.len() - i,
    {
        let program = commands[i].0.as_str();
        assert(programs[i as int] == program@);
        match &outcomes[i] {
            CommandOutcome::Succeeded => {},
            CommandOutcome::Failed { status, stderr } => {
                let mut e = text(program);
                e.append(" exited with ");
                e.append(status.as_str());
                e.append(": ");
                let detail = trimmed(stderr.as_str());
                e.append(detail.as_str());
                errors.push(e);
            },
            CommandOutcome::NotRun { error } => {
                let mut e = text("failed to run ");
                e.append(program);
                e.append(": ");
                e.append(error.as_str());
                errors.push(e);
            },
        }
        i = i + 1;
        assert(errors@.map_values(|p: String| p@) =~= outcome_errors(programs, outcomes@, i as nat));
    }
    if errors.len() == 0 {
        Ok(())
    } else {
        Err(join_strings(&errors, "; "))
    }
}

} // verus!
