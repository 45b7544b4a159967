use loud_alarm::volume::{
    apply_report, set_commands, snapshot, snapshot_level, snapshot_queries, snapshot_with_level,
    CommandOutcome, Platform, SystemVolume, VolumeCommand,
};

fn joined_args(commands: &[VolumeCommand]) -> String {
    commands
        .iter()
        .flat_map(|(_, args)| args.iter())
        .cloned()
        .collect::<Vec<_>>()
        .join(" ")
}

#[test]
fn clamps_level_to_100() {
    for platform in [Platform::MacOs, Platform::Linux] {
        let commands = set_commands(platform, 250, false);
        let joined = joined_args(&commands);
        assert!(joined.contains("100"));
        assert!(!joined.contains("250"));
    }
    assert!(set_commands(Platform::Other, 250, false).is_empty());
}

#[test]
fn macos_sets_volume_and_unmutes() {
    let commands = set_commands(Platform::MacOs, 80, false);
    assert_eq!(commands.len(), 1);
    let (program, args) = &commands[0];
    assert_eq!(program, "osascript");
    let joined = args.join(" ");
    assert!(joined.contains("set volume output volume 80"));
    assert!(joined.contains("set volume output muted false"));
}

#[test]
fn linux_sets_volume_and_unmutes() {
    let commands = set_commands(Platform::Linux, 80, false);
    let joined: String = commands
        .iter()
        .map(|(p, a)| format!("{p} {}", a.join(" ")))
        .collect::<Vec<_>>()
        .join(" | ");
    assert!(joined.contains("set-sink-volume"));
    assert!(joined.contains("80%"));
    assert!(joined.contains("set-sink-mute @DEFAULT_SINK@ 0"));
}

#[test]
fn exact_commands_per_platform() {
    let mac = set_commands(Platform::MacOs, 0, true);
    assert_eq!(
        mac,
        vec![(
            "osascript".to_string(),
            vec![
                "-e".to_string(),
                "set volume output muted true".to_string(),
                "-e".to_string(),
                "set volume output volume 0".to_string(),
            ],
        )]
    );
    let linux = set_commands(Platform::Linux, 100, true);
    assert_eq!(
        linux,
        vec![
            (
                "pactl".to_string(),
                vec!["set-sink-mute".to_string(), "@DEFAULT_SINK@".to_string(), "1".to_string()],
            ),
            (
                "pactl".to_string(),
                vec!["set-sink-volume".to_string(), "@DEFAULT_SINK@".to_string(), "100%".to_string()],
            ),
        ]
    );
    assert_eq!(set_commands(Platform::Linux, 101, false)[1].1[2], "100%");
    assert_eq!(set_commands(Platform::Linux, 7, false)[1].1[2], "7%");
    assert_eq!(set_commands(Platform::Linux, 255, false)[1].1[2], "100%");
}

#[test]
fn snapshot_queries_per_platform() {
    let mac = snapshot_queries(Platform::MacOs);
    assert_eq!(mac.len(), 2);
    assert_eq!(mac[0].0, "osascript");
    assert_eq!(mac[0].1, vec!["-e".to_string(), "output volume of (get volume settings)".to_string()]);
    assert_eq!(mac[1].1, vec!["-e".to_string(), "output muted of (get volume settings)".to_string()]);
    assert!(snapshot_queries(Platform::Linux).is_empty());
    assert!(snapshot_queries(Platform::Other).is_empty());
}

#[test]
fn snapshot_reads_osascript_output() {
    assert_eq!(
        snapshot(Platform::MacOs, Some("42\n"), Some("false\n")),
        Some(SystemVolume { level: 42, muted: false })
    );
    assert_eq!(
        snapshot(Platform::MacOs, Some("  +100 "), Some(" TRUE\n")),
        Some(SystemVolume { level: 100, muted: true })
    );
    assert_eq!(
        snapshot(Platform::MacOs, Some("007"), Some("yes")),
        Some(SystemVolume { level: 7, muted: false })
    );
    assert_eq!(snapshot(Platform::MacOs, Some("256"), Some("true")), None);
    assert_eq!(snapshot(Platform::MacOs, Some("-1"), Some("true")), None);
    assert_eq!(snapshot(Platform::MacOs, Some("+"), Some("true")), None);
    assert_eq!(snapshot(Platform::MacOs, Some(""), Some("true")), None);
    assert_eq!(snapshot(Platform::MacOs, Some("4 2"), Some("true")), None);
    assert_eq!(snapshot(Platform::MacOs, None, Some("true")), None);
    assert_eq!(snapshot(Platform::MacOs, Some("42"), None), None);
    assert_eq!(snapshot(Platform::Linux, Some("42"), Some("true")), None);
    assert_eq!(snapshot(Platform::Other, Some("42"), Some("true")), None);
}

#[test]
fn snapshot_agrees_with_std_parsing() {
    for text in ["0", "255", "256", "+7", "-0", "+", "", "1a", "99999999999", "0012"] {
        let expected = text.trim().parse::<u8>().ok();
        let got = snapshot(Platform::MacOs, Some(text), Some("false")).map(|v| v.level);
        assert_eq!(got, expected, "{text:?}");
    }
    for text in ["true", "True", "TRUE", "tRuE\t", "\u{3000}true\u{85}", "truex", "t rue", "false"] {
        let expected = text.trim().eq_ignore_ascii_case("true");
        let got = snapshot(Platform::MacOs, Some("1"), Some(text)).map(|v| v.muted);
        assert_eq!(got, Some(expected), "{text:?}");
    }
}

#[test]
fn apply_report_joins_errors_in_order() {
    let commands = set_commands(Platform::Linux, 80, false);
    let all_ok = vec![CommandOutcome::Succeeded, CommandOutcome::Succeeded];
    assert_eq!(apply_report(&commands, &all_ok), Ok(()));
    let mixed = vec![
        CommandOutcome::Failed {
            status: "exit status: 1".to_string(),
            stderr: "  no sink \n".to_string(),
        },
        CommandOutcome::NotRun { error: "No such file or directory".to_string() },
    ];
    assert_eq!(
        apply_report(&commands, &mixed),
        Err("pactl exited with exit status: 1: no sink; failed to run pactl: No such file or directory"
            .to_string())
    );
    let one = vec![
        CommandOutcome::Succeeded,
        CommandOutcome::NotRun { error: "denied".to_string() },
    ];
    assert_eq!(apply_report(&commands, &one), Err("failed to run pactl: denied".to_string()));
    assert_eq!(apply_report(&Vec::new(), &Vec::new()), Ok(()));
}

#[test]
fn snapshot_reads_the_level_before_the_mute_state() {
    assert_eq!(snapshot_level(Platform::MacOs, Some(" 64\n")), Some(64));
    assert_eq!(snapshot_level(Platform::MacOs, Some("loud")), None);
    assert_eq!(snapshot_level(Platform::MacOs, None), None);
    assert_eq!(snapshot_level(Platform::Linux, Some("64")), None);
    assert_eq!(snapshot_level(Platform::Other, Some("64")), None);
    assert_eq!(
        snapshot_with_level(64, Some("True\n")),
        Some(SystemVolume { level: 64, muted: true })
    );
    assert_eq!(
        snapshot_with_level(64, Some("missing value")),
        Some(SystemVolume { level: 64, muted: false })
    );
    assert_eq!(snapshot_with_level(64, None), None);
    // A level that does not parse makes the mute output irrelevant.
    assert_eq!(snapshot(Platform::MacOs, Some("x"), Some("true")), None);
    assert_eq!(snapshot(Platform::MacOs, Some("x"), None), None);
}

#[test]
fn restoring_a_captured_volume_sets_it_exactly() {
    let saved = SystemVolume { level: 35, muted: true };
    let mac = set_commands(Platform::MacOs, saved.level, saved.muted);
    assert_eq!(mac[0].1[1], "set volume output muted true");
    assert_eq!(mac[0].1[3], "set volume output volume 35");
    let linux = set_commands(Platform::Linux, saved.level, saved.muted);
    assert_eq!(linux[0].1[2], "1");
    assert_eq!(linux[1].1[2], "35%");
}
