use battery_limiter::battery_level::{presets, BatteryLevel};
use battery_limiter::decimal::{decimal_text, parse_u8, trimmed_bounds};
use battery_limiter::failure::Failure;
use battery_limiter::protocol::{
    format_cli_args, interpret_escalation, Action, BatteryLimiterArgs, PrivilegedRun, Report, Status,
    StepResult,
};
use battery_limiter::service::BatteryLimiterService;
use battery_limiter::{SERVICE_FILE, THRESHOLD_FILE};

fn run_of(percentage: u8, persist: bool) -> PrivilegedRun {
    PrivilegedRun::new(&BatteryLimiterArgs { persist, percentage })
}

fn expected_unit(threshold: &str) -> String {
    let mut s = String::from("[Unit]\nDescription=Set the battery charge threshold\n");
    let targets = [
        "hibernate.target",
        "hybrid-sleep.target",
        "multi-user.target",
        "suspend.target",
        "suspend-then-hibernate.target",
    ];
    for t in targets {
        s.push_str(&format!("Before={}\n", t));
    }
    s.push_str(&format!(
        "\n[Service]\nType=oneshot\nExecStart=/bin/sh -c \"echo {} > {}\"\nRemainAfterExit=yes\n\n[Install]\n",
        threshold, THRESHOLD_FILE
    ));
    for t in targets {
        s.push_str(&format!("WantedBy={}\n", t));
    }
    s
}

#[test]
fn presets_keep_their_percentage() {
    assert_eq!(BatteryLevel::from_raw_percentage(60), BatteryLevel::Low);
    assert_eq!(BatteryLevel::from_raw_percentage(80), BatteryLevel::Medium);
    assert_eq!(BatteryLevel::from_raw_percentage(100), BatteryLevel::Full);
    for v in [60u8, 80, 100] {
        let level = BatteryLevel::from_raw_percentage(v);
        assert_eq!(level.get_percentage(), v);
        assert!(!matches!(level, BatteryLevel::Custom(_)));
    }
}

#[test]
fn other_values_under_100_are_custom() {
    for v in 0u8..100 {
        if v == 60 || v == 80 {
            continue;
        }
        let level = BatteryLevel::from_raw_percentage(v);
        assert_eq!(level, BatteryLevel::Custom(v));
        assert_eq!(level.get_percentage(), v);
    }
}

#[test]
fn values_from_100_up_are_full() {
    for v in 100u8..=255 {
        let level = BatteryLevel::from_raw_percentage(v);
        assert_eq!(level, BatteryLevel::Full);
        assert_eq!(level.get_percentage(), 100);
    }
}

#[test]
fn from_u8_matches_raw_percentage() {
    assert_eq!(BatteryLevel::from(60u8), BatteryLevel::Low);
    assert_eq!(BatteryLevel::from(42u8), BatteryLevel::Custom(42));
    assert_eq!(BatteryLevel::from(200u8), BatteryLevel::Full);
}

#[test]
fn custom_percentage_is_clamped() {
    assert_eq!(BatteryLevel::Custom(150).get_percentage(), 100);
    assert_eq!(BatteryLevel::Custom(0).get_percentage(), 0);
}

#[test]
fn icon_names_by_bucket() {
    let cases: [(u8, &str); 14] = [
        (0, "battery-level-0"),
        (10, "battery-level-0"),
        (11, "battery-level-10"),
        (25, "battery-level-20"),
        (31, "battery-level-30"),
        (50, "battery-level-40"),
        (60, "battery-level-50"),
        (61, "battery-level-60"),
        (80, "battery-level-70"),
        (81, "battery-level-80"),
        (91, "battery-level-90"),
        (99, "battery-level-90"),
        (100, "battery-level-100"),
        (255, "battery-level-100"),
    ];
    for (v, name) in cases {
        assert_eq!(BatteryLevel::from_raw_percentage(v).get_gtk_icon_name(), name);
    }
    assert_eq!(BatteryLevel::Custom(120).get_gtk_icon_name(), "battery-level-100");
}

#[test]
fn decimal_text_of_bytes() {
    assert_eq!(decimal_text(0), "0");
    assert_eq!(decimal_text(7), "7");
    assert_eq!(decimal_text(42), "42");
    assert_eq!(decimal_text(100), "100");
    assert_eq!(decimal_text(255), "255");
}

#[test]
fn parse_u8_accepts_trimmed_digits() {
    assert_eq!(parse_u8("80"), Some(80));
    assert_eq!(parse_u8(" 80\n"), Some(80));
    assert_eq!(parse_u8("007"), Some(7));
    assert_eq!(parse_u8("255"), Some(255));
    assert_eq!(parse_u8("256"), None);
    assert_eq!(parse_u8("1000"), None);
    assert_eq!(parse_u8(""), None);
    assert_eq!(parse_u8(" \n"), None);
    assert_eq!(parse_u8("8 0"), None);
    assert_eq!(parse_u8("-5"), None);
    assert_eq!(parse_u8("abc"), None);
    assert_eq!(parse_u8("+80"), Some(80));
    assert_eq!(parse_u8(" +7\n"), Some(7));
    assert_eq!(parse_u8("+"), None);
    assert_eq!(parse_u8("++8"), None);
    assert_eq!(parse_u8("8+"), None);
    assert_eq!(parse_u8("80\u{a0}"), Some(80));
    assert_eq!(parse_u8("\u{3000}42\u{2028}\u{85}"), Some(42));
    assert_eq!(parse_u8("4\u{a0}2"), None);
}

#[test]
fn parse_u8_agrees_with_std() {
    let samples = [
        "80", " 80\n", "+80", "+", "-1", "", "255", "256", "0", "00", "\u{a0}60\u{2009}",
        "\u{1680}+99\u{205f}", "1 2", "x", "+-1", "\u{200b}5",
    ];
    for s in samples {
        assert_eq!(parse_u8(s), s.trim().parse::<u8>().ok(), "input {:?}", s);
    }
}

#[test]
fn trimmed_bounds_skip_whitespace() {
    assert_eq!(trimmed_bounds("  ab \n"), (2, 4));
    assert_eq!(trimmed_bounds("ab"), (0, 2));
    assert_eq!(trimmed_bounds("   "), (3, 3));
    assert_eq!(trimmed_bounds("\u{a0}ab\u{3000}"), (1, 3));
}

#[test]
fn parse_threshold_reads_sysfs_text() {
    assert_eq!(BatteryLevel::parse_threshold("80\n"), Ok(BatteryLevel::Medium));
    assert_eq!(BatteryLevel::parse_threshold("42"), Ok(BatteryLevel::Custom(42)));
    assert_eq!(BatteryLevel::parse_threshold("150\n"), Ok(BatteryLevel::Full));
    assert_eq!(BatteryLevel::parse_threshold("garbage"), Err(Failure::DataCorruption));
    assert_eq!(BatteryLevel::parse_threshold(""), Err(Failure::DataCorruption));
    assert_eq!(BatteryLevel::parse_threshold("300"), Err(Failure::DataCorruption));
    assert_eq!(BatteryLevel::parse_threshold("+80"), Ok(BatteryLevel::Medium));
    assert_eq!(BatteryLevel::parse_threshold("80\u{a0}"), Ok(BatteryLevel::Medium));
}

#[test]
fn threshold_text_reads_back() {
    for v in 0u8..=255 {
        let level = BatteryLevel::from_raw_percentage(v);
        let text = level.threshold_text();
        let back = BatteryLevel::parse_threshold(&text).unwrap();
        assert_eq!(back.get_percentage(), level.get_percentage());
    }
    assert_eq!(BatteryLevel::Medium.threshold_text(), "80");
}

#[test]
fn preset_positions() {
    let list = presets();
    assert_eq!(list, vec![BatteryLevel::Low, BatteryLevel::Medium, BatteryLevel::Full]);
    assert_eq!(BatteryLevel::Low.preset_index(), Some(0));
    assert_eq!(BatteryLevel::Custom(80).preset_index(), Some(1));
    assert_eq!(BatteryLevel::Custom(200).preset_index(), Some(2));
    assert_eq!(BatteryLevel::Custom(55).preset_index(), None);
}

#[test]
fn unit_file_for_80() {
    let text = BatteryLimiterService::new(80).render();
    assert_eq!(text, expected_unit("80"));
    let before: Vec<&str> = text.lines().filter(|l| l.starts_with("Before=")).collect();
    let wanted: Vec<&str> = text.lines().filter(|l| l.starts_with("WantedBy=")).collect();
    let exec: Vec<&str> = text.lines().filter(|l| l.starts_with("ExecStart=")).collect();
    assert_eq!(
        before,
        vec![
            "Before=hibernate.target",
            "Before=hybrid-sleep.target",
            "Before=multi-user.target",
            "Before=suspend.target",
            "Before=suspend-then-hibernate.target",
        ]
    );
    assert_eq!(
        wanted,
        vec![
            "WantedBy=hibernate.target",
            "WantedBy=hybrid-sleep.target",
            "WantedBy=multi-user.target",
            "WantedBy=suspend.target",
            "WantedBy=suspend-then-hibernate.target",
        ]
    );
    assert_eq!(exec.len(), 1);
    assert!(exec[0].contains(" 80 "));
    assert!(exec[0].contains(THRESHOLD_FILE));
}

#[test]
fn default_unit_has_zero_threshold() {
    let text = BatteryLimiterService::default().render();
    assert_eq!(text, expected_unit("0"));
}

#[test]
fn unit_file_identical_when_persisted_twice() {
    let first = BatteryLimiterService::new(60).render();
    let second = BatteryLimiterService::new(60).render();
    assert_eq!(first.as_bytes(), second.as_bytes());

    let mut a = run_of(60, true);
    let mut b = run_of(60, true);
    a.advance(StepResult::Done);
    b.advance(StepResult::Done);
    match (a.next_action(), b.next_action()) {
        (Action::WriteUnitFile(x), Action::WriteUnitFile(y)) => assert_eq!(x, y),
        other => panic!("unexpected actions {:?}", other),
    }
}

#[test]
fn persisting_run_follows_enable_result() {
    let mut run = run_of(60, true);
    match run.next_action() {
        Action::WriteThreshold(t) => assert_eq!(t, "60"),
        other => panic!("unexpected action {:?}", other),
    }
    run.advance(StepResult::Done);
    match run.next_action() {
        Action::WriteUnitFile(t) => assert_eq!(t, expected_unit("60")),
        other => panic!("unexpected action {:?}", other),
    }
    run.advance(StepResult::Done);
    assert!(matches!(run.next_action(), Action::ReloadUnits));
    run.advance(StepResult::Done);
    assert!(matches!(run.next_action(), Action::EnableUnit));
    assert!(!run.is_finished());

    let mut failing = run_of(60, true);
    for _ in 0..3 {
        failing.advance(StepResult::Done);
    }
    failing.advance(StepResult::Failed(Failure::Other));
    assert!(failing.is_finished());
    assert!(matches!(failing.next_action(), Action::Report(Status::Failed)));

    run.advance(StepResult::Done);
    assert!(run.is_finished());
    assert!(matches!(run.next_action(), Action::Report(Status::Applied)));
}

#[test]
fn run_without_persist_stops_after_threshold() {
    let mut run = run_of(75, false);
    match run.next_action() {
        Action::WriteThreshold(t) => assert_eq!(t, "75"),
        other => panic!("unexpected action {:?}", other),
    }
    run.advance(StepResult::Done);
    assert!(matches!(run.next_action(), Action::Report(Status::Applied)));
}

#[test]
fn reload_failure_stops_the_run() {
    let mut run = run_of(80, true);
    run.advance(StepResult::Done);
    run.advance(StepResult::Done);
    run.advance(StepResult::Failed(Failure::Other));
    assert!(matches!(run.next_action(), Action::Report(Status::Failed)));
    run.advance(StepResult::Done);
    assert!(matches!(run.next_action(), Action::Report(Status::Failed)));
}

#[test]
fn permission_denied_is_reported() {
    let mut run = run_of(80, true);
    run.advance(StepResult::Failed(Failure::PermissionDenied));
    let status = match run.next_action() {
        Action::Report(s) => s,
        other => panic!("unexpected action {:?}", other),
    };
    assert_eq!(status, Status::PermissionDenied);
    assert_eq!(status.message(), "permission denied");
    let report = interpret_escalation(true, status.message());
    assert!(matches!(report, Report::Completed(Status::PermissionDenied)));
    assert_eq!(report.text(), "permission denied");
}

#[test]
fn missing_node_is_reported() {
    let mut run = run_of(80, false);
    run.advance(StepResult::Failed(Failure::NotFound));
    assert!(matches!(run.next_action(), Action::Report(Status::FileNotFound)));
    assert_eq!(Status::from_failure(Failure::NotFound).message(), "file not found");
    let report = interpret_escalation(true, "file not found");
    assert_eq!(report.text(), "file not found");
}

#[test]
fn failure_kinds_map_to_status() {
    assert_eq!(Status::from_failure(Failure::PermissionDenied), Status::PermissionDenied);
    assert_eq!(Status::from_failure(Failure::NotFound), Status::FileNotFound);
    assert_eq!(Status::from_failure(Failure::DataCorruption), Status::Failed);
    assert_eq!(Status::from_failure(Failure::Other), Status::Failed);
    assert_eq!(Status::Applied.message(), "modification applied");
    assert_eq!(Status::Failed.message(), "modification failed");
}

#[test]
fn escalation_denied_ignores_output() {
    let report = interpret_escalation(false, "modification applied");
    assert!(matches!(report, Report::EscalationDenied));
    assert_eq!(report.text(), "modification failed");
}

#[test]
fn escalation_output_is_trimmed() {
    let report = interpret_escalation(true, "modification applied\n");
    assert!(matches!(report, Report::Completed(Status::Applied)));
    let report = interpret_escalation(true, "  something else \n");
    match &report {
        Report::Unrecognized(t) => assert_eq!(t, "something else"),
        other => panic!("unexpected report {:?}", other),
    }
    assert_eq!(report.text(), "something else");
    let report = interpret_escalation(true, "ok\u{a0}");
    assert_eq!(report.text(), "ok");
    let report = interpret_escalation(true, "\u{2028}permission denied\u{85}");
    assert!(matches!(report, Report::Completed(Status::PermissionDenied)));
}

#[test]
fn cli_args_for_escalation() {
    let args = format_cli_args("/usr/bin/battery_limiter", 80);
    assert_eq!(
        args,
        vec![
            "/usr/bin/battery_limiter".to_string(),
            "--persist".to_string(),
            "--percentage".to_string(),
            "80".to_string(),
        ]
    );
}

#[test]
fn fixed_paths() {
    assert_eq!(SERVICE_FILE, "/etc/systemd/system/battery_limiter.service");
    assert_eq!(THRESHOLD_FILE, "/sys/class/power_supply/BAT0/charge_control_end_threshold");
}
