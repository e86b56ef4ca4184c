use proteus::ai::bandit::{backoff_ms, first_min, last_max, FailureBackoff};
use proteus::cli::commands::{engine_label, get_fingerprint, is_whitespace, parse_targets, split_setting};
use proteus::gui::{engines, evolve_clicked, push_log, tabs, uptime_text, EngineAction, EnginePanel, LogEntry};
use proteus::xtask::{build_args, parse_task, test_args, Task};

#[test]
fn backoff_grows_with_the_streak() {
    assert_eq!(backoff_ms(0), 3000);
    assert_eq!(backoff_ms(1), 300);
    assert_eq!(backoff_ms(2), 700);
    assert_eq!(backoff_ms(3), 1500);
    assert_eq!(backoff_ms(4), 3000);
}

#[test]
fn failures_block_until_a_success() {
    let mut b = FailureBackoff::new();
    assert_eq!(b.register_failure("g1"), 300);
    assert_eq!(b.register_failure("g1"), 700);
    assert_eq!(b.register_failure("g2"), 300);
    assert_eq!(b.streak("g1"), 2);
    b.block_until("g1", 1000);
    b.block_until("g1", 500);
    assert!(b.is_blocked("g1", 999));
    assert!(!b.is_blocked("g1", 1000));
    assert!(!b.is_blocked("g2", 0));
    let ids = vec!["g1".to_string(), "g2".to_string(), "g3".to_string()];
    assert_eq!(b.unblocked(&ids, 10), vec![1, 2]);
    b.register_success("g1");
    assert_eq!(b.streak("g1"), 0);
    assert!(!b.is_blocked("g1", 10));
    assert_eq!(b.unblocked(&ids, 10), vec![0, 1, 2]);
}

#[test]
fn cli_argument_reading() {
    assert_eq!(engine_label("zapret"), "winws.exe");
    assert_eq!(engine_label("chained"), "warp→zapret");
    assert_eq!(engine_label("other"), "unknown");
    assert_eq!(parse_targets(None), vec!["google.com", "youtube.com", "telegram.org"]);
    assert_eq!(parse_targets(Some(" a.com, b.org ,,c ")), vec!["a.com", "b.org", "", "c"]);
    assert_eq!(parse_targets(Some("")), vec![""]);
    assert_eq!(split_setting(" socks_port = 2080 "), Some(("socks_port".to_string(), "2080".to_string())));
    assert_eq!(split_setting("a=b=c"), Some(("a".to_string(), "b=c".to_string())));
    assert_eq!(split_setting("novalue"), None);
    assert!(is_whitespace('\u{3000}') && is_whitespace('\t') && !is_whitespace('x'));
    assert_eq!(get_fingerprint(), "a1b2c3d4e5f6...");
}

#[test]
fn xtask_commands() {
    assert_eq!(parse_task(Some("build")), Task::Build);
    assert_eq!(parse_task(Some("build-all")), Task::BuildAll);
    assert_eq!(parse_task(Some("test")), Task::Test);
    assert_eq!(parse_task(Some("dist")), Task::Dist);
    assert_eq!(parse_task(Some("what")), Task::Help);
    assert_eq!(parse_task(None), Task::Help);
    assert_eq!(build_args(&["build".to_string(), "--release".to_string()]), vec!["build", "--workspace", "--release"]);
    assert_eq!(build_args(&["build".to_string()]), vec!["build", "--workspace"]);
    assert_eq!(test_args(), vec!["test", "--workspace"]);
}

#[test]
fn test_app_state_uptime_str() {
    let uptime = uptime_text(3725);
    assert!(!uptime.is_empty());
    assert_eq!(uptime, "01:02:05");
    assert_eq!(uptime_text(0), "00:00:00");
    assert_eq!(uptime_text(360000), "100:00:00");
    assert_eq!(uptime_text(-65), "00:-1:-5");
}

#[test]
fn test_add_log() {
    let mut logs: Vec<LogEntry> = Vec::new();
    push_log(&mut logs, LogEntry { timestamp: 0, level: "info".into(), message: "Test log 1".to_string() });
    assert_eq!(logs.len(), 1);
    let last_log = logs.last().unwrap();
    assert_eq!(last_log.level, "info");
    assert_eq!(last_log.message, "Test log 1");
    for i in 0..1500 {
        push_log(&mut logs, LogEntry { timestamp: i, level: "debug".into(), message: format!("Log {}", i) });
    }
    assert_eq!(logs.len(), 1000);
    assert_eq!(logs.last().unwrap().message, "Log 1499");
    assert_eq!(tabs(), vec!["main", "ai", "engine", "chains", "settings", "logs"]);
}

fn key(x: f64) -> u64 {
    let bits = x.to_bits();
    if bits >> 63 == 1 {
        !bits
    } else {
        bits | (1u64 << 63)
    }
}

#[test]
fn test_pareto_front_two_strategies() {
    let scored = vec![(key(0.7), key(50.0)), (key(0.5), key(10.0))];
    let front = proteus::ai::bandit::pareto_front(&scored);
    assert_eq!(front.len(), 2);
}

#[test]
fn test_pareto_front_dominated() {
    let scored = vec![(key(0.9), key(100.0)), (key(0.7), key(200.0))];
    let front = proteus::ai::bandit::pareto_front(&scored);
    assert_eq!(front.len(), 1);
}

#[test]
fn best_and_least_tried_candidates() {
    assert_eq!(last_max(&[3, 7, 7, 1]), Some(2));
    assert_eq!(first_min(&[3, 1, 1, 7]), Some(1));
    assert_eq!(last_max(&[]), None);
    assert_eq!(first_min(&[]), None);
    let front = proteus::ai::bandit::pareto_front(&[(5, 5), (5, 5), (6, 4), (1, 1)]);
    assert_eq!(front, vec![2, 3]);
}

#[test]
fn engine_tab_buttons_drive_the_panel() {
    assert_eq!(engines(), vec!["Zapret", "ByeDPI", "Warp", "Hybrid", "Chained"]);
    let mut panel = EnginePanel::new();
    assert_eq!(panel.engine_status, "Stopped");
    assert_eq!(panel.active_engine, "none");
    assert!(!panel.is_running("Zapret"));
    assert_eq!(panel.apply(EngineAction::Start, "ByeDPI"), "Engine started: ByeDPI");
    assert_eq!(panel.engine_status, "Running");
    assert!(panel.is_running("ByeDPI"));
    assert!(!panel.is_running("Zapret"));
    assert_eq!(panel.apply(EngineAction::Probe, "Warp"), "Probing: Warp");
    assert_eq!(panel.engine_status, "Running");
    assert_eq!(panel.active_engine, "ByeDPI");
    assert_eq!(panel.apply(EngineAction::Stop, "Zapret"), "Engine stopped: Zapret");
    assert_eq!(panel.engine_status, "Stopped");
    assert_eq!(panel.active_engine, "none");
}

#[test]
fn evolve_button_counts_generations() {
    let mut generation = 42u32;
    assert_eq!(evolve_clicked(&mut generation), "Evolution triggered: gen 43");
    assert_eq!(generation, 43);
}

#[test]
fn hex_text_of_bytes() {
    assert_eq!(proteus::text::hex_encode(&[0x00, 0xab, 0x0f, 0xff, 0x10]), "00ab0fff10");
    assert_eq!(proteus::text::hex_encode(&[]), "");
}
