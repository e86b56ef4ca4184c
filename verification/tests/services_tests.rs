use proteus::services::probe::{build_summary, check_kind, http_status_ok, http_url, tcp_address, CheckKind, ProbeOptions, TargetEntry};
use proteus::services::settings::{AppSettings, SettingsService};
use proteus::services::updater::{GitHubRelease, ReleaseFetch, SelfUpdater, UpdateChannel};
use proteus::cli::updater::ProteusUpdater;

#[test]
fn test_target_entry_http() {
    let t = TargetEntry::http("google.com");
    assert_eq!(t.key, "google.com");
    assert_eq!(t.check_type, "http");
}

#[test]
fn test_target_entry_dns() {
    let t = TargetEntry::dns("cloudflare.com");
    assert_eq!(t.key, "cloudflare.com");
    assert_eq!(t.check_type, "dns");
}

#[test]
fn test_default_options() {
    let opts = ProbeOptions::default();
    assert_eq!(opts.max_parallel, 6);
    assert_eq!(opts.timeout_secs, 5);
}

#[test]
fn probe_checks_and_summary() {
    let tcp = TargetEntry::tcp("192.0.2.1", 9);
    assert_eq!(check_kind(&tcp), CheckKind::Tcp);
    assert_eq!(tcp_address(&tcp), "192.0.2.1:9");
    let mut no_port = TargetEntry::tcp("h", 1);
    no_port.port = None;
    assert_eq!(tcp_address(&no_port), "h:443");
    assert_eq!(http_url(&TargetEntry::http("x.org")), "https://x.org/");
    assert_eq!(check_kind(&TargetEntry::dns("a")), CheckKind::Dns);
    let mut odd = TargetEntry::http("a");
    odd.check_type = "icmp".into();
    assert_eq!(check_kind(&odd), CheckKind::Unknown);
    assert!(http_status_ok(200) && http_status_ok(301) && http_status_ok(403));
    assert!(!http_status_ok(404) && !http_status_ok(500) && !http_status_ok(199));
    assert_eq!(build_summary(0, 0, &[]), "no targets");
    assert_eq!(build_summary(2, 2, &[("a".into(), true), ("b".into(), true)]), "all OK (2/2)");
    let checks: Vec<(String, bool)> = vec![
        ("a".into(), false),
        ("b".into(), true),
        ("c".into(), false),
        ("d".into(), false),
        ("e".into(), false),
    ];
    assert_eq!(build_summary(1, 5, &checks), "OK 1/5, failed: a, c, d");
}

#[test]
fn test_default_settings() {
    let s = AppSettings::default();
    assert_eq!(s.socks_port, 1080);
    assert!(s.auto_start);
}

#[test]
fn test_settings_new_with_nonexistent_path() {
    let svc = SettingsService::new("/nonexistent/path.toml".into(), None);
    assert_eq!(svc.get().socks_port, 1080);
}

#[test]
fn test_settings_custom_values() {
    let mut s = AppSettings::default();
    s.socks_port = 2080;
    s.auto_start = false;
    assert_eq!(s.socks_port, 2080);
    assert!(!s.auto_start);
}

#[test]
fn settings_service_changes_and_reloads() {
    let mut svc = SettingsService::new("/tmp/s.toml".into(), None);
    svc.get_mut().socks_port = 3090;
    assert_eq!(svc.get().socks_port, 3090);
    svc.reload(None);
    assert_eq!(svc.get().socks_port, 3090);
    let mut loaded = AppSettings::default();
    loaded.log_level = "debug".into();
    svc.reload(Some(loaded));
    assert_eq!(svc.get().log_level, "debug");
    assert_eq!(svc.get().socks_port, 1080);
    assert_eq!(svc.path(), "/tmp/s.toml");
    let d = AppSettings::default();
    assert_eq!(d.engine_dir, "engine");
    assert_eq!(d.update_channel, "stable");
    assert_eq!((d.check_interval_secs, d.evolution_interval_mins, d.max_parallel_checks, d.probe_timeout_secs), (30, 60, 6, 5));
}

#[test]
fn test_update_channel_as_str() {
    assert_eq!(UpdateChannel::Stable.as_str(), "stable");
    assert_eq!(UpdateChannel::Beta.as_str(), "beta");
    assert_eq!(UpdateChannel::Nightly.as_str(), "nightly");
}

#[test]
fn updater_test_updater_creation() {
    let updater = SelfUpdater::new("mx57/BSDPI_AI", "1.0.0", UpdateChannel::Stable);
    assert_eq!(updater.current_version(), "1.0.0");
    assert_eq!(updater.channel(), UpdateChannel::Stable);
    assert_eq!(updater.repo(), "mx57/BSDPI_AI");
    let cli = ProteusUpdater::new("mx57", "proteus", "0.1.0");
    assert_eq!(cli.owner, "mx57");
    assert_eq!(cli.repo, "proteus");
    assert_eq!(cli.current_version, "0.1.0");
}

fn release(tag: &str) -> ReleaseFetch {
    ReleaseFetch::Release(GitHubRelease {
        tag_name: tag.into(),
        html_url: "https://example.org/r".into(),
        body: None,
        published_at: "2024-01-01".into(),
        prerelease: false,
    })
}

#[test]
fn update_decisions() {
    let u = SelfUpdater::new("owner", "v1.0.0", UpdateChannel::Beta);
    assert_eq!(u.repo(), "owner/BSDPI_AI");
    assert_eq!(u.release_url(), "https://api.github.com/repos/owner/BSDPI_AI/releases/latest");
    assert_eq!(SelfUpdater::new("a/b/c", "1", UpdateChannel::Stable).repo(), "a/b");
    assert!(u.check_update_with(ReleaseFetch::Unreachable("offline".into())).unwrap().is_none());
    assert!(u.check_update_with(ReleaseFetch::HttpError { code: 404, text: "404 Not Found".into() }).unwrap().is_none());
    assert_eq!(
        u.check_update_with(ReleaseFetch::HttpError { code: 500, text: "500 Internal Server Error".into() }).unwrap_err(),
        "GitHub API: HTTP 500 Internal Server Error"
    );
    assert_eq!(u.check_update_with(ReleaseFetch::Malformed("eof".into())).unwrap_err(), "Failed to parse release: eof");
    assert!(u.check_update_with(release("vv1.0.0")).unwrap().is_none());
    let info = u.check_update_with(release("v1.1.0")).unwrap().unwrap();
    assert_eq!(info.version, "v1.1.0");
    assert_eq!(info.url, "https://example.org/r");
    assert_eq!(info.body, "");
    assert_eq!(info.channel, UpdateChannel::Beta);
    let cli = ProteusUpdater::new("mx57", "proteus", "0.1.0");
    assert_eq!(cli.release_url(), "https://api.github.com/repos/mx57/proteus/releases/latest");
    assert!(cli.check_with(release("v0.1.0")).unwrap().is_none());
    let r = cli.check_with(release("0.2.0")).unwrap().unwrap();
    assert_eq!((r.current_version.as_str(), r.latest_version.as_str()), ("0.1.0", "0.2.0"));
    assert_eq!(cli.check_with(ReleaseFetch::HttpError { code: 403, text: "403 Forbidden".into() }).unwrap_err(), "GitHub API: HTTP 403 Forbidden");
}
