use proteus::engine::byedpi::ByeDpiEngine;
use proteus::engine::traits::{DpiEngineType, EngineError, EngineEvent, EngineProcessInfo, EngineProfile, EngineStatus};
use proteus::engine::zapret::{binary_name, Platform, ProcessWait, ZapretEngine};
use proteus::proteus_engine::traits as pe;

#[test]
fn traits_test_engine_status_display() {
    assert_eq!(EngineStatus::Stopped.to_string(), "stopped");
    assert_eq!(EngineStatus::Running.to_string(), "running");
    assert_eq!(EngineStatus::Failed.to_string(), "failed");
    assert_eq!(pe::EngineStatus::Stopped.to_string(), "stopped");
    assert_eq!(pe::EngineStatus::Running.to_string(), "running");
    assert_eq!(pe::EngineStatus::Failed.to_string(), "failed");
}

#[test]
fn traits_test_engine_status_is_running() {
    assert!(EngineStatus::Running.is_running());
    assert!(!EngineStatus::Stopped.is_running());
    assert!(!EngineStatus::Failed.is_running());
    assert!(pe::EngineStatus::Running.is_running());
    assert!(!pe::EngineStatus::Stopped.is_running());
    assert!(!pe::EngineStatus::Failed.is_running());
}

#[test]
fn traits_test_engine_status_is_active() {
    assert!(EngineStatus::Starting.is_active());
    assert!(EngineStatus::Running.is_active());
    assert!(!EngineStatus::Stopped.is_active());
    assert!(pe::EngineStatus::Starting.is_active());
    assert!(pe::EngineStatus::Running.is_active());
    assert!(!pe::EngineStatus::Stopped.is_active());
}

#[test]
fn traits_test_dpi_engine_type_as_str() {
    assert_eq!(DpiEngineType::Zapret.as_str(), "zapret");
    assert_eq!(DpiEngineType::ByeDpi.as_str(), "byedpi");
    assert_eq!(DpiEngineType::Warp.as_str(), "warp");
    assert_eq!(pe::DpiEngineType::Zapret.as_str(), "zapret");
    assert_eq!(pe::DpiEngineType::ByeDpi.as_str(), "byedpi");
    assert_eq!(pe::DpiEngineType::Warp.as_str(), "warp");
}

#[test]
fn traits_test_engine_process_info() {
    let info = EngineProcessInfo::new(12345, "winws.exe", Some(1080));
    assert_eq!(info.pid, 12345);
    assert_eq!(info.process_name, "winws.exe");
    assert_eq!(info.socks_port, Some(1080));
    assert_eq!(info.status, EngineStatus::Running);
    let info = pe::EngineProcessInfo::new(12345, "winws.exe", Some(1080));
    assert_eq!(info.pid, 12345);
    assert_eq!(info.process_name, "winws.exe");
    assert_eq!(info.socks_port, Some(1080));
    assert_eq!(info.status, pe::EngineStatus::Running);
}

#[test]
fn traits_test_zapret_args_basic() {
    let profile = EngineProfile {
        filter_tcp: "443".into(),
        filter_udp: "443".into(),
        desync_mode: "fake".into(),
        fake_ttl: Some(64),
        auto_ttl: true,
        repeat_count: Some(3),
        hostlist: Some("blocked.txt".into()),
        ..Default::default()
    };
    let args = profile.to_zapret_args();
    assert!(args.contains(&"--filter-tcp".into()));
    assert!(args.contains(&"443".into()));
    assert!(args.contains(&"--dpi-desync".into()));
    assert!(args.contains(&"fake".into()));
    assert!(args.contains(&"--dpi-desync-autottl".into()));
    assert!(args.contains(&"--new".into()));
    let profile = pe::EngineProfile {
        filter_tcp: "443".into(),
        filter_udp: "443".into(),
        desync_mode: "fake".into(),
        fake_ttl: Some(64),
        auto_ttl: true,
        repeat_count: Some(3),
        hostlist: Some("blocked.txt".into()),
        ..Default::default()
    };
    let args = profile.to_zapret_args();
    assert!(args.contains(&"--filter-tcp".into()));
    assert!(args.contains(&"443".into()));
    assert!(args.contains(&"--dpi-desync".into()));
    assert!(args.contains(&"fake".into()));
    assert!(args.contains(&"--dpi-desync-autottl".into()));
    assert!(args.contains(&"--new".into()));
}

#[test]
fn traits_test_byedpi_args_basic() {
    let profile = EngineProfile { socks_port: 2080, split_pos: Some("3".into()), md5sig: Some(true), ..Default::default() };
    let args = profile.to_byedpi_args();
    assert!(args.contains(&"-p".into()));
    assert!(args.contains(&"2080".into()));
    assert!(args.contains(&"--split".into()));
    assert!(args.contains(&"--md5sig".into()));
    let profile = pe::EngineProfile { socks_port: 2080, split_pos: Some("3".into()), md5sig: Some(true), ..Default::default() };
    let args = profile.to_byedpi_args();
    assert!(args.contains(&"-p".into()));
    assert!(args.contains(&"2080".into()));
    assert!(args.contains(&"--split".into()));
    assert!(args.contains(&"--md5sig".into()));
}

#[test]
fn traits_test_engine_error_display() {
    let err = EngineError::ExecutableNotFound("/bin/winws".into());
    assert!(err.to_string().contains("/bin/winws"));
    assert!(err.to_string().contains("not found"));
    let err = pe::EngineError::ExecutableNotFound("/bin/winws".into());
    assert!(err.to_string().contains("/bin/winws"));
    assert!(err.to_string().contains("not found"));
}

#[test]
fn error_texts_exactly() {
    assert_eq!(EngineError::AlreadyRunning.to_string(), "engine already running");
    assert_eq!(EngineError::StartFailed("x".into()).to_string(), "start failed: x");
    assert_eq!(EngineError::Disposed.to_string(), "engine disposed");
    assert_eq!(pe::EngineError::AlreadyRunning.to_string(), "Engine is already running");
    assert_eq!(pe::EngineError::ConfigError("c".into()).to_string(), "Configuration error: c");
}

#[test]
fn default_profile_command_lines() {
    let p = EngineProfile::default();
    assert_eq!(p.to_zapret_args(), vec!["--dpi-desync".to_string(), "split".into(), "--new".into()]);
    assert_eq!(p.to_byedpi_args(), vec!["-p".to_string(), "1080".into()]);
}

#[test]
fn test_byedpi_creation() {
    let engine = ByeDpiEngine::new("/tmp/engine".into());
    assert_eq!(engine.status(), EngineStatus::Stopped);
}

#[test]
fn test_byedpi_start_stop() {
    let mut engine = ByeDpiEngine::new("/tmp/engine".into());
    let profile = EngineProfile::default();
    assert!(engine.start(&profile).is_ok());
    assert_eq!(engine.status(), EngineStatus::Running);
    assert!(engine.stop().is_ok());
    assert_eq!(engine.status(), EngineStatus::Stopped);
    assert_eq!(engine.display_name(), "ByeDPI");
    assert_eq!(engine.probe(), EngineStatus::Stopped);
}

#[test]
fn test_zapret_creation() {
    let engine = ZapretEngine::new("/tmp/engine".into(), Platform::Linux);
    assert_eq!(engine.status(), EngineStatus::Stopped);
    assert_eq!(engine.engine_type(), DpiEngineType::Zapret);
}

#[test]
fn test_zapret_binary_name() {
    assert_eq!(binary_name(Platform::Linux), "zapret");
    assert_eq!(binary_name(Platform::Windows), "winws.exe");
    assert_eq!(binary_name(Platform::Android), "libzapret.so");
}

#[test]
fn test_zapret_start_nonexistent() {
    let mut engine = ZapretEngine::new("/nonexistent".into(), Platform::Linux);
    let profile = EngineProfile::default();
    let (path, args) = engine.begin_start(&profile).unwrap();
    assert_eq!(path, "/nonexistent/zapret");
    assert_eq!(args, profile.to_zapret_args());
    let result = engine.finish_start(Err("No such file or directory (os error 2)".into()));
    assert!(result.is_err(), "Should fail with nonexistent binary");
    match result {
        Err(EngineError::StartFailed(_)) => assert!(true),
        _ => panic!("Expected StartFailed error"),
    }
}

#[test]
fn test_zapret_stop_without_start() {
    let mut engine = ZapretEngine::new("/tmp/engine".into(), Platform::Linux);
    let result = engine.stop();
    assert!(result.is_ok());
}

#[test]
fn test_zapret_double_start() {
    let mut engine = ZapretEngine::new("/nonexistent".into(), Platform::Linux);
    let profile = EngineProfile::default();
    let _ = engine.begin_start(&profile);
    let _ = engine.finish_start(Err("not found".into()));
    let result2 = engine.begin_start(&profile);
    assert!(result2.is_err() || result2.is_ok());
}

#[test]
fn test_zapret_events() {
    let mut engine = ZapretEngine::new("/tmp/engine".into(), Platform::Linux);
    let _ = engine.begin_start(&EngineProfile::default());
    let events = engine.take_events();
    assert_eq!(events.len(), 1);
    assert!(matches!(events[0], EngineEvent::StatusChanged(EngineStatus::Starting)));
}

#[test]
fn zapret_process_lifecycle() {
    let mut engine = ZapretEngine::new("C:/dpi".into(), Platform::Windows);
    let (path, _) = engine.begin_start(&EngineProfile::default()).unwrap();
    assert_eq!(path, "C:/dpi/bin/winws.exe");
    assert!(matches!(engine.begin_start(&EngineProfile::default()), Err(EngineError::AlreadyRunning)));
    engine.finish_start(Ok(4242)).unwrap();
    assert_eq!(engine.status(), EngineStatus::Running);
    let info = engine.process_info().unwrap();
    assert_eq!((info.pid, info.process_name.as_str()), (4242, "winws.exe"));
    assert_eq!(engine.probe(ProcessWait::StillRunning), EngineStatus::Running);
    assert_eq!(engine.probe(ProcessWait::Exited), EngineStatus::Crashed);
    assert!(!engine.has_process());
    assert!(engine.process_info().is_none());
    assert_eq!(engine.probe(ProcessWait::WaitFailed), EngineStatus::Crashed);
    let events = engine.take_events();
    assert_eq!(events.len(), 3);
    engine.stop().unwrap();
    assert_eq!(engine.status(), EngineStatus::Stopped);
}
