use proteus::services::manager::{DpiEngineManager, EngineStatus, ManagedEngineType, ManagerConfig};

#[test]
fn test_manager_creation() {
    let mgr = DpiEngineManager::new(ManagerConfig::default());
    let list = mgr.list_engines();
    assert!(list.is_empty());
}

#[test]
fn test_register_and_start() {
    let mut mgr = DpiEngineManager::new(ManagerConfig::default());
    mgr.register(ManagedEngineType::Zapret, "Zapret");
    mgr.start(ManagedEngineType::Zapret).unwrap();
    assert_eq!(mgr.status(ManagedEngineType::Zapret), Some(EngineStatus::Running));
}

#[test]
fn test_double_start_fails() {
    let mut mgr = DpiEngineManager::new(ManagerConfig::default());
    mgr.register(ManagedEngineType::Zapret, "Zapret");
    mgr.start(ManagedEngineType::Zapret).unwrap();
    let result = mgr.start(ManagedEngineType::Zapret);
    assert!(result.is_err());
}

#[test]
fn test_stop() {
    let mut mgr = DpiEngineManager::new(ManagerConfig::default());
    mgr.register(ManagedEngineType::ByeDpi, "ByeDPI");
    mgr.start(ManagedEngineType::ByeDpi).unwrap();
    mgr.stop(ManagedEngineType::ByeDpi).unwrap();
    assert_eq!(mgr.status(ManagedEngineType::ByeDpi), Some(EngineStatus::Stopped));
}

#[test]
fn test_active_engine() {
    let mut mgr = DpiEngineManager::new(ManagerConfig::default());
    assert!(mgr.active_engine().is_none());
    mgr.register(ManagedEngineType::Zapret, "Zapret");
    mgr.start(ManagedEngineType::Zapret).unwrap();
    assert_eq!(mgr.active_engine(), Some(ManagedEngineType::Zapret));
}

#[test]
fn test_engine_type_as_str() {
    assert_eq!(ManagedEngineType::Zapret.as_str(), "zapret");
    assert_eq!(ManagedEngineType::Hybrid.as_str(), "hybrid");
}

#[test]
fn errors_and_listing() {
    let mut mgr = DpiEngineManager::new(ManagerConfig::default());
    assert_eq!(mgr.start(ManagedEngineType::Warp), Err("engine Warp not registered".to_string()));
    assert_eq!(mgr.stop(ManagedEngineType::NoEngine), Err("engine None not registered".to_string()));
    mgr.register(ManagedEngineType::Warp, "Warp");
    mgr.register(ManagedEngineType::Warp, "again");
    mgr.register(ManagedEngineType::Chained, "Chain");
    mgr.start(ManagedEngineType::Warp).unwrap();
    assert_eq!(mgr.start(ManagedEngineType::Warp), Err("already running".to_string()));
    let list = mgr.list_engines();
    assert_eq!(
        list,
        vec![
            (ManagedEngineType::Warp, EngineStatus::Running, "Warp".to_string()),
            (ManagedEngineType::Chained, EngineStatus::Stopped, "Chain".to_string()),
        ]
    );
    mgr.stop(ManagedEngineType::Chained).unwrap();
    assert_eq!(mgr.active_engine(), Some(ManagedEngineType::Warp));
    mgr.stop(ManagedEngineType::Warp).unwrap();
    assert_eq!(mgr.active_engine(), None);
    assert_eq!(ManagedEngineType::NoEngine.as_str(), "none");
    let c = ManagerConfig::default();
    assert!(c.auto_restart && c.probe_on_start);
    assert_eq!(c.max_restart_attempts, 3);
}
