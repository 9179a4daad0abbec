use transit_tracker::registry::TaskRegistry;

fn runtime() -> tokio::runtime::Runtime {
    tokio::runtime::Builder::new_multi_thread()
        .worker_threads(1)
        .enable_all()
        .build()
        .expect("runtime")
}

#[test]
fn test_cancel_unknown_user_is_noop() {
    // No entry for the user: cancel returns without error, nothing changes.
    let mut registry: TaskRegistry<()> = TaskRegistry::new();
    assert!(!registry.cancel(42));
    assert!(!registry.is_tracking(42));
    assert_eq!(registry.active_count(), 0);
}

#[test]
fn test_register_and_cancel() {
    let rt = runtime();
    let mut registry: TaskRegistry<()> = TaskRegistry::new();
    registry.register(7, rt.spawn(std::future::pending::<()>()));
    assert!(registry.is_tracking(7));
    assert_eq!(registry.active_count(), 1);

    assert!(registry.cancel(7));
    assert!(!registry.is_tracking(7));
    assert_eq!(registry.active_count(), 0);
}

#[test]
fn test_cancel_twice_same_as_once() {
    let rt = runtime();
    let mut registry: TaskRegistry<()> = TaskRegistry::new();
    registry.register(7, rt.spawn(std::future::pending::<()>()));

    assert!(registry.cancel(7));
    assert!(!registry.cancel(7));
    assert!(!registry.is_tracking(7));
    assert_eq!(registry.active_count(), 0);
}

#[test]
fn test_register_replaces_stale_entry() {
    let rt = runtime();
    let mut registry: TaskRegistry<()> = TaskRegistry::new();
    registry.register(7, rt.spawn(std::future::pending::<()>()));
    registry.register(7, rt.spawn(std::future::pending::<()>()));
    assert_eq!(registry.active_count(), 1);
    assert!(registry.cancel(7));
    assert_eq!(registry.active_count(), 0);
}

#[test]
fn test_remove_without_abort() {
    let rt = runtime();
    let mut registry: TaskRegistry<()> = TaskRegistry::new();
    registry.register(9, rt.spawn(std::future::pending::<()>()));
    registry.remove(9);
    assert!(!registry.is_tracking(9));
    assert_eq!(registry.active_count(), 0);
}

#[test]
fn test_independent_users() {
    let rt = runtime();
    let mut registry: TaskRegistry<()> = TaskRegistry::new();
    registry.register(1, rt.spawn(std::future::pending::<()>()));
    registry.register(2, rt.spawn(std::future::pending::<()>()));
    assert_eq!(registry.active_count(), 2);
    assert!(registry.cancel(1));
    assert!(registry.is_tracking(2));
    assert_eq!(registry.active_count(), 1);
}
