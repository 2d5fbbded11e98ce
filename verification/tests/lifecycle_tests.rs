use omni_tagger::lifecycle::{EnsureStep, LifecycleError, ReloadStep, ResourceManager};

#[test]
fn one_caller_loads_and_the_rest_wait() {
    // Three callers race ensure_loaded on an unloaded resource: exactly the
    // first starts a load, the others wait; after the one load resolves,
    // every caller observes the same loaded handle.
    let mut m = ResourceManager::new();
    assert!(matches!(m.ensure_loaded_enter(), EnsureStep::StartLoad));
    assert!(matches!(m.ensure_loaded_enter(), EnsureStep::Wait));
    assert!(matches!(m.ensure_loaded_enter(), EnsureStep::Wait));
    m.load_finish(true);
    assert!(matches!(m.ensure_loaded_enter(), EnsureStep::AlreadyLoaded));
    assert!(matches!(m.ensure_loaded_enter(), EnsureStep::AlreadyLoaded));
    assert!(m.acquire_for_invoke().is_ok());
}

#[test]
fn failed_load_leaves_unloaded_for_every_caller() {
    let mut m = ResourceManager::new();
    assert!(matches!(m.ensure_loaded_enter(), EnsureStep::StartLoad));
    assert!(matches!(m.ensure_loaded_enter(), EnsureStep::Wait));
    m.load_finish(false);
    assert!(matches!(
        m.acquire_for_invoke(),
        Err(LifecycleError::ResourceUnavailable)
    ));
    // The next caller may try again: the failure did not wedge the state.
    assert!(matches!(m.ensure_loaded_enter(), EnsureStep::StartLoad));
}

#[test]
fn failed_reload_clears_to_unloaded() {
    // Reload atomicity: after a failed rebuild the prior handle is gone,
    // not silently kept.
    let mut m = ResourceManager::new();
    assert!(matches!(m.ensure_loaded_enter(), EnsureStep::StartLoad));
    m.load_finish(true);
    assert!(m.acquire_for_invoke().is_ok());
    assert!(matches!(m.reload_enter(), ReloadStep::StartReload));
    m.reload_finish(false);
    assert!(matches!(
        m.acquire_for_invoke(),
        Err(LifecycleError::ResourceUnavailable)
    ));
    assert!(matches!(m.ensure_loaded_enter(), EnsureStep::StartLoad));
}

#[test]
fn successful_reload_swaps_to_a_fresh_handle() {
    let mut m = ResourceManager::new();
    assert!(matches!(m.ensure_loaded_enter(), EnsureStep::StartLoad));
    m.load_finish(true);
    let first = m.acquire_for_invoke().unwrap();
    assert!(matches!(m.reload_enter(), ReloadStep::StartReload));
    m.reload_finish(true);
    let second = m.acquire_for_invoke().unwrap();
    assert_ne!(first, second);
}

#[test]
fn reload_waits_while_a_load_is_in_flight() {
    let mut m = ResourceManager::new();
    assert!(matches!(m.ensure_loaded_enter(), EnsureStep::StartLoad));
    assert!(matches!(m.reload_enter(), ReloadStep::Wait));
    m.load_finish(true);
    assert!(matches!(m.reload_enter(), ReloadStep::StartReload));
    assert!(matches!(m.ensure_loaded_enter(), EnsureStep::Wait));
    m.reload_finish(true);
    assert!(m.acquire_for_invoke().is_ok());
}

#[test]
fn invoking_before_any_load_is_resource_unavailable() {
    let m = ResourceManager::new();
    assert!(matches!(
        m.acquire_for_invoke(),
        Err(LifecycleError::ResourceUnavailable)
    ));
}
