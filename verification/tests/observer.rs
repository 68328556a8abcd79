use alloc_profiling::observer::{ObserverController, ObserverToggle};

#[test]
fn fresh_controller_enables_on_first_request() {
    let mut controller = ObserverController::new();
    controller.minit(true);
    // A freshly registered observer starts disabled; the first request that
    // asks for profiling enables it.
    let decision = controller.rinit(false, true);
    assert!(decision.profiling_allocation_enabled);
    assert_eq!(decision.toggle, Some(ObserverToggle::Enable));
    assert!(!decision.warn_jit_incompatible);
}

#[test]
fn toggle_only_on_mismatch() {
    let mut controller = ObserverController::new();
    controller.minit(true);
    assert_eq!(controller.rinit(false, true).toggle, Some(ObserverToggle::Enable));
    // Same desired state again: no toggle.
    assert_eq!(controller.rinit(false, true).toggle, None);
    // Request asks for off: one disable toggle, then none.
    assert_eq!(controller.rinit(false, false).toggle, Some(ObserverToggle::Disable));
    assert_eq!(controller.rinit(false, false).toggle, None);
}

#[test]
fn failed_registration_never_toggles() {
    let mut controller = ObserverController::new();
    controller.minit(false);
    let decision = controller.rinit(false, true);
    // The request flag itself is untouched; only the observer is absent.
    assert!(decision.profiling_allocation_enabled);
    assert_eq!(decision.toggle, None);
}

#[test]
fn jit_probe_is_memoized_first_read_wins() {
    let mut controller = ObserverController::new();
    controller.minit(true);
    let first = controller.rinit(false, true);
    assert!(first.profiling_allocation_enabled);
    // A later probe claiming an active JIT is ignored: the first read won.
    let second = controller.rinit(true, true);
    assert!(second.profiling_allocation_enabled);
    assert!(!second.warn_jit_incompatible);
}

#[test]
fn active_jit_degrades_for_the_whole_process() {
    let mut controller = ObserverController::new();
    controller.minit(true);
    // The probe resolves on the first request and finds an active JIT.
    let detection = controller.rinit(true, true);
    assert!(!detection.profiling_allocation_enabled);
    assert_eq!(detection.toggle, None);
    assert!(detection.warn_jit_incompatible);
    // Every later request is forced off, never enabled again, and the
    // warning is not repeated.
    for _ in 0..3 {
        let later = controller.rinit(false, true);
        assert!(!later.profiling_allocation_enabled);
        assert_ne!(later.toggle, Some(ObserverToggle::Enable));
        assert_eq!(later.toggle, None);
        assert!(!later.warn_jit_incompatible);
    }
}

#[test]
fn mshutdown_releases_registration() {
    let mut controller = ObserverController::new();
    controller.minit(true);
    controller.rinit(false, true);
    controller.mshutdown();
    // Re-registration starts the lifecycle over.
    controller.minit(true);
    let decision = controller.rinit(false, true);
    assert_eq!(decision.toggle, Some(ObserverToggle::Enable));
}
