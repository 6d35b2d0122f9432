use iso_games_desktop::StartupHook;

#[test]
fn debug_build_opens_inspector_once() {
    let mut hook = StartupHook::new();
    assert!(hook.on_setup(true, true));
    assert!(!hook.on_setup(true, true));
    assert!(!hook.on_setup(true, true));
}

#[test]
fn release_build_never_opens_inspector() {
    let mut hook = StartupHook::new();
    assert!(!hook.on_setup(false, true));
    assert!(!hook.on_setup(false, true));
    assert!(!hook.on_setup(false, false));
}

#[test]
fn missing_main_window_skips_silently() {
    let mut hook = StartupHook::new();
    assert!(!hook.on_setup(true, false));
}

#[test]
fn hook_is_one_shot_even_when_skipped() {
    let mut hook = StartupHook::new();
    assert!(!hook.on_setup(true, false));
    assert!(!hook.on_setup(true, true));
}
