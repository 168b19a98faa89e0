use cube_renderer::overlay::DebugOverlay;

#[test]
fn overlay_starts_hidden() {
    let overlay = DebugOverlay::new();
    assert!(!overlay.shown);
    let default_overlay = DebugOverlay::default();
    assert!(!default_overlay.shown);
}

#[test]
fn toggle_flips_visibility() {
    let mut overlay = DebugOverlay::new();
    overlay.toggle();
    assert!(overlay.shown);
    overlay.toggle();
    assert!(!overlay.shown);
}
