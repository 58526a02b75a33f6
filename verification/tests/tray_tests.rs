use health_notifications::tray::TrayState;

#[test]
fn repaint_only_on_change() {
    let mut t = TrayState::new();
    // The icon was built unpaused; an unpaused pass repaints nothing.
    let a = t.on_tick(false, false);
    assert!(a.repaint.is_none());
    // Pausing changes the state: one repaint, in the paused colour.
    let b = t.on_tick(true, true);
    let rgba = b.repaint.expect("a change must repaint");
    assert!(rgba.chunks(4).all(|px| px == [255u8, 0, 0, 100]));
    // The same state again: no second repaint.
    let c = t.on_tick(true, false);
    assert!(c.repaint.is_none());
    let d = t.on_tick(true, false);
    assert!(d.repaint.is_none());
}

#[test]
fn resume_repaints_in_green() {
    let mut t = TrayState::new();
    t.on_tick(true, true);
    let a = t.on_tick(false, true);
    let rgba = a.repaint.expect("a change must repaint");
    assert!(rgba.chunks(4).all(|px| px == [0u8, 255, 0, 100]));
}

#[test]
fn forward_exactly_on_a_click() {
    let mut t = TrayState::new();
    // No click pending: nothing is forwarded, whatever the state.
    assert_eq!(t.on_tick(true, false).forward, None);
    // A click forwards the current checked state.
    assert_eq!(t.on_tick(true, true).forward, Some(true));
    assert_eq!(t.on_tick(false, true).forward, Some(false));
}
