//! The overlay state machine, run against the in-memory stub driver.

use overlay::driver::{DriverCall, StubDriver, StyleError, WindowCondition};
use overlay::{BorrowedOverlay, OverlayBuilder, OverlayCreationError};

#[test]
fn default_build_starts_inactive_and_transparent() {
    let ov = OverlayBuilder::new().build(StubDriver::new()).unwrap();
    assert!(!ov.is_active());
    assert_eq!(
        ov.window().observed_condition(),
        WindowCondition { click_through: true, opacity: 0 }
    );
}

#[test]
fn default_build_first_activate_is_opaque_and_clickable() {
    let mut ov = OverlayBuilder::new().build(StubDriver::new()).unwrap();
    ov.activate().unwrap();
    assert!(ov.is_active());
    assert_eq!(
        ov.window().observed_condition(),
        WindowCondition { click_through: false, opacity: 255 }
    );
}

#[test]
fn scenario_opacity_255_and_220() {
    let mut ov = OverlayBuilder::new()
        .with_active_opacity(255)
        .with_inactive_opacity(220)
        .build(StubDriver::new())
        .unwrap();
    assert!(!ov.is_active());
    ov.activate().unwrap();
    assert!(ov.is_active());
    assert_eq!(ov.window().observed_condition().opacity, 255);
    ov.toggle().unwrap();
    assert!(!ov.is_active());
    assert_eq!(ov.window().observed_condition().opacity, 220);
    assert!(ov.window().observed_condition().click_through);
}

#[test]
fn deactivate_when_inactive_makes_no_driver_calls() {
    let mut ov = OverlayBuilder::new().build(StubDriver::new()).unwrap();
    let calls_after_build = ov.window().calls().len();
    ov.deactivate().unwrap();
    assert_eq!(ov.window().calls().len(), calls_after_build);
    assert!(!ov.is_active());
}

#[test]
fn activate_when_active_makes_no_driver_calls() {
    let mut ov = OverlayBuilder::new().build(StubDriver::new()).unwrap();
    ov.activate().unwrap();
    let calls_after_activate = ov.window().calls().len();
    let condition = ov.window().observed_condition();
    ov.activate().unwrap();
    assert_eq!(ov.window().calls().len(), calls_after_activate);
    assert_eq!(ov.window().observed_condition(), condition);
    assert!(ov.is_active());
}

#[test]
fn toggle_twice_returns_to_the_starting_state() {
    let mut ov = OverlayBuilder::new()
        .with_active_opacity(200)
        .with_inactive_opacity(30)
        .build(StubDriver::new())
        .unwrap();
    let before = ov.window().observed_condition();
    let was_active = ov.is_active();
    ov.toggle().unwrap();
    ov.toggle().unwrap();
    assert_eq!(ov.is_active(), was_active);
    assert_eq!(ov.window().observed_condition(), before);
}

#[test]
fn toggle_twice_from_active_returns_to_active() {
    let mut ov = OverlayBuilder::new()
        .with_active_opacity(200)
        .with_inactive_opacity(30)
        .build(StubDriver::new())
        .unwrap();
    ov.activate().unwrap();
    let before = ov.window().observed_condition();
    ov.toggle().unwrap();
    ov.toggle().unwrap();
    assert!(ov.is_active());
    assert_eq!(ov.window().observed_condition(), before);
}

#[test]
fn transitions_record_the_expected_driver_calls() {
    let mut ov = OverlayBuilder::new()
        .with_active_opacity(255)
        .with_inactive_opacity(220)
        .build(StubDriver::new())
        .unwrap();
    ov.activate().unwrap();
    ov.deactivate().unwrap();
    assert_eq!(
        ov.window().calls(),
        &vec![
            DriverCall::MakeOverlay,
            DriverCall::SetOpacity(220),
            DriverCall::MakeClickable,
            DriverCall::SetOpacity(255),
            DriverCall::MakeOverlay,
            DriverCall::SetOpacity(220),
        ]
    );
}

#[test]
fn opacity_bytes_round_trip_through_set_opacity() {
    let mut ov = OverlayBuilder::new()
        .with_active_opacity(255)
        .with_inactive_opacity(0)
        .build(StubDriver::new())
        .unwrap();
    assert_eq!(ov.window().observed_condition().opacity, 0);
    ov.activate().unwrap();
    assert_eq!(ov.window().observed_condition().opacity, 255);
    ov.deactivate().unwrap();
    assert_eq!(ov.window().observed_condition().opacity, 0);
}

#[test]
fn failed_style_write_during_activate_leaves_the_overlay_inactive() {
    // The build makes two driver calls; every call after them fails.
    let mut ov = OverlayBuilder::new().build(StubDriver::failing_from(2)).unwrap();
    assert!(!ov.is_active());
    let before = ov.window().observed_condition();
    assert_eq!(ov.activate(), Err(StyleError::WriteFailure));
    assert!(!ov.is_active());
    assert_eq!(ov.window().observed_condition(), before);
}

#[test]
fn failure_after_a_partial_transition_still_reports_the_old_state() {
    // The first failing call is the opacity write, after the window was
    // already made clickable: the recorded state must not move.
    let mut ov = OverlayBuilder::new().build(StubDriver::failing_from(3)).unwrap();
    assert_eq!(ov.activate(), Err(StyleError::WriteFailure));
    assert!(!ov.is_active());
}

#[test]
fn failed_style_write_during_build_is_reported() {
    let r = OverlayBuilder::new().build(StubDriver::failing_from(0));
    assert_eq!(r.err(), Some(OverlayCreationError::Style(StyleError::WriteFailure)));
}

#[test]
fn borrowed_overlay_runs_the_same_state_machine() {
    let mut window = StubDriver::new();
    let mut bo = BorrowedOverlay::new(false, 10, 20);
    assert!(!bo.is_active());
    bo.activate(&mut window).unwrap();
    assert!(bo.is_active());
    assert_eq!(
        window.observed_condition(),
        WindowCondition { click_through: false, opacity: 10 }
    );
    bo.toggle(&mut window).unwrap();
    assert!(!bo.is_active());
    assert_eq!(
        window.observed_condition(),
        WindowCondition { click_through: true, opacity: 20 }
    );
    assert_eq!(
        window.calls(),
        &vec![
            DriverCall::MakeClickable,
            DriverCall::SetOpacity(10),
            DriverCall::MakeOverlay,
            DriverCall::SetOpacity(20),
        ]
    );
}

#[test]
fn borrowed_overlay_deactivate_when_inactive_makes_no_calls() {
    let mut window = StubDriver::new();
    let mut bo = BorrowedOverlay::new(false, 255, 0);
    bo.deactivate(&mut window).unwrap();
    assert!(!bo.is_active());
    assert_eq!(window.calls().len(), 0);
}

#[test]
fn borrowed_overlay_failed_write_reports_the_old_state() {
    let mut window = StubDriver::failing_from(0);
    let mut bo = BorrowedOverlay::new(false, 255, 0);
    assert_eq!(bo.activate(&mut window), Err(StyleError::WriteFailure));
    assert!(!bo.is_active());
}

#[test]
fn borrowed_overlay_keeps_its_opacity_fields() {
    let bo = BorrowedOverlay::new(true, 42, 7);
    assert!(bo.is_active());
    assert_eq!(bo.active_opacity, 42);
    assert_eq!(bo.inactive_opacity, 7);
}
