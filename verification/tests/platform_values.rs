//! The platform computations: Windows extended-style words and sentinel
//! checks, and X11 opacity property values.

use overlay::driver::StyleError;
use overlay::win_style::{
    clickable_ex_style, next_focus_step, overlay_ex_style, style_write_outcome,
    window_handle_outcome, FocusStep, WS_EX_LAYERED, WS_EX_TRANSPARENT,
};
use overlay::x11_style::{opacity_property_value, xcb_window_id};

#[test]
fn overlay_style_sets_transparent_and_layered_bits() {
    assert_eq!(overlay_ex_style(0x100), Ok(0x8_0120));
    assert_eq!(overlay_ex_style(0x100).unwrap(), 0x100 | WS_EX_TRANSPARENT | WS_EX_LAYERED);
}

#[test]
fn overlay_style_reports_the_query_sentinel() {
    assert_eq!(overlay_ex_style(0), Err(StyleError::QueryFailure));
}

#[test]
fn clickable_style_clears_transparent_and_keeps_layered() {
    assert_eq!(clickable_ex_style(0x8_0120), Ok(0x8_0100));
    assert_eq!(clickable_ex_style(0x20), Ok(0x8_0000));
    assert_eq!(clickable_ex_style(0), Err(StyleError::QueryFailure));
}

#[test]
fn style_write_sentinel_is_zero() {
    assert_eq!(style_write_outcome(0), Err(StyleError::WriteFailure));
    assert_eq!(style_write_outcome(1), Ok(()));
    assert_eq!(style_write_outcome(0x8_0120), Ok(()));
}

#[test]
fn window_handle_sentinel_is_null() {
    assert_eq!(window_handle_outcome(0), Err(StyleError::QueryFailure));
    assert_eq!(window_handle_outcome(0xBEEF), Ok(0xBEEF));
}

#[test]
fn focus_walk_ascends_until_a_window_has_no_parent() {
    assert_eq!(next_focus_step(5, 7), FocusStep::Ascend(7));
    assert_eq!(next_focus_step(5, 0), FocusStep::Settle(5));
}

#[test]
fn opacity_255_deletes_the_compositor_property() {
    assert_eq!(opacity_property_value(255), None);
}

#[test]
fn opacity_0_is_a_zero_fraction() {
    assert_eq!(opacity_property_value(0), Some(0));
}

#[test]
fn opacity_fractions_are_exact_and_below_the_maximum() {
    // 128 / 255 of 0xFFFF_FFFF is exactly 0x8080_8080.
    assert_eq!(opacity_property_value(128), Some(0x8080_8080));
    // 1 / 255 of 0xFFFF_FFFF is exactly 0x0101_0101.
    assert_eq!(opacity_property_value(1), Some(0x0101_0101));
    let v = opacity_property_value(254).unwrap();
    assert!(v < 0xFFFF_FFFF);
    assert_eq!(v, 4278124286);
}

#[test]
fn xcb_window_ids_fit_in_32_bits() {
    assert_eq!(xcb_window_id(42), Some(42));
    assert_eq!(xcb_window_id(u32::MAX as u64), Some(u32::MAX));
    assert_eq!(xcb_window_id(u32::MAX as u64 + 1), None);
}
