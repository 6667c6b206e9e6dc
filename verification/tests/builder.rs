//! The overlay builder: configuration accumulation and its defaults.

use overlay::OverlayBuilder;

#[test]
fn defaults_are_opaque_active_and_transparent_inactive() {
    let b = OverlayBuilder::new();
    assert_eq!(b.active_opacity(), 255);
    assert_eq!(b.inactive_opacity(), 0);
    assert!(b.title().is_none());
    assert_eq!(b.position(), (0, 0));
    assert_eq!(b.size(), None);
}

#[test]
fn setters_configure_one_value_and_keep_the_rest() {
    let b = OverlayBuilder::new()
        .with_title(String::from("status overlay"))
        .with_active_opacity(240)
        .with_inactive_opacity(16)
        .with_position(-10, 20)
        .with_size(800, 600);
    assert_eq!(b.title().as_deref(), Some("status overlay"));
    assert_eq!(b.active_opacity(), 240);
    assert_eq!(b.inactive_opacity(), 16);
    assert_eq!(b.position(), (-10, 20));
    assert_eq!(b.size(), Some((800, 600)));
}

#[test]
fn boundary_opacity_bytes_are_kept_exactly() {
    let b = OverlayBuilder::new().with_active_opacity(0).with_inactive_opacity(255);
    assert_eq!(b.active_opacity(), 0);
    assert_eq!(b.inactive_opacity(), 255);
}
