//! The computations behind the X11 window-style driver: the value of the
//! compositor opacity property, and the narrowing of an X11 window id to
//! the width the XCB protocol carries.
//!
//! The driver around these talks to the X server: it installs or clears
//! the input shape region, and writes or deletes the compositor opacity
//! property with the value computed here. Property writes are
//! best-effort: a window manager without a compositor ignores them, and
//! that is not an error.

use vstd::prelude::*;

verus! {

/// The value to store in the window's compositor opacity property
/// (`_NET_WM_WINDOW_OPACITY`), or `None` when the property is to be
/// deleted instead: a fully opaque window (opacity 255) carries no
/// property, so the compositor default applies.
///
/// Any other opacity byte is scaled to a 32-bit fraction of full
/// opacity, `opacity * 0xFFFF_FFFF / 255`, and is therefore always
/// strictly below the property's maximum.
pub fn opacity_property_value(opacity: u8) -> (r: Option<u32>)
    ensures
        r is None <==> opacity == 255,
        opacity != 255 ==> r == Some(((opacity as u64) * 0xFFFF_FFFFu64 / 255) as u32),
        r matches Some(v) ==> v < 0xFFFF_FFFFu32,
{
    if opacity == 255 {
        None
    } else {
        let scaled: u64 = (opacity as u64) * 0xFFFF_FFFF / 255;
        proof {
            assert(scaled < 0xFFFF_FFFFu64) by (bit_vector)
                requires
                    scaled == (opacity as u64) * 0xFFFF_FFFFu64 / 255 && (opacity as u64) < 255,
            ;
        }
        Some(scaled as u32)
    }
}

/// The XCB window id for an X11 window id: the protocol carries window
/// ids in 32 bits, so a 64-bit id that does not fit has no XCB
/// counterpart and yields `None`.
pub fn xcb_window_id(xlib_window: u64) -> (r: Option<u32>)
    ensures
        xlib_window <= u32::MAX ==> r == Some(xlib_window as u32),
        xlib_window > u32::MAX ==> r is None,
{
    if xlib_window <= 0xFFFF_FFFF {
        Some(xlib_window as u32)
    } else {
        None
    }
}

} // verus!
