//! The computations behind the Windows window-style driver: the
//! extended-style words an overlay window is given, the failure-sentinel
//! checks on the style primitives, and the walk that gives keyboard focus
//! back to the window the user was working in.
//!
//! The driver around these reads the current extended style, computes the
//! new word here, and writes it back; a primitive that returns 0 has
//! failed, and the transition it was part of must be reported as failed.

use vstd::prelude::*;

use crate::driver::StyleError;

verus! {

/// Extended-style bit: the window is transparent to mouse and keyboard
/// input, which falls through to the window beneath.
pub const WS_EX_TRANSPARENT: u64 = 0x20;

/// Extended-style bit: the window is layered, so it can be rendered with
/// a per-window alpha value.
pub const WS_EX_LAYERED: u64 = 0x80000;

/// The extended-style word that marks a window as an overlay: the
/// queried word with the input-transparent and layered bits set.
///
/// A queried word of 0 is the failure sentinel of the style query and is
/// reported as `QueryFailure` instead.
pub fn overlay_ex_style(queried: u64) -> (r: Result<u64, StyleError>)
    ensures
        queried == 0 <==> r is Err,
        r is Err ==> r->Err_0 == StyleError::QueryFailure,
        r matches Ok(style) ==> style == (queried | WS_EX_TRANSPARENT | WS_EX_LAYERED),
        r matches Ok(style) ==> style & WS_EX_TRANSPARENT != 0 && style & WS_EX_LAYERED != 0,
{
    if queried == 0 {
        Err(StyleError::QueryFailure)
    } else {
        let style: u64 = queried | WS_EX_TRANSPARENT | WS_EX_LAYERED;
        proof {
            assert(style & WS_EX_TRANSPARENT != 0 && style & WS_EX_LAYERED != 0) by (bit_vector)
                requires
                    style == (queried | WS_EX_TRANSPARENT | WS_EX_LAYERED),
            ;
        }
        Ok(style)
    }
}

/// The extended-style word that makes an overlay window clickable again:
/// the queried word with the input-transparent bit cleared and the
/// layered bit kept, so the per-window alpha stays in effect.
///
/// A queried word of 0 is the failure sentinel of the style query and is
/// reported as `QueryFailure` instead.
pub fn clickable_ex_style(queried: u64) -> (r: Result<u64, StyleError>)
    ensures
        queried == 0 <==> r is Err,
        r is Err ==> r->Err_0 == StyleError::QueryFailure,
        r matches Ok(style) ==> style == ((queried & !WS_EX_TRANSPARENT) | WS_EX_LAYERED),
        r matches Ok(style) ==> style & WS_EX_TRANSPARENT == 0 && style & WS_EX_LAYERED != 0,
{
    if queried == 0 {
        Err(StyleError::QueryFailure)
    } else {
        let style: u64 = (queried & !WS_EX_TRANSPARENT) | WS_EX_LAYERED;
        proof {
            assert(style & WS_EX_TRANSPARENT == 0 && style & WS_EX_LAYERED != 0) by (bit_vector)
                requires
                    style == ((queried & !WS_EX_TRANSPARENT) | WS_EX_LAYERED),
            ;
        }
        Ok(style)
    }
}

/// Reads the return of a style- or attribute-write primitive: 0 is the
/// failure sentinel, anything else is success.
pub fn style_write_outcome(status: u64) -> (r: Result<(), StyleError>)
    ensures
        status == 0 <==> r is Err,
        r is Err ==> r->Err_0 == StyleError::WriteFailure,
{
    if status == 0 {
        Err(StyleError::WriteFailure)
    } else {
        Ok(())
    }
}

/// Reads a queried window handle: a null handle (0) means the query
/// failed, anything else is the handle itself.
pub fn window_handle_outcome(handle: u64) -> (r: Result<u64, StyleError>)
    ensures
        handle == 0 <==> r is Err,
        r is Err ==> r->Err_0 == StyleError::QueryFailure,
        r matches Ok(h) ==> h == handle,
{
    if handle == 0 {
        Err(StyleError::QueryFailure)
    } else {
        Ok(handle)
    }
}

/// One step of the walk that restores keyboard focus after a window was
/// marked as an overlay: starting from the window next in the Z order,
/// keep ascending to each parent until a window has none, and give that
/// topmost ancestor the focus, so the new input-transparent overlay does
/// not keep the foreground.
#[derive(Clone, Copy, Debug, PartialEq, Eq, Structural)]
pub enum FocusStep {
    /// The queried parent handle is a window: continue the walk from it.
    Ascend(u64),
    /// The queried parent handle is null: the current window is the
    /// topmost ancestor, and focus settles on it.
    Settle(u64),
}

/// Decides one step of the focus walk from the window `current` whose
/// queried parent handle is `parent`.
pub fn next_focus_step(current: u64, parent: u64) -> (r: FocusStep)
    ensures
        parent == 0 ==> r == FocusStep::Settle(current),
        parent != 0 ==> r == FocusStep::Ascend(parent),
{
    if parent == 0 {
        FocusStep::Settle(current)
    } else {
        FocusStep::Ascend(parent)
    }
}

} // verus!
