//! Overlay windows: borderless, transparent, always-on-top windows that
//! switch between click-through and interactive modes without being
//! destroyed or recreated.
//!
//! The library is the overlay state machine and the window-manager
//! integration around it: a builder that adapts a platform window into an
//! overlay, the two-state activation model, and the platform computations
//! (extended-style bits, compositor opacity values) that the per-OS
//! drivers apply. The window starts visible but click-through, at its
//! inactive opacity; there is no separate initialization step before the
//! first `toggle`.

pub mod driver;
pub mod model;
pub mod win_style;
pub mod x11_style;

use vstd::prelude::*;

use crate::driver::{StyleError, WindowCondition, WindowDriver};
use crate::model::{activated, deactivated, in_sync, toggled, OverlayModel};

verus! {

/// An overlay: exclusively owns one platform window, through the driver
/// that styles it, and keeps the window's condition in step with its
/// recorded activation state.
///
/// Every state transition either completes as a whole, with the window
/// restyled before the call returns, or reports a `StyleError` and leaves
/// the recorded state where it was.
pub struct Overlay<D: WindowDriver> {
    window: D,
    active: bool,
    active_opacity: u8,
    inactive_opacity: u8,
}

impl<D: WindowDriver> Overlay<D> {
    /// The state of this overlay as the contracts speak of it.
    pub closed spec fn model(&self) -> OverlayModel {
        OverlayModel {
            active: self.active,
            active_opacity: self.active_opacity,
            inactive_opacity: self.inactive_opacity,
            condition: self.window.condition(),
        }
    }

    /// Toggle the overlay between its two interaction modes.
    pub fn toggle(&mut self) -> (r: Result<(), StyleError>)
        ensures
            r is Ok ==> final(self).model() == toggled(old(self).model()),
            r is Err ==> final(self).model().active == old(self).model().active,
            final(self).model().active_opacity == old(self).model().active_opacity,
            final(self).model().inactive_opacity == old(self).model().inactive_opacity,
    {
        if !self.active {
            self.activate()
        } else {
            self.deactivate()
        }
    }

    /// Make the overlay clickable, rendered at its active opacity.
    ///
    /// A no-op when the overlay is already active: nothing is touched and
    /// no driver primitive is called.
    pub fn activate(&mut self) -> (r: Result<(), StyleError>)
        ensures
            old(self).model().active ==> r is Ok && *final(self) == *old(self),
            r is Ok ==> final(self).model() == activated(old(self).model()),
            r is Err ==> final(self).model().active == old(self).model().active,
            final(self).model().active_opacity == old(self).model().active_opacity,
            final(self).model().inactive_opacity == old(self).model().inactive_opacity,
    {
        if self.active {
            return Ok(());
        }
        match self.window.make_clickable() {
            Err(e) => {
                return Err(e);
            },
            Ok(()) => {},
        }
        match self.window.set_opacity(self.active_opacity) {
            Err(e) => {
                return Err(e);
            },
            Ok(()) => {},
        }
        self.active = true;
        Ok(())
    }

    /// Make the overlay transparent to input, rendered at its inactive
    /// opacity.
    ///
    /// A no-op when the overlay is already inactive: nothing is touched
    /// and no driver primitive is called.
    pub fn deactivate(&mut self) -> (r: Result<(), StyleError>)
        ensures
            !old(self).model().active ==> r is Ok && *final(self) == *old(self),
            r is Ok ==> final(self).model() == deactivated(old(self).model()),
            r is Err ==> final(self).model().active == old(self).model().active,
            final(self).model().active_opacity == old(self).model().active_opacity,
            final(self).model().inactive_opacity == old(self).model().inactive_opacity,
    {
        if !self.active {
            return Ok(());
        }
        match self.window.make_overlay() {
            Err(e) => {
                return Err(e);
            },
            Ok(()) => {},
        }
        match self.window.set_opacity(self.inactive_opacity) {
            Err(e) => {
                return Err(e);
            },
            Ok(()) => {},
        }
        self.active = false;
        Ok(())
    }

    /// True when the overlay can be interacted with.
    pub fn is_active(&self) -> (r: bool)
        ensures
            r == self.model().active,
    {
        self.active
    }

    /// Returns the underlying window, through its driver, for the
    /// renderer to draw into.
    ///
    /// Be careful when manipulating the window by hand: restyling it
    /// outside `toggle`/`activate`/`deactivate` can leave the overlay's
    /// recorded state out of step with the window.
    pub fn window(&self) -> (r: &D)
        ensures
            r.condition() == self.model().condition,
    {
        &self.window
    }
}

/// Why an overlay could not be built.
#[derive(Debug, PartialEq, Eq)]
pub enum OverlayCreationError {
    /// The window system refused to create or configure a window (for
    /// example, no display was available). The message is the window
    /// system's own.
    WindowSystem(String),
    /// A window-style primitive failed while the window was being
    /// adapted into an overlay.
    Style(StyleError),
}

/// Accumulates overlay configuration, then adapts a platform window into
/// an `Overlay`. Every setter consumes the builder and returns the next
/// configuration value; nothing is mutated in place.
pub struct OverlayBuilder {
    title: Option<String>,
    active_opacity: Option<u8>,
    inactive_opacity: Option<u8>,
    position: Option<(i32, i32)>,
    size: Option<(u32, u32)>,
}

impl OverlayBuilder {
    /// The configured title, if one was set.
    pub closed spec fn spec_title(&self) -> Option<Seq<char>> {
        match self.title {
            Some(t) => Some(t@),
            None => None,
        }
    }

    /// The opacity the overlay will use while active: the configured
    /// value, or 255 (fully opaque).
    pub closed spec fn spec_active_opacity(&self) -> u8 {
        match self.active_opacity {
            Some(o) => o,
            None => 255,
        }
    }

    /// The opacity the overlay will use while inactive: the configured
    /// value, or 0 (fully transparent).
    pub closed spec fn spec_inactive_opacity(&self) -> u8 {
        match self.inactive_opacity {
            Some(o) => o,
            None => 0,
        }
    }

    /// The configured position, if one was set.
    pub closed spec fn spec_position(&self) -> Option<(i32, i32)> {
        self.position
    }

    /// The configured size, if one was set.
    pub closed spec fn spec_size(&self) -> Option<(u32, u32)> {
        self.size
    }

    /// A builder with nothing configured: no title, opacity 255 when
    /// active and 0 when inactive, position at the origin, and the size
    /// of the monitor the window comes up on.
    pub fn new() -> (r: Self)
        ensures
            r.spec_title() is None,
            r.spec_active_opacity() == 255,
            r.spec_inactive_opacity() == 0,
            r.spec_position() is None,
            r.spec_size() is None,
    {
        OverlayBuilder {
            title: None,
            active_opacity: None,
            inactive_opacity: None,
            position: None,
            size: None,
        }
    }

    /// Set the overlay's window title.
    pub fn with_title(self, title: String) -> (r: Self)
        ensures
            r.spec_title() == Some(title@),
            r.spec_active_opacity() == self.spec_active_opacity(),
            r.spec_inactive_opacity() == self.spec_inactive_opacity(),
            r.spec_position() == self.spec_position(),
            r.spec_size() == self.spec_size(),
    {
        OverlayBuilder { title: Some(title), ..self }
    }

    /// Set the opacity of the overlay when it is active.
    pub fn with_active_opacity(self, opacity: u8) -> (r: Self)
        ensures
            r.spec_active_opacity() == opacity,
            r.spec_title() == self.spec_title(),
            r.spec_inactive_opacity() == self.spec_inactive_opacity(),
            r.spec_position() == self.spec_position(),
            r.spec_size() == self.spec_size(),
    {
        OverlayBuilder { active_opacity: Some(opacity), ..self }
    }

    /// Set the opacity of the overlay when it is not active.
    pub fn with_inactive_opacity(self, opacity: u8) -> (r: Self)
        ensures
            r.spec_inactive_opacity() == opacity,
            r.spec_title() == self.spec_title(),
            r.spec_active_opacity() == self.spec_active_opacity(),
            r.spec_position() == self.spec_position(),
            r.spec_size() == self.spec_size(),
    {
        OverlayBuilder { inactive_opacity: Some(opacity), ..self }
    }

    /// Set the logical position the window is placed at.
    pub fn with_position(self, x: i32, y: i32) -> (r: Self)
        ensures
            r.spec_position() == Some((x, y)),
            r.spec_title() == self.spec_title(),
            r.spec_active_opacity() == self.spec_active_opacity(),
            r.spec_inactive_opacity() == self.spec_inactive_opacity(),
            r.spec_size() == self.spec_size(),
    {
        OverlayBuilder { position: Some((x, y)), ..self }
    }

    /// Set the logical size the window is given.
    pub fn with_size(self, width: u32, height: u32) -> (r: Self)
        ensures
            r.spec_size() == Some((width, height)),
            r.spec_title() == self.spec_title(),
            r.spec_active_opacity() == self.spec_active_opacity(),
            r.spec_inactive_opacity() == self.spec_inactive_opacity(),
            r.spec_position() == self.spec_position(),
    {
        OverlayBuilder { size: Some((width, height)), ..self }
    }

    /// The configured title, for the code that creates the window.
    pub fn title(&self) -> (r: &Option<String>)
        ensures
            r is Some <==> self.spec_title() is Some,
            r matches Some(t) ==> self.spec_title() == Some(t@),
    {
        &self.title
    }

    /// The opacity the overlay will use while active.
    pub fn active_opacity(&self) -> (r: u8)
        ensures
            r == self.spec_active_opacity(),
    {
        match self.active_opacity {
            Some(o) => o,
            None => 255,
        }
    }

    /// The opacity the overlay will use while inactive.
    pub fn inactive_opacity(&self) -> (r: u8)
        ensures
            r == self.spec_inactive_opacity(),
    {
        match self.inactive_opacity {
            Some(o) => o,
            None => 0,
        }
    }

    /// The logical position the window is placed at: the configured one,
    /// or the origin.
    pub fn position(&self) -> (r: (i32, i32))
        ensures
            r == (match self.spec_position() {
                Some(p) => p,
                None => (0, 0),
            }),
    {
        match self.position {
            Some(p) => p,
            None => (0, 0),
        }
    }

    /// The configured logical size, or `None` for the full size of the
    /// monitor the window is created on.
    pub fn size(&self) -> (r: Option<(u32, u32)>)
        ensures
            r == self.spec_size(),
    {
        self.size
    }

    /// Adapt a platform window, already created and handed over through
    /// its driver, into an overlay: mark it as an overlay and set its
    /// translucency to the inactive opacity. The overlay starts inactive,
    /// visible but click-through.
    ///
    /// Fails with `OverlayCreationError::Style` when a window-style
    /// primitive fails; the window may then be left partially restyled.
    pub fn build<D: WindowDriver>(self, window: D) -> (r: Result<Overlay<D>, OverlayCreationError>)
        ensures
            r matches Ok(ov) ==> ov.model() == (OverlayModel {
                active: false,
                active_opacity: self.spec_active_opacity(),
                inactive_opacity: self.spec_inactive_opacity(),
                condition: WindowCondition {
                    click_through: true,
                    opacity: self.spec_inactive_opacity(),
                },
            }),
            r matches Ok(ov) ==> in_sync(ov.model()),
            r matches Err(e) ==> e is Style,
    {
        let mut window = window;
        match window.make_overlay() {
            Err(e) => {
                return Err(OverlayCreationError::Style(e));
            },
            Ok(()) => {},
        }
        let inactive = self.inactive_opacity();
        match window.set_opacity(inactive) {
            Err(e) => {
                return Err(OverlayCreationError::Style(e));
            },
            Ok(()) => {},
        }
        Ok(Overlay {
            window,
            active: false,
            active_opacity: self.active_opacity(),
            inactive_opacity: inactive,
        })
    }
}

/// The overlay state machine for call sites that cannot give away
/// ownership of the window: the same two-state model as `Overlay`, with
/// the window handed in, through its driver, on every operation.
///
/// The caller is responsible for passing the same window each time;
/// passing another desynchronizes the recorded state from that window's
/// condition.
pub struct BorrowedOverlay {
    active: bool,
    /// The translucency level used while active.
    pub active_opacity: u8,
    /// The translucency level used while inactive.
    pub inactive_opacity: u8,
}

impl BorrowedOverlay {
    /// The recorded interaction mode.
    pub closed spec fn spec_active(&self) -> bool {
        self.active
    }

    /// The translucency level used while active.
    pub closed spec fn spec_active_opacity(&self) -> u8 {
        self.active_opacity
    }

    /// The translucency level used while inactive.
    pub closed spec fn spec_inactive_opacity(&self) -> u8 {
        self.inactive_opacity
    }

    /// The state of this overlay, joined with the condition of the
    /// window it is about to operate on.
    pub open spec fn model_with(&self, condition: WindowCondition) -> OverlayModel {
        OverlayModel {
            active: self.spec_active(),
            active_opacity: self.spec_active_opacity(),
            inactive_opacity: self.spec_inactive_opacity(),
            condition: condition,
        }
    }

    /// A borrowed overlay in the given state, with the given opacity
    /// levels.
    pub fn new(active: bool, active_opacity: u8, inactive_opacity: u8) -> (r: Self)
        ensures
            r.spec_active() == active,
            r.spec_active_opacity() == active_opacity,
            r.spec_inactive_opacity() == inactive_opacity,
    {
        BorrowedOverlay { active, active_opacity, inactive_opacity }
    }

    /// Toggle the overlay between its two interaction modes.
    pub fn toggle<D: WindowDriver>(&mut self, window: &mut D) -> (r: Result<(), StyleError>)
        ensures
            r is Ok ==> final(self).model_with(final(window).condition()) == toggled(
                old(self).model_with(old(window).condition()),
            ),
            r is Err ==> final(self).spec_active() == old(self).spec_active(),
            final(self).spec_active_opacity() == old(self).spec_active_opacity(),
            final(self).spec_inactive_opacity() == old(self).spec_inactive_opacity(),
    {
        if !self.active {
            self.activate(window)
        } else {
            self.deactivate(window)
        }
    }

    /// Make the overlay clickable, rendered at its active opacity.
    ///
    /// A no-op when the overlay is already active: the window is not
    /// touched and no driver primitive is called.
    pub fn activate<D: WindowDriver>(&mut self, window: &mut D) -> (r: Result<(), StyleError>)
        ensures
            old(self).spec_active() ==> r is Ok && *final(self) == *old(self) && *final(window)
                == *old(window),
            r is Ok ==> final(self).model_with(final(window).condition()) == activated(
                old(self).model_with(old(window).condition()),
            ),
            r is Err ==> final(self).spec_active() == old(self).spec_active(),
            final(self).spec_active_opacity() == old(self).spec_active_opacity(),
            final(self).spec_inactive_opacity() == old(self).spec_inactive_opacity(),
    {
        if self.active {
            return Ok(());
        }
        match window.make_clickable() {
            Err(e) => {
                return Err(e);
            },
            Ok(()) => {},
        }
        match window.set_opacity(self.active_opacity) {
            Err(e) => {
                return Err(e);
            },
            Ok(()) => {},
        }
        self.active = true;
        Ok(())
    }

    /// Make the overlay transparent to input, rendered at its inactive
    /// opacity.
    ///
    /// A no-op when the overlay is already inactive: the window is not
    /// touched and no driver primitive is called.
    pub fn deactivate<D: WindowDriver>(&mut self, window: &mut D) -> (r: Result<(), StyleError>)
        ensures
            !old(self).spec_active() ==> r is Ok && *final(self) == *old(self) && *final(window)
                == *old(window),
            r is Ok ==> final(self).model_with(final(window).condition()) == deactivated(
                old(self).model_with(old(window).condition()),
            ),
            r is Err ==> final(self).spec_active() == old(self).spec_active(),
            final(self).spec_active_opacity() == old(self).spec_active_opacity(),
            final(self).spec_inactive_opacity() == old(self).spec_inactive_opacity(),
    {
        if !self.active {
            return Ok(());
        }
        match window.make_overlay() {
            Err(e) => {
                return Err(e);
            },
            Ok(()) => {},
        }
        match window.set_opacity(self.inactive_opacity) {
            Err(e) => {
                return Err(e);
            },
            Ok(()) => {},
        }
        self.active = false;
        Ok(())
    }

    /// True if the overlay can be interacted with through mouse clicks.
    pub fn is_active(&self) -> (r: bool)
        ensures
            r == self.spec_active(),
    {
        self.active
    }
}

} // verus!
