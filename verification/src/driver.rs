//! The platform window-style driver surface: the three primitives the
//! activation state machine needs from the underlying window system, a
//! model of the OS-visible window condition they manipulate, and an
//! in-memory stub driver for tests.

use vstd::prelude::*;

verus! {

/// The OS-visible window attributes that the activation state machine is
/// responsible for: whether input passes through the window to whatever
/// lies beneath it, and the translucency level it is rendered at.
///
/// Opacity is a byte: 255 is fully opaque, 0 fully transparent.
#[derive(Clone, Copy, Debug, PartialEq, Eq, Structural)]
pub struct WindowCondition {
    /// True when pointer and keyboard events fall through to the windows
    /// beneath; false when the window receives input normally.
    pub click_through: bool,
    /// The translucency level the window is rendered at.
    pub opacity: u8,
}

/// A window-style primitive reported its failure sentinel.
///
/// A failed primitive may have left the window partially restyled, so a
/// caller must not record the transition it was part of as done, and must
/// not retry it blindly; see the contracts on `Overlay`.
#[derive(Clone, Copy, Debug, PartialEq, Eq, Structural)]
pub enum StyleError {
    /// Reading the current window style returned the failure sentinel.
    QueryFailure,
    /// Writing a style or translucency attribute returned the failure
    /// sentinel.
    WriteFailure,
}

/// One invocation of a platform-driver primitive, as recorded by the call
/// log of `StubDriver`.
#[derive(Clone, Copy, Debug, PartialEq, Eq, Structural)]
pub enum DriverCall {
    MakeOverlay,
    MakeClickable,
    SetOpacity(u8),
}

/// The platform window-style driver: the three primitives the overlay
/// state machine is built on. One concrete implementation exists per
/// target window system and is selected when the program around the
/// library is built; `StubDriver` is an in-memory implementation for
/// tests.
///
/// Each primitive either completes as a whole or reports a `StyleError`;
/// after an error the window may be left partially restyled, so nothing
/// is promised about the condition then.
pub trait WindowDriver: Sized {
    /// The OS-visible condition of the window this driver controls.
    spec fn condition(&self) -> WindowCondition;

    /// Mark the window as an overlay: always on top and transparent to
    /// input. The translucency level is set separately, by `set_opacity`.
    fn make_overlay(&mut self) -> (r: Result<(), StyleError>)
        ensures
            r is Ok ==> final(self).condition().click_through,
    ;

    /// Make the window receive input normally again.
    fn make_clickable(&mut self) -> (r: Result<(), StyleError>)
        ensures
            r is Ok ==> !final(self).condition().click_through,
    ;

    /// Set the window's translucency level, leaving input routing as it
    /// was.
    fn set_opacity(&mut self, opacity: u8) -> (r: Result<(), StyleError>)
        ensures
            r is Ok ==> final(self).condition() == (WindowCondition {
                click_through: old(self).condition().click_through,
                opacity: opacity,
            }),
    ;
}

/// An in-memory window-style driver: the platform-driver stub that tests
/// run the state machine against. It keeps the window condition as plain
/// data, records every primitive call, and can be told to start failing
/// after a chosen number of calls, to exercise the error paths.
pub struct StubDriver {
    state: WindowCondition,
    calls: Vec<DriverCall>,
    fail_from: Option<usize>,
}

impl StubDriver {
    /// The primitive calls made so far, earliest first.
    pub closed spec fn calls_seq(&self) -> Seq<DriverCall> {
        self.calls@
    }

    /// The call index from which every primitive fails, if a failure was
    /// injected.
    pub closed spec fn fail_point(&self) -> Option<usize> {
        self.fail_from
    }

    /// True when the next primitive call will report `WriteFailure`.
    pub open spec fn failing(&self) -> bool {
        match self.fail_point() {
            Some(n) => self.calls_seq().len() >= n,
            None => false,
        }
    }

    /// A stub for a freshly created window: it receives input normally
    /// and is fully opaque. Its primitives never fail.
    pub fn new() -> (r: Self)
        ensures
            r.condition() == (WindowCondition { click_through: false, opacity: 255 }),
            r.calls_seq() == Seq::<DriverCall>::empty(),
            r.fail_point() is None,
    {
        StubDriver {
            state: WindowCondition { click_through: false, opacity: 255 },
            calls: Vec::new(),
            fail_from: None,
        }
    }

    /// Like `new`, but every primitive call from index `n` on (counting
    /// from 0) fails with `WriteFailure`.
    pub fn failing_from(n: usize) -> (r: Self)
        ensures
            r.condition() == (WindowCondition { click_through: false, opacity: 255 }),
            r.calls_seq() == Seq::<DriverCall>::empty(),
            r.fail_point() == Some(n),
    {
        StubDriver {
            state: WindowCondition { click_through: false, opacity: 255 },
            calls: Vec::new(),
            fail_from: Some(n),
        }
    }

    /// The call log, for a test to inspect.
    pub fn calls(&self) -> (r: &Vec<DriverCall>)
        ensures
            r@ == self.calls_seq(),
    {
        &self.calls
    }

    /// The condition the stubbed window is in, for a test to inspect.
    pub fn observed_condition(&self) -> (r: WindowCondition)
        ensures
            r == self.condition(),
    {
        self.state
    }

    fn about_to_fail(&self) -> (r: bool)
        ensures
            r == self.failing(),
    {
        match self.fail_from {
            Some(n) => self.calls.len() >= n,
            None => false,
        }
    }
}

impl WindowDriver for StubDriver {
    closed spec fn condition(&self) -> WindowCondition {
        self.state
    }

    fn make_overlay(&mut self) -> (r: Result<(), StyleError>) {
        let failing = self.about_to_fail();
        self.calls.push(DriverCall::MakeOverlay);
        if failing {
            Err(StyleError::WriteFailure)
        } else {
            self.state.click_through = true;
            Ok(())
        }
    }

    fn make_clickable(&mut self) -> (r: Result<(), StyleError>) {
        let failing = self.about_to_fail();
        self.calls.push(DriverCall::MakeClickable);
        if failing {
            Err(StyleError::WriteFailure)
        } else {
            self.state.click_through = false;
            Ok(())
        }
    }

    fn set_opacity(&mut self, opacity: u8) -> (r: Result<(), StyleError>) {
        let failing = self.about_to_fail();
        self.calls.push(DriverCall::SetOpacity(opacity));
        if failing {
            Err(StyleError::WriteFailure)
        } else {
            self.state.opacity = opacity;
            Ok(())
        }
    }
}

} // verus!
