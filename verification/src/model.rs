//! The mathematical model of the overlay state machine: the logical state
//! together with the OS-visible window condition, the transition functions
//! the executable methods are specified against, and the laws the machine
//! obeys.

use vstd::prelude::*;

use crate::driver::WindowCondition;

verus! {

/// The state of an overlay as the contracts see it: the recorded
/// activation flag, the two configured opacity levels, and the condition
/// the window itself is in.
pub struct OverlayModel {
    /// The recorded interaction mode: true when the overlay is active.
    pub active: bool,
    /// The translucency level used while active.
    pub active_opacity: u8,
    /// The translucency level used while inactive.
    pub inactive_opacity: u8,
    /// The OS-visible condition of the window.
    pub condition: WindowCondition,
}

/// The window condition that belongs to the active state: the window
/// receives input and is rendered at the active opacity.
pub open spec fn active_condition(m: OverlayModel) -> WindowCondition {
    WindowCondition { click_through: false, opacity: m.active_opacity }
}

/// The window condition that belongs to the inactive state: input falls
/// through and the window is rendered at the inactive opacity.
pub open spec fn inactive_condition(m: OverlayModel) -> WindowCondition {
    WindowCondition { click_through: true, opacity: m.inactive_opacity }
}

/// The core invariant: the window condition matches the recorded state,
/// so there is no observable clickable-but-inactive or
/// click-through-but-active window.
pub open spec fn in_sync(m: OverlayModel) -> bool {
    m.condition == if m.active { active_condition(m) } else { inactive_condition(m) }
}

/// The `activate` transition: a no-op when already active, otherwise the
/// state becomes active and the window becomes clickable at the active
/// opacity.
pub open spec fn activated(m: OverlayModel) -> OverlayModel {
    if m.active {
        m
    } else {
        OverlayModel { active: true, condition: active_condition(m), ..m }
    }
}

/// The `deactivate` transition: a no-op when already inactive, otherwise
/// the state becomes inactive and the window becomes click-through at the
/// inactive opacity.
pub open spec fn deactivated(m: OverlayModel) -> OverlayModel {
    if !m.active {
        m
    } else {
        OverlayModel { active: false, condition: inactive_condition(m), ..m }
    }
}

/// The `toggle` transition: dispatches on the current state.
pub open spec fn toggled(m: OverlayModel) -> OverlayModel {
    if m.active {
        deactivated(m)
    } else {
        activated(m)
    }
}

/// One of the three state-transition operations an overlay exposes.
pub enum OverlayOp {
    Toggle,
    Activate,
    Deactivate,
}

/// The transition an operation performs.
pub open spec fn apply_op(m: OverlayModel, op: OverlayOp) -> OverlayModel {
    match op {
        OverlayOp::Toggle => toggled(m),
        OverlayOp::Activate => activated(m),
        OverlayOp::Deactivate => deactivated(m),
    }
}

/// The state after a whole sequence of operations, applied first to last.
pub open spec fn apply_ops(m: OverlayModel, ops: Seq<OverlayOp>) -> OverlayModel
    decreases ops.len(),
{
    if ops.len() == 0 {
        m
    } else {
        apply_ops(apply_op(m, ops.first()), ops.drop_first())
    }
}

/// No transition changes the configured opacity levels.
pub proof fn lemma_op_keeps_opacities(m: OverlayModel, op: OverlayOp)
    ensures
        apply_op(m, op).active_opacity == m.active_opacity,
        apply_op(m, op).inactive_opacity == m.inactive_opacity,
{
}

/// Law: every transition keeps the recorded state and the window
/// condition in agreement. From a synchronized state, each of `toggle`,
/// `activate` and `deactivate` leads to a synchronized state.
pub proof fn lemma_op_preserves_sync(m: OverlayModel, op: OverlayOp)
    requires
        in_sync(m),
    ensures
        in_sync(apply_op(m, op)),
{
}

/// Law: after any sequence of `toggle`/`activate`/`deactivate`
/// transitions from a synchronized state, the recorded state still
/// matches one of the two window conditions exactly: active and
/// clickable at the active opacity, or inactive and click-through at the
/// inactive opacity.
pub proof fn lemma_ops_preserve_sync(m: OverlayModel, ops: Seq<OverlayOp>)
    requires
        in_sync(m),
    ensures
        in_sync(apply_ops(m, ops)),
    decreases ops.len(),
{
    if ops.len() > 0 {
        lemma_op_preserves_sync(m, ops.first());
        lemma_ops_preserve_sync(apply_op(m, ops.first()), ops.drop_first());
    }
}

/// Law: activating an already-active overlay changes nothing.
pub proof fn lemma_activate_idempotent(m: OverlayModel)
    requires
        m.active,
    ensures
        activated(m) == m,
{
}

/// Law: deactivating an already-inactive overlay changes nothing.
pub proof fn lemma_deactivate_idempotent(m: OverlayModel)
    requires
        !m.active,
    ensures
        deactivated(m) == m,
{
}

/// Law: toggling twice returns a synchronized overlay to exactly the
/// state it started from, opacity and input routing included. (A state
/// the machine can actually be in is synchronized; from a desynchronized
/// condition the first toggle restores the canonical condition instead.)
pub proof fn lemma_toggle_twice(m: OverlayModel)
    requires
        in_sync(m),
    ensures
        toggled(toggled(m)) == m,
{
}

} // verus!
