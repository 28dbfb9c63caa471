//! The event model: normalized input events, output actions, and the
//! value-clamping rule.

use vstd::prelude::*;

verus! {

/// Event type code of a synchronization marker in the kernel input protocol.
pub const EVENT_TYPE_SYNC: u16 = 0;

/// Event type code of a key or button state change in the kernel input
/// protocol.
pub const EVENT_TYPE_KEY: u16 = 1;

/// A normalized input event, built once per raw device read.
///
/// Only key/button reports and synchronization markers are meaningful to the
/// remapper; every other raw event kind is dropped during normalization.
#[derive(Clone, Copy, Debug, PartialEq, Eq, Structural)]
pub enum InEvent {
    /// One key or button state report: `value` 0 is a release, 1 a press,
    /// and anything greater a kernel-reported repeat or overflow report.
    Key { code: u16, value: i32 },
    /// A marker ending a batch of related events; the raw event it came
    /// from is forwarded to the sink verbatim.
    Sync,
}

/// What the remapper does in response to one normalized event.
#[derive(Clone, Debug, PartialEq, Eq)]
pub enum Action {
    /// Key state changes, each a `(key code, value)` pair, to emit together
    /// as one atomic batch.
    EmitKeys(Vec<(u16, i32)>),
    /// Forward the original raw synchronization event unchanged, so the
    /// sink sees the same batching boundary the kernel produced.
    EmitSync,
}

/// The mathematical counterpart of [`Action`], with the batch as a sequence.
#[verifier::ext_equal]
pub enum ActionModel {
    EmitKeys(Seq<(u16, i32)>),
    EmitSync,
}

impl View for Action {
    type V = ActionModel;

    open spec fn view(&self) -> ActionModel {
        match self {
            Action::EmitKeys(pairs) => ActionModel::EmitKeys(pairs@),
            Action::EmitSync => ActionModel::EmitSync,
        }
    }
}

/// Lifts the view of [`Action`] over an optional action.
pub open spec fn opt_action_model(a: Option<Action>) -> Option<ActionModel> {
    match a {
        Some(act) => Some(act@),
        None => None,
    }
}

/// The value-clamping rule for chorded emissions: values above one collapse
/// to one, while releases (zero) and presses (one) pass through unchanged.
pub open spec fn spec_clamp(v: i32) -> i32 {
    if v > 1 {
        1
    } else {
        v
    }
}

/// Clamps a key press value so chord emissions stay deterministic even when
/// the kernel reports a press value greater than one.
pub fn clamp_key_value(v: i32) -> (r: i32)
    ensures
        r == spec_clamp(v),
        v <= 1 ==> r == v,
        v > 1 ==> r == 1,
{
    if v > 1 {
        1
    } else {
        v
    }
}

/// Normalization of a raw event's fields: key reports and synchronization
/// markers survive, every other event kind is dropped.
pub open spec fn spec_normalize(event_type: u16, code: u16, value: i32) -> Option<InEvent> {
    if event_type == EVENT_TYPE_KEY {
        Some(InEvent::Key { code, value })
    } else if event_type == EVENT_TYPE_SYNC {
        Some(InEvent::Sync)
    } else {
        None
    }
}

/// Turns the raw fields of a device event into a normalized event, or
/// `None` when the event kind is neither a key report nor a
/// synchronization marker.
pub fn normalize_event(event_type: u16, code: u16, value: i32) -> (r: Option<InEvent>)
    ensures
        r == spec_normalize(event_type, code, value),
{
    if event_type == EVENT_TYPE_KEY {
        Some(InEvent::Key { code, value })
    } else if event_type == EVENT_TYPE_SYNC {
        Some(InEvent::Sync)
    } else {
        None
    }
}

} // verus!
