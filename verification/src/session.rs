//! The per-event decision of a device session's forwarding loop: normalize
//! one raw device event, run it through the transform engine, and
//! materialize the resulting action as an emission plan.
//!
//! Reading from the grabbed source device and writing to the virtual sink
//! are I/O and stay outside the library; the loop around this module only
//! performs the plan returned here.

use vstd::prelude::*;

use crate::events::normalize_event;
use crate::events::spec_normalize;
use crate::events::Action;
use crate::events::ActionModel;
use crate::events::EVENT_TYPE_KEY;
use crate::rules::spec_transform;
use crate::rules::transform;
use crate::rules::RemapConfig;

verus! {

/// Declares evdev's raw event type to the verifier. A value of it is
/// opaque here: it is read only through the trusted accessors below and
/// otherwise carried through unchanged.
#[verifier::external_type_specification]
#[verifier::external_body]
pub struct ExInputEvent(evdev::InputEvent);

/// The raw "type" field of an evdev event, as `evdev::InputEvent::event_type`
/// returns it.
pub uninterp spec fn raw_type_of(e: evdev::InputEvent) -> u16;

/// The raw "code" field of an evdev event, as `evdev::InputEvent::code`
/// returns it.
pub uninterp spec fn raw_code_of(e: evdev::InputEvent) -> u16;

/// The raw "value" field of an evdev event, as `evdev::InputEvent::value`
/// returns it.
pub uninterp spec fn raw_value_of(e: evdev::InputEvent) -> i32;

/// Relies on `evdev::InputEvent::event_type`: it returns the raw "type"
/// field of the wrapped kernel event, a plain number.
#[verifier::external_body]
fn raw_event_type(e: &evdev::InputEvent) -> (t: u16)
    ensures
        t == raw_type_of(*e),
{
    e.event_type().0
}

/// Relies on `evdev::InputEvent::code`: it returns the raw "code" field of
/// the wrapped kernel event.
#[verifier::external_body]
fn raw_code(e: &evdev::InputEvent) -> (c: u16)
    ensures
        c == raw_code_of(*e),
{
    e.code()
}

/// Relies on `evdev::InputEvent::value`: it returns the raw "value" field
/// of the wrapped kernel event.
#[verifier::external_body]
fn raw_value(e: &evdev::InputEvent) -> (v: i32)
    ensures
        v == raw_value_of(*e),
{
    e.value()
}

/// Relies on `evdev::InputEvent::new`: it builds an event holding exactly
/// the given type, code and value (with a zero timestamp the kernel fills
/// in on emission), and on `evdev::EventType::KEY` being the kernel's key
/// event type code.
#[verifier::external_body]
fn new_key_event(code: u16, value: i32) -> (r: evdev::InputEvent)
    ensures
        raw_type_of(r) == EVENT_TYPE_KEY,
        raw_code_of(r) == code,
        raw_value_of(r) == value,
{
    evdev::InputEvent::new(evdev::EventType::KEY, code, value)
}

/// A raw event that carries exactly this key state change.
pub open spec fn is_key_event_for(e: evdev::InputEvent, pair: (u16, i32)) -> bool {
    &&& raw_type_of(e) == EVENT_TYPE_KEY
    &&& raw_code_of(e) == pair.0
    &&& raw_value_of(e) == pair.1
}

/// A batch of raw key events mirroring a sequence of `(code, value)`
/// pairs, entry by entry and in the same order.
pub open spec fn is_key_batch(out: Seq<evdev::InputEvent>, pairs: Seq<(u16, i32)>) -> bool {
    &&& out.len() == pairs.len()
    &&& forall|i: int| 0 <= i < out.len() ==> is_key_event_for(#[trigger] out[i], pairs[i])
}

/// Builds one raw key event per `(code, value)` pair, keeping the order of
/// the pairs, so a chord reaches the sink as a single atomic batch.
pub fn as_input_events(pairs: &Vec<(u16, i32)>) -> (out: Vec<evdev::InputEvent>)
    ensures
        is_key_batch(out@, pairs@),
{
    let mut out: Vec<evdev::InputEvent> = Vec::new();
    let mut i: usize = 0;
    while i < pairs.len()
        invariant
            i <= pairs.len(),
            out@.len() == i,
            forall|j: int| 0 <= j < i ==> is_key_event_for(#[trigger] out@[j], pairs@[j]),
        decreases pairs.len() - i,
    {
        let (code, value) = pairs[i];
        out.push(new_key_event(code, value));
        i = i + 1;
    }
    out
}

/// What the forwarding loop must do with one raw event.
pub enum EmissionPlan {
    /// Emit these freshly built key events to the sink as one atomic batch.
    Batch(Vec<evdev::InputEvent>),
    /// Forward this raw synchronization event to the sink verbatim, not a
    /// reconstructed one.
    Forward(evdev::InputEvent),
    /// Nothing to emit: the event kind or code is not mapped.
    Skip,
}

/// What the transform engine decides for a raw event with these fields.
pub open spec fn spec_transform_raw(cfg: RemapConfig, e: evdev::InputEvent) -> Option<
    ActionModel,
> {
    match spec_normalize(raw_type_of(e), raw_code_of(e), raw_value_of(e)) {
        Some(ev) => spec_transform(cfg, ev),
        None => None,
    }
}

/// The session's obligation for one raw event: a dropped event plans
/// nothing, a synchronization marker plans forwarding the identical raw
/// event, and a key action plans a batch mirroring the action's pairs.
pub open spec fn plan_matches(cfg: RemapConfig, e: evdev::InputEvent, p: EmissionPlan) -> bool {
    match spec_transform_raw(cfg, e) {
        None => p is Skip,
        Some(ActionModel::EmitSync) => p == EmissionPlan::Forward(e),
        Some(ActionModel::EmitKeys(pairs)) => {
            &&& p is Batch
            &&& is_key_batch(p->Batch_0@, pairs)
        },
    }
}

/// One pass of the read-transform-emit pipeline: normalizes a raw device
/// event, transforms it, and returns the emission the loop must perform.
pub fn process_raw_event(cfg: &RemapConfig, event: evdev::InputEvent) -> (p: EmissionPlan)
    ensures
        plan_matches(*cfg, event, p),
{
    let t = raw_event_type(&event);
    let code = raw_code(&event);
    let value = raw_value(&event);
    match normalize_event(t, code, value) {
        None => EmissionPlan::Skip,
        Some(ev) => match transform(cfg, ev) {
            None => EmissionPlan::Skip,
            Some(Action::EmitSync) => EmissionPlan::Forward(event),
            Some(Action::EmitKeys(pairs)) => EmissionPlan::Batch(as_input_events(&pairs)),
        },
    }
}

} // verus!
