//! The transform engine: a fixed remapping table and the pure function that
//! maps one normalized event to at most one action.

use vstd::prelude::*;

use crate::events::clamp_key_value;
use crate::events::opt_action_model;
use crate::events::spec_clamp;
use crate::events::Action;
use crate::events::ActionModel;
use crate::events::InEvent;

verus! {

/// The remapping table: which codes trigger which emission.
///
/// Two primary triggers (one keyboard key, one controller button) are
/// aliased to the same three-key modifier chord; one secondary trigger is
/// remapped to a single output key.
#[derive(Clone, Copy, Debug, PartialEq, Eq, Structural)]
pub struct RemapConfig {
    /// Primary trigger on a keyboard-style device.
    pub primary_key: u16,
    /// Primary trigger on a controller-style device, aliased to the same
    /// chord as `primary_key`.
    pub primary_button: u16,
    /// First modifier key of the chord.
    pub chord_first: u16,
    /// Second modifier key of the chord.
    pub chord_second: u16,
    /// Third modifier key of the chord.
    pub chord_third: u16,
    /// Secondary trigger, remapped to a single key.
    pub secondary_key: u16,
    /// The key emitted for the secondary trigger, carrying the unclamped
    /// value of the incoming report.
    pub output_key: u16,
}

impl RemapConfig {
    /// Whether a code fires the chord rule.
    pub open spec fn is_primary_trigger(self, code: u16) -> bool {
        code == self.primary_key || code == self.primary_button
    }

    /// Whether a code fires the single-key rule.
    pub open spec fn is_secondary_trigger(self, code: u16) -> bool {
        code == self.secondary_key
    }

    /// Whether a code fires any rule at all.
    pub open spec fn is_trigger(self, code: u16) -> bool {
        self.is_primary_trigger(code) || self.is_secondary_trigger(code)
    }

    /// A well-formed table keeps the two trigger sets apart, so every
    /// trigger fires exactly one rule.
    pub open spec fn wf(self) -> bool {
        !self.is_primary_trigger(self.secondary_key)
    }
}

/// The chord batch for a primary trigger: all three modifier keys carry the
/// same clamped value, so a chord transition is always deterministic.
pub open spec fn chord_batch(cfg: RemapConfig, value: i32) -> Seq<(u16, i32)> {
    seq![
        (cfg.chord_first, spec_clamp(value)),
        (cfg.chord_second, spec_clamp(value)),
        (cfg.chord_third, spec_clamp(value)),
    ]
}

/// The whole rule table as one mathematical function. Rules are tried in
/// priority order: primary trigger, then secondary trigger, then
/// synchronization pass-through; any other code is dropped.
pub open spec fn spec_transform(cfg: RemapConfig, event: InEvent) -> Option<ActionModel> {
    match event {
        InEvent::Key { code, value } => {
            if cfg.is_primary_trigger(code) {
                Some(ActionModel::EmitKeys(chord_batch(cfg, value)))
            } else if cfg.is_secondary_trigger(code) {
                Some(ActionModel::EmitKeys(seq![(cfg.output_key, value)]))
            } else {
                None
            }
        },
        InEvent::Sync => Some(ActionModel::EmitSync),
    }
}

/// Maps one normalized event to at most one action.
///
/// The result is a function of the table and the event alone — the engine
/// holds no state, so equal inputs always give equal outputs — and is
/// pinned exactly by `spec_transform`: a chord with a clamped value for a
/// primary trigger, a single key with the unclamped value for the
/// secondary trigger, a pass-through for a synchronization marker, and
/// nothing for any other code.
pub fn transform(cfg: &RemapConfig, event: InEvent) -> (r: Option<Action>)
    ensures
        opt_action_model(r) == spec_transform(*cfg, event),
{
    match event {
        InEvent::Key { code, value } => {
            if code == cfg.primary_key || code == cfg.primary_button {
                let v = clamp_key_value(value);
                let mut pairs: Vec<(u16, i32)> = Vec::new();
                pairs.push((cfg.chord_first, v));
                pairs.push((cfg.chord_second, v));
                pairs.push((cfg.chord_third, v));
                Some(Action::EmitKeys(pairs))
            } else if code == cfg.secondary_key {
                let mut pairs: Vec<(u16, i32)> = Vec::new();
                pairs.push((cfg.output_key, value));
                Some(Action::EmitKeys(pairs))
            } else {
                None
            }
        },
        InEvent::Sync => Some(Action::EmitSync),
    }
}

/// The compiled-in table, in Linux kernel input codes: the A key and the
/// west action button trigger the chord of left shift, left alt and right
/// control; the B key is remapped to space.
pub open spec fn spec_fixed_config() -> RemapConfig {
    RemapConfig {
        primary_key: 30,
        primary_button: 308,
        chord_first: 42,
        chord_second: 56,
        chord_third: 97,
        secondary_key: 48,
        output_key: 57,
    }
}

/// Builds the compiled-in remapping table.
pub fn fixed_config() -> (c: RemapConfig)
    ensures
        c == spec_fixed_config(),
        c.wf(),
{
    RemapConfig {
        primary_key: 30,
        primary_button: 308,
        chord_first: 42,
        chord_second: 56,
        chord_third: 97,
        secondary_key: 48,
        output_key: 57,
    }
}

/// Law: a primary trigger always yields the three-key chord, all three
/// entries carrying the same clamped value, whatever the incoming value.
pub proof fn lemma_primary_trigger_chord(cfg: RemapConfig, code: u16, value: i32)
    requires
        cfg.is_primary_trigger(code),
    ensures
        spec_transform(cfg, InEvent::Key { code, value }) == Some(
            ActionModel::EmitKeys(
                seq![
                    (cfg.chord_first, spec_clamp(value)),
                    (cfg.chord_second, spec_clamp(value)),
                    (cfg.chord_third, spec_clamp(value)),
                ],
            ),
        ),
{
}

/// Law: for a well-formed table, the secondary trigger yields a single-key
/// batch carrying the original, unclamped value.
pub proof fn lemma_secondary_trigger_single_key(cfg: RemapConfig, code: u16, value: i32)
    requires
        cfg.wf(),
        cfg.is_secondary_trigger(code),
    ensures
        spec_transform(cfg, InEvent::Key { code, value }) == Some(
            ActionModel::EmitKeys(seq![(cfg.output_key, value)]),
        ),
{
}

/// Law: a synchronization marker is always answered by forwarding the
/// original raw event.
pub proof fn lemma_sync_passthrough(cfg: RemapConfig)
    ensures
        spec_transform(cfg, InEvent::Sync) == Some(ActionModel::EmitSync),
{
}

/// Law: a key report whose code is outside the trigger set produces no
/// action at all — unmapped events are dropped, never an error.
pub proof fn lemma_untriggered_code_dropped(cfg: RemapConfig, code: u16, value: i32)
    requires
        !cfg.is_trigger(code),
    ensures
        spec_transform(cfg, InEvent::Key { code, value }) is None,
{
}

} // verus!
