//! Remaps events from exclusively grabbed physical input devices to other key
//! combinations, re-emitted through a synthetic virtual device.
//!
//! The verified core is the transformation pipeline: a normalized event
//! vocabulary ([`events`]), a pure rule table mapping one normalized event to
//! at most one action ([`rules`]), and the per-event decision of a device
//! session's forwarding loop ([`session`]). The surrounding shell — device
//! discovery, grabbing, virtual-device construction and the blocking
//! read-emit loop — is ordinary I/O and lives outside this library.

pub mod events;
pub mod rules;
pub mod session;
