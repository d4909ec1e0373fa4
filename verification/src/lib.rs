//! Networked-simulation core for a real-time multiplayer arcade game.
//!
//! The library keeps a server's authoritative simulation and its clients'
//! predicted simulations consistent over an unreliable, latent, out-of-order
//! transport. It buffers per-frame update batches so late or reordered
//! messages can still be applied at the right simulation frame, estimates
//! each peer's clock offset and lag from a sparse ping/pong exchange, and
//! manages per-connection lifecycle state. The transport itself, the wire
//! codec and the rendering/scheduling harness are external collaborators:
//! they hand this library plain values and take plain values back.

use vstd::prelude::*;

pub mod broadcast;
pub mod components;
pub mod frame_buffer;
pub mod health_ui;
pub mod latency;
pub mod level;
pub mod net_connection_manager;
pub mod schedule;

verus! {

/// Opaque per-connection (and per-entity, per-update) identifier.
pub type NetIdentifier = u64;

} // verus!
