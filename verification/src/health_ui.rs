//! The health-bar UI system's identity.
//!
//! The system's per-tick body positions and fills the on-screen health bar
//! from floating-point screen coordinates through the engine's UI widgets;
//! rendering and UI layout are outside this core. Only the system's handle
//! is defined here so the scheduler can name it.

use vstd::prelude::*;

verus! {

/// Handle under which the health-bar UI system is registered with the
/// tick scheduler.
pub struct HealthUiSystem;

impl HealthUiSystem {
    pub fn new() -> (r: Self) {
        HealthUiSystem
    }
}

} // verus!
