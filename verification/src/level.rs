//! The level-progression system's identity.
//!
//! The system's per-tick body schedules monster spawns from wall-clock time
//! through a floating-point interval formula; spawning rules are gameplay
//! logic outside this core, so that body lives with the application driver.
//! Only the system's handle is defined here so the scheduler can name it.

use vstd::prelude::*;

verus! {

/// Handle under which the level-progression system is registered with the
/// tick scheduler.
pub struct LevelSystem;

impl LevelSystem {
    pub fn new() -> (r: Self) {
        LevelSystem
    }
}

} // verus!
