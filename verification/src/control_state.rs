//! Pacing state for a front end driving the automaton: whether automatic
//! stepping is enabled, and how many steps one tick performs.

use vstd::prelude::*;

verus! {

/// The caller-side stepping controls. The engine itself performs no pacing;
/// a front end reads these to decide how often to step.
pub struct ControlState {
    /// Whether stepping happens automatically on every tick.
    pub enabled: bool,
    /// How many generations a single tick advances.
    pub step_size: usize,
}

impl Default for ControlState {
    /// By default stepping is automatic, one generation per tick.
    fn default() -> (control: Self)
        ensures
            control.enabled == true,
            control.step_size == 1,
    {
        ControlState { enabled: true, step_size: 1 }
    }
}

} // verus!
