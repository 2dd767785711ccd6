//! The executor facade: the one operation external collaborators invoke.
//! `execute` evaluates an action tree into its audit description and its
//! complete injection plan. The caller owns the exclusive injection
//! resource: it performs the returned plan against the operating system
//! while it holds that resource, measures the elapsed wall-clock time
//! around the run, and blocks any concurrent invocation until the whole
//! plan, nested suspensions included, has finished.

use vstd::prelude::*;
use crate::enums::InputAction;
use crate::events::{total_sleep_ms, InjectionEvent};
use crate::simulator::{action_events, describe, InputSimulator};

verus! {

/// Owns the interpreter and exposes the single entry point of the engine.
pub struct ActionExecutor {
    simulator: InputSimulator,
}

impl ActionExecutor {
    pub fn new() -> (executor: ActionExecutor) {
        ActionExecutor { simulator: InputSimulator::new() }
    }

    /// Evaluates one action tree and returns its audit description together
    /// with its complete injection plan, in the order the events must be
    /// performed. Performing the plan suspends for the plan's total sleep
    /// time, so a run takes at least `total_sleep_ms` of the returned plan.
    pub fn execute(&self, action: &InputAction) -> (outcome: (String, Vec<InjectionEvent>))
        ensures
            outcome.0@ == describe(*action),
            outcome.1.deep_view() == action_events(*action),
            total_sleep_ms(outcome.1.deep_view()) == total_sleep_ms(action_events(*action)),
    {
        let mut events: Vec<InjectionEvent> = Vec::new();
        proof {
            assert(events.deep_view() =~= Seq::<crate::events::EventV>::empty());
        }
        let description = self.simulator.execute_action(action, &mut events);
        proof {
            assert(events.deep_view() =~= action_events(*action));
        }
        (description, events)
    }

    /// Reports the screen size the interpreter knows; size discovery is not
    /// wired to the platform, so both dimensions are zero.
    pub fn get_screen_size(&self) -> (size: (u32, u32))
        ensures
            size.0 == 0 && size.1 == 0,
    {
        self.simulator.get_screen_size()
    }

    /// The underlying interpreter.
    pub fn simulator(&self) -> &InputSimulator {
        &self.simulator
    }
}

} // verus!
