//! The interrupt-enable flag of the one core that the kernel runs on.

use vstd::prelude::*;

verus! {

/// The interrupt-enable flag of the core: while it is clear, no hardware
/// interrupt is delivered.
#[derive(Debug)]
pub struct InterruptFlag {
    enabled: bool,
}

impl View for InterruptFlag {
    type V = bool;

    closed spec fn view(&self) -> bool {
        self.enabled
    }
}

impl InterruptFlag {
    /// A flag that is set exactly if `enabled` is.
    pub fn new(enabled: bool) -> (flag: Self)
        ensures
            flag@ == enabled,
    {
        InterruptFlag { enabled }
    }

    /// Whether interrupts are delivered.
    pub fn are_enabled(&self) -> (r: bool)
        ensures
            r == self@,
    {
        self.enabled
    }

    /// Lets interrupts through from now on.
    pub fn enable(&mut self)
        ensures
            final(self)@,
    {
        self.enabled = true;
    }

    /// Holds interrupts back from now on.
    pub fn disable(&mut self)
        ensures
            !final(self)@,
    {
        self.enabled = false;
    }
}

} // verus!
