use vstd::prelude::*;
use crate::interrupt::Priority;

verus! {

/// Start-up configuration.
#[non_exhaustive]
pub struct Config {
    /// Priority of the time driver's comparator interrupts.
    pub time_interrupt_priority: Priority,
}

impl Default for Config {
    /// The default configuration: time interrupts at priority 1.
    fn default() -> (r: Self)
        ensures
            r.time_interrupt_priority == Priority::Priority1,
    {
        Config { time_interrupt_priority: Priority::Priority1 }
    }
}

} // verus!
