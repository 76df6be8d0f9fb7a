use vstd::prelude::*;

verus! {

/// Structure for event-loop configuration.
#[derive(Debug, Clone, Copy)]
pub struct Config {
    events_capacity: usize,
}

impl View for Config {
    type V = usize;

    /// The events capacity.
    closed spec fn view(&self) -> usize {
        self.events_capacity
    }
}

impl Config {
    /// Creates new event loop config
    pub fn new(events_capacity: usize) -> (config: Config)
        ensures
            config@ == events_capacity,
    {
        Config { events_capacity: events_capacity }
    }

    /// Returns events capacity.
    pub fn get_events_capacity(&self) -> (capacity: usize)
        ensures
            capacity == self@,
    {
        self.events_capacity
    }
}

} // verus!
