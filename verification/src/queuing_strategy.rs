//! The queuing strategy that a stream is built with.
use vstd::prelude::*;

verus! {

/// A queuing strategy: the high-water mark, in chunks, up to which the host
/// buffers ahead in its own queue.
#[derive(Debug)]
pub struct QueuingStrategy {
    high_water_mark: u32,
}

impl View for QueuingStrategy {
    type V = u32;

    closed spec fn view(&self) -> u32 {
        self.high_water_mark
    }
}

impl QueuingStrategy {
    /// The strategy with the given high-water mark.
    pub fn new(high_water_mark: u32) -> (strategy: Self)
        ensures
            strategy@ == high_water_mark,
    {
        QueuingStrategy { high_water_mark }
    }

    /// The high-water mark that is handed to the host.
    pub fn into_raw(self) -> (high_water_mark: u32)
        ensures
            high_water_mark == self@,
    {
        self.high_water_mark
    }
}

} // verus!
