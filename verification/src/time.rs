//! Time values and the sources that provide them.
use vstd::prelude::*;

verus! {

/// A duration or timestamp in milliseconds.
pub type Milliseconds = u32;

/// A source of the current time, implemented by the application for its
/// platform clock.
pub trait TimeProvider {
    /// The time every reading of this clock gives while the clock is not
    /// changed, when the clock only moves when told to; `None` (the default)
    /// for a clock that runs on its own, whose readings nothing here predicts.
    open spec fn steady_reading(&self) -> Option<Milliseconds> {
        None
    }

    /// The current time in milliseconds.
    fn current_time_ms(&self) -> (r: Milliseconds)
        ensures
            self.steady_reading() matches Some(t) ==> r == t,
    ;
}

/// A clock that only moves when told to; for tests and simulations.
#[derive(Debug, Clone, Copy)]
pub struct ManualTimeProvider {
    current_time: Milliseconds,
}

impl ManualTimeProvider {
    /// The time this clock shows.
    pub closed spec fn time(&self) -> Milliseconds {
        self.current_time
    }

    /// A clock at time zero.
    pub fn new() -> (r: Self)
        ensures
            r.time() == 0,
    {
        ManualTimeProvider { current_time: 0 }
    }

    /// Moves the clock forward, stopping at the largest representable time.
    pub fn advance_ms(&mut self, ms: Milliseconds)
        ensures
            final(self).time() == (if old(self).time() + ms > u32::MAX {
                u32::MAX as int
            } else {
                old(self).time() + ms
            }),
    {
        self.current_time = self.current_time.saturating_add(ms);
    }

    /// Sets the clock.
    pub fn set_time_ms(&mut self, time: Milliseconds)
        ensures
            final(self).time() == time,
    {
        self.current_time = time;
    }

    /// The time this clock shows.
    pub fn now_ms(&self) -> (r: Milliseconds)
        ensures
            r == self.time(),
    {
        self.current_time
    }
}

impl TimeProvider for ManualTimeProvider {
    open spec fn steady_reading(&self) -> Option<Milliseconds> {
        Some(self.time())
    }

    fn current_time_ms(&self) -> (r: Milliseconds)
        ensures
            r == self.time(),
    {
        self.current_time
    }
}

} // verus!
