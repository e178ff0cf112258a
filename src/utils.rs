//! Helpers around the pipeline: paths, text and timing.
pub mod fs_utils;
pub mod string_utils;

use vstd::prelude::*;
use vstd::string::StringExecFns;
use crate::utils::string_utils::{format_duration, starts_with};

verus! {

#[verifier::external_type_specification]
#[verifier::external_body]
pub struct ExInstant(std::time::Instant);

/// Relies on std's `Instant::now`: the current instant of a monotonic clock.
pub assume_specification[ std::time::Instant::now ]() -> std::time::Instant;

/// Relies on std's `Instant::elapsed`: the time since the instant.
pub assume_specification[ std::time::Instant::elapsed ](i: &std::time::Instant) -> core::time::Duration;

/// A named stopwatch.
pub struct Timer {
    start: std::time::Instant,
    name: String,
}

impl Timer {
    /// The name of the timer.
    pub closed spec fn name_view(&self) -> Seq<char> {
        self.name@
    }

    /// A timer called `name`, started now.
    pub fn new(name: &str) -> (r: Timer)
        ensures
            r.name_view() == name@,
    {
        Timer { start: std::time::Instant::now(), name: String::from_str(name) }
    }

    /// The name of the timer.
    pub fn name(&self) -> (r: &str)
        ensures
            r@ == self.name_view(),
    {
        self.name.as_str()
    }

    /// The time since the timer was started or last reset.
    pub fn elapsed(&self) -> core::time::Duration {
        self.start.elapsed()
    }

    /// Starts the timer again from now; its name is kept.
    pub fn reset(&mut self)
        ensures
            final(self).name_view() == old(self).name_view(),
    {
        self.start = std::time::Instant::now();
    }

    /// Stops the timer, giving the time since it was started or last reset.
    pub fn stop(self) -> core::time::Duration {
        self.elapsed()
    }

    /// The line that reports the elapsed time: the name, then the duration.
    pub fn elapsed_report(&self) -> (r: String)
        ensures
            starts_with(r@, self.name_view() + ": "@),
    {
        let head = String::from_str(self.name.as_str()).concat(": ");
        let r = head.concat(format_duration(self.elapsed()).as_str());
        assert(r@.subrange(0, head@.len() as int) =~= head@);
        r
    }
}

} // verus!
