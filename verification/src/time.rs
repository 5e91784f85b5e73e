use vstd::prelude::*;

use std::time::SystemTime;

verus! {

/// A monotonic clock, in milliseconds. No wall-clock meaning is promised;
/// only differences between readings matter.
pub trait TimeManagerInterface {
    /// The clock's current reading in milliseconds.
    fn now(&self) -> u64;

    /// How many milliseconds have passed since the earlier reading
    /// `time_in_the_past_ms`, and zero for a reading from the future.
    fn since(&self, time_in_the_past_ms: u64) -> u64;
}

/// The host's clock.
#[derive(Debug, Copy, Clone)]
pub struct TimeManager {}

impl TimeManager {
    /// A handle on the host's clock.
    pub fn new() -> TimeManager {
        TimeManager {  }
    }
}

/// Relies on std's SystemTime::now and duration_since: milliseconds since
/// the epoch, or zero if the host clock reads before it. Nothing can be
/// promised of a clock reading.
#[verifier::external_body]
fn system_now_ms() -> u64 {
    SystemTime::now().duration_since(SystemTime::UNIX_EPOCH).map_or(
        0,
        |d| d.as_millis() as u64,
    )
}

impl TimeManagerInterface for TimeManager {
    fn now(&self) -> u64 {
        system_now_ms()
    }

    fn since(&self, time_in_the_past_ms: u64) -> u64 {
        self.now().saturating_sub(time_in_the_past_ms)
    }
}

/// The board's free-running system timer. Reading it touches memory-mapped
/// registers, which belongs to the board bring-up outside this crate's
/// verified core; the core only carries the handle.
#[derive(Debug, Copy, Clone)]
pub struct BcmGpuTimer {}

impl BcmGpuTimer {
    /// A handle on the board timer.
    pub fn new() -> BcmGpuTimer {
        BcmGpuTimer {  }
    }

    /// The timer reading assembled from the counter's two halves, in
    /// microseconds.
    pub fn counter_value(counter_lower: u32, counter_higher: u32) -> (r: u64)
        ensures
            r == counter_lower as u64 + (counter_higher as u64) * 0x1_0000_0000,
    {
        let lower = counter_lower as u64;
        let upper = counter_higher as u64;
        proof {
            vstd::arithmetic::mul::lemma_mul_inequality(
                upper as int,
                0xFFFF_FFFFint,
                0x1_0000_0000int,
            );
        }
        lower + upper * 0x1_0000_0000
    }
}

} // verus!
