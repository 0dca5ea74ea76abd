//! A slew-rate limiter for 32-bit signals.

use vstd::prelude::*;
use crate::arith::{clamp, scale_floor, NANOS_PER_SECOND};

verus! {

/// Lets its output follow the input by at most a fixed amount per second,
/// up or down.
#[derive(Clone, Copy, Debug)]
pub struct RateLimiter {
    /// The largest change of the output in one second.
    pub rate: u32,
    /// The output, once an input has been seen.
    pub state: Option<i32>,
}

/// The largest change of a limited signal over a tick of `delta`
/// nanoseconds.
pub open spec fn slew_step(rate: u32, delta: u64) -> int {
    (delta * rate) / (NANOS_PER_SECOND as int)
}

impl RateLimiter {
    /// What the limiter puts out after a tick of length `delta` with the
    /// given input: the input itself the first time, and after that the
    /// input held to within one step of the output before.
    pub open spec fn next_output(self, delta: u64, input: i32) -> int {
        match self.state {
            None => input as int,
            Some(last) => clamp(
                input as int,
                last - slew_step(self.rate, delta),
                last + slew_step(self.rate, delta),
            ),
        }
    }

    /// The limiter after a tick of length `delta` with the given input.
    pub open spec fn updated(self, delta: u64, input: i32) -> RateLimiter {
        RateLimiter { state: Some(self.next_output(delta, input) as i32), ..self }
    }

    /// The output, zero before the first input.
    pub open spec fn value(self) -> i32 {
        match self.state {
            None => 0,
            Some(last) => last,
        }
    }

    pub fn new_symmetrical(rate: u32) -> (limiter: RateLimiter)
        ensures
            limiter == (RateLimiter { rate, state: None }),
    {
        RateLimiter { rate, state: None }
    }

    /// Advances the limiter by one tick and returns its output.
    pub fn update(&mut self, delta: u64, input: i32) -> (output: i32)
        ensures
            output == old(self).next_output(delta, input),
            *final(self) == old(self).updated(delta, input),
            output == final(self).value(),
    {
        let output: i32 = match self.state {
            None => input,
            Some(last) => {
                let step: i128 = scale_floor(
                    delta as i128,
                    self.rate as i128,
                    NANOS_PER_SECOND as i128,
                );
                assert(0 <= delta * self.rate <= 0x1_0000_0000_0000_0000_0000_0000)
                    by (nonlinear_arith)
                    requires
                        0 <= delta <= 0xffff_ffff_ffff_ffff,
                        0 <= self.rate <= 0xffff_ffff,
                ;
                assert(0 <= step <= 0x1_0000_0000_0000_0000_0000_0000) by (nonlinear_arith)
                    requires
                        step == (delta * self.rate) / 1_000_000_000,
                        0 <= delta * self.rate <= 0x1_0000_0000_0000_0000_0000_0000,
                ;
                let low: i128 = last as i128 - step;
                let high: i128 = last as i128 + step;
                if (input as i128) < low {
                    low as i32
                } else if input as i128 > high {
                    high as i32
                } else {
                    input
                }
            },
        };
        self.state = Some(output);
        output
    }

    pub fn output(&self) -> (output: i32)
        ensures
            output == self.value(),
    {
        match self.state {
            None => 0,
            Some(last) => last,
        }
    }
}

} // verus!
