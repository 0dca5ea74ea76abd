//! A first-order low-pass filter for 32-bit signals.

use vstd::prelude::*;
use crate::arith::scale_floor;
use crate::interpolation::lemma_part_between;

verus! {

/// Moves its output toward the input by the share `delta / (delta + tau)`
/// of their distance in each tick, `tau` being the time constant.
#[derive(Clone, Copy, Debug)]
pub struct LowPassFilter {
    /// The time constant, in nanoseconds.
    pub time_constant: u64,
    /// The filtered value.
    pub output: i32,
}

impl LowPassFilter {
    /// The filtered value after a tick of `delta` nanoseconds with the given
    /// input. A tick of no length passes the input through.
    pub open spec fn next_output(self, delta: u64, input: i32) -> int {
        if delta == 0 {
            input as int
        } else {
            self.output + (delta * (input - self.output)) / (delta + self.time_constant)
        }
    }

    /// The filter after a tick of `delta` nanoseconds with the given input.
    pub open spec fn updated(self, delta: u64, input: i32) -> LowPassFilter {
        LowPassFilter { output: self.next_output(delta, input) as i32, ..self }
    }

    pub fn new(time_constant: u64) -> (filter: LowPassFilter)
        ensures
            filter == (LowPassFilter { time_constant, output: 0 }),
    {
        LowPassFilter { time_constant, output: 0 }
    }

    /// Advances the filter by one tick and returns the filtered value.
    pub fn update(&mut self, delta: u64, input: i32) -> (output: i32)
        ensures
            output == old(self).next_output(delta, input),
            *final(self) == old(self).updated(delta, input),
            output == final(self).output,
    {
        if delta == 0 {
            self.output = input;
            return input;
        }
        let distance: i128 = input as i128 - self.output as i128;
        let whole: i128 = delta as i128 + self.time_constant as i128;
        let part: i128 = scale_floor(delta as i128, distance, whole);
        proof {
            lemma_part_between(delta as int, distance as int, whole as int);
        }
        let output: i32 = (self.output as i128 + part) as i32;
        self.output = output;
        output
    }

    pub fn output(&self) -> (output: i32)
        ensures
            output == self.output,
    {
        self.output
    }
}

} // verus!
