//! A backward-difference derivative for 32-bit signals.

use vstd::prelude::*;
use crate::arith::{saturate, saturate_i32, scale_floor, NANOS_PER_SECOND};

verus! {

/// Reports how fast its input changes, per second.
#[derive(Clone, Copy, Debug)]
pub struct DerivativeNode {
    /// The input of the tick before, once there has been one.
    pub previous: Option<i32>,
    /// The rate of change found in the last tick.
    pub rate: i32,
}

impl DerivativeNode {
    /// The rate of change over a tick of `delta` nanoseconds that ends with
    /// the given input: the difference to the input before, per second. It
    /// is zero for the first input and for a tick of no length, and it
    /// saturates at the ends of the 32-bit range.
    pub open spec fn next_rate(self, input: i32, delta: u64) -> int {
        match self.previous {
            None => 0,
            Some(previous) => if delta == 0 {
                0
            } else {
                saturate(((input - previous) * (NANOS_PER_SECOND as int)) / (delta as int))
            },
        }
    }

    /// The node after a tick of `delta` nanoseconds that ends with the given
    /// input.
    pub open spec fn updated(self, input: i32, delta: u64) -> DerivativeNode {
        DerivativeNode { previous: Some(input), rate: self.next_rate(input, delta) as i32 }
    }

    pub fn new() -> (node: DerivativeNode)
        ensures
            node == (DerivativeNode { previous: None, rate: 0 }),
    {
        DerivativeNode { previous: None, rate: 0 }
    }

    /// Advances the node by one tick.
    pub fn update(&mut self, input: i32, delta: u64) -> (rate: i32)
        ensures
            rate == old(self).next_rate(input, delta),
            *final(self) == old(self).updated(input, delta),
            rate == final(self).rate,
    {
        let rate: i32 = match self.previous {
            None => 0,
            Some(previous) => {
                if delta == 0 {
                    0
                } else {
                    saturate_i32(
                        scale_floor(
                            input as i128 - previous as i128,
                            NANOS_PER_SECOND as i128,
                            delta as i128,
                        ),
                    )
                }
            },
        };
        self.previous = Some(input);
        self.rate = rate;
        rate
    }

    pub fn output(&self) -> (rate: i32)
        ensures
            rate == self.rate,
    {
        self.rate
    }
}

} // verus!
