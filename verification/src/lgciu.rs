//! A landing gear control unit for bench runs of the computer.

use vstd::prelude::*;

verus! {

/// A landing gear control unit that reports the gear where it has been put.
#[derive(Clone, Copy, Debug)]
pub struct TestLgciu {
    pub extended: bool,
}

impl TestLgciu {
    pub fn new(extended: bool) -> (lgciu: TestLgciu)
        ensures
            lgciu.extended == extended,
    {
        TestLgciu { extended }
    }

    pub fn set_gear_extended(&mut self, extended: bool)
        ensures
            final(self).extended == extended,
    {
        self.extended = extended;
    }

    /// All gears are down and locked: what the computer takes as its gear
    /// discrete.
    pub fn all_down_and_locked(&self) -> (down: bool)
        ensures
            down == self.extended,
    {
        self.extended
    }

    pub fn all_up_and_locked(&self) -> (up: bool)
        ensures
            up == !self.extended,
    {
        !self.extended
    }

    pub fn main_down_and_locked(&self) -> (down: bool)
        ensures
            down == self.extended,
    {
        self.extended
    }

    pub fn main_up_and_locked(&self) -> (up: bool)
        ensures
            up == !self.extended,
    {
        !self.extended
    }

    pub fn nose_down_and_locked(&self) -> (down: bool)
        ensures
            down == self.extended,
    {
        self.extended
    }

    pub fn nose_up_and_locked(&self) -> (up: bool)
        ensures
            up == !self.extended,
    {
        !self.extended
    }

    pub fn left_down_and_locked(&self) -> (down: bool)
        ensures
            down == self.extended,
    {
        self.extended
    }
}

} // verus!
