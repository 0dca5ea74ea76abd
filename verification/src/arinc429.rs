//! Sensor words: a scaled integer together with the status of its source.

use vstd::prelude::*;

verus! {

/// What the source of a word says about it.
#[derive(Clone, Copy, Debug, PartialEq, Eq, Structural)]
pub enum SignStatus {
    NormalOperation,
    NoComputedData,
    FailureWarning,
}

/// One sample of a sensor: the payload and the status it came with.
#[derive(Clone, Copy, Debug)]
pub struct Arinc429Word {
    pub value: i32,
    pub status: SignStatus,
}

impl Arinc429Word {
    pub fn new(value: i32, status: SignStatus) -> (word: Arinc429Word)
        ensures
            word == (Arinc429Word { value, status }),
    {
        Arinc429Word { value, status }
    }

    /// The payload, whatever the status.
    pub fn value(&self) -> (value: i32)
        ensures
            value == self.value,
    {
        self.value
    }

    /// The payload of a word in normal operation.
    pub open spec fn normal(self) -> Option<i32> {
        if self.status == SignStatus::NormalOperation {
            Some(self.value)
        } else {
            None
        }
    }

    /// The payload, but only when the status is normal operation.
    pub fn normal_value(&self) -> (value: Option<i32>)
        ensures
            value == self.normal(),
    {
        if self.is_normal_operation() {
            Some(self.value)
        } else {
            None
        }
    }

    /// The payload, whatever the status.
    pub fn value_or_default(&self) -> (value: i32)
        ensures
            value == self.value,
    {
        self.value
    }

    pub fn is_normal_operation(&self) -> (normal: bool)
        ensures
            normal == (self.status == SignStatus::NormalOperation),
    {
        self.status == SignStatus::NormalOperation
    }

    pub fn is_no_computed_data(&self) -> (no_data: bool)
        ensures
            no_data == (self.status == SignStatus::NoComputedData),
    {
        self.status == SignStatus::NoComputedData
    }

    pub fn is_failure_warning(&self) -> (failed: bool)
        ensures
            failed == (self.status == SignStatus::FailureWarning),
    {
        self.status == SignStatus::FailureWarning
    }
}

} // verus!
