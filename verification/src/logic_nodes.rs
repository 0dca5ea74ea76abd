//! Timed logic nodes: a confirmation node that delays one edge of a
//! condition, a monostable trigger that stretches an edge into a pulse, and
//! the rising-falling pair that debounces a lamp.

use vstd::prelude::*;

verus! {

/// Delays one edge of its input by a confirmation time.
///
/// A rising node reports `true` once its input has been `true` for the
/// confirmation time, and `false` as soon as the input is `false`. A falling
/// node is the mirror image: it reports `false` once its input has been
/// `false` for the confirmation time, and `true` as soon as the input is
/// `true`.
#[derive(Clone, Copy, Debug)]
pub struct ConfirmationNode {
    /// The edge that is delayed: the rising one if `true`.
    pub rising: bool,
    /// How long the input has to stay on the delayed side, in nanoseconds.
    pub confirm_time: u64,
    /// How long the input has been on the delayed side, in nanoseconds.
    pub elapsed: u64,
    /// What the node reports.
    pub output: bool,
}

/// The sum of two times, held at the largest value a time can take.
pub open spec fn time_sum(a: u64, b: u64) -> u64 {
    if a + b > u64::MAX {
        u64::MAX
    } else {
        (a + b) as u64
    }
}

/// The time left of `a` after `b` has passed.
pub open spec fn time_left(a: u64, b: u64) -> u64 {
    if a <= b {
        0
    } else {
        (a - b) as u64
    }
}

/// The total of a run of tick lengths.
pub open spec fn total_time(deltas: Seq<u64>) -> int
    decreases deltas.len(),
{
    if deltas.len() == 0 {
        0
    } else {
        total_time(deltas.drop_last()) + deltas.last()
    }
}

impl ConfirmationNode {
    /// A rising node at rest: it reports `false` and has seen no time pass.
    pub open spec fn rising_at_rest(confirm_time: u64) -> ConfirmationNode {
        ConfirmationNode { rising: true, confirm_time, elapsed: 0, output: false }
    }

    /// A falling node at rest. Its output is the side it does not delay, and
    /// it counts as settled: a condition that was never `true` clears on the
    /// first sample and is not held for the confirmation time.
    pub open spec fn falling_at_rest(confirm_time: u64) -> ConfirmationNode {
        ConfirmationNode { rising: false, confirm_time, elapsed: confirm_time, output: true }
    }

    /// The node after one tick of length `delta` with the given input.
    pub open spec fn updated(self, input: bool, delta: u64) -> ConfirmationNode {
        if input == self.rising {
            let elapsed = time_sum(self.elapsed, delta);
            ConfirmationNode {
                elapsed,
                output: if elapsed >= self.confirm_time {
                    self.rising
                } else {
                    self.output
                },
                ..self
            }
        } else {
            ConfirmationNode { elapsed: 0, output: !self.rising, ..self }
        }
    }

    /// The node after a run of ticks during which the input did not change.
    pub open spec fn run(self, input: bool, deltas: Seq<u64>) -> ConfirmationNode
        decreases deltas.len(),
    {
        if deltas.len() == 0 {
            self
        } else {
            self.run(input, deltas.drop_last()).updated(input, deltas.last())
        }
    }

    pub fn new_rising(confirm_time: u64) -> (node: ConfirmationNode)
        ensures
            node == ConfirmationNode::rising_at_rest(confirm_time),
    {
        ConfirmationNode { rising: true, confirm_time, elapsed: 0, output: false }
    }

    pub fn new_falling(confirm_time: u64) -> (node: ConfirmationNode)
        ensures
            node == ConfirmationNode::falling_at_rest(confirm_time),
    {
        ConfirmationNode { rising: false, confirm_time, elapsed: confirm_time, output: true }
    }

    /// Advances the node by one tick and returns what it reports.
    pub fn update(&mut self, input: bool, delta: u64) -> (output: bool)
        ensures
            *final(self) == old(self).updated(input, delta),
            output == final(self).output,
    {
        if input == self.rising {
            self.elapsed = self.elapsed.saturating_add(delta);
            if self.elapsed >= self.confirm_time {
                self.output = self.rising;
            }
        } else {
            self.elapsed = 0;
            self.output = !self.rising;
        }
        self.output
    }

    pub fn get_output(&self) -> (output: bool)
        ensures
            output == self.output,
    {
        self.output
    }

    /// While the input stays on the delayed side the node keeps its
    /// parameters and counts every tick.
    pub proof fn lemma_run_counts(self, deltas: Seq<u64>)
        ensures
            self.run(self.rising, deltas).rising == self.rising,
            self.run(self.rising, deltas).confirm_time == self.confirm_time,
            self.run(self.rising, deltas).elapsed == if self.elapsed + total_time(deltas)
                > u64::MAX {
                u64::MAX as int
            } else {
                self.elapsed + total_time(deltas)
            },
            total_time(deltas) >= 0,
        decreases deltas.len(),
    {
        if deltas.len() > 0 {
            self.lemma_run_counts(deltas.drop_last());
        }
    }

    /// The delayed edge comes through: once the input has stayed on the
    /// delayed side for ticks that add up to the confirmation time, the
    /// output has followed it, whatever the node held before.
    pub proof fn lemma_confirms(self, deltas: Seq<u64>)
        requires
            deltas.len() > 0,
            total_time(deltas) >= self.confirm_time,
        ensures
            self.run(self.rising, deltas).output == self.rising,
    {
        self.lemma_run_counts(deltas);
        self.lemma_run_counts(deltas.drop_last());
    }

    /// The delayed edge does not come early: from an output on the other
    /// side and a cleared count, the output stays while the ticks add up to
    /// less than the confirmation time.
    pub proof fn lemma_holds_before(self, deltas: Seq<u64>)
        requires
            self.elapsed == 0,
            self.output == !self.rising,
            total_time(deltas) < self.confirm_time,
        ensures
            self.run(self.rising, deltas).output == !self.rising,
        decreases deltas.len(),
    {
        if deltas.len() > 0 {
            self.lemma_run_counts(deltas);
            self.lemma_run_counts(deltas.drop_last());
            self.lemma_holds_before(deltas.drop_last());
        }
    }

    /// The other edge is not delayed: one tick with the input off the
    /// delayed side brings the output there and clears the count.
    pub proof fn lemma_follows_at_once(self, delta: u64)
        ensures
            self.updated(!self.rising, delta).output == !self.rising,
            self.updated(!self.rising, delta).elapsed == 0,
    {
    }
}

/// A rising confirmation followed by a falling one: the output comes on
/// after the input has been `true` for the rise time, and goes off after the
/// input has been `false` for the fall time.
#[derive(Clone, Copy, Debug)]
pub struct Debounce {
    pub rise: ConfirmationNode,
    pub fall: ConfirmationNode,
}

impl Debounce {
    /// A debounce at rest.
    pub open spec fn at_rest(rise_time: u64, fall_time: u64) -> Debounce {
        Debounce {
            rise: ConfirmationNode::rising_at_rest(rise_time),
            fall: ConfirmationNode::falling_at_rest(fall_time),
        }
    }

    /// Both nodes have the direction of their place.
    pub open spec fn well_formed(self) -> bool {
        self.rise.rising && !self.fall.rising
    }

    pub open spec fn output(self) -> bool {
        self.fall.output
    }

    /// The pair after one tick.
    pub open spec fn updated(self, input: bool, delta: u64) -> Debounce {
        let rise = self.rise.updated(input, delta);
        Debounce { rise, fall: self.fall.updated(rise.output, delta) }
    }

    /// The pair after a run of ticks during which the input did not change.
    pub open spec fn run(self, input: bool, deltas: Seq<u64>) -> Debounce
        decreases deltas.len(),
    {
        if deltas.len() == 0 {
            self
        } else {
            self.run(input, deltas.drop_last()).updated(input, deltas.last())
        }
    }

    pub fn new(rise_time: u64, fall_time: u64) -> (pair: Debounce)
        ensures
            pair == Debounce::at_rest(rise_time, fall_time),
            pair.well_formed(),
    {
        Debounce {
            rise: ConfirmationNode::new_rising(rise_time),
            fall: ConfirmationNode::new_falling(fall_time),
        }
    }

    /// Advances the pair by one tick and returns what it reports.
    pub fn update(&mut self, input: bool, delta: u64) -> (output: bool)
        ensures
            *final(self) == old(self).updated(input, delta),
            output == final(self).output(),
    {
        let confirmed: bool = self.rise.update(input, delta);
        self.fall.update(confirmed, delta)
    }

    /// A run keeps the directions of the two nodes, and the rising node goes
    /// through the same run by itself.
    pub proof fn lemma_run_parts(self, input: bool, deltas: Seq<u64>)
        requires
            self.well_formed(),
        ensures
            self.run(input, deltas).well_formed(),
            self.run(input, deltas).rise == self.rise.run(input, deltas),
            self.run(input, deltas).fall.confirm_time == self.fall.confirm_time,
        decreases deltas.len(),
    {
        if deltas.len() > 0 {
            self.lemma_run_parts(input, deltas.drop_last());
        }
    }

    /// The lamp latches: with the condition met for ticks that add up to the
    /// rise time, the output is `true`.
    pub proof fn lemma_latches(self, deltas: Seq<u64>)
        requires
            self.well_formed(),
            deltas.len() > 0,
            total_time(deltas) >= self.rise.confirm_time,
        ensures
            self.run(true, deltas).output(),
    {
        self.lemma_run_parts(true, deltas);
        self.lemma_run_parts(true, deltas.drop_last());
        self.rise.lemma_confirms(deltas);
    }

    /// While the condition is not met the falling node sees `false` on
    /// every tick and counts each of them.
    proof fn lemma_run_clear(self, deltas: Seq<u64>)
        requires
            self.well_formed(),
            deltas.len() > 0,
        ensures
            self.run(false, deltas).fall == self.fall.updated(
                false,
                deltas[0],
            ).run(false, deltas.subrange(1, deltas.len() as int)),
        decreases deltas.len(),
    {
        let rest = deltas.subrange(1, deltas.len() as int);
        let first = self.fall.updated(false, deltas[0]);
        let before = self.run(false, deltas.drop_last());
        self.lemma_run_parts(false, deltas.drop_last());
        assert(self.run(false, deltas) == before.updated(false, deltas.last()));
        assert(!before.rise.updated(false, deltas.last()).output);
        if deltas.len() == 1 {
            assert(deltas.drop_last().len() == 0);
            assert(before == self);
            assert(rest.len() == 0);
            assert(first.run(false, rest) == first);
        } else {
            self.lemma_run_clear(deltas.drop_last());
            assert(deltas.drop_last().subrange(1, deltas.len() - 1) == rest.drop_last());
            assert(rest.last() == deltas.last());
            assert(deltas.drop_last()[0] == deltas[0]);
            assert(first.run(false, rest) == first.run(false, rest.drop_last()).updated(
                false,
                rest.last(),
            ));
        }
    }

    /// The lamp clears: with the condition not met for ticks that add up to
    /// the fall time, the output is `false`.
    pub proof fn lemma_clears(self, deltas: Seq<u64>)
        requires
            self.well_formed(),
            deltas.len() > 0,
            total_time(deltas) >= self.fall.confirm_time,
        ensures
            !self.run(false, deltas).output(),
    {
        let rest = deltas.subrange(1, deltas.len() as int);
        let first = self.fall.updated(false, deltas[0]);
        self.lemma_run_clear(deltas);
        lemma_total_time_split(deltas);
        first.lemma_run_counts(rest);
        if rest.len() > 0 {
            first.lemma_run_counts(rest.drop_last());
        }
    }

    /// The lamp does not latch early: from rest, with the condition met for
    /// ticks that add up to less than the rise time, the output is still
    /// `false`.
    pub proof fn lemma_not_early(rise_time: u64, fall_time: u64, delta: u64, deltas: Seq<u64>)
        requires
            total_time(deltas) < rise_time,
        ensures
            !Debounce::at_rest(rise_time, fall_time).updated(false, delta).run(
                true,
                deltas,
            ).output(),
        decreases deltas.len(),
    {
        let start = Debounce::at_rest(rise_time, fall_time).updated(false, delta);
        if deltas.len() > 0 {
            start.lemma_run_parts(true, deltas);
            start.lemma_run_parts(true, deltas.drop_last());
            start.rise.lemma_holds_before(deltas);
            start.rise.lemma_holds_before(deltas.drop_last());
            start.rise.lemma_run_counts(deltas);
            Debounce::lemma_not_early(rise_time, fall_time, delta, deltas.drop_last());
        }
    }
}

/// The total of a run is its first tick plus the total of the rest.
pub proof fn lemma_total_time_split(deltas: Seq<u64>)
    requires
        deltas.len() > 0,
    ensures
        total_time(deltas) == deltas[0] + total_time(deltas.subrange(1, deltas.len() as int)),
    decreases deltas.len(),
{
    let rest = deltas.subrange(1, deltas.len() as int);
    if deltas.len() == 1 {
        assert(deltas.drop_last().len() == 0);
        assert(total_time(deltas.drop_last()) == 0);
    } else {
        lemma_total_time_split(deltas.drop_last());
        assert(deltas.drop_last().subrange(1, deltas.len() - 1) == rest.drop_last());
        assert(rest.last() == deltas.last());
    }
}

/// Stretches one edge of its input into a pulse of a fixed length.
#[derive(Clone, Copy, Debug)]
pub struct MonostableTriggerNode {
    /// The edge that triggers: from `false` to `true` if `true`.
    pub rising: bool,
    /// The length of the pulse, in nanoseconds.
    pub hold_time: u64,
    /// What is left of the running pulse, in nanoseconds.
    pub remaining: u64,
    /// The input of the tick before.
    pub last_input: bool,
}

impl MonostableTriggerNode {
    /// A node that has seen no edge and takes its input to have been `false`.
    pub open spec fn at_rest(rising: bool, hold_time: u64) -> MonostableTriggerNode {
        MonostableTriggerNode { rising, hold_time, remaining: 0, last_input: false }
    }

    /// The input has just gone through the triggering edge.
    pub open spec fn triggers(self, input: bool) -> bool {
        if self.rising {
            input && !self.last_input
        } else {
            !input && self.last_input
        }
    }

    /// The node after one tick of length `delta` with the given input: an
    /// edge starts the pulse anew, any other tick uses it up.
    pub open spec fn updated(self, input: bool, delta: u64) -> MonostableTriggerNode {
        MonostableTriggerNode {
            remaining: if self.triggers(input) {
                self.hold_time
            } else {
                time_left(self.remaining, delta)
            },
            last_input: input,
            ..self
        }
    }

    /// The pulse is running.
    pub open spec fn active(self) -> bool {
        self.remaining > 0
    }

    pub fn new_rising(hold_time: u64) -> (node: MonostableTriggerNode)
        ensures
            node == MonostableTriggerNode::at_rest(true, hold_time),
    {
        MonostableTriggerNode { rising: true, hold_time, remaining: 0, last_input: false }
    }

    pub fn new_falling(hold_time: u64) -> (node: MonostableTriggerNode)
        ensures
            node == MonostableTriggerNode::at_rest(false, hold_time),
    {
        MonostableTriggerNode { rising: false, hold_time, remaining: 0, last_input: false }
    }

    /// Advances the node by one tick and returns whether the pulse runs.
    pub fn update(&mut self, input: bool, delta: u64) -> (output: bool)
        ensures
            *final(self) == old(self).updated(input, delta),
            output == final(self).active(),
    {
        let edge: bool = if self.rising {
            input && !self.last_input
        } else {
            !input && self.last_input
        };
        if edge {
            self.remaining = self.hold_time;
        } else {
            self.remaining = self.remaining.saturating_sub(delta);
        }
        self.last_input = input;
        self.remaining > 0
    }

    pub fn output(&self) -> (output: bool)
        ensures
            output == self.active(),
    {
        self.remaining > 0
    }
}

} // verus!
