use vstd::prelude::*;

verus! {

/// A bounded, reversing counter: it ping-pongs between `min` and `max`,
/// clamping to the bound it would overshoot and flipping direction there.
/// Used to synthesize saw-tooth demo motion.
pub struct Cycle {
    pub value: i16,
    pub max: i16,
    pub min: i16,
    pub increment: bool,
}

impl Cycle {
    /// The counter is well formed when its value lies between its bounds.
    pub open spec fn wf(self) -> bool {
        self.min <= self.value <= self.max
    }

    /// The starting value: `0`, clamped into `[min, max]`.
    pub open spec fn initial_value(min: i16, max: i16) -> i16 {
        if min > 0 {
            min
        } else if max < 0 {
            max
        } else {
            0
        }
    }

    /// One step of the counter as a mathematical transition: add (or
    /// subtract) the step, and on passing a bound clamp to it and turn
    /// around.
    pub open spec fn count_spec(self, step: i16) -> Cycle {
        if self.increment {
            if self.value + step > self.max {
                Cycle { value: self.max, increment: false, ..self }
            } else {
                Cycle { value: (self.value + step) as i16, ..self }
            }
        } else {
            if self.value - step < self.min {
                Cycle { value: self.min, increment: true, ..self }
            } else {
                Cycle { value: (self.value - step) as i16, ..self }
            }
        }
    }

    /// The counter after `k` steps of the same size.
    pub open spec fn run_same(self, step: i16, k: nat) -> Cycle
        decreases k,
    {
        if k == 0 {
            self
        } else {
            self.count_spec(step).run_same(step, (k - 1) as nat)
        }
    }

    /// The counter after a sequence of steps.
    pub open spec fn run(self, steps: Seq<i16>) -> Cycle
        decreases steps.len(),
    {
        if steps.len() == 0 {
            self
        } else {
            self.count_spec(steps[0]).run(steps.drop_first())
        }
    }

    /// Create a counter over `[min, max]`, starting at `0` clamped into
    /// range, initially increasing.
    pub fn new(min: i16, max: i16) -> (r: Cycle)
        requires
            min < max,
        ensures
            r.wf(),
            r.min == min,
            r.max == max,
            r.increment,
            r.value == Self::initial_value(min, max),
    {
        let value = if min > 0 {
            min
        } else if max < 0 {
            max
        } else {
            0
        };
        Cycle { value, max, min, increment: true }
    }

    /// Advance the counter by a non-negative step, clamping and reversing
    /// at the bounds.
    pub fn count(&mut self, step: i16)
        requires
            old(self).wf(),
            step >= 0,
        ensures
            final(self).wf(),
            *final(self) == old(self).count_spec(step),
    {
        if self.increment {
            let newval: i32 = self.value as i32 + step as i32;
            if newval > self.max as i32 {
                self.value = self.max;
                self.increment = false;
            } else {
                self.value = newval as i16;
            }
        } else {
            let newval: i32 = self.value as i32 - step as i32;
            if newval < self.min as i32 {
                self.value = self.min;
                self.increment = true;
            } else {
                self.value = newval as i16;
            }
        }
    }

    /// Boundedness law: under any sequence of non-negative steps the value
    /// stays within `[min, max]`, and the bounds themselves never change.
    pub proof fn lemma_bounded(self, steps: Seq<i16>)
        requires
            self.wf(),
            forall|i: int| 0 <= i < steps.len() ==> steps[i] >= 0,
        ensures
            self.run(steps).wf(),
            self.run(steps).min == self.min,
            self.run(steps).max == self.max,
        decreases steps.len(),
    {
        if steps.len() > 0 {
            let next = self.count_spec(steps[0]);
            assert(forall|i: int|
                0 <= i < steps.drop_first().len() ==> steps.drop_first()[i] >= 0);
            next.lemma_bounded(steps.drop_first());
        }
    }

    /// Reversal law: after a step has clamped to `max` (so the direction
    /// is now decreasing), any positive step strictly decreases the value;
    /// symmetrically at `min`.
    pub proof fn lemma_reversal(self, step: i16)
        requires
            self.wf(),
            self.min < self.max,
            step >= 1,
        ensures
            self.value == self.max && !self.increment ==> self.count_spec(step).value < self.value,
            self.value == self.min && self.increment ==> self.count_spec(step).value > self.value,
    {
    }

    /// Relates repeated equal steps to their successor: running `k + 1`
    /// steps is running `k` and stepping once more.
    pub proof fn lemma_run_same_snoc(self, step: i16, k: nat)
        ensures
            self.run_same(step, k + 1) == self.run_same(step, k).count_spec(step),
        decreases k,
    {
        let next = self.count_spec(step);
        if k == 0 {
            assert(next.run_same(step, 0) == next);
            assert(self.run_same(step, 1) == next.run_same(step, 0));
        } else {
            next.lemma_run_same_snoc(step, (k - 1) as nat);
            assert(self.run_same(step, k + 1) == next.run_same(step, k));
            assert(self.run_same(step, k) == next.run_same(step, (k - 1) as nat));
        }
    }

}

} // verus!
