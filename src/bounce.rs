//! A value that walks back and forth between two bounds, reflecting off
//! each bound rather than sticking to it.
use vstd::prelude::*;

verus! {

/// The state of a bouncing value.
pub struct BounceState {
    pub value: int,
    pub min: int,
    pub max: int,
    pub step: int,
    pub direction: int,
}

impl BounceState {
    /// The value lies within the bounds, the step is positive and shorter
    /// than the span of the bounds, and the direction is up or down.
    pub open spec fn wf(self) -> bool {
        &&& self.min <= self.value <= self.max
        &&& 0 < self.step < self.max - self.min
        &&& (self.direction == 1 || self.direction == -1)
    }
}

/// One step: move by `direction * step`; past `max` reflect to
/// `2 * max - v` and turn down; past `min` reflect to `2 * min - v` and turn up.
pub open spec fn bounce_step(s: BounceState) -> BounceState {
    let v = s.value + s.direction * s.step;
    if v > s.max {
        BounceState { value: 2 * s.max - v, direction: -1, ..s }
    } else if v < s.min {
        BounceState { value: 2 * s.min - v, direction: 1, ..s }
    } else {
        BounceState { value: v, ..s }
    }
}

/// A step keeps a well-formed state well-formed: the value never leaves
/// `[min, max]`.
pub proof fn lemma_bounce_stays_within(s: BounceState)
    requires
        s.wf(),
    ensures
        bounce_step(s).wf(),
        bounce_step(s).min == s.min && bounce_step(s).max == s.max,
        bounce_step(s).step == s.step,
        s.direction * s.step == if s.direction == 1 { s.step } else { -s.step },
{
    assert(s.direction * s.step == if s.direction == 1 { s.step } else { -s.step })
        by (nonlinear_arith)
        requires
            s.direction == 1 || s.direction == -1,
    ;
}

/// A value moving between `min` and `max` by `step` each time.
pub struct BouncingVariable {
    value: i32,
    min: i32,
    max: i32,
    step: i32,
    direction: i32,
}

impl View for BouncingVariable {
    type V = BounceState;

    closed spec fn view(&self) -> BounceState {
        BounceState {
            value: self.value as int,
            min: self.min as int,
            max: self.max as int,
            step: self.step as int,
            direction: self.direction as int,
        }
    }
}

impl BouncingVariable {
    /// The value lies within its bounds and the step is valid.
    pub open spec fn wf(&self) -> bool {
        self@.wf()
    }

    /// A value starting at `initial_value` and moving up. The step must be
    /// positive and shorter than `max - min`.
    pub fn new(initial_value: i32, min: i32, max: i32, step: i32) -> (r: BouncingVariable)
        requires
            min <= initial_value <= max,
            0 < step < max - min,
        ensures
            r.wf(),
            r@ == (BounceState { value: initial_value as int, min: min as int, max: max as int,
                step: step as int, direction: 1 }),
    {
        BouncingVariable { value: initial_value, min, max, step, direction: 1 }
    }

    /// Moves the value by one step, reflecting off a bound that it passes.
    pub fn step(&mut self)
        requires
            old(self).wf(),
        ensures
            final(self).wf(),
            final(self)@ == bounce_step(old(self)@),
    {
        proof {
            lemma_bounce_stays_within(self@);
        }
        let v: i64 = if self.direction == 1 {
            self.value as i64 + self.step as i64
        } else {
            self.value as i64 - self.step as i64
        };
        if v > self.max as i64 {
            self.value = (2 * self.max as i64 - v) as i32;
            self.direction = -1;
        } else if v < self.min as i64 {
            self.value = (2 * self.min as i64 - v) as i32;
            self.direction = 1;
        } else {
            self.value = v as i32;
        }
    }

    /// The current value.
    pub fn value(&self) -> (r: i32)
        ensures
            r == self@.value,
    {
        self.value
    }

    /// The current direction: 1 when rising, -1 when falling.
    pub fn direction(&self) -> (r: i32)
        ensures
            r == self@.direction,
    {
        self.direction
    }
}

} // verus!
