use vstd::prelude::*;

use vstd::arithmetic::div_mod::{lemma_fundamental_div_mod, lemma_fundamental_div_mod_converse};

verus! {

/// The fixed logic step: one sixtieth of a second, in nanoseconds.
pub const GOAL_DELTA_TIME: u64 = 16_666_667;

/// The logic steps that a frame of `delta` runs, given the time `lag`
/// carried over from earlier frames.
pub open spec fn steps_for(step: u64, lag: u64, delta: u64) -> int {
    (lag + delta) / (step as int)
}

/// The time carried over to the next frame.
pub open spec fn lag_after(step: u64, lag: u64, delta: u64) -> int {
    (lag + delta) % (step as int)
}

/// The logic steps run over a sequence of frame durations.
pub open spec fn total_steps(step: u64, lag: u64, deltas: Seq<u64>) -> int
    decreases deltas.len(),
{
    if deltas.len() == 0 || step == 0 {
        0
    } else {
        steps_for(step, lag, deltas[0]) + total_steps(
            step,
            lag_after(step, lag, deltas[0]) as u64,
            deltas.subrange(1, deltas.len() as int),
        )
    }
}

/// The time carried over after a sequence of frame durations.
pub open spec fn final_lag(step: u64, lag: u64, deltas: Seq<u64>) -> int
    decreases deltas.len(),
{
    if deltas.len() == 0 || step == 0 {
        lag as int
    } else {
        final_lag(step, lag_after(step, lag, deltas[0]) as u64, deltas.subrange(1, deltas.len() as int))
    }
}

/// The total of a sequence of frame durations.
pub open spec fn total_time(deltas: Seq<u64>) -> int
    decreases deltas.len(),
{
    if deltas.len() == 0 {
        0
    } else {
        deltas[0] + total_time(deltas.subrange(1, deltas.len() as int))
    }
}

/// Decides how many fixed logic steps each displayed frame runs, carrying
/// the time left over into the next frame.
pub struct FrameClock {
    step: u64,
    lag: u64,
}

impl FrameClock {
    pub closed spec fn step_spec(&self) -> u64 {
        self.step
    }

    pub closed spec fn lag_spec(&self) -> u64 {
        self.lag
    }

    pub open spec fn wf(&self) -> bool {
        0 < self.step_spec() && self.lag_spec() < self.step_spec()
    }

    /// A clock with nothing carried over.
    pub fn new(step: u64) -> (r: Self)
        requires
            step > 0,
        ensures
            r.wf(),
            r.step_spec() == step,
            r.lag_spec() == 0,
    {
        FrameClock { step, lag: 0 }
    }

    /// The fixed delta that every logic step receives.
    pub fn step(&self) -> (r: u64)
        ensures
            r == self.step_spec(),
    {
        self.step
    }

    /// The time carried over, less than one step.
    pub fn lag(&self) -> (r: u64)
        ensures
            r == self.lag_spec(),
    {
        self.lag
    }

    /// Adds a frame of `delta` and returns how many logic steps to run now.
    pub fn advance(&mut self, delta: u64) -> (r: u64)
        requires
            old(self).wf(),
        ensures
            final(self).wf(),
            final(self).step_spec() == old(self).step_spec(),
            r == steps_for(old(self).step_spec(), old(self).lag_spec(), delta),
            final(self).lag_spec() == lag_after(old(self).step_spec(), old(self).lag_spec(), delta),
            r * old(self).step_spec() + final(self).lag_spec() == old(self).lag_spec() + delta,
    {
        let step = self.step;
        let lag = self.lag;
        let whole = delta / step;
        let rest = delta % step;
        proof {
            lemma_fundamental_div_mod(delta as int, step as int);
            assert(whole * step + rest == delta) by (nonlinear_arith)
                requires
                    delta == step * (delta / step) + delta % step,
                    whole == delta / step,
                    rest == delta % step,
            ;
        }
        let r: u64;
        if lag >= step - rest {
            proof {
                assert(whole < 0xffff_ffff_ffff_ffffu64) by (nonlinear_arith)
                    requires
                        whole * step + rest == delta,
                        rest > 0,
                        rest < step,
                        delta <= 0xffff_ffff_ffff_ffffu64,
                ;
            }
            r = whole + 1;
            self.lag = lag - (step - rest);
        } else {
            r = whole;
            self.lag = lag + rest;
        }
        proof {
            assert(r * step + self.lag == lag + delta) by (nonlinear_arith)
                requires
                    whole * step + rest == delta,
                    (r == whole + 1 && self.lag == lag + rest - step) || (r == whole && self.lag == lag
                        + rest),
            ;
            lemma_fundamental_div_mod_converse(lag + delta, step as int, r as int, self.lag as int);
        }
        r
    }
}

/// Over any sequence of frame durations, the logic steps run cover the
/// elapsed time up to less than one step: steps times the step plus the time
/// carried over equals the time carried in plus the total elapsed.
pub proof fn lemma_fixed_step_accounting(step: u64, lag: u64, deltas: Seq<u64>)
    requires
        0 < step,
        lag < step,
    ensures
        total_steps(step, lag, deltas) * step + final_lag(step, lag, deltas) == lag + total_time(deltas),
        0 <= final_lag(step, lag, deltas) < step,
    decreases deltas.len(),
{
    if deltas.len() > 0 {
        let x = lag + deltas[0];
        let q = steps_for(step, lag, deltas[0]);
        let l = lag_after(step, lag, deltas[0]);
        let rest = deltas.subrange(1, deltas.len() as int);
        lemma_fundamental_div_mod(x, step as int);
        assert(0 <= l < step);
        lemma_fixed_step_accounting(step, l as u64, rest);
        let t = total_steps(step, l as u64, rest);
        assert((q + t) * step == q * step + t * step) by (nonlinear_arith);
        assert(q * step == step * q) by (nonlinear_arith);
    }
}

} // verus!
