//! Pacing curves for the consensus round: a flat phase followed by
//! exponential growth, saturating at the largest representable duration.
use vstd::prelude::*;

verus! {

/// `base` raised to the power `exp`.
pub open spec fn power(base: nat, exp: nat) -> nat
    decreases exp,
{
    if exp == 0 {
        1
    } else {
        base * power(base, (exp - 1) as nat)
    }
}

/// The mathematical delay, in milliseconds, at step `t`: `base_delay` while
/// `t < start_exp_delay`, then `base_delay * exp_base^(t - start_exp_delay)`.
pub open spec fn slowdown(t: nat, base_delay: nat, start_exp_delay: nat, exp_base: nat) -> nat {
    if t < start_exp_delay {
        base_delay
    } else {
        base_delay * power(exp_base, (t - start_exp_delay) as nat)
    }
}

/// A natural number clamped to the `u64` range.
pub open spec fn saturate(x: nat) -> u64 {
    if x > u64::MAX {
        u64::MAX
    } else {
        x as u64
    }
}

proof fn lemma_power_positive(base: nat, exp: nat)
    requires
        base >= 1,
    ensures
        power(base, exp) >= 1,
    decreases exp,
{
    if exp > 0 {
        lemma_power_positive(base, (exp - 1) as nat);
        assert(base * power(base, (exp - 1) as nat) >= 1) by (nonlinear_arith)
            requires
                base >= 1,
                power(base, (exp - 1) as nat) >= 1,
        ;
    }
}

proof fn lemma_power_monotone(base: nat, e1: nat, e2: nat)
    requires
        base >= 1,
        e1 <= e2,
    ensures
        power(base, e1) <= power(base, e2),
    decreases e2,
{
    if e1 < e2 {
        lemma_power_monotone(base, e1, (e2 - 1) as nat);
        lemma_power_positive(base, (e2 - 1) as nat);
        let p = power(base, (e2 - 1) as nat);
        assert(p <= base * p) by (nonlinear_arith)
            requires
                base >= 1,
                p >= 1,
        ;
    }
}

proof fn lemma_saturate_mul(x: nat, e: nat)
    ensures
        saturate((saturate(x) as nat) * e) == saturate(x * e),
{
    if x > u64::MAX {
        if e == 0 {
            assert(x * e == 0) by (nonlinear_arith)
                requires
                    e == 0,
            ;
            assert((u64::MAX as nat) * e == 0) by (nonlinear_arith)
                requires
                    e == 0,
            ;
        } else {
            assert(x * e >= x) by (nonlinear_arith)
                requires
                    e >= 1,
            ;
            assert((u64::MAX as nat) * e >= u64::MAX) by (nonlinear_arith)
                requires
                    e >= 1,
            ;
        }
    }
}

/// The delay, in milliseconds, at step `t` of a curve that stays at
/// `base_delay` before step `start_exp_delay` and then grows by a factor of
/// `exp_base` per step. A value past `u64::MAX` gives `u64::MAX`.
pub fn exponential_slowdown(t: usize, base_delay: u64, start_exp_delay: usize, exp_base: u64) -> (r: u64)
    ensures
        r == saturate(slowdown(t as nat, base_delay as nat, start_exp_delay as nat, exp_base as nat)),
{
    if t < start_exp_delay {
        return base_delay;
    }
    let steps: usize = t - start_exp_delay;
    let ghost b = base_delay as nat;
    let ghost e = exp_base as nat;
    if base_delay == 0 || exp_base == 1 {
        proof {
            if base_delay == 0 {
                assert(b * power(e, steps as nat) == 0) by (nonlinear_arith)
                    requires
                        b == 0,
                ;
            } else {
                lemma_power_one(steps as nat);
            }
        }
        return base_delay;
    }
    if exp_base == 0 {
        proof {
            if steps > 0 {
                assert(e == 0);
                assert(power(e, steps as nat) == e * power(e, (steps - 1) as nat));
                assert(power(e, steps as nat) == 0);
                assert(b * 0 == 0);
            }
        }
        return if steps == 0 { base_delay } else { 0 };
    }
    let mut acc: u64 = base_delay;
    let mut i: usize = 0;
    assert(power(e, 0) == 1);
    assert(b * 1 == b);
    while i < steps
        invariant
            i <= steps,
            t >= start_exp_delay,
            steps == t - start_exp_delay,
            e >= 2,
            b >= 1,
            b == base_delay,
            e == exp_base,
            acc == saturate(b * power(e, i as nat)),
        decreases steps - i,
    {
        if acc == u64::MAX {
            proof {
                lemma_power_monotone(e, i as nat, steps as nat);
                let lower = power(e, i as nat);
                let upper = power(e, steps as nat);
                assert(b * lower <= b * upper) by (nonlinear_arith)
                    requires
                        lower <= upper,
                ;
                if b * lower <= u64::MAX {
                    assert(b * lower == u64::MAX);
                }
                assert(slowdown(t as nat, b, start_exp_delay as nat, e) == b * upper);
            }
            return u64::MAX;
        }
        proof {
            lemma_saturate_mul(b * power(e, i as nat), e);
            assert(b * power(e, i as nat) * e == b * power(e, (i + 1) as nat)) by (nonlinear_arith)
                requires
                    power(e, (i + 1) as nat) == e * power(e, i as nat),
            ;
        }
        assert((acc as u128) * (exp_base as u128) <= u64::MAX as u128 * u64::MAX as u128)
            by (nonlinear_arith)
            requires
                acc <= u64::MAX,
                exp_base <= u64::MAX,
        ;
        let product: u128 = acc as u128 * exp_base as u128;
        acc = if product > u64::MAX as u128 {
            u64::MAX
        } else {
            product as u64
        };
        i = i + 1;
    }
    assert(slowdown(t as nat, b, start_exp_delay as nat, e) == b * power(e, steps as nat));
    acc
}

proof fn lemma_power_one(exp: nat)
    ensures
        power(1, exp) == 1,
    decreases exp,
{
    if exp > 0 {
        lemma_power_one((exp - 1) as nat);
    }
}

/// The delay curve never decreases in `t` when each step multiplies by at
/// least one.
pub proof fn lemma_slowdown_monotone(
    t1: nat,
    t2: nat,
    base_delay: nat,
    start_exp_delay: nat,
    exp_base: nat,
)
    requires
        t1 <= t2,
        exp_base >= 1,
    ensures
        slowdown(t1, base_delay, start_exp_delay, exp_base) <= slowdown(t2, base_delay, start_exp_delay, exp_base),
        saturate(slowdown(t1, base_delay, start_exp_delay, exp_base)) <= saturate(slowdown(t2, base_delay, start_exp_delay, exp_base)),
{
    let s = start_exp_delay;
    if t2 >= s {
        let upper = power(exp_base, (t2 - s) as nat);
        if t1 >= s {
            lemma_power_monotone(exp_base, (t1 - s) as nat, (t2 - s) as nat);
            let lower = power(exp_base, (t1 - s) as nat);
            assert(base_delay * lower <= base_delay * upper) by (nonlinear_arith)
                requires
                    lower <= upper,
            ;
        } else {
            lemma_power_positive(exp_base, (t2 - s) as nat);
            assert(base_delay <= base_delay * upper) by (nonlinear_arith)
                requires
                    upper >= 1,
            ;
        }
    }
}

/// A pacing curve whose growth factor is given in thousandths, so that the
/// factor `1.005` reads `1005` and the factor `2` reads `2000`.
#[derive(Clone, Copy, Debug, PartialEq, Eq)]
pub struct DelayCurve {
    pub base_delay_ms: u64,
    pub start_exp_delay: usize,
    pub exp_base_per_mille: u64,
}

impl DelayCurve {
    /// The curve's factor is a whole number.
    pub open spec fn has_whole_factor(&self) -> bool {
        self.exp_base_per_mille % 1000 == 0
    }

    /// The delay at step `t` that `delay_ms` gives.
    pub open spec fn delay_at(&self, t: nat) -> Option<u64> {
        if t < self.start_exp_delay {
            Some(self.base_delay_ms)
        } else if self.has_whole_factor() {
            Some(
                saturate(
                    slowdown(
                        t,
                        self.base_delay_ms as nat,
                        self.start_exp_delay as nat,
                        (self.exp_base_per_mille / 1000) as nat,
                    ),
                ),
            )
        } else {
            None
        }
    }

    /// The delay at step `t`, in milliseconds, where it is a whole number of
    /// milliseconds that integer arithmetic gives exactly: in the flat phase,
    /// and in the exponential phase of a curve with a whole factor. `None`
    /// where the exponential phase grows by a fractional factor.
    pub fn delay_ms(&self, t: usize) -> (r: Option<u64>)
        ensures
            t < self.start_exp_delay ==> r == Some(self.base_delay_ms),
            t >= self.start_exp_delay && self.has_whole_factor() ==> r == Some(
                saturate(
                    slowdown(
                        t as nat,
                        self.base_delay_ms as nat,
                        self.start_exp_delay as nat,
                        (self.exp_base_per_mille / 1000) as nat,
                    ),
                ),
            ),
            t >= self.start_exp_delay && !self.has_whole_factor() ==> r is None,
            r == self.delay_at(t as nat),
    {
        if t < self.start_exp_delay {
            Some(self.base_delay_ms)
        } else if self.exp_base_per_mille % 1000 == 0 {
            Some(
                exponential_slowdown(
                    t,
                    self.base_delay_ms,
                    self.start_exp_delay,
                    self.exp_base_per_mille / 1000,
                ),
            )
        } else {
            None
        }
    }
}

} // verus!
