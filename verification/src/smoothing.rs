//! A first-order exponential moving average, used to damp spurious
//! distributed-clock difference readings during the synchronization phase.
//!
//! The filter state is `s := alpha * x + (1 - alpha) * s` with a rational
//! smoothing factor `alpha = alpha_num / alpha_den`, computed exactly over
//! integers with the quotient truncated toward zero. Callers that need
//! sub-unit resolution feed values in a scaled unit; with the default
//! `alpha = 1/5` and values in hundredths, the arithmetic of the reference
//! sequence 10, 20, 30, 40 comes out exact: 10, 12, 15.6, 20.48.

use vstd::prelude::*;

verus! {

/// Largest magnitude of a sample the filter accepts; the state never
/// exceeds it.
pub const MAX_SAMPLE: i64 = 0x4000_0000_0000;

/// Largest denominator of the smoothing factor.
pub const MAX_ALPHA_DEN: i64 = 1000;

/// Integer division truncated toward zero, as the implementation language
/// computes it.
pub open spec fn trunc_div(a: int, d: int) -> int {
    if a >= 0 {
        a / d
    } else {
        -((-a) / d)
    }
}

/// The exponential-moving-average filter.
#[derive(Clone, Copy, Debug)]
pub struct Smoothing {
    /// Numerator of the smoothing factor.
    pub alpha_num: i64,
    /// Denominator of the smoothing factor.
    pub alpha_den: i64,
    /// The current filtered value; empty until the first sample.
    pub current: Option<i64>,
}

impl Smoothing {
    /// A valid filter: a factor in `(0, 1]` with a small denominator, and a
    /// state within the sample range.
    pub open spec fn wf(self) -> bool {
        &&& 0 < self.alpha_num <= self.alpha_den <= MAX_ALPHA_DEN
        &&& match self.current {
            Option::None => true,
            Option::Some(s) => -MAX_SAMPLE <= s <= MAX_SAMPLE,
        }
    }

    /// The state after one sample: the first sample is taken as is, later
    /// ones are averaged in.
    pub open spec fn next_value(self, x: int) -> int {
        match self.current {
            Option::None => x,
            Option::Some(s) => trunc_div(
                self.alpha_num * x + (self.alpha_den - self.alpha_num) * s,
                self.alpha_den as int,
            ),
        }
    }

    /// Creates an empty filter with factor `alpha_num / alpha_den`.
    pub fn new(alpha_num: i64, alpha_den: i64) -> (r: Smoothing)
        requires
            0 < alpha_num <= alpha_den <= MAX_ALPHA_DEN,
        ensures
            r.wf(),
            r.alpha_num == alpha_num,
            r.alpha_den == alpha_den,
            r.current is None,
    {
        Smoothing { alpha_num, alpha_den, current: None }
    }

    /// Feeds one sample and returns the new filtered value.
    pub fn push(&mut self, x: i64) -> (r: i64)
        requires
            old(self).wf(),
            -MAX_SAMPLE <= x <= MAX_SAMPLE,
        ensures
            final(self).wf(),
            final(self).alpha_num == old(self).alpha_num,
            final(self).alpha_den == old(self).alpha_den,
            r == old(self).next_value(x as int),
            final(self).current == Some(r),
            -MAX_SAMPLE <= r <= MAX_SAMPLE,
    {
        match self.current {
            Option::None => {
                self.current = Some(x);
                x
            },
            Option::Some(s) => {
                let num: i128 = self.alpha_num as i128;
                let den: i128 = self.alpha_den as i128;
                proof {
                    let m = MAX_SAMPLE as int;
                    assert(-(1000 * m) <= num * x <= 1000 * m) by (nonlinear_arith)
                        requires
                            0 < num <= 1000,
                            -m <= x <= m,
                            0 < m,
                    ;
                    assert(-(1000 * m) <= (den - num) * s <= 1000 * m) by (nonlinear_arith)
                        requires
                            0 <= den - num <= 1000,
                            -m <= s <= m,
                            0 < m,
                    ;
                    assert(num * x + (den - num) * s <= den * m && num * x + (den - num) * s
                        >= -(den * m)) by (nonlinear_arith)
                        requires
                            0 < num <= den,
                            -m <= x <= m,
                            -m <= s <= m,
                    ;
                }
                let a: i128 = num * (x as i128) + (den - num) * (s as i128);
                let q: i128 = if a >= 0 {
                    a / den
                } else {
                    -((-a) / den)
                };
                proof {
                    let m = MAX_SAMPLE as int;
                    vstd::arithmetic::div_mod::lemma_div_multiples_vanish(m, den as int);
                    if a >= 0 {
                        vstd::arithmetic::div_mod::lemma_div_is_ordered(
                            a as int,
                            den as int * m,
                            den as int,
                        );
                        vstd::arithmetic::div_mod::lemma_div_pos_is_pos(a as int, den as int);
                    } else {
                        vstd::arithmetic::div_mod::lemma_div_is_ordered(
                            -(a as int),
                            den as int * m,
                            den as int,
                        );
                        vstd::arithmetic::div_mod::lemma_div_pos_is_pos(-(a as int), den as int);
                    }
                }
                let r: i64 = q as i64;
                self.current = Some(r);
                r
            },
        }
    }
}

/// Once the filter has settled on a value, repeating that value leaves it
/// there: the average of equal sample and state is the value itself.
pub proof fn lemma_smoothing_fixed_point(f: Smoothing, x: int)
    requires
        f.wf(),
        f.current == Some(x as i64),
        -MAX_SAMPLE <= x <= MAX_SAMPLE,
    ensures
        f.next_value(x) == x,
{
    let num = f.alpha_num as int;
    let den = f.alpha_den as int;
    assert(num * x + (den - num) * x == den * x) by (nonlinear_arith);
    if x >= 0 {
        vstd::arithmetic::div_mod::lemma_div_multiples_vanish(x, den);
    } else {
        vstd::arithmetic::div_mod::lemma_div_multiples_vanish(-x, den);
        assert(-(den * x) == den * (-x)) by (nonlinear_arith);
    }
}

} // verus!
