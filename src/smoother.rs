use vstd::prelude::*;

use crate::fee_rate::{FeeRateEstimate, RATE_SCALE};

verus! {

/// Exponential decay over a window of `w` blocks: the old value keeps weight
/// `(w - 1) / w` and the new one gets `1 / w`, rounded down.
pub open spec fn decayed(old: int, new: int, w: int) -> int {
    ((w - 1) * old + new) / w
}

/// `x`, raised to a rate of 1 when it is below it.
pub open spec fn floored(x: int) -> int {
    if x >= RATE_SCALE as int {
        x
    } else {
        RATE_SCALE as int
    }
}

/// The estimate that blending `new_measure` into `old` over a window of `w` gives.
pub open spec fn blended(new_measure: FeeRateEstimate, old: FeeRateEstimate, w: int) -> FeeRateEstimate {
    FeeRateEstimate {
        high: floored(decayed(old.high as int, new_measure.high as int, w)) as u128,
        middle: floored(decayed(old.middle as int, new_measure.middle as int, w)) as u128,
        low: floored(decayed(old.low as int, new_measure.low as int, w)) as u128,
    }
}

/// The decayed value lies between the old and the new one.
pub proof fn lemma_decayed_between(old: int, new: int, w: int)
    requires
        w >= 1,
    ensures
        old <= new ==> old <= decayed(old, new, w) <= new,
        new <= old ==> new <= decayed(old, new, w) <= old,
{
    let x = (w - 1) * old + new;
    assert(old <= new ==> w * old <= x <= w * new) by (nonlinear_arith)
        requires
            x == (w - 1) * old + new,
            w >= 1,
    ;
    assert(new <= old ==> w * new <= x <= w * old) by (nonlinear_arith)
        requires
            x == (w - 1) * old + new,
            w >= 1,
    ;
    vstd::arithmetic::div_mod::lemma_fundamental_div_mod(x, w);
    let q = x / w;
    let m = x % w;
    assert(old <= new ==> old <= q <= new) by (nonlinear_arith)
        requires
            x == w * q + m,
            0 <= m < w,
            old <= new ==> w * old <= x <= w * new,
    ;
    assert(new <= old ==> new <= q <= old) by (nonlinear_arith)
        requires
            x == w * q + m,
            0 <= m < w,
            new <= old ==> w * new <= x <= w * old,
    ;
}

/// One field of the decayed estimate, computed without overflow.
fn decay_field(old: u128, new: u128, window: u32) -> (r: u128)
    requires
        window >= 1,
    ensures
        r == decayed(old as int, new as int, window as int),
{
    let w = window as u128;
    let x: Ghost<int> = Ghost((window as int - 1) * old as int + new as int);
    if new >= old {
        let d = new - old;
        let q = d / w;
        let m = d % w;
        proof {
            vstd::arithmetic::div_mod::lemma_fundamental_div_mod(d as int, w as int);
            assert(x@ == (old as int + q as int) * w as int + m as int) by (nonlinear_arith)
                requires
                    x@ == (w as int - 1) * old as int + new as int,
                    d as int == new as int - old as int,
                    d as int == w as int * q as int + m as int,
            ;
            vstd::arithmetic::div_mod::lemma_fundamental_div_mod_converse(
                x@,
                w as int,
                old as int + q as int,
                m as int,
            );
            assert(q <= d) by (nonlinear_arith)
                requires
                    d as int == w as int * q as int + m as int,
                    w >= 1,
                    m >= 0,
                    q >= 0,
            ;
        }
        old + q
    } else {
        let d = old - new;
        let q = d / w;
        let m = d % w;
        proof {
            vstd::arithmetic::div_mod::lemma_fundamental_div_mod(d as int, w as int);
            assert(q * w <= d) by (nonlinear_arith)
                requires
                    d as int == w as int * q as int + m as int,
                    m >= 0,
            ;
        }
        let c: u128 = if m == 0 {
            q
        } else {
            assert(q < d) by (nonlinear_arith)
                requires
                    d as int == w as int * q as int + m as int,
                    0 < m < w,
                    q >= 0,
            ;
            q + 1
        };
        proof {
            if m == 0 {
                assert(x@ == (old as int - c as int) * w as int + 0) by (nonlinear_arith)
                    requires
                        x@ == (w as int - 1) * old as int + new as int,
                        d as int == old as int - new as int,
                        d as int == w as int * q as int,
                        c == q,
                ;
                vstd::arithmetic::div_mod::lemma_fundamental_div_mod_converse(
                    x@,
                    w as int,
                    old as int - c as int,
                    0,
                );
            } else {
                assert(x@ == (old as int - c as int) * w as int + (w as int - m as int))
                    by (nonlinear_arith)
                    requires
                        x@ == (w as int - 1) * old as int + new as int,
                        d as int == old as int - new as int,
                        d as int == w as int * q as int + m as int,
                        c as int == q as int + 1,
                ;
                vstd::arithmetic::div_mod::lemma_fundamental_div_mod_converse(
                    x@,
                    w as int,
                    old as int - c as int,
                    w as int - m as int,
                );
            }
            lemma_decayed_between(old as int, new as int, w as int);
        }
        old - c
    }
}

/// `x`, raised to a rate of 1 when it is below it.
fn floor_at_one(x: u128) -> (r: u128)
    ensures
        r == floored(x as int),
{
    if x >= RATE_SCALE {
        x
    } else {
        RATE_SCALE
    }
}

/// Blends `new_measure` into `old`, field by field, over a window of `window`
/// blocks, and raises every field that falls below a rate of 1.
pub fn blend_estimates(new_measure: &FeeRateEstimate, old: &FeeRateEstimate, window: u32) -> (r:
    FeeRateEstimate)
    requires
        window >= 1,
    ensures
        r == blended(*new_measure, *old, window as int),
        r.high >= RATE_SCALE && r.middle >= RATE_SCALE && r.low >= RATE_SCALE,
{
    let high = floor_at_one(decay_field(old.high, new_measure.high, window));
    let middle = floor_at_one(decay_field(old.middle, new_measure.middle, window));
    let low = floor_at_one(decay_field(old.low, new_measure.low, window));
    FeeRateEstimate { high, middle, low }
}

} // verus!
