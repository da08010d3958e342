//! Standing laws of the value rationaliser.
//!
//! The tick's other guarantees (stocks never negative, workforce
//! allocations never zero, zero-demand commodities unpriced, a
//! zero-length tick leaving population alone) are stated directly on
//! `tick_site_economy`'s contract; the smoothing-stability law below
//! needs its own proof, because it speaks about what repeated ticks do.

use vstd::prelude::*;
use vstd::arithmetic::div_mod::{lemma_div_multiples_vanish, lemma_fundamental_div_mod};
use vstd::arithmetic::power2::lemma2_to64;
use crate::fixed::{abs_spec, div_spec, max_spec, pow2_fx_spec, sdiv_spec, smooth_spec, sub_spec,
    CAP, SCALE};
use crate::economy::value_band;
use crate::values::{value_raw_spec, value_update_spec};

verus! {

/// When surplus exactly meets demand, the raw scarcity signal is the
/// neutral value: exactly one unit.
pub proof fn lemma_neutral_raw(d: int)
    requires
        0 < d <= CAP,
    ensures
        value_raw_spec(d, d) == SCALE,
{
    assert((d * SCALE) / d == SCALE) by {
        lemma_div_multiples_vanish(SCALE as int, d);
        assert(d * SCALE == SCALE * d) by (nonlinear_arith);
    }
    assert(sdiv_spec(d, d) == SCALE);
    assert(sub_spec(SCALE as int, SCALE as int) == 0);
    assert(pow2_fx_spec(0) == SCALE) by {
        lemma2_to64();
    }
}

/// Smoothing stability: while surplus keeps matching a positive demand,
/// each tick's value update moves the smoothed scarcity value toward
/// the neutral one unit — never away from it, and strictly closer
/// whenever it is more than five micro-units off. A commodity without a
/// value yet is priced at exactly one unit at once.
pub proof fn lemma_value_convergence(prev: Option<i64>, d: int)
    requires
        0 < d <= CAP,
        value_band(prev),
    ensures
        value_update_spec(prev, d, d) is Some,
        prev is None ==> value_update_spec(prev, d, d) == Some(SCALE),
        prev matches Some(p) ==> {
            let v = value_update_spec(prev, d, d)->Some_0;
            &&& abs_spec(v - SCALE) <= abs_spec(p - SCALE)
            &&& abs_spec(p - SCALE) >= 5 ==> abs_spec(v - SCALE) < abs_spec(p - SCALE)
        },
{
    lemma_neutral_raw(d);
    match prev {
        None => {
            assert(smooth_spec(SCALE as int, SCALE as int) == SCALE);
        },
        Some(p) => {
            let n = 8 * p + 2 * SCALE;
            let v = smooth_spec(p as int, SCALE as int);
            lemma_fundamental_div_mod(n, 10);
            assert(n == 10 * (n / 10) + n % 10);
            assert(0 <= n % 10 < 10);
            assert(v == n / 10);
        },
    }
}

/// The value after `steps` further ticks whose surplus keeps matching
/// the demand `d`.
pub open spec fn iterated_value_spec(prev: Option<i64>, d: int, steps: nat) -> Option<i64>
    decreases steps,
{
    if steps == 0 {
        prev
    } else {
        value_update_spec(iterated_value_spec(prev, d, (steps - 1) as nat), d, d)
    }
}

/// Convergence: while surplus keeps matching a positive demand, the
/// scarcity value's distance from the neutral one unit shrinks by at
/// least one micro-unit per tick until it lies within four micro-units,
/// and never grows again — so any starting value ends up, and stays,
/// within four micro-units of 1.0 after at most a billion ticks.
pub proof fn lemma_value_converges(prev: Option<i64>, d: int, steps: nat)
    requires
        0 < d <= CAP,
        value_band(prev),
        steps >= 1,
    ensures
        value_band(iterated_value_spec(prev, d, steps)),
        iterated_value_spec(prev, d, steps) matches Some(v) && abs_spec(
            v - SCALE,
        ) <= max_spec(
            match prev {
                Some(p) => abs_spec(p - SCALE) - steps,
                None => 0,
            },
            4,
        ),
    decreases steps,
{
    if steps == 1 {
        lemma_value_convergence(prev, d);
    } else {
        lemma_value_converges(prev, d, (steps - 1) as nat);
        let mid = iterated_value_spec(prev, d, (steps - 1) as nat);
        lemma_value_convergence(mid, d);
    }
}

} // verus!
