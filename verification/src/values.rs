//! Value rationalisation and workforce reallocation.
//!
//! Each commodity's surplus is turned into a smoothed scarcity signal
//! ("value") and a separate instantaneous price; the workforce is then
//! redistributed proportionally to each industry's value-weighted
//! productivity, smoothed and floored so that no industry's allocation
//! ever reaches zero.

use vstd::prelude::*;
use vstd::arithmetic::div_mod::{
    lemma_div_is_ordered, lemma_div_multiples_vanish, lemma_fundamental_div_mod,
};
use vstd::arithmetic::mul::lemma_mul_inequality;
use crate::fixed::{
    div_spec, in_range, max_spec, mul_spec, pow2_fx_spec, sdiv_spec, smooth_spec, sub_spec,
    add_spec, fx_add, fx_div, fx_mul, fx_pow2, fx_sdiv, fx_smooth, fx_sub, CAP, SCALE,
};
use crate::catalog::IndustryMap;
use crate::goods::{Good, GoodMap, GoodOptMap, Labor, LaborMap};
use crate::economy::{value_band, Economy, MAX_VALUE, MIN_VALUE};

verus! {

/// The ratio sum is floored at 0.01 to avoid division by zero.
pub const MIN_RATIO_SUM: i64 = 10_000;

/// Every industry keeps at least this workforce fraction after one
/// reallocation step (0.00018), so no allocation is ever exactly zero.
pub const ALLOC_FLOOR: i64 = 180;

/// A missing scarcity value contributes zero weight.
pub open spec fn opt_or0(v: Option<i64>) -> int {
    match v {
        Some(x) => x as int,
        None => 0,
    }
}

/// The raw scarcity signal `2^(1 - surplus/demand)`: neutral (one unit)
/// when surplus equals demand, small when abundant, large when scarce.
pub open spec fn value_raw_spec(surplus: int, demand: int) -> int {
    pow2_fx_spec(sub_spec(SCALE as int, sdiv_spec(surplus, demand)))
}

/// One commodity's smoothed value. With zero demand the ratio is
/// ill-defined, and the documented fallback is the explicit unpriced
/// state `None`; a raw signal outside the meaningful band likewise
/// un-prices the commodity instead of destabilising the reallocator.
pub open spec fn value_update_spec(prev: Option<i64>, surplus: int, demand: int) -> Option<i64> {
    if demand <= 0 {
        None
    } else {
        let raw = value_raw_spec(surplus, demand);
        if MIN_VALUE < raw < MAX_VALUE {
            Some(
                smooth_spec(
                    match prev {
                        Some(p) => p as int,
                        None => raw,
                    },
                    raw,
                ) as i64,
            )
        } else {
            None
        }
    }
}

/// All three scarcity values after one rationalisation pass.
pub open spec fn values_spec(prev: GoodOptMap, surplus: GoodMap, demand: GoodMap) -> GoodOptMap {
    GoodOptMap {
        food: value_update_spec(prev.food, surplus.food as int, demand.food as int),
        wood: value_update_spec(prev.wood, surplus.wood as int, demand.wood as int),
        ore: value_update_spec(prev.ore, surplus.ore as int, demand.ore as int),
    }
}

/// One commodity's instantaneous price: demand over total availability.
/// With nothing available the documented fallback is zero when nothing
/// is demanded either, and the saturation bound when demand is positive.
pub open spec fn price_spec(demand: int, supply: int, stocks: int) -> int {
    let avail = add_spec(supply, stocks);
    if avail <= 0 {
        if demand <= 0 {
            0
        } else {
            CAP as int
        }
    } else {
        div_spec(demand, avail)
    }
}

/// All three prices after one rationalisation pass.
pub open spec fn prices_spec(demand: GoodMap, supply: GoodMap, stocks: GoodMap) -> GoodMap {
    GoodMap {
        food: price_spec(demand.food as int, supply.food as int, stocks.food as int) as i64,
        wood: price_spec(demand.wood as int, supply.wood as int, stocks.wood as int) as i64,
        ore: price_spec(demand.ore as int, supply.ore as int, stocks.ore as int) as i64,
    }
}

/// One industry's target weight: the value of its output good times its
/// last realized productivity.
pub open spec fn ratio_spec(
    values: GoodOptMap,
    productivity: LaborMap,
    inds: IndustryMap,
    l: Labor,
) -> int {
    mul_spec(opt_or0(values.spec_get(inds.spec_get(l).output)), productivity.spec_get(l))
}

/// The normalisation denominator: the summed target weights, floored.
pub open spec fn ratio_sum_spec(values: GoodOptMap, productivity: LaborMap, inds: IndustryMap)
    -> int {
    max_spec(
        ratio_spec(values, productivity, inds, Labor::Farmer) + ratio_spec(
            values,
            productivity,
            inds,
            Labor::Lumberjack,
        ) + ratio_spec(values, productivity, inds, Labor::Miner),
        MIN_RATIO_SUM as int,
    )
}

/// One industry's reallocated workforce fraction: smoothed toward its
/// normalised target weight, floored at a thousandth of the ratio sum.
pub open spec fn labor_update_spec(old_l: int, ratio: int, sum: int) -> int {
    smooth_spec(old_l, div_spec(max_spec(ratio, sum / 1000), sum))
}

/// The whole workforce allocation after one reallocation pass.
pub open spec fn labors_after_spec(
    labors: LaborMap,
    values: GoodOptMap,
    productivity: LaborMap,
    inds: IndustryMap,
) -> LaborMap {
    let sum = ratio_sum_spec(values, productivity, inds);
    LaborMap {
        farmer: labor_update_spec(
            labors.farmer as int,
            ratio_spec(values, productivity, inds, Labor::Farmer),
            sum,
        ) as i64,
        lumberjack: labor_update_spec(
            labors.lumberjack as int,
            ratio_spec(values, productivity, inds, Labor::Lumberjack),
            sum,
        ) as i64,
        miner: labor_update_spec(
            labors.miner as int,
            ratio_spec(values, productivity, inds, Labor::Miner),
            sum,
        ) as i64,
    }
}

/// One commodity's value update, exact per `value_update_spec`; a present
/// value always lies strictly inside the meaningful band.
pub fn value_update_one(prev: Option<i64>, surplus: i64, demand: i64) -> (r: Option<i64>)
    requires
        in_range(surplus as int),
        0 <= demand <= CAP,
        value_band(prev),
    ensures
        r == value_update_spec(prev, surplus as int, demand as int),
        value_band(r),
{
    if demand <= 0 {
        None
    } else {
        let ratio = fx_sdiv(surplus, demand);
        let x = fx_sub(SCALE, ratio);
        let raw = fx_pow2(x);
        if MIN_VALUE < raw && raw < MAX_VALUE {
            let base = match prev {
                Some(p) => p,
                None => raw,
            };
            Some(fx_smooth(base, raw))
        } else {
            None
        }
    }
}

/// One commodity's price, exact per `price_spec`.
pub fn price_one(demand: i64, supply: i64, stocks: i64) -> (r: i64)
    requires
        0 <= demand <= CAP,
        in_range(supply as int),
        0 <= stocks <= CAP,
    ensures
        r == price_spec(demand as int, supply as int, stocks as int),
        0 <= r <= CAP,
{
    let avail = fx_add(supply, stocks);
    if avail <= 0 {
        if demand <= 0 {
            0
        } else {
            CAP
        }
    } else {
        fx_div(demand, avail)
    }
}

/// Rationalise all values and prices in place, exact per `values_spec`
/// and `prices_spec`.
pub fn rationalize(econ: &mut Economy, demand: &GoodMap, supply: &GoodMap)
    requires
        old(econ).wf(),
        demand.all_nonneg(),
        supply.all_nonneg(),
    ensures
        *final(econ) == (Economy {
            values: values_spec(old(econ).values, old(econ).surplus, *demand),
            prices: prices_spec(*demand, *supply, old(econ).stocks),
            ..*old(econ)
        }),
        final(econ).wf(),
{
    proof {
        assert(old(econ).surplus.spec_get(Good::Food) == old(econ).surplus.food as int);
        assert(old(econ).surplus.spec_get(Good::Wood) == old(econ).surplus.wood as int);
        assert(old(econ).surplus.spec_get(Good::Ore) == old(econ).surplus.ore as int);
        assert(demand.spec_get(Good::Food) == demand.food as int);
        assert(demand.spec_get(Good::Wood) == demand.wood as int);
        assert(demand.spec_get(Good::Ore) == demand.ore as int);
        assert(supply.spec_get(Good::Food) == supply.food as int);
        assert(supply.spec_get(Good::Wood) == supply.wood as int);
        assert(supply.spec_get(Good::Ore) == supply.ore as int);
        assert(old(econ).stocks.spec_get(Good::Food) == old(econ).stocks.food as int);
        assert(old(econ).stocks.spec_get(Good::Wood) == old(econ).stocks.wood as int);
        assert(old(econ).stocks.spec_get(Good::Ore) == old(econ).stocks.ore as int);
        assert(old(econ).values.spec_get(Good::Food) == old(econ).values.food);
        assert(old(econ).values.spec_get(Good::Wood) == old(econ).values.wood);
        assert(old(econ).values.spec_get(Good::Ore) == old(econ).values.ore);
    }
    let v_food = value_update_one(econ.values.food, econ.surplus.food, demand.food);
    let v_wood = value_update_one(econ.values.wood, econ.surplus.wood, demand.wood);
    let v_ore = value_update_one(econ.values.ore, econ.surplus.ore, demand.ore);
    let p_food = price_one(demand.food, supply.food, econ.stocks.food);
    let p_wood = price_one(demand.wood, supply.wood, econ.stocks.wood);
    let p_ore = price_one(demand.ore, supply.ore, econ.stocks.ore);
    econ.values = GoodOptMap { food: v_food, wood: v_wood, ore: v_ore };
    econ.prices = GoodMap { food: p_food, wood: p_wood, ore: p_ore };
    proof {
        assert forall|g: Good| 0 <= #[trigger] econ.prices.spec_get(g) <= CAP by {
        }
        assert forall|g: Good| value_band(#[trigger] econ.values.spec_get(g)) by {
        }
    }
}

/// The normalised, floored target weight lies in `[900, SCALE]` micro:
/// at least (just under) a thousandth, at most the whole workforce.
proof fn lemma_alloc_band(ratio: int, sum: int)
    requires
        0 <= ratio <= sum,
        MIN_RATIO_SUM <= sum,
    ensures
        900 <= div_spec(max_spec(ratio, sum / 1000), sum) <= SCALE,
{
    let q = sum / 1000;
    let x = max_spec(ratio, q);
    assert(10 <= q) by {
        lemma_div_is_ordered(10_000, sum, 1000);
    }
    assert(q <= sum) by {
        lemma_fundamental_div_mod(sum, 1000);
        assert(sum == 1000 * q + sum % 1000);
        assert(0 <= sum % 1000 < 1000);
        assert(1000 * q >= q) by (nonlinear_arith)
            requires
                q >= 0,
        ;
    }
    assert(x <= sum);
    // Upper bound: x <= sum gives x * SCALE / sum <= SCALE.
    assert((x * SCALE) <= (sum * SCALE)) by {
        lemma_mul_inequality(x, sum, SCALE as int);
    }
    assert((x * SCALE) / sum <= (sum * SCALE) / sum) by {
        lemma_div_is_ordered(x * SCALE, sum * SCALE, sum);
    }
    assert((sum * SCALE) / sum == SCALE) by {
        lemma_div_multiples_vanish(SCALE as int, sum);
        assert(sum * SCALE == SCALE * sum) by (nonlinear_arith);
    }
    // Lower bound: x >= sum/1000 gives x * SCALE / sum >= 900.
    assert(q * SCALE >= 900 * sum) by (nonlinear_arith)
        requires
            sum == 1000 * q + sum % 1000,
            0 <= sum % 1000 < 1000,
            q >= 10,
    ;
    assert((900 * sum) / sum == 900) by {
        lemma_div_multiples_vanish(900, sum);
        assert(900 * sum == sum * 900) by (nonlinear_arith);
    }
    assert(x * SCALE >= q * SCALE) by {
        lemma_mul_inequality(q, x, SCALE as int);
    }
    assert((x * SCALE) / sum >= (900 * sum) / sum) by {
        lemma_div_is_ordered(900 * sum, x * SCALE, sum);
    }
    assert(div_spec(x, sum) == (x * SCALE) / sum);
}

/// One industry's reallocation step, exact per `labor_update_spec`; the
/// result is never below `ALLOC_FLOOR` and never above one.
pub fn realloc_one(old_l: i64, ratio: i64, sum: i64) -> (r: i64)
    requires
        0 <= old_l <= SCALE,
        0 <= ratio <= sum,
        ratio <= CAP,
        MIN_RATIO_SUM <= sum <= 3 * CAP,
    ensures
        r == labor_update_spec(old_l as int, ratio as int, sum as int),
        ALLOC_FLOOR <= r <= SCALE,
{
    let q: i64 = ((sum as u64) / 1000) as i64;
    let x: i64 = if ratio > q {
        ratio
    } else {
        q
    };
    proof {
        lemma_alloc_band(ratio as int, sum as int);
    }
    let t = fx_div(x, sum);
    fx_smooth(old_l, t)
}

/// Redistribute the workforce in place, exact per `labors_after_spec`;
/// afterwards every industry holds a nonzero fraction of the workforce.
pub fn reallocate(econ: &mut Economy, inds: &IndustryMap)
    requires
        old(econ).wf(),
    ensures
        *final(econ) == (Economy {
            labors: labors_after_spec(
                old(econ).labors,
                old(econ).values,
                old(econ).productivity,
                *inds,
            ),
            ..*old(econ)
        }),
        final(econ).wf(),
        forall|l: Labor| ALLOC_FLOOR <= #[trigger] final(econ).labors.spec_get(l) <= SCALE,
{
    let r_farmer = fx_mul(
        value_or0(econ.values.get(inds.get(Labor::Farmer).output)),
        econ.productivity.get(Labor::Farmer),
    );
    let r_lumberjack = fx_mul(
        value_or0(econ.values.get(inds.get(Labor::Lumberjack).output)),
        econ.productivity.get(Labor::Lumberjack),
    );
    let r_miner = fx_mul(
        value_or0(econ.values.get(inds.get(Labor::Miner).output)),
        econ.productivity.get(Labor::Miner),
    );
    let raw_sum: i64 = r_farmer + r_lumberjack + r_miner;
    let sum: i64 = if raw_sum > MIN_RATIO_SUM {
        raw_sum
    } else {
        MIN_RATIO_SUM
    };
    proof {
        assert(econ.labors.spec_get(Labor::Farmer) == econ.labors.farmer as int);
        assert(econ.labors.spec_get(Labor::Lumberjack) == econ.labors.lumberjack as int);
        assert(econ.labors.spec_get(Labor::Miner) == econ.labors.miner as int);
    }
    let l_farmer = realloc_one(econ.labors.farmer, r_farmer, sum);
    let l_lumberjack = realloc_one(econ.labors.lumberjack, r_lumberjack, sum);
    let l_miner = realloc_one(econ.labors.miner, r_miner, sum);
    econ.labors = LaborMap { farmer: l_farmer, lumberjack: l_lumberjack, miner: l_miner };
    proof {
        assert forall|l: Labor| ALLOC_FLOOR <= #[trigger] econ.labors.spec_get(l) <= SCALE by {
        }
    }
}

/// A missing scarcity value contributes zero weight, exact per `opt_or0`.
fn value_or0(v: Option<i64>) -> (r: i64)
    ensures
        r as int == opt_or0(v),
{
    match v {
        Some(x) => x,
        None => 0,
    }
}

} // verus!
