//! The per-site economic tick: the six stages in their fixed order.
//!
//! Aggregate demand and supply, rationalise values and prices,
//! reallocate the workforce, produce, decay and replenish stocks, then
//! update the population. The ordering is a correctness-relevant
//! invariant: feedback happens only across ticks, through the smoothing
//! factor, never within one.

use vstd::prelude::*;
use crate::fixed::{
    add_spec, div_spec, max_spec, mul_spec, fx_add, fx_div, fx_max0, fx_mul, CAP, SCALE,
};
use crate::catalog::{validate_orders, Catalog, EconError};
use crate::goods::{Good, GoodMap, Labor};
use crate::economy::{
    compute_demand, compute_supply, compute_surpluses, demand_spec, marginal_surplus_spec,
    supply_spec, surplus_spec, Economy, BIRTH_RATE, DEATH_RATE, YEAR_FX,
};
use crate::values::{
    labors_after_spec, prices_spec, rationalize, reallocate, values_spec, ALLOC_FLOOR,
};
use crate::production::{produce, produce_spec};

verus! {

/// One tick of geometric decay on every stock.
pub open spec fn decay_spec(stocks: GoodMap) -> GoodMap {
    GoodMap {
        food: mul_spec(stocks.food as int, SCALE - Good::Food.spec_decay_rate()) as i64,
        wood: mul_spec(stocks.wood as int, SCALE - Good::Wood.spec_decay_rate()) as i64,
        ore: mul_spec(stocks.ore as int, SCALE - Good::Ore.spec_decay_rate()) as i64,
    }
}

/// The externally computed replenishment, added onto every stock.
pub open spec fn replenish_spec(stocks: GoodMap, restock: GoodMap) -> GoodMap {
    GoodMap {
        food: add_spec(stocks.food as int, restock.food as int) as i64,
        wood: add_spec(stocks.wood as int, restock.wood as int) as i64,
        ore: add_spec(stocks.ore as int, restock.ore as int) as i64,
    }
}

/// The demographic update: a food-surplus-gated birth rate against a
/// constant death rate, scaled by the elapsed fraction of a year, and
/// floored at zero — extinction, never a negative population.
pub open spec fn pop_update_spec(pop: int, food_surplus: int, dt: int) -> int {
    let br: int = if food_surplus > 0 {
        BIRTH_RATE as int
    } else {
        0
    };
    let delta = mul_spec(mul_spec(div_spec(dt, YEAR_FX as int), pop), br - DEATH_RATE);
    max_spec(add_spec(pop, delta), 0)
}

/// The whole tick as a mathematical function of the previous state.
/// A tick over no elapsed time is the identity: with `dt == 0` every
/// stage — decay, replenishment and the demographic term included — is
/// a no-op and the economy is left exactly as it was.
pub open spec fn tick_site_spec(e: Economy, c: Catalog, restock: GoodMap, dt: int) -> Economy {
    if dt == 0 {
        e
    } else {
        tick_stages_spec(e, c, restock, dt)
    }
}

/// The six stages in order, for a tick over positive elapsed time.
pub open spec fn tick_stages_spec(e: Economy, c: Catalog, restock: GoodMap, dt: int) -> Economy {
    let demand = demand_spec(c, e.labors, e.pop as int);
    let supply = supply_spec(e, c.industries);
    let e1 = Economy {
        surplus: surplus_spec(demand, supply, e.stocks),
        marginal_surplus: marginal_surplus_spec(demand, supply),
        ..e
    };
    let e2 = Economy {
        values: values_spec(e1.values, e1.surplus, demand),
        prices: prices_spec(demand, supply, e1.stocks),
        ..e1
    };
    let e3 = Economy {
        labors: labors_after_spec(e2.labors, e2.values, e2.productivity, c.industries),
        ..e2
    };
    let e4 = produce_spec(e3, e3.stocks, demand, c.industries, c.orders@);
    let e5 = Economy { stocks: replenish_spec(decay_spec(e4.stocks), restock), ..e4 };
    Economy {
        pop: pop_update_spec(e5.pop as int, e5.surplus.spec_get(Good::Food), dt) as i64,
        ..e5
    }
}

/// Decay every stock in place, exact per `decay_spec`.
pub fn decay_stocks(econ: &mut Economy)
    requires
        old(econ).wf(),
    ensures
        *final(econ) == (Economy { stocks: decay_spec(old(econ).stocks), ..*old(econ) }),
        final(econ).wf(),
{
    proof {
        assert(econ.stocks.spec_get(Good::Food) == econ.stocks.food as int);
        assert(econ.stocks.spec_get(Good::Wood) == econ.stocks.wood as int);
        assert(econ.stocks.spec_get(Good::Ore) == econ.stocks.ore as int);
    }
    let rate_food = Good::Food.decay_rate();
    let rate_wood = Good::Wood.decay_rate();
    let rate_ore = Good::Ore.decay_rate();
    econ.stocks = GoodMap {
        food: fx_mul(econ.stocks.food, SCALE - rate_food),
        wood: fx_mul(econ.stocks.wood, SCALE - rate_wood),
        ore: fx_mul(econ.stocks.ore, SCALE - rate_ore),
    };
    proof {
        assert forall|g: Good| 0 <= #[trigger] econ.stocks.spec_get(g) <= CAP by {
        }
    }
}

/// Add the external replenishment in place, exact per `replenish_spec`.
pub fn replenish(econ: &mut Economy, restock: &GoodMap)
    requires
        old(econ).wf(),
        restock.all_nonneg(),
    ensures
        *final(econ) == (Economy {
            stocks: replenish_spec(old(econ).stocks, *restock),
            ..*old(econ)
        }),
        final(econ).wf(),
{
    proof {
        assert(econ.stocks.spec_get(Good::Food) == econ.stocks.food as int);
        assert(econ.stocks.spec_get(Good::Wood) == econ.stocks.wood as int);
        assert(econ.stocks.spec_get(Good::Ore) == econ.stocks.ore as int);
        assert(restock.spec_get(Good::Food) == restock.food as int);
        assert(restock.spec_get(Good::Wood) == restock.wood as int);
        assert(restock.spec_get(Good::Ore) == restock.ore as int);
    }
    econ.stocks = GoodMap {
        food: fx_add(econ.stocks.food, restock.food),
        wood: fx_add(econ.stocks.wood, restock.wood),
        ore: fx_add(econ.stocks.ore, restock.ore),
    };
    proof {
        assert forall|g: Good| 0 <= #[trigger] econ.stocks.spec_get(g) <= CAP by {
        }
    }
}

/// Update the population in place, exact per `pop_update_spec`; with no
/// elapsed time the population is untouched.
pub fn update_population(econ: &mut Economy, dt: i64)
    requires
        old(econ).wf(),
        0 <= dt <= CAP,
    ensures
        *final(econ) == (Economy {
            pop: pop_update_spec(
                old(econ).pop as int,
                old(econ).surplus.spec_get(Good::Food),
                dt as int,
            ) as i64,
            ..*old(econ)
        }),
        final(econ).wf(),
        dt == 0 ==> final(econ).pop == old(econ).pop,
{
    proof {
        assert(econ.surplus.spec_get(Good::Food) == econ.surplus.food as int);
    }
    let br: i64 = if econ.surplus.food > 0 {
        BIRTH_RATE
    } else {
        0
    };
    let frac = fx_div(dt, YEAR_FX);
    let delta = fx_mul(fx_mul(frac, econ.pop), br - DEATH_RATE);
    proof {
        if dt == 0 {
            assert(div_spec(0, YEAR_FX as int) == 0);
            assert(forall|x: int| #[trigger] (0 * x) == 0) by (nonlinear_arith);
            assert(mul_spec(0, econ.pop as int) == 0);
            assert(mul_spec(0, (br - DEATH_RATE) as int) == 0);
            assert(delta == 0);
        }
    }
    econ.pop = fx_max0(fx_add(econ.pop, delta));
}

/// Simulate one site's economy for one tick.
///
/// The simulation is roughly the Lange-Lerner price-adjustment scheme:
/// values start arbitrary and are nudged each tick by the realized
/// scarcity of every commodity, the workforce is then reassigned by
/// those values, and damping keeps value rationalisation from
/// oscillating the economy apart. Every industry keeps a small nonzero
/// allocation even while unprofitable, so the economy can pivot quickly
/// when a missing input becomes available.
///
/// The contract pins the new state down exactly (`tick_site_spec`) and
/// states the tick's standing guarantees: stocks stay non-negative, and
/// after any tick over positive elapsed time no workforce allocation is
/// zero and an unpriced commodity is exactly one whose demand was zero
/// or whose raw signal left the meaningful band. A tick over no elapsed
/// time changes nothing at all: population, stocks, prices, values and
/// workforce all stay as they were. A catalog with an empty order group
/// is rejected up front, naming the offending industry, and the state
/// is left untouched.
///
/// The external replenishment model is rendered as the caller-supplied
/// `restock` amounts, applied exactly once per tick, after decay; a
/// model that must itself read the post-decay stocks would need to run
/// between two ticks instead.
pub fn tick_site_economy(econ: &mut Economy, catalog: &Catalog, restock: &GoodMap, dt: i64) -> (r:
    Result<(), EconError>)
    requires
        old(econ).wf(),
        catalog.wf(),
        restock.all_nonneg(),
        0 <= dt <= CAP,
    ensures
        final(econ).wf(),
        r is Ok <==> catalog.orders_valid(),
        r is Ok ==> *final(econ) == tick_site_spec(*old(econ), *catalog, *restock, dt as int),
        r matches Err(e) ==> *final(econ) == *old(econ) && exists|i: int|
            0 <= i < catalog.orders@.len() && (#[trigger] catalog.orders@[i]).inputs@.len() == 0
                && e == (EconError::EmptyOrders { labor: catalog.orders@[i].labor }),
        forall|g: Good| 0 <= #[trigger] final(econ).stocks.spec_get(g),
        r is Ok && dt != 0 ==> forall|l: Labor|
            ALLOC_FLOOR <= #[trigger] final(econ).labors.spec_get(l) <= SCALE,
        r is Ok && dt == 0 ==> *final(econ) == *old(econ),
        r is Ok && dt != 0 ==> forall|g: Good|
            demand_spec(*catalog, old(econ).labors, old(econ).pop as int).spec_get(g) <= 0
                ==> (#[trigger] final(econ).values.spec_get(g)) is None,
{
    if let Err(e) = validate_orders(catalog) {
        return Err(e);
    }
    if dt == 0 {
        return Ok(());
    }
    let demand = compute_demand(catalog, &econ.labors, econ.pop);
    let supply = compute_supply(econ, &catalog.industries);
    compute_surpluses(econ, &demand, &supply);
    rationalize(econ, &demand, &supply);
    reallocate(econ, &catalog.industries);
    produce(econ, catalog, &demand);
    decay_stocks(econ);
    replenish(econ, restock);
    update_population(econ, dt);
    proof {
        assert(*econ == tick_site_spec(*old(econ), *catalog, *restock, dt as int));
        assert forall|g: Good|
            demand_spec(*catalog, old(econ).labors, old(econ).pop as int).spec_get(g) <= 0
                implies (#[trigger] econ.values.spec_get(g)) is None by {
            let d = demand_spec(*catalog, old(econ).labors, old(econ).pop as int);
            assert(d.spec_get(g) == demand.spec_get(g));
        }
    }
    Ok(())
}

} // verus!
