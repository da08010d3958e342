//! The per-settlement economy state and the aggregation stage.
//!
//! An `Economy` is owned by one site and mutated in place once per tick.
//! Aggregation turns the current workforce allocation, population and the
//! catalog's orders into total demand and supply per commodity, plus the
//! derived surplus (counting stock) and marginal surplus (ignoring stock).

use vstd::prelude::*;
use crate::fixed::{
    add_spec, in_range, mul_spec, sub_spec, fx_add, fx_mul, fx_sub, CAP, SCALE,
};
use crate::catalog::{Catalog, IndustryMap, Industry, OrderGroup, OrderItem};
use crate::goods::{Good, GoodMap, GoodOptMap, Labor, LaborMap};

verus! {

/// Scarcity values are meaningful only strictly inside
/// `(MIN_VALUE, MAX_VALUE)`: 0.001 to 1000 units.
pub const MIN_VALUE: i64 = 1_000;

/// Upper bound of the meaningful scarcity-value band.
pub const MAX_VALUE: i64 = 1_000_000_000;

/// One simulated year, in fixed-point days (twelve 30-day months).
pub const YEAR_FX: i64 = 360_000_000;

/// One economic tick, in fixed-point days (three months).
pub const TICK_PERIOD_FX: i64 = 90_000_000;

/// Yearly birth rate while food runs a surplus (0.05/year).
pub const BIRTH_RATE: i64 = 50_000;

/// Constant yearly death rate (0.005/year).
pub const DEATH_RATE: i64 = 5_000;

/// A present scarcity value must lie strictly inside the meaningful band.
pub open spec fn value_band(v: Option<i64>) -> bool {
    match v {
        Some(x) => MIN_VALUE < x < MAX_VALUE,
        None => true,
    }
}

/// The full economic record of one settlement.
#[derive(Clone, Copy, Debug, PartialEq, Eq, Structural)]
pub struct Economy {
    /// Population, never negative.
    pub pop: i64,
    /// On-hand quantity per commodity; never negative after a tick.
    pub stocks: GoodMap,
    /// Smoothed scarcity signal; `None` means "unpriced this tick".
    pub values: GoodOptMap,
    /// Instantaneous demand / total-availability ratio, recomputed fresh.
    pub prices: GoodMap,
    /// Supply plus stock minus demand, overwritten each tick.
    pub surplus: GoodMap,
    /// Supply minus demand (stock excluded), overwritten each tick.
    pub marginal_surplus: GoodMap,
    /// Fraction of the population working each industry, in `[0, 1]`.
    pub labors: LaborMap,
    /// Last realized bottleneck ratio per industry.
    pub productivity: LaborMap,
    /// Last realized output per worker per industry.
    pub yields: LaborMap,
}

impl Economy {
    /// The internal invariant every tick preserves.
    pub open spec fn wf(self) -> bool {
        &&& 0 <= self.pop <= CAP
        &&& self.stocks.all_nonneg()
        &&& self.prices.all_nonneg()
        &&& self.surplus.all_in_range()
        &&& self.marginal_surplus.all_in_range()
        &&& self.labors.all_fraction()
        &&& self.productivity.all_nonneg()
        &&& self.yields.all_nonneg()
        &&& forall|g: Good| value_band(#[trigger] self.values.spec_get(g))
    }

    /// A freshly settled site: seed population, stocks and workforce, no
    /// price signals and no production history yet.
    pub fn new(pop: i64, stocks: GoodMap, labors: LaborMap) -> (r: Economy)
        requires
            0 <= pop <= CAP,
            stocks.all_nonneg(),
            labors.all_fraction(),
        ensures
            r.wf(),
            r.pop == pop,
            r.stocks == stocks,
            r.labors == labors,
            forall|g: Good| #[trigger] r.values.spec_get(g) is None,
            forall|l: Labor| #[trigger] r.yields.spec_get(l) == 0,
            forall|l: Labor| #[trigger] r.productivity.spec_get(l) == 0,
    {
        Economy {
            pop,
            stocks,
            values: GoodOptMap::none(),
            prices: GoodMap::zero(),
            surplus: GoodMap::zero(),
            marginal_surplus: GoodMap::zero(),
            labors,
            productivity: LaborMap::zero(),
            yields: LaborMap::zero(),
        }
    }
}

/// The all-zero per-good map, as a spec value.
pub open spec fn gm_zero() -> GoodMap {
    GoodMap { food: 0, wood: 0, ore: 0 }
}

/// The demand weight of one order group: the assigned workforce fraction
/// (or the whole population for the base-upkeep group) times population.
pub open spec fn group_scale(labors: LaborMap, pop: int, labor: Option<Labor>) -> int {
    mul_spec(
        match labor {
            Some(l) => labors.spec_get(l),
            None => SCALE as int,
        },
        pop,
    )
}

/// Accumulate one group's items into the demand map.
pub open spec fn add_items_demand(d: GoodMap, items: Seq<OrderItem>, scale: int) -> GoodMap
    decreases items.len(),
{
    if items.len() == 0 {
        d
    } else {
        let it = items[0];
        let d2 = d.spec_set(it.good, add_spec(d.spec_get(it.good), mul_spec(it.amount as int, scale)));
        add_items_demand(d2, items.skip(1), scale)
    }
}

/// Accumulate every order group into the demand map.
pub open spec fn add_groups_demand(
    d: GoodMap,
    groups: Seq<OrderGroup>,
    labors: LaborMap,
    pop: int,
) -> GoodMap
    decreases groups.len(),
{
    if groups.len() == 0 {
        d
    } else {
        let d2 = add_items_demand(d, groups[0].inputs@, group_scale(labors, pop, groups[0].labor));
        add_groups_demand(d2, groups.skip(1), labors, pop)
    }
}

/// Total demand per commodity under the given workforce and population.
pub open spec fn demand_spec(c: Catalog, labors: LaborMap, pop: int) -> GoodMap {
    add_groups_demand(gm_zero(), c.orders@, labors, pop)
}

/// Fold one industry's output into the supply map: last tick's yield per
/// worker times its current workforce.
pub open spec fn supply_one(
    s: GoodMap,
    ind: Industry,
    yield_l: int,
    labor_l: int,
    pop: int,
) -> GoodMap {
    s.spec_set(
        ind.output,
        add_spec(s.spec_get(ind.output), mul_spec(mul_spec(yield_l, labor_l), pop)),
    )
}

/// Total supply per commodity; yields are last tick's realized
/// efficiency, a deliberate one-tick lag.
pub open spec fn supply_spec(e: Economy, inds: IndustryMap) -> GoodMap {
    let s1 = supply_one(gm_zero(), inds.farmer, e.yields.farmer as int, e.labors.farmer as int,
        e.pop as int);
    let s2 = supply_one(s1, inds.lumberjack, e.yields.lumberjack as int,
        e.labors.lumberjack as int, e.pop as int);
    supply_one(s2, inds.miner, e.yields.miner as int, e.labors.miner as int, e.pop as int)
}

/// Surplus per good: supply plus stock minus demand.
pub open spec fn surplus_spec(d: GoodMap, s: GoodMap, st: GoodMap) -> GoodMap {
    GoodMap {
        food: sub_spec(add_spec(s.food as int, st.food as int), d.food as int) as i64,
        wood: sub_spec(add_spec(s.wood as int, st.wood as int), d.wood as int) as i64,
        ore: sub_spec(add_spec(s.ore as int, st.ore as int), d.ore as int) as i64,
    }
}

/// Marginal surplus per good: supply minus demand, stock excluded, so
/// stockpiles cannot mask scarcity in the value signal.
pub open spec fn marginal_surplus_spec(d: GoodMap, s: GoodMap) -> GoodMap {
    GoodMap {
        food: sub_spec(s.food as int, d.food as int) as i64,
        wood: sub_spec(s.wood as int, d.wood as int) as i64,
        ore: sub_spec(s.ore as int, d.ore as int) as i64,
    }
}

/// Accumulate `v` onto one entry of a non-negative per-good map.
pub fn gm_accumulate(m: &mut GoodMap, g: Good, v: i64)
    requires
        old(m).all_nonneg(),
        0 <= v <= CAP,
    ensures
        *final(m) == old(m).spec_set(g, add_spec(old(m).spec_get(g), v as int)),
        final(m).all_nonneg(),
{
    let cur = m.get(g);
    let ghost mprev = *m;
    m.set(g, fx_add(cur, v));
    proof {
        assert forall|x: Good| 0 <= #[trigger] m.spec_get(x) <= CAP by {
            if x != g {
                assert(m.spec_get(x) == mprev.spec_get(x));
            }
        }
    }
}

/// Total supply per commodity, exact per `supply_spec`.
pub fn compute_supply(e: &Economy, inds: &IndustryMap) -> (s: GoodMap)
    requires
        e.wf(),
    ensures
        s == supply_spec(*e, *inds),
        s.all_nonneg(),
{
    proof {
        assert(e.yields.spec_get(Labor::Farmer) == e.yields.farmer as int);
        assert(e.yields.spec_get(Labor::Lumberjack) == e.yields.lumberjack as int);
        assert(e.yields.spec_get(Labor::Miner) == e.yields.miner as int);
        assert(e.labors.spec_get(Labor::Farmer) == e.labors.farmer as int);
        assert(e.labors.spec_get(Labor::Lumberjack) == e.labors.lumberjack as int);
        assert(e.labors.spec_get(Labor::Miner) == e.labors.miner as int);
    }
    let mut s = GoodMap::zero();
    assert(s == gm_zero());
    gm_accumulate(&mut s, inds.farmer.output, fx_mul(fx_mul(e.yields.farmer, e.labors.farmer),
        e.pop));
    gm_accumulate(
        &mut s,
        inds.lumberjack.output,
        fx_mul(fx_mul(e.yields.lumberjack, e.labors.lumberjack), e.pop),
    );
    gm_accumulate(&mut s, inds.miner.output, fx_mul(fx_mul(e.yields.miner, e.labors.miner),
        e.pop));
    s
}

/// Overwrite the surplus and marginal-surplus fields from this tick's
/// demand and supply, exact per `surplus_spec` and `marginal_surplus_spec`.
pub fn compute_surpluses(econ: &mut Economy, demand: &GoodMap, supply: &GoodMap)
    requires
        old(econ).wf(),
        demand.all_nonneg(),
        supply.all_nonneg(),
    ensures
        *final(econ) == (Economy {
            surplus: surplus_spec(*demand, *supply, old(econ).stocks),
            marginal_surplus: marginal_surplus_spec(*demand, *supply),
            ..*old(econ)
        }),
        final(econ).wf(),
{
    proof {
        assert(demand.spec_get(Good::Food) == demand.food as int);
        assert(demand.spec_get(Good::Wood) == demand.wood as int);
        assert(demand.spec_get(Good::Ore) == demand.ore as int);
        assert(supply.spec_get(Good::Food) == supply.food as int);
        assert(supply.spec_get(Good::Wood) == supply.wood as int);
        assert(supply.spec_get(Good::Ore) == supply.ore as int);
        assert(old(econ).stocks.spec_get(Good::Food) == old(econ).stocks.food as int);
        assert(old(econ).stocks.spec_get(Good::Wood) == old(econ).stocks.wood as int);
        assert(old(econ).stocks.spec_get(Good::Ore) == old(econ).stocks.ore as int);
    }
    econ.surplus = GoodMap {
        food: fx_sub(fx_add(supply.food, econ.stocks.food), demand.food),
        wood: fx_sub(fx_add(supply.wood, econ.stocks.wood), demand.wood),
        ore: fx_sub(fx_add(supply.ore, econ.stocks.ore), demand.ore),
    };
    econ.marginal_surplus = GoodMap {
        food: fx_sub(supply.food, demand.food),
        wood: fx_sub(supply.wood, demand.wood),
        ore: fx_sub(supply.ore, demand.ore),
    };
    proof {
        assert forall|g: Good| in_range(#[trigger] econ.surplus.spec_get(g)) by {
        }
        assert forall|g: Good| in_range(#[trigger] econ.marginal_surplus.spec_get(g)) by {
        }
    }
}

/// Total demand per commodity, exact per `demand_spec`.
pub fn compute_demand(catalog: &Catalog, labors: &LaborMap, pop: i64) -> (d: GoodMap)
    requires
        catalog.wf(),
        labors.all_fraction(),
        0 <= pop <= CAP,
    ensures
        d == demand_spec(*catalog, *labors, pop as int),
        d.all_nonneg(),
{
    let mut d = GoodMap::zero();
    proof {
        assert(d == gm_zero());
        assert(catalog.orders@.skip(0) =~= catalog.orders@);
    }
    let n = catalog.orders.len();
    let mut i: usize = 0;
    while i < n
        invariant
            n == catalog.orders@.len(),
            0 <= i <= n,
            catalog.wf(),
            labors.all_fraction(),
            0 <= pop <= CAP,
            d.all_nonneg(),
            add_groups_demand(d, catalog.orders@.skip(i as int), *labors, pop as int)
                == demand_spec(*catalog, *labors, pop as int),
        decreases n - i,
    {
        let grp = &catalog.orders[i];
        let weight: i64 = match grp.labor {
            Some(l) => labors.get(l),
            None => SCALE,
        };
        let scale = fx_mul(weight, pop);
        let m = grp.inputs.len();
        let mut j: usize = 0;
        let ghost d0 = d;
        proof {
            assert(catalog.orders@.skip(i as int)[0] == catalog.orders@[i as int]);
            assert(scale == group_scale(*labors, pop as int, grp.labor));
            assert(grp.inputs@.skip(0) =~= grp.inputs@);
        }
        while j < m
            invariant
                m == grp.inputs@.len(),
                0 <= j <= m,
                grp.wf(),
                in_range(scale as int),
                0 <= scale,
                d.all_nonneg(),
                add_items_demand(d, grp.inputs@.skip(j as int), scale as int)
                    == add_items_demand(d0, grp.inputs@, scale as int),
            decreases m - j,
        {
            proof {
                assert(grp.inputs@.skip(j as int)[0] == grp.inputs@[j as int]);
                assert(grp.inputs@.skip(j as int).skip(1) =~= grp.inputs@.skip(j as int + 1));
            }
            let it = grp.inputs[j];
            let cur = d.get(it.good);
            let inc = fx_mul(it.amount, scale);
            let ghost dprev = d;
            d.set(it.good, fx_add(cur, inc));
            proof {
                assert forall|g: Good| 0 <= #[trigger] d.spec_get(g) <= CAP by {
                    if g != it.good {
                        assert(d.spec_get(g) == dprev.spec_get(g));
                    }
                }
            }
            j = j + 1;
        }
        proof {
            assert(grp.inputs@.skip(m as int) =~= Seq::<OrderItem>::empty());
            assert(catalog.orders@.skip(i as int).skip(1) =~= catalog.orders@.skip(i as int + 1));
        }
        i = i + 1;
    }
    proof {
        assert(catalog.orders@.skip(n as int) =~= Seq::<OrderGroup>::empty());
    }
    d
}

} // verus!
