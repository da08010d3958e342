//! The production executor: bottlenecked consumption, superlinear output.
//!
//! For each order group, the scarcest required input (relative to the
//! economy-wide demand for it) caps how much of the group's need is
//! satisfied this tick; inputs are consumed at that single bottleneck
//! ratio and, for groups tied to an industry, the output stock grows by
//! the yield per worker times `workers^1.1` — deliberate economies of
//! scale.

use vstd::prelude::*;
use crate::fixed::{
    add_spec, max_spec, min_spec, mul_spec, div_spec, pow11_spec, sub_spec, fx_min, fx_mul,
    fx_max0, fx_pow11, fx_sub, fx_div, CAP, SCALE,
};
use crate::catalog::{Catalog, IndustryMap, OrderGroup, OrderItem};
use crate::goods::{Good, GoodMap, Labor};
use crate::economy::{gm_accumulate, group_scale, Economy};

verus! {

/// How far one input good's demand can be satisfied from the stocks that
/// were on hand when production began, capped at one. Zero demand for an
/// input is trivially fully satisfied: the documented fallback for the
/// ill-defined zero-over-zero ratio.
pub open spec fn sat_spec(sb: GoodMap, demand: GoodMap, g: Good) -> int {
    let d = demand.spec_get(g);
    if d <= 0 {
        SCALE as int
    } else {
        min_spec(div_spec(sb.spec_get(g), d), SCALE as int)
    }
}

/// The bottleneck ratio of an order group: the least satisfaction over
/// its required inputs.
pub open spec fn bottleneck_spec(items: Seq<OrderItem>, sb: GoodMap, demand: GoodMap) -> int
    decreases items.len(),
{
    if items.len() == 0 {
        SCALE as int
    } else {
        min_spec(sat_spec(sb, demand, items[0].good), bottleneck_spec(items.skip(1), sb, demand))
    }
}

/// Deplete the running stocks by each input's demanded quantity times the
/// group's bottleneck ratio, floored at zero.
pub open spec fn deplete_spec(stocks: GoodMap, items: Seq<OrderItem>, scale: int, lp: int)
    -> GoodMap
    decreases items.len(),
{
    if items.len() == 0 {
        stocks
    } else {
        let it = items[0];
        let used = mul_spec(mul_spec(it.amount as int, scale), lp);
        let s2 = stocks.spec_set(
            it.good,
            max_spec(sub_spec(stocks.spec_get(it.good), used), 0),
        );
        deplete_spec(s2, items.skip(1), scale, lp)
    }
}

/// One order group's full effect: consume inputs at the bottleneck
/// ratio; for an industry group also record its yield and productivity
/// and add the superlinear output.
pub open spec fn produce_group_spec(
    e: Economy,
    sb: GoodMap,
    demand: GoodMap,
    inds: IndustryMap,
    grp: OrderGroup,
) -> Economy {
    let scale = group_scale(e.labors, e.pop as int, grp.labor);
    let lp = bottleneck_spec(grp.inputs@, sb, demand);
    let depleted = deplete_spec(e.stocks, grp.inputs@, scale, lp);
    match grp.labor {
        None => Economy { stocks: depleted, ..e },
        Some(l) => {
            let ind = inds.spec_get(l);
            let workers = mul_spec(e.labors.spec_get(l), e.pop as int);
            let ypw = mul_spec(lp, ind.rate as int);
            let out_add = mul_spec(ypw, pow11_spec(workers));
            Economy {
                stocks: depleted.spec_set(
                    ind.output,
                    add_spec(depleted.spec_get(ind.output), out_add),
                ),
                yields: e.yields.spec_set(l, ypw),
                productivity: e.productivity.spec_set(l, lp),
                ..e
            }
        },
    }
}

/// The whole production pass, group by group in catalog order.
pub open spec fn produce_spec(
    e: Economy,
    sb: GoodMap,
    demand: GoodMap,
    inds: IndustryMap,
    groups: Seq<OrderGroup>,
) -> Economy
    decreases groups.len(),
{
    if groups.len() == 0 {
        e
    } else {
        produce_spec(
            produce_group_spec(e, sb, demand, inds, groups[0]),
            sb,
            demand,
            inds,
            groups.skip(1),
        )
    }
}

/// The bottleneck ratio always lies in `[0, SCALE]`.
proof fn lemma_bottleneck_band(items: Seq<OrderItem>, sb: GoodMap, demand: GoodMap)
    requires
        sb.all_nonneg(),
        demand.all_nonneg(),
    ensures
        0 <= bottleneck_spec(items, sb, demand) <= SCALE,
    decreases items.len(),
{
    if items.len() != 0 {
        lemma_bottleneck_band(items.skip(1), sb, demand);
    }
}

/// One input's satisfaction ratio, exact per `sat_spec`.
fn sat_one(sb: &GoodMap, demand: &GoodMap, g: Good) -> (r: i64)
    requires
        sb.all_nonneg(),
        demand.all_nonneg(),
    ensures
        r == sat_spec(*sb, *demand, g),
        0 <= r <= SCALE,
{
    let d = demand.get(g);
    if d <= 0 {
        SCALE
    } else {
        fx_min(fx_div(sb.get(g), d), SCALE)
    }
}

/// Run production in place, exact per `produce_spec`. Requires a valid
/// catalog: every order group names at least one input, so the
/// bottleneck is the minimum of a non-empty set.
pub fn produce(econ: &mut Economy, catalog: &Catalog, demand: &GoodMap)
    requires
        old(econ).wf(),
        catalog.wf(),
        catalog.orders_valid(),
        demand.all_nonneg(),
    ensures
        *final(econ) == produce_spec(
            *old(econ),
            old(econ).stocks,
            *demand,
            catalog.industries,
            catalog.orders@,
        ),
        final(econ).wf(),
        final(econ).pop == old(econ).pop,
        final(econ).labors == old(econ).labors,
        final(econ).values == old(econ).values,
        final(econ).surplus == old(econ).surplus,
{
    let ghost e0 = *econ;
    let sb = econ.stocks;
    proof {
        assert(catalog.orders@.skip(0) =~= catalog.orders@);
    }
    let n = catalog.orders.len();
    let mut i: usize = 0;
    while i < n
        invariant
            n == catalog.orders@.len(),
            0 <= i <= n,
            catalog.wf(),
            catalog.orders_valid(),
            demand.all_nonneg(),
            econ.wf(),
            econ.pop == e0.pop,
            econ.labors == e0.labors,
            econ.values == e0.values,
            econ.surplus == e0.surplus,
            econ.marginal_surplus == e0.marginal_surplus,
            econ.prices == e0.prices,
            sb == e0.stocks,
            sb.all_nonneg(),
            produce_spec(*econ, sb, *demand, catalog.industries, catalog.orders@.skip(i as int))
                == produce_spec(e0, sb, *demand, catalog.industries, catalog.orders@),
        decreases n - i,
    {
        let ghost e_entry = *econ;
        let grp = &catalog.orders[i];
        proof {
            assert(catalog.orders@.skip(i as int)[0] == catalog.orders@[i as int]);
            assert(catalog.orders@.skip(i as int).skip(1) =~= catalog.orders@.skip(i as int + 1));
        }
        let weight: i64 = match grp.labor {
            Some(l) => econ.labors.get(l),
            None => SCALE,
        };
        let scale = fx_mul(weight, econ.pop);
        proof {
            assert(scale == group_scale(econ.labors, econ.pop as int, grp.labor));
            assert(grp.inputs@.skip(0) =~= grp.inputs@);
            lemma_bottleneck_band(grp.inputs@, sb, *demand);
        }
        let m = grp.inputs.len();

        // Bottleneck: least satisfaction over the group's inputs.
        let mut lp: i64 = SCALE;
        let mut j: usize = 0;
        while j < m
            invariant
                m == grp.inputs@.len(),
                0 <= j <= m,
                sb.all_nonneg(),
                demand.all_nonneg(),
                0 <= lp <= SCALE,
                min_spec(lp as int, bottleneck_spec(grp.inputs@.skip(j as int), sb, *demand))
                    == bottleneck_spec(grp.inputs@, sb, *demand),
            decreases m - j,
        {
            proof {
                assert(grp.inputs@.skip(j as int)[0] == grp.inputs@[j as int]);
                assert(grp.inputs@.skip(j as int).skip(1) =~= grp.inputs@.skip(j as int + 1));
            }
            let s = sat_one(&sb, demand, grp.inputs[j].good);
            lp = fx_min(s, lp);
            j = j + 1;
        }
        proof {
            assert(grp.inputs@.skip(m as int) =~= Seq::<OrderItem>::empty());
            assert(lp == bottleneck_spec(grp.inputs@, sb, *demand));
        }

        // Consume inputs at the bottleneck ratio.
        let mut stocks = econ.stocks;
        let ghost st0 = stocks;
        let mut j2: usize = 0;
        while j2 < m
            invariant
                m == grp.inputs@.len(),
                0 <= j2 <= m,
                grp.wf(),
                0 <= scale <= CAP,
                0 <= lp <= SCALE,
                stocks.all_nonneg(),
                deplete_spec(stocks, grp.inputs@.skip(j2 as int), scale as int, lp as int)
                    == deplete_spec(st0, grp.inputs@, scale as int, lp as int),
            decreases m - j2,
        {
            proof {
                assert(grp.inputs@.skip(j2 as int)[0] == grp.inputs@[j2 as int]);
                assert(grp.inputs@.skip(j2 as int).skip(1) =~= grp.inputs@.skip(j2 as int + 1));
            }
            let it = grp.inputs[j2];
            let used = fx_mul(fx_mul(it.amount, scale), lp);
            let cur = stocks.get(it.good);
            let ghost sprev = stocks;
            stocks.set(it.good, fx_max0(fx_sub(cur, used)));
            proof {
                assert forall|x: Good| 0 <= #[trigger] stocks.spec_get(x) <= CAP by {
                    if x != it.good {
                        assert(stocks.spec_get(x) == sprev.spec_get(x));
                    }
                }
            }
            j2 = j2 + 1;
        }
        proof {
            assert(grp.inputs@.skip(m as int) =~= Seq::<OrderItem>::empty());
            assert(stocks == deplete_spec(st0, grp.inputs@, scale as int, lp as int));
        }

        // Industries produce: record yield and productivity, add output.
        match grp.labor {
            None => {
                econ.stocks = stocks;
            },
            Some(l) => {
                let ind = catalog.industries.get(l);
                let workers = fx_mul(econ.labors.get(l), econ.pop);
                let ypw = fx_mul(lp, ind.rate);
                let boost = fx_pow11(workers);
                let out_add = fx_mul(ypw, boost);
                proof {
                    assert(catalog.industries.spec_get(l).wf());
                }
                gm_accumulate(&mut stocks, ind.output, out_add);
                econ.stocks = stocks;
                let ghost yprev = econ.yields;
                let ghost pprev = econ.productivity;
                econ.yields.set(l, ypw);
                econ.productivity.set(l, lp);
                proof {
                    assert forall|x: Labor| 0 <= #[trigger] econ.yields.spec_get(x) <= CAP by {
                        if x != l {
                            assert(econ.yields.spec_get(x) == yprev.spec_get(x));
                        }
                    }
                    assert forall|x: Labor| 0 <= #[trigger] econ.productivity.spec_get(x)
                        <= CAP by {
                        if x != l {
                            assert(econ.productivity.spec_get(x) == pprev.spec_get(x));
                        }
                    }
                }
            },
        }
        proof {
            assert(*econ == produce_group_spec(e_entry, sb, *demand, catalog.industries,
                catalog.orders@[i as int]));
        }
        i = i + 1;
    }
    proof {
        assert(catalog.orders@.skip(n as int) =~= Seq::<OrderGroup>::empty());
    }
}

} // verus!
