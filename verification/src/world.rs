//! The tick driver: advance every site, then global simulated time.
//!
//! Sites are mutually independent within one tick, so they are processed
//! in order with no interaction; time advances once, afterwards.

use vstd::prelude::*;
use vstd::pervasive::VecAdditionalExecFns;
use crate::fixed::{add_spec, fx_add, CAP};
use crate::catalog::{validate_orders, Catalog, EconError};
use crate::goods::GoodMap;
use crate::economy::Economy;
use crate::tick::{tick_site_economy, tick_site_spec};

verus! {

/// A settlement; its identity and placement belong to the world
/// generator, only its economy belongs to this core.
#[derive(Clone, Copy, Debug)]
pub struct Site {
    pub economy: Economy,
}

/// The world's mutable simulation state: every site, and elapsed time
/// in fixed-point days.
#[derive(Clone, Debug)]
pub struct Index {
    pub sites: Vec<Site>,
    pub time: i64,
}

impl Index {
    pub open spec fn wf(self) -> bool {
        &&& 0 <= self.time <= CAP
        &&& forall|i: int| 0 <= i < self.sites@.len() ==> (#[trigger] self.sites@[i]).economy.wf()
    }

    /// An empty world at time zero.
    pub fn new() -> (r: Index)
        ensures
            r.wf(),
            r.sites@.len() == 0,
            r.time == 0,
    {
        Index { sites: Vec::new(), time: 0 }
    }

    /// Settle one more site.
    pub fn push_site(&mut self, economy: Economy)
        requires
            old(self).wf(),
            economy.wf(),
        ensures
            final(self).wf(),
            final(self).sites@ == old(self).sites@.push(Site { economy }),
            final(self).time == old(self).time,
    {
        self.sites.push(Site { economy });
    }
}

/// Advance every site by `dt` days, then global time, in any site order
/// (sites are independent within a tick). A catalog with an empty order
/// group is rejected before any site is touched.
pub fn tick(index: &mut Index, catalog: &Catalog, restock: &GoodMap, dt: i64) -> (r: Result<
    (),
    EconError,
>)
    requires
        old(index).wf(),
        catalog.wf(),
        restock.all_nonneg(),
        0 <= dt <= CAP,
    ensures
        final(index).wf(),
        r is Ok <==> catalog.orders_valid(),
        final(index).sites@.len() == old(index).sites@.len(),
        r is Ok ==> forall|i: int|
            0 <= i < old(index).sites@.len() ==> (#[trigger] final(index).sites@[i]).economy
                == tick_site_spec(old(index).sites@[i].economy, *catalog, *restock, dt as int),
        r is Ok ==> final(index).time == add_spec(old(index).time as int, dt as int),
        r is Err ==> *final(index) == *old(index),
{
    if let Err(e) = validate_orders(catalog) {
        return Err(e);
    }
    let n = index.sites.len();
    let mut i: usize = 0;
    while i < n
        invariant
            n == index.sites@.len(),
            n == old(index).sites@.len(),
            old(index).wf(),
            0 <= i <= n,
            catalog.wf(),
            catalog.orders_valid(),
            restock.all_nonneg(),
            0 <= dt <= CAP,
            index.time == old(index).time,
            0 <= index.time <= CAP,
            forall|j: int| 0 <= j < i ==> (#[trigger] index.sites@[j]).economy == tick_site_spec(
                old(index).sites@[j].economy,
                *catalog,
                *restock,
                dt as int,
            ),
            forall|j: int| 0 <= j < i ==> (#[trigger] index.sites@[j]).economy.wf(),
            forall|j: int| i <= j < n ==> #[trigger] index.sites@[j] == old(index).sites@[j],
        decreases n - i,
    {
        proof {
            assert(index.sites@[i as int] == old(index).sites@[i as int]);
            assert(old(index).sites@[i as int].economy.wf());
        }
        let mut economy = index.sites[i].economy;
        let res = tick_site_economy(&mut economy, catalog, restock, dt);
        proof {
            assert(res is Ok);
        }
        index.sites.set(i, Site { economy });
        i = i + 1;
    }
    index.time = fx_add(index.time, dt);
    proof {
        assert(add_spec(old(index).time as int, dt as int) <= CAP);
    }
    Ok(())
}

} // verus!
