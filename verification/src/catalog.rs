//! The recipe catalog: input orders and base production rates.
//!
//! The catalog is an external, read-only input to the economic tick. An
//! order group lists the goods one industry consumes per unit of output
//! (or, for the group without an industry, the base upkeep of the
//! population itself). An industry with an empty order list is a
//! configuration error and is rejected before any state is touched.

use vstd::prelude::*;
use crate::fixed::CAP;
use crate::goods::{Good, Labor};

verus! {

/// One required input: a good and the quantity needed per unit of output.
#[derive(Clone, Copy, Debug, PartialEq, Eq, Structural)]
pub struct OrderItem {
    pub good: Good,
    pub amount: i64,
}

impl OrderItem {
    pub open spec fn wf(self) -> bool {
        0 <= self.amount <= CAP
    }
}

/// The input requirements of one industry (or of the bare population,
/// when `labor` is `None`).
#[derive(Clone, Debug)]
pub struct OrderGroup {
    pub labor: Option<Labor>,
    pub inputs: Vec<OrderItem>,
}

impl OrderGroup {
    pub open spec fn wf(self) -> bool {
        forall|i: int| 0 <= i < self.inputs@.len() ==> (#[trigger] self.inputs@[i]).wf()
    }
}

/// One industry's output good and base production rate.
#[derive(Clone, Copy, Debug, PartialEq, Eq, Structural)]
pub struct Industry {
    pub output: Good,
    pub rate: i64,
}

impl Industry {
    pub open spec fn wf(self) -> bool {
        0 <= self.rate <= CAP
    }
}

/// The output good and base rate of every industry.
#[derive(Clone, Copy, Debug, PartialEq, Eq, Structural)]
pub struct IndustryMap {
    pub farmer: Industry,
    pub lumberjack: Industry,
    pub miner: Industry,
}

impl IndustryMap {
    pub open spec fn spec_get(self, l: Labor) -> Industry {
        match l {
            Labor::Farmer => self.farmer,
            Labor::Lumberjack => self.lumberjack,
            Labor::Miner => self.miner,
        }
    }

    pub open spec fn wf(self) -> bool {
        forall|l: Labor| (#[trigger] self.spec_get(l)).wf()
    }

    pub fn get(&self, l: Labor) -> (r: Industry)
        ensures
            r == self.spec_get(l),
    {
        match l {
            Labor::Farmer => self.farmer,
            Labor::Lumberjack => self.lumberjack,
            Labor::Miner => self.miner,
        }
    }
}

/// The whole catalog handed to a tick: grouped orders and productivity.
#[derive(Clone, Debug)]
pub struct Catalog {
    pub orders: Vec<OrderGroup>,
    pub industries: IndustryMap,
}

impl Catalog {
    pub open spec fn wf(self) -> bool {
        &&& forall|i: int| 0 <= i < self.orders@.len() ==> (#[trigger] self.orders@[i]).wf()
        &&& self.industries.wf()
    }

    /// No order group is empty: the configuration the tick accepts.
    pub open spec fn orders_valid(self) -> bool {
        forall|i: int| 0 <= i < self.orders@.len() ==> (#[trigger] self.orders@[i]).inputs@.len()
            > 0
    }
}

/// The error taxonomy of the core: only configuration errors exist, and
/// they are fatal for the tick that sees them.
#[derive(Clone, Copy, Debug, PartialEq, Eq, Structural)]
pub enum EconError {
    /// An order group with no required inputs, naming the offending
    /// industry (`None` for the bare-population group).
    EmptyOrders { labor: Option<Labor> },
}

/// Checks the catalog before any simulation state is touched: rejects the
/// first order group with an empty input list, naming its industry.
pub fn validate_orders(catalog: &Catalog) -> (r: Result<(), EconError>)
    ensures
        r is Ok <==> catalog.orders_valid(),
        r matches Err(e) ==> exists|i: int|
            0 <= i < catalog.orders@.len() && (#[trigger] catalog.orders@[i]).inputs@.len() == 0
                && e == (EconError::EmptyOrders { labor: catalog.orders@[i].labor }),
{
    let n = catalog.orders.len();
    let mut i: usize = 0;
    while i < n
        invariant
            n == catalog.orders@.len(),
            0 <= i <= n,
            forall|j: int| 0 <= j < i ==> (#[trigger] catalog.orders@[j]).inputs@.len() > 0,
        decreases n - i,
    {
        if catalog.orders[i].inputs.len() == 0 {
            return Err(EconError::EmptyOrders { labor: catalog.orders[i].labor });
        }
        i = i + 1;
    }
    Ok(())
}

} // verus!
