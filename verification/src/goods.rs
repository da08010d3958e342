//! Commodity and industry kinds, and dense per-kind stores.
//!
//! Both enumerations are fixed and closed; the per-kind maps are plain
//! structs with one field per kind, so access is O(1) and every read and
//! write has an exact spec-level meaning.

use vstd::prelude::*;
use crate::fixed::{in_range, CAP, SCALE};

verus! {

/// A tradeable commodity kind.
#[derive(Clone, Copy, Debug, PartialEq, Eq, Structural)]
pub enum Good {
    Food,
    Wood,
    Ore,
}

/// An industry/occupation kind; each produces exactly one `Good`.
#[derive(Clone, Copy, Debug, PartialEq, Eq, Structural)]
pub enum Labor {
    Farmer,
    Lumberjack,
    Miner,
}

impl Good {
    /// Static per-kind geometric decay applied to stocks once per tick,
    /// in micro-units of the rate: food spoils, durable goods keep.
    pub open spec fn spec_decay_rate(self) -> int {
        match self {
            Good::Food => 50_000,
            Good::Wood => 0,
            Good::Ore => 0,
        }
    }

    /// Exact executable counterpart of `spec_decay_rate`.
    pub fn decay_rate(&self) -> (r: i64)
        ensures
            r == self.spec_decay_rate(),
            0 <= r < SCALE,
    {
        match self {
            Good::Food => 50_000,
            Good::Wood => 0,
            Good::Ore => 0,
        }
    }

    /// Every commodity kind, for drivers that report per-good state.
    pub fn list() -> (r: Vec<Good>)
        ensures
            r@ =~= seq![Good::Food, Good::Wood, Good::Ore],
    {
        let mut v: Vec<Good> = Vec::new();
        v.push(Good::Food);
        v.push(Good::Wood);
        v.push(Good::Ore);
        v
    }
}

impl Labor {
    /// Every industry kind, for drivers that report per-industry state.
    pub fn list() -> (r: Vec<Labor>)
        ensures
            r@ =~= seq![Labor::Farmer, Labor::Lumberjack, Labor::Miner],
    {
        let mut v: Vec<Labor> = Vec::new();
        v.push(Labor::Farmer);
        v.push(Labor::Lumberjack);
        v.push(Labor::Miner);
        v
    }
}

/// A fixed-point quantity per commodity kind.
#[derive(Clone, Copy, Debug, PartialEq, Eq, Structural)]
pub struct GoodMap {
    pub food: i64,
    pub wood: i64,
    pub ore: i64,
}

impl GoodMap {
    pub open spec fn spec_get(self, g: Good) -> int {
        match g {
            Good::Food => self.food as int,
            Good::Wood => self.wood as int,
            Good::Ore => self.ore as int,
        }
    }

    pub open spec fn spec_set(self, g: Good, v: int) -> GoodMap {
        match g {
            Good::Food => GoodMap { food: v as i64, ..self },
            Good::Wood => GoodMap { wood: v as i64, ..self },
            Good::Ore => GoodMap { ore: v as i64, ..self },
        }
    }

    /// Every entry has magnitude at most `CAP`.
    pub open spec fn all_in_range(self) -> bool {
        forall|g: Good| in_range(#[trigger] self.spec_get(g))
    }

    /// Every entry is non-negative (and at most `CAP`).
    pub open spec fn all_nonneg(self) -> bool {
        forall|g: Good| 0 <= #[trigger] self.spec_get(g) <= CAP
    }

    /// The all-zero map.
    pub fn zero() -> (r: GoodMap)
        ensures
            forall|g: Good| #[trigger] r.spec_get(g) == 0,
            r == (GoodMap { food: 0, wood: 0, ore: 0 }),
    {
        GoodMap { food: 0, wood: 0, ore: 0 }
    }

    pub fn get(&self, g: Good) -> (r: i64)
        ensures
            r == self.spec_get(g),
    {
        match g {
            Good::Food => self.food,
            Good::Wood => self.wood,
            Good::Ore => self.ore,
        }
    }

    pub fn set(&mut self, g: Good, v: i64)
        ensures
            *final(self) == old(self).spec_set(g, v as int),
    {
        match g {
            Good::Food => self.food = v,
            Good::Wood => self.wood = v,
            Good::Ore => self.ore = v,
        }
    }
}

/// An optional fixed-point value per commodity kind; `None` is the
/// first-class "currently unpriced" state of the scarcity signal.
#[derive(Clone, Copy, Debug, PartialEq, Eq, Structural)]
pub struct GoodOptMap {
    pub food: Option<i64>,
    pub wood: Option<i64>,
    pub ore: Option<i64>,
}

impl GoodOptMap {
    pub open spec fn spec_get(self, g: Good) -> Option<i64> {
        match g {
            Good::Food => self.food,
            Good::Wood => self.wood,
            Good::Ore => self.ore,
        }
    }

    /// The all-`None` map: no price signal anywhere yet.
    pub fn none() -> (r: GoodOptMap)
        ensures
            forall|g: Good| #[trigger] r.spec_get(g) == Option::<i64>::None,
            r == (GoodOptMap { food: None, wood: None, ore: None }),
    {
        GoodOptMap { food: None, wood: None, ore: None }
    }

    pub fn get(&self, g: Good) -> (r: Option<i64>)
        ensures
            r == self.spec_get(g),
    {
        match g {
            Good::Food => self.food,
            Good::Wood => self.wood,
            Good::Ore => self.ore,
        }
    }
}

/// A fixed-point quantity per industry kind.
#[derive(Clone, Copy, Debug, PartialEq, Eq, Structural)]
pub struct LaborMap {
    pub farmer: i64,
    pub lumberjack: i64,
    pub miner: i64,
}

impl LaborMap {
    pub open spec fn spec_get(self, l: Labor) -> int {
        match l {
            Labor::Farmer => self.farmer as int,
            Labor::Lumberjack => self.lumberjack as int,
            Labor::Miner => self.miner as int,
        }
    }

    pub open spec fn spec_set(self, l: Labor, v: int) -> LaborMap {
        match l {
            Labor::Farmer => LaborMap { farmer: v as i64, ..self },
            Labor::Lumberjack => LaborMap { lumberjack: v as i64, ..self },
            Labor::Miner => LaborMap { miner: v as i64, ..self },
        }
    }

    /// Every entry is non-negative and at most `CAP`.
    pub open spec fn all_nonneg(self) -> bool {
        forall|l: Labor| 0 <= #[trigger] self.spec_get(l) <= CAP
    }

    /// Every entry is a fraction: in `[0, SCALE]`.
    pub open spec fn all_fraction(self) -> bool {
        forall|l: Labor| 0 <= #[trigger] self.spec_get(l) <= SCALE
    }

    /// The all-zero map.
    pub fn zero() -> (r: LaborMap)
        ensures
            forall|l: Labor| #[trigger] r.spec_get(l) == 0,
            r == (LaborMap { farmer: 0, lumberjack: 0, miner: 0 }),
    {
        LaborMap { farmer: 0, lumberjack: 0, miner: 0 }
    }

    pub fn get(&self, l: Labor) -> (r: i64)
        ensures
            r == self.spec_get(l),
    {
        match l {
            Labor::Farmer => self.farmer,
            Labor::Lumberjack => self.lumberjack,
            Labor::Miner => self.miner,
        }
    }

    pub fn set(&mut self, l: Labor, v: i64)
        ensures
            *final(self) == old(self).spec_set(l, v as int),
    {
        match l {
            Labor::Farmer => self.farmer = v,
            Labor::Lumberjack => self.lumberjack = v,
            Labor::Miner => self.miner = v,
        }
    }
}

} // verus!
