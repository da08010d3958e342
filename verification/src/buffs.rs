//! Per-buff bookkeeping: time-to-live and accumulated over-time effects.
//!
//! The entity store, the event bus and the stat recomputation around
//! these decisions belong to the game loop; what is decided here, per
//! buff and per step, is whether the buff survives the elapsed time and
//! whether an accumulated health change is due to be emitted.

use vstd::prelude::*;
use crate::fixed::{
    abs_spec, add_spec, in_range, max_spec, mul_spec, unscale_spec, fx_add, fx_mul, fx_unscale,
    CAP, SCALE,
};

verus! {

/// A ticked time-to-live: the remaining time if the buff survives, and
/// whether it expired this step.
#[derive(Clone, Copy, Debug, PartialEq, Eq, Structural)]
pub struct TickedTime {
    pub remaining_ms: Option<u64>,
    pub expired: bool,
}

/// What becomes of a buff's time-to-live after `dt` elapses: an
/// untimed buff never expires; a timed one loses `dt`, and expires the
/// moment the subtraction would go below zero, its clock pinned at zero.
pub open spec fn tick_time_spec(remaining_ms: Option<u64>, dt_ms: int) -> TickedTime {
    match remaining_ms {
        None => TickedTime { remaining_ms: None, expired: false },
        Some(t) => if t >= dt_ms {
            TickedTime { remaining_ms: Some((t - dt_ms) as u64), expired: false }
        } else {
            TickedTime { remaining_ms: Some(0u64), expired: true }
        },
    }
}

/// Tick one buff's time-to-live, exact per `tick_time_spec`.
pub fn tick_buff_time(remaining_ms: Option<u64>, dt_ms: u64) -> (r: TickedTime)
    ensures
        r == tick_time_spec(remaining_ms, dt_ms as int),
{
    match remaining_ms {
        None => TickedTime { remaining_ms: None, expired: false },
        Some(t) => match t.checked_sub(dt_ms) {
            Some(n) => TickedTime { remaining_ms: Some(n), expired: false },
            None => TickedTime { remaining_ms: Some(0), expired: true },
        },
    }
}

/// A stepped health-change-over-time accumulator: the new accumulated
/// amount, and the change to emit now, if any.
#[derive(Clone, Copy, Debug, PartialEq, Eq, Structural)]
pub struct SteppedAccumulator {
    pub accumulated: i64,
    pub emit: Option<i64>,
}

/// One accumulation step: the rate times the elapsed seconds is added,
/// and the total is emitted (and reset) once its magnitude passes the
/// rate's magnitude floored at ten — about once a second, with a
/// minimum emitted amount — or immediately when the buff just expired.
pub open spec fn step_accumulator_spec(rate: int, accumulated: int, dt: int, just_expired: bool)
    -> SteppedAccumulator {
    let acc = add_spec(accumulated, mul_spec(rate, dt));
    if abs_spec(acc) > max_spec(abs_spec(rate), 10 * SCALE) || just_expired {
        SteppedAccumulator { accumulated: 0, emit: Some(acc as i64) }
    } else {
        SteppedAccumulator { accumulated: acc as i64, emit: None }
    }
}

/// The identifiers whose second component is set, kept in order: the
/// removal set assembled from per-buff expiry verdicts.
pub open spec fn marked_ids_spec(entries: Seq<(u64, bool)>) -> Seq<u64>
    decreases entries.len(),
{
    if entries.len() == 0 {
        Seq::empty()
    } else if entries[0].1 {
        seq![entries[0].0] + marked_ids_spec(entries.skip(1))
    } else {
        marked_ids_spec(entries.skip(1))
    }
}

/// Assemble the removal set: the identifiers of the buffs whose expiry
/// verdict is set, in their original order, exact per `marked_ids_spec`.
pub fn expired_buff_ids(entries: &Vec<(u64, bool)>) -> (r: Vec<u64>)
    ensures
        r@ == marked_ids_spec(entries@),
{
    let mut r: Vec<u64> = Vec::new();
    let n = entries.len();
    let mut i: usize = 0;
    proof {
        assert(entries@.skip(0) =~= entries@);
    }
    while i < n
        invariant
            n == entries@.len(),
            0 <= i <= n,
            r@ + marked_ids_spec(entries@.skip(i as int)) == marked_ids_spec(entries@),
        decreases n - i,
    {
        proof {
            assert(entries@.skip(i as int)[0] == entries@[i as int]);
            assert(entries@.skip(i as int).skip(1) =~= entries@.skip(i as int + 1));
        }
        let e = entries[i];
        if e.1 {
            let ghost r0 = r@;
            r.push(e.0);
            proof {
                assert(r@ + marked_ids_spec(entries@.skip(i as int + 1)) =~= r0 + (seq![e.0]
                    + marked_ids_spec(entries@.skip(i as int + 1))));
            }
        }
        i = i + 1;
    }
    proof {
        assert(entries@.skip(n as int) =~= Seq::<(u64, bool)>::empty());
        assert(r@ + marked_ids_spec(entries@.skip(n as int)) =~= r@);
    }
    r
}

/// The death-removal policy: when its bearer dies, a buff is removed
/// exactly when it does not persist on death.
pub fn removed_on_death(is_dead: bool, persists_on_death: bool) -> (r: bool)
    ensures
        r == (is_dead && !persists_on_death),
{
    is_dead && !persists_on_death
}

/// How a buff modifies a maximum: scaling it, or shifting it.
#[derive(Clone, Copy, Debug, PartialEq, Eq, Structural)]
pub enum ModifierKind {
    Multiplicative,
    Additive,
}

/// A modified maximum health: the base maximum scaled by or shifted by
/// the fixed-point modifier value. In either case the modified total is
/// truncated toward zero once, as a whole number of health points, and
/// the result is floored at zero.
pub open spec fn modified_max_health_spec(maximum: int, value: int, kind: ModifierKind) -> int {
    let m = match kind {
        ModifierKind::Multiplicative => unscale_spec(mul_spec(maximum * SCALE, value)),
        ModifierKind::Additive => unscale_spec(maximum * SCALE + value),
    };
    if m < 0 {
        0
    } else if m > u32::MAX {
        u32::MAX as int
    } else {
        m
    }
}

/// Apply one max-health modifier, exact per `modified_max_health_spec`.
pub fn modified_max_health(maximum: u32, value: i64, kind: ModifierKind) -> (r: u32)
    requires
        in_range(value as int),
        maximum <= 1_000_000_000,
    ensures
        r == modified_max_health_spec(maximum as int, value as int, kind),
{
    let base: i64 = (maximum as i64) * SCALE;
    proof {
        assert(in_range((maximum as i64 * SCALE) as int)) by (nonlinear_arith)
            requires
                0 <= maximum <= 1_000_000_000,
                SCALE == 1_000_000,
                CAP == 1_000_000_000_000_000,
        ;
    }
    let m: i64 = match kind {
        ModifierKind::Multiplicative => fx_unscale(fx_mul(base, value)),
        ModifierKind::Additive => fx_unscale(base + value),
    };
    if m < 0 {
        0
    } else if m > u32::MAX as i64 {
        u32::MAX
    } else {
        m as u32
    }
}

/// Step one health-change accumulator, exact per `step_accumulator_spec`.
pub fn step_accumulator(rate: i64, accumulated: i64, dt: i64, just_expired: bool) -> (r:
    SteppedAccumulator)
    requires
        in_range(rate as int),
        in_range(accumulated as int),
        in_range(dt as int),
    ensures
        r == step_accumulator_spec(rate as int, accumulated as int, dt as int, just_expired),
        in_range(r.accumulated as int),
{
    let acc = fx_add(accumulated, fx_mul(rate, dt));
    let acc_mag: i64 = if acc < 0 {
        -acc
    } else {
        acc
    };
    let rate_mag: i64 = if rate < 0 {
        -rate
    } else {
        rate
    };
    let threshold: i64 = if rate_mag > 10 * SCALE {
        rate_mag
    } else {
        10 * SCALE
    };
    if acc_mag > threshold || just_expired {
        SteppedAccumulator { accumulated: 0, emit: Some(acc) }
    } else {
        SteppedAccumulator { accumulated: acc, emit: None }
    }
}

} // verus!
