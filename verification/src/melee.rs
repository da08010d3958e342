//! The melee system's target rules.
//!
//! The geometric hit test (distances, angles, knockback direction) is
//! floating-point work of the physics layer; once it reports that a
//! target is in the attack's wedge, the rules here decide which damage
//! applies and what bookkeeping follows.

use vstd::prelude::*;

verus! {

/// Which damage an attack deals a given target: the enemy damage for a
/// target outside the attacker's group, the group damage inside it, and
/// none when the matching damage is not configured — such a target is
/// skipped entirely.
pub open spec fn select_damage_spec(same_group: bool, enemy: Option<i64>, group: Option<i64>)
    -> Option<i64> {
    if !same_group && enemy is Some {
        enemy
    } else if same_group && group is Some {
        group
    } else {
        None
    }
}

/// Pick the applicable damage, exact per `select_damage_spec`.
pub fn select_damage(same_group: bool, enemy: Option<i64>, group: Option<i64>) -> (r: Option<
    i64,
>)
    ensures
        r == select_damage_spec(same_group, enemy, group),
{
    if !same_group && enemy.is_some() {
        enemy
    } else if same_group && group.is_some() {
        group
    } else {
        None
    }
}

/// Each attack is processed at most once: an already-applied attack is
/// skipped, and a fresh one is claimed by marking it applied before any
/// target is examined.
pub fn claim_attack(applied: bool) -> (r: (bool, bool))
    ensures
        r.0 == !applied,
        r.1,
{
    (!applied, true)
}

/// A hit that changed health counts toward the attack's hit tally;
/// knockback fires only for such a hit, and only when the attack
/// carries any.
pub fn hit_bookkeeping(hit_count: u32, change_amount: i64, knockback: i64) -> (r: (u32, bool))
    requires
        hit_count < u32::MAX,
    ensures
        r.0 == (if change_amount != 0 {
            hit_count + 1
        } else {
            hit_count as int
        }),
        r.1 == (knockback != 0 && change_amount != 0),
{
    if change_amount != 0 {
        (hit_count + 1, knockback != 0)
    } else {
        (hit_count, false)
    }
}

} // verus!
