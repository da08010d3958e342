//! The spin-melee stage machine and the combat bookkeeping rules.

use econsim::anim::Vec3Fx;
use econsim::buffs::{modified_max_health, step_accumulator, tick_buff_time, ModifierKind};
use econsim::fixed::SCALE;
use econsim::melee::{hit_bookkeeping, select_damage};
use econsim::spin_melee::{
    AttackSpawn, BehaviorInput, CharacterUpdate, Data, StageSection, StaticData, HALF_TURN,
};
use econsim::buffs::{expired_buff_ids, removed_on_death};
use econsim::hud::slots_needed;
use econsim::melee::claim_attack;

fn base_static() -> StaticData {
    StaticData {
        buildup_duration_ms: 500,
        swing_duration_ms: 1000,
        recover_duration_ms: 300,
        base_damage: 40,
        knockback: 10 * SCALE,
        range: 3 * SCALE + SCALE / 2,
        energy_cost: 100,
        is_infinite: false,
        is_helicopter: false,
        is_interruptible: false,
        forward_speed: SCALE,
        num_spins: 3,
    }
}

fn base_data() -> Data {
    Data {
        static_data: base_static(),
        timer_ms: 0,
        spins_remaining: 3,
        stage_section: StageSection::Buildup,
        exhausted: false,
    }
}

fn quiet_input(dt_ms: u64) -> BehaviorInput {
    BehaviorInput {
        dt_ms,
        move_dir_x: 0,
        move_dir_y: 0,
        ability3_pressed: false,
        secondary_pressed: false,
        energy_current: 1000,
        interrupt_takes_over: false,
    }
}

#[test]
fn buildup_ticks_then_enters_swing() {
    let d = base_data();
    let r = d.behavior(&quiet_input(200));
    match r.character {
        CharacterUpdate::SpinMelee(next) => {
            assert_eq!(next.timer_ms, 200);
            assert_eq!(next.stage_section, StageSection::Buildup);
        }
        _ => panic!("expected to stay in spin melee"),
    }
    let mut done = base_data();
    done.timer_ms = 500;
    let r2 = done.behavior(&quiet_input(200));
    match r2.character {
        CharacterUpdate::SpinMelee(next) => {
            assert_eq!(next.timer_ms, 0);
            assert_eq!(next.stage_section, StageSection::Swing);
        }
        _ => panic!("expected to stay in spin melee"),
    }
}

#[test]
fn unexhausted_swing_spawns_the_attack() {
    let mut d = base_data();
    d.stage_section = StageSection::Swing;
    let r = d.behavior(&quiet_input(16));
    assert_eq!(
        r.spawn_attack,
        Some(AttackSpawn {
            base_damage: 40,
            base_heal: 0,
            range: 3 * SCALE + SCALE / 2,
            max_angle: HALF_TURN,
            applied: false,
            hit_count: 0,
            knockback: 10 * SCALE,
        })
    );
    assert_eq!(r.energy_spent, 0);
    match r.character {
        CharacterUpdate::SpinMelee(next) => assert!(next.exhausted),
        _ => panic!("expected to stay in spin melee"),
    }
}

#[test]
fn swing_in_progress_moves_forward_and_ticks() {
    let mut d = base_data();
    d.stage_section = StageSection::Swing;
    d.exhausted = true;
    d.timer_ms = 100;
    let r = d.behavior(&quiet_input(50));
    assert!(r.forward_move);
    match r.character {
        CharacterUpdate::SpinMelee(next) => assert_eq!(next.timer_ms, 150),
        _ => panic!("expected to stay in spin melee"),
    }
}

#[test]
fn finished_swing_spends_energy_and_spins_again() {
    let mut d = base_data();
    d.stage_section = StageSection::Swing;
    d.exhausted = true;
    d.timer_ms = 1000;
    let r = d.behavior(&quiet_input(16));
    assert_eq!(r.energy_spent, 100);
    match r.character {
        CharacterUpdate::SpinMelee(next) => {
            assert_eq!(next.spins_remaining, 2);
            assert!(!next.exhausted);
            assert_eq!(next.timer_ms, 0);
        }
        _ => panic!("expected to stay in spin melee"),
    }
}

#[test]
fn swing_without_energy_recovers() {
    let mut d = base_data();
    d.stage_section = StageSection::Swing;
    d.exhausted = true;
    d.timer_ms = 1000;
    let mut input = quiet_input(16);
    input.energy_current = 99;
    let r = d.behavior(&input);
    assert_eq!(r.energy_spent, 0);
    match r.character {
        CharacterUpdate::SpinMelee(next) => {
            assert_eq!(next.stage_section, StageSection::Recover)
        }
        _ => panic!("expected to stay in spin melee"),
    }
}

#[test]
fn recover_ends_in_wielding_and_clears_the_attack() {
    let mut d = base_data();
    d.stage_section = StageSection::Recover;
    d.timer_ms = 300;
    let r = d.behavior(&quiet_input(16));
    assert_eq!(r.character, CharacterUpdate::Wielding);
    assert!(r.remove_attack);
}

#[test]
fn foreign_stage_falls_back_to_wielding() {
    let mut d = base_data();
    d.stage_section = StageSection::Charge;
    let r = d.behavior(&quiet_input(16));
    assert_eq!(r.character, CharacterUpdate::Wielding);
    assert!(r.remove_attack);
}

#[test]
fn interruptible_state_yields_to_the_interrupt() {
    let mut d = base_data();
    d.static_data.is_interruptible = true;
    let mut input = quiet_input(16);
    input.interrupt_takes_over = true;
    let r = d.behavior(&input);
    assert_eq!(r.character, CharacterUpdate::Interrupted);
    // Holding the third ability suppresses the interrupt.
    input.ability3_pressed = true;
    let r2 = d.behavior(&input);
    assert!(matches!(r2.character, CharacterUpdate::SpinMelee(_)));
}

#[test]
fn helicopter_spin_overrides_velocity() {
    let mut d = base_data();
    d.static_data.is_helicopter = true;
    d.stage_section = StageSection::Swing;
    d.exhausted = true;
    d.timer_ms = 100;
    let mut input = quiet_input(50);
    input.move_dir_x = SCALE / 2;
    input.move_dir_y = -SCALE;
    let r = d.behavior(&input);
    assert_eq!(r.vel, Some(Vec3Fx { x: 5 * SCALE / 2, y: -5 * SCALE, z: 0 }));
    // Helicopter spins never take the forced forward movement.
    assert!(!r.forward_move);
}

#[test]
fn infinite_spin_keeps_spinning_while_held() {
    let mut d = base_data();
    d.static_data.is_infinite = true;
    d.stage_section = StageSection::Swing;
    d.exhausted = true;
    d.timer_ms = 1000;
    d.spins_remaining = 0;
    let mut input = quiet_input(16);
    input.secondary_pressed = true;
    let r = d.behavior(&input);
    assert_eq!(r.energy_spent, 100);
    match r.character {
        CharacterUpdate::SpinMelee(next) => assert_eq!(next.spins_remaining, 0),
        _ => panic!("expected to stay in spin melee"),
    }
    // Released: the spin winds down instead.
    input.secondary_pressed = false;
    let r2 = d.behavior(&input);
    match r2.character {
        CharacterUpdate::SpinMelee(next) => {
            assert_eq!(next.stage_section, StageSection::Recover)
        }
        _ => panic!("expected to stay in spin melee"),
    }
}

#[test]
fn buff_clocks_run_down_and_expire() {
    let t = tick_buff_time(Some(500), 200);
    assert_eq!(t.remaining_ms, Some(300));
    assert!(!t.expired);
    let t2 = tick_buff_time(Some(100), 200);
    assert_eq!(t2.remaining_ms, Some(0));
    assert!(t2.expired);
    let t3 = tick_buff_time(None, 200);
    assert_eq!(t3.remaining_ms, None);
    assert!(!t3.expired);
}

#[test]
fn health_accumulator_emits_about_once_a_second() {
    // Rate 2.0/s, accumulated 9.0, one second: total 11.0 passes the
    // floor of 10.0 and is emitted whole.
    let s = step_accumulator(2 * SCALE, 9 * SCALE, SCALE, false);
    assert_eq!(s.emit, Some(11 * SCALE));
    assert_eq!(s.accumulated, 0);
    // Below the floor nothing is emitted yet.
    let s2 = step_accumulator(SCALE, 0, SCALE, false);
    assert_eq!(s2.emit, None);
    assert_eq!(s2.accumulated, SCALE);
    // An expiring buff flushes whatever has accumulated.
    let s3 = step_accumulator(SCALE, SCALE, SCALE, true);
    assert_eq!(s3.emit, Some(2 * SCALE));
    assert_eq!(s3.accumulated, 0);
}

#[test]
fn max_health_modifiers_scale_or_shift() {
    assert_eq!(
        modified_max_health(100, 3 * SCALE / 2, ModifierKind::Multiplicative),
        150
    );
    assert_eq!(modified_max_health(100, SCALE / 2, ModifierKind::Multiplicative), 50);
    assert_eq!(modified_max_health(100, 25 * SCALE, ModifierKind::Additive), 125);
    // The shifted total is truncated once: 100 - 0.5 = 99.5 -> 99.
    assert_eq!(modified_max_health(100, -SCALE / 2, ModifierKind::Additive), 99);
    // So is the scaled total: 100 * 1.505 = 150.5 -> 150.
    assert_eq!(
        modified_max_health(100, 1_505_000, ModifierKind::Multiplicative),
        150
    );
    // A ruinous modifier floors at zero instead of wrapping.
    assert_eq!(modified_max_health(100, -200 * SCALE, ModifierKind::Additive), 0);
}

#[test]
fn expired_buffs_are_collected_in_order() {
    let entries = vec![(7u64, true), (8u64, false), (9u64, true), (10u64, true)];
    assert_eq!(expired_buff_ids(&entries), vec![7, 9, 10]);
    let none: Vec<(u64, bool)> = vec![];
    assert_eq!(expired_buff_ids(&none), Vec::<u64>::new());
    assert!(removed_on_death(true, false));
    assert!(!removed_on_death(true, true));
    assert!(!removed_on_death(false, false));
}

#[test]
fn attacks_are_claimed_once_and_slots_grow_on_demand() {
    assert_eq!(claim_attack(false), (true, true));
    assert_eq!(claim_attack(true), (false, true));
    assert_eq!(slots_needed(3, 5), Some(5));
    assert_eq!(slots_needed(5, 5), None);
    assert_eq!(slots_needed(7, 5), None);
}

#[test]
fn melee_damage_follows_group_membership() {
    assert_eq!(select_damage(false, Some(40), Some(5)), Some(40));
    assert_eq!(select_damage(true, Some(40), Some(5)), Some(5));
    assert_eq!(select_damage(true, Some(40), None), None);
    assert_eq!(select_damage(false, None, Some(5)), None);
}

#[test]
fn melee_hits_are_tallied_and_gate_knockback() {
    assert_eq!(hit_bookkeeping(2, 7, SCALE), (3, true));
    assert_eq!(hit_bookkeeping(2, 0, SCALE), (2, false));
    assert_eq!(hit_bookkeeping(2, 7, 0), (3, false));
}
