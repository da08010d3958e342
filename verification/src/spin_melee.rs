//! The spin-melee character state: a deterministic stage machine.
//!
//! One behavior step maps the current state and what the surrounding
//! systems report (elapsed time, inputs, energy, whether the interrupt
//! handler took over) to the next state and the actions the caller must
//! perform: spawn or remove the attack, spend energy, override velocity
//! for helicopter spins, or apply forward movement. The caller runs the
//! physics and the component store; every decision is made here.

use vstd::prelude::*;
use crate::fixed::{in_range, mul_spec, fx_mul, SCALE};
use crate::anim::Vec3Fx;

verus! {

/// Which part of the attack the character is in.
#[derive(Clone, Copy, Debug, PartialEq, Eq, Structural)]
pub enum StageSection {
    Buildup,
    Swing,
    Recover,
    Charge,
    Movement,
}

/// What does not change over the course of the state.
#[derive(Clone, Copy, Debug, PartialEq, Eq, Structural)]
pub struct StaticData {
    /// How long until the state attacks, in milliseconds.
    pub buildup_duration_ms: u64,
    /// How long the state swings, in milliseconds.
    pub swing_duration_ms: u64,
    /// How long until the state ends, in milliseconds.
    pub recover_duration_ms: u64,
    /// Base damage dealt per hit attempt.
    pub base_damage: u32,
    /// Knockback applied on hit, fixed-point.
    pub knockback: i64,
    /// Attack range, fixed-point.
    pub range: i64,
    /// Energy cost per attack.
    pub energy_cost: u32,
    /// Whether the spin repeats while the input is held.
    pub is_infinite: bool,
    /// Whether the spin keeps classic axe-spin physics.
    pub is_helicopter: bool,
    /// Whether other abilities may interrupt the state.
    pub is_interruptible: bool,
    /// Forced forward movement speed, fixed-point.
    pub forward_speed: i64,
    /// Number of spins before the state ends.
    pub num_spins: u32,
}

/// The live spin-melee state.
#[derive(Clone, Copy, Debug, PartialEq, Eq, Structural)]
pub struct Data {
    pub static_data: StaticData,
    /// Timer within the current stage, in milliseconds.
    pub timer_ms: u64,
    /// How many spins remain before the state ends.
    pub spins_remaining: u32,
    /// Which stage the character is in.
    pub stage_section: StageSection,
    /// Whether the hit attempt of the current spin was already made.
    pub exhausted: bool,
}

/// What the surrounding systems report for one behavior step.
#[derive(Clone, Copy, Debug, PartialEq, Eq, Structural)]
pub struct BehaviorInput {
    /// Elapsed time, in milliseconds.
    pub dt_ms: u64,
    /// Horizontal movement input, fixed-point components.
    pub move_dir_x: i64,
    pub move_dir_y: i64,
    /// Whether the third-ability input is held.
    pub ability3_pressed: bool,
    /// Whether the secondary-attack input is held.
    pub secondary_pressed: bool,
    /// Energy currently available.
    pub energy_current: u32,
    /// Whether the interrupt handler switched the character to another
    /// state; only consulted when the state is interruptible and the
    /// third ability is not held.
    pub interrupt_takes_over: bool,
}

/// The character state a behavior step hands back.
#[derive(Clone, Copy, Debug, PartialEq, Eq, Structural)]
pub enum CharacterUpdate {
    /// Stay in (or re-enter) spin melee with the given data.
    SpinMelee(Data),
    /// The attack finished: back to wielding.
    Wielding,
    /// The interrupt handler's replacement state stands.
    Interrupted,
}

/// Half a turn in micro-radians: the spin's full attack arc.
pub const HALF_TURN: i64 = 3_141_593;

/// The hit attempt the caller must insert into the attack store,
/// complete with its bookkeeping fields in their initial state.
#[derive(Clone, Copy, Debug, PartialEq, Eq, Structural)]
pub struct AttackSpawn {
    pub base_damage: u32,
    pub base_heal: u32,
    pub range: i64,
    /// The attack's arc, in micro-radians; a spin covers half a turn.
    pub max_angle: i64,
    /// Whether the hit was already processed: freshly spawned, it never
    /// was.
    pub applied: bool,
    /// How many targets were hit so far: freshly spawned, none.
    pub hit_count: u32,
    pub knockback: i64,
}

/// Everything one behavior step decides.
#[derive(Clone, Copy, Debug, PartialEq, Eq, Structural)]
pub struct BehaviorUpdate {
    pub character: CharacterUpdate,
    /// A velocity override for helicopter spins: the planar movement
    /// input scaled by five, zero vertically.
    pub vel: Option<Vec3Fx>,
    /// A hit attempt to insert, if any.
    pub spawn_attack: Option<AttackSpawn>,
    /// Whether the attack component must be removed.
    pub remove_attack: bool,
    /// Energy to consume (zero when none).
    pub energy_spent: u32,
    /// Whether the caller applies forced forward movement this step, at
    /// `FORWARD_MOVE_EFFICIENCY` and the state's `forward_speed`.
    pub forward_move: bool,
}

/// The fixed efficiency of the spin's forced forward movement (0.1).
pub const FORWARD_MOVE_EFFICIENCY: i64 = 100_000;

/// The timer after one step: saturating into a fresh stage on overflow,
/// as a checked addition falling back to the default.
pub open spec fn timer_add_spec(t: int, dt: int) -> int {
    if t + dt > u64::MAX {
        0
    } else {
        t + dt
    }
}

/// The stage machine itself, as one case analysis; `behavior` computes
/// exactly this.
pub open spec fn behavior_spec(d: Data, input: BehaviorInput) -> BehaviorUpdate {
    let sd = d.static_data;
    let vel = if sd.is_helicopter {
        Some(
            Vec3Fx {
                x: mul_spec(input.move_dir_x as int, 5 * SCALE) as i64,
                y: mul_spec(input.move_dir_y as int, 5 * SCALE) as i64,
                z: 0,
            },
        )
    } else {
        None
    };
    if sd.is_interruptible && !input.ability3_pressed && input.interrupt_takes_over {
        BehaviorUpdate {
            character: CharacterUpdate::Interrupted,
            vel,
            spawn_attack: None,
            remove_attack: false,
            energy_spent: 0,
            forward_move: false,
        }
    } else {
        match d.stage_section {
            StageSection::Buildup => {
                let next = if d.timer_ms < sd.buildup_duration_ms {
                    Data {
                        timer_ms: timer_add_spec(d.timer_ms as int, input.dt_ms as int) as u64,
                        ..d
                    }
                } else {
                    Data { timer_ms: 0, stage_section: StageSection::Swing, ..d }
                };
                BehaviorUpdate {
                    character: CharacterUpdate::SpinMelee(next),
                    vel,
                    spawn_attack: None,
                    remove_attack: false,
                    energy_spent: 0,
                    forward_move: false,
                }
            },
            StageSection::Swing => {
                if !d.exhausted {
                    BehaviorUpdate {
                        character: CharacterUpdate::SpinMelee(
                            Data { timer_ms: 0, exhausted: true, ..d },
                        ),
                        vel,
                        spawn_attack: Some(
                            AttackSpawn {
                                base_damage: sd.base_damage,
                                base_heal: 0,
                                range: sd.range,
                                max_angle: HALF_TURN,
                                applied: false,
                                hit_count: 0,
                                knockback: sd.knockback,
                            },
                        ),
                        remove_attack: false,
                        energy_spent: 0,
                        forward_move: false,
                    }
                } else if d.timer_ms < sd.swing_duration_ms {
                    BehaviorUpdate {
                        character: CharacterUpdate::SpinMelee(
                            Data {
                                timer_ms: timer_add_spec(
                                    d.timer_ms as int,
                                    input.dt_ms as int,
                                ) as u64,
                                ..d
                            },
                        ),
                        vel,
                        spawn_attack: None,
                        remove_attack: false,
                        energy_spent: 0,
                        forward_move: !sd.is_helicopter,
                    }
                } else if input.energy_current >= sd.energy_cost && (d.spins_remaining != 0
                    || (sd.is_infinite && input.secondary_pressed)) {
                    let spins = if sd.is_infinite {
                        d.spins_remaining
                    } else {
                        (d.spins_remaining - 1) as u32
                    };
                    BehaviorUpdate {
                        character: CharacterUpdate::SpinMelee(
                            Data { timer_ms: 0, spins_remaining: spins, exhausted: false, ..d },
                        ),
                        vel,
                        spawn_attack: None,
                        remove_attack: false,
                        energy_spent: sd.energy_cost,
                        forward_move: false,
                    }
                } else {
                    BehaviorUpdate {
                        character: CharacterUpdate::SpinMelee(
                            Data { timer_ms: 0, stage_section: StageSection::Recover, ..d },
                        ),
                        vel,
                        spawn_attack: None,
                        remove_attack: false,
                        energy_spent: 0,
                        forward_move: false,
                    }
                }
            },
            StageSection::Recover => {
                if d.timer_ms < sd.recover_duration_ms {
                    BehaviorUpdate {
                        character: CharacterUpdate::SpinMelee(
                            Data {
                                timer_ms: timer_add_spec(
                                    d.timer_ms as int,
                                    input.dt_ms as int,
                                ) as u64,
                                ..d
                            },
                        ),
                        vel,
                        spawn_attack: None,
                        remove_attack: false,
                        energy_spent: 0,
                        forward_move: false,
                    }
                } else {
                    BehaviorUpdate {
                        character: CharacterUpdate::Wielding,
                        vel,
                        spawn_attack: None,
                        remove_attack: true,
                        energy_spent: 0,
                        forward_move: false,
                    }
                }
            },
            _ => BehaviorUpdate {
                character: CharacterUpdate::Wielding,
                vel,
                spawn_attack: None,
                remove_attack: true,
                energy_spent: 0,
                forward_move: false,
            },
        }
    }
}

impl Data {
    /// One behavior step, exact per `behavior_spec`; the extra clauses
    /// state the machine's safety properties on their own: energy is
    /// spent only when affordable and only a whole attack's cost, a hit
    /// attempt is spawned only by an unexhausted swing, and a finished
    /// or foreign stage always clears the attack component.
    pub fn behavior(&self, input: &BehaviorInput) -> (r: BehaviorUpdate)
        requires
            in_range(input.move_dir_x as int),
            in_range(input.move_dir_y as int),
        ensures
            r == behavior_spec(*self, *input),
            r.energy_spent != 0 ==> r.energy_spent == self.static_data.energy_cost
                && input.energy_current >= self.static_data.energy_cost,
            r.spawn_attack is Some ==> self.stage_section is Swing && !self.exhausted,
            r.character is Wielding ==> r.remove_attack,
    {
        let sd = self.static_data;
        let vel: Option<Vec3Fx> = if sd.is_helicopter {
            Some(
                Vec3Fx {
                    x: fx_mul(input.move_dir_x, 5 * SCALE),
                    y: fx_mul(input.move_dir_y, 5 * SCALE),
                    z: 0,
                },
            )
        } else {
            None
        };
        if sd.is_interruptible && !input.ability3_pressed && input.interrupt_takes_over {
            return BehaviorUpdate {
                character: CharacterUpdate::Interrupted,
                vel,
                spawn_attack: None,
                remove_attack: false,
                energy_spent: 0,
                forward_move: false,
            };
        }
        match self.stage_section {
            StageSection::Buildup => {
                let next = if self.timer_ms < sd.buildup_duration_ms {
                    Data { timer_ms: timer_add(self.timer_ms, input.dt_ms), ..*self }
                } else {
                    Data { timer_ms: 0, stage_section: StageSection::Swing, ..*self }
                };
                BehaviorUpdate {
                    character: CharacterUpdate::SpinMelee(next),
                    vel,
                    spawn_attack: None,
                    remove_attack: false,
                    energy_spent: 0,
                    forward_move: false,
                }
            },
            StageSection::Swing => {
                if !self.exhausted {
                    BehaviorUpdate {
                        character: CharacterUpdate::SpinMelee(
                            Data { timer_ms: 0, exhausted: true, ..*self },
                        ),
                        vel,
                        spawn_attack: Some(
                            AttackSpawn {
                                base_damage: sd.base_damage,
                                base_heal: 0,
                                range: sd.range,
                                max_angle: HALF_TURN,
                                applied: false,
                                hit_count: 0,
                                knockback: sd.knockback,
                            },
                        ),
                        remove_attack: false,
                        energy_spent: 0,
                        forward_move: false,
                    }
                } else if self.timer_ms < sd.swing_duration_ms {
                    BehaviorUpdate {
                        character: CharacterUpdate::SpinMelee(
                            Data { timer_ms: timer_add(self.timer_ms, input.dt_ms), ..*self },
                        ),
                        vel,
                        spawn_attack: None,
                        remove_attack: false,
                        energy_spent: 0,
                        forward_move: !sd.is_helicopter,
                    }
                } else if input.energy_current >= sd.energy_cost && (self.spins_remaining != 0
                    || (sd.is_infinite && input.secondary_pressed)) {
                    let spins: u32 = if sd.is_infinite {
                        self.spins_remaining
                    } else {
                        self.spins_remaining - 1
                    };
                    BehaviorUpdate {
                        character: CharacterUpdate::SpinMelee(
                            Data {
                                timer_ms: 0,
                                spins_remaining: spins,
                                exhausted: false,
                                ..*self
                            },
                        ),
                        vel,
                        spawn_attack: None,
                        remove_attack: false,
                        energy_spent: sd.energy_cost,
                        forward_move: false,
                    }
                } else {
                    BehaviorUpdate {
                        character: CharacterUpdate::SpinMelee(
                            Data { timer_ms: 0, stage_section: StageSection::Recover, ..*self },
                        ),
                        vel,
                        spawn_attack: None,
                        remove_attack: false,
                        energy_spent: 0,
                        forward_move: false,
                    }
                }
            },
            StageSection::Recover => {
                if self.timer_ms < sd.recover_duration_ms {
                    BehaviorUpdate {
                        character: CharacterUpdate::SpinMelee(
                            Data { timer_ms: timer_add(self.timer_ms, input.dt_ms), ..*self },
                        ),
                        vel,
                        spawn_attack: None,
                        remove_attack: false,
                        energy_spent: 0,
                        forward_move: false,
                    }
                } else {
                    BehaviorUpdate {
                        character: CharacterUpdate::Wielding,
                        vel,
                        spawn_attack: None,
                        remove_attack: true,
                        energy_spent: 0,
                        forward_move: false,
                    }
                }
            },
            _ => BehaviorUpdate {
                character: CharacterUpdate::Wielding,
                vel,
                spawn_attack: None,
                remove_attack: true,
                energy_spent: 0,
                forward_move: false,
            },
        }
    }
}

/// Advance a stage timer, exact per `timer_add_spec`.
fn timer_add(t: u64, dt: u64) -> (r: u64)
    ensures
        r == timer_add_spec(t as int, dt as int),
{
    match t.checked_add(dt) {
        Some(v) => v,
        None => 0,
    }
}

} // verus!
