//! Procedural settlement-economy simulation.
//!
//! The core is the per-settlement economic tick: demand/supply aggregation,
//! scarcity-value rationalisation, workforce reallocation, bottlenecked
//! production, stock decay and replenishment, and a demographic update.
//! All quantities are fixed-point numbers with six decimal places (see
//! [`fixed`]), so every arithmetic step has an exact, machine-checked
//! meaning; the contracts below pin each stage of the tick down to a
//! mathematical function of the previous state.

pub mod fixed;
pub mod goods;
pub mod catalog;
pub mod economy;
pub mod values;
pub mod production;
pub mod tick;
pub mod world;
pub mod laws;
pub mod anim;
pub mod quadruped;
pub mod hud;
pub mod spin_melee;
pub mod buffs;
pub mod melee;
