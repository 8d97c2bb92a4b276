//! Core logic of a fixed-shooter arcade game: enemy state machines,
//! formation and attack orchestration, and a scripted-trajectory
//! interpreter, with machine-checked contracts.

pub mod appearance_manager;
pub mod collision;
pub mod consts;
pub mod ene_shot;
pub mod enemy;
pub mod enemy_manager;
pub mod effect;
pub mod event;
pub mod pad;
pub mod stage_indicator;
pub mod math;
pub mod attack_manager;
pub mod rng;
pub mod sprite_sheet;
pub mod stage;
pub mod formation;
pub mod fps_calc;
pub mod framework;
pub mod game_info;
pub mod tractor_beam;
pub mod traj;
pub mod traj_tables;
pub mod types;

use vstd::prelude::*;

verus! {

} // verus!
