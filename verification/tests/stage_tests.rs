//! The stage state machine and the full stage pass.

use galangua_core::consts::{CH_JINGLE, SE_ATTACK_START};
use galangua_core::enemy_manager::WorldInput;
use galangua_core::event::{EventQueue, EventType};
use galangua_core::stage::{next_stage_state, StageManager, StageState};
use galangua_core::types::Vec2I;

fn fp(x: i32, y: i32) -> Vec2I {
    Vec2I { x: x * 256, y: y * 256 }
}

fn world() -> WorldInput {
    WorldInput {
        player_pos: fp(112, 272),
        dual_player_pos: None,
        can_player_capture: false,
        is_player_capture_completed: false,
        can_capture_attack: false,
    }
}

#[test]
fn stage_thresholds_in_order() {
    // the alive counts 12, 6, 5, 0 drive Normal, Normal, Rush, Cleared
    // exactly at the threshold crossings
    let mut s = StageState::Normal;
    s = next_stage_state(s, 12);
    assert_eq!(s, StageState::Normal);
    s = next_stage_state(s, 6);
    assert_eq!(s, StageState::Normal);
    s = next_stage_state(s, 5);
    assert_eq!(s, StageState::Rush);
    s = next_stage_state(s, 0);
    assert_eq!(s, StageState::Cleared);
}

#[test]
fn appearance_is_left_by_schedule_not_count() {
    assert_eq!(next_stage_state(StageState::Appearance, 0), StageState::Appearance);
    assert_eq!(next_stage_state(StageState::Appearance, 3), StageState::Appearance);
}

#[test]
fn cleared_is_terminal() {
    assert_eq!(next_stage_state(StageState::Cleared, 0), StageState::Cleared);
}

#[test]
fn stage_assembles_forty_enemies() {
    let mut sm = StageManager::new();
    sm.start_next_stage(1, None);
    let w = world();
    let mut q = EventQueue::new();
    for _ in 0..2600 {
        sm.update(&w, &mut q);
        q.clear();
    }
    assert!(sm.appearance_manager.done, "the spawn schedule ran out");
    assert_eq!(sm.enemy_manager.alive_enemy_count, 40);
    assert!(!sm.is_rush());
    assert!(!sm.all_destroyed());
    // the grid corners are occupied
    assert!(sm.get_enemy_at(&galangua_core::types::FormationIndex(0, 4)).is_some());
    assert!(sm.get_enemy_at(&galangua_core::types::FormationIndex(9, 5)).is_some());
    assert!(sm.get_enemy_at(&galangua_core::types::FormationIndex(4, 1)).is_some());
}

#[test]
fn attacks_launch_once_assembled() {
    let mut sm = StageManager::new();
    sm.start_next_stage(1, None);
    let w = world();
    let mut q = EventQueue::new();
    let mut launched = false;
    for _ in 0..4000 {
        sm.update(&w, &mut q);
        for i in 0..q.len() {
            if q.get(i) == EventType::PlaySe(CH_JINGLE, SE_ATTACK_START) {
                launched = true;
            }
        }
        q.clear();
        if launched {
            break;
        }
    }
    assert!(launched, "the attack scheduler sent someone out");
}

#[test]
fn captured_fighter_rejoins_next_stage() {
    let fi = galangua_core::types::FormationIndex(4, 0);
    let mut sm = StageManager::new();
    sm.start_next_stage(2, Some(fi));
    let w = world();
    let mut q = EventQueue::new();
    for _ in 0..2600 {
        sm.update(&w, &mut q);
        q.clear();
    }
    assert_eq!(sm.enemy_manager.alive_enemy_count, 41);
    let e = sm.get_enemy_at(&fi).expect("the survivor rejoined");
    assert_eq!(e.enemy_type, galangua_core::enemy::EnemyType::CapturedFighter);
}

#[test]
fn formation_positions_form_the_grid() {
    let mut sm = StageManager::new();
    sm.start_next_stage(1, None);
    let a = sm.get_formation_pos(&galangua_core::types::FormationIndex(0, 1));
    let b = sm.get_formation_pos(&galangua_core::types::FormationIndex(1, 1));
    let c = sm.get_formation_pos(&galangua_core::types::FormationIndex(0, 2));
    // columns sixteen pixels apart, rows sixteen pixels apart
    assert_eq!(b.x - a.x, 16 * 256);
    assert_eq!(c.y - a.y, 16 * 256);
    assert_eq!(a.x, b.x - 16 * 256);
}
