//! The trajectory interpreter: command semantics, mirroring and
//! exhaustion.

use galangua_core::traj::{Traj, TrajCommand};
use galangua_core::types::{FormationIndex, Vec2I};

fn fp(x: i32, y: i32) -> Vec2I {
    Vec2I { x: x * 256, y: y * 256 }
}

#[test]
fn empty_table_is_exhausted_at_once() {
    let mut t = Traj::new(Vec::new(), &fp(0, 0), false, FormationIndex(0, 0));
    let running = t.update(&fp(0, 0), 1);
    assert!(!running);
}

#[test]
fn delay_integrates_velocity() {
    let mut cmds: Vec<TrajCommand> = Vec::new();
    cmds.push(TrajCommand::SetSpeed(256));
    cmds.push(TrajCommand::SetAngle(32768));
    cmds.push(TrajCommand::Delay(3));
    let mut t = Traj::new(cmds, &fp(0, 0), false, FormationIndex(0, 0));
    assert!(t.update(&fp(0, 0), 1));
    assert_eq!(t.pos, fp(0, 1));
    assert!(t.update(&fp(0, 0), 1));
    assert_eq!(t.pos, fp(0, 2));
    let running = t.update(&fp(0, 0), 1);
    assert!(!running);
    assert_eq!(t.pos, fp(0, 3));
    // once exhausted it stays exhausted
    assert!(!t.update(&fp(0, 0), 1));
    assert_eq!(t.pos, fp(0, 3));
}

#[test]
fn move_interpolates_and_lands_exactly() {
    let mut cmds: Vec<TrajCommand> = Vec::new();
    cmds.push(TrajCommand::Move(1024, 2048, 4));
    let mut t = Traj::new(cmds, &fp(0, 0), false, FormationIndex(0, 0));
    assert!(t.update(&fp(0, 0), 1));
    assert_eq!(t.pos, Vec2I { x: 256, y: 512 });
    assert!(t.update(&fp(0, 0), 1));
    assert!(t.update(&fp(0, 0), 1));
    let running = t.update(&fp(0, 0), 1);
    assert!(!running);
    assert_eq!(t.pos, Vec2I { x: 1024, y: 2048 });
}

#[test]
fn flip_mirrors_x_and_angles() {
    let mut cmds: Vec<TrajCommand> = Vec::new();
    cmds.push(TrajCommand::SetAngle(8192));
    cmds.push(TrajCommand::Move(1024, 0, 1));
    let mut t = Traj::new(cmds, &fp(0, 0), true, FormationIndex(9, 0));
    t.update(&fp(0, 0), 1);
    assert_eq!(t.angle, -8192);
    assert_eq!(t.pos, Vec2I { x: -1024, y: 0 });
}

#[test]
fn shot_marker_reported_once() {
    let mut cmds: Vec<TrajCommand> = Vec::new();
    cmds.push(TrajCommand::Shot(7));
    cmds.push(TrajCommand::Delay(2));
    let mut t = Traj::new(cmds, &fp(0, 0), false, FormationIndex(0, 0));
    t.update(&fp(0, 0), 1);
    assert_eq!(t.is_shot(), Some(7));
    t.update(&fp(0, 0), 1);
    assert_eq!(t.is_shot(), None);
}

#[test]
fn copy_formation_x_snaps_column() {
    let mut cmds: Vec<TrajCommand> = Vec::new();
    cmds.push(TrajCommand::CopyFormationX);
    cmds.push(TrajCommand::Delay(1));
    let mut t = Traj::new(cmds, &fp(5, 7), false, FormationIndex(3, 2));
    t.update(&fp(88, 48), 1);
    assert_eq!(t.pos.x, 88 * 256);
    assert_eq!(t.pos.y, 7 * 256);
}

#[test]
fn set_pos_repositions() {
    let mut cmds: Vec<TrajCommand> = Vec::new();
    cmds.push(TrajCommand::Delay(1));
    let mut t = Traj::new(cmds, &fp(0, 0), false, FormationIndex(0, 0));
    t.set_pos(&fp(10, 20));
    assert_eq!(t.pos, fp(10, 20));
}
