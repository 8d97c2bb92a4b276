//! The enemy state machine: scoring, damage, the formation pin, the
//! return flight, and the rush continuation.

use galangua_core::enemy::{
    AttackPhase, Enemy, EnemyState, EnemyType, UpdateContext,
};
use galangua_core::event::{EventQueue, EventType};
use galangua_core::rng::GameRng;
use galangua_core::traj::TrajCommand;
use galangua_core::traj_tables::bee_rush_cont_table;
use galangua_core::types::{FormationIndex, Vec2I};

fn fp(x: i32, y: i32) -> Vec2I {
    Vec2I { x: x * 256, y: y * 256 }
}

fn ctx(formation_pos: Vec2I) -> UpdateContext {
    UpdateContext {
        formation_pos,
        player_pos: fp(112, 272),
        dual_player_pos: None,
        can_player_capture: true,
        player_capture_completed: false,
        is_rush: false,
        stage_no: 1,
        has_live_troops: false,
        troop_positions: Vec::new(),
        captured_fighter_y: None,
    }
}

#[test]
fn type_scores_by_state() {
    let mut bee = Enemy::new(EnemyType::Bee, &fp(0, 0), 0, 0);
    bee.set_to_formation();
    assert_eq!(bee.calc_point(), 50);
    let fly = Enemy::new(EnemyType::Bee, &fp(0, 0), 0, 0);
    assert_eq!(fly.calc_point(), 100);
    let mut butterfly = Enemy::new(EnemyType::Butterfly, &fp(0, 0), 0, 0);
    butterfly.set_to_formation();
    assert_eq!(butterfly.calc_point(), 80);
    let mut fighter = Enemy::new(EnemyType::CapturedFighter, &fp(0, 0), 0, 0);
    assert_eq!(fighter.calc_point(), 1000);
    fighter.set_to_formation();
    assert_eq!(fighter.calc_point(), 500);
}

#[test]
fn owl_score_doubles_per_escort() {
    // an Owl caught outside formation pays 400 * 2^k for k live escorts
    let mut owl = Enemy::new(EnemyType::Owl, &fp(100, 100), 0, 0);
    owl.formation_index = FormationIndex(4, 1);
    assert_eq!(owl.calc_point(), 400);
    owl.add_troop(FormationIndex(3, 2));
    assert_eq!(owl.calc_point(), 800);
    owl.add_troop(FormationIndex(5, 2));
    assert_eq!(owl.calc_point(), 1600);
    // the captured-fighter slot does not count as an escort
    owl.add_troop(FormationIndex(4, 0));
    assert_eq!(owl.calc_point(), 1600);
    // destroying escorts first strictly lowers the payout
    assert!(400 < 800 && 800 < 1600);
}

#[test]
fn bee_dies_on_one_hit() {
    let mut bee = Enemy::new(EnemyType::Bee, &fp(0, 0), 0, 0);
    let mut q = EventQueue::new();
    let r = bee.set_damage(1, false, &mut q);
    assert!(r.killed);
    assert_eq!(r.point, 100);
}

#[test]
fn owl_survives_first_hit() {
    let mut owl = Enemy::new(EnemyType::Owl, &fp(0, 0), 0, 0);
    let mut q = EventQueue::new();
    let r = owl.set_damage(1, false, &mut q);
    assert!(!r.killed);
    assert_eq!(r.point, 0);
    assert_eq!(q.len(), 0);
    let r = owl.set_damage(1, false, &mut q);
    assert!(r.killed);
    assert!(r.point > 0);
}

#[test]
fn owl_with_live_escort_becomes_ghost() {
    // lethal damage with a live escort keeps the Owl present as a ghost
    let mut owl = Enemy::new(EnemyType::Owl, &fp(0, 0), 0, 0);
    owl.formation_index = FormationIndex(4, 1);
    owl.add_troop(FormationIndex(3, 2));
    let mut q = EventQueue::new();
    let r = owl.set_damage(5, true, &mut q);
    assert!(!r.killed);
    assert!(r.point > 0);
    assert!(owl.is_ghost());
    assert!(!owl.is_disappeared());
}

#[test]
fn dying_owl_releases_capture_with_event() {
    // an Owl killed while its beam is tracting lets the player escape
    let mut owl = Enemy::new(EnemyType::Owl, &fp(100, 100), 0, 0);
    owl.formation_index = FormationIndex(4, 1);
    owl.set_to_formation();
    let mut q = EventQueue::new();
    owl.set_attack(true, &fp(112, 272), &mut q);
    owl.capturing_state = galangua_core::enemy::CapturingState::BeamTracting;
    let before = q.len();
    let r = owl.set_damage(5, false, &mut q);
    assert!(r.killed);
    assert_eq!(q.get(before), EventType::EscapeCapturing);
}

#[test]
fn formation_state_pins_to_slot() {
    // the formation pin: after its tick a settled enemy sits exactly on
    // the slot target
    let mut e = Enemy::new(EnemyType::Bee, &fp(50, 50), 0, 0);
    e.formation_index = FormationIndex(2, 4);
    e.set_to_formation();
    let target = fp(72, 96);
    let mut q = EventQueue::new();
    let mut rng = GameRng::with_seed(7);
    let r = e.update(&ctx(target), &mut rng, &mut q);
    assert_eq!(e.state(), EnemyState::Formation);
    assert_eq!(*e.raw_pos(), target);
    // the whole move propagates to troops
    assert_eq!(r.pos_delta, Vec2I { x: target.x - fp(50, 50).x, y: target.y - fp(50, 50).y });
}

#[test]
fn move_to_formation_reaches_slot() {
    // the turn-then-approach flight ends on the slot in finite ticks
    let mut e = Enemy::new(EnemyType::Bee, &fp(30, 200), 0, 512);
    e.formation_index = FormationIndex(2, 4);
    e.state = EnemyState::MoveToFormation;
    let target = fp(72, 96);
    let mut q = EventQueue::new();
    let mut rng = GameRng::with_seed(7);
    let mut ticks = 0;
    while e.state() == EnemyState::MoveToFormation && ticks < 2000 {
        e.update(&ctx(target), &mut rng, &mut q);
        ticks += 1;
    }
    assert_eq!(e.state(), EnemyState::Formation);
    assert!(ticks < 2000, "approach did not settle");
    assert_eq!(*e.raw_pos(), target);
}

#[test]
fn bee_rush_continuation() {
    // in rush mode a Bee whose attack table is spent re-arms with the
    // rush-continuation table instead of heading home
    let mut bee = Enemy::new(EnemyType::Bee, &fp(72, 96), 0, 0);
    bee.formation_index = FormationIndex(2, 4);
    bee.set_to_formation();
    let mut q = EventQueue::new();
    bee.set_attack(false, &fp(112, 272), &mut q);
    assert_eq!(bee.state(), EnemyState::Attack);
    assert_eq!(bee.attack_phase, AttackPhase::Bee);
    let mut rng = GameRng::with_seed(7);
    let mut c = ctx(fp(72, 96));
    c.is_rush = true;
    let mut ticks = 0;
    while bee.attack_phase == AttackPhase::Bee && ticks < 2000 {
        bee.update(&c, &mut rng, &mut q);
        ticks += 1;
    }
    assert!(ticks < 2000, "attack table never ran out");
    assert_eq!(bee.state(), EnemyState::Attack);
    assert_eq!(bee.attack_phase, AttackPhase::Traj);
    let cont = bee.traj.as_ref().expect("rush continuation armed");
    assert_eq!(cont.commands, bee_rush_cont_table());
}

#[test]
fn bee_returns_home_outside_rush() {
    // outside rush mode the same spent attack heads for the slot
    let mut bee = Enemy::new(EnemyType::Bee, &fp(72, 96), 0, 0);
    bee.formation_index = FormationIndex(2, 4);
    bee.set_to_formation();
    let mut q = EventQueue::new();
    bee.set_attack(false, &fp(112, 272), &mut q);
    let mut rng = GameRng::with_seed(7);
    let c = ctx(fp(72, 96));
    let mut ticks = 0;
    while bee.state() == EnemyState::Attack && ticks < 2000 {
        bee.update(&c, &mut rng, &mut q);
        ticks += 1;
    }
    assert!(ticks < 2000);
    assert_eq!(bee.state(), EnemyState::MoveToFormation);
}

#[test]
fn appearance_past_last_row_turns_into_assault() {
    // an enemy bound past the last formation row dives at the player
    // instead of joining formation
    let mut e = Enemy::new(EnemyType::Bee, &fp(100, 20), 0, 0);
    e.formation_index = FormationIndex(3, 6);
    let mut cmds: Vec<TrajCommand> = Vec::new();
    cmds.push(TrajCommand::Delay(1));
    let traj = galangua_core::traj::Traj::new(cmds, &fp(100, 20), false, e.formation_index);
    e.set_appearance(traj);
    let mut q = EventQueue::new();
    let mut rng = GameRng::with_seed(7);
    let c = ctx(fp(72, 96));
    e.update(&c, &mut rng, &mut q);
    e.update(&c, &mut rng, &mut q);
    assert_eq!(e.state(), EnemyState::Assault);
    assert_eq!(e.target_pos, c.player_pos);
}

#[test]
fn attack_run_fires_on_cadence() {
    // stage 1: 2 volleys, one every 16 ticks, and only those
    let mut bee = Enemy::new(EnemyType::Bee, &fp(72, 96), 0, 0);
    bee.formation_index = FormationIndex(2, 4);
    bee.set_to_formation();
    let mut q = EventQueue::new();
    bee.set_attack(false, &fp(112, 272), &mut q);
    let mut rng = GameRng::with_seed(7);
    let c = ctx(fp(72, 96));
    for _ in 0..60 {
        bee.update(&c, &mut rng, &mut q);
    }
    let mut volleys = 0;
    for i in 0..q.len() {
        if let EventType::EneShot(_) = q.get(i) {
            volleys += 1;
        }
    }
    // two cadence volleys; the scripted fire marker of the bee table
    // adds one more
    assert_eq!(volleys, 3);
}
