//! The capture protocol end to end: beam, capture, spawn of the
//! captured fighter, return flight and push-up.

use galangua_core::enemy::{Enemy, EnemyState, EnemyType};
use galangua_core::enemy_manager::{EnemyManager, WorldInput};
use galangua_core::event::{EventQueue, EventType};
use galangua_core::formation::Formation;
use galangua_core::types::{FormationIndex, Vec2I};

fn fp(x: i32, y: i32) -> Vec2I {
    Vec2I { x: x * 256, y: y * 256 }
}

#[test]
fn capture_protocol_end_to_end() {
    let owl_fi = FormationIndex(4, 1);
    let cap_fi = FormationIndex(4, 0);
    let mut formation = Formation::new();
    formation.done_appearance();
    for _ in 0..400 {
        formation.update();
    }
    assert!(formation.is_settle());

    let mut em = EnemyManager::new();
    let mut owl = Enemy::new(EnemyType::Owl, &formation.pos(&owl_fi), 0, 0);
    owl.formation_index = owl_fi;
    owl.set_to_formation();
    assert!(em.spawn(owl));

    let mut world = WorldInput {
        player_pos: fp(104, 272),
        dual_player_pos: None,
        can_player_capture: true,
        is_player_capture_completed: false,
        can_capture_attack: true,
    };
    let mut q = EventQueue::new();
    assert!(em.start_attack(&owl_fi, true, &world, &mut q));

    let mut seen_capture_player = 0;
    let mut seen_spawn = 0;
    let mut seen_completed = 0;
    let mut seen_ended = 0;
    let mut processed = 0;
    let mut ticks = 0;
    while seen_ended == 0 && ticks < 6000 {
        em.update_enemies(&formation, &world, false, 1, &mut q);
        ticks += 1;
        while processed < q.len() {
            match q.get(processed) {
                EventType::CapturePlayer(_) => {
                    seen_capture_player += 1;
                    // play is interrupted: the player is no longer
                    // capturable while being pulled in
                    world.can_player_capture = false;
                    // the external capture animation completes shortly
                    world.is_player_capture_completed = true;
                },
                EventType::SpawnCapturedFighter(pos, fi) => {
                    seen_spawn += 1;
                    // the fighter settles one row above the Owl
                    assert_eq!(fi, cap_fi);
                    assert!(em.spawn_captured_fighter(&pos, &fi));
                },
                EventType::CapturePlayerCompleted => {
                    seen_completed += 1;
                },
                EventType::CaptureSequenceEnded => {
                    seen_ended += 1;
                },
                _ => {},
            }
            processed += 1;
        }
    }
    assert_eq!(seen_capture_player, 1, "CapturePlayer fires exactly once");
    assert_eq!(seen_spawn, 1, "exactly one captured fighter spawns");
    assert_eq!(seen_completed, 1);
    assert_eq!(seen_ended, 1, "the capture sequence resolves");
    assert!(ticks < 6000);

    // both enemies reach Formation state with the troop list empty
    let owl = em.get_enemy_at(&owl_fi).expect("the Owl survives the protocol");
    assert_eq!(owl.state(), EnemyState::Formation);
    assert_eq!(owl.escort_count(), 0);
    assert!(!owl.has_troop(cap_fi));
    let fighter = em.get_enemy_at(&cap_fi).expect("the captured fighter stays");
    assert_eq!(fighter.state(), EnemyState::Formation);
    assert_eq!(fighter.enemy_type, EnemyType::CapturedFighter);
    // the fighter sits sixteen units above the Owl after the push-up
    assert_eq!(fighter.raw_pos().y, owl.raw_pos().y - 16 * 256);
}

#[test]
fn beam_times_out_without_capturable_player() {
    // with the player never capturable the beam closes and the Owl
    // flies out, ending the capture attack
    let owl_fi = FormationIndex(4, 1);
    let mut formation = Formation::new();
    formation.done_appearance();
    for _ in 0..400 {
        formation.update();
    }
    let mut em = EnemyManager::new();
    let mut owl = Enemy::new(EnemyType::Owl, &formation.pos(&owl_fi), 0, 0);
    owl.formation_index = owl_fi;
    owl.set_to_formation();
    assert!(em.spawn(owl));
    let world = WorldInput {
        player_pos: fp(104, 272),
        dual_player_pos: None,
        can_player_capture: false,
        is_player_capture_completed: false,
        can_capture_attack: true,
    };
    let mut q = EventQueue::new();
    assert!(em.start_attack(&owl_fi, true, &world, &mut q));
    let mut ended = false;
    let mut ticks = 0;
    while !ended && ticks < 6000 {
        em.update_enemies(&formation, &world, false, 1, &mut q);
        ticks += 1;
        for i in 0..q.len() {
            if q.get(i) == EventType::EndCaptureAttack {
                ended = true;
            }
        }
    }
    assert!(ended, "the timed-out capture attack ends");
    let owl = em.get_enemy_at(&owl_fi).expect("the Owl survives");
    assert!(matches!(owl.state(), EnemyState::MoveToFormation | EnemyState::Formation));
}
