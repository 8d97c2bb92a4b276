//! The enemy arena: troop propagation, ghost lifetime, collisions and
//! the shot pool.

use galangua_core::collision::CollBox;
use galangua_core::enemy::{Enemy, EnemyState, EnemyType};
use galangua_core::enemy_manager::{CollisionResult, EnemyManager, WorldInput};
use galangua_core::event::EventQueue;
use galangua_core::formation::Formation;
use galangua_core::types::{FormationIndex, Vec2I};

fn fp(x: i32, y: i32) -> Vec2I {
    Vec2I { x: x * 256, y: y * 256 }
}

fn world() -> WorldInput {
    WorldInput {
        player_pos: fp(112, 272),
        dual_player_pos: None,
        can_player_capture: true,
        is_player_capture_completed: false,
        can_capture_attack: true,
    }
}

fn settled_formation() -> Formation {
    let mut f = Formation::new();
    f.done_appearance();
    for _ in 0..400 {
        f.update();
    }
    assert!(f.is_settle());
    f
}

fn spawn_at(em: &mut EnemyManager, t: EnemyType, fi: FormationIndex, pos: Vec2I) {
    let mut e = Enemy::new(t, &pos, 0, 0);
    e.formation_index = fi;
    e.set_to_formation();
    assert!(em.spawn(e));
}

#[test]
fn troop_following_moves_by_leader_delta() {
    // moving a leader by d moves every live troop by exactly d in the
    // same tick, and copies the angle down when asked
    let mut em = EnemyManager::new();
    spawn_at(&mut em, EnemyType::Bee, FormationIndex(3, 2), fp(10, 10));
    spawn_at(&mut em, EnemyType::Bee, FormationIndex(5, 2), fp(20, 10));
    spawn_at(&mut em, EnemyType::Butterfly, FormationIndex(7, 2), fp(30, 10));
    let mut troops: Vec<Option<FormationIndex>> = Vec::new();
    troops.push(Some(FormationIndex(3, 2)));
    troops.push(Some(FormationIndex(5, 2)));
    troops.push(None);
    let delta = Vec2I { x: 300, y: -200 };
    em.propagate_to_troops(&troops, &delta, Some(1234));
    let a = em.get_enemy_at(&FormationIndex(3, 2)).unwrap();
    assert_eq!(*a.raw_pos(), Vec2I { x: 10 * 256 + 300, y: 10 * 256 - 200 });
    assert_eq!(a.angle, 1234);
    let b = em.get_enemy_at(&FormationIndex(5, 2)).unwrap();
    assert_eq!(*b.raw_pos(), Vec2I { x: 20 * 256 + 300, y: 10 * 256 - 200 });
    // the enemy not referenced stays put
    let c = em.get_enemy_at(&FormationIndex(7, 2)).unwrap();
    assert_eq!(*c.raw_pos(), fp(30, 10));
    assert_eq!(c.angle, 0);
}

#[test]
fn ghost_owl_stays_while_escort_lives() {
    // an Owl with life 0 and a live escort remains present until the
    // escort is gone
    let mut em = EnemyManager::new();
    let owl_fi = FormationIndex(4, 1);
    let bee_fi = FormationIndex(3, 2);
    spawn_at(&mut em, EnemyType::Owl, owl_fi, fp(104, 48));
    spawn_at(&mut em, EnemyType::Bee, bee_fi, fp(88, 64));
    // make the bee a troop of the owl, then kill the owl
    {
        let idx = (0..64).find(|&i| {
            em.enemies[i]
                .as_ref()
                .map(|e| e.formation_index == owl_fi)
                .unwrap_or(false)
        });
        let mut owl = em.enemies[idx.unwrap()].take().unwrap();
        owl.add_troop(bee_fi);
        let mut q = EventQueue::new();
        let r = owl.set_damage(5, true, &mut q);
        assert!(!r.killed);
        em.enemies[idx.unwrap()] = Some(owl);
    }
    let f = settled_formation();
    let mut q = EventQueue::new();
    em.update_enemies(&f, &world(), false, 1, &mut q);
    let ghost = em.get_enemy_at(&owl_fi).expect("ghost stays while escort lives");
    assert!(ghost.is_ghost());
    // the escort dies: on its next tick the ghost vanishes
    assert!(em.remove_enemy(&bee_fi));
    em.update_enemies(&f, &world(), false, 1, &mut q);
    assert!(em.get_enemy_at(&owl_fi).is_none());
}

#[test]
fn collision_hits_and_removes() {
    let mut em = EnemyManager::new();
    spawn_at(&mut em, EnemyType::Bee, FormationIndex(3, 2), fp(50, 50));
    let mut q = EventQueue::new();
    // a box far away misses
    let miss = CollBox { top_left: Vec2I { x: 200, y: 200 }, size: Vec2I { x: 4, y: 4 } };
    assert_eq!(em.check_collision(&miss, 1, &mut q), CollisionResult::NoHit);
    // a box on the bee hits and destroys it
    let hit = CollBox { top_left: Vec2I { x: 48, y: 48 }, size: Vec2I { x: 4, y: 4 } };
    match em.check_collision(&hit, 1, &mut q) {
        CollisionResult::Hit(pos, destroyed) => {
            assert!(destroyed);
            assert_eq!(pos, Vec2I { x: 50, y: 50 });
        },
        CollisionResult::NoHit => panic!("expected a hit"),
    }
    assert!(em.get_enemy_at(&FormationIndex(3, 2)).is_none());
}

#[test]
fn owl_kill_pauses_enemy_shots() {
    let mut em = EnemyManager::new();
    spawn_at(&mut em, EnemyType::Owl, FormationIndex(4, 1), fp(50, 50));
    let mut q = EventQueue::new();
    let hit = CollBox { top_left: Vec2I { x: 48, y: 48 }, size: Vec2I { x: 4, y: 4 } };
    match em.check_collision(&hit, 5, &mut q) {
        CollisionResult::Hit(_, destroyed) => assert!(destroyed),
        CollisionResult::NoHit => panic!("expected a hit"),
    }
    assert_eq!(em.shot_pause_count, 180);
    // a paused pool drops fire requests
    let mut targets: Vec<Option<Vec2I>> = Vec::new();
    targets.push(Some(fp(112, 272)));
    em.spawn_shot(&fp(50, 50), &targets, 512);
    assert!(em.shots.iter().all(|s| s.is_none()));
}

#[test]
fn shots_fly_and_leave_the_screen() {
    let mut em = EnemyManager::new();
    let mut targets: Vec<Option<Vec2I>> = Vec::new();
    targets.push(Some(fp(50, 272)));
    em.spawn_shot(&fp(50, 50), &targets, 512);
    let shot = em.shots.iter().flatten().next().expect("shot spawned");
    // straight down at the chosen target, at the requested speed
    assert_eq!(shot.vel.x, 0);
    assert_eq!(shot.vel.y, 512);
    for _ in 0..200 {
        em.update_shots();
    }
    assert!(em.shots.iter().all(|s| s.is_none()), "shot left the screen");
}

#[test]
fn shot_collision_absorbs_shot() {
    let mut em = EnemyManager::new();
    let mut targets: Vec<Option<Vec2I>> = Vec::new();
    targets.push(Some(fp(50, 272)));
    em.spawn_shot(&fp(50, 50), &targets, 512);
    let b = CollBox { top_left: Vec2I { x: 44, y: 40 }, size: Vec2I { x: 12, y: 20 } };
    match em.check_shot_collision(&b) {
        CollisionResult::Hit(_, destroyed) => assert!(!destroyed),
        CollisionResult::NoHit => panic!("expected the shot to be hit"),
    }
    assert!(em.shots.iter().all(|s| s.is_none()));
}

#[test]
fn rng_index_stays_in_range() {
    let mut rng = galangua_core::rng::GameRng::with_seed(42);
    for n in 1..20usize {
        for _ in 0..50 {
            assert!(rng.gen_index(n) < n);
        }
    }
}
