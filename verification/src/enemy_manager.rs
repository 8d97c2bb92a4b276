//! The enemy arena: owns every enemy by slot, runs the per-tick update
//! pass, propagates leader motion to troops, and resolves collisions.
//!
//! Troop references are weak: a leader keeps only formation indices,
//! resolved against this arena each tick, and a missing reference is a
//! normal case that is silently skipped.

use vstd::prelude::*;
use crate::collision::{spec_boxes_overlap, CollBox};
use crate::consts::{OWL_DESTROY_SHOT_WAIT, MAX_TROOPS};
use crate::ene_shot::{out_of_screen, spec_shot_box, EneShot};
use crate::enemy::{
    spec_attack_table_of, spec_calc_point, spec_death_events, spec_enemy_box, spec_settled,
    spec_troop_moved_pos, AttackPhase, CapturingState, Enemy, EnemyState, EnemyType,
    UpdateContext, CAPTURE_HOVER_Y,
};
use crate::event::{EventQueue, EventType};
use crate::formation::Formation;
use crate::math::{COORD_LIMIT, HALF_TURN, SPEED_LIMIT};
use crate::rng::GameRng;
use crate::types::{in_coord_range, FormationIndex, Vec2I};

verus! {

/// Number of enemy slots in the arena.
pub const MAX_ENEMY_COUNT: usize = 64;

/// Number of in-flight enemy shots.
pub const MAX_SHOT_COUNT: usize = 16;

/// Outcome of a collision check.
#[derive(Clone, Copy, Debug, PartialEq, Eq, Structural)]
pub enum CollisionResult {
    /// Nothing overlapped the box.
    NoHit,
    /// Something was hit at the position; true when it was destroyed.
    Hit(Vec2I, bool),
}

/// True when some troop reference resolves to a live non-captured
/// enemy in the arena (the Owl's ghost condition).
pub open spec fn spec_troops_have_live(
    enemies: Seq<Option<Enemy>>,
    troops: Seq<Option<FormationIndex>>,
) -> bool {
    exists|k: int, j: int|
        #![trigger troops[k], enemies[j]]
        {
            &&& 0 <= k < troops.len()
            &&& 0 <= j < enemies.len()
            &&& troops[k] is Some
            &&& enemies[j] is Some
            &&& enemies[j].unwrap().formation_index == troops[k].unwrap()
            &&& !(enemies[j].unwrap().enemy_type is CapturedFighter)
        }
}

/// True when some entry of the target pool is the position `t`.
pub open spec fn spec_target_present(target_pos: Seq<Option<Vec2I>>, t: Vec2I) -> bool {
    exists|k: int| 0 <= k < target_pos.len() && target_pos[k] == Some(t)
}

/// True when some troop slot references `fi`.
pub open spec fn spec_in_troops(troops: Seq<Option<FormationIndex>>, fi: FormationIndex) -> bool {
    exists|k: int| 0 <= k < troops.len() && troops[k] == Some(fi)
}

/// What the whole arena reads from the outside world in one tick.
pub struct WorldInput {
    /// The primary player's raw position (fixed point).
    pub player_pos: Vec2I,
    /// The dual fighter's position, when one flies.
    pub dual_player_pos: Option<Vec2I>,
    /// Whether the player may be captured right now.
    pub can_player_capture: bool,
    /// Whether the external capture animation has completed.
    pub is_player_capture_completed: bool,
    /// Whether a new capture attack may start (no capture is already
    /// under way).
    pub can_capture_attack: bool,
}

impl WorldInput {
    /// All positions within the coordinate range.
    pub open spec fn wf(&self) -> bool {
        &&& in_coord_range(self.player_pos)
        &&& (self.dual_player_pos matches Some(p) ==> in_coord_range(p))
    }
}

/// The up-to-three neighbor slots an Owl recruits troops from: left
/// and right on the row below, then the slot above, kept on the grid.
pub open spec fn spec_neighbor_slots(fi: FormationIndex) -> Seq<FormationIndex> {
    (if fi.0 >= 1 && fi.1 <= 254 {
        seq![FormationIndex((fi.0 - 1) as u8, (fi.1 + 1) as u8)]
    } else {
        Seq::empty()
    }) + (if fi.0 <= 254 && fi.1 <= 254 {
        seq![FormationIndex((fi.0 + 1) as u8, (fi.1 + 1) as u8)]
    } else {
        Seq::empty()
    }) + (if fi.1 >= 1 {
        seq![FormationIndex(fi.0, (fi.1 - 1) as u8)]
    } else {
        Seq::empty()
    })
}

/// Builds the recruiting slots of `fi`.
fn neighbor_slots(fi: &FormationIndex) -> (r: Vec<FormationIndex>)
    ensures
        r@ == spec_neighbor_slots(*fi),
        r@.len() <= 3,
{
    let mut out: Vec<FormationIndex> = Vec::new();
    if fi.0 >= 1 && fi.1 <= 254 {
        out.push(FormationIndex(fi.0 - 1, fi.1 + 1));
    }
    if fi.0 <= 254 && fi.1 <= 254 {
        out.push(FormationIndex(fi.0 + 1, fi.1 + 1));
    }
    if fi.1 >= 1 {
        out.push(FormationIndex(fi.0, fi.1 - 1));
    }
    proof {
        assert(out@ =~= spec_neighbor_slots(*fi));
    }
    out
}

/// One velocity component of a shot: the coordinate difference scaled
/// by `speed / dist`, magnitude rounded down.
pub open spec fn spec_scale_component(d: int, speed: int, dist: int) -> int {
    if d >= 0 {
        d * speed / dist
    } else {
        -((-d) * speed / dist)
    }
}

/// True when `v` is the shot velocity from `from` toward `to` at
/// `speed`: the difference scaled by the rounded-down distance.
pub open spec fn spec_is_shot_velocity(from: Vec2I, to: Vec2I, speed: int, v: Vec2I) -> bool {
    let dx = to.x - from.x;
    let dy = to.y - from.y;
    exists|dist: int|
        {
            &&& dist >= 1
            &&& #[trigger] (dist * dist) <= dx * dx + dy * dy
            &&& (dist + 1) * (dist + 1) > dx * dx + dy * dy
            &&& v.x == spec_scale_component(dx, speed, dist)
            &&& v.y == spec_scale_component(dy, speed, dist)
        }
}

/// Velocity of a shot from `from` toward `to` with the given speed:
/// the difference scaled so its length is close to `speed` (integer
/// square root; each component's magnitude stays at most `speed`).
/// `None` when the two points coincide.
fn shot_velocity(from: &Vec2I, to: &Vec2I, speed: i32) -> (r: Option<Vec2I>)
    requires
        in_coord_range(*from),
        in_coord_range(*to),
        1 <= speed <= SPEED_LIMIT,
    ensures
        r is None <==> *from == *to,
        r matches Some(v) ==> spec_is_shot_velocity(*from, *to, speed as int, v) && -SPEED_LIMIT
            <= v.x <= SPEED_LIMIT && -SPEED_LIMIT <= v.y <= SPEED_LIMIT,
{
    let dx = (to.x - from.x) as i64;
    let dy = (to.y - from.y) as i64;
    proof {
        assert(dx * dx <= 0x4000000i64 * 0x4000000 && dx * dx >= 0) by (nonlinear_arith)
            requires
                -0x4000000 <= dx <= 0x4000000,
        ;
        assert(dy * dy <= 0x4000000i64 * 0x4000000 && dy * dy >= 0) by (nonlinear_arith)
            requires
                -0x4000000 <= dy <= 0x4000000,
        ;
    }
    let dist = crate::math::isqrt(dx * dx + dy * dy);
    if dist <= 0 {
        proof {
            assert((dist + 1) * (dist + 1) == 1) by (nonlinear_arith)
                requires
                    dist == 0i64,
            ;
            assert(dx * dx + dy * dy == 0);
            assert(dx == 0 && dy == 0) by (nonlinear_arith)
                requires
                    dx * dx + dy * dy == 0,
            ;
        }
        return None;
    }
    proof {
        assert(!(dx == 0 && dy == 0)) by {
            if dx == 0 && dy == 0 {
                assert(dx * dx + dy * dy == 0) by (nonlinear_arith)
                    requires
                        dx == 0i64 && dy == 0i64,
                ;
                assert(dist * dist <= 0);
                assert(false) by (nonlinear_arith)
                    requires
                        dist >= 1,
                        dist * dist <= 0i64,
                ;
            }
        }
    }
    proof {
        assert(dist <= 0x8000000i64) by (nonlinear_arith)
            requires
                dist >= 0,
                dist * dist <= 0x20000000000000i64,
        ;
        lemma_component_le_dist(dx as int, dy as int, dist as int);
        lemma_component_le_dist(dy as int, dx as int, dist as int);
    }
    let vx = scale_to_len(dx, speed as i64, dist);
    let vy = scale_to_len(dy, speed as i64, dist);
    Some(Vec2I::new(vx as i32, vy as i32))
}

/// A leg of a right triangle is no longer than the rounded-down length
/// of its hypotenuse, as integers.
proof fn lemma_component_le_dist(a: int, b: int, dist: int)
    requires
        dist >= 0,
        dist * dist <= a * a + b * b,
        (dist + 1) * (dist + 1) > a * a + b * b,
    ensures
        -dist <= a <= dist,
{
    if a > dist || a < -dist {
        assert(a * a >= (dist + 1) * (dist + 1)) by (nonlinear_arith)
            requires
                a > dist || a < -dist,
                dist >= 0,
        ;
        assert(b * b >= 0) by (nonlinear_arith);
    }
}

/// Scales one component: `d * speed / dist`, magnitude at most `speed`.
fn scale_to_len(d: i64, speed: i64, dist: i64) -> (r: i64)
    requires
        1 <= dist <= 0x8000000,
        -dist <= d <= dist,
        1 <= speed <= SPEED_LIMIT,
    ensures
        r == spec_scale_component(d as int, speed as int, dist as int),
        -speed <= r <= speed,
{
    let m: i64 = if d >= 0 {
        d
    } else {
        -d
    };
    proof {
        assert(m * speed <= dist * speed && m * speed >= 0) by (nonlinear_arith)
            requires
                0 <= m <= dist,
                speed >= 0,
        ;
        assert(dist * speed <= 0x8000000i64 * 4096) by (nonlinear_arith)
            requires
                0 <= dist <= 0x8000000i64,
                0 <= speed <= 4096,
        ;
        vstd::arithmetic::div_mod::lemma_div_multiples_vanish(speed as int, dist as int);
        assert(speed * dist == dist * speed) by (nonlinear_arith);
        vstd::arithmetic::div_mod::lemma_div_is_ordered(
            (m * speed) as int,
            (dist * speed) as int,
            dist as int,
        );
    }
    let v = (m * speed) / dist;
    if d >= 0 {
        v
    } else {
        -v
    }
}

/// What one arena slot becomes when a leader's delta propagates: a
/// referenced troop moves by exactly the delta (and takes the handed
/// angle); every other slot is untouched.
pub open spec fn spec_propagated(
    slot: Option<Enemy>,
    troops: Seq<Option<FormationIndex>>,
    delta: Vec2I,
    angle_opt: Option<i32>,
) -> Option<Enemy> {
    match slot {
        Some(e) => if spec_in_troops(troops, e.formation_index) {
            Some(
                Enemy {
                    pos: spec_troop_moved_pos(e.pos, delta),
                    angle: match angle_opt {
                        Some(a) => a,
                        None => e.angle,
                    },
                    ..e
                },
            )
        } else {
            Some(e)
        },
        None => None,
    }
}

/// Membership test over a troop-reference array.
fn in_troops(troops: &Vec<Option<FormationIndex>>, fi: &FormationIndex) -> (r: bool)
    ensures
        r == spec_in_troops(troops@, *fi),
{
    let mut k: usize = 0;
    while k < troops.len()
        invariant
            k <= troops@.len(),
            forall|t: int| 0 <= t < k ==> troops@[t] != Some(*fi),
        decreases troops@.len() - k,
    {
        if let Some(t) = troops[k] {
            if t.0 == fi.0 && t.1 == fi.1 {
                return true;
            }
        }
        k = k + 1;
    }
    false
}

/// The enemy arena with the shot pool.
pub struct EnemyManager {
    /// Enemy slots; disappeared enemies are freed after their tick.
    pub enemies: Vec<Option<Enemy>>,
    /// In-flight enemy shots.
    pub shots: Vec<Option<EneShot>>,
    /// Random source for assault targets and shot spread.
    pub rng: GameRng,
    /// Remaining ticks of the stage-wide shot pause.
    pub shot_pause_count: u32,
    /// Number of live enemies (spawned and not yet removed).
    pub alive_enemy_count: u32,
}

impl EnemyManager {
    /// Fixed pool sizes and every held object well-formed.
    pub open spec fn wf(&self) -> bool {
        &&& self.enemies@.len() == MAX_ENEMY_COUNT
        &&& self.shots@.len() == MAX_SHOT_COUNT
        &&& (forall|i: int| 0 <= i < self.enemies@.len() ==> (#[trigger] self.enemies@[i] matches
            Some(e) ==> e.wf()))
        &&& (forall|i: int| 0 <= i < self.shots@.len() ==> (#[trigger] self.shots@[i] matches Some(
            s,
        ) ==> s.wf()))
    }

    /// Builds an empty arena.
    pub fn new() -> (r: EnemyManager)
        ensures
            r.wf(),
            forall|i: int| 0 <= i < r.enemies@.len() ==> #[trigger] r.enemies@[i] is None,
            forall|i: int| 0 <= i < r.shots@.len() ==> #[trigger] r.shots@[i] is None,
            r.alive_enemy_count == 0,
            r.shot_pause_count == 0,
    {
        let mut enemies: Vec<Option<Enemy>> = Vec::new();
        while enemies.len() < MAX_ENEMY_COUNT
            invariant
                enemies@.len() <= MAX_ENEMY_COUNT,
                forall|i: int| 0 <= i < enemies@.len() ==> #[trigger] enemies@[i] is None,
            decreases MAX_ENEMY_COUNT - enemies@.len(),
        {
            enemies.push(None);
        }
        let mut shots: Vec<Option<EneShot>> = Vec::new();
        while shots.len() < MAX_SHOT_COUNT
            invariant
                shots@.len() <= MAX_SHOT_COUNT,
                forall|i: int| 0 <= i < shots@.len() ==> #[trigger] shots@[i] is None,
            decreases MAX_SHOT_COUNT - shots@.len(),
        {
            shots.push(None);
        }
        EnemyManager {
            enemies,
            shots,
            rng: GameRng::new(),
            shot_pause_count: 0,
            alive_enemy_count: 0,
        }
    }

    /// Clears the arena for the next stage.
    pub fn start_next_stage(&mut self)
        requires
            old(self).wf(),
        ensures
            final(self).wf(),
            forall|i: int| 0 <= i < final(self).enemies@.len() ==> #[trigger] final(self).enemies@[i] is None,
            forall|i: int| 0 <= i < final(self).shots@.len() ==> #[trigger] final(self).shots@[i]
                is None,
            final(self).alive_enemy_count == 0,
    {
        let mut i: usize = 0;
        while i < self.enemies.len()
            invariant
                old(self).wf(),
                self.enemies@.len() == MAX_ENEMY_COUNT,
                self.shots@.len() == MAX_SHOT_COUNT,
                i <= self.enemies@.len(),
                forall|j: int| 0 <= j < i ==> #[trigger] self.enemies@[j] is None,
                forall|j: int| 0 <= j < self.shots@.len() ==> (#[trigger] self.shots@[j] matches
                    Some(s) ==> s.wf()),
            decreases self.enemies@.len() - i,
        {
            self.enemies[i] = None;
            i = i + 1;
        }
        let mut j: usize = 0;
        while j < self.shots.len()
            invariant
                self.enemies@.len() == MAX_ENEMY_COUNT,
                self.shots@.len() == MAX_SHOT_COUNT,
                j <= self.shots@.len(),
                forall|k: int| 0 <= k < self.enemies@.len() ==> #[trigger] self.enemies@[k]
                    is None,
                forall|k: int| 0 <= k < j ==> #[trigger] self.shots@[k] is None,
            decreases self.shots@.len() - j,
        {
            self.shots[j] = None;
            j = j + 1;
        }
        self.alive_enemy_count = 0;
    }

    /// True when no enemy slot is occupied.
    pub fn all_destroyed(&self) -> (r: bool)
        requires
            self.wf(),
        ensures
            r == forall|i: int| 0 <= i < self.enemies@.len() ==> #[trigger] self.enemies@[i]
                is None,
    {
        let mut i: usize = 0;
        while i < self.enemies.len()
            invariant
                self.wf(),
                i <= self.enemies@.len(),
                forall|j: int| 0 <= j < i ==> #[trigger] self.enemies@[j] is None,
            decreases self.enemies@.len() - i,
        {
            if self.enemies[i].is_some() {
                return false;
            }
            i = i + 1;
        }
        true
    }

    /// True when every present enemy sits in formation (or follows a
    /// leader): nothing flies independently.
    pub fn is_stationary(&self) -> (r: bool)
        requires
            self.wf(),
        ensures
            r == forall|i: int| 0 <= i < self.enemies@.len() ==> (#[trigger] self.enemies@[i]
                matches Some(e) ==> e.state is Formation || e.state is Troop),
    {
        let mut i: usize = 0;
        while i < self.enemies.len()
            invariant
                self.wf(),
                i <= self.enemies@.len(),
                forall|j: int| 0 <= j < i ==> (#[trigger] self.enemies@[j] matches Some(e)
                    ==> e.state is Formation || e.state is Troop),
            decreases self.enemies@.len() - i,
        {
            match &self.enemies[i] {
                Some(e) => {
                    let st = e.state();
                    if !(matches!(st, EnemyState::Formation) || matches!(st, EnemyState::Troop)) {
                        return false;
                    }
                },
                None => {},
            }
            i = i + 1;
        }
        true
    }

    /// Index of the enemy occupying `fi`, if any.
    pub fn find_enemy_index(&self, fi: &FormationIndex) -> (r: Option<usize>)
        requires
            self.wf(),
        ensures
            r matches Some(i) ==> i < self.enemies@.len() && (self.enemies@[i as int] matches
            Some(e) && e.formation_index == *fi) && (forall|j: int|
                0 <= j < i ==> !(#[trigger] self.enemies@[j] matches Some(e2)
                    && e2.formation_index == *fi)),
            r is None ==> forall|j: int| 0 <= j < self.enemies@.len()
                ==> !(#[trigger] self.enemies@[j] matches Some(e) && e.formation_index == *fi),
    {
        let mut i: usize = 0;
        while i < self.enemies.len()
            invariant
                self.wf(),
                i <= self.enemies@.len(),
                forall|j: int| 0 <= j < i ==> !(#[trigger] self.enemies@[j] matches Some(e)
                    && e.formation_index == *fi),
            decreases self.enemies@.len() - i,
        {
            match &self.enemies[i] {
                Some(e) => {
                    if e.formation_index.0 == fi.0 && e.formation_index.1 == fi.1 {
                        return Some(i);
                    }
                },
                None => {},
            }
            i = i + 1;
        }
        None
    }

    /// The enemy occupying `fi`, if any.
    pub fn get_enemy_at(&self, fi: &FormationIndex) -> (r: Option<&Enemy>)
        requires
            self.wf(),
        ensures
            r matches Some(e) ==> e.formation_index == *fi && e.wf() && exists|j: int|
                0 <= j < self.enemies@.len() && #[trigger] self.enemies@[j] == Some(*e),
            r is None ==> forall|j: int| 0 <= j < self.enemies@.len()
                ==> !(#[trigger] self.enemies@[j] matches Some(e) && e.formation_index == *fi),
    {
        match self.find_enemy_index(fi) {
            Some(i) => self.enemies[i].as_ref(),
            None => None,
        }
    }

    /// Places a new enemy in the first free slot and counts it alive;
    /// a full arena drops the spawn silently.
    pub fn spawn(&mut self, enemy: Enemy) -> (r: bool)
        requires
            old(self).wf(),
            enemy.wf(),
        ensures
            final(self).wf(),
            *final(self) == (EnemyManager {
                enemies: final(self).enemies,
                alive_enemy_count: final(self).alive_enemy_count,
                ..*old(self)
            }),
            final(self).enemies@.len() == old(self).enemies@.len(),
            r == exists|i: int|
                0 <= i < old(self).enemies@.len() && #[trigger] old(self).enemies@[i] is None,
            !r ==> *final(self) == *old(self),
            r ==> exists|i: int|
                {
                    &&& 0 <= i < old(self).enemies@.len()
                    &&& #[trigger] old(self).enemies@[i] is None
                    &&& (forall|j: int| 0 <= j < i ==> !(#[trigger] old(self).enemies@[j]
                        is None))
                    &&& final(self).enemies@ == old(self).enemies@.update(i, Some(enemy))
                },
            r ==> final(self).alive_enemy_count == if old(self).alive_enemy_count
                < 0xffff_ffff {
                old(self).alive_enemy_count + 1
            } else {
                old(self).alive_enemy_count as int
            },
    {
        let mut i: usize = 0;
        while i < self.enemies.len()
            invariant
                old(self).wf(),
                enemy.wf(),
                self == old(self),
                i <= self.enemies@.len(),
                forall|j: int| 0 <= j < i ==> !(#[trigger] self.enemies@[j] is None),
            decreases self.enemies@.len() - i,
        {
            if self.enemies[i].is_none() {
                self.enemies[i] = Some(enemy);
                if self.alive_enemy_count < 0xffff_ffff {
                    self.alive_enemy_count = self.alive_enemy_count + 1;
                }
                return true;
            }
            i = i + 1;
        }
        false
    }

    /// Spawns the captured player fighter as a troop at `pos`,
    /// registered under `fi`.
    pub fn spawn_captured_fighter(&mut self, pos: &Vec2I, fi: &FormationIndex) -> (r: bool)
        requires
            old(self).wf(),
            in_coord_range(*pos),
        ensures
            final(self).wf(),
    {
        let mut e = Enemy::new(EnemyType::CapturedFighter, pos, 0, 0);
        e.formation_index = *fi;
        e.set_to_troop();
        self.spawn(e)
    }

    /// Frees the slot registered under `fi` and uncounts it; reports
    /// whether one was.
    pub fn remove_enemy(&mut self, fi: &FormationIndex) -> (r: bool)
        requires
            old(self).wf(),
        ensures
            final(self).wf(),
            *final(self) == (EnemyManager {
                enemies: final(self).enemies,
                alive_enemy_count: final(self).alive_enemy_count,
                ..*old(self)
            }),
            r == exists|j: int|
                0 <= j < old(self).enemies@.len() && (#[trigger] old(self).enemies@[j] matches
                Some(e) && e.formation_index == *fi),
            !r ==> *final(self) == *old(self),
            r ==> exists|j: int|
                {
                    &&& 0 <= j < old(self).enemies@.len()
                    &&& (#[trigger] old(self).enemies@[j] matches Some(e) && e.formation_index
                        == *fi)
                    &&& final(self).enemies@ == old(self).enemies@.update(j, None)
                },
            r ==> final(self).alive_enemy_count == if old(self).alive_enemy_count > 0 {
                old(self).alive_enemy_count - 1
            } else {
                0int
            },
    {
        match self.find_enemy_index(fi) {
            Some(i) => {
                self.enemies[i] = None;
                if self.alive_enemy_count > 0 {
                    self.alive_enemy_count = self.alive_enemy_count - 1;
                }
                true
            },
            None => false,
        }
    }

    /// Drops troop references whose enemy no longer exists, arena-wide.
    /// Stale references are a normal case; pruning them each tick keeps
    /// the escort count and the troop scans honest.
    fn prune_troop_refs(&mut self)
        requires
            old(self).wf(),
        ensures
            final(self).wf(),
            *final(self) == (EnemyManager { enemies: final(self).enemies, ..*old(self) }),
            final(self).enemies@.len() == old(self).enemies@.len(),
            // pruning only rewrites troop references: occupancy and
            // every other field stay put
            forall|j: int| 0 <= j < old(self).enemies@.len() ==> (#[trigger] final(self).enemies@[j] is Some <==> old(self).enemies@[j] is Some),
            forall|j: int| 0 <= j < old(self).enemies@.len() ==> (old(self).enemies@[j]
                is Some ==> #[trigger] final(self).enemies@[j].unwrap() == (Enemy {
                troops: final(self).enemies@[j].unwrap().troops,
                ..old(self).enemies@[j].unwrap()
            })),
    {
        let mut i: usize = 0;
        while i < self.enemies.len()
            invariant
                self.wf(),
                *self == (EnemyManager { enemies: self.enemies, ..*old(self) }),
                self.enemies@.len() == MAX_ENEMY_COUNT,
                old(self).enemies@.len() == MAX_ENEMY_COUNT,
                i <= self.enemies@.len(),
                forall|j: int| 0 <= j < self.enemies@.len() ==> (#[trigger] self.enemies@[j]
                    is Some <==> old(self).enemies@[j] is Some),
                forall|j: int| 0 <= j < self.enemies@.len() ==> (#[trigger] old(self).enemies@[j]
                    is Some ==> self.enemies@[j].unwrap() == (Enemy {
                    troops: self.enemies@[j].unwrap().troops,
                    ..old(self).enemies@[j].unwrap()
                })),
            decreases self.enemies@.len() - i,
        {
            let mut k: usize = 0;
            while k < MAX_TROOPS
                invariant
                    self.wf(),
                    *self == (EnemyManager { enemies: self.enemies, ..*old(self) }),
                    self.enemies@.len() == MAX_ENEMY_COUNT,
                    old(self).enemies@.len() == MAX_ENEMY_COUNT,
                    i < self.enemies@.len(),
                    k <= MAX_TROOPS,
                    forall|j: int| 0 <= j < self.enemies@.len() ==> (#[trigger] self.enemies@[j]
                        is Some <==> old(self).enemies@[j] is Some),
                    forall|j: int| 0 <= j < self.enemies@.len() ==> (#[trigger] old(self).enemies@[j] is Some ==> self.enemies@[j].unwrap() == (Enemy {
                        troops: self.enemies@[j].unwrap().troops,
                        ..old(self).enemies@[j].unwrap()
                    })),
                decreases MAX_TROOPS - k,
            {
                let mut stale = false;
                match &self.enemies[i] {
                    Some(e) => {
                        if k < e.troops.len() {
                            if let Some(fi) = e.troops[k] {
                                if self.find_enemy_index(&fi).is_none() {
                                    stale = true;
                                }
                            }
                        }
                    },
                    None => {},
                }
                if stale {
                    let slot = &mut self.enemies[i];
                    let e_opt = slot.take();
                    if let Some(mut e) = e_opt {
                        e.prune_troop(k);
                        self.enemies[i] = Some(e);
                    }
                }
                k = k + 1;
            }
            i = i + 1;
        }
    }

    /// Moves every troop of a leader by the leader's tick delta, and
    /// copies the leader's angle down when asked: each live referenced
    /// troop moves by exactly `delta` in the same tick, and nothing
    /// else in the arena changes.
    pub fn propagate_to_troops(
        &mut self,
        troops: &Vec<Option<FormationIndex>>,
        delta: &Vec2I,
        angle_opt: Option<i32>,
    )
        requires
            old(self).wf(),
            -COORD_LIMIT * 2 <= delta.x <= COORD_LIMIT * 2,
            -COORD_LIMIT * 2 <= delta.y <= COORD_LIMIT * 2,
            (angle_opt matches Some(a) ==> -HALF_TURN <= a <= HALF_TURN),
        ensures
            final(self).wf(),
            *final(self) == (EnemyManager { enemies: final(self).enemies, ..*old(self) }),
            final(self).enemies@.len() == old(self).enemies@.len(),
            forall|j: int| 0 <= j < old(self).enemies@.len() ==> (old(self).enemies@[j] is None ==> #[trigger] final(self).enemies@[j] is None),
            forall|j: int| 0 <= j < old(self).enemies@.len() ==> (old(self).enemies@[j] matches Some(e) ==> (#[trigger] final(self).enemies@[j] matches Some(e2) && (e.disappeared ==> e2.disappeared))),
            forall|j: int| 0 <= j < old(self).enemies@.len() ==> final(self).enemies@[j]
                == spec_propagated(#[trigger] old(self).enemies@[j], troops@, *delta, angle_opt),
    {
        let mut j: usize = 0;
        while j < self.enemies.len()
            invariant
                old(self).wf(),
                self.wf(),
                -COORD_LIMIT * 2 <= delta.x <= COORD_LIMIT * 2,
                -COORD_LIMIT * 2 <= delta.y <= COORD_LIMIT * 2,
                (angle_opt matches Some(a) ==> -HALF_TURN <= a <= HALF_TURN),
                *self == (EnemyManager { enemies: self.enemies, ..*old(self) }),
                self.enemies@.len() == old(self).enemies@.len(),
                j <= self.enemies@.len(),
                forall|t: int| 0 <= t < j ==> self.enemies@[t] == spec_propagated(
                    #[trigger] old(self).enemies@[t],
                    troops@,
                    *delta,
                    angle_opt,
                ),
                forall|t: int| j <= t < self.enemies@.len() ==> self.enemies@[t]
                    == #[trigger] old(self).enemies@[t],
            decreases self.enemies@.len() - j,
        {
            let mut is_troop = false;
            match &self.enemies[j] {
                Some(e) => {
                    is_troop = in_troops(troops, &e.formation_index);
                },
                None => {},
            }
            if is_troop {
                let slot = &mut self.enemies[j];
                let e_opt = slot.take();
                if let Some(mut e) = e_opt {
                    e.update_troop(delta, angle_opt);
                    self.enemies[j] = Some(e);
                }
            }
            j = j + 1;
        }
    }

    /// Whether some troop reference points at a live non-captured
    /// enemy (the ghost condition of the Owl).
    fn troops_have_live(&self, troops: &Vec<Option<FormationIndex>>) -> (r: bool)
        requires
            self.wf(),
        ensures
            r == spec_troops_have_live(self.enemies@, troops@),
    {
        let mut k: usize = 0;
        while k < troops.len()
            invariant
                self.wf(),
                k <= troops@.len(),
                forall|k2: int, j2: int|
                    #![trigger troops@[k2], self.enemies@[j2]]
                    0 <= k2 < k && 0 <= j2 < self.enemies@.len() ==> !(troops@[k2] is Some
                        && self.enemies@[j2] is Some && self.enemies@[j2].unwrap().formation_index
                        == troops@[k2].unwrap() && !(self.enemies@[j2].unwrap().enemy_type
                        is CapturedFighter)),
            decreases troops@.len() - k,
        {
            if let Some(fi) = troops[k] {
                let mut j: usize = 0;
                while j < self.enemies.len()
                    invariant
                        self.wf(),
                        k < troops@.len(),
                        troops@[k as int] == Some(fi),
                        j <= self.enemies@.len(),
                        forall|j2: int| 0 <= j2 < j ==> !(#[trigger] self.enemies@[j2] is Some
                            && self.enemies@[j2].unwrap().formation_index == fi && !(
                        self.enemies@[j2].unwrap().enemy_type is CapturedFighter)),
                    decreases self.enemies@.len() - j,
                {
                    match &self.enemies[j] {
                        Some(e) => {
                            if e.formation_index.0 == fi.0 && e.formation_index.1 == fi.1
                                && !matches!(e.enemy_type, EnemyType::CapturedFighter) {
                                return true;
                            }
                        },
                        None => {},
                    }
                    j = j + 1;
                }
            }
            k = k + 1;
        }
        false
    }

    /// Copies an enemy's troop-reference array.
    fn copy_troops(e: &Enemy) -> (r: Vec<Option<FormationIndex>>)
        requires
            e.wf(),
        ensures
            r@ == e.troops@,
    {
        let mut out: Vec<Option<FormationIndex>> = Vec::new();
        let mut k: usize = 0;
        while k < e.troops.len()
            invariant
                e.wf(),
                k <= e.troops@.len(),
                out@ == e.troops@.subrange(0, k as int),
            decreases e.troops@.len() - k,
        {
            out.push(e.troops[k]);
            proof {
                assert(out@ =~= e.troops@.subrange(0, k + 1));
            }
            k = k + 1;
        }
        proof {
            assert(e.troops@.subrange(0, e.troops@.len() as int) =~= e.troops@);
        }
        out
    }

    /// Gathers everything the enemy in slot `i` reads from the world
    /// this tick.
    fn build_context(
        &self,
        i: usize,
        formation: &Formation,
        world: &WorldInput,
        is_rush: bool,
        stage_no: u16,
    ) -> (r: UpdateContext)
        requires
            self.wf(),
            formation.wf(),
            world.wf(),
            i < self.enemies@.len(),
            self.enemies@[i as int] is Some,
        ensures
            r.wf(),
            r.is_rush == is_rush,
            r.stage_no == stage_no,
            r.player_pos == world.player_pos,
            r.dual_player_pos == world.dual_player_pos,
            r.can_player_capture == world.can_player_capture,
            r.player_capture_completed == world.is_player_capture_completed,
            self.enemies@[i as int] matches Some(e) ==> r.formation_pos
                == crate::formation::spec_formation_pos(*formation, e.formation_index),
    {
        let (fi, troops) = match &self.enemies[i] {
            Some(e) => (e.formation_index, Self::copy_troops(e)),
            None => (FormationIndex(255, 255), Vec::new()),
        };
        let formation_pos = formation.pos(&fi);
        let has_live_troops = self.troops_have_live(&troops);
        let mut troop_positions: Vec<Vec2I> = Vec::new();
        let mut k: usize = 0;
        while k < troops.len()
            invariant
                self.wf(),
                k <= troops@.len(),
                forall|t: int| 0 <= t < troop_positions@.len() ==> in_coord_range(
                    #[trigger] troop_positions@[t],
                ),
            decreases troops@.len() - k,
        {
            if let Some(tfi) = troops[k] {
                match self.get_enemy_at(&tfi) {
                    Some(e) => {
                        let p = *e.raw_pos();
                        troop_positions.push(p);
                    },
                    None => {},
                }
            }
            k = k + 1;
        }
        let captured_fighter_y: Option<i32> = if fi.1 >= 1 {
            match self.get_enemy_at(&FormationIndex(fi.0, fi.1 - 1)) {
                Some(e) => Some(e.raw_pos().y),
                None => None,
            }
        } else {
            None
        };
        UpdateContext {
            formation_pos,
            player_pos: world.player_pos,
            dual_player_pos: world.dual_player_pos,
            can_player_capture: world.can_player_capture,
            player_capture_completed: world.is_player_capture_completed,
            is_rush,
            stage_no,
            has_live_troops,
            troop_positions,
            captured_fighter_y,
        }
    }

    /// Returns the enemy in slot `fi` to independent Formation state
    /// (a released troop); a missing reference is skipped.
    fn set_slot_to_formation(&mut self, fi: &FormationIndex)
        requires
            old(self).wf(),
        ensures
            final(self).wf(),
            *final(self) == (EnemyManager { enemies: final(self).enemies, ..*old(self) }),
            final(self).enemies@.len() == old(self).enemies@.len(),
            forall|j: int| 0 <= j < old(self).enemies@.len() ==> (old(self).enemies@[j] is None ==> #[trigger] final(self).enemies@[j] is None),
            forall|j: int| 0 <= j < old(self).enemies@.len() ==> (old(self).enemies@[j] matches Some(e) ==> (#[trigger] final(self).enemies@[j] matches Some(e2) && (e.disappeared ==> e2.disappeared))),
            (exists|j: int|
                {
                    &&& 0 <= j < old(self).enemies@.len()
                    &&& (#[trigger] old(self).enemies@[j] matches Some(e) && e.formation_index
                        == *fi)
                    &&& final(self).enemies@ == old(self).enemies@.update(
                        j,
                        Some(spec_settled(old(self).enemies@[j].unwrap())),
                    )
                }) || ((forall|j: int|
                0 <= j < old(self).enemies@.len() ==> !(#[trigger] old(self).enemies@[j] matches
                Some(e) && e.formation_index == *fi)) && *final(self) == *old(self)),
    {
        match self.find_enemy_index(fi) {
            Some(i) => {
                let slot = &mut self.enemies[i];
                let e_opt = slot.take();
                if let Some(mut e) = e_opt {
                    e.set_to_formation();
                    self.enemies[i] = Some(e);
                }
            },
            None => {},
        }
    }

    /// Writes the captured fighter's vertical position during the
    /// capture push-up; a missing reference is skipped.
    fn set_slot_y(&mut self, fi: &FormationIndex, y: i32)
        requires
            old(self).wf(),
            -COORD_LIMIT * 2 <= y <= COORD_LIMIT * 2,
        ensures
            final(self).wf(),
            *final(self) == (EnemyManager { enemies: final(self).enemies, ..*old(self) }),
            final(self).enemies@.len() == old(self).enemies@.len(),
            forall|j: int| 0 <= j < old(self).enemies@.len() ==> (old(self).enemies@[j] is None ==> #[trigger] final(self).enemies@[j] is None),
            forall|j: int| 0 <= j < old(self).enemies@.len() ==> (old(self).enemies@[j] matches Some(e) ==> (#[trigger] final(self).enemies@[j] matches Some(e2) && (e.disappeared ==> e2.disappeared))),
            (exists|j: int|
                {
                    &&& 0 <= j < old(self).enemies@.len()
                    &&& (#[trigger] old(self).enemies@[j] matches Some(e) && e.formation_index
                        == *fi)
                    &&& final(self).enemies@ == old(self).enemies@.update(
                        j,
                        Some(
                            Enemy {
                                pos: Vec2I {
                                    x: old(self).enemies@[j].unwrap().pos.x,
                                    y: crate::math::spec_clamp(
                                        y as int,
                                        -COORD_LIMIT as int,
                                        COORD_LIMIT as int,
                                    ) as i32,
                                },
                                ..old(self).enemies@[j].unwrap()
                            },
                        ),
                    )
                }) || ((forall|j: int|
                0 <= j < old(self).enemies@.len() ==> !(#[trigger] old(self).enemies@[j] matches
                Some(e) && e.formation_index == *fi)) && *final(self) == *old(self)),
    {
        match self.find_enemy_index(fi) {
            Some(i) => {
                let slot = &mut self.enemies[i];
                let e_opt = slot.take();
                if let Some(mut e) = e_opt {
                    let cy = crate::math::clamp(y, -COORD_LIMIT, COORD_LIMIT);
                    let np = Vec2I::new(e.raw_pos().x, cy);
                    e.set_pos(&np);
                    self.enemies[i] = Some(e);
                }
            },
            None => {},
        }
    }

    /// The per-tick enemy pass: stale troop references are pruned,
    /// then every enemy updates in slot order against a fresh context,
    /// and its results (troop motion, released troops, the push-up
    /// write) are applied before the next slot runs.  Enemies marked
    /// disappeared free their slot.
    pub fn update_enemies(
        &mut self,
        formation: &Formation,
        world: &WorldInput,
        is_rush: bool,
        stage_no: u16,
        queue: &mut EventQueue,
    )
        requires
            old(self).wf(),
            formation.wf(),
            world.wf(),
        ensures
            final(self).wf(),
            final(self).enemies@.len() == old(self).enemies@.len(),
            // the pass touches only the arena, the random source and
            // the alive count; the shot pool and pause are untouched
            *final(self) == (EnemyManager {
                enemies: final(self).enemies,
                rng: final(self).rng,
                alive_enemy_count: final(self).alive_enemy_count,
                ..*old(self)
            }),
            // empty slots stay empty, enemies marked disappeared are
            // freed, and the alive count never grows
            forall|j: int| 0 <= j < old(self).enemies@.len() ==> (#[trigger] old(self).enemies@[j]
                is None ==> final(self).enemies@[j] is None),
            forall|j: int| 0 <= j < old(self).enemies@.len() ==> (#[trigger] old(self).enemies@[j]
                matches Some(e) ==> e.disappeared ==> final(self).enemies@[j] is None),
            final(self).alive_enemy_count <= old(self).alive_enemy_count,
    {
        self.prune_troop_refs();
        let mut i: usize = 0;
        while i < self.enemies.len()
            invariant
                self.wf(),
                formation.wf(),
                world.wf(),
                self.enemies@.len() == MAX_ENEMY_COUNT,
                old(self).enemies@.len() == MAX_ENEMY_COUNT,
                *self == (EnemyManager {
                    enemies: self.enemies,
                    rng: self.rng,
                    alive_enemy_count: self.alive_enemy_count,
                    ..*old(self)
                }),
                self.alive_enemy_count <= old(self).alive_enemy_count,
                i <= self.enemies@.len(),
                forall|j: int| 0 <= j < MAX_ENEMY_COUNT ==> (#[trigger] old(self).enemies@[j]
                    is None ==> self.enemies@[j] is None),
                forall|j: int| 0 <= j < i ==> (#[trigger] old(self).enemies@[j] matches Some(e)
                    ==> e.disappeared ==> self.enemies@[j] is None),
                forall|j: int| i <= j < MAX_ENEMY_COUNT ==> (#[trigger] old(self).enemies@[j]
                    matches Some(e) ==> (self.enemies@[j] matches Some(e2) ==> (e.disappeared
                    ==> e2.disappeared))),
            decreases self.enemies@.len() - i,
        {
            if self.enemies[i].is_some() {
                let ctx = self.build_context(i, formation, world, is_rush, stage_no);
                let slot = &mut self.enemies[i];
                let e_opt = slot.take();
                if let Some(mut e) = e_opt {
                    let r = e.update(&ctx, &mut self.rng, queue);
                    let troops = Self::copy_troops(&e);
                    let cap_fi = e.captured_fighter_slot();
                    let disappeared = e.is_disappeared();
                    self.enemies[i] = Some(e);
                    self.propagate_to_troops(&troops, &r.pos_delta, r.troop_angle);
                    if let Some(ny) = r.set_troop_y {
                        self.set_slot_y(&cap_fi, ny);
                    }
                    proof {
                        assert forall|j: int|
                            0 <= j < MAX_ENEMY_COUNT && old(self).enemies@[j] is None implies
                            self.enemies@[j] is None by {}
                        assert forall|j: int|
                            0 <= j < i && old(self).enemies@[j] is Some && old(self).enemies@[j].unwrap().disappeared implies self.enemies@[j]
                            is None by {}
                        assert forall|j: int|
                            i < j < MAX_ENEMY_COUNT && old(self).enemies@[j] is Some
                                && self.enemies@[j] is Some && old(self).enemies@[j].unwrap().disappeared implies self.enemies@[j].unwrap().disappeared by {}
                    }
                    let mut k: usize = 0;
                    while k < r.released.len()
                        invariant
                            self.wf(),
                            self.enemies@.len() == MAX_ENEMY_COUNT,
                            old(self).enemies@.len() == MAX_ENEMY_COUNT,
                            *self == (EnemyManager {
                                enemies: self.enemies,
                                rng: self.rng,
                                alive_enemy_count: self.alive_enemy_count,
                                ..*old(self)
                            }),
                            self.alive_enemy_count <= old(self).alive_enemy_count,
                            i < MAX_ENEMY_COUNT,
                            k <= r.released@.len(),
                            disappeared ==> (self.enemies@[i as int] matches Some(e3)
                                && e3.disappeared),
                            forall|j: int| 0 <= j < MAX_ENEMY_COUNT ==> (#[trigger] old(self).enemies@[j] is None ==> self.enemies@[j] is None),
                            forall|j: int| 0 <= j < i ==> (#[trigger] old(self).enemies@[j]
                                matches Some(e) ==> e.disappeared ==> self.enemies@[j] is None),
                            forall|j: int| i < j < MAX_ENEMY_COUNT ==> (#[trigger] old(self).enemies@[j] matches Some(e) ==> (self.enemies@[j] matches Some(e2)
                                ==> (e.disappeared ==> e2.disappeared))),
                        decreases r.released@.len() - k,
                    {
                        let rfi = r.released[k];
                        self.set_slot_to_formation(&rfi);
                        k = k + 1;
                    }
                    if disappeared {
                        self.enemies[i] = None;
                        if self.alive_enemy_count > 0 {
                            self.alive_enemy_count = self.alive_enemy_count - 1;
                        }
                    }
                }
            }
            i = i + 1;
        }
    }

    /// Begins an attack run for the enemy settled in slot `fi`.  A
    /// normal Owl run first recruits up to three neighbors still in
    /// formation as troops; a capture run needs an Owl with a row
    /// above it and starts the capture protocol.  Returns whether an
    /// attack started.
    pub fn start_attack(
        &mut self,
        fi: &FormationIndex,
        capture_attack: bool,
        world: &WorldInput,
        queue: &mut EventQueue,
    ) -> (r: bool)
        requires
            old(self).wf(),
            world.wf(),
        ensures
            final(self).wf(),
            final(self).enemies@.len() == old(self).enemies@.len(),
            final(self).alive_enemy_count == old(self).alive_enemy_count,
    {
        let idx = match self.find_enemy_index(fi) {
            Some(i) => i,
            None => {
                return false;
            },
        };
        let (etype, in_formation, row) = match &self.enemies[idx] {
            Some(e) => (e.enemy_type, matches!(e.state, EnemyState::Formation), e.formation_index.1),
            None => {
                return false;
            },
        };
        if !in_formation {
            return false;
        }
        let capture = capture_attack && matches!(etype, EnemyType::Owl) && row >= 1;
        // a normal Owl run recruits neighbors in formation as troops
        let mut recruits: Vec<FormationIndex> = Vec::new();
        if matches!(etype, EnemyType::Owl) && !capture {
            let candidates = neighbor_slots(fi);
            let mut k: usize = 0;
            while k < candidates.len()
                invariant
                    self.wf(),
                    self == old(self),
                    k <= candidates@.len(),
                    recruits@.len() <= k,
                decreases candidates@.len() - k,
            {
                let cfi = candidates[k];
                match self.get_enemy_at(&cfi) {
                    Some(e) => {
                        if matches!(e.state(), EnemyState::Formation) {
                            recruits.push(cfi);
                        }
                    },
                    None => {},
                }
                k = k + 1;
            }
        }
        let slot = &mut self.enemies[idx];
        let e_opt = slot.take();
        if let Some(mut e) = e_opt {
            e.set_attack(capture, &world.player_pos, queue);
            let mut k: usize = 0;
            while k < recruits.len()
                invariant
                    e.wf(),
                    k <= recruits@.len(),
                decreases recruits@.len() - k,
            {
                let _ = e.add_troop(recruits[k]);
                k = k + 1;
            }
            self.enemies[idx] = Some(e);
        }
        let mut k: usize = 0;
        while k < recruits.len()
            invariant
                self.wf(),
                self.enemies@.len() == MAX_ENEMY_COUNT,
                self.alive_enemy_count == old(self).alive_enemy_count,
                k <= recruits@.len(),
            decreases recruits@.len() - k,
        {
            let rfi = recruits[k];
            match self.find_enemy_index(&rfi) {
                Some(j) => {
                    let slot = &mut self.enemies[j];
                    let e_opt = slot.take();
                    if let Some(mut t) = e_opt {
                        t.set_to_troop();
                        self.enemies[j] = Some(t);
                    }
                },
                None => {},
            }
            k = k + 1;
        }
        true
    }

    /// Tests `target` against every live enemy, damaging the first one
    /// hit.  Misses leave the arena untouched; a lethal hit pays the
    /// score and frees the slot (an Owl with live escorts lingers as a
    /// ghost); a dying Owl pauses enemy shooting stage-wide.
    #[verifier::rlimit(100)]
    pub fn check_collision(&mut self, target: &CollBox, power: u32, queue: &mut EventQueue) -> (
        r: CollisionResult)
        requires
            old(self).wf(),
            -0x1000_0000 <= target.top_left.x <= 0x1000_0000,
            -0x1000_0000 <= target.top_left.y <= 0x1000_0000,
            0 <= target.size.x <= 0x1000_0000,
            0 <= target.size.y <= 0x1000_0000,
        ensures
            final(self).wf(),
            final(self).enemies@.len() == old(self).enemies@.len(),
            r is NoHit ==> *final(self) == *old(self) && final(queue)@ == old(queue)@,
            r is NoHit ==> forall|j: int|
                0 <= j < old(self).enemies@.len() ==> (#[trigger] old(self).enemies@[j] matches
                Some(e) ==> e.life > 0 ==> !spec_boxes_overlap(spec_enemy_box(e), *target)),
            // a hit names the first live overlapping enemy in slot
            // order: its damage is applied, a kill frees the slot (an
            // Owl with live escorts lingers as a ghost instead), a
            // dying Owl pauses enemy shooting, and the death events are
            // queued
            r matches CollisionResult::Hit(p, destroyed) ==> exists|j: int|
                {
                    let e = old(self).enemies@[j].unwrap();
                    let lethal = e.life <= power;
                    &&& 0 <= j < old(self).enemies@.len()
                    &&& #[trigger] old(self).enemies@[j] is Some
                    &&& e.life > 0
                    &&& spec_boxes_overlap(spec_enemy_box(e), *target)
                    &&& (forall|i2: int| 0 <= i2 < j ==> (#[trigger] old(self).enemies@[i2]
                        matches Some(e2) ==> e2.life > 0 ==> !spec_boxes_overlap(
                        spec_enemy_box(e2),
                        *target,
                    )))
                    &&& p == (Vec2I {
                        x: crate::types::spec_round_coord(e.pos.x as int) as i32,
                        y: crate::types::spec_round_coord(e.pos.y as int) as i32,
                    })
                    &&& destroyed == (lethal && !(e.enemy_type is Owl && spec_troops_have_live(
                        old(self).enemies@,
                        e.troops@,
                    )))
                    &&& (destroyed ==> final(self).enemies@ == old(self).enemies@.update(j, None))
                    &&& (!destroyed && !lethal ==> final(self).enemies@ == old(self).enemies@.update(j, Some(Enemy { life: (e.life - power) as u32, ..e })))
                    &&& (!destroyed && lethal ==> final(self).enemies@[j] is Some && final(self).enemies@[j].unwrap().life == 0 && (forall|i2: int|
                        0 <= i2 < old(self).enemies@.len() && i2 != j ==> #[trigger] final(self).enemies@[i2] == old(self).enemies@[i2]))
                    &&& final(self).shot_pause_count == (if lethal && e.enemy_type is Owl {
                        OWL_DESTROY_SHOT_WAIT as int
                    } else {
                        old(self).shot_pause_count as int
                    })
                    &&& final(queue)@ == old(queue)@ + (if lethal {
                        spec_death_events(e, spec_calc_point(e))
                    } else {
                        Seq::<EventType>::empty()
                    })
                },
            r is Hit ==> final(self).enemies@.len() == old(self).enemies@.len() && *final(self)
                == (EnemyManager {
                enemies: final(self).enemies,
                alive_enemy_count: final(self).alive_enemy_count,
                shot_pause_count: final(self).shot_pause_count,
                ..*old(self)
            }),
    {
        let mut i: usize = 0;
        while i < self.enemies.len()
            invariant
                old(self).wf(),
                self == old(self),
                queue@ == old(queue)@,
                -0x1000_0000 <= target.top_left.x <= 0x1000_0000,
                -0x1000_0000 <= target.top_left.y <= 0x1000_0000,
                0 <= target.size.x <= 0x1000_0000,
                0 <= target.size.y <= 0x1000_0000,
                i <= self.enemies@.len(),
                forall|j: int| 0 <= j < i ==> (#[trigger] self.enemies@[j] matches Some(e)
                    ==> e.life > 0 ==> !spec_boxes_overlap(spec_enemy_box(e), *target)),
            decreases self.enemies@.len() - i,
        {
            let mut hit = false;
            let mut troops: Vec<Option<FormationIndex>> = Vec::new();
            match &self.enemies[i] {
                Some(e) => {
                    match e.get_collbox() {
                        Some(cb) => {
                            if cb.check_collision(target) {
                                hit = true;
                                troops = Self::copy_troops(e);
                            }
                        },
                        None => {},
                    }
                },
                None => {},
            }
            if hit {
                let has_live = self.troops_have_live(&troops);
                let slot = &mut self.enemies[i];
                let e_opt = slot.take();
                if let Some(mut e) = e_opt {
                    let was_owl = matches!(e.enemy_type, EnemyType::Owl);
                    let dr = e.set_damage(power, has_live, queue);
                    let hit_pos = e.pos();
                    let lethal = e.is_ghost();
                    if dr.killed {
                        self.enemies[i] = None;
                        if self.alive_enemy_count > 0 {
                            self.alive_enemy_count = self.alive_enemy_count - 1;
                        }
                    } else {
                        self.enemies[i] = Some(e);
                    }
                    if was_owl && lethal {
                        self.shot_pause_count = OWL_DESTROY_SHOT_WAIT;
                    }
                    return CollisionResult::Hit(hit_pos, dr.killed);
                }
            }
            i = i + 1;
        }
        CollisionResult::NoHit
    }

    /// Tests `target` against every enemy shot; the first one hit is
    /// absorbed.
    pub fn check_shot_collision(&mut self, target: &CollBox) -> (r: CollisionResult)
        requires
            old(self).wf(),
            -0x1000_0000 <= target.top_left.x <= 0x1000_0000,
            -0x1000_0000 <= target.top_left.y <= 0x1000_0000,
            0 <= target.size.x <= 0x1000_0000,
            0 <= target.size.y <= 0x1000_0000,
        ensures
            final(self).wf(),
            r is NoHit ==> *final(self) == *old(self) && forall|j: int|
                0 <= j < old(self).shots@.len() ==> (#[trigger] old(self).shots@[j] matches Some(
                sh,
            ) ==> !spec_boxes_overlap(spec_shot_box(sh), *target)),
            // a hit names the first overlapping shot in slot order and
            // absorbs it; nothing else changes
            r matches CollisionResult::Hit(p, destroyed) ==> !destroyed && exists|j: int|
                {
                    let sh = old(self).shots@[j].unwrap();
                    &&& 0 <= j < old(self).shots@.len()
                    &&& #[trigger] old(self).shots@[j] is Some
                    &&& spec_boxes_overlap(spec_shot_box(sh), *target)
                    &&& (forall|i2: int| 0 <= i2 < j ==> (#[trigger] old(self).shots@[i2] matches
                        Some(s2) ==> !spec_boxes_overlap(spec_shot_box(s2), *target)))
                    &&& p == (Vec2I {
                        x: crate::types::spec_round_coord(sh.pos.x as int) as i32,
                        y: crate::types::spec_round_coord(sh.pos.y as int) as i32,
                    })
                    &&& final(self).shots@ == old(self).shots@.update(j, None)
                    &&& *final(self) == (EnemyManager { shots: final(self).shots, ..*old(self) })
                },
    {
        let mut i: usize = 0;
        while i < self.shots.len()
            invariant
                old(self).wf(),
                self == old(self),
                -0x1000_0000 <= target.top_left.x <= 0x1000_0000,
                -0x1000_0000 <= target.top_left.y <= 0x1000_0000,
                0 <= target.size.x <= 0x1000_0000,
                0 <= target.size.y <= 0x1000_0000,
                i <= self.shots@.len(),
                forall|j: int| 0 <= j < i ==> (#[trigger] self.shots@[j] matches Some(s2)
                    ==> !spec_boxes_overlap(spec_shot_box(s2), *target)),
            decreases self.shots@.len() - i,
        {
            let mut hit = false;
            let mut hit_pos = Vec2I::new(0, 0);
            match &self.shots[i] {
                Some(s) => {
                    let cb = s.get_collbox();
                    if cb.check_collision(target) {
                        hit = true;
                        hit_pos = s.pos();
                    }
                },
                None => {},
            }
            if hit {
                self.shots[i] = None;
                return CollisionResult::Hit(hit_pos, false);
            }
            i = i + 1;
        }
        CollisionResult::NoHit
    }

    /// Advances every shot and frees those that left the screen; the
    /// stage-wide shot pause counts down.
    pub fn update_shots(&mut self)
        requires
            old(self).wf(),
        ensures
            final(self).wf(),
            final(self).enemies == old(self).enemies,
            final(self).shot_pause_count == if old(self).shot_pause_count > 0 {
                old(self).shot_pause_count - 1
            } else {
                0int
            },
    {
        if self.shot_pause_count > 0 {
            self.shot_pause_count = self.shot_pause_count - 1;
        }
        let mut i: usize = 0;
        while i < self.shots.len()
            invariant
                self.wf(),
                self.enemies == old(self).enemies,
                self.shots@.len() == MAX_SHOT_COUNT,
                self.shot_pause_count == if old(self).shot_pause_count > 0 {
                    old(self).shot_pause_count - 1
                } else {
                    0int
                },
                self.alive_enemy_count == old(self).alive_enemy_count,
                self.rng == old(self).rng,
                i <= self.shots@.len(),
            decreases self.shots@.len() - i,
        {
            let slot = &mut self.shots[i];
            let s_opt = slot.take();
            if let Some(mut s) = s_opt {
                s.update();
                let p = s.pos();
                if !out_of_screen(&p) {
                    self.shots[i] = Some(s);
                }
            }
            i = i + 1;
        }
    }

    /// Fires an enemy shot from `pos` at a randomly chosen present
    /// target, at the given speed.  Nothing fires while shooting is
    /// paused, when no target is present, or when the pool is full.
    pub fn spawn_shot(&mut self, pos: &Vec2I, target_pos: &Vec<Option<Vec2I>>, speed: i32)
        requires
            old(self).wf(),
            in_coord_range(*pos),
            forall|i: int| 0 <= i < target_pos@.len() ==> (#[trigger] target_pos@[i] matches Some(
                p,
            ) ==> in_coord_range(p)),
            1 <= speed <= SPEED_LIMIT,
        ensures
            final(self).wf(),
            final(self).enemies == old(self).enemies,
            old(self).shot_pause_count > 0 ==> *final(self) == *old(self),
    {
        if self.shot_pause_count > 0 {
            return;
        }
        // collect the present targets
        let mut targets: Vec<Vec2I> = Vec::new();
        let mut k: usize = 0;
        while k < target_pos.len()
            invariant
                old(self).wf(),
                self == old(self),
                old(self).shot_pause_count == 0,
                k <= target_pos@.len(),
                forall|i: int| 0 <= i < target_pos@.len() ==> (#[trigger] target_pos@[i] matches
                    Some(p) ==> in_coord_range(p)),
                forall|t: int| 0 <= t < targets@.len() ==> in_coord_range(#[trigger] targets@[t]),
            decreases target_pos@.len() - k,
        {
            if let Some(p) = target_pos[k] {
                targets.push(p);
            }
            k = k + 1;
        }
        if targets.len() == 0 {
            return;
        }
        let pick = self.rng.gen_index(targets.len());
        let target = targets[pick];
        let vel = match shot_velocity(pos, &target, speed) {
            Some(v) => v,
            None => {
                return;
            },
        };
        let mut i: usize = 0;
        while i < self.shots.len()
            invariant
                self.wf(),
                self.enemies == old(self).enemies,
                old(self).shot_pause_count == 0,
                self.shots@.len() == MAX_SHOT_COUNT,
                in_coord_range(*pos),
                -SPEED_LIMIT <= vel.x <= SPEED_LIMIT,
                -SPEED_LIMIT <= vel.y <= SPEED_LIMIT,
                i <= self.shots@.len(),
            decreases self.shots@.len() - i,
        {
            if self.shots[i].is_none() {
                self.shots[i] = Some(EneShot::new(*pos, vel));
                return;
            }
            i = i + 1;
        }
    }

    /// Draws every enemy and every shot.
    pub fn draw<R: crate::framework::RendererTrait>(&self, renderer: &mut R, pat: usize)
        requires
            self.wf(),
            pat < 2,
    {
        let mut i: usize = 0;
        while i < self.enemies.len()
            invariant
                self.wf(),
                pat < 2,
                i <= self.enemies@.len(),
            decreases self.enemies@.len() - i,
        {
            if let Some(e) = &self.enemies[i] {
                e.draw(renderer, pat);
            }
            i = i + 1;
        }
        let mut j: usize = 0;
        while j < self.shots.len()
            invariant
                self.wf(),
                j <= self.shots@.len(),
            decreases self.shots@.len() - j,
        {
            if let Some(s) = &self.shots[j] {
                s.draw(renderer);
            }
            j = j + 1;
        }
    }

    /// Pauses enemy shooting for `wait` ticks.
    pub fn pause_enemy_shot(&mut self, wait: u32)
        requires
            old(self).wf(),
        ensures
            final(self).wf(),
            *final(self) == (EnemyManager { shot_pause_count: wait, ..*old(self) }),
    {
        self.shot_pause_count = wait;
    }
}

} // verus!
