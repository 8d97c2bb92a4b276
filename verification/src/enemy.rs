//! The enemy entity: per-type behavior, the movement state machine and
//! the Owl's player-capture protocol.
//!
//! Behavior is dispatched on the `EnemyType` tag.  An enemy never
//! touches the arena that owns it: everything it needs from the outside
//! world arrives in an [`UpdateContext`], and everything it asks of the
//! world leaves through the event queue or the returned
//! [`UpdateResult`], which the manager applies after the enemy's own
//! step (troop propagation, released troops, the capture push-up).

use vstd::prelude::*;
use crate::consts::{CH_JINGLE, HEIGHT, MAX_TROOPS, SE_ATTACK_START, Y_COUNT};
use crate::event::{EventQueue, EventType};
use crate::math::{
    calc_velocity, clamp, diff_angle, half, normalize_angle, spec_clamp, spec_diff_angle,
    spec_normalize_angle, HALF_TURN, ONE, SPEED_LIMIT, VANGLE_LIMIT,
};
use crate::rng::GameRng;
use crate::tractor_beam::{BeamPhase, TractorBeam};
use crate::traj::{spec_traj_tick, table_wf, Traj, TrajCommand, MAX_CMD_TICKS};
use crate::traj_tables::{
    bee_attack_table, bee_rush_attack_table, bee_rush_cont_table, butterfly_attack_table,
    butterfly_rush_attack_table, owl_attack_table, owl_rush_attack_table,
    spec_bee_attack_table, spec_bee_rush_attack_table, spec_bee_rush_cont_table,
    spec_butterfly_attack_table, spec_butterfly_rush_attack_table, spec_owl_attack_table,
    spec_owl_rush_attack_table,
};
use crate::types::{in_coord_range, round_up, spec_round_coord, FormationIndex, Vec2I};

verus! {

/// Cap on the per-state tick counters (keeps them from wrapping).
pub const COUNT_CAP: u32 = 1000000;

/// Largest hit-point value a type starts with.
pub const MAX_LIFE: u32 = 1000;

/// The four enemy kinds.  Behavior is dispatched on this tag.
#[derive(Clone, Copy, Debug, PartialEq, Eq, Structural)]
pub enum EnemyType {
    Bee,
    Butterfly,
    Owl,
    CapturedFighter,
}

/// The behavioral state of an enemy.
#[derive(Clone, Copy, Debug, PartialEq, Eq, Structural)]
pub enum EnemyState {
    /// Not yet activated.
    Dormant,
    /// Flying a scripted entry trajectory.
    Appearance,
    /// Steering back to the formation slot.
    MoveToFormation,
    /// Diving at a player instead of joining formation.
    Assault,
    /// Settled on the formation grid.
    Formation,
    /// Flying an attack run.
    Attack,
    /// Slaved to a troop leader; no independent motion.
    Troop,
}

/// Which part of an attack run is being flown (meaningful only in the
/// `Attack` state).
#[derive(Clone, Copy, Debug, PartialEq, Eq, Structural)]
pub enum AttackPhase {
    /// A scripted attack table.
    Traj,
    /// A Bee's scripted attack, which continues into the rush table.
    Bee,
    /// Capture attack: steering toward the hover point above the player.
    Capture,
    /// Hovering with the beam out, waiting for a capture or a timeout.
    CaptureBeam,
    /// Beam timed out: flying off the bottom of the screen.
    CaptureGoOut,
    /// Beam caught the player: waiting for the external capture
    /// animation to complete.
    CaptureStart,
    /// Capture complete: retracting the beam.
    CaptureCloseBeam,
    /// Holding position with the new troop before flying back.
    CaptureDoneWait,
    /// Flying back toward the formation slot.
    CaptureBack,
    /// Settled: pushing the captured fighter up to its slot.
    CapturePushUp,
}

/// Which part of an assault dive is being flown.
#[derive(Clone, Copy, Debug, PartialEq, Eq, Structural)]
pub enum AssaultPhase {
    /// Turning toward the chosen player position.
    Aim,
    /// Falling straight until off screen.
    Dive,
}

/// Where an Owl stands in the player-capture protocol.
#[derive(Clone, Copy, Debug, PartialEq, Eq, Structural)]
pub enum CapturingState {
    /// No capture attack going on.
    Inactive,
    /// Flying a capture attack.
    Attacking,
    /// The tractor beam is pulling the player in.
    BeamTracting,
}

/// Outcome of applying damage to an enemy.
#[derive(Clone, Copy, Debug, PartialEq, Eq, Structural)]
pub struct DamageResult {
    /// The enemy is gone (to be removed from the arena).
    pub killed: bool,
    /// Score awarded; 0 when the hit was not lethal.
    pub point: u32,
}

/// Everything an enemy reads from the world during one tick.  The
/// manager fills it before each enemy's update.
pub struct UpdateContext {
    /// Settle target of this enemy's formation slot.
    pub formation_pos: Vec2I,
    /// The primary player's raw position.
    pub player_pos: Vec2I,
    /// The dual fighter's position, when one flies.
    pub dual_player_pos: Option<Vec2I>,
    /// Whether the player may be captured right now.
    pub can_player_capture: bool,
    /// Whether the external capture animation has completed.
    pub player_capture_completed: bool,
    /// Whether the stage is in rush mode.
    pub is_rush: bool,
    /// Current stage number.
    pub stage_no: u16,
    /// Whether this enemy still has a live non-captured troop.
    pub has_live_troops: bool,
    /// Positions of this enemy's live troops (for attack-run shots).
    pub troop_positions: Vec<Vec2I>,
    /// Vertical position of the captured fighter one row above, if it
    /// exists (read during the capture push-up).
    pub captured_fighter_y: Option<i32>,
}

impl UpdateContext {
    /// All positions within the coordinate range.
    pub open spec fn wf(&self) -> bool {
        &&& in_coord_range(self.formation_pos)
        &&& in_coord_range(self.player_pos)
        &&& (self.dual_player_pos matches Some(p) ==> in_coord_range(p))
        &&& (forall|i: int| 0 <= i < self.troop_positions@.len() ==> in_coord_range(
            #[trigger] self.troop_positions@[i]))
        &&& (self.captured_fighter_y matches Some(y) ==> -crate::math::COORD_LIMIT <= y
            <= crate::math::COORD_LIMIT)
    }
}

/// What one enemy's tick asks the manager to apply afterwards.
pub struct UpdateResult {
    /// Position change of this tick, to propagate to troops.
    pub pos_delta: Vec2I,
    /// Angle to copy to troops, when angle copying is on.
    pub troop_angle: Option<i32>,
    /// New vertical position for the captured fighter one row above
    /// (capture push-up).
    pub set_troop_y: Option<i32>,
    /// Troop slots released this tick: each goes back to Formation
    /// state.
    pub released: Vec<FormationIndex>,
}

/// Troop references currently held, in slot order.
pub open spec fn spec_troop_refs(e: Enemy) -> Seq<FormationIndex> {
    spec_troop_refs_rec(e.troops@, e.troops@.len() as int)
}

/// Troop references among the first `n` slots.
pub open spec fn spec_troop_refs_rec(troops: Seq<Option<FormationIndex>>, n: int) -> Seq<
    FormationIndex,
>
    decreases n,
{
    if n <= 0 {
        Seq::empty()
    } else {
        let rest = spec_troop_refs_rec(troops, n - 1);
        match troops[n - 1] {
            Some(fi) => rest.push(fi),
            None => rest,
        }
    }
}

/// The slot one row above the enemy: where a captured fighter settles.
pub open spec fn spec_captured_fighter_slot(e: Enemy) -> FormationIndex {
    if e.formation_index.1 >= 1 {
        FormationIndex(e.formation_index.0, (e.formation_index.1 - 1) as u8)
    } else {
        FormationIndex(e.formation_index.0, 255)
    }
}

/// Number of live escorts counted for the Owl's score: troop references
/// other than the captured-fighter slot.
pub open spec fn spec_escort_count(e: Enemy) -> int {
    spec_escort_count_rec(e.troops@, spec_captured_fighter_slot(e), e.troops@.len() as int)
}

/// Escorts among the first `n` troop slots.
pub open spec fn spec_escort_count_rec(
    troops: Seq<Option<FormationIndex>>,
    cap_fi: FormationIndex,
    n: int,
) -> int
    decreases n,
{
    if n <= 0 {
        0
    } else {
        let rest = spec_escort_count_rec(troops, cap_fi, n - 1);
        match troops[n - 1] {
            Some(fi) => if fi != cap_fi {
                rest + 1
            } else {
                rest
            },
            None => rest,
        }
    }
}

/// Starting hit points of a type.
pub open spec fn spec_type_life(t: EnemyType) -> u32 {
    match t {
        EnemyType::Bee => 1u32,
        EnemyType::Butterfly => 1u32,
        EnemyType::Owl => 2u32,
        EnemyType::CapturedFighter => 1u32,
    }
}

/// Score for destroying the enemy in its current state.  An Owl caught
/// outside formation pays `400 * 2^k` where `k` is its live escort
/// count.
pub open spec fn spec_calc_point(e: Enemy) -> int {
    match e.enemy_type {
        EnemyType::Bee => if e.state is Formation {
            50
        } else {
            100
        },
        EnemyType::Butterfly => if e.state is Formation {
            80
        } else {
            160
        },
        EnemyType::Owl => if e.state is Formation {
            150
        } else {
            spec_owl_attack_point(spec_escort_count(e))
        },
        EnemyType::CapturedFighter => if e.state is Formation {
            500
        } else {
            1000
        },
    }
}

/// Owl score outside formation with `k` live escorts.
pub open spec fn spec_owl_attack_point(k: int) -> int {
    pow2(k) * 400
}

/// Two to the `k` (0 for negative `k`, which never occurs).
pub open spec fn pow2(k: int) -> int
    decreases k,
{
    if k <= 0 {
        1
    } else {
        2 * pow2(k - 1)
    }
}

/// Each escort alive strictly raises the Owl's payout: destroying
/// escorts first strictly lowers what the Owl eventually yields.
pub proof fn lemma_owl_point_monotone(k1: int, k2: int)
    requires
        0 <= k1 < k2,
    ensures
        spec_owl_attack_point(k1) < spec_owl_attack_point(k2),
    decreases k2,
{
    if k2 == k1 + 1 {
        lemma_pow2_pos(k1);
    } else {
        lemma_owl_point_monotone(k1, k2 - 1);
        lemma_pow2_pos(k2 - 1);
    }
}

/// Two to the `k` is positive.
pub proof fn lemma_pow2_pos(k: int)
    ensures
        pow2(k) >= 1,
    decreases k,
{
    if k > 0 {
        lemma_pow2_pos(k - 1);
    }
}

/// The events an Owl's death releases, by its capturing state: the
/// formation recapture, the broken capture attack, or the player's
/// escape from the beam.
pub open spec fn spec_owl_release_events(e: Enemy) -> Seq<EventType> {
    match e.capturing_state {
        CapturingState::Inactive => {
            if spec_troop_refs(e).contains(spec_captured_fighter_slot(e)) {
                seq![EventType::RecapturePlayer(spec_captured_fighter_slot(e))]
            } else {
                Seq::empty()
            }
        },
        CapturingState::Attacking => seq![EventType::EndCaptureAttack],
        CapturingState::BeamTracting => seq![EventType::EscapeCapturing],
    }
}

/// The enemy entity.
pub struct Enemy {
    /// Behavior tag.
    pub enemy_type: EnemyType,
    /// Behavioral state.
    pub state: EnemyState,
    /// Attack sub-phase (meaningful in `Attack` state).
    pub attack_phase: AttackPhase,
    /// Assault sub-phase (meaningful in `Assault` state).
    pub assault_phase: AssaultPhase,
    /// Position (fixed point).
    pub pos: Vec2I,
    /// Heading (angle units, kept normalized).
    pub angle: i32,
    /// Speed (fixed point per tick, nonnegative).
    pub speed: i32,
    /// Angular velocity (angle units per tick).
    pub vangle: i32,
    /// Home formation slot; unique among live non-troop enemies.
    pub formation_index: FormationIndex,
    /// Hit points; 0 means ghost (kept while troops reference it).
    pub life: u32,
    /// Active scripted trajectory, if any.
    pub traj: Option<Traj>,
    /// Pending scripted shot, counted down each tick.
    pub shot_wait: Option<u32>,
    /// Ticks in the current phase.
    pub count: u32,
    /// Ticks since the attack run started (drives the shot cadence).
    pub attack_frame_count: u32,
    /// Steering target (assault dive or capture hover point).
    pub target_pos: Vec2I,
    /// The tractor beam, while a capture attack holds one open.
    pub tractor_beam: Option<TractorBeam>,
    /// Where this enemy stands in the capture protocol.
    pub capturing_state: CapturingState,
    /// Up to three formation-index references to following troops.
    pub troops: Vec<Option<FormationIndex>>,
    /// Copy this enemy's angle to its troops each tick.
    pub copy_angle_to_troops: bool,
    /// Removal-eligible: the manager frees the slot after the tick.
    pub disappeared: bool,
}

impl Enemy {
    /// All motion quantities in range, the troop array at its fixed
    /// size, sub-objects well-formed, and the capture phases only on a
    /// slot with a row above it.
    pub open spec fn wf(&self) -> bool {
        &&& in_coord_range(self.pos)
        &&& in_coord_range(self.target_pos)
        &&& -HALF_TURN <= self.angle <= HALF_TURN
        &&& 0 <= self.speed <= SPEED_LIMIT
        &&& -VANGLE_LIMIT <= self.vangle <= VANGLE_LIMIT
        &&& self.life <= MAX_LIFE
        &&& self.troops@.len() == MAX_TROOPS
        &&& (self.traj matches Some(t) ==> t.wf())
        &&& (self.tractor_beam matches Some(b) ==> b.wf())
        &&& self.count <= COUNT_CAP
        &&& self.attack_frame_count <= COUNT_CAP
        &&& (self.shot_wait matches Some(w) ==> w <= MAX_CMD_TICKS)
        &&& (self.state is Formation ==> self.speed == 0)
        &&& (self.state is Attack && !(self.attack_phase is Traj) && !(self.attack_phase is Bee)
            ==> self.formation_index.1 >= 1)
    }

    /// Ghost: logically dead, kept while troops reference it.
    pub open spec fn spec_is_ghost(&self) -> bool {
        self.life == 0
    }

    /// Builds a dormant enemy of the given type.
    pub fn new(enemy_type: EnemyType, pos: &Vec2I, angle: i32, speed: i32) -> (r: Enemy)
        requires
            in_coord_range(*pos),
            -HALF_TURN <= angle <= HALF_TURN,
            0 <= speed <= SPEED_LIMIT,
        ensures
            r.wf(),
            r.enemy_type == enemy_type,
            r.state is Dormant,
            r.pos == *pos,
            r.angle == angle,
            r.speed == speed,
            r.vangle == 0,
            r.life == spec_type_life(enemy_type),
            r.formation_index == FormationIndex(255, 255),
            r.traj is None,
            r.shot_wait is None,
            r.tractor_beam is None,
            r.count == 0 && r.attack_frame_count == 0,
            r.target_pos == (Vec2I { x: 0, y: 0 }),
            r.capturing_state is Inactive,
            spec_troop_refs(r) == Seq::<FormationIndex>::empty(),
            !r.disappeared,
            r.copy_angle_to_troops,
    {
        let life: u32 = match enemy_type {
            EnemyType::Bee => 1,
            EnemyType::Butterfly => 1,
            EnemyType::Owl => 2,
            EnemyType::CapturedFighter => 1,
        };
        let mut troops: Vec<Option<FormationIndex>> = Vec::new();
        troops.push(None);
        troops.push(None);
        troops.push(None);
        let r = Enemy {
            enemy_type,
            state: EnemyState::Dormant,
            attack_phase: AttackPhase::Traj,
            assault_phase: AssaultPhase::Aim,
            pos: *pos,
            angle,
            speed,
            vangle: 0,
            formation_index: FormationIndex(255, 255),
            life,
            traj: None,
            shot_wait: None,
            count: 0,
            attack_frame_count: 0,
            target_pos: Vec2I::new(0, 0),
            tractor_beam: None,
            capturing_state: CapturingState::Inactive,
            troops,
            copy_angle_to_troops: true,
            disappeared: false,
        };
        proof {
            lemma_troop_refs_all_none(r.troops@, r.troops@.len() as int);
        }
        r
    }

    /// Rounded on-screen position in pixels.
    pub fn pos(&self) -> (r: Vec2I)
        requires
            self.wf(),
        ensures
            r.x == spec_round_coord(self.pos.x as int),
            r.y == spec_round_coord(self.pos.y as int),
    {
        round_up(&self.pos)
    }

    /// The raw fixed-point position.
    pub fn raw_pos(&self) -> (r: &Vec2I)
        ensures
            r == self.pos,
    {
        &self.pos
    }

    /// Current behavioral state.
    pub fn state(&self) -> (r: EnemyState)
        ensures
            r == self.state,
    {
        self.state
    }

    /// Whether the manager may free this slot.
    pub fn is_disappeared(&self) -> (r: bool)
        ensures
            r == self.disappeared,
    {
        self.disappeared
    }

    /// Ghost test (life exhausted).
    pub fn is_ghost(&self) -> (r: bool)
        ensures
            r == self.spec_is_ghost(),
    {
        self.life == 0
    }

    /// Arms an entry trajectory and enters the Appearance state.
    pub fn set_appearance(&mut self, traj: Traj)
        requires
            old(self).wf(),
            traj.wf(),
        ensures
            final(self).wf(),
            *final(self) == (Enemy {
                traj: Some(traj),
                state: EnemyState::Appearance,
                ..*old(self)
            }),
    {
        self.traj = Some(traj);
        self.state = EnemyState::Appearance;
    }

    /// Suspends independent motion: the troop leader now drives this
    /// enemy.
    pub fn set_to_troop(&mut self)
        requires
            old(self).wf(),
        ensures
            final(self).wf(),
            *final(self) == (Enemy { state: EnemyState::Troop, ..*old(self) }),
    {
        self.state = EnemyState::Troop;
    }

    /// Settles into the Formation state; a ghost vanishes instead of
    /// settling.
    pub fn set_to_formation(&mut self)
        requires
            old(self).wf(),
        ensures
            final(self).wf(),
            *final(self) == spec_settled(*old(self)),
    {
        self.speed = 0;
        self.angle = normalize_angle(self.angle);
        self.vangle = 0;
        self.copy_angle_to_troops = true;
        if self.life == 0 {
            self.disappeared = true;
        }
        self.state = EnemyState::Formation;
    }

    /// Moves this enemy as a troop: adds the leader's delta, and takes
    /// the leader's angle when one is handed down.
    pub fn update_troop(&mut self, add: &Vec2I, angle_opt: Option<i32>)
        requires
            old(self).wf(),
            -crate::math::COORD_LIMIT * 2 <= add.x <= crate::math::COORD_LIMIT * 2,
            -crate::math::COORD_LIMIT * 2 <= add.y <= crate::math::COORD_LIMIT * 2,
            (angle_opt matches Some(a) ==> -HALF_TURN <= a <= HALF_TURN),
        ensures
            final(self).wf(),
            *final(self) == (Enemy {
                pos: spec_troop_moved_pos(old(self).pos, *add),
                angle: match angle_opt {
                    Some(a) => a,
                    None => old(self).angle,
                },
                ..*old(self)
            }),
    {
        self.pos = self.pos.plus(add).clamped();
        if let Some(a) = angle_opt {
            self.angle = a;
        }
    }

    /// Records a troop reference in the first free slot; reports whether
    /// one was free.
    pub fn add_troop(&mut self, fi: FormationIndex) -> (r: bool)
        requires
            old(self).wf(),
        ensures
            final(self).wf(),
            final(self).troops@.len() == old(self).troops@.len(),
            *final(self) == (Enemy { troops: final(self).troops, ..*old(self) }),
            r == exists|i: int| 0 <= i < old(self).troops@.len() && old(self).troops@[i] is None,
            r ==> spec_troop_refs(*final(self)).contains(fi),
            !r ==> *final(self) == *old(self),
    {
        let mut i: usize = 0;
        while i < self.troops.len()
            invariant
                old(self).wf(),
                self == old(self),
                i <= self.troops@.len(),
                forall|j: int| 0 <= j < i ==> !(#[trigger] self.troops@[j] is None),
            decreases self.troops@.len() - i,
        {
            if self.troops[i].is_none() {
                self.troops[i] = Some(fi);
                proof {
                    lemma_troop_refs_rec_extend_contains(self.troops@, i as int, fi);
                }
                return true;
            }
            i = i + 1;
        }
        false
    }

    /// Drops one troop reference (its enemy no longer exists).
    pub fn prune_troop(&mut self, k: usize)
        requires
            old(self).wf(),
            k < old(self).troops@.len(),
        ensures
            final(self).wf(),
            *final(self) == (Enemy { troops: final(self).troops, ..*old(self) }),
            final(self).troops@ == old(self).troops@.update(k as int, None),
    {
        self.troops[k] = None;
    }

    /// Overwrites the position (applied by the manager during the
    /// capture push-up, and in test setups).
    pub fn set_pos(&mut self, pos: &Vec2I)
        requires
            old(self).wf(),
            in_coord_range(*pos),
        ensures
            final(self).wf(),
            *final(self) == (Enemy { pos: *pos, ..*old(self) }),
    {
        self.pos = *pos;
    }

    /// Clears all troop slots and returns the released references in
    /// slot order.
    pub fn drain_troops(&mut self) -> (r: Vec<FormationIndex>)
        requires
            old(self).wf(),
        ensures
            final(self).wf(),
            *final(self) == (Enemy { troops: final(self).troops, ..*old(self) }),
            final(self).troops@.len() == old(self).troops@.len(),
            spec_troop_refs(*final(self)) == Seq::<FormationIndex>::empty(),
            r@ == spec_troop_refs(*old(self)),
    {
        let ghost orig = self.troops@;
        let mut out: Vec<FormationIndex> = Vec::new();
        let mut i: usize = 0;
        while i < self.troops.len()
            invariant
                self.troops@.len() == orig.len(),
                *self == (Enemy { troops: self.troops, ..*old(self) }),
                i <= orig.len(),
                forall|j: int| i <= j < orig.len() ==> self.troops@[j] == orig[j],
                forall|j: int| 0 <= j < i ==> self.troops@[j] is None,
                out@ == spec_troop_refs_rec(orig, i as int),
            decreases orig.len() - i,
        {
            if let Some(fi) = self.troops[i] {
                out.push(fi);
            }
            self.troops[i] = None;
            i = i + 1;
        }
        proof {
            lemma_troop_refs_all_none(self.troops@, orig.len() as int);
        }
        out
    }

    /// Score for destroying this enemy now.
    pub fn calc_point(&self) -> (r: u32)
        requires
            self.wf(),
        ensures
            r == spec_calc_point(*self),
            r > 0,
    {
        match self.enemy_type {
            EnemyType::Bee => if matches!(self.state, EnemyState::Formation) {
                50
            } else {
                100
            },
            EnemyType::Butterfly => if matches!(self.state, EnemyState::Formation) {
                80
            } else {
                160
            },
            EnemyType::Owl => {
                if matches!(self.state, EnemyState::Formation) {
                    150
                } else {
                    let k = self.escort_count();
                    proof {
                        assert((1u32 << k) == (if k == 0 {
                            1u32
                        } else if k == 1 {
                            2u32
                        } else if k == 2 {
                            4u32
                        } else {
                            8u32
                        })) by (bit_vector)
                            requires
                                k <= 3u32,
                        ;
                        lemma_pow2_small(k as int);
                    }
                    (1u32 << k) * 400
                }
            },
            EnemyType::CapturedFighter => if matches!(self.state, EnemyState::Formation) {
                500
            } else {
                1000
            },
        }
    }

    /// The slot one row above this enemy.
    pub fn captured_fighter_slot(&self) -> (r: FormationIndex)
        ensures
            r == spec_captured_fighter_slot(*self),
    {
        if self.formation_index.1 >= 1 {
            FormationIndex(self.formation_index.0, self.formation_index.1 - 1)
        } else {
            FormationIndex(self.formation_index.0, 255)
        }
    }

    /// Counts live escorts: troop references other than the
    /// captured-fighter slot.
    pub fn escort_count(&self) -> (r: u32)
        requires
            self.wf(),
        ensures
            r == spec_escort_count(*self),
            r <= MAX_TROOPS,
    {
        let cap_fi = self.captured_fighter_slot();
        let mut k: u32 = 0;
        let mut i: usize = 0;
        while i < self.troops.len()
            invariant
                self.wf(),
                i <= self.troops@.len(),
                cap_fi == spec_captured_fighter_slot(*self),
                k == spec_escort_count_rec(self.troops@, cap_fi, i as int),
                k <= i,
            decreases self.troops@.len() - i,
        {
            if let Some(fi) = self.troops[i] {
                if !(fi.0 == cap_fi.0 && fi.1 == cap_fi.1) {
                    k = k + 1;
                }
            }
            i = i + 1;
        }
        k
    }

    /// Applies `power` damage.  A lethal hit yields the score from the
    /// dispatch table and pushes the explosion event; an Owl with live
    /// escorts becomes a ghost instead of dying, and a dying Owl
    /// releases any capture in progress with the matching event.
    pub fn set_damage(&mut self, power: u32, has_live_troops: bool, queue: &mut EventQueue) -> (
        r: DamageResult)
        requires
            old(self).wf(),
        ensures
            final(self).wf(),
            // not lethal: only life changes
            old(self).life > power ==> *final(self) == (Enemy {
                life: (old(self).life - power) as u32,
                ..*old(self)
            }) && r == (DamageResult { killed: false, point: 0 }) && final(queue)@ == old(queue)@,
            // lethal: life exhausted, score paid, explosion queued
            old(self).life <= power ==> {
                &&& final(self).life == 0
                &&& r.point == spec_calc_point(*old(self))
                &&& r.killed == !(old(self).enemy_type is Owl && has_live_troops)
                &&& final(self).capturing_state is Inactive
                &&& final(self).pos == old(self).pos && final(self).state == old(self).state
                &&& final(self).troops == old(self).troops
                &&& final(self).enemy_type == old(self).enemy_type
                &&& final(self).formation_index == old(self).formation_index
                &&& final(self).disappeared == old(self).disappeared
                &&& final(queue)@ == old(queue)@ + spec_death_events(*old(self), r.point as int)
            },
    {
        if self.life > power {
            self.life = self.life - power;
            DamageResult { killed: false, point: 0 }
        } else {
            self.life = 0;
            let point = self.calc_point();
            let killed = match self.enemy_type {
                EnemyType::Owl => {
                    match self.capturing_state {
                        CapturingState::Inactive => {
                            let cap_fi = self.captured_fighter_slot();
                            if self.has_troop(cap_fi) {
                                queue.push(EventType::RecapturePlayer(cap_fi));
                            }
                        },
                        CapturingState::Attacking => {
                            queue.push(EventType::EndCaptureAttack);
                        },
                        CapturingState::BeamTracting => {
                            queue.push(EventType::EscapeCapturing);
                        },
                    }
                    !has_live_troops
                },
                EnemyType::CapturedFighter => {
                    queue.push(EventType::CapturedFighterDestroyed);
                    true
                },
                _ => true,
            };
            self.capturing_state = CapturingState::Inactive;
            queue.push(EventType::EnemyExplosion(self.pos, self.angle, self.enemy_type));
            DamageResult { killed, point }
        }
    }

    /// Whether some troop slot holds `fi`.
    pub fn has_troop(&self, fi: FormationIndex) -> (r: bool)
        requires
            self.wf(),
        ensures
            r == spec_troop_refs(*self).contains(fi),
    {
        let mut i: usize = 0;
        while i < self.troops.len()
            invariant
                self.wf(),
                i <= self.troops@.len(),
                !spec_troop_refs_rec(self.troops@, i as int).contains(fi),
            decreases self.troops@.len() - i,
        {
            if let Some(t) = self.troops[i] {
                if t.0 == fi.0 && t.1 == fi.1 {
                    proof {
                        lemma_troop_refs_rec_extend_contains(self.troops@, i as int, fi);
                    }
                    return true;
                }
            }
            i = i + 1;
        }
        false
    }
}

/// Hover height of the capture attack: just above the player's row.
pub const CAPTURE_HOVER_Y: i32 = 45056;

/// Turn-rate limit of the capture approach (angle units per tick).
pub const CAPTURE_TURN_LIMIT: i32 = 1024;

/// Steering angles may not point closer to straight up than this during
/// the capture approach.
pub const CAPTURE_ANGLE_LIMIT: i32 = 27307;

/// Turn-rate limit of the assault aim phase.
pub const ASSAULT_TURN_LIMIT: i32 = 1280;

/// Vertical position below which a diving enemy is off screen.
pub const OFF_SCREEN_Y: i32 = 75776;

/// Ticks the Owl holds position after a completed capture.
pub const CAPTURE_DONE_WAIT_TICKS: u32 = 120;

/// True when the slot target lies farther than one tick of travel:
/// the squared distance (in whole-pixel shifts) still exceeds the
/// squared speed.
pub open spec fn spec_dist_exceeds(dx: int, dy: int, speed: int) -> bool {
    let qx = dx / 16;
    let qy = dy / 16;
    let qs = speed / 16;
    qx * qx + qy * qy > qs * qs
}

/// Heading after one steering step toward the point `(dx, dy)` away:
/// turn by the shortest difference, clamped by the speed-derived turn
/// limit, then normalize.
pub open spec fn spec_steer_angle(angle: int, speed: int, dx: int, dy: int) -> int {
    let ta = crate::math::spec_atan2(-dy, dx);
    let d = spec_diff_angle(ta, angle);
    let dl = speed * 5 / 3;
    spec_normalize_angle(angle + spec_clamp(d, -dl, dl))
}

/// Progress of the settle approach, shown for the axis-aligned case: an
/// enemy heading straight down at its target with constant speed `s`
/// closes at exactly `s` per tick, and while the settle test still
/// fails the remaining distance exceeds `s - 15`, so each tick strictly
/// shrinks it and the test is reached after finitely many ticks (at
/// most `dy / (s - 15) + 1` from distance `dy`).  The general
/// turn-then-approach path first aligns the heading through the bounded
/// steering step and then reduces to this straight descent.
pub proof fn lemma_move_to_formation_progress(dy: int, s: int)
    requires
        16 <= s <= SPEED_LIMIT,
        0 <= dy,
        spec_dist_exceeds(0, dy, s),
    ensures
        crate::math::spec_calc_velocity_x(HALF_TURN as int, s) == 0,
        crate::math::spec_calc_velocity_y(HALF_TURN as int, s) == s,
        dy > s - 15,
        dy - s < dy,
{
    assert(crate::math::SIN_QUARTER@ =~= seq![
        0i32, 6, 13, 19, 25, 31, 38, 44, 50, 56, 62, 68, 74, 80, 86, 92, 98, 104, 109, 115, 121,
        126, 132, 137, 142, 147, 152, 157, 162, 167, 172, 177, 181, 185, 190, 194, 198, 202, 206,
        209, 213, 216, 220, 223, 226, 229, 231, 234, 237, 239, 241, 243, 245, 247, 248, 250, 251,
        252, 253, 254, 255, 255, 256, 256, 256,
    ]);
    assert(crate::math::spec_sin(32768int) == 0) by {
        assert(32768int % 65536 == 32768);
        assert(32768int / 256 == 128);
    }
    assert(crate::math::spec_sin(32768int + 16384) == -256) by {
        assert(49152int % 65536 == 49152);
        assert(49152int / 256 == 192);
    }
    assert(crate::math::spec_scale(0int, s) == 0);
    assert(crate::math::spec_scale(-256int, s) == -(256 * s / 256));
    assert(256 * s / 256 == s) by {
        vstd::arithmetic::div_mod::lemma_div_multiples_vanish(s, 256);
        assert(256 * s == s * 256) by (nonlinear_arith);
    }
    // the settle test failing forces the distance above s - 15
    let qy = dy / 16;
    let qs = s / 16;
    assert((0int / 16) * (0int / 16) + qy * qy > qs * qs);
    assert((0int / 16) * (0int / 16) == 0) by (nonlinear_arith);
    assert(qy * qy > qs * qs);
    assert(qy >= 0 && qs >= 0) by {
        vstd::arithmetic::div_mod::lemma_div_pos_is_pos(dy, 16);
        vstd::arithmetic::div_mod::lemma_div_pos_is_pos(s, 16);
    }
    assert(qy > qs) by (nonlinear_arith)
        requires
            qy >= 0,
            qs >= 0,
            qy * qy > qs * qs,
    ;
    assert(dy >= 16 * qy) by {
        vstd::arithmetic::div_mod::lemma_fundamental_div_mod(dy, 16);
        vstd::arithmetic::div_mod::lemma_mod_bound(dy, 16);
    }
    assert(16 * qs >= s - 15) by {
        vstd::arithmetic::div_mod::lemma_fundamental_div_mod(s, 16);
        vstd::arithmetic::div_mod::lemma_mod_bound(s, 16);
    }
    assert(dy >= 16 * (qs + 1));
}

/// The scripted attack table a type flies on a normal attack run.
pub open spec fn spec_attack_table_of(t: EnemyType) -> Seq<TrajCommand> {
    match t {
        EnemyType::Bee => spec_bee_attack_table(),
        EnemyType::Butterfly => spec_butterfly_attack_table(),
        EnemyType::Owl => spec_owl_attack_table(),
        EnemyType::CapturedFighter => spec_owl_attack_table(),
    }
}

/// The rush re-attack table a type flies in rush mode.
pub open spec fn spec_rush_table_of(t: EnemyType) -> Seq<TrajCommand> {
    match t {
        EnemyType::Bee => spec_bee_rush_attack_table(),
        EnemyType::Butterfly => spec_butterfly_rush_attack_table(),
        EnemyType::Owl => spec_owl_rush_attack_table(),
        EnemyType::CapturedFighter => spec_owl_rush_attack_table(),
    }
}

/// Whether the scripted run ends on this tick: the interpreter tick on
/// the held trajectory leaves nothing running (a missing trajectory is
/// already spent).
pub open spec fn spec_run_ends(tr: Option<Traj>, formation_pos: Vec2I) -> bool {
    match tr {
        Some(t) => !spec_traj_tick(t, formation_pos).is_running(),
        None => true,
    }
}

/// Capture-approach steering: the target heading is pushed away from
/// straight up, the turn difference is unwrapped toward the current
/// turn direction, and the heading snaps once within the turn limit.
/// Returns the new `(angle, vangle)`.
pub open spec fn spec_capture_steer(angle: int, vangle: int, pos: Vec2I, target: Vec2I) -> (
    int,
    int,
) {
    let ta0 = crate::math::spec_atan2(-(target.y - pos.y), target.x - pos.x);
    let ta = if ta0 >= 0 {
        if ta0 < CAPTURE_ANGLE_LIMIT {
            CAPTURE_ANGLE_LIMIT as int
        } else {
            ta0
        }
    } else {
        if ta0 > -CAPTURE_ANGLE_LIMIT {
            -CAPTURE_ANGLE_LIMIT as int
        } else {
            ta0
        }
    };
    let d0 = spec_diff_angle(ta, angle);
    let d = if vangle > 0 && d0 < 0 {
        d0 + 65536
    } else if vangle < 0 && d0 > 0 {
        d0 - 65536
    } else {
        d0
    };
    if -CAPTURE_TURN_LIMIT <= d < CAPTURE_TURN_LIMIT {
        (ta, 0int)
    } else {
        (angle, vangle)
    }
}

impl Enemy {
    /// Whether the slot target is still out of reach this tick (the
    /// squared-distance test of the settle condition).
    fn target_out_of_reach(&self, target: &Vec2I) -> (r: bool)
        requires
            self.wf(),
            in_coord_range(*target),
        ensures
            r == spec_dist_exceeds(
                target.x - self.pos.x,
                target.y - self.pos.y,
                self.speed as int,
            ),
    {
        let dx = target.x - self.pos.x;
        let dy = target.y - self.pos.y;
        let qx = crate::math::floor_div(dx, 16) as i64;
        let qy = crate::math::floor_div(dy, 16) as i64;
        let qs = (self.speed / 16) as i64;
        proof {
            assert(qx * qx <= 0x400000i64 * 0x400000 && qx * qx >= 0) by (nonlinear_arith)
                requires
                    -0x400000 <= qx <= 0x400000,
            ;
            assert(qy * qy <= 0x400000i64 * 0x400000 && qy * qy >= 0) by (nonlinear_arith)
                requires
                    -0x400000 <= qy <= 0x400000,
            ;
            assert(qs * qs <= 0x400000i64 * 0x400000 && qs * qs >= 0) by (nonlinear_arith)
                requires
                    0 <= qs <= 0x400000,
            ;
        }
        qx * qx + qy * qy > qs * qs
    }

    /// One steering step of the return flight: turn toward the slot
    /// with a speed-bounded turn rate, or settle on it when close
    /// enough.  Returns whether the enemy is still under way.
    pub fn update_move_to_formation(&mut self, ctx: &UpdateContext) -> (r: bool)
        requires
            old(self).wf(),
            ctx.wf(),
        ensures
            final(self).wf(),
            r == spec_dist_exceeds(
                ctx.formation_pos.x - old(self).pos.x,
                ctx.formation_pos.y - old(self).pos.y,
                old(self).speed as int,
            ),
            r ==> *final(self) == (Enemy {
                angle: spec_steer_angle(
                    old(self).angle as int,
                    old(self).speed as int,
                    ctx.formation_pos.x - old(self).pos.x,
                    ctx.formation_pos.y - old(self).pos.y,
                ) as i32,
                vangle: 0,
                ..*old(self)
            }),
            !r ==> *final(self) == (Enemy {
                pos: ctx.formation_pos,
                speed: 0,
                capturing_state: CapturingState::Inactive,
                ..*old(self)
            }),
    {
        let target = ctx.formation_pos;
        if self.target_out_of_reach(&target) {
            let dx = target.x - self.pos.x;
            let dy = target.y - self.pos.y;
            let dlimit = self.speed * 5 / 3;
            let target_angle = crate::math::atan2_lut(-dy, dx);
            let d = diff_angle(target_angle, self.angle);
            self.angle = normalize_angle(self.angle + clamp(d, -dlimit, dlimit));
            self.vangle = 0;
            true
        } else {
            self.pos = target;
            self.speed = 0;
            self.capturing_state = CapturingState::Inactive;
            false
        }
    }

    /// Runs the active trajectory one tick, copies its motion state
    /// into the enemy, and handles scripted fire markers.  Returns
    /// whether the trajectory still runs.
    fn step_trajectory(&mut self, ctx: &UpdateContext, queue: &mut EventQueue) -> (r: bool)
        requires
            old(self).wf(),
            ctx.wf(),
            !(old(self).state is Formation),
        ensures
            final(self).wf(),
            final(self).traj is Some <==> old(self).traj is Some,
            old(self).traj is None ==> r == false,
            // the enemy mirrors the interpreter: the trajectory takes
            // one tick and its outputs are copied over; a fire marker
            // loads the shot delay, which counts down and fires exactly
            // one shot on reaching zero
            old(self).traj matches Some(t) ==> {
                let t2 = spec_traj_tick(t, ctx.formation_pos);
                let pending = if t2.shot_wait is Some {
                    t2.shot_wait
                } else {
                    old(self).shot_wait
                };
                &&& final(self).traj == Some(t2)
                &&& r == t2.is_running()
                &&& final(self).pos == t2.pos
                &&& final(self).angle == t2.angle
                &&& final(self).speed == t2.speed
                &&& final(self).vangle == t2.vangle
                &&& (pending matches Some(w) ==> (w > 0 ==> final(self).shot_wait == Some(
                    (w - 1) as u32,
                ) && final(queue)@ == old(queue)@) && (w == 0 ==> final(self).shot_wait is None
                    && final(queue)@ == old(queue)@.push(EventType::EneShot(t2.pos))))
                &&& (pending is None ==> final(self).shot_wait is None && final(queue)@ == old(queue)@)
            },
            final(self).state == old(self).state,
            final(self).attack_phase == old(self).attack_phase,
            final(self).enemy_type == old(self).enemy_type,
            final(self).formation_index == old(self).formation_index,
            final(self).troops == old(self).troops,
            final(self).life == old(self).life,
            final(self).disappeared == old(self).disappeared,
            final(self).capturing_state == old(self).capturing_state,
            final(self).copy_angle_to_troops == old(self).copy_angle_to_troops,
            final(self).tractor_beam == old(self).tractor_beam,
            final(self).count == old(self).count,
            final(self).attack_frame_count == old(self).attack_frame_count,
            final(self).target_pos == old(self).target_pos,
            old(queue)@.is_prefix_of(final(queue)@),
    {
        let mut running = false;
        let t_opt = self.traj.take();
        if let Some(mut t) = t_opt {
            let cont = t.update(&ctx.formation_pos, ctx.stage_no);
            self.pos = t.pos;
            self.angle = t.angle;
            self.speed = t.speed;
            self.vangle = t.vangle;
            if let Some(w) = t.is_shot() {
                self.shot_wait = Some(w);
            }
            self.traj = Some(t);
            running = cont;
        }
        if let Some(wait) = self.shot_wait {
            if wait > 0 {
                self.shot_wait = Some(wait - 1);
            } else {
                queue.push(EventType::EneShot(self.pos));
                self.shot_wait = None;
            }
        }
        running
    }
}

/// What settling into formation does to an enemy: motion stops, the
/// residual angle normalizes, angle copying resumes, and a ghost
/// vanishes instead of settling.
pub open spec fn spec_settled(e: Enemy) -> Enemy {
    Enemy {
        speed: 0,
        angle: spec_normalize_angle(e.angle as int) as i32,
        vangle: 0,
        copy_angle_to_troops: true,
        disappeared: e.disappeared || e.life == 0,
        state: EnemyState::Formation,
        ..e
    }
}

/// The shot cadence of an attack run: `min(2 + stage / 8, 5)` volleys,
/// one every `20 - 2 * volleys` ticks, on the first volleys' boundaries
/// only.
pub open spec fn spec_shot_count(stage_no: int) -> int {
    if 2 + stage_no / 8 < 5 {
        2 + stage_no / 8
    } else {
        5
    }
}

/// The tick interval between attack-run volleys.
pub open spec fn spec_shot_interval(stage_no: int) -> int {
    20 - 2 * spec_shot_count(stage_no)
}

/// Whether an attack run fires on the tick with the given frame count.
pub open spec fn spec_fires(stage_no: int, frame: int) -> bool {
    frame <= spec_shot_interval(stage_no) * spec_shot_count(stage_no) && frame % spec_shot_interval(
        stage_no,
    ) == 0
}

/// The volley an attack run fires: one shot from the attacker, one from
/// each live troop.
pub open spec fn spec_volley(pos: Vec2I, troop_positions: Seq<Vec2I>) -> Seq<EventType> {
    seq![EventType::EneShot(pos)] + Seq::new(
        troop_positions.len(),
        |i: int| EventType::EneShot(troop_positions[i]),
    )
}

impl Enemy {
    /// Advances the attack-run frame counter and fires the stage-scaled
    /// shot volley on its cadence.
    fn update_attack_shots(&mut self, ctx: &UpdateContext, queue: &mut EventQueue)
        requires
            old(self).wf(),
            ctx.wf(),
        ensures
            final(self).wf(),
            *final(self) == (Enemy {
                attack_frame_count: final(self).attack_frame_count,
                ..*old(self)
            }),
            final(self).attack_frame_count == if old(self).attack_frame_count < COUNT_CAP {
                old(self).attack_frame_count + 1
            } else {
                old(self).attack_frame_count as int
            },
            final(queue)@ == if spec_fires(
                ctx.stage_no as int,
                final(self).attack_frame_count as int,
            ) {
                old(queue)@ + spec_volley(old(self).pos, ctx.troop_positions@)
            } else {
                old(queue)@
            },
    {
        if self.attack_frame_count < COUNT_CAP {
            self.attack_frame_count = self.attack_frame_count + 1;
        }
        let stage = ctx.stage_no as u32;
        let sc: u32 = if 2 + stage / 8 < 5 {
            2 + stage / 8
        } else {
            5
        };
        let si: u32 = 20 - 2 * sc;
        proof {
            assert(si * sc <= 80) by (nonlinear_arith)
                requires
                    2 <= sc <= 5,
                    10 <= si <= 16,
            ;
        }
        if self.attack_frame_count <= si * sc && self.attack_frame_count % si == 0 {
            queue.push(EventType::EneShot(self.pos));
            let ghost mid = queue@;
            let mut i: usize = 0;
            while i < ctx.troop_positions.len()
                invariant
                    i <= ctx.troop_positions@.len(),
                    queue@ == mid + Seq::new(i as nat, |j: int| EventType::EneShot(
                        ctx.troop_positions@[j],
                    )),
                decreases ctx.troop_positions@.len() - i,
            {
                queue.push(EventType::EneShot(ctx.troop_positions[i]));
                proof {
                    assert(queue@ =~= mid + Seq::new((i + 1) as nat, |j: int| EventType::EneShot(
                        ctx.troop_positions@[j],
                    )));
                }
                i = i + 1;
            }
            proof {
                assert(queue@ =~= old(queue)@ + spec_volley(old(self).pos, ctx.troop_positions@));
            }
        }
    }

    /// One tick of the Formation state: pin the position to the slot
    /// target and let the residual angle decay.
    fn update_formation_state(&mut self, ctx: &UpdateContext)
        requires
            old(self).wf(),
            ctx.wf(),
            old(self).state is Formation,
        ensures
            final(self).wf(),
            *final(self) == (Enemy {
                pos: ctx.formation_pos,
                angle: (old(self).angle - spec_clamp(
                    old(self).angle as int,
                    -512,
                    512,
                )) as i32,
                ..*old(self)
            }),
    {
        self.pos = ctx.formation_pos;
        let ang: i32 = 512;
        self.angle = self.angle - clamp(self.angle, -ang, ang);
    }

    /// One tick of the Assault state: aim at the chosen player position
    /// with a bounded turn rate, then fall until off screen.
    fn update_assault_state(&mut self)
        requires
            old(self).wf(),
            old(self).state is Assault,
        ensures
            final(self).wf(),
            final(self).state == old(self).state,
            final(self).troops == old(self).troops,
            final(self).life == old(self).life,
            final(self).enemy_type == old(self).enemy_type,
            final(self).disappeared == (old(self).disappeared || (old(self).assault_phase
                is Dive && old(self).pos.y >= OFF_SCREEN_Y)),
            old(self).assault_phase is Dive ==> *final(self) == (Enemy {
                disappeared: old(self).disappeared || old(self).pos.y >= OFF_SCREEN_Y,
                ..*old(self)
            }),
    {
        match self.assault_phase {
            AssaultPhase::Aim => {
                let dx = self.target_pos.x - self.pos.x;
                let dy = self.target_pos.y - self.pos.y;
                let target_angle = crate::math::atan2_lut(-dy, dx);
                let d = diff_angle(target_angle, self.angle);
                if d < -ASSAULT_TURN_LIMIT {
                    self.angle = normalize_angle(self.angle - ASSAULT_TURN_LIMIT);
                } else if d > ASSAULT_TURN_LIMIT {
                    self.angle = normalize_angle(self.angle + ASSAULT_TURN_LIMIT);
                } else {
                    self.angle = normalize_angle(self.angle + d);
                    self.assault_phase = AssaultPhase::Dive;
                }
            },
            AssaultPhase::Dive => {
                if self.pos.y >= OFF_SCREEN_Y {
                    self.disappeared = true;
                }
            },
        }
    }

    /// One tick of the Appearance state: run the entry trajectory; on
    /// exhaustion, enemies bound past the last formation row begin an
    /// assault dive at a randomly chosen player, the rest head for
    /// their slot.
    fn update_appearance_state(
        &mut self,
        ctx: &UpdateContext,
        rng: &mut GameRng,
        queue: &mut EventQueue,
    )
        requires
            old(self).wf(),
            ctx.wf(),
            old(self).state is Appearance,
        ensures
            final(self).wf(),
            final(self).troops == old(self).troops,
            final(self).life == old(self).life,
            final(self).enemy_type == old(self).enemy_type,
            final(self).formation_index == old(self).formation_index,
            final(self).disappeared == old(self).disappeared,
            // a running entry script continues, mirrored into the enemy
            !spec_run_ends(old(self).traj, ctx.formation_pos) ==> final(self).state
                is Appearance && final(self).traj == Some(
                spec_traj_tick(old(self).traj.unwrap(), ctx.formation_pos),
            ),
            // a spent script is dropped for good; an enemy bound past
            // the last formation row dives at a chosen player, the rest
            // head for their slot
            spec_run_ends(old(self).traj, ctx.formation_pos) ==> final(self).traj is None && (
            if old(self).formation_index.1 >= Y_COUNT as u8 {
                final(self).state is Assault && final(self).assault_phase is Aim && final(self).vangle == 0 && (final(self).target_pos == ctx.player_pos
                    || ctx.dual_player_pos == Some(final(self).target_pos))
            } else {
                final(self).state is MoveToFormation
            }),
    {
        let running = if self.traj.is_some() {
            self.step_trajectory(ctx, queue)
        } else {
            false
        };
        if running {
            return;
        }
        self.traj = None;
        if self.formation_index.1 >= Y_COUNT as u8 {
            let target = choose_assault_target(ctx, rng);
            self.target_pos = target;
            self.vangle = 0;
            self.assault_phase = AssaultPhase::Aim;
            self.state = EnemyState::Assault;
        } else {
            self.state = EnemyState::MoveToFormation;
        }
    }

    /// Re-arms the type's rush-attack table from the current position:
    /// the endless re-attack flown in rush mode.
    pub fn rush_attack(&mut self)
        requires
            old(self).wf(),
        ensures
            final(self).wf(),
            final(self).state is Attack,
            final(self).attack_phase is Traj,
            // the type's rush re-attack table, armed from the current
            // position
            final(self).traj matches Some(t) && t.commands@ == spec_rush_table_of(
                old(self).enemy_type,
            ) && t.pos == old(self).pos && t.idx == 0 && t.delay == 0 && t.move_rem == 0
                && t.flip_x == (old(self).formation_index.0 >= 5),
            final(self).count == 0 && final(self).attack_frame_count == 0,
            final(self).pos == old(self).pos,
            final(self).troops == old(self).troops,
            final(self).life == old(self).life,
            final(self).enemy_type == old(self).enemy_type,
            final(self).formation_index == old(self).formation_index,
            final(self).disappeared == old(self).disappeared,
            final(self).capturing_state == old(self).capturing_state,
    {
        let table = match self.enemy_type {
            EnemyType::Bee => bee_rush_attack_table(),
            EnemyType::Butterfly => butterfly_rush_attack_table(),
            EnemyType::Owl => owl_rush_attack_table(),
            EnemyType::CapturedFighter => owl_rush_attack_table(),
        };
        let flip_x = self.formation_index.0 >= 5;
        let mut traj = Traj::new(table, &Vec2I::new(0, 0), flip_x, self.formation_index);
        traj.set_pos(&self.pos);
        self.count = 0;
        self.attack_frame_count = 0;
        self.traj = Some(traj);
        self.attack_phase = AttackPhase::Traj;
        self.state = EnemyState::Attack;
    }

    /// Arms an arbitrary scripted attack table from the current
    /// position.
    pub fn set_table_attack(&mut self, commands: Vec<TrajCommand>, flip_x: bool)
        requires
            old(self).wf(),
            table_wf(commands@),
        ensures
            final(self).wf(),
            final(self).state is Attack,
            final(self).attack_phase is Traj,
            final(self).traj matches Some(t) && t.commands == commands,
            final(self).count == 0 && final(self).attack_frame_count == 0,
    {
        let mut traj = Traj::new(commands, &Vec2I::new(0, 0), flip_x, self.formation_index);
        traj.set_pos(&self.pos);
        self.count = 0;
        self.attack_frame_count = 0;
        self.traj = Some(traj);
        self.attack_phase = AttackPhase::Traj;
        self.state = EnemyState::Attack;
    }

    /// Begins an attack run.  A non-capture run arms the type's attack
    /// table; a capture run (Owl only) starts the steer toward the
    /// hover point above the player.  In both cases the attack-start
    /// jingle plays.
    pub fn set_attack(&mut self, capture_attack: bool, player_pos: &Vec2I, queue: &mut EventQueue)
        requires
            old(self).wf(),
            in_coord_range(*player_pos),
            capture_attack ==> old(self).enemy_type is Owl && old(self).formation_index.1 >= 1,
        ensures
            final(self).wf(),
            final(self).state is Attack,
            final(self).count == 0 && final(self).attack_frame_count == 0,
            final(queue)@ == old(queue)@.push(EventType::PlaySe(CH_JINGLE, SE_ATTACK_START)),
            final(self).enemy_type == old(self).enemy_type,
            final(self).formation_index == old(self).formation_index,
            final(self).life == old(self).life,
            final(self).disappeared == old(self).disappeared,
            // a non-capture run arms the type's attack table from the
            // current position; a Bee continues through its own phase
            !capture_attack ==> {
                let t = final(self).traj.unwrap();
                &&& final(self).traj is Some
                &&& t.commands@ == spec_attack_table_of(old(self).enemy_type)
                &&& t.pos == old(self).pos
                &&& t.idx == 0 && t.delay == 0 && t.move_rem == 0
                &&& t.flip_x == (old(self).formation_index.0 >= 5)
            },
            !capture_attack ==> final(self).attack_phase == (if old(self).enemy_type is Bee {
                AttackPhase::Bee
            } else {
                AttackPhase::Traj
            }) && final(self).pos == old(self).pos,
            !capture_attack && old(self).enemy_type is Owl ==> spec_troop_refs(*final(self))
                == Seq::<FormationIndex>::empty() && final(self).copy_angle_to_troops,
            !capture_attack && !(old(self).enemy_type is Owl) ==> final(self).troops == old(self).troops,
            !capture_attack ==> final(self).capturing_state == old(self).capturing_state,
            capture_attack ==> *final(self) == (Enemy {
                count: 0,
                attack_frame_count: 0,
                troops: final(self).troops,
                capturing_state: CapturingState::Attacking,
                speed: 384,
                angle: 0,
                vangle: if old(self).formation_index.0 < 5 {
                    -CAPTURE_TURN_LIMIT as i32
                } else {
                    CAPTURE_TURN_LIMIT as i32
                },
                target_pos: Vec2I { x: player_pos.x, y: CAPTURE_HOVER_Y },
                attack_phase: AttackPhase::Capture,
                state: EnemyState::Attack,
                traj: None,
                ..*old(self)
            }) && spec_troop_refs(*final(self)) == Seq::<FormationIndex>::empty(),
    {
        self.count = 0;
        self.attack_frame_count = 0;
        let flip_x = self.formation_index.0 >= 5;
        match self.enemy_type {
            EnemyType::Bee => {
                let mut traj = Traj::new(
                    bee_attack_table(),
                    &Vec2I::new(0, 0),
                    flip_x,
                    self.formation_index,
                );
                traj.set_pos(&self.pos);
                self.traj = Some(traj);
                self.attack_phase = AttackPhase::Bee;
            },
            EnemyType::Butterfly => {
                let mut traj = Traj::new(
                    butterfly_attack_table(),
                    &Vec2I::new(0, 0),
                    flip_x,
                    self.formation_index,
                );
                traj.set_pos(&self.pos);
                self.traj = Some(traj);
                self.attack_phase = AttackPhase::Traj;
            },
            EnemyType::CapturedFighter => {
                let mut traj = Traj::new(
                    owl_attack_table(),
                    &Vec2I::new(0, 0),
                    flip_x,
                    self.formation_index,
                );
                traj.set_pos(&self.pos);
                self.traj = Some(traj);
                self.attack_phase = AttackPhase::Traj;
            },
            EnemyType::Owl => {
                let _ = self.drain_troops();
                if !capture_attack {
                    self.copy_angle_to_troops = true;
                    let mut traj = Traj::new(
                        owl_attack_table(),
                        &Vec2I::new(0, 0),
                        flip_x,
                        self.formation_index,
                    );
                    traj.set_pos(&self.pos);
                    self.traj = Some(traj);
                    self.attack_phase = AttackPhase::Traj;
                } else {
                    self.capturing_state = CapturingState::Attacking;
                    self.speed = 384;
                    self.angle = 0;
                    self.vangle = if self.formation_index.0 < 5 {
                        -CAPTURE_TURN_LIMIT
                    } else {
                        CAPTURE_TURN_LIMIT
                    };
                    self.target_pos = Vec2I::new(player_pos.x, CAPTURE_HOVER_Y);
                    self.attack_phase = AttackPhase::Capture;
                    self.traj = None;
                }
            },
        }
        self.state = EnemyState::Attack;
        queue.push(EventType::PlaySe(CH_JINGLE, SE_ATTACK_START));
    }
}

impl Enemy {
    /// One tick of the Attack state: scripted runs fire their cadence
    /// and follow their table; the capture phases walk the protocol.
    /// Returns troop references released this tick and, during the
    /// push-up, the captured fighter's new vertical position.
    #[verifier::rlimit(100)]
    fn update_attack_state(&mut self, ctx: &UpdateContext, queue: &mut EventQueue) -> (r: (
        Vec<FormationIndex>,
        Option<i32>,
    ))
        requires
            old(self).wf(),
            ctx.wf(),
            old(self).state is Attack,
        ensures
            final(self).wf(),
            final(self).enemy_type == old(self).enemy_type,
            final(self).formation_index == old(self).formation_index,
            final(self).life == old(self).life,
            old(self).disappeared ==> final(self).disappeared,
            // queued events only grow, in every phase
            old(queue)@.is_prefix_of(final(queue)@),
            // a running scripted run continues; a spent one leaves (a
            // captured fighter), re-arms the type's rush table in rush
            // mode, or heads home
            old(self).attack_phase is Traj ==> {
                &&& (!spec_run_ends(old(self).traj, ctx.formation_pos) ==> final(self).state
                    is Attack && final(self).attack_phase is Traj && final(self).traj == Some(
                    spec_traj_tick(old(self).traj.unwrap(), ctx.formation_pos),
                ))
                &&& (spec_run_ends(old(self).traj, ctx.formation_pos) ==> {
                    &&& (old(self).enemy_type is CapturedFighter ==> final(self).disappeared
                        && final(self).traj is None)
                    &&& (!(old(self).enemy_type is CapturedFighter) && ctx.is_rush ==> {
                        let t = final(self).traj.unwrap();
                        &&& final(self).state is Attack
                        &&& final(self).attack_phase is Traj
                        &&& final(self).traj is Some
                        &&& t.commands@ == spec_rush_table_of(old(self).enemy_type)
                        &&& t.pos == final(self).pos && t.idx == 0
                        &&& final(queue)@.len() > old(queue)@.len()
                        &&& final(queue)@.last() == EventType::PlaySe(CH_JINGLE, SE_ATTACK_START)
                    })
                    &&& (!(old(self).enemy_type is CapturedFighter) && !ctx.is_rush ==> final(self).state is MoveToFormation && final(self).traj is None)
                })
            },
            // rush continuation of a Bee: while the run lasts the phase
            // stays; the spent run re-arms the rush-continuation table
            // in rush mode, else the Bee heads home
            old(self).attack_phase is Bee ==> {
                &&& (!spec_run_ends(old(self).traj, ctx.formation_pos) ==> final(self).state
                    is Attack && final(self).attack_phase is Bee && final(self).traj == Some(
                    spec_traj_tick(old(self).traj.unwrap(), ctx.formation_pos),
                ))
                &&& (spec_run_ends(old(self).traj, ctx.formation_pos) ==> {
                    &&& (ctx.is_rush ==> {
                        let t = final(self).traj.unwrap();
                        &&& final(self).state is Attack
                        &&& final(self).attack_phase is Traj
                        &&& final(self).traj is Some
                        &&& t.commands@ == spec_bee_rush_cont_table()
                        &&& t.pos == final(self).pos && t.idx == 0
                        &&& final(queue)@.len() > old(queue)@.len()
                        &&& final(queue)@.last() == EventType::PlaySe(CH_JINGLE, SE_ATTACK_START)
                    })
                    &&& (!ctx.is_rush ==> final(self).state is MoveToFormation && final(self).traj is None)
                })
            },
            // ghosts do not vanish inside an attack step unless every
            // troop was released with them
            !final(self).disappeared || old(self).disappeared || old(self).enemy_type
                is CapturedFighter || r.0@ == spec_troop_refs(*old(self)),
            // the capture hover point: position snaps, the beam opens
            old(self).attack_phase is Capture && old(self).pos.y >= old(self).target_pos.y
                ==> final(self).attack_phase is CaptureBeam && final(self).pos == (Vec2I {
                x: old(self).pos.x,
                y: old(self).target_pos.y,
            }) && final(self).speed == 0 && final(self).angle == HALF_TURN && final(self).vangle
                == 0 && final(self).count == 0 && final(self).tractor_beam == Some(
                TractorBeam {
                    pos: Vec2I {
                        x: old(self).pos.x,
                        y: spec_clamp(
                            old(self).target_pos.y + 2048,
                            -crate::math::COORD_LIMIT as int,
                            crate::math::COORD_LIMIT as int,
                        ) as i32,
                    },
                    phase: BeamPhase::Opening,
                    count: 0,
                    size: 0,
                },
            ),
            old(self).attack_phase is Capture && old(self).pos.y < old(self).target_pos.y ==> {
                &&& final(self).attack_phase is Capture
                &&& final(self).state is Attack
                &&& final(self).pos == old(self).pos
                &&& (final(self).angle as int, final(self).vangle as int) == spec_capture_steer(
                    old(self).angle as int,
                    old(self).vangle as int,
                    old(self).pos,
                    old(self).target_pos,
                )
            },
            // beam open: a closed beam sends the Owl out; else a
            // capturable player in range starts the capture, firing
            // CapturePlayer exactly once (the phase leaves this state,
            // so it cannot fire again); else nothing happens yet
            old(self).tractor_beam is Some && old(self).attack_phase is CaptureBeam ==> {
                let b = old(self).tractor_beam.unwrap();
                &&& (b.phase is Closed ==> final(self).tractor_beam is None && final(self).attack_phase is CaptureGoOut && final(self).speed == 640 && final(self).state
                    is Attack && final(self).capturing_state == old(self).capturing_state
                    && final(queue)@ == old(queue)@)
                &&& (!(b.phase is Closed) && ctx.can_player_capture && b.phase is Full && -6144
                    <= ctx.player_pos.x - b.pos.x <= 6144 ==> final(self).attack_phase
                    is CaptureStart && final(self).capturing_state is BeamTracting && final(self).count == 0 && final(self).tractor_beam == Some(
                    TractorBeam { phase: BeamPhase::Capturing, count: 0, ..b },
                ) && final(queue)@ == old(queue)@.push(
                    EventType::CapturePlayer(
                        Vec2I {
                            x: old(self).pos.x,
                            y: spec_clamp(
                                old(self).pos.y + 4096,
                                -crate::math::COORD_LIMIT as int,
                                crate::math::COORD_LIMIT as int,
                            ) as i32,
                        },
                    ),
                ))
                &&& (!(b.phase is Closed) && !(ctx.can_player_capture && b.phase is Full && -6144
                    <= ctx.player_pos.x - b.pos.x <= 6144) ==> *final(self) == *old(self)
                    && final(queue)@ == old(queue)@)
            },
            old(self).tractor_beam is None && old(self).attack_phase is CaptureBeam ==> *final(self) == *old(self) && final(queue)@ == old(queue)@,
            // capture-completed wait: the external signal retracts the
            // beam and moves to the close-beam phase
            old(self).attack_phase is CaptureStart ==> if ctx.player_capture_completed {
                final(self).attack_phase is CaptureCloseBeam && final(self).count == 0 && final(self).tractor_beam == (match old(self).tractor_beam {
                    Some(b) => Some(TractorBeam { phase: BeamPhase::Closing, count: 0, ..b }),
                    None => None,
                }) && final(queue)@ == old(queue)@
            } else {
                *final(self) == *old(self) && final(queue)@ == old(queue)@
            },
            // fly-out after a timed-out beam: off the bottom of the
            // screen the Owl warps above it at its column; rush mode
            // re-arms the rush table, otherwise it heads home and the
            // capture attack ends
            old(self).attack_phase is CaptureGoOut ==> {
                &&& (old(self).pos.y < OFF_SCREEN_Y ==> *final(self) == *old(self) && final(queue)@ == old(queue)@)
                &&& (old(self).pos.y >= OFF_SCREEN_Y ==> {
                    &&& final(self).pos == (Vec2I {
                        x: ctx.formation_pos.x,
                        y: spec_clamp(
                            old(self).pos.y - 83968,
                            -crate::math::COORD_LIMIT as int,
                            crate::math::COORD_LIMIT as int,
                        ) as i32,
                    })
                    &&& (ctx.is_rush ==> {
                        let t = final(self).traj.unwrap();
                        &&& final(self).state is Attack
                        &&& final(self).attack_phase is Traj
                        &&& final(self).traj is Some
                        &&& t.commands@ == spec_rush_table_of(old(self).enemy_type)
                        &&& t.pos == final(self).pos
                        &&& final(queue)@ == old(queue)@.push(
                            EventType::PlaySe(CH_JINGLE, SE_ATTACK_START),
                        )
                    })
                    &&& (!ctx.is_rush ==> final(self).state is MoveToFormation && final(self).capturing_state is Inactive && final(queue)@ == old(queue)@.push(
                        EventType::EndCaptureAttack,
                    ))
                })
            },
            // beam closed after a capture: the captured fighter spawns
            // one row above, as a new troop
            old(self).tractor_beam is Some && old(self).attack_phase is CaptureCloseBeam
                && old(self).tractor_beam.unwrap().phase is Closed ==> {
                &&& final(self).attack_phase is CaptureDoneWait
                &&& final(self).count == 0
                &&& final(self).tractor_beam is None
                &&& final(self).capturing_state is Attacking
                &&& !final(self).copy_angle_to_troops
                &&& ((exists|i: int|
                    0 <= i < old(self).troops@.len() && old(self).troops@[i] is None)
                    ==> spec_troop_refs(*final(self)).contains(
                    spec_captured_fighter_slot(*old(self)),
                ))
                &&& final(queue)@ == old(queue)@.push(
                    EventType::SpawnCapturedFighter(
                        Vec2I {
                            x: old(self).pos.x,
                            y: spec_clamp(
                                old(self).pos.y + 4096,
                                -crate::math::COORD_LIMIT as int,
                                crate::math::COORD_LIMIT as int,
                            ) as i32,
                        },
                        spec_captured_fighter_slot(*old(self)),
                    ),
                ).push(EventType::CapturePlayerCompleted)
            },
            // hold, then fly back
            old(self).attack_phase is CaptureDoneWait ==> {
                let c = if old(self).count < COUNT_CAP {
                    old(self).count + 1
                } else {
                    old(self).count as int
                };
                *final(self) == (Enemy {
                    count: c as u32,
                    speed: if c >= CAPTURE_DONE_WAIT_TICKS {
                        640int
                    } else {
                        old(self).speed as int
                    } as i32,
                    attack_phase: if c >= CAPTURE_DONE_WAIT_TICKS {
                        AttackPhase::CaptureBack
                    } else {
                        AttackPhase::CaptureDoneWait
                    },
                    ..*old(self)
                })
            },
            (r.1 matches Some(y2) ==> -crate::math::COORD_LIMIT * 2 <= y2
                <= crate::math::COORD_LIMIT * 2),
            // the push-up: the fighter rises one unit per tick and the
            // sequence ends when it reaches its slot height
            ctx.captured_fighter_y is Some && old(self).attack_phase is CapturePushUp ==> {
                let y = ctx.captured_fighter_y.unwrap();
                &&& r.1 == Some(
                    (if y - 256 <= old(self).pos.y - 4096 {
                        old(self).pos.y - 4096
                    } else {
                        y - 256
                    }) as i32,
                )
                &&& (y - 256 <= old(self).pos.y - 4096 ==> final(self).state is Formation
                    && spec_troop_refs(*final(self)) == Seq::<FormationIndex>::empty() && r.0@
                    == spec_troop_refs(*old(self)) && final(queue)@ == old(queue)@.push(
                    EventType::CaptureSequenceEnded,
                ))
                &&& (y - 256 > old(self).pos.y - 4096 ==> final(self).attack_phase
                    is CapturePushUp && final(self).state is Attack)
            },
    {
        let mut released: Vec<FormationIndex> = Vec::new();
        let mut set_troop_y: Option<i32> = None;
        match self.attack_phase {
            AttackPhase::Traj => {
                self.update_attack_shots(ctx, queue);
                let running = if self.traj.is_some() {
                    self.step_trajectory(ctx, queue)
                } else {
                    false
                };
                if !running {
                    self.traj = None;
                    if matches!(self.enemy_type, EnemyType::CapturedFighter) {
                        self.disappeared = true;
                    } else if ctx.is_rush {
                        self.rush_attack();
                        queue.push(EventType::PlaySe(CH_JINGLE, SE_ATTACK_START));
                    } else {
                        self.state = EnemyState::MoveToFormation;
                    }
                }
            },
            AttackPhase::Bee => {
                self.update_attack_shots(ctx, queue);
                let running = if self.traj.is_some() {
                    self.step_trajectory(ctx, queue)
                } else {
                    false
                };
                if !running {
                    if ctx.is_rush {
                        let flip_x = self.formation_index.0 >= 5;
                        let mut traj = Traj::new(
                            bee_rush_cont_table(),
                            &Vec2I::new(0, 0),
                            flip_x,
                            self.formation_index,
                        );
                        traj.set_pos(&self.pos);
                        self.traj = Some(traj);
                        self.attack_phase = AttackPhase::Traj;
                        queue.push(EventType::PlaySe(CH_JINGLE, SE_ATTACK_START));
                    } else {
                        self.traj = None;
                        self.state = EnemyState::MoveToFormation;
                    }
                }
            },
            AttackPhase::Capture => {
                if self.pos.y >= self.target_pos.y {
                    self.pos = Vec2I::new(self.pos.x, self.target_pos.y);
                    self.speed = 0;
                    self.angle = HALF_TURN;
                    self.vangle = 0;
                    let beam_pos = self.pos.plus(&Vec2I::new(0, 8 * ONE)).clamped();
                    self.tractor_beam = Some(TractorBeam::new(&beam_pos));
                    self.attack_phase = AttackPhase::CaptureBeam;
                    self.count = 0;
                } else {
                    let dx = self.target_pos.x - self.pos.x;
                    let dy = self.target_pos.y - self.pos.y;
                    let ta0 = crate::math::atan2_lut(-dy, dx);
                    let ta = if ta0 >= 0 {
                        if ta0 < CAPTURE_ANGLE_LIMIT {
                            CAPTURE_ANGLE_LIMIT
                        } else {
                            ta0
                        }
                    } else {
                        if ta0 > -CAPTURE_ANGLE_LIMIT {
                            -CAPTURE_ANGLE_LIMIT
                        } else {
                            ta0
                        }
                    };
                    let d0 = diff_angle(ta, self.angle);
                    let d = if self.vangle > 0 && d0 < 0 {
                        d0 + 65536
                    } else if self.vangle < 0 && d0 > 0 {
                        d0 - 65536
                    } else {
                        d0
                    };
                    if -CAPTURE_TURN_LIMIT <= d && d < CAPTURE_TURN_LIMIT {
                        self.angle = ta;
                        self.vangle = 0;
                    }
                }
            },
            AttackPhase::CaptureBeam => {
                let mut close_out = false;
                let mut begin_capture = false;
                match &self.tractor_beam {
                    Some(b) => {
                        if b.closed() {
                            close_out = true;
                        } else if ctx.can_player_capture && b.can_capture(&ctx.player_pos) {
                            begin_capture = true;
                        }
                    },
                    None => {},
                }
                if close_out {
                    self.tractor_beam = None;
                    self.speed = 640;
                    self.attack_phase = AttackPhase::CaptureGoOut;
                } else if begin_capture {
                    let cap_pos = self.pos.plus(&Vec2I::new(0, 16 * ONE)).clamped();
                    queue.push(EventType::CapturePlayer(cap_pos));
                    if let Some(b) = &mut self.tractor_beam {
                        b.start_capture();
                    }
                    self.capturing_state = CapturingState::BeamTracting;
                    self.attack_phase = AttackPhase::CaptureStart;
                    self.count = 0;
                }
            },
            AttackPhase::CaptureGoOut => {
                if self.pos.y >= OFF_SCREEN_Y {
                    let target = ctx.formation_pos;
                    let offset = Vec2I::new(target.x - self.pos.x, -83968);
                    self.pos = self.pos.plus(&offset).clamped();
                    if ctx.is_rush {
                        self.rush_attack();
                        queue.push(EventType::PlaySe(CH_JINGLE, SE_ATTACK_START));
                    } else {
                        self.capturing_state = CapturingState::Inactive;
                        self.state = EnemyState::MoveToFormation;
                        queue.push(EventType::EndCaptureAttack);
                    }
                }
            },
            AttackPhase::CaptureStart => {
                if ctx.player_capture_completed {
                    if let Some(b) = &mut self.tractor_beam {
                        b.close_capture();
                    }
                    self.attack_phase = AttackPhase::CaptureCloseBeam;
                    self.count = 0;
                }
            },
            AttackPhase::CaptureCloseBeam => {
                let mut beam_closed = false;
                match &self.tractor_beam {
                    Some(b) => {
                        if b.closed() {
                            beam_closed = true;
                        }
                    },
                    None => {},
                }
                if beam_closed {
                    let fi = self.captured_fighter_slot();
                    let spawn_pos = self.pos.plus(&Vec2I::new(0, 16 * ONE)).clamped();
                    queue.push(EventType::SpawnCapturedFighter(spawn_pos, fi));
                    let _ = self.add_troop(fi);
                    self.tractor_beam = None;
                    self.capturing_state = CapturingState::Attacking;
                    queue.push(EventType::CapturePlayerCompleted);
                    self.copy_angle_to_troops = false;
                    self.attack_phase = AttackPhase::CaptureDoneWait;
                    self.count = 0;
                }
            },
            AttackPhase::CaptureDoneWait => {
                if self.count < COUNT_CAP {
                    self.count = self.count + 1;
                }
                if self.count >= CAPTURE_DONE_WAIT_TICKS {
                    self.speed = 640;
                    self.attack_phase = AttackPhase::CaptureBack;
                }
            },
            AttackPhase::CaptureBack => {
                if !self.update_move_to_formation(ctx) {
                    self.speed = 0;
                    self.angle = normalize_angle(self.angle);
                    self.attack_phase = AttackPhase::CapturePushUp;
                }
            },
            AttackPhase::CapturePushUp => {
                let ang: i32 = 512;
                self.angle = self.angle - clamp(self.angle, -ang, ang);
                let mut done = false;
                if let Some(y) = ctx.captured_fighter_y {
                    let topy = self.pos.y - 16 * ONE;
                    let mut ny = y - ONE;
                    if ny <= topy {
                        ny = topy;
                        done = true;
                    }
                    set_troop_y = Some(ny);
                }
                if done {
                    queue.push(EventType::CaptureSequenceEnded);
                    released = self.drain_troops();
                    self.set_to_formation();
                }
            },
        }
        (released, set_troop_y)
    }
}

impl Enemy {
    /// One simulation tick: the state handler runs, the velocity
    /// integrates, the tractor beam advances, and a ghost with no live
    /// troops left vanishes.  The result carries what the manager
    /// applies afterwards: the troop delta (every live troop moves by
    /// exactly it), the angle to copy, the capture push-up write, and
    /// any released troops.
    pub fn update(&mut self, ctx: &UpdateContext, rng: &mut GameRng, queue: &mut EventQueue) -> (
        r: UpdateResult)
        requires
            old(self).wf(),
            ctx.wf(),
        ensures
            final(self).wf(),
            final(self).enemy_type == old(self).enemy_type,
            // the formation pin: an enemy that starts the tick settled
            // ends it exactly on its slot target
            old(self).state is Formation ==> final(self).state is Formation && final(self).pos
                == ctx.formation_pos,
            // the ghost invariant: a ghost Owl with live troops only
            // ever vanishes by converting them all back to formation,
            // and a ghost with no live troops left vanishes this tick
            old(self).enemy_type is Owl && old(self).life == 0 && !old(self).disappeared
                && ctx.has_live_troops && !(old(self).state is Assault)
                ==> !final(self).disappeared || r.released@ == spec_troop_refs(*old(self)),
            old(self).life == 0 && !ctx.has_live_troops ==> final(self).disappeared,
            old(self).disappeared ==> final(self).disappeared,
            // the cosmetic settle wobble: a settled enemy's residual
            // angle decays by a fixed small step each tick
            old(self).state is Formation ==> final(self).angle == spec_normalize_angle(
                (old(self).angle - spec_clamp(old(self).angle as int, -512, 512))
                    + old(self).vangle,
            ) as i32,
            // what the manager propagates to troops
            r.pos_delta.x == final(self).pos.x - old(self).pos.x,
            r.pos_delta.y == final(self).pos.y - old(self).pos.y,
            r.troop_angle == if final(self).copy_angle_to_troops {
                Some(final(self).angle)
            } else {
                Option::<i32>::None
            },
            (r.set_troop_y matches Some(y2) ==> -crate::math::COORD_LIMIT * 2 <= y2
                <= crate::math::COORD_LIMIT * 2),
            // rush continuation: while a Bee's run lasts the phase
            // stays; the spent run re-arms the rush-continuation table
            // in rush mode, else the Bee heads home
            old(self).state is Attack && old(self).attack_phase is Bee ==> {
                &&& (!spec_run_ends(old(self).traj, ctx.formation_pos) ==> final(self).state
                    is Attack && final(self).attack_phase is Bee)
                &&& (spec_run_ends(old(self).traj, ctx.formation_pos) && ctx.is_rush ==> final(self).state is Attack && final(self).attack_phase is Traj && final(self).traj
                    is Some && final(self).traj.unwrap().commands@
                    == spec_bee_rush_cont_table())
                &&& (spec_run_ends(old(self).traj, ctx.formation_pos) && !ctx.is_rush ==> final(self).state is MoveToFormation)
            },
    {
        let ghost pre = *self;
        let prev_pos = self.pos;
        let mut released: Vec<FormationIndex> = Vec::new();
        let mut set_troop_y: Option<i32> = None;
        match self.state {
            EnemyState::Dormant | EnemyState::Troop => {},
            EnemyState::Appearance => {
                self.update_appearance_state(ctx, rng, queue);
            },
            EnemyState::MoveToFormation => {
                if !self.update_move_to_formation(ctx) {
                    released = self.drain_troops();
                    self.set_to_formation();
                }
            },
            EnemyState::Assault => {
                self.update_assault_state();
            },
            EnemyState::Formation => {
                self.update_formation_state(ctx);
            },
            EnemyState::Attack => {
                let (rel, sty) = self.update_attack_state(ctx, queue);
                released = rel;
                set_troop_y = sty;
            },
        }
        let v = calc_velocity(self.angle + half(self.vangle), self.speed);
        self.pos = self.pos.plus(&v).clamped();
        self.angle = normalize_angle(self.angle + self.vangle);
        let troop_angle = if self.copy_angle_to_troops {
            Some(self.angle)
        } else {
            None
        };
        if let Some(b) = &mut self.tractor_beam {
            b.update();
        }
        if self.life == 0 && !self.disappeared && !ctx.has_live_troops {
            self.disappeared = true;
        }
        let pos_delta = self.pos.minus(&prev_pos);
        UpdateResult { pos_delta, troop_angle, set_troop_y, released }
    }
}

impl Enemy {
    /// The sprite key for this enemy at animation step `pat`; an Owl
    /// down to one hit point shows its damaged frames.
    pub fn sprite_name(&self, pat: usize) -> (r: &'static str)
        requires
            pat < 2,
    {
        match self.enemy_type {
            EnemyType::Bee => if pat == 0 {
                "gopher1"
            } else {
                "gopher2"
            },
            EnemyType::Butterfly => if pat == 0 {
                "dman1"
            } else {
                "dman2"
            },
            EnemyType::Owl => {
                if self.life <= 1 {
                    if pat == 0 {
                        "cpp21"
                    } else {
                        "cpp22"
                    }
                } else {
                    if pat == 0 {
                        "cpp11"
                    } else {
                        "cpp12"
                    }
                }
            },
            EnemyType::CapturedFighter => "rustacean_captured",
        }
    }

    /// Draws the enemy (ghosts are invisible) and its tractor beam.
    pub fn draw<R: crate::framework::RendererTrait>(&self, renderer: &mut R, pat: usize)
        requires
            self.wf(),
            pat < 2,
    {
        if self.life == 0 {
            return;
        }
        let sprite = self.sprite_name(pat);
        let angle = crate::math::quantize_angle(self.angle, crate::consts::ANGLE_DIV);
        let p = self.pos();
        let draw_pos = Vec2I::new(p.x - 8, p.y - 8);
        renderer.draw_sprite_rot(sprite, &draw_pos, angle);
        if let Some(b) = &self.tractor_beam {
            let bp = round_up(&b.pos);
            let mut i: u32 = 0;
            while i < b.size
                invariant
                    b.size <= crate::tractor_beam::BEAM_SEGMENTS,
                    -100000 <= bp.x <= 100000,
                    -100000 <= bp.y <= 100000,
                    i <= b.size,
                decreases b.size - i,
            {
                let seg_pos = Vec2I::new(bp.x - 8, bp.y + 8 * (i as i32));
                renderer.draw_sprite("beam", &seg_pos);
                i = i + 1;
            }
        }
    }

    /// The enemy's collision box, in pixels; ghosts have none.
    pub fn get_collbox(&self) -> (r: Option<crate::collision::CollBox>)
        requires
            self.wf(),
        ensures
            r is Some <==> self.life > 0,
            r matches Some(cb) ==> cb == spec_enemy_box(*self),
    {
        if self.life > 0 {
            let p = self.pos();
            Some(
                crate::collision::CollBox {
                    top_left: Vec2I::new(p.x - 6, p.y - 6),
                    size: Vec2I::new(12, 12),
                },
            )
        } else {
            None
        }
    }
}

/// Picks the assault target: the primary player, or with even chance
/// the dual fighter when one flies.
fn choose_assault_target(ctx: &UpdateContext, rng: &mut GameRng) -> (r: Vec2I)
    requires
        ctx.wf(),
    ensures
        in_coord_range(r),
        r == ctx.player_pos || ctx.dual_player_pos == Some(r),
{
    match ctx.dual_player_pos {
        Some(d) => {
            let k = rng.gen_index(2);
            if k == 0 {
                ctx.player_pos
            } else {
                d
            }
        },
        None => ctx.player_pos,
    }
}

/// The collision box an enemy presents: a 12-pixel square centered on
/// its rounded position.
pub open spec fn spec_enemy_box(e: Enemy) -> crate::collision::CollBox {
    crate::collision::CollBox {
        top_left: Vec2I {
            x: (crate::types::spec_round_coord(e.pos.x as int) - 6) as i32,
            y: (crate::types::spec_round_coord(e.pos.y as int) - 6) as i32,
        },
        size: Vec2I { x: 12, y: 12 },
    }
}

/// A troop's position after adding the leader's delta (clamped to the
/// coordinate range).
pub open spec fn spec_troop_moved_pos(pos: Vec2I, add: Vec2I) -> Vec2I {
    Vec2I {
        x: spec_clamp(
            pos.x + add.x,
            -crate::math::COORD_LIMIT as int,
            crate::math::COORD_LIMIT as int,
        ) as i32,
        y: spec_clamp(
            pos.y + add.y,
            -crate::math::COORD_LIMIT as int,
            crate::math::COORD_LIMIT as int,
        ) as i32,
    }
}

/// Events a lethal hit appends: the Owl's capture-release event (if
/// any), the captured fighter's destruction notice, then the explosion.
pub open spec fn spec_death_events(e: Enemy, point: int) -> Seq<EventType> {
    let release = if e.enemy_type is Owl {
        spec_owl_release_events(e)
    } else if e.enemy_type is CapturedFighter {
        seq![EventType::CapturedFighterDestroyed]
    } else {
        Seq::empty()
    };
    release.push(EventType::EnemyExplosion(e.pos, e.angle, e.enemy_type))
}

/// An all-`None` prefix holds no references.
proof fn lemma_troop_refs_all_none(a: Seq<Option<FormationIndex>>, n: int)
    requires
        n <= a.len(),
        forall|j: int| 0 <= j < n ==> a[j] is None,
    ensures
        spec_troop_refs_rec(a, n) == Seq::<FormationIndex>::empty(),
    decreases n,
{
    if n > 0 {
        lemma_troop_refs_all_none(a, n - 1);
    }
}

/// Extending the prefix over a slot holding `fi` makes the list contain
/// `fi`.
proof fn lemma_troop_refs_rec_extend_contains(
    a: Seq<Option<FormationIndex>>,
    i: int,
    fi: FormationIndex,
)
    requires
        0 <= i < a.len(),
        a[i] == Some(fi),
    ensures
        forall|n: int| i < n <= a.len() ==> #[trigger] spec_troop_refs_rec(a, n).contains(fi),
    decreases a.len(),
{
    assert forall|n: int| i < n <= a.len() implies #[trigger] spec_troop_refs_rec(a, n).contains(
        fi,
    ) by {
        lemma_troop_refs_rec_extend_contains_at(a, i, fi, n);
    }
}

/// Helper for the lemma above, by induction on the prefix.
proof fn lemma_troop_refs_rec_extend_contains_at(
    a: Seq<Option<FormationIndex>>,
    i: int,
    fi: FormationIndex,
    n: int,
)
    requires
        0 <= i < a.len(),
        a[i] == Some(fi),
        i < n <= a.len(),
    ensures
        spec_troop_refs_rec(a, n).contains(fi),
    decreases n,
{
    if n == i + 1 {
        assert(spec_troop_refs_rec(a, n).last() == fi);
    } else {
        lemma_troop_refs_rec_extend_contains_at(a, i, fi, n - 1);
        let prev = spec_troop_refs_rec(a, n - 1);
        let cur = spec_troop_refs_rec(a, n);
        let j = choose|j: int| 0 <= j < prev.len() && prev[j] == fi;
        assert(cur[j] == fi);
    }
}

/// Two to a small power stays within `u32` shifting range.
proof fn lemma_pow2_small(k: int)
    requires
        0 <= k <= 3,
    ensures
        pow2(k) == if k == 0 {
            1int
        } else if k == 1 {
            2int
        } else if k == 2 {
            4int
        } else {
            8int
        },
{
    assert(pow2(0) == 1);
    assert(pow2(1) == 2);
    assert(pow2(2) == 4);
    assert(pow2(3) == 8);
}

} // verus!
