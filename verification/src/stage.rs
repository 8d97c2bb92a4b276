//! The stage manager: owns the enemy arena, the formation grid and the
//! two schedulers, runs the per-tick pass order, and drives the
//! stage-wide state machine Appearance → Normal → Rush → Cleared.

use vstd::prelude::*;
use crate::appearance_manager::AppearanceManager;
use crate::attack_manager::{AttackManager, ATTACK_WAIT_JITTER};
use crate::collision::CollBox;
use crate::consts::RUSH_THRESHOLD;
use crate::enemy::{Enemy, EnemyState, EnemyType};
use crate::enemy_manager::{CollisionResult, EnemyManager, WorldInput};
use crate::event::EventQueue;
use crate::formation::Formation;
use crate::types::{in_coord_range, FormationIndex, Vec2I};

verus! {

/// The stage-wide state: forward-only per stage.
#[derive(Clone, Copy, Debug, PartialEq, Eq, Structural)]
pub enum StageState {
    /// Enemies still arriving.
    Appearance,
    /// Formation assembled; normal attack waves.
    Normal,
    /// Few enemies left: escalated, endless attacks.
    Rush,
    /// Every enemy gone.
    Cleared,
}

/// Position of a stage state in the forward-only progression.
pub open spec fn spec_stage_rank(s: StageState) -> int {
    match s {
        StageState::Appearance => 0,
        StageState::Normal => 1,
        StageState::Rush => 2,
        StageState::Cleared => 3,
    }
}

/// The stage-state transition on an alive count: zero enemies clear
/// the stage, at most `RUSH_THRESHOLD` enter rush mode, and the
/// appearance phase only ends by the schedule, never by the count.
pub open spec fn spec_next_stage_state(s: StageState, alive: u32) -> StageState {
    if s is Appearance {
        s
    } else if alive == 0 {
        StageState::Cleared
    } else if alive <= RUSH_THRESHOLD {
        StageState::Rush
    } else {
        s
    }
}

/// The stage-state transition function, as executable code.
pub fn next_stage_state(s: StageState, alive: u32) -> (r: StageState)
    ensures
        r == spec_next_stage_state(s, alive),
{
    if matches!(s, StageState::Appearance) {
        s
    } else if alive == 0 {
        StageState::Cleared
    } else if alive <= RUSH_THRESHOLD {
        StageState::Rush
    } else {
        s
    }
}

/// The stage never steps backward: as the alive count falls, the state
/// only advances through Normal → Rush → Cleared, crossing each
/// threshold exactly (at most `RUSH_THRESHOLD` means Rush, zero means
/// Cleared), never reordering.
pub proof fn lemma_stage_state_forward(s: StageState, alive: u32)
    requires
        s is Cleared ==> alive == 0,
    ensures
        spec_stage_rank(spec_next_stage_state(s, alive)) >= spec_stage_rank(s),
        alive == 0 && !(s is Appearance) ==> spec_next_stage_state(s, alive) is Cleared,
        0 < alive <= RUSH_THRESHOLD && !(s is Appearance) ==> spec_next_stage_state(s, alive)
            is Rush,
        alive > RUSH_THRESHOLD ==> spec_next_stage_state(s, alive) == s,
{
}

/// The stage manager.
pub struct StageManager {
    /// The enemy arena.
    pub enemy_manager: EnemyManager,
    /// The formation grid.
    pub formation: Formation,
    /// The spawn scheduler.
    pub appearance_manager: AppearanceManager,
    /// The attack scheduler.
    pub attack_manager: AttackManager,
    /// The stage-wide state.
    pub stage_state: StageState,
    /// Current stage number.
    pub stage_no: u16,
}

impl StageManager {
    /// Every part well-formed, and the rush invariant: once past the
    /// appearance phase the state matches the thresholds crossed.
    pub open spec fn wf(&self) -> bool {
        &&& self.enemy_manager.wf()
        &&& self.formation.wf()
        &&& self.appearance_manager.wf()
        &&& self.attack_manager.wf()
    }

    /// Builds the manager for stage 0.
    pub fn new() -> (r: StageManager)
        ensures
            r.wf(),
            r.stage_state is Appearance,
            r.stage_no == 0,
    {
        StageManager {
            enemy_manager: EnemyManager::new(),
            formation: Formation::new(),
            appearance_manager: AppearanceManager::new(0),
            attack_manager: AttackManager::new(),
            stage_state: StageState::Appearance,
            stage_no: 0,
        }
    }

    /// Starts the given stage from the top: the arena clears, the
    /// schedules reset, and a surviving captured fighter rejoins.
    pub fn start_next_stage(&mut self, stage: u16, captured_fighter: Option<FormationIndex>)
        requires
            old(self).wf(),
        ensures
            final(self).wf(),
            final(self).stage_state is Appearance,
            final(self).stage_no == stage,
            final(self).appearance_manager.captured_fighter == captured_fighter,
            forall|i: int| 0 <= i < final(self).enemy_manager.enemies@.len() ==> #[trigger] final(self).enemy_manager.enemies@[i] is None,
    {
        self.enemy_manager.start_next_stage();
        self.appearance_manager.restart(stage, captured_fighter);
        self.formation.restart();
        self.attack_manager.restart(stage);
        self.stage_state = StageState::Appearance;
        self.stage_no = stage;
    }

    /// True when the stage is cleared and the arena is empty.
    pub fn all_destroyed(&self) -> (r: bool)
        requires
            self.wf(),
        ensures
            r ==> self.stage_state is Cleared,
    {
        matches!(self.stage_state, StageState::Cleared) && self.enemy_manager.all_destroyed()
    }

    /// True in rush mode.
    pub fn is_rush(&self) -> (r: bool)
        ensures
            r == (self.stage_state is Rush),
    {
        matches!(self.stage_state, StageState::Rush)
    }

    /// One simulation tick, in the fixed pass order: appearance,
    /// formation settle, attack scheduling, per-enemy update, shot
    /// update, then the stage-state thresholds.
    pub fn update(&mut self, world: &WorldInput, queue: &mut EventQueue)
        requires
            old(self).wf(),
            world.wf(),
        ensures
            final(self).wf(),
            final(self).stage_no == old(self).stage_no,
            // the threshold step runs last on the final alive count
            final(self).stage_state == spec_next_stage_state(
                if old(self).stage_state is Appearance && final(self).appearance_manager.done
                    && !old(self).appearance_manager.done {
                    StageState::Normal
                } else {
                    old(self).stage_state
                },
                final(self).enemy_manager.alive_enemy_count,
            ),
    {
        self.update_appearance();
        self.formation.update();
        self.update_attackers(world, queue);
        let is_rush = matches!(self.stage_state, StageState::Rush);
        self.enemy_manager.update_enemies(
            &self.formation,
            world,
            is_rush,
            self.stage_no,
            queue,
        );
        self.enemy_manager.update_shots();
        self.check_stage_state();
    }

    /// Runs the spawn schedule and places the newborn enemies; when the
    /// schedule finishes, the formation starts settling, attacks are
    /// enabled and the stage leaves the appearance phase.
    fn update_appearance(&mut self)
        requires
            old(self).wf(),
        ensures
            final(self).wf(),
            final(self).stage_no == old(self).stage_no,
            final(self).stage_state == if old(self).stage_state is Appearance && final(self).appearance_manager.done && !old(self).appearance_manager.done {
                StageState::Normal
            } else {
                old(self).stage_state
            },
            final(self).enemy_manager.alive_enemy_count >= old(self).enemy_manager.alive_enemy_count,
    {
        let prev_done = self.appearance_manager.done;
        if let Some(mut born) = self.appearance_manager.update() {
            proof {
                assert(forall|i: int| 0 <= i < born@.len() ==> (#[trigger] born@[i]).wf());
            }
            let ghost am = self.appearance_manager;
            while born.len() > 0
                invariant
                    self.wf(),
                    forall|i: int| 0 <= i < born@.len() ==> (#[trigger] born@[i]).wf(),
                    self.stage_no == old(self).stage_no,
                    self.stage_state == old(self).stage_state,
                    self.appearance_manager == am,
                    self.enemy_manager.alive_enemy_count >= old(self).enemy_manager.alive_enemy_count,
                decreases born@.len(),
            {
                let ghost pre = born@;
                let e = born.remove(0);
                proof {
                    assert(forall|i: int| 0 <= i < born@.len() ==> born@[i] == pre[i + 1]);
                }
                let _ = self.enemy_manager.spawn(e);
            }
        }
        if !prev_done && self.appearance_manager.done {
            if matches!(self.stage_state, StageState::Appearance) {
                self.stage_state = StageState::Normal;
            }
            self.formation.done_appearance();
            self.attack_manager.set_enable(true);
        }
    }

    /// Clears spent attackers, and launches a new attack when the
    /// scheduler is ready: a settled Owl with capture available flies a
    /// capture attack, any other settled enemy a normal run.
    fn update_attackers(&mut self, world: &WorldInput, queue: &mut EventQueue)
        requires
            old(self).wf(),
            world.wf(),
        ensures
            final(self).wf(),
            final(self).stage_no == old(self).stage_no,
            final(self).stage_state == old(self).stage_state,
            final(self).appearance_manager == old(self).appearance_manager,
            final(self).enemy_manager.alive_enemy_count == old(self).enemy_manager.alive_enemy_count,
    {
        self.clear_spent_attackers();
        let launch = self.attack_manager.ready_to_launch();
        if launch {
            let is_rush = matches!(self.stage_state, StageState::Rush);
            match self.pick_attacker(world.can_capture_attack) {
                Some((fi, capture)) => {
                    let started = self.enemy_manager.start_attack(&fi, capture, world, queue);
                    if started {
                        self.attack_manager.note_attacker(&fi);
                        let jitter = self.enemy_manager.rng.gen_index(
                            ATTACK_WAIT_JITTER as usize,
                        );
                        self.attack_manager.rearm(is_rush, jitter as u32);
                    }
                },
                None => {},
            }
        }
    }

    /// Drops tracked attackers whose enemy is gone or settled again.
    fn clear_spent_attackers(&mut self)
        requires
            old(self).wf(),
        ensures
            final(self).wf(),
            final(self).stage_no == old(self).stage_no,
            final(self).stage_state == old(self).stage_state,
            final(self).appearance_manager == old(self).appearance_manager,
            final(self).enemy_manager == old(self).enemy_manager,
    {
        let mut k: usize = 0;
        while k < crate::attack_manager::MAX_ATTACKERS
            invariant
                self.wf(),
                self.stage_no == old(self).stage_no,
                self.stage_state == old(self).stage_state,
                self.appearance_manager == old(self).appearance_manager,
                self.enemy_manager == old(self).enemy_manager,
                k <= crate::attack_manager::MAX_ATTACKERS,
            decreases crate::attack_manager::MAX_ATTACKERS - k,
        {
            let mut spent: Option<FormationIndex> = None;
            if k < self.attack_manager.attackers.len() {
                if let Some(fi) = self.attack_manager.attackers[k] {
                    match self.enemy_manager.get_enemy_at(&fi) {
                        Some(e) => {
                            if !matches!(e.state(), EnemyState::Attack) {
                                spent = Some(fi);
                            }
                        },
                        None => {
                            spent = Some(fi);
                        },
                    }
                }
            }
            if let Some(fi) = spent {
                self.attack_manager.clear_attacker(&fi);
            }
            k = k + 1;
        }
    }

    /// Chooses the next attacker among the formation-settled enemies:
    /// an Owl with a row above it when a capture attack is available
    /// (flying one), else the first settled enemy found.
    fn pick_attacker(&self, can_capture_attack: bool) -> (r: Option<(FormationIndex, bool)>)
        requires
            self.wf(),
        ensures
            r matches Some(p) ==> (p.1 ==> can_capture_attack),
    {
        // prefer a capture-capable Owl
        if can_capture_attack {
            let mut i: usize = 0;
            while i < self.enemy_manager.enemies.len()
                invariant
                    self.wf(),
                    can_capture_attack,
                    i <= self.enemy_manager.enemies@.len(),
                decreases self.enemy_manager.enemies@.len() - i,
            {
                match &self.enemy_manager.enemies[i] {
                    Some(e) => {
                        if matches!(e.enemy_type, EnemyType::Owl) && matches!(
                            e.state,
                            EnemyState::Formation,
                        ) && e.formation_index.1 >= 1 {
                            return Some((e.formation_index, true));
                        }
                    },
                    None => {},
                }
                i = i + 1;
            }
        }
        let mut i: usize = 0;
        while i < self.enemy_manager.enemies.len()
            invariant
                self.wf(),
                i <= self.enemy_manager.enemies@.len(),
            decreases self.enemy_manager.enemies@.len() - i,
        {
            match &self.enemy_manager.enemies[i] {
                Some(e) => {
                    if matches!(e.state, EnemyState::Formation) && e.life > 0 {
                        return Some((e.formation_index, false));
                    }
                },
                None => {},
            }
            i = i + 1;
        }
        None
    }

    /// Applies the stage-state thresholds to the current alive count.
    fn check_stage_state(&mut self)
        requires
            old(self).wf(),
        ensures
            final(self).wf(),
            *final(self) == (StageManager {
                stage_state: spec_next_stage_state(
                    old(self).stage_state,
                    old(self).enemy_manager.alive_enemy_count,
                ),
                ..*old(self)
            }),
    {
        self.stage_state = next_stage_state(self.stage_state, self.enemy_manager.alive_enemy_count);
    }

    /// Forwards a player-shot collision test to the arena.
    pub fn check_collision(&mut self, target: &CollBox, power: u32, queue: &mut EventQueue) -> (
        r: CollisionResult)
        requires
            old(self).wf(),
            -0x1000_0000 <= target.top_left.x <= 0x1000_0000,
            -0x1000_0000 <= target.top_left.y <= 0x1000_0000,
            0 <= target.size.x <= 0x1000_0000,
            0 <= target.size.y <= 0x1000_0000,
        ensures
            final(self).wf(),
    {
        self.enemy_manager.check_collision(target, power, queue)
    }

    /// Forwards an enemy-shot collision test to the arena.
    pub fn check_shot_collision(&mut self, target: &CollBox) -> (r: CollisionResult)
        requires
            old(self).wf(),
            -0x1000_0000 <= target.top_left.x <= 0x1000_0000,
            -0x1000_0000 <= target.top_left.y <= 0x1000_0000,
            0 <= target.size.x <= 0x1000_0000,
            0 <= target.size.y <= 0x1000_0000,
        ensures
            final(self).wf(),
    {
        self.enemy_manager.check_shot_collision(target)
    }

    /// Spawns the captured player fighter as a troop.
    pub fn spawn_captured_fighter(&mut self, pos: &Vec2I, fi: &FormationIndex) -> (r: bool)
        requires
            old(self).wf(),
            in_coord_range(*pos),
        ensures
            final(self).wf(),
    {
        self.enemy_manager.spawn_captured_fighter(pos, fi)
    }

    /// Frees the slot registered under `fi`.
    pub fn remove_enemy(&mut self, fi: &FormationIndex) -> (r: bool)
        requires
            old(self).wf(),
        ensures
            final(self).wf(),
    {
        self.enemy_manager.remove_enemy(fi)
    }

    /// The enemy occupying `fi`, if any.
    pub fn get_enemy_at(&self, fi: &FormationIndex) -> (r: Option<&Enemy>)
        requires
            self.wf(),
        ensures
            r matches Some(e) ==> e.formation_index == *fi && e.wf(),
    {
        self.enemy_manager.get_enemy_at(fi)
    }

    /// The settle target of a slot.
    pub fn get_formation_pos(&self, fi: &FormationIndex) -> (r: Vec2I)
        requires
            self.wf(),
        ensures
            r == crate::formation::spec_formation_pos(self.formation, *fi),
    {
        self.formation.pos(fi)
    }

    /// Pauses enemy shooting stage-wide.
    pub fn pause_enemy_shot(&mut self, wait: u32)
        requires
            old(self).wf(),
        ensures
            final(self).wf(),
            final(self).enemy_manager.shot_pause_count == wait,
    {
        self.enemy_manager.pause_enemy_shot(wait);
    }

    /// Fires an enemy shot (used by the owner when consuming shot
    /// events).
    pub fn spawn_shot(&mut self, pos: &Vec2I, target_pos: &Vec<Option<Vec2I>>, speed: i32)
        requires
            old(self).wf(),
            in_coord_range(*pos),
            forall|i: int| 0 <= i < target_pos@.len() ==> (#[trigger] target_pos@[i] matches Some(
                p,
            ) ==> in_coord_range(p)),
            1 <= speed <= crate::math::SPEED_LIMIT,
        ensures
            final(self).wf(),
    {
        self.enemy_manager.spawn_shot(pos, target_pos, speed);
    }

    /// Suspends or resumes both schedulers (player death, capture).
    pub fn pause_attack(&mut self, value: bool)
        requires
            old(self).wf(),
        ensures
            final(self).wf(),
            final(self).attack_manager.paused == value,
            final(self).appearance_manager.paused == value,
    {
        self.attack_manager.pause(value);
        self.appearance_manager.pause(value);
    }

    /// True when no attacker is out.
    pub fn is_no_attacker(&self) -> (r: bool)
        requires
            self.wf(),
    {
        self.attack_manager.is_no_attacker()
    }

    /// Draws everything the stage owns.
    pub fn draw<R: crate::framework::RendererTrait>(&self, renderer: &mut R, pat: usize)
        requires
            self.wf(),
            pat < 2,
    {
        self.enemy_manager.draw(renderer, pat);
    }
}

} // verus!
