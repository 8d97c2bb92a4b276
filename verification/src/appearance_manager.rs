//! The appearance manager: the stage-start schedule that spawns the
//! waves of enemies, each flying a timed entry trajectory into its
//! formation slot.
//!
//! Five units of eight enemies spawn in order; a unit's members leave
//! every few ticks, units a fixed interval apart.  When a captured
//! fighter survives the previous stage, it rejoins at its slot after
//! the last unit.  `done` is signalled once everything spawned.

use vstd::prelude::*;
use crate::consts::WIDTH;
use crate::enemy::{Enemy, EnemyType};
use crate::math::ONE;
use crate::traj::Traj;
use crate::traj_tables::appearance_table;
use crate::types::{FormationIndex, Vec2I};

verus! {

/// Total scheduled spawns of a stage.
pub const APPEARANCE_COUNT: usize = 40;

/// Ticks between two members of one unit.
pub const SPAWN_INTERVAL: u32 = 16;

/// Ticks between the first members of consecutive units.
pub const UNIT_INTERVAL: u32 = 192;

/// The formation slot filled by schedule entry `k`, in spawn order:
/// the middle columns first, the flanks and the bottom row last.
pub open spec fn spec_order_slot(k: int) -> FormationIndex {
    if k < 8 {
        // unit 0: middle butterflies, then middle bees of row 4
        if k < 4 {
            FormationIndex((3 + k) as u8, 2)
        } else {
            FormationIndex((3 + (k - 4)) as u8, 4)
        }
    } else if k < 16 {
        // unit 1: the owls, then middle butterflies of row 3
        if k < 12 {
            FormationIndex((3 + (k - 8)) as u8, 1)
        } else {
            FormationIndex((3 + (k - 12)) as u8, 3)
        }
    } else if k < 24 {
        // unit 2: the butterfly flanks of rows 2 and 3
        let j = k - 16;
        let col = if j % 4 == 0 {
            1int
        } else if j % 4 == 1 {
            2int
        } else if j % 4 == 2 {
            7int
        } else {
            8int
        };
        FormationIndex(col as u8, if j < 4 { 2 } else { 3 })
    } else if k < 32 {
        // unit 3: the bee flanks of row 4, then middle bees of row 5
        let j = k - 24;
        if j < 4 {
            let col = if j == 0 {
                1int
            } else if j == 1 {
                2int
            } else if j == 2 {
                7int
            } else {
                8int
            };
            FormationIndex(col as u8, 4)
        } else {
            FormationIndex((3 + (j - 4)) as u8, 5)
        }
    } else {
        // unit 4: the outermost bees of rows 4 and 5
        let j = k - 32;
        if j == 0 {
            FormationIndex(0, 4)
        } else if j == 1 {
            FormationIndex(9, 4)
        } else if j == 2 {
            FormationIndex(1, 5)
        } else if j == 3 {
            FormationIndex(2, 5)
        } else if j == 4 {
            FormationIndex(7, 5)
        } else if j == 5 {
            FormationIndex(8, 5)
        } else if j == 6 {
            FormationIndex(0, 5)
        } else {
            FormationIndex(9, 5)
        }
    }
}

/// The enemy type living in a formation row: Owls on the top row,
/// Butterflies on the next two, Bees below.
pub open spec fn spec_row_type(row: u8) -> EnemyType {
    if row <= 1 {
        EnemyType::Owl
    } else if row <= 3 {
        EnemyType::Butterfly
    } else {
        EnemyType::Bee
    }
}

/// The tick at which schedule entry `k` spawns.
pub open spec fn spec_spawn_tick(k: int) -> int {
    (k / 8) * UNIT_INTERVAL + (k % 8) * SPAWN_INTERVAL
}

/// The per-stage spawn scheduler.
pub struct AppearanceManager {
    /// Stage being set up.
    pub stage: u16,
    /// Ticks since the stage started.
    pub frame_count: u32,
    /// Next schedule entry to spawn.
    pub next_index: usize,
    /// Captured fighter rejoining this stage, until it spawns.
    pub captured_fighter: Option<FormationIndex>,
    /// Everything spawned.
    pub done: bool,
    /// Scheduling suspended.
    pub paused: bool,
}

impl AppearanceManager {
    /// Cursor within the schedule.
    pub open spec fn wf(&self) -> bool {
        &&& self.next_index <= APPEARANCE_COUNT
        &&& self.frame_count <= 0x4000_0000
        &&& (self.done ==> self.next_index == APPEARANCE_COUNT)
    }

    /// Builds the scheduler for a stage.
    pub fn new(stage: u16) -> (r: AppearanceManager)
        ensures
            r.wf(),
            r.stage == stage,
            r.frame_count == 0 && r.next_index == 0 && !r.done && !r.paused,
            r.captured_fighter is None,
    {
        AppearanceManager {
            stage,
            frame_count: 0,
            next_index: 0,
            captured_fighter: None,
            done: false,
            paused: false,
        }
    }

    /// Resets for the next stage; a surviving captured fighter is
    /// scheduled to rejoin at its slot.
    pub fn restart(&mut self, stage: u16, captured_fighter: Option<FormationIndex>)
        ensures
            final(self).wf(),
            *final(self) == (AppearanceManager {
                stage,
                frame_count: 0,
                next_index: 0,
                captured_fighter,
                done: false,
                paused: old(self).paused,
            }),
    {
        self.stage = stage;
        self.frame_count = 0;
        self.next_index = 0;
        self.captured_fighter = captured_fighter;
        self.done = false;
    }

    /// Suspends or resumes scheduling.
    pub fn pause(&mut self, value: bool)
        ensures
            *final(self) == (AppearanceManager { paused: value, ..*old(self) }),
    {
        self.paused = value;
    }

    /// One scheduling tick: returns the enemies whose spawn tick has
    /// come, each armed with its entry trajectory, or `None` while
    /// paused or after the schedule is exhausted.  Once everything
    /// spawned, `done` stays set.
    pub fn update(&mut self) -> (r: Option<Vec<Enemy>>)
        requires
            old(self).wf(),
        ensures
            final(self).wf(),
            final(self).done ==> final(self).next_index == APPEARANCE_COUNT,
            old(self).done ==> final(self).done,
            old(self).paused ==> *final(self) == *old(self) && r is None,
            r matches Some(v) ==> forall|i: int|
                0 <= i < v@.len() ==> (#[trigger] v@[i]).wf() && v@[i].state is Appearance,
    {
        if self.paused {
            return None;
        }
        if self.done {
            return None;
        }
        if self.frame_count < 0x4000_0000 {
            self.frame_count = self.frame_count + 1;
        }
        let mut born: Vec<Enemy> = Vec::new();
        while self.next_index < APPEARANCE_COUNT && spawn_tick(self.next_index)
            <= self.frame_count
            invariant
                self.wf(),
                forall|i: int| 0 <= i < born@.len() ==> (#[trigger] born@[i]).wf() && born@[i].state
                    is Appearance,
            decreases APPEARANCE_COUNT - self.next_index,
        {
            let e = make_appearance_enemy(self.next_index);
            born.push(e);
            self.next_index = self.next_index + 1;
        }
        if self.next_index >= APPEARANCE_COUNT {
            if let Some(fi) = self.captured_fighter {
                let e = make_rejoining_fighter(&fi);
                born.push(e);
                self.captured_fighter = None;
            }
            self.done = true;
        }
        Some(born)
    }
}

/// The spawn tick of schedule entry `k`.
fn spawn_tick(k: usize) -> (r: u32)
    requires
        k < APPEARANCE_COUNT,
    ensures
        r == spec_spawn_tick(k as int),
        r < 0x4000_0000,
{
    ((k as u32) / 8) * UNIT_INTERVAL + ((k as u32) % 8) * SPAWN_INTERVAL
}

/// The formation slot of schedule entry `k`.
fn order_slot(k: usize) -> (r: FormationIndex)
    requires
        k < APPEARANCE_COUNT,
    ensures
        r == spec_order_slot(k as int),
{
    if k < 8 {
        if k < 4 {
            FormationIndex(3 + k as u8, 2)
        } else {
            FormationIndex(3 + (k as u8 - 4), 4)
        }
    } else if k < 16 {
        if k < 12 {
            FormationIndex(3 + (k as u8 - 8), 1)
        } else {
            FormationIndex(3 + (k as u8 - 12), 3)
        }
    } else if k < 24 {
        let j = k - 16;
        let col: u8 = if j % 4 == 0 {
            1
        } else if j % 4 == 1 {
            2
        } else if j % 4 == 2 {
            7
        } else {
            8
        };
        FormationIndex(col, if j < 4 { 2 } else { 3 })
    } else if k < 32 {
        let j = k - 24;
        if j < 4 {
            let col: u8 = if j == 0 {
                1
            } else if j == 1 {
                2
            } else if j == 2 {
                7
            } else {
                8
            };
            FormationIndex(col, 4)
        } else {
            FormationIndex(3 + (j as u8 - 4), 5)
        }
    } else {
        let j = k - 32;
        if j == 0 {
            FormationIndex(0, 4)
        } else if j == 1 {
            FormationIndex(9, 4)
        } else if j == 2 {
            FormationIndex(1, 5)
        } else if j == 3 {
            FormationIndex(2, 5)
        } else if j == 4 {
            FormationIndex(7, 5)
        } else if j == 5 {
            FormationIndex(8, 5)
        } else if j == 6 {
            FormationIndex(0, 5)
        } else {
            FormationIndex(9, 5)
        }
    }
}

/// Builds the enemy of schedule entry `k`: typed by its row, armed
/// with its unit's entry path, starting just above the screen on its
/// unit's side.
fn make_appearance_enemy(k: usize) -> (r: Enemy)
    requires
        k < APPEARANCE_COUNT,
    ensures
        r.wf(),
        r.state is Appearance,
        r.formation_index == spec_order_slot(k as int),
        r.enemy_type == spec_row_type(spec_order_slot(k as int).1),
{
    let fi = order_slot(k);
    let enemy_type = if fi.1 <= 1 {
        EnemyType::Owl
    } else if fi.1 <= 3 {
        EnemyType::Butterfly
    } else {
        EnemyType::Bee
    };
    let unit = k / 8;
    let flip_x = fi.0 >= 5;
    let start_x: i32 = if flip_x {
        (WIDTH / 2 + 32 + 8 * ((k % 8) as i32)) * ONE
    } else {
        (WIDTH / 2 - 32 - 8 * ((k % 8) as i32)) * ONE
    };
    let start = Vec2I::new(start_x, -16 * ONE);
    let mut e = Enemy::new(enemy_type, &start, 0, 0);
    e.formation_index = fi;
    let mut traj = Traj::new(appearance_table((unit % 3) as u32), &start, flip_x, fi);
    traj.set_pos(&start);
    e.set_appearance(traj);
    e
}

/// Builds the captured fighter rejoining the new stage at its slot.
fn make_rejoining_fighter(fi: &FormationIndex) -> (r: Enemy)
    ensures
        r.wf(),
        r.state is Appearance,
        r.formation_index == *fi,
        r.enemy_type is CapturedFighter,
{
    let col: i32 = if (fi.0 as usize) < 10 {
        fi.0 as i32
    } else {
        9
    };
    let start = Vec2I::new((40 + 16 * col) * ONE, -16 * ONE);
    let mut e = Enemy::new(EnemyType::CapturedFighter, &start, 0, 0);
    e.formation_index = *fi;
    let mut traj = Traj::new(appearance_table(1), &start, false, *fi);
    traj.set_pos(&start);
    e.set_appearance(traj);
    e
}

} // verus!
