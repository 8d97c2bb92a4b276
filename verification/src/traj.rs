//! The trajectory interpreter: executes a scripted command table,
//! producing position, angle and speed tick by tick.
//!
//! A table mixes instant commands (set angle, speed, angular velocity,
//! fire markers) with tick-consuming commands (a delay during which the
//! current velocity integrates, or a linear move by a delta over a number
//! of ticks).  `flip_x` mirrors the script left-right: every x delta is
//! negated and every angle command is mirrored.  Reaching the end of the
//! table exhausts the trajectory for good: the owning enemy then changes
//! state and drops it.  An empty table is exhausted immediately.

use vstd::prelude::*;
use crate::math::{
    calc_velocity, half, normalize_angle, spec_calc_velocity_x, spec_calc_velocity_y, spec_clamp,
    spec_half, spec_normalize_angle, COORD_LIMIT, HALF_TURN, SPEED_LIMIT, VANGLE_LIMIT,
};
use crate::types::{in_coord_range, FormationIndex, Vec2I};

verus! {

/// Longest tick count a single command may take, and the largest shot
/// delay a fire marker may carry (one minute of ticks).
pub const MAX_CMD_TICKS: u32 = 3600;

/// Largest per-command move delta magnitude (fixed-point units).
pub const MAX_MOVE_DELTA: i32 = 1048576;

/// One scripted command.
#[derive(Clone, Copy, Debug, PartialEq, Eq, Structural)]
pub enum TrajCommand {
    /// Move by the delta over the given number of ticks, linearly
    /// interpolated in fixed point.
    Move(i32, i32, u32),
    /// Set the speed (fixed-point units per tick).
    SetSpeed(i32),
    /// Set the absolute angle (mirrored under `flip_x`).
    SetAngle(i32),
    /// Set the angular velocity (mirrored under `flip_x`).
    SetVAngle(i32),
    /// Let the current velocity integrate for the given number of ticks.
    Delay(u32),
    /// Fire marker: request a shot after the given number of ticks.
    Shot(u32),
    /// Snap the horizontal position to the formation slot's.
    CopyFormationX,
}

/// Well-formedness of one command: all magnitudes within the simulation's
/// bounds, all durations positive and bounded.
pub open spec fn command_wf(c: TrajCommand) -> bool {
    match c {
        TrajCommand::Move(dx, dy, n) => {
            &&& -MAX_MOVE_DELTA <= dx <= MAX_MOVE_DELTA
            &&& -MAX_MOVE_DELTA <= dy <= MAX_MOVE_DELTA
            &&& 1 <= n <= MAX_CMD_TICKS
        },
        TrajCommand::SetSpeed(s) => 0 <= s <= SPEED_LIMIT,
        TrajCommand::SetAngle(a) => -HALF_TURN <= a <= HALF_TURN,
        TrajCommand::SetVAngle(v) => -VANGLE_LIMIT <= v <= VANGLE_LIMIT,
        TrajCommand::Delay(n) => 1 <= n <= MAX_CMD_TICKS,
        TrajCommand::Shot(w) => w <= MAX_CMD_TICKS,
        TrajCommand::CopyFormationX => true,
    }
}

/// Well-formedness of a whole table.
pub open spec fn table_wf(cs: Seq<TrajCommand>) -> bool {
    forall|i: int| 0 <= i < cs.len() ==> command_wf(#[trigger] cs[i])
}

/// A trajectory: an immutable command table plus the interpreter cursor.
pub struct Traj {
    /// The scripted command table.
    pub commands: Vec<TrajCommand>,
    /// Index of the next command to process.
    pub idx: usize,
    /// Current position (fixed point).
    pub pos: Vec2I,
    /// Current angle (normalized angle units).
    pub angle: i32,
    /// Current speed (fixed point per tick).
    pub speed: i32,
    /// Current angular velocity (angle units per tick).
    pub vangle: i32,
    /// Remaining ticks of an active delay command.
    pub delay: u32,
    /// Remaining ticks of an active move command.
    pub move_rem: u32,
    /// Total ticks of the active move command.
    pub move_total: u32,
    /// Position when the active move command started.
    pub move_from: Vec2I,
    /// Delta of the active move command (already mirrored).
    pub move_delta: Vec2I,
    /// Fire marker seen this tick, with its shot delay.
    pub shot_wait: Option<u32>,
    /// Mirror the script left-right.
    pub flip_x: bool,
    /// Formation slot owning this trajectory.
    pub fi: FormationIndex,
}

impl Traj {
    /// Interpreter cursor and motion state within bounds.
    pub open spec fn wf(&self) -> bool {
        &&& table_wf(self.commands@)
        &&& self.idx <= self.commands@.len()
        &&& in_coord_range(self.pos)
        &&& -HALF_TURN <= self.angle <= HALF_TURN
        &&& 0 <= self.speed <= SPEED_LIMIT
        &&& -VANGLE_LIMIT <= self.vangle <= VANGLE_LIMIT
        &&& self.delay <= MAX_CMD_TICKS
        &&& self.move_rem <= self.move_total <= MAX_CMD_TICKS
        &&& in_coord_range(self.move_from)
        &&& -MAX_MOVE_DELTA <= self.move_delta.x <= MAX_MOVE_DELTA
        &&& -MAX_MOVE_DELTA <= self.move_delta.y <= MAX_MOVE_DELTA
        &&& (self.move_rem > 0 ==> self.move_total >= 1)
        &&& (self.shot_wait matches Some(w) ==> w <= MAX_CMD_TICKS)
    }

    /// True while the trajectory has work left.
    pub open spec fn is_running(&self) -> bool {
        self.idx < self.commands@.len() || self.delay > 0 || self.move_rem > 0
    }

    /// Builds a trajectory over `commands`, starting at `offset`.
    pub fn new(commands: Vec<TrajCommand>, offset: &Vec2I, flip_x: bool, fi: FormationIndex) -> (
        r: Traj)
        requires
            table_wf(commands@),
            in_coord_range(*offset),
        ensures
            r.wf(),
            r.commands == commands,
            r.idx == 0,
            r.pos == *offset,
            r.angle == 0 && r.speed == 0 && r.vangle == 0,
            r.delay == 0 && r.move_rem == 0,
            r.flip_x == flip_x,
            r.fi == fi,
            r.shot_wait is None,
    {
        Traj {
            commands,
            idx: 0,
            pos: *offset,
            angle: 0,
            speed: 0,
            vangle: 0,
            delay: 0,
            move_rem: 0,
            move_total: 0,
            move_from: *offset,
            move_delta: Vec2I::new(0, 0),
            shot_wait: None,
            flip_x,
            fi,
        }
    }

    /// Repositions the trajectory (used when a table starts at the
    /// owner's current position).
    pub fn set_pos(&mut self, pos: &Vec2I)
        requires
            in_coord_range(*pos),
        ensures
            *final(self) == (Traj { pos: *pos, move_from: *pos, ..*old(self) }),
    {
        self.pos = *pos;
        self.move_from = *pos;
    }

    /// The fire marker seen this tick, if any, with its shot delay.
    pub fn is_shot(&self) -> (r: Option<u32>)
        ensures
            r == self.shot_wait,
    {
        self.shot_wait
    }

    /// Advances one tick.  Returns whether the trajectory is still
    /// running; once it returns false it never runs again.
    ///
    /// The whole tick is `spec_traj_tick`: an entered delay integrates
    /// the current velocity; an entered move interpolates linearly
    /// toward its delta; instant commands apply in order until one of
    /// those (or the table's end) is reached.
    pub fn update(&mut self, formation_pos: &Vec2I, stage_no: u16) -> (r: bool)
        requires
            old(self).wf(),
            in_coord_range(*formation_pos),
        ensures
            final(self).wf(),
            *final(self) == spec_traj_tick(*old(self), *formation_pos),
            r == final(self).is_running(),
            final(self).commands == old(self).commands,
            final(self).flip_x == old(self).flip_x,
            final(self).fi == old(self).fi,
    {
        self.shot_wait = None;
        let ghost t0 = *self;

        if self.move_rem == 0 && self.delay == 0 {
            if self.idx >= self.commands.len() {
                proof {
                    assert(spec_traj_tick(*old(self), *formation_pos) == t0);
                }
                return false;
            }
            let ghost fuel0 = (t0.commands@.len() - t0.idx) as nat;
            while self.move_rem == 0 && self.delay == 0 && self.idx < self.commands.len()
                invariant
                    self.wf(),
                    in_coord_range(*formation_pos),
                    self.commands == t0.commands,
                    self.flip_x == t0.flip_x,
                    self.fi == t0.fi,
                    spec_run_instants(t0, *formation_pos, fuel0) == spec_run_instants(
                        *self,
                        *formation_pos,
                        (self.commands@.len() - self.idx) as nat,
                    ),
                decreases self.commands@.len() - self.idx,
            {
                let c = self.commands[self.idx];
                self.idx = self.idx + 1;
                self.apply_command(c, formation_pos);
            }
            proof {
                assert(spec_run_instants(
                    *self,
                    *formation_pos,
                    (self.commands@.len() - self.idx) as nat,
                ) == *self);
            }
        }

        if self.move_rem > 0 {
            self.move_rem = self.move_rem - 1;
            let t = self.move_total - self.move_rem;
            let ox = scale_frac(self.move_delta.x, t, self.move_total);
            let oy = scale_frac(self.move_delta.y, t, self.move_total);
            proof {
                if self.move_rem == 0 {
                    lemma_scale_frac_full(self.move_delta.x as int, self.move_total as int);
                    lemma_scale_frac_full(self.move_delta.y as int, self.move_total as int);
                }
            }
            self.pos = self.move_from.plus(&Vec2I::new(ox, oy)).clamped();
        } else if self.delay > 0 {
            self.delay = self.delay - 1;
            let v = calc_velocity(self.angle + half(self.vangle), self.speed);
            self.pos = self.pos.plus(&v).clamped();
            self.angle = normalize_angle(self.angle + self.vangle);
        }

        self.idx < self.commands.len() || self.delay > 0 || self.move_rem > 0
    }

    /// Applies one instant command, or arms a delay or move.
    fn apply_command(&mut self, c: TrajCommand, formation_pos: &Vec2I)
        requires
            old(self).wf(),
            command_wf(c),
            in_coord_range(*formation_pos),
        ensures
            final(self).wf(),
            final(self).commands == old(self).commands,
            final(self).idx == old(self).idx,
            final(self).flip_x == old(self).flip_x,
            final(self).fi == old(self).fi,
            *final(self) == spec_apply_command(*old(self), c, *formation_pos),
    {
        match c {
            TrajCommand::Move(dx, dy, n) => {
                let fdx = if self.flip_x {
                    -dx
                } else {
                    dx
                };
                self.move_from = self.pos;
                self.move_delta = Vec2I::new(fdx, dy);
                self.move_rem = n;
                self.move_total = n;
            },
            TrajCommand::SetSpeed(s) => {
                self.speed = s;
            },
            TrajCommand::SetAngle(a) => {
                self.angle = if self.flip_x {
                    -a
                } else {
                    a
                };
            },
            TrajCommand::SetVAngle(v) => {
                self.vangle = if self.flip_x {
                    -v
                } else {
                    v
                };
            },
            TrajCommand::Delay(n) => {
                self.delay = n;
            },
            TrajCommand::Shot(w) => {
                self.shot_wait = Some(w);
            },
            TrajCommand::CopyFormationX => {
                self.pos = Vec2I::new(formation_pos.x, self.pos.y);
            },
        }
    }
}

/// State after the instant commands at the cursor have run: commands
/// apply in order until one arms a delay or a move, or the table ends.
/// The fuel is the number of commands left, which bounds the run.
pub open spec fn spec_run_instants(t: Traj, formation_pos: Vec2I, fuel: nat) -> Traj
    decreases fuel,
{
    if fuel == 0 || t.move_rem > 0 || t.delay > 0 || t.idx >= t.commands@.len() {
        t
    } else {
        let c = t.commands@[t.idx as int];
        let t1 = spec_apply_command(Traj { idx: (t.idx + 1) as usize, ..t }, c, formation_pos);
        spec_run_instants(t1, formation_pos, (fuel - 1) as nat)
    }
}

/// One tick of an armed move command.
pub open spec fn spec_move_step(t: Traj) -> Traj {
    Traj {
        move_rem: (t.move_rem - 1) as u32,
        pos: spec_move_pos(t, t.move_total - t.move_rem + 1),
        ..t
    }
}

/// One tick of an armed delay: the velocity integrates.
pub open spec fn spec_delay_step(t: Traj) -> Traj {
    Traj {
        delay: (t.delay - 1) as u32,
        pos: spec_integrate_pos(t),
        angle: spec_normalize_angle(t.angle + t.vangle) as i32,
        ..t
    }
}

/// What one whole interpreter tick does: clear the fire marker; an
/// exhausted trajectory stays put; otherwise the pending instant
/// commands run, then the armed move or delay consumes the tick.
pub open spec fn spec_traj_tick(t: Traj, formation_pos: Vec2I) -> Traj {
    let t0 = Traj { shot_wait: None, ..t };
    if !t0.is_running() {
        t0
    } else {
        let t1 = if t0.move_rem == 0 && t0.delay == 0 {
            spec_run_instants(t0, formation_pos, (t0.commands@.len() - t0.idx) as nat)
        } else {
            t0
        };
        if t1.move_rem > 0 {
            spec_move_step(t1)
        } else if t1.delay > 0 {
            spec_delay_step(t1)
        } else {
            t1
        }
    }
}

/// Effect of one instant command on the interpreter state.
pub open spec fn spec_apply_command(t: Traj, c: TrajCommand, formation_pos: Vec2I) -> Traj {
    match c {
        TrajCommand::Move(dx, dy, n) => Traj {
            move_from: t.pos,
            move_delta: Vec2I { x: if t.flip_x { (-(dx as int)) as i32 } else { dx }, y: dy },
            move_rem: n,
            move_total: n,
            ..t
        },
        TrajCommand::SetSpeed(s) => Traj { speed: s, ..t },
        TrajCommand::SetAngle(a) => Traj {
            angle: if t.flip_x { (-(a as int)) as i32 } else { a },
            ..t
        },
        TrajCommand::SetVAngle(v) => Traj {
            vangle: if t.flip_x { (-(v as int)) as i32 } else { v },
            ..t
        },
        TrajCommand::Delay(n) => Traj { delay: n, ..t },
        TrajCommand::Shot(w) => Traj { shot_wait: Some(w), ..t },
        TrajCommand::CopyFormationX => Traj {
            pos: Vec2I { x: formation_pos.x, y: t.pos.y },
            ..t
        },
    }
}

/// Position after `t` ticks of the active move command (linear
/// interpolation toward the stored delta, clamped to the coordinate
/// range).
pub open spec fn spec_move_pos(tr: Traj, t: int) -> Vec2I {
    Vec2I {
        x: spec_clamp(
            tr.move_from.x + spec_move_offset(tr.move_delta.x as int, t, tr.move_total as int),
            -COORD_LIMIT as int,
            COORD_LIMIT as int,
        ) as i32,
        y: spec_clamp(
            tr.move_from.y + spec_move_offset(tr.move_delta.y as int, t, tr.move_total as int),
            -COORD_LIMIT as int,
            COORD_LIMIT as int,
        ) as i32,
    }
}

/// Position after one tick of velocity integration (clamped).
pub open spec fn spec_integrate_pos(tr: Traj) -> Vec2I {
    let a = tr.angle + spec_half(tr.vangle as int);
    Vec2I {
        x: spec_clamp(
            tr.pos.x + spec_calc_velocity_x(a, tr.speed as int),
            -COORD_LIMIT as int,
            COORD_LIMIT as int,
        ) as i32,
        y: spec_clamp(
            tr.pos.y + spec_calc_velocity_y(a, tr.speed as int),
            -COORD_LIMIT as int,
            COORD_LIMIT as int,
        ) as i32,
    }
}

/// The linear-interpolation share of a move delta after `t` of `n`
/// ticks: `d * t / n`, rounding the magnitude down.
pub open spec fn spec_move_offset(d: int, t: int, n: int) -> int {
    if d >= 0 {
        d * t / n
    } else {
        -((-d) * t / n)
    }
}

/// After the full tick count, the interpolated offset equals the delta.
pub proof fn lemma_scale_frac_full(d: int, n: int)
    requires
        1 <= n,
    ensures
        spec_move_offset(d, n, n) == d,
{
    if d >= 0 {
        vstd::arithmetic::div_mod::lemma_div_multiples_vanish(d, n);
        assert(d * n == n * d) by (nonlinear_arith);
    } else {
        vstd::arithmetic::div_mod::lemma_div_multiples_vanish(-d, n);
        assert((-d) * n == n * (-d)) by (nonlinear_arith);
    }
}

/// Computes `d * t / n` with the magnitude rounded down; the result
/// magnitude never exceeds `|d|`.
fn scale_frac(d: i32, t: u32, n: u32) -> (r: i32)
    requires
        -MAX_MOVE_DELTA <= d <= MAX_MOVE_DELTA,
        1 <= n <= MAX_CMD_TICKS,
        t <= n,
    ensures
        r == spec_move_offset(d as int, t as int, n as int),
        -MAX_MOVE_DELTA <= r <= MAX_MOVE_DELTA,
        d >= 0 ==> 0 <= r <= d,
        d < 0 ==> d <= r <= 0,
{
    let m: i64 = if d >= 0 {
        d as i64
    } else {
        -(d as i64)
    };
    proof {
        assert(m * (t as i64) <= m * (n as i64)) by (nonlinear_arith)
            requires
                0 <= m,
                t <= n,
        ;
        assert(0 <= m * (t as i64) <= 1048576i64 * 3600) by (nonlinear_arith)
            requires
                0 <= m <= 1048576i64,
                0 <= (t as i64) <= 3600,
        ;
    }
    let p = m * (t as i64);
    let v = p / (n as i64);
    proof {
        vstd::arithmetic::div_mod::lemma_div_multiples_vanish(m as int, n as int);
        assert((m as int) * (n as int) == (n as int) * (m as int)) by (nonlinear_arith);
        vstd::arithmetic::div_mod::lemma_div_is_ordered(p as int, (m as int) * (n as int), n as int);
    }
    let vi = v as i32;
    if d >= 0 {
        vi
    } else {
        -vi
    }
}

} // verus!
