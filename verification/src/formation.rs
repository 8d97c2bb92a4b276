//! The formation grid: the settle target position of every slot, with
//! the time-decaying entry swing that animates stage start.

use vstd::prelude::*;
use crate::consts::{X_COUNT, Y_COUNT};
use crate::math::{spec_scale, spec_sin, scale_trig, sin_lut, ONE};
use crate::types::{in_coord_range, FormationIndex, Vec2I};

verus! {

/// Initial horizontal swing amplitude (fixed point).
pub const SWING_AMPLITUDE: u32 = 2048;

/// Amplitude lost per tick once the entry finishes.
pub const SWING_DECAY: u32 = 8;

/// Angle-unit advance of the swing per tick.
pub const SWING_RATE: u32 = 256;

/// Cap on the swing timer (keeps it from wrapping).
pub const SWING_COUNT_CAP: u32 = 1000000;

/// The formation grid state: read-mostly, mutated only by its own
/// per-tick settle step.
pub struct Formation {
    /// Ticks since the stage (re)started.
    pub count: u32,
    /// Remaining swing amplitude; 0 once settled.
    pub amplitude: u32,
    /// Set when the appearance phase is over and the swing starts
    /// decaying.
    pub entry_done: bool,
}

/// Base x of a formation column, in pixels.
pub open spec fn spec_column_x(col: int) -> int {
    40 + 16 * col
}

/// Base y of a formation row, in pixels.
pub open spec fn spec_row_y(row: int) -> int {
    32 + 16 * row
}

/// Current horizontal swing offset (fixed point).
pub open spec fn spec_swing_offset(f: Formation) -> int {
    spec_scale(spec_sin(f.count * SWING_RATE), f.amplitude as int)
}

/// Target position of a slot: the base grid position plus the shared
/// swing offset.  Out-of-grid coordinates (assault extras) are pinned to
/// the nearest edge slot.
pub open spec fn spec_formation_pos(f: Formation, fi: FormationIndex) -> Vec2I {
    let col = if fi.0 < X_COUNT as u8 { fi.0 as int } else { X_COUNT - 1 };
    let row = if fi.1 < Y_COUNT as u8 { fi.1 as int } else { Y_COUNT - 1 };
    Vec2I {
        x: (spec_column_x(col) * ONE + spec_swing_offset(f)) as i32,
        y: (spec_row_y(row) * ONE) as i32,
    }
}

impl Formation {
    /// Counters within range.
    pub open spec fn wf(&self) -> bool {
        &&& self.amplitude <= SWING_AMPLITUDE
        &&& self.count <= SWING_COUNT_CAP
    }

    /// Builds a fresh formation at full swing.
    pub fn new() -> (r: Formation)
        ensures
            r.wf(),
            r.count == 0 && r.amplitude == SWING_AMPLITUDE && !r.entry_done,
    {
        Formation { count: 0, amplitude: SWING_AMPLITUDE as u32, entry_done: false }
    }

    /// Resets for the next stage.
    pub fn restart(&mut self)
        ensures
            final(self).wf(),
            final(self).count == 0 && final(self).amplitude == SWING_AMPLITUDE
                && !final(self).entry_done,
    {
        self.count = 0;
        self.amplitude = SWING_AMPLITUDE;
        self.entry_done = false;
    }

    /// Marks the appearance phase finished: the swing starts decaying.
    pub fn done_appearance(&mut self)
        ensures
            *final(self) == (Formation { entry_done: true, ..*old(self) }),
    {
        self.entry_done = true;
    }

    /// One settle step: the timer advances and, once the entry is done,
    /// the swing amplitude decays toward zero.
    pub fn update(&mut self)
        requires
            old(self).wf(),
        ensures
            final(self).wf(),
            final(self).entry_done == old(self).entry_done,
            final(self).count == if old(self).count < SWING_COUNT_CAP {
                old(self).count + 1
            } else {
                0
            },
            final(self).amplitude == if old(self).entry_done && old(self).amplitude
                >= SWING_DECAY {
                old(self).amplitude - SWING_DECAY
            } else if old(self).entry_done {
                0
            } else {
                old(self).amplitude as int
            },
    {
        if self.count < SWING_COUNT_CAP {
            self.count = self.count + 1;
        } else {
            self.count = 0;
        }
        if self.entry_done {
            if self.amplitude >= SWING_DECAY {
                self.amplitude = self.amplitude - SWING_DECAY;
            } else {
                self.amplitude = 0;
            }
        }
    }

    /// True once the entry swing has fully decayed.
    pub fn is_settle(&self) -> (r: bool)
        ensures
            r == (self.amplitude == 0),
    {
        self.amplitude == 0
    }

    /// The settle target position of a slot.
    pub fn pos(&self, fi: &FormationIndex) -> (r: Vec2I)
        requires
            self.wf(),
        ensures
            r == spec_formation_pos(*self, *fi),
            in_coord_range(r),
    {
        let col: i32 = if (fi.0 as usize) < X_COUNT {
            fi.0 as i32
        } else {
            (X_COUNT - 1) as i32
        };
        let row: i32 = if (fi.1 as usize) < Y_COUNT {
            fi.1 as i32
        } else {
            (Y_COUNT - 1) as i32
        };
        let swing_angle = ((self.count as i64 * SWING_RATE as i64) % 65536) as i32;
        proof {
            assert(spec_sin((self.count * SWING_RATE) as int) == spec_sin(swing_angle as int)) by {
                lemma_sin_mod((self.count * SWING_RATE) as int);
            }
        }
        let sn = sin_lut(swing_angle);
        let dx = scale_trig(sn, self.amplitude as i32);
        Vec2I { x: (40 + 16 * col) * ONE + dx, y: (32 + 16 * row) * ONE }
    }
}

/// Reading the sine at an angle or at its representative modulo a full
/// turn gives the same value.
proof fn lemma_sin_mod(a: int)
    requires
        a >= 0,
    ensures
        spec_sin(a) == spec_sin(a % 65536),
{
    vstd::arithmetic::div_mod::lemma_mod_twice(a, 65536);
}

} // verus!
