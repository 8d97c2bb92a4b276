//! An enemy bullet: straight-line motion toward where a player was.

use vstd::prelude::*;
use crate::consts::{HEIGHT, WIDTH};
use crate::math::{COORD_LIMIT, SPEED_LIMIT};
use crate::types::{in_coord_range, round_up, spec_round_coord, Vec2I};

verus! {

/// An enemy shot: fixed-point position and per-tick velocity.
pub struct EneShot {
    /// Position (fixed point).
    pub pos: Vec2I,
    /// Velocity (fixed point per tick).
    pub vel: Vec2I,
}

impl EneShot {
    /// Position and velocity within the simulation's bounds.
    pub open spec fn wf(&self) -> bool {
        &&& in_coord_range(self.pos)
        &&& -SPEED_LIMIT <= self.vel.x <= SPEED_LIMIT
        &&& -SPEED_LIMIT <= self.vel.y <= SPEED_LIMIT
    }

    /// Builds a shot.
    pub fn new(pos: Vec2I, vel: Vec2I) -> (r: EneShot)
        requires
            in_coord_range(pos),
            -SPEED_LIMIT <= vel.x <= SPEED_LIMIT,
            -SPEED_LIMIT <= vel.y <= SPEED_LIMIT,
        ensures
            r.wf(),
            r.pos == pos,
            r.vel == vel,
    {
        EneShot { pos, vel }
    }

    /// Rounded on-screen position in pixels.
    pub fn pos(&self) -> (r: Vec2I)
        requires
            self.wf(),
        ensures
            r.x == spec_round_coord(self.pos.x as int),
            r.y == spec_round_coord(self.pos.y as int),
    {
        round_up(&self.pos)
    }

    /// One tick: the shot advances by its velocity.
    pub fn update(&mut self)
        requires
            old(self).wf(),
        ensures
            final(self).wf(),
            final(self).vel == old(self).vel,
            final(self).pos.x == crate::math::spec_clamp(
                old(self).pos.x + old(self).vel.x,
                -COORD_LIMIT as int,
                COORD_LIMIT as int,
            ),
            final(self).pos.y == crate::math::spec_clamp(
                old(self).pos.y + old(self).vel.y,
                -COORD_LIMIT as int,
                COORD_LIMIT as int,
            ),
    {
        self.pos = self.pos.plus(&self.vel).clamped();
    }

    /// Draws the shot sprite.
    pub fn draw<R: crate::framework::RendererTrait>(&self, renderer: &mut R)
        requires
            self.wf(),
    {
        let p = self.pos();
        renderer.draw_sprite("ene_shot", &Vec2I::new(p.x - 2, p.y - 4));
    }

    /// The shot's collision box, in pixels.
    pub fn get_collbox(&self) -> (r: crate::collision::CollBox)
        requires
            self.wf(),
        ensures
            r == spec_shot_box(*self),
            -0x1000_0000 <= r.top_left.x <= 0x1000_0000,
            -0x1000_0000 <= r.top_left.y <= 0x1000_0000,
            0 <= r.size.x <= 0x1000_0000,
            0 <= r.size.y <= 0x1000_0000,
    {
        let p = self.pos();
        crate::collision::CollBox { top_left: Vec2I::new(p.x - 1, p.y - 4), size: Vec2I::new(1, 8) }
    }
}

/// The collision box a shot presents: a thin bar under its rounded
/// position.
pub open spec fn spec_shot_box(s: EneShot) -> crate::collision::CollBox {
    crate::collision::CollBox {
        top_left: Vec2I {
            x: (crate::types::spec_round_coord(s.pos.x as int) - 1) as i32,
            y: (crate::types::spec_round_coord(s.pos.y as int) - 4) as i32,
        },
        size: Vec2I { x: 1, y: 8 },
    }
}

/// True when a pixel position lies outside the screen margin where
/// shots survive.
pub open spec fn spec_out_of_screen(pos: Vec2I) -> bool {
    pos.x < -16 || pos.x > WIDTH + 16 || pos.y < -16 || pos.y > HEIGHT + 16
}

/// Screen-margin test for shot removal.
pub fn out_of_screen(pos: &Vec2I) -> (r: bool)
    requires
        -0x1000_0000 <= pos.x <= 0x1000_0000,
        -0x1000_0000 <= pos.y <= 0x1000_0000,
    ensures
        r == spec_out_of_screen(*pos),
{
    pos.x < -16 || pos.x > WIDTH + 16 || pos.y < -16 || pos.y > HEIGHT + 16
}

} // verus!
