//! Simple visual effects: floating score popups and small explosions.
//! Each lives a fixed number of frames and reports when it is spent.

use vstd::prelude::*;
use crate::framework::RendererTrait;
use crate::types::Vec2I;

verus! {

/// Frames a score popup stays on screen.
pub const EARNED_POINT_FRAMES: u32 = 30;

/// Frames a small explosion stays on screen.
pub const SMALL_BOMB_FRAMES: u32 = 15;

/// The score amounts that have a popup sprite.
#[derive(Clone, Copy, Debug, PartialEq, Eq, Structural)]
pub enum EarnedPointType {
    Point1600,
    Point800,
    Point400,
    Point150,
}

/// The popup sprite for a score amount, when one exists.
pub open spec fn spec_to_earned_point_type(point: u32) -> Option<EarnedPointType> {
    if point == 1600 {
        Some(EarnedPointType::Point1600)
    } else if point == 800 {
        Some(EarnedPointType::Point800)
    } else if point == 400 {
        Some(EarnedPointType::Point400)
    } else if point == 150 {
        Some(EarnedPointType::Point150)
    } else {
        None
    }
}

/// Maps a score amount to its popup sprite, when one exists.
pub fn to_earned_point_type(point: u32) -> (r: Option<EarnedPointType>)
    ensures
        r == spec_to_earned_point_type(point),
{
    if point == 1600 {
        Some(EarnedPointType::Point1600)
    } else if point == 800 {
        Some(EarnedPointType::Point800)
    } else if point == 400 {
        Some(EarnedPointType::Point400)
    } else if point == 150 {
        Some(EarnedPointType::Point150)
    } else {
        None
    }
}

/// A floating score popup.
pub struct EarnedPoint {
    /// Which amount is shown.
    pub point_type: EarnedPointType,
    /// Where it is shown (pixels).
    pub pos: Vec2I,
    /// Frames shown so far.
    pub frame_count: u32,
}

impl EarnedPoint {
    /// Builds a popup at `pos`.
    pub fn new(point_type: EarnedPointType, pos: Vec2I) -> (r: EarnedPoint)
        ensures
            r.point_type == point_type,
            r.pos == pos,
            r.frame_count == 0,
    {
        EarnedPoint { point_type, pos, frame_count: 0 }
    }

    /// One frame; returns whether the popup is still alive.
    pub fn update(&mut self) -> (r: bool)
        requires
            old(self).frame_count <= EARNED_POINT_FRAMES,
        ensures
            final(self).frame_count == old(self).frame_count + 1,
            final(self).pos == old(self).pos && final(self).point_type == old(self).point_type,
            r == (final(self).frame_count < EARNED_POINT_FRAMES),
    {
        self.frame_count = self.frame_count + 1;
        self.frame_count < EARNED_POINT_FRAMES
    }

    /// The popup's sprite key.
    pub fn sprite_name(&self) -> (r: &'static str) {
        match self.point_type {
            EarnedPointType::Point1600 => "pts1600",
            EarnedPointType::Point800 => "pts800",
            EarnedPointType::Point400 => "pts400",
            EarnedPointType::Point150 => "pts150",
        }
    }

    /// Draws the popup.
    pub fn draw<R: RendererTrait>(&self, renderer: &mut R)
        requires
            -0x1000_0000 <= self.pos.x <= 0x1000_0000,
            -0x1000_0000 <= self.pos.y <= 0x1000_0000,
    {
        let sprite = self.sprite_name();
        renderer.draw_sprite(sprite, &Vec2I::new(self.pos.x - 8, self.pos.y - 4));
    }
}

/// A small explosion.
pub struct SmallBomb {
    /// Where it is shown (pixels).
    pub pos: Vec2I,
    /// Frames shown so far.
    pub frame_count: u32,
}

impl SmallBomb {
    /// Builds an explosion at `pos`.
    pub fn new(pos: Vec2I) -> (r: SmallBomb)
        ensures
            r.pos == pos,
            r.frame_count == 0,
    {
        SmallBomb { pos, frame_count: 0 }
    }

    /// One frame; returns whether the explosion is still alive.
    pub fn update(&mut self) -> (r: bool)
        requires
            old(self).frame_count <= SMALL_BOMB_FRAMES,
        ensures
            final(self).frame_count == old(self).frame_count + 1,
            final(self).pos == old(self).pos,
            r == (final(self).frame_count < SMALL_BOMB_FRAMES),
    {
        self.frame_count = self.frame_count + 1;
        self.frame_count < SMALL_BOMB_FRAMES
    }

    /// Draws the explosion frame for the current age.
    pub fn draw<R: RendererTrait>(&self, renderer: &mut R)
        requires
            -0x1000_0000 <= self.pos.x <= 0x1000_0000,
            -0x1000_0000 <= self.pos.y <= 0x1000_0000,
    {
        let pat = if self.frame_count / 4 < 2 {
            self.frame_count / 4
        } else {
            2
        };
        let sprite: &'static str = if pat == 0 {
            "small_bomb1"
        } else if pat == 1 {
            "small_bomb2"
        } else {
            "small_bomb3"
        };
        renderer.draw_sprite(sprite, &Vec2I::new(self.pos.x - 8, self.pos.y - 8));
    }
}

/// A visual effect of either kind.
pub enum Effect {
    EarnedPoint(EarnedPoint),
    SmallBomb(SmallBomb),
}

impl Effect {
    /// Frame bound of whichever effect is held.
    pub open spec fn wf(&self) -> bool {
        match self {
            Effect::EarnedPoint(x) => x.frame_count <= EARNED_POINT_FRAMES,
            Effect::SmallBomb(x) => x.frame_count <= SMALL_BOMB_FRAMES,
        }
    }

    /// One frame; returns whether the effect is still alive.
    pub fn update(&mut self) -> (r: bool)
        requires
            old(self).wf(),
        ensures
            r ==> final(self).wf(),
    {
        match self {
            Effect::EarnedPoint(x) => x.update(),
            Effect::SmallBomb(x) => x.update(),
        }
    }

    /// Draws whichever effect is held.
    pub fn draw<R: RendererTrait>(&self, renderer: &mut R)
        requires
            match self {
                Effect::EarnedPoint(x) => -0x1000_0000 <= x.pos.x <= 0x1000_0000 && -0x1000_0000
                    <= x.pos.y <= 0x1000_0000,
                Effect::SmallBomb(x) => -0x1000_0000 <= x.pos.x <= 0x1000_0000 && -0x1000_0000
                    <= x.pos.y <= 0x1000_0000,
            },
    {
        match self {
            Effect::EarnedPoint(x) => x.draw(renderer),
            Effect::SmallBomb(x) => x.draw(renderer),
        }
    }
}

} // verus!
