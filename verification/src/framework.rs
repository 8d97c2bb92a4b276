//! The narrow interfaces to the outside collaborators: rendering,
//! sound and key-value persistence.  The core only calls through them;
//! the owner supplies the implementations.

use vstd::prelude::*;
use crate::types::Vec2I;

verus! {

/// Keys the pad reads.
#[derive(Clone, Copy, Debug, PartialEq, Eq, Structural)]
pub enum VKey {
    Left,
    Right,
    Up,
    Down,
    Space,
    Other,
}

/// Drawing surface the core draws sprites on.
pub trait RendererTrait {
    /// Draws the named sprite with its top-left corner at `pos`
    /// (pixels).
    fn draw_sprite(&mut self, sprite_name: &str, pos: &Vec2I);

    /// Draws the named sprite rotated by `angle` (angle units) around
    /// its center, top-left at `pos`.
    fn draw_sprite_rot(&mut self, sprite_name: &str, pos: &Vec2I, angle: i32);
}

/// Sound and persisted-value services of the platform.
pub trait SystemTrait {
    /// Plays a sound cue on a channel.
    fn play_se(&mut self, channel: u32, id: u32);

    /// Reads a persisted value.
    fn get_u32(&self, key: &str) -> Option<u32>;

    /// Writes a persisted value.
    fn set_u32(&mut self, key: &str, value: u32);
}

} // verus!
