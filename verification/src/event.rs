//! The per-tick event queue.  Cross-enemy effects (shots, explosions,
//! capture signals, sounds) are appended during the update pass and
//! consumed by the owner afterwards, so no enemy mutates a sibling while
//! the pass iterates.

use vstd::prelude::*;
use crate::types::{FormationIndex, Vec2I};
use crate::enemy::EnemyType;

verus! {

/// A typed event produced by the core during one tick.
#[derive(Clone, Copy, Debug, PartialEq, Eq, Structural)]
pub enum EventType {
    /// An enemy requests a shot from the given position.
    EneShot(Vec2I),
    /// An enemy exploded: position, angle, and its type.
    EnemyExplosion(Vec2I, i32, EnemyType),
    /// The capturing Owl's beam caught the player at the given position.
    CapturePlayer(Vec2I),
    /// The external capture animation finished and the captured fighter
    /// has been spawned.
    CapturePlayerCompleted,
    /// A captured fighter should be spawned at the position, into the slot.
    SpawnCapturedFighter(Vec2I, FormationIndex),
    /// The Owl holding the captured fighter in the given slot died in
    /// formation: the fighter is recaptured by the player.
    RecapturePlayer(FormationIndex),
    /// A capture attack ended without (or after) a capture.
    EndCaptureAttack,
    /// The capturing Owl died while the beam was tracting the player.
    EscapeCapturing,
    /// The capture sequence fully resolved; all troops returned to
    /// formation.
    CaptureSequenceEnded,
    /// A captured fighter was destroyed while flying as an enemy.
    CapturedFighterDestroyed,
    /// Play a sound effect: channel, cue id.
    PlaySe(u32, u32),
}

/// Append-only queue of the events of one tick.
pub struct EventQueue {
    pub items: Vec<EventType>,
}

impl EventQueue {
    /// The events pushed so far, oldest first.
    pub open spec fn view(&self) -> Seq<EventType> {
        self.items@
    }

    /// Builds an empty queue.
    pub fn new() -> (r: EventQueue)
        ensures
            r@ == Seq::<EventType>::empty(),
    {
        EventQueue { items: Vec::new() }
    }

    /// Appends one event.
    pub fn push(&mut self, e: EventType)
        ensures
            final(self)@ == old(self)@.push(e),
    {
        self.items.push(e);
    }

    /// Number of queued events.
    pub fn len(&self) -> (r: usize)
        ensures
            r == self@.len(),
    {
        self.items.len()
    }

    /// Reads the event at `i`.
    pub fn get(&self, i: usize) -> (r: EventType)
        requires
            i < self@.len(),
        ensures
            r == self@[i as int],
    {
        self.items[i]
    }

    /// Drops all events (done after the owner consumed the tick).
    pub fn clear(&mut self)
        ensures
            final(self)@ == Seq::<EventType>::empty(),
    {
        self.items.clear();
    }
}

} // verus!
