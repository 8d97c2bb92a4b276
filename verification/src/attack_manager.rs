//! The attack manager: schedules which formation-settled enemies break
//! off to attack, with a cooldown between launches that rush mode
//! shortens.

use vstd::prelude::*;
use crate::types::FormationIndex;

verus! {

/// Attackers tracked at once.
pub const MAX_ATTACKERS: usize = 2;

/// Cooldown between attack launches in normal mode.
pub const ATTACK_WAIT_NORMAL: u32 = 120;

/// Cooldown between attack launches in rush mode.
pub const ATTACK_WAIT_RUSH: u32 = 40;

/// Random extra cooldown added to each launch.
pub const ATTACK_WAIT_JITTER: u32 = 60;

/// The per-stage attack scheduler.
pub struct AttackManager {
    /// Launching enabled (only after the formation assembles).
    pub enable: bool,
    /// Scheduling suspended.
    pub paused: bool,
    /// Ticks until the next launch may happen.
    pub wait: u32,
    /// Slots of the enemies currently out on an attack.
    pub attackers: Vec<Option<FormationIndex>>,
}

impl AttackManager {
    /// The attacker list keeps its fixed size and the cooldown stays
    /// bounded.
    pub open spec fn wf(&self) -> bool {
        &&& self.attackers@.len() == MAX_ATTACKERS
        &&& self.wait <= ATTACK_WAIT_NORMAL + ATTACK_WAIT_JITTER
    }

    /// Builds a disabled scheduler.
    pub fn new() -> (r: AttackManager)
        ensures
            r.wf(),
            !r.enable && !r.paused && r.wait == 0,
            forall|i: int| 0 <= i < r.attackers@.len() ==> #[trigger] r.attackers@[i] is None,
    {
        let mut attackers: Vec<Option<FormationIndex>> = Vec::new();
        attackers.push(None);
        attackers.push(None);
        AttackManager { enable: false, paused: false, wait: 0, attackers }
    }

    /// Resets for the next stage.
    pub fn restart(&mut self, stage: u16)
        requires
            old(self).wf(),
        ensures
            final(self).wf(),
            !final(self).enable && final(self).wait == 0,
            forall|i: int| 0 <= i < final(self).attackers@.len() ==> #[trigger] final(self).attackers@[i] is None,
            final(self).paused == old(self).paused,
    {
        self.enable = false;
        self.wait = 0;
        let mut k: usize = 0;
        while k < self.attackers.len()
            invariant
                old(self).wf(),
                self.attackers@.len() == MAX_ATTACKERS,
                self.wait == 0,
                self.enable == false,
                self.paused == old(self).paused,
                k <= self.attackers@.len(),
                forall|i: int| 0 <= i < k ==> #[trigger] self.attackers@[i] is None,
            decreases self.attackers@.len() - k,
        {
            self.attackers[k] = None;
            k = k + 1;
        }
    }

    /// Allows or forbids launching.
    pub fn set_enable(&mut self, value: bool)
        requires
            old(self).wf(),
        ensures
            final(self).wf(),
            *final(self) == (AttackManager { enable: value, ..*old(self) }),
    {
        self.enable = value;
    }

    /// Suspends or resumes scheduling.
    pub fn pause(&mut self, value: bool)
        requires
            old(self).wf(),
        ensures
            final(self).wf(),
            *final(self) == (AttackManager { paused: value, ..*old(self) }),
    {
        self.paused = value;
    }

    /// True when no attacker is tracked.
    pub fn is_no_attacker(&self) -> (r: bool)
        requires
            self.wf(),
        ensures
            r == forall|i: int| 0 <= i < self.attackers@.len() ==> #[trigger] self.attackers@[i]
                is None,
    {
        let mut k: usize = 0;
        while k < self.attackers.len()
            invariant
                self.wf(),
                k <= self.attackers@.len(),
                forall|i: int| 0 <= i < k ==> #[trigger] self.attackers@[i] is None,
            decreases self.attackers@.len() - k,
        {
            if self.attackers[k].is_some() {
                return false;
            }
            k = k + 1;
        }
        true
    }

    /// Drops a tracked attacker (its run ended or it died).
    pub fn clear_attacker(&mut self, fi: &FormationIndex)
        requires
            old(self).wf(),
        ensures
            final(self).wf(),
    {
        let mut k: usize = 0;
        while k < self.attackers.len()
            invariant
                old(self).wf(),
                self.attackers@.len() == MAX_ATTACKERS,
                self.wait == old(self).wait,
                k <= self.attackers@.len(),
            decreases self.attackers@.len() - k,
        {
            let mut matched = false;
            if let Some(a) = self.attackers[k] {
                if a.0 == fi.0 && a.1 == fi.1 {
                    matched = true;
                }
            }
            if matched {
                self.attackers[k] = None;
            }
            k = k + 1;
        }
    }

    /// Records a launched attacker in a free tracking slot.
    pub fn note_attacker(&mut self, fi: &FormationIndex)
        requires
            old(self).wf(),
        ensures
            final(self).wf(),
    {
        let mut k: usize = 0;
        while k < self.attackers.len()
            invariant
                old(self).wf(),
                self.attackers@.len() == MAX_ATTACKERS,
                self.wait == old(self).wait,
                k <= self.attackers@.len(),
            decreases self.attackers@.len() - k,
        {
            if self.attackers[k].is_none() {
                self.attackers[k] = Some(*fi);
                return;
            }
            k = k + 1;
        }
    }

    /// True when a tracking slot is free.
    pub fn has_free_slot(&self) -> (r: bool)
        requires
            self.wf(),
        ensures
            r == exists|i: int| 0 <= i < self.attackers@.len() && self.attackers@[i] is None,
    {
        let mut k: usize = 0;
        while k < self.attackers.len()
            invariant
                self.wf(),
                k <= self.attackers@.len(),
                forall|i: int| 0 <= i < k ==> !(#[trigger] self.attackers@[i] is None),
            decreases self.attackers@.len() - k,
        {
            if self.attackers[k].is_none() {
                return true;
            }
            k = k + 1;
        }
        false
    }

    /// One cooldown tick: reports whether a launch may happen now
    /// (enabled, not paused, cooldown elapsed, a tracking slot free).
    pub fn ready_to_launch(&mut self) -> (r: bool)
        requires
            old(self).wf(),
        ensures
            final(self).wf(),
            r ==> final(self).enable && !final(self).paused,
            final(self).enable == old(self).enable,
            final(self).paused == old(self).paused,
            final(self).attackers == old(self).attackers,
    {
        if !self.enable || self.paused {
            return false;
        }
        if self.wait > 0 {
            self.wait = self.wait - 1;
            return false;
        }
        self.has_free_slot()
    }

    /// Re-arms the cooldown after a launch.
    pub fn rearm(&mut self, is_rush: bool, jitter: u32)
        requires
            old(self).wf(),
            jitter < ATTACK_WAIT_JITTER,
        ensures
            final(self).wf(),
            final(self).wait == (if is_rush {
                ATTACK_WAIT_RUSH
            } else {
                ATTACK_WAIT_NORMAL
            }) + jitter,
    {
        self.wait = if is_rush {
            ATTACK_WAIT_RUSH
        } else {
            ATTACK_WAIT_NORMAL
        } + jitter;
    }
}

} // verus!
