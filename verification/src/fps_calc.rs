//! The frame-rate counter: counts draws and latches the count each
//! time a wall-clock second has passed.
//!
//! Wall-clock time cannot be reasoned about, so the clock reads are
//! trusted and every decision is taken on the returned plain values,
//! holding for any reading.

use vstd::prelude::*;

verus! {

#[verifier::external_type_specification]
#[verifier::external_body]
pub struct ExSystemTime(std::time::SystemTime);

/// Relies on std::time::SystemTime::now: the current wall-clock time.
#[verifier::external_body]
fn time_now() -> std::time::SystemTime {
    std::time::SystemTime::now()
}

/// Relies on SystemTime::duration_since and Duration::as_secs: whole
/// seconds from `earlier` to `later`, and 0 when the clock went
/// backwards (where the standard call errors instead).
#[verifier::external_body]
fn seconds_between(earlier: &std::time::SystemTime, later: &std::time::SystemTime) -> u64 {
    match later.duration_since(*earlier) {
        Ok(d) => d.as_secs(),
        Err(_) => 0,
    }
}

/// The frame-rate counter.
pub struct FpsCalc {
    /// Last latched frames-per-second value.
    pub fps: i32,
    /// When the current second started.
    pub last_fps_time: std::time::SystemTime,
    /// Draws counted in the current second.
    pub ndraw: i32,
}

impl FpsCalc {
    /// The draw counter stays in range.
    pub open spec fn wf(&self) -> bool {
        0 <= self.ndraw <= 0x4000_0000 && 0 <= self.fps <= 0x4000_0000
    }

    /// Builds a counter starting now.
    pub fn new() -> (r: FpsCalc)
        ensures
            r.wf(),
            r.fps == 0 && r.ndraw == 0,
    {
        FpsCalc { fps: 0, last_fps_time: time_now(), ndraw: 0 }
    }

    /// Counts one draw; when a second has passed, latches the count as
    /// the rate and restarts.  Returns whether a new rate was latched.
    pub fn update(&mut self) -> (r: bool)
        requires
            old(self).wf(),
        ensures
            final(self).wf(),
            !r ==> final(self).fps == old(self).fps && final(self).ndraw == if old(self).ndraw
                < 0x4000_0000 {
                old(self).ndraw + 1
            } else {
                old(self).ndraw as int
            },
            r ==> final(self).fps == (if old(self).ndraw < 0x4000_0000 {
                old(self).ndraw + 1
            } else {
                old(self).ndraw as int
            }) && final(self).ndraw == 0,
    {
        if self.ndraw < 0x4000_0000 {
            self.ndraw = self.ndraw + 1;
        }
        let now = time_now();
        if seconds_between(&self.last_fps_time, &now) < 1 {
            return false;
        }
        self.fps = self.ndraw;
        self.ndraw = 0;
        self.last_fps_time = now;
        true
    }

    /// The last latched frames-per-second value.
    pub fn fps(&self) -> (r: i32)
        ensures
            r == self.fps,
    {
        self.fps
    }
}

} // verus!
