//! The tractor beam an Owl opens under itself during a capture attack:
//! a small state machine over its visual phases plus the capture-range
//! test.

use vstd::prelude::*;
use crate::types::{in_coord_range, Vec2I};

verus! {

/// Ticks between growing or shrinking one beam segment.
pub const BEAM_STEP_TICKS: u32 = 4;

/// Number of beam segments when fully open.
pub const BEAM_SEGMENTS: u32 = 6;

/// Ticks the beam stays fully open waiting for a capturable player.
pub const BEAM_FULL_DURATION: u32 = 128;

/// Horizontal capture range around the beam center (fixed point).
pub const BEAM_CAPTURE_RANGE: i32 = 6144;

/// Cap on the cosmetic tick counter (keeps it from wrapping).
pub const BEAM_COUNT_CAP: u32 = 1000000;

/// Visual phase of the beam.
#[derive(Clone, Copy, Debug, PartialEq, Eq, Structural)]
pub enum BeamPhase {
    /// Segments extending one by one.
    Opening,
    /// Fully open, waiting for the player.
    Full,
    /// Segments retracting.
    Closing,
    /// Fully retracted; the owner discards the beam.
    Closed,
    /// Pulling the captured player in.
    Capturing,
}

/// The beam: its anchor position, phase and timers.
pub struct TractorBeam {
    /// Anchor position (just below the owning Owl).
    pub pos: Vec2I,
    /// Current phase.
    pub phase: BeamPhase,
    /// Ticks inside the current phase.
    pub count: u32,
    /// Segments currently shown.
    pub size: u32,
}

/// One tick of the beam state machine.
pub open spec fn spec_beam_step(b: TractorBeam) -> TractorBeam {
    match b.phase {
        BeamPhase::Opening => {
            let c = b.count + 1;
            if c >= BEAM_STEP_TICKS {
                let s = b.size + 1;
                if s >= BEAM_SEGMENTS {
                    TractorBeam { phase: BeamPhase::Full, count: 0, size: BEAM_SEGMENTS as u32, ..b }
                } else {
                    TractorBeam { count: 0, size: s as u32, ..b }
                }
            } else {
                TractorBeam { count: c as u32, ..b }
            }
        },
        BeamPhase::Full => {
            let c = b.count + 1;
            if c >= BEAM_FULL_DURATION {
                TractorBeam { phase: BeamPhase::Closing, count: 0, ..b }
            } else {
                TractorBeam { count: c as u32, ..b }
            }
        },
        BeamPhase::Closing => {
            let c = b.count + 1;
            if c >= BEAM_STEP_TICKS {
                if b.size <= 1 {
                    TractorBeam { phase: BeamPhase::Closed, count: 0, size: 0, ..b }
                } else {
                    TractorBeam { count: 0, size: (b.size - 1) as u32, ..b }
                }
            } else {
                TractorBeam { count: c as u32, ..b }
            }
        },
        BeamPhase::Closed => b,
        BeamPhase::Capturing => {
            if b.count < BEAM_COUNT_CAP {
                TractorBeam { count: (b.count + 1) as u32, ..b }
            } else {
                b
            }
        },
    }
}

impl TractorBeam {
    /// Counters and segment count within their ranges.
    pub open spec fn wf(&self) -> bool {
        &&& in_coord_range(self.pos)
        &&& self.size <= BEAM_SEGMENTS
        &&& self.count <= BEAM_COUNT_CAP
        &&& self.count < BEAM_FULL_DURATION || !(self.phase is Full)
        &&& self.count < BEAM_STEP_TICKS || (self.phase is Full || self.phase is Capturing
            || self.phase is Closed)
    }

    /// Opens a new beam anchored at `pos`.
    pub fn new(pos: &Vec2I) -> (r: TractorBeam)
        requires
            in_coord_range(*pos),
        ensures
            r.wf(),
            r.pos == *pos,
            r.phase == BeamPhase::Opening,
            r.count == 0 && r.size == 0,
    {
        TractorBeam { pos: *pos, phase: BeamPhase::Opening, count: 0, size: 0 }
    }

    /// Advances the beam one tick.
    pub fn update(&mut self)
        requires
            old(self).wf(),
        ensures
            final(self).wf(),
            *final(self) == spec_beam_step(*old(self)),
    {
        match self.phase {
            BeamPhase::Opening => {
                self.count = self.count + 1;
                if self.count >= BEAM_STEP_TICKS {
                    self.count = 0;
                    self.size = self.size + 1;
                    if self.size >= BEAM_SEGMENTS {
                        self.size = BEAM_SEGMENTS;
                        self.phase = BeamPhase::Full;
                    }
                }
            },
            BeamPhase::Full => {
                self.count = self.count + 1;
                if self.count >= BEAM_FULL_DURATION {
                    self.count = 0;
                    self.phase = BeamPhase::Closing;
                }
            },
            BeamPhase::Closing => {
                self.count = self.count + 1;
                if self.count >= BEAM_STEP_TICKS {
                    self.count = 0;
                    if self.size <= 1 {
                        self.size = 0;
                        self.phase = BeamPhase::Closed;
                    } else {
                        self.size = self.size - 1;
                    }
                }
            },
            BeamPhase::Closed => {},
            BeamPhase::Capturing => {
                if self.count < BEAM_COUNT_CAP {
                    self.count = self.count + 1;
                }
            },
        }
    }

    /// True once the beam has fully retracted.
    pub fn closed(&self) -> (r: bool)
        ensures
            r == (self.phase is Closed),
    {
        matches!(self.phase, BeamPhase::Closed)
    }

    /// True when the beam is fully open and `player_pos` is within its
    /// horizontal capture range.
    pub fn can_capture(&self, player_pos: &Vec2I) -> (r: bool)
        requires
            self.wf(),
            in_coord_range(*player_pos),
        ensures
            r == (self.phase is Full && -BEAM_CAPTURE_RANGE <= player_pos.x - self.pos.x
                <= BEAM_CAPTURE_RANGE),
    {
        match self.phase {
            BeamPhase::Full => {
                let dx = player_pos.x - self.pos.x;
                -BEAM_CAPTURE_RANGE <= dx && dx <= BEAM_CAPTURE_RANGE
            },
            _ => false,
        }
    }

    /// Begins pulling the player in.
    pub fn start_capture(&mut self)
        requires
            old(self).wf(),
        ensures
            final(self).wf(),
            *final(self) == (TractorBeam { phase: BeamPhase::Capturing, count: 0, ..*old(self) }),
    {
        self.phase = BeamPhase::Capturing;
        self.count = 0;
    }

    /// Retracts the beam after a completed capture.
    pub fn close_capture(&mut self)
        requires
            old(self).wf(),
        ensures
            final(self).wf(),
            *final(self) == (TractorBeam { phase: BeamPhase::Closing, count: 0, ..*old(self) }),
    {
        self.phase = BeamPhase::Closing;
        self.count = 0;
    }
}

} // verus!
