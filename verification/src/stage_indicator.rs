//! The stage indicator: the row of flags in the screen corner that
//! counts up to the current stage, one flag denomination at a time.

use vstd::prelude::*;
use crate::consts::{CH_BOMB, HEIGHT, SE_COUNT_STAGE, WIDTH};
use crate::framework::{RendererTrait, SystemTrait};
use crate::types::Vec2I;

verus! {

/// Number of flag denominations.
pub const FLAG_KINDS: usize = 6;

/// The stage count one flag of kind `k` stands for.
pub open spec fn spec_flag_count(k: int) -> int {
    if k == 0 {
        50
    } else if k == 1 {
        30
    } else if k == 2 {
        20
    } else if k == 3 {
        10
    } else if k == 4 {
        5
    } else {
        1
    }
}

/// The sprite width in pixels of a flag of kind `k`.
pub open spec fn spec_flag_width(k: int) -> int {
    if k <= 3 {
        16
    } else {
        8
    }
}

/// The stage count of flag kind `k`.
fn flag_count(k: usize) -> (r: u16)
    requires
        k < FLAG_KINDS,
    ensures
        r == spec_flag_count(k as int),
        1 <= r <= 50,
{
    if k == 0 {
        50
    } else if k == 1 {
        30
    } else if k == 2 {
        20
    } else if k == 3 {
        10
    } else if k == 4 {
        5
    } else {
        1
    }
}

/// The sprite width of flag kind `k`.
fn flag_width(k: usize) -> (r: u16)
    requires
        k < FLAG_KINDS,
    ensures
        r == spec_flag_width(k as int),
{
    if k <= 3 {
        16
    } else {
        8
    }
}

/// The sprite key of flag kind `k`.
fn flag_sprite(k: usize) -> (r: &'static str)
    requires
        k < FLAG_KINDS,
{
    if k == 0 {
        "flag50"
    } else if k == 1 {
        "flag30"
    } else if k == 2 {
        "flag20"
    } else if k == 3 {
        "flag10"
    } else if k == 4 {
        "flag5"
    } else {
        "flag1"
    }
}

/// Total pixel width of the flag row for a stage number: the greedy
/// flag decomposition, largest denominations first.
pub open spec fn spec_calc_width_rec(count: int, k: int) -> int
    decreases FLAG_KINDS - k,
{
    if k >= FLAG_KINDS {
        0
    } else {
        (count / spec_flag_count(k)) * spec_flag_width(k) + spec_calc_width_rec(
            count % spec_flag_count(k),
            k + 1,
        )
    }
}

/// Pixel width of the flag row shown for `stage`.  The width is
/// returned in the same 16-bit range as the stage counter, which caps
/// the stages it can lay out.
pub fn calc_width(stage: u16) -> (r: u16)
    requires
        stage <= 4000,
    ensures
        r == spec_calc_width_rec(stage as int, 0),
        r <= 16 * stage,
{
    let mut count = stage;
    let mut width: u32 = 0;
    let mut k: usize = 0;
    while k < FLAG_KINDS
        invariant
            k <= FLAG_KINDS,
            count <= stage,
            width + spec_calc_width_rec(count as int, k as int) == spec_calc_width_rec(
                stage as int,
                0,
            ),
            width <= 16 * (stage - count),
        decreases FLAG_KINDS - k,
    {
        let fc = flag_count(k);
        let fw = flag_width(k);
        let n = count / fc;
        proof {
            vstd::arithmetic::div_mod::lemma_fundamental_div_mod(count as int, fc as int);
            assert(n as int * fw as int <= 16 * (n as int * fc as int)) by (nonlinear_arith)
                requires
                    0 <= n,
                    1 <= fc,
                    0 <= fw <= 16 * fc as int,
            ;
        }
        width = width + (n as u32) * (fw as u32);
        count = count % fc;
        k = k + 1;
    }
    proof {
        assert(spec_calc_width_rec(count as int, FLAG_KINDS as int) == 0);
    }
    width as u16
}

/// The stage indicator.
pub struct StageIndicator {
    /// Stage to show.
    pub stage: u16,
    /// Ticks until the next flag appears.
    pub wait: u32,
    /// Stage count shown so far.
    pub stage_disp: u16,
}

impl StageIndicator {
    /// The displayed count never passes the target.
    pub open spec fn wf(&self) -> bool {
        self.stage_disp <= self.stage
    }

    /// Builds an empty indicator.
    pub fn new() -> (r: StageIndicator)
        ensures
            r.wf(),
            r.stage == 0 && r.wait == 0 && r.stage_disp == 0,
    {
        StageIndicator { stage: 0, wait: 0, stage_disp: 0 }
    }

    /// Starts counting up to `stage`.
    pub fn set_stage(&mut self, stage: u16)
        ensures
            final(self).wf(),
            *final(self) == (StageIndicator { stage, wait: 0, stage_disp: 0 }),
    {
        self.stage = stage;
        self.wait = 0;
        self.stage_disp = 0;
    }

    /// One tick: after the inter-flag wait, the largest denomination
    /// that still fits is added and its sound plays.
    pub fn update<S: SystemTrait>(&mut self, system: &mut S)
        requires
            old(self).wf(),
        ensures
            final(self).wf(),
            final(self).stage == old(self).stage,
            old(self).stage_disp == old(self).stage ==> *final(self) == *old(self),
            final(self).stage_disp >= old(self).stage_disp,
    {
        if self.stage_disp >= self.stage {
            return;
        }
        if self.wait > 0 {
            self.wait = self.wait - 1;
            return;
        }
        let mut k: usize = 0;
        while k < FLAG_KINDS
            invariant
                self.wf(),
                self.stage == old(self).stage,
                self.stage_disp >= old(self).stage_disp,
                k <= FLAG_KINDS,
            decreases FLAG_KINDS - k,
        {
            let fc = flag_count(k);
            let diff = self.stage - self.stage_disp;
            if diff >= fc {
                self.stage_disp = self.stage_disp + fc;
                self.wait = 3;
                system.play_se(CH_BOMB, SE_COUNT_STAGE);
                return;
            }
            k = k + 1;
        }
    }

    /// Draws the flags counted so far, right-aligned.
    pub fn draw<R: RendererTrait>(&self, renderer: &mut R)
        requires
            self.wf(),
            self.stage <= 4000,
    {
        let width = calc_width(self.stage);
        let mut x: i32 = WIDTH - width as i32;
        let mut count = self.stage_disp;
        let mut k: usize = 0;
        while k < FLAG_KINDS
            invariant
                k <= FLAG_KINDS,
                count <= self.stage_disp,
                self.stage_disp <= 4000,
                -0x100_0000 <= x,
                x <= 0x100_0000 + 16 * (self.stage_disp - count),
            decreases FLAG_KINDS - k,
        {
            let fc = flag_count(k);
            let fw = flag_width(k);
            while count >= fc
                invariant
                    k < FLAG_KINDS,
                    fc == spec_flag_count(k as int),
                    fw == spec_flag_width(k as int),
                    count <= self.stage_disp,
                    self.stage_disp <= 4000,
                    -0x100_0000 <= x,
                    x <= 0x100_0000 + 16 * (self.stage_disp - count),
                decreases count,
            {
                renderer.draw_sprite(flag_sprite(k), &Vec2I::new(x, HEIGHT - 16));
                x = x + fw as i32;
                count = count - fc;
            }
            k = k + 1;
        }
    }
}

} // verus!
