//! The scripted trajectory tables: entry paths flown at stage start,
//! per-type attack runs, and the endless rush-mode continuations.
//!
//! Distances are fixed point (`ONE` per pixel), angles in angle units
//! (65536 per turn, 0 = up, clockwise positive).  Tables are written for
//! the left half of the formation; `flip_x` mirrors them on the right.

use vstd::prelude::*;
use crate::traj::{table_wf, TrajCommand};

verus! {

/// Attack run of a Bee: loop over, dive, weave twice, and leave.
pub open spec fn spec_bee_attack_table() -> Seq<TrajCommand> {
    seq![
        TrajCommand::SetSpeed(384),
        TrajCommand::SetVAngle(2048),
        TrajCommand::Delay(16),
        TrajCommand::SetVAngle(0),
        TrajCommand::Shot(20),
        TrajCommand::Delay(40),
        TrajCommand::SetVAngle(-1024i32),
        TrajCommand::Delay(32),
        TrajCommand::SetVAngle(1024),
        TrajCommand::Delay(32),
        TrajCommand::SetVAngle(0),
        TrajCommand::Delay(40),
    ]
}

/// Builds the Bee attack table.
pub fn bee_attack_table() -> (r: Vec<TrajCommand>)
    ensures
        r@ == spec_bee_attack_table(),
        table_wf(r@),
{
    let mut v: Vec<TrajCommand> = Vec::new();
    v.push(TrajCommand::SetSpeed(384));
    v.push(TrajCommand::SetVAngle(2048));
    v.push(TrajCommand::Delay(16));
    v.push(TrajCommand::SetVAngle(0));
    v.push(TrajCommand::Shot(20));
    v.push(TrajCommand::Delay(40));
    v.push(TrajCommand::SetVAngle(-1024i32));
    v.push(TrajCommand::Delay(32));
    v.push(TrajCommand::SetVAngle(1024));
    v.push(TrajCommand::Delay(32));
    v.push(TrajCommand::SetVAngle(0));
    v.push(TrajCommand::Delay(40));
    proof {
        assert(v@ =~= spec_bee_attack_table());
    }
    v
}

/// Rush continuation of a Bee: once the attack run is spent in rush
/// mode, swing around and dive through the screen again.
pub open spec fn spec_bee_rush_cont_table() -> Seq<TrajCommand> {
    seq![
        TrajCommand::SetSpeed(448),
        TrajCommand::SetVAngle(1536),
        TrajCommand::Delay(20),
        TrajCommand::SetVAngle(0),
        TrajCommand::SetAngle(32768),
        TrajCommand::Delay(90),
    ]
}

/// Builds the Bee rush-continuation table.
pub fn bee_rush_cont_table() -> (r: Vec<TrajCommand>)
    ensures
        r@ == spec_bee_rush_cont_table(),
        table_wf(r@),
{
    let mut v: Vec<TrajCommand> = Vec::new();
    v.push(TrajCommand::SetSpeed(448));
    v.push(TrajCommand::SetVAngle(1536));
    v.push(TrajCommand::Delay(20));
    v.push(TrajCommand::SetVAngle(0));
    v.push(TrajCommand::SetAngle(32768));
    v.push(TrajCommand::Delay(90));
    proof {
        assert(v@ =~= spec_bee_rush_cont_table());
    }
    v
}

/// Attack run of a Butterfly: wide swing with two scripted side-steps.
pub open spec fn spec_butterfly_attack_table() -> Seq<TrajCommand> {
    seq![
        TrajCommand::SetSpeed(384),
        TrajCommand::SetVAngle(1792),
        TrajCommand::Delay(18),
        TrajCommand::SetVAngle(0),
        TrajCommand::Shot(24),
        TrajCommand::Delay(30),
        TrajCommand::Move(-4096i32, 8192, 24),
        TrajCommand::Move(4096, 8192, 24),
        TrajCommand::Delay(40),
    ]
}

/// Builds the Butterfly attack table.
pub fn butterfly_attack_table() -> (r: Vec<TrajCommand>)
    ensures
        r@ == spec_butterfly_attack_table(),
        table_wf(r@),
{
    let mut v: Vec<TrajCommand> = Vec::new();
    v.push(TrajCommand::SetSpeed(384));
    v.push(TrajCommand::SetVAngle(1792));
    v.push(TrajCommand::Delay(18));
    v.push(TrajCommand::SetVAngle(0));
    v.push(TrajCommand::Shot(24));
    v.push(TrajCommand::Delay(30));
    v.push(TrajCommand::Move(-4096i32, 8192, 24));
    v.push(TrajCommand::Move(4096, 8192, 24));
    v.push(TrajCommand::Delay(40));
    proof {
        assert(v@ =~= spec_butterfly_attack_table());
    }
    v
}

/// Attack run of an Owl (also flown by a captured fighter sent out to
/// attack): slow bank, two fire markers, long dive.
pub open spec fn spec_owl_attack_table() -> Seq<TrajCommand> {
    seq![
        TrajCommand::SetSpeed(320),
        TrajCommand::SetVAngle(1536),
        TrajCommand::Delay(20),
        TrajCommand::SetVAngle(0),
        TrajCommand::Shot(16),
        TrajCommand::Delay(24),
        TrajCommand::Shot(16),
        TrajCommand::Delay(24),
        TrajCommand::SetVAngle(-768i32),
        TrajCommand::Delay(24),
        TrajCommand::SetVAngle(0),
        TrajCommand::Delay(60),
    ]
}

/// Builds the Owl attack table.
pub fn owl_attack_table() -> (r: Vec<TrajCommand>)
    ensures
        r@ == spec_owl_attack_table(),
        table_wf(r@),
{
    let mut v: Vec<TrajCommand> = Vec::new();
    v.push(TrajCommand::SetSpeed(320));
    v.push(TrajCommand::SetVAngle(1536));
    v.push(TrajCommand::Delay(20));
    v.push(TrajCommand::SetVAngle(0));
    v.push(TrajCommand::Shot(16));
    v.push(TrajCommand::Delay(24));
    v.push(TrajCommand::Shot(16));
    v.push(TrajCommand::Delay(24));
    v.push(TrajCommand::SetVAngle(-768i32));
    v.push(TrajCommand::Delay(24));
    v.push(TrajCommand::SetVAngle(0));
    v.push(TrajCommand::Delay(60));
    proof {
        assert(v@ =~= spec_owl_attack_table());
    }
    v
}

/// Rush-mode re-attack dive, parameterized by speed: swing out and dive
/// straight through the screen.
pub open spec fn spec_rush_attack_table(speed: i32) -> Seq<TrajCommand> {
    seq![
        TrajCommand::SetSpeed(speed),
        TrajCommand::SetVAngle(2048),
        TrajCommand::Delay(16),
        TrajCommand::SetVAngle(0),
        TrajCommand::SetAngle(32768),
        TrajCommand::Delay(110),
    ]
}

fn rush_attack_table(speed: i32) -> (r: Vec<TrajCommand>)
    requires
        0 <= speed <= crate::math::SPEED_LIMIT,
    ensures
        r@ == spec_rush_attack_table(speed),
        table_wf(r@),
{
    let mut v: Vec<TrajCommand> = Vec::new();
    v.push(TrajCommand::SetSpeed(speed));
    v.push(TrajCommand::SetVAngle(2048));
    v.push(TrajCommand::Delay(16));
    v.push(TrajCommand::SetVAngle(0));
    v.push(TrajCommand::SetAngle(32768));
    v.push(TrajCommand::Delay(110));
    proof {
        assert(v@ =~= spec_rush_attack_table(speed));
    }
    v
}

/// Rush re-attack table of a Bee.
pub open spec fn spec_bee_rush_attack_table() -> Seq<TrajCommand> {
    spec_rush_attack_table(448)
}

/// Builds the Bee rush re-attack table.
pub fn bee_rush_attack_table() -> (r: Vec<TrajCommand>)
    ensures
        r@ == spec_bee_rush_attack_table(),
        table_wf(r@),
{
    rush_attack_table(448)
}

/// Rush re-attack table of a Butterfly.
pub open spec fn spec_butterfly_rush_attack_table() -> Seq<TrajCommand> {
    spec_rush_attack_table(416)
}

/// Builds the Butterfly rush re-attack table.
pub fn butterfly_rush_attack_table() -> (r: Vec<TrajCommand>)
    ensures
        r@ == spec_butterfly_rush_attack_table(),
        table_wf(r@),
{
    rush_attack_table(416)
}

/// Rush re-attack table of an Owl (and of a captured fighter).
pub open spec fn spec_owl_rush_attack_table() -> Seq<TrajCommand> {
    spec_rush_attack_table(384)
}

/// Builds the Owl rush re-attack table.
pub fn owl_rush_attack_table() -> (r: Vec<TrajCommand>)
    ensures
        r@ == spec_owl_rush_attack_table(),
        table_wf(r@),
{
    rush_attack_table(384)
}

/// Entry path flown at stage start.  Variant 0 loops in from the side;
/// variant 1 comes down the middle and banks out; variant 2 sweeps in
/// low.  The final command snaps the column to the formation slot's.
pub open spec fn spec_appearance_table(variant: u32) -> Seq<TrajCommand> {
    if variant == 0 {
        seq![
            TrajCommand::SetSpeed(512),
            TrajCommand::SetAngle(32768),
            TrajCommand::Delay(30),
            TrajCommand::SetVAngle(-2048i32),
            TrajCommand::Delay(16),
            TrajCommand::SetVAngle(0),
            TrajCommand::Delay(20),
            TrajCommand::CopyFormationX,
        ]
    } else if variant == 1 {
        seq![
            TrajCommand::SetSpeed(512),
            TrajCommand::SetAngle(32768),
            TrajCommand::Delay(40),
            TrajCommand::SetVAngle(2048),
            TrajCommand::Delay(16),
            TrajCommand::SetVAngle(0),
            TrajCommand::Delay(16),
            TrajCommand::CopyFormationX,
        ]
    } else {
        seq![
            TrajCommand::SetSpeed(512),
            TrajCommand::SetAngle(24576),
            TrajCommand::Delay(36),
            TrajCommand::SetVAngle(-1024i32),
            TrajCommand::Delay(24),
            TrajCommand::SetVAngle(0),
            TrajCommand::Delay(16),
            TrajCommand::CopyFormationX,
        ]
    }
}

/// Builds one of the entry paths.
pub fn appearance_table(variant: u32) -> (r: Vec<TrajCommand>)
    ensures
        r@ == spec_appearance_table(variant),
        table_wf(r@),
{
    let mut v: Vec<TrajCommand> = Vec::new();
    v.push(TrajCommand::SetSpeed(512));
    if variant == 0 {
        v.push(TrajCommand::SetAngle(32768));
        v.push(TrajCommand::Delay(30));
        v.push(TrajCommand::SetVAngle(-2048i32));
        v.push(TrajCommand::Delay(16));
        v.push(TrajCommand::SetVAngle(0));
        v.push(TrajCommand::Delay(20));
    } else if variant == 1 {
        v.push(TrajCommand::SetAngle(32768));
        v.push(TrajCommand::Delay(40));
        v.push(TrajCommand::SetVAngle(2048));
        v.push(TrajCommand::Delay(16));
        v.push(TrajCommand::SetVAngle(0));
        v.push(TrajCommand::Delay(16));
    } else {
        v.push(TrajCommand::SetAngle(24576));
        v.push(TrajCommand::Delay(36));
        v.push(TrajCommand::SetVAngle(-1024i32));
        v.push(TrajCommand::Delay(24));
        v.push(TrajCommand::SetVAngle(0));
        v.push(TrajCommand::Delay(16));
    }
    v.push(TrajCommand::CopyFormationX);
    proof {
        assert(v@ =~= spec_appearance_table(variant));
    }
    v
}

} // verus!
