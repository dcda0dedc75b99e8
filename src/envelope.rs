//! The stage machine of an attack-decay-sustain-release envelope.
//!
//! Time within a stage and the envelope's level are sample values kept by
//! the caller. Each sample the caller advances its clock for a clocked
//! stage, tells the machine whether the stage has run out, and gets back the
//! segment whose formula gives this sample's level.

use vstd::prelude::*;

verus! {

/// The stages of an envelope. A fresh envelope is `Idle`.
#[derive(Clone, Copy, Debug, PartialEq, Eq, Structural)]
pub enum Stage {
    Attack,
    Decay,
    Sustain,
    Release,
    Idle,
}

/// Which formula gives one sample's level, for a stage time `t`, stage
/// durations `attack`, `decay` and `release`, and a sustain level `s`.
#[derive(Clone, Copy, Debug, PartialEq, Eq, Structural)]
pub enum Segment {
    /// `t / attack`: the attack ramp from 0 up to 1.
    Rise,
    /// 1: the attack has run out.
    Peak,
    /// `1 - (1 - s) * t / decay`: the decay ramp from 1 down to `s`.
    Fall,
    /// `s`: the sustain level.
    Hold,
    /// `s * (1 - t / release)`: the release ramp from `s` down to 0.
    Fade,
    /// 0.
    Silent,
}

impl Segment {
    /// Whether the formula divides by a stage's duration.
    pub open spec fn is_ramp(self) -> bool {
        self is Rise || self is Fall || self is Fade
    }
}

impl Stage {
    /// Whether the stage's time advances with each sample and ends it once it
    /// reaches the stage's duration.
    pub open spec fn clocked(self) -> bool {
        self is Attack || self is Decay || self is Release
    }

    /// Whether the stage's time advances with each sample.
    pub fn is_clocked(&self) -> (r: bool)
        ensures
            r == self.clocked(),
    {
        match self {
            Stage::Attack | Stage::Decay | Stage::Release => true,
            _ => false,
        }
    }
}

/// An envelope's stage, and its gate: whether its note is held.
#[derive(Clone, Copy, Debug, PartialEq, Eq, Structural)]
pub struct StageMachine {
    pub stage: Stage,
    pub gate: bool,
}

/// One sample of the machine: the stage after it, and the segment that gives
/// its level. `ran_out` says whether the clock of a clocked stage has reached
/// the stage's duration; an unclocked stage ignores it.
pub open spec fn step(m: StageMachine, ran_out: bool) -> (StageMachine, Segment) {
    match m.stage {
        Stage::Attack => if ran_out {
            (StageMachine { stage: Stage::Decay, ..m }, Segment::Peak)
        } else {
            (m, Segment::Rise)
        },
        Stage::Decay => if ran_out {
            (StageMachine { stage: Stage::Sustain, ..m }, Segment::Hold)
        } else {
            (m, Segment::Fall)
        },
        Stage::Sustain => if m.gate {
            (m, Segment::Hold)
        } else {
            (StageMachine { stage: Stage::Release, ..m }, Segment::Hold)
        },
        Stage::Release => if ran_out {
            (StageMachine { stage: Stage::Idle, ..m }, Segment::Silent)
        } else {
            (m, Segment::Fade)
        },
        Stage::Idle => (m, Segment::Silent),
    }
}

/// The machine after one sample for each entry of `events`, in order.
pub open spec fn run(m: StageMachine, events: Seq<bool>) -> StageMachine
    decreases events.len(),
{
    if events.len() == 0 {
        m
    } else {
        step(run(m, events.drop_last()), events.last()).0
    }
}

/// How many entries of `events` are true.
pub open spec fn count_true(events: Seq<bool>) -> nat
    decreases events.len(),
{
    if events.len() == 0 {
        0
    } else {
        count_true(events.drop_last()) + if events.last() {
            1nat
        } else {
            0nat
        }
    }
}

pub open spec fn held() -> StageMachine {
    StageMachine { stage: Stage::Attack, gate: true }
}

pub open spec fn released() -> StageMachine {
    StageMachine { stage: Stage::Release, gate: false }
}

impl StageMachine {
    /// A silent envelope whose note is not held.
    pub fn new() -> (r: StageMachine)
        ensures
            r == (StageMachine { stage: Stage::Idle, gate: false }),
    {
        StageMachine { stage: Stage::Idle, gate: false }
    }

    /// The note starts: the attack begins again from its start, whatever the
    /// stage was.
    pub fn note_on(&mut self)
        ensures
            *final(self) == held(),
    {
        self.stage = Stage::Attack;
        self.gate = true;
    }

    /// The note is let go: the release begins from its start.
    pub fn note_off(&mut self)
        ensures
            *final(self) == released(),
    {
        self.stage = Stage::Release;
        self.gate = false;
    }

    /// One sample: moves to the next stage where the current one is over, and
    /// returns the segment that gives this sample's level. A ramp, which
    /// divides by a duration, comes only while the stage has not run out.
    pub fn advance(&mut self, ran_out: bool) -> (r: Segment)
        ensures
            (*final(self), r) == step(*old(self), ran_out),
            r.is_ramp() ==> !ran_out,
            final(self).gate == old(self).gate,
    {
        match self.stage {
            Stage::Attack => if ran_out {
                self.stage = Stage::Decay;
                Segment::Peak
            } else {
                Segment::Rise
            },
            Stage::Decay => if ran_out {
                self.stage = Stage::Sustain;
                Segment::Hold
            } else {
                Segment::Fall
            },
            Stage::Sustain => {
                if !self.gate {
                    self.stage = Stage::Release;
                }
                Segment::Hold
            },
            Stage::Release => if ran_out {
                self.stage = Stage::Idle;
                Segment::Silent
            } else {
                Segment::Fade
            },
            Stage::Idle => Segment::Silent,
        }
    }
}

/// The stage of a held note once `n` of its clocked stages have run out.
pub open spec fn held_stage(n: nat) -> Stage {
    if n == 0 {
        Stage::Attack
    } else if n == 1 {
        Stage::Decay
    } else {
        Stage::Sustain
    }
}

/// While its note is held, an envelope goes from attack to decay when the
/// attack runs out, from decay to sustain when the decay runs out, and then
/// holds the sustain level: it never releases by itself.
pub proof fn lemma_held_note_reaches_sustain(events: Seq<bool>)
    ensures
        run(held(), events) == (StageMachine { stage: held_stage(count_true(events)), gate: true }),
        count_true(events) >= 2 ==> step(run(held(), events), false).1 == Segment::Hold,
    decreases events.len(),
{
    if events.len() > 0 {
        lemma_held_note_reaches_sustain(events.drop_last());
    }
}

/// After its note is let go, an envelope ramps down in its release stage
/// until the release runs out, and from then on stays silent.
pub proof fn lemma_released_note_falls_silent(events: Seq<bool>, next: bool)
    ensures
        run(released(), events).gate == false,
        count_true(events) == 0 ==> run(released(), events).stage == Stage::Release,
        count_true(events) > 0 ==> run(released(), events).stage == Stage::Idle,
        count_true(events) > 0 ==> step(run(released(), events), next).1 == Segment::Silent,
    decreases events.len(),
{
    if events.len() > 0 {
        lemma_released_note_falls_silent(events.drop_last(), next);
    }
}

} // verus!
