//! The on/off switches of the additive engine's harmonics.

use vstd::prelude::*;

verus! {

/// The number of harmonics of the additive engine.
pub const HARMONIC_COUNT: usize = 64;

/// The number of operators of the FM engine.
pub const OPERATOR_COUNT: usize = 6;

/// The frequency multiplier of harmonic `index`: the fundamental is 1.
pub fn harmonic_multiplier(index: usize) -> (r: u32)
    requires
        index < HARMONIC_COUNT,
    ensures
        r == index + 1,
{
    (index + 1) as u32
}

/// Which harmonics sound. Only the fundamental does at first.
pub struct HarmonicSwitches {
    enabled: Vec<bool>,
}

impl View for HarmonicSwitches {
    type V = Seq<bool>;

    closed spec fn view(&self) -> Seq<bool> {
        self.enabled@
    }
}

impl HarmonicSwitches {
    pub open spec fn wf(&self) -> bool {
        self@.len() == HARMONIC_COUNT
    }

    /// Every harmonic off but the fundamental.
    pub fn new() -> (r: HarmonicSwitches)
        ensures
            r.wf(),
            r@ == Seq::new(HARMONIC_COUNT as nat, |i: int| i == 0),
    {
        let mut enabled: Vec<bool> = Vec::new();
        let mut i: usize = 0;
        while i < HARMONIC_COUNT
            invariant
                i <= HARMONIC_COUNT,
                enabled@ =~= Seq::new(i as nat, |k: int| k == 0),
            decreases HARMONIC_COUNT - i,
        {
            enabled.push(i == 0);
            i = i + 1;
        }
        HarmonicSwitches { enabled }
    }

    /// Whether harmonic `index` sounds.
    pub fn is_enabled(&self, index: usize) -> (r: bool)
        requires
            self.wf(),
            index < HARMONIC_COUNT,
        ensures
            r == self@[index as int],
    {
        self.enabled[index]
    }

    /// Turns harmonic `index` on if it was off and off if it was on. An index
    /// out of range changes nothing. Returns whether the index was in range.
    pub fn toggle(&mut self, index: usize) -> (r: bool)
        requires
            old(self).wf(),
        ensures
            final(self).wf(),
            r == (index < HARMONIC_COUNT),
            r ==> final(self)@ == old(self)@.update(index as int, !old(self)@[index as int]),
            !r ==> final(self)@ == old(self)@,
    {
        if index < self.enabled.len() {
            let on = self.enabled[index];
            self.enabled[index] = !on;
            true
        } else {
            false
        }
    }
}

} // verus!
