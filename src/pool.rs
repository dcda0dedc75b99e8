//! The pool of voices, keyed by note number.
//!
//! A voice is made the first time its note starts and stays in the pool for
//! good; starting the note again reuses it. Each voice keeps its slot, so
//! that the caller can hold the voice's sample state in a list of its own at
//! the same index.

use vstd::prelude::*;
use crate::envelope::{held, released, step, Segment, Stage, StageMachine};
use crate::harmonics::{HARMONIC_COUNT, OPERATOR_COUNT};

verus! {

/// The state of one voice that does not depend on sample values.
#[derive(Clone, Copy, Debug, PartialEq, Eq, Structural)]
pub struct VoiceState {
    /// The note number that the voice plays.
    pub note: u8,
    /// Whether the note is held. A voice that is not active may still sound
    /// its release.
    pub active: bool,
    pub envelope: StageMachine,
}

/// How the mix of all voices is scaled down.
#[derive(Clone, Copy, Debug, PartialEq, Eq, Structural)]
pub enum MixPolicy {
    /// Divide by the number of voices in the pool, sounding or not.
    Total,
    /// Divide by the number of voices that still sound.
    Sounding,
}

/// A voice is released once its note is let go and its envelope has come
/// to rest; until then it sounds.
pub open spec fn is_released_voice(v: VoiceState) -> bool {
    !v.active && v.envelope.stage == Stage::Idle
}

/// A voice whose note has just started.
pub open spec fn started(note: u8) -> VoiceState {
    VoiceState { note, active: true, envelope: held() }
}

/// The voice `v` once its note is let go.
pub open spec fn let_go(v: VoiceState) -> VoiceState {
    VoiceState { active: false, envelope: released(), ..v }
}

/// No two voices play the same note.
pub open spec fn unique_notes(s: Seq<VoiceState>) -> bool {
    forall|i: int, j: int| 0 <= i < j < s.len() ==> s[i].note != s[j].note
}

/// Whether a voice plays `note`.
pub open spec fn holds_note(s: Seq<VoiceState>, note: u8) -> bool {
    exists|i: int| 0 <= i < s.len() && s[i].note == note
}

/// The pool after `note` starts: its voice, made at the end if there was
/// none, starts again from the attack.
pub open spec fn after_note_on(s: Seq<VoiceState>, note: u8) -> Seq<VoiceState> {
    if holds_note(s, note) {
        s.map_values(|v: VoiceState| if v.note == note { started(note) } else { v })
    } else {
        s.push(started(note))
    }
}

/// The pool after `note` is let go; unchanged if no voice plays it.
pub open spec fn after_note_off(s: Seq<VoiceState>, note: u8) -> Seq<VoiceState> {
    s.map_values(|v: VoiceState| if v.note == note { let_go(v) } else { v })
}

/// Whether any voice still sounds.
pub open spec fn any_sounding(s: Seq<VoiceState>) -> bool {
    exists|i: int| 0 <= i < s.len() && !is_released_voice(#[trigger] s[i])
}

/// How many voices still sound.
pub open spec fn count_sounding(s: Seq<VoiceState>) -> nat
    decreases s.len(),
{
    if s.len() == 0 {
        0
    } else {
        count_sounding(s.drop_last()) + if is_released_voice(s.last()) {
            0nat
        } else {
            1nat
        }
    }
}

/// The notes of the voices whose notes are held, in slot order.
pub open spec fn held_notes(s: Seq<VoiceState>) -> Seq<u8>
    decreases s.len(),
{
    if s.len() == 0 {
        Seq::empty()
    } else if s.last().active {
        held_notes(s.drop_last()).push(s.last().note)
    } else {
        held_notes(s.drop_last())
    }
}

/// The voices of a synthesizer, one per note number that has ever started.
pub struct VoicePool {
    voices: Vec<VoiceState>,
}

impl View for VoicePool {
    type V = Seq<VoiceState>;

    closed spec fn view(&self) -> Seq<VoiceState> {
        self.voices@
    }
}

impl VoicePool {
    pub open spec fn wf(&self) -> bool {
        unique_notes(self@)
    }

    /// An empty pool.
    pub fn new() -> (r: VoicePool)
        ensures
            r.wf(),
            r@ == Seq::<VoiceState>::empty(),
    {
        VoicePool { voices: Vec::new() }
    }

    /// The number of voices.
    pub fn len(&self) -> (r: usize)
        ensures
            r == self@.len(),
    {
        self.voices.len()
    }

    /// The slot of the voice that plays `note`, if there is one.
    pub fn find(&self, note: u8) -> (r: Option<usize>)
        requires
            self.wf(),
        ensures
            r is None <==> !holds_note(self@, note),
            r matches Some(i) ==> i < self@.len() && self@[i as int].note == note,
    {
        let mut i: usize = 0;
        while i < self.voices.len()
            invariant
                i <= self@.len(),
                forall|k: int| 0 <= k < i ==> self@[k].note != note,
            decreases self@.len() - i,
        {
            if self.voices[i].note == note {
                return Some(i);
            }
            i = i + 1;
        }
        None
    }

    /// The state of the voice in slot `slot`.
    pub fn voice(&self, slot: usize) -> (r: VoiceState)
        requires
            slot < self@.len(),
        ensures
            r == self@[slot as int],
    {
        self.voices[slot]
    }

    /// Starts `note`: the voice that plays it, made at the end of the pool if
    /// there is none, is held and starts its attack. Returns its slot.
    pub fn note_on(&mut self, note: u8) -> (slot: usize)
        requires
            old(self).wf(),
        ensures
            final(self).wf(),
            final(self)@ == after_note_on(old(self)@, note),
            slot < final(self)@.len(),
            final(self)@[slot as int] == started(note),
            holds_note(old(self)@, note) ==> old(self)@[slot as int].note == note,
            !holds_note(old(self)@, note) ==> slot == old(self)@.len(),
    {
        let v = VoiceState {
            note,
            active: true,
            envelope: StageMachine { stage: Stage::Attack, gate: true },
        };
        match self.find(note) {
            Some(i) => {
                let ghost before = self@;
                self.voices[i] = v;
                assert(self@ =~= after_note_on(before, note));
                i
            },
            None => {
                let ghost before = self@;
                let n = self.voices.len();
                self.voices.push(v);
                assert(self@ =~= after_note_on(before, note));
                n
            },
        }
    }

    /// Lets `note` go: its voice, if there is one, is no longer held and
    /// starts its release. Returns its slot.
    pub fn note_off(&mut self, note: u8) -> (r: Option<usize>)
        requires
            old(self).wf(),
        ensures
            final(self).wf(),
            final(self)@ == after_note_off(old(self)@, note),
            r is None <==> !holds_note(old(self)@, note),
            r matches Some(i) ==> i < old(self)@.len() && old(self)@[i as int].note == note,
    {
        let ghost before = self@;
        match self.find(note) {
            Some(i) => {
                let v = self.voices[i];
                self.voices[i] = VoiceState {
                    active: false,
                    envelope: StageMachine { stage: Stage::Release, gate: false },
                    ..v
                };
                assert(self@ =~= after_note_off(before, note));
                Some(i)
            },
            None => {
                assert(self@ =~= after_note_off(before, note));
                None
            },
        }
    }

    /// One sample of the envelope of the voice in slot `slot`; `ran_out`
    /// says whether the clock of its stage has reached the stage's duration.
    /// Returns the segment that gives the sample's envelope level.
    pub fn advance(&mut self, slot: usize, ran_out: bool) -> (r: Segment)
        requires
            old(self).wf(),
            slot < old(self)@.len(),
        ensures
            final(self).wf(),
            final(self)@ == old(self)@.update(
                slot as int,
                VoiceState { envelope: step(old(self)@[slot as int].envelope, ran_out).0, ..old(self)@[slot as int] },
            ),
            r == step(old(self)@[slot as int].envelope, ran_out).1,
    {
        let mut v = self.voices[slot];
        let r = v.envelope.advance(ran_out);
        self.voices[slot] = v;
        r
    }

    /// Whether the voice in slot `slot` has been let go and come to rest.
    pub fn is_released(&self, slot: usize) -> (r: bool)
        requires
            slot < self@.len(),
        ensures
            r == is_released_voice(self@[slot as int]),
    {
        let v = self.voices[slot];
        !v.active && v.envelope.stage == Stage::Idle
    }

    /// Whether any voice still sounds: its note is held, or it has not yet
    /// come to rest after its note was let go.
    pub fn is_playing(&self) -> (r: bool)
        ensures
            r == any_sounding(self@),
    {
        let mut i: usize = 0;
        while i < self.voices.len()
            invariant
                i <= self@.len(),
                forall|k: int| 0 <= k < i ==> is_released_voice(#[trigger] self@[k]),
            decreases self@.len() - i,
        {
            if !self.is_released(i) {
                return true;
            }
            i = i + 1;
        }
        false
    }

    /// The note numbers of all voices, in slot order.
    pub fn notes(&self) -> (r: Vec<u8>)
        ensures
            r@ == self@.map_values(|v: VoiceState| v.note),
    {
        let mut r: Vec<u8> = Vec::new();
        let mut i: usize = 0;
        while i < self.voices.len()
            invariant
                i <= self@.len(),
                r@ =~= self@.take(i as int).map_values(|v: VoiceState| v.note),
            decreases self@.len() - i,
        {
            r.push(self.voices[i].note);
            i = i + 1;
            assert(r@ =~= self@.take(i as int).map_values(|v: VoiceState| v.note));
        }
        assert(self@.take(i as int) =~= self@);
        r
    }

    /// The note numbers of the voices whose notes are held, in slot order.
    pub fn active_notes(&self) -> (r: Vec<u8>)
        ensures
            r@ == held_notes(self@),
    {
        let mut r: Vec<u8> = Vec::new();
        let mut i: usize = 0;
        while i < self.voices.len()
            invariant
                i <= self@.len(),
                r@ == held_notes(self@.take(i as int)),
            decreases self@.len() - i,
        {
            let v = self.voices[i];
            assert(self@.take(i + 1).drop_last() =~= self@.take(i as int));
            if v.active {
                r.push(v.note);
            }
            i = i + 1;
        }
        assert(self@.take(i as int) =~= self@);
        r
    }

    /// What the sum of all voices' samples is divided by under `policy`.
    pub fn mix_divisor(&self, policy: MixPolicy) -> (r: usize)
        ensures
            policy == MixPolicy::Total ==> r == self@.len(),
            policy == MixPolicy::Sounding ==> r == count_sounding(self@),
    {
        match policy {
            MixPolicy::Total => self.voices.len(),
            MixPolicy::Sounding => {
                let mut count: usize = 0;
                let mut i: usize = 0;
                while i < self.voices.len()
                    invariant
                        i <= self@.len(),
                        count <= i,
                        count == count_sounding(self@.take(i as int)),
                    decreases self@.len() - i,
                {
                    assert(self@.take(i + 1).drop_last() =~= self@.take(i as int));
                    if !self.is_released(i) {
                        count = count + 1;
                    }
                    i = i + 1;
                }
                assert(self@.take(i as int) =~= self@);
                count
            },
        }
    }

    /// The number of harmonics of a voice's additive engine, or 0 while the
    /// pool has no voice.
    pub fn harmonics_count(&self) -> (r: usize)
        ensures
            r == if self@.len() > 0 { HARMONIC_COUNT } else { 0 },
    {
        if self.voices.len() > 0 {
            HARMONIC_COUNT
        } else {
            0
        }
    }

    /// The number of operators of a voice's FM engine, or 0 while the pool
    /// has no voice.
    pub fn operators_count(&self) -> (r: usize)
        ensures
            r == if self@.len() > 0 { OPERATOR_COUNT } else { 0 },
    {
        if self.voices.len() > 0 {
            OPERATOR_COUNT
        } else {
            0
        }
    }
}

/// A pool in which a note has just started is playing.
pub proof fn lemma_started_note_plays(s: Seq<VoiceState>, note: u8)
    requires
        unique_notes(s),
    ensures
        any_sounding(after_note_on(s, note)),
{
    let t = after_note_on(s, note);
    if holds_note(s, note) {
        let i = choose|i: int| 0 <= i < s.len() && s[i].note == note;
        assert(!is_released_voice(t[i]));
    } else {
        assert(!is_released_voice(t[s.len() as int]));
    }
}

/// A pool in which a note has just been let go is still playing: the note
/// sounds its release. Once its release has run out, the pool plays exactly
/// when some other voice still sounds.
pub proof fn lemma_release_tail_plays(s: Seq<VoiceState>, note: u8, slot: int)
    requires
        unique_notes(s),
        0 <= slot < s.len(),
        s[slot].note == note,
    ensures
        any_sounding(after_note_off(s, note)),
        ({
            let t = after_note_off(s, note);
            let rest = t.update(
                slot,
                VoiceState { envelope: step(t[slot].envelope, true).0, ..t[slot] },
            );
            any_sounding(rest) <==> exists|j: int|
                0 <= j < s.len() && j != slot && !is_released_voice(#[trigger] t[j])
        }),
{
    let t = after_note_off(s, note);
    assert(!is_released_voice(t[slot]));
    let rest = t.update(slot, VoiceState { envelope: step(t[slot].envelope, true).0, ..t[slot] });
    assert(is_released_voice(rest[slot]));
    if any_sounding(rest) {
        let j = choose|j: int| 0 <= j < rest.len() && !is_released_voice(#[trigger] rest[j]);
        assert(j != slot && !is_released_voice(t[j]));
    }
    if exists|j: int| 0 <= j < s.len() && j != slot && !is_released_voice(#[trigger] t[j]) {
        let j = choose|j: int| 0 <= j < s.len() && j != slot && !is_released_voice(#[trigger] t[j]);
        assert(!is_released_voice(rest[j]));
    }
}

} // verus!
