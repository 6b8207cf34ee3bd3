//! Zone selection for sample-based instruments.
//!
//! A sampler holds a list of zones, each covering an inclusive MIDI key
//! range; a note is served by the first zone whose range contains it.
//! The PCM playback itself runs in the floating-point signal path and
//! only consumes the index chosen here.

use vstd::prelude::*;

use crate::preset::KeyRange;

verus! {

/// Whether a zone's key range covers the note.
pub open spec fn zone_covers(z: KeyRange, midi_note: u8) -> bool {
    z.low <= midi_note <= z.high
}

/// Whether any zone of the list covers the note.
pub open spec fn any_zone_covers(zones: Seq<KeyRange>, midi_note: u8) -> bool {
    exists|i: int| 0 <= i < zones.len() && zone_covers(#[trigger] zones[i], midi_note)
}

/// Find the first zone whose key range contains the note.
pub fn find_zone_index(zones: &Vec<KeyRange>, midi_note: u8) -> (r: Option<usize>)
    ensures
        match r {
            Some(i) => i < zones@.len() && zone_covers(zones@[i as int], midi_note) && forall|
                j: int,
            |
                0 <= j < i ==> !zone_covers(#[trigger] zones@[j], midi_note),
            None => !any_zone_covers(zones@, midi_note),
        },
{
    let n = zones.len();
    let mut i: usize = 0;
    while i < n
        invariant
            i <= n,
            n == zones@.len(),
            forall|j: int| 0 <= j < i ==> !zone_covers(#[trigger] zones@[j], midi_note),
        decreases n - i,
    {
        let z = zones[i];
        if z.low <= midi_note && midi_note <= z.high {
            return Some(i);
        }
        i += 1;
    }
    None
}

/// States of a sampler voice's envelope. Unlike the oscillator envelope,
/// a spent sampler envelope parks in `Done` rather than returning to
/// `Idle`, so a finished voice stays finished.
#[derive(Debug, Clone, Copy, PartialEq, Eq, Structural)]
pub enum SamplerEnvelopeState {
    Idle,
    Attack,
    Decay,
    Sustain,
    Release,
    Done,
}

/// What one sampler-envelope sample is: a point on a ramp, a stage
/// endpoint, or a held level.
#[derive(Debug, Clone, Copy, PartialEq, Eq, Structural)]
pub enum SamplerEnvelopeStep {
    /// Idle or spent — the level is 0.
    Quiet,
    /// Mid-attack: the level ramps from 0 toward 1 at `num / den`.
    AttackRamp { num: usize, den: usize },
    /// The attack just completed — the level is exactly 1.
    AttackPeak,
    /// Mid-decay: the level ramps from 1 toward the sustain level at
    /// `num / den`.
    DecayRamp { num: usize, den: usize },
    /// Sustain — the level holds at the sustain level (decay completion
    /// lands here too).
    SustainHold,
    /// Mid-release: the level ramps from the sustain level toward 0 at
    /// `num / den`.
    ReleaseRamp { num: usize, den: usize },
    /// The release just completed — the level is 0 and the voice spent.
    ReleaseEnd,
}

/// The integer state of a sampler voice's envelope. Stage lengths are in
/// samples and are read afresh on every step, so they may be retuned
/// while a stage runs.
#[derive(Debug, Clone, Copy, PartialEq, Eq, Structural)]
pub struct SamplerEnvelopeClock {
    pub state: SamplerEnvelopeState,
    /// Length of the attack ramp, in samples.
    pub attack_samples: usize,
    /// Length of the decay ramp, in samples.
    pub decay_samples: usize,
    /// Length of the release ramp, in samples.
    pub release_samples: usize,
    /// Samples completed in the running stage.
    pub samples_in_state: usize,
}

impl SamplerEnvelopeClock {
    /// A running ramp stage can still count one more sample.
    pub open spec fn wf(self) -> bool {
        (self.state == SamplerEnvelopeState::Attack || self.state == SamplerEnvelopeState::Decay
            || self.state == SamplerEnvelopeState::Release) ==> self.samples_in_state < usize::MAX
    }

    /// A fresh, idle sampler envelope clock with the given stage lengths.
    pub fn new(attack_samples: usize, decay_samples: usize, release_samples: usize) -> (r:
        SamplerEnvelopeClock)
        ensures
            r == (SamplerEnvelopeClock {
                state: SamplerEnvelopeState::Idle,
                attack_samples,
                decay_samples,
                release_samples,
                samples_in_state: 0,
            }),
            r.wf(),
    {
        SamplerEnvelopeClock {
            state: SamplerEnvelopeState::Idle,
            attack_samples,
            decay_samples,
            release_samples,
            samples_in_state: 0,
        }
    }

    /// Note on: enter Attack from the start.
    pub fn note_on(&mut self)
        ensures
            final (self).state == SamplerEnvelopeState::Attack,
            final (self).samples_in_state == 0,
            final (self).attack_samples == old(self).attack_samples,
            final (self).decay_samples == old(self).decay_samples,
            final (self).release_samples == old(self).release_samples,
            final (self).wf(),
    {
        self.state = SamplerEnvelopeState::Attack;
        self.samples_in_state = 0;
    }

    /// Note off: enter Release, except from Idle or Done, where it is a
    /// no-op.
    pub fn note_off(&mut self)
        ensures
            (old(self).state == SamplerEnvelopeState::Idle || old(self).state
                == SamplerEnvelopeState::Done) ==> *final (self) == *old(self),
            !(old(self).state == SamplerEnvelopeState::Idle || old(self).state
                == SamplerEnvelopeState::Done) ==> {
                &&& final (self).state == SamplerEnvelopeState::Release
                &&& final (self).samples_in_state == 0
                &&& final (self).attack_samples == old(self).attack_samples
                &&& final (self).decay_samples == old(self).decay_samples
                &&& final (self).release_samples == old(self).release_samples
            },
            old(self).wf() ==> final (self).wf(),
    {
        if self.state != SamplerEnvelopeState::Done && self.state != SamplerEnvelopeState::Idle {
            self.state = SamplerEnvelopeState::Release;
            self.samples_in_state = 0;
        }
    }

    /// The envelope is spent: its release ran out.
    pub fn is_done(&self) -> (r: bool)
        ensures
            r == (self.state == SamplerEnvelopeState::Done),
    {
        self.state == SamplerEnvelopeState::Done
    }

    /// Advance by one sample and say what this sample is.
    ///
    /// Counting is one-based: a ramp stage of `n > 1` samples yields its
    /// positions `1/n` through `(n-1)/n` and then its endpoint; a stage of
    /// 0 or 1 samples completes in one sample. Attack completion enters
    /// Decay, decay completion enters Sustain, release completion enters
    /// Done; Idle, Sustain and Done hold.
    pub fn tick(&mut self) -> (step: SamplerEnvelopeStep)
        requires
            old(self).wf(),
        ensures
            final (self).attack_samples == old(self).attack_samples,
            final (self).decay_samples == old(self).decay_samples,
            final (self).release_samples == old(self).release_samples,
            final (self).wf(),
            old(self).state == SamplerEnvelopeState::Idle ==> *final (self) == *old(self) && step
                == SamplerEnvelopeStep::Quiet,
            old(self).state == SamplerEnvelopeState::Done ==> *final (self) == *old(self) && step
                == SamplerEnvelopeStep::Quiet,
            old(self).state == SamplerEnvelopeState::Sustain ==> *final (self) == *old(self) && step
                == SamplerEnvelopeStep::SustainHold,
            old(self).state == SamplerEnvelopeState::Attack ==> {
                if old(self).attack_samples == 0 || old(self).samples_in_state + 1
                    >= old(self).attack_samples {
                    &&& step == SamplerEnvelopeStep::AttackPeak
                    &&& final (self).state == SamplerEnvelopeState::Decay
                    &&& final (self).samples_in_state == 0
                } else {
                    &&& step == (SamplerEnvelopeStep::AttackRamp {
                        num: (old(self).samples_in_state + 1) as usize,
                        den: old(self).attack_samples,
                    })
                    &&& final (self).state == SamplerEnvelopeState::Attack
                    &&& final (self).samples_in_state == old(self).samples_in_state + 1
                }
            },
            old(self).state == SamplerEnvelopeState::Decay ==> {
                if old(self).decay_samples == 0 || old(self).samples_in_state + 1
                    >= old(self).decay_samples {
                    &&& step == SamplerEnvelopeStep::SustainHold
                    &&& final (self).state == SamplerEnvelopeState::Sustain
                    &&& final (self).samples_in_state == 0
                } else {
                    &&& step == (SamplerEnvelopeStep::DecayRamp {
                        num: (old(self).samples_in_state + 1) as usize,
                        den: old(self).decay_samples,
                    })
                    &&& final (self).state == SamplerEnvelopeState::Decay
                    &&& final (self).samples_in_state == old(self).samples_in_state + 1
                }
            },
            old(self).state == SamplerEnvelopeState::Release ==> {
                if old(self).release_samples == 0 || old(self).samples_in_state + 1
                    >= old(self).release_samples {
                    &&& step == SamplerEnvelopeStep::ReleaseEnd
                    &&& final (self).state == SamplerEnvelopeState::Done
                    &&& final (self).samples_in_state == old(self).samples_in_state + 1
                } else {
                    &&& step == (SamplerEnvelopeStep::ReleaseRamp {
                        num: (old(self).samples_in_state + 1) as usize,
                        den: old(self).release_samples,
                    })
                    &&& final (self).state == SamplerEnvelopeState::Release
                    &&& final (self).samples_in_state == old(self).samples_in_state + 1
                }
            },
    {
        match self.state {
            SamplerEnvelopeState::Idle => SamplerEnvelopeStep::Quiet,
            SamplerEnvelopeState::Done => SamplerEnvelopeStep::Quiet,
            SamplerEnvelopeState::Sustain => SamplerEnvelopeStep::SustainHold,
            SamplerEnvelopeState::Attack => {
                self.samples_in_state += 1;
                if self.attack_samples == 0 || self.samples_in_state >= self.attack_samples {
                    self.state = SamplerEnvelopeState::Decay;
                    self.samples_in_state = 0;
                    SamplerEnvelopeStep::AttackPeak
                } else {
                    SamplerEnvelopeStep::AttackRamp {
                        num: self.samples_in_state,
                        den: self.attack_samples,
                    }
                }
            },
            SamplerEnvelopeState::Decay => {
                self.samples_in_state += 1;
                if self.decay_samples == 0 || self.samples_in_state >= self.decay_samples {
                    self.state = SamplerEnvelopeState::Sustain;
                    self.samples_in_state = 0;
                    SamplerEnvelopeStep::SustainHold
                } else {
                    SamplerEnvelopeStep::DecayRamp {
                        num: self.samples_in_state,
                        den: self.decay_samples,
                    }
                }
            },
            SamplerEnvelopeState::Release => {
                self.samples_in_state += 1;
                if self.release_samples == 0 || self.samples_in_state >= self.release_samples {
                    self.state = SamplerEnvelopeState::Done;
                    SamplerEnvelopeStep::ReleaseEnd
                } else {
                    SamplerEnvelopeStep::ReleaseRamp {
                        num: self.samples_in_state,
                        den: self.release_samples,
                    }
                }
            },
        }
    }
}

} // verus!
