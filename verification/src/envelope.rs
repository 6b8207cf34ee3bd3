//! The ADSR envelope's timing core: stage transitions and sample counting.
//!
//! An envelope runs Idle → Attack → Decay → Sustain → Release → Idle.
//! Which stage a sample falls in, when a stage completes, and that a
//! zero-length stage completes in one sample are decided here; the level
//! each step denotes — a linear ramp position — is floating point and is
//! interpolated in the signal path from the ramp fractions this clock
//! hands out.

use vstd::prelude::*;

verus! {

/// Envelope stages.
#[derive(Debug, Clone, Copy, PartialEq, Eq, Structural)]
pub enum EnvelopeStage {
    Idle,
    Attack,
    Decay,
    Sustain,
    Release,
}

/// What one envelope sample is: a point on a ramp, a stage endpoint, or a
/// held level.
#[derive(Debug, Clone, Copy, PartialEq, Eq, Structural)]
pub enum EnvelopeStep {
    /// Idle — the level is 0.
    Quiet,
    /// Mid-attack: the level ramps from the retrigger level toward 1 at
    /// position `num / den`.
    AttackRamp { num: usize, den: usize },
    /// The attack just completed — the level is exactly 1.
    AttackPeak,
    /// Mid-decay: the level ramps from 1 toward the sustain level at
    /// position `num / den`.
    DecayRamp { num: usize, den: usize },
    /// Sustain — the level holds at the sustain level.
    SustainHold,
    /// Mid-release: the level ramps from the captured release level toward
    /// 0 at position `num / den`.
    ReleaseRamp { num: usize, den: usize },
    /// The release just completed — the level is 0 and the envelope idle.
    ReleaseEnd,
}

/// The integer state of an ADSR envelope: which stage is running, how long
/// it is, and how far along it is. Stage lengths are in samples.
#[derive(Debug, Clone, Copy, PartialEq, Eq, Structural)]
pub struct EnvelopeClock {
    pub stage: EnvelopeStage,
    /// Length of the attack ramp, in samples.
    pub attack_samples: usize,
    /// Length of the decay ramp, in samples.
    pub decay_samples: usize,
    /// Length of the release ramp, in samples.
    pub release_samples: usize,
    /// Length of the ramp stage now running.
    pub stage_samples: usize,
    /// Samples completed in the running ramp stage.
    pub stage_counter: usize,
}

impl EnvelopeClock {
    /// A running ramp stage has not been stepped past its end.
    pub open spec fn wf(self) -> bool {
        (self.stage == EnvelopeStage::Attack || self.stage == EnvelopeStage::Decay || self.stage
            == EnvelopeStage::Release) ==> (self.stage_samples == 0 || self.stage_counter
            < self.stage_samples)
    }

    /// A fresh, idle envelope clock with the given stage lengths.
    pub fn new(attack_samples: usize, decay_samples: usize, release_samples: usize) -> (r:
        EnvelopeClock)
        ensures
            r == (EnvelopeClock {
                stage: EnvelopeStage::Idle,
                attack_samples,
                decay_samples,
                release_samples,
                stage_samples: 0,
                stage_counter: 0,
            }),
            r.wf(),
    {
        EnvelopeClock {
            stage: EnvelopeStage::Idle,
            attack_samples,
            decay_samples,
            release_samples,
            stage_samples: 0,
            stage_counter: 0,
        }
    }

    /// Note on: enter Attack from the start. The signal path retriggers
    /// from its current level, so this works from any stage without a
    /// click.
    pub fn gate_on(&mut self)
        ensures
            final (self).stage == EnvelopeStage::Attack,
            final (self).stage_samples == old(self).attack_samples,
            final (self).stage_counter == 0,
            final (self).attack_samples == old(self).attack_samples,
            final (self).decay_samples == old(self).decay_samples,
            final (self).release_samples == old(self).release_samples,
            final (self).wf(),
    {
        self.stage = EnvelopeStage::Attack;
        self.stage_samples = self.attack_samples;
        self.stage_counter = 0;
    }

    /// Note off: enter Release, except from Idle, where it is a no-op.
    pub fn gate_off(&mut self)
        ensures
            old(self).stage == EnvelopeStage::Idle ==> *final (self) == *old(self),
            old(self).stage != EnvelopeStage::Idle ==> {
                &&& final (self).stage == EnvelopeStage::Release
                &&& final (self).stage_samples == old(self).release_samples
                &&& final (self).stage_counter == 0
                &&& final (self).attack_samples == old(self).attack_samples
                &&& final (self).decay_samples == old(self).decay_samples
                &&& final (self).release_samples == old(self).release_samples
            },
            final (self).wf(),
            old(self).wf() ==> final (self).wf(),
    {
        if self.stage == EnvelopeStage::Idle {
            return ;
        }
        self.stage = EnvelopeStage::Release;
        self.stage_samples = self.release_samples;
        self.stage_counter = 0;
    }

    /// The envelope has finished: it is idle (never triggered, or the
    /// release ran out).
    pub fn is_finished(&self) -> (r: bool)
        ensures
            r == (self.stage == EnvelopeStage::Idle),
    {
        self.stage == EnvelopeStage::Idle
    }

    /// Advance by one sample and say what this sample is.
    ///
    /// A ramp stage of `n > 0` samples yields its ramp positions `0/n`
    /// through `(n-2)/n` and then its endpoint; a zero-length stage
    /// completes in one sample, yielding its endpoint at once. Attack
    /// completion enters Decay, decay completion enters Sustain, release
    /// completion enters Idle; Idle and Sustain hold.
    pub fn tick(&mut self) -> (step: EnvelopeStep)
        requires
            old(self).wf(),
        ensures
            final (self).attack_samples == old(self).attack_samples,
            final (self).decay_samples == old(self).decay_samples,
            final (self).release_samples == old(self).release_samples,
            final (self).wf(),
            old(self).stage == EnvelopeStage::Idle ==> *final (self) == *old(self) && step
                == EnvelopeStep::Quiet,
            old(self).stage == EnvelopeStage::Sustain ==> *final (self) == *old(self) && step
                == EnvelopeStep::SustainHold,
            old(self).stage == EnvelopeStage::Attack ==> {
                if old(self).stage_samples == 0 || old(self).stage_counter + 1
                    >= old(self).stage_samples {
                    &&& step == EnvelopeStep::AttackPeak
                    &&& final (self).stage == EnvelopeStage::Decay
                    &&& final (self).stage_samples == old(self).decay_samples
                    &&& final (self).stage_counter == 0
                } else {
                    &&& step == (EnvelopeStep::AttackRamp {
                        num: old(self).stage_counter,
                        den: old(self).stage_samples,
                    })
                    &&& final (self).stage == EnvelopeStage::Attack
                    &&& final (self).stage_samples == old(self).stage_samples
                    &&& final (self).stage_counter == old(self).stage_counter + 1
                }
            },
            old(self).stage == EnvelopeStage::Decay ==> {
                if old(self).stage_samples == 0 || old(self).stage_counter + 1
                    >= old(self).stage_samples {
                    &&& step == EnvelopeStep::SustainHold
                    &&& final (self).stage == EnvelopeStage::Sustain
                } else {
                    &&& step == (EnvelopeStep::DecayRamp {
                        num: old(self).stage_counter,
                        den: old(self).stage_samples,
                    })
                    &&& final (self).stage == EnvelopeStage::Decay
                    &&& final (self).stage_samples == old(self).stage_samples
                    &&& final (self).stage_counter == old(self).stage_counter + 1
                }
            },
            old(self).stage == EnvelopeStage::Release ==> {
                if old(self).stage_samples == 0 || old(self).stage_counter + 1
                    >= old(self).stage_samples {
                    &&& step == EnvelopeStep::ReleaseEnd
                    &&& final (self).stage == EnvelopeStage::Idle
                } else {
                    &&& step == (EnvelopeStep::ReleaseRamp {
                        num: old(self).stage_counter,
                        den: old(self).stage_samples,
                    })
                    &&& final (self).stage == EnvelopeStage::Release
                    &&& final (self).stage_samples == old(self).stage_samples
                    &&& final (self).stage_counter == old(self).stage_counter + 1
                }
            },
    {
        match self.stage {
            EnvelopeStage::Idle => EnvelopeStep::Quiet,
            EnvelopeStage::Sustain => EnvelopeStep::SustainHold,
            EnvelopeStage::Attack => {
                if self.stage_samples == 0 {
                    self.enter_decay();
                    EnvelopeStep::AttackPeak
                } else {
                    let num = self.stage_counter;
                    self.stage_counter += 1;
                    if self.stage_counter >= self.stage_samples {
                        self.enter_decay();
                        EnvelopeStep::AttackPeak
                    } else {
                        EnvelopeStep::AttackRamp { num, den: self.stage_samples }
                    }
                }
            },
            EnvelopeStage::Decay => {
                if self.stage_samples == 0 {
                    self.stage = EnvelopeStage::Sustain;
                    EnvelopeStep::SustainHold
                } else {
                    let num = self.stage_counter;
                    self.stage_counter += 1;
                    if self.stage_counter >= self.stage_samples {
                        self.stage = EnvelopeStage::Sustain;
                        EnvelopeStep::SustainHold
                    } else {
                        EnvelopeStep::DecayRamp { num, den: self.stage_samples }
                    }
                }
            },
            EnvelopeStage::Release => {
                if self.stage_samples == 0 {
                    self.stage = EnvelopeStage::Idle;
                    EnvelopeStep::ReleaseEnd
                } else {
                    let num = self.stage_counter;
                    self.stage_counter += 1;
                    if self.stage_counter >= self.stage_samples {
                        self.stage = EnvelopeStage::Idle;
                        EnvelopeStep::ReleaseEnd
                    } else {
                        EnvelopeStep::ReleaseRamp { num, den: self.stage_samples }
                    }
                }
            },
        }
    }

    fn enter_decay(&mut self)
        ensures
            final (self).stage == EnvelopeStage::Decay,
            final (self).stage_samples == old(self).decay_samples,
            final (self).stage_counter == 0,
            final (self).attack_samples == old(self).attack_samples,
            final (self).decay_samples == old(self).decay_samples,
            final (self).release_samples == old(self).release_samples,
            final (self).wf(),
    {
        self.stage = EnvelopeStage::Decay;
        self.stage_samples = self.decay_samples;
        self.stage_counter = 0;
    }
}

} // verus!
