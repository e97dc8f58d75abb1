//! Per-voice amplitude envelope: a sample-accurate state machine.
//!
//! The envelope advances one frame at a time so its timing does not
//! depend on the block size. Levels are fixed point in `UNIT` steps;
//! each counting stage holds a per-frame rate magnitude and a frame
//! budget, and moves to its successor when the budget runs out.

use vstd::prelude::*;
use crate::units::UNIT;

verus! {

/// Envelope shape configurations. Durations are milliseconds; `sustain`
/// is a level in `0 ..= UNIT`.
#[derive(Clone, Copy, Debug, PartialEq, Eq, Structural)]
pub enum EnvelopeShape {
    ADSR { attack_ms: u32, decay_ms: u32, sustain: u32, release_ms: u32 },
    AR { attack_ms: u32, release_ms: u32 },
    Trapezoid { rise_ms: u32, hold_ms: u32, fall_ms: u32 },
}

/// Default sustain level: seven tenths of full scale.
pub const DEFAULT_SUSTAIN: u32 = UNIT * 7 / 10;

/// A shape is well formed when its sustain level is a valid level.
pub open spec fn shape_wf(s: EnvelopeShape) -> bool {
    match s {
        EnvelopeShape::ADSR { sustain, .. } => sustain <= UNIT,
        _ => true,
    }
}

impl Default for EnvelopeShape {
    /// A gentle general-purpose four-segment shape.
    fn default() -> (s: Self)
        ensures
            s == (EnvelopeShape::ADSR {
                attack_ms: 10u32,
                decay_ms: 100u32,
                sustain: DEFAULT_SUSTAIN,
                release_ms: 200u32,
            }),
            shape_wf(s),
    {
        EnvelopeShape::ADSR { attack_ms: 10, decay_ms: 100, sustain: DEFAULT_SUSTAIN, release_ms: 200 }
    }
}

/// The phase the amplitude state machine is in.
#[derive(Clone, Copy, Debug, PartialEq, Eq, Structural)]
pub enum EnvelopeStage {
    Idle,
    Attack,
    Decay,
    Sustain,
    Release,
    /// Plateau between rise and fall; only trapezoid shapes use it.
    Hold,
}

/// Sample-accurate amplitude envelope.
///
/// `current_value` is the output level; `rate_mag` is how far it moves
/// each frame (upward during attack, downward during decay and release);
/// `samples_in_stage` is the active stage's frame budget and
/// `stage_counter` how much of it has elapsed.
pub struct Envelope {
    pub shape: EnvelopeShape,
    pub stage: EnvelopeStage,
    pub current_value: u32,
    pub target_value: u32,
    pub rate_mag: u32,
    pub sample_rate: u32,
    pub samples_in_stage: u64,
    pub stage_counter: u64,
}

/// Highest sample rate the engine accepts.
pub const MAX_SAMPLE_RATE: u32 = 1000000;

/// Longest frame budget a stage can get: the longest duration at the
/// highest sample rate.
pub const MAX_STAGE_SAMPLES: u64 = 4294967296000;

/// How many frames a duration spans at a sample rate, truncated.
pub open spec fn stage_len_spec(ms: u32, sample_rate: u32) -> int {
    (ms as int) * (sample_rate as int) / 1000
}

/// Rate magnitude for a rising segment from `current` up to full scale.
pub open spec fn rise_rate_spec(current: int, len: int) -> int {
    if len > 0 {
        ((UNIT as int) - current) / len
    } else {
        UNIT as int
    }
}

/// Rate magnitude for a falling segment from `current` down to zero.
pub open spec fn fall_rate_spec(current: int, len: int) -> int {
    if len > 0 {
        current / len
    } else {
        UNIT as int
    }
}

/// Rate magnitude for the decay from full scale down to `sustain`.
pub open spec fn decay_rate_spec(sustain: int, len: int) -> int {
    if len > 0 {
        ((UNIT as int) - sustain) / len
    } else {
        0
    }
}

impl Envelope {
    /// Internal consistency: levels and rates within scale, durations
    /// within the budget a `u64` frame counter can take, the counter
    /// never past its budget by more than the final step.
    pub open spec fn wf(self) -> bool {
        &&& self.current_value <= UNIT
        &&& self.target_value <= UNIT
        &&& self.rate_mag <= UNIT
        &&& shape_wf(self.shape)
        &&& self.sample_rate <= MAX_SAMPLE_RATE
        &&& self.samples_in_stage <= MAX_STAGE_SAMPLES
        &&& self.stage_counter <= self.samples_in_stage + 1
        &&& (self.stage is Attack || self.stage is Decay || self.stage is Hold
            || self.stage is Release) ==> self.stage_counter <= self.samples_in_stage
    }

    /// The state `trigger` moves an envelope to: attack begins anew from
    /// the current level.
    pub open spec fn triggered_spec(self) -> Envelope {
        let len = stage_len_spec(self.attack_ms_spec(), self.sample_rate);
        Envelope {
            stage: EnvelopeStage::Attack,
            target_value: UNIT,
            samples_in_stage: len as u64,
            rate_mag: rise_rate_spec(self.current_value as int, len) as u32,
            stage_counter: 0,
            ..self
        }
    }

    /// The attack duration the active shape prescribes.
    pub open spec fn attack_ms_spec(self) -> u32 {
        match self.shape {
            EnvelopeShape::ADSR { attack_ms, .. } => attack_ms,
            EnvelopeShape::AR { attack_ms, .. } => attack_ms,
            EnvelopeShape::Trapezoid { rise_ms, .. } => rise_ms,
        }
    }

    /// The release (or fall) duration the active shape prescribes.
    pub open spec fn release_ms_spec(self) -> u32 {
        match self.shape {
            EnvelopeShape::ADSR { release_ms, .. } => release_ms,
            EnvelopeShape::AR { release_ms, .. } => release_ms,
            EnvelopeShape::Trapezoid { fall_ms, .. } => fall_ms,
        }
    }

    /// The state `release` moves an envelope to: no change when idle or
    /// already releasing, otherwise a fall from the current level.
    pub open spec fn released_spec(self) -> Envelope {
        if self.stage is Idle || self.stage is Release {
            self
        } else {
            let len = stage_len_spec(self.release_ms_spec(), self.sample_rate);
            Envelope {
                stage: EnvelopeStage::Release,
                target_value: 0,
                samples_in_stage: len as u64,
                rate_mag: fall_rate_spec(self.current_value as int, len) as u32,
                stage_counter: 0,
                ..self
            }
        }
    }

    /// Where an exhausted attack goes, with the level pinned at full
    /// scale: decay for four-segment shapes, indefinite sustain for
    /// attack-release shapes, hold or fall for trapezoids.
    pub open spec fn after_attack_spec(self) -> Envelope {
        match self.shape {
            EnvelopeShape::ADSR { decay_ms, sustain, .. } => {
                let len = stage_len_spec(decay_ms, self.sample_rate);
                Envelope {
                    stage: EnvelopeStage::Decay,
                    target_value: sustain,
                    samples_in_stage: len as u64,
                    rate_mag: decay_rate_spec(sustain as int, len) as u32,
                    stage_counter: 0,
                    ..self
                }
            },
            EnvelopeShape::AR { .. } => Envelope { stage: EnvelopeStage::Sustain, ..self },
            EnvelopeShape::Trapezoid { hold_ms, fall_ms, .. } => {
                if hold_ms > 0 {
                    let len = stage_len_spec(hold_ms, self.sample_rate);
                    Envelope {
                        stage: EnvelopeStage::Hold,
                        samples_in_stage: len as u64,
                        stage_counter: 0,
                        ..self
                    }
                } else {
                    let len = stage_len_spec(fall_ms, self.sample_rate);
                    Envelope {
                        stage: EnvelopeStage::Release,
                        target_value: 0,
                        samples_in_stage: len as u64,
                        rate_mag: fall_rate_spec(self.current_value as int, len) as u32,
                        stage_counter: 0,
                        ..self
                    }
                }
            },
        }
    }

    /// Where an exhausted hold plateau goes: the trapezoid's fall.
    pub open spec fn after_hold_spec(self) -> Envelope {
        let len = stage_len_spec(self.release_ms_spec(), self.sample_rate);
        Envelope {
            stage: EnvelopeStage::Release,
            target_value: 0,
            samples_in_stage: len as u64,
            rate_mag: fall_rate_spec(self.current_value as int, len) as u32,
            stage_counter: 0,
            ..self
        }
    }

    /// One frame of the state machine. Idle and sustain hold their
    /// level; attack climbs and advances when its budget or full scale
    /// is reached; decay falls toward the sustain level and pins it on
    /// arrival; hold counts its plateau out; release falls and goes
    /// idle at zero.
    pub open spec fn step_spec(self) -> Envelope {
        match self.stage {
            EnvelopeStage::Idle => self,
            EnvelopeStage::Attack => {
                let v2 = self.current_value + self.rate_mag;
                let c2 = self.stage_counter + 1;
                if c2 >= self.samples_in_stage || v2 >= UNIT {
                    Envelope {
                        current_value: UNIT,
                        stage_counter: c2 as u64,
                        ..self
                    }.after_attack_spec()
                } else {
                    Envelope { current_value: v2 as u32, stage_counter: c2 as u64, ..self }
                }
            },
            EnvelopeStage::Decay => {
                let v2 = if self.current_value >= self.rate_mag {
                    (self.current_value - self.rate_mag) as u32
                } else {
                    0u32
                };
                let c2 = self.stage_counter + 1;
                if c2 >= self.samples_in_stage {
                    match self.shape {
                        EnvelopeShape::ADSR { sustain, .. } => Envelope {
                            stage: EnvelopeStage::Sustain,
                            current_value: sustain,
                            stage_counter: c2 as u64,
                            ..self
                        },
                        _ => Envelope {
                            stage: EnvelopeStage::Sustain,
                            current_value: v2,
                            stage_counter: c2 as u64,
                            ..self
                        },
                    }
                } else {
                    Envelope { current_value: v2, stage_counter: c2 as u64, ..self }
                }
            },
            EnvelopeStage::Sustain => self,
            EnvelopeStage::Hold => {
                let c2 = self.stage_counter + 1;
                if c2 >= self.samples_in_stage {
                    Envelope { stage_counter: c2 as u64, ..self }.after_hold_spec()
                } else {
                    Envelope { stage_counter: c2 as u64, ..self }
                }
            },
            EnvelopeStage::Release => {
                let v2 = if self.current_value >= self.rate_mag {
                    (self.current_value - self.rate_mag) as u32
                } else {
                    0u32
                };
                let c2 = self.stage_counter + 1;
                if c2 >= self.samples_in_stage || v2 == 0 {
                    Envelope {
                        stage: EnvelopeStage::Idle,
                        current_value: 0,
                        stage_counter: c2 as u64,
                        ..self
                    }
                } else {
                    Envelope { current_value: v2, stage_counter: c2 as u64, ..self }
                }
            },
        }
    }

    /// A fresh, idle envelope with the default shape.
    pub fn new(sample_rate: u32) -> (e: Envelope)
        requires
            sample_rate <= MAX_SAMPLE_RATE,
        ensures
            e.wf(),
            e.stage is Idle,
            e.current_value == 0,
            e.sample_rate == sample_rate,
            e.shape == (EnvelopeShape::ADSR {
                attack_ms: 10u32,
                decay_ms: 100u32,
                sustain: DEFAULT_SUSTAIN,
                release_ms: 200u32,
            }),
    {
        Envelope {
            shape: EnvelopeShape::default(),
            stage: EnvelopeStage::Idle,
            current_value: 0,
            target_value: 0,
            rate_mag: 0,
            sample_rate,
            samples_in_stage: 0,
            stage_counter: 0,
        }
    }

    /// Swap in a new shape; takes effect at the next stage transition.
    pub fn set_shape(&mut self, shape: EnvelopeShape)
        requires
            shape_wf(shape),
        ensures
            *final(self) == (Envelope { shape, ..*old(self) }),
    {
        self.shape = shape;
    }

    /// Begin the attack segment from the current level.
    pub fn trigger(&mut self)
        requires
            old(self).wf(),
        ensures
            *final(self) == old(self).triggered_spec(),
            final(self).wf(),
    {
        let attack_ms = match self.shape {
            EnvelopeShape::ADSR { attack_ms, .. } => attack_ms,
            EnvelopeShape::AR { attack_ms, .. } => attack_ms,
            EnvelopeShape::Trapezoid { rise_ms, .. } => rise_ms,
        };
        let len = stage_len(attack_ms, self.sample_rate);
        self.stage = EnvelopeStage::Attack;
        self.target_value = UNIT;
        self.samples_in_stage = len;
        self.rate_mag = if len > 0 {
            (((UNIT - self.current_value) as u64) / len) as u32
        } else {
            UNIT
        };
        self.stage_counter = 0;
    }

    /// Begin the fall toward silence; no effect when already idle or
    /// releasing.
    pub fn release(&mut self)
        requires
            old(self).wf(),
        ensures
            *final(self) == old(self).released_spec(),
            final(self).wf(),
    {
        if !(matches!(self.stage, EnvelopeStage::Idle) || matches!(
            self.stage,
            EnvelopeStage::Release,
        )) {
            let release_ms = match self.shape {
                EnvelopeShape::ADSR { release_ms, .. } => release_ms,
                EnvelopeShape::AR { release_ms, .. } => release_ms,
                EnvelopeShape::Trapezoid { fall_ms, .. } => fall_ms,
            };
            let len = stage_len(release_ms, self.sample_rate);
            self.stage = EnvelopeStage::Release;
            self.target_value = 0;
            self.samples_in_stage = len;
            self.rate_mag = if len > 0 {
                ((self.current_value as u64) / len) as u32
            } else {
                UNIT
            };
            self.stage_counter = 0;
        }
    }

    /// Advance the state machine by one frame.
    pub fn process_sample(&mut self)
        requires
            old(self).wf(),
        ensures
            *final(self) == old(self).step_spec(),
            final(self).wf(),
    {
        match self.stage {
            EnvelopeStage::Idle => {},
            EnvelopeStage::Attack => {
                let v2 = self.current_value + self.rate_mag;
                self.stage_counter = self.stage_counter + 1;
                if self.stage_counter >= self.samples_in_stage || v2 >= UNIT {
                    self.current_value = UNIT;
                    self.advance_after_attack();
                } else {
                    self.current_value = v2;
                }
            },
            EnvelopeStage::Decay => {
                let v2 = if self.current_value >= self.rate_mag {
                    self.current_value - self.rate_mag
                } else {
                    0
                };
                self.current_value = v2;
                self.stage_counter = self.stage_counter + 1;
                if self.stage_counter >= self.samples_in_stage {
                    self.stage = EnvelopeStage::Sustain;
                    if let EnvelopeShape::ADSR { sustain, .. } = self.shape {
                        self.current_value = sustain;
                    }
                }
            },
            EnvelopeStage::Sustain => {},
            EnvelopeStage::Hold => {
                self.stage_counter = self.stage_counter + 1;
                if self.stage_counter >= self.samples_in_stage {
                    let fall_ms = match self.shape {
                        EnvelopeShape::ADSR { release_ms, .. } => release_ms,
                        EnvelopeShape::AR { release_ms, .. } => release_ms,
                        EnvelopeShape::Trapezoid { fall_ms, .. } => fall_ms,
                    };
                    let len = stage_len(fall_ms, self.sample_rate);
                    self.stage = EnvelopeStage::Release;
                    self.target_value = 0;
                    self.samples_in_stage = len;
                    self.rate_mag = if len > 0 {
                        ((self.current_value as u64) / len) as u32
                    } else {
                        UNIT
                    };
                    self.stage_counter = 0;
                }
            },
            EnvelopeStage::Release => {
                let v2 = if self.current_value >= self.rate_mag {
                    self.current_value - self.rate_mag
                } else {
                    0
                };
                self.stage_counter = self.stage_counter + 1;
                if self.stage_counter >= self.samples_in_stage || v2 == 0 {
                    self.current_value = 0;
                    self.stage = EnvelopeStage::Idle;
                } else {
                    self.current_value = v2;
                }
            },
        }
    }

    /// Transition out of an exhausted attack; the level has already
    /// been pinned to full scale.
    fn advance_after_attack(&mut self)
        requires
            shape_wf(old(self).shape),
            old(self).sample_rate <= MAX_SAMPLE_RATE,
            old(self).current_value == UNIT,
            old(self).target_value <= UNIT,
            old(self).rate_mag <= UNIT,
            old(self).samples_in_stage <= MAX_STAGE_SAMPLES,
            old(self).stage_counter <= old(self).samples_in_stage + 1,
        ensures
            *final(self) == old(self).after_attack_spec(),
            final(self).wf(),
    {
        match self.shape {
            EnvelopeShape::ADSR { decay_ms, sustain, .. } => {
                let len = stage_len(decay_ms, self.sample_rate);
                self.stage = EnvelopeStage::Decay;
                self.target_value = sustain;
                self.samples_in_stage = len;
                self.rate_mag = if len > 0 {
                    (((UNIT - sustain) as u64) / len) as u32
                } else {
                    0
                };
                self.stage_counter = 0;
            },
            EnvelopeShape::AR { .. } => {
                self.stage = EnvelopeStage::Sustain;
            },
            EnvelopeShape::Trapezoid { hold_ms, fall_ms, .. } => {
                if hold_ms > 0 {
                    let len = stage_len(hold_ms, self.sample_rate);
                    self.stage = EnvelopeStage::Hold;
                    self.samples_in_stage = len;
                    self.stage_counter = 0;
                } else {
                    let len = stage_len(fall_ms, self.sample_rate);
                    self.stage = EnvelopeStage::Release;
                    self.target_value = 0;
                    self.samples_in_stage = len;
                    self.rate_mag = if len > 0 {
                        ((self.current_value as u64) / len) as u32
                    } else {
                        UNIT
                    };
                    self.stage_counter = 0;
                }
            },
        }
    }

    /// The present output level, in `UNIT` fixed point.
    pub fn get_current_value(&self) -> (v: u32)
        ensures
            v == self.current_value,
    {
        self.current_value
    }

    /// The stage the state machine is in.
    pub fn get_stage(&self) -> (s: EnvelopeStage)
        ensures
            s == self.stage,
    {
        self.stage
    }

    /// An envelope is finished exactly when it is idle.
    pub fn is_finished(&self) -> (b: bool)
        ensures
            b == (self.stage is Idle),
    {
        matches!(self.stage, EnvelopeStage::Idle)
    }
}

/// A stage's frame budget always fits the counter's range.
pub proof fn lemma_stage_len_bound(ms: u32, sample_rate: u32)
    requires
        sample_rate <= MAX_SAMPLE_RATE,
    ensures
        0 <= stage_len_spec(ms, sample_rate) <= MAX_STAGE_SAMPLES,
{
    assert((ms as int) * (sample_rate as int) <= 4294967295000000int) by (nonlinear_arith)
        requires
            ms <= 4294967295u32,
            sample_rate <= 1000000u32,
    ;
    assert((ms as int) * (sample_rate as int) >= 0) by (nonlinear_arith)
        requires
            ms >= 0,
            sample_rate >= 0,
    ;
    let p = (ms as int) * (sample_rate as int);
    vstd::arithmetic::div_mod::lemma_div_is_ordered(p, 4294967295000000int, 1000);
    vstd::arithmetic::div_mod::lemma_div_basics(p);
    vstd::arithmetic::div_mod::lemma_div_is_ordered_by_denominator(p, 1, 1000);
    assert(4294967295000000int / 1000 == 4294967295000int);
}

/// One frame of the state machine keeps an envelope well formed.
pub proof fn lemma_step_wf(e: Envelope)
    requires
        e.wf(),
    ensures
        e.step_spec().wf(),
{
    match e.stage {
        EnvelopeStage::Attack => {
            match e.shape {
                EnvelopeShape::ADSR { decay_ms, sustain, .. } => {
                    lemma_stage_len_bound(decay_ms, e.sample_rate);
                    let len = stage_len_spec(decay_ms, e.sample_rate);
                    if len > 0 {
                        crate::units::lemma_div_tz_le((UNIT as int) - sustain, len);
                    }
                },
                EnvelopeShape::AR { .. } => {},
                EnvelopeShape::Trapezoid { hold_ms, fall_ms, .. } => {
                    lemma_stage_len_bound(hold_ms, e.sample_rate);
                    lemma_stage_len_bound(fall_ms, e.sample_rate);
                    let len = stage_len_spec(fall_ms, e.sample_rate);
                    if len > 0 {
                        crate::units::lemma_div_tz_le(UNIT as int, len);
                    }
                },
            }
        },
        EnvelopeStage::Hold => {
            let fall = e.release_ms_spec();
            lemma_stage_len_bound(fall, e.sample_rate);
            let len = stage_len_spec(fall, e.sample_rate);
            if len > 0 {
                crate::units::lemma_div_tz_le(e.current_value as int, len);
            }
        },
        _ => {},
    }
}

/// How many frames a duration spans at a sample rate, truncated.
fn stage_len(ms: u32, sample_rate: u32) -> (n: u64)
    requires
        sample_rate <= MAX_SAMPLE_RATE,
    ensures
        n == stage_len_spec(ms, sample_rate),
        n <= MAX_STAGE_SAMPLES,
{
    proof {
        assert((ms as int) * (sample_rate as int) <= 4294967295000000int) by (nonlinear_arith)
            requires
                ms <= 4294967295u32,
                sample_rate <= 1000000u32,
        ;
        assert((ms as int) * (sample_rate as int) >= 0) by (nonlinear_arith)
            requires
                ms >= 0,
                sample_rate >= 0,
        ;
    }
    (ms as u64) * (sample_rate as u64) / 1000
}

} // verus!
