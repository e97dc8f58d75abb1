//! One playback slot: cursor, pitch ratio, envelope and an assigned
//! sample slot.
//!
//! A voice renders one note at a time. Its playback position is a
//! `UNIT` fixed-point frame index into the assigned sample; every
//! output frame reads the sample with linear interpolation, scales by
//! velocity and envelope, adds into the output, then advances the
//! position by the pitch ratio and steps the envelope.

use vstd::prelude::*;
use crate::envelope::Envelope;
use crate::envelope::EnvelopeShape;
use crate::envelope::MAX_SAMPLE_RATE;
use crate::envelope::shape_wf;
use crate::sample::Sample;
use crate::units::AMP_LIMIT;
use crate::units::PITCH_RATIO_LIMIT;
use crate::units::UNIT;
use crate::units::div_trunc;
use crate::units::div_tz;
use crate::units::lemma_div_tz_magnitude;
use crate::units::lemma_scaled_bound;
use crate::units::pitch_ratio_for;
use crate::units::pitch_shift;
use crate::units::scale_amp;
use crate::units::scaled;

verus! {

/// The lifecycle of a playback slot.
#[derive(Clone, Copy, Debug, PartialEq, Eq, Structural)]
pub enum VoiceState {
    Idle,
    Active,
    Releasing,
}

/// Highest playback position a voice can reach: the end of the longest
/// sample, in fixed-point frames.
pub const POSITION_LIMIT: u64 = 4503599627370496;

/// One polyphony slot. Created once per pool entry and reused for the
/// engine's lifetime, cycling idle, active, releasing and back.
pub struct Voice {
    pub state: VoiceState,
    pub sample_slot: Option<usize>,
    pub position: u64,
    pub pitch_ratio: u64,
    pub envelope: Envelope,
    pub sample_rate: u32,
    pub note: Option<u8>,
    pub velocity: u32,
}

/// The root note a sample declares, or middle C when it declares none.
pub open spec fn root_note_spec(s: Sample) -> u8 {
    match s.root_note {
        Some(r) => r,
        None => 60,
    }
}

/// Linear interpolation of the sample's channel `ch` at the fixed-point
/// frame `position`: a blend of the frame at the cursor and the next
/// one, weighted by the fractional part; zero past the buffer, with the
/// final frame reused when the next one would run off the end.
pub open spec fn interp_spec(s: Sample, position: u64, ch: int) -> int {
    let u = UNIT as int;
    let c = s.channels as int;
    let len = s.data@.len() as int;
    let pf = position as int / u;
    let frac = position as int % u;
    let idx = pf * c + ch;
    if idx < len {
        let nidx0 = (pf + 1) * c + ch;
        let nidx = if nidx0 < len {
            nidx0
        } else {
            len - 1
        };
        div_tz(s.data@[idx] * (u - frac) + s.data@[nidx] * frac, u)
    } else {
        0
    }
}

/// What one frame of this voice adds to one output channel: the
/// interpolated sample scaled by velocity, then by the envelope level.
pub open spec fn contrib_spec(v: Voice, s: Sample, ch: int) -> int {
    scaled(scaled(interp_spec(s, v.position, ch), v.velocity as int), v.envelope.current_value as int)
}

/// The output buffer after frame `f` of the voice has been added into
/// its chunk; other elements are untouched.
pub open spec fn add_frame_spec(out: Seq<i64>, v: Voice, s: Sample, f: int) -> Seq<i64> {
    let c = s.channels as int;
    Seq::new(
        out.len(),
        |j: int|
            if f * c <= j < (f + 1) * c {
                (out[j] + contrib_spec(v, s, j - f * c)) as i64
            } else {
                out[j]
            },
    )
}

/// How many frames an interleaved buffer of `len` values holds at `c`
/// channels, counting a trailing partial frame.
pub open spec fn nframes_spec(len: int, c: int) -> int {
    if len % c == 0 {
        len / c
    } else {
        len / c + 1
    }
}

/// The sample's length in fixed-point frame units.
pub open spec fn end_position_spec(s: Sample) -> int {
    s.frames_spec() * (UNIT as int)
}

/// The frame-by-frame rendering of a voice into an output buffer, from
/// frame `f` up to `nframes`. Reaching the end of the sample idles the
/// voice and leaves the remaining frames untouched; a finished envelope
/// idles the voice but play continues silently to the block's end.
pub open spec fn voice_render_spec(v: Voice, s: Sample, out: Seq<i64>, f: int, nframes: int) -> (
    Voice,
    Seq<i64>,
)
    decreases nframes - f,
{
    if f >= nframes {
        (v, out)
    } else if v.position as int >= end_position_spec(s) {
        (Voice { state: VoiceState::Idle, ..v }, out)
    } else {
        let out2 = add_frame_spec(out, v, s, f);
        let env2 = v.envelope.step_spec();
        let st2 = if env2.stage is Idle {
            VoiceState::Idle
        } else {
            v.state
        };
        let v2 = Voice {
            position: (v.position + v.pitch_ratio) as u64,
            envelope: env2,
            state: st2,
            ..v
        };
        voice_render_spec(v2, s, out2, f + 1, nframes)
    }
}

/// What `process_block` does: nothing without an assigned slot,
/// otherwise the full frame-by-frame rendering of the block.
pub open spec fn voice_processed_spec(v: Voice, s: Sample, out: Seq<i64>) -> (Voice, Seq<i64>) {
    if v.sample_slot is None {
        (v, out)
    } else {
        voice_render_spec(v, s, out, 0, nframes_spec(out.len() as int, s.channels as int))
    }
}

/// One frame's contribution is at most one full-scale step.
proof fn lemma_contrib_bound(v: Voice, s: Sample, ch: int)
    requires
        s.wf(),
        v.velocity <= UNIT,
        v.envelope.current_value <= UNIT,
        ch >= 0,
    ensures
        -(UNIT as int) <= contrib_spec(v, s, ch) <= UNIT as int,
{
    let u = UNIT as int;
    let c = s.channels as int;
    let len = s.data@.len() as int;
    vstd::arithmetic::div_mod::lemma_div_pos_is_pos(v.position as int, u);
    let pf = v.position as int / u;
    let frac = v.position as int % u;
    let idx = pf * c + ch;
    assert(pf * c >= 0 && (pf + 1) * c >= 0) by (nonlinear_arith)
        requires
            pf >= 0,
            c >= 0,
    ;
    if idx < len {
        let nidx0 = (pf + 1) * c + ch;
        let nidx = if nidx0 < len {
            nidx0
        } else {
            len - 1
        };
        let s0 = s.data@[idx];
        let s1 = s.data@[nidx];
        assert(0 <= frac < u);
        assert(-(u * u) <= s0 * (u - frac) + s1 * frac <= u * u) by (nonlinear_arith)
            requires
                -u <= s0 <= u,
                -u <= s1 <= u,
                0 <= frac < u,
                u > 0,
        ;
        lemma_div_tz_magnitude(s0 * (u - frac) + s1 * frac, u, u);
        let i0 = interp_spec(s, v.position, ch);
        assert(-u <= i0 <= u);
        lemma_scaled_bound(i0, v.velocity as int);
        lemma_scaled_bound(scaled(i0, v.velocity as int), v.envelope.current_value as int);
    } else {
        lemma_scaled_bound(0, v.velocity as int);
        lemma_scaled_bound(scaled(0, v.velocity as int), v.envelope.current_value as int);
    }
}

/// Rendering touches each output element at most once, never moving it
/// by more than one full-scale step, and elements before frame `f`
/// never at all.
proof fn lemma_render_bounds(v: Voice, s: Sample, out: Seq<i64>, f: int, nframes: int)
    requires
        s.wf(),
        v.velocity <= UNIT,
        v.envelope.wf(),
        f >= 0,
        forall|j: int|
            f * (s.channels as int) <= j < out.len() ==> -((AMP_LIMIT as int) - (UNIT as int))
                <= #[trigger] out[j] <= (AMP_LIMIT as int) - (UNIT as int),
    ensures
        voice_render_spec(v, s, out, f, nframes).1.len() == out.len(),
        forall|j: int|
            0 <= j < out.len() && j < f * (s.channels as int)
                ==> #[trigger] voice_render_spec(v, s, out, f, nframes).1[j] == out[j],
        forall|j: int|
            0 <= j < out.len() ==> out[j] - (UNIT as int)
                <= #[trigger] voice_render_spec(v, s, out, f, nframes).1[j] <= out[j] + (
            UNIT as int),
    decreases nframes - f,
{
    let c = s.channels as int;
    if f >= nframes {
    } else if v.position as int >= end_position_spec(s) {
    } else {
        let out2 = add_frame_spec(out, v, s, f);
        let env2 = v.envelope.step_spec();
        let st2 = if env2.stage is Idle {
            VoiceState::Idle
        } else {
            v.state
        };
        let v2 = Voice {
            position: (v.position + v.pitch_ratio) as u64,
            envelope: env2,
            state: st2,
            ..v
        };
        assert((f + 1) * c == f * c + c) by (nonlinear_arith);
        assert forall|j: int| 0 <= j < out.len() implies out[j] - (UNIT as int) <= #[trigger] out2[j]
            <= out[j] + (UNIT as int) by {
            if f * c <= j < (f + 1) * c {
                lemma_contrib_bound(v, s, j - f * c);
            }
        }
        crate::envelope::lemma_step_wf(v.envelope);
        assert forall|j: int|
            (f + 1) * c <= j < out2.len() implies -((AMP_LIMIT as int) - (UNIT as int))
            <= #[trigger] out2[j] <= (AMP_LIMIT as int) - (UNIT as int) by {
            assert(out2[j] == out[j]);
        }
        lemma_render_bounds(v2, s, out2, f + 1, nframes);
        let res = voice_render_spec(v2, s, out2, f + 1, nframes);
        assert forall|j: int| 0 <= j < out.len() && j < f * c implies #[trigger] res.1[j] == out[j] by {
            assert((f + 1) * c == f * c + c) by (nonlinear_arith);
            assert(out2[j] == out[j]);
        }
        assert forall|j: int| 0 <= j < out.len() implies out[j] - (UNIT as int) <= #[trigger] res.1[j]
            <= out[j] + (UNIT as int) by {
            if f * c <= j < (f + 1) * c {
                assert(res.1[j] == out2[j]);
                lemma_contrib_bound(v, s, j - f * c);
            } else {
                assert(out2[j] == out[j]);
            }
        }
    }
}

/// While a block renders, the playback cursor never moves backwards.
proof fn lemma_render_position_monotone(v: Voice, s: Sample, out: Seq<i64>, f: int, nframes: int)
    requires
        v.wf(),
        s.wf(),
    ensures
        voice_render_spec(v, s, out, f, nframes).0.position >= v.position,
    decreases nframes - f,
{
    if f >= nframes {
    } else if v.position as int >= end_position_spec(s) {
    } else {
        let out2 = add_frame_spec(out, v, s, f);
        let env2 = v.envelope.step_spec();
        let st2 = if env2.stage is Idle {
            VoiceState::Idle
        } else {
            v.state
        };
        let v2 = Voice {
            position: (v.position + v.pitch_ratio) as u64,
            envelope: env2,
            state: st2,
            ..v
        };
        assert(s.frames_spec() <= s.data@.len()) by {
            vstd::arithmetic::div_mod::lemma_div_is_ordered_by_denominator(
                s.data@.len() as int,
                1,
                s.channels as int,
            );
            vstd::arithmetic::div_mod::lemma_div_basics(s.data@.len() as int);
        }
        crate::envelope::lemma_step_wf(v.envelope);
        lemma_render_position_monotone(v2, s, out2, f + 1, nframes);
    }
}

/// A voice's playback position is monotonically non-decreasing across a
/// rendered block; only a fresh trigger rewinds it to the start.
pub proof fn lemma_block_position_monotone(v: Voice, s: Sample, out: Seq<i64>)
    requires
        v.wf(),
        s.wf(),
    ensures
        voice_processed_spec(v, s, out).0.position >= v.position,
{
    if !(v.sample_slot is None) {
        lemma_render_position_monotone(
            v,
            s,
            out,
            0,
            nframes_spec(out.len() as int, s.channels as int),
        );
    }
}

impl Voice {
    /// Internal consistency: a scale-bounded velocity, a bounded pitch
    /// ratio and position, a well-formed envelope, a seven-bit note.
    pub open spec fn wf(self) -> bool {
        &&& self.envelope.wf()
        &&& self.velocity <= UNIT
        &&& self.pitch_ratio <= PITCH_RATIO_LIMIT
        &&& self.sample_rate <= MAX_SAMPLE_RATE
        &&& self.position <= POSITION_LIMIT + PITCH_RATIO_LIMIT
        &&& (self.note matches Some(n) ==> n < 128)
    }

    /// A fresh idle voice at unity pitch and full velocity.
    pub fn new(sample_rate: u32) -> (v: Voice)
        requires
            sample_rate <= MAX_SAMPLE_RATE,
        ensures
            v.wf(),
            v.state is Idle,
            v.sample_slot is None,
            v.position == 0,
            v.pitch_ratio == UNIT as u64,
            v.note is None,
            v.velocity == UNIT,
            v.sample_rate == sample_rate,
            v.envelope.stage is Idle,
            v.envelope.current_value == 0,
            v.envelope.sample_rate == sample_rate,
    {
        Voice {
            state: VoiceState::Idle,
            sample_slot: None,
            position: 0,
            pitch_ratio: UNIT as u64,
            envelope: Envelope::new(sample_rate),
            sample_rate,
            note: None,
            velocity: UNIT,
        }
    }

    /// Hand the owned envelope a new shape.
    pub fn set_envelope_shape(&mut self, shape: EnvelopeShape)
        requires
            shape_wf(shape),
        ensures
            *final(self) == (Voice {
                envelope: Envelope { shape, ..old(self).envelope },
                ..*old(self)
            }),
    {
        self.envelope.set_shape(shape);
    }

    /// Start playing `sample` (stored at `slot`) at `note`: the cursor
    /// rewinds, the pitch ratio is set from the note's distance to the
    /// sample's root, the envelope restarts its attack.
    pub fn trigger(&mut self, note: u8, velocity: u32, slot: usize, sample: &Sample)
        requires
            old(self).wf(),
            sample.wf(),
            note < 128,
            velocity <= UNIT,
        ensures
            *final(self) == (Voice {
                state: VoiceState::Active,
                sample_slot: Some(slot),
                position: 0,
                pitch_ratio: pitch_shift(note, root_note_spec(*sample)),
                envelope: old(self).envelope.triggered_spec(),
                note: Some(note),
                velocity,
                ..*old(self)
            }),
            final(self).wf(),
    {
        self.note = Some(note);
        self.velocity = velocity;
        self.sample_slot = Some(slot);
        self.position = 0;
        self.state = VoiceState::Active;
        let root = match sample.root_note {
            Some(r) => r,
            None => 60,
        };
        self.pitch_ratio = pitch_ratio_for(note, root);
        self.envelope.trigger();
    }

    /// Move an active voice into its release phase; anything else is
    /// left alone.
    pub fn release(&mut self)
        requires
            old(self).wf(),
        ensures
            *final(self) == if old(self).state is Active {
                Voice {
                    state: VoiceState::Releasing,
                    envelope: old(self).envelope.released_spec(),
                    ..*old(self)
                }
            } else {
                *old(self)
            },
            final(self).wf(),
    {
        if matches!(self.state, VoiceState::Active) {
            self.state = VoiceState::Releasing;
            self.envelope.release();
        }
    }

    /// A voice is active while it is playing or releasing.
    pub fn is_active(&self) -> (b: bool)
        ensures
            b == !(self.state is Idle),
    {
        !matches!(self.state, VoiceState::Idle)
    }

    /// The note held while active or releasing.
    pub fn get_note(&self) -> (n: Option<u8>)
        ensures
            n == self.note,
    {
        self.note
    }

    /// Render one block additively into `output`, reading the sample
    /// the voice was triggered with. The buffer must be pre-zeroed (or
    /// pre-accumulated) by the caller; every element moves by at most
    /// one full-scale step.
    pub fn process_block(&mut self, sample: &Sample, output: &mut Vec<i64>)
        requires
            old(self).wf(),
            sample.wf(),
            forall|j: int|
                0 <= j < old(output)@.len() ==> -((AMP_LIMIT as int) - (UNIT as int))
                    <= #[trigger] old(output)@[j] <= (AMP_LIMIT as int) - (UNIT as int),
        ensures
            (*final(self), final(output)@) == voice_processed_spec(
                *old(self),
                *sample,
                old(output)@,
            ),
            final(self).wf(),
            final(self).sample_rate == old(self).sample_rate,
            final(self).note == old(self).note,
            final(self).velocity == old(self).velocity,
            final(self).sample_slot == old(self).sample_slot,
            final(self).pitch_ratio == old(self).pitch_ratio,
            final(output)@.len() == old(output)@.len(),
            forall|j: int|
                0 <= j < old(output)@.len() ==> old(output)@[j] - (UNIT as int)
                    <= #[trigger] final(output)@[j] <= old(output)@[j] + (UNIT as int),
    {
        proof {
            if old(self).sample_slot is Some {
                lemma_render_bounds(
                    *old(self),
                    *sample,
                    old(output)@,
                    0,
                    nframes_spec(old(output)@.len() as int, sample.channels as int),
                );
            }
        }
        if self.sample_slot.is_none() {
            return ;
        }
        let c = sample.channels;
        let len = sample.data.len();
        let frames = len / c;
        proof {
            assert(frames <= len) by {
                vstd::arithmetic::div_mod::lemma_div_is_ordered_by_denominator(
                    len as int,
                    1,
                    c as int,
                );
                vstd::arithmetic::div_mod::lemma_div_basics(len as int);
            }
        }
        let frames_fp: u64 = (frames as u64) * (UNIT as u64);
        let out_len = output.len();
        let nframes = if out_len % c == 0 {
            out_len / c
        } else {
            proof {
                vstd::arithmetic::div_mod::lemma_div_is_ordered_by_denominator(
                    out_len as int,
                    2,
                    c as int,
                );
            }
            out_len / c + 1
        };
        let ghost snap0 = old(output)@;
        let mut f: usize = 0;
        let mut stopped = false;
        while f < nframes && !stopped
            invariant
                self.wf(),
                self.sample_rate == old(self).sample_rate,
                self.note == old(self).note,
                self.velocity == old(self).velocity,
                self.sample_slot == old(self).sample_slot,
                self.pitch_ratio == old(self).pitch_ratio,
                sample.wf(),
                c == sample.channels,
                len == sample.data@.len(),
                frames == len as int / c as int,
                frames <= len,
                frames_fp == frames * (UNIT as int),
                frames_fp == end_position_spec(*sample),
                out_len == output@.len(),
                out_len == snap0.len(),
                nframes == nframes_spec(out_len as int, c as int),
                f <= nframes,
                forall|j: int|
                    0 <= j < out_len ==> -((AMP_LIMIT as int) - (UNIT as int))
                        <= #[trigger] snap0[j] <= (AMP_LIMIT as int) - (UNIT as int),
                forall|j: int| f * c <= j < out_len ==> #[trigger] output@[j] == snap0[j],
                if stopped {
                    voice_render_spec(*old(self), *sample, snap0, 0, nframes as int) == (
                    *self,
                    output@,
                    )
                } else {
                    voice_render_spec(*old(self), *sample, snap0, 0, nframes as int)
                        == voice_render_spec(*self, *sample, output@, f as int, nframes as int)
                },
            decreases nframes - f + (if stopped {
                0int
            } else {
                1int
            }),
        {
            if self.position >= frames_fp {
                self.state = VoiceState::Idle;
                stopped = true;
            } else {
                let ghost vpre = *self;
                let ghost opre = output@;
                proof {
                    lemma_chunk_start(out_len as int, c as int, f as int);
                    assert((f + 1) * c == f * c + c) by (nonlinear_arith);
                }
                let base = f * c;
                let width = if c < out_len - base {
                    c
                } else {
                    out_len - base
                };
                let mut ch: usize = 0;
                while ch < width
                    invariant
                        *self == vpre,
                        vpre.wf(),
                        sample.wf(),
                        c == sample.channels,
                        len == sample.data@.len(),
                        frames == len as int / c as int,
                        frames <= len,
                        frames_fp == frames * (UNIT as int),
                        vpre.position < frames_fp,
                        out_len == output@.len(),
                        out_len == snap0.len(),
                        base == f * c,
                        base < out_len,
                        width == if c < out_len - base {
                            c as int
                        } else {
                            out_len - base
                        },
                        ch <= width,
                        forall|j: int|
                            0 <= j < out_len && !(base <= j < base + ch) ==> #[trigger] output@[j]
                                == opre[j],
                        forall|j: int|
                            base <= j < base + ch ==> #[trigger] output@[j] == opre[j]
                                + contrib_spec(vpre, *sample, j - base),
                        forall|j: int|
                            0 <= j < out_len ==> -((AMP_LIMIT as int) - (UNIT as int))
                                <= #[trigger] snap0[j] <= (AMP_LIMIT as int) - (UNIT as int),
                        forall|j: int| base <= j < out_len ==> #[trigger] opre[j] == snap0[j],
                    decreases width - ch,
                {
                    proof {
                        assert(self.position as int / (UNIT as int) < frames as int) by {
                            vstd::arithmetic::div_mod::lemma_multiply_divide_lt(
                                self.position as int,
                                UNIT as int,
                                frames as int,
                            );
                        }
                    }
                    let pf = (self.position / (UNIT as u64)) as usize;
                    proof {
                        vstd::arithmetic::div_mod::lemma_fundamental_div_mod(len as int, c as int);
                        assert(pf * c + c <= frames * c && frames * c <= len) by (nonlinear_arith)
                            requires
                                pf < frames,
                                c >= 1,
                                len as int == (len as int / c as int) * (c as int) + (
                                len as int % c as int),
                                frames == len as int / c as int,
                                len as int % c as int >= 0,
                        ;
                        assert((pf + 1) * c == pf * c + c) by (nonlinear_arith);
                        assert(pf * c <= len);
                        assert(ch < c);
                        assert(pf * c + ch < len);
                    }
                    let frac: u64 = self.position % (UNIT as u64);
                    let idx = pf * c + ch;
                    let delta: i64 = if idx < len {
                        let nidx = if c < len - idx {
                            idx + c
                        } else {
                            len - 1
                        };
                        proof {
                            assert((pf + 1) * c + ch == idx + c);
                        }
                        let s0 = sample.data[idx];
                        let s1 = sample.data[nidx];
                        let u_i64: i64 = UNIT as i64;
                        proof {
                            let u = UNIT as int;
                            assert(-(u * u) <= s0 * (u - frac) && s0 * (u - frac) <= u * u
                                && -(u * u) <= s1 * (frac as int) && s1 * (frac as int) <= u * u
                                && -(u * u) <= s0 * (u - frac) + s1 * (frac as int)
                                && s0 * (u - frac) + s1 * (frac as int) <= u * u)
                                by (nonlinear_arith)
                                requires
                                    -u <= s0 <= u,
                                    -u <= s1 <= u,
                                    0 <= frac < u,
                                    u > 0,
                            ;
                            lemma_div_tz_magnitude(
                                s0 * (u - frac) + s1 * (frac as int),
                                u,
                                u,
                            );
                        }
                        let num: i64 = s0 * (u_i64 - frac as i64) + s1 * (frac as i64);
                        let interp = div_trunc(num, UNIT as u64);
                        scale_amp(
                            scale_amp(interp, self.velocity),
                            self.envelope.get_current_value(),
                        )
                    } else {
                        0
                    };
                    proof {
                        lemma_contrib_bound(vpre, *sample, ch as int);
                        assert(delta == contrib_spec(vpre, *sample, ch as int));
                    }
                    let i = base + ch;
                    let cur = output[i];
                    output.set(i, cur + delta);
                    ch = ch + 1;
                }
                proof {
                    let af = add_frame_spec(opre, vpre, *sample, f as int);
                    assert forall|j: int| 0 <= j < out_len implies #[trigger] output@[j] == af[j] by {
                        if base <= j < base + width {
                            lemma_contrib_bound(vpre, *sample, j - base);
                        }
                    }
                    assert(output@ =~= af);
                }
                self.position = self.position + self.pitch_ratio;
                self.envelope.process_sample();
                if self.envelope.is_finished() {
                    self.state = VoiceState::Idle;
                }
                f = f + 1;
            }
        }
    }
}

/// A block of `len` interleaved values at `c` channels starts its
/// frame `f` strictly inside the buffer.
proof fn lemma_chunk_start(len: int, c: int, f: int)
    requires
        c >= 1,
        0 <= f,
        f < nframes_spec(len, c),
    ensures
        f * c < len,
{
    vstd::arithmetic::div_mod::lemma_fundamental_div_mod(len, c);
    assert(f * c <= (nframes_spec(len, c) - 1) * c) by (nonlinear_arith)
        requires
            f <= nframes_spec(len, c) - 1,
            c >= 1,
    ;
    assert((nframes_spec(len, c) - 1) * c < len) by (nonlinear_arith)
        requires
            c >= 1,
            len == (len / c) * c + len % c,
            0 <= len % c < c,
            nframes_spec(len, c) == if len % c == 0 {
                len / c
            } else {
                len / c + 1
            },
            len / c >= 0,
    ;
}

} // verus!
