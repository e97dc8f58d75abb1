//! Combining rendered voices into the output block.
//!
//! The mixer owns the mix mode and a master volume. Plain modes add the
//! bus into the output under the master volume; the stacking mode
//! bounds each value with a waveshaper first; the blur mode smears the
//! bus through a circular feedback buffer.

use vstd::prelude::*;
use crate::units::AMP_LIMIT;
use crate::units::UNIT;
use crate::units::div_trunc;
use crate::units::div_tz;
use crate::units::lemma_div_tz_magnitude;
use crate::units::scale_amp;
use crate::units::scaled;
use crate::units::soft_clip;
use crate::units::soft_clip_spec;

verus! {

/// The selectable ways of folding the voice bus into the output.
#[derive(Clone, Copy, Debug, PartialEq, Eq, Structural)]
pub enum MixMode {
    /// Plain summing under the master volume.
    Poly,
    /// Circular-buffer smearing over roughly this many milliseconds.
    Blur { crossfade_ms: u32 },
    /// Soft clipping before the master volume: output is bounded to the
    /// open full-scale interval whatever the input amplitude.
    Stack,
    /// Pass-through identical to `Poly`; rotation policy lives in voice
    /// allocation, not here.
    Rotate,
}

/// Default master volume: eight tenths of full scale.
pub const DEFAULT_MASTER_VOLUME: u32 = UNIT * 8 / 10;

/// Widest blur window accepted, in milliseconds; wider requests are
/// clamped rather than refused so the render path never fails.
pub const MAX_BLUR_MS: u32 = 10000;

/// The blur buffer's length for a crossfade request, at the fixed
/// 48 frames per millisecond the blur uses.
pub open spec fn blur_len_spec(crossfade_ms: u32) -> int {
    (if crossfade_ms > MAX_BLUR_MS {
        MAX_BLUR_MS as int
    } else {
        crossfade_ms as int
    }) * 48
}

/// The blur blend: seven tenths incoming, three tenths buffered.
pub open spec fn blend_spec(buffered: int, incoming: int) -> int {
    div_tz(3 * buffered + 7 * incoming, 10)
}

/// Plain mixing: each output value gains the input scaled by the
/// master volume.
pub open spec fn poly_mix_spec(inp: Seq<i64>, out: Seq<i64>, vol: int) -> Seq<i64> {
    Seq::new(out.len(), |i: int| (out[i] + scaled(inp[i] as int, vol)) as i64)
}

/// Stacked mixing: inputs pass the waveshaper before the master volume.
pub open spec fn stack_mix_spec(inp: Seq<i64>, out: Seq<i64>, vol: int) -> Seq<i64> {
    Seq::new(out.len(), |i: int| (out[i] + scaled(soft_clip_spec(inp[i] as int), vol)) as i64)
}

/// Blur mixing from input index `i` on: each input value is blended
/// with the circular buffer at the wrapped cursor, the blend is written
/// back, and the blend (under the master volume) joins the output.
/// Returns the final buffer and output.
pub open spec fn blur_mix_spec(
    buf: Seq<i64>,
    pos: int,
    inp: Seq<i64>,
    out: Seq<i64>,
    vol: int,
    i: int,
) -> (Seq<i64>, Seq<i64>)
    recommends
        buf.len() > 0,
        inp.len() == out.len(),
        0 <= i,
    decreases inp.len() - i,
{
    if i >= inp.len() || buf.len() == 0 {
        (buf, out)
    } else {
        let idx = (pos + i) % (buf.len() as int);
        let blended = blend_spec(buf[idx] as int, inp[i] as int);
        blur_mix_spec(
            buf.update(idx, blended as i64),
            pos,
            inp,
            out.update(i, (out[i] + scaled(blended, vol)) as i64),
            vol,
            i + 1,
        )
    }
}

/// The stacking mode's guarantee: mixed into a silent output value,
/// the result stays strictly inside the full-scale interval, however
/// hot the incoming bus is.
pub proof fn lemma_stack_mix_bounded(inp: Seq<i64>, out: Seq<i64>, vol: u32, i: int)
    requires
        vol <= UNIT,
        0 <= i < inp.len(),
        i < out.len(),
        out[i] == 0,
    ensures
        -(UNIT as int) < stack_mix_spec(inp, out, vol as int)[i] < UNIT as int,
{
    crate::units::lemma_soft_clip_bounded(inp[i] as int);
    crate::units::lemma_scaled_bound(soft_clip_spec(inp[i] as int), vol as int);
}

/// Combines the rendered voice bus into the output block.
pub struct Mixer {
    pub mode: MixMode,
    pub master_volume: u32,
    pub blur_buffer: Vec<i64>,
    pub blur_position: usize,
}

impl Mixer {
    /// Internal consistency: a scale-bounded volume and a bus-bounded
    /// blur buffer.
    pub open spec fn wf(self) -> bool {
        &&& self.master_volume <= UNIT
        &&& forall|i: int|
            0 <= i < self.blur_buffer@.len() ==> -AMP_LIMIT <= #[trigger] self.blur_buffer@[i]
                <= AMP_LIMIT
    }

    /// A plain mixer at the default volume, with a blur buffer held
    /// ready.
    pub fn new() -> (m: Mixer)
        ensures
            m.wf(),
            m.mode is Poly,
            m.master_volume == DEFAULT_MASTER_VOLUME,
            m.blur_buffer@.len() == 4096,
            forall|i: int| 0 <= i < 4096 ==> #[trigger] m.blur_buffer@[i] == 0,
            m.blur_position == 0,
    {
        Mixer {
            mode: MixMode::Poly,
            master_volume: DEFAULT_MASTER_VOLUME,
            blur_buffer: zeroed(4096),
            blur_position: 0,
        }
    }

    /// Select a mix mode. A blur request resizes the circular buffer to
    /// its window, keeping what fits and zero-filling the rest — the
    /// resize is deliberately lossy.
    pub fn set_mode(&mut self, mode: MixMode)
        requires
            old(self).wf(),
        ensures
            final(self).wf(),
            final(self).mode == mode,
            final(self).master_volume == old(self).master_volume,
            final(self).blur_position == old(self).blur_position,
            match mode {
                MixMode::Blur { crossfade_ms } => {
                    &&& final(self).blur_buffer@.len() == blur_len_spec(crossfade_ms)
                    &&& forall|i: int|
                        0 <= i < final(self).blur_buffer@.len() && i < old(self).blur_buffer@.len()
                            ==> #[trigger] final(self).blur_buffer@[i] == old(self).blur_buffer@[i]
                    &&& forall|i: int|
                        old(self).blur_buffer@.len() <= i < final(self).blur_buffer@.len()
                            ==> #[trigger] final(self).blur_buffer@[i] == 0
                },
                _ => final(self).blur_buffer == old(self).blur_buffer,
            },
    {
        self.mode = mode;
        if let MixMode::Blur { crossfade_ms } = mode {
            let ms = if crossfade_ms > MAX_BLUR_MS {
                MAX_BLUR_MS
            } else {
                crossfade_ms
            };
            let target = (ms as usize) * 48;
            if target <= self.blur_buffer.len() {
                self.blur_buffer.truncate(target);
                proof {
                    assert forall|i: int| 0 <= i < self.blur_buffer@.len() implies -AMP_LIMIT
                        <= #[trigger] self.blur_buffer@[i] <= AMP_LIMIT by {
                        assert(self.blur_buffer@[i] == old(self).blur_buffer@.subrange(
                            0,
                            target as int,
                        )[i]);
                    }
                }
            } else {
                let ghost orig = self.blur_buffer@;
                while self.blur_buffer.len() < target
                    invariant
                        orig.len() <= self.blur_buffer@.len() <= target,
                        self.blur_buffer@.subrange(0, orig.len() as int) == orig,
                        self.mode == mode,
                        self.master_volume == old(self).master_volume,
                        self.blur_position == old(self).blur_position,
                        self.master_volume <= UNIT,
                        forall|i: int|
                            0 <= i < orig.len() ==> -AMP_LIMIT <= #[trigger] orig[i] <= AMP_LIMIT,
                        forall|i: int|
                            orig.len() <= i < self.blur_buffer@.len()
                                ==> #[trigger] self.blur_buffer@[i] == 0,
                    decreases target - self.blur_buffer@.len(),
                {
                    self.blur_buffer.push(0);
                    proof {
                        assert(self.blur_buffer@.subrange(0, orig.len() as int) =~= orig);
                    }
                }
                proof {
                    assert forall|i: int| 0 <= i < self.blur_buffer@.len() implies -AMP_LIMIT
                        <= #[trigger] self.blur_buffer@[i] <= AMP_LIMIT by {
                        if i < orig.len() {
                            assert(self.blur_buffer@[i] == self.blur_buffer@.subrange(
                                0,
                                orig.len() as int,
                            )[i]);
                        }
                    }
                }
            }
        }
    }

    /// Clamp and store the master volume.
    pub fn set_master_volume(&mut self, volume: u32)
        requires
            old(self).wf(),
        ensures
            final(self).wf(),
            *final(self) == (Mixer {
                master_volume: if volume <= UNIT {
                    volume
                } else {
                    UNIT
                },
                ..*old(self)
            }),
    {
        self.master_volume = if volume <= UNIT {
            volume
        } else {
            UNIT
        };
    }

    /// Fold the rendered bus into the output block under the active
    /// mode. Plain and rotate modes add scaled input; stack bounds each
    /// value first; blur smears through the circular buffer (or, with
    /// an empty buffer, degrades to plain adding rather than failing).
    #[verifier::rlimit(60)]
    pub fn mix(&mut self, input: &Vec<i64>, output: &mut Vec<i64>)
        requires
            old(self).wf(),
            input@.len() == old(output)@.len(),
            forall|i: int|
                0 <= i < input@.len() ==> -AMP_LIMIT <= #[trigger] input@[i] <= AMP_LIMIT,
            forall|i: int|
                0 <= i < old(output)@.len() ==> -AMP_LIMIT <= #[trigger] old(output)@[i]
                    <= AMP_LIMIT,
        ensures
            final(self).wf(),
            final(self).mode == old(self).mode,
            final(self).master_volume == old(self).master_volume,
            final(output)@.len() == old(output)@.len(),
            match old(self).mode {
                MixMode::Poly | MixMode::Rotate => {
                    &&& final(output)@ == poly_mix_spec(
                        input@,
                        old(output)@,
                        old(self).master_volume as int,
                    )
                    &&& *final(self) == *old(self)
                },
                MixMode::Stack => {
                    &&& final(output)@ == stack_mix_spec(
                        input@,
                        old(output)@,
                        old(self).master_volume as int,
                    )
                    &&& *final(self) == *old(self)
                },
                MixMode::Blur { .. } => if old(self).blur_buffer@.len() > 0 {
                    let folded = blur_mix_spec(
                        old(self).blur_buffer@,
                        old(self).blur_position as int,
                        input@,
                        old(output)@,
                        old(self).master_volume as int,
                        0,
                    );
                    &&& final(self).blur_buffer@ == folded.0
                    &&& final(output)@ == folded.1
                    &&& final(self).blur_position == (old(self).blur_position + input@.len()) % (
                    old(self).blur_buffer@.len() as int)
                } else {
                    &&& final(output)@ == poly_mix_spec(
                        input@,
                        old(output)@,
                        old(self).master_volume as int,
                    )
                    &&& *final(self) == *old(self)
                },
            },
    {
        let n = input.len();
        let vol = self.master_volume;
        let ghost osnap = old(output)@;
        match self.mode {
            MixMode::Poly | MixMode::Rotate => {
                let mut i: usize = 0;
                while i < n
                    invariant
                        n == input@.len(),
                        n == output@.len(),
                        n == osnap.len(),
                        i <= n,
                        vol <= UNIT,
                        forall|j: int|
                            0 <= j < n ==> -AMP_LIMIT <= #[trigger] input@[j] <= AMP_LIMIT,
                        forall|j: int| i <= j < n ==> #[trigger] output@[j] == osnap[j],
                        forall|j: int|
                            0 <= j < n ==> -AMP_LIMIT <= #[trigger] osnap[j] <= AMP_LIMIT,
                        forall|j: int|
                            0 <= j < i ==> #[trigger] output@[j] == (osnap[j] + scaled(
                                input@[j] as int,
                                vol as int,
                            )) as i64,
                    decreases n - i,
                {
                    let cur = output[i];
                    output.set(i, cur + scale_amp(input[i], vol));
                    i = i + 1;
                }
                proof {
                    assert(output@ =~= poly_mix_spec(input@, osnap, vol as int));
                }
            },
            MixMode::Stack => {
                let mut i: usize = 0;
                while i < n
                    invariant
                        n == input@.len(),
                        n == output@.len(),
                        n == osnap.len(),
                        i <= n,
                        vol <= UNIT,
                        forall|j: int|
                            0 <= j < n ==> -AMP_LIMIT <= #[trigger] input@[j] <= AMP_LIMIT,
                        forall|j: int| i <= j < n ==> #[trigger] output@[j] == osnap[j],
                        forall|j: int|
                            0 <= j < n ==> -AMP_LIMIT <= #[trigger] osnap[j] <= AMP_LIMIT,
                        forall|j: int|
                            0 <= j < i ==> #[trigger] output@[j] == (osnap[j] + scaled(
                                soft_clip_spec(input@[j] as int),
                                vol as int,
                            )) as i64,
                    decreases n - i,
                {
                    let cur = output[i];
                    let shaped = soft_clip(input[i]);
                    output.set(i, cur + scale_amp(shaped, vol));
                    i = i + 1;
                }
                proof {
                    assert(output@ =~= stack_mix_spec(input@, osnap, vol as int));
                }
            },
            MixMode::Blur { .. } => {
                let blen = self.blur_buffer.len();
                if blen == 0 {
                    let mut i: usize = 0;
                    while i < n
                        invariant
                            n == input@.len(),
                            n == output@.len(),
                            n == osnap.len(),
                            i <= n,
                            vol <= UNIT,
                            forall|j: int|
                                0 <= j < n ==> -AMP_LIMIT <= #[trigger] input@[j] <= AMP_LIMIT,
                            forall|j: int| i <= j < n ==> #[trigger] output@[j] == osnap[j],
                            forall|j: int|
                                0 <= j < n ==> -AMP_LIMIT <= #[trigger] osnap[j] <= AMP_LIMIT,
                            forall|j: int|
                                0 <= j < i ==> #[trigger] output@[j] == (osnap[j] + scaled(
                                    input@[j] as int,
                                    vol as int,
                                )) as i64,
                        decreases n - i,
                    {
                        let cur = output[i];
                        output.set(i, cur + scale_amp(input[i], vol));
                        i = i + 1;
                    }
                    proof {
                        assert(output@ =~= poly_mix_spec(input@, osnap, vol as int));
                    }
                } else {
                    let ghost bsnap = self.blur_buffer@;
                    let ghost pos0 = self.blur_position as int;
                    let mut w: usize = self.blur_position % blen;
                    let mut i: usize = 0;
                    proof {
                        vstd::arithmetic::div_mod::lemma_mod_division_less_than_divisor(
                            pos0,
                            blen as int,
                        );
                    }
                    while i < n
                        invariant
                            n == input@.len(),
                            n == output@.len(),
                            n == osnap.len(),
                            i <= n,
                            vol <= UNIT,
                            blen == self.blur_buffer@.len(),
                            blen > 0,
                            self.master_volume == vol,
                            self.blur_position == pos0,
                            self.mode == old(self).mode,
                            w == (pos0 + i) % (blen as int),
                            forall|j: int|
                                0 <= j < n ==> -AMP_LIMIT <= #[trigger] input@[j] <= AMP_LIMIT,
                            forall|j: int| i <= j < n ==> #[trigger] output@[j] == osnap[j],
                            forall|j: int|
                                0 <= j < n ==> -AMP_LIMIT <= #[trigger] osnap[j] <= AMP_LIMIT,
                            forall|j: int|
                                0 <= j < blen ==> -AMP_LIMIT <= #[trigger] self.blur_buffer@[j]
                                    <= AMP_LIMIT,
                            blur_mix_spec(bsnap, pos0, input@, osnap, vol as int, 0)
                                == blur_mix_spec(
                                self.blur_buffer@,
                                pos0,
                                input@,
                                output@,
                                vol as int,
                                i as int,
                            ),
                        decreases n - i,
                    {
                        let b = self.blur_buffer[w];
                        let x = input[i];
                        proof {
                            lemma_div_tz_magnitude(3 * b + 7 * x, 10, AMP_LIMIT as int);
                        }
                        let blended = div_trunc(3 * b + 7 * x, 10);
                        self.blur_buffer.set(w, blended);
                        let cur = output[i];
                        output.set(i, cur + scale_amp(blended, vol));
                        proof {
                            vstd::arithmetic::div_mod::lemma_fundamental_div_mod(
                                pos0 + i,
                                blen as int,
                            );
                            let q = (pos0 + i) / (blen as int);
                            assert((blen as int) * q == q * (blen as int)) by (nonlinear_arith);
                            assert((q + 1) * (blen as int) == q * (blen as int) + blen)
                                by (nonlinear_arith);
                            assert(pos0 + i == q * (blen as int) + w);
                            if w + 1 == blen {
                                vstd::arithmetic::div_mod::lemma_fundamental_div_mod_converse(
                                    pos0 + i + 1,
                                    blen as int,
                                    q + 1,
                                    0,
                                );
                            } else {
                                vstd::arithmetic::div_mod::lemma_fundamental_div_mod_converse(
                                    pos0 + i + 1,
                                    blen as int,
                                    q,
                                    w as int + 1,
                                );
                            }
                        }
                        w = if w + 1 == blen {
                            0
                        } else {
                            w + 1
                        };
                        i = i + 1;
                    }
                    self.blur_position = w;
                }
            },
        }
    }
}

/// A zero-filled amplitude buffer.
pub fn zeroed(n: usize) -> (v: Vec<i64>)
    ensures
        v@.len() == n,
        forall|i: int| 0 <= i < n ==> #[trigger] v@[i] == 0,
{
    let mut v: Vec<i64> = Vec::new();
    while v.len() < n
        invariant
            v@.len() <= n,
            forall|i: int| 0 <= i < v@.len() ==> #[trigger] v@[i] == 0,
        decreases n - v@.len(),
    {
        v.push(0);
    }
    v
}

} // verus!
