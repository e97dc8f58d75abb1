//! The engine: a fixed voice pool, command dispatch, rendering and
//! mixing.
//!
//! Once per render period the engine drains its bounded command queue,
//! zeroes the output and a preallocated scratch bus, renders every
//! active voice into the bus, folds the bus into the output through the
//! mixer, and publishes how many voices were sounding. Everything a
//! block does is captured by [`block_model_spec`] over the engine's
//! ghost model.

use vstd::prelude::*;
use crate::api::EngineCommand;
use crate::api::EngineState;
use crate::api::EngineQuery;
use crate::api::EngineResponse;
use crate::api::Parameter;
use crate::api::QueryType;
use crate::api::ResponseData;
use crate::api::answer_query;
use crate::api::command_wf;
use crate::envelope::Envelope;
use crate::envelope::EnvelopeShape;
use crate::envelope::MAX_SAMPLE_RATE;
use crate::envelope::shape_wf;
use crate::mixer::MixMode;
use crate::mixer::Mixer;
use crate::mixer::blur_len_spec;
use crate::mixer::blur_mix_spec;
use crate::mixer::poly_mix_spec;
use crate::mixer::stack_mix_spec;
use crate::mixer::zeroed;
use crate::sample::Sample;
use crate::sample::SampleBank;
use crate::sample::SampleMapping;
use crate::sample::advanced_mapping_spec;
use crate::sample::resolve_from;
use crate::units::UNIT;
use crate::units::pitch_shift;
use crate::voice::Voice;
use crate::voice::VoiceState;
use crate::voice::root_note_spec;
use crate::voice::voice_processed_spec;

verus! {

/// Sizing of the engine, fixed at construction.
#[derive(Clone, Copy, Debug, PartialEq, Eq, Structural)]
pub struct EngineConfig {
    pub sample_rate: u32,
    pub block_size: usize,
    pub num_voices: usize,
    pub num_channels: usize,
}

/// Largest voice pool the engine accepts.
pub const MAX_VOICES: usize = 4096;

/// How many commands the queue holds before senders are refused.
pub const COMMAND_QUEUE_CAPACITY: usize = 1024;

/// A configuration the engine can be built from.
pub open spec fn config_wf(c: EngineConfig) -> bool {
    &&& c.sample_rate <= MAX_SAMPLE_RATE
    &&& c.num_voices <= MAX_VOICES
}

impl Default for EngineConfig {
    /// Stereo at 48 kHz, sixteen voices, 256-frame blocks.
    fn default() -> (c: Self)
        ensures
            c == (EngineConfig {
                sample_rate: 48000u32,
                block_size: 256usize,
                num_voices: 16usize,
                num_channels: 2usize,
            }),
            config_wf(c),
    {
        EngineConfig { sample_rate: 48000, block_size: 256, num_voices: 16, num_channels: 2 }
    }
}

/// The state a block of work reads and writes, with collections
/// abstracted to their contents.
pub ghost struct EngineModel {
    pub voices: Seq<Voice>,
    pub mode: MixMode,
    pub master_volume: u32,
    pub blur_buffer: Seq<i64>,
    pub blur_position: int,
    pub samples: Map<usize, Sample>,
    pub mapping: SampleMapping,
}

/// A level clamped to the unit scale.
pub open spec fn clamped_level_spec(v: u32) -> u32 {
    if v <= UNIT {
        v
    } else {
        UNIT
    }
}

/// The first idle voice at or after index `i`.
pub open spec fn first_idle_spec(voices: Seq<Voice>, i: int) -> Option<int>
    decreases voices.len() - i,
{
    if i < 0 || i >= voices.len() {
        None
    } else if voices[i].state is Idle {
        Some(i)
    } else {
        first_idle_spec(voices, i + 1)
    }
}

/// The voice after a trigger: playing `slot` at `note`, the envelope
/// restarted.
pub open spec fn triggered_voice_spec(
    v: Voice,
    note: u8,
    velocity: u32,
    slot: usize,
    s: Sample,
) -> Voice {
    Voice {
        state: VoiceState::Active,
        sample_slot: Some(slot),
        position: 0,
        pitch_ratio: pitch_shift(note, root_note_spec(s)),
        envelope: v.envelope.triggered_spec(),
        note: Some(note),
        velocity,
        ..v
    }
}

/// The voice after a release request: only an active voice moves.
pub open spec fn released_voice_spec(v: Voice) -> Voice {
    if v.state is Active {
        Voice { state: VoiceState::Releasing, envelope: v.envelope.released_spec(), ..v }
    } else {
        v
    }
}

/// A shape forced to a valid sustain level.
pub open spec fn sanitized_shape_spec(sh: EnvelopeShape) -> EnvelopeShape {
    match sh {
        EnvelopeShape::ADSR { attack_ms, decay_ms, sustain, release_ms } => EnvelopeShape::ADSR {
            attack_ms,
            decay_ms,
            sustain: clamped_level_spec(sustain),
            release_ms,
        },
        other => other,
    }
}

/// A four-segment shape with one of its parameters replaced; other
/// shapes and parameters are untouched.
pub open spec fn shape_with_param_spec(sh: EnvelopeShape, param: Parameter, value: u32) -> EnvelopeShape {
    match sh {
        EnvelopeShape::ADSR { attack_ms, decay_ms, sustain, release_ms } => match param {
            Parameter::EnvelopeAttack => EnvelopeShape::ADSR {
                attack_ms: value,
                decay_ms,
                sustain,
                release_ms,
            },
            Parameter::EnvelopeDecay => EnvelopeShape::ADSR {
                attack_ms,
                decay_ms: value,
                sustain,
                release_ms,
            },
            Parameter::EnvelopeSustain => EnvelopeShape::ADSR {
                attack_ms,
                decay_ms,
                sustain: clamped_level_spec(value),
                release_ms,
            },
            Parameter::EnvelopeRelease => EnvelopeShape::ADSR {
                attack_ms,
                decay_ms,
                sustain,
                release_ms: value,
            },
            _ => sh,
        },
        other => other,
    }
}

/// The voice with its envelope reshaped.
pub open spec fn reshaped_voice_spec(v: Voice, sh: EnvelopeShape) -> Voice {
    Voice { envelope: Envelope { shape: sh, ..v.envelope }, ..v }
}

/// The blur buffer resized to a new window: what fits is kept, the
/// rest is zero-filled.
pub open spec fn resized_blur_spec(buf: Seq<i64>, new_len: int) -> Seq<i64> {
    Seq::new(
        new_len as nat,
        |i: int|
            if i < buf.len() {
                buf[i]
            } else {
                0
            },
    )
}

/// One command applied to the model, exactly as the engine's dispatch
/// does: triggering finds the first idle voice and resolves a sample
/// (advancing a round-robin cursor exactly once); a full pool drops the
/// trigger with no other effect; releasing moves every voice holding
/// the note; the remaining commands retune the owned components.
pub open spec fn apply_command_spec(m: EngineModel, cmd: EngineCommand) -> EngineModel {
    match cmd {
        EngineCommand::LoadSample { slot, sample } => EngineModel {
            samples: m.samples.insert(slot, sample),
            ..m
        },
        EngineCommand::TriggerNote { note, velocity } => {
            if note >= 128 {
                m
            } else {
                match first_idle_spec(m.voices, 0) {
                    None => m,
                    Some(i) => {
                        let vel = clamped_level_spec(velocity);
                        let picked = resolve_from(m.samples, m.mapping, note, vel);
                        let m2 = EngineModel { mapping: advanced_mapping_spec(m.mapping), ..m };
                        match picked {
                            Some(slot) => EngineModel {
                                voices: m2.voices.update(
                                    i,
                                    triggered_voice_spec(m.voices[i], note, vel, slot, m.samples[slot]),
                                ),
                                ..m2
                            },
                            None => m2,
                        }
                    },
                }
            }
        },
        EngineCommand::ReleaseNote { note } => EngineModel {
            voices: Seq::new(
                m.voices.len(),
                |i: int|
                    if m.voices[i].note == Some(note) {
                        released_voice_spec(m.voices[i])
                    } else {
                        m.voices[i]
                    },
            ),
            ..m
        },
        EngineCommand::SetEnvelope { envelope } => EngineModel {
            voices: Seq::new(
                m.voices.len(),
                |i: int| reshaped_voice_spec(m.voices[i], sanitized_shape_spec(envelope)),
            ),
            ..m
        },
        EngineCommand::SetMixMode { mode } => match mode {
            MixMode::Blur { crossfade_ms } => EngineModel {
                mode,
                blur_buffer: resized_blur_spec(m.blur_buffer, blur_len_spec(crossfade_ms)),
                ..m
            },
            _ => EngineModel { mode, ..m },
        },
        EngineCommand::SetParameter { param, value } => match param {
            Parameter::MasterVolume => EngineModel {
                master_volume: clamped_level_spec(value),
                ..m
            },
            Parameter::VoiceBlur => match m.mode {
                MixMode::Blur { .. } => EngineModel {
                    mode: MixMode::Blur { crossfade_ms: value },
                    blur_buffer: resized_blur_spec(m.blur_buffer, blur_len_spec(value)),
                    ..m
                },
                _ => m,
            },
            Parameter::EnvelopeAttack | Parameter::EnvelopeDecay | Parameter::EnvelopeSustain
                | Parameter::EnvelopeRelease => EngineModel {
                voices: Seq::new(
                    m.voices.len(),
                    |i: int|
                        reshaped_voice_spec(
                            m.voices[i],
                            shape_with_param_spec(m.voices[i].envelope.shape, param, value),
                        ),
                ),
                ..m
            },
            _ => m,
        },
    }
}

/// The whole queue applied in order.
pub open spec fn drain_spec(m: EngineModel, cmds: Seq<EngineCommand>) -> EngineModel
    decreases cmds.len(),
{
    if cmds.len() == 0 {
        m
    } else {
        drain_spec(apply_command_spec(m, cmds[0]), cmds.drop_first())
    }
}

/// Every active voice from index `i` on rendered in order, each adding
/// its block into the bus; idle voices and voices whose slot holds no
/// sample are skipped.
pub open spec fn render_all_spec(
    voices: Seq<Voice>,
    samples: Map<usize, Sample>,
    out: Seq<i64>,
    i: int,
) -> (Seq<Voice>, Seq<i64>)
    decreases voices.len() - i,
{
    if i < 0 || i >= voices.len() {
        (voices, out)
    } else if voices[i].state is Idle {
        render_all_spec(voices, samples, out, i + 1)
    } else {
        match voices[i].sample_slot {
            Some(slot) => if samples.dom().contains(slot) {
                let r = voice_processed_spec(voices[i], samples[slot], out);
                render_all_spec(voices.update(i, r.0), samples, r.1, i + 1)
            } else {
                render_all_spec(voices, samples, out, i + 1)
            },
            None => render_all_spec(voices, samples, out, i + 1),
        }
    }
}

/// How many of the first `i` voices are sounding.
pub open spec fn count_active_upto(voices: Seq<Voice>, i: int) -> int
    decreases i,
{
    if i <= 0 {
        0
    } else {
        count_active_upto(voices, i - 1) + if voices[i - 1].state is Idle {
            0int
        } else {
            1int
        }
    }
}

/// An all-zero block.
pub open spec fn zero_seq(n: int) -> Seq<i64> {
    Seq::new(n as nat, |i: int| 0i64)
}

/// What the mixer does to the bus, the blur state and the output.
pub open spec fn mixed_model_spec(
    mode: MixMode,
    vol: u32,
    blur: Seq<i64>,
    pos: int,
    inp: Seq<i64>,
    out: Seq<i64>,
) -> (Seq<i64>, int, Seq<i64>) {
    match mode {
        MixMode::Poly | MixMode::Rotate => (blur, pos, poly_mix_spec(inp, out, vol as int)),
        MixMode::Stack => (blur, pos, stack_mix_spec(inp, out, vol as int)),
        MixMode::Blur { .. } => if blur.len() > 0 {
            let f = blur_mix_spec(blur, pos, inp, out, vol as int, 0);
            (f.0, (pos + inp.len()) % (blur.len() as int), f.1)
        } else {
            (blur, pos, poly_mix_spec(inp, out, vol as int))
        },
    }
}

/// One render period over the model: the queue drained in order, the
/// active voices rendered into a zeroed bus, the bus mixed into a
/// zeroed output. Returns the model after the block and the output.
pub open spec fn block_model_spec(m: EngineModel, cmds: Seq<EngineCommand>, out_len: int) -> (
    EngineModel,
    Seq<i64>,
) {
    let dm = drain_spec(m, cmds);
    let rendered = render_all_spec(dm.voices, dm.samples, zero_seq(out_len), 0);
    let mixed = mixed_model_spec(
        dm.mode,
        dm.master_volume,
        dm.blur_buffer,
        dm.blur_position,
        rendered.1,
        zero_seq(out_len),
    );
    (
        EngineModel {
            voices: rendered.0,
            blur_buffer: mixed.0,
            blur_position: mixed.1,
            ..dm
        },
        mixed.2,
    )
}

/// Two engine states that differ at most in their voice pool.
pub open spec fn same_but_voices(a: ZimlerEngine, b: ZimlerEngine) -> bool {
    &&& a.config == b.config
    &&& a.mixer == b.mixer
    &&& a.sample_bank == b.sample_bank
    &&& a.engine_state == b.engine_state
    &&& a.commands == b.commands
    &&& a.queue_capacity == b.queue_capacity
    &&& a.scratch == b.scratch
}

/// The sample-playback engine: a fixed pool of voices, the sample
/// bank, the mixer, a bounded command queue and the published state.
pub struct ZimlerEngine {
    pub config: EngineConfig,
    pub voices: Vec<Voice>,
    pub mixer: Mixer,
    pub sample_bank: SampleBank,
    pub engine_state: EngineState,
    pub commands: Vec<EngineCommand>,
    pub queue_capacity: usize,
    pub scratch: Vec<i64>,
}

impl ZimlerEngine {
    /// The ghost model a block of work is specified over.
    pub open spec fn model(self) -> EngineModel {
        EngineModel {
            voices: self.voices@,
            mode: self.mixer.mode,
            master_volume: self.mixer.master_volume,
            blur_buffer: self.mixer.blur_buffer@,
            blur_position: self.mixer.blur_position as int,
            samples: self.sample_bank.samples@,
            mapping: self.sample_bank.current_mapping,
        }
    }

    /// Internal consistency: a valid configuration, a pool of exactly
    /// the configured size whose voices are all well formed at the
    /// engine's rate, a well-formed mixer and bank, and a queue of
    /// applicable commands within its capacity.
    pub open spec fn wf(self) -> bool {
        &&& config_wf(self.config)
        &&& self.voices@.len() == self.config.num_voices
        &&& forall|i: int|
            0 <= i < self.voices@.len() ==> (#[trigger] self.voices@[i]).wf()
                && self.voices@[i].sample_rate == self.config.sample_rate
        &&& self.mixer.wf()
        &&& self.sample_bank.wf()
        &&& self.commands@.len() <= self.queue_capacity
        &&& forall|i: int| 0 <= i < self.commands@.len() ==> command_wf(#[trigger] self.commands@[i])
    }

    /// Build an engine: idle voices, an empty bank, a plain mixer, an
    /// empty queue and a scratch bus preallocated for the configured
    /// block so the render path never allocates.
    pub fn new(config: EngineConfig) -> (e: ZimlerEngine)
        requires
            config_wf(config),
        ensures
            e.wf(),
            e.config == config,
            e.voices@.len() == config.num_voices,
            forall|i: int|
                0 <= i < e.voices@.len() ==> (#[trigger] e.voices@[i]).state is Idle
                    && e.voices@[i].sample_slot is None && e.voices@[i].note is None,
            e.mixer.mode is Poly,
            e.sample_bank.samples@ == Map::<usize, Sample>::empty(),
            e.sample_bank.current_mapping matches SampleMapping::ChromaticSingle { slot } && slot == 0,
            e.commands@.len() == 0,
            e.queue_capacity == COMMAND_QUEUE_CAPACITY,
            e.engine_state.active_voices == 0,
            e.engine_state.current_preset is None,
    {
        let mut voices: Vec<Voice> = Vec::new();
        while voices.len() < config.num_voices
            invariant
                config_wf(config),
                voices@.len() <= config.num_voices,
                forall|i: int|
                    0 <= i < voices@.len() ==> (#[trigger] voices@[i]).wf() && voices@[i].state
                        is Idle && voices@[i].sample_slot is None && voices@[i].note is None
                        && voices@[i].sample_rate == config.sample_rate,
            decreases config.num_voices - voices@.len(),
        {
            voices.push(Voice::new(config.sample_rate));
        }
        let scratch_len = config.block_size.checked_mul(config.num_channels).unwrap_or(0);
        ZimlerEngine {
            config,
            voices,
            mixer: Mixer::new(),
            sample_bank: SampleBank::new(),
            engine_state: EngineState::default(),
            commands: Vec::new(),
            queue_capacity: COMMAND_QUEUE_CAPACITY,
            scratch: zeroed(scratch_len),
        }
    }

    /// Offer a command to the bounded queue: accepted in order while
    /// there is room, refused (leaving the engine untouched) when the
    /// queue is full, so a fast sender is pushed back rather than
    /// blocked.
    pub fn enqueue_command(&mut self, cmd: EngineCommand) -> (accepted: bool)
        requires
            old(self).wf(),
            command_wf(cmd),
        ensures
            final(self).wf(),
            accepted == (old(self).commands@.len() < old(self).queue_capacity),
            accepted ==> *final(self) == (ZimlerEngine {
                commands: final(self).commands,
                ..*old(self)
            }) && final(self).commands@ == old(self).commands@.push(cmd),
            !accepted ==> *final(self) == *old(self),
    {
        if self.commands.len() < self.queue_capacity {
            self.commands.push(cmd);
            true
        } else {
            false
        }
    }

    /// Answer a control-plane query from the published snapshot.
    pub fn query(&self, query: &EngineQuery) -> (r: EngineResponse)
        ensures
            match query.query_type {
                QueryType::GetState => {
                    &&& r.success
                    &&& r.data matches Some(d) && (d matches ResponseData::State(st) && st
                        == self.engine_state)
                    &&& r.error is None
                },
                _ => {
                    &&& !r.success
                    &&& r.data is None
                    &&& r.error matches Some(e) && e@ == "not implemented"@
                },
            },
    {
        answer_query(&self.engine_state, query)
    }

    /// Apply one command, exactly as [`apply_command_spec`] says.
    #[verifier::rlimit(60)]
    fn handle_command(&mut self, cmd: EngineCommand)
        requires
            old(self).wf(),
            command_wf(cmd),
        ensures
            final(self).wf(),
            final(self).model() == apply_command_spec(old(self).model(), cmd),
            final(self).commands == old(self).commands,
            final(self).engine_state == old(self).engine_state,
            final(self).config == old(self).config,
            final(self).queue_capacity == old(self).queue_capacity,
            final(self).scratch == old(self).scratch,
    {
        match cmd {
            EngineCommand::LoadSample { slot, sample } => {
                self.sample_bank.load_sample(slot, sample);
            },
            EngineCommand::TriggerNote { note, velocity } => {
                if note < 128 {
                    let vel = if velocity <= UNIT {
                        velocity
                    } else {
                        UNIT
                    };
                    let n = self.voices.len();
                    let mut i: usize = 0;
                    let mut found: Option<usize> = None;
                    while i < n && found.is_none()
                        invariant
                            n == self.voices@.len(),
                            i <= n,
                            match found {
                                None => first_idle_spec(self.voices@, 0) == first_idle_spec(
                                    self.voices@,
                                    i as int,
                                ),
                                Some(k) => first_idle_spec(self.voices@, 0) == Some(k as int)
                                    && k < n,
                            },
                        decreases n - i,
                    {
                        if !self.voices[i].is_active() {
                            found = Some(i);
                        }
                        i = i + 1;
                    }
                    match found {
                        Some(idx) => {
                            let picked = self.sample_bank.get_sample_for_note(note, vel);
                            match picked {
                                Some(slot) => {
                                    match self.sample_bank.get_sample(slot) {
                                        Some(sample_ref) => {
                                            self.voices[idx].trigger(note, vel, slot, sample_ref);
                                        },
                                        None => {
                                            // a slot the mapping resolved is always loaded
                                            proof {
                                                assert(false);
                                            }
                                        },
                                    }
                                },
                                None => {},
                            }
                        },
                        None => {},
                    }
                }
            },
            EngineCommand::ReleaseNote { note } => {
                let n = self.voices.len();
                let ghost vsnap = self.voices@;
                let mut i: usize = 0;
                while i < n
                    invariant
                        same_but_voices(*self, *old(self)),
                        n == self.voices@.len(),
                        n == vsnap.len(),
                        i <= n,
                        forall|j: int| 0 <= j < n ==> (#[trigger] vsnap[j]).wf(),
                        forall|j: int| 0 <= j < i ==> (#[trigger] self.voices@[j]).wf(),
                        forall|j: int|
                            i <= j < n ==> #[trigger] self.voices@[j] == vsnap[j],
                        forall|j: int|
                            0 <= j < i ==> #[trigger] self.voices@[j] == if vsnap[j].note == Some(
                                note,
                            ) {
                                released_voice_spec(vsnap[j])
                            } else {
                                vsnap[j]
                            },
                    decreases n - i,
                {
                    let matches_note = match self.voices[i].get_note() {
                        Some(x) => x == note,
                        None => false,
                    };
                    if matches_note {
                        self.voices[i].release();
                    }
                    i = i + 1;
                }
                proof {
                    assert(self.voices@ =~= apply_command_spec(
                        ZimlerEngine { voices: old(self).voices, ..*old(self) }.model(),
                        cmd,
                    ).voices);
                }
            },
            EngineCommand::SetEnvelope { envelope } => {
                let shape = match envelope {
                    EnvelopeShape::ADSR { attack_ms, decay_ms, sustain, release_ms } => {
                        EnvelopeShape::ADSR {
                            attack_ms,
                            decay_ms,
                            sustain: if sustain <= UNIT {
                                sustain
                            } else {
                                UNIT
                            },
                            release_ms,
                        }
                    },
                    other => other,
                };
                let n = self.voices.len();
                let ghost vsnap = self.voices@;
                let mut i: usize = 0;
                while i < n
                    invariant
                        same_but_voices(*self, *old(self)),
                        n == self.voices@.len(),
                        n == vsnap.len(),
                        i <= n,
                        shape == sanitized_shape_spec(
                            match cmd {
                                EngineCommand::SetEnvelope { envelope } => envelope,
                                _ => shape,
                            },
                        ),
                        shape_wf(shape),
                        forall|j: int| 0 <= j < n ==> (#[trigger] vsnap[j]).wf(),
                        forall|j: int| i <= j < n ==> #[trigger] self.voices@[j] == vsnap[j],
                        forall|j: int|
                            0 <= j < i ==> #[trigger] self.voices@[j] == reshaped_voice_spec(
                                vsnap[j],
                                shape,
                            ),
                    decreases n - i,
                {
                    self.voices[i].set_envelope_shape(shape);
                    i = i + 1;
                }
                proof {
                    assert(self.voices@ =~= Seq::new(
                        vsnap.len(),
                        |i: int| reshaped_voice_spec(vsnap[i], shape),
                    ));
                }
            },
            EngineCommand::SetMixMode { mode } => {
                self.mixer.set_mode(mode);
                proof {
                    if let MixMode::Blur { crossfade_ms } = mode {
                        assert(self.mixer.blur_buffer@ =~= resized_blur_spec(
                            old(self).mixer.blur_buffer@,
                            blur_len_spec(crossfade_ms),
                        ));
                    }
                }
            },
            EngineCommand::SetParameter { param, value } => {
                match param {
                    Parameter::MasterVolume => {
                        self.mixer.set_master_volume(value);
                    },
                    Parameter::VoiceBlur => {
                        let is_blur = matches!(self.mixer.mode, MixMode::Blur { .. });
                        if is_blur {
                            self.mixer.set_mode(MixMode::Blur { crossfade_ms: value });
                            proof {
                                assert(self.mixer.blur_buffer@ =~= resized_blur_spec(
                                    old(self).mixer.blur_buffer@,
                                    blur_len_spec(value),
                                ));
                            }
                        }
                    },
                    Parameter::EnvelopeAttack | Parameter::EnvelopeDecay
                        | Parameter::EnvelopeSustain | Parameter::EnvelopeRelease => {
                        let n = self.voices.len();
                        let ghost vsnap = self.voices@;
                        let mut i: usize = 0;
                        while i < n
                            invariant
                                same_but_voices(*self, *old(self)),
                                n == self.voices@.len(),
                                n == vsnap.len(),
                                i <= n,
                                param is EnvelopeAttack || param is EnvelopeDecay || param
                                    is EnvelopeSustain || param is EnvelopeRelease,
                                forall|j: int| 0 <= j < n ==> (#[trigger] vsnap[j]).wf(),
                                forall|j: int|
                                    i <= j < n ==> #[trigger] self.voices@[j] == vsnap[j],
                                forall|j: int|
                                    0 <= j < i ==> #[trigger] self.voices@[j]
                                        == reshaped_voice_spec(
                                        vsnap[j],
                                        shape_with_param_spec(vsnap[j].envelope.shape, param, value),
                                    ),
                            decreases n - i,
                        {
                            let cur_shape = self.voices[i].envelope.shape;
                            let new_shape = match cur_shape {
                                EnvelopeShape::ADSR { attack_ms, decay_ms, sustain, release_ms } => {
                                    match param {
                                        Parameter::EnvelopeAttack => EnvelopeShape::ADSR {
                                            attack_ms: value,
                                            decay_ms,
                                            sustain,
                                            release_ms,
                                        },
                                        Parameter::EnvelopeDecay => EnvelopeShape::ADSR {
                                            attack_ms,
                                            decay_ms: value,
                                            sustain,
                                            release_ms,
                                        },
                                        Parameter::EnvelopeSustain => EnvelopeShape::ADSR {
                                            attack_ms,
                                            decay_ms,
                                            sustain: if value <= UNIT {
                                                value
                                            } else {
                                                UNIT
                                            },
                                            release_ms,
                                        },
                                        _ => EnvelopeShape::ADSR {
                                            attack_ms,
                                            decay_ms,
                                            sustain,
                                            release_ms: value,
                                        },
                                    }
                                },
                                other => other,
                            };
                            proof {
                                assert(new_shape == shape_with_param_spec(
                                    vsnap[i as int].envelope.shape,
                                    param,
                                    value,
                                ));
                                assert(shape_wf(new_shape));
                            }
                            self.voices[i].set_envelope_shape(new_shape);
                            i = i + 1;
                        }
                        proof {
                            assert(self.voices@ =~= Seq::new(
                                vsnap.len(),
                                |i: int|
                                    reshaped_voice_spec(
                                        vsnap[i],
                                        shape_with_param_spec(vsnap[i].envelope.shape, param, value),
                                    ),
                            ));
                        }
                    },
                    _ => {},
                }
            },
        }
    }
}

/// A prefix count of sounding voices never exceeds the prefix length.
proof fn lemma_count_active_le(voices: Seq<Voice>, i: int)
    requires
        0 <= i <= voices.len(),
    ensures
        0 <= count_active_upto(voices, i) <= i,
    decreases i,
{
    if i > 0 {
        lemma_count_active_le(voices, i - 1);
    }
}

/// An all-idle prefix counts no sounding voices.
proof fn lemma_count_idle(voices: Seq<Voice>, i: int)
    requires
        0 <= i <= voices.len(),
        forall|j: int| 0 <= j < voices.len() ==> (#[trigger] voices[j]).state is Idle,
    ensures
        count_active_upto(voices, i) == 0,
    decreases i,
{
    if i > 0 {
        lemma_count_idle(voices, i - 1);
    }
}

/// Rendering an all-idle pool changes neither the pool nor the bus.
proof fn lemma_render_all_idle(voices: Seq<Voice>, samples: Map<usize, Sample>, out: Seq<i64>, i: int)
    requires
        0 <= i,
        forall|j: int| 0 <= j < voices.len() ==> (#[trigger] voices[j]).state is Idle,
    ensures
        render_all_spec(voices, samples, out, i) == (voices, out),
    decreases voices.len() - i,
{
    if i < voices.len() {
        lemma_render_all_idle(voices, samples, out, i + 1);
    }
}

/// Plain mixing of silence into silence yields silence.
proof fn lemma_poly_zero(n: int, vol: int)
    requires
        n >= 0,
    ensures
        poly_mix_spec(zero_seq(n), zero_seq(n), vol) == zero_seq(n),
{
    assert forall|i: int| 0 <= i < n implies #[trigger] poly_mix_spec(
        zero_seq(n),
        zero_seq(n),
        vol,
    )[i] == zero_seq(n)[i] by {
        assert(0 * vol == 0);
        vstd::arithmetic::div_mod::lemma_div_of0(UNIT as int);
    }
    assert(poly_mix_spec(zero_seq(n), zero_seq(n), vol) =~= zero_seq(n));
}

/// Reset a buffer to silence without changing its length.
fn zero_buffer(buf: &mut Vec<i64>)
    ensures
        final(buf)@.len() == old(buf)@.len(),
        forall|i: int| 0 <= i < final(buf)@.len() ==> #[trigger] final(buf)@[i] == 0,
{
    let n = buf.len();
    let mut i: usize = 0;
    while i < n
        invariant
            n == buf@.len(),
            i <= n,
            forall|j: int| 0 <= j < i ==> #[trigger] buf@[j] == 0,
        decreases n - i,
    {
        buf.set(i, 0);
        i = i + 1;
    }
}

impl ZimlerEngine {
    /// Render one block: drain the whole command queue in order, zero
    /// the output and the preallocated bus, render every active voice
    /// into the bus, fold the bus into the output through the mixer,
    /// and publish the number of voices that were sounding. With no
    /// commands queued, no voice sounding and the plain mix mode, the
    /// block is guaranteed silent.
    pub fn process_block(&mut self, output: &mut Vec<i64>)
        requires
            old(self).wf(),
        ensures
            final(self).wf(),
            final(self).commands@.len() == 0,
            final(self).config == old(self).config,
            final(self).queue_capacity == old(self).queue_capacity,
            final(output)@.len() == old(output)@.len(),
            ({
                let r = block_model_spec(
                    old(self).model(),
                    old(self).commands@,
                    old(output)@.len() as int,
                );
                final(self).model() == r.0 && final(output)@ == r.1
            }),
            ({
                let dm = drain_spec(old(self).model(), old(self).commands@);
                final(self).engine_state.active_voices == count_active_upto(
                    dm.voices,
                    dm.voices.len() as int,
                )
            }),
            final(self).engine_state.active_voices <= old(self).config.num_voices,
            final(self).engine_state.cpu_load == old(self).engine_state.cpu_load,
            final(self).engine_state.current_preset == old(self).engine_state.current_preset,
            (old(self).commands@.len() == 0 && old(self).mixer.mode is Poly && (forall|i: int|
                0 <= i < old(self).voices@.len() ==> (#[trigger] old(self).voices@[i]).state
                    is Idle)) ==> ((forall|j: int|
                0 <= j < final(output)@.len() ==> #[trigger] final(output)@[j] == 0) && final(self).engine_state.active_voices == 0),
    {
        let ghost m0 = self.model();
        let ghost cmds0 = self.commands@;
        while self.commands.len() > 0
            invariant
                self.wf(),
                self.config == old(self).config,
                self.queue_capacity == old(self).queue_capacity,
                self.engine_state == old(self).engine_state,
                self.scratch == old(self).scratch,
                drain_spec(m0, cmds0) == drain_spec(self.model(), self.commands@),
            decreases self.commands@.len(),
        {
            let ghost pre_cmds = self.commands@;
            let cmd = self.commands.remove(0);
            proof {
                assert(pre_cmds.remove(0) =~= pre_cmds.drop_first());
            }
            self.handle_command(cmd);
        }
        let ghost dm = drain_spec(m0, cmds0);
        proof {
            assert(dm == self.model());
        }
        let out_len = output.len();
        zero_buffer(output);
        let mut bus: Vec<i64> = Vec::new();
        core::mem::swap(&mut self.scratch, &mut bus);
        if bus.len() != out_len {
            bus = crate::mixer::zeroed(out_len);
        } else {
            zero_buffer(&mut bus);
        }
        proof {
            assert(bus@ =~= zero_seq(out_len as int));
            assert(output@ =~= zero_seq(out_len as int));
        }
        let ghost sd = *self;
        let ghost v0 = self.voices@;
        let ghost samples = self.sample_bank.samples@;
        let n = self.voices.len();
        let mut count: usize = 0;
        let mut i: usize = 0;
        while i < n
            invariant
                self.wf(),
                n == self.voices@.len(),
                n == v0.len(),
                n <= MAX_VOICES,
                i <= n,
                self.config == sd.config,
                self.mixer == sd.mixer,
                self.sample_bank == sd.sample_bank,
                self.engine_state == sd.engine_state,
                self.commands == sd.commands,
                self.queue_capacity == sd.queue_capacity,
                self.scratch == sd.scratch,
                samples == self.sample_bank.samples@,
                count as int == count_active_upto(v0, i as int),
                count <= i,
                bus@.len() == out_len,
                forall|j: int|
                    0 <= j < out_len ==> -((i as int) * (UNIT as int)) <= #[trigger] bus@[j]
                        <= (i as int) * (UNIT as int),
                forall|j: int| i <= j < n ==> #[trigger] self.voices@[j] == v0[j],
                render_all_spec(v0, samples, zero_seq(out_len as int), 0) == render_all_spec(
                    self.voices@,
                    samples,
                    bus@,
                    i as int,
                ),
            decreases n - i,
        {
            if self.voices[i].is_active() {
                let sl_opt = self.voices[i].sample_slot;
                match sl_opt {
                    Some(sl) => {
                        match self.sample_bank.get_sample(sl) {
                            Some(sref) => {
                                proof {
                                    assert((i as int) * (UNIT as int) + (UNIT as int) == (i as int
                                        + 1) * (UNIT as int)) by (nonlinear_arith);
                                    assert((i as int) * (UNIT as int) <= 4096 * (UNIT as int))
                                        by (nonlinear_arith)
                                        requires
                                            0 <= i <= 4096,
                                    ;
                                }
                                self.voices[i].process_block(sref, &mut bus);
                            },
                            None => {},
                        }
                    },
                    None => {},
                }
                count = count + 1;
            }
            proof {
                assert((i as int) * (UNIT as int) + (UNIT as int) == (i as int + 1) * (UNIT as int))
                    by (nonlinear_arith);
                assert((i as int) * (UNIT as int) >= 0) by (nonlinear_arith)
                    requires
                        i >= 0,
                ;
            }
            i = i + 1;
        }
        self.mixer.mix(&bus, output);
        core::mem::swap(&mut self.scratch, &mut bus);
        self.engine_state.active_voices = count;
        proof {
            lemma_count_active_le(v0, n as int);
            if cmds0.len() == 0 && m0.mode is Poly && (forall|k: int|
                0 <= k < v0.len() ==> (#[trigger] v0[k]).state is Idle) {
                lemma_render_all_idle(v0, samples, zero_seq(out_len as int), 0);
                lemma_count_idle(v0, n as int);
                lemma_poly_zero(out_len as int, self.mixer.master_volume as int);
            }
        }
    }
}

} // verus!
