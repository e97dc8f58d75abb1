//! The engine's control surface: commands, queries and the published
//! state snapshot.
//!
//! Commands are enqueued by the control plane and applied by the render
//! path at the top of each block. Queries are answered synchronously
//! from the published snapshot; an unimplemented query yields a
//! structured failure, never a panic.

use vstd::prelude::*;
use vstd::string::StringExecFns;
use crate::envelope::EnvelopeShape;
use crate::mixer::MixMode;
use crate::sample::Sample;

verus! {

/// A control-plane request, applied between audio blocks.
pub enum EngineCommand {
    /// Store a decoded sample in a bank slot. Decoding happens outside
    /// the engine; the command carries the playable sample, built with
    /// [`Sample::new`].
    LoadSample { slot: usize, sample: Sample },
    /// Start a note at a velocity in `0 ..= UNIT`.
    TriggerNote { note: u8, velocity: u32 },
    /// Release every voice holding the note.
    ReleaseNote { note: u8 },
    /// Reshape every voice's envelope.
    SetEnvelope { envelope: EnvelopeShape },
    /// Select how voices are mixed.
    SetMixMode { mode: MixMode },
    /// Adjust one scalar parameter.
    SetParameter { param: Parameter, value: u32 },
}

/// A command the engine can apply safely: a carried sample must be
/// playable (as [`Sample::new`] guarantees).
pub open spec fn command_wf(cmd: EngineCommand) -> bool {
    match cmd {
        EngineCommand::LoadSample { sample, .. } => sample.wf(),
        _ => true,
    }
}

/// The adjustable scalar parameters.
#[derive(Clone, Copy, Debug, PartialEq, Eq, Structural)]
pub enum Parameter {
    MasterVolume,
    VoiceBlur,
    EnvelopeAttack,
    EnvelopeDecay,
    EnvelopeSustain,
    EnvelopeRelease,
    SampleStartOffset,
    SampleEndOffset,
    PitchBendRange,
}

/// A synchronous control-plane question.
#[derive(Clone, Debug)]
pub struct EngineQuery {
    pub query_type: QueryType,
}

/// The questions the control plane can ask.
#[derive(Clone, Debug)]
pub enum QueryType {
    GetState,
    GetSampleList,
    GetCurrentPreset,
    GetWaveform { voice_index: usize },
}

/// An answer to a query: either success with data, or a structured
/// failure message.
pub struct EngineResponse {
    pub success: bool,
    pub data: Option<ResponseData>,
    pub error: Option<String>,
}

/// The payload of a successful query.
pub enum ResponseData {
    State(EngineState),
    SampleList(Vec<SampleInfo>),
    Preset(String),
    Waveform(Vec<i64>),
}

/// A catalogue entry describing one loaded sample.
pub struct SampleInfo {
    pub slot: usize,
    pub name: String,
    pub duration_ms: u64,
    pub sample_rate: u32,
    pub channels: usize,
}

/// The published snapshot: written by the render path, read by the
/// control plane.
pub struct EngineState {
    pub active_voices: usize,
    pub cpu_load: u32,
    pub current_preset: Option<String>,
}

impl Default for EngineState {
    /// No voices sounding, no load measured, no preset named.
    fn default() -> (s: Self)
        ensures
            s.active_voices == 0,
            s.cpu_load == 0,
            s.current_preset is None,
    {
        EngineState { active_voices: 0, cpu_load: 0, current_preset: None }
    }
}

impl Clone for EngineState {
    /// A field-for-field copy of the snapshot.
    fn clone(&self) -> (r: Self)
        ensures
            r == *self,
    {
        EngineState {
            active_voices: self.active_voices,
            cpu_load: self.cpu_load,
            current_preset: match &self.current_preset {
                Some(p) => Some(p.clone()),
                None => None,
            },
        }
    }
}

/// Answer a query from the published snapshot. The state query
/// succeeds with a copy of the snapshot; every other query reports a
/// structured "not implemented" failure rather than panicking.
pub fn answer_query(state: &EngineState, query: &EngineQuery) -> (r: EngineResponse)
    ensures
        match query.query_type {
            QueryType::GetState => {
                &&& r.success
                &&& r.data matches Some(d) && (d matches ResponseData::State(st) && st == *state)
                &&& r.error is None
            },
            _ => {
                &&& !r.success
                &&& r.data is None
                &&& r.error matches Some(e) && e@ == "not implemented"@
            },
        },
{
    match &query.query_type {
        QueryType::GetState => EngineResponse {
            success: true,
            data: Some(ResponseData::State(state.clone())),
            error: None,
        },
        _ => EngineResponse {
            success: false,
            data: None,
            error: Some(String::from_str("not implemented")),
        },
    }
}

} // verus!
