use zimler::api::{answer_query, EngineCommand, EngineQuery, Parameter, QueryType, ResponseData};
use zimler::envelope::EnvelopeShape;
use zimler::engine::{EngineConfig, ZimlerEngine, COMMAND_QUEUE_CAPACITY};
use zimler::sample::Sample;
use zimler::units::UNIT;
use zimler::voice::{Voice, VoiceState};

fn config(voices: usize) -> EngineConfig {
    EngineConfig { sample_rate: 48000, block_size: 256, num_voices: voices, num_channels: 1 }
}

fn steady_tone() -> Sample {
    Sample::new(vec![UNIT as i64 / 2; 48000], 48000, 1)
}

#[test]
fn pitch_ratio_doubles_per_octave() {
    let sample = steady_tone();
    assert_eq!(sample.root_note, Some(60));
    let mut voice = Voice::new(48000);
    voice.trigger(72, UNIT, 0, &sample);
    assert_eq!(voice.pitch_ratio, 2 * UNIT as u64);
    voice.trigger(48, UNIT, 0, &sample);
    assert_eq!(voice.pitch_ratio, UNIT as u64 / 2);
    voice.trigger(60, UNIT, 0, &sample);
    assert_eq!(voice.pitch_ratio, UNIT as u64);
}

#[test]
fn idle_pool_renders_silence() {
    let mut engine = ZimlerEngine::new(config(16));
    let mut output = vec![99i64; 256];
    engine.process_block(&mut output);
    assert!(output.iter().all(|&v| v == 0));
    assert_eq!(engine.engine_state.active_voices, 0);
}

#[test]
fn queued_trigger_is_applied_within_the_same_block() {
    let mut engine = ZimlerEngine::new(config(16));
    assert!(engine.enqueue_command(EngineCommand::LoadSample { slot: 0, sample: steady_tone() }));
    assert!(engine.enqueue_command(EngineCommand::TriggerNote { note: 60, velocity: UNIT }));
    let mut output = vec![0i64; 256];
    engine.process_block(&mut output);
    // The voice sounds in this very block, not a later one.
    assert_eq!(engine.engine_state.active_voices, 1);
    assert!(output.iter().any(|&v| v != 0));
    assert!(engine.voices.iter().any(|v| v.state == VoiceState::Active));
}

#[test]
fn pool_exhaustion_drops_the_extra_trigger_silently() {
    let mut engine = ZimlerEngine::new(config(2));
    assert!(engine.enqueue_command(EngineCommand::LoadSample { slot: 0, sample: steady_tone() }));
    for note in [60u8, 64, 67] {
        assert!(engine.enqueue_command(EngineCommand::TriggerNote { note, velocity: UNIT }));
    }
    let mut output = vec![0i64; 256];
    engine.process_block(&mut output);
    assert_eq!(engine.engine_state.active_voices, 2);
    let notes: Vec<_> = engine.voices.iter().filter_map(|v| v.get_note()).collect();
    assert_eq!(notes, vec![60, 64]);
    // A further trigger against the full pool changes nothing.
    assert!(engine.enqueue_command(EngineCommand::TriggerNote { note: 69, velocity: UNIT }));
    engine.process_block(&mut output);
    assert_eq!(engine.engine_state.active_voices, 2);
}

#[test]
fn release_moves_every_voice_holding_the_note() {
    let mut engine = ZimlerEngine::new(config(4));
    assert!(engine.enqueue_command(EngineCommand::LoadSample { slot: 0, sample: steady_tone() }));
    assert!(engine.enqueue_command(EngineCommand::TriggerNote { note: 60, velocity: UNIT }));
    assert!(engine.enqueue_command(EngineCommand::TriggerNote { note: 60, velocity: UNIT }));
    let mut output = vec![0i64; 64];
    engine.process_block(&mut output);
    assert_eq!(engine.engine_state.active_voices, 2);
    assert!(engine.enqueue_command(EngineCommand::ReleaseNote { note: 60 }));
    engine.process_block(&mut output);
    assert!(
        engine
            .voices
            .iter()
            .filter(|v| v.get_note() == Some(60))
            .all(|v| v.state != VoiceState::Active)
    );
}

#[test]
fn queue_refuses_commands_past_its_capacity() {
    let mut engine = ZimlerEngine::new(config(1));
    for _ in 0..COMMAND_QUEUE_CAPACITY {
        assert!(engine.enqueue_command(EngineCommand::ReleaseNote { note: 1 }));
    }
    assert!(!engine.enqueue_command(EngineCommand::ReleaseNote { note: 1 }));
    // Draining frees the queue again.
    let mut output = vec![0i64; 16];
    engine.process_block(&mut output);
    assert!(engine.enqueue_command(EngineCommand::ReleaseNote { note: 1 }));
}

#[test]
fn master_volume_parameter_reaches_the_mixer() {
    let mut engine = ZimlerEngine::new(config(1));
    assert!(engine.enqueue_command(EngineCommand::SetParameter {
        param: Parameter::MasterVolume,
        value: UNIT / 4,
    }));
    let mut output = vec![0i64; 16];
    engine.process_block(&mut output);
    assert_eq!(engine.mixer.master_volume, UNIT / 4);
}

#[test]
fn state_query_succeeds_and_others_fail_structurally() {
    let mut engine = ZimlerEngine::new(config(3));
    let mut output = vec![0i64; 16];
    engine.process_block(&mut output);
    let state = engine.query(&EngineQuery { query_type: QueryType::GetState });
    assert!(state.success);
    match state.data {
        Some(ResponseData::State(st)) => {
            assert_eq!(st.active_voices, 0);
            assert_eq!(st.current_preset, None);
        },
        _ => panic!("state query should carry the snapshot"),
    }
    let wave = engine.query(&EngineQuery { query_type: QueryType::GetWaveform { voice_index: 0 } });
    assert!(!wave.success);
    assert_eq!(wave.error.as_deref(), Some("not implemented"));
    let list = answer_query(
        &engine.engine_state,
        &EngineQuery { query_type: QueryType::GetSampleList },
    );
    assert!(!list.success);
}

#[test]
fn finished_sample_idles_its_voice() {
    let mut engine = ZimlerEngine::new(config(1));
    // Four frames of sound through a 16-frame block: the voice runs off
    // the end of its sample and goes idle within the block.
    let short = Sample::new(vec![UNIT as i64 / 2; 4], 48000, 1);
    assert!(engine.enqueue_command(EngineCommand::LoadSample { slot: 0, sample: short }));
    assert!(engine.enqueue_command(EngineCommand::TriggerNote { note: 60, velocity: UNIT }));
    let mut output = vec![0i64; 16];
    engine.process_block(&mut output);
    // Counted as sounding when the block began...
    assert_eq!(engine.engine_state.active_voices, 1);
    // ...but idle once its sample ran out.
    assert_eq!(engine.voices[0].state, VoiceState::Idle);
    engine.process_block(&mut output);
    assert_eq!(engine.engine_state.active_voices, 0);
}

#[test]
fn trigger_velocity_is_clamped_to_unity() {
    let mut engine = ZimlerEngine::new(config(1));
    assert!(engine.enqueue_command(EngineCommand::LoadSample { slot: 0, sample: steady_tone() }));
    assert!(engine.enqueue_command(EngineCommand::TriggerNote { note: 60, velocity: 10 * UNIT }));
    let mut output = vec![0i64; 16];
    engine.process_block(&mut output);
    assert_eq!(engine.voices[0].velocity, UNIT);
}

#[test]
fn set_envelope_reshapes_every_voice() {
    let mut engine = ZimlerEngine::new(config(3));
    let shape = EnvelopeShape::AR { attack_ms: 5, release_ms: 7 };
    assert!(engine.enqueue_command(EngineCommand::SetEnvelope { envelope: shape }));
    let mut output = vec![0i64; 16];
    engine.process_block(&mut output);
    for v in engine.voices.iter() {
        assert_eq!(v.envelope.shape, shape);
    }
}

#[test]
fn out_of_range_note_is_ignored() {
    let mut engine = ZimlerEngine::new(config(2));
    assert!(engine.enqueue_command(EngineCommand::LoadSample { slot: 0, sample: steady_tone() }));
    assert!(engine.enqueue_command(EngineCommand::TriggerNote { note: 200, velocity: UNIT }));
    let mut output = vec![0i64; 16];
    engine.process_block(&mut output);
    assert_eq!(engine.engine_state.active_voices, 0);
    assert!(output.iter().all(|&v| v == 0));
}
