use zimler::envelope::{Envelope, EnvelopeShape, EnvelopeStage, DEFAULT_SUSTAIN};
use zimler::units::UNIT;

fn run(env: &mut Envelope, frames: usize) {
    let mut i = 0;
    while i < frames {
        env.process_sample();
        i += 1;
    }
}

#[test]
fn adsr_timeline_at_48k() {
    let mut env = Envelope::new(48000);
    env.set_shape(EnvelopeShape::ADSR {
        attack_ms: 10,
        decay_ms: 100,
        sustain: DEFAULT_SUSTAIN,
        release_ms: 200,
    });
    env.trigger();
    assert_eq!(env.get_stage(), EnvelopeStage::Attack);

    // 10 ms of attack at 48 kHz is 480 frames: full scale, then decay.
    run(&mut env, 480);
    assert_eq!(env.get_current_value(), UNIT);
    assert_eq!(env.get_stage(), EnvelopeStage::Decay);

    // 100 ms of decay is 4800 frames: pinned to the sustain level.
    run(&mut env, 4800);
    assert_eq!(env.get_current_value(), DEFAULT_SUSTAIN);
    assert_eq!(env.get_stage(), EnvelopeStage::Sustain);

    // Sustain holds indefinitely.
    run(&mut env, 10000);
    assert_eq!(env.get_current_value(), DEFAULT_SUSTAIN);
    assert_eq!(env.get_stage(), EnvelopeStage::Sustain);

    // 200 ms of release is 9600 frames: silent and idle.
    env.release();
    assert_eq!(env.get_stage(), EnvelopeStage::Release);
    run(&mut env, 9600);
    assert_eq!(env.get_current_value(), 0);
    assert_eq!(env.get_stage(), EnvelopeStage::Idle);
    assert!(env.is_finished());
}

#[test]
fn ar_holds_full_scale_until_released() {
    let mut env = Envelope::new(48000);
    env.set_shape(EnvelopeShape::AR { attack_ms: 1, release_ms: 1 });
    env.trigger();
    run(&mut env, 48);
    assert_eq!(env.get_current_value(), UNIT);
    assert_eq!(env.get_stage(), EnvelopeStage::Sustain);
    // No automatic decay or release: it rings at full scale.
    run(&mut env, 5000);
    assert_eq!(env.get_current_value(), UNIT);
    assert_eq!(env.get_stage(), EnvelopeStage::Sustain);
    env.release();
    run(&mut env, 48);
    assert_eq!(env.get_stage(), EnvelopeStage::Idle);
    assert_eq!(env.get_current_value(), 0);
}

#[test]
fn trapezoid_rises_holds_and_falls() {
    let mut env = Envelope::new(48000);
    env.set_shape(EnvelopeShape::Trapezoid { rise_ms: 1, hold_ms: 1, fall_ms: 1 });
    env.trigger();
    run(&mut env, 48);
    assert_eq!(env.get_stage(), EnvelopeStage::Hold);
    assert_eq!(env.get_current_value(), UNIT);
    run(&mut env, 48);
    assert_eq!(env.get_stage(), EnvelopeStage::Release);
    run(&mut env, 48);
    assert_eq!(env.get_stage(), EnvelopeStage::Idle);
    assert_eq!(env.get_current_value(), 0);
}

#[test]
fn trapezoid_without_hold_falls_directly() {
    let mut env = Envelope::new(48000);
    env.set_shape(EnvelopeShape::Trapezoid { rise_ms: 1, hold_ms: 0, fall_ms: 1 });
    env.trigger();
    run(&mut env, 48);
    assert_eq!(env.get_stage(), EnvelopeStage::Release);
}

#[test]
fn zero_length_attack_jumps_next_frame() {
    let mut env = Envelope::new(48000);
    env.set_shape(EnvelopeShape::ADSR {
        attack_ms: 0,
        decay_ms: 100,
        sustain: DEFAULT_SUSTAIN,
        release_ms: 200,
    });
    env.trigger();
    env.process_sample();
    assert_eq!(env.get_current_value(), UNIT);
    assert_eq!(env.get_stage(), EnvelopeStage::Decay);
}

#[test]
fn release_is_no_op_when_idle() {
    let mut env = Envelope::new(48000);
    env.release();
    assert_eq!(env.get_stage(), EnvelopeStage::Idle);
    assert_eq!(env.get_current_value(), 0);
}
