use zimler::mixer::{MixMode, Mixer};
use zimler::units::{soft_clip, UNIT};

#[test]
fn soft_clip_bounds_any_amplitude() {
    let five = 5 * UNIT as i64;
    let shaped = soft_clip(five);
    assert!(shaped < UNIT as i64);
    assert!(shaped > 0);
    // 5/(1+5) of full scale, truncated.
    assert_eq!(shaped, (5 * UNIT as i64 * UNIT as i64) / (6 * UNIT as i64));
    let negative = soft_clip(-five);
    assert_eq!(negative, -shaped);
    assert_eq!(soft_clip(0), 0);
}

#[test]
fn stack_mode_stays_inside_full_scale_for_hot_input() {
    let mut mixer = Mixer::new();
    mixer.set_mode(MixMode::Stack);
    mixer.set_master_volume(UNIT);
    let input = vec![5 * UNIT as i64, -(5 * UNIT as i64), 0];
    let mut output = vec![0i64; 3];
    mixer.mix(&input, &mut output);
    for &v in output.iter() {
        assert!(-(UNIT as i64) < v && v < UNIT as i64);
    }
    assert!(output[0] > 0);
    assert!(output[1] < 0);
    assert_eq!(output[2], 0);
}

#[test]
fn poly_at_unity_volume_is_exact_addition() {
    let mut mixer = Mixer::new();
    mixer.set_master_volume(UNIT);
    let input = vec![123456, -654321];
    let mut output = vec![10, 20];
    mixer.mix(&input, &mut output);
    assert_eq!(output, vec![123466, -654301]);
}

#[test]
fn rotate_is_pass_through_like_poly() {
    let mut mixer = Mixer::new();
    mixer.set_mode(MixMode::Rotate);
    mixer.set_master_volume(UNIT);
    let input = vec![777];
    let mut output = vec![0i64];
    mixer.mix(&input, &mut output);
    assert_eq!(output, vec![777]);
}

#[test]
fn master_volume_is_clamped_and_scales() {
    let mut mixer = Mixer::new();
    mixer.set_master_volume(UNIT * 3);
    assert_eq!(mixer.master_volume, UNIT);
    mixer.set_master_volume(UNIT / 2);
    let input = vec![1000i64];
    let mut output = vec![0i64];
    mixer.mix(&input, &mut output);
    assert_eq!(output, vec![500]);
}

#[test]
fn blur_blends_seven_tenths_new_against_buffer() {
    let mut mixer = Mixer::new();
    mixer.set_mode(MixMode::Blur { crossfade_ms: 1 });
    assert_eq!(mixer.blur_buffer.len(), 48);
    mixer.set_master_volume(UNIT);
    let input = vec![1_000_000i64];
    let mut output = vec![0i64];
    mixer.mix(&input, &mut output);
    // Fresh buffer: the blend is seven tenths of the input.
    assert_eq!(output, vec![700_000]);
    assert_eq!(mixer.blur_buffer[0], 700_000);
    assert_eq!(mixer.blur_position, 1);
}

#[test]
fn blur_window_resize_is_lossy_but_safe() {
    let mut mixer = Mixer::new();
    mixer.set_mode(MixMode::Blur { crossfade_ms: 2 });
    assert_eq!(mixer.blur_buffer.len(), 96);
    mixer.set_mode(MixMode::Blur { crossfade_ms: 1 });
    assert_eq!(mixer.blur_buffer.len(), 48);
    // A zero-length window degrades to plain adding instead of failing.
    mixer.set_mode(MixMode::Blur { crossfade_ms: 0 });
    assert_eq!(mixer.blur_buffer.len(), 0);
    mixer.set_master_volume(UNIT);
    let input = vec![42i64];
    let mut output = vec![0i64];
    mixer.mix(&input, &mut output);
    assert_eq!(output, vec![42]);
}
