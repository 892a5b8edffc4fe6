use spoke_voice::frames::{apply_mute, build_frame};

#[test]
fn muted_batch_is_all_zero_with_same_length() {
    let samples: Vec<i16> = (0..480).map(|i| (i as i16) - 240).collect();
    let out = apply_mute(samples.clone(), true);
    assert_eq!(out.len(), samples.len());
    assert!(out.iter().all(|&s| s == 0));
}

#[test]
fn unmuted_batch_passes_through_unchanged() {
    let samples: Vec<i16> = vec![5, -7, 32767, -32768, 0];
    let out = apply_mute(samples.clone(), false);
    assert_eq!(out, samples);
}

#[test]
fn mute_toggle_over_consecutive_buffers() {
    // One hardware buffer of 480 samples at 1 channel while muted gives
    // an outbound frame of 480 zero samples; after unmuting, the next
    // buffer reflects the real samples again.
    let samples: Vec<i16> = (0..480).map(|i| ((i * 13) % 200) as i16 + 1).collect();

    let muted_frame = build_frame(samples.clone(), true, 48_000, 1);
    assert_eq!(muted_frame.data.len(), 480);
    assert!(muted_frame.data.iter().all(|&s| s == 0));
    assert_eq!(muted_frame.sample_rate, 48_000);
    assert_eq!(muted_frame.num_channels, 1);
    assert_eq!(muted_frame.samples_per_channel, 480);

    let live_frame = build_frame(samples.clone(), false, 48_000, 1);
    assert_eq!(live_frame.data, samples);
    assert!(live_frame.data.iter().any(|&s| s != 0));
    assert_eq!(live_frame.samples_per_channel, 480);
}

#[test]
fn samples_per_channel_divides_by_channel_count() {
    let samples: Vec<i16> = vec![1; 480];
    let stereo = build_frame(samples.clone(), false, 44_100, 2);
    assert_eq!(stereo.samples_per_channel, 240);
    // A zero channel count falls back to a divisor of one.
    let odd = build_frame(samples, false, 44_100, 0);
    assert_eq!(odd.samples_per_channel, 480);
}
