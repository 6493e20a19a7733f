use audio_host::LevelMeter;

#[test]
fn test_level_meter() {
    let mut meter = LevelMeter::new();

    meter.update(0.5f32.to_bits(), 0.8f32.to_bits());

    let (left_bits, right_bits) = meter.take_peak_bits();
    let left = f32::from_bits(left_bits);
    let right = f32::from_bits(right_bits);
    assert!((left - 0.5).abs() < 0.001);
    assert!((right - 0.8).abs() < 0.001);

    let (left_bits, right_bits) = meter.take_peak_bits();
    let left = f32::from_bits(left_bits);
    let right = f32::from_bits(right_bits);
    assert_eq!(left, 0.0);
    assert_eq!(right, 0.0);
}

#[test]
fn test_peak_is_running_max() {
    let mut meter = LevelMeter::new();
    meter.update(0.1f32.to_bits(), 0.2f32.to_bits());
    meter.update((-0.9f32).to_bits(), 0.05f32.to_bits());
    meter.update(0.4f32.to_bits(), (-0.3f32).to_bits());

    let (left_bits, right_bits) = meter.take_peak_bits();
    assert_eq!(f32::from_bits(left_bits), 0.9);
    assert_eq!(f32::from_bits(right_bits), 0.3);

    // A second consecutive read yields the silence floor.
    let (left_bits, right_bits) = meter.take_peak_bits();
    assert_eq!(left_bits, 0);
    assert_eq!(right_bits, 0);
}

#[test]
fn test_process_buffer_pairs() {
    let mut meter = LevelMeter::new();
    let samples: Vec<u32> = vec![
        0.1f32.to_bits(),
        0.9f32.to_bits(),
        (-0.5f32).to_bits(),
        0.2f32.to_bits(),
        // Trailing odd sample: ignored even though it is the largest.
        0.95f32.to_bits(),
    ];
    meter.process_buffer(&samples);
    let (left_bits, right_bits) = meter.take_peak_bits();
    assert_eq!(f32::from_bits(left_bits), 0.5);
    assert_eq!(f32::from_bits(right_bits), 0.9);
}
