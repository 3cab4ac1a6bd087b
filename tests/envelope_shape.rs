use piano_code::envelope::{buffer_len, envelope_gain, envelope_scale};

#[test]
fn buffer_length_rounds_to_nearest() {
    assert_eq!(buffer_len(44100, 1000), 44100);
    assert_eq!(buffer_len(44100, 800), 35280);
    assert_eq!(buffer_len(44101, 500), 22051);
    assert_eq!(buffer_len(44099, 500), 22050);
    assert_eq!(buffer_len(0, 500), 0);
    assert_eq!(buffer_len(44100, 0), 0);
    assert_eq!(buffer_len(u32::MAX, u32::MAX), ((u32::MAX as u64) * (u32::MAX as u64) + 500) / 1000);
}

#[test]
fn envelope_starts_at_zero() {
    assert_eq!(envelope_gain(0, 44100, 1000), 0);
}

#[test]
fn envelope_peaks_after_attack() {
    // t = 0.1 s
    assert_eq!(envelope_gain(4410, 44100, 1000), envelope_scale(44100, 1000));
}

#[test]
fn envelope_sustains_at_seven_tenths() {
    let den = envelope_scale(44100, 1000);
    for i in [13230u64, 20000, 30869] {
        assert_eq!(envelope_gain(i, 44100, 1000) * 10, den * 7);
    }
}

#[test]
fn envelope_exact_values() {
    // 1 s at 1000 Hz: denominator 300 * 1000 * 1000
    let den = envelope_scale(1000, 1000);
    assert_eq!(den, 300_000_000);
    // attack half way (t = 0.05): gain 0.5
    assert_eq!(envelope_gain(50, 1000, 1000) * 2, den);
    // decay half way (t = 0.2): gain 0.85
    assert_eq!(envelope_gain(200, 1000, 1000) * 100, den * 85);
    // release half way (t = 0.85): gain 0.35
    assert_eq!(envelope_gain(850, 1000, 1000) * 100, den * 35);
    // last sample (t = 0.999)
    assert_eq!(envelope_gain(999, 1000, 1000) * 3000, den * 7);
}

#[test]
fn envelope_is_continuous_as_float() {
    let sr = 44100u32;
    let den = envelope_scale(sr, 1000) as f64;
    let len = buffer_len(sr, 1000);
    let mut prev = 0.0f64;
    for i in 0..len {
        let g = envelope_gain(i, sr, 1000) as f64 / den;
        assert!((0.0..=1.0).contains(&g));
        assert!((g - prev).abs() < 0.001, "jump at {}", i);
        prev = g;
    }
}

#[test]
fn short_note_goes_from_decay_to_release() {
    // 0.4 s: release starts at 0.28 s, before the decay ends at 0.3 s.
    let den = envelope_scale(1000, 400);
    assert_eq!(envelope_gain(299, 1000, 400) * 10000, den * 7015);
    // t = 0.3: release formula 0.7 * (1 - 0.02 / 0.12)
    assert_eq!(envelope_gain(300, 1000, 400) * 12, den * 7);
}
