use piano_code::basetone::Basetone;
use piano_code::cache::WaveformCache;
use piano_code::engine::PianoSound;
use piano_code::instrument::{Instrument, Partial};
use piano_code::synth::{render, PlaybackConfig, SoundError};

fn engine(instrument: &str, basetone: &str) -> PianoSound {
    PianoSound::new(Some(8000), Some(500), Some(instrument.to_string()), Some(basetone.to_string()), Some(70))
        .unwrap()
}

fn frequency_hz(base_centi_hz: u32, semitones: i32) -> f64 {
    base_centi_hz as f64 / 100.0 * 2f64.powf(semitones as f64 / 12.0)
}

#[test]
fn defaults_are_applied() {
    let e = PianoSound::new(None, None, None, None, None).unwrap();
    let c = e.config();
    assert_eq!(c.sample_rate, 44100);
    assert_eq!(c.duration_ms, 800);
    assert_eq!(c.instrument, Instrument::Piano);
    assert_eq!(c.basetone, Basetone::C);
    assert_eq!(c.volume_pct, 70);
    assert_eq!(e.voice(), None);
    assert_eq!(e.cache().len(), 36);
    assert_eq!(e.cache().plan(0).len, 35280);
}

#[test]
fn construction_rejects_unknown_names() {
    let r = PianoSound::new(None, None, Some("kazoo".to_string()), Some("H".to_string()), None);
    assert_eq!(r.err(), Some(SoundError::InvalidInstrument));
    let r = PianoSound::new(None, None, Some("violin".to_string()), Some("H".to_string()), None);
    assert_eq!(r.err(), Some(SoundError::InvalidBasetone));
    let r = PianoSound::new(None, None, None, Some("c".to_string()), None);
    assert_eq!(r.err(), Some(SoundError::InvalidBasetone));
}

#[test]
fn render_length_matches_configuration() {
    for (sr, ms, len) in [(44100u32, 800u32, 35280u64), (48000, 100, 4800), (22050, 10000, 220500), (44100, 333, 14685)] {
        let cfg = PlaybackConfig {
            instrument: Instrument::Violin,
            basetone: Basetone::G,
            volume_pct: 40,
            duration_ms: ms,
            sample_rate: sr,
        };
        let p = render("^#2", &cfg).unwrap();
        assert_eq!(p.len, len);
        assert_eq!(p.semitones, 15);
        assert_eq!(p.base_centi_hz, 39200);
    }
}

#[test]
fn render_rejects_unknown_note() {
    let cfg = PlaybackConfig {
        instrument: Instrument::Piano,
        basetone: Basetone::C,
        volume_pct: 70,
        duration_ms: 800,
        sample_rate: 44100,
    };
    assert_eq!(render("9", &cfg).err(), Some(SoundError::UnknownNote));
}

#[test]
fn octave_frequencies_at_c() {
    let cfg = PlaybackConfig {
        instrument: Instrument::Piano,
        basetone: Basetone::C,
        volume_pct: 70,
        duration_ms: 800,
        sample_rate: 44100,
    };
    let one = render("1", &cfg).unwrap();
    let high = render("^1", &cfg).unwrap();
    let low = render(".1", &cfg).unwrap();
    assert_eq!((one.base_centi_hz, one.semitones), (26163, 0));
    assert_eq!((high.base_centi_hz, high.semitones), (26163, 12));
    assert_eq!((low.base_centi_hz, low.semitones), (26163, -12));
    assert!((frequency_hz(one.base_centi_hz, one.semitones) - 261.63).abs() < 1e-9);
    assert!((frequency_hz(high.base_centi_hz, high.semitones) - 523.26).abs() < 1e-9);
    assert!((frequency_hz(low.base_centi_hz, low.semitones) - 130.815).abs() < 1e-9);
}

#[test]
fn second_note_replaces_first() {
    let mut e = engine("piano", "C");
    assert_eq!(e.play_note("3"), Some(16));
    assert_eq!(e.voice(), Some(16));
    assert_eq!(e.play_note(".5"), Some(7));
    assert_eq!(e.voice(), Some(7));
}

#[test]
fn unknown_note_is_ignored() {
    let mut e = engine("piano", "C");
    e.play_note("2");
    assert_eq!(e.play_note("zz"), None);
    assert_eq!(e.voice(), Some(14));
}

#[test]
fn stop_silences_and_is_idempotent() {
    let mut e = engine("piano", "C");
    e.stop();
    assert_eq!(e.voice(), None);
    e.play_note("1");
    e.stop();
    assert_eq!(e.voice(), None);
    e.stop();
    assert_eq!(e.voice(), None);
}

#[test]
fn invalid_instrument_changes_nothing() {
    let mut e = engine("violin", "D");
    e.play_note("4");
    let before = e.config();
    let plans_before: Vec<_> = (0..36).map(|k| *e.cache().plan(k)).collect();
    assert_eq!(e.set_instrument("kazoo"), Err(SoundError::InvalidInstrument));
    assert_eq!(e.config(), before);
    let plans_after: Vec<_> = (0..36).map(|k| *e.cache().plan(k)).collect();
    assert_eq!(plans_before, plans_after);
    assert_eq!(e.cache().plan(17).instrument, Instrument::Violin);
    assert_eq!(e.voice(), Some(17));
}

#[test]
fn invalid_basetone_changes_nothing() {
    let mut e = engine("violin", "D");
    let before = e.config();
    assert_eq!(e.set_basetone("X#"), Err(SoundError::InvalidBasetone));
    assert_eq!(e.config(), before);
    assert_eq!(e.cache().plan(0).base_centi_hz, 29366);
}

#[test]
fn setters_rebuild_the_cache() {
    let mut e = engine("piano", "C");
    assert_eq!(e.set_instrument("saxophone"), Ok(()));
    assert_eq!(e.cache().plan(5).instrument, Instrument::Saxophone);
    assert_eq!(e.set_basetone("F#"), Ok(()));
    assert_eq!(e.cache().plan(5).base_centi_hz, 36999);
    assert_eq!(e.cache().config(), e.config());
}

#[test]
fn volume_clamps_and_steps() {
    let mut e = engine("piano", "C");
    e.set_volume(150);
    assert_eq!(e.config().volume_pct, 100);
    e.volume_up();
    assert_eq!(e.config().volume_pct, 100);
    e.set_volume(-3);
    assert_eq!(e.config().volume_pct, 0);
    e.volume_down();
    assert_eq!(e.config().volume_pct, 0);
    e.volume_up();
    assert_eq!(e.config().volume_pct, 5);
    e.set_volume(42);
    e.volume_down();
    assert_eq!(e.config().volume_pct, 37);
}

#[test]
fn volume_change_waits_for_next_rebuild() {
    let mut e = engine("piano", "C");
    e.set_volume(20);
    assert_eq!(e.cache().plan(12).volume_pct, 70);
    e.set_instrument("guitar").unwrap();
    assert_eq!(e.cache().plan(12).volume_pct, 20);
}

#[test]
fn rebuild_is_deterministic() {
    let cfg = PlaybackConfig {
        instrument: Instrument::Guitar,
        basetone: Basetone::ASharp,
        volume_pct: 55,
        duration_ms: 1200,
        sample_rate: 48000,
    };
    let a = WaveformCache::build(cfg);
    let b = WaveformCache::build(cfg);
    for k in 0..36 {
        assert_eq!(a.plan(k), b.plan(k));
        let p = a.plan(k);
        for i in [0u64, 1, 4800, 30000, p.len - 1] {
            assert_eq!(p.sample_gain(i), b.plan(k).sample_gain(i));
        }
    }
}

#[test]
fn lookup_covers_vocabulary_only() {
    let e = engine("piano", "E");
    assert_eq!(e.cache().lookup("^#6").unwrap().note, 34);
    assert!(e.cache().lookup("^#7").is_none());
}

#[test]
fn guitar_in_a_scenario() {
    let mut e = PianoSound::new(Some(44100), Some(1000), Some("guitar".to_string()), Some("A".to_string()), Some(50))
        .unwrap();
    let k = e.play_note("1").unwrap();
    let p = *e.cache().plan(k);
    assert_eq!(p.len, 44100);
    assert_eq!(p.sample_gain(0), 0);
    assert!((frequency_hz(p.base_centi_hz, p.semitones) - 440.0).abs() < 1e-9);
    let partials = p.partials();
    assert_eq!(
        partials,
        vec![
            Partial { ratio_num: 1, ratio_den: 1, amp_pct: 100 },
            Partial { ratio_num: 3, ratio_den: 2, amp_pct: 30 },
            Partial { ratio_num: 2, ratio_den: 1, amp_pct: 20 },
        ]
    );
    let freqs: Vec<f64> = partials.iter().map(|q| 440.0 * q.ratio_num as f64 / q.ratio_den as f64).collect();
    assert_eq!(freqs, vec![440.0, 660.0, 880.0]);
    // full gain after the attack is half scale at 50 % volume
    assert_eq!(p.sample_gain(4410) * 2, p.gain_scale());
}

#[test]
fn instrument_and_basetone_lists() {
    let e = engine("piano", "C");
    assert_eq!(e.get_instruments(), vec!["piano", "guitar", "saxophone", "violin"]);
    let f = e.get_base_frequencies();
    assert_eq!(f.len(), 12);
    assert_eq!(f[0], ("C".to_string(), 26163));
    assert_eq!(f[9], ("A".to_string(), 44000));
    assert_eq!(f[11], ("B".to_string(), 49388));
}

#[test]
fn names_round_trip() {
    for name in ["piano", "guitar", "saxophone", "violin"] {
        assert_eq!(Instrument::from_name(name).unwrap().name(), name);
    }
    for k in 0..12 {
        let b = Basetone::from_index(k);
        assert_eq!(Basetone::from_name(b.name()), Some(b));
        assert_eq!(b.index(), k);
    }
    assert_eq!(Instrument::from_name("Piano"), None);
}

#[test]
fn error_messages() {
    assert_eq!(SoundError::InvalidInstrument.message(), "invalid instrument");
    assert_eq!(SoundError::UnknownNote.message(), "unknown note");
}
