//! The waveform synthesizer: what one note's buffer is made of.
//!
//! A rendered note is described exactly by a [`NotePlan`]. Its fundamental
//! is `base_centi_hz / 100 * 2^(semitones / 12)` hertz; sample `i` (at
//! `i / sample_rate` seconds) is the sum of the instrument's partials at that
//! time, scaled by `sample_gain(i) / gain_scale()`, which is the envelope
//! gain times the volume.
use vstd::prelude::*;
use crate::basetone::{Basetone, centi_hz_of};
use crate::envelope::{buffer_len, buffer_len_spec, envelope_den, envelope_gain, envelope_num, envelope_scale};
use crate::instrument::{Instrument, Partial, partials_of};
use crate::pitch::{NOTE_COUNT, note_index, note_offset};

verus! {

/// The errors of configuration and rendering.
#[derive(Clone, Copy, Debug, PartialEq, Eq, Structural)]
pub enum SoundError {
    /// The instrument name is not one of the four timbres.
    InvalidInstrument,
    /// The basetone name is not one of the twelve pitch classes.
    InvalidBasetone,
    /// The note symbol is outside the vocabulary.
    UnknownNote,
}

impl SoundError {
    /// A human-readable message.
    pub fn message(&self) -> (r: &'static str)
        ensures
            r@.len() > 0,
    {
        proof {
            reveal_strlit("invalid instrument");
            reveal_strlit("invalid basetone");
            reveal_strlit("unknown note");
        }
        match self {
            SoundError::InvalidInstrument => "invalid instrument",
            SoundError::InvalidBasetone => "invalid basetone",
            SoundError::UnknownNote => "unknown note",
        }
    }
}

/// What every buffer of the cache is rendered from.
#[derive(Clone, Copy, Debug, PartialEq, Eq, Structural)]
pub struct PlaybackConfig {
    pub instrument: Instrument,
    pub basetone: Basetone,
    /// Volume in percent; 100 is full scale.
    pub volume_pct: u32,
    /// Note length in milliseconds.
    pub duration_ms: u32,
    /// Samples per second.
    pub sample_rate: u32,
}

/// Exact description of one rendered note.
#[derive(Clone, Copy, Debug, PartialEq, Eq, Structural)]
pub struct NotePlan {
    /// Position of the note in the vocabulary.
    pub note: usize,
    /// Semitones above the basetone.
    pub semitones: i32,
    /// Basetone frequency in hundredths of a hertz.
    pub base_centi_hz: u32,
    pub instrument: Instrument,
    pub volume_pct: u32,
    pub duration_ms: u32,
    pub sample_rate: u32,
    /// Number of samples.
    pub len: u64,
}

/// The plan of the `k`-th vocabulary note under `cfg`.
pub open spec fn plan_spec(cfg: PlaybackConfig, k: int) -> NotePlan {
    NotePlan {
        note: k as usize,
        semitones: (k - 12) as i32,
        base_centi_hz: centi_hz_of(cfg.basetone) as u32,
        instrument: cfg.instrument,
        volume_pct: cfg.volume_pct,
        duration_ms: cfg.duration_ms,
        sample_rate: cfg.sample_rate,
        len: buffer_len_spec(cfg.sample_rate as int, cfg.duration_ms as int) as u64,
    }
}

/// The plan of the note with symbol `s` (in the vocabulary) under `cfg`.
pub open spec fn plan_for(cfg: PlaybackConfig, s: Seq<char>) -> NotePlan {
    plan_spec(cfg, note_offset(s).unwrap() + 12)
}

/// Numerator of the gain of sample `i` of `p` (envelope times volume).
pub open spec fn sample_gain_spec(p: NotePlan, i: int) -> int {
    envelope_num(i, p.duration_ms as int, p.sample_rate as int) * p.volume_pct
}

/// Denominator of every sample gain of `p`.
pub open spec fn gain_scale_spec(p: NotePlan) -> int {
    envelope_den(p.duration_ms as int, p.sample_rate as int) * 100
}

/// Renders the note `note` under `cfg`; fails with `UnknownNote` exactly when
/// the symbol is outside the vocabulary.
pub fn render(note: &str, cfg: &PlaybackConfig) -> (r: Result<NotePlan, SoundError>)
    ensures
        r is Ok <==> note_offset(note@) is Some,
        r is Err ==> r == Err::<NotePlan, SoundError>(SoundError::UnknownNote),
        r matches Ok(p) ==> p == plan_for(*cfg, note@),
        r matches Ok(p) ==> p.len == buffer_len_spec(cfg.sample_rate as int, cfg.duration_ms as int),
{
    match note_index(note) {
        Some(k) => Ok(render_index(k, cfg)),
        None => Err(SoundError::UnknownNote),
    }
}

/// Renders the `k`-th vocabulary note under `cfg`.
pub fn render_index(k: usize, cfg: &PlaybackConfig) -> (r: NotePlan)
    requires
        k < NOTE_COUNT,
    ensures
        r == plan_spec(*cfg, k as int),
        r.len == buffer_len_spec(cfg.sample_rate as int, cfg.duration_ms as int),
{
    NotePlan {
        note: k,
        semitones: k as i32 - 12,
        base_centi_hz: cfg.basetone.centi_hz(),
        instrument: cfg.instrument,
        volume_pct: cfg.volume_pct,
        duration_ms: cfg.duration_ms,
        sample_rate: cfg.sample_rate,
        len: buffer_len(cfg.sample_rate, cfg.duration_ms),
    }
}

impl NotePlan {
    /// Numerator of the gain of sample `i`; the denominator is `gain_scale()`.
    pub fn sample_gain(&self, i: u64) -> (r: u128)
        requires
            i < buffer_len_spec(self.sample_rate as int, self.duration_ms as int),
        ensures
            r == sample_gain_spec(*self, i as int),
    {
        let e = envelope_gain(i, self.sample_rate, self.duration_ms);
        proof {
            let d = envelope_den(self.duration_ms as int, self.sample_rate as int);
            assert(d <= 300 * 0xffff_fffe_0000_0001int) by (nonlinear_arith)
                requires
                    d == 300 * (self.duration_ms as int) * (self.sample_rate as int),
                    0 <= self.duration_ms <= 0xffff_ffff,
                    0 <= self.sample_rate <= 0xffff_ffff,
            ;
            assert(e * self.volume_pct <= 300 * 0xffff_fffe_0000_0001int * 0xffff_ffff)
                by (nonlinear_arith)
                requires
                    e <= 300 * 0xffff_fffe_0000_0001int,
                    0 <= self.volume_pct <= 0xffff_ffff,
                    e >= 0,
            ;
        }
        e * (self.volume_pct as u128)
    }

    /// Denominator of every sample gain.
    pub fn gain_scale(&self) -> (r: u128)
        ensures
            r == gain_scale_spec(*self),
    {
        let d = envelope_scale(self.sample_rate, self.duration_ms);
        proof {
            assert(d <= 300 * 0xffff_fffe_0000_0001int) by (nonlinear_arith)
                requires
                    d == 300 * (self.duration_ms as int) * (self.sample_rate as int),
                    0 <= self.duration_ms <= 0xffff_ffff,
                    0 <= self.sample_rate <= 0xffff_ffff,
            ;
        }
        d * 100
    }

    /// The partials of the plan's instrument.
    pub fn partials(&self) -> (r: Vec<Partial>)
        ensures
            r@ == partials_of(self.instrument),
    {
        self.instrument.partials()
    }
}

/// Octaves at basetone C: note `1` sounds the basetone itself (261.63 Hz,
/// offset 0), `^1` sounds 12 semitones higher (twice the frequency) and `.1`
/// 12 semitones lower (half the frequency), all on the same base frequency.
pub proof fn lemma_octave_frequencies(cfg: PlaybackConfig)
    requires
        cfg.basetone == Basetone::C,
    ensures
        plan_for(cfg, seq!['1']).base_centi_hz == 26163,
        plan_for(cfg, seq!['1']).semitones == 0,
        plan_for(cfg, seq!['^', '1']).base_centi_hz == 26163,
        plan_for(cfg, seq!['^', '1']).semitones == 12,
        plan_for(cfg, seq!['.', '1']).base_centi_hz == 26163,
        plan_for(cfg, seq!['.', '1']).semitones == -12,
{
    assert(seq!['^', '1'].drop_first() =~= seq!['1']);
    assert(seq!['.', '1'].drop_first() =~= seq!['1']);
}

} // verus!
