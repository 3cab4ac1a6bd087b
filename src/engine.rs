//! The monophonic engine: configuration, waveform cache and the one voice.
//!
//! The engine decides; the audio device is driven by its caller. When
//! `play_note` returns `Some(k)` the caller halts the output and starts the
//! `k`-th cached buffer; `stop` halts the output.
use vstd::prelude::*;
use crate::basetone::{
    Basetone, base_frequencies, basetone_at, basetone_name, basetone_named, centi_hz_of,
};
use crate::cache::{WaveformCache, cache_spec};
use crate::instrument::{Instrument, instrument_name, instrument_named, instrument_names, instrument_order};
use crate::pitch::{NOTE_COUNT, note_index, note_offset};
use crate::synth::{NotePlan, PlaybackConfig, SoundError};

verus! {

/// Sample rate used when none is given.
pub const DEFAULT_SAMPLE_RATE: u32 = 44100;

/// Note length in milliseconds used when none is given.
pub const DEFAULT_DURATION_MS: u32 = 800;

/// Volume in percent used when none is given.
pub const DEFAULT_VOLUME_PCT: u32 = 70;

/// Lowest volume in percent.
pub const MIN_VOLUME_PCT: u32 = 0;

/// Highest volume in percent.
pub const MAX_VOLUME_PCT: u32 = 100;

/// Change of volume in percent of one `volume_up` or `volume_down`.
pub const VOLUME_STEP_PCT: u32 = 5;

/// `level` clamped to `[MIN_VOLUME_PCT, MAX_VOLUME_PCT]`.
pub open spec fn clamp_volume(level: int) -> int {
    if level < MIN_VOLUME_PCT {
        MIN_VOLUME_PCT as int
    } else if level > MAX_VOLUME_PCT {
        MAX_VOLUME_PCT as int
    } else {
        level
    }
}

/// The voice after a request to play `note` while it sounded `voice`: the
/// note's buffer for a vocabulary symbol, otherwise unchanged.
pub open spec fn play_step(voice: Option<usize>, note: Seq<char>) -> Option<usize> {
    match note_offset(note) {
        Some(o) => Some((o + 12) as usize),
        None => voice,
    }
}

/// The instrument chosen at construction: the named one, or piano when none
/// is named; `None` for an unknown name.
pub open spec fn chosen_instrument(name: Option<Seq<char>>) -> Option<Instrument> {
    match name {
        Some(s) => instrument_named(s),
        None => Some(Instrument::Piano),
    }
}

/// The basetone chosen at construction: the named one, or C when none is
/// named; `None` for an unknown name.
pub open spec fn chosen_basetone(name: Option<Seq<char>>) -> Option<Basetone> {
    match name {
        Some(s) => basetone_named(s),
        None => Some(Basetone::C),
    }
}

/// An optional string as optional characters.
pub open spec fn opt_view(o: Option<String>) -> Option<Seq<char>> {
    match o {
        Some(s) => Some(s@),
        None => None,
    }
}

/// The synthesis engine and its single output voice.
pub struct PianoSound {
    config: PlaybackConfig,
    cache: WaveformCache,
    voice: Option<usize>,
}

impl PianoSound {
    /// The current configuration.
    pub closed spec fn config_view(&self) -> PlaybackConfig {
        self.config
    }

    /// The cached plans, in vocabulary order.
    pub closed spec fn cache_view(&self) -> Seq<NotePlan> {
        self.cache.plans_view()
    }

    /// The configuration the cache was last built for. It differs from the
    /// current one at most in volume: a volume change alone does not rebuild.
    pub closed spec fn built_view(&self) -> PlaybackConfig {
        self.cache.config_view()
    }

    /// The vocabulary position of the buffer the voice sounds, if any.
    pub closed spec fn voice_view(&self) -> Option<usize> {
        self.voice
    }

    /// The cache covers the vocabulary for the built configuration, which
    /// matches the current one but for volume; the voice sounds a cached note.
    pub open spec fn wf(&self) -> bool {
        &&& self.cache_view() == cache_spec(self.built_view())
        &&& self.built_view().instrument == self.config_view().instrument
        &&& self.built_view().basetone == self.config_view().basetone
        &&& self.built_view().duration_ms == self.config_view().duration_ms
        &&& self.built_view().sample_rate == self.config_view().sample_rate
        &&& (self.voice_view() matches Some(k) ==> k < NOTE_COUNT)
    }

    /// Builds the engine from optional settings, with the defaults for those
    /// left out (44100 Hz, 800 ms, piano, C, 70 %), and renders the cache.
    /// Fails with `InvalidInstrument` or `InvalidBasetone` (checked in that
    /// order) on an unknown name.
    pub fn new(
        sample_rate: Option<u32>,
        duration_ms: Option<u32>,
        instrument: Option<String>,
        basetone: Option<String>,
        volume_pct: Option<u32>,
    ) -> (r: Result<PianoSound, SoundError>)
        ensures
            chosen_instrument(opt_view(instrument)) is None ==> r == Err::<PianoSound, SoundError>(
                SoundError::InvalidInstrument,
            ),
            chosen_instrument(opt_view(instrument)) is Some && chosen_basetone(opt_view(basetone))
                is None ==> r == Err::<PianoSound, SoundError>(SoundError::InvalidBasetone),
            chosen_instrument(opt_view(instrument)) is Some && chosen_basetone(opt_view(basetone))
                is Some ==> r is Ok,
            r matches Ok(e) ==> {
                &&& e.wf()
                &&& e.config_view() == (PlaybackConfig {
                    instrument: chosen_instrument(opt_view(instrument)).unwrap(),
                    basetone: chosen_basetone(opt_view(basetone)).unwrap(),
                    volume_pct: volume_pct.unwrap_or(DEFAULT_VOLUME_PCT),
                    duration_ms: duration_ms.unwrap_or(DEFAULT_DURATION_MS),
                    sample_rate: sample_rate.unwrap_or(DEFAULT_SAMPLE_RATE),
                })
                &&& e.built_view() == e.config_view()
                &&& e.voice_view() is None
            },
    {
        let inst = match &instrument {
            Some(name) => Instrument::from_name(name.as_str()),
            None => Some(Instrument::Piano),
        };
        let inst = match inst {
            Some(i) => i,
            None => {
                return Err(SoundError::InvalidInstrument);
            },
        };
        let tone = match &basetone {
            Some(name) => Basetone::from_name(name.as_str()),
            None => Some(Basetone::C),
        };
        let tone = match tone {
            Some(b) => b,
            None => {
                return Err(SoundError::InvalidBasetone);
            },
        };
        let config = PlaybackConfig {
            instrument: inst,
            basetone: tone,
            volume_pct: match volume_pct {
                Some(v) => v,
                None => DEFAULT_VOLUME_PCT,
            },
            duration_ms: match duration_ms {
                Some(d) => d,
                None => DEFAULT_DURATION_MS,
            },
            sample_rate: match sample_rate {
                Some(s) => s,
                None => DEFAULT_SAMPLE_RATE,
            },
        };
        let cache = WaveformCache::build(config);
        Ok(PianoSound { config, cache, voice: None })
    }

    /// Requests `note`. For a vocabulary symbol the voice now sounds that
    /// note's buffer, whatever it sounded before, and its position is
    /// returned; any other symbol is ignored.
    pub fn play_note(&mut self, note: &str) -> (r: Option<usize>)
        requires
            old(self).wf(),
        ensures
            final(self).wf(),
            r == (match note_offset(note@) {
                Some(o) => Some((o + 12) as usize),
                None => None::<usize>,
            }),
            final(self).voice_view() == play_step(old(self).voice_view(), note@),
            final(self).config_view() == old(self).config_view(),
            final(self).built_view() == old(self).built_view(),
            final(self).cache_view() == old(self).cache_view(),
    {
        match note_index(note) {
            Some(k) => {
                self.voice = Some(k);
                Some(k)
            },
            None => None,
        }
    }

    /// Halts the voice; nothing changes when it is already idle.
    pub fn stop(&mut self)
        requires
            old(self).wf(),
        ensures
            final(self).wf(),
            final(self).voice_view() is None,
            final(self).config_view() == old(self).config_view(),
            final(self).built_view() == old(self).built_view(),
            final(self).cache_view() == old(self).cache_view(),
    {
        self.voice = None;
    }

    /// Switches to the instrument called `name` and rebuilds the cache.
    /// On an unknown name fails with `InvalidInstrument` and changes nothing.
    pub fn set_instrument(&mut self, name: &str) -> (r: Result<(), SoundError>)
        requires
            old(self).wf(),
        ensures
            final(self).wf(),
            r is Ok <==> instrument_named(name@) is Some,
            r is Err ==> r == Err::<(), SoundError>(SoundError::InvalidInstrument) && *final(self)
                == *old(self),
            r is Ok ==> {
                &&& final(self).config_view() == (PlaybackConfig {
                    instrument: instrument_named(name@).unwrap(),
                    ..old(self).config_view()
                })
                &&& final(self).built_view() == final(self).config_view()
                &&& final(self).voice_view() == old(self).voice_view()
            },
    {
        match Instrument::from_name(name) {
            Some(i) => {
                self.config.instrument = i;
                self.cache = WaveformCache::build(self.config);
                Ok(())
            },
            None => Err(SoundError::InvalidInstrument),
        }
    }

    /// Switches to the basetone called `name` and rebuilds the cache.
    /// On an unknown name fails with `InvalidBasetone` and changes nothing.
    pub fn set_basetone(&mut self, name: &str) -> (r: Result<(), SoundError>)
        requires
            old(self).wf(),
        ensures
            final(self).wf(),
            r is Ok <==> basetone_named(name@) is Some,
            r is Err ==> r == Err::<(), SoundError>(SoundError::InvalidBasetone) && *final(self)
                == *old(self),
            r is Ok ==> {
                &&& final(self).config_view() == (PlaybackConfig {
                    basetone: basetone_named(name@).unwrap(),
                    ..old(self).config_view()
                })
                &&& final(self).built_view() == final(self).config_view()
                &&& final(self).voice_view() == old(self).voice_view()
            },
    {
        match Basetone::from_name(name) {
            Some(b) => {
                self.config.basetone = b;
                self.cache = WaveformCache::build(self.config);
                Ok(())
            },
            None => Err(SoundError::InvalidBasetone),
        }
    }

    /// Sets the volume to `level` percent clamped to `[0, 100]`. The cache
    /// is not rebuilt: the new volume is heard from the next rebuild on.
    pub fn set_volume(&mut self, level: i64)
        requires
            old(self).wf(),
        ensures
            final(self).wf(),
            final(self).config_view() == (PlaybackConfig {
                volume_pct: clamp_volume(level as int) as u32,
                ..old(self).config_view()
            }),
            final(self).built_view() == old(self).built_view(),
            final(self).cache_view() == old(self).cache_view(),
            final(self).voice_view() == old(self).voice_view(),
    {
        let v: u32 = if level < MIN_VOLUME_PCT as i64 {
            MIN_VOLUME_PCT
        } else if level > MAX_VOLUME_PCT as i64 {
            MAX_VOLUME_PCT
        } else {
            level as u32
        };
        self.config.volume_pct = v;
    }

    /// Raises the volume by one step, clamped.
    pub fn volume_up(&mut self)
        requires
            old(self).wf(),
        ensures
            final(self).wf(),
            final(self).config_view() == (PlaybackConfig {
                volume_pct: clamp_volume(old(self).config_view().volume_pct + VOLUME_STEP_PCT) as u32,
                ..old(self).config_view()
            }),
            final(self).built_view() == old(self).built_view(),
            final(self).cache_view() == old(self).cache_view(),
            final(self).voice_view() == old(self).voice_view(),
    {
        let level = self.config.volume_pct as i64 + VOLUME_STEP_PCT as i64;
        self.set_volume(level);
    }

    /// Lowers the volume by one step, clamped.
    pub fn volume_down(&mut self)
        requires
            old(self).wf(),
        ensures
            final(self).wf(),
            final(self).config_view() == (PlaybackConfig {
                volume_pct: clamp_volume(old(self).config_view().volume_pct - VOLUME_STEP_PCT) as u32,
                ..old(self).config_view()
            }),
            final(self).built_view() == old(self).built_view(),
            final(self).cache_view() == old(self).cache_view(),
            final(self).voice_view() == old(self).voice_view(),
    {
        let level = self.config.volume_pct as i64 - VOLUME_STEP_PCT as i64;
        self.set_volume(level);
    }

    /// The names of the four instruments, in listing order.
    pub fn get_instruments(&self) -> (r: Vec<String>)
        ensures
            r@.len() == 4,
            forall|k: int| 0 <= k < 4 ==> (#[trigger] r@[k])@ == instrument_name(instrument_order()[k]),
    {
        instrument_names()
    }

    /// The basetones with their frequencies in hundredths of a hertz, in
    /// chromatic order from C.
    pub fn get_base_frequencies(&self) -> (r: Vec<(String, u32)>)
        ensures
            r@.len() == 12,
            forall|k: int|
                0 <= k < 12 ==> (#[trigger] r@[k]).0@ == basetone_name(basetone_at(k)) && r@[k].1
                    == centi_hz_of(basetone_at(k)),
    {
        base_frequencies()
    }

    /// The current configuration.
    pub fn config(&self) -> (r: PlaybackConfig)
        ensures
            r == self.config_view(),
    {
        self.config
    }

    /// The waveform cache.
    pub fn cache(&self) -> (r: &WaveformCache)
        requires
            self.wf(),
        ensures
            r.wf(),
            r.config_view() == self.built_view(),
            r.plans_view() == self.cache_view(),
    {
        &self.cache
    }

    /// The vocabulary position of the buffer the voice sounds, if any.
    pub fn voice(&self) -> (r: Option<usize>)
        ensures
            r == self.voice_view(),
    {
        self.voice
    }
}

/// Monophony: after requests for `a` and then for a vocabulary note `b`, the
/// voice sounds `b`'s buffer and nothing else, whatever it sounded before.
pub proof fn lemma_monophonic(voice: Option<usize>, a: Seq<char>, b: Seq<char>)
    requires
        note_offset(b) is Some,
    ensures
        play_step(play_step(voice, a), b) == Some((note_offset(b).unwrap() + 12) as usize),
{
}

} // verus!
