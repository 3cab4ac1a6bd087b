//! Fixed settings, the keyboard layout model and solfege names.
use vstd::prelude::*;
use crate::basetone::{base_frequencies, basetone_at, basetone_name, centi_hz_of};
use crate::engine::{
    DEFAULT_DURATION_MS, DEFAULT_SAMPLE_RATE, DEFAULT_VOLUME_PCT, MAX_VOLUME_PCT, MIN_VOLUME_PCT,
    VOLUME_STEP_PCT,
};
use crate::text::{contains_chars, str_contains, str_eq};

verus! {

/// Audio settings. Durations are in milliseconds, volumes in percent.
#[derive(Clone, Debug)]
pub struct AudioConfig {
    pub default_sample_rate: u32,
    pub fallback_sample_rates: Vec<u32>,
    pub buffer_sizes: Vec<u32>,
    pub default_buffer_size: u32,
    pub chunk_size: u32,
    pub default_duration_ms: u32,
    pub gui_duration_ms: u32,
    pub min_duration_ms: u32,
    pub max_duration_ms: u32,
    pub default_volume_pct: u32,
    pub min_volume_pct: u32,
    pub max_volume_pct: u32,
    pub volume_step_pct: u32,
    pub max_stream_errors: u32,
    pub stream_timeout_ms: u32,
    pub max_lru_cache_size: usize,
}

impl Default for AudioConfig {
    fn default() -> (r: Self)
        ensures
            r.default_sample_rate == 44100,
            r.fallback_sample_rates@ == seq![44100u32, 22050, 48000],
            r.buffer_sizes@ == seq![512u32, 1024, 2048, 4096],
            r.default_buffer_size == 1024,
            r.chunk_size == 2048,
            r.default_duration_ms == 1000,
            r.gui_duration_ms == 800,
            r.min_duration_ms == 100,
            r.max_duration_ms == 10000,
            r.default_volume_pct == 70,
            r.min_volume_pct == 0,
            r.max_volume_pct == 100,
            r.volume_step_pct == 5,
            r.max_stream_errors == 3,
            r.stream_timeout_ms == 100,
            r.max_lru_cache_size == 200,
    {
        let fallback_sample_rates: Vec<u32> = vec![44100, 22050, 48000];
        let buffer_sizes: Vec<u32> = vec![512, 1024, 2048, 4096];
        assert(fallback_sample_rates@ =~= seq![44100u32, 22050, 48000]);
        assert(buffer_sizes@ =~= seq![512u32, 1024, 2048, 4096]);
        AudioConfig {
            default_sample_rate: DEFAULT_SAMPLE_RATE,
            fallback_sample_rates,
            buffer_sizes,
            default_buffer_size: 1024,
            chunk_size: 2048,
            default_duration_ms: 1000,
            gui_duration_ms: DEFAULT_DURATION_MS,
            min_duration_ms: 100,
            max_duration_ms: 10000,
            default_volume_pct: DEFAULT_VOLUME_PCT,
            min_volume_pct: MIN_VOLUME_PCT,
            max_volume_pct: MAX_VOLUME_PCT,
            volume_step_pct: VOLUME_STEP_PCT,
            max_stream_errors: 3,
            stream_timeout_ms: 100,
            max_lru_cache_size: 200,
        }
    }
}

/// A window size in pixels.
#[derive(Clone, Copy, Debug, PartialEq, Eq, Structural)]
pub struct WindowSize {
    pub width: u32,
    pub height: u32,
}

/// Window settings: sizes in pixels, durations in milliseconds.
#[derive(Clone, Debug)]
pub struct GuiConfig {
    pub default_window_size: WindowSize,
    pub min_window_size: WindowSize,
    pub status_message_duration: u64,
    pub key_highlight_duration: u64,
}

impl Default for GuiConfig {
    fn default() -> (r: Self)
        ensures
            r.default_window_size == (WindowSize { width: 900, height: 650 }),
            r.min_window_size == (WindowSize { width: 800, height: 500 }),
            r.status_message_duration == 2000,
            r.key_highlight_duration == 150,
    {
        GuiConfig {
            default_window_size: WindowSize { width: 900, height: 650 },
            min_window_size: WindowSize { width: 800, height: 500 },
            status_message_duration: 2000,
            key_highlight_duration: 150,
        }
    }
}

/// Musical defaults and the basetone frequencies in hundredths of a hertz.
#[derive(Clone, Debug)]
pub struct MusicConfig {
    pub default_instrument: String,
    pub default_basetone: String,
    pub base_frequencies: Vec<(String, u32)>,
}

impl Default for MusicConfig {
    fn default() -> (r: Self)
        ensures
            r.default_instrument@ == seq!['p', 'i', 'a', 'n', 'o'],
            r.default_basetone@ == seq!['C'],
            r.base_frequencies@.len() == 12,
            forall|k: int|
                0 <= k < 12 ==> (#[trigger] r.base_frequencies@[k]).0@ == basetone_name(
                    basetone_at(k),
                ) && r.base_frequencies@[k].1 == centi_hz_of(basetone_at(k)),
    {
        proof {
            reveal_strlit("piano");
            reveal_strlit("C");
        }
        assert("piano"@ =~= seq!['p', 'i', 'a', 'n', 'o']);
        assert("C"@ =~= seq!['C']);
        MusicConfig {
            default_instrument: "piano".to_owned(),
            default_basetone: "C".to_owned(),
            base_frequencies: base_frequencies(),
        }
    }
}

/// All settings.
#[derive(Clone, Debug)]
pub struct Config {
    pub audio: AudioConfig,
    pub gui: GuiConfig,
    pub music: MusicConfig,
}

impl Default for Config {
    fn default() -> (r: Self) {
        Config { audio: AudioConfig::default(), gui: GuiConfig::default(), music: MusicConfig::default() }
    }
}

/// A mapping from keyboard keys to note symbols.
#[derive(Clone, Debug)]
pub struct KeyboardLayout {
    pub title: String,
    pub description: Option<String>,
    /// Pairs of key and note symbol; each key occurs once.
    pub key_mappings: Vec<(String, String)>,
    pub basetone: Option<String>,
}

/// The mappings as pairs of character sequences.
pub open spec fn mappings_view(m: Seq<(String, String)>) -> Seq<(Seq<char>, Seq<char>)> {
    m.map_values(|p: (String, String)| (p.0@, p.1@))
}

/// The note mapped to `key` in `m`, if any (the first pair with that key).
pub open spec fn mapped_note(m: Seq<(Seq<char>, Seq<char>)>, key: Seq<char>) -> Option<Seq<char>>
    decreases m.len(),
{
    if m.len() == 0 {
        None
    } else if m[0].0 == key {
        Some(m[0].1)
    } else {
        mapped_note(m.drop_first(), key)
    }
}

/// The mappings of the default layout.
pub open spec fn default_mappings() -> Seq<(Seq<char>, Seq<char>)> {
    seq![
        (seq!['a'], seq!['.', '1']),
        (seq!['s'], seq!['.', '2']),
        (seq!['d'], seq!['.', '3']),
        (seq!['f'], seq!['.', '5']),
        (seq!['g'], seq!['.', '6']),
        (seq!['h'], seq!['1']),
        (seq!['j'], seq!['2']),
        (seq!['k'], seq!['3']),
        (seq!['l'], seq!['5']),
        (seq![';'], seq!['6'])
    ]
}

impl KeyboardLayout {
    /// Each key is mapped at most once.
    pub open spec fn wf(&self) -> bool {
        forall|i: int, j: int|
            0 <= i < j < self.key_mappings@.len() ==> #[trigger] self.key_mappings@[i].0@
                != #[trigger] self.key_mappings@[j].0@
    }

    /// The layout used when no other is available.
    pub fn create_default_layout() -> (r: Self)
        ensures
            r.wf(),
            r.title@ == seq!['D', 'e', 'f', 'a', 'u', 'l', 't', ' ', 'L', 'a', 'y', 'o', 'u', 't'],
            r.description matches Some(d) && d@ == seq![
                'D', 'e', 'f', 'a', 'u', 'l', 't', ' ', 'p', 'i', 'a', 'n', 'o', ' ', 'k', 'e',
                'y', ' ', 'm', 'a', 'p', 'p', 'i', 'n', 'g', 's'
            ],
            r.basetone matches Some(b) && b@ == seq!['C'],
            mappings_view(r.key_mappings@) == default_mappings(),
    {
        proof {
            reveal_strlit(".1");
            reveal_strlit(".2");
            reveal_strlit(".3");
            reveal_strlit(".5");
            reveal_strlit(".6");
            reveal_strlit("1");
            reveal_strlit("2");
            reveal_strlit("3");
            reveal_strlit("5");
            reveal_strlit("6");
            reveal_strlit(";");
            reveal_strlit("a");
            reveal_strlit("d");
            reveal_strlit("f");
            reveal_strlit("g");
            reveal_strlit("h");
            reveal_strlit("j");
            reveal_strlit("k");
            reveal_strlit("l");
            reveal_strlit("s");
            reveal_strlit("Default Layout");
            reveal_strlit("Default piano key mappings");
            reveal_strlit("C");
        }
        let mut key_mappings: Vec<(String, String)> = Vec::new();
        assert(".1"@ =~= seq!['.', '1']);
        assert(".2"@ =~= seq!['.', '2']);
        assert(".3"@ =~= seq!['.', '3']);
        assert(".5"@ =~= seq!['.', '5']);
        assert(".6"@ =~= seq!['.', '6']);
        assert("1"@ =~= seq!['1']);
        assert("2"@ =~= seq!['2']);
        assert("3"@ =~= seq!['3']);
        assert("5"@ =~= seq!['5']);
        assert("6"@ =~= seq!['6']);
        assert(";"@ =~= seq![';']);
        assert("a"@ =~= seq!['a']);
        assert("d"@ =~= seq!['d']);
        assert("f"@ =~= seq!['f']);
        assert("g"@ =~= seq!['g']);
        assert("h"@ =~= seq!['h']);
        assert("j"@ =~= seq!['j']);
        assert("k"@ =~= seq!['k']);
        assert("l"@ =~= seq!['l']);
        assert("s"@ =~= seq!['s']);
        key_mappings.push(("a".to_owned(), ".1".to_owned()));
        key_mappings.push(("s".to_owned(), ".2".to_owned()));
        key_mappings.push(("d".to_owned(), ".3".to_owned()));
        key_mappings.push(("f".to_owned(), ".5".to_owned()));
        key_mappings.push(("g".to_owned(), ".6".to_owned()));
        key_mappings.push(("h".to_owned(), "1".to_owned()));
        key_mappings.push(("j".to_owned(), "2".to_owned()));
        key_mappings.push(("k".to_owned(), "3".to_owned()));
        key_mappings.push(("l".to_owned(), "5".to_owned()));
        key_mappings.push((";".to_owned(), "6".to_owned()));
        assert(mappings_view(key_mappings@) =~= default_mappings());
        assert("Default Layout"@ =~= seq!['D', 'e', 'f', 'a', 'u', 'l', 't', ' ', 'L', 'a', 'y', 'o', 'u', 't']);
        assert("Default piano key mappings"@ =~= seq![
                'D', 'e', 'f', 'a', 'u', 'l', 't', ' ', 'p', 'i', 'a', 'n', 'o', ' ', 'k', 'e',
                'y', ' ', 'm', 'a', 'p', 'p', 'i', 'n', 'g', 's'
            ]);
        assert("C"@ =~= seq!['C']);
        let r = KeyboardLayout {
            title: "Default Layout".to_owned(),
            description: Some("Default piano key mappings".to_owned()),
            key_mappings,
            basetone: Some("C".to_owned()),
        };
        assert forall|i: int, j: int|
            0 <= i < j < r.key_mappings@.len() implies #[trigger] r.key_mappings@[i].0@
                != #[trigger] r.key_mappings@[j].0@ by {
            assert(mappings_view(r.key_mappings@)[i].0 == default_mappings()[i].0);
            assert(mappings_view(r.key_mappings@)[j].0 == default_mappings()[j].0);
            assert(default_mappings()[i].0[0] != default_mappings()[j].0[0]);
        }
        r
    }

    /// The note symbol mapped to `key`, if any.
    pub fn note_for_key(&self, key: &str) -> (r: Option<String>)
        ensures
            r matches Some(n) ==> mapped_note(mappings_view(self.key_mappings@), key@) == Some(n@),
            r is None ==> mapped_note(mappings_view(self.key_mappings@), key@) is None,
    {
        let ghost m = mappings_view(self.key_mappings@);
        let n = self.key_mappings.len();
        let mut k: usize = 0;
        assert(m.subrange(0, n as int) =~= m);
        while k < n
            invariant
                n == self.key_mappings@.len(),
                m == mappings_view(self.key_mappings@),
                k <= n,
                mapped_note(m, key@) == mapped_note(m.subrange(k as int, n as int), key@),
            decreases n - k,
        {
            assert(m.subrange(k as int, n as int).drop_first() =~= m.subrange(k + 1, n as int));
            if str_eq(self.key_mappings[k].0.as_str(), key) {
                return Some(self.key_mappings[k].1.clone());
            }
            k = k + 1;
        }
        None
    }
}

/// Whether a directory entry with this extension and file name holds a
/// layout: a `.json` file whose name contains `layout`.
pub fn is_layout_file(extension: &str, file_name: &str) -> (r: bool)
    ensures
        r == (extension@ == seq!['j', 's', 'o', 'n'] && contains_chars(
            file_name@,
            seq!['l', 'a', 'y', 'o', 'u', 't'],
        )),
{
    proof {
        reveal_strlit("json");
        reveal_strlit("layout");
    }
    assert("json"@ =~= seq!['j', 's', 'o', 'n']);
    assert("layout"@ =~= seq!['l', 'a', 'y', 'o', 'u', 't']);
    str_eq(extension, "json") && str_contains(file_name, "layout")
}

/// The layouts that were loaded, or the default layout alone when none was.
pub fn layouts_or_default(layouts: Vec<KeyboardLayout>) -> (r: Vec<KeyboardLayout>)
    ensures
        layouts@.len() > 0 ==> r@ == layouts@,
        layouts@.len() == 0 ==> r@.len() == 1 && r@[0].wf() && mappings_view(r@[0].key_mappings@)
            == default_mappings(),
{
    if layouts.len() > 0 {
        layouts
    } else {
        let mut r: Vec<KeyboardLayout> = Vec::new();
        r.push(KeyboardLayout::create_default_layout());
        r
    }
}

/// Number of entries in the solfege table.
pub const SOLFEGE_COUNT: usize = 31;

/// Entry `k` of the solfege table: a note symbol and its name. High sharps
/// have no entry.
pub open spec fn solfege_entry_spec(k: int) -> (Seq<char>, Seq<char>) {
    if k == 0 {
        (seq!['.', '1'], seq!['l', 'o', 'w', ' ', 'd', 'o'])
    } else if k == 1 {
        (seq!['.', '2'], seq!['l', 'o', 'w', ' ', 'r', 'e'])
    } else if k == 2 {
        (seq!['.', '3'], seq!['l', 'o', 'w', ' ', 'm', 'i'])
    } else if k == 3 {
        (seq!['.', '4'], seq!['l', 'o', 'w', ' ', 'f', 'a'])
    } else if k == 4 {
        (seq!['.', '5'], seq!['l', 'o', 'w', ' ', 's', 'o', 'l'])
    } else if k == 5 {
        (seq!['.', '6'], seq!['l', 'o', 'w', ' ', 'l', 'a'])
    } else if k == 6 {
        (seq!['.', '7'], seq!['l', 'o', 'w', ' ', 't', 'i'])
    } else if k == 7 {
        (seq!['1'], seq!['d', 'o'])
    } else if k == 8 {
        (seq!['2'], seq!['r', 'e'])
    } else if k == 9 {
        (seq!['3'], seq!['m', 'i'])
    } else if k == 10 {
        (seq!['4'], seq!['f', 'a'])
    } else if k == 11 {
        (seq!['5'], seq!['s', 'o', 'l'])
    } else if k == 12 {
        (seq!['6'], seq!['l', 'a'])
    } else if k == 13 {
        (seq!['7'], seq!['t', 'i'])
    } else if k == 14 {
        (seq!['^', '1'], seq!['h', 'i', 'g', 'h', ' ', 'd', 'o'])
    } else if k == 15 {
        (seq!['^', '2'], seq!['h', 'i', 'g', 'h', ' ', 'r', 'e'])
    } else if k == 16 {
        (seq!['^', '3'], seq!['h', 'i', 'g', 'h', ' ', 'm', 'i'])
    } else if k == 17 {
        (seq!['^', '4'], seq!['h', 'i', 'g', 'h', ' ', 'f', 'a'])
    } else if k == 18 {
        (seq!['^', '5'], seq!['h', 'i', 'g', 'h', ' ', 's', 'o', 'l'])
    } else if k == 19 {
        (seq!['^', '6'], seq!['h', 'i', 'g', 'h', ' ', 'l', 'a'])
    } else if k == 20 {
        (seq!['^', '7'], seq!['h', 'i', 'g', 'h', ' ', 't', 'i'])
    } else if k == 21 {
        (seq!['#', '1'], seq!['d', 'o', '#'])
    } else if k == 22 {
        (seq!['#', '2'], seq!['r', 'e', '#'])
    } else if k == 23 {
        (seq!['#', '4'], seq!['f', 'a', '#'])
    } else if k == 24 {
        (seq!['#', '5'], seq!['s', 'o', 'l', '#'])
    } else if k == 25 {
        (seq!['#', '6'], seq!['l', 'a', '#'])
    } else if k == 26 {
        (seq!['.', '#', '1'], seq!['l', 'o', 'w', ' ', 'd', 'o', '#'])
    } else if k == 27 {
        (seq!['.', '#', '2'], seq!['l', 'o', 'w', ' ', 'r', 'e', '#'])
    } else if k == 28 {
        (seq!['.', '#', '4'], seq!['l', 'o', 'w', ' ', 'f', 'a', '#'])
    } else if k == 29 {
        (seq!['.', '#', '5'], seq!['l', 'o', 'w', ' ', 's', 'o', 'l', '#'])
    } else {
        (seq!['.', '#', '6'], seq!['l', 'o', 'w', ' ', 'l', 'a', '#'])
    }
}

/// The name of `note` from the first table entry at or after `k` that has
/// it, or `note` itself when there is none.
pub open spec fn solfege_from(note: Seq<char>, k: int) -> Seq<char>
    decreases SOLFEGE_COUNT - k,
{
    if k < 0 || k >= SOLFEGE_COUNT {
        note
    } else if solfege_entry_spec(k).0 == note {
        solfege_entry_spec(k).1
    } else {
        solfege_from(note, k + 1)
    }
}

/// The solfege name of `note`, or `note` itself when it has none.
pub open spec fn solfege_of(note: Seq<char>) -> Seq<char> {
    solfege_from(note, 0)
}

fn solfege_entry(k: usize) -> (r: (&'static str, &'static str))
    requires
        k < SOLFEGE_COUNT,
    ensures
        r.0@ == solfege_entry_spec(k as int).0,
        r.1@ == solfege_entry_spec(k as int).1,
{
    if k == 0 {
        proof {
            reveal_strlit(".1");
            reveal_strlit("low do");
        }
        assert(".1"@ =~= seq!['.', '1']);
        assert("low do"@ =~= seq!['l', 'o', 'w', ' ', 'd', 'o']);
        (".1", "low do")
    } else if k == 1 {
        proof {
            reveal_strlit(".2");
            reveal_strlit("low re");
        }
        assert(".2"@ =~= seq!['.', '2']);
        assert("low re"@ =~= seq!['l', 'o', 'w', ' ', 'r', 'e']);
        (".2", "low re")
    } else if k == 2 {
        proof {
            reveal_strlit(".3");
            reveal_strlit("low mi");
        }
        assert(".3"@ =~= seq!['.', '3']);
        assert("low mi"@ =~= seq!['l', 'o', 'w', ' ', 'm', 'i']);
        (".3", "low mi")
    } else if k == 3 {
        proof {
            reveal_strlit(".4");
            reveal_strlit("low fa");
        }
        assert(".4"@ =~= seq!['.', '4']);
        assert("low fa"@ =~= seq!['l', 'o', 'w', ' ', 'f', 'a']);
        (".4", "low fa")
    } else if k == 4 {
        proof {
            reveal_strlit(".5");
            reveal_strlit("low sol");
        }
        assert(".5"@ =~= seq!['.', '5']);
        assert("low sol"@ =~= seq!['l', 'o', 'w', ' ', 's', 'o', 'l']);
        (".5", "low sol")
    } else if k == 5 {
        proof {
            reveal_strlit(".6");
            reveal_strlit("low la");
        }
        assert(".6"@ =~= seq!['.', '6']);
        assert("low la"@ =~= seq!['l', 'o', 'w', ' ', 'l', 'a']);
        (".6", "low la")
    } else if k == 6 {
        proof {
            reveal_strlit(".7");
            reveal_strlit("low ti");
        }
        assert(".7"@ =~= seq!['.', '7']);
        assert("low ti"@ =~= seq!['l', 'o', 'w', ' ', 't', 'i']);
        (".7", "low ti")
    } else if k == 7 {
        proof {
            reveal_strlit("1");
            reveal_strlit("do");
        }
        assert("1"@ =~= seq!['1']);
        assert("do"@ =~= seq!['d', 'o']);
        ("1", "do")
    } else if k == 8 {
        proof {
            reveal_strlit("2");
            reveal_strlit("re");
        }
        assert("2"@ =~= seq!['2']);
        assert("re"@ =~= seq!['r', 'e']);
        ("2", "re")
    } else if k == 9 {
        proof {
            reveal_strlit("3");
            reveal_strlit("mi");
        }
        assert("3"@ =~= seq!['3']);
        assert("mi"@ =~= seq!['m', 'i']);
        ("3", "mi")
    } else if k == 10 {
        proof {
            reveal_strlit("4");
            reveal_strlit("fa");
        }
        assert("4"@ =~= seq!['4']);
        assert("fa"@ =~= seq!['f', 'a']);
        ("4", "fa")
    } else if k == 11 {
        proof {
            reveal_strlit("5");
            reveal_strlit("sol");
        }
        assert("5"@ =~= seq!['5']);
        assert("sol"@ =~= seq!['s', 'o', 'l']);
        ("5", "sol")
    } else if k == 12 {
        proof {
            reveal_strlit("6");
            reveal_strlit("la");
        }
        assert("6"@ =~= seq!['6']);
        assert("la"@ =~= seq!['l', 'a']);
        ("6", "la")
    } else if k == 13 {
        proof {
            reveal_strlit("7");
            reveal_strlit("ti");
        }
        assert("7"@ =~= seq!['7']);
        assert("ti"@ =~= seq!['t', 'i']);
        ("7", "ti")
    } else if k == 14 {
        proof {
            reveal_strlit("^1");
            reveal_strlit("high do");
        }
        assert("^1"@ =~= seq!['^', '1']);
        assert("high do"@ =~= seq!['h', 'i', 'g', 'h', ' ', 'd', 'o']);
        ("^1", "high do")
    } else if k == 15 {
        proof {
            reveal_strlit("^2");
            reveal_strlit("high re");
        }
        assert("^2"@ =~= seq!['^', '2']);
        assert("high re"@ =~= seq!['h', 'i', 'g', 'h', ' ', 'r', 'e']);
        ("^2", "high re")
    } else if k == 16 {
        proof {
            reveal_strlit("^3");
            reveal_strlit("high mi");
        }
        assert("^3"@ =~= seq!['^', '3']);
        assert("high mi"@ =~= seq!['h', 'i', 'g', 'h', ' ', 'm', 'i']);
        ("^3", "high mi")
    } else if k == 17 {
        proof {
            reveal_strlit("^4");
            reveal_strlit("high fa");
        }
        assert("^4"@ =~= seq!['^', '4']);
        assert("high fa"@ =~= seq!['h', 'i', 'g', 'h', ' ', 'f', 'a']);
        ("^4", "high fa")
    } else if k == 18 {
        proof {
            reveal_strlit("^5");
            reveal_strlit("high sol");
        }
        assert("^5"@ =~= seq!['^', '5']);
        assert("high sol"@ =~= seq!['h', 'i', 'g', 'h', ' ', 's', 'o', 'l']);
        ("^5", "high sol")
    } else if k == 19 {
        proof {
            reveal_strlit("^6");
            reveal_strlit("high la");
        }
        assert("^6"@ =~= seq!['^', '6']);
        assert("high la"@ =~= seq!['h', 'i', 'g', 'h', ' ', 'l', 'a']);
        ("^6", "high la")
    } else if k == 20 {
        proof {
            reveal_strlit("^7");
            reveal_strlit("high ti");
        }
        assert("^7"@ =~= seq!['^', '7']);
        assert("high ti"@ =~= seq!['h', 'i', 'g', 'h', ' ', 't', 'i']);
        ("^7", "high ti")
    } else if k == 21 {
        proof {
            reveal_strlit("#1");
            reveal_strlit("do#");
        }
        assert("#1"@ =~= seq!['#', '1']);
        assert("do#"@ =~= seq!['d', 'o', '#']);
        ("#1", "do#")
    } else if k == 22 {
        proof {
            reveal_strlit("#2");
            reveal_strlit("re#");
        }
        assert("#2"@ =~= seq!['#', '2']);
        assert("re#"@ =~= seq!['r', 'e', '#']);
        ("#2", "re#")
    } else if k == 23 {
        proof {
            reveal_strlit("#4");
            reveal_strlit("fa#");
        }
        assert("#4"@ =~= seq!['#', '4']);
        assert("fa#"@ =~= seq!['f', 'a', '#']);
        ("#4", "fa#")
    } else if k == 24 {
        proof {
            reveal_strlit("#5");
            reveal_strlit("sol#");
        }
        assert("#5"@ =~= seq!['#', '5']);
        assert("sol#"@ =~= seq!['s', 'o', 'l', '#']);
        ("#5", "sol#")
    } else if k == 25 {
        proof {
            reveal_strlit("#6");
            reveal_strlit("la#");
        }
        assert("#6"@ =~= seq!['#', '6']);
        assert("la#"@ =~= seq!['l', 'a', '#']);
        ("#6", "la#")
    } else if k == 26 {
        proof {
            reveal_strlit(".#1");
            reveal_strlit("low do#");
        }
        assert(".#1"@ =~= seq!['.', '#', '1']);
        assert("low do#"@ =~= seq!['l', 'o', 'w', ' ', 'd', 'o', '#']);
        (".#1", "low do#")
    } else if k == 27 {
        proof {
            reveal_strlit(".#2");
            reveal_strlit("low re#");
        }
        assert(".#2"@ =~= seq!['.', '#', '2']);
        assert("low re#"@ =~= seq!['l', 'o', 'w', ' ', 'r', 'e', '#']);
        (".#2", "low re#")
    } else if k == 28 {
        proof {
            reveal_strlit(".#4");
            reveal_strlit("low fa#");
        }
        assert(".#4"@ =~= seq!['.', '#', '4']);
        assert("low fa#"@ =~= seq!['l', 'o', 'w', ' ', 'f', 'a', '#']);
        (".#4", "low fa#")
    } else if k == 29 {
        proof {
            reveal_strlit(".#5");
            reveal_strlit("low sol#");
        }
        assert(".#5"@ =~= seq!['.', '#', '5']);
        assert("low sol#"@ =~= seq!['l', 'o', 'w', ' ', 's', 'o', 'l', '#']);
        (".#5", "low sol#")
    } else {
        proof {
            reveal_strlit(".#6");
            reveal_strlit("low la#");
        }
        assert(".#6"@ =~= seq!['.', '#', '6']);
        assert("low la#"@ =~= seq!['l', 'o', 'w', ' ', 'l', 'a', '#']);
        (".#6", "low la#")
    }
}

/// The solfege name of `note` (`"do"`, `"low re#"`, ...), or `note` itself
/// when the table has no entry for it.
pub fn get_solfege_display(note: &str) -> (r: String)
    ensures
        r@ == solfege_of(note@),
{
    let mut k: usize = 0;
    while k < SOLFEGE_COUNT
        invariant
            k <= SOLFEGE_COUNT,
            solfege_of(note@) == solfege_from(note@, k as int),
        decreases SOLFEGE_COUNT - k,
    {
        let (key, name) = solfege_entry(k);
        if str_eq(key, note) {
            return name.to_owned();
        }
        k = k + 1;
    }
    note.to_owned()
}

} // verus!
