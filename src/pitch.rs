//! The fixed note vocabulary and its semitone offsets.
//!
//! A note symbol is an optional octave mark (`.` one octave down, `^` one
//! octave up), an optional sharp `#`, and a scale degree `1`..=`7`. Sharps
//! exist on degrees 1, 2, 4, 5 and 6, which gives twelve symbols per octave
//! and thirty-six in all.
use vstd::prelude::*;

verus! {

/// Number of symbols in the vocabulary.
pub const NOTE_COUNT: usize = 36;

/// Semitones above the octave's first degree for a natural scale degree.
pub open spec fn degree_semitones(d: char) -> Option<int> {
    if d == '1' {
        Some(0)
    } else if d == '2' {
        Some(2)
    } else if d == '3' {
        Some(4)
    } else if d == '4' {
        Some(5)
    } else if d == '5' {
        Some(7)
    } else if d == '6' {
        Some(9)
    } else if d == '7' {
        Some(11)
    } else {
        None
    }
}

/// Degrees that take a sharp.
pub open spec fn sharpable(d: char) -> bool {
    d == '1' || d == '2' || d == '4' || d == '5' || d == '6'
}

/// Pitch class (0..12) of a symbol without its octave mark.
pub open spec fn pitch_class_of(body: Seq<char>) -> Option<int> {
    if body.len() == 1 {
        degree_semitones(body[0])
    } else if body.len() == 2 && body[0] == '#' && sharpable(body[1]) {
        Some(degree_semitones(body[1]).unwrap() + 1)
    } else {
        None
    }
}

/// Semitone offset of a note symbol from the basetone, or `None` when the
/// symbol is outside the vocabulary.
pub open spec fn note_offset(s: Seq<char>) -> Option<int> {
    if s.len() > 0 && s[0] == '.' {
        match pitch_class_of(s.drop_first()) {
            Some(pc) => Some(pc - 12),
            None => None,
        }
    } else if s.len() > 0 && s[0] == '^' {
        match pitch_class_of(s.drop_first()) {
            Some(pc) => Some(pc + 12),
            None => None,
        }
    } else {
        pitch_class_of(s)
    }
}

/// The symbol of pitch class `pc` in the base octave.
pub open spec fn pitch_class_symbol(pc: int) -> Seq<char> {
    if pc == 0 {
        seq!['1']
    } else if pc == 1 {
        seq!['#', '1']
    } else if pc == 2 {
        seq!['2']
    } else if pc == 3 {
        seq!['#', '2']
    } else if pc == 4 {
        seq!['3']
    } else if pc == 5 {
        seq!['4']
    } else if pc == 6 {
        seq!['#', '4']
    } else if pc == 7 {
        seq!['5']
    } else if pc == 8 {
        seq!['#', '5']
    } else if pc == 9 {
        seq!['6']
    } else if pc == 10 {
        seq!['#', '6']
    } else {
        seq!['7']
    }
}

/// The octave mark of octave `o` (0 low, 1 base, 2 high).
pub open spec fn octave_mark(o: int) -> Seq<char> {
    if o == 0 {
        seq!['.']
    } else if o == 1 {
        Seq::empty()
    } else {
        seq!['^']
    }
}

/// The `k`-th symbol of the vocabulary, ordered by pitch: its offset is `k - 12`.
pub open spec fn note_symbol_spec(k: int) -> Seq<char> {
    octave_mark(k / 12) + pitch_class_symbol(k % 12)
}

/// An `Option<i32>` read as an optional mathematical integer.
pub open spec fn opt_int(o: Option<i32>) -> Option<int> {
    match o {
        Some(v) => Some(v as int),
        None => None,
    }
}

proof fn lemma_pitch_class_symbol(pc: int)
    requires
        0 <= pc < 12,
    ensures
        pitch_class_of(pitch_class_symbol(pc)) == Some(pc),
        pitch_class_symbol(pc).len() > 0,
        pitch_class_symbol(pc)[0] != '.',
        pitch_class_symbol(pc)[0] != '^',
{
}

proof fn lemma_pitch_class_closed(body: Seq<char>)
    requires
        pitch_class_of(body) is Some,
    ensures
        0 <= pitch_class_of(body).unwrap() < 12,
        body == pitch_class_symbol(pitch_class_of(body).unwrap()),
        body[0] != '.',
        body[0] != '^',
{
    if body.len() == 1 {
        assert(body =~= seq![body[0]]);
    } else {
        assert(body =~= seq!['#', body[1]]);
    }
}

/// Each vocabulary symbol has offset `k - 12`.
pub proof fn lemma_symbol_offset(k: int)
    requires
        0 <= k < NOTE_COUNT,
    ensures
        note_offset(note_symbol_spec(k)) == Some(k - 12),
{
    let pc = k % 12;
    let s = note_symbol_spec(k);
    lemma_pitch_class_symbol(pc);
    if k < 12 {
        assert(s.drop_first() =~= pitch_class_symbol(pc));
    } else if k < 24 {
        assert(s =~= pitch_class_symbol(pc));
    } else {
        assert(s.drop_first() =~= pitch_class_symbol(pc));
    }
}

/// A symbol with an offset is the vocabulary symbol of that offset.
pub proof fn lemma_offset_symbol(s: Seq<char>)
    requires
        note_offset(s) is Some,
    ensures
        -12 <= note_offset(s).unwrap() < 24,
        s == note_symbol_spec(note_offset(s).unwrap() + 12),
{
    let o = note_offset(s).unwrap();
    if s.len() > 0 && (s[0] == '.' || s[0] == '^') {
        let body = s.drop_first();
        lemma_pitch_class_closed(body);
        assert(s =~= seq![s[0]] + body);
        let pc = pitch_class_of(body).unwrap();
        if s[0] == '.' {
            assert((pc - 12 + 12) / 12 == 0 && (pc - 12 + 12) % 12 == pc);
        } else {
            assert((pc + 12 + 12) / 12 == 2 && (pc + 12 + 12) % 12 == pc);
        }
    } else {
        lemma_pitch_class_closed(s);
        let pc = pitch_class_of(s).unwrap();
        assert((pc + 12) / 12 == 1 && (pc + 12) % 12 == pc);
        assert(note_symbol_spec(pc + 12) =~= s);
    }
}

fn degree_of(c: char) -> (r: Option<i32>)
    ensures
        opt_int(r) == degree_semitones(c),
{
    if c == '1' {
        Some(0)
    } else if c == '2' {
        Some(2)
    } else if c == '3' {
        Some(4)
    } else if c == '4' {
        Some(5)
    } else if c == '5' {
        Some(7)
    } else if c == '6' {
        Some(9)
    } else if c == '7' {
        Some(11)
    } else {
        None
    }
}

/// Pitch class of the characters of `note` from `start` to its end.
fn pitch_class_from(note: &str, start: usize, n: usize) -> (r: Option<i32>)
    requires
        n == note@.len(),
        start <= n,
    ensures
        opt_int(r) == pitch_class_of(note@.subrange(start as int, n as int)),
{
    let ghost body = note@.subrange(start as int, n as int);
    if n - start == 1 {
        degree_of(note.get_char(start))
    } else if n - start == 2 && note.get_char(start) == '#' {
        let d = note.get_char(start + 1);
        if d == '1' || d == '2' || d == '4' || d == '5' || d == '6' {
            match degree_of(d) {
                Some(v) => Some(v + 1),
                None => None,
            }
        } else {
            None
        }
    } else {
        None
    }
}

/// Semitone offset of `note` from the basetone; `None` for a symbol outside
/// the vocabulary.
pub fn semitone_offset(note: &str) -> (r: Option<i32>)
    ensures
        opt_int(r) == note_offset(note@),
{
    let n = note.unicode_len();
    if n == 0 {
        return None;
    }
    let first = note.get_char(0);
    if first == '.' || first == '^' {
        assert(note@.drop_first() =~= note@.subrange(1, n as int));
        match pitch_class_from(note, 1, n) {
            Some(pc) => {
                if first == '.' {
                    Some(pc - 12)
                } else {
                    Some(pc + 12)
                }
            },
            None => None,
        }
    } else {
        assert(note@ =~= note@.subrange(0, n as int));
        pitch_class_from(note, 0, n)
    }
}

/// Position of `note` in the vocabulary, ordered by pitch.
pub fn note_index(note: &str) -> (r: Option<usize>)
    ensures
        r is Some <==> note_offset(note@) is Some,
        r matches Some(k) ==> k < NOTE_COUNT && note_offset(note@) == Some(k - 12)
            && note@ == note_symbol_spec(k as int),
{
    match semitone_offset(note) {
        Some(o) => {
            proof {
                lemma_offset_symbol(note@);
            }
            Some((o + 12) as usize)
        },
        None => None,
    }
}

fn pitch_class_text(pc: usize) -> (r: &'static str)
    requires
        pc < 12,
    ensures
        r@ == pitch_class_symbol(pc as int),
{
    if pc == 0 {
        proof {
            reveal_strlit("1");
        }
        "1"
    } else if pc == 1 {
        proof {
            reveal_strlit("#1");
        }
        "#1"
    } else if pc == 2 {
        proof {
            reveal_strlit("2");
        }
        "2"
    } else if pc == 3 {
        proof {
            reveal_strlit("#2");
        }
        "#2"
    } else if pc == 4 {
        proof {
            reveal_strlit("3");
        }
        "3"
    } else if pc == 5 {
        proof {
            reveal_strlit("4");
        }
        "4"
    } else if pc == 6 {
        proof {
            reveal_strlit("#4");
        }
        "#4"
    } else if pc == 7 {
        proof {
            reveal_strlit("5");
        }
        "5"
    } else if pc == 8 {
        proof {
            reveal_strlit("#5");
        }
        "#5"
    } else if pc == 9 {
        proof {
            reveal_strlit("6");
        }
        "6"
    } else if pc == 10 {
        proof {
            reveal_strlit("#6");
        }
        "#6"
    } else {
        proof {
            reveal_strlit("7");
        }
        "7"
    }
}

/// The `k`-th symbol of the vocabulary.
pub fn note_symbol(k: usize) -> (r: String)
    requires
        k < NOTE_COUNT,
    ensures
        r@ == note_symbol_spec(k as int),
{
    let mark: &str = if k < 12 {
        proof {
            reveal_strlit(".");
        }
        "."
    } else if k < 24 {
        proof {
            reveal_strlit("");
        }
        ""
    } else {
        proof {
            reveal_strlit("^");
        }
        "^"
    };
    let mut s = mark.to_owned();
    s.append(pitch_class_text(k % 12));
    s
}

/// The whole vocabulary, ordered by pitch from `.1` to `^7`.
pub fn note_symbols() -> (r: Vec<String>)
    ensures
        r@.len() == NOTE_COUNT,
        forall|k: int| 0 <= k < NOTE_COUNT ==> (#[trigger] r@[k])@ == note_symbol_spec(k),
{
    let mut r: Vec<String> = Vec::new();
    let mut k: usize = 0;
    while k < NOTE_COUNT
        invariant
            k <= NOTE_COUNT,
            r@.len() == k,
            forall|j: int| 0 <= j < k ==> (#[trigger] r@[j])@ == note_symbol_spec(j),
        decreases NOTE_COUNT - k,
    {
        r.push(note_symbol(k));
        k = k + 1;
    }
    r
}

/// The pitch table: every vocabulary symbol has an offset in `[-12, 23]`;
/// no two symbols share an offset; and the low and high octaves are the base
/// octave's symbols behind `.` and `^`, exactly 12 semitones below and above.
pub proof fn lemma_pitch_table()
    ensures
        forall|k: int|
            0 <= k < NOTE_COUNT ==> #[trigger] note_offset(note_symbol_spec(k)) == Some(k - 12)
                && -12 <= k - 12 <= 23,
        forall|s1: Seq<char>, s2: Seq<char>|
            #[trigger] note_offset(s1) is Some && note_offset(s1) == #[trigger] note_offset(s2)
                ==> s1 == s2,
        forall|b: Seq<char>|
            #[trigger] note_offset(b) is Some && 0 <= note_offset(b).unwrap() < 12 ==> {
                &&& note_offset(seq!['.'] + b) == Some(note_offset(b).unwrap() - 12)
                &&& note_offset(seq!['^'] + b) == Some(note_offset(b).unwrap() + 12)
            },
{
    assert forall|k: int| 0 <= k < NOTE_COUNT implies #[trigger] note_offset(note_symbol_spec(k))
        == Some(k - 12) && -12 <= k - 12 <= 23 by {
        lemma_symbol_offset(k);
    }
    assert forall|s1: Seq<char>, s2: Seq<char>|
        #[trigger] note_offset(s1) is Some && note_offset(s1) == #[trigger] note_offset(s2)
            implies s1 == s2 by {
        lemma_offset_symbol(s1);
        lemma_offset_symbol(s2);
    }
    assert forall|b: Seq<char>|
        #[trigger] note_offset(b) is Some && 0 <= note_offset(b).unwrap() < 12 implies {
            &&& note_offset(seq!['.'] + b) == Some(note_offset(b).unwrap() - 12)
            &&& note_offset(seq!['^'] + b) == Some(note_offset(b).unwrap() + 12)
        } by {
        let o = note_offset(b).unwrap();
        lemma_offset_symbol(b);
        assert((o + 12) / 12 == 1 && (o + 12) % 12 == o);
        assert(b =~= pitch_class_symbol(o));
        lemma_pitch_class_symbol(o);
        assert((seq!['.'] + b).drop_first() =~= b);
        assert((seq!['^'] + b).drop_first() =~= b);
    }
}

} // verus!
