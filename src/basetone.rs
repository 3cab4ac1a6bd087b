//! The twelve basetones and their reference frequencies.
use vstd::prelude::*;
use crate::text::str_eq;

verus! {

/// A chromatic pitch class, taken as scale degree 1.
#[derive(Clone, Copy, Debug, PartialEq, Eq, Structural)]
pub enum Basetone {
    C,
    CSharp,
    D,
    DSharp,
    E,
    F,
    FSharp,
    G,
    GSharp,
    A,
    ASharp,
    B,
}

/// Position of a basetone in the chromatic order from C.
pub open spec fn basetone_index(b: Basetone) -> int {
    match b {
        Basetone::C => 0,
        Basetone::CSharp => 1,
        Basetone::D => 2,
        Basetone::DSharp => 3,
        Basetone::E => 4,
        Basetone::F => 5,
        Basetone::FSharp => 6,
        Basetone::G => 7,
        Basetone::GSharp => 8,
        Basetone::A => 9,
        Basetone::ASharp => 10,
        Basetone::B => 11,
    }
}

/// The basetone at position `k` of the chromatic order.
pub open spec fn basetone_at(k: int) -> Basetone {
    if k == 0 {
        Basetone::C
    } else if k == 1 {
        Basetone::CSharp
    } else if k == 2 {
        Basetone::D
    } else if k == 3 {
        Basetone::DSharp
    } else if k == 4 {
        Basetone::E
    } else if k == 5 {
        Basetone::F
    } else if k == 6 {
        Basetone::FSharp
    } else if k == 7 {
        Basetone::G
    } else if k == 8 {
        Basetone::GSharp
    } else if k == 9 {
        Basetone::A
    } else if k == 10 {
        Basetone::ASharp
    } else {
        Basetone::B
    }
}

/// The name of a basetone.
pub open spec fn basetone_name(b: Basetone) -> Seq<char> {
    match b {
        Basetone::C => seq!['C'],
        Basetone::CSharp => seq!['C', '#'],
        Basetone::D => seq!['D'],
        Basetone::DSharp => seq!['D', '#'],
        Basetone::E => seq!['E'],
        Basetone::F => seq!['F'],
        Basetone::FSharp => seq!['F', '#'],
        Basetone::G => seq!['G'],
        Basetone::GSharp => seq!['G', '#'],
        Basetone::A => seq!['A'],
        Basetone::ASharp => seq!['A', '#'],
        Basetone::B => seq!['B'],
    }
}

/// The reference frequency of a basetone in hundredths of a hertz
/// (equal temperament, A = 440 Hz).
pub open spec fn centi_hz_of(b: Basetone) -> int {
    match b {
        Basetone::C => 26163,
        Basetone::CSharp => 27718,
        Basetone::D => 29366,
        Basetone::DSharp => 31113,
        Basetone::E => 32963,
        Basetone::F => 34923,
        Basetone::FSharp => 36999,
        Basetone::G => 39200,
        Basetone::GSharp => 41530,
        Basetone::A => 44000,
        Basetone::ASharp => 46616,
        Basetone::B => 49388,
    }
}

/// The basetone named `s`, if any.
pub open spec fn basetone_named(s: Seq<char>) -> Option<Basetone> {
    if s == basetone_name(Basetone::C) {
        Some(Basetone::C)
    } else if s == basetone_name(Basetone::CSharp) {
        Some(Basetone::CSharp)
    } else if s == basetone_name(Basetone::D) {
        Some(Basetone::D)
    } else if s == basetone_name(Basetone::DSharp) {
        Some(Basetone::DSharp)
    } else if s == basetone_name(Basetone::E) {
        Some(Basetone::E)
    } else if s == basetone_name(Basetone::F) {
        Some(Basetone::F)
    } else if s == basetone_name(Basetone::FSharp) {
        Some(Basetone::FSharp)
    } else if s == basetone_name(Basetone::G) {
        Some(Basetone::G)
    } else if s == basetone_name(Basetone::GSharp) {
        Some(Basetone::GSharp)
    } else if s == basetone_name(Basetone::A) {
        Some(Basetone::A)
    } else if s == basetone_name(Basetone::ASharp) {
        Some(Basetone::ASharp)
    } else if s == basetone_name(Basetone::B) {
        Some(Basetone::B)
    } else {
        None
    }
}

impl Basetone {
    /// The basetone called `name`; `None` for any other name.
    pub fn from_name(name: &str) -> (r: Option<Basetone>)
        ensures
            r == basetone_named(name@),
    {
        proof {
            reveal_strlit("C");
            reveal_strlit("C#");
            reveal_strlit("D");
            reveal_strlit("D#");
            reveal_strlit("E");
            reveal_strlit("F");
            reveal_strlit("F#");
            reveal_strlit("G");
            reveal_strlit("G#");
            reveal_strlit("A");
            reveal_strlit("A#");
            reveal_strlit("B");
        }
        assert("C"@ =~= basetone_name(Basetone::C));
        assert("C#"@ =~= basetone_name(Basetone::CSharp));
        assert("D"@ =~= basetone_name(Basetone::D));
        assert("D#"@ =~= basetone_name(Basetone::DSharp));
        assert("E"@ =~= basetone_name(Basetone::E));
        assert("F"@ =~= basetone_name(Basetone::F));
        assert("F#"@ =~= basetone_name(Basetone::FSharp));
        assert("G"@ =~= basetone_name(Basetone::G));
        assert("G#"@ =~= basetone_name(Basetone::GSharp));
        assert("A"@ =~= basetone_name(Basetone::A));
        assert("A#"@ =~= basetone_name(Basetone::ASharp));
        assert("B"@ =~= basetone_name(Basetone::B));
        if str_eq(name, "C") {
            Some(Basetone::C)
        } else if str_eq(name, "C#") {
            Some(Basetone::CSharp)
        } else if str_eq(name, "D") {
            Some(Basetone::D)
        } else if str_eq(name, "D#") {
            Some(Basetone::DSharp)
        } else if str_eq(name, "E") {
            Some(Basetone::E)
        } else if str_eq(name, "F") {
            Some(Basetone::F)
        } else if str_eq(name, "F#") {
            Some(Basetone::FSharp)
        } else if str_eq(name, "G") {
            Some(Basetone::G)
        } else if str_eq(name, "G#") {
            Some(Basetone::GSharp)
        } else if str_eq(name, "A") {
            Some(Basetone::A)
        } else if str_eq(name, "A#") {
            Some(Basetone::ASharp)
        } else if str_eq(name, "B") {
            Some(Basetone::B)
        } else {
            None
        }
    }

    /// The basetone's name.
    pub fn name(&self) -> (r: &'static str)
        ensures
            r@ == basetone_name(*self),
    {
        match self {
            Basetone::C => {
                proof {
                    reveal_strlit("C");
                }
                assert("C"@ =~= basetone_name(Basetone::C));
                "C"
            },
            Basetone::CSharp => {
                proof {
                    reveal_strlit("C#");
                }
                assert("C#"@ =~= basetone_name(Basetone::CSharp));
                "C#"
            },
            Basetone::D => {
                proof {
                    reveal_strlit("D");
                }
                assert("D"@ =~= basetone_name(Basetone::D));
                "D"
            },
            Basetone::DSharp => {
                proof {
                    reveal_strlit("D#");
                }
                assert("D#"@ =~= basetone_name(Basetone::DSharp));
                "D#"
            },
            Basetone::E => {
                proof {
                    reveal_strlit("E");
                }
                assert("E"@ =~= basetone_name(Basetone::E));
                "E"
            },
            Basetone::F => {
                proof {
                    reveal_strlit("F");
                }
                assert("F"@ =~= basetone_name(Basetone::F));
                "F"
            },
            Basetone::FSharp => {
                proof {
                    reveal_strlit("F#");
                }
                assert("F#"@ =~= basetone_name(Basetone::FSharp));
                "F#"
            },
            Basetone::G => {
                proof {
                    reveal_strlit("G");
                }
                assert("G"@ =~= basetone_name(Basetone::G));
                "G"
            },
            Basetone::GSharp => {
                proof {
                    reveal_strlit("G#");
                }
                assert("G#"@ =~= basetone_name(Basetone::GSharp));
                "G#"
            },
            Basetone::A => {
                proof {
                    reveal_strlit("A");
                }
                assert("A"@ =~= basetone_name(Basetone::A));
                "A"
            },
            Basetone::ASharp => {
                proof {
                    reveal_strlit("A#");
                }
                assert("A#"@ =~= basetone_name(Basetone::ASharp));
                "A#"
            },
            Basetone::B => {
                proof {
                    reveal_strlit("B");
                }
                assert("B"@ =~= basetone_name(Basetone::B));
                "B"
            },
        }
    }

    /// The reference frequency in hundredths of a hertz.
    pub fn centi_hz(&self) -> (r: u32)
        ensures
            r == centi_hz_of(*self),
    {
        match self {
            Basetone::C => 26163,
            Basetone::CSharp => 27718,
            Basetone::D => 29366,
            Basetone::DSharp => 31113,
            Basetone::E => 32963,
            Basetone::F => 34923,
            Basetone::FSharp => 36999,
            Basetone::G => 39200,
            Basetone::GSharp => 41530,
            Basetone::A => 44000,
            Basetone::ASharp => 46616,
            Basetone::B => 49388,
        }
    }

    /// Position in the chromatic order from C.
    pub fn index(&self) -> (r: usize)
        ensures
            r == basetone_index(*self),
            r < 12,
    {
        match self {
            Basetone::C => 0,
            Basetone::CSharp => 1,
            Basetone::D => 2,
            Basetone::DSharp => 3,
            Basetone::E => 4,
            Basetone::F => 5,
            Basetone::FSharp => 6,
            Basetone::G => 7,
            Basetone::GSharp => 8,
            Basetone::A => 9,
            Basetone::ASharp => 10,
            Basetone::B => 11,
        }
    }

    /// The basetone at position `k` of the chromatic order.
    pub fn from_index(k: usize) -> (r: Basetone)
        requires
            k < 12,
        ensures
            r == basetone_at(k as int),
            basetone_index(r) == k,
    {
        if k == 0 {
            Basetone::C
        } else if k == 1 {
            Basetone::CSharp
        } else if k == 2 {
            Basetone::D
        } else if k == 3 {
            Basetone::DSharp
        } else if k == 4 {
            Basetone::E
        } else if k == 5 {
            Basetone::F
        } else if k == 6 {
            Basetone::FSharp
        } else if k == 7 {
            Basetone::G
        } else if k == 8 {
            Basetone::GSharp
        } else if k == 9 {
            Basetone::A
        } else if k == 10 {
            Basetone::ASharp
        } else {
            Basetone::B
        }
    }
}

/// The basetones with their reference frequencies in hundredths of a hertz,
/// in chromatic order from C.
pub fn base_frequencies() -> (r: Vec<(String, u32)>)
    ensures
        r@.len() == 12,
        forall|k: int|
            0 <= k < 12 ==> (#[trigger] r@[k]).0@ == basetone_name(basetone_at(k)) && r@[k].1
                == centi_hz_of(basetone_at(k)),
{
    let mut r: Vec<(String, u32)> = Vec::new();
    let mut k: usize = 0;
    while k < 12
        invariant
            k <= 12,
            r@.len() == k,
            forall|j: int|
                0 <= j < k ==> (#[trigger] r@[j]).0@ == basetone_name(basetone_at(j)) && r@[j].1
                    == centi_hz_of(basetone_at(j)),
        decreases 12 - k,
    {
        let b = Basetone::from_index(k);
        r.push((b.name().to_owned(), b.centi_hz()));
        k = k + 1;
    }
    r
}

} // verus!
