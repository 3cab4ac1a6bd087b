//! The four timbres and their fixed harmonic tables.
use vstd::prelude::*;
use crate::text::str_eq;

verus! {

/// A timbre of the oscillator bank.
#[derive(Clone, Copy, Debug, PartialEq, Eq, Structural)]
pub enum Instrument {
    Piano,
    Guitar,
    Saxophone,
    Violin,
}

/// One sine partial: frequency `ratio_num / ratio_den` times the fundamental,
/// amplitude `amp_pct / 100` relative to it.
#[derive(Clone, Copy, Debug, PartialEq, Eq, Structural)]
pub struct Partial {
    pub ratio_num: u32,
    pub ratio_den: u32,
    pub amp_pct: u32,
}

pub open spec fn partial(ratio_num: u32, ratio_den: u32, amp_pct: u32) -> Partial {
    Partial { ratio_num, ratio_den, amp_pct }
}

/// The harmonic table of each timbre.
pub open spec fn partials_of(i: Instrument) -> Seq<Partial> {
    match i {
        Instrument::Piano => seq![partial(1, 1, 100), partial(2, 1, 50), partial(3, 1, 25)],
        Instrument::Guitar => seq![partial(1, 1, 100), partial(3, 2, 30), partial(2, 1, 20)],
        Instrument::Saxophone => seq![partial(1, 1, 100), partial(3, 1, 60), partial(5, 1, 40)],
        Instrument::Violin => seq![partial(1, 1, 100), partial(2, 1, 40), partial(4, 1, 30)],
    }
}

/// The name of each timbre.
pub open spec fn instrument_name(i: Instrument) -> Seq<char> {
    match i {
        Instrument::Piano => seq!['p', 'i', 'a', 'n', 'o'],
        Instrument::Guitar => seq!['g', 'u', 'i', 't', 'a', 'r'],
        Instrument::Saxophone => seq!['s', 'a', 'x', 'o', 'p', 'h', 'o', 'n', 'e'],
        Instrument::Violin => seq!['v', 'i', 'o', 'l', 'i', 'n'],
    }
}

/// The timbre with name `s`, if any.
pub open spec fn instrument_named(s: Seq<char>) -> Option<Instrument> {
    if s == instrument_name(Instrument::Piano) {
        Some(Instrument::Piano)
    } else if s == instrument_name(Instrument::Guitar) {
        Some(Instrument::Guitar)
    } else if s == instrument_name(Instrument::Saxophone) {
        Some(Instrument::Saxophone)
    } else if s == instrument_name(Instrument::Violin) {
        Some(Instrument::Violin)
    } else {
        None
    }
}

/// The timbres in listing order.
pub open spec fn instrument_order() -> Seq<Instrument> {
    seq![Instrument::Piano, Instrument::Guitar, Instrument::Saxophone, Instrument::Violin]
}

impl Instrument {
    /// The timbre called `name`; `None` for any other name.
    pub fn from_name(name: &str) -> (r: Option<Instrument>)
        ensures
            r == instrument_named(name@),
    {
        proof {
            reveal_strlit("piano");
            reveal_strlit("guitar");
            reveal_strlit("saxophone");
            reveal_strlit("violin");
        }
        assert("piano"@ =~= instrument_name(Instrument::Piano));
        assert("guitar"@ =~= instrument_name(Instrument::Guitar));
        assert("saxophone"@ =~= instrument_name(Instrument::Saxophone));
        assert("violin"@ =~= instrument_name(Instrument::Violin));
        if str_eq(name, "piano") {
            Some(Instrument::Piano)
        } else if str_eq(name, "guitar") {
            Some(Instrument::Guitar)
        } else if str_eq(name, "saxophone") {
            Some(Instrument::Saxophone)
        } else if str_eq(name, "violin") {
            Some(Instrument::Violin)
        } else {
            None
        }
    }

    /// The timbre's name.
    pub fn name(&self) -> (r: &'static str)
        ensures
            r@ == instrument_name(*self),
    {
        match self {
            Instrument::Piano => {
                proof {
                    reveal_strlit("piano");
                }
                "piano"
            },
            Instrument::Guitar => {
                proof {
                    reveal_strlit("guitar");
                }
                "guitar"
            },
            Instrument::Saxophone => {
                proof {
                    reveal_strlit("saxophone");
                }
                "saxophone"
            },
            Instrument::Violin => {
                proof {
                    reveal_strlit("violin");
                }
                "violin"
            },
        }
    }

    /// The timbre's partials, fundamental first.
    pub fn partials(&self) -> (r: Vec<Partial>)
        ensures
            r@ == partials_of(*self),
    {
        let r = match self {
            Instrument::Piano => vec![
                Partial { ratio_num: 1, ratio_den: 1, amp_pct: 100 },
                Partial { ratio_num: 2, ratio_den: 1, amp_pct: 50 },
                Partial { ratio_num: 3, ratio_den: 1, amp_pct: 25 },
            ],
            Instrument::Guitar => vec![
                Partial { ratio_num: 1, ratio_den: 1, amp_pct: 100 },
                Partial { ratio_num: 3, ratio_den: 2, amp_pct: 30 },
                Partial { ratio_num: 2, ratio_den: 1, amp_pct: 20 },
            ],
            Instrument::Saxophone => vec![
                Partial { ratio_num: 1, ratio_den: 1, amp_pct: 100 },
                Partial { ratio_num: 3, ratio_den: 1, amp_pct: 60 },
                Partial { ratio_num: 5, ratio_den: 1, amp_pct: 40 },
            ],
            Instrument::Violin => vec![
                Partial { ratio_num: 1, ratio_den: 1, amp_pct: 100 },
                Partial { ratio_num: 2, ratio_den: 1, amp_pct: 40 },
                Partial { ratio_num: 4, ratio_den: 1, amp_pct: 30 },
            ],
        };
        assert(r@ =~= partials_of(*self));
        r
    }
}

/// The names of the four timbres, in listing order.
pub fn instrument_names() -> (r: Vec<String>)
    ensures
        r@.len() == 4,
        forall|k: int| 0 <= k < 4 ==> (#[trigger] r@[k])@ == instrument_name(instrument_order()[k]),
{
    let mut r: Vec<String> = Vec::new();
    r.push(Instrument::Piano.name().to_owned());
    r.push(Instrument::Guitar.name().to_owned());
    r.push(Instrument::Saxophone.name().to_owned());
    r.push(Instrument::Violin.name().to_owned());
    r
}

} // verus!
