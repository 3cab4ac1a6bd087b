use piano_code::pitch::{note_index, note_symbol, note_symbols, semitone_offset, NOTE_COUNT};

#[test]
fn every_symbol_has_an_offset_in_range() {
    let symbols = note_symbols();
    assert_eq!(symbols.len(), 36);
    for (k, s) in symbols.iter().enumerate() {
        let o = semitone_offset(s).unwrap();
        assert!((-12..=23).contains(&o));
        assert_eq!(o, k as i32 - 12);
    }
}

#[test]
fn offsets_are_distinct() {
    let symbols = note_symbols();
    let mut seen: Vec<i32> = Vec::new();
    for s in &symbols {
        let o = semitone_offset(s).unwrap();
        assert!(!seen.contains(&o));
        seen.push(o);
    }
}

#[test]
fn octaves_are_parallel_series() {
    for k in 12..24 {
        let base = note_symbol(k);
        let o = semitone_offset(&base).unwrap();
        assert_eq!(semitone_offset(&format!(".{}", base)), Some(o - 12));
        assert_eq!(semitone_offset(&format!("^{}", base)), Some(o + 12));
    }
}

#[test]
fn known_offsets() {
    assert_eq!(semitone_offset("3"), Some(4));
    assert_eq!(semitone_offset("^#5"), Some(20));
    assert_eq!(semitone_offset(".1"), Some(-12));
    assert_eq!(semitone_offset(".#6"), Some(-2));
    assert_eq!(semitone_offset("^7"), Some(23));
    assert_eq!(semitone_offset("#4"), Some(6));
}

#[test]
fn symbols_outside_the_vocabulary() {
    for s in ["", "8", "0", "#3", "#7", "..1", "^^1", "1#", "x", "^", ".", "#", "11", ".#3"] {
        assert_eq!(semitone_offset(s), None, "{}", s);
        assert_eq!(note_index(s), None);
    }
}

#[test]
fn symbol_and_index_agree() {
    for k in 0..NOTE_COUNT {
        assert_eq!(note_index(&note_symbol(k)), Some(k));
    }
    assert_eq!(note_symbol(0), ".1");
    assert_eq!(note_symbol(13), "#1");
    assert_eq!(note_symbol(35), "^7");
}
