use piano_code::config::{
    get_solfege_display, is_layout_file, layouts_or_default, AudioConfig, Config, KeyboardLayout,
};
use piano_code::text::str_contains;

#[test]
fn default_layout_contents() {
    let l = KeyboardLayout::create_default_layout();
    assert_eq!(l.title, "Default Layout");
    assert_eq!(l.description.as_deref(), Some("Default piano key mappings"));
    assert_eq!(l.basetone.as_deref(), Some("C"));
    assert_eq!(l.key_mappings.len(), 10);
    assert_eq!(l.note_for_key("a").as_deref(), Some(".1"));
    assert_eq!(l.note_for_key(";").as_deref(), Some("6"));
    assert_eq!(l.note_for_key("q"), None);
}

#[test]
fn solfege_names() {
    assert_eq!(get_solfege_display("1"), "do");
    assert_eq!(get_solfege_display(".#5"), "low sol#");
    assert_eq!(get_solfege_display("^7"), "high ti");
    assert_eq!(get_solfege_display("^#1"), "^#1");
    assert_eq!(get_solfege_display("xyz"), "xyz");
}

#[test]
fn layout_file_names() {
    assert!(is_layout_file("json", "qwerty_layout.json"));
    assert!(!is_layout_file("json", "settings.json"));
    assert!(!is_layout_file("txt", "layout.txt"));
    assert!(str_contains("abc", ""));
    assert!(!str_contains("ab", "abc"));
}

#[test]
fn empty_layout_list_gets_default() {
    let r = layouts_or_default(Vec::new());
    assert_eq!(r.len(), 1);
    assert_eq!(r[0].title, "Default Layout");
    let mut custom = KeyboardLayout::create_default_layout();
    custom.title = "Mine".to_string();
    let r = layouts_or_default(vec![custom]);
    assert_eq!(r[0].title, "Mine");
}

#[test]
fn default_settings() {
    let a = AudioConfig::default();
    assert_eq!(a.default_sample_rate, 44100);
    assert_eq!(a.gui_duration_ms, 800);
    assert_eq!(a.volume_step_pct, 5);
    let c = Config::default();
    assert_eq!(c.music.default_instrument, "piano");
    assert_eq!(c.music.base_frequencies.len(), 12);
    assert_eq!(c.gui.key_highlight_duration, 150);
}
