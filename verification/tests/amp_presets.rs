use kicks::amp_preset::{
    built_in_amp_presets, find_amp_preset, AmpPreset, BASS_PRESETS, BUILT_IN_AMP_PRESETS, FIRST_BASS_PRESET,
    FULL_LEVEL,
};

#[test]
fn new_holds_levels_to_their_range() {
    let p = AmpPreset::new("Loud", "Too much", vec!["a", "b"], 150, 100, 0, 35, 101, 7);
    assert_eq!(p.name, "Loud");
    assert_eq!(p.description, "Too much");
    assert_eq!(p.tags, vec!["a".to_string(), "b".to_string()]);
    assert_eq!((p.gain, p.master, p.bass, p.mid, p.treble, p.drive), (100, 100, 0, 35, 100, 7));
    assert_eq!(p.bass_mode, 0);
    assert!(!p.is_bass());
}

#[test]
fn bass_presets_use_the_bass_eq() {
    let p = AmpPreset::new_bass("Low", "Deep", vec![], 20, 80, 85, 55, 30, 8);
    assert_eq!(p.bass_mode, FULL_LEVEL);
    assert!(p.is_bass());
    assert!(p.tags.is_empty());
}

#[test]
fn parameter_map_lists_every_level() {
    let p = AmpPreset::new_bass("Low", "Deep", vec![], 20, 80, 85, 55, 30, 8);
    let m = p.to_parameter_map();
    let expected: Vec<(String, u32)> = vec![
        ("gain".to_string(), 20),
        ("master".to_string(), 80),
        ("bass".to_string(), 85),
        ("mid".to_string(), 55),
        ("treble".to_string(), 30),
        ("drive".to_string(), 8),
        ("bass_mode".to_string(), 100),
    ];
    assert_eq!(m, expected);
}

#[test]
fn built_in_table() {
    let all = built_in_amp_presets();
    assert_eq!(all.len(), BUILT_IN_AMP_PRESETS);
    assert_eq!(all.len(), 294);
    assert_eq!(all[0].name, "American Clean");
    assert_eq!((all[0].gain, all[0].master, all[0].drive), (15, 80, 10));
    assert_eq!(all[FIRST_BASS_PRESET].name, "SVT Clean");
    assert_eq!(all.iter().filter(|p| p.is_bass()).count(), BASS_PRESETS);
    assert_eq!(all[all.len() - 1].name, "Bridge Pickup Cut");
    for p in &all {
        assert!(p.gain <= FULL_LEVEL && p.master <= FULL_LEVEL && p.drive <= FULL_LEVEL);
    }
}

#[test]
fn names_are_found_by_first_match() {
    let all = built_in_amp_presets();
    let i = find_amp_preset(&all, "SVT Grind").unwrap();
    assert_eq!(all[i].name, "SVT Grind");
    assert!(all[i].is_bass());
    assert_eq!(find_amp_preset(&all, "American Clean"), Some(0));
    assert_eq!(find_amp_preset(&all, "No Such Amp"), None);
    let twice = vec![
        AmpPreset::new("A", "", vec![], 1, 1, 1, 1, 1, 1),
        AmpPreset::new("B", "", vec![], 2, 2, 2, 2, 2, 2),
        AmpPreset::new("B", "", vec![], 3, 3, 3, 3, 3, 3),
    ];
    assert_eq!(find_amp_preset(&twice, "B"), Some(1));
}

#[test]
fn levels_are_hundredths_of_their_range() {
    let all = built_in_amp_presets();
    assert_eq!(all[0].treble as f32 / 100.0, 0.60f32);
    assert_eq!(all[0].gain as f32 / 100.0, 0.15f32);
}
