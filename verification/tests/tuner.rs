use kicks::tuner::note_name;

#[test]
fn note_names_with_octaves() {
    // 440 Hz is MIDI note 69, 880 Hz is note 81.
    assert_eq!(note_name(69), "A4");
    assert_eq!(note_name(81), "A5");
    assert_eq!(note_name(60), "C4");
    assert_eq!(note_name(61), "C#4");
    assert_eq!(note_name(40), "E2");
    assert_eq!(note_name(0), "C-1");
    assert_eq!(note_name(11), "B-1");
    assert_eq!(note_name(12), "C0");
}

#[test]
fn negative_notes_wrap_the_name_and_truncate_the_octave() {
    // The pitch class is taken modulo 12 without sign; the octave divides
    // toward zero, as integer division does.
    assert_eq!(note_name(-1), "B-1");
    assert_eq!(note_name(-12), "C-2");
    assert_eq!(note_name(-13), "B-2");
}
