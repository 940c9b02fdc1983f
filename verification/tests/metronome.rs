use kicks::metronome::BeatClock;

#[test]
fn downbeat_every_bar() {
    let mut clock = BeatClock::new();
    assert_eq!(clock.beats_per_bar(), 4);
    let mut accents = Vec::new();
    for _ in 0..9 {
        clock.beat();
        accents.push(clock.is_downbeat());
    }
    assert_eq!(accents, vec![true, false, false, false, true, false, false, false, true]);
    assert_eq!(clock.current_beat(), 1);
}

#[test]
fn three_four_time() {
    let mut clock = BeatClock::new();
    clock.set_beats_per_bar(3);
    let mut accents = Vec::new();
    for _ in 0..6 {
        clock.beat();
        accents.push(clock.is_downbeat());
    }
    assert_eq!(accents, vec![true, false, false, true, false, false]);
}

#[test]
fn bar_length_is_clamped() {
    let mut clock = BeatClock::new();
    clock.set_beats_per_bar(0);
    assert_eq!(clock.beats_per_bar(), 1);
    clock.set_beats_per_bar(200);
    assert_eq!(clock.beats_per_bar(), 16);
    clock.set_beats_per_bar(7);
    assert_eq!(clock.beats_per_bar(), 7);
}

#[test]
fn shortening_the_bar_keeps_counting() {
    let mut clock = BeatClock::new();
    clock.beat();
    clock.beat();
    clock.beat();
    assert_eq!(clock.current_beat(), 3);
    clock.set_beats_per_bar(2);
    clock.beat();
    assert!(!clock.is_downbeat());
    assert_eq!(clock.current_beat(), 0);
    clock.beat();
    assert!(clock.is_downbeat());
}

#[test]
fn click_plays_through_then_stops() {
    let mut clock = BeatClock::new();
    assert_eq!(clock.click_step(3), None);
    clock.beat();
    assert!(clock.playing_click());
    assert_eq!(clock.click_step(3), Some(0));
    assert_eq!(clock.click_step(3), Some(1));
    assert_eq!(clock.click_step(3), Some(2));
    assert_eq!(clock.click_step(3), None);
    assert!(!clock.playing_click());
    assert_eq!(clock.click_step(3), None);
}
