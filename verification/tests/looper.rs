use kicks::looper::{mode_status_name, LoopMode, LoopTransport, MAX_LOOP_SAMPLES};

#[test]
fn record_then_play_sets_loop_length() {
    let mut t = LoopTransport::new();
    let a = t.trigger_mode(LoopMode::Record);
    assert!(a.clear_buffer && a.reset_read_pos);
    for i in 0..480 {
        assert_eq!(t.record_step(), Some(i));
    }
    let a = t.trigger_mode(LoopMode::Play);
    assert!(a.reset_read_pos);
    assert_eq!(t.mode(), LoopMode::Play);
    assert_eq!(t.loop_length(), 480);
    assert!(t.has_loop());
    assert_eq!(t.write_pos(), 0);
}

#[test]
fn empty_recording_gives_one_sample_loop() {
    let mut t = LoopTransport::new();
    t.trigger_mode(LoopMode::Record);
    t.trigger_mode(LoopMode::Play);
    assert_eq!(t.loop_length(), 1);
}

#[test]
fn overdub_undo_once() {
    let mut t = LoopTransport::new();
    t.trigger_mode(LoopMode::Record);
    t.record_step();
    t.trigger_mode(LoopMode::Play);
    let a = t.trigger_mode(LoopMode::Overdub);
    assert!(a.save_undo);
    assert_eq!(t.overdub_step(), Some(0));
    assert_eq!(t.overdub_step(), Some(0));
    assert!(t.undo().restore_undo);
    assert!(!t.undo().restore_undo);
}

#[test]
fn idle_clears_and_stop_fades_out() {
    let mut t = LoopTransport::new();
    t.trigger_mode(LoopMode::Record);
    t.record_step();
    t.trigger_mode(LoopMode::Play);
    t.trigger_mode(LoopMode::Stop);
    assert!(t.fading());
    assert_eq!(t.fade_pos(), t.fade_samples());
    let a = t.trigger_mode(LoopMode::Idle);
    assert!(a.clear_buffer);
    assert!(!t.has_loop());
    assert_eq!(t.mode(), LoopMode::Idle);
}

#[test]
fn fade_in_runs_its_length() {
    let mut t = LoopTransport::new();
    t.set_fade_samples(4);
    t.trigger_mode(LoopMode::Record);
    for k in 1..=4 {
        t.advance_fade();
        assert_eq!(t.fade_pos(), k);
    }
    assert!(!t.fading());
}

#[test]
fn record_stops_at_capacity() {
    let mut t = LoopTransport::new();
    t.trigger_mode(LoopMode::Record);
    let mut n = 0usize;
    while t.record_step().is_some() {
        n += 1;
    }
    assert_eq!(n, MAX_LOOP_SAMPLES);
}

#[test]
fn mode_codes_and_names() {
    for m in [LoopMode::Idle, LoopMode::Record, LoopMode::Overdub, LoopMode::Play, LoopMode::Stop] {
        assert_eq!(LoopMode::from_code(m.code() as i32), m);
    }
    assert_eq!(LoopMode::from_code(9), LoopMode::Idle);
    assert_eq!(mode_status_name(3), "play");
    assert_eq!(mode_status_name(-1), "unknown");
    assert_eq!(LoopMode::Overdub.name(), "overdub");
}

#[test]
fn recording_past_the_buffer_keeps_a_full_loop() {
    let mut t = LoopTransport::new();
    t.trigger_mode(LoopMode::Record);
    let mut written = 0usize;
    for _ in 0..(MAX_LOOP_SAMPLES + 5) {
        if t.record_step().is_some() {
            written += 1;
        }
    }
    assert_eq!(written, MAX_LOOP_SAMPLES);
    t.trigger_mode(LoopMode::Play);
    assert_eq!(t.loop_length(), MAX_LOOP_SAMPLES);
}

#[test]
fn overdub_without_a_loop_writes_nothing() {
    let mut t = LoopTransport::new();
    t.trigger_mode(LoopMode::Overdub);
    assert_eq!(t.mode(), LoopMode::Overdub);
    assert_eq!(t.overdub_step(), None);
    assert_eq!(t.write_pos(), 0);
}

#[test]
fn record_then_undo_then_play_then_idle() {
    let mut t = LoopTransport::new();
    t.trigger_mode(LoopMode::Play);
    t.trigger_mode(LoopMode::Record);
    assert_eq!(t.mode().code(), 1);
    assert!(!t.has_loop());
    let before = (t.mode(), t.write_pos(), t.loop_length());
    t.undo();
    assert_eq!((t.mode(), t.write_pos(), t.loop_length()), before);
    for _ in 0..3 {
        t.record_step();
    }
    t.trigger_mode(LoopMode::Play);
    assert_eq!(t.mode().code(), 3);
    assert!(t.has_loop());
    assert_eq!(t.loop_length(), 3);
    t.trigger_mode(LoopMode::Idle);
    assert!(!t.has_loop());
}
