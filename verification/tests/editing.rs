use kicks::chain_params::{NoAmpSlot, SlotNotFound};
use kicks::editing::{
    apply_amp_params_with_undo, copy_chain, move_slot_with_undo, toggle_slot_with_undo, update_slot_with_undo,
};
use kicks::history::History;
use kicks::signal_chain::{MoveSlotError, PluginType, SignalChain};

fn ids(c: &SignalChain) -> Vec<String> {
    c.slots.iter().map(|s| s.id.clone()).collect()
}

#[test]
fn copies_keep_every_slot() {
    let c = SignalChain::default();
    let d = copy_chain(&c);
    assert_eq!(ids(&c), ids(&d));
    assert_eq!(c.slots[1].parameters, d.slots[1].parameters);
}

#[test]
fn toggling_records_undo_and_undo_restores() {
    let mut h: History<SignalChain> = History::new();
    let mut c = SignalChain::default();
    assert_eq!(toggle_slot_with_undo(&mut h, &mut c, "amp"), Some(false));
    assert_eq!(h.undo_len(), 1);
    assert!(!c.slots[2].enabled);
    h.undo(&mut c).unwrap();
    assert!(c.slots[2].enabled);
}

#[test]
fn failed_edits_record_nothing() {
    let mut h: History<SignalChain> = History::new();
    let mut c = SignalChain::default();
    assert_eq!(toggle_slot_with_undo(&mut h, &mut c, "nope"), None);
    assert_eq!(update_slot_with_undo(&mut h, &mut c, "nope", Some(false), None, None), Err(SlotNotFound));
    assert_eq!(move_slot_with_undo(&mut h, &mut c, 0, 3), Err(MoveSlotError::FixedSlot));
    assert_eq!(move_slot_with_undo(&mut h, &mut c, 9, 1), Err(MoveSlotError::InvalidIndices { from: 9, to: 1, len: 7 }));
    assert_eq!(h.undo_len(), 0);
    let mut empty = SignalChain { slots: vec![] };
    assert_eq!(apply_amp_params_with_undo(&mut h, &mut empty, &vec![], false), Err(NoAmpSlot));
    assert_eq!(h.undo_len(), 0);
}

#[test]
fn moving_onto_itself_records_nothing() {
    let mut h: History<SignalChain> = History::new();
    let mut c = SignalChain::default();
    assert_eq!(move_slot_with_undo(&mut h, &mut c, 2, 2), Ok(()));
    assert_eq!(h.undo_len(), 0);
    assert_eq!(move_slot_with_undo(&mut h, &mut c, 2, 4), Ok(()));
    assert_eq!(h.undo_len(), 1);
    assert_eq!(ids(&c)[3], "amp");
}

#[test]
fn updates_and_amp_presets_record_undo() {
    let mut h: History<SignalChain> = History::new();
    let mut c = SignalChain::default();
    assert_eq!(update_slot_with_undo(&mut h, &mut c, "delay", Some(false), Some(0), None), Ok(()));
    assert_eq!(apply_amp_params_with_undo(&mut h, &mut c, &vec![("gain".to_string(), 0)], true), Ok(()));
    assert_eq!(h.undo_len(), 2);
    assert_eq!(c.slots[2].plugin_type, PluginType::BassAmp);
    h.undo(&mut c).unwrap();
    assert_eq!(c.slots[2].plugin_type, PluginType::Amp);
    h.undo(&mut c).unwrap();
    assert!(c.slots[4].enabled);
}
