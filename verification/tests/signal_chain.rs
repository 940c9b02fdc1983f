use kicks::signal_chain::{MoveSlotError, PluginType, SignalChain};

fn ids(chain: &SignalChain) -> Vec<String> {
    chain.slots.iter().map(|s| s.id.clone()).collect()
}

#[test]
fn default_chain_layout() {
    let chain = SignalChain::default();
    assert_eq!(ids(&chain), vec!["input", "boost", "amp", "cab", "delay", "reverb", "output"]);
    let kinds: Vec<PluginType> = chain.slots.iter().map(|s| s.plugin_type.clone()).collect();
    assert_eq!(
        kinds,
        vec![
            PluginType::Input,
            PluginType::Boost,
            PluginType::Amp,
            PluginType::Cab,
            PluginType::Delay,
            PluginType::Reverb,
            PluginType::Output
        ]
    );
    assert!(chain.slots.iter().all(|s| s.enabled && f32::from_bits(s.wet_dry) == 1.0));
    assert_eq!(chain.slots[1].parameters, vec![("gain".to_string(), 0.75f32.to_bits())]);
    let amp = &chain.slots[2];
    let gain = amp.parameters.iter().find(|p| p.0 == "gain").unwrap();
    assert_eq!(f32::from_bits(gain.1), 0.5);
    let master = amp.parameters.iter().find(|p| p.0 == "master").unwrap();
    assert_eq!(f32::from_bits(master.1), 0.7);
    let out = &chain.slots[6];
    assert_eq!(out.parameters.len(), 1);
    assert_eq!(out.parameters[0].0, "volume");
    assert_eq!(f32::from_bits(out.parameters[0].1), 0.8);
    let delay = &chain.slots[4];
    assert_eq!(f32::from_bits(delay.parameters[1].1), 0.4);
}

#[test]
fn move_slot_forward_lands_before_target() {
    let mut chain = SignalChain::default();
    // amp (2) moved towards reverb (5): inserted at 4
    assert_eq!(chain.move_slot(2, 5), Ok(()));
    assert_eq!(ids(&chain), vec!["input", "boost", "cab", "delay", "amp", "reverb", "output"]);
}

#[test]
fn move_slot_backward() {
    let mut chain = SignalChain::default();
    assert_eq!(chain.move_slot(5, 1), Ok(()));
    assert_eq!(ids(&chain), vec!["input", "reverb", "boost", "amp", "cab", "delay", "output"]);
}

#[test]
fn move_slot_errors() {
    let mut chain = SignalChain::default();
    assert_eq!(
        chain.move_slot(7, 1),
        Err(MoveSlotError::InvalidIndices { from: 7, to: 1, len: 7 })
    );
    assert_eq!(chain.move_slot(0, 3), Err(MoveSlotError::FixedSlot));
    assert_eq!(chain.move_slot(6, 3), Err(MoveSlotError::FixedSlot));
    assert_eq!(chain.move_slot(0, 0), Ok(()));
    assert_eq!(ids(&chain), vec!["input", "boost", "amp", "cab", "delay", "reverb", "output"]);
}

#[test]
fn toggle_slot_flips_enabled() {
    let mut chain = SignalChain::default();
    assert_eq!(chain.toggle_slot("cab"), Some(false));
    assert!(!chain.slots[3].enabled);
    assert_eq!(chain.toggle_slot("cab"), Some(true));
    assert_eq!(chain.toggle_slot("nope"), None);
    assert_eq!(chain.position_of_slot("delay"), Some(4));
    assert_eq!(chain.position_of_slot("missing"), None);
}
