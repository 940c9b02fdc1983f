use kicks::chain_params::{
    insert_param, lookup_param, plugin_enabled_key, plugin_param_key, EngineCommand, NoAmpSlot, SlotNotFound,
};
use kicks::signal_chain::{ChainSlot, PluginType, SignalChain};

fn bits(v: f32) -> u32 {
    v.to_bits()
}

fn pairs(list: &[(&str, f32)]) -> Vec<(String, u32)> {
    list.iter().map(|(k, v)| (k.to_string(), bits(*v))).collect()
}

#[test]
fn insert_then_lookup() {
    let mut params = pairs(&[("gain", 0.5), ("mix", 0.3)]);
    insert_param(&mut params, "gain".into(), bits(0.9));
    assert_eq!(lookup_param(&params, "gain"), Some(bits(0.9)));
    assert_eq!(lookup_param(&params, "mix"), Some(bits(0.3)));
    assert_eq!(params.len(), 2);
    insert_param(&mut params, "drive".into(), bits(0.1));
    assert_eq!(params.len(), 3);
    assert_eq!(params[2].0, "drive");
    assert_eq!(lookup_param(&params, "missing"), None);
}

#[test]
fn update_slot_sets_what_is_given() {
    let mut chain = SignalChain::default();
    let r = chain.update_slot("amp", Some(false), None, Some(pairs(&[("gain", 0.9), ("drive", 0.2)])));
    assert_eq!(r, Ok(()));
    let amp = &chain.slots[2];
    assert!(!amp.enabled);
    assert_eq!(f32::from_bits(amp.wet_dry), 1.0);
    assert_eq!(amp.get_param("gain"), Some(bits(0.9)));
    assert_eq!(amp.get_param("drive"), Some(bits(0.2)));
    assert_eq!(amp.get_param("master"), Some(bits(0.7)));
    assert_eq!(amp.parameters.len(), 7);

    let r = chain.update_slot("delay", None, Some(bits(0.25)), None);
    assert_eq!(r, Ok(()));
    assert_eq!(f32::from_bits(chain.slots[4].wet_dry), 0.25);

    let before = chain.clone();
    assert_eq!(chain.update_slot("nope", Some(true), None, None), Err(SlotNotFound));
    assert_eq!(chain.slots.len(), before.slots.len());
}

#[test]
fn amp_preset_switches_to_bass_amp_and_back() {
    let mut chain = SignalChain::default();
    let params = pairs(&[("gain", 0.6), ("bass_mode", 1.0)]);
    assert_eq!(chain.apply_amp_params(&params, true), Ok(()));
    assert_eq!(chain.slots[2].plugin_type, PluginType::BassAmp);
    assert_eq!(chain.slots[2].id, "bass-amp");
    assert_eq!(chain.slots[2].get_param("gain"), Some(bits(0.6)));
    assert_eq!(chain.bass_mode_setting(), Some(bits(1.0)));

    assert_eq!(chain.apply_amp_params(&pairs(&[("bass_mode", 0.0)]), false), Ok(()));
    assert_eq!(chain.slots[2].plugin_type, PluginType::Amp);
    assert_eq!(chain.slots[2].id, "amp");
    assert_eq!(chain.bass_mode_setting(), None);

    let mut no_amp = SignalChain { slots: vec![] };
    assert_eq!(no_amp.apply_amp_params(&params, true), Err(NoAmpSlot));
}

#[test]
fn bass_mode_defaults_to_full() {
    let slot = ChainSlot {
        id: "bass-amp".into(),
        plugin_type: PluginType::BassAmp,
        enabled: true,
        wet_dry: bits(1.0),
        parameters: vec![],
    };
    let chain = SignalChain { slots: vec![slot] };
    assert_eq!(chain.bass_mode_setting(), Some(bits(1.0)));
}

#[test]
fn param_messages_address_slot_parameters() {
    let chain = SignalChain::default();
    let with_enabled = chain.param_messages(true);
    assert_eq!(with_enabled[0], ("input/enabled".to_string(), bits(1.0)));
    assert_eq!(with_enabled[1], ("boost/enabled".to_string(), bits(1.0)));
    assert_eq!(with_enabled[2], ("boost/gain".to_string(), bits(0.75)));
    assert_eq!(with_enabled[3], ("amp/enabled".to_string(), bits(1.0)));
    assert_eq!(with_enabled[4], ("amp/gain".to_string(), bits(0.5)));
    assert_eq!(with_enabled.len(), 7 + 1 + 6 + 3 + 3 + 1);
    let params_only = chain.param_messages(false);
    assert_eq!(params_only.len(), 1 + 6 + 3 + 3 + 1);
    assert_eq!(params_only[0], ("boost/gain".to_string(), bits(0.75)));
    assert_eq!(params_only[1], ("amp/gain".to_string(), bits(0.5)));
    assert_eq!(params_only.last().unwrap(), &("output/volume".to_string(), bits(0.8)));
}

#[test]
fn engine_commands_follow_the_chain() {
    let mut chain = SignalChain::default();
    chain.toggle_slot("cab");
    let cmds = chain.engine_commands();
    assert_eq!(cmds.len(), 7 + 14);
    match &cmds[0] {
        EngineCommand::SetPluginEnabled { plugin, enabled } => {
            assert_eq!(plugin, "input");
            assert!(*enabled);
        }
        _ => panic!("expected an enable command"),
    }
    match &cmds[4] {
        EngineCommand::SetPluginParameter { plugin, parameter, value } => {
            assert_eq!(plugin, "amp");
            assert_eq!(parameter, "gain");
            assert_eq!(*value, bits(0.5));
        }
        _ => panic!("expected a parameter command"),
    }
    match &cmds[10] {
        EngineCommand::SetPluginEnabled { plugin, enabled } => {
            assert_eq!(plugin, "cab");
            assert!(!*enabled);
        }
        _ => panic!("expected an enable command"),
    }
}

#[test]
fn plugin_cache_keys() {
    assert_eq!(plugin_param_key("amp", "gain"), "amp.gain");
    assert_eq!(plugin_enabled_key("cab"), "cab.__enabled");
    assert_eq!(plugin_param_key("", ""), ".");
}

#[test]
fn default_chain_parameters_have_unique_names() {
    let chain = SignalChain::default();
    for slot in &chain.slots {
        let mut names: Vec<&String> = slot.parameters.iter().map(|p| &p.0).collect();
        let before = names.len();
        names.sort();
        names.dedup();
        assert_eq!(names.len(), before, "slot {}", slot.id);
    }
}

#[test]
fn toggling_twice_and_moving_keep_parameters() {
    let mut chain = SignalChain::default();
    let before: Vec<_> = chain.slots.iter().map(|s| (s.id.clone(), s.enabled, s.parameters.clone())).collect();
    chain.toggle_slot("delay");
    chain.toggle_slot("delay");
    let after: Vec<_> = chain.slots.iter().map(|s| (s.id.clone(), s.enabled, s.parameters.clone())).collect();
    assert_eq!(before, after);
    chain.move_slot(5, 2).unwrap();
    let mut ids: Vec<String> = chain.slots.iter().map(|s| s.id.clone()).collect();
    assert_eq!(ids, vec!["input", "boost", "reverb", "amp", "cab", "delay", "output"]);
    ids.sort();
    let mut orig: Vec<String> = before.iter().map(|b| b.0.clone()).collect();
    orig.sort();
    assert_eq!(ids, orig);
}
