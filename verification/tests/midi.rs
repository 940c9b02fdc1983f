use kicks::midi::{control_change, MidiConfig, MidiMapping, MidiRoute};

fn mapping(cc: u8, channel: u8, id: &str) -> MidiMapping {
    MidiMapping {
        cc,
        channel,
        parameter_id: id.into(),
        label: id.into(),
        min: 0f32.to_bits(),
        max: 1f32.to_bits(),
    }
}

#[test]
fn default_midi_config() {
    let c = MidiConfig::default();
    assert_eq!(c.channel, 1);
    assert!(c.active_device.is_none() && c.mappings.is_empty() && !c.learn_mode && c.last_cc.is_none());
}

#[test]
fn routes_by_cc_and_channel() {
    let mut c = MidiConfig::default();
    c.mappings = vec![mapping(7, 2, "amp.gain"), mapping(7, 1, "amp.master"), mapping(11, 1, "reverb.mix")];
    assert_eq!(c.route_event(1, 7), MidiRoute::Mapped(1));
    assert_eq!(c.route_event(2, 7), MidiRoute::Mapped(0));
    assert_eq!(c.route_event(3, 7), MidiRoute::Unmapped);
    assert_eq!(c.route_event(1, 12), MidiRoute::Unmapped);
    c.channel = 0; // all channels
    assert_eq!(c.route_event(3, 7), MidiRoute::Mapped(0));
}

#[test]
fn learn_mode_records_cc() {
    let mut c = MidiConfig::default();
    c.mappings = vec![mapping(7, 1, "amp.gain")];
    c.set_learn_mode(true);
    assert_eq!(c.route_event(1, 7), MidiRoute::Learned);
    assert_eq!(c.last_cc, Some(7));
    c.set_learn_mode(false);
    assert_eq!(c.last_cc, None);
    assert_eq!(c.route_event(1, 7), MidiRoute::Mapped(0));
}

#[test]
fn control_change_messages() {
    assert_eq!(control_change(&[0xB0, 7, 100]), Some((0, 7, 100)));
    assert_eq!(control_change(&[0xBF, 1, 2, 3]), Some((15, 1, 2)));
    assert_eq!(control_change(&[0x90, 60, 100]), None);
    assert_eq!(control_change(&[0xB0, 7]), None);
    assert_eq!(control_change(&[]), None);
}
