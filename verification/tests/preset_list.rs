use kicks::preset::{Bank, Preset, PresetCollection, Timestamp};
use kicks::preset_list::{describe_preset, list_presets};
use kicks::signal_chain::SignalChain;

fn preset(name: &str, secs: i64) -> Preset {
    Preset {
        name: name.into(),
        description: "A test".into(),
        tags: vec!["test".into(), "warm".into()],
        signal_chain: SignalChain::default(),
        created: Timestamp { secs, nanos: 0 },
        modified: Timestamp { secs: secs + 61, nanos: 500 },
    }
}

#[test]
fn dates_are_shown_in_utc() {
    let d = describe_preset(&preset("Lead", 1_700_000_000));
    assert_eq!(d.name, "Lead");
    assert_eq!(d.description, "A test");
    assert_eq!(d.tags, vec!["test".to_string(), "warm".to_string()]);
    assert_eq!(d.created, "2023-11-14 22:13:20 UTC");
    assert_eq!(d.modified, "2023-11-14 22:14:21 UTC");
    assert_eq!(describe_preset(&preset("Zero", 0)).created, "1970-01-01 00:00:00 UTC");
}

#[test]
fn banks_and_presets_keep_their_order() {
    let c = PresetCollection {
        banks: vec![
            Bank { name: "Jazz".into(), presets: vec![preset("A", 0), preset("B", 86_400)] },
            Bank { name: "Metal".into(), presets: vec![] },
        ],
    };
    let l = list_presets(&c);
    assert_eq!(l.len(), 2);
    assert_eq!(l[0].name, "Jazz");
    assert_eq!(l[0].presets.iter().map(|p| p.name.as_str()).collect::<Vec<_>>(), vec!["A", "B"]);
    assert_eq!(l[0].presets[1].created, "1970-01-02 00:00:00 UTC");
    assert!(l[1].presets.is_empty());
}
