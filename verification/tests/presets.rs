use kicks::preset::{Bank, Preset, PresetCollection, PresetError, Timestamp};
use kicks::signal_chain::SignalChain;

fn preset(name: &str) -> Preset {
    let t = Timestamp { secs: 1_700_000_000, nanos: 0 };
    Preset {
        name: name.into(),
        description: "A test".into(),
        tags: vec!["test".into()],
        signal_chain: SignalChain::default(),
        created: t,
        modified: t,
    }
}

#[test]
fn add_creates_bank_then_appends() {
    let mut c = PresetCollection::default();
    c.add_preset("Test Bank".into(), preset("Test Preset"));
    assert_eq!(c.banks.len(), 1);
    assert_eq!(c.banks[0].name, "Test Bank");
    assert_eq!(c.banks[0].presets[0].name, "Test Preset");
    c.add_preset("Test Bank".into(), preset("Second"));
    assert_eq!(c.banks.len(), 1);
    assert_eq!(c.banks[0].presets.len(), 2);
    c.add_preset("Other".into(), preset("Third"));
    assert_eq!(c.banks.len(), 2);
    assert_eq!(c.find_bank("Other"), Some(1));
    assert_eq!(c.find_bank("Missing"), None);
}

#[test]
fn get_preset_errors() {
    let mut c = PresetCollection { banks: vec![Bank { name: "B".into(), presets: vec![] }] };
    assert_eq!(c.get_preset("X", "p").unwrap_err(), PresetError::BankNotFound);
    assert_eq!(c.get_preset("B", "p").unwrap_err(), PresetError::PresetNotFound);
    c.add_preset("B".into(), preset("p"));
    assert_eq!(c.get_preset("B", "p").unwrap().description, "A test");
}

#[test]
fn delete_removes_all_with_name() {
    let mut c = PresetCollection::default();
    c.add_preset("B".into(), preset("dup"));
    c.add_preset("B".into(), preset("keep"));
    c.add_preset("B".into(), preset("dup"));
    assert_eq!(c.delete_preset("B", "dup"), Ok(()));
    assert_eq!(c.banks[0].presets.len(), 1);
    assert_eq!(c.banks[0].presets[0].name, "keep");
    assert_eq!(c.delete_preset("B", "dup"), Err(PresetError::NotFoundInBank));
    assert_eq!(c.delete_preset("Z", "keep"), Err(PresetError::NotFoundInBank));
}

#[test]
fn rename_first_match() {
    let mut c = PresetCollection::default();
    c.add_preset("B".into(), preset("old"));
    c.add_preset("B".into(), preset("old"));
    assert_eq!(c.rename_preset("B", "old", "new".into()), Ok(()));
    assert_eq!(c.banks[0].presets[0].name, "new");
    assert_eq!(c.banks[0].presets[1].name, "old");
    assert_eq!(c.rename_preset("B", "gone", "x".into()), Err(PresetError::PresetNotFound));
    assert_eq!(c.rename_preset("Q", "old", "x".into()), Err(PresetError::BankNotFound));
}

#[test]
fn saved_preset_loads_and_deleted_preset_is_gone() {
    let mut c = PresetCollection::default();
    c.add_preset("Live".into(), preset("Lead"));
    c.add_preset("Live".into(), preset("Rhythm"));
    assert_eq!(c.get_preset("Live", "Rhythm").unwrap().name, "Rhythm");
    assert_eq!(c.delete_preset("Live", "Rhythm"), Ok(()));
    assert_eq!(c.get_preset("Live", "Rhythm").unwrap_err(), PresetError::PresetNotFound);
    assert_eq!(c.get_preset("Live", "Lead").unwrap().name, "Lead");
}

#[test]
fn renamed_preset_is_found_under_its_new_name() {
    let mut c = PresetCollection::default();
    c.add_preset("Live".into(), preset("Lead"));
    c.add_preset("Live".into(), preset("Rhythm"));
    assert_eq!(c.rename_preset("Live", "Rhythm", "Crunch".into()), Ok(()));
    assert_eq!(c.get_preset("Live", "Crunch").unwrap().name, "Crunch");
    assert_eq!(c.get_preset("Live", "Rhythm").unwrap_err(), PresetError::PresetNotFound);
    assert_eq!(c.banks[0].presets[1].name, "Crunch");
}
