use kicks::persistence::{
    config_dir, config_path, join_path, load_config, load_midi_config, load_presets, load_scenes,
    load_signal_chain, midi_config_path, presets_path, scenes_path, signal_chain_path,
};
use kicks::scene::SceneCollection;
use kicks::signal_chain::SignalChain;

#[test]
fn config_dir_prefers_xdg() {
    assert_eq!(config_dir(Some("/xdg".into()), Some("/home/a".into())), "/xdg/kicks");
    assert_eq!(config_dir(Some("/xdg/".into()), None), "/xdg/kicks");
    assert_eq!(config_dir(None, Some("/home/a".into())), "/home/a/.config/kicks");
    assert_eq!(config_dir(None, None), "/tmp/.config/kicks");
    assert_eq!(config_dir(Some("".into()), None), "kicks");
}

#[test]
fn test_path_defaults() {
    let dir = config_dir(None, Some("/home/a".into()));
    assert!(dir.ends_with("kicks"));
    assert!(presets_path(&dir).contains("presets"));
    assert!(config_path(&dir).contains("config"));
    assert!(signal_chain_path(&dir).contains("signal_chain"));
    assert!(midi_config_path(&dir).contains("midi_config"));
    assert_eq!(scenes_path(&dir), "/home/a/.config/kicks/scenes.json");
    assert_eq!(presets_path(&dir), "/home/a/.config/kicks/presets.json");
}

#[test]
fn join_path_separators() {
    assert_eq!(join_path("a", "b"), "a/b");
    assert_eq!(join_path("a/", "b"), "a/b");
    assert_eq!(join_path("", "b"), "b");
}

#[test]
fn load_falls_back_to_defaults() {
    let c = load_config(Ok(None), "/h", "model-x");
    assert_eq!(c.guitarix_port, 4040);
    let c = load_config(Err("bad json".into()), "/h", "model-x");
    assert_eq!(c.jack_client_name, "kicks");
    let mut saved = kicks::config::KicksConfig::default_for_home("/h", "model-x");
    saved.jack_client_name = "kicks-test".into();
    let c = load_config(Ok(Some(saved)), "/h", "model-x");
    assert_eq!(c.jack_client_name, "kicks-test");

    assert_eq!(load_signal_chain(Ok(None)).slots.len(), 7);
    let one = SignalChain { slots: vec![SignalChain::default().slots[0].clone()] };
    assert_eq!(load_signal_chain(Ok(Some(one))).slots.len(), 1);
    assert!(load_scenes(Err("x".into())).is_empty());
    let mut sc = SceneCollection::new();
    sc.add_scene("A".into(), SignalChain::default());
    assert_eq!(load_scenes(Ok(Some(sc))).len(), 1);
    assert!(load_presets(Ok(None)).banks.is_empty());
    assert_eq!(load_midi_config(Err("x".into())).channel, 1);
}
