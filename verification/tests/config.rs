use kicks::config::{
    engine_start_order, parse_backend, parse_engine_mode, parse_provider, pick_device, AiProvider, AudioBackend,
    EngineKind, EngineMode, KicksConfig, SettingsPayload,
};

#[test]
fn default_config_for_home() {
    let c = KicksConfig::default_for_home("/home/ana", "model-x");
    assert_eq!(c.guitarix_host, "127.0.0.1");
    assert_eq!(c.guitarix_port, 4040);
    assert_eq!(c.active_engine, EngineMode::Guitarix);
    assert_eq!(c.jack_client_name, "kicks");
    assert_eq!(c.sample_rate, 48000);
    assert_eq!(c.buffer_size, 256);
    assert_eq!(c.audio_backend, AudioBackend::Cpal);
    assert_eq!(
        c.ir_directories,
        vec!["/home/ana/.config/guitarix/impulses".to_string(), "/home/ana/IR".to_string()]
    );
    assert_eq!(c.nam_directories, vec!["/home/ana/.nam".to_string()]);
    assert_eq!(c.preset_directories, vec!["/home/ana/.config/kicks/presets".to_string()]);
    assert_eq!(c.ai_provider, AiProvider::Anthropic);
    assert_eq!(c.ai_endpoint_url, "https://api.anthropic.com/v1/messages");
    assert_eq!(c.ai_model, "model-x");
    assert!(c.ai_api_key.is_empty() && c.active_ir_path.is_empty() && c.audio_device.is_empty());
}

#[test]
fn default_config_without_home() {
    let c = KicksConfig::default_for_home("", "model-x");
    assert_eq!(c.nam_directories, vec!["/.nam".to_string()]);
}

#[test]
fn provider_endpoints() {
    assert_eq!(AiProvider::Anthropic.default_endpoint(), "https://api.anthropic.com/v1/messages");
    assert_eq!(AiProvider::OpenAI.default_endpoint(), "https://api.openai.com/v1/chat/completions");
    assert_eq!(AiProvider::default(), AiProvider::Anthropic);
}

#[test]
fn names_parse_back() {
    for m in [EngineMode::Guitarix, EngineMode::Internal, EngineMode::Auto] {
        assert_eq!(parse_engine_mode(&m.name()), m);
    }
    for b in [AudioBackend::Cpal, AudioBackend::Jack] {
        assert_eq!(parse_backend(&b.name()), b);
    }
    for p in [AiProvider::Anthropic, AiProvider::OpenAI] {
        assert_eq!(parse_provider(&p.name()), p);
    }
    assert_eq!(parse_engine_mode(&"bogus".to_string()), EngineMode::Auto);
    assert_eq!(parse_backend(&"jack".to_string()), AudioBackend::Cpal);
    assert_eq!(parse_provider(&"".to_string()), AiProvider::Anthropic);
}

#[test]
fn settings_round_trip_changes_nothing() {
    let mut c = KicksConfig::default_for_home("/h", "model-x");
    c.active_ir_path = "/h/ir.wav".into();
    let before = c.clone();
    let form = SettingsPayload::from_config(&c);
    assert_eq!(form.engine_mode, "Guitarix");
    assert_eq!(form.audio_backend, "Cpal");
    assert_eq!(form.ai_provider, "Anthropic");
    let changed = c.apply_settings(form);
    assert!(!changed);
    assert_eq!(c.ir_directories, before.ir_directories);
    assert_eq!(c.active_engine, before.active_engine);
    assert_eq!(c.active_ir_path, "/h/ir.wav");
}

#[test]
fn settings_detect_audio_change() {
    let mut c = KicksConfig::default_for_home("/h", "model-x");
    let mut form = SettingsPayload::from_config(&c);
    form.buffer_size = 128;
    form.engine_mode = "Internal".into();
    form.ai_provider = "OpenAI".into();
    assert!(c.apply_settings(form));
    assert_eq!(c.buffer_size, 128);
    assert_eq!(c.active_engine, EngineMode::Internal);
    assert_eq!(c.ai_provider, AiProvider::OpenAI);

    let mut form = SettingsPayload::from_config(&c);
    form.audio_backend = "Jack".into();
    assert!(c.apply_settings(form));
    assert_eq!(c.audio_backend, AudioBackend::Jack);

    let mut form = SettingsPayload::from_config(&c);
    form.guitarix_port = 9000;
    form.jack_client_name = "other".into();
    assert!(!c.apply_settings(form));
    assert_eq!(c.guitarix_port, 9000);
}

#[test]
fn device_selection_prefers_specific() {
    assert_eq!(pick_device(&"in".to_string(), &"shared".to_string()), Some("in".to_string()));
    assert_eq!(pick_device(&"".to_string(), &"shared".to_string()), Some("shared".to_string()));
    assert_eq!(pick_device(&"".to_string(), &"".to_string()), None);
}

#[test]
fn auto_mode_tries_the_internal_engine_first() {
    assert_eq!(engine_start_order(EngineMode::Auto), vec![EngineKind::Internal, EngineKind::Guitarix]);
    assert_eq!(engine_start_order(EngineMode::Internal), vec![EngineKind::Internal]);
    assert_eq!(engine_start_order(EngineMode::Guitarix), vec![EngineKind::Guitarix]);
}
