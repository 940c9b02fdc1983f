use kicks::ai::{reply_text, ReplyTexts};
use kicks::text::{is_whitespace, trim};
use kicks::ai::{
    ai_signal_chain, build_system_prompt, check_api_key, fence_body, parse_plugin_type, plugin_type_of_name,
    strip_code_fences, AiRequestError, AiSlot,
};
use kicks::config::AiProvider;
use kicks::signal_chain::PluginType;

#[test]
fn plugin_type_names() {
    assert_eq!(parse_plugin_type("Amp"), PluginType::Amp);
    assert_eq!(parse_plugin_type("  GUITAR "), PluginType::Amp);
    assert_eq!(parse_plugin_type("BassAmp"), PluginType::BassAmp);
    assert_eq!(parse_plugin_type("bass_amp"), PluginType::BassAmp);
    assert_eq!(parse_plugin_type("bass"), PluginType::BassAmp);
    assert_eq!(parse_plugin_type("Input"), PluginType::Input);
    assert_eq!(parse_plugin_type("boost"), PluginType::Boost);
    assert_eq!(parse_plugin_type("Cab"), PluginType::Cab);
    assert_eq!(parse_plugin_type("Delay"), PluginType::Delay);
    assert_eq!(parse_plugin_type("Reverb"), PluginType::Reverb);
    assert_eq!(parse_plugin_type("Output"), PluginType::Output);
    assert_eq!(parse_plugin_type(" Chorus "), PluginType::Custom("chorus".into()));
}

#[test]
fn strips_fences() {
    assert_eq!(strip_code_fences("```json\n{\"a\":1}\n```"), "{\"a\":1}");
    assert_eq!(strip_code_fences("  ```\n{}\n``````  "), "{}");
    assert_eq!(strip_code_fences("  {\"x\": 2} \n"), "{\"x\": 2}");
}

#[test]
fn api_key_rules() {
    assert_eq!(check_api_key(AiProvider::Anthropic, ""), Err(AiRequestError::MissingApiKey));
    assert_eq!(check_api_key(AiProvider::Anthropic, "k"), Ok(()));
    assert_eq!(check_api_key(AiProvider::OpenAI, ""), Ok(()));
}

#[test]
fn system_prompt_lists_plugins() {
    let p = build_system_prompt();
    assert!(p.starts_with("You are a guitar and bass tone expert."));
    assert!(p.contains("\"BassAmp\""));
    assert!(p.ends_with("The frontend will add Input and Output slots automatically."));
}

#[test]
fn type_labels_match_debug_text() {
    assert_eq!(PluginType::BassAmp.type_label(), "BassAmp");
    assert_eq!(PluginType::Input.type_label(), "Input");
    let custom = PluginType::Custom("we\"ird".into());
    assert_eq!(custom.type_label(), format!("{:?}", custom));
}

#[test]
fn suggested_slots_become_a_framed_chain() {
    let slots = vec![
        AiSlot {
            plugin_type: "Amp".into(),
            enabled: true,
            wet_dry: 1.0f32.to_bits(),
            parameters: vec![("gain".into(), 0.5f32.to_bits()), ("gain".into(), 0.6f32.to_bits())],
        },
        AiSlot { plugin_type: "chorus".into(), enabled: false, wet_dry: 0.5f32.to_bits(), parameters: vec![] },
        AiSlot { plugin_type: "Delay".into(), enabled: true, wet_dry: 1.0f32.to_bits(), parameters: vec![] },
    ];
    let chain = ai_signal_chain(&slots);
    let ids: Vec<&str> = chain.slots.iter().map(|s| s.id.as_str()).collect();
    assert_eq!(ids, vec!["input", "amp-0", "custom(\"chorus\")-1", "delay-2", "output"]);
    assert_eq!(chain.slots[0].plugin_type, PluginType::Input);
    assert_eq!(chain.slots[4].plugin_type, PluginType::Output);
    assert_eq!(chain.slots[4].parameters, vec![("volume".to_string(), 0.8f32.to_bits())]);
    // A repeated name keeps its last value, as a map would.
    assert_eq!(chain.slots[1].parameters, vec![("gain".to_string(), 0.6f32.to_bits())]);
    assert!(!chain.slots[2].enabled);
    assert_eq!(chain.slots[2].wet_dry, 0.5f32.to_bits());
}

#[test]
fn names_map_without_lowercasing_or_trimming() {
    assert_eq!(plugin_type_of_name("amp"), PluginType::Amp);
    assert_eq!(plugin_type_of_name("bass_amp"), PluginType::BassAmp);
    assert_eq!(plugin_type_of_name("Amp"), PluginType::Custom("Amp".into()));
    assert_eq!(plugin_type_of_name(" amp "), PluginType::Custom(" amp ".into()));
}

#[test]
fn trimming_removes_unicode_whitespace() {
    assert_eq!(parse_plugin_type("\u{3000}\tAmp\u{a0}\n"), PluginType::Amp);
    assert_eq!(strip_code_fences("\u{2003}{}\u{2028}"), "{}");
}

#[test]
fn fence_bodies() {
    assert_eq!(fence_body("```json\n{}\n```"), Some("\n{}\n"));
    assert_eq!(fence_body("```\n[1]\n``````"), Some("\n[1]\n"));
    assert_eq!(fence_body("{}"), None);
    assert_eq!(fence_body(" ```json{}```"), None);
}

#[test]
fn reply_texts_by_provider() {
    let items = || Some(vec![None, Some("second".to_string()), Some("third".to_string())]);
    assert_eq!(reply_text(AiProvider::Anthropic, &ReplyTexts { items: items() }), Some("second".to_string()));
    assert_eq!(reply_text(AiProvider::OpenAI, &ReplyTexts { items: items() }), None);
    let first = ReplyTexts { items: Some(vec![Some("first".to_string())]) };
    assert_eq!(reply_text(AiProvider::OpenAI, &first), Some("first".to_string()));
    assert_eq!(reply_text(AiProvider::Anthropic, &ReplyTexts { items: None }), None);
    assert_eq!(reply_text(AiProvider::OpenAI, &ReplyTexts { items: Some(vec![]) }), None);
}

#[test]
fn trim_keeps_inner_whitespace() {
    assert_eq!(trim("  a b\u{2009}c \n"), "a b\u{2009}c");
    assert_eq!(trim("\u{3000}\u{85}"), "");
    assert_eq!(trim(""), "");
    assert_eq!(trim("\u{200b}x"), "\u{200b}x");
    assert!(is_whitespace('\u{1680}'));
    assert!(!is_whitespace('\u{200b}'));
}
