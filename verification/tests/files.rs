use kicks::files::{is_ir_extension, is_nam_extension, is_wav_extension, IrFileInfo, JackConfig, NamModelInfo, NamModelLoadResult};

#[test]
fn ir_file_duration() {
    let i = IrFileInfo::new("/ir/a.wav".into(), "a.wav".into(), Some((48000, 24000, 2)));
    assert_eq!(i.duration_ms, 500);
    assert_eq!(i.channels, 2);
    let i = IrFileInfo::new("/ir/a.wav".into(), "a.wav".into(), Some((0, 24000, 1)));
    assert_eq!(i.duration_ms, 0);
    let i = IrFileInfo::new("/ir/b.irs".into(), "b.irs".into(), None);
    assert_eq!((i.sample_rate, i.sample_count, i.duration_ms, i.channels), (0, 0, 0, 0));
    let i = IrFileInfo::new("p".into(), "n".into(), Some((1, u32::MAX, 1)));
    assert_eq!(i.duration_ms, (u32::MAX as u64 * 1000) as u32);
}

#[test]
fn extensions() {
    assert!(is_ir_extension("WAV") && is_ir_extension("irs") && is_ir_extension("Nam"));
    assert!(!is_ir_extension("mp3"));
    assert!(is_nam_extension("NAM") && !is_nam_extension("wav"));
    assert!(is_wav_extension("Wav") && !is_wav_extension("irs"));
}

#[test]
fn jack_client_names() {
    assert_eq!(JackConfig::default().client_name, "Kicks");
    assert_eq!(JackConfig::for_client_name(&"".to_string()).client_name, "Kicks");
    assert_eq!(JackConfig::for_client_name(&"kicks".to_string()).client_name, "kicks");
}

#[test]
fn nam_result_copies_info() {
    let r = NamModelLoadResult::from_info(NamModelInfo {
        path: "/m.nam".into(),
        file_name: "m.nam".into(),
        architecture: "WaveNet".into(),
        sample_rate: 48000,
        num_parameters: 0,
    });
    assert_eq!(r.architecture, "WaveNet");
    assert_eq!(r.sample_rate, 48000);
}

#[test]
fn file_names_follow_the_last_slash() {
    assert_eq!(kicks::files::file_name_of("/home/u/IR/cab.wav"), "cab.wav");
    assert_eq!(kicks::files::file_name_of("cab.wav"), "cab.wav");
    assert_eq!(kicks::files::file_name_of("dir/"), "");
    assert_eq!(kicks::files::file_name_of(""), "");
    assert_eq!(kicks::files::file_name_of("a/b/c"), "c");
}
