use kicks::nam::{
    linear_layout, lstm_layout, lstm_sizes_fit, parse_architecture, wavenet_layout, wavenet_sizes_fit, LstmConfig,
    NamArchitecture, WaveNetConfig, WeightReader,
};

#[test]
fn architecture_names() {
    assert_eq!(parse_architecture("Linear"), NamArchitecture::Linear);
    assert_eq!(parse_architecture("WaveNet"), NamArchitecture::WaveNet);
    assert_eq!(parse_architecture("LSTM"), NamArchitecture::Lstm);
    assert_eq!(parse_architecture("lstm"), NamArchitecture::Passthrough);
    assert_eq!(parse_architecture("UnknownArch"), NamArchitecture::Passthrough);
}

#[test]
fn reads_stop_at_the_end_of_the_weights() {
    let mut r = WeightReader::new(5);
    assert_eq!(r.read(2), (0, 2));
    assert_eq!(r.remaining(), 3);
    assert_eq!(r.read(4), (2, 5));
    assert_eq!(r.read(1), (5, 5));
    assert_eq!(r.read(usize::MAX), (5, 5));
    assert_eq!(r.remaining(), 0);
}

#[test]
fn linear_weight_then_bias() {
    let l = linear_layout(2, true);
    assert_eq!((l.weight, l.bias), (Some((0, 1)), Some((1, 2))));
    let l = linear_layout(0, true);
    assert_eq!((l.weight, l.bias), (None, Some((0, 0))));
    let l = linear_layout(2, false);
    assert_eq!((l.weight, l.bias), (Some((0, 1)), None));
}

#[test]
fn wavenet_defaults() {
    let c = WaveNetConfig::with_defaults(None, None, None, None, None, None);
    assert_eq!((c.channels, c.kernel_size, c.gated, c.head_size, c.head_bias), (16, 3, true, 16, false));
    assert_eq!(c.dilations, vec![1, 2, 4, 8, 16, 32, 64, 128]);
    let c = WaveNetConfig::with_defaults(Some(4), None, Some(vec![]), Some(false), None, Some(true));
    assert_eq!((c.channels, c.head_size, c.head_bias, c.gated), (4, 4, true, false));
    assert!(c.dilations.is_empty());
}

#[test]
fn minimal_wavenet_layout() {
    // One layer, one channel, kernel of two, no gating: the head weight,
    // two convolution weights, its bias, the skip weight and bias, then the
    // output weight and bias.
    let c = WaveNetConfig::with_defaults(Some(1), Some(2), Some(vec![1]), Some(false), Some(1), Some(false));
    assert!(wavenet_sizes_fit(&c));
    let l = wavenet_layout(&c, 8);
    assert_eq!(l.head_weight, Some((0, 1)));
    assert_eq!(l.head_bias, None);
    assert_eq!(l.layers.len(), 1);
    let layer = &l.layers[0];
    assert_eq!((layer.conv_weight, layer.conv_bias, layer.skip_weight, layer.skip_bias), ((1, 3), (3, 4), (4, 5), (5, 6)));
    assert_eq!((l.output_weight, l.output_bias), ((6, 7), (7, 8)));
    assert_eq!(l.delay_len, 1 * (1 * 2 + 2 + 2 + 1));
}

#[test]
fn gated_wavenet_layers_and_short_weights() {
    let c = WaveNetConfig::with_defaults(Some(2), Some(3), Some(vec![1, 4, 2]), None, None, Some(true));
    assert!(wavenet_sizes_fit(&c));
    // head 2 + head bias 2, then layers of 2*2*2*3 + 4 + 4 + 2 = 34 weights.
    let l = wavenet_layout(&c, 40);
    assert_eq!((l.head_weight, l.head_bias), (Some((0, 2)), Some((2, 4))));
    assert_eq!(l.layers[0].conv_weight, (4, 28));
    assert_eq!(l.layers[0].skip_bias, (36, 38));
    assert_eq!(l.layers[1].conv_weight, (38, 40));
    assert_eq!(l.layers[2].skip_bias, (40, 40));
    assert_eq!((l.output_weight, l.output_bias), ((40, 40), (40, 40)));
    assert_eq!(l.delay_len, 2 * (4 * 3 + 3 + 3 + 1));
}

#[test]
fn oversized_wavenet_shapes_are_refused() {
    let c = WaveNetConfig::with_defaults(Some(usize::MAX / 2 + 1), None, None, None, None, None);
    assert!(!wavenet_sizes_fit(&c));
    let c = WaveNetConfig::with_defaults(Some(1), Some(usize::MAX), Some(vec![2]), None, None, None);
    assert!(!wavenet_sizes_fit(&c));
}

#[test]
fn lstm_layers() {
    let c = LstmConfig::with_defaults(None, None, None);
    assert_eq!((c.input_size, c.hidden_size, c.num_layers), (1, 8, 1));
    let c = LstmConfig::with_defaults(Some(1), Some(1), Some(2));
    assert!(lstm_sizes_fit(&c));
    let l = lstm_layout(&c, 20);
    assert_eq!(l.len(), 2);
    assert_eq!((l[0].weight_ih, l[0].weight_hh, l[0].bias_ih, l[0].bias_hh), ((0, 4), (4, 8), (8, 12), (12, 16)));
    assert_eq!((l[1].weight_ih, l[1].weight_hh, l[1].bias_ih, l[1].bias_hh), ((16, 20), (20, 20), (20, 20), (20, 20)));
    assert!(!lstm_sizes_fit(&LstmConfig::with_defaults(None, Some(usize::MAX / 4 + 1), None)));
}
