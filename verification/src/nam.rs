//! Loading a neural amp model: which network a model file names, the
//! defaults of its configuration, and where each part of the network lies
//! in the file's flat list of weights.
//!
//! A model's weights are read front to back, each part taking the next
//! weights in order; a part that runs past the end of the list gets only
//! the weights that are left, and every part after it gets none.
use vstd::prelude::*;

verus! {

broadcast use vstd::string::group_string_axioms;

/// The network a model file describes.
#[derive(Debug, Clone, Copy, PartialEq, Eq, Structural)]
pub enum NamArchitecture {
    Linear,
    WaveNet,
    Lstm,
    /// An architecture the engine does not know; audio passes unchanged.
    Passthrough,
}

/// The network that an architecture name selects.
pub open spec fn architecture_of(name: Seq<char>) -> NamArchitecture {
    if name == "Linear"@ {
        NamArchitecture::Linear
    } else if name == "WaveNet"@ {
        NamArchitecture::WaveNet
    } else if name == "LSTM"@ {
        NamArchitecture::Lstm
    } else {
        NamArchitecture::Passthrough
    }
}

/// Whether `s` holds exactly the text `lit`.
fn same_text(s: &String, lit: &str) -> (b: bool)
    ensures
        b == (s@ == lit@),
{
    *s == lit.to_string()
}

/// The network a model file's architecture name selects.
pub fn parse_architecture(name: &str) -> (a: NamArchitecture)
    ensures
        a == architecture_of(name@),
{
    let n = name.to_string();
    if same_text(&n, "Linear") {
        NamArchitecture::Linear
    } else if same_text(&n, "WaveNet") {
        NamArchitecture::WaveNet
    } else if same_text(&n, "LSTM") {
        NamArchitecture::Lstm
    } else {
        NamArchitecture::Passthrough
    }
}

/// The smaller of two integers.
pub open spec fn lesser(a: int, b: int) -> int {
    if a < b {
        a
    } else {
        b
    }
}

/// `r` is the part of a list of `len` weights that `n` weights from
/// position `start` get: cut off at the end of the list.
pub open spec fn spans(r: (usize, usize), start: int, n: int, len: int) -> bool {
    r.0 == lesser(start, len) && r.1 == lesser(start + n, len)
}

/// A position in a list of weights that are read front to back.
pub struct WeightReader {
    pos: usize,
    len: usize,
}

impl WeightReader {
    #[verifier::type_invariant]
    spec fn within(self) -> bool {
        self.pos <= self.len
    }

    /// How many weights were read.
    pub closed spec fn position(self) -> nat {
        self.pos as nat
    }

    /// How many weights the list holds.
    pub closed spec fn length(self) -> nat {
        self.len as nat
    }

    /// A reader at the start of a list of `len` weights.
    pub fn new(len: usize) -> (r: Self)
        ensures
            r.position() == 0,
            r.length() == len,
    {
        WeightReader { pos: 0, len }
    }

    /// Reads the next `n` weights, or those that are left: the part of the
    /// list they take, from its start up to its end.
    pub fn read(&mut self, n: usize) -> (r: (usize, usize))
        ensures
            r.0 == old(self).position(),
            r.1 == lesser(old(self).position() + n, old(self).length() as int),
            final(self).position() == r.1,
            final(self).length() == old(self).length(),
    {
        proof {
            use_type_invariant(&*self);
        }
        let start = self.pos;
        let end = if n > self.len - start {
            self.len
        } else {
            start + n
        };
        self.pos = end;
        (start, end)
    }

    /// How many weights are left to read.
    pub fn remaining(&self) -> (n: usize)
        ensures
            n == self.length() - self.position(),
    {
        proof {
            use_type_invariant(self);
        }
        self.len - self.pos
    }
}

/// Where a linear model's weight and bias lie; a part that is `None` takes
/// its default (a weight of one, a bias of zero).
pub struct LinearLayout {
    pub weight: Option<(usize, usize)>,
    pub bias: Option<(usize, usize)>,
}

/// Where the single weight and the bias of a linear model lie in a list of
/// `len` weights: the weight is read only when one is there, the bias only
/// when the model has one.
pub fn linear_layout(len: usize, bias_enabled: bool) -> (l: LinearLayout)
    ensures
        len >= 1 ==> l.weight == Some((0usize, 1usize)),
        len == 0 ==> l.weight is None,
        bias_enabled ==> (l.bias matches Some(b) && spans(b, 1, 1, len as int)),
        !bias_enabled ==> l.bias is None,
{
    let mut reader = WeightReader::new(len);
    let weight = if reader.remaining() >= 1 {
        Some(reader.read(1))
    } else {
        None
    };
    let bias = if bias_enabled {
        Some(reader.read(1))
    } else {
        None
    };
    LinearLayout { weight, bias }
}

/// The dilations of a WaveNet model whose file names none: 1, 2, 4, … 128.
pub open spec fn default_dilations() -> Seq<usize> {
    seq![1usize, 2, 4, 8, 16, 32, 64, 128]
}

/// A WaveNet model's shape.
pub struct WaveNetConfig {
    pub channels: usize,
    pub kernel_size: usize,
    /// One layer per dilation, in order.
    pub dilations: Vec<usize>,
    /// Whether a layer gates its activation, which doubles its convolution.
    pub gated: bool,
    pub head_size: usize,
    pub head_bias: bool,
}

impl WaveNetConfig {
    /// The shape a model file gives, with the default for each value it
    /// leaves out: 16 channels, kernels of 3, the default dilations, gated
    /// layers, a head as wide as the channels and no head bias.
    pub fn with_defaults(
        channels: Option<usize>,
        kernel_size: Option<usize>,
        dilations: Option<Vec<usize>>,
        gated: Option<bool>,
        head_size: Option<usize>,
        head_bias: Option<bool>,
    ) -> (c: Self)
        ensures
            c.channels == (match channels {
                Some(v) => v,
                None => 16,
            }),
            c.kernel_size == (match kernel_size {
                Some(v) => v,
                None => 3,
            }),
            c.dilations@ == (match dilations {
                Some(d) => d@,
                None => default_dilations(),
            }),
            c.gated == (match gated {
                Some(v) => v,
                None => true,
            }),
            c.head_size == (match head_size {
                Some(v) => v,
                None => c.channels,
            }),
            c.head_bias == (match head_bias {
                Some(v) => v,
                None => false,
            }),
    {
        let channels = match channels {
            Some(v) => v,
            None => 16,
        };
        let dilations = match dilations {
            Some(d) => d,
            None => {
                let d = vec![1usize, 2, 4, 8, 16, 32, 64, 128];
                assert(d@ =~= default_dilations());
                d
            },
        };
        WaveNetConfig {
            channels,
            kernel_size: match kernel_size {
                Some(v) => v,
                None => 3,
            },
            dilations,
            gated: match gated {
                Some(v) => v,
                None => true,
            },
            head_size: match head_size {
                Some(v) => v,
                None => channels,
            },
            head_bias: match head_bias {
                Some(v) => v,
                None => false,
            },
        }
    }
}

/// The largest of a non-empty list of dilations.
pub open spec fn largest(s: Seq<usize>) -> int
    decreases s.len(),
{
    if s.len() <= 1 {
        s[0] as int
    } else {
        let m = largest(s.drop_last());
        if s.last() > m {
            s.last() as int
        } else {
            m
        }
    }
}

/// The dilation a WaveNet model sizes its delay lines by: the largest, or
/// one when the model has no layers.
pub open spec fn delay_dilation(c: WaveNetConfig) -> int {
    if c.dilations@.len() == 0 {
        1
    } else {
        largest(c.dilations@)
    }
}

/// How many weights a layer's convolution takes.
pub open spec fn conv_weights(c: WaveNetConfig) -> int {
    if c.gated {
        c.channels * 2 * c.channels * c.kernel_size
    } else {
        c.channels * c.channels * c.kernel_size
    }
}

/// How many biases a layer's convolution takes.
pub open spec fn conv_biases(c: WaveNetConfig) -> int {
    if c.gated {
        c.channels * 2
    } else {
        c.channels as int
    }
}

/// How many weights one layer takes: its convolution's weights and
/// biases, then its skip connection's weights and biases.
pub open spec fn layer_weights(c: WaveNetConfig) -> int {
    conv_weights(c) + conv_biases(c) + c.channels * c.channels + c.channels
}

/// How many weights the head projection's weights take.
pub open spec fn head_weights(c: WaveNetConfig) -> int {
    if c.head_size > 0 {
        c.head_size as int
    } else {
        0
    }
}

/// How many weights the head projection's biases take.
pub open spec fn head_biases(c: WaveNetConfig) -> int {
    if c.head_bias && c.head_size > 0 {
        c.head_size as int
    } else {
        0
    }
}

/// Where layer `i` starts when no part is cut off.
pub open spec fn layer_start(c: WaveNetConfig, i: int) -> int {
    head_weights(c) + head_biases(c) + i * layer_weights(c)
}

/// The length of each layer's delay line: the channels times the largest
/// delay plus room for a kernel and one sample.
pub open spec fn delay_line_len(c: WaveNetConfig) -> int {
    c.channels * (delay_dilation(c) * c.kernel_size + c.kernel_size + c.kernel_size + 1)
}

/// Every size a WaveNet model computes from its shape fits in a `usize`.
pub open spec fn wavenet_fits(c: WaveNetConfig) -> bool {
    &&& c.channels * 2 <= usize::MAX
    &&& c.channels * 2 * c.channels <= usize::MAX
    &&& c.channels * 2 * c.channels * c.kernel_size <= usize::MAX
    &&& c.channels * c.channels <= usize::MAX
    &&& c.channels * c.channels * c.kernel_size <= usize::MAX
    &&& delay_dilation(c) * c.kernel_size <= usize::MAX
    &&& delay_dilation(c) * c.kernel_size + c.kernel_size + c.kernel_size + 1 <= usize::MAX
    &&& delay_line_len(c) <= usize::MAX
}

/// Where one WaveNet layer's parts lie.
pub struct LayerRanges {
    pub conv_weight: (usize, usize),
    pub conv_bias: (usize, usize),
    pub skip_weight: (usize, usize),
    pub skip_bias: (usize, usize),
}

/// Layer `i`'s parts lie where they do in a list of `len` weights.
pub open spec fn layer_at(r: LayerRanges, c: WaveNetConfig, i: int, len: int) -> bool {
    let s = layer_start(c, i);
    &&& spans(r.conv_weight, s, conv_weights(c), len)
    &&& spans(r.conv_bias, s + conv_weights(c), conv_biases(c), len)
    &&& spans(r.skip_weight, s + conv_weights(c) + conv_biases(c), c.channels * c.channels, len)
    &&& spans(r.skip_bias, s + conv_weights(c) + conv_biases(c) + c.channels * c.channels, c.channels as int, len)
}

/// Where a WaveNet model's parts lie, and how long its delay lines are.
pub struct WaveNetLayout {
    pub head_weight: Option<(usize, usize)>,
    pub head_bias: Option<(usize, usize)>,
    pub layers: Vec<LayerRanges>,
    pub output_weight: (usize, usize),
    pub output_bias: (usize, usize),
    pub delay_len: usize,
}

/// The largest dilation of a non-empty list.
fn largest_dilation(d: &Vec<usize>) -> (m: usize)
    requires
        d@.len() > 0,
    ensures
        m == largest(d@),
{
    let mut m = d[0];
    let mut i: usize = 1;
    while i < d.len()
        invariant
            1 <= i <= d@.len(),
            m == largest(d@.subrange(0, i as int)),
        decreases d@.len() - i,
    {
        proof {
            let t = d@.subrange(0, i as int + 1);
            assert(t.drop_last() =~= d@.subrange(0, i as int));
        }
        if d[i] > m {
            m = d[i];
        }
        i = i + 1;
    }
    assert(d@.subrange(0, d@.len() as int) =~= d@);
    m
}

/// Whether every size of a WaveNet model with shape `c` fits in a `usize`.
pub fn wavenet_sizes_fit(c: &WaveNetConfig) -> (b: bool)
    ensures
        b == wavenet_fits(*c),
{
    let dil = if c.dilations.len() == 0 {
        1
    } else {
        largest_dilation(&c.dilations)
    };
    let ch = c.channels;
    let ks = c.kernel_size;
    let ch2 = match ch.checked_mul(2) {
        Some(v) => v,
        None => return false,
    };
    let ch2ch = match ch2.checked_mul(ch) {
        Some(v) => v,
        None => return false,
    };
    if ch2ch.checked_mul(ks).is_none() {
        return false;
    }
    let chch = match ch.checked_mul(ch) {
        Some(v) => v,
        None => return false,
    };
    if chch.checked_mul(ks).is_none() {
        return false;
    }
    let span = match dil.checked_mul(ks) {
        Some(v) => v,
        None => return false,
    };
    if span > usize::MAX - ks || span + ks > usize::MAX - ks || span + ks + ks == usize::MAX {
        return false;
    }
    ch.checked_mul(span + ks + ks + 1).is_some()
}

/// Moving on by one layer from where layer `i` starts reaches where layer
/// `i + 1` starts.
proof fn lemma_next_layer(c: WaveNetConfig, i: int)
    ensures
        layer_start(c, i) + layer_weights(c) == layer_start(c, i + 1),
{
    assert(i * layer_weights(c) + layer_weights(c) == (i + 1) * layer_weights(c)) by (nonlinear_arith);
}

/// Where each part of a WaveNet model with shape `c` lies in a list of
/// `len` weights: the head's weights and biases, each layer's convolution
/// and skip connection, then the output projection's weights and its bias;
/// and the length of each layer's delay line.
pub fn wavenet_layout(c: &WaveNetConfig, len: usize) -> (l: WaveNetLayout)
    requires
        wavenet_fits(*c),
    ensures
        c.head_size > 0 ==> (l.head_weight matches Some(r) && spans(r, 0, c.head_size as int, len as int)),
        c.head_size == 0 ==> l.head_weight is None,
        (c.head_bias && c.head_size > 0) ==> (l.head_bias matches Some(r) && spans(
            r,
            head_weights(*c),
            c.head_size as int,
            len as int,
        )),
        !(c.head_bias && c.head_size > 0) ==> l.head_bias is None,
        l.layers@.len() == c.dilations@.len(),
        forall|i: int| 0 <= i < l.layers@.len() ==> #[trigger] layer_at(l.layers@[i], *c, i, len as int),
        spans(l.output_weight, layer_start(*c, c.dilations@.len() as int), c.channels as int, len as int),
        spans(l.output_bias, layer_start(*c, c.dilations@.len() as int) + c.channels, 1, len as int),
        l.delay_len == delay_line_len(*c),
{
    let ch = c.channels;
    let ks = c.kernel_size;
    let mut reader = WeightReader::new(len);
    let head_weight = if c.head_size > 0 {
        Some(reader.read(c.head_size))
    } else {
        None
    };
    let head_bias = if c.head_bias && c.head_size > 0 {
        Some(reader.read(c.head_size))
    } else {
        None
    };
    assert(reader.position() == lesser(layer_start(*c, 0), len as int));
    let conv_size = if c.gated {
        ch * 2 * ch * ks
    } else {
        ch * ch * ks
    };
    let bias_size = if c.gated {
        ch * 2
    } else {
        ch
    };
    let skip_size = ch * ch;
    let n = c.dilations.len();
    let mut layers: Vec<LayerRanges> = Vec::new();
    let mut i: usize = 0;
    while i < n
        invariant
            i <= n,
            n == c.dilations@.len(),
            conv_size == conv_weights(*c),
            bias_size == conv_biases(*c),
            skip_size == c.channels * c.channels,
            ch == c.channels,
            reader.length() == len,
            reader.position() == lesser(layer_start(*c, i as int), len as int),
            layers@.len() == i,
            forall|j: int| 0 <= j < i ==> #[trigger] layer_at(layers@[j], *c, j, len as int),
        decreases n - i,
    {
        let conv_weight = reader.read(conv_size);
        let conv_bias = reader.read(bias_size);
        let skip_weight = reader.read(skip_size);
        let skip_bias = reader.read(ch);
        let r = LayerRanges { conv_weight, conv_bias, skip_weight, skip_bias };
        proof {
            assert(layer_start(*c, i as int) >= 0) by (nonlinear_arith)
                requires
                    i >= 0,
                    layer_weights(*c) >= 0,
                    head_weights(*c) >= 0,
                    head_biases(*c) >= 0;
            lemma_next_layer(*c, i as int);
        }
        layers.push(r);
        i = i + 1;
    }
    let output_weight = reader.read(ch);
    let output_bias = reader.read(1);
    let dil = if c.dilations.len() == 0 {
        1
    } else {
        largest_dilation(&c.dilations)
    };
    let delay_len = ch * (dil * ks + ks + ks + 1);
    WaveNetLayout { head_weight, head_bias, layers, output_weight, output_bias, delay_len }
}

/// An LSTM model's shape.
pub struct LstmConfig {
    pub input_size: usize,
    pub hidden_size: usize,
    pub num_layers: usize,
}

impl LstmConfig {
    /// The shape a model file gives, with the default for each value it
    /// leaves out: one input, eight hidden units and one layer.
    pub fn with_defaults(input_size: Option<usize>, hidden_size: Option<usize>, num_layers: Option<usize>) -> (c: Self)
        ensures
            c.input_size == (match input_size {
                Some(v) => v,
                None => 1,
            }),
            c.hidden_size == (match hidden_size {
                Some(v) => v,
                None => 8,
            }),
            c.num_layers == (match num_layers {
                Some(v) => v,
                None => 1,
            }),
    {
        LstmConfig {
            input_size: match input_size {
                Some(v) => v,
                None => 1,
            },
            hidden_size: match hidden_size {
                Some(v) => v,
                None => 8,
            },
            num_layers: match num_layers {
                Some(v) => v,
                None => 1,
            },
        }
    }
}

/// How many inputs layer `l` takes: the model's input for the first layer,
/// the previous layer's hidden state for the others.
pub open spec fn lstm_layer_inputs(c: LstmConfig, l: int) -> int {
    if l == 0 {
        c.input_size as int
    } else {
        c.hidden_size as int
    }
}

/// How many weights layer `l` takes: its input and recurrent weights for
/// the four gates, then their two bias vectors.
pub open spec fn lstm_layer_weights(c: LstmConfig, l: int) -> int {
    4 * c.hidden_size * lstm_layer_inputs(c, l) + 4 * c.hidden_size * c.hidden_size + 4 * c.hidden_size + 4
        * c.hidden_size
}

/// Where layer `l` starts when no part is cut off.
pub open spec fn lstm_layer_start(c: LstmConfig, l: int) -> int {
    if l <= 0 {
        0
    } else {
        lstm_layer_weights(c, 0) + (l - 1) * lstm_layer_weights(c, 1)
    }
}

/// Every size an LSTM model computes from its shape fits in a `usize`.
pub open spec fn lstm_fits(c: LstmConfig) -> bool {
    &&& 4 * c.hidden_size <= usize::MAX
    &&& 4 * c.hidden_size * c.input_size <= usize::MAX
    &&& 4 * c.hidden_size * c.hidden_size <= usize::MAX
}

/// Whether every size of an LSTM model with shape `c` fits in a `usize`.
pub fn lstm_sizes_fit(c: &LstmConfig) -> (b: bool)
    ensures
        b == lstm_fits(*c),
{
    match c.hidden_size.checked_mul(4) {
        None => false,
        Some(gates) => gates.checked_mul(c.input_size).is_some() && gates.checked_mul(c.hidden_size).is_some(),
    }
}

/// Where one LSTM layer's parts lie.
pub struct LstmLayerRanges {
    pub weight_ih: (usize, usize),
    pub weight_hh: (usize, usize),
    pub bias_ih: (usize, usize),
    pub bias_hh: (usize, usize),
}

/// Layer `l`'s parts lie where they do in a list of `len` weights.
pub open spec fn lstm_layer_at(r: LstmLayerRanges, c: LstmConfig, l: int, len: int) -> bool {
    let s = lstm_layer_start(c, l);
    let wi = 4 * c.hidden_size * lstm_layer_inputs(c, l);
    let wh = 4 * c.hidden_size * c.hidden_size;
    let b = 4 * c.hidden_size;
    &&& spans(r.weight_ih, s, wi, len)
    &&& spans(r.weight_hh, s + wi, wh, len)
    &&& spans(r.bias_ih, s + wi + wh, b, len)
    &&& spans(r.bias_hh, s + wi + wh + b, b, len)
}

/// Moving on by one layer from where layer `l` starts reaches where layer
/// `l + 1` starts.
proof fn lemma_next_lstm_layer(c: LstmConfig, l: int)
    requires
        l >= 0,
    ensures
        lstm_layer_start(c, l) + lstm_layer_weights(c, l) == lstm_layer_start(c, l + 1),
        lstm_layer_start(c, l) >= 0,
{
    let w = lstm_layer_weights(c, 1);
    assert(w >= 0) by (nonlinear_arith)
        requires
            w == lstm_layer_weights(c, 1);
    assert((l - 1) * w + w == l * w) by (nonlinear_arith);
    assert(l >= 1 ==> (l - 1) * w >= 0) by (nonlinear_arith)
        requires
            w >= 0;
}

/// Where each layer of an LSTM model with shape `c` lies in a list of `len`
/// weights: per layer, the input weights, the recurrent weights and the two
/// bias vectors of its four gates.
pub fn lstm_layout(c: &LstmConfig, len: usize) -> (layers: Vec<LstmLayerRanges>)
    requires
        lstm_fits(*c),
    ensures
        layers@.len() == c.num_layers,
        forall|l: int| 0 <= l < layers@.len() ==> #[trigger] lstm_layer_at(layers@[l], *c, l, len as int),
{
    let h = c.hidden_size;
    let gates = 4 * h;
    let mut reader = WeightReader::new(len);
    let mut layers: Vec<LstmLayerRanges> = Vec::new();
    let mut l: usize = 0;
    while l < c.num_layers
        invariant
            l <= c.num_layers,
            lstm_fits(*c),
            h == c.hidden_size,
            gates == 4 * c.hidden_size,
            reader.length() == len,
            reader.position() == lesser(lstm_layer_start(*c, l as int), len as int),
            layers@.len() == l,
            forall|j: int| 0 <= j < l ==> #[trigger] lstm_layer_at(layers@[j], *c, j, len as int),
        decreases c.num_layers - l,
    {
        let inputs = if l == 0 {
            c.input_size
        } else {
            h
        };
        let weight_ih = reader.read(gates * inputs);
        let weight_hh = reader.read(gates * h);
        let bias_ih = reader.read(gates);
        let bias_hh = reader.read(gates);
        proof {
            lemma_next_lstm_layer(*c, l as int);
        }
        layers.push(LstmLayerRanges { weight_ih, weight_hh, bias_ih, bias_hh });
        l = l + 1;
    }
    layers
}


/// Every LSTM layer after the first reads the previous layer's hidden state:
/// its input weights are `4 * hidden_size * hidden_size` and the layers
/// before it take `4 * hidden_size * input_size` input weights for the first
/// and `8 * hidden_size * hidden_size` for each other, plus `8 *
/// hidden_size` biases each, so it starts after all of them.
pub proof fn lemma_lstm_later_layers_read_hidden_state(c: LstmConfig, l: int, r: LstmLayerRanges, len: int)
    requires
        l >= 1,
        lstm_layer_at(r, c, l, len),
        4 * c.hidden_size * c.input_size + 8 * c.hidden_size * c.hidden_size * l + 8 * c.hidden_size * (l + 1)
            <= len,
    ensures
        r.weight_ih.0 == 4 * c.hidden_size * c.input_size + 4 * c.hidden_size * c.hidden_size + 8 * c.hidden_size
            + (l - 1) * (8 * c.hidden_size * c.hidden_size + 8 * c.hidden_size),
        r.weight_ih.1 - r.weight_ih.0 == 4 * c.hidden_size * c.hidden_size,
{
    let h = c.hidden_size as int;
    let i = c.input_size as int;
    let w1 = lstm_layer_weights(c, 1);
    assert(w1 == 8 * h * h + 8 * h) by (nonlinear_arith)
        requires
            w1 == 4 * h * h + 4 * h * h + 4 * h + 4 * h;
    let s = lstm_layer_start(c, l);
    assert(s == 4 * h * i + 4 * h * h + 8 * h + (l - 1) * (8 * h * h + 8 * h));
    assert(s + 4 * h * h <= 4 * h * i + 8 * h * h * l + 8 * h * (l + 1)) by (nonlinear_arith)
        requires
            s == 4 * h * i + 4 * h * h + 8 * h + (l - 1) * (8 * h * h + 8 * h),
            h >= 0,
            l >= 1;
    assert(4 * h * h >= 0) by (nonlinear_arith);
}


/// A WaveNet model's parts follow one another: the head's weights, its
/// biases when it has them, then the layers, each taking
/// `channels * channels * kernel_size` convolution weights (twice as many
/// when gated) and `channels` biases (twice as many when gated), then
/// `channels * channels` skip weights and `channels` skip biases.
pub proof fn lemma_wavenet_layers_follow(c: WaveNetConfig, i: int)
    requires
        i >= 0,
    ensures
        layer_start(c, 0) == (if c.head_size > 0 {
            c.head_size as int
        } else {
            0
        }) + (if c.head_bias && c.head_size > 0 {
            c.head_size as int
        } else {
            0
        }),
        layer_start(c, i + 1) == layer_start(c, i) + (if c.gated {
            2int
        } else {
            1int
        }) * (c.channels * c.channels * c.kernel_size + c.channels) + c.channels * c.channels + c.channels,
{
    let ch = c.channels as int;
    let k = c.kernel_size as int;
    assert(ch * 2 * ch * k == 2 * (ch * ch * k)) by (nonlinear_arith);
    assert(i * layer_weights(c) + layer_weights(c) == (i + 1) * layer_weights(c)) by (nonlinear_arith);
}

} // verus!
