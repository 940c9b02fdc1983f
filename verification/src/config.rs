//! Application configuration: engine and backend selection, audio device
//! settings, file directories and the AI assistant's provider, plus the
//! settings form that the user edits.
use vstd::prelude::*;

verus! {

/// AI provider selection.
#[derive(Debug, Clone, Copy, PartialEq, Eq, Structural)]
pub enum AiProvider {
    Anthropic,
    OpenAI,
}

/// The endpoint each provider is reached at unless the user sets another.
pub open spec fn provider_endpoint(p: AiProvider) -> Seq<char> {
    match p {
        AiProvider::Anthropic => "https://api.anthropic.com/v1/messages"@,
        AiProvider::OpenAI => "https://api.openai.com/v1/chat/completions"@,
    }
}

impl AiProvider {
    pub fn default_endpoint(&self) -> (s: String)
        ensures
            s@ == provider_endpoint(*self),
    {
        match self {
            AiProvider::Anthropic => "https://api.anthropic.com/v1/messages".to_string(),
            AiProvider::OpenAI => "https://api.openai.com/v1/chat/completions".to_string(),
        }
    }

    /// The provider's name as the settings form shows it.
    pub fn name(&self) -> (s: String)
        ensures
            s@ == provider_name(*self),
    {
        match self {
            AiProvider::Anthropic => "Anthropic".to_string(),
            AiProvider::OpenAI => "OpenAI".to_string(),
        }
    }
}

impl Default for AiProvider {
    fn default() -> (p: Self)
        ensures
            p == AiProvider::Anthropic,
    {
        AiProvider::Anthropic
    }
}

pub open spec fn provider_name(p: AiProvider) -> Seq<char> {
    match p {
        AiProvider::Anthropic => "Anthropic"@,
        AiProvider::OpenAI => "OpenAI"@,
    }
}

#[derive(Debug, Clone, Copy, PartialEq, Eq, Structural)]
pub enum EngineMode {
    Guitarix,
    Internal,
    Auto,
}

/// An engine that a start can bring up.
#[derive(Debug, Clone, Copy, PartialEq, Eq, Structural)]
pub enum EngineKind {
    /// The native DSP engine.
    Internal,
    /// A Guitarix engine controlled over JSON-RPC.
    Guitarix,
}

/// The engines a start tries, in order, until one comes up: Auto tries the
/// internal engine first and falls back to Guitarix.
pub open spec fn start_order(m: EngineMode) -> Seq<EngineKind> {
    match m {
        EngineMode::Internal => seq![EngineKind::Internal],
        EngineMode::Guitarix => seq![EngineKind::Guitarix],
        EngineMode::Auto => seq![EngineKind::Internal, EngineKind::Guitarix],
    }
}

/// The engines a start in mode `m` tries, in order.
pub fn engine_start_order(m: EngineMode) -> (order: Vec<EngineKind>)
    ensures
        order@ == start_order(m),
{
    let order = match m {
        EngineMode::Internal => vec![EngineKind::Internal],
        EngineMode::Guitarix => vec![EngineKind::Guitarix],
        EngineMode::Auto => vec![EngineKind::Internal, EngineKind::Guitarix],
    };
    assert(order@ =~= start_order(m));
    order
}

pub open spec fn engine_mode_name(m: EngineMode) -> Seq<char> {
    match m {
        EngineMode::Guitarix => "Guitarix"@,
        EngineMode::Internal => "Internal"@,
        EngineMode::Auto => "Auto"@,
    }
}

impl EngineMode {
    /// The mode's name as the settings form shows it.
    pub fn name(&self) -> (s: String)
        ensures
            s@ == engine_mode_name(*self),
    {
        match self {
            EngineMode::Guitarix => "Guitarix".to_string(),
            EngineMode::Internal => "Internal".to_string(),
            EngineMode::Auto => "Auto".to_string(),
        }
    }
}

#[derive(Debug, Clone, Copy, PartialEq, Eq, Structural)]
pub enum AudioBackend {
    Cpal,
    Jack,
}

impl Default for AudioBackend {
    fn default() -> (b: Self)
        ensures
            b == AudioBackend::Cpal,
    {
        AudioBackend::Cpal
    }
}

pub open spec fn backend_name(b: AudioBackend) -> Seq<char> {
    match b {
        AudioBackend::Cpal => "Cpal"@,
        AudioBackend::Jack => "Jack"@,
    }
}

impl AudioBackend {
    /// The backend's name as the settings form shows it.
    pub fn name(&self) -> (s: String)
        ensures
            s@ == backend_name(*self),
    {
        match self {
            AudioBackend::Cpal => "Cpal".to_string(),
            AudioBackend::Jack => "Jack".to_string(),
        }
    }
}

/// The engine mode a settings form names: unknown names select `Auto`.
pub open spec fn parse_engine_mode_spec(s: Seq<char>) -> EngineMode {
    if s == "Internal"@ {
        EngineMode::Internal
    } else if s == "Guitarix"@ {
        EngineMode::Guitarix
    } else {
        EngineMode::Auto
    }
}

/// The backend a settings form names: anything but "Jack" selects CPAL.
pub open spec fn parse_backend_spec(s: Seq<char>) -> AudioBackend {
    if s == "Jack"@ {
        AudioBackend::Jack
    } else {
        AudioBackend::Cpal
    }
}

/// The provider a settings form names: anything but "OpenAI" selects
/// Anthropic.
pub open spec fn parse_provider_spec(s: Seq<char>) -> AiProvider {
    if s == "OpenAI"@ {
        AiProvider::OpenAI
    } else {
        AiProvider::Anthropic
    }
}

pub fn parse_engine_mode(s: &String) -> (m: EngineMode)
    ensures
        m == parse_engine_mode_spec(s@),
{
    if *s == "Internal".to_string() {
        EngineMode::Internal
    } else if *s == "Guitarix".to_string() {
        EngineMode::Guitarix
    } else {
        EngineMode::Auto
    }
}

pub fn parse_backend(s: &String) -> (b: AudioBackend)
    ensures
        b == parse_backend_spec(s@),
{
    if *s == "Jack".to_string() {
        AudioBackend::Jack
    } else {
        AudioBackend::Cpal
    }
}

pub fn parse_provider(s: &String) -> (p: AiProvider)
    ensures
        p == parse_provider_spec(s@),
{
    if *s == "OpenAI".to_string() {
        AiProvider::OpenAI
    } else {
        AiProvider::Anthropic
    }
}

/// Application configuration.
#[derive(Debug, Clone)]
pub struct KicksConfig {
    /// Guitarix RPC connection settings.
    pub guitarix_host: String,
    pub guitarix_port: u16,
    /// Audio engine selection.
    pub active_engine: EngineMode,
    /// JACK client name.
    pub jack_client_name: String,
    /// CPAL audio device settings.
    pub sample_rate: u32,
    pub buffer_size: u32,
    /// Empty string = use system default device.
    pub audio_device: String,
    /// Separate input/output device selection (replaces single audio_device).
    pub input_device: String,
    pub output_device: String,
    /// Audio backend selection.
    pub audio_backend: AudioBackend,
    pub ir_directories: Vec<String>,
    pub nam_directories: Vec<String>,
    pub preset_directories: Vec<String>,
    /// AI tone assistant settings.
    pub ai_provider: AiProvider,
    pub ai_endpoint_url: String,
    pub ai_api_key: String,
    pub ai_model: String,
    /// Path to the last loaded IR file (restored on startup).
    pub active_ir_path: String,
}

pub open spec fn strings_view(v: Seq<String>) -> Seq<Seq<char>> {
    v.map_values(|s: String| s@)
}

/// The configuration used before any has been saved, for a user whose home
/// directory is `home` (empty when unknown), with `model` as the AI model.
pub open spec fn is_default_config(c: KicksConfig, home: Seq<char>, model: Seq<char>) -> bool {
    &&& c.guitarix_host@ == "127.0.0.1"@
    &&& c.guitarix_port == 4040
    &&& c.active_engine == EngineMode::Guitarix
    &&& c.jack_client_name@ == "kicks"@
    &&& c.sample_rate == 48000
    &&& c.buffer_size == 256
    &&& c.audio_device@ == Seq::<char>::empty()
    &&& c.input_device@ == Seq::<char>::empty()
    &&& c.output_device@ == Seq::<char>::empty()
    &&& c.audio_backend == AudioBackend::Cpal
    &&& strings_view(c.ir_directories@) == seq![
        home + "/.config/guitarix/impulses"@,
        home + "/IR"@,
    ]
    &&& strings_view(c.nam_directories@) == seq![home + "/.nam"@]
    &&& strings_view(c.preset_directories@) == seq![home + "/.config/kicks/presets"@]
    &&& c.ai_provider == AiProvider::Anthropic
    &&& c.ai_endpoint_url@ == provider_endpoint(AiProvider::Anthropic)
    &&& c.ai_api_key@ == Seq::<char>::empty()
    &&& c.ai_model@ == model
    &&& c.active_ir_path@ == Seq::<char>::empty()
}

fn under_home(home: &str, rest: &str) -> (s: String)
    ensures
        s@ == home@ + rest@,
{
    let mut s = home.to_string();
    s.append(rest);
    s
}

impl KicksConfig {
    /// The default configuration for a user whose home directory is `home`
    /// (pass an empty string when it is unknown); `ai_model` names the model
    /// the AI assistant asks by default.
    pub fn default_for_home(home: &str, ai_model: &str) -> (c: Self)
        ensures
            is_default_config(c, home@, ai_model@),
    {
        let ir_directories = vec![
            under_home(home, "/.config/guitarix/impulses"),
            under_home(home, "/IR"),
        ];
        let nam_directories = vec![under_home(home, "/.nam")];
        let preset_directories = vec![under_home(home, "/.config/kicks/presets")];
        let c = Self {
            guitarix_host: "127.0.0.1".to_string(),
            guitarix_port: 4040,
            active_engine: EngineMode::Guitarix,
            jack_client_name: "kicks".to_string(),
            sample_rate: 48000,
            buffer_size: 256,
            audio_device: String::new(),
            input_device: String::new(),
            output_device: String::new(),
            audio_backend: AudioBackend::default(),
            ir_directories,
            nam_directories,
            preset_directories,
            ai_provider: AiProvider::default(),
            ai_endpoint_url: AiProvider::default().default_endpoint(),
            ai_api_key: String::new(),
            ai_model: ai_model.to_string(),
            active_ir_path: String::new(),
        };
        assert(strings_view(c.ir_directories@) =~= seq![
            home@ + "/.config/guitarix/impulses"@,
            home@ + "/IR"@,
        ]);
        assert(strings_view(c.nam_directories@) =~= seq![home@ + "/.nam"@]);
        assert(strings_view(c.preset_directories@) =~= seq![home@ + "/.config/kicks/presets"@]);
        c
    }
}


/// Serializable settings payload for the frontend.
#[derive(Debug, Clone)]
pub struct SettingsPayload {
    pub guitarix_host: String,
    pub guitarix_port: u16,
    pub engine_mode: String,
    pub jack_client_name: String,
    // Audio backend
    pub audio_backend: String,
    // CPAL audio device settings
    pub sample_rate: u32,
    pub buffer_size: u32,
    pub audio_device: String,
    pub input_device: String,
    pub output_device: String,
    pub ir_directories: Vec<String>,
    pub nam_directories: Vec<String>,
    pub preset_directories: Vec<String>,
    // AI provider settings
    pub ai_provider: String,
    pub ai_endpoint_url: String,
    pub ai_api_key: String,
    pub ai_model: String,
}

/// Whether the settings change anything that the running audio stream was
/// opened with.
pub open spec fn audio_settings_differ(c: KicksConfig, s: SettingsPayload) -> bool {
    ||| c.sample_rate != s.sample_rate
    ||| c.buffer_size != s.buffer_size
    ||| c.audio_device@ != s.audio_device@
    ||| c.input_device@ != s.input_device@
    ||| c.output_device@ != s.output_device@
    ||| c.audio_backend != parse_backend_spec(s.audio_backend@)
}

/// `after` is `before` with the settings form applied: every edited field
/// is taken from the form, the enumerations parsed from their names, and
/// the last loaded IR kept.
pub open spec fn settings_applied(before: KicksConfig, s: SettingsPayload, after: KicksConfig) -> bool {
    &&& after.guitarix_host == s.guitarix_host
    &&& after.guitarix_port == s.guitarix_port
    &&& after.jack_client_name == s.jack_client_name
    &&& after.audio_backend == parse_backend_spec(s.audio_backend@)
    &&& after.sample_rate == s.sample_rate
    &&& after.buffer_size == s.buffer_size
    &&& after.audio_device == s.audio_device
    &&& after.input_device == s.input_device
    &&& after.output_device == s.output_device
    &&& after.ir_directories == s.ir_directories
    &&& after.nam_directories == s.nam_directories
    &&& after.preset_directories == s.preset_directories
    &&& after.active_engine == parse_engine_mode_spec(s.engine_mode@)
    &&& after.ai_provider == parse_provider_spec(s.ai_provider@)
    &&& after.ai_endpoint_url == s.ai_endpoint_url
    &&& after.ai_api_key == s.ai_api_key
    &&& after.ai_model == s.ai_model
    &&& after.active_ir_path == before.active_ir_path
}


/// `s` is the settings form that shows the configuration `c`.
pub open spec fn settings_describe(s: SettingsPayload, c: KicksConfig) -> bool {
    &&& s.guitarix_host == c.guitarix_host
    &&& s.guitarix_port == c.guitarix_port
    &&& s.engine_mode@ == engine_mode_name(c.active_engine)
    &&& s.jack_client_name == c.jack_client_name
    &&& s.audio_backend@ == backend_name(c.audio_backend)
    &&& s.sample_rate == c.sample_rate
    &&& s.buffer_size == c.buffer_size
    &&& s.audio_device == c.audio_device
    &&& s.input_device == c.input_device
    &&& s.output_device == c.output_device
    &&& s.ir_directories@ == c.ir_directories@
    &&& s.nam_directories@ == c.nam_directories@
    &&& s.preset_directories@ == c.preset_directories@
    &&& s.ai_provider@ == provider_name(c.ai_provider)
    &&& s.ai_endpoint_url == c.ai_endpoint_url
    &&& s.ai_api_key == c.ai_api_key
    &&& s.ai_model == c.ai_model
}

/// Two configurations hold the same settings.
pub open spec fn same_config(a: KicksConfig, b: KicksConfig) -> bool {
    &&& a.guitarix_host == b.guitarix_host
    &&& a.guitarix_port == b.guitarix_port
    &&& a.active_engine == b.active_engine
    &&& a.jack_client_name == b.jack_client_name
    &&& a.sample_rate == b.sample_rate
    &&& a.buffer_size == b.buffer_size
    &&& a.audio_device == b.audio_device
    &&& a.input_device == b.input_device
    &&& a.output_device == b.output_device
    &&& a.audio_backend == b.audio_backend
    &&& a.ir_directories@ == b.ir_directories@
    &&& a.nam_directories@ == b.nam_directories@
    &&& a.preset_directories@ == b.preset_directories@
    &&& a.ai_provider == b.ai_provider
    &&& a.ai_endpoint_url == b.ai_endpoint_url
    &&& a.ai_api_key == b.ai_api_key
    &&& a.ai_model == b.ai_model
    &&& a.active_ir_path == b.active_ir_path
}

/// Saving the settings form unchanged leaves the configuration as it was
/// and never restarts the audio stream: every name shown parses back to the
/// value it shows.
pub proof fn lemma_settings_round_trip(c: KicksConfig, s: SettingsPayload, after: KicksConfig)
    requires
        settings_describe(s, c),
        settings_applied(c, s, after),
    ensures
        !audio_settings_differ(c, s),
        same_config(after, c),
{
    reveal_strlit("Internal");
    reveal_strlit("Guitarix");
    reveal_strlit("Auto");
    reveal_strlit("Jack");
    reveal_strlit("Cpal");
    reveal_strlit("OpenAI");
    reveal_strlit("Anthropic");
    assert("Auto"@.len() != "Internal"@.len());
    assert("Auto"@.len() != "Guitarix"@.len());
    assert("Guitarix"@[0] != "Internal"@[0]);
    assert("Cpal"@[0] != "Jack"@[0]);
    assert("Anthropic"@.len() != "OpenAI"@.len());
}

impl SettingsPayload {
    /// The settings form filled from a configuration.
    pub fn from_config(cfg: &KicksConfig) -> (s: Self)
        ensures
            settings_describe(s, *cfg),
    {
        Self {
            guitarix_host: cfg.guitarix_host.clone(),
            guitarix_port: cfg.guitarix_port,
            engine_mode: cfg.active_engine.name(),
            jack_client_name: cfg.jack_client_name.clone(),
            audio_backend: cfg.audio_backend.name(),
            sample_rate: cfg.sample_rate,
            buffer_size: cfg.buffer_size,
            audio_device: cfg.audio_device.clone(),
            input_device: cfg.input_device.clone(),
            output_device: cfg.output_device.clone(),
            ir_directories: clone_strings(&cfg.ir_directories),
            nam_directories: clone_strings(&cfg.nam_directories),
            preset_directories: clone_strings(&cfg.preset_directories),
            ai_provider: cfg.ai_provider.name(),
            ai_endpoint_url: cfg.ai_endpoint_url.clone(),
            ai_api_key: cfg.ai_api_key.clone(),
            ai_model: cfg.ai_model.clone(),
        }
    }
}

fn clone_strings(v: &Vec<String>) -> (r: Vec<String>)
    ensures
        r@ == v@,
{
    let mut r: Vec<String> = Vec::new();
    let mut i: usize = 0;
    while i < v.len()
        invariant
            i <= v.len(),
            r@ == v@.take(i as int),
        decreases v.len() - i,
    {
        r.push(v[i].clone());
        i = i + 1;
        assert(r@ =~= v@.take(i as int));
    }
    assert(v@.take(v.len() as int) =~= v@);
    r
}

/// The device a stream opens: the specific one when set, else the shared
/// one when set, else the system default (`None`).
pub open spec fn chosen_device(specific: Seq<char>, shared: Seq<char>) -> Option<Seq<char>> {
    if specific.len() > 0 {
        Some(specific)
    } else if shared.len() > 0 {
        Some(shared)
    } else {
        None
    }
}

/// Picks the device name a stream opens with.
pub fn pick_device(specific: &String, shared: &String) -> (d: Option<String>)
    ensures
        match chosen_device(specific@, shared@) {
            Some(n) => d matches Some(s) && s@ == n,
            None => d is None,
        },
{
    if specific.as_str().unicode_len() > 0 {
        Some(specific.clone())
    } else if shared.as_str().unicode_len() > 0 {
        Some(shared.clone())
    } else {
        None
    }
}

impl KicksConfig {
    /// Applies an edited settings form. Returns whether the audio stream's
    /// configuration changed, so that a running stream has to be reopened.
    pub fn apply_settings(&mut self, settings: SettingsPayload) -> (audio_changed: bool)
        ensures
            audio_changed == audio_settings_differ(*old(self), settings),
            settings_applied(*old(self), settings, *final(self)),
    {
        let new_backend = parse_backend(&settings.audio_backend);
        let audio_changed = self.sample_rate != settings.sample_rate
            || self.buffer_size != settings.buffer_size
            || self.audio_device != settings.audio_device
            || self.input_device != settings.input_device
            || self.output_device != settings.output_device
            || self.audio_backend != new_backend;
        let engine = parse_engine_mode(&settings.engine_mode);
        let provider = parse_provider(&settings.ai_provider);
        self.guitarix_host = settings.guitarix_host;
        self.guitarix_port = settings.guitarix_port;
        self.jack_client_name = settings.jack_client_name;
        self.audio_backend = new_backend;
        self.sample_rate = settings.sample_rate;
        self.buffer_size = settings.buffer_size;
        self.audio_device = settings.audio_device;
        self.input_device = settings.input_device;
        self.output_device = settings.output_device;
        self.ir_directories = settings.ir_directories;
        self.nam_directories = settings.nam_directories;
        self.preset_directories = settings.preset_directories;
        self.active_engine = engine;
        self.ai_provider = provider;
        self.ai_endpoint_url = settings.ai_endpoint_url;
        self.ai_api_key = settings.ai_api_key;
        self.ai_model = settings.ai_model;
        audio_changed
    }
}


/// The audio stream is reopened exactly when the settings change something
/// it was opened with: the sample rate, the buffer size, one of the three
/// device names or the backend. Any one of them changing is enough, and
/// the other settings never reopen it; once applied, the same form asks
/// for no reopening again.
pub proof fn lemma_audio_change(c: KicksConfig, s: SettingsPayload, after: KicksConfig)
    ensures
        settings_applied(c, s, after) ==> !audio_settings_differ(after, s),
        c.sample_rate != s.sample_rate ==> audio_settings_differ(c, s),
        c.buffer_size != s.buffer_size ==> audio_settings_differ(c, s),
        c.audio_device@ != s.audio_device@ ==> audio_settings_differ(c, s),
        c.input_device@ != s.input_device@ ==> audio_settings_differ(c, s),
        c.output_device@ != s.output_device@ ==> audio_settings_differ(c, s),
        c.audio_backend != parse_backend_spec(s.audio_backend@) ==> audio_settings_differ(c, s),
        c.sample_rate == s.sample_rate && c.buffer_size == s.buffer_size && c.audio_device@ == s.audio_device@
            && c.input_device@ == s.input_device@ && c.output_device@ == s.output_device@ && c.audio_backend
            == parse_backend_spec(s.audio_backend@) ==> !audio_settings_differ(c, s),
{
}

} // verus!
