//! The AI tone assistant: the instructions sent to the model, stripping the
//! code fences a model may wrap its JSON in, mapping the plugin type names it
//! answers with, and turning its suggested slots into a signal chain.
use crate::chain_params::{
    keys_distinct, lemma_inserted_keeps_keys_distinct, params_are_maps, params_inserted, params_view,
};
use crate::config::AiProvider;
use crate::decimal::{decimal, usize_to_decimal};
use crate::signal_chain::{
    kind_label, ChainSlot, PluginKind, PluginType, SignalChain, SlotView, LEVEL_0_8, LEVEL_ONE,
};
use crate::text::{lowercase_of, to_lowercase, trim, trimmed};
use vstd::prelude::*;

verus! {

/// The plugin kind a (lowercased, trimmed) type name from the model selects;
/// names outside the built-in set become custom types.
pub open spec fn plugin_kind_of_name(n: Seq<char>) -> PluginKind {
    if n == "input"@ {
        PluginKind::Input
    } else if n == "boost"@ {
        PluginKind::Boost
    } else if n == "amp"@ || n == "guitar"@ {
        PluginKind::Amp
    } else if n == "bass"@ || n == "bassamp"@ || n == "bass_amp"@ {
        PluginKind::BassAmp
    } else if n == "cab"@ {
        PluginKind::Cab
    } else if n == "delay"@ {
        PluginKind::Delay
    } else if n == "reverb"@ {
        PluginKind::Reverb
    } else if n == "output"@ {
        PluginKind::Output
    } else {
        PluginKind::Custom(n)
    }
}

fn is(s: &String, lit: &str) -> (b: bool)
    ensures
        b == (s@ == lit@),
{
    *s == lit.to_string()
}

/// Maps a plugin type name from the model to a plugin type, ignoring case
/// and surrounding whitespace.
pub fn parse_plugin_type(s: &str) -> (t: PluginType)
    ensures
        t@ == plugin_kind_of_name(trimmed(lowercase_of(s@))),
{
    let lower = to_lowercase(s);
    plugin_type_of_name(trim(lower.as_str()))
}

/// The plugin type that a lowercased, trimmed type name selects; names
/// outside the built-in set become custom types.
pub fn plugin_type_of_name(n: &str) -> (t: PluginType)
    ensures
        t@ == plugin_kind_of_name(n@),
{
    let name = n.to_string();
    if is(&name, "input") {
        PluginType::Input
    } else if is(&name, "boost") {
        PluginType::Boost
    } else if is(&name, "amp") || is(&name, "guitar") {
        PluginType::Amp
    } else if is(&name, "bass") || is(&name, "bassamp") || is(&name, "bass_amp") {
        PluginType::BassAmp
    } else if is(&name, "cab") {
        PluginType::Cab
    } else if is(&name, "delay") {
        PluginType::Delay
    } else if is(&name, "reverb") {
        PluginType::Reverb
    } else if is(&name, "output") {
        PluginType::Output
    } else {
        PluginType::Custom(name)
    }
}

/// The instructions that tell the model which plugins and parameters exist
/// and which JSON structure to answer with.
pub const SYSTEM_PROMPT: &'static str = r#"You are a guitar and bass tone expert. Given a natural-language description of a desired guitar or bass tone, generate a signal chain configuration for the Kicks guitar workstation.

Available plugin types and their valid parameters (all values 0.0 to 1.0 unless noted):

1. "Boost" — Clean boost / overdrive
   - gain (0..1 → 0..2x volume)

2. "Amp" — Guitar amplifier with 3-band EQ
   - gain (0..1 → input gain 0..10)
   - master (0..1 → output volume)
   - bass (0..1 → -12..+12 dB low shelf at 250Hz)
   - mid (0..1 → -12..+12 dB peaking at 800Hz)
   - treble (0..1 → -12..+12 dB high shelf at 3kHz)
   - drive (0..1 → 1..10x waveshaper drive)

3. "BassAmp" — Bass amplifier with 3-band EQ (shifted frequencies for bass)
   - gain (0..1 → input gain 0..10)
   - master (0..1 → output volume)
   - bass (0..1 → -12..+12 dB low shelf at 100Hz)
   - mid (0..1 → -12..+12 dB peaking at 500Hz)
   - treble (0..1 → -12..+12 dB high shelf at 4kHz)
   - drive (0..1 → 1..10x waveshaper drive)
   Use "BassAmp" plugin type when the description mentions bass guitar, low-end, sub, or deep tones.

4. "Cab" — Speaker cabinet simulation
   - level (0..1 → output level)
   - low_cut (0..1 → 20..250Hz highpass)
   - high_cut (0..1 → 8kHz..2kHz lowpass)

5. "Delay" — Digital delay with feedback
   - time (0..1 → 20ms..2000ms)
   - feedback (0..1 → 0..99%)
   - mix (0..1 → wet/dry)

6. "Reverb" — Schroeder reverberator
   - size (0..1 → room size)
   - damping (0..1 → high-frequency absorption)
   - mix (0..1 → wet/dry)

Output ONLY valid JSON with no markdown, no code fences, no explanation. Use this exact structure:
{
  "name": "Descriptive preset name",
  "description": "Short description of the tone",
  "signal_chain": {
    "slots": [
      { "plugin_type": "Amp", "enabled": true, "wet_dry": 1.0, "parameters": { "gain": 0.5, "master": 0.7, "bass": 0.5, "mid": 0.5, "treble": 0.5, "drive": 0.5 } },
      { "plugin_type": "Cab", "enabled": true, "wet_dry": 1.0, "parameters": { "level": 1.0, "low_cut": 0.0, "high_cut": 0.6 } }
    ]
  }
}

Only include plugins that are relevant to the described tone. Omit slots that don't contribute (e.g., skip Delay for a clean jazz tone with no delay). The frontend will add Input and Output slots automatically."#;

/// The system prompt sent with every tone request.
pub fn build_system_prompt() -> (p: String)
    ensures
        p@ == SYSTEM_PROMPT@,
{
    SYSTEM_PROMPT.to_string()
}

/// Whether `s` begins with `prefix`.
pub open spec fn has_prefix(s: Seq<char>, prefix: Seq<char>) -> bool {
    prefix.len() <= s.len() && s.subrange(0, prefix.len() as int) == prefix
}

/// Whether `s` ends with `suffix`.
pub open spec fn has_suffix(s: Seq<char>, suffix: Seq<char>) -> bool {
    suffix.len() <= s.len() && s.subrange(s.len() - suffix.len(), s.len() as int) == suffix
}

/// `s` with every trailing repetition of the non-empty `pat` removed.
pub open spec fn trim_end_all(s: Seq<char>, pat: Seq<char>) -> Seq<char>
    decreases s.len(),
{
    if pat.len() > 0 && has_suffix(s, pat) {
        trim_end_all(s.subrange(0, s.len() - pat.len()), pat)
    } else {
        s
    }
}

/// The inside of a fenced answer, given the answer already trimmed: what
/// follows an opening "```json" or "```" with every trailing "```" removed;
/// `None` when the text opens no fence.
pub open spec fn fence_body_spec(t: Seq<char>) -> Option<Seq<char>> {
    if has_prefix(t, "```json"@) {
        Some(trim_end_all(t.subrange(7, t.len() as int), "```"@))
    } else if has_prefix(t, "```"@) {
        Some(trim_end_all(t.subrange(3, t.len() as int), "```"@))
    } else {
        None
    }
}

/// A model's answer with its Markdown code fence removed: the trimmed text
/// after a leading "```json" or "```", with every trailing "```" removed and
/// trimmed again; the trimmed text itself when it opens no fence.
pub open spec fn unfenced(text: Seq<char>) -> Seq<char> {
    let t = trimmed(text);
    match fence_body_spec(t) {
        Some(body) => trimmed(body),
        None => t,
    }
}

fn starts_with(s: &str, prefix: &str) -> (b: bool)
    ensures
        b == has_prefix(s@, prefix@),
{
    let n = s.unicode_len();
    let m = prefix.unicode_len();
    if m > n {
        return false;
    }
    let mut i: usize = 0;
    while i < m
        invariant
            m == prefix@.len(),
            n == s@.len(),
            m <= n,
            i <= m,
            forall|k: int| 0 <= k < i ==> s@[k] == prefix@[k],
        decreases m - i,
    {
        if s.get_char(i) != prefix.get_char(i) {
            assert(s@.subrange(0, m as int)[i as int] != prefix@[i as int]);
            return false;
        }
        i = i + 1;
    }
    assert(s@.subrange(0, m as int) =~= prefix@);
    true
}

fn ends_with(s: &str, suffix: &str) -> (b: bool)
    ensures
        b == has_suffix(s@, suffix@),
{
    let n = s.unicode_len();
    let m = suffix.unicode_len();
    if m > n {
        return false;
    }
    let start = n - m;
    let mut i: usize = 0;
    while i < m
        invariant
            m == suffix@.len(),
            n == s@.len(),
            m <= n,
            start == n - m,
            i <= m,
            forall|k: int| 0 <= k < i ==> s@[start + k] == suffix@[k],
        decreases m - i,
    {
        if s.get_char(start + i) != suffix.get_char(i) {
            assert(s@.subrange(start as int, n as int)[i as int] != suffix@[i as int]);
            return false;
        }
        i = i + 1;
    }
    assert(s@.subrange(start as int, n as int) =~= suffix@);
    true
}

/// Removes every trailing repetition of the non-empty `pat`.
fn trim_end_matches<'a>(s: &'a str, pat: &str) -> (r: &'a str)
    requires
        pat@.len() > 0,
    ensures
        r@ == trim_end_all(s@, pat@),
{
    let mut cur = s;
    while ends_with(cur, pat)
        invariant
            pat@.len() > 0,
            trim_end_all(cur@, pat@) == trim_end_all(s@, pat@),
        decreases cur@.len(),
    {
        let n = cur.unicode_len();
        let m = pat.unicode_len();
        cur = cur.substring_char(0, n - m);
    }
    cur
}

/// The inside of a fenced answer that was already trimmed, or `None` when it
/// opens no fence.
pub fn fence_body(t: &str) -> (r: Option<&str>)
    ensures
        match fence_body_spec(t@) {
            Some(body) => r matches Some(b) && b@ == body,
            None => r is None,
        },
{
    proof {
        reveal_strlit("```json");
        reveal_strlit("```");
    }
    let n = t.unicode_len();
    if starts_with(t, "```json") {
        Some(trim_end_matches(t.substring_char(7, n), "```"))
    } else if starts_with(t, "```") {
        Some(trim_end_matches(t.substring_char(3, n), "```"))
    } else {
        None
    }
}

/// Removes a Markdown code fence around a model's JSON answer.
pub fn strip_code_fences(text: &str) -> (r: String)
    ensures
        r@ == unfenced(text@),
{
    let t = trim(text);
    match fence_body(t) {
        Some(body) => trim(body).to_string(),
        None => t.to_string(),
    }
}

/// Why a tone request cannot be sent.
#[derive(Debug, Clone, Copy, PartialEq, Eq, Structural)]
pub enum AiRequestError {
    /// The Anthropic API needs a key and none is configured.
    MissingApiKey,
}

/// Checks that a request can be sent: Anthropic needs an API key, while an
/// OpenAI-compatible endpoint may be a local model that needs none.
pub fn check_api_key(provider: AiProvider, api_key: &str) -> (r: Result<(), AiRequestError>)
    ensures
        r is Err <==> (provider == AiProvider::Anthropic && api_key@.len() == 0),
        r is Err ==> r == Err::<(), AiRequestError>(AiRequestError::MissingApiKey),
{
    match provider {
        AiProvider::Anthropic => if api_key.unicode_len() == 0 {
            Err(AiRequestError::MissingApiKey)
        } else {
            Ok(())
        },
        AiProvider::OpenAI => Ok(()),
    }
}

/// One slot of a chain the model suggests. Levels are `f32` bits, already
/// limited to 0..1 by the caller.
#[derive(Debug, Clone)]
pub struct AiSlot {
    pub plugin_type: String,
    pub enabled: bool,
    pub wet_dry: u32,
    pub parameters: Vec<(String, u32)>,
}

/// The slot that opens every chain built from a suggestion.
pub open spec fn input_slot_view() -> SlotView {
    SlotView { id: "input"@, plugin_type: PluginKind::Input, enabled: true, wet_dry: LEVEL_ONE, parameters: seq![] }
}

/// The slot that closes every chain built from a suggestion.
pub open spec fn output_slot_view() -> SlotView {
    SlotView {
        id: "output"@,
        plugin_type: PluginKind::Output,
        enabled: true,
        wet_dry: LEVEL_ONE,
        parameters: seq![("volume"@, LEVEL_0_8)],
    }
}

/// The chain slot made of the `i`-th suggested slot: its type parsed from
/// the name, an identifier of the lowercased type name and the position,
/// and its parameters taken as a map (a repeated name keeps its last value).
pub open spec fn ai_slot_view(i: int, s: AiSlot) -> SlotView {
    let kind = plugin_kind_of_name(trimmed(lowercase_of(s.plugin_type@)));
    SlotView {
        id: lowercase_of(kind_label(kind)) + "-"@ + decimal(i as nat),
        plugin_type: kind,
        enabled: s.enabled,
        wet_dry: s.wet_dry,
        parameters: params_inserted(seq![], params_view(s.parameters@)),
    }
}

/// The chain built from a suggestion: the input slot, the suggested slots
/// in order, and the output slot.
pub open spec fn ai_chain(slots: Seq<AiSlot>) -> Seq<SlotView> {
    seq![input_slot_view()] + Seq::new(slots.len(), |i: int| ai_slot_view(i, slots[i])) + seq![output_slot_view()]
}

/// Builds the signal chain for a suggested tone, between an input slot and
/// an output slot at 0.8 volume.
pub fn ai_signal_chain(slots: &Vec<AiSlot>) -> (c: SignalChain)
    ensures
        c@ == ai_chain(slots@),
{
    proof {
        reveal_strlit("input");
        reveal_strlit("output");
        reveal_strlit("volume");
        reveal_strlit("-");
    }
    let input = ChainSlot {
        id: "input".to_string(),
        plugin_type: PluginType::Input,
        enabled: true,
        wet_dry: LEVEL_ONE,
        parameters: Vec::new(),
    };
    assert(input@.parameters =~= seq![]);
    let mut out: Vec<ChainSlot> = Vec::new();
    out.push(input);
    assert(out@.map_values(|s: ChainSlot| s@) =~= seq![input_slot_view()]);
    let mut i: usize = 0;
    while i < slots.len()
        invariant
            i <= slots@.len(),
            out@.map_values(|s: ChainSlot| s@) == seq![input_slot_view()] + Seq::new(
                i as nat,
                |k: int| ai_slot_view(k, slots@[k]),
            ),
        decreases slots.len() - i,
    {
        let s = &slots[i];
        let plugin_type = parse_plugin_type(s.plugin_type.as_str());
        let label = plugin_type.type_label();
        let mut id = to_lowercase(label.as_str());
        id.append("-");
        let index = usize_to_decimal(i);
        id.append(index.as_str());
        let mut slot = ChainSlot {
            id,
            plugin_type,
            enabled: s.enabled,
            wet_dry: s.wet_dry,
            parameters: Vec::new(),
        };
        assert(slot@.parameters =~= seq![]);
        slot.set_params(&s.parameters);
        assert(slot@ == ai_slot_view(i as int, slots@[i as int]));
        let ghost prev = out@.map_values(|s: ChainSlot| s@);
        out.push(slot);
        assert(out@.map_values(|s: ChainSlot| s@) =~= prev.push(slot@));
        assert(out@.map_values(|s: ChainSlot| s@) =~= seq![input_slot_view()] + Seq::new(
            (i + 1) as nat,
            |k: int| ai_slot_view(k, slots@[k]),
        ));
        i = i + 1;
    }
    let mut output_params: Vec<(String, u32)> = Vec::new();
    output_params.push(("volume".to_string(), LEVEL_0_8));
    let ghost prev = out@.map_values(|s: ChainSlot| s@);
    let output = ChainSlot {
        id: "output".to_string(),
        plugin_type: PluginType::Output,
        enabled: true,
        wet_dry: LEVEL_ONE,
        parameters: output_params,
    };
    assert(output@.parameters =~= seq![("volume"@, LEVEL_0_8)]);
    out.push(output);
    let c = SignalChain { slots: out };
    assert(c@ =~= prev.push(output_slot_view()));
    assert(c@ =~= ai_chain(slots@));
    c
}

/// A chain built from a suggestion always opens with the input slot and
/// closes with the output slot, with the suggested slots between them.
pub proof fn lemma_ai_chain_framed(slots: Seq<AiSlot>)
    ensures
        ai_chain(slots).len() == slots.len() + 2,
        ai_chain(slots)[0] == input_slot_view(),
        ai_chain(slots).last() == output_slot_view(),
        forall|i: int| 0 <= i < slots.len() ==> #[trigger] ai_chain(slots)[i + 1] == ai_slot_view(i, slots[i]),
{
}

/// Every slot of a chain built from a suggestion has parameters without
/// repeated names, whatever the model answered.
pub proof fn lemma_ai_chain_is_map(slots: Seq<AiSlot>)
    ensures
        params_are_maps(ai_chain(slots)),
{
    reveal_strlit("volume");
    let c = ai_chain(slots);
    assert forall|i: int| 0 <= i < c.len() implies keys_distinct(#[trigger] c[i].parameters) by {
        if 1 <= i <= slots.len() {
            assert(c[i] == ai_slot_view(i - 1, slots[i - 1]));
            lemma_inserted_keeps_keys_distinct(seq![], params_view(slots[i - 1].parameters@));
        }
    }
}

/// What the assistant reads of a provider's JSON reply: the reply's list
/// (Anthropic's `content` parts, OpenAI's `choices`), each element with the
/// text it carries (a part's `text`, a choice's `message.content`) when it
/// carries one; `None` when the reply has no such list.
pub struct ReplyTexts {
    pub items: Option<Vec<Option<String>>>,
}

/// The first text among `items`.
pub open spec fn first_text(items: Seq<Option<String>>) -> Option<Seq<char>>
    decreases items.len(),
{
    if items.len() == 0 {
        None
    } else {
        match items[0] {
            Some(t) => Some(t@),
            None => first_text(items.drop_first()),
        }
    }
}

/// The model's text in a reply: Anthropic's first part that carries text,
/// or the text of OpenAI's first choice; `None` when there is none.
pub open spec fn reply_text_of(provider: AiProvider, reply: ReplyTexts) -> Option<Seq<char>> {
    match reply.items {
        None => None,
        Some(v) => match provider {
            AiProvider::Anthropic => first_text(v@),
            AiProvider::OpenAI => if v@.len() > 0 {
                match v@[0] {
                    Some(t) => Some(t@),
                    None => None,
                }
            } else {
                None
            },
        },
    }
}

/// The model's text in a provider's reply, or `None` when the reply holds
/// none.
pub fn reply_text(provider: AiProvider, reply: &ReplyTexts) -> (t: Option<String>)
    ensures
        match reply_text_of(provider, *reply) {
            Some(text) => t matches Some(s) && s@ == text,
            None => t is None,
        },
{
    match &reply.items {
        None => None,
        Some(v) => match provider {
            AiProvider::Anthropic => {
                let mut i: usize = 0;
                assert(v@.subrange(0, v@.len() as int) =~= v@);
                while i < v.len()
                    invariant
                        i <= v@.len(),
                        provider == AiProvider::Anthropic,
                        reply.items matches Some(w) && w@ == v@,
                        first_text(v@.subrange(i as int, v@.len() as int)) == first_text(v@),
                    decreases v@.len() - i,
                {
                    let ghost rest = v@.subrange(i as int, v@.len() as int);
                    match &v[i] {
                        Some(text) => {
                            assert(rest[0] == v@[i as int]);
                            return Some(text.clone());
                        },
                        None => {
                            assert(rest.drop_first() =~= v@.subrange(i as int + 1, v@.len() as int));
                        },
                    }
                    i = i + 1;
                }
                None
            },
            AiProvider::OpenAI => if v.len() > 0 {
                match &v[0] {
                    Some(text) => Some(text.clone()),
                    None => None,
                }
            } else {
                None
            },
        },
    }
}

} // verus!
