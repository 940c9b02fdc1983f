//! The signal chain model: an ordered list of processing slots, each naming
//! a plugin type, whether it is enabled, its wet/dry mix and its parameters.
//!
//! Levels are `f32` values in the application; the chain stores each one as
//! its IEEE-754 bit pattern (`f32::to_bits`), so that no information is lost
//! and the model stays within integers.
use crate::chain_params::{lemma_move_keeps_maps, lemma_update_keeps_maps, params_are_maps};
use crate::text::{debug_quoted, debug_string};
use vstd::prelude::*;

verus! {

broadcast use vstd::string::group_string_axioms;

/// `1.0f32` as bits.
pub const LEVEL_ONE: u32 = 0x3f80_0000;

/// `0.0f32` as bits.
pub const LEVEL_ZERO: u32 = 0x0000_0000;

/// `0.3f32` as bits.
pub const LEVEL_0_3: u32 = 0x3e99_999a;

/// `0.4f32` as bits.
pub const LEVEL_0_4: u32 = 0x3ecc_cccd;

/// `0.5f32` as bits.
pub const LEVEL_0_5: u32 = 0x3f00_0000;

/// `0.75f32` as bits.
pub const LEVEL_0_75: u32 = 0x3f40_0000;

/// `0.7f32` as bits.
pub const LEVEL_0_7: u32 = 0x3f33_3333;

/// `0.8f32` as bits.
pub const LEVEL_0_8: u32 = 0x3f4c_cccd;

/// Types of plugins available in the signal chain.
#[derive(Debug, Clone, PartialEq)]
pub enum PluginType {
    Input,
    Boost,
    Amp,
    /// Bass-specific amp with compressor, extended low-end, and shifted EQ.
    BassAmp,
    Cab,
    /// Neural Amp Modeler — deep learning amp/cabinet model.
    Nam,
    Delay,
    Reverb,
    /// Real-time chromatic tuner using YIN pitch detection.
    Tuner,
    /// Practice metronome with configurable BPM and time signature.
    Metronome,
    /// Audio looper with record, overdub, playback, and reverse.
    Looper,
    Output,
    Custom(String),
}

/// The abstract value of a `PluginType`.
pub enum PluginKind {
    Input,
    Boost,
    Amp,
    BassAmp,
    Cab,
    Nam,
    Delay,
    Reverb,
    Tuner,
    Metronome,
    Looper,
    Output,
    Custom(Seq<char>),
}

impl View for PluginType {
    type V = PluginKind;

    open spec fn view(&self) -> PluginKind {
        match self {
            PluginType::Input => PluginKind::Input,
            PluginType::Boost => PluginKind::Boost,
            PluginType::Amp => PluginKind::Amp,
            PluginType::BassAmp => PluginKind::BassAmp,
            PluginType::Cab => PluginKind::Cab,
            PluginType::Nam => PluginKind::Nam,
            PluginType::Delay => PluginKind::Delay,
            PluginType::Reverb => PluginKind::Reverb,
            PluginType::Tuner => PluginKind::Tuner,
            PluginType::Metronome => PluginKind::Metronome,
            PluginType::Looper => PluginKind::Looper,
            PluginType::Output => PluginKind::Output,
            PluginType::Custom(s) => PluginKind::Custom(s@),
        }
    }
}

/// A plugin type's `Debug` text: the variant's name, and for a custom type
/// its name quoted in parentheses.
pub open spec fn kind_label(k: PluginKind) -> Seq<char> {
    match k {
        PluginKind::Input => "Input"@,
        PluginKind::Boost => "Boost"@,
        PluginKind::Amp => "Amp"@,
        PluginKind::BassAmp => "BassAmp"@,
        PluginKind::Cab => "Cab"@,
        PluginKind::Nam => "Nam"@,
        PluginKind::Delay => "Delay"@,
        PluginKind::Reverb => "Reverb"@,
        PluginKind::Tuner => "Tuner"@,
        PluginKind::Metronome => "Metronome"@,
        PluginKind::Looper => "Looper"@,
        PluginKind::Output => "Output"@,
        PluginKind::Custom(s) => "Custom("@ + debug_quoted(s) + ")"@,
    }
}

impl PluginType {
    /// The type's name as the chain snapshot and slot identifiers show it,
    /// the same text that `{:?}` writes.
    pub fn type_label(&self) -> (s: String)
        ensures
            s@ == kind_label(self@),
    {
        match self {
            PluginType::Input => "Input".to_string(),
            PluginType::Boost => "Boost".to_string(),
            PluginType::Amp => "Amp".to_string(),
            PluginType::BassAmp => "BassAmp".to_string(),
            PluginType::Cab => "Cab".to_string(),
            PluginType::Nam => "Nam".to_string(),
            PluginType::Delay => "Delay".to_string(),
            PluginType::Reverb => "Reverb".to_string(),
            PluginType::Tuner => "Tuner".to_string(),
            PluginType::Metronome => "Metronome".to_string(),
            PluginType::Looper => "Looper".to_string(),
            PluginType::Output => "Output".to_string(),
            PluginType::Custom(name) => {
                let mut s = "Custom(".to_string();
                let quoted = debug_string(name.as_str());
                s.append(quoted.as_str());
                s.append(")");
                proof {
                    reveal_strlit("Custom(");
                    reveal_strlit(")");
                }
                s
            },
        }
    }
}

/// Input and Output slots stay where they are in the chain.
pub open spec fn is_fixed_kind(k: PluginKind) -> bool {
    k is Input || k is Output
}

/// A single slot in the signal chain.
#[derive(Debug, Clone)]
pub struct ChainSlot {
    pub id: String,
    pub plugin_type: PluginType,
    pub enabled: bool,
    /// The wet/dry mix as `f32` bits.
    pub wet_dry: u32,
    /// Parameter names with their values as `f32` bits, in insertion order.
    pub parameters: Vec<(String, u32)>,
}

/// The abstract value of a chain slot.
pub struct SlotView {
    pub id: Seq<char>,
    pub plugin_type: PluginKind,
    pub enabled: bool,
    pub wet_dry: u32,
    pub parameters: Seq<(Seq<char>, u32)>,
}

pub open spec fn param_view(p: (String, u32)) -> (Seq<char>, u32) {
    (p.0@, p.1)
}

impl View for ChainSlot {
    type V = SlotView;

    open spec fn view(&self) -> SlotView {
        SlotView {
            id: self.id@,
            plugin_type: self.plugin_type@,
            enabled: self.enabled,
            wet_dry: self.wet_dry,
            parameters: self.parameters@.map_values(|p: (String, u32)| param_view(p)),
        }
    }
}

/// The complete signal chain: an ordered list of processing slots.
#[derive(Debug, Clone)]
pub struct SignalChain {
    pub slots: Vec<ChainSlot>,
}

impl View for SignalChain {
    type V = Seq<SlotView>;

    open spec fn view(&self) -> Seq<SlotView> {
        self.slots@.map_values(|s: ChainSlot| s@)
    }
}

/// Why a slot could not be moved.
#[derive(Debug, Clone, Copy, PartialEq, Eq, Structural)]
pub enum MoveSlotError {
    /// One of the indices is past the end of the chain.
    InvalidIndices { from: usize, to: usize, len: usize },
    /// Input and Output slots cannot be moved.
    FixedSlot,
}

/// The default chain as abstract slots:
/// Input → Boost → Amp → Cab → Delay → Reverb → Output.
pub open spec fn default_chain_view() -> Seq<SlotView> {
    seq![
        SlotView {
            id: "input"@,
            plugin_type: PluginKind::Input,
            enabled: true,
            wet_dry: LEVEL_ONE,
            parameters: seq![],
        },
        SlotView {
            id: "boost"@,
            plugin_type: PluginKind::Boost,
            enabled: true,
            wet_dry: LEVEL_ONE,
            parameters: seq![("gain"@, LEVEL_0_75)],
        },
        SlotView {
            id: "amp"@,
            plugin_type: PluginKind::Amp,
            enabled: true,
            wet_dry: LEVEL_ONE,
            parameters: seq![
                ("gain"@, LEVEL_0_5),
                ("master"@, LEVEL_0_7),
                ("bass"@, LEVEL_0_5),
                ("mid"@, LEVEL_0_5),
                ("treble"@, LEVEL_0_5),
                ("bass_mode"@, LEVEL_ZERO),
            ],
        },
        SlotView {
            id: "cab"@,
            plugin_type: PluginKind::Cab,
            enabled: true,
            wet_dry: LEVEL_ONE,
            parameters: seq![],
        },
        SlotView {
            id: "delay"@,
            plugin_type: PluginKind::Delay,
            enabled: true,
            wet_dry: LEVEL_ONE,
            parameters: seq![("time"@, LEVEL_0_3), ("feedback"@, LEVEL_0_4), ("mix"@, LEVEL_0_3)],
        },
        SlotView {
            id: "reverb"@,
            plugin_type: PluginKind::Reverb,
            enabled: true,
            wet_dry: LEVEL_ONE,
            parameters: seq![("size"@, LEVEL_0_5), ("damping"@, LEVEL_0_5), ("mix"@, LEVEL_0_3)],
        },
        SlotView {
            id: "output"@,
            plugin_type: PluginKind::Output,
            enabled: true,
            wet_dry: LEVEL_ONE,
            parameters: seq![("volume"@, LEVEL_0_8)],
        },
    ]
}

/// The position where a slot moved from `from` towards `to` is put back after
/// its removal: one less than `to` when moving forward.
pub open spec fn move_insert_index(from: int, to: int) -> int {
    if from < to {
        to - 1
    } else {
        to
    }
}

/// `s` with the element at `from` taken out and put back at
/// `move_insert_index(from, to)`.
pub open spec fn moved<A>(s: Seq<A>, from: int, to: int) -> Seq<A> {
    s.remove(from).insert(move_insert_index(from, to), s[from])
}

/// The first index whose slot has the identifier `id`, if any.
pub open spec fn first_slot_with_id(slots: Seq<SlotView>, id: Seq<char>) -> Option<int> {
    if exists|i: int| 0 <= i < slots.len() && slots[i].id == id {
        Some(choose|i: int| 0 <= i < slots.len() && slots[i].id == id && forall|j: int| 0 <= j < i ==> slots[j].id != id)
    } else {
        None
    }
}

fn param(name: &str, bits: u32) -> (p: (String, u32))
    ensures
        param_view(p) == (name@, bits),
{
    (name.to_string(), bits)
}

fn slot(id: &str, plugin_type: PluginType, parameters: Vec<(String, u32)>) -> (s: ChainSlot)
    ensures
        s@ == (SlotView {
            id: id@,
            plugin_type: plugin_type@,
            enabled: true,
            wet_dry: LEVEL_ONE,
            parameters: parameters@.map_values(|p: (String, u32)| param_view(p)),
        }),
{
    ChainSlot { id: id.to_string(), plugin_type, enabled: true, wet_dry: LEVEL_ONE, parameters }
}

impl Default for SignalChain {
    fn default() -> (c: Self)
        ensures
            c@ == default_chain_view(),
    {
        let input = slot("input", PluginType::Input, Vec::new());

        let boost_params = vec![param("gain", LEVEL_0_75)];
        let boost = slot("boost", PluginType::Boost, boost_params);

        let amp_params = vec![
            param("gain", LEVEL_0_5),
            param("master", LEVEL_0_7),
            param("bass", LEVEL_0_5),
            param("mid", LEVEL_0_5),
            param("treble", LEVEL_0_5),
            param("bass_mode", LEVEL_ZERO),
        ];
        let amp = slot("amp", PluginType::Amp, amp_params);

        let cab = slot("cab", PluginType::Cab, Vec::new());

        let delay_params = vec![
            param("time", LEVEL_0_3),
            param("feedback", LEVEL_0_4),
            param("mix", LEVEL_0_3),
        ];
        let delay = slot("delay", PluginType::Delay, delay_params);

        let reverb_params = vec![
            param("size", LEVEL_0_5),
            param("damping", LEVEL_0_5),
            param("mix", LEVEL_0_3),
        ];
        let reverb = slot("reverb", PluginType::Reverb, reverb_params);

        let output_params = vec![param("volume", LEVEL_0_8)];
        let output = slot("output", PluginType::Output, output_params);

        let chain = SignalChain { slots: vec![input, boost, amp, cab, delay, reverb, output] };
        let ghost d = default_chain_view();
        assert(input@.parameters =~= d[0].parameters);
        assert(boost@.parameters =~= d[1].parameters);
        assert(amp@.parameters =~= d[2].parameters);
        assert(cab@.parameters =~= d[3].parameters);
        assert(delay@.parameters =~= d[4].parameters);
        assert(reverb@.parameters =~= d[5].parameters);
        assert(output@.parameters =~= d[6].parameters);
        assert(chain@ =~= d);
        chain
    }
}


impl SignalChain {
    /// The index of the first slot whose identifier is `id`.
    pub fn position_of_slot(&self, id: &str) -> (r: Option<usize>)
        ensures
            r matches Some(i) ==> i < self.slots.len() && self@[i as int].id == id@
                && forall|j: int| 0 <= j < i ==> self@[j].id != id@,
            r is None ==> forall|j: int| 0 <= j < self.slots.len() ==> self@[j].id != id@,
            first_slot_with_id(self@, id@) == match r {
                Some(i) => Some(i as int),
                None => None::<int>,
            },
    {
        let target = id.to_string();
        let mut i: usize = 0;
        while i < self.slots.len()
            invariant
                i <= self.slots.len(),
                target@ == id@,
                forall|j: int| 0 <= j < i ==> self@[j].id != id@,
            decreases self.slots.len() - i,
        {
            if self.slots[i].id == target {
                proof {
                    lemma_first_slot_with_id(self@, id@, Some(i));
                }
                return Some(i);
            }
            i = i + 1;
        }
        proof {
            lemma_first_slot_with_id(self@, id@, None);
        }
        None
    }

    /// Flips the enabled flag of the first slot named `id` and returns its
    /// new value, or returns `None` when no slot has that identifier.
    pub fn toggle_slot(&mut self, id: &str) -> (r: Option<bool>)
        ensures
            match first_slot_with_id(old(self)@, id@) {
                Some(i) => {
                    &&& r == Some(!old(self)@[i].enabled)
                    &&& final(self)@ == old(self)@.update(
                        i,
                        SlotView { enabled: !old(self)@[i].enabled, ..old(self)@[i] },
                    )
                },
                None => r is None && final(self)@ == old(self)@,
            },
            params_are_maps(old(self)@) ==> params_are_maps(final(self)@),
    {
        let pos = self.position_of_slot(id);
        match pos {
            Some(i) => {
                let mut s = self.slots.remove(i);
                s.enabled = !s.enabled;
                let new_state = s.enabled;
                self.slots.insert(i, s);
                assert(self@ =~= old(self)@.update(
                    i as int,
                    SlotView { enabled: !old(self)@[i as int].enabled, ..old(self)@[i as int] },
                ));
                proof {
                    if params_are_maps(old(self)@) {
                        lemma_update_keeps_maps(
                            old(self)@,
                            i as int,
                            SlotView { enabled: !old(self)@[i as int].enabled, ..old(self)@[i as int] },
                        );
                    }
                }
                Some(new_state)
            },
            None => None,
        }
    }

    /// Moves the slot at `from` so that it lands before the slot now at `to`
    /// (drag-and-drop reorder). Input and Output slots cannot be moved.
    pub fn move_slot(&mut self, from: usize, to: usize) -> (r: Result<(), MoveSlotError>)
        ensures
            from >= old(self).slots.len() || to >= old(self).slots.len() ==> {
                &&& r == Err::<(), MoveSlotError>(
                    MoveSlotError::InvalidIndices { from, to, len: old(self).slots.len() },
                )
                &&& final(self)@ == old(self)@
            },
            from < old(self).slots.len() && to < old(self).slots.len() && from == to ==> {
                &&& r is Ok
                &&& final(self)@ == old(self)@
            },
            from < old(self).slots.len() && to < old(self).slots.len() && from != to
                && is_fixed_kind(old(self)@[from as int].plugin_type) ==> {
                &&& r == Err::<(), MoveSlotError>(MoveSlotError::FixedSlot)
                &&& final(self)@ == old(self)@
            },
            from < old(self).slots.len() && to < old(self).slots.len() && from != to
                && !is_fixed_kind(old(self)@[from as int].plugin_type) ==> {
                &&& r is Ok
                &&& final(self)@ == moved(old(self)@, from as int, to as int)
            },
            params_are_maps(old(self)@) ==> params_are_maps(final(self)@),
    {
        let len = self.slots.len();
        if from >= len || to >= len {
            return Err(MoveSlotError::InvalidIndices { from, to, len });
        }
        if from == to {
            return Ok(());
        }
        if matches!(self.slots[from].plugin_type, PluginType::Input | PluginType::Output) {
            return Err(MoveSlotError::FixedSlot);
        }
        let removed = self.slots.remove(from);
        let insert_at = if from < to {
            to - 1
        } else {
            to
        };
        self.slots.insert(insert_at, removed);
        assert(self@ =~= moved(old(self)@, from as int, to as int));
        proof {
            if params_are_maps(old(self)@) {
                lemma_move_keeps_maps(old(self)@, from as int, to as int);
            }
        }
        Ok(())
    }
}

/// `first_slot_with_id` agrees with a linear search's answer.
proof fn lemma_first_slot_with_id(slots: Seq<SlotView>, id: Seq<char>, r: Option<usize>)
    requires
        r matches Some(i) ==> i < slots.len() && slots[i as int].id == id
            && forall|j: int| 0 <= j < i ==> slots[j].id != id,
        r is None ==> forall|j: int| 0 <= j < slots.len() ==> slots[j].id != id,
    ensures
        first_slot_with_id(slots, id) == match r {
            Some(i) => Some(i as int),
            None => None::<int>,
        },
{
    if let Some(i) = r {
        assert(slots[i as int].id == id);
        let c = choose|k: int| 0 <= k < slots.len() && slots[k].id == id && forall|j: int| 0 <= j < k ==> slots[j].id != id;
        assert(0 <= c < slots.len() && slots[c].id == id && forall|j: int| 0 <= j < c ==> slots[j].id != id);
        if c < i {
            assert(slots[c].id != id);
        }
        if i < c {
            assert(slots[i as int].id != id);
        }
    }
}


/// Moving a slot neither adds nor loses slots: the chain keeps its length
/// and the same slots, and the moved slot ends up at the insert position.
pub proof fn lemma_move_keeps_slots<A>(s: Seq<A>, from: int, to: int)
    requires
        0 <= from < s.len(),
        0 <= to < s.len(),
    ensures
        moved(s, from, to).len() == s.len(),
        moved(s, from, to).to_multiset() == s.to_multiset(),
        moved(s, from, to)[move_insert_index(from, to)] == s[from],
{
    broadcast use vstd::seq_lib::group_to_multiset_ensures, vstd::multiset::group_multiset_axioms;
    let x = s[from];
    let r = s.remove(from);
    let k = move_insert_index(from, to);
    let m = r.insert(k, x);
    assert(m.remove(k) =~= r);
    assert(m[k] == x);
    assert(s.to_multiset().remove(x) == r.to_multiset());
    assert(m.to_multiset().remove(x) == r.to_multiset());
    assert(s.to_multiset().count(x) > 0) by {
        assert(s.contains(x));
    }
    assert(m.to_multiset().count(x) > 0) by {
        assert(m.contains(x));
    }
    assert(s.to_multiset() =~= r.to_multiset().insert(x));
    assert(m.to_multiset() =~= r.to_multiset().insert(x));
}

/// Toggling a slot twice restores the chain.
pub proof fn lemma_toggle_twice_restores(slots: Seq<SlotView>, i: int)
    requires
        0 <= i < slots.len(),
    ensures
        ({
            let once = slots.update(i, SlotView { enabled: !slots[i].enabled, ..slots[i] });
            once.update(i, SlotView { enabled: !once[i].enabled, ..once[i] }) == slots
        }),
{
    let once = slots.update(i, SlotView { enabled: !slots[i].enabled, ..slots[i] });
    assert(once.update(i, SlotView { enabled: !once[i].enabled, ..once[i] }) =~= slots);
}

} // verus!
