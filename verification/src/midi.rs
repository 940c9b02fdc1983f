//! MIDI controller configuration: control-change mappings to parameters,
//! the channel filter and MIDI-learn mode, and how an incoming CC event is
//! routed.
use vstd::prelude::*;

verus! {

/// A mapping from a MIDI CC number to a parameter control.
#[derive(Debug, Clone)]
pub struct MidiMapping {
    pub cc: u8,
    pub channel: u8,
    pub parameter_id: String,
    pub label: String,
    /// The lower end of the parameter range, as `f32` bits.
    pub min: u32,
    /// The upper end of the parameter range, as `f32` bits.
    pub max: u32,
}

/// The complete MIDI controller configuration.
#[derive(Debug, Clone)]
pub struct MidiConfig {
    /// Name of the active MIDI input device (None = no device selected).
    pub active_device: Option<String>,
    /// Global MIDI channel filter (0 = all channels).
    pub channel: u8,
    /// CC-to-parameter mappings.
    pub mappings: Vec<MidiMapping>,
    /// Whether MIDI learn mode is active.
    pub learn_mode: bool,
    /// The last CC number received (for learn mode UI).
    pub last_cc: Option<u8>,
}

pub open spec fn is_default_midi_config(c: MidiConfig) -> bool {
    &&& c.active_device is None
    &&& c.channel == 1
    &&& c.mappings@.len() == 0
    &&& !c.learn_mode
    &&& c.last_cc is None
}

impl Default for MidiConfig {
    fn default() -> (c: Self)
        ensures
            is_default_midi_config(c),
    {
        Self { active_device: None, channel: 1, mappings: Vec::new(), learn_mode: false, last_cc: None }
    }
}

/// What happens to one incoming control-change event.
#[derive(Debug, Clone, Copy, PartialEq, Eq, Structural)]
pub enum MidiRoute {
    /// Learn mode recorded the CC number; nothing is controlled.
    Learned,
    /// The mapping at this index controls its parameter.
    Mapped(usize),
    /// No mapping matches; the event is only reported.
    Unmapped,
}

/// Whether mapping `m` answers CC `cc` on `channel` when the global filter
/// is `global_channel` (0 lets every channel through).
pub open spec fn mapping_matches(m: MidiMapping, global_channel: u8, channel: u8, cc: u8) -> bool {
    m.cc == cc && (m.channel == channel || global_channel == 0)
}

impl MidiConfig {
    /// The index of the first mapping that answers CC `cc` on `channel`.
    pub fn find_mapping(&self, channel: u8, cc: u8) -> (r: Option<usize>)
        ensures
            r matches Some(i) ==> i < self.mappings@.len() && mapping_matches(
                self.mappings@[i as int],
                self.channel,
                channel,
                cc,
            ) && forall|j: int|
                0 <= j < i ==> !mapping_matches(
                    #[trigger] self.mappings@[j],
                    self.channel,
                    channel,
                    cc,
                ),
            r is None ==> forall|j: int|
                0 <= j < self.mappings@.len() ==> !mapping_matches(
                    #[trigger] self.mappings@[j],
                    self.channel,
                    channel,
                    cc,
                ),
    {
        let mut i: usize = 0;
        while i < self.mappings.len()
            invariant
                i <= self.mappings@.len(),
                forall|j: int|
                    0 <= j < i ==> !mapping_matches(
                        #[trigger] self.mappings@[j],
                        self.channel,
                        channel,
                        cc,
                    ),
            decreases self.mappings.len() - i,
        {
            let m = &self.mappings[i];
            if m.cc == cc && (m.channel == channel || self.channel == 0) {
                return Some(i);
            }
            i = i + 1;
        }
        None
    }

    /// Routes an incoming control change: in learn mode the CC number is
    /// recorded and nothing is controlled; otherwise the first matching
    /// mapping, if any, controls its parameter.
    pub fn route_event(&mut self, channel: u8, cc: u8) -> (r: MidiRoute)
        ensures
            old(self).learn_mode ==> r == MidiRoute::Learned && final(self).last_cc == Some(cc),
            !old(self).learn_mode ==> final(self).last_cc == old(self).last_cc && match r {
                MidiRoute::Mapped(i) => i < old(self).mappings@.len() && mapping_matches(
                    old(self).mappings@[i as int],
                    old(self).channel,
                    channel,
                    cc,
                ) && forall|j: int|
                    0 <= j < i ==> !mapping_matches(
                        #[trigger] old(self).mappings@[j],
                        old(self).channel,
                        channel,
                        cc,
                    ),
                MidiRoute::Unmapped => forall|j: int|
                    0 <= j < old(self).mappings@.len() ==> !mapping_matches(
                        #[trigger] old(self).mappings@[j],
                        old(self).channel,
                        channel,
                        cc,
                    ),
                MidiRoute::Learned => false,
            },
            final(self).mappings == old(self).mappings,
            final(self).channel == old(self).channel,
            final(self).learn_mode == old(self).learn_mode,
            final(self).active_device == old(self).active_device,
    {
        if self.learn_mode {
            self.last_cc = Some(cc);
            return MidiRoute::Learned;
        }
        match self.find_mapping(channel, cc) {
            Some(i) => MidiRoute::Mapped(i),
            None => MidiRoute::Unmapped,
        }
    }

    /// Enable or disable MIDI learn mode; leaving it forgets the last CC.
    pub fn set_learn_mode(&mut self, active: bool)
        ensures
            final(self).learn_mode == active,
            !active ==> final(self).last_cc is None,
            active ==> final(self).last_cc == old(self).last_cc,
            final(self).mappings == old(self).mappings,
            final(self).channel == old(self).channel,
            final(self).active_device == old(self).active_device,
    {
        self.learn_mode = active;
        if !active {
            self.last_cc = None;
        }
    }
}

/// The channel, controller number and value of a MIDI control-change
/// message (a status byte `0xB0`..`0xBF` and two data bytes), or `None` for
/// any other message.
pub open spec fn control_change_of(message: Seq<u8>) -> Option<(u8, u8, u8)> {
    if message.len() >= 3 && message[0] & 0xF0u8 == 0xB0u8 {
        Some((message[0] & 0x0Fu8, message[1], message[2]))
    } else {
        None
    }
}

/// Reads a raw MIDI message as a control change.
pub fn control_change(message: &[u8]) -> (r: Option<(u8, u8, u8)>)
    ensures
        r == control_change_of(message@),
{
    if message.len() >= 3 && message[0] & 0xF0 == 0xB0 {
        Some((message[0] & 0x0F, message[1], message[2]))
    } else {
        None
    }
}


/// Only control changes are routed: a message reads as one exactly when it
/// has three bytes or more and its status byte lies in `0xB0..=0xBF`, and
/// then its channel is the status byte's offset from `0xB0` and its
/// controller and value are the two bytes after it.
pub proof fn lemma_only_control_changes(message: Seq<u8>)
    ensures
        control_change_of(message) is Some <==> (message.len() >= 3 && 0xB0 <= message[0] <= 0xBF),
        control_change_of(message) matches Some((ch, cc, v)) ==> {
            &&& ch == message[0] - 0xB0
            &&& ch < 16
            &&& cc == message[1]
            &&& v == message[2]
        },
{
    if message.len() >= 3 {
        let b = message[0];
        assert((b & 0xF0u8 == 0xB0u8) <==> (0xB0u8 <= b && b <= 0xBFu8)) by (bit_vector);
        assert(b & 0xF0u8 == 0xB0u8 ==> (b & 0x0Fu8) == b - 0xB0u8) by (bit_vector);
    }
}


/// A mapping answers only its own controller number; with the global
/// channel 0 (omni) it answers it on every channel, and otherwise only on
/// the mapping's own channel.
pub proof fn lemma_mapping_answers(m: MidiMapping, global_channel: u8, channel: u8, cc: u8)
    ensures
        cc != m.cc ==> !mapping_matches(m, global_channel, channel, cc),
        global_channel == 0 ==> mapping_matches(m, global_channel, channel, m.cc),
        global_channel != 0 && channel != m.channel ==> !mapping_matches(m, global_channel, channel, cc),
        mapping_matches(m, global_channel, m.channel, m.cc),
{
}

} // verus!
