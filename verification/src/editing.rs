//! Editing the signal chain with undo: each edit that changes the chain
//! records the chain as it was before, and an edit that fails or changes
//! nothing leaves the history alone.
use crate::chain_params::{amp_applied, amp_slot, first_index, opt_params_view, params_view, slot_updated, NoAmpSlot, SlotNotFound};
use crate::history::{after_undo, bounded_push, History, HistoryView};
use crate::signal_chain::{
    first_slot_with_id, is_fixed_kind, moved, param_view, ChainSlot, MoveSlotError, PluginType, SignalChain, SlotView,
};
use vstd::prelude::*;

verus! {

broadcast use vstd::string::group_string_axioms;

/// The chains of a history stack, by their views.
pub open spec fn chain_views(s: Seq<SignalChain>) -> Seq<Seq<SlotView>> {
    s.map_values(|c: SignalChain| c@)
}

/// `after` is `before` with the chain `edited` recorded for undo: pushed on
/// the undo stack (the oldest entry dropped past the limit), and the redo
/// stack emptied.
pub open spec fn records_edit(
    before: HistoryView<SignalChain>,
    after: HistoryView<SignalChain>,
    edited: Seq<SlotView>,
) -> bool {
    &&& chain_views(after.undo) == bounded_push(chain_views(before.undo), edited)
    &&& after.redo.len() == 0
}

/// The history after an edit of the chain `edited`: recorded when the edit
/// changed it, the same otherwise.
pub open spec fn history_after(
    before: HistoryView<SignalChain>,
    after: HistoryView<SignalChain>,
    edited: Seq<SlotView>,
    changed: bool,
) -> bool {
    if changed {
        records_edit(before, after, edited)
    } else {
        after == before
    }
}

/// Undo right after a recorded edit brings back the chain as it was before
/// the edit.
pub proof fn lemma_undo_restores_edited(
    before: HistoryView<SignalChain>,
    after: HistoryView<SignalChain>,
    edited: Seq<SlotView>,
    current: SignalChain,
)
    requires
        records_edit(before, after, edited),
    ensures
        after_undo(after, current) matches Some((h, c)) && c@ == edited,
{
    let v = chain_views(before.undo);
    assert(bounded_push(v, edited).len() > 0);
    assert(bounded_push(v, edited).last() == edited);
    assert(chain_views(after.undo)[after.undo.len() - 1] == after.undo.last()@);
}

/// Viewing the chains of a stack commutes with a bounded push.
proof fn lemma_views_of_push(s: Seq<SignalChain>, c: SignalChain)
    ensures
        chain_views(bounded_push(s, c)) == bounded_push(chain_views(s), c@),
{
    assert(chain_views(bounded_push(s, c)) =~= bounded_push(chain_views(s), c@));
}

/// A copy of a plugin type.
fn copy_plugin_type(t: &PluginType) -> (r: PluginType)
    ensures
        r@ == t@,
{
    match t {
        PluginType::Input => PluginType::Input,
        PluginType::Boost => PluginType::Boost,
        PluginType::Amp => PluginType::Amp,
        PluginType::BassAmp => PluginType::BassAmp,
        PluginType::Cab => PluginType::Cab,
        PluginType::Nam => PluginType::Nam,
        PluginType::Delay => PluginType::Delay,
        PluginType::Reverb => PluginType::Reverb,
        PluginType::Tuner => PluginType::Tuner,
        PluginType::Metronome => PluginType::Metronome,
        PluginType::Looper => PluginType::Looper,
        PluginType::Output => PluginType::Output,
        PluginType::Custom(s) => PluginType::Custom(s.clone()),
    }
}

/// A copy of a slot.
fn copy_slot(s: &ChainSlot) -> (r: ChainSlot)
    ensures
        r@ == s@,
{
    let mut parameters: Vec<(String, u32)> = Vec::new();
    let mut i: usize = 0;
    while i < s.parameters.len()
        invariant
            i <= s.parameters@.len(),
            parameters@.len() == i,
            forall|j: int| 0 <= j < i ==> #[trigger] param_view(parameters@[j]) == param_view(s.parameters@[j]),
        decreases s.parameters@.len() - i,
    {
        let p = &s.parameters[i];
        parameters.push((p.0.clone(), p.1));
        i = i + 1;
    }
    let r = ChainSlot {
        id: s.id.clone(),
        plugin_type: copy_plugin_type(&s.plugin_type),
        enabled: s.enabled,
        wet_dry: s.wet_dry,
        parameters,
    };
    assert(r@.parameters =~= s@.parameters);
    r
}

/// A copy of a chain.
pub fn copy_chain(c: &SignalChain) -> (r: SignalChain)
    ensures
        r@ == c@,
{
    let mut slots: Vec<ChainSlot> = Vec::new();
    let mut i: usize = 0;
    while i < c.slots.len()
        invariant
            i <= c.slots@.len(),
            slots@.len() == i,
            forall|j: int| 0 <= j < i ==> #[trigger] slots@[j]@ == c.slots@[j]@,
        decreases c.slots@.len() - i,
    {
        slots.push(copy_slot(&c.slots[i]));
        i = i + 1;
    }
    let r = SignalChain { slots };
    assert(r@ =~= c@);
    r
}

/// Records `before` for undo.
fn record(history: &mut History<SignalChain>, before: SignalChain)
    ensures
        records_edit(old(history)@, final(history)@, before@),
{
    history.push_undo_state(before);
    proof {
        lemma_views_of_push(old(history)@.undo, before);
    }
}

/// Updates a slot's enabled flag, wet/dry mix and parameters, recording the
/// chain for undo when the slot is found.
pub fn update_slot_with_undo(
    history: &mut History<SignalChain>,
    chain: &mut SignalChain,
    slot_id: &str,
    enabled: Option<bool>,
    wet_dry: Option<u32>,
    parameters: Option<Vec<(String, u32)>>,
) -> (r: Result<(), SlotNotFound>)
    ensures
        match first_slot_with_id(old(chain)@, slot_id@) {
            None => r == Err::<(), SlotNotFound>(SlotNotFound) && final(chain)@ == old(chain)@,
            Some(i) => {
                &&& r is Ok
                &&& final(chain)@ == old(chain)@.update(
                    i,
                    slot_updated(old(chain)@[i], enabled, wet_dry, opt_params_view(parameters)),
                )
            },
        },
        history_after(old(history)@, final(history)@, old(chain)@, r is Ok),
{
    let before = copy_chain(chain);
    let r = chain.update_slot(slot_id, enabled, wet_dry, parameters);
    if r.is_ok() {
        record(history, before);
    }
    r
}

/// Flips a slot's enabled flag, recording the chain for undo when the slot
/// is found; answers the new flag.
pub fn toggle_slot_with_undo(history: &mut History<SignalChain>, chain: &mut SignalChain, slot_id: &str) -> (r: Option<bool>)
    ensures
        match first_slot_with_id(old(chain)@, slot_id@) {
            Some(i) => {
                &&& r == Some(!old(chain)@[i].enabled)
                &&& final(chain)@ == old(chain)@.update(i, SlotView { enabled: !old(chain)@[i].enabled, ..old(chain)@[i] })
            },
            None => r is None && final(chain)@ == old(chain)@,
        },
        history_after(old(history)@, final(history)@, old(chain)@, r is Some),
{
    let before = copy_chain(chain);
    let r = chain.toggle_slot(slot_id);
    if r.is_some() {
        record(history, before);
    }
    r
}

/// Moves a slot, recording the chain for undo when the slot really moves;
/// a move onto itself succeeds and records nothing.
pub fn move_slot_with_undo(
    history: &mut History<SignalChain>,
    chain: &mut SignalChain,
    from: usize,
    to: usize,
) -> (r: Result<(), MoveSlotError>)
    ensures
        from >= old(chain).slots.len() || to >= old(chain).slots.len() ==> {
            &&& r == Err::<(), MoveSlotError>(MoveSlotError::InvalidIndices { from, to, len: old(chain).slots.len() })
            &&& final(chain)@ == old(chain)@
        },
        from < old(chain).slots.len() && to < old(chain).slots.len() && from == to ==> {
            &&& r is Ok
            &&& final(chain)@ == old(chain)@
        },
        from < old(chain).slots.len() && to < old(chain).slots.len() && from != to && is_fixed_kind(
            old(chain)@[from as int].plugin_type,
        ) ==> {
            &&& r == Err::<(), MoveSlotError>(MoveSlotError::FixedSlot)
            &&& final(chain)@ == old(chain)@
        },
        from < old(chain).slots.len() && to < old(chain).slots.len() && from != to && !is_fixed_kind(
            old(chain)@[from as int].plugin_type,
        ) ==> {
            &&& r is Ok
            &&& final(chain)@ == moved(old(chain)@, from as int, to as int)
        },
        history_after(old(history)@, final(history)@, old(chain)@, r is Ok && from != to),
{
    let before = copy_chain(chain);
    let r = chain.move_slot(from, to);
    if r.is_ok() && from != to {
        record(history, before);
    }
    r
}

/// Applies an amp preset's parameters to the first amp slot, recording the
/// chain for undo when there is one.
pub fn apply_amp_params_with_undo(
    history: &mut History<SignalChain>,
    chain: &mut SignalChain,
    params: &Vec<(String, u32)>,
    bass: bool,
) -> (r: Result<(), NoAmpSlot>)
    ensures
        match first_index(old(chain)@, amp_slot()) {
            None => r == Err::<(), NoAmpSlot>(NoAmpSlot) && final(chain)@ == old(chain)@,
            Some(i) => {
                &&& r is Ok
                &&& final(chain)@ == old(chain)@.update(i, amp_applied(old(chain)@[i], params_view(params@), bass))
            },
        },
        history_after(old(history)@, final(history)@, old(chain)@, r is Ok),
{
    let before = copy_chain(chain);
    let r = chain.apply_amp_params(params, bass);
    if r.is_ok() {
        record(history, before);
    }
    r
}

} // verus!
