//! A slot's parameters as a map from names to values, and the edits and
//! messages that the application makes of a chain's parameters.
//!
//! The parameters are held as a list of name/value pairs; a name is looked
//! up at its first occurrence, and setting a name replaces that occurrence
//! or appends the pair, so a list without repeated names keeps none.
use crate::signal_chain::{
    default_chain_view, first_slot_with_id, move_insert_index, moved, param_view, ChainSlot, PluginKind, PluginType, SignalChain, SlotView, LEVEL_ONE, LEVEL_ZERO,
};
use vstd::prelude::*;

verus! {

broadcast use vstd::string::group_string_axioms;

/// The index of the first element of `s` that satisfies `p`.
#[verifier::opaque]
pub open spec fn first_index<A>(s: Seq<A>, p: spec_fn(A) -> bool) -> Option<int> {
    if exists|i: int| 0 <= i < s.len() && p(s[i]) {
        Some(choose|i: int| 0 <= i < s.len() && p(s[i]) && forall|j: int| 0 <= j < i ==> !p(s[j]))
    } else {
        None
    }
}

/// `first_index` answers the first position that satisfies the predicate.
pub proof fn lemma_first_index_at<A>(s: Seq<A>, p: spec_fn(A) -> bool, i: int)
    requires
        0 <= i < s.len(),
        p(s[i]),
        forall|j: int| 0 <= j < i ==> !p(s[j]),
    ensures
        first_index(s, p) == Some(i),
{
    reveal(first_index);
    let c = choose|k: int| 0 <= k < s.len() && p(s[k]) && forall|j: int| 0 <= j < k ==> !p(s[j]);
    assert(0 <= c < s.len() && p(s[c]) && forall|j: int| 0 <= j < c ==> !p(s[j]));
    if c < i {
        assert(!p(s[c]));
    }
    if i < c {
        assert(!p(s[i]));
    }
}

/// `first_index` answers `None` when nothing satisfies the predicate.
pub proof fn lemma_first_index_none<A>(s: Seq<A>, p: spec_fn(A) -> bool)
    requires
        forall|j: int| 0 <= j < s.len() ==> !p(s[j]),
    ensures
        first_index(s, p) is None,
{
    reveal(first_index);
}

/// What `first_index` answers satisfies the predicate, after none before it.
pub proof fn lemma_first_index_found<A>(s: Seq<A>, p: spec_fn(A) -> bool)
    ensures
        first_index(s, p) matches Some(i) ==> 0 <= i < s.len() && p(s[i]) && forall|j: int| 0 <= j < i ==> !p(s[j]),
        first_index(s, p) is None ==> forall|j: int| 0 <= j < s.len() ==> !p(s[j]),
{
    reveal(first_index);
    if exists|i: int| 0 <= i < s.len() && p(s[i]) {
        let k = choose|i: int| 0 <= i < s.len() && p(s[i]);
        lemma_earliest(s, p, k);
    }
}

proof fn lemma_earliest<A>(s: Seq<A>, p: spec_fn(A) -> bool, k: int)
    requires
        0 <= k < s.len(),
        p(s[k]),
    ensures
        exists|m: int| 0 <= m < s.len() && p(s[m]) && forall|j: int| 0 <= j < m ==> !p(s[j]),
    decreases k,
{
    if exists|j: int| 0 <= j < k && p(s[j]) {
        let j = choose|j: int| 0 <= j < k && p(s[j]);
        lemma_earliest(s, p, j);
    } else {
        assert(forall|j: int| 0 <= j < k ==> !p(s[j]));
    }
}

/// Selects the pairs named `key`.
pub open spec fn named(key: Seq<char>) -> spec_fn((Seq<char>, u32)) -> bool {
    |e: (Seq<char>, u32)| e.0 == key
}

/// The value of the parameter `key`: the value at its first occurrence.
pub open spec fn param_lookup(params: Seq<(Seq<char>, u32)>, key: Seq<char>) -> Option<u32> {
    match first_index(params, named(key)) {
        Some(i) => Some(params[i].1),
        None => None,
    }
}

/// The parameters after setting `key` to `value`: its first occurrence gets
/// the value, or the pair is appended when the name is new.
pub open spec fn param_insert(params: Seq<(Seq<char>, u32)>, key: Seq<char>, value: u32) -> Seq<(Seq<char>, u32)> {
    match first_index(params, named(key)) {
        Some(i) => params.update(i, (key, value)),
        None => params.push((key, value)),
    }
}

/// The parameters after setting each pair of `list`, in order.
pub open spec fn params_inserted(params: Seq<(Seq<char>, u32)>, list: Seq<(Seq<char>, u32)>) -> Seq<(Seq<char>, u32)>
    decreases list.len(),
{
    if list.len() == 0 {
        params
    } else {
        let rest = params_inserted(params, list.drop_last());
        param_insert(rest, list.last().0, list.last().1)
    }
}

/// No name occurs twice: the list is a map.
pub open spec fn keys_distinct(params: Seq<(Seq<char>, u32)>) -> bool {
    forall|i: int, j: int| 0 <= i < j < params.len() ==> params[i].0 != params[j].0
}

/// The abstract parameters of a parameter list.
pub open spec fn params_view(v: Seq<(String, u32)>) -> Seq<(Seq<char>, u32)> {
    v.map_values(|p: (String, u32)| param_view(p))
}

/// The index of the first pair named `key` in `params`.
fn find_param(params: &Vec<(String, u32)>, key: &str) -> (r: Option<usize>)
    ensures
        r matches Some(i) ==> i < params@.len(),
        first_index(params_view(params@), named(key@)) == match r {
            Some(i) => Some(i as int),
            None => None::<int>,
        },
{
    let ghost pv = params_view(params@);
    let target = key.to_string();
    let mut i: usize = 0;
    while i < params.len()
        invariant
            i <= params@.len(),
            pv == params_view(params@),
            target@ == key@,
            forall|j: int| 0 <= j < i ==> !named(key@)(pv[j]),
        decreases params.len() - i,
    {
        if params[i].0 == target {
            proof {
                lemma_first_index_at(pv, named(key@), i as int);
            }
            return Some(i);
        }
        i = i + 1;
    }
    proof {
        lemma_first_index_none(pv, named(key@));
    }
    None
}

/// The value of the parameter `key` in `params`.
pub fn lookup_param(params: &Vec<(String, u32)>, key: &str) -> (r: Option<u32>)
    ensures
        r == param_lookup(params_view(params@), key@),
{
    match find_param(params, key) {
        Some(i) => Some(params[i].1),
        None => None,
    }
}

/// Sets the parameter `key` to `value` in `params`.
pub fn insert_param(params: &mut Vec<(String, u32)>, key: String, value: u32)
    ensures
        params_view(final(params)@) == param_insert(params_view(old(params)@), key@, value),
{
    match find_param(params, key.as_str()) {
        Some(i) => {
            params.remove(i);
            params.insert(i, (key, value));
            assert(params_view(params@) =~= params_view(old(params)@).update(i as int, (key@, value)));
        },
        None => {
            params.push((key, value));
            assert(params_view(params@) =~= params_view(old(params)@).push((key@, value)));
        },
    }
}

/// Sets each pair of `list` in `params`, in order.
pub fn insert_params(params: &mut Vec<(String, u32)>, list: &Vec<(String, u32)>)
    ensures
        params_view(final(params)@) == params_inserted(params_view(old(params)@), params_view(list@)),
{
    let ghost start = params_view(params@);
    let mut k: usize = 0;
    while k < list.len()
        invariant
            k <= list@.len(),
            params_view(params@) == params_inserted(start, params_view(list@).take(k as int)),
        decreases list.len() - k,
    {
        let key = list[k].0.clone();
        let value = list[k].1;
        insert_param(params, key, value);
        proof {
            let lv = params_view(list@);
            assert(lv.take(k + 1).drop_last() =~= lv.take(k as int));
            assert(lv.take(k + 1).last() == (key@, value));
        }
        k = k + 1;
    }
    proof {
        assert(params_view(list@).take(list@.len() as int) =~= params_view(list@));
    }
}

/// Reading a parameter back after setting it gives the value set, and
/// setting one name leaves every other name's value as it was.
pub proof fn lemma_lookup_after_insert(params: Seq<(Seq<char>, u32)>, key: Seq<char>, value: u32, other: Seq<char>)
    ensures
        param_lookup(param_insert(params, key, value), key) == Some(value),
        other != key ==> param_lookup(param_insert(params, key, value), other) == param_lookup(params, other),
{
    lemma_first_index_found(params, named(key));
    lemma_first_index_found(params, named(other));
    let ins = param_insert(params, key, value);
    match first_index(params, named(key)) {
        Some(i) => {
            assert forall|j: int| 0 <= j < i implies !named(key)(ins[j]) by {
                assert(ins[j] == params[j]);
            }
            lemma_first_index_at(ins, named(key), i);
            if other != key {
                match first_index(params, named(other)) {
                    Some(m) => {
                        assert forall|j: int| 0 <= j < m implies !named(other)(ins[j]) by {
                            if j != i {
                                assert(ins[j] == params[j]);
                            }
                        }
                        lemma_first_index_at(ins, named(other), m);
                    },
                    None => {
                        assert forall|j: int| 0 <= j < ins.len() implies !named(other)(ins[j]) by {
                            if j != i {
                                assert(ins[j] == params[j]);
                            }
                        }
                        lemma_first_index_none(ins, named(other));
                    },
                }
            }
        },
        None => {
            assert forall|j: int| 0 <= j < params.len() implies !named(key)(ins[j]) by {
                assert(ins[j] == params[j]);
            }
            lemma_first_index_at(ins, named(key), params.len() as int);
            if other != key {
                match first_index(params, named(other)) {
                    Some(m) => {
                        assert forall|j: int| 0 <= j < m implies !named(other)(ins[j]) by {
                            assert(ins[j] == params[j]);
                        }
                        lemma_first_index_at(ins, named(other), m);
                    },
                    None => {
                        assert forall|j: int| 0 <= j < ins.len() implies !named(other)(ins[j]) by {
                            if j < params.len() {
                                assert(ins[j] == params[j]);
                            }
                        }
                        lemma_first_index_none(ins, named(other));
                    },
                }
            }
        },
    }
}

/// Setting a parameter keeps a list without repeated names free of them.
pub proof fn lemma_insert_keeps_keys_distinct(params: Seq<(Seq<char>, u32)>, key: Seq<char>, value: u32)
    requires
        keys_distinct(params),
    ensures
        keys_distinct(param_insert(params, key, value)),
{
    lemma_first_index_found(params, named(key));
    let ins = param_insert(params, key, value);
    match first_index(params, named(key)) {
        Some(i) => {
            assert forall|a: int, b: int| 0 <= a < b < ins.len() implies ins[a].0 != ins[b].0 by {
                if a != i && b != i {
                    assert(params[a].0 != params[b].0);
                } else if a == i {
                    assert(params[b].0 != params[i].0);
                } else {
                    assert(params[a].0 != params[i].0);
                }
            }
        },
        None => {
            assert forall|a: int, b: int| 0 <= a < b < ins.len() implies ins[a].0 != ins[b].0 by {
                if b < params.len() {
                    assert(params[a].0 != params[b].0);
                } else {
                    assert(!named(key)(params[a]));
                }
            }
        },
    }
}

/// A slot with the enabled flag, wet/dry mix and parameters that an update
/// asks for; what the update leaves `None` stays as it was.
pub open spec fn slot_updated(
    s: SlotView,
    enabled: Option<bool>,
    wet_dry: Option<u32>,
    params: Option<Seq<(Seq<char>, u32)>>,
) -> SlotView {
    SlotView {
        enabled: match enabled {
            Some(e) => e,
            None => s.enabled,
        },
        wet_dry: match wet_dry {
            Some(w) => w,
            None => s.wet_dry,
        },
        parameters: match params {
            Some(p) => params_inserted(s.parameters, p),
            None => s.parameters,
        },
        ..s
    }
}

/// Selects the slots with a guitar or bass amp.
pub open spec fn amp_slot() -> spec_fn(SlotView) -> bool {
    |s: SlotView| s.plugin_type is Amp || s.plugin_type is BassAmp
}

/// Selects the slots with a bass amp.
pub open spec fn bass_amp_slot() -> spec_fn(SlotView) -> bool {
    |s: SlotView| s.plugin_type is BassAmp
}

/// An amp slot after an amp preset's parameters were applied to it: a bass
/// preset makes it the bass amp, any other the guitar amp.
pub open spec fn amp_applied(s: SlotView, params: Seq<(Seq<char>, u32)>, bass: bool) -> SlotView {
    SlotView {
        id: if bass {
            "bass-amp"@
        } else {
            "amp"@
        },
        plugin_type: if bass {
            PluginKind::BassAmp
        } else {
            PluginKind::Amp
        },
        parameters: params_inserted(s.parameters, params),
        ..s
    }
}

/// The bass mode the engine starts with for a chain: when a slot holds a
/// bass amp, the first such slot's `bass_mode` parameter, or full bass mode
/// when it has none.
pub open spec fn bass_mode_of(slots: Seq<SlotView>) -> Option<u32> {
    match first_index(slots, bass_amp_slot()) {
        Some(i) => Some(
            match param_lookup(slots[i].parameters, "bass_mode"@) {
                Some(v) => v,
                None => LEVEL_ONE,
            },
        ),
        None => None,
    }
}

/// The abstract parameters of an optional parameter list.
pub open spec fn opt_params_view(o: Option<Vec<(String, u32)>>) -> Option<Seq<(Seq<char>, u32)>> {
    match o {
        Some(p) => Some(params_view(p@)),
        None => None,
    }
}

/// No slot has the identifier an update names.
#[derive(Debug, Clone, Copy, PartialEq, Eq, Structural)]
pub struct SlotNotFound;

/// The chain has no guitar or bass amp slot to apply an amp preset to.
#[derive(Debug, Clone, Copy, PartialEq, Eq, Structural)]
pub struct NoAmpSlot;

impl ChainSlot {
    /// The value of the parameter `key`.
    pub fn get_param(&self, key: &str) -> (r: Option<u32>)
        ensures
            r == param_lookup(self@.parameters, key@),
    {
        let r = lookup_param(&self.parameters, key);
        assert(params_view(self.parameters@) =~= self@.parameters);
        r
    }

    /// Sets each pair of `list` as a parameter, in order.
    pub fn set_params(&mut self, list: &Vec<(String, u32)>)
        ensures
            final(self)@ == (SlotView {
                parameters: params_inserted(old(self)@.parameters, params_view(list@)),
                ..old(self)@
            }),
    {
        assert(params_view(self.parameters@) =~= self@.parameters);
        insert_params(&mut self.parameters, list);
        assert(params_view(self.parameters@) =~= self@.parameters);
    }
}

impl SignalChain {
    /// Updates the first slot named `slot_id`: its enabled flag, wet/dry mix
    /// and, in order, the given parameters, each as far as it is given.
    pub fn update_slot(
        &mut self,
        slot_id: &str,
        enabled: Option<bool>,
        wet_dry: Option<u32>,
        parameters: Option<Vec<(String, u32)>>,
    ) -> (r: Result<(), SlotNotFound>)
        ensures
            match first_slot_with_id(old(self)@, slot_id@) {
                None => r == Err::<(), SlotNotFound>(SlotNotFound) && final(self)@ == old(self)@,
                Some(i) => {
                    &&& r is Ok
                    &&& final(self)@ == old(self)@.update(
                        i,
                        slot_updated(
                            old(self)@[i],
                            enabled,
                            wet_dry,
                            opt_params_view(parameters),
                        ),
                    )
                },
            },
            params_are_maps(old(self)@) ==> params_are_maps(final(self)@),
    {
        match self.position_of_slot(slot_id) {
            None => Err(SlotNotFound),
            Some(i) => {
                let mut slot = self.slots.remove(i);
                let ghost before = slot@;
                let ghost given = opt_params_view(parameters);
                if let Some(en) = enabled {
                    slot.enabled = en;
                }
                if let Some(wd) = wet_dry {
                    slot.wet_dry = wd;
                }
                if let Some(params) = parameters {
                    slot.set_params(&params);
                }
                self.slots.insert(i, slot);
                proof {
                    if params_are_maps(old(self)@) {
                        assert(keys_distinct(before.parameters));
                        if let Some(p) = given {
                            lemma_inserted_keeps_keys_distinct(before.parameters, p);
                        }
                        lemma_update_keeps_maps(old(self)@, i as int, slot_updated(before, enabled, wet_dry, given));
                    }
                }
                assert(self@ =~= old(self)@.update(
                    i as int,
                    slot_updated(
                        before,
                        enabled,
                        wet_dry,
                        opt_params_view(parameters),
                    ),
                ));
                Ok(())
            },
        }
    }

    /// The index of the first slot with a guitar or bass amp.
    fn position_of_amp(&self) -> (r: Option<usize>)
        ensures
            r matches Some(i) ==> i < self@.len(),
            first_index(self@, amp_slot()) == match r {
                Some(i) => Some(i as int),
                None => None::<int>,
            },
    {
        let mut i: usize = 0;
        while i < self.slots.len()
            invariant
                i <= self@.len(),
                forall|j: int| 0 <= j < i ==> !amp_slot()(self@[j]),
            decreases self.slots.len() - i,
        {
            if matches!(self.slots[i].plugin_type, PluginType::Amp | PluginType::BassAmp) {
                proof {
                    lemma_first_index_at(self@, amp_slot(), i as int);
                }
                return Some(i);
            }
            i = i + 1;
        }
        proof {
            lemma_first_index_none(self@, amp_slot());
        }
        None
    }

    /// Applies an amp preset's parameters to the first guitar or bass amp
    /// slot, which becomes the bass amp for a bass preset and the guitar amp
    /// otherwise.
    pub fn apply_amp_params(&mut self, params: &Vec<(String, u32)>, bass: bool) -> (r: Result<(), NoAmpSlot>)
        ensures
            match first_index(old(self)@, amp_slot()) {
                None => r == Err::<(), NoAmpSlot>(NoAmpSlot) && final(self)@ == old(self)@,
                Some(i) => {
                    &&& r is Ok
                    &&& final(self)@ == old(self)@.update(i, amp_applied(old(self)@[i], params_view(params@), bass))
                },
            },
            params_are_maps(old(self)@) ==> params_are_maps(final(self)@),
    {
        match self.position_of_amp() {
            None => Err(NoAmpSlot),
            Some(i) => {
                let mut slot = self.slots.remove(i);
                slot.set_params(params);
                if bass {
                    slot.plugin_type = PluginType::BassAmp;
                    slot.id = "bass-amp".to_string();
                } else {
                    slot.plugin_type = PluginType::Amp;
                    slot.id = "amp".to_string();
                }
                self.slots.insert(i, slot);
                assert(self@ =~= old(self)@.update(
                    i as int,
                    amp_applied(old(self)@[i as int], params_view(params@), bass),
                ));
                proof {
                    if params_are_maps(old(self)@) {
                        let s0 = old(self)@[i as int];
                        assert(keys_distinct(s0.parameters));
                        lemma_inserted_keeps_keys_distinct(s0.parameters, params_view(params@));
                        lemma_update_keeps_maps(old(self)@, i as int, amp_applied(s0, params_view(params@), bass));
                    }
                }
                Ok(())
            },
        }
    }

    /// The bass mode to start the engine with: that of the first bass amp
    /// slot (full bass mode when it sets none), or `None` without one.
    pub fn bass_mode_setting(&self) -> (r: Option<u32>)
        ensures
            r == bass_mode_of(self@),
    {
        let mut i: usize = 0;
        while i < self.slots.len()
            invariant
                i <= self@.len(),
                forall|j: int| 0 <= j < i ==> !bass_amp_slot()(self@[j]),
            decreases self.slots.len() - i,
        {
            if matches!(self.slots[i].plugin_type, PluginType::BassAmp) {
                proof {
                    lemma_first_index_at(self@, bass_amp_slot(), i as int);
                }
                return match self.slots[i].get_param("bass_mode") {
                    Some(v) => Some(v),
                    None => Some(LEVEL_ONE),
                };
            }
            i = i + 1;
        }
        proof {
            lemma_first_index_none(self@, bass_amp_slot());
        }
        None
    }
}

/// The level value that reports an enabled flag: one or zero.
pub open spec fn flag_level(b: bool) -> u32 {
    if b {
        LEVEL_ONE
    } else {
        LEVEL_ZERO
    }
}

/// The engine parameter address of a slot's parameter: `slot/parameter`.
pub open spec fn param_address(slot_id: Seq<char>, name: Seq<char>) -> Seq<char> {
    slot_id + "/"@ + name
}

/// The parameter messages that load a slot into the engine: with
/// `include_enabled`, first its enabled flag at `slot/enabled`, then each
/// parameter at its address, in order.
pub open spec fn slot_messages(s: SlotView, include_enabled: bool) -> Seq<(Seq<char>, u32)> {
    let params = s.parameters.map_values(|p: (Seq<char>, u32)| (param_address(s.id, p.0), p.1));
    if include_enabled {
        seq![(param_address(s.id, "enabled"@), flag_level(s.enabled))] + params
    } else {
        params
    }
}

/// The parameter messages that load a whole chain, slot by slot.
pub open spec fn chain_messages(slots: Seq<SlotView>, include_enabled: bool) -> Seq<(Seq<char>, u32)>
    decreases slots.len(),
{
    if slots.len() == 0 {
        seq![]
    } else {
        chain_messages(slots.drop_last(), include_enabled) + slot_messages(slots.last(), include_enabled)
    }
}

/// One step of configuring the running engine's plugins to match a chain.
#[derive(Debug, Clone)]
pub enum EngineCommand {
    /// Enable or bypass the plugin named after a slot.
    SetPluginEnabled { plugin: String, enabled: bool },
    /// Set a parameter of the plugin named after a slot.
    SetPluginParameter { plugin: String, parameter: String, value: u32 },
}

/// The abstract value of an engine command.
pub enum EngineCommandView {
    SetPluginEnabled { plugin: Seq<char>, enabled: bool },
    SetPluginParameter { plugin: Seq<char>, parameter: Seq<char>, value: u32 },
}

impl View for EngineCommand {
    type V = EngineCommandView;

    open spec fn view(&self) -> EngineCommandView {
        match self {
            EngineCommand::SetPluginEnabled { plugin, enabled } => EngineCommandView::SetPluginEnabled {
                plugin: plugin@,
                enabled: *enabled,
            },
            EngineCommand::SetPluginParameter { plugin, parameter, value } => EngineCommandView::SetPluginParameter {
                plugin: plugin@,
                parameter: parameter@,
                value: *value,
            },
        }
    }
}

/// The commands that bring a slot's plugin in line with the slot: its
/// enabled flag, then each parameter in order.
pub open spec fn slot_commands(s: SlotView) -> Seq<EngineCommandView> {
    seq![EngineCommandView::SetPluginEnabled { plugin: s.id, enabled: s.enabled }] + s.parameters.map_values(
        |p: (Seq<char>, u32)| EngineCommandView::SetPluginParameter { plugin: s.id, parameter: p.0, value: p.1 },
    )
}

/// The commands that bring the engine in line with a chain, slot by slot.
pub open spec fn chain_commands(slots: Seq<SlotView>) -> Seq<EngineCommandView>
    decreases slots.len(),
{
    if slots.len() == 0 {
        seq![]
    } else {
        chain_commands(slots.drop_last()) + slot_commands(slots.last())
    }
}

/// `slot/name` for a slot identifier and a name.
fn address(slot_id: &String, name: &str) -> (a: String)
    ensures
        a@ == param_address(slot_id@, name@),
{
    let mut a = slot_id.clone();
    a.append("/");
    a.append(name);
    proof {
        reveal_strlit("/");
    }
    assert(a@ =~= param_address(slot_id@, name@));
    a
}

impl SignalChain {
    /// The parameter messages that load this chain into the engine, in
    /// order; with `include_enabled` each slot's enabled flag comes first.
    pub fn param_messages(&self, include_enabled: bool) -> (m: Vec<(String, u32)>)
        ensures
            params_view(m@) == chain_messages(self@, include_enabled),
    {
        let mut m: Vec<(String, u32)> = Vec::new();
        let mut i: usize = 0;
        while i < self.slots.len()
            invariant
                i <= self@.len(),
                params_view(m@) == chain_messages(self@.take(i as int), include_enabled),
            decreases self.slots.len() - i,
        {
            let slot = &self.slots[i];
            let ghost before = params_view(m@);
            if include_enabled {
                let level = if slot.enabled {
                    LEVEL_ONE
                } else {
                    LEVEL_ZERO
                };
                m.push((address(&slot.id, "enabled"), level));
            }
            let ghost mid = params_view(m@);
            let mut k: usize = 0;
            while k < slot.parameters.len()
                invariant
                    k <= slot@.parameters.len(),
                    slot@.parameters.len() == slot.parameters@.len(),
                    params_view(m@) == mid + slot@.parameters.take(k as int).map_values(
                        |p: (Seq<char>, u32)| (param_address(slot@.id, p.0), p.1),
                    ),
                decreases slot.parameters.len() - k,
            {
                let name = &slot.parameters[k].0;
                let ghost prev = params_view(m@);
                m.push((address(&slot.id, name.as_str()), slot.parameters[k].1));
                assert(slot@.parameters[k as int] == (name@, slot.parameters[k as int].1));
                assert(params_view(m@) =~= prev.push((param_address(slot@.id, name@), slot.parameters[k as int].1)));
                assert(slot@.parameters.take(k + 1) =~= slot@.parameters.take(k as int).push(slot@.parameters[k as int]));
                assert(params_view(m@) =~= mid + slot@.parameters.take(k + 1).map_values(
                    |p: (Seq<char>, u32)| (param_address(slot@.id, p.0), p.1),
                ));
                k = k + 1;
            }
            proof {
                assert(slot@.parameters.take(k as int) =~= slot@.parameters);
                assert(self@.take(i + 1).drop_last() =~= self@.take(i as int));
                assert(self@.take(i + 1).last() == slot@);
                if include_enabled {
                    assert(mid =~= before + seq![(param_address(slot@.id, "enabled"@), flag_level(slot@.enabled))]);
                } else {
                    assert(mid =~= before);
                }
                assert(params_view(m@) =~= chain_messages(self@.take(i + 1), include_enabled));
            }
            i = i + 1;
        }
        assert(self@.take(i as int) =~= self@);
        m
    }

    /// The commands that configure the running engine's plugins to match
    /// this chain: per slot, its enabled flag and then its parameters.
    pub fn engine_commands(&self) -> (c: Vec<EngineCommand>)
        ensures
            c@.map_values(|e: EngineCommand| e@) == chain_commands(self@),
    {
        let mut c: Vec<EngineCommand> = Vec::new();
        let mut i: usize = 0;
        while i < self.slots.len()
            invariant
                i <= self@.len(),
                c@.map_values(|e: EngineCommand| e@) == chain_commands(self@.take(i as int)),
            decreases self.slots.len() - i,
        {
            let slot = &self.slots[i];
            let ghost before = c@.map_values(|e: EngineCommand| e@);
            c.push(EngineCommand::SetPluginEnabled { plugin: slot.id.clone(), enabled: slot.enabled });
            let ghost mid = c@.map_values(|e: EngineCommand| e@);
            let mut k: usize = 0;
            while k < slot.parameters.len()
                invariant
                    k <= slot@.parameters.len(),
                    slot@.parameters.len() == slot.parameters@.len(),
                    c@.map_values(|e: EngineCommand| e@) == mid + slot@.parameters.take(k as int).map_values(
                        |p: (Seq<char>, u32)| EngineCommandView::SetPluginParameter { plugin: slot@.id, parameter: p.0, value: p.1 },
                    ),
                decreases slot.parameters.len() - k,
            {
                let ghost prev = c@.map_values(|e: EngineCommand| e@);
                let cmd = EngineCommand::SetPluginParameter {
                    plugin: slot.id.clone(),
                    parameter: slot.parameters[k].0.clone(),
                    value: slot.parameters[k].1,
                };
                assert(cmd@ == EngineCommandView::SetPluginParameter {
                    plugin: slot@.id,
                    parameter: slot@.parameters[k as int].0,
                    value: slot@.parameters[k as int].1,
                });
                c.push(cmd);
                assert(c@.map_values(|e: EngineCommand| e@) =~= prev.push(cmd@));
                assert(slot@.parameters.take(k + 1) =~= slot@.parameters.take(k as int).push(slot@.parameters[k as int]));
                assert(c@.map_values(|e: EngineCommand| e@) =~= mid + slot@.parameters.take(k + 1).map_values(
                    |p: (Seq<char>, u32)| EngineCommandView::SetPluginParameter { plugin: slot@.id, parameter: p.0, value: p.1 },
                ));
                k = k + 1;
            }
            proof {
                assert(slot@.parameters.take(k as int) =~= slot@.parameters);
                assert(self@.take(i + 1).drop_last() =~= self@.take(i as int));
                assert(self@.take(i + 1).last() == slot@);
                assert(c@.map_values(|e: EngineCommand| e@) =~= chain_commands(self@.take(i + 1)));
            }
            i = i + 1;
        }
        assert(self@.take(i as int) =~= self@);
        c
    }
}

/// The key under which the engine caches a plugin's parameter:
/// `plugin.parameter`.
pub open spec fn plugin_key(plugin: Seq<char>, name: Seq<char>) -> Seq<char> {
    plugin + "."@ + name
}

/// The cache key of a plugin's parameter.
pub fn plugin_param_key(plugin: &str, id: &str) -> (k: String)
    ensures
        k@ == plugin_key(plugin@, id@),
{
    let mut k = plugin.to_string();
    k.append(".");
    k.append(id);
    proof {
        reveal_strlit(".");
    }
    assert(k@ =~= plugin_key(plugin@, id@));
    k
}

/// The cache key of a plugin's enabled flag: `plugin.__enabled`.
pub fn plugin_enabled_key(plugin: &str) -> (k: String)
    ensures
        k@ == plugin_key(plugin@, "__enabled"@),
{
    plugin_param_key(plugin, "__enabled")
}

/// Every slot's parameters form a map: no name occurs twice in a slot.
pub open spec fn params_are_maps(slots: Seq<SlotView>) -> bool {
    forall|i: int| 0 <= i < slots.len() ==> keys_distinct(#[trigger] slots[i].parameters)
}

/// Setting a list of parameters keeps a map a map.
pub proof fn lemma_inserted_keeps_keys_distinct(params: Seq<(Seq<char>, u32)>, list: Seq<(Seq<char>, u32)>)
    requires
        keys_distinct(params),
    ensures
        keys_distinct(params_inserted(params, list)),
    decreases list.len(),
{
    if list.len() > 0 {
        lemma_inserted_keeps_keys_distinct(params, list.drop_last());
        lemma_insert_keeps_keys_distinct(params_inserted(params, list.drop_last()), list.last().0, list.last().1);
    }
}

/// Replacing one slot by a slot whose parameters form a map keeps every
/// slot's parameters a map.
pub proof fn lemma_update_keeps_maps(slots: Seq<SlotView>, i: int, s: SlotView)
    requires
        params_are_maps(slots),
        0 <= i < slots.len(),
        keys_distinct(s.parameters),
    ensures
        params_are_maps(slots.update(i, s)),
{
    assert forall|k: int| 0 <= k < slots.len() implies keys_distinct(#[trigger] slots.update(i, s)[k].parameters) by {
        if k != i {
            assert(slots.update(i, s)[k] == slots[k]);
        }
    }
}

/// Moving a slot keeps every slot's parameters a map: each slot of the
/// moved chain is a slot of the chain before.
pub proof fn lemma_move_keeps_maps(slots: Seq<SlotView>, from: int, to: int)
    requires
        params_are_maps(slots),
        0 <= from < slots.len(),
        0 <= to < slots.len(),
    ensures
        params_are_maps(moved(slots, from, to)),
{
    let r = slots.remove(from);
    let k = move_insert_index(from, to);
    let m = moved(slots, from, to);
    assert forall|j: int| 0 <= j < m.len() implies keys_distinct(#[trigger] m[j].parameters) by {
        if j < k {
            assert(m[j] == r[j]);
        } else if j > k {
            assert(m[j] == r[j - 1]);
        }
        assert forall|a: int| 0 <= a < r.len() implies keys_distinct(#[trigger] r[a].parameters) by {
            if a < from {
                assert(r[a] == slots[a]);
            } else {
                assert(r[a] == slots[a + 1]);
            }
        }
    }
}

/// The default chain's slots each have parameters without repeated names.
pub proof fn lemma_default_chain_is_map()
    ensures
        params_are_maps(default_chain_view()),
{
    reveal_strlit("gain");
    reveal_strlit("master");
    reveal_strlit("bass");
    reveal_strlit("mid");
    reveal_strlit("treble");
    reveal_strlit("bass_mode");
    reveal_strlit("time");
    reveal_strlit("feedback");
    reveal_strlit("mix");
    reveal_strlit("size");
    reveal_strlit("damping");
    reveal_strlit("volume");
    let d = default_chain_view();
    assert forall|i: int| 0 <= i < d.len() implies keys_distinct(#[trigger] d[i].parameters) by {
        let p = d[i].parameters;
        assert forall|a: int, b: int| 0 <= a < b < p.len() implies p[a].0 != p[b].0 by {
            if p[a].0 == p[b].0 {
                assert(p[a].0.len() == p[b].0.len());
                assert(p[a].0[0] == p[b].0[0]);
            }
        }
    }
}

} // verus!
