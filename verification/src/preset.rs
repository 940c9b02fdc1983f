//! Presets: named signal chains with a description, tags and timestamps,
//! organised into named banks.
use crate::signal_chain::SignalChain;
use vstd::prelude::*;

verus! {

/// A point in time in UTC: whole seconds since the Unix epoch and the
/// nanoseconds within that second (what `chrono::DateTime<Utc>` holds).
#[derive(Debug, Clone, Copy, PartialEq, Eq, Structural)]
pub struct Timestamp {
    pub secs: i64,
    pub nanos: u32,
}

/// A named preset containing a complete signal chain configuration.
#[derive(Debug, Clone)]
pub struct Preset {
    pub name: String,
    pub description: String,
    pub tags: Vec<String>,
    pub signal_chain: SignalChain,
    pub created: Timestamp,
    pub modified: Timestamp,
}

/// A named bank containing presets.
#[derive(Debug, Clone)]
pub struct Bank {
    pub name: String,
    pub presets: Vec<Preset>,
}

/// A collection of presets, organized into banks.
#[derive(Debug, Clone)]
pub struct PresetCollection {
    pub banks: Vec<Bank>,
}

impl Default for PresetCollection {
    fn default() -> (c: Self)
        ensures
            c.banks@.len() == 0,
    {
        PresetCollection { banks: Vec::new() }
    }
}


/// Why a preset operation found nothing to act on.
#[derive(Debug, Clone, Copy, PartialEq, Eq, Structural)]
pub enum PresetError {
    /// No bank has the given name.
    BankNotFound,
    /// The bank has no preset with the given name.
    PresetNotFound,
    /// The bank is missing or has no preset with the given name.
    NotFoundInBank,
}

/// The index of the first bank named `name`.
#[verifier::opaque]
pub open spec fn first_bank(banks: Seq<Bank>, name: Seq<char>) -> Option<int> {
    if exists|i: int| 0 <= i < banks.len() && banks[i].name@ == name {
        Some(choose|i: int| 0 <= i < banks.len() && banks[i].name@ == name && forall|j: int| 0 <= j < i ==> banks[j].name@ != name)
    } else {
        None
    }
}

/// The index of the first preset named `name`.
#[verifier::opaque]
pub open spec fn first_preset(presets: Seq<Preset>, name: Seq<char>) -> Option<int> {
    if exists|i: int| 0 <= i < presets.len() && presets[i].name@ == name {
        Some(choose|i: int| 0 <= i < presets.len() && presets[i].name@ == name && forall|j: int| 0 <= j < i ==> presets[j].name@ != name)
    } else {
        None
    }
}

/// Keeps the presets not named `name`.
pub open spec fn not_named(name: Seq<char>) -> spec_fn(Preset) -> bool {
    |p: Preset| p.name@ != name
}

/// The banks after a bank's preset list was replaced: bank `i` has the same
/// name and the presets `presets`, every other bank is unchanged.
pub open spec fn with_bank_presets(old_banks: Seq<Bank>, new_banks: Seq<Bank>, i: int, presets: Seq<Preset>) -> bool {
    &&& new_banks.len() == old_banks.len()
    &&& new_banks[i].name == old_banks[i].name
    &&& new_banks[i].presets@ == presets
    &&& forall|j: int| 0 <= j < old_banks.len() && j != i ==> new_banks[j] == old_banks[j]
}

/// The banks after `preset` was filed under the bank named `bank_name`:
/// appended to the first such bank, or to a new bank at the end when there
/// was none.
pub open spec fn preset_added(old_banks: Seq<Bank>, new_banks: Seq<Bank>, bank_name: Seq<char>, preset: Preset) -> bool {
    match first_bank(old_banks, bank_name) {
        Some(i) => with_bank_presets(old_banks, new_banks, i, old_banks[i].presets@.push(preset)),
        None => {
            &&& new_banks.len() == old_banks.len() + 1
            &&& new_banks.drop_last() == old_banks
            &&& new_banks.last().name@ == bank_name
            &&& new_banks.last().presets@ == seq![preset]
        },
    }
}

/// The first index at which a bank is named `name`, when every earlier
/// bank has another name, is what `first_bank` answers.
proof fn lemma_first_bank_at(banks: Seq<Bank>, name: Seq<char>, i: int)
    requires
        0 <= i < banks.len(),
        banks[i].name@ == name,
        forall|j: int| 0 <= j < i ==> banks[j].name@ != name,
    ensures
        first_bank(banks, name) == Some(i),
{
    reveal(first_bank);
    let c = choose|k: int| 0 <= k < banks.len() && banks[k].name@ == name && forall|j: int| 0 <= j < k ==> banks[j].name@ != name;
    assert(0 <= c < banks.len() && banks[c].name@ == name && forall|j: int| 0 <= j < c ==> banks[j].name@ != name);
    if c < i {
        assert(banks[c].name@ != name);
    }
    if i < c {
        assert(banks[i].name@ != name);
    }
}

/// What `first_bank` answers is a bank of that name with no earlier one.
proof fn lemma_first_bank_found(banks: Seq<Bank>, name: Seq<char>)
    ensures
        first_bank(banks, name) matches Some(i) ==> 0 <= i < banks.len() && banks[i].name@ == name
            && forall|j: int| 0 <= j < i ==> banks[j].name@ != name,
        first_bank(banks, name) is None ==> forall|j: int| 0 <= j < banks.len() ==> banks[j].name@ != name,
{
    reveal(first_bank);
    if exists|i: int| 0 <= i < banks.len() && banks[i].name@ == name {
        let k = choose|i: int| 0 <= i < banks.len() && banks[i].name@ == name;
        lemma_earliest_bank(banks, name, k);
    }
}

/// Among the banks named `name` up to index `k` there is an earliest one.
proof fn lemma_earliest_bank(banks: Seq<Bank>, name: Seq<char>, k: int)
    requires
        0 <= k < banks.len(),
        banks[k].name@ == name,
    ensures
        exists|m: int| 0 <= m < banks.len() && banks[m].name@ == name && forall|j: int| 0 <= j < m ==> banks[j].name@ != name,
    decreases k,
{
    if exists|j: int| 0 <= j < k && banks[j].name@ == name {
        let j = choose|j: int| 0 <= j < k && banks[j].name@ == name;
        lemma_earliest_bank(banks, name, j);
    } else {
        assert(forall|j: int| 0 <= j < k ==> banks[j].name@ != name);
    }
}

/// What `first_preset` answers is a preset of that name with no earlier one.
proof fn lemma_first_preset_found(presets: Seq<Preset>, name: Seq<char>)
    ensures
        first_preset(presets, name) matches Some(i) ==> 0 <= i < presets.len() && presets[i].name@ == name
            && forall|j: int| 0 <= j < i ==> presets[j].name@ != name,
{
    reveal(first_preset);
    if exists|i: int| 0 <= i < presets.len() && presets[i].name@ == name {
        let k = choose|i: int| 0 <= i < presets.len() && presets[i].name@ == name;
        lemma_earliest_preset(presets, name, k);
    }
}

/// Among the presets named `name` up to index `k` there is an earliest one.
proof fn lemma_earliest_preset(presets: Seq<Preset>, name: Seq<char>, k: int)
    requires
        0 <= k < presets.len(),
        presets[k].name@ == name,
    ensures
        exists|m: int| 0 <= m < presets.len() && presets[m].name@ == name && forall|j: int| 0 <= j < m ==> presets[j].name@ != name,
    decreases k,
{
    if exists|j: int| 0 <= j < k && presets[j].name@ == name {
        let j = choose|j: int| 0 <= j < k && presets[j].name@ == name;
        lemma_earliest_preset(presets, name, j);
    } else {
        assert(forall|j: int| 0 <= j < k ==> presets[j].name@ != name);
    }
}

/// The same as `lemma_first_bank_at`, for presets.
proof fn lemma_first_preset_at(presets: Seq<Preset>, name: Seq<char>, i: int)
    requires
        0 <= i < presets.len(),
        presets[i].name@ == name,
        forall|j: int| 0 <= j < i ==> presets[j].name@ != name,
    ensures
        first_preset(presets, name) == Some(i),
{
    reveal(first_preset);
    let c = choose|k: int| 0 <= k < presets.len() && presets[k].name@ == name && forall|j: int| 0 <= j < k ==> presets[j].name@ != name;
    assert(0 <= c < presets.len() && presets[c].name@ == name && forall|j: int| 0 <= j < c ==> presets[j].name@ != name);
    if c < i {
        assert(presets[c].name@ != name);
    }
    if i < c {
        assert(presets[i].name@ != name);
    }
}

/// `first_preset` answers `None` exactly when no preset has that name.
proof fn lemma_first_preset_none(presets: Seq<Preset>, name: Seq<char>)
    ensures
        first_preset(presets, name) is None <==> forall|j: int| 0 <= j < presets.len() ==> presets[j].name@ != name,
{
    reveal(first_preset);
    if !(forall|j: int| 0 <= j < presets.len() ==> presets[j].name@ != name) {
        let w = choose|j: int| !(0 <= j < presets.len() ==> presets[j].name@ != name);
        assert(0 <= w < presets.len() && presets[w].name@ == name);
    }
}

/// A saved preset can be loaded again: after `preset` was filed under
/// `bank_name` in a bank that had no preset of that name yet, looking that
/// name up in that bank finds exactly `preset`.
pub proof fn lemma_saved_preset_is_found(old_banks: Seq<Bank>, new_banks: Seq<Bank>, bank_name: Seq<char>, preset: Preset)
    requires
        preset_added(old_banks, new_banks, bank_name, preset),
        first_bank(old_banks, bank_name) matches Some(i) ==> first_preset(old_banks[i].presets@, preset.name@) is None,
    ensures
        first_bank(new_banks, bank_name) matches Some(i) && first_preset(new_banks[i].presets@, preset.name@)
            matches Some(k) && new_banks[i].presets@[k] == preset,
{
    lemma_first_bank_found(old_banks, bank_name);
    match first_bank(old_banks, bank_name) {
        Some(i) => {
            assert forall|j: int| 0 <= j < i implies new_banks[j].name@ != bank_name by {
                assert(new_banks[j] == old_banks[j]);
            }
            lemma_first_bank_at(new_banks, bank_name, i);
            let olds = old_banks[i].presets@;
            let news = olds.push(preset);
            lemma_first_preset_none(olds, preset.name@);
            assert forall|j: int| 0 <= j < olds.len() implies news[j].name@ != preset.name@ by {
                assert(news[j] == olds[j]);
            }
            lemma_first_preset_at(news, preset.name@, olds.len() as int);
        },
        None => {
            let n = old_banks.len() as int;
            assert forall|j: int| 0 <= j < n implies new_banks[j].name@ != bank_name by {
                assert(new_banks.drop_last()[j] == new_banks[j]);
            }
            lemma_first_bank_at(new_banks, bank_name, n);
            lemma_first_preset_at(seq![preset], preset.name@, 0);
        },
    }
}

/// A renamed preset is found under its new name: after the first preset
/// named `old_name` in a bank was renamed to `new_name`, and no preset before
/// it was already called `new_name`, looking up `new_name` finds it.
pub proof fn lemma_renamed_preset_is_found(
    old_banks: Seq<Bank>,
    new_banks: Seq<Bank>,
    bank_name: Seq<char>,
    old_name: Seq<char>,
    new_name: String,
    i: int,
    k: int,
)
    requires
        first_bank(old_banks, bank_name) == Some(i),
        first_preset(old_banks[i].presets@, old_name) == Some(k),
        forall|j: int| 0 <= j < k ==> old_banks[i].presets@[j].name@ != new_name@,
        with_bank_presets(
            old_banks,
            new_banks,
            i,
            old_banks[i].presets@.update(k, Preset { name: new_name, ..old_banks[i].presets@[k] }),
        ),
    ensures
        first_bank(new_banks, bank_name) == Some(i),
        first_preset(new_banks[i].presets@, new_name@) == Some(k),
        new_banks[i].presets@[k] == (Preset { name: new_name, ..old_banks[i].presets@[k] }),
{
    lemma_first_bank_found(old_banks, bank_name);
    assert forall|j: int| 0 <= j < i implies new_banks[j].name@ != bank_name by {
        assert(new_banks[j] == old_banks[j]);
    }
    lemma_first_bank_at(new_banks, bank_name, i);
    let olds = old_banks[i].presets@;
    lemma_first_preset_found(olds, old_name);
    let news = new_banks[i].presets@;
    assert forall|j: int| 0 <= j < k implies news[j].name@ != new_name@ by {
        assert(news[j] == olds[j]);
    }
    lemma_first_preset_at(news, new_name@, k);
}

/// After a preset was deleted from a bank, looking its name up in that bank
/// finds nothing, and the bank itself is still found.
pub proof fn lemma_deleted_preset_is_gone(old_banks: Seq<Bank>, new_banks: Seq<Bank>, bank_name: Seq<char>, preset_name: Seq<char>, i: int)
    requires
        first_bank(old_banks, bank_name) == Some(i),
        with_bank_presets(old_banks, new_banks, i, old_banks[i].presets@.filter(not_named(preset_name))),
    ensures
        first_bank(new_banks, bank_name) == Some(i),
        first_preset(new_banks[i].presets@, preset_name) is None,
{
    lemma_first_bank_found(old_banks, bank_name);
    assert forall|j: int| 0 <= j < i implies new_banks[j].name@ != bank_name by {
        assert(new_banks[j] == old_banks[j]);
    }
    lemma_first_bank_at(new_banks, bank_name, i);
    let kept = old_banks[i].presets@.filter(not_named(preset_name));
    assert forall|k: int| 0 <= k < kept.len() implies kept[k].name@ != preset_name by {
        old_banks[i].presets@.lemma_filter_pred(not_named(preset_name), k);
    }
    lemma_first_preset_none(kept, preset_name);
}

/// The index of the first preset named `name` in `presets`.
fn position_of_preset(presets: &Vec<Preset>, name: &str) -> (r: Option<usize>)
    ensures
        r matches Some(i) ==> i < presets@.len() && presets@[i as int].name@ == name@
            && forall|j: int| 0 <= j < i ==> presets@[j].name@ != name@,
        r is None ==> forall|j: int| 0 <= j < presets@.len() ==> presets@[j].name@ != name@,
        first_preset(presets@, name@) == match r {
            Some(i) => Some(i as int),
            None => None::<int>,
        },
{
    let target = name.to_string();
    let mut i: usize = 0;
    while i < presets.len()
        invariant
            i <= presets@.len(),
            target@ == name@,
            forall|j: int| 0 <= j < i ==> presets@[j].name@ != name@,
        decreases presets.len() - i,
    {
        if presets[i].name == target {
            proof {
                lemma_first_preset_at(presets@, name@, i as int);
            }
            return Some(i);
        }
        i = i + 1;
    }
    proof {
        lemma_first_preset_none(presets@, name@);
    }
    None
}

/// `presets` without the presets named `name`, in order.
fn without_named(presets: Vec<Preset>, name: &str) -> (kept: Vec<Preset>)
    ensures
        kept@ == presets@.filter(not_named(name@)),
{
    let target = name.to_string();
    let ghost orig = presets@;
    assert(orig.len() == presets.len());
    let mut rest = presets;
    let mut kept: Vec<Preset> = Vec::new();
    let mut k: usize = 0;
    assert(orig.take(0) =~= Seq::<Preset>::empty());
    proof {
        reveal(Seq::filter);
    }
    while rest.len() > 0
        invariant
            target@ == name@,
            k + rest@.len() == orig.len(),
            orig.len() <= usize::MAX,
            rest@ == orig.skip(k as int),
            kept@ == orig.take(k as int).filter(not_named(name@)),
        decreases rest.len(),
    {
        let p = rest.remove(0);
        assert(orig.take(k + 1) =~= orig.take(k as int).push(p));
        proof {
            orig.take(k as int).lemma_filter_push(p, not_named(name@));
        }
        if p.name != target {
            kept.push(p);
        }
        k = k + 1;
        assert(rest@ =~= orig.skip(k as int));
    }
    assert(orig.take(k as int) =~= orig);
    kept
}

impl PresetCollection {
    /// The index of the first bank named `name`.
    pub fn find_bank(&self, name: &str) -> (r: Option<usize>)
        ensures
            r matches Some(i) ==> i < self.banks@.len() && self.banks@[i as int].name@ == name@,
            first_bank(self.banks@, name@) == match r {
                Some(i) => Some(i as int),
                None => None::<int>,
            },
    {
        let target = name.to_string();
        let mut i: usize = 0;
        while i < self.banks.len()
            invariant
                i <= self.banks@.len(),
                target@ == name@,
                forall|j: int| 0 <= j < i ==> self.banks@[j].name@ != name@,
            decreases self.banks.len() - i,
        {
            if self.banks[i].name == target {
                proof {
                    lemma_first_bank_at(self.banks@, name@, i as int);
                }
                return Some(i);
            }
            i = i + 1;
        }
        proof {
            lemma_first_bank_found(self.banks@, name@);
        }
        None
    }

    /// Files `preset` under the bank named `bank_name`, creating the bank at
    /// the end when there is none yet.
    pub fn add_preset(&mut self, bank_name: String, preset: Preset)
        ensures
            preset_added(old(self).banks@, final(self).banks@, bank_name@, preset),
            first_bank(old(self).banks@, bank_name@) is None ==> final(self).banks@.last().name
                == bank_name,
    {
        match self.find_bank(bank_name.as_str()) {
            Some(i) => {
                let mut bank = self.banks.remove(i);
                bank.presets.push(preset);
                self.banks.insert(i, bank);
            },
            None => {
                let mut presets = Vec::new();
                presets.push(preset);
                self.banks.push(Bank { name: bank_name, presets });
                assert(self.banks@.drop_last() =~= old(self).banks@);
            },
        }
    }

    /// The preset named `preset_name` in the bank named `bank_name`.
    pub fn get_preset(&self, bank_name: &str, preset_name: &str) -> (r: Result<&Preset, PresetError>)
        ensures
            match first_bank(self.banks@, bank_name@) {
                None => r == Err::<&Preset, PresetError>(PresetError::BankNotFound),
                Some(i) => match first_preset(self.banks@[i].presets@, preset_name@) {
                    None => r == Err::<&Preset, PresetError>(PresetError::PresetNotFound),
                    Some(k) => r == Ok::<&Preset, PresetError>(&self.banks@[i].presets@[k]),
                },
            },
    {
        match self.find_bank(bank_name) {
            None => Err(PresetError::BankNotFound),
            Some(i) => {
                let bank = &self.banks[i];
                let pos = position_of_preset(&bank.presets, preset_name);
                match pos {
                    None => Err(PresetError::PresetNotFound),
                    Some(k) => Ok(&bank.presets[k]),
                }
            },
        }
    }

    /// Removes every preset named `preset_name` from the bank named
    /// `bank_name`; fails when that removes nothing.
    pub fn delete_preset(&mut self, bank_name: &str, preset_name: &str) -> (r: Result<(), PresetError>)
        ensures
            match first_bank(old(self).banks@, bank_name@) {
                Some(i) if first_preset(old(self).banks@[i].presets@, preset_name@) is Some => {
                    &&& r is Ok
                    &&& with_bank_presets(
                        old(self).banks@,
                        final(self).banks@,
                        i,
                        old(self).banks@[i].presets@.filter(not_named(preset_name@)),
                    )
                },
                _ => r == Err::<(), PresetError>(PresetError::NotFoundInBank) && final(self).banks@
                    == old(self).banks@,
            },
    {
        match self.find_bank(bank_name) {
            None => Err(PresetError::NotFoundInBank),
            Some(i) => {
                let pos = position_of_preset(&self.banks[i].presets, preset_name);
                match pos {
                    None => Err(PresetError::NotFoundInBank),
                    Some(_) => {
                        let bank = self.banks.remove(i);
                        let kept = without_named(bank.presets, preset_name);
                        self.banks.insert(i, Bank { name: bank.name, presets: kept });
                        Ok(())
                    },
                }
            },
        }
    }

    /// Renames the first preset named `old_name` in the bank named
    /// `bank_name`.
    pub fn rename_preset(&mut self, bank_name: &str, old_name: &str, new_name: String) -> (r: Result<(), PresetError>)
        ensures
            match first_bank(old(self).banks@, bank_name@) {
                None => r == Err::<(), PresetError>(PresetError::BankNotFound) && final(self).banks@
                    == old(self).banks@,
                Some(i) => match first_preset(old(self).banks@[i].presets@, old_name@) {
                    None => r == Err::<(), PresetError>(PresetError::PresetNotFound) && final(self).banks@
                        == old(self).banks@,
                    Some(k) => {
                        &&& r is Ok
                        &&& with_bank_presets(
                            old(self).banks@,
                            final(self).banks@,
                            i,
                            old(self).banks@[i].presets@.update(
                                k,
                                Preset { name: new_name, ..old(self).banks@[i].presets@[k] },
                            ),
                        )
                    },
                },
            },
    {
        match self.find_bank(bank_name) {
            None => Err(PresetError::BankNotFound),
            Some(i) => {
                let pos = position_of_preset(&self.banks[i].presets, old_name);
                match pos {
                    None => Err(PresetError::PresetNotFound),
                    Some(k) => {
                        let mut bank = self.banks.remove(i);
                        let mut p = bank.presets.remove(k);
                        p.name = new_name;
                        bank.presets.insert(k, p);
                        self.banks.insert(i, bank);
                        assert(self.banks@[i as int].presets@ =~= old(self).banks@[i as int].presets@.update(
                            k as int,
                            Preset { name: new_name, ..old(self).banks@[i as int].presets@[k as int] },
                        ));
                        Ok(())
                    },
                }
            },
        }
    }
}

} // verus!
