//! Data exchanged with a running Guitarix engine: rack units and the flat
//! list of presets across all banks.
use vstd::prelude::*;

verus! {

/// A preset entry with bank index, name, and position.
#[derive(Debug, Clone)]
pub struct PresetEntry {
    pub bank_name: String,
    pub bank_index: u32,
    pub name: String,
    pub index: u32,
}

/// A plugin unit loaded in the rack.
#[derive(Debug, Clone)]
pub struct RackUnit {
    pub name: String,
    pub uri: String,
    pub enabled: bool,
}

/// The abstract value of a preset entry.
pub struct PresetEntryView {
    pub bank_name: Seq<char>,
    pub bank_index: u32,
    pub name: Seq<char>,
    pub index: u32,
}

impl View for PresetEntry {
    type V = PresetEntryView;

    open spec fn view(&self) -> PresetEntryView {
        PresetEntryView {
            bank_name: self.bank_name@,
            bank_index: self.bank_index,
            name: self.name@,
            index: self.index,
        }
    }
}

/// A bank's name with the names of its presets, in the engine's order.
pub open spec fn bank_view(b: (String, Vec<String>)) -> (Seq<char>, Seq<Seq<char>>) {
    (b.0@, b.1@.map_values(|s: String| s@))
}

/// The entries of bank number `bank_index`: one per preset, numbered from 0.
pub open spec fn bank_entries(bank: (Seq<char>, Seq<Seq<char>>), bank_index: int) -> Seq<PresetEntryView> {
    Seq::new(
        bank.1.len(),
        |k: int|
            PresetEntryView {
                bank_name: bank.0,
                bank_index: bank_index as u32,
                name: bank.1[k],
                index: k as u32,
            },
    )
}

/// All banks' entries, bank after bank.
pub open spec fn all_entries(banks: Seq<(Seq<char>, Seq<Seq<char>>)>) -> Seq<PresetEntryView>
    decreases banks.len(),
{
    if banks.len() == 0 {
        Seq::empty()
    } else {
        all_entries(banks.drop_last()) + bank_entries(banks.last(), banks.len() - 1)
    }
}

pub open spec fn entries_view(v: Seq<PresetEntry>) -> Seq<PresetEntryView> {
    v.map_values(|e: PresetEntry| e@)
}

/// Enumerates all presets across all banks, given each bank's name with the
/// names of its presets; bank and preset positions are numbered from 0.
pub fn preset_entries(banks: &Vec<(String, Vec<String>)>) -> (all: Vec<PresetEntry>)
    ensures
        entries_view(all@) == all_entries(banks@.map_values(|b: (String, Vec<String>)| bank_view(b))),
{
    let ghost bv = banks@.map_values(|b: (String, Vec<String>)| bank_view(b));
    let mut all: Vec<PresetEntry> = Vec::new();
    let mut b: usize = 0;
    assert(bv.take(0) =~= Seq::<(Seq<char>, Seq<Seq<char>>)>::empty());
    while b < banks.len()
        invariant
            b <= banks@.len(),
            bv == banks@.map_values(|b: (String, Vec<String>)| bank_view(b)),
            entries_view(all@) == all_entries(bv.take(b as int)),
        decreases banks.len() - b,
    {
        let bank_name = &banks[b].0;
        let names = &banks[b].1;
        let ghost before = entries_view(all@);
        let mut k: usize = 0;
        while k < names.len()
            invariant
                k <= names@.len(),
                b < banks@.len(),
                bank_name == &banks@[b as int].0,
                names == &banks@[b as int].1,
                bv == banks@.map_values(|b: (String, Vec<String>)| bank_view(b)),
                entries_view(all@) == before + bank_entries(bv[b as int], b as int).take(k as int),
            decreases names.len() - k,
        {
            let entry = PresetEntry {
                bank_name: bank_name.clone(),
                bank_index: b as u32,
                name: names[k].clone(),
                index: k as u32,
            };
            let ghost prev = entries_view(all@);
            all.push(entry);
            assert(entries_view(all@) =~= prev.push(entry@));
            assert(bank_entries(bv[b as int], b as int).take(k + 1) =~= bank_entries(
                bv[b as int],
                b as int,
            ).take(k as int).push(entry@));
            k = k + 1;
        }
        assert(bank_entries(bv[b as int], b as int).take(k as int) =~= bank_entries(
            bv[b as int],
            b as int,
        ));
        assert(bv.take(b + 1).drop_last() =~= bv.take(b as int));
        b = b + 1;
    }
    assert(bv.take(b as int) =~= bv);
    all
}

} // verus!
