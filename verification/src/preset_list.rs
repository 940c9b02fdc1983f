//! The preset listing the frontend shows: every bank with its presets'
//! names, descriptions, tags and dates.
use crate::preset::{Bank, Preset, PresetCollection};
use vstd::prelude::*;

verus! {

/// What chrono writes with the format `%Y-%m-%d %H:%M:%S UTC` for the UTC
/// time `secs` seconds and `nanos` nanoseconds after the Unix epoch, or for
/// the epoch itself when chrono cannot represent that time.
pub uninterp spec fn utc_stamp(secs: i64, nanos: u32) -> Seq<char>;

/// Calls chrono's `DateTime::<Utc>::from_timestamp` and formats the time
/// with `%Y-%m-%d %H:%M:%S UTC`. Trusted to return the text that
/// `utc_stamp` names for the same two numbers; the calendar arithmetic is
/// left unsaid.
#[verifier::external_body]
fn format_utc(secs: i64, nanos: u32) -> (s: String)
    ensures
        s@ == utc_stamp(secs, nanos),
{
    let t = chrono::DateTime::<chrono::Utc>::from_timestamp(secs, nanos).unwrap_or_default();
    t.format("%Y-%m-%d %H:%M:%S UTC").to_string()
}

/// A preset as the listing shows it.
pub struct PresetDescriptor {
    pub name: String,
    pub description: String,
    pub tags: Vec<String>,
    pub created: String,
    pub modified: String,
}

/// A bank as the listing shows it.
pub struct BankDescriptor {
    pub name: String,
    pub presets: Vec<PresetDescriptor>,
}

/// The texts of a list of strings.
pub open spec fn texts(v: Seq<String>) -> Seq<Seq<char>> {
    v.map_values(|s: String| s@)
}

/// `d` shows the preset `p`: its name, description and tags, and its
/// dates as UTC text.
pub open spec fn describes(d: PresetDescriptor, p: Preset) -> bool {
    &&& d.name@ == p.name@
    &&& d.description@ == p.description@
    &&& texts(d.tags@) == texts(p.tags@)
    &&& d.created@ == utc_stamp(p.created.secs, p.created.nanos)
    &&& d.modified@ == utc_stamp(p.modified.secs, p.modified.nanos)
}

/// `d` shows the bank `b`: its name and each of its presets, in order.
pub open spec fn describes_bank(d: BankDescriptor, b: Bank) -> bool {
    &&& d.name@ == b.name@
    &&& d.presets@.len() == b.presets@.len()
    &&& forall|i: int| 0 <= i < d.presets@.len() ==> #[trigger] describes(d.presets@[i], b.presets@[i])
}

/// A copy of a list of strings.
fn copy_strings(v: &Vec<String>) -> (r: Vec<String>)
    ensures
        texts(r@) == texts(v@),
{
    let mut r: Vec<String> = Vec::new();
    let mut i: usize = 0;
    while i < v.len()
        invariant
            i <= v@.len(),
            r@.len() == i,
            forall|j: int| 0 <= j < i ==> #[trigger] r@[j]@ == v@[j]@,
        decreases v@.len() - i,
    {
        r.push(v[i].clone());
        i = i + 1;
    }
    assert(texts(r@) =~= texts(v@));
    r
}

/// How the listing shows one preset.
pub fn describe_preset(p: &Preset) -> (d: PresetDescriptor)
    ensures
        describes(d, *p),
{
    PresetDescriptor {
        name: p.name.clone(),
        description: p.description.clone(),
        tags: copy_strings(&p.tags),
        created: format_utc(p.created.secs, p.created.nanos),
        modified: format_utc(p.modified.secs, p.modified.nanos),
    }
}

/// How the listing shows one bank.
fn describe_bank(b: &Bank) -> (d: BankDescriptor)
    ensures
        describes_bank(d, *b),
{
    let mut presets: Vec<PresetDescriptor> = Vec::new();
    let mut i: usize = 0;
    while i < b.presets.len()
        invariant
            i <= b.presets@.len(),
            presets@.len() == i,
            forall|j: int| 0 <= j < i ==> #[trigger] describes(presets@[j], b.presets@[j]),
        decreases b.presets@.len() - i,
    {
        presets.push(describe_preset(&b.presets[i]));
        i = i + 1;
    }
    BankDescriptor { name: b.name.clone(), presets }
}

/// Every bank of the collection with its presets, in order, as the listing
/// shows them.
pub fn list_presets(c: &PresetCollection) -> (v: Vec<BankDescriptor>)
    ensures
        v@.len() == c.banks@.len(),
        forall|i: int| 0 <= i < v@.len() ==> #[trigger] describes_bank(v@[i], c.banks@[i]),
{
    let mut v: Vec<BankDescriptor> = Vec::new();
    let mut i: usize = 0;
    while i < c.banks.len()
        invariant
            i <= c.banks@.len(),
            v@.len() == i,
            forall|j: int| 0 <= j < i ==> #[trigger] describes_bank(v@[j], c.banks@[j]),
        decreases c.banks@.len() - i,
    {
        v.push(describe_bank(&c.banks[i]));
        i = i + 1;
    }
    v
}

} // verus!
