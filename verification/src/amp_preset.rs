//! The built-in amp presets: named settings of the amp's parameters, each
//! level in hundredths of the parameter's full range.
use crate::chain_params::params_view;
use vstd::prelude::*;

verus! {

broadcast use vstd::string::group_string_axioms;

/// A level at the top of its range, in hundredths.
pub const FULL_LEVEL: u32 = 100;

/// `n` hundredths held to the range from nothing to the full level, as
/// `f32::clamp(0.0, 1.0)` holds the level they stand for.
pub open spec fn unit_level(n: u32) -> u32 {
    if n > FULL_LEVEL {
        FULL_LEVEL
    } else {
        n
    }
}

/// A named preset for just the amp plugin's parameters. Every level is in
/// hundredths of its full range.
pub struct AmpPreset {
    pub name: String,
    pub description: String,
    pub tags: Vec<String>,
    pub gain: u32,
    pub master: u32,
    pub bass: u32,
    pub mid: u32,
    pub treble: u32,
    pub drive: u32,
    /// Nothing for the guitar EQ, the full level for the bass EQ with its
    /// shifted frequencies.
    pub bass_mode: u32,
}

/// Every level of `p` lies within its range.
pub open spec fn levels_in_range(p: AmpPreset) -> bool {
    &&& p.gain <= FULL_LEVEL
    &&& p.master <= FULL_LEVEL
    &&& p.bass <= FULL_LEVEL
    &&& p.mid <= FULL_LEVEL
    &&& p.treble <= FULL_LEVEL
    &&& p.drive <= FULL_LEVEL
}

/// A guitar preset: levels in range and the guitar EQ.
pub open spec fn is_guitar_preset(p: AmpPreset) -> bool {
    levels_in_range(p) && p.bass_mode == 0
}

/// A bass preset: levels in range and the bass EQ.
pub open spec fn is_bass_preset(p: AmpPreset) -> bool {
    levels_in_range(p) && p.bass_mode == FULL_LEVEL
}

/// The parameters a preset sets, by name, in the order the amp lists them.
pub open spec fn preset_params(p: AmpPreset) -> Seq<(Seq<char>, u32)> {
    seq![
        ("gain"@, p.gain),
        ("master"@, p.master),
        ("bass"@, p.bass),
        ("mid"@, p.mid),
        ("treble"@, p.treble),
        ("drive"@, p.drive),
        ("bass_mode"@, p.bass_mode),
    ]
}

/// A preset as a row of the preset table: its name, its description, its
/// tags, its six levels and its bass mode.
pub type PresetRow = (Seq<char>, Seq<char>, Seq<Seq<char>>, u32, u32, u32, u32, u32, u32, u32);

/// The texts of a preset's tags.
pub open spec fn tag_texts(tags: Seq<String>) -> Seq<Seq<char>> {
    tags.map_values(|t: String| t@)
}

/// The texts of tags given as string slices.
pub open spec fn strs(tags: Seq<&str>) -> Seq<Seq<char>> {
    tags.map_values(|t: &str| t@)
}

/// The row of the preset table that `p` fills.
pub open spec fn preset_row(p: AmpPreset) -> PresetRow {
    (p.name@, p.description@, tag_texts(p.tags@), p.gain, p.master, p.bass, p.mid, p.treble, p.drive, p.bass_mode)
}

/// The rows of a list of presets, in order.
pub open spec fn preset_rows(v: Seq<AmpPreset>) -> Seq<PresetRow> {
    v.map_values(|p: AmpPreset| preset_row(p))
}

/// A row of the preset table.
pub open spec fn row(
    name: Seq<char>,
    description: Seq<char>,
    tags: Seq<&str>,
    gain: u32,
    master: u32,
    bass: u32,
    mid: u32,
    treble: u32,
    drive: u32,
    bass_mode: u32,
) -> PresetRow {
    (name, description, strs(tags), gain, master, bass, mid, treble, drive, bass_mode)
}

/// Holds a level to its range.
fn clamp_level(n: u32) -> (r: u32)
    ensures
        r == unit_level(n),
{
    if n > FULL_LEVEL {
        FULL_LEVEL
    } else {
        n
    }
}

/// The tags as owned strings, in order.
fn owned_tags(tags: Vec<&str>) -> (r: Vec<String>)
    ensures
        r@.len() == tags@.len(),
        forall|i: int| 0 <= i < r@.len() ==> #[trigger] r@[i]@ == tags@[i]@,
{
    let mut r: Vec<String> = Vec::new();
    let mut i: usize = 0;
    while i < tags.len()
        invariant
            i <= tags@.len(),
            r@.len() == i,
            forall|j: int| 0 <= j < i ==> #[trigger] r@[j]@ == tags@[j]@,
        decreases tags@.len() - i,
    {
        r.push(tags[i].to_string());
        i = i + 1;
    }
    r
}

impl AmpPreset {
    /// A guitar preset; each level is held to its range.
    pub fn new(name: &str, description: &str, tags: Vec<&str>, gain: u32, master: u32, bass: u32, mid: u32, treble: u32, drive: u32) -> (p: Self)
        ensures
            p.name@ == name@,
            p.description@ == description@,
            p.tags@.len() == tags@.len(),
            forall|i: int| 0 <= i < tags@.len() ==> #[trigger] p.tags@[i]@ == tags@[i]@,
            tag_texts(p.tags@) == strs(tags@),
            p.gain == unit_level(gain),
            p.master == unit_level(master),
            p.bass == unit_level(bass),
            p.mid == unit_level(mid),
            p.treble == unit_level(treble),
            p.drive == unit_level(drive),
            p.bass_mode == 0,
    {
        let ghost given = tags@;
        let owned = owned_tags(tags);
        assert(tag_texts(owned@) =~= strs(given));
        AmpPreset {
            name: name.to_string(),
            description: description.to_string(),
            tags: owned,
            gain: clamp_level(gain),
            master: clamp_level(master),
            bass: clamp_level(bass),
            mid: clamp_level(mid),
            treble: clamp_level(treble),
            drive: clamp_level(drive),
            bass_mode: 0,
        }
    }

    /// A bass preset: as `new`, with the bass EQ.
    pub fn new_bass(name: &str, description: &str, tags: Vec<&str>, gain: u32, master: u32, bass: u32, mid: u32, treble: u32, drive: u32) -> (p: Self)
        ensures
            p.name@ == name@,
            p.description@ == description@,
            p.tags@.len() == tags@.len(),
            forall|i: int| 0 <= i < tags@.len() ==> #[trigger] p.tags@[i]@ == tags@[i]@,
            tag_texts(p.tags@) == strs(tags@),
            p.gain == unit_level(gain),
            p.master == unit_level(master),
            p.bass == unit_level(bass),
            p.mid == unit_level(mid),
            p.treble == unit_level(treble),
            p.drive == unit_level(drive),
            p.bass_mode == FULL_LEVEL,
    {
        let mut p = Self::new(name, description, tags, gain, master, bass, mid, treble, drive);
        p.bass_mode = FULL_LEVEL;
        p
    }

    /// Whether the preset calls for the bass EQ: a bass mode above half its
    /// range.
    pub fn is_bass(&self) -> (b: bool)
        ensures
            b == (self.bass_mode > FULL_LEVEL / 2),
    {
        self.bass_mode > FULL_LEVEL / 2
    }

    /// The preset's parameters by name, for the amp slot.
    pub fn to_parameter_map(&self) -> (m: Vec<(String, u32)>)
        ensures
            params_view(m@) == preset_params(*self),
    {
        let m = vec![
            ("gain".to_string(), self.gain),
            ("master".to_string(), self.master),
            ("bass".to_string(), self.bass),
            ("mid".to_string(), self.mid),
            ("treble".to_string(), self.treble),
            ("drive".to_string(), self.drive),
            ("bass_mode".to_string(), self.bass_mode),
        ];
        assert(params_view(m@) =~= preset_params(*self));
        m
    }
}

/// The first preset named `name`, if any.
pub fn find_amp_preset(presets: &Vec<AmpPreset>, name: &str) -> (r: Option<usize>)
    ensures
        match r {
            Some(i) => {
                &&& i < presets@.len()
                &&& presets@[i as int].name@ == name@
                &&& forall|j: int| 0 <= j < i ==> #[trigger] presets@[j].name@ != name@
            },
            None => forall|j: int| 0 <= j < presets@.len() ==> #[trigger] presets@[j].name@ != name@,
        },
{
    let target = name.to_string();
    let mut i: usize = 0;
    while i < presets.len()
        invariant
            i <= presets@.len(),
            target@ == name@,
            forall|j: int| 0 <= j < i ==> #[trigger] presets@[j].name@ != name@,
        decreases presets@.len() - i,
    {
        if presets[i].name == target {
            return Some(i);
        }
        i = i + 1;
    }
    None
}

/// The rows of `clean_presets`.
pub open spec fn clean_table() -> Seq<PresetRow> {
    seq![
        row("American Clean"@, "Crisp & sparkling Fender-style clean. Bright highs, punchy lows, bell-like clarity."@, seq!["clean", "fender", "american", "versatile", "bright"], 15, 80, 60, 50, 60, 10, 0),
        row("Twin Clean"@, "Fender Twin Reverb. Massive headroom, glassy top-end, scooped mids."@, seq!["clean", "fender", "twin", "headroom", "glassy"], 10, 85, 50, 35, 55, 5, 0),
        row("Deluxe Clean"@, "Fender Deluxe Reverb. Sweet compression, warm lows, chimey highs."@, seq!["clean", "fender", "deluxe", "sweet", "touch-sensitive"], 22, 65, 50, 55, 50, 8, 0),
        row("Princeton Clean"@, "Fender Princeton. Small-voice charm, round warm tone, vocal presence."@, seq!["clean", "fender", "princeton", "vintage", "warm"], 18, 60, 55, 60, 45, 6, 0),
        row("Vibrolux Clean"@, "Fender Vibrolux. Scooped mids, lush low-end, shimmering top."@, seq!["clean", "fender", "vibrolux", "shimmer", "scooped"], 12, 70, 60, 30, 65, 5, 0),
        row("Showman Clean"@, "Fender Showman. Maximum clean headroom, surf-ready, gigantic."@, seq!["clean", "fender", "showman", "surf", "headroom"], 8, 90, 55, 45, 55, 3, 0),
        row("Bassman Clean"@, "Fender Bassman tweed. Fat low-end, woody midrange. Rock's foundation."@, seq!["clean", "fender", "bassman", "tweed", "fat"], 25, 65, 60, 55, 45, 12, 0),
        row("Jazz Clean"@, "Warm, round, and mellow. Rolled-off treble, smooth vocal midrange."@, seq!["clean", "jazz", "warm", "smooth", "round"], 20, 70, 70, 70, 30, 5, 0),
        row("Boutique Clean"@, "Dumble-inspired. Complex midrange, blooming harmonics, dynamic."@, seq!["clean", "boutique", "dumble", "dynamic", "complex"], 25, 75, 55, 65, 50, 15, 0),
        row("SSS Clean"@, "Dumble Steel String Singer. Crystal clear, massive dynamic range."@, seq!["clean", "boutique", "dumble", "sss", "crystal"], 10, 80, 55, 55, 55, 5, 0),
        row("Two Rock Clean"@, "Two Rock TS-1. Crystal boutique clean with rich overtones and 3D presence."@, seq!["clean", "boutique", "two-rock", "modern", "premium"], 15, 75, 50, 60, 60, 8, 0),
        row("AC15 Clean"@, "Vox AC15. Chimey, jangly British bite. Less headroom than the 30."@, seq!["clean", "vox", "ac15", "british", "chime"], 25, 60, 40, 55, 70, 15, 0),
        row("AC30 Chime"@, "Vox AC30 top-boost chime. Jangly highs, cutting mids. British Invasion."@, seq!["clean", "vox", "ac30", "british", "jangle"], 20, 70, 40, 60, 70, 10, 0),
        row("AC30TB Bright"@, "Vox AC30 top-boost dimed. Extra-brilliant, percussive, edge of breakup."@, seq!["clean", "vox", "ac30", "top-boost", "bright"], 30, 65, 35, 55, 80, 20, 0),
        row("Roland JC Clean"@, "Roland Jazz Chorus. Glassy, pristine, almost sterile purity."@, seq!["clean", "roland", "jc-120", "glass", "pristine"], 10, 80, 50, 45, 60, 3, 0),
        row("Matchless Clean"@, "Matchless DC-30. Vox meets Hiwatt — chimey, punchy, authoritative lows."@, seq!["clean", "matchless", "boutique", "british", "punchy"], 20, 70, 55, 55, 60, 12, 0),
        row("BadCat Clean"@, "Bad Cat Hot Cat. Vox-inspired boutique with tighter lows, aggressive chime."@, seq!["clean", "badcat", "boutique", "vox-style"], 20, 65, 50, 55, 65, 15, 0),
        row("Dr Z Clean"@, "Dr. Z MAZ 18. Class-A boutique with chime, punch, and rich harmonics."@, seq!["clean", "dr-z", "boutique", "class-a", "harmonic"], 20, 65, 50, 60, 55, 12, 0),
        row("Lonestar Clean"@, "Mesa Lonestar. Fender-style clean with Mesa's signature low-end girth."@, seq!["clean", "mesa", "lonestar", "american", "big"], 15, 70, 60, 50, 50, 8, 0),
        row("Mesa Mark Clean"@, "Mesa Mark IIC+ clean. Warm, slightly compressed, unique mid-voicing."@, seq!["clean", "mesa", "mark-iic", "american", "warm"], 20, 65, 55, 60, 50, 10, 0),
        row("5150 Clean"@, "EVH 5150 clean. Round, full, with a surprising edge. Not your typical high-gain clean."@, seq!["clean", "evh", "5150", "modern", "full"], 25, 65, 60, 55, 55, 15, 0),
        row("Milkman Clean"@, "Milkman Creamer. Modern boutique with vintage soul. Sweet, detailed, addictive."@, seq!["clean", "milkman", "boutique", "modern-vintage"], 18, 70, 50, 60, 55, 8, 0),
    ]
}

/// Clean tones.
fn clean_presets() -> (v: Vec<AmpPreset>)
    ensures
        v@.len() == 22,
        preset_rows(v@) == clean_table(),
        forall|i: int| 0 <= i < v@.len() ==> #[trigger] is_guitar_preset(v@[i]),
{
    let v = vec![
        AmpPreset::new("American Clean", "Crisp & sparkling Fender-style clean. Bright highs, punchy lows, bell-like clarity.", vec!["clean", "fender", "american", "versatile", "bright"], 15, 80, 60, 50, 60, 10),
        AmpPreset::new("Twin Clean", "Fender Twin Reverb. Massive headroom, glassy top-end, scooped mids.", vec!["clean", "fender", "twin", "headroom", "glassy"], 10, 85, 50, 35, 55, 5),
        AmpPreset::new("Deluxe Clean", "Fender Deluxe Reverb. Sweet compression, warm lows, chimey highs.", vec!["clean", "fender", "deluxe", "sweet", "touch-sensitive"], 22, 65, 50, 55, 50, 8),
        AmpPreset::new("Princeton Clean", "Fender Princeton. Small-voice charm, round warm tone, vocal presence.", vec!["clean", "fender", "princeton", "vintage", "warm"], 18, 60, 55, 60, 45, 6),
        AmpPreset::new("Vibrolux Clean", "Fender Vibrolux. Scooped mids, lush low-end, shimmering top.", vec!["clean", "fender", "vibrolux", "shimmer", "scooped"], 12, 70, 60, 30, 65, 5),
        AmpPreset::new("Showman Clean", "Fender Showman. Maximum clean headroom, surf-ready, gigantic.", vec!["clean", "fender", "showman", "surf", "headroom"], 8, 90, 55, 45, 55, 3),
        AmpPreset::new("Bassman Clean", "Fender Bassman tweed. Fat low-end, woody midrange. Rock's foundation.", vec!["clean", "fender", "bassman", "tweed", "fat"], 25, 65, 60, 55, 45, 12),
        AmpPreset::new("Jazz Clean", "Warm, round, and mellow. Rolled-off treble, smooth vocal midrange.", vec!["clean", "jazz", "warm", "smooth", "round"], 20, 70, 70, 70, 30, 5),
        AmpPreset::new("Boutique Clean", "Dumble-inspired. Complex midrange, blooming harmonics, dynamic.", vec!["clean", "boutique", "dumble", "dynamic", "complex"], 25, 75, 55, 65, 50, 15),
        AmpPreset::new("SSS Clean", "Dumble Steel String Singer. Crystal clear, massive dynamic range.", vec!["clean", "boutique", "dumble", "sss", "crystal"], 10, 80, 55, 55, 55, 5),
        AmpPreset::new("Two Rock Clean", "Two Rock TS-1. Crystal boutique clean with rich overtones and 3D presence.", vec!["clean", "boutique", "two-rock", "modern", "premium"], 15, 75, 50, 60, 60, 8),
        AmpPreset::new("AC15 Clean", "Vox AC15. Chimey, jangly British bite. Less headroom than the 30.", vec!["clean", "vox", "ac15", "british", "chime"], 25, 60, 40, 55, 70, 15),
        AmpPreset::new("AC30 Chime", "Vox AC30 top-boost chime. Jangly highs, cutting mids. British Invasion.", vec!["clean", "vox", "ac30", "british", "jangle"], 20, 70, 40, 60, 70, 10),
        AmpPreset::new("AC30TB Bright", "Vox AC30 top-boost dimed. Extra-brilliant, percussive, edge of breakup.", vec!["clean", "vox", "ac30", "top-boost", "bright"], 30, 65, 35, 55, 80, 20),
        AmpPreset::new("Roland JC Clean", "Roland Jazz Chorus. Glassy, pristine, almost sterile purity.", vec!["clean", "roland", "jc-120", "glass", "pristine"], 10, 80, 50, 45, 60, 3),
        AmpPreset::new("Matchless Clean", "Matchless DC-30. Vox meets Hiwatt — chimey, punchy, authoritative lows.", vec!["clean", "matchless", "boutique", "british", "punchy"], 20, 70, 55, 55, 60, 12),
        AmpPreset::new("BadCat Clean", "Bad Cat Hot Cat. Vox-inspired boutique with tighter lows, aggressive chime.", vec!["clean", "badcat", "boutique", "vox-style"], 20, 65, 50, 55, 65, 15),
        AmpPreset::new("Dr Z Clean", "Dr. Z MAZ 18. Class-A boutique with chime, punch, and rich harmonics.", vec!["clean", "dr-z", "boutique", "class-a", "harmonic"], 20, 65, 50, 60, 55, 12),
        AmpPreset::new("Lonestar Clean", "Mesa Lonestar. Fender-style clean with Mesa's signature low-end girth.", vec!["clean", "mesa", "lonestar", "american", "big"], 15, 70, 60, 50, 50, 8),
        AmpPreset::new("Mesa Mark Clean", "Mesa Mark IIC+ clean. Warm, slightly compressed, unique mid-voicing.", vec!["clean", "mesa", "mark-iic", "american", "warm"], 20, 65, 55, 60, 50, 10),
        AmpPreset::new("5150 Clean", "EVH 5150 clean. Round, full, with a surprising edge. Not your typical high-gain clean.", vec!["clean", "evh", "5150", "modern", "full"], 25, 65, 60, 55, 55, 15),
        AmpPreset::new("Milkman Clean", "Milkman Creamer. Modern boutique with vintage soul. Sweet, detailed, addictive.", vec!["clean", "milkman", "boutique", "modern-vintage"], 18, 70, 50, 60, 55, 8),
    ];
    assert(preset_rows(v@) =~= clean_table());
    v
}

/// The rows of `crunch_presets`.
pub open spec fn crunch_table() -> Seq<PresetRow> {
    seq![
        row("British Crunch"@, "Marshall Plexi into natural breakup. The classic rock crunch that defined a generation."@, seq!["crunch", "marshall", "plexi", "british", "classic-rock"], 55, 60, 60, 50, 55, 50, 0),
        row("Plexi 1959"@, "Marshall Super Lead 100W. Open, punchy, harmonically rich when pushed."@, seq!["crunch", "marshall", "plexi", "super-lead", "vintage"], 55, 55, 55, 50, 55, 55, 0),
        row("Plexi 1987"@, "Marshall Super Bass 100W. Tighter low-end than the 1959, punk-rock favorite."@, seq!["crunch", "marshall", "plexi", "super-bass", "tight"], 55, 55, 60, 50, 55, 50, 0),
        row("JTM45 Crunch"@, "Marshall JTM45. Bluesier, more organic than the Plexi. Early Keith Richards."@, seq!["crunch", "marshall", "jtm45", "bluesy", "vintage"], 50, 60, 55, 55, 50, 45, 0),
        row("Blues Breakup"@, "Pushed just past the edge. Touch-sensitive, dynamic, responsive. Blues nirvana."@, seq!["crunch", "blues", "edge-of-breakup", "touch-sensitive", "dynamic"], 40, 65, 55, 60, 50, 35, 0),
        row("Texas Blues"@, "SRV-style hot blues. Big lows, punchy mids, singing highs."@, seq!["crunch", "blues", "texas", "srv", "hot"], 50, 60, 50, 70, 60, 45, 0),
        row("AC30 Crunch"@, "Vox AC30 pushed into snarling breakup. Chime turns to harmonic-rich bite."@, seq!["crunch", "vox", "ac30", "british", "snarl"], 50, 55, 40, 55, 65, 50, 0),
        row("AC15 Crunch"@, "Smaller Vox pushed harder. More aggressive breakup with that same jangle."@, seq!["crunch", "vox", "ac15", "british", "aggressive"], 55, 50, 40, 55, 65, 55, 0),
        row("800 Crunch"@, "JCM800 rhythm crunch. Tight, aggressive, percussive. 80s hard rock backbone."@, seq!["crunch", "marshall", "jcm800", "hard-rock", "rhythm"], 50, 55, 55, 45, 60, 55, 0),
        row("Plexi Drive"@, "Marshall Super Lead cranked. Raw, punchy, barely contained."@, seq!["crunch", "marshall", "plexi", "cranked", "wild"], 60, 50, 55, 50, 60, 60, 0),
        row("Bassman Pushed"@, "Fender Bassman tweed at 7. Big, fat, barking breakup. Early rock and roll."@, seq!["crunch", "fender", "bassman", "tweed", "bark"], 50, 55, 60, 55, 50, 45, 0),
        row("Tweed Deluxe"@, "Fender Deluxe tweed full tilt. Compressed, warm, singing breakup."@, seq!["crunch", "fender", "tweed", "deluxe", "singing"], 55, 50, 50, 60, 45, 55, 0),
        row("Orange Crunch"@, "Orange AD30 pushed. Thick, mid-forward crunch with distinctive British bark."@, seq!["crunch", "orange", "ad30", "british", "thick"], 50, 55, 55, 60, 50, 55, 0),
        row("Trainwreck Express"@, "Trainwreck at breakup. Legendary touch sensitivity. Clean to mean with pick attack."@, seq!["crunch", "trainwreck", "boutique", "dynamic"], 50, 55, 50, 65, 55, 50, 0),
        row("Dumble ODS Crunch"@, "Dumble Overdrive Special on edge. Smooth, complex, vocal. The Holy Grail of breakup."@, seq!["crunch", "boutique", "dumble", "ods", "holy-grail"], 50, 60, 55, 70, 50, 50, 0),
        row("Hiwatt Crunch"@, "Hiwatt DR-103 pushed. High headroom, then punchy articulate crunch when dimed."@, seq!["crunch", "hiwatt", "british", "articulate", "high-headroom"], 55, 55, 55, 45, 60, 50, 0),
    ]
}

/// Crunch tones at the edge of breakup.
fn crunch_presets() -> (v: Vec<AmpPreset>)
    ensures
        v@.len() == 16,
        preset_rows(v@) == crunch_table(),
        forall|i: int| 0 <= i < v@.len() ==> #[trigger] is_guitar_preset(v@[i]),
{
    let v = vec![
        AmpPreset::new("British Crunch", "Marshall Plexi into natural breakup. The classic rock crunch that defined a generation.", vec!["crunch", "marshall", "plexi", "british", "classic-rock"], 55, 60, 60, 50, 55, 50),
        AmpPreset::new("Plexi 1959", "Marshall Super Lead 100W. Open, punchy, harmonically rich when pushed.", vec!["crunch", "marshall", "plexi", "super-lead", "vintage"], 55, 55, 55, 50, 55, 55),
        AmpPreset::new("Plexi 1987", "Marshall Super Bass 100W. Tighter low-end than the 1959, punk-rock favorite.", vec!["crunch", "marshall", "plexi", "super-bass", "tight"], 55, 55, 60, 50, 55, 50),
        AmpPreset::new("JTM45 Crunch", "Marshall JTM45. Bluesier, more organic than the Plexi. Early Keith Richards.", vec!["crunch", "marshall", "jtm45", "bluesy", "vintage"], 50, 60, 55, 55, 50, 45),
        AmpPreset::new("Blues Breakup", "Pushed just past the edge. Touch-sensitive, dynamic, responsive. Blues nirvana.", vec!["crunch", "blues", "edge-of-breakup", "touch-sensitive", "dynamic"], 40, 65, 55, 60, 50, 35),
        AmpPreset::new("Texas Blues", "SRV-style hot blues. Big lows, punchy mids, singing highs.", vec!["crunch", "blues", "texas", "srv", "hot"], 50, 60, 50, 70, 60, 45),
        AmpPreset::new("AC30 Crunch", "Vox AC30 pushed into snarling breakup. Chime turns to harmonic-rich bite.", vec!["crunch", "vox", "ac30", "british", "snarl"], 50, 55, 40, 55, 65, 50),
        AmpPreset::new("AC15 Crunch", "Smaller Vox pushed harder. More aggressive breakup with that same jangle.", vec!["crunch", "vox", "ac15", "british", "aggressive"], 55, 50, 40, 55, 65, 55),
        AmpPreset::new("800 Crunch", "JCM800 rhythm crunch. Tight, aggressive, percussive. 80s hard rock backbone.", vec!["crunch", "marshall", "jcm800", "hard-rock", "rhythm"], 50, 55, 55, 45, 60, 55),
        AmpPreset::new("Plexi Drive", "Marshall Super Lead cranked. Raw, punchy, barely contained.", vec!["crunch", "marshall", "plexi", "cranked", "wild"], 60, 50, 55, 50, 60, 60),
        AmpPreset::new("Bassman Pushed", "Fender Bassman tweed at 7. Big, fat, barking breakup. Early rock and roll.", vec!["crunch", "fender", "bassman", "tweed", "bark"], 50, 55, 60, 55, 50, 45),
        AmpPreset::new("Tweed Deluxe", "Fender Deluxe tweed full tilt. Compressed, warm, singing breakup.", vec!["crunch", "fender", "tweed", "deluxe", "singing"], 55, 50, 50, 60, 45, 55),
        AmpPreset::new("Orange Crunch", "Orange AD30 pushed. Thick, mid-forward crunch with distinctive British bark.", vec!["crunch", "orange", "ad30", "british", "thick"], 50, 55, 55, 60, 50, 55),
        AmpPreset::new("Trainwreck Express", "Trainwreck at breakup. Legendary touch sensitivity. Clean to mean with pick attack.", vec!["crunch", "trainwreck", "boutique", "dynamic"], 50, 55, 50, 65, 55, 50),
        AmpPreset::new("Dumble ODS Crunch", "Dumble Overdrive Special on edge. Smooth, complex, vocal. The Holy Grail of breakup.", vec!["crunch", "boutique", "dumble", "ods", "holy-grail"], 50, 60, 55, 70, 50, 50),
        AmpPreset::new("Hiwatt Crunch", "Hiwatt DR-103 pushed. High headroom, then punchy articulate crunch when dimed.", vec!["crunch", "hiwatt", "british", "articulate", "high-headroom"], 55, 55, 55, 45, 60, 50),
    ];
    assert(preset_rows(v@) =~= crunch_table());
    v
}

/// The rows of `classic_rock_presets`.
pub open spec fn classic_rock_table() -> Seq<PresetRow> {
    seq![
        row("Whole Lotta"@, "Jimmy Page's Plexi. Vocal mids, slightly overdriven, that famous percussive attack."@, seq!["classic-rock", "led-zeppelin", "page", "marshall", "plexi"], 55, 55, 55, 60, 55, 55, 0),
        row("AC/DC Crunch"@, "Angus Young's cranked Plexi. Raw, mid-forward, no low-end flab. Pure rock."@, seq!["classic-rock", "acdc", "angus", "marshall"], 60, 55, 40, 65, 60, 60, 0),
        row("Aerosmith Lead"@, "Joe Perry's hot-rodded Marshall. Smooth singing lead with just enough hair."@, seq!["classic-rock", "aerosmith", "perry", "lead"], 60, 55, 50, 55, 55, 60, 0),
        row("ZZ Top Crunch"@, "Billy Gibbons' Pearly Gates. Fat, mid-pushed, with a touch of grind."@, seq!["classic-rock", "zz-top", "gibbons", "fat"], 50, 55, 60, 65, 50, 50, 0),
        row("Brown Sugar"@, "Keith Richards' JTM45 pushed. Open, airy, mid-rich. The riff master."@, seq!["classic-rock", "rolling-stones", "richards", "jtm45"], 50, 60, 55, 60, 50, 45, 0),
        row("Won't Get Fooled"@, "Pete Townshend's Hiwatt stack. Punchy, articulate windmill power chord crunch."@, seq!["classic-rock", "the-who", "townshend", "hiwatt", "power-chords"], 55, 60, 55, 50, 60, 50, 0),
        row("You Really Got Me"@, "Dave Davies' cranked ElPico. The original distorted rock tone. Razor-edged."@, seq!["classic-rock", "kinks", "davies", "vintage-distortion"], 60, 50, 40, 55, 65, 65, 0),
        row("Proud Mary"@, "John Fogerty's Bassman clean-to-crunch. Swampy, mid-forward, unmistakable."@, seq!["classic-rock", "creedence", "fogerty", "bassman"], 45, 60, 55, 60, 50, 40, 0),
        row("American Girl"@, "Tom Petty's Vox AC30 chime. Jangling, bright, relentlessly optimistic."@, seq!["classic-rock", "tom-petty", "vox", "jangle"], 35, 65, 40, 55, 70, 30, 0),
        row("Ace of Spades"@, "Lemmy's Marshall full-stack grind. Mid-heavy, aggressive, zero bass flab."@, seq!["classic-rock", "motorhead", "lemmy", "marshall", "aggressive"], 60, 55, 35, 70, 55, 65, 0),
        row("Highway Star"@, "Ritchie Blackmore's Marshall lead. Cutting, aggressive, classically-tinged."@, seq!["classic-rock", "deep-purple", "blackmore", "lead"], 55, 55, 50, 55, 60, 60, 0),
        row("Rebel Rebel"@, "David Bowie's Mick Ronson tone. Marshally, crystalline, larger than life."@, seq!["classic-rock", "bowie", "ronson", "glam-rock"], 50, 60, 50, 50, 65, 45, 0),
        row("Free Bird"@, "Gary Rossington's Plexi lead. Singing, sustained, deeply Southern rock."@, seq!["classic-rock", "lynyrd-skynyrd", "rossington", "southern-rock"], 55, 55, 55, 60, 55, 55, 0),
        row("Heartbreaker"@, "Page's Plexi on the verge of chaos. Aggressive, biting, about-to-explode sound."@, seq!["classic-rock", "led-zeppelin", "page", "aggressive"], 60, 50, 50, 55, 60, 65, 0),
    ]
}

/// Classic rock tones.
fn classic_rock_presets() -> (v: Vec<AmpPreset>)
    ensures
        v@.len() == 14,
        preset_rows(v@) == classic_rock_table(),
        forall|i: int| 0 <= i < v@.len() ==> #[trigger] is_guitar_preset(v@[i]),
{
    let v = vec![
        AmpPreset::new("Whole Lotta", "Jimmy Page's Plexi. Vocal mids, slightly overdriven, that famous percussive attack.", vec!["classic-rock", "led-zeppelin", "page", "marshall", "plexi"], 55, 55, 55, 60, 55, 55),
        AmpPreset::new("AC/DC Crunch", "Angus Young's cranked Plexi. Raw, mid-forward, no low-end flab. Pure rock.", vec!["classic-rock", "acdc", "angus", "marshall"], 60, 55, 40, 65, 60, 60),
        AmpPreset::new("Aerosmith Lead", "Joe Perry's hot-rodded Marshall. Smooth singing lead with just enough hair.", vec!["classic-rock", "aerosmith", "perry", "lead"], 60, 55, 50, 55, 55, 60),
        AmpPreset::new("ZZ Top Crunch", "Billy Gibbons' Pearly Gates. Fat, mid-pushed, with a touch of grind.", vec!["classic-rock", "zz-top", "gibbons", "fat"], 50, 55, 60, 65, 50, 50),
        AmpPreset::new("Brown Sugar", "Keith Richards' JTM45 pushed. Open, airy, mid-rich. The riff master.", vec!["classic-rock", "rolling-stones", "richards", "jtm45"], 50, 60, 55, 60, 50, 45),
        AmpPreset::new("Won't Get Fooled", "Pete Townshend's Hiwatt stack. Punchy, articulate windmill power chord crunch.", vec!["classic-rock", "the-who", "townshend", "hiwatt", "power-chords"], 55, 60, 55, 50, 60, 50),
        AmpPreset::new("You Really Got Me", "Dave Davies' cranked ElPico. The original distorted rock tone. Razor-edged.", vec!["classic-rock", "kinks", "davies", "vintage-distortion"], 60, 50, 40, 55, 65, 65),
        AmpPreset::new("Proud Mary", "John Fogerty's Bassman clean-to-crunch. Swampy, mid-forward, unmistakable.", vec!["classic-rock", "creedence", "fogerty", "bassman"], 45, 60, 55, 60, 50, 40),
        AmpPreset::new("American Girl", "Tom Petty's Vox AC30 chime. Jangling, bright, relentlessly optimistic.", vec!["classic-rock", "tom-petty", "vox", "jangle"], 35, 65, 40, 55, 70, 30),
        AmpPreset::new("Ace of Spades", "Lemmy's Marshall full-stack grind. Mid-heavy, aggressive, zero bass flab.", vec!["classic-rock", "motorhead", "lemmy", "marshall", "aggressive"], 60, 55, 35, 70, 55, 65),
        AmpPreset::new("Highway Star", "Ritchie Blackmore's Marshall lead. Cutting, aggressive, classically-tinged.", vec!["classic-rock", "deep-purple", "blackmore", "lead"], 55, 55, 50, 55, 60, 60),
        AmpPreset::new("Rebel Rebel", "David Bowie's Mick Ronson tone. Marshally, crystalline, larger than life.", vec!["classic-rock", "bowie", "ronson", "glam-rock"], 50, 60, 50, 50, 65, 45),
        AmpPreset::new("Free Bird", "Gary Rossington's Plexi lead. Singing, sustained, deeply Southern rock.", vec!["classic-rock", "lynyrd-skynyrd", "rossington", "southern-rock"], 55, 55, 55, 60, 55, 55),
        AmpPreset::new("Heartbreaker", "Page's Plexi on the verge of chaos. Aggressive, biting, about-to-explode sound.", vec!["classic-rock", "led-zeppelin", "page", "aggressive"], 60, 50, 50, 55, 60, 65),
    ];
    assert(preset_rows(v@) =~= classic_rock_table());
    v
}

/// The rows of `blues_presets`.
pub open spec fn blues_table() -> Seq<PresetRow> {
    seq![
        row("Texas Flood"@, "SRV's cranked Vibroverb. Massive, glassy, touch-sensitive. The sound of Texas."@, seq!["blues", "srv", "texas-flood", "fender", "vibroverb"], 50, 60, 55, 65, 60, 45, 0),
        row("BB King"@, "BB's Gibson Lab Series. Smooth, vocal, warm mids. Never harsh, always singing."@, seq!["blues", "bb-king", "smooth", "vocal", "warm"], 30, 70, 60, 70, 40, 20, 0),
        row("Bluesbreaker"@, "Clapton's Marshall Bluesbreaker combo. The Beano album tone — pure, organic, legendary."@, seq!["blues", "clapton", "bluesbreaker", "marshall", "john-mayall"], 45, 60, 55, 55, 55, 40, 0),
        row("Woman Tone"@, "Clapton's Cream-era SG into cranked Marshall. Fat, sustaining, deeply vocal."@, seq!["blues", "clapton", "woman-tone", "cream", "fat"], 55, 55, 60, 60, 50, 55, 0),
        row("Buddy Guy"@, "Buddy's cranked Fender. Pure Chicago blues — aggressive, raw, crying."@, seq!["blues", "buddy-guy", "chicago", "fender", "raw"], 55, 55, 50, 60, 55, 55, 0),
        row("Albert King"@, "Albert's Flying V into cranked solid state. Piercing, string-bending sustain."@, seq!["blues", "albert-king", "flying-v", "bending"], 55, 55, 40, 50, 70, 60, 0),
        row("Albert Collins"@, "Master of the Telecaster. Ice-pick treble, biting attack, deeply funky."@, seq!["blues", "albert-collins", "telecaster", "ice-pick"], 40, 65, 30, 55, 80, 35, 0),
        row("Peter Green"@, "Greeny's out-of-phase Les Paul into cranked Marshall. Warm, crying, supernatural."@, seq!["blues", "peter-green", "fleetwood-mac", "les-paul"], 50, 55, 55, 60, 55, 50, 0),
        row("Muddy Waters"@, "Muddy's small Fender. Delta grit through Chicago amp. Raw, authoritative."@, seq!["blues", "muddy-waters", "chicago", "delta"], 50, 55, 55, 60, 50, 50, 0),
        row("Howlin' Wolf"@, "Hubert Sumlin's dark tone. Grindy, unpredictable. Blues' dangerous edge."@, seq!["blues", "howlin-wolf", "sumlin", "dark"], 55, 50, 65, 55, 45, 60, 0),
        row("Gary Moore Blues"@, "Gary's cranked Marshall lead. Thick, singing, deeply emotional."@, seq!["blues", "gary-moore", "marshall", "lead", "emotional"], 60, 55, 55, 55, 55, 60, 0),
        row("Robben Ford"@, "Robben's Dumble ODS. Smooth, complex, jazz-blues perfection. Touch-sensitive."@, seq!["blues", "robben-ford", "dumble", "smooth", "jazz-blues"], 45, 60, 55, 70, 50, 40, 0),
        row("Larry Carlton"@, "Larry's Dumble 335 tone. Warm, vocal, bell-like. Jazz-blues royalty."@, seq!["blues", "larry-carlton", "dumble", "335", "vocal"], 40, 65, 55, 65, 55, 35, 0),
        row("John Lee Hooker"@, "One-chord voodoo. Dark, grinding, primitive. Amps shouldn't sound this good."@, seq!["blues", "john-lee-hooker", "primitive", "dark"], 55, 55, 65, 50, 35, 60, 0),
        row("T-Bone Walker"@, "The pioneer. Sharp, cutting, single-note perfection. Jazz-influenced blues."@, seq!["blues", "t-bone-walker", "vintage", "cutting"], 35, 65, 45, 55, 65, 30, 0),
        row("Freddie King"@, "Freddie's brown-faced Fender. Thick, punchy, with vocal midrange."@, seq!["blues", "freddie-king", "fender", "punchy"], 50, 55, 55, 60, 55, 50, 0),
        row("Otis Rush"@, "West Side Chicago. Upside-down guitar, inside-out soul. Mid-heavy, crying top."@, seq!["blues", "otis-rush", "chicago", "crying"], 50, 55, 50, 65, 55, 50, 0),
    ]
}

/// Blues tones.
fn blues_presets() -> (v: Vec<AmpPreset>)
    ensures
        v@.len() == 17,
        preset_rows(v@) == blues_table(),
        forall|i: int| 0 <= i < v@.len() ==> #[trigger] is_guitar_preset(v@[i]),
{
    let v = vec![
        AmpPreset::new("Texas Flood", "SRV's cranked Vibroverb. Massive, glassy, touch-sensitive. The sound of Texas.", vec!["blues", "srv", "texas-flood", "fender", "vibroverb"], 50, 60, 55, 65, 60, 45),
        AmpPreset::new("BB King", "BB's Gibson Lab Series. Smooth, vocal, warm mids. Never harsh, always singing.", vec!["blues", "bb-king", "smooth", "vocal", "warm"], 30, 70, 60, 70, 40, 20),
        AmpPreset::new("Bluesbreaker", "Clapton's Marshall Bluesbreaker combo. The Beano album tone — pure, organic, legendary.", vec!["blues", "clapton", "bluesbreaker", "marshall", "john-mayall"], 45, 60, 55, 55, 55, 40),
        AmpPreset::new("Woman Tone", "Clapton's Cream-era SG into cranked Marshall. Fat, sustaining, deeply vocal.", vec!["blues", "clapton", "woman-tone", "cream", "fat"], 55, 55, 60, 60, 50, 55),
        AmpPreset::new("Buddy Guy", "Buddy's cranked Fender. Pure Chicago blues — aggressive, raw, crying.", vec!["blues", "buddy-guy", "chicago", "fender", "raw"], 55, 55, 50, 60, 55, 55),
        AmpPreset::new("Albert King", "Albert's Flying V into cranked solid state. Piercing, string-bending sustain.", vec!["blues", "albert-king", "flying-v", "bending"], 55, 55, 40, 50, 70, 60),
        AmpPreset::new("Albert Collins", "Master of the Telecaster. Ice-pick treble, biting attack, deeply funky.", vec!["blues", "albert-collins", "telecaster", "ice-pick"], 40, 65, 30, 55, 80, 35),
        AmpPreset::new("Peter Green", "Greeny's out-of-phase Les Paul into cranked Marshall. Warm, crying, supernatural.", vec!["blues", "peter-green", "fleetwood-mac", "les-paul"], 50, 55, 55, 60, 55, 50),
        AmpPreset::new("Muddy Waters", "Muddy's small Fender. Delta grit through Chicago amp. Raw, authoritative.", vec!["blues", "muddy-waters", "chicago", "delta"], 50, 55, 55, 60, 50, 50),
        AmpPreset::new("Howlin' Wolf", "Hubert Sumlin's dark tone. Grindy, unpredictable. Blues' dangerous edge.", vec!["blues", "howlin-wolf", "sumlin", "dark"], 55, 50, 65, 55, 45, 60),
        AmpPreset::new("Gary Moore Blues", "Gary's cranked Marshall lead. Thick, singing, deeply emotional.", vec!["blues", "gary-moore", "marshall", "lead", "emotional"], 60, 55, 55, 55, 55, 60),
        AmpPreset::new("Robben Ford", "Robben's Dumble ODS. Smooth, complex, jazz-blues perfection. Touch-sensitive.", vec!["blues", "robben-ford", "dumble", "smooth", "jazz-blues"], 45, 60, 55, 70, 50, 40),
        AmpPreset::new("Larry Carlton", "Larry's Dumble 335 tone. Warm, vocal, bell-like. Jazz-blues royalty.", vec!["blues", "larry-carlton", "dumble", "335", "vocal"], 40, 65, 55, 65, 55, 35),
        AmpPreset::new("John Lee Hooker", "One-chord voodoo. Dark, grinding, primitive. Amps shouldn't sound this good.", vec!["blues", "john-lee-hooker", "primitive", "dark"], 55, 55, 65, 50, 35, 60),
        AmpPreset::new("T-Bone Walker", "The pioneer. Sharp, cutting, single-note perfection. Jazz-influenced blues.", vec!["blues", "t-bone-walker", "vintage", "cutting"], 35, 65, 45, 55, 65, 30),
        AmpPreset::new("Freddie King", "Freddie's brown-faced Fender. Thick, punchy, with vocal midrange.", vec!["blues", "freddie-king", "fender", "punchy"], 50, 55, 55, 60, 55, 50),
        AmpPreset::new("Otis Rush", "West Side Chicago. Upside-down guitar, inside-out soul. Mid-heavy, crying top.", vec!["blues", "otis-rush", "chicago", "crying"], 50, 55, 50, 65, 55, 50),
    ];
    assert(preset_rows(v@) =~= blues_table());
    v
}

/// The rows of `hard_rock_metal_presets`.
pub open spec fn hard_rock_metal_table() -> Seq<PresetRow> {
    seq![
        row("Brown Sound"@, "EVH's iconic tone. Moderate gain, scooped-yet-mid bark, percussive attack. Frankenstrat required."@, seq!["lead", "van-halen", "brown", "evh", "classic"], 60, 55, 60, 30, 70, 60, 0),
        row("EVH 1984"@, "Van Halen's 1984 album. Hotter, tighter, more saturated than the brown sound."@, seq!["lead", "van-halen", "1984", "evh", "hot"], 65, 55, 60, 25, 65, 65, 0),
        row("Hot Rod Lead"@, "Hot-rodded Marshall. More gain, more mids, more sustain. Quintessential hard rock lead."@, seq!["lead", "hot-rodded", "marshall", "sustain", "singing"], 70, 50, 50, 45, 60, 70, 0),
        row("800 Lead"@, "JCM800 boosted for lead. Tight low-end, cutting mids, iconic British bite."@, seq!["lead", "marshall", "jcm800", "boosted", "cutting"], 65, 50, 50, 40, 65, 65, 0),
        row("JCM900 Lead"@, "Marshall JCM900. Thicker, more saturated than the 800. That 90s rock crunch."@, seq!["lead", "marshall", "jcm900", "90s", "thick"], 70, 50, 55, 40, 55, 70, 0),
        row("JVM Lead"@, "Marshall JVM. Modern Marshall high-gain. Versatile, tight, aggressive."@, seq!["lead", "marshall", "jvm", "modern", "high-gain"], 75, 45, 55, 35, 55, 75, 0),
        row("Modern Metal"@, "5150-inspired. Tight, aggressive. The modern metal standard. Chug machine."@, seq!["high-gain", "metal", "5150", "modern", "chug"], 85, 40, 65, 20, 55, 85, 0),
        row("EVH 5150"@, "EVH 5150-III. Tighter low-end, aggressive mid-voice, legendary evolution."@, seq!["high-gain", "evh", "5150", "tight", "legendary"], 85, 40, 60, 25, 55, 85, 0),
        row("5150 Red"@, "EVH 5150-III red channel. Saturated, singing, tight. Modern high-gain benchmark."@, seq!["high-gain", "evh", "5150", "red-channel", "saturated"], 90, 35, 60, 20, 55, 90, 0),
        row("Rectifier Modern"@, "Mesa Dual Rectifier modern. Wall of gain, massive lows, scooped mids."@, seq!["high-gain", "mesa", "rectifier", "modern", "massive"], 80, 45, 65, 15, 55, 80, 0),
        row("Rectifier Vintage"@, "Rectifier on vintage. Looser, creamier gain with more mid presence."@, seq!["high-gain", "mesa", "rectifier", "vintage", "creamy"], 75, 45, 60, 25, 55, 75, 0),
        row("Rectifier Raw"@, "Rectifier raw mode. Unfiltered, aggressive, less compressed. Punishing."@, seq!["high-gain", "mesa", "rectifier", "raw", "aggressive"], 80, 40, 65, 20, 60, 85, 0),
        row("Triple Recto"@, "Mesa Triple Rectifier. Even more lows, even more gain. When the Dual isn't enough."@, seq!["high-gain", "mesa", "triple-rectifier", "brutal"], 85, 40, 70, 15, 50, 85, 0),
        row("Mark IIC+"@, "Mesa Mark IIC+. The grail. Tight, focused, signature mid-voice. Thrash perfected."@, seq!["high-gain", "mesa", "mark-iic", "thrash", "tight"], 80, 40, 55, 30, 55, 80, 0),
        row("Mark III"@, "Mesa Mark III. Raunchier than the IIC+ with more low-end punch. Hetfield's early sound."@, seq!["high-gain", "mesa", "mark-iii", "punchy"], 80, 40, 60, 25, 55, 80, 0),
        row("Mark IV"@, "Mesa Mark IV. Versatile high-gain with Mark-series mid-range. Studio legend."@, seq!["high-gain", "mesa", "mark-iv", "versatile"], 80, 40, 55, 30, 55, 80, 0),
        row("Mark V"@, "Mesa Mark V. Modern evolution. 3 channels, every Mark tone in one box."@, seq!["high-gain", "mesa", "mark-v", "modern", "versatile"], 80, 40, 55, 25, 60, 80, 0),
        row("SLO-100"@, "Soldano SLO-100. The definitive high-gain lead. Smooth, saturated, singing."@, seq!["high-gain", "soldano", "slo-100", "lead", "smooth"], 80, 45, 55, 30, 55, 80, 0),
        row("Soldano Avenger"@, "Soldano Avenger. Tighter, more aggressive than the SLO. Modern grind."@, seq!["high-gain", "soldano", "avenger", "tight", "aggressive"], 80, 40, 55, 25, 60, 85, 0),
        row("Soldano Hot Rod"@, "Soldano Hot Rod 100. SLO-inspired with more flexibility. Signature sizzle."@, seq!["high-gain", "soldano", "hot-rod", "sizzle"], 80, 45, 55, 30, 60, 80, 0),
        row("ENGL Powerball"@, "ENGL Powerball. Tight German precision-gain. Sterile and brutal."@, seq!["high-gain", "engl", "powerball", "german", "precision"], 85, 40, 60, 20, 55, 85, 0),
        row("ENGL Savage"@, "ENGL Savage. Even tighter, more aggressive than the Powerball. Metal perfection."@, seq!["high-gain", "engl", "savage", "tight", "metal"], 90, 35, 60, 20, 55, 90, 0),
        row("ENGL Fireball"@, "ENGL Fireball. Punchy, aggressive, less low-end flub. Rhythm machine."@, seq!["high-gain", "engl", "fireball", "rhythm", "punchy"], 85, 40, 55, 25, 55, 85, 0),
        row("ENGL Blackmore"@, "ENGL Blackmore. Ritchie's signature. Tight, clear, classical articulation."@, seq!["high-gain", "engl", "blackmore", "articulate"], 80, 40, 55, 30, 60, 80, 0),
        row("Diezel VH4"@, "Diezel VH4. The sound of modern metal. Tight, huge, three-dimensional."@, seq!["high-gain", "diezel", "vh4", "modern", "huge"], 85, 40, 60, 25, 55, 85, 0),
        row("Diezel Herbert"@, "Diezel Herbert. Massive, crushing low-end with signature mid complexity."@, seq!["high-gain", "diezel", "herbert", "massive", "crushing"], 85, 40, 65, 20, 50, 85, 0),
        row("Diezel Einstein"@, "Diezel Einstein. Smaller Diezel, still huge. Punchy, articulate, aggressive."@, seq!["high-gain", "diezel", "einstein", "articulate"], 80, 45, 60, 30, 55, 80, 0),
        row("Bogner Uberschall"@, "Bogner Uberschall. Earth-shaking lows, searing highs. The definition of br00tal."@, seq!["high-gain", "bogner", "uberschall", "brutal", "heavy"], 90, 35, 70, 15, 55, 90, 0),
        row("Bogner Ecstasy"@, "Bogner Ecstasy. Versatile high-gain with legendary harmonic richness."@, seq!["high-gain", "bogner", "ecstasy", "versatile", "harmonic"], 80, 45, 55, 30, 55, 80, 0),
        row("Bogner Shiva"@, "Bogner Shiva. Clean-to-crunch with gorgeous singing lead voice."@, seq!["high-gain", "bogner", "shiva", "singing"], 75, 50, 55, 35, 55, 75, 0),
        row("Randall Satan"@, "Randall Satan by Mike Fortin. Tight, angry, uncompromising brutality."@, seq!["high-gain", "randall", "satan", "fortin", "brutal"], 90, 35, 65, 15, 60, 90, 0),
        row("Fryette VHT"@, "Fryette Deliverance. Crushing, aggressive, no-nonsense high-gain."@, seq!["high-gain", "fryette", "vht", "deliverance", "crushing"], 85, 40, 60, 25, 55, 85, 0),
        row("Krank Revolution"@, "Krank Revolution. Searing, aggressive, unique mid-voicing. Metal machine."@, seq!["high-gain", "krank", "revolution", "aggressive"], 85, 40, 60, 20, 60, 85, 0),
        row("Framus Cobra"@, "Framus Cobra. Tight German high-gain with massive low-end punch."@, seq!["high-gain", "framus", "cobra", "german", "tight"], 85, 40, 65, 20, 55, 85, 0),
        row("Laney AOR"@, "Laney AOR. The 80s metal sleeper. Thick, raw, ballsy low-end."@, seq!["high-gain", "laney", "aor", "80s", "raw"], 80, 45, 65, 30, 55, 80, 0),
        row("Ampeg VH140C"@, "Ampeg VH140C. Solid state brutality. The OG death metal sound. Razor-sharp."@, seq!["high-gain", "ampeg", "vh140c", "death-metal", "solid-state"], 90, 40, 65, 15, 65, 90, 0),
        row("Peavey 6505"@, "Peavey 6505/5150. The iconic American high-gain sound. Metal standard."@, seq!["high-gain", "peavey", "6505", "american", "standard"], 85, 40, 65, 20, 55, 85, 0),
        row("Peavey 6505+"@, "Peavey 6505+. Tighter, more gain, more saturation. Modern evolution."@, seq!["high-gain", "peavey", "6505-plus", "modern", "tight"], 85, 40, 65, 20, 55, 85, 0),
        row("Fortin NATAS"@, "Fortin NATAS. Extreme gain saturation with ungodly tightness. A masterpiece of noise."@, seq!["high-gain", "fortin", "natas", "extreme", "tight"], 95, 30, 60, 15, 60, 95, 0),
    ]
}

/// Hard rock and metal tones.
fn hard_rock_metal_presets() -> (v: Vec<AmpPreset>)
    ensures
        v@.len() == 39,
        preset_rows(v@) == hard_rock_metal_table(),
        forall|i: int| 0 <= i < v@.len() ==> #[trigger] is_guitar_preset(v@[i]),
{
    let v = vec![
        AmpPreset::new("Brown Sound", "EVH's iconic tone. Moderate gain, scooped-yet-mid bark, percussive attack. Frankenstrat required.", vec!["lead", "van-halen", "brown", "evh", "classic"], 60, 55, 60, 30, 70, 60),
        AmpPreset::new("EVH 1984", "Van Halen's 1984 album. Hotter, tighter, more saturated than the brown sound.", vec!["lead", "van-halen", "1984", "evh", "hot"], 65, 55, 60, 25, 65, 65),
        AmpPreset::new("Hot Rod Lead", "Hot-rodded Marshall. More gain, more mids, more sustain. Quintessential hard rock lead.", vec!["lead", "hot-rodded", "marshall", "sustain", "singing"], 70, 50, 50, 45, 60, 70),
        AmpPreset::new("800 Lead", "JCM800 boosted for lead. Tight low-end, cutting mids, iconic British bite.", vec!["lead", "marshall", "jcm800", "boosted", "cutting"], 65, 50, 50, 40, 65, 65),
        AmpPreset::new("JCM900 Lead", "Marshall JCM900. Thicker, more saturated than the 800. That 90s rock crunch.", vec!["lead", "marshall", "jcm900", "90s", "thick"], 70, 50, 55, 40, 55, 70),
        AmpPreset::new("JVM Lead", "Marshall JVM. Modern Marshall high-gain. Versatile, tight, aggressive.", vec!["lead", "marshall", "jvm", "modern", "high-gain"], 75, 45, 55, 35, 55, 75),
        AmpPreset::new("Modern Metal", "5150-inspired. Tight, aggressive. The modern metal standard. Chug machine.", vec!["high-gain", "metal", "5150", "modern", "chug"], 85, 40, 65, 20, 55, 85),
        AmpPreset::new("EVH 5150", "EVH 5150-III. Tighter low-end, aggressive mid-voice, legendary evolution.", vec!["high-gain", "evh", "5150", "tight", "legendary"], 85, 40, 60, 25, 55, 85),
        AmpPreset::new("5150 Red", "EVH 5150-III red channel. Saturated, singing, tight. Modern high-gain benchmark.", vec!["high-gain", "evh", "5150", "red-channel", "saturated"], 90, 35, 60, 20, 55, 90),
        AmpPreset::new("Rectifier Modern", "Mesa Dual Rectifier modern. Wall of gain, massive lows, scooped mids.", vec!["high-gain", "mesa", "rectifier", "modern", "massive"], 80, 45, 65, 15, 55, 80),
        AmpPreset::new("Rectifier Vintage", "Rectifier on vintage. Looser, creamier gain with more mid presence.", vec!["high-gain", "mesa", "rectifier", "vintage", "creamy"], 75, 45, 60, 25, 55, 75),
        AmpPreset::new("Rectifier Raw", "Rectifier raw mode. Unfiltered, aggressive, less compressed. Punishing.", vec!["high-gain", "mesa", "rectifier", "raw", "aggressive"], 80, 40, 65, 20, 60, 85),
        AmpPreset::new("Triple Recto", "Mesa Triple Rectifier. Even more lows, even more gain. When the Dual isn't enough.", vec!["high-gain", "mesa", "triple-rectifier", "brutal"], 85, 40, 70, 15, 50, 85),
        AmpPreset::new("Mark IIC+", "Mesa Mark IIC+. The grail. Tight, focused, signature mid-voice. Thrash perfected.", vec!["high-gain", "mesa", "mark-iic", "thrash", "tight"], 80, 40, 55, 30, 55, 80),
        AmpPreset::new("Mark III", "Mesa Mark III. Raunchier than the IIC+ with more low-end punch. Hetfield's early sound.", vec!["high-gain", "mesa", "mark-iii", "punchy"], 80, 40, 60, 25, 55, 80),
        AmpPreset::new("Mark IV", "Mesa Mark IV. Versatile high-gain with Mark-series mid-range. Studio legend.", vec!["high-gain", "mesa", "mark-iv", "versatile"], 80, 40, 55, 30, 55, 80),
        AmpPreset::new("Mark V", "Mesa Mark V. Modern evolution. 3 channels, every Mark tone in one box.", vec!["high-gain", "mesa", "mark-v", "modern", "versatile"], 80, 40, 55, 25, 60, 80),
        AmpPreset::new("SLO-100", "Soldano SLO-100. The definitive high-gain lead. Smooth, saturated, singing.", vec!["high-gain", "soldano", "slo-100", "lead", "smooth"], 80, 45, 55, 30, 55, 80),
        AmpPreset::new("Soldano Avenger", "Soldano Avenger. Tighter, more aggressive than the SLO. Modern grind.", vec!["high-gain", "soldano", "avenger", "tight", "aggressive"], 80, 40, 55, 25, 60, 85),
        AmpPreset::new("Soldano Hot Rod", "Soldano Hot Rod 100. SLO-inspired with more flexibility. Signature sizzle.", vec!["high-gain", "soldano", "hot-rod", "sizzle"], 80, 45, 55, 30, 60, 80),
        AmpPreset::new("ENGL Powerball", "ENGL Powerball. Tight German precision-gain. Sterile and brutal.", vec!["high-gain", "engl", "powerball", "german", "precision"], 85, 40, 60, 20, 55, 85),
        AmpPreset::new("ENGL Savage", "ENGL Savage. Even tighter, more aggressive than the Powerball. Metal perfection.", vec!["high-gain", "engl", "savage", "tight", "metal"], 90, 35, 60, 20, 55, 90),
        AmpPreset::new("ENGL Fireball", "ENGL Fireball. Punchy, aggressive, less low-end flub. Rhythm machine.", vec!["high-gain", "engl", "fireball", "rhythm", "punchy"], 85, 40, 55, 25, 55, 85),
        AmpPreset::new("ENGL Blackmore", "ENGL Blackmore. Ritchie's signature. Tight, clear, classical articulation.", vec!["high-gain", "engl", "blackmore", "articulate"], 80, 40, 55, 30, 60, 80),
        AmpPreset::new("Diezel VH4", "Diezel VH4. The sound of modern metal. Tight, huge, three-dimensional.", vec!["high-gain", "diezel", "vh4", "modern", "huge"], 85, 40, 60, 25, 55, 85),
        AmpPreset::new("Diezel Herbert", "Diezel Herbert. Massive, crushing low-end with signature mid complexity.", vec!["high-gain", "diezel", "herbert", "massive", "crushing"], 85, 40, 65, 20, 50, 85),
        AmpPreset::new("Diezel Einstein", "Diezel Einstein. Smaller Diezel, still huge. Punchy, articulate, aggressive.", vec!["high-gain", "diezel", "einstein", "articulate"], 80, 45, 60, 30, 55, 80),
        AmpPreset::new("Bogner Uberschall", "Bogner Uberschall. Earth-shaking lows, searing highs. The definition of br00tal.", vec!["high-gain", "bogner", "uberschall", "brutal", "heavy"], 90, 35, 70, 15, 55, 90),
        AmpPreset::new("Bogner Ecstasy", "Bogner Ecstasy. Versatile high-gain with legendary harmonic richness.", vec!["high-gain", "bogner", "ecstasy", "versatile", "harmonic"], 80, 45, 55, 30, 55, 80),
        AmpPreset::new("Bogner Shiva", "Bogner Shiva. Clean-to-crunch with gorgeous singing lead voice.", vec!["high-gain", "bogner", "shiva", "singing"], 75, 50, 55, 35, 55, 75),
        AmpPreset::new("Randall Satan", "Randall Satan by Mike Fortin. Tight, angry, uncompromising brutality.", vec!["high-gain", "randall", "satan", "fortin", "brutal"], 90, 35, 65, 15, 60, 90),
        AmpPreset::new("Fryette VHT", "Fryette Deliverance. Crushing, aggressive, no-nonsense high-gain.", vec!["high-gain", "fryette", "vht", "deliverance", "crushing"], 85, 40, 60, 25, 55, 85),
        AmpPreset::new("Krank Revolution", "Krank Revolution. Searing, aggressive, unique mid-voicing. Metal machine.", vec!["high-gain", "krank", "revolution", "aggressive"], 85, 40, 60, 20, 60, 85),
        AmpPreset::new("Framus Cobra", "Framus Cobra. Tight German high-gain with massive low-end punch.", vec!["high-gain", "framus", "cobra", "german", "tight"], 85, 40, 65, 20, 55, 85),
        AmpPreset::new("Laney AOR", "Laney AOR. The 80s metal sleeper. Thick, raw, ballsy low-end.", vec!["high-gain", "laney", "aor", "80s", "raw"], 80, 45, 65, 30, 55, 80),
        AmpPreset::new("Ampeg VH140C", "Ampeg VH140C. Solid state brutality. The OG death metal sound. Razor-sharp.", vec!["high-gain", "ampeg", "vh140c", "death-metal", "solid-state"], 90, 40, 65, 15, 65, 90),
        AmpPreset::new("Peavey 6505", "Peavey 6505/5150. The iconic American high-gain sound. Metal standard.", vec!["high-gain", "peavey", "6505", "american", "standard"], 85, 40, 65, 20, 55, 85),
        AmpPreset::new("Peavey 6505+", "Peavey 6505+. Tighter, more gain, more saturation. Modern evolution.", vec!["high-gain", "peavey", "6505-plus", "modern", "tight"], 85, 40, 65, 20, 55, 85),
        AmpPreset::new("Fortin NATAS", "Fortin NATAS. Extreme gain saturation with ungodly tightness. A masterpiece of noise.", vec!["high-gain", "fortin", "natas", "extreme", "tight"], 95, 30, 60, 15, 60, 95),
    ];
    assert(preset_rows(v@) =~= hard_rock_metal_table());
    v
}

/// The rows of `modern_metal_prog_presets`.
pub open spec fn modern_metal_prog_table() -> Seq<PresetRow> {
    seq![
        row("Djent"@, "Tight, percussive low-end. Polyrhythm-ready with controlled gain and massive attack."@, seq!["high-gain", "djent", "tight", "percussive", "prog"], 75, 45, 65, 25, 65, 80, 0),
        row("Periphery"@, "Modern high-gain with tight bass and cutting mids. The Periphery rhythm sound."@, seq!["high-gain", "periphery", "modern", "tight", "rhythm"], 80, 40, 60, 30, 55, 85, 0),
        row("Meshuggah"@, "The ultimate chug. Fortin-designed, impossibly tight, mathematically precise."@, seq!["high-gain", "meshuggah", "fortin", "chug", "mathematical"], 90, 35, 65, 20, 60, 90, 0),
        row("Tesseract"@, "Ambient, precise modern metal. Tight distortion with room to breathe."@, seq!["high-gain", "tesseract", "modern", "ambient", "djent"], 80, 45, 60, 30, 55, 80, 0),
        row("Monuments"@, "Groove-oriented modern metal. Percussive, syncopated, massive."@, seq!["high-gain", "monuments", "djent", "groove"], 80, 40, 60, 25, 55, 85, 0),
        row("Animals as Leaders"@, "Progressive, clean, precise. Orchestral metal with extreme clarity."@, seq!["high-gain", "animals-as-leaders", "prog", "precise"], 75, 45, 55, 30, 60, 75, 0),
        row("Architects"@, "Modern UK metalcore. Big lows, sampled precision, massive walls of sound."@, seq!["high-gain", "architects", "metalcore", "modern", "uk"], 85, 40, 65, 20, 55, 85, 0),
        row("Northlane"@, "Atmospheric modern metal with crushing lows and ambient mids."@, seq!["high-gain", "northlane", "atmospheric", "modern"], 80, 45, 65, 25, 55, 80, 0),
        row("Parkway Drive"@, "Australian metalcore. Bold, aggressive, rhythm-focused."@, seq!["high-gain", "parkway-drive", "metalcore", "aggressive"], 85, 40, 60, 25, 55, 85, 0),
        row("Killswitch Engage"@, "Melodic metalcore. Harmonious brutality. Big gain with singing mids."@, seq!["high-gain", "killswitch-engage", "metalcore", "melodic"], 80, 45, 60, 30, 55, 80, 0),
        row("Trivium"@, "Modern thrash-infused metal. Aggressive, technical, cutting."@, seq!["high-gain", "trivium", "thrash", "modern", "technical"], 80, 40, 55, 25, 60, 85, 0),
        row("Gojira"@, "Unique French metal. Crushing, rhythmic, signature low-end thump."@, seq!["high-gain", "gojira", "french", "rhythmic", "unique"], 85, 40, 70, 20, 50, 85, 0),
        row("Lamb of God"@, "American groove metal. Aggressive, percussive, wall-of-sound rhythm."@, seq!["high-gain", "lamb-of-god", "groove-metal", "american"], 80, 45, 60, 25, 55, 85, 0),
        row("Opeth"@, "Progressive Swedish metal. From clean to crushing, dynamic range for days."@, seq!["high-gain", "opeth", "prog", "swedish", "dynamic"], 75, 50, 55, 35, 55, 75, 0),
        row("Mastodon"@, "Sludgey, progressive, massive. Thick low-end with psychedelic mids."@, seq!["high-gain", "mastodon", "sludge", "prog", "thick"], 80, 45, 65, 30, 50, 80, 0),
        row("Tool"@, "Adam Jones' Diezel/Darkglass hybrid. Big, dark, atmospheric. Tension personified."@, seq!["high-gain", "tool", "adam-jones", "diezel", "dark"], 70, 50, 60, 35, 50, 70, 0),
        row("Deftones"@, "Stephen Carpenter's 5150 wall. Shoegaze meets metal. Thick, ethereal, punishing."@, seq!["high-gain", "deftones", "shoegaze-metal", "atmospheric"], 80, 45, 65, 30, 50, 80, 0),
    ]
}

/// Modern metal and progressive tones.
fn modern_metal_prog_presets() -> (v: Vec<AmpPreset>)
    ensures
        v@.len() == 17,
        preset_rows(v@) == modern_metal_prog_table(),
        forall|i: int| 0 <= i < v@.len() ==> #[trigger] is_guitar_preset(v@[i]),
{
    let v = vec![
        AmpPreset::new("Djent", "Tight, percussive low-end. Polyrhythm-ready with controlled gain and massive attack.", vec!["high-gain", "djent", "tight", "percussive", "prog"], 75, 45, 65, 25, 65, 80),
        AmpPreset::new("Periphery", "Modern high-gain with tight bass and cutting mids. The Periphery rhythm sound.", vec!["high-gain", "periphery", "modern", "tight", "rhythm"], 80, 40, 60, 30, 55, 85),
        AmpPreset::new("Meshuggah", "The ultimate chug. Fortin-designed, impossibly tight, mathematically precise.", vec!["high-gain", "meshuggah", "fortin", "chug", "mathematical"], 90, 35, 65, 20, 60, 90),
        AmpPreset::new("Tesseract", "Ambient, precise modern metal. Tight distortion with room to breathe.", vec!["high-gain", "tesseract", "modern", "ambient", "djent"], 80, 45, 60, 30, 55, 80),
        AmpPreset::new("Monuments", "Groove-oriented modern metal. Percussive, syncopated, massive.", vec!["high-gain", "monuments", "djent", "groove"], 80, 40, 60, 25, 55, 85),
        AmpPreset::new("Animals as Leaders", "Progressive, clean, precise. Orchestral metal with extreme clarity.", vec!["high-gain", "animals-as-leaders", "prog", "precise"], 75, 45, 55, 30, 60, 75),
        AmpPreset::new("Architects", "Modern UK metalcore. Big lows, sampled precision, massive walls of sound.", vec!["high-gain", "architects", "metalcore", "modern", "uk"], 85, 40, 65, 20, 55, 85),
        AmpPreset::new("Northlane", "Atmospheric modern metal with crushing lows and ambient mids.", vec!["high-gain", "northlane", "atmospheric", "modern"], 80, 45, 65, 25, 55, 80),
        AmpPreset::new("Parkway Drive", "Australian metalcore. Bold, aggressive, rhythm-focused.", vec!["high-gain", "parkway-drive", "metalcore", "aggressive"], 85, 40, 60, 25, 55, 85),
        AmpPreset::new("Killswitch Engage", "Melodic metalcore. Harmonious brutality. Big gain with singing mids.", vec!["high-gain", "killswitch-engage", "metalcore", "melodic"], 80, 45, 60, 30, 55, 80),
        AmpPreset::new("Trivium", "Modern thrash-infused metal. Aggressive, technical, cutting.", vec!["high-gain", "trivium", "thrash", "modern", "technical"], 80, 40, 55, 25, 60, 85),
        AmpPreset::new("Gojira", "Unique French metal. Crushing, rhythmic, signature low-end thump.", vec!["high-gain", "gojira", "french", "rhythmic", "unique"], 85, 40, 70, 20, 50, 85),
        AmpPreset::new("Lamb of God", "American groove metal. Aggressive, percussive, wall-of-sound rhythm.", vec!["high-gain", "lamb-of-god", "groove-metal", "american"], 80, 45, 60, 25, 55, 85),
        AmpPreset::new("Opeth", "Progressive Swedish metal. From clean to crushing, dynamic range for days.", vec!["high-gain", "opeth", "prog", "swedish", "dynamic"], 75, 50, 55, 35, 55, 75),
        AmpPreset::new("Mastodon", "Sludgey, progressive, massive. Thick low-end with psychedelic mids.", vec!["high-gain", "mastodon", "sludge", "prog", "thick"], 80, 45, 65, 30, 50, 80),
        AmpPreset::new("Tool", "Adam Jones' Diezel/Darkglass hybrid. Big, dark, atmospheric. Tension personified.", vec!["high-gain", "tool", "adam-jones", "diezel", "dark"], 70, 50, 60, 35, 50, 70),
        AmpPreset::new("Deftones", "Stephen Carpenter's 5150 wall. Shoegaze meets metal. Thick, ethereal, punishing.", vec!["high-gain", "deftones", "shoegaze-metal", "atmospheric"], 80, 45, 65, 30, 50, 80),
    ];
    assert(preset_rows(v@) =~= modern_metal_prog_table());
    v
}

/// The rows of `doom_stoner_presets`.
pub open spec fn doom_stoner_table() -> Seq<PresetRow> {
    seq![
        row("Doom"@, "Thick, dark, sludgy. Massive low-end, rolled-off highs. Riffs that shake the earth."@, seq!["doom", "sludge", "heavy", "dark", "low-end"], 70, 65, 90, 40, 15, 65, 0),
        row("Electric Wizard"@, "Sabbath-worship through 1000 watts. Filthy, terrifying, impossibly slow."@, seq!["doom", "electric-wizard", "filthy", "slow"], 80, 60, 95, 35, 10, 75, 0),
        row("Sleep"@, "The riff is the law. Dopesmoker-thick, earth-moving sustain."@, seq!["doom", "sleep", "stoner", "riff", "thick"], 75, 60, 90, 40, 15, 70, 0),
        row("Kyuss"@, "Blue-green desert tone. Thick, fuzzy, rolling. QOTSA before QOTSA."@, seq!["doom", "kyuss", "stoner", "desert", "fuzzy"], 65, 60, 80, 45, 25, 60, 0),
        row("QOTSA"@, "Josh Homme's stone-cold tone. Mid-pushed, grinding, attitude to spare."@, seq!["doom", "qotsa", "homme", "stoner", "grinding"], 65, 55, 70, 60, 30, 65, 0),
        row("Fu Manchu"@, "California desert stoner. Fast, fuzzy, relentless. Low-end for days."@, seq!["doom", "fu-manchu", "stoner", "desert", "fast"], 65, 55, 80, 40, 30, 65, 0),
        row("Clutch"@, "Tim Sult's Neil Young-meets-Metal tone. Grinding, grooving, unmistakable."@, seq!["doom", "clutch", "groove", "grinding"], 60, 55, 65, 55, 35, 60, 0),
        row("Corrosion"@, "Pepper Keenan's sludgy Southern tone. Thick, dirty, deeply Southern."@, seq!["doom", "corrosion-of-conformity", "sludge", "southern"], 65, 55, 70, 50, 30, 65, 0),
        row("Down"@, "NOLA sludge. Phil Anselmo's crushing, thick-as-molasses tone."@, seq!["doom", "down", "nola", "sludge", "southern"], 70, 55, 80, 45, 20, 70, 0),
        row("Crowbar"@, "Kirk Windstein's signature. The heaviest sludge — low, slow, brutal."@, seq!["doom", "crowbar", "sludge", "heavy", "slow"], 75, 55, 90, 35, 15, 75, 0),
        row("Monolord"@, "Swedish doom. Massive, hypnotic, fuzzed-out repetition. Beautiful darkness."@, seq!["doom", "monolord", "swedish", "fuzz", "hypnotic"], 75, 60, 90, 35, 10, 70, 0),
        row("Windhand"@, "Droning, ethereal doom. Thick enough to swim through, pretty enough to cry to."@, seq!["doom", "windhand", "ethereal", "drone"], 70, 60, 85, 40, 20, 65, 0),
        row("YOB"@, "Mike Scheidt's psychedelic doom. Deep, spiritual, crushing. Riffs from another dimension."@, seq!["doom", "yob", "psychedelic", "spiritual"], 70, 60, 85, 45, 20, 65, 0),
        row("Conan"@, "British extreme doom. Minimalist, monolithic, completely overwhelming."@, seq!["doom", "conan", "extreme", "monolithic"], 80, 55, 95, 30, 10, 80, 0),
        row("Sunn O)))"@, "The sound of the void. Minimal guitar, maximum amplifier. Worship the sun."@, seq!["doom", "sunn", "drone", "experimental", "void"], 70, 70, 90, 30, 5, 60, 0),
        row("Acid King"@, "Lori's fuzzed-out San Francisco doom. Thick, heavy, hypnotic."@, seq!["doom", "acid-king", "stoner", "sf"], 70, 55, 85, 40, 20, 70, 0),
    ]
}

/// Doom and stoner tones.
fn doom_stoner_presets() -> (v: Vec<AmpPreset>)
    ensures
        v@.len() == 16,
        preset_rows(v@) == doom_stoner_table(),
        forall|i: int| 0 <= i < v@.len() ==> #[trigger] is_guitar_preset(v@[i]),
{
    let v = vec![
        AmpPreset::new("Doom", "Thick, dark, sludgy. Massive low-end, rolled-off highs. Riffs that shake the earth.", vec!["doom", "sludge", "heavy", "dark", "low-end"], 70, 65, 90, 40, 15, 65),
        AmpPreset::new("Electric Wizard", "Sabbath-worship through 1000 watts. Filthy, terrifying, impossibly slow.", vec!["doom", "electric-wizard", "filthy", "slow"], 80, 60, 95, 35, 10, 75),
        AmpPreset::new("Sleep", "The riff is the law. Dopesmoker-thick, earth-moving sustain.", vec!["doom", "sleep", "stoner", "riff", "thick"], 75, 60, 90, 40, 15, 70),
        AmpPreset::new("Kyuss", "Blue-green desert tone. Thick, fuzzy, rolling. QOTSA before QOTSA.", vec!["doom", "kyuss", "stoner", "desert", "fuzzy"], 65, 60, 80, 45, 25, 60),
        AmpPreset::new("QOTSA", "Josh Homme's stone-cold tone. Mid-pushed, grinding, attitude to spare.", vec!["doom", "qotsa", "homme", "stoner", "grinding"], 65, 55, 70, 60, 30, 65),
        AmpPreset::new("Fu Manchu", "California desert stoner. Fast, fuzzy, relentless. Low-end for days.", vec!["doom", "fu-manchu", "stoner", "desert", "fast"], 65, 55, 80, 40, 30, 65),
        AmpPreset::new("Clutch", "Tim Sult's Neil Young-meets-Metal tone. Grinding, grooving, unmistakable.", vec!["doom", "clutch", "groove", "grinding"], 60, 55, 65, 55, 35, 60),
        AmpPreset::new("Corrosion", "Pepper Keenan's sludgy Southern tone. Thick, dirty, deeply Southern.", vec!["doom", "corrosion-of-conformity", "sludge", "southern"], 65, 55, 70, 50, 30, 65),
        AmpPreset::new("Down", "NOLA sludge. Phil Anselmo's crushing, thick-as-molasses tone.", vec!["doom", "down", "nola", "sludge", "southern"], 70, 55, 80, 45, 20, 70),
        AmpPreset::new("Crowbar", "Kirk Windstein's signature. The heaviest sludge — low, slow, brutal.", vec!["doom", "crowbar", "sludge", "heavy", "slow"], 75, 55, 90, 35, 15, 75),
        AmpPreset::new("Monolord", "Swedish doom. Massive, hypnotic, fuzzed-out repetition. Beautiful darkness.", vec!["doom", "monolord", "swedish", "fuzz", "hypnotic"], 75, 60, 90, 35, 10, 70),
        AmpPreset::new("Windhand", "Droning, ethereal doom. Thick enough to swim through, pretty enough to cry to.", vec!["doom", "windhand", "ethereal", "drone"], 70, 60, 85, 40, 20, 65),
        AmpPreset::new("YOB", "Mike Scheidt's psychedelic doom. Deep, spiritual, crushing. Riffs from another dimension.", vec!["doom", "yob", "psychedelic", "spiritual"], 70, 60, 85, 45, 20, 65),
        AmpPreset::new("Conan", "British extreme doom. Minimalist, monolithic, completely overwhelming.", vec!["doom", "conan", "extreme", "monolithic"], 80, 55, 95, 30, 10, 80),
        AmpPreset::new("Sunn O)))", "The sound of the void. Minimal guitar, maximum amplifier. Worship the sun.", vec!["doom", "sunn", "drone", "experimental", "void"], 70, 70, 90, 30, 5, 60),
        AmpPreset::new("Acid King", "Lori's fuzzed-out San Francisco doom. Thick, heavy, hypnotic.", vec!["doom", "acid-king", "stoner", "sf"], 70, 55, 85, 40, 20, 70),
    ];
    assert(preset_rows(v@) =~= doom_stoner_table());
    v
}

/// The rows of `punk_hardcore_alt_presets`.
pub open spec fn punk_hardcore_alt_table() -> Seq<PresetRow> {
    seq![
        row("Punk"@, "Angry mid-forward distortion. Raw, cutting, designed to be heard over a loud band."@, seq!["punk", "aggressive", "raw", "mid-forward"], 60, 55, 50, 65, 55, 60, 0),
        row("Ramones"@, "Johnny's mid-range attack. All mids, no bass, straight into a Vox or Marshall."@, seq!["punk", "ramones", "johnny-ramone", "downstrokes"], 50, 60, 30, 75, 55, 45, 0),
        row("God Save The Queen"@, "Steve Jones' cranked Marshall. The blueprint for UK punk. Snotty, perfect."@, seq!["punk", "sex-pistols", "steve-jones", "uk"], 60, 55, 45, 60, 60, 60, 0),
        row("London Calling"@, "The Clash's wall of Marshalls. Raw, powerful, mid-forward rock and roll."@, seq!["punk", "the-clash", "mick-jones", "uk"], 55, 55, 50, 60, 55, 55, 0),
        row("Dead Kennedys"@, "East Bay Ray's twangy surf-meets-hardcore. Reverb-soaked punk at its finest."@, seq!["punk", "dead-kennedys", "east-bay-ray", "surf-punk"], 50, 55, 40, 55, 65, 50, 0),
        row("Black Flag"@, "Greg Ginn's atonal, buzzsaw tone. Unhinged, chaotic, utterly unique."@, seq!["punk", "black-flag", "greg-ginn", "buzzsaw"], 65, 50, 40, 60, 60, 65, 0),
        row("Minor Threat"@, "Lyle's tight hardcore tone. No frills, all fury."@, seq!["punk", "minor-threat", "hardcore", "tight"], 60, 55, 45, 60, 55, 60, 0),
        row("Dookie"@, "Green Day Dookie album. Pushed Marshall with punchy mids and bright top."@, seq!["punk", "green-day", "dookie", "marshall", "90s"], 55, 55, 50, 60, 60, 55, 0),
        row("American Idiot"@, "Green Day's modern wall. Bigger, more polished, still punk at heart."@, seq!["punk", "green-day", "american-idiot", "modern"], 60, 55, 55, 55, 55, 60, 0),
        row("Blink Crunch"@, "Tom DeLonge's oversized Marshall. Big, scooped, pop-punk perfection."@, seq!["punk", "blink-182", "delonge", "pop-punk"], 55, 55, 65, 30, 65, 55, 0),
        row("Rancid"@, "Tim Armstrong's raw, punky tone. Reggae-influenced grind meets hardcore."@, seq!["punk", "rancid", "armstrong", "ska-punk"], 55, 55, 50, 60, 55, 55, 0),
        row("NOFX"@, "Fat Mike's punk crunch. Bright, fast, irreverent. Punk at warp speed."@, seq!["punk", "nofx", "fat-mike", "fast"], 55, 55, 45, 55, 60, 55, 0),
        row("Grunge"@, "Raw, unpolished, broken-in amp pushed past its limits. The Seattle sound."@, seq!["grunge", "seattle", "raw", "aggressive", "broken"], 60, 50, 55, 50, 45, 65, 0),
        row("Nevermind"@, "Kurt's DS-1 into a cranked Fender/Mesa. Crunchy, messy, iconic. Smells like teen spirit."@, seq!["grunge", "nirvana", "cobain", "nevermind", "fender"], 55, 55, 50, 50, 55, 55, 0),
        row("In Utero"@, "Cobain's Twin Reverb cranked into the red. Fierce, uncompromising, raw."@, seq!["grunge", "nirvana", "cobain", "in-utero", "fender"], 60, 50, 50, 55, 55, 65, 0),
        row("Pearl Jam"@, "Mike McCready's cranked Fender/Marshall. Solo-soaring, blues-infused grunge."@, seq!["grunge", "pearl-jam", "mccready", "lead"], 55, 55, 55, 55, 55, 55, 0),
        row("Superunknown"@, "Chris Cornell's wall of Marshalls. Dark, heavy, brooding grunge."@, seq!["grunge", "soundgarden", "cornell", "dark", "heavy"], 60, 55, 60, 45, 50, 60, 0),
        row("Dirt"@, "Jerry Cantrell's thick, sludgy leads. Les Paul into cranked amp. Pure Alice."@, seq!["grunge", "alice-in-chains", "cantrell", "sludge", "thick"], 60, 55, 60, 50, 45, 60, 0),
        row("The Strokes"@, "Julian's Vox-like jangle. Lo-fi, charming, cutting through a crowded room."@, seq!["alt", "the-strokes", "vox", "lo-fi"], 40, 60, 40, 60, 60, 35, 0),
        row("White Stripes"@, "Jack White's crumbling, no-bass tone. Plasticene fury through a broken amp."@, seq!["alt", "white-stripes", "jack-white", "lo-fi", "raw"], 55, 55, 20, 70, 60, 60, 0),
        row("Arctic Monkeys"@, "Alex Turner's Vox chime. British indie with bite and jangle."@, seq!["alt", "arctic-monkeys", "turner", "vox", "british"], 45, 60, 40, 55, 65, 40, 0),
        row("Foo Fighters"@, "Dave Grohl's cranked Mesa. Big, anthemic, powerful. The sound of rock revival."@, seq!["alt", "foo-fighters", "grohl", "mesa", "anthemic"], 60, 55, 55, 45, 55, 60, 0),
        row("Smashing Pumpkins"@, "Billy's Big Muff into a Marshall. Huge, wall-of-fuzz, zero subtlety."@, seq!["alt", "smashing-pumpkins", "corgan", "wall-of-sound"], 60, 55, 60, 40, 55, 65, 0),
    ]
}

/// Punk, hardcore and alternative tones.
fn punk_hardcore_alt_presets() -> (v: Vec<AmpPreset>)
    ensures
        v@.len() == 23,
        preset_rows(v@) == punk_hardcore_alt_table(),
        forall|i: int| 0 <= i < v@.len() ==> #[trigger] is_guitar_preset(v@[i]),
{
    let v = vec![
        AmpPreset::new("Punk", "Angry mid-forward distortion. Raw, cutting, designed to be heard over a loud band.", vec!["punk", "aggressive", "raw", "mid-forward"], 60, 55, 50, 65, 55, 60),
        AmpPreset::new("Ramones", "Johnny's mid-range attack. All mids, no bass, straight into a Vox or Marshall.", vec!["punk", "ramones", "johnny-ramone", "downstrokes"], 50, 60, 30, 75, 55, 45),
        AmpPreset::new("God Save The Queen", "Steve Jones' cranked Marshall. The blueprint for UK punk. Snotty, perfect.", vec!["punk", "sex-pistols", "steve-jones", "uk"], 60, 55, 45, 60, 60, 60),
        AmpPreset::new("London Calling", "The Clash's wall of Marshalls. Raw, powerful, mid-forward rock and roll.", vec!["punk", "the-clash", "mick-jones", "uk"], 55, 55, 50, 60, 55, 55),
        AmpPreset::new("Dead Kennedys", "East Bay Ray's twangy surf-meets-hardcore. Reverb-soaked punk at its finest.", vec!["punk", "dead-kennedys", "east-bay-ray", "surf-punk"], 50, 55, 40, 55, 65, 50),
        AmpPreset::new("Black Flag", "Greg Ginn's atonal, buzzsaw tone. Unhinged, chaotic, utterly unique.", vec!["punk", "black-flag", "greg-ginn", "buzzsaw"], 65, 50, 40, 60, 60, 65),
        AmpPreset::new("Minor Threat", "Lyle's tight hardcore tone. No frills, all fury.", vec!["punk", "minor-threat", "hardcore", "tight"], 60, 55, 45, 60, 55, 60),
        AmpPreset::new("Dookie", "Green Day Dookie album. Pushed Marshall with punchy mids and bright top.", vec!["punk", "green-day", "dookie", "marshall", "90s"], 55, 55, 50, 60, 60, 55),
        AmpPreset::new("American Idiot", "Green Day's modern wall. Bigger, more polished, still punk at heart.", vec!["punk", "green-day", "american-idiot", "modern"], 60, 55, 55, 55, 55, 60),
        AmpPreset::new("Blink Crunch", "Tom DeLonge's oversized Marshall. Big, scooped, pop-punk perfection.", vec!["punk", "blink-182", "delonge", "pop-punk"], 55, 55, 65, 30, 65, 55),
        AmpPreset::new("Rancid", "Tim Armstrong's raw, punky tone. Reggae-influenced grind meets hardcore.", vec!["punk", "rancid", "armstrong", "ska-punk"], 55, 55, 50, 60, 55, 55),
        AmpPreset::new("NOFX", "Fat Mike's punk crunch. Bright, fast, irreverent. Punk at warp speed.", vec!["punk", "nofx", "fat-mike", "fast"], 55, 55, 45, 55, 60, 55),
        AmpPreset::new("Grunge", "Raw, unpolished, broken-in amp pushed past its limits. The Seattle sound.", vec!["grunge", "seattle", "raw", "aggressive", "broken"], 60, 50, 55, 50, 45, 65),
        AmpPreset::new("Nevermind", "Kurt's DS-1 into a cranked Fender/Mesa. Crunchy, messy, iconic. Smells like teen spirit.", vec!["grunge", "nirvana", "cobain", "nevermind", "fender"], 55, 55, 50, 50, 55, 55),
        AmpPreset::new("In Utero", "Cobain's Twin Reverb cranked into the red. Fierce, uncompromising, raw.", vec!["grunge", "nirvana", "cobain", "in-utero", "fender"], 60, 50, 50, 55, 55, 65),
        AmpPreset::new("Pearl Jam", "Mike McCready's cranked Fender/Marshall. Solo-soaring, blues-infused grunge.", vec!["grunge", "pearl-jam", "mccready", "lead"], 55, 55, 55, 55, 55, 55),
        AmpPreset::new("Superunknown", "Chris Cornell's wall of Marshalls. Dark, heavy, brooding grunge.", vec!["grunge", "soundgarden", "cornell", "dark", "heavy"], 60, 55, 60, 45, 50, 60),
        AmpPreset::new("Dirt", "Jerry Cantrell's thick, sludgy leads. Les Paul into cranked amp. Pure Alice.", vec!["grunge", "alice-in-chains", "cantrell", "sludge", "thick"], 60, 55, 60, 50, 45, 60),
        AmpPreset::new("The Strokes", "Julian's Vox-like jangle. Lo-fi, charming, cutting through a crowded room.", vec!["alt", "the-strokes", "vox", "lo-fi"], 40, 60, 40, 60, 60, 35),
        AmpPreset::new("White Stripes", "Jack White's crumbling, no-bass tone. Plasticene fury through a broken amp.", vec!["alt", "white-stripes", "jack-white", "lo-fi", "raw"], 55, 55, 20, 70, 60, 60),
        AmpPreset::new("Arctic Monkeys", "Alex Turner's Vox chime. British indie with bite and jangle.", vec!["alt", "arctic-monkeys", "turner", "vox", "british"], 45, 60, 40, 55, 65, 40),
        AmpPreset::new("Foo Fighters", "Dave Grohl's cranked Mesa. Big, anthemic, powerful. The sound of rock revival.", vec!["alt", "foo-fighters", "grohl", "mesa", "anthemic"], 60, 55, 55, 45, 55, 60),
        AmpPreset::new("Smashing Pumpkins", "Billy's Big Muff into a Marshall. Huge, wall-of-fuzz, zero subtlety.", vec!["alt", "smashing-pumpkins", "corgan", "wall-of-sound"], 60, 55, 60, 40, 55, 65),
    ];
    assert(preset_rows(v@) =~= punk_hardcore_alt_table());
    v
}

/// The rows of `jazz_fusion_presets`.
pub open spec fn jazz_fusion_table() -> Seq<PresetRow> {
    seq![
        row("Wes Montgomery"@, "Thumb-picked warmth through a Fender Twin. Round, octave-heavy, deeply soulful."@, seq!["jazz", "wes-montgomery", "fender", "warm", "thumb"], 20, 70, 55, 65, 40, 10, 0),
        row("George Benson"@, "GB's hot-rodded clean. Punchy, articulate, brilliant single-note attack."@, seq!["jazz", "george-benson", "boutique", "punchy"], 30, 70, 50, 65, 50, 20, 0),
        row("Pat Metheny"@, "Pat's ultra-clean Roland JC. Chorusy, lush, pitch-perfect clarity."@, seq!["jazz", "pat-metheny", "roland", "clean", "lush"], 15, 75, 50, 50, 60, 8, 0),
        row("John Scofield"@, "Sco's gritty, mid-heavy tone. Dirty but sophisticated. Jazz with a snarl."@, seq!["jazz", "john-scofield", "gritty", "mid-heavy"], 45, 60, 50, 70, 50, 40, 0),
        row("Allan Holdsworth"@, "Ultra-clean, horn-like legato. Peak clarity, zero distortion. The master's canvas."@, seq!["jazz", "fusion", "holdsworth", "legato", "clean"], 15, 80, 50, 55, 55, 5, 0),
        row("Frank Gambale"@, "Super-clean sweep-picking tone. Output for days, clarity forever."@, seq!["jazz", "fusion", "gambale", "sweep", "crystal"], 20, 75, 50, 55, 60, 10, 0),
        row("Greg Howe"@, "Searing high-gain shred meets soulful phrasing. Technique with feel."@, seq!["jazz", "fusion", "greg-howe", "shred", "high-gain"], 65, 55, 50, 40, 60, 65, 0),
        row("Guthrie Govan"@, "The modern master. Ultra-versatile — clean to mean, always musical."@, seq!["jazz", "fusion", "guthrie-govan", "versatile"], 35, 65, 50, 55, 55, 30, 0),
        row("Andy Timmons"@, "Singing lead tone. Warm, expressive, gorgeous mid-range push."@, seq!["jazz", "fusion", "andy-timmons", "singing", "lead"], 55, 55, 55, 60, 55, 55, 0),
        row("Eric Johnson"@, "EJ's meticulous, chiming clean. Layers upon layers of perfect tone."@, seq!["jazz", "fusion", "eric-johnson", "chiming", "meticulous"], 30, 70, 50, 60, 65, 15, 0),
        row("Mike Stern"@, "High-octane jazz. Overdriven, aggressive, horn-like phrasing."@, seq!["jazz", "mike-stern", "overdriven", "aggressive"], 50, 55, 50, 60, 55, 50, 0),
        row("Lee Ritenour"@, "Polished jazz clean. Smooth, professional, refined."@, seq!["jazz", "lee-ritenour", "clean", "polished"], 25, 70, 50, 60, 55, 15, 0),
    ]
}

/// Jazz and fusion tones.
fn jazz_fusion_presets() -> (v: Vec<AmpPreset>)
    ensures
        v@.len() == 12,
        preset_rows(v@) == jazz_fusion_table(),
        forall|i: int| 0 <= i < v@.len() ==> #[trigger] is_guitar_preset(v@[i]),
{
    let v = vec![
        AmpPreset::new("Wes Montgomery", "Thumb-picked warmth through a Fender Twin. Round, octave-heavy, deeply soulful.", vec!["jazz", "wes-montgomery", "fender", "warm", "thumb"], 20, 70, 55, 65, 40, 10),
        AmpPreset::new("George Benson", "GB's hot-rodded clean. Punchy, articulate, brilliant single-note attack.", vec!["jazz", "george-benson", "boutique", "punchy"], 30, 70, 50, 65, 50, 20),
        AmpPreset::new("Pat Metheny", "Pat's ultra-clean Roland JC. Chorusy, lush, pitch-perfect clarity.", vec!["jazz", "pat-metheny", "roland", "clean", "lush"], 15, 75, 50, 50, 60, 8),
        AmpPreset::new("John Scofield", "Sco's gritty, mid-heavy tone. Dirty but sophisticated. Jazz with a snarl.", vec!["jazz", "john-scofield", "gritty", "mid-heavy"], 45, 60, 50, 70, 50, 40),
        AmpPreset::new("Allan Holdsworth", "Ultra-clean, horn-like legato. Peak clarity, zero distortion. The master's canvas.", vec!["jazz", "fusion", "holdsworth", "legato", "clean"], 15, 80, 50, 55, 55, 5),
        AmpPreset::new("Frank Gambale", "Super-clean sweep-picking tone. Output for days, clarity forever.", vec!["jazz", "fusion", "gambale", "sweep", "crystal"], 20, 75, 50, 55, 60, 10),
        AmpPreset::new("Greg Howe", "Searing high-gain shred meets soulful phrasing. Technique with feel.", vec!["jazz", "fusion", "greg-howe", "shred", "high-gain"], 65, 55, 50, 40, 60, 65),
        AmpPreset::new("Guthrie Govan", "The modern master. Ultra-versatile — clean to mean, always musical.", vec!["jazz", "fusion", "guthrie-govan", "versatile"], 35, 65, 50, 55, 55, 30),
        AmpPreset::new("Andy Timmons", "Singing lead tone. Warm, expressive, gorgeous mid-range push.", vec!["jazz", "fusion", "andy-timmons", "singing", "lead"], 55, 55, 55, 60, 55, 55),
        AmpPreset::new("Eric Johnson", "EJ's meticulous, chiming clean. Layers upon layers of perfect tone.", vec!["jazz", "fusion", "eric-johnson", "chiming", "meticulous"], 30, 70, 50, 60, 65, 15),
        AmpPreset::new("Mike Stern", "High-octane jazz. Overdriven, aggressive, horn-like phrasing.", vec!["jazz", "mike-stern", "overdriven", "aggressive"], 50, 55, 50, 60, 55, 50),
        AmpPreset::new("Lee Ritenour", "Polished jazz clean. Smooth, professional, refined.", vec!["jazz", "lee-ritenour", "clean", "polished"], 25, 70, 50, 60, 55, 15),
    ];
    assert(preset_rows(v@) =~= jazz_fusion_table());
    v
}

/// The rows of `country_presets`.
pub open spec fn country_table() -> Seq<PresetRow> {
    seq![
        row("Nashville Clean"@, "Tele into a Fender Twin. Bright, twangy, chicken-pickin' snap."@, seq!["country", "nashville", "telecaster", "twin", "twang"], 15, 80, 40, 50, 70, 5, 0),
        row("Brad Paisley"@, "Brad's cranked Fender DRRI. Twang with a bite. Modern country lead."@, seq!["country", "brad-paisley", "fender", "twang", "lead"], 40, 65, 40, 55, 70, 35, 0),
        row("Brent Mason"@, "Nashville session legend. Ultra-clean, dynamic, perfect Tele snap."@, seq!["country", "brent-mason", "session", "telecaster", "nashville"], 20, 75, 45, 55, 65, 10, 0),
        row("Johnny Hiland"@, "Blazing Tele through a clean Fender. Twang at warp speed."@, seq!["country", "johnny-hiland", "telecaster", "fast", "twang"], 25, 70, 40, 50, 75, 15, 0),
        row("Vince Gill"@, "Singing, soulful country lead. Warm mids, clear top, tons of feel."@, seq!["country", "vince-gill", "lead", "singing"], 30, 70, 50, 60, 55, 20, 0),
        row("Albert Lee"@, "Country legend. Bright, fast, impeccably clean with a cutting edge."@, seq!["country", "albert-lee", "fast", "bright"], 25, 70, 40, 55, 70, 15, 0),
        row("James Burton"@, "Elvis's Tele man. Pioneering country-rock bite."@, seq!["country", "james-burton", "telecaster", "vintage"], 30, 65, 40, 55, 65, 20, 0),
        row("Don Rich"@, "Buck Owens' right hand. Pure Bakersfield twang. Bright, cutting, classic."@, seq!["country", "don-rich", "bakersfield", "twang"], 25, 65, 35, 50, 75, 15, 0),
        row("Chet Atkins"@, "Mr. Guitar. Warm, finger-picked perfection through a clean Fender."@, seq!["country", "chet-atkins", "fingerstyle", "warm"], 20, 70, 50, 60, 50, 10, 0),
        row("Tele Twang"@, "Pure Tele bridge into a clean Fender. Country in a box."@, seq!["country", "telecaster", "twang", "bridge"], 15, 75, 35, 50, 75, 5, 0),
        row("Outlaw Country"@, "Waylon's cranked Fender/Marshall mix. Darker, bigger, outlaw attitude."@, seq!["country", "outlaw", "waylon", "dark"], 40, 60, 60, 55, 45, 35, 0),
    ]
}

/// Country tones.
fn country_presets() -> (v: Vec<AmpPreset>)
    ensures
        v@.len() == 11,
        preset_rows(v@) == country_table(),
        forall|i: int| 0 <= i < v@.len() ==> #[trigger] is_guitar_preset(v@[i]),
{
    let v = vec![
        AmpPreset::new("Nashville Clean", "Tele into a Fender Twin. Bright, twangy, chicken-pickin' snap.", vec!["country", "nashville", "telecaster", "twin", "twang"], 15, 80, 40, 50, 70, 5),
        AmpPreset::new("Brad Paisley", "Brad's cranked Fender DRRI. Twang with a bite. Modern country lead.", vec!["country", "brad-paisley", "fender", "twang", "lead"], 40, 65, 40, 55, 70, 35),
        AmpPreset::new("Brent Mason", "Nashville session legend. Ultra-clean, dynamic, perfect Tele snap.", vec!["country", "brent-mason", "session", "telecaster", "nashville"], 20, 75, 45, 55, 65, 10),
        AmpPreset::new("Johnny Hiland", "Blazing Tele through a clean Fender. Twang at warp speed.", vec!["country", "johnny-hiland", "telecaster", "fast", "twang"], 25, 70, 40, 50, 75, 15),
        AmpPreset::new("Vince Gill", "Singing, soulful country lead. Warm mids, clear top, tons of feel.", vec!["country", "vince-gill", "lead", "singing"], 30, 70, 50, 60, 55, 20),
        AmpPreset::new("Albert Lee", "Country legend. Bright, fast, impeccably clean with a cutting edge.", vec!["country", "albert-lee", "fast", "bright"], 25, 70, 40, 55, 70, 15),
        AmpPreset::new("James Burton", "Elvis's Tele man. Pioneering country-rock bite.", vec!["country", "james-burton", "telecaster", "vintage"], 30, 65, 40, 55, 65, 20),
        AmpPreset::new("Don Rich", "Buck Owens' right hand. Pure Bakersfield twang. Bright, cutting, classic.", vec!["country", "don-rich", "bakersfield", "twang"], 25, 65, 35, 50, 75, 15),
        AmpPreset::new("Chet Atkins", "Mr. Guitar. Warm, finger-picked perfection through a clean Fender.", vec!["country", "chet-atkins", "fingerstyle", "warm"], 20, 70, 50, 60, 50, 10),
        AmpPreset::new("Tele Twang", "Pure Tele bridge into a clean Fender. Country in a box.", vec!["country", "telecaster", "twang", "bridge"], 15, 75, 35, 50, 75, 5),
        AmpPreset::new("Outlaw Country", "Waylon's cranked Fender/Marshall mix. Darker, bigger, outlaw attitude.", vec!["country", "outlaw", "waylon", "dark"], 40, 60, 60, 55, 45, 35),
    ];
    assert(preset_rows(v@) =~= country_table());
    v
}

/// The rows of `funk_rnb_presets`.
pub open spec fn funk_rnb_table() -> Seq<PresetRow> {
    seq![
        row("Nile Rodgers"@, "That Strat into a clean Roland. The most sampled guitar tone in history. Funky."@, seq!["funk", "nile-rodgers", "roland", "strat", "iconic"], 10, 80, 40, 50, 65, 3, 0),
        row("Cory Wong"@, "Ultra-tight, compressed funk rhythm. Clean, percussive, impossibly tight."@, seq!["funk", "cory-wong", "tight", "compressed"], 12, 80, 45, 55, 60, 5, 0),
        row("Prince"@, "Purple majesty. Crisp, funky, larger than life. Hohner into a Twin."@, seq!["funk", "prince", "fender", "funky"], 20, 70, 45, 50, 65, 10, 0),
        row("James Brown"@, "Jimmy Nolan's rhythmic assault. Clean, percussive, relentless."@, seq!["funk", "james-brown", "rhythm", "percussive"], 15, 75, 45, 55, 60, 8, 0),
        row("Sly Stone"@, "Sly's funky Fender. Deep pocket, rolling groove, swagger."@, seq!["funk", "sly-stone", "vintage", "groove"], 20, 70, 50, 55, 55, 12, 0),
        row("Earth Wind & Fire"@, "Al McKay's clean, percussive rhythm. Tight as a drum, bright as the sun."@, seq!["funk", "ewf", "al-mckay", "rhythm"], 15, 75, 40, 50, 65, 8, 0),
        row("Stevie Wonder"@, "Stevie's guitar tones. Lively, rhythmic, always in service of the song."@, seq!["funk", "stevie-wonder", "rhythm", "groove"], 20, 70, 45, 55, 60, 12, 0),
        row("Anderson .Paak"@, "Modern funk-groove. Clean, bouncy, infectious rhythm guitar."@, seq!["funk", "anderson-paak", "modern", "groove"], 20, 70, 45, 55, 60, 12, 0),
    ]
}

/// Funk and R&B tones.
fn funk_rnb_presets() -> (v: Vec<AmpPreset>)
    ensures
        v@.len() == 8,
        preset_rows(v@) == funk_rnb_table(),
        forall|i: int| 0 <= i < v@.len() ==> #[trigger] is_guitar_preset(v@[i]),
{
    let v = vec![
        AmpPreset::new("Nile Rodgers", "That Strat into a clean Roland. The most sampled guitar tone in history. Funky.", vec!["funk", "nile-rodgers", "roland", "strat", "iconic"], 10, 80, 40, 50, 65, 3),
        AmpPreset::new("Cory Wong", "Ultra-tight, compressed funk rhythm. Clean, percussive, impossibly tight.", vec!["funk", "cory-wong", "tight", "compressed"], 12, 80, 45, 55, 60, 5),
        AmpPreset::new("Prince", "Purple majesty. Crisp, funky, larger than life. Hohner into a Twin.", vec!["funk", "prince", "fender", "funky"], 20, 70, 45, 50, 65, 10),
        AmpPreset::new("James Brown", "Jimmy Nolan's rhythmic assault. Clean, percussive, relentless.", vec!["funk", "james-brown", "rhythm", "percussive"], 15, 75, 45, 55, 60, 8),
        AmpPreset::new("Sly Stone", "Sly's funky Fender. Deep pocket, rolling groove, swagger.", vec!["funk", "sly-stone", "vintage", "groove"], 20, 70, 50, 55, 55, 12),
        AmpPreset::new("Earth Wind & Fire", "Al McKay's clean, percussive rhythm. Tight as a drum, bright as the sun.", vec!["funk", "ewf", "al-mckay", "rhythm"], 15, 75, 40, 50, 65, 8),
        AmpPreset::new("Stevie Wonder", "Stevie's guitar tones. Lively, rhythmic, always in service of the song.", vec!["funk", "stevie-wonder", "rhythm", "groove"], 20, 70, 45, 55, 60, 12),
        AmpPreset::new("Anderson .Paak", "Modern funk-groove. Clean, bouncy, infectious rhythm guitar.", vec!["funk", "anderson-paak", "modern", "groove"], 20, 70, 45, 55, 60, 12),
    ];
    assert(preset_rows(v@) =~= funk_rnb_table());
    v
}

/// The rows of `shoegaze_dream_pop_presets`.
pub open spec fn shoegaze_dream_pop_table() -> Seq<PresetRow> {
    seq![
        row("Loveless"@, "My Bloody Valentine's wall of sound. Drenched, swirling, glorious noise."@, seq!["shoegaze", "my-bloody-valentine", "wall-of-sound", "noise"], 55, 60, 60, 40, 55, 55, 0),
        row("Slowdive"@, "Washy, ethereal, dreamlike. Soft distortion that floats rather than punches."@, seq!["shoegaze", "slowdive", "ethereal", "dream-pop"], 45, 60, 55, 55, 50, 40, 0),
        row("Cocteau Twins"@, "Robin Guthrie's shimmering walls. Guitars as atmosphere."@, seq!["shoegaze", "cocteau-twins", "shimmer", "atmospheric"], 35, 65, 50, 55, 65, 25, 0),
        row("Ride"@, "Oxford's finest. Swirling, jangly, just the right amount of grit."@, seq!["shoegaze", "ride", "oxford", "jangle"], 50, 55, 50, 55, 60, 45, 0),
        row("Swervedriver"@, "Heavier shoegaze. Riff-driven, driving, less dream more machine."@, seq!["shoegaze", "swervedriver", "heavy", "driving"], 60, 55, 55, 40, 55, 60, 0),
        row("Jesus and Mary Chain"@, "Feedback-soaked pop songs. Reznor-worship with pop hooks."@, seq!["shoegaze", "jesus-and-mary-chain", "feedback", "noise-pop"], 60, 55, 45, 50, 60, 60, 0),
        row("Lush"@, "Ethereal, jangly, gorgeous. The lighter side of shoegaze, all melody."@, seq!["shoegaze", "lush", "ethereal", "melodic"], 40, 65, 50, 55, 60, 30, 0),
        row("Chapterhouse"@, "Whirlpool-era swirl. Drenched in reverb, swimming in delay."@, seq!["shoegaze", "chapterhouse", "swirl", "reverb"], 45, 60, 55, 50, 55, 40, 0),
    ]
}

/// Shoegaze and dream-pop tones.
fn shoegaze_dream_pop_presets() -> (v: Vec<AmpPreset>)
    ensures
        v@.len() == 8,
        preset_rows(v@) == shoegaze_dream_pop_table(),
        forall|i: int| 0 <= i < v@.len() ==> #[trigger] is_guitar_preset(v@[i]),
{
    let v = vec![
        AmpPreset::new("Loveless", "My Bloody Valentine's wall of sound. Drenched, swirling, glorious noise.", vec!["shoegaze", "my-bloody-valentine", "wall-of-sound", "noise"], 55, 60, 60, 40, 55, 55),
        AmpPreset::new("Slowdive", "Washy, ethereal, dreamlike. Soft distortion that floats rather than punches.", vec!["shoegaze", "slowdive", "ethereal", "dream-pop"], 45, 60, 55, 55, 50, 40),
        AmpPreset::new("Cocteau Twins", "Robin Guthrie's shimmering walls. Guitars as atmosphere.", vec!["shoegaze", "cocteau-twins", "shimmer", "atmospheric"], 35, 65, 50, 55, 65, 25),
        AmpPreset::new("Ride", "Oxford's finest. Swirling, jangly, just the right amount of grit.", vec!["shoegaze", "ride", "oxford", "jangle"], 50, 55, 50, 55, 60, 45),
        AmpPreset::new("Swervedriver", "Heavier shoegaze. Riff-driven, driving, less dream more machine.", vec!["shoegaze", "swervedriver", "heavy", "driving"], 60, 55, 55, 40, 55, 60),
        AmpPreset::new("Jesus and Mary Chain", "Feedback-soaked pop songs. Reznor-worship with pop hooks.", vec!["shoegaze", "jesus-and-mary-chain", "feedback", "noise-pop"], 60, 55, 45, 50, 60, 60),
        AmpPreset::new("Lush", "Ethereal, jangly, gorgeous. The lighter side of shoegaze, all melody.", vec!["shoegaze", "lush", "ethereal", "melodic"], 40, 65, 50, 55, 60, 30),
        AmpPreset::new("Chapterhouse", "Whirlpool-era swirl. Drenched in reverb, swimming in delay.", vec!["shoegaze", "chapterhouse", "swirl", "reverb"], 45, 60, 55, 50, 55, 40),
    ];
    assert(preset_rows(v@) =~= shoegaze_dream_pop_table());
    v
}

/// The rows of `synthwave_presets`.
pub open spec fn synthwave_table() -> Seq<PresetRow> {
    seq![
        row("Synthwave Clean"@, "Bright, gated-clean tone for arpeggiated synthwave leads. Crisp attack, no mud. Riding the night."@, seq!["synthwave", "retro", "clean", "arpeggio", "bright"], 15, 80, 35, 50, 75, 5, 0),
        row("Synthwave Lead"@, "Saturated single-note lead for soaring, anthemic lines. Slight breakup for warmth."@, seq!["synthwave", "retro", "lead", "saturated", "soaring"], 50, 65, 45, 55, 70, 40, 0),
        row("OutRun Lead"@, "Punchy, gated lead with slight mid-scoop. Aggressive and clean. Testarossa decals included."@, seq!["synthwave", "outrun", "lead", "gated", "punchy"], 45, 65, 55, 35, 65, 40, 0),
        row("Kavinsky Lead"@, "Compressed, aggressive arpeggio. Searing highs, tight low-end. Drive at night."@, seq!["synthwave", "kavinsky", "arpeggio", "aggressive"], 50, 65, 40, 35, 75, 45, 0),
        row("Carpenter Brut"@, "Heavily distorted synthwave-metal. Dark, driving, relentless. The brutal side of retro."@, seq!["synthwave", "carpenter-brut", "heavy", "dark", "distorted"], 70, 50, 60, 25, 60, 75, 0),
        row("Perturbator Dark"@, "Dark, reverb-drenched lead. Low-mid focused, crushed highs. Cyberpunk menace."@, seq!["synthwave", "perturbator", "dark", "cyberpunk", "menacing"], 60, 55, 65, 40, 40, 55, 0),
        row("FM-84 Chime"@, "Bright, jangly, chorus-soaked rhythm. Sunset-drive Californian tone."@, seq!["synthwave", "fm-84", "jangle", "bright", "chime"], 20, 75, 35, 50, 75, 10, 0),
        row("The Midnight Warm"@, "Warm, clean arpeggio tone. Slight compression, gentle top-end. Night-river cruise."@, seq!["synthwave", "the-midnight", "warm", "arpeggio", "clean"], 20, 75, 50, 60, 55, 10, 0),
        row("Gunship Saturated"@, "Saturated, compressed riff tone. Thick layers of syncopated guitar over analog synths."@, seq!["synthwave", "gunship", "saturated", "compressed"], 65, 55, 55, 40, 60, 65, 0),
        row("RetroWave Rhythm"@, "Clean, percussive, chorus-friendly rhythm. The backbone of any good synthwave track."@, seq!["synthwave", "retrowave", "rhythm", "clean", "percussive"], 20, 75, 40, 55, 65, 10, 0),
        row("Miami Vice Clean"@, "Tuxedo-bright, pastel-clean. For those 80s detective show moments. The neon aesthetic."@, seq!["synthwave", "miami-vice", "80s", "clean", "aesthetic"], 12, 80, 35, 50, 80, 5, 0),
        row("Dark Synth Lead"@, "Menacing, mid-heavy lead for dark synthwave. Giallo-inspired horror melody."@, seq!["synthwave", "dark-synth", "lead", "horror", "mid-heavy"], 55, 60, 55, 60, 50, 55, 0),
        row("Cyberpunk Drive"@, "Gritty, distorted rhythm for dystopian cyberpunk riffs. Bladerunner meets hard rock."@, seq!["synthwave", "cyberpunk", "drive", "dystopian", "gritty"], 65, 55, 60, 30, 55, 65, 0),
        row("Synth Bass"@, "Picked, sub-heavy tone mimicking analog synth bass. Low-end focus, rolled-off highs."@, seq!["synthwave", "synth-bass", "low-end", "sub-heavy"], 25, 80, 90, 60, 15, 10, 0),
    ]
}

/// Synthwave tones.
fn synthwave_presets() -> (v: Vec<AmpPreset>)
    ensures
        v@.len() == 14,
        preset_rows(v@) == synthwave_table(),
        forall|i: int| 0 <= i < v@.len() ==> #[trigger] is_guitar_preset(v@[i]),
{
    let v = vec![
        AmpPreset::new("Synthwave Clean", "Bright, gated-clean tone for arpeggiated synthwave leads. Crisp attack, no mud. Riding the night.", vec!["synthwave", "retro", "clean", "arpeggio", "bright"], 15, 80, 35, 50, 75, 5),
        AmpPreset::new("Synthwave Lead", "Saturated single-note lead for soaring, anthemic lines. Slight breakup for warmth.", vec!["synthwave", "retro", "lead", "saturated", "soaring"], 50, 65, 45, 55, 70, 40),
        AmpPreset::new("OutRun Lead", "Punchy, gated lead with slight mid-scoop. Aggressive and clean. Testarossa decals included.", vec!["synthwave", "outrun", "lead", "gated", "punchy"], 45, 65, 55, 35, 65, 40),
        AmpPreset::new("Kavinsky Lead", "Compressed, aggressive arpeggio. Searing highs, tight low-end. Drive at night.", vec!["synthwave", "kavinsky", "arpeggio", "aggressive"], 50, 65, 40, 35, 75, 45),
        AmpPreset::new("Carpenter Brut", "Heavily distorted synthwave-metal. Dark, driving, relentless. The brutal side of retro.", vec!["synthwave", "carpenter-brut", "heavy", "dark", "distorted"], 70, 50, 60, 25, 60, 75),
        AmpPreset::new("Perturbator Dark", "Dark, reverb-drenched lead. Low-mid focused, crushed highs. Cyberpunk menace.", vec!["synthwave", "perturbator", "dark", "cyberpunk", "menacing"], 60, 55, 65, 40, 40, 55),
        AmpPreset::new("FM-84 Chime", "Bright, jangly, chorus-soaked rhythm. Sunset-drive Californian tone.", vec!["synthwave", "fm-84", "jangle", "bright", "chime"], 20, 75, 35, 50, 75, 10),
        AmpPreset::new("The Midnight Warm", "Warm, clean arpeggio tone. Slight compression, gentle top-end. Night-river cruise.", vec!["synthwave", "the-midnight", "warm", "arpeggio", "clean"], 20, 75, 50, 60, 55, 10),
        AmpPreset::new("Gunship Saturated", "Saturated, compressed riff tone. Thick layers of syncopated guitar over analog synths.", vec!["synthwave", "gunship", "saturated", "compressed"], 65, 55, 55, 40, 60, 65),
        AmpPreset::new("RetroWave Rhythm", "Clean, percussive, chorus-friendly rhythm. The backbone of any good synthwave track.", vec!["synthwave", "retrowave", "rhythm", "clean", "percussive"], 20, 75, 40, 55, 65, 10),
        AmpPreset::new("Miami Vice Clean", "Tuxedo-bright, pastel-clean. For those 80s detective show moments. The neon aesthetic.", vec!["synthwave", "miami-vice", "80s", "clean", "aesthetic"], 12, 80, 35, 50, 80, 5),
        AmpPreset::new("Dark Synth Lead", "Menacing, mid-heavy lead for dark synthwave. Giallo-inspired horror melody.", vec!["synthwave", "dark-synth", "lead", "horror", "mid-heavy"], 55, 60, 55, 60, 50, 55),
        AmpPreset::new("Cyberpunk Drive", "Gritty, distorted rhythm for dystopian cyberpunk riffs. Bladerunner meets hard rock.", vec!["synthwave", "cyberpunk", "drive", "dystopian", "gritty"], 65, 55, 60, 30, 55, 65),
        AmpPreset::new("Synth Bass", "Picked, sub-heavy tone mimicking analog synth bass. Low-end focus, rolled-off highs.", vec!["synthwave", "synth-bass", "low-end", "sub-heavy"], 25, 80, 90, 60, 15, 10),
    ];
    assert(preset_rows(v@) =~= synthwave_table());
    v
}

/// The rows of `ambient_experimental_presets`.
pub open spec fn ambient_experimental_table() -> Seq<PresetRow> {
    seq![
        row("Ambient Clean"@, "Pristine, open clean. Maximum headroom for delay and reverb to work their magic."@, seq!["ambient", "clean", "pristine", "pedal-platform"], 10, 85, 50, 55, 55, 3, 0),
        row("Frippertronics"@, "Robert Fripp's looping tone. Clear, articulate, extended high-frequency response."@, seq!["ambient", "fripp", "loop", "experimental"], 20, 80, 50, 55, 60, 8, 0),
        row("Lanois Pad"@, "Daniel Lanois' ambient edge. Warm, organic, slightly broken. Beautiful."@, seq!["ambient", "lanois", "warm", "organic"], 35, 70, 55, 60, 50, 25, 0),
        row("Bill Frisell"@, "Frisell's quirky, effects-laden clean. Surprising, textural, utterly unique."@, seq!["ambient", "bill-frisell", "experimental", "textural"], 25, 70, 50, 55, 55, 15, 0),
        row("David Torn"@, "Splintered, processed, chaotic. A canvas for processing more than a tone."@, seq!["ambient", "david-torn", "experimental", "processed"], 40, 65, 55, 50, 55, 35, 0),
        row("E-Bow Pad"@, "Clean, compressed, mid-pushed. Optimized for e-bow sustain and harmonic swells."@, seq!["ambient", "e-bow", "sustain", "pad"], 20, 75, 55, 65, 50, 8, 0),
        row("Swell Pad"@, "Smooth, violin-like tone. Rolled-off attack for volume pedal swells."@, seq!["ambient", "swell", "pad", "smooth"], 15, 80, 55, 60, 50, 5, 0),
        row("Reverse Ambience"@, "Mid-heavy, compressed tone for reverse delay. Haunting textures."@, seq!["ambient", "reverse", "delay", "haunting"], 30, 70, 50, 60, 55, 20, 0),
    ]
}

/// Ambient and experimental tones.
fn ambient_experimental_presets() -> (v: Vec<AmpPreset>)
    ensures
        v@.len() == 8,
        preset_rows(v@) == ambient_experimental_table(),
        forall|i: int| 0 <= i < v@.len() ==> #[trigger] is_guitar_preset(v@[i]),
{
    let v = vec![
        AmpPreset::new("Ambient Clean", "Pristine, open clean. Maximum headroom for delay and reverb to work their magic.", vec!["ambient", "clean", "pristine", "pedal-platform"], 10, 85, 50, 55, 55, 3),
        AmpPreset::new("Frippertronics", "Robert Fripp's looping tone. Clear, articulate, extended high-frequency response.", vec!["ambient", "fripp", "loop", "experimental"], 20, 80, 50, 55, 60, 8),
        AmpPreset::new("Lanois Pad", "Daniel Lanois' ambient edge. Warm, organic, slightly broken. Beautiful.", vec!["ambient", "lanois", "warm", "organic"], 35, 70, 55, 60, 50, 25),
        AmpPreset::new("Bill Frisell", "Frisell's quirky, effects-laden clean. Surprising, textural, utterly unique.", vec!["ambient", "bill-frisell", "experimental", "textural"], 25, 70, 50, 55, 55, 15),
        AmpPreset::new("David Torn", "Splintered, processed, chaotic. A canvas for processing more than a tone.", vec!["ambient", "david-torn", "experimental", "processed"], 40, 65, 55, 50, 55, 35),
        AmpPreset::new("E-Bow Pad", "Clean, compressed, mid-pushed. Optimized for e-bow sustain and harmonic swells.", vec!["ambient", "e-bow", "sustain", "pad"], 20, 75, 55, 65, 50, 8),
        AmpPreset::new("Swell Pad", "Smooth, violin-like tone. Rolled-off attack for volume pedal swells.", vec!["ambient", "swell", "pad", "smooth"], 15, 80, 55, 60, 50, 5),
        AmpPreset::new("Reverse Ambience", "Mid-heavy, compressed tone for reverse delay. Haunting textures.", vec!["ambient", "reverse", "delay", "haunting"], 30, 70, 50, 60, 55, 20),
    ];
    assert(preset_rows(v@) =~= ambient_experimental_table());
    v
}

/// The rows of `bass_amp_presets`.
pub open spec fn bass_amp_table() -> Seq<PresetRow> {
    seq![
        // ── Clean / Classic Rock ──
        row("SVT Clean"@, "Ampeg SVT. Massive lows, clear mids. The bass tone that defined rock. Deep, punchy, authoritative."@, seq!["bass", "clean", "ampeg", "svt", "rock"], 20, 80, 85, 55, 30, 8, FULL_LEVEL),
        row("SVT Grind"@, "Ampeg SVT pushed. That classic rock grind with the SVT's unmistakable low-end thump."@, seq!["bass", "crunch", "ampeg", "svt", "rock"], 45, 70, 85, 55, 30, 40, FULL_LEVEL),
        row("Bassman Bass"@, "Fender Bassman for bass. Warm, round woody tone. The sound of the P-bass through a tweed."@, seq!["bass", "clean", "fender", "bassman", "vintage"], 20, 75, 80, 55, 25, 10, FULL_LEVEL),
        row("Vintage P-Bass"@, "Precision Bass into a tube amp. Fat, thumpy, fundamental. The sound of rock and roll."@, seq!["bass", "clean", "p-bass", "vintage", "thumpy"], 25, 75, 80, 55, 30, 12, FULL_LEVEL),
        row("Vintage J-Bass"@, "Jazz Bass into a clean amp. Mid-forward with that signature bridge pickup growl."@, seq!["bass", "clean", "j-bass", "vintage", "growl"], 25, 75, 70, 60, 40, 12, FULL_LEVEL),
        row("Flatwound P"@, "P-Bass with flats. Deep, thuddy, smooth. Motown and old-school soul."@, seq!["bass", "clean", "flatwound", "motown", "smooth"], 20, 80, 85, 60, 15, 5, FULL_LEVEL),
        row("Motown Thump"@, "James Jamerson's tone. Deep, round, fingerstyle. The sound of the classic Motown records."@, seq!["bass", "clean", "motown", "jamerson", "thump"], 20, 80, 90, 60, 20, 8, FULL_LEVEL),
        row("Studio Precision"@, "Clean, focused, sits perfectly in a mix. The engineer's choice for tracked P-bass."@, seq!["bass", "clean", "studio", "precision", "session"], 18, 80, 75, 55, 35, 8, FULL_LEVEL),
        row("SVT Scooped"@, "Ampeg SVT with mids pulled back. Big lows and sizzling highs. Slap-friendly."@, seq!["bass", "clean", "ampeg", "svt", "scooped"], 25, 80, 85, 25, 55, 12, FULL_LEVEL),
        row("British Valve"@, "Marshall Super Bass 100. Growly, aggressive, rock-solid low-end."@, seq!["bass", "clean", "marshall", "british", "valve"], 30, 75, 75, 55, 40, 25, FULL_LEVEL),
        // ── Modern Rock / Alt ──
        row("Modern Rock"@, "Punchy mid-forward rock bass. Cut-through presence with tight lows."@, seq!["bass", "rock", "modern", "punchy", "mid"], 35, 75, 70, 60, 45, 30, FULL_LEVEL),
        row("Alt Rock"@, "Alternative rock bass. Gritty, present, slightly overdriven edge."@, seq!["bass", "rock", "alt", "gritty", "overdriven"], 40, 70, 70, 55, 45, 35, FULL_LEVEL),
        row("Indie Bass"@, "Clean, jangly indie bass tone. Articulate and punchy without being aggressive."@, seq!["bass", "indie", "clean", "articulate"], 25, 78, 70, 55, 40, 15, FULL_LEVEL),
        row("Grind Bass"@, "Gritty, grinding rock tone. Broken-in tubes, aggressive pick attack, attitude."@, seq!["bass", "rock", "grind", "aggressive", "pick"], 50, 65, 75, 55, 40, 50, FULL_LEVEL),
        row("Foo Fighters Bass"@, "Nate Mendel's clean-but-present tone. Medium grind, great note definition."@, seq!["bass", "rock", "foo-fighters", "clean"], 30, 75, 70, 50, 45, 22, FULL_LEVEL),
        // ── Metal Bass ──
        row("Darkglass Drive"@, "Darkglass Microtubes. Modern aggressive bass with saturated distortion and crushing articulation."@, seq!["bass", "metal", "darkglass", "drive", "aggressive"], 65, 55, 75, 35, 45, 60, FULL_LEVEL),
        row("Darkglass Alpha"@, "Darkglass Alpha Omega. Versatile metal distortion with growling mids and tight low-end."@, seq!["bass", "metal", "darkglass", "alpha-omega", "tight"], 60, 55, 70, 40, 45, 60, FULL_LEVEL),
        row("Darkglass X"@, "Darkglass Ultra. Modern high-gain bass distortion. Cutting, aggressive, gnarly."@, seq!["bass", "metal", "darkglass", "ultra", "high-gain"], 70, 50, 70, 35, 50, 70, FULL_LEVEL),
        row("Mesa Bass Drive"@, "Mesa Bass 400 pushed. Huge, aggressive growl with that Mesa mid-voice."@, seq!["bass", "metal", "mesa", "drive", "growl"], 55, 60, 80, 45, 35, 55, FULL_LEVEL),
        row("SVT Metal"@, "Ampeg SVT into overdrive. Classic metal bass — thick, grinding, enormous."@, seq!["bass", "metal", "ampeg", "svt", "crunch"], 55, 60, 80, 40, 35, 55, FULL_LEVEL),
        row("Djent Bass"@, "Tight, percussive modern metal. Compressed attack, controlled lows, massive mids."@, seq!["bass", "metal", "djent", "tight", "percussive"], 60, 55, 65, 50, 50, 65, FULL_LEVEL),
        row("Tech Death"@, "Technical death metal bass. Articulate, cutting, extreme clarity at high speed."@, seq!["bass", "metal", "tech-death", "articulate"], 55, 60, 65, 50, 55, 55, FULL_LEVEL),
        row("Black Metal Bass"@, "Treble-heavy, aggressive, cold. Minimal lows, cutting mids, raw attack."@, seq!["bass", "metal", "black-metal", "cold", "aggressive"], 55, 60, 40, 55, 75, 60, FULL_LEVEL),
        row("Thrash Bass"@, "Aggressive picked thrash tone. Mid-forward, cutting, no low-end flab."@, seq!["bass", "metal", "thrash", "picked", "aggressive"], 55, 60, 55, 60, 55, 60, FULL_LEVEL),
        row("Nu-Metal Bass"@, "Dropped-tuning aggressive bass. Big lows, scooped mids, percussive attack."@, seq!["bass", "metal", "nu-metal", "dropped", "scooped"], 60, 55, 80, 20, 55, 65, FULL_LEVEL),
        row("Doom Bass"@, "Thick, sludgy, earth-shaking bass. Maximum low-end, rolled-off highs, crushing weight."@, seq!["bass", "doom", "sludge", "heavy", "low"], 65, 60, 95, 35, 10, 65, FULL_LEVEL),
        row("Stoner Bass"@, "Fuzzy, thick, wall-of-sound bass. Big muff-style saturation for desert riffs."@, seq!["bass", "stoner", "fuzz", "thick", "desert"], 60, 60, 85, 45, 25, 60, FULL_LEVEL),
        // ── Jazz / Fusion ──
        row("Jazz Bass Clean"@, "Warm, woody, articulate. The quintessential jazz bass tone. Rounds and upright-style."@, seq!["bass", "jazz", "clean", "warm", "woody"], 20, 80, 75, 60, 30, 10, FULL_LEVEL),
        row("Fusion Bass"@, "Modern fusion. Clean, punchy, with extended highs for slap and solo work."@, seq!["bass", "fusion", "clean", "punchy", "solo"], 25, 78, 65, 50, 50, 15, FULL_LEVEL),
        row("Jazz Solo"@, "Mid-forward solo bass tone. Singing, vocal, with cut-through presence."@, seq!["bass", "jazz", "solo", "mid", "vocal"], 30, 75, 60, 70, 45, 25, FULL_LEVEL),
        row("Upright Sim"@, "Electric bass EQ'd to approximate upright bass. Warm, round, rolled-off top-end."@, seq!["bass", "jazz", "upright", "sim", "acoustic"], 20, 80, 80, 65, 15, 8, FULL_LEVEL),
        row("Marcus Miller"@, "Marcus's slapped J-Bass. Aggressive mids, smacking highs, huge dynamic range."@, seq!["bass", "jazz", "marcus-miller", "slap", "aggressive"], 35, 75, 60, 65, 55, 30, FULL_LEVEL),
        row("Victor Wooten"@, "Victor's signature modern tone. Clean, articulate, massive dynamic headroom."@, seq!["bass", "fusion", "victor-wooten", "clean", "articulate"], 25, 80, 65, 55, 50, 12, FULL_LEVEL),
        row("Jaco Tone"@, "Jaco's fretless J-Bass tone. Mid-rich, singing, glassy top-end. The sound of electric bass revolution."@, seq!["bass", "jazz", "jaco", "fretless", "mid"], 25, 80, 60, 70, 55, 15, FULL_LEVEL),
        row("Christian McBride"@, "Modern jazz master. Thick, round, deeply swinging. Walking lines that push the band."@, seq!["bass", "jazz", "christian-mcbride", "walking", "thick"], 25, 78, 80, 60, 30, 15, FULL_LEVEL),
        // ── Funk / R&B ──
        row("Get Lucky"@, "Nathan East's 'Get Lucky' bass. Clean, warm fingerstyle funk. Pocket so deep you'll never leave the dancefloor."@, seq!["bass", "funk", "daft-punk", "nathan-east", "pocket"], 25, 78, 65, 55, 40, 12, FULL_LEVEL),
        row("Funk Slap"@, "Percussive, bright, aggressive slap tone. Mid-scooped with punchy highs and thumping lows."@, seq!["bass", "funk", "slap", "percussive", "bright"], 30, 80, 75, 25, 65, 18, FULL_LEVEL),
        row("Bootsy Funk"@, "Bootsy Collins' cosmic funk. Deep, round, with that rubbery envelope filter thing."@, seq!["bass", "funk", "bootsy", "deep", "rubbery"], 20, 85, 85, 50, 40, 8, FULL_LEVEL),
        row("Larry Graham"@, "The originator of slap. Aggressive thumb attack, popping highs, earth-shaking lows."@, seq!["bass", "funk", "larry-graham", "slap", "originator"], 35, 80, 75, 35, 60, 25, FULL_LEVEL),
        row("R&B Bass"@, "Smooth, round modern R&B. Clean, compressed, sits perfectly in the pocket."@, seq!["bass", "rnb", "smooth", "clean", "pocket"], 20, 82, 80, 55, 35, 10, FULL_LEVEL),
        row("Neo-Soul Bass"@, "Warm, thumpy, sub-heavy. The modern neo-soul bass sound — deep and melodic."@, seq!["bass", "neo-soul", "warm", "sub", "melodic"], 18, 85, 90, 55, 20, 8, FULL_LEVEL),
        row("P-Funk"@, "Parliament-Funkadelic rubbery goodness. Deep pocket, wah-inflected, hypnotic."@, seq!["bass", "funk", "p-funk", "rubbery", "pocket"], 20, 82, 80, 50, 35, 12, FULL_LEVEL),
        // ── Reggae / Dub ──
        row("Dub Reggae"@, "Deep, round, sub-heavy. The foundation of dub reggae. Earth-shaking lows, minimal mids."@, seq!["bass", "reggae", "dub", "sub", "deep"], 15, 88, 95, 40, 8, 5, FULL_LEVEL),
        row("Roots Reggae"@, "Traditional reggae. Deep walking basslines, warm fundamentals, woody attack."@, seq!["bass", "reggae", "roots", "walking", "warm"], 18, 82, 85, 55, 20, 8, FULL_LEVEL),
        row("Rocksteady"@, "Classic rocksteady bass. Heavy, slow, deep. The transitional sound from ska to reggae."@, seq!["bass", "reggae", "rocksteady", "heavy", "slow"], 20, 82, 85, 50, 15, 10, FULL_LEVEL),
        // ── Pop / Country ──
        row("Pop Bass"@, "Clean, focused, radio-ready. Tight lows, clear mids, sits perfectly in a pop mix."@, seq!["bass", "pop", "clean", "tight", "radio"], 20, 80, 70, 55, 40, 10, FULL_LEVEL),
        row("Country Bass"@, "Fingerstyle country. Warm, woody with a pick attack. Nashville-approved."@, seq!["bass", "country", "fingerstyle", "warm", "nashville"], 20, 78, 75, 55, 35, 12, FULL_LEVEL),
        row("Americana Bass"@, "Roots rock bass. Natural, dynamic, old-school tube warmth."@, seq!["bass", "americana", "roots", "tube", "warm"], 25, 75, 75, 55, 30, 18, FULL_LEVEL),
        // ── Modern / Prog ──
        row("Modern Clean"@, "Ultra-clean modern bass. Extended range, high clarity, articulate every note."@, seq!["bass", "modern", "clean", "articulate", "extended"], 22, 80, 70, 50, 45, 12, FULL_LEVEL),
        row("Prog Bass"@, "Progressive rock bass. Dynamic, articulate, with room for both delicate and aggressive playing."@, seq!["bass", "prog", "dynamic", "articulate", "versatile"], 30, 78, 70, 55, 45, 25, FULL_LEVEL),
        row("Geddy Lee"@, "Geddy's signature growl. Pushed mids, Rickenbacker bite, that unmistakable run-through-your-fingers sound."@, seq!["bass", "prog", "geddy-lee", "rush", "growl"], 40, 70, 60, 65, 50, 40, FULL_LEVEL),
        row("Chris Squire"@, "Squire's aggressive Rickenbacker growl. Bright, mid-pushed, percussive. Yes defined."@, seq!["bass", "prog", "chris-squire", "rickenbacker", "aggressive"], 40, 70, 55, 65, 60, 40, FULL_LEVEL),
        row("John Entwistle"@, "The Ox. Aggressive, mid-forward, picked to death. Maximum attack, zero lows flab."@, seq!["bass", "rock", "entwistle", "the-who", "picked"], 50, 65, 55, 65, 55, 55, FULL_LEVEL),
        // ── Pick / Aggressive ──
        row("Pick Attack"@, "Aggressive picked bass. Bright, percussive, attack-forward. For when you need to cut."@, seq!["bass", "pick", "aggressive", "bright", "attack"], 30, 78, 65, 45, 55, 22, FULL_LEVEL),
        row("Punk Bass"@, "Raw, driving punk bass. Mid-forward, aggressive, simple and loud."@, seq!["bass", "punk", "aggressive", "raw", "loud"], 50, 65, 65, 60, 50, 50, FULL_LEVEL),
        row("Hardcore Bass"@, "Hardcore punk aggression. Maximum cut, zero subtlety. Just lows and mids and fury."@, seq!["bass", "punk", "hardcore", "aggressive", "cut"], 55, 60, 60, 65, 50, 60, FULL_LEVEL),
        // ── Drive / Fuzz ──
        row("Tube Drive"@, "Warm tube overdrive for bass. Smooth breakup, enhanced harmonics, fat compression."@, seq!["bass", "drive", "tube", "warm", "overdrive"], 50, 70, 75, 50, 35, 50, FULL_LEVEL),
        row("Fuzz Bass"@, "Wall-of-fuzz bass. Thick, saturated, completely filthy. Woolly and massive."@, seq!["bass", "fuzz", "wall", "thick", "filthy"], 65, 55, 80, 40, 25, 70, FULL_LEVEL),
        row("Synth Bass"@, "Simulated analog synth bass. Deep sub lows, rolled-off attack, filter-esque mids."@, seq!["bass", "synth", "sub", "analog", "filtered"], 20, 85, 95, 45, 10, 8, FULL_LEVEL),
        row("Distorted Bass"@, "Full distortion on bass. Grinding, saturated, aggressive. For metal and heavy rock."@, seq!["bass", "distortion", "metal", "aggressive", "saturated"], 70, 50, 70, 35, 45, 75, FULL_LEVEL),
        row("Octave Bass"@, "Simulated octave-down sub-bass. Massive low-end extension, synth-like depth."@, seq!["bass", "octave", "sub", "deep", "synth"], 20, 85, 95, 40, 10, 10, FULL_LEVEL),
    ]
}

/// Bass tones, with the bass-shifted EQ.
fn bass_amp_presets() -> (v: Vec<AmpPreset>)
    ensures
        v@.len() == 61,
        preset_rows(v@) == bass_amp_table(),
        forall|i: int| 0 <= i < v@.len() ==> #[trigger] is_bass_preset(v@[i]),
{
    let v = vec![
        // ── Clean / Classic Rock ──
        AmpPreset::new_bass("SVT Clean", "Ampeg SVT. Massive lows, clear mids. The bass tone that defined rock. Deep, punchy, authoritative.", vec!["bass", "clean", "ampeg", "svt", "rock"], 20, 80, 85, 55, 30, 8),
        AmpPreset::new_bass("SVT Grind", "Ampeg SVT pushed. That classic rock grind with the SVT's unmistakable low-end thump.", vec!["bass", "crunch", "ampeg", "svt", "rock"], 45, 70, 85, 55, 30, 40),
        AmpPreset::new_bass("Bassman Bass", "Fender Bassman for bass. Warm, round woody tone. The sound of the P-bass through a tweed.", vec!["bass", "clean", "fender", "bassman", "vintage"], 20, 75, 80, 55, 25, 10),
        AmpPreset::new_bass("Vintage P-Bass", "Precision Bass into a tube amp. Fat, thumpy, fundamental. The sound of rock and roll.", vec!["bass", "clean", "p-bass", "vintage", "thumpy"], 25, 75, 80, 55, 30, 12),
        AmpPreset::new_bass("Vintage J-Bass", "Jazz Bass into a clean amp. Mid-forward with that signature bridge pickup growl.", vec!["bass", "clean", "j-bass", "vintage", "growl"], 25, 75, 70, 60, 40, 12),
        AmpPreset::new_bass("Flatwound P", "P-Bass with flats. Deep, thuddy, smooth. Motown and old-school soul.", vec!["bass", "clean", "flatwound", "motown", "smooth"], 20, 80, 85, 60, 15, 5),
        AmpPreset::new_bass("Motown Thump", "James Jamerson's tone. Deep, round, fingerstyle. The sound of the classic Motown records.", vec!["bass", "clean", "motown", "jamerson", "thump"], 20, 80, 90, 60, 20, 8),
        AmpPreset::new_bass("Studio Precision", "Clean, focused, sits perfectly in a mix. The engineer's choice for tracked P-bass.", vec!["bass", "clean", "studio", "precision", "session"], 18, 80, 75, 55, 35, 8),
        AmpPreset::new_bass("SVT Scooped", "Ampeg SVT with mids pulled back. Big lows and sizzling highs. Slap-friendly.", vec!["bass", "clean", "ampeg", "svt", "scooped"], 25, 80, 85, 25, 55, 12),
        AmpPreset::new_bass("British Valve", "Marshall Super Bass 100. Growly, aggressive, rock-solid low-end.", vec!["bass", "clean", "marshall", "british", "valve"], 30, 75, 75, 55, 40, 25),
        // ── Modern Rock / Alt ──
        AmpPreset::new_bass("Modern Rock", "Punchy mid-forward rock bass. Cut-through presence with tight lows.", vec!["bass", "rock", "modern", "punchy", "mid"], 35, 75, 70, 60, 45, 30),
        AmpPreset::new_bass("Alt Rock", "Alternative rock bass. Gritty, present, slightly overdriven edge.", vec!["bass", "rock", "alt", "gritty", "overdriven"], 40, 70, 70, 55, 45, 35),
        AmpPreset::new_bass("Indie Bass", "Clean, jangly indie bass tone. Articulate and punchy without being aggressive.", vec!["bass", "indie", "clean", "articulate"], 25, 78, 70, 55, 40, 15),
        AmpPreset::new_bass("Grind Bass", "Gritty, grinding rock tone. Broken-in tubes, aggressive pick attack, attitude.", vec!["bass", "rock", "grind", "aggressive", "pick"], 50, 65, 75, 55, 40, 50),
        AmpPreset::new_bass("Foo Fighters Bass", "Nate Mendel's clean-but-present tone. Medium grind, great note definition.", vec!["bass", "rock", "foo-fighters", "clean"], 30, 75, 70, 50, 45, 22),
        // ── Metal Bass ──
        AmpPreset::new_bass("Darkglass Drive", "Darkglass Microtubes. Modern aggressive bass with saturated distortion and crushing articulation.", vec!["bass", "metal", "darkglass", "drive", "aggressive"], 65, 55, 75, 35, 45, 60),
        AmpPreset::new_bass("Darkglass Alpha", "Darkglass Alpha Omega. Versatile metal distortion with growling mids and tight low-end.", vec!["bass", "metal", "darkglass", "alpha-omega", "tight"], 60, 55, 70, 40, 45, 60),
        AmpPreset::new_bass("Darkglass X", "Darkglass Ultra. Modern high-gain bass distortion. Cutting, aggressive, gnarly.", vec!["bass", "metal", "darkglass", "ultra", "high-gain"], 70, 50, 70, 35, 50, 70),
        AmpPreset::new_bass("Mesa Bass Drive", "Mesa Bass 400 pushed. Huge, aggressive growl with that Mesa mid-voice.", vec!["bass", "metal", "mesa", "drive", "growl"], 55, 60, 80, 45, 35, 55),
        AmpPreset::new_bass("SVT Metal", "Ampeg SVT into overdrive. Classic metal bass — thick, grinding, enormous.", vec!["bass", "metal", "ampeg", "svt", "crunch"], 55, 60, 80, 40, 35, 55),
        AmpPreset::new_bass("Djent Bass", "Tight, percussive modern metal. Compressed attack, controlled lows, massive mids.", vec!["bass", "metal", "djent", "tight", "percussive"], 60, 55, 65, 50, 50, 65),
        AmpPreset::new_bass("Tech Death", "Technical death metal bass. Articulate, cutting, extreme clarity at high speed.", vec!["bass", "metal", "tech-death", "articulate"], 55, 60, 65, 50, 55, 55),
        AmpPreset::new_bass("Black Metal Bass", "Treble-heavy, aggressive, cold. Minimal lows, cutting mids, raw attack.", vec!["bass", "metal", "black-metal", "cold", "aggressive"], 55, 60, 40, 55, 75, 60),
        AmpPreset::new_bass("Thrash Bass", "Aggressive picked thrash tone. Mid-forward, cutting, no low-end flab.", vec!["bass", "metal", "thrash", "picked", "aggressive"], 55, 60, 55, 60, 55, 60),
        AmpPreset::new_bass("Nu-Metal Bass", "Dropped-tuning aggressive bass. Big lows, scooped mids, percussive attack.", vec!["bass", "metal", "nu-metal", "dropped", "scooped"], 60, 55, 80, 20, 55, 65),
        AmpPreset::new_bass("Doom Bass", "Thick, sludgy, earth-shaking bass. Maximum low-end, rolled-off highs, crushing weight.", vec!["bass", "doom", "sludge", "heavy", "low"], 65, 60, 95, 35, 10, 65),
        AmpPreset::new_bass("Stoner Bass", "Fuzzy, thick, wall-of-sound bass. Big muff-style saturation for desert riffs.", vec!["bass", "stoner", "fuzz", "thick", "desert"], 60, 60, 85, 45, 25, 60),
        // ── Jazz / Fusion ──
        AmpPreset::new_bass("Jazz Bass Clean", "Warm, woody, articulate. The quintessential jazz bass tone. Rounds and upright-style.", vec!["bass", "jazz", "clean", "warm", "woody"], 20, 80, 75, 60, 30, 10),
        AmpPreset::new_bass("Fusion Bass", "Modern fusion. Clean, punchy, with extended highs for slap and solo work.", vec!["bass", "fusion", "clean", "punchy", "solo"], 25, 78, 65, 50, 50, 15),
        AmpPreset::new_bass("Jazz Solo", "Mid-forward solo bass tone. Singing, vocal, with cut-through presence.", vec!["bass", "jazz", "solo", "mid", "vocal"], 30, 75, 60, 70, 45, 25),
        AmpPreset::new_bass("Upright Sim", "Electric bass EQ'd to approximate upright bass. Warm, round, rolled-off top-end.", vec!["bass", "jazz", "upright", "sim", "acoustic"], 20, 80, 80, 65, 15, 8),
        AmpPreset::new_bass("Marcus Miller", "Marcus's slapped J-Bass. Aggressive mids, smacking highs, huge dynamic range.", vec!["bass", "jazz", "marcus-miller", "slap", "aggressive"], 35, 75, 60, 65, 55, 30),
        AmpPreset::new_bass("Victor Wooten", "Victor's signature modern tone. Clean, articulate, massive dynamic headroom.", vec!["bass", "fusion", "victor-wooten", "clean", "articulate"], 25, 80, 65, 55, 50, 12),
        AmpPreset::new_bass("Jaco Tone", "Jaco's fretless J-Bass tone. Mid-rich, singing, glassy top-end. The sound of electric bass revolution.", vec!["bass", "jazz", "jaco", "fretless", "mid"], 25, 80, 60, 70, 55, 15),
        AmpPreset::new_bass("Christian McBride", "Modern jazz master. Thick, round, deeply swinging. Walking lines that push the band.", vec!["bass", "jazz", "christian-mcbride", "walking", "thick"], 25, 78, 80, 60, 30, 15),
        // ── Funk / R&B ──
        AmpPreset::new_bass("Get Lucky", "Nathan East's 'Get Lucky' bass. Clean, warm fingerstyle funk. Pocket so deep you'll never leave the dancefloor.", vec!["bass", "funk", "daft-punk", "nathan-east", "pocket"], 25, 78, 65, 55, 40, 12),
        AmpPreset::new_bass("Funk Slap", "Percussive, bright, aggressive slap tone. Mid-scooped with punchy highs and thumping lows.", vec!["bass", "funk", "slap", "percussive", "bright"], 30, 80, 75, 25, 65, 18),
        AmpPreset::new_bass("Bootsy Funk", "Bootsy Collins' cosmic funk. Deep, round, with that rubbery envelope filter thing.", vec!["bass", "funk", "bootsy", "deep", "rubbery"], 20, 85, 85, 50, 40, 8),
        AmpPreset::new_bass("Larry Graham", "The originator of slap. Aggressive thumb attack, popping highs, earth-shaking lows.", vec!["bass", "funk", "larry-graham", "slap", "originator"], 35, 80, 75, 35, 60, 25),
        AmpPreset::new_bass("R&B Bass", "Smooth, round modern R&B. Clean, compressed, sits perfectly in the pocket.", vec!["bass", "rnb", "smooth", "clean", "pocket"], 20, 82, 80, 55, 35, 10),
        AmpPreset::new_bass("Neo-Soul Bass", "Warm, thumpy, sub-heavy. The modern neo-soul bass sound — deep and melodic.", vec!["bass", "neo-soul", "warm", "sub", "melodic"], 18, 85, 90, 55, 20, 8),
        AmpPreset::new_bass("P-Funk", "Parliament-Funkadelic rubbery goodness. Deep pocket, wah-inflected, hypnotic.", vec!["bass", "funk", "p-funk", "rubbery", "pocket"], 20, 82, 80, 50, 35, 12),
        // ── Reggae / Dub ──
        AmpPreset::new_bass("Dub Reggae", "Deep, round, sub-heavy. The foundation of dub reggae. Earth-shaking lows, minimal mids.", vec!["bass", "reggae", "dub", "sub", "deep"], 15, 88, 95, 40, 8, 5),
        AmpPreset::new_bass("Roots Reggae", "Traditional reggae. Deep walking basslines, warm fundamentals, woody attack.", vec!["bass", "reggae", "roots", "walking", "warm"], 18, 82, 85, 55, 20, 8),
        AmpPreset::new_bass("Rocksteady", "Classic rocksteady bass. Heavy, slow, deep. The transitional sound from ska to reggae.", vec!["bass", "reggae", "rocksteady", "heavy", "slow"], 20, 82, 85, 50, 15, 10),
        // ── Pop / Country ──
        AmpPreset::new_bass("Pop Bass", "Clean, focused, radio-ready. Tight lows, clear mids, sits perfectly in a pop mix.", vec!["bass", "pop", "clean", "tight", "radio"], 20, 80, 70, 55, 40, 10),
        AmpPreset::new_bass("Country Bass", "Fingerstyle country. Warm, woody with a pick attack. Nashville-approved.", vec!["bass", "country", "fingerstyle", "warm", "nashville"], 20, 78, 75, 55, 35, 12),
        AmpPreset::new_bass("Americana Bass", "Roots rock bass. Natural, dynamic, old-school tube warmth.", vec!["bass", "americana", "roots", "tube", "warm"], 25, 75, 75, 55, 30, 18),
        // ── Modern / Prog ──
        AmpPreset::new_bass("Modern Clean", "Ultra-clean modern bass. Extended range, high clarity, articulate every note.", vec!["bass", "modern", "clean", "articulate", "extended"], 22, 80, 70, 50, 45, 12),
        AmpPreset::new_bass("Prog Bass", "Progressive rock bass. Dynamic, articulate, with room for both delicate and aggressive playing.", vec!["bass", "prog", "dynamic", "articulate", "versatile"], 30, 78, 70, 55, 45, 25),
        AmpPreset::new_bass("Geddy Lee", "Geddy's signature growl. Pushed mids, Rickenbacker bite, that unmistakable run-through-your-fingers sound.", vec!["bass", "prog", "geddy-lee", "rush", "growl"], 40, 70, 60, 65, 50, 40),
        AmpPreset::new_bass("Chris Squire", "Squire's aggressive Rickenbacker growl. Bright, mid-pushed, percussive. Yes defined.", vec!["bass", "prog", "chris-squire", "rickenbacker", "aggressive"], 40, 70, 55, 65, 60, 40),
        AmpPreset::new_bass("John Entwistle", "The Ox. Aggressive, mid-forward, picked to death. Maximum attack, zero lows flab.", vec!["bass", "rock", "entwistle", "the-who", "picked"], 50, 65, 55, 65, 55, 55),
        // ── Pick / Aggressive ──
        AmpPreset::new_bass("Pick Attack", "Aggressive picked bass. Bright, percussive, attack-forward. For when you need to cut.", vec!["bass", "pick", "aggressive", "bright", "attack"], 30, 78, 65, 45, 55, 22),
        AmpPreset::new_bass("Punk Bass", "Raw, driving punk bass. Mid-forward, aggressive, simple and loud.", vec!["bass", "punk", "aggressive", "raw", "loud"], 50, 65, 65, 60, 50, 50),
        AmpPreset::new_bass("Hardcore Bass", "Hardcore punk aggression. Maximum cut, zero subtlety. Just lows and mids and fury.", vec!["bass", "punk", "hardcore", "aggressive", "cut"], 55, 60, 60, 65, 50, 60),
        // ── Drive / Fuzz ──
        AmpPreset::new_bass("Tube Drive", "Warm tube overdrive for bass. Smooth breakup, enhanced harmonics, fat compression.", vec!["bass", "drive", "tube", "warm", "overdrive"], 50, 70, 75, 50, 35, 50),
        AmpPreset::new_bass("Fuzz Bass", "Wall-of-fuzz bass. Thick, saturated, completely filthy. Woolly and massive.", vec!["bass", "fuzz", "wall", "thick", "filthy"], 65, 55, 80, 40, 25, 70),
        AmpPreset::new_bass("Synth Bass", "Simulated analog synth bass. Deep sub lows, rolled-off attack, filter-esque mids.", vec!["bass", "synth", "sub", "analog", "filtered"], 20, 85, 95, 45, 10, 8),
        AmpPreset::new_bass("Distorted Bass", "Full distortion on bass. Grinding, saturated, aggressive. For metal and heavy rock.", vec!["bass", "distortion", "metal", "aggressive", "saturated"], 70, 50, 70, 35, 45, 75),
        AmpPreset::new_bass("Octave Bass", "Simulated octave-down sub-bass. Massive low-end extension, synth-like depth.", vec!["bass", "octave", "sub", "deep", "synth"], 20, 85, 95, 40, 10, 10),
    ];
    assert(preset_rows(v@) =~= bass_amp_table());
    v
}

/// The rows of `studio_utility_presets`.
pub open spec fn studio_utility_table() -> Seq<PresetRow> {
    seq![
        row("Direct In"@, "Flat, uncolored. Use when your pedals do all the work — the amp is just a conduit."@, seq!["studio", "direct", "flat", "pedal-platform"], 15, 80, 50, 50, 50, 5, 0),
        row("Reamp Clean"@, "Transparent, high-headroom platform for reamping. No coloration, just amplification."@, seq!["studio", "reamp", "clean", "transparent"], 10, 85, 50, 50, 50, 3, 0),
        row("Pedal Platform"@, "Neutral, responsive clean tone that lets your pedals shine. The ideal blank canvas."@, seq!["studio", "pedal-platform", "clean", "neutral"], 20, 80, 50, 55, 50, 10, 0),
        row("Double Tracker"@, "Slightly mid-scooped, bright. Sits in a different space from your main tone for width."@, seq!["studio", "double-track", "width", "scooped"], 30, 70, 45, 35, 65, 20, 0),
        row("Acoustic Sim"@, "EQ'd to approximate an acoustic through a PA. Piezo-friendly."@, seq!["studio", "acoustic-sim", "piezo", "bright"], 15, 75, 30, 60, 80, 5, 0),
        row("Piezo Clean"@, "Optimized for piezo bridge pickups. Extra headroom, rolled-off low-end, airy top."@, seq!["studio", "piezo", "clean", "airy"], 12, 80, 30, 55, 75, 5, 0),
        row("Neck Pickup Warm"@, "Pushed low-mids for warm neck-pickup jazz tone. Thick, round, vocal."@, seq!["studio", "neck-pickup", "warm", "jazz"], 25, 70, 65, 65, 35, 15, 0),
        row("Bridge Pickup Cut"@, "Mid-boosted for bridge pickup punch. Cuts through any mix."@, seq!["studio", "bridge", "cutting", "punchy"], 35, 70, 45, 70, 55, 30, 0),
    ]
}

/// Studio and utility tones.
fn studio_utility_presets() -> (v: Vec<AmpPreset>)
    ensures
        v@.len() == 8,
        preset_rows(v@) == studio_utility_table(),
        forall|i: int| 0 <= i < v@.len() ==> #[trigger] is_guitar_preset(v@[i]),
{
    let v = vec![
        AmpPreset::new("Direct In", "Flat, uncolored. Use when your pedals do all the work — the amp is just a conduit.", vec!["studio", "direct", "flat", "pedal-platform"], 15, 80, 50, 50, 50, 5),
        AmpPreset::new("Reamp Clean", "Transparent, high-headroom platform for reamping. No coloration, just amplification.", vec!["studio", "reamp", "clean", "transparent"], 10, 85, 50, 50, 50, 3),
        AmpPreset::new("Pedal Platform", "Neutral, responsive clean tone that lets your pedals shine. The ideal blank canvas.", vec!["studio", "pedal-platform", "clean", "neutral"], 20, 80, 50, 55, 50, 10),
        AmpPreset::new("Double Tracker", "Slightly mid-scooped, bright. Sits in a different space from your main tone for width.", vec!["studio", "double-track", "width", "scooped"], 30, 70, 45, 35, 65, 20),
        AmpPreset::new("Acoustic Sim", "EQ'd to approximate an acoustic through a PA. Piezo-friendly.", vec!["studio", "acoustic-sim", "piezo", "bright"], 15, 75, 30, 60, 80, 5),
        AmpPreset::new("Piezo Clean", "Optimized for piezo bridge pickups. Extra headroom, rolled-off low-end, airy top.", vec!["studio", "piezo", "clean", "airy"], 12, 80, 30, 55, 75, 5),
        AmpPreset::new("Neck Pickup Warm", "Pushed low-mids for warm neck-pickup jazz tone. Thick, round, vocal.", vec!["studio", "neck-pickup", "warm", "jazz"], 25, 70, 65, 65, 35, 15),
        AmpPreset::new("Bridge Pickup Cut", "Mid-boosted for bridge pickup punch. Cuts through any mix.", vec!["studio", "bridge", "cutting", "punchy"], 35, 70, 45, 70, 55, 30),
    ];
    assert(preset_rows(v@) =~= studio_utility_table());
    v
}

/// How many presets are built in.
pub const BUILT_IN_AMP_PRESETS: usize = 294;

/// Where the bass presets start among the built-in presets.
pub const FIRST_BASS_PRESET: usize = 225;

/// How many of the built-in presets are bass presets.
pub const BASS_PRESETS: usize = 61;

/// The built-in preset table: the guitar presets by genre, then the bass
/// presets, then the studio and utility presets.
pub open spec fn built_in_table() -> Seq<PresetRow> {
    clean_table()
        + crunch_table()
        + classic_rock_table()
        + blues_table()
        + hard_rock_metal_table()
        + modern_metal_prog_table()
        + doom_stoner_table()
        + punk_hardcore_alt_table()
        + jazz_fusion_table()
        + country_table()
        + funk_rnb_table()
        + shoegaze_dream_pop_table()
        + synthwave_table()
        + ambient_experimental_table()
        + bass_amp_table()
        + studio_utility_table()
}

/// Appends `more` to `all`.
fn add_presets(all: &mut Vec<AmpPreset>, more: Vec<AmpPreset>)
    ensures
        final(all)@ == old(all)@ + more@,
        preset_rows(final(all)@) == preset_rows(old(all)@) + preset_rows(more@),
{
    let ghost added = more@;
    let mut more = more;
    all.append(&mut more);
    assert(preset_rows(all@) =~= preset_rows(old(all)@) + preset_rows(added));
}

/// Every built-in preset: the guitar presets by genre, then the bass
/// presets, then the studio and utility presets.
pub fn built_in_amp_presets() -> (all: Vec<AmpPreset>)
    ensures
        all@.len() == BUILT_IN_AMP_PRESETS,
        preset_rows(all@) == built_in_table(),
        forall|i: int| 0 <= i < all@.len() ==> if FIRST_BASS_PRESET <= i < FIRST_BASS_PRESET + BASS_PRESETS {
            is_bass_preset(#[trigger] all@[i])
        } else {
            is_guitar_preset(all@[i])
        },
{
    let mut all: Vec<AmpPreset> = Vec::new();
    add_presets(&mut all, clean_presets());
    add_presets(&mut all, crunch_presets());
    add_presets(&mut all, classic_rock_presets());
    add_presets(&mut all, blues_presets());
    add_presets(&mut all, hard_rock_metal_presets());
    add_presets(&mut all, modern_metal_prog_presets());
    add_presets(&mut all, doom_stoner_presets());
    add_presets(&mut all, punk_hardcore_alt_presets());
    add_presets(&mut all, jazz_fusion_presets());
    add_presets(&mut all, country_presets());
    add_presets(&mut all, funk_rnb_presets());
    add_presets(&mut all, shoegaze_dream_pop_presets());
    add_presets(&mut all, synthwave_presets());
    add_presets(&mut all, ambient_experimental_presets());
    add_presets(&mut all, bass_amp_presets());
    add_presets(&mut all, studio_utility_presets());
    assert(preset_rows(Seq::<AmpPreset>::empty()) =~= Seq::<PresetRow>::empty());
    all
}


/// A clamped level never exceeds the full level, and a level within range
/// is kept as it is.
pub proof fn lemma_unit_level_clamps(n: u32)
    ensures
        unit_level(n) <= FULL_LEVEL,
        n <= FULL_LEVEL ==> unit_level(n) == n,
        n > FULL_LEVEL ==> unit_level(n) == FULL_LEVEL,
{
}

} // verus!
