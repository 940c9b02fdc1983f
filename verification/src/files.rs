//! Descriptions of the files and devices the application offers: impulse
//! responses, neural amp models, audio and MIDI devices, and the JACK client.
use crate::text::{lowercase_of, to_lowercase};
use vstd::prelude::*;

verus! {

/// An impulse-response file found in one of the IR directories.
#[derive(Debug, Clone)]
pub struct IrFileInfo {
    pub path: String,
    pub name: String,
    pub sample_rate: u32,
    pub sample_count: u32,
    pub duration_ms: u32,
    pub channels: u16,
}

/// Result of loading an IR file.
#[derive(Debug, Clone)]
pub struct IrLoadResult {
    pub path: String,
    pub file_name: String,
    pub sample_rate: u32,
    pub length_samples: usize,
    pub length_ms: u32,
}

/// A `.nam` model file found in one of the NAM directories.
#[derive(Debug, Clone)]
pub struct NamFileInfo {
    pub path: String,
    pub name: String,
}

/// Metadata of a loaded neural amp model.
#[derive(Debug, Clone)]
pub struct NamModelInfo {
    pub path: String,
    pub file_name: String,
    pub architecture: String,
    pub sample_rate: u32,
    pub num_parameters: usize,
}

/// Result of loading a NAM model.
#[derive(Debug, Clone)]
pub struct NamModelLoadResult {
    pub path: String,
    pub file_name: String,
    pub architecture: String,
    pub sample_rate: u32,
    pub num_parameters: usize,
}

/// An audio device and the directions it supports.
#[derive(Debug, Clone)]
pub struct DeviceInfo {
    pub name: String,
    pub is_input: bool,
    pub is_output: bool,
}

/// MIDI device info returned to the frontend.
#[derive(Debug, Clone)]
pub struct MidiDeviceInfo {
    pub name: String,
    pub connected: bool,
}

/// Error returned when the parameter queue is at capacity.
#[derive(Debug, Clone, Copy, PartialEq, Eq, Structural)]
pub struct ParamQueueFull;

/// JACK client settings.
#[derive(Debug, Clone)]
pub struct JackConfig {
    pub client_name: String,
}

impl Default for JackConfig {
    fn default() -> (c: Self)
        ensures
            c.client_name@ == "Kicks"@,
    {
        Self { client_name: "Kicks".to_string() }
    }
}

impl JackConfig {
    /// The JACK client for the configured name; an empty name falls back
    /// to "Kicks".
    pub fn for_client_name(name: &String) -> (c: Self)
        ensures
            name@.len() == 0 ==> c.client_name@ == "Kicks"@,
            name@.len() > 0 ==> c.client_name == *name,
    {
        if name.as_str().unicode_len() == 0 {
            Self::default()
        } else {
            Self { client_name: name.clone() }
        }
    }
}

/// The playing time of `sample_count` frames at `sample_rate`, in whole
/// milliseconds (truncated to `u32`); 0 when the rate is unknown.
pub open spec fn duration_ms_spec(sample_rate: u32, sample_count: u32) -> u32 {
    if sample_rate > 0 {
        ((sample_count as int * 1000) / (sample_rate as int)) as u32
    } else {
        0
    }
}

impl IrFileInfo {
    /// The description of an IR file, from its WAV header's
    /// `(sample_rate, sample_count, channels)` when it could be read.
    pub fn new(path: String, name: String, metadata: Option<(u32, u32, u16)>) -> (i: Self)
        ensures
            i.path == path,
            i.name == name,
            match metadata {
                Some((rate, count, channels)) => {
                    &&& i.sample_rate == rate
                    &&& i.sample_count == count
                    &&& i.duration_ms == duration_ms_spec(rate, count)
                    &&& i.channels == channels
                },
                None => i.sample_rate == 0 && i.sample_count == 0 && i.duration_ms == 0
                    && i.channels == 0,
            },
    {
        match metadata {
            Some((sample_rate, sample_count, channels)) => {
                let duration_ms = if sample_rate > 0 {
                    ((sample_count as u64 * 1000) / sample_rate as u64) as u32
                } else {
                    0
                };
                IrFileInfo { path, name, sample_rate, sample_count, duration_ms, channels }
            },
            None => IrFileInfo {
                path,
                name,
                sample_rate: 0,
                sample_count: 0,
                duration_ms: 0,
                channels: 0,
            },
        }
    }
}

impl NamModelLoadResult {
    /// The load result reporting a loaded model's metadata.
    pub fn from_info(info: NamModelInfo) -> (r: Self)
        ensures
            r.path == info.path,
            r.file_name == info.file_name,
            r.architecture == info.architecture,
            r.sample_rate == info.sample_rate,
            r.num_parameters == info.num_parameters,
    {
        NamModelLoadResult {
            path: info.path,
            file_name: info.file_name,
            architecture: info.architecture,
            sample_rate: info.sample_rate,
            num_parameters: info.num_parameters,
        }
    }
}

/// Whether a file extension (in any letter case) names an impulse
/// response: WAV, IRS or NAM.
pub open spec fn ir_extension_spec(ext: Seq<char>) -> bool {
    let e = lowercase_of(ext);
    e == "wav"@ || e == "irs"@ || e == "nam"@
}

/// Whether a file extension (in any letter case) names a neural amp model.
pub open spec fn nam_extension_spec(ext: Seq<char>) -> bool {
    lowercase_of(ext) == "nam"@
}

/// Whether a file extension (in any letter case) names a WAV file.
pub open spec fn wav_extension_spec(ext: Seq<char>) -> bool {
    lowercase_of(ext) == "wav"@
}

fn is_lit(s: &String, lit: &str) -> (b: bool)
    ensures
        b == (s@ == lit@),
{
    *s == lit.to_string()
}

/// Whether a file with this extension is listed in the IR browser.
pub fn is_ir_extension(ext: &str) -> (b: bool)
    ensures
        b == ir_extension_spec(ext@),
{
    let e = to_lowercase(ext);
    is_lit(&e, "wav") || is_lit(&e, "irs") || is_lit(&e, "nam")
}

/// Whether a file with this extension is listed as a NAM model.
pub fn is_nam_extension(ext: &str) -> (b: bool)
    ensures
        b == nam_extension_spec(ext@),
{
    let e = to_lowercase(ext);
    is_lit(&e, "nam")
}

/// Whether a file with this extension has a WAV header to read.
pub fn is_wav_extension(ext: &str) -> (b: bool)
    ensures
        b == wav_extension_spec(ext@),
{
    let e = to_lowercase(ext);
    is_lit(&e, "wav")
}

/// The part of `s` after its last `c`: all of `s` when it holds no `c`,
/// nothing when it ends with one.
pub open spec fn after_last(s: Seq<char>, c: char) -> Seq<char>
    decreases s.len(),
{
    if s.len() == 0 {
        s
    } else if s.last() == c {
        seq![]
    } else {
        after_last(s.drop_last(), c).push(s.last())
    }
}

/// The file name shown for a path: what follows its last `/`.
pub fn file_name_of(path: &str) -> (name: String)
    ensures
        name@ == after_last(path@, '/'),
{
    let n = path.unicode_len();
    let mut i: usize = n;
    assert(path@.subrange(0, n as int) =~= path@);
    assert(path@.subrange(n as int, n as int) =~= Seq::<char>::empty());
    assert(after_last(path@, '/') + Seq::<char>::empty() =~= after_last(path@, '/'));
    while i > 0
        invariant
            n == path@.len(),
            i <= n,
            after_last(path@, '/') == after_last(path@.subrange(0, i as int), '/') + path@.subrange(i as int, n as int),
        decreases i,
    {
        if path.get_char(i - 1) == '/' {
            let ghost pre = path@.subrange(0, i as int);
            assert(pre.last() == '/');
            assert(after_last(pre, '/') =~= seq![]);
            assert(after_last(path@, '/') =~= path@.subrange(i as int, n as int));
            return path.substring_char(i, n).to_string();
        }
        let ghost pre = path@.subrange(0, i as int);
        assert(pre.drop_last() =~= path@.subrange(0, i - 1));
        assert(path@.subrange(i - 1, n as int) =~= seq![pre.last()] + path@.subrange(i as int, n as int));
        assert(after_last(pre, '/') + path@.subrange(i as int, n as int) =~= after_last(path@.subrange(0, i - 1), '/')
            + path@.subrange(i - 1, n as int));
        i = i - 1;
    }
    assert(path@.subrange(0, 0) =~= Seq::<char>::empty());
    assert(path@.subrange(0, n as int) =~= path@);
    path.to_string()
}


/// What follows the last `c` holds no `c`, and it ends the string: the
/// string is something that is empty or ends with `c`, followed by it.
pub proof fn lemma_after_last_is_last_part(s: Seq<char>, c: char)
    ensures
        !after_last(s, c).contains(c),
        after_last(s, c).len() <= s.len(),
        s.subrange(s.len() - after_last(s, c).len(), s.len() as int) == after_last(s, c),
        after_last(s, c).len() < s.len() ==> s[s.len() - after_last(s, c).len() - 1] == c,
        after_last(s, c).len() == s.len() ==> !s.contains(c),
    decreases s.len(),
{
    if s.len() == 0 {
    } else if s.last() == c {
        assert(s.subrange(s.len() as int, s.len() as int) =~= after_last(s, c));
    } else {
        let t = s.drop_last();
        lemma_after_last_is_last_part(t, c);
        let a = after_last(t, c);
        assert(after_last(s, c) == a.push(s.last()));
        assert(s.subrange(s.len() - a.len() - 1, s.len() as int) =~= a.push(s.last())) by {
            assert(t.subrange(t.len() - a.len(), t.len() as int) == a);
        }
        assert forall|j: int| 0 <= j < a.len() + 1 implies a.push(s.last())[j] != c by {
            if j < a.len() {
                assert(!a.contains(c));
                if a[j] == c {
                    assert(a.contains(c));
                }
            }
        }
        if a.len() + 1 == s.len() {
            assert forall|j: int| 0 <= j < s.len() implies s[j] != c by {
                if j < t.len() {
                    assert(t[j] == s[j]);
                    if t[j] == c {
                        assert(t.contains(c));
                    }
                }
            }
        } else {
            assert(s[s.len() - a.len() - 2] == t[t.len() - a.len() - 1]);
        }
    }
}

} // verus!
