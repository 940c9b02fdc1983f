//! Where the persistent state lives and what is used when it cannot be
//! read. All files live under `$XDG_CONFIG_HOME/kicks/` (default
//! `~/.config/kicks/`). Reading, parsing and writing the files is done by
//! the application; this module names the files and decides the fallback.
use crate::config::{is_default_config, KicksConfig};
use crate::midi::{is_default_midi_config, MidiConfig};
use crate::preset::PresetCollection;
use crate::scene::SceneCollection;
use crate::signal_chain::{default_chain_view, SignalChain};
use vstd::prelude::*;

verus! {

/// `name` appended to the directory `base` as a path component: a `/` is put
/// between them unless `base` is empty or already ends in one.
pub open spec fn path_join(base: Seq<char>, name: Seq<char>) -> Seq<char> {
    if base.len() == 0 || base.last() == '/' {
        base + name
    } else {
        base + "/"@ + name
    }
}

/// Appends the component `name` to the directory `base`.
pub fn join_path(base: &str, name: &str) -> (p: String)
    ensures
        p@ == path_join(base@, name@),
{
    let n = base.unicode_len();
    let mut p = base.to_string();
    if n > 0 && base.get_char(n - 1) == '/' {
        p.append(name);
    } else if n == 0 {
        p.append(name);
    } else {
        p.append("/");
        p.append(name);
    }
    p
}

/// The configuration directory for the given `XDG_CONFIG_HOME` and `HOME`
/// values (`None` when unset).
pub open spec fn config_dir_spec(xdg: Option<Seq<char>>, home: Option<Seq<char>>) -> Seq<char> {
    let base = match xdg {
        Some(x) => x,
        None => path_join(
            match home {
                Some(h) => h,
                None => "/tmp"@,
            },
            ".config"@,
        ),
    };
    path_join(base, "kicks"@)
}

pub open spec fn opt_view(o: Option<String>) -> Option<Seq<char>> {
    match o {
        Some(s) => Some(s@),
        None => None,
    }
}

/// Get the Kicks config directory (XDG-compliant) from the values of
/// `XDG_CONFIG_HOME` and `HOME`.
pub fn config_dir(xdg_config_home: Option<String>, home: Option<String>) -> (d: String)
    ensures
        d@ == config_dir_spec(opt_view(xdg_config_home), opt_view(home)),
{
    let base = match xdg_config_home {
        Some(x) => x,
        None => {
            let h = match home {
                Some(h) => h,
                None => "/tmp".to_string(),
            };
            join_path(h.as_str(), ".config")
        },
    };
    join_path(base.as_str(), "kicks")
}

/// Path to the presets JSON file.
pub fn presets_path(config_dir: &str) -> (p: String)
    ensures
        p@ == path_join(config_dir@, "presets.json"@),
{
    join_path(config_dir, "presets.json")
}

/// Path to the config JSON file.
pub fn config_path(config_dir: &str) -> (p: String)
    ensures
        p@ == path_join(config_dir@, "config.json"@),
{
    join_path(config_dir, "config.json")
}

/// Path to the signal chain JSON file (auto-saved on changes).
pub fn signal_chain_path(config_dir: &str) -> (p: String)
    ensures
        p@ == path_join(config_dir@, "signal_chain.json"@),
{
    join_path(config_dir, "signal_chain.json")
}

/// Path to the MIDI config JSON file.
pub fn midi_config_path(config_dir: &str) -> (p: String)
    ensures
        p@ == path_join(config_dir@, "midi_config.json"@),
{
    join_path(config_dir, "midi_config.json")
}

/// Path to the scenes JSON file.
pub fn scenes_path(config_dir: &str) -> (p: String)
    ensures
        p@ == path_join(config_dir@, "scenes.json"@),
{
    join_path(config_dir, "scenes.json")
}

/// The presets to start with, given what reading the presets file gave:
/// its contents, `Ok(None)` when there is no file yet, or an error. The
/// empty collection replaces a missing or unreadable file.
pub fn load_presets(loaded: Result<Option<PresetCollection>, String>) -> (c: PresetCollection)
    ensures
        loaded matches Ok(Some(x)) ==> c == x,
        !(loaded is Ok && loaded->Ok_0 is Some) ==> c.banks@.len() == 0,
{
    match loaded {
        Ok(Some(collection)) => collection,
        _ => PresetCollection { banks: Vec::new() },
    }
}

/// The configuration to start with, given what reading the config file
/// gave; the default configuration for `home` and the default AI model
/// replaces a missing or unreadable file.
pub fn load_config(loaded: Result<Option<KicksConfig>, String>, home: &str, ai_model: &str) -> (c: KicksConfig)
    ensures
        loaded matches Ok(Some(x)) ==> c == x,
        !(loaded is Ok && loaded->Ok_0 is Some) ==> is_default_config(c, home@, ai_model@),
{
    match loaded {
        Ok(Some(config)) => config,
        _ => KicksConfig::default_for_home(home, ai_model),
    }
}

/// The MIDI configuration to start with, given what reading its file gave.
pub fn load_midi_config(loaded: Result<Option<MidiConfig>, String>) -> (c: MidiConfig)
    ensures
        loaded matches Ok(Some(x)) ==> c == x,
        !(loaded is Ok && loaded->Ok_0 is Some) ==> is_default_midi_config(c),
{
    match loaded {
        Ok(Some(config)) => config,
        _ => MidiConfig::default(),
    }
}

/// The scenes to start with, given what reading the scenes file gave.
pub fn load_scenes(loaded: Result<Option<SceneCollection>, String>) -> (c: SceneCollection)
    ensures
        loaded matches Ok(Some(x)) ==> c == x,
        !(loaded is Ok && loaded->Ok_0 is Some) ==> c.scenes@.len() == 0 && c.active_scene
            is None,
{
    match loaded {
        Ok(Some(collection)) => collection,
        _ => SceneCollection::new(),
    }
}

/// The signal chain to start with, given what reading its file gave; the
/// default chain replaces a missing or unreadable file.
pub fn load_signal_chain(loaded: Result<Option<SignalChain>, String>) -> (c: SignalChain)
    ensures
        loaded matches Ok(Some(x)) ==> c == x,
        !(loaded is Ok && loaded->Ok_0 is Some) ==> c@ == default_chain_view(),
{
    match loaded {
        Ok(Some(chain)) => chain,
        _ => SignalChain::default(),
    }
}

} // verus!
