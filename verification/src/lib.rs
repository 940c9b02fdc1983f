//! Kicks: the verified core of a guitar workstation — configuration,
//! signal-chain editing and the parameters it sends to the engine, scenes,
//! presets, the built-in amp presets, undo history, MIDI routing, the
//! layout of a neural amp model's weights, the looper's transport, the
//! metronome's beat clock, the tuner's note names, the AI assistant's text
//! handling, and the connection manager and JSON-RPC lines for a remote
//! Guitarix engine.

pub mod ai;
pub mod amp_preset;
pub mod chain_params;
pub mod config;
pub mod connection;
pub mod decimal;
pub mod editing;
pub mod files;
pub mod guitarix;
pub mod history;
pub mod looper;
pub mod metronome;
pub mod midi;
pub mod nam;
pub mod persistence;
pub mod preset;
pub mod preset_list;
pub mod rpc_message;
pub mod scene;
pub mod signal_chain;
pub mod text;
pub mod tuner;
