# Kicks

A guitar and bass workstation: signal-chain editing with undo, presets in
banks, live scenes, MIDI control, a looper, a metronome, a tuner, an AI tone
assistant and remote control of a Guitarix engine.

## Layout

- `src/` — the library, verified with Verus. Every public function carries a
  contract over a mathematical model of its data (views, `Seq`, `Map`-like
  parameter lists), and the properties that relate several operations are
  stated and proved as public proof functions (`lemma_*`): undo and redo
  (an edit records the chain it changed, and undo brings it back),
  scene navigation, preset lookup after saving and deleting, parameter reads
  after writes, the looper's transport, the metronome's bar counting, the
  connection back-off.
- `app/` — the application around it: JSON persistence, the `f32` DSP
  plugins and engine, the Guitarix JSON-RPC client, and the command
  functions. Decisions are delegated to the library; this crate performs the
  I/O and the floating-point work.
- `tests/` — tests of the library through its public API.

Levels that are `f32` in the application are held by the library as their
IEEE-754 bit patterns (`f32::to_bits`); the built-in amp presets give theirs
in hundredths of the full range. For a neural amp model the library decides
which network a file names and where each part of it lies in the file's
weights; the application runs the network on samples.
