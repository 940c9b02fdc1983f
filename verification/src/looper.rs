//! The looper's transport: its mode (record, overdub, play, stop, idle),
//! where recording writes, how long the loop is, whether an overdub can be
//! undone, and the click-free fades between modes.
//!
//! The audio buffers hold `f32` samples and are kept by the application;
//! every transition here tells it what to do with them.
use vstd::prelude::*;

verus! {

/// Maximum loop length: 5 minutes at 48 kHz mono.
pub const MAX_LOOP_SAMPLES: usize = 14_400_000;

#[derive(Debug, Clone, Copy, PartialEq, Eq, Structural)]
pub enum LoopMode {
    /// Idle, passthrough.
    Idle,
    /// Recording a new loop (erases any existing).
    Record,
    /// Overdubbing onto existing loop.
    Overdub,
    /// Playing back the loop.
    Play,
    /// Stopped (loop in memory but silent).
    Stop,
}

/// What a transition asks of the sample buffers.
#[derive(Debug, Clone, Copy, PartialEq, Eq, Structural)]
pub struct BufferAction {
    /// Zero the loop buffer.
    pub clear_buffer: bool,
    /// Copy the loop buffer into the undo buffer.
    pub save_undo: bool,
    /// Copy the undo buffer back into the loop buffer.
    pub restore_undo: bool,
    /// Move the playback position back to the loop's start.
    pub reset_read_pos: bool,
}

pub open spec fn no_action() -> BufferAction {
    BufferAction { clear_buffer: false, save_undo: false, restore_undo: false, reset_read_pos: false }
}

/// The looper's integer state.
pub struct LoopTransport {
    mode: LoopMode,
    /// Write position (also defines loop length after first record).
    write_pos: usize,
    /// Loop length in samples (0 = no loop recorded yet).
    loop_length: usize,
    /// Fade in/out length in samples (prevents clicks).
    fade_samples: usize,
    /// Current fade position.
    fade_pos: usize,
    /// Whether we're currently fading.
    fading: bool,
    /// Whether the undo buffer is valid.
    undo_valid: bool,
}

/// The abstract transport state.
pub struct TransportView {
    pub mode: LoopMode,
    pub write_pos: nat,
    pub loop_length: nat,
    pub fade_samples: nat,
    pub fade_pos: nat,
    pub fading: bool,
    pub undo_valid: bool,
}

impl View for LoopTransport {
    type V = TransportView;

    closed spec fn view(&self) -> TransportView {
        TransportView {
            mode: self.mode,
            write_pos: self.write_pos as nat,
            loop_length: self.loop_length as nat,
            fade_samples: self.fade_samples as nat,
            fade_pos: self.fade_pos as nat,
            fading: self.fading,
            undo_valid: self.undo_valid,
        }
    }
}

/// Modes in which a fade runs upward (fade in).
pub open spec fn fades_in(m: LoopMode) -> bool {
    m is Play || m is Overdub || m is Record
}

/// The transport after all loop state was cleared, in mode `mode`.
pub open spec fn cleared(t: TransportView, mode: LoopMode) -> TransportView {
    TransportView { mode, write_pos: 0, loop_length: 0, undo_valid: false, ..t }
}

/// The transport and buffer action after asking for mode `m` in state `t`.
pub open spec fn transition(t: TransportView, m: LoopMode) -> (TransportView, BufferAction) {
    let fade_in = TransportView { fade_pos: 0, fading: true, ..t };
    if m is Record {
        (
            TransportView { mode: LoopMode::Record, ..cleared(fade_in, LoopMode::Record) },
            BufferAction { clear_buffer: true, reset_read_pos: true, ..no_action() },
        )
    } else if t.mode is Play && m is Overdub {
        (
            TransportView { mode: LoopMode::Overdub, undo_valid: true, ..t },
            BufferAction { save_undo: true, ..no_action() },
        )
    } else if t.mode is Record && m is Play {
        (
            TransportView {
                mode: LoopMode::Play,
                loop_length: if t.write_pos == 0 {
                    1
                } else {
                    t.write_pos
                },
                write_pos: 0,
                ..t
            },
            BufferAction { reset_read_pos: true, ..no_action() },
        )
    } else if t.mode is Overdub && m is Play {
        (TransportView { mode: LoopMode::Play, ..t }, no_action())
    } else if t.mode is Stop && m is Play {
        (
            TransportView { mode: LoopMode::Play, ..fade_in },
            BufferAction { reset_read_pos: true, ..no_action() },
        )
    } else if (t.mode is Play || t.mode is Overdub) && m is Stop {
        (TransportView { mode: LoopMode::Stop, fade_pos: t.fade_samples, fading: true, ..t }, no_action())
    } else if m is Idle {
        (
            cleared(t, LoopMode::Idle),
            BufferAction { clear_buffer: true, reset_read_pos: true, ..no_action() },
        )
    } else {
        (TransportView { mode: m, ..t }, no_action())
    }
}

/// Undoing an overdub: the loop saved when it began comes back, once; with
/// nothing saved, nothing happens.
pub open spec fn undone(t: TransportView) -> (TransportView, BufferAction) {
    if t.undo_valid {
        (TransportView { undo_valid: false, ..t }, BufferAction { restore_undo: true, ..no_action() })
    } else {
        (t, no_action())
    }
}

/// One sample's advance of a running fade.
pub open spec fn fade_step(t: TransportView) -> TransportView {
    if !t.fading {
        t
    } else if fades_in(t.mode) {
        let pos = t.fade_pos + 1;
        TransportView { fade_pos: pos, fading: !(pos >= t.fade_samples), ..t }
    } else if t.fade_pos > 0 {
        TransportView { fade_pos: (t.fade_pos - 1) as nat, ..t }
    } else {
        TransportView { fading: false, ..t }
    }
}

/// The parameter value that reports mode `m`.
pub open spec fn mode_code_spec(m: LoopMode) -> u8 {
    match m {
        LoopMode::Idle => 0,
        LoopMode::Record => 1,
        LoopMode::Overdub => 2,
        LoopMode::Play => 3,
        LoopMode::Stop => 4,
    }
}

/// The mode a (rounded) parameter value selects; unknown values select Idle.
pub open spec fn mode_of_code(code: i32) -> LoopMode {
    if code == 1 {
        LoopMode::Record
    } else if code == 2 {
        LoopMode::Overdub
    } else if code == 3 {
        LoopMode::Play
    } else if code == 4 {
        LoopMode::Stop
    } else {
        LoopMode::Idle
    }
}

pub open spec fn mode_name_spec(m: LoopMode) -> Seq<char> {
    match m {
        LoopMode::Idle => "idle"@,
        LoopMode::Record => "record"@,
        LoopMode::Overdub => "overdub"@,
        LoopMode::Play => "play"@,
        LoopMode::Stop => "stop"@,
    }
}

impl LoopMode {
    /// The value of the looper's "mode" parameter for this mode.
    pub fn code(&self) -> (c: u8)
        ensures
            c == mode_code_spec(*self),
    {
        match self {
            LoopMode::Idle => 0,
            LoopMode::Record => 1,
            LoopMode::Overdub => 2,
            LoopMode::Play => 3,
            LoopMode::Stop => 4,
        }
    }

    /// The mode that a rounded "mode" parameter value selects.
    pub fn from_code(code: i32) -> (m: LoopMode)
        ensures
            m == mode_of_code(code),
    {
        if code == 1 {
            LoopMode::Record
        } else if code == 2 {
            LoopMode::Overdub
        } else if code == 3 {
            LoopMode::Play
        } else if code == 4 {
            LoopMode::Stop
        } else {
            LoopMode::Idle
        }
    }

    /// The mode's name as the looper status reports it.
    pub fn name(&self) -> (s: String)
        ensures
            s@ == mode_name_spec(*self),
    {
        match self {
            LoopMode::Idle => "idle".to_string(),
            LoopMode::Record => "record".to_string(),
            LoopMode::Overdub => "overdub".to_string(),
            LoopMode::Play => "play".to_string(),
            LoopMode::Stop => "stop".to_string(),
        }
    }
}

/// The status name for a raw "mode" parameter value: the mode's name, or
/// "unknown" outside the codes in use.
pub fn mode_status_name(code: i32) -> (s: String)
    ensures
        0 <= code <= 4 ==> s@ == mode_name_spec(mode_of_code(code)),
        !(0 <= code <= 4) ==> s@ == "unknown"@,
{
    if 0 <= code && code <= 4 {
        LoopMode::from_code(code).name()
    } else {
        "unknown".to_string()
    }
}

/// Recording and loop positions stay within the loop buffer.
pub open spec fn transport_wf(t: TransportView) -> bool {
    t.write_pos <= MAX_LOOP_SAMPLES && t.loop_length <= MAX_LOOP_SAMPLES
}

impl LoopTransport {
    pub closed spec fn wf(&self) -> bool {
        transport_wf(self@)
    }

    pub fn new() -> (t: Self)
        ensures
            t.wf(),
            t@ == (TransportView {
                mode: LoopMode::Idle,
                write_pos: 0,
                loop_length: 0,
                fade_samples: 256,
                fade_pos: 0,
                fading: false,
                undo_valid: false,
            }),
    {
        LoopTransport {
            mode: LoopMode::Idle,
            write_pos: 0,
            loop_length: 0,
            fade_samples: 256,
            fade_pos: 0,
            fading: false,
            undo_valid: false,
        }
    }

    pub fn mode(&self) -> (m: LoopMode)
        ensures
            m == self@.mode,
    {
        self.mode
    }

    pub fn write_pos(&self) -> (p: usize)
        ensures
            p == self@.write_pos,
    {
        self.write_pos
    }

    pub fn loop_length(&self) -> (n: usize)
        ensures
            n == self@.loop_length,
    {
        self.loop_length
    }

    pub fn fade_samples(&self) -> (n: usize)
        ensures
            n == self@.fade_samples,
    {
        self.fade_samples
    }

    pub fn fade_pos(&self) -> (n: usize)
        ensures
            n == self@.fade_pos,
    {
        self.fade_pos
    }

    pub fn fading(&self) -> (b: bool)
        ensures
            b == self@.fading,
    {
        self.fading
    }

    /// Whether a loop has been recorded.
    pub fn has_loop(&self) -> (b: bool)
        ensures
            b == (self@.loop_length > 0),
    {
        self.loop_length > 0
    }

    /// Sets the fade length (the sample rate decides it).
    pub fn set_fade_samples(&mut self, n: usize)
        requires
            old(self).wf(),
        ensures
            final(self).wf(),
            final(self)@ == (TransportView { fade_samples: n as nat, ..old(self)@ }),
    {
        self.fade_samples = n;
    }

    /// Trigger a mode transition; the result says what to do with the
    /// sample buffers.
    pub fn trigger_mode(&mut self, mode: LoopMode) -> (a: BufferAction)
        requires
            old(self).wf(),
        ensures
            final(self).wf(),
            (final(self)@, a) == transition(old(self)@, mode),
    {
        let none = BufferAction {
            clear_buffer: false,
            save_undo: false,
            restore_undo: false,
            reset_read_pos: false,
        };
        match (self.mode, mode) {
            // Start recording from idle or stopped
            (_, LoopMode::Record) => {
                self.loop_length = 0;
                self.write_pos = 0;
                self.undo_valid = false;
                self.mode = LoopMode::Record;
                self.start_fade_in();
                BufferAction { clear_buffer: true, reset_read_pos: true, ..none }
            },
            // Start overdub from play
            (LoopMode::Play, LoopMode::Overdub) => {
                self.undo_valid = true;
                self.mode = LoopMode::Overdub;
                BufferAction { save_undo: true, ..none }
            },
            // Start playback from record, overdub, or stop
            (LoopMode::Record, LoopMode::Play) => {
                self.loop_length = self.write_pos;
                if self.loop_length == 0 {
                    self.loop_length = 1;
                }
                self.write_pos = 0;
                self.mode = LoopMode::Play;
                BufferAction { reset_read_pos: true, ..none }
            },
            (LoopMode::Overdub, LoopMode::Play) => {
                self.mode = LoopMode::Play;
                none
            },
            (LoopMode::Stop, LoopMode::Play) => {
                self.mode = LoopMode::Play;
                self.start_fade_in();
                BufferAction { reset_read_pos: true, ..none }
            },
            // Stop from play or overdub
            (LoopMode::Play, LoopMode::Stop) | (LoopMode::Overdub, LoopMode::Stop) => {
                self.mode = LoopMode::Stop;
                self.start_fade_out();
                none
            },
            // Idle clears everything
            (_, LoopMode::Idle) => {
                let a = self.clear();
                self.mode = LoopMode::Idle;
                a
            },
            _ => {
                self.mode = mode;
                none
            },
        }
    }

    /// Undo the last overdub: valid once after an overdub began.
    pub fn undo(&mut self) -> (a: BufferAction)
        requires
            old(self).wf(),
        ensures
            final(self).wf(),
            (final(self)@, a) == undone(old(self)@),
    {
        if self.undo_valid {
            self.undo_valid = false;
            BufferAction {
                clear_buffer: false,
                save_undo: false,
                restore_undo: true,
                reset_read_pos: false,
            }
        } else {
            BufferAction {
                clear_buffer: false,
                save_undo: false,
                restore_undo: false,
                reset_read_pos: false,
            }
        }
    }

    /// Clear the loop: no loop, nothing to undo, positions at the start.
    pub fn clear(&mut self) -> (a: BufferAction)
        requires
            old(self).wf(),
        ensures
            final(self).wf(),
            final(self)@ == cleared(old(self)@, old(self)@.mode),
            a == (BufferAction { clear_buffer: true, reset_read_pos: true, ..no_action() }),
    {
        self.write_pos = 0;
        self.loop_length = 0;
        self.undo_valid = false;
        BufferAction { clear_buffer: true, save_undo: false, restore_undo: false, reset_read_pos: true }
    }

    fn start_fade_in(&mut self)
        ensures
            final(self)@ == (TransportView { fade_pos: 0, fading: true, ..old(self)@ }),
    {
        self.fade_pos = 0;
        self.fading = true;
    }

    fn start_fade_out(&mut self)
        ensures
            final(self)@ == (TransportView {
                fade_pos: old(self)@.fade_samples,
                fading: true,
                ..old(self)@
            }),
    {
        self.fade_pos = self.fade_samples;
        self.fading = true;
    }

    /// Advances a running fade by one sample.
    pub fn advance_fade(&mut self)
        requires
            old(self).wf(),
            old(self)@.fade_pos < usize::MAX,
        ensures
            final(self).wf(),
            final(self)@ == fade_step(old(self)@),
    {
        if self.fading {
            if self.mode == LoopMode::Play || self.mode == LoopMode::Overdub || self.mode
                == LoopMode::Record {
                // Fade in
                self.fade_pos = self.fade_pos + 1;
                if self.fade_pos >= self.fade_samples {
                    self.fading = false;
                }
            } else {
                // Fade out
                if self.fade_pos > 0 {
                    self.fade_pos = self.fade_pos - 1;
                } else {
                    self.fading = false;
                }
            }
        }
    }

    /// While recording, the buffer index the next input sample is stored at
    /// (the write position then advances), or `None` once the buffer is full.
    pub fn record_step(&mut self) -> (idx: Option<usize>)
        requires
            old(self).wf(),
        ensures
            final(self).wf(),
            old(self)@.write_pos < MAX_LOOP_SAMPLES ==> idx == Some(old(self)@.write_pos as usize)
                && final(self)@ == (TransportView {
                write_pos: old(self)@.write_pos + 1,
                ..old(self)@
            }),
            old(self)@.write_pos >= MAX_LOOP_SAMPLES ==> idx is None && final(self)@ == old(self)@,
            final(self)@ == record_step_spec(old(self)@),
    {
        if self.write_pos < MAX_LOOP_SAMPLES {
            let i = self.write_pos;
            self.write_pos = self.write_pos + 1;
            Some(i)
        } else {
            None
        }
    }

    /// While overdubbing, the position within the loop that the next input
    /// sample is mixed into (the write position then advances), or `None`
    /// when there is no loop to overdub onto or the write position has run
    /// through the whole buffer.
    pub fn overdub_step(&mut self) -> (idx: Option<usize>)
        requires
            old(self).wf(),
        ensures
            final(self).wf(),
            old(self)@.loop_length > 0 && old(self)@.write_pos < MAX_LOOP_SAMPLES ==> idx == Some(
                (old(self)@.write_pos % old(self)@.loop_length) as usize,
            ) && final(self)@ == (TransportView {
                write_pos: old(self)@.write_pos + 1,
                ..old(self)@
            }),
            old(self)@.loop_length == 0 || old(self)@.write_pos >= MAX_LOOP_SAMPLES ==> idx is None
                && final(self)@ == old(self)@,
    {
        if self.loop_length > 0 && self.write_pos < MAX_LOOP_SAMPLES {
            let i = self.write_pos % self.loop_length;
            self.write_pos = self.write_pos + 1;
            Some(i)
        } else {
            None
        }
    }
}


/// One recorded sample: the write position advances until the buffer is
/// full.
pub open spec fn record_step_spec(t: TransportView) -> TransportView {
    if t.write_pos < MAX_LOOP_SAMPLES {
        TransportView { write_pos: t.write_pos + 1, ..t }
    } else {
        t
    }
}

/// The transport after `n` samples went through `record_step`, from `t`.
pub open spec fn recorded(t: TransportView, n: nat) -> TransportView
    decreases n,
{
    if n == 0 {
        t
    } else {
        record_step_spec(recorded(t, (n - 1) as nat))
    }
}

/// Recording `n` samples moves the write position by `n`, up to the end of
/// the buffer, and changes nothing else.
pub proof fn lemma_recorded_write_pos(t: TransportView, n: nat)
    requires
        t.write_pos <= MAX_LOOP_SAMPLES,
    ensures
        recorded(t, n) == (TransportView {
            write_pos: if t.write_pos + n <= MAX_LOOP_SAMPLES {
                (t.write_pos + n) as nat
            } else {
                MAX_LOOP_SAMPLES as nat
            },
            ..t
        }),
    decreases n,
{
    if n > 0 {
        lemma_recorded_write_pos(t, (n - 1) as nat);
    }
}

/// Recording then playing makes a loop of what was recorded: after Record,
/// `n` samples through `record_step` and Play, the loop is `n` samples long,
/// at most the whole buffer and at least one sample, and plays from its
/// start.
pub proof fn lemma_record_then_play_sets_loop(t: TransportView, n: nat)
    ensures
        ({
            let (r, a1) = transition(t, LoopMode::Record);
            let (p, a2) = transition(recorded(r, n), LoopMode::Play);
            &&& a1.clear_buffer && !r.undo_valid && r.loop_length == 0 && r.write_pos == 0
            &&& p.mode == LoopMode::Play
            &&& p.loop_length == if n == 0 {
                1
            } else if n <= MAX_LOOP_SAMPLES {
                n
            } else {
                MAX_LOOP_SAMPLES as nat
            }
            &&& p.write_pos == 0
            &&& a2.reset_read_pos
        }),
{
    let (r, a1) = transition(t, LoopMode::Record);
    lemma_recorded_write_pos(r, n);
}

/// The looper's modes in turn: Record from any state starts an empty loop
/// (reported as mode 1) that an undo right after leaves alone; Play after
/// `n` recorded samples (mode 3) has a loop of `n` samples, at least one
/// and at most the whole buffer; Idle from any state has no loop.
pub proof fn lemma_trigger_modes(t: TransportView, n: nat)
    ensures
        ({
            let (r, _) = transition(t, LoopMode::Record);
            let (p, _) = transition(recorded(r, n), LoopMode::Play);
            let (i, _) = transition(t, LoopMode::Idle);
            &&& mode_code_spec(r.mode) == 1 && r.loop_length == 0
            &&& undone(r) == (r, no_action())
            &&& mode_code_spec(p.mode) == 3 && p.loop_length > 0
            &&& p.loop_length == if n == 0 {
                1
            } else if n <= MAX_LOOP_SAMPLES {
                n
            } else {
                MAX_LOOP_SAMPLES as nat
            }
            &&& i.loop_length == 0
        }),
{
    lemma_record_then_play_sets_loop(t, n);
}

/// The looper always enters the mode asked for. Playing, stopping and
/// overdubbing keep the recorded loop unless they end a recording; Play on a
/// stopped loop starts it again from its start with a fade-in, and Stop
/// while playing or overdubbing starts a fade-out.
pub proof fn lemma_modes_asked_for(t: TransportView, m: LoopMode)
    ensures
        transition(t, m).0.mode == m,
        (m is Play || m is Stop || m is Overdub) && !(t.mode is Record) ==> transition(t, m).0.loop_length
            == t.loop_length && !transition(t, m).1.clear_buffer,
        t.mode is Stop && m is Play ==> ({
            let (p, a) = transition(t, m);
            &&& a.reset_read_pos
            &&& p.fading && p.fade_pos == 0
            &&& p.write_pos == t.write_pos
        }),
        (t.mode is Play || t.mode is Overdub) && m is Stop ==> ({
            let (p, a) = transition(t, m);
            &&& p.fading && p.fade_pos == t.fade_samples
            &&& !a.reset_read_pos && !a.clear_buffer
        }),
{
}

/// An overdub started from playback can be undone exactly once: the
/// transition saves the loop, the first undo restores it, and a second undo
/// does nothing. Overdubbing entered from any other mode saves nothing.
pub proof fn lemma_overdub_undo_once(t: TransportView)
    ensures
        t.mode is Play ==> ({
            let (o, a) = transition(t, LoopMode::Overdub);
            a.save_undo && o.undo_valid && o.mode == LoopMode::Overdub
        }),
        !(t.mode is Play) ==> ({
            let (o, a) = transition(t, LoopMode::Overdub);
            !a.save_undo && o.undo_valid == t.undo_valid
        }),
{
}

/// Idle and Record each discard the loop and anything to undo, whatever the
/// state they are entered from.
pub proof fn lemma_idle_and_record_discard_loop(t: TransportView)
    ensures
        ({
            let (i, a) = transition(t, LoopMode::Idle);
            i.mode == LoopMode::Idle && i.loop_length == 0 && i.write_pos == 0 && !i.undo_valid
                && a.clear_buffer
        }),
        ({
            let (r, a) = transition(t, LoopMode::Record);
            r.mode == LoopMode::Record && r.loop_length == 0 && r.write_pos == 0 && !r.undo_valid
                && a.clear_buffer && r.fading && r.fade_pos == 0
        }),
{
}

/// The transport after `k` samples of fading.
pub open spec fn fade_steps(t: TransportView, k: nat) -> TransportView
    decreases k,
{
    if k == 0 {
        t
    } else {
        fade_step(fade_steps(t, (k - 1) as nat))
    }
}

/// A fade-in started at position 0 ends after exactly `fade_samples`
/// samples (or one sample when the fade length is 0), the position counting
/// up one per sample.
pub proof fn lemma_fade_in_completes(t: TransportView, k: nat)
    requires
        fades_in(t.mode),
        t.fading,
        t.fade_pos == 0,
        k <= t.fade_samples,
    ensures
        fade_steps(t, k).fade_pos == k,
        fade_steps(t, k).fading == (k < t.fade_samples || k == 0),
        fade_steps(t, k).mode == t.mode,
        fade_steps(t, k).fade_samples == t.fade_samples,
    decreases k,
{
    if k > 0 {
        lemma_fade_in_completes(t, (k - 1) as nat);
    }
}

/// A fade-out counts down from its start and ends one sample after reaching
/// zero.
pub proof fn lemma_fade_out_completes(t: TransportView, k: nat)
    requires
        !fades_in(t.mode),
        t.fading,
        k <= t.fade_pos,
    ensures
        fade_steps(t, k).fade_pos == t.fade_pos - k,
        fade_steps(t, k).fading,
        fade_step(fade_steps(t, t.fade_pos)).fading == false,
        fade_steps(t, k).mode == t.mode,
    decreases k,
{
    if k > 0 {
        lemma_fade_out_completes(t, (k - 1) as nat);
    }
    lemma_fade_out_reaches_zero(t, t.fade_pos);
}

proof fn lemma_fade_out_reaches_zero(t: TransportView, k: nat)
    requires
        !fades_in(t.mode),
        t.fading,
        k <= t.fade_pos,
    ensures
        fade_steps(t, k).fade_pos == t.fade_pos - k,
        fade_steps(t, k).fading,
        fade_steps(t, k).mode == t.mode,
    decreases k,
{
    if k > 0 {
        lemma_fade_out_reaches_zero(t, (k - 1) as nat);
    }
}

} // verus!
