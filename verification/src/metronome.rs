//! The metronome's counting: which beat of the bar comes next, whether a
//! beat is the accented downbeat, and how far a click has been played.
//!
//! The tempo, the sample clock and the click sounds are `f32` and stay in
//! the application, which asks this clock what to play.
use vstd::prelude::*;

verus! {

/// The most beats a bar can have.
pub const MAX_BEATS_PER_BAR: u8 = 16;

/// The metronome's integer state.
pub struct BeatClock {
    /// Beats per bar (1..16).
    beats_per_bar: u8,
    /// Current beat within the bar (0-based).
    current_beat: u8,
    /// Position within current click playback.
    click_position: usize,
    /// Whether we're currently playing a click.
    playing_click: bool,
    /// Whether the current click is a downbeat.
    is_downbeat: bool,
}

/// The abstract state of the clock.
pub struct ClockView {
    pub beats_per_bar: nat,
    pub current_beat: nat,
    pub click_position: nat,
    pub playing_click: bool,
    pub is_downbeat: bool,
}

impl View for BeatClock {
    type V = ClockView;

    closed spec fn view(&self) -> ClockView {
        ClockView {
            beats_per_bar: self.beats_per_bar as nat,
            current_beat: self.current_beat as nat,
            click_position: self.click_position as nat,
            playing_click: self.playing_click,
            is_downbeat: self.is_downbeat,
        }
    }
}

/// A bar has between one and sixteen beats, and the beat counter stays
/// below sixteen (it can pass the bar length when the bar is shortened).
pub open spec fn clock_wf(c: ClockView) -> bool {
    1 <= c.beats_per_bar <= MAX_BEATS_PER_BAR && c.current_beat < MAX_BEATS_PER_BAR
}

/// The clock after a beat arrives: a click starts from its first sample,
/// accented when the counter was at the bar's first beat, and the counter
/// moves on modulo the bar length.
pub open spec fn after_beat(c: ClockView) -> ClockView {
    ClockView {
        current_beat: (c.current_beat + 1) % c.beats_per_bar,
        click_position: 0,
        playing_click: true,
        is_downbeat: c.current_beat == 0,
        ..c
    }
}

/// The beat counter `k` beats after it stood at `c`.
pub open spec fn counter_after(c: nat, beats_per_bar: nat, k: nat) -> nat
    decreases k,
{
    if k == 0 {
        c
    } else {
        (counter_after(c, beats_per_bar, (k - 1) as nat) + 1) % beats_per_bar
    }
}

/// The bar length that a requested number of beats sets: at least one, at
/// most sixteen.
pub open spec fn clamp_beats(n: u8) -> nat {
    if n < 1 {
        1
    } else if n > MAX_BEATS_PER_BAR {
        MAX_BEATS_PER_BAR as nat
    } else {
        n as nat
    }
}

impl BeatClock {
    pub closed spec fn wf(&self) -> bool {
        clock_wf(self@)
    }

    /// A stopped clock in 4/4 at the start of the bar.
    pub fn new() -> (c: Self)
        ensures
            c.wf(),
            c@ == (ClockView {
                beats_per_bar: 4,
                current_beat: 0,
                click_position: 0,
                playing_click: false,
                is_downbeat: false,
            }),
    {
        BeatClock {
            beats_per_bar: 4,
            current_beat: 0,
            click_position: 0,
            playing_click: false,
            is_downbeat: false,
        }
    }

    pub fn beats_per_bar(&self) -> (n: u8)
        ensures
            n == self@.beats_per_bar,
    {
        self.beats_per_bar
    }

    pub fn current_beat(&self) -> (n: u8)
        ensures
            n == self@.current_beat,
    {
        self.current_beat
    }

    pub fn playing_click(&self) -> (b: bool)
        ensures
            b == self@.playing_click,
    {
        self.playing_click
    }

    pub fn is_downbeat(&self) -> (b: bool)
        ensures
            b == self@.is_downbeat,
    {
        self.is_downbeat
    }

    /// Sets the bar length, clamped to one to sixteen beats; the beat
    /// counter is left where it is.
    pub fn set_beats_per_bar(&mut self, n: u8)
        requires
            old(self).wf(),
        ensures
            final(self).wf(),
            final(self)@ == (ClockView { beats_per_bar: clamp_beats(n), ..old(self)@ }),
    {
        self.beats_per_bar = if n < 1 {
            1
        } else if n > MAX_BEATS_PER_BAR {
            MAX_BEATS_PER_BAR
        } else {
            n
        };
    }

    /// A beat arrives: starts its click and advances the beat counter.
    pub fn beat(&mut self)
        requires
            old(self).wf(),
        ensures
            final(self).wf(),
            final(self)@ == after_beat(old(self)@),
    {
        self.is_downbeat = self.current_beat == 0;
        self.playing_click = true;
        self.click_position = 0;
        self.current_beat = (self.current_beat + 1) % self.beats_per_bar;
    }

    /// One sample of click playback, for a click sound `click_len` samples
    /// long: the index of the click sample to mix in, after which the
    /// position moves on; or `None` when no click is playing, the click
    /// having ended once its position reaches its length.
    pub fn click_step(&mut self, click_len: usize) -> (r: Option<usize>)
        requires
            old(self).wf(),
        ensures
            final(self).wf(),
            !old(self)@.playing_click ==> r is None && final(self)@ == old(self)@,
            old(self)@.playing_click && old(self)@.click_position < click_len ==> {
                &&& r == Some(old(self)@.click_position as usize)
                &&& final(self)@ == (ClockView { click_position: old(self)@.click_position + 1, ..old(self)@ })
            },
            old(self)@.playing_click && old(self)@.click_position >= click_len ==> {
                &&& r is None
                &&& final(self)@ == (ClockView { playing_click: false, ..old(self)@ })
            },
    {
        if !self.playing_click {
            return None;
        }
        if self.click_position < click_len {
            let i = self.click_position;
            self.click_position = i + 1;
            Some(i)
        } else {
            self.playing_click = false;
            None
        }
    }
}

/// Within the bar, the counter `k` beats on is the start plus `k`, modulo
/// the bar length; so a downbeat comes exactly every `beats_per_bar` beats.
pub proof fn lemma_counter_cycles(c: nat, beats_per_bar: nat, k: nat)
    requires
        beats_per_bar >= 1,
        c < beats_per_bar,
    ensures
        counter_after(c, beats_per_bar, k) == (c + k) % beats_per_bar,
    decreases k,
{
    if k > 0 {
        lemma_counter_cycles(c, beats_per_bar, (k - 1) as nat);
        let b = beats_per_bar as int;
        let j = (c + k - 1) as int;
        vstd::arithmetic::div_mod::lemma_add_mod_noop_right(1, j, b);
        assert((j % b + 1) % b == (j + 1) % b);
    } else {
        vstd::arithmetic::div_mod::lemma_small_mod(c, beats_per_bar);
    }
}

/// Starting at the first beat of a bar, beat `k` (counting from zero) is
/// accented exactly when `k` is a multiple of the bar length.
pub proof fn lemma_downbeat_every_bar(beats_per_bar: nat, k: nat)
    requires
        beats_per_bar >= 1,
    ensures
        (counter_after(0, beats_per_bar, k) == 0) <==> (k % beats_per_bar == 0),
{
    lemma_counter_cycles(0, beats_per_bar, k);
}

/// Each beat moves the counter one step of `counter_after` and keeps the
/// clock well formed, so `lemma_counter_cycles` applies to a run of beats.
pub proof fn lemma_beat_advances_counter(c: ClockView)
    requires
        clock_wf(c),
    ensures
        after_beat(c).current_beat == counter_after(c.current_beat, c.beats_per_bar, 1),
        clock_wf(after_beat(c)),
{
    reveal_with_fuel(counter_after, 2);
}

} // verus!
