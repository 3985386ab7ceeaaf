//! Blink timing driven by a frame counter instead of a clock.

use vstd::prelude::*;

verus! {

/// Frames in one blink cycle; zero when the cycle is not defined.
pub open spec fn cycle_len(fps: u16, blinks_per_sec: u16) -> int {
    if blinks_per_sec == 0 {
        0
    } else {
        fps as int / blinks_per_sec as int
    }
}

/// Frames hidden in each cycle: the duty share of the cycle, rounded half
/// up, and at least one.
pub open spec fn hidden_frames(duty_percent: u16, cycle: int) -> int {
    let share = (duty_percent as int * cycle + 50) / 100;
    if share < 1 {
        1
    } else {
        share
    }
}

/// Whether an element with this timing is hidden at a frame: it is hidden
/// over the last `hidden_frames` positions of each cycle, and always visible
/// when the cycle is empty.
pub open spec fn hidden_at(frame_count: u16, fps: u16, blinks_per_sec: u16, duty_percent: u16) -> bool {
    let cycle = cycle_len(fps, blinks_per_sec);
    if fps == 0 || cycle == 0 {
        false
    } else {
        frame_count as int % cycle >= cycle - hidden_frames(duty_percent, cycle)
    }
}

/// Timing parameters for a single blink pattern.
#[derive(Clone, Copy, PartialEq, Eq, Structural, Debug)]
pub struct BlinkTiming {
    /// How many times per second the element toggles.
    pub blinks_per_sec: u16,
    /// Percentage of each cycle spent hidden, e.g. 15 for 15%.
    pub duty_percent: u16,
    /// Whether the element is hidden at the last frame given to `update`.
    pub hidden: bool,
}

impl BlinkTiming {
    /// The visibility state, as last computed by `update`.
    pub open spec fn hidden_spec(&self) -> bool {
        self.hidden
    }

    /// A visible element with the given timing.
    pub fn new(blinks_per_sec: u16, duty_percent: u16) -> (t: BlinkTiming)
        ensures
            t.blinks_per_sec == blinks_per_sec,
            t.duty_percent == duty_percent,
            !t.hidden_spec(),
    {
        BlinkTiming { blinks_per_sec, duty_percent, hidden: false }
    }

    /// Returns `true` if the element is currently hidden.
    pub fn is_hidden(&self) -> (r: bool)
        ensures
            r == self.hidden_spec(),
    {
        self.hidden
    }

    /// Recomputes the hidden state from the frame count and frame rate.
    pub fn update(&mut self, frame_count: u16, fps: u16)
        ensures
            final(self).blinks_per_sec == old(self).blinks_per_sec,
            final(self).duty_percent == old(self).duty_percent,
            final(self).hidden_spec() == hidden_at(
                frame_count,
                fps,
                old(self).blinks_per_sec,
                old(self).duty_percent,
            ),
    {
        if self.blinks_per_sec == 0 || fps == 0 {
            self.hidden = false;
            return;
        }
        let cycle: u16 = fps / self.blinks_per_sec;
        if cycle == 0 {
            self.hidden = false;
            return;
        }
        let pos: u16 = frame_count % cycle;
        let duty = self.duty_percent as u32;
        let c = cycle as u32;
        assert(duty * c <= 65535 * 65535) by (nonlinear_arith)
            requires
                duty <= 65535,
                c <= 65535,
        ;
        let share: u32 = (duty * c + 50) / 100;
        let frames: u32 = if share < 1 {
            1
        } else {
            share
        };
        self.hidden = pos as u32 + frames >= c;
    }
}

/// Blink configuration for text modifiers and the cursor, with the state
/// needed to notice when visibility changes.
#[derive(Clone, Copy, PartialEq, Eq, Structural, Debug)]
pub struct BlinkConfig {
    /// Display refresh rate. Converts frame counts to time.
    pub fps: u16,
    /// Timing for slow blinking text and the cursor.
    pub slow: BlinkTiming,
    /// Timing for rapid blinking text.
    pub fast: BlinkTiming,
    /// Slow visibility seen by the previous tick.
    pub prev_slow: bool,
    /// Fast visibility seen by the previous tick.
    pub prev_fast: bool,
}

impl Default for BlinkConfig {
    /// 30 frames per second; slow blink once a second hidden 15% of the
    /// time; fast blink three times a second hidden half of the time.
    fn default() -> (c: BlinkConfig)
        ensures
            c.fps == 30,
            c.slow.blinks_per_sec == 1,
            c.slow.duty_percent == 15,
            c.fast.blinks_per_sec == 3,
            c.fast.duty_percent == 50,
            !c.slow.hidden_spec(),
            !c.fast.hidden_spec(),
            c.prev_state_spec() == (false, false),
    {
        BlinkConfig::new(30, BlinkTiming::new(1, 15), BlinkTiming::new(3, 50))
    }
}

impl BlinkConfig {
    /// The visibility pair `(slow hidden, fast hidden)` of the last tick.
    pub open spec fn prev_state_spec(&self) -> (bool, bool) {
        (self.prev_slow, self.prev_fast)
    }

    /// A configuration whose last tick saw both categories visible.
    pub fn new(fps: u16, slow: BlinkTiming, fast: BlinkTiming) -> (c: BlinkConfig)
        ensures
            c.fps == fps,
            c.slow == slow,
            c.fast == fast,
            c.prev_state_spec() == (false, false),
    {
        BlinkConfig { fps, slow, fast, prev_slow: false, prev_fast: false }
    }

    /// Advances the blink state to a frame. Returns `true` if the visibility
    /// of either category changed since the previous tick.
    pub fn tick(&mut self, frame_count: u16) -> (toggled: bool)
        ensures
            final(self).fps == old(self).fps,
            final(self).slow.blinks_per_sec == old(self).slow.blinks_per_sec,
            final(self).slow.duty_percent == old(self).slow.duty_percent,
            final(self).fast.blinks_per_sec == old(self).fast.blinks_per_sec,
            final(self).fast.duty_percent == old(self).fast.duty_percent,
            final(self).slow.hidden_spec() == hidden_at(
                frame_count,
                old(self).fps,
                old(self).slow.blinks_per_sec,
                old(self).slow.duty_percent,
            ),
            final(self).fast.hidden_spec() == hidden_at(
                frame_count,
                old(self).fps,
                old(self).fast.blinks_per_sec,
                old(self).fast.duty_percent,
            ),
            final(self).prev_state_spec() == (
                final(self).slow.hidden_spec(),
                final(self).fast.hidden_spec(),
            ),
            toggled == (final(self).prev_state_spec() != old(self).prev_state_spec()),
    {
        let fps = self.fps;
        self.slow.update(frame_count, fps);
        self.fast.update(frame_count, fps);
        let slow = self.slow.hidden;
        let fast = self.fast.hidden;
        let toggled = slow != self.prev_slow || fast != self.prev_fast;
        self.prev_slow = slow;
        self.prev_fast = fast;
        toggled
    }
}

/// At 30 frames per second, blinking once a second with a 15% duty cycle
/// hides the last five frames of each thirty.
pub proof fn lemma_default_slow_blink(frame_count: u16)
    ensures
        hidden_at(frame_count, 30, 1, 15) <==> frame_count % 30 >= 25,
{
    assert(hidden_frames(15, 30) == 5);
}

} // verus!
