//! The blinking turn-signal display.
//!
//! A five-by-five display shows an arrow to the left or to the right that
//! blinks, or a steady dot while driving straight on. The state is advanced
//! once per display refresh; how long the arrow stays lit and how long it
//! stays dark is counted in refreshes.

use vstd::prelude::*;

verus! {

/// Whether the display currently shows its image or is dark.
#[derive(Clone, Copy, Debug, PartialEq, Eq, Structural)]
pub enum Light {
    Lit,
    Unlit,
}

/// What the driver is signalling.
#[derive(Clone, Copy, Debug, PartialEq, Eq, Structural)]
pub enum SignalType {
    Left,
    Right,
    Straight,
}

/// A countdown in refreshes: where it starts and where it stands.
#[derive(Clone, Copy, Debug, PartialEq, Eq, Structural)]
pub struct Duration {
    pub max: u16,
    pub cur: u16,
}

/// Mathematical picture of the blinker.
pub struct BlinkModel {
    pub light: Light,
    pub signal: SignalType,
    /// Refreshes a blink stays lit, and how many of them are left.
    pub lit_max: int,
    pub lit_cur: int,
    /// Refreshes a blink stays dark, and how many of them are left.
    pub unlit_max: int,
    pub unlit_cur: int,
}

/// Whether the pixel in row `r`, column `c` is on in the image for `signal`.
///
/// Straight on is a dot in the centre. The arrows are a horizontal bar
/// through the centre with a head whose two strokes move one column towards
/// the centre column for each row away from the bar.
pub open spec fn on_in_image(signal: SignalType, r: int, c: int) -> bool {
    let away = if r < 2 {
        2 - r
    } else {
        r - 2
    };
    match signal {
        SignalType::Straight => r == 2 && c == 2,
        SignalType::Left => r == 2 || c == away,
        SignalType::Right => r == 2 || c == 4 - away,
    }
}

/// Brightness of the pixel in row `r`, column `c`: `1` where the image for
/// `signal` is on and the display is lit, `0` everywhere else.
pub open spec fn pixel(light: Light, signal: SignalType, r: int, c: int) -> u8 {
    if light == Light::Lit && on_in_image(signal, r, c) {
        1
    } else {
        0
    }
}

impl BlinkModel {
    /// A blinker that has just been switched on with the given durations.
    pub open spec fn fresh(lit_duration: int, unlit_duration: int) -> BlinkModel {
        BlinkModel {
            light: Light::Lit,
            signal: SignalType::Straight,
            lit_max: lit_duration,
            lit_cur: lit_duration,
            unlit_max: unlit_duration,
            unlit_cur: unlit_duration,
        }
    }

    /// Whether the blinker is signalling a turn.
    pub open spec fn blinking(self) -> bool {
        self.signal != SignalType::Straight
    }

    /// Whether a refresh can be counted: while signalling a turn, the
    /// countdown that is running has not yet run out.
    pub open spec fn can_tick(self) -> bool {
        self.blinking() ==> match self.light {
            Light::Lit => self.lit_cur >= 1,
            Light::Unlit => self.unlit_cur >= 1,
        }
    }

    /// The states a blinker with non-zero durations moves through: the running
    /// countdown is between one and its start, and while driving straight on
    /// the display is lit with both countdowns at their start.
    pub open spec fn wf(self) -> bool {
        &&& self.lit_max >= 1
        &&& self.unlit_max >= 1
        &&& (self.light == Light::Lit ==> 1 <= self.lit_cur <= self.lit_max)
        &&& (self.light == Light::Unlit ==> 1 <= self.unlit_cur <= self.unlit_max)
        &&& (!self.blinking() ==> self.light == Light::Lit && self.lit_cur == self.lit_max
            && self.unlit_cur == self.unlit_max)
    }

    /// One refresh later. While signalling a turn the running countdown loses
    /// one; when it runs out the display changes between lit and dark and the
    /// other countdown starts afresh. Driving straight on, nothing changes.
    pub open spec fn ticked(self) -> BlinkModel {
        if !self.blinking() {
            self
        } else if self.light == Light::Lit {
            if self.lit_cur - 1 == 0 {
                BlinkModel { light: Light::Unlit, lit_cur: 0, unlit_cur: self.unlit_max, ..self }
            } else {
                BlinkModel { lit_cur: self.lit_cur - 1, ..self }
            }
        } else {
            if self.unlit_cur - 1 == 0 {
                BlinkModel { light: Light::Lit, unlit_cur: 0, lit_cur: self.lit_max, ..self }
            } else {
                BlinkModel { unlit_cur: self.unlit_cur - 1, ..self }
            }
        }
    }

    /// The blinker after the driver signals `signal`. A new signal starts a
    /// new blink: lit, with both countdowns at their start. The same signal
    /// again changes nothing.
    pub open spec fn signalled(self, signal: SignalType) -> BlinkModel {
        if signal != self.signal {
            BlinkModel {
                light: Light::Lit,
                signal,
                lit_cur: self.lit_max,
                unlit_cur: self.unlit_max,
                ..self
            }
        } else {
            self
        }
    }

    /// The blinker `n` refreshes later, with no change of signal in between.
    pub open spec fn after(self, n: nat) -> BlinkModel
        decreases n,
    {
        if n == 0 {
            self
        } else {
            self.after((n - 1) as nat).ticked()
        }
    }
}

/// Refreshes and signals never lead out of the valid states, and in a valid
/// state a refresh can always be counted.
pub proof fn lemma_wf_is_kept(m: BlinkModel, signal: SignalType)
    requires
        m.wf(),
    ensures
        m.can_tick(),
        m.ticked().wf(),
        m.signalled(signal).wf(),
{
}

/// A lit arrow stays lit until its countdown has run out, and goes dark on
/// the refresh that takes the countdown to zero; the dark countdown then
/// stands at its start.
pub proof fn lemma_lit_span(m: BlinkModel, j: nat)
    requires
        m.wf(),
        m.blinking(),
        m.light == Light::Lit,
        j <= m.lit_cur,
    ensures
        j < m.lit_cur ==> m.after(j).light == Light::Lit && m.after(j).lit_cur == m.lit_cur - j,
        j == m.lit_cur ==> m.after(j).light == Light::Unlit && m.after(j).unlit_cur
            == m.unlit_max,
        m.after(j).wf(),
        m.after(j).signal == m.signal,
        m.after(j).lit_max == m.lit_max,
        m.after(j).unlit_max == m.unlit_max,
    decreases j,
{
    if j > 0 {
        lemma_lit_span(m, (j - 1) as nat);
    }
}

/// A dark arrow stays dark until its countdown has run out, and lights up on
/// the refresh that takes the countdown to zero; the lit countdown then
/// stands at its start.
pub proof fn lemma_unlit_span(m: BlinkModel, j: nat)
    requires
        m.wf(),
        m.blinking(),
        m.light == Light::Unlit,
        j <= m.unlit_cur,
    ensures
        j < m.unlit_cur ==> m.after(j).light == Light::Unlit && m.after(j).unlit_cur
            == m.unlit_cur - j,
        j == m.unlit_cur ==> m.after(j).light == Light::Lit && m.after(j).lit_cur == m.lit_max,
        m.after(j).wf(),
        m.after(j).signal == m.signal,
        m.after(j).lit_max == m.lit_max,
        m.after(j).unlit_max == m.unlit_max,
    decreases j,
{
    if j > 0 {
        lemma_unlit_span(m, (j - 1) as nat);
    }
}

/// Counting `a` refreshes and then `b` more is counting `a + b`.
pub proof fn lemma_after_add(m: BlinkModel, a: nat, b: nat)
    ensures
        m.after(a).after(b) == m.after(a + b),
    decreases b,
{
    if b > 0 {
        lemma_after_add(m, a, (b - 1) as nat);
    }
}

/// One whole blink: an arrow that has just lit up is lit again, with its
/// countdown at the start, after as many refreshes as the lit and the dark
/// duration together.
pub proof fn lemma_blink_period(m: BlinkModel)
    requires
        m.wf(),
        m.blinking(),
        m.light == Light::Lit,
        m.lit_cur == m.lit_max,
    ensures
        m.after((m.lit_max + m.unlit_max) as nat).light == Light::Lit,
        m.after((m.lit_max + m.unlit_max) as nat).lit_cur == m.lit_max,
        m.after((m.lit_max + m.unlit_max) as nat).signal == m.signal,
{
    let lit = m.lit_max as nat;
    let dark = m.unlit_max as nat;
    lemma_lit_span(m, lit);
    lemma_unlit_span(m.after(lit), dark);
    lemma_after_add(m, lit, dark);
}

/// The blinker as the firmware holds it.
pub struct State {
    light: Light,
    signal: SignalType,
    lit_duration: Duration,
    unlit_duration: Duration,
}

impl View for State {
    type V = BlinkModel;

    closed spec fn view(&self) -> BlinkModel {
        BlinkModel {
            light: self.light,
            signal: self.signal,
            lit_max: self.lit_duration.max as int,
            lit_cur: self.lit_duration.cur as int,
            unlit_max: self.unlit_duration.max as int,
            unlit_cur: self.unlit_duration.cur as int,
        }
    }
}

impl State {
    /// A blinker that stays lit for `lit_duration` refreshes and dark for
    /// `unlit_duration` refreshes. It starts lit, driving straight on.
    pub fn new(lit_duration: u16, unlit_duration: u16) -> (state: State)
        ensures
            state@ == BlinkModel::fresh(lit_duration as int, unlit_duration as int),
            state@.wf() <==> lit_duration >= 1 && unlit_duration >= 1,
    {
        State {
            light: Light::Lit,
            signal: SignalType::Straight,
            lit_duration: Duration { max: lit_duration, cur: lit_duration },
            unlit_duration: Duration { max: unlit_duration, cur: unlit_duration },
        }
    }

    /// Whether the display is lit or dark.
    pub fn light(&self) -> (light: Light)
        ensures
            light == self@.light,
    {
        self.light
    }

    /// What is being signalled.
    pub fn signal(&self) -> (signal: SignalType)
        ensures
            signal == self@.signal,
    {
        self.signal
    }

    /// Whether a refresh can be counted now: always while driving straight
    /// on, and while signalling a turn as long as the running countdown has
    /// not run out.
    pub fn can_tick(&self) -> (ok: bool)
        ensures
            ok == self@.can_tick(),
    {
        match self.signal {
            SignalType::Straight => true,
            _ => match self.light {
                Light::Lit => self.lit_duration.cur >= 1,
                Light::Unlit => self.unlit_duration.cur >= 1,
            },
        }
    }

    /// Counts one display refresh and returns the image to show for it, row
    /// by row.
    pub fn tick(&mut self) -> (frame: [[u8; 5]; 5])
        requires
            old(self)@.can_tick(),
        ensures
            final(self)@ == old(self)@.ticked(),
            old(self)@.wf() ==> final(self)@.wf(),
            forall|r: int, c: int|
                0 <= r < 5 && 0 <= c < 5 ==> #[trigger] frame[r][c] == pixel(
                    final(self)@.light,
                    final(self)@.signal,
                    r,
                    c,
                ),
    {
        match self.signal {
            SignalType::Left | SignalType::Right => match self.light {
                Light::Lit => {
                    self.lit_duration.cur -= 1;
                    if self.lit_duration.cur == 0 {
                        self.light = Light::Unlit;
                        self.unlit_duration.cur = self.unlit_duration.max;
                    }
                },
                Light::Unlit => {
                    self.unlit_duration.cur -= 1;
                    if self.unlit_duration.cur == 0 {
                        self.light = Light::Lit;
                        self.lit_duration.cur = self.lit_duration.max;
                    }
                },
            },
            _ => {},
        }

        match self.light {
            Light::Unlit => [
                [0, 0, 0, 0, 0],
                [0, 0, 0, 0, 0],
                [0, 0, 0, 0, 0],
                [0, 0, 0, 0, 0],
                [0, 0, 0, 0, 0],
            ],
            Light::Lit => match self.signal {
                SignalType::Left => [
                    [0, 0, 1, 0, 0],
                    [0, 1, 0, 0, 0],
                    [1, 1, 1, 1, 1],
                    [0, 1, 0, 0, 0],
                    [0, 0, 1, 0, 0],
                ],
                SignalType::Right => [
                    [0, 0, 1, 0, 0],
                    [0, 0, 0, 1, 0],
                    [1, 1, 1, 1, 1],
                    [0, 0, 0, 1, 0],
                    [0, 0, 1, 0, 0],
                ],
                SignalType::Straight => [
                    [0, 0, 0, 0, 0],
                    [0, 0, 0, 0, 0],
                    [0, 0, 1, 0, 0],
                    [0, 0, 0, 0, 0],
                    [0, 0, 0, 0, 0],
                ],
            },
        }
    }

    /// Takes note of what the driver is signalling now.
    pub fn set_signal(&mut self, state: SignalType)
        ensures
            final(self)@ == old(self)@.signalled(state),
            old(self)@.wf() ==> final(self)@.wf(),
    {
        if state != self.signal {
            self.unlit_duration.cur = self.unlit_duration.max;
            self.lit_duration.cur = self.lit_duration.max;
            self.light = Light::Lit;
        }
        self.signal = state;
    }
}

} // verus!
