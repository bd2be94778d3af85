//! The frequency sweep of the siren.
//!
//! The sweep is a triangular wave: starting at [`BASE_FREQ`] the pitch rises
//! by [`FREQ_RISE`] on every timer period until it reaches [`MAX_FREQ`], then
//! falls by the same amount until it is back at [`BASE_FREQ`], and so on.

use vstd::prelude::*;

verus! {

/// Lowest siren frequency in Hz.
pub const BASE_FREQ: i32 = 440;

/// Highest siren frequency in Hz.
pub const MAX_FREQ: i32 = 660;

/// Change in siren frequency per step, in Hz.
pub const FREQ_RISE: i32 = 10;

/// Number of steps from one end of the sweep to the other.
pub const NUMBER_STEPS: i32 = 22;

/// How long each frequency sounds, in milliseconds: one second is spread over
/// the way up and the way down.
pub const DURATION_PER_NOTE_MS: i32 = 22;

/// Timer ticks per step; the timer counts microseconds.
pub const CLOCK_CYCLES_PER_NOTE: u32 = 22_000;

/// Mathematical picture of the sweep: where it is, and which way it is going.
pub struct SweepModel {
    /// Frequency in Hz.
    pub frequency: int,
    /// `1` while rising, `-1` while falling.
    pub direction: int,
}

impl SweepModel {
    /// Where every sweep starts: at the bottom, going up.
    pub open spec fn initial() -> SweepModel {
        SweepModel { frequency: BASE_FREQ as int, direction: 1 }
    }

    /// The states a sweep can be in: on the grid of steps between the two
    /// ends, never rising at the top and never falling at the bottom.
    pub open spec fn wf(self) -> bool {
        &&& BASE_FREQ <= self.frequency <= MAX_FREQ
        &&& (self.frequency - BASE_FREQ) % (FREQ_RISE as int) == 0
        &&& (self.direction == 1 || self.direction == -1)
        &&& (self.direction == 1 ==> self.frequency < MAX_FREQ)
        &&& (self.direction == -1 ==> self.frequency > BASE_FREQ)
    }

    /// One timer period later. The frequency moves one step in the current
    /// direction. The direction turns when the frequency held *before* the
    /// move was one step short of the end it was heading for.
    pub open spec fn next(self) -> SweepModel {
        SweepModel {
            frequency: self.frequency + FREQ_RISE * self.direction,
            direction: if self.frequency == MAX_FREQ - FREQ_RISE && self.direction > 0 {
                -self.direction
            } else if self.frequency == BASE_FREQ + FREQ_RISE && self.direction < 0 {
                -self.direction
            } else {
                self.direction
            },
        }
    }

    /// The state `n` timer periods after this one.
    pub open spec fn after(self, n: nat) -> SweepModel
        decreases n,
    {
        if n == 0 {
            self
        } else {
            self.after((n - 1) as nat).next()
        }
    }

    /// How many periods after the start of a sweep this state is first met.
    pub open spec fn phase(self) -> nat {
        if self.direction == 1 {
            ((self.frequency - BASE_FREQ) / (FREQ_RISE as int)) as nat
        } else {
            (NUMBER_STEPS + (MAX_FREQ - self.frequency) / (FREQ_RISE as int)) as nat
        }
    }
}

/// Number of steps in one full pass up and down.
pub open spec fn period() -> nat {
    (2 * NUMBER_STEPS) as nat
}

/// The state of a sweep `n` timer periods after it started.
pub open spec fn state_after(n: nat) -> SweepModel {
    SweepModel::initial().after(n)
}

/// The triangular wave in closed form. For `k` counted from the start of a
/// pass: the rising flank for the first [`NUMBER_STEPS`] positions, the
/// falling flank from the top onwards.
pub open spec fn wave(k: int) -> SweepModel {
    if k < NUMBER_STEPS {
        SweepModel { frequency: BASE_FREQ + FREQ_RISE * k, direction: 1 }
    } else {
        SweepModel { frequency: MAX_FREQ - FREQ_RISE * (k - NUMBER_STEPS), direction: -1 }
    }
}

/// A step never leaves the states a sweep can be in.
pub proof fn lemma_next_wf(m: SweepModel)
    requires
        m.wf(),
    ensures
        m.next().wf(),
{
}

/// However long a sweep runs from a valid state, it stays in valid states.
pub proof fn lemma_after_wf(m: SweepModel, n: nat)
    requires
        m.wf(),
    ensures
        m.after(n).wf(),
    decreases n,
{
    if n > 0 {
        lemma_after_wf(m, (n - 1) as nat);
        lemma_next_wf(m.after((n - 1) as nat));
    }
}

/// Running `a` periods and then `b` more is running `a + b` periods.
pub proof fn lemma_after_add(m: SweepModel, a: nat, b: nat)
    ensures
        m.after(a).after(b) == m.after(a + b),
    decreases b,
{
    if b > 0 {
        lemma_after_add(m, a, (b - 1) as nat);
    }
}

/// The sweep is the triangular wave: after `n` periods it stands at position
/// `n` modulo the period.
pub proof fn lemma_closed_form(n: nat)
    ensures
        state_after(n) == wave((n % period()) as int),
    decreases n,
{
    assert(period() == 44);
    if n > 0 {
        let prev = (n - 1) as nat;
        lemma_closed_form(prev);
        let k = (prev % 44) as int;
        assert(n % 44 == if k == 43 { 0int } else { k + 1 });
        assert(wave(k).next() == wave((n % 44) as int));
    }
}

/// Every frequency a running sweep takes lies between the two ends.
pub proof fn lemma_frequency_in_range(n: nat)
    ensures
        BASE_FREQ <= state_after(n).frequency <= MAX_FREQ,
        state_after(n).wf(),
{
    lemma_after_wf(SweepModel::initial(), n);
}

/// The valid states are exactly the ones a sweep reaches: each is met
/// [`SweepModel::phase`] periods after the start, within the first pass.
pub proof fn lemma_wf_is_reached(m: SweepModel)
    requires
        m.wf(),
    ensures
        m.phase() < period(),
        state_after(m.phase()) == m,
{
    let k = m.phase();
    let up = (m.frequency - BASE_FREQ) / 10;
    let down = (MAX_FREQ - m.frequency) / 10;
    assert(m.frequency == BASE_FREQ + 10 * up);
    assert(m.frequency == MAX_FREQ - 10 * down);
    assert(k < 44 && k % 44 == k);
    lemma_closed_form(k);
}

/// The sweep repeats itself after one pass up and down.
pub proof fn lemma_periodic(n: nat)
    ensures
        state_after(n + period()) == state_after(n),
{
    assert((n + 44) % 44 == n % 44);
    lemma_closed_form(n);
    lemma_closed_form(n + period());
}

/// From whatever valid state a sweep is picked up, one pass up and down later
/// it is in that state again.
pub proof fn lemma_returns_after_a_period(m: SweepModel)
    requires
        m.wf(),
    ensures
        m.after(period()) == m,
{
    lemma_wf_is_reached(m);
    lemma_after_add(SweepModel::initial(), m.phase(), period());
    lemma_periodic(m.phase());
}

/// The way down mirrors the way up: within one pass, the frequency `k`
/// periods after the start is the frequency `k` periods before the end.
pub proof fn lemma_palindrome(k: nat)
    requires
        k <= period(),
    ensures
        state_after(k).frequency == state_after((period() - k) as nat).frequency,
{
    let mirror = (period() - k) as nat;
    assert(k % 44 == if k == 44 { 0 } else { k });
    assert(mirror % 44 == if mirror == 44 { 0 } else { mirror });
    lemma_closed_form(k);
    lemma_closed_form(mirror);
}

/// Every step moves the frequency by exactly one [`FREQ_RISE`] in the current
/// direction, so no step leaves the frequency where it was.
pub proof fn lemma_step_moves(m: SweepModel)
    requires
        m.wf(),
    ensures
        m.direction == 1 ==> m.next().frequency == m.frequency + FREQ_RISE,
        m.direction == -1 ==> m.next().frequency == m.frequency - FREQ_RISE,
        m.next().frequency != m.frequency,
{
}

/// A falling sweep keeps falling, one step per period, all the way to the
/// bottom, and turns to rise exactly when it gets there.
pub proof fn lemma_falls(m: SweepModel, j: nat)
    requires
        m.wf(),
        m.direction == -1,
        m.frequency - FREQ_RISE * j >= BASE_FREQ,
    ensures
        m.after(j).frequency == m.frequency - FREQ_RISE * j,
        m.after(j).direction == if m.after(j).frequency == BASE_FREQ {
            1int
        } else {
            -1int
        },
    decreases j,
{
    if j > 0 {
        lemma_falls(m, (j - 1) as nat);
    }
}

/// A rising sweep keeps rising, one step per period, all the way to the top,
/// and turns to fall exactly when it gets there.
pub proof fn lemma_rises(m: SweepModel, j: nat)
    requires
        m.wf(),
        m.direction == 1,
        m.frequency + FREQ_RISE * j <= MAX_FREQ,
    ensures
        m.after(j).frequency == m.frequency + FREQ_RISE * j,
        m.after(j).direction == if m.after(j).frequency == MAX_FREQ {
            -1int
        } else {
            1int
        },
    decreases j,
{
    if j > 0 {
        lemma_rises(m, (j - 1) as nat);
    }
}

/// From the top the sweep takes [`NUMBER_STEPS`] periods to come down, each a
/// step lower than the last, and then stands at the bottom, rising, which is
/// where every sweep starts.
pub proof fn lemma_descent_from_top(j: nat)
    requires
        j <= NUMBER_STEPS,
    ensures
        (SweepModel { frequency: MAX_FREQ as int, direction: -1 }).after(j).frequency == MAX_FREQ
            - FREQ_RISE * j,
        j < NUMBER_STEPS ==> (SweepModel { frequency: MAX_FREQ as int, direction: -1 }).after(
            j,
        ).direction == -1,
        (SweepModel { frequency: MAX_FREQ as int, direction: -1 }).after(NUMBER_STEPS as nat)
            == SweepModel::initial(),
{
    let top = SweepModel { frequency: MAX_FREQ as int, direction: -1 };
    lemma_falls(top, j);
    lemma_falls(top, NUMBER_STEPS as nat);
}

/// The derived constants are what their definitions say: the step count is
/// the span of the sweep divided by the step, with nothing left over; the
/// note length is a second divided over one pass up and one pass down, rounded
/// down; the timer period is that length in microseconds.
pub proof fn lemma_derived_constants()
    ensures
        NUMBER_STEPS == (MAX_FREQ - BASE_FREQ) / (FREQ_RISE as int),
        (MAX_FREQ - BASE_FREQ) % (FREQ_RISE as int) == 0,
        DURATION_PER_NOTE_MS == 1000int / (2 * NUMBER_STEPS),
        CLOCK_CYCLES_PER_NOTE == DURATION_PER_NOTE_MS * 1000,
{
    assert(1000int / (2 * NUMBER_STEPS) == 22) by (nonlinear_arith)
        requires
            NUMBER_STEPS == 22,
    ;
}

/// The sweep as the firmware holds it: two machine integers that always form
/// a state the sweep can be in.
pub struct SweepState {
    current_frequency: i32,
    direction: i32,
}

impl View for SweepState {
    type V = SweepModel;

    closed spec fn view(&self) -> SweepModel {
        SweepModel { frequency: self.current_frequency as int, direction: self.direction as int }
    }
}

impl SweepState {
    #[verifier::type_invariant]
    spec fn inv(self) -> bool {
        self@.wf()
    }

    /// The state every sweep starts in: [`BASE_FREQ`], rising.
    pub fn new() -> (state: SweepState)
        ensures
            state@ == SweepModel::initial(),
            state@.wf(),
    {
        SweepState { current_frequency: BASE_FREQ, direction: 1 }
    }

    /// Rebuilds a state from a frequency and a direction stored elsewhere.
    /// Succeeds exactly for the pairs a sweep can be in.
    pub fn from_parts(frequency: i32, direction: i32) -> (state: Option<SweepState>)
        ensures
            state is Some <==> (SweepModel {
                frequency: frequency as int,
                direction: direction as int,
            }).wf(),
            state matches Some(s) ==> s@ == (SweepModel {
                frequency: frequency as int,
                direction: direction as int,
            }),
    {
        let on_grid = BASE_FREQ <= frequency && frequency <= MAX_FREQ && (frequency - BASE_FREQ)
            % FREQ_RISE == 0;
        let may_rise = direction == 1 && frequency < MAX_FREQ;
        let may_fall = direction == -1 && frequency > BASE_FREQ;
        if on_grid && (may_rise || may_fall) {
            Some(SweepState { current_frequency: frequency, direction })
        } else {
            None
        }
    }

    /// The current frequency in Hz.
    pub fn current_frequency(&self) -> (frequency: i32)
        ensures
            frequency == self@.frequency,
            self@.wf(),
    {
        proof {
            use_type_invariant(self);
        }
        self.current_frequency
    }

    /// The current direction: `1` while rising, `-1` while falling.
    pub fn direction(&self) -> (direction: i32)
        ensures
            direction == self@.direction,
            self@.wf(),
    {
        proof {
            use_type_invariant(self);
        }
        self.direction
    }

    /// Advances the sweep by one timer period and returns the frequency it
    /// had before the move.
    pub fn step(&mut self) -> (previous: i32)
        ensures
            previous == old(self)@.frequency,
            old(self)@.wf(),
            final(self)@ == old(self)@.next(),
            final(self)@.wf(),
    {
        proof {
            use_type_invariant(&*self);
        }
        let scalar = self.direction;
        let previous = self.current_frequency;
        let turned = if previous == MAX_FREQ - FREQ_RISE && scalar > 0 {
            -scalar
        } else if previous == BASE_FREQ + FREQ_RISE && scalar < 0 {
            -scalar
        } else {
            scalar
        };
        *self = SweepState { current_frequency: previous + FREQ_RISE * scalar, direction: turned };
        previous
    }
}

} // verus!
