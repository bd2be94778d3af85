//! What the siren does on each timer expiry.
//!
//! The timer interrupt is the only writer of the sweep. On every expiry it
//! advances the sweep by one step and reprograms the two peripherals. The
//! decision is made here; the firmware carries it out with both peripherals
//! locked.

use vstd::prelude::*;
use crate::sweep::{SweepModel, SweepState, BASE_FREQ, CLOCK_CYCLES_PER_NOTE, MAX_FREQ};

verus! {

/// Full scale of the oscillator's duty register: duty is counted in
/// thousandths of the period.
pub const DUTY_SCALE: u16 = 1000;

/// The duty the siren always sounds at: half the period.
pub const DUTY_HALF: u16 = 500;

/// The register values one timer expiry asks for.
#[derive(Clone, Copy, Debug, PartialEq, Eq, Structural)]
pub struct Retune {
    /// Oscillator frequency in Hz.
    pub period_hz: u32,
    /// Oscillator duty, in thousandths of the period. Changing the frequency
    /// resets the duty register, so it is written again every time.
    pub duty: u16,
    /// Ticks until the next expiry; the pending event is cleared before the
    /// timer is started again.
    pub rearm_cycles: u32,
}

/// The register values that go with a state of the sweep.
pub open spec fn retune_for(m: SweepModel) -> Retune {
    Retune {
        period_hz: m.frequency as u32,
        duty: DUTY_HALF,
        rearm_cycles: CLOCK_CYCLES_PER_NOTE,
    }
}

/// The oscillator setting before the first expiry: the bottom of the sweep
/// at half duty, with the timer armed for one step.
pub fn initial_tuning() -> (tuning: Retune)
    ensures
        tuning == retune_for(SweepModel::initial()),
        tuning.period_hz == BASE_FREQ,
{
    Retune { period_hz: BASE_FREQ as u32, duty: DUTY_HALF, rearm_cycles: CLOCK_CYCLES_PER_NOTE }
}

/// Handles one timer expiry: moves the sweep one step on and says what to
/// program for the frequency it has moved to.
pub fn on_timer_expiry(state: &mut SweepState) -> (action: Retune)
    ensures
        final(state)@ == old(state)@.next(),
        final(state)@.wf(),
        action == retune_for(final(state)@),
        BASE_FREQ <= action.period_hz <= MAX_FREQ,
        2 * action.duty == DUTY_SCALE,
{
    state.step();
    let frequency = state.current_frequency();
    Retune { period_hz: frequency as u32, duty: DUTY_HALF, rearm_cycles: CLOCK_CYCLES_PER_NOTE }
}

} // verus!
