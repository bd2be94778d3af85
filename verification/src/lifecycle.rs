//! Bringing the siren up and taking it down again.
//!
//! The main context claims the hardware, shares the two peripherals, lets the
//! timer interrupt run for a countdown and then silences the siren for good.
//! The order matters: the interrupt handler must never find a peripheral that
//! has not been shared yet, and must never fire against an oscillator that is
//! already off. This module decides what comes next; the firmware does it
//! and reports back.

use vstd::prelude::*;

verus! {

/// Seconds the siren sounds before it is taken down.
pub const COUNTDOWN_SECONDS: u8 = 10;

/// Length of one countdown wait, in milliseconds.
pub const COUNTDOWN_WAIT_MS: u32 = 1000;

/// How far the main context has come.
#[derive(Clone, Copy, Debug, PartialEq, Eq, Structural)]
pub enum Phase {
    /// Nothing has been touched yet.
    Boot,
    /// The hardware has been asked for.
    Claiming,
    /// Both peripherals are in their shared containers.
    Installed,
    /// The timer interrupt is live and the siren sweeps; `remaining` seconds
    /// of the countdown are still to be waited.
    Sounding { remaining: u8 },
    /// The timer interrupt is off; the oscillator is still on.
    Silencing,
    /// Everything is off. Only a reset leaves this phase.
    Idle,
    /// Startup failed. Only a reset leaves this phase.
    Halted,
}

/// How the action handed out last went.
#[derive(Clone, Copy, Debug, PartialEq, Eq, Structural)]
pub enum Outcome {
    /// It was carried out.
    Done,
    /// The hardware was already claimed by someone else.
    Unavailable,
}

/// What the firmware is to do next.
#[derive(Clone, Copy, Debug, PartialEq, Eq, Structural)]
pub enum Action {
    /// Claim the board, set up the oscillator at the bottom of the sweep and
    /// arm the timer. Reports [`Outcome::Unavailable`] if the board is taken.
    ClaimHardware,
    /// Move the oscillator and the timer into their shared containers.
    InstallHandles,
    /// Unmask the timer interrupt: from here on the siren sweeps.
    UnmaskInterrupt,
    /// Announce `seconds_left` and wait [`COUNTDOWN_WAIT_MS`].
    Wait { seconds_left: u8 },
    /// Disable the timer interrupt and clear its pending event.
    DisableInterrupt,
    /// Switch the oscillator off.
    DisableOscillator,
    /// Sleep until the next interrupt, for ever.
    Park,
    /// Stop: the hardware could not be had and nothing has been switched on.
    Halt,
}

/// The phase that follows `phase` once its action has been carried out with
/// the given outcome of the action before. An outcome only matters while
/// claiming: every later action cannot fail.
pub open spec fn next_phase(phase: Phase, outcome: Outcome) -> Phase {
    match phase {
        Phase::Boot => Phase::Claiming,
        Phase::Claiming => if outcome == Outcome::Unavailable {
            Phase::Halted
        } else {
            Phase::Installed
        },
        Phase::Installed => Phase::Sounding { remaining: COUNTDOWN_SECONDS },
        Phase::Sounding { remaining } => if remaining > 0 {
            Phase::Sounding { remaining: (remaining - 1) as u8 }
        } else {
            Phase::Silencing
        },
        Phase::Silencing => Phase::Idle,
        Phase::Idle => Phase::Idle,
        Phase::Halted => Phase::Halted,
    }
}

/// The action to carry out in `phase`, given the outcome of the action
/// before.
pub open spec fn action_in(phase: Phase, outcome: Outcome) -> Action {
    match phase {
        Phase::Boot => Action::ClaimHardware,
        Phase::Claiming => if outcome == Outcome::Unavailable {
            Action::Halt
        } else {
            Action::InstallHandles
        },
        Phase::Installed => Action::UnmaskInterrupt,
        Phase::Sounding { remaining } => if remaining > 0 {
            Action::Wait { seconds_left: remaining }
        } else {
            Action::DisableInterrupt
        },
        Phase::Silencing => Action::DisableOscillator,
        Phase::Idle => Action::Park,
        Phase::Halted => Action::Halt,
    }
}

/// Decides the next action and the phase it leads to.
pub fn advance(phase: Phase, outcome: Outcome) -> (next: (Phase, Action))
    ensures
        next.0 == next_phase(phase, outcome),
        next.1 == action_in(phase, outcome),
{
    match phase {
        Phase::Boot => (Phase::Claiming, Action::ClaimHardware),
        Phase::Claiming => match outcome {
            Outcome::Unavailable => (Phase::Halted, Action::Halt),
            Outcome::Done => (Phase::Installed, Action::InstallHandles),
        },
        Phase::Installed => (
            Phase::Sounding { remaining: COUNTDOWN_SECONDS },
            Action::UnmaskInterrupt,
        ),
        Phase::Sounding { remaining } => if remaining > 0 {
            (Phase::Sounding { remaining: remaining - 1 }, Action::Wait { seconds_left: remaining })
        } else {
            (Phase::Silencing, Action::DisableInterrupt)
        },
        Phase::Silencing => (Phase::Idle, Action::DisableOscillator),
        Phase::Idle => (Phase::Idle, Action::Park),
        Phase::Halted => (Phase::Halted, Action::Halt),
    }
}

/// The phase in which the `n`-th decision of a run is taken, counting from
/// zero, where `outcomes(i)` is the outcome reported to the `i`-th decision.
pub open spec fn phase_at(outcomes: spec_fn(nat) -> Outcome, n: nat) -> Phase
    decreases n,
{
    if n == 0 {
        Phase::Boot
    } else {
        next_phase(phase_at(outcomes, (n - 1) as nat), outcomes((n - 1) as nat))
    }
}

/// The `n`-th action of a run, counting from zero.
pub open spec fn action_at(outcomes: spec_fn(nat) -> Outcome, n: nat) -> Action {
    action_in(phase_at(outcomes, n), outcomes(n))
}

/// The whole run written out. Every run begins by claiming the hardware. If
/// that fails the run halts and stays halted. Otherwise the handles are
/// installed, the interrupt is unmasked, the countdown is waited out from
/// [`COUNTDOWN_SECONDS`] down to one, the interrupt is disabled, then the
/// oscillator, and the main context parks.
pub open spec fn script(claimed: bool, n: nat) -> Action {
    if n == 0 {
        Action::ClaimHardware
    } else if !claimed {
        Action::Halt
    } else if n == 1 {
        Action::InstallHandles
    } else if n == 2 {
        Action::UnmaskInterrupt
    } else if n <= 2 + COUNTDOWN_SECONDS {
        Action::Wait { seconds_left: (3 + COUNTDOWN_SECONDS - n) as u8 }
    } else if n == 3 + COUNTDOWN_SECONDS {
        Action::DisableInterrupt
    } else if n == 4 + COUNTDOWN_SECONDS {
        Action::DisableOscillator
    } else {
        Action::Park
    }
}

/// The phase that goes with each position of [`script`].
pub open spec fn script_phase(claimed: bool, n: nat) -> Phase {
    if n == 0 {
        Phase::Boot
    } else if n == 1 {
        Phase::Claiming
    } else if !claimed {
        Phase::Halted
    } else if n == 2 {
        Phase::Installed
    } else if n <= 3 + COUNTDOWN_SECONDS {
        Phase::Sounding { remaining: (3 + COUNTDOWN_SECONDS - n) as u8 }
    } else if n == 4 + COUNTDOWN_SECONDS {
        Phase::Silencing
    } else {
        Phase::Idle
    }
}

/// Every run follows the script, whatever outcomes are reported: the only
/// outcome that makes a difference is the one of claiming the hardware.
pub proof fn lemma_run_follows_script(outcomes: spec_fn(nat) -> Outcome, n: nat)
    ensures
        phase_at(outcomes, n) == script_phase(outcomes(1) != Outcome::Unavailable, n),
        action_at(outcomes, n) == script(outcomes(1) != Outcome::Unavailable, n),
    decreases n,
{
    if n > 0 {
        lemma_run_follows_script(outcomes, (n - 1) as nat);
    }
}

/// The timer interrupt is unmasked only directly after the handles have been
/// installed, and the handles are installed once in a run at most. So the
/// interrupt handler always finds both handles in place, and nothing is ever
/// installed over a handle that is already there.
pub proof fn lemma_handles_installed_before_unmask(
    outcomes: spec_fn(nat) -> Outcome,
    n: nat,
    m: nat,
)
    ensures
        action_at(outcomes, n) == Action::UnmaskInterrupt ==> n >= 1 && action_at(
            outcomes,
            (n - 1) as nat,
        ) == Action::InstallHandles,
        action_at(outcomes, n) == Action::InstallHandles && action_at(outcomes, m)
            == Action::InstallHandles ==> n == m,
{
    lemma_run_follows_script(outcomes, n);
    lemma_run_follows_script(outcomes, m);
    if n >= 1 {
        lemma_run_follows_script(outcomes, (n - 1) as nat);
    }
}

/// The oscillator is switched off only directly after the timer interrupt has
/// been disabled, and no action after that unmasks the interrupt again. So no
/// expiry is ever handled against an oscillator that is off.
pub proof fn lemma_interrupt_off_before_oscillator_off(
    outcomes: spec_fn(nat) -> Outcome,
    n: nat,
    later: nat,
)
    ensures
        action_at(outcomes, n) == Action::DisableOscillator ==> n >= 1 && action_at(
            outcomes,
            (n - 1) as nat,
        ) == Action::DisableInterrupt,
        action_at(outcomes, n) == Action::DisableInterrupt && later > n ==> action_at(
            outcomes,
            later,
        ) != Action::UnmaskInterrupt,
{
    lemma_run_follows_script(outcomes, n);
    lemma_run_follows_script(outcomes, later);
    if n >= 1 {
        lemma_run_follows_script(outcomes, (n - 1) as nat);
    }
}

/// When the hardware cannot be had, the run halts at once and for good:
/// nothing is installed, unmasked or switched on.
pub proof fn lemma_failed_claim_halts(outcomes: spec_fn(nat) -> Outcome, n: nat)
    requires
        outcomes(1) == Outcome::Unavailable,
        n >= 1,
    ensures
        action_at(outcomes, n) == Action::Halt,
{
    lemma_run_follows_script(outcomes, n);
}

/// The two final phases are never left: once idle, the only action is to
/// park; once halted, the only action is to halt.
pub proof fn lemma_final_phases(outcome: Outcome)
    ensures
        next_phase(Phase::Idle, outcome) == Phase::Idle,
        action_in(Phase::Idle, outcome) == Action::Park,
        next_phase(Phase::Halted, outcome) == Phase::Halted,
        action_in(Phase::Halted, outcome) == Action::Halt,
{
}

} // verus!
