use indicators::lifecycle::{
    advance, Action, Outcome, Phase, COUNTDOWN_SECONDS, COUNTDOWN_WAIT_MS,
};

fn run(claim: Outcome, decisions: usize) -> Vec<(Phase, Action)> {
    let mut phase = Phase::Boot;
    let mut outcome = Outcome::Done;
    let mut trace = Vec::new();
    for _ in 0..decisions {
        let (next, action) = advance(phase, outcome);
        trace.push((phase, action));
        outcome = if action == Action::ClaimHardware { claim } else { Outcome::Done };
        phase = next;
    }
    trace
}

#[test]
fn countdown_constants() {
    assert_eq!(COUNTDOWN_SECONDS, 10);
    assert_eq!(COUNTDOWN_WAIT_MS, 1000);
}

#[test]
fn a_good_run_follows_the_script() {
    let actions: Vec<Action> = run(Outcome::Done, 18).into_iter().map(|(_, a)| a).collect();
    let mut expected = vec![Action::ClaimHardware, Action::InstallHandles, Action::UnmaskInterrupt];
    for seconds_left in (1..=10).rev() {
        expected.push(Action::Wait { seconds_left });
    }
    expected.push(Action::DisableInterrupt);
    expected.push(Action::DisableOscillator);
    expected.push(Action::Park);
    expected.push(Action::Park);
    expected.push(Action::Park);
    assert_eq!(actions, expected);
}

#[test]
fn phases_of_a_good_run() {
    let phases: Vec<Phase> = run(Outcome::Done, 17).into_iter().map(|(p, _)| p).collect();
    assert_eq!(phases[0], Phase::Boot);
    assert_eq!(phases[1], Phase::Claiming);
    assert_eq!(phases[2], Phase::Installed);
    assert_eq!(phases[3], Phase::Sounding { remaining: 10 });
    assert_eq!(phases[12], Phase::Sounding { remaining: 1 });
    assert_eq!(phases[13], Phase::Sounding { remaining: 0 });
    assert_eq!(phases[14], Phase::Silencing);
    assert_eq!(phases[15], Phase::Idle);
    assert_eq!(phases[16], Phase::Idle);
}

#[test]
fn handles_are_installed_once_and_before_the_interrupt() {
    let actions: Vec<Action> = run(Outcome::Done, 40).into_iter().map(|(_, a)| a).collect();
    let installs: Vec<usize> =
        (0..actions.len()).filter(|&i| actions[i] == Action::InstallHandles).collect();
    let unmasks: Vec<usize> =
        (0..actions.len()).filter(|&i| actions[i] == Action::UnmaskInterrupt).collect();
    assert_eq!(installs, vec![1]);
    assert_eq!(unmasks, vec![2]);
}

#[test]
fn interrupt_goes_off_before_the_oscillator() {
    let actions: Vec<Action> = run(Outcome::Done, 40).into_iter().map(|(_, a)| a).collect();
    let interrupt_off = actions.iter().position(|a| *a == Action::DisableInterrupt).unwrap();
    let oscillator_off = actions.iter().position(|a| *a == Action::DisableOscillator).unwrap();
    assert_eq!(interrupt_off + 1, oscillator_off);
    assert!(actions[oscillator_off + 1..].iter().all(|a| *a == Action::Park));
}

#[test]
fn a_failed_claim_halts_for_good() {
    let trace = run(Outcome::Unavailable, 12);
    assert_eq!(trace[0], (Phase::Boot, Action::ClaimHardware));
    assert_eq!(trace[1], (Phase::Claiming, Action::Halt));
    for step in &trace[2..] {
        assert_eq!(*step, (Phase::Halted, Action::Halt));
    }
}

#[test]
fn outcomes_after_the_claim_make_no_difference() {
    let mut phase = Phase::Boot;
    let mut outcome = Outcome::Unavailable;
    let mut actions = Vec::new();
    for _ in 0..16 {
        let (next, action) = advance(phase, outcome);
        actions.push(action);
        outcome = if action == Action::ClaimHardware { Outcome::Done } else { Outcome::Unavailable };
        phase = next;
    }
    let expected: Vec<Action> = run(Outcome::Done, 16).into_iter().map(|(_, a)| a).collect();
    assert_eq!(actions, expected);
}

#[test]
fn countdown_from_any_count() {
    assert_eq!(
        advance(Phase::Sounding { remaining: 255 }, Outcome::Done),
        (Phase::Sounding { remaining: 254 }, Action::Wait { seconds_left: 255 })
    );
    assert_eq!(
        advance(Phase::Sounding { remaining: 1 }, Outcome::Done),
        (Phase::Sounding { remaining: 0 }, Action::Wait { seconds_left: 1 })
    );
    assert_eq!(
        advance(Phase::Sounding { remaining: 0 }, Outcome::Done),
        (Phase::Silencing, Action::DisableInterrupt)
    );
}
