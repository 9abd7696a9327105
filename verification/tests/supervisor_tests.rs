use phase1_coordinator::supervisor::{SupervisionRace, SweepAction, TaskKind, sweep_step};

#[test]
fn a_successful_pass_keeps_the_sweep_running() {
    assert!(matches!(sweep_step(Ok(())), SweepAction::Continue));
}

#[test]
fn a_failing_pass_ends_the_sweep_with_its_error() {
    match sweep_step(Err("update pass failed".to_string())) {
        SweepAction::Exit(m) => assert_eq!(m, "update pass failed"),
        SweepAction::Continue => panic!("a failing pass must end the sweep"),
    }
}

#[test]
fn undecided_race_reports_nothing() {
    let race = SupervisionRace::new();
    assert!(race.report().is_none());
}

#[test]
fn first_completion_decides_the_race() {
    // The update sweep fails while the other two still run: the process
    // reports the update sweep's error, whatever completes afterwards.
    let mut race = SupervisionRace::new();
    race.record(TaskKind::UpdateSweep, Some("update failed".to_string()));
    race.record(TaskKind::RestServer, None);
    race.record(TaskKind::VerifySweep, Some("verify failed".to_string()));
    let report = race.report().as_ref().unwrap();
    assert_eq!(report.task, TaskKind::UpdateSweep);
    assert_eq!(report.error, Some("update failed".to_string()));
}

#[test]
fn a_successful_first_completion_also_decides() {
    let mut race = SupervisionRace::new();
    race.record(TaskKind::RestServer, None);
    race.record(TaskKind::UpdateSweep, Some("late".to_string()));
    let report = race.report().as_ref().unwrap();
    assert_eq!(report.task, TaskKind::RestServer);
    assert_eq!(report.error, None);
}
