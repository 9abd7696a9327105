//! Supervision of the run phase: three long-lived tasks — the REST server
//! and the two periodic sweeps — race, and the first to complete, with
//! success or error, ends the process run phase and is the outcome the
//! process reports. The losers are left running and only logged.
//!
//! The tasks' own work (serving requests, one coordinator-update pass, one
//! verification pass) belongs to external collaborators; this module owns
//! the decisions: when a sweep loop ends, and which outcome the race
//! reports.

use vstd::prelude::*;

verus! {

/// The three long-running units the run phase races.
#[derive(Clone, Copy, Debug, PartialEq, Eq, Structural)]
pub enum TaskKind {
    /// The externally facing REST service.
    RestServer,
    /// The periodic coordinator-update pass.
    UpdateSweep,
    /// The periodic verification pass over pending contributions.
    VerifySweep,
}

/// How one supervised task ended: which task, and its error if it failed.
pub struct TaskOutcome {
    pub task: TaskKind,
    pub error: Option<String>,
}

/// What one sweep iteration decides: go round again, or end the task.
pub enum SweepAction {
    /// The pass succeeded; the sweep sleeps and runs another pass.
    Continue,
    /// The pass failed; the sweep task ends with the pass's error.
    Exit(String),
}

/// Decides one iteration of a periodic sweep (update or verify): a
/// successful pass never ends the loop, so the sweep exits only on error,
/// and then with exactly the error the pass raised.
pub fn sweep_step(pass: Result<(), String>) -> (r: SweepAction)
    ensures
        pass is Ok <==> r is Continue,
        pass matches Err(e) ==> r matches SweepAction::Exit(m) && m@ == e@,
{
    match pass {
        Ok(()) => SweepAction::Continue,
        Err(e) => SweepAction::Exit(e),
    }
}

/// What recording one completion does to the race: the first completion is
/// kept, every later one changes nothing.
pub open spec fn record_spec(
    state: Option<TaskOutcome>,
    outcome: TaskOutcome,
) -> Option<TaskOutcome> {
    if state is Some {
        state
    } else {
        Some(outcome)
    }
}

/// The race state after a sequence of completions lands on `state`, in the
/// order they landed.
pub open spec fn record_all_spec(
    state: Option<TaskOutcome>,
    outcomes: Seq<TaskOutcome>,
) -> Option<TaskOutcome>
    decreases outcomes.len(),
{
    if outcomes.len() == 0 {
        state
    } else {
        record_all_spec(record_spec(state, outcomes[0]), outcomes.drop_first())
    }
}

/// The run-phase race: holds the outcome of the first task to complete,
/// once one has.
pub struct SupervisionRace {
    finished: Option<TaskOutcome>,
}

impl SupervisionRace {
    /// The outcome that decided the race, if it is decided.
    pub closed spec fn finished_view(&self) -> Option<TaskOutcome> {
        self.finished
    }

    /// Starts the run phase: no task has completed yet.
    pub fn new() -> (r: SupervisionRace)
        ensures
            r.finished_view() is None,
    {
        SupervisionRace { finished: None }
    }

    /// Records that a task completed with the given outcome. The first
    /// completion decides the race; a later one is only logged by the
    /// caller and changes nothing here.
    pub fn record(&mut self, task: TaskKind, error: Option<String>)
        ensures
            final (self).finished_view() == record_spec(
                old(self).finished_view(),
                TaskOutcome { task, error },
            ),
    {
        if self.finished.is_none() {
            self.finished = Some(TaskOutcome { task, error });
        }
    }

    /// The outcome the process reports: that of the first task to complete,
    /// or nothing while all three still run.
    pub fn report(&self) -> (r: &Option<TaskOutcome>)
        ensures
            r == self.finished_view(),
    {
        &self.finished
    }
}

/// Law: once the race is decided, later completions change nothing.
pub proof fn lemma_decided_race_stays(outcome: TaskOutcome, later: Seq<TaskOutcome>)
    ensures
        record_all_spec(Some(outcome), later) == Some(outcome),
    decreases later.len(),
{
    if later.len() > 0 {
        lemma_decided_race_stays(outcome, later.drop_first());
    }
}

/// Law: the first task to complete decides the race. In particular, when a
/// sweep raises an error while the other two tasks are still running, the
/// process reports that sweep's outcome, whatever order the remaining
/// completions arrive in afterwards.
pub proof fn lemma_first_completion_decides(first: TaskOutcome, later: Seq<TaskOutcome>)
    ensures
        record_all_spec(record_spec(Option::<TaskOutcome>::None, first), later) == Some(first),
{
    lemma_decided_race_stays(first, later);
}

} // verus!
