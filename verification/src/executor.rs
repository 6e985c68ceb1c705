//! The trigger-action executor: the two-phase power-plan swap as a state
//! machine. The caller activates plans and sleeps; the machine says what to do
//! next and where the run ends.

use crate::text::str_eq;
use crate::trigger_action::TriggerAction;
use crate::trigger_action::TriggerActionView;
use crate::trigger_action::TriggerActionWorker;
use vstd::prelude::*;

verus! {

/// Where a run of the executor stands.
#[derive(Clone, Copy, Debug, PartialEq, Eq, Structural)]
pub enum ExecutorPhase {
    /// Nothing was asked of the power capability yet.
    Idle,
    /// The temporary plan is being activated.
    ActivatingTemp,
    /// The temporary plan is active and the pause runs.
    Pausing,
    /// The target plan is being activated.
    ActivatingTarget,
    /// Both plans were activated in turn.
    Done,
    /// An activation failed; nothing further is attempted.
    Failed,
}

/// What the caller reports back to the machine.
#[derive(Clone, Copy, Debug, PartialEq, Eq, Structural)]
pub enum ExecutorEvent {
    /// The run is to begin.
    Start,
    /// The plan that was to be activated is active.
    PlanActivated,
    /// The plan that was to be activated could not be activated.
    PlanActivationFailed,
    /// The pause is over.
    PauseElapsed,
}

/// Which of the two activations failed.
#[derive(Clone, Copy, Debug, PartialEq, Eq, Structural)]
pub enum FailedPhase {
    Temp,
    Target,
}

/// What the caller is to do next.
#[derive(Debug)]
pub enum ExecutorCommand {
    /// Ask the power capability to activate this plan, then report
    /// `PlanActivated` or `PlanActivationFailed`.
    ActivatePlan(String),
    /// Suspend for this many seconds, then report `PauseElapsed`.
    Pause(u64),
    /// Tell the user that the run failed at this activation. The run is over.
    NotifyFailure(FailedPhase),
    /// Tell the user that the run is complete. The run is over.
    NotifyCompletion,
    /// The event does not fit the phase: nothing to do, nothing changed.
    Nothing,
}

/// A command as specifications see it.
pub enum CommandView {
    ActivatePlan(Seq<char>),
    Pause(u64),
    NotifyFailure(FailedPhase),
    NotifyCompletion,
    Nothing,
}

impl View for ExecutorCommand {
    type V = CommandView;

    open spec fn view(&self) -> CommandView {
        match self {
            ExecutorCommand::ActivatePlan(guid) => CommandView::ActivatePlan(guid@),
            ExecutorCommand::Pause(seconds) => CommandView::Pause(*seconds),
            ExecutorCommand::NotifyFailure(phase) => CommandView::NotifyFailure(*phase),
            ExecutorCommand::NotifyCompletion => CommandView::NotifyCompletion,
            ExecutorCommand::Nothing => CommandView::Nothing,
        }
    }
}

/// One run of the executor for one action.
pub struct TriggerExecution {
    phase: ExecutorPhase,
    temp_plan_guid: String,
    pause_seconds: u32,
    target_plan_guid: String,
}

/// A run as specifications see it.
pub struct ExecutionView {
    pub phase: ExecutorPhase,
    pub temp_plan_guid: Seq<char>,
    pub pause_seconds: u32,
    pub target_plan_guid: Seq<char>,
}

impl View for TriggerExecution {
    type V = ExecutionView;

    closed spec fn view(&self) -> ExecutionView {
        ExecutionView {
            phase: self.phase,
            temp_plan_guid: self.temp_plan_guid@,
            pause_seconds: self.pause_seconds,
            target_plan_guid: self.target_plan_guid@,
        }
    }
}

/// What there is to run for an action.
pub enum ExecutionStart {
    /// A plan swap, ready for `Start`.
    Run(TriggerExecution),
    /// An action of a kind that does nothing yet.
    NothingToDo,
    /// An action whose stored kind is none of the known ones.
    UnknownVersion,
}

/// The phase that follows `phase` on `event`. An event that does not fit the
/// phase changes nothing; `Done` and `Failed` are never left.
pub open spec fn next_phase(phase: ExecutorPhase, event: ExecutorEvent) -> ExecutorPhase {
    match (phase, event) {
        (ExecutorPhase::Idle, ExecutorEvent::Start) => ExecutorPhase::ActivatingTemp,
        (ExecutorPhase::ActivatingTemp, ExecutorEvent::PlanActivated) => ExecutorPhase::Pausing,
        (ExecutorPhase::ActivatingTemp, ExecutorEvent::PlanActivationFailed) => {
            ExecutorPhase::Failed
        },
        (ExecutorPhase::Pausing, ExecutorEvent::PauseElapsed) => ExecutorPhase::ActivatingTarget,
        (ExecutorPhase::ActivatingTarget, ExecutorEvent::PlanActivated) => ExecutorPhase::Done,
        (ExecutorPhase::ActivatingTarget, ExecutorEvent::PlanActivationFailed) => {
            ExecutorPhase::Failed
        },
        _ => phase,
    }
}

/// The command that a run gives on `event`.
pub open spec fn command_for(run: ExecutionView, event: ExecutorEvent) -> CommandView {
    match (run.phase, event) {
        (ExecutorPhase::Idle, ExecutorEvent::Start) => CommandView::ActivatePlan(
            run.temp_plan_guid,
        ),
        (ExecutorPhase::ActivatingTemp, ExecutorEvent::PlanActivated) => CommandView::Pause(
            run.pause_seconds as u64,
        ),
        (ExecutorPhase::ActivatingTemp, ExecutorEvent::PlanActivationFailed) => {
            CommandView::NotifyFailure(FailedPhase::Temp)
        },
        (ExecutorPhase::Pausing, ExecutorEvent::PauseElapsed) => CommandView::ActivatePlan(
            run.target_plan_guid,
        ),
        (ExecutorPhase::ActivatingTarget, ExecutorEvent::PlanActivated) => {
            CommandView::NotifyCompletion
        },
        (ExecutorPhase::ActivatingTarget, ExecutorEvent::PlanActivationFailed) => {
            CommandView::NotifyFailure(FailedPhase::Target)
        },
        _ => CommandView::Nothing,
    }
}

/// The run after `event`.
pub open spec fn run_after(run: ExecutionView, event: ExecutorEvent) -> ExecutionView {
    ExecutionView { phase: next_phase(run.phase, event), ..run }
}

/// Whether an action is a plan swap that the executor runs.
pub open spec fn is_plan_swap(action: TriggerActionView) -> bool {
    action.version == "simple"@ && action.worker is Simple
}

/// Whether the stored kind of an action is one of the known ones.
pub open spec fn is_known_version(version: Seq<char>) -> bool {
    version == "simple"@ || version == "setting_switch"@ || version == "workflow"@
}

impl TriggerExecution {
    /// Prepares the run for an action. Only a plan swap gives a run, which
    /// stands at `Idle` and holds the action's plans and pause.
    pub fn new(action: &TriggerAction) -> (r: ExecutionStart)
        ensures
            match r {
                ExecutionStart::Run(run) => is_plan_swap(action@) && run@ == (ExecutionView {
                    phase: ExecutorPhase::Idle,
                    temp_plan_guid: action@.worker->temp_plan_guid,
                    pause_seconds: action@.worker->pause_seconds,
                    target_plan_guid: action@.worker->target_plan_guid,
                }),
                ExecutionStart::NothingToDo => !is_plan_swap(action@) && is_known_version(
                    action@.version,
                ),
                ExecutionStart::UnknownVersion => !is_known_version(action@.version),
            },
    {
        if str_eq(action.version.as_str(), "simple") {
            match &action.worker {
                TriggerActionWorker::Simple { temp_plan_guid, pause_seconds, target_plan_guid } => {
                    ExecutionStart::Run(
                        TriggerExecution {
                            phase: ExecutorPhase::Idle,
                            temp_plan_guid: temp_plan_guid.clone(),
                            pause_seconds: *pause_seconds,
                            target_plan_guid: target_plan_guid.clone(),
                        },
                    )
                },
                _ => ExecutionStart::NothingToDo,
            }
        } else if str_eq(action.version.as_str(), "setting_switch") || str_eq(
            action.version.as_str(),
            "workflow",
        ) {
            ExecutionStart::NothingToDo
        } else {
            ExecutionStart::UnknownVersion
        }
    }

    /// Where the run stands.
    pub fn phase(&self) -> (r: ExecutorPhase)
        ensures
            r == self@.phase,
    {
        self.phase
    }

    /// Whether the run is over, well or badly.
    pub fn is_finished(&self) -> (r: bool)
        ensures
            r == (self@.phase == ExecutorPhase::Done || self@.phase == ExecutorPhase::Failed),
    {
        match self.phase {
            ExecutorPhase::Done => true,
            ExecutorPhase::Failed => true,
            _ => false,
        }
    }

    /// Takes the caller's report and says what to do next.
    pub fn step(&mut self, event: ExecutorEvent) -> (command: ExecutorCommand)
        ensures
            command@ == command_for(old(self)@, event),
            final(self)@ == run_after(old(self)@, event),
    {
        match (self.phase, event) {
            (ExecutorPhase::Idle, ExecutorEvent::Start) => {
                self.phase = ExecutorPhase::ActivatingTemp;
                ExecutorCommand::ActivatePlan(self.temp_plan_guid.clone())
            },
            (ExecutorPhase::ActivatingTemp, ExecutorEvent::PlanActivated) => {
                self.phase = ExecutorPhase::Pausing;
                ExecutorCommand::Pause(self.pause_seconds as u64)
            },
            (ExecutorPhase::ActivatingTemp, ExecutorEvent::PlanActivationFailed) => {
                self.phase = ExecutorPhase::Failed;
                ExecutorCommand::NotifyFailure(FailedPhase::Temp)
            },
            (ExecutorPhase::Pausing, ExecutorEvent::PauseElapsed) => {
                self.phase = ExecutorPhase::ActivatingTarget;
                ExecutorCommand::ActivatePlan(self.target_plan_guid.clone())
            },
            (ExecutorPhase::ActivatingTarget, ExecutorEvent::PlanActivated) => {
                self.phase = ExecutorPhase::Done;
                ExecutorCommand::NotifyCompletion
            },
            (ExecutorPhase::ActivatingTarget, ExecutorEvent::PlanActivationFailed) => {
                self.phase = ExecutorPhase::Failed;
                ExecutorCommand::NotifyFailure(FailedPhase::Target)
            },
            _ => ExecutorCommand::Nothing,
        }
    }
}

/// Prepares the run of the executor for an action, as `TriggerExecution::new`
/// does. The caller drives the run: it reports `Start`, carries out each
/// command and reports how it went, until the run is finished.
pub fn execute_trigger_action(action: &TriggerAction) -> (r: ExecutionStart)
    ensures
        match r {
            ExecutionStart::Run(run) => is_plan_swap(action@) && run@ == (ExecutionView {
                phase: ExecutorPhase::Idle,
                temp_plan_guid: action@.worker->temp_plan_guid,
                pause_seconds: action@.worker->pause_seconds,
                target_plan_guid: action@.worker->target_plan_guid,
            }),
            ExecutionStart::NothingToDo => !is_plan_swap(action@) && is_known_version(
                action@.version,
            ),
            ExecutionStart::UnknownVersion => !is_known_version(action@.version),
        },
{
    TriggerExecution::new(action)
}

/// A run whose activations all succeed goes through the two phases in order:
/// activate the temporary plan, pause for the configured seconds, activate the
/// target plan, report completion, and ends in `Done`.
pub proof fn lemma_successful_run(run: ExecutionView)
    requires
        run.phase == ExecutorPhase::Idle,
    ensures
        ({
            let s1 = run_after(run, ExecutorEvent::Start);
            let s2 = run_after(s1, ExecutorEvent::PlanActivated);
            let s3 = run_after(s2, ExecutorEvent::PauseElapsed);
            let s4 = run_after(s3, ExecutorEvent::PlanActivated);
            &&& command_for(run, ExecutorEvent::Start) == CommandView::ActivatePlan(
                run.temp_plan_guid,
            )
            &&& command_for(s1, ExecutorEvent::PlanActivated) == CommandView::Pause(
                run.pause_seconds as u64,
            )
            &&& command_for(s2, ExecutorEvent::PauseElapsed) == CommandView::ActivatePlan(
                run.target_plan_guid,
            )
            &&& command_for(s3, ExecutorEvent::PlanActivated) == CommandView::NotifyCompletion
            &&& s4.phase == ExecutorPhase::Done
        }),
{
}

/// A run whose first activation fails ends in `Failed` at once: the target
/// plan is never asked for, whatever is reported afterwards.
pub proof fn lemma_temp_failure_ends_run(run: ExecutionView, later: ExecutorEvent)
    requires
        run.phase == ExecutorPhase::ActivatingTemp,
    ensures
        run_after(run, ExecutorEvent::PlanActivationFailed).phase == ExecutorPhase::Failed,
        command_for(run, ExecutorEvent::PlanActivationFailed) == CommandView::NotifyFailure(
            FailedPhase::Temp,
        ),
        command_for(run_after(run, ExecutorEvent::PlanActivationFailed), later)
            == CommandView::Nothing,
        run_after(run_after(run, ExecutorEvent::PlanActivationFailed), later).phase
            == ExecutorPhase::Failed,
{
}

} // verus!
