use amd_freq_guard::executor::execute_trigger_action;
use amd_freq_guard::executor::ExecutionStart;
use amd_freq_guard::executor::ExecutorCommand;
use amd_freq_guard::executor::ExecutorEvent;
use amd_freq_guard::executor::ExecutorPhase;
use amd_freq_guard::executor::FailedPhase;
use amd_freq_guard::executor::TriggerExecution;
use amd_freq_guard::trigger_action::TriggerAction;
use amd_freq_guard::trigger_action::TriggerActionWorker;

fn swap_action(version: &str) -> TriggerAction {
    TriggerAction {
        id: "id-1".to_string(),
        name: "swap".to_string(),
        version: version.to_string(),
        enabled: true,
        worker: TriggerActionWorker::Simple {
            temp_plan_guid: "T".to_string(),
            pause_seconds: 2,
            target_plan_guid: "G".to_string(),
        },
    }
}

fn started(action: &TriggerAction) -> TriggerExecution {
    match TriggerExecution::new(action) {
        ExecutionStart::Run(run) => run,
        _ => panic!("a plan swap must give a run"),
    }
}

#[test]
fn successful_run_goes_through_both_phases() {
    let mut run = started(&swap_action("simple"));
    assert_eq!(run.phase(), ExecutorPhase::Idle);
    assert!(matches!(run.step(ExecutorEvent::Start), ExecutorCommand::ActivatePlan(p) if p == "T"));
    assert_eq!(run.phase(), ExecutorPhase::ActivatingTemp);
    assert!(matches!(run.step(ExecutorEvent::PlanActivated), ExecutorCommand::Pause(2)));
    assert_eq!(run.phase(), ExecutorPhase::Pausing);
    assert!(
        matches!(run.step(ExecutorEvent::PauseElapsed), ExecutorCommand::ActivatePlan(p) if p == "G")
    );
    assert_eq!(run.phase(), ExecutorPhase::ActivatingTarget);
    assert!(matches!(run.step(ExecutorEvent::PlanActivated), ExecutorCommand::NotifyCompletion));
    assert_eq!(run.phase(), ExecutorPhase::Done);
    assert!(run.is_finished());
}

#[test]
fn failure_of_the_temporary_plan_ends_the_run() {
    let mut run = started(&swap_action("simple"));
    run.step(ExecutorEvent::Start);
    assert!(matches!(
        run.step(ExecutorEvent::PlanActivationFailed),
        ExecutorCommand::NotifyFailure(FailedPhase::Temp)
    ));
    assert_eq!(run.phase(), ExecutorPhase::Failed);
    assert!(run.is_finished());
    assert!(matches!(run.step(ExecutorEvent::PauseElapsed), ExecutorCommand::Nothing));
    assert!(matches!(run.step(ExecutorEvent::PlanActivated), ExecutorCommand::Nothing));
    assert!(matches!(run.step(ExecutorEvent::Start), ExecutorCommand::Nothing));
    assert_eq!(run.phase(), ExecutorPhase::Failed);
}

#[test]
fn failure_of_the_target_plan_is_reported() {
    let mut run = started(&swap_action("simple"));
    run.step(ExecutorEvent::Start);
    run.step(ExecutorEvent::PlanActivated);
    run.step(ExecutorEvent::PauseElapsed);
    assert!(matches!(
        run.step(ExecutorEvent::PlanActivationFailed),
        ExecutorCommand::NotifyFailure(FailedPhase::Target)
    ));
    assert_eq!(run.phase(), ExecutorPhase::Failed);
}

#[test]
fn events_out_of_turn_change_nothing() {
    let mut run = started(&swap_action("simple"));
    assert!(matches!(run.step(ExecutorEvent::PlanActivated), ExecutorCommand::Nothing));
    assert!(matches!(run.step(ExecutorEvent::PauseElapsed), ExecutorCommand::Nothing));
    assert_eq!(run.phase(), ExecutorPhase::Idle);
    assert!(!run.is_finished());
    run.step(ExecutorEvent::Start);
    assert!(matches!(run.step(ExecutorEvent::Start), ExecutorCommand::Nothing));
    assert!(matches!(run.step(ExecutorEvent::PauseElapsed), ExecutorCommand::Nothing));
    assert_eq!(run.phase(), ExecutorPhase::ActivatingTemp);
    run.step(ExecutorEvent::PlanActivated);
    assert!(matches!(run.step(ExecutorEvent::PlanActivated), ExecutorCommand::Nothing));
    assert_eq!(run.phase(), ExecutorPhase::Pausing);
}

#[test]
fn only_plan_swaps_are_run() {
    assert!(matches!(
        execute_trigger_action(&swap_action("setting_switch")),
        ExecutionStart::NothingToDo
    ));
    assert!(matches!(execute_trigger_action(&swap_action("workflow")), ExecutionStart::NothingToDo));
    assert!(matches!(execute_trigger_action(&swap_action("other")), ExecutionStart::UnknownVersion));
    let mut idle = swap_action("simple");
    idle.worker = TriggerActionWorker::Workflow {};
    assert!(matches!(execute_trigger_action(&idle), ExecutionStart::NothingToDo));
    assert!(matches!(execute_trigger_action(&swap_action("simple")), ExecutionStart::Run(_)));
}
