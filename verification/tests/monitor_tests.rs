use amd_freq_guard::alert::IndicatorStatus;
use amd_freq_guard::executor::ExecutionStart;
use amd_freq_guard::executor::ExecutorCommand;
use amd_freq_guard::executor::ExecutorEvent;
use amd_freq_guard::executor::ExecutorPhase;
use amd_freq_guard::executor::TriggerExecution;
use amd_freq_guard::monitor::get_monitor_state;
use amd_freq_guard::monitor::readings_from_aggregate;
use amd_freq_guard::monitor::CycleOutcome;
use amd_freq_guard::monitor::HookEffect;
use amd_freq_guard::monitor::LoopStep;
use amd_freq_guard::monitor::Monitor;
use amd_freq_guard::monitor::MonitorState;
use amd_freq_guard::monitor::SamplePlan;
use amd_freq_guard::monitor::SamplingTask;
use amd_freq_guard::monitor::REFRESH_PULSE_MS;
use amd_freq_guard::monitor::STOPPED;
use amd_freq_guard::settings::FrequencyMode;
use amd_freq_guard::settings::SettingKey;
use amd_freq_guard::settings::SettingValue;
use amd_freq_guard::settings::Settings;
use amd_freq_guard::settings_store::SettingsStore;
use amd_freq_guard::trigger_action::active_trigger_action;
use amd_freq_guard::trigger_action::TriggerAction;
use amd_freq_guard::trigger_action::TriggerActionWorker;

fn sampling_settings() -> Settings {
    let mut settings = Settings::default();
    settings.frequency_detection_enabled = true;
    settings.frequency_threshold_mhz = 3000;
    settings.refresh_interval = 500;
    settings
}

fn running(store: &SettingsStore, now_ms: u64) -> (Monitor, SamplingTask) {
    let mut monitor = Monitor::new();
    let task = monitor.start(store.settings(), now_ms).unwrap();
    (monitor, task)
}

fn sample_plan(monitor: &Monitor, task: &mut SamplingTask, store: &SettingsStore) -> SamplePlan {
    match monitor.next_step(task, store.settings()) {
        LoopStep::Sample(plan) => plan,
        LoopStep::Wait(_) => match monitor.after_wait(task, store.settings()) {
            LoopStep::Sample(plan) => plan,
            _ => panic!("a live loop samples after its wait"),
        },
        LoopStep::Exit => panic!("a live loop does not exit"),
    }
}

#[test]
fn a_fresh_engine_is_stopped_and_empty() {
    let monitor = Monitor::new();
    assert_eq!(monitor.generation(), STOPPED);
    assert_eq!(monitor.last_alert_time(), 0);
    assert!(!monitor.is_mode_auto_switched());
    let state = monitor.get_state();
    assert!(state.frequencies.is_empty());
    assert!(!state.is_refreshing);
    assert_eq!(state.indicator_status, IndicatorStatus::Normal);
    assert_eq!(state.last_update_count, 0);
    let d = MonitorState::default();
    assert_eq!(d.last_update_count, 0);
    assert_eq!(get_monitor_state(&monitor).frequencies.len(), 0);
    assert_eq!(REFRESH_PULSE_MS, 200);
}

#[test]
fn start_does_nothing_while_sampling_is_off() {
    let mut monitor = Monitor::new();
    let settings = Settings::default();
    assert!(monitor.start(&settings, 1234).is_none());
    assert_eq!(monitor.generation(), STOPPED);
}

#[test]
fn start_stamps_a_generation_from_the_time() {
    let store = SettingsStore::new(sampling_settings());
    let (monitor, task) = running(&store, 1_700_000_000_000);
    assert_eq!(monitor.generation(), 1_700_000_000_000);
    assert_eq!(task.generation(), 1_700_000_000_000);
    assert_eq!(task.interval_ms(), 500);
    assert_eq!(task.unchanged_count(), 0);
    assert!(monitor.is_current(&task, store.settings()));
}

#[test]
fn restarting_within_the_same_millisecond_still_gives_a_new_generation() {
    let store = SettingsStore::new(sampling_settings());
    let (mut monitor, first) = running(&store, 1000);
    let second = monitor.start(store.settings(), 1000).unwrap();
    assert_eq!(first.generation(), 1000);
    assert_eq!(second.generation(), 1001);
    assert!(!monitor.is_current(&first, store.settings()));
    assert!(monitor.is_current(&second, store.settings()));
    let third = monitor.start(store.settings(), 5).unwrap();
    assert_eq!(third.generation(), 1002);
    monitor.stop();
    let fourth = monitor.start(store.settings(), 0).unwrap();
    assert_eq!(fourth.generation(), 1003);
}

#[test]
fn generations_can_run_out() {
    let store = SettingsStore::new(sampling_settings());
    let mut monitor = Monitor::new();
    let last = monitor.start(store.settings(), u64::MAX).unwrap();
    assert_eq!(last.generation(), u64::MAX);
    assert!(monitor.start(store.settings(), 5).is_none());
    assert_eq!(monitor.generation(), u64::MAX);
}

#[test]
fn the_first_cycle_samples_without_waiting() {
    let store = SettingsStore::new(sampling_settings());
    let (monitor, mut task) = running(&store, 1000);
    let first = monitor.next_step(&mut task, store.settings());
    assert_eq!(
        first,
        LoopStep::Sample(SamplePlan {
            mode: FrequencyMode::SysInfo,
            threshold_mhz: 3000,
            trigger_action_enabled: false,
            auto_switch_enabled: false,
        })
    );
    assert_eq!(monitor.next_step(&mut task, store.settings()), LoopStep::Wait(500));
    assert!(matches!(monitor.after_wait(&task, store.settings()), LoopStep::Sample(_)));
}

#[test]
fn a_stopped_engine_ends_its_loop() {
    let mut store = SettingsStore::new(sampling_settings());
    let (mut monitor, mut task) = running(&store, 1000);
    let plan = sample_plan(&monitor, &mut task, &store);
    monitor.stop();
    assert_eq!(monitor.generation(), STOPPED);
    assert_eq!(monitor.next_step(&mut task, store.settings()), LoopStep::Exit);
    assert_eq!(monitor.after_wait(&task, store.settings()), LoopStep::Exit);
    let outcome = monitor.complete_cycle(&mut task, &plan, &mut store, vec![3500], 10);
    assert!(matches!(outcome, CycleOutcome::Superseded));
    assert!(monitor.get_current_state().frequencies.is_empty());
}

#[test]
fn switching_sampling_off_ends_the_loop() {
    let mut store = SettingsStore::new(sampling_settings());
    let (mut monitor, mut task) = running(&store, 1000);
    let plan = sample_plan(&monitor, &mut task, &store);
    store.set_setting("frequency_detection_enabled", &SettingValue::Bool(false)).unwrap();
    assert_eq!(monitor.next_step(&mut task, store.settings()), LoopStep::Exit);
    let outcome = monitor.complete_cycle(&mut task, &plan, &mut store, vec![3500], 10);
    assert!(matches!(outcome, CycleOutcome::Superseded));
}

#[test]
fn a_sample_in_flight_during_a_restart_is_never_published() {
    let mut store = SettingsStore::new(sampling_settings());
    let (mut monitor, mut old_task) = running(&store, 1000);
    let plan = sample_plan(&monitor, &mut old_task, &store);
    let mut new_task = monitor.start(store.settings(), 2000).unwrap();
    let late = monitor.complete_cycle(&mut old_task, &plan, &mut store, vec![9999, 9999], 10);
    assert!(matches!(late, CycleOutcome::Superseded));
    let state = monitor.get_current_state();
    assert!(state.frequencies.is_empty());
    assert_eq!(state.indicator_status, IndicatorStatus::Normal);
    assert_eq!(monitor.last_alert_time(), 0);
    let plan = sample_plan(&monitor, &mut new_task, &store);
    let fresh = monitor.complete_cycle(&mut new_task, &plan, &mut store, vec![1000, 1100], 11);
    assert!(matches!(fresh, CycleOutcome::Published { .. }));
    assert_eq!(monitor.get_current_state().frequencies, vec![1000, 1100]);
}

#[test]
fn a_published_sample_sets_state_and_indicator() {
    let mut store = SettingsStore::new(sampling_settings());
    let (mut monitor, mut task) = running(&store, 1000);
    let plan = sample_plan(&monitor, &mut task, &store);
    match monitor.complete_cycle(&mut task, &plan, &mut store, vec![3500, 3600], 50) {
        CycleOutcome::Published { state, report } => {
            assert_eq!(state.frequencies, vec![3500, 3600]);
            assert_eq!(state.indicator_status, IndicatorStatus::Danger);
            assert_eq!(state.last_update_count, 0);
            assert!(!state.is_refreshing);
            assert!(report.alert);
            assert!(!report.run_action);
            assert_eq!(report.exceeded_cores, vec![0, 1]);
            assert_eq!(report.total_cores, 2);
        }
        _ => panic!("a live loop publishes its sample"),
    }
    assert_eq!(monitor.last_alert_time(), 50);
    assert_eq!(monitor.get_current_state().indicator_status, IndicatorStatus::Danger);
}

#[test]
fn a_failed_sample_is_published_as_it_is() {
    let mut store = SettingsStore::new(sampling_settings());
    let (mut monitor, mut task) = running(&store, 1000);
    let plan = sample_plan(&monitor, &mut task, &store);
    monitor.complete_cycle(&mut task, &plan, &mut store, vec![3500], 50);
    let plan = sample_plan(&monitor, &mut task, &store);
    let empty = readings_from_aggregate(None);
    match monitor.complete_cycle(&mut task, &plan, &mut store, empty, 100) {
        CycleOutcome::Published { state, report } => {
            assert!(state.frequencies.is_empty());
            assert_eq!(state.indicator_status, IndicatorStatus::Normal);
            assert!(!report.alert);
        }
        _ => panic!("an empty sample is published"),
    }
    assert_eq!(monitor.last_alert_time(), 50);
    assert_eq!(readings_from_aggregate(Some(4200)), vec![4200]);
}

#[test]
fn the_indicator_follows_the_sample_while_alerts_are_debounced() {
    let mut store = SettingsStore::new(sampling_settings());
    let (mut monitor, mut task) = running(&store, 1000);
    let plan = sample_plan(&monitor, &mut task, &store);
    monitor.complete_cycle(&mut task, &plan, &mut store, vec![3500, 2000], 100);
    let plan = sample_plan(&monitor, &mut task, &store);
    match monitor.complete_cycle(&mut task, &plan, &mut store, vec![3500, 3600], 105) {
        CycleOutcome::Published { state, report } => {
            assert!(!report.alert);
            assert_eq!(report.indicator, IndicatorStatus::Danger);
            assert_eq!(state.indicator_status, IndicatorStatus::Danger);
        }
        _ => panic!("a live loop publishes its sample"),
    }
    assert_eq!(monitor.last_alert_time(), 100);
    let plan = sample_plan(&monitor, &mut task, &store);
    match monitor.complete_cycle(&mut task, &plan, &mut store, vec![3500, 2000], 110) {
        CycleOutcome::Published { report, .. } => assert!(report.alert),
        _ => panic!("a live loop publishes its sample"),
    }
    assert_eq!(monitor.last_alert_time(), 110);
}

#[test]
fn stagnation_switches_the_mode_once_and_restarts_the_count() {
    let mut settings = sampling_settings();
    settings.auto_switch_enabled = true;
    settings.auto_switch_threshold = 5;
    let mut store = SettingsStore::new(settings);
    Monitor::register_hooks(&mut store, 7);
    let (mut monitor, mut task) = running(&store, 1000);
    let sample = vec![2400u64, 2400];
    let plan = sample_plan(&monitor, &mut task, &store);
    assert!(matches!(
        monitor.complete_cycle(&mut task, &plan, &mut store, sample.clone(), 1),
        CycleOutcome::Published { .. }
    ));
    for repeat in 1..5u64 {
        let plan = sample_plan(&monitor, &mut task, &store);
        match monitor.complete_cycle(&mut task, &plan, &mut store, sample.clone(), 1) {
            CycleOutcome::Published { state, .. } => assert_eq!(state.last_update_count, repeat),
            _ => panic!("no switch before the run length"),
        }
        assert_eq!(store.settings().frequency_mode, "1");
    }
    let plan = sample_plan(&monitor, &mut task, &store);
    match monitor.complete_cycle(&mut task, &plan, &mut store, vec![2400, 2400], 1) {
        CycleOutcome::ModeSwitched { unchanged_count, state, hooks } => {
            assert_eq!(unchanged_count, 5);
            assert_eq!(state.last_update_count, 5);
            assert_eq!(hooks, vec![7]);
        }
        _ => panic!("the run length was reached"),
    }
    assert_eq!(store.settings().frequency_mode, "2");
    assert!(monitor.is_mode_auto_switched());
    assert_eq!(task.unchanged_count(), 0);
    for _ in 0..12 {
        let plan = sample_plan(&monitor, &mut task, &store);
        assert_eq!(plan.mode, FrequencyMode::CalcMhz);
        assert!(matches!(
            monitor.complete_cycle(&mut task, &plan, &mut store, sample.clone(), 1),
            CycleOutcome::Published { .. }
        ));
        assert_eq!(store.settings().frequency_mode, "2");
        assert_eq!(monitor.get_current_state().last_update_count, 0);
    }
}

#[test]
fn a_dropped_sample_is_not_published() {
    let mut settings = sampling_settings();
    settings.auto_switch_enabled = true;
    settings.auto_switch_threshold = 1;
    let mut store = SettingsStore::new(settings);
    let (mut monitor, mut task) = running(&store, 1000);
    let plan = sample_plan(&monitor, &mut task, &store);
    monitor.complete_cycle(&mut task, &plan, &mut store, vec![3500], 100);
    let plan = sample_plan(&monitor, &mut task, &store);
    let outcome = monitor.complete_cycle(&mut task, &plan, &mut store, vec![3500], 200);
    assert!(matches!(outcome, CycleOutcome::ModeSwitched { .. }));
    assert_eq!(monitor.last_alert_time(), 100);
    assert_eq!(monitor.get_current_state().frequencies, vec![3500]);
}

#[test]
fn the_detector_rests_under_the_fallback_method() {
    let mut settings = sampling_settings();
    settings.auto_switch_enabled = true;
    settings.auto_switch_threshold = 2;
    settings.frequency_mode = "2".to_string();
    let mut store = SettingsStore::new(settings);
    let (mut monitor, mut task) = running(&store, 1000);
    for _ in 0..6 {
        let plan = sample_plan(&monitor, &mut task, &store);
        let outcome = monitor.complete_cycle(&mut task, &plan, &mut store, vec![4000], 1);
        assert!(matches!(outcome, CycleOutcome::Published { .. }));
    }
    assert_eq!(monitor.get_current_state().last_update_count, 0);
    assert!(!monitor.is_mode_auto_switched());
}

#[test]
fn setting_changes_restart_or_stop_the_engine() {
    let mut settings = sampling_settings();
    let mut monitor = Monitor::new();
    let first = monitor.start(&settings, 1000).unwrap();
    settings.refresh_interval = 250;
    let second = monitor
        .setting_changed(SettingKey::RefreshInterval, &SettingValue::Unsigned(250), &settings, 1500)
        .unwrap();
    assert_eq!(second.interval_ms(), 250);
    assert_eq!(second.generation(), 1500);
    assert!(!monitor.is_current(&first, &settings));
    let third = monitor
        .setting_changed(
            SettingKey::FrequencyMode,
            &SettingValue::Text("2".to_string()),
            &settings,
            1600,
        )
        .unwrap();
    assert_eq!(third.generation(), 1600);
    assert!(monitor
        .setting_changed(SettingKey::RefreshInterval, &SettingValue::Bool(true), &settings, 1700)
        .is_none());
    assert_eq!(monitor.generation(), 1600);
    assert!(monitor
        .setting_changed(
            SettingKey::FrequencyDetectionEnabled,
            &SettingValue::Bool(false),
            &settings,
            1800
        )
        .is_none());
    assert_eq!(monitor.generation(), STOPPED);
    let again = monitor
        .setting_changed(
            SettingKey::FrequencyDetectionEnabled,
            &SettingValue::Bool(true),
            &settings,
            1900,
        )
        .unwrap();
    assert_eq!(again.generation(), 1900);
    assert!(monitor
        .setting_changed(SettingKey::AutoStart, &SettingValue::Bool(true), &settings, 2000)
        .is_none());
    assert_eq!(monitor.generation(), 1900);
}

#[test]
fn effects_of_setting_changes() {
    assert_eq!(
        Monitor::effect_of_change(SettingKey::FrequencyDetectionEnabled, &SettingValue::Bool(false)),
        HookEffect::Stop
    );
    assert_eq!(
        Monitor::effect_of_change(SettingKey::FrequencyDetectionEnabled, &SettingValue::Other),
        HookEffect::Restart
    );
    assert_eq!(
        Monitor::effect_of_change(SettingKey::RefreshInterval, &SettingValue::Unsigned(1)),
        HookEffect::Restart
    );
    assert_eq!(
        Monitor::effect_of_change(SettingKey::FrequencyMode, &SettingValue::Unsigned(1)),
        HookEffect::Nothing
    );
    assert_eq!(
        Monitor::effect_of_change(SettingKey::AlertDebounceSeconds, &SettingValue::Unsigned(1)),
        HookEffect::Nothing
    );
}

#[test]
fn turning_a_feature_off_forgets_what_it_gathered() {
    let mut settings = sampling_settings();
    settings.auto_switch_enabled = true;
    settings.auto_switch_threshold = 50;
    let mut store = SettingsStore::new(settings);
    let (mut monitor, mut task) = running(&store, 1000);
    for _ in 0..3 {
        let plan = sample_plan(&monitor, &mut task, &store);
        monitor.complete_cycle(&mut task, &plan, &mut store, vec![3500], 100);
    }
    assert_eq!(monitor.get_current_state().last_update_count, 2);
    assert_eq!(monitor.last_alert_time(), 100);
    let settings = store.get_settings();
    monitor.setting_changed(
        SettingKey::AutoSwitchEnabled,
        &SettingValue::Bool(false),
        &settings,
        2000,
    );
    assert_eq!(monitor.get_current_state().last_update_count, 0);
    assert_eq!(monitor.last_alert_time(), 100);
    monitor.setting_changed(
        SettingKey::TriggerActionEnabled,
        &SettingValue::Bool(false),
        &settings,
        2000,
    );
    assert_eq!(monitor.last_alert_time(), 0);
    assert_eq!(monitor.generation(), 1000);
}

#[test]
fn hooks_are_registered_for_the_settings_that_shape_the_loop() {
    let mut store = SettingsStore::new(Settings::default());
    Monitor::register_hooks(&mut store, 3);
    assert_eq!(store.trigger_hooks("frequency_detection_enabled"), vec![3]);
    assert_eq!(store.trigger_hooks("refresh_interval"), vec![3]);
    assert_eq!(store.trigger_hooks("frequency_mode"), vec![3]);
    assert!(store.trigger_hooks("frequency_threshold").is_empty());
    assert!(store.trigger_hooks("alert_debounce_seconds").is_empty());
    assert!(store.trigger_hooks("auto_switch_threshold").is_empty());
}

#[test]
fn a_forced_sample_raises_the_refresh_flag_for_a_while() {
    let mut monitor = Monitor::new();
    let state = monitor.refresh_now(vec![2000, 2100]);
    assert!(state.is_refreshing);
    assert_eq!(state.frequencies, vec![2000, 2100]);
    assert!(monitor.get_current_state().is_refreshing);
    let state = monitor.end_refresh();
    assert!(!state.is_refreshing);
    assert_eq!(state.frequencies, vec![2000, 2100]);
    monitor.set_mode_auto_switched(true);
    assert!(monitor.is_mode_auto_switched());
}

#[test]
fn a_breach_with_an_enabled_action_runs_the_plan_swap() {
    let mut settings = sampling_settings();
    settings.trigger_action_enabled = true;
    let mut store = SettingsStore::new(settings);
    let actions = vec![TriggerAction {
        id: "one".to_string(),
        name: "swap".to_string(),
        version: "simple".to_string(),
        enabled: true,
        worker: TriggerActionWorker::Simple {
            temp_plan_guid: "T".to_string(),
            pause_seconds: 2,
            target_plan_guid: "G".to_string(),
        },
    }];
    let (mut monitor, mut task) = running(&store, 1000);
    let plan = sample_plan(&monitor, &mut task, &store);
    let report = match monitor.complete_cycle(&mut task, &plan, &mut store, vec![3500, 2000], 500)
    {
        CycleOutcome::Published { state, report } => {
            assert_eq!(state.indicator_status, IndicatorStatus::Warning);
            report
        }
        _ => panic!("a live loop publishes its sample"),
    };
    assert_eq!(report.exceeded_cores, vec![0]);
    assert_eq!(report.indicator, IndicatorStatus::Warning);
    assert!(report.alert);
    assert!(report.run_action);
    assert!(Monitor::has_active_trigger_action(&actions));
    let active = active_trigger_action(&actions).unwrap();
    assert_eq!(active, 0);
    let mut run = match TriggerExecution::new(&actions[active]) {
        ExecutionStart::Run(run) => run,
        _ => panic!("the action is a plan swap"),
    };
    let mut commands: Vec<String> = Vec::new();
    let mut event = ExecutorEvent::Start;
    while !run.is_finished() {
        match run.step(event) {
            ExecutorCommand::ActivatePlan(plan) => {
                commands.push(format!("activate({})", plan));
                event = ExecutorEvent::PlanActivated;
            }
            ExecutorCommand::Pause(seconds) => {
                commands.push(format!("pause({})", seconds));
                event = ExecutorEvent::PauseElapsed;
            }
            ExecutorCommand::NotifyCompletion => commands.push("completed".to_string()),
            ExecutorCommand::NotifyFailure(_) => commands.push("failed".to_string()),
            ExecutorCommand::Nothing => panic!("every report fits the phase"),
        }
    }
    assert_eq!(commands, vec!["activate(T)", "pause(2)", "activate(G)", "completed"]);
    assert_eq!(run.phase(), ExecutorPhase::Done);
    let plan = sample_plan(&monitor, &mut task, &store);
    match monitor.complete_cycle(&mut task, &plan, &mut store, vec![3500, 2000], 501) {
        CycleOutcome::Published { report, .. } => {
            assert!(!report.alert);
            assert!(!report.run_action);
        }
        _ => panic!("a live loop publishes its sample"),
    }
}
