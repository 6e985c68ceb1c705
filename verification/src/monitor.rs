//! The engine: the shared monitor state, the generation counter that
//! supersedes running loops, and the decisions of one sampling cycle.
//!
//! The caller runs the loop. It asks `next_step` what to do, waits or
//! samples as told, and hands each sample to `complete_cycle`, which
//! publishes it only if the loop is still the current one.

use crate::alert::alert_fires;
use crate::alert::breaching_cores;
use crate::alert::check_frequency_threshold;
use crate::alert::indicator_of;
use crate::alert::next_alert_time;
use crate::alert::IndicatorStatus;
use crate::alert::ThresholdReport;
use crate::settings::mode_of;
use crate::settings::settings_with;
use crate::settings::FrequencyMode;
use crate::settings::SettingKey;
use crate::settings::SettingValue;
use crate::settings::Settings;
use crate::settings::SettingsView;
use crate::settings::ValueView;
use crate::settings_store::handles_for;
use crate::settings_store::lemma_hooks_in_order;
use crate::settings_store::HookView;
use crate::settings_store::SettingsStore;
use crate::settings_store::StoreView;
use crate::stagnation::copy_readings;
use crate::trigger_action::action_views;
use crate::trigger_action::any_enabled;
use crate::trigger_action::TriggerAction;
use crate::stagnation::observed_run;
use crate::stagnation::stagnation_after;
use crate::stagnation::stagnation_reached;
use crate::stagnation::StagnationDetector;
use crate::stagnation::StagnationView;
use vstd::prelude::*;

verus! {

/// The generation that no loop ever has: writing it stops the engine.
pub const STOPPED: u64 = 0;

/// Milliseconds for which `is_refreshing` stays up after a forced sample.
pub const REFRESH_PULSE_MS: u64 = 200;

/// The snapshot of the engine that observers read.
#[derive(Debug)]
pub struct MonitorState {
    /// The last published sample, one reading per core, in MHz.
    pub frequencies: Vec<u64>,
    /// Up for a short while after a forced sample.
    pub is_refreshing: bool,
    /// The alert level of the last sample that the alerter judged.
    pub indicator_status: IndicatorStatus,
    /// How many samples in a row repeated their predecessor.
    pub last_update_count: u64,
}

/// The snapshot as specifications see it.
pub struct MonitorStateView {
    pub frequencies: Seq<u64>,
    pub is_refreshing: bool,
    pub indicator_status: IndicatorStatus,
    pub last_update_count: u64,
}

impl View for MonitorState {
    type V = MonitorStateView;

    open spec fn view(&self) -> MonitorStateView {
        MonitorStateView {
            frequencies: self.frequencies@,
            is_refreshing: self.is_refreshing,
            indicator_status: self.indicator_status,
            last_update_count: self.last_update_count,
        }
    }
}

/// The snapshot before the first sample.
pub open spec fn initial_state() -> MonitorStateView {
    MonitorStateView {
        frequencies: Seq::empty(),
        is_refreshing: false,
        indicator_status: IndicatorStatus::Normal,
        last_update_count: 0,
    }
}

impl Default for MonitorState {
    fn default() -> (r: Self)
        ensures
            r@ == initial_state(),
    {
        MonitorState {
            frequencies: Vec::new(),
            is_refreshing: false,
            indicator_status: IndicatorStatus::Normal,
            last_update_count: 0,
        }
    }
}

impl MonitorState {
    /// A copy of the snapshot.
    pub fn copy(&self) -> (r: Self)
        ensures
            r@ == self@,
    {
        MonitorState {
            frequencies: copy_readings(&self.frequencies),
            is_refreshing: self.is_refreshing,
            indicator_status: self.indicator_status,
            last_update_count: self.last_update_count,
        }
    }
}

/// The sample that the fallback method gives: its one aggregate reading, or
/// nothing where the measurement failed.
pub fn readings_from_aggregate(reading: Option<u64>) -> (r: Vec<u64>)
    ensures
        r@ == match reading {
            Some(mhz) => seq![mhz],
            None => Seq::<u64>::empty(),
        },
{
    let mut r: Vec<u64> = Vec::new();
    match reading {
        Some(mhz) => {
            r.push(mhz);
        },
        None => {},
    }
    r
}

/// What a loop reads from the settings before it samples.
#[derive(Clone, Copy, Debug, PartialEq, Eq, Structural)]
pub struct SamplePlan {
    /// The method to sample with.
    pub mode: FrequencyMode,
    /// The alert threshold in MHz.
    pub threshold_mhz: i64,
    /// Whether the trigger actions are switched on.
    pub trigger_action_enabled: bool,
    /// Whether the stagnation detector is switched on.
    pub auto_switch_enabled: bool,
}

/// The plan that the settings call for.
pub open spec fn plan_for(settings: SettingsView) -> SamplePlan {
    SamplePlan {
        mode: mode_of(settings.frequency_mode),
        threshold_mhz: settings.frequency_threshold_mhz,
        trigger_action_enabled: settings.trigger_action_enabled,
        auto_switch_enabled: settings.auto_switch_enabled,
    }
}

/// What the loop is to do next.
#[derive(Clone, Copy, Debug, PartialEq, Eq, Structural)]
pub enum LoopStep {
    /// The loop was superseded or sampling is switched off: end it.
    Exit,
    /// Wait this many milliseconds, then call `after_wait`.
    Wait(u64),
    /// Take a sample as the plan says, then call `complete_cycle`.
    Sample(SamplePlan),
}

/// One running loop: the generation it was started under, the interval it
/// was started with, and the history of its samples.
pub struct SamplingTask {
    generation: u64,
    interval_ms: u64,
    detector: StagnationDetector,
    first: bool,
}

/// A loop as specifications see it.
pub struct TaskView {
    pub generation: u64,
    pub interval_ms: u64,
    pub detector: StagnationView,
    /// Whether the loop has yet to sample for the first time.
    pub first: bool,
}

impl View for SamplingTask {
    type V = TaskView;

    closed spec fn view(&self) -> TaskView {
        TaskView {
            generation: self.generation,
            interval_ms: self.interval_ms,
            detector: self.detector@,
            first: self.first,
        }
    }
}

impl SamplingTask {
    /// The generation that the loop was started under.
    pub fn generation(&self) -> (r: u64)
        ensures
            r == self@.generation,
    {
        self.generation
    }

    /// The interval in milliseconds that the loop was started with.
    pub fn interval_ms(&self) -> (r: u64)
        ensures
            r == self@.interval_ms,
    {
        self.interval_ms
    }

    /// The run counter of the loop's stagnation detector.
    pub fn unchanged_count(&self) -> (r: u64)
        ensures
            r == self@.detector.run,
    {
        self.detector.run_count()
    }
}

/// The engine's shared state.
pub struct Monitor {
    state: MonitorState,
    last_alert_time: u64,
    mode_auto_switched: bool,
    timer_version: u64,
    last_issued: u64,
}

/// The engine as specifications see it.
pub struct MonitorView {
    pub state: MonitorStateView,
    /// The time in seconds of the last alert; 0 before the first.
    pub last_alert_time: u64,
    /// Whether the stagnation detector has switched the sampling mode.
    pub mode_auto_switched: bool,
    /// The live generation, or `STOPPED`.
    pub generation: u64,
    /// The largest generation ever given to a loop.
    pub last_issued: u64,
}

impl View for Monitor {
    type V = MonitorView;

    closed spec fn view(&self) -> MonitorView {
        MonitorView {
            state: self.state@,
            last_alert_time: self.last_alert_time,
            mode_auto_switched: self.mode_auto_switched,
            generation: self.timer_version,
            last_issued: self.last_issued,
        }
    }
}

/// A loop is live while the engine's generation is its own and sampling is
/// switched on. Nothing else ends a loop.
pub open spec fn is_live(monitor: MonitorView, task: TaskView, settings: SettingsView) -> bool {
    monitor.generation != STOPPED && task.generation == monitor.generation
        && settings.frequency_detection_enabled
}

/// Whether `start` starts a loop: sampling is switched on and a generation
/// is left to give.
pub open spec fn can_start(monitor: MonitorView, settings: SettingsView) -> bool {
    settings.frequency_detection_enabled && monitor.last_issued < u64::MAX
}

/// The generation that a loop started at `now_ms` gets: the time, unless a
/// generation that large was given before, and then the next one.
pub open spec fn fresh_generation(monitor: MonitorView, now_ms: u64) -> u64 {
    if now_ms > monitor.last_issued {
        now_ms
    } else {
        (monitor.last_issued + 1) as u64
    }
}

/// The engine after `start`.
pub open spec fn monitor_after_start(
    monitor: MonitorView,
    settings: SettingsView,
    now_ms: u64,
) -> MonitorView {
    if can_start(monitor, settings) {
        MonitorView {
            generation: fresh_generation(monitor, now_ms),
            last_issued: fresh_generation(monitor, now_ms),
            ..monitor
        }
    } else {
        monitor
    }
}

/// Whether the stagnation detector takes part in a cycle.
pub open spec fn detector_runs(plan: SamplePlan) -> bool {
    plan.auto_switch_enabled && plan.mode == FrequencyMode::SysInfo
}

/// Whether a cycle ends in the fall-back of the sampling mode.
pub open spec fn cycle_switches(
    task: TaskView,
    plan: SamplePlan,
    run_length: u64,
    sample: Seq<u64>,
) -> bool {
    detector_runs(plan) && stagnation_reached(task.detector, sample, run_length)
}

/// The run counter that a cycle publishes: the detector's count, or zero
/// while the detector is switched off.
pub open spec fn published_count(task: TaskView, plan: SamplePlan, sample: Seq<u64>) -> u64 {
    if detector_runs(plan) {
        observed_run(task.detector, sample) as u64
    } else {
        0
    }
}

/// The detector of a loop after a cycle.
pub open spec fn detector_after(
    task: TaskView,
    plan: SamplePlan,
    run_length: u64,
    sample: Seq<u64>,
) -> StagnationView {
    if detector_runs(plan) {
        stagnation_after(task.detector, sample, run_length)
    } else {
        StagnationView { previous: sample, run: 0 }
    }
}

/// What a change of a setting asks of the engine.
#[derive(Clone, Copy, Debug, PartialEq, Eq, Structural)]
pub enum HookEffect {
    /// The running loop goes on as it is.
    Nothing,
    /// The engine stops.
    Stop,
    /// A new loop is started, which supersedes the running one.
    Restart,
}

/// What the change of `key` to `value` asks of the engine. The settings that
/// shape the loop restart it: the interval, the sampling mode, and the
/// sampling switch, which stops the engine when it is turned off.
pub open spec fn hook_effect(key: SettingKey, value: ValueView) -> HookEffect {
    match key {
        SettingKey::FrequencyDetectionEnabled => if value.as_bool() == Some(false) {
            HookEffect::Stop
        } else {
            HookEffect::Restart
        },
        SettingKey::RefreshInterval => if value.as_unsigned() is Some {
            HookEffect::Restart
        } else {
            HookEffect::Nothing
        },
        SettingKey::FrequencyMode => if value.as_text() is Some {
            HookEffect::Restart
        } else {
            HookEffect::Nothing
        },
        _ => HookEffect::Nothing,
    }
}

/// The engine after it has forgotten what a feature that was turned off had
/// gathered: the time of the last alert with the trigger actions, the run
/// counter with the stagnation detector.
pub open spec fn monitor_after_disable(
    monitor: MonitorView,
    key: SettingKey,
    value: ValueView,
) -> MonitorView {
    if key == SettingKey::TriggerActionEnabled && value.as_bool() == Some(false) {
        MonitorView { last_alert_time: 0, ..monitor }
    } else if key == SettingKey::AutoSwitchEnabled && value.as_bool() == Some(false) {
        MonitorView {
            state: MonitorStateView { last_update_count: 0, ..monitor.state },
            ..monitor
        }
    } else {
        monitor
    }
}

/// The engine after the change of `key` to `value` was reported to it.
pub open spec fn monitor_after_change(
    monitor: MonitorView,
    key: SettingKey,
    value: ValueView,
    settings: SettingsView,
    now_ms: u64,
) -> MonitorView {
    match hook_effect(key, value) {
        HookEffect::Nothing => monitor_after_disable(monitor, key, value),
        HookEffect::Stop => MonitorView { generation: STOPPED, ..monitor },
        HookEffect::Restart => monitor_after_start(monitor, settings, now_ms),
    }
}

/// How a cycle ended.
pub enum CycleOutcome {
    /// The loop is no longer the current one. Nothing was published and
    /// nothing changed; the loop ends.
    Superseded,
    /// The readings have not changed for the configured run length: the
    /// sampling mode was set to the fallback method and the sample was
    /// dropped. The caller persists the settings, tells the user, and calls
    /// the hooks.
    ModeSwitched { unchanged_count: u64, state: MonitorState, hooks: Vec<u64> },
    /// The sample was published and judged by the alerter.
    Published { state: MonitorState, report: ThresholdReport },
}

impl Monitor {
    /// An engine that is stopped and has seen no sample.
    pub fn new() -> (monitor: Self)
        ensures
            monitor@ == (MonitorView {
                state: initial_state(),
                last_alert_time: 0,
                mode_auto_switched: false,
                generation: STOPPED,
                last_issued: 0,
            }),
    {
        Monitor {
            state: MonitorState::default(),
            last_alert_time: 0,
            mode_auto_switched: false,
            timer_version: STOPPED,
            last_issued: 0,
        }
    }

    /// A copy of the snapshot.
    pub fn get_state(&self) -> (r: MonitorState)
        ensures
            r@ == self@.state,
    {
        self.state.copy()
    }

    /// A copy of the snapshot.
    pub fn get_current_state(&self) -> (r: MonitorState)
        ensures
            r@ == self@.state,
    {
        self.state.copy()
    }

    /// The live generation, or `STOPPED`.
    pub fn generation(&self) -> (r: u64)
        ensures
            r == self@.generation,
    {
        self.timer_version
    }

    /// The time in seconds of the last alert.
    pub fn last_alert_time(&self) -> (r: u64)
        ensures
            r == self@.last_alert_time,
    {
        self.last_alert_time
    }

    /// Notes whether the sampling mode was switched by the engine itself.
    pub fn set_mode_auto_switched(&mut self, switched: bool)
        ensures
            final(self)@ == (MonitorView { mode_auto_switched: switched, ..old(self)@ }),
    {
        self.mode_auto_switched = switched;
    }

    /// Whether the sampling mode was switched by the engine itself.
    pub fn is_mode_auto_switched(&self) -> (r: bool)
        ensures
            r == self@.mode_auto_switched,
    {
        self.mode_auto_switched
    }

    /// Starts a loop. While sampling is switched off this does nothing.
    /// Otherwise a generation that no loop had before becomes the live one,
    /// which supersedes every loop started earlier, and the new loop is
    /// handed back; it takes its interval from the settings as they are now
    /// and will not wait before its first sample.
    pub fn start(&mut self, settings: &Settings, now_ms: u64) -> (task: Option<SamplingTask>)
        ensures
            final(self)@ == monitor_after_start(old(self)@, settings@, now_ms),
            can_start(old(self)@, settings@) ==> {
                &&& task matches Some(t)
                &&& t@ == (TaskView {
                    generation: fresh_generation(old(self)@, now_ms),
                    interval_ms: settings@.refresh_interval,
                    detector: StagnationView { previous: Seq::empty(), run: 0 },
                    first: true,
                })
            },
            !can_start(old(self)@, settings@) ==> task is None,
    {
        if !settings.frequency_detection_enabled || self.last_issued == u64::MAX {
            return None;
        }
        let generation: u64 = if now_ms > self.last_issued {
            now_ms
        } else {
            self.last_issued + 1
        };
        self.timer_version = generation;
        self.last_issued = generation;
        Some(
            SamplingTask {
                generation,
                interval_ms: settings.refresh_interval,
                detector: StagnationDetector::new(),
                first: true,
            },
        )
    }

    /// Stops the engine: the running loop ends after its current cycle.
    pub fn stop(&mut self)
        ensures
            final(self)@ == (MonitorView { generation: STOPPED, ..old(self)@ }),
    {
        self.timer_version = STOPPED;
    }

    /// Whether `task` is still the current loop.
    pub fn is_current(&self, task: &SamplingTask, settings: &Settings) -> (r: bool)
        ensures
            r == is_live(self@, task@, settings@),
    {
        self.timer_version != STOPPED && task.generation == self.timer_version
            && settings.frequency_detection_enabled
    }

    /// Reads from the settings what a cycle needs before it samples.
    pub fn plan(settings: &Settings) -> (plan: SamplePlan)
        ensures
            plan == plan_for(settings@),
    {
        SamplePlan {
            mode: FrequencyMode::from_code(settings.frequency_mode.as_str()),
            threshold_mhz: settings.frequency_threshold_mhz,
            trigger_action_enabled: settings.trigger_action_enabled,
            auto_switch_enabled: settings.auto_switch_enabled,
        }
    }

    /// The head of a cycle. A loop that is no longer current ends. A loop on
    /// its first cycle samples at once; on every later cycle it waits for
    /// the interval it was started with.
    pub fn next_step(&self, task: &mut SamplingTask, settings: &Settings) -> (step: LoopStep)
        ensures
            step == (if !is_live(self@, old(task)@, settings@) {
                LoopStep::Exit
            } else if old(task)@.first {
                LoopStep::Sample(plan_for(settings@))
            } else {
                LoopStep::Wait(old(task)@.interval_ms)
            }),
            final(task)@ == (if is_live(self@, old(task)@, settings@) {
                TaskView { first: false, ..old(task)@ }
            } else {
                old(task)@
            }),
    {
        if !self.is_current(task, settings) {
            return LoopStep::Exit;
        }
        if task.first {
            task.first = false;
            LoopStep::Sample(Self::plan(settings))
        } else {
            LoopStep::Wait(task.interval_ms)
        }
    }

    /// The step after the wait: the loop may have been superseded while it
    /// waited, and the settings are read afresh.
    pub fn after_wait(&self, task: &SamplingTask, settings: &Settings) -> (step: LoopStep)
        ensures
            step == (if is_live(self@, task@, settings@) {
                LoopStep::Sample(plan_for(settings@))
            } else {
                LoopStep::Exit
            }),
    {
        if self.is_current(task, settings) {
            LoopStep::Sample(Self::plan(settings))
        } else {
            LoopStep::Exit
        }
    }

    /// The tail of a cycle: takes the sample that the loop has brought.
    ///
    /// A loop that was superseded while it sampled publishes nothing.
    /// Otherwise the stagnation detector runs, if the plan has it on and the
    /// sample came from the primary method; where it finds the run length
    /// reached, the sampling mode is set to the fallback method and the
    /// sample is dropped. In every other case the sample is published and
    /// the alerter judges it.
    pub fn complete_cycle(
        &mut self,
        task: &mut SamplingTask,
        plan: &SamplePlan,
        store: &mut SettingsStore,
        sample: Vec<u64>,
        now_secs: u64,
    ) -> (outcome: CycleOutcome)
        ensures
            !is_live(old(self)@, old(task)@, old(store)@.settings) ==> {
                &&& outcome is Superseded
                &&& final(self)@ == old(self)@
                &&& final(task)@ == old(task)@
                &&& final(store)@ == old(store)@
            },
            is_live(old(self)@, old(task)@, old(store)@.settings) ==> {
                &&& final(task)@ == (TaskView {
                    detector: detector_after(
                        old(task)@,
                        *plan,
                        old(store)@.settings.auto_switch_threshold,
                        sample@,
                    ),
                    ..old(task)@
                })
                &&& final(self)@.generation == old(self)@.generation
                &&& final(self)@.last_issued == old(self)@.last_issued
                &&& final(self)@.state.is_refreshing == old(self)@.state.is_refreshing
                &&& final(self)@.state.last_update_count == published_count(
                    old(task)@,
                    *plan,
                    sample@,
                )
            },
            is_live(old(self)@, old(task)@, old(store)@.settings) && cycle_switches(
                old(task)@,
                *plan,
                old(store)@.settings.auto_switch_threshold,
                sample@,
            ) ==> {
                &&& outcome matches CycleOutcome::ModeSwitched { unchanged_count, state, hooks }
                &&& unchanged_count == published_count(old(task)@, *plan, sample@)
                &&& state@ == final(self)@.state
                &&& hooks@ == handles_for(old(store)@.hooks, "frequency_mode"@)
                &&& final(self)@.mode_auto_switched
                &&& final(self)@.last_alert_time == old(self)@.last_alert_time
                &&& final(self)@.state.frequencies == old(self)@.state.frequencies
                &&& final(self)@.state.indicator_status == old(self)@.state.indicator_status
                &&& final(store)@ == (StoreView {
                    settings: SettingsView {
                        frequency_mode: FrequencyMode::CalcMhz.code(),
                        ..old(store)@.settings
                    },
                    ..old(store)@
                })
            },
            is_live(old(self)@, old(task)@, old(store)@.settings) && !cycle_switches(
                old(task)@,
                *plan,
                old(store)@.settings.auto_switch_threshold,
                sample@,
            ) ==> {
                &&& outcome matches CycleOutcome::Published { state, report }
                &&& state@ == final(self)@.state
                &&& final(store)@ == old(store)@
                &&& final(self)@.mode_auto_switched == old(self)@.mode_auto_switched
                &&& final(self)@.state.frequencies == sample@
                &&& final(self)@.state.indicator_status == indicator_of(
                    sample@,
                    plan.threshold_mhz,
                )
                &&& final(self)@.last_alert_time == next_alert_time(
                    sample@,
                    plan.threshold_mhz,
                    old(self)@.last_alert_time,
                    now_secs,
                    old(store)@.settings.alert_debounce_seconds,
                )
                &&& report.total_cores == sample@.len()
                &&& report.exceeded_cores@ == breaching_cores(sample@, plan.threshold_mhz)
                &&& report.indicator == indicator_of(sample@, plan.threshold_mhz)
                &&& report.alert == alert_fires(
                    sample@,
                    plan.threshold_mhz,
                    old(self)@.last_alert_time,
                    now_secs,
                    old(store)@.settings.alert_debounce_seconds,
                )
                &&& report.run_action == (report.alert && plan.trigger_action_enabled)
            },
    {
        if !self.is_current(task, store.settings()) {
            return CycleOutcome::Superseded;
        }
        let run_length = store.settings().auto_switch_threshold;
        let debounce_seconds = store.settings().alert_debounce_seconds;
        if plan.auto_switch_enabled && plan.mode == FrequencyMode::SysInfo {
            let verdict = task.detector.observe(&sample, run_length);
            self.state.last_update_count = verdict.unchanged_count;
            if verdict.switch_mode {
                self.mode_auto_switched = true;
                let hooks = store.set_frequency_mode(FrequencyMode::CalcMhz);
                return CycleOutcome::ModeSwitched {
                    unchanged_count: verdict.unchanged_count,
                    state: self.state.copy(),
                    hooks,
                };
            }
        } else {
            task.detector.pass(&sample);
            self.state.last_update_count = 0;
        }
        let report = check_frequency_threshold(
            &sample,
            plan.threshold_mhz,
            plan.trigger_action_enabled,
            &mut self.last_alert_time,
            debounce_seconds,
            now_secs,
        );
        self.state.frequencies = sample;
        self.state.indicator_status = report.indicator;
        CycleOutcome::Published { state: self.state.copy(), report }
    }

    /// What the change of `key` to `value` asks of the engine.
    pub fn effect_of_change(key: SettingKey, value: &SettingValue) -> (effect: HookEffect)
        ensures
            effect == hook_effect(key, value@),
    {
        match key {
            SettingKey::FrequencyDetectionEnabled => match value.as_bool() {
                Some(false) => HookEffect::Stop,
                _ => HookEffect::Restart,
            },
            SettingKey::RefreshInterval => match value.as_u64() {
                Some(_) => HookEffect::Restart,
                None => HookEffect::Nothing,
            },
            SettingKey::FrequencyMode => match value.as_str() {
                Some(_) => HookEffect::Restart,
                None => HookEffect::Nothing,
            },
            _ => HookEffect::Nothing,
        }
    }

    /// Registers `handle` with the store for the settings whose change
    /// restarts or stops the engine.
    pub fn register_hooks(store: &mut SettingsStore, handle: u64)
        ensures
            final(store)@ == (StoreView {
                hooks: old(store)@.hooks.push(
                    HookView { key: SettingKey::FrequencyDetectionEnabled.spec_name(), handle },
                ).push(HookView { key: SettingKey::RefreshInterval.spec_name(), handle }).push(
                    HookView { key: SettingKey::FrequencyMode.spec_name(), handle },
                ),
                ..old(store)@
            }),
    {
        store.add_setting_hook(SettingKey::FrequencyDetectionEnabled.name(), handle);
        store.add_setting_hook(SettingKey::RefreshInterval.name(), handle);
        store.add_setting_hook(SettingKey::FrequencyMode.name(), handle);
    }

    /// Takes the report that the setting `key` has changed to `value`;
    /// `settings` are the settings after the change. Where the change asks
    /// for a restart, the new loop is handed back.
    pub fn setting_changed(
        &mut self,
        key: SettingKey,
        value: &SettingValue,
        settings: &Settings,
        now_ms: u64,
    ) -> (task: Option<SamplingTask>)
        ensures
            final(self)@ == monitor_after_change(old(self)@, key, value@, settings@, now_ms),
            task is Some <==> hook_effect(key, value@) == HookEffect::Restart && can_start(
                old(self)@,
                settings@,
            ),
            task matches Some(t) ==> t@ == (TaskView {
                generation: fresh_generation(old(self)@, now_ms),
                interval_ms: settings@.refresh_interval,
                detector: StagnationView { previous: Seq::empty(), run: 0 },
                first: true,
            }),
    {
        match Self::effect_of_change(key, value) {
            HookEffect::Restart => self.start(settings, now_ms),
            HookEffect::Stop => {
                self.stop();
                None
            },
            HookEffect::Nothing => {
                match (key, value.as_bool()) {
                    (SettingKey::TriggerActionEnabled, Some(false)) => {
                        self.last_alert_time = 0;
                    },
                    (SettingKey::AutoSwitchEnabled, Some(false)) => {
                        self.state.last_update_count = 0;
                    },
                    _ => {},
                }
                None
            },
        }
    }

    /// Whether some trigger action is enabled.
    pub fn has_active_trigger_action(actions: &Vec<TriggerAction>) -> (r: bool)
        ensures
            r == any_enabled(action_views(actions@)),
    {
        crate::trigger_action::has_active_trigger_action(actions)
    }

    /// Takes a sample that was forced outside the loop, and raises
    /// `is_refreshing`. The caller publishes the snapshot and calls
    /// `end_refresh` after `REFRESH_PULSE_MS`.
    pub fn refresh_now(&mut self, sample: Vec<u64>) -> (state: MonitorState)
        ensures
            final(self)@ == (MonitorView {
                state: MonitorStateView {
                    frequencies: sample@,
                    is_refreshing: true,
                    ..old(self)@.state
                },
                ..old(self)@
            }),
            state@ == final(self)@.state,
    {
        self.state.frequencies = sample;
        self.state.is_refreshing = true;
        self.state.copy()
    }

    /// Lowers `is_refreshing` again.
    pub fn end_refresh(&mut self) -> (state: MonitorState)
        ensures
            final(self)@ == (MonitorView {
                state: MonitorStateView { is_refreshing: false, ..old(self)@.state },
                ..old(self)@
            }),
            state@ == final(self)@.state,
    {
        self.state.is_refreshing = false;
        self.state.copy()
    }
}

/// The snapshot of an engine.
pub fn get_monitor_state(monitor: &Monitor) -> (r: MonitorState)
    ensures
        r@ == monitor@.state,
{
    monitor.get_current_state()
}

/// A loop started earlier is no longer live once `start` has started a new
/// one, whatever the settings say then: what it samples is never published.
pub proof fn lemma_restart_supersedes(
    monitor: MonitorView,
    task: TaskView,
    settings: SettingsView,
    now_ms: u64,
    later_settings: SettingsView,
)
    requires
        task.generation <= monitor.last_issued,
        can_start(monitor, settings),
    ensures
        !is_live(monitor_after_start(monitor, settings, now_ms), task, later_settings),
        monitor_after_start(monitor, settings, now_ms).generation > monitor.last_issued,
        monitor_after_start(monitor, settings, now_ms).generation != STOPPED,
{
}

/// Every generation that `start` gives is larger than all given before, so
/// that no two loops ever share one.
pub proof fn lemma_generations_increase(
    monitor: MonitorView,
    settings: SettingsView,
    now_ms: u64,
)
    requires
        monitor.generation <= monitor.last_issued,
    ensures
        monitor_after_start(monitor, settings, now_ms).last_issued >= monitor.last_issued,
        monitor_after_start(monitor, settings, now_ms).generation
            <= monitor_after_start(monitor, settings, now_ms).last_issued,
        can_start(monitor, settings) ==> monitor_after_start(
            monitor,
            settings,
            now_ms,
        ).generation > monitor.generation,
{
}

/// No loop is live while the engine is stopped.
pub proof fn lemma_stopped_engine_has_no_live_loop(
    monitor: MonitorView,
    task: TaskView,
    settings: SettingsView,
)
    requires
        monitor.generation == STOPPED || !settings.frequency_detection_enabled,
    ensures
        !is_live(monitor, task, settings),
{
}

/// Once the sampling mode is the fallback method, no cycle switches it
/// again: the fall-back happens once.
pub proof fn lemma_fallback_mode_never_switches(
    task: TaskView,
    settings: SettingsView,
    run_length: u64,
    sample: Seq<u64>,
)
    requires
        settings.frequency_mode == FrequencyMode::CalcMhz.code(),
    ensures
        plan_for(settings).mode == FrequencyMode::CalcMhz,
        !cycle_switches(task, plan_for(settings), run_length, sample),
{
    crate::settings::lemma_mode_code_round_trip(FrequencyMode::CalcMhz);
}

/// A change that is taken for one of the settings that shape the loop never
/// leaves the running loop as it is: the engine stops, or it starts a loop
/// under a generation that no loop had before.
pub proof fn lemma_loop_shaping_change_supersedes(
    monitor: MonitorView,
    task: TaskView,
    settings: SettingsView,
    key: SettingKey,
    value: ValueView,
    now_ms: u64,
)
    requires
        key == SettingKey::RefreshInterval || key == SettingKey::FrequencyMode || key
            == SettingKey::FrequencyDetectionEnabled,
        settings_with(settings, key, value) is Ok,
        task.generation <= monitor.last_issued,
        monitor.last_issued < u64::MAX,
    ensures
        hook_effect(key, value) != HookEffect::Nothing,
        !is_live(
            monitor_after_change(monitor, key, value, settings_with(settings, key, value)->Ok_0, now_ms),
            task,
            settings_with(settings, key, value)->Ok_0,
        ),
{
}

/// After `register_hooks` on a store without hooks, a change of each of the
/// three settings that shape the loop calls the engine's hook, and a change
/// of the sampling mode calls no other.
pub proof fn lemma_engine_hooks_registered(handle: u64)
    ensures
        ({
            let hooks = Seq::<HookView>::empty().push(
                HookView { key: SettingKey::FrequencyDetectionEnabled.spec_name(), handle },
            ).push(HookView { key: SettingKey::RefreshInterval.spec_name(), handle }).push(
                HookView { key: SettingKey::FrequencyMode.spec_name(), handle },
            );
            &&& handles_for(hooks, SettingKey::FrequencyDetectionEnabled.spec_name()) == seq![handle]
            &&& handles_for(hooks, SettingKey::RefreshInterval.spec_name()) == seq![handle]
            &&& handles_for(hooks, SettingKey::FrequencyMode.spec_name()) == seq![handle]
        }),
{
    reveal_strlit("frequency_detection_enabled");
    reveal_strlit("refresh_interval");
    reveal_strlit("frequency_mode");
    let detection = SettingKey::FrequencyDetectionEnabled.spec_name();
    let interval = SettingKey::RefreshInterval.spec_name();
    let mode = SettingKey::FrequencyMode.spec_name();
    assert(detection.len() == 27 && interval.len() == 16 && mode.len() == 14);
    let none = Seq::<HookView>::empty();
    let h1 = HookView { key: detection, handle };
    let h2 = HookView { key: interval, handle };
    let h3 = HookView { key: mode, handle };
    lemma_hooks_in_order(none, h1, detection);
    lemma_hooks_in_order(none, h1, interval);
    lemma_hooks_in_order(none, h1, mode);
    lemma_hooks_in_order(none.push(h1), h2, detection);
    lemma_hooks_in_order(none.push(h1), h2, interval);
    lemma_hooks_in_order(none.push(h1), h2, mode);
    lemma_hooks_in_order(none.push(h1).push(h2), h3, detection);
    lemma_hooks_in_order(none.push(h1).push(h2), h3, interval);
    lemma_hooks_in_order(none.push(h1).push(h2), h3, mode);
}

} // verus!
