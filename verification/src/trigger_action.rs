//! Trigger actions: the user's configured power-plan swaps, the rules under
//! which one may be enabled, and the list operations on the persisted set.

use crate::power_plan::plan_resolves;
use crate::power_plan::PowerPlan;
use crate::power_plan::PowerPlanController;
use crate::settings::SettingsView;
use crate::settings_store::SettingsStore;
use crate::settings_store::StoreView;
use crate::text::str_eq;
use vstd::prelude::*;

verus! {

/// What an action does when it runs. Only `Simple` does anything yet; the
/// other kinds are kept so that stored actions of those kinds stay readable.
#[derive(Clone, Debug)]
pub enum TriggerActionWorker {
    /// Switch to the temporary plan, wait, then switch to the target plan.
    Simple { temp_plan_guid: String, pause_seconds: u32, target_plan_guid: String },
    SettingSwitch {  },
    Workflow {  },
}

/// A worker as specifications see it.
pub enum WorkerView {
    Simple { temp_plan_guid: Seq<char>, pause_seconds: u32, target_plan_guid: Seq<char> },
    SettingSwitch,
    Workflow,
}

impl View for TriggerActionWorker {
    type V = WorkerView;

    open spec fn view(&self) -> WorkerView {
        match self {
            TriggerActionWorker::Simple { temp_plan_guid, pause_seconds, target_plan_guid } => {
                WorkerView::Simple {
                    temp_plan_guid: temp_plan_guid@,
                    pause_seconds: *pause_seconds,
                    target_plan_guid: target_plan_guid@,
                }
            },
            TriggerActionWorker::SettingSwitch {  } => WorkerView::SettingSwitch,
            TriggerActionWorker::Workflow {  } => WorkerView::Workflow,
        }
    }
}

/// One configured action. `version` names the kind of `worker` in the stored
/// form: "simple", "setting_switch" or "workflow".
#[derive(Clone)]
pub struct TriggerAction {
    pub id: String,
    pub name: String,
    pub version: String,
    pub enabled: bool,
    pub worker: TriggerActionWorker,
}

/// An action as specifications see it.
pub struct TriggerActionView {
    pub id: Seq<char>,
    pub name: Seq<char>,
    pub version: Seq<char>,
    pub enabled: bool,
    pub worker: WorkerView,
}

impl View for TriggerAction {
    type V = TriggerActionView;

    open spec fn view(&self) -> TriggerActionView {
        TriggerActionView {
            id: self.id@,
            name: self.name@,
            version: self.version@,
            enabled: self.enabled,
            worker: self.worker@,
        }
    }
}

/// Calls `uuid::Uuid::new_v4` and writes the id with its `to_string`: a
/// random id in the hyphenated form, which is 36 characters long. Nothing is
/// said of which id it is.
#[verifier::external_body]
fn new_action_id() -> (id: String)
    ensures
        id@.len() == 36,
{
    uuid::Uuid::new_v4().to_string()
}

impl Default for TriggerAction {
    /// A plan swap that is switched off and names no plans yet, under a
    /// fresh random id.
    fn default() -> (r: Self)
        ensures
            r@.id.len() == 36,
            r@.name == Seq::<char>::empty(),
            r@.version == "simple"@,
            !r@.enabled,
            r@.worker == (WorkerView::Simple {
                temp_plan_guid: Seq::empty(),
                pause_seconds: 1,
                target_plan_guid: Seq::empty(),
            }),
    {
        TriggerAction {
            id: new_action_id(),
            name: String::new(),
            version: "simple".to_owned(),
            enabled: false,
            worker: TriggerActionWorker::Simple {
                temp_plan_guid: String::new(),
                pause_seconds: 1,
                target_plan_guid: String::new(),
            },
        }
    }
}

/// The actions of a list as specifications see them.
pub open spec fn action_views(actions: Seq<TriggerAction>) -> Seq<TriggerActionView> {
    actions.map_values(|a: TriggerAction| a@)
}

/// Why an action is not fit to run.
#[derive(Clone, Copy, Debug, PartialEq, Eq, Structural)]
pub enum ActionError {
    /// The temporary plan is not among the system's plans.
    TempPlanMissing,
    /// The target plan is not among the system's plans.
    TargetPlanMissing,
    /// The pause between the two switches is shorter than one second.
    PauseTooShort,
    /// The stored kind is none of the known ones.
    UnknownVersion,
}

/// Why an action could not be switched on.
#[derive(Clone, Copy, Debug, PartialEq, Eq, Structural)]
pub enum ToggleError {
    /// No action carries the id.
    NotFound,
    /// The temporary plan is not among the system's plans.
    TempPlanMissing,
    /// The target plan is not among the system's plans.
    TargetPlanMissing,
}

/// The verdict on an action against the plans that exist: the first of the
/// checks that fails, in the order temporary plan, target plan, pause.
pub open spec fn action_validity(action: TriggerActionView, plans: Seq<PowerPlan>) -> Result<
    (),
    ActionError,
> {
    if action.version == "simple"@ {
        match action.worker {
            WorkerView::Simple { temp_plan_guid, pause_seconds, target_plan_guid } => {
                if !plan_resolves(plans, temp_plan_guid) {
                    Err(ActionError::TempPlanMissing)
                } else if !plan_resolves(plans, target_plan_guid) {
                    Err(ActionError::TargetPlanMissing)
                } else if pause_seconds < 1 {
                    Err(ActionError::PauseTooShort)
                } else {
                    Ok(())
                }
            },
            _ => Ok(()),
        }
    } else if action.version == "setting_switch"@ || action.version == "workflow"@ {
        Ok(())
    } else {
        Err(ActionError::UnknownVersion)
    }
}

/// Which plan, if any, stands in the way of enabling an action.
pub open spec fn missing_plan(action: TriggerActionView, plans: Seq<PowerPlan>) -> Option<
    ToggleError,
> {
    match action.worker {
        WorkerView::Simple { temp_plan_guid, pause_seconds, target_plan_guid } => {
            if !plan_resolves(plans, temp_plan_guid) {
                Some(ToggleError::TempPlanMissing)
            } else if !plan_resolves(plans, target_plan_guid) {
                Some(ToggleError::TargetPlanMissing)
            } else {
                None
            }
        },
        _ => None,
    }
}

/// `i` is the place of the first action that carries `id`.
pub open spec fn is_first_with_id(actions: Seq<TriggerActionView>, id: Seq<char>, i: int) -> bool {
    &&& 0 <= i < actions.len()
    &&& actions[i].id == id
    &&& forall|k: int| 0 <= k < i ==> (#[trigger] actions[k]).id != id
}

/// Some action carries `id`.
pub open spec fn has_id(actions: Seq<TriggerActionView>, id: Seq<char>) -> bool {
    exists|i: int| 0 <= i < actions.len() && (#[trigger] actions[i]).id == id
}

/// The place of the first action that carries `id`, if there is one.
pub open spec fn first_with_id(actions: Seq<TriggerActionView>, id: Seq<char>) -> Option<int> {
    if exists|i: int| is_first_with_id(actions, id, i) {
        Some(choose|i: int| is_first_with_id(actions, id, i))
    } else {
        None
    }
}

/// `first_with_id` is the one place that `is_first_with_id` accepts, and it
/// is `None` exactly when no action carries the id.
pub proof fn lemma_first_with_id(actions: Seq<TriggerActionView>, id: Seq<char>)
    ensures
        forall|i: int|
            is_first_with_id(actions, id, i) ==> first_with_id(actions, id) == Some(i),
        first_with_id(actions, id) is None <==> !has_id(actions, id),
        first_with_id(actions, id) matches Some(i) ==> is_first_with_id(actions, id, i),
{
    if has_id(actions, id) {
        let w = choose|i: int| 0 <= i < actions.len() && (#[trigger] actions[i]).id == id;
        lemma_least_with_id(actions, id, w);
    }
}

/// Below any action that carries `id` there is a first one.
proof fn lemma_least_with_id(actions: Seq<TriggerActionView>, id: Seq<char>, w: int)
    requires
        0 <= w < actions.len(),
        actions[w].id == id,
    ensures
        exists|i: int| is_first_with_id(actions, id, i),
    decreases w,
{
    if exists|k: int| 0 <= k < w && (#[trigger] actions[k]).id == id {
        let k = choose|k: int| 0 <= k < w && (#[trigger] actions[k]).id == id;
        lemma_least_with_id(actions, id, k);
    } else {
        assert(is_first_with_id(actions, id, w));
    }
}

/// `i` is the place of the first enabled action.
pub open spec fn is_first_enabled(actions: Seq<TriggerActionView>, i: int) -> bool {
    &&& 0 <= i < actions.len()
    &&& actions[i].enabled
    &&& forall|k: int| 0 <= k < i ==> !(#[trigger] actions[k]).enabled
}

/// Some action is enabled.
pub open spec fn any_enabled(actions: Seq<TriggerActionView>) -> bool {
    exists|i: int| 0 <= i < actions.len() && (#[trigger] actions[i]).enabled
}

/// The list with the action at `i` switched on or off.
pub open spec fn with_enabled(
    actions: Seq<TriggerActionView>,
    i: int,
    enabled: bool,
) -> Seq<TriggerActionView> {
    actions.update(i, TriggerActionView { enabled: enabled, ..actions[i] })
}

/// The list after the first action that carries `id`, if any, was switched
/// on or off.
pub open spec fn after_set_enabled(
    actions: Seq<TriggerActionView>,
    id: Seq<char>,
    enabled: bool,
) -> Seq<TriggerActionView> {
    match first_with_id(actions, id) {
        Some(i) => with_enabled(actions, i, enabled),
        None => actions,
    }
}

/// The list after `action` was stored: in the place of the first action with
/// the same id, or at the end where there is none.
pub open spec fn after_save(
    actions: Seq<TriggerActionView>,
    action: TriggerActionView,
) -> Seq<TriggerActionView> {
    match first_with_id(actions, action.id) {
        Some(i) => actions.update(i, action),
        None => actions.push(action),
    }
}

/// The list without the actions that carry `id`; the others keep their order.
pub open spec fn after_delete(
    actions: Seq<TriggerActionView>,
    id: Seq<char>,
) -> Seq<TriggerActionView> {
    actions.filter(|a: TriggerActionView| a.id != id)
}

/// The outcome of a request to switch the action `id` on or off. Switching on
/// asks that the action exists and that its plans resolve; a request that
/// fails leaves the list as it was.
pub open spec fn toggle_outcome(
    actions: Seq<TriggerActionView>,
    plans: Seq<PowerPlan>,
    id: Seq<char>,
    enabled: bool,
) -> Result<Seq<TriggerActionView>, ToggleError> {
    if enabled {
        match first_with_id(actions, id) {
            None => Err(ToggleError::NotFound),
            Some(i) => match missing_plan(actions[i], plans) {
                Some(e) => Err(e),
                None => Ok(with_enabled(actions, i, true)),
            },
        }
    } else {
        Ok(after_set_enabled(actions, id, false))
    }
}

impl TriggerActionWorker {
    /// A copy of the worker.
    pub fn copy(&self) -> (r: Self)
        ensures
            r@ == self@,
    {
        match self {
            TriggerActionWorker::Simple { temp_plan_guid, pause_seconds, target_plan_guid } => {
                TriggerActionWorker::Simple {
                    temp_plan_guid: temp_plan_guid.clone(),
                    pause_seconds: *pause_seconds,
                    target_plan_guid: target_plan_guid.clone(),
                }
            },
            TriggerActionWorker::SettingSwitch {  } => TriggerActionWorker::SettingSwitch {  },
            TriggerActionWorker::Workflow {  } => TriggerActionWorker::Workflow {  },
        }
    }
}

impl TriggerAction {
    /// A copy of the action.
    pub fn copy(&self) -> (r: Self)
        ensures
            r@ == self@,
    {
        TriggerAction {
            id: self.id.clone(),
            name: self.name.clone(),
            version: self.version.clone(),
            enabled: self.enabled,
            worker: self.worker.copy(),
        }
    }

    /// A copy of the action, switched on or off.
    pub fn with_enabled(&self, enabled: bool) -> (r: Self)
        ensures
            r@ == (TriggerActionView { enabled: enabled, ..self@ }),
    {
        TriggerAction {
            id: self.id.clone(),
            name: self.name.clone(),
            version: self.version.clone(),
            enabled,
            worker: self.worker.copy(),
        }
    }
}

/// Checks an action against the plans that exist.
pub fn is_valid_trigger_action(action: &TriggerAction, plans: &Vec<PowerPlan>) -> (r: Result<
    (),
    ActionError,
>)
    ensures
        r == action_validity(action@, plans@),
{
    if str_eq(action.version.as_str(), "simple") {
        match &action.worker {
            TriggerActionWorker::Simple { temp_plan_guid, pause_seconds, target_plan_guid } => {
                if !PowerPlanController::check_if_scheme_is_valid(plans, temp_plan_guid.as_str()) {
                    return Err(ActionError::TempPlanMissing);
                }
                if !PowerPlanController::check_if_scheme_is_valid(
                    plans,
                    target_plan_guid.as_str(),
                ) {
                    return Err(ActionError::TargetPlanMissing);
                }
                if *pause_seconds < 1 {
                    return Err(ActionError::PauseTooShort);
                }
                Ok(())
            },
            _ => Ok(()),
        }
    } else if str_eq(action.version.as_str(), "setting_switch") || str_eq(
        action.version.as_str(),
        "workflow",
    ) {
        Ok(())
    } else {
        Err(ActionError::UnknownVersion)
    }
}

/// Finds the first action that carries `action_id`.
pub fn find_trigger_action(actions: &Vec<TriggerAction>, action_id: &str) -> (r: Option<usize>)
    ensures
        match r {
            Some(i) => is_first_with_id(action_views(actions@), action_id@, i as int)
                && first_with_id(action_views(actions@), action_id@) == Some(i as int),
            None => !has_id(action_views(actions@), action_id@) && first_with_id(
                action_views(actions@),
                action_id@,
            ) is None,
        },
{
    let mut i: usize = 0;
    while i < actions.len()
        invariant
            i <= actions@.len(),
            forall|k: int| 0 <= k < i ==> (#[trigger] action_views(actions@)[k]).id != action_id@,
        decreases actions@.len() - i,
    {
        if str_eq(actions[i].id.as_str(), action_id) {
            proof {
                lemma_first_with_id(action_views(actions@), action_id@);
            }
            return Some(i);
        }
        i += 1;
    }
    None
}

/// The action that carries `action_id`, if there is one: a copy of the first.
pub fn get_trigger_action_by_id(actions: &Vec<TriggerAction>, action_id: &str) -> (r: Option<
    TriggerAction,
>)
    ensures
        match first_with_id(action_views(actions@), action_id@) {
            Some(i) => r matches Some(a) && a@ == actions@[i]@,
            None => r is None,
        },
{
    match find_trigger_action(actions, action_id) {
        Some(i) => Some(actions[i].copy()),
        None => None,
    }
}

/// Switches the first action that carries `action_id` on or off; a list
/// without such an action stays as it is.
pub fn set_trigger_action_enabled(actions: &mut Vec<TriggerAction>, action_id: &str, enabled: bool)
    ensures
        action_views(final(actions)@) == after_set_enabled(
            action_views(old(actions)@),
            action_id@,
            enabled,
        ),
{
    match find_trigger_action(actions, action_id) {
        Some(i) => {
            let updated = actions[i].with_enabled(enabled);
            actions.set(i, updated);
        },
        None => {},
    }
}

/// Stores `action`: it takes the place of the first action with its id, or
/// comes last where no action has that id.
pub fn save_trigger_action(actions: &mut Vec<TriggerAction>, action: TriggerAction)
    ensures
        action_views(final(actions)@) == after_save(action_views(old(actions)@), action@),
{
    match find_trigger_action(actions, action.id.as_str()) {
        Some(i) => {
            actions.set(i, action);
        },
        None => {
            actions.push(action);
        },
    }
}

/// Removes every action that carries `action_id`.
pub fn delete_trigger_action(actions: &mut Vec<TriggerAction>, action_id: &str)
    ensures
        action_views(final(actions)@) == after_delete(action_views(old(actions)@), action_id@),
{
    let ghost keep = |a: TriggerActionView| a.id != action_id@;
    let mut kept: Vec<TriggerAction> = Vec::new();
    let mut i: usize = 0;
    while i < actions.len()
        invariant
            i <= actions@.len(),
            keep == |a: TriggerActionView| a.id != action_id@,
            action_views(kept@) == action_views(actions@.take(i as int)).filter(keep),
        decreases actions@.len() - i,
    {
        proof {
            let before = action_views(actions@.take(i as int));
            let longer = action_views(actions@.take(i + 1));
            assert(longer =~= before.push(actions@[i as int]@));
            before.lemma_filter_push(actions@[i as int]@, keep);
        }
        if !str_eq(actions[i].id.as_str(), action_id) {
            kept.push(actions[i].copy());
        }
        i += 1;
    }
    assert(actions@.take(i as int) =~= actions@);
    *actions = kept;
}

/// How many actions there are.
pub fn get_trigger_action_count(actions: &Vec<TriggerAction>) -> (r: usize)
    ensures
        r == actions@.len(),
{
    actions.len()
}

/// How many actions are enabled.
pub fn get_trigger_action_enabled_count(actions: &Vec<TriggerAction>) -> (r: usize)
    ensures
        r == action_views(actions@).filter(|a: TriggerActionView| a.enabled).len(),
{
    let ghost on = |a: TriggerActionView| a.enabled;
    let mut count: usize = 0;
    let mut i: usize = 0;
    while i < actions.len()
        invariant
            i <= actions@.len(),
            on == |a: TriggerActionView| a.enabled,
            count == action_views(actions@.take(i as int)).filter(on).len(),
            count <= i,
        decreases actions@.len() - i,
    {
        proof {
            let before = action_views(actions@.take(i as int));
            let longer = action_views(actions@.take(i + 1));
            assert(longer =~= before.push(actions@[i as int]@));
            before.lemma_filter_push(actions@[i as int]@, on);
        }
        if actions[i].enabled {
            count += 1;
        }
        i += 1;
    }
    assert(actions@.take(i as int) =~= actions@);
    count
}

/// The place of the action that the engine treats as active: the first
/// enabled one.
pub fn active_trigger_action(actions: &Vec<TriggerAction>) -> (r: Option<usize>)
    ensures
        r matches Some(i) ==> is_first_enabled(action_views(actions@), i as int),
        r is None ==> !any_enabled(action_views(actions@)),
{
    let mut i: usize = 0;
    while i < actions.len()
        invariant
            i <= actions@.len(),
            forall|k: int| 0 <= k < i ==> !(#[trigger] action_views(actions@)[k]).enabled,
        decreases actions@.len() - i,
    {
        if actions[i].enabled {
            return Some(i);
        }
        i += 1;
    }
    None
}

/// Whether any action is enabled.
pub fn has_active_trigger_action(actions: &Vec<TriggerAction>) -> (r: bool)
    ensures
        r == any_enabled(action_views(actions@)),
{
    active_trigger_action(actions).is_some()
}

/// Switches the action `action_id` on or off. An action is switched on only
/// if it exists and both of its plans resolve; otherwise the request fails
/// and the list stays as it was.
pub fn toggle_trigger_action(
    actions: &mut Vec<TriggerAction>,
    plans: &Vec<PowerPlan>,
    action_id: &str,
    enabled: bool,
) -> (r: Result<(), ToggleError>)
    ensures
        match toggle_outcome(action_views(old(actions)@), plans@, action_id@, enabled) {
            Ok(after) => r is Ok && action_views(final(actions)@) == after,
            Err(e) => r == Err::<(), ToggleError>(e) && final(actions)@ == old(actions)@,
        },
{
    if enabled {
        let found = find_trigger_action(actions, action_id);
        match found {
            None => {
                return Err(ToggleError::NotFound);
            },
            Some(i) => {
                match &actions[i].worker {
                    TriggerActionWorker::Simple {
                        temp_plan_guid,
                        pause_seconds,
                        target_plan_guid,
                    } => {
                        if !PowerPlanController::check_if_scheme_is_valid(
                            plans,
                            temp_plan_guid.as_str(),
                        ) {
                            return Err(ToggleError::TempPlanMissing);
                        }
                        if !PowerPlanController::check_if_scheme_is_valid(
                            plans,
                            target_plan_guid.as_str(),
                        ) {
                            return Err(ToggleError::TargetPlanMissing);
                        }
                    },
                    _ => {},
                }
            },
        }
    }
    set_trigger_action_enabled(actions, action_id, enabled);
    Ok(())
}

/// An enabled action one of whose plans does not resolve.
pub open spec fn plans_missing(action: TriggerActionView, plans: Seq<PowerPlan>) -> bool {
    action.enabled && missing_plan(action, plans) is Some
}

/// The list after every enabled action with a missing plan was switched off.
pub open spec fn after_reconcile(
    actions: Seq<TriggerActionView>,
    plans: Seq<PowerPlan>,
) -> Seq<TriggerActionView> {
    Seq::new(
        actions.len(),
        |i: int|
            if plans_missing(actions[i], plans) {
                TriggerActionView { enabled: false, ..actions[i] }
            } else {
                actions[i]
            },
    )
}

/// The names of the enabled actions with a missing plan, in list order.
pub open spec fn unresolved_names(
    actions: Seq<TriggerActionView>,
    plans: Seq<PowerPlan>,
) -> Seq<Seq<char>>
    decreases actions.len(),
{
    if actions.len() == 0 {
        Seq::empty()
    } else {
        let before = unresolved_names(actions.drop_last(), plans);
        if plans_missing(actions.last(), plans) {
            before.push(actions.last().name)
        } else {
            before
        }
    }
}

/// The texts of a list of strings.
pub open spec fn texts(strings: Seq<String>) -> Seq<Seq<char>> {
    strings.map_values(|s: String| s@)
}

/// Whether one of the plans of an action does not resolve.
pub fn has_missing_plan(action: &TriggerAction, plans: &Vec<PowerPlan>) -> (r: bool)
    ensures
        r == missing_plan(action@, plans@) is Some,
{
    match &action.worker {
        TriggerActionWorker::Simple { temp_plan_guid, pause_seconds, target_plan_guid } => {
            !PowerPlanController::check_if_scheme_is_valid(plans, temp_plan_guid.as_str())
                || !PowerPlanController::check_if_scheme_is_valid(
                plans,
                target_plan_guid.as_str(),
            )
        },
        _ => false,
    }
}

/// Brings the enabled actions in line with the plans that exist: every
/// enabled action with a missing plan is switched off and its name handed
/// back, and where there is such an action the master switch of the trigger
/// actions is turned off as well.
pub fn check_trigger_actions_power_plans(
    actions: &mut Vec<TriggerAction>,
    plans: &Vec<PowerPlan>,
    store: &mut SettingsStore,
) -> (names: Vec<String>)
    ensures
        texts(names@) == unresolved_names(action_views(old(actions)@), plans@),
        action_views(final(actions)@) == after_reconcile(action_views(old(actions)@), plans@),
        final(store)@ == (if names@.len() > 0 {
            StoreView {
                settings: SettingsView { trigger_action_enabled: false, ..old(store)@.settings },
                ..old(store)@
            }
        } else {
            old(store)@
        }),
{
    let mut names: Vec<String> = Vec::new();
    let mut kept: Vec<TriggerAction> = Vec::new();
    let mut i: usize = 0;
    while i < actions.len()
        invariant
            i <= actions@.len(),
            kept@.len() == i,
            texts(names@) == unresolved_names(action_views(actions@).take(i as int), plans@),
            forall|k: int|
                0 <= k < i ==> (#[trigger] kept@[k])@ == after_reconcile(
                    action_views(actions@),
                    plans@,
                )[k],
        decreases actions@.len() - i,
    {
        proof {
            let longer = action_views(actions@).take(i + 1);
            assert(longer.drop_last() =~= action_views(actions@).take(i as int));
        }
        if actions[i].enabled && has_missing_plan(&actions[i], plans) {
            names.push(actions[i].name.clone());
            kept.push(actions[i].with_enabled(false));
        } else {
            kept.push(actions[i].copy());
        }
        i += 1;
    }
    proof {
        assert(action_views(actions@).take(i as int) =~= action_views(actions@));
    }
    *actions = kept;
    if names.len() > 0 {
        store.set_trigger_action_master_switch(false);
    }
    names
}

/// An action whose plans are missing never comes out of a reconciliation
/// enabled, and an action that was off stays off.
pub proof fn lemma_reconciled_actions_resolve(
    actions: Seq<TriggerActionView>,
    plans: Seq<PowerPlan>,
    i: int,
)
    requires
        0 <= i < actions.len(),
    ensures
        after_reconcile(actions, plans)[i].enabled ==> actions[i].enabled && missing_plan(
            actions[i],
            plans,
        ) is None,
        !plans_missing(after_reconcile(actions, plans)[i], plans),
{
}

/// A request to enable an action whose temporary plan does not resolve
/// fails, and the list it would have changed is the list as it was.
pub proof fn lemma_enable_needs_temp_plan(
    actions: Seq<TriggerActionView>,
    plans: Seq<PowerPlan>,
    id: Seq<char>,
    i: int,
)
    requires
        is_first_with_id(actions, id, i),
        actions[i].worker matches WorkerView::Simple { temp_plan_guid, .. } && !plan_resolves(
            plans,
            temp_plan_guid,
        ),
    ensures
        toggle_outcome(actions, plans, id, true) == Err::<Seq<TriggerActionView>, ToggleError>(
            ToggleError::TempPlanMissing,
        ),
{
    lemma_first_with_id(actions, id);
}

} // verus!
