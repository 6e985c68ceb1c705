//! The settings store: the live settings, the hooks that are registered for
//! changes of single settings, and the typed readers that fall back to fixed
//! values while no store exists.

use crate::settings::key_named;
use crate::settings::setting_value;
use crate::settings::settings_with_named;
use crate::settings::FrequencyMode;
use crate::settings::SettingError;
use crate::settings::SettingValue;
use crate::settings::Settings;
use crate::settings::SettingsView;
use crate::text::str_eq;
use vstd::prelude::*;

verus! {

/// A hook registered for the changes of one setting. The store keeps the
/// handle; the caller keeps what the handle stands for and calls it.
#[derive(Debug)]
pub struct SettingHook {
    pub key: String,
    pub handle: u64,
}

/// A hook as specifications see it.
pub struct HookView {
    pub key: Seq<char>,
    pub handle: u64,
}

impl View for SettingHook {
    type V = HookView;

    open spec fn view(&self) -> HookView {
        HookView { key: self.key@, handle: self.handle }
    }
}

/// The hooks of a list as specifications see them.
pub open spec fn hook_views(hooks: Seq<SettingHook>) -> Seq<HookView> {
    hooks.map_values(|h: SettingHook| h@)
}

/// The handles of the hooks registered for `key`, in the order in which they
/// were registered.
pub open spec fn handles_for(hooks: Seq<HookView>, key: Seq<char>) -> Seq<u64>
    decreases hooks.len(),
{
    if hooks.len() == 0 {
        Seq::empty()
    } else {
        let before = handles_for(hooks.drop_last(), key);
        if hooks.last().key == key {
            before.push(hooks.last().handle)
        } else {
            before
        }
    }
}

/// The settings store.
pub struct SettingsStore {
    settings: Settings,
    skip_frequency_mode_persist: bool,
    hooks: Vec<SettingHook>,
}

/// The store as specifications see it.
pub struct StoreView {
    pub settings: SettingsView,
    pub skip_frequency_mode_persist: bool,
    pub hooks: Seq<HookView>,
}

impl View for SettingsStore {
    type V = StoreView;

    closed spec fn view(&self) -> StoreView {
        StoreView {
            settings: self.settings@,
            skip_frequency_mode_persist: self.skip_frequency_mode_persist,
            hooks: hook_views(self.hooks@),
        }
    }
}

/// Why the store could not answer.
#[derive(Clone, Copy, Debug, PartialEq, Eq, Structural)]
pub enum StoreError {
    /// No store has been set up yet.
    NotInitialized,
    /// A store has been set up before.
    AlreadyInitialized,
}

/// Why a setting could not be written or read through the store.
#[derive(Clone, Copy, Debug, PartialEq, Eq, Structural)]
pub enum UpdateSettingError {
    /// No store has been set up yet.
    NotInitialized,
    /// The store refused: this is why.
    Refused(SettingError),
}

impl SettingsStore {
    /// A store that holds `settings`, with no hook registered.
    pub fn new(settings: Settings) -> (store: Self)
        ensures
            store@ == (StoreView {
                settings: settings@,
                skip_frequency_mode_persist: false,
                hooks: Seq::empty(),
            }),
    {
        let store = SettingsStore {
            settings,
            skip_frequency_mode_persist: false,
            hooks: Vec::new(),
        };
        assert(hook_views(store.hooks@) =~= Seq::<HookView>::empty());
        store
    }

    /// The live settings.
    pub fn settings(&self) -> (r: &Settings)
        ensures
            r@ == self@.settings,
    {
        &self.settings
    }

    /// A copy of the live settings.
    pub fn get_settings(&self) -> (r: Settings)
        ensures
            r@ == self@.settings,
    {
        self.settings.copy()
    }

    /// Replaces the live settings as a whole.
    pub fn update_settings(&mut self, new_settings: Settings)
        ensures
            final(self)@ == (StoreView { settings: new_settings@, ..old(self)@ }),
    {
        self.settings = new_settings;
    }

    /// Turns the master switch of the trigger actions on or off.
    pub fn set_trigger_action_master_switch(&mut self, enabled: bool)
        ensures
            final(self)@ == (StoreView {
                settings: SettingsView { trigger_action_enabled: enabled, ..old(self)@.settings },
                ..old(self)@
            }),
    {
        self.settings.trigger_action_enabled = enabled;
    }

    /// Whether the master switch of the trigger actions is on.
    pub fn get_trigger_action_master_switch(&self) -> (r: bool)
        ensures
            r == self@.settings.trigger_action_enabled,
    {
        self.settings.trigger_action_enabled
    }

    /// Offers `value` for the setting called `key`. A value that is refused
    /// leaves the store as it was.
    pub fn set_setting(&mut self, key: &str, value: &SettingValue) -> (r: Result<(), SettingError>)
        ensures
            match settings_with_named(old(self)@.settings, key@, value@) {
                Ok(after) => r is Ok && final(self)@ == (StoreView {
                    settings: after,
                    ..old(self)@
                }),
                Err(e) => r == Err::<(), SettingError>(e) && final(self)@ == old(self)@,
            },
    {
        self.settings.set_setting(key, value)
    }

    /// Offers `value` for the setting called `key` and, where it is taken,
    /// hands back the handles of the hooks to call: those registered for
    /// `key`, in the order of their registration. The caller persists the
    /// settings first and calls the hooks after that.
    pub fn validate_and_update_setting(&mut self, key: &str, value: &SettingValue) -> (r: Result<
        Vec<u64>,
        SettingError,
    >)
        ensures
            match settings_with_named(old(self)@.settings, key@, value@) {
                Ok(after) => r matches Ok(handles) && handles@ == handles_for(
                    old(self)@.hooks,
                    key@,
                ) && final(self)@ == (StoreView { settings: after, ..old(self)@ }),
                Err(e) => r matches Err(f) && f == e && final(self)@ == old(self)@,
            },
    {
        match self.set_setting(key, value) {
            Ok(()) => Ok(self.trigger_hooks(key)),
            Err(e) => Err(e),
        }
    }

    /// Reads the setting called `key`.
    pub fn get_setting(&self, key: &str) -> (r: Result<SettingValue, SettingError>)
        ensures
            match key_named(key@) {
                Some(k) => r matches Ok(v) && v@ == setting_value(self@.settings, k),
                None => r matches Err(e) && e == SettingError::UnknownKey,
            },
    {
        self.settings.get_setting(key)
    }

    /// Writes the sampling mode and hands back the handles of the hooks
    /// registered for it, to be called once the settings are persisted.
    pub fn set_frequency_mode(&mut self, mode: FrequencyMode) -> (handles: Vec<u64>)
        ensures
            final(self)@ == (StoreView {
                settings: SettingsView { frequency_mode: mode.code(), ..old(self)@.settings },
                ..old(self)@
            }),
            handles@ == handles_for(old(self)@.hooks, "frequency_mode"@),
    {
        self.settings.frequency_mode = mode.as_code().to_owned();
        self.trigger_hooks("frequency_mode")
    }

    /// Says whether the sampling mode is to be left out when the settings
    /// are persisted.
    pub fn set_skip_frequency_mode_persist(&mut self, skip: bool)
        ensures
            final(self)@ == (StoreView { skip_frequency_mode_persist: skip, ..old(self)@ }),
    {
        self.skip_frequency_mode_persist = skip;
    }

    /// The settings to write to storage, given the sampling mode that
    /// storage holds now.
    pub fn settings_to_save(&self, stored_mode: &str) -> (r: Settings)
        ensures
            r@ == (if self@.skip_frequency_mode_persist {
                SettingsView { frequency_mode: stored_mode@, ..self@.settings }
            } else {
                self@.settings
            }),
    {
        self.settings.for_storage(self.skip_frequency_mode_persist, stored_mode)
    }

    /// Registers a hook for the changes of the setting called `key`.
    pub fn add_setting_hook(&mut self, key: &str, handle: u64)
        ensures
            final(self)@ == (StoreView {
                hooks: old(self)@.hooks.push(HookView { key: key@, handle: handle }),
                ..old(self)@
            }),
    {
        self.hooks.push(SettingHook { key: key.to_owned(), handle });
        assert(hook_views(self.hooks@) =~= hook_views(old(self).hooks@).push(
            HookView { key: key@, handle: handle },
        ));
    }

    /// The handles of the hooks registered for `key`, in the order of their
    /// registration.
    pub fn trigger_hooks(&self, key: &str) -> (handles: Vec<u64>)
        ensures
            handles@ == handles_for(self@.hooks, key@),
    {
        let mut handles: Vec<u64> = Vec::new();
        let mut i: usize = 0;
        while i < self.hooks.len()
            invariant
                i <= self.hooks@.len(),
                handles@ == handles_for(hook_views(self.hooks@).take(i as int), key@),
            decreases self.hooks@.len() - i,
        {
            proof {
                let longer = hook_views(self.hooks@).take(i + 1);
                assert(longer.drop_last() =~= hook_views(self.hooks@).take(i as int));
            }
            if str_eq(self.hooks[i].key.as_str(), key) {
                handles.push(self.hooks[i].handle);
            }
            i += 1;
        }
        assert(hook_views(self.hooks@).take(i as int) =~= hook_views(self.hooks@));
        handles
    }
}

/// The alert threshold in MHz; 3000 while no store exists.
pub fn get_frequency_threshold(store: Option<&SettingsStore>) -> (r: i64)
    ensures
        r == match store {
            Some(s) => s@.settings.frequency_threshold_mhz,
            None => 3000,
        },
{
    match store {
        Some(s) => s.settings.frequency_threshold_mhz,
        None => 3000,
    }
}

/// Whether the stagnation detector runs; off while no store exists.
pub fn get_auto_switch_enabled(store: Option<&SettingsStore>) -> (r: bool)
    ensures
        r == match store {
            Some(s) => s@.settings.auto_switch_enabled,
            None => false,
        },
{
    match store {
        Some(s) => s.settings.auto_switch_enabled,
        None => false,
    }
}

/// The stagnation run length; 0 while no store exists.
pub fn get_auto_switch_threshold(store: Option<&SettingsStore>) -> (r: u64)
    ensures
        r == match store {
            Some(s) => s@.settings.auto_switch_threshold,
            None => 0,
        },
{
    match store {
        Some(s) => s.settings.auto_switch_threshold,
        None => 0,
    }
}

/// The sampling interval in milliseconds; 1000 while no store exists.
pub fn get_refresh_interval(store: Option<&SettingsStore>) -> (r: u64)
    ensures
        r == match store {
            Some(s) => s@.settings.refresh_interval,
            None => 1000,
        },
{
    match store {
        Some(s) => s.settings.refresh_interval,
        None => 1000,
    }
}

/// Whether the master switch of the trigger actions is on.
pub fn is_trigger_action_master_switch_enabled(store: Option<&SettingsStore>) -> (r: Result<
    bool,
    StoreError,
>)
    ensures
        r == match store {
            Some(s) => Ok::<bool, StoreError>(s@.settings.trigger_action_enabled),
            None => Err::<bool, StoreError>(StoreError::NotInitialized),
        },
{
    match store {
        Some(s) => Ok(s.get_trigger_action_master_switch()),
        None => Err(StoreError::NotInitialized),
    }
}

/// Whether the master switch of the trigger actions is on.
pub fn get_trigger_action_enabled(store: Option<&SettingsStore>) -> (r: Result<bool, StoreError>)
    ensures
        r == match store {
            Some(s) => Ok::<bool, StoreError>(s@.settings.trigger_action_enabled),
            None => Err::<bool, StoreError>(StoreError::NotInitialized),
        },
{
    is_trigger_action_master_switch_enabled(store)
}

/// The debounce window in seconds; 15 while no store exists.
pub fn get_alert_debounce_seconds(store: Option<&SettingsStore>) -> (r: u64)
    ensures
        r == match store {
            Some(s) => s@.settings.alert_debounce_seconds,
            None => 15,
        },
{
    match store {
        Some(s) => s.settings.alert_debounce_seconds,
        None => 15,
    }
}

/// Whether the engine samples at all; off while no store exists.
pub fn get_frequency_detection_enabled(store: Option<&SettingsStore>) -> (r: bool)
    ensures
        r == match store {
            Some(s) => s@.settings.frequency_detection_enabled,
            None => false,
        },
{
    match store {
        Some(s) => s.settings.frequency_detection_enabled,
        None => false,
    }
}

/// The stored text of the sampling mode; "1" while no store exists.
pub fn get_frequency_mode(store: Option<&SettingsStore>) -> (r: String)
    ensures
        r@ == match store {
            Some(s) => s@.settings.frequency_mode,
            None => "1"@,
        },
{
    match store {
        Some(s) => s.settings.frequency_mode.clone(),
        None => "1".to_owned(),
    }
}

/// Turns the master switch of the trigger actions on or off, where a store
/// exists.
pub fn set_trigger_action_master_switch(store: &mut Option<SettingsStore>, enabled: bool) -> (r:
    Result<(), StoreError>)
    ensures
        match *old(store) {
            Some(s) => {
                &&& r is Ok
                &&& *final(store) matches Some(t)
                &&& t@ == (StoreView {
                    settings: SettingsView { trigger_action_enabled: enabled, ..s@.settings },
                    ..s@
                })
            },
            None => r == Err::<(), StoreError>(StoreError::NotInitialized) && *final(store) is None,
        },
{
    match store {
        Some(s) => {
            s.set_trigger_action_master_switch(enabled);
            Ok(())
        },
        None => Err(StoreError::NotInitialized),
    }
}

/// Sets up the store with the settings that were loaded; this can be done
/// once.
pub fn init_settings_store(slot: &mut Option<SettingsStore>, settings: Settings) -> (r: Result<
    (),
    StoreError,
>)
    ensures
        match *old(slot) {
            Some(_) => r == Err::<(), StoreError>(StoreError::AlreadyInitialized) && *final(slot)
                == *old(slot),
            None => {
                &&& r is Ok
                &&& *final(slot) matches Some(store)
                &&& store@ == (StoreView {
                    settings: settings@,
                    skip_frequency_mode_persist: false,
                    hooks: Seq::empty(),
                })
            },
        },
{
    if slot.is_some() {
        return Err(StoreError::AlreadyInitialized);
    }
    *slot = Some(SettingsStore::new(settings));
    Ok(())
}

/// The live settings; the defaults while no store exists.
pub fn get_settings(store: Option<&SettingsStore>) -> (r: Settings)
    ensures
        r@ == match store {
            Some(s) => s@.settings,
            None => crate::settings::default_settings(),
        },
{
    match store {
        Some(s) => s.get_settings(),
        None => Settings::default(),
    }
}

/// Replaces the live settings as a whole, where a store exists.
pub fn update_settings(slot: &mut Option<SettingsStore>, new_settings: Settings) -> (r: Result<
    (),
    StoreError,
>)
    ensures
        match *old(slot) {
            Some(s) => {
                &&& r is Ok
                &&& *final(slot) matches Some(t)
                &&& t@ == (StoreView { settings: new_settings@, ..s@ })
            },
            None => r == Err::<(), StoreError>(StoreError::NotInitialized) && *final(slot) is None,
        },
{
    match slot {
        Some(s) => {
            s.update_settings(new_settings);
            Ok(())
        },
        None => Err(StoreError::NotInitialized),
    }
}

/// Offers `value` for the setting called `key` and hands back the handles of
/// the hooks to call, as `SettingsStore::validate_and_update_setting` does,
/// where a store exists.
pub fn update_setting(slot: &mut Option<SettingsStore>, key: &str, value: &SettingValue) -> (r:
    Result<Vec<u64>, UpdateSettingError>)
    ensures
        match *old(slot) {
            None => {
                &&& r matches Err(e)
                &&& e == UpdateSettingError::NotInitialized
                &&& *final(slot) is None
            },
            Some(s) => match settings_with_named(s@.settings, key@, value@) {
                Ok(after) => {
                    &&& r matches Ok(handles)
                    &&& handles@ == handles_for(s@.hooks, key@)
                    &&& *final(slot) matches Some(t)
                    &&& t@ == (StoreView { settings: after, ..s@ })
                },
                Err(refusal) => {
                    &&& r matches Err(e)
                    &&& e == UpdateSettingError::Refused(refusal)
                    &&& *final(slot) matches Some(t)
                    &&& t@ == s@
                },
            },
        },
{
    match slot {
        Some(s) => match s.validate_and_update_setting(key, value) {
            Ok(handles) => Ok(handles),
            Err(e) => Err(UpdateSettingError::Refused(e)),
        },
        None => Err(UpdateSettingError::NotInitialized),
    }
}

/// Reads the setting called `key`, where a store exists.
pub fn get_setting(store: Option<&SettingsStore>, key: &str) -> (r: Result<
    SettingValue,
    UpdateSettingError,
>)
    ensures
        match store {
            None => r matches Err(e) && e == UpdateSettingError::NotInitialized,
            Some(s) => match key_named(key@) {
                Some(k) => r matches Ok(v) && v@ == setting_value(s@.settings, k),
                None => r matches Err(e) && e == UpdateSettingError::Refused(
                    SettingError::UnknownKey,
                ),
            },
        },
{
    match store {
        Some(s) => match s.get_setting(key) {
            Ok(v) => Ok(v),
            Err(e) => Err(UpdateSettingError::Refused(e)),
        },
        None => Err(UpdateSettingError::NotInitialized),
    }
}

/// Says whether the sampling mode is to be left out when the settings are
/// persisted, where a store exists.
pub fn set_skip_frequency_mode_persist(slot: &mut Option<SettingsStore>, skip: bool) -> (r: Result<
    (),
    StoreError,
>)
    ensures
        match *old(slot) {
            Some(s) => {
                &&& r is Ok
                &&& *final(slot) matches Some(t)
                &&& t@ == (StoreView { skip_frequency_mode_persist: skip, ..s@ })
            },
            None => r == Err::<(), StoreError>(StoreError::NotInitialized) && *final(slot) is None,
        },
{
    match slot {
        Some(s) => {
            s.set_skip_frequency_mode_persist(skip);
            Ok(())
        },
        None => Err(StoreError::NotInitialized),
    }
}

/// Registers a hook for the changes of the setting called `key`, where a
/// store exists.
pub fn add_setting_hook(slot: &mut Option<SettingsStore>, key: &str, handle: u64) -> (r: Result<
    (),
    StoreError,
>)
    ensures
        match *old(slot) {
            Some(s) => {
                &&& r is Ok
                &&& *final(slot) matches Some(t)
                &&& t@ == (StoreView {
                    hooks: s@.hooks.push(HookView { key: key@, handle: handle }),
                    ..s@
                })
            },
            None => r == Err::<(), StoreError>(StoreError::NotInitialized) && *final(slot) is None,
        },
{
    match slot {
        Some(s) => {
            s.add_setting_hook(key, handle);
            Ok(())
        },
        None => Err(StoreError::NotInitialized),
    }
}

/// The hooks for a setting are handed back in the order in which they were
/// registered: a hook registered last comes last, and a hook registered for
/// another setting is not handed back.
pub proof fn lemma_hooks_in_order(hooks: Seq<HookView>, added: HookView, key: Seq<char>)
    ensures
        added.key == key ==> handles_for(hooks.push(added), key) == handles_for(hooks, key).push(
            added.handle,
        ),
        added.key != key ==> handles_for(hooks.push(added), key) == handles_for(hooks, key),
{
    assert(hooks.push(added).drop_last() =~= hooks);
}

} // verus!
