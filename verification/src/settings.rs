//! The settings of the engine, the values that a caller may offer for them,
//! and the rules by which a value is taken or refused.

use crate::text::str_eq;
use vstd::prelude::*;

verus! {

/// The two ways of measuring the clock. The stored form is the text "1" for
/// the per-core reading of the system and "2" for the calibrated aggregate.
#[derive(Clone, Copy, Debug, PartialEq, Eq, Structural)]
pub enum FrequencyMode {
    /// The primary method: one reading per logical core.
    SysInfo,
    /// The fallback method: one aggregate reading.
    CalcMhz,
}

/// The mode that a stored text selects: "1" is the primary method, any other
/// text the fallback.
pub open spec fn mode_of(code: Seq<char>) -> FrequencyMode {
    if code == "1"@ {
        FrequencyMode::SysInfo
    } else {
        FrequencyMode::CalcMhz
    }
}

impl FrequencyMode {
    /// The stored text of the mode.
    pub open spec fn code(self) -> Seq<char> {
        match self {
            FrequencyMode::SysInfo => "1"@,
            FrequencyMode::CalcMhz => "2"@,
        }
    }

    /// The stored text of the mode.
    pub fn as_code(&self) -> (r: &'static str)
        ensures
            r@ == self.code(),
    {
        match self {
            FrequencyMode::SysInfo => "1",
            FrequencyMode::CalcMhz => "2",
        }
    }

    /// The mode that a stored text selects.
    pub fn from_code(code: &str) -> (r: FrequencyMode)
        ensures
            r == mode_of(code@),
    {
        if str_eq(code, "1") {
            FrequencyMode::SysInfo
        } else {
            FrequencyMode::CalcMhz
        }
    }
}

impl Default for FrequencyMode {
    fn default() -> (r: Self)
        ensures
            r == FrequencyMode::SysInfo,
    {
        FrequencyMode::SysInfo
    }
}

/// Reading a mode's stored text gives the mode back.
pub proof fn lemma_mode_code_round_trip(mode: FrequencyMode)
    ensures
        mode_of(mode.code()) == mode,
{
    reveal_strlit("1");
    reveal_strlit("2");
    if mode == FrequencyMode::CalcMhz {
        assert("2"@[0] != "1"@[0]);
    }
}

/// Everything the user can configure. The alert threshold is held in MHz,
/// the unit of the readings it is compared with.
#[derive(Debug)]
pub struct Settings {
    pub auto_start: bool,
    pub auto_minimize: bool,
    /// Milliseconds between two samples.
    pub refresh_interval: u64,
    /// A core is in breach when its reading is above this many MHz.
    pub frequency_threshold_mhz: i64,
    /// The stored text of the sampling mode.
    pub frequency_mode: String,
    /// Whether the stagnation detector runs.
    pub auto_switch_enabled: bool,
    /// The run length at which the stagnation detector falls back.
    pub auto_switch_threshold: u64,
    /// The master switch of the trigger actions.
    pub trigger_action_enabled: bool,
    /// Whether the engine samples at all.
    pub frequency_detection_enabled: bool,
    /// Seconds that must lie between two alerts.
    pub alert_debounce_seconds: u64,
    pub accepted_terms_of_service: u64,
}

/// The settings as specifications see them.
pub struct SettingsView {
    pub auto_start: bool,
    pub auto_minimize: bool,
    pub refresh_interval: u64,
    pub frequency_threshold_mhz: i64,
    pub frequency_mode: Seq<char>,
    pub auto_switch_enabled: bool,
    pub auto_switch_threshold: u64,
    pub trigger_action_enabled: bool,
    pub frequency_detection_enabled: bool,
    pub alert_debounce_seconds: u64,
    pub accepted_terms_of_service: u64,
}

impl View for Settings {
    type V = SettingsView;

    open spec fn view(&self) -> SettingsView {
        SettingsView {
            auto_start: self.auto_start,
            auto_minimize: self.auto_minimize,
            refresh_interval: self.refresh_interval,
            frequency_threshold_mhz: self.frequency_threshold_mhz,
            frequency_mode: self.frequency_mode@,
            auto_switch_enabled: self.auto_switch_enabled,
            auto_switch_threshold: self.auto_switch_threshold,
            trigger_action_enabled: self.trigger_action_enabled,
            frequency_detection_enabled: self.frequency_detection_enabled,
            alert_debounce_seconds: self.alert_debounce_seconds,
            accepted_terms_of_service: self.accepted_terms_of_service,
        }
    }
}

/// The settings of a fresh installation.
pub open spec fn default_settings() -> SettingsView {
    SettingsView {
        auto_start: false,
        auto_minimize: false,
        refresh_interval: 5000,
        frequency_threshold_mhz: 2900,
        frequency_mode: "1"@,
        auto_switch_enabled: false,
        auto_switch_threshold: 15,
        trigger_action_enabled: false,
        frequency_detection_enabled: false,
        alert_debounce_seconds: 10,
        accepted_terms_of_service: 0,
    }
}

impl Default for Settings {
    fn default() -> (r: Self)
        ensures
            r@ == default_settings(),
    {
        Settings {
            auto_start: false,
            auto_minimize: false,
            refresh_interval: 5000,
            frequency_threshold_mhz: 2900,
            frequency_mode: "1".to_owned(),
            auto_switch_enabled: false,
            auto_switch_threshold: 15,
            trigger_action_enabled: false,
            frequency_detection_enabled: false,
            alert_debounce_seconds: 10,
            accepted_terms_of_service: 0,
        }
    }
}

/// A value offered for a setting, or read from one.
#[derive(Debug)]
pub enum SettingValue {
    Bool(bool),
    /// A number that is a whole number and not negative.
    Unsigned(u64),
    /// Any other number, given in thousandths.
    Decimal(i64),
    Text(String),
    /// Anything else: nothing, a list, a record.
    Other,
}

/// A value as specifications see it.
pub enum ValueView {
    Bool(bool),
    Unsigned(u64),
    Decimal(i64),
    Text(Seq<char>),
    Other,
}

impl View for SettingValue {
    type V = ValueView;

    open spec fn view(&self) -> ValueView {
        match self {
            SettingValue::Bool(b) => ValueView::Bool(*b),
            SettingValue::Unsigned(n) => ValueView::Unsigned(*n),
            SettingValue::Decimal(m) => ValueView::Decimal(*m),
            SettingValue::Text(t) => ValueView::Text(t@),
            SettingValue::Other => ValueView::Other,
        }
    }
}

impl ValueView {
    /// The value as a truth value, where it is one.
    pub open spec fn as_bool(self) -> Option<bool> {
        match self {
            ValueView::Bool(b) => Some(b),
            _ => None,
        }
    }

    /// The value as an unsigned whole number, where it is one.
    pub open spec fn as_unsigned(self) -> Option<u64> {
        match self {
            ValueView::Unsigned(n) => Some(n),
            _ => None,
        }
    }

    /// The value as a text, where it is one.
    pub open spec fn as_text(self) -> Option<Seq<char>> {
        match self {
            ValueView::Text(t) => Some(t),
            _ => None,
        }
    }

    /// The value as a threshold in MHz, where it is a number. A number is
    /// read as GHz; one too large to hold counts as the largest threshold.
    pub open spec fn as_threshold_mhz(self) -> Option<i64> {
        match self {
            ValueView::Unsigned(n) => Some(
                if n * 1000 <= i64::MAX {
                    (n * 1000) as i64
                } else {
                    i64::MAX
                },
            ),
            ValueView::Decimal(m) => Some(m),
            _ => None,
        }
    }
}

impl SettingValue {
    /// The value as a truth value, where it is one.
    pub fn as_bool(&self) -> (r: Option<bool>)
        ensures
            r == self@.as_bool(),
    {
        match self {
            SettingValue::Bool(b) => Some(*b),
            _ => None,
        }
    }

    /// The value as an unsigned whole number, where it is one.
    pub fn as_u64(&self) -> (r: Option<u64>)
        ensures
            r == self@.as_unsigned(),
    {
        match self {
            SettingValue::Unsigned(n) => Some(*n),
            _ => None,
        }
    }

    /// The value as a text, where it is one.
    pub fn as_str(&self) -> (r: Option<&str>)
        ensures
            match r {
                Some(t) => self@.as_text() == Some(t@),
                None => self@.as_text() is None,
            },
    {
        match self {
            SettingValue::Text(t) => Some(t.as_str()),
            _ => None,
        }
    }

    /// The value as a threshold in MHz, where it is a number.
    pub fn as_threshold_mhz(&self) -> (r: Option<i64>)
        ensures
            r == self@.as_threshold_mhz(),
    {
        match self {
            SettingValue::Unsigned(n) => {
                if *n <= 9_223_372_036_854_775u64 {
                    Some((*n * 1000) as i64)
                } else {
                    Some(i64::MAX)
                }
            },
            SettingValue::Decimal(m) => Some(*m),
            _ => None,
        }
    }

    /// A copy of the value.
    pub fn copy(&self) -> (r: Self)
        ensures
            r@ == self@,
    {
        match self {
            SettingValue::Bool(b) => SettingValue::Bool(*b),
            SettingValue::Unsigned(n) => SettingValue::Unsigned(*n),
            SettingValue::Decimal(m) => SettingValue::Decimal(*m),
            SettingValue::Text(t) => SettingValue::Text(t.clone()),
            SettingValue::Other => SettingValue::Other,
        }
    }
}

/// The settings that can be written and read one by one.
#[derive(Clone, Copy, Debug, PartialEq, Eq, Structural)]
pub enum SettingKey {
    AutoStart,
    AutoMinimize,
    RefreshInterval,
    FrequencyThreshold,
    FrequencyMode,
    AutoSwitchEnabled,
    AutoSwitchThreshold,
    TriggerActionEnabled,
    FrequencyDetectionEnabled,
    AlertDebounceSeconds,
}

/// The setting that a name stands for.
pub open spec fn key_named(name: Seq<char>) -> Option<SettingKey> {
    if name == "auto_start"@ {
        Some(SettingKey::AutoStart)
    } else if name == "auto_minimize"@ {
        Some(SettingKey::AutoMinimize)
    } else if name == "refresh_interval"@ {
        Some(SettingKey::RefreshInterval)
    } else if name == "frequency_threshold"@ {
        Some(SettingKey::FrequencyThreshold)
    } else if name == "frequency_mode"@ {
        Some(SettingKey::FrequencyMode)
    } else if name == "auto_switch_enabled"@ {
        Some(SettingKey::AutoSwitchEnabled)
    } else if name == "auto_switch_threshold"@ {
        Some(SettingKey::AutoSwitchThreshold)
    } else if name == "trigger_action_enabled"@ {
        Some(SettingKey::TriggerActionEnabled)
    } else if name == "frequency_detection_enabled"@ {
        Some(SettingKey::FrequencyDetectionEnabled)
    } else if name == "alert_debounce_seconds"@ {
        Some(SettingKey::AlertDebounceSeconds)
    } else {
        None
    }
}

impl SettingKey {
    /// The name under which the setting is written and read.
    pub open spec fn spec_name(self) -> Seq<char> {
        match self {
            SettingKey::AutoStart => "auto_start"@,
            SettingKey::AutoMinimize => "auto_minimize"@,
            SettingKey::RefreshInterval => "refresh_interval"@,
            SettingKey::FrequencyThreshold => "frequency_threshold"@,
            SettingKey::FrequencyMode => "frequency_mode"@,
            SettingKey::AutoSwitchEnabled => "auto_switch_enabled"@,
            SettingKey::AutoSwitchThreshold => "auto_switch_threshold"@,
            SettingKey::TriggerActionEnabled => "trigger_action_enabled"@,
            SettingKey::FrequencyDetectionEnabled => "frequency_detection_enabled"@,
            SettingKey::AlertDebounceSeconds => "alert_debounce_seconds"@,
        }
    }

    /// The name under which the setting is written and read.
    pub fn name(&self) -> (r: &'static str)
        ensures
            r@ == self.spec_name(),
    {
        match self {
            SettingKey::AutoStart => "auto_start",
            SettingKey::AutoMinimize => "auto_minimize",
            SettingKey::RefreshInterval => "refresh_interval",
            SettingKey::FrequencyThreshold => "frequency_threshold",
            SettingKey::FrequencyMode => "frequency_mode",
            SettingKey::AutoSwitchEnabled => "auto_switch_enabled",
            SettingKey::AutoSwitchThreshold => "auto_switch_threshold",
            SettingKey::TriggerActionEnabled => "trigger_action_enabled",
            SettingKey::FrequencyDetectionEnabled => "frequency_detection_enabled",
            SettingKey::AlertDebounceSeconds => "alert_debounce_seconds",
        }
    }

    /// The setting that `name` stands for, if it is the name of one.
    pub fn parse(name: &str) -> (r: Option<SettingKey>)
        ensures
            r == key_named(name@),
    {
        if str_eq(name, "auto_start") {
            Some(SettingKey::AutoStart)
        } else if str_eq(name, "auto_minimize") {
            Some(SettingKey::AutoMinimize)
        } else if str_eq(name, "refresh_interval") {
            Some(SettingKey::RefreshInterval)
        } else if str_eq(name, "frequency_threshold") {
            Some(SettingKey::FrequencyThreshold)
        } else if str_eq(name, "frequency_mode") {
            Some(SettingKey::FrequencyMode)
        } else if str_eq(name, "auto_switch_enabled") {
            Some(SettingKey::AutoSwitchEnabled)
        } else if str_eq(name, "auto_switch_threshold") {
            Some(SettingKey::AutoSwitchThreshold)
        } else if str_eq(name, "trigger_action_enabled") {
            Some(SettingKey::TriggerActionEnabled)
        } else if str_eq(name, "frequency_detection_enabled") {
            Some(SettingKey::FrequencyDetectionEnabled)
        } else if str_eq(name, "alert_debounce_seconds") {
            Some(SettingKey::AlertDebounceSeconds)
        } else {
            None
        }
    }
}

/// Every setting is found under its own name.
pub proof fn lemma_key_name_round_trip(key: SettingKey)
    ensures
        key_named(key.spec_name()) == Some(key),
{
    reveal_strlit("auto_start");
    reveal_strlit("auto_minimize");
    reveal_strlit("refresh_interval");
    reveal_strlit("frequency_threshold");
    reveal_strlit("frequency_mode");
    reveal_strlit("auto_switch_enabled");
    reveal_strlit("auto_switch_threshold");
    reveal_strlit("trigger_action_enabled");
    reveal_strlit("frequency_detection_enabled");
    reveal_strlit("alert_debounce_seconds");
    assert("auto_minimize"@.len() == 13);
    assert("refresh_interval"@.len() == 16);
    assert("frequency_threshold"@.len() == 19 && "frequency_threshold"@[0] == 'f');
    assert("frequency_mode"@.len() == 14);
    assert("auto_switch_enabled"@.len() == 19 && "auto_switch_enabled"@[0] == 'a');
    assert("auto_switch_threshold"@.len() == 21);
    assert("trigger_action_enabled"@.len() == 22 && "trigger_action_enabled"@[0] == 't');
    assert("frequency_detection_enabled"@.len() == 27);
    assert("alert_debounce_seconds"@.len() == 22 && "alert_debounce_seconds"@[0] == 'a');
}

/// Why a value was not taken for a setting.
#[derive(Clone, Copy, Debug, PartialEq, Eq, Structural)]
pub enum SettingError {
    /// No setting has the name.
    UnknownKey,
    /// The value is not of the kind that the setting holds.
    InvalidType,
    /// The stagnation run length must be at least five.
    AutoSwitchThresholdTooSmall,
    /// The debounce window must be longer than zero seconds.
    DebounceNotPositive,
}

/// The smallest stagnation run length that is taken.
pub const MIN_AUTO_SWITCH_THRESHOLD: u64 = 5;

/// The settings after `value` was offered for `key`, or the reason why it
/// was refused.
pub open spec fn settings_with(settings: SettingsView, key: SettingKey, value: ValueView) -> Result<
    SettingsView,
    SettingError,
> {
    match key {
        SettingKey::AutoStart => match value.as_bool() {
            Some(b) => Ok(SettingsView { auto_start: b, ..settings }),
            None => Err(SettingError::InvalidType),
        },
        SettingKey::AutoMinimize => match value.as_bool() {
            Some(b) => Ok(SettingsView { auto_minimize: b, ..settings }),
            None => Err(SettingError::InvalidType),
        },
        SettingKey::RefreshInterval => match value.as_unsigned() {
            Some(n) => Ok(SettingsView { refresh_interval: n, ..settings }),
            None => Err(SettingError::InvalidType),
        },
        SettingKey::FrequencyThreshold => match value.as_threshold_mhz() {
            Some(m) => Ok(SettingsView { frequency_threshold_mhz: m, ..settings }),
            None => Err(SettingError::InvalidType),
        },
        SettingKey::FrequencyMode => match value.as_text() {
            Some(t) => Ok(SettingsView { frequency_mode: t, ..settings }),
            None => Err(SettingError::InvalidType),
        },
        SettingKey::AutoSwitchEnabled => match value.as_bool() {
            Some(b) => Ok(SettingsView { auto_switch_enabled: b, ..settings }),
            None => Err(SettingError::InvalidType),
        },
        SettingKey::AutoSwitchThreshold => match value.as_unsigned() {
            Some(n) if n >= MIN_AUTO_SWITCH_THRESHOLD => Ok(
                SettingsView { auto_switch_threshold: n, ..settings },
            ),
            _ => Err(SettingError::AutoSwitchThresholdTooSmall),
        },
        SettingKey::TriggerActionEnabled => match value.as_bool() {
            Some(b) => Ok(SettingsView { trigger_action_enabled: b, ..settings }),
            None => Err(SettingError::InvalidType),
        },
        SettingKey::FrequencyDetectionEnabled => match value.as_bool() {
            Some(b) => Ok(SettingsView { frequency_detection_enabled: b, ..settings }),
            None => Err(SettingError::InvalidType),
        },
        SettingKey::AlertDebounceSeconds => match value.as_unsigned() {
            Some(n) if n > 0 => Ok(SettingsView { alert_debounce_seconds: n, ..settings }),
            _ => Err(SettingError::DebounceNotPositive),
        },
    }
}

/// The settings after `value` was offered under `name`.
pub open spec fn settings_with_named(
    settings: SettingsView,
    name: Seq<char>,
    value: ValueView,
) -> Result<SettingsView, SettingError> {
    match key_named(name) {
        Some(key) => settings_with(settings, key, value),
        None => Err(SettingError::UnknownKey),
    }
}

/// The value that a setting holds.
pub open spec fn setting_value(settings: SettingsView, key: SettingKey) -> ValueView {
    match key {
        SettingKey::AutoStart => ValueView::Bool(settings.auto_start),
        SettingKey::AutoMinimize => ValueView::Bool(settings.auto_minimize),
        SettingKey::RefreshInterval => ValueView::Unsigned(settings.refresh_interval),
        SettingKey::FrequencyThreshold => ValueView::Decimal(settings.frequency_threshold_mhz),
        SettingKey::FrequencyMode => ValueView::Text(settings.frequency_mode),
        SettingKey::AutoSwitchEnabled => ValueView::Bool(settings.auto_switch_enabled),
        SettingKey::AutoSwitchThreshold => ValueView::Unsigned(settings.auto_switch_threshold),
        SettingKey::TriggerActionEnabled => ValueView::Bool(settings.trigger_action_enabled),
        SettingKey::FrequencyDetectionEnabled => ValueView::Bool(
            settings.frequency_detection_enabled,
        ),
        SettingKey::AlertDebounceSeconds => ValueView::Unsigned(settings.alert_debounce_seconds),
    }
}

impl Settings {
    /// A copy of the settings.
    pub fn copy(&self) -> (r: Self)
        ensures
            r@ == self@,
    {
        Settings {
            auto_start: self.auto_start,
            auto_minimize: self.auto_minimize,
            refresh_interval: self.refresh_interval,
            frequency_threshold_mhz: self.frequency_threshold_mhz,
            frequency_mode: self.frequency_mode.clone(),
            auto_switch_enabled: self.auto_switch_enabled,
            auto_switch_threshold: self.auto_switch_threshold,
            trigger_action_enabled: self.trigger_action_enabled,
            frequency_detection_enabled: self.frequency_detection_enabled,
            alert_debounce_seconds: self.alert_debounce_seconds,
            accepted_terms_of_service: self.accepted_terms_of_service,
        }
    }

    /// Offers `value` for the setting `key`. A value that is refused leaves
    /// the settings as they were.
    pub fn set(&mut self, key: SettingKey, value: &SettingValue) -> (r: Result<(), SettingError>)
        ensures
            match settings_with(old(self)@, key, value@) {
                Ok(after) => r is Ok && final(self)@ == after,
                Err(e) => r == Err::<(), SettingError>(e) && *final(self) == *old(self),
            },
    {
        match key {
            SettingKey::AutoStart => match value.as_bool() {
                Some(b) => {
                    self.auto_start = b;
                    Ok(())
                },
                None => Err(SettingError::InvalidType),
            },
            SettingKey::AutoMinimize => match value.as_bool() {
                Some(b) => {
                    self.auto_minimize = b;
                    Ok(())
                },
                None => Err(SettingError::InvalidType),
            },
            SettingKey::RefreshInterval => match value.as_u64() {
                Some(n) => {
                    self.refresh_interval = n;
                    Ok(())
                },
                None => Err(SettingError::InvalidType),
            },
            SettingKey::FrequencyThreshold => match value.as_threshold_mhz() {
                Some(m) => {
                    self.frequency_threshold_mhz = m;
                    Ok(())
                },
                None => Err(SettingError::InvalidType),
            },
            SettingKey::FrequencyMode => match value.as_str() {
                Some(t) => {
                    self.frequency_mode = t.to_owned();
                    Ok(())
                },
                None => Err(SettingError::InvalidType),
            },
            SettingKey::AutoSwitchEnabled => match value.as_bool() {
                Some(b) => {
                    self.auto_switch_enabled = b;
                    Ok(())
                },
                None => Err(SettingError::InvalidType),
            },
            SettingKey::AutoSwitchThreshold => match value.as_u64() {
                Some(n) => {
                    if n >= MIN_AUTO_SWITCH_THRESHOLD {
                        self.auto_switch_threshold = n;
                        Ok(())
                    } else {
                        Err(SettingError::AutoSwitchThresholdTooSmall)
                    }
                },
                None => Err(SettingError::AutoSwitchThresholdTooSmall),
            },
            SettingKey::TriggerActionEnabled => match value.as_bool() {
                Some(b) => {
                    self.trigger_action_enabled = b;
                    Ok(())
                },
                None => Err(SettingError::InvalidType),
            },
            SettingKey::FrequencyDetectionEnabled => match value.as_bool() {
                Some(b) => {
                    self.frequency_detection_enabled = b;
                    Ok(())
                },
                None => Err(SettingError::InvalidType),
            },
            SettingKey::AlertDebounceSeconds => match value.as_u64() {
                Some(n) => {
                    if n > 0 {
                        self.alert_debounce_seconds = n;
                        Ok(())
                    } else {
                        Err(SettingError::DebounceNotPositive)
                    }
                },
                None => Err(SettingError::DebounceNotPositive),
            },
        }
    }

    /// Offers `value` for the setting called `name`.
    pub fn set_setting(&mut self, name: &str, value: &SettingValue) -> (r: Result<
        (),
        SettingError,
    >)
        ensures
            match settings_with_named(old(self)@, name@, value@) {
                Ok(after) => r is Ok && final(self)@ == after,
                Err(e) => r == Err::<(), SettingError>(e) && *final(self) == *old(self),
            },
    {
        match SettingKey::parse(name) {
            Some(key) => self.set(key, value),
            None => Err(SettingError::UnknownKey),
        }
    }

    /// Reads the setting `key`.
    pub fn get(&self, key: SettingKey) -> (r: SettingValue)
        ensures
            r@ == setting_value(self@, key),
    {
        match key {
            SettingKey::AutoStart => SettingValue::Bool(self.auto_start),
            SettingKey::AutoMinimize => SettingValue::Bool(self.auto_minimize),
            SettingKey::RefreshInterval => SettingValue::Unsigned(self.refresh_interval),
            SettingKey::FrequencyThreshold => SettingValue::Decimal(self.frequency_threshold_mhz),
            SettingKey::FrequencyMode => SettingValue::Text(self.frequency_mode.clone()),
            SettingKey::AutoSwitchEnabled => SettingValue::Bool(self.auto_switch_enabled),
            SettingKey::AutoSwitchThreshold => SettingValue::Unsigned(self.auto_switch_threshold),
            SettingKey::TriggerActionEnabled => SettingValue::Bool(self.trigger_action_enabled),
            SettingKey::FrequencyDetectionEnabled => SettingValue::Bool(
                self.frequency_detection_enabled,
            ),
            SettingKey::AlertDebounceSeconds => SettingValue::Unsigned(
                self.alert_debounce_seconds,
            ),
        }
    }

    /// Reads the setting called `name`.
    pub fn get_setting(&self, name: &str) -> (r: Result<SettingValue, SettingError>)
        ensures
            match key_named(name@) {
                Some(key) => r matches Ok(v) && v@ == setting_value(self@, key),
                None => r matches Err(e) && e == SettingError::UnknownKey,
            },
    {
        match SettingKey::parse(name) {
            Some(key) => Ok(self.get(key)),
            None => Err(SettingError::UnknownKey),
        }
    }
}

/// The settings as they were found in storage: each field with the value
/// that was stored for it, if any.
#[derive(Debug)]
pub struct StoredSettings {
    pub auto_start: Option<SettingValue>,
    pub auto_minimize: Option<SettingValue>,
    pub refresh_interval: Option<SettingValue>,
    pub frequency_threshold: Option<SettingValue>,
    pub frequency_mode: Option<SettingValue>,
    pub auto_switch_enabled: Option<SettingValue>,
    pub auto_switch_threshold: Option<SettingValue>,
    pub trigger_action_enabled: Option<SettingValue>,
    pub frequency_detection_enabled: Option<SettingValue>,
    pub alert_debounce_seconds: Option<SettingValue>,
    pub accepted_terms_of_service: Option<SettingValue>,
}

/// The stored truth value, or `fallback` where none is stored or what is
/// stored is no truth value.
pub open spec fn stored_bool(stored: Option<SettingValue>, fallback: bool) -> bool {
    match stored {
        Some(v) => match v@.as_bool() {
            Some(b) => b,
            None => fallback,
        },
        None => fallback,
    }
}

/// The stored unsigned number, or `fallback` where none is stored or what
/// is stored is no unsigned number.
pub open spec fn stored_unsigned(stored: Option<SettingValue>, fallback: u64) -> u64 {
    match stored {
        Some(v) => match v@.as_unsigned() {
            Some(n) => n,
            None => fallback,
        },
        None => fallback,
    }
}

/// The stored threshold in MHz, or `fallback` where none is stored or what
/// is stored is no number.
pub open spec fn stored_threshold(stored: Option<SettingValue>, fallback: i64) -> i64 {
    match stored {
        Some(v) => match v@.as_threshold_mhz() {
            Some(m) => m,
            None => fallback,
        },
        None => fallback,
    }
}

/// The stored text, or `fallback` where none is stored or what is stored is
/// no text.
pub open spec fn stored_text(stored: Option<SettingValue>, fallback: Seq<char>) -> Seq<char> {
    match stored {
        Some(v) => match v@.as_text() {
            Some(t) => t,
            None => fallback,
        },
        None => fallback,
    }
}

/// The settings that stored values stand for: every field that is missing or
/// holds a value of the wrong kind takes its default.
pub open spec fn repaired_settings(stored: StoredSettings) -> SettingsView {
    let d = default_settings();
    SettingsView {
        auto_start: stored_bool(stored.auto_start, d.auto_start),
        auto_minimize: stored_bool(stored.auto_minimize, d.auto_minimize),
        refresh_interval: stored_unsigned(stored.refresh_interval, d.refresh_interval),
        frequency_threshold_mhz: stored_threshold(
            stored.frequency_threshold,
            d.frequency_threshold_mhz,
        ),
        frequency_mode: stored_text(stored.frequency_mode, d.frequency_mode),
        auto_switch_enabled: stored_bool(stored.auto_switch_enabled, d.auto_switch_enabled),
        auto_switch_threshold: stored_unsigned(
            stored.auto_switch_threshold,
            d.auto_switch_threshold,
        ),
        trigger_action_enabled: stored_bool(
            stored.trigger_action_enabled,
            d.trigger_action_enabled,
        ),
        frequency_detection_enabled: stored_bool(
            stored.frequency_detection_enabled,
            d.frequency_detection_enabled,
        ),
        alert_debounce_seconds: stored_unsigned(
            stored.alert_debounce_seconds,
            d.alert_debounce_seconds,
        ),
        accepted_terms_of_service: stored_unsigned(
            stored.accepted_terms_of_service,
            d.accepted_terms_of_service,
        ),
    }
}

/// The stored truth value, or `fallback`.
pub fn bool_or(stored: &Option<SettingValue>, fallback: bool) -> (r: bool)
    ensures
        r == stored_bool(*stored, fallback),
{
    match stored {
        Some(v) => match v.as_bool() {
            Some(b) => b,
            None => fallback,
        },
        None => fallback,
    }
}

/// The stored unsigned number, or `fallback`.
pub fn unsigned_or(stored: &Option<SettingValue>, fallback: u64) -> (r: u64)
    ensures
        r == stored_unsigned(*stored, fallback),
{
    match stored {
        Some(v) => match v.as_u64() {
            Some(n) => n,
            None => fallback,
        },
        None => fallback,
    }
}

/// The stored threshold in MHz, or `fallback`.
pub fn threshold_or(stored: &Option<SettingValue>, fallback: i64) -> (r: i64)
    ensures
        r == stored_threshold(*stored, fallback),
{
    match stored {
        Some(v) => match v.as_threshold_mhz() {
            Some(m) => m,
            None => fallback,
        },
        None => fallback,
    }
}

/// The stored text, or `fallback`.
pub fn text_or(stored: &Option<SettingValue>, fallback: &str) -> (r: String)
    ensures
        r@ == stored_text(*stored, fallback@),
{
    match stored {
        Some(v) => match v.as_str() {
            Some(t) => t.to_owned(),
            None => fallback.to_owned(),
        },
        None => fallback.to_owned(),
    }
}

impl StoredSettings {
    /// Storage that holds nothing: no field has a value, so that the
    /// settings it stands for are the defaults.
    pub fn empty() -> (r: Self)
        ensures
            r.auto_start is None,
            r.auto_minimize is None,
            r.refresh_interval is None,
            r.frequency_threshold is None,
            r.frequency_mode is None,
            r.auto_switch_enabled is None,
            r.auto_switch_threshold is None,
            r.trigger_action_enabled is None,
            r.frequency_detection_enabled is None,
            r.alert_debounce_seconds is None,
            r.accepted_terms_of_service is None,
            repaired_settings(r) == default_settings(),
    {
        StoredSettings {
            auto_start: None,
            auto_minimize: None,
            refresh_interval: None,
            frequency_threshold: None,
            frequency_mode: None,
            auto_switch_enabled: None,
            auto_switch_threshold: None,
            trigger_action_enabled: None,
            frequency_detection_enabled: None,
            alert_debounce_seconds: None,
            accepted_terms_of_service: None,
        }
    }
}

impl Settings {
    /// The settings that stored values stand for, with defaults in the place
    /// of what is missing or of the wrong kind.
    pub fn from_stored(stored: &StoredSettings) -> (r: Settings)
        ensures
            r@ == repaired_settings(*stored),
    {
        let d = Settings::default();
        Settings {
            auto_start: bool_or(&stored.auto_start, d.auto_start),
            auto_minimize: bool_or(&stored.auto_minimize, d.auto_minimize),
            refresh_interval: unsigned_or(&stored.refresh_interval, d.refresh_interval),
            frequency_threshold_mhz: threshold_or(
                &stored.frequency_threshold,
                d.frequency_threshold_mhz,
            ),
            frequency_mode: text_or(&stored.frequency_mode, d.frequency_mode.as_str()),
            auto_switch_enabled: bool_or(&stored.auto_switch_enabled, d.auto_switch_enabled),
            auto_switch_threshold: unsigned_or(
                &stored.auto_switch_threshold,
                d.auto_switch_threshold,
            ),
            trigger_action_enabled: bool_or(
                &stored.trigger_action_enabled,
                d.trigger_action_enabled,
            ),
            frequency_detection_enabled: bool_or(
                &stored.frequency_detection_enabled,
                d.frequency_detection_enabled,
            ),
            alert_debounce_seconds: unsigned_or(
                &stored.alert_debounce_seconds,
                d.alert_debounce_seconds,
            ),
            accepted_terms_of_service: unsigned_or(
                &stored.accepted_terms_of_service,
                d.accepted_terms_of_service,
            ),
        }
    }

    /// The settings to write to storage. While the sampling mode is not to
    /// be persisted, the mode that storage holds is written back in place of
    /// the live one.
    pub fn for_storage(&self, skip_frequency_mode: bool, stored_mode: &str) -> (r: Settings)
        ensures
            r@ == (if skip_frequency_mode {
                SettingsView { frequency_mode: stored_mode@, ..self@ }
            } else {
                self@
            }),
    {
        let mut r = self.copy();
        if skip_frequency_mode {
            r.frequency_mode = stored_mode.to_owned();
        }
        r
    }
}

/// A setting that took a value holds it afterwards, and no other setting has
/// changed what it holds.
pub proof fn lemma_set_then_get(
    settings: SettingsView,
    key: SettingKey,
    value: ValueView,
    other: SettingKey,
)
    requires
        settings_with(settings, key, value) is Ok,
    ensures
        ({
            let after = settings_with(settings, key, value)->Ok_0;
            &&& key != SettingKey::FrequencyThreshold ==> setting_value(after, key) == value
            &&& key == SettingKey::FrequencyThreshold ==> setting_value(after, key)
                == ValueView::Decimal(value.as_threshold_mhz()->Some_0)
            &&& other != key ==> setting_value(after, other) == setting_value(settings, other)
        }),
{
}

} // verus!
