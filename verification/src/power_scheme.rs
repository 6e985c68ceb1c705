//! The settings of a power scheme as the system's power interface reports
//! them: the plain data, the reading of ids and raw values, and the meaning
//! of the interface's status codes.

use vstd::prelude::*;

verus! {

/// A power plan with its id as a number.
#[derive(Debug)]
pub struct PowerPlan {
    pub uuid: u128,
    pub name: String,
    pub is_active: bool,
}

/// A subgroup of settings.
#[derive(Debug)]
pub struct PowerSubgroup {
    pub uuid: u128,
    pub name: String,
}

/// One setting.
#[derive(Debug)]
pub struct PowerSetting {
    pub uuid: u128,
    pub name: String,
}

/// The value of a setting on mains power and on battery.
#[derive(Clone, Copy, Debug, PartialEq, Eq, Structural)]
pub struct PowerSettingValue {
    pub ac_value: u32,
    pub dc_value: u32,
}

/// How the values that a setting can take are given.
#[derive(Clone, Copy, Debug, PartialEq, Eq, Structural)]
pub enum SettingType {
    /// One by one, each with a name.
    Enumerated,
    /// By the smallest and the largest.
    Range,
}

/// One value that a setting can take.
#[derive(Debug)]
pub struct SettingData {
    pub value: u32,
    pub name: String,
}

impl View for SettingData {
    type V = (u32, Seq<char>);

    open spec fn view(&self) -> (u32, Seq<char>) {
        (self.value, self.name@)
    }
}

/// The values that a setting can take.
#[derive(Debug)]
pub struct PossibleSetting {
    pub setting_type: SettingType,
    pub data: Vec<SettingData>,
    pub unit: Option<String>,
}

/// A setting with its value and the values it can take.
#[derive(Debug)]
pub struct UnifiedPowerSetting {
    pub setting: PowerSetting,
    pub current_value: PowerSettingValue,
    pub possible_values: PossibleSetting,
    pub attributes: u32,
}

/// A subgroup with its settings.
#[derive(Debug)]
pub struct UnifiedPowerSubgroup {
    pub subgroup: PowerSubgroup,
    pub settings: Vec<UnifiedPowerSetting>,
}

/// A power scheme with all that belongs to it.
#[derive(Debug)]
pub struct UnifiedPowerScheme {
    pub scheme: PowerPlan,
    pub subgroups: Vec<UnifiedPowerSubgroup>,
}

/// The values of a list as specifications see them.
pub open spec fn data_views(data: Seq<SettingData>) -> Seq<(u32, Seq<char>)> {
    data.map_values(|d: SettingData| d@)
}

/// A setting given by its range: the smallest value under the name "min",
/// the largest under the name "max".
pub fn range_setting(min: u32, max: u32, unit: Option<String>) -> (r: PossibleSetting)
    ensures
        r.setting_type == SettingType::Range,
        data_views(r.data@) == seq![(min, "min"@), (max, "max"@)],
        r.unit == unit,
{
    let mut data: Vec<SettingData> = Vec::new();
    data.push(SettingData { value: min, name: "min".to_owned() });
    data.push(SettingData { value: max, name: "max".to_owned() });
    PossibleSetting { setting_type: SettingType::Range, data, unit }
}

/// The status with which the power interface reports success.
pub const STATUS_OK: u32 = 0;

/// The status with which the power interface reports a missing item.
pub const STATUS_NOT_FOUND: u32 = 2;

/// The status with which the power interface asks for a larger buffer.
pub const STATUS_MORE_DATA: u32 = 234;

/// The status with which the power interface ends an enumeration.
pub const STATUS_NO_MORE_ITEMS: u32 = 259;

/// What a status means for an enumeration that reads item after item.
#[derive(Clone, Copy, Debug, PartialEq, Eq, Structural)]
pub enum EnumerationStep {
    /// An item was read; go on with the next.
    Item,
    /// The buffer was too small; read the same item again with a larger one.
    Retry,
    /// There is no further item.
    End,
    /// The enumeration failed with this status.
    Failed(u32),
}

/// The meaning of a status while plans, subgroups or settings are
/// enumerated.
pub open spec fn scheme_step(status: u32) -> EnumerationStep {
    if status == STATUS_NO_MORE_ITEMS {
        EnumerationStep::End
    } else if status == STATUS_OK {
        EnumerationStep::Item
    } else {
        EnumerationStep::Failed(status)
    }
}

/// The meaning of a status while the values of a setting are enumerated:
/// here a missing item ends the enumeration as well, and a buffer that is
/// too small is tried again.
pub open spec fn value_step(status: u32) -> EnumerationStep {
    if status == STATUS_MORE_DATA {
        EnumerationStep::Retry
    } else if status == STATUS_NO_MORE_ITEMS || status == STATUS_NOT_FOUND {
        EnumerationStep::End
    } else if status == STATUS_OK {
        EnumerationStep::Item
    } else {
        EnumerationStep::Failed(status)
    }
}

/// The meaning of a status while plans, subgroups or settings are
/// enumerated.
pub fn classify_scheme_status(status: u32) -> (r: EnumerationStep)
    ensures
        r == scheme_step(status),
{
    if status == STATUS_NO_MORE_ITEMS {
        EnumerationStep::End
    } else if status == STATUS_OK {
        EnumerationStep::Item
    } else {
        EnumerationStep::Failed(status)
    }
}

/// The meaning of a status while the values of a setting are enumerated.
pub fn classify_value_status(status: u32) -> (r: EnumerationStep)
    ensures
        r == value_step(status),
{
    if status == STATUS_MORE_DATA {
        EnumerationStep::Retry
    } else if status == STATUS_NO_MORE_ITEMS || status == STATUS_NOT_FOUND {
        EnumerationStep::End
    } else if status == STATUS_OK {
        EnumerationStep::Item
    } else {
        EnumerationStep::Failed(status)
    }
}

/// Whether a first read, made without a buffer to learn the size, went as
/// it should: it reports success or asks for more room.
pub fn size_query_succeeded(status: u32) -> (r: bool)
    ensures
        r == (status == STATUS_OK || status == STATUS_MORE_DATA),
{
    status == STATUS_OK || status == STATUS_MORE_DATA
}

/// The number that four bytes hold, lowest byte first.
pub open spec fn dword_of(b0: u8, b1: u8, b2: u8, b3: u8) -> int {
    b0 + b1 * 0x100 + b2 * 0x1_0000 + b3 * 0x100_0000
}

/// The number at the start of a buffer, lowest byte first; nothing where the
/// buffer holds fewer than four bytes.
pub fn dword_from_buffer(buffer: &[u8]) -> (r: Option<u32>)
    ensures
        match r {
            Some(value) => buffer@.len() >= 4 && value == dword_of(
                buffer@[0],
                buffer@[1],
                buffer@[2],
                buffer@[3],
            ),
            None => buffer@.len() < 4,
        },
{
    if buffer.len() < 4 {
        return None;
    }
    let b0: u32 = buffer[0] as u32;
    let b1: u32 = buffer[1] as u32;
    let b2: u32 = buffer[2] as u32;
    let b3: u32 = buffer[3] as u32;
    Some(b0 + b1 * 0x100 + b2 * 0x1_0000 + b3 * 0x100_0000)
}

/// The two values of a setting, or nothing where one of them is missing.
pub fn setting_value_of(ac_value: Option<u32>, dc_value: Option<u32>) -> (r: Option<
    PowerSettingValue,
>)
    ensures
        r == match (ac_value, dc_value) {
            (Some(ac), Some(dc)) => Some(PowerSettingValue { ac_value: ac, dc_value: dc }),
            _ => None,
        },
{
    match (ac_value, dc_value) {
        (Some(ac), Some(dc)) => Some(PowerSettingValue { ac_value: ac, dc_value: dc }),
        _ => None,
    }
}

/// The range of a setting, where both of its ends could be read.
pub fn setting_range(min_status: u32, min: u32, max_status: u32, max: u32) -> (r: Option<
    (u32, u32),
>)
    ensures
        r == (if min_status == STATUS_OK && max_status == STATUS_OK {
            Some((min, max))
        } else {
            None
        }),
{
    if min_status == STATUS_OK && max_status == STATUS_OK {
        Some((min, max))
    } else {
        None
    }
}

} // verus!
