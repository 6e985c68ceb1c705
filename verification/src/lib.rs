//! Sampling-and-reaction engine for CPU clock-frequency monitoring.
//!
//! The crate holds the decisions of the engine as verified functions on plain
//! values: the stagnation detector, the debounced threshold alerter, the
//! trigger-action executor and the settings store. Everything that touches the
//! operating system is left to the caller, which performs the effects that
//! these functions hand back.

pub mod text;
pub mod scan;
pub mod alert;
pub mod stagnation;
pub mod power_plan;
pub mod trigger_action;
pub mod executor;
pub mod settings;
pub mod settings_store;
pub mod monitor;
pub mod preferences;
pub mod constants;
pub mod notification;
pub mod startup;
pub mod updater;
pub mod power_scheme;
pub mod guid;
