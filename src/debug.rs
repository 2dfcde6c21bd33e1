//! The debug messenger: whether one is set up, what it asks the driver for,
//! and how each diagnostic message is routed.
use crate::vulkan::{
    message_type_flags, message_type_general, message_type_performance, message_type_validation,
    severity_error, severity_flags, severity_info, severity_verbose, severity_warning, vk_false,
};
use crate::instance::StartupConfig;
use vstd::prelude::*;

verus! {

/// The log level a diagnostic message is written at.
#[derive(Clone, Copy, Debug, PartialEq, Eq, Structural)]
pub enum LogLevel {
    Debug,
    Info,
    Warn,
    Error,
}

/// What the messenger asks the driver for: creation flags, the severities
/// it receives and the message types it receives, as raw flag values.
#[derive(Clone, Copy, Debug, PartialEq, Eq, Structural)]
pub struct DebugMessengerConfig {
    pub flags: u32,
    pub message_severity: u32,
    pub message_type: u32,
}

/// What the debug callback does with one message: the level it is logged at
/// and the value returned to the driver.
#[derive(Clone, Copy, Debug, PartialEq, Eq, Structural)]
pub struct DebugCallbackOutcome {
    pub level: LogLevel,
    pub result: u32,
}

/// The level for a message of the given severity: verbose, info and warning
/// map to debug, info and warn; any other value, combinations included,
/// maps to error.
pub open spec fn log_level_for(severity: u32) -> LogLevel {
    if severity == severity_verbose() {
        LogLevel::Debug
    } else if severity == severity_info() {
        LogLevel::Info
    } else if severity == severity_warning() {
        LogLevel::Warn
    } else {
        LogLevel::Error
    }
}

/// The messenger a debug build sets up: errors, warnings and informational
/// messages, of the general, validation and performance types.
pub open spec fn validation_messenger() -> DebugMessengerConfig {
    DebugMessengerConfig {
        flags: 0,
        message_severity: severity_error() | severity_warning() | severity_info(),
        message_type: message_type_general() | message_type_validation() | message_type_performance(),
    }
}

/// The messenger to set up, if any: one exactly when validation is enabled.
pub fn debug_messenger_config(config: StartupConfig) -> (r: Option<DebugMessengerConfig>)
    ensures
        r is Some <==> config.enable_validation,
        r is Some ==> r->Some_0 == validation_messenger(),
{
    if !config.enable_validation {
        return None;
    }
    let (_verbose, info, warning, error) = severity_flags();
    let (general, validation, performance) = message_type_flags();
    Some(
        DebugMessengerConfig {
            flags: 0,
            message_severity: error | warning | info,
            message_type: general | validation | performance,
        },
    )
}

/// Routes one diagnostic message to its log level. The driver is always told
/// to go on with the call that raised the message.
pub fn debug_callback_outcome(severity: u32) -> (r: DebugCallbackOutcome)
    ensures
        r.level == log_level_for(severity),
        r.result == 0,
{
    let (verbose, info, warning, _error) = severity_flags();
    let level = if severity == verbose {
        LogLevel::Debug
    } else if severity == info {
        LogLevel::Info
    } else if severity == warning {
        LogLevel::Warn
    } else {
        LogLevel::Error
    };
    DebugCallbackOutcome { level, result: vk_false() }
}

} // verus!
