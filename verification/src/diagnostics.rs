//! The diagnostics channel's message classification.
//!
//! The driver invokes the registered callback synchronously, on the calling
//! thread, for every subscribed validation, info, warning or error event.
//! The callback must not allocate or call back into the driver; it only
//! classifies the event and forwards it to the logging sink. The severity
//! and category values follow the driver's bit numbering.

use vstd::prelude::*;

verus! {

/// Severity bit: driver-internal chatter.
pub const SEVERITY_VERBOSE: u32 = 0x1;

/// Severity bit: informational messages.
pub const SEVERITY_INFO: u32 = 0x10;

/// Severity bit: likely-mistake warnings.
pub const SEVERITY_WARNING: u32 = 0x100;

/// Severity bit: validation or driver errors.
pub const SEVERITY_ERROR: u32 = 0x1000;

/// Category bit: general events.
pub const CATEGORY_GENERAL: u32 = 0x1;

/// Category bit: validation findings.
pub const CATEGORY_VALIDATION: u32 = 0x2;

/// Category bit: performance advisories.
pub const CATEGORY_PERFORMANCE: u32 = 0x4;

/// The level a message is forwarded to the logging sink at.
#[derive(Clone, Copy, Debug, PartialEq, Eq, Structural)]
pub enum LogLevel {
    Debug,
    Info,
    Warn,
    Error,
}

/// The kind of event the driver classified a message as.
#[derive(Clone, Copy, Debug, PartialEq, Eq, Structural)]
pub enum MessageCategory {
    General,
    Validation,
    Performance,
}

/// The severity mapping: verbose to debug, info to info, warning to warn,
/// error to error, and warn for any unrecognized value.
pub open spec fn level_for_severity(severity: u32) -> LogLevel {
    if severity == SEVERITY_VERBOSE {
        LogLevel::Debug
    } else if severity == SEVERITY_INFO {
        LogLevel::Info
    } else if severity == SEVERITY_WARNING {
        LogLevel::Warn
    } else if severity == SEVERITY_ERROR {
        LogLevel::Error
    } else {
        LogLevel::Warn
    }
}

/// The category mapping, with general for any unrecognized value.
pub open spec fn category_for_bits(category: u32) -> MessageCategory {
    if category == CATEGORY_VALIDATION {
        MessageCategory::Validation
    } else if category == CATEGORY_PERFORMANCE {
        MessageCategory::Performance
    } else {
        MessageCategory::General
    }
}

/// Classifies a driver-reported severity for the logging sink.
pub fn map_severity(severity: u32) -> (r: LogLevel)
    ensures
        r == level_for_severity(severity),
{
    if severity == SEVERITY_VERBOSE {
        LogLevel::Debug
    } else if severity == SEVERITY_INFO {
        LogLevel::Info
    } else if severity == SEVERITY_WARNING {
        LogLevel::Warn
    } else if severity == SEVERITY_ERROR {
        LogLevel::Error
    } else {
        LogLevel::Warn
    }
}

/// Classifies a driver-reported message category.
pub fn map_category(category: u32) -> (r: MessageCategory)
    ensures
        r == category_for_bits(category),
{
    if category == CATEGORY_VALIDATION {
        MessageCategory::Validation
    } else if category == CATEGORY_PERFORMANCE {
        MessageCategory::Performance
    } else {
        MessageCategory::General
    }
}

} // verus!
