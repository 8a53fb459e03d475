//! Messages from the API's validation machinery: which are asked for and
//! how each is reported.

use vstd::prelude::*;

verus! {

/// Severity bit: verbose.
pub const SEVERITY_VERBOSE: u32 = 0x1;

/// Severity bit: informational.
pub const SEVERITY_INFO: u32 = 0x10;

/// Severity bit: warning.
pub const SEVERITY_WARNING: u32 = 0x100;

/// Severity bit: error.
pub const SEVERITY_ERROR: u32 = 0x1000;

/// Message type bit: general.
pub const TYPE_GENERAL: u32 = 0x1;

/// Message type bit: validation.
pub const TYPE_VALIDATION: u32 = 0x2;

/// Message type bit: performance.
pub const TYPE_PERFORMANCE: u32 = 0x4;

/// Which messages a messenger is created for.
#[derive(Clone, Copy, Debug, PartialEq, Eq, Structural)]
pub struct DebugMessengerCreateInfo {
    pub message_severity: u32,
    pub message_type: u32,
}

/// How loudly a message is logged.
#[derive(Clone, Copy, Debug, PartialEq, Eq, Structural)]
pub enum LogLevel {
    Error,
    Warn,
    Info,
    Trace,
}

/// The tag a message of the given type is logged with.
pub open spec fn type_label(message_type: u32) -> Seq<char> {
    if message_type == TYPE_GENERAL {
        "[General]"@
    } else if message_type == TYPE_PERFORMANCE {
        "[Performance]"@
    } else if message_type == TYPE_VALIDATION {
        "[Validation]"@
    } else {
        "[Unknown]"@
    }
}

/// The level a message of the given severity is logged at.
pub open spec fn level_of(severity: u32) -> LogLevel {
    if severity == SEVERITY_WARNING {
        LogLevel::Warn
    } else if severity == SEVERITY_ERROR {
        LogLevel::Error
    } else if severity == SEVERITY_INFO {
        LogLevel::Info
    } else {
        LogLevel::Trace
    }
}

/// A messenger that passes the API's messages on to the log.
#[derive(Clone, Copy, Debug, PartialEq, Eq, Structural)]
pub struct DebugMessenger {
    handle: u64,
}

impl DebugMessenger {
    /// The messenger's handle.
    pub closed spec fn id(&self) -> u64 {
        self.handle
    }

    /// What the messenger is created for: messages of every severity and
    /// every type.
    pub fn create_info() -> (info: DebugMessengerCreateInfo)
        ensures
            info.message_severity == 0x1111,
            info.message_type == 0x7,
    {
        let message_severity: u32 = SEVERITY_VERBOSE | SEVERITY_INFO | SEVERITY_WARNING
            | SEVERITY_ERROR;
        let message_type: u32 = TYPE_GENERAL | TYPE_VALIDATION | TYPE_PERFORMANCE;
        assert(0x1u32 | 0x10u32 | 0x100u32 | 0x1000u32 == 0x1111u32) by (bit_vector);
        assert(0x1u32 | 0x2u32 | 0x4u32 == 0x7u32) by (bit_vector);
        DebugMessengerCreateInfo { message_severity, message_type }
    }

    /// The messenger with handle `handle`.
    pub fn new(handle: u64) -> (messenger: Self)
        ensures
            messenger.id() == handle,
    {
        Self { handle }
    }

    pub fn handle(&self) -> (handle: u64)
        ensures
            handle == self.id(),
    {
        self.handle
    }

    /// The tag a message of the given type is logged with. A message of
    /// several types at once, or of none, is tagged as unknown.
    pub fn message_type_label(message_type: u32) -> (label: &'static str)
        ensures
            label@ == type_label(message_type),
    {
        if message_type == TYPE_GENERAL {
            "[General]"
        } else if message_type == TYPE_PERFORMANCE {
            "[Performance]"
        } else if message_type == TYPE_VALIDATION {
            "[Validation]"
        } else {
            "[Unknown]"
        }
    }

    /// The level a message of the given severity is logged at.
    pub fn log_level(severity: u32) -> (level: LogLevel)
        ensures
            level == level_of(severity),
    {
        if severity == SEVERITY_WARNING {
            LogLevel::Warn
        } else if severity == SEVERITY_ERROR {
            LogLevel::Error
        } else if severity == SEVERITY_INFO {
            LogLevel::Info
        } else {
            LogLevel::Trace
        }
    }

    /// The line logged for a message: its tag, a space, its text.
    pub fn format_message(message_type: u32, message: &str) -> (line: String)
        ensures
            line@ == type_label(message_type) + " "@ + message@,
    {
        let mut line = String::new();
        line.push_str(Self::message_type_label(message_type));
        line.push_str(" ");
        line.push_str(message);
        line
    }
}

} // verus!
