//! Instance set-up: the versions the application announces, which messages
//! of the validation layer it asks for, and how it ranks them.

use vstd::prelude::*;

verus! {

/// Message severity bit: verbose.
pub const SEVERITY_VERBOSE: u32 = 0x1;

/// Message severity bit: information.
pub const SEVERITY_INFO: u32 = 0x10;

/// Message severity bit: warning.
pub const SEVERITY_WARNING: u32 = 0x100;

/// Message severity bit: error.
pub const SEVERITY_ERROR: u32 = 0x1000;

/// Message type bit: general.
pub const MESSAGE_TYPE_GENERAL: u32 = 0x1;

/// Message type bit: validation.
pub const MESSAGE_TYPE_VALIDATION: u32 = 0x2;

/// Message type bit: performance.
pub const MESSAGE_TYPE_PERFORMANCE: u32 = 0x4;

/// The number that stands for version `variant.major.minor.patch`.
pub open spec fn packed_version(variant: u32, major: u32, minor: u32, patch: u32) -> int {
    variant * 0x2000_0000 + major * 0x40_0000 + minor * 0x1000 + patch
}

/// The instance to create, but for the names of application, engine,
/// extensions and layers.
#[derive(Clone, Copy, PartialEq, Eq, Structural, Debug)]
pub struct InstanceRequest {
    pub application_version: u32,
    pub engine_version: u32,
    pub api_version: u32,
}

/// The debug messenger to create.
#[derive(Clone, Copy, PartialEq, Eq, Structural, Debug)]
pub struct MessengerRequest {
    pub message_severity: u32,
    pub message_type: u32,
}

/// How loudly a message of the validation layer is logged.
#[derive(Clone, Copy, PartialEq, Eq, Structural, Debug)]
pub enum LogLevel {
    Debug,
    Info,
    Warn,
    Error,
}

/// Packs a version with `ash::vk::make_api_version`, which shifts the variant
/// up by 29 bits, the major number by 22, the minor number by 12, and joins
/// them with the patch number. For numbers that fit their field, which the
/// precondition asks for, the fields do not overlap and the result is the
/// sum stated.
#[verifier::external_body]
fn pack_version(variant: u32, major: u32, minor: u32, patch: u32) -> (version: u32)
    requires
        variant < 8,
        major < 128,
        minor < 1024,
        patch < 4096,
    ensures
        version == packed_version(variant, major, minor, patch),
{
    ash::vk::make_api_version(variant, major, minor, patch)
}

/// Describes the instance: application and engine at version 0.0.1, on
/// version 1.3.0 of the API.
pub fn create_instance() -> (request: InstanceRequest)
    ensures
        request.application_version == packed_version(0, 0, 0, 1),
        request.engine_version == packed_version(0, 0, 0, 1),
        request.api_version == packed_version(0, 1, 3, 0),
{
    InstanceRequest {
        application_version: pack_version(0, 0, 0, 1),
        engine_version: pack_version(0, 0, 0, 1),
        api_version: pack_version(0, 1, 3, 0),
    }
}

/// Describes the debug messenger: messages of every severity and every type.
pub fn create_messenger() -> (request: MessengerRequest)
    ensures
        request.message_severity == 0x1111,
        request.message_type == 0x7,
{
    assert(0x1000u32 | 0x100u32 | 0x10u32 | 0x1u32 == 0x1111u32) by (bit_vector);
    assert(0x1u32 | 0x2u32 | 0x4u32 == 0x7u32) by (bit_vector);
    MessengerRequest {
        message_severity: SEVERITY_ERROR | SEVERITY_WARNING | SEVERITY_INFO | SEVERITY_VERBOSE,
        message_type: MESSAGE_TYPE_GENERAL | MESSAGE_TYPE_VALIDATION | MESSAGE_TYPE_PERFORMANCE,
    }
}

/// Ranks a message by its severity: verbose ones as debug output,
/// information as such, warnings as such, anything else as an error.
pub fn log_level(severity: u32) -> (level: LogLevel)
    ensures
        level == if severity == SEVERITY_VERBOSE {
            LogLevel::Debug
        } else if severity == SEVERITY_INFO {
            LogLevel::Info
        } else if severity == SEVERITY_WARNING {
            LogLevel::Warn
        } else {
            LogLevel::Error
        },
{
    if severity == SEVERITY_VERBOSE {
        LogLevel::Debug
    } else if severity == SEVERITY_INFO {
        LogLevel::Info
    } else if severity == SEVERITY_WARNING {
        LogLevel::Warn
    } else {
        LogLevel::Error
    }
}

} // verus!
