//! Configuration and administration requests. These mutate process-global
//! CoolProp state and affect every subsequent call on the server.

use vstd::prelude::*;

verus! {

/// Request to set a string configuration value.
#[derive(Debug)]
pub struct SetConfigStringRequest {
    /// Configuration key, e.g. `"LIST_STRING_DELIMITER"`.
    pub key: String,
    pub val: String,
}

/// Request to set a boolean configuration value.
#[derive(Debug)]
pub struct SetConfigBoolRequest {
    /// Configuration key, e.g. `"ENABLE_SUPERANCILLARIES"`.
    pub key: String,
    pub val: bool,
}

/// Request to set the departure functions.
#[derive(Debug)]
pub struct SetDepartureFunctionsRequest {
    /// Departure functions as a JSON string, or the contents of a REFPROP
    /// HMX.BNC file.
    pub string_data: String,
}

/// Request to set a fluid's reference state by name.
#[derive(Debug)]
pub struct SetReferenceStateSRequest {
    /// Fluid name.
    pub fluid: String,
    /// Named reference state: `"IIR"`, `"ASHRAE"`, `"NBP"`, `"DEF"`, `"RESET"`.
    pub reference_state: String,
}

/// Request to set the debug level.
#[derive(Debug)]
pub struct DebugLevelRequest {
    /// Verbosity level for CoolProp debugging output (0–10).
    pub level: i32,
}

/// Request to redirect CoolProp's console output.
#[derive(Debug)]
pub struct RedirectStdoutRequest {
    /// File path to append stdout to. `/dev/stdout` on Linux restores the
    /// standard output stream.
    pub file: String,
}

} // verus!
