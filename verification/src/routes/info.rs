//! Parameter/fluid information and miscellaneous utility requests.

use vstd::prelude::*;

verus! {

/// A parameter or input pair given by name.
#[derive(Debug)]
pub struct NamedParam {
    /// Parameter name, e.g. `"T"`, `"Dmolar"`, `"PT_INPUTS"`, ...
    pub name: String,
}

/// Which information about a parameter is wanted.
#[derive(Debug)]
pub struct InfoKind {
    /// Kind of information: `"long"` (description, default), `"short"`,
    /// `"units"`, or `"IO"`.
    pub info: Option<String>,
}

impl InfoKind {
    /// The selector to hand to CoolProp: the one given, else `"long"`.
    pub fn selector(self) -> (r: String)
        ensures
            self.info matches Some(s) ==> r == s,
            self.info is None ==> r@ == "long"@,
    {
        match self.info {
            Some(s) => s,
            None => String::from_str("long"),
        }
    }
}

/// A fluid string to validate.
#[derive(Debug)]
pub struct FluidName {
    /// Fluid string, e.g. `"HEOS::Water[0.5]&Ethane[0.5]"`.
    pub name: String,
}

/// Request to split a fluid string into backend and fluid.
#[derive(Debug)]
pub struct ExtractBackendRequest {
    /// Fluid string, e.g. `"REFPROP::Water[0.5]&Ethane[0.5]"`.
    pub fluid_string: String,
}

/// The backend and fluid parts of a fluid string.
#[derive(Debug)]
pub struct BackendFluid {
    /// Backend part (`"HEOS"`, `"REFPROP"`, ...; empty when not prefixed).
    pub backend: String,
    /// Fluid part, e.g. `"Water[0.5]&Ethane[0.5]"`.
    pub fluid: String,
}

/// Request to add fluids defined in JSON to a backend's library.
#[derive(Debug)]
pub struct AddFluidsRequest {
    /// Backend to add the fluids to, e.g. `"HEOS"`, `"SRK"`, `"PR"`.
    pub backend: String,
    /// JSON-formatted fluid definition string.
    pub fluid_string: String,
}

/// A debug level.
#[derive(Debug)]
pub struct DebugLevel {
    /// Verbosity level for CoolProp debugging output (0–10).
    pub level: i32,
}

} // verus!
