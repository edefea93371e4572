//! Stateful low-level AbstractState requests.
//!
//! An AbstractState is created with `POST /api/v1/abstract-state`, which
//! returns an integer handle; every other endpoint of this area addresses
//! the state through that handle, and `DELETE` releases it.

use vstd::prelude::*;
use crate::dto::Param;
use crate::error::ApiError;
use crate::routes::props::no_fluids_text;
use crate::text::{
    decimal, decimal_string, join, joined, law_parse_decimal_roundtrip, parse_int, usize_decimal_string, views,
};

verus! {

/// Request to create an AbstractState.
#[derive(Debug)]
pub struct CreateRequest {
    /// Backend: `"HEOS"`, `"REFPROP"`, `"INCOMP"`, `"SRK"`, `"PR"` ...
    pub backend: String,
    /// Fluids of the mixture, one entry per component.
    pub fluids: Vec<String>,
}

impl CreateRequest {
    /// The fluid string handed to `AbstractState_factory`: the components
    /// joined with `&`. A request without components is rejected.
    pub fn mixture(&self) -> (r: Result<String, ApiError>)
        ensures
            self.fluids@.len() == 0 ==> (r matches Err(ApiError::BadInput(m)) && m@
                == no_fluids_text()),
            self.fluids@.len() > 0 ==> (r matches Ok(s) && s@ == joined(
                views(self.fluids@),
                "&"@,
            )),
    {
        if self.fluids.len() == 0 {
            Err(ApiError::BadInput(String::from_str("fluids must not be empty")))
        } else {
            Ok(join(&self.fluids, "&"))
        }
    }
}

/// The handle of a created AbstractState.
#[derive(Debug)]
pub struct HandleResponse {
    /// Handle for all subsequent calls.
    pub handle: i64,
}

/// Which saturated phase is meant.
#[derive(Debug)]
pub struct SatStateParams {
    /// `"liquid"` or `"gas"`.
    pub saturated_state: String,
}

/// A phase to impose.
#[derive(Debug)]
pub struct PhaseRequest {
    /// Phase to impose: `"liquid"`, `"gas"`, `"supercritical"`, ...
    pub phase: String,
}

/// Request for a saturation derivative.
#[derive(Debug)]
pub struct FirstSaturationDerivRequest {
    /// Parameter being differentiated (name or index).
    pub of: Param,
    /// Parameter the derivative is taken with respect to.
    pub wrt: Param,
}

/// Request for a first partial derivative.
#[derive(Debug)]
pub struct FirstPartialDerivRequest {
    pub of: Param,
    pub wrt: Param,
    /// Parameter held constant.
    pub constant: Param,
}

/// Request for a second partial derivative.
#[derive(Debug)]
pub struct SecondPartialDerivRequest {
    pub of1: Param,
    pub wrt1: Param,
    pub constant1: Param,
    pub wrt2: Param,
    pub constant2: Param,
}

/// Request to build the phase envelope.
#[derive(Debug)]
pub struct BuildPhaseEnvelopeRequest {
    /// Build level (default `"none"`).
    pub level: Option<String>,
}

impl BuildPhaseEnvelopeRequest {
    /// The level handed to CoolProp: the one given, else `"none"`.
    pub fn level_or_default(self) -> (r: String)
        ensures
            self.level matches Some(s) ==> r == s,
            self.level is None ==> r@ == "none"@,
    {
        match self.level {
            Some(s) => s,
            None => String::from_str("none"),
        }
    }
}

/// `v` clamped into `[lo, hi]`, as `Ord::clamp` gives it.
pub open spec fn clamped(v: int, lo: int, hi: int) -> int {
    if v < lo {
        lo
    } else if v > hi {
        hi
    } else {
        v
    }
}

/// The requested size, or `default` when none is requested, clamped into
/// `[lo, hi]`.
pub open spec fn capacity_of(requested: Option<usize>, default: usize, lo: usize, hi: usize) -> int {
    clamped(
        match requested {
            Some(v) => v as int,
            None => default as int,
        },
        lo as int,
        hi as int,
    )
}

/// A buffer capacity: the requested one or a default, clamped into `[lo, hi]`.
pub fn capacity(requested: Option<usize>, default: usize, lo: usize, hi: usize) -> (r: usize)
    requires
        lo <= hi,
    ensures
        r == capacity_of(requested, default, lo, hi),
{
    let v = match requested {
        Some(v) => v,
        None => default,
    };
    if v < lo {
        lo
    } else if v > hi {
        hi
    } else {
        v
    }
}

/// A requested size inside `[lo, hi]` is used as given; one below or above
/// is raised to `lo` or lowered to `hi`; without a request the default is
/// used the same way. The capacity is always within `[lo, hi]`.
pub proof fn law_capacity(requested: Option<usize>, default: usize, lo: usize, hi: usize)
    requires
        lo <= hi,
    ensures
        lo <= capacity_of(requested, default, lo, hi) <= hi,
        requested matches Some(v) ==> (lo <= v <= hi ==> capacity_of(requested, default, lo, hi) == v),
        requested matches Some(v) ==> (v < lo ==> capacity_of(requested, default, lo, hi) == lo),
        requested matches Some(v) ==> (v > hi ==> capacity_of(requested, default, lo, hi) == hi),
        requested is None && lo <= default <= hi ==> capacity_of(requested, default, lo, hi) == default,
        requested is None && default < lo ==> capacity_of(requested, default, lo, hi) == lo,
        requested is None && default > hi ==> capacity_of(requested, default, lo, hi) == hi,
{
}

/// Buffer capacities for reading the phase envelope.
#[derive(Debug)]
pub struct PhaseEnvelopeParams {
    /// Buffer capacity for points.
    pub max_length: Option<usize>,
    /// Buffer capacity for components (default 20).
    pub max_components: Option<usize>,
}

impl PhaseEnvelopeParams {
    /// Capacities (points, components) for the checked-memory read: 10000
    /// points by default, within 1..=1000000; 20 components by default,
    /// within 1..=1000.
    pub fn checked_capacities(&self) -> (r: (usize, usize))
        ensures
            r.0 == capacity_of(self.max_length, 10000, 1, 1000000),
            r.1 == capacity_of(self.max_components, 20, 1, 1000),
    {
        (capacity(self.max_length, 10000, 1, 1000000), capacity(self.max_components, 20, 1, 1000))
    }

    /// Capacities (points, components) for the raw read: 1000 points by
    /// default, within 1..=100000; 20 components by default, within 1..=1000.
    pub fn raw_capacities(&self) -> (r: (usize, usize))
        ensures
            r.0 == capacity_of(self.max_length, 1000, 1, 100000),
            r.1 == capacity_of(self.max_components, 20, 1, 1000),
    {
        (capacity(self.max_length, 1000, 1, 100000), capacity(self.max_components, 20, 1, 1000))
    }
}

/// Buffer capacity for reading the spinodal.
#[derive(Debug)]
pub struct SpinodalParams {
    /// Buffer capacity for points (default 10000).
    pub max_length: Option<usize>,
}

impl SpinodalParams {
    /// 10000 points by default, within 1..=1000000.
    pub fn points(&self) -> (r: usize)
        ensures
            r == capacity_of(self.max_length, 10000, 1, 1000000),
    {
        capacity(self.max_length, 10000, 1, 1000000)
    }
}

/// Buffer capacity for reading the critical points.
#[derive(Debug)]
pub struct CriticalPointsParams {
    /// Buffer capacity for points (default 10).
    pub max_points: Option<usize>,
}

impl CriticalPointsParams {
    /// 10 points by default, within 1..=100.
    pub fn points(&self) -> (r: usize)
        ensures
            r == capacity_of(self.max_points, 10, 1, 100),
    {
        capacity(self.max_points, 10, 1, 100)
    }
}

/// Request for a keyed output of a saturated phase.
#[derive(Debug)]
pub struct KeyedOutputSatStateRequest {
    /// `"liquid"` or `"gas"`.
    pub saturated_state: String,
    /// Parameter name or index.
    pub param: Param,
}

/// The phase of the current state.
#[derive(Debug)]
pub struct PhaseResponse {
    /// Raw phase index from CoolProp (`iphase_*` enum).
    pub phase_index: i32,
    /// Phase name, e.g. `"liquid"`, `"gas"`, `"twophase"`,
    /// `"supercritical"`, ...; `"phase_<index>"` for unmapped values.
    pub phase: String,
}

/// The name of a CoolProp phase index.
pub open spec fn phase_label(index: i32) -> Seq<char> {
    if index == 0 {
        "liquid"@
    } else if index == 1 {
        "supercritical"@
    } else if index == 2 {
        "supercritical_gas"@
    } else if index == 3 {
        "supercritical_liquid"@
    } else if index == 4 {
        "critical_point"@
    } else if index == 5 {
        "gas"@
    } else if index == 6 {
        "twophase"@
    } else if index == 7 {
        "unknown"@
    } else if index == 8 {
        "not_imposed"@
    } else {
        "phase_"@ + decimal(index as int)
    }
}

/// Names a CoolProp phase index.
pub fn phase_name(index: i32) -> (r: String)
    ensures
        r@ == phase_label(index),
{
    match index {
        0 => String::from_str("liquid"),
        1 => String::from_str("supercritical"),
        2 => String::from_str("supercritical_gas"),
        3 => String::from_str("supercritical_liquid"),
        4 => String::from_str("critical_point"),
        5 => String::from_str("gas"),
        6 => String::from_str("twophase"),
        7 => String::from_str("unknown"),
        8 => String::from_str("not_imposed"),
        other => {
            let mut m = String::from_str("phase_");
            let digits = decimal_string(other as i64);
            m.append(digits.as_str());
            m
        },
    }
}

/// Each phase index of CoolProp's `iphase` enum is named after its
/// enumerator: 0 liquid, 1 supercritical, 2 supercritical gas (above the
/// critical temperature, below the critical pressure), 3 supercritical liquid
/// (above the critical pressure, below the critical temperature), 4 the
/// critical point, 5 gas, 6 two-phase, 7 unknown, 8 not imposed. Any other
/// index is named `phase_` followed by a decimal that parses back to it.
pub proof fn law_phase_names(index: i32)
    ensures
        phase_label(0) == "liquid"@,
        phase_label(1) == "supercritical"@,
        phase_label(2) == "supercritical_gas"@,
        phase_label(3) == "supercritical_liquid"@,
        phase_label(4) == "critical_point"@,
        phase_label(5) == "gas"@,
        phase_label(6) == "twophase"@,
        phase_label(7) == "unknown"@,
        phase_label(8) == "not_imposed"@,
        !(0 <= index <= 8) ==> ({
            let name = phase_label(index);
            &&& name.len() >= 6
            &&& name.take(6) == "phase_"@
            &&& parse_int(name.skip(6)) == Some(index as int)
        }),
{
    if !(0 <= index <= 8) {
        reveal_strlit("phase_");
        law_parse_decimal_roundtrip(index as i64);
        let name = phase_label(index);
        assert(name.take(6) =~= "phase_"@);
        assert(name.skip(6) =~= decimal(index as int));
    }
}

impl PhaseResponse {
    /// The response for a phase index: the index and its name.
    pub fn new(index: i32) -> (r: PhaseResponse)
        ensures
            r.phase_index == index,
            r.phase@ == phase_label(index),
    {
        PhaseResponse { phase_index: index, phase: phase_name(index) }
    }
}

/// Which string parameter of the fluid is wanted.
#[derive(Debug)]
pub struct FluidParamStringParams {
    /// Fluid parameter, e.g. `"pure"`, `"CAS"`, `"BibTeX-Key"` ...
    pub param: String,
}

/// Message for a missing single output.
pub open spec fn output_required_text() -> Seq<char> {
    "`output` is required for update-and-1-out"@
}

/// The output of an update-and-1-out request, which must be given.
pub fn require_output<T>(output: Option<T>) -> (r: Result<T, ApiError>)
    ensures
        output matches Some(o) ==> r == Ok::<T, ApiError>(o),
        output is None ==> (r matches Err(ApiError::BadInput(m)) && m@ == output_required_text()),
{
    match output {
        Some(o) => Ok(o),
        None => Err(ApiError::BadInput(String::from_str("`output` is required for update-and-1-out"))),
    }
}

/// Message for missing outputs.
pub open spec fn outputs_required_text() -> Seq<char> {
    "`outputs` is required for update-and-5-out"@
}

/// Message for a number of outputs other than five.
pub open spec fn five_outputs_message(n: int) -> Seq<char> {
    "`outputs` must have exactly 5 entries, got "@ + decimal(n)
}

/// The outputs of an update-and-5-out request: they must be given, and be
/// exactly five.
pub fn require_five_outputs<T>(outputs: Option<Vec<T>>) -> (r: Result<Vec<T>, ApiError>)
    ensures
        outputs is None ==> (r matches Err(ApiError::BadInput(m)) && m@ == outputs_required_text()),
        outputs matches Some(v) ==> {
            &&& v@.len() != 5 ==> (r matches Err(ApiError::BadInput(m)) && m@
                == five_outputs_message(v@.len() as int))
            &&& v@.len() == 5 ==> r == Ok::<Vec<T>, ApiError>(v)
        },
{
    match outputs {
        None => Err(ApiError::BadInput(String::from_str("`outputs` is required for update-and-5-out"))),
        Some(v) => {
            if v.len() != 5 {
                let mut m = String::from_str("`outputs` must have exactly 5 entries, got ");
                let digits = usize_decimal_string(v.len());
                m.append(digits.as_str());
                Err(ApiError::BadInput(m))
            } else {
                Ok(v)
            }
        },
    }
}

} // verus!
