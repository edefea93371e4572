//! Shared request/response types.

use vstd::prelude::*;
use crate::text::{parse_i64, parse_int, decimal, law_parse_decimal_roundtrip};

verus! {

/// A CoolProp output parameter, addressable either by name (`"Dmolar"`) or by
/// its integer index (as returned by `get_param_index`).
#[derive(Debug)]
pub enum Param {
    /// Parameter name, e.g. `"T"`, `"P"`, `"Dmolar"`, `"Hmolar"`, ...
    Name(String),
    /// Integer parameter index from `get_param_index`.
    Index(i64),
}

/// An AbstractState input pair, addressable either by name (`"PT_INPUTS"`)
/// or by its integer index (as returned by `get_input_pair_index`).
#[derive(Debug)]
pub enum InputPair {
    /// Input pair name, e.g. `"PT_INPUTS"`, `"PQ_INPUTS"`, `"QT_INPUTS"`, ...
    Name(String),
    /// Integer input pair index from `get_input_pair_index`.
    Index(i64),
}

/// How a parameter or input-pair reference becomes CoolProp's integer index:
/// directly, or by asking CoolProp to look a name up.
#[derive(Debug)]
pub enum Resolution {
    /// The index is known.
    Index(i64),
    /// The name is to be looked up (`get_param_index` / `get_input_pair_index`).
    Lookup(String),
}

/// The index a reference names without a lookup: an index as given, or a
/// name that is a decimal integer (path parameters always arrive as strings).
pub open spec fn direct_index(is_index: bool, index: i64, name: Seq<char>) -> Option<int> {
    if is_index {
        Some(index as int)
    } else {
        parse_int(name)
    }
}

/// What resolving a reference gives, given the index it names directly.
pub open spec fn resolves_to(r: Resolution, direct: Option<int>, name: Seq<char>) -> bool {
    match direct {
        Some(v) => r == Resolution::Index(v as i64),
        None => r matches Resolution::Lookup(n) && n@ == name,
    }
}

fn resolve_name(s: &String) -> (r: Resolution)
    ensures
        resolves_to(r, parse_int(s@), s@),
{
    match parse_i64(s.as_str()) {
        Some(i) => Resolution::Index(i),
        None => Resolution::Lookup(s.clone()),
    }
}

impl Param {
    /// The index this reference names without a lookup, if any.
    pub open spec fn direct(&self) -> Option<int> {
        match self {
            Param::Index(i) => direct_index(true, *i, Seq::empty()),
            Param::Name(s) => direct_index(false, 0, s@),
        }
    }

    /// The name to look up when there is no direct index.
    pub open spec fn name(&self) -> Seq<char> {
        match self {
            Param::Index(_) => Seq::empty(),
            Param::Name(s) => s@,
        }
    }

    /// Resolves to an integer parameter index: an index as given, a name made
    /// of a decimal integer as that integer, any other name by lookup.
    pub fn resolve(&self) -> (r: Resolution)
        ensures
            resolves_to(r, self.direct(), self.name()),
    {
        match self {
            Param::Index(i) => Resolution::Index(*i),
            Param::Name(s) => resolve_name(s),
        }
    }
}

impl InputPair {
    /// The index this reference names without a lookup, if any.
    pub open spec fn direct(&self) -> Option<int> {
        match self {
            InputPair::Index(i) => direct_index(true, *i, Seq::empty()),
            InputPair::Name(s) => direct_index(false, 0, s@),
        }
    }

    /// The name to look up when there is no direct index.
    pub open spec fn name(&self) -> Seq<char> {
        match self {
            InputPair::Index(_) => Seq::empty(),
            InputPair::Name(s) => s@,
        }
    }

    /// Resolves to an integer input pair index: an index as given, a name
    /// made of a decimal integer as that integer, any other name by lookup.
    pub fn resolve(&self) -> (r: Resolution)
        ensures
            resolves_to(r, self.direct(), self.name()),
    {
        match self {
            InputPair::Index(i) => Resolution::Index(*i),
            InputPair::Name(s) => resolve_name(s),
        }
    }
}

/// A name spelling an index in decimal resolves to that index without a
/// lookup, for parameters and input pairs alike.
pub proof fn law_decimal_name_is_index(name: Seq<char>, i: i64)
    requires
        name == decimal(i as int),
    ensures
        direct_index(false, 0, name) == Some(i as int),
{
    law_parse_decimal_roundtrip(i);
}

/// Single string result.
#[derive(Debug)]
pub struct StringValue {
    pub value: String,
}

/// Single integer index result.
#[derive(Debug)]
pub struct IndexValue {
    pub index: i64,
}

/// Single length result.
#[derive(Debug)]
pub struct LengthValue {
    pub length: i64,
}

/// Boolean flag result.
#[derive(Debug)]
pub struct FlagValue {
    pub value: bool,
}

/// Simple acknowledgement for mutating calls.
#[derive(Debug)]
pub struct Ack {
    pub success: bool,
}

/// 1-D string array result.
#[derive(Debug)]
pub struct StringArrayValue {
    pub values: Vec<String>,
}

} // verus!
