//! High-level property endpoints (`PropsSI`, `Props1SI`, `PhaseSI`, the
//! `*multi` variants, and the deprecated KSI-unit `Props` family).

use vstd::prelude::*;
use crate::calls::{check_point_counts, point_count_message};
use crate::error::ApiError;
use crate::text::{chars_of, debug_quote, debug_text, decimal, usize_decimal_string};

verus! {

/// Request naming a fluid and an output that needs no state inputs.
#[derive(Debug)]
pub struct Props1SiRequest {
    /// Fluid name, e.g. `"Water"` or `"HEOS::R134a"`.
    pub fluid: String,
    /// Output that requires no state inputs, e.g. `"Tcrit"`, `"Pcrit"`,
    /// `"molar_mass"`, `"aliases"`, ...
    pub output: String,
}

/// Message for a legacy input name that is not a single character.
pub open spec fn single_char_message(field: Seq<char>, s: Seq<char>) -> Seq<char> {
    field + " must be exactly one character, got "@ + debug_text(s)
}

/// The one character of a legacy input name; any other length is rejected.
pub fn single_char(s: &str, field: &str) -> (r: Result<char, ApiError>)
    ensures
        s@.len() == 1 ==> r == Ok::<char, ApiError>(s@[0]),
        s@.len() != 1 ==> (r matches Err(ApiError::BadInput(m)) && m@ == single_char_message(
            field@,
            s@,
        )),
{
    let cs = chars_of(s);
    if cs.len() == 1 {
        Ok(cs[0])
    } else {
        let mut m = String::from_str(field);
        m.append(" must be exactly one character, got ");
        let quoted = debug_quote(s);
        m.append(quoted.as_str());
        Err(ApiError::BadInput(m))
    }
}

/// Message for a request without any fluid.
pub open spec fn no_fluids_text() -> Seq<char> {
    "fluids must not be empty"@
}

/// Message for a number of fractions that differs from the number of fluids.
pub open spec fn fraction_count_message(fractions: int, fluids: int) -> Seq<char> {
    "got "@ + decimal(fractions) + " fractions for "@ + decimal(fluids) + " fluids"@
}

/// The fractions to send with the fluids: no fractions means an equal split
/// (`equal_share` is one over the number of fluids, and there must be at
/// least one fluid); otherwise exactly one fraction per fluid, as given.
pub fn normalize_fractions<T: Copy>(fluid_count: usize, fractions: &Vec<T>, equal_share: T) -> (r: Result<Vec<T>, ApiError>)
    ensures
        fractions@.len() == 0 && fluid_count == 0 ==> (r matches Err(ApiError::BadInput(m)) && m@
            == no_fluids_text()),
        fractions@.len() == 0 && fluid_count > 0 ==> (r matches Ok(v) && v@ == Seq::new(
            fluid_count as nat,
            |i: int| equal_share,
        )),
        fractions@.len() > 0 && fractions@.len() != fluid_count ==> (r matches Err(
            ApiError::BadInput(m),
        ) && m@ == fraction_count_message(fractions@.len() as int, fluid_count as int)),
        fractions@.len() > 0 && fractions@.len() == fluid_count ==> (r matches Ok(v) && v@
            == fractions@),
{
    if fractions.len() == 0 {
        if fluid_count == 0 {
            return Err(ApiError::BadInput(String::from_str("fluids must not be empty")));
        }
        let mut v: Vec<T> = Vec::new();
        let mut k: usize = 0;
        while k < fluid_count
            invariant
                k <= fluid_count,
                v@ == Seq::new(k as nat, |i: int| equal_share),
            decreases fluid_count - k,
        {
            v.push(equal_share);
            k = k + 1;
            assert(v@ =~= Seq::new(k as nat, |i: int| equal_share));
        }
        return Ok(v);
    }
    if fractions.len() != fluid_count {
        let mut m = String::from_str("got ");
        let a = usize_decimal_string(fractions.len());
        m.append(a.as_str());
        m.append(" fractions for ");
        let b = usize_decimal_string(fluid_count);
        m.append(b.as_str());
        m.append(" fluids");
        return Err(ApiError::BadInput(m));
    }
    let mut v: Vec<T> = Vec::new();
    let mut k: usize = 0;
    while k < fractions.len()
        invariant
            k <= fractions@.len(),
            v@ == fractions@.take(k as int),
        decreases fractions.len() - k,
    {
        v.push(fractions[k]);
        k = k + 1;
        assert(v@ =~= fractions@.take(k as int));
    }
    assert(fractions@.take(fractions@.len() as int) =~= fractions@);
    Ok(v)
}

/// Message for empty input arrays.
pub open spec fn no_points_text() -> Seq<char> {
    "prop1/prop2 must not be empty"@
}

/// The vectorized `PropsSI` endpoint needs input arrays of the same,
/// non-zero length.
pub fn check_multi_points(n1: usize, n2: usize) -> (r: Result<(), ApiError>)
    ensures
        r is Ok <==> n1 == n2 && n1 > 0,
        n1 != n2 ==> (r matches Err(ApiError::BadInput(m)) && m@ == point_count_message(
            n1 as int,
            n2 as int,
        )),
        n1 == n2 && n1 == 0 ==> (r matches Err(ApiError::BadInput(m)) && m@ == no_points_text()),
{
    if let Err(e) = check_point_counts(n1, n2) {
        return Err(ApiError::BadInput(e.0));
    }
    if n1 == 0 {
        return Err(ApiError::BadInput(String::from_str("prop1/prop2 must not be empty")));
    }
    Ok(())
}

/// The shape `[points, outputs]` of a result matrix with one row per input
/// point: the number of rows, and the length of the first row (zero when
/// there is none).
pub fn matrix_shape<T>(rows: &Vec<Vec<T>>) -> (r: Vec<usize>)
    ensures
        r@ == seq![rows@.len() as usize, if rows@.len() == 0 { 0usize } else { rows@[0]@.len() as usize }],
{
    let cols: usize = if rows.len() == 0 {
        0
    } else {
        rows[0].len()
    };
    let mut r: Vec<usize> = Vec::new();
    r.push(rows.len());
    r.push(cols);
    r
}

} // verus!
