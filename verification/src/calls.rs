//! How the result of each CoolProp C call is read: the error conventions of
//! the C API (`errcode`/message buffer, status returns, the infinite-value
//! failure sentinel, the global error string) and the decoding of the buffers
//! the calls fill.

use vstd::prelude::*;
use vstd::string::StringSliceAdditionalSpecFns;
use crate::error::CoolPropError;
use crate::text::{
    before_nul, buffer_to_string, usize_decimal_string, comma_list, debug_quote, debug_text, decimal, decimal_string,
    has_prefix, lossy_utf8, split_comma_list, starts_with, strip_prefix_all, trim_after_prefixes,
    trim_seq, views,
};

verus! {

/// What a CoolProp call came to, as far as its own outputs tell.
pub enum CallOutcome<T> {
    /// The call succeeded with this value.
    Value(T),
    /// The call failed with this error.
    Failed(CoolPropError),
    /// The call failed, and its reason is CoolProp's global error string,
    /// which is to be read (and so cleared) next.
    ErrstringFailure,
}

/// Message used when a call failed without setting the global error string.
pub open spec fn no_message_text() -> Seq<char> {
    "CoolProp call failed (no error message was set)"@
}

/// The error message of a failed call, given the global error string read
/// after it: that string, or a fixed message when it is empty.
pub open spec fn errstring_message(errstring: Seq<char>) -> Seq<char> {
    if errstring.len() == 0 {
        no_message_text()
    } else {
        errstring
    }
}

/// The message for a failed call, given the error string read after it.
pub fn fresh_errstring_or_default(errstring: String) -> (m: String)
    ensures
        m@ == errstring_message(errstring@),
{
    if errstring.as_str().is_empty() {
        String::from_str("CoolProp call failed (no error message was set)")
    } else {
        errstring
    }
}

/// A failure never goes without a message: the error string read after a
/// failed call, or the fixed text that stands in for it, is never empty, and
/// neither is the message of an `errcode` other than 0 and 1 (code 1 carries
/// whatever message CoolProp wrote).
pub proof fn law_failures_carry_a_message(errstring: Seq<char>, errcode: i64, msg: Seq<u8>)
    ensures
        errstring_message(errstring).len() > 0,
        errcode != 0 && errcode != 1 ==> (errcode_result(errcode, msg) matches Err(m) && m.len() > 0),
{
    reveal_strlit("CoolProp call failed (no error message was set)");
    reveal_strlit("CoolProp error message did not fit in the message buffer");
    reveal_strlit("unknown CoolProp error (code ");
}

/// Outcome of a void setter that reports failures only through the global
/// error string: success exactly when the string read after the call is empty.
pub fn void_call_report_errstring(errstring_after: String) -> (r: Result<(), CoolPropError>)
    ensures
        r is Ok <==> errstring_after@.len() == 0,
        r matches Err(e) ==> e.0@ == errstring_after@,
{
    if errstring_after.as_str().is_empty() {
        Ok(())
    } else {
        Err(CoolPropError(errstring_after))
    }
}

/// Message of the `errcode` convention for a code other than 0, 1 and 2.
pub open spec fn unknown_code_message(code: i64) -> Seq<char> {
    "unknown CoolProp error (code "@ + decimal(code as int) + ")"@
}

/// Message of the `errcode` convention for code 2.
pub open spec fn message_too_long_text() -> Seq<char> {
    "CoolProp error message did not fit in the message buffer"@
}

/// What the `errcode` / message-buffer convention means: 0 is success, 1 a
/// CoolProp error whose message is in the buffer, 2 a message that did not
/// fit, anything else an unknown failure.
pub open spec fn errcode_result(errcode: i64, msg: Seq<u8>) -> Result<(), Seq<char>> {
    if errcode == 0 {
        Ok(())
    } else if errcode == 1 {
        Err(lossy_utf8(before_nul(msg)))
    } else if errcode == 2 {
        Err(message_too_long_text())
    } else {
        Err(unknown_code_message(errcode))
    }
}

/// Decodes the `errcode` / message-buffer result of a call.
pub fn check_errcode(errcode: i64, msg: &[u8]) -> (r: Result<(), CoolPropError>)
    ensures
        r is Ok <==> errcode_result(errcode, msg@) is Ok,
        r matches Err(e) ==> errcode_result(errcode, msg@) == Err::<(), Seq<char>>(e.0@),
{
    if errcode == 0 {
        Ok(())
    } else if errcode == 1 {
        Err(CoolPropError(buffer_to_string(msg)))
    } else if errcode == 2 {
        Err(CoolPropError(String::from_str("CoolProp error message did not fit in the message buffer")))
    } else {
        let mut m = String::from_str("unknown CoolProp error (code ");
        let digits = decimal_string(errcode);
        m.append(digits.as_str());
        m.append(")");
        Err(CoolPropError(m))
    }
}

/// Outcome of a call that returns a scalar and signals failure with an
/// infinite value (`_HUGE`): the value when it is finite, otherwise the
/// global error string.
pub fn check_scalar<T>(value: T, is_finite: bool) -> (r: CallOutcome<T>)
    ensures
        is_finite ==> r == CallOutcome::Value(value),
        !is_finite ==> r is ErrstringFailure,
{
    if is_finite {
        CallOutcome::Value(value)
    } else {
        CallOutcome::ErrstringFailure
    }
}

/// Outcome of a call that returns 1 on success and fills a string buffer.
fn status_string(rc: i64, buffer: &[u8]) -> (r: CallOutcome<String>)
    ensures
        rc == 1 ==> (r matches CallOutcome::Value(s) && s@ == lossy_utf8(before_nul(buffer@))),
        rc != 1 ==> r is ErrstringFailure,
{
    if rc == 1 {
        CallOutcome::Value(buffer_to_string(buffer))
    } else {
        CallOutcome::ErrstringFailure
    }
}

/// Outcome of `get_global_param_string`, from its status and output buffer:
/// the buffer's string when the status is 1, else the global error string.
pub fn get_global_param_string(rc: i64, buffer: &[u8]) -> (r: CallOutcome<String>)
    ensures
        rc == 1 ==> (r matches CallOutcome::Value(s) && s@ == lossy_utf8(before_nul(buffer@))),
        rc != 1 ==> r is ErrstringFailure,
{
    status_string(rc, buffer)
}

/// Outcome of `get_parameter_information_string`, from its status and buffer.
pub fn get_parameter_information_string(rc: i64, buffer: &[u8]) -> (r: CallOutcome<String>)
    ensures
        rc == 1 ==> (r matches CallOutcome::Value(s) && s@ == lossy_utf8(before_nul(buffer@))),
        rc != 1 ==> r is ErrstringFailure,
{
    status_string(rc, buffer)
}

/// Outcome of `get_fluid_param_string`, from its status and buffer.
pub fn get_fluid_param_string(rc: i64, buffer: &[u8]) -> (r: CallOutcome<String>)
    ensures
        rc == 1 ==> (r matches CallOutcome::Value(s) && s@ == lossy_utf8(before_nul(buffer@))),
        rc != 1 ==> r is ErrstringFailure,
{
    status_string(rc, buffer)
}

/// Message for a selector that does not fit the output buffer.
pub open spec fn selector_too_long_text() -> Seq<char> {
    "info selector too long"@
}

/// The output buffer for `get_parameter_information_string`, which the C
/// function also reads as its input: `capacity` bytes holding the UTF-8 of
/// the selector (`"Long"`, `"Units"`, `"IO"`, ...) followed by zeros. Fails
/// when the selector and its terminating NUL do not fit.
pub fn parameter_information_buffer(info: &str, capacity: usize) -> (r: Result<Vec<u8>, CoolPropError>)
    ensures
        r is Ok <==> info.spec_bytes().len() + 1 < capacity,
        r matches Ok(buf) ==> {
            &&& buf@.len() == capacity
            &&& buf@.take(info.spec_bytes().len() as int) == info.spec_bytes()
            &&& forall|k: int| info.spec_bytes().len() <= k < capacity ==> #[trigger] buf@[k] == 0
        },
        r matches Err(e) ==> e.0@ == selector_too_long_text(),
{
    let bytes = info.as_bytes();
    let n = bytes.len();
    if capacity == 0 || n >= capacity - 1 {
        return Err(CoolPropError(String::from_str("info selector too long")));
    }
    let mut buf: Vec<u8> = Vec::new();
    let mut k: usize = 0;
    while k < capacity
        invariant
            n == bytes@.len(),
            bytes@ == info.spec_bytes(),
            n + 1 < capacity,
            k <= capacity,
            buf@.len() == k,
            forall|j: int| 0 <= j < k && j < n ==> #[trigger] buf@[j] == bytes@[j],
            forall|j: int| n <= j < k ==> #[trigger] buf@[j] == 0,
        decreases capacity - k,
    {
        if k < n {
            buf.push(bytes[k]);
        } else {
            buf.push(0u8);
        }
        k = k + 1;
    }
    assert(buf@.take(n as int) =~= bytes@);
    Ok(buf)
}

/// Message for a fluid/parameter pair that has no string.
pub open spec fn invalid_pair_message(fluid: Seq<char>, param: Seq<char>) -> Seq<char> {
    "invalid fluid/param pair "@ + fluid + "/"@ + param
}

/// Outcome of `get_fluid_param_string_len`: the length when it is not
/// negative, an error naming the pair otherwise.
pub fn get_fluid_param_string_len(len: i64, fluid: &str, param: &str) -> (r: Result<i64, CoolPropError>)
    ensures
        len >= 0 ==> r == Ok::<i64, CoolPropError>(len),
        len < 0 ==> (r matches Err(e) && e.0@ == invalid_pair_message(fluid@, param@)),
{
    if len >= 0 {
        Ok(len)
    } else {
        let mut m = String::from_str("invalid fluid/param pair ");
        m.append(fluid);
        m.append("/");
        m.append(param);
        Err(CoolPropError(m))
    }
}

/// Message for a parameter name CoolProp does not know.
pub open spec fn invalid_param_message(name: Seq<char>) -> Seq<char> {
    "invalid CoolProp parameter name: "@ + debug_text(name)
}

/// Message for an input pair name CoolProp does not know.
pub open spec fn invalid_pair_name_message(name: Seq<char>) -> Seq<char> {
    "invalid CoolProp input pair name: "@ + debug_text(name)
}

/// Outcome of `get_param_index`: the index when it is not negative.
pub fn get_param_index(index: i64, name: &str) -> (r: Result<i64, CoolPropError>)
    ensures
        index >= 0 ==> r == Ok::<i64, CoolPropError>(index),
        index < 0 ==> (r matches Err(e) && e.0@ == invalid_param_message(name@)),
{
    if index >= 0 {
        Ok(index)
    } else {
        let mut m = String::from_str("invalid CoolProp parameter name: ");
        let quoted = debug_quote(name);
        m.append(quoted.as_str());
        Err(CoolPropError(m))
    }
}

/// Outcome of `get_input_pair_index`: the index when it is not negative.
pub fn get_input_pair_index(index: i64, name: &str) -> (r: Result<i64, CoolPropError>)
    ensures
        index >= 0 ==> r == Ok::<i64, CoolPropError>(index),
        index < 0 ==> (r matches Err(e) && e.0@ == invalid_pair_name_message(name@)),
{
    if index >= 0 {
        Ok(index)
    } else {
        let mut m = String::from_str("invalid CoolProp input pair name: ");
        let quoted = debug_quote(name);
        m.append(quoted.as_str());
        Err(CoolPropError(m))
    }
}

/// Outcome of `set_reference_stateS` / `set_reference_stateD`: status 1 is
/// success and is handed back, anything else fails with the error string.
pub fn reference_state_status(rc: i32) -> (r: CallOutcome<i64>)
    ensures
        rc == 1 ==> r == CallOutcome::<i64>::Value(1),
        rc != 1 ==> r is ErrstringFailure,
{
    if rc == 1 {
        CallOutcome::Value(1)
    } else {
        CallOutcome::ErrstringFailure
    }
}

/// Message for a failed redirection of standard output.
pub open spec fn redirect_failed_message(file: Seq<char>) -> Seq<char> {
    "could not redirect stdout to "@ + debug_text(file)
}

/// Outcome of `redirect_stdout`: status 1 is success.
pub fn redirect_stdout(rc: i64, file: &str) -> (r: Result<(), CoolPropError>)
    ensures
        r is Ok <==> rc == 1,
        r matches Err(e) ==> e.0@ == redirect_failed_message(file@),
{
    if rc == 1 {
        Ok(())
    } else {
        let mut m = String::from_str("could not redirect stdout to ");
        let quoted = debug_quote(file);
        m.append(quoted.as_str());
        Err(CoolPropError(m))
    }
}

/// Message for buffers too small to hold the parts of a fluid string.
pub open spec fn extract_failed_text() -> Seq<char> {
    "could not extract backend/fluid (output buffers too small)"@
}

/// Outcome of `C_extract_backend`: on status 0 the backend and fluid parts
/// read from their buffers.
pub fn extract_backend(rc: i64, backend: &[u8], fluid: &[u8]) -> (r: Result<(String, String), CoolPropError>)
    ensures
        r is Ok <==> rc == 0,
        r matches Ok(p) ==> p.0@ == lossy_utf8(before_nul(backend@)) && p.1@ == lossy_utf8(
            before_nul(fluid@),
        ),
        r matches Err(e) ==> e.0@ == extract_failed_text(),
{
    if rc == 0 {
        Ok((buffer_to_string(backend), buffer_to_string(fluid)))
    } else {
        Err(CoolPropError(String::from_str("could not extract backend/fluid (output buffers too small)")))
    }
}

/// Outcome of `PhaseSI`, from its status and phase buffer. CoolProp reports
/// failures here by writing `"unknown: <message>"` and still returning 1, so
/// that spelling is an error; a genuine unknown phase is the bare `"unknown"`.
/// An empty buffer defers to the global error string.
pub fn phase_si(rc: i64, buffer: &[u8]) -> (r: CallOutcome<String>)
    ensures
        ({
            let phase = lossy_utf8(before_nul(buffer@));
            &&& (rc == 1 && !has_prefix(phase, "unknown:"@)) ==> (r matches CallOutcome::Value(s)
                && s@ == phase)
            &&& !(rc == 1 && !has_prefix(phase, "unknown:"@)) && phase.len() == 0
                ==> r is ErrstringFailure
            &&& !(rc == 1 && !has_prefix(phase, "unknown:"@)) && phase.len() > 0 ==> (r matches CallOutcome::Failed(e)
                && e.0@ == trim_seq(strip_prefix_all(phase, "unknown:"@)))
        }),
{
    let phase = buffer_to_string(buffer);
    let failed_prefix = starts_with(phase.as_str(), "unknown:");
    if rc == 1 && !failed_prefix {
        CallOutcome::Value(phase)
    } else if phase.as_str().is_empty() {
        CallOutcome::ErrstringFailure
    } else {
        proof {
            reveal_strlit("unknown:");
        }
        CallOutcome::Failed(CoolPropError(trim_after_prefixes(phase.as_str(), "unknown:")))
    }
}

/// Outcome of `AbstractState_fluid_names`: on success the names in the
/// comma-separated buffer, trimmed and without empty entries.
pub fn abstract_state_fluid_names(errcode: i64, msg: &[u8], buffer: &[u8]) -> (r: Result<Vec<String>, CoolPropError>)
    ensures
        r is Ok <==> errcode_result(errcode, msg@) is Ok,
        r matches Ok(names) ==> views(names@) == comma_list(lossy_utf8(before_nul(buffer@))),
        r matches Err(e) ==> errcode_result(errcode, msg@) == Err::<(), Seq<char>>(e.0@),
{
    match check_errcode(errcode, msg) {
        Ok(()) => {
            let s = buffer_to_string(buffer);
            Ok(split_comma_list(s.as_str()))
        },
        Err(e) => Err(e),
    }
}

/// Outcome of a call that fills a string buffer and reports through `errcode`.
pub fn errcode_string(errcode: i64, msg: &[u8], buffer: &[u8]) -> (r: Result<String, CoolPropError>)
    ensures
        r is Ok <==> errcode_result(errcode, msg@) is Ok,
        r matches Ok(s) ==> s@ == lossy_utf8(before_nul(buffer@)),
        r matches Err(e) ==> errcode_result(errcode, msg@) == Err::<(), Seq<char>>(e.0@),
{
    match check_errcode(errcode, msg) {
        Ok(()) => Ok(buffer_to_string(buffer)),
        Err(e) => Err(e),
    }
}


/// The first `rows` rows of `cols` entries each of a row-major buffer.
pub open spec fn rows_of<T>(flat: Seq<T>, rows: nat, cols: nat) -> Seq<Seq<T>> {
    Seq::new(rows, |i: int| flat.subrange(i * cols, (i + 1) * cols))
}

proof fn lemma_row_bounds(i: int, rows: int, cols: int)
    by (nonlinear_arith)
    requires
        0 <= i < rows,
        0 <= cols,
    ensures
        0 <= i * cols,
        i * cols + cols == (i + 1) * cols,
        (i + 1) * cols <= rows * cols,
{
}

proof fn lemma_factor_bound(a: int, b: int)
    by (nonlinear_arith)
    requires
        0 <= a,
        1 <= b,
    ensures
        a <= a * b,
        a * b == b * a,
{
}

/// Cuts a row-major buffer into `rows` rows of `cols` entries.
pub fn split_rows<T: Copy>(flat: &Vec<T>, rows: usize, cols: usize) -> (r: Vec<Vec<T>>)
    requires
        rows * cols <= flat@.len(),
    ensures
        r@.len() == rows,
        forall|i: int| 0 <= i < rows ==> (#[trigger] r@[i])@ == rows_of(flat@, rows as nat, cols as nat)[i],
{
    let mut r: Vec<Vec<T>> = Vec::new();
    let mut i: usize = 0;
    let total = flat.len();
    while i < rows
        invariant
            total == flat@.len(),
            rows * cols <= flat@.len(),
            i <= rows,
            r@.len() == i,
            forall|k: int| 0 <= k < i ==> (#[trigger] r@[k])@ == flat@.subrange(k * cols, (k + 1) * cols),
        decreases rows - i,
    {
        proof {
            lemma_row_bounds(i as int, rows as int, cols as int);
        }
        let base = i * cols;
        let mut row: Vec<T> = Vec::new();
        let mut j: usize = 0;
        while j < cols
            invariant
                total == flat@.len(),
                base == i * cols,
                base + cols <= rows * cols,
                rows * cols <= flat@.len(),
                j <= cols,
                row@ == flat@.subrange(base as int, base + j),
            decreases cols - j,
        {
            row.push(flat[base + j]);
            j = j + 1;
            assert(row@ =~= flat@.subrange(base as int, base + j));
        }
        r.push(row);
        i = i + 1;
    }
    r
}

/// Message for input arrays of different lengths.
pub open spec fn point_count_message(n1: int, n2: int) -> Seq<char> {
    "prop1 has "@ + decimal(n1) + " values but prop2 has "@ + decimal(n2)
}

/// `PropsSImulti` needs as many values of the second input as of the first.
pub fn check_point_counts(n1: usize, n2: usize) -> (r: Result<(), CoolPropError>)
    ensures
        r is Ok <==> n1 == n2,
        r matches Err(e) ==> e.0@ == point_count_message(n1 as int, n2 as int),
{
    if n1 == n2 {
        Ok(())
    } else {
        let mut m = String::from_str("prop1 has ");
        let a = usize_decimal_string(n1);
        m.append(a.as_str());
        m.append(" values but prop2 has ");
        let b = usize_decimal_string(n2);
        m.append(b.as_str());
        Err(CoolPropError(m))
    }
}

/// Message for AbstractState input arrays of different lengths.
pub open spec fn value_count_message(n1: int, n2: int) -> Seq<char> {
    "value1 has "@ + decimal(n1) + " entries but value2 has "@ + decimal(n2)
}

/// The vectorized AbstractState updates need as many second as first inputs.
pub fn check_value_counts(n1: usize, n2: usize) -> (r: Result<(), CoolPropError>)
    ensures
        r is Ok <==> n1 == n2,
        r matches Err(e) ==> e.0@ == value_count_message(n1 as int, n2 as int),
{
    if n1 == n2 {
        Ok(())
    } else {
        let mut m = String::from_str("value1 has ");
        let a = usize_decimal_string(n1);
        m.append(a.as_str());
        m.append(" entries but value2 has ");
        let b = usize_decimal_string(n2);
        m.append(b.as_str());
        Err(CoolPropError(m))
    }
}

/// The buffer dimensions for a vectorized call over `a` by `b` items: at
/// least one of each, so that the buffer is never empty.
pub fn multi_capacity(a: usize, b: usize) -> (r: (usize, usize))
    ensures
        r.0 == (if a == 0 { 1 } else { a }),
        r.1 == (if b == 0 { 1 } else { b }),
{
    (component_capacity(a), component_capacity(b))
}

/// The buffer length for `n` components: at least one.
pub fn component_capacity(n: usize) -> (r: usize)
    ensures
        r == (if n == 0 { 1 } else { n }),
{
    if n == 0 {
        1
    } else {
        n
    }
}

/// Outcome of `PropsSImulti`, from the result buffer and the dimensions the
/// C function wrote back: no rows or no columns means failure (reason in
/// the global error string); otherwise one row per input point, one entry
/// per output, cut from the row-major buffer.
pub fn props_si_multi<T: Copy>(result: &Vec<T>, rows: i64, cols: i64) -> (r: CallOutcome<Vec<Vec<T>>>)
    requires
        rows == 0 || cols == 0 || (0 <= rows && 0 <= cols && rows * cols <= result@.len()),
    ensures
        (rows == 0 || cols == 0) ==> r is ErrstringFailure,
        !(rows == 0 || cols == 0) ==> (r matches CallOutcome::Value(m) && m@.len() == rows && forall|
            i: int,
        | 0 <= i < rows ==> (#[trigger] m@[i])@ == rows_of(result@, rows as nat, cols as nat)[i]),
{
    if rows == 0 || cols == 0 {
        CallOutcome::ErrstringFailure
    } else {
        let total = result.len();
        proof {
            lemma_factor_bound(rows as int, cols as int);
            lemma_factor_bound(cols as int, rows as int);
            assert(rows <= total && cols <= total);
        }
        let r = rows as usize;
        let c = cols as usize;
        assert(r == rows && c == cols);
        CallOutcome::Value(split_rows(result, r, c))
    }
}

/// `v` cut to `count` entries as `Vec::truncate(count as usize)` does: a
/// count that is negative or not below the length leaves `v` whole.
pub open spec fn truncated<T>(v: Seq<T>, count: int) -> Seq<T> {
    if 0 <= count < v.len() {
        v.take(count)
    } else {
        v
    }
}

/// Cuts a buffer to the number of entries a C call reported.
pub fn truncate_count<T>(v: Vec<T>, count: i64) -> (r: Vec<T>)
    ensures
        r@ == truncated(v@, count as int),
{
    let mut v = v;
    if count >= 0 && (count as u64) < (v.len() as u64) {
        v.truncate(count as usize);
    }
    v
}

/// Outcome of `Props1SImulti`, from its result buffer and the count it
/// wrote back: a count of zero means failure (reason in the global error
/// string); otherwise the buffer cut to that count.
pub fn props_1_si_multi<T>(result: Vec<T>, count: i64) -> (r: CallOutcome<Vec<T>>)
    ensures
        count == 0 ==> r is ErrstringFailure,
        count != 0 ==> (r matches CallOutcome::Value(v) && v@ == truncated(result@, count as int)),
{
    if count == 0 {
        CallOutcome::ErrstringFailure
    } else {
        CallOutcome::Value(truncate_count(result, count))
    }
}

/// Phase envelope data: one entry per point, and per point one composition
/// entry per component.
pub struct PhaseEnvelope<T> {
    pub t: Vec<T>,
    pub p: Vec<T>,
    pub rhomolar_vap: Vec<T>,
    pub rhomolar_liq: Vec<T>,
    /// `x[point][component]` — liquid composition.
    pub x: Vec<Vec<T>>,
    /// `y[point][component]` — vapor composition.
    pub y: Vec<Vec<T>>,
    pub actual_length: usize,
    pub actual_components: usize,
}

/// The envelope read back from the checked-memory call, which reports how
/// many points and components it filled: each per-point buffer is cut to
/// that many points and the compositions to that many rows of that many
/// components.
pub fn abstract_state_get_phase_envelope<T: Copy>(
    t: Vec<T>,
    p: Vec<T>,
    rhomolar_vap: Vec<T>,
    rhomolar_liq: Vec<T>,
    x: &Vec<T>,
    y: &Vec<T>,
    length: i64,
    components: i64,
) -> (r: PhaseEnvelope<T>)
    requires
        0 <= length <= usize::MAX,
        0 <= components <= usize::MAX,
        length * components <= x@.len(),
        length * components <= y@.len(),
    ensures
        r.actual_length == length,
        r.actual_components == components,
        r.t@ == truncated(t@, length as int),
        r.p@ == truncated(p@, length as int),
        r.rhomolar_vap@ == truncated(rhomolar_vap@, length as int),
        r.rhomolar_liq@ == truncated(rhomolar_liq@, length as int),
        r.x@.len() == length,
        r.y@.len() == length,
        forall|i: int| 0 <= i < length ==> (#[trigger] r.x@[i])@ == rows_of(x@, length as nat, components as nat)[i],
        forall|i: int| 0 <= i < length ==> (#[trigger] r.y@[i])@ == rows_of(y@, length as nat, components as nat)[i],
{
    let n = length as usize;
    let c = components as usize;
    PhaseEnvelope {
        t: truncate_count(t, length),
        p: truncate_count(p, length),
        rhomolar_vap: truncate_count(rhomolar_vap, length),
        rhomolar_liq: truncate_count(rhomolar_liq, length),
        x: split_rows(x, n, c),
        y: split_rows(y, n, c),
        actual_length: n,
        actual_components: c,
    }
}

/// The envelope read back from the raw call, which fills exactly `length`
/// points: the per-point buffers are kept whole and the compositions cut
/// into `length` rows of `components` entries.
pub fn abstract_state_get_phase_envelope_raw<T: Copy>(
    t: Vec<T>,
    p: Vec<T>,
    rhomolar_vap: Vec<T>,
    rhomolar_liq: Vec<T>,
    x: &Vec<T>,
    y: &Vec<T>,
    length: usize,
    components: usize,
) -> (r: PhaseEnvelope<T>)
    requires
        length * components <= x@.len(),
        length * components <= y@.len(),
    ensures
        r.actual_length == length,
        r.actual_components == components,
        r.t == t,
        r.p == p,
        r.rhomolar_vap == rhomolar_vap,
        r.rhomolar_liq == rhomolar_liq,
        r.x@.len() == length,
        r.y@.len() == length,
        forall|i: int| 0 <= i < length ==> (#[trigger] r.x@[i])@ == rows_of(x@, length as nat, components as nat)[i],
        forall|i: int| 0 <= i < length ==> (#[trigger] r.y@[i])@ == rows_of(y@, length as nat, components as nat)[i],
{
    PhaseEnvelope {
        t,
        p,
        rhomolar_vap,
        rhomolar_liq,
        x: split_rows(x, length, components),
        y: split_rows(y, length, components),
        actual_length: length,
        actual_components: components,
    }
}

/// Spinodal data: one entry per point.
pub struct Spinodal<T> {
    pub tau: Vec<T>,
    pub delta: Vec<T>,
    pub m1: Vec<T>,
}

/// How much of a buffer the call filled, given which entries still hold the
/// zero it was cleared to: everything before the first such entry, or the
/// whole buffer when there is none.
pub open spec fn filled_length(unfilled: Seq<bool>) -> int {
    match unfilled.index_of_first(true) {
        Some(i) => i,
        None => unfilled.len() as int,
    }
}

/// The index of the first `true` in `flags`, or the length when there is none.
fn first_set(flags: &Vec<bool>) -> (n: usize)
    ensures
        n == filled_length(flags@),
{
    let mut i: usize = 0;
    while i < flags.len() && !flags[i]
        invariant
            i <= flags@.len(),
            forall|j: int| 0 <= j < i ==> !flags@[j],
        decreases flags@.len() - i,
    {
        i = i + 1;
    }
    proof {
        flags@.index_of_first_ensures(true);
        if i < flags@.len() {
            assert(flags@[i as int]);
        }
    }
    i
}

/// The spinodal read back from its zero-cleared buffers: the C call does
/// not report how many points it wrote, and a real reciprocal reduced
/// temperature is never zero, so the data ends where `tau` first holds zero
/// (`tau_is_zero` flags those entries). Each buffer is cut there.
pub fn abstract_state_get_spinodal<T>(tau: Vec<T>, delta: Vec<T>, m1: Vec<T>, tau_is_zero: &Vec<bool>) -> (r: Spinodal<T>)
    ensures
        r.tau@ == truncated(tau@, filled_length(tau_is_zero@)),
        r.delta@ == truncated(delta@, filled_length(tau_is_zero@)),
        r.m1@ == truncated(m1@, filled_length(tau_is_zero@)),
{
    let n = first_set(tau_is_zero);
    Spinodal {
        tau: truncate_len(tau, n),
        delta: truncate_len(delta, n),
        m1: truncate_len(m1, n),
    }
}

/// `v` cut to `n` entries, as `Vec::truncate` does.
fn truncate_len<T>(v: Vec<T>, n: usize) -> (r: Vec<T>)
    ensures
        r@ == truncated(v@, n as int),
{
    let mut v = v;
    if n < v.len() {
        v.truncate(n);
    }
    v
}

/// A critical point of a mixture.
pub struct CriticalPoint<T> {
    pub t: T,
    pub p: T,
    pub rhomolar: T,
    pub stable: bool,
}

/// The critical points among the first `n` entries of the buffers, in order:
/// those flagged `genuine`, each with its stability flag read as nonzero.
pub open spec fn kept_points<T>(
    t: Seq<T>,
    p: Seq<T>,
    rhomolar: Seq<T>,
    stable: Seq<i64>,
    genuine: Seq<bool>,
    n: nat,
) -> Seq<CriticalPoint<T>>
    decreases n,
{
    if n == 0 {
        Seq::empty()
    } else {
        let before = kept_points(t, p, rhomolar, stable, genuine, (n - 1) as nat);
        let i = n - 1;
        if genuine[i] {
            before.push(CriticalPoint { t: t[i], p: p[i], rhomolar: rhomolar[i], stable: stable[i] != 0 })
        } else {
            before
        }
    }
}

/// The number of entries that all five buffers have.
pub open spec fn common_length(a: nat, b: nat, c: nat, d: nat, e: nat) -> nat {
    let ab = if a <= b { a } else { b };
    let cd = if c <= d { c } else { d };
    let abcd = if ab <= cd { ab } else { cd };
    if abcd <= e { abcd } else { e }
}

/// The critical points read back from their zero-cleared buffers: the C call
/// does not report how many it wrote, and a genuine critical point has positive
/// temperature and pressure, so only the entries flagged `genuine` (those with
/// both positive) are kept, in order.
pub fn abstract_state_all_critical_points<T: Copy>(
    t: &Vec<T>,
    p: &Vec<T>,
    rhomolar: &Vec<T>,
    stable: &Vec<i64>,
    genuine: &Vec<bool>,
) -> (r: Vec<CriticalPoint<T>>)
    ensures
        r@ == kept_points(
            t@,
            p@,
            rhomolar@,
            stable@,
            genuine@,
            common_length(t@.len(), p@.len(), rhomolar@.len(), stable@.len(), genuine@.len()),
        ),
{
    let ghost n = common_length(t@.len(), p@.len(), rhomolar@.len(), stable@.len(), genuine@.len());
    let mut r: Vec<CriticalPoint<T>> = Vec::new();
    let mut i: usize = 0;
    while i < t.len() && i < p.len() && i < rhomolar.len() && i < stable.len() && i < genuine.len()
        invariant
            i <= n,
            n == common_length(t@.len(), p@.len(), rhomolar@.len(), stable@.len(), genuine@.len()),
            r@ == kept_points(t@, p@, rhomolar@, stable@, genuine@, i as nat),
        decreases n - i,
    {
        if genuine[i] {
            r.push(CriticalPoint { t: t[i], p: p[i], rhomolar: rhomolar[i], stable: stable[i] != 0 });
        }
        i = i + 1;
    }
    r
}

} // verus!
