//! The configuration keys CoolProp accepts.

use vstd::prelude::*;
use crate::error::CoolPropError;
use crate::text::str_eq;

verus! {

/// The `i`-th configuration key accepted by CoolProp v8.0.0 (from
/// `include/CoolProp/detail/configuration_keys.h`), in alphabetical order.
pub open spec fn config_key_at(i: int) -> Seq<char> {
    if i == 0 {
        "ALLOW_SVDSBTL_IN_PROPSSI"@
    } else if i == 1 {
        "ALTERNATIVE_REFPROP_HMX_BNC_PATH"@
    } else if i == 2 {
        "ALTERNATIVE_REFPROP_LIBRARY_PATH"@
    } else if i == 3 {
        "ALTERNATIVE_REFPROP_PATH"@
    } else if i == 4 {
        "ALTERNATIVE_SVDTABLES_DIRECTORY"@
    } else if i == 5 {
        "ALTERNATIVE_TABLES_DIRECTORY"@
    } else if i == 6 {
        "ASSUME_CRITICAL_POINT_STABLE"@
    } else if i == 7 {
        "CRITICAL_SPLINES_ENABLED"@
    } else if i == 8 {
        "CRITICAL_WITHIN_1UK"@
    } else if i == 9 {
        "DONT_CHECK_PROPERTY_LIMITS"@
    } else if i == 10 {
        "ENABLE_MELTING_CALORIC_HS"@
    } else if i == 11 {
        "ENABLE_SUPERANCILLARIES"@
    } else if i == 12 {
        "FLOAT_PUNCTUATION"@
    } else if i == 13 {
        "HENRYS_LAW_TO_GENERATE_VLE_GUESSES"@
    } else if i == 14 {
        "HSU_D_TWOPHASE_EOS_POLISH"@
    } else if i == 15 {
        "LIST_STRING_DELIMITER"@
    } else if i == 16 {
        "MAXIMUM_TABLE_DIRECTORY_SIZE_IN_GB"@
    } else if i == 17 {
        "MIXTURE_STABILITY_ALGORITHM"@
    } else if i == 18 {
        "NORMALIZE_GAS_CONSTANTS"@
    } else if i == 19 {
        "OVERWRITE_BINARY_INTERACTION"@
    } else if i == 20 {
        "OVERWRITE_DEPARTURE_FUNCTION"@
    } else if i == 21 {
        "OVERWRITE_FLUIDS"@
    } else if i == 22 {
        "PHASE_ENVELOPE_STARTING_PRESSURE_PA"@
    } else if i == 23 {
        "REFPROP_DONT_ESTIMATE_INTERACTION_PARAMETERS"@
    } else if i == 24 {
        "REFPROP_ERROR_THRESHOLD"@
    } else if i == 25 {
        "REFPROP_IGNORE_ERROR_ESTIMATED_INTERACTION_PARAMETERS"@
    } else if i == 26 {
        "REFPROP_RESOLVE_COOLPROP_ALIASES"@
    } else if i == 27 {
        "REFPROP_USE_GERG"@
    } else if i == 28 {
        "REFPROP_USE_PENGROBINSON"@
    } else if i == 29 {
        "R_U_CODATA"@
    } else if i == 30 {
        "SAVE_RAW_TABLES"@
    } else if i == 31 {
        "SPINODAL_MINIMUM_DELTA"@
    } else if i == 32 {
        "SVDSBTL_SAMPLING_THREADS"@
    } else if i == 33 {
        "TABULAR_NX"@
    } else if i == 34 {
        "TABULAR_NY"@
    } else if i == 35 {
        "USE_GUESSES_IN_PROPSSI"@
    } else if i == 36 {
        "VTPR_ALWAYS_RELOAD_LIBRARY"@
    } else {
        "VTPR_UNIFAC_PATH"@
    }
}

/// The configuration keys accepted by CoolProp. They are checked before any
/// setter is called because CoolProp rejects an unknown key with an empty
/// message, which cannot be told apart from success.
pub open spec fn config_keys() -> Seq<Seq<char>> {
    Seq::new(38, |i: int| config_key_at(i))
}

/// Recovers a key's position in the table from its length and a few of its
/// characters; that such an inverse exists shows the keys are distinct.
spec fn config_key_position(k: Seq<char>) -> int {
    if k.len() == 24 {
        if k[2] == 'L' {
            0
        } else if k[2] == 'T' {
            3
        } else if k[2] == 'I' {
            7
        } else if k[2] == 'F' {
            28
        } else {
            32
        }
    } else if k.len() == 32 {
        if k[20] == 'H' {
            1
        } else if k[20] == 'L' {
            2
        } else {
            26
        }
    } else if k.len() == 31 {
        4
    } else if k.len() == 28 {
        if k[10] == 'E' {
            5
        } else if k[10] == 'T' {
            6
        } else if k[10] == 'B' {
            19
        } else {
            20
        }
    } else if k.len() == 19 {
        8
    } else if k.len() == 26 {
        if k[0] == 'D' {
            9
        } else {
            36
        }
    } else if k.len() == 25 {
        if k[0] == 'E' {
            10
        } else {
            14
        }
    } else if k.len() == 23 {
        if k[0] == 'E' {
            11
        } else if k[0] == 'N' {
            18
        } else {
            24
        }
    } else if k.len() == 17 {
        12
    } else if k.len() == 34 {
        if k[0] == 'H' {
            13
        } else {
            16
        }
    } else if k.len() == 21 {
        15
    } else if k.len() == 27 {
        17
    } else if k.len() == 16 {
        if k[0] == 'O' {
            21
        } else if k[0] == 'R' {
            27
        } else {
            37
        }
    } else if k.len() == 35 {
        22
    } else if k.len() == 44 {
        23
    } else if k.len() == 53 {
        25
    } else if k.len() == 10 {
        if k[9] == 'A' {
            29
        } else if k[9] == 'X' {
            33
        } else {
            34
        }
    } else if k.len() == 15 {
        30
    } else {
        if k[0] == 'S' {
            31
        } else {
            35
        }
    }
}

proof fn lemma_config_key_position(i: int)
    requires
        0 <= i < 38,
    ensures
        config_key_position(config_key_at(i)) == i,
{
    reveal_strlit("ALLOW_SVDSBTL_IN_PROPSSI");
    reveal_strlit("ALTERNATIVE_REFPROP_HMX_BNC_PATH");
    reveal_strlit("ALTERNATIVE_REFPROP_LIBRARY_PATH");
    reveal_strlit("ALTERNATIVE_REFPROP_PATH");
    reveal_strlit("ALTERNATIVE_SVDTABLES_DIRECTORY");
    reveal_strlit("ALTERNATIVE_TABLES_DIRECTORY");
    reveal_strlit("ASSUME_CRITICAL_POINT_STABLE");
    reveal_strlit("CRITICAL_SPLINES_ENABLED");
    reveal_strlit("CRITICAL_WITHIN_1UK");
    reveal_strlit("DONT_CHECK_PROPERTY_LIMITS");
    reveal_strlit("ENABLE_MELTING_CALORIC_HS");
    reveal_strlit("ENABLE_SUPERANCILLARIES");
    reveal_strlit("FLOAT_PUNCTUATION");
    reveal_strlit("HENRYS_LAW_TO_GENERATE_VLE_GUESSES");
    reveal_strlit("HSU_D_TWOPHASE_EOS_POLISH");
    reveal_strlit("LIST_STRING_DELIMITER");
    reveal_strlit("MAXIMUM_TABLE_DIRECTORY_SIZE_IN_GB");
    reveal_strlit("MIXTURE_STABILITY_ALGORITHM");
    reveal_strlit("NORMALIZE_GAS_CONSTANTS");
    reveal_strlit("OVERWRITE_BINARY_INTERACTION");
    reveal_strlit("OVERWRITE_DEPARTURE_FUNCTION");
    reveal_strlit("OVERWRITE_FLUIDS");
    reveal_strlit("PHASE_ENVELOPE_STARTING_PRESSURE_PA");
    reveal_strlit("REFPROP_DONT_ESTIMATE_INTERACTION_PARAMETERS");
    reveal_strlit("REFPROP_ERROR_THRESHOLD");
    reveal_strlit("REFPROP_IGNORE_ERROR_ESTIMATED_INTERACTION_PARAMETERS");
    reveal_strlit("REFPROP_RESOLVE_COOLPROP_ALIASES");
    reveal_strlit("REFPROP_USE_GERG");
    reveal_strlit("REFPROP_USE_PENGROBINSON");
    reveal_strlit("R_U_CODATA");
    reveal_strlit("SAVE_RAW_TABLES");
    reveal_strlit("SPINODAL_MINIMUM_DELTA");
    reveal_strlit("SVDSBTL_SAMPLING_THREADS");
    reveal_strlit("TABULAR_NX");
    reveal_strlit("TABULAR_NY");
    reveal_strlit("USE_GUESSES_IN_PROPSSI");
    reveal_strlit("VTPR_ALWAYS_RELOAD_LIBRARY");
    reveal_strlit("VTPR_UNIFAC_PATH");
}

/// No configuration key is listed twice.
pub proof fn law_config_keys_distinct()
    ensures
        config_keys().no_duplicates(),
{
    assert forall|i: int, j: int| 0 <= i < 38 && 0 <= j < 38 && i != j implies config_keys()[i]
        != config_keys()[j] by {
        lemma_config_key_position(i);
        lemma_config_key_position(j);
    }
}

/// The accepted keys are exactly the configuration keys of CoolProp v8.0.0
/// (`include/CoolProp/detail/configuration_keys.h`): each of them is in the
/// table, and the table holds nothing else.
pub proof fn law_config_keys_listed()
    ensures
        config_keys().len() == 38,
        config_keys().contains("ALLOW_SVDSBTL_IN_PROPSSI"@),
        config_keys().contains("ALTERNATIVE_REFPROP_HMX_BNC_PATH"@),
        config_keys().contains("ALTERNATIVE_REFPROP_LIBRARY_PATH"@),
        config_keys().contains("ALTERNATIVE_REFPROP_PATH"@),
        config_keys().contains("ALTERNATIVE_SVDTABLES_DIRECTORY"@),
        config_keys().contains("ALTERNATIVE_TABLES_DIRECTORY"@),
        config_keys().contains("ASSUME_CRITICAL_POINT_STABLE"@),
        config_keys().contains("CRITICAL_SPLINES_ENABLED"@),
        config_keys().contains("CRITICAL_WITHIN_1UK"@),
        config_keys().contains("DONT_CHECK_PROPERTY_LIMITS"@),
        config_keys().contains("ENABLE_MELTING_CALORIC_HS"@),
        config_keys().contains("ENABLE_SUPERANCILLARIES"@),
        config_keys().contains("FLOAT_PUNCTUATION"@),
        config_keys().contains("HENRYS_LAW_TO_GENERATE_VLE_GUESSES"@),
        config_keys().contains("HSU_D_TWOPHASE_EOS_POLISH"@),
        config_keys().contains("LIST_STRING_DELIMITER"@),
        config_keys().contains("MAXIMUM_TABLE_DIRECTORY_SIZE_IN_GB"@),
        config_keys().contains("MIXTURE_STABILITY_ALGORITHM"@),
        config_keys().contains("NORMALIZE_GAS_CONSTANTS"@),
        config_keys().contains("OVERWRITE_BINARY_INTERACTION"@),
        config_keys().contains("OVERWRITE_DEPARTURE_FUNCTION"@),
        config_keys().contains("OVERWRITE_FLUIDS"@),
        config_keys().contains("PHASE_ENVELOPE_STARTING_PRESSURE_PA"@),
        config_keys().contains("REFPROP_DONT_ESTIMATE_INTERACTION_PARAMETERS"@),
        config_keys().contains("REFPROP_ERROR_THRESHOLD"@),
        config_keys().contains("REFPROP_IGNORE_ERROR_ESTIMATED_INTERACTION_PARAMETERS"@),
        config_keys().contains("REFPROP_RESOLVE_COOLPROP_ALIASES"@),
        config_keys().contains("REFPROP_USE_GERG"@),
        config_keys().contains("REFPROP_USE_PENGROBINSON"@),
        config_keys().contains("R_U_CODATA"@),
        config_keys().contains("SAVE_RAW_TABLES"@),
        config_keys().contains("SPINODAL_MINIMUM_DELTA"@),
        config_keys().contains("SVDSBTL_SAMPLING_THREADS"@),
        config_keys().contains("TABULAR_NX"@),
        config_keys().contains("TABULAR_NY"@),
        config_keys().contains("USE_GUESSES_IN_PROPSSI"@),
        config_keys().contains("VTPR_ALWAYS_RELOAD_LIBRARY"@),
        config_keys().contains("VTPR_UNIFAC_PATH"@),
{
    assert(config_keys()[0] == "ALLOW_SVDSBTL_IN_PROPSSI"@);
    assert(config_keys()[1] == "ALTERNATIVE_REFPROP_HMX_BNC_PATH"@);
    assert(config_keys()[2] == "ALTERNATIVE_REFPROP_LIBRARY_PATH"@);
    assert(config_keys()[3] == "ALTERNATIVE_REFPROP_PATH"@);
    assert(config_keys()[4] == "ALTERNATIVE_SVDTABLES_DIRECTORY"@);
    assert(config_keys()[5] == "ALTERNATIVE_TABLES_DIRECTORY"@);
    assert(config_keys()[6] == "ASSUME_CRITICAL_POINT_STABLE"@);
    assert(config_keys()[7] == "CRITICAL_SPLINES_ENABLED"@);
    assert(config_keys()[8] == "CRITICAL_WITHIN_1UK"@);
    assert(config_keys()[9] == "DONT_CHECK_PROPERTY_LIMITS"@);
    assert(config_keys()[10] == "ENABLE_MELTING_CALORIC_HS"@);
    assert(config_keys()[11] == "ENABLE_SUPERANCILLARIES"@);
    assert(config_keys()[12] == "FLOAT_PUNCTUATION"@);
    assert(config_keys()[13] == "HENRYS_LAW_TO_GENERATE_VLE_GUESSES"@);
    assert(config_keys()[14] == "HSU_D_TWOPHASE_EOS_POLISH"@);
    assert(config_keys()[15] == "LIST_STRING_DELIMITER"@);
    assert(config_keys()[16] == "MAXIMUM_TABLE_DIRECTORY_SIZE_IN_GB"@);
    assert(config_keys()[17] == "MIXTURE_STABILITY_ALGORITHM"@);
    assert(config_keys()[18] == "NORMALIZE_GAS_CONSTANTS"@);
    assert(config_keys()[19] == "OVERWRITE_BINARY_INTERACTION"@);
    assert(config_keys()[20] == "OVERWRITE_DEPARTURE_FUNCTION"@);
    assert(config_keys()[21] == "OVERWRITE_FLUIDS"@);
    assert(config_keys()[22] == "PHASE_ENVELOPE_STARTING_PRESSURE_PA"@);
    assert(config_keys()[23] == "REFPROP_DONT_ESTIMATE_INTERACTION_PARAMETERS"@);
    assert(config_keys()[24] == "REFPROP_ERROR_THRESHOLD"@);
    assert(config_keys()[25] == "REFPROP_IGNORE_ERROR_ESTIMATED_INTERACTION_PARAMETERS"@);
    assert(config_keys()[26] == "REFPROP_RESOLVE_COOLPROP_ALIASES"@);
    assert(config_keys()[27] == "REFPROP_USE_GERG"@);
    assert(config_keys()[28] == "REFPROP_USE_PENGROBINSON"@);
    assert(config_keys()[29] == "R_U_CODATA"@);
    assert(config_keys()[30] == "SAVE_RAW_TABLES"@);
    assert(config_keys()[31] == "SPINODAL_MINIMUM_DELTA"@);
    assert(config_keys()[32] == "SVDSBTL_SAMPLING_THREADS"@);
    assert(config_keys()[33] == "TABULAR_NX"@);
    assert(config_keys()[34] == "TABULAR_NY"@);
    assert(config_keys()[35] == "USE_GUESSES_IN_PROPSSI"@);
    assert(config_keys()[36] == "VTPR_ALWAYS_RELOAD_LIBRARY"@);
    assert(config_keys()[37] == "VTPR_UNIFAC_PATH"@);
}

/// The table of accepted configuration keys.
pub fn valid_config_keys() -> (v: Vec<&'static str>)
    ensures
        v@.len() == 38,
        forall|i: int| 0 <= i < 38 ==> (#[trigger] v@[i])@ == config_key_at(i),
{
    let mut v: Vec<&'static str> = Vec::new();
    v.push("ALLOW_SVDSBTL_IN_PROPSSI");
    v.push("ALTERNATIVE_REFPROP_HMX_BNC_PATH");
    v.push("ALTERNATIVE_REFPROP_LIBRARY_PATH");
    v.push("ALTERNATIVE_REFPROP_PATH");
    v.push("ALTERNATIVE_SVDTABLES_DIRECTORY");
    v.push("ALTERNATIVE_TABLES_DIRECTORY");
    v.push("ASSUME_CRITICAL_POINT_STABLE");
    v.push("CRITICAL_SPLINES_ENABLED");
    v.push("CRITICAL_WITHIN_1UK");
    v.push("DONT_CHECK_PROPERTY_LIMITS");
    v.push("ENABLE_MELTING_CALORIC_HS");
    v.push("ENABLE_SUPERANCILLARIES");
    v.push("FLOAT_PUNCTUATION");
    v.push("HENRYS_LAW_TO_GENERATE_VLE_GUESSES");
    v.push("HSU_D_TWOPHASE_EOS_POLISH");
    v.push("LIST_STRING_DELIMITER");
    v.push("MAXIMUM_TABLE_DIRECTORY_SIZE_IN_GB");
    v.push("MIXTURE_STABILITY_ALGORITHM");
    v.push("NORMALIZE_GAS_CONSTANTS");
    v.push("OVERWRITE_BINARY_INTERACTION");
    v.push("OVERWRITE_DEPARTURE_FUNCTION");
    v.push("OVERWRITE_FLUIDS");
    v.push("PHASE_ENVELOPE_STARTING_PRESSURE_PA");
    v.push("REFPROP_DONT_ESTIMATE_INTERACTION_PARAMETERS");
    v.push("REFPROP_ERROR_THRESHOLD");
    v.push("REFPROP_IGNORE_ERROR_ESTIMATED_INTERACTION_PARAMETERS");
    v.push("REFPROP_RESOLVE_COOLPROP_ALIASES");
    v.push("REFPROP_USE_GERG");
    v.push("REFPROP_USE_PENGROBINSON");
    v.push("R_U_CODATA");
    v.push("SAVE_RAW_TABLES");
    v.push("SPINODAL_MINIMUM_DELTA");
    v.push("SVDSBTL_SAMPLING_THREADS");
    v.push("TABULAR_NX");
    v.push("TABULAR_NY");
    v.push("USE_GUESSES_IN_PROPSSI");
    v.push("VTPR_ALWAYS_RELOAD_LIBRARY");
    v.push("VTPR_UNIFAC_PATH");
    v
}

/// Message for a configuration key CoolProp does not accept.
pub open spec fn unknown_key_message(key: Seq<char>) -> Seq<char> {
    "unknown configuration key ["@ + key + "] (see the CoolProp documentation for valid keys)"@
}

/// Accepts exactly the keys of the table.
pub fn validate_config_key(key: &str) -> (r: Result<(), CoolPropError>)
    ensures
        r is Ok <==> config_keys().contains(key@),
        r matches Err(e) ==> e.0@ == unknown_key_message(key@),
{
    let keys = valid_config_keys();
    let mut i: usize = 0;
    while i < keys.len()
        invariant
            keys@.len() == 38,
            forall|k: int| 0 <= k < 38 ==> (#[trigger] keys@[k])@ == config_key_at(k),
            i <= keys@.len(),
            forall|k: int| 0 <= k < i ==> config_key_at(k) != key@,
        decreases keys.len() - i,
    {
        if str_eq(keys[i], key) {
            assert(config_keys()[i as int] == key@);
            return Ok(());
        }
        i = i + 1;
    }
    assert(!config_keys().contains(key@)) by {
        if config_keys().contains(key@) {
            let k = choose|k: int| 0 <= k < config_keys().len() && config_keys()[k] == key@;
            assert(config_key_at(k) == key@);
        }
    }
    let mut m = String::from_str("unknown configuration key [");
    m.append(key);
    m.append("] (see the CoolProp documentation for valid keys)");
    Err(CoolPropError(m))
}

} // verus!
