//! The mapping between every function exported by CoolProp's C API
//! (`CoolPropLib.h`, v8.0.0) and the HTTP route that exposes it: each of the
//! 71 exported functions is served by exactly one route.

use vstd::prelude::*;

verus! {

/// The C symbol of the `i`-th entry of the table.
pub open spec fn symbol_at(i: int) -> Seq<char> {
    if i == 0 {
        "Props1SI"@
    } else if i == 1 {
        "Props1SImulti"@
    } else if i == 2 {
        "PropsSI"@
    } else if i == 3 {
        "PropsSImulti"@
    } else if i == 4 {
        "PhaseSI"@
    } else if i == 5 {
        "get_global_param_string"@
    } else if i == 6 {
        "get_parameter_information_string"@
    } else if i == 7 {
        "get_fluid_param_string"@
    } else if i == 8 {
        "get_fluid_param_string_len"@
    } else if i == 9 {
        "set_config_string"@
    } else if i == 10 {
        "set_config_double"@
    } else if i == 11 {
        "set_config_bool"@
    } else if i == 12 {
        "set_departure_functions"@
    } else if i == 13 {
        "set_reference_stateS"@
    } else if i == 14 {
        "set_reference_stateD"@
    } else if i == 15 {
        "propssi_"@
    } else if i == 16 {
        "hapropssi_"@
    } else if i == 17 {
        "haprops_"@
    } else if i == 18 {
        "F2K"@
    } else if i == 19 {
        "K2F"@
    } else if i == 20 {
        "get_param_index"@
    } else if i == 21 {
        "get_input_pair_index"@
    } else if i == 22 {
        "redirect_stdout"@
    } else if i == 23 {
        "get_debug_level"@
    } else if i == 24 {
        "set_debug_level"@
    } else if i == 25 {
        "saturation_ancillary"@
    } else if i == 26 {
        "HAPropsSI"@
    } else if i == 27 {
        "cair_sat"@
    } else if i == 28 {
        "HAProps"@
    } else if i == 29 {
        "AbstractState_factory"@
    } else if i == 30 {
        "AbstractState_fluid_names"@
    } else if i == 31 {
        "AbstractState_free"@
    } else if i == 32 {
        "AbstractState_set_fractions"@
    } else if i == 33 {
        "AbstractState_get_mole_fractions"@
    } else if i == 34 {
        "AbstractState_get_mole_fractions_satState"@
    } else if i == 35 {
        "AbstractState_get_fugacity"@
    } else if i == 36 {
        "AbstractState_get_fugacity_coefficient"@
    } else if i == 37 {
        "AbstractState_update"@
    } else if i == 38 {
        "AbstractState_specify_phase"@
    } else if i == 39 {
        "AbstractState_unspecify_phase"@
    } else if i == 40 {
        "AbstractState_keyed_output"@
    } else if i == 41 {
        "AbstractState_first_saturation_deriv"@
    } else if i == 42 {
        "AbstractState_first_partial_deriv"@
    } else if i == 43 {
        "AbstractState_second_two_phase_deriv"@
    } else if i == 44 {
        "AbstractState_second_partial_deriv"@
    } else if i == 45 {
        "AbstractState_first_two_phase_deriv_splined"@
    } else if i == 46 {
        "AbstractState_first_two_phase_deriv"@
    } else if i == 47 {
        "AbstractState_update_and_common_out"@
    } else if i == 48 {
        "AbstractState_update_and_1_out"@
    } else if i == 49 {
        "AbstractState_update_and_5_out"@
    } else if i == 50 {
        "AbstractState_set_binary_interaction_double"@
    } else if i == 51 {
        "AbstractState_set_cubic_alpha_C"@
    } else if i == 52 {
        "AbstractState_set_fluid_parameter_double"@
    } else if i == 53 {
        "AbstractState_build_phase_envelope"@
    } else if i == 54 {
        "AbstractState_get_phase_envelope_data"@
    } else if i == 55 {
        "AbstractState_get_phase_envelope_data_checkedMemory"@
    } else if i == 56 {
        "AbstractState_build_spinodal"@
    } else if i == 57 {
        "AbstractState_get_spinodal_data"@
    } else if i == 58 {
        "AbstractState_all_critical_points"@
    } else if i == 59 {
        "AbstractState_keyed_output_satState"@
    } else if i == 60 {
        "AbstractState_backend_name"@
    } else if i == 61 {
        "AbstractState_fluid_param_string"@
    } else if i == 62 {
        "AbstractState_phase"@
    } else if i == 63 {
        "AbstractState_saturated_liquid_keyed_output"@
    } else if i == 64 {
        "AbstractState_saturated_vapor_keyed_output"@
    } else if i == 65 {
        "add_fluids_as_JSON"@
    } else if i == 66 {
        "C_is_valid_fluid_string"@
    } else if i == 67 {
        "C_extract_backend"@
    } else if i == 68 {
        "PropsS"@
    } else if i == 69 {
        "Props"@
    } else {
        "Props1"@
    }
}

/// The HTTP method and route of the `i`-th entry of the table.
pub open spec fn route_at(i: int) -> Seq<char> {
    if i == 0 {
        "POST /api/v1/props/1si"@
    } else if i == 1 {
        "POST /api/v1/props/1si-multi"@
    } else if i == 2 {
        "POST /api/v1/props/si"@
    } else if i == 3 {
        "POST /api/v1/props/si-multi"@
    } else if i == 4 {
        "POST /api/v1/props/phase"@
    } else if i == 5 {
        "GET /api/v1/params/global/{param}"@
    } else if i == 6 {
        "GET /api/v1/params/information/{param}"@
    } else if i == 7 {
        "GET /api/v1/fluids/{fluid}/param/{param}"@
    } else if i == 8 {
        "GET /api/v1/fluids/{fluid}/param/{param}/length"@
    } else if i == 9 {
        "PUT /api/v1/config/string"@
    } else if i == 10 {
        "PUT /api/v1/config/double"@
    } else if i == 11 {
        "PUT /api/v1/config/bool"@
    } else if i == 12 {
        "POST /api/v1/config/departure-functions"@
    } else if i == 13 {
        "POST /api/v1/config/reference-state/S"@
    } else if i == 14 {
        "POST /api/v1/config/reference-state/D"@
    } else if i == 15 {
        "POST /api/v1/fortran/propssi"@
    } else if i == 16 {
        "POST /api/v1/fortran/hapropssi"@
    } else if i == 17 {
        "POST /api/v1/fortran/haprops"@
    } else if i == 18 {
        "GET /api/v1/misc/f2k"@
    } else if i == 19 {
        "GET /api/v1/misc/k2f"@
    } else if i == 20 {
        "GET /api/v1/params/index"@
    } else if i == 21 {
        "GET /api/v1/input-pairs/index"@
    } else if i == 22 {
        "POST /api/v1/admin/redirect-stdout"@
    } else if i == 23 {
        "GET /api/v1/misc/debug-level"@
    } else if i == 24 {
        "PUT /api/v1/misc/debug-level"@
    } else if i == 25 {
        "GET /api/v1/misc/saturation-ancillary"@
    } else if i == 26 {
        "POST /api/v1/ha/props-si"@
    } else if i == 27 {
        "POST /api/v1/ha/cair-sat"@
    } else if i == 28 {
        "POST /api/v1/ha/props"@
    } else if i == 29 {
        "POST /api/v1/abstract-state"@
    } else if i == 30 {
        "GET /api/v1/abstract-state/{handle}/fluid-names"@
    } else if i == 31 {
        "DELETE /api/v1/abstract-state/{handle}"@
    } else if i == 32 {
        "POST /api/v1/abstract-state/{handle}/fractions"@
    } else if i == 33 {
        "GET /api/v1/abstract-state/{handle}/mole-fractions"@
    } else if i == 34 {
        "GET /api/v1/abstract-state/{handle}/mole-fractions/sat-state"@
    } else if i == 35 {
        "GET /api/v1/abstract-state/{handle}/fugacity/{i}"@
    } else if i == 36 {
        "GET /api/v1/abstract-state/{handle}/fugacity-coefficient/{i}"@
    } else if i == 37 {
        "POST /api/v1/abstract-state/{handle}/update"@
    } else if i == 38 {
        "POST /api/v1/abstract-state/{handle}/specify-phase"@
    } else if i == 39 {
        "POST /api/v1/abstract-state/{handle}/unspecify-phase"@
    } else if i == 40 {
        "GET /api/v1/abstract-state/{handle}/keyed-output/{param}"@
    } else if i == 41 {
        "POST /api/v1/abstract-state/{handle}/first-saturation-deriv"@
    } else if i == 42 {
        "POST /api/v1/abstract-state/{handle}/first-partial-deriv"@
    } else if i == 43 {
        "POST /api/v1/abstract-state/{handle}/second-two-phase-deriv"@
    } else if i == 44 {
        "POST /api/v1/abstract-state/{handle}/second-partial-deriv"@
    } else if i == 45 {
        "POST /api/v1/abstract-state/{handle}/first-two-phase-deriv-splined"@
    } else if i == 46 {
        "POST /api/v1/abstract-state/{handle}/first-two-phase-deriv"@
    } else if i == 47 {
        "POST /api/v1/abstract-state/{handle}/update-and-common-out"@
    } else if i == 48 {
        "POST /api/v1/abstract-state/{handle}/update-and-1-out"@
    } else if i == 49 {
        "POST /api/v1/abstract-state/{handle}/update-and-5-out"@
    } else if i == 50 {
        "POST /api/v1/abstract-state/{handle}/binary-interaction"@
    } else if i == 51 {
        "POST /api/v1/abstract-state/{handle}/cubic-alpha-c"@
    } else if i == 52 {
        "POST /api/v1/abstract-state/{handle}/fluid-parameter-double"@
    } else if i == 53 {
        "POST /api/v1/abstract-state/{handle}/phase-envelope/build"@
    } else if i == 54 {
        "GET /api/v1/abstract-state/{handle}/phase-envelope/raw"@
    } else if i == 55 {
        "GET /api/v1/abstract-state/{handle}/phase-envelope"@
    } else if i == 56 {
        "POST /api/v1/abstract-state/{handle}/spinodal/build"@
    } else if i == 57 {
        "GET /api/v1/abstract-state/{handle}/spinodal"@
    } else if i == 58 {
        "GET /api/v1/abstract-state/{handle}/all-critical-points"@
    } else if i == 59 {
        "POST /api/v1/abstract-state/{handle}/keyed-output/sat-state"@
    } else if i == 60 {
        "GET /api/v1/abstract-state/{handle}/backend-name"@
    } else if i == 61 {
        "GET /api/v1/abstract-state/{handle}/fluid-param-string"@
    } else if i == 62 {
        "GET /api/v1/abstract-state/{handle}/phase"@
    } else if i == 63 {
        "GET /api/v1/abstract-state/{handle}/saturated-liquid-output/{param}"@
    } else if i == 64 {
        "GET /api/v1/abstract-state/{handle}/saturated-vapor-output/{param}"@
    } else if i == 65 {
        "POST /api/v1/fluids/add-json"@
    } else if i == 66 {
        "GET /api/v1/fluids/is-valid"@
    } else if i == 67 {
        "POST /api/v1/fluids/extract-backend"@
    } else if i == 68 {
        "POST /api/v1/props/legacy-s"@
    } else if i == 69 {
        "POST /api/v1/props/legacy"@
    } else {
        "POST /api/v1/props/legacy/1"@
    }
}

/// The number of functions `CoolPropLib.h` exports.
pub open spec fn exported_count() -> nat {
    71
}

/// Recovers an entry's position from a few characters of its symbol; that
/// such an inverse exists shows no symbol is listed twice.
spec fn symbol_position(s: Seq<char>) -> int {
    if s.len() == 8 {
        if s[0] == 'P' {
            0
        } else if s[0] == 'p' {
            15
        } else if s[0] == 'h' {
            17
        } else {
            27
        }
    } else if s.len() == 13 {
        1
    } else if s.len() == 7 {
        if s[1] == 'r' {
            2
        } else if s[1] == 'h' {
            4
        } else {
            28
        }
    } else if s.len() == 12 {
        3
    } else if s.len() == 23 {
        if s[0] == 'g' {
            5
        } else if s[0] == 's' {
            12
        } else {
            66
        }
    } else if s.len() == 32 {
        if s[14] == 'i' {
            6
        } else if s[14] == 'g' {
            33
        } else {
            61
        }
    } else if s.len() == 22 {
        7
    } else if s.len() == 26 {
        if s[14] == 'm' {
            8
        } else if s[14] == 'g' {
            35
        } else if s[14] == 'k' {
            40
        } else {
            60
        }
    } else if s.len() == 17 {
        if s[11] == 's' {
            9
        } else if s[11] == 'd' {
            10
        } else {
            67
        }
    } else if s.len() == 15 {
        if s[4] == 'c' {
            11
        } else if s[4] == 'p' {
            20
        } else if s[4] == 'r' {
            22
        } else {
            if s[0] == 'g' {
                23
            } else {
                24
            }
        }
    } else if s.len() == 20 {
        if s[19] == 'S' {
            13
        } else if s[19] == 'D' {
            14
        } else if s[19] == 'x' {
            21
        } else if s[19] == 'y' {
            25
        } else {
            37
        }
    } else if s.len() == 10 {
        16
    } else if s.len() == 3 {
        if s[0] == 'F' {
            18
        } else {
            19
        }
    } else if s.len() == 9 {
        26
    } else if s.len() == 21 {
        29
    } else if s.len() == 25 {
        30
    } else if s.len() == 18 {
        if s[0] == 'A' {
            31
        } else {
            65
        }
    } else if s.len() == 27 {
        if s[15] == 'e' {
            32
        } else {
            38
        }
    } else if s.len() == 41 {
        34
    } else if s.len() == 38 {
        36
    } else if s.len() == 29 {
        39
    } else if s.len() == 36 {
        if s[14] == 'f' {
            41
        } else {
            43
        }
    } else if s.len() == 33 {
        if s[14] == 'f' {
            42
        } else {
            58
        }
    } else if s.len() == 34 {
        if s[14] == 's' {
            44
        } else {
            53
        }
    } else if s.len() == 43 {
        if s[15] == 'i' {
            45
        } else if s[15] == 'e' {
            50
        } else {
            63
        }
    } else if s.len() == 35 {
        if s[14] == 'f' {
            46
        } else if s[14] == 'u' {
            47
        } else {
            59
        }
    } else if s.len() == 30 {
        if s[25] == '1' {
            48
        } else {
            49
        }
    } else if s.len() == 31 {
        if s[14] == 's' {
            51
        } else {
            57
        }
    } else if s.len() == 40 {
        52
    } else if s.len() == 37 {
        54
    } else if s.len() == 51 {
        55
    } else if s.len() == 28 {
        56
    } else if s.len() == 19 {
        62
    } else if s.len() == 42 {
        64
    } else if s.len() == 6 {
        if s[5] == 'S' {
            68
        } else {
            70
        }
    } else {
        69
    }
}

/// Recovers an entry's position from a few characters of its route; that
/// such an inverse exists shows no route is listed twice.
spec fn route_position(r: Seq<char>) -> int {
    if r.len() == 22 {
        0
    } else if r.len() == 28 {
        if r[21] == 'i' {
            1
        } else if r[21] == 'p' {
            15
        } else if r[21] == 'h' {
            17
        } else if r[21] == 'g' {
            if r[0] == 'G' {
                23
            } else {
                24
            }
        } else {
            65
        }
    } else if r.len() == 21 {
        if r[13] == 'p' {
            2
        } else {
            28
        }
    } else if r.len() == 27 {
        if r[26] == 'i' {
            3
        } else if r[26] == 'e' {
            29
        } else if r[26] == 'd' {
            66
        } else if r[26] == 's' {
            68
        } else {
            70
        }
    } else if r.len() == 24 {
        if r[20] == 'h' {
            4
        } else if r[20] == 'n' {
            20
        } else if r[20] == 's' {
            26
        } else {
            27
        }
    } else if r.len() == 33 {
        5
    } else if r.len() == 38 {
        if r[0] == 'G' {
            6
        } else {
            31
        }
    } else if r.len() == 40 {
        7
    } else if r.len() == 47 {
        if r[12] == 'f' {
            8
        } else {
            30
        }
    } else if r.len() == 25 {
        if r[19] == 's' {
            9
        } else if r[19] == 'd' {
            10
        } else {
            69
        }
    } else if r.len() == 23 {
        11
    } else if r.len() == 39 {
        12
    } else if r.len() == 37 {
        if r[36] == 'S' {
            13
        } else if r[36] == 'D' {
            14
        } else {
            25
        }
    } else if r.len() == 30 {
        16
    } else if r.len() == 20 {
        if r[17] == 'f' {
            18
        } else {
            19
        }
    } else if r.len() == 29 {
        21
    } else if r.len() == 34 {
        22
    } else if r.len() == 46 {
        32
    } else if r.len() == 50 {
        if r[37] == 'o' {
            33
        } else if r[37] == 's' {
            38
        } else if r[37] == 'c' {
            51
        } else {
            55
        }
    } else if r.len() == 60 {
        if r[36] == 'm' {
            34
        } else {
            36
        }
    } else if r.len() == 48 {
        if r[36] == 'f' {
            35
        } else {
            60
        }
    } else if r.len() == 43 {
        37
    } else if r.len() == 52 {
        39
    } else if r.len() == 56 {
        if r[0] == 'G' {
            40
        } else {
            42
        }
    } else if r.len() == 59 {
        if r[39] == 'r' {
            41
        } else if r[39] == 'c' {
            43
        } else if r[39] == 'u' {
            52
        } else {
            59
        }
    } else if r.len() == 57 {
        if r[37] == 's' {
            44
        } else {
            53
        }
    } else if r.len() == 66 {
        if r[0] == 'P' {
            45
        } else {
            64
        }
    } else if r.len() == 58 {
        if r[37] == 'f' {
            46
        } else {
            47
        }
    } else if r.len() == 53 {
        if r[48] == '1' {
            48
        } else {
            49
        }
    } else if r.len() == 55 {
        if r[0] == 'P' {
            50
        } else {
            58
        }
    } else if r.len() == 54 {
        if r[36] == 'p' {
            54
        } else {
            61
        }
    } else if r.len() == 51 {
        56
    } else if r.len() == 44 {
        57
    } else if r.len() == 41 {
        62
    } else if r.len() == 67 {
        63
    } else {
        67
    }
}

proof fn lemma_symbol_position(i: int)
    requires
        0 <= i < 71,
    ensures
        symbol_position(symbol_at(i)) == i,
{
    reveal_strlit("Props1SI");
    reveal_strlit("Props1SImulti");
    reveal_strlit("PropsSI");
    reveal_strlit("PropsSImulti");
    reveal_strlit("PhaseSI");
    reveal_strlit("get_global_param_string");
    reveal_strlit("get_parameter_information_string");
    reveal_strlit("get_fluid_param_string");
    reveal_strlit("get_fluid_param_string_len");
    reveal_strlit("set_config_string");
    reveal_strlit("set_config_double");
    reveal_strlit("set_config_bool");
    reveal_strlit("set_departure_functions");
    reveal_strlit("set_reference_stateS");
    reveal_strlit("set_reference_stateD");
    reveal_strlit("propssi_");
    reveal_strlit("hapropssi_");
    reveal_strlit("haprops_");
    reveal_strlit("F2K");
    reveal_strlit("K2F");
    reveal_strlit("get_param_index");
    reveal_strlit("get_input_pair_index");
    reveal_strlit("redirect_stdout");
    reveal_strlit("get_debug_level");
    reveal_strlit("set_debug_level");
    reveal_strlit("saturation_ancillary");
    reveal_strlit("HAPropsSI");
    reveal_strlit("cair_sat");
    reveal_strlit("HAProps");
    reveal_strlit("AbstractState_factory");
    reveal_strlit("AbstractState_fluid_names");
    reveal_strlit("AbstractState_free");
    reveal_strlit("AbstractState_set_fractions");
    reveal_strlit("AbstractState_get_mole_fractions");
    reveal_strlit("AbstractState_get_mole_fractions_satState");
    reveal_strlit("AbstractState_get_fugacity");
    reveal_strlit("AbstractState_get_fugacity_coefficient");
    reveal_strlit("AbstractState_update");
    reveal_strlit("AbstractState_specify_phase");
    reveal_strlit("AbstractState_unspecify_phase");
    reveal_strlit("AbstractState_keyed_output");
    reveal_strlit("AbstractState_first_saturation_deriv");
    reveal_strlit("AbstractState_first_partial_deriv");
    reveal_strlit("AbstractState_second_two_phase_deriv");
    reveal_strlit("AbstractState_second_partial_deriv");
    reveal_strlit("AbstractState_first_two_phase_deriv_splined");
    reveal_strlit("AbstractState_first_two_phase_deriv");
    reveal_strlit("AbstractState_update_and_common_out");
    reveal_strlit("AbstractState_update_and_1_out");
    reveal_strlit("AbstractState_update_and_5_out");
    reveal_strlit("AbstractState_set_binary_interaction_double");
    reveal_strlit("AbstractState_set_cubic_alpha_C");
    reveal_strlit("AbstractState_set_fluid_parameter_double");
    reveal_strlit("AbstractState_build_phase_envelope");
    reveal_strlit("AbstractState_get_phase_envelope_data");
    reveal_strlit("AbstractState_get_phase_envelope_data_checkedMemory");
    reveal_strlit("AbstractState_build_spinodal");
    reveal_strlit("AbstractState_get_spinodal_data");
    reveal_strlit("AbstractState_all_critical_points");
    reveal_strlit("AbstractState_keyed_output_satState");
    reveal_strlit("AbstractState_backend_name");
    reveal_strlit("AbstractState_fluid_param_string");
    reveal_strlit("AbstractState_phase");
    reveal_strlit("AbstractState_saturated_liquid_keyed_output");
    reveal_strlit("AbstractState_saturated_vapor_keyed_output");
    reveal_strlit("add_fluids_as_JSON");
    reveal_strlit("C_is_valid_fluid_string");
    reveal_strlit("C_extract_backend");
    reveal_strlit("PropsS");
    reveal_strlit("Props");
    reveal_strlit("Props1");
}

proof fn lemma_route_position(i: int)
    requires
        0 <= i < 71,
    ensures
        route_position(route_at(i)) == i,
{
    reveal_strlit("POST /api/v1/props/1si");
    reveal_strlit("POST /api/v1/props/1si-multi");
    reveal_strlit("POST /api/v1/props/si");
    reveal_strlit("POST /api/v1/props/si-multi");
    reveal_strlit("POST /api/v1/props/phase");
    reveal_strlit("GET /api/v1/params/global/{param}");
    reveal_strlit("GET /api/v1/params/information/{param}");
    reveal_strlit("GET /api/v1/fluids/{fluid}/param/{param}");
    reveal_strlit("GET /api/v1/fluids/{fluid}/param/{param}/length");
    reveal_strlit("PUT /api/v1/config/string");
    reveal_strlit("PUT /api/v1/config/double");
    reveal_strlit("PUT /api/v1/config/bool");
    reveal_strlit("POST /api/v1/config/departure-functions");
    reveal_strlit("POST /api/v1/config/reference-state/S");
    reveal_strlit("POST /api/v1/config/reference-state/D");
    reveal_strlit("POST /api/v1/fortran/propssi");
    reveal_strlit("POST /api/v1/fortran/hapropssi");
    reveal_strlit("POST /api/v1/fortran/haprops");
    reveal_strlit("GET /api/v1/misc/f2k");
    reveal_strlit("GET /api/v1/misc/k2f");
    reveal_strlit("GET /api/v1/params/index");
    reveal_strlit("GET /api/v1/input-pairs/index");
    reveal_strlit("POST /api/v1/admin/redirect-stdout");
    reveal_strlit("GET /api/v1/misc/debug-level");
    reveal_strlit("PUT /api/v1/misc/debug-level");
    reveal_strlit("GET /api/v1/misc/saturation-ancillary");
    reveal_strlit("POST /api/v1/ha/props-si");
    reveal_strlit("POST /api/v1/ha/cair-sat");
    reveal_strlit("POST /api/v1/ha/props");
    reveal_strlit("POST /api/v1/abstract-state");
    reveal_strlit("GET /api/v1/abstract-state/{handle}/fluid-names");
    reveal_strlit("DELETE /api/v1/abstract-state/{handle}");
    reveal_strlit("POST /api/v1/abstract-state/{handle}/fractions");
    reveal_strlit("GET /api/v1/abstract-state/{handle}/mole-fractions");
    reveal_strlit("GET /api/v1/abstract-state/{handle}/mole-fractions/sat-state");
    reveal_strlit("GET /api/v1/abstract-state/{handle}/fugacity/{i}");
    reveal_strlit("GET /api/v1/abstract-state/{handle}/fugacity-coefficient/{i}");
    reveal_strlit("POST /api/v1/abstract-state/{handle}/update");
    reveal_strlit("POST /api/v1/abstract-state/{handle}/specify-phase");
    reveal_strlit("POST /api/v1/abstract-state/{handle}/unspecify-phase");
    reveal_strlit("GET /api/v1/abstract-state/{handle}/keyed-output/{param}");
    reveal_strlit("POST /api/v1/abstract-state/{handle}/first-saturation-deriv");
    reveal_strlit("POST /api/v1/abstract-state/{handle}/first-partial-deriv");
    reveal_strlit("POST /api/v1/abstract-state/{handle}/second-two-phase-deriv");
    reveal_strlit("POST /api/v1/abstract-state/{handle}/second-partial-deriv");
    reveal_strlit("POST /api/v1/abstract-state/{handle}/first-two-phase-deriv-splined");
    reveal_strlit("POST /api/v1/abstract-state/{handle}/first-two-phase-deriv");
    reveal_strlit("POST /api/v1/abstract-state/{handle}/update-and-common-out");
    reveal_strlit("POST /api/v1/abstract-state/{handle}/update-and-1-out");
    reveal_strlit("POST /api/v1/abstract-state/{handle}/update-and-5-out");
    reveal_strlit("POST /api/v1/abstract-state/{handle}/binary-interaction");
    reveal_strlit("POST /api/v1/abstract-state/{handle}/cubic-alpha-c");
    reveal_strlit("POST /api/v1/abstract-state/{handle}/fluid-parameter-double");
    reveal_strlit("POST /api/v1/abstract-state/{handle}/phase-envelope/build");
    reveal_strlit("GET /api/v1/abstract-state/{handle}/phase-envelope/raw");
    reveal_strlit("GET /api/v1/abstract-state/{handle}/phase-envelope");
    reveal_strlit("POST /api/v1/abstract-state/{handle}/spinodal/build");
    reveal_strlit("GET /api/v1/abstract-state/{handle}/spinodal");
    reveal_strlit("GET /api/v1/abstract-state/{handle}/all-critical-points");
    reveal_strlit("POST /api/v1/abstract-state/{handle}/keyed-output/sat-state");
    reveal_strlit("GET /api/v1/abstract-state/{handle}/backend-name");
    reveal_strlit("GET /api/v1/abstract-state/{handle}/fluid-param-string");
    reveal_strlit("GET /api/v1/abstract-state/{handle}/phase");
    reveal_strlit("GET /api/v1/abstract-state/{handle}/saturated-liquid-output/{param}");
    reveal_strlit("GET /api/v1/abstract-state/{handle}/saturated-vapor-output/{param}");
    reveal_strlit("POST /api/v1/fluids/add-json");
    reveal_strlit("GET /api/v1/fluids/is-valid");
    reveal_strlit("POST /api/v1/fluids/extract-backend");
    reveal_strlit("POST /api/v1/props/legacy-s");
    reveal_strlit("POST /api/v1/props/legacy");
    reveal_strlit("POST /api/v1/props/legacy/1");
}

/// Each exported function appears once in the table, and each route serves
/// exactly one of them.
pub proof fn law_one_route_per_function()
    ensures
        forall|i: int, j: int|
            0 <= i < exported_count() && 0 <= j < exported_count() && i != j ==> symbol_at(i)
                != symbol_at(j) && route_at(i) != route_at(j),
{
    assert forall|i: int, j: int|
        0 <= i < exported_count() && 0 <= j < exported_count() && i != j implies symbol_at(i)
        != symbol_at(j) && route_at(i) != route_at(j) by {
        lemma_symbol_position(i);
        lemma_symbol_position(j);
        lemma_route_position(i);
        lemma_route_position(j);
    }
}

/// The table of (C symbol, HTTP method and route) pairs.
pub fn coolprop_symbol_to_route() -> (v: Vec<(&'static str, &'static str)>)
    ensures
        v@.len() == exported_count(),
        forall|i: int|
            0 <= i < exported_count() ==> (#[trigger] v@[i]).0@ == symbol_at(i) && v@[i].1@
                == route_at(i),
{
    let mut v: Vec<(&'static str, &'static str)> = Vec::new();
    v.push(("Props1SI", "POST /api/v1/props/1si"));
    v.push(("Props1SImulti", "POST /api/v1/props/1si-multi"));
    v.push(("PropsSI", "POST /api/v1/props/si"));
    v.push(("PropsSImulti", "POST /api/v1/props/si-multi"));
    v.push(("PhaseSI", "POST /api/v1/props/phase"));
    v.push(("get_global_param_string", "GET /api/v1/params/global/{param}"));
    v.push(("get_parameter_information_string", "GET /api/v1/params/information/{param}"));
    v.push(("get_fluid_param_string", "GET /api/v1/fluids/{fluid}/param/{param}"));
    v.push(("get_fluid_param_string_len", "GET /api/v1/fluids/{fluid}/param/{param}/length"));
    v.push(("set_config_string", "PUT /api/v1/config/string"));
    v.push(("set_config_double", "PUT /api/v1/config/double"));
    v.push(("set_config_bool", "PUT /api/v1/config/bool"));
    v.push(("set_departure_functions", "POST /api/v1/config/departure-functions"));
    v.push(("set_reference_stateS", "POST /api/v1/config/reference-state/S"));
    v.push(("set_reference_stateD", "POST /api/v1/config/reference-state/D"));
    v.push(("propssi_", "POST /api/v1/fortran/propssi"));
    v.push(("hapropssi_", "POST /api/v1/fortran/hapropssi"));
    v.push(("haprops_", "POST /api/v1/fortran/haprops"));
    v.push(("F2K", "GET /api/v1/misc/f2k"));
    v.push(("K2F", "GET /api/v1/misc/k2f"));
    v.push(("get_param_index", "GET /api/v1/params/index"));
    v.push(("get_input_pair_index", "GET /api/v1/input-pairs/index"));
    v.push(("redirect_stdout", "POST /api/v1/admin/redirect-stdout"));
    v.push(("get_debug_level", "GET /api/v1/misc/debug-level"));
    v.push(("set_debug_level", "PUT /api/v1/misc/debug-level"));
    v.push(("saturation_ancillary", "GET /api/v1/misc/saturation-ancillary"));
    v.push(("HAPropsSI", "POST /api/v1/ha/props-si"));
    v.push(("cair_sat", "POST /api/v1/ha/cair-sat"));
    v.push(("HAProps", "POST /api/v1/ha/props"));
    v.push(("AbstractState_factory", "POST /api/v1/abstract-state"));
    v.push(("AbstractState_fluid_names", "GET /api/v1/abstract-state/{handle}/fluid-names"));
    v.push(("AbstractState_free", "DELETE /api/v1/abstract-state/{handle}"));
    v.push(("AbstractState_set_fractions", "POST /api/v1/abstract-state/{handle}/fractions"));
    v.push(("AbstractState_get_mole_fractions", "GET /api/v1/abstract-state/{handle}/mole-fractions"));
    v.push(("AbstractState_get_mole_fractions_satState", "GET /api/v1/abstract-state/{handle}/mole-fractions/sat-state"));
    v.push(("AbstractState_get_fugacity", "GET /api/v1/abstract-state/{handle}/fugacity/{i}"));
    v.push(("AbstractState_get_fugacity_coefficient", "GET /api/v1/abstract-state/{handle}/fugacity-coefficient/{i}"));
    v.push(("AbstractState_update", "POST /api/v1/abstract-state/{handle}/update"));
    v.push(("AbstractState_specify_phase", "POST /api/v1/abstract-state/{handle}/specify-phase"));
    v.push(("AbstractState_unspecify_phase", "POST /api/v1/abstract-state/{handle}/unspecify-phase"));
    v.push(("AbstractState_keyed_output", "GET /api/v1/abstract-state/{handle}/keyed-output/{param}"));
    v.push(("AbstractState_first_saturation_deriv", "POST /api/v1/abstract-state/{handle}/first-saturation-deriv"));
    v.push(("AbstractState_first_partial_deriv", "POST /api/v1/abstract-state/{handle}/first-partial-deriv"));
    v.push(("AbstractState_second_two_phase_deriv", "POST /api/v1/abstract-state/{handle}/second-two-phase-deriv"));
    v.push(("AbstractState_second_partial_deriv", "POST /api/v1/abstract-state/{handle}/second-partial-deriv"));
    v.push(("AbstractState_first_two_phase_deriv_splined", "POST /api/v1/abstract-state/{handle}/first-two-phase-deriv-splined"));
    v.push(("AbstractState_first_two_phase_deriv", "POST /api/v1/abstract-state/{handle}/first-two-phase-deriv"));
    v.push(("AbstractState_update_and_common_out", "POST /api/v1/abstract-state/{handle}/update-and-common-out"));
    v.push(("AbstractState_update_and_1_out", "POST /api/v1/abstract-state/{handle}/update-and-1-out"));
    v.push(("AbstractState_update_and_5_out", "POST /api/v1/abstract-state/{handle}/update-and-5-out"));
    v.push(("AbstractState_set_binary_interaction_double", "POST /api/v1/abstract-state/{handle}/binary-interaction"));
    v.push(("AbstractState_set_cubic_alpha_C", "POST /api/v1/abstract-state/{handle}/cubic-alpha-c"));
    v.push(("AbstractState_set_fluid_parameter_double", "POST /api/v1/abstract-state/{handle}/fluid-parameter-double"));
    v.push(("AbstractState_build_phase_envelope", "POST /api/v1/abstract-state/{handle}/phase-envelope/build"));
    v.push(("AbstractState_get_phase_envelope_data", "GET /api/v1/abstract-state/{handle}/phase-envelope/raw"));
    v.push(("AbstractState_get_phase_envelope_data_checkedMemory", "GET /api/v1/abstract-state/{handle}/phase-envelope"));
    v.push(("AbstractState_build_spinodal", "POST /api/v1/abstract-state/{handle}/spinodal/build"));
    v.push(("AbstractState_get_spinodal_data", "GET /api/v1/abstract-state/{handle}/spinodal"));
    v.push(("AbstractState_all_critical_points", "GET /api/v1/abstract-state/{handle}/all-critical-points"));
    v.push(("AbstractState_keyed_output_satState", "POST /api/v1/abstract-state/{handle}/keyed-output/sat-state"));
    v.push(("AbstractState_backend_name", "GET /api/v1/abstract-state/{handle}/backend-name"));
    v.push(("AbstractState_fluid_param_string", "GET /api/v1/abstract-state/{handle}/fluid-param-string"));
    v.push(("AbstractState_phase", "GET /api/v1/abstract-state/{handle}/phase"));
    v.push(("AbstractState_saturated_liquid_keyed_output", "GET /api/v1/abstract-state/{handle}/saturated-liquid-output/{param}"));
    v.push(("AbstractState_saturated_vapor_keyed_output", "GET /api/v1/abstract-state/{handle}/saturated-vapor-output/{param}"));
    v.push(("add_fluids_as_JSON", "POST /api/v1/fluids/add-json"));
    v.push(("C_is_valid_fluid_string", "GET /api/v1/fluids/is-valid"));
    v.push(("C_extract_backend", "POST /api/v1/fluids/extract-backend"));
    v.push(("PropsS", "POST /api/v1/props/legacy-s"));
    v.push(("Props", "POST /api/v1/props/legacy"));
    v.push(("Props1", "POST /api/v1/props/legacy/1"));
    v
}

} // verus!
