use coolprop_server::calls::{
    abstract_state_all_critical_points, abstract_state_fluid_names, abstract_state_get_phase_envelope,
    abstract_state_get_spinodal,
    abstract_state_get_phase_envelope_raw, check_errcode, check_point_counts, check_scalar,
    check_value_counts, errcode_string, extract_backend, fresh_errstring_or_default,
    get_fluid_param_string_len, get_global_param_string, get_input_pair_index, get_param_index,
    parameter_information_buffer, phase_si, props_1_si_multi, props_si_multi, redirect_stdout,
    reference_state_status, split_rows, truncate_count, void_call_report_errstring, CallOutcome,
};

#[test]
fn errcode_zero_is_success_and_others_carry_a_message() {
    assert!(check_errcode(0, b"ignored\0").is_ok());
    assert_eq!(check_errcode(1, b"boom\0junk").unwrap_err().0, "boom");
    assert_eq!(
        check_errcode(2, b"\0").unwrap_err().0,
        "CoolProp error message did not fit in the message buffer"
    );
    assert_eq!(check_errcode(3, b"\0").unwrap_err().0, "unknown CoolProp error (code 3)");
    assert_eq!(check_errcode(-12, b"\0").unwrap_err().0, "unknown CoolProp error (code -12)");
}

#[test]
fn errstring_conventions() {
    assert_eq!(
        fresh_errstring_or_default(String::new()),
        "CoolProp call failed (no error message was set)"
    );
    assert_eq!(fresh_errstring_or_default("bad fluid".to_string()), "bad fluid");
    assert!(void_call_report_errstring(String::new()).is_ok());
    assert_eq!(void_call_report_errstring("nope".to_string()).unwrap_err().0, "nope");
}

#[test]
fn huge_sentinel_defers_to_the_errstring() {
    assert!(matches!(check_scalar(373.124, true), CallOutcome::Value(v) if v == 373.124));
    assert!(matches!(check_scalar(f64::INFINITY, false), CallOutcome::ErrstringFailure));
}

#[test]
fn status_one_reads_the_buffer() {
    assert!(matches!(get_global_param_string(1, b"8.0.0\0"), CallOutcome::Value(s) if s == "8.0.0"));
    assert!(matches!(get_global_param_string(0, b"8.0.0\0"), CallOutcome::ErrstringFailure));
}

#[test]
fn information_selector_prefills_the_buffer() {
    let buf = parameter_information_buffer("Long", 8).unwrap();
    assert_eq!(buf, vec![b'L', b'o', b'n', b'g', 0, 0, 0, 0]);
    assert!(parameter_information_buffer("Long", 6).is_ok());
    assert_eq!(parameter_information_buffer("Long", 5).unwrap_err().0, "info selector too long");
    assert!(parameter_information_buffer("Long", 0).is_err());
}

#[test]
fn negative_lengths_and_indices_are_errors() {
    assert_eq!(get_fluid_param_string_len(5, "Water", "aliases").unwrap(), 5);
    assert_eq!(
        get_fluid_param_string_len(-1, "NotAFluid", "aliases").unwrap_err().0,
        "invalid fluid/param pair NotAFluid/aliases"
    );
    assert_eq!(get_param_index(0, "T").unwrap(), 0);
    assert_eq!(
        get_param_index(-1, "Bogus").unwrap_err().0,
        "invalid CoolProp parameter name: \"Bogus\""
    );
    assert_eq!(get_input_pair_index(9, "PT_INPUTS").unwrap(), 9);
    assert_eq!(
        get_input_pair_index(-1, "BOGUS_INPUTS").unwrap_err().0,
        "invalid CoolProp input pair name: \"BOGUS_INPUTS\""
    );
}

#[test]
fn status_codes_of_setters() {
    assert!(matches!(reference_state_status(1), CallOutcome::Value(1)));
    assert!(matches!(reference_state_status(0), CallOutcome::ErrstringFailure));
    assert!(redirect_stdout(1, "/dev/stdout").is_ok());
    assert_eq!(
        redirect_stdout(0, "/no/such/dir/f.log").unwrap_err().0,
        "could not redirect stdout to \"/no/such/dir/f.log\""
    );
}

#[test]
fn backend_extraction_reads_both_buffers() {
    let (b, f) = extract_backend(0, b"REFPROP\0", b"Water[0.5]&Ethane[0.5]\0").unwrap();
    assert_eq!(b, "REFPROP");
    assert_eq!(f, "Water[0.5]&Ethane[0.5]");
    assert_eq!(
        extract_backend(1, b"\0", b"\0").unwrap_err().0,
        "could not extract backend/fluid (output buffers too small)"
    );
}

#[test]
fn phase_si_unknown_prefix_is_an_error() {
    assert!(matches!(phase_si(1, b"liquid\0"), CallOutcome::Value(s) if s == "liquid"));
    assert!(matches!(phase_si(1, b"unknown\0"), CallOutcome::Value(s) if s == "unknown"));
    assert!(matches!(phase_si(1, b"unknown: bad input \0"),
        CallOutcome::Failed(e) if e.0 == "bad input"));
    assert!(matches!(phase_si(0, b"\0"), CallOutcome::ErrstringFailure));
    assert!(matches!(phase_si(0, b" twophase\0"), CallOutcome::Failed(e) if e.0 == "twophase"));
}

#[test]
fn fluid_names_are_split_after_success() {
    let names = abstract_state_fluid_names(0, b"\0", b"Propane, Ethane\0").unwrap();
    assert_eq!(names, vec!["Propane", "Ethane"]);
    assert_eq!(abstract_state_fluid_names(1, b"bad handle\0", b"\0").unwrap_err().0, "bad handle");
    assert_eq!(errcode_string(0, b"\0", b"HelmholtzEOSMixtureBackend\0").unwrap(),
        "HelmholtzEOSMixtureBackend");
}

#[test]
fn multi_results_have_one_row_per_point() {
    let flat = vec![1.0, 2.0, 3.0, 4.0, 5.0, 6.0, 0.0, 0.0];
    match props_si_multi(&flat, 2, 3) {
        CallOutcome::Value(rows) => {
            assert_eq!(rows, vec![vec![1.0, 2.0, 3.0], vec![4.0, 5.0, 6.0]]);
        }
        _ => panic!("expected rows"),
    }
    match props_si_multi(&flat, 3, 2) {
        CallOutcome::Value(rows) => {
            assert_eq!(rows, vec![vec![1.0, 2.0], vec![3.0, 4.0], vec![5.0, 6.0]]);
        }
        _ => panic!("expected rows"),
    }
    assert!(matches!(props_si_multi(&flat, 0, 3), CallOutcome::ErrstringFailure));
    assert!(matches!(props_si_multi(&flat, 2, 0), CallOutcome::ErrstringFailure));
    assert_eq!(split_rows(&vec![1, 2, 3, 4], 2, 2), vec![vec![1, 2], vec![3, 4]]);
}

#[test]
fn counts_reported_by_c_cut_the_buffers() {
    assert!(matches!(props_1_si_multi(vec![1.0, 2.0, 3.0], 2), CallOutcome::Value(v) if v == vec![1.0, 2.0]));
    assert!(matches!(props_1_si_multi(vec![1.0, 2.0], 0), CallOutcome::ErrstringFailure));
    assert_eq!(truncate_count(vec![1, 2, 3], -1), vec![1, 2, 3]);
    assert_eq!(truncate_count(vec![1, 2, 3], 7), vec![1, 2, 3]);
    assert_eq!(truncate_count(vec![1, 2, 3], 1), vec![1]);
}

#[test]
fn mismatched_input_lengths_are_rejected() {
    assert!(check_point_counts(2, 2).is_ok());
    assert_eq!(check_point_counts(2, 3).unwrap_err().0, "prop1 has 2 values but prop2 has 3");
    assert!(check_value_counts(0, 0).is_ok());
    assert_eq!(check_value_counts(1, 4).unwrap_err().0, "value1 has 1 entries but value2 has 4");
}

#[test]
fn phase_envelopes_are_cut_to_the_reported_size() {
    let x = vec![0.1, 0.9, 0.2, 0.8, 0.0, 0.0];
    let y = vec![0.3, 0.7, 0.4, 0.6, 0.0, 0.0];
    let pe = abstract_state_get_phase_envelope(
        vec![300.0, 310.0, 0.0],
        vec![1e5, 2e5, 0.0],
        vec![1.0, 2.0, 0.0],
        vec![3.0, 4.0, 0.0],
        &x,
        &y,
        2,
        2,
    );
    assert_eq!(pe.actual_length, 2);
    assert_eq!(pe.actual_components, 2);
    assert_eq!(pe.t, vec![300.0, 310.0]);
    assert_eq!(pe.x, vec![vec![0.1, 0.9], vec![0.2, 0.8]]);
    assert_eq!(pe.y, vec![vec![0.3, 0.7], vec![0.4, 0.6]]);
    let raw = abstract_state_get_phase_envelope_raw(
        vec![1.0, 2.0, 3.0],
        vec![1.0, 2.0, 3.0],
        vec![1.0, 2.0, 3.0],
        vec![1.0, 2.0, 3.0],
        &x,
        &y,
        3,
        2,
    );
    assert_eq!(raw.t.len(), 3);
    assert_eq!(raw.x, vec![vec![0.1, 0.9], vec![0.2, 0.8], vec![0.0, 0.0]]);
}

#[test]
fn spinodal_ends_at_first_zero_tau() {
    let tau = vec![1.5, 1.2, 0.0, 0.0];
    let zero: Vec<bool> = tau.iter().map(|&v| v == 0.0).collect();
    let sp = abstract_state_get_spinodal(tau, vec![2.0, 2.5, 0.0, 0.0], vec![-1.0, -0.5, 0.0, 0.0], &zero);
    assert_eq!(sp.tau, vec![1.5, 1.2]);
    assert_eq!(sp.delta, vec![2.0, 2.5]);
    assert_eq!(sp.m1, vec![-1.0, -0.5]);
}

#[test]
fn spinodal_without_zero_keeps_everything_and_leading_zero_keeps_nothing() {
    let full = abstract_state_get_spinodal(vec![1.0, 2.0], vec![3.0, 4.0], vec![5.0, 6.0], &vec![false, false]);
    assert_eq!(full.tau, vec![1.0, 2.0]);
    assert_eq!(full.m1, vec![5.0, 6.0]);
    let none = abstract_state_get_spinodal(vec![0.0, 2.0], vec![3.0, 4.0], vec![5.0, 6.0], &vec![true, false]);
    assert!(none.tau.is_empty() && none.delta.is_empty() && none.m1.is_empty());
}

#[test]
fn critical_points_keep_only_flagged_entries_in_order() {
    let t = vec![300.0, 0.0, 320.0];
    let p = vec![4.0e6, 0.0, 5.0e6];
    let rho = vec![10.0, 0.0, 12.0];
    let stable = vec![1i64, 0, 0];
    let genuine: Vec<bool> = t.iter().zip(&p).map(|(&t, &p)| t > 0.0 && p > 0.0).collect();
    let pts = abstract_state_all_critical_points(&t, &p, &rho, &stable, &genuine);
    assert_eq!(pts.len(), 2);
    assert_eq!((pts[0].t, pts[0].p, pts[0].rhomolar, pts[0].stable), (300.0, 4.0e6, 10.0, true));
    assert_eq!((pts[1].t, pts[1].p, pts[1].rhomolar, pts[1].stable), (320.0, 5.0e6, 12.0, false));
}
