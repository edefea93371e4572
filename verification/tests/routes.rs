use coolprop_server::error::ApiError;
use coolprop_server::routes::abstract_state::{
    capacity, phase_name, require_five_outputs, require_output, BuildPhaseEnvelopeRequest,
    CreateRequest, CriticalPointsParams, PhaseEnvelopeParams, PhaseResponse, SpinodalParams,
};
use coolprop_server::routes::info::InfoKind;
use coolprop_server::routes::props::{check_multi_points, matrix_shape, normalize_fractions, single_char};

fn bad_input(r: ApiError) -> String {
    match r {
        ApiError::BadInput(m) => m,
        other => panic!("expected BadInput, got {other:?}"),
    }
}

#[test]
fn phase_indices_have_names() {
    assert_eq!(phase_name(0), "liquid");
    assert_eq!(phase_name(5), "gas");
    assert_eq!(phase_name(6), "twophase");
    assert_eq!(phase_name(8), "not_imposed");
    assert_eq!(phase_name(42), "phase_42");
    assert_eq!(phase_name(-1), "phase_-1");
    let r = PhaseResponse::new(1);
    assert_eq!(r.phase_index, 1);
    assert_eq!(r.phase, "supercritical");
}

#[test]
fn legacy_names_are_single_characters() {
    assert_eq!(single_char("T", "name1").unwrap(), 'T');
    assert_eq!(
        bad_input(single_char("TT", "name1").unwrap_err()),
        "name1 must be exactly one character, got \"TT\""
    );
    assert_eq!(
        bad_input(single_char("", "name2").unwrap_err()),
        "name2 must be exactly one character, got \"\""
    );
}

#[test]
fn fractions_default_to_an_equal_split() {
    assert_eq!(normalize_fractions(2, &vec![], 0.5).unwrap(), vec![0.5, 0.5]);
    assert_eq!(normalize_fractions(2, &vec![0.3, 0.7], 0.5).unwrap(), vec![0.3, 0.7]);
    assert_eq!(bad_input(normalize_fractions(0, &Vec::<f64>::new(), 1.0).unwrap_err()),
        "fluids must not be empty");
    assert_eq!(bad_input(normalize_fractions(2, &vec![1.0], 0.5).unwrap_err()),
        "got 1 fractions for 2 fluids");
}

#[test]
fn multi_points_must_match_and_not_be_empty() {
    assert!(check_multi_points(2, 2).is_ok());
    assert_eq!(bad_input(check_multi_points(1, 2).unwrap_err()), "prop1 has 1 values but prop2 has 2");
    assert_eq!(bad_input(check_multi_points(0, 0).unwrap_err()), "prop1/prop2 must not be empty");
}

#[test]
fn mixtures_join_their_components() {
    let req = CreateRequest {
        backend: "HEOS".into(),
        fluids: vec!["Propane".into(), "Ethane".into()],
    };
    assert_eq!(req.mixture().unwrap(), "Propane&Ethane");
    let empty = CreateRequest { backend: "HEOS".into(), fluids: vec![] };
    assert_eq!(bad_input(empty.mixture().unwrap_err()), "fluids must not be empty");
}

#[test]
fn capacities_default_and_clamp() {
    assert_eq!(capacity(None, 10, 1, 100), 10);
    assert_eq!(capacity(Some(0), 10, 1, 100), 1);
    assert_eq!(capacity(Some(1000), 10, 1, 100), 100);
    let p = PhaseEnvelopeParams { max_length: None, max_components: Some(5000) };
    assert_eq!(p.checked_capacities(), (10000, 1000));
    assert_eq!(p.raw_capacities(), (1000, 1000));
    assert_eq!(SpinodalParams { max_length: Some(5_000_000) }.points(), 1_000_000);
    assert_eq!(CriticalPointsParams { max_points: None }.points(), 10);
}

#[test]
fn outputs_must_be_given() {
    assert_eq!(require_output(Some(3)).unwrap(), 3);
    assert_eq!(bad_input(require_output::<i64>(None).unwrap_err()),
        "`output` is required for update-and-1-out");
    assert_eq!(require_five_outputs(Some(vec![1, 2, 3, 4, 5])).unwrap(), vec![1, 2, 3, 4, 5]);
    assert_eq!(bad_input(require_five_outputs(Some(vec![1, 2, 3, 4])).unwrap_err()),
        "`outputs` must have exactly 5 entries, got 4");
    assert_eq!(bad_input(require_five_outputs::<i64>(None).unwrap_err()),
        "`outputs` is required for update-and-5-out");
}

#[test]
fn defaults_of_optional_selectors() {
    assert_eq!(InfoKind { info: None }.selector(), "long");
    assert_eq!(InfoKind { info: Some("units".into()) }.selector(), "units");
    assert_eq!(BuildPhaseEnvelopeRequest { level: None }.level_or_default(), "none");
}

#[test]
fn matrix_shape_is_rows_by_first_row_length() {
    assert_eq!(matrix_shape(&vec![vec![1.0, 2.0, 3.0], vec![4.0, 5.0, 6.0]]), vec![2, 3]);
    assert_eq!(matrix_shape::<f64>(&vec![]), vec![0, 0]);
}
