use coolprop_server::error::{ApiError, CoolPropError};

#[test]
fn unknown_handle_is_404_with_the_handle_in_the_message() {
    let (status, code, message) = ApiError::UnknownHandle(999999).parts();
    assert_eq!(status, 404);
    assert_eq!(code, 404);
    assert_eq!(message, "no AbstractState with handle 999999 on this server");
}

#[test]
fn rejected_input_is_400_and_internal_failure_500() {
    assert_eq!(ApiError::CoolProp("bad fluid".into()).parts(), (400, 400, "bad fluid".to_string()));
    assert_eq!(ApiError::BadInput("empty".into()).parts(), (400, 400, "empty".to_string()));
    assert_eq!(ApiError::Internal("oops".into()).parts(), (500, 500, "oops".to_string()));
}

#[test]
fn envelope_carries_code_and_message() {
    let (status, body) = ApiError::UnknownHandle(-3).envelope();
    assert_eq!(status, 404);
    assert_eq!(body.error.code, 404);
    assert_eq!(body.error.message, "no AbstractState with handle -3 on this server");
}

#[test]
fn coolprop_errors_become_400() {
    let e: ApiError = CoolPropError("Bogus is not valid".to_string()).into();
    assert!(matches!(e, ApiError::CoolProp(ref m) if m == "Bogus is not valid"));
    assert_eq!(e.parts().0, 400);
}
