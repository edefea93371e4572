use coolprop_server::error::ApiError;
use coolprop_server::error::CoolPropError;
use coolprop_server::state::AppState;

#[test]
fn handles_are_known_between_registration_and_release() {
    let mut app = AppState::new();
    assert!(matches!(app.require_handle(5), Err(ApiError::UnknownHandle(5))));
    app.insert_handle(5);
    app.insert_handle(7);
    assert!(app.require_handle(5).is_ok());
    assert!(app.require_handle(7).is_ok());
    assert!(matches!(app.require_handle(6), Err(ApiError::UnknownHandle(6))));
    app.remove_handle(5);
    assert!(matches!(app.require_handle(5), Err(ApiError::UnknownHandle(5))));
    assert!(app.require_handle(7).is_ok());
    app.remove_handle(5);
    assert!(app.require_handle(7).is_ok());
}

#[test]
fn unknown_handle_is_404() {
    let app = AppState::new();
    let err = app.require_handle(999999).unwrap_err();
    assert_eq!(err.parts().0, 404);
}

#[test]
fn create_registers_only_a_returned_handle() {
    let mut app = AppState::new();
    assert_eq!(app.record_created(Ok(3)).unwrap(), 3);
    assert!(app.require_handle(3).is_ok());
    match app.record_created(Err(CoolPropError("bad fluid".to_string()))) {
        Err(ApiError::CoolProp(m)) => assert_eq!(m, "bad fluid"),
        other => panic!("unexpected {other:?}"),
    }
    assert!(app.require_handle(3).is_ok());
}

#[test]
fn failed_free_keeps_the_handle_and_successful_free_forgets_it() {
    let mut app = AppState::new();
    app.record_created(Ok(8)).unwrap();
    match app.record_freed(8, Err(CoolPropError("busy".to_string()))) {
        Err(ApiError::CoolProp(m)) => assert_eq!(m, "busy"),
        other => panic!("unexpected {other:?}"),
    }
    assert!(app.require_handle(8).is_ok());
    assert!(app.record_freed(8, Ok(())).is_ok());
    let err = app.require_handle(8).unwrap_err();
    assert!(matches!(err, ApiError::UnknownHandle(8)));
    assert_eq!(err.parts().0, 404);
}
