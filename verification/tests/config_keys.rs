use coolprop_server::config::{valid_config_keys, validate_config_key};

#[test]
fn valid_config_keys_table_has_no_duplicates() {
    let mut keys = valid_config_keys();
    let n = keys.len();
    keys.sort_unstable();
    keys.dedup();
    assert_eq!(n, keys.len());
}

#[test]
fn config_key_validation_rejects_unknown_keys() {
    assert!(validate_config_key("NOT_A_REAL_KEY").is_err());
}

#[test]
fn config_key_validation_message_names_the_key() {
    let err = validate_config_key("NOT_A_REAL_KEY").unwrap_err();
    assert_eq!(
        err.0,
        "unknown configuration key [NOT_A_REAL_KEY] (see the CoolProp documentation for valid keys)"
    );
}

#[test]
fn config_key_validation_accepts_every_listed_key() {
    for key in valid_config_keys() {
        assert!(validate_config_key(key).is_ok(), "{key}");
    }
    assert!(validate_config_key("R_U_CODATA").is_ok());
    assert!(validate_config_key("r_u_codata").is_err());
    assert!(validate_config_key("").is_err());
}

#[test]
fn config_keys_are_sorted_and_complete() {
    let keys = valid_config_keys();
    assert_eq!(keys.len(), 38);
    assert_eq!(keys[0], "ALLOW_SVDSBTL_IN_PROPSSI");
    assert_eq!(keys[37], "VTPR_UNIFAC_PATH");
    assert!(keys.windows(2).all(|w| w[0] < w[1]));
}
