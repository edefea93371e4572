use coolprop_server::dto::{InputPair, Param, Resolution};

#[test]
fn indices_resolve_directly() {
    assert!(matches!(Param::Index(3).resolve(), Resolution::Index(3)));
    assert!(matches!(InputPair::Index(9).resolve(), Resolution::Index(9)));
}

#[test]
fn digit_strings_are_raw_indices() {
    assert!(matches!(Param::Name("12".into()).resolve(), Resolution::Index(12)));
    assert!(matches!(Param::Name("-4".into()).resolve(), Resolution::Index(-4)));
    assert!(matches!(InputPair::Name("2".into()).resolve(), Resolution::Index(2)));
}

#[test]
fn other_names_are_looked_up() {
    assert!(matches!(Param::Name("Dmolar".into()).resolve(), Resolution::Lookup(ref n) if n == "Dmolar"));
    assert!(matches!(InputPair::Name("PT_INPUTS".into()).resolve(), Resolution::Lookup(ref n) if n == "PT_INPUTS"));
    assert!(matches!(Param::Name("".into()).resolve(), Resolution::Lookup(ref n) if n.is_empty()));
}
