use coolprop_server::coverage::coolprop_symbol_to_route;

#[test]
fn table_has_no_duplicates() {
    let mut names: Vec<_> = coolprop_symbol_to_route().iter().map(|(s, _)| *s).collect();
    let total = names.len();
    names.sort_unstable();
    names.dedup();
    assert_eq!(total, names.len(), "duplicate symbols in coverage table");
}

#[test]
fn table_maps_every_export_to_its_own_route() {
    let table = coolprop_symbol_to_route();
    assert_eq!(table.len(), 71);
    let mut routes: Vec<_> = table.iter().map(|(_, r)| *r).collect();
    routes.sort_unstable();
    routes.dedup();
    assert_eq!(routes.len(), 71);
    assert!(table.contains(&("PropsSI", "POST /api/v1/props/si")));
    assert!(table.contains(&("AbstractState_free", "DELETE /api/v1/abstract-state/{handle}")));
}
