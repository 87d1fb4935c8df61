use ternary_cargo::{
    CargoHold, CargoInspector, CargoShip, Manifest, ResourceKind, Smuggler, TernaryResource,
    TernaryWeight, TradeRoute,
};

fn pos_resource(kind: ResourceKind, qty: u32) -> TernaryResource {
    TernaryResource::new(kind, TernaryWeight::Positive, qty)
}

fn neg_resource(kind: ResourceKind, qty: u32) -> TernaryResource {
    TernaryResource::new(kind, TernaryWeight::Negative, qty)
}

#[test]
fn ternary_weight_values() {
    assert_eq!(TernaryWeight::Positive.value(), 1);
    assert_eq!(TernaryWeight::Neutral.value(), 0);
    assert_eq!(TernaryWeight::Negative.value(), -1);
}

#[test]
fn ternary_weight_from_i32() {
    assert_eq!(TernaryWeight::from_i32(1), Some(TernaryWeight::Positive));
    assert_eq!(TernaryWeight::from_i32(0), Some(TernaryWeight::Neutral));
    assert_eq!(TernaryWeight::from_i32(-1), Some(TernaryWeight::Negative));
    assert_eq!(TernaryWeight::from_i32(5), None);
}

#[test]
fn resource_total_value() {
    let r = pos_resource(ResourceKind::Energy, 10);
    assert_eq!(r.total_value(), 10);
    let r = neg_resource(ResourceKind::Data, 5);
    assert_eq!(r.total_value(), -5);
}

#[test]
fn resource_is_positive() {
    assert!(pos_resource(ResourceKind::Energy, 1).is_positive());
    assert!(!neg_resource(ResourceKind::Energy, 1).is_positive());
}

#[test]
fn cargo_hold_store_and_withdraw() {
    let mut hold = CargoHold::new("room-a", 100);
    assert!(hold.store(pos_resource(ResourceKind::Energy, 20)));
    assert_eq!(hold.total_quantity(), 20);
    let withdrawn = hold.withdraw(ResourceKind::Energy, TernaryWeight::Positive, 10);
    assert!(withdrawn.is_some());
    assert_eq!(hold.total_quantity(), 10);
}

#[test]
fn cargo_hold_capacity_limit() {
    let mut hold = CargoHold::new("room-a", 10);
    assert!(hold.store(pos_resource(ResourceKind::Energy, 10)));
    assert!(!hold.store(pos_resource(ResourceKind::Energy, 1)));
}

#[test]
fn cargo_hold_merge_same_kind() {
    let mut hold = CargoHold::new("room-a", 100);
    hold.store(pos_resource(ResourceKind::Energy, 10));
    hold.store(pos_resource(ResourceKind::Energy, 5));
    assert_eq!(hold.resource_count(), 1);
    assert_eq!(hold.total_quantity(), 15);
}

#[test]
fn cargo_hold_ternary_value() {
    let mut hold = CargoHold::new("room-a", 100);
    hold.store(pos_resource(ResourceKind::Energy, 10));
    hold.store(neg_resource(ResourceKind::Data, 5));
    assert_eq!(hold.total_ternary_value(), 10 - 5);
}

#[test]
fn cargo_hold_withdraw_insufficient() {
    let mut hold = CargoHold::new("room-a", 100);
    hold.store(pos_resource(ResourceKind::Energy, 5));
    assert!(hold.withdraw(ResourceKind::Energy, TernaryWeight::Positive, 10).is_none());
}

#[test]
fn manifest_creation() {
    let m = Manifest::new("m1", "a", "b".into(), vec![
        pos_resource(ResourceKind::Energy, 10),
        neg_resource(ResourceKind::Data, 5),
    ]);
    assert_eq!(m.item_count(), 2);
    assert_eq!(m.declared_value, 5);
    assert!(m.verify_value());
}

#[test]
fn manifest_verify_value_tampered() {
    let mut m = Manifest::new("m1", "a", "b".into(), vec![
        pos_resource(ResourceKind::Energy, 10),
    ]);
    m.declared_value = 999;
    assert!(!m.verify_value());
}

#[test]
fn trade_route_transport_cost() {
    let route = TradeRoute::new("r1", "a", "b", 100);
    let manifest = Manifest::new("m1", "a", "b".into(), vec![
        pos_resource(ResourceKind::Energy, 20),
    ]);
    assert_eq!(route.transport_cost(&manifest), 200);
}

#[test]
fn trade_route_activate_deactivate() {
    let mut route = TradeRoute::new("r1", "a", "b", 10);
    assert!(route.active);
    route.deactivate();
    assert!(!route.active);
    route.activate();
    assert!(route.active);
}

#[test]
fn cargo_ship_load_and_unload() {
    let mut ship = CargoShip::new("s1", "a", 100);
    let manifest = Manifest::new("m1", "a", "b".into(), vec![
        pos_resource(ResourceKind::Energy, 30),
    ]);
    assert!(ship.load(&manifest));
    assert_eq!(ship.cargo_quantity(), 30);
    let cargo = ship.unload();
    assert_eq!(cargo.len(), 1);
    assert_eq!(ship.cargo_quantity(), 0);
}

#[test]
fn cargo_ship_overweight() {
    let mut ship = CargoShip::new("s1", "a", 5);
    let manifest = Manifest::new("m1", "a", "b".into(), vec![
        pos_resource(ResourceKind::Energy, 100),
    ]);
    assert!(!ship.load(&manifest));
}

#[test]
fn cargo_ship_travel_success() {
    let mut ship = CargoShip::new("s1", "a", 50);
    let route = TradeRoute::new("r1", "a", "b", 10);
    assert!(ship.travel(&route).is_ok());
    assert_eq!(ship.location, "b");
}

#[test]
fn cargo_ship_travel_wrong_location() {
    let mut ship = CargoShip::new("s1", "x", 50);
    let route = TradeRoute::new("r1", "a", "b", 10);
    assert!(ship.travel(&route).is_err());
}

#[test]
fn cargo_ship_travel_inactive_route() {
    let mut ship = CargoShip::new("s1", "a", 50);
    let mut route = TradeRoute::new("r1", "a", "b", 10);
    route.deactivate();
    assert!(ship.travel(&route).is_err());
}

#[test]
fn cargo_inspector_conservation() {
    assert!(CargoInspector::verify_conservation(42, 42));
    assert!(!CargoInspector::verify_conservation(42, 41));
}

#[test]
fn cargo_inspector_no_contraband() {
    let clean = Manifest::new("m1", "a", "b".into(), vec![
        pos_resource(ResourceKind::Energy, 10),
    ]);
    assert!(CargoInspector::verify_no_contraband(&clean));

    let dirty = Manifest::new("m2", "a", "b".into(), vec![
        neg_resource(ResourceKind::Data, 5),
    ]);
    assert!(!CargoInspector::verify_no_contraband(&dirty));
}

#[test]
fn cargo_inspector_manifest_match() {
    let items = vec![pos_resource(ResourceKind::Energy, 10)];
    let manifest = Manifest::new("m1", "a", "b".into(), items.clone());
    assert!(CargoInspector::verify_manifest(&manifest, &items));
}

#[test]
fn cargo_inspector_manifest_mismatch() {
    let items = vec![pos_resource(ResourceKind::Energy, 10)];
    let manifest = Manifest::new("m1", "a", "b".into(), vec![
        pos_resource(ResourceKind::Energy, 20),
    ]);
    assert!(!CargoInspector::verify_manifest(&manifest, &items));
}

#[test]
fn cargo_inspector_full_inspect_pass() {
    let items = vec![pos_resource(ResourceKind::Energy, 10)];
    let manifest = Manifest::new("m1", "a", "b".into(), items.clone());
    let result = CargoInspector::full_inspect(10, &manifest, &items);
    assert!(result.passed);
}

#[test]
fn smuggler_hide_negative() {
    let mut sm = Smuggler::new();
    assert!(sm.hide_resource(neg_resource(ResourceKind::Data, 5)));
    assert_eq!(sm.hidden_count(), 1);
    assert_eq!(sm.hidden_value(), -5);
}

#[test]
fn smuggler_refuse_positive() {
    let mut sm = Smuggler::new();
    assert!(!sm.hide_resource(pos_resource(ResourceKind::Energy, 5)));
    assert_eq!(sm.hidden_count(), 0);
}

#[test]
fn smuggler_clean_manifest() {
    let mut sm = Smuggler::new();
    sm.hide_resource(neg_resource(ResourceKind::Data, 5));
    let all = vec![pos_resource(ResourceKind::Energy, 10), neg_resource(ResourceKind::Data, 5)];
    let clean = sm.clean_manifest(&all);
    assert_eq!(clean.len(), 1);
    assert_eq!(clean[0].kind, ResourceKind::Energy);
}

#[test]
fn smuggler_reveal() {
    let mut sm = Smuggler::new();
    sm.hide_resource(neg_resource(ResourceKind::Data, 5));
    let revealed = sm.reveal_all();
    assert_eq!(revealed.len(), 1);
    assert_eq!(sm.hidden_count(), 0);
}
