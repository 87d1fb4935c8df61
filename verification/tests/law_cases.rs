use ternary_cargo::{
    CargoHold, CargoInspector, CargoShip, Manifest, ResourceKind, Smuggler, TernaryResource,
    TernaryWeight, TradeRoute,
};

fn res(kind: ResourceKind, weight: TernaryWeight, qty: u32) -> TernaryResource {
    TernaryResource::new(kind, weight, qty)
}

#[test]
fn weight_roundtrip_through_integers() {
    for w in [TernaryWeight::Positive, TernaryWeight::Neutral, TernaryWeight::Negative] {
        assert_eq!(TernaryWeight::from_i32(w.value()), Some(w));
    }
    assert_eq!(TernaryWeight::from_i32(2), None);
    assert_eq!(TernaryWeight::from_i32(-2), None);
    assert_eq!(TernaryWeight::from_i32(i32::MIN), None);
}

#[test]
fn neutral_resource_has_no_value() {
    let r = res(ResourceKind::Blueprint, TernaryWeight::Neutral, 40);
    assert_eq!(r.total_value(), 0);
    assert!(!r.is_positive());
    let big = res(ResourceKind::Agent, TernaryWeight::Negative, u32::MAX);
    assert_eq!(big.total_value(), -(u32::MAX as i64));
}

#[test]
fn hold_new_is_empty() {
    let hold = CargoHold::new("room-z", 7);
    assert_eq!(hold.room_id(), "room-z");
    assert_eq!(hold.capacity(), 7);
    assert_eq!(hold.resource_count(), 0);
    assert_eq!(hold.total_quantity(), 0);
    assert_eq!(hold.total_ternary_value(), 0);
    assert!(hold.resources().is_empty());
}

#[test]
fn hold_refused_store_changes_nothing() {
    let mut hold = CargoHold::new("a", 10);
    assert!(hold.store(res(ResourceKind::Data, TernaryWeight::Negative, 4)));
    let before = hold.resources().to_vec();
    assert!(!hold.store(res(ResourceKind::Energy, TernaryWeight::Positive, 7)));
    assert_eq!(hold.resources(), &before[..]);
    assert!(!hold.store(res(ResourceKind::Energy, TernaryWeight::Positive, u32::MAX)));
    assert_eq!(hold.resources(), &before[..]);
}

#[test]
fn hold_keeps_kinds_and_weights_apart() {
    let mut hold = CargoHold::new("a", 100);
    assert!(hold.store(res(ResourceKind::Energy, TernaryWeight::Positive, 3)));
    assert!(hold.store(res(ResourceKind::Energy, TernaryWeight::Negative, 4)));
    assert!(hold.store(res(ResourceKind::Data, TernaryWeight::Positive, 5)));
    assert!(hold.store(res(ResourceKind::Energy, TernaryWeight::Positive, 6)));
    assert_eq!(hold.resource_count(), 3);
    assert_eq!(hold.resources()[0], res(ResourceKind::Energy, TernaryWeight::Positive, 9));
    assert_eq!(hold.total_quantity(), 18);
    assert_eq!(hold.total_ternary_value(), 9 - 4 + 5);
}

#[test]
fn hold_withdraw_all_removes_entry() {
    let mut hold = CargoHold::new("a", 100);
    hold.store(res(ResourceKind::Agent, TernaryWeight::Positive, 8));
    hold.store(res(ResourceKind::Data, TernaryWeight::Neutral, 2));
    let out = hold.withdraw(ResourceKind::Agent, TernaryWeight::Positive, 8);
    assert_eq!(out, Some(res(ResourceKind::Agent, TernaryWeight::Positive, 8)));
    assert_eq!(hold.resource_count(), 1);
    assert_eq!(hold.resources()[0].kind, ResourceKind::Data);
}

#[test]
fn hold_withdraw_wrong_weight_or_absent() {
    let mut hold = CargoHold::new("a", 100);
    hold.store(res(ResourceKind::Energy, TernaryWeight::Positive, 8));
    assert_eq!(hold.withdraw(ResourceKind::Energy, TernaryWeight::Negative, 1), None);
    assert_eq!(hold.withdraw(ResourceKind::Data, TernaryWeight::Positive, 0), None);
    assert_eq!(hold.total_quantity(), 8);
    assert_eq!(hold.withdraw(ResourceKind::Energy, TernaryWeight::Positive, 0),
        Some(res(ResourceKind::Energy, TernaryWeight::Positive, 0)));
    assert_eq!(hold.total_quantity(), 8);
}

#[test]
fn transfer_between_holds_conserves_value() {
    let mut a = CargoHold::new("a", 100);
    let mut b = CargoHold::new("b", 100);
    a.store(res(ResourceKind::Energy, TernaryWeight::Positive, 30));
    a.store(res(ResourceKind::Data, TernaryWeight::Negative, 12));
    b.store(res(ResourceKind::Data, TernaryWeight::Negative, 1));
    let before = a.total_ternary_value() + b.total_ternary_value();
    let moved = a.withdraw(ResourceKind::Data, TernaryWeight::Negative, 5).unwrap();
    assert!(b.store(moved));
    let after = a.total_ternary_value() + b.total_ternary_value();
    assert!(CargoInspector::verify_conservation(before, after));
    assert_eq!(a.total_ternary_value(), 30 - 7);
    assert_eq!(b.total_ternary_value(), -6);
}

#[test]
fn store_then_withdraw_restores_hold() {
    let mut hold = CargoHold::new("a", 100);
    hold.store(res(ResourceKind::Computation, TernaryWeight::Positive, 10));
    let before = hold.resources().to_vec();
    let r = res(ResourceKind::Computation, TernaryWeight::Positive, 15);
    assert!(hold.store(r));
    assert_eq!(hold.withdraw(r.kind, r.ternary_value, r.quantity), Some(r));
    assert_eq!(hold.resources(), &before[..]);
    let fresh = res(ResourceKind::Blueprint, TernaryWeight::Negative, 3);
    assert!(hold.store(fresh));
    assert_eq!(hold.withdraw(fresh.kind, fresh.ternary_value, fresh.quantity), Some(fresh));
    assert_eq!(hold.resources(), &before[..]);
}

#[test]
fn hold_clone_keeps_contents() {
    let mut hold = CargoHold::new("a", 50);
    hold.store(res(ResourceKind::Data, TernaryWeight::Positive, 9));
    let copy = hold.clone();
    assert_eq!(copy.room_id(), "a");
    assert_eq!(copy.capacity(), 50);
    assert_eq!(copy.resources(), hold.resources());
}

#[test]
fn manifest_fields_and_totals() {
    let m = Manifest::new("m9", "x", "y".to_string(), vec![
        res(ResourceKind::Energy, TernaryWeight::Positive, 3),
        res(ResourceKind::Data, TernaryWeight::Neutral, 4),
        res(ResourceKind::Agent, TernaryWeight::Negative, 10),
    ]);
    assert_eq!(m.id, "m9");
    assert_eq!(m.origin, "x");
    assert_eq!(m.destination, "y");
    assert_eq!(m.total_quantity(), 17);
    assert_eq!(m.declared_value, -7);
    assert!(m.verify_value());
    let empty = Manifest::new("e", "x", "y".to_string(), vec![]);
    assert_eq!(empty.declared_value, 0);
    assert!(empty.verify_value());
}

#[test]
fn transport_cost_rounds_down() {
    let route = TradeRoute::new("r", "a", "b", 7);
    let m = Manifest::new("m", "a", "b".to_string(), vec![
        res(ResourceKind::Energy, TernaryWeight::Positive, 2),
        res(ResourceKind::Data, TernaryWeight::Negative, 1),
    ]);
    assert_eq!(route.transport_cost(&m), 2);
    assert_eq!(route.id, "r");
    assert_eq!(route.distance, 7);
}

#[test]
fn ship_load_conserves_value_and_appends() {
    let mut ship = CargoShip::new("s", "a", 20);
    let first = Manifest::new("m1", "a", "b".to_string(), vec![res(ResourceKind::Energy, TernaryWeight::Positive, 5)]);
    let second = Manifest::new("m2", "a", "b".to_string(), vec![
        res(ResourceKind::Data, TernaryWeight::Negative, 4),
        res(ResourceKind::Energy, TernaryWeight::Positive, 5),
    ]);
    assert!(ship.load(&first));
    let before = ship.cargo_value();
    assert!(ship.load(&second));
    assert_eq!(ship.cargo_value(), before + second.declared_value);
    assert_eq!(ship.cargo.len(), 3);
    assert_eq!(ship.cargo_quantity(), 14);
    let heavy = Manifest::new("m3", "a", "b".to_string(), vec![res(ResourceKind::Agent, TernaryWeight::Neutral, 7)]);
    assert!(!ship.load(&heavy));
    assert_eq!(ship.cargo.len(), 3);
    let out = ship.unload();
    assert_eq!(out.len(), 3);
    assert_eq!(out[1], res(ResourceKind::Data, TernaryWeight::Negative, 4));
    assert!(ship.cargo.is_empty());
    assert_eq!(ship.cargo_value(), 0);
}

#[test]
fn ship_travel_error_messages() {
    let mut ship = CargoShip::new("s", "x", 5);
    let mut route = TradeRoute::new("r", "a", "b", 1);
    assert_eq!(ship.travel(&route), Err("Ship at x but route starts at a".to_string()));
    assert_eq!(ship.location, "x");
    route.deactivate();
    assert_eq!(ship.travel(&route), Err("Route is inactive".to_string()));
    let mut at_a = CargoShip::new("t", "a", 5);
    assert_eq!(at_a.travel(&route), Err("Route is inactive".to_string()));
    assert_eq!(at_a.location, "a");
    route.activate();
    assert_eq!(at_a.travel(&route), Ok(()));
    assert_eq!(at_a.location, "b");
}

#[test]
fn inspection_outcomes() {
    let items = vec![
        res(ResourceKind::Energy, TernaryWeight::Positive, 10),
        res(ResourceKind::Data, TernaryWeight::Negative, 2),
    ];
    let m = Manifest::new("m", "a", "b".to_string(), items.clone());
    let r = CargoInspector::full_inspect(m.declared_value, &m, &items);
    assert!(r.value_conserved);
    assert!(!r.no_contraband);
    assert!(r.manifest_match);
    assert!(!r.passed);

    let short = vec![res(ResourceKind::Energy, TernaryWeight::Positive, 10)];
    assert!(!CargoInspector::verify_manifest(&m, &short));
    let split = vec![
        res(ResourceKind::Energy, TernaryWeight::Positive, 4),
        res(ResourceKind::Energy, TernaryWeight::Positive, 6),
    ];
    let single = Manifest::new("s", "a", "b".to_string(), vec![
        res(ResourceKind::Energy, TernaryWeight::Positive, 10),
        res(ResourceKind::Energy, TernaryWeight::Positive, 10),
    ]);
    assert!(CargoInspector::verify_manifest(&single, &split));
    let r = CargoInspector::full_inspect(3, &single, &split);
    assert!(!r.value_conserved);
    assert!(r.no_contraband);
    assert!(!r.passed);
}

#[test]
fn clean_cargo_has_nonnegative_value() {
    let m = Manifest::new("m", "a", "b".to_string(), vec![
        res(ResourceKind::Energy, TernaryWeight::Neutral, 10),
        res(ResourceKind::Data, TernaryWeight::Positive, 2),
    ]);
    assert!(CargoInspector::verify_no_contraband(&m));
    assert!(m.declared_value >= 0);
    let r = CargoInspector::full_inspect(m.declared_value, &m, &m.items);
    assert!(r.passed);
}

#[test]
fn smuggler_conceals_by_kind_and_quantity() {
    let mut sm = Smuggler::new();
    assert!(sm.hide_resource(res(ResourceKind::Data, TernaryWeight::Negative, 5)));
    assert!(sm.hide_resource(res(ResourceKind::Agent, TernaryWeight::Negative, 2)));
    assert!(!sm.hide_resource(res(ResourceKind::Agent, TernaryWeight::Neutral, 2)));
    assert_eq!(sm.hidden_value(), -7);
    let all = vec![
        res(ResourceKind::Data, TernaryWeight::Positive, 5),
        res(ResourceKind::Data, TernaryWeight::Negative, 6),
        res(ResourceKind::Agent, TernaryWeight::Negative, 2),
        res(ResourceKind::Energy, TernaryWeight::Positive, 5),
    ];
    let clean = sm.clean_manifest(&all);
    assert_eq!(clean, vec![all[1], all[3]]);
    let revealed = sm.reveal_all();
    assert_eq!(revealed, vec![
        res(ResourceKind::Data, TernaryWeight::Negative, 5),
        res(ResourceKind::Agent, TernaryWeight::Negative, 2),
    ]);
    assert_eq!(sm.hidden_value(), 0);
    assert_eq!(sm.clean_manifest(&all), all);
}

#[test]
fn quick_start_walkthrough() {
    let energy = res(ResourceKind::Energy, TernaryWeight::Positive, 50);
    let debt = res(ResourceKind::Data, TernaryWeight::Negative, 10);
    assert_eq!(debt.total_value(), -10);
    let mut hold = CargoHold::new("room-a", 100);
    assert!(hold.store(energy));
    assert_eq!(hold.total_ternary_value(), 50);
    let manifest = Manifest::new("m1", "room-a", "room-b".into(), vec![energy]);
    let mut ship = CargoShip::new("s1", "room-a", 100);
    assert!(ship.load(&manifest));
    let route = TradeRoute::new("r1", "room-a", "room-b", 10);
    assert!(ship.travel(&route).is_ok());
    let result = CargoInspector::full_inspect(50, &manifest, &manifest.items);
    assert!(result.passed);
}

#[test]
fn smuggling_breaks_conservation() {
    let all = vec![
        res(ResourceKind::Energy, TernaryWeight::Positive, 10),
        res(ResourceKind::Data, TernaryWeight::Negative, 4),
    ];
    let actual = Manifest::new("real", "a", "b".to_string(), all.clone());
    let mut sm = Smuggler::new();
    assert!(sm.hide_resource(all[1]));
    let declared = Manifest::new("fake", "a", "b".to_string(), sm.clean_manifest(&all));
    assert_eq!(declared.declared_value, 10);
    assert_eq!(actual.declared_value, 6);
    assert!(declared.declared_value >= actual.declared_value);
    assert!(!CargoInspector::verify_conservation(actual.declared_value, declared.declared_value));
    assert!(!CargoInspector::verify_manifest(&declared, &all));
}

#[test]
fn transport_cost_of_large_products() {
    let route = TradeRoute::new("r", "a", "b", 1000);
    let m = Manifest::new("m", "a", "b".to_string(), vec![res(ResourceKind::Energy, TernaryWeight::Positive, 5_000_000)]);
    assert_eq!(route.transport_cost(&m), 500_000_000);
    let near = TradeRoute::new("n", "a", "b", 1);
    let heavy = Manifest::new("h", "a", "b".to_string(), vec![
        res(ResourceKind::Data, TernaryWeight::Neutral, u32::MAX),
        res(ResourceKind::Agent, TernaryWeight::Neutral, u32::MAX),
    ]);
    assert_eq!(near.transport_cost(&heavy), 858_993_459);
}
