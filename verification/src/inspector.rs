//! Inspection of cargo: conservation of value, contraband, and manifest matching.
use vstd::prelude::*;
use crate::resource::{ResourceKind, TernaryResource, TernaryWeight, lemma_charge_bounds};
use crate::manifest::Manifest;
use crate::tally::{total_charge, stock_quantity, sum_stock, lemma_stock_includes};

verus! {

/// No resource of the sequence has a negative weight.
pub open spec fn no_contraband(items: Seq<TernaryResource>) -> bool {
    forall|i: int| 0 <= i < items.len() ==> (#[trigger] items[i]).ternary_value != TernaryWeight::Negative
}

/// The declared items match what was loaded: as many entries, and for each declared
/// item at least its quantity of its kind and weight among what was loaded.
pub open spec fn manifest_matches(items: Seq<TernaryResource>, actual: Seq<TernaryResource>) -> bool {
    &&& items.len() == actual.len()
    &&& forall|i: int|
        0 <= i < items.len() ==> stock_quantity(actual, (#[trigger] items[i]).kind, items[i].ternary_value)
            >= items[i].quantity
}

/// Whether a full inspection passes: the value before equals the declared value, the
/// declared items hold no contraband, and they match what was loaded.
pub open spec fn inspection_passes(
    before_value: int,
    declared_value: int,
    items: Seq<TernaryResource>,
    actual: Seq<TernaryResource>,
) -> bool {
    &&& before_value == declared_value
    &&& no_contraband(items)
    &&& manifest_matches(items, actual)
}

/// The outcome of a full inspection.
#[derive(Debug, Clone, PartialEq, Eq, Structural)]
pub struct CargoInspectionResult {
    pub value_conserved: bool,
    pub no_contraband: bool,
    pub manifest_match: bool,
    pub passed: bool,
}

/// Verifies conservation laws during transport.
pub struct CargoInspector;

impl CargoInspector {
    /// Verify total ternary value is conserved: before == after.
    pub fn verify_conservation(before: i64, after: i64) -> (ok: bool)
        ensures
            ok == (before == after),
    {
        before == after
    }

    /// Verify no negative-ternary resources were introduced (anti-smuggling check).
    pub fn verify_no_contraband(manifest: &Manifest) -> (ok: bool)
        ensures
            ok == no_contraband(manifest.items@),
            ok == (forall|i: int|
                0 <= i < manifest.items@.len() ==> (#[trigger] manifest.items@[i]).ternary_value
                    != TernaryWeight::Negative),
    {
        let mut i: usize = 0;
        while i < manifest.items.len()
            invariant
                0 <= i <= manifest.items@.len(),
                no_contraband(manifest.items@.take(i as int)),
            decreases manifest.items@.len() - i,
        {
            if manifest.items[i].ternary_value == TernaryWeight::Negative {
                return false;
            }
            i = i + 1;
            assert(manifest.items@.take(i as int) =~= manifest.items@.take(i - 1).push(manifest.items@[i - 1]));
        }
        assert(manifest.items@.take(i as int) =~= manifest.items@);
        true
    }

    /// Verify manifest items match what was actually loaded.
    pub fn verify_manifest(manifest: &Manifest, actual: &[TernaryResource]) -> (ok: bool)
        ensures
            ok == manifest_matches(manifest.items@, actual@),
            ok == (manifest.items@.len() == actual@.len() && forall|i: int|
                0 <= i < manifest.items@.len() ==> stock_quantity(
                    actual@,
                    (#[trigger] manifest.items@[i]).kind,
                    manifest.items@[i].ternary_value,
                ) >= manifest.items@[i].quantity),
    {
        if manifest.items.len() != actual.len() {
            return false;
        }
        let mut i: usize = 0;
        while i < manifest.items.len()
            invariant
                0 <= i <= manifest.items@.len(),
                manifest.items@.len() == actual@.len(),
                forall|j: int|
                    0 <= j < i ==> stock_quantity(actual@, (#[trigger] manifest.items@[j]).kind, manifest.items@[j].ternary_value)
                        >= manifest.items@[j].quantity,
            decreases manifest.items@.len() - i,
        {
            let item = manifest.items[i];
            let matching = sum_stock(actual, item.kind, item.ternary_value);
            if matching < item.quantity as i128 {
                return false;
            }
            i = i + 1;
        }
        true
    }

    /// Full inspection: conservation of the declared value, no contraband, and a
    /// manifest that matches what was loaded.
    pub fn full_inspect(before_value: i64, manifest: &Manifest, actual: &[TernaryResource]) -> (r: CargoInspectionResult)
        ensures
            r.value_conserved == (before_value == manifest.declared_value),
            r.no_contraband == no_contraband(manifest.items@),
            r.manifest_match == manifest_matches(manifest.items@, actual@),
            r.passed == (r.value_conserved && r.no_contraband && r.manifest_match),
            r.passed == inspection_passes(before_value as int, manifest.declared_value as int, manifest.items@, actual@),
    {
        let value_conserved = Self::verify_conservation(before_value, manifest.declared_value);
        let no_contraband = Self::verify_no_contraband(manifest);
        let manifest_match = Self::verify_manifest(manifest, actual);
        CargoInspectionResult {
            value_conserved,
            no_contraband,
            manifest_match,
            passed: value_conserved && no_contraband && manifest_match,
        }
    }
}

/// Contraband is exactly a negative weight: a manifest passes the contraband check when
/// each of its items is positive or neutral, whatever their kinds, and fails when any
/// item is negative.
pub proof fn law_contraband_is_negative_weight(items: Seq<TernaryResource>)
    ensures
        no_contraband(items) <==> forall|i: int|
            0 <= i < items.len() ==> (#[trigger] items[i]).ternary_value == TernaryWeight::Positive
                || items[i].ternary_value == TernaryWeight::Neutral,
        forall|i: int|
            0 <= i < items.len() && (#[trigger] items[i]).ternary_value == TernaryWeight::Negative
                ==> !no_contraband(items),
{
}

/// A manifest matches only if every declared item, at every position, finds at least
/// its quantity of its kind and weight among what was loaded; one declared item short
/// of that, or a different number of entries, makes the match fail.
pub proof fn law_match_needs_every_item(items: Seq<TernaryResource>, actual: Seq<TernaryResource>)
    ensures
        manifest_matches(items, actual) ==> items.len() == actual.len(),
        forall|i: int|
            0 <= i < items.len() && stock_quantity(actual, (#[trigger] items[i]).kind, items[i].ternary_value)
                < items[i].quantity ==> !manifest_matches(items, actual),
        items.len() == actual.len() && (forall|i: int|
            0 <= i < items.len() ==> stock_quantity(actual, (#[trigger] items[i]).kind, items[i].ternary_value)
                >= items[i].quantity) ==> manifest_matches(items, actual),
{
}

/// The stock of a kind and weight counts only resources of that kind and weight: where
/// none is present it is zero, and resources of other kinds or weights add nothing.
pub proof fn law_stock_counts_only_its_kind(s: Seq<TernaryResource>, kind: ResourceKind, weight: TernaryWeight)
    ensures
        (forall|i: int| 0 <= i < s.len() ==> !((#[trigger] s[i]).kind == kind && s[i].ternary_value == weight))
            ==> stock_quantity(s, kind, weight) == 0,
        forall|i: int|
            0 <= i < s.len() && (#[trigger] s[i]).kind == kind && s[i].ternary_value == weight
                ==> stock_quantity(s, kind, weight) >= s[i].quantity,
    decreases s.len(),
{
    if s.len() > 0 {
        law_stock_counts_only_its_kind(s.drop_last(), kind, weight);
        let t = s.drop_last();
        if forall|i: int| 0 <= i < s.len() ==> !((#[trigger] s[i]).kind == kind && s[i].ternary_value == weight) {
            assert forall|i: int| 0 <= i < t.len() implies !((#[trigger] t[i]).kind == kind && t[i].ternary_value == weight) by {
                assert(t[i] == s[i]);
            }
        }
    }
    assert forall|i: int|
        0 <= i < s.len() && (#[trigger] s[i]).kind == kind && s[i].ternary_value == weight implies stock_quantity(
        s,
        kind,
        weight,
    ) >= s[i].quantity by {
        lemma_stock_includes(s, i);
    }
}

/// A manifest always matches its own items.
pub proof fn law_manifest_matches_itself(items: Seq<TernaryResource>)
    ensures
        manifest_matches(items, items),
{
    assert forall|i: int| 0 <= i < items.len() implies stock_quantity(
        items,
        (#[trigger] items[i]).kind,
        items[i].ternary_value,
    ) >= items[i].quantity by {
        lemma_stock_includes(items, i);
    }
}

/// Cargo without contraband carries a ternary value of zero or more.
pub proof fn law_clean_cargo_is_nonnegative(items: Seq<TernaryResource>)
    requires
        no_contraband(items),
    ensures
        total_charge(items) >= 0,
    decreases items.len(),
{
    if items.len() > 0 {
        let rest = items.drop_last();
        assert forall|i: int| 0 <= i < rest.len() implies (#[trigger] rest[i]).ternary_value
            != TernaryWeight::Negative by {
            assert(rest[i] == items[i]);
        }
        law_clean_cargo_is_nonnegative(rest);
        lemma_charge_bounds(items.last());
    }
}

/// A manifest inspected against its own items, with its own declared value as the
/// value before, passes exactly when it carries no contraband.
pub proof fn law_self_inspection(declared: int, items: Seq<TernaryResource>)
    ensures
        inspection_passes(declared, declared, items, items) == no_contraband(items),
{
    law_manifest_matches_itself(items);
}

} // verus!
