//! Manifests: declarations of cargo for transport, with their declared value.
use vstd::prelude::*;
use crate::resource::TernaryResource;
use crate::tally::{total_quantity, total_charge, sum_quantity, sum_charge};

verus! {

/// Declaration of cargo for transport.
#[derive(Debug, Clone)]
pub struct Manifest {
    pub id: String,
    pub origin: String,
    pub destination: String,
    pub items: Vec<TernaryResource>,
    pub declared_value: i64,
}

impl Manifest {
    /// Whether the declared value is the total charge of the items.
    pub open spec fn value_holds(self) -> bool {
        total_charge(self.items@) == self.declared_value
    }

    /// A manifest of the given items, declaring their total charge as its value.
    pub fn new(id: &str, origin: &str, destination: String, items: Vec<TernaryResource>) -> (m: Manifest)
        requires
            i64::MIN <= total_charge(items@) <= i64::MAX,
        ensures
            m.id@ == id@,
            m.origin@ == origin@,
            m.destination == destination,
            m.items == items,
            m.declared_value == total_charge(items@),
    {
        let declared = sum_charge(items.as_slice());
        Manifest {
            id: id.to_owned(),
            origin: origin.to_owned(),
            destination,
            items,
            declared_value: declared as i64,
        }
    }

    pub fn item_count(&self) -> (n: usize)
        ensures
            n == self.items@.len(),
    {
        self.items.len()
    }

    pub fn total_quantity(&self) -> (t: u32)
        requires
            total_quantity(self.items@) <= u32::MAX,
        ensures
            t == total_quantity(self.items@),
    {
        let t = sum_quantity(self.items.as_slice());
        t as u32
    }

    /// Verify the manifest's declared value matches actual item values.
    pub fn verify_value(&self) -> (ok: bool)
        ensures
            ok == self.value_holds(),
            ok == (self.declared_value == total_charge(self.items@)),
    {
        let actual = sum_charge(self.items.as_slice());
        actual == self.declared_value as i128
    }
}

/// A manifest made by `new` declares the total charge of its items, so its value
/// check passes until someone changes the declared value or the items.
pub proof fn law_new_manifest_verifies(m: Manifest, items: Seq<TernaryResource>)
    requires
        m.items@ == items,
        m.declared_value == total_charge(items),
    ensures
        m.value_holds(),
{
}

/// The value check of a manifest passes exactly when the declared value is the total
/// charge of the items; so of two manifests with the same items and different declared
/// values, at most one passes, and changing the declared value of a passing manifest
/// makes it fail.
pub proof fn law_value_check_is_exact(m: Manifest, other: Manifest)
    requires
        other.items@ == m.items@,
    ensures
        m.value_holds() <==> m.declared_value == total_charge(m.items@),
        m.value_holds() && other.declared_value != m.declared_value ==> !other.value_holds(),
{
}

} // verus!
