//! Resources with a ternary weight, and the sums taken over sequences of them.
use vstd::prelude::*;

verus! {

/// The kind of a resource.
#[derive(Debug, Clone, Copy, PartialEq, Eq, Hash, Structural)]
pub enum ResourceKind {
    Data,
    Energy,
    Agent,
    Blueprint,
    Computation,
}

/// The ternary weight of a resource: +1, 0 or -1.
#[derive(Debug, Clone, Copy, PartialEq, Eq, Hash, Structural)]
pub enum TernaryWeight {
    Positive,
    Neutral,
    Negative,
}

impl TernaryWeight {
    /// The weight as a mathematical integer.
    pub open spec fn charge(self) -> int {
        match self {
            TernaryWeight::Positive => 1,
            TernaryWeight::Neutral => 0,
            TernaryWeight::Negative => -1,
        }
    }

    /// The weight whose integer is `v`, if there is one.
    pub open spec fn from_charge(v: int) -> Option<TernaryWeight> {
        if v == -1 {
            Some(TernaryWeight::Negative)
        } else if v == 0 {
            Some(TernaryWeight::Neutral)
        } else if v == 1 {
            Some(TernaryWeight::Positive)
        } else {
            None
        }
    }

    pub fn value(self) -> (v: i32)
        ensures
            v == self.charge(),
    {
        match self {
            TernaryWeight::Positive => 1,
            TernaryWeight::Neutral => 0,
            TernaryWeight::Negative => -1,
        }
    }

    pub fn from_i32(v: i32) -> (w: Option<TernaryWeight>)
        ensures
            w == TernaryWeight::from_charge(v as int),
    {
        match v {
            -1 => Some(TernaryWeight::Negative),
            0 => Some(TernaryWeight::Neutral),
            1 => Some(TernaryWeight::Positive),
            _ => None,
        }
    }
}

/// Every weight survives the trip to its integer and back, and an integer
/// that names a weight is that weight's integer.
pub proof fn law_weight_roundtrip(w: TernaryWeight, v: int)
    ensures
        TernaryWeight::from_charge(w.charge()) == Some(w),
        TernaryWeight::from_charge(v) == Some(w) ==> w.charge() == v,
        -1 <= w.charge() <= 1,
{
}

/// A resource: a kind, a ternary weight and a quantity.
#[derive(Debug, Clone, Copy, PartialEq, Eq, Hash, Structural)]
pub struct TernaryResource {
    pub kind: ResourceKind,
    pub ternary_value: TernaryWeight,
    pub quantity: u32,
}

impl TernaryResource {
    /// The ternary charge of the resource: weight times quantity.
    pub open spec fn charge(self) -> int {
        self.ternary_value.charge() * self.quantity
    }

    /// Whether the resource is of the given kind and weight.
    pub open spec fn is_stock_of(self, kind: ResourceKind, weight: TernaryWeight) -> bool {
        self.kind == kind && self.ternary_value == weight
    }

    pub fn new(kind: ResourceKind, weight: TernaryWeight, quantity: u32) -> (r: TernaryResource)
        ensures
            r == (TernaryResource { kind, ternary_value: weight, quantity }),
    {
        TernaryResource { kind, ternary_value: weight, quantity }
    }

    /// Total ternary value: weight times quantity.
    pub fn total_value(&self) -> (v: i64)
        ensures
            v == self.charge(),
    {
        let w = self.ternary_value.value() as i64;
        let q = self.quantity as i64;
        proof {
            lemma_charge_bounds(*self);
        }
        w * q
    }

    pub fn is_positive(&self) -> (b: bool)
        ensures
            b == (self.ternary_value == TernaryWeight::Positive),
    {
        self.ternary_value == TernaryWeight::Positive
    }
}

/// The charge of a resource has the sign of its weight and the size of its quantity.
pub proof fn lemma_charge_bounds(r: TernaryResource)
    ensures
        -(r.quantity as int) <= r.charge() <= r.quantity,
        r.ternary_value == TernaryWeight::Positive ==> r.charge() == r.quantity,
        r.ternary_value == TernaryWeight::Neutral ==> r.charge() == 0,
        r.ternary_value == TernaryWeight::Negative ==> r.charge() == -(r.quantity as int),
{
}

} // verus!
