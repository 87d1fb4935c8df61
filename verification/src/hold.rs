//! Cargo holds: room-local storage of resources under a capacity limit.
use vstd::prelude::*;
use crate::resource::{ResourceKind, TernaryResource, TernaryWeight, lemma_charge_bounds};
use crate::tally::{
    Measure, sum_of, total_quantity, total_charge, stock_quantity, sum_quantity,
    sum_charge, lemma_sum_update, lemma_sum_remove, lemma_sum_push,
    lemma_charge_within_quantity, lemma_stock_within_quantity,
};

verus! {

/// No two resources of a sequence share both kind and weight.
pub open spec fn distinct_slots(s: Seq<TernaryResource>) -> bool {
    forall|i: int, j: int|
        0 <= i < j < s.len() ==> !(#[trigger] s[i]).is_stock_of((#[trigger] s[j]).kind, s[j].ternary_value)
}

/// Some resource of the sequence has the given kind and weight.
pub open spec fn has_slot(s: Seq<TernaryResource>, kind: ResourceKind, weight: TernaryWeight) -> bool {
    exists|i: int| 0 <= i < s.len() && (#[trigger] s[i]).is_stock_of(kind, weight)
}

/// The position of a resource of the given kind and weight, where `has_slot` holds.
pub open spec fn slot_of(s: Seq<TernaryResource>, kind: ResourceKind, weight: TernaryWeight) -> int {
    choose|i: int| 0 <= i < s.len() && (#[trigger] s[i]).is_stock_of(kind, weight)
}

/// What a cargo hold is: its room, the resources it stores, and its capacity.
pub struct HoldView {
    pub room_id: Seq<char>,
    pub stock: Seq<TernaryResource>,
    pub capacity: u32,
}

impl HoldView {
    /// A hold stores no more than its capacity, and keeps one entry per kind and weight.
    pub open spec fn wf(self) -> bool {
        &&& total_quantity(self.stock) <= self.capacity
        &&& distinct_slots(self.stock)
    }

    /// Whether storing `r` keeps the hold within its capacity.
    pub open spec fn fits(self, r: TernaryResource) -> bool {
        total_quantity(self.stock) + r.quantity <= self.capacity
    }

    /// The hold after `r` is stored: merged into the entry of its kind and weight, or appended.
    pub open spec fn stored(self, r: TernaryResource) -> HoldView {
        let s = self.stock;
        let new_stock = if has_slot(s, r.kind, r.ternary_value) {
            let i = slot_of(s, r.kind, r.ternary_value);
            s.update(
                i,
                TernaryResource {
                    kind: s[i].kind,
                    ternary_value: s[i].ternary_value,
                    quantity: (s[i].quantity + r.quantity) as u32,
                },
            )
        } else {
            s.push(r)
        };
        HoldView { room_id: self.room_id, stock: new_stock, capacity: self.capacity }
    }

    /// Whether the entry of the given kind and weight holds at least `quantity`.
    pub open spec fn can_withdraw(self, kind: ResourceKind, weight: TernaryWeight, quantity: u32) -> bool {
        has_slot(self.stock, kind, weight) && self.stock[slot_of(self.stock, kind, weight)].quantity
            >= quantity
    }

    /// The hold after `quantity` of the given kind and weight is taken out; an entry
    /// that reaches zero is removed.
    pub open spec fn withdrawn(self, kind: ResourceKind, weight: TernaryWeight, quantity: u32) -> HoldView {
        let s = self.stock;
        let i = slot_of(s, kind, weight);
        let left = s[i].quantity - quantity;
        let new_stock = if left == 0 {
            s.remove(i)
        } else {
            s.update(
                i,
                TernaryResource {
                    kind: s[i].kind,
                    ternary_value: s[i].ternary_value,
                    quantity: left as u32,
                },
            )
        };
        HoldView { room_id: self.room_id, stock: new_stock, capacity: self.capacity }
    }
}

/// In a sequence with one entry per kind and weight, the stock of a kind and weight
/// is the quantity of its entry, or zero where there is none.
pub proof fn lemma_stock_of_slot(s: Seq<TernaryResource>, kind: ResourceKind, weight: TernaryWeight)
    requires
        distinct_slots(s),
    ensures
        has_slot(s, kind, weight) ==> stock_quantity(s, kind, weight) == s[slot_of(s, kind, weight)].quantity,
        !has_slot(s, kind, weight) ==> stock_quantity(s, kind, weight) == 0,
    decreases s.len(),
{
    if s.len() > 0 {
        let t = s.drop_last();
        let n = s.len() - 1;
        assert(distinct_slots(t)) by {
            assert forall|i: int, j: int| 0 <= i < j < t.len() implies !(#[trigger] t[i]).is_stock_of(
                (#[trigger] t[j]).kind,
                t[j].ternary_value,
            ) by {
                assert(t[i] == s[i] && t[j] == s[j]);
            }
        }
        lemma_stock_of_slot(t, kind, weight);
        if s[n].is_stock_of(kind, weight) {
            if has_slot(t, kind, weight) {
                let j = slot_of(t, kind, weight);
                assert(t[j] == s[j]);
                assert(false);
            }
            let i = slot_of(s, kind, weight);
            if i < n {
                assert(!s[i].is_stock_of(s[n].kind, s[n].ternary_value));
            }
        } else {
            if has_slot(s, kind, weight) {
                let i = slot_of(s, kind, weight);
                assert(t[i] == s[i]);
                assert(has_slot(t, kind, weight));
                let j = slot_of(t, kind, weight);
                assert(t[j] == s[j]);
                if i < j {
                    assert(!s[i].is_stock_of(s[j].kind, s[j].ternary_value));
                } else if j < i {
                    assert(!s[j].is_stock_of(s[i].kind, s[i].ternary_value));
                }
            } else {
                if has_slot(t, kind, weight) {
                    let j = slot_of(t, kind, weight);
                    assert(t[j] == s[j]);
                }
            }
        }
    }
}

/// Where a sequence has one entry per kind and weight, the entry of a kind and
/// weight is the only index that has them.
pub proof fn lemma_slot_unique(s: Seq<TernaryResource>, kind: ResourceKind, weight: TernaryWeight, i: int)
    requires
        distinct_slots(s),
        0 <= i < s.len(),
        s[i].is_stock_of(kind, weight),
    ensures
        has_slot(s, kind, weight),
        slot_of(s, kind, weight) == i,
{
    assert(has_slot(s, kind, weight));
    let j = slot_of(s, kind, weight);
    if i < j {
        assert(!s[i].is_stock_of(s[j].kind, s[j].ternary_value));
    } else if j < i {
        assert(!s[j].is_stock_of(s[i].kind, s[i].ternary_value));
    }
}

/// Storing a resource that fits keeps a hold well formed.
pub proof fn law_store_keeps_wf(v: HoldView, r: TernaryResource)
    requires
        v.wf(),
        v.fits(r),
    ensures
        v.stored(r).wf(),
        v.stored(r).room_id == v.room_id,
        v.stored(r).capacity == v.capacity,
{
    law_store_moves_stock(v, r);
    let s = v.stock;
    let t = v.stored(r).stock;
    if has_slot(s, r.kind, r.ternary_value) {
        let i = slot_of(s, r.kind, r.ternary_value);
        assert forall|a: int, b: int| 0 <= a < b < t.len() implies !(#[trigger] t[a]).is_stock_of(
            (#[trigger] t[b]).kind,
            t[b].ternary_value,
        ) by {
            assert(s[a].is_stock_of(t[a].kind, t[a].ternary_value));
            assert(s[b].is_stock_of(t[b].kind, t[b].ternary_value));
        }
    } else {
        assert forall|a: int, b: int| 0 <= a < b < t.len() implies !(#[trigger] t[a]).is_stock_of(
            (#[trigger] t[b]).kind,
            t[b].ternary_value,
        ) by {
            if b == s.len() {
                assert(t[a] == s[a]);
                if t[a].is_stock_of(r.kind, r.ternary_value) {
                    assert(has_slot(s, r.kind, r.ternary_value));
                }
            } else {
                assert(t[a] == s[a] && t[b] == s[b]);
            }
        }
    }
}

/// Storing a resource that fits adds its quantity and its charge to the hold, and its
/// quantity to the stock of its kind and weight; the stock of every other kind and
/// weight stays as it was.
pub proof fn law_store_moves_stock(v: HoldView, r: TernaryResource)
    requires
        v.wf(),
        v.fits(r),
    ensures
        total_quantity(v.stored(r).stock) == total_quantity(v.stock) + r.quantity,
        total_charge(v.stored(r).stock) == total_charge(v.stock) + r.charge(),
        forall|kind: ResourceKind, weight: TernaryWeight|
            #[trigger] stock_quantity(v.stored(r).stock, kind, weight) == stock_quantity(v.stock, kind, weight)
                + if r.is_stock_of(kind, weight) { r.quantity as int } else { 0 },
{
    let s = v.stock;
    if has_slot(s, r.kind, r.ternary_value) {
        let i = slot_of(s, r.kind, r.ternary_value);
        lemma_stock_within_quantity(s, r.kind, r.ternary_value);
        lemma_stock_of_slot(s, r.kind, r.ternary_value);
        let x = TernaryResource {
            kind: s[i].kind,
            ternary_value: s[i].ternary_value,
            quantity: (s[i].quantity + r.quantity) as u32,
        };
        assert(v.stored(r).stock == s.update(i, x));
        lemma_sum_update(s, i, x, Measure::Quantity);
        lemma_sum_update(s, i, x, Measure::Charge);
        lemma_charge_bounds(x);
        lemma_charge_bounds(s[i]);
        lemma_charge_bounds(r);
        assert forall|kind: ResourceKind, weight: TernaryWeight|
            #[trigger] stock_quantity(v.stored(r).stock, kind, weight) == stock_quantity(s, kind, weight)
                + if r.is_stock_of(kind, weight) { r.quantity as int } else { 0 } by {
            lemma_sum_update(s, i, x, Measure::Stock(kind, weight));
        }
    } else {
        lemma_sum_push(s, r, Measure::Quantity);
        lemma_sum_push(s, r, Measure::Charge);
        assert forall|kind: ResourceKind, weight: TernaryWeight|
            #[trigger] stock_quantity(v.stored(r).stock, kind, weight) == stock_quantity(s, kind, weight)
                + if r.is_stock_of(kind, weight) { r.quantity as int } else { 0 } by {
            lemma_sum_push(s, r, Measure::Stock(kind, weight));
        }
    }
}

/// A store is accepted exactly when the quantity already held plus the new quantity
/// is at most the capacity. An accepted store raises the hold's total quantity, and the
/// stock of the stored kind and weight, by exactly the stored quantity.
pub proof fn law_store_accepts_iff_room(v: HoldView, r: TernaryResource)
    requires
        v.wf(),
    ensures
        v.fits(r) <==> total_quantity(v.stock) + r.quantity <= v.capacity,
        total_quantity(v.stock) + r.quantity <= v.capacity ==> {
            &&& total_quantity(v.stored(r).stock) == total_quantity(v.stock) + r.quantity
            &&& stock_quantity(v.stored(r).stock, r.kind, r.ternary_value) == stock_quantity(
                v.stock,
                r.kind,
                r.ternary_value,
            ) + r.quantity
            &&& v.stored(r).stock.len() <= v.stock.len() + 1
        },
{
    if total_quantity(v.stock) + r.quantity <= v.capacity {
        law_store_moves_stock(v, r);
    }
}

/// A withdrawal succeeds exactly when the hold has an entry of that kind and weight
/// with at least the requested quantity; for a positive quantity, exactly when the
/// hold has at least that much of the kind and weight.
pub proof fn law_withdraw_iff_in_stock(v: HoldView, kind: ResourceKind, weight: TernaryWeight, quantity: u32)
    requires
        v.wf(),
    ensures
        v.can_withdraw(kind, weight, quantity) <==> has_slot(v.stock, kind, weight) && stock_quantity(
            v.stock,
            kind,
            weight,
        ) >= quantity,
        quantity > 0 ==> (v.can_withdraw(kind, weight, quantity) <==> stock_quantity(v.stock, kind, weight)
            >= quantity),
{
    lemma_stock_of_slot(v.stock, kind, weight);
}

/// Taking out a quantity that the hold has removes that quantity and its charge from
/// the hold and from the stock of its kind and weight; the stock of every other kind
/// and weight stays as it was.
pub proof fn law_withdraw_moves_stock(v: HoldView, kind: ResourceKind, weight: TernaryWeight, quantity: u32)
    requires
        v.wf(),
        v.can_withdraw(kind, weight, quantity),
    ensures
        total_quantity(v.stock) == total_quantity(v.withdrawn(kind, weight, quantity).stock) + quantity,
        total_charge(v.stock) == total_charge(v.withdrawn(kind, weight, quantity).stock)
            + (TernaryResource { kind, ternary_value: weight, quantity }).charge(),
        forall|k: ResourceKind, w: TernaryWeight|
            #[trigger] stock_quantity(v.stock, k, w) == stock_quantity(v.withdrawn(kind, weight, quantity).stock, k, w)
                + if k == kind && w == weight { quantity as int } else { 0 },
{
    let s = v.stock;
    let i = slot_of(s, kind, weight);
    let r = TernaryResource { kind, ternary_value: weight, quantity };
    let left = s[i].quantity - quantity;
    let x = TernaryResource { kind: s[i].kind, ternary_value: s[i].ternary_value, quantity: left as u32 };
    lemma_charge_bounds(x);
    lemma_charge_bounds(s[i]);
    lemma_charge_bounds(r);
    if left == 0 {
        lemma_sum_remove(s, i, Measure::Quantity);
        lemma_sum_remove(s, i, Measure::Charge);
        assert forall|k: ResourceKind, w: TernaryWeight|
            #[trigger] stock_quantity(s, k, w) == stock_quantity(v.withdrawn(kind, weight, quantity).stock, k, w)
                + if k == kind && w == weight { quantity as int } else { 0 } by {
            lemma_sum_remove(s, i, Measure::Stock(k, w));
        }
    } else {
        lemma_sum_update(s, i, x, Measure::Quantity);
        lemma_sum_update(s, i, x, Measure::Charge);
        assert forall|k: ResourceKind, w: TernaryWeight|
            #[trigger] stock_quantity(s, k, w) == stock_quantity(v.withdrawn(kind, weight, quantity).stock, k, w)
                + if k == kind && w == weight { quantity as int } else { 0 } by {
            lemma_sum_update(s, i, x, Measure::Stock(k, w));
        }
    }
}

/// Taking out a quantity that the hold has keeps it well formed.
pub proof fn law_withdraw_keeps_wf(v: HoldView, kind: ResourceKind, weight: TernaryWeight, quantity: u32)
    requires
        v.wf(),
        v.can_withdraw(kind, weight, quantity),
    ensures
        v.withdrawn(kind, weight, quantity).wf(),
        v.withdrawn(kind, weight, quantity).room_id == v.room_id,
        v.withdrawn(kind, weight, quantity).capacity == v.capacity,
{
    law_withdraw_moves_stock(v, kind, weight, quantity);
    let s = v.stock;
    let i = slot_of(s, kind, weight);
    let t = v.withdrawn(kind, weight, quantity).stock;
    if s[i].quantity - quantity == 0 {
        assert forall|a: int, b: int| 0 <= a < b < t.len() implies !(#[trigger] t[a]).is_stock_of(
            (#[trigger] t[b]).kind,
            t[b].ternary_value,
        ) by {
            let a0 = if a < i { a } else { a + 1 };
            let b0 = if b < i { b } else { b + 1 };
            assert(t[a] == s[a0] && t[b] == s[b0]);
        }
    } else {
        assert forall|a: int, b: int| 0 <= a < b < t.len() implies !(#[trigger] t[a]).is_stock_of(
            (#[trigger] t[b]).kind,
            t[b].ternary_value,
        ) by {
            assert(s[a].is_stock_of(t[a].kind, t[a].ternary_value));
            assert(s[b].is_stock_of(t[b].kind, t[b].ternary_value));
        }
    }
}

/// Moving a resource from one hold to another conserves ternary charge: when a
/// withdrawal from `a` succeeds and what it returns is stored in `b`, the charge and
/// the quantity of the two holds together are what they were before.
pub proof fn law_transfer_conserves(
    a: HoldView,
    b: HoldView,
    kind: ResourceKind,
    weight: TernaryWeight,
    quantity: u32,
)
    requires
        a.wf(),
        b.wf(),
        a.can_withdraw(kind, weight, quantity),
        b.fits(TernaryResource { kind, ternary_value: weight, quantity }),
    ensures
        total_charge(a.stock) + total_charge(b.stock) == total_charge(
            a.withdrawn(kind, weight, quantity).stock,
        ) + total_charge(b.stored(TernaryResource { kind, ternary_value: weight, quantity }).stock),
        total_quantity(a.stock) + total_quantity(b.stock) == total_quantity(
            a.withdrawn(kind, weight, quantity).stock,
        ) + total_quantity(b.stored(TernaryResource { kind, ternary_value: weight, quantity }).stock),
{
    law_withdraw_moves_stock(a, kind, weight, quantity);
    law_store_moves_stock(b, TernaryResource { kind, ternary_value: weight, quantity });
}

/// Withdrawing what was just stored succeeds, and leaves the hold with the stock,
/// quantity and charge it had before the store.
pub proof fn law_store_then_withdraw(v: HoldView, r: TernaryResource)
    requires
        v.wf(),
        v.fits(r),
    ensures
        v.stored(r).can_withdraw(r.kind, r.ternary_value, r.quantity),
        v.stored(r).withdrawn(r.kind, r.ternary_value, r.quantity).room_id == v.room_id,
        v.stored(r).withdrawn(r.kind, r.ternary_value, r.quantity).capacity == v.capacity,
        forall|m: Measure|
            #[trigger] sum_of(v.stored(r).withdrawn(r.kind, r.ternary_value, r.quantity).stock, m)
                == sum_of(v.stock, m),
{
    law_store_keeps_wf(v, r);
    let s = v.stock;
    let t = v.stored(r).stock;
    let u = v.stored(r).withdrawn(r.kind, r.ternary_value, r.quantity).stock;
    if has_slot(s, r.kind, r.ternary_value) {
        let i = slot_of(s, r.kind, r.ternary_value);
        lemma_stock_of_slot(s, r.kind, r.ternary_value);
        lemma_stock_within_quantity(s, r.kind, r.ternary_value);
        lemma_slot_unique(t, r.kind, r.ternary_value, i);
        if s[i].quantity == 0 {
            assert(u =~= s.remove(i));
            assert forall|m: Measure| #[trigger] sum_of(u, m) == sum_of(s, m) by {
                lemma_sum_remove(s, i, m);
            }
        } else {
            assert(u =~= s);
        }
    } else {
        lemma_slot_unique(t, r.kind, r.ternary_value, s.len() as int);
        assert(u =~= s);
    }
}

/// Stores ternary resources at a location.
#[derive(Debug)]
pub struct CargoHold {
    room_id: String,
    resources: Vec<TernaryResource>,
    capacity: u32,
}

impl View for CargoHold {
    type V = HoldView;

    closed spec fn view(&self) -> HoldView {
        HoldView { room_id: self.room_id@, stock: self.resources@, capacity: self.capacity }
    }
}

impl Clone for CargoHold {
    fn clone(&self) -> (c: CargoHold)
        ensures
            c@ == self@,
    {
        proof {
            use_type_invariant(self);
        }
        let resources = self.resources.clone();
        assert(resources@ =~= self.resources@);
        CargoHold { room_id: self.room_id.clone(), resources, capacity: self.capacity }
    }
}

impl CargoHold {
    /// Every cargo hold is well formed.
    #[verifier::type_invariant]
    pub open spec fn inv(self) -> bool {
        self@.wf()
    }

    pub fn new(room_id: &str, capacity: u32) -> (h: CargoHold)
        ensures
            h@ == (HoldView { room_id: room_id@, stock: Seq::empty(), capacity }),
            h@.wf(),
    {
        CargoHold { room_id: room_id.to_owned(), resources: Vec::new(), capacity }
    }

    /// Adds a resource, merging it into the entry of the same kind and weight.
    /// Returns false, and leaves the hold as it was, if the capacity would be exceeded.
    pub fn store(&mut self, resource: TernaryResource) -> (ok: bool)
        ensures
            ok == old(self)@.fits(resource),
            ok == (total_quantity(old(self)@.stock) + resource.quantity <= old(self)@.capacity),
            ok ==> final(self)@ == old(self)@.stored(resource),
            !ok ==> final(self)@ == old(self)@,
            final(self)@.wf(),
    {
        proof {
            use_type_invariant(&*self);
        }
        let used = self.total_quantity();
        if resource.quantity > self.capacity - used {
            return false;
        }
        proof {
            law_store_keeps_wf(self@, resource);
        }
        let mut i: usize = 0;
        while i < self.resources.len()
            invariant
                0 <= i <= self.resources@.len(),
                self@.wf(),
                self@ == old(self)@,
                self@.fits(resource),
                forall|j: int| 0 <= j < i ==> !(#[trigger] self.resources@[j]).is_stock_of(resource.kind, resource.ternary_value),
            decreases self.resources@.len() - i,
        {
            let r = self.resources[i];
            if r.kind == resource.kind && r.ternary_value == resource.ternary_value {
                proof {
                    lemma_slot_unique(self.resources@, resource.kind, resource.ternary_value, i as int);
                    lemma_stock_of_slot(self.resources@, resource.kind, resource.ternary_value);
                    lemma_stock_within_quantity(self.resources@, resource.kind, resource.ternary_value);
                }
                let merged = TernaryResource {
                    kind: r.kind,
                    ternary_value: r.ternary_value,
                    quantity: r.quantity + resource.quantity,
                };
                let mut stock: Vec<TernaryResource> = Vec::new();
                std::mem::swap(&mut stock, &mut self.resources);
                stock.set(i, merged);
                assert(stock@ == old(self)@.stored(resource).stock);
                proof {
                    law_store_keeps_wf(old(self)@, resource);
                }
                self.resources = stock;
                return true;
            }
            i = i + 1;
        }
        proof {
            if has_slot(self.resources@, resource.kind, resource.ternary_value) {
                let j = slot_of(self.resources@, resource.kind, resource.ternary_value);
                assert(!self.resources@[j].is_stock_of(resource.kind, resource.ternary_value));
            }
        }
        let mut stock: Vec<TernaryResource> = Vec::new();
        std::mem::swap(&mut stock, &mut self.resources);
        stock.push(resource);
        self.resources = stock;
        true
    }

    /// Removes `quantity` of the given kind and weight and returns it as a resource,
    /// or returns `None` and leaves the hold as it was if there is not that much.
    pub fn withdraw(&mut self, kind: ResourceKind, weight: TernaryWeight, quantity: u32) -> (out: Option<TernaryResource>)
        ensures
            out == (if old(self)@.can_withdraw(kind, weight, quantity) {
                Some(TernaryResource { kind, ternary_value: weight, quantity })
            } else {
                None
            }),
            final(self)@ == (if old(self)@.can_withdraw(kind, weight, quantity) {
                old(self)@.withdrawn(kind, weight, quantity)
            } else {
                old(self)@
            }),
            final(self)@.wf(),
    {
        proof {
            use_type_invariant(&*self);
        }
        let mut i: usize = 0;
        while i < self.resources.len()
            invariant
                0 <= i <= self.resources@.len(),
                self@.wf(),
                self@ == old(self)@,
                forall|j: int| 0 <= j < i ==> !(#[trigger] self.resources@[j]).is_stock_of(kind, weight),
            decreases self.resources@.len() - i,
        {
            let r = self.resources[i];
            if r.kind == kind && r.ternary_value == weight {
                proof {
                    lemma_slot_unique(self.resources@, kind, weight, i as int);
                }
                if r.quantity >= quantity {
                    proof {
                        law_withdraw_keeps_wf(self@, kind, weight, quantity);
                    }
                    let left = r.quantity - quantity;
                    let mut stock: Vec<TernaryResource> = Vec::new();
                    std::mem::swap(&mut stock, &mut self.resources);
                    if left == 0 {
                        stock.remove(i);
                    } else {
                        let rest = TernaryResource { kind: r.kind, ternary_value: r.ternary_value, quantity: left };
                        stock.set(i, rest);
                    }
                    self.resources = stock;
                    return Some(TernaryResource::new(kind, weight, quantity));
                }
                return None;
            }
            i = i + 1;
        }
        proof {
            if has_slot(self.resources@, kind, weight) {
                let j = slot_of(self.resources@, kind, weight);
                assert(!self.resources@[j].is_stock_of(kind, weight));
            }
        }
        None
    }

    pub fn room_id(&self) -> (r: &str)
        ensures
            r@ == self@.room_id,
    {
        self.room_id.as_str()
    }

    pub fn total_quantity(&self) -> (t: u32)
        ensures
            t == total_quantity(self@.stock),
    {
        proof {
            use_type_invariant(self);
        }
        let t = sum_quantity(self.resources.as_slice());
        t as u32
    }

    pub fn total_ternary_value(&self) -> (t: i64)
        ensures
            t == total_charge(self@.stock),
    {
        proof {
            use_type_invariant(self);
            lemma_charge_within_quantity(self@.stock);
        }
        let t = sum_charge(self.resources.as_slice());
        t as i64
    }

    pub fn resource_count(&self) -> (n: usize)
        ensures
            n == self@.stock.len(),
    {
        self.resources.len()
    }

    pub fn capacity(&self) -> (c: u32)
        ensures
            c == self@.capacity,
    {
        self.capacity
    }

    pub fn resources(&self) -> (r: &[TernaryResource])
        ensures
            r@ == self@.stock,
    {
        self.resources.as_slice()
    }
}

} // verus!
