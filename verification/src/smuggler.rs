//! The smuggler: stealth transport that hides negative-weight resources from manifests.
use vstd::prelude::*;
use crate::resource::{TernaryResource, TernaryWeight, lemma_charge_bounds};
use crate::tally::{Measure, total_quantity, total_charge, sum_charge, lemma_quantity_bounds, lemma_sum_push};

verus! {

/// Every resource of the sequence has the negative weight.
pub open spec fn all_negative(s: Seq<TernaryResource>) -> bool {
    forall|i: int| 0 <= i < s.len() ==> (#[trigger] s[i]).ternary_value == TernaryWeight::Negative
}

/// Some hidden resource has the kind and the quantity of `r`.
pub open spec fn conceals(hidden: Seq<TernaryResource>, r: TernaryResource) -> bool {
    exists|j: int| 0 <= j < hidden.len() && (#[trigger] hidden[j]).kind == r.kind && hidden[j].quantity == r.quantity
}

/// The items, in order, that no hidden resource conceals.
pub open spec fn cleaned(items: Seq<TernaryResource>, hidden: Seq<TernaryResource>) -> Seq<TernaryResource>
    decreases items.len(),
{
    if items.len() == 0 {
        Seq::empty()
    } else {
        let rest = cleaned(items.drop_last(), hidden);
        if conceals(hidden, items.last()) {
            rest
        } else {
            rest.push(items.last())
        }
    }
}

/// Stealth transport for adversarial scenarios: hides negative-value resources.
#[derive(Debug)]
pub struct Smuggler {
    hidden: Vec<TernaryResource>,
}

impl View for Smuggler {
    type V = Seq<TernaryResource>;

    closed spec fn view(&self) -> Seq<TernaryResource> {
        self.hidden@
    }
}

impl Smuggler {
    /// Only negative-weight resources are ever hidden.
    #[verifier::type_invariant]
    pub open spec fn inv(self) -> bool {
        all_negative(self@)
    }

    pub fn new() -> (s: Smuggler)
        ensures
            s@ == Seq::<TernaryResource>::empty(),
    {
        Smuggler { hidden: Vec::new() }
    }

    /// Hide a negative-ternary resource from inspection; other resources are refused.
    pub fn hide_resource(&mut self, resource: TernaryResource) -> (ok: bool)
        ensures
            ok == (resource.ternary_value == TernaryWeight::Negative),
            ok ==> final(self)@ == old(self)@.push(resource),
            !ok ==> final(self)@ == old(self)@,
            all_negative(final(self)@),
    {
        proof {
            use_type_invariant(&*self);
        }
        if resource.ternary_value == TernaryWeight::Negative {
            let mut hidden: Vec<TernaryResource> = Vec::new();
            std::mem::swap(&mut hidden, &mut self.hidden);
            hidden.push(resource);
            assert(all_negative(hidden@)) by {
                assert forall|i: int| 0 <= i < hidden@.len() implies (#[trigger] hidden@[i]).ternary_value
                    == TernaryWeight::Negative by {
                    if i < hidden@.len() - 1 {
                        assert(hidden@[i] == old(self)@[i]);
                    }
                }
            }
            self.hidden = hidden;
            true
        } else {
            false
        }
    }

    /// Produce a "clean" manifest that omits every item of the kind and quantity of
    /// some hidden resource.
    pub fn clean_manifest(&self, all_items: &[TernaryResource]) -> (out: Vec<TernaryResource>)
        ensures
            out@ == cleaned(all_items@, self@),
            out@ == all_items@.filter(
                |r: TernaryResource|
                    forall|j: int|
                        0 <= j < self@.len() ==> !((#[trigger] self@[j]).kind == r.kind && self@[j].quantity
                            == r.quantity),
            ),
    {
        let mut out: Vec<TernaryResource> = Vec::new();
        let mut i: usize = 0;
        while i < all_items.len()
            invariant
                0 <= i <= all_items@.len(),
                out@ == cleaned(all_items@.take(i as int), self@),
            decreases all_items@.len() - i,
        {
            let r = all_items[i];
            let mut found = false;
            let mut j: usize = 0;
            while j < self.hidden.len()
                invariant
                    0 <= j <= self@.len(),
                    found == exists|k: int| 0 <= k < j && (#[trigger] self@[k]).kind == r.kind && self@[k].quantity == r.quantity,
                decreases self@.len() - j,
            {
                let h = self.hidden[j];
                if h.kind == r.kind && h.quantity == r.quantity {
                    found = true;
                }
                j = j + 1;
            }
            assert(all_items@.take(i + 1).drop_last() =~= all_items@.take(i as int));
            if !found {
                out.push(r);
            }
            i = i + 1;
        }
        assert(all_items@.take(i as int) =~= all_items@);
        proof {
            law_cleaned_is_exact_filter(all_items@, self@);
        }
        out
    }

    /// Reveal all hidden resources, leaving nothing hidden.
    pub fn reveal_all(&mut self) -> (out: Vec<TernaryResource>)
        ensures
            out@ == old(self)@,
            final(self)@ == Seq::<TernaryResource>::empty(),
            all_negative(out@),
    {
        proof {
            use_type_invariant(&*self);
        }
        let mut out: Vec<TernaryResource> = Vec::new();
        std::mem::swap(&mut out, &mut self.hidden);
        out
    }

    pub fn hidden_count(&self) -> (n: usize)
        ensures
            n == self@.len(),
    {
        self.hidden.len()
    }

    /// The total ternary value of what is hidden: minus its total quantity.
    pub fn hidden_value(&self) -> (v: i64)
        requires
            total_quantity(self@) <= 0x8000_0000_0000_0000,
        ensures
            v == total_charge(self@),
            v == -total_quantity(self@),
    {
        proof {
            use_type_invariant(self);
            lemma_negative_charge(self@);
            lemma_quantity_bounds(self@);
        }
        let v = sum_charge(self.hidden.as_slice());
        v as i64
    }
}

/// The charge of negative-weight resources is minus their quantity.
pub proof fn lemma_negative_charge(s: Seq<TernaryResource>)
    requires
        all_negative(s),
    ensures
        total_charge(s) == -total_quantity(s),
    decreases s.len(),
{
    if s.len() > 0 {
        let rest = s.drop_last();
        assert forall|i: int| 0 <= i < rest.len() implies (#[trigger] rest[i]).ternary_value
            == TernaryWeight::Negative by {
            assert(rest[i] == s[i]);
        }
        lemma_negative_charge(rest);
        lemma_charge_bounds(s.last());
    }
}

/// A clean manifest keeps no item that a hidden resource conceals, keeps every item
/// that none conceals, and holds nothing that was not among the items.
pub proof fn law_cleaned_filters(items: Seq<TernaryResource>, hidden: Seq<TernaryResource>)
    ensures
        forall|i: int| 0 <= i < cleaned(items, hidden).len() ==> !conceals(hidden, #[trigger] cleaned(items, hidden)[i]),
        forall|i: int| 0 <= i < cleaned(items, hidden).len() ==> items.contains(#[trigger] cleaned(items, hidden)[i]),
        forall|i: int| 0 <= i < items.len() && !conceals(hidden, #[trigger] items[i]) ==> cleaned(items, hidden).contains(items[i]),
        cleaned(items, hidden).len() <= items.len(),
    decreases items.len(),
{
    if items.len() > 0 {
        let rest = items.drop_last();
        law_cleaned_filters(rest, hidden);
        let c = cleaned(items, hidden);
        let cr = cleaned(rest, hidden);
        let last = items.last();
        assert forall|i: int| 0 <= i < c.len() implies items.contains(#[trigger] c[i]) by {
            if i < cr.len() {
                assert(c[i] == cr[i]);
                assert(rest.contains(cr[i]));
                let k = choose|k: int| 0 <= k < rest.len() && rest[k] == cr[i];
                assert(items[k] == rest[k]);
            } else {
                assert(c[i] == last);
                assert(items[items.len() - 1] == last);
            }
        }
        assert forall|i: int| 0 <= i < c.len() implies !conceals(hidden, #[trigger] c[i]) by {
            if i < cr.len() {
                assert(c[i] == cr[i]);
            }
        }
        assert forall|i: int| 0 <= i < items.len() && !conceals(hidden, #[trigger] items[i]) implies c.contains(items[i]) by {
            if i < items.len() - 1 {
                assert(items[i] == rest[i]);
                assert(cr.contains(rest[i]));
                let k = choose|k: int| 0 <= k < cr.len() && cr[k] == rest[i];
                assert(c[k] == cr[k]);
            } else {
                assert(c[c.len() - 1] == last);
            }
        }
    }
}

/// A clean manifest is the items, in order, less exactly those for which some hidden
/// resource has the same kind and the same quantity: an item whose quantity differs
/// from that of every hidden resource of its kind is kept, and with nothing hidden
/// every item is kept.
pub proof fn law_cleaned_is_exact_filter(items: Seq<TernaryResource>, hidden: Seq<TernaryResource>)
    ensures
        cleaned(items, hidden) == items.filter(
            |r: TernaryResource|
                forall|j: int|
                    0 <= j < hidden.len() ==> !((#[trigger] hidden[j]).kind == r.kind && hidden[j].quantity
                        == r.quantity),
        ),
        forall|i: int|
            0 <= i < items.len() && (forall|j: int|
                0 <= j < hidden.len() ==> !((#[trigger] hidden[j]).kind == (#[trigger] items[i]).kind
                    && hidden[j].quantity == items[i].quantity)) ==> cleaned(items, hidden).contains(items[i]),
        forall|k: int, j: int|
            0 <= k < cleaned(items, hidden).len() && 0 <= j < hidden.len() ==> !((#[trigger] hidden[j]).kind
                == (#[trigger] cleaned(items, hidden)[k]).kind && hidden[j].quantity == cleaned(
                items,
                hidden,
            )[k].quantity),
        hidden.len() == 0 ==> cleaned(items, hidden) == items,
    decreases items.len(),
{
    let pred = |r: TernaryResource|
        forall|j: int|
            0 <= j < hidden.len() ==> !((#[trigger] hidden[j]).kind == r.kind && hidden[j].quantity == r.quantity);
    reveal(Seq::filter);
    law_cleaned_filters(items, hidden);
    if items.len() > 0 {
        law_cleaned_is_exact_filter(items.drop_last(), hidden);
        assert(pred(items.last()) == !conceals(hidden, items.last()));
    } else {
        assert(cleaned(items, hidden) =~= items);
    }
    assert forall|i: int|
        0 <= i < items.len() && (forall|j: int|
            0 <= j < hidden.len() ==> !((#[trigger] hidden[j]).kind == (#[trigger] items[i]).kind
                && hidden[j].quantity == items[i].quantity)) implies cleaned(items, hidden).contains(items[i]) by {
        if conceals(hidden, items[i]) {
            let j = choose|j: int| 0 <= j < hidden.len() && (#[trigger] hidden[j]).kind == items[i].kind && hidden[j].quantity == items[i].quantity;
            assert(false);
        }
    }
    assert forall|k: int, j: int|
        0 <= k < cleaned(items, hidden).len() && 0 <= j < hidden.len() implies !((#[trigger] hidden[j]).kind
            == (#[trigger] cleaned(items, hidden)[k]).kind && hidden[j].quantity == cleaned(items, hidden)[k].quantity) by {
        assert(!conceals(hidden, cleaned(items, hidden)[k]));
    }
    if hidden.len() == 0 {
        lemma_nothing_hidden_keeps_all(items, hidden);
    }
}

proof fn lemma_nothing_hidden_keeps_all(items: Seq<TernaryResource>, hidden: Seq<TernaryResource>)
    requires
        hidden.len() == 0,
    ensures
        cleaned(items, hidden) == items,
    decreases items.len(),
{
    if items.len() > 0 {
        lemma_nothing_hidden_keeps_all(items.drop_last(), hidden);
        assert(items.drop_last().push(items.last()) =~= items);
    } else {
        assert(cleaned(items, hidden) =~= items);
    }
}

/// Smuggling inflates the declared value: where every item that the hidden resources
/// conceal has the negative weight, a clean manifest carries at least the ternary value
/// of all the items.
pub proof fn law_cleaning_raises_value(items: Seq<TernaryResource>, hidden: Seq<TernaryResource>)
    requires
        forall|i: int|
            0 <= i < items.len() && conceals(hidden, #[trigger] items[i]) ==> items[i].ternary_value
                == TernaryWeight::Negative,
    ensures
        total_charge(cleaned(items, hidden)) >= total_charge(items),
    decreases items.len(),
{
    if items.len() > 0 {
        let rest = items.drop_last();
        assert forall|i: int| 0 <= i < rest.len() && conceals(hidden, #[trigger] rest[i]) implies rest[i].ternary_value
            == TernaryWeight::Negative by {
            assert(rest[i] == items[i]);
        }
        law_cleaning_raises_value(rest, hidden);
        lemma_charge_bounds(items.last());
        if !conceals(hidden, items.last()) {
            lemma_sum_push(cleaned(rest, hidden), items.last(), Measure::Charge);
        }
    }
}

} // verus!
