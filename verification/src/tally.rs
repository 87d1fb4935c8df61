//! Sums over sequences of resources: total quantity, total ternary charge, and
//! the quantity held of one kind and weight.
use vstd::prelude::*;
use crate::resource::{ResourceKind, TernaryResource, TernaryWeight, lemma_charge_bounds};

verus! {

/// What is summed over a sequence of resources.
pub enum Measure {
    /// The quantity of every resource.
    Quantity,
    /// The ternary charge (weight times quantity) of every resource.
    Charge,
    /// The quantity of the resources of one kind and weight; the others count zero.
    Stock(ResourceKind, TernaryWeight),
}

/// What one resource contributes to a sum of the given measure.
pub open spec fn measure(r: TernaryResource, m: Measure) -> int {
    match m {
        Measure::Quantity => r.quantity as int,
        Measure::Charge => r.charge(),
        Measure::Stock(kind, weight) => if r.is_stock_of(kind, weight) {
            r.quantity as int
        } else {
            0
        },
    }
}

/// The sum of a measure over a sequence of resources.
pub open spec fn sum_of(s: Seq<TernaryResource>, m: Measure) -> int
    decreases s.len(),
{
    if s.len() == 0 {
        0
    } else {
        sum_of(s.drop_last(), m) + measure(s.last(), m)
    }
}

/// The total quantity of a sequence of resources.
pub open spec fn total_quantity(s: Seq<TernaryResource>) -> int {
    sum_of(s, Measure::Quantity)
}

/// The total ternary charge of a sequence of resources.
pub open spec fn total_charge(s: Seq<TernaryResource>) -> int {
    sum_of(s, Measure::Charge)
}

/// The quantity of the resources of one kind and weight in a sequence.
pub open spec fn stock_quantity(s: Seq<TernaryResource>, kind: ResourceKind, weight: TernaryWeight) -> int {
    sum_of(s, Measure::Stock(kind, weight))
}

pub proof fn lemma_sum_push(s: Seq<TernaryResource>, x: TernaryResource, m: Measure)
    ensures
        sum_of(s.push(x), m) == sum_of(s, m) + measure(x, m),
{
    assert(s.push(x).drop_last() =~= s);
}

pub proof fn lemma_sum_append(a: Seq<TernaryResource>, b: Seq<TernaryResource>, m: Measure)
    ensures
        sum_of(a + b, m) == sum_of(a, m) + sum_of(b, m),
    decreases b.len(),
{
    if b.len() == 0 {
        assert(a + b =~= a);
    } else {
        lemma_sum_append(a, b.drop_last(), m);
        assert((a + b).drop_last() =~= a + b.drop_last());
    }
}

pub proof fn lemma_sum_take_next(s: Seq<TernaryResource>, i: int, m: Measure)
    requires
        0 <= i < s.len(),
    ensures
        sum_of(s.take(i + 1), m) == sum_of(s.take(i), m) + measure(s[i], m),
{
    assert(s.take(i + 1).drop_last() =~= s.take(i));
}

pub proof fn lemma_sum_take_all(s: Seq<TernaryResource>, m: Measure)
    ensures
        sum_of(s.take(s.len() as int), m) == sum_of(s, m),
{
    assert(s.take(s.len() as int) =~= s);
}

/// Replacing one element changes the sum by the difference of the two.
pub proof fn lemma_sum_update(s: Seq<TernaryResource>, i: int, x: TernaryResource, m: Measure)
    requires
        0 <= i < s.len(),
    ensures
        sum_of(s.update(i, x), m) == sum_of(s, m) - measure(s[i], m) + measure(x, m),
{
    let pre = s.take(i);
    let post = s.skip(i + 1);
    assert(s =~= pre.push(s[i]) + post);
    assert(s.update(i, x) =~= pre.push(x) + post);
    lemma_sum_append(pre.push(s[i]), post, m);
    lemma_sum_append(pre.push(x), post, m);
    lemma_sum_push(pre, s[i], m);
    lemma_sum_push(pre, x, m);
}

/// Removing one element takes it out of the sum.
pub proof fn lemma_sum_remove(s: Seq<TernaryResource>, i: int, m: Measure)
    requires
        0 <= i < s.len(),
    ensures
        sum_of(s.remove(i), m) == sum_of(s, m) - measure(s[i], m),
{
    let pre = s.take(i);
    let post = s.skip(i + 1);
    assert(s =~= pre.push(s[i]) + post);
    assert(s.remove(i) =~= pre + post);
    lemma_sum_append(pre.push(s[i]), post, m);
    lemma_sum_append(pre, post, m);
    lemma_sum_push(pre, s[i], m);
}

/// Quantities are bounded by what `u32` holds, so their total is bounded by the length.
pub proof fn lemma_quantity_bounds(s: Seq<TernaryResource>)
    ensures
        0 <= total_quantity(s) <= s.len() * 0xFFFF_FFFF,
    decreases s.len(),
{
    if s.len() > 0 {
        lemma_quantity_bounds(s.drop_last());
    }
}

/// The total charge lies between minus and plus the total quantity.
pub proof fn lemma_charge_within_quantity(s: Seq<TernaryResource>)
    ensures
        -total_quantity(s) <= total_charge(s) <= total_quantity(s),
    decreases s.len(),
{
    if s.len() > 0 {
        lemma_charge_within_quantity(s.drop_last());
        lemma_charge_bounds(s.last());
    }
}

/// The stock of one kind and weight is part of the total quantity.
pub proof fn lemma_stock_within_quantity(s: Seq<TernaryResource>, kind: ResourceKind, weight: TernaryWeight)
    ensures
        0 <= stock_quantity(s, kind, weight) <= total_quantity(s),
    decreases s.len(),
{
    if s.len() > 0 {
        lemma_stock_within_quantity(s.drop_last(), kind, weight);
    }
}

/// A resource of some kind and weight counts toward the stock of that kind and weight.
pub proof fn lemma_stock_includes(s: Seq<TernaryResource>, i: int)
    requires
        0 <= i < s.len(),
    ensures
        stock_quantity(s, s[i].kind, s[i].ternary_value) >= s[i].quantity,
    decreases s.len(),
{
    let kind = s[i].kind;
    let weight = s[i].ternary_value;
    if i < s.len() - 1 {
        lemma_stock_includes(s.drop_last(), i);
    } else {
        lemma_stock_within_quantity(s.drop_last(), kind, weight);
    }
}

/// Sums a measure over a slice. The sum is taken in `i128`, which no slice can overflow.
fn sum_measure(items: &[TernaryResource], m: &Measure) -> (t: i128)
    ensures
        t == sum_of(items@, *m),
        items@.len() <= usize::MAX,
{
    let mut acc: i128 = 0;
    let mut i: usize = 0;
    while i < items.len()
        invariant
            0 <= i <= items.len(),
            acc == sum_of(items@.take(i as int), *m),
        decreases items.len() - i,
    {
        proof {
            lemma_sum_take_next(items@, i as int, *m);
            lemma_quantity_bounds(items@.take(i as int));
            lemma_charge_within_quantity(items@.take(i as int));
            lemma_charge_bounds(items[i as int]);
        }
        let r = items[i];
        let delta: i128 = match m {
            Measure::Quantity => r.quantity as i128,
            Measure::Charge => r.total_value() as i128,
            Measure::Stock(kind, weight) => if r.kind == *kind && r.ternary_value == *weight {
                r.quantity as i128
            } else {
                0
            },
        };
        proof {
            match *m {
                Measure::Stock(kind, weight) => lemma_stock_within_quantity(items@.take(i as int), kind, weight),
                _ => {},
            }
        }
        acc = acc + delta;
        i = i + 1;
    }
    proof {
        lemma_sum_take_all(items@, *m);
    }
    acc
}

/// The total quantity of a slice.
pub(crate) fn sum_quantity(items: &[TernaryResource]) -> (t: i128)
    ensures
        t == total_quantity(items@),
        0 <= t <= items@.len() * 0xFFFF_FFFF,
        items@.len() <= usize::MAX,
{
    proof {
        lemma_quantity_bounds(items@);
    }
    sum_measure(items, &Measure::Quantity)
}

/// The total charge of a slice.
pub(crate) fn sum_charge(items: &[TernaryResource]) -> (t: i128)
    ensures
        t == total_charge(items@),
{
    sum_measure(items, &Measure::Charge)
}

/// The quantity of one kind and weight in a slice.
pub(crate) fn sum_stock(items: &[TernaryResource], kind: ResourceKind, weight: TernaryWeight) -> (t: i128)
    ensures
        t == stock_quantity(items@, kind, weight),
{
    sum_measure(items, &Measure::Stock(kind, weight))
}

} // verus!
