//! Lists of weighted elements.

use crate::random::none_negative;
use crate::random::signed_distribution_weights;
use crate::random::signed_total_weight;
use crate::random::signed_weighted_index;
use crate::random::SignedWeightedIndex;
use crate::random::WeightedError;
use std::sync::Arc;
use vstd::prelude::*;

verus! {

/// An element with its weight.
#[derive(Debug)]
pub struct WeightedElement<T: Clone> {
    pub weight: i64,
    pub element: T,
}

/// A shared, fixed list of weighted elements.
#[derive(Debug)]
pub struct WeightedHeapArray<T: Clone>(pub Arc<Vec<WeightedElement<T>>>);

/// A list of weighted elements.
#[derive(Debug)]
pub struct WeightedVector<T: Clone>(pub Vec<WeightedElement<T>>);

/// The weights of a sequence of weighted elements, in order.
pub open spec fn weights_of<T: Clone>(items: Seq<WeightedElement<T>>) -> Seq<i64> {
    items.map_values(|item: WeightedElement<T>| item.weight)
}

/// Whether `copies` holds a clone of the element of each item, in order.
pub open spec fn clones_of<T: Clone>(items: Seq<WeightedElement<T>>, copies: Seq<T>) -> bool {
    &&& copies.len() == items.len()
    &&& forall|i: int| 0 <= i < items.len() ==> cloned(items[i].element, #[trigger] copies[i])
}

/// Whether `func` can be applied to every clone of the element of every item.
pub open spec fn accepts_clones<T: Clone, R, F: Fn(T) -> R>(
    func: F,
    items: Seq<WeightedElement<T>>,
) -> bool {
    forall|i: int, copy: T|
        0 <= i < items.len() && #[trigger] cloned(items[i].element, copy) ==> call_requires(
            func,
            (copy,),
        )
}

/// Whether `mapped` holds, for each item in order, the same weight and
/// what `func` made of a clone of the element.
pub open spec fn mapped_by<T: Clone, R: Clone, F: Fn(T) -> R>(
    func: F,
    items: Seq<WeightedElement<T>>,
    mapped: Seq<WeightedElement<R>>,
) -> bool {
    &&& mapped.len() == items.len()
    &&& weights_of(mapped) == weights_of(items)
    &&& forall|i: int|
        0 <= i < items.len() ==> made_of(func, items[i].element, (#[trigger] mapped[i]).element)
}

/// Whether `result` is what `func` can make of a clone of `element`.
pub open spec fn made_of<T: Clone, R, F: Fn(T) -> R>(func: F, element: T, result: R) -> bool {
    exists|copy: T| #[trigger] cloned(element, copy) && call_ensures(func, (copy,), result)
}

/// Whether a list of signed weights can be drawn from: it is not empty, no
/// weight is negative, some weight is positive, and the weights sum to no
/// more than the largest weight.
pub open spec fn signed_drawable(weights: Seq<i64>) -> bool {
    weights.len() > 0 && none_negative(weights) && 0 < signed_total_weight(weights) <= i64::MAX
}

/// The error that stands in the way of drawing from a list of signed weights.
pub open spec fn signed_draw_error(weights: Seq<i64>) -> WeightedError {
    if weights.len() == 0 {
        WeightedError::NoItem
    } else if !none_negative(weights) || signed_total_weight(weights) > i64::MAX {
        WeightedError::InvalidWeight
    } else {
        WeightedError::AllWeightsZero
    }
}

/// The sum of a list of weights without a negative one never goes down
/// as the list grows.
proof fn lemma_signed_total_of_prefix(weights: Seq<i64>, n: int)
    requires
        none_negative(weights),
        0 <= n <= weights.len(),
    ensures
        0 <= signed_total_weight(weights.take(n)) <= signed_total_weight(weights),
    decreases weights.len(),
{
    if n == weights.len() {
        assert(weights.take(n) =~= weights);
        if n > 0 {
            assert(weights.drop_last() =~= weights.take(n - 1));
            assert(weights[n - 1] >= 0);
            lemma_signed_total_of_prefix(weights.drop_last(), n - 1);
            assert(weights.drop_last().take(n - 1) =~= weights.drop_last());
        }
    } else {
        assert forall|i: int| 0 <= i < weights.drop_last().len() implies #[trigger] weights.drop_last()[i]
            >= 0 by {
            assert(weights[i] >= 0);
        }
        lemma_signed_total_of_prefix(weights.drop_last(), n);
        assert(weights.drop_last().take(n) =~= weights.take(n));
        assert(weights[weights.len() - 1] >= 0);
    }
}

/// Builds the distribution over the positions of a list of signed weights.
///
/// Succeeds exactly on a list that can be drawn from; otherwise names what
/// is wrong.
pub fn signed_distribution_of(weights: &Vec<i64>) -> (made: Result<
    SignedWeightedIndex,
    WeightedError,
>)
    ensures
        match made {
            Ok(distribution) => signed_drawable(weights@) && signed_distribution_weights(
                distribution,
            ) == weights@,
            Err(error) => !signed_drawable(weights@) && error == signed_draw_error(weights@),
        },
{
    if weights.len() == 0 {
        return Err(WeightedError::NoItem);
    }
    let mut i: usize = 0;
    while i < weights.len()
        invariant
            i <= weights.len(),
            none_negative(weights@.take(i as int)),
        decreases weights.len() - i,
    {
        if weights[i] < 0 {
            return Err(WeightedError::InvalidWeight);
        }
        proof {
            assert forall|k: int| 0 <= k < i + 1 implies #[trigger] weights@.take(i as int + 1)[k]
                >= 0 by {
                if k < i {
                    assert(weights@.take(i as int)[k] >= 0);
                }
            }
        }
        i += 1;
    }
    proof {
        assert(weights@.take(i as int) =~= weights@);
    }
    let mut sum: i64 = 0;
    let mut j: usize = 0;
    proof {
        assert(weights@.take(0) =~= Seq::<i64>::empty());
    }
    while j < weights.len()
        invariant
            j <= weights.len(),
            none_negative(weights@),
            sum == signed_total_weight(weights@.take(j as int)),
        decreases weights.len() - j,
    {
        proof {
            assert(weights@.take(j as int + 1).drop_last() =~= weights@.take(j as int));
            assert(weights@.take(j as int + 1).last() == weights@[j as int]);
            lemma_signed_total_of_prefix(weights@, j as int);
            lemma_signed_total_of_prefix(weights@, j as int + 1);
        }
        match sum.checked_add(weights[j]) {
            Some(next) => {
                sum = next;
            },
            None => {
                return Err(WeightedError::InvalidWeight);
            },
        }
        j += 1;
    }
    proof {
        assert(weights@.take(j as int) =~= weights@);
        lemma_signed_total_of_prefix(weights@, weights@.len() as int);
    }
    signed_weighted_index(weights)
}

/// What a list of weighted elements offers.
pub trait WeightedContainer {
    type Element: Clone;

    /// The items of the list.
    spec fn items(&self) -> Seq<WeightedElement<Self::Element>>;

    fn weighted_distribution(&self) -> (made: Result<SignedWeightedIndex, WeightedError>)
        ensures
            match made {
                Ok(distribution) => signed_drawable(weights_of(self.items()))
                    && signed_distribution_weights(distribution) == weights_of(self.items()),
                Err(error) => !signed_drawable(weights_of(self.items())) && error
                    == signed_draw_error(weights_of(self.items())),
            },
    ;

    fn weights(&self) -> (weights: Vec<i64>)
        ensures
            weights@ == weights_of(self.items()),
    ;

    fn elements(&self) -> (elements: Vec<Self::Element>)
        ensures
            clones_of(self.items(), elements@),
    ;
}

fn list_weights<T: Clone>(items: &Vec<WeightedElement<T>>) -> (weights: Vec<i64>)
    ensures
        weights@ == weights_of(items@),
{
    let mut weights: Vec<i64> = Vec::new();
    let mut i: usize = 0;
    while i < items.len()
        invariant
            i <= items.len(),
            weights@ =~= weights_of(items@.take(i as int)),
        decreases items.len() - i,
    {
        weights.push(items[i].weight);
        i += 1;
    }
    proof {
        assert(items@.take(i as int) =~= items@);
    }
    weights
}

fn list_elements<T: Clone>(items: &Vec<WeightedElement<T>>) -> (elements: Vec<T>)
    ensures
        clones_of(items@, elements@),
{
    let mut elements: Vec<T> = Vec::new();
    let mut i: usize = 0;
    while i < items.len()
        invariant
            i <= items.len(),
            elements@.len() == i,
            forall|k: int| 0 <= k < i ==> cloned(items@[k].element, #[trigger] elements@[k]),
        decreases items.len() - i,
    {
        elements.push(items[i].element.clone());
        i += 1;
    }
    elements
}

fn map_list<T: Clone, R: Clone, F: Fn(T) -> R>(items: &Vec<WeightedElement<T>>, func: &F) -> (mapped:
    Vec<WeightedElement<R>>)
    requires
        accepts_clones(*func, items@),
    ensures
        mapped_by(*func, items@, mapped@),
{
    let mut mapped: Vec<WeightedElement<R>> = Vec::new();
    let mut i: usize = 0;
    while i < items.len()
        invariant
            i <= items.len(),
            mapped@.len() == i,
            accepts_clones(*func, items@),
            weights_of(mapped@) =~= weights_of(items@.take(i as int)),
            forall|k: int|
                0 <= k < i ==> made_of(*func, items@[k].element, (#[trigger] mapped@[k]).element),
        decreases items.len() - i,
    {
        let copy = items[i].element.clone();
        let ghost witness = copy;
        assert(cloned(items@[i as int].element, copy));
        let ghost before = mapped@;
        let element = func(copy);
        mapped.push(WeightedElement { element, weight: items[i].weight });
        proof {
            assert(cloned(items@[i as int].element, witness) && call_ensures(
                *func,
                (witness,),
                mapped@[i as int].element,
            ));
            assert(made_of(*func, items@[i as int].element, mapped@[i as int].element));
            assert(weights_of(mapped@) =~= weights_of(before).push(items@[i as int].weight));
            assert(items@.take(i as int + 1) =~= items@.take(i as int).push(items@[i as int]));
            assert forall|k: int| 0 <= k < i + 1 implies made_of(
                *func,
                items@[k].element,
                (#[trigger] mapped@[k]).element,
            ) by {
                if k < i {
                    assert(mapped@[k] == before[k]);
                }
            }
        }
        i += 1;
    }
    proof {
        assert(items@.take(i as int) =~= items@);
    }
    mapped
}

impl<T: Clone> WeightedHeapArray<T> {
    /// The list in which `func` has been applied to a clone of each
    /// element; the weights stay.
    pub fn map_elements<F: Fn(T) -> R, R: Clone>(&self, func: F) -> (mapped: WeightedHeapArray<R>)
        requires
            accepts_clones(func, self.0@),
        ensures
            mapped_by(func, self.0@, mapped.0@),
    {
        WeightedHeapArray(Arc::new(map_list(&self.0, &func)))
    }
}

impl<T: Clone> WeightedContainer for WeightedHeapArray<T> {
    type Element = T;

    open spec fn items(&self) -> Seq<WeightedElement<T>> {
        self.0@
    }

    fn weighted_distribution(&self) -> (made: Result<SignedWeightedIndex, WeightedError>) {
        signed_distribution_of(&list_weights(&self.0))
    }

    fn weights(&self) -> (weights: Vec<i64>) {
        list_weights(&self.0)
    }

    fn elements(&self) -> (elements: Vec<T>) {
        list_elements(&self.0)
    }
}

impl<T: Clone> WeightedVector<T> {
    /// The list in which `func` has been applied to a clone of each
    /// element; the weights stay.
    pub fn map_elements<F: Fn(T) -> R, R: Clone>(&self, func: F) -> (mapped: WeightedVector<R>)
        requires
            accepts_clones(func, self.0@),
        ensures
            mapped_by(func, self.0@, mapped.0@),
    {
        WeightedVector(map_list(&self.0, &func))
    }
}

impl<T: Clone> WeightedContainer for WeightedVector<T> {
    type Element = T;

    open spec fn items(&self) -> Seq<WeightedElement<T>> {
        self.0@
    }

    fn weighted_distribution(&self) -> (made: Result<SignedWeightedIndex, WeightedError>) {
        signed_distribution_of(&list_weights(&self.0))
    }

    fn weights(&self) -> (weights: Vec<i64>) {
        list_weights(&self.0)
    }

    fn elements(&self) -> (elements: Vec<T>) {
        list_elements(&self.0)
    }
}

} // verus!
