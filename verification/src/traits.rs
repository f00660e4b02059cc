//! Traits: the free-form tags a character carries.

use vstd::prelude::*;

verus! {

/// A single tag such as "Humanoid" or "Medium".
#[derive(Debug, PartialEq, Eq, Hash)]
pub struct Trait {
    pub label: String,
}

impl View for Trait {
    type V = Seq<char>;

    open spec fn view(&self) -> Seq<char> {
        self.label@
    }
}

impl Clone for Trait {
    fn clone(&self) -> (copy: Self)
        ensures
            copy == *self,
    {
        Trait { label: self.label.clone() }
    }
}

impl Default for Trait {
    fn default() -> (empty: Self)
        ensures
            empty@ == Seq::<char>::empty(),
    {
        Trait { label: String::new() }
    }
}

impl Trait {
    /// A trait with the given label.
    pub fn new(value: &str) -> (made: Self)
        ensures
            made@ == value@,
    {
        Trait { label: String::from_str(value) }
    }

    /// The label.
    pub fn as_str(&self) -> (label: &str)
        ensures
            label@ == self@,
    {
        self.label.as_str()
    }

    /// The label as an owned string.
    pub fn to_string(&self) -> (label: String)
        ensures
            label@ == self@,
    {
        self.label.clone()
    }

    /// Whether two traits carry the same label.
    pub fn same(&self, other: &Trait) -> (same: bool)
        ensures
            same == (self@ == other@),
    {
        self.label == other.label
    }
}

/// The labels of a sequence of traits, in order.
pub open spec fn labels(traits: Seq<Trait>) -> Seq<Seq<char>> {
    traits.map_values(|t: Trait| t@)
}

/// Whether `traits` holds a trait with the label of `wanted`.
pub fn has_trait(traits: &Vec<Trait>, wanted: &Trait) -> (found: bool)
    ensures
        found == labels(traits@).contains(wanted@),
{
    let mut i: usize = 0;
    while i < traits.len()
        invariant
            i <= traits.len(),
            forall|j: int| 0 <= j < i ==> traits@[j]@ != wanted@,
        decreases traits.len() - i,
    {
        if traits[i].same(wanted) {
            assert(labels(traits@)[i as int] == wanted@);
            return true;
        }
        i += 1;
    }
    false
}


} // verus!
