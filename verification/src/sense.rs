//! Senses beyond the ordinary.

use vstd::prelude::*;

verus! {

/// A sense such as "darkvision".
#[derive(Debug, PartialEq, Eq)]
pub struct Sense {
    pub label: String,
}

impl View for Sense {
    type V = Seq<char>;

    open spec fn view(&self) -> Seq<char> {
        self.label@
    }
}

impl Clone for Sense {
    fn clone(&self) -> (copy: Self)
        ensures
            copy == *self,
    {
        Sense { label: self.label.clone() }
    }
}

impl Sense {
    /// The sense with the given label.
    pub fn new(value: &str) -> (made: Self)
        ensures
            made@ == value@,
    {
        Sense { label: String::from_str(value) }
    }

    /// The label.
    pub fn as_ref(&self) -> (label: &str)
        ensures
            label@ == self@,
    {
        self.label.as_str()
    }
}

} // verus!
