//! What every named piece of game data offers.

use crate::traits::Trait;
use vstd::prelude::*;

verus! {

/// A piece of game data with a name and traits.
pub trait NamedElement {
    /// The traits, as plain values.
    spec fn element_traits(&self) -> Seq<Trait>;

    /// The name, as plain text.
    spec fn element_name(&self) -> Seq<char>;

    /// The name as it is shown to a reader, as plain text.
    spec fn element_formatted_name(&self) -> Seq<char>;

    fn traits(&self) -> (traits: &[Trait])
        ensures
            traits@ == self.element_traits(),
    ;

    fn name(&self) -> (name: &str)
        ensures
            name@ == self.element_name(),
    ;

    fn formatted_name(&self) -> (name: String)
        ensures
            name@ == self.element_formatted_name(),
    ;
}

} // verus!
