//! Creature sizes.

use vstd::prelude::*;

verus! {

/// How large a creature is.
#[derive(Debug, PartialEq, Eq, PartialOrd, Ord, Clone, Copy, Structural)]
pub enum Size {
    Tiny,
    Small,
    Medium,
    Large,
    Huge,
    Garganutan,
}

impl Size {
    /// The name of the size.
    pub open spec fn name(&self) -> Seq<char> {
        match self {
            Size::Tiny => "Tiny"@,
            Size::Small => "Small"@,
            Size::Medium => "Medium"@,
            Size::Large => "Large"@,
            Size::Huge => "Huge"@,
            Size::Garganutan => "Gargantuan"@,
        }
    }

    /// The name of the size.
    pub fn to_string(&self) -> (name: String)
        ensures
            name@ == self.name(),
    {
        match self {
            Size::Tiny => String::from_str("Tiny"),
            Size::Small => String::from_str("Small"),
            Size::Medium => String::from_str("Medium"),
            Size::Large => String::from_str("Large"),
            Size::Huge => String::from_str("Huge"),
            Size::Garganutan => String::from_str("Gargantuan"),
        }
    }

    /// How much a creature of the size can carry: the bulk doubles from one
    /// size to the next.
    pub open spec fn bulk_of(&self) -> nat {
        match self {
            Size::Tiny => 1,
            Size::Small => 3,
            Size::Medium => 6,
            Size::Large => 12,
            Size::Huge => 24,
            Size::Garganutan => 48,
        }
    }

    /// How much a creature of this size can carry.
    pub fn bulk(&self) -> (bulk: u64)
        ensures
            bulk == self.bulk_of(),
    {
        match self {
            Size::Tiny => 1,
            Size::Small => 3,
            Size::Medium => 6,
            Size::Large => 12,
            Size::Huge => 24,
            Size::Garganutan => 48,
        }
    }
}

} // verus!
