//! Age ranges: the seven stages of a life, and where each begins for an ancestry.

use crate::newtypes::WeightKey;
use vstd::prelude::*;

verus! {

/// A stage of life.
#[derive(Debug, Clone, Copy, Hash, PartialEq, PartialOrd, Eq, Ord, Structural)]
pub enum AgeRange {
    Infant,
    Child,
    Youth,
    Adult,
    MiddleAged,
    Old,
    Venerable,
}

impl Default for AgeRange {
    fn default() -> (range: Self)
        ensures
            range == AgeRange::Adult,
    {
        AgeRange::Adult
    }
}

impl WeightKey for AgeRange {
    type Id = AgeRange;

    open spec fn id(&self) -> AgeRange {
        *self
    }

    fn same_key(&self, other: &Self) -> (same: bool) {
        *self == *other
    }
}

impl AgeRange {
    /// The seven stages, youngest first.
    pub open spec fn all() -> Seq<AgeRange> {
        seq![
            AgeRange::Infant,
            AgeRange::Child,
            AgeRange::Youth,
            AgeRange::Adult,
            AgeRange::MiddleAged,
            AgeRange::Old,
            AgeRange::Venerable,
        ]
    }

    /// The seven stages, youngest first.
    pub fn values() -> (all: Vec<AgeRange>)
        ensures
            all@ == AgeRange::all(),
    {
        let mut all: Vec<AgeRange> = Vec::new();
        all.push(AgeRange::Infant);
        all.push(AgeRange::Child);
        all.push(AgeRange::Youth);
        all.push(AgeRange::Adult);
        all.push(AgeRange::MiddleAged);
        all.push(AgeRange::Old);
        all.push(AgeRange::Venerable);
        assert(all@ =~= AgeRange::all());
        all
    }

    /// The name of the stage.
    pub open spec fn name(&self) -> Seq<char> {
        match self {
            AgeRange::Infant => "Infant"@,
            AgeRange::Child => "Child"@,
            AgeRange::Youth => "Youth"@,
            AgeRange::Adult => "Adult"@,
            AgeRange::MiddleAged => "MiddleAged"@,
            AgeRange::Old => "Old"@,
            AgeRange::Venerable => "Venerable"@,
        }
    }

    /// The name of the stage.
    pub fn to_string(&self) -> (name: String)
        ensures
            name@ == self.name(),
    {
        match self {
            AgeRange::Infant => String::from_str("Infant"),
            AgeRange::Child => String::from_str("Child"),
            AgeRange::Youth => String::from_str("Youth"),
            AgeRange::Adult => String::from_str("Adult"),
            AgeRange::MiddleAged => String::from_str("MiddleAged"),
            AgeRange::Old => String::from_str("Old"),
            AgeRange::Venerable => String::from_str("Venerable"),
        }
    }
}

/// The ages at which the stages of life begin for an ancestry, and the age
/// at which life ends.
#[derive(Debug, Clone, Copy, PartialEq, Eq, Structural)]
pub struct AgeRanges {
    pub child: u64,
    pub youth: u64,
    pub adulthood: u64,
    pub middle_age: u64,
    pub old: u64,
    pub venerable: u64,
    pub lifespan: u64,
}

impl AgeRanges {
    /// The first age of a stage.
    pub open spec fn first_age(&self, range: AgeRange) -> int {
        match range {
            AgeRange::Infant => 0,
            AgeRange::Child => self.child as int,
            AgeRange::Youth => self.youth as int,
            AgeRange::Adult => self.adulthood as int,
            AgeRange::MiddleAged => self.middle_age as int,
            AgeRange::Old => self.old as int,
            AgeRange::Venerable => self.venerable as int,
        }
    }

    /// The first age past a stage: where the next stage begins, and for the
    /// last stage the year after the lifespan.
    pub open spec fn end_age(&self, range: AgeRange) -> int {
        match range {
            AgeRange::Infant => self.child as int,
            AgeRange::Child => self.youth as int,
            AgeRange::Youth => self.adulthood as int,
            AgeRange::Adult => self.middle_age as int,
            AgeRange::MiddleAged => self.old as int,
            AgeRange::Old => self.venerable as int,
            AgeRange::Venerable => self.lifespan + 1,
        }
    }

    /// Whether `age` lies in a stage: from its first age up to, and not
    /// including, its end.
    pub open spec fn holds(&self, range: AgeRange, age: int) -> bool {
        self.first_age(range) <= age < self.end_age(range)
    }

    /// The ages of a stage, as a half-open interval.
    pub fn get(&self, range: &AgeRange) -> (ages: core::ops::Range<u64>)
        requires
            self.end_age(*range) <= u64::MAX,
        ensures
            ages.start == self.first_age(*range),
            ages.end == self.end_age(*range),
    {
        match range {
            AgeRange::Infant => 0..self.child,
            AgeRange::Child => self.child..self.youth,
            AgeRange::Youth => self.youth..self.adulthood,
            AgeRange::Adult => self.adulthood..self.middle_age,
            AgeRange::MiddleAged => self.middle_age..self.old,
            AgeRange::Old => self.old..self.venerable,
            AgeRange::Venerable => self.venerable..self.lifespan + 1,
        }
    }

    /// The ages of a stage, or nothing where the end of the stage is past
    /// the largest age that can be written.
    pub fn checked_get(&self, range: &AgeRange) -> (ages: Option<core::ops::Range<u64>>)
        ensures
            ages is Some <==> self.end_age(*range) <= u64::MAX,
            ages matches Some(interval) ==> interval.start == self.first_age(*range)
                && interval.end == self.end_age(*range),
    {
        match range {
            AgeRange::Venerable => {
                if self.lifespan == u64::MAX {
                    None
                } else {
                    Some(self.get(range))
                }
            },
            _ => Some(self.get(range)),
        }
    }
}

} // verus!
