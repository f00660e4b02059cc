//! Mutations and the chance with which each occurs.

use vstd::prelude::*;

verus! {

/// A rare trait of the body.
#[derive(Debug, Clone, Copy, PartialEq, Eq, Hash, Structural)]
pub enum Mutation {
    /// Eyes of two different colors.
    Heterochromia,
}

/// A chance: `numerator` times in `denominator`. It is a probability where
/// the denominator is positive and the numerator does not pass it.
#[derive(Debug, Clone, Copy, PartialEq, Eq, Structural)]
pub struct Probability {
    pub numerator: u32,
    pub denominator: u32,
}

impl Probability {
    /// Whether the two numbers describe a probability.
    pub open spec fn valid(&self) -> bool {
        self.numerator <= self.denominator && self.denominator != 0
    }

    /// Whether the event is certain.
    pub open spec fn certain(&self) -> bool {
        self.valid() && self.numerator == self.denominator
    }

    /// Whether the event cannot occur.
    pub open spec fn impossible(&self) -> bool {
        self.valid() && self.numerator == 0
    }

    /// The chance of `numerator` in `denominator`.
    pub fn new(numerator: u32, denominator: u32) -> (chance: Self)
        ensures
            chance.numerator == numerator,
            chance.denominator == denominator,
    {
        Probability { numerator, denominator }
    }

    /// The certain event.
    pub fn always() -> (chance: Self)
        ensures
            chance.certain(),
    {
        Probability { numerator: 1, denominator: 1 }
    }

    /// The event that never occurs.
    pub fn never() -> (chance: Self)
        ensures
            chance.impossible(),
    {
        Probability { numerator: 0, denominator: 1 }
    }

    /// Runs one trial. Gives nothing where the two numbers describe no
    /// probability; a certain event always occurs, an impossible one never.
    pub fn trial(&self, rng: &mut rand::rngs::StdRng) -> (occurred: Option<bool>)
        ensures
            occurred is Some <==> self.valid(),
            self.certain() ==> occurred == Some(true),
            self.impossible() ==> occurred == Some(false),
    {
        crate::random::bernoulli(rng, self.numerator, self.denominator)
    }
}

/// The chance of one mutation.
#[derive(Debug, Clone, Copy, PartialEq, Eq, Structural)]
pub struct MutationChance {
    pub mutation: Mutation,
    pub chance: Probability,
}

/// The chance of each mutation of an ancestry. Where a mutation is listed
/// more than once, the first listing counts.
#[derive(Debug)]
pub struct MutationProbabilities {
    pub chances: Vec<MutationChance>,
}

/// The chance listed first for a mutation, if it is listed.
pub open spec fn chance_of(chances: Seq<MutationChance>, mutation: Mutation) -> Option<
    Probability,
>
    decreases chances.len(),
{
    if chances.len() == 0 {
        None
    } else if chances[0].mutation == mutation {
        Some(chances[0].chance)
    } else {
        chance_of(chances.drop_first(), mutation)
    }
}

impl View for MutationProbabilities {
    type V = Seq<MutationChance>;

    open spec fn view(&self) -> Seq<MutationChance> {
        self.chances@
    }
}

impl Clone for MutationProbabilities {
    fn clone(&self) -> (copy: Self)
        ensures
            copy@ == self@,
    {
        let chances = self.chances.clone();
        assert(chances@ =~= self.chances@);
        MutationProbabilities { chances }
    }
}

impl Default for MutationProbabilities {
    fn default() -> (none: Self)
        ensures
            none@ == Seq::<MutationChance>::empty(),
    {
        MutationProbabilities { chances: Vec::new() }
    }
}

impl MutationProbabilities {
    /// The chance of a mutation, if it is listed.
    pub fn get(&self, mutation: Mutation) -> (chance: Option<Probability>)
        ensures
            chance == chance_of(self@, mutation),
    {
        let mut i: usize = 0;
        while i < self.chances.len()
            invariant
                i <= self.chances.len(),
                chance_of(self@, mutation) == chance_of(self@.skip(i as int), mutation),
            decreases self.chances.len() - i,
        {
            proof {
                assert(self@.skip(i as int).drop_first() =~= self@.skip(i as int + 1));
            }
            if self.chances[i].mutation == mutation {
                return Some(self.chances[i].chance);
            }
            i += 1;
        }
        None
    }
}

} // verus!
