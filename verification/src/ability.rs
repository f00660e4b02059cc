//! The six abilities and the programs that raise and lower them.

use vstd::prelude::*;

verus! {

/// One of the six ability scores of a character.
#[derive(Debug, Copy, Clone, PartialEq, Eq, Hash, Structural)]
pub enum Ability {
    Charisma,
    Constitution,
    Dexterity,
    Intelligence,
    Strength,
    Wisdom,
}

/// One step of an ability program.
#[derive(Debug, Copy, Clone, PartialEq, Eq, Structural)]
pub enum AbilityBoost {
    /// Raise the named ability by one.
    Boost(Ability),
    /// Lower the named ability by one.
    Flaw(Ability),
    /// Raise an ability picked at random.
    Free,
}

impl Ability {
    /// The six abilities in their fixed order.
    pub open spec fn all() -> Seq<Ability> {
        seq![
            Ability::Charisma,
            Ability::Constitution,
            Ability::Dexterity,
            Ability::Intelligence,
            Ability::Strength,
            Ability::Wisdom,
        ]
    }

    /// The six abilities in their fixed order.
    pub fn values() -> (all: Vec<Ability>)
        ensures
            all@ == Ability::all(),
    {
        let mut all: Vec<Ability> = Vec::new();
        all.push(Ability::Charisma);
        all.push(Ability::Constitution);
        all.push(Ability::Dexterity);
        all.push(Ability::Intelligence);
        all.push(Ability::Strength);
        all.push(Ability::Wisdom);
        assert(all@ =~= Ability::all());
        all
    }

    /// Every ability is one of the six.
    pub proof fn lemma_all_complete(ability: Ability)
        ensures
            Ability::all().contains(ability),
            Ability::all().len() == 6,
            Ability::all().no_duplicates(),
    {
        let all = Ability::all();
        assert(all[0] == Ability::Charisma);
        assert(all[1] == Ability::Constitution);
        assert(all[2] == Ability::Dexterity);
        assert(all[3] == Ability::Intelligence);
        assert(all[4] == Ability::Strength);
        assert(all[5] == Ability::Wisdom);
    }
}

/// The ability program of an ancestry: its steps, in the order in which they
/// are applied.
#[derive(Debug)]
pub struct AbilityModifications {
    steps: Vec<AbilityBoost>,
}

impl View for AbilityModifications {
    type V = Seq<AbilityBoost>;

    closed spec fn view(&self) -> Seq<AbilityBoost> {
        self.steps@
    }
}

impl Clone for AbilityModifications {
    fn clone(&self) -> (copy: Self)
        ensures
            copy@ == self@,
    {
        let steps = self.steps.clone();
        assert(steps@ =~= self.steps@);
        AbilityModifications { steps }
    }
}

impl Default for AbilityModifications {
    fn default() -> (empty: Self)
        ensures
            empty@ == Seq::<AbilityBoost>::empty(),
    {
        AbilityModifications { steps: Vec::new() }
    }
}

impl AbilityModifications {
    /// The program with the given steps.
    pub fn new(value: Vec<AbilityBoost>) -> (program: Self)
        ensures
            program@ == value@,
    {
        AbilityModifications { steps: value }
    }

    /// The steps, first to last.
    pub fn iter(&self) -> (steps: &Vec<AbilityBoost>)
        ensures
            steps@ == self@,
    {
        &self.steps
    }

    /// The steps as a slice.
    pub fn as_ref(&self) -> (steps: &[AbilityBoost])
        ensures
            steps@ == self@,
    {
        self.steps.as_slice()
    }

    /// The steps, taken out of the program.
    pub fn into_vec(self) -> (steps: Vec<AbilityBoost>)
        ensures
            steps@ == self@,
    {
        self.steps
    }
}

} // verus!
