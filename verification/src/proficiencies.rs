//! Proficiency tiers and the bonus each of them grants.

use crate::skills::Skill;
use vstd::prelude::*;

verus! {

/// How well a character is trained in something.
#[derive(Debug, PartialOrd, Ord, PartialEq, Eq, Clone, Copy, Structural)]
pub enum Proficiency {
    Untrained,
    Trained,
    Expert,
    Master,
    Legendary,
}

impl Default for Proficiency {
    fn default() -> (tier: Self)
        ensures
            tier == Proficiency::Untrained,
    {
        Proficiency::Untrained
    }
}

impl Proficiency {
    /// What a tier adds on top of the level.
    pub open spec fn tier_constant(self) -> int {
        match self {
            Proficiency::Untrained => 0,
            Proficiency::Trained => 2,
            Proficiency::Expert => 4,
            Proficiency::Master => 6,
            Proficiency::Legendary => 8,
        }
    }

    /// The bonus of a tier at a level: nothing without training, otherwise
    /// the level plus the tier's constant.
    pub open spec fn bonus(self, level: int) -> int {
        if self == Proficiency::Untrained {
            0
        } else {
            level + self.tier_constant()
        }
    }

    /// The bonus of this tier at `level`.
    pub fn bonus_for_level(&self, level: i8) -> (bonus: i8)
        requires
            self.bonus(level as int) <= i8::MAX,
        ensures
            bonus == self.bonus(level as int),
    {
        match self {
            Proficiency::Untrained => 0,
            Proficiency::Trained => level + 2,
            Proficiency::Expert => level + 4,
            Proficiency::Master => level + 6,
            Proficiency::Legendary => level + 8,
        }
    }

    /// The bonus of this tier at `level`, in a type wide enough for every level.
    pub fn wide_bonus_for_level(&self, level: i8) -> (bonus: i16)
        ensures
            bonus == self.bonus(level as int),
    {
        let wide: i16 = level as i16;
        match self {
            Proficiency::Untrained => 0,
            Proficiency::Trained => wide + 2,
            Proficiency::Expert => wide + 4,
            Proficiency::Master => wide + 6,
            Proficiency::Legendary => wide + 8,
        }
    }

    /// Without training the bonus is zero at every level.
    pub proof fn lemma_untrained_bonus_is_zero(level: int)
        ensures
            Proficiency::Untrained.bonus(level) == 0,
    {
    }

    /// With training the bonus is the level plus the tier's constant, and so
    /// grows strictly with the level.
    pub proof fn lemma_trained_bonus_grows_with_level(tier: Proficiency, lower: int, higher: int)
        requires
            tier != Proficiency::Untrained,
            lower < higher,
        ensures
            tier.bonus(lower) == lower + tier.tier_constant(),
            tier.bonus(higher) == higher + tier.tier_constant(),
            tier.bonus(lower) < tier.bonus(higher),
    {
    }
}

/// The training of a character in one skill.
#[derive(Debug, PartialEq, Eq)]
pub struct SkillTraining {
    pub skill: Skill,
    pub proficiency: Proficiency,
}

impl Clone for SkillTraining {
    fn clone(&self) -> (copy: Self)
        ensures
            copy == *self,
    {
        SkillTraining { skill: self.skill.clone(), proficiency: self.proficiency }
    }
}

/// Everything a character is trained in. `skills` holds no skill twice.
#[derive(Debug, PartialEq, Eq)]
pub struct Proficiencies {
    pub perception: Proficiency,
    pub fortitude_save: Proficiency,
    pub reflex_save: Proficiency,
    pub will_save: Proficiency,
    pub unarmed: Proficiency,
    pub simple_weapons: Proficiency,
    pub martial_weapons: Proficiency,
    pub advanced_weapons: Proficiency,
    pub unarmored_defense: Proficiency,
    pub light_armor: Proficiency,
    pub medium_armor: Proficiency,
    pub heavy_armor: Proficiency,
    pub skills: Vec<SkillTraining>,
}

/// The plain values of a `Proficiencies`.
pub struct ProficienciesView {
    pub perception: Proficiency,
    pub fortitude_save: Proficiency,
    pub reflex_save: Proficiency,
    pub will_save: Proficiency,
    pub unarmed: Proficiency,
    pub simple_weapons: Proficiency,
    pub martial_weapons: Proficiency,
    pub advanced_weapons: Proficiency,
    pub unarmored_defense: Proficiency,
    pub light_armor: Proficiency,
    pub medium_armor: Proficiency,
    pub heavy_armor: Proficiency,
    pub skills: Seq<SkillTraining>,
}

impl View for Proficiencies {
    type V = ProficienciesView;

    open spec fn view(&self) -> ProficienciesView {
        ProficienciesView {
            perception: self.perception,
            fortitude_save: self.fortitude_save,
            reflex_save: self.reflex_save,
            will_save: self.will_save,
            unarmed: self.unarmed,
            simple_weapons: self.simple_weapons,
            martial_weapons: self.martial_weapons,
            advanced_weapons: self.advanced_weapons,
            unarmored_defense: self.unarmored_defense,
            light_armor: self.light_armor,
            medium_armor: self.medium_armor,
            heavy_armor: self.heavy_armor,
            skills: self.skills@,
        }
    }
}

impl ProficienciesView {
    /// No training in anything.
    pub open spec fn untrained() -> ProficienciesView {
        ProficienciesView {
            perception: Proficiency::Untrained,
            fortitude_save: Proficiency::Untrained,
            reflex_save: Proficiency::Untrained,
            will_save: Proficiency::Untrained,
            unarmed: Proficiency::Untrained,
            simple_weapons: Proficiency::Untrained,
            martial_weapons: Proficiency::Untrained,
            advanced_weapons: Proficiency::Untrained,
            unarmored_defense: Proficiency::Untrained,
            light_armor: Proficiency::Untrained,
            medium_armor: Proficiency::Untrained,
            heavy_armor: Proficiency::Untrained,
            skills: Seq::empty(),
        }
    }
}

impl Default for Proficiencies {
    fn default() -> (none: Self)
        ensures
            none@ == ProficienciesView::untrained(),
    {
        Proficiencies {
            perception: Proficiency::Untrained,
            fortitude_save: Proficiency::Untrained,
            reflex_save: Proficiency::Untrained,
            will_save: Proficiency::Untrained,
            unarmed: Proficiency::Untrained,
            simple_weapons: Proficiency::Untrained,
            martial_weapons: Proficiency::Untrained,
            advanced_weapons: Proficiency::Untrained,
            unarmored_defense: Proficiency::Untrained,
            light_armor: Proficiency::Untrained,
            medium_armor: Proficiency::Untrained,
            heavy_armor: Proficiency::Untrained,
            skills: Vec::new(),
        }
    }
}

impl Clone for Proficiencies {
    fn clone(&self) -> (copy: Self)
        ensures
            copy@ == self@,
    {
        let skills = self.skills.clone();
        assert(skills@ =~= self.skills@);
        Proficiencies {
            perception: self.perception,
            fortitude_save: self.fortitude_save,
            reflex_save: self.reflex_save,
            will_save: self.will_save,
            unarmed: self.unarmed,
            simple_weapons: self.simple_weapons,
            martial_weapons: self.martial_weapons,
            advanced_weapons: self.advanced_weapons,
            unarmored_defense: self.unarmored_defense,
            light_armor: self.light_armor,
            medium_armor: self.medium_armor,
            heavy_armor: self.heavy_armor,
            skills,
        }
    }
}

} // verus!
