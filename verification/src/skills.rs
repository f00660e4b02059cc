//! Skills and the ability that governs each of them.

use crate::ability::Ability;
use vstd::prelude::*;

verus! {

/// A skill a character can be trained in.
#[derive(Debug, PartialOrd, Ord, PartialEq, Eq, Hash)]
pub enum Skill {
    Acrobatics,
    Arcana,
    Athletics,
    Crafting,
    Deception,
    Diplomacy,
    Intimidation,
    /// Knowledge of one named subject.
    Lore(String),
    Medicine,
    Nature,
    Occultism,
    Performance,
    Religion,
    Society,
    Stealth,
    Survival,
    Thievery,
}

impl Clone for Skill {
    fn clone(&self) -> (copy: Self)
        ensures
            copy == *self,
    {
        match self {
            Skill::Acrobatics => Skill::Acrobatics,
            Skill::Arcana => Skill::Arcana,
            Skill::Athletics => Skill::Athletics,
            Skill::Crafting => Skill::Crafting,
            Skill::Deception => Skill::Deception,
            Skill::Diplomacy => Skill::Diplomacy,
            Skill::Intimidation => Skill::Intimidation,
            Skill::Lore(subject) => Skill::Lore(subject.clone()),
            Skill::Medicine => Skill::Medicine,
            Skill::Nature => Skill::Nature,
            Skill::Occultism => Skill::Occultism,
            Skill::Performance => Skill::Performance,
            Skill::Religion => Skill::Religion,
            Skill::Society => Skill::Society,
            Skill::Stealth => Skill::Stealth,
            Skill::Survival => Skill::Survival,
            Skill::Thievery => Skill::Thievery,
        }
    }
}

/// What tells skills apart: the kind of skill, and for lore its subject.
pub struct SkillId {
    pub kind: nat,
    pub subject: Seq<char>,
}

impl Skill {
    /// The position of the skill's kind in the list of all kinds.
    pub open spec fn kind(&self) -> nat {
        match self {
            Skill::Acrobatics => 0,
            Skill::Arcana => 1,
            Skill::Athletics => 2,
            Skill::Crafting => 3,
            Skill::Deception => 4,
            Skill::Diplomacy => 5,
            Skill::Intimidation => 6,
            Skill::Lore(_) => 7,
            Skill::Medicine => 8,
            Skill::Nature => 9,
            Skill::Occultism => 10,
            Skill::Performance => 11,
            Skill::Religion => 12,
            Skill::Society => 13,
            Skill::Stealth => 14,
            Skill::Survival => 15,
            Skill::Thievery => 16,
        }
    }

    /// The identity of the skill.
    pub open spec fn id(&self) -> SkillId {
        match self {
            Skill::Lore(subject) => SkillId { kind: 7, subject: subject@ },
            _ => SkillId { kind: self.kind(), subject: Seq::empty() },
        }
    }

    /// Whether the skill is a lore.
    pub open spec fn is_lore(&self) -> bool {
        self is Lore
    }

    /// The sixteen skills that are not a lore, in their fixed order.
    pub open spec fn all_excluding_lore() -> Seq<Skill> {
        seq![
            Skill::Acrobatics,
            Skill::Arcana,
            Skill::Athletics,
            Skill::Crafting,
            Skill::Deception,
            Skill::Diplomacy,
            Skill::Intimidation,
            Skill::Medicine,
            Skill::Nature,
            Skill::Occultism,
            Skill::Performance,
            Skill::Religion,
            Skill::Society,
            Skill::Stealth,
            Skill::Survival,
            Skill::Thievery,
        ]
    }

    /// The sixteen skills that are not a lore, in their fixed order.
    pub fn values_excluding_lore() -> (all: Vec<Skill>)
        ensures
            all@ == Skill::all_excluding_lore(),
    {
        let mut all: Vec<Skill> = Vec::new();
        all.push(Skill::Acrobatics);
        all.push(Skill::Arcana);
        all.push(Skill::Athletics);
        all.push(Skill::Crafting);
        all.push(Skill::Deception);
        all.push(Skill::Diplomacy);
        all.push(Skill::Intimidation);
        all.push(Skill::Medicine);
        all.push(Skill::Nature);
        all.push(Skill::Occultism);
        all.push(Skill::Performance);
        all.push(Skill::Religion);
        all.push(Skill::Society);
        all.push(Skill::Stealth);
        all.push(Skill::Survival);
        all.push(Skill::Thievery);
        assert(all@ =~= Skill::all_excluding_lore());
        all
    }

    /// The ability whose score a skill's modifier starts from.
    pub open spec fn governing_ability(&self) -> Ability {
        match self {
            Skill::Acrobatics => Ability::Dexterity,
            Skill::Arcana => Ability::Intelligence,
            Skill::Athletics => Ability::Strength,
            Skill::Crafting => Ability::Intelligence,
            Skill::Deception => Ability::Charisma,
            Skill::Diplomacy => Ability::Charisma,
            Skill::Intimidation => Ability::Charisma,
            Skill::Lore(_) => Ability::Intelligence,
            Skill::Medicine => Ability::Wisdom,
            Skill::Nature => Ability::Wisdom,
            Skill::Occultism => Ability::Intelligence,
            Skill::Performance => Ability::Charisma,
            Skill::Religion => Ability::Wisdom,
            Skill::Society => Ability::Intelligence,
            Skill::Stealth => Ability::Dexterity,
            Skill::Survival => Ability::Wisdom,
            Skill::Thievery => Ability::Dexterity,
        }
    }

    /// The ability whose score this skill's modifier starts from.
    pub fn ability(&self) -> (ability: Ability)
        ensures
            ability == self.governing_ability(),
    {
        match self {
            Skill::Acrobatics => Ability::Dexterity,
            Skill::Arcana => Ability::Intelligence,
            Skill::Athletics => Ability::Strength,
            Skill::Crafting => Ability::Intelligence,
            Skill::Deception => Ability::Charisma,
            Skill::Diplomacy => Ability::Charisma,
            Skill::Intimidation => Ability::Charisma,
            Skill::Lore(_) => Ability::Intelligence,
            Skill::Medicine => Ability::Wisdom,
            Skill::Nature => Ability::Wisdom,
            Skill::Occultism => Ability::Intelligence,
            Skill::Performance => Ability::Charisma,
            Skill::Religion => Ability::Wisdom,
            Skill::Society => Ability::Intelligence,
            Skill::Stealth => Ability::Dexterity,
            Skill::Survival => Ability::Wisdom,
            Skill::Thievery => Ability::Dexterity,
        }
    }

    /// Whether two skills are the same skill.
    pub fn same(&self, other: &Skill) -> (same: bool)
        ensures
            same == (self.id() == other.id()),
    {
        match (self, other) {
            (Skill::Acrobatics, Skill::Acrobatics) => true,
            (Skill::Arcana, Skill::Arcana) => true,
            (Skill::Athletics, Skill::Athletics) => true,
            (Skill::Crafting, Skill::Crafting) => true,
            (Skill::Deception, Skill::Deception) => true,
            (Skill::Diplomacy, Skill::Diplomacy) => true,
            (Skill::Intimidation, Skill::Intimidation) => true,
            (Skill::Lore(left), Skill::Lore(right)) => *left == *right,
            (Skill::Medicine, Skill::Medicine) => true,
            (Skill::Nature, Skill::Nature) => true,
            (Skill::Occultism, Skill::Occultism) => true,
            (Skill::Performance, Skill::Performance) => true,
            (Skill::Religion, Skill::Religion) => true,
            (Skill::Society, Skill::Society) => true,
            (Skill::Stealth, Skill::Stealth) => true,
            (Skill::Survival, Skill::Survival) => true,
            (Skill::Thievery, Skill::Thievery) => true,
            _ => false,
        }
    }

    /// The name of the skill as it is written on a sheet.
    pub open spec fn name(&self) -> Seq<char> {
        match self {
            Skill::Acrobatics => "Acrobatics"@,
            Skill::Arcana => "Arcana"@,
            Skill::Athletics => "Athletics"@,
            Skill::Crafting => "Crafting"@,
            Skill::Deception => "Deception"@,
            Skill::Diplomacy => "Diplomacy"@,
            Skill::Intimidation => "Intimidation"@,
            Skill::Lore(subject) => subject@ + " Lore"@,
            Skill::Medicine => "Medicine"@,
            Skill::Nature => "Nature"@,
            Skill::Occultism => "Occultism"@,
            Skill::Performance => "Performance"@,
            Skill::Religion => "Religion"@,
            Skill::Society => "Society"@,
            Skill::Stealth => "Stealth"@,
            Skill::Survival => "Survival"@,
            Skill::Thievery => "Thievery"@,
        }
    }

    /// The name of the skill as it is written on a sheet.
    pub fn to_string(&self) -> (name: String)
        ensures
            name@ == self.name(),
    {
        match self {
            Skill::Acrobatics => String::from_str("Acrobatics"),
            Skill::Arcana => String::from_str("Arcana"),
            Skill::Athletics => String::from_str("Athletics"),
            Skill::Crafting => String::from_str("Crafting"),
            Skill::Deception => String::from_str("Deception"),
            Skill::Diplomacy => String::from_str("Diplomacy"),
            Skill::Intimidation => String::from_str("Intimidation"),
            Skill::Lore(subject) => subject.clone().concat(" Lore"),
            Skill::Medicine => String::from_str("Medicine"),
            Skill::Nature => String::from_str("Nature"),
            Skill::Occultism => String::from_str("Occultism"),
            Skill::Performance => String::from_str("Performance"),
            Skill::Religion => String::from_str("Religion"),
            Skill::Society => String::from_str("Society"),
            Skill::Stealth => String::from_str("Stealth"),
            Skill::Survival => String::from_str("Survival"),
            Skill::Thievery => String::from_str("Thievery"),
        }
    }
}

/// The identities of a sequence of skills, in order.
pub open spec fn skill_ids(skills: Seq<Skill>) -> Seq<SkillId> {
    skills.map_values(|s: Skill| s.id())
}

/// Whether `skills` holds the skill `wanted`.
pub fn has_skill(skills: &Vec<Skill>, wanted: &Skill) -> (found: bool)
    ensures
        found == skill_ids(skills@).contains(wanted.id()),
{
    let mut i: usize = 0;
    while i < skills.len()
        invariant
            i <= skills.len(),
            forall|j: int| 0 <= j < i ==> skills@[j].id() != wanted.id(),
        decreases skills.len() - i,
    {
        if skills[i].same(wanted) {
            assert(skill_ids(skills@)[i as int] == wanted.id());
            return true;
        }
        i += 1;
    }
    false
}

} // verus!
