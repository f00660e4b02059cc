//! Archetypes: complete mechanical profiles that replace random generation.

use crate::language::copy_languages;
use crate::language::language_views;
use crate::language::Language;
use crate::language::LanguageView;
use crate::skills::Skill;
use crate::statblock::AbilityStats;
use vstd::prelude::*;

verus! {

/// A fixed bundle of statistics.
#[derive(Debug)]
pub struct Archetype {
    name: String,
    prd_reference: Option<String>,
    perception: i16,
    languages: Vec<Language>,
    skills: Vec<(Skill, i16)>,
    attributes: AbilityStats,
    items: Vec<String>,
    armor_class: i16,
    fortitude_save: i16,
    reflex_save: i16,
    will_save: i16,
    hp: i32,
    speed: u16,
    actions: Vec<String>,
    level: i8,
}

/// The plain values of an `Archetype`.
pub struct ArchetypeView {
    pub name: Seq<char>,
    pub prd_reference: Option<Seq<char>>,
    pub perception: i16,
    pub languages: Seq<LanguageView>,
    pub skills: Seq<(Skill, i16)>,
    pub attributes: AbilityStats,
    pub items: Seq<String>,
    pub armor_class: i16,
    pub fortitude_save: i16,
    pub reflex_save: i16,
    pub will_save: i16,
    pub hp: i32,
    pub speed: u16,
    pub actions: Seq<String>,
    pub level: i8,
}

/// The characters of a string that may be absent.
pub open spec fn optional_text(text: Option<String>) -> Option<Seq<char>> {
    match text {
        Some(text) => Some(text@),
        None => None,
    }
}

/// A fresh copy of a string that may be absent.
pub fn copy_optional_text(text: &Option<String>) -> (copy: Option<String>)
    ensures
        copy == *text,
{
    match text {
        Some(text) => Some(text.clone()),
        None => None,
    }
}

/// A fresh copy of a list of skills with their modifiers.
pub fn copy_skill_modifiers(skills: &Vec<(Skill, i16)>) -> (copy: Vec<(Skill, i16)>)
    ensures
        copy@ == skills@,
{
    let mut copy: Vec<(Skill, i16)> = Vec::new();
    let mut i: usize = 0;
    while i < skills.len()
        invariant
            i <= skills.len(),
            copy@ =~= skills@.take(i as int),
        decreases skills.len() - i,
    {
        copy.push((skills[i].0.clone(), skills[i].1));
        i += 1;
    }
    assert(skills@.take(i as int) =~= skills@);
    copy
}

impl View for Archetype {
    type V = ArchetypeView;

    closed spec fn view(&self) -> ArchetypeView {
        ArchetypeView {
            name: self.name@,
            prd_reference: optional_text(self.prd_reference),
            perception: self.perception,
            languages: language_views(self.languages@),
            skills: self.skills@,
            attributes: self.attributes,
            items: self.items@,
            armor_class: self.armor_class,
            fortitude_save: self.fortitude_save,
            reflex_save: self.reflex_save,
            will_save: self.will_save,
            hp: self.hp,
            speed: self.speed,
            actions: self.actions@,
            level: self.level,
        }
    }
}

impl PartialEq for Archetype {
    /// Two archetypes are the same archetype where they carry the same name.
    fn eq(&self, other: &Self) -> (same: bool) {
        self.name == other.name
    }
}

impl Eq for Archetype {

}

impl vstd::std_specs::cmp::PartialEqSpecImpl for Archetype {
    open spec fn obeys_eq_spec() -> bool {
        true
    }

    open spec fn eq_spec(&self, other: &Self) -> bool {
        self@.name == other@.name
    }
}

impl Clone for Archetype {
    fn clone(&self) -> (copy: Self)
        ensures
            copy@ == self@,
    {
        let items = self.items.clone();
        let actions = self.actions.clone();
        assert(items@ =~= self.items@);
        assert(actions@ =~= self.actions@);
        Archetype {
            name: self.name.clone(),
            prd_reference: copy_optional_text(&self.prd_reference),
            perception: self.perception,
            languages: copy_languages(&self.languages),
            skills: copy_skill_modifiers(&self.skills),
            attributes: self.attributes,
            items,
            armor_class: self.armor_class,
            fortitude_save: self.fortitude_save,
            reflex_save: self.reflex_save,
            will_save: self.will_save,
            hp: self.hp,
            speed: self.speed,
            actions,
            level: self.level,
        }
    }
}

impl ArchetypeView {
    /// The archetype without a name, with every number at zero and every
    /// list empty.
    pub open spec fn blank() -> ArchetypeView {
        ArchetypeView {
            name: Seq::empty(),
            prd_reference: None,
            perception: 0,
            languages: Seq::empty(),
            skills: Seq::empty(),
            attributes: AbilityStats::zero(),
            items: Seq::empty(),
            armor_class: 0,
            fortitude_save: 0,
            reflex_save: 0,
            will_save: 0,
            hp: 0,
            speed: 0,
            actions: Seq::empty(),
            level: 0,
        }
    }
}

impl Default for Archetype {
    fn default() -> (blank: Self)
        ensures
            blank@ == ArchetypeView::blank(),
    {
        let blank = Archetype {
            name: String::new(),
            prd_reference: None,
            perception: 0,
            languages: Vec::new(),
            skills: Vec::new(),
            attributes: AbilityStats::default(),
            items: Vec::new(),
            armor_class: 0,
            fortitude_save: 0,
            reflex_save: 0,
            will_save: 0,
            hp: 0,
            speed: 0,
            actions: Vec::new(),
            level: 0,
        };
        assert(language_views(blank.languages@) =~= Seq::<LanguageView>::empty());
        blank
    }
}

impl Archetype {
    /// The archetype with the given values.
    pub fn new(
        name: &str,
        prd_reference: Option<String>,
        perception: i16,
        languages: Vec<Language>,
        skills: Vec<(Skill, i16)>,
        attributes: AbilityStats,
        items: Vec<String>,
        armor_class: i16,
        fortitude_save: i16,
        reflex_save: i16,
        will_save: i16,
        hp: i32,
        speed: u16,
        actions: Vec<String>,
        level: i8,
    ) -> (made: Self)
        ensures
            made@ == (ArchetypeView {
                name: name@,
                prd_reference: optional_text(prd_reference),
                perception,
                languages: language_views(languages@),
                skills: skills@,
                attributes,
                items: items@,
                armor_class,
                fortitude_save,
                reflex_save,
                will_save,
                hp,
                speed,
                actions: actions@,
                level,
            }),
    {
        Archetype {
            name: String::from_str(name),
            prd_reference,
            perception,
            languages,
            skills,
            attributes,
            items,
            armor_class,
            fortitude_save,
            reflex_save,
            will_save,
            hp,
            speed,
            actions,
            level,
        }
    }

    pub fn name(&self) -> (name: &str)
        ensures
            name@ == self@.name,
    {
        self.name.as_str()
    }

    pub fn perception(&self) -> (perception: i16)
        ensures
            perception == self@.perception,
    {
        self.perception
    }

    pub fn prd_reference(&self) -> (reference: Option<&str>)
        ensures
            reference is Some <==> self@.prd_reference is Some,
            reference matches Some(text) ==> Some(text@) == self@.prd_reference,
    {
        match &self.prd_reference {
            Some(text) => Some(text.as_str()),
            None => None,
        }
    }

    pub fn languages(&self) -> (languages: &[Language])
        ensures
            language_views(languages@) == self@.languages,
    {
        self.languages.as_slice()
    }

    pub fn skills(&self) -> (skills: &Vec<(Skill, i16)>)
        ensures
            skills@ == self@.skills,
    {
        &self.skills
    }

    pub fn attributes(&self) -> (attributes: &AbilityStats)
        ensures
            *attributes == self@.attributes,
    {
        &self.attributes
    }

    /// The items, first to last.
    pub fn items_iter(&self) -> (items: &Vec<String>)
        ensures
            items@ == self@.items,
    {
        &self.items
    }

    pub fn armor_class(&self) -> (armor_class: i16)
        ensures
            armor_class == self@.armor_class,
    {
        self.armor_class
    }

    pub fn fortitude_save(&self) -> (save: i16)
        ensures
            save == self@.fortitude_save,
    {
        self.fortitude_save
    }

    pub fn reflex_save(&self) -> (save: i16)
        ensures
            save == self@.reflex_save,
    {
        self.reflex_save
    }

    pub fn will_save(&self) -> (save: i16)
        ensures
            save == self@.will_save,
    {
        self.will_save
    }

    pub fn speed(&self) -> (speed: u16)
        ensures
            speed == self@.speed,
    {
        self.speed
    }

    pub fn hp(&self) -> (hp: i32)
        ensures
            hp == self@.hp,
    {
        self.hp
    }

    pub fn actions(&self) -> (actions: &[String])
        ensures
            actions@ == self@.actions,
    {
        self.actions.as_slice()
    }

    pub fn level(&self) -> (level: i8)
        ensures
            level == self@.level,
    {
        self.level
    }

    /// Whether two archetypes carry the same name.
    pub fn same(&self, other: &Archetype) -> (same: bool)
        ensures
            same == (self@.name == other@.name),
    {
        self.name == other.name
    }
}

} // verus!
