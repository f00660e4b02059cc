//! The statblock: everything that is known of a generated character.

use crate::ability::Ability;
use crate::age_range::AgeRange;
use crate::ancestry::optional_ancestry;
use crate::ancestry::Ancestry;
use crate::ancestry::AncestryView;
use crate::archetype::copy_optional_text;
use crate::archetype::copy_skill_modifiers;
use crate::archetype::optional_text;
use crate::heritage::optional_heritage;
use crate::heritage::Heritage;
use crate::heritage::HeritageView;
use crate::proficiencies::Proficiencies;
use crate::proficiencies::ProficienciesView;
use crate::skills::Skill;
use crate::traits::Trait;
use vstd::prelude::*;

verus! {

/// An ability score together with the mark of a partial boost.
///
/// A score below four rises by one with each boost. From four on a boost
/// first sets the mark, and the next boost turns the mark into a point.
#[derive(Debug, Copy, Clone, PartialEq, Eq, Structural)]
pub struct AbilityValue(pub i8, pub bool);

impl Default for AbilityValue {
    fn default() -> (zero: Self)
        ensures
            zero == AbilityValue(0, false),
    {
        AbilityValue(0, false)
    }
}

impl AbilityValue {
    /// The value after a boost.
    pub open spec fn boosted(self) -> (int, bool) {
        if self.0 < 4 || self.1 {
            (self.0 + 1, false)
        } else {
            (self.0 as int, true)
        }
    }

    /// The score `value`, without a mark.
    pub fn new(value: i8) -> (made: Self)
        ensures
            made == AbilityValue(value, false),
    {
        AbilityValue(value, false)
    }

    /// The value after a boost.
    pub fn boost(self) -> (raised: Self)
        requires
            self.boosted().0 <= i8::MAX,
        ensures
            raised.0 == self.boosted().0,
            raised.1 == self.boosted().1,
    {
        if self.0 < 4 || self.1 {
            AbilityValue(self.0 + 1, false)
        } else {
            AbilityValue(self.0, true)
        }
    }

    /// The value after a flaw: one point less, and no mark.
    pub fn flaw(self) -> (lowered: Self)
        requires
            self.0 > i8::MIN,
        ensures
            lowered == AbilityValue((self.0 - 1) as i8, false),
    {
        AbilityValue(self.0 - 1, false)
    }

    /// The score without the mark.
    pub fn value(self) -> (score: i8)
        ensures
            score == self.0,
    {
        self.0
    }

    /// The score with its sign, followed by `*` where the mark is set.
    pub open spec fn text(self) -> Seq<char> {
        crate::text::signed_decimal(self.0 as int) + if self.1 {
            seq!['*']
        } else {
            Seq::<char>::empty()
        }
    }

    /// The score with its sign, followed by `*` where the mark is set.
    pub fn to_string(&self) -> (text: String)
        ensures
            text@ == self.text(),
    {
        let mut text = String::new();
        crate::text::push_signed(&mut text, self.0 as i64);
        if self.1 {
            text.push('*');
        }
        assert(text@ =~= self.text());
        text
    }
}

/// The six ability scores of a character.
#[derive(Debug, Copy, Clone, PartialEq, Eq, Structural)]
pub struct AbilityStats {
    pub strength: i8,
    pub dexterity: i8,
    pub constitution: i8,
    pub intelligence: i8,
    pub wisdom: i8,
    pub charisma: i8,
}

impl Default for AbilityStats {
    fn default() -> (zero: Self)
        ensures
            zero == AbilityStats::zero(),
    {
        AbilityStats {
            strength: 0,
            dexterity: 0,
            constitution: 0,
            intelligence: 0,
            wisdom: 0,
            charisma: 0,
        }
    }
}

impl AbilityStats {
    /// All six scores at zero.
    pub open spec fn zero() -> AbilityStats {
        AbilityStats {
            strength: 0,
            dexterity: 0,
            constitution: 0,
            intelligence: 0,
            wisdom: 0,
            charisma: 0,
        }
    }

    /// The score of one ability.
    pub open spec fn score(&self, ability: Ability) -> i8 {
        match ability {
            Ability::Charisma => self.charisma,
            Ability::Constitution => self.constitution,
            Ability::Dexterity => self.dexterity,
            Ability::Intelligence => self.intelligence,
            Ability::Strength => self.strength,
            Ability::Wisdom => self.wisdom,
        }
    }

    /// The scores with one of them replaced.
    pub open spec fn with(&self, ability: Ability, score: i8) -> AbilityStats {
        match ability {
            Ability::Charisma => AbilityStats { charisma: score, ..*self },
            Ability::Constitution => AbilityStats { constitution: score, ..*self },
            Ability::Dexterity => AbilityStats { dexterity: score, ..*self },
            Ability::Intelligence => AbilityStats { intelligence: score, ..*self },
            Ability::Strength => AbilityStats { strength: score, ..*self },
            Ability::Wisdom => AbilityStats { wisdom: score, ..*self },
        }
    }

    /// The sum of the six scores.
    pub open spec fn total(&self) -> int {
        self.strength + self.dexterity + self.constitution + self.intelligence + self.wisdom
            + self.charisma
    }

    /// The score of one ability.
    pub fn get_ability(&self, ability: Ability) -> (score: i8)
        ensures
            score == self.score(ability),
    {
        match ability {
            Ability::Charisma => self.charisma,
            Ability::Constitution => self.constitution,
            Ability::Dexterity => self.dexterity,
            Ability::Intelligence => self.intelligence,
            Ability::Strength => self.strength,
            Ability::Wisdom => self.wisdom,
        }
    }

    /// The score of one ability, to be changed in place.
    pub fn get_ability_mut(&mut self, ability: Ability) -> (score: &mut i8)
        ensures
            *score == old(self).score(ability),
            *final(self) == old(self).with(ability, *final(score)),
    {
        match ability {
            Ability::Charisma => &mut self.charisma,
            Ability::Constitution => &mut self.constitution,
            Ability::Dexterity => &mut self.dexterity,
            Ability::Intelligence => &mut self.intelligence,
            Ability::Strength => &mut self.strength,
            Ability::Wisdom => &mut self.wisdom,
        }
    }
}

/// The narrative lines that describe a character.
#[derive(Debug, PartialEq, Eq)]
pub struct NpcFlavor {
    pub description_line: String,
    pub hair_and_eyes_line: String,
    pub skin_line: String,
    pub lineage_line: Option<String>,
    pub size_and_build_line: String,
    pub face_line: String,
    pub habit_line: String,
}

/// The plain values of an `NpcFlavor`.
pub struct NpcFlavorView {
    pub description_line: Seq<char>,
    pub hair_and_eyes_line: Seq<char>,
    pub skin_line: Seq<char>,
    pub lineage_line: Option<Seq<char>>,
    pub size_and_build_line: Seq<char>,
    pub face_line: Seq<char>,
    pub habit_line: Seq<char>,
}

impl View for NpcFlavor {
    type V = NpcFlavorView;

    open spec fn view(&self) -> NpcFlavorView {
        NpcFlavorView {
            description_line: self.description_line@,
            hair_and_eyes_line: self.hair_and_eyes_line@,
            skin_line: self.skin_line@,
            lineage_line: optional_text(self.lineage_line),
            size_and_build_line: self.size_and_build_line@,
            face_line: self.face_line@,
            habit_line: self.habit_line@,
        }
    }
}

impl Clone for NpcFlavor {
    fn clone(&self) -> (copy: Self)
        ensures
            copy@ == self@,
    {
        NpcFlavor {
            description_line: self.description_line.clone(),
            hair_and_eyes_line: self.hair_and_eyes_line.clone(),
            skin_line: self.skin_line.clone(),
            lineage_line: copy_optional_text(&self.lineage_line),
            size_and_build_line: self.size_and_build_line.clone(),
            face_line: self.face_line.clone(),
            habit_line: self.habit_line.clone(),
        }
    }
}

impl Default for NpcFlavor {
    fn default() -> (blank: Self)
        ensures
            blank@ == NpcFlavorView::blank(),
    {
        NpcFlavor {
            description_line: String::new(),
            hair_and_eyes_line: String::new(),
            skin_line: String::new(),
            lineage_line: None,
            size_and_build_line: String::new(),
            face_line: String::new(),
            habit_line: String::new(),
        }
    }
}

/// A line followed by an empty line.
pub open spec fn paragraph(line: Seq<char>) -> Seq<char> {
    line + seq!['\n', '\n']
}

impl NpcFlavorView {
    /// The flavor of which no line has been written.
    pub open spec fn blank() -> NpcFlavorView {
        NpcFlavorView {
            description_line: Seq::empty(),
            hair_and_eyes_line: Seq::empty(),
            skin_line: Seq::empty(),
            lineage_line: None,
            size_and_build_line: Seq::empty(),
            face_line: Seq::empty(),
            habit_line: Seq::empty(),
        }
    }

    /// The lines as one text: each line is followed by an empty line, and
    /// the lineage line is left out where there is none.
    pub open spec fn text(&self) -> Seq<char> {
        paragraph(self.description_line) + paragraph(self.hair_and_eyes_line) + paragraph(
            self.skin_line,
        ) + (match self.lineage_line {
            Some(line) => paragraph(line),
            None => Seq::<char>::empty(),
        }) + paragraph(self.size_and_build_line) + paragraph(self.face_line) + paragraph(
            self.habit_line,
        )
    }
}

/// Appends a line and an empty line after it.
pub fn push_paragraph(text: &mut String, line: &str)
    ensures
        final(text)@ == old(text)@ + paragraph(line@),
{
    text.append(line);
    text.push('\n');
    text.push('\n');
    assert(text@ =~= old(text)@ + paragraph(line@));
}

impl NpcFlavor {
    /// The lines as one text.
    pub fn to_string(&self) -> (text: String)
        ensures
            text@ == self@.text(),
    {
        let mut text = String::new();
        push_paragraph(&mut text, self.description_line.as_str());
        push_paragraph(&mut text, self.hair_and_eyes_line.as_str());
        push_paragraph(&mut text, self.skin_line.as_str());
        match &self.lineage_line {
            Some(line) => {
                push_paragraph(&mut text, line.as_str());
            },
            None => {},
        }
        push_paragraph(&mut text, self.size_and_build_line.as_str());
        push_paragraph(&mut text, self.face_line.as_str());
        push_paragraph(&mut text, self.habit_line.as_str());
        assert(text@ =~= self@.text());
        text
    }
}

/// Everything that is known of a generated character.
#[derive(Debug)]
pub struct Statblock {
    name: String,
    class: String,
    level: i8,
    age: u64,
    age_range: AgeRange,
    sex: String,
    traits: Vec<Trait>,
    perception: i16,
    skills: Vec<(Skill, i16)>,
    attributes: AbilityStats,
    items: Vec<String>,
    armor_class: i16,
    fortitude_save: i16,
    reflex_save: i16,
    will_save: i16,
    hit_points: i32,
    land_speed: u16,
    flavor: NpcFlavor,
    ancestry: Option<Ancestry>,
    heritage: Option<Heritage>,
    proficiencies: Proficiencies,
}

/// The plain values of a `Statblock`.
pub struct StatblockView {
    pub name: Seq<char>,
    pub class: Seq<char>,
    pub level: i8,
    pub age: u64,
    pub age_range: AgeRange,
    pub sex: Seq<char>,
    pub traits: Seq<Trait>,
    pub perception: i16,
    pub skills: Seq<(Skill, i16)>,
    pub attributes: AbilityStats,
    pub items: Seq<String>,
    pub armor_class: i16,
    pub fortitude_save: i16,
    pub reflex_save: i16,
    pub will_save: i16,
    pub hit_points: i32,
    pub land_speed: u16,
    pub flavor: NpcFlavorView,
    pub ancestry: Option<AncestryView>,
    pub heritage: Option<HeritageView>,
    pub proficiencies: ProficienciesView,
}

impl View for Statblock {
    type V = StatblockView;

    closed spec fn view(&self) -> StatblockView {
        StatblockView {
            name: self.name@,
            class: self.class@,
            level: self.level,
            age: self.age,
            age_range: self.age_range,
            sex: self.sex@,
            traits: self.traits@,
            perception: self.perception,
            skills: self.skills@,
            attributes: self.attributes,
            items: self.items@,
            armor_class: self.armor_class,
            fortitude_save: self.fortitude_save,
            reflex_save: self.reflex_save,
            will_save: self.will_save,
            hit_points: self.hit_points,
            land_speed: self.land_speed,
            flavor: self.flavor@,
            ancestry: optional_ancestry(self.ancestry),
            heritage: optional_heritage(self.heritage),
            proficiencies: self.proficiencies@,
        }
    }
}

impl StatblockView {
    /// The statblock of which nothing is known yet.
    pub open spec fn blank() -> StatblockView {
        StatblockView {
            name: Seq::empty(),
            class: Seq::empty(),
            level: 0,
            age: 0,
            age_range: AgeRange::Adult,
            sex: Seq::empty(),
            traits: Seq::empty(),
            perception: 0,
            skills: Seq::empty(),
            attributes: AbilityStats::zero(),
            items: Seq::empty(),
            armor_class: 0,
            fortitude_save: 0,
            reflex_save: 0,
            will_save: 0,
            hit_points: 0,
            land_speed: 0,
            flavor: NpcFlavorView::blank(),
            ancestry: None,
            heritage: None,
            proficiencies: ProficienciesView::untrained(),
        }
    }
}

impl Default for Statblock {
    fn default() -> (blank: Self)
        ensures
            blank@ == StatblockView::blank(),
    {
        Statblock {
            name: String::new(),
            class: String::new(),
            level: 0,
            age: 0,
            age_range: AgeRange::Adult,
            sex: String::new(),
            traits: Vec::new(),
            perception: 0,
            skills: Vec::new(),
            attributes: AbilityStats::default(),
            items: Vec::new(),
            armor_class: 0,
            fortitude_save: 0,
            reflex_save: 0,
            will_save: 0,
            hit_points: 0,
            land_speed: 0,
            flavor: NpcFlavor::default(),
            ancestry: None,
            heritage: None,
            proficiencies: Proficiencies::default(),
        }
    }
}

/// A fresh copy of an ancestry that may be absent.
pub fn copy_optional_ancestry(ancestry: &Option<Ancestry>) -> (copy: Option<Ancestry>)
    ensures
        optional_ancestry(copy) == optional_ancestry(*ancestry),
{
    match ancestry {
        Some(ancestry) => Some(ancestry.clone()),
        None => None,
    }
}

/// A fresh copy of a heritage that may be absent.
pub fn copy_optional_heritage(heritage: &Option<Heritage>) -> (copy: Option<Heritage>)
    ensures
        optional_heritage(copy) == optional_heritage(*heritage),
{
    match heritage {
        Some(heritage) => Some(heritage.clone()),
        None => None,
    }
}

impl Clone for Statblock {
    fn clone(&self) -> (copy: Self)
        ensures
            copy@ == self@,
    {
        let traits = self.traits.clone();
        let items = self.items.clone();
        assert(traits@ =~= self.traits@);
        assert(items@ =~= self.items@);
        Statblock {
            name: self.name.clone(),
            class: self.class.clone(),
            level: self.level,
            age: self.age,
            age_range: self.age_range,
            sex: self.sex.clone(),
            traits,
            perception: self.perception,
            skills: copy_skill_modifiers(&self.skills),
            attributes: self.attributes,
            items,
            armor_class: self.armor_class,
            fortitude_save: self.fortitude_save,
            reflex_save: self.reflex_save,
            will_save: self.will_save,
            hit_points: self.hit_points,
            land_speed: self.land_speed,
            flavor: self.flavor.clone(),
            ancestry: copy_optional_ancestry(&self.ancestry),
            heritage: copy_optional_heritage(&self.heritage),
            proficiencies: self.proficiencies.clone(),
        }
    }
}

/// The sheet of a statblock in the layout of the second edition's stat blocks.
#[derive(Debug)]
pub struct PF2eStats(pub Statblock);

impl Statblock {
    /// The statblock with the given values.
    pub fn new(
        name: &str,
        class: &str,
        level: i8,
        age: u64,
        age_range: AgeRange,
        sex: &str,
        traits: Vec<Trait>,
        perception: i16,
        skills: Vec<(Skill, i16)>,
        attributes: AbilityStats,
        items: Vec<String>,
        armor_class: i16,
        fortitude_save: i16,
        reflex_save: i16,
        will_save: i16,
        hit_points: i32,
        land_speed: u16,
        flavor: NpcFlavor,
        ancestry: Option<Ancestry>,
        heritage: Option<Heritage>,
        proficiencies: Proficiencies,
    ) -> (made: Self)
        ensures
            made@ == (StatblockView {
                name: name@,
                class: class@,
                level,
                age,
                age_range,
                sex: sex@,
                traits: traits@,
                perception,
                skills: skills@,
                attributes,
                items: items@,
                armor_class,
                fortitude_save,
                reflex_save,
                will_save,
                hit_points,
                land_speed,
                flavor: flavor@,
                ancestry: optional_ancestry(ancestry),
                heritage: optional_heritage(heritage),
                proficiencies: proficiencies@,
            }),
    {
        Statblock {
            name: String::from_str(name),
            class: String::from_str(class),
            level,
            age,
            age_range,
            sex: String::from_str(sex),
            traits,
            perception,
            skills,
            attributes,
            items,
            armor_class,
            fortitude_save,
            reflex_save,
            will_save,
            hit_points,
            land_speed,
            flavor,
            ancestry,
            heritage,
            proficiencies,
        }
    }

    /// The sheet of this statblock, which takes the statblock over.
    pub fn into_pf2e_stats(self) -> (sheet: PF2eStats)
        ensures
            sheet.0@ == self@,
    {
        PF2eStats(self)
    }

    /// The sheet of a copy of this statblock.
    pub fn as_pf2e_stats(&self) -> (sheet: PF2eStats)
        ensures
            sheet.0@ == self@,
    {
        PF2eStats(self.clone())
    }

    /// The name of the character.
    pub fn name(&self) -> (name: &str)
        ensures
            name@ == self@.name,
    {
        self.name.as_str()
    }

    /// The class of the character: the name of its background or archetype.
    pub fn class(&self) -> (class: &str)
        ensures
            class@ == self@.class,
    {
        self.class.as_str()
    }

    /// The level.
    pub fn level(&self) -> (level: i8)
        ensures
            level == self@.level,
    {
        self.level
    }

    /// The age in years.
    pub fn age(&self) -> (age: u64)
        ensures
            age == self@.age,
    {
        self.age
    }

    /// The stage of life.
    pub fn age_range(&self) -> (age_range: AgeRange)
        ensures
            age_range == self@.age_range,
    {
        self.age_range
    }

    /// The sex; empty where the ancestry has none.
    pub fn sex(&self) -> (sex: &str)
        ensures
            sex@ == self@.sex,
    {
        self.sex.as_str()
    }

    /// The traits.
    pub fn traits(&self) -> (traits: &[Trait])
        ensures
            traits@ == self@.traits,
    {
        self.traits.as_slice()
    }

    /// The perception modifier.
    pub fn perception(&self) -> (perception: i16)
        ensures
            perception == self@.perception,
    {
        self.perception
    }

    /// The skills with their modifiers.
    pub fn skills(&self) -> (skills: &[(Skill, i16)])
        ensures
            skills@ == self@.skills,
    {
        self.skills.as_slice()
    }

    /// The six ability scores.
    pub fn attributes(&self) -> (attributes: &AbilityStats)
        ensures
            *attributes == self@.attributes,
    {
        &self.attributes
    }

    /// The items carried.
    pub fn items(&self) -> (items: &[String])
        ensures
            items@ == self@.items,
    {
        self.items.as_slice()
    }

    /// The armor class.
    pub fn armor_class(&self) -> (armor_class: i16)
        ensures
            armor_class == self@.armor_class,
    {
        self.armor_class
    }

    /// The fortitude save.
    pub fn fortitude_save(&self) -> (fortitude_save: i16)
        ensures
            fortitude_save == self@.fortitude_save,
    {
        self.fortitude_save
    }

    /// The reflex save.
    pub fn reflex_save(&self) -> (reflex_save: i16)
        ensures
            reflex_save == self@.reflex_save,
    {
        self.reflex_save
    }

    /// The will save.
    pub fn will_save(&self) -> (will_save: i16)
        ensures
            will_save == self@.will_save,
    {
        self.will_save
    }

    /// The hit points.
    pub fn hit_points(&self) -> (hit_points: i32)
        ensures
            hit_points == self@.hit_points,
    {
        self.hit_points
    }

    /// The speed on land.
    pub fn land_speed(&self) -> (land_speed: u16)
        ensures
            land_speed == self@.land_speed,
    {
        self.land_speed
    }

    /// The narrative lines.
    pub fn flavor(&self) -> (flavor: &NpcFlavor)
        ensures
            flavor@ == self@.flavor,
    {
        &self.flavor
    }

    /// The ancestry, once it is resolved.
    pub fn ancestry(&self) -> (ancestry: Option<&Ancestry>)
        ensures
            ancestry is Some <==> self@.ancestry is Some,
            ancestry matches Some(resolved) ==> Some(resolved@) == self@.ancestry,
    {
        match &self.ancestry {
            Some(resolved) => Some(resolved),
            None => None,
        }
    }

    /// The heritage, if the character has one.
    pub fn heritage(&self) -> (heritage: Option<&Heritage>)
        ensures
            heritage is Some <==> self@.heritage is Some,
            heritage matches Some(resolved) ==> Some(resolved@) == self@.heritage,
    {
        match &self.heritage {
            Some(resolved) => Some(resolved),
            None => None,
        }
    }

    /// What the character is trained in.
    pub fn proficiencies(&self) -> (proficiencies: &Proficiencies)
        ensures
            proficiencies@ == self@.proficiencies,
    {
        &self.proficiencies
    }

    /// Sets the name of the character; nothing else changes.
    pub fn set_name(&mut self, name: &str)
        ensures
            final(self)@ == (StatblockView { name: name@, ..old(self)@ }),
    {
        self.name = String::from_str(name);
    }

    /// Sets the class of the character: the name of its background or archetype; nothing else changes.
    pub fn set_class(&mut self, class: &str)
        ensures
            final(self)@ == (StatblockView { class: class@, ..old(self)@ }),
    {
        self.class = String::from_str(class);
    }

    /// Sets the level; nothing else changes.
    pub fn set_level(&mut self, level: i8)
        ensures
            final(self)@ == (StatblockView { level: level, ..old(self)@ }),
    {
        self.level = level;
    }

    /// Sets the age in years; nothing else changes.
    pub fn set_age(&mut self, age: u64)
        ensures
            final(self)@ == (StatblockView { age: age, ..old(self)@ }),
    {
        self.age = age;
    }

    /// Sets the stage of life; nothing else changes.
    pub fn set_age_range(&mut self, age_range: AgeRange)
        ensures
            final(self)@ == (StatblockView { age_range: age_range, ..old(self)@ }),
    {
        self.age_range = age_range;
    }

    /// Sets the sex; empty where the ancestry has none; nothing else changes.
    pub fn set_sex(&mut self, sex: &str)
        ensures
            final(self)@ == (StatblockView { sex: sex@, ..old(self)@ }),
    {
        self.sex = String::from_str(sex);
    }

    /// Sets the traits; nothing else changes.
    pub fn set_traits(&mut self, traits: Vec<Trait>)
        ensures
            final(self)@ == (StatblockView { traits: traits@, ..old(self)@ }),
    {
        self.traits = traits;
    }

    /// Sets the perception modifier; nothing else changes.
    pub fn set_perception(&mut self, perception: i16)
        ensures
            final(self)@ == (StatblockView { perception: perception, ..old(self)@ }),
    {
        self.perception = perception;
    }

    /// Sets the skills with their modifiers; nothing else changes.
    pub fn set_skills(&mut self, skills: Vec<(Skill, i16)>)
        ensures
            final(self)@ == (StatblockView { skills: skills@, ..old(self)@ }),
    {
        self.skills = skills;
    }

    /// Sets the six ability scores; nothing else changes.
    pub fn set_attributes(&mut self, attributes: AbilityStats)
        ensures
            final(self)@ == (StatblockView { attributes: attributes, ..old(self)@ }),
    {
        self.attributes = attributes;
    }

    /// Sets the items carried; nothing else changes.
    pub fn set_items(&mut self, items: Vec<String>)
        ensures
            final(self)@ == (StatblockView { items: items@, ..old(self)@ }),
    {
        self.items = items;
    }

    /// Sets the armor class; nothing else changes.
    pub fn set_armor_class(&mut self, armor_class: i16)
        ensures
            final(self)@ == (StatblockView { armor_class: armor_class, ..old(self)@ }),
    {
        self.armor_class = armor_class;
    }

    /// Sets the fortitude save; nothing else changes.
    pub fn set_fortitude_save(&mut self, fortitude_save: i16)
        ensures
            final(self)@ == (StatblockView { fortitude_save: fortitude_save, ..old(self)@ }),
    {
        self.fortitude_save = fortitude_save;
    }

    /// Sets the reflex save; nothing else changes.
    pub fn set_reflex_save(&mut self, reflex_save: i16)
        ensures
            final(self)@ == (StatblockView { reflex_save: reflex_save, ..old(self)@ }),
    {
        self.reflex_save = reflex_save;
    }

    /// Sets the will save; nothing else changes.
    pub fn set_will_save(&mut self, will_save: i16)
        ensures
            final(self)@ == (StatblockView { will_save: will_save, ..old(self)@ }),
    {
        self.will_save = will_save;
    }

    /// Sets the hit points; nothing else changes.
    pub fn set_hit_points(&mut self, hit_points: i32)
        ensures
            final(self)@ == (StatblockView { hit_points: hit_points, ..old(self)@ }),
    {
        self.hit_points = hit_points;
    }

    /// Sets the speed on land; nothing else changes.
    pub fn set_land_speed(&mut self, land_speed: u16)
        ensures
            final(self)@ == (StatblockView { land_speed: land_speed, ..old(self)@ }),
    {
        self.land_speed = land_speed;
    }

    /// Sets the description line of the narrative; nothing else changes.
    pub fn set_description_line(&mut self, line: &str)
        ensures
            final(self)@ == (StatblockView {
                flavor: NpcFlavorView { description_line: line@, ..old(self)@.flavor },
                ..old(self)@
            }),
    {
        self.flavor.description_line = String::from_str(line);
    }

    /// Sets the narrative lines; nothing else changes.
    pub fn set_flavor(&mut self, flavor: NpcFlavor)
        ensures
            final(self)@ == (StatblockView { flavor: flavor@, ..old(self)@ }),
    {
        self.flavor = flavor;
    }

    /// Sets the ancestry, once it is resolved; nothing else changes.
    pub fn set_ancestry(&mut self, ancestry: Option<Ancestry>)
        ensures
            final(self)@ == (StatblockView { ancestry: optional_ancestry(ancestry), ..old(self)@ }),
    {
        self.ancestry = ancestry;
    }

    /// Sets the heritage, if the character has one; nothing else changes.
    pub fn set_heritage(&mut self, heritage: Option<Heritage>)
        ensures
            final(self)@ == (StatblockView { heritage: optional_heritage(heritage), ..old(self)@ }),
    {
        self.heritage = heritage;
    }

    /// Sets what the character is trained in; nothing else changes.
    pub fn set_proficiencies(&mut self, proficiencies: Proficiencies)
        ensures
            final(self)@ == (StatblockView { proficiencies: proficiencies@, ..old(self)@ }),
    {
        self.proficiencies = proficiencies;
    }
}

} // verus!
