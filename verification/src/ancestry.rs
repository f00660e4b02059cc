//! Ancestries: the species-level template of a character.

use crate::ability::AbilityBoost;
use crate::ability::AbilityModifications;
use crate::age_range::AgeRange;
use crate::age_range::AgeRanges;
use crate::archetype::copy_optional_text;
use crate::archetype::optional_text;
use crate::formats::Formats;
use crate::heritage::borrow_optional_text;
use crate::language::copy_languages;
use crate::language::language_views;
use crate::language::Language;
use crate::language::LanguageView;
use crate::mutation::MutationChance;
use crate::mutation::MutationProbabilities;
use crate::named_element::NamedElement;
use crate::newtypes::copy_optional_table;
use crate::newtypes::optional_rows;
use crate::newtypes::TableView;
use crate::newtypes::WeightKey;
use crate::newtypes::WeightMap;
use crate::sense::Sense;
use crate::size::Size;
use crate::traits::Trait;
use vstd::prelude::*;

verus! {

/// An ancestry.
#[derive(Debug)]
pub struct Ancestry {
    traits: Vec<Trait>,
    name: String,
    ability_modifications: AbilityModifications,
    languages: Vec<Language>,
    senses: Vec<Sense>,
    size: Size,
    speed: u16,
    possible_eye_colors: Option<WeightMap<String>>,
    possible_hair_colors: Option<WeightMap<String>>,
    possible_hair_length: Option<WeightMap<String>>,
    possible_hair_type: Option<WeightMap<String>>,
    mutation_probabilities: MutationProbabilities,
    possible_skin_tone: WeightMap<String>,
    possible_skin_texture: WeightMap<String>,
    specimen_surnames: Option<WeightMap<String>>,
    age_ranges: AgeRanges,
    age_range_distribution: WeightMap<AgeRange>,
    prd_reference: Option<String>,
    is_asexual: bool,
    hair_substance: String,
    skin_substance: String,
    base_hp: u8,
    formats: Formats,
}

/// The plain values of an `Ancestry`.
pub struct AncestryView {
    pub traits: Seq<Trait>,
    pub name: Seq<char>,
    pub ability_modifications: Seq<AbilityBoost>,
    pub languages: Seq<LanguageView>,
    pub senses: Seq<Sense>,
    pub size: Size,
    pub speed: u16,
    pub possible_eye_colors: Option<TableView<String>>,
    pub possible_hair_colors: Option<TableView<String>>,
    pub possible_hair_length: Option<TableView<String>>,
    pub possible_hair_type: Option<TableView<String>>,
    pub mutation_probabilities: Seq<MutationChance>,
    pub possible_skin_tone: TableView<String>,
    pub possible_skin_texture: TableView<String>,
    pub specimen_surnames: Option<TableView<String>>,
    pub age_ranges: AgeRanges,
    pub age_range_distribution: TableView<AgeRange>,
    pub prd_reference: Option<Seq<char>>,
    pub is_asexual: bool,
    pub hair_substance: Seq<char>,
    pub skin_substance: Seq<char>,
    pub base_hp: u8,
    pub full_name: Seq<char>,
}

impl View for Ancestry {
    type V = AncestryView;

    closed spec fn view(&self) -> AncestryView {
        AncestryView {
            traits: self.traits@,
            name: self.name@,
            ability_modifications: self.ability_modifications@,
            languages: language_views(self.languages@),
            senses: self.senses@,
            size: self.size,
            speed: self.speed,
            possible_eye_colors: optional_rows(self.possible_eye_colors),
            possible_hair_colors: optional_rows(self.possible_hair_colors),
            possible_hair_length: optional_rows(self.possible_hair_length),
            possible_hair_type: optional_rows(self.possible_hair_type),
            mutation_probabilities: self.mutation_probabilities@,
            possible_skin_tone: self.possible_skin_tone.rows(),
            possible_skin_texture: self.possible_skin_texture.rows(),
            specimen_surnames: optional_rows(self.specimen_surnames),
            age_ranges: self.age_ranges,
            age_range_distribution: self.age_range_distribution.rows(),
            prd_reference: optional_text(self.prd_reference),
            is_asexual: self.is_asexual,
            hair_substance: self.hair_substance@,
            skin_substance: self.skin_substance@,
            base_hp: self.base_hp,
            full_name: self.formats.full_name@,
        }
    }
}

/// The plain values of an ancestry that may be absent.
pub open spec fn optional_ancestry(ancestry: Option<Ancestry>) -> Option<AncestryView> {
    match ancestry {
        Some(ancestry) => Some(ancestry@),
        None => None,
    }
}

/// What hair is made of where an ancestry says nothing else.
pub fn default_hair_substance() -> (substance: String)
    ensures
        substance@ == "hair"@,
{
    String::from_str("hair")
}

/// What skin is made of where an ancestry says nothing else.
pub fn default_skin_substance() -> (substance: String)
    ensures
        substance@ == "skin"@,
{
    String::from_str("skin")
}

impl PartialEq for Ancestry {
    /// Two ancestries are the same ancestry where they carry the same name.
    fn eq(&self, other: &Self) -> (same: bool) {
        self.name == other.name
    }
}

impl Eq for Ancestry {

}

impl vstd::std_specs::cmp::PartialEqSpecImpl for Ancestry {
    open spec fn obeys_eq_spec() -> bool {
        true
    }

    open spec fn eq_spec(&self, other: &Self) -> bool {
        self@.name == other@.name
    }
}

impl Clone for Ancestry {
    fn clone(&self) -> (copy: Self)
        ensures
            copy@ == self@,
    {
        let traits = self.traits.clone();
        let senses = self.senses.clone();
        assert(traits@ =~= self.traits@);
        assert(senses@ =~= self.senses@);
        Ancestry {
            traits,
            name: self.name.clone(),
            ability_modifications: self.ability_modifications.clone(),
            languages: copy_languages(&self.languages),
            senses,
            size: self.size,
            speed: self.speed,
            possible_eye_colors: copy_optional_table(&self.possible_eye_colors),
            possible_hair_colors: copy_optional_table(&self.possible_hair_colors),
            possible_hair_length: copy_optional_table(&self.possible_hair_length),
            possible_hair_type: copy_optional_table(&self.possible_hair_type),
            mutation_probabilities: self.mutation_probabilities.clone(),
            possible_skin_tone: self.possible_skin_tone.clone(),
            possible_skin_texture: self.possible_skin_texture.clone(),
            specimen_surnames: copy_optional_table(&self.specimen_surnames),
            age_ranges: self.age_ranges,
            age_range_distribution: self.age_range_distribution.copied(),
            prd_reference: copy_optional_text(&self.prd_reference),
            is_asexual: self.is_asexual,
            hair_substance: self.hair_substance.clone(),
            skin_substance: self.skin_substance.clone(),
            base_hp: self.base_hp,
            formats: self.formats.clone(),
        }
    }
}

impl WeightKey for Ancestry {
    type Id = Seq<char>;

    open spec fn id(&self) -> Seq<char> {
        self@.name
    }

    fn same_key(&self, other: &Self) -> (same: bool) {
        self.name == other.name
    }
}

/// A table that may be absent, borrowed.
fn borrow_optional_table(table: &Option<WeightMap<String>>) -> (borrowed: Option<
    &WeightMap<String>,
>)
    ensures
        borrowed is Some <==> table is Some,
        borrowed matches Some(rows) ==> Some(rows.rows()) == optional_rows(*table),
{
    match table {
        Some(table) => Some(table),
        None => None,
    }
}

impl Ancestry {
    /// The ancestry with the given values.
    pub fn new(
        traits: Vec<Trait>,
        name: &str,
        ability_modifications: AbilityModifications,
        languages: Vec<Language>,
        senses: Vec<Sense>,
        size: Size,
        speed: u16,
        possible_eye_colors: Option<WeightMap<String>>,
        possible_hair_colors: Option<WeightMap<String>>,
        possible_hair_length: Option<WeightMap<String>>,
        possible_hair_type: Option<WeightMap<String>>,
        possible_skin_tone: WeightMap<String>,
        possible_skin_texture: WeightMap<String>,
        mutation_probabilities: MutationProbabilities,
        specimen_surnames: Option<WeightMap<String>>,
        age_ranges: AgeRanges,
        age_range_distribution: WeightMap<AgeRange>,
        prd_reference: Option<String>,
        is_asexual: bool,
        hair_substance: &str,
        skin_substance: &str,
        base_hp: u8,
        formats: Formats,
    ) -> (made: Self)
        ensures
            made@ == (AncestryView {
                traits: traits@,
                name: name@,
                ability_modifications: ability_modifications@,
                languages: language_views(languages@),
                senses: senses@,
                size,
                speed,
                possible_eye_colors: optional_rows(possible_eye_colors),
                possible_hair_colors: optional_rows(possible_hair_colors),
                possible_hair_length: optional_rows(possible_hair_length),
                possible_hair_type: optional_rows(possible_hair_type),
                mutation_probabilities: mutation_probabilities@,
                possible_skin_tone: possible_skin_tone.rows(),
                possible_skin_texture: possible_skin_texture.rows(),
                specimen_surnames: optional_rows(specimen_surnames),
                age_ranges,
                age_range_distribution: age_range_distribution.rows(),
                prd_reference: optional_text(prd_reference),
                is_asexual,
                hair_substance: hair_substance@,
                skin_substance: skin_substance@,
                base_hp,
                full_name: formats.full_name@,
            }),
    {
        Ancestry {
            traits,
            name: String::from_str(name),
            ability_modifications,
            languages,
            senses,
            size,
            speed,
            possible_eye_colors,
            possible_hair_colors,
            possible_hair_length,
            possible_hair_type,
            mutation_probabilities,
            possible_skin_tone,
            possible_skin_texture,
            specimen_surnames,
            age_ranges,
            age_range_distribution,
            prd_reference,
            is_asexual,
            hair_substance: String::from_str(hair_substance),
            skin_substance: String::from_str(skin_substance),
            base_hp,
            formats,
        }
    }

    pub fn ability_modifications(&self) -> (program: &AbilityModifications)
        ensures
            program@ == self@.ability_modifications,
    {
        &self.ability_modifications
    }

    pub fn languages(&self) -> (languages: &[Language])
        ensures
            language_views(languages@) == self@.languages,
    {
        self.languages.as_slice()
    }

    pub fn senses(&self) -> (senses: &[Sense])
        ensures
            senses@ == self@.senses,
    {
        self.senses.as_slice()
    }

    pub fn size(&self) -> (size: Size)
        ensures
            size == self@.size,
    {
        self.size
    }

    pub fn speed(&self) -> (speed: u16)
        ensures
            speed == self@.speed,
    {
        self.speed
    }

    pub fn possible_eye_colors(&self) -> (colors: Option<&WeightMap<String>>)
        ensures
            colors is Some <==> self@.possible_eye_colors is Some,
            colors matches Some(rows) ==> Some(rows.rows()) == self@.possible_eye_colors,
    {
        borrow_optional_table(&self.possible_eye_colors)
    }

    pub fn possible_hair_colors(&self) -> (colors: Option<&WeightMap<String>>)
        ensures
            colors is Some <==> self@.possible_hair_colors is Some,
            colors matches Some(rows) ==> Some(rows.rows()) == self@.possible_hair_colors,
    {
        borrow_optional_table(&self.possible_hair_colors)
    }

    pub fn possible_hair_length(&self) -> (lengths: Option<&WeightMap<String>>)
        ensures
            lengths is Some <==> self@.possible_hair_length is Some,
            lengths matches Some(rows) ==> Some(rows.rows()) == self@.possible_hair_length,
    {
        borrow_optional_table(&self.possible_hair_length)
    }

    pub fn possible_hair_type(&self) -> (types: Option<&WeightMap<String>>)
        ensures
            types is Some <==> self@.possible_hair_type is Some,
            types matches Some(rows) ==> Some(rows.rows()) == self@.possible_hair_type,
    {
        borrow_optional_table(&self.possible_hair_type)
    }

    pub fn mutation_probabilities(&self) -> (chances: &MutationProbabilities)
        ensures
            chances@ == self@.mutation_probabilities,
    {
        &self.mutation_probabilities
    }

    pub fn possible_skin_tone(&self) -> (tones: &WeightMap<String>)
        ensures
            tones.rows() == self@.possible_skin_tone,
    {
        &self.possible_skin_tone
    }

    pub fn possible_skin_texture(&self) -> (textures: &WeightMap<String>)
        ensures
            textures.rows() == self@.possible_skin_texture,
    {
        &self.possible_skin_texture
    }

    pub fn specimen_surnames(&self) -> (surnames: Option<&WeightMap<String>>)
        ensures
            surnames is Some <==> self@.specimen_surnames is Some,
            surnames matches Some(rows) ==> Some(rows.rows()) == self@.specimen_surnames,
    {
        borrow_optional_table(&self.specimen_surnames)
    }

    pub fn age_ranges(&self) -> (ranges: &AgeRanges)
        ensures
            *ranges == self@.age_ranges,
    {
        &self.age_ranges
    }

    pub fn age_range_distribution(&self) -> (distribution: &WeightMap<AgeRange>)
        ensures
            distribution.rows() == self@.age_range_distribution,
    {
        &self.age_range_distribution
    }

    pub fn prd_reference(&self) -> (reference: Option<&str>)
        ensures
            reference is Some <==> self@.prd_reference is Some,
            reference matches Some(text) ==> Some(text@) == self@.prd_reference,
    {
        borrow_optional_text(&self.prd_reference)
    }

    pub fn is_asexual(&self) -> (asexual: bool)
        ensures
            asexual == self@.is_asexual,
    {
        self.is_asexual
    }

    pub fn hair_substance(&self) -> (substance: &str)
        ensures
            substance@ == self@.hair_substance,
    {
        self.hair_substance.as_str()
    }

    pub fn skin_substance(&self) -> (substance: &str)
        ensures
            substance@ == self@.skin_substance,
    {
        self.skin_substance.as_str()
    }

    pub fn base_hp(&self) -> (base_hp: u8)
        ensures
            base_hp == self@.base_hp,
    {
        self.base_hp
    }

    pub fn formats(&self) -> (formats: &Formats)
        ensures
            formats.full_name@ == self@.full_name,
    {
        &self.formats
    }
}

impl NamedElement for Ancestry {
    open spec fn element_traits(&self) -> Seq<Trait> {
        self@.traits
    }

    open spec fn element_name(&self) -> Seq<char> {
        self@.name
    }

    open spec fn element_formatted_name(&self) -> Seq<char> {
        self@.name
    }

    fn traits(&self) -> (traits: &[Trait]) {
        self.traits.as_slice()
    }

    fn name(&self) -> (name: &str) {
        self.name.as_str()
    }

    fn formatted_name(&self) -> (name: String) {
        self.name.clone()
    }
}

} // verus!
