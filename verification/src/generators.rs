//! The generator: one character from shared data and a random source.

use crate::age_range::AgeRange;
use crate::ancestry::Ancestry;
use crate::ancestry::AncestryView;
use crate::allocation::can_run_dry;
use crate::archetype::Archetype;
use crate::archetype::ArchetypeView;
use crate::background::Background;
use crate::background::BackgroundView;
pub use crate::errors::AbilityGenerationError;
pub use crate::errors::AgeGenerationError;
pub use crate::errors::AncestryGenerationError;
pub use crate::errors::BackgroundGenerationError;
pub use crate::errors::FlavorGenerationError;
pub use crate::errors::GenerationError;
pub use crate::errors::HeritageGenerationError;
pub use crate::errors::NameGenerationError;
pub use crate::errors::HairGenerationError;
pub use crate::errors::RngError;
pub use crate::errors::SexGenerationError;
pub use crate::errors::SkillGenerationError;
pub use crate::errors::FlavorLineGenerationError;
use crate::flavor::describes_skin;
use crate::flavor::generate_flavor_description_line;
use crate::flavor::generate_flavor_face_line;
use crate::flavor::generate_flavor_habit_line;
use crate::flavor::generate_flavor_hair_and_eyes_line;
use crate::flavor::generate_flavor_skin_line;
use crate::flavor::generate_lineage_line;
use crate::flavor::generate_size_and_build;
use crate::flavor::hair_and_eyes_fail;
use crate::flavor::hair_and_eyes_written;
use crate::flavor::lineage_of;
use crate::flavor::optional_heritage_ref;
use crate::flavor::size_and_build_text;
use crate::flavor::spaced;
use crate::flavor::spaced_if_any;
use crate::flavor::DescriptionLine;
use crate::statblock::NpcFlavor;
use crate::statblock::NpcFlavorView;
use crate::statblock::Statblock;
use crate::statblock::StatblockView;
use crate::heritage::Heritage;
use crate::heritage::HeritageView;
use crate::mutation::Probability;
use crate::named_element::NamedElement;
use crate::npc_options::NpcOptions;
use crate::formats::create_format_vm;
use crate::random::fork;
use crate::training::generate_stats;
use crate::training::stats_generated;
use crate::weight_presets::WeightPreset;
use crate::newtypes::drawable;
use crate::newtypes::weight_under;
use crate::newtypes::weights_under;
use crate::newtypes::TableView;
use crate::newtypes::Weight;
use crate::newtypes::WeightMap;
use crate::random::pick;
use crate::random::pick_in_range;
use crate::random::sample_index;
use crate::traits::has_trait;
use crate::traits::labels;
use crate::traits::Trait;
use std::sync::Arc;
use vstd::prelude::*;

verus! {

/// The names of one sex under a trait.
#[derive(Debug)]
pub struct SexNames {
    pub sex: String,
    pub names: WeightMap<String>,
}

/// The names that characters with a trait can bear, by sex. Where a sex is
/// listed more than once, the first listing counts.
#[derive(Debug)]
pub struct TraitNames {
    pub name_trait: Trait,
    pub names: Vec<SexNames>,
}

/// The heritages that are open to characters with a trait.
#[derive(Debug)]
pub struct TraitHeritages {
    pub heritage_trait: Trait,
    pub heritages: WeightMap<String>,
}

/// Everything a generator draws from. It is never changed by generation.
#[derive(Debug)]
pub struct GeneratorData {
    pub ancestries: WeightMap<Ancestry>,
    /// The chance that a character has no heritage.
    pub normal_heritage_weight: Probability,
    pub versitile_heritages: WeightMap<Heritage>,
    pub heritages: Vec<TraitHeritages>,
    pub backgrounds: WeightMap<Background>,
    /// The name tables, by trait. Where a trait is listed more than once,
    /// the first listing counts.
    pub names: Vec<TraitNames>,
    pub archetypes: Vec<Archetype>,
}

impl Default for GeneratorData {
    fn default() -> (empty: Self)
        ensures
            empty.ancestries.key_seq().len() == 0,
            empty.normal_heritage_weight.impossible(),
            empty.versitile_heritages.key_seq().len() == 0,
            empty.heritages@.len() == 0,
            empty.backgrounds.key_seq().len() == 0,
            empty.names@.len() == 0,
            empty.archetypes@.len() == 0,
    {
        GeneratorData {
            ancestries: WeightMap::new(),
            normal_heritage_weight: Probability::never(),
            versitile_heritages: WeightMap::new(),
            heritages: Vec::new(),
            backgrounds: WeightMap::new(),
            names: Vec::new(),
            archetypes: Vec::new(),
        }
    }
}

/// The scripts that are shared by all ancestries.
#[derive(Debug)]
pub struct GeneratorScripts {
    /// The source of the template of the description line.
    pub default_format_flavor_description_line_script: String,
}

/// Generates characters. Owns its random source; shares its data.
pub struct Generator {
    random_number_generator: rand::rngs::StdRng,
    pub data: Arc<GeneratorData>,
    pub scripts: Arc<GeneratorScripts>,
    vm: Option<gluon::RootedThread>,
}

/// The weight that a preset names for an ancestry, if it names one.
pub open spec fn preset_weight(overrides: Map<Seq<char>, Weight>, name: Seq<char>) -> Option<
    Weight,
> {
    if overrides.dom().contains(name) {
        Some(overrides[name])
    } else {
        None
    }
}

/// The weights of the ancestries in a draw: the weight that the preset
/// names for an ancestry, and the stored weight where it names none or
/// there is no preset.
pub open spec fn preset_weights(
    table: TableView<Ancestry>,
    overrides: Option<Map<Seq<char>, Weight>>,
) -> Seq<Weight> {
    match overrides {
        None => table.weights,
        Some(overrides) => Seq::new(
            table.keys.len(),
            |i: int|
                match preset_weight(overrides, table.keys[i]@.name) {
                    Some(weight) => weight,
                    None => table.weights[i],
                },
        ),
    }
}

/// The overrides of a table of preset weights that may be absent.
pub open spec fn overrides_of(ancestry_weights: Option<&WeightMap<String>>) -> Option<
    Map<Seq<char>, Weight>,
> {
    match ancestry_weights {
        Some(weights) => Some(weights@),
        None => None,
    }
}

/// Whether `drawn` is an ancestry that a draw under the preset can give: it
/// stands in a row of the table whose weight in the draw is positive.
pub open spec fn ancestry_drawn(
    table: TableView<Ancestry>,
    overrides: Option<Map<Seq<char>, Weight>>,
    drawn: AncestryView,
) -> bool {
    exists|i: int|
        0 <= i < table.keys.len() && (#[trigger] table.keys[i])@ == drawn && preset_weights(
            table,
            overrides,
        )[i] > 0
}

/// Whether `drawn` is a heritage that the heritage step can give: none,
/// unless a character is bound to have one; or one that stands in a row of
/// positive weight, unless a character is bound to have none.
pub open spec fn heritage_drawn(
    chance: Probability,
    table: TableView<Heritage>,
    drawn: Option<HeritageView>,
) -> bool {
    &&& chance.valid()
    &&& match drawn {
        None => !chance.impossible(),
        Some(heritage) => !chance.certain() && table.drawable() && exists|i: int|
            0 <= i < table.keys.len() && (#[trigger] table.keys[i])@ == heritage
                && table.weights[i] > 0,
    }
}

/// Whether the heritage step can fail: the chance of no heritage is no
/// probability, or a heritage may be called for and there is none to draw.
pub open spec fn heritage_can_fail(chance: Probability, table: TableView<Heritage>) -> bool {
    !chance.valid() || (!chance.certain() && !table.drawable())
}

/// Whether `drawn` is a background of the table.
pub open spec fn background_drawn(table: TableView<Background>, drawn: BackgroundView) -> bool {
    exists|i: int| 0 <= i < table.keys.len() && (#[trigger] table.keys[i])@ == drawn
}

/// Whether `sex` is one of the two sexes that are drawn.
pub open spec fn sex_drawn(sex: Seq<char>) -> bool {
    sex == "male"@ || sex == "female"@
}

/// Whether a stage of life has ages to draw from for the ancestry.
pub open spec fn has_ages(ancestry: AncestryView, range: AgeRange) -> bool {
    ancestry.age_ranges.first_age(range) < ancestry.age_ranges.end_age(range) <= u64::MAX
}

/// Whether `range` and `age` are what the age step can give: the pinned
/// stage, or a stage drawn from the distribution of the ancestry; the stage
/// has ages; and the age is one of them.
pub open spec fn age_drawn(
    ancestry: AncestryView,
    pinned: Option<AgeRange>,
    range: AgeRange,
    age: u64,
) -> bool {
    &&& match pinned {
        Some(pinned) => range == pinned,
        None => ancestry.age_range_distribution.drawable()
            && ancestry.age_range_distribution.offers(range),
    }
    &&& has_ages(ancestry, range)
    &&& ancestry.age_ranges.holds(range, age as int)
}

/// Whether the age step can fail: the stage is pinned and has no ages; or
/// it is drawn, and there is nothing to draw or a stage without ages can
/// come up.
pub open spec fn age_can_fail(ancestry: AncestryView, pinned: Option<AgeRange>) -> bool {
    match pinned {
        Some(pinned) => !has_ages(ancestry, pinned),
        None => !ancestry.age_range_distribution.drawable() || exists|range: AgeRange|
            #[trigger] ancestry.age_range_distribution.offers(range) && !has_ages(ancestry, range),
    }
}

/// Whether the age step is bound to fail: the stage is pinned and has no
/// ages; or it is drawn, and there is nothing to draw or no stage that can
/// come up has ages.
pub open spec fn age_must_fail(ancestry: AncestryView, pinned: Option<AgeRange>) -> bool {
    match pinned {
        Some(pinned) => !has_ages(ancestry, pinned),
        None => !ancestry.age_range_distribution.drawable() || forall|range: AgeRange|
            #[trigger] ancestry.age_range_distribution.offers(range) ==> !has_ages(ancestry, range),
    }
}

/// The traits of the heritage, if there is one.
pub open spec fn heritage_traits(heritage: Option<HeritageView>) -> Seq<Trait> {
    match heritage {
        Some(heritage) => heritage.traits,
        None => Seq::empty(),
    }
}

/// Whether `traits` are the traits of a character: those of its ancestry,
/// those of its heritage and its size, each once.
pub open spec fn traits_collected(
    ancestry: AncestryView,
    heritage: Option<HeritageView>,
    traits: Seq<Trait>,
) -> bool {
    &&& labels(traits).no_duplicates()
    &&& forall|label: Seq<char>| #[trigger]
        labels(traits).contains(label) <==> (labels(ancestry.traits).contains(label) || labels(
            heritage_traits(heritage),
        ).contains(label) || label == ancestry.size.name())
}

/// Adds to `traits` each trait of `more` that it does not hold yet.
fn add_traits(traits: &mut Vec<Trait>, more: &[Trait])
    requires
        labels(old(traits)@).no_duplicates(),
    ensures
        labels(final(traits)@).no_duplicates(),
        forall|label: Seq<char>| #[trigger]
            labels(final(traits)@).contains(label) <==> (labels(old(traits)@).contains(label)
                || labels(more@).contains(label)),
{
    let mut i: usize = 0;
    while i < more.len()
        invariant
            i <= more.len(),
            labels(traits@).no_duplicates(),
            forall|label: Seq<char>| #[trigger]
                labels(traits@).contains(label) <==> (labels(old(traits)@).contains(label)
                    || labels(more@.take(i as int)).contains(label)),
        decreases more.len() - i,
    {
        let ghost before = traits@;
        let ghost label_added = more@[i as int]@;
        let added = !has_trait(traits, &more[i]);
        if added {
            traits.push(more[i].clone());
        }
        proof {
            let front = more@.take(i as int);
            let longer = more@.take(i as int + 1);
            assert(labels(longer) =~= labels(front).push(label_added));
            if added {
                assert(labels(traits@) =~= labels(before).push(label_added));
            }
            assert forall|label: Seq<char>| #[trigger]
                labels(traits@).contains(label) <==> (labels(old(traits)@).contains(label)
                    || labels(longer).contains(label)) by {
                assert(labels(before).contains(label) <==> (labels(old(traits)@).contains(label)
                    || labels(front).contains(label)));
                lemma_contains_push(labels(front), label_added, label);
                if added {
                    lemma_contains_push(labels(before), label_added, label);
                } else {
                    assert(labels(before).contains(label_added));
                    assert(traits@ == before);
                }
            }
            if added {
                lemma_no_duplicates_push(labels(before), label_added);
            }
        }
        i += 1;
    }
    proof {
        assert(more@.take(i as int) =~= more@);
    }
}

/// What a seq holds after a push: what it held, and the new element.
pub proof fn lemma_contains_push<T>(items: Seq<T>, pushed: T, wanted: T)
    ensures
        items.push(pushed).contains(wanted) <==> (items.contains(wanted) || wanted == pushed),
{
    let more = items.push(pushed);
    if more.contains(wanted) {
        let k = choose|k: int| 0 <= k < more.len() && more[k] == wanted;
        if k < items.len() {
            assert(items[k] == wanted);
        }
    }
    if items.contains(wanted) {
        let k = choose|k: int| 0 <= k < items.len() && items[k] == wanted;
        assert(more[k] == wanted);
    }
    if wanted == pushed {
        assert(more[items.len() as int] == wanted);
    }
}

/// A seq without duplicates stays so when a new element is pushed.
pub proof fn lemma_no_duplicates_push<T>(items: Seq<T>, pushed: T)
    requires
        items.no_duplicates(),
        !items.contains(pushed),
    ensures
        items.push(pushed).no_duplicates(),
{
}

/// Collects the traits of a character: those of its ancestry, those of its
/// heritage, and its size, each once.
pub fn collect_traits(ancestry: &Ancestry, heritage: Option<&Heritage>) -> (traits: Vec<Trait>)
    ensures
        traits_collected(ancestry@, optional_heritage_ref(heritage), traits@),
{
    let mut traits: Vec<Trait> = Vec::new();
    add_traits(&mut traits, ancestry.traits());
    match heritage {
        Some(heritage) => {
            add_traits(&mut traits, heritage.traits());
        },
        None => {},
    }
    let mut size: Vec<Trait> = Vec::new();
    size.push(Trait::new(ancestry.size().to_string().as_str()));
    proof {
        assert(labels(size@) =~= seq![ancestry@.size.name()]);
        assert forall|label: Seq<char>|
            labels(size@).contains(label) <==> label == ancestry@.size.name() by {
            if label == ancestry@.size.name() {
                assert(labels(size@)[0] == label);
            }
        }
    }
    let ghost before_size = traits@;
    add_traits(&mut traits, size.as_slice());
    proof {
        assert forall|label: Seq<char>| #[trigger]
            labels(traits@).contains(label) <==> (labels(ancestry@.traits).contains(label)
                || labels(heritage_traits(optional_heritage_ref(heritage))).contains(label) || label
                == ancestry@.size.name()) by {
            assert(labels(traits@).contains(label) <==> (labels(before_size).contains(label)
                || labels(size@).contains(label)));
            assert(labels(size@).contains(label) <==> label == ancestry@.size.name());
            if heritage is None {
                assert(labels(Seq::<Trait>::empty()) =~= Seq::<Seq<char>>::empty());
            }
        }
    }
    traits
}

impl Generator {
    /// The data that the generator draws from.
    pub closed spec fn shared(&self) -> GeneratorData {
        *self.data
    }

    /// The scripts that the generator uses.
    pub closed spec fn script(&self) -> GeneratorScripts {
        *self.scripts
    }

    /// A generator that draws from `rng` and from `data`.
    pub fn new(rng: rand::rngs::StdRng, data: Arc<GeneratorData>, scripts: Arc<GeneratorScripts>)
        -> (made: Option<Generator>)
        ensures
            made matches Some(generator) && generator.shared() == *data && generator.script()
                == *scripts,
    {
        Some(Generator { random_number_generator: rng, data, scripts, vm: None })
    }

    /// Draws an ancestry by its weight. Where `ancestry_weights` names a
    /// weight for the name of an ancestry, that weight counts in place of
    /// the stored one.
    ///
    /// Fails exactly where the weights of the draw give nothing to draw.
    pub fn generate_ancestry(
        &self,
        rng: &mut rand::rngs::StdRng,
        ancestry_weights: Option<&WeightMap<String>>,
    ) -> (drawn: Result<Ancestry, AncestryGenerationError>)
        ensures
            drawn is Ok <==> drawable(
                preset_weights(self.shared().ancestries.rows(), overrides_of(ancestry_weights)),
            ),
            drawn matches Ok(ancestry) ==> ancestry_drawn(
                self.shared().ancestries.rows(),
                overrides_of(ancestry_weights),
                ancestry@,
            ),
    {
        let ghost table = self.data.ancestries.rows();
        proof {
            self.data.ancestries.lemma_one_weight_per_key();
        }
        let split = match ancestry_weights {
            Some(ancestry_weights) => {
                let named = |ancestry: &Ancestry| -> (named: Option<Weight>)
                    ensures
                        named == preset_weight(ancestry_weights@, ancestry@.name),
                    {
                        let name = String::from_str(ancestry.name());
                        match ancestry_weights.get(&name) {
                            Some(weight) => Some(*weight),
                            None => None,
                        }
                    };
                let split = self.data.ancestries.split_weights_with_modifications(named);
                proof {
                    let expected = preset_weights(table, overrides_of(Some(ancestry_weights)));
                    assert forall|weights: Seq<Weight>|
                        weights_under(
                            named,
                            table.keys,
                            table.weights,
                            weights,
                        ) implies weights == expected by {
                        assert forall|i: int| 0 <= i < weights.len() implies weights[i]
                            == expected[i] by {
                            assert(weight_under(named, table.keys[i], table.weights[i], weights[i]));
                        }
                        assert(weights =~= expected);
                    }
                }
                split
            },
            None => self.data.ancestries.split_weights(),
        };
        match split {
            Ok((values, distribution)) => {
                let row = sample_index(rng, &distribution);
                let ancestry = values[row].clone();
                proof {
                    assert(table.keys[row as int]@ == ancestry@);
                }
                Ok(ancestry)
            },
            Err(_) => Err(AncestryGenerationError),
        }
    }

    /// Decides on a heritage: none, with the chance that the data gives for
    /// a character without a heritage; otherwise one drawn by its weight.
    ///
    /// Fails where that chance is no probability. Fails too where a
    /// heritage is called for and there is none to draw.
    pub fn generate_heritage(&self, rng: &mut rand::rngs::StdRng) -> (drawn: Result<
        Option<Heritage>,
        GenerationError,
    >)
        ensures
            match drawn {
                Ok(heritage) => heritage_drawn(
                    self.shared().normal_heritage_weight,
                    self.shared().versitile_heritages.rows(),
                    crate::heritage::optional_heritage(heritage),
                ),
                Err(error) => error == GenerationError::HeritageGenerationError(
                    HeritageGenerationError,
                ) && heritage_can_fail(
                    self.shared().normal_heritage_weight,
                    self.shared().versitile_heritages.rows(),
                ),
            },
            !self.shared().normal_heritage_weight.valid() ==> drawn is Err,
            self.shared().normal_heritage_weight.impossible()
                && !self.shared().versitile_heritages.rows().drawable() ==> drawn is Err,
    {
        match self.data.normal_heritage_weight.trial(rng) {
            None => Err(GenerationError::HeritageGenerationError(HeritageGenerationError)),
            Some(true) => Ok(None),
            Some(false) => {
                match self.data.versitile_heritages.draw(rng) {
                    Ok(heritage) => {
                        let heritage = heritage.clone();
                        Ok(Some(heritage))
                    },
                    Err(_) => Err(GenerationError::HeritageGenerationError(HeritageGenerationError)),
                }
            },
        }
    }

    /// Picks a background, each background of the data being equally
    /// likely whatever its weight.
    ///
    /// Fails exactly where the data holds no background.
    pub fn generate_background(&self, rng: &mut rand::rngs::StdRng) -> (drawn: Result<
        &Background,
        GenerationError,
    >)
        ensures
            drawn is Ok <==> self.shared().backgrounds.key_seq().len() > 0,
            drawn matches Ok(background) ==> background_drawn(
                self.shared().backgrounds.rows(),
                background@,
            ),
            drawn matches Err(error) ==> error == GenerationError::BackgroundGenerationError(
                BackgroundGenerationError,
            ),
    {
        let backgrounds = self.data.backgrounds.keys();
        match pick(rng, backgrounds.as_slice()) {
            Some(background) => {
                proof {
                    let i = choose|i: int|
                        0 <= i < backgrounds@.len() && backgrounds@[i] == *background;
                    assert(self.shared().backgrounds.rows().keys[i]@ == background@);
                }
                Ok(*background)
            },
            None => Err(GenerationError::BackgroundGenerationError(BackgroundGenerationError)),
        }
    }

    /// Picks one of the two sexes, each equally likely.
    pub fn generate_sex(&self, random_number_generator: &mut rand::rngs::StdRng, _ancestry: &Ancestry)
        -> (drawn: Result<String, GenerationError>)
        ensures
            drawn is Ok,
            drawn matches Ok(sex) ==> sex_drawn(sex@),
    {
        let mut sexes: Vec<&str> = Vec::new();
        sexes.push("male");
        sexes.push("female");
        match pick(random_number_generator, sexes.as_slice()) {
            Some(sex) => {
                proof {
                    let i = choose|i: int| 0 <= i < sexes@.len() && sexes@[i] == *sex;
                    assert(sexes@[0]@ == "male"@);
                    assert(sexes@[1]@ == "female"@);
                }
                Ok(String::from_str(*sex))
            },
            None => Err(GenerationError::SexGenerationError(SexGenerationError)),
        }
    }

    /// Decides on a stage of life and an age. The stage is the pinned one,
    /// or drawn from the distribution of the ancestry; the age is drawn
    /// among the ages of the stage, each equally likely.
    ///
    /// Fails where a stage must be drawn and there is none to draw, and
    /// where the stage has no ages. It is bound to fail where no stage that
    /// can come up has ages, and it cannot fail where every such stage has.
    pub fn generate_age(
        &self,
        rng: &mut rand::rngs::StdRng,
        ancestry: &Ancestry,
        age_range: Option<&AgeRange>,
    ) -> (drawn: Result<(AgeRange, u64), AgeGenerationError>)
        ensures
            drawn matches Ok((range, age)) ==> age_drawn(
                ancestry@,
                pinned_range(age_range),
                range,
                age,
            ),
            drawn is Err ==> age_can_fail(ancestry@, pinned_range(age_range)),
            age_range matches Some(pinned) ==> (drawn is Ok <==> has_ages(ancestry@, *pinned)),
            age_must_fail(ancestry@, pinned_range(age_range)) ==> drawn is Err,
    {
        let range: AgeRange = match age_range {
            Some(pinned) => *pinned,
            None => {
                match ancestry.age_range_distribution().draw(rng) {
                    Ok(range) => *range,
                    Err(_) => {
                        return Err(AgeGenerationError);
                    },
                }
            },
        };
        let valid_ages = match ancestry.age_ranges().checked_get(&range) {
            Some(ages) => ages,
            None => {
                return Err(AgeGenerationError);
            },
        };
        match pick_in_range(rng, valid_ages.start, valid_ages.end) {
            Some(age) => Ok((range, age)),
            None => Err(AgeGenerationError),
        }
    }
}

/// The pinned stage of life, if one is pinned.
pub open spec fn pinned_range(age_range: Option<&AgeRange>) -> Option<AgeRange> {
    match age_range {
        Some(range) => Some(*range),
        None => None,
    }
}

/// The name that stands in for a name where the tables have none for the
/// sex of the character.
pub open spec fn name_error_mark() -> Seq<char> {
    "@@NAME_ERROR@@"@
}

/// The names listed first for a trait, if the trait is listed.
pub open spec fn names_of_trait(names: Seq<TraitNames>, label: Seq<char>) -> Option<Seq<SexNames>>
    decreases names.len(),
{
    if names.len() == 0 {
        None
    } else if names[0].name_trait@ == label {
        Some(names[0].names@)
    } else {
        names_of_trait(names.drop_first(), label)
    }
}

/// The names listed first for a sex, if the sex is listed.
pub open spec fn names_of_sex(by_sex: Seq<SexNames>, sex: Seq<char>) -> Option<TableView<String>>
    decreases by_sex.len(),
{
    if by_sex.len() == 0 {
        None
    } else if by_sex[0].sex@ == sex {
        Some(by_sex[0].names.rows())
    } else {
        names_of_sex(by_sex.drop_first(), sex)
    }
}

/// Whether `table` is what the name tables offer a character for its sex
/// under one of its traits that has names at all.
pub open spec fn first_names_offered(
    names: Seq<TraitNames>,
    traits: Seq<Trait>,
    sex: Seq<char>,
    table: Option<TableView<String>>,
) -> bool {
    exists|t: int|
        0 <= t < traits.len() && names_of_trait(names, (#[trigger] traits[t])@) is Some
            && names_of_sex(names_of_trait(names, traits[t]@)->Some_0, sex) == table
}

/// Whether no trait of the character has names.
pub open spec fn no_names_offered(names: Seq<TraitNames>, traits: Seq<Trait>) -> bool {
    forall|t: int| 0 <= t < traits.len() ==> names_of_trait(names, (#[trigger] traits[t])@) is None
}

/// Whether `name` is a name that can be given to the character: a first
/// name drawn from a table that its traits offer for its sex; the mark of
/// a missing table where they offer none for its sex; and where the
/// ancestry has surnames, whatever the full-name template made of the
/// first name and a surname.
pub open spec fn name_written(
    names: Seq<TraitNames>,
    ancestry: AncestryView,
    traits: Seq<Trait>,
    sex: Seq<char>,
    name: Seq<char>,
) -> bool {
    exists|table: Option<TableView<String>>|
        #[trigger] first_names_offered(names, traits, sex, table) && name_from(
            table,
            ancestry.specimen_surnames,
            name,
        )
}

/// Whether `name` can be made from a table of first names and the surnames
/// of an ancestry: the mark of a missing table where there is no table; a
/// first name drawn from the table where there are no surnames; and where
/// there are surnames to draw, whatever the full-name template makes of a
/// first name and a surname.
pub open spec fn name_from(
    table: Option<TableView<String>>,
    surnames: Option<TableView<String>>,
    name: Seq<char>,
) -> bool {
    match table {
        None => name == name_error_mark(),
        Some(first_names) => first_names.drawable() && match surnames {
            None => is_name_of(first_names, name),
            Some(surnames) => surnames.drawable(),
        },
    }
}

/// Whether `name` is a name that a draw from the table can give.
pub open spec fn is_name_of(table: TableView<String>, name: Seq<char>) -> bool {
    exists|first: String| #[trigger] table.offers(first) && name == first@
}

/// Whether naming the character can fail for want of names: none of its
/// traits has names, or a table that is drawn from gives nothing to draw.
pub open spec fn name_can_fail(
    names: Seq<TraitNames>,
    ancestry: AncestryView,
    traits: Seq<Trait>,
    sex: Seq<char>,
) -> bool {
    ||| no_names_offered(names, traits)
    ||| exists|table: TableView<String>| #[trigger]
        first_names_offered(names, traits, sex, Some(table)) && (!table.drawable() || (
        ancestry.specimen_surnames matches Some(surnames) && !surnames.drawable()))
}

/// Whether naming the character can come to the full-name template: some
/// trait of the character offers first names for its sex that can be drawn
/// from, and the ancestry has surnames that can be drawn from.
pub open spec fn name_reaches_template(
    names: Seq<TraitNames>,
    ancestry: AncestryView,
    traits: Seq<Trait>,
    sex: Seq<char>,
) -> bool {
    exists|table: TableView<String>| #[trigger]
        first_names_offered(names, traits, sex, Some(table)) && table.drawable() && (
        ancestry.specimen_surnames matches Some(surnames) && surnames.drawable())
}

/// Finds the names listed first for a trait.
pub fn find_trait_names<'a>(names: &'a Vec<TraitNames>, wanted: &Trait) -> (found: Option<
    &'a Vec<SexNames>,
>)
    ensures
        found is Some <==> names_of_trait(names@, wanted@) is Some,
        found matches Some(by_sex) ==> Some(by_sex@) == names_of_trait(names@, wanted@),
{
    let mut i: usize = 0;
    proof {
        assert(names@.skip(0) =~= names@);
    }
    while i < names.len()
        invariant
            i <= names.len(),
            names_of_trait(names@, wanted@) == names_of_trait(names@.skip(i as int), wanted@),
        decreases names.len() - i,
    {
        proof {
            assert(names@.skip(i as int).drop_first() =~= names@.skip(i as int + 1));
        }
        if names[i].name_trait.same(wanted) {
            return Some(&names[i].names);
        }
        i += 1;
    }
    None
}

/// Finds the names listed first for a sex.
pub fn find_sex_names<'a>(by_sex: &'a Vec<SexNames>, sex: &str) -> (found: Option<
    &'a WeightMap<String>,
>)
    ensures
        found is Some <==> names_of_sex(by_sex@, sex@) is Some,
        found matches Some(table) ==> Some(table.rows()) == names_of_sex(by_sex@, sex@),
{
    let mut i: usize = 0;
    proof {
        assert(by_sex@.skip(0) =~= by_sex@);
    }
    while i < by_sex.len()
        invariant
            i <= by_sex.len(),
            names_of_sex(by_sex@, sex@) == names_of_sex(by_sex@.skip(i as int), sex@),
        decreases by_sex.len() - i,
    {
        proof {
            assert(by_sex@.skip(i as int).drop_first() =~= by_sex@.skip(i as int + 1));
        }
        if crate::text::same_text(by_sex[i].sex.as_str(), sex) {
            return Some(&by_sex[i].names);
        }
        i += 1;
    }
    None
}

/// Whether `candidates` holds `wanted`.
fn is_candidate(candidates: &Vec<&Trait>, wanted: &Trait) -> (found: bool)
    ensures
        found == exists|i: int| 0 <= i < candidates@.len() && (#[trigger] candidates@[i])@ == wanted@,
{
    let mut i: usize = 0;
    while i < candidates.len()
        invariant
            i <= candidates.len(),
            forall|j: int| 0 <= j < i ==> (#[trigger] candidates@[j])@ != wanted@,
        decreases candidates.len() - i,
    {
        if candidates[i].same(wanted) {
            return true;
        }
        i += 1;
    }
    false
}

/// Gives a character a name.
///
/// Picks one of the traits of the character that have names, each equally
/// likely, and draws a first name from what that trait offers for the sex
/// of the character; where it offers nothing for the sex, the name is the
/// mark of a missing table. Where the ancestry has surnames, draws one and
/// renders first name and surname through the full-name template.
///
/// Fails for want of names where no trait of the character has names or a
/// table gives nothing to draw. Fails with the error of the template where
/// the template does not render, which can only be once a first name and a
/// surname are drawn.
pub fn generate_name(
    traits: &[Trait],
    name_rng: &mut rand::rngs::StdRng,
    ancestry: &Ancestry,
    names: &Vec<TraitNames>,
    sex: &str,
    vm: &gluon::RootedThread,
) -> (named: Result<String, FlavorGenerationError>)
    ensures
        match named {
            Ok(name) => name_written(names@, ancestry@, traits@, sex@, name@),
            Err(FlavorGenerationError::NameGenerationError(_)) => name_can_fail(
                names@,
                ancestry@,
                traits@,
                sex@,
            ),
            Err(FlavorGenerationError::FormatError(_)) => name_reaches_template(
                names@,
                ancestry@,
                traits@,
                sex@,
            ),
            Err(_) => false,
        },
        no_names_offered(names@, traits@) ==> named == Err::<String, FlavorGenerationError>(
            FlavorGenerationError::NameGenerationError(NameGenerationError),
        ),
{
    let mut candidates: Vec<&Trait> = Vec::new();
    let mut i: usize = 0;
    while i < traits.len()
        invariant
            i <= traits.len(),
            forall|k: int|
                0 <= k < candidates@.len() ==> names_of_trait(names@, (#[trigger] candidates@[k])@)
                    is Some && exists|t: int|
                    0 <= t < traits@.len() && (#[trigger] traits@[t])@ == candidates@[k]@,
            forall|t: int|
                0 <= t < i && names_of_trait(names@, (#[trigger] traits@[t])@) is Some
                    ==> candidates@.len() > 0,
        decreases traits.len() - i,
    {
        if find_trait_names(names, &traits[i]).is_some() && !is_candidate(&candidates, &traits[i]) {
            candidates.push(&traits[i]);
        }
        i += 1;
    }
    let name_trait: &Trait = match pick(name_rng, candidates.as_slice()) {
        Some(name_trait) => *name_trait,
        None => {
            return Err(FlavorGenerationError::NameGenerationError(NameGenerationError));
        },
    };
    proof {
        let k = choose|k: int| 0 <= k < candidates@.len() && candidates@[k] == name_trait;
        assert(names_of_trait(names@, candidates@[k]@) is Some);
    }
    let ghost t = choose|t: int| 0 <= t < traits@.len() && (#[trigger] traits@[t])@ == name_trait@;
    let by_sex = match find_trait_names(names, name_trait) {
        Some(by_sex) => by_sex,
        None => {
            return Err(FlavorGenerationError::NameGenerationError(NameGenerationError));
        },
    };
    let first_names = match find_sex_names(by_sex, sex) {
        Some(first_names) => first_names,
        None => {
            proof {
                assert(first_names_offered(names@, traits@, sex@, None)) by {
                    assert(names_of_trait(names@, traits@[t]@) is Some);
                }
            }
            return Ok(String::from_str("@@NAME_ERROR@@"));
        },
    };
    proof {
        assert(first_names_offered(names@, traits@, sex@, Some(first_names.rows()))) by {
            assert(names_of_trait(names@, traits@[t]@) is Some);
        }
    }
    let first_name: String = match first_names.draw(name_rng) {
        Ok(first_name) => first_name.clone(),
        Err(_) => {
            return Err(FlavorGenerationError::NameGenerationError(NameGenerationError));
        },
    };
    let surnames = match ancestry.specimen_surnames() {
        Some(surnames) => surnames,
        None => {
            proof {
                assert(first_names.rows().offers(first_name));
                assert(is_name_of(first_names.rows(), first_name@));
            }
            return Ok(first_name);
        },
    };
    let surname: &String = match surnames.draw(name_rng) {
        Ok(surname) => surname,
        Err(_) => {
            return Err(FlavorGenerationError::NameGenerationError(NameGenerationError));
        },
    };
    match ancestry.formats().format_full_name(
        vm,
        first_name.as_str(),
        surname.as_str(),
        Vec::new(),
    ) {
        Ok(name) => Ok(name),
        Err(error) => Err(FlavorGenerationError::FormatError(error)),
    }
}

/// Whether `flavor` is a narrative that can be written for a character of
/// the ancestry and the heritage. The description line is left blank: it is
/// rendered from the finished statblock.
pub open spec fn flavor_written(
    ancestry: AncestryView,
    heritage: Option<HeritageView>,
    flavor: NpcFlavorView,
) -> bool {
    &&& flavor.description_line == Seq::<char>::empty()
    &&& flavor.lineage_line is Some <==> lineage_of(heritage) is Some
    &&& hair_and_eyes_written(ancestry, heritage, flavor.hair_and_eyes_line)
    &&& describes_skin(ancestry, flavor.skin_line)
    &&& flavor.size_and_build_line == size_and_build_text(ancestry.size)
    &&& flavor.face_line == "They have a face."@
    &&& flavor.habit_line == "They have habits."@
}

/// Whether writing the narrative of a character of the ancestry and the
/// heritage can fail with `error`.
pub open spec fn flavor_fails(
    ancestry: AncestryView,
    heritage: Option<HeritageView>,
    error: FlavorGenerationError,
) -> bool {
    match error {
        FlavorGenerationError::FormatError(_) => lineage_of(heritage) is Some,
        FlavorGenerationError::FlavorLineGenerationError(line) => lines_fail(
            ancestry,
            heritage,
            line,
        ),
        _ => false,
    }
}

/// Whether `flavor` is the narrative that can be written around the
/// lineage line `lineage_line` for a character of the ancestry and the
/// heritage: the lineage line as it is given, hair and eyes and skin as
/// they can be drawn, and the lines on size and build, face and habits. The
/// description line is blank.
pub open spec fn lines_written(
    ancestry: AncestryView,
    heritage: Option<HeritageView>,
    lineage_line: Option<Seq<char>>,
    flavor: NpcFlavorView,
) -> bool {
    &&& flavor.description_line == Seq::<char>::empty()
    &&& flavor.lineage_line == lineage_line
    &&& hair_and_eyes_written(ancestry, heritage, flavor.hair_and_eyes_line)
    &&& describes_skin(ancestry, flavor.skin_line)
    &&& flavor.size_and_build_line == size_and_build_text(ancestry.size)
    &&& flavor.face_line == "They have a face."@
    &&& flavor.habit_line == "They have habits."@
}

/// Whether the lines on hair, eyes and skin can fail with `error` for a
/// character of the ancestry and the heritage.
pub open spec fn lines_fail(
    ancestry: AncestryView,
    heritage: Option<HeritageView>,
    error: FlavorLineGenerationError,
) -> bool {
    match error {
        FlavorLineGenerationError::SkinGenerationError(_) => !ancestry.possible_skin_texture.drawable()
            || !ancestry.possible_skin_tone.drawable(),
        line => hair_and_eyes_fail(ancestry, heritage, line),
    }
}

/// Writes the narrative around a lineage line that is rendered already:
/// draws hair and eyes, then skin, and adds the lines on size and build,
/// face and habits. The lineage line is taken over as it is given, and the
/// description line is left blank.
///
/// Fails where hair, eyes or skin cannot be drawn.
pub fn finish_flavor(
    rng: &mut rand::rngs::StdRng,
    ancestry: &Ancestry,
    heritage: Option<&Heritage>,
    lineage_line: Option<String>,
) -> (written: Result<NpcFlavor, FlavorLineGenerationError>)
    ensures
        match written {
            Ok(flavor) => lines_written(
                ancestry@,
                optional_heritage_ref(heritage),
                crate::archetype::optional_text(lineage_line),
                flavor@,
            ),
            Err(error) => lines_fail(ancestry@, optional_heritage_ref(heritage), error),
        },
{
    let hair_and_eyes_line = match generate_flavor_hair_and_eyes_line(rng, ancestry, heritage) {
        Ok(line) => line,
        Err(error) => {
            return Err(error);
        },
    };
    let skin_line = match generate_flavor_skin_line(rng, ancestry) {
        Ok(line) => line,
        Err(error) => {
            return Err(FlavorLineGenerationError::SkinGenerationError(error));
        },
    };
    Ok(
        NpcFlavor {
            description_line: String::new(),
            lineage_line,
            hair_and_eyes_line,
            skin_line,
            size_and_build_line: generate_size_and_build(ancestry),
            face_line: generate_flavor_face_line(),
            habit_line: generate_flavor_habit_line(),
        },
    )
}

/// Writes the narrative of a character: renders the lineage line, where
/// the heritage names a lineage, and hands it to `finish_flavor` for the
/// lines on hair and eyes, skin, size and build, face and habits. The
/// description line is left blank.
///
/// Fails where the statblock has no ancestry, where the lineage-line
/// template does not render, and where hair, eyes or skin cannot be drawn.
pub fn generate_flavor(
    rng: &mut rand::rngs::StdRng,
    unflavored_statblock: &Statblock,
    vm: &gluon::RootedThread,
) -> (written: Result<NpcFlavor, FlavorGenerationError>)
    ensures
        unflavored_statblock@.ancestry is None <==> written == Err::<
            NpcFlavor,
            FlavorGenerationError,
        >(FlavorGenerationError::AncestryIsNone),
        match written {
            Ok(flavor) => unflavored_statblock@.ancestry is Some && flavor_written(
                unflavored_statblock@.ancestry->Some_0,
                unflavored_statblock@.heritage,
                flavor@,
            ),
            Err(FlavorGenerationError::AncestryIsNone) => unflavored_statblock@.ancestry is None,
            Err(error) => unflavored_statblock@.ancestry is Some && flavor_fails(
                unflavored_statblock@.ancestry->Some_0,
                unflavored_statblock@.heritage,
                error,
            ),
        },
{
    let ancestry = match unflavored_statblock.ancestry() {
        Some(ancestry) => ancestry,
        None => {
            return Err(FlavorGenerationError::AncestryIsNone);
        },
    };
    let heritage = unflavored_statblock.heritage();
    let lineage_line = match generate_lineage_line(heritage, vm) {
        Ok(line) => line,
        Err(error) => {
            return Err(FlavorGenerationError::FormatError(error));
        },
    };
    match finish_flavor(rng, ancestry, heritage, lineage_line) {
        Ok(flavor) => Ok(flavor),
        Err(error) => Err(FlavorGenerationError::FlavorLineGenerationError(error)),
    }
}

/// Gathers the values that the description-line template interpolates for
/// a finished statblock. The job of the character is its class.
///
/// Fails exactly where the statblock has no ancestry.
pub fn describe(scripts: &GeneratorScripts, statblock: &Statblock) -> (line: Result<
    DescriptionLine,
    FlavorGenerationError,
>)
    ensures
        statblock@.ancestry is None <==> line is Err,
        line matches Err(error) ==> error == FlavorGenerationError::AncestryIsNone,
        line matches Ok(values) ==> {
            &&& values.script@ == scripts.default_format_flavor_description_line_script@
            &&& values.name@ == statblock@.name
            &&& values.age == statblock@.age
            &&& values.age_range == statblock@.age_range
            &&& values.sex@ == spaced(statblock@.sex)
            &&& values.ancestry_name@ == statblock@.ancestry->Some_0.name
            &&& values.heritage_name@ == spaced_if_any(
                match statblock@.heritage {
                    Some(heritage) => Some(heritage.name),
                    None => None,
                },
            )
            &&& values.job_name@ == statblock@.class
        },
{
    let ancestry = match statblock.ancestry() {
        Some(ancestry) => ancestry,
        None => {
            return Err(FlavorGenerationError::AncestryIsNone);
        },
    };
    let heritage_name: Option<&str> = match statblock.heritage() {
        Some(heritage) => Some(heritage.name()),
        None => None,
    };
    Ok(
        generate_flavor_description_line(
            scripts.default_format_flavor_description_line_script.as_str(),
            statblock.name(),
            statblock.age(),
            statblock.age_range(),
            statblock.sex(),
            ancestry.name(),
            heritage_name,
            statblock.class(),
            None,
        ),
    )
}

/// Whether the ancestry step is bound to fail: no ancestry is pinned, and
/// the weights of the draw give nothing to draw.
pub open spec fn ancestry_step_fails(
    data: GeneratorData,
    options: NpcOptions,
    overrides: Option<Map<Seq<char>, Weight>>,
) -> bool {
    options.ancestry is None && !drawable(preset_weights(data.ancestries.rows(), overrides))
}

/// Whether the heritage step is bound to fail: no heritage is pinned, and
/// the chance of no heritage is no probability, or a heritage is called for
/// every time and there is none to draw.
pub open spec fn heritage_step_fails(data: GeneratorData, options: NpcOptions) -> bool {
    options.heritage is None && (!data.normal_heritage_weight.valid() || (
    data.normal_heritage_weight.impossible() && !data.versitile_heritages.rows().drawable()))
}

/// Whether the heritage step cannot fail: a heritage is pinned, or the
/// chance of no heritage is a probability and there is a heritage to draw
/// unless none is ever called for.
pub open spec fn heritage_step_succeeds(data: GeneratorData, options: NpcOptions) -> bool {
    options.heritage is Some || !heritage_can_fail(
        data.normal_heritage_weight,
        data.versitile_heritages.rows(),
    )
}

/// Whether the background step is bound to fail: no archetype takes the
/// place of the background, none is pinned, and the data has none.
pub open spec fn background_step_fails(data: GeneratorData, options: NpcOptions) -> bool {
    options.archetype is None && options.background is None && data.backgrounds.key_seq().len()
        == 0
}

/// Whether the age step is bound to fail, whichever ancestry the ancestry
/// step gives.
pub open spec fn age_step_fails(
    data: GeneratorData,
    options: NpcOptions,
    overrides: Option<Map<Seq<char>, Weight>>,
) -> bool {
    forall|ancestry: AncestryView| #[trigger]
        ancestry_resolved(data, options, overrides, ancestry) ==> age_must_fail(
            ancestry,
            options.age_range,
        )
}

/// Whether the steps that decide who a character is cannot fail: the
/// ancestry step and the background step are not bound to fail, the
/// heritage step cannot fail, and every stage of life that can come up has
/// ages, whichever ancestry the ancestry step gives.
pub open spec fn identity_cannot_fail(
    data: GeneratorData,
    options: NpcOptions,
    overrides: Option<Map<Seq<char>, Weight>>,
) -> bool {
    &&& !ancestry_step_fails(data, options, overrides)
    &&& heritage_step_succeeds(data, options)
    &&& !background_step_fails(data, options)
    &&& !some_age_fails(data, options, overrides)
}

/// Whether no character that the steps before can give has a trait with
/// names.
pub open spec fn names_never_offered(
    data: GeneratorData,
    options: NpcOptions,
    overrides: Option<Map<Seq<char>, Weight>>,
) -> bool {
    forall|ancestry: AncestryView, heritage: Option<HeritageView>, traits: Seq<Trait>|
        ancestry_resolved(data, options, overrides, ancestry) && heritage_resolved(
            data,
            options,
            heritage,
        ) && #[trigger] traits_collected(ancestry, heritage, traits) ==> no_names_offered(
            data.names@,
            traits,
        )
}

/// The part of a statblock that says who the character is: name, age,
/// stage of life, sex and traits. Everything else is blank.
pub open spec fn identity_of(statblock: StatblockView) -> StatblockView {
    StatblockView {
        name: statblock.name,
        age: statblock.age,
        age_range: statblock.age_range,
        sex: statblock.sex,
        traits: statblock.traits,
        ..StatblockView::blank()
    }
}

/// A statblock without what is filled in last: ancestry, heritage,
/// narrative and class.
pub open spec fn mechanics_of(statblock: StatblockView) -> StatblockView {
    StatblockView {
        ancestry: None,
        heritage: None,
        flavor: NpcFlavorView::blank(),
        class: Seq::empty(),
        ..statblock
    }
}

/// Whether `after` is `before` with the statistics of the archetype copied in.
pub open spec fn archetype_applied(
    archetype: ArchetypeView,
    before: StatblockView,
    after: StatblockView,
) -> bool {
    after == (StatblockView {
        perception: archetype.perception,
        land_speed: archetype.speed,
        skills: archetype.skills,
        attributes: archetype.attributes,
        items: archetype.items,
        armor_class: archetype.armor_class,
        fortitude_save: archetype.fortitude_save,
        reflex_save: archetype.reflex_save,
        will_save: archetype.will_save,
        hit_points: archetype.hp,
        level: archetype.level,
        ..before
    })
}

/// Whether `ancestry` is what the ancestry step can give: the pinned
/// ancestry, or one drawn under the preset.
pub open spec fn ancestry_resolved(
    data: GeneratorData,
    options: NpcOptions,
    overrides: Option<Map<Seq<char>, Weight>>,
    ancestry: AncestryView,
) -> bool {
    match options.ancestry {
        Some(pinned) => ancestry == pinned@,
        None => ancestry_drawn(data.ancestries.rows(), overrides, ancestry),
    }
}

/// Whether `heritage` is what the heritage step can give: the pinned
/// heritage, or the outcome of the draw.
pub open spec fn heritage_resolved(
    data: GeneratorData,
    options: NpcOptions,
    heritage: Option<HeritageView>,
) -> bool {
    match options.heritage {
        Some(pinned) => heritage == crate::heritage::optional_heritage(pinned),
        None => heritage_drawn(
            data.normal_heritage_weight,
            data.versitile_heritages.rows(),
            heritage,
        ),
    }
}

/// Whether `background` is what the background step can give: the pinned
/// background, or one of the backgrounds of the data.
pub open spec fn background_resolved(
    data: GeneratorData,
    options: NpcOptions,
    background: BackgroundView,
) -> bool {
    match options.background {
        Some(pinned) => background == pinned@,
        None => background_drawn(data.backgrounds.rows(), background),
    }
}

/// Whether `sex` is what the sex step can give: the pinned sex; none for
/// an ancestry without sexes; one of the two sexes otherwise.
pub open spec fn sex_resolved(options: NpcOptions, ancestry: AncestryView, sex: Seq<char>) -> bool {
    match options.sex {
        Some(pinned) => sex == pinned@,
        None => if ancestry.is_asexual {
            sex == Seq::<char>::empty()
        } else {
            sex_drawn(sex)
        },
    }
}

/// Whether the statistics of a statblock are what random generation can
/// make of its identity for the ancestry and some background that the
/// background step can give, whose name is the class.
pub open spec fn stats_from_background(
    data: GeneratorData,
    options: NpcOptions,
    ancestry: AncestryView,
    statblock: StatblockView,
) -> bool {
    exists|background: BackgroundView|
        #[trigger] background_resolved(data, options, background) && statblock.class
            == background.name && stats_generated(
            ancestry,
            background.trainings,
            identity_of(statblock),
            mechanics_of(statblock),
        )
}

/// Whether `statblock` is a character that generation can give for the
/// data, the options and the overrides of the preset.
pub open spec fn generated(
    data: GeneratorData,
    options: NpcOptions,
    overrides: Option<Map<Seq<char>, Weight>>,
    statblock: StatblockView,
) -> bool {
    &&& statblock.ancestry is Some
    &&& ancestry_resolved(data, options, overrides, statblock.ancestry->Some_0)
    &&& heritage_resolved(data, options, statblock.heritage)
    &&& sex_resolved(options, statblock.ancestry->Some_0, statblock.sex)
    &&& age_drawn(
        statblock.ancestry->Some_0,
        options.age_range,
        statblock.age_range,
        statblock.age,
    )
    &&& traits_collected(statblock.ancestry->Some_0, statblock.heritage, statblock.traits)
    &&& if options.enable_flavor_text {
        &&& name_written(
            data.names@,
            statblock.ancestry->Some_0,
            statblock.traits,
            statblock.sex,
            statblock.name,
        )
        &&& flavor_written(statblock.ancestry->Some_0, statblock.heritage, statblock.flavor)
    } else {
        statblock.name == Seq::<char>::empty() && statblock.flavor == NpcFlavorView::blank()
    }
    &&& match options.archetype {
        Some(archetype) => statblock.class == archetype@.name && archetype_applied(
            archetype@,
            identity_of(statblock),
            mechanics_of(statblock),
        ),
        None => stats_from_background(data, options, statblock.ancestry->Some_0, statblock),
    }
}

/// Whether a character of the ancestry, the heritage, the traits and the
/// sex can fail to get a name or a narrative with `error`.
pub open spec fn narrative_fails(
    data: GeneratorData,
    ancestry: AncestryView,
    heritage: Option<HeritageView>,
    traits: Seq<Trait>,
    sex: Seq<char>,
    error: FlavorGenerationError,
) -> bool {
    match error {
        FlavorGenerationError::NameGenerationError(_) => name_can_fail(
            data.names@,
            ancestry,
            traits,
            sex,
        ),
        FlavorGenerationError::FormatError(_) => name_reaches_template(
            data.names@,
            ancestry,
            traits,
            sex,
        ) || lineage_of(heritage) is Some,
        _ => flavor_fails(ancestry, heritage, error),
    }
}

/// Whether some character that the steps before can give fails to get a
/// name or a narrative with `error`.
pub open spec fn some_narrative_fails(
    data: GeneratorData,
    options: NpcOptions,
    overrides: Option<Map<Seq<char>, Weight>>,
    error: FlavorGenerationError,
) -> bool {
    exists|ancestry: AncestryView, heritage: Option<HeritageView>, traits: Seq<Trait>, sex: Seq<char>|
        #![trigger narrative_fails(data, ancestry, heritage, traits, sex, error)]
        {
            &&& ancestry_resolved(data, options, overrides, ancestry)
            &&& heritage_resolved(data, options, heritage)
            &&& traits_collected(ancestry, heritage, traits)
            &&& sex_resolved(options, ancestry, sex)
            &&& narrative_fails(data, ancestry, heritage, traits, sex, error)
        }
}

/// Whether some ancestry that the ancestry step can give has a stage of
/// life without ages, or nothing to draw a stage from.
pub open spec fn some_age_fails(
    data: GeneratorData,
    options: NpcOptions,
    overrides: Option<Map<Seq<char>, Weight>>,
) -> bool {
    exists|ancestry: AncestryView| #[trigger]
        ancestry_resolved(data, options, overrides, ancestry) && age_can_fail(
            ancestry,
            options.age_range,
        )
}

/// Whether some ancestry that the ancestry step can give has a program
/// that can run dry.
pub open spec fn some_allocation_fails(
    data: GeneratorData,
    options: NpcOptions,
    overrides: Option<Map<Seq<char>, Weight>>,
) -> bool {
    exists|ancestry: AncestryView| #[trigger]
        ancestry_resolved(data, options, overrides, ancestry) && can_run_dry(
            ancestry.ability_modifications,
        )
}

/// Whether generation can fail with `error` for the data, the options and
/// the overrides of the preset.
pub open spec fn generation_fails(
    data: GeneratorData,
    options: NpcOptions,
    overrides: Option<Map<Seq<char>, Weight>>,
    error: GenerationError,
) -> bool {
    match error {
        GenerationError::AncestryGenerationError(_) => options.ancestry is None && !drawable(
            preset_weights(data.ancestries.rows(), overrides),
        ),
        GenerationError::HeritageGenerationError(_) => options.heritage is None
            && heritage_can_fail(data.normal_heritage_weight, data.versitile_heritages.rows()),
        GenerationError::BackgroundGenerationError(_) => options.background is None
            && options.archetype is None && data.backgrounds.key_seq().len() == 0,
        GenerationError::SexGenerationError(_) => false,
        GenerationError::AgeGenerationError(_) => some_age_fails(data, options, overrides),
        GenerationError::AbilityGenerationError(_) => options.archetype is None
            && some_allocation_fails(data, options, overrides),
        GenerationError::SkillGenerationError(_) => false,
        GenerationError::FlavorGenerationError(error) => options.enable_flavor_text
            && some_narrative_fails(data, options, overrides, error),
    }
}

/// The overrides that a preset holds for the weights of ancestries.
pub open spec fn preset_overrides(weight_preset: Option<Arc<WeightPreset>>) -> Option<
    Map<Seq<char>, Weight>,
> {
    match weight_preset {
        Some(preset) => Some(crate::newtypes::table(
            preset@.ancestry_weights.keys,
            preset@.ancestry_weights.weights,
        )),
        None => None,
    }
}

/// Who a character is, as far as it is decided before its name and its
/// statistics: ancestry, heritage, background, sex, stage of life, age and
/// traits. There is no background where an archetype takes its place.
pub struct Identity<'a> {
    pub ancestry: Ancestry,
    pub heritage: Option<Heritage>,
    pub background: Option<&'a Background>,
    pub sex: String,
    pub age_range: AgeRange,
    pub age: u64,
    pub traits: Vec<Trait>,
}

impl<'a> Identity<'a> {
    /// Whether the identity is one that the first steps of generation can
    /// give for the data, the options and the overrides of the preset.
    pub open spec fn resolved(
        &self,
        data: GeneratorData,
        options: NpcOptions,
        overrides: Option<Map<Seq<char>, Weight>>,
    ) -> bool {
        &&& ancestry_resolved(data, options, overrides, self.ancestry@)
        &&& heritage_resolved(data, options, crate::heritage::optional_heritage(self.heritage))
        &&& match self.background {
            Some(background) => options.archetype is None && background_resolved(
                data,
                options,
                background@,
            ),
            None => options.archetype is Some,
        }
        &&& sex_resolved(options, self.ancestry@, self.sex@)
        &&& age_drawn(self.ancestry@, options.age_range, self.age_range, self.age)
        &&& traits_collected(
            self.ancestry@,
            crate::heritage::optional_heritage(self.heritage),
            self.traits@,
        )
    }
}

impl Generator {
    /// Decides who a character is: in turn its ancestry, its heritage, its
    /// background, its sex, its stage of life and age, and its traits. A
    /// random source is split off `rng` for each decision, whether the
    /// decision is drawn or pinned, so that pinning one leaves the sources
    /// of the others as they are; no background is drawn where an archetype
    /// takes its place.
    pub fn resolve_identity<'a>(
        &'a self,
        rng: &mut rand::rngs::StdRng,
        options: &'a NpcOptions,
        ancestry_weights: Option<&WeightMap<String>>,
    ) -> (drawn: Result<Identity<'a>, GenerationError>)
        ensures
            match drawn {
                Ok(identity) => identity.resolved(
                    self.shared(),
                    *options,
                    overrides_of(ancestry_weights),
                ),
                Err(GenerationError::AncestryGenerationError(_)) => generation_fails(
                    self.shared(),
                    *options,
                    overrides_of(ancestry_weights),
                    GenerationError::AncestryGenerationError(AncestryGenerationError),
                ),
                Err(GenerationError::HeritageGenerationError(_)) => generation_fails(
                    self.shared(),
                    *options,
                    overrides_of(ancestry_weights),
                    GenerationError::HeritageGenerationError(HeritageGenerationError),
                ),
                Err(GenerationError::BackgroundGenerationError(_)) => generation_fails(
                    self.shared(),
                    *options,
                    overrides_of(ancestry_weights),
                    GenerationError::BackgroundGenerationError(BackgroundGenerationError),
                ),
                Err(GenerationError::AgeGenerationError(_)) => generation_fails(
                    self.shared(),
                    *options,
                    overrides_of(ancestry_weights),
                    GenerationError::AgeGenerationError(AgeGenerationError),
                ),
                Err(_) => false,
            },
            ancestry_step_fails(self.shared(), *options, overrides_of(ancestry_weights))
                ==> drawn is Err && drawn->Err_0 == GenerationError::AncestryGenerationError(
                AncestryGenerationError,
            ),
            !ancestry_step_fails(self.shared(), *options, overrides_of(ancestry_weights))
                && heritage_step_fails(self.shared(), *options) ==> drawn is Err && drawn->Err_0
                == GenerationError::HeritageGenerationError(HeritageGenerationError),
            !ancestry_step_fails(self.shared(), *options, overrides_of(ancestry_weights))
                && heritage_step_succeeds(self.shared(), *options) && background_step_fails(
                self.shared(),
                *options,
            ) ==> drawn is Err && drawn->Err_0 == GenerationError::BackgroundGenerationError(
                BackgroundGenerationError,
            ),
            !ancestry_step_fails(self.shared(), *options, overrides_of(ancestry_weights))
                && heritage_step_succeeds(self.shared(), *options) && !background_step_fails(
                self.shared(),
                *options,
            ) && age_step_fails(self.shared(), *options, overrides_of(ancestry_weights))
                ==> drawn is Err && drawn->Err_0 == GenerationError::AgeGenerationError(
                AgeGenerationError,
            ),
            identity_cannot_fail(self.shared(), *options, overrides_of(ancestry_weights))
                ==> drawn is Ok,
    {
        let ghost data = self.shared();
        let ghost overrides = overrides_of(ancestry_weights);
        let mut ancestry_rng = fork(rng);
        let ancestry: Ancestry = match &options.ancestry {
            Some(pinned) => pinned.clone(),
            None => match self.generate_ancestry(&mut ancestry_rng, ancestry_weights) {
                Ok(ancestry) => ancestry,
                Err(error) => {
                    return Err(GenerationError::AncestryGenerationError(error));
                },
            },
        };

        let mut heritage_rng = fork(rng);
        let heritage: Option<Heritage> = match &options.heritage {
            Some(pinned) => crate::statblock::copy_optional_heritage(pinned),
            None => match self.generate_heritage(&mut heritage_rng) {
                Ok(heritage) => heritage,
                Err(error) => {
                    return Err(error);
                },
            },
        };

        let mut background_rng = fork(rng);
        let background: Option<&Background> = match &options.archetype {
            Some(_) => None,
            None => match &options.background {
                Some(pinned) => Some(pinned),
                None => match self.generate_background(&mut background_rng) {
                    Ok(background) => Some(background),
                    Err(error) => {
                        return Err(error);
                    },
                },
            },
        };

        let mut sex_rng = fork(rng);
        let sex: String = match &options.sex {
            Some(pinned) => pinned.clone(),
            None => {
                if ancestry.is_asexual() {
                    String::new()
                } else {
                    match self.generate_sex(&mut sex_rng, &ancestry) {
                        Ok(sex) => sex,
                        Err(error) => {
                            return Err(error);
                        },
                    }
                }
            },
        };

        let mut age_rng = fork(rng);
        let pinned_age_range: Option<&AgeRange> = match &options.age_range {
            Some(range) => Some(range),
            None => None,
        };
        let (age_range, age) = match self.generate_age(&mut age_rng, &ancestry, pinned_age_range) {
            Ok(drawn) => drawn,
            Err(error) => {
                proof {
                    assert(ancestry_resolved(data, *options, overrides, ancestry@) && age_can_fail(
                        ancestry@,
                        options.age_range,
                    ));
                }
                return Err(GenerationError::AgeGenerationError(error));
            },
        };

        let heritage_ref: Option<&Heritage> = match &heritage {
            Some(heritage) => Some(heritage),
            None => None,
        };
        let traits: Vec<Trait> = collect_traits(&ancestry, heritage_ref);
        Ok(Identity { ancestry, heritage, background, sex, age_range, age, traits })
    }
}

/// Copies the statistics of an archetype into a statblock: perception,
/// speed, skills, ability scores, items, armor class, saves, hit points and
/// level. Everything else stays.
pub fn apply_archetype(statblock: &mut Statblock, archetype: &Archetype)
    ensures
        archetype_applied(archetype@, old(statblock)@, final(statblock)@),
{
    statblock.set_perception(archetype.perception());
    statblock.set_land_speed(archetype.speed());
    statblock.set_skills(crate::archetype::copy_skill_modifiers(archetype.skills()));
    statblock.set_attributes(*archetype.attributes());
    let items = archetype.items_iter().clone();
    assert(items@ =~= archetype@.items);
    statblock.set_items(items);
    statblock.set_armor_class(archetype.armor_class());
    statblock.set_fortitude_save(archetype.fortitude_save());
    statblock.set_reflex_save(archetype.reflex_save());
    statblock.set_will_save(archetype.will_save());
    statblock.set_hit_points(archetype.hp());
    statblock.set_level(archetype.level());
}

impl Generator {
    /// Generates one character.
    ///
    /// In turn: the ancestry, the heritage, the background, the sex, the
    /// stage of life and the age, the traits, the name, the statistics and
    /// the narrative. Whatever the options pin is taken as it is; the rest
    /// is drawn. A random source is split off the generator's for each
    /// decision, whether the decision is drawn or not, so that pinning one
    /// leaves the sources of the others as they are. With an archetype the
    /// statistics are those of the archetype and no background is drawn.
    /// Name and narrative are left blank unless the options ask for them,
    /// and the description line is left blank in any case.
    ///
    /// The first step that is bound to fail gives the error, as long as
    /// the steps before it cannot fail: the ancestry step, the heritage
    /// step, the background step, the age step, and, where a narrative is
    /// asked for, the name for want of names. The data and the scripts of
    /// the generator stay as they are.
    pub fn generate(&mut self, options: &NpcOptions, weight_preset: Option<Arc<WeightPreset>>) -> (made:
        Result<Statblock, GenerationError>)
        ensures
            final(self).shared() == old(self).shared(),
            final(self).script() == old(self).script(),
            match made {
                Ok(statblock) => generated(
                    old(self).shared(),
                    *options,
                    preset_overrides(weight_preset),
                    statblock@,
                ),
                Err(error) => generation_fails(
                    old(self).shared(),
                    *options,
                    preset_overrides(weight_preset),
                    error,
                ),
            },
            ancestry_step_fails(old(self).shared(), *options, preset_overrides(weight_preset))
                ==> made == Err::<Statblock, GenerationError>(
                GenerationError::AncestryGenerationError(AncestryGenerationError),
            ),
            !ancestry_step_fails(old(self).shared(), *options, preset_overrides(weight_preset))
                && heritage_step_fails(old(self).shared(), *options) ==> made == Err::<
                Statblock,
                GenerationError,
            >(GenerationError::HeritageGenerationError(HeritageGenerationError)),
            !ancestry_step_fails(old(self).shared(), *options, preset_overrides(weight_preset))
                && heritage_step_succeeds(old(self).shared(), *options) && background_step_fails(
                old(self).shared(),
                *options,
            ) ==> made == Err::<Statblock, GenerationError>(
                GenerationError::BackgroundGenerationError(BackgroundGenerationError),
            ),
            !ancestry_step_fails(old(self).shared(), *options, preset_overrides(weight_preset))
                && heritage_step_succeeds(old(self).shared(), *options) && !background_step_fails(
                old(self).shared(),
                *options,
            ) && age_step_fails(old(self).shared(), *options, preset_overrides(weight_preset))
                ==> made == Err::<Statblock, GenerationError>(
                GenerationError::AgeGenerationError(AgeGenerationError),
            ),
            options.enable_flavor_text && identity_cannot_fail(
                old(self).shared(),
                *options,
                preset_overrides(weight_preset),
            ) && names_never_offered(old(self).shared(), *options, preset_overrides(weight_preset))
                ==> made == Err::<Statblock, GenerationError>(
                GenerationError::FlavorGenerationError(
                    FlavorGenerationError::NameGenerationError(NameGenerationError),
                ),
            ),
    {
        let ghost data = self.shared();
        let ghost overrides = preset_overrides(weight_preset);
        let mut rng = fork(&mut self.random_number_generator);
        if options.enable_flavor_text && self.vm.is_none() {
            self.vm = Some(create_format_vm());
        }
        let ancestry_weights: Option<&WeightMap<String>> = match &weight_preset {
            Some(preset) => Some(preset.ancestry_weights()),
            None => None,
        };
        assert(overrides_of(ancestry_weights) == overrides);
        let drawn = match self.resolve_identity(&mut rng, options, ancestry_weights) {
            Ok(drawn) => drawn,
            Err(error) => {
                return Err(error);
            },
        };
        let ancestry: Ancestry = drawn.ancestry;
        let heritage: Option<Heritage> = drawn.heritage;
        let background: Option<&Background> = drawn.background;
        let sex: String = drawn.sex;
        let age_range: AgeRange = drawn.age_range;
        let age: u64 = drawn.age;
        let traits: Vec<Trait> = drawn.traits;
        let ghost heritage_view = crate::heritage::optional_heritage(heritage);
        let heritage_ref: Option<&Heritage> = match &heritage {
            Some(heritage) => Some(heritage),
            None => None,
        };

        let mut names_rng = fork(&mut rng);
        let name: String = if options.enable_flavor_text {
            let vm: &gluon::RootedThread = self.vm.as_ref().unwrap();
            match generate_name(
                traits.as_slice(),
                &mut names_rng,
                &ancestry,
                &self.data.names,
                sex.as_str(),
                vm,
            ) {
                Ok(name) => name,
                Err(error) => {
                    proof {
                        assert(narrative_fails(
                            data,
                            ancestry@,
                            heritage_view,
                            traits@,
                            sex@,
                            error,
                        ));
                    }
                    return Err(GenerationError::FlavorGenerationError(error));
                },
            }
        } else {
            String::new()
        };

        let mut statblock = Statblock::default();
        statblock.set_name(name.as_str());
        statblock.set_age(age);
        statblock.set_age_range(age_range);
        statblock.set_sex(sex.as_str());
        statblock.set_traits(traits);
        let ghost identity = statblock@;
        assert(identity == identity_of(identity));

        let mut stats_rng = fork(&mut rng);
        let class: String = match &options.archetype {
            Some(archetype) => {
                apply_archetype(&mut statblock, archetype);
                String::from_str(archetype.name())
            },
            None => {
                let background: &Background = background.unwrap();
                statblock = match generate_stats(
                    &mut stats_rng,
                    &ancestry,
                    heritage_ref,
                    background,
                    &statblock,
                ) {
                    Ok(statblock) => statblock,
                    Err(error) => {
                        proof {
                            assert(ancestry_resolved(data, *options, overrides, ancestry@)
                                && can_run_dry(ancestry@.ability_modifications));
                        }
                        return Err(error);
                    },
                };
                String::from_str(background.name())
            },
        };
        let ghost mechanics = statblock@;
        let ghost ancestry_view = ancestry@;

        statblock.set_ancestry(Some(ancestry));
        statblock.set_heritage(heritage);
        let mut flavor_rng = fork(&mut rng);
        let flavor: NpcFlavor = if options.enable_flavor_text {
            let vm: &gluon::RootedThread = self.vm.as_ref().unwrap();
            match generate_flavor(&mut flavor_rng, &statblock, vm) {
                Ok(flavor) => flavor,
                Err(error) => {
                    proof {
                        assert(narrative_fails(
                            data,
                            ancestry_view,
                            heritage_view,
                            identity.traits,
                            identity.sex,
                            error,
                        ));
                    }
                    return Err(GenerationError::FlavorGenerationError(error));
                },
            }
        } else {
            NpcFlavor::default()
        };
        statblock.set_flavor(flavor);
        statblock.set_class(class.as_str());
        proof {
            assert(mechanics_of(statblock@) == mechanics);
            assert(identity_of(statblock@) == identity);
        }
        Ok(statblock)
    }
}

/// Whether the options pin the ancestry, the heritage, the stage of life,
/// the sex and an archetype, and ask for no narrative: then generation
/// draws nothing but the age.
pub open spec fn pins_everything(options: NpcOptions) -> bool {
    &&& options.ancestry is Some
    &&& options.heritage is Some
    &&& options.age_range is Some
    &&& options.sex is Some
    &&& options.archetype is Some
    &&& !options.enable_flavor_text
}

/// Where the options pin everything, two characters generated from them
/// agree in all their statistics, whatever the random source gave: in
/// level, perception, skills, ability scores, items, armor class, saves, hit
/// points and speed, and also in class, ancestry, heritage, sex, stage of
/// life, name, narrative and in what they are trained in. Their traits are
/// the same up to order.
pub proof fn lemma_pinned_generation_is_determined(
    data: GeneratorData,
    options: NpcOptions,
    overrides: Option<Map<Seq<char>, Weight>>,
    first: StatblockView,
    second: StatblockView,
)
    requires
        pins_everything(options),
        generated(data, options, overrides, first),
        generated(data, options, overrides, second),
    ensures
        first.level == second.level,
        first.perception == second.perception,
        first.skills == second.skills,
        first.attributes == second.attributes,
        first.items == second.items,
        first.armor_class == second.armor_class,
        first.fortitude_save == second.fortitude_save,
        first.reflex_save == second.reflex_save,
        first.will_save == second.will_save,
        first.hit_points == second.hit_points,
        first.land_speed == second.land_speed,
        first.proficiencies == second.proficiencies,
        first.class == second.class,
        first.ancestry == second.ancestry,
        first.heritage == second.heritage,
        first.sex == second.sex,
        first.age_range == second.age_range,
        first.name == second.name,
        first.flavor == second.flavor,
        forall|label: Seq<char>| #[trigger]
            labels(first.traits).contains(label) <==> labels(second.traits).contains(label),
{
    let archetype = options.archetype->Some_0@;
    assert(archetype_applied(archetype, identity_of(first), mechanics_of(first)));
    assert(archetype_applied(archetype, identity_of(second), mechanics_of(second)));
    assert(mechanics_of(first).level == first.level);
    assert(mechanics_of(second).level == second.level);
    assert forall|label: Seq<char>| #[trigger]
        labels(first.traits).contains(label) <==> labels(second.traits).contains(label) by {
        let ancestry = first.ancestry->Some_0;
        assert(labels(first.traits).contains(label) <==> (labels(ancestry.traits).contains(label)
            || labels(heritage_traits(first.heritage)).contains(label) || label
            == ancestry.size.name()));
        assert(labels(second.traits).contains(label) <==> (labels(ancestry.traits).contains(label)
            || labels(heritage_traits(second.heritage)).contains(label) || label
            == ancestry.size.name()));
    }
}

/// Where a character is certain to have no heritage and the options pin
/// none, every generated character is without a heritage.
pub proof fn lemma_certain_normal_heritage(
    data: GeneratorData,
    options: NpcOptions,
    overrides: Option<Map<Seq<char>, Weight>>,
    statblock: StatblockView,
)
    requires
        generated(data, options, overrides, statblock),
        options.heritage is None,
        data.normal_heritage_weight.certain(),
    ensures
        statblock.heritage is None,
{
}

/// A character of an ancestry without sexes has no sex, unless the options
/// pin one.
pub proof fn lemma_asexual_ancestry_has_no_sex(
    data: GeneratorData,
    options: NpcOptions,
    overrides: Option<Map<Seq<char>, Weight>>,
    statblock: StatblockView,
)
    requires
        generated(data, options, overrides, statblock),
        options.sex is None,
        statblock.ancestry->Some_0.is_asexual,
    ensures
        statblock.sex == Seq::<char>::empty(),
{
}

/// Where the distribution of an ancestry over the stages of life has a
/// positive weight, and every stage that can come up begins before it
/// ends, the age step cannot fail when it draws the stage. This holds
/// within the limits of the machine: the weights sum to no more than the
/// largest weight, and the lifespan is below the largest age.
pub proof fn lemma_ages_can_be_drawn(ancestry: AncestryView, row: int)
    requires
        ancestry.age_range_distribution.keys.len() == ancestry.age_range_distribution.weights.len(),
        0 <= row < ancestry.age_range_distribution.weights.len(),
        ancestry.age_range_distribution.weights[row] > 0,
        crate::random::total_weight(ancestry.age_range_distribution.weights) <= Weight::MAX,
        ancestry.age_ranges.lifespan < u64::MAX,
        forall|range: AgeRange| #[trigger]
            ancestry.age_range_distribution.offers(range) ==> ancestry.age_ranges.first_age(range)
                < ancestry.age_ranges.end_age(range),
    ensures
        !age_can_fail(ancestry, None),
        !age_must_fail(ancestry, None),
{
    crate::newtypes::lemma_positive_weight_is_drawable(
        ancestry.age_range_distribution.weights,
        row,
    );
    assert forall|range: AgeRange| #[trigger]
        ancestry.age_range_distribution.offers(range) implies has_ages(ancestry, range) by {
        assert(ancestry.age_ranges.end_age(range) <= u64::MAX);
    }
    assert(ancestry.age_range_distribution.offers(ancestry.age_range_distribution.keys[row]));
}

/// The age of every generated character lies in its stage of life: at or
/// above the first age of the stage and below the first age of the next,
/// and for the last stage at or below the lifespan.
pub proof fn lemma_age_lies_in_its_range(
    data: GeneratorData,
    options: NpcOptions,
    overrides: Option<Map<Seq<char>, Weight>>,
    statblock: StatblockView,
)
    requires
        generated(data, options, overrides, statblock),
    ensures
        statblock.ancestry->Some_0.age_ranges.first_age(statblock.age_range) <= statblock.age,
        statblock.age < statblock.ancestry->Some_0.age_ranges.end_age(statblock.age_range),
        statblock.age_range == AgeRange::Venerable ==> statblock.age
            <= statblock.ancestry->Some_0.age_ranges.lifespan,
        options.age_range matches Some(pinned) ==> statblock.age_range == pinned,
{
}

/// A character that is generated without an archetype has the ability
/// scores of an allocation: on a regular program they add up to the boosts
/// of the program, less its flaws, plus its free steps, plus eight; its hit
/// points are the base hit points of its ancestry plus its constitution.
pub proof fn lemma_generated_scores(
    data: GeneratorData,
    options: NpcOptions,
    overrides: Option<Map<Seq<char>, Weight>>,
    statblock: StatblockView,
)
    requires
        generated(data, options, overrides, statblock),
        options.archetype is None,
    ensures
        crate::allocation::regular(statblock.ancestry->Some_0.ability_modifications)
            ==> statblock.attributes.total() == crate::allocation::count_boosts(
            statblock.ancestry->Some_0.ability_modifications,
        ) - crate::allocation::count_flaws(statblock.ancestry->Some_0.ability_modifications)
            + crate::allocation::count_free(statblock.ancestry->Some_0.ability_modifications) + 8,
        crate::allocation::scores_within(statblock.attributes, -1, 3),
        statblock.hit_points == statblock.ancestry->Some_0.base_hp
            + statblock.attributes.constitution,
{
    let ancestry = statblock.ancestry->Some_0;
    let background = choose|background: BackgroundView|
        #[trigger] background_resolved(data, options, background) && statblock.class
            == background.name && stats_generated(
            ancestry,
            background.trainings,
            identity_of(statblock),
            mechanics_of(statblock),
        );
    crate::training::lemma_stats_generated(
        ancestry,
        background.trainings,
        identity_of(statblock),
        mechanics_of(statblock),
    );
}

} // verus!





