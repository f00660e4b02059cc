use npc_generator_core::ability::AbilityBoost;
use npc_generator_core::ability::AbilityModifications;
use npc_generator_core::errors::AbilityGenerationError;
use npc_generator_core::errors::AgeGenerationError;
use npc_generator_core::errors::AncestryGenerationError;
use npc_generator_core::errors::BackgroundGenerationError;
use npc_generator_core::errors::GenerationError;
use npc_generator_core::errors::HeritageGenerationError;
use npc_generator_core::formats::Formats;
use npc_generator_core::formats::HeritageFormats;
use npc_generator_core::generators::apply_archetype;
use npc_generator_core::generators::collect_traits;
use npc_generator_core::generators::Generator;
use npc_generator_core::generators::GeneratorData;
use npc_generator_core::generators::GeneratorScripts;
use npc_generator_core::weight_presets::WeightPreset;
use npc_generator_core::Ability;
use npc_generator_core::AbilityStats;
use npc_generator_core::AgeRange;
use npc_generator_core::AgeRanges;
use npc_generator_core::Ancestry;
use npc_generator_core::Archetype;
use npc_generator_core::Background;
use npc_generator_core::Heritage;
use npc_generator_core::MutationProbabilities;
use npc_generator_core::NamedElement;
use npc_generator_core::NpcFlavor;
use npc_generator_core::NpcOptions;
use npc_generator_core::Probability;
use npc_generator_core::Proficiency;
use npc_generator_core::Size;
use npc_generator_core::Skill;
use npc_generator_core::Statblock;
use npc_generator_core::Trait;
use npc_generator_core::ValidAncestries;
use npc_generator_core::WeightMap;
use rand::SeedableRng;
use std::sync::Arc;

fn table(rows: &[(&str, u32)]) -> WeightMap<String> {
    let mut table = WeightMap::new();
    for (key, weight) in rows {
        table.insert(key.to_string(), *weight);
    }
    table
}

fn ages() -> AgeRanges {
    AgeRanges {
        child: 2,
        youth: 12,
        adulthood: 18,
        middle_age: 40,
        old: 60,
        venerable: 80,
        lifespan: 100,
    }
}

fn every_age_range(weight: u32) -> WeightMap<AgeRange> {
    let mut distribution = WeightMap::new();
    for range in AgeRange::values() {
        distribution.insert(range, weight);
    }
    distribution
}

fn ancestry(name: &str, program: Vec<AbilityBoost>, asexual: bool) -> Ancestry {
    Ancestry::new(
        vec![Trait::new("Humanoid"), Trait::new(name)],
        name,
        AbilityModifications::new(program),
        vec![],
        vec![],
        Size::Medium,
        25,
        None,
        None,
        None,
        None,
        table(&[("pale", 1)]),
        table(&[("smooth", 1)]),
        MutationProbabilities::default(),
        None,
        ages(),
        every_age_range(1),
        None,
        asexual,
        "hair",
        "skin",
        8,
        Formats::default(),
    )
}

fn human() -> Ancestry {
    ancestry("Human", vec![AbilityBoost::Free, AbilityBoost::Free], false)
}

fn heritage(name: &str) -> Heritage {
    Heritage::new(
        vec![Trait::new(name)],
        name,
        None,
        ValidAncestries::Any,
        WeightMap::new(),
        WeightMap::new(),
        None,
        None,
        HeritageFormats::default(),
    )
}

fn data() -> GeneratorData {
    let mut data = GeneratorData::default();
    data.ancestries.insert(human(), 3);
    data.ancestries.insert(ancestry("Elf", vec![AbilityBoost::Boost(Ability::Dexterity)], false), 1);
    data.ancestries.insert(ancestry("Ghost", vec![], false), 0);
    data.normal_heritage_weight = Probability::new(1, 2);
    data.versitile_heritages.insert(heritage("Changeling"), 1);
    data.versitile_heritages.insert(heritage("Unseen"), 0);
    data.backgrounds.insert(Background::new("Farmer", vec![], vec![Skill::Nature]), 1);
    data.backgrounds.insert(Background::new("Scribe", vec![], vec![Skill::Society]), 0);
    data
}

fn generator_with(data: GeneratorData, seed: u64) -> Generator {
    Generator::new(
        rand::rngs::StdRng::seed_from_u64(seed),
        Arc::new(data),
        Arc::new(GeneratorScripts { default_format_flavor_description_line_script: String::new() }),
    )
    .unwrap()
}

fn archetype() -> Archetype {
    Archetype::new(
        "Guard",
        None,
        7,
        vec![],
        vec![(Skill::Athletics, 8), (Skill::Intimidation, 5)],
        AbilityStats {
            strength: 4,
            dexterity: 2,
            constitution: 3,
            intelligence: 0,
            wisdom: 1,
            charisma: -1,
        },
        vec!["halberd".to_string(), "whistle".to_string()],
        18,
        9,
        6,
        5,
        30,
        20,
        vec!["Strike".to_string()],
        3,
    )
}

#[test]
fn generated_characters_come_from_the_tables() {
    let mut seen_heritage = false;
    let mut seen_normal = false;
    for seed in 0..60 {
        let mut generator = generator_with(data(), seed);
        let statblock = generator.generate(&NpcOptions::default(), None).unwrap();
        let ancestry = statblock.ancestry().unwrap();
        assert!(ancestry.name() == "Human" || ancestry.name() == "Elf");
        match statblock.heritage() {
            Some(heritage) => {
                assert_eq!(heritage.name(), "Changeling");
                seen_heritage = true;
            }
            None => seen_normal = true,
        }
        assert!(statblock.class() == "Farmer" || statblock.class() == "Scribe");
        assert!(statblock.sex() == "male" || statblock.sex() == "female");
        assert_eq!(statblock.name(), "");
        assert_eq!(*statblock.flavor(), NpcFlavor::default());
        assert_eq!(statblock.level(), 0);
        assert_eq!(statblock.land_speed(), 25);
    }
    assert!(seen_heritage && seen_normal);
}

#[test]
fn ages_lie_in_their_ranges() {
    let ranges = ages();
    for seed in 0..80 {
        let mut generator = generator_with(data(), seed);
        let statblock = generator.generate(&NpcOptions::default(), None).unwrap();
        let interval = ranges.get(&statblock.age_range());
        assert!(interval.contains(&statblock.age()));
    }
    assert_eq!(ranges.get(&AgeRange::Infant), 0..2);
    assert_eq!(ranges.get(&AgeRange::Child), 2..12);
    assert_eq!(ranges.get(&AgeRange::Youth), 12..18);
    assert_eq!(ranges.get(&AgeRange::Adult), 18..40);
    assert_eq!(ranges.get(&AgeRange::MiddleAged), 40..60);
    assert_eq!(ranges.get(&AgeRange::Old), 60..80);
    assert_eq!(ranges.get(&AgeRange::Venerable), 80..101);
    assert_eq!(ranges.checked_get(&AgeRange::Venerable), Some(80..101));
    let endless = AgeRanges { lifespan: u64::MAX, ..ranges };
    assert_eq!(endless.checked_get(&AgeRange::Venerable), None);
    assert_eq!(endless.checked_get(&AgeRange::Old), Some(60..80));
}

#[test]
fn the_lifespan_is_an_age_of_the_venerable() {
    let mut human = ancestry("Human", vec![], false);
    human = Ancestry::new(
        vec![],
        "Human",
        AbilityModifications::new(vec![]),
        vec![],
        vec![],
        human.size(),
        human.speed(),
        None,
        None,
        None,
        None,
        table(&[("pale", 1)]),
        table(&[("smooth", 1)]),
        MutationProbabilities::default(),
        None,
        AgeRanges { venerable: 100, lifespan: 100, ..ages() },
        every_age_range(1),
        None,
        false,
        "hair",
        "skin",
        8,
        Formats::default(),
    );
    let options = NpcOptions {
        ancestry: Some(human),
        age_range: Some(AgeRange::Venerable),
        ..NpcOptions::default()
    };
    let mut generator = generator_with(data(), 5);
    let statblock = generator.generate(&options, None).unwrap();
    assert_eq!(statblock.age_range(), AgeRange::Venerable);
    assert_eq!(statblock.age(), 100);
}

#[test]
fn pinned_choices_are_taken_as_they_are() {
    let options = NpcOptions {
        ancestry: Some(ancestry("Gnome", vec![], false)),
        heritage: Some(Some(heritage("Aasimar"))),
        background: Some(Background::new("Sailor", vec![], vec![])),
        archetype: None,
        age_range: Some(AgeRange::Old),
        sex: Some("other".to_string()),
        enable_flavor_text: false,
    };
    for seed in 0..20 {
        let mut generator = generator_with(data(), seed);
        let statblock = generator.generate(&options, None).unwrap();
        assert_eq!(statblock.ancestry().unwrap().name(), "Gnome");
        assert_eq!(statblock.heritage().unwrap().name(), "Aasimar");
        assert_eq!(statblock.class(), "Sailor");
        assert_eq!(statblock.age_range(), AgeRange::Old);
        assert!((60..80).contains(&statblock.age()));
        assert_eq!(statblock.sex(), "other");
        let mut labels: Vec<String> = statblock.traits().iter().map(|t| t.to_string()).collect();
        labels.sort();
        assert_eq!(labels, vec!["Aasimar", "Gnome", "Humanoid", "Medium"]);
    }
    let no_heritage = NpcOptions { heritage: Some(None), ..NpcOptions::default() };
    for seed in 0..20 {
        let mut generator = generator_with(data(), seed);
        assert!(generator.generate(&no_heritage, None).unwrap().heritage().is_none());
    }
}

#[test]
fn traits_are_collected_once_each() {
    let elf = Ancestry::new(
        vec![Trait::new("Elf"), Trait::new("Humanoid"), Trait::new("Elf"), Trait::new("Medium")],
        "Elf",
        AbilityModifications::new(vec![]),
        vec![],
        vec![],
        Size::Medium,
        30,
        None,
        None,
        None,
        None,
        WeightMap::new(),
        WeightMap::new(),
        MutationProbabilities::default(),
        None,
        ages(),
        every_age_range(1),
        None,
        false,
        "hair",
        "skin",
        6,
        Formats::default(),
    );
    let shared = Heritage::new(
        vec![Trait::new("Humanoid"), Trait::new("Changeling")],
        "Changeling",
        None,
        ValidAncestries::Any,
        WeightMap::new(),
        WeightMap::new(),
        None,
        None,
        HeritageFormats::default(),
    );
    let labels: Vec<String> =
        collect_traits(&elf, Some(&shared)).iter().map(|t| t.to_string()).collect();
    assert_eq!(labels, vec!["Elf", "Humanoid", "Medium", "Changeling"]);
    let alone: Vec<String> = collect_traits(&elf, None).iter().map(|t| t.to_string()).collect();
    assert_eq!(alone, vec!["Elf", "Humanoid", "Medium"]);
}

#[test]
fn a_certain_normal_heritage_never_gives_a_heritage() {
    for seed in 0..200 {
        let mut data = data();
        data.normal_heritage_weight = Probability::new(1, 1);
        let mut generator = generator_with(data, seed);
        let statblock = generator.generate(&NpcOptions::default(), None).unwrap();
        assert!(statblock.heritage().is_none());
    }
    for seed in 0..50 {
        let mut data = data();
        data.normal_heritage_weight = Probability::new(0, 7);
        let mut generator = generator_with(data, seed);
        let statblock = generator.generate(&NpcOptions::default(), None).unwrap();
        assert_eq!(statblock.heritage().unwrap().name(), "Changeling");
    }
}

#[test]
fn an_asexual_ancestry_has_no_sex_unless_it_is_pinned() {
    for seed in 0..30 {
        let options = NpcOptions {
            ancestry: Some(ancestry("Ooze", vec![], true)),
            ..NpcOptions::default()
        };
        let mut generator = generator_with(data(), seed);
        assert_eq!(generator.generate(&options, None).unwrap().sex(), "");
        let pinned = NpcOptions {
            ancestry: Some(ancestry("Ooze", vec![], true)),
            sex: Some("female".to_string()),
            ..NpcOptions::default()
        };
        assert_eq!(generator.generate(&pinned, None).unwrap().sex(), "female");
    }
}

#[test]
fn a_human_farmhand_has_the_numbers_of_its_scores() {
    for seed in 0..40 {
        let options = NpcOptions {
            ancestry: Some(Ancestry::new(
                vec![],
                "Human",
                AbilityModifications::new(vec![AbilityBoost::Free, AbilityBoost::Free]),
                vec![],
                vec![],
                Size::Medium,
                25,
                None,
                None,
                None,
                None,
                WeightMap::new(),
                WeightMap::new(),
                MutationProbabilities::default(),
                None,
                ages(),
                every_age_range(1),
                None,
                false,
                "hair",
                "skin",
                8,
                Formats::default(),
            )),
            background: Some(Background::new("Drifter", vec![], vec![])),
            ..NpcOptions::default()
        };
        let mut generator = generator_with(data(), seed);
        let statblock = generator.generate(&options, None).unwrap();
        let scores = *statblock.attributes();
        assert_eq!(statblock.hit_points(), 8 + scores.constitution as i32);
        assert_eq!(statblock.skills().len(), (2 + scores.intelligence) as usize);
        for (skill, modifier) in statblock.skills() {
            assert!(!matches!(skill, Skill::Lore(_)));
            let score = scores.get_ability(skill.ability());
            assert_eq!(*modifier, score as i16 + Proficiency::Trained.bonus_for_level(0) as i16);
            assert_eq!(*modifier, score as i16 + 2);
        }
        let mut names: Vec<String> = statblock.skills().iter().map(|s| s.0.to_string()).collect();
        names.sort();
        names.dedup();
        assert_eq!(names.len(), statblock.skills().len());
        let total: i32 = [
            scores.strength,
            scores.dexterity,
            scores.constitution,
            scores.intelligence,
            scores.wisdom,
            scores.charisma,
        ]
        .iter()
        .map(|score| *score as i32)
        .sum();
        assert_eq!(total, 2 + 8);
        assert_eq!(statblock.perception(), scores.wisdom as i16 + 2);
        assert_eq!(statblock.fortitude_save(), scores.constitution as i16 + 2);
        assert_eq!(statblock.reflex_save(), scores.dexterity as i16 + 2);
        assert_eq!(statblock.will_save(), scores.wisdom as i16 + 2);
        assert_eq!(statblock.armor_class(), scores.dexterity as i16 + 2);
        assert_eq!(statblock.land_speed(), 25);
        let trained = statblock.proficiencies();
        assert_eq!(trained.perception, Proficiency::Trained);
        assert_eq!(trained.fortitude_save, Proficiency::Trained);
        assert_eq!(trained.reflex_save, Proficiency::Trained);
        assert_eq!(trained.will_save, Proficiency::Trained);
        assert_eq!(trained.unarmed, Proficiency::Trained);
        assert_eq!(trained.unarmored_defense, Proficiency::Trained);
        assert_eq!(trained.simple_weapons, Proficiency::Untrained);
        assert_eq!(trained.heavy_armor, Proficiency::Untrained);
        assert_eq!(trained.skills.len(), statblock.skills().len());
    }
}

#[test]
fn the_skills_of_the_background_come_first_and_are_not_drawn_again() {
    for seed in 0..40 {
        let options = NpcOptions {
            ancestry: Some(human()),
            background: Some(Background::new(
                "Scout",
                vec![],
                vec![Skill::Survival, Skill::Lore("Forest".to_string()), Skill::Survival],
            )),
            ..NpcOptions::default()
        };
        let mut generator = generator_with(data(), seed);
        let statblock = generator.generate(&options, None).unwrap();
        let scores = *statblock.attributes();
        let skills = statblock.skills();
        assert_eq!(skills.len(), 2 + (2 + scores.intelligence) as usize);
        assert_eq!(skills[0].0, Skill::Survival);
        assert_eq!(skills[0].1, scores.wisdom as i16 + 2);
        assert_eq!(skills[1].0, Skill::Lore("Forest".to_string()));
        assert_eq!(skills[1].1, scores.intelligence as i16 + 2);
        for (skill, _) in &skills[2..] {
            assert!(*skill != Skill::Survival);
            assert!(!matches!(skill, Skill::Lore(_)));
        }
    }
}

#[test]
fn an_archetype_gives_its_statistics_whatever_the_random_source() {
    let options = NpcOptions {
        ancestry: Some(human()),
        heritage: Some(None),
        background: Some(Background::new("Farmer", vec![], vec![Skill::Nature])),
        archetype: Some(archetype()),
        age_range: Some(AgeRange::Adult),
        sex: Some("male".to_string()),
        enable_flavor_text: false,
    };
    let mut first = generator_with(data(), 1);
    let mut second = generator_with(data(), 999);
    let one = first.generate(&options, None).unwrap();
    let two = second.generate(&options, None).unwrap();
    for statblock in [&one, &two] {
        assert_eq!(statblock.class(), "Guard");
        assert_eq!(statblock.level(), 3);
        assert_eq!(statblock.perception(), 7);
        assert_eq!(statblock.skills(), [(Skill::Athletics, 8), (Skill::Intimidation, 5)]);
        assert_eq!(statblock.attributes().strength, 4);
        assert_eq!(statblock.attributes().charisma, -1);
        assert_eq!(statblock.items(), ["halberd".to_string(), "whistle".to_string()]);
        assert_eq!(statblock.armor_class(), 18);
        assert_eq!(statblock.fortitude_save(), 9);
        assert_eq!(statblock.reflex_save(), 6);
        assert_eq!(statblock.will_save(), 5);
        assert_eq!(statblock.hit_points(), 30);
        assert_eq!(statblock.land_speed(), 20);
        assert_eq!(statblock.sex(), "male");
        assert_eq!(statblock.age_range(), AgeRange::Adult);
    }
    assert_eq!(one.skills(), two.skills());
    assert_eq!(one.attributes(), two.attributes());
    assert_eq!(one.proficiencies(), two.proficiencies());
    assert_eq!(one.traits(), two.traits());
}

#[test]
fn an_archetype_needs_no_background() {
    let mut data = data();
    data.backgrounds = WeightMap::new();
    let options = NpcOptions { archetype: Some(archetype()), ..NpcOptions::default() };
    let mut generator = generator_with(data, 4);
    assert_eq!(generator.generate(&options, None).unwrap().class(), "Guard");
}

#[test]
fn a_preset_replaces_the_weights_of_the_ancestries_it_names() {
    let preset = Arc::new(WeightPreset::new(
        "ghosts only",
        Some(table(&[("Human", 0), ("Elf", 0), ("Ghost", 4)])),
        None,
    ));
    assert_eq!(preset.name(), "ghosts only");
    assert_eq!(preset.ancestry_weights().len(), 3);
    assert!(preset.heritage_weights().is_empty());
    for seed in 0..40 {
        let mut generator = generator_with(data(), seed);
        let statblock = generator.generate(&NpcOptions::default(), Some(preset.clone())).unwrap();
        assert_eq!(statblock.ancestry().unwrap().name(), "Ghost");
    }
    let partial = Arc::new(WeightPreset::new("no humans", Some(table(&[("Human", 0)])), None));
    for seed in 0..40 {
        let mut generator = generator_with(data(), seed);
        let statblock = generator.generate(&NpcOptions::default(), Some(partial.clone())).unwrap();
        assert_eq!(statblock.ancestry().unwrap().name(), "Elf");
    }
    let nothing = Arc::new(WeightPreset::new(
        "nobody",
        Some(table(&[("Human", 0), ("Elf", 0)])),
        None,
    ));
    let mut generator = generator_with(data(), 0);
    assert_eq!(
        generator.generate(&NpcOptions::default(), Some(nothing)).unwrap_err(),
        GenerationError::AncestryGenerationError(AncestryGenerationError)
    );
}

#[test]
fn each_step_fails_with_its_own_error() {
    let mut no_ancestries = data();
    no_ancestries.ancestries = WeightMap::new();
    assert_eq!(
        generator_with(no_ancestries, 1).generate(&NpcOptions::default(), None).unwrap_err(),
        GenerationError::AncestryGenerationError(AncestryGenerationError)
    );

    let mut nothing_at_all = GeneratorData::default();
    nothing_at_all.normal_heritage_weight = Probability::new(3, 2);
    assert_eq!(
        generator_with(nothing_at_all, 1).generate(&NpcOptions::default(), None).unwrap_err(),
        GenerationError::AncestryGenerationError(AncestryGenerationError)
    );
    let mut zero_weights = data();
    zero_weights.backgrounds = WeightMap::new();
    zero_weights.normal_heritage_weight = Probability::new(0, 0);
    let nobody = Arc::new(WeightPreset::new(
        "nobody",
        Some(table(&[("Human", 0), ("Elf", 0)])),
        None,
    ));
    assert_eq!(
        generator_with(zero_weights, 1).generate(&NpcOptions::default(), Some(nobody)).unwrap_err(),
        GenerationError::AncestryGenerationError(AncestryGenerationError)
    );
    let mut no_heritage_no_background = data();
    no_heritage_no_background.backgrounds = WeightMap::new();
    no_heritage_no_background.normal_heritage_weight = Probability::new(2, 1);
    assert_eq!(
        generator_with(no_heritage_no_background, 1)
            .generate(&NpcOptions::default(), None)
            .unwrap_err(),
        GenerationError::HeritageGenerationError(HeritageGenerationError)
    );

    let mut bad_chance = data();
    bad_chance.normal_heritage_weight = Probability::new(3, 2);
    assert_eq!(
        generator_with(bad_chance, 1).generate(&NpcOptions::default(), None).unwrap_err(),
        GenerationError::HeritageGenerationError(HeritageGenerationError)
    );
    let mut no_denominator = data();
    no_denominator.normal_heritage_weight = Probability::new(0, 0);
    assert_eq!(
        generator_with(no_denominator, 1).generate(&NpcOptions::default(), None).unwrap_err(),
        GenerationError::HeritageGenerationError(HeritageGenerationError)
    );
    let mut no_heritages = data();
    no_heritages.normal_heritage_weight = Probability::never();
    no_heritages.versitile_heritages = WeightMap::new();
    assert_eq!(
        generator_with(no_heritages, 1).generate(&NpcOptions::default(), None).unwrap_err(),
        GenerationError::HeritageGenerationError(HeritageGenerationError)
    );

    let mut no_backgrounds = data();
    no_backgrounds.backgrounds = WeightMap::new();
    assert_eq!(
        generator_with(no_backgrounds, 1).generate(&NpcOptions::default(), None).unwrap_err(),
        GenerationError::BackgroundGenerationError(BackgroundGenerationError)
    );

    let ageless = Ancestry::new(
        vec![],
        "Ageless",
        AbilityModifications::new(vec![]),
        vec![],
        vec![],
        Size::Small,
        20,
        None,
        None,
        None,
        None,
        WeightMap::new(),
        WeightMap::new(),
        MutationProbabilities::default(),
        None,
        AgeRanges { youth: 2, ..ages() },
        WeightMap::new(),
        None,
        false,
        "hair",
        "skin",
        6,
        Formats::default(),
    );
    let undrawn = NpcOptions { ancestry: Some(ageless.clone()), ..NpcOptions::default() };
    assert_eq!(
        generator_with(data(), 1).generate(&undrawn, None).unwrap_err(),
        GenerationError::AgeGenerationError(AgeGenerationError)
    );
    let empty_range = NpcOptions {
        ancestry: Some(ageless),
        age_range: Some(AgeRange::Child),
        ..NpcOptions::default()
    };
    assert_eq!(
        generator_with(data(), 1).generate(&empty_range, None).unwrap_err(),
        GenerationError::AgeGenerationError(AgeGenerationError)
    );

    let overfull = NpcOptions {
        ancestry: Some(ancestry(
            "Overfull",
            vec![
                AbilityBoost::Boost(Ability::Strength),
                AbilityBoost::Boost(Ability::Dexterity),
                AbilityBoost::Boost(Ability::Constitution),
                AbilityBoost::Flaw(Ability::Intelligence),
                AbilityBoost::Flaw(Ability::Wisdom),
                AbilityBoost::Boost(Ability::Charisma),
                AbilityBoost::Free,
            ],
            false,
        )),
        ..NpcOptions::default()
    };
    assert_eq!(
        generator_with(data(), 1).generate(&overfull, None).unwrap_err(),
        GenerationError::AbilityGenerationError(AbilityGenerationError)
    );
}

#[test]
fn an_archetype_overwrites_the_statistics_only() {
    let mut statblock = Statblock::default();
    statblock.set_name("Bo");
    statblock.set_age(33);
    statblock.set_class("Farmer");
    apply_archetype(&mut statblock, &archetype());
    assert_eq!(statblock.name(), "Bo");
    assert_eq!(statblock.age(), 33);
    assert_eq!(statblock.class(), "Farmer");
    assert_eq!(statblock.level(), 3);
    assert_eq!(statblock.perception(), 7);
    assert_eq!(statblock.hit_points(), 30);
    assert_eq!(statblock.land_speed(), 20);
    assert_eq!(statblock.items(), ["halberd".to_string(), "whistle".to_string()]);
    assert_eq!(archetype().actions(), ["Strike".to_string()]);
    assert_eq!(archetype().prd_reference(), None);
    assert!(archetype().languages().is_empty());
    assert!(archetype() == archetype());
}

#[test]
fn the_identity_is_resolved_before_name_and_statistics() {
    let generator = generator_with(data(), 21);
    let options = NpcOptions { sex: Some("male".to_string()), ..NpcOptions::default() };
    let mut rng = rand::rngs::StdRng::seed_from_u64(4);
    let identity = generator.resolve_identity(&mut rng, &options, None).unwrap();
    assert!(identity.ancestry.name() == "Human" || identity.ancestry.name() == "Elf");
    assert_eq!(identity.sex, "male");
    assert!(identity.background.is_some());
    assert!(ages().get(&identity.age_range).contains(&identity.age));
    let with_archetype = NpcOptions { archetype: Some(archetype()), ..NpcOptions::default() };
    let identity = generator.resolve_identity(&mut rng, &with_archetype, None).unwrap();
    assert!(identity.background.is_none());
    let copy = every_age_range(2).copied();
    assert_eq!(copy.values(), vec![2; 7]);
    assert_eq!(copy.keys().len(), 7);
}

#[test]
fn pinning_a_decision_leaves_the_later_draws_as_they_are() {
    for seed in 0..40 {
        let open = NpcOptions { ancestry: Some(human()), ..NpcOptions::default() };
        let pinned_sex = NpcOptions {
            ancestry: Some(human()),
            sex: Some("other".to_string()),
            ..NpcOptions::default()
        };
        let asexual = NpcOptions {
            ancestry: Some(ancestry(
                "Human",
                vec![AbilityBoost::Free, AbilityBoost::Free],
                true,
            )),
            ..NpcOptions::default()
        };
        let drawn = generator_with(data(), seed).generate(&open, None).unwrap();
        for options in [&pinned_sex, &asexual] {
            let other = generator_with(data(), seed).generate(options, None).unwrap();
            assert_eq!(other.age_range(), drawn.age_range());
            assert_eq!(other.age(), drawn.age());
            assert_eq!(other.attributes(), drawn.attributes());
            assert_eq!(other.skills(), drawn.skills());
            assert_eq!(other.class(), drawn.class());
        }
        let pinned_heritage = NpcOptions {
            ancestry: Some(human()),
            heritage: Some(None),
            ..NpcOptions::default()
        };
        let other = generator_with(data(), seed).generate(&pinned_heritage, None).unwrap();
        assert_eq!(other.sex(), drawn.sex());
        assert_eq!(other.age(), drawn.age());
        assert_eq!(other.attributes(), drawn.attributes());
    }
}

#[test]
fn the_default_archetype_is_blank() {
    let blank = Archetype::default();
    assert_eq!(blank.name(), "");
    assert_eq!(blank.prd_reference(), None);
    assert_eq!(blank.perception(), 0);
    assert!(blank.languages().is_empty());
    assert!(blank.skills().is_empty());
    assert_eq!(*blank.attributes(), AbilityStats::default());
    assert!(blank.items_iter().is_empty());
    assert_eq!(blank.armor_class(), 0);
    assert_eq!(blank.fortitude_save(), 0);
    assert_eq!(blank.reflex_save(), 0);
    assert_eq!(blank.will_save(), 0);
    assert_eq!(blank.hp(), 0);
    assert_eq!(blank.speed(), 0);
    assert!(blank.actions().is_empty());
    assert_eq!(blank.level(), 0);
}
