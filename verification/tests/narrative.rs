use npc_generator_core::ability::AbilityModifications;
use npc_generator_core::errors::EyeGenerationError;
use npc_generator_core::errors::FlavorGenerationError;
use npc_generator_core::errors::FlavorLineGenerationError;
use npc_generator_core::errors::GenerationError;
use npc_generator_core::errors::HairGenerationError;
use npc_generator_core::errors::NameGenerationError;
use npc_generator_core::errors::SkinGenerationError;
use npc_generator_core::flavor::generate_flavor_description_line;
use npc_generator_core::flavor::generate_flavor_eyes;
use npc_generator_core::flavor::generate_flavor_face_line;
use npc_generator_core::flavor::generate_flavor_habit_line;
use npc_generator_core::flavor::generate_flavor_hair_and_eyes_line;
use npc_generator_core::flavor::generate_flavor_hairs;
use npc_generator_core::flavor::generate_flavor_skin_line;
use npc_generator_core::flavor::generate_lineage_line;
use npc_generator_core::flavor::generate_size_and_build;
use npc_generator_core::flavor::join_hair_and_eyes;
use npc_generator_core::flavor::write_eyes;
use npc_generator_core::flavor::write_hair;
use npc_generator_core::flavor::write_skin;
use npc_generator_core::formats::FormatString;
use npc_generator_core::formats::Formats;
use npc_generator_core::formats::HeritageFormats;
use npc_generator_core::generators::describe;
use npc_generator_core::generators::finish_flavor;
use npc_generator_core::generators::generate_flavor;
use npc_generator_core::generators::generate_name;
use npc_generator_core::generators::Generator;
use npc_generator_core::generators::GeneratorData;
use npc_generator_core::generators::GeneratorScripts;
use npc_generator_core::generators::SexNames;
use npc_generator_core::generators::TraitNames;
use npc_generator_core::AgeRange;
use npc_generator_core::AgeRanges;
use npc_generator_core::Ancestry;
use npc_generator_core::Background;
use npc_generator_core::Heritage;
use npc_generator_core::Mutation;
use npc_generator_core::MutationChance;
use npc_generator_core::MutationProbabilities;
use npc_generator_core::NamedElement;
use npc_generator_core::NpcOptions;
use npc_generator_core::Probability;
use npc_generator_core::Size;
use npc_generator_core::Statblock;
use npc_generator_core::Trait;
use npc_generator_core::ValidAncestries;
use npc_generator_core::WeightMap;
use rand::SeedableRng;
use std::sync::Arc;

fn table(rows: &[(&str, u32)]) -> WeightMap<String> {
    let mut table = WeightMap::new();
    for (key, weight) in rows {
        table.insert(key.to_string(), *weight);
    }
    table
}

struct Looks {
    eyes: Option<WeightMap<String>>,
    hair_colors: Option<WeightMap<String>>,
    hair_length: Option<WeightMap<String>>,
    hair_type: Option<WeightMap<String>>,
    skin_tone: WeightMap<String>,
    skin_texture: WeightMap<String>,
    heterochromia: Option<Probability>,
    surnames: Option<WeightMap<String>>,
    size: Size,
    full_name: Formats,
}

fn looks() -> Looks {
    Looks {
        eyes: Some(table(&[("blue", 1), ("grey", 0)])),
        hair_colors: Some(table(&[("black", 1)])),
        hair_length: Some(table(&[("long", 1)])),
        hair_type: Some(table(&[("curly", 1)])),
        skin_tone: table(&[("olive", 1)]),
        skin_texture: table(&[("weathered", 1)]),
        heterochromia: Some(Probability::never()),
        surnames: None,
        size: Size::Medium,
        full_name: Formats::default(),
    }
}

fn ancestry(looks: Looks) -> Ancestry {
    let chances = match looks.heterochromia {
        Some(chance) => vec![MutationChance { mutation: Mutation::Heterochromia, chance }],
        None => vec![],
    };
    let mut distribution = WeightMap::new();
    distribution.insert(AgeRange::Adult, 1);
    Ancestry::new(
        vec![Trait::new("Human")],
        "Human",
        AbilityModifications::new(vec![]),
        vec![],
        vec![],
        looks.size,
        25,
        looks.eyes,
        looks.hair_colors,
        looks.hair_length,
        looks.hair_type,
        looks.skin_tone,
        looks.skin_texture,
        MutationProbabilities { chances },
        looks.surnames,
        AgeRanges {
            child: 2,
            youth: 12,
            adulthood: 18,
            middle_age: 40,
            old: 60,
            venerable: 80,
            lifespan: 100,
        },
        distribution,
        None,
        false,
        "fur",
        "hide",
        8,
        looks.full_name,
    )
}

fn heritage(lineage: Option<&str>, eyes: &[(&str, u32)], forced: Option<&str>) -> Heritage {
    Heritage::new(
        vec![Trait::new("Changeling")],
        "Changeling",
        lineage.map(|l| l.to_string()),
        ValidAncestries::Any,
        table(eyes),
        WeightMap::new(),
        forced.map(|c| c.to_string()),
        None,
        HeritageFormats::default(),
    )
}

fn names() -> Vec<TraitNames> {
    vec![TraitNames {
        name_trait: Trait::new("Human"),
        names: vec![
            SexNames { sex: "female".to_string(), names: table(&[("Ada", 1), ("Zed", 0)]) },
            SexNames { sex: "male".to_string(), names: table(&[("Bo", 1)]) },
            SexNames { sex: "nameless".to_string(), names: WeightMap::new() },
        ],
    }]
}

#[test]
fn fixed_lines_are_fixed() {
    assert_eq!(generate_flavor_face_line(), "They have a face.");
    assert_eq!(generate_flavor_habit_line(), "They have habits.");
    for (size, bulk) in [
        (Size::Tiny, "1"),
        (Size::Small, "3"),
        (Size::Medium, "6"),
        (Size::Large, "12"),
        (Size::Huge, "24"),
        (Size::Garganutan, "48"),
    ] {
        let line = generate_size_and_build(&ancestry(Looks { size, ..looks() }));
        assert_eq!(line, format!("They have a bulk of {}.", bulk));
    }
    assert_eq!(Size::Garganutan.to_string(), "Gargantuan");
    assert_eq!(Size::Tiny.to_string(), "Tiny");
    assert_eq!(join_hair_and_eyes("no hair", "no eyes"), "They have no hair and no eyes.");
}

#[test]
fn hair_is_drawn_from_its_three_tables() {
    let mut rng = rand::rngs::StdRng::seed_from_u64(1);
    assert_eq!(generate_flavor_hairs(&mut rng, &ancestry(looks())).unwrap(), "long, curly, black fur");
    let bald = ancestry(Looks {
        hair_colors: None,
        hair_type: None,
        hair_length: None,
        ..looks()
    });
    assert_eq!(generate_flavor_hairs(&mut rng, &bald).unwrap(), "no hair");
    let no_type_table = ancestry(Looks { hair_type: None, ..looks() });
    assert_eq!(
        generate_flavor_hairs(&mut rng, &no_type_table),
        Err(HairGenerationError::from("type"))
    );
    let only_lengths = ancestry(Looks { hair_colors: None, hair_type: None, ..looks() });
    assert_eq!(
        generate_flavor_hairs(&mut rng, &only_lengths),
        Err(HairGenerationError::from("color"))
    );
    let no_length_table = ancestry(Looks { hair_length: None, ..looks() });
    assert_eq!(
        generate_flavor_hairs(&mut rng, &no_length_table),
        Err(HairGenerationError::from("length"))
    );
    let undrawable_first = ancestry(Looks {
        hair_colors: Some(WeightMap::new()),
        hair_type: None,
        ..looks()
    });
    assert_eq!(
        generate_flavor_hairs(&mut rng, &undrawable_first),
        Err(HairGenerationError::from("color"))
    );
    let no_color = ancestry(Looks { hair_colors: Some(table(&[("black", 0)])), ..looks() });
    assert_eq!(
        generate_flavor_hairs(&mut rng, &no_color),
        Err(HairGenerationError { message: "color".to_string() })
    );
    let no_type = ancestry(Looks { hair_type: Some(WeightMap::new()), ..looks() });
    assert_eq!(generate_flavor_hairs(&mut rng, &no_type), Err(HairGenerationError::from("type")));
    let no_length = ancestry(Looks { hair_length: Some(WeightMap::new()), ..looks() });
    let error = generate_flavor_hairs(&mut rng, &no_length).unwrap_err();
    assert_eq!(error.message, "length");
    assert_eq!(error.to_string(), "unable to generate hair length");
}

#[test]
fn eyes_are_of_one_color_without_heterochromia() {
    for seed in 0..30 {
        let mut rng = rand::rngs::StdRng::seed_from_u64(seed);
        assert_eq!(generate_flavor_eyes(&mut rng, &ancestry(looks()), None).unwrap(), "blue eyes");
    }
    let mut rng = rand::rngs::StdRng::seed_from_u64(1);
    let eyeless = ancestry(Looks { eyes: None, ..looks() });
    assert_eq!(generate_flavor_eyes(&mut rng, &eyeless, None).unwrap(), "no eyes");
    let more = heritage(None, &[("blue", 0), ("violet", 0)], None);
    assert_eq!(generate_flavor_eyes(&mut rng, &ancestry(looks()), Some(&more)).unwrap(), "blue eyes");
}

#[test]
fn eyes_differ_with_heterochromia() {
    let two = Looks {
        eyes: Some(table(&[("blue", 1), ("green", 1)])),
        heterochromia: Some(Probability::always()),
        ..looks()
    };
    let two = ancestry(two);
    let mut seen = std::collections::BTreeSet::new();
    for seed in 0..100 {
        let mut rng = rand::rngs::StdRng::seed_from_u64(seed);
        seen.insert(generate_flavor_eyes(&mut rng, &two, None).unwrap());
    }
    let expected: std::collections::BTreeSet<String> = [
        "heterochromatic eyes.\nTheir left eye is blue and their right eye is green",
        "heterochromatic eyes.\nTheir left eye is green and their right eye is blue",
    ]
    .iter()
    .map(|text| text.to_string())
    .collect();
    assert_eq!(seen, expected);

    let forced = heritage(None, &[], Some("red"));
    let mut seen = std::collections::BTreeSet::new();
    for seed in 0..100 {
        let mut rng = rand::rngs::StdRng::seed_from_u64(seed);
        seen.insert(generate_flavor_eyes(&mut rng, &ancestry(looks()), Some(&forced)).unwrap());
    }
    let expected: std::collections::BTreeSet<String> = [
        "heterochromatic eyes.\nTheir left eye is blue and their right eye is red",
        "heterochromatic eyes.\nTheir left eye is red and their right eye is blue",
    ]
    .iter()
    .map(|text| text.to_string())
    .collect();
    assert_eq!(seen, expected);
}

#[test]
fn eyes_fail_without_colors_chance_or_second_color() {
    let mut rng = rand::rngs::StdRng::seed_from_u64(1);
    let undrawable = ancestry(Looks { eyes: Some(table(&[("blue", 0)])), ..looks() });
    assert_eq!(generate_flavor_eyes(&mut rng, &undrawable, None), Err(EyeGenerationError));
    let no_chance = ancestry(Looks { heterochromia: None, ..looks() });
    assert_eq!(generate_flavor_eyes(&mut rng, &no_chance, None), Err(EyeGenerationError));
    let bad_chance = ancestry(Looks { heterochromia: Some(Probability::new(2, 1)), ..looks() });
    assert_eq!(generate_flavor_eyes(&mut rng, &bad_chance, None), Err(EyeGenerationError));
    let lone = ancestry(Looks { heterochromia: Some(Probability::always()), ..looks() });
    assert_eq!(generate_flavor_eyes(&mut rng, &lone, None), Err(EyeGenerationError));
    let lone_without_chance = ancestry(Looks {
        eyes: Some(table(&[("blue", 3)])),
        heterochromia: Some(Probability::new(0, 5)),
        ..looks()
    });
    for seed in 0..20 {
        let mut rng = rand::rngs::StdRng::seed_from_u64(seed);
        assert_eq!(
            generate_flavor_eyes(&mut rng, &lone_without_chance, None).unwrap(),
            "blue eyes"
        );
    }
    let forced_elsewhere = heritage(None, &[], Some("red"));
    for seed in 0..20 {
        let mut rng = rand::rngs::StdRng::seed_from_u64(seed);
        assert!(generate_flavor_eyes(&mut rng, &lone_without_chance, Some(&forced_elsewhere))
            .unwrap()
            .starts_with("heterochromatic eyes."));
    }
    let forced_same = heritage(None, &[], Some("blue"));
    assert_eq!(
        generate_flavor_eyes(&mut rng, &ancestry(looks()), Some(&forced_same)),
        Err(EyeGenerationError)
    );
    let second = heritage(None, &[("green", 1), ("blue", 1000)], Some("blue"));
    for seed in 0..20 {
        let mut rng = rand::rngs::StdRng::seed_from_u64(seed);
        let text = generate_flavor_eyes(&mut rng, &ancestry(looks()), Some(&second)).unwrap();
        assert!(text.contains("green") && text.contains("blue"));
    }
}

#[test]
fn hair_and_eyes_share_a_sentence() {
    let mut rng = rand::rngs::StdRng::seed_from_u64(1);
    assert_eq!(
        generate_flavor_hair_and_eyes_line(&mut rng, &ancestry(looks()), None).unwrap(),
        "They have long, curly, black fur and blue eyes."
    );
    let no_type = ancestry(Looks { hair_type: Some(WeightMap::new()), ..looks() });
    assert_eq!(
        generate_flavor_hair_and_eyes_line(&mut rng, &no_type, None),
        Err(FlavorLineGenerationError::HairGenerationError(HairGenerationError::from("type")))
    );
    let no_chance = ancestry(Looks { heterochromia: None, ..looks() });
    let error = generate_flavor_hair_and_eyes_line(&mut rng, &no_chance, None).unwrap_err();
    assert_eq!(error, FlavorLineGenerationError::EyeGenerationError(EyeGenerationError));
    assert_eq!(error.to_string(), "unable to generate eyes");
}

#[test]
fn skin_is_drawn_from_texture_and_tone() {
    let mut rng = rand::rngs::StdRng::seed_from_u64(1);
    assert_eq!(
        generate_flavor_skin_line(&mut rng, &ancestry(looks())).unwrap(),
        "They have weathered olive hide."
    );
    let no_tone = ancestry(Looks { skin_tone: WeightMap::new(), ..looks() });
    assert_eq!(generate_flavor_skin_line(&mut rng, &no_tone), Err(SkinGenerationError));
    let no_texture = ancestry(Looks { skin_texture: table(&[("smooth", 0)]), ..looks() });
    assert_eq!(generate_flavor_skin_line(&mut rng, &no_texture), Err(SkinGenerationError));
}

#[test]
fn the_description_line_is_prepared_from_plain_values() {
    let line = generate_flavor_description_line(
        "script",
        "Ada",
        30,
        AgeRange::Adult,
        "female",
        "Human",
        Some("Changeling"),
        "Farmer",
        None,
    );
    assert_eq!(line.script, "script");
    assert_eq!(line.name, "Ada");
    assert_eq!(line.age, 30);
    assert_eq!(line.age_range, AgeRange::Adult);
    assert_eq!(line.sex, " female");
    assert_eq!(line.ancestry_name, "Human");
    assert_eq!(line.heritage_name, " Changeling");
    assert_eq!(line.job_name, "Farmer");
    let other = generate_flavor_description_line(
        "",
        "Ooze",
        3,
        AgeRange::Child,
        "",
        "Ooze",
        None,
        "Drifter",
        Some("Wizard"),
    );
    assert_eq!(other.sex, "");
    assert_eq!(other.heritage_name, "");
    assert_eq!(other.job_name, "Wizard");
    assert_eq!(AgeRange::MiddleAged.to_string(), "MiddleAged");
    assert_eq!(AgeRange::default(), AgeRange::Adult);
}

#[test]
fn a_statblock_is_described_by_its_own_values() {
    let scripts = GeneratorScripts {
        default_format_flavor_description_line_script: "the script".to_string(),
    };
    let mut statblock = Statblock::default();
    assert_eq!(describe(&scripts, &statblock), Err(FlavorGenerationError::AncestryIsNone));
    statblock.set_name("Bo");
    statblock.set_age(61);
    statblock.set_age_range(AgeRange::Old);
    statblock.set_sex("male");
    statblock.set_class("Sailor");
    statblock.set_ancestry(Some(ancestry(looks())));
    statblock.set_heritage(Some(heritage(Some("fey"), &[], None)));
    let line = describe(&scripts, &statblock).unwrap();
    statblock.set_description_line("Bo is an old sailor.");
    assert_eq!(statblock.flavor().description_line, "Bo is an old sailor.");
    assert_eq!(statblock.flavor().skin_line, "");
    assert_eq!(statblock.name(), "Bo");
    assert_eq!(line.script, "the script");
    assert_eq!(line.name, "Bo");
    assert_eq!(line.age, 61);
    assert_eq!(line.age_range, AgeRange::Old);
    assert_eq!(line.sex, " male");
    assert_eq!(line.ancestry_name, "Human");
    assert_eq!(line.heritage_name, " Changeling");
    assert_eq!(line.job_name, "Sailor");
}

#[test]
fn templates_render_names_and_lineages() {
    let vm = gluon::new_vm();
    assert_eq!(
        Formats::default().format_full_name(&vm, "Ada", "Lovelace", vec![]).unwrap(),
        "Ada Lovelace"
    );
    let reversed = Formats {
        full_name: FormatString::from_text(
            "\\first_name surname additional_names -> surname ++ \", \" ++ first_name",
        ),
    };
    assert_eq!(reversed.format_full_name(&vm, "Ada", "Lovelace", vec![]).unwrap(), "Lovelace, Ada");
    assert_eq!(
        HeritageFormats::default().format_lineage_line(&vm, "fey").unwrap(),
        "They are of the fey lineage."
    );
    let broken = Formats { full_name: FormatString::from_text("this is no function (") };
    assert!(broken.format_full_name(&vm, "Ada", "Lovelace", vec![]).is_err());
    let mistyped = HeritageFormats { lineage_line: FormatString::from_text("\\a b -> a") };
    let error = mistyped.format_lineage_line(&vm, "fey").unwrap_err();
    assert!(!error.message.is_empty());
    assert_eq!(FormatString::new().as_ref(), "");
    assert_eq!(FormatString::from_string("x".to_string()).into_string(), "x");
    assert_eq!(FormatString::from_text("y").to_string(), "y");
    assert_eq!(FormatString::default(), FormatString::new());

    assert_eq!(generate_lineage_line(None, &vm), Ok(None));
    let plain = heritage(None, &[], None);
    assert_eq!(generate_lineage_line(Some(&plain), &vm), Ok(None));
    let fey = heritage(Some("fey"), &[], None);
    assert_eq!(
        generate_lineage_line(Some(&fey), &vm),
        Ok(Some("They are of the fey lineage.".to_string()))
    );
    assert_eq!(fey.formatted_name(), "Changeling (fey)");
    assert_eq!(plain.formatted_name(), "Changeling");
    assert_eq!(fey.lineage(), Some("fey"));
}

#[test]
fn names_are_drawn_by_trait_and_sex() {
    let vm = gluon::new_vm();
    let traits = vec![Trait::new("Medium"), Trait::new("Human")];
    let human = ancestry(looks());
    for seed in 0..20 {
        let mut rng = rand::rngs::StdRng::seed_from_u64(seed);
        assert_eq!(generate_name(&traits, &mut rng, &human, &names(), "female", &vm).unwrap(), "Ada");
        assert_eq!(generate_name(&traits, &mut rng, &human, &names(), "male", &vm).unwrap(), "Bo");
    }
    let mut rng = rand::rngs::StdRng::seed_from_u64(1);
    assert_eq!(
        generate_name(&traits, &mut rng, &human, &names(), "", &vm).unwrap(),
        "@@NAME_ERROR@@"
    );
    assert_eq!(
        generate_name(&traits, &mut rng, &human, &names(), "nameless", &vm),
        Err(FlavorGenerationError::NameGenerationError(NameGenerationError))
    );
    let strangers = vec![Trait::new("Medium"), Trait::new("Elf")];
    assert_eq!(
        generate_name(&strangers, &mut rng, &human, &names(), "female", &vm),
        Err(FlavorGenerationError::NameGenerationError(NameGenerationError))
    );
    let with_surnames = ancestry(Looks { surnames: Some(table(&[("Byron", 1)])), ..looks() });
    assert_eq!(
        generate_name(&traits, &mut rng, &with_surnames, &names(), "female", &vm).unwrap(),
        "Ada Byron"
    );
    assert_eq!(
        generate_name(&traits, &mut rng, &with_surnames, &names(), "other", &vm).unwrap(),
        "@@NAME_ERROR@@"
    );
    let broken_template = ancestry(Looks {
        surnames: Some(table(&[("Byron", 1)])),
        full_name: Formats { full_name: FormatString::from_text("(") },
        ..looks()
    });
    assert_eq!(
        generate_name(&traits, &mut rng, &broken_template, &names(), "other", &vm).unwrap(),
        "@@NAME_ERROR@@"
    );
    assert_eq!(
        generate_name(&strangers, &mut rng, &broken_template, &names(), "female", &vm),
        Err(FlavorGenerationError::NameGenerationError(NameGenerationError))
    );
    assert_eq!(
        generate_name(&traits, &mut rng, &broken_template, &names(), "nameless", &vm),
        Err(FlavorGenerationError::NameGenerationError(NameGenerationError))
    );
    let no_surnames = ancestry(Looks { surnames: Some(WeightMap::new()), ..looks() });
    assert_eq!(
        generate_name(&traits, &mut rng, &no_surnames, &names(), "female", &vm),
        Err(FlavorGenerationError::NameGenerationError(NameGenerationError))
    );
    let broken = ancestry(Looks {
        surnames: Some(table(&[("Byron", 1)])),
        full_name: Formats { full_name: FormatString::from_text("(") },
        ..looks()
    });
    assert!(matches!(
        generate_name(&traits, &mut rng, &broken, &names(), "female", &vm),
        Err(FlavorGenerationError::FormatError(_))
    ));
}

#[test]
fn the_narrative_is_written_line_by_line() {
    let vm = gluon::new_vm();
    let mut rng = rand::rngs::StdRng::seed_from_u64(1);
    let mut statblock = Statblock::default();
    assert_eq!(
        generate_flavor(&mut rng, &statblock, &vm),
        Err(FlavorGenerationError::AncestryIsNone)
    );
    statblock.set_ancestry(Some(ancestry(looks())));
    statblock.set_heritage(Some(heritage(Some("fey"), &[], None)));
    let flavor = generate_flavor(&mut rng, &statblock, &vm).unwrap();
    assert_eq!(flavor.description_line, "");
    assert_eq!(flavor.lineage_line, Some("They are of the fey lineage.".to_string()));
    assert_eq!(flavor.hair_and_eyes_line, "They have long, curly, black fur and blue eyes.");
    assert_eq!(flavor.skin_line, "They have weathered olive hide.");
    assert_eq!(flavor.size_and_build_line, "They have a bulk of 6.");
    assert_eq!(flavor.face_line, "They have a face.");
    assert_eq!(flavor.habit_line, "They have habits.");

    statblock.set_ancestry(Some(ancestry(Looks { skin_tone: WeightMap::new(), ..looks() })));
    let error = generate_flavor(&mut rng, &statblock, &vm).unwrap_err();
    assert_eq!(
        error,
        FlavorGenerationError::FlavorLineGenerationError(
            FlavorLineGenerationError::SkinGenerationError(SkinGenerationError)
        )
    );
    assert_eq!(error.to_string(), "unable to generate skin");
    assert_eq!(
        FlavorGenerationError::AncestryIsNone.to_string(),
        "Flavor generation error: ancestry in unflavored statblock is None"
    );
}

#[test]
fn generation_with_flavor_names_and_describes() {
    let mut data = GeneratorData::default();
    data.ancestries.insert(ancestry(Looks { surnames: Some(table(&[("Byron", 2)])), ..looks() }), 1);
    data.normal_heritage_weight = Probability::always();
    data.backgrounds.insert(Background::new("Farmer", vec![], vec![]), 1);
    data.names = names();
    let scripts = GeneratorScripts { default_format_flavor_description_line_script: String::new() };
    let options = NpcOptions {
        sex: Some("female".to_string()),
        enable_flavor_text: true,
        ..NpcOptions::default()
    };
    let mut generator = Generator::new(
        rand::rngs::StdRng::seed_from_u64(3),
        Arc::new(data),
        Arc::new(scripts),
    )
    .unwrap();
    for _ in 0..3 {
        let statblock = generator.generate(&options, None).unwrap();
        assert_eq!(statblock.name(), "Ada Byron");
        assert_eq!(statblock.ancestry().unwrap().name(), "Human");
        assert_eq!(statblock.class(), "Farmer");
        let flavor = statblock.flavor();
        assert_eq!(flavor.description_line, "");
        assert_eq!(flavor.lineage_line, None);
        assert_eq!(flavor.hair_and_eyes_line, "They have long, curly, black fur and blue eyes.");
        assert_eq!(flavor.skin_line, "They have weathered olive hide.");
        assert_eq!(flavor.size_and_build_line, "They have a bulk of 6.");
        let mut labels: Vec<String> = statblock.traits().iter().map(|t| t.to_string()).collect();
        labels.sort();
        assert_eq!(labels, vec!["Human", "Medium"]);
    }
    let nameless = NpcOptions { sex: Some("nameless".to_string()), ..options };
    let error = generator.generate(&nameless, None).unwrap_err();
    assert_eq!(
        error,
        GenerationError::FlavorGenerationError(FlavorGenerationError::NameGenerationError(
            NameGenerationError
        ))
    );
    assert_eq!(error.to_string(), "unable to generate name");
}

#[test]
fn looks_are_put_into_words() {
    assert_eq!(write_hair("short", "straight", "red", "hair"), "short, straight, red hair");
    assert_eq!(write_skin("smooth", "pale", "skin"), "They have smooth pale skin.");
    assert_eq!(write_eyes("brown", None), "brown eyes");
    assert_eq!(
        write_eyes("brown", Some(("green", true))),
        "heterochromatic eyes.\nTheir left eye is green and their right eye is brown"
    );
    assert_eq!(
        write_eyes("brown", Some(("green", false))),
        "heterochromatic eyes.\nTheir left eye is brown and their right eye is green"
    );
}

#[test]
fn records_are_told_apart_by_name() {
    let plain = ancestry(looks());
    let tall = ancestry(Looks { size: Size::Large, ..looks() });
    assert!(plain == tall);
    assert!(heritage(None, &[], None) == heritage(Some("fey"), &[("red", 1)], Some("red")));
    assert!(
        Background::new("Farmer", vec![], vec![])
            == Background::new("Farmer", vec![Trait::new("x")], vec![])
    );
    assert!(Background::new("Farmer", vec![], vec![]) != Background::new("Sailor", vec![], vec![]));
}

#[test]
fn eyes_are_never_mixed_without_a_chance_and_always_with_a_certain_one() {
    let never = ancestry(Looks {
        eyes: Some(table(&[("blue", 1), ("green", 1), ("brown", 1)])),
        heterochromia: Some(Probability::never()),
        ..looks()
    });
    let always = ancestry(Looks {
        eyes: Some(table(&[("blue", 1), ("green", 1), ("brown", 1)])),
        heterochromia: Some(Probability::always()),
        ..looks()
    });
    for seed in 0..100 {
        let mut rng = rand::rngs::StdRng::seed_from_u64(seed);
        let plain = generate_flavor_eyes(&mut rng, &never, None).unwrap();
        assert!(["blue eyes", "green eyes", "brown eyes"].contains(&plain.as_str()));
        let mixed = generate_flavor_eyes(&mut rng, &always, None).unwrap();
        assert!(mixed.starts_with("heterochromatic eyes.\nTheir left eye is "));
        let colors: Vec<&str> =
            ["blue", "green", "brown"].into_iter().filter(|c| mixed.contains(c)).collect();
        assert_eq!(colors.len(), 2);
    }
}

#[test]
fn the_narrative_is_finished_around_the_lineage_line() {
    let mut rng = rand::rngs::StdRng::seed_from_u64(1);
    let human = ancestry(looks());
    let flavor =
        finish_flavor(&mut rng, &human, None, Some("They are of old blood.".to_string())).unwrap();
    assert_eq!(flavor.description_line, "");
    assert_eq!(flavor.lineage_line, Some("They are of old blood.".to_string()));
    assert_eq!(flavor.hair_and_eyes_line, "They have long, curly, black fur and blue eyes.");
    assert_eq!(flavor.skin_line, "They have weathered olive hide.");
    assert_eq!(flavor.size_and_build_line, "They have a bulk of 6.");
    assert_eq!(flavor.face_line, "They have a face.");
    assert_eq!(flavor.habit_line, "They have habits.");
    let without = finish_flavor(&mut rng, &human, None, None).unwrap();
    assert_eq!(without.lineage_line, None);
    let no_skin = ancestry(Looks { skin_texture: WeightMap::new(), ..looks() });
    assert_eq!(
        finish_flavor(&mut rng, &no_skin, None, None),
        Err(FlavorLineGenerationError::SkinGenerationError(SkinGenerationError))
    );
    let no_hair_type = ancestry(Looks { hair_type: None, skin_texture: WeightMap::new(), ..looks() });
    assert_eq!(
        finish_flavor(&mut rng, &no_hair_type, None, None),
        Err(FlavorLineGenerationError::HairGenerationError(HairGenerationError::from("type")))
    );
}
