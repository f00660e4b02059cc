use npc_generator_core::statblock::PF2eStats;
use npc_generator_core::Ability;
use npc_generator_core::AbilityStats;
use npc_generator_core::AbilityValue;
use npc_generator_core::AgeRange;
use npc_generator_core::NpcFlavor;
use npc_generator_core::Proficiencies;
use npc_generator_core::Skill;
use npc_generator_core::Statblock;
use npc_generator_core::Trait;

#[test]
fn test_name_accessor() {
    let mut statblock = Statblock::default();
    assert_eq!("", statblock.name());
    statblock.set_name("new value");
    assert_eq!("new value", statblock.name());
}

#[test]
fn test_traits_accessor() {
    let mut statblock = Statblock::default();
    assert!(statblock.traits().is_empty());
    statblock.set_traits(vec![Trait::new("1"), Trait::new("2"), Trait::new("3")]);
    let traits = statblock.traits();
    assert!(traits.len() == 3);
    assert_eq!(Trait::new("1"), traits[0]);
    assert_eq!(Trait::new("2"), traits[1]);
    assert_eq!(Trait::new("3"), traits[2]);
}

#[test]
fn default_statblock_is_blank() {
    let statblock = Statblock::default();
    assert_eq!(statblock.class(), "");
    assert_eq!(statblock.level(), 0);
    assert_eq!(statblock.age(), 0);
    assert_eq!(statblock.age_range(), AgeRange::Adult);
    assert_eq!(statblock.sex(), "");
    assert!(statblock.skills().is_empty());
    assert!(statblock.items().is_empty());
    assert_eq!(*statblock.attributes(), AbilityStats::default());
    assert_eq!(statblock.perception(), 0);
    assert_eq!(statblock.armor_class(), 0);
    assert_eq!(statblock.hit_points(), 0);
    assert_eq!(statblock.land_speed(), 0);
    assert!(statblock.ancestry().is_none());
    assert!(statblock.heritage().is_none());
    assert_eq!(*statblock.flavor(), NpcFlavor::default());
    assert_eq!(*statblock.proficiencies(), Proficiencies::default());
}

#[test]
fn setters_change_one_field_each() {
    let mut statblock = Statblock::default();
    statblock.set_class("Farmer");
    statblock.set_level(3);
    statblock.set_age(41);
    statblock.set_age_range(AgeRange::MiddleAged);
    statblock.set_sex("female");
    statblock.set_perception(5);
    statblock.set_armor_class(14);
    statblock.set_fortitude_save(4);
    statblock.set_reflex_save(-1);
    statblock.set_will_save(6);
    statblock.set_hit_points(23);
    statblock.set_land_speed(25);
    statblock.set_items(vec!["rope".to_string()]);
    statblock.set_skills(vec![(Skill::Nature, 7)]);
    assert_eq!(statblock.name(), "");
    assert_eq!(statblock.class(), "Farmer");
    assert_eq!(statblock.level(), 3);
    assert_eq!(statblock.age(), 41);
    assert_eq!(statblock.age_range(), AgeRange::MiddleAged);
    assert_eq!(statblock.sex(), "female");
    assert_eq!(statblock.perception(), 5);
    assert_eq!(statblock.armor_class(), 14);
    assert_eq!(statblock.fortitude_save(), 4);
    assert_eq!(statblock.reflex_save(), -1);
    assert_eq!(statblock.will_save(), 6);
    assert_eq!(statblock.hit_points(), 23);
    assert_eq!(statblock.land_speed(), 25);
    assert_eq!(statblock.items(), ["rope".to_string()]);
    assert_eq!(statblock.skills(), [(Skill::Nature, 7)]);
}

#[test]
fn ability_value_boosts_slow_down_at_four() {
    let three = AbilityValue::new(3);
    assert_eq!(three.boost(), AbilityValue(4, false));
    assert_eq!(three.boost().boost(), AbilityValue(4, true));
    assert_eq!(three.boost().boost().boost(), AbilityValue(5, false));
    assert_eq!(AbilityValue::new(0).flaw(), AbilityValue(-1, false));
    assert_eq!(AbilityValue(4, true).flaw(), AbilityValue(3, false));
    assert_eq!(AbilityValue::new(3).to_string(), "+3");
    assert_eq!(AbilityValue(4, true).to_string(), "+4*");
    assert_eq!(AbilityValue::new(-1).to_string(), "-1");
    assert_eq!(AbilityValue::new(0).to_string(), "+0");
    assert_eq!(AbilityValue::new(-128).to_string(), "-128");
    assert_eq!(AbilityValue::new(5).value(), 5);
}

#[test]
fn ability_stats_are_reached_by_ability() {
    let mut stats = AbilityStats::default();
    *stats.get_ability_mut(Ability::Wisdom) += 2;
    *stats.get_ability_mut(Ability::Strength) -= 1;
    assert_eq!(stats.wisdom, 2);
    assert_eq!(stats.strength, -1);
    assert_eq!(stats.get_ability(Ability::Wisdom), 2);
    assert_eq!(stats.get_ability(Ability::Charisma), 0);
}

#[test]
fn flavor_text_puts_an_empty_line_after_each_line() {
    let flavor = NpcFlavor {
        description_line: "A".to_string(),
        hair_and_eyes_line: "B".to_string(),
        skin_line: "C".to_string(),
        lineage_line: Some("D".to_string()),
        size_and_build_line: "E".to_string(),
        face_line: "F".to_string(),
        habit_line: "G".to_string(),
    };
    assert_eq!(flavor.to_string(), "A\n\nB\n\nC\n\nD\n\nE\n\nF\n\nG\n\n");
    let without = NpcFlavor { lineage_line: None, ..flavor.clone() };
    assert_eq!(without.to_string(), "A\n\nB\n\nC\n\nE\n\nF\n\nG\n\n");
}

#[test]
fn sheet_lists_statistics_in_order() {
    let mut statblock = Statblock::default();
    statblock.set_name("Ada");
    statblock.set_class("Scholar");
    statblock.set_level(2);
    statblock.set_traits(vec![Trait::new("Medium"), Trait::new("Human"), Trait::new("Elf")]);
    statblock.set_perception(6);
    statblock.set_skills(vec![
        (Skill::Society, 5),
        (Skill::Arcana, -1),
        (Skill::Stealth, 0),
        (Skill::Lore("Library".to_string()), 4),
    ]);
    statblock.set_attributes(AbilityStats {
        strength: -1,
        dexterity: 0,
        constitution: 1,
        intelligence: 3,
        wisdom: 2,
        charisma: 10,
    });
    statblock.set_armor_class(12);
    statblock.set_fortitude_save(3);
    statblock.set_reflex_save(-2);
    statblock.set_will_save(0);
    statblock.set_hit_points(-5);
    statblock.set_land_speed(25);
    let sheet: PF2eStats = statblock.as_pf2e_stats();
    assert_eq!(sheet.creature_name(), "# Ada");
    assert_eq!(sheet.creature_type_level(), "## Scholar 2");
    assert_eq!(sheet.traits(), "==Unique== ==Elf== ==Human== ==Medium==");
    assert_eq!(sheet.skills(), " Arcana -1, Library Lore +4, Society +5");
    assert_eq!(
        sheet.attributes(),
        "**Str** -1, **Dex** +0, **Con** +1, **Int** +3, **Wis** +2, **Cha** +10"
    );
    assert_eq!(sheet.ac_and_saves(), "**AC** 12; **Fort** +3, **Ref** -2, **Will** +0");
    assert_eq!(sheet.hp(), "**HP** -5");
    assert_eq!(sheet.speed(), "**Speed** 25");
    let expected = "```pf2e-stats\n# Ada\n## Scholar 2\n==Unique== ==Elf== ==Human== ==Medium==\n\n\
**Perception** +6\n**Languages** Common\n**Skills** Arcana -1, Library Lore +4, Society +5\n\
**Str** -1, **Dex** +0, **Con** +1, **Int** +3, **Wis** +2, **Cha** +10\n\n---\n\n\
**AC** 12; **Fort** +3, **Ref** -2, **Will** +0\n**HP** -5\n\n---\n\n**Speed** 25\n\n---\n\n\
\n\n\n\n\n\n\n\n\n\n\n\n\n```\n";
    assert_eq!(sheet.to_string(), expected);
    assert_eq!(statblock.into_pf2e_stats().to_string(), expected);
}

#[test]
fn sheet_without_traits_and_skills() {
    let sheet = Statblock::default().into_pf2e_stats();
    assert_eq!(sheet.traits(), "==Unique==");
    assert_eq!(sheet.skills(), "");
    assert_eq!(PF2eStats::start_codeblock(), "```pf2e-stats");
    assert_eq!(PF2eStats::end_codeblock(), "```");
    assert_eq!(sheet.languages(), "Common");
}
