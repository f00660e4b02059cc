use npc_generator_core::ability::AbilityBoost;
use npc_generator_core::ability::AbilityModifications;
use npc_generator_core::allocation::allocate_abilities;
use npc_generator_core::allocation::ancestry_round;
use npc_generator_core::allocation::free_ability;
use npc_generator_core::allocation::free_round;
use npc_generator_core::allocation::untouched_abilities;
use npc_generator_core::allocation::FREE_BOOSTS_PER_ROUND;
use npc_generator_core::errors::AbilityGenerationError;
use npc_generator_core::training::compute_skill_modifiers;
use npc_generator_core::training::derive_proficiencies;
use npc_generator_core::training::distinct_skills;
use npc_generator_core::training::add_drawn_skill;
use npc_generator_core::training::select_skills;
use npc_generator_core::Ability;
use npc_generator_core::AbilityStats;
use npc_generator_core::Proficiency;
use npc_generator_core::Skill;
use npc_generator_core::SkillTraining;
use rand::SeedableRng;

fn total(stats: &AbilityStats) -> i32 {
    Ability::values().iter().map(|ability| stats.get_ability(*ability) as i32).sum()
}

fn distinct(round: &[Ability]) -> bool {
    (0..round.len()).all(|i| (0..i).all(|j| round[i] != round[j]))
}

fn touched(step: &AbilityBoost) -> Ability {
    match step {
        AbilityBoost::Boost(ability) => *ability,
        AbilityBoost::Flaw(ability) => *ability,
        AbilityBoost::Free => panic!("a free step is applied as a boost"),
    }
}

#[test]
fn the_six_abilities_come_in_their_order() {
    assert_eq!(Ability::values(), vec![
        Ability::Charisma,
        Ability::Constitution,
        Ability::Dexterity,
        Ability::Intelligence,
        Ability::Strength,
        Ability::Wisdom
    ]);
    let program = AbilityModifications::new(vec![AbilityBoost::Free]);
    assert_eq!(program.iter(), &vec![AbilityBoost::Free]);
    assert_eq!(program.as_ref(), [AbilityBoost::Free]);
    assert_eq!(program.clone().into_vec(), vec![AbilityBoost::Free]);
    assert!(AbilityModifications::default().iter().is_empty());
}

#[test]
fn scores_add_up_to_what_was_applied_plus_eight() {
    let program = vec![
        AbilityBoost::Boost(Ability::Strength),
        AbilityBoost::Flaw(Ability::Charisma),
        AbilityBoost::Free,
    ];
    for seed in 0..300 {
        let mut rng = rand::rngs::StdRng::seed_from_u64(seed);
        let allocation = allocate_abilities(&mut rng, &program).unwrap();
        assert_eq!(total(&allocation.attributes), 1 - 1 + 1 + 8);
        assert_eq!(allocation.ancestry_round.len(), 3);
        assert_eq!(allocation.ancestry_round[0], AbilityBoost::Boost(Ability::Strength));
        assert_eq!(allocation.ancestry_round[1], AbilityBoost::Flaw(Ability::Charisma));
        assert!(matches!(allocation.ancestry_round[2], AbilityBoost::Boost(_)));
        assert_eq!(allocation.first_round.len(), FREE_BOOSTS_PER_ROUND);
        assert_eq!(allocation.second_round.len(), 4);
        for ability in Ability::values() {
            let score = allocation.attributes.get_ability(ability);
            assert!((-1..=3).contains(&score));
            let mut expected = 0;
            for step in &allocation.ancestry_round {
                match step {
                    AbilityBoost::Boost(a) if *a == ability => expected += 1,
                    AbilityBoost::Flaw(a) if *a == ability => expected -= 1,
                    _ => {}
                }
            }
            expected += allocation.first_round.iter().filter(|a| **a == ability).count() as i8;
            expected += allocation.second_round.iter().filter(|a| **a == ability).count() as i8;
            assert_eq!(score, expected);
        }
    }
}

#[test]
fn no_round_touches_an_ability_twice() {
    let program = vec![
        AbilityBoost::Free,
        AbilityBoost::Boost(Ability::Wisdom),
        AbilityBoost::Free,
        AbilityBoost::Flaw(Ability::Wisdom),
        AbilityBoost::Boost(Ability::Dexterity),
    ];
    let mut skipped = false;
    for seed in 0..500 {
        let mut rng = rand::rngs::StdRng::seed_from_u64(seed);
        let allocation = allocate_abilities(&mut rng, &program).unwrap();
        let round: Vec<Ability> = allocation.ancestry_round.iter().map(touched).collect();
        assert!(distinct(&round));
        assert!(distinct(&allocation.first_round));
        assert!(distinct(&allocation.second_round));
        assert!(!allocation.ancestry_round.contains(&AbilityBoost::Flaw(Ability::Wisdom)));
        let boosts = allocation.ancestry_round.len() as i32;
        assert_eq!(total(&allocation.attributes), boosts + 8);
        skipped |= allocation.ancestry_round.len() < 4;
    }
    assert!(skipped);
}

#[test]
fn a_repeated_boost_counts_once() {
    let program = vec![AbilityBoost::Boost(Ability::Strength), AbilityBoost::Boost(Ability::Strength)];
    let mut rng = rand::rngs::StdRng::seed_from_u64(11);
    let mut scores = AbilityStats::default();
    let applied = ancestry_round(&mut rng, &program, &mut scores).unwrap();
    assert_eq!(applied, vec![AbilityBoost::Boost(Ability::Strength)]);
    assert_eq!(scores, AbilityStats { strength: 1, ..AbilityStats::default() });
}

#[test]
fn a_free_step_fails_when_all_six_are_touched() {
    let mut program: Vec<AbilityBoost> =
        Ability::values().into_iter().map(AbilityBoost::Boost).collect();
    let mut rng = rand::rngs::StdRng::seed_from_u64(2);
    let full = allocate_abilities(&mut rng, &program).unwrap();
    assert_eq!(total(&full.attributes), 6 + 8);
    program.push(AbilityBoost::Free);
    assert_eq!(allocate_abilities(&mut rng, &program).unwrap_err(), AbilityGenerationError);
    assert_eq!(free_ability(&mut rng, &Ability::values()), Err(AbilityGenerationError));
    let five = vec![
        Ability::Charisma,
        Ability::Constitution,
        Ability::Dexterity,
        Ability::Intelligence,
        Ability::Wisdom,
    ];
    for seed in 0..20 {
        let mut rng = rand::rngs::StdRng::seed_from_u64(seed);
        assert_eq!(free_ability(&mut rng, &five), Ok(Ability::Strength));
    }
}

#[test]
fn a_free_round_raises_four_different_abilities() {
    for seed in 0..100 {
        let mut rng = rand::rngs::StdRng::seed_from_u64(seed);
        let mut scores = AbilityStats { strength: 2, wisdom: -1, ..AbilityStats::default() };
        let round = free_round(&mut rng, &mut scores).unwrap();
        assert_eq!(round.len(), 4);
        assert!(distinct(&round));
        assert_eq!(total(&scores), 1 + 4);
        for ability in Ability::values() {
            let before = match ability {
                Ability::Strength => 2,
                Ability::Wisdom => -1,
                _ => 0,
            };
            let raised = if round.contains(&ability) { 1 } else { 0 };
            assert_eq!(scores.get_ability(ability), before + raised);
        }
    }
}

#[test]
fn the_bonus_is_the_level_plus_the_constant_of_the_tier() {
    for level in -10..=20 {
        assert_eq!(Proficiency::Untrained.bonus_for_level(level), 0);
        assert_eq!(Proficiency::Trained.bonus_for_level(level), level + 2);
        assert_eq!(Proficiency::Expert.bonus_for_level(level), level + 4);
        assert_eq!(Proficiency::Master.bonus_for_level(level), level + 6);
        assert_eq!(Proficiency::Legendary.bonus_for_level(level), level + 8);
        for tier in [
            Proficiency::Trained,
            Proficiency::Expert,
            Proficiency::Master,
            Proficiency::Legendary,
        ] {
            assert!(tier.bonus_for_level(level) < tier.bonus_for_level(level + 1));
            assert_eq!(tier.wide_bonus_for_level(level), tier.bonus_for_level(level) as i16);
        }
    }
    assert_eq!(Proficiency::Legendary.bonus_for_level(119), 127);
    assert_eq!(Proficiency::Legendary.wide_bonus_for_level(127), 135);
    assert_eq!(Proficiency::Untrained.wide_bonus_for_level(127), 0);
    assert_eq!(Proficiency::Untrained.bonus_for_level(127), 0);
    assert_eq!(Proficiency::default(), Proficiency::Untrained);
}

#[test]
fn additional_skills_are_new_and_no_lore() {
    let excluded = vec![Skill::Arcana, Skill::Lore("Sailing".to_string())];
    for seed in 0..100 {
        let mut rng = rand::rngs::StdRng::seed_from_u64(seed);
        let selected = select_skills(&mut rng, &excluded, 5).unwrap();
        assert_eq!(selected.len(), 5);
        for (i, skill) in selected.iter().enumerate() {
            assert!(*skill != Skill::Arcana);
            assert!(Skill::values_excluding_lore().contains(skill));
            assert!(!selected[..i].contains(skill));
        }
    }
    let mut rng = rand::rngs::StdRng::seed_from_u64(1);
    assert!(select_skills(&mut rng, &excluded, 0).unwrap().is_empty());
}

#[test]
fn the_selection_stays_short_when_the_skills_run_out() {
    let excluded: Vec<Skill> = Skill::values_excluding_lore().into_iter().skip(2).collect();
    let mut rng = rand::rngs::StdRng::seed_from_u64(5);
    let mut selected = select_skills(&mut rng, &excluded, 4).unwrap();
    selected.sort();
    assert_eq!(selected, vec![Skill::Acrobatics, Skill::Arcana]);
    let all = Skill::values_excluding_lore();
    assert!(select_skills(&mut rng, &all, 3).unwrap().is_empty());
}

#[test]
fn proficiencies_start_from_the_background() {
    let trainings = vec![Skill::Nature, Skill::Nature, Skill::Lore("Farming".to_string())];
    assert_eq!(distinct_skills(&trainings), vec![
        Skill::Nature,
        Skill::Lore("Farming".to_string())
    ]);
    let derived = derive_proficiencies(&trainings, &vec![Skill::Stealth]);
    assert_eq!(derived.skills, vec![
        SkillTraining { skill: Skill::Nature, proficiency: Proficiency::Trained },
        SkillTraining {
            skill: Skill::Lore("Farming".to_string()),
            proficiency: Proficiency::Trained
        },
        SkillTraining { skill: Skill::Stealth, proficiency: Proficiency::Trained },
    ]);
    assert_eq!(derived.perception, Proficiency::Trained);
    assert_eq!(derived.martial_weapons, Proficiency::Untrained);
    assert_eq!(derived.light_armor, Proficiency::Untrained);
}

#[test]
fn skill_modifiers_follow_the_governing_ability() {
    let scores = AbilityStats {
        strength: 1,
        dexterity: 2,
        constitution: 3,
        intelligence: 4,
        wisdom: 5,
        charisma: 6,
    };
    let trainings: Vec<SkillTraining> = Skill::values_excluding_lore()
        .into_iter()
        .chain([Skill::Lore("Stars".to_string())])
        .map(|skill| SkillTraining { skill, proficiency: Proficiency::Expert })
        .collect();
    let modifiers = compute_skill_modifiers(&trainings, &scores, 1);
    let expected = [
        (Skill::Acrobatics, 2),
        (Skill::Arcana, 4),
        (Skill::Athletics, 1),
        (Skill::Crafting, 4),
        (Skill::Deception, 6),
        (Skill::Diplomacy, 6),
        (Skill::Intimidation, 6),
        (Skill::Medicine, 5),
        (Skill::Nature, 5),
        (Skill::Occultism, 4),
        (Skill::Performance, 6),
        (Skill::Religion, 5),
        (Skill::Society, 4),
        (Skill::Stealth, 2),
        (Skill::Survival, 5),
        (Skill::Thievery, 2),
        (Skill::Lore("Stars".to_string()), 4),
    ];
    assert_eq!(modifiers.len(), expected.len());
    for (modifier, (skill, score)) in modifiers.iter().zip(expected.iter()) {
        assert_eq!(modifier.0, *skill);
        assert_eq!(modifier.1, score + 1 + 4);
        assert_eq!(skill.ability(), modifier.0.ability());
    }
    let untrained =
        vec![SkillTraining { skill: Skill::Stealth, proficiency: Proficiency::Untrained }];
    assert_eq!(compute_skill_modifiers(&untrained, &scores, 9), vec![(Skill::Stealth, 2)]);
    assert_eq!(Skill::Lore("Stars".to_string()).to_string(), "Stars Lore");
    assert_eq!(Skill::Thievery.to_string(), "Thievery");
    assert!(Skill::Nature.same(&Skill::Nature));
    assert!(!Skill::Lore("a".to_string()).same(&Skill::Lore("b".to_string())));
}

#[test]
fn untouched_abilities_keep_their_order() {
    assert_eq!(untouched_abilities(&vec![]), Ability::values());
    assert_eq!(
        untouched_abilities(&vec![Ability::Wisdom, Ability::Charisma, Ability::Intelligence]),
        vec![Ability::Constitution, Ability::Dexterity, Ability::Strength]
    );
    assert!(untouched_abilities(&Ability::values()).is_empty());
}

#[test]
fn a_drawn_skill_is_added_once_unless_excluded() {
    let excluded = vec![Skill::Arcana];
    let mut selected = vec![Skill::Nature];
    add_drawn_skill(&mut selected, &excluded, &Skill::Arcana);
    assert_eq!(selected, vec![Skill::Nature]);
    add_drawn_skill(&mut selected, &excluded, &Skill::Nature);
    assert_eq!(selected, vec![Skill::Nature]);
    add_drawn_skill(&mut selected, &excluded, &Skill::Stealth);
    assert_eq!(selected, vec![Skill::Nature, Skill::Stealth]);
}

#[test]
fn the_selection_is_full_when_the_draws_allow_it() {
    for seed in 0..20 {
        let mut rng = rand::rngs::StdRng::seed_from_u64(seed);
        let one = select_skills(&mut rng, &vec![], 1).unwrap();
        assert_eq!(one.len(), 1);
        assert!(Skill::values_excluding_lore().contains(&one[0]));
        let mut all = select_skills(&mut rng, &vec![], 16).unwrap();
        all.sort();
        let mut expected = Skill::values_excluding_lore();
        expected.sort();
        assert_eq!(all, expected);
    }
}
