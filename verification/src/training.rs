//! Proficiencies and skills: what a character is trained in, and the
//! numbers that follow from training and ability scores.

use crate::ability::Ability;
use crate::ability::AbilityBoost;
use crate::allocation::allocate_abilities;
use crate::allocation::can_run_dry;
use crate::allocation::free_steps_in_reach;
use crate::allocation::scores_allocated;
use crate::ancestry::Ancestry;
use crate::ancestry::AncestryView;
use crate::background::lemma_without_repeats;
use crate::background::without_repeats;
use crate::background::Background;
use crate::errors::AbilityGenerationError;
use crate::errors::GenerationError;
use crate::errors::SkillGenerationError;
use crate::heritage::Heritage;
use crate::proficiencies::Proficiencies;
use crate::proficiencies::ProficienciesView;
use crate::proficiencies::Proficiency;
use crate::proficiencies::SkillTraining;
use crate::random::pick;
use crate::skills::has_skill;
use crate::skills::skill_ids;
use crate::skills::Skill;
use crate::statblock::AbilityStats;
use crate::statblock::Statblock;
use crate::statblock::StatblockView;
use vstd::prelude::*;

verus! {

/// How many draws the selection of additional skills may make before it
/// settles for the skills it has.
pub const SKILL_DRAW_BUDGET: u32 = 10000;

/// The number of skills a character picks up beyond those of its
/// background: two, and one more or less for each point of intelligence.
pub open spec fn additional_skill_count(intelligence: int) -> int {
    2 + intelligence
}

/// Whether `selected` is a fit selection of additional skills: at most
/// `wanted` skills, no skill twice, no lore, and none of the excluded ones.
pub open spec fn skills_selected(excluded: Seq<Skill>, wanted: int, selected: Seq<Skill>) -> bool {
    &&& selected.len() <= wanted
    &&& skill_ids(selected).no_duplicates()
    &&& forall|i: int|
        0 <= i < selected.len() ==> Skill::all_excluding_lore().contains(#[trigger] selected[i])
            && !skill_ids(excluded).contains(selected[i].id())
}

/// The selection after the skill `drawn` has come up: the skill is added
/// unless it is excluded or selected already.
pub open spec fn with_drawn(excluded: Seq<Skill>, selected: Seq<Skill>, drawn: Skill) -> Seq<Skill> {
    if skill_ids(excluded).contains(drawn.id()) || skill_ids(selected).contains(drawn.id()) {
        selected
    } else {
        selected.push(drawn)
    }
}

/// Takes a drawn skill into the selection, unless it is excluded or
/// selected already.
pub fn add_drawn_skill(selected: &mut Vec<Skill>, excluded: &Vec<Skill>, drawn: &Skill)
    ensures
        final(selected)@ == with_drawn(excluded@, old(selected)@, *drawn),
{
    if !has_skill(excluded, drawn) && !has_skill(selected, drawn) {
        selected.push(drawn.clone());
    }
}

/// Selects additional skills: draws among the skills that are no lore until
/// `wanted` different skills outside `excluded` have come up, or the budget
/// of draws is spent. The selection is what the draws make of it, one by one.
pub fn select_skills(rng: &mut rand::rngs::StdRng, excluded: &Vec<Skill>, wanted: usize) -> (chosen:
    Result<Vec<Skill>, SkillGenerationError>)
    ensures
        chosen is Ok,
        chosen matches Ok(selected) ==> skills_selected(excluded@, wanted as int, selected@),
        chosen matches Ok(selected) ==> selection_drawn(excluded@, wanted as int, selected@),
{
    let all = Skill::values_excluding_lore();
    let mut selected: Vec<Skill> = Vec::new();
    let mut loop_guard: u32 = SKILL_DRAW_BUDGET;
    let ghost mut draws: Seq<Skill> = Seq::empty();
    while selected.len() != wanted && loop_guard > 0
        invariant
            all@ == Skill::all_excluding_lore(),
            selected@.len() <= wanted,
            skill_ids(selected@).no_duplicates(),
            forall|i: int|
                0 <= i < selected@.len() ==> Skill::all_excluding_lore().contains(
                    #[trigger] selected@[i],
                ) && !skill_ids(excluded@).contains(selected@[i].id()),
            selected@ == after_draws(excluded@, draws),
            draws.len() + loop_guard == SKILL_DRAW_BUDGET,
            forall|i: int|
                0 <= i < draws.len() ==> Skill::all_excluding_lore().contains(#[trigger] draws[i]),
            forall|n: int|
                0 <= n < draws.len() ==> (#[trigger] after_draws(excluded@, draws.take(n))).len()
                    != wanted,
        decreases loop_guard,
    {
        match pick(rng, all.as_slice()) {
            Some(skill) => {
                let ghost before = selected@;
                let ghost drawn_before = draws;
                add_drawn_skill(&mut selected, excluded, skill);
                proof {
                    if selected@ != before {
                        assert(skill_ids(selected@) =~= skill_ids(before).push(skill.id()));
                    }
                    draws = drawn_before.push(*skill);
                    assert(draws.drop_last() =~= drawn_before);
                    assert forall|n: int| 0 <= n < draws.len() implies (#[trigger] after_draws(
                        excluded@,
                        draws.take(n),
                    )).len() != wanted by {
                        if n < drawn_before.len() {
                            assert(draws.take(n) =~= drawn_before.take(n));
                        } else {
                            assert(draws.take(n) =~= drawn_before);
                        }
                    }
                }
            },
            None => {
                assert(all@.len() == 16);
                return Err(SkillGenerationError);
            },
        }
        loop_guard -= 1;
    }
    proof {
        assert(selected_by(excluded@, wanted as int, draws, selected@));
    }
    Ok(selected)
}

/// The selection that a run of draws leaves behind: starting from nothing,
/// each drawn skill in turn is added unless it is excluded or selected
/// already.
pub open spec fn after_draws(excluded: Seq<Skill>, draws: Seq<Skill>) -> Seq<Skill>
    decreases draws.len(),
{
    if draws.len() == 0 {
        Seq::empty()
    } else {
        with_drawn(excluded, after_draws(excluded, draws.drop_last()), draws.last())
    }
}

/// Whether `selected` is what the selection of `wanted` skills makes of the
/// run of draws `draws`: every draw is a skill that is no lore; the
/// selection is what the draws leave behind; a draw was made only while the
/// selection was not `wanted` skills long; and drawing ended because the
/// selection was `wanted` skills long or the budget of draws was spent.
pub open spec fn selected_by(
    excluded: Seq<Skill>,
    wanted: int,
    draws: Seq<Skill>,
    selected: Seq<Skill>,
) -> bool {
    &&& selected == after_draws(excluded, draws)
    &&& draws.len() <= SKILL_DRAW_BUDGET
    &&& forall|i: int|
        0 <= i < draws.len() ==> Skill::all_excluding_lore().contains(#[trigger] draws[i])
    &&& forall|n: int|
        0 <= n < draws.len() ==> (#[trigger] after_draws(excluded, draws.take(n))).len() != wanted
    &&& selected.len() == wanted || draws.len() == SKILL_DRAW_BUDGET
}

/// Whether `selected` is what the selection of `wanted` skills makes of
/// some run of draws.
pub open spec fn selection_drawn(excluded: Seq<Skill>, wanted: int, selected: Seq<Skill>) -> bool {
    exists|draws: Seq<Skill>| #[trigger] selected_by(excluded, wanted, draws, selected)
}

/// The training of a list of skills, each at the tier `Trained`.
pub open spec fn trained_in(skills: Seq<Skill>) -> Seq<SkillTraining> {
    skills.map_values(|skill: Skill| SkillTraining { skill, proficiency: Proficiency::Trained })
}

/// The proficiencies of a freshly generated character: trained in
/// perception, the three saves, unarmed attacks and unarmored defense, and
/// in the skills of the background and the additional skills.
pub open spec fn initial_proficiencies(trainings: Seq<Skill>, selected: Seq<Skill>)
    -> ProficienciesView {
    ProficienciesView {
        perception: Proficiency::Trained,
        fortitude_save: Proficiency::Trained,
        reflex_save: Proficiency::Trained,
        will_save: Proficiency::Trained,
        unarmed: Proficiency::Trained,
        unarmored_defense: Proficiency::Trained,
        skills: trained_in(without_repeats(trainings) + selected),
        ..ProficienciesView::untrained()
    }
}

/// The skills that a freshly generated character is trained in are all
/// different: those of its background, each once, and the additional ones,
/// none of which is a skill of the background.
pub proof fn lemma_trained_skills_are_distinct(
    trainings: Seq<Skill>,
    wanted: int,
    selected: Seq<Skill>,
)
    requires
        skills_selected(trainings, wanted, selected),
    ensures
        skill_ids(without_repeats(trainings) + selected).no_duplicates(),
        (without_repeats(trainings) + selected).len() == without_repeats(trainings).len()
            + selected.len(),
{
    let kept = without_repeats(trainings);
    let all = kept + selected;
    lemma_without_repeats(trainings);
    assert forall|i: int, j: int| 0 <= i < all.len() && 0 <= j < all.len() && i != j implies skill_ids(
        all,
    )[i] != skill_ids(all)[j] by {
        if i < kept.len() && j < kept.len() {
            assert(skill_ids(kept)[i] != skill_ids(kept)[j]);
        } else if i >= kept.len() && j >= kept.len() {
            assert(skill_ids(selected)[i - kept.len()] != skill_ids(selected)[j - kept.len()]);
        } else {
            let (k, s) = if i < kept.len() {
                (i, j - kept.len())
            } else {
                (j, i - kept.len())
            };
            if skill_ids(kept)[k] == skill_ids(selected)[s] {
                assert(skill_ids(kept).contains(selected[s].id()));
                assert(skill_ids(trainings).contains(selected[s].id()));
            }
        }
    }
}

/// The skills of `trainings`, each once, in the order of their first occurrence.
pub fn distinct_skills(trainings: &Vec<Skill>) -> (kept: Vec<Skill>)
    ensures
        kept@ == without_repeats(trainings@),
{
    let mut kept: Vec<Skill> = Vec::new();
    let mut i: usize = 0;
    while i < trainings.len()
        invariant
            i <= trainings.len(),
            kept@ == without_repeats(trainings@.take(i as int)),
        decreases trainings.len() - i,
    {
        proof {
            assert(trainings@.take(i as int + 1).drop_last() =~= trainings@.take(i as int));
        }
        if !has_skill(&kept, &trainings[i]) {
            kept.push(trainings[i].clone());
        }
        i += 1;
    }
    proof {
        assert(trainings@.take(i as int) =~= trainings@);
    }
    kept
}

/// Builds the proficiencies of a freshly generated character.
pub fn derive_proficiencies(trainings: &Vec<Skill>, selected: &Vec<Skill>) -> (derived:
    Proficiencies)
    ensures
        derived@ == initial_proficiencies(trainings@, selected@),
{
    let mut proficiencies = Proficiencies::default();
    let kept = distinct_skills(trainings);
    let mut i: usize = 0;
    proof {
        assert(trained_in(kept@.take(0)) =~= Seq::<SkillTraining>::empty());
    }
    while i < kept.len()
        invariant
            i <= kept.len(),
            proficiencies@ == (ProficienciesView {
                skills: trained_in(kept@.take(i as int)),
                ..ProficienciesView::untrained()
            }),
        decreases kept.len() - i,
    {
        proficiencies.skills.push(
            SkillTraining { skill: kept[i].clone(), proficiency: Proficiency::Trained },
        );
        proof {
            assert(trained_in(kept@.take(i as int + 1)) =~= trained_in(kept@.take(i as int)).push(
                SkillTraining { skill: kept@[i as int], proficiency: Proficiency::Trained },
            ));
        }
        i += 1;
    }
    let mut j: usize = 0;
    proof {
        assert(kept@.take(i as int) =~= kept@);
        assert(kept@ + selected@.take(0) =~= kept@);
    }
    while j < selected.len()
        invariant
            j <= selected.len(),
            proficiencies@ == (ProficienciesView {
                skills: trained_in(kept@ + selected@.take(j as int)),
                ..ProficienciesView::untrained()
            }),
        decreases selected.len() - j,
    {
        proficiencies.skills.push(
            SkillTraining { skill: selected[j].clone(), proficiency: Proficiency::Trained },
        );
        proof {
            assert(trained_in(kept@ + selected@.take(j as int + 1)) =~= trained_in(
                kept@ + selected@.take(j as int),
            ).push(SkillTraining { skill: selected@[j as int], proficiency: Proficiency::Trained }));
        }
        j += 1;
    }
    proof {
        assert(selected@.take(j as int) =~= selected@);
    }
    proficiencies.perception = Proficiency::Trained;
    proficiencies.fortitude_save = Proficiency::Trained;
    proficiencies.will_save = Proficiency::Trained;
    proficiencies.reflex_save = Proficiency::Trained;
    proficiencies.unarmed = Proficiency::Trained;
    proficiencies.unarmored_defense = Proficiency::Trained;
    proficiencies
}

/// The modifier of a skill: the score of its governing ability plus the
/// bonus of its training.
pub open spec fn skill_modifier(
    training: SkillTraining,
    attributes: AbilityStats,
    level: int,
) -> int {
    attributes.score(training.skill.governing_ability()) + training.proficiency.bonus(level)
}

/// The skills of a character with the modifier of each.
pub open spec fn skill_modifiers(
    trainings: Seq<SkillTraining>,
    attributes: AbilityStats,
    level: int,
) -> Seq<(Skill, i16)> {
    trainings.map_values(
        |training: SkillTraining|
            (training.skill, skill_modifier(training, attributes, level) as i16),
    )
}

/// Computes the modifier of each skill a character is trained in.
pub fn compute_skill_modifiers(
    trainings: &Vec<SkillTraining>,
    attributes: &AbilityStats,
    level: i8,
) -> (skills: Vec<(Skill, i16)>)
    ensures
        skills@ == skill_modifiers(trainings@, *attributes, level as int),
        forall|i: int|
            0 <= i < skills@.len() ==> (#[trigger] skills@[i]).1 == skill_modifier(
                trainings@[i],
                *attributes,
                level as int,
            ),
{
    let mut skills: Vec<(Skill, i16)> = Vec::new();
    let mut i: usize = 0;
    while i < trainings.len()
        invariant
            i <= trainings.len(),
            skills@ =~= skill_modifiers(trainings@.take(i as int), *attributes, level as int),
            forall|k: int|
                0 <= k < skills@.len() ==> (#[trigger] skills@[k]).1 == skill_modifier(
                    trainings@[k],
                    *attributes,
                    level as int,
                ),
        decreases trainings.len() - i,
    {
        let training = &trainings[i];
        let score: i16 = attributes.get_ability(training.skill.ability()) as i16;
        let bonus: i16 = training.proficiency.wide_bonus_for_level(level);
        skills.push((training.skill.clone(), score + bonus));
        proof {
            assert(trainings@.take(i as int + 1) =~= trainings@.take(i as int).push(
                trainings@[i as int],
            ));
        }
        i += 1;
    }
    proof {
        assert(trainings@.take(i as int) =~= trainings@);
    }
    skills
}

/// Whether `derived` is `before` with the mechanical numbers of a freshly
/// generated character filled in: from the scores, the training and the
/// level, and from the ancestry's speed and base hit points. Reflex and will
/// take their bonus from the training in fortitude.
pub open spec fn stats_derived(
    ancestry: AncestryView,
    before: StatblockView,
    attributes: AbilityStats,
    proficiencies: ProficienciesView,
    derived: StatblockView,
) -> bool {
    let level = before.level as int;
    derived == (StatblockView {
        perception: (attributes.wisdom + proficiencies.perception.bonus(level)) as i16,
        fortitude_save: (attributes.constitution + proficiencies.fortitude_save.bonus(level)) as i16,
        reflex_save: (attributes.dexterity + proficiencies.fortitude_save.bonus(level)) as i16,
        will_save: (attributes.wisdom + proficiencies.fortitude_save.bonus(level)) as i16,
        armor_class: (attributes.dexterity + proficiencies.unarmored_defense.bonus(level)) as i16,
        land_speed: ancestry.speed,
        skills: skill_modifiers(proficiencies.skills, attributes, level),
        attributes,
        proficiencies,
        hit_points: (ancestry.base_hp + attributes.constitution) as i32,
        ..before
    })
}

/// Whether `generated` is a statblock that random generation can make of
/// `before` for the ancestry and the background: some allocation of the
/// ability scores; some selection of additional skills, as many as the
/// intelligence calls for unless the budget of draws was spent; and the
/// numbers that follow from them.
pub open spec fn stats_generated(
    ancestry: AncestryView,
    trainings: Seq<Skill>,
    before: StatblockView,
    generated: StatblockView,
) -> bool {
    exists|
        applied: Seq<AbilityBoost>,
        first_round: Seq<Ability>,
        second_round: Seq<Ability>,
        selected: Seq<Skill>,
    |
        #![trigger
            scores_allocated(
                ancestry.ability_modifications,
                generated.attributes,
                applied,
                first_round,
                second_round,
            ),
            skills_selected(
                trainings,
                additional_skill_count(generated.attributes.intelligence as int),
                selected,
            )
        ]
        {
            &&& scores_allocated(
                ancestry.ability_modifications,
                generated.attributes,
                applied,
                first_round,
                second_round,
            )
            &&& skills_selected(
                trainings,
                additional_skill_count(generated.attributes.intelligence as int),
                selected,
            )
            &&& selection_drawn(
                trainings,
                additional_skill_count(generated.attributes.intelligence as int),
                selected,
            )
            &&& stats_derived(
                ancestry,
                before,
                generated.attributes,
                initial_proficiencies(trainings, selected),
                generated,
            )
        }
}

/// What every randomly generated statblock satisfies: its ability scores
/// lie between minus one and three; on a regular program they add up to the
/// boosts of the program, less its flaws, plus its free steps, plus eight;
/// its hit points are the base hit points of the ancestry plus its
/// constitution, and its speed is that of the ancestry.
pub proof fn lemma_stats_generated(
    ancestry: AncestryView,
    trainings: Seq<Skill>,
    before: StatblockView,
    generated: StatblockView,
)
    requires
        stats_generated(ancestry, trainings, before, generated),
    ensures
        crate::allocation::scores_within(generated.attributes, -1, 3),
        crate::allocation::regular(ancestry.ability_modifications) ==> generated.attributes.total()
            == crate::allocation::count_boosts(ancestry.ability_modifications)
            - crate::allocation::count_flaws(ancestry.ability_modifications)
            + crate::allocation::count_free(ancestry.ability_modifications) + 8,
        generated.hit_points == ancestry.base_hp + generated.attributes.constitution,
        generated.land_speed == ancestry.speed,
{
    let (applied, first_round, second_round, selected) = choose|
        applied: Seq<AbilityBoost>,
        first_round: Seq<Ability>,
        second_round: Seq<Ability>,
        selected: Seq<Skill>,
    |
        #![trigger
            scores_allocated(
                ancestry.ability_modifications,
                generated.attributes,
                applied,
                first_round,
                second_round,
            ),
            skills_selected(
                trainings,
                additional_skill_count(generated.attributes.intelligence as int),
                selected,
            )
        ]
        {
            &&& scores_allocated(
                ancestry.ability_modifications,
                generated.attributes,
                applied,
                first_round,
                second_round,
            )
            &&& skills_selected(
                trainings,
                additional_skill_count(generated.attributes.intelligence as int),
                selected,
            )
            &&& selection_drawn(
                trainings,
                additional_skill_count(generated.attributes.intelligence as int),
                selected,
            )
            &&& stats_derived(
                ancestry,
                before,
                generated.attributes,
                initial_proficiencies(trainings, selected),
                generated,
            )
        };
    if crate::allocation::regular(ancestry.ability_modifications) {
        crate::allocation::lemma_total_of_allocation(
            ancestry.ability_modifications,
            generated.attributes,
            applied,
            first_round,
            second_round,
        );
    }
    assert(-1 <= generated.attributes.score(Ability::Constitution) <= 3);
}

/// Generates the mechanical numbers of a character at random.
///
/// Allocates the ability scores, selects the additional skills, and derives
/// proficiencies, skill modifiers, perception, saves, armor class, hit
/// points and speed. Everything else is taken over from `pre_statblock`.
///
/// Fails only where the allocation of the ability scores fails: where the
/// ancestry's program runs dry, which it never does where its free steps
/// stand among its first six steps.
pub fn generate_stats(
    stats_rng: &mut rand::rngs::StdRng,
    ancestry: &Ancestry,
    _heritage: Option<&Heritage>,
    background: &Background,
    pre_statblock: &Statblock,
) -> (generated: Result<Statblock, GenerationError>)
    ensures
        free_steps_in_reach(ancestry@.ability_modifications) ==> generated is Ok,
        match generated {
            Ok(statblock) => stats_generated(
                ancestry@,
                background@.trainings,
                pre_statblock@,
                statblock@,
            ),
            Err(error) => error == GenerationError::AbilityGenerationError(AbilityGenerationError)
                && can_run_dry(ancestry@.ability_modifications),
        },
{
    let level = pre_statblock.level();
    let allocation = match allocate_abilities(stats_rng, ancestry.ability_modifications().iter()) {
        Ok(allocation) => allocation,
        Err(error) => {
            return Err(GenerationError::AbilityGenerationError(error));
        },
    };
    let attributes = allocation.attributes;
    assert(-1 <= attributes.score(Ability::Intelligence) <= 3);
    let additional_skills: usize = (2 + attributes.intelligence) as usize;
    let selected = match select_skills(stats_rng, &background.trainings, additional_skills) {
        Ok(selected) => selected,
        Err(error) => {
            return Err(GenerationError::SkillGenerationError(error));
        },
    };
    let proficiencies = derive_proficiencies(&background.trainings, &selected);
    let skills = compute_skill_modifiers(&proficiencies.skills, &attributes, level);
    let hit_points: i32 = (ancestry.base_hp() as i32) + (attributes.constitution as i32);

    let mut statblock = pre_statblock.clone();
    statblock.set_perception(
        attributes.wisdom as i16 + proficiencies.perception.wide_bonus_for_level(level),
    );
    statblock.set_fortitude_save(
        attributes.constitution as i16 + proficiencies.fortitude_save.wide_bonus_for_level(level),
    );
    statblock.set_reflex_save(
        attributes.dexterity as i16 + proficiencies.fortitude_save.wide_bonus_for_level(level),
    );
    statblock.set_will_save(
        attributes.wisdom as i16 + proficiencies.fortitude_save.wide_bonus_for_level(level),
    );
    statblock.set_armor_class(
        attributes.dexterity as i16 + proficiencies.unarmored_defense.wide_bonus_for_level(level),
    );
    statblock.set_land_speed(ancestry.speed());
    statblock.set_skills(skills);
    statblock.set_attributes(attributes);
    statblock.set_proficiencies(proficiencies);
    statblock.set_hit_points(hit_points);
    proof {
        assert(-1 <= attributes.score(Ability::Wisdom) <= 3);
        assert(-1 <= attributes.score(Ability::Constitution) <= 3);
        assert(-1 <= attributes.score(Ability::Dexterity) <= 3);
        assert(stats_derived(
            ancestry@,
            pre_statblock@,
            attributes,
            initial_proficiencies(background@.trainings, selected@),
            statblock@,
        ));
        assert(scores_allocated(
            ancestry@.ability_modifications,
            statblock@.attributes,
            allocation.ancestry_round@,
            allocation.first_round@,
            allocation.second_round@,
        ));
        assert(skills_selected(
            background@.trainings,
            additional_skill_count(statblock@.attributes.intelligence as int),
            selected@,
        ));
        assert(selection_drawn(
            background@.trainings,
            additional_skill_count(statblock@.attributes.intelligence as int),
            selected@,
        ));
    }
    Ok(statblock)
}

} // verus!
