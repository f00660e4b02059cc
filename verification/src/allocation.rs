//! Ability allocation: the ancestry's program, then two rounds of free boosts.
//!
//! Within a round no ability is touched twice. The rounds are the
//! ancestry's program and each of the two rounds of free boosts.

use crate::ability::Ability;
use crate::ability::AbilityBoost;
use crate::errors::AbilityGenerationError;
use crate::random::pick;
use crate::statblock::AbilityStats;
use vstd::prelude::*;

verus! {

/// The number of free boosts in each of the two rounds that follow the
/// ancestry's program.
pub const FREE_BOOSTS_PER_ROUND: usize = 4;

/// The ability that an applied step touches. Applied steps are boosts and
/// flaws; a free step is applied as the boost it was resolved to.
pub open spec fn touched_by(step: AbilityBoost) -> Ability {
    match step {
        AbilityBoost::Boost(ability) => ability,
        AbilityBoost::Flaw(ability) => ability,
        AbilityBoost::Free => Ability::Charisma,
    }
}

/// The abilities that the applied steps touch, in order.
pub open spec fn touched(applied: Seq<AbilityBoost>) -> Seq<Ability> {
    applied.map_values(|step: AbilityBoost| touched_by(step))
}

/// What one applied step does to the score of `ability`.
pub open spec fn delta(step: AbilityBoost, ability: Ability) -> int {
    match step {
        AbilityBoost::Boost(touched) => if touched == ability {
            1
        } else {
            0
        },
        AbilityBoost::Flaw(touched) => if touched == ability {
            -1
        } else {
            0
        },
        AbilityBoost::Free => 0,
    }
}

/// What the applied steps together do to the score of `ability`.
pub open spec fn net(applied: Seq<AbilityBoost>, ability: Ability) -> int
    decreases applied.len(),
{
    if applied.len() == 0 {
        0
    } else {
        net(applied.drop_last(), ability) + delta(applied.last(), ability)
    }
}

/// The number of boosts among the steps.
pub open spec fn count_boosts(steps: Seq<AbilityBoost>) -> int
    decreases steps.len(),
{
    if steps.len() == 0 {
        0
    } else {
        count_boosts(steps.drop_last()) + if steps.last() is Boost {
            1int
        } else {
            0int
        }
    }
}

/// The number of flaws among the steps.
pub open spec fn count_flaws(steps: Seq<AbilityBoost>) -> int
    decreases steps.len(),
{
    if steps.len() == 0 {
        0
    } else {
        count_flaws(steps.drop_last()) + if steps.last() is Flaw {
            1int
        } else {
            0int
        }
    }
}

/// The number of free steps among the steps.
pub open spec fn count_free(steps: Seq<AbilityBoost>) -> int
    decreases steps.len(),
{
    if steps.len() == 0 {
        0
    } else {
        count_free(steps.drop_last()) + if steps.last() is Free {
            1int
        } else {
            0int
        }
    }
}

/// Whether `applied` is a way to run `program`: step by step, a boost or a
/// flaw of an ability that the round has touched already is skipped, any
/// other boost or flaw is applied as it stands, and a free step is applied
/// as a boost of an ability that the round has not touched yet.
pub open spec fn runs(program: Seq<AbilityBoost>, applied: Seq<AbilityBoost>) -> bool
    decreases program.len(),
{
    if program.len() == 0 {
        applied.len() == 0
    } else {
        let step = program.last();
        ||| {
            &&& !(step is Free)
            &&& touched(applied).contains(touched_by(step))
            &&& runs(program.drop_last(), applied)
        }
        ||| {
            &&& applied.len() > 0
            &&& runs(program.drop_last(), applied.drop_last())
            &&& !touched(applied.drop_last()).contains(touched_by(applied.last()))
            &&& if step is Free {
                applied.last() is Boost
            } else {
                applied.last() == step
            }
        }
    }
}

/// Whether a program never asks twice for the same ability and leaves its
/// free steps to the end.
pub open spec fn regular(program: Seq<AbilityBoost>) -> bool {
    &&& forall|i: int, j: int|
        0 <= i < j < program.len() && !(program[i] is Free) && !(program[j] is Free)
            ==> touched_by(program[i]) != touched_by(program[j])
    &&& forall|i: int, j: int|
        0 <= i < j < program.len() && program[i] is Free ==> program[j] is Free
}

/// Whether every free step of a program stands among its first six steps,
/// so that an ability is left for it whatever came before.
pub open spec fn free_steps_in_reach(program: Seq<AbilityBoost>) -> bool {
    forall|i: int| 0 <= i < program.len() && program[i] is Free ==> i < 6
}

/// Whether some run of the program comes to a free step after it has
/// touched all six abilities, so that nothing is left for the free step.
pub open spec fn can_run_dry(program: Seq<AbilityBoost>) -> bool {
    exists|i: int, applied: Seq<AbilityBoost>|
        0 <= i < program.len() && program[i] is Free && #[trigger] runs(program.take(i), applied)
            && touched(applied).no_duplicates() && touched(applied).len() == 6
}

/// A run applies no more steps than the program has.
pub proof fn lemma_run_is_no_longer(program: Seq<AbilityBoost>, applied: Seq<AbilityBoost>)
    requires
        runs(program, applied),
    ensures
        applied.len() <= program.len(),
    decreases program.len(),
{
    if program.len() > 0 {
        let step = program.last();
        if !(step is Free) && touched(applied).contains(touched_by(step)) && runs(
            program.drop_last(),
            applied,
        ) {
            lemma_run_is_no_longer(program.drop_last(), applied);
        } else {
            lemma_run_is_no_longer(program.drop_last(), applied.drop_last());
        }
    }
}

/// A program whose free steps stand among its first six steps never runs dry.
pub proof fn lemma_free_steps_in_reach_never_run_dry(program: Seq<AbilityBoost>)
    requires
        free_steps_in_reach(program),
    ensures
        !can_run_dry(program),
{
    if can_run_dry(program) {
        let (i, applied) = choose|i: int, applied: Seq<AbilityBoost>|
            0 <= i < program.len() && program[i] is Free && #[trigger] runs(
                program.take(i),
                applied,
            ) && touched(applied).no_duplicates() && touched(applied).len() == 6;
        lemma_run_is_no_longer(program.take(i), applied);
    }
}

/// The scores under which one more step in either direction fits an `i8`.
pub open spec fn scores_within(attributes: AbilityStats, low: int, high: int) -> bool {
    forall|ability: Ability| low <= (#[trigger] attributes.score(ability)) <= high
}

/// The result of an allocation: the scores, and what was applied in each round.
#[derive(Debug)]
pub struct AbilityAllocation {
    /// The six scores after all three rounds.
    pub attributes: AbilityStats,
    /// The steps of the ancestry's program as they were applied.
    pub ancestry_round: Vec<AbilityBoost>,
    /// The abilities boosted in the first round of free boosts.
    pub first_round: Vec<Ability>,
    /// The abilities boosted in the second round of free boosts.
    pub second_round: Vec<Ability>,
}

/// One if the round boosted the ability, zero if it did not.
pub open spec fn boost_in(round: Seq<Ability>, ability: Ability) -> int {
    if round.contains(ability) {
        1
    } else {
        0
    }
}

/// Whether the scores are what three rounds add up to: `applied`, a run of
/// `program` that touches no ability twice, and two rounds of free boosts,
/// each of `FREE_BOOSTS_PER_ROUND` different abilities.
pub open spec fn scores_allocated(
    program: Seq<AbilityBoost>,
    attributes: AbilityStats,
    applied: Seq<AbilityBoost>,
    first_round: Seq<Ability>,
    second_round: Seq<Ability>,
) -> bool {
    &&& runs(program, applied)
    &&& touched(applied).no_duplicates()
    &&& first_round.len() == FREE_BOOSTS_PER_ROUND
    &&& first_round.no_duplicates()
    &&& second_round.len() == FREE_BOOSTS_PER_ROUND
    &&& second_round.no_duplicates()
    &&& forall|ability: Ability|
        (#[trigger] attributes.score(ability)) == net(applied, ability) + boost_in(
            first_round,
            ability,
        ) + boost_in(second_round, ability)
    &&& attributes.total() == count_boosts(applied) - count_flaws(applied) + 2
        * FREE_BOOSTS_PER_ROUND
    &&& scores_within(attributes, -1, 3)
}

impl AbilityAllocation {
    /// Whether the allocation is a run of `program` followed by two rounds
    /// of free boosts, and the scores are what the three rounds add up to.
    pub open spec fn allocated(&self, program: Seq<AbilityBoost>) -> bool {
        scores_allocated(
            program,
            self.attributes,
            self.ancestry_round@,
            self.first_round@,
            self.second_round@,
        )
    }
}

/// Whether `chosen` holds `ability`.
pub fn is_chosen(chosen: &Vec<Ability>, ability: Ability) -> (found: bool)
    ensures
        found == chosen@.contains(ability),
{
    let mut i: usize = 0;
    while i < chosen.len()
        invariant
            i <= chosen.len(),
            forall|j: int| 0 <= j < i ==> chosen@[j] != ability,
        decreases chosen.len() - i,
    {
        if chosen[i] == ability {
            return true;
        }
        i += 1;
    }
    false
}

/// The abilities of `all` that `chosen` does not hold, in the order of `all`.
pub open spec fn left_of(all: Seq<Ability>, chosen: Seq<Ability>) -> Seq<Ability>
    decreases all.len(),
{
    if all.len() == 0 {
        Seq::empty()
    } else if chosen.contains(all.last()) {
        left_of(all.drop_last(), chosen)
    } else {
        left_of(all.drop_last(), chosen).push(all.last())
    }
}

/// What is left holds an ability exactly where `all` holds it and `chosen`
/// does not.
pub proof fn lemma_left_of(all: Seq<Ability>, chosen: Seq<Ability>, ability: Ability)
    ensures
        left_of(all, chosen).contains(ability) <==> (all.contains(ability) && !chosen.contains(
            ability,
        )),
    decreases all.len(),
{
    if all.len() > 0 {
        let front = all.drop_last();
        lemma_left_of(front, chosen, ability);
        let left = left_of(front, chosen);
        if all.contains(ability) {
            let k = choose|k: int| 0 <= k < all.len() && all[k] == ability;
            if k < front.len() {
                assert(front[k] == ability);
            }
        }
        if front.contains(ability) {
            let k = choose|k: int| 0 <= k < front.len() && front[k] == ability;
            assert(all[k] == ability);
        }
        if all.last() == ability {
            assert(all[all.len() - 1] == ability);
        }
        if !chosen.contains(all.last()) {
            let more = left.push(all.last());
            if more.contains(ability) {
                let k = choose|k: int| 0 <= k < more.len() && more[k] == ability;
                if k < left.len() {
                    assert(left[k] == ability);
                }
            }
            if left.contains(ability) {
                let k = choose|k: int| 0 <= k < left.len() && left[k] == ability;
                assert(more[k] == ability);
            }
            if all.last() == ability {
                assert(more[left.len() as int] == ability);
            }
        }
    }
}

/// The abilities that a round has not touched yet, in the fixed order of
/// the six.
pub fn untouched_abilities(chosen: &Vec<Ability>) -> (open: Vec<Ability>)
    ensures
        open@ == left_of(Ability::all(), chosen@),
{
    let all = Ability::values();
    let mut open: Vec<Ability> = Vec::new();
    let mut i: usize = 0;
    proof {
        assert(all@.take(0) =~= Seq::<Ability>::empty());
    }
    while i < all.len()
        invariant
            i <= all.len(),
            all@ == Ability::all(),
            open@ == left_of(all@.take(i as int), chosen@),
        decreases all.len() - i,
    {
        proof {
            assert(all@.take(i as int + 1).drop_last() =~= all@.take(i as int));
            assert(all@.take(i as int + 1).last() == all@[i as int]);
        }
        if !is_chosen(chosen, all[i]) {
            open.push(all[i]);
        }
        i += 1;
    }
    proof {
        assert(all@.take(i as int) =~= all@);
    }
    open
}

/// Draws an ability that the round has not touched yet, each of them
/// equally likely. Fails exactly when the round has touched all six.
pub fn free_ability(rng: &mut rand::rngs::StdRng, chosen: &Vec<Ability>) -> (picked: Result<
    Ability,
    AbilityGenerationError,
>)
    ensures
        match picked {
            Ok(ability) => !chosen@.contains(ability),
            Err(_) => forall|ability: Ability| chosen@.contains(ability),
        },
{
    let open = untouched_abilities(chosen);
    match pick(rng, open.as_slice()) {
        Some(ability) => {
            proof {
                lemma_left_of(Ability::all(), chosen@, *ability);
            }
            Ok(*ability)
        },
        None => {
            proof {
                assert forall|ability: Ability| chosen@.contains(ability) by {
                    Ability::lemma_all_complete(ability);
                    lemma_left_of(Ability::all(), chosen@, ability);
                }
            }
            Err(AbilityGenerationError)
        },
    }
}

/// Adds one point to the score of `ability`.
fn raise(attributes: &mut AbilityStats, ability: Ability)
    requires
        old(attributes).score(ability) < i8::MAX,
    ensures
        *final(attributes) == old(attributes).with(
            ability,
            (old(attributes).score(ability) + 1) as i8,
        ),
        final(attributes).total() == old(attributes).total() + 1,
{
    let score = attributes.get_ability_mut(ability);
    *score = *score + 1;
}

/// Takes one point off the score of `ability`.
fn lower(attributes: &mut AbilityStats, ability: Ability)
    requires
        old(attributes).score(ability) > i8::MIN,
    ensures
        *final(attributes) == old(attributes).with(
            ability,
            (old(attributes).score(ability) - 1) as i8,
        ),
        final(attributes).total() == old(attributes).total() - 1,
{
    let score = attributes.get_ability_mut(ability);
    *score = *score - 1;
}

/// A seq with one more element has no duplicates if it had none and the new
/// element is new.
proof fn lemma_push_no_duplicates(round: Seq<Ability>, ability: Ability)
    requires
        round.no_duplicates(),
        !round.contains(ability),
    ensures
        round.push(ability).no_duplicates(),
        forall|other: Ability|
            round.push(ability).contains(other) <==> (other == ability || round.contains(other)),
{
    let more = round.push(ability);
    assert forall|other: Ability| more.contains(other) <==> (other == ability || round.contains(
        other,
    )) by {
        if more.contains(other) {
            let k = choose|k: int| 0 <= k < more.len() && more[k] == other;
            if k < round.len() {
                assert(round[k] == other);
            }
        }
        if round.contains(other) {
            let k = choose|k: int| 0 <= k < round.len() && round[k] == other;
            assert(more[k] == other);
        }
        if other == ability {
            assert(more[round.len() as int] == other);
        }
    }
}

/// Runs one round of free boosts: `FREE_BOOSTS_PER_ROUND` different
/// abilities, drawn one after the other, each raised by one.
pub fn free_round(rng: &mut rand::rngs::StdRng, attributes: &mut AbilityStats) -> (round: Result<
    Vec<Ability>,
    AbilityGenerationError,
>)
    requires
        scores_within(*old(attributes), i8::MIN as int, i8::MAX - 1),
    ensures
        round is Ok,
        round matches Ok(boosted) ==> {
            &&& boosted@.len() == FREE_BOOSTS_PER_ROUND
            &&& boosted@.no_duplicates()
            &&& forall|ability: Ability|
                (#[trigger] final(attributes).score(ability)) == old(attributes).score(ability)
                    + boost_in(boosted@, ability)
            &&& final(attributes).total() == old(attributes).total() + FREE_BOOSTS_PER_ROUND
        },
{
    let mut boosted: Vec<Ability> = Vec::new();
    let mut drawn: usize = 0;
    while drawn < FREE_BOOSTS_PER_ROUND
        invariant
            drawn <= FREE_BOOSTS_PER_ROUND,
            boosted@.len() == drawn,
            boosted@.no_duplicates(),
            scores_within(*old(attributes), i8::MIN as int, i8::MAX - 1),
            forall|ability: Ability|
                (#[trigger] attributes.score(ability)) == old(attributes).score(ability)
                    + boost_in(boosted@, ability),
            attributes.total() == old(attributes).total() + drawn,
        decreases FREE_BOOSTS_PER_ROUND - drawn,
    {
        match free_ability(rng, &boosted) {
            Ok(ability) => {
                proof {
                    lemma_push_no_duplicates(boosted@, ability);
                    assert(attributes.score(ability) == old(attributes).score(ability));
                }
                let ghost before = *attributes;
                let ghost round_before = boosted@;
                raise(attributes, ability);
                boosted.push(ability);
                proof {
                    assert forall|other: Ability|
                        (#[trigger] attributes.score(other)) == old(attributes).score(other)
                            + boost_in(boosted@, other) by {
                        assert(before.score(other) == old(attributes).score(other) + boost_in(
                            round_before,
                            other,
                        ));
                    }
                }
            },
            Err(error) => {
                proof {
                    assert(false) by {
                        Ability::lemma_all_complete(Ability::Charisma);
                        lemma_all_chosen_is_six(boosted@);
                    }
                }
                return Err(error);
            },
        }
        drawn += 1;
    }
    Ok(boosted)
}

/// A seq without duplicates that holds every ability holds exactly six.
proof fn lemma_all_chosen_is_six(round: Seq<Ability>)
    requires
        round.no_duplicates(),
        forall|ability: Ability| round.contains(ability),
    ensures
        round.len() == 6,
{
    let as_set = round.to_set();
    round.unique_seq_to_set();
    let all = Ability::all().to_set();
    Ability::lemma_all_complete(Ability::Charisma);
    Ability::all().unique_seq_to_set();
    assert(as_set =~= all) by {
        assert forall|ability: Ability| as_set.contains(ability) <==> all.contains(ability) by {
            Ability::lemma_all_complete(ability);
        }
    }
}

/// Whether a round of the ancestry's program is under way: `chosen` are
/// the abilities that `applied` has touched, none of them twice, and the
/// scores are what `applied` has made of scores that were all zero.
pub open spec fn round_under_way(
    attributes: AbilityStats,
    chosen: Seq<Ability>,
    applied: Seq<AbilityBoost>,
) -> bool {
    &&& touched(applied) == chosen
    &&& chosen.no_duplicates()
    &&& forall|ability: Ability| (#[trigger] attributes.score(ability)) == net(applied, ability)
    &&& forall|ability: Ability|
        !chosen.contains(ability) ==> (#[trigger] attributes.score(ability)) == 0
    &&& scores_within(attributes, -1, 1)
    &&& attributes.total() == count_boosts(applied) - count_flaws(applied)
}

/// Applies a boost or a flaw of an ability that the round has not touched.
fn apply_step(
    attributes: &mut AbilityStats,
    chosen: &mut Vec<Ability>,
    applied: &mut Vec<AbilityBoost>,
    step: AbilityBoost,
)
    requires
        round_under_way(*old(attributes), old(chosen)@, old(applied)@),
        !(step is Free),
        !old(chosen)@.contains(touched_by(step)),
    ensures
        round_under_way(*final(attributes), final(chosen)@, final(applied)@),
        final(applied)@ == old(applied)@.push(step),
        final(chosen)@ == old(chosen)@.push(touched_by(step)),
{
    let ghost before = *attributes;
    let ghost applied_before = applied@;
    let ghost chosen_before = chosen@;
    assert(attributes.score(touched_by(step)) == 0);
    match step {
        AbilityBoost::Boost(ability) => {
            raise(attributes, ability);
            chosen.push(ability);
        },
        AbilityBoost::Flaw(ability) => {
            lower(attributes, ability);
            chosen.push(ability);
        },
        AbilityBoost::Free => {},
    }
    applied.push(step);
    proof {
        let ability = touched_by(step);
        assert(applied@.drop_last() =~= applied_before);
        assert(applied@.last() == step);
        assert(touched(applied@) =~= chosen@);
        lemma_push_no_duplicates(chosen_before, ability);
        assert forall|other: Ability| (#[trigger] attributes.score(other)) == net(
            applied@,
            other,
        ) by {
            assert(before.score(other) == net(applied_before, other));
        }
        assert forall|other: Ability| !chosen@.contains(other) implies (
        #[trigger] attributes.score(other)) == 0 by {
            assert(before.score(other) == 0);
        }
        assert forall|other: Ability| -1 <= (#[trigger] attributes.score(other)) <= 1 by {
            assert(-1 <= before.score(other) <= 1);
        }
    }
}

/// Runs the ancestry's program on scores that are all zero: boosts and
/// flaws as written, except that an ability the round has touched is left
/// alone, and each free step as a boost of an ability drawn among those
/// the round has not touched. Returns the steps as they were applied.
///
/// Fails only where the program runs dry: a free step comes when the round
/// has touched all six abilities.
pub fn ancestry_round(
    rng: &mut rand::rngs::StdRng,
    program: &Vec<AbilityBoost>,
    attributes: &mut AbilityStats,
) -> (round: Result<Vec<AbilityBoost>, AbilityGenerationError>)
    requires
        *old(attributes) == AbilityStats::zero(),
    ensures
        round is Err ==> can_run_dry(program@),
        round matches Ok(applied) ==> {
            &&& runs(program@, applied@)
            &&& touched(applied@).no_duplicates()
            &&& forall|ability: Ability|
                (#[trigger] final(attributes).score(ability)) == net(applied@, ability)
            &&& final(attributes).total() == count_boosts(applied@) - count_flaws(applied@)
            &&& scores_within(*final(attributes), -1, 1)
        },
{
    let mut chosen: Vec<Ability> = Vec::new();
    let mut applied: Vec<AbilityBoost> = Vec::new();
    let mut i: usize = 0;
    proof {
        assert(program@.take(0) =~= Seq::<AbilityBoost>::empty());
        assert(touched(applied@) =~= chosen@);
    }
    while i < program.len()
        invariant
            i <= program.len(),
            chosen@.len() <= i,
            round_under_way(*attributes, chosen@, applied@),
            runs(program@.take(i as int), applied@),
        decreases program.len() - i,
    {
        let step = program[i];
        let ghost applied_before = applied@;
        proof {
            assert(program@.take(i as int + 1).drop_last() =~= program@.take(i as int));
            assert(program@.take(i as int + 1).last() == step);
        }
        let resolved: Option<AbilityBoost> = match step {
            AbilityBoost::Boost(ability) => {
                if is_chosen(&chosen, ability) {
                    None
                } else {
                    Some(step)
                }
            },
            AbilityBoost::Flaw(ability) => {
                if is_chosen(&chosen, ability) {
                    None
                } else {
                    Some(step)
                }
            },
            AbilityBoost::Free => {
                match free_ability(rng, &chosen) {
                    Ok(ability) => Some(AbilityBoost::Boost(ability)),
                    Err(error) => {
                        proof {
                            lemma_all_chosen_is_six(chosen@);
                            assert(program@[i as int] is Free);
                            assert(runs(program@.take(i as int), applied@));
                        }
                        return Err(error);
                    },
                }
            },
        };
        match resolved {
            Some(applied_step) => {
                apply_step(attributes, &mut chosen, &mut applied, applied_step);
                proof {
                    assert(applied@.drop_last() =~= applied_before);
                }
            },
            None => {},
        }
        i += 1;
    }
    proof {
        assert(program@.take(i as int) =~= program@);
    }
    Ok(applied)
}

/// Allocates the six ability scores: the ancestry's program first, then two
/// rounds of free boosts.
///
/// Fails only where the program runs dry, which it never does where its
/// free steps stand among its first six steps.
pub fn allocate_abilities(rng: &mut rand::rngs::StdRng, program: &Vec<AbilityBoost>) -> (made:
    Result<AbilityAllocation, AbilityGenerationError>)
    ensures
        made is Err ==> can_run_dry(program@),
        free_steps_in_reach(program@) ==> made is Ok,
        made matches Ok(allocation) ==> allocation.allocated(program@),
{
    proof {
        if free_steps_in_reach(program@) {
            lemma_free_steps_in_reach_never_run_dry(program@);
        }
    }
    let mut attributes = AbilityStats::default();
    let ancestry_round = match ancestry_round(rng, program, &mut attributes) {
        Ok(applied) => applied,
        Err(error) => {
            return Err(error);
        },
    };
    let ghost after_program = attributes;
    let first_round = match free_round(rng, &mut attributes) {
        Ok(boosted) => boosted,
        Err(error) => {
            return Err(error);
        },
    };
    let ghost after_first = attributes;
    proof {
        assert forall|ability: Ability| -1 <= (#[trigger] attributes.score(ability)) <= 2 by {
            assert(-1 <= after_program.score(ability) <= 1);
        }
    }
    let second_round = match free_round(rng, &mut attributes) {
        Ok(boosted) => boosted,
        Err(error) => {
            return Err(error);
        },
    };
    proof {
        assert forall|ability: Ability| -1 <= (#[trigger] attributes.score(ability)) <= 3 by {
            assert(-1 <= after_first.score(ability) <= 2);
        }
        assert forall|ability: Ability|
            (#[trigger] attributes.score(ability)) == net(ancestry_round@, ability) + boost_in(
                first_round@,
                ability,
            ) + boost_in(second_round@, ability) by {
            assert(after_first.score(ability) == after_program.score(ability) + boost_in(
                first_round@,
                ability,
            ));
        }
    }
    Ok(AbilityAllocation { attributes, ancestry_round, first_round, second_round })
}

/// An ability that a run has touched is named by a boost or a flaw of the
/// program, or the program has a free step.
proof fn lemma_touched_comes_from_program(
    program: Seq<AbilityBoost>,
    applied: Seq<AbilityBoost>,
    ability: Ability,
)
    requires
        runs(program, applied),
        touched(applied).contains(ability),
    ensures
        exists|i: int|
            0 <= i < program.len() && (program[i] is Free || touched_by(#[trigger] program[i])
                == ability),
    decreases program.len(),
{
    if program.len() == 0 {
        assert(touched(applied).len() == 0);
    } else {
        let front = program.drop_last();
        let step = program.last();
        if !(step is Free) && touched(applied).contains(touched_by(step)) && runs(front, applied) {
            lemma_touched_comes_from_program(front, applied, ability);
            let i = choose|i: int|
                0 <= i < front.len() && (front[i] is Free || touched_by(#[trigger] front[i])
                    == ability);
            assert(program[i] == front[i]);
        } else {
            let k = choose|k: int| 0 <= k < applied.len() && touched(applied)[k] == ability;
            if k < applied.len() - 1 {
                assert(touched(applied.drop_last())[k] == ability);
                lemma_touched_comes_from_program(front, applied.drop_last(), ability);
                let i = choose|i: int|
                    0 <= i < front.len() && (front[i] is Free || touched_by(#[trigger] front[i])
                        == ability);
                assert(program[i] == front[i]);
            } else {
                assert(touched_by(applied.last()) == ability);
                if !(step is Free) {
                    assert(touched_by(program[program.len() - 1]) == ability);
                } else {
                    assert(program[program.len() - 1] is Free);
                }
            }
        }
    }
}

/// A regular program is applied in full: every boost and flaw as written,
/// and every free step as one more boost.
pub proof fn lemma_regular_program_is_applied_in_full(
    program: Seq<AbilityBoost>,
    applied: Seq<AbilityBoost>,
)
    requires
        runs(program, applied),
        regular(program),
    ensures
        count_boosts(applied) == count_boosts(program) + count_free(program),
        count_flaws(applied) == count_flaws(program),
    decreases program.len(),
{
    if program.len() > 0 {
        let front = program.drop_last();
        let step = program.last();
        let last = program.len() - 1;
        assert(regular(front)) by {
            assert forall|i: int, j: int|
                0 <= i < j < front.len() && !(front[i] is Free) && !(front[j] is Free)
                    implies touched_by(front[i]) != touched_by(front[j]) by {
                assert(program[i] == front[i] && program[j] == front[j]);
            }
            assert forall|i: int, j: int|
                0 <= i < j < front.len() && front[i] is Free implies front[j] is Free by {
                assert(program[i] == front[i] && program[j] == front[j]);
            }
        }
        if !(step is Free) && touched(applied).contains(touched_by(step)) && runs(front, applied) {
            lemma_touched_comes_from_program(front, applied, touched_by(step));
            let i = choose|i: int|
                0 <= i < front.len() && (front[i] is Free || touched_by(#[trigger] front[i])
                    == touched_by(step));
            assert(program[i] == front[i]);
            assert(program[last] == step);
            assert(false);
        } else {
            lemma_regular_program_is_applied_in_full(front, applied.drop_last());
        }
    }
}

/// On a regular program the six scores add up to the boosts of the program,
/// less its flaws, plus one for each free step, plus the eight boosts of the
/// two free rounds.
pub proof fn lemma_total_of_allocation(
    program: Seq<AbilityBoost>,
    attributes: AbilityStats,
    applied: Seq<AbilityBoost>,
    first_round: Seq<Ability>,
    second_round: Seq<Ability>,
)
    requires
        scores_allocated(program, attributes, applied, first_round, second_round),
        regular(program),
    ensures
        attributes.total() == count_boosts(program) - count_flaws(program) + count_free(program)
            + 8,
{
    lemma_regular_program_is_applied_in_full(program, applied);
}

/// Whatever the program, the six scores add up to the boosts that were
/// applied, less the flaws that were applied, plus the eight boosts of the
/// two free rounds; and no round touches an ability twice.
pub proof fn lemma_allocation_rounds(
    program: Seq<AbilityBoost>,
    attributes: AbilityStats,
    applied: Seq<AbilityBoost>,
    first_round: Seq<Ability>,
    second_round: Seq<Ability>,
)
    requires
        scores_allocated(program, attributes, applied, first_round, second_round),
    ensures
        attributes.total() == count_boosts(applied) - count_flaws(applied) + 8,
        touched(applied).no_duplicates(),
        first_round.no_duplicates(),
        second_round.no_duplicates(),
        forall|i: int, j: int|
            0 <= i < j < applied.len() ==> touched_by(applied[i]) != touched_by(applied[j]),
        forall|i: int, j: int| 0 <= i < j < first_round.len() ==> first_round[i] != first_round[j],
        forall|i: int, j: int|
            0 <= i < j < second_round.len() ==> second_round[i] != second_round[j],
{
    assert forall|i: int, j: int| 0 <= i < j < applied.len() implies touched_by(applied[i])
        != touched_by(applied[j]) by {
        assert(touched(applied)[i] != touched(applied)[j]);
    }
}

} // verus!

