//! Backgrounds: what a character did before.

use crate::named_element::NamedElement;
use crate::newtypes::WeightKey;
use crate::skills::has_skill;
use crate::skills::skill_ids;
use crate::skills::Skill;
use crate::traits::Trait;
use vstd::prelude::*;

verus! {

/// A background, with the skills it trains.
#[derive(Debug)]
pub struct Background {
    pub name: String,
    pub traits: Vec<Trait>,
    pub trainings: Vec<Skill>,
}

/// The plain values of a `Background`.
pub struct BackgroundView {
    pub name: Seq<char>,
    pub traits: Seq<Trait>,
    pub trainings: Seq<Skill>,
}

impl View for Background {
    type V = BackgroundView;

    open spec fn view(&self) -> BackgroundView {
        BackgroundView { name: self.name@, traits: self.traits@, trainings: self.trainings@ }
    }
}

impl PartialEq for Background {
    /// Two backgrounds are the same background where they carry the same name.
    fn eq(&self, other: &Self) -> (same: bool) {
        self.name == other.name
    }
}

impl Eq for Background {

}

impl vstd::std_specs::cmp::PartialEqSpecImpl for Background {
    open spec fn obeys_eq_spec() -> bool {
        true
    }

    open spec fn eq_spec(&self, other: &Self) -> bool {
        self.name@ == other.name@
    }
}

impl Clone for Background {
    fn clone(&self) -> (copy: Self)
        ensures
            copy@ == self@,
    {
        let traits = self.traits.clone();
        let trainings = self.trainings.clone();
        assert(traits@ =~= self.traits@);
        assert(trainings@ =~= self.trainings@);
        Background { name: self.name.clone(), traits, trainings }
    }
}

impl WeightKey for Background {
    type Id = Seq<char>;

    open spec fn id(&self) -> Seq<char> {
        self.name@
    }

    fn same_key(&self, other: &Self) -> (same: bool) {
        self.name == other.name
    }
}

/// The skills of `trainings` without repetition: each skill where it first occurs.
pub open spec fn without_repeats(trainings: Seq<Skill>) -> Seq<Skill>
    decreases trainings.len(),
{
    if trainings.len() == 0 {
        Seq::empty()
    } else if skill_ids(without_repeats(trainings.drop_last())).contains(trainings.last().id()) {
        without_repeats(trainings.drop_last())
    } else {
        without_repeats(trainings.drop_last()).push(trainings.last())
    }
}

/// `without_repeats` holds no skill twice, and holds a skill exactly where
/// the list it was made from holds it.
pub proof fn lemma_without_repeats(trainings: Seq<Skill>)
    ensures
        skill_ids(without_repeats(trainings)).no_duplicates(),
        forall|skill: Skill| #[trigger]
            skill_ids(without_repeats(trainings)).contains(skill.id()) <==> skill_ids(
                trainings,
            ).contains(skill.id()),
    decreases trainings.len(),
{
    let kept = without_repeats(trainings);
    if trainings.len() > 0 {
        let front = trainings.drop_last();
        let last = trainings.last();
        lemma_without_repeats(front);
        let kept_front = without_repeats(front);
        assert forall|skill: Skill| #[trigger]
            skill_ids(kept).contains(skill.id()) <==> skill_ids(trainings).contains(
                skill.id(),
            ) by {
            if skill_ids(kept).contains(skill.id()) {
                let i = choose|i: int| 0 <= i < kept.len() && skill_ids(kept)[i] == skill.id();
                if i < kept_front.len() {
                    assert(skill_ids(kept_front)[i] == skill.id());
                    assert(skill_ids(kept_front).contains(skill.id()));
                    let j = choose|j: int|
                        0 <= j < front.len() && skill_ids(front)[j] == skill.id();
                    assert(skill_ids(trainings)[j] == skill.id());
                } else {
                    assert(skill_ids(trainings)[trainings.len() - 1] == skill.id());
                }
            }
            if skill_ids(trainings).contains(skill.id()) {
                let j = choose|j: int|
                    0 <= j < trainings.len() && skill_ids(trainings)[j] == skill.id();
                if j < front.len() {
                    assert(skill_ids(front)[j] == skill.id());
                    assert(skill_ids(kept_front).contains(skill.id()));
                    let i = choose|i: int|
                        0 <= i < kept_front.len() && skill_ids(kept_front)[i] == skill.id();
                    assert(skill_ids(kept)[i] == skill.id());
                } else if skill_ids(kept_front).contains(last.id()) {
                    let i = choose|i: int|
                        0 <= i < kept_front.len() && skill_ids(kept_front)[i] == last.id();
                    assert(skill_ids(kept)[i] == skill.id());
                } else {
                    assert(skill_ids(kept)[kept.len() - 1] == skill.id());
                }
            }
        }
        if !skill_ids(kept_front).contains(last.id()) {
            assert forall|i: int, j: int|
                0 <= i < kept.len() && 0 <= j < kept.len() && i != j implies skill_ids(kept)[i]
                != skill_ids(kept)[j] by {
                if i < kept_front.len() && j < kept_front.len() {
                    assert(skill_ids(kept_front)[i] != skill_ids(kept_front)[j]);
                } else if i < kept_front.len() {
                    assert(skill_ids(kept_front)[i] == skill_ids(kept)[i]);
                } else {
                    assert(skill_ids(kept_front)[j] == skill_ids(kept)[j]);
                }
            }
        }
    }
}

impl Background {
    /// The background with the given name and traits, trained in each of
    /// the given skills once.
    pub fn new(name: &str, traits: Vec<Trait>, trainings: Vec<Skill>) -> (made: Self)
        ensures
            made@.name == name@,
            made@.traits == traits@,
            made@.trainings == without_repeats(trainings@),
    {
        let mut kept: Vec<Skill> = Vec::new();
        let ghost all = trainings@;
        for skill in iter: trainings
            invariant
                iter.seq() == all,
                kept@ == without_repeats(all.take(iter.index() as int)),
        {
            proof {
                assert(all.take(iter.index() as int + 1).drop_last() =~= all.take(
                    iter.index() as int,
                ));
            }
            if !has_skill(&kept, &skill) {
                kept.push(skill);
            }
        }
        proof {
            assert(all.take(all.len() as int) =~= all);
        }
        Background { name: String::from_str(name), traits, trainings: kept }
    }
}

impl NamedElement for Background {
    open spec fn element_traits(&self) -> Seq<Trait> {
        self.traits@
    }

    open spec fn element_name(&self) -> Seq<char> {
        self.name@
    }

    open spec fn element_formatted_name(&self) -> Seq<char> {
        self.name@
    }

    fn traits(&self) -> (traits: &[Trait]) {
        self.traits.as_slice()
    }

    fn name(&self) -> (name: &str) {
        self.name.as_str()
    }

    fn formatted_name(&self) -> (name: String) {
        self.name.clone()
    }
}

} // verus!
