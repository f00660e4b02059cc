//! Languages.

use crate::named_element::NamedElement;
use crate::traits::Trait;
use vstd::prelude::*;

verus! {

/// A language a character may speak.
#[derive(Debug)]
pub struct Language {
    traits: Vec<Trait>,
    name: String,
}

/// The plain values of a `Language`.
pub struct LanguageView {
    pub traits: Seq<Trait>,
    pub name: Seq<char>,
}

impl View for Language {
    type V = LanguageView;

    closed spec fn view(&self) -> LanguageView {
        LanguageView { traits: self.traits@, name: self.name@ }
    }
}

impl Clone for Language {
    fn clone(&self) -> (copy: Self)
        ensures
            copy@ == self@,
    {
        let traits = self.traits.clone();
        assert(traits@ =~= self.traits@);
        Language { traits, name: self.name.clone() }
    }
}

impl Language {
    /// The language with the given traits and name.
    pub fn new(traits: Vec<Trait>, name: &str) -> (made: Self)
        ensures
            made@ == (LanguageView { traits: traits@, name: name@ }),
    {
        Language { traits, name: String::from_str(name) }
    }
}

impl NamedElement for Language {
    open spec fn element_traits(&self) -> Seq<Trait> {
        self@.traits
    }

    open spec fn element_name(&self) -> Seq<char> {
        self@.name
    }

    open spec fn element_formatted_name(&self) -> Seq<char> {
        self@.name
    }

    fn traits(&self) -> (traits: &[Trait]) {
        self.traits.as_slice()
    }

    fn name(&self) -> (name: &str) {
        self.name.as_str()
    }

    fn formatted_name(&self) -> (name: String) {
        self.name.clone()
    }
}

/// A fresh copy of a list of languages.
pub fn copy_languages(languages: &Vec<Language>) -> (copy: Vec<Language>)
    ensures
        language_views(copy@) == language_views(languages@),
{
    let mut copy: Vec<Language> = Vec::new();
    let mut i: usize = 0;
    while i < languages.len()
        invariant
            i <= languages.len(),
            copy@.len() == i,
            forall|j: int| 0 <= j < i ==> copy@[j]@ == languages@[j]@,
        decreases languages.len() - i,
    {
        copy.push(languages[i].clone());
        i += 1;
    }
    assert(language_views(copy@) =~= language_views(languages@));
    copy
}

/// The plain values of a sequence of languages.
pub open spec fn language_views(languages: Seq<Language>) -> Seq<LanguageView> {
    languages.map_values(|l: Language| l@)
}

} // verus!
