//! Heritages: a second lineage laid over an ancestry.

use crate::ancestries::ValidAncestries;
use crate::ancestries::ValidAncestriesView;
use crate::archetype::copy_optional_text;
use crate::archetype::optional_text;
use crate::formats::HeritageFormats;
use crate::named_element::NamedElement;
use crate::newtypes::TableView;
use crate::newtypes::WeightKey;
use crate::newtypes::WeightMap;
use crate::traits::Trait;
use vstd::prelude::*;

verus! {

/// A heritage.
#[derive(Debug)]
pub struct Heritage {
    traits: Vec<Trait>,
    name: String,
    lineage: Option<String>,
    prd_reference: Option<String>,
    valid_ancestries: ValidAncestries,
    additional_eye_colors: WeightMap<String>,
    additional_hair_colors: WeightMap<String>,
    force_heterochromia: Option<String>,
    formats: HeritageFormats,
}

/// The plain values of a `Heritage`.
pub struct HeritageView {
    pub traits: Seq<Trait>,
    pub name: Seq<char>,
    pub lineage: Option<Seq<char>>,
    pub prd_reference: Option<Seq<char>>,
    pub valid_ancestries: ValidAncestriesView,
    pub additional_eye_colors: TableView<String>,
    pub additional_hair_colors: TableView<String>,
    pub force_heterochromia: Option<Seq<char>>,
    pub lineage_line: Seq<char>,
}

impl View for Heritage {
    type V = HeritageView;

    closed spec fn view(&self) -> HeritageView {
        HeritageView {
            traits: self.traits@,
            name: self.name@,
            lineage: optional_text(self.lineage),
            prd_reference: optional_text(self.prd_reference),
            valid_ancestries: self.valid_ancestries@,
            additional_eye_colors: self.additional_eye_colors.rows(),
            additional_hair_colors: self.additional_hair_colors.rows(),
            force_heterochromia: optional_text(self.force_heterochromia),
            lineage_line: self.formats.lineage_line@,
        }
    }
}

/// The plain values of a heritage that may be absent.
pub open spec fn optional_heritage(heritage: Option<Heritage>) -> Option<HeritageView> {
    match heritage {
        Some(heritage) => Some(heritage@),
        None => None,
    }
}

impl PartialEq for Heritage {
    /// Two heritages are the same heritage where they carry the same name.
    fn eq(&self, other: &Self) -> (same: bool) {
        self.name == other.name
    }
}

impl Eq for Heritage {

}

impl vstd::std_specs::cmp::PartialEqSpecImpl for Heritage {
    open spec fn obeys_eq_spec() -> bool {
        true
    }

    open spec fn eq_spec(&self, other: &Self) -> bool {
        self@.name == other@.name
    }
}

impl Clone for Heritage {
    fn clone(&self) -> (copy: Self)
        ensures
            copy@ == self@,
    {
        let traits = self.traits.clone();
        assert(traits@ =~= self.traits@);
        Heritage {
            traits,
            name: self.name.clone(),
            lineage: copy_optional_text(&self.lineage),
            prd_reference: copy_optional_text(&self.prd_reference),
            valid_ancestries: self.valid_ancestries.clone(),
            additional_eye_colors: self.additional_eye_colors.clone(),
            additional_hair_colors: self.additional_hair_colors.clone(),
            force_heterochromia: copy_optional_text(&self.force_heterochromia),
            formats: self.formats.clone(),
        }
    }
}

impl WeightKey for Heritage {
    type Id = Seq<char>;

    open spec fn id(&self) -> Seq<char> {
        self@.name
    }

    fn same_key(&self, other: &Self) -> (same: bool) {
        self.name == other.name
    }
}

/// The text of a string slice that may be absent.
pub fn borrow_optional_text(text: &Option<String>) -> (borrowed: Option<&str>)
    ensures
        borrowed is Some <==> text is Some,
        borrowed matches Some(slice) ==> Some(slice@) == optional_text(*text),
{
    match text {
        Some(text) => Some(text.as_str()),
        None => None,
    }
}

impl Heritage {
    /// The heritage with the given values.
    pub fn new(
        traits: Vec<Trait>,
        name: &str,
        lineage: Option<String>,
        valid_ancestries: ValidAncestries,
        additional_eye_colors: WeightMap<String>,
        additional_hair_colors: WeightMap<String>,
        force_heterochromia: Option<String>,
        prd_reference: Option<String>,
        formats: HeritageFormats,
    ) -> (made: Self)
        ensures
            made@ == (HeritageView {
                traits: traits@,
                name: name@,
                lineage: optional_text(lineage),
                prd_reference: optional_text(prd_reference),
                valid_ancestries: valid_ancestries@,
                additional_eye_colors: additional_eye_colors.rows(),
                additional_hair_colors: additional_hair_colors.rows(),
                force_heterochromia: optional_text(force_heterochromia),
                lineage_line: formats.lineage_line@,
            }),
    {
        Heritage {
            traits,
            name: String::from_str(name),
            lineage,
            prd_reference,
            valid_ancestries,
            additional_eye_colors,
            additional_hair_colors,
            force_heterochromia,
            formats,
        }
    }

    pub fn lineage(&self) -> (lineage: Option<&str>)
        ensures
            lineage is Some <==> self@.lineage is Some,
            lineage matches Some(text) ==> Some(text@) == self@.lineage,
    {
        borrow_optional_text(&self.lineage)
    }

    pub fn prd_reference(&self) -> (reference: Option<&str>)
        ensures
            reference is Some <==> self@.prd_reference is Some,
            reference matches Some(text) ==> Some(text@) == self@.prd_reference,
    {
        borrow_optional_text(&self.prd_reference)
    }

    pub fn valid_ancestries(&self) -> (valid: &ValidAncestries)
        ensures
            valid@ == self@.valid_ancestries,
    {
        &self.valid_ancestries
    }

    pub fn additional_eye_colors(&self) -> (colors: &WeightMap<String>)
        ensures
            colors.rows() == self@.additional_eye_colors,
    {
        &self.additional_eye_colors
    }

    pub fn additional_hair_colors(&self) -> (colors: &WeightMap<String>)
        ensures
            colors.rows() == self@.additional_hair_colors,
    {
        &self.additional_hair_colors
    }

    pub fn force_heterochromia(&self) -> (color: Option<&str>)
        ensures
            color is Some <==> self@.force_heterochromia is Some,
            color matches Some(text) ==> Some(text@) == self@.force_heterochromia,
    {
        borrow_optional_text(&self.force_heterochromia)
    }

    pub fn formats(&self) -> (formats: &HeritageFormats)
        ensures
            formats.lineage_line@ == self@.lineage_line,
    {
        &self.formats
    }
}

/// The name of a heritage as it is shown: the name, and after it the lineage
/// in brackets where there is one.
pub open spec fn heritage_formatted_name(heritage: HeritageView) -> Seq<char> {
    match heritage.lineage {
        Some(lineage) => heritage.name + " ("@ + lineage + ")"@,
        None => heritage.name,
    }
}

impl NamedElement for Heritage {
    open spec fn element_traits(&self) -> Seq<Trait> {
        self@.traits
    }

    open spec fn element_name(&self) -> Seq<char> {
        self@.name
    }

    open spec fn element_formatted_name(&self) -> Seq<char> {
        heritage_formatted_name(self@)
    }

    fn traits(&self) -> (traits: &[Trait]) {
        self.traits.as_slice()
    }

    fn name(&self) -> (name: &str) {
        self.name.as_str()
    }

    fn formatted_name(&self) -> (name: String) {
        match &self.lineage {
            Some(lineage) => {
                let mut name = self.name.clone();
                name.append(" (");
                name.append(lineage.as_str());
                name.append(")");
                name
            },
            None => self.name.clone(),
        }
    }
}

} // verus!
