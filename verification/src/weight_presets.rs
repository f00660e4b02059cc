//! Weight presets: named sets of weights that replace the stored ones in a draw.

use crate::newtypes::TableView;
use crate::newtypes::WeightMap;
use vstd::prelude::*;

verus! {

/// A named set of overrides for the weights of ancestries and heritages,
/// each keyed by the name of what it re-weights.
#[derive(Debug)]
pub struct WeightPreset {
    name: String,
    ancestry_weights: WeightMap<String>,
    heritage_weights: WeightMap<String>,
}

/// The plain values of a `WeightPreset`.
pub struct WeightPresetView {
    pub name: Seq<char>,
    pub ancestry_weights: TableView<String>,
    pub heritage_weights: TableView<String>,
}

impl View for WeightPreset {
    type V = WeightPresetView;

    closed spec fn view(&self) -> WeightPresetView {
        WeightPresetView {
            name: self.name@,
            ancestry_weights: self.ancestry_weights.rows(),
            heritage_weights: self.heritage_weights.rows(),
        }
    }
}

impl PartialEq for WeightPreset {
    /// Two presets are the same preset where they carry the same name.
    fn eq(&self, other: &Self) -> (same: bool) {
        self.name == other.name
    }
}

impl Eq for WeightPreset {

}

impl vstd::std_specs::cmp::PartialEqSpecImpl for WeightPreset {
    open spec fn obeys_eq_spec() -> bool {
        true
    }

    open spec fn eq_spec(&self, other: &Self) -> bool {
        self@.name == other@.name
    }
}

impl Clone for WeightPreset {
    fn clone(&self) -> (copy: Self)
        ensures
            copy@ == self@,
    {
        WeightPreset {
            name: self.name.clone(),
            ancestry_weights: self.ancestry_weights.clone(),
            heritage_weights: self.heritage_weights.clone(),
        }
    }
}

/// The rows of a table that may be absent; an absent table has no rows.
pub open spec fn rows_or_none(table: Option<WeightMap<String>>) -> TableView<String> {
    match table {
        Some(table) => table.rows(),
        None => TableView { keys: Seq::empty(), weights: Seq::empty() },
    }
}

fn table_or_empty(table: Option<WeightMap<String>>) -> (present: WeightMap<String>)
    ensures
        present.rows() == rows_or_none(table),
{
    match table {
        Some(table) => table,
        None => WeightMap::new(),
    }
}

impl WeightPreset {
    /// The preset with the given name and overrides. Overrides that are
    /// left out override nothing.
    pub fn new(
        name: &str,
        ancestry_weights: Option<WeightMap<String>>,
        heritage_weights: Option<WeightMap<String>>,
    ) -> (made: Self)
        ensures
            made@ == (WeightPresetView {
                name: name@,
                ancestry_weights: rows_or_none(ancestry_weights),
                heritage_weights: rows_or_none(heritage_weights),
            }),
    {
        WeightPreset {
            name: String::from_str(name),
            ancestry_weights: table_or_empty(ancestry_weights),
            heritage_weights: table_or_empty(heritage_weights),
        }
    }

    pub fn name(&self) -> (name: &str)
        ensures
            name@ == self@.name,
    {
        self.name.as_str()
    }

    pub fn ancestry_weights(&self) -> (weights: &WeightMap<String>)
        ensures
            weights.rows() == self@.ancestry_weights,
    {
        &self.ancestry_weights
    }

    pub fn heritage_weights(&self) -> (weights: &WeightMap<String>)
        ensures
            weights.rows() == self@.heritage_weights,
    {
        &self.heritage_weights
    }

    /// Whether two presets carry the same name.
    pub fn same(&self, other: &WeightPreset) -> (same: bool)
        ensures
            same == (self@.name == other@.name),
    {
        self.name == other.name
    }
}

} // verus!
