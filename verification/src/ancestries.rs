//! Which ancestries a heritage may be combined with.

use vstd::prelude::*;

verus! {

/// The ancestries a heritage is meant for.
#[derive(Debug)]
pub enum ValidAncestries {
    /// Any ancestry.
    Any,
    /// An ancestry with all of the named traits.
    AllOf(Vec<String>),
    /// One of the named ancestries.
    Only(Vec<String>),
}

/// The plain values of a `ValidAncestries`.
pub enum ValidAncestriesView {
    Any,
    AllOf(Seq<String>),
    Only(Seq<String>),
}

impl View for ValidAncestries {
    type V = ValidAncestriesView;

    open spec fn view(&self) -> ValidAncestriesView {
        match self {
            ValidAncestries::Any => ValidAncestriesView::Any,
            ValidAncestries::AllOf(names) => ValidAncestriesView::AllOf(names@),
            ValidAncestries::Only(names) => ValidAncestriesView::Only(names@),
        }
    }
}

impl Clone for ValidAncestries {
    fn clone(&self) -> (copy: Self)
        ensures
            copy@ == self@,
    {
        match self {
            ValidAncestries::Any => ValidAncestries::Any,
            ValidAncestries::AllOf(names) => {
                let copy = names.clone();
                assert(copy@ =~= names@);
                ValidAncestries::AllOf(copy)
            },
            ValidAncestries::Only(names) => {
                let copy = names.clone();
                assert(copy@ =~= names@);
                ValidAncestries::Only(copy)
            },
        }
    }
}

} // verus!
