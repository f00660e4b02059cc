//! What a caller pins before a character is generated.

use crate::age_range::AgeRange;
use crate::ancestry::Ancestry;
use crate::archetype::Archetype;
use crate::background::Background;
use crate::heritage::Heritage;
use vstd::prelude::*;

verus! {

/// The choices a caller makes for a character. Whatever is left open is
/// drawn at random.
#[derive(Debug)]
pub struct NpcOptions {
    /// The ancestry, if it is pinned.
    pub ancestry: Option<Ancestry>,
    /// The heritage, if it is pinned; `Some(None)` pins a character without
    /// a heritage.
    pub heritage: Option<Option<Heritage>>,
    /// The background, if it is pinned.
    pub background: Option<Background>,
    /// The archetype whose statistics replace random generation, if any.
    pub archetype: Option<Archetype>,
    /// The stage of life, if it is pinned.
    pub age_range: Option<AgeRange>,
    /// The sex, if it is pinned.
    pub sex: Option<String>,
    /// Whether a name and the narrative lines are generated too.
    pub enable_flavor_text: bool,
}

impl Default for NpcOptions {
    fn default() -> (open: Self)
        ensures
            open.ancestry is None,
            open.heritage is None,
            open.background is None,
            open.archetype is None,
            open.age_range is None,
            open.sex is None,
            !open.enable_flavor_text,
    {
        NpcOptions {
            ancestry: None,
            heritage: None,
            background: None,
            archetype: None,
            age_range: None,
            sex: None,
            enable_flavor_text: false,
        }
    }
}

} // verus!
