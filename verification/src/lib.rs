//! Procedural generation of non-player characters: weighted tables, the
//! allocation of ability scores, the derivation of proficiencies and
//! skills, and the pipeline that makes a statblock of them.

pub mod ability;
pub mod age_range;
pub mod allocation;
pub mod ancestries;
pub mod ancestry;
pub mod archetype;
pub mod background;
pub mod dice;
pub mod errors;
pub mod flavor;
pub mod formats;
pub mod generators;
pub mod heritage;
pub mod language;
pub mod mutation;
pub mod named_element;
pub mod newtypes;
pub mod npc_options;
pub mod proficiencies;
pub mod random;
pub mod sense;
pub mod sheet;
pub mod size;
pub mod skills;
pub mod statblock;
pub mod text;
pub mod training;
pub mod traits;
pub mod weight_presets;
pub mod weighted_container;

pub use crate::ability::Ability;
pub use crate::ability::AbilityBoost;
pub use crate::ability::AbilityModifications;
pub use crate::age_range::AgeRange;
pub use crate::age_range::AgeRanges;
pub use crate::ancestries::ValidAncestries;
pub use crate::ancestry::Ancestry;
pub use crate::archetype::Archetype;
pub use crate::background::Background;
pub use crate::dice::DiceFormula;
pub use crate::dice::Die;
pub use crate::heritage::Heritage;
pub use crate::language::Language;
pub use crate::mutation::Mutation;
pub use crate::mutation::MutationChance;
pub use crate::mutation::MutationProbabilities;
pub use crate::mutation::Probability;
pub use crate::named_element::NamedElement;
pub use crate::newtypes::WeightMap;
pub use crate::npc_options::NpcOptions;
pub use crate::proficiencies::Proficiencies;
pub use crate::proficiencies::Proficiency;
pub use crate::proficiencies::SkillTraining;
pub use crate::sense::Sense;
pub use crate::size::Size;
pub use crate::skills::Skill;
pub use crate::statblock::AbilityStats;
pub use crate::statblock::AbilityValue;
pub use crate::statblock::NpcFlavor;
pub use crate::statblock::PF2eStats;
pub use crate::statblock::Statblock;
pub use crate::traits::Trait;
