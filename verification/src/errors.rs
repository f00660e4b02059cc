//! What can go wrong while a character is generated.

use crate::formats::FormatError;
use crate::random::WeightedError;
use vstd::prelude::*;

verus! {

/// No age could be drawn.
#[derive(Debug, Clone, Copy, PartialEq, Eq, Structural)]
pub struct AgeGenerationError;

/// No ancestry could be drawn.
#[derive(Debug, Clone, Copy, PartialEq, Eq, Structural)]
pub struct AncestryGenerationError;

/// No ability could be drawn.
#[derive(Debug, Clone, Copy, PartialEq, Eq, Structural)]
pub struct AbilityGenerationError;

/// No skill could be drawn.
#[derive(Debug, Clone, Copy, PartialEq, Eq, Structural)]
pub struct SkillGenerationError;

/// No heritage could be drawn.
#[derive(Debug, Clone, Copy, PartialEq, Eq, Structural)]
pub struct HeritageGenerationError;

/// No background could be drawn.
#[derive(Debug, Clone, Copy, PartialEq, Eq, Structural)]
pub struct BackgroundGenerationError;

/// No sex could be drawn.
#[derive(Debug, Clone, Copy, PartialEq, Eq, Structural)]
pub struct SexGenerationError;

/// No hair could be drawn. The message names the table that gave nothing:
/// `color`, `type` or `length`.
#[derive(Debug, Clone, PartialEq, Eq)]
pub struct HairGenerationError {
    pub message: String,
}

/// No eyes could be drawn: the eye colors give nothing to draw from, no
/// chance of heterochromia is known, or no second color is left for the
/// other eye.
#[derive(Debug, Clone, Copy, PartialEq, Eq, Structural)]
pub struct EyeGenerationError;

/// No skin could be drawn from the textures and tones.
#[derive(Debug, Clone, Copy, PartialEq, Eq, Structural)]
pub struct SkinGenerationError;

/// No name could be drawn: no name table fits the traits of the character,
/// or a table of names gives nothing to draw from.
#[derive(Debug, Clone, Copy, PartialEq, Eq, Structural)]
pub struct NameGenerationError;

/// A random draw that failed.
#[derive(Debug, Clone, Copy, PartialEq, Eq, Structural)]
pub enum RngError {
    WeightedError(WeightedError),
}

/// A line of the narrative that could not be written.
#[derive(Debug, Clone, PartialEq, Eq)]
pub enum FlavorLineGenerationError {
    HairGenerationError(HairGenerationError),
    EyeGenerationError(EyeGenerationError),
    SkinGenerationError(SkinGenerationError),
}

/// The narrative could not be written.
#[derive(Debug, Clone, PartialEq, Eq)]
pub enum FlavorGenerationError {
    /// The statblock to describe has no ancestry.
    AncestryIsNone,
    /// The statblock to describe has no heritage.
    HeritageIsNone,
    /// One of the lines could not be written.
    FlavorLineGenerationError(FlavorLineGenerationError),
    /// No name could be drawn.
    NameGenerationError(NameGenerationError),
    /// A template did not render.
    FormatError(FormatError),
}

/// A character could not be generated.
#[derive(Debug, Clone, PartialEq, Eq)]
pub enum GenerationError {
    AgeGenerationError(AgeGenerationError),
    AncestryGenerationError(AncestryGenerationError),
    AbilityGenerationError(AbilityGenerationError),
    SkillGenerationError(SkillGenerationError),
    FlavorGenerationError(FlavorGenerationError),
    HeritageGenerationError(HeritageGenerationError),
    BackgroundGenerationError(BackgroundGenerationError),
    SexGenerationError(SexGenerationError),
}

impl HairGenerationError {
    /// The error that names `table` as the table that gave nothing.
    pub fn from(table: &str) -> (error: Self)
        ensures
            error.message@ == table@,
    {
        HairGenerationError { message: String::from_str(table) }
    }

    /// The message of the error.
    pub open spec fn text(&self) -> Seq<char> {
        "unable to generate hair "@ + self.message@
    }

    /// The message of the error.
    pub fn to_string(&self) -> (text: String)
        ensures
            text@ == self.text(),
    {
        String::from_str("unable to generate hair ").concat(self.message.as_str())
    }
}

impl GenerationError {
    /// The message of the error.
    pub open spec fn text(&self) -> Seq<char> {
        match self {
            GenerationError::AgeGenerationError(_) => "unable to generate random age"@,
            GenerationError::AncestryGenerationError(_) => "unable to generate random ancestry"@,
            GenerationError::AbilityGenerationError(_) => "unable to generate random abilities"@,
            GenerationError::SkillGenerationError(_) => "unable to generate skills"@,
            GenerationError::FlavorGenerationError(error) => error.text(),
            GenerationError::HeritageGenerationError(_) => "unable to generate heritage"@,
            GenerationError::BackgroundGenerationError(_) => "unable to generate background"@,
            GenerationError::SexGenerationError(_) => "unable to generate sex"@,
        }
    }

    /// The message of the error.
    pub fn to_string(&self) -> (text: String)
        ensures
            text@ == self.text(),
    {
        match self {
            GenerationError::AgeGenerationError(_) => String::from_str(
                "unable to generate random age",
            ),
            GenerationError::AncestryGenerationError(_) => String::from_str(
                "unable to generate random ancestry",
            ),
            GenerationError::AbilityGenerationError(_) => String::from_str(
                "unable to generate random abilities",
            ),
            GenerationError::SkillGenerationError(_) => String::from_str(
                "unable to generate skills",
            ),
            GenerationError::FlavorGenerationError(error) => error.to_string(),
            GenerationError::HeritageGenerationError(_) => String::from_str(
                "unable to generate heritage",
            ),
            GenerationError::BackgroundGenerationError(_) => String::from_str(
                "unable to generate background",
            ),
            GenerationError::SexGenerationError(_) => String::from_str("unable to generate sex"),
        }
    }
}

impl FlavorLineGenerationError {
    /// The message of the error.
    pub open spec fn text(&self) -> Seq<char> {
        match self {
            FlavorLineGenerationError::HairGenerationError(error) => error.text(),
            FlavorLineGenerationError::EyeGenerationError(_) => "unable to generate eyes"@,
            FlavorLineGenerationError::SkinGenerationError(_) => "unable to generate skin"@,
        }
    }

    /// The message of the error.
    pub fn to_string(&self) -> (text: String)
        ensures
            text@ == self.text(),
    {
        match self {
            FlavorLineGenerationError::HairGenerationError(error) => error.to_string(),
            FlavorLineGenerationError::EyeGenerationError(_) => String::from_str(
                "unable to generate eyes",
            ),
            FlavorLineGenerationError::SkinGenerationError(_) => String::from_str(
                "unable to generate skin",
            ),
        }
    }
}

impl FlavorGenerationError {
    /// The message of the error.
    pub open spec fn text(&self) -> Seq<char> {
        match self {
            FlavorGenerationError::AncestryIsNone =>
                "Flavor generation error: ancestry in unflavored statblock is None"@,
            FlavorGenerationError::HeritageIsNone =>
                "Flavor generation error: heritage in unflavored statblock is None"@,
            FlavorGenerationError::FlavorLineGenerationError(error) => error.text(),
            FlavorGenerationError::NameGenerationError(_) => "unable to generate name"@,
            FlavorGenerationError::FormatError(error) => "unable to render template: "@
                + error.message@,
        }
    }

    /// The message of the error.
    pub fn to_string(&self) -> (text: String)
        ensures
            text@ == self.text(),
    {
        match self {
            FlavorGenerationError::AncestryIsNone => String::from_str(
                "Flavor generation error: ancestry in unflavored statblock is None",
            ),
            FlavorGenerationError::HeritageIsNone => String::from_str(
                "Flavor generation error: heritage in unflavored statblock is None",
            ),
            FlavorGenerationError::FlavorLineGenerationError(error) => error.to_string(),
            FlavorGenerationError::NameGenerationError(_) => String::from_str(
                "unable to generate name",
            ),
            FlavorGenerationError::FormatError(error) => String::from_str(
                "unable to render template: ",
            ).concat(error.message.as_str()),
        }
    }
}

} // verus!
