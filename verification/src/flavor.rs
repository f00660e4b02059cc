//! The narrative lines that describe a character.

use crate::age_range::AgeRange;
use crate::ancestry::Ancestry;
use crate::ancestry::AncestryView;
use crate::errors::EyeGenerationError;
use crate::errors::FlavorLineGenerationError;
use crate::errors::HairGenerationError;
use crate::errors::SkinGenerationError;
use crate::formats::FormatError;
use crate::heritage::Heritage;
use crate::heritage::HeritageView;
use crate::mutation::chance_of;
use crate::mutation::Mutation;
use crate::mutation::Probability;
use crate::newtypes::merged_rows;
use crate::newtypes::without_key;
use crate::newtypes::TableView;
use crate::newtypes::WeightMap;
use crate::size::Size;
use crate::text::decimal;
use crate::text::push_decimal;
use vstd::prelude::*;

verus! {

/// The sentence on the size and build of a creature.
pub open spec fn size_and_build_text(size: Size) -> Seq<char> {
    "They have a bulk of "@ + decimal(size.bulk_of()) + "."@
}

/// Writes the sentence on the size and build of a character.
pub fn generate_size_and_build(ancestry: &Ancestry) -> (line: String)
    ensures
        line@ == size_and_build_text(ancestry@.size),
{
    let mut line = String::from_str("They have a bulk of ");
    push_decimal(&mut line, ancestry.size().bulk());
    line.append(".");
    line
}

/// Writes the sentence on the face of a character.
pub fn generate_flavor_face_line() -> (line: String)
    ensures
        line@ == "They have a face."@,
{
    String::from_str("They have a face.")
}

/// Writes the sentence on the habits of a character.
pub fn generate_flavor_habit_line() -> (line: String)
    ensures
        line@ == "They have habits."@,
{
    String::from_str("They have habits.")
}

/// The lineage that a heritage names, if there is a heritage and it names one.
pub open spec fn lineage_of(heritage: Option<HeritageView>) -> Option<Seq<char>> {
    match heritage {
        Some(heritage) => heritage.lineage,
        None => None,
    }
}

/// Writes the sentence on the lineage of a character, through the
/// lineage-line template of the heritage. There is no such sentence without
/// a heritage, or where the heritage names no lineage.
///
/// Whether the template renders, and to what, is decided by the template
/// engine alone; where the sentence is not called for, nothing is rendered
/// and nothing fails.
pub fn generate_lineage_line(heritage: Option<&Heritage>, vm: &gluon::RootedThread) -> (line:
    Result<Option<String>, FormatError>)
    ensures
        lineage_of(optional_heritage_ref(heritage)) is None ==> line == Ok::<
            Option<String>,
            FormatError,
        >(None),
        line matches Ok(written) ==> (written is Some <==> lineage_of(
            optional_heritage_ref(heritage),
        ) is Some),
{
    match heritage {
        Some(heritage) => {
            match heritage.lineage() {
                Some(lineage) => {
                    match heritage.formats().format_lineage_line(vm, lineage) {
                        Ok(line) => Ok(Some(line)),
                        Err(error) => Err(error),
                    }
                },
                None => Ok(None),
            }
        },
        None => Ok(None),
    }
}

/// The plain values of a borrowed heritage that may be absent.
pub open spec fn optional_heritage_ref(heritage: Option<&Heritage>) -> Option<HeritageView> {
    match heritage {
        Some(heritage) => Some(heritage@),
        None => None,
    }
}

/// The values that the description-line template interpolates.
#[derive(Debug, PartialEq, Eq)]
pub struct DescriptionLine {
    /// The source of the template.
    pub script: String,
    pub name: String,
    pub age: u64,
    pub age_range: AgeRange,
    /// The sex after a space, or nothing where the character has none.
    pub sex: String,
    pub ancestry_name: String,
    /// The name of the heritage after a space, or nothing without a heritage.
    pub heritage_name: String,
    /// The class of the character, or the name of its background where it
    /// has no class.
    pub job_name: String,
}

/// A word after a space, or nothing where the word is empty.
pub open spec fn spaced(word: Seq<char>) -> Seq<char> {
    if word.len() == 0 {
        word
    } else {
        " "@ + word
    }
}

/// A word after a space, or nothing where there is no word.
pub open spec fn spaced_if_any(word: Option<Seq<char>>) -> Seq<char> {
    match word {
        Some(word) => " "@ + word,
        None => Seq::<char>::empty(),
    }
}

/// Prepares the description line: gathers the values that the template
/// interpolates. The job is the class where there is one, the background
/// otherwise; sex and heritage come with a space in front unless there is
/// none.
pub fn generate_flavor_description_line(
    script: &str,
    name: &str,
    age: u64,
    age_range: AgeRange,
    sex: &str,
    ancestry_name: &str,
    heritage_name: Option<&str>,
    background_name: &str,
    class_name: Option<&str>,
) -> (line: DescriptionLine)
    ensures
        line.script@ == script@,
        line.name@ == name@,
        line.age == age,
        line.age_range == age_range,
        line.sex@ == spaced(sex@),
        line.ancestry_name@ == ancestry_name@,
        line.heritage_name@ == spaced_if_any(
            match heritage_name {
                Some(heritage) => Some(heritage@),
                None => None,
            },
        ),
        line.job_name@ == match class_name {
            Some(class) => class@,
            None => background_name@,
        },
{
    let job_name = match class_name {
        Some(class) => String::from_str(class),
        None => String::from_str(background_name),
    };
    let heritage_name = match heritage_name {
        Some(heritage) => String::from_str(" ").concat(heritage),
        None => String::new(),
    };
    let sex = if sex.unicode_len() == 0 {
        String::from_str(sex)
    } else {
        String::from_str(" ").concat(sex)
    };
    DescriptionLine {
        script: String::from_str(script),
        name: String::from_str(name),
        age,
        age_range,
        sex,
        ancestry_name: String::from_str(ancestry_name),
        heritage_name,
        job_name,
    }
}

/// The words for hair of a length, a type and a color.
pub open spec fn hair_text(
    length: Seq<char>,
    kind: Seq<char>,
    color: Seq<char>,
    substance: Seq<char>,
) -> Seq<char> {
    length + ", "@ + kind + ", "@ + color + " "@ + substance
}

/// Puts hair of a length, a type and a color into words.
pub fn write_hair(length: &str, kind: &str, color: &str, substance: &str) -> (text: String)
    ensures
        text@ == hair_text(length@, kind@, color@, substance@),
{
    let mut text = String::from_str(length);
    text.append(", ");
    text.append(kind);
    text.append(", ");
    text.append(color);
    text.append(" ");
    text.append(substance);
    text
}

/// Whether an ancestry has no table for hair at all: none for the color,
/// none for the type and none for the length.
pub open spec fn is_hairless(ancestry: AncestryView) -> bool {
    ancestry.possible_hair_colors is None && ancestry.possible_hair_type is None
        && ancestry.possible_hair_length is None
}

/// Whether a table of hair gives something to draw: it is there, and it
/// can be drawn from.
pub open spec fn gives_hair(table: Option<TableView<String>>) -> bool {
    table matches Some(rows) && rows.drawable()
}

/// Whether `text` describes hair that can be drawn for the ancestry: a
/// color, a type and a length, each from its table.
pub open spec fn describes_hair(ancestry: AncestryView, text: Seq<char>) -> bool {
    exists|color: String, kind: String, length: String|
        {
            &&& ancestry.possible_hair_colors->Some_0.offers(color)
            &&& ancestry.possible_hair_type->Some_0.offers(kind)
            &&& ancestry.possible_hair_length->Some_0.offers(length)
            &&& text == #[trigger] hair_text(length@, kind@, color@, ancestry.hair_substance)
        }
}

/// The first table that gives nothing to draw, because it is missing or
/// cannot be drawn from: the colors, then the types, then the lengths.
pub open spec fn failing_hair_table(ancestry: AncestryView) -> Option<Seq<char>> {
    if !gives_hair(ancestry.possible_hair_colors) {
        Some("color"@)
    } else if !gives_hair(ancestry.possible_hair_type) {
        Some("type"@)
    } else if !gives_hair(ancestry.possible_hair_length) {
        Some("length"@)
    } else {
        None
    }
}

/// Whether `text` is what can be said of the hair of the ancestry: "no
/// hair" where it has no table for hair at all, and otherwise hair drawn
/// from its three tables.
pub open spec fn hair_written(ancestry: AncestryView, text: Seq<char>) -> bool {
    if is_hairless(ancestry) {
        text == "no hair"@
    } else {
        failing_hair_table(ancestry) is None && describes_hair(ancestry, text)
    }
}

/// Whether no hair can be drawn for the ancestry because of the table that
/// `message` names: the ancestry has some table for hair, and the named
/// table is the first that is missing or cannot be drawn from.
pub open spec fn hair_fails(ancestry: AncestryView, message: Seq<char>) -> bool {
    !is_hairless(ancestry) && failing_hair_table(ancestry) == Some(message)
}

/// Draws one table of hair, or names the table where it is missing or
/// gives nothing to draw.
fn draw_hair<'a>(rng: &mut rand::rngs::StdRng, table: Option<&'a WeightMap<String>>, name: &str) -> (
    drawn: Result<&'a String, HairGenerationError>)
    ensures
        match drawn {
            Ok(word) => table matches Some(rows) && rows.rows().drawable() && rows.rows().offers(
                *word,
            ),
            Err(error) => error.message@ == name@ && !(table matches Some(rows)
                && rows.rows().drawable()),
        },
{
    match table {
        Some(rows) => match rows.draw(rng) {
            Ok(word) => Ok(word),
            Err(_) => Err(HairGenerationError::from(name)),
        },
        None => Err(HairGenerationError::from(name)),
    }
}

/// Draws the hair of a character and puts it into words. An ancestry
/// without any table for hair has no hair. Otherwise a color, a type and a
/// length are drawn, each from its table; this fails where a table is
/// missing or gives nothing to draw, and names the first such table.
pub fn generate_flavor_hairs(rng: &mut rand::rngs::StdRng, ancestry: &Ancestry) -> (hair: Result<
    String,
    HairGenerationError,
>)
    ensures
        match hair {
            Ok(text) => hair_written(ancestry@, text@),
            Err(error) => hair_fails(ancestry@, error.message@),
        },
{
    let colors = ancestry.possible_hair_colors();
    let types = ancestry.possible_hair_type();
    let lengths = ancestry.possible_hair_length();
    if colors.is_none() && types.is_none() && lengths.is_none() {
        return Ok(String::from_str("no hair"));
    }
    let color = match draw_hair(rng, colors, "color") {
        Ok(color) => color,
        Err(error) => {
            return Err(error);
        },
    };
    let kind = match draw_hair(rng, types, "type") {
        Ok(kind) => kind,
        Err(error) => {
            return Err(error);
        },
    };
    let length = match draw_hair(rng, lengths, "length") {
        Ok(length) => length,
        Err(error) => {
            return Err(error);
        },
    };
    Ok(write_hair(length.as_str(), kind.as_str(), color.as_str(), ancestry.hair_substance()))
}

/// The eye colors of a character: those of the ancestry, merged with the
/// additional colors of the heritage. An ancestry without eye colors has
/// no eyes.
pub open spec fn eye_colors(ancestry: AncestryView, heritage: Option<HeritageView>) -> Option<
    TableView<String>,
> {
    match ancestry.possible_eye_colors {
        None => None,
        Some(colors) => Some(
            match heritage {
                Some(heritage) => merged_rows(colors, heritage.additional_eye_colors),
                None => colors,
            },
        ),
    }
}

/// The color that the heritage forces on one eye, if it forces one.
pub open spec fn forced_eye_color(heritage: Option<HeritageView>) -> Option<Seq<char>> {
    match heritage {
        Some(heritage) => heritage.force_heterochromia,
        None => None,
    }
}

/// The words for two eyes of one color.
pub open spec fn plain_eyes_text(color: Seq<char>) -> Seq<char> {
    color + " eyes"@
}

/// The words for two eyes of different colors.
pub open spec fn mixed_eyes_text(left: Seq<char>, right: Seq<char>) -> Seq<char> {
    "heterochromatic eyes.\nTheir left eye is "@ + left + " and their right eye is "@ + right
}

/// The words for eyes of the color `color`; where heterochromia occurs, of
/// that color and the color `other`, the latter on the left or on the right.
pub open spec fn eyes_in_words(color: Seq<char>, heterochromia: Option<(Seq<char>, bool)>) -> Seq<
    char,
> {
    match heterochromia {
        None => plain_eyes_text(color),
        Some((other, true)) => mixed_eyes_text(other, color),
        Some((other, false)) => mixed_eyes_text(color, other),
    }
}

/// Puts eyes into words: two eyes of one color, or, where heterochromia
/// occurs, one eye of each of two colors; the flag says whether the second
/// color is the color of the left eye.
pub fn write_eyes(color: &str, heterochromia: Option<(&str, bool)>) -> (text: String)
    ensures
        text@ == eyes_in_words(
            color@,
            match heterochromia {
                Some((other, left)) => Some((other@, left)),
                None => None,
            },
        ),
{
    match heterochromia {
        None => String::from_str(color).concat(" eyes"),
        Some((other, is_left)) => {
            let (left_eye, right_eye): (&str, &str) = if is_left {
                (other, color)
            } else {
                (color, other)
            };
            let mut text = String::from_str("heterochromatic eyes.\nTheir left eye is ");
            text.append(left_eye);
            text.append(" and their right eye is ");
            text.append(right_eye);
            text
        },
    }
}

/// Whether a draw from the colors can give the color `name`.
pub open spec fn is_color_of(colors: TableView<String>, name: Seq<char>) -> bool {
    exists|color: String| #[trigger] colors.offers(color) && color@ == name
}

/// Whether `other` can be the color of the second eye: the forced color
/// where one is forced, and a drawn color otherwise.
pub open spec fn is_second_color(
    colors: TableView<String>,
    forced: Option<Seq<char>>,
    other: Seq<char>,
) -> bool {
    match forced {
        Some(color) => other == color,
        None => is_color_of(colors, other),
    }
}

/// Whether `text` puts the colors `primary` and `other` into words: two
/// eyes of the color `primary`, where eyes of one color can be; or, where
/// eyes of two colors can be and the two colors differ, one eye of each,
/// either way round.
pub open spec fn eyes_text(
    one_color_can_be: bool,
    two_colors_can_be: bool,
    primary: Seq<char>,
    other: Seq<char>,
    text: Seq<char>,
) -> bool {
    ||| one_color_can_be && text == plain_eyes_text(primary)
    ||| two_colors_can_be && primary != other && text == mixed_eyes_text(primary, other)
    ||| two_colors_can_be && primary != other && text == mixed_eyes_text(other, primary)
}

/// Whether `text` describes eyes that can be drawn from `colors`: a drawn
/// color, a second color that is forced, or drawn where none is forced, and
/// the two put into words, as eyes of one color or of two, whichever can be.
pub open spec fn describes_eyes(
    colors: TableView<String>,
    forced: Option<Seq<char>>,
    one_color_can_be: bool,
    two_colors_can_be: bool,
    text: Seq<char>,
) -> bool {
    exists|primary: Seq<char>, other: Seq<char>|
        is_color_of(colors, primary) && is_second_color(colors, forced, other) && #[trigger] eyes_text(
            one_color_can_be,
            two_colors_can_be,
            primary,
            other,
            text,
        )
}

/// Whether heterochromia can occur: the heritage forces a color on one eye,
/// or the ancestry gives a chance of heterochromia that is a probability
/// and not zero.
pub open spec fn heterochromia_can_occur(
    ancestry: AncestryView,
    heritage: Option<HeritageView>,
) -> bool {
    forced_eye_color(heritage) is Some || (chance_of(
        ancestry.mutation_probabilities,
        Mutation::Heterochromia,
    ) matches Some(chance) && chance.valid() && !chance.impossible())
}

/// Whether it is settled how heterochromia comes about: the heritage forces
/// a color on one eye, or the ancestry gives heterochromia a chance that is
/// a probability.
pub open spec fn heterochromia_is_settled(
    ancestry: AncestryView,
    heritage: Option<HeritageView>,
) -> bool {
    forced_eye_color(heritage) is Some || (chance_of(
        ancestry.mutation_probabilities,
        Mutation::Heterochromia,
    ) matches Some(chance) && chance.valid())
}

/// Whether heterochromia is certain: the heritage forces a color on one
/// eye, or the ancestry gives heterochromia the chance of a certain event.
pub open spec fn heterochromia_is_certain(
    ancestry: AncestryView,
    heritage: Option<HeritageView>,
) -> bool {
    forced_eye_color(heritage) is Some || (chance_of(
        ancestry.mutation_probabilities,
        Mutation::Heterochromia,
    ) matches Some(chance) && chance.certain())
}

/// Whether some color leaves nothing to draw for the other eye: it can be
/// the second color, it can come up as the first color too, and without it
/// the colors give nothing to draw.
pub open spec fn lacks_second_color(colors: TableView<String>, forced: Option<Seq<char>>) -> bool {
    exists|color: Seq<char>|
        is_color_of(colors, color) && is_second_color(colors, forced, color)
            && !crate::newtypes::drawable(#[trigger] without_key(colors, color))
}

/// Whether `text` is what can be said of the eyes of a character: "no
/// eyes" where the ancestry has no eye colors, and drawn eyes otherwise: of
/// one color unless heterochromia is certain, of two different colors
/// where heterochromia can occur.
pub open spec fn eyes_written(
    ancestry: AncestryView,
    heritage: Option<HeritageView>,
    text: Seq<char>,
) -> bool {
    match eye_colors(ancestry, heritage) {
        None => text == "no eyes"@,
        Some(colors) => colors.drawable() && heterochromia_is_settled(ancestry, heritage)
            && describes_eyes(
            colors,
            forced_eye_color(heritage),
            !heterochromia_is_certain(ancestry, heritage),
            heterochromia_can_occur(ancestry, heritage),
            text,
        ),
    }
}

/// Whether drawing the eyes of a character can fail: the eye colors give
/// nothing to draw; it is not settled how heterochromia comes about; or
/// heterochromia can occur and some color leaves nothing to draw for the
/// other eye. In the first two cases it is bound to fail.
pub open spec fn eyes_can_fail(ancestry: AncestryView, heritage: Option<HeritageView>) -> bool {
    match eye_colors(ancestry, heritage) {
        None => false,
        Some(colors) => {
            ||| !colors.drawable()
            ||| !heterochromia_is_settled(ancestry, heritage)
            ||| heterochromia_can_occur(ancestry, heritage) && lacks_second_color(
                colors,
                forced_eye_color(heritage),
            )
        },
    }
}

/// Draws the eyes of a character and puts them into words.
///
/// Draws a color and a candidate for a second color from the eye colors.
/// Heterochromia occurs where the heritage forces a color on one eye, and
/// otherwise by a trial with the chance that the ancestry gives for it;
/// then the first color is drawn again, if need be, among the colors other
/// than the second, and a fair trial decides which eye gets which.
///
/// Fails only where the eye colors give nothing to draw, where no color is
/// forced and the ancestry gives no valid chance of heterochromia, or where
/// heterochromia can occur and some color leaves nothing to draw for the
/// other eye.
pub fn generate_flavor_eyes(
    rng: &mut rand::rngs::StdRng,
    ancestry: &Ancestry,
    heritage: Option<&Heritage>,
) -> (eyes: Result<String, EyeGenerationError>)
    ensures
        match eyes {
            Ok(text) => eyes_written(ancestry@, optional_heritage_ref(heritage), text@),
            Err(_) => eyes_can_fail(ancestry@, optional_heritage_ref(heritage)),
        },
{
    let mut available: WeightMap<String> = match ancestry.possible_eye_colors() {
        Some(colors) => colors.clone(),
        None => {
            return Ok(String::from_str("no eyes"));
        },
    };
    match heritage {
        Some(heritage) => {
            available.extend(heritage.additional_eye_colors().clone());
        },
        None => {},
    }
    let ghost colors = available.rows();
    let ghost forced = forced_eye_color(optional_heritage_ref(heritage));
    let eye_color: &String = match available.draw(rng) {
        Ok(color) => color,
        Err(_) => {
            return Err(EyeGenerationError);
        },
    };
    let candidate: &String = match available.draw(rng) {
        Ok(color) => color,
        Err(_) => {
            return Err(EyeGenerationError);
        },
    };
    let force_heterochromia: Option<&str> = match heritage {
        Some(heritage) => heritage.force_heterochromia(),
        None => None,
    };
    let (has_heterochromia, heterochromia_color): (bool, &str) = match force_heterochromia {
        Some(color) => (true, color),
        None => {
            let chance: Probability = match ancestry.mutation_probabilities().get(
                Mutation::Heterochromia,
            ) {
                Some(chance) => chance,
                None => {
                    return Err(EyeGenerationError);
                },
            };
            match chance.trial(rng) {
                Some(occurred) => (occurred, candidate.as_str()),
                None => {
                    return Err(EyeGenerationError);
                },
            }
        },
    };
    if has_heterochromia {
        let eye_color: &String = if crate::text::same_text(eye_color.as_str(), heterochromia_color) {
            match available.draw_except(rng, heterochromia_color) {
                Ok(color) => color,
                Err(_) => {
                    proof {
                        if forced is None {
                            assert(colors.offers(*candidate) && candidate@
                                == heterochromia_color@);
                        }
                        assert(colors.offers(*eye_color) && eye_color@ == heterochromia_color@);
                        assert(is_color_of(colors, heterochromia_color@));
                        assert(is_second_color(colors, forced, heterochromia_color@));
                        assert(!crate::newtypes::drawable(
                            without_key(colors, heterochromia_color@),
                        ));
                    }
                    return Err(EyeGenerationError);
                },
            }
        } else {
            eye_color
        };
        let is_left_hetero = match Probability::new(1, 2).trial(rng) {
            Some(left) => left,
            None => false,
        };
        let text = write_eyes(eye_color.as_str(), Some((heterochromia_color, is_left_hetero)));
        proof {
            if forced is None {
                assert(colors.offers(*candidate) && candidate@ == heterochromia_color@);
            }
            assert(colors.offers(*eye_color));
            assert(is_color_of(colors, eye_color@));
            assert(is_second_color(colors, forced, heterochromia_color@));
            assert(heterochromia_can_occur(ancestry@, optional_heritage_ref(heritage)));
            assert(eyes_text(
                !heterochromia_is_certain(ancestry@, optional_heritage_ref(heritage)),
                true,
                eye_color@,
                heterochromia_color@,
                text@,
            ));
        }
        Ok(text)
    } else {
        let text = write_eyes(eye_color.as_str(), None);
        proof {
            assert(colors.offers(*candidate) && candidate@ == heterochromia_color@);
            assert(colors.offers(*eye_color));
            assert(is_color_of(colors, eye_color@));
            assert(is_second_color(colors, forced, heterochromia_color@));
            assert(!heterochromia_is_certain(ancestry@, optional_heritage_ref(heritage)));
            assert(eyes_text(
                true,
                heterochromia_can_occur(ancestry@, optional_heritage_ref(heritage)),
                eye_color@,
                heterochromia_color@,
                text@,
            ));
        }
        Ok(text)
    }
}

/// The sentence on hair and eyes.
pub open spec fn hair_and_eyes_text(hair: Seq<char>, eyes: Seq<char>) -> Seq<char> {
    "They have "@ + hair + " and "@ + eyes + "."@
}

/// Joins the words for hair and the words for eyes into one sentence.
pub fn join_hair_and_eyes(hair: &str, eyes: &str) -> (line: String)
    ensures
        line@ == hair_and_eyes_text(hair@, eyes@),
{
    let mut line = String::from_str("They have ");
    line.append(hair);
    line.append(" and ");
    line.append(eyes);
    line.append(".");
    proof {
        assert(line@ =~= hair_and_eyes_text(hair@, eyes@));
    }
    line
}

/// Whether `line` is a sentence on hair and eyes that can be written for
/// the character.
pub open spec fn hair_and_eyes_written(
    ancestry: AncestryView,
    heritage: Option<HeritageView>,
    line: Seq<char>,
) -> bool {
    exists|hair: Seq<char>, eyes: Seq<char>|
        hair_written(ancestry, hair) && eyes_written(ancestry, heritage, eyes) && line
            == #[trigger] hair_and_eyes_text(hair, eyes)
}

/// Whether the sentence on hair and eyes can fail with `error`.
pub open spec fn hair_and_eyes_fail(
    ancestry: AncestryView,
    heritage: Option<HeritageView>,
    error: FlavorLineGenerationError,
) -> bool {
    match error {
        FlavorLineGenerationError::HairGenerationError(hair) => hair_fails(ancestry, hair.message@),
        FlavorLineGenerationError::EyeGenerationError(_) => eyes_can_fail(ancestry, heritage),
        FlavorLineGenerationError::SkinGenerationError(_) => false,
    }
}

/// Draws hair and eyes and writes the sentence on them. Fails where the
/// hair or the eyes cannot be drawn.
pub fn generate_flavor_hair_and_eyes_line(
    rng: &mut rand::rngs::StdRng,
    ancestry: &Ancestry,
    heritage: Option<&Heritage>,
) -> (line: Result<String, FlavorLineGenerationError>)
    ensures
        match line {
            Ok(text) => hair_and_eyes_written(ancestry@, optional_heritage_ref(heritage), text@),
            Err(error) => hair_and_eyes_fail(ancestry@, optional_heritage_ref(heritage), error),
        },
{
    let hair = match generate_flavor_hairs(rng, ancestry) {
        Ok(hair) => hair,
        Err(error) => {
            return Err(FlavorLineGenerationError::HairGenerationError(error));
        },
    };
    let eyes = match generate_flavor_eyes(rng, ancestry, heritage) {
        Ok(eyes) => eyes,
        Err(error) => {
            return Err(FlavorLineGenerationError::EyeGenerationError(error));
        },
    };
    Ok(join_hair_and_eyes(hair.as_str(), eyes.as_str()))
}

/// The words for skin of a texture and a tone.
pub open spec fn skin_text(texture: Seq<char>, tone: Seq<char>, substance: Seq<char>) -> Seq<char> {
    "They have "@ + texture + " "@ + tone + " "@ + substance + "."@
}

/// Writes the sentence on skin of a texture and a tone.
pub fn write_skin(texture: &str, tone: &str, substance: &str) -> (text: String)
    ensures
        text@ == skin_text(texture@, tone@, substance@),
{
    let mut text = String::from_str("They have ");
    text.append(texture);
    text.append(" ");
    text.append(tone);
    text.append(" ");
    text.append(substance);
    text.append(".");
    text
}

/// Whether `text` describes skin that can be drawn for the ancestry.
pub open spec fn describes_skin(ancestry: AncestryView, text: Seq<char>) -> bool {
    exists|texture: String, tone: String|
        {
            &&& ancestry.possible_skin_texture.offers(texture)
            &&& ancestry.possible_skin_tone.offers(tone)
            &&& text == #[trigger] skin_text(texture@, tone@, ancestry.skin_substance)
        }
}

/// Draws the skin of a character and writes the sentence on it. Fails
/// exactly where the textures or the tones give nothing to draw.
pub fn generate_flavor_skin_line(rng: &mut rand::rngs::StdRng, ancestry: &Ancestry) -> (line:
    Result<String, SkinGenerationError>)
    ensures
        line is Ok <==> ancestry@.possible_skin_texture.drawable()
            && ancestry@.possible_skin_tone.drawable(),
        line matches Ok(text) ==> describes_skin(ancestry@, text@),
{
    let texture = match ancestry.possible_skin_texture().draw(rng) {
        Ok(texture) => texture,
        Err(_) => {
            return Err(SkinGenerationError);
        },
    };
    let tone = match ancestry.possible_skin_tone().draw(rng) {
        Ok(tone) => tone,
        Err(_) => {
            return Err(SkinGenerationError);
        },
    };
    Ok(write_skin(texture.as_str(), tone.as_str(), ancestry.skin_substance()))
}

} // verus!
