//! The sheet of a statblock: its statistics as text.

use crate::skills::Skill;
use crate::statblock::AbilityStats;
use crate::statblock::PF2eStats;
use crate::statblock::StatblockView;
use crate::text::plain_decimal;
use crate::text::push_plain;
use crate::text::push_signed;
use crate::text::signed_decimal;
use crate::traits::Trait;
use vstd::prelude::*;

verus! {

/// Whether `a` comes before `b`, or is `b`, in the order of a dictionary
/// whose letters are ordered by their code points.
pub open spec fn text_le(a: Seq<char>, b: Seq<char>) -> bool
    decreases a.len(),
{
    if a.len() == 0 {
        true
    } else if b.len() == 0 {
        false
    } else if a[0] != b[0] {
        (a[0] as int) < (b[0] as int)
    } else {
        text_le(a.drop_first(), b.drop_first())
    }
}

/// Decides `text_le`.
pub fn is_text_le(a: &str, b: &str) -> (le: bool)
    ensures
        le == text_le(a@, b@),
{
    let n = a.unicode_len();
    let m = b.unicode_len();
    let mut i: usize = 0;
    proof {
        assert(a@.skip(0) =~= a@);
        assert(b@.skip(0) =~= b@);
    }
    while i < n && i < m
        invariant
            i <= n,
            i <= m,
            n == a@.len(),
            m == b@.len(),
            text_le(a@, b@) == text_le(a@.skip(i as int), b@.skip(i as int)),
        decreases n - i,
    {
        let x = a.get_char(i);
        let y = b.get_char(i);
        proof {
            assert(a@.skip(i as int)[0] == x);
            assert(b@.skip(i as int)[0] == y);
            assert(a@.skip(i as int).drop_first() =~= a@.skip(i as int + 1));
            assert(b@.skip(i as int).drop_first() =~= b@.skip(i as int + 1));
        }
        if x != y {
            return (x as u32) < (y as u32);
        }
        i += 1;
    }
    i == n
}

/// A piece of a sheet: the text to print, and the key by which the pieces
/// are put in order.
pub struct Piece {
    pub key: Seq<char>,
    pub text: Seq<char>,
}

/// Where a piece with the key `key` goes in a list that is in order:
/// behind every piece that it does not come before.
pub open spec fn place_of(sorted: Seq<Piece>, key: Seq<char>) -> int
    decreases sorted.len(),
{
    if sorted.len() == 0 {
        0
    } else if text_le(sorted.last().key, key) {
        sorted.len() as int
    } else {
        place_of(sorted.drop_last(), key)
    }
}

/// The pieces put in order of their keys; pieces with the same key stay in
/// the order in which they came.
pub open spec fn in_order(pieces: Seq<Piece>) -> Seq<Piece>
    decreases pieces.len(),
{
    if pieces.len() == 0 {
        Seq::empty()
    } else {
        let sorted = in_order(pieces.drop_last());
        sorted.insert(place_of(sorted, pieces.last().key), pieces.last())
    }
}

/// The place of a key is a place of the list.
pub proof fn lemma_place_in_bounds(sorted: Seq<Piece>, key: Seq<char>)
    ensures
        0 <= place_of(sorted, key) <= sorted.len(),
    decreases sorted.len(),
{
    if sorted.len() > 0 && !text_le(sorted.last().key, key) {
        lemma_place_in_bounds(sorted.drop_last(), key);
    }
}

/// Putting pieces in order keeps their number.
pub proof fn lemma_in_order_len(pieces: Seq<Piece>)
    ensures
        in_order(pieces).len() == pieces.len(),
    decreases pieces.len(),
{
    if pieces.len() > 0 {
        lemma_in_order_len(pieces.drop_last());
        lemma_place_in_bounds(in_order(pieces.drop_last()), pieces.last().key);
    }
}

/// Any two texts are comparable.
pub proof fn lemma_text_le_total(a: Seq<char>, b: Seq<char>)
    ensures
        text_le(a, b) || text_le(b, a),
    decreases a.len(),
{
    if a.len() > 0 && b.len() > 0 {
        if a[0] == b[0] {
            lemma_text_le_total(a.drop_first(), b.drop_first());
        } else {
            assert((a[0] as int) != (b[0] as int));
        }
    }
}

/// The order of texts is transitive.
pub proof fn lemma_text_le_transitive(a: Seq<char>, b: Seq<char>, c: Seq<char>)
    requires
        text_le(a, b),
        text_le(b, c),
    ensures
        text_le(a, c),
    decreases a.len(),
{
    if a.len() > 0 && b.len() > 0 && c.len() > 0 {
        if a[0] == b[0] && b[0] == c[0] {
            lemma_text_le_transitive(a.drop_first(), b.drop_first(), c.drop_first());
        }
    }
}

/// Whether the keys of the pieces never go down.
pub open spec fn ordered(pieces: Seq<Piece>) -> bool {
    forall|i: int, j: int|
        0 <= i < j < pieces.len() ==> text_le((#[trigger] pieces[i]).key, (#[trigger] pieces[j]).key)
}

/// In a list that is in order, every piece before the place of a key does
/// not come after the key, and every piece from the place on comes after it.
proof fn lemma_place_splits(sorted: Seq<Piece>, key: Seq<char>)
    requires
        ordered(sorted),
    ensures
        forall|i: int| 0 <= i < place_of(sorted, key) ==> text_le((#[trigger] sorted[i]).key, key),
        forall|i: int|
            place_of(sorted, key) <= i < sorted.len() ==> text_le(key, (#[trigger] sorted[i]).key),
    decreases sorted.len(),
{
    if sorted.len() > 0 {
        let last = sorted.last();
        if text_le(last.key, key) {
            assert forall|i: int| 0 <= i < sorted.len() implies text_le(
                (#[trigger] sorted[i]).key,
                key,
            ) by {
                if i < sorted.len() - 1 {
                    assert(text_le(sorted[i].key, sorted[sorted.len() - 1].key));
                    lemma_text_le_transitive(sorted[i].key, last.key, key);
                }
            }
        } else {
            let front = sorted.drop_last();
            assert(ordered(front)) by {
                assert forall|i: int, j: int| 0 <= i < j < front.len() implies text_le(
                    (#[trigger] front[i]).key,
                    (#[trigger] front[j]).key,
                ) by {
                    assert(text_le(sorted[i].key, sorted[j].key));
                }
            }
            lemma_place_splits(front, key);
            lemma_place_in_bounds(front, key);
            lemma_text_le_total(last.key, key);
            assert forall|i: int| 0 <= i < place_of(sorted, key) implies text_le(
                (#[trigger] sorted[i]).key,
                key,
            ) by {
                assert(sorted[i] == front[i]);
            }
            assert forall|i: int| place_of(sorted, key) <= i < sorted.len() implies text_le(
                key,
                (#[trigger] sorted[i]).key,
            ) by {
                if i < front.len() {
                    assert(sorted[i] == front[i]);
                }
            }
        }
    }
}

/// The pieces put in order are in order, and they are the same pieces.
pub proof fn lemma_in_order_is_ordered(pieces: Seq<Piece>)
    ensures
        ordered(in_order(pieces)),
        in_order(pieces).to_multiset() == pieces.to_multiset(),
    decreases pieces.len(),
{
    if pieces.len() == 0 {
        assert(pieces =~= Seq::<Piece>::empty());
    } else {
        let front = pieces.drop_last();
        let last = pieces.last();
        let sorted = in_order(front);
        let place = place_of(sorted, last.key);
        let result = sorted.insert(place, last);
        lemma_in_order_is_ordered(front);
        lemma_place_in_bounds(sorted, last.key);
        lemma_place_splits(sorted, last.key);
        assert forall|i: int, j: int| 0 <= i < j < result.len() implies text_le(
            (#[trigger] result[i]).key,
            (#[trigger] result[j]).key,
        ) by {
            if j < place {
                assert(result[i] == sorted[i] && result[j] == sorted[j]);
            } else if j == place {
                assert(result[i] == sorted[i]);
            } else if i < place {
                assert(result[i] == sorted[i] && result[j] == sorted[j - 1]);
            } else if i == place {
                assert(result[j] == sorted[j - 1]);
            } else {
                assert(result[i] == sorted[i - 1] && result[j] == sorted[j - 1]);
            }
        }
        vstd::seq_lib::to_multiset_insert(sorted, place, last);
        assert(front.push(last) =~= pieces);
        vstd::seq_lib::to_multiset_insert(front, front.len() as int, last);
        assert(front.insert(front.len() as int, last) =~= pieces);
    }
}

/// The pieces that a list of keyed texts stands for.
pub open spec fn pieces_of(keyed: Seq<(String, String)>) -> Seq<Piece> {
    keyed.map_values(|pair: (String, String)| Piece { key: pair.0@, text: pair.1@ })
}

/// Puts keyed texts in order of their keys; texts with the same key stay
/// in the order in which they came.
pub fn sort_pieces(keyed: Vec<(String, String)>) -> (sorted: Vec<(String, String)>)
    ensures
        pieces_of(sorted@) == in_order(pieces_of(keyed@)),
{
    let ghost all = pieces_of(keyed@);
    let mut sorted: Vec<(String, String)> = Vec::new();
    proof {
        assert(all.take(0) =~= Seq::<Piece>::empty());
        assert(pieces_of(sorted@) =~= in_order(all.take(0)));
    }
    for pair in iter: keyed
        invariant
            iter.seq() == keyed@,
            all == pieces_of(keyed@),
            pieces_of(sorted@) == in_order(all.take(iter.index() as int)),
    {
        let ghost n = iter.index() as int;
        let ghost before = pieces_of(sorted@);
        let ghost piece = Piece { key: pair.0@, text: pair.1@ };
        let mut place: usize = sorted.len();
        proof {
            assert(before.take(place as int) =~= before);
            assert(all.take(n + 1).drop_last() =~= all.take(n));
            assert(all.take(n + 1).last() == piece);
        }
        while place > 0 && !is_text_le(sorted[place - 1].0.as_str(), pair.0.as_str())
            invariant
                place <= sorted@.len(),
                before == pieces_of(sorted@),
                place_of(before, pair.0@) == place_of(before.take(place as int), pair.0@),
            decreases place,
        {
            proof {
                assert(before.take(place as int).drop_last() =~= before.take(place as int - 1));
                assert(before.take(place as int).last() == before[place as int - 1]);
            }
            place -= 1;
        }
        proof {
            if place > 0 {
                assert(before.take(place as int).last() == before[place as int - 1]);
            }
            assert(place_of(before, pair.0@) == place);
        }
        sorted.insert(place, pair);
        proof {
            assert(pieces_of(sorted@) =~= before.insert(place as int, piece));
        }
    }
    proof {
        assert(all.take(keyed@.len() as int) =~= all);
    }
    sorted
}

/// The texts of the pieces in a row, each between `before` and `after`.
pub open spec fn in_a_row(pieces: Seq<Piece>, before: Seq<char>, after: Seq<char>) -> Seq<char>
    decreases pieces.len(),
{
    if pieces.len() == 0 {
        Seq::empty()
    } else {
        in_a_row(pieces.drop_last(), before, after) + before + pieces.last().text + after
    }
}

/// Appends the texts of the pieces in a row, each between `before` and `after`.
fn push_in_a_row(text: &mut String, keyed: &Vec<(String, String)>, before: &str, after: &str)
    ensures
        final(text)@ == old(text)@ + in_a_row(pieces_of(keyed@), before@, after@),
{
    let ghost all = pieces_of(keyed@);
    let mut i: usize = 0;
    proof {
        assert(all.take(0) =~= Seq::<Piece>::empty());
        assert(text@ =~= old(text)@ + in_a_row(all.take(0), before@, after@));
    }
    while i < keyed.len()
        invariant
            i <= keyed.len(),
            all == pieces_of(keyed@),
            text@ == old(text)@ + in_a_row(all.take(i as int), before@, after@),
        decreases keyed.len() - i,
    {
        let ghost so_far = text@;
        text.append(before);
        text.append(keyed[i].1.as_str());
        text.append(after);
        proof {
            assert(all.take(i as int + 1).drop_last() =~= all.take(i as int));
            assert(all.take(i as int + 1).last() == all[i as int]);
            assert(text@ =~= old(text)@ + in_a_row(all.take(i as int + 1), before@, after@));
        }
        i += 1;
    }
    proof {
        assert(all.take(i as int) =~= all);
    }
}

/// The piece of a trait: its label between marks, keyed by the label.
pub open spec fn trait_piece(label: Trait) -> Piece {
    Piece { key: label@, text: "=="@ + label@ + "=="@ }
}

/// The line of traits: the mark of a unique creature, then the traits in
/// order of their labels, each between marks, with a space between any two.
pub open spec fn traits_line(traits: Seq<Trait>) -> Seq<char> {
    ("==Unique== "@ + in_a_row(
        in_order(traits.map_values(|label: Trait| trait_piece(label))),
        Seq::empty(),
        " "@,
    )).drop_last()
}

/// The piece of a skill: its name and its modifier with sign, followed by
/// a comma, keyed by the name.
pub open spec fn skill_piece(skill: (Skill, i16)) -> Piece {
    Piece {
        key: skill.0.name(),
        text: skill.0.name() + " "@ + signed_decimal(skill.1 as int) + ","@,
    }
}

/// The pieces of the skills whose modifier is not zero, in the order in
/// which the skills stand.
pub open spec fn skill_pieces(skills: Seq<(Skill, i16)>) -> Seq<Piece>
    decreases skills.len(),
{
    if skills.len() == 0 {
        Seq::empty()
    } else if skills.last().1 != 0 {
        skill_pieces(skills.drop_last()).push(skill_piece(skills.last()))
    } else {
        skill_pieces(skills.drop_last())
    }
}

/// The line of skills: the skills whose modifier is not zero, in order of
/// their names, each after a space and before a comma, without the last
/// comma.
pub open spec fn skills_line(skills: Seq<(Skill, i16)>) -> Seq<char> {
    let row = in_a_row(in_order(skill_pieces(skills)), " "@, Seq::empty());
    if row.len() == 0 {
        row
    } else {
        row.drop_last()
    }
}

/// The line of ability scores.
pub open spec fn attributes_line(attributes: AbilityStats) -> Seq<char> {
    "**Str** "@ + signed_decimal(attributes.strength as int) + ", **Dex** "@ + signed_decimal(
        attributes.dexterity as int,
    ) + ", **Con** "@ + signed_decimal(attributes.constitution as int) + ", **Int** "@
        + signed_decimal(attributes.intelligence as int) + ", **Wis** "@ + signed_decimal(
        attributes.wisdom as int,
    ) + ", **Cha** "@ + signed_decimal(attributes.charisma as int)
}

/// The line of armor class and saves.
pub open spec fn ac_and_saves_line(statblock: StatblockView) -> Seq<char> {
    "**AC** "@ + plain_decimal(statblock.armor_class as int) + "; **Fort** "@ + signed_decimal(
        statblock.fortitude_save as int,
    ) + ", **Ref** "@ + signed_decimal(statblock.reflex_save as int) + ", **Will** "@
        + signed_decimal(statblock.will_save as int)
}

/// The rule between the parts of a sheet.
pub open spec fn rule() -> Seq<char> {
    "\n---\n\n"@
}

/// The sheet of a statblock, line by line: the opening of the block, the
/// headings with name, class and level, the traits, perception, languages,
/// skills and ability scores; after a rule armor class, saves and hit
/// points; after a rule the speed; after a rule the narrative; and the
/// closing of the block.
pub open spec fn sheet_text(statblock: StatblockView) -> Seq<char> {
    "```pf2e-stats"@ + "\n"@ + ("# "@ + statblock.name) + "\n"@ + ("## "@ + statblock.class + " "@
        + plain_decimal(statblock.level as int)) + "\n"@ + traits_line(statblock.traits) + "\n\n"@
        + "**Perception** "@ + signed_decimal(statblock.perception as int) + "\n"@
        + "**Languages** "@ + "Common"@ + "\n"@ + "**Skills**"@ + skills_line(statblock.skills)
        + "\n"@ + attributes_line(statblock.attributes) + "\n"@ + rule() + ac_and_saves_line(
        statblock,
    ) + "\n"@ + ("**HP** "@ + plain_decimal(statblock.hit_points as int)) + "\n"@ + rule() + (
    "**Speed** "@ + plain_decimal(statblock.land_speed as int)) + "\n"@ + rule()
        + statblock.flavor.text() + "\n"@ + "```"@ + "\n"@
}

impl PF2eStats {
    /// The line that opens the sheet.
    pub fn start_codeblock() -> (line: &'static str)
        ensures
            line@ == "```pf2e-stats"@,
    {
        "```pf2e-stats"
    }

    /// The line that closes the sheet.
    pub fn end_codeblock() -> (line: &'static str)
        ensures
            line@ == "```"@,
    {
        "```"
    }

    /// The heading with the name of the creature.
    pub fn creature_name(&self) -> (line: String)
        ensures
            line@ == "# "@ + self.0@.name,
    {
        String::from_str("# ").concat(self.0.name())
    }

    /// The heading with the class and the level of the creature.
    pub fn creature_type_level(&self) -> (line: String)
        ensures
            line@ == "## "@ + self.0@.class + " "@ + plain_decimal(self.0@.level as int),
    {
        let mut line = String::from_str("## ");
        line.append(self.0.class());
        line.append(" ");
        push_plain(&mut line, self.0.level() as i64);
        line
    }

    /// The line of traits.
    pub fn traits(&self) -> (line: String)
        ensures
            line@ == traits_line(self.0@.traits),
    {
        let traits = self.0.traits();
        let mut keyed: Vec<(String, String)> = Vec::new();
        let mut i: usize = 0;
        let ghost pieces = traits@.map_values(|label: Trait| trait_piece(label));
        while i < traits.len()
            invariant
                i <= traits.len(),
                pieces == traits@.map_values(|label: Trait| trait_piece(label)),
                pieces_of(keyed@) =~= pieces.take(i as int),
            decreases traits.len() - i,
        {
            let mut text = String::from_str("==");
            text.append(traits[i].as_str());
            text.append("==");
            keyed.push((traits[i].to_string(), text));
            proof {
                assert(pieces.take(i as int + 1) =~= pieces.take(i as int).push(pieces[i as int]));
            }
            i += 1;
        }
        proof {
            assert(pieces.take(i as int) =~= pieces);
        }
        let sorted = sort_pieces(keyed);
        let mut line = String::from_str("==Unique== ");
        push_in_a_row(&mut line, &sorted, "", " ");
        proof {
            reveal_strlit("==Unique== ");
            reveal_strlit("");
            assert(""@ =~= Seq::<char>::empty());
        }
        let _ = line.pop();
        line
    }

    /// The languages of the creature.
    pub fn languages(&self) -> (line: String)
        ensures
            line@ == "Common"@,
    {
        String::from_str("Common")
    }

    /// The line of skills.
    pub fn skills(&self) -> (line: String)
        ensures
            line@ == skills_line(self.0@.skills),
    {
        let skills = self.0.skills();
        let mut keyed: Vec<(String, String)> = Vec::new();
        let mut i: usize = 0;
        proof {
            assert(skills@.take(0) =~= Seq::<(Skill, i16)>::empty());
        }
        while i < skills.len()
            invariant
                i <= skills.len(),
                pieces_of(keyed@) =~= skill_pieces(skills@.take(i as int)),
            decreases skills.len() - i,
        {
            proof {
                assert(skills@.take(i as int + 1).drop_last() =~= skills@.take(i as int));
                assert(skills@.take(i as int + 1).last() == skills@[i as int]);
            }
            if skills[i].1 != 0 {
                let name = skills[i].0.to_string();
                let mut text = name.clone();
                text.append(" ");
                push_signed(&mut text, skills[i].1 as i64);
                text.append(",");
                keyed.push((name, text));
            }
            i += 1;
        }
        proof {
            assert(skills@.take(i as int) =~= skills@);
        }
        let sorted = sort_pieces(keyed);
        let mut line = String::new();
        push_in_a_row(&mut line, &sorted, " ", "");
        proof {
            reveal_strlit("");
            assert(""@ =~= Seq::<char>::empty());
            assert(line@ =~= in_a_row(pieces_of(sorted@), " "@, Seq::empty()));
        }
        let _ = line.pop();
        line
    }

    /// The line of ability scores.
    pub fn attributes(&self) -> (line: String)
        ensures
            line@ == attributes_line(self.0@.attributes),
    {
        let attributes = self.0.attributes();
        let mut line = String::from_str("**Str** ");
        push_signed(&mut line, attributes.strength as i64);
        line.append(", **Dex** ");
        push_signed(&mut line, attributes.dexterity as i64);
        line.append(", **Con** ");
        push_signed(&mut line, attributes.constitution as i64);
        line.append(", **Int** ");
        push_signed(&mut line, attributes.intelligence as i64);
        line.append(", **Wis** ");
        push_signed(&mut line, attributes.wisdom as i64);
        line.append(", **Cha** ");
        push_signed(&mut line, attributes.charisma as i64);
        line
    }

    /// The line of armor class and saves.
    pub fn ac_and_saves(&self) -> (line: String)
        ensures
            line@ == ac_and_saves_line(self.0@),
    {
        let mut line = String::from_str("**AC** ");
        push_plain(&mut line, self.0.armor_class() as i64);
        line.append("; **Fort** ");
        push_signed(&mut line, self.0.fortitude_save() as i64);
        line.append(", **Ref** ");
        push_signed(&mut line, self.0.reflex_save() as i64);
        line.append(", **Will** ");
        push_signed(&mut line, self.0.will_save() as i64);
        line
    }

    /// The line of hit points.
    pub fn hp(&self) -> (line: String)
        ensures
            line@ == "**HP** "@ + plain_decimal(self.0@.hit_points as int),
    {
        let mut line = String::from_str("**HP** ");
        push_plain(&mut line, self.0.hit_points() as i64);
        line
    }

    /// The line of the speed.
    pub fn speed(&self) -> (line: String)
        ensures
            line@ == "**Speed** "@ + plain_decimal(self.0@.land_speed as int),
    {
        let mut line = String::from_str("**Speed** ");
        push_plain(&mut line, self.0.land_speed() as i64);
        line
    }

    /// The whole sheet.
    pub fn to_string(&self) -> (sheet: String)
        ensures
            sheet@ == sheet_text(self.0@),
    {
        let mut sheet = String::from_str(PF2eStats::start_codeblock());
        sheet.append("\n");
        sheet.append(self.creature_name().as_str());
        sheet.append("\n");
        sheet.append(self.creature_type_level().as_str());
        sheet.append("\n");
        sheet.append(self.traits().as_str());
        sheet.append("\n\n");
        sheet.append("**Perception** ");
        push_signed(&mut sheet, self.0.perception() as i64);
        sheet.append("\n");
        sheet.append("**Languages** ");
        sheet.append(self.languages().as_str());
        sheet.append("\n");
        sheet.append("**Skills**");
        sheet.append(self.skills().as_str());
        sheet.append("\n");
        sheet.append(self.attributes().as_str());
        sheet.append("\n");
        sheet.append("\n---\n\n");
        sheet.append(self.ac_and_saves().as_str());
        sheet.append("\n");
        sheet.append(self.hp().as_str());
        sheet.append("\n");
        sheet.append("\n---\n\n");
        sheet.append(self.speed().as_str());
        sheet.append("\n");
        sheet.append("\n---\n\n");
        sheet.append(self.0.flavor().to_string().as_str());
        sheet.append("\n");
        sheet.append(PF2eStats::end_codeblock());
        sheet.append("\n");
        sheet
    }
}

} // verus!

