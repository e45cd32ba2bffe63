//! What is written of a spell where one is shown.

use crate::els::{narrow, narrowed};
use crate::geometry::Constraint;
use crate::spells::spell::{Rarity, Spell};
use crate::text::{signed_decimal, signed_decimal_text};
use vstd::prelude::*;

verus! {

/// The lines that show a spell.
pub struct SpellLines {
    /// Name, rank and rarity.
    pub title: String,
    pub publication: String,
    /// Traits and traditions.
    pub traits: String,
    /// How it is cast, at what, and for how long: a line for each that is
    /// known.
    pub prefix: Vec<String>,
}

/// The name of a rarity.
pub open spec fn rarity_name(rarity: Rarity) -> Seq<char> {
    match rarity {
        Rarity::Common => "Common"@,
        Rarity::Uncommon => "Uncommon"@,
        Rarity::Rare => "Rare"@,
        Rarity::Unique => "Unique"@,
    }
}

/// The first `n` of `items` with a comma and a space between one and the
/// next.
pub open spec fn listed(items: Seq<String>, n: int) -> Seq<char>
    decreases n,
{
    if n <= 0 {
        Seq::empty()
    } else if n == 1 {
        items[0]@
    } else {
        listed(items, n - 1) + ", "@ + items[n - 1]@
    }
}

/// The line that names a spell: its name, its rank and its rarity.
pub open spec fn title_of(spell: &Spell) -> Seq<char> {
    spell.name@ + " (Spell "@ + signed_decimal(spell.rank as int) + ") ("@ + rarity_name(
        spell.rarity,
    ) + ")"@
}

/// The line of traits and traditions.
pub open spec fn traits_of(spell: &Spell) -> Seq<char> {
    listed(spell.traits@, spell.traits@.len() as int) + " | "@ + listed(
        spell.traditions@,
        spell.traditions@.len() as int,
    )
}

/// The line that says at what a spell is cast: its range and its targets,
/// each where it is known.
pub open spec fn targeting_of(spell: &Spell) -> Seq<char> {
    (if spell.range@.len() > 0 {
        "Range: "@ + spell.range@
    } else {
        Seq::empty()
    }) + (if spell.target@.len() > 0 {
        "Targets: "@ + spell.target@
    } else {
        Seq::empty()
    })
}

/// The line that says how long a spell lasts.
pub open spec fn duration_of(spell: &Spell) -> Seq<char> {
    (if spell.duration@.len() > 0 {
        "Duration: "@ + spell.duration@
    } else {
        Seq::empty()
    }) + (if spell.sustained {
        " (sustained)"@
    } else {
        Seq::empty()
    })
}

/// The lines that say how a spell is cast: the casting time, the
/// targeting and the duration, each where there is anything to say.
pub open spec fn prefix_of(spell: &Spell) -> Seq<Seq<char>> {
    (if spell.time@.len() > 0 {
        seq!["Cast: "@ + spell.time@]
    } else {
        Seq::empty()
    }) + (if targeting_of(spell).len() > 0 {
        seq![targeting_of(spell)]
    } else {
        Seq::empty()
    }) + (if duration_of(spell).len() > 0 {
        seq![duration_of(spell)]
    } else {
        Seq::empty()
    })
}

/// `items` with a comma and a space between one and the next.
pub fn join(items: &Vec<String>) -> (text: String)
    ensures
        text@ == listed(items@, items@.len() as int),
{
    let mut text = String::new();
    let mut i: usize = 0;
    while i < items.len()
        invariant
            i <= items@.len(),
            text@ == listed(items@, i as int),
        decreases items@.len() - i,
    {
        let ghost before = text@;
        if i > 0 {
            text.append(", ");
        }
        text.append(items[i].as_str());
        proof {
            if i == 0 {
                assert(text@ =~= items@[0]@);
            } else {
                assert(text@ =~= before + ", "@ + items@[i as int]@);
            }
        }
        i += 1;
    }
    text
}

/// Whether `text` has any characters.
fn filled(text: &String) -> (yes: bool)
    ensures
        yes == (text@.len() > 0),
{
    text.as_str().unicode_len() > 0
}

/// The lines that show `spell`.
pub fn spell_lines(spell: &Spell) -> (lines: SpellLines)
    ensures
        lines.title@ == title_of(spell),
        lines.publication@ == spell.publication@,
        lines.traits@ == traits_of(spell),
        crate::spells::github::names_view(lines.prefix@) == prefix_of(spell),
{
    let mut prefix: Vec<String> = Vec::new();
    assert(crate::spells::github::names_view(prefix@) =~= Seq::empty());
    if filled(&spell.time) {
        let mut cast = "Cast: ".to_owned();
        cast.append(spell.time.as_str());
        prefix.push(cast);
        assert(crate::spells::github::names_view(prefix@) =~= seq!["Cast: "@ + spell.time@]);
    }
    let mut targeting = String::new();
    if filled(&spell.range) {
        targeting.append("Range: ");
        targeting.append(spell.range.as_str());
    }
    if filled(&spell.target) {
        targeting.append("Targets: ");
        targeting.append(spell.target.as_str());
    }
    assert(targeting@ =~= targeting_of(spell));
    if filled(&targeting) {
        let ghost before = crate::spells::github::names_view(prefix@);
        prefix.push(targeting);
        assert(crate::spells::github::names_view(prefix@) =~= before + seq![targeting_of(spell)]);
    }
    let mut duration = String::new();
    if filled(&spell.duration) {
        duration.append("Duration: ");
        duration.append(spell.duration.as_str());
    }
    if spell.sustained {
        duration.append(" (sustained)");
    }
    assert(duration@ =~= duration_of(spell));
    if filled(&duration) {
        let ghost before = crate::spells::github::names_view(prefix@);
        prefix.push(duration);
        assert(crate::spells::github::names_view(prefix@) =~= before + seq![duration_of(spell)]);
    }
    assert(crate::spells::github::names_view(prefix@) =~= prefix_of(spell));

    let mut title = spell.name.clone();
    title.append(" (Spell ");
    let rank = signed_decimal_text(spell.rank as i64);
    title.append(rank.as_str());
    title.append(") (");
    title.append(
        match spell.rarity {
            Rarity::Common => "Common",
            Rarity::Uncommon => "Uncommon",
            Rarity::Rare => "Rare",
            Rarity::Unique => "Unique",
        },
    );
    title.append(")");
    assert(title@ =~= title_of(spell));

    let mut traits = join(&spell.traits);
    traits.append(" | ");
    let traditions = join(&spell.traditions);
    traits.append(traditions.as_str());

    SpellLines { title, publication: spell.publication.clone(), traits, prefix }
}

/// The heights of the rows that a spell is shown in: its title, its
/// publication, its traits, one for each of `prefix` lines, and the rest
/// for the description.
pub fn spell_rows(prefix: usize) -> (rows: Vec<Constraint>)
    ensures
        rows@ == seq![
            Constraint::Length(1),
            Constraint::Length(1),
            Constraint::Length(1),
            Constraint::Length(narrowed(prefix as int)),
            Constraint::Fill(1),
        ],
{
    let mut rows: Vec<Constraint> = Vec::new();
    rows.push(Constraint::Length(1));
    rows.push(Constraint::Length(1));
    rows.push(Constraint::Length(1));
    rows.push(Constraint::Length(narrow(prefix)));
    rows.push(Constraint::Fill(1));
    rows
}

} // verus!
