//! One spell, and how one is made from what is downloaded.

use crate::spells::description::{described, parse_xml_description, readable, SpellDescription};
use crate::spells::markup::{is_called, markup_of};
use vstd::prelude::*;

verus! {

/// How rare a spell is.
#[derive(Clone, Copy, Debug, PartialEq, Eq, Structural)]
pub enum Rarity {
    Common,
    Uncommon,
    Rare,
    Unique,
}

/// `text` in lower case, as `str::to_lowercase` gives it.
pub uninterp spec fn lowercase_of(text: Seq<char>) -> Seq<char>;

/// `str::to_lowercase`.
#[verifier::external_body]
fn lowercase(text: &str) -> (lowered: String)
    ensures
        lowered@ == lowercase_of(text@),
{
    text.to_lowercase()
}

impl Rarity {
    /// The rarity that is called `name`, in lower case; common where none
    /// is.
    pub open spec fn named(name: Seq<char>) -> Rarity {
        if name == "unique"@ {
            Rarity::Unique
        } else if name == "rare"@ {
            Rarity::Rare
        } else if name == "uncommon"@ {
            Rarity::Uncommon
        } else {
            Rarity::Common
        }
    }

    /// The rarity that is called `name`, in lower case.
    pub fn from_lowercase(name: &String) -> (rarity: Rarity)
        ensures
            rarity == Self::named(name@),
    {
        if is_called(name, "unique") {
            Rarity::Unique
        } else if is_called(name, "rare") {
            Rarity::Rare
        } else if is_called(name, "uncommon") {
            Rarity::Uncommon
        } else {
            Rarity::Common
        }
    }

    /// The rarity that is called `str`, in whatever case.
    pub fn parse(str: &str) -> (rarity: Rarity)
        ensures
            rarity == Self::named(lowercase_of(str@)),
    {
        let lowered = lowercase(str);
        Self::from_lowercase(&lowered)
    }
}

/// A spell.
#[derive(Clone, Debug)]
pub struct Spell {
    pub name: String,
    pub rarity: Rarity,
    pub rank: i8,
    pub traditions: Vec<String>,
    pub traits: Vec<String>,
    pub target: String,
    pub range: String,
    pub time: String,
    pub duration: String,
    pub sustained: bool,
    pub description: SpellDescription,
    pub publication: String,
}

/// A spell as it is downloaded: its rarity by name, its description as
/// markup.
pub struct SpellsDataEntry {
    pub name: String,
    pub rank: i8,
    pub rarity: String,
    pub target: String,
    pub range: String,
    pub time: String,
    pub duration: String,
    pub sustained: bool,
    pub description: String,
    pub traditions: Vec<String>,
    pub traits: Vec<String>,
    pub publication: String,
}

/// Whether `spell` is what `entry` tells of: with the rarity of that name,
/// the description that its markup gives, and all else as it is.
pub open spec fn tells_of(entry: SpellsDataEntry, spell: Spell) -> bool {
    &&& spell.name == entry.name
    &&& spell.rarity == Rarity::named(lowercase_of(entry.rarity@))
    &&& spell.rank == entry.rank
    &&& spell.traditions == entry.traditions
    &&& spell.traits == entry.traits
    &&& spell.target == entry.target
    &&& spell.range == entry.range
    &&& spell.time == entry.time
    &&& spell.duration == entry.duration
    &&& spell.sustained == entry.sustained
    &&& spell.description@ == described(markup_of(entry.description@))
    &&& spell.publication == entry.publication
}

/// The spell that `entry` tells of, where its description can be read.
pub fn entry_to_spell(entry: SpellsDataEntry) -> (spell: Option<Spell>)
    ensures
        spell is Some <==> readable(markup_of(entry.description@)),
        match spell {
            Some(spell) => tells_of(entry, spell),
            None => true,
        },
{
    let description = match parse_xml_description(entry.description.as_str()) {
        Some(description) => description,
        None => {
            return None;
        },
    };
    Some(
        Spell {
            name: entry.name,
            rarity: Rarity::parse(entry.rarity.as_str()),
            rank: entry.rank,
            traditions: entry.traditions,
            traits: entry.traits,
            target: entry.target,
            range: entry.range,
            time: entry.time,
            duration: entry.duration,
            sustained: entry.sustained,
            description,
            publication: entry.publication,
        },
    )
}

/// The spells that `entries` tell of, in their order; none where the
/// description of one cannot be read.
pub fn entries_to_spells(entries: Vec<SpellsDataEntry>) -> (spells: Option<Vec<Spell>>)
    ensures
        spells is Some <==> forall|i: int|
            0 <= i < entries@.len() ==> readable(markup_of((#[trigger] entries@[i]).description@)),
        match spells {
            Some(spells) => {
                &&& spells@.len() == entries@.len()
                &&& forall|i: int|
                    0 <= i < spells@.len() ==> tells_of(entries@[i], #[trigger] spells@[i])
            },
            None => true,
        },
{
    let mut rest = entries;
    let ghost all = rest@;
    let mut backwards: Vec<Spell> = Vec::new();
    while rest.len() > 0
        invariant
            all == entries@,
            rest@.len() <= all.len(),
            rest@ == all.take(rest@.len() as int),
            backwards@.len() == all.len() - rest@.len(),
            forall|i: int|
                rest@.len() <= i < all.len() ==> readable(
                    markup_of((#[trigger] all[i]).description@),
                ),
            forall|k: int|
                0 <= k < backwards@.len() ==> tells_of(
                    all[all.len() - 1 - k],
                    #[trigger] backwards@[k],
                ),
        decreases rest@.len(),
    {
        let ghost before = rest@;
        let entry = rest.pop().unwrap();
        assert(rest@ =~= all.take(rest@.len() as int));
        assert(entry == all[before.len() - 1]);
        match entry_to_spell(entry) {
            Some(spell) => {
                backwards.push(spell);
            },
            None => {
                assert(!readable(markup_of(all[before.len() - 1].description@)));
                return None;
            },
        }
    }
    let mut spells: Vec<Spell> = Vec::new();
    while backwards.len() > 0
        invariant
            all == entries@,
            spells@.len() + backwards@.len() == all.len(),
            forall|k: int|
                0 <= k < backwards@.len() ==> tells_of(
                    all[all.len() - 1 - k],
                    #[trigger] backwards@[k],
                ),
            forall|i: int| 0 <= i < spells@.len() ==> tells_of(all[i], #[trigger] spells@[i]),
        decreases backwards@.len(),
    {
        let spell = backwards.pop().unwrap();
        spells.push(spell);
    }
    Some(spells)
}

} // verus!
