//! Spells, and the book that holds them.

pub mod book;
pub mod description;
pub mod github;
pub mod markup;
pub mod spell;
pub mod widget;

pub use description::{
    describe, parse_xml_description, Glyph, Inline, SpellDescEl, SpellDescTable,
    SpellDescTableRow, SpellDescription,
};
pub use book::{SpellBook, SpellBookQuery};
pub use markup::Markup;
pub use spell::{entry_to_spell, Rarity, Spell, SpellsDataEntry};
