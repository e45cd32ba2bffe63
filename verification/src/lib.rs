//! A character sheet for the terminal.
//!
//! The heart of the crate is [`view`]: panels of differing shapes are stacked
//! into columns, one selection coordinate is kept across them, and cursor
//! movement between columns is remapped through where the panels lie on the
//! screen. Around it stand the sheet's own data ([`stats`], [`roll`],
//! [`spells`]) and the shapes of its panels ([`els`]).

pub mod arrange;
pub mod dice;
pub mod editors;
pub mod els;
pub mod geometry;
pub mod precedence;
pub mod roll;
pub mod sheet;
pub mod spells;
pub mod stats;
pub mod text;
pub mod view;
