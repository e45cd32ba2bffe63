//! The character sheet: what is saved, and what the panels show.

use crate::dice::RollOutcome;
use crate::stats::{Skills, Stats};
use vstd::prelude::*;

verus! {

/// The state of one character sheet.
pub struct SheetState {
    pub name: String,
    pub level: i64,
    pub stats: Stats,
    pub skills: Skills,
    /// The rolls made, the latest last.
    pub rolls: Vec<RollOutcome>,
}

impl Default for SheetState {
    /// A sheet without a name, at level nothing, with a score of ten in
    /// each ability, the standard skills untrained, and no rolls made.
    fn default() -> (sheet: SheetState)
        ensures
            sheet.name@.len() == 0,
            sheet.level == 0,
            forall|stat: crate::stats::Stat| sheet.stats.recorded(stat) == Some(10i8),
            sheet.skills.0@.len() == crate::stats::standard_skills().len(),
            sheet.rolls@.len() == 0,
    {
        SheetState {
            name: String::new(),
            level: 0,
            stats: Stats::default(),
            skills: Skills::default(),
            rolls: Vec::new(),
        }
    }
}

} // verus!
