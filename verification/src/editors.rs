//! What the keys do in the editors that float above the sheet, and how
//! much room the editors ask for.

use crate::els::{narrow, narrowed, BORDER};
use crate::geometry::{Constraint, Dims};
use crate::stats::Proficiency;
use crate::text::{byte_width, signed_decimal, signed_decimal_text, width_of};
use crate::view::event::KeyCode;
use crate::view::layout::Navigation;
use vstd::prelude::*;

verus! {

/// What a key does in an editor of a value.
#[derive(Clone, Copy, Debug, PartialEq, Eq, Structural)]
pub enum EditorStep<V> {
    /// The value is done: it is applied, and the editor closes.
    Submit(V),
    /// The editor closes and nothing is applied.
    Cancel,
    /// The value changes to this; the key is used.
    Edit(V),
    /// The key is not the editor's.
    Pass,
}

/// What `code` does in an editor of a whole number that holds `value`:
/// Enter submits it, a key to the left takes one from it and a key to the
/// right adds one to it, not past the least and the greatest whole number.
pub open spec fn int_step(code: KeyCode, value: i64) -> EditorStep<i64> {
    if code == KeyCode::Enter {
        EditorStep::Submit(value)
    } else {
        match Navigation::of_key(code) {
            Some(Navigation::Left) => EditorStep::Edit(
                if value == i64::MIN {
                    value
                } else {
                    (value - 1) as i64
                },
            ),
            Some(Navigation::Right) => EditorStep::Edit(
                if value == i64::MAX {
                    value
                } else {
                    (value + 1) as i64
                },
            ),
            _ => EditorStep::Pass,
        }
    }
}

pub fn int_editor_key(code: KeyCode, value: i64) -> (step: EditorStep<i64>)
    ensures
        step == int_step(code, value),
{
    match code {
        KeyCode::Enter => EditorStep::Submit(value),
        _ => {
            match Navigation::from_key_code(code) {
                Some(Navigation::Left) => EditorStep::Edit(
                    if value == i64::MIN {
                        value
                    } else {
                        value - 1
                    },
                ),
                Some(Navigation::Right) => EditorStep::Edit(
                    if value == i64::MAX {
                        value
                    } else {
                        value + 1
                    },
                ),
                _ => EditorStep::Pass,
            }
        },
    }
}

/// What `code` does in the editor of a proficiency that holds
/// `proficiency`: Enter submits it, a key upward lessens it and a key
/// downward raises it.
pub open spec fn skill_step(code: KeyCode, proficiency: Proficiency) -> EditorStep<int> {
    if code == KeyCode::Enter {
        EditorStep::Submit(proficiency.rank())
    } else {
        match Navigation::of_key(code) {
            Some(Navigation::Up) => EditorStep::Edit(
                if proficiency.rank() > 0 {
                    proficiency.rank() - 1
                } else {
                    0
                },
            ),
            Some(Navigation::Down) => EditorStep::Edit(
                if proficiency.rank() < 4 {
                    proficiency.rank() + 1
                } else {
                    4
                },
            ),
            _ => EditorStep::Pass,
        }
    }
}

/// The rank of the proficiency that a step holds.
pub open spec fn ranked(step: EditorStep<Proficiency>) -> EditorStep<int> {
    match step {
        EditorStep::Submit(p) => EditorStep::Submit(p.rank()),
        EditorStep::Cancel => EditorStep::Cancel,
        EditorStep::Edit(p) => EditorStep::Edit(p.rank()),
        EditorStep::Pass => EditorStep::Pass,
    }
}

pub fn skill_editor_key(code: KeyCode, proficiency: Proficiency) -> (step: EditorStep<Proficiency>)
    ensures
        ranked(step) == skill_step(code, proficiency),
{
    match code {
        KeyCode::Enter => EditorStep::Submit(proficiency),
        _ => {
            match Navigation::from_key_code(code) {
                Some(Navigation::Up) => EditorStep::Edit(proficiency.decrease()),
                Some(Navigation::Down) => EditorStep::Edit(proficiency.increase()),
                _ => EditorStep::Pass,
            }
        },
    }
}

/// What `code` does in the editor of a line of text, before the line
/// itself gets the key: Enter submits the line and Escape gives it up.
pub fn string_editor_key(code: KeyCode) -> (step: EditorStep<()>)
    ensures
        step == (match code {
            KeyCode::Enter => EditorStep::Submit(()),
            KeyCode::Esc => EditorStep::Cancel,
            _ => EditorStep::<()>::Pass,
        }),
{
    match code {
        KeyCode::Enter => EditorStep::Submit(()),
        KeyCode::Esc => EditorStep::Cancel,
        _ => EditorStep::Pass,
    }
}

/// The room that the line of an editor of text asks for.
pub fn string_editor_dimensions() -> (d: Dims)
    ensures
        d == (Dims { x: Constraint::Min(16), y: Constraint::Length(3) }),
{
    Dims::new(Constraint::Min(16), Constraint::Length(3))
}

/// The room that the modal of an editor of text asks for.
pub fn string_modal_dimensions() -> (d: Dims)
    ensures
        d == (Dims { x: Constraint::Min(24), y: Constraint::Length(3) }),
{
    Dims::new(Constraint::Min(24), Constraint::Length(1 + BORDER))
}

/// The room that the list of proficiencies of `skill` asks for: as wide as
/// the name of the skill and the border, a row for each proficiency, and
/// the border.
pub fn skill_editor_dimensions(skill: &str) -> (d: Dims)
    ensures
        d.x == Constraint::Min(crate::geometry::clip(narrowed(width_of(skill@) as int) + BORDER)),
        d.y == Constraint::Length(7),
{
    Dims::new(
        Constraint::Min(narrow(byte_width(skill)).saturating_add(BORDER)),
        Constraint::Length(5 + BORDER),
    )
}

/// The room that an editor of a whole number asks for while it holds
/// `value`: the digits and sign of the value, and an arrow with a space on
/// either side.
pub fn int_editor_dimensions(value: i64) -> (d: Dims)
    ensures
        d.x == Constraint::Length(
            crate::geometry::clip(narrowed(width_of(signed_decimal(value as int)) as int) + 4),
        ),
        d.y == Constraint::Length(1),
{
    let text = signed_decimal_text(value);
    Dims::new(
        Constraint::Length(narrow(byte_width(text.as_str())).saturating_add(4)),
        Constraint::Length(1),
    )
}

/// The room that the modal of an editor of a whole number asks for.
pub fn int_modal_dimensions() -> (d: Dims)
    ensures
        d == (Dims { x: Constraint::Length(8), y: Constraint::Length(3) }),
{
    Dims::new(Constraint::Length(2 + 2 + 2 + BORDER), Constraint::Length(1 + BORDER))
}

/// The room that the modal of the editor of a score asks for: that of a
/// whole number, and a row for the modifier that the score gives.
pub fn stat_modal_dimensions() -> (d: Dims)
    ensures
        d == (Dims { x: Constraint::Length(8), y: Constraint::Length(4) }),
{
    Dims::new(Constraint::Length(2 + 2 + 2 + BORDER), Constraint::Length(2 + BORDER))
}

/// The room that the modal of a roll asks for when what it shows asks for
/// `shown`: an exact width and the border, and sixteen cells where the
/// width is not exact; two rows, and the border.
pub fn roll_modal_dimensions(shown: Dims) -> (d: Dims)
    ensures
        d.x == Constraint::Length(
            match shown.x {
                Constraint::Length(w) => crate::geometry::clip(w + BORDER),
                _ => 16,
            },
        ),
        d.y == Constraint::Length(4),
{
    let width = match shown.width() {
        Constraint::Length(w) => w.saturating_add(BORDER),
        _ => 16,
    };
    Dims::new(Constraint::Length(width), Constraint::Length(2 + BORDER))
}

} // verus!
