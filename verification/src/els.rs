//! The shapes of the sheet's panels: how much room each asks for, how many
//! children it has and where they lie, and what it shows.

use crate::arrange::split;
use crate::geometry::{centre_of, centre_point, clip, Constraint, Dims, Direction, Rect};
use crate::sheet::SheetState;
use crate::stats::{modifier_of, Proficiency, Stat};
use crate::text::{
    byte_width, decimal, push_char, signed_decimal, signed_decimal_text, width_of,
};
use crate::view::element::ElSimp;
use crate::view::event::{HandleResult, Occasion};
use crate::view::surface::{draw_line, frame_cells, frame_extent, line_written};
use vstd::prelude::*;

verus! {

/// The cells that a border takes from the width or height inside it.
pub const BORDER: u16 = 2;

/// The faces of the dice that can be rolled at a key press.
pub const DICE: [u32; 6] = [4, 6, 8, 10, 12, 20];

pub type State = SheetState;

/// `n`, as sixteen bits hold it: what is left of it when sixty-five
/// thousand five hundred and thirty-six is taken from it as often as can
/// be.
pub open spec fn narrowed(n: int) -> u16 {
    (n % 0x1_0000) as u16
}

/// `n`, as sixteen bits hold it.
pub fn narrow(n: usize) -> (r: u16)
    ensures
        r == narrowed(n as int),
{
    (n % 0x1_0000) as u16
}

/// `modifier` as it is shown: with its sign, a plus for nothing and more.
pub open spec fn shown_modifier(modifier: int) -> Seq<char> {
    if modifier < 0 {
        signed_decimal(modifier)
    } else {
        seq!['+'] + decimal(modifier as nat)
    }
}

pub fn format_modifier(modifier: i64) -> (text: String)
    ensures
        text@ == shown_modifier(modifier as int),
{
    if modifier < 0 {
        signed_decimal_text(modifier)
    } else {
        let mut text = String::new();
        push_char(&mut text, '+');
        let digits = signed_decimal_text(modifier);
        text.append(digits.as_str());
        assert(text@ =~= seq!['+'] + decimal(modifier as nat));
        text
    }
}

/// A line of text.
pub struct Text(pub String);

impl Text {
    pub fn new(text: &str) -> (el: Self)
        ensures
            el.0@ == text@,
    {
        Self(text.to_owned())
    }

    /// As wide as the text has bytes, and one row high.
    pub fn dimensions(&self) -> (d: Dims)
        ensures
            d.x == Constraint::Length(narrowed(width_of(self.0@) as int)),
            d.y == Constraint::Length(1),
    {
        Dims::new(Constraint::Length(narrow(byte_width(self.0.as_str()))), Constraint::Length(1))
    }
}

impl<S, T> ElSimp<S, T> for Text {
    open spec fn dims(&self) -> Dims {
        Dims {
            x: Constraint::Length(narrowed(width_of(self.0@) as int)),
            y: Constraint::Length(1),
        }
    }

    /// The text is written on one line into `area`, selected or not.
    open spec fn draws(
        &self,
        before: ratatui::Frame,
        after: ratatui::Frame,
        area: Rect,
        _state: &S,
        _selected: bool,
    ) -> bool {
        &&& frame_extent(after) == frame_extent(before)
        &&& frame_cells(after) == line_written(
            frame_cells(before),
            frame_extent(before),
            area,
            self.0@,
        )
    }

    /// A line of text has no answer of its own to anything.
    open spec fn acts(
        &self,
        _occasion: Occasion,
        _before: S,
        _after: S,
        _result: HandleResult<T>,
    ) -> bool {
        false
    }

    fn dimensions(&self) -> (d: Dims) {
        Text::dimensions(self)
    }

    fn render(&self, frame: &mut ratatui::Frame, area: Rect, _state: &S, _selected: bool) {
        draw_line(frame, area, self.0.as_str());
    }
}

/// Element that renders a single statistic with modifier.
pub struct StatEl(pub Stat);

impl StatEl {
    pub fn new(stat: Stat) -> (el: Self)
        ensures
            el.0 == stat,
    {
        Self(stat)
    }

    pub fn dimensions(&self) -> (d: Dims)
        ensures
            d == (Dims { x: Constraint::Min(4), y: Constraint::Length(4) }),
    {
        Dims::new(Constraint::Min(4), Constraint::Length(4))
    }

    /// What stands above the box: the short name of the ability.
    pub fn title(&self) -> (title: String)
        ensures
            title@ == self.0.abbreviation(),
    {
        self.0.short()
    }

    /// The two lines in the box: the score, and the modifier it gives.
    pub fn lines(&self, state: &State) -> (lines: (String, String))
        ensures
            lines.0@ == signed_decimal(state.stats.spec_score(self.0) as int),
            lines.1@ == shown_modifier(modifier_of(state.stats.spec_score(self.0))),
    {
        let value = state.stats.score(self.0);
        (signed_decimal_text(value as i64), format_modifier(Stat::modifier(value)))
    }
}

/// One row of the table of skills.
pub struct SkillRow {
    pub name: String,
    pub stat: String,
    pub proficiency: String,
    pub modifier: String,
}

/// The letter by which a proficiency is shown: the first of its name, and a
/// blank for untrained.
pub open spec fn proficiency_letter(proficiency: Proficiency) -> char {
    match proficiency {
        Proficiency::Untrained => ' ',
        Proficiency::Trained => 'T',
        Proficiency::Expert => 'E',
        Proficiency::Master => 'M',
        Proficiency::Legendary => 'L',
    }
}

/// Element that renders a table of all skills present in the state.
pub struct SkillsEl;

impl SkillsEl {
    /// The bytes of the longest of the first `n` names of skills.
    pub open spec fn longest(state: &State, n: int) -> usize
        decreases n,
    {
        if n <= 0 {
            0
        } else {
            let before = Self::longest(state, n - 1);
            let this = width_of(state.skills.0@[n - 1].name@);
            if this > before {
                this
            } else {
                before
            }
        }
    }

    /// Whether the check of each skill on `state` can be worked out.
    pub open spec fn can_be_shown(state: &State) -> bool {
        forall|i: int|
            0 <= i < state.skills.0@.len() ==> (#[trigger] state.skills.0@[i]).checkable(state)
    }

    /// The centre of row `selected` in `area`: the middle column, and the
    /// row that many below the top border.
    pub open spec fn centre(area: Rect, selected: usize) -> (u16, u16) {
        (
            centre_point(Rect { x: area.x, y: 0, width: area.width, height: 0 }).0,
            clip(area.y + narrowed(selected as int) + BORDER / 2),
        )
    }

    /// The row of the table at screen row `y`, for a table of `rows` rows
    /// in `area`: as many below the top border as `y` is, held to the
    /// table's rows.
    pub open spec fn index_at(area: Rect, rows: nat, y: u16) -> usize {
        let below = y - clip(area.y + BORDER / 2);
        if rows == 0 || below < 0 {
            0
        } else if below < rows {
            below as usize
        } else {
            (rows - 1) as usize
        }
    }

    pub fn direction(&self) -> (d: Direction)
        ensures
            d == Direction::Vertical,
    {
        Direction::Vertical
    }

    /// Wide enough for the longest name, a gap, the proficiency and the
    /// border; one row for each skill, and the border.
    pub fn dimensions(&self, state: &State) -> (d: Dims)
        ensures
            d.x == Constraint::Min(
                clip(narrowed(Self::longest(state, state.skills.0@.len() as int) as int) + 5 + BORDER),
            ),
            d.y == Constraint::Length(clip(narrowed(state.skills.0@.len() as int) + BORDER)),
    {
        let mut longest: usize = 0;
        let mut i: usize = 0;
        while i < state.skills.0.len()
            invariant
                i <= state.skills.0@.len(),
                longest == Self::longest(state, i as int),
            decreases state.skills.0@.len() - i,
        {
            let this = byte_width(state.skills.0[i].name.as_str());
            if this > longest {
                longest = this;
            }
            i += 1;
        }
        // 1 for gap, 4 for proficiency, 2 for border
        let min_width = narrow(longest).saturating_add(5).saturating_add(BORDER);
        Dims::new(
            Constraint::Min(min_width),
            Constraint::Length(narrow(state.skills.0.len()).saturating_add(BORDER)),
        )
    }

    pub fn child_count(&self, state: &State) -> (n: usize)
        ensures
            n == state.skills.0@.len(),
    {
        state.skills.0.len()
    }

    pub fn child_pos(&self, area: Rect, _state: &State, selected: usize) -> (p: (u16, u16))
        ensures
            p == Self::centre(area, selected),
    {
        let x = area.x.saturating_add(area.width / 2);
        let y = area.y.saturating_add(narrow(selected)).saturating_add(BORDER / 2);
        (x, y)
    }

    pub fn child_at_pos(&self, area: Rect, state: &State, _x: u16, y: u16) -> (index: usize)
        ensures
            index == Self::index_at(area, state.skills.0@.len(), y),
    {
        let below = y.saturating_sub(area.y.saturating_add(BORDER / 2)) as usize;
        let last = state.skills.0.len().saturating_sub(1);
        if below < last {
            below
        } else {
            last
        }
    }

    /// The row that is found at the centre of a row of the table is that
    /// row, as long as the table does not reach past the largest
    /// coordinate.
    pub proof fn lemma_round_trip(area: Rect, rows: nat, selected: usize)
        requires
            selected < rows,
            area.y + selected + BORDER / 2 <= u16::MAX,
        ensures
            Self::index_at(area, rows, Self::centre(area, selected).1) == selected,
    {
    }

    /// The rows of the table: for each skill its name, the short name of
    /// its ability, the letter of its proficiency and the modifier of a
    /// check.
    pub fn rows(&self, state: &State) -> (rows: Vec<SkillRow>)
        requires
            Self::can_be_shown(state),
        ensures
            rows@.len() == state.skills.0@.len(),
            forall|i: int|
                0 <= i < rows@.len() ==> {
                    &&& (#[trigger] rows@[i]).name@ == state.skills.0@[i].name@
                    &&& rows@[i].stat@ == state.skills.0@[i].stat.abbreviation()
                    &&& rows@[i].proficiency@ == seq![
                        proficiency_letter(state.skills.0@[i].proficiency),
                    ]
                    &&& rows@[i].modifier@ == shown_modifier(state.skills.0@[i].check(state))
                },
    {
        let mut rows: Vec<SkillRow> = Vec::new();
        let mut i: usize = 0;
        while i < state.skills.0.len()
            invariant
                i <= state.skills.0@.len(),
                Self::can_be_shown(state),
                rows@.len() == i,
                forall|k: int|
                    0 <= k < i ==> {
                        &&& (#[trigger] rows@[k]).name@ == state.skills.0@[k].name@
                        &&& rows@[k].stat@ == state.skills.0@[k].stat.abbreviation()
                        &&& rows@[k].proficiency@ == seq![
                            proficiency_letter(state.skills.0@[k].proficiency),
                        ]
                        &&& rows@[k].modifier@ == shown_modifier(state.skills.0@[k].check(state))
                    },
            decreases state.skills.0@.len() - i,
        {
            let skill = &state.skills.0[i];
            let mut letter = String::new();
            push_char(
                &mut letter,
                match skill.proficiency {
                    Proficiency::Untrained => ' ',
                    Proficiency::Trained => 'T',
                    Proficiency::Expert => 'E',
                    Proficiency::Master => 'M',
                    Proficiency::Legendary => 'L',
                },
            );
            rows.push(
                SkillRow {
                    name: skill.name.clone(),
                    stat: skill.stat.short(),
                    proficiency: letter,
                    modifier: format_modifier(skill.modifier(state)),
                },
            );
            i += 1;
        }
        rows
    }

    /// The width of each column of the table.
    pub fn column_widths(&self) -> (widths: Vec<Constraint>)
        ensures
            widths@ == seq![
                Constraint::Fill(1),
                Constraint::Max(3),
                Constraint::Max(1),
                Constraint::Max(3),
            ],
    {
        let mut widths: Vec<Constraint> = Vec::new();
        widths.push(Constraint::Fill(1));
        widths.push(Constraint::Max(3));
        widths.push(Constraint::Max(1));
        widths.push(Constraint::Max(3));
        widths
    }

    /// The modifier of a check of the skill in row `selected`, where there
    /// is such a row and the modifier can be worked out.
    pub fn check_modifier(&self, state: &State, selected: usize) -> (modifier: Option<i64>)
        ensures
            modifier == (if selected < state.skills.0@.len() && state.skills.0@[selected as int].checkable(
                state,
            ) {
                Some(state.skills.0@[selected as int].check(state) as i64)
            } else {
                None
            }),
    {
        if selected < state.skills.0.len() {
            state.skills.0[selected].checked_modifier(state)
        } else {
            None
        }
    }

    /// Whether the check of each skill can be worked out, and so the rows
    /// of the table written.
    pub fn can_show(&self, state: &State) -> (yes: bool)
        ensures
            yes == Self::can_be_shown(state),
    {
        let mut i: usize = 0;
        while i < state.skills.0.len()
            invariant
                i <= state.skills.0@.len(),
                forall|k: int| 0 <= k < i ==> (#[trigger] state.skills.0@[k]).checkable(state),
            decreases state.skills.0@.len() - i,
        {
            if !state.skills.0[i].can_check(state) {
                return false;
            }
            i += 1;
        }
        true
    }
}

/// The dice that can be rolled at a key press, side by side, and after them
/// a place to write a roll of one's own.
pub struct Dice;

impl Dice {
    /// The first of `areas` from `i` on that holds the cell (`x`, `y`);
    /// their number where none does.
    pub open spec fn first_holding(areas: Seq<Rect>, x: u16, y: u16, i: int) -> int
        decreases areas.len() - i,
    {
        if i >= areas.len() {
            areas.len() as int
        } else if areas[i].spec_contains(x, y) {
            i
        } else {
            Self::first_holding(areas, x, y, i + 1)
        }
    }

    /// The centre of child `selected` when the children occupy `areas` of
    /// `area`; the centre of `area` where there is no such child.
    pub open spec fn centre(areas: Seq<Rect>, area: Rect, selected: usize) -> (u16, u16) {
        if selected < areas.len() {
            centre_point(areas[selected as int])
        } else {
            centre_point(area)
        }
    }

    /// The child at (`x`, `y`) when the children occupy `areas`; the first
    /// child where the cell is in none of them.
    pub open spec fn index_at(areas: Seq<Rect>, x: u16, y: u16) -> usize {
        let i = Self::first_holding(areas, x, y, 0);
        if i < areas.len() {
            i as usize
        } else {
            0
        }
    }

    pub fn dimensions(&self, _state: &State) -> (d: Dims)
        ensures
            d == (Dims { x: Constraint::Min(26), y: Constraint::Length(3) }),
    {
        Dims::new(Constraint::Min(4 * 6 + BORDER), Constraint::Length(BORDER + 1))
    }

    pub fn direction(&self) -> (d: Direction)
        ensures
            d == Direction::Horizontal,
    {
        Direction::Horizontal
    }

    /// One child for each die, and one for a roll of one's own.
    pub fn child_count(&self, _state: &State) -> (n: usize)
        ensures
            n == 7,
    {
        DICE.len() + 1
    }

    /// The faces of the die that child `selected` rolls; none for the last
    /// child, which is for a roll of one's own, and for what is no child.
    pub fn die(&self, selected: usize) -> (faces: Option<u32>)
        ensures
            faces == (if selected < 6 {
                Some(DICE[selected as int])
            } else {
                None
            }),
    {
        if selected < DICE.len() {
            Some(DICE[selected])
        } else {
            None
        }
    }

    /// What is written on child `index`: `d` and the faces of its die, or
    /// `Custom`.
    pub open spec fn label_of(index: int) -> Seq<char> {
        if 0 <= index < 6 {
            seq!['d'] + decimal(DICE[index] as nat)
        } else {
            "Custom"@
        }
    }

    /// What is written on the children, left to right.
    pub fn labels(&self) -> (labels: Vec<String>)
        ensures
            labels@.len() == 7,
            forall|i: int| 0 <= i < 7 ==> (#[trigger] labels@[i])@ == Self::label_of(i),
    {
        let mut labels: Vec<String> = Vec::new();
        let mut i: usize = 0;
        while i < DICE.len()
            invariant
                i <= 6,
                labels@.len() == i,
                forall|k: int| 0 <= k < i ==> (#[trigger] labels@[k])@ == Self::label_of(k),
            decreases 6 - i,
        {
            let mut label = String::new();
            push_char(&mut label, 'd');
            let faces = crate::text::decimal_text(DICE[i] as u64);
            label.append(faces.as_str());
            assert(label@ =~= Self::label_of(i as int));
            labels.push(label);
            i += 1;
        }
        labels.push("Custom".to_owned());
        labels
    }

    /// Split `area` among the children, left to right, all alike.
    pub fn areas(&self, area: Rect) -> (parts: Vec<Rect>)
        ensures
            parts@.len() == 7,
    {
        let mut shares: Vec<Constraint> = Vec::new();
        let mut i: usize = 0;
        while i < DICE.len() + 1
            invariant
                i <= 7,
                shares@.len() == i,
            decreases 7 - i,
        {
            shares.push(Constraint::Fill(1));
            i += 1;
        }
        split(Direction::Horizontal, &shares, area)
    }

    /// The area that child `index` is drawn in when its share of the room
    /// is `area`: but for the last die, one column more, so that the
    /// borders of neighbours fall on each other.
    pub fn drawn_area(&self, index: usize, area: Rect) -> (drawn: Rect)
        ensures
            drawn == (if index == 5 {
                area
            } else {
                Rect { x: area.x, y: area.y, width: clip(area.width + 1), height: area.height }
            }),
    {
        if index == DICE.len() - 1 {
            area
        } else {
            Rect { x: area.x, y: area.y, width: area.width.saturating_add(1), height: area.height }
        }
    }

    /// The centre of child `selected` when the children occupy `areas` of
    /// `area`.
    pub fn child_pos_in(&self, areas: &Vec<Rect>, area: Rect, selected: usize) -> (p: (u16, u16))
        ensures
            p == Self::centre(areas@, area, selected),
    {
        if selected < areas.len() {
            centre_of(areas[selected])
        } else {
            centre_of(area)
        }
    }

    /// The child at (`x`, `y`) when the children occupy `areas`.
    pub fn child_at_pos_in(&self, areas: &Vec<Rect>, x: u16, y: u16) -> (index: usize)
        ensures
            index == Self::index_at(areas@, x, y),
            index == 0 || index < areas@.len(),
    {
        let mut i: usize = 0;
        while i < areas.len()
            invariant
                i <= areas@.len(),
                Self::first_holding(areas@, x, y, i as int) == Self::first_holding(areas@, x, y, 0),
            decreases areas@.len() - i,
        {
            if areas[i].contains(x, y) {
                return i;
            }
            i += 1;
        }
        0
    }

    pub fn child_pos(&self, area: Rect, _state: &State, selected: usize) -> (p: (u16, u16))
        ensures
            exists|areas: Seq<Rect>| #[trigger]
                areas.len() == 7 && p == Self::centre(areas, area, selected),
    {
        let areas = self.areas(area);
        self.child_pos_in(&areas, area, selected)
    }

    pub fn child_at_pos(&self, area: Rect, _state: &State, x: u16, y: u16) -> (index: usize)
        ensures
            index < 7,
            exists|areas: Seq<Rect>| #[trigger] areas.len() == 7 && index == Self::index_at(areas, x, y),
    {
        let areas = self.areas(area);
        self.child_at_pos_in(&areas, x, y)
    }
}

/// The table of the latest rolls, the latest first.
pub struct RollHistory {
    pub max_rolls_to_display: usize,
}

impl RollHistory {
    /// The number of rolls shown: all that were made, up to the most that
    /// the table shows.
    pub open spec fn shown(&self, state: &State) -> usize {
        if state.rolls@.len() < self.max_rolls_to_display {
            state.rolls@.len() as usize
        } else {
            self.max_rolls_to_display
        }
    }

    /// The centre of row `selected` in `area`: the middle column, and the
    /// row that many below the top border and the header.
    pub open spec fn centre(area: Rect, selected: usize) -> (u16, u16) {
        (
            centre_point(Rect { x: area.x, y: 0, width: area.width, height: 0 }).0,
            clip(clip(area.y + 1 + BORDER / 2) + narrowed(selected as int)),
        )
    }

    /// The row of the table at screen row `y`, for a table of `rows` rows
    /// in `area`: as many below the header as `y` is, held to the table's
    /// rows.
    pub open spec fn index_at(area: Rect, rows: nat, y: u16) -> usize {
        let below = y - clip(area.y + 1 + BORDER / 2);
        if rows == 0 || below < 0 {
            0
        } else if below < rows {
            below as usize
        } else {
            (rows - 1) as usize
        }
    }

    /// The place among the rolls made of the roll in row `selected`: the
    /// latest roll is in the first row. A row past the oldest roll stands
    /// for the oldest.
    pub open spec fn roll_of(state: &State, selected: usize) -> Option<usize> {
        if state.rolls@.len() == 0 {
            None
        } else if selected < state.rolls@.len() {
            Some((state.rolls@.len() - 1 - selected) as usize)
        } else {
            Some(0)
        }
    }

    pub fn new(max_rolls_to_display: usize) -> (el: Self)
        ensures
            el.max_rolls_to_display == max_rolls_to_display,
    {
        Self { max_rolls_to_display }
    }

    /// As wide as there is room; one row for each roll shown, one for the
    /// header, and the border.
    pub fn dimensions(&self, state: &State) -> (d: Dims)
        ensures
            d.x == Constraint::Fill(1),
            d.y == Constraint::Length(clip(narrowed(self.shown(state) as int) + 1 + BORDER)),
    {
        Dims::new(
            Constraint::Fill(1),
            Constraint::Length(
                narrow(self.child_count(state)).saturating_add(1).saturating_add(BORDER),
            ),
        )
    }

    pub fn direction(&self) -> (d: Direction)
        ensures
            d == Direction::Vertical,
    {
        Direction::Vertical
    }

    pub fn child_count(&self, state: &State) -> (n: usize)
        ensures
            n == self.shown(state),
    {
        if state.rolls.len() < self.max_rolls_to_display {
            state.rolls.len()
        } else {
            self.max_rolls_to_display
        }
    }

    pub fn child_pos(&self, area: Rect, _state: &State, selected: usize) -> (p: (u16, u16))
        ensures
            p == Self::centre(area, selected),
    {
        let x = area.x.saturating_add(area.width / 2);
        let y = area.y.saturating_add(1 + BORDER / 2).saturating_add(narrow(selected));
        (x, y)
    }

    pub fn child_at_pos(&self, area: Rect, state: &State, _x: u16, y: u16) -> (index: usize)
        ensures
            index == Self::index_at(area, self.shown(state) as nat, y),
    {
        let below = y.saturating_sub(area.y.saturating_add(1 + BORDER / 2)) as usize;
        let last = self.child_count(state).saturating_sub(1);
        if below < last {
            below
        } else {
            last
        }
    }

    /// The row that is found at the centre of a row of the table is that
    /// row, as long as the table does not reach past the largest
    /// coordinate.
    pub proof fn lemma_round_trip(area: Rect, rows: nat, selected: usize)
        requires
            selected < rows,
            area.y + 1 + BORDER / 2 + selected <= u16::MAX,
        ensures
            Self::index_at(area, rows, Self::centre(area, selected).1) == selected,
    {
    }

    /// The place among the rolls made of the roll in row `selected`.
    pub fn roll_at(&self, state: &State, selected: usize) -> (at: Option<usize>)
        ensures
            at == Self::roll_of(state, selected),
    {
        let index = state.rolls.len().saturating_sub(selected.saturating_add(1));
        if index < state.rolls.len() {
            Some(index)
        } else {
            None
        }
    }

    /// The places among the rolls made of the rolls shown, top to bottom:
    /// the latest first.
    pub fn rows(&self, state: &State) -> (rows: Vec<usize>)
        ensures
            rows@.len() == self.shown(state),
            forall|i: int| 0 <= i < rows@.len() ==> #[trigger] rows@[i] == state.rolls@.len() - 1 - i,
    {
        let shown = self.child_count(state);
        let mut rows: Vec<usize> = Vec::new();
        let mut i: usize = 0;
        while i < shown
            invariant
                i <= shown,
                shown <= state.rolls@.len(),
                rows@.len() == i,
                forall|k: int| 0 <= k < i ==> #[trigger] rows@[k] == state.rolls@.len() - 1 - k,
            decreases shown - i,
        {
            rows.push(state.rolls.len() - 1 - i);
            i += 1;
        }
        rows
    }
}

/// Two lines that show a roll and what it came to.
pub struct RollDisplay {
    pub dimensions: Dims,
    pub roll_text: String,
    pub result_text: String,
}

impl RollDisplay {
    /// A display of `roll_text` above `result_text`, as wide as the longer
    /// of the two has bytes.
    pub fn new(roll_text: String, result_text: String) -> (el: Self)
        ensures
            el.roll_text == roll_text,
            el.result_text == result_text,
            el.dimensions.y == Constraint::Length(2),
            el.dimensions.x == Constraint::Length(
                narrowed(
                    if width_of(roll_text@) > width_of(result_text@) {
                        width_of(roll_text@) as int
                    } else {
                        width_of(result_text@) as int
                    },
                ),
            ),
    {
        let a = byte_width(roll_text.as_str());
        let b = byte_width(result_text.as_str());
        let width = narrow(if a > b { a } else { b });
        Self {
            dimensions: Dims::new(Constraint::Length(width), Constraint::Length(2)),
            roll_text,
            result_text,
        }
    }

    pub fn dimensions(&self) -> (d: Dims)
        ensures
            d == self.dimensions,
    {
        self.dimensions
    }
}

/// The panel that says how far the spellbook has been read.
pub struct SpellbookStatus;

impl SpellbookStatus {
    pub fn dimensions(&self) -> (d: Dims)
        ensures
            d == (Dims { x: Constraint::Min(16), y: Constraint::Length(3) }),
    {
        Dims::new(Constraint::Min(16), Constraint::Length(3))
    }
}

} // verus!
