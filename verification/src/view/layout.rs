//! The layout: columns side by side, one selection across them.

use crate::arrange::{centred_in, split};
use crate::geometry::{Constraint, Dims, Direction, Rect};
use crate::precedence::dominant;
use crate::view::column::{ColPos, Column};
use crate::view::element::{El, ElGroup, ElSimp};
use crate::view::event::{Event, HandleResult, KeyCode};
use crate::view::surface::{
    blanked, border_drawn, clear, draw_border, frame_area, frame_cells, frame_extent,
};
use vstd::prelude::*;

verus! {

/// Selection coordinate into the view. Note that this does not just resolve
/// to `columns[col].elements[row]` because elements in a column may have
/// multiple selected children, or a child may have multiple columns (within
/// parent).
#[derive(Clone, Copy, Debug, PartialEq, Eq, Structural)]
pub struct ElPos {
    /// Column of selected element.
    pub col: usize,
    /// Position within column of element.
    pub pos: ColPos,
}

impl Default for ElPos {
    fn default() -> (p: ElPos)
        ensures
            p == ElPos::origin(),
    {
        ElPos { col: 0, pos: ColPos { row: 0, row_col: 0 } }
    }
}

impl ElPos {
    /// The first place of the first row of the first column.
    pub open spec fn origin() -> ElPos {
        ElPos { col: 0, pos: ColPos { row: 0, row_col: 0 } }
    }

    /// `self`, at place `row_col` across its row.
    pub open spec fn across(self, row_col: usize) -> ElPos {
        ElPos { col: self.col, pos: ColPos { row: self.pos.row, row_col } }
    }

    /// `self`, at row `row`.
    pub open spec fn at_row(self, row: usize) -> ElPos {
        ElPos { col: self.col, pos: ColPos { row, row_col: self.pos.row_col } }
    }

    /// The selection of place `row_col` across row `row` of column `col`.
    pub fn new(col: usize, row: usize, row_col: usize) -> (p: ElPos)
        ensures
            p == (ElPos { col, pos: ColPos { row, row_col } }),
    {
        ElPos { col, pos: ColPos { row, row_col } }
    }
}

/// A movement around a layout.
#[derive(Clone, Copy, Debug, PartialEq, Eq, Structural)]
pub enum Navigation {
    Up,
    Down,
    Left,
    Right,
}

impl Navigation {
    /// The movement that `code` asks for: the arrow keys, and `k`, `j`, `h`
    /// and `l` for up, down, left and right.
    pub open spec fn of_key(code: KeyCode) -> Option<Navigation> {
        match code {
            KeyCode::Up => Some(Navigation::Up),
            KeyCode::Down => Some(Navigation::Down),
            KeyCode::Left => Some(Navigation::Left),
            KeyCode::Right => Some(Navigation::Right),
            KeyCode::Char(c) => if c == 'k' {
                Some(Navigation::Up)
            } else if c == 'j' {
                Some(Navigation::Down)
            } else if c == 'h' {
                Some(Navigation::Left)
            } else if c == 'l' {
                Some(Navigation::Right)
            } else {
                None
            },
            _ => None,
        }
    }

    /// Return the navigation the provided keycode maps to, if any.
    pub fn from_key_code(code: KeyCode) -> (nav: Option<Navigation>)
        ensures
            nav == Self::of_key(code),
    {
        match code {
            KeyCode::Up | KeyCode::Char('k') => Some(Self::Up),
            KeyCode::Down | KeyCode::Char('j') => Some(Self::Down),
            KeyCode::Left | KeyCode::Char('h') => Some(Self::Left),
            KeyCode::Right | KeyCode::Char('l') => Some(Self::Right),
            _ => None,
        }
    }
}

/// Describes how to render a layout into a frame.
pub enum LayoutRenderMode {
    /// Use the whole terminal, spacing elements out across it.
    FullScreen,
    /// Render the layout into a floating centred modal with title and
    /// dimensions. Without `selection` nothing in it is shown as selected.
    Modal { title: String, dimensions: Dims, selection: bool },
}

/// Where a layout lies on the screen: the area of each column, and in each
/// column the area of each element.
pub struct Arrangement {
    pub columns: Vec<Rect>,
    pub cells: Vec<Vec<Rect>>,
}

impl Arrangement {
    /// Whether there is an area here for each column of `layout` and for
    /// each element of each column.
    pub open spec fn fits<S, T>(&self, layout: &Layout<S, T>) -> bool {
        &&& self.columns@.len() == layout.columns@.len()
        &&& self.cells@.len() == layout.columns@.len()
        &&& forall|c: int|
            0 <= c < self.cells@.len() ==> (#[trigger] self.cells@[c])@.len()
                == layout.columns@[c].elements@.len()
    }

    /// Whether the arrangement may be what laying `layout` out in `area`
    /// gives: `area` split among the columns, and the part of each column
    /// split among its elements.
    pub open spec fn divides<S, T>(&self, layout: &Layout<S, T>, state: &S, area: Rect) -> bool {
        &&& layout.divided(area, state, self.columns@)
        &&& forall|c: int|
            0 <= c < self.columns@.len() && 0 <= c < self.cells@.len()
                ==> #[trigger] layout.columns@[c].splits(self.columns@[c], state, self.cells@[c]@)
    }
}

/// The first of `areas` from `i` on that column `x` crosses; their number
/// where it crosses none.
pub open spec fn first_on_column(areas: Seq<Rect>, x: u16, i: int) -> int
    decreases areas.len() - i,
{
    if i >= areas.len() {
        areas.len() as int
    } else if areas[i].spans_column(x) {
        i
    } else {
        first_on_column(areas, x, i + 1)
    }
}

/// View of the application state: columns of elements, left to right, and
/// how they are put on the screen.
#[verifier::reject_recursive_types(S)]
#[verifier::reject_recursive_types(T)]
pub struct Layout<S, T> {
    /// Layout columns.
    pub columns: Vec<Column<S, T>>,
    /// Describes how to render the layout into a frame.
    pub mode: LayoutRenderMode,
}

impl<S, T> Layout<S, T> {
    /// The width constraint of each column, left to right.
    pub open spec fn widths(&self, state: &S) -> Seq<Constraint> {
        Seq::new(self.columns@.len(), |c: int| dominant(self.columns@[c].widths(state)))
    }

    /// The cells that the widths of the first `n` columns fix: the sum of
    /// the sizes of those that ask for a least, a greatest or an exact
    /// width.
    pub open spec fn fixed_width(&self, state: &S, n: int) -> nat
        decreases n,
    {
        if n <= 0 {
            0
        } else {
            self.fixed_width(state, n - 1) + match self.widths(state)[n - 1] {
                Constraint::Min(w) => w as nat,
                Constraint::Max(w) => w as nat,
                Constraint::Length(w) => w as nat,
                _ => 0,
            }
        }
    }

    /// `p`, moved to the nearest selection that the layout has: the column
    /// held to the last column, and the rest clamped within that column. In
    /// a layout without columns, the origin.
    pub open spec fn clamped(&self, state: &S, p: ElPos) -> ElPos {
        if self.columns@.len() == 0 {
            ElPos::origin()
        } else {
            let col = if p.col < self.columns@.len() {
                p.col
            } else {
                (self.columns@.len() - 1) as usize
            };
            ElPos { col, pos: self.columns@[col as int].clamped(state, p.pos) }
        }
    }

    /// Whether `p` selects something the layout has: a simple element, or a
    /// child of a group.
    pub open spec fn addresses(&self, state: &S, p: ElPos) -> bool {
        p.col < self.columns@.len() && self.columns@[p.col as int].addresses(state, p.pos)
    }

    /// Whether `p` selects a child of a horizontal group.
    pub open spec fn in_row_group(&self, state: &S, p: ElPos) -> bool {
        &&& p.col < self.columns@.len()
        &&& self.columns@[p.col as int].slot(state, p.pos.row as int)
            < self.columns@[p.col as int].elements@.len()
        &&& self.columns@[p.col as int].elements@[self.columns@[p.col as int].slot(
            state,
            p.pos.row as int,
        )].is_row()
    }

    /// The number of places across the row that `p` selects.
    pub open spec fn places(&self, state: &S, p: ElPos) -> nat {
        self.columns@[p.col as int].elements@[self.columns@[p.col as int].slot(
            state,
            p.pos.row as int,
        )].across(state)
    }

    /// Whether moving by `nav` from `p` stays within a horizontal group.
    pub open spec fn steps_across(&self, state: &S, p: ElPos, nav: Navigation) -> bool {
        match nav {
            Navigation::Left => self.in_row_group(state, p) && p.pos.row_col > 0,
            Navigation::Right => self.in_row_group(state, p) && p.pos.row_col + 1 < self.places(
                state,
                p,
            ),
            _ => false,
        }
    }

    /// Whether moving by `nav` from `p` enters another column.
    pub open spec fn crosses(&self, state: &S, p: ElPos, nav: Navigation) -> bool {
        match nav {
            Navigation::Left => !self.steps_across(state, p, nav) && p.col > 0,
            Navigation::Right => !self.steps_across(state, p, nav) && p.col + 1
                < self.columns@.len(),
            _ => false,
        }
    }

    /// Where moving by `nav` from `p` ends when it enters no other column.
    /// Up and down move one row and are clamped. Left and right within a
    /// horizontal group move one place across it. At the first row, the
    /// last row, the first column and the last column the selection stays,
    /// clamped.
    pub open spec fn settled(&self, state: &S, p: ElPos, nav: Navigation) -> ElPos {
        match nav {
            Navigation::Up => self.clamped(
                state,
                p.at_row(
                    if p.pos.row == 0 {
                        0
                    } else {
                        (p.pos.row - 1) as usize
                    },
                ),
            ),
            Navigation::Down => self.clamped(
                state,
                p.at_row(
                    if p.pos.row == usize::MAX {
                        usize::MAX
                    } else {
                        (p.pos.row + 1) as usize
                    },
                ),
            ),
            Navigation::Left => if self.steps_across(state, p, nav) {
                self.clamped(state, p.across((p.pos.row_col - 1) as usize))
            } else {
                self.clamped(state, p)
            },
            Navigation::Right => if self.steps_across(state, p, nav) {
                self.clamped(state, p.across((p.pos.row_col + 1) as usize))
            } else {
                self.clamped(state, p)
            },
        }
    }

    /// The column that moving by `nav` from `p` enters, when it enters one.
    pub open spec fn entered(p: ElPos, nav: Navigation) -> int {
        match nav {
            Navigation::Left => p.col - 1,
            Navigation::Right => p.col + 1,
            _ => p.col as int,
        }
    }

    /// The row that the centre of what `p` selects lies on under `arr`; zero
    /// when `p` is in no column of the layout.
    pub open spec fn level(&self, arr: &Arrangement, state: &S, p: ElPos) -> u16 {
        if p.col < self.columns@.len() {
            self.columns@[p.col as int].centre(arr.cells@[p.col as int]@, state, p.pos).1
        } else {
            0
        }
    }

    /// Where moving by `nav` from `p` ends when it enters another column:
    /// in that column, at what lies level with the centre of what `p`
    /// selects, at the edge through which the column is entered.
    pub open spec fn crossed(&self, arr: &Arrangement, state: &S, p: ElPos, nav: Navigation)
        -> ElPos {
        let to = Self::entered(p, nav);
        if 0 <= to < self.columns@.len() {
            let x = match nav {
                Navigation::Left => arr.columns@[to].spec_last_column() as u16,
                _ => arr.columns@[to].x,
            };
            self.clamped(
                state,
                ElPos {
                    col: to as usize,
                    pos: self.columns@[to].hit(arr.cells@[to]@, state, x, self.level(arr, state, p)),
                },
            )
        } else {
            self.clamped(state, ElPos { col: to as usize, pos: ColPos { row: 0, row_col: 0 } })
        }
    }

    /// Where moving by `nav` from `p` ends, when the layout lies on the
    /// screen as `arr` says.
    pub open spec fn moved(&self, arr: &Arrangement, state: &S, p: ElPos, nav: Navigation)
        -> ElPos {
        if self.crosses(state, p, nav) {
            self.crossed(arr, state, p, nav)
        } else {
            self.settled(state, p, nav)
        }
    }

    /// The selection at (`x`, `y`) when the layout lies on the screen as
    /// `arr` says: in the first column that column `x` of the screen
    /// crosses, what that column has at (`x`, `y`); the origin, clamped,
    /// where `x` crosses no column.
    pub open spec fn pointed(&self, arr: &Arrangement, state: &S, x: u16, y: u16) -> ElPos {
        let c = first_on_column(arr.columns@, x, 0);
        if c < arr.columns@.len() {
            self.clamped(
                state,
                ElPos { col: c as usize, pos: self.columns@[c].hit(arr.cells@[c]@, state, x, y) },
            )
        } else {
            self.clamped(state, ElPos::origin())
        }
    }

    /// Whether `areas` may be what splitting `area` among the columns gives:
    /// one for each column, each as high as `area` and within it, and of the
    /// width that its column asks for where the solver's answer is fixed.
    pub open spec fn divided(&self, area: Rect, state: &S, areas: Seq<Rect>) -> bool {
        crate::arrange::split_of(Direction::Horizontal, self.widths(state), area, areas)
    }

    /// Whether a frame that was `before` may be `after` once the first `n`
    /// columns have been rendered one after the other, each into its own of
    /// `areas`, and each with the selection only where `shown` is in it.
    pub open spec fn filled_upto(
        &self,
        areas: Seq<Rect>,
        state: &S,
        shown: Option<ElPos>,
        n: int,
        before: ratatui::Frame,
        after: ratatui::Frame,
    ) -> bool
        decreases n,
    {
        if n <= 0 {
            after == before
        } else {
            exists|mid: ratatui::Frame|
                self.filled_upto(areas, state, shown, n - 1, before, mid)
                    && #[trigger] self.columns@[n - 1].rendered(
                    areas[n - 1],
                    state,
                    selection_in(n - 1, shown),
                    mid,
                    after,
                )
        }
    }

    /// Whether a frame that was `before` may be `after` once the columns
    /// have been rendered into `area`, left to right, with `shown` shown as
    /// selected.
    pub open spec fn filled(
        &self,
        area: Rect,
        state: &S,
        shown: Option<ElPos>,
        before: ratatui::Frame,
        after: ratatui::Frame,
    ) -> bool {
        exists|areas: Seq<Rect>| #[trigger]
            self.divided(area, state, areas) && self.filled_upto(
                areas,
                state,
                shown,
                self.columns@.len() as int,
                before,
                after,
            )
    }

    /// Whether `framed` may be the box that the layout makes room in when
    /// `full` is the whole area to render into: for a full screen layout
    /// the whole area, and for a modal a box centred in it as the dimensions
    /// of the modal ask.
    pub open spec fn boxed(&self, full: Rect, framed: Rect) -> bool {
        match self.mode {
            LayoutRenderMode::FullScreen => framed == full,
            LayoutRenderMode::Modal { dimensions, .. } => centred_in(full, dimensions, framed),
        }
    }

    /// Whether a frame that was `before` may be `after` once the layout has
    /// made room for itself in `framed`: a full screen layout does nothing,
    /// and a modal blanks `framed` and draws a border with its title around
    /// it, whereby no cell outside `framed` changes.
    pub open spec fn framing(
        &self,
        framed: Rect,
        before: ratatui::Frame,
        after: ratatui::Frame,
    ) -> bool {
        match self.mode {
            LayoutRenderMode::FullScreen => after == before,
            LayoutRenderMode::Modal { title, .. } => {
                &&& frame_extent(after) == frame_extent(before)
                &&& frame_cells(after) == border_drawn(
                    blanked(frame_cells(before), framed),
                    frame_extent(before),
                    framed,
                    title@,
                )
                &&& forall|at: (u16, u16)|
                    frame_cells(before).dom().contains(at) && !framed.spec_contains(at.0, at.1)
                        ==> #[trigger] frame_cells(after)[at] == frame_cells(before)[at]
            },
        }
    }

    /// Whether a frame that was `before` may be `after`, and the columns
    /// have been given `area`, once the layout has been rendered with
    /// `full` the whole area to render into: room is made in the box that
    /// the layout has in `full`, and the columns are rendered into what of
    /// it the layout occupies, with the selection shown unless the layout
    /// shows none.
    pub open spec fn rendered(
        &self,
        full: Rect,
        state: &S,
        selected: ElPos,
        before: ratatui::Frame,
        after: ratatui::Frame,
        area: Rect,
    ) -> bool {
        exists|framed: Rect, mid: ratatui::Frame| #[trigger]
            self.framing(framed, before, mid) && self.boxed(full, framed) && area == self.inside(
                full,
                framed,
            ) && self.filled(area, state, self.shown(selected), mid, after)
    }

    /// Whether handling `event` with `at` selected may turn the state
    /// `before` into `after` and come to `result`: the column of `at` handles
    /// it, and where the layout has no such column the event is left unused
    /// and the state as it is.
    pub open spec fn handled(
        &self,
        event: Event,
        at: ElPos,
        before: S,
        after: S,
        result: HandleResult<T>,
    ) -> bool {
        if at.col < self.columns@.len() {
            self.columns@[at.col as int].handled(event, at.pos, before, after, result)
        } else {
            result is Default && after == before
        }
    }

    /// Whether anything is shown as selected, and what.
    pub open spec fn shown(&self, selected: ElPos) -> Option<ElPos> {
        match self.mode {
            LayoutRenderMode::FullScreen => Some(selected),
            LayoutRenderMode::Modal { selection, .. } => if selection {
                Some(selected)
            } else {
                None
            },
        }
    }

    /// The area that the layout itself occupies, when the whole screen is
    /// `full` and a modal's frame is `framed`: the whole screen, or what the
    /// border of the frame leaves.
    pub open spec fn inside(&self, full: Rect, framed: Rect) -> Rect {
        match self.mode {
            LayoutRenderMode::FullScreen => full,
            LayoutRenderMode::Modal { .. } => framed.spec_inner(1, 1),
        }
    }

    /// Clamping a clamped selection changes nothing.
    pub proof fn lemma_clamped_twice(&self, state: &S, p: ElPos)
        ensures
            self.clamped(state, self.clamped(state, p)) == self.clamped(state, p),
    {
        if self.columns@.len() > 0 {
            let q = self.clamped(state, p);
            self.columns@[q.col as int].lemma_clamped_twice(state, p.pos);
        }
    }

    /// Create a new empty view, with a single default column and no elements.
    pub fn new() -> (layout: Self)
        ensures
            layout.columns@.len() == 1,
            layout.columns@[0].elements@.len() == 0,
            layout.mode is FullScreen,
    {
        let mut columns: Vec<Column<S, T>> = Vec::new();
        columns.push(Column::new());
        Self { columns, mode: LayoutRenderMode::FullScreen }
    }

    /// Convert this layout into a modal with the provided dimensions.
    pub fn modal(self, title: &str, dimensions: Dims, selection: bool) -> (layout: Self)
        ensures
            layout.columns == self.columns,
            match layout.mode {
                LayoutRenderMode::Modal { title: t, dimensions: d, selection: s } => t@ == title@
                    && d == dimensions && s == selection,
                LayoutRenderMode::FullScreen => false,
            },
    {
        Self {
            columns: self.columns,
            mode: LayoutRenderMode::Modal { title: title.to_owned(), dimensions, selection },
        }
    }

    /// Add `el` to the last column, where there is a column.
    fn add(&mut self, el: El<S, T>)
        ensures
            final(self).mode == old(self).mode,
            final(self).grown_from(old(self), el),
    {
        let n = self.columns.len();
        if n > 0 {
            let mut last = self.columns.pop().unwrap();
            let ghost before = self.columns@;
            last.elements.push(el);
            self.columns.push(last);
            assert(self.columns@.drop_last() =~= before);
            assert(before =~= old(self).columns@.drop_last());
        }
    }

    /// Whether `self` is `before` with `el` added below the elements of its
    /// last column. Nothing can be added to a layout without columns.
    pub open spec fn grown_from(&self, before: &Self, el: El<S, T>) -> bool {
        if before.columns@.len() == 0 {
            self.columns@ == before.columns@
        } else {
            &&& self.columns@.len() == before.columns@.len()
            &&& self.columns@.drop_last() == before.columns@.drop_last()
            &&& self.columns@.last().elements@ == before.columns@.last().elements@.push(el)
        }
    }

    /// Add an element to the last column of the view.
    pub fn add_el<E: ElSimp<S, T> + 'static>(&mut self, el: E)
        ensures
            final(self).mode == old(self).mode,
            exists|boxed: El<S, T>| boxed is Simple && #[trigger] final(self).grown_from(old(self), boxed),
    {
        self.add(El::simple(el));
    }

    /// Add an element group to the last column of the view.
    pub fn add_group<E: ElGroup<S, T> + 'static>(&mut self, group: E)
        ensures
            final(self).mode == old(self).mode,
            exists|boxed: El<S, T>| boxed is Group && #[trigger] final(self).grown_from(old(self), boxed),
    {
        self.add(El::group(group));
    }

    /// Add a new column to the view.
    pub fn add_column(&mut self)
        ensures
            final(self).mode == old(self).mode,
            final(self).columns@.len() == old(self).columns@.len() + 1,
            final(self).columns@.drop_last() == old(self).columns@,
            final(self).columns@.last().elements@.len() == 0,
    {
        self.columns.push(Column::new());
        assert(self.columns@.drop_last() =~= old(self).columns@);
    }

    /// The width constraint of each column, left to right.
    pub fn width_constraints(&self, state: &S) -> (widths: Vec<Constraint>)
        ensures
            widths@ == self.widths(state),
    {
        let mut widths: Vec<Constraint> = Vec::new();
        let mut c: usize = 0;
        while c < self.columns.len()
            invariant
                c <= self.columns@.len(),
                widths@.len() == c,
                forall|k: int| 0 <= k < c ==> widths@[k] == self.widths(state)[k],
            decreases self.columns@.len() - c,
        {
            widths.push(self.columns[c].width(state));
            c += 1;
        }
        assert(widths@ =~= self.widths(state));
        widths
    }

    /// Calculate minimum width of the layout: the cells that the widths of
    /// its columns fix, held to the largest coordinate.
    pub fn width(&self, state: &S) -> (width: u16)
        ensures
            width == crate::geometry::clip(self.fixed_width(state, self.columns@.len() as int) as int),
    {
        let mut width: u16 = 0;
        let mut c: usize = 0;
        while c < self.columns.len()
            invariant
                c <= self.columns@.len(),
                width == crate::geometry::clip(self.fixed_width(state, c as int) as int),
            decreases self.columns@.len() - c,
        {
            match self.columns[c].width(state) {
                Constraint::Min(w) | Constraint::Max(w) | Constraint::Length(w) => {
                    width = width.saturating_add(w);
                },
                _ => {},
            }
            c += 1;
        }
        width
    }

    /// Split `area` among the columns, left to right, by the widths they ask
    /// for. There is one part for each column, as high as `area` and within
    /// it. Where each column asks for a fixed width and the widths fit, each
    /// gets its width and they lie side by side from the left of `area`.
    pub fn areas(&self, area: Rect, state: &S) -> (parts: Vec<Rect>)
        ensures
            self.divided(area, state, parts@),
    {
        let widths = self.width_constraints(state);
        split(Direction::Horizontal, &widths, area)
    }

    /// Lay the layout out in `area`: split it among the columns, and the
    /// part of each column among its elements.
    pub fn arrange(&self, area: Rect, state: &S) -> (arr: Arrangement)
        ensures
            arr.fits(self),
            arr.divides(self, state, area),
    {
        let columns = self.areas(area, state);
        let mut cells: Vec<Vec<Rect>> = Vec::new();
        let mut c: usize = 0;
        while c < self.columns.len()
            invariant
                c <= self.columns@.len(),
                columns@.len() == self.columns@.len(),
                cells@.len() == c,
                forall|k: int|
                    0 <= k < c ==> (#[trigger] cells@[k])@.len() == self.columns@[k].elements@.len(),
                self.divided(area, state, columns@),
                forall|k: int|
                    0 <= k < c ==> #[trigger] self.columns@[k].splits(columns@[k], state, cells@[k]@),
            decreases self.columns@.len() - c,
        {
            cells.push(self.columns[c].areas(columns[c], state));
            c += 1;
        }
        Arrangement { columns, cells }
    }

    /// Clamp the provided selected element to fall into valid selection
    /// indices.
    pub fn clamp_selected(&self, selected: ElPos, state: &S) -> (pos: ElPos)
        ensures
            pos == self.clamped(state, selected),
    {
        let n = self.columns.len();
        if n == 0 {
            return ElPos { col: 0, pos: ColPos { row: 0, row_col: 0 } };
        }
        let col = if selected.col < n {
            selected.col
        } else {
            n - 1
        };
        ElPos { col, pos: self.columns[col].clamp_selected(selected.pos, state) }
    }

    /// The number of places across the row that `p` selects, where that row
    /// is a horizontal group.
    pub fn row_group_places(&self, state: &S, p: ElPos) -> (places: Option<usize>)
        ensures
            places is Some <==> self.in_row_group(state, p),
            places is Some ==> places->Some_0 == self.places(state, p),
    {
        if p.col < self.columns.len() {
            let column = &self.columns[p.col];
            match column.get_element(p.pos, state) {
                Some((i, _)) => {
                    match &column.elements[i] {
                        El::Group(group) => {
                            if group.direction() == Direction::Horizontal {
                                Some(group.child_count(state))
                            } else {
                                None
                            }
                        },
                        El::Simple(_) => None,
                    }
                },
                None => None,
            }
        } else {
            None
        }
    }

    /// Whether moving by `nav` from `p` enters another column.
    pub fn is_crossing(&self, state: &S, p: ElPos, nav: Navigation) -> (crossing: bool)
        ensures
            crossing == self.crosses(state, p, nav),
    {
        match nav {
            Navigation::Left => {
                match self.row_group_places(state, p) {
                    Some(_) => p.pos.row_col == 0 && p.col > 0,
                    None => p.col > 0,
                }
            },
            Navigation::Right => {
                let more = p.col < self.columns.len() && p.col + 1 < self.columns.len();
                match self.row_group_places(state, p) {
                    Some(places) => !(p.pos.row_col < places && p.pos.row_col + 1 < places) && more,
                    None => more,
                }
            },
            _ => false,
        }
    }

    /// Move the selection one step by `nav` within its column: where a move
    /// that enters no other column ends.
    pub fn settle(&self, state: &S, from: ElPos, nav: Navigation) -> (to: ElPos)
        ensures
            to == self.settled(state, from, nav),
    {
        let mut to = from;
        match nav {
            Navigation::Up => {
                to.pos.row = from.pos.row.saturating_sub(1);
            },
            Navigation::Down => {
                to.pos.row = from.pos.row.saturating_add(1);
            },
            Navigation::Left => {
                match self.row_group_places(state, from) {
                    Some(_) => {
                        if from.pos.row_col > 0 {
                            to.pos.row_col = from.pos.row_col - 1;
                        }
                    },
                    None => {},
                }
            },
            Navigation::Right => {
                match self.row_group_places(state, from) {
                    Some(places) => {
                        if from.pos.row_col < places && from.pos.row_col + 1 < places {
                            to.pos.row_col = from.pos.row_col + 1;
                        }
                    },
                    None => {},
                }
            },
        }
        self.clamp_selected(to, state)
    }

    /// Move the selection by `nav` into the next column, when the layout
    /// lies on the screen as `arr` says.
    pub fn cross_in(&self, arr: &Arrangement, state: &S, from: ElPos, nav: Navigation) -> (to:
        ElPos)
        requires
            arr.fits(self),
            self.crosses(state, from, nav),
        ensures
            to == self.crossed(arr, state, from, nav),
    {
        let y = if from.col < self.columns.len() {
            self.columns[from.col].child_pos_in(&arr.cells[from.col], state, from.pos).1
        } else {
            0
        };
        let col = match nav {
            Navigation::Left => from.col - 1,
            _ => from.col + 1,
        };
        let pos = if col < self.columns.len() {
            let x = match nav {
                Navigation::Left => arr.columns[col].last_column(),
                _ => arr.columns[col].x,
            };
            self.columns[col].child_at_coordinate_in(&arr.cells[col], state, x, y)
        } else {
            ColPos { row: 0, row_col: 0 }
        };
        self.clamp_selected(ElPos { col, pos }, state)
    }

    /// Move the provided current position in the direction indicated by the
    /// provided navigation, when the layout lies on the screen as `arr`
    /// says.
    pub fn navigate_in(&self, arr: &Arrangement, state: &S, current: ElPos, nav: Navigation) -> (to:
        ElPos)
        requires
            arr.fits(self),
        ensures
            to == self.moved(arr, state, current, nav),
    {
        if self.is_crossing(state, current, nav) {
            self.cross_in(arr, state, current, nav)
        } else {
            self.settle(state, current, nav)
        }
    }

    /// Move the provided current position in the direction indicated by the
    /// provided navigation. Current area occupied by this layout required to
    /// calculate relative positions of elements.
    ///
    /// A move that enters no other column ends where [`Self::settled`] says.
    /// One that enters another column ends where [`Self::crossed`] says, for
    /// the way the layout is laid out in `area`. Either way the selection
    /// returned is clamped.
    pub fn navigate(&self, area: Rect, state: &S, current: ElPos, nav: Navigation) -> (to: ElPos)
        ensures
            !self.crosses(state, current, nav) ==> to == self.settled(state, current, nav),
            self.crosses(state, current, nav) ==> exists|arr: Arrangement| #[trigger]
                arr.fits(self) && arr.divides(self, state, area) && to == self.crossed(&arr, state, current, nav),
            self.clamped(state, to) == to,
    {
        match nav {
            Navigation::Up => self.up(current, state),
            Navigation::Down => self.down(current, state),
            Navigation::Left => self.left(current, state, area),
            Navigation::Right => self.right(current, state, area),
        }
    }

    /// A move that enters no other column ends at a clamped selection.
    pub proof fn lemma_settled_is_clamped(&self, state: &S, p: ElPos, nav: Navigation)
        ensures
            self.clamped(state, self.settled(state, p, nav)) == self.settled(state, p, nav),
    {
        match nav {
            Navigation::Up => self.lemma_clamped_twice(
                state,
                p.at_row(
                    if p.pos.row == 0 {
                        0
                    } else {
                        (p.pos.row - 1) as usize
                    },
                ),
            ),
            Navigation::Down => self.lemma_clamped_twice(
                state,
                p.at_row(
                    if p.pos.row == usize::MAX {
                        usize::MAX
                    } else {
                        (p.pos.row + 1) as usize
                    },
                ),
            ),
            Navigation::Left => {
                self.lemma_clamped_twice(state, p);
                if p.pos.row_col > 0 {
                    self.lemma_clamped_twice(state, p.across((p.pos.row_col - 1) as usize));
                }
            },
            Navigation::Right => {
                self.lemma_clamped_twice(state, p);
                if p.pos.row_col < usize::MAX {
                    self.lemma_clamped_twice(state, p.across((p.pos.row_col + 1) as usize));
                }
            },
        }
    }

    /// A move that enters another column ends at a clamped selection.
    pub proof fn lemma_crossed_is_clamped(
        &self,
        arr: &Arrangement,
        state: &S,
        p: ElPos,
        nav: Navigation,
    )
        ensures
            self.clamped(state, self.crossed(arr, state, p, nav)) == self.crossed(
                arr,
                state,
                p,
                nav,
            ),
    {
        let to = Self::entered(p, nav);
        if 0 <= to < self.columns@.len() {
            let x = match nav {
                Navigation::Left => arr.columns@[to].spec_last_column() as u16,
                _ => arr.columns@[to].x,
            };
            self.lemma_clamped_twice(
                state,
                ElPos {
                    col: to as usize,
                    pos: self.columns@[to].hit(arr.cells@[to]@, state, x, self.level(arr, state, p)),
                },
            );
        } else {
            self.lemma_clamped_twice(
                state,
                ElPos { col: to as usize, pos: ColPos { row: 0, row_col: 0 } },
            );
        }
    }

    /// Move the selection up one element.
    pub fn up(&self, from: ElPos, state: &S) -> (to: ElPos)
        ensures
            to == self.settled(state, from, Navigation::Up),
    {
        self.settle(state, from, Navigation::Up)
    }

    /// Move the selection down one element.
    pub fn down(&self, from: ElPos, state: &S) -> (to: ElPos)
        ensures
            to == self.settled(state, from, Navigation::Down),
    {
        self.settle(state, from, Navigation::Down)
    }

    /// Move the selection left: one place within a horizontal group, else
    /// into the column to the left, entered at its right side.
    pub fn left(&self, from: ElPos, state: &S, area: Rect) -> (to: ElPos)
        ensures
            !self.crosses(state, from, Navigation::Left) ==> to == self.settled(
                state,
                from,
                Navigation::Left,
            ),
            self.crosses(state, from, Navigation::Left) ==> exists|arr: Arrangement| #[trigger]
                arr.fits(self) && arr.divides(self, state, area) && to == self.crossed(
                    &arr,
                    state,
                    from,
                    Navigation::Left,
                ),
            self.clamped(state, to) == to,
    {
        self.step(from, state, area, Navigation::Left)
    }

    /// Move the selection right: one place within a horizontal group, else
    /// into the column to the right, entered at its left side.
    pub fn right(&self, from: ElPos, state: &S, area: Rect) -> (to: ElPos)
        ensures
            !self.crosses(state, from, Navigation::Right) ==> to == self.settled(
                state,
                from,
                Navigation::Right,
            ),
            self.crosses(state, from, Navigation::Right) ==> exists|arr: Arrangement| #[trigger]
                arr.fits(self) && arr.divides(self, state, area) && to == self.crossed(
                    &arr,
                    state,
                    from,
                    Navigation::Right,
                ),
            self.clamped(state, to) == to,
    {
        self.step(from, state, area, Navigation::Right)
    }

    /// Move the selection by `nav`, laying the layout out in `area` only
    /// where the move enters another column.
    fn step(&self, from: ElPos, state: &S, area: Rect, nav: Navigation) -> (to: ElPos)
        ensures
            !self.crosses(state, from, nav) ==> to == self.settled(state, from, nav),
            self.crosses(state, from, nav) ==> exists|arr: Arrangement| #[trigger]
                arr.fits(self) && arr.divides(self, state, area) && to == self.crossed(&arr, state, from, nav),
            self.clamped(state, to) == to,
    {
        if self.is_crossing(state, from, nav) {
            let arr = self.arrange(area, state);
            proof {
                self.lemma_crossed_is_clamped(&arr, state, from, nav);
            }
            self.cross_in(&arr, state, from, nav)
        } else {
            proof {
                self.lemma_settled_is_clamped(state, from, nav);
            }
            self.settle(state, from, nav)
        }
    }

    /// The selection at (`x`, `y`), when the layout lies on the screen as
    /// `arr` says.
    pub fn element_at_coordinate_in(&self, arr: &Arrangement, state: &S, x: u16, y: u16) -> (at:
        ElPos)
        requires
            arr.fits(self),
        ensures
            at == self.pointed(arr, state, x, y),
    {
        let mut c: usize = 0;
        while c < self.columns.len()
            invariant
                c <= self.columns@.len(),
                arr.fits(self),
                first_on_column(arr.columns@, x, c as int) == first_on_column(arr.columns@, x, 0),
            decreases self.columns@.len() - c,
        {
            let area = arr.columns[c];
            if area.has_column(x) {
                let pos = self.columns[c].child_at_coordinate_in(&arr.cells[c], state, x, y);
                return self.clamp_selected(ElPos { col: c, pos }, state);
            }
            c += 1;
        }
        self.clamp_selected(ElPos { col: 0, pos: ColPos { row: 0, row_col: 0 } }, state)
    }

    /// The selection at the cell (`x`, `y`) of the screen, when the layout
    /// is laid out in `area`: in the column that lies under `x`, what lies
    /// under (`x`, `y`). Where no column lies under `x`, the origin,
    /// clamped.
    pub fn element_at_coordinate(&self, area: Rect, state: &S, x: u16, y: u16) -> (at: ElPos)
        ensures
            exists|arr: Arrangement| #[trigger]
                arr.fits(self) && arr.divides(self, state, area) && at == self.pointed(&arr, state, x, y),
            self.clamped(state, at) == at,
    {
        let arr = self.arrange(area, state);
        proof {
            let c = first_on_column(arr.columns@, x, 0);
            if c < arr.columns@.len() {
                self.lemma_clamped_twice(
                    state,
                    ElPos {
                        col: c as usize,
                        pos: self.columns@[c].hit(arr.cells@[c]@, state, x, y),
                    },
                );
            } else {
                self.lemma_clamped_twice(state, ElPos::origin());
            }
        }
        self.element_at_coordinate_in(&arr, state, x, y)
    }

    /// Pass an event through to the element at the provided selection
    /// location and return the result of handling it. Where the selection
    /// is of nothing the layout has, the event is not used and the state is
    /// left as it is.
    pub fn handle(&self, event: Event, state: &mut S, at: ElPos) -> (r: HandleResult<T>)
        ensures
            self.handled(event, at, *old(state), *final(state), r),
            (at.col >= self.columns@.len() || at.pos.row >= self.columns@[at.col as int].rows(
                old(state),
            )) ==> r is Default && *final(state) == *old(state),
    {
        if at.col < self.columns.len() {
            self.columns[at.col].handle(event, state, at.pos)
        } else {
            HandleResult::Default
        }
    }

    /// What is shown as selected when the selection is `selected`: the
    /// selection itself, but nothing in a modal made without selection.
    pub fn shown_selection(&self, selected: ElPos) -> (shown: Option<ElPos>)
        ensures
            shown == self.shown(selected),
    {
        match &self.mode {
            LayoutRenderMode::FullScreen => Some(selected),
            LayoutRenderMode::Modal { selection, .. } => {
                if *selection {
                    Some(selected)
                } else {
                    None
                }
            },
        }
    }

    /// Render the columns into `area` of the frame, each into its part,
    /// with `shown` as the selection shown. Each column is handed the
    /// selection only where it is in that column.
    pub fn render_in(
        &self,
        frame: &mut ratatui::Frame,
        area: Rect,
        state: &S,
        shown: Option<ElPos>,
    )
        ensures
            self.filled(area, state, shown, *old(frame), *final(frame)),
    {
        let areas = self.areas(area, state);
        let mut c: usize = 0;
        while c < self.columns.len()
            invariant
                c <= self.columns@.len(),
                self.divided(area, state, areas@),
                self.filled_upto(areas@, state, shown, c as int, *old(frame), *frame),
            decreases self.columns@.len() - c,
        {
            let ghost mid = *frame;
            self.columns[c].render(frame, areas[c], state, column_selection(c, shown));
            proof {
                let n = c + 1;
                assert(self.filled_upto(areas@, state, shown, n - 1, *old(frame), mid));
                assert(self.columns@[n - 1].rendered(
                    areas@[n - 1],
                    state,
                    selection_in(n - 1, shown),
                    mid,
                    *frame,
                ));
                assert(self.filled_upto(areas@, state, shown, n, *old(frame), *frame));
            }
            c += 1;
        }
    }

    /// Render the view into `full`, an area of the frame, and return the
    /// area that the columns were given.
    ///
    /// A full screen layout is given the whole of `full`. A modal is given a
    /// box centred in it: the box is blanked, a border with the title is
    /// drawn around it, and the columns are given what the border leaves.
    /// What is blanked is to be in the frame, so `full` is to lie within it.
    pub fn render_within(
        &self,
        frame: &mut ratatui::Frame,
        full: Rect,
        state: &S,
        selected: ElPos,
    ) -> (area: Rect)
        requires
            full.within(frame_extent(*old(frame))),
        ensures
            self.mode is FullScreen ==> area == full,
            self.rendered(full, state, selected, *old(frame), *final(frame), area),
    {
        let ghost framed: Rect = full;
        let area = match &self.mode {
            LayoutRenderMode::FullScreen => full,
            LayoutRenderMode::Modal { title, dimensions, .. } => {
                let centred = crate::arrange::centre_in(full, *dimensions);
                proof {
                    framed = centred;
                }
                clear(frame, centred);
                draw_border(frame, centred, title.as_str());
                centred.inner(1, 1)
            },
        };
        let ghost mid = *frame;
        assert(self.framing(framed, *old(frame), mid));
        self.render_in(frame, area, state, self.shown_selection(selected));
        assert(self.framing(framed, *old(frame), mid) && self.boxed(full, framed) && area
            == self.inside(full, framed) && self.filled(
            area,
            state,
            self.shown(selected),
            mid,
            *frame,
        ));
        area
    }

    /// Render the view into the provided frame based on the state,
    /// highlighting the selected element, and return the area that the
    /// columns were given: see [`Self::rendered`], with the whole area of
    /// the frame to render into.
    pub fn render(&self, frame: &mut ratatui::Frame, state: &S, selected: ElPos) -> (area: Rect)
        ensures
            self.mode is FullScreen ==> area == frame_extent(*old(frame)),
            self.rendered(
                frame_extent(*old(frame)),
                state,
                selected,
                *old(frame),
                *final(frame),
                area,
            ),
    {
        let full = frame_area(frame);
        self.render_within(frame, full, state, selected)
    }
}

/// The selection in column `c` when `shown` is what is shown as selected.
pub fn column_selection(c: usize, shown: Option<ElPos>) -> (selected: Option<ColPos>)
    ensures
        selected == selection_in(c as int, shown),
{
    match shown {
        Some(p) => {
            if p.col == c {
                Some(p.pos)
            } else {
                None
            }
        },
        None => None,
    }
}

/// The selection in column `c` when `shown` is what is shown as selected.
pub open spec fn selection_in(c: int, shown: Option<ElPos>) -> Option<ColPos> {
    match shown {
        Some(p) => if p.col == c {
            Some(p.pos)
        } else {
            None
        },
        None => None,
    }
}

} // verus!
