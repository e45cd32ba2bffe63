//! A column: elements stacked top to bottom, and the rows they make.

use crate::arrange::split;
use crate::geometry::{centre_of, Constraint, Direction, Rect};
use crate::precedence::{dominant, most_constraining};
use crate::view::element::El;
use crate::view::event::{Event, HandleResult};
use vstd::prelude::*;

verus! {

/// A selection within one column.
#[derive(Clone, Copy, Debug, PartialEq, Eq, Structural)]
pub struct ColPos {
    /// Row in column that contains element.
    pub row: usize,
    /// Column within row in column that element is.
    pub row_col: usize,
}

impl Default for ColPos {
    fn default() -> (p: ColPos)
        ensures
            p == (ColPos { row: 0, row_col: 0 }),
    {
        ColPos { row: 0, row_col: 0 }
    }
}

/// `n`, held to the largest index.
pub open spec fn index_clip(n: int) -> usize {
    if n > usize::MAX {
        usize::MAX
    } else if n < 0 {
        0
    } else {
        n as usize
    }
}

/// The first of `areas` from `i` on that row `y` crosses; their number where
/// it crosses none.
pub open spec fn first_on_row(areas: Seq<Rect>, y: u16, i: int) -> int
    decreases areas.len() - i,
{
    if i >= areas.len() {
        areas.len() as int
    } else if areas[i].spans_row(y) {
        i
    } else {
        first_on_row(areas, y, i + 1)
    }
}

/// A column in the view contains any number of elements rendered top to
/// bottom.
#[verifier::reject_recursive_types(S)]
#[verifier::reject_recursive_types(T)]
pub struct Column<S, T> {
    pub elements: Vec<El<S, T>>,
}

impl<S, T> Column<S, T> {
    /// The number of rows above element `i`: the rows of the elements before
    /// it.
    pub open spec fn base(&self, state: &S, i: int) -> nat
        decreases i,
    {
        if i <= 0 {
            0
        } else {
            self.base(state, i - 1) + self.elements@[i - 1].rows(state)
        }
    }

    /// The number of rows in the column.
    pub open spec fn rows(&self, state: &S) -> nat {
        self.base(state, self.elements@.len() as int)
    }

    /// Whether `row` is one of the rows of element `i`.
    pub open spec fn holds(&self, state: &S, i: int, row: int) -> bool {
        0 <= i < self.elements@.len() && self.base(state, i) <= row < self.base(state, i + 1)
    }

    /// The first element from `i` on whose rows reach past `row`; the
    /// number of elements where there is none.
    pub open spec fn slot_from(&self, state: &S, row: int, i: int) -> int
        decreases self.elements@.len() - i,
    {
        if i >= self.elements@.len() {
            self.elements@.len() as int
        } else if row < self.base(state, i + 1) {
            i
        } else {
            self.slot_from(state, row, i + 1)
        }
    }

    /// The element that holds `row`; the number of elements where the
    /// column has no such row. See [`Self::lemma_slot`].
    pub open spec fn slot(&self, state: &S, row: int) -> int {
        self.slot_from(state, row, 0)
    }

    /// The width constraints of the elements, top to bottom.
    pub open spec fn widths(&self, state: &S) -> Seq<Constraint> {
        Seq::new(self.elements@.len(), |i: int| self.elements@[i].dims(state).x)
    }

    /// The height constraints of the elements, top to bottom.
    pub open spec fn heights(&self, state: &S) -> Seq<Constraint> {
        Seq::new(self.elements@.len(), |i: int| self.elements@[i].dims(state).y)
    }

    /// Whether `areas` may be what splitting `area` among the elements
    /// gives: one for each element, each as wide as `area` and within it,
    /// and of the height that its element asks for where the solver's
    /// answer is fixed.
    pub open spec fn splits(&self, area: Rect, state: &S, areas: Seq<Rect>) -> bool {
        crate::arrange::split_of(Direction::Vertical, self.heights(state), area, areas)
    }

    /// `p`, moved to the nearest selection that the column has: the row held
    /// to the last row, and the place across it held to the last child of a
    /// horizontal group that has children, and zero wherever no such group
    /// is selected: for any other element, and in a column without rows,
    /// where the row is zero too.
    pub open spec fn clamped(&self, state: &S, p: ColPos) -> ColPos {
        let last = index_clip(self.rows(state) as int) - 1;
        let row: usize = if p.row <= last {
            p.row
        } else if last < 0 {
            0
        } else {
            last as usize
        };
        let i = self.slot(state, row as int);
        if i < self.elements@.len() {
            let el = self.elements@[i];
            let across = el.across(state);
            ColPos {
                row,
                row_col: if !el.is_row() || across == 0 {
                    0
                } else if p.row_col < across {
                    p.row_col
                } else {
                    (across - 1) as usize
                },
            }
        } else {
            ColPos { row, row_col: 0 }
        }
    }

    /// Whether `p` selects something the column has: a simple element, or a
    /// child of a group.
    pub open spec fn addresses(&self, state: &S, p: ColPos) -> bool {
        let i = self.slot(state, p.row as int);
        &&& i < self.elements@.len()
        &&& p.row_col < self.elements@[i].across(state)
    }

    /// The centre of what `p` selects, when the elements occupy `areas`; the
    /// origin when `p` selects no row of the column.
    pub open spec fn centre(&self, areas: Seq<Rect>, state: &S, p: ColPos) -> (u16, u16) {
        let i = self.slot(state, p.row as int);
        if i < self.elements@.len() {
            let el = self.elements@[i];
            el.centre(areas[i], state, el.child((p.row - self.base(state, i)) as usize, p.row_col))
        } else {
            (0, 0)
        }
    }

    /// The selection at (`x`, `y`) before it is clamped, when the elements
    /// occupy `areas`: that of the first element that row `y` crosses, and
    /// the row past the last where it crosses none.
    pub open spec fn struck(&self, areas: Seq<Rect>, state: &S, x: u16, y: u16) -> ColPos {
        let i = first_on_row(areas, y, 0);
        if i < areas.len() {
            let above = index_clip(self.base(state, i) as int);
            match self.elements@[i] {
                El::Simple(_) => ColPos { row: above, row_col: 0 },
                El::Group(group) => if group.dir() == Direction::Vertical {
                    ColPos {
                        row: index_clip(above + group.index_at(areas[i], state, x, y)),
                        row_col: 0,
                    }
                } else {
                    ColPos { row: above, row_col: group.index_at(areas[i], state, x, y) }
                },
            }
        } else {
            ColPos { row: index_clip(self.rows(state) as int), row_col: 0 }
        }
    }

    /// The selection at (`x`, `y`), when the elements occupy `areas`.
    pub open spec fn hit(&self, areas: Seq<Rect>, state: &S, x: u16, y: u16) -> ColPos {
        self.clamped(state, self.struck(areas, state, x, y))
    }

    /// For each element, the child of it that is to be shown as selected.
    pub open spec fn highlights(&self, state: &S, selected: Option<ColPos>) -> Seq<Option<usize>> {
        Seq::new(
            self.elements@.len(),
            |i: int|
                match selected {
                    Some(p) => if self.slot(state, p.row as int) == i {
                        Some(
                            self.elements@[i].child(
                                (p.row - self.base(state, i)) as usize,
                                p.row_col,
                            ),
                        )
                    } else {
                        None
                    },
                    None => None,
                },
        )
    }

    /// Whether a frame that was `before` may be `after` once the first `n`
    /// elements have drawn themselves one after the other, each into its
    /// own of `areas` with its own of `marks`.
    pub open spec fn painted(
        &self,
        areas: Seq<Rect>,
        state: &S,
        marks: Seq<Option<usize>>,
        n: int,
        before: ratatui::Frame,
        after: ratatui::Frame,
    ) -> bool
        decreases n,
    {
        if n <= 0 {
            after == before
        } else {
            exists|mid: ratatui::Frame|
                self.painted(areas, state, marks, n - 1, before, mid)
                    && #[trigger] self.elements@[n - 1].draws(
                    mid,
                    after,
                    areas[n - 1],
                    state,
                    marks[n - 1],
                )
        }
    }

    /// Whether a frame that was `before` may be `after` once the column has
    /// been rendered into `area` with the selection `selected`: `area` is
    /// split among the elements, and each element draws itself into its
    /// part, top to bottom, with the child of it that `selected` selects
    /// shown as selected.
    pub open spec fn rendered(
        &self,
        area: Rect,
        state: &S,
        selected: Option<ColPos>,
        before: ratatui::Frame,
        after: ratatui::Frame,
    ) -> bool {
        exists|areas: Seq<Rect>| #[trigger]
            self.splits(area, state, areas) && self.painted(
                areas,
                state,
                self.highlights(state, selected),
                self.elements@.len() as int,
                before,
                after,
            )
    }

    /// Rows above an element only grow down the column.
    pub proof fn lemma_base_grows(&self, state: &S, i: int, j: int)
        requires
            i <= j,
        ensures
            self.base(state, i) <= self.base(state, j),
        decreases j - i,
    {
        if i < j {
            self.lemma_base_grows(state, i, j - 1);
        }
    }

    /// [`Self::slot`] names the one element between whose first row and
    /// last `row` lies, and names none exactly when `row` is past the
    /// column's rows.
    pub proof fn lemma_slot(&self, state: &S, row: int)
        requires
            0 <= row,
        ensures
            0 <= self.slot(state, row) <= self.elements@.len(),
            self.slot(state, row) < self.elements@.len() <==> row < self.rows(state),
            self.slot(state, row) < self.elements@.len() ==> self.base(state, self.slot(state, row))
                <= row < self.base(state, self.slot(state, row) + 1),
            forall|i: int| #[trigger] self.holds(state, i, row) ==> self.slot(state, row) == i,
    {
        self.lemma_slot_from(state, row, 0);
        assert forall|i: int| #[trigger] self.holds(state, i, row) implies self.slot(state, row)
            == i by {
            let s = self.slot(state, row);
            if s < i {
                self.lemma_base_grows(state, s + 1, i);
            } else if s > i {
                self.lemma_base_grows(state, i + 1, s);
            }
        }
    }

    /// What [`Self::slot_from`] finds when the rows above `i` do not reach
    /// past `row`.
    pub proof fn lemma_slot_from(&self, state: &S, row: int, i: int)
        requires
            0 <= i <= self.elements@.len(),
            self.base(state, i) <= row,
        ensures
            i <= self.slot_from(state, row, i) <= self.elements@.len(),
            self.slot_from(state, row, i) < self.elements@.len() <==> row < self.rows(state),
            self.slot_from(state, row, i) < self.elements@.len() ==> self.base(
                state,
                self.slot_from(state, row, i),
            ) <= row < self.base(state, self.slot_from(state, row, i) + 1),
        decreases self.elements@.len() - i,
    {
        if i < self.elements@.len() {
            if row < self.base(state, i + 1) {
                self.lemma_base_grows(state, i + 1, self.elements@.len() as int);
            } else {
                self.lemma_slot_from(state, row, i + 1);
            }
        }
    }

    /// Clamping a clamped selection changes nothing.
    pub proof fn lemma_clamped_twice(&self, state: &S, p: ColPos)
        ensures
            self.clamped(state, self.clamped(state, p)) == self.clamped(state, p),
    {
    }

    /// Create a new empty column.
    pub fn new() -> (column: Self)
        ensures
            column.elements@.len() == 0,
    {
        Self { elements: Vec::new() }
    }

    /// The width constraint of each element, top to bottom.
    pub fn width_constraints(&self, state: &S) -> (widths: Vec<Constraint>)
        ensures
            widths@ == self.widths(state),
    {
        let mut widths: Vec<Constraint> = Vec::new();
        let mut i: usize = 0;
        while i < self.elements.len()
            invariant
                i <= self.elements@.len(),
                widths@.len() == i,
                forall|k: int| 0 <= k < i ==> widths@[k] == self.elements@[k].dims(state).x,
            decreases self.elements@.len() - i,
        {
            widths.push(self.elements[i].dimensions(state).x);
            i += 1;
        }
        assert(widths@ =~= self.widths(state));
        widths
    }

    /// The height constraint of each element, top to bottom.
    pub fn height_constraints(&self, state: &S) -> (heights: Vec<Constraint>)
        ensures
            heights@ == self.heights(state),
    {
        let mut heights: Vec<Constraint> = Vec::new();
        let mut i: usize = 0;
        while i < self.elements.len()
            invariant
                i <= self.elements@.len(),
                heights@.len() == i,
                forall|k: int| 0 <= k < i ==> heights@[k] == self.elements@[k].dims(state).y,
            decreases self.elements@.len() - i,
        {
            heights.push(self.elements[i].dimensions(state).y);
            i += 1;
        }
        assert(heights@ =~= self.heights(state));
        heights
    }

    /// Return a constraint for the width of this column in the overall view.
    /// This will be the most constraining constraint of any child element in
    /// the column, and `Fill(0)` for a column without elements.
    pub fn width(&self, state: &S) -> (c: Constraint)
        ensures
            c == dominant(self.widths(state)),
    {
        let widths = self.width_constraints(state);
        most_constraining(&widths)
    }

    /// Count the number of selectable rows in this column. A count past the
    /// largest index is held to it.
    pub fn row_count(&self, state: &S) -> (n: usize)
        ensures
            n == index_clip(self.rows(state) as int),
    {
        let mut n: usize = 0;
        let mut i: usize = 0;
        while i < self.elements.len()
            invariant
                i <= self.elements@.len(),
                n == index_clip(self.base(state, i as int) as int),
            decreases self.elements@.len() - i,
        {
            n = n.saturating_add(self.elements[i].row_count(state));
            i += 1;
        }
        n
    }

    /// Get the element in this column at the provided position: its place in
    /// the column, and the child of it that the position selects.
    pub fn get_element(&self, pos: ColPos, state: &S) -> (found: Option<(usize, usize)>)
        ensures
            found is Some <==> pos.row < self.rows(state),
            match found {
                Some((i, child)) => {
                    &&& i == self.slot(state, pos.row as int)
                    &&& self.holds(state, i as int, pos.row as int)
                    &&& child == self.elements@[i as int].child(
                        (pos.row - self.base(state, i as int)) as usize,
                        pos.row_col,
                    )
                },
                None => self.slot(state, pos.row as int) == self.elements@.len(),
            },
    {
        let mut row = pos.row;
        let mut i: usize = 0;
        proof {
            self.lemma_slot(state, pos.row as int);
        }
        while i < self.elements.len()
            invariant
                i <= self.elements@.len(),
                row == pos.row - self.base(state, i as int),
                self.slot_from(state, pos.row as int, i as int) == self.slot(state, pos.row as int),
            decreases self.elements@.len() - i,
        {
            let element = &self.elements[i];
            let row_count = element.row_count(state);
            if row < row_count {
                proof {
                    self.lemma_base_grows(state, i + 1, self.elements@.len() as int);
                }
                return Some((i, element.child_index(row, pos.row_col)));
            }
            row = row - row_count;
            i += 1;
        }
        None
    }

    /// Clamp the row and row_col of the provided selection so that it points
    /// to an element in this column.
    pub fn clamp_selected(&self, selected: ColPos, state: &S) -> (pos: ColPos)
        ensures
            pos == self.clamped(state, selected),
    {
        let last = self.row_count(state).saturating_sub(1);
        let row = if selected.row < last {
            selected.row
        } else {
            last
        };
        let mut pos = ColPos { row, row_col: selected.row_col };
        match self.get_element(pos, state) {
            Some((i, _)) => {
                let el = &self.elements[i];
                match el {
                    El::Group(gp) => {
                        if gp.direction() == Direction::Horizontal {
                            let last_child = gp.child_count(state).saturating_sub(1);
                            if pos.row_col > last_child {
                                pos.row_col = last_child;
                            }
                        } else {
                            pos.row_col = 0;
                        }
                    },
                    El::Simple(_) => {
                        pos.row_col = 0;
                    },
                }
            },
            None => {
                pos.row_col = 0;
            },
        }
        pos
    }

    /// Split `area` among the elements, top to bottom, by the heights they
    /// ask for. There is one part for each element, as wide as `area` and
    /// within it. Where each element asks for a fixed height and the heights
    /// fit, each gets its height and they lie one below the other from the
    /// top of `area`.
    pub fn areas(&self, area: Rect, state: &S) -> (parts: Vec<Rect>)
        ensures
            self.splits(area, state, parts@),
    {
        let heights = self.height_constraints(state);
        split(Direction::Vertical, &heights, area)
    }

    /// Calculate the position of the element at the provided selection index
    /// within this column when the elements of the column occupy `areas`.
    pub fn child_pos_in(&self, areas: &Vec<Rect>, state: &S, pos: ColPos) -> (p: (u16, u16))
        requires
            areas@.len() == self.elements@.len(),
        ensures
            p == self.centre(areas@, state, pos),
    {
        match self.get_element(pos, state) {
            Some((i, child)) => {
                match &self.elements[i] {
                    El::Simple(_) => centre_of(areas[i]),
                    El::Group(group) => group.child_pos(areas[i], state, child),
                }
            },
            None => (0, 0),
        }
    }

    /// Calculate the position of the element at the provided selection index
    /// within this column when this column is rendered in the provided area.
    pub fn child_pos(&self, area: Rect, state: &S, pos: ColPos) -> (p: (u16, u16))
        ensures
            exists|areas: Seq<Rect>| #[trigger]
                self.splits(area, state, areas) && p == self.centre(areas, state, pos),
    {
        let areas = self.areas(area, state);
        self.child_pos_in(&areas, state, pos)
    }

    /// Calculate the selection index into this column of the provided (x, y)
    /// position, when the elements of the column occupy `areas`.
    pub fn child_at_coordinate_in(&self, areas: &Vec<Rect>, state: &S, x: u16, y: u16) -> (pos:
        ColPos)
        requires
            areas@.len() == self.elements@.len(),
        ensures
            pos == self.hit(areas@, state, x, y),
    {
        let mut row: usize = 0;
        let mut i: usize = 0;
        while i < self.elements.len()
            invariant
                i <= self.elements@.len(),
                areas@.len() == self.elements@.len(),
                row == index_clip(self.base(state, i as int) as int),
                first_on_row(areas@, y, i as int) == first_on_row(areas@, y, 0),
            decreases self.elements@.len() - i,
        {
            let el = &self.elements[i];
            let el_area = areas[i];
            if el_area.has_row(y) {
                let at = match el {
                    El::Simple(_) => ColPos { row, row_col: 0 },
                    El::Group(group) => {
                        let index = group.child_at_pos(el_area, state, x, y);
                        if group.direction() == Direction::Vertical {
                            ColPos { row: row.saturating_add(index), row_col: 0 }
                        } else {
                            ColPos { row, row_col: index }
                        }
                    },
                };
                return self.clamp_selected(at, state);
            }
            row = row.saturating_add(el.row_count(state));
            i += 1;
        }
        // y is past the end of the last element: the row past the last is
        // clamped to the last.
        self.clamp_selected(ColPos { row, row_col: 0 }, state)
    }

    /// Calculate the selection index into this column of the provided (x, y)
    /// position.
    pub fn child_at_coordinate(&self, area: Rect, state: &S, x: u16, y: u16) -> (pos: ColPos)
        ensures
            exists|areas: Seq<Rect>| #[trigger]
                self.splits(area, state, areas) && pos == self.hit(areas, state, x, y),
            self.clamped(state, pos) == pos,
    {
        let areas = self.areas(area, state);
        proof {
            self.lemma_clamped_twice(state, self.struck(areas@, state, x, y));
        }
        self.child_at_coordinate_in(&areas, state, x, y)
    }

    /// For each element, the child of it that is to be shown as selected
    /// when the selection in this column is `selected`.
    pub fn selections(&self, state: &S, selected: Option<ColPos>) -> (marks: Vec<Option<usize>>)
        ensures
            marks@ == self.highlights(state, selected),
    {
        let target = match selected {
            Some(p) => self.get_element(p, state),
            None => None,
        };
        let mut marks: Vec<Option<usize>> = Vec::new();
        let mut i: usize = 0;
        while i < self.elements.len()
            invariant
                i <= self.elements@.len(),
                marks@.len() == i,
                forall|k: int| 0 <= k < i ==> marks@[k] == self.highlights(state, selected)[k],
                match selected {
                    Some(p) => match target {
                        Some((at, child)) => {
                            &&& at == self.slot(state, p.row as int)
                            &&& at < self.elements@.len()
                            &&& child == self.elements@[at as int].child(
                                (p.row - self.base(state, at as int)) as usize,
                                p.row_col,
                            )
                        },
                        None => self.slot(state, p.row as int) == self.elements@.len(),
                    },
                    None => target is None,
                },
            decreases self.elements@.len() - i,
        {
            let mark = match target {
                Some((at, child)) => {
                    if at == i {
                        Some(child)
                    } else {
                        None
                    }
                },
                None => None,
            };
            marks.push(mark);
            i += 1;
        }
        assert(marks@ =~= self.highlights(state, selected));
        marks
    }

    /// Render the column into the provided area based on the current state.
    /// This will render all elements in the column, top to bottom, each in
    /// its part of the area, with the selected element told that it is.
    pub fn render(
        &self,
        frame: &mut ratatui::Frame,
        area: Rect,
        state: &S,
        selected: Option<ColPos>,
    )
        ensures
            self.rendered(area, state, selected, *old(frame), *final(frame)),
    {
        let areas = self.areas(area, state);
        let marks = self.selections(state, selected);
        let mut i: usize = 0;
        while i < self.elements.len()
            invariant
                i <= self.elements@.len(),
                areas@.len() == self.elements@.len(),
                marks@.len() == self.elements@.len(),
                self.painted(areas@, state, marks@, i as int, *old(frame), *frame),
            decreases self.elements@.len() - i,
        {
            let ghost mid = *frame;
            self.elements[i].render(frame, areas[i], state, marks[i]);
            proof {
                let n = i + 1;
                assert(self.painted(areas@, state, marks@, n - 1, *old(frame), mid));
                assert(self.elements@[n - 1].draws(
                    mid,
                    *frame,
                    areas@[n - 1],
                    state,
                    marks@[n - 1],
                ));
                assert(self.painted(areas@, state, marks@, n, *old(frame), *frame));
            }
            i += 1;
        }
    }

    /// Whether handling `event` with `selected` selected in this column may
    /// turn the state `before` into `after` and come to `result`: the
    /// element that holds the row selected handles the event, with the child
    /// of it that is selected; where the column has no such row the event
    /// is left unused and the state as it is.
    pub open spec fn handled(
        &self,
        event: Event,
        selected: ColPos,
        before: S,
        after: S,
        result: HandleResult<T>,
    ) -> bool {
        let i = self.slot(&before, selected.row as int);
        if i < self.elements@.len() {
            self.elements@[i].happens(
                event,
                self.elements@[i].child(
                    (selected.row - self.base(&before, i)) as usize,
                    selected.row_col,
                ),
                before,
                after,
                result,
            )
        } else {
            result is Default && after == before
        }
    }

    /// Pass an event to handle through to the item at the provided index in
    /// this column. Returns the result of that element handling the event, or
    /// [`HandleResult::Default`] if the index is invalid.
    pub fn handle(&self, event: Event, state: &mut S, selected: ColPos) -> (r: HandleResult<T>)
        ensures
            self.handled(event, selected, *old(state), *final(state), r),
            selected.row >= self.rows(old(state)) ==> r is Default && *final(state) == *old(state),
    {
        proof {
            self.lemma_slot(&*state, selected.row as int);
        }
        match self.get_element(selected, &*state) {
            Some((i, child)) => self.elements[i].handle(event, state, child),
            None => HandleResult::Default,
        }
    }
}

} // verus!
