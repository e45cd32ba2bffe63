//! What holds of every layout.

use crate::arrange::{
    all_fixed, fixed_parts, fixed_size, fixed_upto, lemma_fixed_split, lemma_fixed_upto_grows,
    room_along,
};
use crate::geometry::{Direction, Rect};
use crate::view::layout::LayoutRenderMode;
use crate::view::column::{first_on_row, ColPos, Column};
use crate::view::layout::first_on_column;
use crate::view::element::El;
use crate::view::layout::{Arrangement, ElPos, Layout, Navigation};
use vstd::prelude::*;

verus! {

/// A clamped selection selects something the layout has: a simple element,
/// or a child of a group. This holds wherever there is anything to select:
/// the layout has a column, the column the selection is clamped to has a
/// row, and the row it is clamped to is not a horizontal group without
/// children.
pub proof fn lemma_clamped_addresses<S, T>(layout: &Layout<S, T>, state: &S, p: ElPos)
    requires
        layout.columns@.len() > 0,
        layout.columns@[layout.clamped(state, p).col as int].rows(state) > 0,
        layout.places(state, layout.clamped(state, p)) > 0,
    ensures
        layout.addresses(state, layout.clamped(state, p)),
{
    let q = layout.clamped(state, p);
    layout.columns@[q.col as int].lemma_slot(state, q.pos.row as int);
}

/// What a selection that addresses something selects: its row is one of the
/// rows of an element of its column, and its place is one of the places
/// across that element.
pub proof fn lemma_addressed<S, T>(layout: &Layout<S, T>, state: &S, p: ElPos)
    requires
        layout.addresses(state, p),
    ensures
        p.col < layout.columns@.len(),
        layout.columns@[p.col as int].holds(
            state,
            layout.columns@[p.col as int].slot(state, p.pos.row as int),
            p.pos.row as int,
        ),
        p.pos.row_col < layout.places(state, p),
{
    layout.columns@[p.col as int].lemma_slot(state, p.pos.row as int);
}

/// Whether moving by `nav` from `p` would leave the layout: up from the
/// first row, down from the last row, left from the first column, right
/// from the last column.
pub open spec fn at_edge<S, T>(layout: &Layout<S, T>, state: &S, p: ElPos, nav: Navigation)
    -> bool {
    match nav {
        Navigation::Up => p.pos.row == 0,
        Navigation::Down => p.col < layout.columns@.len() ==> p.pos.row + 1
            >= layout.columns@[p.col as int].rows(state),
        Navigation::Left => p.col == 0,
        Navigation::Right => p.col + 1 >= layout.columns@.len(),
    }
}

/// At the edge of the layout a move changes nothing: up at the first row,
/// down at the last row, left at the first column and right at the last
/// column return the selection they were given. The selection is one that
/// the layout has, and a move left or right is not one within a horizontal
/// group.
pub proof fn lemma_edge_holds<S, T>(
    layout: &Layout<S, T>,
    arr: &Arrangement,
    state: &S,
    p: ElPos,
    nav: Navigation,
)
    requires
        layout.clamped(state, p) == p,
        at_edge(layout, state, p, nav),
        !layout.steps_across(state, p, nav),
    ensures
        layout.moved(arr, state, p, nav) == p,
{
    if nav == Navigation::Down && p.col < layout.columns@.len() {
        layout.columns@[p.col as int].lemma_slot(state, p.pos.row as int);
    }
}

/// No move wraps around: from a selection of the layout, up ends in the
/// same column no lower, down in the same column no higher, left in the
/// same column or the one before it, and right in the same column or the
/// one after it; and left and right within a column keep the row.
pub proof fn lemma_no_wrap<S, T>(
    layout: &Layout<S, T>,
    arr: &Arrangement,
    state: &S,
    p: ElPos,
    nav: Navigation,
)
    requires
        layout.clamped(state, p) == p,
    ensures
        match nav {
            Navigation::Up => layout.moved(arr, state, p, nav).col == p.col && layout.moved(
                arr,
                state,
                p,
                nav,
            ).pos.row <= p.pos.row,
            Navigation::Down => layout.moved(arr, state, p, nav).col == p.col && layout.moved(
                arr,
                state,
                p,
                nav,
            ).pos.row >= p.pos.row,
            Navigation::Left => if layout.crosses(state, p, nav) {
                layout.moved(arr, state, p, nav).col == p.col - 1
            } else {
                layout.moved(arr, state, p, nav).col == p.col && layout.moved(
                    arr,
                    state,
                    p,
                    nav,
                ).pos.row == p.pos.row && layout.moved(arr, state, p, nav).pos.row_col
                    <= p.pos.row_col
            },
            Navigation::Right => if layout.crosses(state, p, nav) {
                layout.moved(arr, state, p, nav).col == p.col + 1
            } else {
                layout.moved(arr, state, p, nav).col == p.col && layout.moved(
                    arr,
                    state,
                    p,
                    nav,
                ).pos.row == p.pos.row && layout.moved(arr, state, p, nav).pos.row_col
                    >= p.pos.row_col
            },
        },
{
    assert(layout.columns@.len() == layout.columns.len());
    if p.col < layout.columns@.len() {
        layout.columns@[p.col as int].lemma_slot(state, p.pos.row as int);
    }
}

/// The first of `areas` that row `y` crosses is `i`, where it crosses `i`
/// and none before it.
pub proof fn lemma_first_on_row(areas: Seq<Rect>, y: u16, i: int, from: int)
    requires
        0 <= from <= i < areas.len(),
        areas[i].spans_row(y),
        forall|j: int| from <= j < i ==> !(#[trigger] areas[j]).spans_row(y),
    ensures
        first_on_row(areas, y, from) == i,
    decreases i - from,
{
    if from < i {
        lemma_first_on_row(areas, y, i, from + 1);
    }
}

/// Round trip: the selection at the centre of what `p` selects is `p`.
///
/// This holds where the row of the centre crosses the area of the element
/// that `p` selects and of none above it, and where a group, asked for the
/// child at the centre of one of its children, answers that child.
pub proof fn lemma_round_trip<S, T>(
    column: &Column<S, T>,
    areas: Seq<Rect>,
    state: &S,
    p: ColPos,
)
    requires
        areas.len() == column.elements@.len(),
        column.clamped(state, p) == p,
        column.addresses(state, p),
        areas[column.slot(state, p.row as int)].spans_row(column.centre(areas, state, p).1),
        forall|j: int|
            0 <= j < column.slot(state, p.row as int) ==> !(#[trigger] areas[j]).spans_row(
                column.centre(areas, state, p).1,
            ),
        match column.elements@[column.slot(state, p.row as int)] {
            El::Simple(_) => true,
            El::Group(group) => group.index_at(
                areas[column.slot(state, p.row as int)],
                state,
                column.centre(areas, state, p).0,
                column.centre(areas, state, p).1,
            ) == column.elements@[column.slot(state, p.row as int)].child(
                (p.row - column.base(state, column.slot(state, p.row as int))) as usize,
                p.row_col,
            ),
        },
    ensures
        column.hit(areas, state, column.centre(areas, state, p).0, column.centre(areas, state, p).1)
            == p,
{
    let i = column.slot(state, p.row as int);
    let (x, y) = column.centre(areas, state, p);
    column.lemma_slot(state, p.row as int);
    lemma_first_on_row(areas, y, i, 0);
    assert(column.struck(areas, state, x, y) == p);
}

/// Whether `areas` lie one below the other in their order, none of them
/// without height and none reaching past the largest coordinate.
pub open spec fn stacked(areas: Seq<Rect>) -> bool {
    &&& forall|i: int|
        0 <= i < areas.len() ==> (#[trigger] areas[i]).height > 0 && areas[i].y
            + areas[i].height <= u16::MAX
    &&& forall|i: int, j: int|
        0 <= i < j < areas.len() ==> (#[trigger] areas[i]).y + areas[i].height
            <= (#[trigger] areas[j]).y
}

/// Round trip for a simple element: where the elements of a column lie one
/// below the other, the selection at the centre of a simple element is that
/// element.
pub proof fn lemma_round_trip_simple<S, T>(
    column: &Column<S, T>,
    areas: Seq<Rect>,
    state: &S,
    p: ColPos,
)
    requires
        areas.len() == column.elements@.len(),
        stacked(areas),
        column.clamped(state, p) == p,
        column.addresses(state, p),
        column.elements@[column.slot(state, p.row as int)] is Simple,
    ensures
        column.hit(areas, state, column.centre(areas, state, p).0, column.centre(areas, state, p).1)
            == p,
{
    column.lemma_slot(state, p.row as int);
    lemma_round_trip(column, areas, state, p);
}

/// Whether the elements of `column` each ask for a fixed height that is
/// not nothing, and the heights together fit into `area`.
pub open spec fn fixed_and_fits<S, T>(column: &Column<S, T>, area: Rect, state: &S) -> bool {
    &&& all_fixed(column.heights(state))
    &&& forall|i: int|
        0 <= i < column.elements@.len() ==> fixed_size(#[trigger] column.heights(state)[i])
            != Some(0u16)
    &&& fixed_upto(column.heights(state), column.elements@.len() as int) <= room_along(
        Direction::Vertical,
        area,
    )
}

/// Where the elements of a column ask for fixed heights that fit, they lie
/// one below the other however often the column is laid out.
pub proof fn lemma_fixed_column_is_stacked<S, T>(
    column: &Column<S, T>,
    area: Rect,
    state: &S,
    areas: Seq<Rect>,
)
    requires
        fixed_and_fits(column, area, state),
        column.splits(area, state, areas),
    ensures
        areas == fixed_parts(Direction::Vertical, column.heights(state), area),
        stacked(areas),
{
    let heights = column.heights(state);
    lemma_fixed_split(Direction::Vertical, heights, area, areas);
    assert forall|i: int, j: int| 0 <= i < j < areas.len() implies (#[trigger] areas[i]).y
        + areas[i].height <= (#[trigger] areas[j]).y by {
        lemma_fixed_upto_grows(heights, i + 1, j);
        lemma_fixed_upto_grows(heights, j, heights.len() as int);
        lemma_fixed_upto_grows(heights, 0, i);
    }
    assert forall|i: int| 0 <= i < areas.len() implies (#[trigger] areas[i]).height > 0
        && areas[i].y + areas[i].height <= u16::MAX by {
        assert(fixed_size(heights[i]) != Some(0u16));
        lemma_fixed_upto_grows(heights, i + 1, heights.len() as int);
        lemma_fixed_upto_grows(heights, 0, i);
    }
}

/// Round trip through the column's own functions: where the elements of a
/// column ask for fixed heights that fit into `area`, what
/// [`Column::child_at_coordinate`] finds at the point that
/// [`Column::child_pos`] gives for a simple element is that element. The
/// two lay the column out each for itself, and come to the same.
pub proof fn lemma_round_trip_fixed<S, T>(
    column: &Column<S, T>,
    area: Rect,
    state: &S,
    p: ColPos,
    point: (u16, u16),
    found: ColPos,
)
    requires
        fixed_and_fits(column, area, state),
        column.clamped(state, p) == p,
        column.addresses(state, p),
        column.elements@[column.slot(state, p.row as int)] is Simple,
        exists|areas: Seq<Rect>| #[trigger]
            column.splits(area, state, areas) && point == column.centre(areas, state, p),
        exists|areas: Seq<Rect>| #[trigger]
            column.splits(area, state, areas) && found == column.hit(
                areas,
                state,
                point.0,
                point.1,
            ),
    ensures
        found == p,
{
    let first = choose|areas: Seq<Rect>| #[trigger]
        column.splits(area, state, areas) && point == column.centre(areas, state, p);
    let second = choose|areas: Seq<Rect>| #[trigger]
        column.splits(area, state, areas) && found == column.hit(areas, state, point.0, point.1);
    lemma_fixed_column_is_stacked(column, area, state, first);
    lemma_fixed_column_is_stacked(column, area, state, second);
    lemma_round_trip_simple(column, first, state, p);
}

/// The first of `areas` that column `x` crosses is `c`, where it crosses
/// `c` and none before it.
pub proof fn lemma_first_on_column(areas: Seq<Rect>, x: u16, c: int, from: int)
    requires
        0 <= from <= c < areas.len(),
        areas[c].spans_column(x),
        forall|j: int| from <= j < c ==> !(#[trigger] areas[j]).spans_column(x),
    ensures
        first_on_column(areas, x, from) == c,
    decreases c - from,
{
    if from < c {
        lemma_first_on_column(areas, x, c, from + 1);
    }
}

/// Round trip across the layout: a click at the centre of what `p`
/// selects selects `p`.
///
/// This holds where the centre lies in the column of `p` and left of it in
/// no column, and where the column finds `p` again at that centre (see
/// [`lemma_round_trip`]).
pub proof fn lemma_click_round_trip<S, T>(
    layout: &Layout<S, T>,
    arr: &Arrangement,
    state: &S,
    p: ElPos,
)
    requires
        arr.fits(layout),
        layout.clamped(state, p) == p,
        layout.addresses(state, p),
        arr.columns@[p.col as int].spans_column(
            layout.columns@[p.col as int].centre(arr.cells@[p.col as int]@, state, p.pos).0,
        ),
        forall|j: int|
            0 <= j < p.col ==> !(#[trigger] arr.columns@[j]).spans_column(
                layout.columns@[p.col as int].centre(arr.cells@[p.col as int]@, state, p.pos).0,
            ),
        layout.columns@[p.col as int].hit(
            arr.cells@[p.col as int]@,
            state,
            layout.columns@[p.col as int].centre(arr.cells@[p.col as int]@, state, p.pos).0,
            layout.columns@[p.col as int].centre(arr.cells@[p.col as int]@, state, p.pos).1,
        ) == p.pos,
    ensures
        layout.pointed(
            arr,
            state,
            layout.columns@[p.col as int].centre(arr.cells@[p.col as int]@, state, p.pos).0,
            layout.columns@[p.col as int].centre(arr.cells@[p.col as int]@, state, p.pos).1,
        ) == p,
{
    let (x, y) = layout.columns@[p.col as int].centre(arr.cells@[p.col as int]@, state, p.pos);
    lemma_first_on_column(arr.columns@, x, p.col as int, 0);
}

/// The box of a modal that asks for a width and a height that fit: of
/// those sizes, in the middle of `full`, with the cell more to the left and
/// above where an odd number of cells is left over.
pub open spec fn modal_box(full: Rect, width: u16, height: u16) -> Rect {
    Rect {
        x: (full.x + (room_along(Direction::Horizontal, full) - width + 1) / 2) as u16,
        y: (full.y + (room_along(Direction::Vertical, full) - height + 1) / 2) as u16,
        width,
        height,
    }
}

/// A modal that asks for a fixed width and height that fit into the area to
/// render into is rendered centred in it: the columns are given the box in
/// the middle of the area less the border, and outside the box no cell is
/// changed before the columns are rendered.
pub proof fn lemma_modal_is_centred<S, T>(
    layout: &Layout<S, T>,
    full: Rect,
    state: &S,
    selected: ElPos,
    before: ratatui::Frame,
    after: ratatui::Frame,
    area: Rect,
    width: u16,
    height: u16,
)
    requires
        layout.mode matches LayoutRenderMode::Modal { dimensions, .. } && fixed_size(dimensions.x)
            == Some(width) && fixed_size(dimensions.y) == Some(height),
        width <= room_along(Direction::Horizontal, full),
        height <= room_along(Direction::Vertical, full),
        layout.rendered(full, state, selected, before, after, area),
    ensures
        area == modal_box(full, width, height).spec_inner(1, 1),
        exists|mid: ratatui::Frame| #[trigger]
            layout.framing(modal_box(full, width, height), before, mid) && layout.filled(
                area,
                state,
                layout.shown(selected),
                mid,
                after,
            ),
{
    let (framed, mid) = choose|framed: Rect, mid: ratatui::Frame| #[trigger]
        layout.framing(framed, before, mid) && layout.boxed(full, framed) && area == layout.inside(
            full,
            framed,
        ) && layout.filled(area, state, layout.shown(selected), mid, after);
    assert(framed == modal_box(full, width, height));
}

/// Where `presses` moves to the right from `p` end.
pub open spec fn pressed_right<S, T>(
    layout: &Layout<S, T>,
    arr: &Arrangement,
    state: &S,
    p: ElPos,
    presses: nat,
) -> ElPos
    decreases presses,
{
    if presses == 0 {
        p
    } else {
        layout.moved(
            arr,
            state,
            pressed_right(layout, arr, state, p, (presses - 1) as nat),
            Navigation::Right,
        )
    }
}

/// Within a horizontal group each move to the right selects the next child:
/// from the first child, `presses` moves end at child `presses`, as long as
/// the group has such a child.
pub proof fn lemma_right_walks_group<S, T>(
    layout: &Layout<S, T>,
    arr: &Arrangement,
    state: &S,
    p: ElPos,
    presses: nat,
)
    requires
        layout.clamped(state, p) == p,
        layout.in_row_group(state, p),
        p.pos.row_col == 0,
        presses < layout.places(state, p),
    ensures
        presses <= usize::MAX,
        pressed_right(layout, arr, state, p, presses) == p.across(presses as usize),
    decreases presses,
{
    layout.columns@[p.col as int].lemma_slot(state, p.pos.row as int);
    if presses > 0 {
        lemma_right_walks_group(layout, arr, state, p, (presses - 1) as nat);
        let before = p.across((presses - 1) as usize);
        assert(layout.steps_across(state, before, Navigation::Right));
        assert(layout.clamped(state, p.across(presses as usize)) == p.across(presses as usize));
    }
}

/// From the last child of a horizontal group a move to the right enters the
/// next column, where there is one.
pub proof fn lemma_right_leaves_group<S, T>(
    layout: &Layout<S, T>,
    arr: &Arrangement,
    state: &S,
    p: ElPos,
)
    requires
        layout.clamped(state, p) == p,
        layout.in_row_group(state, p),
        p.pos.row_col + 1 == layout.places(state, p),
        p.col + 1 < layout.columns@.len(),
    ensures
        layout.crosses(state, p, Navigation::Right),
        layout.moved(arr, state, p, Navigation::Right).col == p.col + 1,
{
    assert(layout.columns@.len() == layout.columns.len());
    let to = p.col + 1;
    let entered = ElPos {
        col: to as usize,
        pos: layout.columns@[to].hit(
            arr.cells@[to]@,
            state,
            arr.columns@[to].x,
            layout.level(arr, state, p),
        ),
    };
    assert(layout.crossed(arr, state, p, Navigation::Right) == layout.clamped(state, entered));
}

} // verus!
