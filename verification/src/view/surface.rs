//! The surface that elements draw on: a `ratatui` frame.
//!
//! A frame draws into a buffer of cells. Of a frame two things have a name
//! here: the area that its buffer covers, and the symbol that each cell of
//! the buffer shows.

use crate::geometry::Rect;
use ratatui::layout::Rect as Area;
use ratatui::text::Line;
use ratatui::widgets::{Block, Clear};
use vstd::prelude::*;

verus! {

/// `ratatui::Frame`, the surface of one redraw.
#[verifier::external_type_specification]
#[verifier::external_body]
pub struct ExFrame<'a>(ratatui::Frame<'a>);

/// What the cells show: for the column and row of each cell, its symbol.
pub type Cells = Map<(u16, u16), Seq<char>>;

/// What the cells of the buffer of `frame` show.
pub uninterp spec fn frame_cells(frame: ratatui::Frame) -> Map<(u16, u16), Seq<char>>;

/// The area of `frame`: what `ratatui::Frame::area` gives, which is the
/// area that the buffer of the frame covers.
pub uninterp spec fn frame_extent(frame: ratatui::Frame) -> Rect;

/// What cells that showed `cells`, in a buffer that covers `extent`, show
/// after a `ratatui::text::Line` of `text` is rendered into `area`.
pub uninterp spec fn line_written(
    cells: Map<(u16, u16), Seq<char>>,
    extent: Rect,
    area: Rect,
    text: Seq<char>,
) -> Map<(u16, u16), Seq<char>>;

/// What cells that showed `cells`, in a buffer that covers `extent`, show
/// after a bordered `ratatui::widgets::Block` with `title` is rendered into
/// `area`.
pub uninterp spec fn border_drawn(
    cells: Map<(u16, u16), Seq<char>>,
    extent: Rect,
    area: Rect,
    title: Seq<char>,
) -> Map<(u16, u16), Seq<char>>;

/// `cells` with a blank in each cell of `area`.
pub open spec fn blanked(cells: Cells, area: Rect) -> Cells {
    Map::new(
        |at: (u16, u16)| cells.dom().contains(at),
        |at: (u16, u16)|
            if area.spec_contains(at.0, at.1) {
                seq![' ']
            } else {
                cells[at]
            },
    )
}

/// The whole area of the frame, by `ratatui::Frame::area`.
#[verifier::external_body]
pub(crate) fn frame_area(frame: &ratatui::Frame) -> (area: Rect)
    ensures
        area == frame_extent(*frame),
{
    let whole = frame.area();
    Rect { x: whole.x, y: whole.y, width: whole.width, height: whole.height }
}

/// Blank `area` of the frame: `ratatui::Frame::render_widget` with the
/// `Clear` widget, which resets each cell of `area` and so leaves a blank
/// in it. The widget fails on a cell that the buffer does not have, so
/// `area` is to lie within the frame.
#[verifier::external_body]
pub(crate) fn clear(frame: &mut ratatui::Frame, area: Rect)
    requires
        area.within(frame_extent(*old(frame))),
    ensures
        frame_extent(*final(frame)) == frame_extent(*old(frame)),
        frame_cells(*final(frame)) == blanked(frame_cells(*old(frame)), area),
{
    let part = Area { x: area.x, y: area.y, width: area.width, height: area.height };
    frame.render_widget(Clear, part);
}

/// Draw a border with `title` in it around `area` of the frame:
/// `ratatui::Frame::render_widget` with a bordered `Block`, which writes
/// into cells of `area` and into no others.
#[verifier::external_body]
pub(crate) fn draw_border(frame: &mut ratatui::Frame, area: Rect, title: &str)
    ensures
        frame_extent(*final(frame)) == frame_extent(*old(frame)),
        frame_cells(*final(frame)).dom() == frame_cells(*old(frame)).dom(),
        forall|at: (u16, u16)|
            frame_cells(*old(frame)).dom().contains(at) && !area.spec_contains(at.0, at.1)
                ==> #[trigger] frame_cells(*final(frame))[at] == frame_cells(*old(frame))[at],
        frame_cells(*final(frame)) == border_drawn(
            frame_cells(*old(frame)),
            frame_extent(*old(frame)),
            area,
            title@,
        ),
{
    let part = Area { x: area.x, y: area.y, width: area.width, height: area.height };
    frame.render_widget(Block::bordered().title(title), part);
}

/// Write `text` on one line into `area` of the frame:
/// `ratatui::Frame::render_widget` with a `Line` of the text.
#[verifier::external_body]
pub(crate) fn draw_line(frame: &mut ratatui::Frame, area: Rect, text: &str)
    ensures
        frame_extent(*final(frame)) == frame_extent(*old(frame)),
        frame_cells(*final(frame)) == line_written(
            frame_cells(*old(frame)),
            frame_extent(*old(frame)),
            area,
            text@,
        ),
{
    let part = Area { x: area.x, y: area.y, width: area.width, height: area.height };
    frame.render_widget(Line::from(text), part);
}

} // verus!
