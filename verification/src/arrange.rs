//! Splitting an area among constraints, which the `ratatui` solver does.

use crate::geometry::Constraint::{Fill, Length, Max, Min, Percentage, Ratio};
use crate::geometry::{Constraint, Dims, Direction, Rect};
use ratatui::layout::{Constraint as Sizing, Direction as Axis, Layout as Solver, Rect as Area};
use vstd::prelude::*;

verus! {

/// Whether `part` is a strip of `area` along `direction`: it has the extent
/// of `area` across that direction, and along it begins and ends within
/// `area`.
pub open spec fn strip_of(direction: Direction, area: Rect, part: Rect) -> bool {
    match direction {
        Direction::Vertical => {
            &&& part.x == area.x
            &&& part.width == area.width
            &&& area.y <= part.y
            &&& part.y + part.height <= area.spec_bottom()
        },
        Direction::Horizontal => {
            &&& part.y == area.y
            &&& part.height == area.height
            &&& area.x <= part.x
            &&& part.x + part.width <= area.spec_right()
        },
    }
}

/// The cell at which `area` begins along `direction`.
pub open spec fn start_along(direction: Direction, area: Rect) -> int {
    match direction {
        Direction::Horizontal => area.x as int,
        Direction::Vertical => area.y as int,
    }
}

/// The cells that `area` is given along `direction`.
pub open spec fn size_along(direction: Direction, area: Rect) -> int {
    match direction {
        Direction::Horizontal => area.width as int,
        Direction::Vertical => area.height as int,
    }
}

/// The cells that `area` has along `direction`: those from where it begins
/// to where it ends, which is not past the largest coordinate.
pub open spec fn room_along(direction: Direction, area: Rect) -> int {
    match direction {
        Direction::Horizontal => area.spec_right() - area.x,
        Direction::Vertical => area.spec_bottom() - area.y,
    }
}

/// The size that `constraint` fixes where there is room for it: that of a
/// `Length`, and that of a `Max`.
pub open spec fn fixed_size(constraint: Constraint) -> Option<u16> {
    match constraint {
        Constraint::Length(size) => Some(size),
        Constraint::Max(size) => Some(size),
        _ => None,
    }
}

/// Whether `constraints` ask for one part of a fixed size between two
/// parts that share alike what is left.
pub open spec fn centring(constraints: Seq<Constraint>) -> bool {
    &&& constraints.len() == 3
    &&& constraints[0] == Constraint::Fill(1)
    &&& fixed_size(constraints[1]) is Some
    &&& constraints[2] == Constraint::Fill(1)
}

/// Whether `part` has `size` cells along `direction` and lies in the middle
/// of `area` along it, a cell further from the start than from the end
/// where what is left is an odd number of cells.
pub open spec fn centred_along(direction: Direction, area: Rect, size: u16, part: Rect) -> bool {
    &&& size_along(direction, part) == size
    &&& start_along(direction, part) == start_along(direction, area) + (room_along(
        direction,
        area,
    ) - size + 1) / 2
}

/// The sum of the sizes that the first `n` of `constraints` fix.
pub open spec fn fixed_upto(constraints: Seq<Constraint>, n: int) -> int
    decreases n,
{
    if n <= 0 {
        0
    } else {
        fixed_upto(constraints, n - 1) + match fixed_size(constraints[n - 1]) {
            Some(size) => size as int,
            None => 0,
        }
    }
}

/// Whether each of `constraints` fixes a size.
pub open spec fn all_fixed(constraints: Seq<Constraint>) -> bool {
    forall|i: int| 0 <= i < constraints.len() ==> fixed_size(#[trigger] constraints[i]) is Some
}

/// Whether `parts` lie one after the other along `direction` from where
/// `area` begins, each of the size that its constraint fixes.
pub open spec fn laid_out(
    direction: Direction,
    constraints: Seq<Constraint>,
    area: Rect,
    parts: Seq<Rect>,
) -> bool {
    forall|i: int|
        0 <= i < parts.len() ==> {
            &&& fixed_size(constraints[i]) == Some(size_along(direction, #[trigger] parts[i]) as u16)
            &&& start_along(direction, parts[i]) == start_along(direction, area) + fixed_upto(
                constraints,
                i,
            )
        }
}

/// Whether `parts` may be what the solver gives when `area` is split along
/// `direction` by `constraints`: what holds of every answer, and the answers
/// that are fixed.
pub open spec fn split_of(
    direction: Direction,
    constraints: Seq<Constraint>,
    area: Rect,
    parts: Seq<Rect>,
) -> bool {
    &&& parts.len() == constraints.len()
    &&& forall|i: int| 0 <= i < parts.len() ==> strip_of(direction, area, #[trigger] parts[i])
    &&& centring(constraints) && fixed_size(constraints[1])->Some_0 <= room_along(direction, area)
        ==> centred_along(direction, area, fixed_size(constraints[1])->Some_0, parts[1])
    &&& all_fixed(constraints) && fixed_upto(constraints, constraints.len() as int) <= room_along(
        direction,
        area,
    ) ==> laid_out(direction, constraints, area, parts)
}

/// The parts that lie one after the other along `direction` from where
/// `area` begins, each of the size that its constraint fixes and, across
/// `direction`, as `area` is.
pub open spec fn fixed_parts(direction: Direction, constraints: Seq<Constraint>, area: Rect) -> Seq<
    Rect,
> {
    Seq::new(
        constraints.len(),
        |i: int|
            match direction {
                Direction::Vertical => Rect {
                    x: area.x,
                    y: (area.y + fixed_upto(constraints, i)) as u16,
                    width: area.width,
                    height: fixed_size(constraints[i])->Some_0,
                },
                Direction::Horizontal => Rect {
                    x: (area.x + fixed_upto(constraints, i)) as u16,
                    y: area.y,
                    width: fixed_size(constraints[i])->Some_0,
                    height: area.height,
                },
            },
    )
}

/// The sizes that constraints fix add up from nothing, and never to less
/// for more constraints.
pub proof fn lemma_fixed_upto_grows(constraints: Seq<Constraint>, i: int, j: int)
    requires
        i <= j,
    ensures
        0 <= fixed_upto(constraints, i) <= fixed_upto(constraints, j),
    decreases j - i,
{
    if i < j {
        lemma_fixed_upto_grows(constraints, i, j - 1);
    } else {
        lemma_fixed_upto_from_nothing(constraints, i);
    }
}

/// The sizes that constraints fix do not add up to less than nothing.
pub proof fn lemma_fixed_upto_from_nothing(constraints: Seq<Constraint>, i: int)
    ensures
        0 <= fixed_upto(constraints, i),
    decreases i,
{
    if i > 0 {
        lemma_fixed_upto_from_nothing(constraints, i - 1);
    }
}

/// Where each constraint fixes a size and the sizes together fit, the
/// solver has one answer: [`fixed_parts`].
pub proof fn lemma_fixed_split(
    direction: Direction,
    constraints: Seq<Constraint>,
    area: Rect,
    parts: Seq<Rect>,
)
    requires
        split_of(direction, constraints, area, parts),
        all_fixed(constraints),
        fixed_upto(constraints, constraints.len() as int) <= room_along(direction, area),
    ensures
        parts == fixed_parts(direction, constraints, area),
{
    assert forall|i: int| 0 <= i < parts.len() implies parts[i] == fixed_parts(
        direction,
        constraints,
        area,
    )[i] by {
        assert(strip_of(direction, area, parts[i]));
        lemma_fixed_upto_grows(constraints, i, constraints.len() as int);
        lemma_fixed_upto_from_nothing(constraints, i);
    }
    assert(parts =~= fixed_parts(direction, constraints, area));
}

/// Split `area` along `direction`, one part for each of `constraints`, in
/// their order.
///
/// This is `ratatui::layout::Layout::split`, on a layout made by
/// `Layout::new` and so without margin or spacing, of the constraints of the
/// same kinds and numbers. The solver behind it walks hash maps, and where
/// constraints compete its answer is not fixed by its arguments. What is
/// claimed here is what its source shows of every answer: there is one part
/// for each constraint; across `direction` each part is as `area` is; and
/// along it each part begins and ends between the two ends of `area`, which
/// the solver is made to keep to whatever else it gives up.
///
/// Two answers are fixed and are claimed in full, because in them nothing
/// that the solver weighs stands against anything weightier. Where the
/// constraints are a `Length` or a `Max` between two `Fill(1)` and its size
/// fits into `area`, the part in the middle gets its size, nothing is left
/// between the parts or after them, and the two fills get equal shares of
/// the rest; the solver works in hundredths of a cell and rounds a half
/// away from nothing, so of an odd rest the first fill gets the cell more.
/// Where each constraint is a `Length` or a `Max` and the sizes together
/// fit into `area`, each part gets its size and they lie one after the
/// other from where `area` begins; what is left over is left after them.
#[verifier::external_body]
pub(crate) fn split(direction: Direction, constraints: &Vec<Constraint>, area: Rect) -> (parts: Vec<
    Rect,
>)
    ensures
        split_of(direction, constraints@, area, parts@),
{
    let sizes = constraints.iter().map(|c| match *c {
        Min(v) => Sizing::Min(v),
        Max(v) => Sizing::Max(v),
        Length(v) => Sizing::Length(v),
        Percentage(v) => Sizing::Percentage(v),
        Ratio(n, d) => Sizing::Ratio(n, d),
        Fill(v) => Sizing::Fill(v),
    });
    let axis = match direction {
        Direction::Horizontal => Axis::Horizontal,
        Direction::Vertical => Axis::Vertical,
    };
    let Rect { x, y, width, height } = area;
    let parts = Solver::new(axis, sizes).split(Area { x, y, width, height });
    parts.iter().map(|&Area { x, y, width, height }| Rect { x, y, width, height }).collect()
}

/// Whether `centred` is a box centred in `area` as `dimensions` ask: it lies
/// within `area`, and where the width asked for is a `Length` or a `Max`
/// that fits into `area` it has that width and lies in the middle from left
/// to right, and in the same way for the height from top to bottom. Of an
/// odd number of cells left over, the cell more is to the left and above.
pub open spec fn centred_in(area: Rect, dimensions: Dims, centred: Rect) -> bool {
    &&& centred.within(area)
    &&& match fixed_size(dimensions.x) {
        Some(width) => width <= room_along(Direction::Horizontal, area) ==> centred_along(
            Direction::Horizontal,
            area,
            width,
            centred,
        ),
        None => true,
    }
    &&& match fixed_size(dimensions.y) {
        Some(height) => height <= room_along(Direction::Vertical, area) ==> centred_along(
            Direction::Vertical,
            area,
            height,
            centred,
        ),
        None => true,
    }
}

/// Return a box centred within the provided rect, satisfying the provided
/// width and height constraints.
///
/// The area is split in three from top to bottom, the middle part by the
/// height asked for and the others sharing what is left alike; the middle
/// part is split in three from left to right in the same way, and the middle
/// of that is returned. For a size that is asked for as a least, a share or
/// a weight, or that does not fit, where in the area the box lies is the
/// solver's answer.
pub fn centre_in(area: Rect, dimensions: Dims) -> (centred: Rect)
    ensures
        centred_in(area, dimensions, centred),
{
    let mut down: Vec<Constraint> = Vec::new();
    down.push(Constraint::Fill(1));
    down.push(dimensions.y);
    down.push(Constraint::Fill(1));
    let rows = split(Direction::Vertical, &down, area);
    let mut along: Vec<Constraint> = Vec::new();
    along.push(Constraint::Fill(1));
    along.push(dimensions.x);
    along.push(Constraint::Fill(1));
    let columns = split(Direction::Horizontal, &along, rows[1]);
    columns[1]
}

} // verus!
