//! Terminal cell geometry: rectangles, and the sizing intent of one axis.

use vstd::prelude::*;

verus! {

/// A rectangle of terminal cells. `x` and `y` address its top left cell.
#[derive(Clone, Copy, Debug, PartialEq, Eq, Structural)]
pub struct Rect {
    pub x: u16,
    pub y: u16,
    pub width: u16,
    pub height: u16,
}

impl Rect {
    /// The first column to the right of the rectangle, held to the largest
    /// coordinate.
    pub open spec fn spec_right(self) -> int {
        if self.x + self.width > u16::MAX {
            u16::MAX as int
        } else {
            self.x + self.width
        }
    }

    /// The first row below the rectangle, held to the largest coordinate.
    pub open spec fn spec_bottom(self) -> int {
        if self.y + self.height > u16::MAX {
            u16::MAX as int
        } else {
            self.y + self.height
        }
    }

    /// Whether row `y` crosses the rectangle.
    pub open spec fn spans_row(self, y: u16) -> bool {
        self.y <= y && y < self.spec_bottom()
    }

    /// Whether column `x` crosses the rectangle.
    pub open spec fn spans_column(self, x: u16) -> bool {
        self.x <= x && x < self.spec_right()
    }

    /// Whether the cell at (`x`, `y`) lies in the rectangle.
    pub open spec fn spec_contains(self, x: u16, y: u16) -> bool {
        self.spans_column(x) && self.spans_row(y)
    }

    /// Whether the rectangle lies within `outer`: whether each cell of it is
    /// a cell of `outer`, and its corner is not before that of `outer`.
    pub open spec fn within(self, outer: Rect) -> bool {
        &&& outer.x <= self.x
        &&& outer.y <= self.y
        &&& self.spec_right() <= outer.spec_right()
        &&& self.spec_bottom() <= outer.spec_bottom()
    }

    /// The last column of the rectangle; for a rectangle without width, the
    /// column before its left edge, held to zero.
    pub open spec fn spec_last_column(self) -> int {
        if self.spec_right() == 0 {
            0
        } else {
            self.spec_right() - 1
        }
    }

    /// The rectangle that is left when `horizontal` cells are taken from the
    /// left and right sides and `vertical` cells from the top and bottom; the
    /// empty rectangle at the origin when the margins do not fit.
    pub open spec fn spec_inner(self, horizontal: u16, vertical: u16) -> Rect {
        if self.width < clip(2 * horizontal) || self.height < clip(2 * vertical) {
            Rect { x: 0, y: 0, width: 0, height: 0 }
        } else {
            Rect {
                x: clip(self.x + horizontal),
                y: clip(self.y + vertical),
                width: (self.width - clip(2 * horizontal)) as u16,
                height: (self.height - clip(2 * vertical)) as u16,
            }
        }
    }

    /// A rectangle at (`x`, `y`), its size cut so that it ends within the
    /// coordinate range.
    pub fn new(x: u16, y: u16, width: u16, height: u16) -> (r: Rect)
        ensures
            r.x == x,
            r.y == y,
            r.width == (if x + width > u16::MAX { u16::MAX - x } else { width as int }),
            r.height == (if y + height > u16::MAX { u16::MAX - y } else { height as int }),
    {
        let max_width = u16::MAX - x;
        let max_height = u16::MAX - y;
        Rect {
            x,
            y,
            width: if width > max_width { max_width } else { width },
            height: if height > max_height { max_height } else { height },
        }
    }

    pub fn right(self) -> (r: u16)
        ensures
            r == self.spec_right(),
    {
        self.x.saturating_add(self.width)
    }

    pub fn bottom(self) -> (r: u16)
        ensures
            r == self.spec_bottom(),
    {
        self.y.saturating_add(self.height)
    }

    pub fn contains(self, x: u16, y: u16) -> (inside: bool)
        ensures
            inside == self.spec_contains(x, y),
    {
        x >= self.x && x < self.right() && y >= self.y && y < self.bottom()
    }

    /// Whether row `y` crosses the rectangle.
    pub fn has_row(self, y: u16) -> (crossed: bool)
        ensures
            crossed == self.spans_row(y),
    {
        y >= self.y && y < self.bottom()
    }

    /// Whether column `x` crosses the rectangle.
    pub fn has_column(self, x: u16) -> (crossed: bool)
        ensures
            crossed == self.spans_column(x),
    {
        x >= self.x && x < self.right()
    }

    pub fn last_column(self) -> (x: u16)
        ensures
            x == self.spec_last_column(),
    {
        self.right().saturating_sub(1)
    }

    pub fn inner(self, horizontal: u16, vertical: u16) -> (r: Rect)
        ensures
            r == self.spec_inner(horizontal, vertical),
    {
        let doubled_horizontal = doubled(horizontal);
        let doubled_vertical = doubled(vertical);
        if self.width < doubled_horizontal || self.height < doubled_vertical {
            Rect { x: 0, y: 0, width: 0, height: 0 }
        } else {
            Rect {
                x: self.x.saturating_add(horizontal),
                y: self.y.saturating_add(vertical),
                width: self.width - doubled_horizontal,
                height: self.height - doubled_vertical,
            }
        }
    }
}

impl Default for Rect {
    fn default() -> (r: Rect)
        ensures
            r == (Rect { x: 0, y: 0, width: 0, height: 0 }),
    {
        Rect { x: 0, y: 0, width: 0, height: 0 }
    }
}

/// `v`, held to the largest coordinate.
pub open spec fn clip(v: int) -> u16 {
    if v > u16::MAX {
        u16::MAX
    } else if v < 0 {
        0
    } else {
        v as u16
    }
}

/// Twice `v`, held to the largest coordinate.
fn doubled(v: u16) -> (r: u16)
    ensures
        r == clip(2 * v),
{
    if v > u16::MAX / 2 {
        u16::MAX
    } else {
        2 * v
    }
}

/// The centre cell of `area`, rounded down, each coordinate held to the
/// largest one.
pub open spec fn centre_point(area: Rect) -> (u16, u16) {
    (clip(area.x + area.width / 2), clip(area.y + area.height / 2))
}

/// Return the centre point of the provided rectangle (rounded down).
pub fn centre_of(area: Rect) -> (p: (u16, u16))
    ensures
        p == centre_point(area),
{
    let x = area.x.saturating_add(area.width / 2);
    let y = area.y.saturating_add(area.height / 2);
    (x, y)
}

/// The axis along which things are laid out.
#[derive(Clone, Copy, Debug, PartialEq, Eq, Structural)]
pub enum Direction {
    Horizontal,
    Vertical,
}

/// How much room something asks for along one axis.
#[derive(Clone, Copy, Debug, PartialEq, Eq, Structural)]
pub enum Constraint {
    /// At least this many cells.
    Min(u16),
    /// At most this many cells.
    Max(u16),
    /// Exactly this many cells.
    Length(u16),
    /// This share of the whole, in hundredths.
    Percentage(u16),
    /// This share of the whole, as numerator and denominator.
    Ratio(u32, u32),
    /// A share of what is left over, in proportion to this weight.
    Fill(u16),
}

impl Constraint {
    /// How constraining the kind is. A kind of higher rank dominates one of
    /// lower rank whatever their sizes.
    pub open spec fn rank(self) -> int {
        match self {
            Constraint::Max(_) => 5,
            Constraint::Length(_) => 4,
            Constraint::Min(_) => 3,
            Constraint::Percentage(_) => 2,
            Constraint::Ratio(_, _) => 1,
            Constraint::Fill(_) => 0,
        }
    }

    /// The size a constraint carries, for all kinds but `Ratio`.
    pub open spec fn magnitude(self) -> int {
        match self {
            Constraint::Max(v) => v as int,
            Constraint::Length(v) => v as int,
            Constraint::Min(v) => v as int,
            Constraint::Percentage(v) => v as int,
            Constraint::Ratio(_, _) => 0,
            Constraint::Fill(v) => v as int,
        }
    }

    /// Whether `self` is less constraining than `other`: of a lower kind, or
    /// of the same kind and smaller.
    pub open spec fn weaker(self, other: Constraint) -> bool {
        if self.rank() != other.rank() {
            self.rank() < other.rank()
        } else {
            match (self, other) {
                (Constraint::Ratio(n1, d1), Constraint::Ratio(n2, d2)) => ratio_below(
                    n1,
                    d1,
                    n2,
                    d2,
                ),
                _ => self.magnitude() < other.magnitude(),
            }
        }
    }
}

/// The denominator by which a ratio is compared: nothing of nothing counts as
/// nothing of one.
pub open spec fn ratio_base(n: u32, d: u32) -> int {
    if n == 0 && d == 0 {
        1
    } else {
        d as int
    }
}

/// Whether `n1 / d1` is the smaller share than `n2 / d2`. Something of
/// nothing is the largest share there is.
pub open spec fn ratio_below(n1: u32, d1: u32, n2: u32, d2: u32) -> bool {
    n1 * ratio_base(n2, d2) < n2 * ratio_base(n1, d1)
}

/// Whether `n1 / d1` is the smaller share than `n2 / d2`, compared exactly.
pub fn ratio_less(n1: u32, d1: u32, n2: u32, d2: u32) -> (below: bool)
    ensures
        below == ratio_below(n1, d1, n2, d2),
{
    let b1: u64 = if n1 == 0 && d1 == 0 { 1 } else { d1 as u64 };
    let b2: u64 = if n2 == 0 && d2 == 0 { 1 } else { d2 as u64 };
    assert((n1 as u64) * b2 <= 0xffff_ffff * 0xffff_ffff) by (nonlinear_arith)
        requires
            n1 <= 0xffff_ffff,
            b2 <= 0xffff_ffff,
    ;
    assert((n2 as u64) * b1 <= 0xffff_ffff * 0xffff_ffff) by (nonlinear_arith)
        requires
            n2 <= 0xffff_ffff,
            b1 <= 0xffff_ffff,
    ;
    (n1 as u64) * b2 < (n2 as u64) * b1
}

/// Element dimension constraints.
#[derive(Clone, Copy, Debug, PartialEq, Eq, Structural)]
pub struct Dims {
    pub x: Constraint,
    pub y: Constraint,
}

impl Dims {
    /// Create new constraints on width and height.
    pub fn new(width: Constraint, height: Constraint) -> (d: Dims)
        ensures
            d.x == width,
            d.y == height,
    {
        Dims { x: width, y: height }
    }

    pub fn width(&self) -> (c: Constraint)
        ensures
            c == self.x,
    {
        self.x
    }

    pub fn height(&self) -> (c: Constraint)
        ensures
            c == self.y,
    {
        self.y
    }
}

impl From<(Constraint, Constraint)> for Dims {
    fn from(pair: (Constraint, Constraint)) -> (d: Dims) {
        Dims { x: pair.0, y: pair.1 }
    }
}

impl vstd::std_specs::convert::FromSpecImpl<(Constraint, Constraint)> for Dims {
    open spec fn obeys_from_spec() -> bool {
        true
    }

    /// The width first, then the height.
    open spec fn from_spec(pair: (Constraint, Constraint)) -> Dims {
        Dims { x: pair.0, y: pair.1 }
    }
}

impl From<Dims> for (Constraint, Constraint) {
    fn from(value: Dims) -> (pair: (Constraint, Constraint)) {
        (value.x, value.y)
    }
}

impl vstd::std_specs::convert::FromSpecImpl<Dims> for (Constraint, Constraint) {
    open spec fn obeys_from_spec() -> bool {
        true
    }

    /// The width first, then the height.
    open spec fn from_spec(value: Dims) -> (Constraint, Constraint) {
        (value.x, value.y)
    }
}

} // verus!
