//! The two kinds of element, and what each must answer.

use crate::geometry::{Dims, Direction, Rect};
use crate::view::event::{bound_to, key_binding, ElKey, Event, HandleResult, KeyCode, Occasion};
use vstd::prelude::*;

verus! {

/// Trait for simple elements, single elements selected as a whole.
///
/// `S` is the state elements read, `T` what stands for a scene in the
/// results of handling.
pub trait ElSimp<S, T> {
    /// The dimension constraints of this element.
    spec fn dims(&self) -> Dims;

    /// Return dimension constraints for this element.
    fn dimensions(&self) -> (d: Dims)
        ensures
            d == self.dims(),
    ;

    /// Whether a frame that was `before` may be `after` once this element
    /// has drawn itself into `area` of it.
    spec fn draws(
        &self,
        before: ratatui::Frame,
        after: ratatui::Frame,
        area: Rect,
        state: &S,
        selected: bool,
    ) -> bool;

    /// Render this element to the frame in the provided area, based on the
    /// current state. If selected is indicated the element should be styled
    /// appropriately.
    fn render(&self, frame: &mut ratatui::Frame, area: Rect, state: &S, selected: bool)
        ensures
            self.draws(*old(frame), *final(frame), area, state, selected),
    ;

    /// Whether the element's own answer to `occasion` may turn the state
    /// `before` into `after` and come to `result`. This says what the
    /// element does where it does not leave an occasion to the trait; where
    /// it leaves all to the trait it never holds.
    spec fn acts(&self, occasion: Occasion, before: S, after: S, result: HandleResult<T>) -> bool;

    /// Handle an event while this is the active element.
    ///
    /// Either the element has its own answer to the event, or only a key
    /// press is looked at: it is handled as [`Self::handle_key_press`]
    /// handles it, and any other event is left unused and the state as it
    /// is.
    fn handle(&self, event: Event, state: &mut S) -> (r: HandleResult<T>)
        ensures
            self.acts(Occasion::Event(event), *old(state), *final(state), r) || match event.pressed() {
                Some(code) => self.acts(Occasion::Key(code), *old(state), *final(state), r) || (
                *final(state) == *old(state) && match bound_to(code) {
                    ElKey::Select => r is Default || self.acts(
                        Occasion::Select,
                        *old(state),
                        *old(state),
                        r,
                    ),
                    ElKey::Roll => r is Default || self.acts(
                        Occasion::Roll,
                        *old(state),
                        *old(state),
                        r,
                    ),
                    ElKey::Unbound => r is Default,
                }),
                None => r is Default && *final(state) == *old(state),
            },
    {
        match event.pressed_key() {
            Some(code) => self.handle_key_press(code, state),
            None => HandleResult::Default,
        }
    }

    /// Handle a key press on this element.
    ///
    /// Either the element has its own answer to the key, or the state is
    /// left as it is and Enter is handled as [`Self::handle_select`] handles
    /// it, `r` as [`Self::handle_roll`] does, and any other key is left
    /// unused.
    fn handle_key_press(&self, code: KeyCode, state: &mut S) -> (r: HandleResult<T>)
        ensures
            self.acts(Occasion::Key(code), *old(state), *final(state), r) || (*final(state) == *old(state) && match bound_to(code) {
                ElKey::Select => r is Default || self.acts(
                    Occasion::Select,
                    *old(state),
                    *old(state),
                    r,
                ),
                ElKey::Roll => r is Default || self.acts(
                    Occasion::Roll,
                    *old(state),
                    *old(state),
                    r,
                ),
                ElKey::Unbound => r is Default,
            }),
    {
        match key_binding(code) {
            ElKey::Select => self.handle_select(state),
            ElKey::Roll => self.handle_roll(state),
            ElKey::Unbound => HandleResult::Default,
        }
    }

    /// Handle user requesting a roll from this element: either the element
    /// has its own answer, or the request is left unused.
    fn handle_roll(&self, state: &S) -> (r: HandleResult<T>)
        ensures
            r is Default || self.acts(Occasion::Roll, *state, *state, r),
    {
        HandleResult::Default
    }

    /// Handle this element being selected: either the element has its own
    /// answer, or the selecting is left unused.
    fn handle_select(&self, state: &S) -> (r: HandleResult<T>)
        ensures
            r is Default || self.acts(Occasion::Select, *state, *state, r),
    {
        HandleResult::Default
    }
}

/// Trait for grouped elements, which are rendered as a single element but
/// selected individually. For example a table with individually selectable
/// rows.
///
/// What a group answers is a function of the group and of its arguments: the
/// `spec` functions say what, and each method returns what its `spec`
/// function says.
pub trait ElGroup<S, T> {
    /// The dimension constraints of the whole group.
    spec fn dims(&self, state: &S) -> Dims;

    /// The direction the children are arranged in.
    spec fn dir(&self) -> Direction;

    /// The number of children.
    spec fn count(&self, state: &S) -> usize;

    /// The centre of child `index` when the group occupies `area`.
    spec fn centre(&self, area: Rect, state: &S, index: usize) -> (u16, u16);

    /// The child at (`x`, `y`) when the group occupies `area`.
    spec fn index_at(&self, area: Rect, state: &S, x: u16, y: u16) -> usize;

    /// Return dimensions for the whole element group.
    fn dimensions(&self, state: &S) -> (d: Dims)
        ensures
            d == self.dims(state),
    ;

    /// Direction the group of elements is arranged in.
    fn direction(&self) -> (d: Direction)
        ensures
            d == self.dir(),
    ;

    /// Return the number of child elements in this group, for selection
    /// handling.
    fn child_count(&self, state: &S) -> (n: usize)
        ensures
            n == self.count(state),
    ;

    /// Calculate and return the centre point of the child at the selected
    /// index when this element group is rendered in the provided area.
    fn child_pos(&self, area: Rect, state: &S, selected: usize) -> (p: (u16, u16))
        ensures
            p == self.centre(area, state, selected),
    ;

    /// Return the index of the child at the provided (x, y) position if this
    /// element group is rendered in the provided area.
    fn child_at_pos(&self, area: Rect, state: &S, x: u16, y: u16) -> (index: usize)
        ensures
            index == self.index_at(area, state, x, y),
    ;

    /// Whether a frame that was `before` may be `after` once this group has
    /// drawn itself into `area` of it.
    spec fn draws(
        &self,
        before: ratatui::Frame,
        after: ratatui::Frame,
        area: Rect,
        state: &S,
        selected: Option<usize>,
    ) -> bool;

    /// Render this group of elements into the provided area, based on the
    /// current state. If any element in the group is selected, its index
    /// within the group will be provided, otherwise selected will be None.
    fn render(&self, frame: &mut ratatui::Frame, area: Rect, state: &S, selected: Option<usize>)
        ensures
            self.draws(*old(frame), *final(frame), area, state, selected),
    ;

    /// Whether the group's own answer to `occasion`, with child `selected`
    /// selected, may turn the state `before` into `after` and come to
    /// `result`. This says what the group does where it does not leave an
    /// occasion to the trait; where it leaves all to the trait it never
    /// holds.
    spec fn acts(
        &self,
        occasion: Occasion,
        selected: usize,
        before: S,
        after: S,
        result: HandleResult<T>,
    ) -> bool;

    /// Handle an event while a child of this group is the active element.
    ///
    /// Either the group has its own answer to the event, or only a key
    /// press is looked at: it is handled as [`Self::handle_key_press`]
    /// handles it, and any other event is left unused and the state as it
    /// is.
    fn handle(&self, event: Event, state: &mut S, selected: usize) -> (r: HandleResult<T>)
        ensures
            self.acts(Occasion::Event(event), selected, *old(state), *final(state), r)
                || match event.pressed() {
                Some(code) => self.acts(
                    Occasion::Key(code),
                    selected,
                    *old(state),
                    *final(state),
                    r,
                ) || (*final(state) == *old(state) && match bound_to(code) {
                    ElKey::Select => r is Default || self.acts(
                        Occasion::Select,
                        selected,
                        *old(state),
                        *old(state),
                        r,
                    ),
                    ElKey::Roll => r is Default || self.acts(
                        Occasion::Roll,
                        selected,
                        *old(state),
                        *old(state),
                        r,
                    ),
                    ElKey::Unbound => r is Default,
                }),
                None => r is Default && *final(state) == *old(state),
            },
    {
        match event.pressed_key() {
            Some(code) => self.handle_key_press(code, state, selected),
            None => HandleResult::Default,
        }
    }

    /// Handle a key press on a child of this group.
    ///
    /// Either the group has its own answer to the key, or the state is left
    /// as it is and Enter is handled as [`Self::handle_select`] handles it,
    /// `r` as [`Self::handle_roll`] does, and any other key is left unused.
    fn handle_key_press(&self, code: KeyCode, state: &mut S, selected: usize) -> (r: HandleResult<
        T,
    >)
        ensures
            self.acts(Occasion::Key(code), selected, *old(state), *final(state), r) || (*final(state) == *old(state) && match bound_to(code) {
                ElKey::Select => r is Default || self.acts(
                    Occasion::Select,
                    selected,
                    *old(state),
                    *old(state),
                    r,
                ),
                ElKey::Roll => r is Default || self.acts(
                    Occasion::Roll,
                    selected,
                    *old(state),
                    *old(state),
                    r,
                ),
                ElKey::Unbound => r is Default,
            }),
    {
        match key_binding(code) {
            ElKey::Select => self.handle_select(state, selected),
            ElKey::Roll => self.handle_roll(state, selected),
            ElKey::Unbound => HandleResult::Default,
        }
    }

    /// Handle user requesting a roll from a child of this group: either
    /// the group has its own answer, or the request is left unused.
    fn handle_roll(&self, state: &S, selected: usize) -> (r: HandleResult<T>)
        ensures
            r is Default || self.acts(Occasion::Roll, selected, *state, *state, r),
    {
        HandleResult::Default
    }

    /// Handle a child of this element being selected by the user: either
    /// the group has its own answer, or the selecting is left unused.
    fn handle_select(&self, state: &S, selected: usize) -> (r: HandleResult<T>)
        ensures
            r is Default || self.acts(Occasion::Select, selected, *state, *state, r),
    {
        HandleResult::Default
    }
}

/// Elements which can appear in view columns. Each element is either a simple
/// single element or a group of elements rendered together.
#[verifier::reject_recursive_types(S)]
#[verifier::reject_recursive_types(T)]
pub enum El<S, T> {
    Simple(Box<dyn ElSimp<S, T>>),
    Group(Box<dyn ElGroup<S, T>>),
}

impl<S, T> El<S, T> {
    /// The dimension constraints of this element.
    pub open spec fn dims(&self, state: &S) -> Dims {
        match self {
            El::Simple(el) => el.dims(),
            El::Group(group) => group.dims(state),
        }
    }

    /// Whether this element is a group laid out left to right, whose children
    /// share one row.
    pub open spec fn is_row(&self) -> bool {
        match self {
            El::Simple(_) => false,
            El::Group(group) => group.dir() == Direction::Horizontal,
        }
    }

    /// The number of rows this element adds to its column: one for a simple
    /// element, one for a horizontal group, and one for each child of a
    /// vertical group.
    pub open spec fn rows(&self, state: &S) -> nat {
        match self {
            El::Simple(_) => 1,
            El::Group(group) => if group.dir() == Direction::Vertical {
                group.count(state) as nat
            } else {
                1
            },
        }
    }

    /// The number of places across the one row of a horizontal group; one
    /// for every other element.
    pub open spec fn across(&self, state: &S) -> nat {
        match self {
            El::Simple(_) => 1,
            El::Group(group) => if group.dir() == Direction::Horizontal {
                group.count(state) as nat
            } else {
                1
            },
        }
    }

    /// The child that is addressed by row `local` of this element and place
    /// `row_col` across it.
    pub open spec fn child(&self, local: usize, row_col: usize) -> usize {
        match self {
            El::Simple(_) => 0,
            El::Group(group) => if group.dir() == Direction::Vertical {
                local
            } else {
                row_col
            },
        }
    }

    /// The centre of child `index` of this element when it occupies `area`. A
    /// simple element is its own and only child.
    pub open spec fn centre(&self, area: Rect, state: &S, index: usize) -> (u16, u16) {
        match self {
            El::Simple(_) => crate::geometry::centre_point(area),
            El::Group(group) => group.centre(area, state, index),
        }
    }

    /// Whether a frame that was `before` may be `after` once this element
    /// has drawn itself into `area` of it, with `mark` the child of it that
    /// is shown as selected. A simple element is told whether it is
    /// selected, a group which of its children is.
    pub open spec fn draws(
        &self,
        before: ratatui::Frame,
        after: ratatui::Frame,
        area: Rect,
        state: &S,
        mark: Option<usize>,
    ) -> bool {
        match self {
            El::Simple(el) => el.draws(before, after, area, state, mark is Some),
            El::Group(group) => group.draws(before, after, area, state, mark),
        }
    }

    /// Whether handling `event` with child `child` of this element selected
    /// may turn the state `before` into `after` and come to `result`: as the
    /// `handle` of the element says, to which a simple element is not told
    /// of a child.
    pub open spec fn happens(
        &self,
        event: Event,
        child: usize,
        before: S,
        after: S,
        result: HandleResult<T>,
    ) -> bool {
        match self {
            El::Simple(el) => el.acts(Occasion::Event(event), before, after, result)
                || match event.pressed() {
                Some(code) => el.acts(Occasion::Key(code), before, after, result) || (after
                    == before && match bound_to(code) {
                    ElKey::Select => result is Default || el.acts(
                        Occasion::Select,
                        before,
                        before,
                        result,
                    ),
                    ElKey::Roll => result is Default || el.acts(
                        Occasion::Roll,
                        before,
                        before,
                        result,
                    ),
                    ElKey::Unbound => result is Default,
                }),
                None => result is Default && after == before,
            },
            El::Group(group) => group.acts(Occasion::Event(event), child, before, after, result)
                || match event.pressed() {
                Some(code) => group.acts(Occasion::Key(code), child, before, after, result) || (
                after == before && match bound_to(code) {
                    ElKey::Select => result is Default || group.acts(
                        Occasion::Select,
                        child,
                        before,
                        before,
                        result,
                    ),
                    ElKey::Roll => result is Default || group.acts(
                        Occasion::Roll,
                        child,
                        before,
                        before,
                        result,
                    ),
                    ElKey::Unbound => result is Default,
                }),
                None => result is Default && after == before,
            },
        }
    }

    /// Hand `event` to this element, with child `child` of it selected.
    pub fn handle(&self, event: Event, state: &mut S, child: usize) -> (r: HandleResult<T>)
        ensures
            self.happens(event, child, *old(state), *final(state), r),
    {
        match self {
            El::Simple(el) => el.handle(event, state),
            El::Group(group) => group.handle(event, state, child),
        }
    }

    /// Render this element into `area` of the frame, with `mark` the child
    /// of it that is shown as selected.
    pub fn render(&self, frame: &mut ratatui::Frame, area: Rect, state: &S, mark: Option<usize>)
        ensures
            self.draws(*old(frame), *final(frame), area, state, mark),
    {
        match self {
            El::Simple(el) => el.render(frame, area, state, mark.is_some()),
            El::Group(group) => group.render(frame, area, state, mark),
        }
    }

    /// Return the dimension constraints for this element.
    pub fn dimensions(&self, state: &S) -> (d: Dims)
        ensures
            d == self.dims(state),
    {
        match self {
            El::Simple(el) => el.dimensions(),
            El::Group(el) => el.dimensions(state),
        }
    }

    /// Return the number of rows of this element. For simple elements this
    /// is always just 1. For groups it is the number of children that are
    /// selected by row.
    pub fn row_count(&self, state: &S) -> (n: usize)
        ensures
            n == self.rows(state),
    {
        match self {
            El::Simple(_) => 1,
            El::Group(group) => {
                if group.direction() == Direction::Vertical {
                    group.child_count(state)
                } else {
                    1
                }
            },
        }
    }

    /// The child addressed by row `local` of this element and place
    /// `row_col` across it.
    pub fn child_index(&self, local: usize, row_col: usize) -> (index: usize)
        ensures
            index == self.child(local, row_col),
    {
        match self {
            El::Simple(_) => 0,
            El::Group(group) => {
                if group.direction() == Direction::Vertical {
                    local
                } else {
                    row_col
                }
            },
        }
    }
}

impl<S, T> El<S, T> {
    /// A simple element, boxed for a column.
    pub fn simple<E: ElSimp<S, T> + 'static>(el: E) -> (boxed: Self)
        ensures
            boxed is Simple,
    {
        El::Simple(Box::new(el))
    }

    /// A group, boxed for a column.
    pub fn group<E: ElGroup<S, T> + 'static>(el: E) -> (boxed: Self)
        ensures
            boxed is Group,
    {
        El::Group(Box::new(el))
    }
}

} // verus!
