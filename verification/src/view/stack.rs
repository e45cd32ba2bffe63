//! The stack of scenes: the scene on top is shown last and gets the events.

use crate::geometry::Rect;
use crate::view::event::{Event, HandleResult, KeyCode, Occasion};
use crate::view::layout::{Arrangement, ElPos, Navigation};
use crate::view::scene::Scene;
use crate::view::surface::frame_extent;
use vstd::prelude::*;

verus! {

/// A scene on the stack, with where it was drawn last and what is selected
/// in it.
pub struct SceneStackItem<T> {
    pub scene: T,
    pub dimensions: Rect,
    pub position: ElPos,
}

impl<T> SceneStackItem<T> {
    /// `scene` as it is pushed: not drawn yet, with the origin selected.
    pub open spec fn fresh(scene: T) -> SceneStackItem<T> {
        SceneStackItem {
            scene,
            dimensions: Rect { x: 0, y: 0, width: 0, height: 0 },
            position: ElPos::origin(),
        }
    }

    pub fn new(scene: T) -> (item: Self)
        ensures
            item == Self::fresh(scene),
    {
        Self {
            scene,
            dimensions: Rect { x: 0, y: 0, width: 0, height: 0 },
            position: ElPos { col: 0, pos: crate::view::column::ColPos { row: 0, row_col: 0 } },
        }
    }
}

/// `stack` without the scene on top; an empty stack stays empty.
pub open spec fn popped<T>(stack: Seq<SceneStackItem<T>>) -> Seq<SceneStackItem<T>> {
    if stack.len() == 0 {
        stack
    } else {
        stack.drop_last()
    }
}

/// What `res` makes of `stack`: closing pops the scene on top, opening
/// pushes a new scene, replacing does the one and then the other, and
/// anything else leaves the stack as it is.
pub open spec fn processed<T>(stack: Seq<SceneStackItem<T>>, res: HandleResult<T>) -> Seq<
    SceneStackItem<T>,
> {
    match res {
        HandleResult::Close => popped(stack),
        HandleResult::Open(scene) => stack.push(SceneStackItem::fresh(scene)),
        HandleResult::Replace(scene) => popped(stack).push(SceneStackItem::fresh(scene)),
        HandleResult::Consume => stack,
        HandleResult::Default => stack,
    }
}

/// Do to `stack` what `res` asks for.
pub fn process_handle_result<T>(stack: &mut Vec<SceneStackItem<T>>, res: HandleResult<T>)
    ensures
        final(stack)@ == processed(old(stack)@, res),
{
    match res {
        HandleResult::Close => {
            stack.pop();
        },
        HandleResult::Open(scene) => {
            stack.push(SceneStackItem::new(scene));
        },
        HandleResult::Replace(scene) => {
            stack.pop();
            stack.push(SceneStackItem::new(scene));
        },
        HandleResult::Consume => {},
        HandleResult::Default => {},
    }
}

/// Whether `after` is `before` but for what is selected in the scene on
/// top.
pub open spec fn reselected<T>(
    before: Seq<SceneStackItem<T>>,
    after: Seq<SceneStackItem<T>>,
) -> bool {
    &&& after.len() == before.len()
    &&& before.len() > 0
    &&& after.drop_last() == before.drop_last()
    &&& after.last().scene == before.last().scene
    &&& after.last().dimensions == before.last().dimensions
}

/// Whether `after` is what a press of `code` that the scene on top left
/// unused makes of `before`: a key of movement moves the selection in the
/// scene on top, as its layout says for the area it was drawn in last, `q`
/// closes that scene, and any other key changes nothing.
pub open spec fn pressed<S, T: Scene<S, T>>(
    before: Seq<SceneStackItem<T>>,
    after: Seq<SceneStackItem<T>>,
    state: &S,
    code: KeyCode,
) -> bool {
    if before.len() == 0 {
        after == before
    } else {
        match Navigation::of_key(code) {
            Some(nav) => {
                let top = before.last();
                let layout = top.scene.design();
                &&& reselected(before, after)
                &&& layout.clamped(state, after.last().position) == after.last().position
                &&& !layout.crosses(state, top.position, nav) ==> after.last().position
                    == layout.settled(state, top.position, nav)
                &&& layout.crosses(state, top.position, nav) ==> exists|arr: Arrangement| #[trigger]
                    arr.fits(layout) && arr.divides(layout, state, top.dimensions) && after.last().position
                        == layout.crossed(&arr, state, top.position, nav)
            },
            None => if code == KeyCode::Char('q') {
                after == before.drop_last()
            } else {
                after == before
            },
        }
    }
}

/// Whether `after` is what a mouse button going down over the cell at
/// (`column`, `row`) makes of `before`: in the scene on top, what lies
/// under the mouse is selected.
pub open spec fn clicked<S, T: Scene<S, T>>(
    before: Seq<SceneStackItem<T>>,
    after: Seq<SceneStackItem<T>>,
    state: &S,
    column: u16,
    row: u16,
) -> bool {
    if before.len() == 0 {
        after == before
    } else {
        let top = before.last();
        let layout = top.scene.design();
        &&& reselected(before, after)
        &&& layout.clamped(state, after.last().position) == after.last().position
        &&& exists|arr: Arrangement| #[trigger]
            arr.fits(layout) && arr.divides(layout, state, top.dimensions) && after.last().position
                == layout.pointed(&arr, state, column, row)
    }
}

/// Handle a key that the scene on top left unused: a key of movement moves
/// the selection in that scene, and `q` closes it.
pub fn handle_key_press<S, T: Scene<S, T>>(
    stack: &mut Vec<SceneStackItem<T>>,
    state: &S,
    code: KeyCode,
)
    ensures
        pressed(old(stack)@, final(stack)@, state, code),
{
    if stack.len() == 0 {
        return ;
    }
    match Navigation::from_key_code(code) {
        Some(nav) => {
            let mut top = stack.pop().unwrap();
            let position = top.scene.layout().navigate(top.dimensions, state, top.position, nav);
            top.position = position;
            stack.push(top);
            assert(stack@.drop_last() =~= old(stack)@.drop_last());
        },
        None => {
            match code {
                KeyCode::Char('q') => {
                    stack.pop();
                },
                _ => {},
            }
        },
    }
}

/// Whether `after` is what an event that the scene on top left unused
/// makes of `before`: a key press as [`pressed`] says, a mouse button going
/// down as [`clicked`] says, and anything else nothing.
pub open spec fn unused<S, T: Scene<S, T>>(
    before: Seq<SceneStackItem<T>>,
    after: Seq<SceneStackItem<T>>,
    state: &S,
    event: Event,
) -> bool {
    match event {
        Event::Key(_) => match event.pressed() {
            Some(code) => pressed(before, after, state, code),
            None => after == before,
        },
        Event::MouseDown { column, row } => clicked(before, after, state, column, row),
        Event::Other => after == before,
    }
}

/// Whether `after` is what becomes of `before` once the scene on top has
/// had `event` and come to `outcome`: an event that it left unused is
/// handled as [`unused`] says, and anything else that it asks for is done
/// as [`processed`] says.
pub open spec fn settled<S, T: Scene<S, T>>(
    before: Seq<SceneStackItem<T>>,
    after: Seq<SceneStackItem<T>>,
    state: &S,
    event: Event,
    outcome: HandleResult<T>,
) -> bool {
    match outcome {
        HandleResult::Default => unused(before, after, state, event),
        _ => after == processed(before, outcome),
    }
}

/// Whether `scene`, with `selected` selected in it, may answer `event` by
/// turning the state `before` into `after` and coming to `result`: as
/// [`Scene::handle`] says.
pub open spec fn answered<S, T: Scene<S, T>>(
    scene: &T,
    event: Event,
    selected: ElPos,
    before: S,
    after: S,
    result: HandleResult<T>,
) -> bool {
    scene.acts(Occasion::Event(event), before, after, result) || exists|
        offered: HandleResult<T>,
        between: S,
    | #[trigger]
        scene.design().handled(event, selected, before, between, offered) && (if !(offered
            is Default) {
            result == offered && after == between
        } else {
            match event.pressed() {
                Some(code) => scene.acts(Occasion::Key(code), between, after, result) || (result
                    is Default && after == between),
                None => result is Default && after == between,
            }
        })
}

/// `stack` with `scene` in place of the scene on top.
pub open spec fn with_top<T>(stack: Seq<SceneStackItem<T>>, scene: T) -> Seq<SceneStackItem<T>> {
    stack.drop_last().push(
        SceneStackItem {
            scene,
            dimensions: stack.last().dimensions,
            position: stack.last().position,
        },
    )
}

/// Whether a frame that was `first` may be `last`, and the scenes are noted
/// in `after` to lie where they were drawn, once the scenes of `before`
/// have been rendered one after the other from the bottom of the stack to
/// the top, each as its layout says with the whole frame to render into.
pub open spec fn drawn<S, T: Scene<S, T>>(
    before: Seq<SceneStackItem<T>>,
    after: Seq<SceneStackItem<T>>,
    state: &S,
    first: ratatui::Frame,
    last: ratatui::Frame,
) -> bool {
    exists|frames: Seq<ratatui::Frame>|
        {
            &&& #[trigger] frames.len() == before.len() + 1
            &&& frames[0] == first
            &&& frames[before.len() as int] == last
            &&& forall|k: int|
                0 <= k < before.len() ==> (#[trigger] before[k]).scene.design().rendered(
                    frame_extent(frames[k]),
                    state,
                    before[k].position,
                    frames[k],
                    frames[k + 1],
                    after[k].dimensions,
                )
        }
}

/// Handle an event that the scene on top left unused: a key press as
/// [`pressed`] says, a mouse button going down as [`clicked`] says, and
/// nothing else.
pub fn handle<S, T: Scene<S, T>>(stack: &mut Vec<SceneStackItem<T>>, state: &S, event: Event)
    ensures
        unused(old(stack)@, final(stack)@, state, event),
{
    if stack.len() == 0 {
        return ;
    }
    match event {
        Event::Key(_) => {
            match event.pressed_key() {
                Some(code) => handle_key_press(stack, state, code),
                None => {},
            }
        },
        Event::MouseDown { column, row } => {
            let mut top = stack.pop().unwrap();
            let position = top.scene.layout().element_at_coordinate(
                top.dimensions,
                state,
                column,
                row,
            );
            top.position = position;
            stack.push(top);
            assert(stack@.drop_last() =~= old(stack)@.drop_last());
        },
        Event::Other => {},
    }
}

/// Do with the stack what follows once the scene on top has had `event` and
/// come to `outcome`.
pub fn settle_event<S, T: Scene<S, T>>(
    stack: &mut Vec<SceneStackItem<T>>,
    state: &S,
    event: Event,
    outcome: HandleResult<T>,
)
    ensures
        settled(old(stack)@, final(stack)@, state, event, outcome),
{
    match outcome {
        HandleResult::Default => handle(stack, state, event),
        asked => process_handle_result(stack, asked),
    }
}

/// Offer `event` to the scene on top, and do with the stack what follows.
///
/// The scene on top answers the event as [`answered`] says, whereby it may
/// change itself and the state. The stack is then, with the scene as it
/// has become and the state as it has become, what [`settled`] says for the
/// outcome that the scene came to. Without a scene nothing happens.
pub fn handle_event<S, T: Scene<S, T>>(
    stack: &mut Vec<SceneStackItem<T>>,
    state: &mut S,
    event: Event,
)
    ensures
        old(stack)@.len() == 0 ==> final(stack)@ == old(stack)@ && *final(state) == *old(state),
        old(stack)@.len() > 0 ==> exists|scene: T, outcome: HandleResult<T>| #[trigger]
            settled(with_top(old(stack)@, scene), final(stack)@, &*final(state), event, outcome)
                && answered(
                &old(stack)@.last().scene,
                event,
                old(stack)@.last().position,
                *old(state),
                *final(state),
                outcome,
            ),
{
    if stack.len() == 0 {
        return ;
    }
    let mut top = stack.pop().unwrap();
    let position = top.position;
    let outcome = top.scene.handle(event, state, position);
    let ghost scene = top.scene;
    stack.push(top);
    assert(stack@ =~= with_top(old(stack)@, scene));
    let ghost asked = outcome;
    assert(answered(&old(stack)@.last().scene, event, position, *old(state), *state, asked));
    settle_event(stack, &*state, event, outcome);
    assert(settled(with_top(old(stack)@, scene), stack@, &*state, event, asked) && answered(
        &old(stack)@.last().scene,
        event,
        old(stack)@.last().position,
        *old(state),
        *state,
        asked,
    ));
}

/// Draw the scenes, from the bottom of the stack to the top, and note where
/// each was drawn.
pub fn draw<S, T: Scene<S, T>>(
    stack: &mut Vec<SceneStackItem<T>>,
    frame: &mut ratatui::Frame,
    state: &S,
)
    ensures
        final(stack)@.len() == old(stack)@.len(),
        forall|i: int|
            0 <= i < final(stack)@.len() ==> (#[trigger] final(stack)@[i]).scene == old(stack)@[i].scene
                && final(stack)@[i].position == old(stack)@[i].position,
        drawn(old(stack)@, final(stack)@, state, *old(frame), *final(frame)),
{
    let mut i: usize = 0;
    let ghost mut frames: Seq<ratatui::Frame> = seq![*frame];
    while i < stack.len()
        invariant
            i <= stack@.len(),
            stack@.len() == old(stack)@.len(),
            forall|k: int|
                0 <= k < stack@.len() ==> (#[trigger] stack@[k]).scene == old(stack)@[k].scene
                    && stack@[k].position == old(stack)@[k].position,
            frames.len() == i + 1,
            frames[0] == *old(frame),
            frames[i as int] == *frame,
            forall|k: int|
                0 <= k < i ==> (#[trigger] old(stack)@[k]).scene.design().rendered(
                    frame_extent(frames[k]),
                    state,
                    old(stack)@[k].position,
                    frames[k],
                    frames[k + 1],
                    stack@[k].dimensions,
                ),
        decreases stack@.len() - i,
    {
        let ghost before = stack@;
        let mut item = stack.remove(i);
        let area = item.scene.layout().render(frame, state, item.position);
        item.dimensions = area;
        stack.insert(i, item);
        proof {
            frames = frames.push(*frame);
            assert forall|k: int| 0 <= k < stack@.len() implies (#[trigger] stack@[k]).scene == old(stack)@[k].scene && stack@[k].position == old(stack)@[k].position by {
                if k != i {
                    assert(stack@[k] == before[k]);
                }
            }
            assert forall|k: int| 0 <= k < i + 1 implies (#[trigger] old(stack)@[k]).scene.design().rendered(
                frame_extent(frames[k]),
                state,
                old(stack)@[k].position,
                frames[k],
                frames[k + 1],
                stack@[k].dimensions,
            ) by {
                if k < i {
                    assert(stack@[k] == before[k]);
                }
            }
        }
        i += 1;
    }
    proof {
        let n = old(stack)@.len();
        assert(frames.len() == n + 1 && frames[0] == *old(frame) && frames[n as int] == *frame);
    }
}

} // verus!
