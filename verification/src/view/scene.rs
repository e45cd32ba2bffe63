//! Scenes: what owns a layout and is shown, one above the other.

use crate::view::event::{Event, HandleResult, KeyCode, Occasion};
use crate::view::layout::{ElPos, Layout};
use vstd::prelude::*;

verus! {

/// A scene is a full-screen (potentially floating) view of the application.
/// A scene is expected to track non-application global state internally and
/// update it appropriately based on user input.
///
/// `T` is what stands for a scene where one is handed about: whoever keeps
/// the scenes picks it.
pub trait Scene<S, T> {
    /// The layout of the scene.
    spec fn design(&self) -> &Layout<S, T>;

    /// Returns a reference to the scene's layout for navigation or rendering.
    fn layout(&self) -> (layout: &Layout<S, T>)
        ensures
            layout == self.design(),
    ;

    /// Whether the scene's own answer to `occasion` may turn the state
    /// `before` into `after` and come to `result`. This says what the scene
    /// does where it does not leave an occasion to the trait; where it
    /// leaves all to the trait it never holds.
    spec fn acts(&self, occasion: Occasion, before: S, after: S, result: HandleResult<T>) -> bool;

    /// Handle user input entered while the scene is active. Should return
    /// [`HandleResult::Consume`] if the input was used to update state, or
    /// [`HandleResult::Default`] if the parent context should handle the
    /// event.
    ///
    /// Either the scene has its own answer to the event, or the event is
    /// offered to the selected element, as the layout of the scene hands it
    /// on. What the element makes of it is returned unless the element
    /// leaves it unused; then a key press goes to
    /// [`Scene::handle_key_press`], and any other event is left unused.
    fn handle(&mut self, event: Event, state: &mut S, selected: ElPos) -> (r: HandleResult<T>)
        ensures
            old(self).acts(Occasion::Event(event), *old(state), *final(state), r)
                || exists|offered: HandleResult<T>, between: S| #[trigger]
                old(self).design().handled(event, selected, *old(state), between, offered) && (
                if !(offered is Default) {
                    r == offered && *final(state) == between
                } else {
                    match event.pressed() {
                        Some(code) => old(self).acts(
                            Occasion::Key(code),
                            between,
                            *final(state),
                            r,
                        ) || (r is Default && *final(state) == between),
                        None => r is Default && *final(state) == between,
                    }
                }),
    {
        let ghost before = *state;
        let offered = self.layout().handle(event, state, selected);
        let ghost between = *state;
        match offered {
            HandleResult::Default => {},
            used => {
                assert(self.design().handled(event, selected, before, between, used));
                return used;
            },
        }
        let r = match event.pressed_key() {
            Some(code) => self.handle_key_press(code, state),
            None => HandleResult::Default,
        };
        assert(old(self).design().handled(event, selected, before, between, HandleResult::Default));
        r
    }

    /// Handle a key press while the scene was active. If the keypress is used
    /// by the scene, [`HandleResult::Consume`] should be returned.
    /// Otherwise [`HandleResult::Default`] can be returned to delegate
    /// handling to the parent context: either the scene has its own answer
    /// to the key, or the key is left unused and the state as it is.
    ///
    /// Navigation with arrows/hjkl and exit with q are handled by the global
    /// context automatically.
    fn handle_key_press(&mut self, key: KeyCode, state: &mut S) -> (r: HandleResult<T>)
        ensures
            old(self).acts(Occasion::Key(key), *old(state), *final(state), r) || (r is Default
                && *final(state) == *old(state)),
    {
        HandleResult::Default
    }
}

} // verus!
