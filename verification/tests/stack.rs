use chshtui::editors::{
    int_editor_dimensions, int_editor_key, int_modal_dimensions, roll_modal_dimensions,
    skill_editor_dimensions, skill_editor_key, stat_modal_dimensions, string_editor_dimensions,
    string_editor_key, string_modal_dimensions, EditorStep,
};
use chshtui::geometry::{Constraint, Dims, Rect};
use chshtui::stats::Proficiency;
use chshtui::view::stack::{
    draw, handle, handle_event, handle_key_press, process_handle_result, settle_event,
};
use chshtui::view::{
    ElPos, ElSimp, Event, HandleResult, KeyCode, Layout, Scene, SceneStackItem,
};
use ratatui::backend::TestBackend;
use ratatui::{Frame, Terminal};

struct Cell(u16, u16);

impl ElSimp<u32, Page> for Cell {
    fn draws(
        &self,
        _before: ratatui::Frame,
        _after: ratatui::Frame,
        _area: chshtui::geometry::Rect,
        _state: &u32,
        _selected: bool,
    ) -> bool {
        true
    }

    fn acts(
        &self,
        _occasion: chshtui::view::event::Occasion,
        _before: u32,
        _after: u32,
        _result: chshtui::view::HandleResult<Page>,
    ) -> bool {
        true
    }

    fn dims(&self) -> Dims {
        Dims::new(Constraint::Length(self.0), Constraint::Length(self.1))
    }

    fn dimensions(&self) -> Dims {
        Dims::new(Constraint::Length(self.0), Constraint::Length(self.1))
    }

    fn render(&self, _frame: &mut Frame, _area: Rect, _state: &u32, _selected: bool) {}

    fn handle_select(&self, state: &u32) -> HandleResult<Page> {
        HandleResult::Open(Page::new(*state as usize + 1))
    }

    fn handle_roll(&self, state: &u32) -> HandleResult<Page> {
        HandleResult::Replace(Page::new(*state as usize + 10))
    }
}

/// A scene of `rows` cells in one column and one cell beside them.
struct Page {
    rows: usize,
    layout: Layout<u32, Page>,
}

impl Page {
    fn new(rows: usize) -> Self {
        let mut layout = Layout::new();
        for _ in 0..rows {
            layout.add_el(Cell(4, 2));
        }
        layout.add_column();
        layout.add_el(Cell(4, 2));
        Page { rows, layout }
    }
}

impl Scene<u32, Page> for Page {
    fn acts(
        &self,
        _occasion: chshtui::view::event::Occasion,
        _before: u32,
        _after: u32,
        _result: chshtui::view::HandleResult<Page>,
    ) -> bool {
        true
    }

    fn design(&self) -> &Layout<u32, Page> {
        &self.layout
    }

    fn layout(&self) -> &Layout<u32, Page> {
        &self.layout
    }

    fn handle_key_press(&mut self, key: KeyCode, state: &mut u32) -> HandleResult<Page> {
        match key {
            KeyCode::Esc => HandleResult::Close,
            KeyCode::Char('+') => {
                *state += 1;
                HandleResult::Consume
            }
            _ => HandleResult::Default,
        }
    }
}

fn rows(stack: &Vec<SceneStackItem<Page>>) -> Vec<usize> {
    stack.iter().map(|item| item.scene.rows).collect()
}

fn at(col: usize, row: usize) -> ElPos {
    ElPos::new(col, row, 0)
}

#[test]
fn results_change_the_stack() {
    let mut stack = vec![SceneStackItem::new(Page::new(1))];
    assert_eq!(stack[0].position, ElPos::default());
    assert_eq!(stack[0].dimensions, Rect::default());
    process_handle_result(&mut stack, HandleResult::Open(Page::new(2)));
    assert_eq!(rows(&stack), vec![1, 2]);
    process_handle_result(&mut stack, HandleResult::Consume);
    process_handle_result(&mut stack, HandleResult::Default);
    assert_eq!(rows(&stack), vec![1, 2]);
    stack[1].position = at(0, 1);
    process_handle_result(&mut stack, HandleResult::Replace(Page::new(3)));
    assert_eq!(rows(&stack), vec![1, 3]);
    assert_eq!(stack[1].position, ElPos::default());
    process_handle_result(&mut stack, HandleResult::Close);
    process_handle_result(&mut stack, HandleResult::Close);
    assert!(stack.is_empty());
    process_handle_result(&mut stack, HandleResult::Close);
    assert!(stack.is_empty());
    process_handle_result(&mut stack, HandleResult::Replace(Page::new(4)));
    assert_eq!(rows(&stack), vec![4]);
}

#[test]
fn keys_move_the_selection_of_the_scene_on_top() {
    let mut stack = vec![
        SceneStackItem::new(Page::new(2)),
        SceneStackItem::new(Page::new(3)),
    ];
    for item in stack.iter_mut() {
        item.dimensions = Rect::new(0, 0, 8, 6);
    }
    let state = 0;
    handle_key_press(&mut stack, &state, KeyCode::Down);
    handle_key_press(&mut stack, &state, KeyCode::Char('j'));
    handle_key_press(&mut stack, &state, KeyCode::Down);
    assert_eq!(stack[1].position, at(0, 2));
    assert_eq!(stack[0].position, at(0, 0));
    handle_key_press(&mut stack, &state, KeyCode::Char('l'));
    assert_eq!(stack[1].position, at(1, 0));
    handle_key_press(&mut stack, &state, KeyCode::Char('x'));
    assert_eq!(rows(&stack), vec![2, 3]);
    assert_eq!(stack[1].position, at(1, 0));
    handle_key_press(&mut stack, &state, KeyCode::Char('q'));
    assert_eq!(rows(&stack), vec![2]);
    handle_key_press(&mut stack, &state, KeyCode::Char('q'));
    handle_key_press(&mut stack, &state, KeyCode::Char('q'));
    handle_key_press(&mut stack, &state, KeyCode::Down);
    assert!(stack.is_empty());
}

#[test]
fn a_click_selects_in_the_scene_on_top() {
    let mut stack = vec![SceneStackItem::new(Page::new(3))];
    stack[0].dimensions = Rect::new(0, 0, 8, 6);
    let state = 0;
    handle(&mut stack, &state, Event::MouseDown { column: 1, row: 5 });
    assert_eq!(stack[0].position, at(0, 2));
    handle(&mut stack, &state, Event::MouseDown { column: 5, row: 1 });
    assert_eq!(stack[0].position, at(1, 0));
    handle(&mut stack, &state, Event::Other);
    assert_eq!(stack[0].position, at(1, 0));
    handle(&mut stack, &state, Event::press(KeyCode::Left));
    assert_eq!(stack[0].position, at(0, 0));
    let mut none: Vec<SceneStackItem<Page>> = Vec::new();
    handle(&mut none, &state, Event::MouseDown { column: 1, row: 5 });
    assert!(none.is_empty());
}

#[test]
fn events_go_to_the_scene_on_top_first() {
    let mut stack = vec![SceneStackItem::new(Page::new(2))];
    stack[0].dimensions = Rect::new(0, 0, 8, 6);
    let mut state = 5;
    // The selected element opens a scene.
    handle_event(&mut stack, &mut state, Event::press(KeyCode::Enter));
    assert_eq!(rows(&stack), vec![2, 6]);
    // The scene uses a key.
    handle_event(&mut stack, &mut state, Event::press(KeyCode::Char('+')));
    assert_eq!(state, 6);
    assert_eq!(rows(&stack), vec![2, 6]);
    // Nobody uses the key: it moves the selection.
    stack[1].dimensions = Rect::new(0, 0, 8, 12);
    handle_event(&mut stack, &mut state, Event::press(KeyCode::Down));
    assert_eq!(stack[1].position, at(0, 1));
    // The selected element replaces the scene.
    handle_event(&mut stack, &mut state, Event::press(KeyCode::Char('r')));
    assert_eq!(rows(&stack), vec![2, 16]);
    // The scene closes itself.
    handle_event(&mut stack, &mut state, Event::press(KeyCode::Esc));
    assert_eq!(rows(&stack), vec![2]);
    handle_event(&mut stack, &mut state, Event::press(KeyCode::Char('q')));
    assert!(stack.is_empty());
    handle_event(&mut stack, &mut state, Event::press(KeyCode::Enter));
    assert!(stack.is_empty());
    assert_eq!(state, 6);
}

#[test]
fn drawing_notes_where_each_scene_lies() {
    let mut terminal = Terminal::new(TestBackend::new(30, 10)).unwrap();
    let modal = Page {
        rows: 1,
        layout: Page::new(1).layout.modal(
            "Modal",
            Dims::new(Constraint::Length(10), Constraint::Length(4)),
            true,
        ),
    };
    let mut stack = vec![SceneStackItem::new(Page::new(2)), SceneStackItem::new(modal)];
    stack[0].position = at(0, 1);
    let state = 0;
    terminal.draw(|frame| draw(&mut stack, frame, &state)).unwrap();
    assert_eq!(stack[0].dimensions, Rect::new(0, 0, 30, 10));
    assert_eq!(stack[1].dimensions, Rect::new(11, 4, 8, 2));
    assert_eq!(stack[0].position, at(0, 1));
    assert_eq!(rows(&stack), vec![2, 1]);
}

#[test]
fn keys_in_the_editors() {
    assert_eq!(int_editor_key(KeyCode::Enter, 7), EditorStep::Submit(7));
    assert_eq!(int_editor_key(KeyCode::Left, 7), EditorStep::Edit(6));
    assert_eq!(int_editor_key(KeyCode::Char('h'), 7), EditorStep::Edit(6));
    assert_eq!(int_editor_key(KeyCode::Right, 7), EditorStep::Edit(8));
    assert_eq!(int_editor_key(KeyCode::Char('l'), -1), EditorStep::Edit(0));
    assert_eq!(int_editor_key(KeyCode::Up, 7), EditorStep::Pass);
    assert_eq!(int_editor_key(KeyCode::Esc, 7), EditorStep::Pass);
    assert_eq!(
        int_editor_key(KeyCode::Left, i64::MIN),
        EditorStep::Edit(i64::MIN)
    );
    assert_eq!(
        int_editor_key(KeyCode::Right, i64::MAX),
        EditorStep::Edit(i64::MAX)
    );

    assert_eq!(
        skill_editor_key(KeyCode::Enter, Proficiency::Expert),
        EditorStep::Submit(Proficiency::Expert)
    );
    assert_eq!(
        skill_editor_key(KeyCode::Up, Proficiency::Expert),
        EditorStep::Edit(Proficiency::Trained)
    );
    assert_eq!(
        skill_editor_key(KeyCode::Char('j'), Proficiency::Expert),
        EditorStep::Edit(Proficiency::Master)
    );
    assert_eq!(
        skill_editor_key(KeyCode::Up, Proficiency::Untrained),
        EditorStep::Edit(Proficiency::Untrained)
    );
    assert_eq!(
        skill_editor_key(KeyCode::Left, Proficiency::Expert),
        EditorStep::Pass
    );

    assert_eq!(string_editor_key(KeyCode::Enter), EditorStep::Submit(()));
    assert_eq!(string_editor_key(KeyCode::Esc), EditorStep::Cancel);
    assert_eq!(string_editor_key(KeyCode::Char('q')), EditorStep::Pass);
}

#[test]
fn the_room_that_editors_ask_for() {
    let exact = |w, h| Dims::new(Constraint::Length(w), Constraint::Length(h));
    assert_eq!(
        string_editor_dimensions(),
        Dims::new(Constraint::Min(16), Constraint::Length(3))
    );
    assert_eq!(
        string_modal_dimensions(),
        Dims::new(Constraint::Min(24), Constraint::Length(3))
    );
    assert_eq!(
        skill_editor_dimensions("Arcana"),
        Dims::new(Constraint::Min(8), Constraint::Length(7))
    );
    assert_eq!(int_editor_dimensions(5), exact(5, 1));
    assert_eq!(int_editor_dimensions(-120), exact(8, 1));
    assert_eq!(int_modal_dimensions(), exact(8, 3));
    assert_eq!(stat_modal_dimensions(), exact(8, 4));
    assert_eq!(roll_modal_dimensions(exact(7, 2)), exact(9, 4));
    assert_eq!(
        roll_modal_dimensions(Dims::new(Constraint::Fill(1), Constraint::Length(2))),
        exact(16, 4)
    );
}

/// Scenes of any kind, as a stack keeps them.
struct Boxed(Box<dyn Scene<u32, Boxed>>);

impl Scene<u32, Boxed> for Boxed {
    fn acts(
        &self,
        _occasion: chshtui::view::event::Occasion,
        _before: u32,
        _after: u32,
        _result: chshtui::view::HandleResult<Boxed>,
    ) -> bool {
        true
    }

    fn design(&self) -> &Layout<u32, Boxed> {
        self.0.design()
    }

    fn layout(&self) -> &Layout<u32, Boxed> {
        self.0.layout()
    }

    fn handle(&mut self, event: Event, state: &mut u32, selected: ElPos) -> HandleResult<Boxed> {
        self.0.handle(event, state, selected)
    }

    fn handle_key_press(&mut self, key: KeyCode, state: &mut u32) -> HandleResult<Boxed> {
        self.0.handle_key_press(key, state)
    }
}

struct Counter {
    layout: Layout<u32, Boxed>,
}

impl Scene<u32, Boxed> for Counter {
    fn acts(
        &self,
        _occasion: chshtui::view::event::Occasion,
        _before: u32,
        _after: u32,
        _result: chshtui::view::HandleResult<Boxed>,
    ) -> bool {
        true
    }

    fn design(&self) -> &Layout<u32, Boxed> {
        &self.layout
    }

    fn layout(&self) -> &Layout<u32, Boxed> {
        &self.layout
    }

    fn handle_key_press(&mut self, key: KeyCode, state: &mut u32) -> HandleResult<Boxed> {
        match key {
            KeyCode::Enter => {
                *state += 1;
                HandleResult::Open(Boxed(Box::new(Closer {
                    layout: Layout::new(),
                })))
            }
            _ => HandleResult::Default,
        }
    }
}

struct Closer {
    layout: Layout<u32, Boxed>,
}

impl Scene<u32, Boxed> for Closer {
    fn acts(
        &self,
        _occasion: chshtui::view::event::Occasion,
        _before: u32,
        _after: u32,
        _result: chshtui::view::HandleResult<Boxed>,
    ) -> bool {
        true
    }

    fn design(&self) -> &Layout<u32, Boxed> {
        &self.layout
    }

    fn layout(&self) -> &Layout<u32, Boxed> {
        &self.layout
    }

    fn handle(&mut self, _event: Event, _state: &mut u32, _selected: ElPos) -> HandleResult<Boxed> {
        HandleResult::Close
    }
}

#[test]
fn scenes_of_different_kinds_share_a_stack() {
    let mut stack = vec![SceneStackItem::new(Boxed(Box::new(Counter {
        layout: Layout::new(),
    })))];
    let mut state = 0;
    handle_event(&mut stack, &mut state, Event::press(KeyCode::Enter));
    assert_eq!(stack.len(), 2);
    assert_eq!(state, 1);
    handle_event(&mut stack, &mut state, Event::Other);
    assert_eq!(stack.len(), 1);
    handle_event(&mut stack, &mut state, Event::press(KeyCode::Char('q')));
    assert!(stack.is_empty());
}

#[test]
fn what_follows_an_outcome() {
    let mut stack = vec![SceneStackItem::new(Page::new(3))];
    stack[0].dimensions = Rect::new(0, 0, 8, 6);
    let state = 0;
    // Left unused, a key moves the selection and a click selects.
    settle_event(
        &mut stack,
        &state,
        Event::press(KeyCode::Down),
        HandleResult::Default,
    );
    assert_eq!(stack[0].position, at(0, 1));
    settle_event(
        &mut stack,
        &state,
        Event::MouseDown { column: 5, row: 0 },
        HandleResult::Default,
    );
    assert_eq!(stack[0].position, at(1, 0));
    // Used, the event does nothing more.
    settle_event(
        &mut stack,
        &state,
        Event::press(KeyCode::Left),
        HandleResult::Consume,
    );
    assert_eq!(stack[0].position, at(1, 0));
    // What is asked for is done, whatever the event.
    settle_event(
        &mut stack,
        &state,
        Event::press(KeyCode::Char('q')),
        HandleResult::Open(Page::new(1)),
    );
    assert_eq!(rows(&stack), vec![3, 1]);
    settle_event(&mut stack, &state, Event::Other, HandleResult::Replace(Page::new(2)));
    assert_eq!(rows(&stack), vec![3, 2]);
    settle_event(&mut stack, &state, Event::Other, HandleResult::Close);
    assert_eq!(rows(&stack), vec![3]);
}
