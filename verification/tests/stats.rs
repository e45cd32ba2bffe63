use chshtui::dice::RollOutcome;
use chshtui::els::{
    format_modifier, Dice, RollDisplay, RollHistory, SkillsEl, SpellbookStatus, StatEl, Text,
    BORDER, DICE,
};
use chshtui::geometry::{Constraint, Dims, Direction, Rect};
use chshtui::roll::{Roll, RollSuff};
use chshtui::sheet::SheetState;
use chshtui::stats::Proficiency::{Expert, Legendary, Master, Trained, Untrained};
use chshtui::stats::{Proficiency, Skill, Skills, Stat, Stats};
use chshtui::text::{decimal_text, signed_decimal_text};
use chshtui::view::{ElGroup, ElPos, HandleResult, Layout, Navigation, Occasion};
use ratatui::Frame;
use ratatui::backend::TestBackend;
use ratatui::Terminal;

fn sheet() -> SheetState {
    SheetState {
        name: "Ezren".to_string(),
        level: 3,
        stats: Stats::default(),
        skills: Skills::default(),
        rolls: Vec::new(),
    }
}

fn rolled(n: usize) -> SheetState {
    let mut state = sheet();
    for i in 0..n {
        state.rolls.push(RollOutcome {
            roll: Roll {
                quantity: 1,
                size: 20,
                suff: RollSuff::Plain,
                mods: Vec::new(),
            },
            results: vec![i as u32 + 1],
        });
    }
    state
}

#[test]
fn abilities() {
    assert_eq!(
        Stat::stats(),
        vec![
            Stat::Strength,
            Stat::Dexterity,
            Stat::Constitution,
            Stat::Intelligence,
            Stat::Wisdom,
            Stat::Charisma
        ]
    );
    let short: Vec<String> = Stat::stats().iter().map(|s| s.short()).collect();
    assert_eq!(short, vec!["STR", "DEX", "CON", "INT", "WIS", "CHA"]);
    assert_eq!(Stat::modifier(10), 0);
    assert_eq!(Stat::modifier(11), 0);
    assert_eq!(Stat::modifier(12), 1);
    assert_eq!(Stat::modifier(18), 4);
    assert_eq!(Stat::modifier(9), 0);
    assert_eq!(Stat::modifier(8), -1);
    assert_eq!(Stat::modifier(7), -1);
    assert_eq!(Stat::modifier(i8::MAX), 58);
    assert_eq!(Stat::modifier(i8::MIN), -69);
}

#[test]
fn scores() {
    let mut stats = Stats::default();
    for stat in Stat::stats() {
        assert_eq!(stats.score(stat), 10);
        assert_eq!(stats.modifier(stat), 0);
    }
    stats.set_score(Stat::Wisdom, 16);
    assert_eq!(stats.score(Stat::Wisdom), 16);
    assert_eq!(stats.modifier(Stat::Wisdom), 3);
    assert_eq!(stats.score(Stat::Charisma), 10);
    // A score that is not recorded counts as ten.
    stats.dexterity = None;
    assert_eq!(stats.score(Stat::Dexterity), 10);
}

#[test]
fn proficiencies() {
    assert_eq!(
        Proficiency::ranks(),
        vec![Untrained, Trained, Expert, Master, Legendary]
    );
    assert_eq!(Untrained.increase(), Trained);
    assert_eq!(Trained.increase(), Expert);
    assert_eq!(Expert.increase(), Master);
    assert_eq!(Master.increase(), Legendary);
    assert_eq!(Legendary.increase(), Legendary);
    assert_eq!(Untrained.decrease(), Untrained);
    assert_eq!(Trained.decrease(), Untrained);
    assert_eq!(Expert.decrease(), Trained);
    assert_eq!(Master.decrease(), Expert);
    assert_eq!(Legendary.decrease(), Master);
    assert_eq!(Untrained.modifier(5), 0);
    assert_eq!(Trained.modifier(5), 7);
    assert_eq!(Expert.modifier(5), 9);
    assert_eq!(Master.modifier(5), 11);
    assert_eq!(Legendary.modifier(5), 13);
    assert_eq!(Legendary.modifier(-20), -12);
}

#[test]
fn skills() {
    let mut state = sheet();
    assert_eq!(state.skills.0.len(), 16);
    assert_eq!(state.skills.0[0].name, "Acrobatics");
    assert_eq!(state.skills.0[0].stat, Stat::Dexterity);
    assert_eq!(state.skills.0[15].name, "Thievery");
    assert!(state
        .skills
        .0
        .iter()
        .all(|s| s.proficiency == Proficiency::Untrained));
    assert_eq!(state.skills.position("Arcana"), Some(1));
    assert_eq!(state.skills.position("Cooking"), None);
    assert_eq!(state.skills.lookup("Medicine").unwrap().stat, Stat::Wisdom);
    assert!(state.skills.lookup("medicine").is_none());
    state.skills.lookup_mut("Medicine").unwrap().proficiency = Proficiency::Expert;
    assert!(state.skills.lookup_mut("Cooking").is_none());
    state.stats.set_score(Stat::Wisdom, 14);
    let medicine = state.skills.lookup("Medicine").unwrap();
    assert_eq!(medicine.proficiency, Proficiency::Expert);
    assert_eq!(medicine.modifier(&state), 2 + 4 + 3);
    assert_eq!(state.skills.lookup("Nature").unwrap().modifier(&state), 2);
    // Of two skills of one name the first is found.
    state.skills.0.push(Skill::new("Arcana", Stat::Charisma));
    assert_eq!(state.skills.lookup("Arcana").unwrap().stat, Stat::Intelligence);
}

#[test]
fn numbers_as_text() {
    assert_eq!(decimal_text(0), "0");
    assert_eq!(decimal_text(7), "7");
    assert_eq!(decimal_text(10), "10");
    assert_eq!(decimal_text(1203), "1203");
    assert_eq!(decimal_text(u64::MAX), "18446744073709551615");
    assert_eq!(signed_decimal_text(0), "0");
    assert_eq!(signed_decimal_text(-1), "-1");
    assert_eq!(signed_decimal_text(i64::MIN), "-9223372036854775808");
    assert_eq!(signed_decimal_text(i64::MAX), "9223372036854775807");
    assert_eq!(format_modifier(0), "+0");
    assert_eq!(format_modifier(4), "+4");
    assert_eq!(format_modifier(-3), "-3");
    assert_eq!(format_modifier(i64::MIN), "-9223372036854775808");
}

#[test]
fn simple_panels() {
    let text = Text::new("héllo");
    assert_eq!(text.0, "héllo");
    assert_eq!(
        text.dimensions(),
        Dims::new(Constraint::Length(6), Constraint::Length(1))
    );
    let stat = StatEl::new(Stat::Constitution);
    assert_eq!(
        stat.dimensions(),
        Dims::new(Constraint::Min(4), Constraint::Length(4))
    );
    assert_eq!(stat.title(), "CON");
    let mut state = sheet();
    state.stats.set_score(Stat::Constitution, 7);
    assert_eq!(stat.lines(&state), ("7".to_string(), "-1".to_string()));
    state.stats.set_score(Stat::Constitution, 15);
    assert_eq!(stat.lines(&state), ("15".to_string(), "+2".to_string()));
    assert_eq!(
        SpellbookStatus.dimensions(),
        Dims::new(Constraint::Min(16), Constraint::Length(3))
    );
    let display = RollDisplay::new("d20".to_string(), "17 (17)".to_string());
    assert_eq!(
        display.dimensions(),
        Dims::new(Constraint::Length(7), Constraint::Length(2))
    );
    assert_eq!(BORDER, 2);
}

#[test]
fn the_table_of_skills() {
    let mut state = sheet();
    let el = SkillsEl;
    assert_eq!(el.direction(), Direction::Vertical);
    assert_eq!(el.child_count(&state), 16);
    // "Intimidation" has twelve letters.
    assert_eq!(
        el.dimensions(&state),
        Dims::new(Constraint::Min(12 + 1 + 4 + 2), Constraint::Length(18))
    );
    let area = Rect::new(10, 20, 30, 18);
    assert_eq!(el.child_pos(area, &state, 0), (25, 21));
    assert_eq!(el.child_pos(area, &state, 15), (25, 36));
    for row in 0..16 {
        let (x, y) = el.child_pos(area, &state, row);
        assert_eq!(el.child_at_pos(area, &state, x, y), row);
    }
    assert_eq!(el.child_at_pos(area, &state, 0, 0), 0);
    assert_eq!(el.child_at_pos(area, &state, 0, 20), 0);
    assert_eq!(el.child_at_pos(area, &state, 0, 500), 15);
    state.skills.lookup_mut("Arcana").unwrap().proficiency = Proficiency::Master;
    state.stats.set_score(Stat::Intelligence, 18);
    let rows = el.rows(&state);
    assert_eq!(rows.len(), 16);
    assert_eq!(rows[1].name, "Arcana");
    assert_eq!(rows[1].stat, "INT");
    assert_eq!(rows[1].proficiency, "M");
    assert_eq!(rows[1].modifier, "+13");
    assert_eq!(rows[0].proficiency, " ");
    assert_eq!(rows[0].modifier, "+0");
    assert_eq!(el.check_modifier(&state, 1), Some(13));
    assert_eq!(el.check_modifier(&state, 16), None);
    assert!(el.can_show(&state));
    // At a level past what can be added to, the checks of trained skills
    // cannot be worked out.
    state.level = i64::MAX - 5;
    assert!(!el.can_show(&state));
    assert_eq!(el.check_modifier(&state, 1), None);
    assert_eq!(el.check_modifier(&state, 0), Some(0));
    assert!(state.skills.0[0].can_check(&state));
    assert!(!state.skills.0[1].can_check(&state));
    assert_eq!(state.skills.0[1].checked_modifier(&state), None);
    state.level = i64::MAX - 10;
    assert_eq!(
        state.skills.0[1].checked_modifier(&state),
        Some(i64::MAX - 10 + 6 + 4)
    );
    state.level = 3;
    assert_eq!(
        el.column_widths(),
        vec![
            Constraint::Fill(1),
            Constraint::Max(3),
            Constraint::Max(1),
            Constraint::Max(3)
        ]
    );
    state.skills.0.clear();
    assert_eq!(el.child_at_pos(area, &state, 0, 25), 0);
    assert_eq!(
        el.dimensions(&state),
        Dims::new(Constraint::Min(7), Constraint::Length(2))
    );
}

#[test]
fn the_dice() {
    let state = sheet();
    assert_eq!(DICE, [4, 6, 8, 10, 12, 20]);
    assert_eq!(Dice.child_count(&state), 7);
    assert_eq!(Dice.direction(), Direction::Horizontal);
    assert_eq!(
        Dice.dimensions(&state),
        Dims::new(Constraint::Min(26), Constraint::Length(3))
    );
    assert_eq!(
        Dice.labels(),
        vec!["d4", "d6", "d8", "d10", "d12", "d20", "Custom"]
    );
    assert_eq!(Dice.die(0), Some(4));
    assert_eq!(Dice.die(5), Some(20));
    assert_eq!(Dice.die(6), None);
    let area = Rect::new(0, 0, 35, 3);
    let areas = Dice.areas(area);
    assert_eq!(areas.len(), 7);
    assert_eq!(areas[0], Rect::new(0, 0, 5, 3));
    assert_eq!(areas[6], Rect::new(30, 0, 5, 3));
    for child in 0..7 {
        let (x, y) = Dice.child_pos(area, &state, child);
        assert_eq!((x, y), (5 * child as u16 + 2, 1));
        assert_eq!(Dice.child_at_pos(area, &state, x, y), child);
    }
    assert_eq!(Dice.child_pos(area, &state, 7), (17, 1));
    assert_eq!(Dice.child_at_pos(area, &state, 34, 2), 6);
    assert_eq!(Dice.child_at_pos(area, &state, 35, 2), 0);
    assert_eq!(Dice.child_at_pos(area, &state, 3, 3), 0);
    assert_eq!(Dice.drawn_area(0, areas[0]), Rect::new(0, 0, 6, 3));
    assert_eq!(Dice.drawn_area(5, areas[5]), areas[5]);
    assert_eq!(Dice.drawn_area(6, areas[6]), Rect::new(30, 0, 6, 3));
}

#[test]
fn the_table_of_rolls() {
    let el = RollHistory::new(10);
    assert_eq!(el.max_rolls_to_display, 10);
    assert_eq!(el.direction(), Direction::Vertical);
    let state = rolled(7);
    assert_eq!(el.child_count(&state), 7);
    assert_eq!(
        el.dimensions(&state),
        Dims::new(Constraint::Fill(1), Constraint::Length(10))
    );
    let area = Rect::new(0, 4, 32, 10);
    assert_eq!(el.child_pos(area, &state, 0), (16, 6));
    assert_eq!(el.child_pos(area, &state, 6), (16, 12));
    for row in 0..7 {
        let (x, y) = el.child_pos(area, &state, row);
        assert_eq!(el.child_at_pos(area, &state, x, y), row);
    }
    assert_eq!(el.child_at_pos(area, &state, 0, 0), 0);
    assert_eq!(el.child_at_pos(area, &state, 0, 99), 6);
    // The latest roll is shown first.
    assert_eq!(el.rows(&state), vec![6, 5, 4, 3, 2, 1, 0]);
    assert_eq!(el.roll_at(&state, 0), Some(6));
    assert_eq!(el.roll_at(&state, 6), Some(0));
    assert_eq!(el.roll_at(&state, 7), Some(0));
    assert_eq!(el.roll_at(&state, usize::MAX), Some(0));

    let many = rolled(25);
    assert_eq!(el.child_count(&many), 10);
    assert_eq!(el.rows(&many), vec![24, 23, 22, 21, 20, 19, 18, 17, 16, 15]);
    assert_eq!(
        el.dimensions(&many),
        Dims::new(Constraint::Fill(1), Constraint::Length(13))
    );

    let none = sheet();
    assert_eq!(el.child_count(&none), 0);
    assert_eq!(el.roll_at(&none, 0), None);
    assert_eq!(el.child_at_pos(area, &none, 0, 9), 0);
    assert!(el.rows(&none).is_empty());
}

#[test]
fn lines_of_text_in_a_layout() {
    let mut layout: Layout<(), ()> = Layout::new();
    layout.add_el(Text::new("first"));
    layout.add_el(Text::new("second line"));
    layout.add_column();
    layout.add_el(Text::new("beside"));
    assert_eq!(layout.columns[0].width(&()), Constraint::Length(11));
    assert_eq!(
        layout.width_constraints(&()),
        vec![Constraint::Length(11), Constraint::Length(6)]
    );
    let area = Rect::new(0, 0, 20, 4);
    assert_eq!(
        layout.navigate(area, &(), ElPos::new(0, 0, 0), Navigation::Down),
        ElPos::new(0, 1, 0)
    );
    assert_eq!(
        layout.navigate(area, &(), ElPos::new(0, 1, 0), Navigation::Right),
        ElPos::new(1, 0, 0)
    );
    let mut terminal = Terminal::new(TestBackend::new(20, 4)).unwrap();
    terminal
        .draw(|frame| {
            layout.render(frame, &(), ElPos::default());
        })
        .unwrap();
    let buffer = terminal.backend().buffer();
    let row = |y: u16| -> String { (0..20).map(|x| buffer[(x, y)].symbol().to_string()).collect() };
    assert_eq!(row(0), "first      beside   ");
    assert_eq!(row(1), "second line         ");
}

/// The table of rolls as an element of a layout, drawing nothing.
struct History(RollHistory);

impl ElGroup<SheetState, ()> for History {
    fn dims(&self, state: &SheetState) -> Dims {
        self.0.dimensions(state)
    }

    fn dir(&self) -> Direction {
        self.0.direction()
    }

    fn count(&self, state: &SheetState) -> usize {
        self.0.child_count(state)
    }

    fn centre(&self, area: Rect, state: &SheetState, index: usize) -> (u16, u16) {
        self.0.child_pos(area, state, index)
    }

    fn index_at(&self, area: Rect, state: &SheetState, x: u16, y: u16) -> usize {
        self.0.child_at_pos(area, state, x, y)
    }

    fn draws(
        &self,
        _before: Frame,
        _after: Frame,
        _area: Rect,
        _state: &SheetState,
        _selected: Option<usize>,
    ) -> bool {
        true
    }

    fn acts(
        &self,
        _occasion: Occasion,
        _selected: usize,
        _before: SheetState,
        _after: SheetState,
        _result: HandleResult<()>,
    ) -> bool {
        false
    }

    fn dimensions(&self, state: &SheetState) -> Dims {
        self.0.dimensions(state)
    }

    fn direction(&self) -> Direction {
        self.0.direction()
    }

    fn child_count(&self, state: &SheetState) -> usize {
        self.0.child_count(state)
    }

    fn child_pos(&self, area: Rect, state: &SheetState, selected: usize) -> (u16, u16) {
        self.0.child_pos(area, state, selected)
    }

    fn child_at_pos(&self, area: Rect, state: &SheetState, x: u16, y: u16) -> usize {
        self.0.child_at_pos(area, state, x, y)
    }

    fn render(&self, _frame: &mut Frame, _area: Rect, _state: &SheetState, _: Option<usize>) {}
}

fn pos(col: usize, row: usize, row_col: usize) -> ElPos {
    ElPos::new(col, row, row_col)
}

#[test]
fn test_navigate_table() {
    let mut layout: Layout<SheetState, ()> = Layout::new();
    layout.add_group(History(RollHistory::new(10)));

    let area = Rect::new(0, 0, 32, 64);

    // Add rolls to the state for the roll history element to display.
    let mut state = sheet();
    (0..7).for_each(|_| {
        state.rolls.push(
            Roll {
                quantity: 1,
                size: 1,
                suff: RollSuff::Plain,
                mods: Vec::new(),
            }
            .resolve(),
        )
    });

    let mut at = ElPos::default();
    assert_eq!(layout.navigate(area, &state, at, Navigation::Up), at);
    assert_eq!(layout.navigate(area, &state, at, Navigation::Left), at);
    assert_eq!(layout.navigate(area, &state, at, Navigation::Right), at);

    // Navigate down through the seven rolls we added to the state: the
    // seventh press is at the last of them already.
    for i in 0..7 {
        at = layout.navigate(area, &state, at, Navigation::Down);
        assert_eq!(at, pos(0, (i + 1).min(6), 0));
    }

    // Shouldn't be able to navigate down, left or right from the last one.
    assert_eq!(layout.navigate(area, &state, at, Navigation::Down), at);
    assert_eq!(layout.navigate(area, &state, at, Navigation::Left), at);
    assert_eq!(layout.navigate(area, &state, at, Navigation::Right), at);

    // Should be able to navigate back up.
    assert_eq!(
        layout.navigate(area, &state, at, Navigation::Up),
        pos(0, 5, 0)
    );
}
