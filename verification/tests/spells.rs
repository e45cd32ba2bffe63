use chshtui::spells::book::{
    insert_by_name, name_not_after, sort_by_name, SpellBook, SpellBookQuery,
};
use chshtui::spells::description::{
    can_read, class_of, describe, is_known, parse_xml_description, Glyph, Inline, Reader,
    SpellDescEl, SpellDescTable, SpellDescTableRow, SpellDescription,
};
use chshtui::spells::github::{
    base_url, file_bytes, folder_url, names_of_type, spell_url, without_line_breaks,
    FileContent, FileEntry,
};
use chshtui::spells::spell::{entries_to_spells, entry_to_spell, Rarity, Spell, SpellsDataEntry};
use chshtui::spells::widget::{join, spell_lines, spell_rows};
use chshtui::spells::Markup;
use chshtui::geometry::Constraint;
use std::sync::Arc;

fn text(s: &str) -> SpellDescEl {
    SpellDescEl::Run(Inline::Text(s.to_string()))
}

fn bold(s: &str) -> SpellDescEl {
    SpellDescEl::Run(Inline::Bold(s.to_string()))
}

fn br() -> SpellDescEl {
    SpellDescEl::Run(Inline::LineBreak)
}

fn read(markup: &str) -> Vec<SpellDescEl> {
    parse_xml_description(markup).unwrap().0
}

#[test]
fn rarities_and_glyphs() {
    assert_eq!(Rarity::parse("unique"), Rarity::Unique);
    assert_eq!(Rarity::parse("Rare"), Rarity::Rare);
    assert_eq!(Rarity::parse("UNCOMMON"), Rarity::Uncommon);
    assert_eq!(Rarity::parse("common"), Rarity::Common);
    assert_eq!(Rarity::parse("legendary"), Rarity::Common);
    assert_eq!(Rarity::parse(""), Rarity::Common);
    assert_eq!(Rarity::from_lowercase(&"rare".to_string()), Rarity::Rare);
    assert_eq!(Rarity::from_lowercase(&"Rare".to_string()), Rarity::Common);
    assert_eq!(Glyph::parse("action-glyph"), Glyph::OneAction);
    assert_eq!(Glyph::parse("Action-Glyph"), Glyph::Unknown);
    assert_eq!(Glyph::parse(""), Glyph::Unknown);
}

#[test]
fn running_text() {
    assert_eq!(
        read("<p>Hello <strong>world</strong>, <em>again</em>.</p>"),
        vec![
            text("Hello "),
            bold("world"),
            text(", "),
            SpellDescEl::Run(Inline::Italic("again".to_string())),
            text("."),
            br(),
        ]
    );
    // A paragraph that ends in an element has no text of its own left, and
    // so no line break after it.
    assert_eq!(
        read("<p>Hello <b>world</b></p>"),
        vec![text("Hello "), bold("world")]
    );
    assert_eq!(read("<p></p>"), Vec::new());
    assert_eq!(
        read("<h2>Heightened</h2>"),
        vec![br(), bold("Heightened"), br()]
    );
    assert_eq!(read("<h1></h1>"), vec![br()]);
    assert_eq!(read("<p>one<br/>two</p>"), vec![text("one"), br(), text("two"), br()]);
    assert_eq!(
        read("<p><span class=\"action-glyph\">1</span> to cast</p>"),
        vec![
            SpellDescEl::Run(Inline::Glyph(Glyph::OneAction)),
            text(" to cast"),
            br()
        ]
    );
    assert_eq!(
        read("<p><span id=\"x\">1</span></p>"),
        vec![SpellDescEl::Run(Inline::Glyph(Glyph::Unknown))]
    );
}

#[test]
fn what_cannot_be_read() {
    assert_eq!(parse_xml_description("<div>x</div>"), None);
    assert_eq!(parse_xml_description("<p>a <a href=\"x\">link</a></p>"), None);
    assert_eq!(parse_xml_description("<p>a</p><div>b</div>"), None);
    // One element after the other is read.
    assert_eq!(
        read("<p>a</p><p>b</p>"),
        vec![text("a"), br(), text("b"), br()]
    );
    // Where the markup is broken, what came before is kept.
    assert_eq!(read("<p>a</p><p>b"), vec![text("a"), br()]);
    assert_eq!(read("<p>a</p></em>"), vec![text("a"), br()]);
    assert_eq!(read(""), Vec::new());
    assert!(is_known(&"th".to_string()));
    assert!(is_known(&"h5".to_string()));
    assert!(!is_known(&"h6".to_string()));
    assert!(!is_known(&"P".to_string()));
}

#[test]
fn lists_and_tables() {
    assert_eq!(
        read("<ul><li><p>one</p></li><li><p>two</p><p>more</p></li><li>lost</li></ul>"),
        vec![SpellDescEl::List(vec![
            vec![Inline::Text("one".to_string()), Inline::LineBreak],
            vec![
                Inline::Text("two".to_string()),
                Inline::LineBreak,
                Inline::Text("more".to_string()),
                Inline::LineBreak
            ],
            vec![],
        ])]
    );
    let cell = |s: &str| vec![Inline::Bold(s.to_string())];
    let row = |cells: Vec<Vec<Inline>>| SpellDescTableRow { cells };
    assert_eq!(
        read(
            "<table><thead><tr><th><b>d4</b></th><th><b>Effect</b></th></tr></thead>\
             <tbody><tr><td><b>1</b></td><td><b>Fire</b></td></tr>\
             <tr><td><b>2</b></td><td><b>Ice</b></td></tr></tbody>\
             <tfoot><tr><td><b>end</b></td></tr></tfoot></table>"
        ),
        vec![SpellDescEl::Table(SpellDescTable {
            head: Some(row(vec![cell("d4"), cell("Effect")])),
            body: vec![
                row(vec![cell("1"), cell("Fire")]),
                row(vec![cell("2"), cell("Ice")])
            ],
            foot: Some(row(vec![cell("end")])),
        })]
    );
}

#[test]
fn events_one_by_one() {
    let open = |name: &str| Markup::Open {
        name: name.to_string(),
        attributes: Vec::new(),
    };
    let close = |name: &str| Markup::Close {
        name: name.to_string(),
    };
    let chars = |s: &str| Markup::Text(s.to_string());
    let events = vec![
        Markup::Other,
        chars("before"),
        open("p"),
        chars("in"),
        chars("side"),
        close("p"),
        chars("after"),
        Markup::End,
        close("blink"),
    ];
    assert!(!can_read(&events));
    assert!(can_read(&events[..8].to_vec()));
    assert_eq!(
        describe(&events),
        SpellDescription(vec![text("before"), text("inside"), br(), text("after")])
    );
    let mut reader = Reader::new();
    reader.step(&chars("kept"));
    reader.step(&Markup::End);
    reader.step(&Markup::End);
    assert_eq!(reader.finish(), SpellDescription(vec![text("kept")]));
    assert_eq!(
        class_of(&vec![
            ("id".to_string(), "a".to_string()),
            ("class".to_string(), "b".to_string()),
            ("class".to_string(), "c".to_string())
        ]),
        Some("b".to_string())
    );
    assert_eq!(class_of(&Vec::new()), None);
}

fn entry(name: &str, rarity: &str, description: &str) -> SpellsDataEntry {
    SpellsDataEntry {
        name: name.to_string(),
        rank: 3,
        rarity: rarity.to_string(),
        target: "1 creature".to_string(),
        range: "30 feet".to_string(),
        time: "2".to_string(),
        duration: "1 minute".to_string(),
        sustained: true,
        description: description.to_string(),
        traditions: vec!["arcane".to_string(), "primal".to_string()],
        traits: vec!["fire".to_string()],
        publication: "Player Core".to_string(),
    }
}

fn spell(name: &str) -> Arc<Spell> {
    Arc::new(entry_to_spell(entry(name, "common", "<p>x</p>")).unwrap())
}

fn names(spells: &[Arc<Spell>]) -> Vec<String> {
    spells.iter().map(|s| s.name.clone()).collect()
}

#[test]
fn a_spell_from_an_entry() {
    let spell = entry_to_spell(entry("Fireball", "Uncommon", "<p>Boom.</p>")).unwrap();
    assert_eq!(spell.name, "Fireball");
    assert_eq!(spell.rarity, Rarity::Uncommon);
    assert_eq!(spell.rank, 3);
    assert_eq!(spell.traditions, vec!["arcane", "primal"]);
    assert_eq!(spell.traits, vec!["fire"]);
    assert_eq!(spell.target, "1 creature");
    assert_eq!(spell.range, "30 feet");
    assert_eq!(spell.time, "2");
    assert_eq!(spell.duration, "1 minute");
    assert!(spell.sustained);
    assert_eq!(spell.description, SpellDescription(vec![text("Boom."), br()]));
    assert_eq!(spell.publication, "Player Core");
    assert!(entry_to_spell(entry("Odd", "common", "<blink>x</blink>")).is_none());

    let spells = entries_to_spells(vec![
        entry("B", "rare", "<p>b</p>"),
        entry("A", "unique", "<p>a</p>"),
    ])
    .unwrap();
    assert_eq!(spells.len(), 2);
    assert_eq!(spells[0].name, "B");
    assert_eq!(spells[1].name, "A");
    assert_eq!(spells[1].rarity, Rarity::Unique);
    assert!(entries_to_spells(vec![
        entry("B", "rare", "<p>b</p>"),
        entry("A", "unique", "<x>a</x>"),
    ])
    .is_none());
    assert_eq!(entries_to_spells(Vec::new()).unwrap().len(), 0);
}

#[test]
fn names_in_order() {
    assert!(name_not_after("", ""));
    assert!(name_not_after("", "a"));
    assert!(!name_not_after("a", ""));
    assert!(name_not_after("abc", "abc"));
    assert!(name_not_after("abc", "abd"));
    assert!(!name_not_after("abd", "abc"));
    assert!(name_not_after("ab", "abc"));
    assert!(!name_not_after("abc", "ab"));
    assert!(name_not_after("Zap", "ant"));
    assert!(name_not_after("z", "é"));
    for (a, b) in [("Heal", "Harm"), ("é", "z"), ("a", "a"), ("", "x"), ("𝄞", "\u{ffff}")] {
        assert_eq!(name_not_after(a, b), a <= b);
        assert_eq!(name_not_after(b, a), b <= a);
    }
}

#[test]
fn the_book_is_kept_in_order() {
    let sorted = sort_by_name(vec![spell("Heal"), spell("Acid"), spell("Zap"), spell("Harm")]);
    assert_eq!(names(&sorted), vec!["Acid", "Harm", "Heal", "Zap"]);
    let mut sorted = sorted;
    insert_by_name(&mut sorted, spell("Bless"));
    insert_by_name(&mut sorted, spell("Aaa"));
    insert_by_name(&mut sorted, spell("Zzz"));
    assert_eq!(
        names(&sorted),
        vec!["Aaa", "Acid", "Bless", "Harm", "Heal", "Zap", "Zzz"]
    );
    // Spells of one name stay in the order they came in.
    let first = spell("Same");
    let second = spell("Same");
    let sorted = sort_by_name(vec![spell("Z"), first.clone(), spell("A"), second.clone()]);
    assert_eq!(names(&sorted), vec!["A", "Same", "Same", "Z"]);
    assert!(Arc::ptr_eq(&sorted[1], &first));
    assert!(Arc::ptr_eq(&sorted[2], &second));
    assert!(sort_by_name(Vec::new()).is_empty());
}

#[test]
fn merging_into_the_book() {
    let mut book = SpellBook::default();
    assert_eq!(book.len(), 0);
    assert_eq!(book.status(), "Loading...");
    book.set_status("Reading tome...");
    assert_eq!(book.status(), "Reading tome...");
    book.merge(vec![spell("Heal"), spell("Acid")]);
    assert_eq!(names(&book.spells), vec!["Acid", "Heal"]);
    let old_heal = book.spells[1].clone();
    let new_heal = spell("Heal");
    book.merge(vec![spell("Zap"), new_heal.clone(), spell("Bless")]);
    // The old spells that the new ones do not name are kept; a new spell
    // takes the place of the old one of its name.
    assert_eq!(names(&book.spells), vec!["Acid", "Bless", "Heal", "Zap"]);
    assert!(Arc::ptr_eq(&book.spells[2], &new_heal));
    assert!(!Arc::ptr_eq(&book.spells[2], &old_heal));
    assert_eq!(book.status(), "Reading tome...");
    assert_eq!(book.len(), 4);
    let query: SpellBookQuery = book.query_all();
    assert_eq!(query.len(), 4);
    assert_eq!(names(query.iter()), vec!["Acid", "Bless", "Heal", "Zap"]);
    assert!(Arc::ptr_eq(&query.iter()[0], &book.spells[0]));
    book.merge(Vec::new());
    assert_eq!(book.len(), 4);
}

#[test]
fn files_of_the_repository() {
    assert_eq!(
        base_url(),
        "https://api.github.com/repos/foundryvtt/pf2e/contents/packs/spells"
    );
    assert_eq!(folder_url("rank-1"), format!("{}/rank-1", base_url()));
    assert_eq!(
        spell_url("rank-1", "heal.json"),
        format!("{}/rank-1/heal.json", base_url())
    );
    let file = |ty: &str, name: &str| FileEntry {
        ty: ty.to_string(),
        name: name.to_string(),
    };
    let entries = vec![
        file("dir", "cantrips"),
        file("file", "readme.md"),
        file("dir", "rank-1"),
        file("Dir", "odd"),
    ];
    assert_eq!(names_of_type(&entries, "dir"), vec!["cantrips", "rank-1"]);
    assert_eq!(names_of_type(&entries, "file"), vec!["readme.md"]);
    assert!(names_of_type(&entries, "link").is_empty());
    assert_eq!(without_line_breaks("a\nb\n\nc\n"), "abc");
    assert_eq!(without_line_breaks("a\r\nb"), "a\rb");
    let content = |content: &str| FileContent {
        content: content.to_string(),
        encoding: "base64".to_string(),
    };
    assert_eq!(
        file_bytes(&content("aGVsbG8g\nd29ybGR+Cg==\n")),
        Ok(b"hello world~\n".to_vec())
    );
    assert_eq!(file_bytes(&content("")), Ok(Vec::new()));
    assert_eq!(
        file_bytes(&content("aGVsbG8")),
        Err("Invalid padding".to_string())
    );
    assert_eq!(
        file_bytes(&content("a GVs")),
        Err("Invalid symbol 32, offset 1.".to_string())
    );
}

#[test]
fn the_lines_of_a_spell() {
    let spell = entry_to_spell(entry("Fireball", "rare", "<p>Boom.</p>")).unwrap();
    let lines = spell_lines(&spell);
    assert_eq!(lines.title, "Fireball (Spell 3) (Rare)");
    assert_eq!(lines.publication, "Player Core");
    assert_eq!(lines.traits, "fire | arcane, primal");
    assert_eq!(
        lines.prefix,
        vec![
            "Cast: 2",
            "Range: 30 feetTargets: 1 creature",
            "Duration: 1 minute (sustained)"
        ]
    );
    let bare = Spell {
        time: String::new(),
        range: String::new(),
        target: String::new(),
        duration: String::new(),
        sustained: false,
        traits: Vec::new(),
        traditions: Vec::new(),
        rank: -1,
        rarity: Rarity::Common,
        ..spell.clone()
    };
    let lines = spell_lines(&bare);
    assert_eq!(lines.title, "Fireball (Spell -1) (Common)");
    assert_eq!(lines.traits, " | ");
    assert!(lines.prefix.is_empty());
    let held = Spell {
        sustained: true,
        target: "you".to_string(),
        ..bare
    };
    assert_eq!(spell_lines(&held).prefix, vec!["Targets: you", " (sustained)"]);
    assert_eq!(join(&vec!["a".to_string()]), "a");
    assert_eq!(join(&Vec::new()), "");
    assert_eq!(
        spell_rows(3),
        vec![
            Constraint::Length(1),
            Constraint::Length(1),
            Constraint::Length(1),
            Constraint::Length(3),
            Constraint::Fill(1)
        ]
    );
}
