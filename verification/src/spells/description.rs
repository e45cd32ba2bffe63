//! The description of a spell: runs of text, lists and tables, read from
//! markup.
//!
//! The markup is that of a web page, and only a little of it is known:
//! paragraphs, bold and italic text, headings, lists, tables, line breaks,
//! and spans that stand for glyphs. Reading goes event by event:
//! [`Reading::step`] says what each event does to what has been read.

use crate::spells::markup::{is_called, markup_of, read_markup, Markup};
use vstd::prelude::*;

verus! {

/// A sign that stands in the text of a description.
#[derive(Clone, Copy, Debug, PartialEq, Eq, Structural)]
pub enum Glyph {
    OneAction,
    Unknown,
}

impl Glyph {
    /// The glyph that a span of class `name` stands for.
    pub open spec fn named(name: Seq<char>) -> Glyph {
        if name == "action-glyph"@ {
            Glyph::OneAction
        } else {
            Glyph::Unknown
        }
    }

    pub fn parse(name: &str) -> (glyph: Glyph)
        ensures
            glyph == Self::named(name@),
    {
        if name.to_owned() == "action-glyph".to_owned() {
            Glyph::OneAction
        } else {
            Glyph::Unknown
        }
    }
}

/// A piece of running text.
#[derive(Debug, Clone, PartialEq, Eq)]
pub enum Inline {
    Text(String),
    LineBreak,
    Bold(String),
    Italic(String),
    Glyph(Glyph),
}

/// What an [`Inline`] says.
pub enum InlineSpec {
    Text(Seq<char>),
    LineBreak,
    Bold(Seq<char>),
    Italic(Seq<char>),
    Glyph(Glyph),
}

impl InlineSpec {
    /// Whether the piece is text without characters.
    pub open spec fn is_blank(self) -> bool {
        match self {
            InlineSpec::Text(text) => text.len() == 0,
            InlineSpec::Bold(text) => text.len() == 0,
            InlineSpec::Italic(text) => text.len() == 0,
            _ => false,
        }
    }
}

impl View for Inline {
    type V = InlineSpec;

    open spec fn view(&self) -> InlineSpec {
        match self {
            Inline::Text(text) => InlineSpec::Text(text@),
            Inline::LineBreak => InlineSpec::LineBreak,
            Inline::Bold(text) => InlineSpec::Bold(text@),
            Inline::Italic(text) => InlineSpec::Italic(text@),
            Inline::Glyph(glyph) => InlineSpec::Glyph(*glyph),
        }
    }
}

/// What a run of pieces says.
pub open spec fn run_view(run: Seq<Inline>) -> Seq<InlineSpec> {
    Seq::new(run.len(), |i: int| run[i]@)
}

/// What runs of pieces say.
pub open spec fn runs_view(runs: Seq<Vec<Inline>>) -> Seq<Seq<InlineSpec>> {
    Seq::new(runs.len(), |i: int| run_view(runs[i]@))
}

/// A row of a table: a run of text in each cell.
#[derive(Debug, Clone, PartialEq, Eq)]
pub struct SpellDescTableRow {
    pub cells: Vec<Vec<Inline>>,
}

impl View for SpellDescTableRow {
    type V = Seq<Seq<InlineSpec>>;

    open spec fn view(&self) -> Seq<Seq<InlineSpec>> {
        runs_view(self.cells@)
    }
}

/// What an optional row says.
pub open spec fn row_view(row: Option<SpellDescTableRow>) -> Option<Seq<Seq<InlineSpec>>> {
    match row {
        Some(row) => Some(row@),
        None => None,
    }
}

/// What rows say.
pub open spec fn rows_view(rows: Seq<SpellDescTableRow>) -> Seq<Seq<Seq<InlineSpec>>> {
    Seq::new(rows.len(), |i: int| rows[i]@)
}

/// A table.
#[derive(Debug, Clone, PartialEq, Eq)]
pub struct SpellDescTable {
    pub head: Option<SpellDescTableRow>,
    pub body: Vec<SpellDescTableRow>,
    pub foot: Option<SpellDescTableRow>,
}

/// What a table says.
pub struct TableSpec {
    pub head: Option<Seq<Seq<InlineSpec>>>,
    pub body: Seq<Seq<Seq<InlineSpec>>>,
    pub foot: Option<Seq<Seq<InlineSpec>>>,
}

impl TableSpec {
    /// The table without rows.
    pub open spec fn empty() -> TableSpec {
        TableSpec { head: None, body: Seq::empty(), foot: None }
    }
}

impl View for SpellDescTable {
    type V = TableSpec;

    open spec fn view(&self) -> TableSpec {
        TableSpec {
            head: row_view(self.head),
            body: rows_view(self.body@),
            foot: row_view(self.foot),
        }
    }
}

/// A part of a description: a piece of running text, a list with a run of
/// text for each item, or a table.
#[derive(Debug, Clone, PartialEq, Eq)]
pub enum SpellDescEl {
    Run(Inline),
    List(Vec<Vec<Inline>>),
    Table(SpellDescTable),
}

/// What a [`SpellDescEl`] says.
pub enum ElSpec {
    Run(InlineSpec),
    List(Seq<Seq<InlineSpec>>),
    Table(TableSpec),
}

impl View for SpellDescEl {
    type V = ElSpec;

    open spec fn view(&self) -> ElSpec {
        match self {
            SpellDescEl::Run(piece) => ElSpec::Run(piece@),
            SpellDescEl::List(items) => ElSpec::List(runs_view(items@)),
            SpellDescEl::Table(table) => ElSpec::Table(table@),
        }
    }
}

/// What parts of a description say.
pub open spec fn els_view(els: Seq<SpellDescEl>) -> Seq<ElSpec> {
    Seq::new(els.len(), |i: int| els[i]@)
}

/// The description of a spell.
#[derive(Debug, Clone, PartialEq, Eq)]
pub struct SpellDescription(pub Vec<SpellDescEl>);

impl View for SpellDescription {
    type V = Seq<ElSpec>;

    open spec fn view(&self) -> Seq<ElSpec> {
        els_view(self.0@)
    }
}

/// The value of the first of `attributes` from `i` on that is called
/// `class`.
pub open spec fn class_from(attributes: Seq<(String, String)>, i: int) -> Option<Seq<char>>
    decreases attributes.len() - i,
{
    if i >= attributes.len() {
        None
    } else if attributes[i].0@ == "class"@ {
        Some(attributes[i].1@)
    } else {
        class_from(attributes, i + 1)
    }
}

/// Whether the end of an element called `name` can be read.
pub open spec fn known(name: Seq<char>) -> bool {
    ||| name == "p"@
    ||| name == "strong"@
    ||| name == "b"@
    ||| name == "em"@
    ||| is_heading(name)
    ||| name == "li"@
    ||| name == "ul"@
    ||| name == "ol"@
    ||| name == "span"@
    ||| name == "hr"@
    ||| name == "br"@
    ||| name == "table"@
    ||| name == "thead"@
    ||| name == "tfoot"@
    ||| name == "tbody"@
    ||| name == "tr"@
    ||| name == "td"@
    ||| name == "th"@
}

/// Whether `name` is that of an element of text: a paragraph, a bold or an
/// italic element, or a heading.
pub open spec fn is_text(name: Seq<char>) -> bool {
    name == "p"@ || name == "strong"@ || name == "b"@ || name == "em"@ || is_heading(name)
}

/// Whether `name` is that of a heading, of the first rank to the fifth.
pub open spec fn is_heading(name: Seq<char>) -> bool {
    name == "h1"@ || name == "h2"@ || name == "h3"@ || name == "h4"@ || name == "h5"@
}

/// Whether all of `events` can be read: whether each element that closes
/// is known.
pub open spec fn readable(events: Seq<Markup>) -> bool {
    forall|i: int|
        0 <= i < events.len() ==> match #[trigger] events[i] {
            Markup::Close { name } => known(name@),
            _ => true,
        }
}

/// What has been read of a description, and what is being read.
pub struct Reading {
    /// For each element that is open, the value of its `class`.
    pub classes: Seq<Option<Seq<char>>>,
    /// The parts that are done.
    pub els: Seq<ElSpec>,
    /// The characters read since the last tag.
    pub text: Seq<char>,
    pub in_list: bool,
    /// The items of the list being read.
    pub ul: Seq<Seq<InlineSpec>>,
    /// The item being read.
    pub li: Seq<InlineSpec>,
    pub in_table: bool,
    pub in_head: bool,
    pub in_foot: bool,
    /// The table being read.
    pub table: TableSpec,
    /// The row being read.
    pub tr: Seq<Seq<InlineSpec>>,
    /// The cell being read.
    pub td: Seq<InlineSpec>,
}

impl Reading {
    /// Nothing read.
    pub open spec fn start() -> Reading {
        Reading {
            classes: Seq::empty(),
            els: Seq::empty(),
            text: Seq::empty(),
            in_list: false,
            ul: Seq::empty(),
            li: Seq::empty(),
            in_table: false,
            in_head: false,
            in_foot: false,
            table: TableSpec::empty(),
            tr: Seq::empty(),
            td: Seq::empty(),
        }
    }

    /// `self` with `piece` added where text now goes: to the cell being
    /// read inside a table, else to the item being read inside a list, else
    /// to the description itself.
    pub open spec fn put(self, piece: InlineSpec) -> Reading {
        if self.in_table {
            Reading { td: self.td.push(piece), ..self }
        } else if self.in_list {
            Reading { li: self.li.push(piece), ..self }
        } else {
            Reading { els: self.els.push(ElSpec::Run(piece)), ..self }
        }
    }

    /// `self` with `piece` added unless it is blank.
    pub open spec fn put_filled(self, piece: InlineSpec) -> Reading {
        if piece.is_blank() {
            self
        } else {
            self.put(piece)
        }
    }

    /// `self` after an element called `name` opens, with `class` the value
    /// of its attribute of that name: the text read so far is put down, and
    /// a list or a table, or the head or foot of one, begins.
    pub open spec fn opened(self, name: Seq<char>, class: Option<Seq<char>>) -> Reading {
        let put = Reading { text: Seq::empty(), ..self }.put_filled(InlineSpec::Text(self.text));
        let put = Reading { classes: put.classes.push(class), ..put };
        if name == "ul"@ || name == "ol"@ {
            Reading { in_list: true, ..put }
        } else if name == "table"@ {
            Reading { in_table: true, ..put }
        } else if name == "thead"@ {
            Reading { in_head: true, ..put }
        } else if name == "tfoot"@ {
            Reading { in_foot: true, ..put }
        } else {
            put
        }
    }

    /// `self` after an element of text called `name` closes that held
    /// `text`: a paragraph puts its text and a line break, bold and italic
    /// elements put their text, each unless it is blank, and a heading puts
    /// a line break, and its text in bold with a line break after it unless
    /// it is blank.
    pub open spec fn text_closed(self, name: Seq<char>, text: Seq<char>) -> Reading {
        if name == "p"@ {
            if text.len() == 0 {
                self
            } else {
                self.put(InlineSpec::Text(text)).put(InlineSpec::LineBreak)
            }
        } else if name == "strong"@ || name == "b"@ {
            self.put_filled(InlineSpec::Bold(text))
        } else if name == "em"@ {
            self.put_filled(InlineSpec::Italic(text))
        } else if is_heading(name) {
            if text.len() == 0 {
                self.put(InlineSpec::LineBreak)
            } else {
                self.put(InlineSpec::LineBreak).put(InlineSpec::Bold(text)).put(
                    InlineSpec::LineBreak,
                )
            }
        } else {
            self
        }
    }

    /// `self` after an item of a list, or a list, closes: the item being
    /// read is added to the list, or the list to the description.
    pub open spec fn list_closed(self, name: Seq<char>) -> Reading {
        if name == "li"@ {
            Reading { ul: self.ul.push(self.li), li: Seq::empty(), ..self }
        } else if name == "ul"@ || name == "ol"@ {
            Reading {
                els: self.els.push(ElSpec::List(self.ul)),
                ul: Seq::empty(),
                in_list: false,
                ..self
            }
        } else {
            self
        }
    }

    /// `self` after a cell, a row, a part of a table or a table closes: the
    /// cell being read is added to the row, the row to the part of the table
    /// it is in, or the table to the description.
    pub open spec fn table_closed(self, name: Seq<char>) -> Reading {
        if name == "table"@ {
            Reading {
                els: self.els.push(ElSpec::Table(self.table)),
                table: TableSpec::empty(),
                in_table: false,
                ..self
            }
        } else if name == "thead"@ || name == "tfoot"@ || name == "tbody"@ {
            Reading { in_head: false, in_foot: false, ..self }
        } else if name == "tr"@ {
            if self.in_head {
                Reading {
                    table: TableSpec { head: Some(self.tr), ..self.table },
                    tr: Seq::empty(),
                    ..self
                }
            } else if self.in_foot {
                Reading {
                    table: TableSpec { foot: Some(self.tr), ..self.table },
                    tr: Seq::empty(),
                    ..self
                }
            } else {
                Reading {
                    table: TableSpec { body: self.table.body.push(self.tr), ..self.table },
                    tr: Seq::empty(),
                    ..self
                }
            }
        } else if name == "td"@ || name == "th"@ {
            Reading { tr: self.tr.push(self.td), td: Seq::empty(), ..self }
        } else {
            self
        }
    }

    /// `self` with the element that opened last forgotten, and the text
    /// read since the last tag.
    pub open spec fn left(self) -> Reading {
        Reading {
            classes: if self.classes.len() > 0 {
                self.classes.drop_last()
            } else {
                self.classes
            },
            text: Seq::empty(),
            ..self
        }
    }

    /// `self` after an element called `name` closes. The text read since
    /// the last tag is what the element holds; where the element is not one
    /// of text it is dropped. A span puts the glyph that its class names,
    /// and a rule or a break puts a line break.
    pub open spec fn closed(self, name: Seq<char>) -> Reading {
        let class = if self.classes.len() > 0 {
            self.classes.last()
        } else {
            None
        };
        let s = self.left();
        if is_text(name) {
            s.text_closed(name, self.text)
        } else if name == "li"@ || name == "ul"@ || name == "ol"@ {
            s.list_closed(name)
        } else if name == "span"@ {
            s.put(
                InlineSpec::Glyph(
                    Glyph::named(
                        match class {
                            Some(class) => class,
                            None => Seq::empty(),
                        },
                    ),
                ),
            )
        } else if name == "hr"@ || name == "br"@ {
            s.put(InlineSpec::LineBreak)
        } else {
            s.table_closed(name)
        }
    }

    /// `self` at the end of the document: text that is left is put to the
    /// description itself.
    pub open spec fn ended(self) -> Reading {
        if self.text.len() == 0 {
            self
        } else {
            Reading {
                els: self.els.push(ElSpec::Run(InlineSpec::Text(self.text))),
                text: Seq::empty(),
                ..self
            }
        }
    }

    /// `self` after `event`.
    pub open spec fn step(self, event: Markup) -> Reading {
        match event {
            Markup::Open { name, attributes } => self.opened(name@, class_from(attributes@, 0)),
            Markup::Close { name } => self.closed(name@),
            Markup::Text(text) => Reading { text: self.text + text@, ..self },
            Markup::End => self.ended(),
            Markup::Other => self,
        }
    }

    /// `self` after `events`, one after the other.
    pub open spec fn run(self, events: Seq<Markup>) -> Reading
        decreases events.len(),
    {
        if events.len() == 0 {
            self
        } else {
            self.run(events.drop_last()).step(events.last())
        }
    }
}

/// The description that `events` give.
pub open spec fn described(events: Seq<Markup>) -> Seq<ElSpec> {
    Reading::start().run(events).els
}

/// A reader of descriptions.
pub struct Reader {
    classes: Vec<Option<String>>,
    els: Vec<SpellDescEl>,
    text: String,
    in_list: bool,
    ul: Vec<Vec<Inline>>,
    li: Vec<Inline>,
    in_table: bool,
    in_head: bool,
    in_foot: bool,
    table: SpellDescTable,
    tr: SpellDescTableRow,
    td: Vec<Inline>,
}

impl View for Reader {
    type V = Reading;

    closed spec fn view(&self) -> Reading {
        Reading {
            classes: Seq::new(
                self.classes@.len(),
                |i: int|
                    match self.classes@[i] {
                        Some(class) => Some(class@),
                        None => None,
                    },
            ),
            els: els_view(self.els@),
            text: self.text@,
            in_list: self.in_list,
            ul: runs_view(self.ul@),
            li: run_view(self.li@),
            in_table: self.in_table,
            in_head: self.in_head,
            in_foot: self.in_foot,
            table: self.table@,
            tr: self.tr@,
            td: run_view(self.td@),
        }
    }
}

/// The value of the first of `attributes` that is called `class`.
pub fn class_of(attributes: &Vec<(String, String)>) -> (class: Option<String>)
    ensures
        match class {
            Some(class) => class_from(attributes@, 0) == Some(class@),
            None => class_from(attributes@, 0) is None,
        },
{
    let mut i: usize = 0;
    while i < attributes.len()
        invariant
            i <= attributes@.len(),
            class_from(attributes@, i as int) == class_from(attributes@, 0),
        decreases attributes@.len() - i,
    {
        if is_called(&attributes[i].0, "class") {
            return Some(attributes[i].1.clone());
        }
        i += 1;
    }
    None
}

/// Whether the end of an element called `name` can be read.
pub fn is_known(name: &String) -> (yes: bool)
    ensures
        yes == known(name@),
{
    is_called(name, "p") || is_called(name, "strong") || is_called(name, "b") || is_called(
        name,
        "em",
    ) || heading(name) || is_called(name, "li") || is_called(name, "ul") || is_called(name, "ol")
        || is_called(name, "span") || is_called(name, "hr") || is_called(name, "br") || is_called(
        name,
        "table",
    ) || is_called(name, "thead") || is_called(name, "tfoot") || is_called(name, "tbody")
        || is_called(name, "tr") || is_called(name, "td") || is_called(name, "th")
}

/// Whether `name` is that of an element of text.
fn text_element(name: &String) -> (yes: bool)
    ensures
        yes == is_text(name@),
{
    is_called(name, "p") || is_called(name, "strong") || is_called(name, "b") || is_called(
        name,
        "em",
    ) || heading(name)
}

/// Whether `name` is that of a heading.
fn heading(name: &String) -> (yes: bool)
    ensures
        yes == is_heading(name@),
{
    is_called(name, "h1") || is_called(name, "h2") || is_called(name, "h3") || is_called(
        name,
        "h4",
    ) || is_called(name, "h5")
}

/// Whether all of `events` can be read.
pub fn can_read(events: &Vec<Markup>) -> (yes: bool)
    ensures
        yes == readable(events@),
{
    let mut i: usize = 0;
    while i < events.len()
        invariant
            i <= events@.len(),
            forall|k: int|
                0 <= k < i ==> match #[trigger] events@[k] {
                    Markup::Close { name } => known(name@),
                    _ => true,
                },
        decreases events@.len() - i,
    {
        match &events[i] {
            Markup::Close { name } => {
                if !is_known(name) {
                    return false;
                }
            },
            _ => {},
        }
        i += 1;
    }
    true
}

impl Reader {
    /// A reader that has read nothing.
    pub fn new() -> (reader: Reader)
        ensures
            reader@ == Reading::start(),
    {
        let reader = Reader {
            classes: Vec::new(),
            els: Vec::new(),
            text: String::new(),
            in_list: false,
            ul: Vec::new(),
            li: Vec::new(),
            in_table: false,
            in_head: false,
            in_foot: false,
            table: SpellDescTable { head: None, body: Vec::new(), foot: None },
            tr: SpellDescTableRow { cells: Vec::new() },
            td: Vec::new(),
        };
        assert(reader@.classes =~= Seq::empty());
        assert(reader@.els =~= Seq::empty());
        assert(reader@.ul =~= Seq::empty());
        assert(reader@.li =~= Seq::empty());
        assert(reader@.td =~= Seq::empty());
        assert(reader@.tr =~= Seq::empty());
        assert(reader@.table.body =~= Seq::empty());
        reader
    }

    /// Add `piece` where text now goes.
    fn put(&mut self, piece: Inline)
        ensures
            final(self)@ == old(self)@.put(piece@),
    {
        if self.in_table {
            self.td.push(piece);
            assert(run_view(self.td@) =~= run_view(old(self).td@).push(piece@));
        } else if self.in_list {
            self.li.push(piece);
            assert(run_view(self.li@) =~= run_view(old(self).li@).push(piece@));
        } else {
            self.els.push(SpellDescEl::Run(piece));
            assert(els_view(self.els@) =~= els_view(old(self).els@).push(ElSpec::Run(piece@)));
        }
    }

    /// The text read since the last tag, which is read no more.
    fn take_text(&mut self) -> (text: String)
        ensures
            text@ == old(self)@.text,
            final(self)@ == (Reading { text: Seq::empty(), ..old(self)@ }),
    {
        let mut text = String::new();
        core::mem::swap(&mut self.text, &mut text);
        text
    }

    /// An element called `name` opens.
    fn open(&mut self, name: &String, attributes: &Vec<(String, String)>)
        ensures
            final(self)@ == old(self)@.opened(name@, class_from(attributes@, 0)),
    {
        let text = self.take_text();
        if text.as_str().unicode_len() > 0 {
            self.put(Inline::Text(text));
        }
        let ghost put = self@;
        self.classes.push(class_of(attributes));
        assert(self@.classes =~= put.classes.push(class_from(attributes@, 0)));
        if is_called(name, "ul") || is_called(name, "ol") {
            self.in_list = true;
        } else if is_called(name, "table") {
            self.in_table = true;
        } else if is_called(name, "thead") {
            self.in_head = true;
        } else if is_called(name, "tfoot") {
            self.in_foot = true;
        }
    }

    /// An element of text called `name` closes that held `text`.
    fn close_text(&mut self, name: &String, text: String)
        requires
            is_text(name@),
        ensures
            final(self)@ == old(self)@.text_closed(name@, text@),
    {
        let filled = text.as_str().unicode_len() > 0;
        if is_called(name, "p") {
            if filled {
                self.put(Inline::Text(text));
                self.put(Inline::LineBreak);
            }
        } else if is_called(name, "strong") || is_called(name, "b") {
            if filled {
                self.put(Inline::Bold(text));
            }
        } else if is_called(name, "em") {
            if filled {
                self.put(Inline::Italic(text));
            }
        } else {
            self.put(Inline::LineBreak);
            if filled {
                self.put(Inline::Bold(text));
                self.put(Inline::LineBreak);
            }
        }
    }

    /// An item of a list, or a list, closes.
    fn close_list(&mut self, name: &String)
        ensures
            final(self)@ == old(self)@.list_closed(name@),
    {
        if is_called(name, "li") {
            let mut li: Vec<Inline> = Vec::new();
            core::mem::swap(&mut self.li, &mut li);
            self.ul.push(li);
            assert(self@.ul =~= old(self)@.ul.push(old(self)@.li));
            assert(self@.li =~= Seq::empty());
        } else if is_called(name, "ul") || is_called(name, "ol") {
            let mut ul: Vec<Vec<Inline>> = Vec::new();
            core::mem::swap(&mut self.ul, &mut ul);
            self.els.push(SpellDescEl::List(ul));
            self.in_list = false;
            assert(self@.els =~= old(self)@.els.push(ElSpec::List(old(self)@.ul)));
            assert(self@.ul =~= Seq::empty());
        }
    }

    /// A cell, a row, a part of a table or a table closes.
    fn close_table(&mut self, name: &String)
        ensures
            final(self)@ == old(self)@.table_closed(name@),
    {
        if is_called(name, "table") {
            let mut table = SpellDescTable { head: None, body: Vec::new(), foot: None };
            assert(table@.body =~= Seq::empty());
            core::mem::swap(&mut self.table, &mut table);
            self.els.push(SpellDescEl::Table(table));
            self.in_table = false;
            assert(self@.els =~= old(self)@.els.push(ElSpec::Table(old(self)@.table)));
        } else if is_called(name, "thead") || is_called(name, "tfoot") || is_called(name, "tbody") {
            self.in_head = false;
            self.in_foot = false;
        } else if is_called(name, "tr") {
            let mut tr = SpellDescTableRow { cells: Vec::new() };
            assert(tr@ =~= Seq::empty());
            core::mem::swap(&mut self.tr, &mut tr);
            if self.in_head {
                self.table.head = Some(tr);
            } else if self.in_foot {
                self.table.foot = Some(tr);
            } else {
                self.table.body.push(tr);
                assert(self@.table.body =~= old(self)@.table.body.push(old(self)@.tr));
            }
        } else if is_called(name, "td") || is_called(name, "th") {
            let mut td: Vec<Inline> = Vec::new();
            core::mem::swap(&mut self.td, &mut td);
            self.tr.cells.push(td);
            assert(self@.tr =~= old(self)@.tr.push(old(self)@.td));
            assert(self@.td =~= Seq::empty());
        }
    }

    /// Forget the element that opened last, and give the value of its
    /// `class` and the text read since the last tag.
    fn leave(&mut self) -> (held: (Option<String>, String))
        ensures
            final(self)@ == old(self)@.left(),
            held.1@ == old(self)@.text,
            match held.0 {
                Some(class) => old(self)@.classes.len() > 0 && old(self)@.classes.last() == Some(
                    class@,
                ),
                None => old(self)@.classes.len() == 0 || old(self)@.classes.last() is None,
            },
    {
        let class = match self.classes.pop() {
            Some(class) => class,
            None => None,
        };
        let text = self.take_text();
        assert(self@.classes =~= old(self)@.left().classes);
        (class, text)
    }

    /// An element called `name` closes.
    fn close(&mut self, name: &String)
        ensures
            final(self)@ == old(self)@.closed(name@),
    {
        let (class, text) = self.leave();
        if text_element(name) {
            self.close_text(name, text);
        } else if is_called(name, "li") || is_called(name, "ul") || is_called(name, "ol") {
            self.close_list(name);
        } else if is_called(name, "span") {
            let glyph = match class {
                Some(class) => Glyph::parse(class.as_str()),
                None => Glyph::parse(""),
            };
            proof {
                reveal_strlit("");
                assert(""@ =~= Seq::<char>::empty());
            }
            self.put(Inline::Glyph(glyph));
        } else if is_called(name, "hr") || is_called(name, "br") {
            self.put(Inline::LineBreak);
        } else {
            self.close_table(name);
        }
    }

    /// The document is at its end.
    fn end(&mut self)
        ensures
            final(self)@ == old(self)@.ended(),
    {
        let text = self.take_text();
        if text.as_str().unicode_len() > 0 {
            self.els.push(SpellDescEl::Run(Inline::Text(text)));
            assert(self@.els =~= old(self)@.els.push(
                ElSpec::Run(InlineSpec::Text(old(self)@.text)),
            ));
        } else {
            assert(old(self)@.text =~= Seq::empty());
        }
    }

    /// Read `event`.
    pub fn step(&mut self, event: &Markup)
        ensures
            final(self)@ == old(self)@.step(*event),
    {
        match event {
            Markup::Open { name, attributes } => self.open(name, attributes),
            Markup::Close { name } => self.close(name),
            Markup::Text(text) => {
                self.text.append(text.as_str());
            },
            Markup::End => self.end(),
            Markup::Other => {},
        }
    }

    /// The description read.
    pub fn finish(self) -> (description: SpellDescription)
        ensures
            description@ == self@.els,
    {
        SpellDescription(self.els)
    }
}

/// The description that `events` give.
pub fn describe(events: &Vec<Markup>) -> (description: SpellDescription)
    ensures
        description@ == described(events@),
{
    let mut reader = Reader::new();
    let mut i: usize = 0;
    assert(events@.take(0) =~= Seq::<Markup>::empty());
    while i < events.len()
        invariant
            i <= events@.len(),
            reader@ == Reading::start().run(events@.take(i as int)),
        decreases events@.len() - i,
    {
        assert(events@.take(i + 1).drop_last() =~= events@.take(i as int));
        reader.step(&events[i]);
        i += 1;
    }
    assert(events@.take(i as int) =~= events@);
    reader.finish()
}

/// The description that the markup `text` gives, where all of it can be
/// read: where each element that closes in it is known.
pub fn parse_xml_description(text: &str) -> (description: Option<SpellDescription>)
    ensures
        match description {
            Some(description) => readable(markup_of(text@)) && description@ == described(
                markup_of(text@),
            ),
            None => !readable(markup_of(text@)),
        },
{
    let events = read_markup(text);
    if can_read(&events) {
        Some(describe(&events))
    } else {
        None
    }
}

} // verus!
