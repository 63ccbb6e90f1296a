//! Rendered rules text, as the detail panes show it: styled runs grouped into lines,
//! and the leading header blocks that the pane already shows above the text.
use vstd::prelude::*;
use crate::text::{owned, push_char, strs};

verus! {

/// One run of rendered rules text.
#[derive(Debug)]
pub enum Markup {
    Text(String),
    Bold(String),
    Italic(String),
    Title { text: String, level: u8 },
    Trait(String),
    Link(String),
    /// An action cost, by the icon that stands for it.
    Action(String),
    HRule,
    Newline,
    ListItem(Vec<Markup>),
    TableHeader(Vec<String>),
    TableRow(Vec<String>),
    AsideTitle(String),
}

/// How a piece of text is drawn.
#[derive(Debug, Clone, Copy, PartialEq, Eq, Structural)]
pub enum Look {
    Plain,
    Bold,
    Italic,
    /// A level-one title.
    TitleTop,
    /// A level-two title.
    TitleSub,
    /// A title of any other level.
    TitleMinor,
    Tag,
    Link,
    /// A link inside a list item.
    ListLink,
    Action,
    Rule,
    Aside,
}

/// A piece of a line: its text and how it is drawn.
#[derive(Debug, Clone)]
pub struct Piece {
    pub text: String,
    pub look: Look,
}

pub open spec fn piece_view(p: Piece) -> (Seq<char>, Look) {
    (p.text@, p.look)
}

pub open spec fn pieces_view(v: Seq<Piece>) -> Seq<(Seq<char>, Look)> {
    v.map_values(|p: Piece| piece_view(p))
}

pub open spec fn lines_view(v: Seq<Vec<Piece>>) -> Seq<Seq<(Seq<char>, Look)>> {
    v.map_values(|l: Vec<Piece>| pieces_view(l@))
}

/// The look of a title of this level.
pub open spec fn title_look(level: u8) -> Look {
    if level == 1 {
        Look::TitleTop
    } else if level == 2 {
        Look::TitleSub
    } else {
        Look::TitleMinor
    }
}

/// A label set off by one space on each side.
pub open spec fn padded(s: Seq<char>) -> Seq<char> {
    " "@ + s + " "@
}

/// The horizontal rule: forty box-drawing strokes.
pub open spec fn rule_text() -> Seq<char> {
    Seq::new(40, |i: int| '─')
}

/// Table cells joined by " │ ".
pub open spec fn cells_joined(cells: Seq<Seq<char>>) -> Seq<char>
    decreases cells.len(),
{
    if cells.len() == 0 {
        Seq::empty()
    } else if cells.len() == 1 {
        cells[0]
    } else {
        cells_joined(cells.drop_last()) + " │ "@ + cells.last()
    }
}

/// What a run inside a list item adds to its line: text, bold, italic, links and
/// traits; any other run adds nothing.
pub open spec fn inline_pieces(m: Markup) -> Seq<(Seq<char>, Look)> {
    match m {
        Markup::Text(t) => seq![(t@, Look::Plain)],
        Markup::Bold(t) => seq![(t@, Look::Bold)],
        Markup::Italic(t) => seq![(t@, Look::Italic)],
        Markup::Link(t) => seq![(t@, Look::ListLink)],
        Markup::Trait(l) => seq![(padded(l@), Look::Tag)],
        _ => Seq::empty(),
    }
}

/// The pieces of a list item's runs, in order.
pub open spec fn items_pieces(items: Seq<Markup>) -> Seq<(Seq<char>, Look)>
    decreases items.len(),
{
    if items.len() == 0 {
        Seq::empty()
    } else {
        items_pieces(items.drop_last()) + inline_pieces(items.last())
    }
}

/// The lines finished so far and the line being filled.
pub type LayoutState = (Seq<Seq<(Seq<char>, Look)>>, Seq<(Seq<char>, Look)>);

/// The line being filled, finished if it holds anything.
pub open spec fn flushed(st: LayoutState) -> LayoutState {
    if st.1.len() == 0 {
        st
    } else {
        (st.0.push(st.1), Seq::empty())
    }
}

/// The state after one more run. Titles, rules, line breaks, list items, table rows
/// and aside titles start a new line; the other runs go on the current one.
pub open spec fn layout_step(st: LayoutState, m: Markup) -> LayoutState {
    let f = flushed(st);
    match m {
        Markup::Text(t) => (st.0, st.1.push((t@, Look::Plain))),
        Markup::Bold(t) => (st.0, st.1.push((t@, Look::Bold))),
        Markup::Italic(t) => (st.0, st.1.push((t@, Look::Italic))),
        Markup::Title { text, level } => (f.0, seq![(text@, title_look(level))]),
        Markup::Trait(l) => (st.0, st.1 + seq![(padded(l@), Look::Tag), (" "@, Look::Plain)]),
        Markup::Link(t) => (st.0, st.1.push((t@, Look::Link))),
        Markup::Action(icon) => (st.0, st.1.push((padded(icon@), Look::Action))),
        Markup::HRule => (f.0.push(seq![(rule_text(), Look::Rule)]), Seq::empty()),
        Markup::Newline => f,
        Markup::ListItem(items) => (f.0, seq![("  • "@, Look::Plain)] + items_pieces(items@)),
        Markup::TableHeader(cells) => (f.0, seq![(cells_joined(strs(cells@)), Look::Bold)]),
        Markup::TableRow(cells) => (f.0, seq![(cells_joined(strs(cells@)), Look::Plain)]),
        Markup::AsideTitle(t) => (f.0, seq![(t@, Look::Aside)]),
    }
}

/// The state after a sequence of runs.
pub open spec fn layout_run(spans: Seq<Markup>) -> LayoutState
    decreases spans.len(),
{
    if spans.len() == 0 {
        (Seq::empty(), Seq::empty())
    } else {
        layout_step(layout_run(spans.drop_last()), spans.last())
    }
}

/// The lines of a sequence of runs, the last one finished at the end.
pub open spec fn layout(spans: Seq<Markup>) -> Seq<Seq<(Seq<char>, Look)>> {
    flushed(layout_run(spans)).0
}

/// Every finished line holds at least one piece.
pub open spec fn no_empty_line(lines: Seq<Seq<(Seq<char>, Look)>>) -> bool {
    forall|i: int| 0 <= i < lines.len() ==> #[trigger] lines[i].len() > 0
}

proof fn lemma_layout_lines_nonempty(spans: Seq<Markup>)
    ensures
        no_empty_line(layout_run(spans).0),
        no_empty_line(layout(spans)),
    decreases spans.len(),
{
    if spans.len() > 0 {
        lemma_layout_lines_nonempty(spans.drop_last());
        let st = layout_run(spans.drop_last());
        let f = flushed(st);
        assert(no_empty_line(f.0));
        if spans.last() is HRule {
            assert(no_empty_line(f.0.push(seq![(rule_text(), Look::Rule)])));
        }
    }
    let st = layout_run(spans);
    assert(no_empty_line(flushed(st).0));
}

fn piece(text: String, look: Look) -> (r: Piece)
    ensures
        piece_view(r) == (text@, look),
{
    Piece { text, look }
}

fn padded_string(s: &str) -> (r: String)
    ensures
        r@ == padded(s@),
{
    let mut r = owned(" ");
    r.append(s);
    r.append(" ");
    r
}

fn rule_string() -> (r: String)
    ensures
        r@ == rule_text(),
{
    let mut r = String::new();
    let mut i: usize = 0;
    while i < 40
        invariant
            i <= 40,
            r@ == Seq::new(i as nat, |k: int| '─'),
        decreases 40 - i,
    {
        push_char(&mut r, '─');
        i = i + 1;
        assert(r@ =~= Seq::new(i as nat, |k: int| '─'));
    }
    r
}

fn cells_string(cells: &Vec<String>) -> (r: String)
    ensures
        r@ == cells_joined(strs(cells@)),
{
    let ghost cs = strs(cells@);
    if cells.len() == 0 {
        return String::new();
    }
    let mut out = owned(cells[0].as_str());
    let mut i: usize = 1;
    assert(cs.take(1) =~= seq![cs[0]]);
    while i < cells.len()
        invariant
            1 <= i <= cells@.len(),
            cs == strs(cells@),
            out@ == cells_joined(cs.take(i as int)),
        decreases cells@.len() - i,
    {
        out.append(" │ ");
        out.append(cells[i].as_str());
        assert(cs.take(i + 1).drop_last() =~= cs.take(i as int));
        i = i + 1;
    }
    assert(cs.take(cells@.len() as int) =~= cs);
    out
}

/// Push the pieces a run inside a list item adds.
fn push_inline(cur: &mut Vec<Piece>, m: &Markup)
    ensures
        pieces_view(final(cur)@) == pieces_view(old(cur)@) + inline_pieces(*m),
{
    let ghost before = pieces_view(cur@);
    match m {
        Markup::Text(t) => cur.push(piece(owned(t.as_str()), Look::Plain)),
        Markup::Bold(t) => cur.push(piece(owned(t.as_str()), Look::Bold)),
        Markup::Italic(t) => cur.push(piece(owned(t.as_str()), Look::Italic)),
        Markup::Link(t) => cur.push(piece(owned(t.as_str()), Look::ListLink)),
        Markup::Trait(l) => cur.push(piece(padded_string(l.as_str()), Look::Tag)),
        _ => {},
    }
    assert(pieces_view(cur@) =~= before + inline_pieces(*m));
}

/// The line of a list item: a bullet, then the pieces of its runs.
fn list_line(items: &Vec<Markup>) -> (r: Vec<Piece>)
    ensures
        pieces_view(r@) == seq![("  • "@, Look::Plain)] + items_pieces(items@),
{
    let mut cur: Vec<Piece> = Vec::new();
    cur.push(piece(owned("  • "), Look::Plain));
    let mut i: usize = 0;
    while i < items.len()
        invariant
            i <= items@.len(),
            pieces_view(cur@) == seq![("  • "@, Look::Plain)] + items_pieces(items@.take(i as int)),
        decreases items@.len() - i,
    {
        push_inline(&mut cur, &items[i]);
        assert(items@.take(i + 1).drop_last() =~= items@.take(i as int));
        i = i + 1;
    }
    assert(items@.take(items@.len() as int) =~= items@);
    cur
}

/// Finish the current line if it holds anything.
fn flush(lines: &mut Vec<Vec<Piece>>, cur: &mut Vec<Piece>)
    ensures
        (lines_view(final(lines)@), pieces_view(final(cur)@)) == flushed(
            (lines_view(old(lines)@), pieces_view(old(cur)@)),
        ),
{
    if cur.len() > 0 {
        let mut done: Vec<Piece> = Vec::new();
        std::mem::swap(&mut done, cur);
        lines.push(done);
        assert(lines_view(lines@) =~= lines_view(old(lines)@).push(pieces_view(old(cur)@)));
        assert(pieces_view(cur@) =~= Seq::empty());
    }
}

/// Start a new line that holds one piece.
fn start_line(lines: &mut Vec<Vec<Piece>>, cur: &mut Vec<Piece>, p: Piece)
    ensures
        lines_view(final(lines)@) == flushed((lines_view(old(lines)@), pieces_view(old(cur)@))).0,
        pieces_view(final(cur)@) == seq![piece_view(p)],
{
    flush(lines, cur);
    cur.push(p);
    assert(pieces_view(cur@) =~= seq![piece_view(p)]);
}

fn push_piece(cur: &mut Vec<Piece>, p: Piece)
    ensures
        pieces_view(final(cur)@) == pieces_view(old(cur)@).push(piece_view(p)),
{
    cur.push(p);
    assert(pieces_view(cur@) =~= pieces_view(old(cur)@).push(piece_view(p)));
}

/// Lay out one more run.
fn layout_one(lines: &mut Vec<Vec<Piece>>, cur: &mut Vec<Piece>, m: &Markup)
    ensures
        (lines_view(final(lines)@), pieces_view(final(cur)@)) == layout_step(
            (lines_view(old(lines)@), pieces_view(old(cur)@)),
            *m,
        ),
{
    match m {
        Markup::Text(t) => push_piece(cur, piece(owned(t.as_str()), Look::Plain)),
        Markup::Bold(t) => push_piece(cur, piece(owned(t.as_str()), Look::Bold)),
        Markup::Italic(t) => push_piece(cur, piece(owned(t.as_str()), Look::Italic)),
        Markup::Title { text, level } => {
            let look = if *level == 1 {
                Look::TitleTop
            } else if *level == 2 {
                Look::TitleSub
            } else {
                Look::TitleMinor
            };
            start_line(lines, cur, piece(owned(text.as_str()), look));
        },
        Markup::Trait(l) => {
            push_piece(cur, piece(padded_string(l.as_str()), Look::Tag));
            push_piece(cur, piece(owned(" "), Look::Plain));
            assert(pieces_view(cur@) =~= pieces_view(old(cur)@) + seq![
                (padded(l@), Look::Tag),
                (" "@, Look::Plain),
            ]);
        },
        Markup::Link(t) => push_piece(cur, piece(owned(t.as_str()), Look::Link)),
        Markup::Action(icon) => push_piece(cur, piece(padded_string(icon.as_str()), Look::Action)),
        Markup::HRule => {
            flush(lines, cur);
            let mut rule: Vec<Piece> = Vec::new();
            rule.push(piece(rule_string(), Look::Rule));
            let ghost mid = lines_view(lines@);
            lines.push(rule);
            assert(pieces_view(rule@) =~= seq![(rule_text(), Look::Rule)]);
            assert(lines_view(lines@) =~= mid.push(seq![(rule_text(), Look::Rule)]));
        },
        Markup::Newline => flush(lines, cur),
        Markup::ListItem(items) => {
            flush(lines, cur);
            let mut line = list_line(items);
            std::mem::swap(cur, &mut line);
        },
        Markup::TableHeader(cells) => start_line(lines, cur, piece(cells_string(cells), Look::Bold)),
        Markup::TableRow(cells) => start_line(lines, cur, piece(cells_string(cells), Look::Plain)),
        Markup::AsideTitle(t) => start_line(lines, cur, piece(owned(t.as_str()), Look::Aside)),
    }
}

/// The lines of rendered rules text, each a sequence of styled pieces.
pub fn markup_lines(spans: &Vec<Markup>) -> (r: Vec<Vec<Piece>>)
    ensures
        lines_view(r@) == layout(spans@),
        no_empty_line(lines_view(r@)),
{
    proof {
        lemma_layout_lines_nonempty(spans@);
    }
    let mut lines: Vec<Vec<Piece>> = Vec::new();
    let mut cur: Vec<Piece> = Vec::new();
    let mut i: usize = 0;
    assert(lines_view(lines@) =~= Seq::empty());
    assert(pieces_view(cur@) =~= Seq::empty());
    assert(spans@.take(0) =~= Seq::empty());
    while i < spans.len()
        invariant
            i <= spans@.len(),
            (lines_view(lines@), pieces_view(cur@)) == layout_run(spans@.take(i as int)),
        decreases spans@.len() - i,
    {
        layout_one(&mut lines, &mut cur, &spans[i]);
        assert(spans@.take(i + 1).drop_last() =~= spans@.take(i as int));
        i = i + 1;
    }
    assert(spans@.take(spans@.len() as int) =~= spans@);
    flush(&mut lines, &mut cur);
    lines
}

/// What the header test reads of a run inside a paragraph.
#[derive(Debug, Clone, Copy, PartialEq, Eq, Structural)]
pub enum InlineKind {
    Trait,
    Action,
    Other,
}

/// What the header test reads of a block of parsed rules text.
#[derive(Debug, Clone)]
pub enum BlockKind {
    Title(u8),
    Paragraph(Vec<InlineKind>),
    KeyValue(String),
    HRule,
    Other,
}

/// A block of the header: a paragraph of traits and actions only (an empty one
/// too), or the "Source" line.
pub open spec fn is_meta(b: BlockKind) -> bool {
    match b {
        BlockKind::Paragraph(c) => forall|j: int|
            0 <= j < c@.len() ==> (#[trigger] c@[j] == InlineKind::Trait || c@[j] == InlineKind::Action),
        BlockKind::KeyValue(k) => k@ == "Source"@,
        _ => false,
    }
}

/// Where the header scan starts: after a leading level-one title.
pub open spec fn header_start(blocks: Seq<BlockKind>) -> nat {
    if blocks.len() > 0 && blocks[0] == BlockKind::Title(1) {
        1
    } else {
        0
    }
}

/// The end of the header from `i` on: header blocks are passed over, and a rule
/// that ends them is passed over too.
pub open spec fn header_end_from(blocks: Seq<BlockKind>, i: nat) -> nat
    decreases blocks.len() - i,
{
    if i >= blocks.len() {
        i
    } else if is_meta(blocks[i as int]) {
        header_end_from(blocks, i + 1)
    } else if blocks[i as int] is HRule {
        i + 1
    } else {
        i
    }
}

/// How many leading blocks repeat what the pane's header shows: the title, the
/// trait and source lines, and the rule after them.
pub open spec fn header_len(blocks: Seq<BlockKind>) -> nat {
    header_end_from(blocks, header_start(blocks))
}

fn is_meta_exec(b: &BlockKind) -> (r: bool)
    ensures
        r == is_meta(*b),
{
    match b {
        BlockKind::Paragraph(c) => {
            let mut j: usize = 0;
            while j < c.len()
                invariant
                    *b == BlockKind::Paragraph(*c),
                    j <= c@.len(),
                    forall|k: int| 0 <= k < j ==> (#[trigger] c@[k] == InlineKind::Trait || c@[k] == InlineKind::Action),
                decreases c@.len() - j,
            {
                match c[j] {
                    InlineKind::Other => {
                        assert(!(c@[j as int] == InlineKind::Trait || c@[j as int] == InlineKind::Action));
                        return false;
                    },
                    _ => {},
                }
                j = j + 1;
            }
            true
        },
        BlockKind::KeyValue(k) => crate::text::str_eq(k.as_str(), "Source"),
        _ => false,
    }
}

/// The number of leading blocks to leave out below the header.
pub fn header_block_count(blocks: &Vec<BlockKind>) -> (r: usize)
    ensures
        r == header_len(blocks@),
        r <= blocks@.len(),
{
    let mut i: usize = 0;
    if blocks.len() > 0 {
        match &blocks[0] {
            BlockKind::Title(l) => {
                if *l == 1 {
                    i = 1;
                }
            },
            _ => {},
        }
    }
    assert(i == header_start(blocks@));
    let ghost start = i as nat;
    while i < blocks.len()
        invariant
            start <= i <= blocks@.len(),
            header_end_from(blocks@, i as nat) == header_len(blocks@),
        decreases blocks@.len() - i,
    {
        if is_meta_exec(&blocks[i]) {
            i = i + 1;
        } else {
            match &blocks[i] {
                BlockKind::HRule => {
                    return i + 1;
                },
                _ => {
                    return i;
                },
            }
        }
    }
    i
}

} // verus!
