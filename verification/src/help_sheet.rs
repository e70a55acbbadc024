//! The help that is laid over the screen.

use crate::geometry::{max_int, min_int, Rect};
use crate::help_layout::{
    balanced, balanced_help_columns, column_count, column_widths, columns_view, help_column_count,
    help_column_widths, help_item_parts, help_sheet_width, ints, item_description, item_key,
    sheet_width, total,
};
use crate::scene::{
    add_hint, add_lines, add_spans, by_scheme, hints_view, no_hints, on_cleared, overlay_scene,
    panel, panel_of, scheme, widgets_view, Hints, HintsView, Pair, SceneView, Widget,
};
use crate::style::{
    add1, add_blank, add_line, add_span, blank_line, line1, lines_view, no_lines, no_spans, span,
    span_of, span_owned, spans_view, Color, Line, LineView, Span, Style,
};
use crate::text::{blanks, cat2, owned, spaces, Chars};
use crate::width::{pad_to_width, padded, text_columns, text_width};
use vstd::prelude::*;

verus! {

/// A group of keys under a heading.
pub struct Section {
    pub name: &'static str,
    pub items: Hints,
}

pub struct SectionView {
    pub name: Chars,
    pub items: HintsView,
}

impl View for Section {
    type V = SectionView;

    open spec fn view(&self) -> SectionView {
        SectionView { name: self.name@, items: hints_view(self.items@) }
    }
}

pub open spec fn sections_view(v: Seq<Section>) -> Seq<SectionView> {
    Seq::new(v.len(), |i: int| v[i]@)
}

/// The keys that move about, by whether there is a preview and whether it is loaded by itself.
pub open spec fn navigation_items(show_preview: bool, lazy_preview: bool) -> HintsView {
    let always: HintsView = seq![
        ("j / \u{2193}"@, "Move down"@),
        ("k / \u{2191}"@, "Move up"@),
        ("g / Home"@, "Jump to top"@),
        ("G / End"@, "Jump to bottom"@),
        ("PgDn/Up"@, "Page scroll"@),
        ("Enter"@, "Open / Play"@),
        ("Bksp"@, "Go to parent"@),
        ("r"@, "Refresh"@),
        ("S"@, "Cycle sort"@),
        ("R"@, "Reverse sort"@),
    ];
    let spaced = if !show_preview {
        always.push(("Space"@, "File info"@))
    } else if !lazy_preview {
        always.push(("Space"@, "Load preview"@))
    } else {
        always
    };
    spaced.push(("p"@, "Preview"@)).push(("w"@, "Watch (streams)"@))
}

fn navigation(show_preview: bool, lazy_preview: bool) -> (r: Hints)
    ensures
        hints_view(r@) == navigation_items(show_preview, lazy_preview),
{
    let mut v: Hints = no_hints();
    add_hint(&mut v, "j / \u{2193}", "Move down");
    add_hint(&mut v, "k / \u{2191}", "Move up");
    add_hint(&mut v, "g / Home", "Jump to top");
    add_hint(&mut v, "G / End", "Jump to bottom");
    add_hint(&mut v, "PgDn/Up", "Page scroll");
    add_hint(&mut v, "Enter", "Open / Play");
    add_hint(&mut v, "Bksp", "Go to parent");
    add_hint(&mut v, "r", "Refresh");
    add_hint(&mut v, "S", "Cycle sort");
    add_hint(&mut v, "R", "Reverse sort");
    if !show_preview {
        add_hint(&mut v, "Space", "File info");
    } else if !lazy_preview {
        add_hint(&mut v, "Space", "Load preview");
    }
    add_hint(&mut v, "p", "Preview");
    add_hint(&mut v, "w", "Watch (streams)");
    v
}

pub open spec fn action_items() -> HintsView {
    seq![
        ("c"@, "Copy"@),
        ("m"@, "Move"@),
        ("n"@, "Rename"@),
        ("d"@, "Delete"@),
        ("f"@, "New folder"@),
        ("s"@, "Star / Unstar"@),
        ("y"@, "Copy link"@),
        ("a"@, "Add to cart"@),
    ]
}

fn actions() -> (r: Hints)
    ensures
        hints_view(r@) == action_items(),
{
    let mut v: Hints = no_hints();
    add_hint(&mut v, "c", "Copy");
    add_hint(&mut v, "m", "Move");
    add_hint(&mut v, "n", "Rename");
    add_hint(&mut v, "d", "Delete");
    add_hint(&mut v, "f", "New folder");
    add_hint(&mut v, "s", "Star / Unstar");
    add_hint(&mut v, "y", "Copy link");
    add_hint(&mut v, "a", "Add to cart");
    v
}

pub open spec fn panel_items() -> HintsView {
    seq![
        ("D"@, "Downloads"@),
        ("A"@, "View cart"@),
        ("M"@, "My Shares"@),
        ("o"@, "Cloud download"@),
        ("O"@, "Offline tasks"@),
        ("t"@, "Trash"@),
        ("l"@, "Toggle logs"@),
        (","@, "Settings"@),
        ("h"@, "Toggle help"@),
        ("?"@, "Actions menu"@),
        ("q"@, "Quit"@),
    ]
}

fn panels() -> (r: Hints)
    ensures
        hints_view(r@) == panel_items(),
{
    let mut v: Hints = no_hints();
    add_hint(&mut v, "D", "Downloads");
    add_hint(&mut v, "A", "View cart");
    add_hint(&mut v, "M", "My Shares");
    add_hint(&mut v, "o", "Cloud download");
    add_hint(&mut v, "O", "Offline tasks");
    add_hint(&mut v, "t", "Trash");
    add_hint(&mut v, "l", "Toggle logs");
    add_hint(&mut v, ",", "Settings");
    add_hint(&mut v, "h", "Toggle help");
    add_hint(&mut v, "?", "Actions menu");
    add_hint(&mut v, "q", "Quit");
    v
}

pub open spec fn picker_moves() -> HintsView {
    seq![
        ("j / \u{2193}"@, "Move down"@),
        ("k / \u{2191}"@, "Move up"@),
        ("Enter"@, "Open folder"@),
        ("Bksp"@, "Go back"@),
    ]
}

fn moves_in_picker() -> (r: Hints)
    ensures
        hints_view(r@) == picker_moves(),
{
    let mut v: Hints = no_hints();
    add_hint(&mut v, "j / \u{2193}", "Move down");
    add_hint(&mut v, "k / \u{2191}", "Move up");
    add_hint(&mut v, "Enter", "Open folder");
    add_hint(&mut v, "Bksp", "Go back");
    v
}

pub open spec fn picker_actions() -> HintsView {
    seq![
        ("Space"@, "Confirm destination"@),
        ("/"@, "Switch to text input"@),
        ("h"@, "Toggle help"@),
        ("Esc"@, "Cancel"@),
    ]
}

fn actions_in_picker() -> (r: Hints)
    ensures
        hints_view(r@) == picker_actions(),
{
    let mut v: Hints = no_hints();
    add_hint(&mut v, "Space", "Confirm destination");
    add_hint(&mut v, "/", "Switch to text input");
    add_hint(&mut v, "h", "Toggle help");
    add_hint(&mut v, "Esc", "Cancel");
    v
}

pub open spec fn section_of(name: Chars, items: HintsView) -> SectionView {
    SectionView { name, items }
}

/// The sections of the help: those of the destination picker, or those of the main pane.
pub open spec fn help_sections(picker: bool, show_preview: bool, lazy_preview: bool) -> Seq<SectionView> {
    if picker {
        seq![
            section_of("Navigation"@, picker_moves()),
            section_of("Actions"@, picker_actions()),
        ]
    } else {
        seq![
            section_of("Navigation"@, navigation_items(show_preview, lazy_preview)),
            section_of("Actions"@, action_items()),
            section_of("Panels"@, panel_items()),
        ]
    }
}

pub fn build_sections(picker: bool, show_preview: bool, lazy_preview: bool) -> (r: Vec<Section>)
    ensures
        sections_view(r@) == help_sections(picker, show_preview, lazy_preview),
        1 <= r@.len() <= 3,
        forall|i: int| 0 <= i < r@.len() ==> (#[trigger] r@[i]).items@.len() <= 20,
{
    let mut v: Vec<Section> = Vec::new();
    if picker {
        v.push(Section { name: "Navigation", items: moves_in_picker() });
        v.push(Section { name: "Actions", items: actions_in_picker() });
    } else {
        v.push(Section { name: "Navigation", items: navigation(show_preview, lazy_preview) });
        v.push(Section { name: "Actions", items: actions() });
        v.push(Section { name: "Panels", items: panels() });
    }
    assert(sections_view(v@) =~= help_sections(picker, show_preview, lazy_preview));
    assert forall|i: int| 0 <= i < v@.len() implies (#[trigger] v@[i]).items@.len() <= 20 by {
        assert(v@[i].items@.len() == sections_view(v@)[i].items.len());
    }
    v
}

/// The columns of the widest key.
pub open spec fn widest_of(items: HintsView) -> int
    decreases items.len(),
{
    if items.len() == 0 {
        0
    } else {
        max_int(widest_of(items.drop_last()), text_columns(items.last().0) as int)
    }
}

/// The columns of the widest key in any section.
pub open spec fn widest_key(sections: Seq<SectionView>) -> int
    decreases sections.len(),
{
    if sections.len() == 0 {
        0
    } else {
        max_int(widest_key(sections.drop_last()), widest_of(sections.last().items))
    }
}

fn find_widest(items: &Hints) -> (r: usize)
    ensures
        r == widest_of(hints_view(items@)),
{
    let ghost all = hints_view(items@);
    let mut best: usize = 0;
    let mut i: usize = 0;
    assert(all.take(0) =~= Seq::empty());
    while i < items.len()
        invariant
            i <= items@.len(),
            all == hints_view(items@),
            best == widest_of(all.take(i as int)),
        decreases items@.len() - i,
    {
        assert(all.take(i + 1).drop_last() =~= all.take(i as int));
        assert(all.take(i + 1).last() == all[i as int]);
        let w: usize = text_width(items[i].0);
        if w > best {
            best = w;
        }
        i += 1;
    }
    assert(all.take(i as int) =~= all);
    best
}

fn find_widest_key(sections: &Vec<Section>) -> (r: usize)
    ensures
        r == widest_key(sections_view(sections@)),
{
    let ghost all = sections_view(sections@);
    let mut best: usize = 0;
    let mut i: usize = 0;
    assert(all.take(0) =~= Seq::empty());
    while i < sections.len()
        invariant
            i <= sections@.len(),
            all == sections_view(sections@),
            best == widest_key(all.take(i as int)),
        decreases sections@.len() - i,
    {
        assert(all.take(i + 1).drop_last() =~= all.take(i as int));
        assert(all.take(i + 1).last() == all[i as int]);
        let w: usize = find_widest(&sections[i].items);
        if w > best {
            best = w;
        }
        i += 1;
    }
    assert(all.take(i as int) =~= all);
    best
}

/// How high each section is: its heading and its entries.
pub open spec fn section_heights(sections: Seq<SectionView>) -> Seq<int> {
    Seq::new(sections.len(), |i: int| 1 + sections[i].items.len() as int)
}

fn measure_sections(sections: &Vec<Section>) -> (r: Vec<usize>)
    requires
        sections@.len() <= 3,
        forall|i: int| 0 <= i < sections@.len() ==> (#[trigger] sections@[i]).items@.len() <= 20,
    ensures
        ints(r@) == section_heights(sections_view(sections@)),
        total(ints(r@), r@.len() as int) + r@.len() <= 100,
{
    let mut out: Vec<usize> = Vec::new();
    let mut i: usize = 0;
    while i < sections.len()
        invariant
            i <= sections@.len() <= 3,
            forall|k: int|
                0 <= k < sections@.len() ==> (#[trigger] sections@[k]).items@.len() <= 20,
            out@.len() == i,
            forall|k: int| 0 <= k < i ==> out@[k] == 1 + sections@[k].items@.len(),
        decreases sections@.len() - i,
    {
        out.push(1 + sections[i].items.len());
        i += 1;
    }
    proof {
        assert(ints(out@) =~= section_heights(sections_view(sections@)));
        reveal_with_fuel(total, 4);
    }
    out
}

/// A row of a column of the help.
#[derive(Clone, Copy, Debug)]
pub enum HelpRow {
    Title(&'static str),
    Item(&'static str, &'static str),
    Blank,
}

pub enum HelpRowView {
    Title(Chars),
    Item(Chars, Chars),
    Blank,
}

impl View for HelpRow {
    type V = HelpRowView;

    open spec fn view(&self) -> HelpRowView {
        match self {
            HelpRow::Title(name) => HelpRowView::Title(name@),
            HelpRow::Item(key, what) => HelpRowView::Item(key@, what@),
            HelpRow::Blank => HelpRowView::Blank,
        }
    }
}

pub open spec fn rows_view(v: Seq<HelpRow>) -> Seq<HelpRowView> {
    Seq::new(v.len(), |i: int| v[i]@)
}

/// The entries of a section as rows.
pub open spec fn item_rows(items: HintsView) -> Seq<HelpRowView> {
    Seq::new(items.len(), |i: int| HelpRowView::Item(items[i].0, items[i].1))
}

/// The rows of a column: its sections in order, with a blank row between them.
pub open spec fn column_rows(sections: Seq<SectionView>, column: Seq<int>) -> Seq<HelpRowView>
    decreases column.len(),
{
    if column.len() == 0 {
        Seq::empty()
    } else {
        let before = column_rows(sections, column.drop_last());
        let s = sections[column.last()];
        let apart = if column.len() > 1 {
            before.push(HelpRowView::Blank)
        } else {
            before
        };
        apart.push(HelpRowView::Title(s.name)) + item_rows(s.items)
    }
}

/// The rows of all columns.
pub open spec fn all_rows(sections: Seq<SectionView>, columns: Seq<Seq<int>>) -> Seq<Seq<HelpRowView>> {
    Seq::new(columns.len(), |i: int| column_rows(sections, columns[i]))
}

fn add_row(v: &mut Vec<HelpRow>, row: HelpRow)
    ensures
        rows_view(final(v)@) == rows_view(old(v)@).push(row@),
{
    v.push(row);
    assert(rows_view(v@) =~= rows_view(old(v)@).push(row@));
}

fn add_items(v: &mut Vec<HelpRow>, items: &Hints)
    ensures
        rows_view(final(v)@) == rows_view(old(v)@) + item_rows(hints_view(items@)),
{
    let ghost before = rows_view(v@);
    let ghost added = item_rows(hints_view(items@));
    let mut i: usize = 0;
    assert(before + added.take(0) =~= before);
    while i < items.len()
        invariant
            i <= items@.len(),
            added == item_rows(hints_view(items@)),
            rows_view(v@) == before + added.take(i as int),
        decreases items@.len() - i,
    {
        add_row(v, HelpRow::Item(items[i].0, items[i].1));
        assert(before + added.take(i + 1) =~= (before + added.take(i as int)).push(
            added[i as int],
        ));
        i += 1;
    }
    assert(added.take(i as int) =~= added);
}

fn build_column(sections: &Vec<Section>, column: &Vec<usize>) -> (r: Vec<HelpRow>)
    requires
        forall|k: int| 0 <= k < column@.len() ==> (#[trigger] column@[k]) < sections@.len(),
    ensures
        rows_view(r@) == column_rows(sections_view(sections@), ints(column@)),
{
    let ghost all = sections_view(sections@);
    let ghost ids = ints(column@);
    let mut out: Vec<HelpRow> = Vec::new();
    let mut i: usize = 0;
    assert(ids.take(0) =~= Seq::empty());
    assert(rows_view(out@) =~= Seq::empty());
    while i < column.len()
        invariant
            i <= column@.len(),
            all == sections_view(sections@),
            ids == ints(column@),
            forall|k: int| 0 <= k < column@.len() ==> (#[trigger] column@[k]) < sections@.len(),
            rows_view(out@) == column_rows(all, ids.take(i as int)),
        decreases column@.len() - i,
    {
        assert(ids.take(i + 1).drop_last() =~= ids.take(i as int));
        assert(ids.take(i + 1).last() == column@[i as int]);
        let s: &Section = &sections[column[i]];
        assert(all[column@[i as int] as int] == s@);
        if i > 0 {
            add_row(&mut out, HelpRow::Blank);
        }
        add_row(&mut out, HelpRow::Title(s.name));
        add_items(&mut out, &s.items);
        i += 1;
    }
    assert(ids.take(i as int) =~= ids);
    out
}

pub open spec fn columns_rows_view(v: Seq<Vec<HelpRow>>) -> Seq<Seq<HelpRowView>> {
    Seq::new(v.len(), |i: int| rows_view(v[i]@))
}

fn build_columns(sections: &Vec<Section>, columns: &Vec<Vec<usize>>) -> (r: Vec<Vec<HelpRow>>)
    requires
        forall|c: int, k: int|
            0 <= c < columns@.len() && 0 <= k < columns@[c]@.len() ==> (
            #[trigger] columns@[c]@[k]) < sections@.len(),
    ensures
        columns_rows_view(r@) == all_rows(sections_view(sections@), columns_view(columns@)),
        r@.len() == columns@.len(),
{
    let mut out: Vec<Vec<HelpRow>> = Vec::new();
    let mut i: usize = 0;
    while i < columns.len()
        invariant
            i <= columns@.len(),
            forall|c: int, k: int|
                0 <= c < columns@.len() && 0 <= k < columns@[c]@.len() ==> (
                #[trigger] columns@[c]@[k]) < sections@.len(),
            out@.len() == i,
            forall|c: int|
                0 <= c < i ==> rows_view((#[trigger] out@[c])@) == column_rows(
                    sections_view(sections@),
                    ints(columns@[c]@),
                ),
        decreases columns@.len() - i,
    {
        out.push(build_column(sections, &columns[i]));
        i += 1;
    }
    assert(columns_rows_view(out@) =~= all_rows(
        sections_view(sections@),
        columns_view(columns@),
    ));
    out
}

/// The rows of the highest column.
pub open spec fn highest(columns: Seq<Seq<HelpRowView>>) -> int
    decreases columns.len(),
{
    if columns.len() == 0 {
        0
    } else {
        max_int(highest(columns.drop_last()), columns.last().len() as int)
    }
}

fn find_highest(columns: &Vec<Vec<HelpRow>>) -> (r: usize)
    ensures
        r == highest(columns_rows_view(columns@)),
{
    let ghost all = columns_rows_view(columns@);
    let mut best: usize = 0;
    let mut i: usize = 0;
    assert(all.take(0) =~= Seq::empty());
    while i < columns.len()
        invariant
            i <= columns@.len(),
            all == columns_rows_view(columns@),
            best == highest(all.take(i as int)),
        decreases columns@.len() - i,
    {
        assert(all.take(i + 1).drop_last() =~= all.take(i as int));
        assert(all.take(i + 1).last() == all[i as int]);
        if columns[i].len() > best {
            best = columns[i].len();
        }
        i += 1;
    }
    assert(all.take(i as int) =~= all);
    best
}

/// The margin of the first column.
pub open spec fn column_prefix(column: int) -> Chars {
    if column == 0 {
        " "@
    } else {
        ""@
    }
}

/// A heading in a column.
pub open spec fn title_text(prefix: Chars, name: Chars, width: int) -> Chars {
    let p = min_int(text_columns(prefix) as int, width);
    padded(prefix, p as nat) + padded(name, (width - p) as nat)
}

/// One row of one column.
pub open spec fn cell(rows: Seq<HelpRowView>, row: int, column: int, width: int, key_width: int) -> LineView {
    if row < rows.len() {
        match rows[row] {
            HelpRowView::Title(name) => seq![
                span_of(
                    title_text(column_prefix(column), name, width),
                    Style::bold_spec(Color::Cyan),
                ),
            ],
            HelpRowView::Item(key, what) => {
                let k = item_key(column_prefix(column), key, key_width, width);
                seq![
                    span_of(k, Style::fg_spec(Color::Yellow)),
                    span_of(item_description(k, what, width), Style::fg_spec(Color::Reset)),
                ]
            },
            HelpRowView::Blank => seq![span_of(blanks(width as nat), Style::plain_spec())],
        }
    } else {
        seq![span_of(blanks(width as nat), Style::plain_spec())]
    }
}

/// The first `n` columns of a row.
pub open spec fn row_spans(
    columns: Seq<Seq<HelpRowView>>,
    widths: Seq<int>,
    key_width: int,
    row: int,
    n: int,
) -> LineView
    decreases n,
{
    if n <= 0 {
        Seq::empty()
    } else {
        row_spans(columns, widths, key_width, row, n - 1) + cell(
            columns[n - 1],
            row,
            n - 1,
            widths[n - 1],
            key_width,
        )
    }
}

/// All rows of the help.
pub open spec fn help_rows(
    columns: Seq<Seq<HelpRowView>>,
    widths: Seq<int>,
    key_width: int,
) -> Seq<LineView> {
    Seq::new(
        highest(columns) as nat,
        |row: int| row_spans(columns, widths, key_width, row, columns.len() as int),
    )
}

fn build_title(prefix: &str, name: &str, width: usize) -> (r: String)
    ensures
        r@ == title_text(prefix@, name@, width as int),
{
    let w: usize = text_width(prefix);
    let p: usize = if w < width {
        w
    } else {
        width
    };
    cat2(pad_to_width(prefix, p).as_str(), pad_to_width(name, width - p).as_str())
}

fn build_cell(rows: &Vec<HelpRow>, row: usize, column: usize, width: usize, key_width: usize) -> (r:
    Vec<Span>)
    ensures
        spans_view(r@) == cell(
            rows_view(rows@),
            row as int,
            column as int,
            width as int,
            key_width as int,
        ),
{
    let prefix: &str = if column == 0 {
        " "
    } else {
        ""
    };
    let mut out: Vec<Span> = no_spans();
    if row >= rows.len() {
        add_span(&mut out, span_owned(spaces(width), Style::plain()));
        return out;
    }
    assert(rows_view(rows@)[row as int] == rows@[row as int]@);
    match rows[row] {
        HelpRow::Title(name) => {
            add_span(
                &mut out,
                span_owned(build_title(prefix, name, width), Style::bold(Color::Cyan)),
            );
        },
        HelpRow::Item(key, what) => {
            let (k, d) = help_item_parts(prefix, key, what, key_width, width);
            add_span(&mut out, span_owned(k, Style::fg(Color::Yellow)));
            add_span(&mut out, span_owned(d, Style::fg(Color::Reset)));
        },
        HelpRow::Blank => {
            add_span(&mut out, span_owned(spaces(width), Style::plain()));
        },
    }
    out
}

fn build_row(columns: &Vec<Vec<HelpRow>>, widths: &Vec<usize>, key_width: usize, row: usize) -> (r:
    Vec<Span>)
    requires
        columns@.len() == widths@.len(),
    ensures
        spans_view(r@) == row_spans(
            columns_rows_view(columns@),
            ints(widths@),
            key_width as int,
            row as int,
            columns@.len() as int,
        ),
{
    let mut out: Vec<Span> = no_spans();
    let mut i: usize = 0;
    while i < columns.len()
        invariant
            i <= columns@.len() == widths@.len(),
            spans_view(out@) == row_spans(
                columns_rows_view(columns@),
                ints(widths@),
                key_width as int,
                row as int,
                i as int,
            ),
        decreases columns@.len() - i,
    {
        add_spans(&mut out, build_cell(&columns[i], row, i, widths[i], key_width));
        i += 1;
    }
    out
}

fn build_rows(columns: &Vec<Vec<HelpRow>>, widths: &Vec<usize>, key_width: usize) -> (r: Vec<Line>)
    requires
        columns@.len() == widths@.len(),
    ensures
        lines_view(r@) == help_rows(
            columns_rows_view(columns@),
            ints(widths@),
            key_width as int,
        ),
{
    let n: usize = find_highest(columns);
    let mut out: Vec<Line> = no_lines();
    let mut i: usize = 0;
    let ghost all = help_rows(columns_rows_view(columns@), ints(widths@), key_width as int);
    assert(all.take(0) =~= Seq::empty());
    while i < n
        invariant
            i <= n == all.len(),
            columns@.len() == widths@.len(),
            all == help_rows(columns_rows_view(columns@), ints(widths@), key_width as int),
            lines_view(out@) == all.take(i as int),
        decreases n - i,
    {
        add_line(&mut out, build_row(columns, widths, key_width, i));
        assert(all.take(i + 1) =~= all.take(i as int).push(all[i as int]));
        i += 1;
    }
    assert(all.take(i as int) =~= all);
    out
}

/// The name of the program in large letters.
pub open spec fn art_text(i: int) -> Chars {
    if i == 0 {
        "    dMMMMb  dMP dMP dMP dMMMMb  .aMMMb  dMP dMP dMMMMMMP dMP dMP dMP"@
    } else if i == 1 {
        "   dMP.dMP amr dMP.dMP dMP.dMP dMP\"dMP dMP.dMP    dMP   dMP dMP amr "@
    } else if i == 2 {
        "  dMMMMP\" dMP dMMMMK\" dMMMMP\" dMMMMMP dMMMMK\"    dMP   dMP dMP dMP  "@
    } else if i == 3 {
        " dMP     dMP dMP\"AMF dMP     dMP dMP dMP\"AMF    dMP   dMP.aMP dMP   "@
    } else {
        "dMP     dMP dMP dMP dMP     dMP dMP dMP dMP    dMP    VMMMP\" dMP    "@
    }
}

pub open spec fn art_color(i: int) -> Color {
    if i == 0 {
        Color::LightCyan
    } else if i == 1 {
        Color::Cyan
    } else if i == 2 {
        Color::LightBlue
    } else if i == 3 {
        Color::Blue
    } else {
        Color::LightMagenta
    }
}

fn art(i: usize) -> (r: (&'static str, Color))
    ensures
        r.0@ == art_text(i as int),
        r.1 == art_color(i as int),
{
    match i {
        0 => (
            "    dMMMMb  dMP dMP dMP dMMMMb  .aMMMb  dMP dMP dMMMMMMP dMP dMP dMP",
            Color::LightCyan,
        ),
        1 => (
            "   dMP.dMP amr dMP.dMP dMP.dMP dMP\"dMP dMP.dMP    dMP   dMP dMP amr ",
            Color::Cyan,
        ),
        2 => (
            "  dMMMMP\" dMP dMMMMK\" dMMMMP\" dMMMMMP dMMMMK\"    dMP   dMP dMP dMP  ",
            Color::LightBlue,
        ),
        3 => (
            " dMP     dMP dMP\"AMF dMP     dMP dMP dMP\"AMF    dMP   dMP.aMP dMP   ",
            Color::Blue,
        ),
        _ => (
            "dMP     dMP dMP dMP dMP     dMP dMP dMP dMP    dMP    VMMMP\" dMP    ",
            Color::LightMagenta,
        ),
    }
}

/// A line of the large letters, in the middle.
pub open spec fn art_line(i: int, inner: int) -> LineView {
    let pad = max_int(inner - art_text(i).len(), 0) / 2;
    line1(span_of(blanks(pad as nat) + art_text(i), Style::bold_spec(art_color(i))))
}

/// What stands above the rows: the large letters where there is room, else a blank line.
pub open spec fn help_head(shown: bool, inner: int) -> Seq<LineView> {
    if shown {
        seq![
            blank_line(),
            art_line(0, inner),
            art_line(1, inner),
            art_line(2, inner),
            art_line(3, inner),
            art_line(4, inner),
            blank_line(),
        ]
    } else {
        seq![blank_line()]
    }
}

fn add_art(lines: &mut Vec<Line>, i: usize, inner: usize)
    ensures
        lines_view(final(lines)@) == lines_view(old(lines)@).push(art_line(i as int, inner as int)),
{
    let (text, color) = art(i);
    let chars: Vec<char> = crate::text::chars_of(text);
    let pad: usize = inner.saturating_sub(chars.len()) / 2;
    add1(lines, span_owned(cat2(spaces(pad).as_str(), text), Style::bold(color)));
}

fn build_head(shown: bool, inner: usize) -> (r: Vec<Line>)
    ensures
        lines_view(r@) == help_head(shown, inner as int),
{
    let mut v: Vec<Line> = no_lines();
    add_blank(&mut v);
    if shown {
        add_art(&mut v, 0, inner);
        add_art(&mut v, 1, inner);
        add_art(&mut v, 2, inner);
        add_art(&mut v, 3, inner);
        add_art(&mut v, 4, inner);
        add_blank(&mut v);
    }
    v
}

/// What the help shows, apart from the screen: which sections, and in which colours.
#[derive(Clone, Copy, Debug, PartialEq, Eq, Structural)]
pub struct HelpTopic {
    pub picker: bool,
    pub show_preview: bool,
    pub lazy_preview: bool,
    pub vibrant: bool,
}

impl HelpTopic {
    pub open spec fn sections(self) -> Seq<SectionView> {
        help_sections(self.picker, self.show_preview, self.lazy_preview)
    }
}

/// The width inside of the border of the help.
pub open spec fn help_inner(term: Rect) -> int {
    max_int(sheet_width(term.width as int) - 2, 0)
}

/// The columns of the help, as rows.
pub open spec fn help_columns(t: HelpTopic, inner: int) -> Seq<Seq<HelpRowView>> {
    let s = t.sections();
    all_rows(
        s,
        balanced(section_heights(s), column_count(inner, s.len() as int, widest_key(s))),
    )
}

/// Whether the large letters have room.
pub open spec fn shows_art(t: HelpTopic, term: Rect) -> bool {
    help_inner(term) >= 70 && term.height >= highest(help_columns(t, help_inner(term))) + 11
}

/// All lines of the help, whether they have room or not.
pub open spec fn help_lines(t: HelpTopic, term: Rect) -> Seq<LineView> {
    let inner = help_inner(term);
    let s = t.sections();
    let key = widest_key(s);
    let count = column_count(inner, s.len() as int, key);
    (help_head(shows_art(t, term), inner) + help_rows(
        help_columns(t, inner),
        column_widths(inner, count),
        key,
    )).push(blank_line())
}

/// The height that the help takes: its lines, the line that tells how to close it, and the border,
/// as far as the terminal goes.
pub open spec fn help_height(t: HelpTopic, term: Rect) -> int {
    let head: int = if shows_art(t, term) {
        7
    } else {
        1
    };
    min_int((head + highest(help_columns(t, help_inner(term))) + 4) % 0x10000, term.height as int)
}

/// Where the help stands: in the middle of the terminal.
pub open spec fn help_area(t: HelpTopic, term: Rect) -> Rect {
    let w = sheet_width(term.width as int);
    let h = help_height(t, term);
    Rect {
        x: ((term.width - w) / 2) as u16,
        y: ((term.height - h) / 2) as u16,
        width: w as u16,
        height: h as u16,
    }
}

/// The rows for the lines of the help: the last one inside of the border tells how to close it.
pub open spec fn help_body_rows(t: HelpTopic, term: Rect) -> int {
    max_int(max_int(help_height(t, term) - 2, 0) - 1, 0)
}

/// How far the help can be scrolled.
pub open spec fn help_scroll_room(t: HelpTopic, term: Rect) -> int {
    max_int(help_lines(t, term).len() - help_body_rows(t, term), 0)
}

/// The lines from `from` on, `n` of them at most.
pub open spec fn window(lines: Seq<LineView>, from: int, n: int) -> Seq<LineView> {
    let start = min_int(from, lines.len() as int);
    lines.subrange(start, min_int(start + n, lines.len() as int))
}

pub open spec fn close_hint(t: HelpTopic, term: Rect) -> LineView {
    line1(
        span_of(
            if help_scroll_room(t, term) > 0 {
                " \u{2191}/\u{2193}  Esc closes"@
            } else {
                " Press any key to close"@
            },
            Style::fg_spec(Color::DarkGray),
        ),
    )
}

/// The lines of the help that are seen, and how to close it below them.
pub open spec fn help_seen(t: HelpTopic, term: Rect, scroll: int) -> Seq<LineView> {
    let at = min_int(scroll, help_scroll_room(t, term));
    let body = window(help_lines(t, term), at, help_body_rows(t, term));
    if help_height(t, term) > 2 {
        body.push(close_hint(t, term))
    } else {
        body
    }
}

/// The help on the screen.
pub open spec fn help_scene(t: HelpTopic, term: Rect, scroll: int) -> SceneView {
    let colors = scheme(
        t.vibrant,
        (Color::LightMagenta, Color::LightMagenta),
        (Color::Cyan, Color::Cyan),
    );
    overlay_scene(
        help_area(t, term),
        term,
        panel_of(
            help_area(t, term),
            " Help "@,
            Style::bold_spec(colors.1),
            colors.0,
            help_seen(t, term, scroll),
        ),
    )
}

/// The lines from `from` on, `n` of them at most.
pub fn take_window(lines: &Vec<Line>, from: usize, n: usize) -> (r: Vec<Line>)
    ensures
        lines_view(r@) == window(lines_view(lines@), from as int, n as int),
{
    let start: usize = if from < lines.len() {
        from
    } else {
        lines.len()
    };
    let end: usize = if n < lines.len() - start {
        start + n
    } else {
        lines.len()
    };
    let mut out: Vec<Line> = Vec::new();
    let mut i: usize = start;
    while i < end
        invariant
            start <= i <= end <= lines@.len(),
            out@.len() == i - start,
            forall|k: int| 0 <= k < i - start ==> (#[trigger] out@[k])@ == lines@[start + k]@,
        decreases end - i,
    {
        out.push(lines[i].clone());
        i += 1;
    }
    assert(lines_view(out@) =~= window(lines_view(lines@), from as int, n as int));
    out
}

/// The columns of the help as they are computed.
struct Built {
    columns: Vec<Vec<HelpRow>>,
    widths: Vec<usize>,
    key_width: usize,
}

fn build_help(t: HelpTopic, inner: usize) -> (r: Built)
    ensures
        columns_rows_view(r.columns@) == help_columns(t, inner as int),
        ints(r.widths@) == column_widths(
            inner as int,
            column_count(inner as int, t.sections().len() as int, widest_key(t.sections())),
        ),
        r.key_width == widest_key(t.sections()),
        r.columns@.len() == r.widths@.len(),
{
    let sections: Vec<Section> = build_sections(t.picker, t.show_preview, t.lazy_preview);
    let ghost s = t.sections();
    assert(s == sections_view(sections@));
    let key_width: usize = find_widest_key(&sections);
    let heights: Vec<usize> = measure_sections(&sections);
    let count: usize = help_column_count(inner, sections.len(), key_width);
    let columns: Vec<Vec<usize>> = balanced_help_columns(&heights, count);
    let widths: Vec<usize> = help_column_widths(inner, count);
    let ghost places = balanced(ints(heights@), count as int);
    proof {
        crate::help_layout::law_every_section_has_one_place(ints(heights@), count as int);
        crate::help_layout::lemma_balanced_len(ints(heights@), count as int);
        assert(widths@.len() == ints(widths@).len());
        assert(columns@.len() == columns_view(columns@).len());
        assert forall|c: int, k: int|
            0 <= c < columns@.len() && 0 <= k < columns@[c]@.len() implies (
        #[trigger] columns@[c]@[k]) < sections@.len() by {
            assert(places[c][k] == columns@[c]@[k]);
        }
    }
    let rows: Vec<Vec<HelpRow>> = build_columns(&sections, &columns);
    Built { columns: rows, widths, key_width }
}

/// Draws the help. With it comes how far it can be scrolled.
pub fn draw_help_sheet(t: HelpTopic, term: Rect, scroll: usize) -> (r: (Vec<Widget>, usize))
    ensures
        widgets_view(r.0@) == help_scene(t, term, scroll as int),
        r.1 == help_scroll_room(t, term),
{
    let w: u16 = help_sheet_width(term.width);
    let inner: usize = w.saturating_sub(2) as usize;
    let built: Built = build_help(t, inner);
    let max_rows: usize = find_highest(&built.columns);
    let shown: bool = inner >= 70 && (term.height as usize) >= 11 && max_rows <= term.height as usize
        - 11;
    let mut lines: Vec<Line> = build_head(shown, inner);
    let rows: Vec<Line> = build_rows(&built.columns, &built.widths, built.key_width);
    add_lines(&mut lines, rows);
    add_blank(&mut lines);
    let head: u128 = if shown {
        7
    } else {
        1
    };
    let wanted: u16 = ((head + max_rows as u128 + 4) % 0x10000) as u16;
    let h: u16 = if wanted < term.height {
        wanted
    } else {
        term.height
    };
    let area: Rect = Rect {
        x: (term.width - w) / 2,
        y: (term.height - h) / 2,
        width: w,
        height: h,
    };
    let body: usize = h.saturating_sub(2).saturating_sub(1) as usize;
    assert(lines@.len() == lines_view(lines@).len());
    let room: usize = lines.len().saturating_sub(body);
    let at: usize = if scroll < room {
        scroll
    } else {
        room
    };
    let mut seen: Vec<Line> = take_window(&lines, at, body);
    if h > 2 {
        let hint: &str = if room > 0 {
            " \u{2191}/\u{2193}  Esc closes"
        } else {
            " Press any key to close"
        };
        add1(&mut seen, span(hint, Style::fg(Color::DarkGray)));
    }
    let colors: Pair = by_scheme(
        t.vibrant,
        (Color::LightMagenta, Color::LightMagenta),
        (Color::Cyan, Color::Cyan),
    );
    let p: Widget = panel(area, owned(" Help "), Style::bold(colors.1), colors.0, seen);
    (on_cleared(area, term, p), room)
}

/// However short the terminal is, as soon as there is a row inside of the border the last one tells
/// how to leave the help.
pub proof fn law_help_always_tells_how_to_close(t: HelpTopic, term: Rect, scroll: int)
    requires
        0 <= scroll,
        help_height(t, term) > 2,
    ensures
        help_seen(t, term, scroll).last() == close_hint(t, term),
        help_seen(t, term, scroll).len() <= help_height(t, term) - 2,
{
}

/// Scrolled to its end, the help shows its last line; it can always be reached.
pub proof fn law_help_can_be_scrolled_to_its_end(t: HelpTopic, term: Rect)
    requires
        help_body_rows(t, term) > 0,
    ensures
        ({
            let at = help_scroll_room(t, term);
            let body = window(help_lines(t, term), at, help_body_rows(t, term));
            body.len() > 0 && body.last() == help_lines(t, term).last()
        }),
{
    let lines = help_lines(t, term);
    assert(lines.len() > 0);
}

} // verus!
