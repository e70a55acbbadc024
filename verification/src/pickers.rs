//! The two panes in which a destination is picked.

use crate::app::{path_text, App, AppView};
use crate::geometry::Rect;
use crate::help_bar::{help_pairs, mode_hints};
use crate::kit::{cursor_in, entry_items, list_cursor, list_entries, spinner, spinner_frame, Kit};
use crate::lists::{sum_sizes, total_size};
use crate::media::{format_size, size_text};
use crate::model::{Entry, EntryKind, FileCategory, PickerState, PickerView};
use crate::panes::{bar_widget, grey_title};
use crate::scene::{
    add_spans, add_widget, help_spans, highlight, highlight_style, hints_view, no_widgets,
    styled_help_spans, themed, themed_colors, widgets_view, Hints, HintsView, Look, Looks, Pair,
    SceneView, Widget, WidgetView,
};
use crate::share_pages::with_bar;
use crate::style::{
    add_line, add_span, lines_view, no_lines, no_spans, span, span_of, span_owned, spans_view,
    Color, Line, LineView, Span, Style,
};
use crate::text::{cat3, cat5, dec, decimal, owned, Chars};
use crate::transfer::folders;
use vstd::prelude::*;

verus! {

/// What the left pane of a picker shows: entries without a cursor of their own.
pub open spec fn source_list(
    area: Rect,
    title: Chars,
    entries: Seq<Entry>,
    selected: Option<usize>,
    kit: Kit,
) -> WidgetView {
    WidgetView::List {
        area,
        title,
        title_style: grey_title(),
        border: Color::DarkGray,
        items: entry_items(kit.looks, entries, 0),
        selected,
        highlight: Style::fg_spec(Color::DarkGray),
        symbol: "  "@,
    }
}

fn draw_source(
    area: Rect,
    title: String,
    entries: &Vec<Entry>,
    selected: Option<usize>,
    kit: &Kit,
) -> (r: Widget)
    ensures
        r@ == source_list(area, title@, entries@, selected, *kit),
{
    Widget::List {
        area,
        title,
        title_style: Style::fg(Color::DarkGray),
        border: Color::DarkGray,
        items: list_entries(&kit.looks, entries, 0),
        selected,
        highlight: Style::fg(Color::DarkGray),
        symbol: owned("  "),
    }
}

pub open spec fn operation(is_move: bool) -> Chars {
    if is_move {
        "Move"@
    } else {
        "Copy"@
    }
}

fn name_of_operation(is_move: bool) -> (r: &'static str)
    ensures
        r@ == operation(is_move),
{
    if is_move {
        "Move"
    } else {
        "Copy"
    }
}

/// A folder that can be picked.
pub open spec fn folder_row(looks: Looks, e: Entry) -> LineView {
    seq![
        span_of(looks.of(FileCategory::Folder).icon, Style::fg_spec(Color::Blue)),
        span_of(" "@, Style::plain_spec()),
        span_of(e.name@, Style::fg_spec(Color::Blue)),
    ]
}

/// The folders of a listing, as rows.
pub open spec fn folder_rows(looks: Looks, entries: Seq<Entry>) -> Seq<LineView> {
    Seq::new(folders(entries).len(), |i: int| folder_row(looks, folders(entries)[i]))
}

fn list_folders(looks: &Looks, entries: &Vec<Entry>) -> (r: Vec<Line>)
    ensures
        lines_view(r@) == folder_rows(*looks, entries@),
{
    let icon: &Look = looks.get(FileCategory::Folder);
    let mut out: Vec<Line> = no_lines();
    let mut i: usize = 0;
    assert(folder_rows(*looks, entries@.take(0)) =~= Seq::<LineView>::empty());
    while i < entries.len()
        invariant
            i <= entries@.len(),
            icon.icon@ == looks.of(FileCategory::Folder).icon,
            lines_view(out@) == folder_rows(*looks, entries@.take(i as int)),
        decreases entries@.len() - i,
    {
        let e: &Entry = &entries[i];
        let ghost seen = entries@.take(i as int);
        let ghost next = entries@.take(i + 1);
        assert(next.drop_last() =~= seen);
        assert(next.last() == *e);
        if e.kind == EntryKind::Folder {
            let mut v: Vec<Span> = no_spans();
            add_span(&mut v, span(icon.icon.as_str(), Style::fg(Color::Blue)));
            add_span(&mut v, span(" ", Style::plain()));
            add_span(&mut v, span(e.name.as_str(), Style::fg(Color::Blue)));
            assert(spans_view(v@) =~= folder_row(*looks, *e));
            add_line(&mut out, v);
            assert(folder_rows(*looks, next) =~= folder_rows(*looks, seen).push(
                folder_row(*looks, *e),
            ));
        } else {
            assert(folder_rows(*looks, next) =~= folder_rows(*looks, seen));
        }
        i += 1;
    }
    assert(entries@.take(i as int) =~= entries@);
    out
}

/// The title of the pane in which the destination is picked.
pub open spec fn picker_title(picker: PickerView, is_move: bool, frame: usize) -> Chars {
    if picker.loading {
        " "@ + operation(is_move) + " to: "@ + path_text(picker.breadcrumb) + (" "@ + spinner(frame)
            + " "@)
    } else {
        " "@ + operation(is_move) + " to: "@ + path_text(picker.breadcrumb) + " "@
    }
}

/// The pane in which the destination is picked.
pub open spec fn picker_pane(
    picker: PickerView,
    is_move: bool,
    frame: usize,
    vibrant: bool,
    area: Rect,
    kit: Kit,
) -> WidgetView {
    let colors = themed(vibrant, Color::Yellow, Color::Yellow);
    WidgetView::List {
        area,
        title: picker_title(picker, is_move, frame),
        title_style: Style::fg_spec(colors.1),
        border: colors.0,
        items: folder_rows(kit.looks, picker.entries),
        selected: cursor_in(picker.selected, folders(picker.entries).len()),
        highlight: highlight(vibrant),
        symbol: "\u{203a} "@,
    }
}

/// Draws the pane in which the destination is picked. It lists folders only.
pub fn draw_picker_right_pane(
    picker: &PickerState,
    is_move: bool,
    frame: usize,
    vibrant: bool,
    area: Rect,
    kit: &Kit,
) -> (r: Widget)
    ensures
        r@ == picker_pane(picker@, is_move, frame, vibrant, area, *kit),
{
    let op: &str = name_of_operation(is_move);
    let path: String = App::picker_path_display(picker);
    let tail: String = if picker.loading {
        cat3(" ", spinner_frame(frame), " ")
    } else {
        owned(" ")
    };
    let title: String = cat5(" ", op, " to: ", path.as_str(), tail.as_str());
    let items: Vec<Line> = list_folders(&kit.looks, &picker.entries);
    assert(items@.len() == lines_view(items@).len());
    let n: usize = items.len();
    let colors: Pair = themed_colors(vibrant, Color::Yellow);
    Widget::List {
        area,
        title,
        title_style: Style::fg(colors.1),
        border: colors.0,
        items,
        selected: list_cursor(picker.selected, n),
        highlight: highlight_style(vibrant),
        symbol: owned("\u{203a} "),
    }
}

/// The bar below a picker: what is going on, and the keys.
pub open spec fn picker_bar(what: Chars, pairs: HintsView) -> LineView {
    seq![
        span_of(what, Style::bold_spec(Color::White)),
        span_of("\u{2502} "@, Style::fg_spec(Color::DarkGray)),
    ] + help_spans(pairs)
}

fn build_picker_bar(what: String, pairs: &Hints) -> (r: Vec<Span>)
    ensures
        spans_view(r@) == picker_bar(what@, hints_view(pairs@)),
{
    let mut v: Vec<Span> = no_spans();
    add_span(&mut v, span_owned(what, Style::bold(Color::White)));
    add_span(&mut v, span("\u{2502} ", Style::fg(Color::DarkGray)));
    let ghost lead = spans_view(v@);
    add_spans(&mut v, styled_help_spans(pairs));
    assert(lead =~= seq![
        span_of(what@, Style::bold_spec(Color::White)),
        span_of("\u{2502} "@, Style::fg_spec(Color::DarkGray)),
    ]);
    v
}

/// Both panes of a picker and the bar below them.
pub open spec fn picker_panes(
    left: WidgetView,
    right: WidgetView,
    bar: Option<Rect>,
    line: LineView,
) -> SceneView {
    with_bar(seq![left, right], bar, line)
}

fn put_panes(left: Widget, right: Widget, bar: Option<Rect>, line: Vec<Span>) -> (r: Vec<Widget>)
    ensures
        widgets_view(r@) == picker_panes(left@, right@, bar, spans_view(line@)),
{
    let mut v: Vec<Widget> = no_widgets();
    add_widget(&mut v, left);
    add_widget(&mut v, right);
    assert(widgets_view(v@) =~= seq![left@, right@]);
    match bar {
        Some(b) => {
            add_widget(&mut v, bar_widget(b, line));
        },
        None => {},
    }
    v
}

impl AppView {
    #[verifier::opaque]
    pub open spec fn picker_scene(
        self,
        source: Entry,
        picker: PickerView,
        is_move: bool,
        panes: (Rect, Rect),
        bar: Option<Rect>,
        kit: Kit,
    ) -> SceneView {
        picker_panes(
            source_list(
                panes.0,
                " Source: "@ + path_text(self.breadcrumb) + " "@,
                self.entries,
                cursor_in(self.selected, self.entries.len()),
                kit,
            ),
            picker_pane(picker, is_move, self.spinner_idx, self.is_vibrant(), panes.1, kit),
            bar,
            picker_bar(
                " "@ + operation(is_move) + " '"@ + source.name@ + "' "@,
                mode_hints(self.input),
            ),
        )
    }

    #[verifier::opaque]
    pub open spec fn cart_picker_scene(
        self,
        picker: PickerView,
        is_move: bool,
        panes: (Rect, Rect),
        bar: Option<Rect>,
        kit: Kit,
    ) -> SceneView {
        picker_panes(
            source_list(
                panes.0,
                " Cart ("@ + decimal(self.cart.len()) + " items, "@ + size_text(
                    total_size(self.cart),
                ) + ") "@,
                self.cart,
                None,
                kit,
            ),
            picker_pane(picker, is_move, self.spinner_idx, self.is_vibrant(), panes.1, kit),
            bar,
            picker_bar(
                " "@ + operation(is_move) + " "@ + decimal(self.cart.len()) + " item(s) "@,
                mode_hints(self.input),
            ),
        )
    }
}

impl App {
    /// Draws the picker for one entry: where it comes from on the left, where it goes on the right.
    pub fn draw_picker(
        &self,
        source: &Entry,
        picker: &PickerState,
        is_move: bool,
        panes: (Rect, Rect),
        bar: Option<Rect>,
        kit: &Kit,
    ) -> (r: Vec<Widget>)
        ensures
            widgets_view(r@) == self@.picker_scene(*source, picker@, is_move, panes, bar, *kit),
    {
        reveal(AppView::picker_scene);
        let path: String = self.current_path_display();
        let left: Widget = draw_source(
            panes.0,
            cat3(" Source: ", path.as_str(), " "),
            &self.entries,
            list_cursor(self.selected, self.entries.len()),
            kit,
        );
        let right: Widget = draw_picker_right_pane(
            picker,
            is_move,
            self.spinner_idx,
            self.is_vibrant(),
            panes.1,
            kit,
        );
        let what: String = cat5(
            " ",
            name_of_operation(is_move),
            " '",
            source.name.as_str(),
            "' ",
        );
        put_panes(left, right, bar, build_picker_bar(what, &help_pairs(&self.input)))
    }

    /// Draws the picker for the cart.
    pub fn draw_cart_picker(
        &self,
        picker: &PickerState,
        is_move: bool,
        panes: (Rect, Rect),
        bar: Option<Rect>,
        kit: &Kit,
    ) -> (r: Vec<Widget>)
        ensures
            widgets_view(r@) == self@.cart_picker_scene(picker@, is_move, panes, bar, *kit),
    {
        reveal(AppView::cart_picker_scene);
        let count: String = dec(self.cart.len() as u64);
        let size: String = format_size(sum_sizes(&self.cart));
        let left: Widget = draw_source(
            panes.0,
            cat5(" Cart (", count.as_str(), " items, ", size.as_str(), ") "),
            &self.cart,
            None,
            kit,
        );
        let right: Widget = draw_picker_right_pane(
            picker,
            is_move,
            self.spinner_idx,
            self.is_vibrant(),
            panes.1,
            kit,
        );
        let what: String = cat5(
            " ",
            name_of_operation(is_move),
            " ",
            count.as_str(),
            " item(s) ",
        );
        put_panes(left, right, bar, build_picker_bar(what, &help_pairs(&self.input)))
    }
}

} // verus!
