//! What the host brings along for drawing, and the small pieces that several panels share.

use crate::app::{App, AppView};
use crate::geometry::{max_int, min_int, Rect};
use crate::model::{Entry, InputMode, ModeView};
use crate::scene::{Look, Looks, ThumbnailRenderMode};
use crate::style::{
    add_line, add_span, lines_view, no_lines, no_spans, span, span_of, spans_view, Color, Line,
    LineView, Span, Style,
};
use crate::text::{cat3, Chars};
use vstd::prelude::*;

verus! {

/// How full the drive is, as the help bar shows it.
#[derive(Debug)]
pub struct QuotaFigures {
    /// How many of the ten squares of the bar are filled.
    pub filled: usize,
    /// The share that is used, in percent.
    pub percent: String,
    pub color: Color,
}

/// What the host brings along for drawing.
#[derive(Debug)]
pub struct Kit {
    pub looks: Looks,
    pub thumbnails: ThumbnailRenderMode,
    /// The size of a cell in pixels, where the terminal can show pictures.
    pub font: Option<(u16, u16)>,
    /// The first row of the list in the dialog or page that is shown.
    pub offset: usize,
    /// The height of its overlay in percent.
    pub percent: u16,
    /// What stands below its rows where not all of them are shown.
    pub more: Vec<Line>,
    /// What stands in its place where it has no rows.
    pub empty: Vec<Line>,
    /// The first line of the settings that is shown.
    pub settings_offset: usize,
    pub quota: Option<QuotaFigures>,
}

/// The pictures of the spinner.
pub open spec fn spinner(i: usize) -> Chars {
    if i == 0 {
        "\u{280b}"@
    } else if i == 1 {
        "\u{2819}"@
    } else if i == 2 {
        "\u{2839}"@
    } else if i == 3 {
        "\u{2838}"@
    } else if i == 4 {
        "\u{283c}"@
    } else if i == 5 {
        "\u{2834}"@
    } else if i == 6 {
        "\u{2826}"@
    } else if i == 7 {
        "\u{2827}"@
    } else if i == 8 {
        "\u{2807}"@
    } else {
        "\u{280f}"@
    }
}

pub fn spinner_frame(i: usize) -> (r: &'static str)
    ensures
        r@ == spinner(i),
{
    match i {
        0 => "\u{280b}",
        1 => "\u{2819}",
        2 => "\u{2839}",
        3 => "\u{2838}",
        4 => "\u{283c}",
        5 => "\u{2834}",
        6 => "\u{2826}",
        7 => "\u{2827}",
        8 => "\u{2807}",
        _ => "\u{280f}",
    }
}

/// An entry in a list: its icon and its name.
pub open spec fn entry_item(looks: Looks, e: Entry) -> LineView {
    let look = looks.of(e.category);
    seq![
        span_of(look.icon, Style::fg_spec(look.color)),
        span_of(" "@, Style::plain_spec()),
        span_of(e.name@, Style::fg_spec(look.color)),
    ]
}

/// The entries from index `from` on, as a list.
pub open spec fn entry_items(looks: Looks, entries: Seq<Entry>, from: int) -> Seq<LineView> {
    Seq::new((entries.len() - from) as nat, |i: int| entry_item(looks, entries[from + i]))
}

pub fn list_entries(looks: &Looks, entries: &Vec<Entry>, from: usize) -> (r: Vec<Line>)
    requires
        from <= entries@.len(),
    ensures
        lines_view(r@) == entry_items(*looks, entries@, from as int),
{
    let mut out: Vec<Line> = no_lines();
    let mut i: usize = from;
    let ghost all = entry_items(*looks, entries@, from as int);
    assert(all.take(0) =~= Seq::empty());
    while i < entries.len()
        invariant
            from <= i <= entries@.len(),
            all == entry_items(*looks, entries@, from as int),
            lines_view(out@) == all.take(i - from),
        decreases entries@.len() - i,
    {
        let e: &Entry = &entries[i];
        let look: &Look = looks.get(e.category);
        let mut spans: Vec<Span> = no_spans();
        add_span(&mut spans, span(look.icon.as_str(), Style::fg(look.color)));
        add_span(&mut spans, span(" ", Style::plain()));
        add_span(&mut spans, span(e.name.as_str(), Style::fg(look.color)));
        assert(spans_view(spans@) =~= all[i - from]);
        add_line(&mut out, spans);
        let ghost k = i - from;
        assert(all.take(k + 1) =~= all.take(k).push(all[k]));
        i += 1;
        assert(i - from == k + 1);
    }
    assert(all.take(i - from) =~= all);
    out
}

/// The cell inside of the border at the upper left, with what is left inside of the border.
pub open spec fn inside(area: Rect) -> Rect {
    Rect {
        x: min_int(area.x + 1, u16::MAX as int) as u16,
        y: min_int(area.y + 1, u16::MAX as int) as u16,
        width: max_int(area.width - 2, 0) as u16,
        height: max_int(area.height - 2, 0) as u16,
    }
}

pub fn inner_rect(area: Rect) -> (r: Rect)
    ensures
        r == inside(area),
{
    Rect {
        x: area.x.saturating_add(1),
        y: area.y.saturating_add(1),
        width: area.width.saturating_sub(2),
        height: area.height.saturating_sub(2),
    }
}

/// The entry that a list of `len` entries has its cursor on.
pub open spec fn cursor_in(selected: usize, len: nat) -> Option<usize> {
    if len == 0 {
        None
    } else {
        Some(min_int(selected as int, len - 1) as usize)
    }
}

pub fn list_cursor(selected: usize, len: usize) -> (r: Option<usize>)
    ensures
        r == cursor_in(selected, len as nat),
{
    if len == 0 {
        None
    } else if selected < len - 1 {
        Some(selected)
    } else {
        Some(len - 1)
    }
}

/// Whether a mode covers the panes with an overlay.
pub open spec fn covers_panes(mode: ModeView, downloads_expanded: bool) -> bool {
    match mode {
        ModeView::DownloadView => !downloads_expanded,
        ModeView::Normal => false,
        ModeView::Login { .. } => false,
        ModeView::MovePicker { .. } => false,
        ModeView::CopyPicker { .. } => false,
        _ => true,
    }
}

/// A text with a blank on each side.
pub open spec fn spaced(t: Chars) -> Chars {
    " "@ + t + " "@
}

pub fn space_around(t: &str) -> (r: String)
    ensures
        r@ == spaced(t@),
{
    cat3(" ", t, " ")
}

/// A prefix that shows whether a row is the one with the cursor.
pub open spec fn row_prefix(selected: bool) -> Chars {
    if selected {
        " \u{203a} "@
    } else {
        "   "@
    }
}

pub fn prefix_of_row(selected: bool) -> (r: &'static str)
    ensures
        r@ == row_prefix(selected),
{
    if selected {
        " \u{203a} "
    } else {
        "   "
    }
}

/// The style of a row, by whether it is the one with the cursor.
pub open spec fn row_style(selected: bool) -> Style {
    if selected {
        Style::bold_spec(Color::Cyan)
    } else {
        Style::fg_spec(Color::Reset)
    }
}

pub fn style_of_row(selected: bool) -> (r: Style)
    ensures
        r == row_style(selected),
{
    if selected {
        Style::bold(Color::Cyan)
    } else {
        Style::fg(Color::Reset)
    }
}

impl AppView {
    pub open spec fn is_vibrant(self) -> bool {
        self.config.color_scheme == self.options.scheme_vibrant
    }

    /// Whether an overlay may cover the preview, so that pictures must not be drawn there.
    pub open spec fn has_overlay(self) -> bool {
        covers_panes(self.input, self.downloads_expanded)
    }
}

impl App {
    pub fn is_vibrant(&self) -> (r: bool)
        ensures
            r == self@.is_vibrant(),
    {
        self.config.color_scheme == self.options.scheme_vibrant
    }

    pub fn has_overlay(&self) -> (r: bool)
        ensures
            r == self@.has_overlay(),
    {
        match &self.input {
            InputMode::DownloadView => !self.downloads_expanded,
            InputMode::Normal => false,
            InputMode::Login { .. } => false,
            InputMode::MovePicker { .. } => false,
            InputMode::CopyPicker { .. } => false,
            _ => true,
        }
    }
}

} // verus!
