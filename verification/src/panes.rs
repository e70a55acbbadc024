//! The panes of the main screen, the bar below them and what floats above.

use crate::app::{path_text, path_upto, App, AppView};
use crate::fields::{contains_id, dim_yellow, dimmed_yellow, holds_id};
use crate::geometry::{max_int, min_int, Rect};
use crate::help_bar::{help_pairs, mode_hints};
use crate::help_sheet::{take_window, window};
use crate::kit::{
    cursor_in, entry_items, list_cursor, list_entries, space_around, spaced, spinner, spinner_frame,
    Kit, QuotaFigures,
};
use crate::media::{format_size, size_text};
use crate::model::{Entry, EntryKind, StatusKind, StatusMessage, StatusView};
use crate::mouse::{room, scroll_room};
use crate::scene::{
    add_spans, add_widget, by_scheme, fitting_hints, help_spans, highlight, highlight_style,
    hints_view, lengths, lies_in, no_widgets, on_cleared, overlay_of, overlay_panel, overlay_scene,
    panel, panel_of, scheme, split, styled_help_spans_fit, widgets_view, Axis, Hints, HintsView,
    Look, Looks, Pair, Rule, SceneView, Widget, WidgetView,
};
use crate::style::{
    add1, add_blank, add_line, add_span, blank_line, line1, lines_view, no_lines, no_spans, span,
    span_of, span_owned, spans_view, Color, Line, LineView, Span, SpanView, Style,
};
use crate::text::{
    cat2, cat3, cat5, chars_of, dec, decimal, owned, repeat_char, repeated, texts, Chars,
};
use crate::width::{pad_to_width, padded, text_columns, text_width, wrap_logs, wrapped_all};
use vstd::prelude::*;

verus! {

pub open spec fn grey_title() -> Style {
    Style::fg_spec(Color::DarkGray)
}

/// The pane with the parent folder.
pub open spec fn parent_scene(
    area: Rect,
    crumbs: Seq<(Chars, Chars)>,
    entries: Seq<Entry>,
    selected: usize,
    kit: Kit,
) -> SceneView {
    if crumbs.len() == 0 {
        seq![panel_of(area, " / "@, grey_title(), Color::DarkGray, Seq::empty())]
    } else {
        seq![
            WidgetView::List {
                area,
                title: spaced(path_text(crumbs.take(crumbs.len() - 1))),
                title_style: grey_title(),
                border: Color::DarkGray,
                items: entry_items(kit.looks, entries, 0),
                selected: cursor_in(selected, entries.len()),
                highlight: Style::bold_spec(Color::White),
                symbol: ""@,
            },
        ]
    }
}

/// An entry of the main pane: icon, markers, name and size.
pub open spec fn main_item(looks: Looks, e: Entry, in_cart: bool) -> LineView {
    let look = looks.of(e.category);
    seq![
        span_of(look.icon, Style::fg_spec(look.color)),
        span_of(" "@, Style::plain_spec()),
        span_of(
            if e.starred {
                "\u{2605} "@
            } else {
                ""@
            },
            Style::fg_spec(Color::Yellow),
        ),
        span_of(
            if in_cart {
                "\u{2606} "@
            } else {
                ""@
            },
            dim_yellow(),
        ),
        span_of(e.name@, Style::fg_spec(look.color)),
        span_of(
            if e.kind == EntryKind::Folder {
                ""@
            } else {
                "  "@ + size_text(e.size as int)
            },
            Style::fg_spec(Color::DarkGray),
        ),
    ]
}

pub open spec fn main_items(looks: Looks, entries: Seq<Entry>, cart: Seq<Entry>) -> Seq<LineView> {
    Seq::new(
        entries.len(),
        |i: int| main_item(looks, entries[i], holds_id(cart, entries[i].id@)),
    )
}

fn build_main_item(looks: &Looks, e: &Entry, in_cart: bool) -> (r: Vec<Span>)
    ensures
        spans_view(r@) == main_item(*looks, *e, in_cart),
{
    let look: &Look = looks.get(e.category);
    let size: String = if e.kind == EntryKind::Folder {
        owned("")
    } else {
        cat2("  ", format_size(e.size).as_str())
    };
    let mut v: Vec<Span> = no_spans();
    add_span(&mut v, span(look.icon.as_str(), Style::fg(look.color)));
    add_span(&mut v, span(" ", Style::plain()));
    add_span(
        &mut v,
        span(
            if e.starred {
                "\u{2605} "
            } else {
                ""
            },
            Style::fg(Color::Yellow),
        ),
    );
    add_span(
        &mut v,
        span(
            if in_cart {
                "\u{2606} "
            } else {
                ""
            },
            dimmed_yellow(),
        ),
    );
    add_span(&mut v, span(e.name.as_str(), Style::fg(look.color)));
    add_span(&mut v, span_owned(size, Style::fg(Color::DarkGray)));
    v
}

fn build_main_items(looks: &Looks, entries: &Vec<Entry>, cart: &Vec<Entry>) -> (r: Vec<Line>)
    ensures
        lines_view(r@) == main_items(*looks, entries@, cart@),
{
    let mut out: Vec<Line> = no_lines();
    let mut i: usize = 0;
    let ghost all = main_items(*looks, entries@, cart@);
    assert(all.take(0) =~= Seq::empty());
    while i < entries.len()
        invariant
            i <= entries@.len(),
            all == main_items(*looks, entries@, cart@),
            lines_view(out@) == all.take(i as int),
        decreases entries@.len() - i,
    {
        let e: &Entry = &entries[i];
        let in_cart: bool = contains_id(cart, e.id.as_str());
        add_line(&mut out, build_main_item(looks, e, in_cart));
        assert(all.take(i + 1) =~= all.take(i as int).push(all[i as int]));
        i += 1;
    }
    assert(all.take(i as int) =~= all);
    out
}

/// A line of plain text.
pub open spec fn raw_line(t: Chars) -> LineView {
    if t.len() == 0 {
        blank_line()
    } else {
        line1(span_of(t, Style::plain_spec()))
    }
}

pub open spec fn raw_lines(v: Seq<Chars>) -> Seq<LineView> {
    Seq::new(v.len(), |i: int| raw_line(v[i]))
}

fn build_raw_lines(v: &Vec<String>) -> (r: Vec<Line>)
    ensures
        lines_view(r@) == raw_lines(texts(v@)),
{
    let mut out: Vec<Line> = no_lines();
    let mut i: usize = 0;
    let ghost all = raw_lines(texts(v@));
    assert(all.take(0) =~= Seq::empty());
    while i < v.len()
        invariant
            i <= v@.len(),
            all == raw_lines(texts(v@)),
            lines_view(out@) == all.take(i as int),
        decreases v@.len() - i,
    {
        let s: &String = &v[i];
        if s.as_str().is_empty() {
            add_blank(&mut out);
        } else {
            add1(&mut out, span(s.as_str(), Style::plain()));
        }
        assert(all.take(i + 1) =~= all.take(i as int).push(all[i as int]));
        i += 1;
    }
    assert(all.take(i as int) =~= all);
    out
}

/// The title of the logs: how many messages there are, and of how many lines while they are
/// scrolled.
pub open spec fn logs_title(count: nat, lines: nat, scrolled: bool) -> Chars {
    if scrolled {
        "Logs ["@ + decimal(count) + "/"@ + decimal(lines) + "] (l to close)"@
    } else {
        "Logs ["@ + decimal(count) + "] (l to close)"@
    }
}

/// Which line of the logs comes first.
pub open spec fn logs_from(at: Option<usize>, max: int) -> int {
    match at {
        None => max,
        Some(y) => min_int(y as int, max),
    }
}

/// Title and colour of a status message.
pub open spec fn status_look(kind: StatusKind) -> (Chars, Color) {
    match kind {
        StatusKind::Info => ("Status"@, Color::Green),
        StatusKind::Warning => ("Notice"@, Color::Yellow),
        StatusKind::Error => ("Error"@, Color::Red),
    }
}

/// The width of the status message: that of its text with a border and a margin, between 12
/// columns and what there is.
pub open spec fn toast_width(text: Chars, main: Rect) -> int {
    let max = main.width - 4;
    let wanted = min_int(text_columns(text) as int, max) + 4;
    min_int(max_int(wanted, 12), max)
}

/// Where the status message stands: at the bottom, in the middle.
pub open spec fn toast_area(text: Chars, main: Rect) -> Rect {
    let w = toast_width(text, main);
    Rect {
        x: min_int(main.x + (main.width - w) / 2, u16::MAX as int) as u16,
        y: min_int(main.y + main.height - 3, u16::MAX as int) as u16,
        width: w as u16,
        height: 3,
    }
}

/// The status message, as long as it lasts and where there is room.
pub open spec fn toast_scene(status: Option<StatusView>, now: u64, main: Rect, screen: Rect) -> SceneView {
    match status {
        Some(s) => if s.expires_at >= now && main.width >= 16 && main.height >= 4 {
            let area = toast_area(s.text, main);
            let look = status_look(s.kind);
            overlay_scene(
                area,
                screen,
                overlay_of(
                    area,
                    look.0,
                    (look.1, look.1),
                    seq![
                        line1(
                            span_of(
                                padded(s.text, max_int(area.width - 4, 0) as nat),
                                Style::fg_spec(look.1),
                            ),
                        ),
                    ],
                ),
            )
        } else {
            Seq::empty()
        },
        None => Seq::empty(),
    }
}

fn place_toast(text: &str, main: Rect) -> (r: Rect)
    requires
        main.width >= 16,
        main.height >= 4,
    ensures
        r == toast_area(text@, main),
{
    let max: u16 = main.width - 4;
    let tw: usize = text_width(text);
    let t: u16 = if tw < max as usize {
        tw as u16
    } else {
        max
    };
    let wanted: u32 = t as u32 + 4;
    let least: u32 = if wanted > 12 {
        wanted
    } else {
        12
    };
    let w: u16 = if least < max as u32 {
        least as u16
    } else {
        max
    };
    Rect {
        x: main.x.saturating_add((main.width - w) / 2),
        y: main.y.saturating_add(main.height - 3),
        width: w,
        height: 3,
    }
}

fn look_of_status(kind: StatusKind) -> (r: (&'static str, Color))
    ensures
        r.0@ == status_look(kind).0,
        r.1 == status_look(kind).1,
{
    match kind {
        StatusKind::Info => ("Status", Color::Green),
        StatusKind::Warning => ("Notice", Color::Yellow),
        StatusKind::Error => ("Error", Color::Red),
    }
}

/// Draws the status message, as long as it lasts and where there is room.
pub fn draw_status_toast(
    status: &Option<StatusMessage>,
    now: u64,
    main: Rect,
    screen: Rect,
) -> (r: Vec<Widget>)
    ensures
        widgets_view(r@) == toast_scene(crate::model::opt_status(*status), now, main, screen),
{
    match status {
        Some(s) => {
            if s.expires_at >= now && main.width >= 16 && main.height >= 4 {
                let area: Rect = place_toast(s.text.as_str(), main);
                let (title, color) = look_of_status(s.kind);
                let mut lines: Vec<Line> = no_lines();
                add1(
                    &mut lines,
                    span_owned(
                        pad_to_width(s.text.as_str(), area.width.saturating_sub(4) as usize),
                        Style::fg(color),
                    ),
                );
                return on_cleared(
                    area,
                    screen,
                    overlay_panel(area, title, (color, color), lines),
                );
            }
            no_widgets()
        },
        None => no_widgets(),
    }
}

/// A bar that separates the parts of the help bar.
pub open spec fn bar_mark() -> SpanView {
    span_of(" \u{2502} "@, Style::fg_spec(Color::DarkGray))
}

/// The note that there is a newer version.
pub open spec fn update_text(version: Chars) -> Chars {
    " \u{2191} v"@ + version + " "@
}

pub open spec fn update_spans(version: Option<Chars>) -> LineView {
    match version {
        Some(v) => seq![bar_mark(), span_of(update_text(v), Style::bold_spec(Color::Yellow))],
        None => Seq::empty(),
    }
}

pub open spec fn update_columns(version: Option<Chars>) -> int {
    match version {
        Some(v) => text_columns(update_text(v)) % 0x10000 + 3,
        None => 0,
    }
}

fn build_update(version: &Option<String>) -> (r: (Vec<Span>, usize))
    ensures
        spans_view(r.0@) == update_spans(crate::text::opt_text(*version)),
        r.1 == update_columns(crate::text::opt_text(*version)),
        r.1 < 0x20000,
{
    let mut v: Vec<Span> = no_spans();
    match version {
        Some(s) => {
            let text: String = cat3(" \u{2191} v", s.as_str(), " ");
            let w: usize = text_width(text.as_str()) % 0x10000 + 3;
            add_span(&mut v, span(" \u{2502} ", Style::fg(Color::DarkGray)));
            add_span(&mut v, span_owned(text, Style::bold(Color::Yellow)));
            (v, w)
        },
        None => (v, 0),
    }
}

/// What the help bar tells of the quota.
pub struct QuotaView {
    pub used: Option<u64>,
    pub limit: Option<u64>,
    pub as_percent: bool,
}

/// What is used of the drive, and of how much.
pub open spec fn quota_head(used: u64, limit: u64) -> LineView {
    let grey = Style::fg_spec(Color::DarkGray);
    seq![
        bar_mark(),
        span_of(size_text(used as int), Style::bold_spec(Color::White)),
        span_of(" / "@, grey),
        span_of(size_text(limit as int), grey),
    ]
}

/// The squares that are left empty.
pub open spec fn squares_left(filled: usize) -> nat {
    if filled < 10 {
        (10 - filled) as nat
    } else {
        0
    }
}

/// The quota as the help bar shows it: squares or a percentage, and only what is used where there is
/// no limit.
pub open spec fn quota_spans(q: QuotaView, figures: Option<QuotaFigures>) -> LineView {
    match q.used {
        Some(used) => match q.limit {
            Some(limit) => match figures {
                Some(f) => if limit == 0 {
                    Seq::empty()
                } else if q.as_percent {
                    quota_head(used, limit).push(span_of(" "@, Style::plain_spec())).push(
                        span_of(f.percent@, Style::bold_spec(f.color)),
                    ).push(span_of(" "@, Style::plain_spec()))
                } else {
                    quota_head(used, limit).push(span_of("  "@, Style::plain_spec())).push(
                        span_of(repeated('\u{25aa}', f.filled as nat), Style::fg_spec(f.color)),
                    ).push(
                        span_of(
                            repeated('\u{25ab}', squares_left(f.filled)),
                            Style::fg_spec(Color::DarkGray),
                        ),
                    ).push(span_of(" "@, Style::plain_spec()))
                },
                None => Seq::empty(),
            },
            None => seq![
                bar_mark(),
                span_of(size_text(used as int), Style::bold_spec(Color::White)),
                span_of(" used "@, Style::fg_spec(Color::DarkGray)),
            ],
        },
        None => Seq::empty(),
    }
}

/// The columns that the quota takes.
pub open spec fn quota_columns(q: QuotaView, figures: Option<QuotaFigures>) -> nat {
    match q.used {
        Some(used) => match q.limit {
            Some(limit) => match figures {
                Some(f) => if limit == 0 {
                    0
                } else {
                    (size_text(used as int).len() + size_text(limit as int).len() + (
                    if q.as_percent {
                        8 + f.percent@.len()
                    } else {
                        19
                    })) % 0x10000
                },
                None => 0,
            },
            None => (size_text(used as int).len() + 9) % 0x10000,
        },
        None => 0,
    }
}

fn length(s: &String) -> (r: usize)
    ensures
        r == s@.len(),
{
    let v: Vec<char> = chars_of(s.as_str());
    v.len()
}

fn modulo(a: usize, b: usize, c: usize, d: usize) -> (r: usize)
    ensures
        r == (a + b + c + d) % 0x10000,
{
    ((a as u128 + b as u128 + c as u128 + d as u128) % 0x10000) as usize
}

fn build_quota_head(used: String, limit: String) -> (r: Vec<Span>)
    ensures
        spans_view(r@) == seq![
            bar_mark(),
            span_of(used@, Style::bold_spec(Color::White)),
            span_of(" / "@, Style::fg_spec(Color::DarkGray)),
            span_of(limit@, Style::fg_spec(Color::DarkGray)),
        ],
{
    let mut v: Vec<Span> = no_spans();
    add_span(&mut v, span(" \u{2502} ", Style::fg(Color::DarkGray)));
    add_span(&mut v, span_owned(used, Style::bold(Color::White)));
    add_span(&mut v, span(" / ", Style::fg(Color::DarkGray)));
    add_span(&mut v, span_owned(limit, Style::fg(Color::DarkGray)));
    v
}

fn build_quota_of_limit(used: u64, limit: u64, as_percent: bool, f: &QuotaFigures) -> (r: (
    Vec<Span>,
    usize,
))
    requires
        limit > 0,
    ensures
        spans_view(r.0@) == quota_spans(
            QuotaView { used: Some(used), limit: Some(limit), as_percent },
            Some(*f),
        ),
        r.1 == quota_columns(
            QuotaView { used: Some(used), limit: Some(limit), as_percent },
            Some(*f),
        ),
        r.1 < 0x10000,
{
    let u: String = format_size(used);
    let l: String = format_size(limit);
    let un: usize = length(&u);
    let ln: usize = length(&l);
    let mut v: Vec<Span> = build_quota_head(u, l);
    if as_percent {
        let pn: usize = length(&f.percent);
        let w: usize = modulo(un, ln, 8, pn);
        add_span(&mut v, span(" ", Style::plain()));
        add_span(&mut v, span(f.percent.as_str(), Style::bold(f.color)));
        add_span(&mut v, span(" ", Style::plain()));
        return (v, w);
    }
    let w: usize = modulo(un, ln, 19, 0);
    let left: usize = if f.filled < 10 {
        10 - f.filled
    } else {
        0
    };
    add_span(&mut v, span("  ", Style::plain()));
    add_span(
        &mut v,
        span_owned(repeat_char('\u{25aa}', f.filled), Style::fg(f.color)),
    );
    add_span(
        &mut v,
        span_owned(repeat_char('\u{25ab}', left), Style::fg(Color::DarkGray)),
    );
    add_span(&mut v, span(" ", Style::plain()));
    (v, w)
}

fn build_quota_used(used: u64) -> (r: (Vec<Span>, usize))
    ensures
        spans_view(r.0@) == quota_spans(
            QuotaView { used: Some(used), limit: None, as_percent: false },
            None,
        ),
        r.1 == (size_text(used as int).len() + 9) % 0x10000,
{
    let u: String = format_size(used);
    let n: usize = length(&u);
    let mut v: Vec<Span> = no_spans();
    add_span(&mut v, span(" \u{2502} ", Style::fg(Color::DarkGray)));
    add_span(&mut v, span_owned(u, Style::bold(Color::White)));
    add_span(&mut v, span(" used ", Style::fg(Color::DarkGray)));
    (v, modulo(n, 9, 0, 0))
}

fn build_quota(
    used: Option<u64>,
    limit: Option<u64>,
    as_percent: bool,
    figures: &Option<QuotaFigures>,
) -> (r: (Vec<Span>, usize))
    ensures
        spans_view(r.0@) == quota_spans(QuotaView { used, limit, as_percent }, *figures),
        r.1 == quota_columns(QuotaView { used, limit, as_percent }, *figures),
        r.1 < 0x10000,
{
    match used {
        Some(u) => match limit {
            Some(l) => match figures {
                Some(f) => if l == 0 {
                    (no_spans(), 0)
                } else {
                    build_quota_of_limit(u, l, as_percent, f)
                },
                None => (no_spans(), 0),
            },
            None => build_quota_used(u),
        },
        None => (no_spans(), 0),
    }
}

/// The hints of the help bar in `width` columns.
pub open spec fn bar_hints(pairs: HintsView, width: int) -> LineView {
    seq![span_of(" "@, Style::plain_spec())] + help_spans(
        fitting_hints(pairs, max_int(width - 1, 0)),
    )
}

pub fn build_bar_hints(pairs: &Hints, width: u16) -> (r: Vec<Span>)
    ensures
        spans_view(r@) == bar_hints(hints_view(pairs@), width as int),
{
    let mut v: Vec<Span> = no_spans();
    add_span(&mut v, span(" ", Style::plain()));
    add_spans(&mut v, styled_help_spans_fit(pairs, (width as usize).saturating_sub(1)));
    v
}

pub open spec fn bar_text(area: Rect, line: LineView) -> WidgetView {
    WidgetView::Text { area, lines: seq![line] }
}

pub fn bar_widget(area: Rect, spans: Vec<Span>) -> (r: Widget)
    ensures
        r@ == bar_text(area, spans_view(spans@)),
{
    let mut lines: Vec<Line> = no_lines();
    add_line(&mut lines, spans);
    Widget::Text { area, lines }
}

/// How the help bar is divided: the hints on the left, and what stands on the right.
pub open spec fn bar_rules(bar: Rect, right: int) -> Seq<Rule> {
    let r = min_int(right, max_int(bar.width - 4, 0));
    seq![Rule::Length((bar.width - r) as u16), Rule::Length(r as u16)]
}

impl AppView {
    pub open spec fn parent_pane(self, area: Rect, kit: Kit) -> SceneView {
        parent_scene(area, self.breadcrumb, self.parent_entries, self.parent_selected, kit)
    }

    pub open spec fn current_title(self) -> Chars {
        if self.loading {
            " "@ + spinner(self.spinner_idx) + " "@ + path_text(self.breadcrumb) + " "@
        } else {
            spaced(path_text(self.breadcrumb))
        }
    }

    /// The pane with the current folder.
    pub open spec fn current_pane(self, area: Rect, kit: Kit) -> SceneView {
        let colors = scheme(
            self.is_vibrant(),
            (Color::LightBlue, Color::LightGreen),
            (Color::Cyan, Color::Green),
        );
        seq![
            WidgetView::List {
                area,
                title: self.current_title(),
                title_style: Style::fg_spec(colors.1),
                border: colors.0,
                items: main_items(kit.looks, self.entries, self.cart),
                selected: cursor_in(self.selected, self.entries.len()),
                highlight: highlight(self.is_vibrant()),
                symbol: "\u{203a} "@,
            },
        ]
    }

    /// The logs, from where they are scrolled to.
    pub open spec fn logs_scene(self, area: Rect, screen: Rect) -> SceneView {
        let all = wrapped_all(self.logs, max_int(area.width - 2, 1) as nat);
        let max = scroll_room(all.len(), area.height);
        let rows = max_int(area.height - 2, 0);
        overlay_scene(
            area,
            screen,
            overlay_of(
                area,
                logs_title(self.logs.len(), all.len(), self.logs_scroll is Some),
                scheme(
                    self.is_vibrant(),
                    (Color::Magenta, Color::LightMagenta),
                    (Color::Cyan, Color::Green),
                ),
                window(raw_lines(all), logs_from(self.logs_scroll, max), rows),
            ),
        )
    }

    /// The newer version that is to be shown.
    pub open spec fn shown_update(self) -> Option<Chars> {
        if self.config.update_check == self.options.updates_notify {
            self.update_available
        } else {
            None
        }
    }

    pub open spec fn quota(self) -> QuotaView {
        QuotaView {
            used: self.quota_used,
            limit: self.quota_limit,
            as_percent: self.config.quota_bar_style == self.options.quota_as_percent,
        }
    }

    /// The columns of what stands on the right of the help bar.
    /// The areas of the two parts of the help bar.
    pub open spec fn bar_areas(self, bar: Rect, kit: Kit) -> (Rect, Rect) {
        let r = min_int(self.bar_right_columns(kit), max_int(bar.width - 4, 0));
        (
            Rect { width: (bar.width - r) as u16, ..bar },
            Rect { x: (bar.x + bar.width - r) as u16, width: r as u16, ..bar },
        )
    }

    pub open spec fn bar_right_columns(self, kit: Kit) -> int {
        update_columns(self.shown_update()) + quota_columns(self.quota(), kit.quota)
    }

    pub open spec fn bar_right(self, kit: Kit) -> LineView {
        update_spans(self.shown_update()) + quota_spans(self.quota(), kit.quota)
    }

    /// The help bar. `parts` divide it where something stands on its right.
    pub open spec fn bar_scene(self, bar: Rect, parts: (Rect, Rect), kit: Kit) -> SceneView {
        let pairs = mode_hints(self.input);
        let right = min_int(self.bar_right_columns(kit), max_int(bar.width - 4, 0));
        if self.bar_right_columns(kit) > 0 {
            seq![
                bar_text(parts.0, bar_hints(pairs, bar.width - right)),
                bar_text(parts.1, self.bar_right(kit)),
            ]
        } else {
            seq![bar_text(bar, bar_hints(pairs, bar.width as int))]
        }
    }
}

impl App {
    pub fn draw_parent_pane(&self, area: Rect, kit: &Kit) -> (r: Vec<Widget>)
        ensures
            widgets_view(r@) == self@.parent_pane(area, *kit),
    {
        let mut v: Vec<Widget> = no_widgets();
        if self.breadcrumb.len() == 0 {
            add_widget(
                &mut v,
                panel(
                    area,
                    owned(" / "),
                    Style::fg(Color::DarkGray),
                    Color::DarkGray,
                    no_lines(),
                ),
            );
            return v;
        }
        let path: String = path_upto(&self.breadcrumb, self.breadcrumb.len() - 1);
        add_widget(
            &mut v,
            Widget::List {
                area,
                title: space_around(path.as_str()),
                title_style: Style::fg(Color::DarkGray),
                border: Color::DarkGray,
                items: list_entries(&kit.looks, &self.parent_entries, 0),
                selected: list_cursor(self.parent_selected, self.parent_entries.len()),
                highlight: Style::bold(Color::White),
                symbol: owned(""),
            },
        );
        v
    }

    fn title_current(&self) -> (r: String)
        ensures
            r@ == self@.current_title(),
    {
        let path: String = self.current_path_display();
        if self.loading {
            cat5(" ", spinner_frame(self.spinner_idx), " ", path.as_str(), " ")
        } else {
            space_around(path.as_str())
        }
    }

    pub fn draw_current_pane(&self, area: Rect, kit: &Kit) -> (r: Vec<Widget>)
        ensures
            widgets_view(r@) == self@.current_pane(area, *kit),
    {
        let colors: Pair = by_scheme(
            self.is_vibrant(),
            (Color::LightBlue, Color::LightGreen),
            (Color::Cyan, Color::Green),
        );
        let mut v: Vec<Widget> = no_widgets();
        add_widget(
            &mut v,
            Widget::List {
                area,
                title: self.title_current(),
                title_style: Style::fg(colors.1),
                border: colors.0,
                items: build_main_items(&kit.looks, &self.entries, &self.cart),
                selected: list_cursor(self.selected, self.entries.len()),
                highlight: highlight_style(self.is_vibrant()),
                symbol: owned("\u{203a} "),
            },
        );
        v
    }

    pub fn draw_log_overlay(&self, area: Rect, screen: Rect) -> (r: Vec<Widget>)
        ensures
            widgets_view(r@) == self@.logs_scene(area, screen),
    {
        let inner: u16 = area.width.saturating_sub(2);
        let width: usize = if inner < 1 {
            1
        } else {
            inner as usize
        };
        let all: Vec<String> = wrap_logs(&self.logs, width);
        assert(all@.len() == texts(all@).len());
        let max: usize = room(all.len(), area.height);
        let from: usize = match self.logs_scroll {
            None => max,
            Some(y) => if y < max {
                y
            } else {
                max
            },
        };
        let lines: Vec<Line> = build_raw_lines(&all);
        let seen: Vec<Line> = take_window(&lines, from, area.height.saturating_sub(2) as usize);
        let count: String = dec(self.logs.len() as u64);
        let title: String = if self.logs_scroll.is_some() {
            cat5(
                "Logs [",
                count.as_str(),
                "/",
                dec(all.len() as u64).as_str(),
                "] (l to close)",
            )
        } else {
            cat3("Logs [", count.as_str(), "] (l to close)")
        };
        let colors: Pair = by_scheme(
            self.is_vibrant(),
            (Color::Magenta, Color::LightMagenta),
            (Color::Cyan, Color::Green),
        );
        on_cleared(area, screen, overlay_panel(area, title.as_str(), colors, seen))
    }

    fn build_right(&self, kit: &Kit) -> (r: (Vec<Span>, usize))
        ensures
            spans_view(r.0@) == self@.bar_right(*kit),
            r.1 == self@.bar_right_columns(*kit),
    {
        let none: Option<String> = None;
        let shown: &Option<String> = if self.config.update_check == self.options.updates_notify {
            &self.update_available
        } else {
            &none
        };
        let (mut spans, w) = build_update(shown);
        let (quota, qw) = build_quota(
            self.quota_used,
            self.quota_limit,
            self.config.quota_bar_style == self.options.quota_as_percent,
            &kit.quota,
        );
        add_spans(&mut spans, quota);
        (spans, w + qw)
    }

    pub(crate) fn bar_parts(&self, bar: Rect, kit: &Kit) -> (r: (Rect, Rect))
        ensures
            bar.x + bar.width <= u16::MAX ==> r == self@.bar_areas(bar, *kit),
            lies_in(r.0, bar) && r.0.y == bar.y && r.0.height == bar.height,
            lies_in(r.1, bar) && r.1.y == bar.y && r.1.height == bar.height,
    {
        let (_spans, right) = self.build_right(kit);
        let rules: Vec<Rule> = bar_split(bar, right);
        let parts: Vec<Rect> = split(Axis::Horizontal, &rules, bar);
        proof {
            reveal_with_fuel(lengths, 3);
        }
        (parts[0], parts[1])
    }

    pub fn draw_help_bar(&self, bar: Rect, parts: (Rect, Rect), kit: &Kit) -> (r: Vec<Widget>)
        ensures
            widgets_view(r@) == self@.bar_scene(bar, parts, *kit),
    {
        let pairs: Hints = help_pairs(&self.input);
        let (spans, columns) = self.build_right(kit);
        let most: u16 = bar.width.saturating_sub(4);
        let right: u16 = if columns < most as usize {
            columns as u16
        } else {
            most
        };
        let mut v: Vec<Widget> = no_widgets();
        if columns > 0 {
            add_widget(&mut v, bar_widget(parts.0, build_bar_hints(&pairs, bar.width - right)));
            add_widget(&mut v, bar_widget(parts.1, spans));
            return v;
        }
        add_widget(&mut v, bar_widget(bar, build_bar_hints(&pairs, bar.width)));
        v
    }
}

pub fn bar_split(bar: Rect, right: usize) -> (r: Vec<Rule>)
    ensures
        r@ == bar_rules(bar, right as int),
{
    let most: u16 = bar.width.saturating_sub(4);
    let n: u16 = if right < most as usize {
        right as u16
    } else {
        most
    };
    let mut v: Vec<Rule> = Vec::new();
    v.push(Rule::Length(bar.width - n));
    v.push(Rule::Length(n));
    v
}

} // verus!
