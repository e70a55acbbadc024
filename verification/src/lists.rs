//! The lists that lie over the panes: trash, cart, tasks, actions and streams.

use crate::app::{App, AppView};
use crate::geometry::{max_int, min_int, Rect};
use crate::help_bar::{help_pairs, mode_hints, trash_hints, trash_keys};
use crate::keys::{action_list, actions_view, normal_actions, ActionItem, ActionView, ACTION_COUNT};
use crate::kit::{prefix_of_row, row_prefix, row_style, style_of_row, Kit};
use crate::media::{format_numeral, format_size, or_text, size_of_numeral, size_text, text_or};
use crate::model::{options_view, Entry, EntryKind, OfflineTask, PlayOption, PlayOptionView};
use crate::panes::{bar_hints, bar_text, bar_widget, build_bar_hints};
use crate::scene::{
    add_hint, add_lines, add_widget, by_scheme, hint_line, hint_line_of, hints2, hints3, hints_view,
    no_hints, no_widgets, on_cleared, overlay_of, overlay_panel, overlay_scene, panel, panel_of,
    scheme, themed, themed_colors, widgets_view, Hints, HintsView, Look, Looks, Pair, SceneView,
    Widget,
};
use crate::style::{
    add2, add3, add_blank, add_line, add_span, blank_line, clone_lines, line2, line3, lines_view,
    no_lines, no_spans, span, span_of, span_owned, spans_view, Color, Line, LineView, Span, Style,
};
use crate::text::{
    blanks, cat2, cat3, cat5, chars_of, dec, decimal, opt_text, owned, spaces, str_eq, Chars,
};
use crate::width::{pad_to_width, padded, shortened, truncate_name};
use vstd::prelude::*;

verus! {

/// Where the rows of a list stand on the screen, for the mouse.
#[derive(Clone, Copy, Debug, PartialEq, Eq, Structural)]
pub struct MouseRows {
    pub area: Rect,
    pub first_row: u16,
    pub offset: usize,
    pub visible: usize,
}

/// How many of `len` rows are seen from `offset` on where `max` of them fit.
pub open spec fn rows_seen(len: int, offset: int, max: int) -> int {
    min_int(max_int(len - offset, 0), max)
}

pub fn see_rows(len: usize, offset: usize, max: usize) -> (r: usize)
    ensures
        r == rows_seen(len as int, offset as int, max as int),
{
    let left: usize = len.saturating_sub(offset);
    if left < max {
        left
    } else {
        max
    }
}

/// The rows of a list whose first one stands `down` rows below the top of its area.
pub open spec fn mouse_rows(area: Rect, down: int, len: int, offset: usize, max: int) -> MouseRows {
    MouseRows {
        area,
        first_row: min_int(area.y + down, u16::MAX as int) as u16,
        offset,
        visible: rows_seen(len, offset as int, max) as usize,
    }
}

pub fn place_rows(area: Rect, down: u16, len: usize, offset: usize, max: usize) -> (r: MouseRows)
    ensures
        r == mouse_rows(area, down as int, len as int, offset, max as int),
{
    MouseRows {
        area,
        first_row: area.y.saturating_add(down),
        offset,
        visible: see_rows(len, offset, max),
    }
}

/// A text moved to the right of a field of `n` columns.
pub open spec fn to_the_right(t: Chars, n: int) -> Chars {
    blanks(max_int(n - t.len(), 0) as nat) + t
}

pub fn align_right(t: &str, n: usize) -> (r: String)
    ensures
        r@ == to_the_right(t@, n as int),
{
    let v: Vec<char> = chars_of(t);
    cat2(spaces(n.saturating_sub(v.len())).as_str(), t)
}

pub open spec fn trash_size(e: Entry) -> Chars {
    if e.kind == EntryKind::Folder {
        "-"@
    } else {
        size_text(e.size as int)
    }
}

/// A row of the trash.
pub open spec fn trash_row(looks: Looks, e: Entry, selected: bool, name_max: nat) -> LineView {
    let look = looks.of(e.category);
    seq![
        span_of(row_prefix(selected), row_style(selected)),
        span_of(look.cli_icon + " "@, Style::fg_spec(look.color)),
        span_of(shortened(e.name@, name_max), row_style(selected)),
        span_of("  "@ + to_the_right(trash_size(e), 9), Style::fg_spec(Color::DarkGray)),
    ]
}

fn build_trash_row(looks: &Looks, e: &Entry, selected: bool, name_max: usize) -> (r: Vec<Span>)
    ensures
        spans_view(r@) == trash_row(*looks, *e, selected, name_max as nat),
{
    let look: &Look = looks.get(e.category);
    let size: String = if e.kind == EntryKind::Folder {
        owned("-")
    } else {
        format_size(e.size)
    };
    let mut v: Vec<Span> = no_spans();
    add_span(&mut v, span(prefix_of_row(selected), style_of_row(selected)));
    add_span(
        &mut v,
        span_owned(cat2(look.cli_icon.as_str(), " "), Style::fg(look.color)),
    );
    add_span(
        &mut v,
        span_owned(truncate_name(e.name.as_str(), name_max), style_of_row(selected)),
    );
    add_span(
        &mut v,
        span_owned(
            cat2("  ", align_right(size.as_str(), 9).as_str()),
            Style::fg(Color::DarkGray),
        ),
    );
    v
}

/// The rows of the trash that are seen.
pub open spec fn trash_rows(
    looks: Looks,
    entries: Seq<Entry>,
    selected: usize,
    offset: usize,
    max: int,
    name_max: nat,
) -> Seq<LineView> {
    Seq::new(
        rows_seen(entries.len() as int, offset as int, max) as nat,
        |k: int|
            trash_row(looks, entries[offset + k], offset + k == selected, name_max),
    )
}

fn build_trash_rows(
    looks: &Looks,
    entries: &Vec<Entry>,
    selected: usize,
    offset: usize,
    max: usize,
    name_max: usize,
) -> (r: Vec<Line>)
    ensures
        lines_view(r@) == trash_rows(
            *looks,
            entries@,
            selected,
            offset,
            max as int,
            name_max as nat,
        ),
{
    let n: usize = see_rows(entries.len(), offset, max);
    let mut out: Vec<Line> = no_lines();
    let ghost all = trash_rows(*looks, entries@, selected, offset, max as int, name_max as nat);
    let mut k: usize = 0;
    assert(all.take(0) =~= Seq::empty());
    while k < n
        invariant
            k <= n == all.len(),
            n == rows_seen(entries@.len() as int, offset as int, max as int),
            all == trash_rows(
                *looks,
                entries@,
                selected,
                offset,
                max as int,
                name_max as nat,
            ),
            lines_view(out@) == all.take(k as int),
        decreases n - k,
    {
        let len: usize = entries.len();
        assert(offset + k < len);
        let i: usize = offset + k;
        add_line(&mut out, build_trash_row(looks, &entries[i], i == selected, name_max));
        assert(all.take(k + 1) =~= all.take(k as int).push(all[k as int]));
        k += 1;
    }
    assert(all.take(k as int) =~= all);
    out
}

/// What a list shows: its rows and the note that there are more, or that there are none.
pub open spec fn list_body(rows: Seq<LineView>, len: nat, kit: Kit) -> Seq<LineView> {
    let lead: Seq<LineView> = seq![blank_line()];
    if len == 0 {
        lead + lines_view(kit.empty@)
    } else {
        lead + rows + lines_view(kit.more@)
    }
}

fn build_body(rows: Vec<Line>, len: usize, kit: &Kit) -> (r: Vec<Line>)
    ensures
        lines_view(r@) == list_body(lines_view(rows@), len as nat, *kit),
{
    let mut v: Vec<Line> = no_lines();
    add_blank(&mut v);
    if len == 0 {
        add_lines(&mut v, clone_lines(&kit.empty));
    } else {
        add_lines(&mut v, rows);
        add_lines(&mut v, clone_lines(&kit.more));
    }
    v
}

/// Lines, a blank one, and hints.
pub open spec fn with_hints(lines: Seq<LineView>, pairs: HintsView) -> Seq<LineView> {
    lines.push(blank_line()).push(hint_line_of(pairs))
}

pub fn add_hints(lines: &mut Vec<Line>, pairs: &Hints)
    ensures
        lines_view(final(lines)@) == with_hints(lines_view(old(lines)@), hints_view(pairs@)),
{
    add_blank(lines);
    add_line(lines, hint_line(pairs));
}

pub open spec fn trash_title(n: nat) -> Chars {
    " Trash ("@ + decimal(n) + ") "@
}

pub open spec fn trash_colors(vibrant: bool) -> Pair {
    scheme(vibrant, (Color::LightRed, Color::LightRed), (Color::Cyan, Color::Red))
}

pub open spec fn empty_trash_hints() -> HintsView {
    seq![("r"@, "refresh"@), ("Esc"@, "close"@)]
}

/// How many rows the trash has room for: on its own page, and over the panes.
pub open spec fn trash_room(area: Rect, expanded: bool) -> int {
    if expanded {
        max_int(area.height - 4, 0)
    } else {
        15
    }
}

pub fn room_in_trash(area: Rect, expanded: bool) -> (r: usize)
    ensures
        r == trash_room(area, expanded),
{
    if expanded {
        area.height.saturating_sub(4) as usize
    } else {
        15
    }
}

pub open spec fn trash_name_room(area: Rect, expanded: bool) -> nat {
    if expanded {
        max_int(area.width - 20, 0) as nat
    } else {
        35
    }
}

fn room_for_name(area: Rect, expanded: bool) -> (r: usize)
    ensures
        r == trash_name_room(area, expanded),
{
    if expanded {
        area.width.saturating_sub(20) as usize
    } else {
        35
    }
}

/// The lines of the trash.
pub open spec fn trash_lines(
    entries: Seq<Entry>,
    selected: usize,
    expanded: bool,
    area: Rect,
    kit: Kit,
) -> Seq<LineView> {
    let body = list_body(
        trash_rows(
            kit.looks,
            entries,
            selected,
            kit.offset,
            trash_room(area, expanded),
            trash_name_room(area, expanded),
        ),
        entries.len(),
        kit,
    );
    if expanded {
        body
    } else if entries.len() == 0 {
        with_hints(body, empty_trash_hints())
    } else {
        with_hints(body, trash_hints())
    }
}

fn build_trash_lines(
    entries: &Vec<Entry>,
    selected: usize,
    expanded: bool,
    area: Rect,
    kit: &Kit,
) -> (r: Vec<Line>)
    ensures
        lines_view(r@) == trash_lines(entries@, selected, expanded, area, *kit),
{
    let rows: Vec<Line> = build_trash_rows(
        &kit.looks,
        entries,
        selected,
        kit.offset,
        room_in_trash(area, expanded),
        room_for_name(area, expanded),
    );
    let mut lines: Vec<Line> = build_body(rows, entries.len(), kit);
    if expanded {
        return lines;
    }
    if entries.len() == 0 {
        add_hints(&mut lines, &hints2(("r", "refresh"), ("Esc", "close")));
        return lines;
    }
    add_hints(&mut lines, &trash_keys());
    lines
}

/// Where the rows of the trash stand; nowhere where there are none.
pub open spec fn trash_mouse(entries: Seq<Entry>, expanded: bool, area: Rect, kit: Kit) -> Option<
    MouseRows,
> {
    if entries.len() == 0 {
        None
    } else {
        Some(
            mouse_rows(
                area,
                2,
                entries.len() as int,
                kit.offset,
                trash_room(area, expanded),
            ),
        )
    }
}

impl AppView {
    /// The trash: on its own page with the help bar below, or over the panes.
    #[verifier::opaque]
    pub open spec fn trash_scene(
        self,
        entries: Seq<Entry>,
        selected: usize,
        expanded: bool,
        area: Rect,
        bar: Option<Rect>,
        screen: Rect,
        kit: Kit,
    ) -> SceneView {
        let colors = trash_colors(self.is_vibrant());
        let p = panel_of(
            area,
            trash_title(entries.len()),
            Style::fg_spec(colors.1),
            colors.0,
            trash_lines(entries, selected, expanded, area, kit),
        );
        if expanded {
            match bar {
                Some(b) => seq![p, bar_text(b, bar_hints(mode_hints(self.input), b.width as int))],
                None => seq![p],
            }
        } else {
            overlay_scene(area, screen, p)
        }
    }
}

impl App {
    pub fn draw_trash_view(
        &self,
        entries: &Vec<Entry>,
        selected: usize,
        expanded: bool,
        area: Rect,
        bar: Option<Rect>,
        screen: Rect,
        kit: &Kit,
    ) -> (r: (Vec<Widget>, Option<MouseRows>))
        ensures
            widgets_view(r.0@) == self@.trash_scene(
                entries@,
                selected,
                expanded,
                area,
                bar,
                screen,
                *kit,
            ),
            r.1 == trash_mouse(entries@, expanded, area, *kit),
    {
        reveal(AppView::trash_scene);
        let colors: Pair = by_scheme(
            self.is_vibrant(),
            (Color::LightRed, Color::LightRed),
            (Color::Cyan, Color::Red),
        );
        let lines: Vec<Line> = build_trash_lines(entries, selected, expanded, area, kit);
        let title: String = cat3(" Trash (", dec(entries.len() as u64).as_str(), ") ");
        let p: Widget = panel(area, title, Style::fg(colors.1), colors.0, lines);
        let mouse: Option<MouseRows> = if entries.len() == 0 {
            None
        } else {
            Some(place_rows(area, 2, entries.len(), kit.offset, room_in_trash(area, expanded)))
        };
        if expanded {
            let mut v: Vec<Widget> = no_widgets();
            add_widget(&mut v, p);
            match bar {
                Some(b) => {
                    let pairs: Hints = help_pairs(&self.input);
                    add_widget(&mut v, bar_widget(b, build_bar_hints(&pairs, b.width)));
                },
                None => {},
            }
            return (v, mouse);
        }
        (on_cleared(area, screen, p), mouse)
    }
}

/// The size of several entries together.
pub open spec fn sizes_sum(entries: Seq<Entry>) -> int
    decreases entries.len(),
{
    if entries.len() == 0 {
        0
    } else {
        sizes_sum(entries.drop_last()) + entries.last().size
    }
}

/// The size of several entries together, as far as it can be counted.
pub open spec fn total_size(entries: Seq<Entry>) -> int {
    min_int(sizes_sum(entries), u64::MAX as int)
}

pub fn sum_sizes(entries: &Vec<Entry>) -> (r: u64)
    ensures
        r == total_size(entries@),
{
    let mut sum: u64 = 0;
    let mut i: usize = 0;
    assert(entries@.take(0).len() == 0);
    while i < entries.len()
        invariant
            i <= entries@.len(),
            sum == total_size(entries@.take(i as int)),
        decreases entries@.len() - i,
    {
        assert(entries@.take(i + 1).drop_last() =~= entries@.take(i as int));
        sum = sum.saturating_add(entries[i].size);
        i += 1;
    }
    assert(entries@.take(i as int) =~= entries@);
    sum
}

/// A row of the cart.
pub open spec fn cart_row(e: Entry, selected: bool) -> LineView {
    line3(
        span_of(row_prefix(selected), row_style(selected)),
        span_of(e.name@, row_style(selected)),
        span_of("  "@ + size_text(e.size as int), Style::fg_spec(Color::DarkGray)),
    )
}

pub const CART_ROWS: usize = 12;

pub open spec fn cart_rows(cart: Seq<Entry>, selected: usize, offset: usize) -> Seq<LineView> {
    Seq::new(
        rows_seen(cart.len() as int, offset as int, CART_ROWS as int) as nat,
        |k: int| cart_row(cart[offset + k], offset + k == selected),
    )
}

fn build_cart_rows(cart: &Vec<Entry>, selected: usize, offset: usize) -> (r: Vec<Line>)
    ensures
        lines_view(r@) == cart_rows(cart@, selected, offset),
{
    let n: usize = see_rows(cart.len(), offset, CART_ROWS);
    let mut out: Vec<Line> = no_lines();
    let ghost all = cart_rows(cart@, selected, offset);
    let mut k: usize = 0;
    assert(all.take(0) =~= Seq::empty());
    while k < n
        invariant
            k <= n == all.len(),
            n == rows_seen(cart@.len() as int, offset as int, CART_ROWS as int),
            all == cart_rows(cart@, selected, offset),
            lines_view(out@) == all.take(k as int),
        decreases n - k,
    {
        let len: usize = cart.len();
        assert(offset + k < len);
        let i: usize = offset + k;
        let e: &Entry = &cart[i];
        let on: bool = i == selected;
        add3(
            &mut out,
            span(prefix_of_row(on), style_of_row(on)),
            span(e.name.as_str(), style_of_row(on)),
            span_owned(
                cat2("  ", format_size(e.size).as_str()),
                Style::fg(Color::DarkGray),
            ),
        );
        assert(all.take(k + 1) =~= all.take(k as int).push(all[k as int]));
        k += 1;
    }
    assert(all.take(k as int) =~= all);
    out
}

pub open spec fn cart_overlay_hints() -> HintsView {
    seq![
        ("j/k"@, "nav"@),
        ("x"@, "remove"@),
        ("C"@, "clear"@),
        ("Enter"@, "download"@),
        ("m"@, "move"@),
        ("c"@, "copy"@),
        ("t"@, "trash"@),
        ("s"@, "share"@),
        ("Esc"@, "close"@),
    ]
}

fn cart_overlay_keys() -> (r: Hints)
    ensures
        hints_view(r@) == cart_overlay_hints(),
{
    let mut v: Hints = no_hints();
    add_hint(&mut v, "j/k", "nav");
    add_hint(&mut v, "x", "remove");
    add_hint(&mut v, "C", "clear");
    add_hint(&mut v, "Enter", "download");
    add_hint(&mut v, "m", "move");
    add_hint(&mut v, "c", "copy");
    add_hint(&mut v, "t", "trash");
    add_hint(&mut v, "s", "share");
    add_hint(&mut v, "Esc", "close");
    v
}

pub open spec fn cart_title(cart: Seq<Entry>) -> Chars {
    "Cart ("@ + decimal(cart.len()) + " files, "@ + size_text(total_size(cart)) + ")"@
}

pub open spec fn cart_mouse(cart: Seq<Entry>, area: Rect, kit: Kit) -> Option<MouseRows> {
    if cart.len() == 0 {
        None
    } else {
        Some(mouse_rows(area, 2, cart.len() as int, kit.offset, CART_ROWS as int))
    }
}

impl AppView {
    #[verifier::opaque]
    pub open spec fn cart_scene(self, area: Rect, screen: Rect, kit: Kit) -> SceneView {
        overlay_scene(
            area,
            screen,
            overlay_of(
                area,
                cart_title(self.cart),
                scheme(
                    self.is_vibrant(),
                    (Color::LightMagenta, Color::LightMagenta),
                    (Color::Yellow, Color::Yellow),
                ),
                with_hints(
                    list_body(
                        cart_rows(self.cart, self.cart_selected, kit.offset),
                        self.cart.len(),
                        kit,
                    ),
                    cart_overlay_hints(),
                ),
            ),
        )
    }
}

impl App {
    pub fn draw_cart_overlay(&self, area: Rect, screen: Rect, kit: &Kit) -> (r: (
        Vec<Widget>,
        Option<MouseRows>,
    ))
        ensures
            widgets_view(r.0@) == self@.cart_scene(area, screen, *kit),
            r.1 == cart_mouse(self@.cart, area, *kit),
    {
        reveal(AppView::cart_scene);
        let rows: Vec<Line> = build_cart_rows(&self.cart, self.cart_selected, kit.offset);
        let mut lines: Vec<Line> = build_body(rows, self.cart.len(), kit);
        add_hints(&mut lines, &cart_overlay_keys());
        let title: String = cat5(
            "Cart (",
            dec(self.cart.len() as u64).as_str(),
            " files, ",
            format_size(sum_sizes(&self.cart)).as_str(),
            ")",
        );
        let colors: Pair = by_scheme(
            self.is_vibrant(),
            (Color::LightMagenta, Color::LightMagenta),
            (Color::Yellow, Color::Yellow),
        );
        let mouse: Option<MouseRows> = if self.cart.len() == 0 {
            None
        } else {
            Some(place_rows(area, 2, self.cart.len(), kit.offset, CART_ROWS))
        };
        (on_cleared(area, screen, overlay_panel(area, title.as_str(), colors, lines)), mouse)
    }
}

/// The sign and the colour of a phase of a task.
pub open spec fn phase_look(phase: Chars) -> (Chars, Color) {
    if phase == "PHASE_TYPE_COMPLETE"@ {
        ("\u{2713}"@, Color::Green)
    } else if phase == "PHASE_TYPE_RUNNING"@ {
        ("\u{2193}"@, Color::Cyan)
    } else if phase == "PHASE_TYPE_PENDING"@ {
        ("\u{2026}"@, Color::DarkGray)
    } else if phase == "PHASE_TYPE_ERROR"@ {
        ("\u{2717}"@, Color::Red)
    } else {
        ("?"@, Color::Yellow)
    }
}

fn look_of_phase(phase: &str) -> (r: (&'static str, Color))
    ensures
        r.0@ == phase_look(phase@).0,
        r.1 == phase_look(phase@).1,
{
    if str_eq(phase, "PHASE_TYPE_COMPLETE") {
        ("\u{2713}", Color::Green)
    } else if str_eq(phase, "PHASE_TYPE_RUNNING") {
        ("\u{2193}", Color::Cyan)
    } else if str_eq(phase, "PHASE_TYPE_PENDING") {
        ("\u{2026}", Color::DarkGray)
    } else if str_eq(phase, "PHASE_TYPE_ERROR") {
        ("\u{2717}", Color::Red)
    } else {
        ("?", Color::Yellow)
    }
}

/// What went wrong with a task.
pub open spec fn task_message(task: OfflineTask) -> LineView {
    match task.message {
        Some(m) => if task.phase@ == "PHASE_TYPE_ERROR"@ {
            seq![span_of("  "@ + shortened(m@, 20), Style::fg_spec(Color::Red))]
        } else {
            Seq::empty()
        },
        None => Seq::empty(),
    }
}

fn build_task_message(task: &OfflineTask) -> (r: Vec<Span>)
    ensures
        spans_view(r@) == task_message(*task),
{
    let mut v: Vec<Span> = no_spans();
    match &task.message {
        Some(m) => {
            if str_eq(task.phase.as_str(), "PHASE_TYPE_ERROR") {
                add_span(
                    &mut v,
                    span_owned(
                        cat2("  ", truncate_name(m.as_str(), 20).as_str()),
                        Style::fg(Color::Red),
                    ),
                );
            }
        },
        None => {},
    }
    v
}

/// A row of the offline tasks.
pub open spec fn task_row(task: OfflineTask, selected: bool) -> LineView {
    let look = phase_look(task.phase@);
    let size = text_or(size_of_numeral(opt_text(task.file_size)), Seq::empty());
    seq![
        span_of(row_prefix(selected), row_style(selected)),
        span_of(look.0 + " "@, Style::fg_spec(look.1)),
        span_of(padded(task.name@, 35), row_style(selected)),
        span_of(
            "  "@ + to_the_right(decimal(task.progress as nat), 3) + "%"@,
            Style::fg_spec(Color::Reset),
        ),
        span_of("  "@ + to_the_right(size, 9), Style::fg_spec(Color::DarkGray)),
    ] + task_message(task)
}

fn build_task_row(task: &OfflineTask, selected: bool) -> (r: Vec<Span>)
    ensures
        spans_view(r@) == task_row(*task, selected),
{
    let (icon, color) = look_of_phase(task.phase.as_str());
    let size: String = or_text(
        format_numeral(&task.file_size),
        crate::navigate::empty_text().as_str(),
    );
    let progress: String = dec(task.progress as u64);
    let mut v: Vec<Span> = no_spans();
    add_span(&mut v, span(prefix_of_row(selected), style_of_row(selected)));
    add_span(&mut v, span_owned(cat2(icon, " "), Style::fg(color)));
    add_span(
        &mut v,
        span_owned(pad_to_width(task.name.as_str(), 35), style_of_row(selected)),
    );
    add_span(
        &mut v,
        span_owned(
            cat3("  ", align_right(progress.as_str(), 3).as_str(), "%"),
            Style::fg(Color::Reset),
        ),
    );
    add_span(
        &mut v,
        span_owned(
            cat2("  ", align_right(size.as_str(), 9).as_str()),
            Style::fg(Color::DarkGray),
        ),
    );
    crate::scene::add_spans(&mut v, build_task_message(task));
    v
}

pub const TASK_ROWS: usize = 15;

pub open spec fn task_rows(tasks: Seq<OfflineTask>, selected: usize, offset: usize) -> Seq<LineView> {
    Seq::new(
        rows_seen(tasks.len() as int, offset as int, TASK_ROWS as int) as nat,
        |k: int| task_row(tasks[offset + k], offset + k == selected),
    )
}

fn build_task_rows(tasks: &Vec<OfflineTask>, selected: usize, offset: usize) -> (r: Vec<Line>)
    ensures
        lines_view(r@) == task_rows(tasks@, selected, offset),
{
    let n: usize = see_rows(tasks.len(), offset, TASK_ROWS);
    let mut out: Vec<Line> = no_lines();
    let ghost all = task_rows(tasks@, selected, offset);
    let mut k: usize = 0;
    assert(all.take(0) =~= Seq::empty());
    while k < n
        invariant
            k <= n == all.len(),
            n == rows_seen(tasks@.len() as int, offset as int, TASK_ROWS as int),
            all == task_rows(tasks@, selected, offset),
            lines_view(out@) == all.take(k as int),
        decreases n - k,
    {
        let len: usize = tasks.len();
        assert(offset + k < len);
        let i: usize = offset + k;
        add_line(&mut out, build_task_row(&tasks[i], i == selected));
        assert(all.take(k + 1) =~= all.take(k as int).push(all[k as int]));
        k += 1;
    }
    assert(all.take(k as int) =~= all);
    out
}

pub open spec fn tasks_mouse(tasks: Seq<OfflineTask>, area: Rect, kit: Kit) -> Option<MouseRows> {
    if tasks.len() == 0 {
        None
    } else {
        Some(mouse_rows(area, 2, tasks.len() as int, kit.offset, TASK_ROWS as int))
    }
}

impl AppView {
    #[verifier::opaque]
    pub open spec fn tasks_scene(
        self,
        tasks: Seq<OfflineTask>,
        selected: usize,
        area: Rect,
        screen: Rect,
        kit: Kit,
    ) -> SceneView {
        overlay_scene(
            area,
            screen,
            overlay_of(
                area,
                "Offline Tasks ("@ + decimal(tasks.len()) + ")"@,
                scheme(
                    self.is_vibrant(),
                    (Color::LightBlue, Color::LightBlue),
                    (Color::Cyan, Color::Green),
                ),
                with_hints(
                    list_body(task_rows(tasks, selected, kit.offset), tasks.len(), kit),
                    mode_hints(self.input),
                ),
            ),
        )
    }
}

impl App {
    pub fn draw_offline_tasks_overlay(
        &self,
        tasks: &Vec<OfflineTask>,
        selected: usize,
        area: Rect,
        screen: Rect,
        kit: &Kit,
    ) -> (r: (Vec<Widget>, Option<MouseRows>))
        ensures
            widgets_view(r.0@) == self@.tasks_scene(tasks@, selected, area, screen, *kit),
            r.1 == tasks_mouse(tasks@, area, *kit),
    {
        reveal(AppView::tasks_scene);
        let rows: Vec<Line> = build_task_rows(tasks, selected, kit.offset);
        let mut lines: Vec<Line> = build_body(rows, tasks.len(), kit);
        add_hints(&mut lines, &help_pairs(&self.input));
        let title: String = cat3("Offline Tasks (", dec(tasks.len() as u64).as_str(), ")");
        let colors: Pair = by_scheme(
            self.is_vibrant(),
            (Color::LightBlue, Color::LightBlue),
            (Color::Cyan, Color::Green),
        );
        let mouse: Option<MouseRows> = if tasks.len() == 0 {
            None
        } else {
            Some(place_rows(area, 2, tasks.len(), kit.offset, TASK_ROWS))
        };
        (on_cleared(area, screen, overlay_panel(area, title.as_str(), colors, lines)), mouse)
    }
}

/// A row of the action menu.
pub open spec fn action_row(a: ActionView, selected: bool) -> LineView {
    line3(
        span_of(row_prefix(selected), row_style(selected)),
        span_of(padded(a.shortcut, 8), row_style(selected)),
        span_of(a.label, row_style(selected)),
    )
}

/// How many actions there is room for.
pub open spec fn menu_room(area: Rect) -> int {
    max_int(area.height - 5, 1)
}

pub fn room_in_menu(area: Rect) -> (r: usize)
    ensures
        r == menu_room(area),
{
    let n: u16 = area.height.saturating_sub(5);
    if n < 1 {
        1
    } else {
        n as usize
    }
}

pub open spec fn action_rows(selected: usize, offset: usize, max: int) -> Seq<LineView> {
    Seq::new(
        rows_seen(ACTION_COUNT as int, offset as int, max) as nat,
        |k: int| action_row(action_list()[offset + k], offset + k == selected),
    )
}

fn build_action_rows(selected: usize, offset: usize, max: usize) -> (r: Vec<Line>)
    ensures
        lines_view(r@) == action_rows(selected, offset, max as int),
{
    let actions: Vec<ActionItem> = normal_actions();
    let n: usize = see_rows(ACTION_COUNT, offset, max);
    let mut out: Vec<Line> = no_lines();
    let ghost all = action_rows(selected, offset, max as int);
    let mut k: usize = 0;
    assert(all.take(0) =~= Seq::empty());
    while k < n
        invariant
            k <= n == all.len(),
            n == rows_seen(ACTION_COUNT as int, offset as int, max as int),
            actions_view(actions@) == action_list(),
            actions@.len() == ACTION_COUNT,
            all == action_rows(selected, offset, max as int),
            lines_view(out@) == all.take(k as int),
        decreases n - k,
    {
        let i: usize = offset + k;
        let on: bool = i == selected;
        assert(actions_view(actions@)[i as int] == actions@[i as int]@);
        add3(
            &mut out,
            span(prefix_of_row(on), style_of_row(on)),
            span_owned(pad_to_width(actions[i].shortcut, 8), style_of_row(on)),
            span(actions[i].label, style_of_row(on)),
        );
        assert(all.take(k + 1) =~= all.take(k as int).push(all[k as int]));
        k += 1;
    }
    assert(all.take(k as int) =~= all);
    out
}

pub open spec fn action_menu_hints() -> HintsView {
    seq![("j/k"@, "navigate"@), ("Enter"@, "run"@), ("Esc/?"@, "close"@)]
}

pub open spec fn menu_mouse(area: Rect, kit: Kit) -> MouseRows {
    mouse_rows(area, 2, ACTION_COUNT as int, kit.offset, menu_room(area))
}

impl AppView {
    #[verifier::opaque]
    pub open spec fn menu_scene(self, selected: usize, area: Rect, screen: Rect, kit: Kit) -> SceneView {
        let lead: Seq<LineView> = seq![blank_line()];
        overlay_scene(
            area,
            screen,
            overlay_of(
                area,
                "Actions"@,
                themed(self.is_vibrant(), Color::Cyan, Color::Cyan),
                with_hints(
                    lead + action_rows(selected, kit.offset, menu_room(area)) + lines_view(
                        kit.more@,
                    ),
                    action_menu_hints(),
                ),
            ),
        )
    }
}

impl App {
    pub fn draw_action_menu(&self, selected: usize, area: Rect, screen: Rect, kit: &Kit) -> (r: (
        Vec<Widget>,
        MouseRows,
    ))
        ensures
            widgets_view(r.0@) == self@.menu_scene(selected, area, screen, *kit),
            r.1 == menu_mouse(area, *kit),
    {
        reveal(AppView::menu_scene);
        let max: usize = room_in_menu(area);
        let mut lines: Vec<Line> = no_lines();
        add_blank(&mut lines);
        add_lines(&mut lines, build_action_rows(selected, kit.offset, max));
        add_lines(&mut lines, clone_lines(&kit.more));
        add_hints(
            &mut lines,
            &hints3(("j/k", "navigate"), ("Enter", "run"), ("Esc/?", "close")),
        );
        let colors: Pair = themed_colors(self.is_vibrant(), Color::Cyan);
        (
            on_cleared(area, screen, overlay_panel(area, "Actions", colors, lines)),
            place_rows(area, 2, ACTION_COUNT, kit.offset, max),
        )
    }
}

pub open spec fn stream_style(o: PlayOptionView, selected: bool) -> Style {
    if !o.available {
        Style::fg_spec(Color::DarkGray)
    } else {
        row_style(selected)
    }
}

/// A row of the streams.
pub open spec fn stream_row(o: PlayOptionView, selected: bool) -> LineView {
    line3(
        span_of(
            if selected {
                " > "@
            } else {
                "   "@
            },
            stream_style(o, selected),
        ),
        span_of(o.label, stream_style(o, selected)),
        span_of(
            if !o.available {
                " (cold)"@
            } else {
                ""@
            },
            Style::fg_spec(Color::DarkGray),
        ),
    )
}

pub open spec fn stream_rows(medias: Seq<PlayOptionView>, selected: usize) -> Seq<LineView> {
    Seq::new(medias.len(), |i: int| stream_row(medias[i], i == selected))
}

fn build_stream_rows(medias: &Vec<PlayOption>, selected: usize) -> (r: Vec<Line>)
    ensures
        lines_view(r@) == stream_rows(options_view(medias@), selected),
{
    let mut out: Vec<Line> = no_lines();
    let ghost all = stream_rows(options_view(medias@), selected);
    let mut i: usize = 0;
    assert(all.take(0) =~= Seq::empty());
    while i < medias.len()
        invariant
            i <= medias@.len(),
            all == stream_rows(options_view(medias@), selected),
            lines_view(out@) == all.take(i as int),
        decreases medias@.len() - i,
    {
        let o: &PlayOption = &medias[i];
        let on: bool = i == selected;
        let style: Style = if !o.available {
            Style::fg(Color::DarkGray)
        } else {
            style_of_row(on)
        };
        assert(options_view(medias@)[i as int] == o@);
        add3(
            &mut out,
            span(
                if on {
                    " > "
                } else {
                    "   "
                },
                style,
            ),
            span(o.label.as_str(), style),
            span(
                if !o.available {
                    " (cold)"
                } else {
                    ""
                },
                Style::fg(Color::DarkGray),
            ),
        );
        assert(all.take(i + 1) =~= all.take(i as int).push(all[i as int]));
        i += 1;
    }
    assert(all.take(i as int) =~= all);
    out
}

/// The question whether a file is to be played.
pub open spec fn play_question(name: Chars) -> LineView {
    line2(
        span_of("  Play "@, Style::fg_spec(Color::Cyan)),
        span_of("\""@ + shortened(name, 40) + "\""@, Style::bold_spec(Color::Yellow)),
    )
}

/// The height of the choice of streams, in percent.
pub open spec fn streams_percent(len: nat) -> int {
    min_int(50, 20 + (len as int % 0x10000) * 2)
}

pub fn percent_of_streams(len: usize) -> (r: u16)
    ensures
        r == streams_percent(len as nat),
        r <= 100,
{
    let n: usize = 20 + (len % 0x10000) * 2;
    if n < 50 {
        n as u16
    } else {
        50
    }
}

pub open spec fn streams_mouse(len: nat, area: Rect) -> MouseRows {
    mouse_rows(area, 4, len as int, 0, max_int(area.height - 6, 0))
}

impl AppView {
    #[verifier::opaque]
    pub open spec fn streams_scene(
        self,
        name: Chars,
        medias: Seq<PlayOptionView>,
        selected: usize,
        area: Rect,
        screen: Rect,
    ) -> SceneView {
        let lead: Seq<LineView> = seq![blank_line(), play_question(name), blank_line()];
        overlay_scene(
            area,
            screen,
            overlay_of(
                area,
                "Select Stream"@,
                scheme(
                    self.is_vibrant(),
                    (Color::LightGreen, Color::LightGreen),
                    (Color::Cyan, Color::Yellow),
                ),
                with_hints(
                    lead + stream_rows(medias, selected),
                    seq![("Enter"@, "play"@), ("Esc"@, "cancel"@)],
                ),
            ),
        )
    }
}

impl App {
    pub fn draw_play_picker_overlay(
        &self,
        name: &str,
        medias: &Vec<PlayOption>,
        selected: usize,
        area: Rect,
        screen: Rect,
    ) -> (r: (Vec<Widget>, MouseRows))
        ensures
            widgets_view(r.0@) == self@.streams_scene(
                name@,
                options_view(medias@),
                selected,
                area,
                screen,
            ),
            r.1 == streams_mouse(medias@.len(), area),
    {
        reveal(AppView::streams_scene);
        let mut lines: Vec<Line> = no_lines();
        add_blank(&mut lines);
        add2(
            &mut lines,
            span("  Play ", Style::fg(Color::Cyan)),
            span_owned(
                cat3("\"", truncate_name(name, 40).as_str(), "\""),
                Style::bold(Color::Yellow),
            ),
        );
        add_blank(&mut lines);
        let ghost lead: Seq<LineView> = seq![blank_line(), play_question(name@), blank_line()];
        assert(lines_view(lines@) =~= lead);
        add_lines(&mut lines, build_stream_rows(medias, selected));
        add_hints(&mut lines, &hints2(("Enter", "play"), ("Esc", "cancel")));
        let colors: Pair = by_scheme(
            self.is_vibrant(),
            (Color::LightGreen, Color::LightGreen),
            (Color::Cyan, Color::Yellow),
        );
        (
            on_cleared(area, screen, overlay_panel(area, "Select Stream", colors, lines)),
            place_rows(area, 4, medias.len(), 0, area.height.saturating_sub(6) as usize),
        )
    }
}

} // verus!
