//! The dialogs that lie over the panes.

use crate::fields::{triangle, warn_triangle_lines};
use crate::geometry::{max_int, min_int, Rect};
use crate::help_bar::{
    cart_delete_hints, cart_delete_keys, confirm_hints, confirm_keys, delete_hints, delete_keys,
    goto_hints, goto_keys, local_path_hints, local_path_keys, offline_hints, offline_keys,
    path_hints, path_keys, play_hints, play_keys, quit_hints, quit_keys,
};
use crate::help_sheet::{take_window, window};
use crate::kit::{space_around, spaced, spinner, spinner_frame, Kit};
use crate::lists::{add_hints, with_hints};
use crate::media::{or_text, text_or};
use crate::model::{DownloadTask, Entry, LocalPathInput, LoginField, PathInput, TaskStatus};
use crate::preview_pane::{add_cut_note, cut_note};
use crate::scene::{
    add_lines, add_widget, by_scheme, hints3, no_widgets, on_cleared, overlay_of, overlay_panel,
    overlay_scene, panel, panel_of, scheme, themed, themed_colors, themed_colors_pair, widgets_view,
    HintsView, Look, Looks, Pair, SceneView, Widget, WidgetView,
};
use crate::setting_pages::{field_text, show_field, FieldCursor};
use crate::style::{
    add1, add2, add3, add_blank, add_line, add_span, blank_line, line1, line2, line3, lines_view,
    no_lines, no_spans, span, span_of, span_owned, spans_view, Color, Line, LineView, Span, Style,
};
use crate::text::{
    cat2, cat3, cat4, cat5, chars_of, clone_opt, dec, decimal, opt_text, owned, repeat_char,
    repeated, Chars,
};
use crate::text_input::{char_index, index_at};
use crate::width::{pad_to_width, padded, shortened, text_columns, text_width, truncate_name};
use vstd::prelude::*;

verus! {

/// The colours of most dialogs.
pub open spec fn dialog_colors(vibrant: bool, bright: Color) -> Pair {
    scheme(vibrant, (bright, bright), (Color::Cyan, Color::Yellow))
}

fn colors_of_dialog(vibrant: bool, bright: Color) -> (r: Pair)
    ensures
        r == dialog_colors(vibrant, bright),
{
    by_scheme(vibrant, (bright, bright), (Color::Cyan, Color::Yellow))
}

/// A label and a field in which something is typed. `margin` columns of the dialog are left to the
/// label and the border.
pub open spec fn input_line(label: Chars, value: Chars, c: FieldCursor, area: Rect, margin: int) -> LineView {
    line2(
        span_of(label, Style::fg_spec(Color::Cyan)),
        span_of(
            field_text(value, c, max_int(area.width - margin, 0)),
            Style::fg_spec(Color::Yellow),
        ),
    )
}

fn add_input(
    lines: &mut Vec<Line>,
    label: &str,
    value: &str,
    c: FieldCursor,
    area: Rect,
    margin: usize,
)
    ensures
        lines_view(final(lines)@) == lines_view(old(lines)@).push(
            input_line(label@, value@, c, area, margin as int),
        ),
{
    let max: usize = (area.width as usize).saturating_sub(margin);
    add2(
        lines,
        span(label, Style::fg(Color::Cyan)),
        span_owned(show_field(value, c, max), Style::fg(Color::Yellow)),
    );
}

pub open spec fn text_line(text: Chars, color: Color) -> LineView {
    line1(span_of(text, Style::fg_spec(color)))
}

fn add_text_line(lines: &mut Vec<Line>, text: &str, color: Color)
    ensures
        lines_view(final(lines)@) == lines_view(old(lines)@).push(text_line(text@, color)),
{
    add1(lines, span(text, Style::fg(color)));
}

/// A dialog with one field: what stands around the field is given as lines.
pub open spec fn dialog_scene(
    area: Rect,
    screen: Rect,
    title: Chars,
    colors: Pair,
    lines: Seq<LineView>,
) -> SceneView {
    overlay_scene(area, screen, overlay_of(area, title, colors, lines))
}

fn show_dialog(area: Rect, screen: Rect, title: &str, colors: Pair, lines: Vec<Line>) -> (r: Vec<
    Widget,
>)
    ensures
        widgets_view(r@) == dialog_scene(area, screen, title@, colors, lines_view(lines@)),
{
    on_cleared(area, screen, overlay_panel(area, title, colors, lines))
}

pub open spec fn rename_lines(value: Chars, c: FieldCursor, area: Rect) -> Seq<LineView> {
    with_hints(
        seq![blank_line(), input_line("  New name: "@, value, c, area, 14)],
        confirm_hints(),
    )
}

pub fn draw_rename_overlay(value: &str, c: FieldCursor, vibrant: bool, area: Rect, screen: Rect) -> (r:
    Vec<Widget>)
    ensures
        widgets_view(r@) == dialog_scene(
            area,
            screen,
            "Rename"@,
            dialog_colors(vibrant, Color::LightYellow),
            rename_lines(value@, c, area),
        ),
{
    let mut lines: Vec<Line> = no_lines();
    add_blank(&mut lines);
    add_input(&mut lines, "  New name: ", value, c, area, 14);
    assert(lines_view(lines@) =~= seq![
        blank_line(),
        input_line("  New name: "@, value@, c, area, 14),
    ]);
    add_hints(&mut lines, &confirm_keys());
    show_dialog(area, screen, "Rename", colors_of_dialog(vibrant, Color::LightYellow), lines)
}

pub open spec fn mkdir_lines(value: Chars, c: FieldCursor, area: Rect) -> Seq<LineView> {
    with_hints(
        seq![blank_line(), input_line("  Folder name: "@, value, c, area, 17)],
        confirm_hints(),
    )
}

pub fn draw_mkdir_overlay(value: &str, c: FieldCursor, vibrant: bool, area: Rect, screen: Rect) -> (r:
    Vec<Widget>)
    ensures
        widgets_view(r@) == dialog_scene(
            area,
            screen,
            "New Folder"@,
            dialog_colors(vibrant, Color::LightYellow),
            mkdir_lines(value@, c, area),
        ),
{
    let mut lines: Vec<Line> = no_lines();
    add_blank(&mut lines);
    add_input(&mut lines, "  Folder name: ", value, c, area, 17);
    assert(lines_view(lines@) =~= seq![
        blank_line(),
        input_line("  Folder name: "@, value@, c, area, 17),
    ]);
    add_hints(&mut lines, &confirm_keys());
    show_dialog(area, screen, "New Folder", colors_of_dialog(vibrant, Color::LightYellow), lines)
}

pub open spec fn goto_lines(query: Chars, c: FieldCursor, area: Rect) -> Seq<LineView> {
    with_hints(
        seq![
            blank_line(),
            input_line("  Path: "@, query, c, area, 10),
            text_line("  e.g. /My Files/Movies"@, Color::DarkGray),
        ],
        goto_hints(),
    )
}

pub fn draw_goto_overlay(query: &str, c: FieldCursor, vibrant: bool, area: Rect, screen: Rect) -> (r:
    Vec<Widget>)
    ensures
        widgets_view(r@) == dialog_scene(
            area,
            screen,
            "Go to Path"@,
            themed(vibrant, Color::Cyan, Color::Cyan),
            goto_lines(query@, c, area),
        ),
{
    let mut lines: Vec<Line> = no_lines();
    add_blank(&mut lines);
    add_input(&mut lines, "  Path: ", query, c, area, 10);
    add_text_line(&mut lines, "  e.g. /My Files/Movies", Color::DarkGray);
    assert(lines_view(lines@) =~= seq![
        blank_line(),
        input_line("  Path: "@, query@, c, area, 10),
        text_line("  e.g. /My Files/Movies"@, Color::DarkGray),
    ]);
    add_hints(&mut lines, &goto_keys());
    show_dialog(area, screen, "Go to Path", themed_colors(vibrant, Color::Cyan), lines)
}

pub open spec fn offline_lines(value: Chars, c: FieldCursor, area: Rect) -> Seq<LineView> {
    with_hints(
        seq![
            blank_line(),
            text_line("  Enter URL or magnet link for cloud download:"@, Color::Reset),
            blank_line(),
            input_line("  URL: "@, value, c, area, 9),
        ],
        offline_hints(),
    )
}

pub fn draw_offline_input_overlay(
    value: &str,
    c: FieldCursor,
    vibrant: bool,
    area: Rect,
    screen: Rect,
) -> (r: Vec<Widget>)
    ensures
        widgets_view(r@) == dialog_scene(
            area,
            screen,
            "Offline Download"@,
            dialog_colors(vibrant, Color::LightCyan),
            offline_lines(value@, c, area),
        ),
{
    let mut lines: Vec<Line> = no_lines();
    add_blank(&mut lines);
    add_text_line(&mut lines, "  Enter URL or magnet link for cloud download:", Color::Reset);
    add_blank(&mut lines);
    add_input(&mut lines, "  URL: ", value, c, area, 9);
    assert(lines_view(lines@) =~= seq![
        blank_line(),
        text_line("  Enter URL or magnet link for cloud download:"@, Color::Reset),
        blank_line(),
        input_line("  URL: "@, value@, c, area, 9),
    ]);
    add_hints(&mut lines, &offline_keys());
    show_dialog(
        area,
        screen,
        "Offline Download",
        colors_of_dialog(vibrant, Color::LightCyan),
        lines,
    )
}

pub open spec fn player_lines(value: Chars, c: FieldCursor, area: Rect) -> Seq<LineView> {
    with_hints(
        seq![
            blank_line(),
            text_line("  Enter player command (e.g. mpv, open -a IINA):"@, Color::Cyan),
            blank_line(),
            input_line("  > "@, value, c, area, 7),
        ],
        confirm_hints(),
    )
}

pub fn draw_player_input_overlay(
    value: &str,
    c: FieldCursor,
    vibrant: bool,
    area: Rect,
    screen: Rect,
) -> (r: Vec<Widget>)
    ensures
        widgets_view(r@) == dialog_scene(
            area,
            screen,
            "Player Command"@,
            dialog_colors(vibrant, Color::LightYellow),
            player_lines(value@, c, area),
        ),
{
    let mut lines: Vec<Line> = no_lines();
    add_blank(&mut lines);
    add_text_line(
        &mut lines,
        "  Enter player command (e.g. mpv, open -a IINA):",
        Color::Cyan,
    );
    add_blank(&mut lines);
    add_input(&mut lines, "  > ", value, c, area, 7);
    assert(lines_view(lines@) =~= seq![
        blank_line(),
        text_line("  Enter player command (e.g. mpv, open -a IINA):"@, Color::Cyan),
        blank_line(),
        input_line("  > "@, value@, c, area, 7),
    ]);
    add_hints(&mut lines, &confirm_keys());
    show_dialog(
        area,
        screen,
        "Player Command",
        colors_of_dialog(vibrant, Color::LightYellow),
        lines,
    )
}

/// The question whether a video is to be played, and with what.
pub open spec fn play_lines(name: Chars, player: Option<Chars>) -> Seq<LineView> {
    with_hints(
        seq![
            blank_line(),
            line3(
                span_of("  Play "@, Style::fg_spec(Color::Cyan)),
                span_of("\""@ + shortened(name, 40) + "\""@, Style::bold_spec(Color::Yellow)),
                span_of("?"@, Style::fg_spec(Color::Cyan)),
            ),
            blank_line(),
            line2(
                span_of("  Open with: "@, Style::fg_spec(Color::DarkGray)),
                span_of(
                    text_or(player, "not configured"@),
                    Style::fg_spec(
                        if player is Some {
                            Color::Green
                        } else {
                            Color::Red
                        },
                    ),
                ),
            ),
        ],
        play_hints(),
    )
}

pub fn draw_confirm_play_overlay(
    name: &str,
    player: &Option<String>,
    vibrant: bool,
    area: Rect,
    screen: Rect,
) -> (r: Vec<Widget>)
    ensures
        widgets_view(r@) == dialog_scene(
            area,
            screen,
            "Play Video"@,
            dialog_colors(vibrant, Color::LightGreen),
            play_lines(name@, opt_text(*player)),
        ),
{
    let color: Color = if player.is_some() {
        Color::Green
    } else {
        Color::Red
    };
    let with: String = or_text(clone_opt(player), "not configured");
    let quoted: String = cat3("\"", truncate_name(name, 40).as_str(), "\"");
    let mut lines: Vec<Line> = no_lines();
    add_blank(&mut lines);
    add3(
        &mut lines,
        span("  Play ", Style::fg(Color::Cyan)),
        span_owned(quoted, Style::bold(Color::Yellow)),
        span("?", Style::fg(Color::Cyan)),
    );
    add_blank(&mut lines);
    add2(
        &mut lines,
        span("  Open with: ", Style::fg(Color::DarkGray)),
        span_owned(with, Style::fg(color)),
    );
    add_hints(&mut lines, &play_keys());
    assert(lines_view(lines@) =~= play_lines(name@, opt_text(*player)));
    show_dialog(area, screen, "Play Video", colors_of_dialog(vibrant, Color::LightGreen), lines)
}

pub open spec fn is_under_way(t: DownloadTask) -> bool {
    t.status == TaskStatus::Downloading || t.status == TaskStatus::Pending
}

/// How many downloads are not done yet.
pub open spec fn under_way(tasks: Seq<DownloadTask>) -> nat
    decreases tasks.len(),
{
    if tasks.len() == 0 {
        0
    } else {
        under_way(tasks.drop_last()) + if is_under_way(tasks.last()) {
            1nat
        } else {
            0nat
        }
    }
}

pub fn count_under_way(tasks: &Vec<DownloadTask>) -> (r: usize)
    ensures
        r == under_way(tasks@),
{
    let mut n: usize = 0;
    let mut i: usize = 0;
    assert(tasks@.take(0).len() == 0);
    while i < tasks.len()
        invariant
            i <= tasks@.len(),
            n <= i,
            n == under_way(tasks@.take(i as int)),
        decreases tasks@.len() - i,
    {
        assert(tasks@.take(i + 1).drop_last() =~= tasks@.take(i as int));
        let s: TaskStatus = tasks[i].status;
        if s == TaskStatus::Downloading || s == TaskStatus::Pending {
            n += 1;
        }
        i += 1;
    }
    assert(tasks@.take(i as int) =~= tasks@);
    n
}

/// The question whether to leave while downloads are under way.
pub open spec fn quit_lines(active: nat) -> Seq<LineView> {
    with_hints(
        seq![
            blank_line(),
            line2(
                span_of("  "@, Style::plain_spec()),
                span_of(
                    decimal(active) + " download(s) still active."@,
                    Style::bold_spec(Color::Yellow),
                ),
            ),
            text_line("  Quit anyway?"@, Color::Yellow),
        ],
        quit_hints(),
    )
}

pub fn draw_confirm_quit_overlay(
    tasks: &Vec<DownloadTask>,
    vibrant: bool,
    area: Rect,
    screen: Rect,
) -> (r: Vec<Widget>)
    ensures
        widgets_view(r@) == dialog_scene(
            area,
            screen,
            "Confirm Quit"@,
            themed(vibrant, Color::Yellow, Color::Yellow),
            quit_lines(under_way(tasks@)),
        ),
{
    let n: usize = count_under_way(tasks);
    let mut lines: Vec<Line> = no_lines();
    add_blank(&mut lines);
    add2(
        &mut lines,
        span("  ", Style::plain()),
        span_owned(
            cat2(dec(n as u64).as_str(), " download(s) still active."),
            Style::bold(Color::Yellow),
        ),
    );
    add_text_line(&mut lines, "  Quit anyway?", Color::Yellow);
    add_hints(&mut lines, &quit_keys());
    assert(lines_view(lines@) =~= quit_lines(under_way(tasks@)));
    show_dialog(area, screen, "Confirm Quit", themed_colors(vibrant, Color::Yellow), lines)
}

/// The name of the entry that a question is about.
pub open spec fn asked_name(e: Option<Entry>) -> Chars {
    match e {
        Some(e) => e.name@,
        None => "<none>"@,
    }
}

fn name_asked(e: &Option<Entry>) -> (r: String)
    ensures
        r@ == asked_name(*e),
{
    match e {
        Some(e) => e.name.clone(),
        None => owned("<none>"),
    }
}

/// A name in backquotes.
pub open spec fn quoted(name: Chars) -> Chars {
    "`"@ + name + "`"@
}

pub open spec fn delete_lines(name: Chars) -> Seq<LineView> {
    with_hints(
        seq![
            blank_line(),
            line3(
                span_of("  Delete "@, Style::fg_spec(Color::Red)),
                span_of(quoted(name), Style::bold_spec(Color::Yellow)),
                span_of(" permanently?"@, Style::fg_spec(Color::Red)),
            ),
        ],
        delete_hints(),
    )
}

pub fn draw_confirm_delete_overlay(e: &Option<Entry>, vibrant: bool, area: Rect, screen: Rect) -> (r:
    Vec<Widget>)
    ensures
        widgets_view(r@) == dialog_scene(
            area,
            screen,
            "Confirm Remove"@,
            themed(vibrant, Color::Red, Color::Red),
            delete_lines(asked_name(*e)),
        ),
{
    let name: String = name_asked(e);
    let mut lines: Vec<Line> = no_lines();
    add_blank(&mut lines);
    add3(
        &mut lines,
        span("  Delete ", Style::fg(Color::Red)),
        span_owned(cat3("`", name.as_str(), "`"), Style::bold(Color::Yellow)),
        span(" permanently?", Style::fg(Color::Red)),
    );
    add_hints(&mut lines, &delete_keys());
    assert(lines_view(lines@) =~= delete_lines(asked_name(*e)));
    show_dialog(area, screen, "Confirm Remove", themed_colors(vibrant, Color::Red), lines)
}

/// The warning before something is deleted for good.
pub open spec fn permanent_lines(name: Chars, value: Chars, c: FieldCursor, area: Rect) -> Seq<LineView> {
    let lead: Seq<LineView> = seq![blank_line()];
    with_hints(
        (lead + triangle()).push(blank_line()).push(
            line2(
                span_of("      PERMANENTLY DELETE "@, Style::bold_spec(Color::Red)),
                span_of(quoted(name), Style::bold_spec(Color::Yellow)),
            ),
        ).push(text_line("        This cannot be undone!"@, Color::Red)).push(blank_line()).push(
            line2(
                span_of("  Type 'yes' to confirm: "@, Style::fg_spec(Color::Reset)),
                span_of(
                    field_text(value, c, max_int(area.width - 29, 0)),
                    Style::fg_spec(Color::Yellow),
                ),
            ),
        ),
        confirm_hints(),
    )
}

pub open spec fn permanent_scene(
    e: Option<Entry>,
    value: Chars,
    c: FieldCursor,
    area: Rect,
    screen: Rect,
) -> SceneView {
    overlay_scene(
        area,
        screen,
        panel_of(
            area,
            " \u{26a0} Permanent Delete "@,
            Style::fg_spec(Color::Red),
            Color::Red,
            permanent_lines(asked_name(e), value, c, area),
        ),
    )
}

pub fn draw_confirm_permanent_delete_overlay(
    e: &Option<Entry>,
    value: &str,
    c: FieldCursor,
    area: Rect,
    screen: Rect,
) -> (r: Vec<Widget>)
    ensures
        widgets_view(r@) == permanent_scene(*e, value@, c, area, screen),
{
    let name: String = name_asked(e);
    let mut lines: Vec<Line> = no_lines();
    add_blank(&mut lines);
    add_lines(&mut lines, warn_triangle_lines());
    add_blank(&mut lines);
    add2(
        &mut lines,
        span("      PERMANENTLY DELETE ", Style::bold(Color::Red)),
        span_owned(cat3("`", name.as_str(), "`"), Style::bold(Color::Yellow)),
    );
    add_text_line(&mut lines, "        This cannot be undone!", Color::Red);
    add_blank(&mut lines);
    add2(
        &mut lines,
        span("  Type 'yes' to confirm: ", Style::fg(Color::Reset)),
        span_owned(
            show_field(value, c, area.width.saturating_sub(29) as usize),
            Style::fg(Color::Yellow),
        ),
    );
    add_hints(&mut lines, &confirm_keys());
    on_cleared(
        area,
        screen,
        panel(
            area,
            owned(" \u{26a0} Permanent Delete "),
            Style::fg(Color::Red),
            Color::Red,
            lines,
        ),
    )
}

pub open spec fn cart_delete_lines(count: nat) -> Seq<LineView> {
    with_hints(
        seq![
            blank_line(),
            line3(
                span_of("  Trash "@, Style::fg_spec(Color::Red)),
                span_of(decimal(count) + " item(s)"@, Style::bold_spec(Color::Yellow)),
                span_of(" from cart?"@, Style::fg_spec(Color::Red)),
            ),
        ],
        cart_delete_hints(),
    )
}

pub fn draw_confirm_cart_delete_overlay(count: usize, vibrant: bool, area: Rect, screen: Rect) -> (r:
    Vec<Widget>)
    ensures
        widgets_view(r@) == dialog_scene(
            area,
            screen,
            "Confirm Trash Cart"@,
            themed(vibrant, Color::Red, Color::Red),
            cart_delete_lines(count as nat),
        ),
{
    let mut lines: Vec<Line> = no_lines();
    add_blank(&mut lines);
    add3(
        &mut lines,
        span("  Trash ", Style::fg(Color::Red)),
        span_owned(cat2(dec(count as u64).as_str(), " item(s)"), Style::bold(Color::Yellow)),
        span(" from cart?", Style::fg(Color::Red)),
    );
    add_hints(&mut lines, &cart_delete_keys());
    assert(lines_view(lines@) =~= cart_delete_lines(count as nat));
    show_dialog(area, screen, "Confirm Trash Cart", themed_colors(vibrant, Color::Red), lines)
}

/// The height of a dialog with candidates in percent: as many lines as are needed, between 20 and
/// 60 percent of the screen.
pub open spec fn input_percent(base: int, candidates: nat, height: u16) -> int {
    let n = min_int(candidates as int, 8);
    let lines = base + if n > 0 {
        n + 1
    } else {
        0
    };
    min_int(max_int((lines * 100) / max_int(height as int, 1), 20), 60)
}

pub fn percent_of_input(base: usize, candidates: usize, height: u16) -> (r: u16)
    requires
        base <= 10,
    ensures
        r == input_percent(base as int, candidates as nat, height),
        r <= 100,
{
    let n: usize = if candidates < 8 {
        candidates
    } else {
        8
    };
    let lines: usize = base + if n > 0 {
        n + 1
    } else {
        0
    };
    let h: usize = if height < 1 {
        1
    } else {
        height as usize
    };
    let p: usize = (lines * 100) / h;
    if p < 20 {
        20
    } else if p > 60 {
        60
    } else {
        p as u16
    }
}

pub open spec fn candidate_style(selected: bool) -> Style {
    if selected {
        Style::bold_spec(Color::Yellow)
    } else {
        Style::fg_spec(Color::Blue)
    }
}

pub open spec fn candidate_prefix(selected: bool) -> Chars {
    if selected {
        "  > "@
    } else {
        "    "@
    }
}

/// A candidate for a path.
pub open spec fn candidate_line(name: Chars, folder: bool, selected: bool) -> LineView {
    line1(
        span_of(
            candidate_prefix(selected) + name + (if folder {
                "/"@
            } else {
                ""@
            }),
            candidate_style(selected),
        ),
    )
}

fn add_candidate(lines: &mut Vec<Line>, name: &str, folder: bool, selected: bool)
    ensures
        lines_view(final(lines)@) == lines_view(old(lines)@).push(
            candidate_line(name@, folder, selected),
        ),
{
    let prefix: &str = if selected {
        "  > "
    } else {
        "    "
    };
    let style: Style = if selected {
        Style::bold(Color::Yellow)
    } else {
        Style::fg(Color::Blue)
    };
    let tail: &str = if folder {
        "/"
    } else {
        ""
    };
    add1(lines, span_owned(cat3(prefix, name, tail), style));
}

/// The note that there are more candidates.
pub open spec fn more_line(n: int) -> LineView {
    text_line("    ... and "@ + decimal(n as nat) + " more"@, Color::DarkGray)
}

/// The first eight candidates for a destination.
pub open spec fn path_candidates(candidates: Seq<String>, idx: Option<usize>) -> Seq<LineView> {
    Seq::new(
        min_int(candidates.len() as int, 8) as nat,
        |i: int| candidate_line(candidates[i]@, true, idx == Some(i as usize)),
    )
}

/// The candidates below the field of a destination.
pub open spec fn path_list(candidates: Seq<String>, idx: Option<usize>) -> Seq<LineView> {
    let lead: Seq<LineView> = seq![blank_line()];
    if candidates.len() == 0 {
        Seq::empty()
    } else if candidates.len() > 8 {
        (lead + path_candidates(candidates, idx)).push(more_line(candidates.len() - 8))
    } else {
        lead + path_candidates(candidates, idx)
    }
}

fn build_path_candidates(candidates: &Vec<String>, idx: Option<usize>) -> (r: Vec<Line>)
    ensures
        lines_view(r@) == path_candidates(candidates@, idx),
{
    let n: usize = if candidates.len() < 8 {
        candidates.len()
    } else {
        8
    };
    let mut out: Vec<Line> = no_lines();
    let ghost all = path_candidates(candidates@, idx);
    let mut i: usize = 0;
    assert(all.take(0) =~= Seq::empty());
    while i < n
        invariant
            i <= n == all.len(),
            n <= candidates@.len(),
            all == path_candidates(candidates@, idx),
            lines_view(out@) == all.take(i as int),
        decreases n - i,
    {
        let on: bool = match idx {
            Some(k) => k == i,
            None => false,
        };
        add_candidate(&mut out, candidates[i].as_str(), true, on);
        assert(all.take(i + 1) =~= all.take(i as int).push(all[i as int]));
        i += 1;
    }
    assert(all.take(i as int) =~= all);
    out
}

fn build_path_list(candidates: &Vec<String>, idx: Option<usize>) -> (r: Vec<Line>)
    ensures
        lines_view(r@) == path_list(candidates@, idx),
{
    let mut out: Vec<Line> = no_lines();
    if candidates.len() == 0 {
        return out;
    }
    add_blank(&mut out);
    add_lines(&mut out, build_path_candidates(candidates, idx));
    if candidates.len() > 8 {
        let more: String = cat3(
            "    ... and ",
            dec((candidates.len() - 8) as u64).as_str(),
            " more",
        );
        add_text_line(&mut out, more.as_str(), Color::DarkGray);
    }
    out
}

/// The dialog in which a destination is typed.
pub open spec fn path_lines(
    label: Chars,
    value: Chars,
    candidates: Seq<String>,
    idx: Option<usize>,
    c: FieldCursor,
    area: Rect,
) -> Seq<LineView> {
    let l = "  "@ + label + ": "@;
    let lead: Seq<LineView> = seq![
        blank_line(),
        input_line(l, value, c, area, text_columns(l) + 2),
    ];
    with_hints(lead + path_list(candidates, idx), path_hints())
}

pub fn draw_path_input_overlay(
    title: &str,
    label: &str,
    input: &PathInput,
    c: FieldCursor,
    vibrant: bool,
    area: Rect,
    screen: Rect,
) -> (r: Vec<Widget>)
    ensures
        widgets_view(r@) == dialog_scene(
            area,
            screen,
            title@,
            themed(vibrant, Color::Cyan, Color::Yellow),
            path_lines(label@, input@.value, input@.candidates, input@.candidate_idx, c, area),
        ),
{
    let l: String = cat3("  ", label, ": ");
    let w: usize = text_width(l.as_str());
    let max: usize = (area.width as usize).saturating_sub(w).saturating_sub(2);
    let mut lines: Vec<Line> = no_lines();
    add_blank(&mut lines);
    add2(
        &mut lines,
        span(l.as_str(), Style::fg(Color::Cyan)),
        span_owned(show_field(input.value.as_str(), c, max), Style::fg(Color::Yellow)),
    );
    let ghost lead: Seq<LineView> = seq![
        blank_line(),
        input_line(l@, input@.value, c, area, text_columns(l@) + 2),
    ];
    assert(lines_view(lines@) =~= lead);
    add_lines(&mut lines, build_path_list(&input.candidates, input.candidate_idx));
    add_hints(&mut lines, &path_keys());
    show_dialog(
        area,
        screen,
        title,
        themed_colors_pair(vibrant, Color::Cyan, Color::Yellow),
        lines,
    )
}

/// The first candidate of the window in which the chosen one is seen: where there are candidates
/// above it, their number takes one of the eight rows.
pub open spec fn window_slots(sel: int) -> int {
    if sel >= 8 {
        7
    } else {
        8
    }
}

pub open spec fn window_from(sel: int) -> int {
    max_int(sel + 1 - window_slots(sel), 0)
}

pub open spec fn window_to(sel: int, total: int) -> int {
    min_int(window_from(sel) + window_slots(sel), total)
}

pub open spec fn chosen(idx: Option<usize>) -> int {
    match idx {
        Some(i) => i as int,
        None => 0,
    }
}

/// The candidates of the window.
pub open spec fn local_window(candidates: Seq<(String, bool)>, idx: Option<usize>) -> Seq<LineView> {
    let from = window_from(chosen(idx));
    let to = window_to(chosen(idx), candidates.len() as int);
    Seq::new(
        max_int(to - from, 0) as nat,
        |k: int|
            candidate_line(
                candidates[from + k].0@,
                candidates[from + k].1,
                idx == Some((from + k) as usize),
            ),
    )
}

pub open spec fn above_line(n: int) -> LineView {
    text_line("    \u{2191} "@ + decimal(n as nat) + " more above"@, Color::DarkGray)
}

/// The candidates below the field of a local path.
pub open spec fn local_list(candidates: Seq<(String, bool)>, idx: Option<usize>) -> Seq<LineView> {
    let sel = chosen(idx);
    let to = window_to(sel, candidates.len() as int);
    let lead: Seq<LineView> = if sel >= 8 {
        seq![blank_line(), above_line(window_from(sel))]
    } else {
        seq![blank_line()]
    };
    if candidates.len() == 0 {
        Seq::empty()
    } else if to < candidates.len() {
        (lead + local_window(candidates, idx)).push(more_line(candidates.len() - to))
    } else {
        lead + local_window(candidates, idx)
    }
}

fn build_local_window(
    candidates: &Vec<(String, bool)>,
    idx: Option<usize>,
    from: usize,
    to: usize,
) -> (r: Vec<Line>)
    requires
        from == window_from(chosen(idx)),
        to == window_to(chosen(idx), candidates@.len() as int),
    ensures
        lines_view(r@) == local_window(candidates@, idx),
{
    let mut out: Vec<Line> = no_lines();
    let ghost all = local_window(candidates@, idx);
    let mut i: usize = from;
    assert(all.take(0) =~= Seq::empty());
    while i < to
        invariant
            from <= i,
            i <= to || i == from,
            from == window_from(chosen(idx)),
            to == window_to(chosen(idx), candidates@.len() as int),
            to <= candidates@.len(),
            all == local_window(candidates@, idx),
            lines_view(out@) == all.take(i - from),
        decreases to - i,
    {
        let on: bool = match idx {
            Some(k) => k == i,
            None => false,
        };
        add_candidate(&mut out, candidates[i].0.as_str(), candidates[i].1, on);
        let ghost k = i - from;
        assert(all.take(k + 1) =~= all.take(k).push(all[k]));
        i += 1;
        assert(i - from == k + 1);
    }
    assert(all.take(i - from) =~= all);
    out
}

fn least(a: usize, b: usize) -> (r: usize)
    ensures
        r == min_int(a as int, b as int),
{
    if a <= b {
        a
    } else {
        b
    }
}

/// Lists the candidates of a local path in a window that keeps the chosen one in sight.
pub fn draw_candidate_list(candidates: &Vec<(String, bool)>, idx: Option<usize>) -> (r: Vec<Line>)
    ensures
        lines_view(r@) == local_list(candidates@, idx),
{
    let mut out: Vec<Line> = no_lines();
    if candidates.len() == 0 {
        return out;
    }
    let sel: usize = match idx {
        Some(i) => i,
        None => 0,
    };
    let slots: usize = if sel >= 8 {
        7
    } else {
        8
    };
    let from: usize = if sel >= slots {
        sel - (slots - 1)
    } else {
        (sel + 1).saturating_sub(slots)
    };
    let to: usize = if from <= usize::MAX - slots {
        least(from + slots, candidates.len())
    } else {
        candidates.len()
    };
    add_blank(&mut out);
    if sel >= 8 {
        let above: String = cat3("    \u{2191} ", dec(from as u64).as_str(), " more above");
        add_text_line(&mut out, above.as_str(), Color::DarkGray);
    }
    add_lines(&mut out, build_local_window(candidates, idx, from, to));
    if to < candidates.len() {
        let more: String = cat3(
            "    ... and ",
            dec((candidates.len() - to) as u64).as_str(),
            " more",
        );
        add_text_line(&mut out, more.as_str(), Color::DarkGray);
    }
    out
}

/// The candidate that is chosen is always in sight.
pub proof fn law_chosen_candidate_is_seen(sel: int, total: int)
    requires
        0 <= sel < total,
    ensures
        window_from(sel) <= sel < window_to(sel, total),
        window_to(sel, total) - window_from(sel) <= 8,
{
}

pub open spec fn download_lines(
    value: Chars,
    candidates: Seq<(String, bool)>,
    idx: Option<usize>,
    c: FieldCursor,
    area: Rect,
) -> Seq<LineView> {
    let lead: Seq<LineView> = seq![
        blank_line(),
        input_line("  Save to: "@, value, c, area, 13),
    ];
    with_hints(lead + local_list(candidates, idx), local_path_hints())
}

pub fn draw_download_input_overlay(
    input: &LocalPathInput,
    count: usize,
    c: FieldCursor,
    vibrant: bool,
    area: Rect,
    screen: Rect,
) -> (r: Vec<Widget>)
    ensures
        widgets_view(r@) == dialog_scene(
            area,
            screen,
            "Download "@ + decimal(count as nat) + " files"@,
            dialog_colors(vibrant, Color::LightGreen),
            download_lines(input@.value, input@.candidates, input@.candidate_idx, c, area),
        ),
{
    let mut lines: Vec<Line> = no_lines();
    add_blank(&mut lines);
    add_input(&mut lines, "  Save to: ", input.value.as_str(), c, area, 13);
    let ghost lead: Seq<LineView> = seq![
        blank_line(),
        input_line("  Save to: "@, input@.value, c, area, 13),
    ];
    assert(lines_view(lines@) =~= lead);
    add_lines(&mut lines, draw_candidate_list(&input.candidates, input.candidate_idx));
    add_hints(&mut lines, &local_path_keys());
    let title: String = cat3("Download ", dec(count as u64).as_str(), " files");
    show_dialog(
        area,
        screen,
        title.as_str(),
        colors_of_dialog(vibrant, Color::LightGreen),
        lines,
    )
}

pub open spec fn upload_hints() -> HintsView {
    seq![("Tab"@, "complete"@), ("Enter"@, "upload"@), ("Esc"@, "cancel"@)]
}

pub open spec fn upload_lines(
    dest: Chars,
    value: Chars,
    candidates: Seq<(String, bool)>,
    idx: Option<usize>,
    c: FieldCursor,
    area: Rect,
) -> Seq<LineView> {
    let lead: Seq<LineView> = seq![
        blank_line(),
        line2(
            span_of("  Upload to: "@, Style::fg_spec(Color::DarkGray)),
            span_of(dest, Style::fg_spec(Color::Reset)),
        ),
        input_line("  File:      "@, value, c, area, 15),
    ];
    with_hints(lead + local_list(candidates, idx), upload_hints())
}

pub open spec fn upload_scene(
    dest: Chars,
    value: Chars,
    candidates: Seq<(String, bool)>,
    idx: Option<usize>,
    c: FieldCursor,
    vibrant: bool,
    area: Rect,
    screen: Rect,
) -> SceneView {
    let colors = themed(vibrant, Color::Yellow, Color::Yellow);
    overlay_scene(
        area,
        screen,
        panel_of(
            area,
            " Upload File "@,
            Style::bold_spec(colors.1),
            colors.0,
            upload_lines(dest, value, candidates, idx, c, area),
        ),
    )
}

pub fn draw_upload_input_overlay(
    input: &LocalPathInput,
    dest: &str,
    c: FieldCursor,
    vibrant: bool,
    area: Rect,
    screen: Rect,
) -> (r: Vec<Widget>)
    ensures
        widgets_view(r@) == upload_scene(
            dest@,
            input@.value,
            input@.candidates,
            input@.candidate_idx,
            c,
            vibrant,
            area,
            screen,
        ),
{
    let colors: Pair = themed_colors(vibrant, Color::Yellow);
    let mut lines: Vec<Line> = no_lines();
    add_blank(&mut lines);
    add2(
        &mut lines,
        span("  Upload to: ", Style::fg(Color::DarkGray)),
        span(dest, Style::fg(Color::Reset)),
    );
    add_input(&mut lines, "  File:      ", input.value.as_str(), c, area, 15);
    let ghost lead: Seq<LineView> = seq![
        blank_line(),
        line2(
            span_of("  Upload to: "@, Style::fg_spec(Color::DarkGray)),
            span_of(dest@, Style::fg_spec(Color::Reset)),
        ),
        input_line("  File:      "@, input@.value, c, area, 15),
    ];
    assert(lines_view(lines@) =~= lead);
    add_lines(&mut lines, draw_candidate_list(&input.candidates, input.candidate_idx));
    add_hints(
        &mut lines,
        &hints3(("Tab", "complete"), ("Enter", "upload"), ("Esc", "cancel")),
    );
    on_cleared(
        area,
        screen,
        panel(area, owned(" Upload File "), Style::bold(colors.1), colors.0, lines),
    )
}

/// The sign that something is being loaded.
pub open spec fn loading_scene(
    label: Option<Chars>,
    frame: usize,
    vibrant: bool,
    area: Rect,
    screen: Rect,
) -> SceneView {
    let colors = themed(vibrant, Color::Cyan, Color::Cyan);
    overlay_scene(
        area,
        screen,
        panel_of(
            area,
            match label {
                Some(l) => spaced(l),
                None => " \u{2139} Info "@,
            },
            Style::bold_spec(colors.1),
            colors.0,
            seq![
                blank_line(),
                text_line(
                    "  "@ + spinner(frame) + " "@ + text_or(label, "Loading..."@),
                    Color::Cyan,
                ),
                blank_line(),
                text_line("  Esc to cancel"@, Color::DarkGray),
            ],
        ),
    )
}

pub fn draw_info_loading_overlay(
    label: &Option<String>,
    frame: usize,
    vibrant: bool,
    area: Rect,
    screen: Rect,
) -> (r: Vec<Widget>)
    ensures
        widgets_view(r@) == loading_scene(opt_text(*label), frame, vibrant, area, screen),
{
    let colors: Pair = themed_colors(vibrant, Color::Cyan);
    let title: String = match label {
        Some(l) => space_around(l.as_str()),
        None => owned(" \u{2139} Info "),
    };
    let what: String = or_text(clone_opt(label), "Loading...");
    let text: String = cat4("  ", spinner_frame(frame), " ", what.as_str());
    let mut lines: Vec<Line> = no_lines();
    add_blank(&mut lines);
    add_text_line(&mut lines, text.as_str(), Color::Cyan);
    add_blank(&mut lines);
    add_text_line(&mut lines, "  Esc to cancel", Color::DarkGray);
    assert(lines_view(lines@) =~= seq![
        blank_line(),
        text_line(text@, Color::Cyan),
        blank_line(),
        text_line("  Esc to cancel"@, Color::DarkGray),
    ]);
    on_cleared(
        area,
        screen,
        panel(area, title, Style::bold(colors.1), colors.0, lines),
    )
}

/// A text on its own.
pub open spec fn text_overlay_lines(
    lines: Seq<LineView>,
    truncated: bool,
    max_size: u64,
    area: Rect,
) -> Seq<LineView> {
    let reserved: int = if truncated {
        2
    } else {
        1
    };
    let seen = window(lines, 0, max_int(max_int(area.height - 2, 0) - reserved, 0));
    let noted = if truncated {
        seen.push(cut_note(max_size))
    } else {
        seen
    };
    noted.push(text_line("  Press any key to close"@, Color::DarkGray))
}

pub open spec fn text_overlay_scene(
    name: Chars,
    lines: Seq<LineView>,
    truncated: bool,
    max_size: u64,
    vibrant: bool,
    area: Rect,
    screen: Rect,
) -> SceneView {
    let colors = themed(vibrant, Color::Cyan, Color::Cyan);
    overlay_scene(
        area,
        screen,
        panel_of(
            area,
            spaced(shortened(name, 40)),
            Style::bold_spec(colors.1),
            colors.0,
            text_overlay_lines(lines, truncated, max_size, area),
        ),
    )
}

pub fn draw_text_preview_overlay(
    name: &str,
    lines: &Vec<Line>,
    truncated: bool,
    max_size: u64,
    vibrant: bool,
    area: Rect,
    screen: Rect,
) -> (r: Vec<Widget>)
    ensures
        widgets_view(r@) == text_overlay_scene(
            name@,
            lines_view(lines@),
            truncated,
            max_size,
            vibrant,
            area,
            screen,
        ),
{
    let colors: Pair = themed_colors(vibrant, Color::Cyan);
    let reserved: u16 = if truncated {
        2
    } else {
        1
    };
    let rows: usize = area.height.saturating_sub(2).saturating_sub(reserved) as usize;
    let mut seen: Vec<Line> = take_window(lines, 0, rows);
    if truncated {
        add_cut_note(&mut seen, max_size);
    }
    add_text_line(&mut seen, "  Press any key to close", Color::DarkGray);
    on_cleared(
        area,
        screen,
        panel(
            area,
            space_around(truncate_name(name, 40).as_str()),
            Style::bold(colors.1),
            colors.0,
            seen,
        ),
    )
}

/// An entry of a folder that is looked into.
pub open spec fn folder_item(looks: Looks, e: Entry) -> LineView {
    let look = looks.of(e.category);
    seq![
        span_of("  "@, Style::plain_spec()),
        span_of(look.icon, Style::fg_spec(look.color)),
        span_of(" "@, Style::plain_spec()),
        span_of(e.name@, Style::fg_spec(look.color)),
    ]
}

pub open spec fn folder_items(looks: Looks, entries: Seq<Entry>) -> Seq<LineView> {
    Seq::new(min_int(entries.len() as int, 20) as nat, |i: int| folder_item(looks, entries[i]))
}

fn build_folder_items(looks: &Looks, entries: &Vec<Entry>) -> (r: Vec<Line>)
    ensures
        lines_view(r@) == folder_items(*looks, entries@),
{
    let n: usize = least(entries.len(), 20);
    let mut out: Vec<Line> = no_lines();
    let ghost all = folder_items(*looks, entries@);
    let mut i: usize = 0;
    assert(all.take(0) =~= Seq::empty());
    while i < n
        invariant
            i <= n == all.len(),
            n <= entries@.len(),
            all == folder_items(*looks, entries@),
            lines_view(out@) == all.take(i as int),
        decreases n - i,
    {
        let e: &Entry = &entries[i];
        let look: &Look = looks.get(e.category);
        let mut v: Vec<Span> = no_spans();
        add_span(&mut v, span("  ", Style::plain()));
        add_span(&mut v, span(look.icon.as_str(), Style::fg(look.color)));
        add_span(&mut v, span(" ", Style::plain()));
        add_span(&mut v, span(e.name.as_str(), Style::fg(look.color)));
        assert(spans_view(v@) =~= all[i as int]);
        add_line(&mut out, v);
        assert(all.take(i + 1) =~= all.take(i as int).push(all[i as int]));
        i += 1;
    }
    assert(all.take(i as int) =~= all);
    out
}

/// The contents of a folder that is looked into: twenty entries at most.
pub open spec fn folder_overlay_lines(looks: Looks, entries: Seq<Entry>) -> Seq<LineView> {
    let lead: Seq<LineView> = seq![blank_line()];
    let body = if entries.len() == 0 {
        lead.push(text_line("  (empty folder)"@, Color::DarkGray))
    } else if entries.len() > 20 {
        (lead + folder_items(looks, entries)).push(
            text_line(
                "  ... and "@ + decimal((entries.len() - 20) as nat) + " more"@,
                Color::DarkGray,
            ),
        )
    } else {
        lead + folder_items(looks, entries)
    };
    body.push(blank_line()).push(text_line("  Press any key to close"@, Color::DarkGray))
}

/// The height of the look into a folder in percent.
pub open spec fn folder_percent(entries: nat, height: u16) -> int {
    let lines = 4 + min_int(entries as int, 20);
    min_int(max_int((lines * 100) / max_int(height as int, 1), 25), 70)
}

pub fn percent_of_folder(entries: usize, height: u16) -> (r: u16)
    ensures
        r == folder_percent(entries as nat, height),
        r <= 100,
{
    let lines: usize = 4 + least(entries, 20);
    let h: usize = if height < 1 {
        1
    } else {
        height as usize
    };
    let p: usize = (lines * 100) / h;
    if p < 25 {
        25
    } else if p > 70 {
        70
    } else {
        p as u16
    }
}

pub open spec fn folder_overlay_scene(
    name: Chars,
    entries: Seq<Entry>,
    vibrant: bool,
    area: Rect,
    screen: Rect,
    kit: Kit,
) -> SceneView {
    let colors = themed(vibrant, Color::Cyan, Color::Cyan);
    overlay_scene(
        area,
        screen,
        panel_of(
            area,
            " "@ + shortened(name, 25) + " ("@ + decimal(entries.len()) + ") "@,
            Style::bold_spec(colors.1),
            colors.0,
            folder_overlay_lines(kit.looks, entries),
        ),
    )
}

pub fn draw_info_folder_overlay(
    name: &str,
    entries: &Vec<Entry>,
    vibrant: bool,
    area: Rect,
    screen: Rect,
    kit: &Kit,
) -> (r: Vec<Widget>)
    ensures
        widgets_view(r@) == folder_overlay_scene(name@, entries@, vibrant, area, screen, *kit),
{
    let colors: Pair = themed_colors(vibrant, Color::Cyan);
    let mut lines: Vec<Line> = no_lines();
    add_blank(&mut lines);
    if entries.len() == 0 {
        add_text_line(&mut lines, "  (empty folder)", Color::DarkGray);
    } else {
        add_lines(&mut lines, build_folder_items(&kit.looks, entries));
        if entries.len() > 20 {
            let more: String = cat3(
                "  ... and ",
                dec((entries.len() - 20) as u64).as_str(),
                " more",
            );
            add_text_line(&mut lines, more.as_str(), Color::DarkGray);
        }
    }
    add_blank(&mut lines);
    add_text_line(&mut lines, "  Press any key to close", Color::DarkGray);
    let title: String = cat5(
        " ",
        truncate_name(name, 25).as_str(),
        " (",
        dec(entries.len() as u64).as_str(),
        ") ",
    );
    on_cleared(
        area,
        screen,
        panel(area, title, Style::bold(colors.1), colors.0, lines),
    )
}

pub open spec fn login_style(active: bool) -> Style {
    Style::fg_spec(
        if active {
            Color::Yellow
        } else {
            Color::Reset
        },
    )
}

fn style_of_login(active: bool) -> (r: Style)
    ensures
        r == login_style(active),
{
    if active {
        Style::fg(Color::Yellow)
    } else {
        Style::fg(Color::Reset)
    }
}

/// A password, hidden.
pub open spec fn masked(password: Chars) -> Chars {
    repeated('*', password.len())
}

/// A field of the sign-in form: with a cursor where it is the active one.
pub open spec fn login_field(value: Chars, active: bool, c: FieldCursor, width: int) -> Chars {
    if active {
        field_text(value, c, width)
    } else {
        padded(value, width as nat)
    }
}

/// The cursor in the hidden password.
pub open spec fn masked_cursor(password: Chars, c: FieldCursor) -> FieldCursor {
    FieldCursor { at: index_at(password, c.at as nat) as usize, visible: c.visible }
}

/// What the sign-in form says below its fields.
pub open spec fn login_note(error: Option<Chars>, logging_in: bool) -> Seq<LineView> {
    if logging_in {
        seq![text_line("  Logging in..."@, Color::Cyan)]
    } else {
        match error {
            Some(e) => seq![text_line("  "@ + e, Color::Red), blank_line()],
            None => Seq::empty(),
        }
    }
}

pub open spec fn login_hints() -> HintsView {
    seq![("Tab"@, "switch"@), ("Enter"@, "login"@), ("Esc"@, "quit"@)]
}

/// The sign-in form.
pub open spec fn login_lines(
    field: LoginField,
    email: Chars,
    password: Chars,
    error: Option<Chars>,
    logging_in: bool,
    c: FieldCursor,
    area: Rect,
) -> Seq<LineView> {
    let width = max_int(area.width - 14, 0);
    let at_email = field == LoginField::Email;
    let form: Seq<LineView> = seq![
        blank_line(),
        line2(
            span_of("  Email:    "@, login_style(at_email)),
            span_of(login_field(email, at_email, c, width), login_style(at_email)),
        ),
        blank_line(),
        line2(
            span_of("  Password: "@, login_style(!at_email)),
            span_of(
                login_field(masked(password), !at_email, masked_cursor(password, c), width),
                login_style(!at_email),
            ),
        ),
        blank_line(),
    ];
    with_hints(form + login_note(error, logging_in), login_hints())
}

fn build_login_note(error: &Option<String>, logging_in: bool) -> (r: Vec<Line>)
    ensures
        lines_view(r@) == login_note(opt_text(*error), logging_in),
{
    let mut v: Vec<Line> = no_lines();
    if logging_in {
        add_text_line(&mut v, "  Logging in...", Color::Cyan);
        return v;
    }
    match error {
        Some(e) => {
            add_text_line(&mut v, cat2("  ", e.as_str()).as_str(), Color::Red);
            add_blank(&mut v);
        },
        None => {},
    }
    v
}

fn build_login_field(value: &str, active: bool, c: FieldCursor, width: usize) -> (r: String)
    ensures
        r@ == login_field(value@, active, c, width as int),
{
    if active {
        show_field(value, c, width)
    } else {
        pad_to_width(value, width)
    }
}

fn find_masked_cursor(password: &Vec<char>, c: FieldCursor) -> (r: FieldCursor)
    ensures
        r == masked_cursor(password@, c),
{
    FieldCursor { at: char_index(password, c.at), visible: c.visible }
}

pub open spec fn login_scene(
    field: LoginField,
    email: Chars,
    password: Chars,
    error: Option<Chars>,
    logging_in: bool,
    c: FieldCursor,
    vibrant: bool,
    area: Rect,
    screen: Rect,
) -> SceneView {
    let colors = themed(vibrant, Color::Cyan, Color::Cyan);
    seq![WidgetView::Background] + overlay_scene(
        area,
        screen,
        WidgetView::Panel {
            area,
            title: " PikPak Login "@,
            title_style: Style::fg_spec(colors.1),
            border: colors.0,
            lines: login_lines(field, email, password, error, logging_in, c, area),
            wrap: true,
        },
    )
}

/// Draws the sign-in form. The password is hidden, and its cursor stands where it does in the
/// password.
pub fn draw_login_screen(
    field: LoginField,
    email: &str,
    password: &str,
    error: &Option<String>,
    logging_in: bool,
    c: FieldCursor,
    vibrant: bool,
    area: Rect,
    screen: Rect,
) -> (r: Vec<Widget>)
    ensures
        widgets_view(r@) == login_scene(
            field,
            email@,
            password@,
            opt_text(*error),
            logging_in,
            c,
            vibrant,
            area,
            screen,
        ),
{
    let colors: Pair = themed_colors(vibrant, Color::Cyan);
    let width: usize = area.width.saturating_sub(14) as usize;
    let at_email: bool = field == LoginField::Email;
    let chars: Vec<char> = chars_of(password);
    let hidden: String = repeat_char('*', chars.len());
    let hidden_cursor: FieldCursor = find_masked_cursor(&chars, c);
    let mut lines: Vec<Line> = no_lines();
    add_blank(&mut lines);
    add2(
        &mut lines,
        span("  Email:    ", style_of_login(at_email)),
        span_owned(build_login_field(email, at_email, c, width), style_of_login(at_email)),
    );
    add_blank(&mut lines);
    add2(
        &mut lines,
        span("  Password: ", style_of_login(!at_email)),
        span_owned(
            build_login_field(hidden.as_str(), !at_email, hidden_cursor, width),
            style_of_login(!at_email),
        ),
    );
    add_blank(&mut lines);
    let ghost form = lines_view(lines@);
    add_lines(&mut lines, build_login_note(error, logging_in));
    add_hints(&mut lines, &hints3(("Tab", "switch"), ("Enter", "login"), ("Esc", "quit")));
    assert(lines_view(lines@) =~= login_lines(
        field,
        email@,
        password@,
        opt_text(*error),
        logging_in,
        c,
        area,
    ));
    let p: Widget = Widget::Panel {
        area,
        title: owned(" PikPak Login "),
        title_style: Style::fg(colors.1),
        border: colors.0,
        lines,
        wrap: true,
    };
    let mut v: Vec<Widget> = no_widgets();
    add_widget(&mut v, Widget::Background);
    let over: Vec<Widget> = on_cleared(area, screen, p);
    let ghost base = widgets_view(v@);
    crate::scene::add_widgets(&mut v, over);
    assert(base =~= seq![WidgetView::Background]);
    v
}

/// No character of a password is ever shown.
pub proof fn law_password_is_hidden(password: Chars, i: int)
    requires
        0 <= i < masked(password).len(),
    ensures
        masked(password)[i] == '*',
        masked(password).len() == password.len(),
{
}

} // verus!
