//! The preview pane.

use crate::app::{App, AppView};
use crate::fields::{
    contains_id, entry_info_lines, entry_lines, field_lines, holds_id, short_field,
    wrap_labeled_field,
};
use crate::geometry::{max_int, min_int, Rect};
use crate::help_sheet::{take_window, window};
use crate::kit::{entry_items, inner_rect, inside, list_entries, spinner, spinner_frame, Kit};
use crate::media::{format_size, size_text};
use crate::model::{
    Entry, EntryKind, FileInfo, FileInfoView, ImageHandle, PreviewState, PreviewView,
};
use crate::scene::{
    add_lines, add_widget, lengths, lies_in, no_widgets, panel, panel_of, split, widgets_view, Axis,
    Rule, SceneView, ThumbnailRenderMode, Widget, WidgetView,
};
use crate::share::{count_of, read_count};
use crate::style::{
    add1, add_blank, blank_line, line1, lines_view, no_lines, span, span_of, span_owned, Color,
    Line, LineView, Style,
};
use crate::text::{cat2, cat3, cat4, cat5, dec, decimal, owned, Chars};
use crate::width::{shortened, truncate_name};
use vstd::prelude::*;

verus! {

/// The preview with a plain border.
pub open spec fn plain_preview(area: Rect, lines: Seq<LineView>) -> SceneView {
    seq![
        panel_of(
            area,
            " Preview "@,
            Style::fg_spec(Color::DarkGray),
            Color::DarkGray,
            lines,
        ),
    ]
}

fn show_plain(area: Rect, lines: Vec<Line>) -> (r: Vec<Widget>)
    ensures
        widgets_view(r@) == plain_preview(area, lines_view(lines@)),
{
    let mut v: Vec<Widget> = no_widgets();
    add_widget(
        &mut v,
        panel(
            area,
            owned(" Preview "),
            Style::fg(Color::DarkGray),
            Color::DarkGray,
            lines,
        ),
    );
    v
}

/// A note below a blank line.
pub open spec fn note_lines(text: Chars, color: Color) -> Seq<LineView> {
    seq![blank_line(), line1(span_of(text, Style::fg_spec(color)))]
}

fn note(text: &str, color: Color) -> (r: Vec<Line>)
    ensures
        lines_view(r@) == note_lines(text@, color),
{
    let mut v: Vec<Line> = no_lines();
    add_blank(&mut v);
    add1(&mut v, span(text, Style::fg(color)));
    v
}

pub open spec fn empty_note(lazy: bool) -> Chars {
    "  "@ + (if lazy {
        "Select an item"@
    } else {
        "Press p to load preview"@
    })
}

pub open spec fn folder_title(n: nat) -> Chars {
    if n == 0 {
        " Preview (empty) "@
    } else {
        " Preview ("@ + decimal(n) + ") "@
    }
}

/// How far a list of `len` rows is scrolled when `wanted` is asked for and `rows` fit.
pub open spec fn scrolled_to(wanted: int, len: int, rows: int) -> int {
    min_int(wanted, max_int(len - max_int(rows, 1), 0))
}

fn scroll_to(wanted: usize, len: usize, rows: usize) -> (r: usize)
    ensures
        r == scrolled_to(wanted as int, len as int, rows as int),
        r <= len,
{
    let shown: usize = if rows < 1 {
        1
    } else {
        rows
    };
    let max: usize = len.saturating_sub(shown);
    if wanted < max {
        wanted
    } else {
        max
    }
}

/// The contents of a folder in the preview.
pub open spec fn folder_preview(area: Rect, children: Seq<Entry>, scroll: int, kit: Kit) -> SceneView {
    let from = scrolled_to(scroll, children.len() as int, max_int(area.height - 2, 0));
    seq![
        WidgetView::List {
            area,
            title: folder_title(children.len()),
            title_style: Style::fg_spec(Color::DarkGray),
            border: Color::DarkGray,
            items: entry_items(kit.looks, children, from),
            selected: None,
            highlight: Style::plain_spec(),
            symbol: ""@,
        },
    ]
}

fn draw_folder(area: Rect, children: &Vec<Entry>, scroll: usize, kit: &Kit) -> (r: Vec<Widget>)
    ensures
        widgets_view(r@) == folder_preview(area, children@, scroll as int, *kit),
{
    let rows: usize = area.height.saturating_sub(2) as usize;
    let from: usize = scroll_to(scroll, children.len(), rows);
    let items: Vec<Line> = list_entries(&kit.looks, children, from);
    let title: String = if children.len() == 0 {
        owned(" Preview (empty) ")
    } else {
        cat3(" Preview (", dec(children.len() as u64).as_str(), ") ")
    };
    let mut v: Vec<Widget> = no_widgets();
    add_widget(
        &mut v,
        Widget::List {
            area,
            title,
            title_style: Style::fg(Color::DarkGray),
            border: Color::DarkGray,
            items,
            selected: None,
            highlight: Style::plain(),
            symbol: owned(""),
        },
    );
    v
}

/// The note that a text is longer than what is shown of it.
pub open spec fn cut_note(max: u64) -> LineView {
    line1(
        span_of(
            " ... truncated at "@ + size_text(max as int) + " "@,
            Style::fg_spec(Color::DarkGray),
        ),
    )
}

pub fn add_cut_note(lines: &mut Vec<Line>, max: u64)
    ensures
        lines_view(final(lines)@) == lines_view(old(lines)@).push(cut_note(max)),
{
    add1(
        lines,
        span_owned(
            cat3(" ... truncated at ", format_size(max).as_str(), " "),
            Style::fg(Color::DarkGray),
        ),
    );
}

/// A text in the preview.
pub open spec fn text_preview(
    area: Rect,
    name: Chars,
    lines: Seq<LineView>,
    size: u64,
    truncated: bool,
    scroll: int,
    max_size: u64,
) -> SceneView {
    let reserved: int = if truncated {
        1
    } else {
        0
    };
    let rows = max_int(max_int(area.height - 2, 0) - reserved, 0);
    let seen = window(lines, scrolled_to(scroll, lines.len() as int, rows), rows);
    seq![
        panel_of(
            area,
            " "@ + shortened(name, 25) + " ("@ + size_text(size as int) + ") "@,
            Style::bold_spec(Color::Cyan),
            Color::DarkGray,
            if truncated {
                seen.push(cut_note(max_size))
            } else {
                seen
            },
        ),
    ]
}

fn draw_text(
    area: Rect,
    name: &str,
    lines: &Vec<Line>,
    size: u64,
    truncated: bool,
    scroll: usize,
    max_size: u64,
) -> (r: Vec<Widget>)
    ensures
        widgets_view(r@) == text_preview(
            area,
            name@,
            lines_view(lines@),
            size,
            truncated,
            scroll as int,
            max_size,
        ),
{
    let inner: usize = area.height.saturating_sub(2) as usize;
    let rows: usize = if truncated {
        inner.saturating_sub(1)
    } else {
        inner
    };
    assert(lines@.len() == lines_view(lines@).len());
    let from: usize = scroll_to(scroll, lines.len(), rows);
    let mut seen: Vec<Line> = take_window(lines, from, rows);
    if truncated {
        add_cut_note(&mut seen, max_size);
    }
    let title: String = cat5(
        " ",
        truncate_name(name, 25).as_str(),
        " (",
        format_size(size).as_str(),
        ") ",
    );
    let mut v: Vec<Widget> = no_widgets();
    add_widget(
        &mut v,
        panel(area, title, Style::bold(Color::Cyan), Color::DarkGray, seen),
    );
    v
}

/// Whether an entry is a text too long to be fetched unasked.
pub open spec fn is_long_text(e: Entry, max_size: u64) -> bool {
    e.kind == EntryKind::File && e.text_previewable && e.size > max_size
}

/// What is known of an entry before its preview is loaded, and how to load it.
pub open spec fn basic_lines(e: Option<Entry>, in_cart: bool, width: int, max_size: u64) -> Seq<LineView> {
    let lead: Seq<LineView> = seq![blank_line()];
    match e {
        Some(e) => (lead + entry_lines(e, in_cart, width)).push(blank_line()).push(
            line1(
                span_of(
                    if is_long_text(e, max_size) {
                        "  Press p to preview (large file)"@
                    } else {
                        "  Press p to load"@
                    },
                    Style::fg_spec(Color::DarkGray),
                ),
            ),
        ),
        None => lead,
    }
}

fn list_basics(e: &Option<Entry>, in_cart: bool, width: usize, max_size: u64) -> (r: Vec<Line>)
    ensures
        lines_view(r@) == basic_lines(*e, in_cart, width as int, max_size),
{
    let mut v: Vec<Line> = no_lines();
    add_blank(&mut v);
    match e {
        Some(e) => {
            add_lines(&mut v, entry_info_lines(e, in_cart, width));
            add_blank(&mut v);
            let hint: &str = if e.kind == EntryKind::File && e.text_previewable && e.size
                > max_size {
                "  Press p to preview (large file)"
            } else {
                "  Press p to load"
            };
            add1(&mut v, span(hint, Style::fg(Color::DarkGray)));
        },
        None => {},
    }
    v
}

/// The lines below a picture.
pub open spec fn picture_lines(e: Option<Entry>, in_cart: bool, width: int) -> Seq<LineView> {
    match e {
        Some(e) => entry_lines(e, in_cart, width),
        None => Seq::empty(),
    }
}

fn list_below_picture(e: &Option<Entry>, in_cart: bool, width: usize) -> (r: Vec<Line>)
    ensures
        lines_view(r@) == picture_lines(*e, in_cart, width as int),
{
    match e {
        Some(e) => entry_info_lines(e, in_cart, width),
        None => no_lines(),
    }
}

/// The rows below a picture in a pane of `height` rows inside of the border: those that are needed,
/// as long as the picture keeps half of the rows and at least four.
pub open spec fn info_rows(height: int, lines: nat) -> int {
    min_int((lines % 0x10000) as int, max_int(height - max_int(height / 2, 4), 0))
}

fn count_info_rows(height: u16, lines: usize) -> (r: u16)
    ensures
        r == info_rows(height as int, lines as nat),
{
    let least: u16 = if height / 2 > 4 {
        height / 2
    } else {
        4
    };
    let room: u16 = height.saturating_sub(least);
    let wanted: u16 = (lines % 0x10000) as u16;
    if wanted < room {
        wanted
    } else {
        room
    }
}

/// How the pane of a picture is divided: the picture above, and what is known of the file below.
pub open spec fn picture_rules(area: Rect, lines: nat) -> Seq<Rule> {
    let height = max_int(area.height - 2, 0);
    let below = info_rows(height, lines);
    seq![Rule::Length((height - below) as u16), Rule::Length(below as u16)]
}

pub fn picture_split(area: Rect, lines: usize) -> (r: Vec<Rule>)
    ensures
        r@ == picture_rules(area, lines as nat),
{
    let height: u16 = area.height.saturating_sub(2);
    let below: u16 = count_info_rows(height, lines);
    let mut v: Vec<Rule> = Vec::new();
    v.push(Rule::Length(height - below));
    v.push(Rule::Length(below));
    v
}

pub open spec fn picture_title(e: Option<Entry>) -> Chars {
    match e {
        Some(e) => " \u{1f5bc} "@ + shortened(e.name@, 25) + " "@,
        None => " Preview "@,
    }
}

fn title_picture(e: &Option<Entry>) -> (r: String)
    ensures
        r@ == picture_title(*e),
{
    match e {
        Some(e) => cat3(" \u{1f5bc} ", truncate_name(e.name.as_str(), 25).as_str(), " "),
        None => owned(" Preview "),
    }
}

/// A picture, where pictures are shown at all.
pub open spec fn picture(
    area: Rect,
    image: ImageHandle,
    mode: ThumbnailRenderMode,
    size: (u16, u16),
) -> SceneView {
    if mode == ThumbnailRenderMode::Off {
        Seq::empty()
    } else {
        seq![WidgetView::Image { area, image, mode, size }]
    }
}

pub fn draw_picture(
    area: Rect,
    image: ImageHandle,
    mode: ThumbnailRenderMode,
    size: (u16, u16),
) -> (r: Vec<Widget>)
    ensures
        widgets_view(r@) == picture(area, image, mode, size),
{
    let mut v: Vec<Widget> = no_widgets();
    if mode != ThumbnailRenderMode::Off {
        add_widget(&mut v, Widget::Image { area, image, mode, size });
    }
    v
}

/// A picture in the preview: `parts` are the areas of the picture and of the lines below it.
pub open spec fn picture_preview(
    area: Rect,
    parts: (Rect, Rect),
    image: ImageHandle,
    e: Option<Entry>,
    in_cart: bool,
    mode: ThumbnailRenderMode,
) -> SceneView {
    picture(parts.0, image, mode, (parts.0.width, parts.0.height)).push(
        WidgetView::Text {
            area: parts.1,
            lines: picture_lines(e, in_cart, max_int(area.width - 2, 1)),
        },
    ).push(
        WidgetView::Border {
            area,
            title: picture_title(e),
            title_style: Style::bold_spec(Color::Magenta),
            border: Color::DarkGray,
        },
    )
}

/// The width for the lines below a picture.
fn picture_width(area: Rect) -> (r: usize)
    ensures
        r == max_int(area.width - 2, 1),
{
    let w: u16 = area.width.saturating_sub(2);
    if w < 1 {
        1
    } else {
        w as usize
    }
}

fn draw_picture_preview(
    area: Rect,
    parts: (Rect, Rect),
    image: ImageHandle,
    e: &Option<Entry>,
    in_cart: bool,
    mode: ThumbnailRenderMode,
) -> (r: Vec<Widget>)
    ensures
        widgets_view(r@) == picture_preview(area, parts, image, *e, in_cart, mode),
{
    let mut v: Vec<Widget> = draw_picture(
        parts.0,
        image,
        mode,
        (parts.0.width, parts.0.height),
    );
    let lines: Vec<Line> = list_below_picture(e, in_cart, picture_width(area));
    add_widget(&mut v, Widget::Text { area: parts.1, lines });
    add_widget(
        &mut v,
        Widget::Border {
            area,
            title: title_picture(e),
            title_style: Style::bold(Color::Magenta),
            border: Color::DarkGray,
        },
    );
    v
}

/// A size as a numeral, in words and as it is.
pub open spec fn size_field(size: Chars) -> LineView {
    short_field(
        "  Size:  "@,
        size_text(count_of(size) as int) + " ("@ + size + ")"@,
        Color::Reset,
    )
}

pub fn add_size_field(lines: &mut Vec<Line>, size: &str)
    ensures
        lines_view(final(lines)@) == lines_view(old(lines)@).push(size_field(size@)),
{
    let n: u64 = read_count(size);
    crate::fields::add_field(
        lines,
        "  Size:  ",
        cat4(format_size(n).as_str(), " (", size, ")").as_str(),
        Color::Reset,
    );
}

/// Lines, followed by a field that may be folded, where it has a value.
pub open spec fn with_field(
    lines: Seq<LineView>,
    label: Chars,
    value: Option<Chars>,
    color: Color,
    width: int,
) -> Seq<LineView> {
    match value {
        Some(v) => lines + field_lines(
            label,
            v,
            Style::fg_spec(Color::Cyan),
            Style::fg_spec(color),
            width,
        ),
        None => lines,
    }
}

pub fn add_opt_field(
    lines: &mut Vec<Line>,
    label: &str,
    value: &Option<String>,
    color: Color,
    width: usize,
)
    ensures
        lines_view(final(lines)@) == with_field(
            lines_view(old(lines)@),
            label@,
            crate::text::opt_text(*value),
            color,
            width as int,
        ),
{
    match value {
        Some(v) => {
            add_lines(
                lines,
                wrap_labeled_field(
                    label,
                    v.as_str(),
                    Style::fg(Color::Cyan),
                    Style::fg(color),
                    width,
                ),
            );
        },
        None => {},
    }
}

/// Lines, followed by the size where it is known.
pub open spec fn with_size(lines: Seq<LineView>, size: Option<Chars>) -> Seq<LineView> {
    match size {
        Some(s) => lines.push(size_field(s)),
        None => lines,
    }
}

pub fn add_opt_size(lines: &mut Vec<Line>, size: &Option<String>)
    ensures
        lines_view(final(lines)@) == with_size(
            lines_view(old(lines)@),
            crate::text::opt_text(*size),
        ),
{
    match size {
        Some(s) => {
            add_size_field(lines, s.as_str());
        },
        None => {},
    }
}

/// The details of a file in the preview.
pub open spec fn detail_lines(info: FileInfoView, width: int) -> Seq<LineView> {
    let lead: Seq<LineView> = seq![blank_line()];
    let named = with_field(lead, "  Name:  "@, Some(info.name), Color::Reset, width);
    let sized = with_size(named, info.size);
    let hashed = with_field(sized, "  Hash:  "@, info.hash, Color::DarkGray, width);
    with_field(hashed, "  Link:  "@, info.web_content_link, Color::Blue, width)
}

fn list_details(info: &FileInfo, width: usize) -> (r: Vec<Line>)
    ensures
        lines_view(r@) == detail_lines(info@, width as int),
{
    let mut v: Vec<Line> = no_lines();
    add_blank(&mut v);
    add_lines(
        &mut v,
        wrap_labeled_field(
            "  Name:  ",
            info.name.as_str(),
            Style::fg(Color::Cyan),
            Style::fg(Color::Reset),
            width,
        ),
    );
    add_opt_size(&mut v, &info.size);
    add_opt_field(&mut v, "  Hash:  ", &info.hash, Color::DarkGray, width);
    add_opt_field(&mut v, "  Link:  ", &info.web_content_link, Color::Blue, width);
    v
}

pub open spec fn detail_preview(area: Rect, info: FileInfoView) -> SceneView {
    seq![
        panel_of(
            area,
            " \u{2139} "@ + shortened(info.name, 25) + " "@,
            Style::bold_spec(Color::Cyan),
            Color::DarkGray,
            detail_lines(info, max_int(area.width - 2, 0)),
        ),
    ]
}

fn draw_details(area: Rect, info: &FileInfo) -> (r: Vec<Widget>)
    ensures
        widgets_view(r@) == detail_preview(area, info@),
{
    let mut v: Vec<Widget> = no_widgets();
    add_widget(
        &mut v,
        panel(
            area,
            cat3(" \u{2139} ", truncate_name(info.name.as_str(), 25).as_str(), " "),
            Style::bold(Color::Cyan),
            Color::DarkGray,
            list_details(info, area.width.saturating_sub(2) as usize),
        ),
    );
    v
}

impl AppView {
    /// Whether the selected entry is in the cart.
    pub open spec fn current_in_cart(self) -> bool {
        match self.current() {
            Some(e) => holds_id(self.cart, e.id@),
            None => false,
        }
    }

    /// The preview pane. `parts` divide it where it shows a picture.
    #[verifier::opaque]
    pub open spec fn preview_scene(self, area: Rect, parts: (Rect, Rect), kit: Kit) -> SceneView {
        match self.preview_state {
            PreviewView::Empty => plain_preview(
                area,
                note_lines(empty_note(self.config.lazy_preview), Color::DarkGray),
            ),
            PreviewView::Loading => plain_preview(
                area,
                note_lines(
                    "  "@ + spinner(self.spinner_idx) + " Loading..."@,
                    Color::Cyan,
                ),
            ),
            PreviewView::FolderListing(children) => folder_preview(
                area,
                children,
                self.preview_scroll as int,
                kit,
            ),
            PreviewView::FileTextPreview { name, lines, size, truncated } => text_preview(
                area,
                name,
                lines,
                size,
                truncated,
                self.preview_scroll as int,
                self.config.preview_max_size,
            ),
            PreviewView::FileBasicInfo => plain_preview(
                area,
                basic_lines(
                    self.current(),
                    self.current_in_cart(),
                    max_int(area.width - 2, 0),
                    self.config.preview_max_size,
                ),
            ),
            PreviewView::ThumbnailImage { image } => if self.has_overlay() {
                plain_preview(
                    area,
                    note_lines("  [thumbnail hidden during overlay]"@, Color::DarkGray),
                )
            } else {
                picture_preview(
                    area,
                    parts,
                    image,
                    self.current(),
                    self.current_in_cart(),
                    kit.thumbnails,
                )
            },
            PreviewView::FileDetailedInfo(info) => detail_preview(area, info),
        }
    }
}

impl AppView {
    /// The areas of a picture in the preview and of the lines below it.
    pub open spec fn picture_areas(self, area: Rect) -> (Rect, Rect) {
        let lines = picture_lines(
            self.current(),
            self.current_in_cart(),
            max_int(area.width - 2, 1),
        );
        let all = inside(area);
        let below = info_rows(all.height as int, lines.len());
        (
            Rect { height: (all.height - below) as u16, ..all },
            Rect { y: (all.y + all.height - below) as u16, height: below as u16, ..all },
        )
    }
}

impl App {
    pub(crate) fn is_current_in_cart(&self) -> (r: bool)
        ensures
            r == self@.current_in_cart(),
    {
        match self.current_entry() {
            Some(e) => contains_id(&self.cart, e.id.as_str()),
            None => false,
        }
    }

    pub(crate) fn preview_parts(&self, area: Rect) -> (r: (Rect, Rect))
        ensures
            area.y + area.height <= u16::MAX ==> r == self@.picture_areas(area),
            lies_in(r.0, inside(area)) && r.0.width == inside(area).width,
            lies_in(r.1, inside(area)) && r.1.width == inside(area).width,
    {
        let lines: Vec<Line> = list_below_picture(
            &self.current_entry(),
            self.is_current_in_cart(),
            picture_width(area),
        );
        let rules: Vec<Rule> = picture_split(area, lines.len());
        assert(lines@.len() == lines_view(lines@).len());
        let parts: Vec<Rect> = split(Axis::Vertical, &rules, inner_rect(area));
        proof {
            reveal_with_fuel(lengths, 3);
        }
        (parts[0], parts[1])
    }

    pub fn draw_preview_pane(&self, area: Rect, parts: (Rect, Rect), kit: &Kit) -> (r: Vec<Widget>)
        ensures
            widgets_view(r@) == self@.preview_scene(area, parts, *kit),
    {
        reveal(AppView::preview_scene);
        match &self.preview_state {
            PreviewState::Empty => {
                let hint: &str = if self.config.lazy_preview {
                    "Select an item"
                } else {
                    "Press p to load preview"
                };
                show_plain(area, note(cat2("  ", hint).as_str(), Color::DarkGray))
            },
            PreviewState::Loading => {
                let text: String = cat3("  ", spinner_frame(self.spinner_idx), " Loading...");
                show_plain(area, note(text.as_str(), Color::Cyan))
            },
            PreviewState::FolderListing(children) => draw_folder(
                area,
                children,
                self.preview_scroll,
                kit,
            ),
            PreviewState::FileTextPreview { name, lines, size, truncated } => draw_text(
                area,
                name.as_str(),
                lines,
                *size,
                *truncated,
                self.preview_scroll,
                self.config.preview_max_size,
            ),
            PreviewState::FileBasicInfo => show_plain(
                area,
                list_basics(
                    &self.current_entry(),
                    self.is_current_in_cart(),
                    area.width.saturating_sub(2) as usize,
                    self.config.preview_max_size,
                ),
            ),
            PreviewState::ThumbnailImage { image } => if self.has_overlay() {
                show_plain(area, note("  [thumbnail hidden during overlay]", Color::DarkGray))
            } else {
                draw_picture_preview(
                    area,
                    parts,
                    *image,
                    &self.current_entry(),
                    self.is_current_in_cart(),
                    kit.thumbnails,
                )
            },
            PreviewState::FileDetailedInfo(info) => draw_details(area, info),
        }
    }
}

} // verus!
