//! The details of a file.

use crate::app::{App, AppView};
use crate::fields::{marker_lines, markers, short_field, wrap_labeled_field};
use crate::geometry::{max_int, min_int, Rect};
use crate::kit::{inner_rect, inside, spinner, spinner_frame, Kit};
use crate::model::{Entry, FileInfo, FileInfoView, ImageHandle};
use crate::preview_pane::{
    add_opt_field, add_opt_size, draw_picture, picture, with_field, with_size,
};
use crate::scene::{
    add_lines, add_widget, add_widgets, clear_overlay_area, cleared_area, lies_in, no_widgets,
    on_cleared, overlay_scene, panel, panel_of, split, themed, themed_colors, widgets_view, Axis,
    Pair, Rule, SceneView, ThumbnailRenderMode, Widget, WidgetView,
};
use crate::style::{
    add1, add_blank, blank_line, line1, lines_view, no_lines, span, span_of, span_owned, Color,
    Line, LineView, Style,
};
use crate::text::{cat3, opt_text, str_eq, Chars};
use crate::width::{shortened, truncate_name};
use vstd::prelude::*;

verus! {

/// Lines, followed by a short field where it has a value.
pub open spec fn with_short(lines: Seq<LineView>, label: Chars, value: Option<Chars>) -> Seq<LineView> {
    match value {
        Some(v) => lines.push(short_field(label, v, Color::Reset)),
        None => lines,
    }
}

fn add_short(lines: &mut Vec<Line>, label: &str, value: &Option<String>)
    ensures
        lines_view(final(lines)@) == with_short(
            lines_view(old(lines)@),
            label@,
            opt_text(*value),
        ),
{
    match value {
        Some(v) => {
            crate::fields::add_field(lines, label, v.as_str(), Color::Reset);
        },
        None => {},
    }
}

/// What is known of a file, field by field.
pub open spec fn info_fields(info: FileInfoView, width: int) -> Seq<LineView> {
    let lead: Seq<LineView> = seq![blank_line()];
    let id = with_field(lead, "  ID:    "@, info.id, Color::DarkGray, width);
    let name = with_field(id, "  Name:  "@, Some(info.name), Color::Reset, width);
    let kind = with_short(name, "  Type:  "@, info.kind);
    let size = with_size(kind, info.size);
    let created = with_short(size, "  Created:"@, info.created_time);
    let modified = with_short(created, "  Modified:"@, info.modified_time);
    let mime = with_short(modified, "  MIME:  "@, info.mime_type);
    with_field(mime, "  Hash:  "@, info.hash, Color::DarkGray, width)
}

fn list_fields(info: &FileInfo, width: usize) -> (r: Vec<Line>)
    ensures
        lines_view(r@) == info_fields(info@, width as int),
{
    let mut v: Vec<Line> = no_lines();
    add_blank(&mut v);
    add_opt_field(&mut v, "  ID:    ", &info.id, Color::DarkGray, width);
    add_lines(
        &mut v,
        wrap_labeled_field(
            "  Name:  ",
            info.name.as_str(),
            Style::fg(Color::Cyan),
            Style::fg(Color::Reset),
            width,
        ),
    );
    add_short(&mut v, "  Type:  ", &info.kind);
    add_opt_size(&mut v, &info.size);
    add_short(&mut v, "  Created:", &info.created_time);
    add_short(&mut v, "  Modified:", &info.modified_time);
    add_short(&mut v, "  MIME:  ", &info.mime_type);
    add_opt_field(&mut v, "  Hash:  ", &info.hash, Color::DarkGray, width);
    v
}

/// Whether the details are those of the selected entry: they can also be opened from elsewhere.
pub open spec fn is_about(info: FileInfoView, e: Entry) -> bool {
    info.id == Some(e.id@)
}

fn about(info: &FileInfo, e: &Entry) -> (r: bool)
    ensures
        r == is_about(info@, *e),
{
    match &info.id {
        Some(id) => str_eq(id.as_str(), e.id.as_str()),
        None => false,
    }
}

/// The markers of the selected entry, where the details are about it.
pub open spec fn info_markers(info: FileInfoView, e: Option<Entry>, in_cart: bool) -> Seq<LineView> {
    match e {
        Some(e) => if is_about(info, e) {
            marker_lines(e.starred, in_cart)
        } else {
            Seq::empty()
        },
        None => Seq::empty(),
    }
}

fn list_markers(info: &FileInfo, e: &Option<Entry>, in_cart: bool) -> (r: Vec<Line>)
    ensures
        lines_view(r@) == info_markers(info@, *e, in_cart),
{
    match e {
        Some(e) => if about(info, e) {
            markers(e.starred, in_cart)
        } else {
            no_lines()
        },
        None => no_lines(),
    }
}

/// The link, and how to close the details.
pub open spec fn info_footer(info: FileInfoView, width: int) -> Seq<LineView> {
    with_field(
        Seq::empty(),
        "  Link:  "@,
        info.web_content_link,
        Color::Blue,
        width,
    ).push(blank_line()).push(
        line1(span_of("  Press any key to close"@, Style::fg_spec(Color::DarkGray))),
    )
}

fn list_footer(info: &FileInfo, width: usize) -> (r: Vec<Line>)
    ensures
        lines_view(r@) == info_footer(info@, width as int),
{
    let mut v: Vec<Line> = no_lines();
    add_opt_field(&mut v, "  Link:  ", &info.web_content_link, Color::Blue, width);
    add_blank(&mut v);
    add1(&mut v, span("  Press any key to close", Style::fg(Color::DarkGray)));
    v
}

/// The columns of the picture: two fifths, and at least ten.
pub open spec fn picture_columns(area: Rect) -> int {
    max_int(max_int(area.width - 2, 0) * 2 / 5, 10)
}

fn columns_of_picture(area: Rect) -> (r: u16)
    ensures
        r == picture_columns(area),
{
    let inner: u32 = area.width.saturating_sub(2) as u32;
    let n: u32 = inner * 2 / 5;
    if n > 10 {
        n as u16
    } else {
        10
    }
}

/// The size of a cell in pixels.
pub open spec fn cell_size(font: Option<(u16, u16)>) -> (int, int) {
    match font {
        Some((w, h)) => (w as int, h as int),
        None => (10, 20),
    }
}

/// The rows of a picture that is `columns` wide, in the proportions of the picture, but no more than
/// there is room for.
pub open spec fn picture_rows(
    image: ImageHandle,
    mode: ThumbnailRenderMode,
    font: Option<(u16, u16)>,
    columns: int,
    room: int,
) -> int {
    match mode {
        ThumbnailRenderMode::Auto => {
            let (w, h) = cell_size(font);
            if w > 0 && h > 0 && image.width > 0 {
                let n = image.height * columns * w;
                let d = image.width * h;
                min_int(((n + d - 1) / d) % 0x10000, room)
            } else {
                room
            }
        },
        ThumbnailRenderMode::Off => 0,
        _ => if image.width > 0 {
            min_int(max_int((image.height * columns / (image.width * 2)) % 0x10000, 1), room)
        } else {
            room
        },
    }
}

fn round_up(n: u128, d: u128) -> (r: u16)
    requires
        0 < d <= 0xffff_ffff_ffff,
        n <= 0xffff_ffff_ffff_ffff_ffff,
    ensures
        r == ((n + d - 1) / d as int) % 0x10000,
{
    (((n + d - 1) / d) % 0x10000) as u16
}

fn proportional(height: u32, columns: u16, width: u32) -> (r: u16)
    requires
        width > 0,
    ensures
        r == (height * columns / (width * 2)) % 0x10000,
{
    assert(height * columns <= 0xffff_ffff * 0xffff) by (nonlinear_arith)
        requires
            height <= 0xffff_ffff,
            columns <= 0xffff,
    ;
    let n: u64 = (height as u64) * (columns as u64);
    let d: u64 = (width as u64) * 2;
    ((n / d) % 0x10000) as u16
}

fn auto_rows(image: ImageHandle, columns: u16, w: u16, h: u16) -> (r: u16)
    requires
        image.width > 0,
        h > 0,
    ensures
        r == ({
            let n = image.height * columns * w;
            let d = image.width * h;
            ((n + d - 1) / d) % 0x10000
        }),
{
    let height: u128 = image.height as u128;
    let wide: u128 = image.width as u128;
    assert(height * columns <= 0xffff_ffff * 0xffff) by (nonlinear_arith)
        requires
            height <= 0xffff_ffff,
            columns <= 0xffff,
    ;
    let a: u128 = height * (columns as u128);
    assert(a * w <= 0xffff_ffff_ffff_ffff * 0xffff) by (nonlinear_arith)
        requires
            a <= 0xffff_ffff_ffff_ffff,
            w <= 0xffff,
    ;
    assert(0 < wide * h <= 0xffff_ffff * 0xffff) by (nonlinear_arith)
        requires
            0 < wide <= 0xffff_ffff,
            0 < h <= 0xffff,
    ;
    round_up(a * (w as u128), wide * (h as u128))
}

fn least(a: u16, b: u16) -> (r: u16)
    ensures
        r == min_int(a as int, b as int),
{
    if a <= b {
        a
    } else {
        b
    }
}

fn rows_of_picture(
    image: ImageHandle,
    mode: ThumbnailRenderMode,
    font: Option<(u16, u16)>,
    columns: u16,
    room: u16,
) -> (r: u16)
    ensures
        r == picture_rows(image, mode, font, columns as int, room as int),
{
    match mode {
        ThumbnailRenderMode::Auto => {
            let (w, h): (u16, u16) = match font {
                Some(f) => f,
                None => (10, 20),
            };
            if w > 0 && h > 0 && image.width > 0 {
                least(auto_rows(image, columns, w, h), room)
            } else {
                room
            }
        },
        ThumbnailRenderMode::Off => 0,
        _ => {
            if image.width > 0 {
                let rows: u16 = proportional(image.height, columns, image.width);
                least(
                    if rows > 1 {
                        rows
                    } else {
                        1
                    },
                    room,
                )
            } else {
                room
            }
        },
    }
}

/// Where a picture of some rows stands in its column: in the middle.
pub open spec fn picture_place(thumb: Rect, columns: int, rows: int) -> Rect {
    if rows < thumb.height {
        Rect {
            x: thumb.x,
            y: min_int(thumb.y + (thumb.height - rows) / 2, u16::MAX as int) as u16,
            width: columns as u16,
            height: rows as u16,
        }
    } else {
        thumb
    }
}

fn place_picture(thumb: Rect, columns: u16, rows: u16) -> (r: Rect)
    ensures
        r == picture_place(thumb, columns as int, rows as int),
{
    if rows < thumb.height {
        Rect {
            x: thumb.x,
            y: thumb.y.saturating_add((thumb.height - rows) / 2),
            width: columns,
            height: rows,
        }
    } else {
        thumb
    }
}

/// The sign that a picture is being loaded.
pub open spec fn picture_wait(thumb: Rect, columns: int, frame: usize) -> WidgetView {
    WidgetView::Text {
        area: Rect {
            x: thumb.x,
            y: min_int(thumb.y + thumb.height / 2, u16::MAX as int) as u16,
            width: columns as u16,
            height: 1,
        },
        lines: seq![
            line1(
                span_of(
                    " "@ + spinner(frame) + " Loading..."@,
                    Style::fg_spec(Color::DarkGray),
                ),
            ),
        ],
    }
}

fn wait_for_picture(thumb: Rect, columns: u16, frame: usize) -> (r: Widget)
    ensures
        r@ == picture_wait(thumb, columns as int, frame),
{
    let mut lines: Vec<Line> = no_lines();
    add1(
        &mut lines,
        span_owned(cat3(" ", spinner_frame(frame), " Loading..."), Style::fg(Color::DarkGray)),
    );
    Widget::Text {
        area: Rect {
            x: thumb.x,
            y: thumb.y.saturating_add(thumb.height / 2),
            width: columns,
            height: 1,
        },
        lines,
    }
}

/// The areas of the details beside a picture.
#[derive(Clone, Copy, Debug, PartialEq, Eq, Structural)]
pub struct InfoParts {
    pub meta: Rect,
    pub thumb: Rect,
    pub footer: Rect,
}

/// The link takes the whole width, and the fields stand beside the picture.
pub open spec fn info_parts_fit(p: InfoParts, area: Rect) -> bool {
    &&& lies_in(p.meta, inside(area))
    &&& lies_in(p.thumb, inside(area))
    &&& lies_in(p.footer, inside(area))
    &&& p.footer.width == inside(area).width
    &&& p.meta.y == p.thumb.y && p.meta.height == p.thumb.height
}

/// The rows above the link.
pub open spec fn top_rows(area: Rect, footer: nat) -> int {
    max_int(max_int(area.height - 2, 0) - footer % 0x10000, 0)
}

fn rows_on_top(area: Rect, footer: usize) -> (r: u16)
    ensures
        r == top_rows(area, footer as nat),
{
    area.height.saturating_sub(2).saturating_sub((footer % 0x10000) as u16)
}

/// The picture or the sign that it is being loaded.
pub open spec fn info_picture(
    area: Rect,
    thumb: Rect,
    image: Option<ImageHandle>,
    footer: nat,
    kit: Kit,
    frame: usize,
) -> SceneView {
    let columns = picture_columns(area);
    match image {
        Some(img) => {
            let rows = picture_rows(
                img,
                kit.thumbnails,
                kit.font,
                columns,
                top_rows(area, footer),
            );
            picture(
                picture_place(thumb, columns, rows),
                img,
                kit.thumbnails,
                (columns as u16, rows as u16),
            )
        },
        None => seq![picture_wait(thumb, columns, frame)],
    }
}

fn draw_info_picture(
    area: Rect,
    thumb: Rect,
    image: Option<ImageHandle>,
    footer: usize,
    kit: &Kit,
    frame: usize,
) -> (r: Vec<Widget>)
    ensures
        widgets_view(r@) == info_picture(area, thumb, image, footer as nat, *kit, frame),
{
    let columns: u16 = columns_of_picture(area);
    match image {
        Some(img) => {
            let rows: u16 = rows_of_picture(
                img,
                kit.thumbnails,
                kit.font,
                columns,
                rows_on_top(area, footer),
            );
            draw_picture(
                place_picture(thumb, columns, rows),
                img,
                kit.thumbnails,
                (columns, rows),
            )
        },
        None => {
            let mut v: Vec<Widget> = no_widgets();
            add_widget(&mut v, wait_for_picture(thumb, columns, frame));
            v
        },
    }
}

pub open spec fn info_title(name: Chars) -> Chars {
    " \u{2139} Info: "@ + shortened(name, 30) + " "@
}

pub open spec fn info_title_style(c: Color) -> Style {
    Style { fg: Some(c), bg: Some(Color::DarkGray), bold: true, ..Style::plain_spec() }
}

fn style_info_title(c: Color) -> (r: Style)
    ensures
        r == info_title_style(c),
{
    Style { fg: Some(c), bg: Some(Color::DarkGray), bold: true, underlined: false, dim: false }
}

/// The columns that the fields may take: beside the picture, where there is one.
pub open spec fn info_width(area: Rect, has_thumbnail: bool) -> int {
    let inner = max_int(area.width - 2, 0);
    if has_thumbnail {
        max_int(inner - picture_columns(area), 0)
    } else {
        inner
    }
}

fn width_of_info(area: Rect, has_thumbnail: bool) -> (r: usize)
    ensures
        r == info_width(area, has_thumbnail),
{
    let inner: u16 = area.width.saturating_sub(2);
    if has_thumbnail {
        inner.saturating_sub(columns_of_picture(area)) as usize
    } else {
        inner as usize
    }
}

/// The fields and the markers.
pub open spec fn meta_lines(
    info: FileInfoView,
    e: Option<Entry>,
    in_cart: bool,
    width: int,
) -> Seq<LineView> {
    info_fields(info, width) + info_markers(info, e, in_cart)
}

fn list_meta(info: &FileInfo, e: &Option<Entry>, in_cart: bool, width: usize) -> (r: Vec<Line>)
    ensures
        lines_view(r@) == meta_lines(info@, *e, in_cart, width as int),
{
    let mut v: Vec<Line> = list_fields(info, width);
    add_lines(&mut v, list_markers(info, e, in_cart));
    v
}

impl AppView {
    /// The details of a file on the screen: beside a picture, or on their own.
    #[verifier::opaque]
    pub open spec fn info_scene(
        self,
        area: Rect,
        screen: Rect,
        parts: InfoParts,
        info: FileInfoView,
        image: Option<ImageHandle>,
        has_thumbnail: bool,
        kit: Kit,
    ) -> SceneView {
        let colors = themed(self.is_vibrant(), Color::Cyan, Color::Cyan);
        let meta = meta_lines(
            info,
            self.current(),
            self.current_in_cart(),
            info_width(area, has_thumbnail),
        );
        let footer = info_footer(info, max_int(area.width - 2, 0));
        if has_thumbnail {
            (seq![
                WidgetView::Clear { area: cleared_area(area, screen) },
                WidgetView::Text { area: parts.meta, lines: meta },
                WidgetView::Text { area: parts.footer, lines: footer },
            ] + info_picture(area, parts.thumb, image, footer.len(), kit, self.spinner_idx)).push(
                WidgetView::Border {
                    area,
                    title: info_title(info.name),
                    title_style: info_title_style(colors.1),
                    border: colors.0,
                },
            )
        } else {
            overlay_scene(
                area,
                screen,
                panel_of(
                    area,
                    info_title(info.name),
                    info_title_style(colors.1),
                    colors.0,
                    meta + footer,
                ),
            )
        }
    }
}

/// How the details are divided: the fields, the picture beside them and the link below.
pub open spec fn info_areas(area: Rect, info: FileInfoView) -> InfoParts {
    let all = inside(area);
    let top = top_rows(area, info_footer(info, max_int(area.width - 2, 0)).len());
    let right = min_int(picture_columns(area), all.width as int);
    InfoParts {
        meta: Rect { width: (all.width - right) as u16, height: top as u16, ..all },
        thumb: Rect {
            x: (all.x + all.width - right) as u16,
            width: right as u16,
            height: top as u16,
            ..all
        },
        footer: Rect { y: (all.y + top) as u16, height: (all.height - top) as u16, ..all },
    }
}

impl App {
    pub(crate) fn info_parts(&self, area: Rect, info: &FileInfo) -> (r: InfoParts)
        ensures
            area.x + area.width <= u16::MAX && area.y + area.height <= u16::MAX ==> r
                == info_areas(area, info@),
            info_parts_fit(r, area),
    {
        let footer: Vec<Line> = list_footer(info, area.width.saturating_sub(2) as usize);
        let mut rows: Vec<Rule> = Vec::new();
        rows.push(Rule::Length(rows_on_top(area, footer.len())));
        rows.push(Rule::Min(0));
        assert(info_footer(info@, max_int(area.width - 2, 0)).len() == footer@.len());
        let above: Vec<Rect> = split(Axis::Vertical, &rows, inner_rect(area));
        let mut columns: Vec<Rule> = Vec::new();
        columns.push(Rule::Min(0));
        columns.push(Rule::Length(columns_of_picture(area)));
        let beside: Vec<Rect> = split(Axis::Horizontal, &columns, above[0]);
        InfoParts { meta: beside[0], thumb: beside[1], footer: above[1] }
    }

    pub fn draw_info_overlay(
        &self,
        area: Rect,
        screen: Rect,
        parts: InfoParts,
        info: &FileInfo,
        image: Option<ImageHandle>,
        has_thumbnail: bool,
        kit: &Kit,
    ) -> (r: Vec<Widget>)
        ensures
            widgets_view(r@) == self@.info_scene(
                area,
                screen,
                parts,
                info@,
                image,
                has_thumbnail,
                *kit,
            ),
    {
        reveal(AppView::info_scene);
        let colors: Pair = themed_colors(self.is_vibrant(), Color::Cyan);
        let mut meta: Vec<Line> = list_meta(
            info,
            &self.current_entry(),
            self.is_current_in_cart(),
            width_of_info(area, has_thumbnail),
        );
        let footer: Vec<Line> = list_footer(info, area.width.saturating_sub(2) as usize);
        assert(footer@.len() == lines_view(footer@).len());
        let title: String = cat3(
            " \u{2139} Info: ",
            truncate_name(info.name.as_str(), 30).as_str(),
            " ",
        );
        let title_style: Style = style_info_title(colors.1);
        if has_thumbnail {
            let rows: usize = footer.len();
            let mut v: Vec<Widget> = no_widgets();
            add_widget(&mut v, Widget::Clear { area: clear_overlay_area(area, screen) });
            add_widget(&mut v, Widget::Text { area: parts.meta, lines: meta });
            add_widget(&mut v, Widget::Text { area: parts.footer, lines: footer });
            add_widgets(
                &mut v,
                draw_info_picture(area, parts.thumb, image, rows, kit, self.spinner_idx),
            );
            add_widget(&mut v, Widget::Border { area, title, title_style, border: colors.0 });
            return v;
        }
        add_lines(&mut meta, footer);
        on_cleared(area, screen, panel(area, title, title_style, colors.0, meta))
    }
}

} // verus!
