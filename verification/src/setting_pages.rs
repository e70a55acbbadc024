//! The settings and their pages on the screen.

use crate::app::{App, AppView};
use crate::geometry::{max_int, Rect};
use crate::help_bar::{
    colors_hints, colors_keys, discard_hints, discard_keys, protocols_hints, protocols_keys,
    rgb_hints, rgb_keys, setting_edit_hints, setting_edit_keys, settings_hints, settings_keys,
};
use crate::help_sheet::{take_window, window};
use crate::kit::{prefix_of_row, row_prefix, row_style, style_of_row, Kit};
use crate::lists::{
    add_hints, align_right, mouse_rows, place_rows, to_the_right, with_hints, MouseRows,
};
use crate::media::{or_text, text_or};
use crate::model::{ConfigView, CustomColors, SettingOptions, TuiConfig};
use crate::scene::{
    add_lines, by_scheme, on_cleared, overlay_of, overlay_panel, overlay_scene, scheme, themed,
    themed_colors_pair, widgets_view, Hints, Pair, SceneView, Widget,
};
use crate::setting_items::{
    categories_view, settings_items, settings_layout, CategoryView, SettingItem, SettingItemView,
    SettingsCategory,
};
use crate::settings::{color_at, protocol_of, terminal_protocol};
use crate::style::{
    add1, add_blank, add_line, add_span, blank_line, line1, line2, lines_view, no_lines, no_spans,
    span, span_of, span_owned, spans_view, Color, Line, LineView, Span, Style,
};
use crate::text::{
    blanks, cat2, cat3, cat5, chars_of, clone_opt, dec, decimal, spaces, str_eq, texts, Chars,
};
use crate::text_input::{offset_of, shown_line, text_input_view, text_len};
use crate::width::{text_columns, text_width};
use vstd::prelude::*;

verus! {

/// How a text field is shown.
#[derive(Clone, Copy, Debug, PartialEq, Eq, Structural)]
pub struct FieldCursor {
    pub at: usize,
    pub visible: bool,
}

/// A text field with its cursor in `max` columns.
pub open spec fn field_text(value: Chars, c: FieldCursor, max: int) -> Chars {
    shown_line(value, c.at as nat, max as nat, c.visible)
}

pub fn show_field(value: &str, c: FieldCursor, max: usize) -> (r: String)
    ensures
        r@ == field_text(value@, c, max as int),
{
    text_input_view(value, c.at, max, c.visible)
}

pub open spec fn setting_name_style(selected: bool, editing: bool) -> Style {
    if selected && editing {
        Style::bold_spec(Color::Yellow)
    } else {
        row_style(selected)
    }
}

pub open spec fn setting_value_style(selected: bool, editing: bool) -> Style {
    if selected && editing {
        Style::bold_spec(Color::Yellow)
    } else {
        Style::fg_spec(Color::Green)
    }
}

/// The blanks between a name and a value that stands at the right.
pub open spec fn setting_gap(selected: bool, item: SettingItemView, width: int) -> int {
    max_int(
        max_int(width - 4, 0) - (text_columns(row_prefix(selected)) + text_columns(item.name)
            + text_columns(item.value) + 1),
        0,
    )
}

/// Whether a row is the one for the player, which is typed in.
pub open spec fn is_player_row(item: SettingItemView) -> bool {
    item.name == "Player Command"@
}

/// A row of the settings: its name, and its value at the right or the field in which it is typed.
pub open spec fn setting_line(
    item: SettingItemView,
    selected: bool,
    editing: bool,
    player: Option<Chars>,
    cursor: FieldCursor,
    width: int,
) -> LineView {
    let lead: LineView = seq![
        span_of(row_prefix(selected), setting_name_style(selected, editing)),
        span_of(item.name, setting_name_style(selected, editing)),
    ];
    if is_player_row(item) && selected && editing {
        lead.push(span_of(": "@, Style::fg_spec(Color::DarkGray))).push(
            span_of(
                field_text(
                    text_or(player, ""@),
                    cursor,
                    max_int(width - (text_columns(item.name) + 9), 0),
                ),
                Style::fg_spec(Color::Yellow),
            ),
        )
    } else {
        lead.push(
            span_of(
                blanks(setting_gap(selected, item, width) as nat),
                Style::plain_spec(),
            ),
        ).push(span_of(item.value, setting_value_style(selected, editing)))
    }
}

fn style_of_name(selected: bool, editing: bool) -> (r: Style)
    ensures
        r == setting_name_style(selected, editing),
{
    if selected && editing {
        Style::bold(Color::Yellow)
    } else {
        style_of_row(selected)
    }
}

fn style_of_value(selected: bool, editing: bool) -> (r: Style)
    ensures
        r == setting_value_style(selected, editing),
{
    if selected && editing {
        Style::bold(Color::Yellow)
    } else {
        Style::fg(Color::Green)
    }
}

fn gap_in_row(selected: bool, item: &SettingItem, width: u16) -> (r: usize)
    ensures
        r == setting_gap(selected, item@, width as int),
{
    let a: usize = text_width(prefix_of_row(selected));
    let b: usize = text_width(item.name.as_str());
    let c: usize = text_width(item.value.as_str());
    (width.saturating_sub(4) as usize).saturating_sub(a).saturating_sub(b).saturating_sub(
        c,
    ).saturating_sub(1)
}

fn build_setting_line(
    item: &SettingItem,
    selected: bool,
    editing: bool,
    player: &Option<String>,
    cursor: FieldCursor,
    width: u16,
) -> (r: Vec<Span>)
    ensures
        spans_view(r@) == setting_line(
            item@,
            selected,
            editing,
            crate::text::opt_text(*player),
            cursor,
            width as int,
        ),
{
    let mut v: Vec<Span> = no_spans();
    add_span(&mut v, span(prefix_of_row(selected), style_of_name(selected, editing)));
    add_span(&mut v, span(item.name.as_str(), style_of_name(selected, editing)));
    if str_eq(item.name.as_str(), "Player Command") && selected && editing {
        let value: String = or_text(clone_opt(player), "");
        let max: usize = (width as usize).saturating_sub(
            text_width(item.name.as_str()),
        ).saturating_sub(9);
        add_span(&mut v, span(": ", Style::fg(Color::DarkGray)));
        add_span(
            &mut v,
            span_owned(show_field(value.as_str(), cursor, max), Style::fg(Color::Yellow)),
        );
        return v;
    }
    add_span(
        &mut v,
        span_owned(spaces(gap_in_row(selected, item, width)), Style::plain()),
    );
    add_span(&mut v, span(item.value.as_str(), style_of_value(selected, editing)));
    v
}

/// What the page of the settings goes by.
pub struct SettingsLook {
    pub selected: usize,
    pub editing: bool,
    pub player: Option<Chars>,
    pub cursor: FieldCursor,
    pub width: int,
}

pub open spec fn underlined_cyan() -> Style {
    Style { fg: Some(Color::Cyan), bold: true, underlined: true, ..Style::plain_spec() }
}

fn underline_cyan() -> (r: Style)
    ensures
        r == underlined_cyan(),
{
    Style { fg: Some(Color::Cyan), bg: None, bold: true, underlined: true, dim: false }
}

/// The two lines of row `index`.
pub open spec fn setting_lines(item: SettingItemView, index: int, look: SettingsLook) -> Seq<LineView> {
    seq![
        setting_line(
            item,
            index == look.selected,
            look.editing,
            look.player,
            look.cursor,
            look.width,
        ),
        line1(span_of("     "@ + item.description, Style::fg_spec(Color::DarkGray))),
    ]
}

/// The lines of the first `n` rows under a heading, of which the first is row `first`.
pub open spec fn category_rows(
    items: Seq<SettingItemView>,
    n: int,
    first: int,
    look: SettingsLook,
) -> Seq<LineView>
    decreases n,
{
    if n <= 0 {
        Seq::empty()
    } else {
        category_rows(items, n - 1, first, look) + setting_lines(
            items[n - 1],
            first + n - 1,
            look,
        )
    }
}

/// How many rows the first `n` headings have.
pub open spec fn rows_before(cats: Seq<CategoryView>, n: int) -> int
    decreases n,
{
    if n <= 0 {
        0
    } else {
        rows_before(cats, n - 1) + cats[n - 1].items.len()
    }
}

/// The lines of the first `n` headings and their rows.
pub open spec fn settings_rows(cats: Seq<CategoryView>, n: int, look: SettingsLook) -> Seq<LineView>
    decreases n,
{
    if n <= 0 {
        Seq::empty()
    } else {
        let c = cats[n - 1];
        settings_rows(cats, n - 1, look).push(
            line1(span_of(" "@ + c.name, underlined_cyan())),
        ) + category_rows(c.items, c.items.len() as int, rows_before(cats, n - 1), look)
    }
}

/// All lines of the settings.
pub open spec fn settings_lines(cats: Seq<CategoryView>, look: SettingsLook) -> Seq<LineView> {
    let lead: Seq<LineView> = seq![blank_line()];
    with_hints(
        lead + settings_rows(cats, cats.len() as int, look),
        if look.editing {
            setting_edit_hints()
        } else {
            settings_hints()
        },
    )
}

/// What the page of the settings goes by, as it is computed.
struct PageLook<'a> {
    selected: usize,
    editing: bool,
    player: &'a Option<String>,
    cursor: FieldCursor,
    width: u16,
}

impl<'a> PageLook<'a> {
    spec fn look(self) -> SettingsLook {
        SettingsLook {
            selected: self.selected,
            editing: self.editing,
            player: crate::text::opt_text(*self.player),
            cursor: self.cursor,
            width: self.width as int,
        }
    }
}

fn add_setting(lines: &mut Vec<Line>, item: &SettingItem, index: usize, look: &PageLook<'_>)
    ensures
        lines_view(final(lines)@) == lines_view(old(lines)@) + setting_lines(
            item@,
            index as int,
            look.look(),
        ),
{
    let ghost before = lines_view(lines@);
    add_line(
        lines,
        build_setting_line(
            item,
            index == look.selected,
            look.editing,
            look.player,
            look.cursor,
            look.width,
        ),
    );
    add1(
        lines,
        span_owned(cat2("     ", item.description.as_str()), Style::fg(Color::DarkGray)),
    );
    assert(lines_view(lines@) =~= before + setting_lines(item@, index as int, look.look()));
}

fn add_category(lines: &mut Vec<Line>, c: &SettingsCategory, first: usize, look: &PageLook<'_>)
    requires
        first + c.items@.len() <= usize::MAX,
    ensures
        lines_view(final(lines)@) == lines_view(old(lines)@).push(
            line1(span_of(" "@ + c.name@, underlined_cyan())),
        ) + category_rows(c@.items, c@.items.len() as int, first as int, look.look()),
{
    add1(lines, span_owned(cat2(" ", c.name.as_str()), underline_cyan()));
    let ghost head = lines_view(lines@);
    let mut i: usize = 0;
    assert(head + category_rows(c@.items, 0, first as int, look.look()) =~= head);
    while i < c.items.len()
        invariant
            i <= c.items@.len(),
            first + c.items@.len() <= usize::MAX,
            lines_view(lines@) == head + category_rows(
                c@.items,
                i as int,
                first as int,
                look.look(),
            ),
        decreases c.items@.len() - i,
    {
        let ghost before = category_rows(c@.items, i as int, first as int, look.look());
        add_setting(lines, &c.items[i], first + i, look);
        assert(c@.items[i as int] == c.items@[i as int]@);
        assert(lines_view(lines@) =~= head + (before + setting_lines(
            c@.items[i as int],
            first + i,
            look.look(),
        )));
        i += 1;
    }
}

proof fn lemma_layout_rows(c: ConfigView, o: SettingOptions, n: int)
    requires
        0 <= n <= 7,
    ensures
        settings_layout(c, o).len() == 7,
        0 <= rows_before(settings_layout(c, o), n) <= 17,
        n < 7 ==> rows_before(settings_layout(c, o), n) + settings_layout(c, o)[n].items.len()
            <= 17,
{
    reveal_with_fuel(rows_before, 8);
}

fn build_settings_lines(draft: &TuiConfig, o: &SettingOptions, look: &PageLook<'_>) -> (r: Vec<
    Line,
>)
    ensures
        lines_view(r@) == settings_lines(settings_layout(draft@, *o), look.look()),
{
    let cats: Vec<SettingsCategory> = settings_items(draft, o);
    let ghost all = settings_layout(draft@, *o);
    let mut lines: Vec<Line> = no_lines();
    add_blank(&mut lines);
    let ghost lead = lines_view(lines@);
    let mut first: usize = 0;
    let mut n: usize = 0;
    proof {
        lemma_layout_rows(draft@, *o, 0);
        assert(cats@.len() == categories_view(cats@).len());
        assert(lead + settings_rows(all, 0, look.look()) =~= lead);
    }
    while n < cats.len()
        invariant
            n <= cats@.len() == 7,
            all == settings_layout(draft@, *o),
            all == categories_view(cats@),
            first == rows_before(all, n as int),
            lines_view(lines@) == lead + settings_rows(all, n as int, look.look()),
        decreases cats@.len() - n,
    {
        proof {
            lemma_layout_rows(draft@, *o, n as int);
            assert(all[n as int] == cats@[n as int]@);
        }
        let ghost before = settings_rows(all, n as int, look.look());
        add_category(&mut lines, &cats[n], first, look);
        assert(lines_view(lines@) =~= lead + settings_rows(all, n + 1, look.look()));
        first += cats[n].items.len();
        n += 1;
    }
    if look.editing {
        add_hints(&mut lines, &setting_edit_keys());
    } else {
        add_hints(&mut lines, &settings_keys());
    }
    lines
}

pub open spec fn settings_colors(vibrant: bool) -> Pair {
    scheme(
        vibrant,
        (Color::LightMagenta, Color::LightMagenta),
        (Color::Cyan, Color::Yellow),
    )
}

fn colors_of_settings(vibrant: bool) -> (r: Pair)
    ensures
        r == settings_colors(vibrant),
{
    by_scheme(
        vibrant,
        (Color::LightMagenta, Color::LightMagenta),
        (Color::Cyan, Color::Yellow),
    )
}

/// A title that shows whether something is not saved yet.
pub open spec fn marked(title: Chars, starred: Chars, modified: bool) -> Chars {
    if modified {
        starred
    } else {
        title
    }
}

impl AppView {
    pub open spec fn field_cursor(self) -> FieldCursor {
        FieldCursor { at: self.text_cursor, visible: self.cursor_visible }
    }

    /// The settings: the lines that are scrolled to, and the hints at the end of them.
    #[verifier::opaque]
    pub open spec fn settings_scene(
        self,
        selected: usize,
        editing: bool,
        draft: ConfigView,
        modified: bool,
        area: Rect,
        screen: Rect,
        kit: Kit,
    ) -> SceneView {
        let lines = settings_lines(
            settings_layout(draft, self.options),
            SettingsLook {
                selected,
                editing,
                player: draft.player,
                cursor: self.field_cursor(),
                width: area.width as int,
            },
        );
        overlay_scene(
            area,
            screen,
            overlay_of(
                area,
                marked("Settings"@, "Settings *"@, modified),
                settings_colors(self.is_vibrant()),
                window(
                    lines,
                    kit.settings_offset as int,
                    max_int(area.height - 4, 0) + 2,
                ),
            ),
        )
    }
}

impl App {
    pub(crate) fn cursor_of_field(&self) -> (r: FieldCursor)
        ensures
            r == self@.field_cursor(),
    {
        FieldCursor { at: self.text_cursor, visible: self.cursor_visible }
    }

    pub fn draw_settings_overlay(
        &self,
        selected: usize,
        editing: bool,
        draft: &TuiConfig,
        modified: bool,
        area: Rect,
        screen: Rect,
        kit: &Kit,
    ) -> (r: Vec<Widget>)
        ensures
            widgets_view(r@) == self@.settings_scene(
                selected,
                editing,
                draft@,
                modified,
                area,
                screen,
                *kit,
            ),
    {
        reveal(AppView::settings_scene);
        let look: PageLook<'_> = PageLook {
            selected,
            editing,
            player: &draft.player,
            cursor: self.cursor_of_field(),
            width: area.width,
        };
        let lines: Vec<Line> = build_settings_lines(draft, &self.options, &look);
        let seen: Vec<Line> = take_window(
            &lines,
            kit.settings_offset,
            area.height.saturating_sub(4) as usize + 2,
        );
        let title: &str = if modified {
            "Settings *"
        } else {
            "Settings"
        };
        on_cleared(
            area,
            screen,
            overlay_panel(area, title, colors_of_settings(self.is_vibrant()), seen),
        )
    }
}

/// The bytes of a text.
pub open spec fn bytes_of(s: Chars) -> usize {
    offset_of(s, s.len() as int)
}

pub open spec fn current_mark(current: bool) -> Chars {
    if current {
        " *"@
    } else {
        ""@
    }
}

/// The row of a terminal: its name, a mark where it is the one in use, and its protocol.
pub open spec fn protocol_row(
    term: Chars,
    current: bool,
    selected: bool,
    protocol: Chars,
    width: int,
) -> LineView {
    let value = "< "@ + protocol + " >"@;
    let gap = max_int(
        max_int(width - 4, 0) - (bytes_of(row_prefix(selected) + term + current_mark(current))
            + bytes_of(value) + 1),
        0,
    );
    seq![
        span_of(row_prefix(selected), row_style(selected)),
        span_of(term, row_style(selected)),
        span_of(current_mark(current), Style::fg_spec(Color::Yellow)),
        span_of(blanks(gap as nat), Style::plain_spec()),
        span_of(
            value,
            if selected {
                Style::bold_spec(Color::Yellow)
            } else {
                Style::fg_spec(Color::Green)
            },
        ),
    ]
}

fn build_protocol_row(term: &str, current: bool, selected: bool, protocol: &str, width: u16) -> (r:
    Vec<Span>)
    ensures
        spans_view(r@) == protocol_row(term@, current, selected, protocol@, width as int),
{
    let mark: &str = if current {
        " *"
    } else {
        ""
    };
    let value: String = cat3("< ", protocol, " >");
    let name: String = cat3(prefix_of_row(selected), term, mark);
    let gap: usize = (width.saturating_sub(4) as usize).saturating_sub(
        text_len(name.as_str()),
    ).saturating_sub(text_len(value.as_str())).saturating_sub(1);
    let mut v: Vec<Span> = no_spans();
    add_span(&mut v, span(prefix_of_row(selected), style_of_row(selected)));
    add_span(&mut v, span(term, style_of_row(selected)));
    add_span(&mut v, span(mark, Style::fg(Color::Yellow)));
    add_span(&mut v, span_owned(spaces(gap), Style::plain()));
    add_span(
        &mut v,
        span_owned(
            value,
            if selected {
                Style::bold(Color::Yellow)
            } else {
                Style::fg(Color::Green)
            },
        ),
    );
    v
}

pub open spec fn protocol_rows(
    terminals: Seq<Chars>,
    current: Chars,
    selected: usize,
    draft: ConfigView,
    o: SettingOptions,
    width: int,
) -> Seq<LineView> {
    Seq::new(
        terminals.len(),
        |i: int|
            protocol_row(
                terminals[i],
                terminals[i] == current,
                i == selected,
                o.image_protocol.name(
                    protocol_of(draft.image_protocols, terminals[i], o.protocol_auto),
                ),
                width,
            ),
    )
}

fn build_protocol_rows(
    terminals: &Vec<String>,
    current: &str,
    selected: usize,
    draft: &TuiConfig,
    o: &SettingOptions,
    width: u16,
) -> (r: Vec<Line>)
    ensures
        lines_view(r@) == protocol_rows(
            texts(terminals@),
            current@,
            selected,
            draft@,
            *o,
            width as int,
        ),
{
    let mut out: Vec<Line> = no_lines();
    let ghost all = protocol_rows(texts(terminals@), current@, selected, draft@, *o, width as int);
    let mut i: usize = 0;
    assert(all.take(0) =~= Seq::empty());
    while i < terminals.len()
        invariant
            i <= terminals@.len(),
            all == protocol_rows(texts(terminals@), current@, selected, draft@, *o, width as int),
            lines_view(out@) == all.take(i as int),
        decreases terminals@.len() - i,
    {
        let term: &str = terminals[i].as_str();
        let p: usize = terminal_protocol(&draft.image_protocols, term, o.protocol_auto);
        add_line(
            &mut out,
            build_protocol_row(
                term,
                str_eq(term, current),
                i == selected,
                o.image_protocol.label(p),
                width,
            ),
        );
        assert(all.take(i + 1) =~= all.take(i as int).push(all[i as int]));
        i += 1;
    }
    assert(all.take(i as int) =~= all);
    out
}

pub open spec fn protocols_mouse(len: nat, area: Rect) -> MouseRows {
    mouse_rows(area, 4, len as int, 0, max_int(area.height - 6, 0))
}

impl AppView {
    #[verifier::opaque]
    pub open spec fn protocols_scene(
        self,
        selected: usize,
        draft: ConfigView,
        modified: bool,
        current: Chars,
        terminals: Seq<Chars>,
        area: Rect,
        screen: Rect,
    ) -> SceneView {
        let lead: Seq<LineView> = seq![
            blank_line(),
            line2(
                span_of("  Current terminal: "@, Style::fg_spec(Color::DarkGray)),
                span_of(current, Style::bold_spec(Color::Cyan)),
            ),
            blank_line(),
        ];
        overlay_scene(
            area,
            screen,
            overlay_of(
                area,
                marked("Image Protocol"@, "Image Protocol *"@, modified),
                settings_colors(self.is_vibrant()),
                with_hints(
                    lead + protocol_rows(
                        terminals,
                        current,
                        selected,
                        draft,
                        self.options,
                        area.width as int,
                    ),
                    protocols_hints(),
                ),
            ),
        )
    }
}

impl App {
    pub fn draw_image_protocol_overlay(
        &self,
        selected: usize,
        draft: &TuiConfig,
        modified: bool,
        current: &str,
        terminals: &Vec<String>,
        area: Rect,
        screen: Rect,
    ) -> (r: (Vec<Widget>, MouseRows))
        ensures
            widgets_view(r.0@) == self@.protocols_scene(
                selected,
                draft@,
                modified,
                current@,
                texts(terminals@),
                area,
                screen,
            ),
            r.1 == protocols_mouse(terminals@.len(), area),
    {
        reveal(AppView::protocols_scene);
        let mut lines: Vec<Line> = no_lines();
        add_blank(&mut lines);
        crate::style::add2(
            &mut lines,
            span("  Current terminal: ", Style::fg(Color::DarkGray)),
            span(current, Style::bold(Color::Cyan)),
        );
        add_blank(&mut lines);
        let ghost lead: Seq<LineView> = seq![
            blank_line(),
            line2(
                span_of("  Current terminal: "@, Style::fg_spec(Color::DarkGray)),
                span_of(current@, Style::bold_spec(Color::Cyan)),
            ),
            blank_line(),
        ];
        assert(lines_view(lines@) =~= lead);
        add_lines(
            &mut lines,
            build_protocol_rows(terminals, current, selected, draft, &self.options, area.width),
        );
        add_hints(&mut lines, &protocols_keys());
        let title: &str = if modified {
            "Image Protocol *"
        } else {
            "Image Protocol"
        };
        (
            on_cleared(
                area,
                screen,
                overlay_panel(area, title, colors_of_settings(self.is_vibrant()), lines),
            ),
            place_rows(area, 4, terminals.len(), 0, area.height.saturating_sub(6) as usize),
        )
    }
}

pub open spec fn color_name(i: int) -> Chars {
    if i == 0 {
        "Folder"@
    } else if i == 1 {
        "Archive"@
    } else if i == 2 {
        "Image"@
    } else if i == 3 {
        "Video"@
    } else if i == 4 {
        "Audio"@
    } else if i == 5 {
        "Document"@
    } else if i == 6 {
        "Code"@
    } else {
        "Default"@
    }
}

fn name_of_color(i: usize) -> (r: &'static str)
    ensures
        r@ == color_name(i as int),
{
    match i {
        0 => "Folder",
        1 => "Archive",
        2 => "Image",
        3 => "Video",
        4 => "Audio",
        5 => "Document",
        6 => "Code",
        _ => "Default",
    }
}

fn color_in_row(c: &CustomColors, i: usize) -> (r: (u8, u8, u8))
    ensures
        r == color_at(*c, i),
{
    match i {
        0 => c.folder,
        1 => c.archive,
        2 => c.image,
        3 => c.video,
        4 => c.audio,
        5 => c.document,
        6 => c.code,
        _ => c.default,
    }
}

/// A text moved to the left of a field of `n` columns.
pub open spec fn to_the_left(t: Chars, n: int) -> Chars {
    t + blanks(max_int(n - t.len(), 0) as nat)
}

fn align_left(t: &str, n: usize) -> (r: String)
    ensures
        r@ == to_the_left(t@, n as int),
{
    let v: Vec<char> = chars_of(t);
    cat2(t, spaces(n.saturating_sub(v.len())).as_str())
}

/// A colour as three numbers.
pub open spec fn rgb_text(c: (u8, u8, u8)) -> Chars {
    "R:"@ + to_the_right(decimal(c.0 as nat), 3) + " G:"@ + to_the_right(decimal(c.1 as nat), 3)
        + (" B:"@ + to_the_right(decimal(c.2 as nat), 3))
}

fn write_rgb(c: (u8, u8, u8)) -> (r: String)
    ensures
        r@ == rgb_text(c),
{
    let red: String = align_right(dec(c.0 as u64).as_str(), 3);
    let green: String = align_right(dec(c.1 as u64).as_str(), 3);
    let blue: String = align_right(dec(c.2 as u64).as_str(), 3);
    cat5("R:", red.as_str(), " G:", green.as_str(), cat2(" B:", blue.as_str()).as_str())
}

pub open spec fn component_name(i: usize) -> Chars {
    if i == 0 {
        "R"@
    } else if i == 1 {
        "G"@
    } else if i == 2 {
        "B"@
    } else {
        "?"@
    }
}

fn name_of_component(i: usize) -> (r: &'static str)
    ensures
        r@ == component_name(i),
{
    match i {
        0 => "R",
        1 => "G",
        2 => "B",
        _ => "?",
    }
}

/// The number that is being typed for a part of a colour.
pub open spec fn rgb_field(component: usize, input: Chars) -> LineView {
    seq![
        span_of("  "@, Style::plain_spec()),
        span_of(
            "  Editing "@ + component_name(component) + ": "@ + input + "_"@,
            Style::bold_spec(Color::Yellow),
        ),
    ]
}

/// The row of a colour.
pub open spec fn color_row(
    i: int,
    c: (u8, u8, u8),
    selected: bool,
    editing: bool,
    component: usize,
    input: Chars,
) -> LineView {
    let row: LineView = seq![
        span_of(row_prefix(selected), row_style(selected)),
        span_of(to_the_left(color_name(i), 12), row_style(selected)),
        span_of("\u{2588}\u{2588}\u{2588}"@, Style::fg_spec(Color::Rgb(c.0, c.1, c.2))),
        span_of("  "@, Style::plain_spec()),
        span_of(rgb_text(c), Style::fg_spec(Color::DarkGray)),
    ];
    if selected && editing {
        row + rgb_field(component, input)
    } else {
        row
    }
}

fn build_color_row(
    i: usize,
    c: (u8, u8, u8),
    selected: bool,
    editing: bool,
    component: usize,
    input: &str,
) -> (r: Vec<Span>)
    ensures
        spans_view(r@) == color_row(i as int, c, selected, editing, component, input@),
{
    let mut v: Vec<Span> = no_spans();
    add_span(&mut v, span(prefix_of_row(selected), style_of_row(selected)));
    add_span(&mut v, span_owned(align_left(name_of_color(i), 12), style_of_row(selected)));
    add_span(
        &mut v,
        span("\u{2588}\u{2588}\u{2588}", Style::fg(Color::Rgb(c.0, c.1, c.2))),
    );
    add_span(&mut v, span("  ", Style::plain()));
    add_span(&mut v, span_owned(write_rgb(c), Style::fg(Color::DarkGray)));
    if selected && editing {
        let ghost row = spans_view(v@);
        add_span(&mut v, span("  ", Style::plain()));
        add_span(
            &mut v,
            span_owned(
                cat5("  Editing ", name_of_component(component), ": ", input, "_"),
                Style::bold(Color::Yellow),
            ),
        );
        assert(spans_view(v@) =~= row + rgb_field(component, input@));
    }
    v
}

pub open spec fn color_rows(
    c: CustomColors,
    selected: usize,
    editing: bool,
    component: usize,
    input: Chars,
) -> Seq<LineView> {
    Seq::new(
        8,
        |i: int|
            color_row(i, color_at(c, i as usize), i == selected, editing, component, input),
    )
}

fn build_color_rows(
    c: &CustomColors,
    selected: usize,
    editing: bool,
    component: usize,
    input: &str,
) -> (r: Vec<Line>)
    ensures
        lines_view(r@) == color_rows(*c, selected, editing, component, input@),
{
    let mut out: Vec<Line> = no_lines();
    let ghost all = color_rows(*c, selected, editing, component, input@);
    let mut i: usize = 0;
    assert(all.take(0) =~= Seq::empty());
    while i < 8
        invariant
            i <= 8 == all.len(),
            all == color_rows(*c, selected, editing, component, input@),
            lines_view(out@) == all.take(i as int),
        decreases 8 - i,
    {
        add_line(
            &mut out,
            build_color_row(i, color_in_row(c, i), i == selected, editing, component, input),
        );
        assert(all.take(i + 1) =~= all.take(i as int).push(all[i as int]));
        i += 1;
    }
    assert(all.take(i as int) =~= all);
    out
}

pub open spec fn colors_mouse(area: Rect) -> MouseRows {
    mouse_rows(area, 2, 8, 0, max_int(area.height - 4, 0))
}

impl AppView {
    #[verifier::opaque]
    pub open spec fn colors_scene(
        self,
        selected: usize,
        draft: ConfigView,
        modified: bool,
        editing: bool,
        input: Chars,
        component: usize,
        area: Rect,
        screen: Rect,
    ) -> SceneView {
        let lead: Seq<LineView> = seq![blank_line()];
        overlay_scene(
            area,
            screen,
            overlay_of(
                area,
                marked("Custom Colors"@, "Custom Colors *"@, modified),
                settings_colors(self.is_vibrant()),
                with_hints(
                    lead + color_rows(draft.custom_colors, selected, editing, component, input),
                    if editing {
                        rgb_hints()
                    } else {
                        colors_hints()
                    },
                ),
            ),
        )
    }
}

impl App {
    pub fn draw_custom_color_overlay(
        &self,
        selected: usize,
        draft: &TuiConfig,
        modified: bool,
        editing: bool,
        input: &str,
        component: usize,
        area: Rect,
        screen: Rect,
    ) -> (r: (Vec<Widget>, MouseRows))
        ensures
            widgets_view(r.0@) == self@.colors_scene(
                selected,
                draft@,
                modified,
                editing,
                input@,
                component,
                area,
                screen,
            ),
            r.1 == colors_mouse(area),
    {
        reveal(AppView::colors_scene);
        let mut lines: Vec<Line> = no_lines();
        add_blank(&mut lines);
        add_lines(
            &mut lines,
            build_color_rows(&draft.custom_colors, selected, editing, component, input),
        );
        let keys: Hints = if editing {
            rgb_keys()
        } else {
            colors_keys()
        };
        add_hints(&mut lines, &keys);
        let title: &str = if modified {
            "Custom Colors *"
        } else {
            "Custom Colors"
        };
        (
            on_cleared(
                area,
                screen,
                overlay_panel(area, title, colors_of_settings(self.is_vibrant()), lines),
            ),
            place_rows(area, 2, 8, 0, area.height.saturating_sub(4) as usize),
        )
    }
}

/// The question whether changed settings are to be thrown away.
pub open spec fn discard_scene(vibrant: bool, area: Rect, screen: Rect) -> SceneView {
    overlay_scene(
        area,
        screen,
        overlay_of(
            area,
            "Unsaved Settings"@,
            themed(vibrant, Color::Red, Color::Yellow),
            with_hints(
                seq![
                    blank_line(),
                    line1(
                        span_of(
                            "  Discard unsaved settings?"@,
                            Style::fg_spec(Color::Yellow),
                        ),
                    ),
                ],
                discard_hints(),
            ),
        ),
    )
}

pub fn draw_discard_settings_overlay(vibrant: bool, area: Rect, screen: Rect) -> (r: Vec<Widget>)
    ensures
        widgets_view(r@) == discard_scene(vibrant, area, screen),
{
    let mut lines: Vec<Line> = no_lines();
    add_blank(&mut lines);
    add1(&mut lines, span("  Discard unsaved settings?", Style::fg(Color::Yellow)));
    assert(lines_view(lines@) =~= seq![
        blank_line(),
        line1(span_of("  Discard unsaved settings?"@, Style::fg_spec(Color::Yellow))),
    ]);
    add_hints(&mut lines, &discard_keys());
    on_cleared(
        area,
        screen,
        overlay_panel(
            area,
            "Unsaved Settings",
            themed_colors_pair(vibrant, Color::Red, Color::Yellow),
            lines,
        ),
    )
}

} // verus!
