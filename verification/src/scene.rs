//! What is put on the screen: panels, lists and bars, and where they stand.

use crate::geometry::{max_int, min_int, Rect};
use crate::model::{FileCategory, ImageHandle};
use crate::style::{
    add_span, lines_view, no_spans, span, span_of, span_owned, spans_view, Color, Line, LineView,
    Span, Style,
};
use crate::text::{cat2, Chars};
use crate::width::{text_columns, text_width};
use ratatui::layout::{Constraint, Direction, Layout};
use vstd::prelude::*;

verus! {

/// The way in which an area is divided.
#[derive(Clone, Copy, Debug, PartialEq, Eq, Structural)]
pub enum Axis {
    Vertical,
    Horizontal,
}

/// How large a part of a divided area wants to be.
#[derive(Clone, Copy, Debug, PartialEq, Eq, Structural)]
pub enum Rule {
    Min(u16),
    Length(u16),
    Percentage(u16),
}

/// Whether an area lies within another one.
pub open spec fn lies_in(part: Rect, whole: Rect) -> bool {
    &&& whole.x <= part.x
    &&& whole.y <= part.y
    &&& part.x + part.width <= whole.x + whole.width
    &&& part.y + part.height <= whole.y + whole.height
}

/// How far an area goes along an axis. No cell lies beyond the largest coordinate.
pub open spec fn extent(axis: Axis, area: Rect) -> int {
    match axis {
        Axis::Vertical => bottom_of(area) - area.y,
        Axis::Horizontal => right_of(area) - area.x,
    }
}

/// The cell at which a share of `size` cells ends. A border that falls into a cell is put on the
/// nearer side of it.
pub open spec fn at_percent(size: int, percent: int) -> int {
    (percent * size + 50) / 100
}

/// The columns of an area between two percentages of its width.
pub open spec fn columns_between(area: Rect, from: int, to: int) -> Rect {
    let size = extent(Axis::Horizontal, area);
    Rect {
        x: (area.x + at_percent(size, from)) as u16,
        width: (at_percent(size, to) - at_percent(size, from)) as u16,
        ..area
    }
}

/// The rows of an area between two percentages of its height.
pub open spec fn rows_between(area: Rect, from: int, to: int) -> Rect {
    let size = extent(Axis::Vertical, area);
    Rect {
        y: (area.y + at_percent(size, from)) as u16,
        height: (at_percent(size, to) - at_percent(size, from)) as u16,
        ..area
    }
}

/// The percentages of the first `n` rules together.
pub open spec fn percents(rules: Seq<Rule>, n: int) -> int
    decreases n,
{
    if n <= 0 {
        0
    } else {
        percents(rules, n - 1) + rules[n - 1]->Percentage_0
    }
}

/// The lengths of the first `n` rules together.
pub open spec fn lengths(rules: Seq<Rule>, n: int) -> int
    decreases n,
{
    if n <= 0 {
        0
    } else {
        lengths(rules, n - 1) + rules[n - 1]->Length_0
    }
}

pub open spec fn in_percent(rules: Seq<Rule>) -> bool {
    forall|i: int| 0 <= i < rules.len() ==> #[trigger] rules[i] is Percentage
}

pub open spec fn in_cells(rules: Seq<Rule>) -> bool {
    forall|i: int| 0 <= i < rules.len() ==> #[trigger] rules[i] is Length
}

/// Whether one of two parts has a length and the other one takes the rest.
pub open spec fn with_rest(rules: Seq<Rule>) -> bool {
    rules.len() == 2 && ((rules[0] is Length && rules[1] is Min && rules[1]->Min_0 < 0x8000) || (
    rules[0] is Min && rules[0]->Min_0 < 0x8000 && rules[1] is Length))
}

/// Whether the rules can all be kept in `size` cells, or give way to each other in one way only.
pub open spec fn is_settled(rules: Seq<Rule>, size: int) -> bool {
    ||| in_percent(rules) && percents(rules, rules.len() as int) <= 100
    ||| in_cells(rules) && lengths(rules, rules.len() as int) <= size
    ||| with_rest(rules)
}

/// The cells of a part with a length beside one that wants `least` cells at least.
pub open spec fn beside_rest(length: int, least: int, size: int) -> int {
    min_int(length, max_int(size - least, 0))
}

/// The cell at which the `n`-th part begins, and the one before it ends.
pub open spec fn border_of(rules: Seq<Rule>, size: int, n: int) -> int {
    if in_percent(rules) {
        at_percent(size, percents(rules, n))
    } else if in_cells(rules) {
        lengths(rules, n)
    } else if n <= 0 {
        0
    } else if n >= 2 {
        size
    } else if rules[0] is Length {
        beside_rest(rules[0]->Length_0 as int, rules[1]->Min_0 as int, size)
    } else {
        size - beside_rest(rules[1]->Length_0 as int, rules[0]->Min_0 as int, size)
    }
}

/// The `n`-th part of an area that is divided.
pub open spec fn part(axis: Axis, rules: Seq<Rule>, area: Rect, n: int) -> Rect {
    let size = extent(axis, area);
    let from = border_of(rules, size, n);
    let to = border_of(rules, size, n + 1);
    match axis {
        Axis::Vertical => Rect {
            y: (area.y + from) as u16,
            height: (to - from) as u16,
            ..area
        },
        Axis::Horizontal => Rect {
            x: (area.x + from) as u16,
            width: (to - from) as u16,
            ..area
        },
    }
}

/// `ratatui::layout::Layout::split`, without margins and spacing. There is a part for each rule, it
/// lies within the whole, which the solver is given as a requirement, and across the axis it is as
/// large as the whole. Parts follow each other from the start of the area on. Percentages that
/// together take no more than the whole get their share, lengths that fit into it are kept, and a
/// length gives way to the least size of a part that takes the rest: the solver minimises the
/// weighted misses, the weights of these rules are apart by factors of ten at least from all that
/// pull against them, and a result is rounded to the nearer cell. Of other rules, which the solver
/// weighs against each other while it walks hash maps with seeded hashers, no more is said.
#[verifier::external_body]
pub(crate) fn split(axis: Axis, rules: &Vec<Rule>, area: Rect) -> (r: Vec<Rect>)
    ensures
        r@.len() == rules@.len(),
        forall|i: int| 0 <= i < r@.len() ==> lies_in(#[trigger] r@[i], area),
        forall|i: int|
            0 <= i < r@.len() ==> match axis {
                Axis::Vertical => (#[trigger] r@[i]).x == area.x && r@[i].width == area.width,
                Axis::Horizontal => r@[i].y == area.y && r@[i].height == area.height,
            },
        is_settled(rules@, extent(axis, area)) ==> forall|i: int|
            0 <= i < r@.len() ==> (#[trigger] r@[i]) == part(axis, rules@, area, i),
{
    let direction = match axis {
        Axis::Vertical => Direction::Vertical,
        Axis::Horizontal => Direction::Horizontal,
    };
    let constraints = rules.iter().map(|r| match r {
        Rule::Min(n) => Constraint::Min(*n),
        Rule::Length(n) => Constraint::Length(*n),
        Rule::Percentage(n) => Constraint::Percentage(*n),
    });
    let whole = ratatui::layout::Rect { x: area.x, y: area.y, width: area.width, height: area.height };
    let parts = Layout::default().direction(direction).constraints(constraints).split(whole);
    parts.iter().map(|p| Rect { x: p.x, y: p.y, width: p.width, height: p.height }).collect()
}

/// A part in the middle that takes `percent` of the whole, and what is left around it.
pub open spec fn middle_rules(percent: int) -> Seq<Rule> {
    let side = Rule::Percentage(((100 - percent) / 2) as u16);
    seq![side, Rule::Percentage(percent as u16), side]
}

/// The rules for a part in the middle. The percentage must not go beyond a hundred.
pub fn middle(percent: u16) -> (r: Vec<Rule>)
    requires
        percent <= 100,
    ensures
        r@ == middle_rules(percent as int),
{
    let side: u16 = (100 - percent) / 2;
    let mut v: Vec<Rule> = Vec::new();
    v.push(Rule::Percentage(side));
    v.push(Rule::Percentage(percent));
    v.push(Rule::Percentage(side));
    v
}

proof fn lemma_middle_is_settled(percent: int, size: int)
    requires
        0 <= percent <= 100,
    ensures
        is_settled(middle_rules(percent), size),
        in_percent(middle_rules(percent)),
        percents(middle_rules(percent), 1) == (100 - percent) / 2,
        percents(middle_rules(percent), 2) == (100 - percent) / 2 + percent,
{
    reveal_with_fuel(percents, 4);
    assert(percents(middle_rules(percent), 3) == 2 * ((100 - percent) / 2) + percent);
}

/// An area in the middle of another, as wide and as high as the percentages say. What is left is
/// shared out evenly on both sides, in whole percents.
pub open spec fn centered(percent_x: int, percent_y: int, area: Rect) -> Rect {
    let left = (100 - percent_x) / 2;
    let top = (100 - percent_y) / 2;
    columns_between(rows_between(area, top, top + percent_y), left, left + percent_x)
}

/// Finds the area in the middle of another. Each percentage must not go beyond a hundred.
pub fn centered_rect(percent_x: u16, percent_y: u16, area: Rect) -> (r: Rect)
    requires
        percent_x <= 100,
        percent_y <= 100,
    ensures
        r == centered(percent_x as int, percent_y as int, area),
        lies_in(r, area),
{
    let rows: Vec<Rect> = split(Axis::Vertical, &middle(percent_y), area);
    let columns: Vec<Rect> = split(Axis::Horizontal, &middle(percent_x), rows[1]);
    proof {
        lemma_middle_is_settled(percent_y as int, extent(Axis::Vertical, area));
        lemma_middle_is_settled(percent_x as int, extent(Axis::Horizontal, rows@[1]));
    }
    columns[1]
}

/// The common part of two areas.
pub open spec fn common(a: Rect, b: Rect) -> Rect {
    let x = max_int(a.x as int, b.x as int);
    let y = max_int(a.y as int, b.y as int);
    let right = min_int(right_of(a), right_of(b));
    let bottom = min_int(bottom_of(a), bottom_of(b));
    Rect {
        x: x as u16,
        y: y as u16,
        width: max_int(right - x, 0) as u16,
        height: max_int(bottom - y, 0) as u16,
    }
}

pub open spec fn right_of(a: Rect) -> int {
    min_int(a.x + a.width, u16::MAX as int)
}

pub open spec fn bottom_of(a: Rect) -> int {
    min_int(a.y + a.height, u16::MAX as int)
}

pub fn intersection(a: Rect, b: Rect) -> (r: Rect)
    ensures
        r == common(a, b),
{
    let x: u16 = if a.x >= b.x {
        a.x
    } else {
        b.x
    };
    let y: u16 = if a.y >= b.y {
        a.y
    } else {
        b.y
    };
    let ar: u16 = a.x.saturating_add(a.width);
    let br: u16 = b.x.saturating_add(b.width);
    let right: u16 = if ar <= br {
        ar
    } else {
        br
    };
    let ab: u16 = a.y.saturating_add(a.height);
    let bb: u16 = b.y.saturating_add(b.height);
    let bottom: u16 = if ab <= bb {
        ab
    } else {
        bb
    };
    Rect { x, y, width: right.saturating_sub(x), height: bottom.saturating_sub(y) }
}

/// The area that is cleared for an overlay: one column more on each side, as far as the screen
/// goes, so that no half of a wide character is left standing.
pub open spec fn cleared_area(area: Rect, screen: Rect) -> Rect {
    let more: int = if area.x > 0 {
        2
    } else {
        1
    };
    common(
        Rect {
            x: max_int(area.x - 1, 0) as u16,
            y: area.y,
            width: min_int(area.width + more, u16::MAX as int) as u16,
            height: area.height,
        },
        screen,
    )
}

pub fn clear_overlay_area(area: Rect, screen: Rect) -> (r: Rect)
    ensures
        r == cleared_area(area, screen),
{
    let more: u16 = if area.x > 0 {
        2
    } else {
        1
    };
    let wide: Rect = Rect {
        x: area.x.saturating_sub(1),
        y: area.y,
        width: area.width.saturating_add(more),
        height: area.height,
    };
    intersection(wide, screen)
}

/// What is cleared lies on the screen.
pub proof fn law_cleared_area_is_on_the_screen(area: Rect, screen: Rect, col: u16, row: u16)
    requires
        cleared_area(area, screen).holds(col, row),
    ensures
        screen.holds(col, row),
{
}

/// How a picture is shown.
#[derive(Clone, Copy, Debug, PartialEq, Eq, Structural)]
pub enum ThumbnailRenderMode {
    /// With the image protocol of the terminal, or with half blocks where it has none.
    Auto,
    ColoredHalf,
    Grayscale,
    Off,
}

/// A thing that is put on the screen. Later ones cover earlier ones.
#[derive(Debug)]
pub enum Widget {
    /// The whole screen in the background colour.
    Background,
    /// Blanks.
    Clear { area: Rect },
    /// Lines in a border with a title.
    Panel {
        area: Rect,
        title: String,
        title_style: Style,
        border: Color,
        lines: Vec<Line>,
        wrap: bool,
    },
    /// A list in a border with a title.
    List {
        area: Rect,
        title: String,
        title_style: Style,
        border: Color,
        items: Vec<Line>,
        selected: Option<usize>,
        highlight: Style,
        symbol: String,
    },
    /// Lines without a border.
    Text { area: Rect, lines: Vec<Line> },
    /// A border with a title around what was drawn before.
    Border { area: Rect, title: String, title_style: Style, border: Color },
    /// A picture that takes some columns and rows.
    Image { area: Rect, image: ImageHandle, mode: ThumbnailRenderMode, size: (u16, u16) },
    /// The page of the downloads.
    Downloads { expanded: bool },
}

#[allow(inconsistent_fields)]
pub enum WidgetView {
    Background,
    Clear { area: Rect },
    Panel {
        area: Rect,
        title: Chars,
        title_style: Style,
        border: Color,
        lines: Seq<LineView>,
        wrap: bool,
    },
    List {
        area: Rect,
        title: Chars,
        title_style: Style,
        border: Color,
        items: Seq<LineView>,
        selected: Option<usize>,
        highlight: Style,
        symbol: Chars,
    },
    Text { area: Rect, lines: Seq<LineView> },
    Border { area: Rect, title: Chars, title_style: Style, border: Color },
    Image { area: Rect, image: ImageHandle, mode: ThumbnailRenderMode, size: (u16, u16) },
    Downloads { expanded: bool },
}

impl View for Widget {
    type V = WidgetView;

    open spec fn view(&self) -> WidgetView {
        match self {
            Widget::Background => WidgetView::Background,
            Widget::Clear { area } => WidgetView::Clear { area: *area },
            Widget::Panel { area, title, title_style, border, lines, wrap } => WidgetView::Panel {
                area: *area,
                title: title@,
                title_style: *title_style,
                border: *border,
                lines: lines_view(lines@),
                wrap: *wrap,
            },
            Widget::List {
                area,
                title,
                title_style,
                border,
                items,
                selected,
                highlight,
                symbol,
            } => WidgetView::List {
                area: *area,
                title: title@,
                title_style: *title_style,
                border: *border,
                items: lines_view(items@),
                selected: *selected,
                highlight: *highlight,
                symbol: symbol@,
            },
            Widget::Text { area, lines } => WidgetView::Text {
                area: *area,
                lines: lines_view(lines@),
            },
            Widget::Border { area, title, title_style, border } => WidgetView::Border {
                area: *area,
                title: title@,
                title_style: *title_style,
                border: *border,
            },
            Widget::Image { area, image, mode, size } => WidgetView::Image {
                area: *area,
                image: *image,
                mode: *mode,
                size: *size,
            },
            Widget::Downloads { expanded } => WidgetView::Downloads { expanded: *expanded },
        }
    }
}

pub type SceneView = Seq<WidgetView>;

pub open spec fn widgets_view(v: Seq<Widget>) -> SceneView {
    Seq::new(v.len(), |i: int| v[i]@)
}

pub fn no_widgets() -> (r: Vec<Widget>)
    ensures
        widgets_view(r@) == Seq::<WidgetView>::empty(),
{
    let v: Vec<Widget> = Vec::new();
    assert(widgets_view(v@) =~= Seq::<WidgetView>::empty());
    v
}

pub fn add_widget(v: &mut Vec<Widget>, w: Widget)
    ensures
        widgets_view(final(v)@) == widgets_view(old(v)@).push(w@),
{
    v.push(w);
    assert(widgets_view(v@) =~= widgets_view(old(v)@).push(w@));
}

pub fn add_widgets(v: &mut Vec<Widget>, more: Vec<Widget>)
    ensures
        widgets_view(final(v)@) == widgets_view(old(v)@) + widgets_view(more@),
{
    let mut more = more;
    let ghost added = more@;
    v.append(&mut more);
    assert(widgets_view(v@) =~= widgets_view(old(v)@) + widgets_view(added));
}

pub fn add_lines(v: &mut Vec<Line>, more: Vec<Line>)
    ensures
        lines_view(final(v)@) == lines_view(old(v)@) + lines_view(more@),
{
    let mut more = more;
    let ghost added = more@;
    v.append(&mut more);
    assert(lines_view(v@) =~= lines_view(old(v)@) + lines_view(added));
}

pub fn add_spans(v: &mut Vec<Span>, more: Vec<Span>)
    ensures
        spans_view(final(v)@) == spans_view(old(v)@) + spans_view(more@),
{
    let mut more = more;
    let ghost added = more@;
    v.append(&mut more);
    assert(spans_view(v@) =~= spans_view(old(v)@) + spans_view(added));
}

/// Lines in a border, for the specifications.
pub open spec fn panel_of(
    area: Rect,
    title: Chars,
    title_style: Style,
    border: Color,
    lines: Seq<LineView>,
) -> WidgetView {
    WidgetView::Panel { area, title, title_style, border, lines, wrap: false }
}

pub fn panel(
    area: Rect,
    title: String,
    title_style: Style,
    border: Color,
    lines: Vec<Line>,
) -> (r: Widget)
    ensures
        r@ == panel_of(area, title@, title_style, border, lines_view(lines@)),
{
    Widget::Panel { area, title, title_style, border, lines, wrap: false }
}

/// A border colour and a title colour.
pub type Pair = (Color, Color);

/// The panel of an overlay, with a blank on each side of its title.
pub open spec fn overlay_of(area: Rect, title: Chars, colors: Pair, lines: Seq<LineView>) -> WidgetView {
    panel_of(area, " "@ + title + " "@, Style::fg_spec(colors.1), colors.0, lines)
}

pub fn overlay_panel(area: Rect, title: &str, colors: Pair, lines: Vec<Line>) -> (r: Widget)
    ensures
        r@ == overlay_of(area, title@, colors, lines_view(lines@)),
{
    panel(
        area,
        crate::text::cat3(" ", title, " "),
        Style::fg(colors.1),
        colors.0,
        lines,
    )
}

/// An overlay: a cleared area and a panel on it.
pub open spec fn overlay_scene(area: Rect, screen: Rect, w: WidgetView) -> SceneView {
    seq![WidgetView::Clear { area: cleared_area(area, screen) }, w]
}

pub fn on_cleared(area: Rect, screen: Rect, w: Widget) -> (r: Vec<Widget>)
    ensures
        widgets_view(r@) == overlay_scene(area, screen, w@),
{
    let mut v: Vec<Widget> = no_widgets();
    add_widget(&mut v, Widget::Clear { area: clear_overlay_area(area, screen) });
    add_widget(&mut v, w);
    v
}

/// The light variant of a colour.
pub open spec fn light(c: Color) -> Color {
    match c {
        Color::Red => Color::LightRed,
        Color::Green => Color::LightGreen,
        Color::Yellow => Color::LightYellow,
        Color::Blue => Color::LightBlue,
        Color::Cyan => Color::LightCyan,
        Color::Magenta => Color::LightMagenta,
        other => other,
    }
}

pub fn vibrant(c: Color) -> (r: Color)
    ensures
        r == light(c),
{
    match c {
        Color::Red => Color::LightRed,
        Color::Green => Color::LightGreen,
        Color::Yellow => Color::LightYellow,
        Color::Blue => Color::LightBlue,
        Color::Cyan => Color::LightCyan,
        Color::Magenta => Color::LightMagenta,
        other => other,
    }
}

/// The colours of border and title in the colour scheme.
pub open spec fn themed(vibrant: bool, border: Color, title: Color) -> Pair {
    if vibrant {
        (light(border), light(title))
    } else {
        (border, title)
    }
}

/// Returns the colours of border and title for distinct base colours: in the vibrant scheme, the
/// light variant of each.
pub fn themed_colors_pair(is_vibrant: bool, border: Color, title: Color) -> (r: Pair)
    ensures
        r == themed(is_vibrant, border, title),
{
    if is_vibrant {
        (vibrant(border), vibrant(title))
    } else {
        (border, title)
    }
}

pub fn themed_colors(is_vibrant: bool, base: Color) -> (r: Pair)
    ensures
        r == themed(is_vibrant, base, base),
{
    themed_colors_pair(is_vibrant, base, base)
}

/// One pair of colours in the vibrant scheme, and another in the others.
pub open spec fn scheme(is_vibrant: bool, bright: Pair, normal: Pair) -> Pair {
    if is_vibrant {
        bright
    } else {
        normal
    }
}

pub fn by_scheme(is_vibrant: bool, bright: Pair, normal: Pair) -> (r: Pair)
    ensures
        r == scheme(is_vibrant, bright, normal),
{
    if is_vibrant {
        bright
    } else {
        normal
    }
}

/// The style of the entry that the cursor is on.
pub open spec fn highlight(is_vibrant: bool) -> Style {
    Style::bold_spec(
        if is_vibrant {
            Color::LightCyan
        } else {
            Color::Cyan
        },
    )
}

pub fn highlight_style(is_vibrant: bool) -> (r: Style)
    ensures
        r == highlight(is_vibrant),
{
    if is_vibrant {
        Style::bold(Color::LightCyan)
    } else {
        Style::bold(Color::Cyan)
    }
}

/// Keys and what they do.
pub type Hints = Vec<(&'static str, &'static str)>;

pub type HintsView = Seq<(Chars, Chars)>;

pub open spec fn hints_view(v: Seq<(&'static str, &'static str)>) -> HintsView {
    Seq::new(v.len(), |i: int| (v[i].0@, v[i].1@))
}

pub fn no_hints() -> (r: Hints)
    ensures
        hints_view(r@) == Seq::<(Chars, Chars)>::empty(),
{
    let v: Hints = Vec::new();
    assert(hints_view(v@) =~= Seq::<(Chars, Chars)>::empty());
    v
}

pub fn add_hint(v: &mut Hints, key: &'static str, what: &'static str)
    ensures
        hints_view(final(v)@) == hints_view(old(v)@).push((key@, what@)),
{
    v.push((key, what));
    assert(hints_view(v@) =~= hints_view(old(v)@).push((key@, what@)));
}

pub fn hints1(a: (&'static str, &'static str)) -> (r: Hints)
    ensures
        hints_view(r@) == seq![(a.0@, a.1@)],
{
    let mut v: Hints = no_hints();
    add_hint(&mut v, a.0, a.1);
    v
}

pub fn hints2(a: (&'static str, &'static str), b: (&'static str, &'static str)) -> (r: Hints)
    ensures
        hints_view(r@) == seq![(a.0@, a.1@), (b.0@, b.1@)],
{
    let mut v: Hints = hints1(a);
    add_hint(&mut v, b.0, b.1);
    v
}

pub fn hints3(
    a: (&'static str, &'static str),
    b: (&'static str, &'static str),
    c: (&'static str, &'static str),
) -> (r: Hints)
    ensures
        hints_view(r@) == seq![(a.0@, a.1@), (b.0@, b.1@), (c.0@, c.1@)],
{
    let mut v: Hints = hints2(a, b);
    add_hint(&mut v, c.0, c.1);
    v
}

/// Keys and what they do as spans, with dots between them.
pub open spec fn help_spans(pairs: HintsView) -> LineView
    decreases pairs.len(),
{
    if pairs.len() == 0 {
        Seq::empty()
    } else {
        let before = help_spans(pairs.drop_last());
        let p = pairs.last();
        let apart = if pairs.len() > 1 {
            before.push(span_of(" \u{2022} "@, Style::fg_spec(Color::DarkGray)))
        } else {
            before
        };
        apart.push(span_of(p.0, Style::bold_spec(Color::White))).push(
            span_of(" "@ + p.1, Style::fg_spec(Color::DarkGray)),
        )
    }
}

fn help_spans_upto(pairs: &Hints, n: usize) -> (r: Vec<Span>)
    requires
        n <= pairs@.len(),
    ensures
        spans_view(r@) == help_spans(hints_view(pairs@).take(n as int)),
{
    let mut out: Vec<Span> = no_spans();
    let mut i: usize = 0;
    let ghost all = hints_view(pairs@);
    assert(all.take(0) =~= Seq::empty());
    while i < n
        invariant
            i <= n <= pairs@.len(),
            all == hints_view(pairs@),
            spans_view(out@) == help_spans(all.take(i as int)),
        decreases n - i,
    {
        assert(all.take(i + 1).drop_last() =~= all.take(i as int));
        assert(all.take(i + 1).last() == (pairs@[i as int].0@, pairs@[i as int].1@));
        if i > 0 {
            add_span(&mut out, span(" \u{2022} ", Style::fg(Color::DarkGray)));
        }
        add_span(&mut out, span(pairs[i].0, Style::bold(Color::White)));
        add_span(
            &mut out,
            span_owned(cat2(" ", pairs[i].1), Style::fg(Color::DarkGray)),
        );
        i += 1;
    }
    out
}

pub fn styled_help_spans(pairs: &Hints) -> (r: Vec<Span>)
    ensures
        spans_view(r@) == help_spans(hints_view(pairs@)),
{
    assert(hints_view(pairs@).take(pairs@.len() as int) =~= hints_view(pairs@));
    help_spans_upto(pairs, pairs.len())
}

/// The columns that pair `i` takes, with the dot before it.
pub open spec fn hint_columns(p: (Chars, Chars), i: int) -> int {
    (if i > 0 {
        3int
    } else {
        0
    }) + text_columns(p.0) + 1 + text_columns(p.1)
}

/// How many of the pairs from `i` on fit into `budget` columns, taken in order and as a whole.
pub open spec fn hints_fitting(pairs: HintsView, i: int, budget: int) -> int
    decreases pairs.len() - i,
{
    if 0 <= i < pairs.len() && hint_columns(pairs[i], i) <= budget {
        1 + hints_fitting(pairs, i + 1, budget - hint_columns(pairs[i], i))
    } else {
        0
    }
}

/// The pairs that fit as a whole, from the first on.
pub open spec fn fitting_hints(pairs: HintsView, width: int) -> HintsView {
    pairs.take(hints_fitting(pairs, 0, width))
}

fn small_columns(s: &str, cap: usize) -> (r: Option<usize>)
    ensures
        match r {
            Some(n) => n == text_columns(s@) && n <= cap,
            None => text_columns(s@) > cap,
        },
{
    let n: usize = text_width(s);
    if n <= cap {
        Some(n)
    } else {
        None
    }
}

/// The columns of a pair, where they fit into `budget`.
fn pair_columns(key: &str, what: &str, apart: bool, budget: usize) -> (r: Option<usize>)
    ensures
        match r {
            Some(n) => n == hint_columns(
                (key@, what@),
                if apart {
                    1
                } else {
                    0
                },
            ) && n <= budget,
            None => hint_columns(
                (key@, what@),
                if apart {
                    1
                } else {
                    0
                },
            ) > budget,
        },
{
    let extra: usize = if apart {
        4
    } else {
        1
    };
    if budget < extra {
        return None;
    }
    match small_columns(key, budget - extra) {
        Some(k) => match small_columns(what, budget - extra - k) {
            Some(w) => Some(extra + k + w),
            None => None,
        },
        None => None,
    }
}

/// Like `styled_help_spans`, but only with whole pairs that fit into `max_width` columns.
pub fn styled_help_spans_fit(pairs: &Hints, max_width: usize) -> (r: Vec<Span>)
    ensures
        spans_view(r@) == help_spans(fitting_hints(hints_view(pairs@), max_width as int)),
{
    let ghost all = hints_view(pairs@);
    let mut i: usize = 0;
    let mut left: usize = max_width;
    while i < pairs.len()
        invariant
            i <= pairs@.len(),
            all == hints_view(pairs@),
            hints_fitting(all, 0, max_width as int) == i + hints_fitting(
                all,
                i as int,
                left as int,
            ),
        ensures
            i <= pairs@.len(),
            hints_fitting(all, 0, max_width as int) == i,
        decreases pairs@.len() - i,
    {
        assert(all[i as int] == (pairs@[i as int].0@, pairs@[i as int].1@));
        match pair_columns(pairs[i].0, pairs[i].1, i > 0, left) {
            Some(n) => {
                left = left - n;
                i += 1;
            },
            None => {
                break;
            },
        }
    }
    help_spans_upto(pairs, i)
}

/// What a shown row of hints takes is no more than the width it was given.
pub proof fn law_fitting_hints_fit(pairs: HintsView, i: int, budget: int)
    requires
        0 <= i <= pairs.len(),
        0 <= budget,
    ensures
        0 <= hints_fitting(pairs, i, budget) <= pairs.len() - i,
        hints_columns(pairs, i, i + hints_fitting(pairs, i, budget)) <= budget,
    decreases pairs.len() - i,
{
    if i < pairs.len() && hint_columns(pairs[i], i) <= budget {
        law_fitting_hints_fit(pairs, i + 1, budget - hint_columns(pairs[i], i));
    }
}

/// The columns of the pairs from `i` up to `n`.
pub open spec fn hints_columns(pairs: HintsView, i: int, n: int) -> int
    decreases n - i,
{
    if i >= n {
        0
    } else {
        hint_columns(pairs[i], i) + hints_columns(pairs, i + 1, n)
    }
}

/// The line of hints at the foot of an overlay.
pub open spec fn hint_line_of(pairs: HintsView) -> LineView {
    seq![span_of("  "@, Style::plain_spec())] + help_spans(pairs)
}

pub fn hint_line(pairs: &Hints) -> (r: Vec<Span>)
    ensures
        spans_view(r@) == hint_line_of(hints_view(pairs@)),
{
    let mut spans: Vec<Span> = no_spans();
    add_span(&mut spans, span("  ", Style::plain()));
    add_spans(&mut spans, styled_help_spans(pairs));
    spans
}

/// How entries of a category look.
#[derive(Debug)]
pub struct Look {
    pub icon: String,
    /// The icon of the narrower lists.
    pub cli_icon: String,
    pub color: Color,
}

pub struct LookView {
    pub icon: Chars,
    pub cli_icon: Chars,
    pub color: Color,
}

impl View for Look {
    type V = LookView;

    open spec fn view(&self) -> LookView {
        LookView { icon: self.icon@, cli_icon: self.cli_icon@, color: self.color }
    }
}

/// How the entries look, by category.
#[derive(Debug)]
pub struct Looks {
    pub folder: Look,
    pub archive: Look,
    pub image: Look,
    pub video: Look,
    pub audio: Look,
    pub document: Look,
    pub code: Look,
    pub default: Look,
}

impl Looks {
    pub open spec fn of(self, c: FileCategory) -> LookView {
        match c {
            FileCategory::Folder => self.folder@,
            FileCategory::Archive => self.archive@,
            FileCategory::Image => self.image@,
            FileCategory::Video => self.video@,
            FileCategory::Audio => self.audio@,
            FileCategory::Document => self.document@,
            FileCategory::Code => self.code@,
            FileCategory::Default => self.default@,
        }
    }

    pub fn get(&self, c: FileCategory) -> (r: &Look)
        ensures
            r@ == self.of(c),
    {
        match c {
            FileCategory::Folder => &self.folder,
            FileCategory::Archive => &self.archive,
            FileCategory::Image => &self.image,
            FileCategory::Video => &self.video,
            FileCategory::Audio => &self.audio,
            FileCategory::Document => &self.document,
            FileCategory::Code => &self.code,
            FileCategory::Default => &self.default,
        }
    }
}

} // verus!
