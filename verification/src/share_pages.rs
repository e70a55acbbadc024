//! The pages and dialogs of the shares.

use crate::app::{App, AppView};
use crate::geometry::{max_int, min_int, Rect};
use crate::help_bar::{help_pairs, mode_hints, share_hints, share_keys};
use crate::kit::{prefix_of_row, row_prefix, row_style, style_of_row, Kit};
use crate::lists::{add_hints, mouse_rows, place_rows, rows_seen, see_rows, with_hints, MouseRows};
use crate::model::{shares_view, MyShare};
use crate::panes::{bar_text, bar_widget};
use crate::scene::{
    add_lines, add_spans, add_widget, add_widgets, by_scheme, help_spans, hint_line, hint_line_of,
    hints2, hints3, hints_view, no_widgets, on_cleared, overlay_of, overlay_panel, overlay_scene,
    panel, panel_of, scheme, styled_help_spans, widgets_view, Hints, HintsView, Pair, SceneView,
    Widget,
};
use crate::share::{
    expiry_color, expiry_text, is_private, share_detail_lines, share_details, share_expiry_color,
    share_expiry_label, share_is_password,
};
use crate::style::{
    add1, add2, add_blank, add_line, add_span, blank_line, clone_lines, line1, line2, lines_view,
    no_lines, no_spans, span, span_of, span_owned, spans_view, Color, Line, LineView, Span, Style,
};
use crate::text::{blanks, cat2, cat3, dec, decimal, owned, spaces, Chars};
use crate::width::{shortened, text_columns, text_width, truncate_name};
use vstd::prelude::*;

verus! {

pub open spec fn share_colors(vibrant: bool) -> Pair {
    scheme(vibrant, (Color::LightCyan, Color::LightCyan), (Color::Cyan, Color::LightBlue))
}

fn colors_of_shares(vibrant: bool) -> (r: Pair)
    ensures
        r == share_colors(vibrant),
{
    by_scheme(vibrant, (Color::LightCyan, Color::LightCyan), (Color::Cyan, Color::LightBlue))
}

/// The columns that a title has in the list of shares.
pub open spec fn share_name_room(area: Rect) -> nat {
    max_int(area.width - 25, 0) as nat
}

/// The rows that the list of shares has room for.
pub open spec fn shares_room(area: Rect) -> int {
    max_int(area.height - 3, 0)
}

pub fn room_for_shares(area: Rect) -> (r: usize)
    ensures
        r == shares_room(area),
{
    area.height.saturating_sub(3) as usize
}

/// The blanks behind a title.
pub open spec fn title_gap(title: Chars, room: nat) -> nat {
    (max_int(room - text_columns(title), 0) + 2) as nat
}

/// A row of the list of shares.
pub open spec fn share_row(s: MyShare, selected: bool, room: nat) -> LineView {
    let title = shortened(s.title@, room);
    let private = is_private(s);
    seq![
        span_of(row_prefix(selected), row_style(selected)),
        span_of(title, row_style(selected)),
        span_of(blanks(title_gap(title, room)), Style::plain_spec()),
        span_of(
            if private {
                "private  "@
            } else {
                "public   "@
            },
            Style::fg_spec(
                if private {
                    Color::Yellow
                } else {
                    Color::Green
                },
            ),
        ),
        span_of(
            expiry_text(s.expiration_days@),
            Style::fg_spec(expiry_color(s.expiration_days@)),
        ),
    ]
}

fn build_share_row(s: &MyShare, selected: bool, room: usize) -> (r: Vec<Span>)
    requires
        room <= 0xffff,
    ensures
        spans_view(r@) == share_row(*s, selected, room as nat),
{
    let title: String = truncate_name(s.title.as_str(), room);
    let gap: usize = room.saturating_sub(text_width(title.as_str())) + 2;
    let private: bool = share_is_password(s);
    let (kind, color): (&str, Color) = if private {
        ("private  ", Color::Yellow)
    } else {
        ("public   ", Color::Green)
    };
    let mut v: Vec<Span> = no_spans();
    add_span(&mut v, span(prefix_of_row(selected), style_of_row(selected)));
    add_span(&mut v, span_owned(title, style_of_row(selected)));
    add_span(&mut v, span_owned(spaces(gap), Style::plain()));
    add_span(&mut v, span(kind, Style::fg(color)));
    add_span(
        &mut v,
        span_owned(
            share_expiry_label(s.expiration_days.as_str()),
            Style::fg(share_expiry_color(s.expiration_days.as_str())),
        ),
    );
    v
}

pub open spec fn share_rows(
    shares: Seq<MyShare>,
    selected: usize,
    offset: usize,
    area: Rect,
) -> Seq<LineView> {
    Seq::new(
        rows_seen(shares.len() as int, offset as int, shares_room(area)) as nat,
        |k: int|
            share_row(shares[offset + k], offset + k == selected, share_name_room(area)),
    )
}

fn build_share_rows(shares: &Vec<MyShare>, selected: usize, offset: usize, area: Rect) -> (r: Vec<
    Line,
>)
    ensures
        lines_view(r@) == share_rows(shares@, selected, offset, area),
{
    let n: usize = see_rows(shares.len(), offset, room_for_shares(area));
    let room: usize = area.width.saturating_sub(25) as usize;
    let mut out: Vec<Line> = no_lines();
    let ghost all = share_rows(shares@, selected, offset, area);
    let mut k: usize = 0;
    assert(all.take(0) =~= Seq::empty());
    while k < n
        invariant
            k <= n == all.len(),
            n == rows_seen(shares@.len() as int, offset as int, shares_room(area)),
            room == share_name_room(area),
            room <= 0xffff,
            all == share_rows(shares@, selected, offset, area),
            lines_view(out@) == all.take(k as int),
        decreases n - k,
    {
        let len: usize = shares.len();
        assert(offset + k < len);
        let i: usize = offset + k;
        add_line(&mut out, build_share_row(&shares[i], i == selected, room));
        assert(all.take(k + 1) =~= all.take(k as int).push(all[k as int]));
        k += 1;
    }
    assert(all.take(k as int) =~= all);
    out
}

/// The note that there are more shares below.
pub open spec fn more_shares(len: int, offset: int, room: int) -> Seq<LineView> {
    if len > offset + room {
        seq![
            line1(
                span_of(
                    "  +"@ + decimal((len - offset - room) as nat) + " more"@,
                    Style::fg_spec(Color::DarkGray),
                ),
            ),
        ]
    } else {
        Seq::empty()
    }
}

fn build_more_shares(len: usize, offset: usize, room: usize) -> (r: Vec<Line>)
    ensures
        lines_view(r@) == more_shares(len as int, offset as int, room as int),
{
    let mut v: Vec<Line> = no_lines();
    if offset < len && len - offset > room {
        add1(
            &mut v,
            span_owned(
                cat3("  +", dec((len - offset - room) as u64).as_str(), " more"),
                Style::fg(Color::DarkGray),
            ),
        );
    }
    v
}

/// The question whether a share is to be deleted.
pub open spec fn delete_question() -> LineView {
    let key = Style::bold_spec(Color::White);
    let grey = Style::fg_spec(Color::DarkGray);
    seq![
        span_of("  Delete? "@, Style::bold_spec(Color::Red)),
        span_of("y"@, key),
        span_of(" yes  "@, grey),
        span_of("n"@, key),
        span_of("/Esc no"@, grey),
    ]
}

pub open spec fn with_question(lines: Seq<LineView>, asked: bool) -> Seq<LineView> {
    if asked {
        lines.push(blank_line()).push(delete_question())
    } else {
        lines
    }
}

fn add_question(lines: &mut Vec<Line>, asked: bool)
    ensures
        lines_view(final(lines)@) == with_question(lines_view(old(lines)@), asked),
{
    if asked {
        let mut v: Vec<Span> = no_spans();
        add_span(&mut v, span("  Delete? ", Style::bold(Color::Red)));
        add_span(&mut v, span("y", Style::bold(Color::White)));
        add_span(&mut v, span(" yes  ", Style::fg(Color::DarkGray)));
        add_span(&mut v, span("n", Style::bold(Color::White)));
        add_span(&mut v, span("/Esc no", Style::fg(Color::DarkGray)));
        assert(spans_view(v@) =~= delete_question());
        add_blank(lines);
        add_line(lines, v);
    }
}

/// The list of shares.
pub open spec fn shares_list(
    shares: Seq<MyShare>,
    selected: usize,
    asked: bool,
    area: Rect,
    offset: usize,
) -> Seq<LineView> {
    let lead: Seq<LineView> = seq![blank_line()];
    with_question(
        lead + share_rows(shares, selected, offset, area) + more_shares(
            shares.len() as int,
            offset as int,
            shares_room(area),
        ),
        asked,
    )
}

fn build_shares_list(
    shares: &Vec<MyShare>,
    selected: usize,
    asked: bool,
    area: Rect,
    offset: usize,
) -> (r: Vec<Line>)
    ensures
        lines_view(r@) == shares_list(shares@, selected, asked, area, offset),
{
    let mut v: Vec<Line> = no_lines();
    add_blank(&mut v);
    add_lines(&mut v, build_share_rows(shares, selected, offset, area));
    add_lines(&mut v, build_more_shares(shares.len(), offset, room_for_shares(area)));
    add_question(&mut v, asked);
    v
}

/// The details of the selected share.
pub open spec fn selected_details(shares: Seq<MyShare>, selected: usize, width: u16) -> Seq<LineView> {
    if selected < shares.len() {
        share_details(shares[selected as int], width)
    } else {
        seq![blank_line()]
    }
}

fn build_details(shares: &Vec<MyShare>, selected: usize, width: u16) -> (r: Vec<Line>)
    ensures
        lines_view(r@) == selected_details(shares@, selected, width),
{
    if selected < shares.len() {
        return share_detail_lines(&shares[selected], width);
    }
    let mut v: Vec<Line> = no_lines();
    add_blank(&mut v);
    v
}

/// The page of the shares: a note where there are none, else the list and the details.
pub open spec fn shares_panels(
    shares: Seq<MyShare>,
    selected: usize,
    asked: bool,
    main: Rect,
    panes: (Rect, Rect),
    vibrant: bool,
    kit: Kit,
) -> SceneView {
    let colors = share_colors(vibrant);
    let lead: Seq<LineView> = seq![blank_line()];
    if shares.len() == 0 {
        seq![
            panel_of(
                main,
                " My Shares "@,
                Style::fg_spec(colors.1),
                colors.0,
                with_hints(
                    lead + lines_view(kit.empty@),
                    seq![("r"@, "refresh"@), ("Esc"@, "back"@)],
                ),
            ),
        ]
    } else {
        seq![
            panel_of(
                panes.0,
                " My Shares ("@ + decimal(shares.len()) + ") "@,
                Style::fg_spec(colors.1),
                colors.0,
                shares_list(shares, selected, asked, panes.0, kit.offset),
            ),
            panel_of(
                panes.1,
                " Detail "@,
                Style::fg_spec(Color::DarkGray),
                Color::DarkGray,
                selected_details(shares, selected, panes.1.width),
            ),
        ]
    }
}

fn draw_shares_panels(
    shares: &Vec<MyShare>,
    selected: usize,
    asked: bool,
    main: Rect,
    panes: (Rect, Rect),
    vibrant: bool,
    kit: &Kit,
) -> (r: Vec<Widget>)
    ensures
        widgets_view(r@) == shares_panels(shares@, selected, asked, main, panes, vibrant, *kit),
{
    let colors: Pair = colors_of_shares(vibrant);
    let mut v: Vec<Widget> = no_widgets();
    if shares.len() == 0 {
        let mut lines: Vec<Line> = no_lines();
        add_blank(&mut lines);
        add_lines(&mut lines, clone_lines(&kit.empty));
        add_hints(&mut lines, &hints2(("r", "refresh"), ("Esc", "back")));
        add_widget(
            &mut v,
            panel(main, owned(" My Shares "), Style::fg(colors.1), colors.0, lines),
        );
        return v;
    }
    add_widget(
        &mut v,
        panel(
            panes.0,
            cat3(" My Shares (", dec(shares.len() as u64).as_str(), ") "),
            Style::fg(colors.1),
            colors.0,
            build_shares_list(shares, selected, asked, panes.0, kit.offset),
        ),
    );
    add_widget(
        &mut v,
        panel(
            panes.1,
            owned(" Detail "),
            Style::fg(Color::DarkGray),
            Color::DarkGray,
            build_details(shares, selected, panes.1.width),
        ),
    );
    v
}

/// All hints of a bar, whether they fit or not.
pub open spec fn full_bar(pairs: HintsView) -> LineView {
    seq![span_of(" "@, Style::plain_spec())] + help_spans(pairs)
}

fn build_full_bar(pairs: &Hints) -> (r: Vec<Span>)
    ensures
        spans_view(r@) == full_bar(hints_view(pairs@)),
{
    let mut v: Vec<Span> = no_spans();
    add_span(&mut v, span(" ", Style::plain()));
    add_spans(&mut v, styled_help_spans(pairs));
    v
}

pub open spec fn shares_mouse(shares: Seq<MyShare>, area: Rect, kit: Kit) -> Option<MouseRows> {
    if shares.len() == 0 {
        None
    } else {
        Some(mouse_rows(area, 2, shares.len() as int, kit.offset, shares_room(area)))
    }
}

/// A scene with a bar below it, where there is room for one.
pub open spec fn with_bar(scene: SceneView, bar: Option<Rect>, line: LineView) -> SceneView {
    match bar {
        Some(b) => scene.push(bar_text(b, line)),
        None => scene,
    }
}

impl AppView {
    #[verifier::opaque]
    pub open spec fn shares_scene(
        self,
        shares: Seq<MyShare>,
        selected: usize,
        asked: bool,
        main: Rect,
        panes: (Rect, Rect),
        bar: Option<Rect>,
        kit: Kit,
    ) -> SceneView {
        with_bar(
            shares_panels(shares, selected, asked, main, panes, self.is_vibrant(), kit),
            bar,
            full_bar(mode_hints(self.input)),
        )
    }
}

impl App {
    pub fn draw_my_shares_view(
        &self,
        shares: &Vec<MyShare>,
        selected: usize,
        asked: bool,
        main: Rect,
        panes: (Rect, Rect),
        bar: Option<Rect>,
        kit: &Kit,
    ) -> (r: (Vec<Widget>, Option<MouseRows>))
        ensures
            widgets_view(r.0@) == self@.shares_scene(
                shares@,
                selected,
                asked,
                main,
                panes,
                bar,
                *kit,
            ),
            r.1 == shares_mouse(shares@, panes.0, *kit),
    {
        reveal(AppView::shares_scene);
        let mut v: Vec<Widget> = draw_shares_panels(
            shares,
            selected,
            asked,
            main,
            panes,
            self.is_vibrant(),
            kit,
        );
        match bar {
            Some(b) => {
                let pairs: Hints = help_pairs(&self.input);
                add_widget(&mut v, bar_widget(b, build_full_bar(&pairs)));
            },
            None => {},
        }
        let mouse: Option<MouseRows> = if shares.len() == 0 {
            None
        } else {
            Some(
                place_rows(panes.0, 2, shares.len(), kit.offset, room_for_shares(panes.0)),
            )
        };
        (v, mouse)
    }
}

/// The width of the card of a new share.
pub open spec fn card_width(screen: Rect) -> int {
    min_int(max_int(screen.width * 65 / 100, 30), max_int(screen.width - 4, 0))
}

/// Where the card of share `i` stands: a little below and to the right of the one before.
pub open spec fn card_area(screen: Rect, i: int) -> Rect {
    let x = min_int(2 + 3 * i, u16::MAX as int);
    Rect {
        x: x as u16,
        y: min_int(1 + i, u16::MAX as int) as u16,
        width: min_int(card_width(screen), max_int(screen.width - x, 0)) as u16,
        height: 8,
    }
}

fn place_card(screen: Rect, i: usize) -> (r: Rect)
    ensures
        r == card_area(screen, i as int),
{
    let part: u32 = (screen.width as u32) * 65 / 100;
    let wide: u32 = if part > 30 {
        part
    } else {
        30
    };
    let most: u16 = screen.width.saturating_sub(4);
    let card: u16 = if wide < most as u32 {
        wide as u16
    } else {
        most
    };
    let x: u16 = if i <= 21844 {
        (2 + 3 * i) as u16
    } else {
        u16::MAX
    };
    let y: u16 = if i < 65534 {
        (1 + i) as u16
    } else {
        u16::MAX
    };
    let left: u16 = screen.width.saturating_sub(x);
    let width: u16 = if card < left {
        card
    } else {
        left
    };
    Rect { x, y, width, height: 8 }
}

/// The colour of a card's text: only the card on top is bright.
pub open spec fn card_color(top: bool, bright: Color) -> Color {
    if top {
        bright
    } else {
        Color::DarkGray
    }
}

fn color_of_card(top: bool, bright: Color) -> (r: Color)
    ensures
        r == card_color(top, bright),
{
    if top {
        bright
    } else {
        Color::DarkGray
    }
}

pub open spec fn card_hints() -> HintsView {
    seq![("y"@, "copy URL"@), ("Esc"@, "close"@), ("Ctrl+Esc"@, "close all"@)]
}

/// The lines of a card: the link, the password where there is one, and the keys on the top card.
pub open spec fn card_lines(url: Chars, pass: Chars, top: bool, area: Rect) -> Seq<LineView> {
    let link = line2(
        span_of("  "@, Style::plain_spec()),
        span_of(
            shortened(url, max_int(area.width - 4, 0) as nat),
            Style::fg_spec(card_color(top, Color::Reset)),
        ),
    );
    let secret = if pass.len() > 0 {
        line2(
            span_of("  Password: "@, Style::plain_spec()),
            span_of(pass, Style::fg_spec(card_color(top, Color::Yellow))),
        )
    } else {
        blank_line()
    };
    let lines: Seq<LineView> = seq![blank_line(), link, secret, blank_line()];
    if top {
        lines.push(hint_line_of(card_hints()))
    } else {
        lines
    }
}

fn build_card(url: &str, pass: &str, top: bool, area: Rect) -> (r: Vec<Line>)
    ensures
        lines_view(r@) == card_lines(url@, pass@, top, area),
{
    let mut v: Vec<Line> = no_lines();
    add_blank(&mut v);
    add2(
        &mut v,
        span("  ", Style::plain()),
        span_owned(
            truncate_name(url, area.width.saturating_sub(4) as usize),
            Style::fg(color_of_card(top, Color::Reset)),
        ),
    );
    if !pass.is_empty() {
        add2(
            &mut v,
            span("  Password: ", Style::plain()),
            span(pass, Style::fg(color_of_card(top, Color::Yellow))),
        );
    } else {
        add_blank(&mut v);
    }
    add_blank(&mut v);
    if top {
        add_line(
            &mut v,
            hint_line(&hints3(("y", "copy URL"), ("Esc", "close"), ("Ctrl+Esc", "close all"))),
        );
    }
    v
}

/// The card of share `i` of `n`.
pub open spec fn card_scene(
    share: (Chars, Chars, Chars),
    i: int,
    n: int,
    vibrant: bool,
    screen: Rect,
) -> SceneView {
    let area = card_area(screen, i);
    let top = i == n - 1;
    let colors = share_colors(vibrant);
    overlay_scene(
        area,
        screen,
        overlay_of(
            area,
            "Share: "@ + shortened(share.0, 30),
            (card_color(top, colors.0), card_color(top, colors.1)),
            card_lines(share.1, share.2, top, area),
        ),
    )
}

/// The cards of the first `i` of the new shares, one over the other.
pub open spec fn cards(
    shares: Seq<(Chars, Chars, Chars)>,
    i: int,
    vibrant: bool,
    screen: Rect,
) -> SceneView
    decreases i,
{
    if i <= 0 {
        Seq::empty()
    } else {
        cards(shares, i - 1, vibrant, screen) + card_scene(
            shares[i - 1],
            i - 1,
            shares.len() as int,
            vibrant,
            screen,
        )
    }
}

fn draw_card(share: &(String, String, String), i: usize, n: usize, vibrant: bool, screen: Rect) -> (r:
    Vec<Widget>)
    requires
        i < n,
    ensures
        widgets_view(r@) == card_scene(
            (share.0@, share.1@, share.2@),
            i as int,
            n as int,
            vibrant,
            screen,
        ),
{
    let area: Rect = place_card(screen, i);
    let top: bool = i == n - 1;
    let colors: Pair = colors_of_shares(vibrant);
    let lines: Vec<Line> = build_card(share.1.as_str(), share.2.as_str(), top, area);
    let title: String = cat2("Share: ", truncate_name(share.0.as_str(), 30).as_str());
    on_cleared(
        area,
        screen,
        overlay_panel(
            area,
            title.as_str(),
            (color_of_card(top, colors.0), color_of_card(top, colors.1)),
            lines,
        ),
    )
}

/// Draws the cards of the shares that were just made, the last one on top.
pub fn draw_share_created_view(
    shares: &Vec<(String, String, String)>,
    vibrant: bool,
    screen: Rect,
) -> (r: Vec<Widget>)
    ensures
        widgets_view(r@) == cards(
            shares_view(shares@),
            shares@.len() as int,
            vibrant,
            screen,
        ),
{
    let mut v: Vec<Widget> = no_widgets();
    let mut i: usize = 0;
    while i < shares.len()
        invariant
            i <= shares@.len(),
            widgets_view(v@) == cards(shares_view(shares@), i as int, vibrant, screen),
        decreases shares@.len() - i,
    {
        add_widgets(&mut v, draw_card(&shares[i], i, shares.len(), vibrant, screen));
        i += 1;
    }
    v
}

/// The question how a share is to be made.
pub open spec fn share_prompt_scene(vibrant: bool, area: Rect, screen: Rect) -> SceneView {
    overlay_scene(
        area,
        screen,
        overlay_of(
            area,
            "Create Share"@,
            share_colors(vibrant),
            with_hints(
                seq![
                    blank_line(),
                    line1(
                        span_of(
                            "  Create share for all cart items:"@,
                            Style::fg_spec(Color::Reset),
                        ),
                    ),
                ],
                share_hints(),
            ),
        ),
    )
}

pub fn draw_share_prompt_overlay(vibrant: bool, area: Rect, screen: Rect) -> (r: Vec<Widget>)
    ensures
        widgets_view(r@) == share_prompt_scene(vibrant, area, screen),
{
    let mut lines: Vec<Line> = no_lines();
    add_blank(&mut lines);
    add1(&mut lines, span("  Create share for all cart items:", Style::fg(Color::Reset)));
    assert(lines_view(lines@) =~= seq![
        blank_line(),
        line1(
            span_of("  Create share for all cart items:"@, Style::fg_spec(Color::Reset)),
        ),
    ]);
    add_hints(&mut lines, &share_keys());
    on_cleared(
        area,
        screen,
        overlay_panel(area, "Create Share", colors_of_shares(vibrant), lines),
    )
}

/// Only the share that was made last shows its keys.
pub proof fn law_only_the_top_card_has_keys(url: Chars, pass: Chars, area: Rect)
    ensures
        card_lines(url, pass, true, area).len() == card_lines(url, pass, false, area).len() + 1,
        card_lines(url, pass, true, area).last() == hint_line_of(card_hints()),
{
}

} // verus!
