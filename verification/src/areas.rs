//! Where the parts of the screen stand.

use crate::app::{App, AppView};
use crate::dialogs::{folder_percent, input_percent, percent_of_folder, percent_of_input};
use crate::geometry::{min_int, Rect};
use crate::help_layout::{layout_of, main_layout_mode, MainLayoutMode};
use crate::info_panel::{info_areas, info_parts_fit, InfoParts};
use crate::kit::{inside, Kit};
use crate::lists::{percent_of_streams, streams_percent};
use crate::model::{InputMode, ModeView};
use crate::scene::{
    centered, centered_rect, columns_between, lies_in, part, percents, split, Axis, Rule,
};
use vstd::prelude::*;

verus! {

/// Where the parts of the screen stand.
#[derive(Clone, Copy, Debug)]
pub struct Areas {
    pub screen: Rect,
    /// What is left of the screen beside the help bar.
    pub main: Rect,
    pub bar: Option<Rect>,
    /// The parts of the help bar where something stands on its right.
    pub bar_parts: (Rect, Rect),
    pub parent: Rect,
    pub current: Rect,
    pub preview: Rect,
    /// The parts of the preview where it shows a picture.
    pub preview_parts: (Rect, Rect),
    pub logs: Rect,
    /// The two halves of a page that has two.
    pub halves: (Rect, Rect),
    /// The overlay of the mode.
    pub overlay: Rect,
    /// What lies under that overlay, where the mode has two.
    pub below: Rect,
    /// The sign that something is being loaded.
    pub loading: Rect,
    pub info: InfoParts,
}

/// No area at all.
pub open spec fn nowhere() -> Rect {
    Rect { x: 0, y: 0, width: 0, height: 0 }
}

pub(crate) fn no_area() -> (r: Rect)
    ensures
        r == nowhere(),
{
    Rect { x: 0, y: 0, width: 0, height: 0 }
}

/// The columns and rows of an overlay, in percent of the screen.
pub type Share = (int, int);

pub open spec fn hundred(percent: u16) -> int {
    min_int(percent as int, 100)
}

fn up_to_hundred(percent: u16) -> (r: u16)
    ensures
        r == hundred(percent),
        r <= 100,
{
    if percent < 100 {
        percent
    } else {
        100
    }
}

/// How large the overlay of a mode is. `percent` is the height of an overlay that goes by the rows
/// of its list.
pub open spec fn overlay_share(mode: ModeView, height: u16, percent: u16) -> Option<Share> {
    match mode {
        ModeView::Login { .. } => Some((50, 40)),
        ModeView::ActionMenu { .. } => Some((68, 76)),
        ModeView::Rename { .. } => Some((60, 20)),
        ModeView::Mkdir { .. } => Some((60, 20)),
        ModeView::ConfirmDelete => Some((60, 20)),
        ModeView::ConfirmPermanentDelete { .. } => Some((60, 55)),
        ModeView::MoveInput { input, .. } => Some(
            (70, input_percent(6, input.candidates.len(), height)),
        ),
        ModeView::CopyInput { input, .. } => Some(
            (70, input_percent(6, input.candidates.len(), height)),
        ),
        ModeView::CartView => Some((65, hundred(percent))),
        ModeView::CartMoveInput { input } => Some(
            (70, input_percent(6, input.candidates.len(), height)),
        ),
        ModeView::CartCopyInput { input } => Some(
            (70, input_percent(6, input.candidates.len(), height)),
        ),
        ModeView::ConfirmCartDelete => Some((60, 20)),
        ModeView::DownloadInput { input } => Some(
            (70, input_percent(6, input.candidates.len(), height)),
        ),
        ModeView::UploadInput { input } => Some(
            (70, input_percent(7, input.candidates.len(), height)),
        ),
        ModeView::OfflineInput { .. } => Some((70, 25)),
        ModeView::OfflineTasksView { .. } => Some((75, hundred(percent))),
        ModeView::InfoView { has_thumbnail, .. } => if has_thumbnail {
            Some((80, 55))
        } else {
            Some((65, 40))
        },
        ModeView::InfoFolderView { entries, .. } => Some(
            (60, folder_percent(entries.len(), height)),
        ),
        ModeView::TextPreviewView { .. } => Some((60, 70)),
        ModeView::ConfirmPlay { .. } => Some((60, 20)),
        ModeView::PlayPicker { medias, .. } => Some((60, streams_percent(medias.len()))),
        ModeView::PlayerInput { .. } => Some((60, 20)),
        ModeView::TrashView { .. } => Some((75, hundred(percent))),
        ModeView::SharePrompt => Some((50, 20)),
        ModeView::ConfirmQuit => Some((60, 20)),
        ModeView::GotoPath { .. } => Some((70, 20)),
        ModeView::Settings { .. } => Some((70, 65)),
        ModeView::ConfirmDiscardSettings { .. } => Some((52, 22)),
        ModeView::CustomColorSettings { .. } => Some((70, 70)),
        ModeView::ImageProtocolSettings { .. } => Some((70, 60)),
        _ => None,
    }
}

/// The columns and rows of an overlay.
pub open spec fn share_view(s: Option<(u16, u16)>) -> Option<Share> {
    match s {
        Some(s) => Some((s.0 as int, s.1 as int)),
        None => None,
    }
}

fn find_overlay_share(mode: &InputMode, height: u16, percent: u16) -> (r: Option<(u16, u16)>)
    ensures
        share_view(r) == overlay_share(mode@, height, percent),
        match r {
            Some(s) => s.0 <= 100 && s.1 <= 100,
            None => true,
        },
{
    match mode {
        InputMode::Login { .. } => Some((50, 40)),
        InputMode::ActionMenu { .. } => Some((68, 76)),
        InputMode::Rename { .. } => Some((60, 20)),
        InputMode::Mkdir { .. } => Some((60, 20)),
        InputMode::ConfirmDelete => Some((60, 20)),
        InputMode::ConfirmPermanentDelete { .. } => Some((60, 55)),
        InputMode::MoveInput { input, .. } => Some(
            (70, percent_of_input(6, input.candidates.len(), height)),
        ),
        InputMode::CopyInput { input, .. } => Some(
            (70, percent_of_input(6, input.candidates.len(), height)),
        ),
        InputMode::CartView => Some((65, up_to_hundred(percent))),
        InputMode::CartMoveInput { input } => Some(
            (70, percent_of_input(6, input.candidates.len(), height)),
        ),
        InputMode::CartCopyInput { input } => Some(
            (70, percent_of_input(6, input.candidates.len(), height)),
        ),
        InputMode::ConfirmCartDelete => Some((60, 20)),
        InputMode::DownloadInput { input } => Some(
            (70, percent_of_input(6, input.candidates.len(), height)),
        ),
        InputMode::UploadInput { input } => Some(
            (70, percent_of_input(7, input.candidates.len(), height)),
        ),
        InputMode::OfflineInput { .. } => Some((70, 25)),
        InputMode::OfflineTasksView { .. } => Some((75, up_to_hundred(percent))),
        InputMode::InfoView { has_thumbnail, .. } => if *has_thumbnail {
            Some((80, 55))
        } else {
            Some((65, 40))
        },
        InputMode::InfoFolderView { entries, .. } => Some(
            (60, percent_of_folder(entries.len(), height)),
        ),
        InputMode::TextPreviewView { .. } => Some((60, 70)),
        InputMode::ConfirmPlay { .. } => Some((60, 20)),
        InputMode::PlayPicker { medias, .. } => Some((60, percent_of_streams(medias.len()))),
        InputMode::PlayerInput { .. } => Some((60, 20)),
        InputMode::TrashView { .. } => Some((75, up_to_hundred(percent))),
        InputMode::SharePrompt => Some((50, 20)),
        InputMode::ConfirmQuit => Some((60, 20)),
        InputMode::GotoPath { .. } => Some((70, 20)),
        InputMode::Settings { .. } => Some((70, 65)),
        InputMode::ConfirmDiscardSettings { .. } => Some((52, 22)),
        InputMode::CustomColorSettings { .. } => Some((70, 70)),
        InputMode::ImageProtocolSettings { .. } => Some((70, 60)),
        _ => None,
    }
}

/// How large what lies under the overlay of a mode is.
pub open spec fn below_share(mode: ModeView, percent: u16) -> Option<Share> {
    match mode {
        ModeView::SharePrompt => Some((65, hundred(percent))),
        ModeView::ShareCreatedView { .. } => Some((65, hundred(percent))),
        ModeView::ConfirmDiscardSettings { .. } => Some((70, 65)),
        ModeView::InfoView { .. } => Some((75, hundred(percent))),
        _ => None,
    }
}

fn find_below_share(mode: &InputMode, percent: u16) -> (r: Option<(u16, u16)>)
    ensures
        share_view(r) == below_share(mode@, percent),
        match r {
            Some(s) => s.0 <= 100 && s.1 <= 100,
            None => true,
        },
{
    match mode {
        InputMode::SharePrompt => Some((65, up_to_hundred(percent))),
        InputMode::ShareCreatedView { .. } => Some((65, up_to_hundred(percent))),
        InputMode::ConfirmDiscardSettings { .. } => Some((70, 65)),
        InputMode::InfoView { .. } => Some((75, up_to_hundred(percent))),
        _ => None,
    }
}

/// The area of an overlay.
pub open spec fn placed(share: Option<Share>, screen: Rect) -> Rect {
    match share {
        Some(s) => centered(s.0, s.1, screen),
        None => nowhere(),
    }
}

fn place(share: Option<(u16, u16)>, screen: Rect) -> (r: Rect)
    requires
        match share {
            Some(s) => s.0 <= 100 && s.1 <= 100,
            None => true,
        },
    ensures
        r == placed(share_view(share), screen),
        share is Some ==> lies_in(r, screen),
{
    match share {
        Some(s) => centered_rect(s.0, s.1, screen),
        None => no_area(),
    }
}

fn shares2(a: u16, b: u16) -> (r: Vec<Rule>)
    ensures
        r@ == seq![Rule::Percentage(a), Rule::Percentage(b)],
{
    let mut v: Vec<Rule> = Vec::new();
    v.push(Rule::Percentage(a));
    v.push(Rule::Percentage(b));
    v
}

/// Two parts beside each other, in percent of the whole.
pub open spec fn pair_beside(area: Rect, a: int, b: int) -> (Rect, Rect) {
    (columns_between(area, 0, a), columns_between(area, a, a + b))
}

fn beside(area: Rect, a: u16, b: u16) -> (r: (Rect, Rect))
    requires
        a + b <= 100,
    ensures
        r == pair_beside(area, a as int, b as int),
        lies_in(r.0, area) && r.0.y == area.y && r.0.height == area.height,
        lies_in(r.1, area) && r.1.y == area.y && r.1.height == area.height,
{
    let parts: Vec<Rect> = split(Axis::Horizontal, &shares2(a, b), area);
    proof {
        reveal_with_fuel(percents, 3);
    }
    (parts[0], parts[1])
}

/// The panes of the main screen.
#[derive(Clone, Copy, Debug, PartialEq, Eq, Structural)]
pub struct Panes {
    pub parent: Rect,
    pub current: Rect,
    pub preview: Rect,
    pub logs: Rect,
}

/// Which panes there are: those that a layout does not have stand nowhere.
pub open spec fn panes_fit(
    parent: Rect,
    current: Rect,
    preview: Rect,
    mode: MainLayoutMode,
    main: Rect,
) -> bool {
    match mode {
        MainLayoutMode::ThreePane => lies_in(parent, main) && lies_in(current, main) && lies_in(
            preview,
            main,
        ),
        MainLayoutMode::CurrentPreview => parent == nowhere() && lies_in(current, main) && lies_in(
            preview,
            main,
        ),
        MainLayoutMode::ParentCurrent => lies_in(parent, main) && lies_in(current, main) && preview
            == nowhere(),
        MainLayoutMode::CurrentOnly => parent == nowhere() && current == main && preview
            == nowhere(),
    }
}

/// The logs lie over the last pane, or over a part of the only one.
pub open spec fn logs_fit(
    logs: Rect,
    current: Rect,
    preview: Rect,
    mode: MainLayoutMode,
    main: Rect,
) -> bool {
    match mode {
        MainLayoutMode::ThreePane => logs == preview,
        MainLayoutMode::CurrentPreview => logs == preview,
        MainLayoutMode::ParentCurrent => logs == current,
        MainLayoutMode::CurrentOnly => lies_in(logs, main),
    }
}

/// The panes of a main area.
pub open spec fn panes_of(main: Rect, show_preview: bool) -> Panes {
    match layout_of(main.width as int, show_preview) {
        MainLayoutMode::ThreePane => Panes {
            parent: columns_between(main, 0, 20),
            current: columns_between(main, 20, 60),
            preview: columns_between(main, 60, 100),
            logs: columns_between(main, 60, 100),
        },
        MainLayoutMode::CurrentPreview => Panes {
            parent: nowhere(),
            current: pair_beside(main, 58, 42).0,
            preview: pair_beside(main, 58, 42).1,
            logs: pair_beside(main, 58, 42).1,
        },
        MainLayoutMode::ParentCurrent => Panes {
            parent: pair_beside(main, 25, 75).0,
            current: pair_beside(main, 25, 75).1,
            preview: nowhere(),
            logs: pair_beside(main, 25, 75).1,
        },
        MainLayoutMode::CurrentOnly => Panes {
            parent: nowhere(),
            current: main,
            preview: nowhere(),
            logs: pair_beside(main, 48, 52).1,
        },
    }
}

/// Divides the main area into panes.
pub fn lay_out_panes(main: Rect, show_preview: bool) -> (r: Panes)
    ensures
        r == panes_of(main, show_preview),
        panes_fit(
            r.parent,
            r.current,
            r.preview,
            layout_of(main.width as int, show_preview),
            main,
        ),
        logs_fit(r.logs, r.current, r.preview, layout_of(main.width as int, show_preview), main),
{
    match main_layout_mode(main.width, show_preview) {
        MainLayoutMode::ThreePane => {
            let mut rules: Vec<Rule> = Vec::new();
            rules.push(Rule::Percentage(20));
            rules.push(Rule::Percentage(40));
            rules.push(Rule::Percentage(40));
            let parts: Vec<Rect> = split(Axis::Horizontal, &rules, main);
            proof {
                reveal_with_fuel(percents, 4);
            }
            Panes { parent: parts[0], current: parts[1], preview: parts[2], logs: parts[2] }
        },
        MainLayoutMode::CurrentPreview => {
            let (a, b) = beside(main, 58, 42);
            Panes { parent: no_area(), current: a, preview: b, logs: b }
        },
        MainLayoutMode::ParentCurrent => {
            let (a, b) = beside(main, 25, 75);
            Panes { parent: a, current: b, preview: no_area(), logs: b }
        },
        MainLayoutMode::CurrentOnly => {
            let (_a, b) = beside(main, 48, 52);
            Panes { parent: no_area(), current: main, preview: no_area(), logs: b }
        },
    }
}

/// The rules for a help bar below everything else.
pub open spec fn help_bar_rules() -> Seq<Rule> {
    seq![Rule::Min(1), Rule::Length(1)]
}

/// The main area and the row of the help bar below it. Without a help bar the main area takes the
/// whole screen.
pub open spec fn main_and_bar(area: Rect, show_help_bar: bool) -> (Rect, Option<Rect>) {
    if show_help_bar {
        (
            part(Axis::Vertical, help_bar_rules(), area, 0),
            Some(part(Axis::Vertical, help_bar_rules(), area, 1)),
        )
    } else {
        (area, None)
    }
}

/// Parts the row of the help bar from the main area.
pub fn layout_with_help_bar(area: Rect, show_help_bar: bool) -> (r: (Rect, Option<Rect>))
    ensures
        r == main_and_bar(area, show_help_bar),
        lies_in(r.0, area) && r.0.x == area.x && r.0.width == area.width,
        match r.1 {
            Some(b) => lies_in(b, area) && b.x == area.x && b.width == area.width,
            None => true,
        },
{
    if show_help_bar {
        let mut rules: Vec<Rule> = Vec::new();
        rules.push(Rule::Min(1));
        rules.push(Rule::Length(1));
        assert(rules@ =~= help_bar_rules());
        let parts: Vec<Rect> = split(Axis::Vertical, &rules, area);
        (parts[0], Some(parts[1]))
    } else {
        (area, None)
    }
}

/// The two halves of a page: a picker has two of the same width, the shares leave more room to the
/// details.
pub open spec fn page_halves(mode: ModeView, main: Rect) -> (Rect, Rect) {
    if mode is MySharesView {
        pair_beside(main, 38, 62)
    } else {
        pair_beside(main, 50, 50)
    }
}

fn halves_of(mode: &InputMode, main: Rect) -> (r: (Rect, Rect))
    ensures
        r == page_halves(mode@, main),
        lies_in(r.0, main) && lies_in(r.1, main),
{
    match mode {
        InputMode::MySharesView { .. } => beside(main, 38, 62),
        _ => beside(main, 50, 50),
    }
}

/// Where the logs lie: over the right part of the screen beside the shares, else over a pane.
pub open spec fn logs_area(mode: ModeView, panes: Panes, screen: Rect) -> Rect {
    if mode is MySharesView {
        pair_beside(screen, 55, 45).1
    } else {
        panes.logs
    }
}

fn logs_of(mode: &InputMode, panes: Panes, screen: Rect) -> (r: Rect)
    ensures
        r == logs_area(mode@, panes, screen),
        mode@ is MySharesView ==> lies_in(r, screen),
{
    match mode {
        InputMode::MySharesView { .. } => {
            let (_a, b) = beside(screen, 55, 45);
            b
        },
        _ => panes.logs,
    }
}

/// Whether an area ends before the coordinates do, as every terminal does.
pub open spec fn is_whole(area: Rect) -> bool {
    area.x + area.width <= u16::MAX && area.y + area.height <= u16::MAX
}

impl AppView {
    /// The areas of the screen.
    pub open spec fn areas_of(self, screen: Rect, kit: Kit) -> Areas {
        let (main, bar) = main_and_bar(screen, self.config.show_help_bar);
        let panes = panes_of(main, self.config.show_preview);
        let overlay = placed(overlay_share(self.input, screen.height, kit.percent), screen);
        Areas {
            screen,
            main,
            bar,
            bar_parts: match bar {
                Some(b) => self.bar_areas(b, kit),
                None => (nowhere(), nowhere()),
            },
            parent: panes.parent,
            current: panes.current,
            preview: panes.preview,
            preview_parts: self.picture_areas(panes.preview),
            logs: logs_area(self.input, panes, screen),
            halves: page_halves(self.input, main),
            overlay,
            below: placed(below_share(self.input, kit.percent), screen),
            loading: centered(45, 20, screen),
            info: match self.input {
                ModeView::InfoView { info, .. } => info_areas(overlay, info),
                _ => InfoParts { meta: nowhere(), thumb: nowhere(), footer: nowhere() },
            },
        }
    }

    /// Which of the areas of the screen lie within which, and which of them there are.
    pub open spec fn areas_fit(self, a: Areas, kit: Kit) -> bool {
        let overlay = overlay_share(self.input, a.screen.height, kit.percent);
        let below = below_share(self.input, kit.percent);
        let mode = layout_of(a.main.width as int, self.config.show_preview);
        &&& lies_in(a.main, a.screen)
        &&& a.bar is Some <==> self.config.show_help_bar
        &&& a.bar is None ==> a.main == a.screen
        &&& panes_fit(a.parent, a.current, a.preview, mode, a.main)
        &&& if self.input is MySharesView {
            lies_in(a.logs, a.screen)
        } else {
            logs_fit(a.logs, a.current, a.preview, mode, a.main)
        }
        &&& lies_in(a.halves.0, a.main)
        &&& lies_in(a.halves.1, a.main)
        &&& overlay is Some ==> lies_in(a.overlay, a.screen)
        &&& overlay is None ==> a.overlay == nowhere()
        &&& below is Some ==> lies_in(a.below, a.screen)
        &&& below is None ==> a.below == nowhere()
        &&& lies_in(a.loading, a.screen)
        &&& a.bar is Some ==> lies_in(a.bar->0, a.screen) && lies_in(a.bar_parts.0, a.bar->0)
            && lies_in(a.bar_parts.1, a.bar->0)
        &&& lies_in(a.preview_parts.0, inside(a.preview))
        &&& lies_in(a.preview_parts.1, inside(a.preview))
        &&& self.input is InfoView ==> info_parts_fit(a.info, a.overlay)
    }
}

impl App {
    fn parts_of_bar(&self, bar: Option<Rect>, kit: &Kit) -> (r: (Rect, Rect))
        ensures
            match bar {
                Some(b) => is_whole(b) ==> r == self@.bar_areas(b, *kit),
                None => r == (nowhere(), nowhere()),
            },
            bar is Some ==> lies_in(r.0, bar->0) && lies_in(r.1, bar->0),
    {
        match bar {
            Some(b) => self.bar_parts(b, kit),
            None => (no_area(), no_area()),
        }
    }

    fn parts_of_info(&self, overlay: Rect) -> (r: InfoParts)
        ensures
            is_whole(overlay) ==> r == (match self@.input {
                ModeView::InfoView { info, .. } => info_areas(overlay, info),
                _ => InfoParts { meta: nowhere(), thumb: nowhere(), footer: nowhere() },
            }),
            self@.input is InfoView ==> info_parts_fit(r, overlay),
    {
        match &self.input {
            InputMode::InfoView { info, .. } => self.info_parts(overlay, info),
            _ => InfoParts { meta: no_area(), thumb: no_area(), footer: no_area() },
        }
    }

    /// Finds out where the parts of the screen stand.
    #[verifier::rlimit(100)]
    pub fn lay_out(&self, screen: Rect, kit: &Kit) -> (r: Areas)
        ensures
            is_whole(screen) ==> r == self@.areas_of(screen, *kit),
            r.screen == screen,
            self@.areas_fit(r, *kit),
    {
        let (main, bar) = layout_with_help_bar(screen, self.config.show_help_bar);
        let panes: Panes = lay_out_panes(main, self.config.show_preview);
        let overlay: Rect = place(
            find_overlay_share(&self.input, screen.height, kit.percent),
            screen,
        );
        let below: Rect = place(find_below_share(&self.input, kit.percent), screen);
        assert(bar is Some ==> (is_whole(screen) ==> is_whole(bar->0)));
        assert(is_whole(screen) ==> is_whole(overlay));
        assert(is_whole(screen) ==> is_whole(panes.preview));
        Areas {
            screen,
            main,
            bar,
            bar_parts: self.parts_of_bar(bar, kit),
            parent: panes.parent,
            current: panes.current,
            preview: panes.preview,
            preview_parts: self.preview_parts(panes.preview),
            logs: logs_of(&self.input, panes, screen),
            halves: halves_of(&self.input, main),
            overlay,
            below,
            loading: centered_rect(45, 20, screen),
            info: self.parts_of_info(overlay),
        }
    }
}

/// The panes stand side by side and leave no column of the main area out.
pub proof fn law_panes_fill_the_width(main: Rect, show_preview: bool)
    requires
        is_whole(main),
    ensures
        ({
            let p = panes_of(main, show_preview);
            match layout_of(main.width as int, show_preview) {
                MainLayoutMode::ThreePane => p.parent.x == main.x && p.parent.x + p.parent.width
                    == p.current.x && p.current.x + p.current.width == p.preview.x && p.preview.x
                    + p.preview.width == main.x + main.width,
                MainLayoutMode::CurrentPreview => p.current.x == main.x && p.current.x
                    + p.current.width == p.preview.x && p.preview.x + p.preview.width == main.x
                    + main.width,
                MainLayoutMode::ParentCurrent => p.parent.x == main.x && p.parent.x + p.parent.width
                    == p.current.x && p.current.x + p.current.width == main.x + main.width,
                MainLayoutMode::CurrentOnly => p.current == main,
            }
        }),
{
}

/// The row of the help bar is the last one, and nothing else is taken from the main area.
pub proof fn law_help_bar_takes_the_last_row(area: Rect)
    requires
        is_whole(area),
        area.height >= 2,
    ensures
        main_and_bar(area, true) == (
            Rect { height: (area.height - 1) as u16, ..area },
            Some(Rect { y: (area.y + area.height - 1) as u16, height: 1, ..area }),
        ),
{
}

} // verus!
