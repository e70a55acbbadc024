//! The whole screen.

use crate::app::{path_text, App, AppView};
use crate::areas::{no_area, nowhere, Areas};
use crate::dialogs::{
    asked_name, cart_delete_lines, delete_lines, dialog_colors, dialog_scene, download_lines,
    draw_confirm_cart_delete_overlay, draw_confirm_delete_overlay,
    draw_confirm_permanent_delete_overlay, draw_confirm_play_overlay, draw_confirm_quit_overlay,
    draw_download_input_overlay, draw_goto_overlay, draw_info_folder_overlay,
    draw_info_loading_overlay, draw_login_screen, draw_mkdir_overlay, draw_offline_input_overlay,
    draw_path_input_overlay, draw_player_input_overlay, draw_rename_overlay,
    draw_text_preview_overlay, draw_upload_input_overlay, folder_overlay_scene, goto_lines,
    loading_scene, login_scene, mkdir_lines, offline_lines, path_lines, permanent_scene, play_lines,
    player_lines, quit_lines, rename_lines, text_overlay_scene, under_way, upload_scene,
};
use crate::geometry::{Rect, ScreenState};
use crate::help_layout::{layout_of, main_layout_mode, MainLayoutMode};
use crate::help_sheet::{draw_help_sheet, help_scene, help_scroll_room, HelpTopic};
use crate::kit::Kit;
use crate::lists::{cart_mouse, menu_mouse, streams_mouse, tasks_mouse, trash_mouse, MouseRows};
use crate::model::{InputMode, ModeView, PathInput, PathInputView};
use crate::panes::{draw_status_toast, toast_scene};
use crate::scene::{
    add_widget, add_widgets, no_widgets, themed, widgets_view, SceneView, Widget, WidgetView,
};
use crate::setting_pages::{
    colors_mouse, discard_scene, draw_discard_settings_overlay, protocols_mouse,
};
use crate::share_pages::{
    cards, draw_share_created_view, draw_share_prompt_overlay, share_prompt_scene, shares_mouse,
};
use crate::style::Color;
use crate::text::Chars;
use vstd::prelude::*;

verus! {

/// An overlay and where the rows of its list stand.
pub type Drawn = (Vec<Widget>, Option<MouseRows>);

/// Whether the panes of the main screen are shown.
pub open spec fn shows_main(mode: ModeView, downloads_expanded: bool, trash_left: bool) -> bool {
    match mode {
        ModeView::Login { .. } => false,
        ModeView::MovePicker { .. } => false,
        ModeView::CopyPicker { .. } => false,
        ModeView::CartMovePicker { .. } => false,
        ModeView::CartCopyPicker { .. } => false,
        ModeView::DownloadView => !downloads_expanded,
        ModeView::TrashView { expanded, .. } => !expanded,
        ModeView::MySharesView { .. } => false,
        ModeView::InfoView { .. } => !trash_left,
        _ => true,
    }
}

fn does_show_main(mode: &InputMode, downloads_expanded: bool, trash_left: bool) -> (r: bool)
    ensures
        r == shows_main(mode@, downloads_expanded, trash_left),
{
    match mode {
        InputMode::Login { .. } => false,
        InputMode::MovePicker { .. } => false,
        InputMode::CopyPicker { .. } => false,
        InputMode::CartMovePicker { .. } => false,
        InputMode::CartCopyPicker { .. } => false,
        InputMode::DownloadView => !downloads_expanded,
        InputMode::TrashView { expanded, .. } => !*expanded,
        InputMode::MySharesView { .. } => false,
        InputMode::InfoView { .. } => !trash_left,
        _ => true,
    }
}

/// Whether a destination is being picked.
pub open spec fn is_picking(mode: ModeView) -> bool {
    mode is MovePicker || mode is CopyPicker || mode is CartMovePicker || mode is CartCopyPicker
}

fn picks(mode: &InputMode) -> (r: bool)
    ensures
        r == is_picking(mode@),
{
    match mode {
        InputMode::MovePicker { .. } => true,
        InputMode::CopyPicker { .. } => true,
        InputMode::CartMovePicker { .. } => true,
        InputMode::CartCopyPicker { .. } => true,
        _ => false,
    }
}

fn picks_one(mode: &InputMode) -> (r: bool)
    ensures
        r == (mode@ is MovePicker || mode@ is CopyPicker),
{
    match mode {
        InputMode::MovePicker { .. } => true,
        InputMode::CopyPicker { .. } => true,
        _ => false,
    }
}

/// The area of the settings, where a page of them is shown.
pub open spec fn settings_area(mode: ModeView, a: Areas, before: Rect) -> Rect {
    match mode {
        ModeView::Settings { .. } => a.overlay,
        ModeView::CustomColorSettings { .. } => a.overlay,
        ModeView::ImageProtocolSettings { .. } => a.overlay,
        ModeView::ConfirmDiscardSettings { .. } => a.below,
        _ => before,
    }
}

fn find_settings_area(mode: &InputMode, a: Areas, before: Rect) -> (r: Rect)
    ensures
        r == settings_area(mode@, a, before),
{
    match mode {
        InputMode::Settings { .. } => a.overlay,
        InputMode::CustomColorSettings { .. } => a.overlay,
        InputMode::ImageProtocolSettings { .. } => a.overlay,
        InputMode::ConfirmDiscardSettings { .. } => a.below,
        _ => before,
    }
}

pub open spec fn trash_area(expanded: bool, main: Rect, overlay: Rect) -> Rect {
    if expanded {
        main
    } else {
        overlay
    }
}

fn area_of_trash(expanded: bool, main: Rect, overlay: Rect) -> (r: Rect)
    ensures
        r == trash_area(expanded, main, overlay),
{
    if expanded {
        main
    } else {
        overlay
    }
}

/// The state of the screen with the rows of a list for the mouse.
pub open spec fn with_rows(s: ScreenState, rows: Option<MouseRows>) -> ScreenState {
    match rows {
        Some(m) => ScreenState {
            mouse_list_area: m.area,
            mouse_list_first_row: m.first_row,
            mouse_list_offset: m.offset,
            mouse_list_visible: m.visible,
            ..s
        },
        None => ScreenState { mouse_list_area: nowhere(), mouse_list_visible: 0, ..s },
    }
}

/// Keeps the rows of a list for the mouse. Where no list is shown there are none.
pub fn set_mouse_list_rows(s: ScreenState, rows: Option<MouseRows>) -> (r: ScreenState)
    ensures
        r == with_rows(s, rows),
{
    match rows {
        Some(m) => ScreenState {
            mouse_list_area: m.area,
            mouse_list_first_row: m.first_row,
            mouse_list_offset: m.offset,
            mouse_list_visible: m.visible,
            ..s
        },
        None => ScreenState { mouse_list_area: no_area(), mouse_list_visible: 0, ..s },
    }
}

/// The rows of one list or of another, where only one of them is shown.
pub open spec fn either_rows(a: Option<MouseRows>, b: Option<MouseRows>) -> Option<MouseRows> {
    if a is Some {
        a
    } else {
        b
    }
}

/// Puts one drawing over another.
fn stack(below: Drawn, above: Drawn) -> (r: Drawn)
    ensures
        widgets_view(r.0@) == widgets_view(below.0@) + widgets_view(above.0@),
        r.1 == either_rows(below.1, above.1),
{
    let (mut v, rows) = below;
    let (more, other) = above;
    add_widgets(&mut v, more);
    match rows {
        Some(m) => (v, Some(m)),
        None => (v, other),
    }
}

/// A drawing without a list.
fn only(v: Vec<Widget>) -> (r: Drawn)
    ensures
        r.0 == v,
        r.1 is None,
{
    (v, None)
}

fn with_list(d: (Vec<Widget>, MouseRows)) -> (r: Drawn)
    ensures
        r.0 == d.0,
        r.1 == Some(d.1),
{
    (d.0, Some(d.1))
}

fn both(below: Vec<Widget>, above: Vec<Widget>) -> (r: Vec<Widget>)
    ensures
        widgets_view(r@) == widgets_view(below@) + widgets_view(above@),
{
    let mut v = below;
    add_widgets(&mut v, above);
    v
}

impl AppView {
    pub open spec fn help_topic(self) -> HelpTopic {
        HelpTopic {
            picker: self.input is MovePicker || self.input is CopyPicker,
            show_preview: self.config.show_preview,
            lazy_preview: self.config.lazy_preview,
            vibrant: self.is_vibrant(),
        }
    }

    /// The help, where it is shown.
    pub open spec fn help_part(self, a: Areas) -> SceneView {
        if self.show_help_sheet {
            help_scene(self.help_topic(), a.screen, self.help_scroll as int)
        } else {
            Seq::empty()
        }
    }

    /// The sign that something is being loaded.
    pub open spec fn loading_part(self, a: Areas) -> SceneView {
        loading_scene(
            self.loading_label,
            self.spinner_idx,
            self.is_vibrant(),
            a.loading,
            a.screen,
        )
    }

    pub open spec fn logs_part(self, a: Areas) -> SceneView {
        if self.show_logs_overlay {
            self.logs_scene(a.logs, a.screen)
        } else {
            Seq::empty()
        }
    }

    /// The panes, as many as have room.
    pub open spec fn panes_part(self, a: Areas, kit: Kit) -> SceneView {
        match layout_of(a.main.width as int, self.config.show_preview) {
            MainLayoutMode::ThreePane => self.parent_pane(a.parent, kit) + self.current_pane(
                a.current,
                kit,
            ) + self.preview_scene(a.preview, a.preview_parts, kit),
            MainLayoutMode::CurrentPreview => self.current_pane(a.current, kit)
                + self.preview_scene(a.preview, a.preview_parts, kit),
            MainLayoutMode::ParentCurrent => self.parent_pane(a.parent, kit) + self.current_pane(
                a.current,
                kit,
            ),
            MainLayoutMode::CurrentOnly => self.current_pane(a.current, kit),
        }
    }

    pub open spec fn bar_part(self, a: Areas, kit: Kit) -> SceneView {
        match a.bar {
            Some(b) => self.bar_scene(b, a.bar_parts, kit),
            None => Seq::empty(),
        }
    }

    /// The dialog in which a destination is typed.
    pub open spec fn path_overlay(self, title: Chars, label: Chars, input: PathInputView, a: Areas) -> SceneView {
        dialog_scene(
            a.overlay,
            a.screen,
            title,
            themed(self.is_vibrant(), Color::Cyan, Color::Yellow),
            path_lines(
                label,
                input.value,
                input.candidates,
                input.candidate_idx,
                self.field_cursor(),
                a.overlay,
            ),
        )
    }

    /// The dialogs in which something is typed.
    #[verifier::opaque]
    pub open spec fn typing_part(self, a: Areas) -> SceneView {
        let c = self.field_cursor();
        let vibrant = self.is_vibrant();
        match self.input {
            ModeView::MoveInput { input, .. } => self.path_overlay(
                "Move"@,
                "Move to path"@,
                input,
                a,
            ),
            ModeView::CopyInput { input, .. } => self.path_overlay(
                "Copy"@,
                "Copy to path"@,
                input,
                a,
            ),
            ModeView::CartMoveInput { input } => self.path_overlay(
                "Move Cart"@,
                "Move all cart items to path"@,
                input,
                a,
            ),
            ModeView::CartCopyInput { input } => self.path_overlay(
                "Copy Cart"@,
                "Copy all cart items to path"@,
                input,
                a,
            ),
            ModeView::Rename { value } => dialog_scene(
                a.overlay,
                a.screen,
                "Rename"@,
                dialog_colors(vibrant, Color::LightYellow),
                rename_lines(value, c, a.overlay),
            ),
            ModeView::Mkdir { value } => dialog_scene(
                a.overlay,
                a.screen,
                "New Folder"@,
                dialog_colors(vibrant, Color::LightYellow),
                mkdir_lines(value, c, a.overlay),
            ),
            ModeView::GotoPath { query } => dialog_scene(
                a.overlay,
                a.screen,
                "Go to Path"@,
                themed(vibrant, Color::Cyan, Color::Cyan),
                goto_lines(query, c, a.overlay),
            ),
            ModeView::DownloadInput { input } => dialog_scene(
                a.overlay,
                a.screen,
                "Download "@ + crate::text::decimal(self.cart.len()) + " files"@,
                dialog_colors(vibrant, Color::LightGreen),
                download_lines(input.value, input.candidates, input.candidate_idx, c, a.overlay),
            ),
            ModeView::UploadInput { input } => upload_scene(
                path_text(self.breadcrumb),
                input.value,
                input.candidates,
                input.candidate_idx,
                c,
                vibrant,
                a.overlay,
                a.screen,
            ),
            ModeView::OfflineInput { value } => dialog_scene(
                a.overlay,
                a.screen,
                "Offline Download"@,
                dialog_colors(vibrant, Color::LightCyan),
                offline_lines(value, c, a.overlay),
            ),
            ModeView::PlayerInput { value, .. } => dialog_scene(
                a.overlay,
                a.screen,
                "Player Command"@,
                dialog_colors(vibrant, Color::LightYellow),
                player_lines(value, c, a.overlay),
            ),
            _ => Seq::empty(),
        }
    }

    /// The dialogs that ask for a decision.
    #[verifier::opaque]
    pub open spec fn question_part(self, a: Areas, kit: Kit) -> SceneView {
        let vibrant = self.is_vibrant();
        match self.input {
            ModeView::ConfirmQuit => dialog_scene(
                a.overlay,
                a.screen,
                "Confirm Quit"@,
                themed(vibrant, Color::Yellow, Color::Yellow),
                quit_lines(under_way(self.downloads)),
            ),
            ModeView::ConfirmDelete => dialog_scene(
                a.overlay,
                a.screen,
                "Confirm Remove"@,
                themed(vibrant, Color::Red, Color::Red),
                delete_lines(asked_name(self.current())),
            ),
            ModeView::ConfirmPermanentDelete { value } => permanent_scene(
                self.current(),
                value,
                self.field_cursor(),
                a.overlay,
                a.screen,
            ),
            ModeView::ConfirmCartDelete => dialog_scene(
                a.overlay,
                a.screen,
                "Confirm Trash Cart"@,
                themed(vibrant, Color::Red, Color::Red),
                cart_delete_lines(self.cart.len()),
            ),
            ModeView::ConfirmPlay { name, .. } => dialog_scene(
                a.overlay,
                a.screen,
                "Play Video"@,
                dialog_colors(vibrant, Color::LightGreen),
                play_lines(name, self.config.player),
            ),
            ModeView::SharePrompt => self.cart_scene(a.below, a.screen, kit) + share_prompt_scene(
                vibrant,
                a.overlay,
                a.screen,
            ),
            ModeView::ConfirmDiscardSettings { selected, draft } => self.settings_scene(
                selected,
                false,
                draft,
                true,
                a.below,
                a.screen,
                kit,
            ) + discard_scene(vibrant, a.overlay, a.screen),
            _ => Seq::empty(),
        }
    }

    /// The overlays with a list.
    #[verifier::opaque]
    pub open spec fn list_part(self, a: Areas, kit: Kit) -> SceneView {
        match self.input {
            ModeView::ActionMenu { selected } => self.menu_scene(selected, a.overlay, a.screen, kit),
            ModeView::CartView => self.cart_scene(a.overlay, a.screen, kit),
            ModeView::OfflineTasksView { tasks, selected } => self.tasks_scene(
                tasks,
                selected,
                a.overlay,
                a.screen,
                kit,
            ),
            ModeView::TrashView { entries, selected, expanded } => if self.loading {
                self.loading_part(a)
            } else {
                self.trash_scene(
                    entries,
                    selected,
                    expanded,
                    trash_area(expanded, a.main, a.overlay),
                    a.bar,
                    a.screen,
                    kit,
                )
            },
            ModeView::PlayPicker { name, medias, selected } => self.streams_scene(
                name,
                medias,
                selected,
                a.overlay,
                a.screen,
            ),
            ModeView::ShareCreatedView { shares } => self.cart_scene(a.below, a.screen, kit)
                + cards(shares, shares.len() as int, self.is_vibrant(), a.screen),
            _ => Seq::empty(),
        }
    }

    /// The overlays that show something, and the settings.
    #[verifier::opaque]
    pub open spec fn reading_part(self, a: Areas, kit: Kit) -> SceneView {
        let vibrant = self.is_vibrant();
        match self.input {
            ModeView::InfoLoading => self.loading_part(a),
            ModeView::InfoView { info, image, has_thumbnail, .. } => self.info_scene(
                a.overlay,
                a.screen,
                a.info,
                info,
                image,
                has_thumbnail,
                kit,
            ),
            ModeView::InfoFolderView { name, entries } => folder_overlay_scene(
                name,
                entries,
                vibrant,
                a.overlay,
                a.screen,
                kit,
            ),
            ModeView::TextPreviewView { name, lines, truncated } => text_overlay_scene(
                name,
                lines,
                truncated,
                self.config.preview_max_size,
                vibrant,
                a.overlay,
                a.screen,
            ),
            ModeView::Settings { selected, editing, draft, modified } => self.settings_scene(
                selected,
                editing,
                draft,
                modified,
                a.overlay,
                a.screen,
                kit,
            ),
            ModeView::CustomColorSettings {
                selected,
                draft,
                modified,
                editing_rgb,
                rgb_input,
                rgb_component,
            } => self.colors_scene(
                selected,
                draft,
                modified,
                editing_rgb,
                rgb_input,
                rgb_component,
                a.overlay,
                a.screen,
            ),
            ModeView::ImageProtocolSettings {
                selected,
                draft,
                modified,
                current_terminal,
                terminals,
            } => self.protocols_scene(
                selected,
                draft,
                modified,
                current_terminal,
                terminals,
                a.overlay,
                a.screen,
            ),
            _ => Seq::empty(),
        }
    }

    /// The overlay of the mode: a mode belongs to one group at most.
    #[verifier::opaque]
    pub open spec fn overlay_part(self, a: Areas, kit: Kit) -> SceneView {
        self.typing_part(a) + self.question_part(a, kit) + self.list_part(a, kit)
            + self.reading_part(a, kit)
    }

    pub open spec fn question_rows(self, a: Areas, kit: Kit) -> Option<MouseRows> {
        match self.input {
            ModeView::SharePrompt => cart_mouse(self.cart, a.below, kit),
            _ => None,
        }
    }

    pub open spec fn list_rows(self, a: Areas, kit: Kit) -> Option<MouseRows> {
        match self.input {
            ModeView::ActionMenu { .. } => Some(menu_mouse(a.overlay, kit)),
            ModeView::CartView => cart_mouse(self.cart, a.overlay, kit),
            ModeView::OfflineTasksView { tasks, .. } => tasks_mouse(tasks, a.overlay, kit),
            ModeView::TrashView { entries, expanded, .. } => if self.loading {
                None
            } else {
                trash_mouse(entries, expanded, trash_area(expanded, a.main, a.overlay), kit)
            },
            ModeView::PlayPicker { medias, .. } => Some(streams_mouse(medias.len(), a.overlay)),
            ModeView::ShareCreatedView { .. } => cart_mouse(self.cart, a.below, kit),
            _ => None,
        }
    }

    pub open spec fn reading_rows(self, a: Areas) -> Option<MouseRows> {
        match self.input {
            ModeView::CustomColorSettings { .. } => Some(colors_mouse(a.overlay)),
            ModeView::ImageProtocolSettings { terminals, .. } => Some(
                protocols_mouse(terminals.len(), a.overlay),
            ),
            _ => None,
        }
    }

    /// Where the rows of the list in the overlay stand.
    pub open spec fn overlay_rows(self, a: Areas, kit: Kit) -> Option<MouseRows> {
        either_rows(
            either_rows(self.question_rows(a, kit), self.list_rows(a, kit)),
            self.reading_rows(a),
        )
    }

    /// Where the rows of the list stand that is shown, for the mouse.
    pub open spec fn mouse_part(self, a: Areas, kit: Kit) -> Option<MouseRows> {
        if self.is_main_shown() {
            self.overlay_rows(a, kit)
        } else {
            match self.input {
                ModeView::TrashView { entries, .. } => trash_mouse(entries, true, a.main, kit),
                ModeView::InfoView { .. } => trash_mouse(
                    self.trash_entries,
                    self.trash_expanded,
                    trash_area(self.trash_expanded, a.main, a.below),
                    kit,
                ),
                ModeView::MySharesView { shares, .. } => shares_mouse(shares, a.halves.0, kit),
                _ => None,
            }
        }
    }

    /// The main screen: the panes, the logs, the help bar, the status, the overlay and the help.
    #[verifier::opaque]
    pub open spec fn main_scene(self, a: Areas, kit: Kit) -> SceneView {
        self.panes_part(a, kit) + self.logs_part(a) + self.bar_part(a, kit) + toast_scene(
            self.status_message,
            self.clock.now,
            a.main,
            a.screen,
        ) + self.overlay_part(a, kit) + (if self.shares_pending && self.loading {
            self.loading_part(a)
        } else {
            Seq::empty()
        }) + self.help_part(a)
    }

    /// The whole screen.
    pub open spec fn scene(self, a: Areas, kit: Kit) -> SceneView {
        match self.input {
            ModeView::Login { field, email, password, error, logging_in } => login_scene(
                field,
                email,
                password,
                error,
                logging_in,
                self.field_cursor(),
                self.is_vibrant(),
                a.overlay,
                a.screen,
            ),
            ModeView::MovePicker { source, picker } => self.picker_scene(
                source,
                picker,
                true,
                a.halves,
                a.bar,
                kit,
            ) + self.help_part(a),
            ModeView::CopyPicker { source, picker } => self.picker_scene(
                source,
                picker,
                false,
                a.halves,
                a.bar,
                kit,
            ) + self.help_part(a),
            ModeView::CartMovePicker { picker } => self.cart_picker_scene(
                picker,
                true,
                a.halves,
                a.bar,
                kit,
            ) + self.help_part(a),
            ModeView::CartCopyPicker { picker } => self.cart_picker_scene(
                picker,
                false,
                a.halves,
                a.bar,
                kit,
            ) + self.help_part(a),
            ModeView::DownloadView => if self.downloads_expanded {
                seq![WidgetView::Downloads { expanded: true }]
            } else {
                self.main_scene(a, kit).push(WidgetView::Downloads { expanded: false })
            },
            ModeView::MySharesView { shares, selected, confirm_delete } => self.shares_scene(
                shares,
                selected,
                confirm_delete is Some,
                a.main,
                a.halves,
                a.bar,
                kit,
            ) + (if self.loading {
                self.loading_part(a)
            } else {
                Seq::empty()
            }) + self.logs_part(a),
            _ => self.usual_scene(a, kit),
        }
    }

    /// The screen in the modes that may lie over the trash, and in all others.
    #[verifier::opaque]
    pub open spec fn usual_scene(self, a: Areas, kit: Kit) -> SceneView {
        match self.input {
            ModeView::TrashView { entries, selected, expanded } => if expanded {
                self.trash_scene(entries, selected, true, a.main, a.bar, a.screen, kit) + (
                if self.loading {
                    self.loading_part(a)
                } else {
                    Seq::empty()
                })
            } else {
                self.main_scene(a, kit)
            },
            ModeView::InfoView { info, image, has_thumbnail, .. } => if self.trash_entries.len()
                > 0 {
                self.trash_scene(
                    self.trash_entries,
                    self.trash_selected,
                    self.trash_expanded,
                    trash_area(self.trash_expanded, a.main, a.below),
                    a.bar,
                    a.screen,
                    kit,
                ) + self.info_scene(a.overlay, a.screen, a.info, info, image, has_thumbnail, kit)
            } else {
                self.main_scene(a, kit)
            },
            _ => self.main_scene(a, kit),
        }
    }

    pub open spec fn is_main_shown(self) -> bool {
        shows_main(self.input, self.downloads_expanded, self.trash_entries.len() > 0)
    }

    /// What the drawing leaves behind for the mouse and for paging.
    pub open spec fn screen_drawn(self, a: Areas, kit: Kit) -> ScreenState {
        let s = with_rows(self.screen, self.mouse_part(a, kit));
        let panes = if self.is_main_shown() {
            ScreenState {
                parent_pane_area: a.parent,
                current_pane_area: a.current,
                preview_pane_area: a.preview,
                list_area_height: a.current.height,
                ..s
            }
        } else {
            s
        };
        ScreenState {
            logs_overlay_area: if self.show_logs_overlay && (self.is_main_shown()
                || self.input is MySharesView) {
                a.logs
            } else {
                s.logs_overlay_area
            },
            settings_area: settings_area(self.input, a, s.settings_area),
            help_scroll_max: if self.show_help_sheet && (self.is_main_shown() || is_picking(
                self.input,
            )) {
                help_scroll_room(self.help_topic(), a.screen) as usize
            } else {
                s.help_scroll_max
            },
            ..panes
        }
    }
}

impl App {
    fn topic_of_help(&self) -> (r: HelpTopic)
        ensures
            r == self@.help_topic(),
    {
        HelpTopic {
            picker: picks_one(&self.input),
            show_preview: self.config.show_preview,
            lazy_preview: self.config.lazy_preview,
            vibrant: self.is_vibrant(),
        }
    }

    fn draw_help_part(&self, a: Areas) -> (r: Vec<Widget>)
        ensures
            widgets_view(r@) == self@.help_part(a),
    {
        if self.show_help_sheet {
            let (v, _room) = draw_help_sheet(self.topic_of_help(), a.screen, self.help_scroll);
            v
        } else {
            no_widgets()
        }
    }

    fn draw_loading_part(&self, a: Areas) -> (r: Vec<Widget>)
        ensures
            widgets_view(r@) == self@.loading_part(a),
    {
        draw_info_loading_overlay(
            &self.loading_label,
            self.spinner_idx,
            self.is_vibrant(),
            a.loading,
            a.screen,
        )
    }

    fn draw_loading_when(&self, wanted: bool, a: Areas) -> (r: Vec<Widget>)
        ensures
            widgets_view(r@) == (if wanted {
                self@.loading_part(a)
            } else {
                Seq::empty()
            }),
    {
        if wanted {
            self.draw_loading_part(a)
        } else {
            no_widgets()
        }
    }

    fn draw_logs_part(&self, a: Areas) -> (r: Vec<Widget>)
        ensures
            widgets_view(r@) == self@.logs_part(a),
    {
        if self.show_logs_overlay {
            self.draw_log_overlay(a.logs, a.screen)
        } else {
            no_widgets()
        }
    }

    fn draw_panes_part(&self, a: Areas, kit: &Kit) -> (r: Vec<Widget>)
        ensures
            widgets_view(r@) == self@.panes_part(a, *kit),
    {
        match main_layout_mode(a.main.width, self.config.show_preview) {
            MainLayoutMode::ThreePane => both(
                both(self.draw_parent_pane(a.parent, kit), self.draw_current_pane(a.current, kit)),
                self.draw_preview_pane(a.preview, a.preview_parts, kit),
            ),
            MainLayoutMode::CurrentPreview => both(
                self.draw_current_pane(a.current, kit),
                self.draw_preview_pane(a.preview, a.preview_parts, kit),
            ),
            MainLayoutMode::ParentCurrent => both(
                self.draw_parent_pane(a.parent, kit),
                self.draw_current_pane(a.current, kit),
            ),
            MainLayoutMode::CurrentOnly => self.draw_current_pane(a.current, kit),
        }
    }

    fn draw_bar_part(&self, a: Areas, kit: &Kit) -> (r: Vec<Widget>)
        ensures
            widgets_view(r@) == self@.bar_part(a, *kit),
    {
        match a.bar {
            Some(b) => self.draw_help_bar(b, a.bar_parts, kit),
            None => no_widgets(),
        }
    }

    fn draw_path_part(&self, title: &str, label: &str, input: &PathInput, a: Areas) -> (r: Vec<
        Widget,
    >)
        ensures
            widgets_view(r@) == self@.path_overlay(title@, label@, input@, a),
    {
        draw_path_input_overlay(
            title,
            label,
            input,
            self.cursor_of_field(),
            self.is_vibrant(),
            a.overlay,
            a.screen,
        )
    }

    fn draw_typing_part(&self, a: Areas) -> (r: Vec<Widget>)
        ensures
            widgets_view(r@) == self@.typing_part(a),
    {
        reveal(AppView::typing_part);
        let c = self.cursor_of_field();
        let vibrant: bool = self.is_vibrant();
        match &self.input {
            InputMode::MoveInput { input, .. } => self.draw_path_part(
                "Move",
                "Move to path",
                input,
                a,
            ),
            InputMode::CopyInput { input, .. } => self.draw_path_part(
                "Copy",
                "Copy to path",
                input,
                a,
            ),
            InputMode::CartMoveInput { input } => self.draw_path_part(
                "Move Cart",
                "Move all cart items to path",
                input,
                a,
            ),
            InputMode::CartCopyInput { input } => self.draw_path_part(
                "Copy Cart",
                "Copy all cart items to path",
                input,
                a,
            ),
            InputMode::Rename { value } => draw_rename_overlay(
                value.as_str(),
                c,
                vibrant,
                a.overlay,
                a.screen,
            ),
            InputMode::Mkdir { value } => draw_mkdir_overlay(
                value.as_str(),
                c,
                vibrant,
                a.overlay,
                a.screen,
            ),
            InputMode::GotoPath { query } => draw_goto_overlay(
                query.as_str(),
                c,
                vibrant,
                a.overlay,
                a.screen,
            ),
            InputMode::DownloadInput { input } => draw_download_input_overlay(
                input,
                self.cart.len(),
                c,
                vibrant,
                a.overlay,
                a.screen,
            ),
            InputMode::UploadInput { input } => draw_upload_input_overlay(
                input,
                self.current_path_display().as_str(),
                c,
                vibrant,
                a.overlay,
                a.screen,
            ),
            InputMode::OfflineInput { value } => draw_offline_input_overlay(
                value.as_str(),
                c,
                vibrant,
                a.overlay,
                a.screen,
            ),
            InputMode::PlayerInput { value, .. } => draw_player_input_overlay(
                value.as_str(),
                c,
                vibrant,
                a.overlay,
                a.screen,
            ),
            _ => no_widgets(),
        }
    }

    fn draw_question_part(&self, a: Areas, kit: &Kit) -> (r: Drawn)
        ensures
            widgets_view(r.0@) == self@.question_part(a, *kit),
            r.1 == self@.question_rows(a, *kit),
    {
        reveal(AppView::question_part);
        let vibrant: bool = self.is_vibrant();
        match &self.input {
            InputMode::ConfirmQuit => only(
                draw_confirm_quit_overlay(
                    &self.downloads,
                    vibrant,
                    a.overlay,
                    a.screen,
                ),
            ),
            InputMode::ConfirmDelete => only(
                draw_confirm_delete_overlay(
                    &self.current_entry(),
                    vibrant,
                    a.overlay,
                    a.screen,
                ),
            ),
            InputMode::ConfirmPermanentDelete { value } => only(
                draw_confirm_permanent_delete_overlay(
                    &self.current_entry(),
                    value.as_str(),
                    self.cursor_of_field(),
                    a.overlay,
                    a.screen,
                ),
            ),
            InputMode::ConfirmCartDelete => only(
                draw_confirm_cart_delete_overlay(
                    self.cart.len(),
                    vibrant,
                    a.overlay,
                    a.screen,
                ),
            ),
            InputMode::ConfirmPlay { name, .. } => only(
                draw_confirm_play_overlay(
                    name.as_str(),
                    &self.config.player,
                    vibrant,
                    a.overlay,
                    a.screen,
                ),
            ),
            InputMode::SharePrompt => stack(
                self.draw_cart_overlay(a.below, a.screen, kit),
                only(draw_share_prompt_overlay(vibrant, a.overlay, a.screen)),
            ),
            InputMode::ConfirmDiscardSettings { selected, draft } => only(
                both(
                    self.draw_settings_overlay(*selected, false, draft, true, a.below, a.screen, kit),
                    draw_discard_settings_overlay(vibrant, a.overlay, a.screen),
                ),
            ),
            _ => only(no_widgets()),
        }
    }

    fn draw_list_part(&self, a: Areas, kit: &Kit) -> (r: Drawn)
        ensures
            widgets_view(r.0@) == self@.list_part(a, *kit),
            r.1 == self@.list_rows(a, *kit),
    {
        reveal(AppView::list_part);
        match &self.input {
            InputMode::ActionMenu { selected } => with_list(
                self.draw_action_menu(*selected, a.overlay, a.screen, kit),
            ),
            InputMode::CartView => self.draw_cart_overlay(a.overlay, a.screen, kit),
            InputMode::OfflineTasksView { tasks, selected } => self.draw_offline_tasks_overlay(
                tasks,
                *selected,
                a.overlay,
                a.screen,
                kit,
            ),
            InputMode::TrashView { entries, selected, expanded } => if self.loading {
                only(self.draw_loading_part(a))
            } else {
                self.draw_trash_view(
                    entries,
                    *selected,
                    *expanded,
                    area_of_trash(*expanded, a.main, a.overlay),
                    a.bar,
                    a.screen,
                    kit,
                )
            },
            InputMode::PlayPicker { name, medias, selected } => with_list(
                self.draw_play_picker_overlay(
                    name.as_str(),
                    medias,
                    *selected,
                    a.overlay,
                    a.screen,
                ),
            ),
            InputMode::ShareCreatedView { shares } => stack(
                self.draw_cart_overlay(a.below, a.screen, kit),
                only(draw_share_created_view(shares, self.is_vibrant(), a.screen)),
            ),
            _ => only(no_widgets()),
        }
    }

    fn draw_reading_part(&self, a: Areas, kit: &Kit) -> (r: Drawn)
        ensures
            widgets_view(r.0@) == self@.reading_part(a, *kit),
            r.1 == self@.reading_rows(a),
    {
        reveal(AppView::reading_part);
        let vibrant: bool = self.is_vibrant();
        match &self.input {
            InputMode::InfoLoading => only(self.draw_loading_part(a)),
            InputMode::InfoView { info, image, has_thumbnail, .. } => only(
                self.draw_info_overlay(
                    a.overlay,
                    a.screen,
                    a.info,
                    info,
                    *image,
                    *has_thumbnail,
                    kit,
                ),
            ),
            InputMode::InfoFolderView { name, entries } => only(
                draw_info_folder_overlay(
                    name.as_str(),
                    entries,
                    vibrant,
                    a.overlay,
                    a.screen,
                    kit,
                ),
            ),
            InputMode::TextPreviewView { name, lines, truncated } => only(
                draw_text_preview_overlay(
                    name.as_str(),
                    lines,
                    *truncated,
                    self.config.preview_max_size,
                    vibrant,
                    a.overlay,
                    a.screen,
                ),
            ),
            InputMode::Settings { selected, editing, draft, modified } => only(
                self.draw_settings_overlay(
                    *selected,
                    *editing,
                    draft,
                    *modified,
                    a.overlay,
                    a.screen,
                    kit,
                ),
            ),
            InputMode::CustomColorSettings {
                selected,
                draft,
                modified,
                editing_rgb,
                rgb_input,
                rgb_component,
            } => with_list(
                self.draw_custom_color_overlay(
                    *selected,
                    draft,
                    *modified,
                    *editing_rgb,
                    rgb_input.as_str(),
                    *rgb_component,
                    a.overlay,
                    a.screen,
                ),
            ),
            InputMode::ImageProtocolSettings {
                selected,
                draft,
                modified,
                current_terminal,
                terminals,
            } => with_list(
                self.draw_image_protocol_overlay(
                    *selected,
                    draft,
                    *modified,
                    current_terminal.as_str(),
                    terminals,
                    a.overlay,
                    a.screen,
                ),
            ),
            _ => only(no_widgets()),
        }
    }

    /// Draws the overlay of the mode.
    pub fn draw_overlay(&self, a: Areas, kit: &Kit) -> (r: Drawn)
        ensures
            widgets_view(r.0@) == self@.overlay_part(a, *kit),
            r.1 == self@.overlay_rows(a, *kit),
    {
        reveal(AppView::overlay_part);
        stack(
            stack(
                stack(only(self.draw_typing_part(a)), self.draw_question_part(a, kit)),
                self.draw_list_part(a, kit),
            ),
            self.draw_reading_part(a, kit),
        )
    }

    /// Draws the main screen.
    pub fn draw_main(&self, a: Areas, kit: &Kit) -> (r: Drawn)
        ensures
            widgets_view(r.0@) == self@.main_scene(a, *kit),
            r.1 == self@.overlay_rows(a, *kit),
    {
        reveal(AppView::main_scene);
        let mut v: Vec<Widget> = self.draw_panes_part(a, kit);
        add_widgets(&mut v, self.draw_logs_part(a));
        add_widgets(&mut v, self.draw_bar_part(a, kit));
        add_widgets(
            &mut v,
            draw_status_toast(&self.status_message, self.clock.now, a.main, a.screen),
        );
        let (overlay, rows) = self.draw_overlay(a, kit);
        add_widgets(&mut v, overlay);
        add_widgets(&mut v, self.draw_loading_when(self.shares_pending && self.loading, a));
        add_widgets(&mut v, self.draw_help_part(a));
        (v, rows)
    }

    fn draw_usual(&self, a: Areas, kit: &Kit) -> (r: Drawn)
        requires
            self@.is_main_shown() || self@.input is TrashView || self@.input is InfoView,
        ensures
            widgets_view(r.0@) == self@.usual_scene(a, *kit),
            r.1 == self@.mouse_part(a, *kit),
    {
        reveal(AppView::usual_scene);
        match &self.input {
            InputMode::TrashView { entries, selected, expanded } => {
                if *expanded {
                    let (mut v, rows) = self.draw_trash_view(
                        entries,
                        *selected,
                        true,
                        a.main,
                        a.bar,
                        a.screen,
                        kit,
                    );
                    add_widgets(&mut v, self.draw_loading_when(self.loading, a));
                    return (v, rows);
                }
                self.draw_main(a, kit)
            },
            InputMode::InfoView { info, image, has_thumbnail, .. } => {
                if self.trash_entries.len() > 0 {
                    let (mut v, rows) = self.draw_trash_view(
                        &self.trash_entries,
                        self.trash_selected,
                        self.trash_expanded,
                        area_of_trash(self.trash_expanded, a.main, a.below),
                        a.bar,
                        a.screen,
                        kit,
                    );
                    add_widgets(
                        &mut v,
                        self.draw_info_overlay(
                            a.overlay,
                            a.screen,
                            a.info,
                            info,
                            *image,
                            *has_thumbnail,
                            kit,
                        ),
                    );
                    return (v, rows);
                }
                self.draw_main(a, kit)
            },
            _ => self.draw_main(a, kit),
        }
    }

    /// Draws the whole screen.
    pub fn draw_scene(&self, a: Areas, kit: &Kit) -> (r: Drawn)
        ensures
            widgets_view(r.0@) == self@.scene(a, *kit),
            r.1 == self@.mouse_part(a, *kit),
    {
        match &self.input {
            InputMode::Login { field, email, password, error, logging_in } => only(
                draw_login_screen(
                    *field,
                    email.as_str(),
                    password.as_str(),
                    error,
                    *logging_in,
                    self.cursor_of_field(),
                    self.is_vibrant(),
                    a.overlay,
                    a.screen,
                ),
            ),
            InputMode::MovePicker { source, picker } => only(
                both(
                    self.draw_picker(source, picker, true, a.halves, a.bar, kit),
                    self.draw_help_part(a),
                ),
            ),
            InputMode::CopyPicker { source, picker } => only(
                both(
                    self.draw_picker(source, picker, false, a.halves, a.bar, kit),
                    self.draw_help_part(a),
                ),
            ),
            InputMode::CartMovePicker { picker } => only(
                both(
                    self.draw_cart_picker(picker, true, a.halves, a.bar, kit),
                    self.draw_help_part(a),
                ),
            ),
            InputMode::CartCopyPicker { picker } => only(
                both(
                    self.draw_cart_picker(picker, false, a.halves, a.bar, kit),
                    self.draw_help_part(a),
                ),
            ),
            InputMode::DownloadView => {
                if self.downloads_expanded {
                    let mut v: Vec<Widget> = no_widgets();
                    add_widget(&mut v, Widget::Downloads { expanded: true });
                    return only(v);
                }
                let (mut v, rows) = self.draw_main(a, kit);
                add_widget(&mut v, Widget::Downloads { expanded: false });
                (v, rows)
            },
            InputMode::MySharesView { shares, selected, confirm_delete } => {
                let (mut v, rows) = self.draw_my_shares_view(
                    shares,
                    *selected,
                    confirm_delete.is_some(),
                    a.main,
                    a.halves,
                    a.bar,
                    kit,
                );
                add_widgets(&mut v, self.draw_loading_when(self.loading, a));
                add_widgets(&mut v, self.draw_logs_part(a));
                (v, rows)
            },
            _ => self.draw_usual(a, kit),
        }
    }

    fn main_is_shown(&self) -> (r: bool)
        ensures
            r == self@.is_main_shown(),
    {
        does_show_main(&self.input, self.downloads_expanded, self.trash_entries.len() > 0)
    }

    fn shows_shares(&self) -> (r: bool)
        ensures
            r == self@.input is MySharesView,
    {
        match &self.input {
            InputMode::MySharesView { .. } => true,
            _ => false,
        }
    }

    fn help_room(&self, a: Areas) -> (r: usize)
        ensures
            r == help_scroll_room(self@.help_topic(), a.screen),
    {
        let (_widgets, room) = draw_help_sheet(self.topic_of_help(), a.screen, self.help_scroll);
        room
    }

    fn screen_after(&self, a: Areas, rows: Option<MouseRows>) -> (r: ScreenState)
        ensures
            forall|kit: Kit|
                rows == self@.mouse_part(a, kit) ==> r == #[trigger] self@.screen_drawn(a, kit),
    {
        let mut s: ScreenState = set_mouse_list_rows(self.screen, rows);
        let main: bool = self.main_is_shown();
        s.settings_area = find_settings_area(&self.input, a, s.settings_area);
        if main {
            s.parent_pane_area = a.parent;
            s.current_pane_area = a.current;
            s.preview_pane_area = a.preview;
            s.list_area_height = a.current.height;
        }
        if self.show_logs_overlay && (main || self.shows_shares()) {
            s.logs_overlay_area = a.logs;
        }
        if self.show_help_sheet && (main || picks(&self.input)) {
            s.help_scroll_max = self.help_room(a);
        }
        s
    }

    /// Draws the whole screen, and keeps what the mouse and paging go by.
    pub fn draw(&mut self, a: Areas, kit: &Kit) -> (r: Vec<Widget>)
        ensures
            widgets_view(r@) == old(self)@.scene(a, *kit),
            final(self)@ == (AppView { screen: old(self)@.screen_drawn(a, *kit), ..old(self)@ }),
    {
        let (v, rows) = self.draw_scene(a, kit);
        let s: ScreenState = self.screen_after(a, rows);
        self.screen = s;
        v
    }

    /// Keeps the first rows that the lists of the current and of the parent folder were drawn with.
    /// The parent folder may not have been drawn as a list.
    pub fn lists_drawn(&mut self, current: usize, parent: Option<usize>)
        ensures
            final(self)@ == (AppView {
                screen: ScreenState {
                    scroll_offset: current,
                    parent_scroll_offset: match parent {
                        Some(p) => p,
                        None => old(self)@.screen.parent_scroll_offset,
                    },
                    ..old(self)@.screen
                },
                ..old(self)@
            }),
    {
        self.screen.scroll_offset = current;
        if let Some(p) = parent {
            self.screen.parent_scroll_offset = p;
        }
    }
}

} // verus!
