//! What the mouse does.

use crate::app::{App, AppView, Clock};
use crate::event::{KeyCode, KeyModifiers, MouseEvent, MouseEventKind};
use crate::geometry::{
    is_in_content, is_in_rect, list_index, max_int, min_int, mouse_list_index, Rect,
};
use crate::keys::{scrolled_down, ACTION_COUNT};
use crate::model::{Entry, EntryKind, InputMode, ModeView, PreviewState, PreviewView, TuiConfig};
use crate::navigate::binding;
use crate::setting_items::{is_checkbox, setting_value, shows_switch, value_of};
use crate::settings::{flip_setting, flipped, SettingsState, SettingsView};
use crate::settings::{COLORS_LAST_INDEX, SETTINGS_LAST_INDEX};
use crate::start::passed;
use crate::text::texts;
use crate::width::{wrap_logs, wrapped_all};
use vstd::prelude::*;

verus! {

/// Two clicks on one cell within this time are a double click.
pub const DOUBLE_CLICK_MILLIS: u64 = 400;

/// How many rows a notch of the wheel scrolls in the panes.
pub const WHEEL_STEP: usize = 3;

/// A selection after a notch of the wheel in a list of `len` entries.
pub open spec fn wheeled(selected: usize, up: bool, len: nat, step: int) -> usize {
    if up {
        max_int(selected - step, 0) as usize
    } else if len == 0 {
        selected
    } else {
        min_int(selected + step, len - 1) as usize
    }
}

fn wheel(selected: usize, up: bool, len: usize, step: usize) -> (r: usize)
    ensures
        r == wheeled(selected, up, len as nat, step as int),
{
    if up {
        selected.saturating_sub(step)
    } else if len == 0 {
        selected
    } else {
        scrolled_down(selected, step, len - 1)
    }
}

/// The selected row of the settings after a notch of the wheel.
pub open spec fn setting_wheeled(selected: usize, up: bool) -> usize {
    if up {
        max_int(selected - 1, 0) as usize
    } else if selected < SETTINGS_LAST_INDEX {
        (selected + 1) as usize
    } else {
        selected
    }
}

/// A dialog after a notch of the wheel.
pub open spec fn mode_wheeled(mode: ModeView, up: bool) -> ModeView {
    match mode {
        ModeView::OfflineTasksView { tasks, selected } => ModeView::OfflineTasksView {
            tasks,
            selected: wheeled(selected, up, tasks.len(), 1),
        },
        ModeView::TrashView { entries, selected, expanded } => ModeView::TrashView {
            entries,
            selected: wheeled(selected, up, entries.len(), 1),
            expanded,
        },
        ModeView::Settings { selected, editing, draft, modified } => ModeView::Settings {
            selected: setting_wheeled(selected, up),
            editing,
            draft,
            modified,
        },
        ModeView::MySharesView { shares, selected, confirm_delete } => ModeView::MySharesView {
            shares,
            selected: wheeled(selected, up, shares.len(), 1),
            confirm_delete,
        },
        ModeView::PlayPicker { name, medias, selected } => ModeView::PlayPicker {
            name,
            medias,
            selected: wheeled(selected, up, medias.len(), 1),
        },
        ModeView::CustomColorSettings {
            selected,
            draft,
            modified,
            editing_rgb,
            rgb_input,
            rgb_component,
        } => ModeView::CustomColorSettings {
            selected: wheeled(selected, up, COLORS_LAST_INDEX as nat + 1, 1),
            draft,
            modified,
            editing_rgb,
            rgb_input,
            rgb_component,
        },
        ModeView::ImageProtocolSettings {
            selected,
            draft,
            modified,
            current_terminal,
            terminals,
        } => ModeView::ImageProtocolSettings {
            selected: wheeled(selected, up, terminals.len(), 1),
            draft,
            modified,
            current_terminal,
            terminals,
        },
        ModeView::ActionMenu { selected } => ModeView::ActionMenu {
            selected: wheeled(selected, up, ACTION_COUNT as nat, 1),
        },
        _ => mode,
    }
}

fn wheel_mode(mode: InputMode, up: bool) -> (r: InputMode)
    ensures
        r@ == mode_wheeled(mode@, up),
{
    match mode {
        InputMode::OfflineTasksView { tasks, selected } => {
            let selected: usize = wheel(selected, up, tasks.len(), 1);
            return InputMode::OfflineTasksView { tasks, selected };
        },
        InputMode::TrashView { entries, selected, expanded } => {
            let selected: usize = wheel(selected, up, entries.len(), 1);
            return InputMode::TrashView { entries, selected, expanded };
        },
        InputMode::Settings { selected, editing, draft, modified } => {
            let selected: usize = if up {
                selected.saturating_sub(1)
            } else if selected < SETTINGS_LAST_INDEX {
                selected + 1
            } else {
                selected
            };
            return InputMode::Settings { selected, editing, draft, modified };
        },
        InputMode::MySharesView { shares, selected, confirm_delete } => {
            let selected: usize = wheel(selected, up, shares.len(), 1);
            return InputMode::MySharesView { shares, selected, confirm_delete };
        },
        InputMode::PlayPicker { name, medias, selected } => {
            let selected: usize = wheel(selected, up, medias.len(), 1);
            return InputMode::PlayPicker { name, medias, selected };
        },
        InputMode::CustomColorSettings {
            selected,
            draft,
            modified,
            editing_rgb,
            rgb_input,
            rgb_component,
        } => {
            let selected: usize = wheel(selected, up, COLORS_LAST_INDEX + 1, 1);
            return InputMode::CustomColorSettings {
                selected,
                draft,
                modified,
                editing_rgb,
                rgb_input,
                rgb_component,
            };
        },
        InputMode::ImageProtocolSettings {
            selected,
            draft,
            modified,
            current_terminal,
            terminals,
        } => {
            let selected: usize = wheel(selected, up, terminals.len(), 1);
            return InputMode::ImageProtocolSettings {
                selected,
                draft,
                modified,
                current_terminal,
                terminals,
            };
        },
        InputMode::ActionMenu { selected } => {
            let selected: usize = wheel(selected, up, ACTION_COUNT, 1);
            return InputMode::ActionMenu { selected };
        },
        other => {
            return other;
        },
    }
}

/// Where the logs stand after a notch of the wheel: nowhere in particular at their end, where they
/// follow the newest message.
pub open spec fn logs_wheeled(at: Option<usize>, up: bool, max: int) -> Option<usize> {
    let current: int = match at {
        Some(y) => y as int,
        None => max,
    };
    if up {
        Some(max_int(current - 3, 0) as usize)
    } else if min_int(current + 3, max) >= max {
        None
    } else {
        Some((current + 3) as usize)
    }
}

fn wheel_logs(at: Option<usize>, up: bool, max: usize) -> (r: Option<usize>)
    ensures
        r == logs_wheeled(at, up, max as int),
{
    let current: usize = match at {
        Some(y) => y,
        None => max,
    };
    if up {
        return Some(current.saturating_sub(3));
    }
    let to: usize = scrolled_down(current, 3, max);
    if to >= max {
        None
    } else {
        Some(to)
    }
}

/// How far a pane of `height` rows with a border can be scrolled over `len` rows.
pub open spec fn scroll_room(len: nat, height: u16) -> int {
    max_int(len - max_int(height - 2, 0), 0)
}

pub(crate) fn room(len: usize, height: u16) -> (r: usize)
    ensures
        r == scroll_room(len as nat, height),
{
    len.saturating_sub(height.saturating_sub(2) as usize)
}

/// How many rows the preview has that can be scrolled over.
pub open spec fn preview_rows(p: PreviewView) -> nat {
    match p {
        PreviewView::FileTextPreview { lines, .. } => lines.len(),
        PreviewView::FolderListing(children) => children.len(),
        _ => 0,
    }
}

fn count_preview_rows(p: &PreviewState) -> (r: usize)
    ensures
        r == preview_rows(p@),
{
    match p {
        PreviewState::FileTextPreview { name: _, lines, size: _, truncated: _ } => lines.len(),
        PreviewState::FolderListing(children) => children.len(),
        _ => 0,
    }
}

/// Whether a click can select entry `i` of the list in a dialog.
pub open spec fn mode_has_row(mode: ModeView, i: usize) -> bool {
    match mode {
        ModeView::OfflineTasksView { tasks, .. } => i < tasks.len(),
        ModeView::TrashView { entries, .. } => i < entries.len(),
        ModeView::MySharesView { shares, .. } => i < shares.len(),
        ModeView::PlayPicker { medias, .. } => i < medias.len(),
        ModeView::CustomColorSettings { .. } => i <= COLORS_LAST_INDEX,
        ModeView::ImageProtocolSettings { terminals, .. } => i < terminals.len(),
        ModeView::ActionMenu { .. } => i < ACTION_COUNT,
        _ => false,
    }
}

fn has_row(mode: &InputMode, i: usize) -> (r: bool)
    ensures
        r == mode_has_row(mode@, i),
{
    match mode {
        InputMode::OfflineTasksView { tasks, selected: _ } => i < tasks.len(),
        InputMode::TrashView { entries, selected: _, expanded: _ } => i < entries.len(),
        InputMode::MySharesView { shares, selected: _, confirm_delete: _ } => i < shares.len(),
        InputMode::PlayPicker { name: _, medias, selected: _ } => i < medias.len(),
        InputMode::CustomColorSettings { .. } => i <= COLORS_LAST_INDEX,
        InputMode::ImageProtocolSettings { terminals, .. } => i < terminals.len(),
        InputMode::ActionMenu { selected: _ } => i < ACTION_COUNT,
        _ => false,
    }
}

/// A dialog with entry `i` of its list selected.
pub open spec fn mode_at_row(mode: ModeView, i: usize) -> ModeView {
    match mode {
        ModeView::OfflineTasksView { tasks, .. } => ModeView::OfflineTasksView {
            tasks,
            selected: i,
        },
        ModeView::TrashView { entries, expanded, .. } => ModeView::TrashView {
            entries,
            selected: i,
            expanded,
        },
        ModeView::MySharesView { shares, confirm_delete, .. } => ModeView::MySharesView {
            shares,
            selected: i,
            confirm_delete,
        },
        ModeView::PlayPicker { name, medias, .. } => ModeView::PlayPicker {
            name,
            medias,
            selected: i,
        },
        ModeView::CustomColorSettings {
            draft,
            modified,
            editing_rgb,
            rgb_input,
            rgb_component,
            ..
        } => ModeView::CustomColorSettings {
            selected: i,
            draft,
            modified,
            editing_rgb,
            rgb_input,
            rgb_component,
        },
        ModeView::ImageProtocolSettings { draft, modified, current_terminal, terminals, .. } =>
            ModeView::ImageProtocolSettings {
            selected: i,
            draft,
            modified,
            current_terminal,
            terminals,
        },
        ModeView::ActionMenu { .. } => ModeView::ActionMenu { selected: i },
        _ => mode,
    }
}

fn at_row(mode: InputMode, i: usize) -> (r: InputMode)
    ensures
        r@ == mode_at_row(mode@, i),
{
    match mode {
        InputMode::OfflineTasksView { tasks, selected: _ } => {
            return InputMode::OfflineTasksView { tasks, selected: i };
        },
        InputMode::TrashView { entries, selected: _, expanded } => {
            return InputMode::TrashView { entries, selected: i, expanded };
        },
        InputMode::MySharesView { shares, selected: _, confirm_delete } => {
            return InputMode::MySharesView { shares, selected: i, confirm_delete };
        },
        InputMode::PlayPicker { name, medias, selected: _ } => {
            return InputMode::PlayPicker { name, medias, selected: i };
        },
        InputMode::CustomColorSettings {
            selected: _,
            draft,
            modified,
            editing_rgb,
            rgb_input,
            rgb_component,
        } => {
            return InputMode::CustomColorSettings {
                selected: i,
                draft,
                modified,
                editing_rgb,
                rgb_input,
                rgb_component,
            };
        },
        InputMode::ImageProtocolSettings {
            selected: _,
            draft,
            modified,
            current_terminal,
            terminals,
        } => {
            return InputMode::ImageProtocolSettings {
                selected: i,
                draft,
                modified,
                current_terminal,
                terminals,
            };
        },
        InputMode::ActionMenu { selected: _ } => {
            return InputMode::ActionMenu { selected: i };
        },
        other => {
            return other;
        },
    }
}

/// Whether a click on the switch of a row counts: the switches stand at the right border.
pub open spec fn on_switch(col: u16, area: Rect) -> bool {
    max_int(col - area.x - 1, 0) + 10 >= max_int(area.width - 4, 0)
}

/// The settings after a click on a row: `hit` is the row, and whether the line with its name was
/// hit.
pub open spec fn settings_hit(
    s: SettingsView,
    options: crate::model::SettingOptions,
    hit: (usize, bool),
    col: u16,
    area: Rect,
    double: bool,
) -> SettingsView {
    if hit.1 && is_checkbox(setting_value(s.draft, options, hit.0)) && on_switch(col, area) {
        SettingsView {
            selected: hit.0,
            draft: flipped(s.draft, hit.0),
            modified: true,
            ..s
        }
    } else if double {
        SettingsView { selected: hit.0, editing: true, ..s }
    } else {
        SettingsView { selected: hit.0, ..s }
    }
}

pub open spec fn settings_mode(s: SettingsView) -> ModeView {
    ModeView::Settings {
        selected: s.selected,
        editing: s.editing,
        draft: s.draft,
        modified: s.modified,
    }
}

fn hit_switch(col: u16, area: Rect) -> (r: bool)
    ensures
        r == on_switch(col, area),
{
    let x: usize = (col as usize).saturating_sub(area.x as usize + 1);
    x + 10 >= area.width.saturating_sub(4) as usize
}

fn hit_settings(
    s: SettingsState,
    options: &crate::model::SettingOptions,
    hit: (usize, bool),
    col: u16,
    area: Rect,
    double: bool,
) -> (r: SettingsState)
    ensures
        r@ == settings_hit(s@, *options, hit, col, area, double),
{
    let value: String = value_of(&s.draft, options, hit.0);
    if hit.1 && shows_switch(value.as_str()) && hit_switch(col, area) {
        let mut draft: TuiConfig = s.draft;
        flip_setting(&mut draft, hit.0);
        return SettingsState { selected: hit.0, editing: s.editing, draft, modified: true };
    }
    if double {
        return SettingsState {
            selected: hit.0,
            editing: true,
            draft: s.draft,
            modified: s.modified,
        };
    }
    SettingsState { selected: hit.0, editing: s.editing, draft: s.draft, modified: s.modified }
}

/// A dialog after a click that none of its lists took: only the settings know rows of their own.
pub open spec fn mode_clicked(
    mode: ModeView,
    options: crate::model::SettingOptions,
    hit: Option<(usize, bool)>,
    col: u16,
    row: u16,
    area: Rect,
    double: bool,
) -> ModeView {
    match mode {
        ModeView::Settings { selected, editing, draft, modified } => match hit {
            Some(h) => if area.holds(col, row) && !editing {
                settings_mode(
                    settings_hit(
                        SettingsView { selected, editing, draft, modified },
                        options,
                        h,
                        col,
                        area,
                        double,
                    ),
                )
            } else {
                mode
            },
            None => mode,
        },
        _ => mode,
    }
}

fn click_mode(
    mode: InputMode,
    options: &crate::model::SettingOptions,
    hit: Option<(usize, bool)>,
    col: u16,
    row: u16,
    area: Rect,
    double: bool,
) -> (r: InputMode)
    ensures
        r@ == mode_clicked(mode@, *options, hit, col, row, area, double),
{
    match mode {
        InputMode::Settings { selected, editing, draft, modified } => {
            match hit {
                Some(h) => {
                    if is_in_rect(col, row, area) && !editing {
                        let s: SettingsState = SettingsState {
                            selected,
                            editing,
                            draft,
                            modified,
                        };
                        let s: SettingsState = hit_settings(s, options, h, col, area, double);
                        return InputMode::Settings {
                            selected: s.selected,
                            editing: s.editing,
                            draft: s.draft,
                            modified: s.modified,
                        };
                    }
                },
                None => {},
            }
            return InputMode::Settings { selected, editing, draft, modified };
        },
        other => {
            return other;
        },
    }
}

/// The entry under row `row` of a pane that shows the entries from `offset` on.
pub open spec fn pane_index(row: u16, area: Rect, offset: usize) -> int {
    offset + (row - area.y - 1)
}

fn index_in_pane(row: u16, area: Rect, offset: usize, len: usize) -> (r: Option<usize>)
    requires
        area.y < row,
    ensures
        match r {
            Some(i) => i == pane_index(row, area, offset) && i < len,
            None => pane_index(row, area, offset) >= len,
        },
{
    let down: usize = (row - area.y - 1) as usize;
    if offset < len && down < len - offset {
        Some(offset + down)
    } else {
        None
    }
}

pub open spec fn is_folder_entry(e: Option<Entry>) -> bool {
    e is Some && e->0.kind == EntryKind::Folder
}

impl AppView {
    pub open spec fn no_mods() -> KeyModifiers {
        KeyModifiers { control: false, alt: false }
    }

    pub open spec fn logs_at(self, logs_scroll: Option<usize>) -> AppView {
        AppView { logs_scroll, ..self }
    }

    pub open spec fn logs_scrolled(self, up: bool) -> AppView {
        let area = self.screen.logs_overlay_area;
        let width = max_int(area.width - 2, 1) as nat;
        let max = scroll_room(wrapped_all(self.logs, width).len(), area.height);
        self.logs_at(logs_wheeled(self.logs_scroll, up, max))
    }

    pub open spec fn current_scrolled(self, up: bool) -> AppView {
        let new = if !up && self.entries.len() == 0 {
            0
        } else {
            wheeled(self.selected, up, self.entries.len(), WHEEL_STEP as int)
        };
        if new != self.selected {
            self.selecting(new as int)
        } else {
            self
        }
    }

    pub open spec fn parent_at(self, i: usize) -> AppView {
        AppView { parent_selected: i, ..self }
    }

    pub open spec fn preview_at(self, i: usize) -> AppView {
        AppView { preview_scroll: i, ..self }
    }

    pub open spec fn preview_scrolled(self, up: bool) -> AppView {
        let max = scroll_room(
            preview_rows(self.preview_state),
            self.screen.preview_pane_area.height,
        );
        if up {
            self.preview_at(max_int(self.preview_scroll - 1, 0) as usize)
        } else if self.preview_scroll < max {
            self.preview_at((self.preview_scroll + 1) as usize)
        } else {
            self
        }
    }

    /// Whether a cell is covered by the logs.
    pub open spec fn logs_cover(self, col: u16, row: u16) -> bool {
        self.show_logs_overlay && self.screen.logs_overlay_area.holds(col, row)
    }

    pub open spec fn panes_scrolled(self, col: u16, row: u16, up: bool) -> AppView {
        if self.logs_cover(col, row) {
            self.logs_scrolled(up)
        } else if self.screen.current_pane_area.holds(col, row) {
            self.current_scrolled(up)
        } else if self.screen.parent_pane_area.holds(col, row) {
            self.parent_at(
                wheeled(self.parent_selected, up, self.parent_entries.len(), WHEEL_STEP as int),
            )
        } else if self.screen.preview_pane_area.holds(col, row) {
            self.preview_scrolled(up)
        } else {
            self
        }
    }

    pub open spec fn cart_at(self, i: usize) -> AppView {
        AppView { cart_selected: i, ..self }
    }

    pub open spec fn downloads_at(self, i: usize) -> AppView {
        AppView { downloads_selected: i, ..self }
    }

    /// With the selection of the trash kept for when it is opened again.
    pub open spec fn trash_row_kept(self) -> AppView {
        match self.input {
            ModeView::TrashView { selected, .. } => AppView { trash_selected: selected, ..self },
            _ => self,
        }
    }

    pub open spec fn dialog_scrolled(self, up: bool) -> AppView {
        match self.input {
            ModeView::CartView => self.cart_at(
                wheeled(self.cart_selected, up, self.cart.len(), 1),
            ),
            ModeView::DownloadView => self.downloads_at(
                wheeled(self.downloads_selected, up, self.downloads.len(), 1),
            ),
            _ => self.in_mode(mode_wheeled(self.input, up)).trash_row_kept(),
        }
    }

    /// The interface after a notch of the wheel.
    pub open spec fn scrolled(self, col: u16, row: u16, up: bool) -> AppView {
        if self.input is Normal {
            self.panes_scrolled(col, row, up)
        } else {
            self.dialog_scrolled(up)
        }
    }

    /// Whether a click is the second of a double click.
    pub open spec fn is_double_click(self, col: u16, row: u16) -> bool {
        passed(self.clock.now, self.clock.last_click_time) < DOUBLE_CLICK_MILLIS
            && self.last_click_pos == (col, row)
    }

    pub open spec fn click_noted(self, col: u16, row: u16) -> AppView {
        AppView {
            clock: Clock { last_click_time: self.clock.now, ..self.clock },
            last_click_pos: (col, row),
            ..self
        }
    }

    /// The entry of the list in a dialog that lies under a cell.
    pub open spec fn row_under(self, col: u16, row: u16) -> Option<usize> {
        list_index(
            col,
            row,
            self.screen.mouse_list_area,
            self.screen.mouse_list_first_row,
            self.screen.mouse_list_offset,
            self.screen.mouse_list_visible,
        )
    }

    /// Whether a click on row `i` selects something.
    pub open spec fn takes_row(self, i: usize) -> bool {
        match self.input {
            ModeView::CartView => i < self.cart.len(),
            ModeView::DownloadView => self.downloads_expanded && i < self.downloads.len(),
            _ => mode_has_row(self.input, i),
        }
    }

    pub open spec fn row_taken(self, i: usize) -> AppView {
        match self.input {
            ModeView::CartView => self.cart_at(i),
            ModeView::DownloadView => self.downloads_at(i),
            _ => self.in_mode(mode_at_row(self.input, i)).trash_row_kept(),
        }
    }

    /// Whether a double click on a row does what Enter does there.
    pub open spec fn row_activates(self) -> bool {
        self.input is CartView || self.input is TrashView || self.input is PlayPicker
            || self.input is ActionMenu
    }

    pub open spec fn row_clicked(self, i: usize, double: bool) -> AppView {
        if double && self.row_activates() {
            self.row_taken(i).key_handled(KeyCode::Enter, AppView::no_mods())
        } else {
            self.row_taken(i)
        }
    }

    pub open spec fn pressed(self, code: KeyCode) -> AppView {
        self.acted(binding(code, AppView::no_mods()))
    }

    pub open spec fn current_clicked(self, row: u16, double: bool) -> AppView {
        let i = pane_index(row, self.screen.current_pane_area, self.screen.scroll_offset);
        if i >= self.entries.len() {
            self
        } else if double {
            self.selecting(i).pressed(KeyCode::Enter)
        } else {
            self.selecting(i)
        }
    }

    /// With the selected entry opened where it is a folder.
    pub open spec fn selected_folder_opened(self) -> AppView {
        if is_folder_entry(self.current()) {
            self.pressed(KeyCode::Enter)
        } else {
            self
        }
    }

    pub open spec fn parent_clicked(self, row: u16, double: bool) -> AppView {
        let i = pane_index(row, self.screen.parent_pane_area, self.screen.parent_scroll_offset);
        if i >= self.parent_entries.len() {
            self
        } else if double {
            self.parent_at(i as usize).pressed(KeyCode::Backspace).selected_folder_opened()
        } else {
            self.parent_at(i as usize)
        }
    }

    /// A double click on the preview opens a folder, and the details of a file.
    pub open spec fn preview_clicked(self) -> AppView {
        if self.current() is None {
            self
        } else if is_folder_entry(self.current()) {
            self.pressed(KeyCode::Enter)
        } else {
            self.pressed(KeyCode::Char(' '))
        }
    }

    pub open spec fn panes_clicked(self, col: u16, row: u16, double: bool) -> AppView {
        if self.screen.current_pane_area.holds_inside(col, row) {
            self.current_clicked(row, double)
        } else if self.screen.parent_pane_area.holds_inside(col, row) {
            self.parent_clicked(row, double)
        } else if self.screen.preview_pane_area.holds(col, row) && double {
            self.preview_clicked()
        } else {
            self
        }
    }

    /// The interface after a click of the left button where no list takes it.
    pub open spec fn clicked_beside(
        self,
        col: u16,
        row: u16,
        double: bool,
        hit: Option<(usize, bool)>,
    ) -> AppView {
        if self.input is Normal {
            self.panes_clicked(col, row, double)
        } else {
            self.in_mode(
                mode_clicked(
                    self.input,
                    self.options,
                    hit,
                    col,
                    row,
                    self.screen.settings_area,
                    double,
                ),
            )
        }
    }

    /// The interface after a click of the left button. It closes the help where that is shown, and
    /// does not go through the logs.
    pub open spec fn clicked(
        self,
        col: u16,
        row: u16,
        double: bool,
        hit: Option<(usize, bool)>,
    ) -> AppView {
        if self.show_help_sheet {
            self.help_closed()
        } else if self.logs_cover(col, row) {
            self
        } else {
            match self.row_under(col, row) {
                Some(i) => if self.takes_row(i) {
                    self.row_clicked(i, double)
                } else {
                    self.clicked_beside(col, row, double, hit)
                },
                None => self.clicked_beside(col, row, double, hit),
            }
        }
    }

    /// What the mouse does while the help is shown: the wheel scrolls it, and a click closes it.
    pub open spec fn help_moused(self, kind: MouseEventKind) -> AppView {
        match kind {
            MouseEventKind::ScrollUp => self.help_at(max_int(self.help_scroll - 3, 0)),
            MouseEventKind::ScrollDown => self.help_at(
                min_int(self.help_scroll + 3, self.screen.help_scroll_max as int),
            ),
            MouseEventKind::LeftDown => self.help_closed(),
            MouseEventKind::OtherDown => self.help_closed(),
            MouseEventKind::Other => self,
        }
    }

    /// The interface after a mouse event. `hit` is the row of the settings under the mouse, and
    /// whether its line with the name is meant.
    pub open spec fn moused(self, e: MouseEvent, hit: Option<(usize, bool)>) -> AppView {
        if self.show_help_sheet {
            self.help_moused(e.kind)
        } else {
            let a = self.attended();
            match e.kind {
                MouseEventKind::ScrollUp => a.scrolled(e.column, e.row, true),
                MouseEventKind::ScrollDown => a.scrolled(e.column, e.row, false),
                MouseEventKind::LeftDown => a.click_noted(e.column, e.row).clicked(
                    e.column,
                    e.row,
                    a.is_double_click(e.column, e.row),
                    hit,
                ),
                _ => a,
            }
        }
    }
}

impl App {
    fn put_logs(&mut self, at: Option<usize>)
        ensures
            final(self)@ == old(self)@.logs_at(at),
    {
        self.logs_scroll = at;
    }

    fn scroll_logs(&mut self, up: bool)
        ensures
            final(self)@ == old(self)@.logs_scrolled(up),
    {
        let area: Rect = self.screen.logs_overlay_area;
        let inner: u16 = area.width.saturating_sub(2);
        let width: usize = if inner < 1 {
            1
        } else {
            inner as usize
        };
        let lines: Vec<String> = wrap_logs(&self.logs, width);
        assert(lines@.len() == texts(lines@).len());
        let max: usize = room(lines.len(), area.height);
        let at: Option<usize> = wheel_logs(self.logs_scroll, up, max);
        self.put_logs(at);
    }

    fn scroll_current(&mut self, up: bool)
        ensures
            final(self)@ == old(self)@.current_scrolled(up),
    {
        let to: usize = if !up && self.entries.len() == 0 {
            0
        } else {
            wheel(self.selected, up, self.entries.len(), WHEEL_STEP)
        };
        if to != self.selected {
            self.select(to);
            return;
        }
    }

    fn put_parent(&mut self, i: usize)
        ensures
            final(self)@ == old(self)@.parent_at(i),
    {
        self.parent_selected = i;
    }

    fn put_preview(&mut self, i: usize)
        ensures
            final(self)@ == old(self)@.preview_at(i),
    {
        self.preview_scroll = i;
    }

    fn scroll_preview(&mut self, up: bool)
        ensures
            final(self)@ == old(self)@.preview_scrolled(up),
    {
        let at: usize = self.preview_scroll;
        if up {
            self.put_preview(at.saturating_sub(1));
            return;
        }
        let rows: usize = count_preview_rows(&self.preview_state);
        let max: usize = room(rows, self.screen.preview_pane_area.height);
        if at < max {
            self.put_preview(at + 1);
            return;
        }
    }

    fn covered_by_logs(&self, col: u16, row: u16) -> (r: bool)
        ensures
            r == self@.logs_cover(col, row),
    {
        self.show_logs_overlay && is_in_rect(col, row, self.screen.logs_overlay_area)
    }

    fn scroll_panes(&mut self, col: u16, row: u16, up: bool)
        ensures
            final(self)@ == old(self)@.panes_scrolled(col, row, up),
    {
        if self.covered_by_logs(col, row) {
            self.scroll_logs(up);
            return;
        }
        if is_in_rect(col, row, self.screen.current_pane_area) {
            self.scroll_current(up);
            return;
        }
        if is_in_rect(col, row, self.screen.parent_pane_area) {
            let to: usize = wheel(
                self.parent_selected,
                up,
                self.parent_entries.len(),
                WHEEL_STEP,
            );
            self.put_parent(to);
            return;
        }
        if is_in_rect(col, row, self.screen.preview_pane_area) {
            self.scroll_preview(up);
            return;
        }
    }

    fn put_cart(&mut self, i: usize)
        ensures
            final(self)@ == old(self)@.cart_at(i),
    {
        self.cart_selected = i;
    }

    fn put_downloads(&mut self, i: usize)
        ensures
            final(self)@ == old(self)@.downloads_at(i),
    {
        self.downloads_selected = i;
    }

    fn put_trash(&mut self, i: usize)
        ensures
            final(self)@ == (AppView { trash_selected: i, ..old(self)@ }),
    {
        self.trash_selected = i;
    }

    fn keep_trash_row(&mut self)
        ensures
            final(self)@ == old(self)@.trash_row_kept(),
    {
        let at: Option<usize> = match &self.input {
            InputMode::TrashView { entries: _, selected, expanded: _ } => Some(*selected),
            _ => None,
        };
        match at {
            Some(i) => {
                self.put_trash(i);
                return;
            },
            None => {
                return;
            },
        }
    }

    fn wheel_dialog(&mut self, up: bool)
        ensures
            final(self)@ == old(self)@.in_mode(
                mode_wheeled(old(self)@.input, up),
            ).trash_row_kept(),
    {
        let mode: InputMode = self.take_mode();
        let mode: InputMode = wheel_mode(mode, up);
        self.set_mode(mode);
        self.keep_trash_row();
    }

    fn scroll_dialog(&mut self, up: bool)
        ensures
            final(self)@ == old(self)@.dialog_scrolled(up),
    {
        match &self.input {
            InputMode::CartView => {
                let to: usize = wheel(self.cart_selected, up, self.cart.len(), 1);
                self.put_cart(to);
                return;
            },
            InputMode::DownloadView => {
                let to: usize = wheel(self.downloads_selected, up, self.downloads.len(), 1);
                self.put_downloads(to);
                return;
            },
            _ => {
                self.wheel_dialog(up);
                return;
            },
        }
    }

    fn browsing(&self) -> (r: bool)
        ensures
            r == (self@.input is Normal),
    {
        match &self.input {
            InputMode::Normal => true,
            _ => false,
        }
    }

    pub fn handle_mouse_scroll(&mut self, col: u16, row: u16, up: bool)
        ensures
            final(self)@ == old(self)@.scrolled(col, row, up),
    {
        if self.browsing() {
            self.scroll_panes(col, row, up);
            return;
        }
        self.scroll_dialog(up);
    }

    /// Notes a click, and tells whether it is the second of a double click.
    pub fn check_double_click(&mut self, col: u16, row: u16) -> (double: bool)
        ensures
            double == old(self)@.is_double_click(col, row),
            final(self)@ == old(self)@.click_noted(col, row),
    {
        let double: bool = self.clock.now.saturating_sub(self.clock.last_click_time)
            < DOUBLE_CLICK_MILLIS && self.last_click_pos.0 == col && self.last_click_pos.1 == row;
        self.clock.last_click_time = self.clock.now;
        self.last_click_pos = (col, row);
        double
    }

    fn find_row(&self, col: u16, row: u16) -> (r: Option<usize>)
        ensures
            r == self@.row_under(col, row),
    {
        mouse_list_index(
            col,
            row,
            self.screen.mouse_list_area,
            self.screen.mouse_list_first_row,
            self.screen.mouse_list_offset,
            self.screen.mouse_list_visible,
        )
    }

    fn can_take_row(&self, i: usize) -> (r: bool)
        ensures
            r == self@.takes_row(i),
    {
        match &self.input {
            InputMode::CartView => i < self.cart.len(),
            InputMode::DownloadView => self.downloads_expanded && i < self.downloads.len(),
            other => has_row(other, i),
        }
    }

    fn put_row(&mut self, i: usize)
        ensures
            final(self)@ == old(self)@.in_mode(mode_at_row(old(self)@.input, i)).trash_row_kept(),
    {
        let mode: InputMode = self.take_mode();
        let mode: InputMode = at_row(mode, i);
        self.set_mode(mode);
        self.keep_trash_row();
    }

    fn take_row(&mut self, i: usize)
        ensures
            final(self)@ == old(self)@.row_taken(i),
    {
        match &self.input {
            InputMode::CartView => {
                self.put_cart(i);
                return;
            },
            InputMode::DownloadView => {
                self.put_downloads(i);
                return;
            },
            _ => {
                self.put_row(i);
                return;
            },
        }
    }

    fn activates_rows(&self) -> (r: bool)
        ensures
            r == self@.row_activates(),
    {
        match &self.input {
            InputMode::CartView => true,
            InputMode::TrashView { .. } => true,
            InputMode::PlayPicker { .. } => true,
            InputMode::ActionMenu { .. } => true,
            _ => false,
        }
    }

    fn click_row(&mut self, i: usize, double: bool)
        ensures
            final(self)@ == old(self)@.row_clicked(i, double),
    {
        if double && self.activates_rows() {
            self.take_row(i);
            self.handle_key(KeyCode::Enter, KeyModifiers::none());
            return;
        }
        self.take_row(i);
    }

    fn press(&mut self, code: KeyCode)
        ensures
            final(self)@ == old(self)@.pressed(code),
    {
        self.handle_normal_key(code, KeyModifiers::none());
    }

    fn click_current(&mut self, row: u16, double: bool)
        requires
            old(self)@.screen.current_pane_area.y < row,
        ensures
            final(self)@ == old(self)@.current_clicked(row, double),
    {
        let found: Option<usize> = index_in_pane(
            row,
            self.screen.current_pane_area,
            self.screen.scroll_offset,
            self.entries.len(),
        );
        match found {
            Some(i) => {
                if double {
                    self.select(i);
                    self.press(KeyCode::Enter);
                    return;
                }
                self.select(i);
                return;
            },
            None => {
                return;
            },
        }
    }

    fn at_folder(&self) -> (r: bool)
        ensures
            r == is_folder_entry(self@.current()),
    {
        match self.current_entry() {
            Some(e) => e.kind == EntryKind::Folder,
            None => false,
        }
    }

    fn enter_selected_folder(&mut self)
        ensures
            final(self)@ == old(self)@.selected_folder_opened(),
    {
        if self.at_folder() {
            self.press(KeyCode::Enter);
            return;
        }
    }

    fn click_parent(&mut self, row: u16, double: bool)
        requires
            old(self)@.screen.parent_pane_area.y < row,
        ensures
            final(self)@ == old(self)@.parent_clicked(row, double),
    {
        let found: Option<usize> = index_in_pane(
            row,
            self.screen.parent_pane_area,
            self.screen.parent_scroll_offset,
            self.parent_entries.len(),
        );
        match found {
            Some(i) => {
                if double {
                    self.put_parent(i);
                    self.press(KeyCode::Backspace);
                    self.enter_selected_folder();
                    return;
                }
                self.put_parent(i);
                return;
            },
            None => {
                return;
            },
        }
    }

    fn click_preview(&mut self)
        ensures
            final(self)@ == old(self)@.preview_clicked(),
    {
        if self.selected >= self.entries.len() {
            return;
        }
        if self.at_folder() {
            self.press(KeyCode::Enter);
            return;
        }
        self.press(KeyCode::Char(' '));
    }

    fn click_panes(&mut self, col: u16, row: u16, double: bool)
        ensures
            final(self)@ == old(self)@.panes_clicked(col, row, double),
    {
        if is_in_content(col, row, self.screen.current_pane_area) {
            self.click_current(row, double);
            return;
        }
        if is_in_content(col, row, self.screen.parent_pane_area) {
            self.click_parent(row, double);
            return;
        }
        if is_in_rect(col, row, self.screen.preview_pane_area) && double {
            self.click_preview();
            return;
        }
    }

    fn click_dialog(&mut self, col: u16, row: u16, double: bool, hit: Option<(usize, bool)>)
        ensures
            final(self)@ == old(self)@.in_mode(
                mode_clicked(
                    old(self)@.input,
                    old(self)@.options,
                    hit,
                    col,
                    row,
                    old(self)@.screen.settings_area,
                    double,
                ),
            ),
    {
        let area: Rect = self.screen.settings_area;
        let mode: InputMode = self.take_mode();
        let mode: InputMode = click_mode(mode, &self.options, hit, col, row, area, double);
        self.set_mode(mode);
    }

    fn click_beside(&mut self, col: u16, row: u16, double: bool, hit: Option<(usize, bool)>)
        ensures
            final(self)@ == old(self)@.clicked_beside(col, row, double, hit),
    {
        if self.browsing() {
            self.click_panes(col, row, double);
            return;
        }
        self.click_dialog(col, row, double, hit);
    }

    pub fn handle_mouse_click(
        &mut self,
        col: u16,
        row: u16,
        double: bool,
        hit: Option<(usize, bool)>,
    )
        ensures
            final(self)@ == old(self)@.clicked(col, row, double, hit),
    {
        if self.show_help_sheet {
            self.close_help();
            return;
        }
        if self.covered_by_logs(col, row) {
            return;
        }
        match self.find_row(col, row) {
            Some(i) => {
                if self.can_take_row(i) {
                    self.click_row(i, double);
                    return;
                }
                self.click_beside(col, row, double, hit);
                return;
            },
            None => {
                self.click_beside(col, row, double, hit);
                return;
            },
        }
    }

    fn put_help(&mut self, to: usize)
        ensures
            final(self)@ == old(self)@.help_at(to as int),
    {
        self.help_scroll = to;
    }

    fn mouse_over_help(&mut self, kind: MouseEventKind)
        ensures
            final(self)@ == old(self)@.help_moused(kind),
    {
        match kind {
            MouseEventKind::ScrollUp => {
                let to: usize = self.help_scroll.saturating_sub(3);
                self.put_help(to);
                return;
            },
            MouseEventKind::ScrollDown => {
                let to: usize = scrolled_down(self.help_scroll, 3, self.screen.help_scroll_max);
                self.put_help(to);
                return;
            },
            MouseEventKind::LeftDown => {
                self.close_help();
                return;
            },
            MouseEventKind::OtherDown => {
                self.close_help();
                return;
            },
            MouseEventKind::Other => {
                return;
            },
        }
    }

    /// Handles a mouse event. `hit` is the row of the settings under the mouse as they are drawn, and
    /// whether the line with its name is hit.
    pub fn handle_mouse(&mut self, e: MouseEvent, hit: Option<(usize, bool)>)
        ensures
            final(self)@ == old(self)@.moused(e, hit),
    {
        if self.show_help_sheet {
            self.mouse_over_help(e.kind);
            return;
        }
        self.attend();
        match e.kind {
            MouseEventKind::ScrollUp => {
                self.handle_mouse_scroll(e.column, e.row, true);
                return;
            },
            MouseEventKind::ScrollDown => {
                self.handle_mouse_scroll(e.column, e.row, false);
                return;
            },
            MouseEventKind::LeftDown => {
                let double: bool = self.check_double_click(e.column, e.row);
                self.handle_mouse_click(e.column, e.row, double, hit);
                return;
            },
            _ => {
                return;
            },
        }
    }
}

} // verus!
