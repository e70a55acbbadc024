//! The keys of the settings and of their pages.

use crate::app::{App, AppView};
use crate::effect::{Effect, EffectView, SavePurpose};
use crate::event::{KeyCode, KeyModifiers};
use crate::geometry::{max_int, min_int};
use crate::model::{
    protocols_view, ConfigView, CustomColors, InputMode, ModeView, SettingOptions, TuiConfig,
};
use crate::navigate::empty_text;
use crate::text::{cat2, is_ascii_digit, is_digit, parse_number, parsed, str_eq, texts, Chars};
use crate::text_input::{offset_of, text_len};
use crate::transfer::{cursor_up, go_up};
use vstd::prelude::*;

verus! {

/// The last row of the settings.
pub const SETTINGS_LAST_INDEX: usize = 16;

pub const SETTINGS_COLOR_SCHEME_INDEX: usize = 2;

pub const SETTINGS_IMAGE_PROTOCOL_INDEX: usize = 9;

pub const SETTINGS_PLAYER_INDEX: usize = 14;

/// The last row of the custom colours.
pub const COLORS_LAST_INDEX: usize = 7;

/// What a key does to the setting that is being edited.
#[derive(Clone, Copy, Debug, PartialEq, Eq, Structural)]
pub enum SettingEdit {
    Flip,
    Prev,
    Next,
    /// End editing.
    Stop,
    /// End editing, or open the page that belongs to the setting.
    Open,
    Type,
    Nothing,
}

/// Whether a row is switched on and off.
pub open spec fn is_switch(row: usize) -> bool {
    row == 0 || row == 3 || row == 5 || row == 6 || row == 11 || row == 13
}

/// What a key does to the setting of a row that is being edited.
pub open spec fn setting_key(row: usize, code: KeyCode) -> SettingEdit {
    let left = code == KeyCode::Left;
    let right = code == KeyCode::Right;
    let enter = code == KeyCode::Enter;
    let esc = code == KeyCode::Esc;
    let space = code == KeyCode::Char(' ');
    if is_switch(row) {
        if space || enter || left || right {
            SettingEdit::Flip
        } else if esc {
            SettingEdit::Stop
        } else {
            SettingEdit::Nothing
        }
    } else if row == 7 {
        if code == KeyCode::Char('+') || code == KeyCode::Up {
            SettingEdit::Next
        } else if code == KeyCode::Char('-') || code == KeyCode::Down {
            SettingEdit::Prev
        } else if enter || esc {
            SettingEdit::Stop
        } else {
            SettingEdit::Nothing
        }
    } else if row == 9 {
        if enter || space || left || right {
            SettingEdit::Open
        } else if esc {
            SettingEdit::Stop
        } else {
            SettingEdit::Nothing
        }
    } else if row == 14 {
        if esc || enter {
            SettingEdit::Stop
        } else {
            SettingEdit::Type
        }
    } else if row == 15 {
        if code == KeyCode::Char('+') || code == KeyCode::Up || right {
            SettingEdit::Next
        } else if code == KeyCode::Char('-') || code == KeyCode::Down || left {
            SettingEdit::Prev
        } else if enter || esc {
            SettingEdit::Stop
        } else {
            SettingEdit::Nothing
        }
    } else if row == 16 {
        if right || code == KeyCode::Char('+') || code == KeyCode::Char('l') {
            SettingEdit::Next
        } else if left || code == KeyCode::Char('-') || code == KeyCode::Char('h') {
            SettingEdit::Prev
        } else if enter || esc {
            SettingEdit::Stop
        } else {
            SettingEdit::Nothing
        }
    } else if row <= 16 {
        if left {
            SettingEdit::Prev
        } else if right {
            SettingEdit::Next
        } else if enter {
            if row == 2 {
                SettingEdit::Open
            } else {
                SettingEdit::Stop
            }
        } else if esc {
            SettingEdit::Stop
        } else {
            SettingEdit::Nothing
        }
    } else {
        SettingEdit::Nothing
    }
}

fn row_is_switch(row: usize) -> (r: bool)
    ensures
        r == is_switch(row),
{
    row == 0 || row == 3 || row == 5 || row == 6 || row == 11 || row == 13
}

fn setting_edit(row: usize, code: KeyCode) -> (r: SettingEdit)
    ensures
        r == setting_key(row, code),
{
    let left: bool = code == KeyCode::Left;
    let right: bool = code == KeyCode::Right;
    let enter: bool = code == KeyCode::Enter;
    let esc: bool = code == KeyCode::Esc;
    let space: bool = code == KeyCode::Char(' ');
    if row_is_switch(row) {
        if space || enter || left || right {
            SettingEdit::Flip
        } else if esc {
            SettingEdit::Stop
        } else {
            SettingEdit::Nothing
        }
    } else if row == 7 {
        if code == KeyCode::Char('+') || code == KeyCode::Up {
            SettingEdit::Next
        } else if code == KeyCode::Char('-') || code == KeyCode::Down {
            SettingEdit::Prev
        } else if enter || esc {
            SettingEdit::Stop
        } else {
            SettingEdit::Nothing
        }
    } else if row == 9 {
        if enter || space || left || right {
            SettingEdit::Open
        } else if esc {
            SettingEdit::Stop
        } else {
            SettingEdit::Nothing
        }
    } else if row == 14 {
        if esc || enter {
            SettingEdit::Stop
        } else {
            SettingEdit::Type
        }
    } else if row == 15 {
        if code == KeyCode::Char('+') || code == KeyCode::Up || right {
            SettingEdit::Next
        } else if code == KeyCode::Char('-') || code == KeyCode::Down || left {
            SettingEdit::Prev
        } else if enter || esc {
            SettingEdit::Stop
        } else {
            SettingEdit::Nothing
        }
    } else if row == 16 {
        if right || code == KeyCode::Char('+') || code == KeyCode::Char('l') {
            SettingEdit::Next
        } else if left || code == KeyCode::Char('-') || code == KeyCode::Char('h') {
            SettingEdit::Prev
        } else if enter || esc {
            SettingEdit::Stop
        } else {
            SettingEdit::Nothing
        }
    } else if row <= 16 {
        if left {
            SettingEdit::Prev
        } else if right {
            SettingEdit::Next
        } else if enter {
            if row == 2 {
                SettingEdit::Open
            } else {
                SettingEdit::Stop
            }
        } else if esc {
            SettingEdit::Stop
        } else {
            SettingEdit::Nothing
        }
    } else {
        SettingEdit::Nothing
    }
}

/// The settings with the switch of a row turned over.
pub open spec fn flipped(d: ConfigView, row: usize) -> ConfigView {
    if row == 0 {
        ConfigView { nerd_font: !d.nerd_font, ..d }
    } else if row == 3 {
        ConfigView { show_help_bar: !d.show_help_bar, ..d }
    } else if row == 5 {
        ConfigView { show_preview: !d.show_preview, ..d }
    } else if row == 6 {
        ConfigView { lazy_preview: !d.lazy_preview, ..d }
    } else if row == 11 {
        ConfigView { sort_reverse: !d.sort_reverse, ..d }
    } else if row == 13 {
        ConfigView { cli_nerd_font: !d.cli_nerd_font, ..d }
    } else {
        d
    }
}

pub fn flip_setting(d: &mut TuiConfig, row: usize)
    ensures
        final(d)@ == flipped(old(d)@, row),
{
    if row == 0 {
        d.nerd_font = !d.nerd_font;
        return;
    }
    if row == 3 {
        d.show_help_bar = !d.show_help_bar;
        return;
    }
    if row == 5 {
        d.show_preview = !d.show_preview;
        return;
    }
    if row == 6 {
        d.lazy_preview = !d.lazy_preview;
        return;
    }
    if row == 11 {
        d.sort_reverse = !d.sort_reverse;
        return;
    }
    if row == 13 {
        d.cli_nerd_font = !d.cli_nerd_font;
        return;
    }
}

/// The settings with the option of a row moved on.
pub open spec fn moved_on(d: ConfigView, row: usize, o: SettingOptions) -> ConfigView {
    if row == 1 {
        ConfigView { border_style: o.border_style.after(d.border_style), ..d }
    } else if row == 2 {
        ConfigView { color_scheme: o.color_scheme.after(d.color_scheme), ..d }
    } else if row == 4 {
        ConfigView { quota_bar_style: o.quota_bar_style.after(d.quota_bar_style), ..d }
    } else if row == 7 {
        ConfigView {
            preview_max_size: min_int(d.preview_max_size + 1024, 10485760) as u64,
            ..d
        }
    } else if row == 8 {
        ConfigView { thumbnail_mode: o.thumbnail_mode.after(d.thumbnail_mode), ..d }
    } else if row == 10 {
        ConfigView { sort_field: o.sort_field.after(d.sort_field), ..d }
    } else if row == 12 {
        ConfigView { use_picker: !d.use_picker, ..d }
    } else if row == 15 {
        ConfigView { download_jobs: min_int(d.download_jobs + 1, 16) as usize, ..d }
    } else if row == 16 {
        ConfigView { update_check: o.update_check.after(d.update_check), ..d }
    } else {
        d
    }
}

fn move_on(d: &mut TuiConfig, row: usize, o: &SettingOptions)
    ensures
        final(d)@ == moved_on(old(d)@, row, *o),
{
    if row == 1 {
        d.border_style = o.border_style.next_of(d.border_style);
        return;
    }
    if row == 2 {
        d.color_scheme = o.color_scheme.next_of(d.color_scheme);
        return;
    }
    if row == 4 {
        d.quota_bar_style = o.quota_bar_style.next_of(d.quota_bar_style);
        return;
    }
    if row == 7 {
        let more: u64 = d.preview_max_size.saturating_add(1024);
        d.preview_max_size = if more < 10485760 { more } else { 10485760 };
        return;
    }
    if row == 8 {
        d.thumbnail_mode = o.thumbnail_mode.next_of(d.thumbnail_mode);
        return;
    }
    if row == 10 {
        d.sort_field = o.sort_field.next_of(d.sort_field);
        return;
    }
    if row == 12 {
        d.use_picker = !d.use_picker;
        return;
    }
    if row == 15 {
        let more: usize = d.download_jobs.saturating_add(1);
        d.download_jobs = if more < 16 { more } else { 16 };
        return;
    }
    if row == 16 {
        d.update_check = o.update_check.next_of(d.update_check);
        return;
    }
}

/// The settings with the option of a row moved back.
pub open spec fn moved_back(d: ConfigView, row: usize, o: SettingOptions) -> ConfigView {
    if row == 1 {
        ConfigView { border_style: o.border_style.before(d.border_style), ..d }
    } else if row == 2 {
        ConfigView { color_scheme: o.color_scheme.before(d.color_scheme), ..d }
    } else if row == 4 {
        ConfigView { quota_bar_style: o.quota_bar_style.before(d.quota_bar_style), ..d }
    } else if row == 7 {
        ConfigView {
            preview_max_size: max_int(d.preview_max_size - 1024, 1024) as u64,
            ..d
        }
    } else if row == 8 {
        ConfigView { thumbnail_mode: o.thumbnail_mode.before(d.thumbnail_mode), ..d }
    } else if row == 10 {
        ConfigView { sort_field: o.sort_field.before(d.sort_field), ..d }
    } else if row == 12 {
        ConfigView { use_picker: !d.use_picker, ..d }
    } else if row == 15 {
        ConfigView { download_jobs: max_int(d.download_jobs - 1, 1) as usize, ..d }
    } else if row == 16 {
        ConfigView { update_check: o.update_check.before(d.update_check), ..d }
    } else {
        d
    }
}

fn move_back(d: &mut TuiConfig, row: usize, o: &SettingOptions)
    ensures
        final(d)@ == moved_back(old(d)@, row, *o),
{
    if row == 1 {
        d.border_style = o.border_style.prev_of(d.border_style);
        return;
    }
    if row == 2 {
        d.color_scheme = o.color_scheme.prev_of(d.color_scheme);
        return;
    }
    if row == 4 {
        d.quota_bar_style = o.quota_bar_style.prev_of(d.quota_bar_style);
        return;
    }
    if row == 7 {
        let less: u64 = d.preview_max_size.saturating_sub(1024);
        d.preview_max_size = if less > 1024 { less } else { 1024 };
        return;
    }
    if row == 8 {
        d.thumbnail_mode = o.thumbnail_mode.prev_of(d.thumbnail_mode);
        return;
    }
    if row == 10 {
        d.sort_field = o.sort_field.prev_of(d.sort_field);
        return;
    }
    if row == 12 {
        d.use_picker = !d.use_picker;
        return;
    }
    if row == 15 {
        let less: usize = d.download_jobs.saturating_sub(1);
        d.download_jobs = if less > 1 { less } else { 1 };
        return;
    }
    if row == 16 {
        d.update_check = o.update_check.prev_of(d.update_check);
        return;
    }
}

/// The settings page: its row, whether that is being edited, the settings as changed so far, and
/// whether they were changed.
pub struct SettingsState {
    pub selected: usize,
    pub editing: bool,
    pub draft: TuiConfig,
    pub modified: bool,
}

pub struct SettingsView {
    pub selected: usize,
    pub editing: bool,
    pub draft: ConfigView,
    pub modified: bool,
}

impl View for SettingsState {
    type V = SettingsView;

    open spec fn view(&self) -> SettingsView {
        SettingsView {
            selected: self.selected,
            editing: self.editing,
            draft: self.draft@,
            modified: self.modified,
        }
    }
}

impl SettingsView {
    pub open spec fn mode(self) -> ModeView {
        ModeView::Settings {
            selected: self.selected,
            editing: self.editing,
            draft: self.draft,
            modified: self.modified,
        }
    }

    pub open spec fn at(self, selected: usize) -> SettingsView {
        SettingsView { selected, ..self }
    }

    pub open spec fn edit_ended(self) -> SettingsView {
        SettingsView { editing: false, ..self }
    }

    pub open spec fn edit_begun(self) -> SettingsView {
        SettingsView { editing: true, ..self }
    }

    pub open spec fn changed_to(self, draft: ConfigView) -> SettingsView {
        SettingsView { draft, modified: true, ..self }
    }

    /// With another player; an empty one is none.
    pub open spec fn with_player(self, old_player: Chars, player: Chars) -> SettingsView {
        SettingsView {
            draft: ConfigView {
                player: if player.len() == 0 {
                    None
                } else {
                    Some(player)
                },
                ..self.draft
            },
            modified: self.modified || player != old_player,
            ..self
        }
    }

    pub open spec fn player_text(self) -> Chars {
        match self.draft.player {
            Some(p) => p,
            None => Seq::empty(),
        }
    }
}

impl SettingsState {
    fn into_mode(self) -> (r: InputMode)
        ensures
            r@ == self@.mode(),
    {
        InputMode::Settings {
            selected: self.selected,
            editing: self.editing,
            draft: self.draft,
            modified: self.modified,
        }
    }
}

/// What a key of the settings leads to, beside changing them.
#[derive(Clone, Copy, Debug, PartialEq, Eq, Structural)]
pub enum SettingsStep {
    Stay,
    OpenColors,
    OpenProtocols,
    Save,
    Close,
}

/// The settings page after a key, when a player that is being typed becomes `typed`.
pub open spec fn settings_after(
    s: SettingsView,
    code: KeyCode,
    o: SettingOptions,
    typed: Chars,
) -> (SettingsView, SettingsStep) {
    if s.editing {
        match setting_key(s.selected, code) {
            SettingEdit::Flip => (
                s.changed_to(flipped(s.draft, s.selected)).edit_ended(),
                SettingsStep::Stay,
            ),
            SettingEdit::Prev => (
                s.changed_to(moved_back(s.draft, s.selected, o)),
                SettingsStep::Stay,
            ),
            SettingEdit::Next => (
                s.changed_to(moved_on(s.draft, s.selected, o)),
                SettingsStep::Stay,
            ),
            SettingEdit::Stop => (s.edit_ended(), SettingsStep::Stay),
            SettingEdit::Open => if s.selected == SETTINGS_IMAGE_PROTOCOL_INDEX {
                (s, SettingsStep::OpenProtocols)
            } else if s.draft.color_scheme == o.scheme_custom {
                (s, SettingsStep::OpenColors)
            } else {
                (s.edit_ended(), SettingsStep::Stay)
            },
            SettingEdit::Type => (s.with_player(s.player_text(), typed), SettingsStep::Stay),
            SettingEdit::Nothing => (s, SettingsStep::Stay),
        }
    } else if code == KeyCode::Down || code == KeyCode::Char('j') {
        (
            s.at(min_int(s.selected + 1, SETTINGS_LAST_INDEX as int) as usize),
            SettingsStep::Stay,
        )
    } else if code == KeyCode::Up || code == KeyCode::Char('k') {
        (s.at(cursor_up(s.selected)), SettingsStep::Stay)
    } else if code == KeyCode::Char(' ') || code == KeyCode::Enter {
        if s.selected == SETTINGS_IMAGE_PROTOCOL_INDEX {
            (s, SettingsStep::OpenProtocols)
        } else {
            (s.edit_begun(), SettingsStep::Stay)
        }
    } else if code == KeyCode::Char('s') {
        if s.modified {
            (s, SettingsStep::Save)
        } else {
            (s, SettingsStep::Stay)
        }
    } else if code == KeyCode::Esc {
        (s, SettingsStep::Close)
    } else {
        (s, SettingsStep::Stay)
    }
}

/// Whether a key types into the player.
pub open spec fn types_player(s: SettingsView, code: KeyCode) -> bool {
    s.editing && setting_key(s.selected, code) == SettingEdit::Type
}

/// Whether a key begins to edit the player.
pub open spec fn begins_player(s: SettingsView, code: KeyCode) -> bool {
    !s.editing && s.selected == SETTINGS_PLAYER_INDEX && (code == KeyCode::Char(' ') || code
        == KeyCode::Enter)
}

fn player_of(d: &TuiConfig) -> (r: String)
    ensures
        r@ == (match d@.player {
            Some(p) => p,
            None => Seq::empty(),
        }),
{
    match &d.player {
        Some(p) => p.clone(),
        None => empty_text(),
    }
}

fn put_player(s: SettingsState, player: String) -> (r: SettingsState)
    ensures
        r@ == s@.with_player(s@.player_text(), player@),
{
    let mut t: SettingsState = s;
    let before: String = player_of(&t.draft);
    let changed: bool = !(before == player);
    t.modified = t.modified || changed;
    if player.as_str().is_empty() {
        t.draft.player = None;
        return t;
    }
    t.draft.player = Some(player);
    t
}

fn edit_row(s: SettingsState, code: KeyCode, o: &SettingOptions) -> (r: (
    SettingsState,
    SettingsStep,
))
    requires
        s@.editing,
        !types_player(s@, code),
    ensures
        forall|typed: Chars| (r.0@, r.1) == #[trigger] settings_after(s@, code, *o, typed),
{
    let mut t: SettingsState = s;
    match setting_edit(t.selected, code) {
        SettingEdit::Flip => {
            flip_setting(&mut t.draft, t.selected);
            t.modified = true;
            t.editing = false;
            return (t, SettingsStep::Stay);
        },
        SettingEdit::Prev => {
            move_back(&mut t.draft, t.selected, o);
            t.modified = true;
            return (t, SettingsStep::Stay);
        },
        SettingEdit::Next => {
            move_on(&mut t.draft, t.selected, o);
            t.modified = true;
            return (t, SettingsStep::Stay);
        },
        SettingEdit::Stop => {
            t.editing = false;
            return (t, SettingsStep::Stay);
        },
        SettingEdit::Open => {
            if t.selected == SETTINGS_IMAGE_PROTOCOL_INDEX {
                return (t, SettingsStep::OpenProtocols);
            }
            if t.draft.color_scheme == o.scheme_custom {
                return (t, SettingsStep::OpenColors);
            }
            t.editing = false;
            return (t, SettingsStep::Stay);
        },
        _ => {
            return (t, SettingsStep::Stay);
        },
    }
}

fn browse_rows(s: SettingsState, code: KeyCode, o: &SettingOptions) -> (r: (
    SettingsState,
    SettingsStep,
))
    requires
        !s@.editing,
    ensures
        forall|typed: Chars| (r.0@, r.1) == #[trigger] settings_after(s@, code, *o, typed),
{
    let mut t: SettingsState = s;
    if code == KeyCode::Down || code == KeyCode::Char('j') {
        t.selected = if t.selected < SETTINGS_LAST_INDEX {
            t.selected + 1
        } else {
            SETTINGS_LAST_INDEX
        };
        return (t, SettingsStep::Stay);
    }
    if code == KeyCode::Up || code == KeyCode::Char('k') {
        t.selected = go_up(t.selected);
        return (t, SettingsStep::Stay);
    }
    if code == KeyCode::Char(' ') || code == KeyCode::Enter {
        if t.selected == SETTINGS_IMAGE_PROTOCOL_INDEX {
            return (t, SettingsStep::OpenProtocols);
        }
        t.editing = true;
        return (t, SettingsStep::Stay);
    }
    if code == KeyCode::Char('s') {
        if t.modified {
            return (t, SettingsStep::Save);
        }
        return (t, SettingsStep::Stay);
    }
    if code == KeyCode::Esc {
        return (t, SettingsStep::Close);
    }
    (t, SettingsStep::Stay)
}

impl AppView {
    /// With the cursor where a key of the settings leaves it.
    pub open spec fn settings_cursor(
        self,
        s: SettingsView,
        code: KeyCode,
        modifiers: KeyModifiers,
    ) -> AppView {
        if types_player(s, code) {
            self.typed(s.player_text(), code, modifiers)
        } else if begins_player(s, code) {
            AppView {
                text_cursor: offset_of(s.player_text(), s.player_text().len() as int),
                ..self
            }
        } else {
            self
        }
    }

    /// With the page of the custom colours opened.
    pub open spec fn colors_opened(self, draft: ConfigView, modified: bool) -> AppView {
        self.in_mode(
            ModeView::CustomColorSettings {
                selected: 0,
                draft,
                modified,
                editing_rgb: false,
                rgb_input: Seq::empty(),
                rgb_component: 0,
            },
        )
    }

    pub open spec fn settings_stepped(self, s: SettingsView, step: SettingsStep) -> AppView {
        match step {
            SettingsStep::Stay => self.in_mode(s.mode()),
            SettingsStep::OpenColors => self.colors_opened(s.draft, s.modified),
            SettingsStep::OpenProtocols => self.in_mode(s.mode()).asking(
                EffectView::DetectTerminal,
            ),
            SettingsStep::Save => self.in_mode(s.mode()).asking(
                EffectView::SaveConfig { config: s.draft, purpose: SavePurpose::Settings },
            ),
            SettingsStep::Close => self.in_mode(ModeView::Normal),
        }
    }

    /// What a key of the settings does. Leaving changed settings has to be confirmed.
    #[verifier::opaque]
    pub open spec fn settings_key(
        self,
        s: SettingsView,
        code: KeyCode,
        modifiers: KeyModifiers,
    ) -> AppView {
        if code == KeyCode::Esc && !s.editing && s.modified {
            self.in_mode(
                ModeView::ConfirmDiscardSettings { selected: s.selected, draft: s.draft },
            )
        } else {
            let next = settings_after(
                s,
                code,
                self.options,
                self.typing(s.player_text(), code, modifiers).value,
            );
            self.settings_cursor(s, code, modifiers).settings_stepped(next.0, next.1)
        }
    }

    #[verifier::opaque]
    pub open spec fn discard_key(self, selected: usize, draft: ConfigView, code: KeyCode) -> AppView {
        if code == KeyCode::Char('y') || code == KeyCode::Enter {
            self.in_mode(ModeView::Normal)
        } else if code == KeyCode::Char('n') || code == KeyCode::Esc {
            self.in_mode(
                ModeView::Settings { selected, editing: false, draft, modified: true },
            )
        } else {
            self.in_mode(ModeView::ConfirmDiscardSettings { selected, draft })
        }
    }

    pub open spec fn with_config(self, config: ConfigView) -> AppView {
        AppView { config, ..self }
    }

    /// With saved settings in force: the entries are sorted by them, and more downloads may start.
    pub open spec fn settings_in_force(self, draft: ConfigView) -> AppView {
        self.with_config(draft).resorted().asking(
            EffectView::SetDownloadJobs { jobs: max_int(draft.download_jobs as int, 1) as usize },
        ).asking(EffectView::StartDownloads).logged("Settings saved to config.toml"@).in_mode(
            ModeView::Normal,
        )
    }

    /// Back on the settings, at the row of the page that was saved.
    pub open spec fn page_saved(self, draft: ConfigView, message: Chars, row: usize) -> AppView {
        self.with_config(draft).logged(message).in_mode(
            ModeView::Settings { selected: row, editing: false, draft, modified: false },
        )
    }

    /// After the host wrote the settings, or could not. A page that could not be saved stays open.
    pub open spec fn save_ended(self, purpose: SavePurpose, result: Result<(), String>) -> AppView {
        if purpose == SavePurpose::Silent {
            self
        } else {
            match result {
                Err(e) => self.logged("Failed to save config: "@ + e@),
                Ok(_) => match (purpose, self.input) {
                    (
                        SavePurpose::Settings,
                        ModeView::Settings { draft, .. },
                    ) => self.settings_in_force(draft),
                    (
                        SavePurpose::CustomColors,
                        ModeView::CustomColorSettings { draft, .. },
                    ) => self.page_saved(
                        draft,
                        "Custom colors saved to config.toml"@,
                        SETTINGS_COLOR_SCHEME_INDEX,
                    ),
                    (
                        SavePurpose::ImageProtocols,
                        ModeView::ImageProtocolSettings { draft, .. },
                    ) => self.page_saved(
                        draft,
                        "Image protocol settings saved to config.toml"@,
                        SETTINGS_IMAGE_PROTOCOL_INDEX,
                    ),
                    _ => self,
                },
            }
        }
    }
}

impl App {
    fn type_player(&mut self, s: SettingsState, code: KeyCode, modifiers: KeyModifiers) -> (r:
        SettingsState)
        ensures
            final(self)@ == old(self)@.typed(s@.player_text(), code, modifiers),
            r@ == s@.with_player(
                s@.player_text(),
                old(self)@.typing(s@.player_text(), code, modifiers).value,
            ),
    {
        let player: String = player_of(&s.draft);
        let (player, _done) = self.type_into(player, code, modifiers);
        put_player(s, player)
    }

    fn cursor_behind_player(&mut self, s: &SettingsState)
        ensures
            final(self)@ == (AppView {
                text_cursor: offset_of(s@.player_text(), s@.player_text().len() as int),
                ..old(self)@
            }),
    {
        let player: String = player_of(&s.draft);
        self.text_cursor = text_len(player.as_str());
    }

    fn open_colors(&mut self, draft: TuiConfig, modified: bool)
        ensures
            final(self)@ == old(self)@.colors_opened(draft@, modified),
    {
        self.set_mode(
            InputMode::CustomColorSettings {
                selected: 0,
                draft,
                modified,
                editing_rgb: false,
                rgb_input: empty_text(),
                rgb_component: 0,
            },
        );
    }

    fn step_settings(&mut self, s: SettingsState, step: SettingsStep)
        ensures
            final(self)@ == old(self)@.settings_stepped(s@, step),
    {
        match step {
            SettingsStep::Stay => {
                self.set_mode(s.into_mode());
                return;
            },
            SettingsStep::OpenColors => {
                self.open_colors(s.draft, s.modified);
                return;
            },
            SettingsStep::OpenProtocols => {
                self.set_mode(s.into_mode());
                self.ask(Effect::DetectTerminal);
                return;
            },
            SettingsStep::Save => {
                let config: TuiConfig = s.draft.clone();
                self.set_mode(s.into_mode());
                self.ask(Effect::SaveConfig { config, purpose: SavePurpose::Settings });
                return;
            },
            SettingsStep::Close => {
                self.set_mode(InputMode::Normal);
                return;
            },
        }
    }

    pub fn handle_settings_key(
        &mut self,
        code: KeyCode,
        modifiers: KeyModifiers,
        state: SettingsState,
    )
        ensures
            final(self)@ == old(self)@.settings_key(state@, code, modifiers),
    {
        reveal(AppView::settings_key);
        if code == KeyCode::Esc && !state.editing && state.modified {
            self.set_mode(
                InputMode::ConfirmDiscardSettings { selected: state.selected, draft: state.draft },
            );
            return;
        }
        if state.editing {
            if setting_edit(state.selected, code) == SettingEdit::Type {
                let next: SettingsState = self.type_player(state, code, modifiers);
                self.step_settings(next, SettingsStep::Stay);
                return;
            }
            let (next, step) = edit_row(state, code, &self.options);
            self.step_settings(next, step);
            return;
        }
        let begins: bool = state.selected == SETTINGS_PLAYER_INDEX && (code == KeyCode::Char(' ')
            || code == KeyCode::Enter);
        if begins {
            self.cursor_behind_player(&state);
            let (next, step) = browse_rows(state, code, &self.options);
            self.step_settings(next, step);
            return;
        }
        let (next, step) = browse_rows(state, code, &self.options);
        self.step_settings(next, step);
    }

    pub fn handle_discard_key(&mut self, code: KeyCode, selected: usize, draft: TuiConfig)
        ensures
            final(self)@ == old(self)@.discard_key(selected, draft@, code),
    {
        reveal(AppView::discard_key);
        if code == KeyCode::Char('y') || code == KeyCode::Enter {
            self.set_mode(InputMode::Normal);
            return;
        }
        if code == KeyCode::Char('n') || code == KeyCode::Esc {
            self.set_mode(
                InputMode::Settings { selected, editing: false, draft, modified: true },
            );
            return;
        }
        self.set_mode(InputMode::ConfirmDiscardSettings { selected, draft });
    }

    fn take_config(&mut self, config: TuiConfig)
        ensures
            final(self)@ == old(self)@.with_config(config@),
    {
        self.config = config;
    }

    fn enforce_settings(&mut self, draft: TuiConfig)
        ensures
            final(self)@ == old(self)@.settings_in_force(draft@),
    {
        let jobs: usize = if draft.download_jobs > 1 { draft.download_jobs } else { 1 };
        self.take_config(draft);
        self.resort_entries();
        self.ask(Effect::SetDownloadJobs { jobs });
        self.ask(Effect::StartDownloads);
        self.log("Settings saved to config.toml");
        self.set_mode(InputMode::Normal);
    }

    fn save_page(&mut self, draft: TuiConfig, message: &str, row: usize)
        ensures
            final(self)@ == old(self)@.page_saved(draft@, message@, row),
    {
        let config: TuiConfig = draft.clone();
        self.take_config(config);
        self.log(message);
        self.set_mode(
            InputMode::Settings { selected: row, editing: false, draft, modified: false },
        );
    }

    fn saved_draft(&self, purpose: SavePurpose) -> (r: Option<TuiConfig>)
        ensures
            match (purpose, self@.input) {
                (SavePurpose::Settings, ModeView::Settings { draft, .. }) => r is Some && r->0@
                    == draft,
                (
                    SavePurpose::CustomColors,
                    ModeView::CustomColorSettings { draft, .. },
                ) => r is Some && r->0@ == draft,
                (
                    SavePurpose::ImageProtocols,
                    ModeView::ImageProtocolSettings { draft, .. },
                ) => r is Some && r->0@ == draft,
                _ => r is None,
            },
    {
        match (purpose, &self.input) {
            (SavePurpose::Settings, InputMode::Settings { draft, .. }) => Some(draft.clone()),
            (
                SavePurpose::CustomColors,
                InputMode::CustomColorSettings { draft, .. },
            ) => Some(draft.clone()),
            (
                SavePurpose::ImageProtocols,
                InputMode::ImageProtocolSettings { draft, .. },
            ) => Some(draft.clone()),
            _ => None,
        }
    }

    /// Tells how writing the settings went.
    pub fn config_saved(&mut self, purpose: SavePurpose, result: Result<(), String>)
        ensures
            final(self)@ == old(self)@.save_ended(purpose, result),
    {
        if purpose == SavePurpose::Silent {
            return;
        }
        match result {
            Err(e) => {
                self.push_log(cat2("Failed to save config: ", e.as_str()));
                return;
            },
            Ok(_) => {
                match self.saved_draft(purpose) {
                    Some(draft) => {
                        match purpose {
                            SavePurpose::Settings => {
                                self.enforce_settings(draft);
                                return;
                            },
                            SavePurpose::CustomColors => {
                                self.save_page(
                                    draft,
                                    "Custom colors saved to config.toml",
                                    SETTINGS_COLOR_SCHEME_INDEX,
                                );
                                return;
                            },
                            _ => {
                                self.save_page(
                                    draft,
                                    "Image protocol settings saved to config.toml",
                                    SETTINGS_IMAGE_PROTOCOL_INDEX,
                                );
                                return;
                            },
                        }
                    },
                    None => {
                        return;
                    },
                }
            },
        }
    }
}

// ---------------------------------------------------------------------------------------------
// Custom colours.

/// The page of the custom colours.
pub struct ColorsState {
    pub selected: usize,
    pub draft: TuiConfig,
    pub modified: bool,
    pub editing_rgb: bool,
    pub rgb_input: String,
    pub rgb_component: usize,
}

pub struct ColorsView {
    pub selected: usize,
    pub draft: ConfigView,
    pub modified: bool,
    pub editing_rgb: bool,
    pub rgb_input: Chars,
    pub rgb_component: usize,
}

impl View for ColorsState {
    type V = ColorsView;

    open spec fn view(&self) -> ColorsView {
        ColorsView {
            selected: self.selected,
            draft: self.draft@,
            modified: self.modified,
            editing_rgb: self.editing_rgb,
            rgb_input: self.rgb_input@,
            rgb_component: self.rgb_component,
        }
    }
}

impl ColorsView {
    pub open spec fn mode(self) -> ModeView {
        ModeView::CustomColorSettings {
            selected: self.selected,
            draft: self.draft,
            modified: self.modified,
            editing_rgb: self.editing_rgb,
            rgb_input: self.rgb_input,
            rgb_component: self.rgb_component,
        }
    }

    /// At a row, with no number being typed.
    pub open spec fn resting_at(self, selected: usize) -> ColorsView {
        ColorsView {
            selected,
            editing_rgb: false,
            rgb_input: Seq::empty(),
            rgb_component: 0,
            ..self
        }
    }

    pub open spec fn number_begun(self, component: usize) -> ColorsView {
        ColorsView {
            editing_rgb: true,
            rgb_input: Seq::empty(),
            rgb_component: component,
            ..self
        }
    }

    pub open spec fn number_ended(self) -> ColorsView {
        ColorsView { editing_rgb: false, rgb_input: Seq::empty(), ..self }
    }

    pub open spec fn number_typed(self, rgb_input: Chars) -> ColorsView {
        ColorsView { rgb_input, ..self }
    }

    /// With one part of the chosen colour set.
    pub open spec fn color_set(self, value: u8) -> ColorsView {
        ColorsView {
            draft: ConfigView {
                custom_colors: recolored(
                    self.draft.custom_colors,
                    self.selected,
                    self.rgb_component,
                    value,
                ),
                ..self.draft
            },
            modified: true,
            ..self
        }
    }
}

/// A colour with one part replaced.
pub open spec fn with_part(c: (u8, u8, u8), part: usize, value: u8) -> (u8, u8, u8) {
    if part == 0 {
        (value, c.1, c.2)
    } else if part == 1 {
        (c.0, value, c.2)
    } else if part == 2 {
        (c.0, c.1, value)
    } else {
        c
    }
}

fn replace_part(c: (u8, u8, u8), part: usize, value: u8) -> (r: (u8, u8, u8))
    ensures
        r == with_part(c, part, value),
{
    if part == 0 {
        (value, c.1, c.2)
    } else if part == 1 {
        (c.0, value, c.2)
    } else if part == 2 {
        (c.0, c.1, value)
    } else {
        c
    }
}

/// The colour of a row.
pub open spec fn color_at(c: CustomColors, row: usize) -> (u8, u8, u8) {
    if row == 0 {
        c.folder
    } else if row == 1 {
        c.archive
    } else if row == 2 {
        c.image
    } else if row == 3 {
        c.video
    } else if row == 4 {
        c.audio
    } else if row == 5 {
        c.document
    } else if row == 6 {
        c.code
    } else {
        c.default
    }
}

/// The colours with one part of the colour of a row replaced.
pub open spec fn recolored(c: CustomColors, row: usize, part: usize, value: u8) -> CustomColors {
    if row == 0 {
        CustomColors { folder: with_part(c.folder, part, value), ..c }
    } else if row == 1 {
        CustomColors { archive: with_part(c.archive, part, value), ..c }
    } else if row == 2 {
        CustomColors { image: with_part(c.image, part, value), ..c }
    } else if row == 3 {
        CustomColors { video: with_part(c.video, part, value), ..c }
    } else if row == 4 {
        CustomColors { audio: with_part(c.audio, part, value), ..c }
    } else if row == 5 {
        CustomColors { document: with_part(c.document, part, value), ..c }
    } else if row == 6 {
        CustomColors { code: with_part(c.code, part, value), ..c }
    } else {
        CustomColors { default: with_part(c.default, part, value), ..c }
    }
}

fn recolor(c: CustomColors, row: usize, part: usize, value: u8) -> (r: CustomColors)
    ensures
        r == recolored(c, row, part, value),
{
    let mut out: CustomColors = c;
    if row == 0 {
        out.folder = replace_part(c.folder, part, value);
    } else if row == 1 {
        out.archive = replace_part(c.archive, part, value);
    } else if row == 2 {
        out.image = replace_part(c.image, part, value);
    } else if row == 3 {
        out.video = replace_part(c.video, part, value);
    } else if row == 4 {
        out.audio = replace_part(c.audio, part, value);
    } else if row == 5 {
        out.document = replace_part(c.document, part, value);
    } else if row == 6 {
        out.code = replace_part(c.code, part, value);
    } else {
        out.default = replace_part(c.default, part, value);
    }
    out
}

/// What a key of the custom colours leads to, beside changing them.
#[derive(Clone, Copy, Debug, PartialEq, Eq, Structural)]
pub enum PageStep {
    Stay,
    Save,
    Back,
    /// To the main pane.
    Leave,
}

/// The page of the custom colours after a key, while a number is being typed.
pub open spec fn number_after(s: ColorsView, code: KeyCode) -> (ColorsView, PageStep) {
    match code {
        KeyCode::Char(c) => if is_digit(c) && offset_of(s.rgb_input, s.rgb_input.len() as int) < 3 {
            (s.number_typed(s.rgb_input.push(c)), PageStep::Stay)
        } else {
            (s, PageStep::Stay)
        },
        KeyCode::Backspace => if s.rgb_input.len() > 0 {
            (s.number_typed(s.rgb_input.drop_last()), PageStep::Stay)
        } else {
            (s, PageStep::Stay)
        },
        KeyCode::Enter => match parsed(s.rgb_input, 255) {
            Some(n) => if s.selected <= COLORS_LAST_INDEX {
                (s.color_set(n as u8).number_ended(), PageStep::Stay)
            } else {
                (s, PageStep::Leave)
            },
            None => (s.number_ended(), PageStep::Stay),
        },
        KeyCode::Esc => (s.number_ended(), PageStep::Stay),
        _ => (s, PageStep::Stay),
    }
}

/// The page of the custom colours after a key.
pub open spec fn colors_after(s: ColorsView, code: KeyCode) -> (ColorsView, PageStep) {
    if s.editing_rgb {
        number_after(s, code)
    } else if code == KeyCode::Down || code == KeyCode::Char('j') {
        (
            s.resting_at(min_int(s.selected + 1, COLORS_LAST_INDEX as int) as usize),
            PageStep::Stay,
        )
    } else if code == KeyCode::Up || code == KeyCode::Char('k') {
        (s.resting_at(cursor_up(s.selected)), PageStep::Stay)
    } else if code == KeyCode::Char('r') {
        (s.number_begun(0), PageStep::Stay)
    } else if code == KeyCode::Char('g') {
        (s.number_begun(1), PageStep::Stay)
    } else if code == KeyCode::Char('b') {
        (s.number_begun(2), PageStep::Stay)
    } else if code == KeyCode::Char('s') && s.modified {
        (s.resting_at(s.selected), PageStep::Save)
    } else if code == KeyCode::Esc || code == KeyCode::Backspace {
        (s, PageStep::Back)
    } else {
        (s.resting_at(s.selected), PageStep::Stay)
    }
}

impl ColorsState {
    fn rest_at(self, selected: usize) -> (r: ColorsState)
        ensures
            r@ == self@.resting_at(selected),
    {
        ColorsState {
            selected,
            draft: self.draft,
            modified: self.modified,
            editing_rgb: false,
            rgb_input: empty_text(),
            rgb_component: 0,
        }
    }

    fn begin_number(self, component: usize) -> (r: ColorsState)
        ensures
            r@ == self@.number_begun(component),
    {
        ColorsState {
            selected: self.selected,
            draft: self.draft,
            modified: self.modified,
            editing_rgb: true,
            rgb_input: empty_text(),
            rgb_component: component,
        }
    }

    fn end_number(self) -> (r: ColorsState)
        ensures
            r@ == self@.number_ended(),
    {
        ColorsState {
            selected: self.selected,
            draft: self.draft,
            modified: self.modified,
            editing_rgb: false,
            rgb_input: empty_text(),
            rgb_component: self.rgb_component,
        }
    }

    fn set_color(self, value: u8) -> (r: ColorsState)
        ensures
            r@ == self@.color_set(value),
    {
        let mut out: ColorsState = self;
        out.draft.custom_colors = recolor(
            out.draft.custom_colors,
            out.selected,
            out.rgb_component,
            value,
        );
        out.modified = true;
        out
    }

    fn into_mode(self) -> (r: InputMode)
        ensures
            r@ == self@.mode(),
    {
        InputMode::CustomColorSettings {
            selected: self.selected,
            draft: self.draft,
            modified: self.modified,
            editing_rgb: self.editing_rgb,
            rgb_input: self.rgb_input,
            rgb_component: self.rgb_component,
        }
    }

    fn number_key(self, code: KeyCode) -> (r: (ColorsState, PageStep))
        ensures
            (r.0@, r.1) == number_after(self@, code),
    {
        match code {
            KeyCode::Char(c) => {
                if is_ascii_digit(c) && text_len(self.rgb_input.as_str()) < 3 {
                    let mut out: ColorsState = self;
                    out.rgb_input.push(c);
                    return (out, PageStep::Stay);
                }
                return (self, PageStep::Stay);
            },
            KeyCode::Backspace => {
                let v: Vec<char> = crate::text::chars_of(self.rgb_input.as_str());
                if v.len() > 0 {
                    let mut out: ColorsState = self;
                    out.rgb_input = crate::text::string_of(&v, 0, v.len() - 1);
                    assert(out.rgb_input@ =~= self.rgb_input@.drop_last());
                    return (out, PageStep::Stay);
                }
                return (self, PageStep::Stay);
            },
            KeyCode::Enter => {
                match parse_number(self.rgb_input.as_str(), 255) {
                    Some(n) => {
                        if self.selected <= COLORS_LAST_INDEX {
                            return (self.set_color(n as u8).end_number(), PageStep::Stay);
                        }
                        return (self, PageStep::Leave);
                    },
                    None => {
                        return (self.end_number(), PageStep::Stay);
                    },
                }
            },
            KeyCode::Esc => {
                return (self.end_number(), PageStep::Stay);
            },
            _ => {
                return (self, PageStep::Stay);
            },
        }
    }

    fn key(self, code: KeyCode) -> (r: (ColorsState, PageStep))
        ensures
            (r.0@, r.1) == colors_after(self@, code),
    {
        if self.editing_rgb {
            return self.number_key(code);
        }
        let at: usize = self.selected;
        if code == KeyCode::Down || code == KeyCode::Char('j') {
            let next: usize = if at < COLORS_LAST_INDEX { at + 1 } else { COLORS_LAST_INDEX };
            return (self.rest_at(next), PageStep::Stay);
        }
        if code == KeyCode::Up || code == KeyCode::Char('k') {
            return (self.rest_at(go_up(at)), PageStep::Stay);
        }
        if code == KeyCode::Char('r') {
            return (self.begin_number(0), PageStep::Stay);
        }
        if code == KeyCode::Char('g') {
            return (self.begin_number(1), PageStep::Stay);
        }
        if code == KeyCode::Char('b') {
            return (self.begin_number(2), PageStep::Stay);
        }
        if code == KeyCode::Char('s') && self.modified {
            return (self.rest_at(at), PageStep::Save);
        }
        if code == KeyCode::Esc || code == KeyCode::Backspace {
            return (self, PageStep::Back);
        }
        (self.rest_at(at), PageStep::Stay)
    }
}

impl AppView {
    /// Back on the settings at the row of a page.
    pub open spec fn page_left(self, draft: ConfigView, modified: bool, row: usize) -> AppView {
        self.in_mode(ModeView::Settings { selected: row, editing: false, draft, modified })
    }

    #[verifier::opaque]
    pub open spec fn colors_key(self, s: ColorsView, code: KeyCode) -> AppView {
        let next = colors_after(s, code);
        match next.1 {
            PageStep::Stay => self.in_mode(next.0.mode()),
            PageStep::Save => self.in_mode(next.0.mode()).asking(
                EffectView::SaveConfig {
                    config: next.0.draft,
                    purpose: SavePurpose::CustomColors,
                },
            ),
            PageStep::Back => self.page_left(
                next.0.draft,
                next.0.modified,
                SETTINGS_COLOR_SCHEME_INDEX,
            ),
            PageStep::Leave => self,
        }
    }
}

impl App {
    fn leave_page(&mut self, draft: TuiConfig, modified: bool, row: usize)
        ensures
            final(self)@ == old(self)@.page_left(draft@, modified, row),
    {
        self.set_mode(InputMode::Settings { selected: row, editing: false, draft, modified });
    }

    pub fn handle_custom_color_key(&mut self, code: KeyCode, state: ColorsState)
        ensures
            final(self)@ == old(self)@.colors_key(state@, code),
    {
        reveal(AppView::colors_key);
        let (next, step) = state.key(code);
        match step {
            PageStep::Stay => {
                self.set_mode(next.into_mode());
                return;
            },
            PageStep::Save => {
                let config: TuiConfig = next.draft.clone();
                self.set_mode(next.into_mode());
                self.ask(Effect::SaveConfig { config, purpose: SavePurpose::CustomColors });
                return;
            },
            PageStep::Back => {
                self.leave_page(next.draft, next.modified, SETTINGS_COLOR_SCHEME_INDEX);
                return;
            },
            PageStep::Leave => {
                return;
            },
        }
    }
}

// ---------------------------------------------------------------------------------------------
// Image protocols.

/// The page of the image protocols.
pub struct ProtocolsState {
    pub selected: usize,
    pub draft: TuiConfig,
    pub modified: bool,
    pub current_terminal: String,
    pub terminals: Vec<String>,
}

pub struct ProtocolsView {
    pub selected: usize,
    pub draft: ConfigView,
    pub modified: bool,
    pub current_terminal: Chars,
    pub terminals: Seq<Chars>,
}

impl View for ProtocolsState {
    type V = ProtocolsView;

    open spec fn view(&self) -> ProtocolsView {
        ProtocolsView {
            selected: self.selected,
            draft: self.draft@,
            modified: self.modified,
            current_terminal: self.current_terminal@,
            terminals: texts(self.terminals@),
        }
    }
}

impl ProtocolsView {
    pub open spec fn mode(self) -> ModeView {
        ModeView::ImageProtocolSettings {
            selected: self.selected,
            draft: self.draft,
            modified: self.modified,
            current_terminal: self.current_terminal,
            terminals: self.terminals,
        }
    }

    pub open spec fn at(self, selected: usize) -> ProtocolsView {
        ProtocolsView { selected, ..self }
    }

    /// With the protocol of the chosen terminal stepped on or back.
    pub open spec fn stepped(self, o: SettingOptions, forward: bool) -> ProtocolsView {
        if self.selected < self.terminals.len() {
            let term = self.terminals[self.selected as int];
            let now = protocol_of(self.draft.image_protocols, term, o.protocol_auto);
            let next = if forward {
                o.image_protocol.after(now)
            } else {
                o.image_protocol.before(now)
            };
            ProtocolsView {
                draft: ConfigView {
                    image_protocols: protocol_set(self.draft.image_protocols, term, next),
                    ..self.draft
                },
                modified: true,
                ..self
            }
        } else {
            self
        }
    }
}

/// The protocol of a terminal in a list, or `otherwise` where it has none.
pub open spec fn protocol_of(v: Seq<(Chars, usize)>, term: Chars, otherwise: usize) -> usize
    decreases v.len(),
{
    if v.len() == 0 {
        otherwise
    } else if v[0].0 == term {
        v[0].1
    } else {
        protocol_of(v.skip(1), term, otherwise)
    }
}

/// The list with the protocol of a terminal set; a terminal that was not in it comes last.
pub open spec fn protocol_set(v: Seq<(Chars, usize)>, term: Chars, p: usize) -> Seq<(Chars, usize)>
    decreases v.len(),
{
    if v.len() == 0 {
        seq![(term, p)]
    } else if v[0].0 == term {
        seq![(term, p)] + v.skip(1)
    } else {
        seq![v[0]] + protocol_set(v.skip(1), term, p)
    }
}

/// A protocol that was set is found again, and those of other terminals stay as they were.
pub proof fn law_protocol_set_is_found(
    v: Seq<(Chars, usize)>,
    term: Chars,
    other: Chars,
    p: usize,
    otherwise: usize,
)
    ensures
        protocol_of(protocol_set(v, term, p), term, otherwise) == p,
        other != term ==> protocol_of(protocol_set(v, term, p), other, otherwise) == protocol_of(
            v,
            other,
            otherwise,
        ),
    decreases v.len(),
{
    let w = protocol_set(v, term, p);
    reveal_with_fuel(protocol_of, 2);
    if v.len() == 0 {
        assert(w.skip(1) =~= Seq::<(Chars, usize)>::empty());
    } else if v[0].0 == term {
        assert(w.skip(1) =~= v.skip(1));
    } else {
        law_protocol_set_is_found(v.skip(1), term, other, p, otherwise);
        assert(w.skip(1) =~= protocol_set(v.skip(1), term, p));
    }
}

/// The index of a terminal in a list, where it is in it.
pub open spec fn terminal_index(v: Seq<(Chars, usize)>, term: Chars) -> int
    decreases v.len(),
{
    if v.len() == 0 || v[0].0 == term {
        0
    } else {
        1 + terminal_index(v.skip(1), term)
    }
}

proof fn lemma_protocols_at(v: Seq<(Chars, usize)>, term: Chars, i: int, p: usize, otherwise: usize)
    requires
        0 <= i <= v.len(),
        forall|k: int| 0 <= k < i ==> (#[trigger] v[k]).0 != term,
        i < v.len() ==> v[i].0 == term,
    ensures
        i < v.len() ==> protocol_of(v, term, otherwise) == v[i].1 && protocol_set(v, term, p)
            == v.update(i, (term, p)),
        i == v.len() ==> protocol_of(v, term, otherwise) == otherwise && protocol_set(v, term, p)
            == v.push((term, p)),
        terminal_index(v, term) == i,
    decreases v.len(),
{
    reveal_with_fuel(protocol_of, 2);
    if v.len() == 0 {
        assert(v.push((term, p)) =~= seq![(term, p)]);
    } else if i == 0 {
        assert(seq![(term, p)] + v.skip(1) =~= v.update(0, (term, p)));
    } else {
        let w = v.skip(1);
        assert forall|k: int| 0 <= k < i - 1 implies (#[trigger] w[k]).0 != term by {
            assert(v[k + 1].0 != term);
        }
        lemma_protocols_at(w, term, i - 1, p, otherwise);
        if i < v.len() {
            assert(seq![v[0]] + w.update(i - 1, (term, p)) =~= v.update(i, (term, p)));
        } else {
            assert(seq![v[0]] + w.push((term, p)) =~= v.push((term, p)));
        }
    }
}

fn find_terminal(v: &Vec<(String, usize)>, term: &str) -> (r: usize)
    ensures
        r <= v.len(),
        forall|k: int| 0 <= k < r ==> (#[trigger] protocols_view(v@)[k]).0 != term@,
        r < v.len() ==> protocols_view(v@)[r as int].0 == term@,
{
    let mut i: usize = 0;
    while i < v.len()
        invariant
            i <= v.len(),
            forall|k: int| 0 <= k < i ==> (#[trigger] protocols_view(v@)[k]).0 != term@,
        decreases v.len() - i,
    {
        if str_eq(v[i].0.as_str(), term) {
            return i;
        }
        i += 1;
    }
    i
}

pub fn terminal_protocol(v: &Vec<(String, usize)>, term: &str, otherwise: usize) -> (r: usize)
    ensures
        r == protocol_of(protocols_view(v@), term@, otherwise),
{
    let i: usize = find_terminal(v, term);
    proof {
        lemma_protocols_at(protocols_view(v@), term@, i as int, 0, otherwise);
    }
    if i < v.len() {
        v[i].1
    } else {
        otherwise
    }
}

fn set_protocol(v: &mut Vec<(String, usize)>, term: &String, p: usize)
    ensures
        protocols_view(final(v)@) == protocol_set(protocols_view(old(v)@), term@, p),
{
    let i: usize = find_terminal(v, term.as_str());
    let ghost before = protocols_view(v@);
    proof {
        lemma_protocols_at(before, term@, i as int, p, 0);
    }
    if i < v.len() {
        v.set(i, (term.clone(), p));
        assert(protocols_view(v@) =~= before.update(i as int, (term@, p)));
    } else {
        v.push((term.clone(), p));
        assert(protocols_view(v@) =~= before.push((term@, p)));
    }
}

/// The page of the image protocols after a key.
pub open spec fn protocols_after(s: ProtocolsView, code: KeyCode, o: SettingOptions) -> (
    ProtocolsView,
    PageStep,
) {
    if code == KeyCode::Down || code == KeyCode::Char('j') {
        (
            s.at(crate::transfer::cursor_down(s.selected, s.terminals.len())),
            PageStep::Stay,
        )
    } else if code == KeyCode::Up || code == KeyCode::Char('k') {
        (s.at(cursor_up(s.selected)), PageStep::Stay)
    } else if code == KeyCode::Left {
        (s.stepped(o, false), PageStep::Stay)
    } else if code == KeyCode::Right {
        (s.stepped(o, true), PageStep::Stay)
    } else if code == KeyCode::Char('s') && s.modified {
        (s, PageStep::Save)
    } else if code == KeyCode::Esc || code == KeyCode::Backspace {
        (s, PageStep::Back)
    } else {
        (s, PageStep::Stay)
    }
}

impl ProtocolsState {
    fn go_to(self, selected: usize) -> (r: ProtocolsState)
        ensures
            r@ == self@.at(selected),
    {
        let mut out: ProtocolsState = self;
        out.selected = selected;
        out
    }

    fn step(self, o: &SettingOptions, forward: bool) -> (r: ProtocolsState)
        ensures
            r@ == self@.stepped(*o, forward),
    {
        if self.selected >= self.terminals.len() {
            return self;
        }
        let mut out: ProtocolsState = self;
        let term: String = out.terminals[out.selected].clone();
        let now: usize = terminal_protocol(
            &out.draft.image_protocols,
            term.as_str(),
            o.protocol_auto,
        );
        let next: usize = if forward {
            o.image_protocol.next_of(now)
        } else {
            o.image_protocol.prev_of(now)
        };
        set_protocol(&mut out.draft.image_protocols, &term, next);
        out.modified = true;
        out
    }

    fn into_mode(self) -> (r: InputMode)
        ensures
            r@ == self@.mode(),
    {
        InputMode::ImageProtocolSettings {
            selected: self.selected,
            draft: self.draft,
            modified: self.modified,
            current_terminal: self.current_terminal,
            terminals: self.terminals,
        }
    }

    fn key(self, code: KeyCode, o: &SettingOptions) -> (r: (ProtocolsState, PageStep))
        ensures
            (r.0@, r.1) == protocols_after(self@, code, *o),
    {
        if code == KeyCode::Down || code == KeyCode::Char('j') {
            let at: usize = crate::transfer::go_down(self.selected, self.terminals.len());
            return (self.go_to(at), PageStep::Stay);
        }
        if code == KeyCode::Up || code == KeyCode::Char('k') {
            let at: usize = go_up(self.selected);
            return (self.go_to(at), PageStep::Stay);
        }
        if code == KeyCode::Left {
            return (self.step(o, false), PageStep::Stay);
        }
        if code == KeyCode::Right {
            return (self.step(o, true), PageStep::Stay);
        }
        if code == KeyCode::Char('s') && self.modified {
            return (self, PageStep::Save);
        }
        if code == KeyCode::Esc || code == KeyCode::Backspace {
            return (self, PageStep::Back);
        }
        (self, PageStep::Stay)
    }
}

/// The terminals of a list of protocols.
pub open spec fn terminals_of(v: Seq<(Chars, usize)>) -> Seq<Chars> {
    Seq::new(v.len(), |i: int| v[i].0)
}

fn collect_terminals(v: &Vec<(String, usize)>) -> (r: Vec<String>)
    ensures
        texts(r@) == terminals_of(protocols_view(v@)),
{
    let mut out: Vec<String> = Vec::new();
    let mut i: usize = 0;
    while i < v.len()
        invariant
            i <= v.len(),
            out@.len() == i,
            forall|k: int| 0 <= k < i ==> (#[trigger] out@[k])@ == v@[k].0@,
        decreases v.len() - i,
    {
        out.push(v[i].0.clone());
        i += 1;
    }
    assert(texts(out@) =~= terminals_of(protocols_view(v@)));
    out
}

/// The row of a terminal in a list, and the first one where it is not in it.
pub open spec fn terminal_row(v: Seq<(Chars, usize)>, term: Chars) -> usize {
    if terminal_index(v, term) < v.len() {
        terminal_index(v, term) as usize
    } else {
        0
    }
}

/// Whether a list has a terminal.
pub open spec fn has_terminal(v: Seq<(Chars, usize)>, term: Chars) -> bool {
    terminal_index(v, term) < v.len()
}

/// The entries of a list whose terminals are not in another one.
pub open spec fn missing_from(v: Seq<(Chars, usize)>, other: Seq<(Chars, usize)>) -> Seq<
    (Chars, usize),
>
    decreases v.len(),
{
    if v.len() == 0 {
        v
    } else if has_terminal(other, v[0].0) {
        missing_from(v.skip(1), other)
    } else {
        seq![v[0]] + missing_from(v.skip(1), other)
    }
}

/// The entries of a list, with the protocols that are chosen already.
pub open spec fn with_chosen(chosen: Seq<(Chars, usize)>, found: Seq<(Chars, usize)>) -> Seq<
    (Chars, usize),
> {
    Seq::new(
        found.len(),
        |i: int| (found[i].0, protocol_of(chosen, found[i].0, found[i].1)),
    )
}

/// The protocols that are chosen already, and those of the terminals that have none yet. The
/// terminals that were found keep their order, and what else is chosen follows.
pub open spec fn completed(chosen: Seq<(Chars, usize)>, found: Seq<(Chars, usize)>) -> Seq<
    (Chars, usize),
> {
    with_chosen(chosen, found) + missing_from(chosen, found)
}

fn put_chosen(chosen: &Vec<(String, usize)>, found: &Vec<(String, usize)>) -> (r: Vec<
    (String, usize),
>)
    ensures
        protocols_view(r@) == with_chosen(protocols_view(chosen@), protocols_view(found@)),
{
    let ghost all = with_chosen(protocols_view(chosen@), protocols_view(found@));
    let mut out: Vec<(String, usize)> = Vec::new();
    let mut i: usize = 0;
    assert(protocols_view(out@) =~= all.take(0));
    while i < found.len()
        invariant
            i <= found.len(),
            all == with_chosen(protocols_view(chosen@), protocols_view(found@)),
            protocols_view(out@) == all.take(i as int),
        decreases found.len() - i,
    {
        let p: usize = terminal_protocol(chosen, found[i].0.as_str(), found[i].1);
        let ghost before = protocols_view(out@);
        out.push((found[i].0.clone(), p));
        i += 1;
        assert(protocols_view(out@) =~= before.push(all[i - 1]));
        assert(protocols_view(out@) =~= all.take(i as int));
    }
    assert(all.take(all.len() as int) =~= all);
    out
}

fn add_missing(
    out: &mut Vec<(String, usize)>,
    chosen: &Vec<(String, usize)>,
    found: &Vec<(String, usize)>,
)
    ensures
        protocols_view(final(out)@) == protocols_view(old(out)@) + missing_from(
            protocols_view(chosen@),
            protocols_view(found@),
        ),
{
    let ghost c = protocols_view(chosen@);
    let ghost f = protocols_view(found@);
    let ghost all = protocols_view(out@) + missing_from(c, f);
    let mut i: usize = 0;
    assert(c.skip(0) =~= c);
    while i < chosen.len()
        invariant
            i <= chosen.len(),
            c == protocols_view(chosen@),
            f == protocols_view(found@),
            protocols_view(out@) + missing_from(c.skip(i as int), f) == all,
        decreases chosen.len() - i,
    {
        let at: usize = find_terminal(found, chosen[i].0.as_str());
        let ghost rest = c.skip(i as int);
        let ghost before = protocols_view(out@);
        proof {
            lemma_protocols_at(f, c[i as int].0, at as int, 0, 0);
            assert(rest.skip(1) =~= c.skip(i + 1));
        }
        if at >= found.len() {
            out.push((chosen[i].0.clone(), chosen[i].1));
            assert(protocols_view(out@) =~= before + seq![c[i as int]]);
            assert(before + (seq![c[i as int]] + missing_from(c.skip(i + 1), f)) =~= (before + seq![
                c[i as int],
            ]) + missing_from(c.skip(i + 1), f));
        }
        i += 1;
    }
    assert(c.skip(i as int) =~= Seq::<(Chars, usize)>::empty());
    assert(protocols_view(out@) + Seq::<(Chars, usize)>::empty() =~= protocols_view(out@));
}

fn complete_protocols(chosen: &Vec<(String, usize)>, found: &Vec<(String, usize)>) -> (r: Vec<
    (String, usize),
>)
    ensures
        protocols_view(r@) == completed(protocols_view(chosen@), protocols_view(found@)),
{
    let mut out: Vec<(String, usize)> = put_chosen(chosen, found);
    add_missing(&mut out, chosen, found);
    out
}

proof fn lemma_default_is_for_the_missing(
    v: Seq<(Chars, usize)>,
    term: Chars,
    a: usize,
    b: usize,
)
    ensures
        has_terminal(v, term) ==> protocol_of(v, term, a) == protocol_of(v, term, b),
        !has_terminal(v, term) ==> protocol_of(v, term, a) == a,
    decreases v.len(),
{
    if v.len() > 0 && v[0].0 != term {
        lemma_default_is_for_the_missing(v.skip(1), term, a, b);
    }
}

proof fn lemma_missing_keeps(
    v: Seq<(Chars, usize)>,
    other: Seq<(Chars, usize)>,
    term: Chars,
    otherwise: usize,
)
    requires
        !has_terminal(other, term),
    ensures
        protocol_of(missing_from(v, other), term, otherwise) == protocol_of(v, term, otherwise),
        has_terminal(missing_from(v, other), term) == has_terminal(v, term),
    decreases v.len(),
{
    if v.len() > 0 {
        lemma_missing_keeps(v.skip(1), other, term, otherwise);
        if !has_terminal(other, v[0].0) {
            let rest = missing_from(v.skip(1), other);
            assert((seq![v[0]] + rest).skip(1) =~= rest);
        }
    }
}

proof fn lemma_chosen_first(
    chosen: Seq<(Chars, usize)>,
    found: Seq<(Chars, usize)>,
    more: Seq<(Chars, usize)>,
    term: Chars,
    otherwise: usize,
)
    ensures
        ({
            let all = with_chosen(chosen, found) + more;
            if has_terminal(found, term) {
                &&& has_terminal(all, term)
                &&& protocol_of(all, term, otherwise) == protocol_of(
                    chosen,
                    term,
                    protocol_of(found, term, otherwise),
                )
            } else {
                &&& has_terminal(all, term) == has_terminal(more, term)
                &&& protocol_of(all, term, otherwise) == protocol_of(more, term, otherwise)
            }
        }),
    decreases found.len(),
{
    let all = with_chosen(chosen, found) + more;
    if found.len() == 0 {
        assert(all =~= more);
    } else {
        assert(all[0] == (found[0].0, protocol_of(chosen, found[0].0, found[0].1)));
        lemma_chosen_first(chosen, found.skip(1), more, term, otherwise);
        assert(all.skip(1) =~= with_chosen(chosen, found.skip(1)) + more);
    }
}

/// Opening the page of the image protocols keeps every protocol that is chosen in the settings
/// already, saved or not. A terminal without one gets the protocol that was found for it, and no
/// other terminal is listed.
pub proof fn law_chosen_protocols_are_kept(
    a: AppView,
    s: SettingsView,
    current_terminal: Chars,
    protocols: Seq<(String, usize)>,
    term: Chars,
    otherwise: usize,
)
    requires
        a.input == s.mode(),
    ensures
        a.protocols_opened(current_terminal, protocols).input matches
            ModeView::ImageProtocolSettings { draft, modified, .. } && {
            &&& has_terminal(s.draft.image_protocols, term) ==> protocol_of(
                draft.image_protocols,
                term,
                otherwise,
            ) == protocol_of(s.draft.image_protocols, term, otherwise)
            &&& !has_terminal(s.draft.image_protocols, term) ==> protocol_of(
                draft.image_protocols,
                term,
                otherwise,
            ) == protocol_of(protocols_view(protocols), term, otherwise)
            &&& has_terminal(draft.image_protocols, term) <==> has_terminal(
                s.draft.image_protocols,
                term,
            ) || has_terminal(protocols_view(protocols), term)
            &&& modified == s.modified
        },
{
    let chosen = s.draft.image_protocols;
    let found = protocols_view(protocols);
    let p = protocol_of(found, term, otherwise);
    lemma_chosen_first(chosen, found, missing_from(chosen, found), term, otherwise);
    lemma_default_is_for_the_missing(chosen, term, otherwise, p);
    lemma_default_is_for_the_missing(chosen, term, p, otherwise);
    lemma_default_is_for_the_missing(found, term, otherwise, otherwise);
    if !has_terminal(found, term) {
        lemma_missing_keeps(chosen, found, term, otherwise);
    }
}

impl AppView {
    #[verifier::opaque]
    pub open spec fn protocols_key(self, s: ProtocolsView, code: KeyCode) -> AppView {
        let next = protocols_after(s, code, self.options);
        match next.1 {
            PageStep::Save => self.in_mode(next.0.mode()).asking(
                EffectView::SaveConfig {
                    config: next.0.draft,
                    purpose: SavePurpose::ImageProtocols,
                },
            ),
            PageStep::Back => self.page_left(
                next.0.draft,
                next.0.modified,
                SETTINGS_IMAGE_PROTOCOL_INDEX,
            ),
            _ => self.in_mode(next.0.mode()),
        }
    }

    /// With the page of the image protocols opened at the terminal that is in use. What is chosen in
    /// the settings already stays, and what was found adds to it.
    pub open spec fn protocols_opened(
        self,
        current_terminal: Chars,
        protocols: Seq<(String, usize)>,
    ) -> AppView {
        match self.input {
            ModeView::Settings { draft, modified, .. } => {
                let all = completed(draft.image_protocols, protocols_view(protocols));
                self.in_mode(
                    ModeView::ImageProtocolSettings {
                        selected: terminal_row(all, current_terminal),
                        draft: ConfigView { image_protocols: all, ..draft },
                        modified,
                        current_terminal,
                        terminals: terminals_of(all),
                    },
                )
            },
            _ => self,
        }
    }
}

impl App {
    pub fn handle_image_protocol_key(&mut self, code: KeyCode, state: ProtocolsState)
        ensures
            final(self)@ == old(self)@.protocols_key(state@, code),
    {
        reveal(AppView::protocols_key);
        let (next, step) = state.key(code, &self.options);
        match step {
            PageStep::Save => {
                let config: TuiConfig = next.draft.clone();
                self.set_mode(next.into_mode());
                self.ask(Effect::SaveConfig { config, purpose: SavePurpose::ImageProtocols });
                return;
            },
            PageStep::Back => {
                self.leave_page(next.draft, next.modified, SETTINGS_IMAGE_PROTOCOL_INDEX);
                return;
            },
            _ => {
                self.set_mode(next.into_mode());
                return;
            },
        }
    }

    /// Opens the page of the image protocols: the host tells the terminal in use, and the
    /// protocols with that terminal among them. Those that are chosen in the settings are kept.
    pub fn terminal_detected(&mut self, current_terminal: String, protocols: Vec<(String, usize)>)
        ensures
            final(self)@ == old(self)@.protocols_opened(current_terminal@, protocols@),
    {
        let found: Option<(TuiConfig, bool)> = match &self.input {
            InputMode::Settings { selected: _, editing: _, draft, modified } => Some(
                (draft.clone(), *modified),
            ),
            _ => None,
        };
        match found {
            Some((draft, modified)) => {
                let mode: InputMode = protocols_mode(draft, modified, current_terminal, protocols);
                self.set_mode(mode);
                return;
            },
            None => {
                return;
            },
        }
    }
}

fn protocols_mode(
    draft: TuiConfig,
    modified: bool,
    current_terminal: String,
    protocols: Vec<(String, usize)>,
) -> (r: InputMode)
    ensures
        r@ == ({
            let all = completed(draft@.image_protocols, protocols_view(protocols@));
            ModeView::ImageProtocolSettings {
                selected: terminal_row(all, current_terminal@),
                draft: ConfigView { image_protocols: all, ..draft@ },
                modified,
                current_terminal: current_terminal@,
                terminals: terminals_of(all),
            }
        }),
{
    let all: Vec<(String, usize)> = complete_protocols(&draft.image_protocols, &protocols);
    let i: usize = find_terminal(&all, current_terminal.as_str());
    proof {
        lemma_protocols_at(protocols_view(all@), current_terminal@, i as int, 0, 0);
    }
    let selected: usize = if i < all.len() { i } else { 0 };
    let terminals: Vec<String> = collect_terminals(&all);
    let mut d: TuiConfig = draft;
    d.image_protocols = all;
    InputMode::ImageProtocolSettings { selected, draft: d, modified, current_terminal, terminals }
}

/// Leaving changed settings with `Esc` asks first, and a second `Esc` leads back to them.
pub proof fn law_changed_settings_are_not_lost(
    a: AppView,
    s: SettingsView,
    modifiers: KeyModifiers,
)
    requires
        s.modified,
        !s.editing,
    ensures
        a.settings_key(s, KeyCode::Esc, modifiers).input == (ModeView::ConfirmDiscardSettings {
            selected: s.selected,
            draft: s.draft,
        }),
        a.discard_key(s.selected, s.draft, KeyCode::Esc).input == s.mode(),
{
    reveal(AppView::settings_key);
    reveal(AppView::discard_key);
}

/// The pages of the settings lead back to the rows that they were opened from.
pub proof fn law_pages_return_to_their_rows(a: AppView, c: ColorsView, p: ProtocolsView)
    requires
        !c.editing_rgb,
    ensures
        a.colors_key(c, KeyCode::Esc).input matches ModeView::Settings { selected, .. }
            && selected == SETTINGS_COLOR_SCHEME_INDEX,
        a.protocols_key(p, KeyCode::Esc).input matches ModeView::Settings { selected, .. }
            && selected == SETTINGS_IMAGE_PROTOCOL_INDEX,
{
    reveal(AppView::colors_key);
    reveal(AppView::protocols_key);
}

impl SettingsView {
    /// Whether the row is one of the settings, and the numbers are among those that can be chosen.
    pub open spec fn in_range(self) -> bool {
        &&& self.selected <= SETTINGS_LAST_INDEX
        &&& 1 <= self.draft.download_jobs <= 16
        &&& 1024 <= self.draft.preview_max_size <= 10485760
    }
}

/// A key in the settings keeps the row and the numbers in range, and never takes the mark of a
/// change away. While a row is edited, it stays chosen and the settings stay open; else `s` saves
/// what was changed, and `Esc` alone closes them.
pub proof fn law_settings_stay_in_range(
    s: SettingsView,
    code: KeyCode,
    o: SettingOptions,
    typed: Chars,
)
    requires
        s.in_range(),
    ensures
        ({
            let (t, step) = settings_after(s, code, o, typed);
            &&& t.in_range()
            &&& s.modified ==> t.modified
            &&& s.editing ==> t.selected == s.selected && step != SettingsStep::Save && step
                != SettingsStep::Close
            &&& !s.editing ==> {
                &&& step == SettingsStep::Save <==> code == KeyCode::Char('s') && s.modified
                &&& step == SettingsStep::Close <==> code == KeyCode::Esc
                &&& t.draft == s.draft && t.modified == s.modified
            }
        }),
{
}

/// No key in the settings changes the settings that are in force, and the settings that stay open
/// or are asked about stay in range.
pub proof fn law_settings_are_not_in_force_before_they_are_saved(
    a: AppView,
    s: SettingsView,
    code: KeyCode,
    modifiers: KeyModifiers,
)
    requires
        s.in_range(),
    ensures
        a.settings_key(s, code, modifiers).config == a.config,
        match a.settings_key(s, code, modifiers).input {
            ModeView::Settings { selected, editing, draft, modified } => (SettingsView {
                selected,
                editing,
                draft,
                modified,
            }).in_range() && (s.modified ==> modified),
            ModeView::ConfirmDiscardSettings { selected, draft } => selected == s.selected && draft
                == s.draft && s.modified,
            ModeView::CustomColorSettings { draft, modified, .. } => draft == s.draft && modified
                == s.modified,
            m => m == ModeView::Normal && code == KeyCode::Esc && !s.editing && !s.modified,
        },
{
    reveal(AppView::settings_key);
    law_settings_stay_in_range(
        s,
        code,
        a.options,
        a.typing(s.player_text(), code, modifiers).value,
    );
}

} // verus!
