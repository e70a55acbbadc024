//! The keys of the dialogs, and the way from a key to what it acts on.

use crate::app::{owns_loading, App, AppView};
use crate::effect::{Effect, EffectView, RemoteOp, RemoteOpView};
use crate::event::{KeyCode, KeyModifiers};
use crate::geometry::{max_int, min_int};
use crate::model::{
    options_view, AsyncRequest, AsyncRequestKind, ConfigView, Entry, InputMode, LoginField,
    ModeView, PlayOption, PlayOptionView, PreviewState, PreviewView,
};
use crate::navigate::{binding, empty_text};
use crate::settings::{
    ColorsState, ColorsView, ProtocolsState, ProtocolsView, SettingsState, SettingsView,
};
use crate::text::{cat2, clone_opt, owned, str_eq, trim, trimmed, Chars};
use crate::transfer::{cart_binding, cursor_up, go_up};
use vstd::prelude::*;

verus! {

/// An entry of the action menu.
#[derive(Clone, Copy, Debug)]
pub struct ActionItem {
    pub key: KeyCode,
    pub shortcut: &'static str,
    pub label: &'static str,
}

pub struct ActionView {
    pub key: KeyCode,
    pub shortcut: Chars,
    pub label: Chars,
}

impl View for ActionItem {
    type V = ActionView;

    open spec fn view(&self) -> ActionView {
        ActionView { key: self.key, shortcut: self.shortcut@, label: self.label@ }
    }
}

pub open spec fn actions_view(v: Seq<ActionItem>) -> Seq<ActionView> {
    Seq::new(v.len(), |i: int| v[i]@)
}

pub open spec fn action_of(key: KeyCode, shortcut: Chars, label: Chars) -> ActionView {
    ActionView { key, shortcut, label }
}

/// The action menu.
pub open spec fn action_list() -> Seq<ActionView> {
    seq![
        action_of(KeyCode::Enter, "Enter"@, "Open folder / play video"@),
        action_of(KeyCode::Char(' '), "Space"@, "Show file or folder information"@),
        action_of(KeyCode::Char('p'), "p"@, "Preview selected file"@),
        action_of(KeyCode::Char('w'), "w"@, "Choose playback stream"@),
        action_of(KeyCode::Char('a'), "a"@, "Add or remove selected item from cart"@),
        action_of(KeyCode::Char('A'), "A"@, "Open cart"@),
        action_of(KeyCode::Char('D'), "D"@, "Open downloads"@),
        action_of(KeyCode::Char('M'), "M"@, "Open my shares"@),
        action_of(KeyCode::Char('m'), "m"@, "Move selected item"@),
        action_of(KeyCode::Char('c'), "c"@, "Copy selected item"@),
        action_of(KeyCode::Char('n'), "n"@, "Rename selected item"@),
        action_of(KeyCode::Char('d'), "d"@, "Delete selected item"@),
        action_of(KeyCode::Char('f'), "f"@, "Create folder"@),
        action_of(KeyCode::Char('s'), "s"@, "Star or unstar selected item"@),
        action_of(KeyCode::Char('y'), "y"@, "Copy download link"@),
        action_of(KeyCode::Char('u'), "u"@, "Upload file or folder"@),
        action_of(KeyCode::Char('o'), "o"@, "Create cloud download"@),
        action_of(KeyCode::Char('O'), "O"@, "Open offline tasks"@),
        action_of(KeyCode::Char('t'), "t"@, "Open trash"@),
        action_of(KeyCode::Char(','), ","@, "Open settings"@),
        action_of(KeyCode::Char('l'), "l"@, "Toggle logs"@),
        action_of(KeyCode::Char('r'), "r"@, "Refresh current folder"@),
    ]
}

/// How many entries the action menu has.
pub const ACTION_COUNT: usize = 22;

fn action(key: KeyCode, shortcut: &'static str, label: &'static str) -> (r: ActionItem)
    ensures
        r@ == action_of(key, shortcut@, label@),
{
    ActionItem { key, shortcut, label }
}

/// The entries of the action menu.
pub fn normal_actions() -> (r: Vec<ActionItem>)
    ensures
        actions_view(r@) == action_list(),
        r@.len() == ACTION_COUNT,
{
    let mut v: Vec<ActionItem> = Vec::new();
    v.push(action(KeyCode::Enter, "Enter", "Open folder / play video"));
    v.push(action(KeyCode::Char(' '), "Space", "Show file or folder information"));
    v.push(action(KeyCode::Char('p'), "p", "Preview selected file"));
    v.push(action(KeyCode::Char('w'), "w", "Choose playback stream"));
    v.push(action(KeyCode::Char('a'), "a", "Add or remove selected item from cart"));
    v.push(action(KeyCode::Char('A'), "A", "Open cart"));
    v.push(action(KeyCode::Char('D'), "D", "Open downloads"));
    v.push(action(KeyCode::Char('M'), "M", "Open my shares"));
    v.push(action(KeyCode::Char('m'), "m", "Move selected item"));
    v.push(action(KeyCode::Char('c'), "c", "Copy selected item"));
    v.push(action(KeyCode::Char('n'), "n", "Rename selected item"));
    v.push(action(KeyCode::Char('d'), "d", "Delete selected item"));
    v.push(action(KeyCode::Char('f'), "f", "Create folder"));
    v.push(action(KeyCode::Char('s'), "s", "Star or unstar selected item"));
    v.push(action(KeyCode::Char('y'), "y", "Copy download link"));
    v.push(action(KeyCode::Char('u'), "u", "Upload file or folder"));
    v.push(action(KeyCode::Char('o'), "o", "Create cloud download"));
    v.push(action(KeyCode::Char('O'), "O", "Open offline tasks"));
    v.push(action(KeyCode::Char('t'), "t", "Open trash"));
    v.push(action(KeyCode::Char(','), ",", "Open settings"));
    v.push(action(KeyCode::Char('l'), "l", "Toggle logs"));
    v.push(action(KeyCode::Char('r'), "r", "Refresh current folder"));
    assert(actions_view(v@) =~= action_list());
    v
}

/// The first stream from index `i` on that can be played.
pub open spec fn next_available(v: Seq<PlayOptionView>, i: int) -> Option<int>
    decreases v.len() - i,
{
    if 0 <= i < v.len() {
        if v[i].available {
            Some(i)
        } else {
            next_available(v, i + 1)
        }
    } else {
        None
    }
}

/// The last stream before index `n` that can be played.
pub open spec fn previous_available(v: Seq<PlayOptionView>, n: int) -> Option<int>
    decreases n,
{
    if n <= 0 {
        None
    } else if n - 1 < v.len() && v[n - 1].available {
        Some(n - 1)
    } else {
        previous_available(v, n - 1)
    }
}

/// The stream that the cursor goes to, where there is one.
pub open spec fn stream_or(found: Option<int>, selected: usize) -> usize {
    match found {
        Some(i) => i as usize,
        None => selected,
    }
}

fn stream_below(v: &Vec<PlayOption>, selected: usize) -> (r: usize)
    ensures
        r == stream_or(next_available(options_view(v@), selected + 1), selected),
{
    if selected >= v.len() {
        return selected;
    }
    let mut i: usize = selected + 1;
    while i < v.len()
        invariant
            selected < i <= v.len(),
            next_available(options_view(v@), selected + 1) == next_available(
                options_view(v@),
                i as int,
            ),
        decreases v.len() - i,
    {
        if v[i].available {
            return i;
        }
        i += 1;
    }
    selected
}

fn stream_above(v: &Vec<PlayOption>, selected: usize) -> (r: usize)
    ensures
        r == stream_or(previous_available(options_view(v@), selected as int), selected),
{
    let mut n: usize = selected;
    while n > 0
        invariant
            n <= selected,
            previous_available(options_view(v@), selected as int) == previous_available(
                options_view(v@),
                n as int,
            ),
        decreases n,
    {
        if n - 1 < v.len() && v[n - 1].available {
            return n - 1;
        }
        n -= 1;
    }
    selected
}

pub open spec fn other_field(field: LoginField) -> LoginField {
    match field {
        LoginField::Email => LoginField::Password,
        LoginField::Password => LoginField::Email,
    }
}

fn switch_field(field: LoginField) -> (r: LoginField)
    ensures
        r == other_field(field),
{
    match field {
        LoginField::Email => LoginField::Password,
        LoginField::Password => LoginField::Email,
    }
}

impl AppView {
    /// The sign-in form.
    pub open spec fn login_form(
        self,
        field: LoginField,
        email: Chars,
        password: Chars,
        error: Option<Chars>,
        logging_in: bool,
    ) -> AppView {
        self.in_mode(ModeView::Login { field, email, password, error, logging_in })
    }

    pub open spec fn login_typed(
        self,
        field: LoginField,
        email: Chars,
        password: Chars,
        code: KeyCode,
        modifiers: KeyModifiers,
    ) -> AppView {
        match field {
            LoginField::Email => self.typed(email, code, modifiers).login_form(
                field,
                self.typing(email, code, modifiers).value,
                password,
                None,
                false,
            ),
            LoginField::Password => self.typed(password, code, modifiers).login_form(
                field,
                email,
                self.typing(password, code, modifiers).value,
                None,
                false,
            ),
        }
    }

    #[verifier::opaque]
    pub open spec fn login_key(
        self,
        field: LoginField,
        email: Chars,
        password: Chars,
        logging_in: bool,
        code: KeyCode,
        modifiers: KeyModifiers,
    ) -> AppView {
        if logging_in {
            self.login_form(field, email, password, None, true)
        } else if code == KeyCode::Esc {
            self
        } else if code == KeyCode::Tab || code == KeyCode::BackTab {
            self.cursor_at_end().login_form(other_field(field), email, password, None, false)
        } else if code == KeyCode::Enter {
            if trimmed(email).len() == 0 || password.len() == 0 {
                self.login_form(
                    field,
                    email,
                    password,
                    Some("Email and password are required"@),
                    false,
                )
            } else {
                self.login_form(field, email, password, None, true).asking(
                    EffectView::Login { email, password },
                )
            }
        } else {
            self.login_typed(field, email, password, code, modifiers)
        }
    }

    pub open spec fn menu_at(self, selected: usize) -> AppView {
        self.in_mode(ModeView::ActionMenu { selected })
    }

    #[verifier::opaque]
    pub open spec fn menu_key(self, selected: usize, code: KeyCode) -> AppView {
        if code == KeyCode::Esc || code == KeyCode::Char('?') {
            self
        } else if code == KeyCode::Down || code == KeyCode::Char('j') {
            self.menu_at(min_int(selected + 1, ACTION_COUNT - 1) as usize)
        } else if code == KeyCode::Up || code == KeyCode::Char('k') {
            self.menu_at(cursor_up(selected))
        } else if code == KeyCode::Home {
            self.menu_at(0)
        } else if code == KeyCode::End {
            self.menu_at((ACTION_COUNT - 1) as usize)
        } else if code == KeyCode::Enter {
            if selected < ACTION_COUNT {
                self.acted(menu_action(selected))
            } else {
                self
            }
        } else {
            self.menu_at(selected)
        }
    }

    pub open spec fn menu_quits(self, selected: usize, code: KeyCode) -> bool {
        code == KeyCode::Enter && selected < ACTION_COUNT && self.quits(menu_action(selected))
    }

    pub open spec fn rename_asked(self, e: Entry, new_name: Chars) -> AppView {
        self.remote_asked(RemoteOpView::Rename { id: e.id@, old_name: e.name@, new_name })
    }

    #[verifier::opaque]
    pub open spec fn rename_key(self, value: Chars, code: KeyCode, modifiers: KeyModifiers) -> AppView {
        let e = self.typing(value, code, modifiers);
        let a = self.typed(value, code, modifiers);
        let name = trimmed(e.value);
        match e.done {
            Some(done) => match self.current() {
                Some(entry) => if done && name.len() > 0 {
                    a.rename_asked(entry, name)
                } else {
                    a
                },
                None => a,
            },
            None => a.in_mode(ModeView::Rename { value: e.value }),
        }
    }

    #[verifier::opaque]
    pub open spec fn mkdir_key(self, value: Chars, code: KeyCode, modifiers: KeyModifiers) -> AppView {
        let e = self.typing(value, code, modifiers);
        let a = self.typed(value, code, modifiers);
        let name = trimmed(e.value);
        match e.done {
            Some(done) => if done && name.len() > 0 {
                a.remote_asked(
                    RemoteOpView::Mkdir { parent_id: self.current_folder_id, name },
                )
            } else {
                a
            },
            None => a.in_mode(ModeView::Mkdir { value: e.value }),
        }
    }

    pub open spec fn goto_asked(self, path: Chars) -> AppView {
        let a = self.is_loading();
        a.modal_begun(AsyncRequestKind::GotoPath, path).asking(
            EffectView::ResolveNav { request: a.request_of(AsyncRequestKind::GotoPath, path) },
        )
    }

    #[verifier::opaque]
    pub open spec fn goto_key(self, query: Chars, code: KeyCode, modifiers: KeyModifiers) -> AppView {
        let e = self.typing(query, code, modifiers);
        let a = self.typed(query, code, modifiers);
        let path = trimmed(e.value);
        match e.done {
            Some(done) => if done && path.len() > 0 {
                a.goto_asked(path)
            } else {
                a
            },
            None => a.in_mode(ModeView::GotoPath { query: e.value }),
        }
    }

    /// With the selected entry being deleted for good.
    pub open spec fn deletion_asked(self) -> AppView {
        match self.current() {
            Some(e) => self.remote_asked(RemoteOpView::Delete { id: e.id@, name: e.name@ }),
            None => self,
        }
    }

    pub open spec fn cursor_at_start(self) -> AppView {
        AppView { text_cursor: 0, ..self }
    }

    #[verifier::opaque]
    pub open spec fn confirm_delete_key(self, code: KeyCode) -> AppView {
        if code == KeyCode::Char('y') {
            self.deletion_asked()
        } else if code == KeyCode::Char('p') {
            self.cursor_at_start().in_mode(
                ModeView::ConfirmPermanentDelete { value: Seq::empty() },
            )
        } else if code == KeyCode::Char('n') || code == KeyCode::Esc {
            self.logged("Delete cancelled"@)
        } else {
            self.in_mode(ModeView::ConfirmDelete)
        }
    }

    #[verifier::opaque]
    pub open spec fn confirm_permanent_delete_key(
        self,
        value: Chars,
        code: KeyCode,
        modifiers: KeyModifiers,
    ) -> AppView {
        let e = self.typing(value, code, modifiers);
        let a = self.typed(value, code, modifiers);
        match e.done {
            Some(done) => if !done {
                a.logged("Permanent delete cancelled"@)
            } else if e.value == "yes"@ {
                a.deletion_asked()
            } else {
                a.logged("Permanent delete cancelled (type 'yes' to confirm)"@)
            },
            None => a.in_mode(ModeView::ConfirmPermanentDelete { value: e.value }),
        }
    }

    /// With a link played, or the player asked for first.
    pub open spec fn played(self, url: Chars) -> AppView {
        match self.config.player {
            Some(player) => self.player_asked(player, url),
            None => self.in_mode(
                ModeView::PlayerInput { value: Seq::empty(), pending_url: url },
            ),
        }
    }

    #[verifier::opaque]
    pub open spec fn confirm_play_key(self, name: Chars, url: Chars, code: KeyCode) -> AppView {
        if code == KeyCode::Enter || code == KeyCode::Char('y') {
            self.played(url)
        } else if code == KeyCode::Esc || code == KeyCode::Char('n') {
            self
        } else {
            self.in_mode(ModeView::ConfirmPlay { name, url })
        }
    }

    pub open spec fn streams_at(
        self,
        name: Chars,
        medias: Seq<PlayOptionView>,
        selected: usize,
    ) -> AppView {
        self.in_mode(ModeView::PlayPicker { name, medias, selected })
    }

    #[verifier::opaque]
    pub open spec fn streams_key(
        self,
        name: Chars,
        medias: Seq<PlayOptionView>,
        selected: usize,
        code: KeyCode,
    ) -> AppView {
        if code == KeyCode::Down || code == KeyCode::Char('j') {
            self.streams_at(
                name,
                medias,
                stream_or(next_available(medias, selected + 1), selected),
            )
        } else if code == KeyCode::Up || code == KeyCode::Char('k') {
            self.streams_at(
                name,
                medias,
                stream_or(previous_available(medias, selected as int), selected),
            )
        } else if code == KeyCode::Enter {
            if selected < medias.len() {
                if medias[selected as int].available {
                    self.played(medias[selected as int].url)
                } else {
                    self.logged("Stream not available (cold storage)"@).streams_at(
                        name,
                        medias,
                        selected,
                    )
                }
            } else {
                self
            }
        } else if code == KeyCode::Esc {
            self
        } else {
            self.streams_at(name, medias, selected)
        }
    }

    pub open spec fn with_player(self, cmd: Chars) -> AppView {
        AppView { config: ConfigView { player: Some(cmd), ..self.config }, ..self }
    }

    pub open spec fn player_chosen(self, cmd: Chars, url: Chars) -> AppView {
        self.logged("Player set to: "@ + cmd).player_asked(cmd, url).with_player(
            cmd,
        ).saving_silently()
    }

    #[verifier::opaque]
    pub open spec fn player_key(
        self,
        value: Chars,
        url: Chars,
        code: KeyCode,
        modifiers: KeyModifiers,
    ) -> AppView {
        let e = self.typing(value, code, modifiers);
        let a = self.typed(value, code, modifiers);
        let cmd = trimmed(e.value);
        let same = a.in_mode(ModeView::PlayerInput { value: e.value, pending_url: url });
        match e.done {
            Some(done) => if !done {
                a
            } else if cmd.len() > 0 {
                a.player_chosen(cmd, url)
            } else {
                same
            },
            None => same,
        }
    }

    /// Back in the trash where the details were opened from there.
    pub open spec fn trash_resumed(self) -> AppView {
        let left = self.trash_entries.len() > 0;
        AppView {
            trash_entries: if left {
                Seq::empty()
            } else {
                self.trash_entries
            },
            input: if left {
                ModeView::TrashView {
                    entries: self.trash_entries,
                    selected: self.trash_selected,
                    expanded: self.trash_expanded,
                }
            } else {
                self.input
            },
            ..self
        }
    }

    #[verifier::opaque]
    pub open spec fn info_loading_key(self, code: KeyCode) -> AppView {
        if code == KeyCode::Esc {
            self.modal_invalidated().trash_resumed().finished_loading()
        } else {
            self
        }
    }

    /// What a key does in a mode.
    #[verifier::opaque]
    pub open spec fn mode_key(self, mode: ModeView, code: KeyCode, modifiers: KeyModifiers) -> AppView {
        match mode {
            ModeView::Login { field, email, password, logging_in, .. } => self.login_key(
                field,
                email,
                password,
                logging_in,
                code,
                modifiers,
            ),
            ModeView::Normal => self.cursor_at_end().acted(binding(code, modifiers)),
            ModeView::ActionMenu { selected } => self.menu_key(selected, code),
            ModeView::Rename { value } => self.rename_key(value, code, modifiers),
            ModeView::Mkdir { value } => self.mkdir_key(value, code, modifiers),
            ModeView::ConfirmQuit => if code == KeyCode::Char('y') || code == KeyCode::Char('n')
                || code == KeyCode::Esc {
                self
            } else {
                self.in_mode(ModeView::ConfirmQuit)
            },
            ModeView::GotoPath { query } => self.goto_key(query, code, modifiers),
            ModeView::ConfirmDelete => self.confirm_delete_key(code),
            ModeView::ConfirmPermanentDelete { value } => self.confirm_permanent_delete_key(
                value,
                code,
                modifiers,
            ),
            _ => self.moving_key(mode, code, modifiers),
        }
    }

    /// What a key does where entries are moved and copied, and in the cart.
    #[verifier::opaque]
    pub open spec fn moving_key(
        self,
        mode: ModeView,
        code: KeyCode,
        modifiers: KeyModifiers,
    ) -> AppView {
        match mode {
            ModeView::MoveInput { source, input } => self.path_input_key(
                Some(source),
                input,
                true,
                code,
                modifiers,
            ),
            ModeView::CopyInput { source, input } => self.path_input_key(
                Some(source),
                input,
                false,
                code,
                modifiers,
            ),
            ModeView::MovePicker { source, picker } => self.picker_key(
                Some(source),
                picker,
                true,
                code,
            ),
            ModeView::CopyPicker { source, picker } => self.picker_key(
                Some(source),
                picker,
                false,
                code,
            ),
            ModeView::CartView => self.cart_key(cart_binding(code)),
            ModeView::CartMoveInput { input } => self.path_input_key(
                None,
                input,
                true,
                code,
                modifiers,
            ),
            ModeView::CartCopyInput { input } => self.path_input_key(
                None,
                input,
                false,
                code,
                modifiers,
            ),
            ModeView::CartMovePicker { picker } => self.picker_key(None, picker, true, code),
            ModeView::CartCopyPicker { picker } => self.picker_key(None, picker, false, code),
            ModeView::ConfirmCartDelete => self.confirm_cart_delete_key(code),
            _ => self.page_key(mode, code, modifiers),
        }
    }

    /// What a key does in the download, upload and offline dialogs and pages.
    #[verifier::opaque]
    pub open spec fn page_key(self, mode: ModeView, code: KeyCode, modifiers: KeyModifiers) -> AppView {
        match mode {
            ModeView::DownloadInput { input } => self.local_input_key(
                input,
                false,
                code,
                modifiers,
            ),
            ModeView::UploadInput { input } => self.local_input_key(input, true, code, modifiers),
            ModeView::DownloadView => self.downloads_key(code),
            ModeView::OfflineInput { value } => self.offline_input_key(value, code, modifiers),
            ModeView::SaveShareInput { value } => self.save_share_key(value, code, modifiers),
            ModeView::OfflineTasksView { tasks, selected } => self.tasks_key(
                tasks,
                selected,
                code,
            ),
            _ => self.media_key(mode, code, modifiers),
        }
    }

    /// What a key does in the details, in a preview and in the playing dialogs.
    #[verifier::opaque]
    pub open spec fn media_key(
        self,
        mode: ModeView,
        code: KeyCode,
        modifiers: KeyModifiers,
    ) -> AppView {
        match mode {
            ModeView::InfoLoading => self.info_loading_key(code),
            ModeView::InfoView { .. } => self.trash_resumed(),
            ModeView::InfoFolderView { entries, .. } => self.showing(
                PreviewView::FolderListing(entries),
            ),
            ModeView::TextPreviewView { .. } => self,
            ModeView::ConfirmPlay { name, url } => self.confirm_play_key(name, url, code),
            ModeView::PlayPicker { name, medias, selected } => self.streams_key(
                name,
                medias,
                selected,
                code,
            ),
            ModeView::PlayerInput { value, pending_url } => self.player_key(
                value,
                pending_url,
                code,
                modifiers,
            ),
            _ => self.listing_key(mode, code, modifiers),
        }
    }

    /// What a key does in the trash and among the shares.
    #[verifier::opaque]
    pub open spec fn listing_key(
        self,
        mode: ModeView,
        code: KeyCode,
        modifiers: KeyModifiers,
    ) -> AppView {
        match mode {
            ModeView::TrashView { entries, selected, expanded } => self.trash_key(
                entries,
                selected,
                expanded,
                code,
            ),
            ModeView::SharePrompt => self.share_prompt_key(code),
            ModeView::ShareCreatedView { shares } => self.created_shares_key(
                shares,
                code,
                modifiers,
            ),
            ModeView::MySharesView { shares, selected, confirm_delete } => self.shares_key(
                shares,
                selected,
                confirm_delete,
                code,
            ),
            _ => self.options_key(mode, code, modifiers),
        }
    }

    /// What a key does in the settings.
    #[verifier::opaque]
    pub open spec fn options_key(
        self,
        mode: ModeView,
        code: KeyCode,
        modifiers: KeyModifiers,
    ) -> AppView {
        match mode {
            ModeView::Settings { selected, editing, draft, modified } => self.settings_key(
                SettingsView { selected, editing, draft, modified },
                code,
                modifiers,
            ),
            ModeView::ConfirmDiscardSettings { selected, draft } => self.discard_key(
                selected,
                draft,
                code,
            ),
            ModeView::CustomColorSettings {
                selected,
                draft,
                modified,
                editing_rgb,
                rgb_input,
                rgb_component,
            } => self.colors_key(
                ColorsView { selected, draft, modified, editing_rgb, rgb_input, rgb_component },
                code,
            ),
            ModeView::ImageProtocolSettings {
                selected,
                draft,
                modified,
                current_terminal,
                terminals,
            } => self.protocols_key(
                ProtocolsView { selected, draft, modified, current_terminal, terminals },
                code,
            ),
            _ => self,
        }
    }

    /// Whether a key ends the program in a mode.
    pub open spec fn mode_quits(self, mode: ModeView, code: KeyCode, modifiers: KeyModifiers) -> bool {
        match mode {
            ModeView::Login { logging_in, .. } => !logging_in && code == KeyCode::Esc,
            ModeView::Normal => self.quits(binding(code, modifiers)),
            ModeView::ActionMenu { selected } => self.menu_quits(selected, code),
            ModeView::ConfirmQuit => code == KeyCode::Char('y'),
            _ => false,
        }
    }

    pub open spec fn help_at(self, scroll: int) -> AppView {
        AppView { help_scroll: scroll as usize, ..self }
    }

    pub open spec fn help_closed(self) -> AppView {
        AppView { show_help_sheet: false, help_scroll: 0, ..self }
    }

    /// What a key does while the help is shown: it scrolls a help that is too long for the screen,
    /// and closes it otherwise.
    pub open spec fn help_key(self, code: KeyCode) -> AppView {
        let max = self.screen.help_scroll_max as int;
        let at = self.help_scroll as int;
        if max == 0 {
            self.help_closed()
        } else if code == KeyCode::Down || code == KeyCode::Char('j') {
            self.help_at(min_int(at + 1, max))
        } else if code == KeyCode::Up || code == KeyCode::Char('k') {
            self.help_at(max_int(at - 1, 0))
        } else if code == KeyCode::PageDown {
            self.help_at(min_int(at + 5, max))
        } else if code == KeyCode::PageUp {
            self.help_at(max_int(at - 5, 0))
        } else if code == KeyCode::Home {
            self.help_at(0)
        } else if code == KeyCode::End {
            self.help_at(max)
        } else {
            self.help_closed()
        }
    }

    /// A reply that opens a dialog may only do so as long as nothing else was done meanwhile.
    pub open spec fn attended(self) -> AppView {
        let waits = self.input is InfoLoading;
        let owned = !waits && owns_loading(self.modal_request);
        AppView {
            modal_request: if waits {
                self.modal_request
            } else {
                None
            },
            loading: self.loading && !owned,
            loading_label: if owned {
                None
            } else {
                self.loading_label
            },
            ..self
        }
    }

    pub open spec fn is_interrupt(code: KeyCode, modifiers: KeyModifiers) -> bool {
        code == KeyCode::Char('c') && modifiers.control
    }

    /// The interface after a key.
    #[verifier::opaque]
    pub open spec fn key_handled(self, code: KeyCode, modifiers: KeyModifiers) -> AppView {
        if self.show_help_sheet {
            self.help_key(code)
        } else {
            let a = self.attended();
            if AppView::is_interrupt(code, modifiers) {
                if a.downloads_active {
                    a.in_mode(ModeView::ConfirmQuit)
                } else {
                    a
                }
            } else {
                a.in_mode(ModeView::Normal).mode_key(a.input, code, modifiers)
            }
        }
    }

    /// Whether a key ends the program.
    pub open spec fn key_quits(self, code: KeyCode, modifiers: KeyModifiers) -> bool {
        if self.show_help_sheet {
            false
        } else {
            let a = self.attended();
            if AppView::is_interrupt(code, modifiers) {
                !a.downloads_active
            } else {
                a.in_mode(ModeView::Normal).mode_quits(a.input, code, modifiers)
            }
        }
    }
}

/// The action that an entry of the menu stands for.
pub open spec fn menu_action(selected: usize) -> crate::navigate::NormalAction {
    binding(
        action_list()[selected as int].key,
        KeyModifiers { control: false, alt: false },
    )
}

impl App {
    fn show_login(
        &mut self,
        field: LoginField,
        email: String,
        password: String,
        error: Option<String>,
        logging_in: bool,
    )
        ensures
            final(self)@ == old(self)@.login_form(
                field,
                email@,
                password@,
                crate::text::opt_text(error),
                logging_in,
            ),
    {
        self.set_mode(InputMode::Login { field, email, password, error, logging_in });
    }

    fn type_login(
        &mut self,
        field: LoginField,
        email: String,
        password: String,
        code: KeyCode,
        modifiers: KeyModifiers,
    )
        ensures
            final(self)@ == old(self)@.login_typed(field, email@, password@, code, modifiers),
    {
        match field {
            LoginField::Email => {
                let (email, _done) = self.type_into(email, code, modifiers);
                self.show_login(field, email, password, None, false);
                return;
            },
            LoginField::Password => {
                let (password, _done) = self.type_into(password, code, modifiers);
                self.show_login(field, email, password, None, false);
                return;
            },
        }
    }

    fn handle_login_key(
        &mut self,
        field: LoginField,
        email: String,
        password: String,
        logging_in: bool,
        code: KeyCode,
        modifiers: KeyModifiers,
    )
        ensures
            final(self)@ == old(self)@.login_key(
                field,
                email@,
                password@,
                logging_in,
                code,
                modifiers,
            ),
    {
        reveal(AppView::login_key);
        if logging_in {
            self.show_login(field, email, password, None, true);
            return;
        }
        if code == KeyCode::Esc {
            return;
        }
        if code == KeyCode::Tab || code == KeyCode::BackTab {
            self.cursor_to_end();
            self.show_login(switch_field(field), email, password, None, false);
            return;
        }
        if code == KeyCode::Enter {
            let name: String = trim(email.as_str());
            if name.as_str().is_empty() || password.as_str().is_empty() {
                self.show_login(
                    field,
                    email,
                    password,
                    Some(owned("Email and password are required")),
                    false,
                );
                return;
            }
            let e: String = email.clone();
            let p: String = password.clone();
            self.show_login(field, email, password, None, true);
            self.attempt_login(e.as_str(), p.as_str());
            return;
        }
        self.type_login(field, email, password, code, modifiers);
    }

    fn show_menu(&mut self, selected: usize)
        ensures
            final(self)@ == old(self)@.menu_at(selected),
    {
        self.set_mode(InputMode::ActionMenu { selected });
    }

    fn handle_menu_key(&mut self, selected: usize, code: KeyCode) -> (quit: bool)
        ensures
            final(self)@ == old(self)@.menu_key(selected, code),
            quit == old(self)@.menu_quits(selected, code),
    {
        reveal(AppView::menu_key);
        if code == KeyCode::Esc || code == KeyCode::Char('?') {
            return false;
        }
        if code == KeyCode::Down || code == KeyCode::Char('j') {
            let at: usize = crate::navigate::step_down(selected, 1, ACTION_COUNT);
            self.show_menu(at);
            return false;
        }
        if code == KeyCode::Up || code == KeyCode::Char('k') {
            self.show_menu(go_up(selected));
            return false;
        }
        if code == KeyCode::Home {
            self.show_menu(0);
            return false;
        }
        if code == KeyCode::End {
            self.show_menu(ACTION_COUNT - 1);
            return false;
        }
        if code == KeyCode::Enter {
            if selected < ACTION_COUNT {
                let actions: Vec<ActionItem> = normal_actions();
                let key: KeyCode = actions[selected].key;
                assert(key == actions_view(actions@)[selected as int].key);
                return self.handle_normal_key(key, KeyModifiers::none());
            }
            return false;
        }
        self.show_menu(selected);
        false
    }

    pub fn spawn_rename(&mut self, e: Entry, new_name: String)
        ensures
            final(self)@ == old(self)@.rename_asked(e, new_name@),
    {
        self.ask_remote(RemoteOp::Rename { id: e.id, old_name: e.name, new_name });
    }

    fn handle_rename_key(&mut self, value: String, code: KeyCode, modifiers: KeyModifiers)
        ensures
            final(self)@ == old(self)@.rename_key(value@, code, modifiers),
    {
        reveal(AppView::rename_key);
        let current: Option<Entry> = self.current_entry();
        let (value, done) = self.type_into(value, code, modifiers);
        match done {
            Some(confirmed) => {
                let name: String = trim(value.as_str());
                match current {
                    Some(e) => {
                        if confirmed && !name.as_str().is_empty() {
                            self.spawn_rename(e, name);
                            return;
                        }
                        return;
                    },
                    None => {
                        return;
                    },
                }
            },
            None => {
                self.set_mode(InputMode::Rename { value });
                return;
            },
        }
    }

    pub fn spawn_mkdir(&mut self, name: String)
        ensures
            final(self)@ == old(self)@.remote_asked(
                RemoteOpView::Mkdir { parent_id: old(self)@.current_folder_id, name: name@ },
            ),
    {
        let parent_id: String = self.current_folder_id.clone();
        self.ask_remote(RemoteOp::Mkdir { parent_id, name });
    }

    fn handle_mkdir_key(&mut self, value: String, code: KeyCode, modifiers: KeyModifiers)
        ensures
            final(self)@ == old(self)@.mkdir_key(value@, code, modifiers),
    {
        reveal(AppView::mkdir_key);
        let (value, done) = self.type_into(value, code, modifiers);
        match done {
            Some(confirmed) => {
                let name: String = trim(value.as_str());
                if confirmed && !name.as_str().is_empty() {
                    self.spawn_mkdir(name);
                    return;
                }
                return;
            },
            None => {
                self.set_mode(InputMode::Mkdir { value });
                return;
            },
        }
    }

    fn ask_goto(&mut self, path: String)
        ensures
            final(self)@ == old(self)@.goto_asked(path@),
    {
        self.start_loading();
        let request: AsyncRequest = self.begin_modal_request(AsyncRequestKind::GotoPath, path);
        self.ask(Effect::ResolveNav { request });
    }

    fn handle_goto_key(&mut self, query: String, code: KeyCode, modifiers: KeyModifiers)
        ensures
            final(self)@ == old(self)@.goto_key(query@, code, modifiers),
    {
        reveal(AppView::goto_key);
        let (query, done) = self.type_into(query, code, modifiers);
        match done {
            Some(confirmed) => {
                let path: String = trim(query.as_str());
                if confirmed && !path.as_str().is_empty() {
                    self.ask_goto(path);
                    return;
                }
                return;
            },
            None => {
                self.set_mode(InputMode::GotoPath { query });
                return;
            },
        }
    }

    /// Moves an entry to the trash.
    pub fn spawn_delete(&mut self, e: Entry)
        ensures
            final(self)@ == old(self)@.remote_asked(
                RemoteOpView::Trash { id: e.id@, name: e.name@ },
            ),
    {
        self.ask_remote(RemoteOp::Trash { id: e.id, name: e.name });
    }

    /// Deletes an entry for good.
    pub fn spawn_permanent_delete(&mut self, e: Entry)
        ensures
            final(self)@ == old(self)@.remote_asked(
                RemoteOpView::Delete { id: e.id@, name: e.name@ },
            ),
    {
        self.ask_remote(RemoteOp::Delete { id: e.id, name: e.name });
    }

    fn delete_current(&mut self)
        ensures
            final(self)@ == old(self)@.deletion_asked(),
    {
        match self.current_entry() {
            Some(e) => {
                self.spawn_permanent_delete(e);
                return;
            },
            None => {
                return;
            },
        }
    }

    fn cursor_to_start(&mut self)
        ensures
            final(self)@ == old(self)@.cursor_at_start(),
    {
        self.text_cursor = 0;
    }

    fn handle_confirm_delete_key(&mut self, code: KeyCode)
        ensures
            final(self)@ == old(self)@.confirm_delete_key(code),
    {
        reveal(AppView::confirm_delete_key);
        if code == KeyCode::Char('y') {
            self.delete_current();
            return;
        }
        if code == KeyCode::Char('p') {
            self.cursor_to_start();
            self.set_mode(InputMode::ConfirmPermanentDelete { value: empty_text() });
            return;
        }
        if code == KeyCode::Char('n') || code == KeyCode::Esc {
            self.log("Delete cancelled");
            return;
        }
        self.set_mode(InputMode::ConfirmDelete);
    }

    fn handle_confirm_permanent_delete_key(
        &mut self,
        value: String,
        code: KeyCode,
        modifiers: KeyModifiers,
    )
        ensures
            final(self)@ == old(self)@.confirm_permanent_delete_key(value@, code, modifiers),
    {
        reveal(AppView::confirm_permanent_delete_key);
        let (value, done) = self.type_into(value, code, modifiers);
        match done {
            Some(confirmed) => {
                if !confirmed {
                    self.log("Permanent delete cancelled");
                    return;
                }
                if str_eq(value.as_str(), "yes") {
                    self.delete_current();
                    return;
                }
                self.log("Permanent delete cancelled (type 'yes' to confirm)");
                return;
            },
            None => {
                self.set_mode(InputMode::ConfirmPermanentDelete { value });
                return;
            },
        }
    }

    fn play(&mut self, url: String)
        ensures
            final(self)@ == old(self)@.played(url@),
    {
        let player: Option<String> = clone_opt(&self.config.player);
        match player {
            Some(cmd) => {
                self.spawn_player(cmd.as_str(), url.as_str());
                return;
            },
            None => {
                self.set_mode(InputMode::PlayerInput { value: empty_text(), pending_url: url });
                return;
            },
        }
    }

    fn handle_confirm_play_key(&mut self, name: String, url: String, code: KeyCode)
        ensures
            final(self)@ == old(self)@.confirm_play_key(name@, url@, code),
    {
        reveal(AppView::confirm_play_key);
        if code == KeyCode::Enter || code == KeyCode::Char('y') {
            self.play(url);
            return;
        }
        if code == KeyCode::Esc || code == KeyCode::Char('n') {
            return;
        }
        self.set_mode(InputMode::ConfirmPlay { name, url });
    }

    fn show_streams(&mut self, name: String, medias: Vec<PlayOption>, selected: usize)
        ensures
            final(self)@ == old(self)@.streams_at(name@, options_view(medias@), selected),
    {
        self.set_mode(InputMode::PlayPicker { name, medias, selected });
    }

    fn handle_streams_key(
        &mut self,
        name: String,
        medias: Vec<PlayOption>,
        selected: usize,
        code: KeyCode,
    )
        ensures
            final(self)@ == old(self)@.streams_key(
                name@,
                options_view(medias@),
                selected,
                code,
            ),
    {
        reveal(AppView::streams_key);
        if code == KeyCode::Down || code == KeyCode::Char('j') {
            let at: usize = stream_below(&medias, selected);
            self.show_streams(name, medias, at);
            return;
        }
        if code == KeyCode::Up || code == KeyCode::Char('k') {
            let at: usize = stream_above(&medias, selected);
            self.show_streams(name, medias, at);
            return;
        }
        if code == KeyCode::Enter {
            if selected < medias.len() {
                if medias[selected].available {
                    let url: String = medias[selected].url.clone();
                    self.play(url);
                    return;
                }
                self.log("Stream not available (cold storage)");
                self.show_streams(name, medias, selected);
                return;
            }
            return;
        }
        if code == KeyCode::Esc {
            return;
        }
        self.show_streams(name, medias, selected);
    }

    fn keep_player(&mut self, cmd: String)
        ensures
            final(self)@ == old(self)@.with_player(cmd@),
    {
        self.config.player = Some(cmd);
    }

    fn choose_player(&mut self, cmd: String, url: &str)
        ensures
            final(self)@ == old(self)@.player_chosen(cmd@, url@),
    {
        self.push_log(cat2("Player set to: ", cmd.as_str()));
        self.spawn_player(cmd.as_str(), url);
        self.keep_player(cmd);
        self.save_silently();
    }

    fn handle_player_key(
        &mut self,
        value: String,
        url: String,
        code: KeyCode,
        modifiers: KeyModifiers,
    )
        ensures
            final(self)@ == old(self)@.player_key(value@, url@, code, modifiers),
    {
        reveal(AppView::player_key);
        let (value, done) = self.type_into(value, code, modifiers);
        match done {
            Some(confirmed) => {
                if !confirmed {
                    return;
                }
                let cmd: String = trim(value.as_str());
                if !cmd.as_str().is_empty() {
                    self.choose_player(cmd, url.as_str());
                    return;
                }
                self.set_mode(InputMode::PlayerInput { value, pending_url: url });
                return;
            },
            None => {
                self.set_mode(InputMode::PlayerInput { value, pending_url: url });
                return;
            },
        }
    }

    fn resume_trash(&mut self)
        ensures
            final(self)@ == old(self)@.trash_resumed(),
    {
        if self.trash_entries.len() > 0 {
            self.reopen_kept_trash();
            return;
        }
    }

    fn reopen_kept_trash(&mut self)
        ensures
            final(self)@ == (AppView {
                trash_entries: Seq::empty(),
                input: ModeView::TrashView {
                    entries: old(self)@.trash_entries,
                    selected: old(self)@.trash_selected,
                    expanded: old(self)@.trash_expanded,
                },
                ..old(self)@
            }),
    {
        let mut entries: Vec<Entry> = Vec::new();
        std::mem::swap(&mut entries, &mut self.trash_entries);
        self.input = InputMode::TrashView {
            entries,
            selected: self.trash_selected,
            expanded: self.trash_expanded,
        };
    }

    fn handle_info_loading_key(&mut self, code: KeyCode)
        ensures
            final(self)@ == old(self)@.info_loading_key(code),
    {
        reveal(AppView::info_loading_key);
        if code == KeyCode::Esc {
            self.invalidate_modal_request();
            self.resume_trash();
            self.finish_loading();
            return;
        }
    }

    fn keep_listing(&mut self, entries: Vec<Entry>)
        ensures
            final(self)@ == old(self)@.showing(PreviewView::FolderListing(entries@)),
    {
        self.preview_state = PreviewState::FolderListing(entries);
    }

    fn handle_mode_key(&mut self, mode: InputMode, code: KeyCode, modifiers: KeyModifiers) -> (quit:
        bool)
        ensures
            final(self)@ == old(self)@.mode_key(mode@, code, modifiers),
            quit == old(self)@.mode_quits(mode@, code, modifiers),
    {
        reveal(AppView::mode_key);
        match mode {
            InputMode::Login { field, email, password, error: _, logging_in } => {
                self.handle_login_key(field, email, password, logging_in, code, modifiers);
                return !logging_in && code == KeyCode::Esc;
            },
            InputMode::Normal => {
                self.cursor_to_end();
                return self.handle_normal_key(code, modifiers);
            },
            InputMode::ActionMenu { selected } => {
                return self.handle_menu_key(selected, code);
            },
            InputMode::Rename { value } => {
                self.handle_rename_key(value, code, modifiers);
                return false;
            },
            InputMode::Mkdir { value } => {
                self.handle_mkdir_key(value, code, modifiers);
                return false;
            },
            InputMode::ConfirmQuit => {
                if code == KeyCode::Char('y') {
                    return true;
                }
                if code == KeyCode::Char('n') || code == KeyCode::Esc {
                    return false;
                }
                self.set_mode(InputMode::ConfirmQuit);
                return false;
            },
            InputMode::GotoPath { query } => {
                self.handle_goto_key(query, code, modifiers);
                return false;
            },
            InputMode::ConfirmDelete => {
                self.handle_confirm_delete_key(code);
                return false;
            },
            InputMode::ConfirmPermanentDelete { value } => {
                self.handle_confirm_permanent_delete_key(value, code, modifiers);
                return false;
            },
            other => {
                self.handle_moving_key(other, code, modifiers);
                return false;
            },
        }
    }

    fn handle_moving_key(&mut self, mode: InputMode, code: KeyCode, modifiers: KeyModifiers)
        ensures
            final(self)@ == old(self)@.moving_key(mode@, code, modifiers),
    {
        proof {
            reveal(AppView::moving_key);
        }
        match mode {
            InputMode::MoveInput { source, input } => {
                self.handle_generic_path_input_key(code, modifiers, input, true, Some(source));
                return;
            },
            InputMode::CopyInput { source, input } => {
                self.handle_generic_path_input_key(code, modifiers, input, false, Some(source));
                return;
            },
            InputMode::MovePicker { source, picker } => {
                self.handle_generic_picker_key(code, picker, true, Some(source));
                return;
            },
            InputMode::CopyPicker { source, picker } => {
                self.handle_generic_picker_key(code, picker, false, Some(source));
                return;
            },
            InputMode::CartView => {
                self.handle_cart_view_key(code);
                return;
            },
            InputMode::CartMoveInput { input } => {
                self.handle_generic_path_input_key(code, modifiers, input, true, None);
                return;
            },
            InputMode::CartCopyInput { input } => {
                self.handle_generic_path_input_key(code, modifiers, input, false, None);
                return;
            },
            InputMode::CartMovePicker { picker } => {
                self.handle_generic_picker_key(code, picker, true, None);
                return;
            },
            InputMode::CartCopyPicker { picker } => {
                self.handle_generic_picker_key(code, picker, false, None);
                return;
            },
            InputMode::ConfirmCartDelete => {
                self.handle_confirm_cart_delete_key(code);
                return;
            },
            other => {
                self.handle_page_key(other, code, modifiers);
                return;
            },
        }
    }

    fn handle_page_key(&mut self, mode: InputMode, code: KeyCode, modifiers: KeyModifiers)
        ensures
            final(self)@ == old(self)@.page_key(mode@, code, modifiers),
    {
        proof {
            reveal(AppView::page_key);
        }
        match mode {
            InputMode::DownloadInput { input } => {
                self.apply_local_path_input_key(code, modifiers, input, false);
                return;
            },
            InputMode::UploadInput { input } => {
                self.apply_local_path_input_key(code, modifiers, input, true);
                return;
            },
            InputMode::DownloadView => {
                self.handle_download_view_key(code);
                return;
            },
            InputMode::OfflineInput { value } => {
                self.handle_offline_input_key(code, modifiers, value);
                return;
            },
            InputMode::SaveShareInput { value } => {
                self.handle_save_share_input_key(code, modifiers, value);
                return;
            },
            InputMode::OfflineTasksView { tasks, selected } => {
                self.handle_offline_tasks_key(code, tasks, selected);
                return;
            },
            other => {
                self.handle_media_key(other, code, modifiers);
                return;
            },
        }
    }

    fn handle_media_key(&mut self, mode: InputMode, code: KeyCode, modifiers: KeyModifiers)
        ensures
            final(self)@ == old(self)@.media_key(mode@, code, modifiers),
    {
        proof {
            reveal(AppView::media_key);
        }
        match mode {
            InputMode::InfoLoading => {
                self.handle_info_loading_key(code);
                return;
            },
            InputMode::InfoView { .. } => {
                self.resume_trash();
                return;
            },
            InputMode::InfoFolderView { name: _, entries } => {
                self.keep_listing(entries);
                return;
            },
            InputMode::TextPreviewView { .. } => {
                return;
            },
            InputMode::ConfirmPlay { name, url } => {
                self.handle_confirm_play_key(name, url, code);
                return;
            },
            InputMode::PlayPicker { name, medias, selected } => {
                self.handle_streams_key(name, medias, selected, code);
                return;
            },
            InputMode::PlayerInput { value, pending_url } => {
                self.handle_player_key(value, pending_url, code, modifiers);
                return;
            },
            other => {
                self.handle_listing_key(other, code, modifiers);
                return;
            },
        }
    }

    fn handle_listing_key(&mut self, mode: InputMode, code: KeyCode, modifiers: KeyModifiers)
        ensures
            final(self)@ == old(self)@.listing_key(mode@, code, modifiers),
    {
        proof {
            reveal(AppView::listing_key);
        }
        match mode {
            InputMode::TrashView { entries, selected, expanded } => {
                self.handle_trash_view_key(code, entries, selected, expanded);
                return;
            },
            InputMode::SharePrompt => {
                self.handle_share_prompt_key(code);
                return;
            },
            InputMode::ShareCreatedView { shares } => {
                self.handle_share_created_view_key(code, modifiers, shares);
                return;
            },
            InputMode::MySharesView { shares, selected, confirm_delete } => {
                self.handle_my_shares_key(code, shares, selected, confirm_delete);
                return;
            },
            other => {
                self.handle_options_key(other, code, modifiers);
                return;
            },
        }
    }

    fn handle_options_key(&mut self, mode: InputMode, code: KeyCode, modifiers: KeyModifiers)
        ensures
            final(self)@ == old(self)@.options_key(mode@, code, modifiers),
    {
        proof {
            reveal(AppView::options_key);
        }
        match mode {
            InputMode::Settings { selected, editing, draft, modified } => {
                let state: SettingsState = SettingsState { selected, editing, draft, modified };
                self.handle_settings_key(code, modifiers, state);
                return;
            },
            InputMode::ConfirmDiscardSettings { selected, draft } => {
                self.handle_discard_key(code, selected, draft);
                return;
            },
            InputMode::CustomColorSettings {
                selected,
                draft,
                modified,
                editing_rgb,
                rgb_input,
                rgb_component,
            } => {
                let state: ColorsState = ColorsState {
                    selected,
                    draft,
                    modified,
                    editing_rgb,
                    rgb_input,
                    rgb_component,
                };
                self.handle_custom_color_key(code, state);
                return;
            },
            InputMode::ImageProtocolSettings {
                selected,
                draft,
                modified,
                current_terminal,
                terminals,
            } => {
                let state: ProtocolsState = ProtocolsState {
                    selected,
                    draft,
                    modified,
                    current_terminal,
                    terminals,
                };
                self.handle_image_protocol_key(code, state);
                return;
            },
            _ => {
                return;
            },
        }
    }

    fn scroll_help(&mut self, to: usize)
        ensures
            final(self)@ == old(self)@.help_at(to as int),
    {
        self.help_scroll = to;
    }

    pub(crate) fn close_help(&mut self)
        ensures
            final(self)@ == old(self)@.help_closed(),
    {
        self.show_help_sheet = false;
        self.help_scroll = 0;
    }

    fn handle_help_key(&mut self, code: KeyCode)
        ensures
            final(self)@ == old(self)@.help_key(code),
    {
        let max: usize = self.screen.help_scroll_max;
        let at: usize = self.help_scroll;
        if max == 0 {
            self.close_help();
            return;
        }
        if code == KeyCode::Down || code == KeyCode::Char('j') {
            self.scroll_help(scrolled_down(at, 1, max));
            return;
        }
        if code == KeyCode::Up || code == KeyCode::Char('k') {
            self.scroll_help(at.saturating_sub(1));
            return;
        }
        if code == KeyCode::PageDown {
            self.scroll_help(scrolled_down(at, 5, max));
            return;
        }
        if code == KeyCode::PageUp {
            self.scroll_help(at.saturating_sub(5));
            return;
        }
        if code == KeyCode::Home {
            self.scroll_help(0);
            return;
        }
        if code == KeyCode::End {
            self.scroll_help(max);
            return;
        }
        self.close_help();
    }

    pub(crate) fn attend(&mut self)
        ensures
            final(self)@ == old(self)@.attended(),
    {
        let waiting: bool = match &self.input {
            InputMode::InfoLoading => true,
            _ => false,
        };
        if !waiting {
            self.invalidate_modal_request();
            return;
        }
    }

    pub(crate) fn take_mode(&mut self) -> (r: InputMode)
        ensures
            r@ == old(self)@.input,
            final(self)@ == old(self)@.in_mode(ModeView::Normal),
    {
        let mut mode: InputMode = InputMode::Normal;
        std::mem::swap(&mut mode, &mut self.input);
        mode
    }

    /// Handles a key. The answer tells whether it ends the program.
    pub fn handle_key(&mut self, code: KeyCode, modifiers: KeyModifiers) -> (quit: bool)
        ensures
            final(self)@ == old(self)@.key_handled(code, modifiers),
            quit == old(self)@.key_quits(code, modifiers),
    {
        reveal(AppView::key_handled);
        if self.show_help_sheet {
            self.handle_help_key(code);
            return false;
        }
        self.attend();
        if code == KeyCode::Char('c') && modifiers.control {
            if self.downloads_active {
                self.set_mode(InputMode::ConfirmQuit);
                return false;
            }
            return true;
        }
        let mode: InputMode = self.take_mode();
        self.handle_mode_key(mode, code, modifiers)
    }
}

/// A scroll position further down, as far as `max`.
pub(crate) fn scrolled_down(at: usize, n: usize, max: usize) -> (r: usize)
    ensures
        r == min_int(at + n, max as int),
{
    let to: usize = at.saturating_add(n);
    if to < max {
        to
    } else {
        max
    }
}

} // verus!
