//! Which keys each dialog takes: every key goes to the dialog that is open, which is closed unless
//! it opens itself again, once what another key was waiting for is given up.

use crate::app::AppView;
use crate::event::{KeyCode, KeyModifiers};
use crate::model::{
    ConfigView, Entry, LocalPathInputView, LoginField, ModeView, MyShare, OfflineTask,
    PathInputView, PickerView, PlayOptionView, PreviewView,
};
use crate::settings::{ColorsView, ProtocolsView, SettingsView};
use crate::text::Chars;
use crate::transfer::cart_binding;
use vstd::prelude::*;

verus! {

impl AppView {
    /// Whether a key goes to the dialog that is open.
    pub open spec fn takes(self, code: KeyCode, m: KeyModifiers) -> bool {
        !self.show_help_sheet && !(code == KeyCode::Char('c') && m.control)
    }

    /// The state without the dialog that is open and without the request that it made.
    pub open spec fn closed(self) -> AppView {
        AppView { input: ModeView::Normal, ..self.modal_invalidated() }
    }
}

/// The form of the login takes the keys, with what was typed so far.
pub proof fn law_login_takes_its_keys(
    a: AppView,
    field: LoginField,
    email: Chars,
    password: Chars,
    error: Option<Chars>,
    logging_in: bool,
    code: KeyCode,
    m: KeyModifiers,
)
    requires
        a.takes(code, m),
        a.input == (ModeView::Login { field, email, password, error, logging_in }),
    ensures
        a.key_handled(code, m) == a.closed().login_key(field, email, password, logging_in, code, m),
{
    reveal(AppView::key_handled);
    reveal(AppView::mode_key);
}

/// The list of actions takes the keys.
pub proof fn law_menu_takes_its_keys(a: AppView, selected: usize, code: KeyCode, m: KeyModifiers)
    requires
        a.takes(code, m),
        a.input == (ModeView::ActionMenu { selected }),
    ensures
        a.key_handled(code, m) == a.closed().menu_key(selected, code),
{
    reveal(AppView::key_handled);
    reveal(AppView::mode_key);
}

/// The dialogs of a name and of a path take the keys, each as its own.
pub proof fn law_name_dialogs_take_their_keys(
    a: AppView,
    value: Chars,
    code: KeyCode,
    m: KeyModifiers,
)
    requires
        a.takes(code, m),
    ensures
        a.input == (ModeView::Rename { value }) ==> a.key_handled(code, m)
            == a.closed().rename_key(value, code, m),
        a.input == (ModeView::Mkdir { value }) ==> a.key_handled(code, m)
            == a.closed().mkdir_key(value, code, m),
        a.input == (ModeView::GotoPath { query: value }) ==> a.key_handled(code, m)
            == a.closed().goto_key(value, code, m),
{
    reveal(AppView::key_handled);
    reveal(AppView::mode_key);
}

/// The questions about a deletion take the keys.
pub proof fn law_deletion_dialogs_take_their_keys(
    a: AppView,
    value: Chars,
    code: KeyCode,
    m: KeyModifiers,
)
    requires
        a.takes(code, m),
    ensures
        a.input == (ModeView::ConfirmDelete) ==> a.key_handled(code, m)
            == a.closed().confirm_delete_key(code),
        a.input == (ModeView::ConfirmPermanentDelete { value }) ==> a.key_handled(code, m)
            == a.closed().confirm_permanent_delete_key(value, code, m),
{
    reveal(AppView::key_handled);
    reveal(AppView::mode_key);
}

/// The pickers of a destination take the keys: that of a move as a move, that of a copy as a copy.
pub proof fn law_pickers_take_their_keys(
    a: AppView,
    e: Entry,
    p: PickerView,
    code: KeyCode,
    m: KeyModifiers,
)
    requires
        a.takes(code, m),
    ensures
        a.input == (ModeView::MovePicker { source: e, picker: p }) ==> a.key_handled(code, m)
            == a.closed().picker_key(Some(e), p, true, code),
        a.input == (ModeView::CopyPicker { source: e, picker: p }) ==> a.key_handled(code, m)
            == a.closed().picker_key(Some(e), p, false, code),
        a.input == (ModeView::CartMovePicker { picker: p }) ==> a.key_handled(code, m)
            == a.closed().picker_key(None, p, true, code),
        a.input == (ModeView::CartCopyPicker { picker: p }) ==> a.key_handled(code, m)
            == a.closed().picker_key(None, p, false, code),
{
    reveal(AppView::key_handled);
    reveal(AppView::mode_key);
    reveal(AppView::moving_key);
}

/// The dialogs of a destination take the keys: that of a move as a move, that of a copy as a copy.
pub proof fn law_path_inputs_take_their_keys(
    a: AppView,
    e: Entry,
    i: PathInputView,
    code: KeyCode,
    m: KeyModifiers,
)
    requires
        a.takes(code, m),
    ensures
        a.input == (ModeView::MoveInput { source: e, input: i }) ==> a.key_handled(code, m)
            == a.closed().path_input_key(Some(e), i, true, code, m),
        a.input == (ModeView::CopyInput { source: e, input: i }) ==> a.key_handled(code, m)
            == a.closed().path_input_key(Some(e), i, false, code, m),
        a.input == (ModeView::CartMoveInput { input: i }) ==> a.key_handled(code, m)
            == a.closed().path_input_key(None, i, true, code, m),
        a.input == (ModeView::CartCopyInput { input: i }) ==> a.key_handled(code, m)
            == a.closed().path_input_key(None, i, false, code, m),
{
    reveal(AppView::key_handled);
    reveal(AppView::mode_key);
    reveal(AppView::moving_key);
}

/// The cart and the question about trashing it take the keys.
pub proof fn law_cart_takes_its_keys(a: AppView, code: KeyCode, m: KeyModifiers)
    requires
        a.takes(code, m),
    ensures
        a.input == (ModeView::CartView) ==> a.key_handled(code, m)
            == a.closed().cart_key(cart_binding(code)),
        a.input == (ModeView::ConfirmCartDelete) ==> a.key_handled(code, m)
            == a.closed().confirm_cart_delete_key(code),
{
    reveal(AppView::key_handled);
    reveal(AppView::mode_key);
    reveal(AppView::moving_key);
}

/// The dialogs of a local path take the keys: that of an upload as an upload, the other as a
/// download.
pub proof fn law_local_inputs_take_their_keys(
    a: AppView,
    i: LocalPathInputView,
    code: KeyCode,
    m: KeyModifiers,
)
    requires
        a.takes(code, m),
    ensures
        a.input == (ModeView::DownloadInput { input: i }) ==> a.key_handled(code, m)
            == a.closed().local_input_key(i, false, code, m),
        a.input == (ModeView::UploadInput { input: i }) ==> a.key_handled(code, m)
            == a.closed().local_input_key(i, true, code, m),
{
    reveal(AppView::key_handled);
    reveal(AppView::mode_key);
    reveal(AppView::moving_key);
    reveal(AppView::page_key);
}

/// The downloads and the offline tasks take the keys.
pub proof fn law_downloads_take_their_keys(
    a: AppView,
    tasks: Seq<OfflineTask>,
    selected: usize,
    code: KeyCode,
    m: KeyModifiers,
)
    requires
        a.takes(code, m),
    ensures
        a.input == (ModeView::DownloadView) ==> a.key_handled(code, m)
            == a.closed().downloads_key(code),
        a.input == (ModeView::OfflineTasksView { tasks, selected }) ==> a.key_handled(code, m)
            == a.closed().tasks_key(tasks, selected, code),
{
    reveal(AppView::key_handled);
    reveal(AppView::mode_key);
    reveal(AppView::moving_key);
    reveal(AppView::page_key);
}

/// The dialogs of a cloud download and of a share take the keys.
pub proof fn law_link_dialogs_take_their_keys(
    a: AppView,
    value: Chars,
    code: KeyCode,
    m: KeyModifiers,
)
    requires
        a.takes(code, m),
    ensures
        a.input == (ModeView::OfflineInput { value }) ==> a.key_handled(code, m)
            == a.closed().offline_input_key(value, code, m),
        a.input == (ModeView::SaveShareInput { value }) ==> a.key_handled(code, m)
            == a.closed().save_share_key(value, code, m),
{
    reveal(AppView::key_handled);
    reveal(AppView::mode_key);
    reveal(AppView::moving_key);
    reveal(AppView::page_key);
}

/// The dialogs about playing take the keys.
pub proof fn law_play_dialogs_take_their_keys(
    a: AppView,
    name: Chars,
    url: Chars,
    medias: Seq<PlayOptionView>,
    selected: usize,
    code: KeyCode,
    m: KeyModifiers,
)
    requires
        a.takes(code, m),
    ensures
        a.input == (ModeView::ConfirmPlay { name, url }) ==> a.key_handled(code, m)
            == a.closed().confirm_play_key(name, url, code),
        a.input == (ModeView::PlayPicker { name, medias, selected }) ==> a.key_handled(code, m)
            == a.closed().streams_key(name, medias, selected, code),
        a.input == (ModeView::PlayerInput { value: name, pending_url: url }) ==> a.key_handled(
            code,
            m,
        ) == a.closed().player_key(name, url, code, m),
{
    reveal(AppView::key_handled);
    reveal(AppView::mode_key);
    reveal(AppView::moving_key);
    reveal(AppView::page_key);
    reveal(AppView::media_key);
}

/// The trash takes the keys.
pub proof fn law_trash_takes_its_keys(
    a: AppView,
    entries: Seq<Entry>,
    selected: usize,
    expanded: bool,
    code: KeyCode,
    m: KeyModifiers,
)
    requires
        a.takes(code, m),
        a.input == (ModeView::TrashView { entries, selected, expanded }),
    ensures
        a.key_handled(code, m) == a.closed().trash_key(entries, selected, expanded, code),
{
    reveal(AppView::key_handled);
    reveal(AppView::mode_key);
    reveal(AppView::moving_key);
    reveal(AppView::page_key);
    reveal(AppView::media_key);
    reveal(AppView::listing_key);
}

/// The pages of the shares take the keys.
pub proof fn law_shares_take_their_keys(
    a: AppView,
    shares: Seq<MyShare>,
    selected: usize,
    asked: Option<Chars>,
    made: Seq<(Chars, Chars, Chars)>,
    code: KeyCode,
    m: KeyModifiers,
)
    requires
        a.takes(code, m),
    ensures
        a.input == (ModeView::MySharesView { shares, selected, confirm_delete: asked })
            ==> a.key_handled(code, m) == a.closed().shares_key(shares, selected, asked, code),
        a.input == (ModeView::ShareCreatedView { shares: made }) ==> a.key_handled(code, m)
            == a.closed().created_shares_key(made, code, m),
        a.input == (ModeView::SharePrompt) ==> a.key_handled(code, m)
            == a.closed().share_prompt_key(code),
{
    reveal(AppView::key_handled);
    reveal(AppView::mode_key);
    reveal(AppView::moving_key);
    reveal(AppView::page_key);
    reveal(AppView::media_key);
    reveal(AppView::listing_key);
}

/// The settings and the question about dropping them take the keys.
pub proof fn law_settings_take_their_keys(
    a: AppView,
    selected: usize,
    editing: bool,
    draft: ConfigView,
    modified: bool,
    code: KeyCode,
    m: KeyModifiers,
)
    requires
        a.takes(code, m),
    ensures
        a.input == (ModeView::Settings { selected, editing, draft, modified })
            ==> a.key_handled(code, m) == a.closed().settings_key(
            SettingsView { selected, editing, draft, modified },
            code,
            m,
        ),
        a.input == (ModeView::ConfirmDiscardSettings { selected, draft }) ==> a.key_handled(code, m)
            == a.closed().discard_key(selected, draft, code),
{
    reveal(AppView::key_handled);
    reveal(AppView::mode_key);
    reveal(AppView::moving_key);
    reveal(AppView::page_key);
    reveal(AppView::media_key);
    reveal(AppView::listing_key);
    reveal(AppView::options_key);
}

/// Beside the main pane, the list of actions, the form of the login and the question about it, no
/// key leaves the program but `Ctrl+C`.
pub proof fn law_dialogs_do_not_leave_the_program(a: AppView, code: KeyCode, m: KeyModifiers)
    requires
        a.takes(code, m),
    ensures
        !(a.input is Normal) && !(a.input is ActionMenu) && !(a.input is Login) && !(a.input
            is ConfirmQuit) ==> !a.key_quits(code, m),
        a.input is Login ==> a.key_quits(code, m) == (code == KeyCode::Esc
            && !a.input->Login_logging_in),
        a.input is ConfirmQuit ==> a.key_quits(code, m) == (code == KeyCode::Char('y')),
{
}

/// `Ctrl+C` never reaches a dialog: it leaves the program, or asks back while downloads run.
pub proof fn law_interrupt_reaches_no_dialog(a: AppView, m: KeyModifiers)
    requires
        !a.show_help_sheet,
        m.control,
    ensures
        ({
            let b = a.key_handled(KeyCode::Char('c'), m);
            &&& a.asks_nothing(b) && a.is_silent(b) && a.keeps_files(b)
            &&& b.input == (if a.downloads_active {
                ModeView::ConfirmQuit
            } else {
                a.input
            })
            &&& a.key_quits(KeyCode::Char('c'), m) == !a.downloads_active
        }),
{
    reveal(AppView::key_handled);
    reveal(AppView::mode_key);
}

/// The pages of the settings take the keys.
pub proof fn law_setting_pages_take_their_keys(
    a: AppView,
    c: ColorsView,
    p: ProtocolsView,
    code: KeyCode,
    m: KeyModifiers,
)
    requires
        a.takes(code, m),
    ensures
        a.input == (ModeView::CustomColorSettings {
            selected: c.selected,
            draft: c.draft,
            modified: c.modified,
            editing_rgb: c.editing_rgb,
            rgb_input: c.rgb_input,
            rgb_component: c.rgb_component,
        }) ==> a.key_handled(code, m) == a.closed().colors_key(c, code),
        a.input == (ModeView::ImageProtocolSettings {
            selected: p.selected,
            draft: p.draft,
            modified: p.modified,
            current_terminal: p.current_terminal,
            terminals: p.terminals,
        }) ==> a.key_handled(code, m) == a.closed().protocols_key(p, code),
{
    reveal(AppView::key_handled);
    reveal(AppView::mode_key);
    reveal(AppView::moving_key);
    reveal(AppView::page_key);
    reveal(AppView::media_key);
    reveal(AppView::listing_key);
    reveal(AppView::options_key);
}

/// Any key closes what is only read. What was opened from the trash leads back to it.
pub proof fn law_any_key_closes_what_is_read(a: AppView, code: KeyCode, m: KeyModifiers)
    requires
        a.takes(code, m),
    ensures
        a.input is TextPreviewView ==> a.key_handled(code, m) == a.closed(),
        a.input is InfoView ==> a.key_handled(code, m) == a.closed().trash_resumed(),
        a.input is InfoFolderView ==> a.key_handled(code, m) == (AppView {
            preview_state: PreviewView::FolderListing(a.input->InfoFolderView_entries),
            ..a.closed()
        }),
        a.input is InfoLoading ==> a.key_handled(code, m) == (AppView {
            input: ModeView::Normal,
            ..a
        }).info_loading_key(code),
{
    reveal(AppView::key_handled);
    reveal(AppView::mode_key);
    reveal(AppView::moving_key);
    reveal(AppView::page_key);
    reveal(AppView::media_key);
}

} // verus!
