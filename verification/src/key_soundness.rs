//! What keys leave in order.

use crate::app::{path_text, AppView, MAX_LOGS};
use crate::effect::{EffectView, RemoteOpView};
use crate::event::{KeyCode, KeyModifiers};
use crate::keys::{menu_action, ACTION_COUNT};
use crate::laws::law_cart_stays_without_duplicates;
use crate::model::{
    ConfigView, Entry, LocalPathInputView, LoginField, ModeView, MyShare, OfflineTask,
    PathInputView, PickerView, PlayOptionView,
};
use crate::navigate::{binding, law_cart_has_no_duplicates, Motion, NormalAction};
use crate::settings::{ColorsView, ProtocolsView, SettingsView};
use crate::soundness::{leaves_alone, lemma_refresh_leaves_alone};
use crate::text::Chars;
use crate::transfer::{cart_binding, ids_of, picker_result, CartAction, PickerKeyView};
use crate::views::{trash_binding, TrashAction};
use vstd::prelude::*;

verus! {

proof fn lemma_opening_leaves_alone(a: AppView, e: Entry)
    ensures
        leaves_alone(a, a.folder_entered(e)),
        leaves_alone(a, a.play_asked(e)),
        leaves_alone(a, a.streams_asked(e)),
{
}

proof fn lemma_leaving_leaves_alone(a: AppView)
    ensures
        leaves_alone(a, a.left()),
{
    if a.breadcrumb.len() > 0 {
        let b = a.moved_up().previewing_left(a.current_folder_id, a.entries);
        lemma_refresh_leaves_alone(b);
    }
}

proof fn lemma_pane_leaves_alone(a: AppView, m: Motion, e: Entry, is_move: bool)
    ensures
        leaves_alone(a, a.gone(m)),
        leaves_alone(a, a.transfer_started(e, is_move)),
        leaves_alone(a, a.sort_stepped()),
        leaves_alone(a, a.sort_reversed()),
{
}

proof fn lemma_looking_leaves_alone(a: AppView)
    ensures
        leaves_alone(a, a.preview_asked()),
        leaves_alone(a, a.info_asked()),
        leaves_alone(a, a.shares_opened()),
        leaves_alone(a, a.trash_opened()),
        leaves_alone(a, a.shares_cancelled()),
{
}

proof fn lemma_entry_leaves_alone(a: AppView, e: Entry)
    ensures
        leaves_alone(
            a,
            a.remote_asked(RemoteOpView::Star { id: e.id@, name: e.name@, starred: e.starred }),
        ),
        leaves_alone(
            a,
            a.asking(EffectView::Remote(RemoteOpView::CopyLink { id: e.id@, name: e.name@ })),
        ),
{
}

proof fn lemma_simple_actions_leave_alone(a: AppView, action: NormalAction)
    requires
        action == NormalAction::Quit || action == NormalAction::ToggleLogs || action
            == NormalAction::Rename || action == NormalAction::Delete || action
            == NormalAction::Mkdir || action == NormalAction::Help || action == NormalAction::Cart
            || action == NormalAction::Downloads || action == NormalAction::Upload || action
            == NormalAction::OfflineInput || action == NormalAction::SaveShare || action
            == NormalAction::Settings || action == NormalAction::ActionMenu || action
            == NormalAction::GotoPath || action == NormalAction::Nothing,
    ensures
        leaves_alone(a, a.acted(action)),
{
    reveal(AppView::acted);
}

proof fn lemma_acting_leaves_alone(a: AppView, action: NormalAction)
    requires
        action != NormalAction::ToggleCart,
    ensures
        leaves_alone(a, a.acted(action)),
{
    reveal(AppView::acted);
    let e = a.current()->0;
    match action {
        NormalAction::Go(m) => lemma_pane_leaves_alone(a, m, e, true),
        NormalAction::NextSort => lemma_pane_leaves_alone(a, Motion::Top, e, true),
        NormalAction::ReverseSort => lemma_pane_leaves_alone(a, Motion::Top, e, true),
        NormalAction::MoveEntry => lemma_pane_leaves_alone(a, Motion::Top, e, true),
        NormalAction::CopyEntry => lemma_pane_leaves_alone(a, Motion::Top, e, false),
        NormalAction::Open => lemma_opening_leaves_alone(a, e),
        NormalAction::PickStream => lemma_opening_leaves_alone(a, e),
        NormalAction::Leave => lemma_leaving_leaves_alone(a),
        NormalAction::Refresh => lemma_refresh_leaves_alone(a),
        NormalAction::OfflineTasks => lemma_refresh_leaves_alone(a),
        NormalAction::Shares => lemma_looking_leaves_alone(a),
        NormalAction::Trash => lemma_looking_leaves_alone(a),
        NormalAction::Preview => lemma_looking_leaves_alone(a),
        NormalAction::Info => lemma_looking_leaves_alone(a),
        NormalAction::Cancel => lemma_looking_leaves_alone(a),
        NormalAction::Star => lemma_entry_leaves_alone(a, e),
        NormalAction::CopyLink => lemma_entry_leaves_alone(a, e),
        NormalAction::ToggleCart => {},
        _ => lemma_simple_actions_leave_alone(a, action),
    }
}

pub proof fn lemma_acting_keeps_sound(a: AppView, action: NormalAction)
    requires
        a.is_sound(),
    ensures
        a.acted(action).is_sound(),
{
    reveal(AppView::acted);
    if action == NormalAction::ToggleCart {
        law_cart_has_no_duplicates(a);
    } else {
        lemma_acting_leaves_alone(a, action);
    }
}

/// Whether an operation leaves the spinner alone, the cursor in the list and the log within its
/// limit, and either keeps the cart or empties it.
pub open spec fn keeps_or_empties(a: AppView, b: AppView) -> bool {
    &&& b.cart == a.cart || b.cart.len() == 0
    &&& b.spinner_idx == a.spinner_idx
    &&& a.logs.len() <= MAX_LOGS ==> b.logs.len() <= MAX_LOGS
    &&& a.cursor_is_listed() ==> b.cursor_is_listed()
}

proof fn lemma_typing_leaves_alone(
    a: AppView,
    value: Chars,
    code: KeyCode,
    modifiers: KeyModifiers,
)
    ensures
        leaves_alone(a, a.rename_key(value, code, modifiers)),
        leaves_alone(a, a.mkdir_key(value, code, modifiers)),
        leaves_alone(a, a.goto_key(value, code, modifiers)),
        leaves_alone(a, a.confirm_permanent_delete_key(value, code, modifiers)),
{
    reveal(AppView::rename_key);
    reveal(AppView::mkdir_key);
    reveal(AppView::goto_key);
    reveal(AppView::confirm_permanent_delete_key);
}

proof fn lemma_player_leaves_alone(
    a: AppView,
    value: Chars,
    url: Chars,
    code: KeyCode,
    modifiers: KeyModifiers,
)
    ensures
        leaves_alone(a, a.player_key(value, url, code, modifiers)),
        leaves_alone(a, a.confirm_play_key(value, url, code)),
{
    reveal(AppView::confirm_play_key);
    reveal(AppView::player_key);
}

proof fn lemma_links_leave_alone(
    a: AppView,
    value: Chars,
    code: KeyCode,
    modifiers: KeyModifiers,
)
    ensures
        leaves_alone(a, a.offline_input_key(value, code, modifiers)),
        leaves_alone(a, a.save_share_key(value, code, modifiers)),
{
    reveal(AppView::offline_input_key);
    reveal(AppView::save_share_key);
}

proof fn lemma_login_leaves_alone(
    a: AppView,
    field: LoginField,
    email: Chars,
    password: Chars,
    logging_in: bool,
    code: KeyCode,
    modifiers: KeyModifiers,
)
    ensures
        leaves_alone(a, a.login_key(field, email, password, logging_in, code, modifiers)),
        leaves_alone(a, a.confirm_delete_key(code)),
{
    reveal(AppView::login_key);
    reveal(AppView::confirm_delete_key);
}

proof fn lemma_names_leave_alone(a: AppView, items: Seq<Entry>)
    ensures
        leaves_alone(a, a.logged_names(items)),
    decreases items.len(),
{
    if items.len() > 0 {
        lemma_names_leave_alone(a, items.drop_last());
    }
}

proof fn lemma_path_leaves_alone(
    a: AppView,
    source: Option<Entry>,
    input: PathInputView,
    is_move: bool,
    code: KeyCode,
    modifiers: KeyModifiers,
)
    ensures
        leaves_alone(a, a.path_input_key(source, input, is_move, code, modifiers)),
{
    reveal(AppView::path_input_key);
}

pub proof fn lemma_transfer_keeps_or_empties(
    a: AppView,
    source: Option<Entry>,
    dest_id: Chars,
    dest_path: Chars,
    is_move: bool,
)
    ensures
        keeps_or_empties(a, a.transferred(source, dest_id, dest_path, is_move)),
{
    if source is None {
        lemma_names_leave_alone(
            a.remote_asked(
                RemoteOpView::CartMoveCopy { ids: ids_of(a.cart), dest_id, dest_path, is_move },
            ).cart_emptied(),
            a.cart,
        );
    }
}

proof fn lemma_picker_keeps_or_empties(
    a: AppView,
    source: Option<Entry>,
    p: PickerView,
    is_move: bool,
    code: KeyCode,
)
    ensures
        keeps_or_empties(a, a.picker_key(source, p, is_move, code)),
{
    reveal(AppView::picker_key);
    let b = a.picker_keyed(p, code);
    assert(leaves_alone(a, b));
    match picker_result(p, code, a.next_id()) {
        PickerKeyView::Confirmed(q) => lemma_transfer_keeps_or_empties(
            b,
            source,
            q.folder_id,
            path_text(q.breadcrumb),
            is_move,
        ),
        _ => {},
    }
}

proof fn lemma_cart_trashed_empties(a: AppView, code: KeyCode)
    ensures
        keeps_or_empties(a, a.confirm_cart_delete_key(code)),
        leaves_alone(a, a.share_prompt_key(code)),
{
    reveal(AppView::confirm_cart_delete_key);
    reveal(AppView::share_prompt_key);
}

proof fn lemma_cart_keys_keep_sound(a: AppView, action: CartAction)
    requires
        a.is_sound(),
    ensures
        a.cart_key(action).is_sound(),
{
    reveal(AppView::cart_key);
    law_cart_stays_without_duplicates(a, action);
}

proof fn lemma_local_keeps_alone(
    a: AppView,
    input: LocalPathInputView,
    for_upload: bool,
    code: KeyCode,
    modifiers: KeyModifiers,
)
    ensures
        leaves_alone(a, a.local_input_key(input, for_upload, code, modifiers)),
{
    reveal(AppView::local_input_key);
}

proof fn lemma_downloads_leave_alone(a: AppView, code: KeyCode)
    ensures
        leaves_alone(a, a.downloads_key(code)),
{
    reveal(AppView::downloads_key);
}

proof fn lemma_tasks_key_leaves_alone(
    a: AppView,
    tasks: Seq<OfflineTask>,
    selected: usize,
    code: KeyCode,
)
    ensures
        leaves_alone(a, a.tasks_key(tasks, selected, code)),
{
    reveal(AppView::tasks_key);
}

proof fn lemma_streams_leave_alone(
    a: AppView,
    name: Chars,
    medias: Seq<PlayOptionView>,
    selected: usize,
    code: KeyCode,
)
    ensures
        leaves_alone(a, a.streams_key(name, medias, selected, code)),
        leaves_alone(a, a.info_loading_key(code)),
        leaves_alone(a, a.trash_resumed()),
{
    reveal(AppView::info_loading_key);
    reveal(AppView::streams_key);
}

proof fn lemma_trash_ops_leave_alone(
    a: AppView,
    entries: Seq<Entry>,
    selected: usize,
    expanded: bool,
    label: Chars,
    op: RemoteOpView,
)
    ensures
        leaves_alone(a, a.trash_op_asked(entries, selected, expanded, label, op)),
        leaves_alone(a, a.trash_closed(entries, selected, expanded)),
        leaves_alone(a, a.trash_spread_kept(expanded).trash_reopened()),
{
}

proof fn lemma_trash_info_leaves_alone(
    a: AppView,
    entries: Seq<Entry>,
    selected: usize,
    expanded: bool,
)
    ensures
        leaves_alone(a, a.trash_info_opened(entries, selected, expanded)),
{
}

proof fn lemma_trash_moves_leave_alone(
    a: AppView,
    entries: Seq<Entry>,
    selected: usize,
    expanded: bool,
    code: KeyCode,
)
    requires
        !(trash_binding(code) is Restore || trash_binding(code) is Erase || trash_binding(
            code,
        ) is Info),
    ensures
        leaves_alone(a, a.trash_key(entries, selected, expanded, code)),
{
    reveal(AppView::trash_key);
}

#[verifier::rlimit(40)]
proof fn lemma_trash_key_leaves_alone(
    a: AppView,
    entries: Seq<Entry>,
    selected: usize,
    expanded: bool,
    code: KeyCode,
)
    ensures
        leaves_alone(a, a.trash_key(entries, selected, expanded, code)),
{
    reveal(AppView::trash_key);
    let e = entries[selected as int];
    match trash_binding(code) {
        TrashAction::Info => lemma_trash_info_leaves_alone(a, entries, selected, expanded),
        TrashAction::Restore => lemma_trash_ops_leave_alone(
            a,
            entries,
            selected,
            expanded,
            "Restoring..."@,
            RemoteOpView::Untrash { id: e.id@, name: e.name@ },
        ),
        TrashAction::Erase => lemma_trash_ops_leave_alone(
            a,
            entries,
            selected,
            expanded,
            "Deleting..."@,
            RemoteOpView::DeleteTrashed { id: e.id@, name: e.name@ },
        ),
        _ => lemma_trash_moves_leave_alone(a, entries, selected, expanded, code),
    }
}

proof fn lemma_shares_key_leaves_alone(
    a: AppView,
    shares: Seq<MyShare>,
    selected: usize,
    asked: Option<Chars>,
    code: KeyCode,
)
    ensures
        leaves_alone(a, a.shares_key(shares, selected, asked, code)),
{
    reveal(AppView::shares_key);
}

proof fn lemma_created_leaves_alone(
    a: AppView,
    shares: Seq<(Chars, Chars, Chars)>,
    code: KeyCode,
    modifiers: KeyModifiers,
)
    ensures
        leaves_alone(a, a.created_shares_key(shares, code, modifiers)),
{
    reveal(AppView::created_shares_key);
}

proof fn lemma_settings_leave_alone(
    a: AppView,
    s: SettingsView,
    code: KeyCode,
    modifiers: KeyModifiers,
)
    ensures
        leaves_alone(a, a.settings_key(s, code, modifiers)),
{
    reveal(AppView::settings_key);
}

proof fn lemma_pages_leave_alone(
    a: AppView,
    c: ColorsView,
    p: ProtocolsView,
    selected: usize,
    draft: ConfigView,
    code: KeyCode,
)
    ensures
        leaves_alone(a, a.colors_key(c, code)),
        leaves_alone(a, a.protocols_key(p, code)),
        leaves_alone(a, a.discard_key(selected, draft, code)),
{
    reveal(AppView::discard_key);
    reveal(AppView::colors_key);
    reveal(AppView::protocols_key);
}

proof fn lemma_settled(a: AppView, b: AppView)
    requires
        a.is_sound(),
        keeps_or_empties(a, b),
    ensures
        b.is_sound(),
{
}

proof fn lemma_options_keep_sound(
    a: AppView,
    mode: ModeView,
    code: KeyCode,
    modifiers: KeyModifiers,
)
    requires
        a.is_sound(),
    ensures
        a.options_key(mode, code, modifiers).is_sound(),
{
    reveal(AppView::options_key);
    match mode {
        ModeView::Settings { selected, editing, draft, modified } => lemma_settings_leave_alone(
            a,
            SettingsView { selected, editing, draft, modified },
            code,
            modifiers,
        ),
        ModeView::ConfirmDiscardSettings { selected, draft } => lemma_pages_leave_alone(
            a,
            arbitrary(),
            arbitrary(),
            selected,
            draft,
            code,
        ),
        ModeView::CustomColorSettings {
            selected,
            draft,
            modified,
            editing_rgb,
            rgb_input,
            rgb_component,
        } => lemma_pages_leave_alone(
            a,
            ColorsView { selected, draft, modified, editing_rgb, rgb_input, rgb_component },
            arbitrary(),
            0,
            draft,
            code,
        ),
        ModeView::ImageProtocolSettings {
            selected,
            draft,
            modified,
            current_terminal,
            terminals,
        } => lemma_pages_leave_alone(
            a,
            arbitrary(),
            ProtocolsView { selected, draft, modified, current_terminal, terminals },
            0,
            draft,
            code,
        ),
        _ => {},
    }
    lemma_settled(a, a.options_key(mode, code, modifiers));
}

proof fn lemma_lists_keep_sound(
    a: AppView,
    mode: ModeView,
    code: KeyCode,
    modifiers: KeyModifiers,
)
    requires
        a.is_sound(),
    ensures
        a.listing_key(mode, code, modifiers).is_sound(),
{
    reveal(AppView::listing_key);
    match mode {
        ModeView::TrashView { entries, selected, expanded } => {
            lemma_trash_key_leaves_alone(a, entries, selected, expanded, code);
            lemma_settled(a, a.listing_key(mode, code, modifiers));
        },
        ModeView::SharePrompt => {
            lemma_cart_trashed_empties(a, code);
            lemma_settled(a, a.listing_key(mode, code, modifiers));
        },
        ModeView::ShareCreatedView { shares } => {
            lemma_created_leaves_alone(a, shares, code, modifiers);
            lemma_settled(a, a.listing_key(mode, code, modifiers));
        },
        ModeView::MySharesView { shares, selected, confirm_delete } => {
            lemma_shares_key_leaves_alone(a, shares, selected, confirm_delete, code);
            lemma_settled(a, a.listing_key(mode, code, modifiers));
        },
        _ => lemma_options_keep_sound(a, mode, code, modifiers),
    }
}

proof fn lemma_media_keep_sound(
    a: AppView,
    mode: ModeView,
    code: KeyCode,
    modifiers: KeyModifiers,
)
    requires
        a.is_sound(),
    ensures
        a.media_key(mode, code, modifiers).is_sound(),
{
    reveal(AppView::media_key);
    match mode {
        ModeView::InfoLoading => lemma_streams_leave_alone(
            a,
            Seq::empty(),
            Seq::empty(),
            0,
            code,
        ),
        ModeView::InfoView { .. } => lemma_streams_leave_alone(
            a,
            Seq::empty(),
            Seq::empty(),
            0,
            code,
        ),
        ModeView::InfoFolderView { .. } => {},
        ModeView::TextPreviewView { .. } => {},
        ModeView::ConfirmPlay { name, url } => lemma_player_leaves_alone(
            a,
            name,
            url,
            code,
            modifiers,
        ),
        ModeView::PlayPicker { name, medias, selected } => lemma_streams_leave_alone(
            a,
            name,
            medias,
            selected,
            code,
        ),
        ModeView::PlayerInput { value, pending_url } => lemma_player_leaves_alone(
            a,
            value,
            pending_url,
            code,
            modifiers,
        ),
        _ => lemma_lists_keep_sound(a, mode, code, modifiers),
    }
}

proof fn lemma_pages_keep_sound(
    a: AppView,
    mode: ModeView,
    code: KeyCode,
    modifiers: KeyModifiers,
)
    requires
        a.is_sound(),
    ensures
        a.page_key(mode, code, modifiers).is_sound(),
{
    reveal(AppView::page_key);
    match mode {
        ModeView::DownloadInput { input } => lemma_local_keeps_alone(
            a,
            input,
            false,
            code,
            modifiers,
        ),
        ModeView::UploadInput { input } => lemma_local_keeps_alone(a, input, true, code, modifiers),
        ModeView::DownloadView => lemma_downloads_leave_alone(a, code),
        ModeView::OfflineInput { value } => lemma_links_leave_alone(a, value, code, modifiers),
        ModeView::SaveShareInput { value } => lemma_links_leave_alone(a, value, code, modifiers),
        ModeView::OfflineTasksView { tasks, selected } => lemma_tasks_key_leaves_alone(
            a,
            tasks,
            selected,
            code,
        ),
        _ => lemma_media_keep_sound(a, mode, code, modifiers),
    }
}

proof fn lemma_moves_keep_sound(
    a: AppView,
    mode: ModeView,
    code: KeyCode,
    modifiers: KeyModifiers,
)
    requires
        a.is_sound(),
    ensures
        a.moving_key(mode, code, modifiers).is_sound(),
{
    reveal(AppView::moving_key);
    match mode {
        ModeView::MoveInput { source, input } => lemma_path_leaves_alone(
            a,
            Some(source),
            input,
            true,
            code,
            modifiers,
        ),
        ModeView::CopyInput { source, input } => lemma_path_leaves_alone(
            a,
            Some(source),
            input,
            false,
            code,
            modifiers,
        ),
        ModeView::MovePicker { source, picker } => lemma_picker_keeps_or_empties(
            a,
            Some(source),
            picker,
            true,
            code,
        ),
        ModeView::CopyPicker { source, picker } => lemma_picker_keeps_or_empties(
            a,
            Some(source),
            picker,
            false,
            code,
        ),
        ModeView::CartView => lemma_cart_keys_keep_sound(a, cart_binding(code)),
        ModeView::CartMoveInput { input } => lemma_path_leaves_alone(
            a,
            None,
            input,
            true,
            code,
            modifiers,
        ),
        ModeView::CartCopyInput { input } => lemma_path_leaves_alone(
            a,
            None,
            input,
            false,
            code,
            modifiers,
        ),
        ModeView::CartMovePicker { picker } => lemma_picker_keeps_or_empties(
            a,
            None,
            picker,
            true,
            code,
        ),
        ModeView::CartCopyPicker { picker } => lemma_picker_keeps_or_empties(
            a,
            None,
            picker,
            false,
            code,
        ),
        ModeView::ConfirmCartDelete => lemma_cart_trashed_empties(a, code),
        _ => lemma_pages_keep_sound(a, mode, code, modifiers),
    }
}

proof fn lemma_menu_keeps_sound(a: AppView, selected: usize, code: KeyCode)
    requires
        a.is_sound(),
    ensures
        a.menu_key(selected, code).is_sound(),
{
    reveal(AppView::menu_key);
    if selected < ACTION_COUNT && code == KeyCode::Enter {
        lemma_acting_keeps_sound(a, menu_action(selected));
    }
}

proof fn lemma_modes_keep_sound(
    a: AppView,
    mode: ModeView,
    code: KeyCode,
    modifiers: KeyModifiers,
)
    requires
        a.is_sound(),
    ensures
        a.mode_key(mode, code, modifiers).is_sound(),
{
    reveal(AppView::mode_key);
    match mode {
        ModeView::Login { field, email, password, logging_in, .. } => lemma_login_leaves_alone(
            a,
            field,
            email,
            password,
            logging_in,
            code,
            modifiers,
        ),
        ModeView::Normal => lemma_acting_keeps_sound(
            a.cursor_at_end(),
            binding(code, modifiers),
        ),
        ModeView::ActionMenu { selected } => lemma_menu_keeps_sound(a, selected, code),
        ModeView::Rename { value } => lemma_typing_leaves_alone(a, value, code, modifiers),
        ModeView::Mkdir { value } => lemma_typing_leaves_alone(a, value, code, modifiers),
        ModeView::ConfirmQuit => {},
        ModeView::GotoPath { query } => lemma_typing_leaves_alone(a, query, code, modifiers),
        ModeView::ConfirmDelete => lemma_login_leaves_alone(
            a,
            LoginField::Email,
            Seq::empty(),
            Seq::empty(),
            false,
            code,
            modifiers,
        ),
        ModeView::ConfirmPermanentDelete { value } => lemma_typing_leaves_alone(
            a,
            value,
            code,
            modifiers,
        ),
        _ => lemma_moves_keep_sound(a, mode, code, modifiers),
    }
}

/// Keys keep the interface sound, in every mode.
pub proof fn law_keys_keep_the_interface_sound(a: AppView, code: KeyCode, modifiers: KeyModifiers)
    requires
        a.is_sound(),
    ensures
        a.key_handled(code, modifiers).is_sound(),
{
    reveal(AppView::key_handled);
    if !a.show_help_sheet && !AppView::is_interrupt(code, modifiers) {
        let b = a.attended();
        lemma_modes_keep_sound(b.in_mode(ModeView::Normal), b.input, code, modifiers);
    }
}

} // verus!
