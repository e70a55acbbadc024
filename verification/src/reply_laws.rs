//! What holds of the replies: what each of them shows, and that each is shown where it was asked
//! for.

use crate::app::{path_text, AppView};
use crate::effect::{CopySource, EffectView, OpResult, PathCompletion};
use crate::frame::law_message_is_told;
use crate::model::{
    find_entry, AsyncRequest, Entry, FileInfo, ImageHandle, LoginField, ModeView, MyShare,
    OfflineTask, PlayOption, PreviewView,
};
use crate::text::{opt_text, text_pairs, Chars};
use syntect::highlighting::Theme;
use syntect::parsing::SyntaxSet;
use vstd::prelude::*;

verus! {

/// The awaited listing of the folder that is shown takes the place of the one before, ends the
/// waiting and asks for nothing.
pub proof fn law_awaited_listing_is_shown(
    a: AppView,
    folder: String,
    v: Vec<Entry>,
    set: SyntaxSet,
    theme: Theme,
)
    requires
        folder@ == a.current_folder_id,
    ensures
        ({
            let b = a.applied(
                OpResult::Ls(a.main_listing_request_id, folder, Ok(v)),
                set,
                theme,
            );
            &&& b.entries == v@
            &&& !b.loading
            &&& b.loading_label is None
            &&& b.breadcrumb == a.breadcrumb
            &&& b.current_folder_id == a.current_folder_id
            &&& b.cart == a.cart
            &&& b.input == a.input
            &&& a.asks_nothing(b)
            &&& a.tells(b, "Refreshed "@ + path_text(a.breadcrumb))
        }),
{
    reveal(AppView::main_listed);
    law_message_is_told(
        a.finished_loading().with_listing(v@),
        "Refreshed "@ + path_text(a.breadcrumb),
    );
}

/// A listing that failed leaves the one before in place, and says so.
pub proof fn law_failed_listing_keeps_the_old_one(
    a: AppView,
    folder: String,
    e: String,
    set: SyntaxSet,
    theme: Theme,
)
    requires
        folder@ == a.current_folder_id,
    ensures
        ({
            let b = a.applied(
                OpResult::Ls(a.main_listing_request_id, folder, Err(e)),
                set,
                theme,
            );
            a.keeps_files(b) && !b.loading && b.input == a.input && a.asks_nothing(b) && a.tells(
                b,
                "Refresh failed: "@ + e@,
            )
        }),
{
    reveal(AppView::main_listed);
    law_message_is_told(a.finished_loading(), "Refresh failed: "@ + e@);
}

/// A change that was made is told, and the folder that is shown is listed again. One that failed
/// is told, and nothing is listed.
pub proof fn law_changes_are_told(a: AppView, msg: String, set: SyntaxSet, theme: Theme)
    ensures
        ({
            let b = a.applied(OpResult::Done(msg), set, theme);
            &&& a.tells(b, msg@)
            &&& b.loading
            &&& b.effects.len() > a.effects.len()
            &&& b.effects[a.effects.len() as int] == (EffectView::ListFolder {
                request_id: b.main_listing_request_id,
                folder_id: a.current_folder_id,
            })
            &&& b.entries == a.entries && b.cart == a.cart && b.input == a.input
        }),
        ({
            let b = a.applied(OpResult::Failed(msg), set, theme);
            &&& a.tells(b, msg@)
            &&& !b.loading
            &&& a.asks_nothing(b)
            &&& a.keeps_files(b) && b.input == a.input
        }),
{
    law_message_is_told(a, msg@);
}

/// The facts that were asked for are shown, with the entry's own picture asked for where there is
/// one: the one in the facts before the one that was known.
pub proof fn law_awaited_info_is_shown(
    a: AppView,
    q: AsyncRequest,
    info: FileInfo,
    fallback: Option<String>,
    set: SyntaxSet,
    theme: Theme,
)
    requires
        a.modal_request == Some(q@),
        a.input is InfoLoading,
    ensures
        ({
            let b = a.applied(OpResult::Info(q, Ok(info), fallback), set, theme);
            let own = opt_text(info.thumbnail_link);
            let known = opt_text(fallback);
            let has_own = own is Some && own->0.len() > 0;
            let has_known = known is Some && known->0.len() > 0;
            &&& b.input is InfoView
            &&& b.input->info == info@
            &&& b.input->target_id == q@.target
            &&& b.input->InfoView_request_id == q@.id
            &&& b.input->has_thumbnail == (has_own || has_known)
            &&& !b.loading
            &&& has_own ==> a.asks(
                b,
                EffectView::FetchThumbnail { request: q@, url: own->0, for_info: true },
            )
            &&& !has_own && has_known ==> a.asks(
                b,
                EffectView::FetchThumbnail { request: q@, url: known->0, for_info: true },
            )
            &&& !has_own && !has_known ==> a.asks_nothing(b) && b.modal_request is None
        }),
{
    reveal(AppView::info_came);
}

/// Facts that could not be had close the dialog, and say so.
pub proof fn law_failed_info_closes_the_dialog(
    a: AppView,
    q: AsyncRequest,
    e: String,
    fallback: Option<String>,
    set: SyntaxSet,
    theme: Theme,
)
    requires
        a.modal_request == Some(q@),
        a.input is InfoLoading,
    ensures
        ({
            let b = a.applied(OpResult::Info(q, Err(e), fallback), set, theme);
            a.keeps_files(b) && b.input is Normal && !b.loading && b.modal_request is None
                && a.asks_nothing(b) && a.tells(b, "File info failed: "@ + e@)
        }),
{
    reveal(AppView::info_came);
    law_message_is_told(
        a.dialog_ended().in_mode(ModeView::Normal),
        "File info failed: "@ + e@,
    );
}

/// The listing of the folder above is taken where it is awaited, with the mark on the folder that
/// is shown.
pub proof fn law_awaited_parent_is_taken(
    a: AppView,
    q: AsyncRequest,
    v: Vec<Entry>,
    set: SyntaxSet,
    theme: Theme,
)
    requires
        a.parent_listing_request == Some(q@),
        a.breadcrumb.len() > 0,
        a.breadcrumb.last().0 == q@.target,
    ensures
        ({
            let b = a.applied(OpResult::ParentLs(q, Ok(v)), set, theme);
            &&& b.parent_entries == v@
            &&& b.parent_listing_request is None
            &&& b.entries == a.entries && b.selected == a.selected && b.current_folder_id
                == a.current_folder_id
            &&& a.asks_nothing(b) && a.is_silent(b)
            &&& b.input == a.input && b.loading == a.loading
        }),
{
    reveal(AppView::parent_listed);
}

/// The mark in the folder above is on the folder that is shown, where it is in the listing.
pub proof fn law_parent_mark_is_on_the_shown_folder(a: AppView, v: Seq<Entry>, i: int)
    requires
        v.len() <= usize::MAX,
        0 <= i < v.len(),
        v[i].id@ == a.current_folder_id,
    ensures
        a.with_parent(v).parent_selected < v.len(),
        v[a.with_parent(v).parent_selected as int].id@ == a.current_folder_id,
{
    lemma_found(v, a.current_folder_id, i);
}

proof fn lemma_found(v: Seq<Entry>, id: Chars, i: int)
    requires
        0 <= i < v.len(),
        v[i].id@ == id,
    ensures
        find_entry(v, id) is Some,
        0 <= find_entry(v, id)->0 < v.len(),
        v[find_entry(v, id)->0 as int].id@ == id,
    decreases v.len(),
{
    if i < v.len() - 1 {
        lemma_found(v.drop_last(), id, i);
    } else {
        lemma_found_or_none(v.drop_last(), id);
    }
}

proof fn lemma_found_or_none(v: Seq<Entry>, id: Chars)
    ensures
        match find_entry(v, id) {
            Some(i) => 0 <= i < v.len() && v[i as int].id@ == id,
            None => true,
        },
    decreases v.len(),
{
    if v.len() > 0 {
        lemma_found_or_none(v.drop_last(), id);
    }
}

/// The replies are applied one after the other, in the order in which they came.
pub proof fn law_replies_are_applied_in_order(
    a: AppView,
    before: Seq<OpResult>,
    last: OpResult,
    set: SyntaxSet,
    theme: Theme,
)
    ensures
        a.polled(Seq::empty(), 0, set, theme) == a,
        a.polled(before.push(last), before.len() as int + 1, set, theme) == a.polled(
            before,
            before.len() as int,
            set,
            theme,
        ).applied(last, set, theme),
{
    lemma_polled_before(a, before, last, before.len() as int, set, theme);
}

proof fn lemma_polled_before(
    a: AppView,
    before: Seq<OpResult>,
    last: OpResult,
    n: int,
    set: SyntaxSet,
    theme: Theme,
)
    requires
        0 <= n <= before.len(),
    ensures
        a.polled(before.push(last), n, set, theme) == a.polled(before, n, set, theme),
    decreases n,
{
    if n > 0 {
        lemma_polled_before(a, before, last, n - 1, set, theme);
    }
}

/// What is in a folder is shown in its dialog under its own name, or in the preview, whichever it
/// was asked for.
pub proof fn law_awaited_folder_is_shown(
    a: AppView,
    q: AsyncRequest,
    v: Vec<Entry>,
    set: SyntaxSet,
    theme: Theme,
)
    ensures
        a.modal_request == Some(q@) && a.input is InfoLoading ==> {
            let b = a.applied(OpResult::PreviewLs(q, Ok(v)), set, theme);
            &&& b.input is InfoFolderView
            &&& b.input->InfoFolderView_entries == v@
            &&& a.preview_target_name is Some ==> b.input->InfoFolderView_name
                == a.preview_target_name->0
            &&& b.preview_state == PreviewView::FolderListing(v@)
            &&& b.preview_target_id == Some(q@.target)
            &&& b.modal_request is None && !b.loading && a.asks_nothing(b)
        },
        a.modal_request != Some(q@) && a.preview_request == Some(q@) && a.preview_target_id == Some(
            q@.target,
        ) ==> a.applied(OpResult::PreviewLs(q, Ok(v)), set, theme) == (AppView {
            preview_request: None,
            preview_state: PreviewView::FolderListing(v@),
            ..a
        }),
{
    reveal(AppView::folder_preview_came);
}

/// The facts and the picture of an entry are shown in the preview where they are awaited there.
pub proof fn law_awaited_preview_is_shown(
    a: AppView,
    q: AsyncRequest,
    info: FileInfo,
    image: ImageHandle,
    set: SyntaxSet,
    theme: Theme,
)
    requires
        a.preview_request == Some(q@),
        a.preview_target_id == Some(q@.target),
    ensures
        a.applied(OpResult::PreviewInfo(q, Ok(info)), set, theme) == (AppView {
            preview_request: None,
            preview_state: PreviewView::FileDetailedInfo(info@),
            ..a
        }),
        a.applied(OpResult::PreviewThumbnail(q, Ok(image)), set, theme) == (AppView {
            preview_request: None,
            preview_state: PreviewView::ThumbnailImage { image },
            ..a
        }),
{
    reveal(AppView::preview_info_came);
    reveal(AppView::thumbnail_came);
}

/// The text of a file is shown under its name in the dialog that asked for it, or in the preview.
pub proof fn law_awaited_text_is_shown(
    a: AppView,
    q: AsyncRequest,
    name: String,
    text: String,
    size: u64,
    cut: bool,
    set: SyntaxSet,
    theme: Theme,
)
    ensures
        a.modal_request == Some(q@) && a.input is InfoLoading ==> {
            let b = a.applied(OpResult::PreviewText(q, Ok((name, text, size, cut))), set, theme);
            &&& b.input is TextPreviewView
            &&& b.input->TextPreviewView_name == name@
            &&& b.input->truncated == cut
            &&& b.modal_request is None && !b.loading && a.asks_nothing(b)
        },
        a.modal_request != Some(q@) && a.preview_request == Some(q@) && a.preview_target_id == Some(
            q@.target,
        ) ==> {
            let b = a.applied(OpResult::PreviewText(q, Ok((name, text, size, cut))), set, theme);
            &&& b.preview_state is FileTextPreview
            &&& b.preview_state->name == name@
            &&& b.preview_state->size == size
            &&& b.preview_state->truncated == cut
            &&& b.preview_request is None && b.input == a.input && a.asks_nothing(b)
        },
{
    reveal(AppView::text_preview_came);
}

/// A picture for the facts is shown with them.
pub proof fn law_awaited_picture_is_shown(
    a: AppView,
    q: AsyncRequest,
    image: ImageHandle,
    set: SyntaxSet,
    theme: Theme,
)
    requires
        a.modal_request == Some(q@),
        a.input is InfoView,
        a.input->InfoView_request_id == q@.id,
        a.input->target_id == q@.target,
    ensures
        ({
            let b = a.applied(OpResult::InfoThumbnail(q, Ok(image)), set, theme);
            &&& b.input is InfoView
            &&& b.input->image == Some(image)
            &&& b.input->info == a.input->info
            &&& b.input->target_id == a.input->target_id
            &&& b.modal_request is None
            &&& a.asks_nothing(b) && a.is_silent(b)
        }),
{
    reveal(AppView::info_thumbnail_came);
}

/// The offline tasks that were asked for are shown from the first one on.
pub proof fn law_awaited_tasks_are_shown(
    a: AppView,
    q: AsyncRequest,
    v: Vec<OfflineTask>,
    set: SyntaxSet,
    theme: Theme,
)
    requires
        a.modal_request == Some(q@),
        a.input is InfoLoading,
    ensures
        a.applied(OpResult::OfflineTasks(q, Ok(v)), set, theme) == (AppView {
            input: ModeView::OfflineTasksView { tasks: v@, selected: 0 },
            modal_request: None,
            loading: false,
            loading_label: None,
            ..a
        }),
{
    reveal(AppView::offline_tasks_came);
}

/// Before a video is played, its own name and link are shown: the link for the whole file, or else
/// the one for its bytes. Without a link there is nothing to play.
pub proof fn law_video_is_asked_about(
    a: AppView,
    q: AsyncRequest,
    info: FileInfo,
    set: SyntaxSet,
    theme: Theme,
)
    requires
        a.modal_request == Some(q@),
        a.input is Normal,
    ensures
        ({
            let b = a.applied(OpResult::PlayInfo(q, Ok(info)), set, theme);
            let whole = opt_text(info.web_content_link);
            let bytes = opt_text(info.octet_link);
            &&& whole is Some && whole->0.len() > 0 ==> b.input == (ModeView::ConfirmPlay {
                name: info.name@,
                url: whole->0,
            })
            &&& whole is None && bytes is Some && bytes->0.len() > 0 ==> b.input
                == (ModeView::ConfirmPlay { name: info.name@, url: bytes->0 })
            &&& whole is None && bytes is None ==> b.input is Normal && a.tells(
                b,
                "No playback URL available"@,
            )
            &&& a.keeps_files(b)
            &&& !b.loading && b.modal_request is None && a.asks_nothing(b)
        }),
{
    reveal(AppView::play_info_came);
    law_message_is_told(a.dialog_ended(), "No playback URL available"@);
}

/// The streams of a video are offered under its own name, with the cursor on the first one that is
/// available. Without one there is nothing to play.
pub proof fn law_streams_are_offered(
    a: AppView,
    q: AsyncRequest,
    info: FileInfo,
    v: Vec<PlayOption>,
    i: int,
    set: SyntaxSet,
    theme: Theme,
)
    requires
        a.modal_request == Some(q@),
        a.input is Normal,
        0 <= i < v@.len() <= usize::MAX,
    ensures
        ({
            let b = a.applied(OpResult::PlayPickerInfo(q, Ok((info, v))), set, theme);
            let at = b.input->PlayPicker_selected as int;
            &&& b.input is PlayPicker
            &&& b.input->PlayPicker_name == info.name@
            &&& b.input->PlayPicker_medias.len() == v@.len()
            &&& b.input->PlayPicker_medias[i] == v@[i]@
            &&& 0 <= at < v@.len()
            &&& v@[i].available ==> v@[at].available && at <= i
            &&& a.keeps_files(b)
            &&& !b.loading && b.modal_request is None && a.asks_nothing(b) && a.is_silent(b)
        }),
{
    reveal(AppView::play_options_came);
    lemma_first_available(v@, 0, i);
}

proof fn lemma_first_available(v: Seq<PlayOption>, from: int, i: int)
    requires
        0 <= from <= v.len(),
        0 <= i < v.len(),
    ensures
        0 <= crate::results::first_available(v, from) < v.len(),
        from <= i && v[i].available ==> from <= crate::results::first_available(v, from) <= i
            && v[crate::results::first_available(v, from)].available,
    decreases v.len() - from,
{
    if from < v.len() && !v[from].available {
        lemma_first_available(v, from + 1, i);
    }
}

/// The trash is shown as it was listed, with the cursor inside it.
pub proof fn law_trash_is_shown(a: AppView, v: Vec<Entry>, set: SyntaxSet, theme: Theme)
    ensures
        ({
            let b = a.applied(OpResult::TrashList(Ok(v)), set, theme);
            &&& b.input is TrashView
            &&& b.input->TrashView_entries == v@
            &&& b.trash_entries == v@
            &&& v@.len() > 0 ==> b.input->TrashView_selected < v@.len()
            &&& a.trash_selected < v@.len() ==> b.input->TrashView_selected == a.trash_selected
            &&& !b.loading
            &&& a.asks_nothing(b) && a.is_silent(b)
            &&& b.entries == a.entries && b.cart == a.cart
        }),
{
    reveal(AppView::trash_listed);
}

/// What was done in the trash is told, and the trash is listed again.
pub proof fn law_trash_changes_are_told(a: AppView, msg: String, set: SyntaxSet, theme: Theme)
    ensures
        ({
            let b = a.applied(OpResult::TrashOp(msg), set, theme);
            &&& a.tells(b, msg@)
            &&& a.asks(b, EffectView::ListTrash)
            &&& b.loading
            &&& b.input is TrashView
            &&& b.input->TrashView_entries == a.trash_entries
            &&& b.entries == a.entries
        }),
{
    law_message_is_told(a.finished_loading(), msg@);
}

/// The folder of a path is gone to: it is the one that is listed then, and its path is the one
/// that was found.
pub proof fn law_found_path_is_gone_to(
    a: AppView,
    q: AsyncRequest,
    id: String,
    crumbs: Vec<(String, String)>,
    set: SyntaxSet,
    theme: Theme,
)
    requires
        a.modal_request == Some(q@),
        a.input is Normal,
    ensures
        ({
            let b = a.applied(OpResult::GotoPath(q, Ok((id, crumbs))), set, theme);
            &&& b.current_folder_id == id@
            &&& b.breadcrumb == text_pairs(crumbs@)
            &&& b.selected == 0
            &&& b.loading
            &&& b.modal_request is None
            &&& b.main_listing_request_id != a.main_listing_request_id
            &&& b.effects.last() == (EffectView::ListFolder {
                request_id: b.main_listing_request_id,
                folder_id: id@,
            })
            &&& b.parent_entries.len() == 0
            &&& b.preview_target_id is None
            &&& b.cart == a.cart && b.input is Normal
        }),
{
    reveal(AppView::goto_came);
}

/// A path that is not found leads nowhere, and that is told.
pub proof fn law_path_that_is_not_found_leads_nowhere(
    a: AppView,
    q: AsyncRequest,
    e: String,
    set: SyntaxSet,
    theme: Theme,
)
    requires
        a.modal_request == Some(q@),
        a.input is Normal,
    ensures
        ({
            let b = a.applied(OpResult::GotoPath(q, Err(e)), set, theme);
            a.keeps_files(b) && !b.loading && a.asks_nothing(b) && a.tells(
                b,
                "Go to path failed: "@ + e@,
            )
        }),
{
    reveal(AppView::goto_came);
    law_message_is_told(a.dialog_ended(), "Go to path failed: "@ + e@);
}

/// A created share is put on top of the ones before, told, and its link is copied.
pub proof fn law_created_share_is_put_on_top(
    a: AppView,
    title: String,
    url: String,
    pass_code: String,
    set: SyntaxSet,
    theme: Theme,
)
    ensures
        ({
            let b = a.applied(OpResult::ShareCreated { title, url, pass_code }, set, theme);
            &&& b.input is ShareCreatedView
            &&& b.input->ShareCreatedView_shares.last() == (title@, url@, pass_code@)
            &&& a.input is ShareCreatedView ==> b.input->ShareCreatedView_shares
                == a.input->ShareCreatedView_shares.push((title@, url@, pass_code@))
            &&& !(a.input is ShareCreatedView) ==> b.input->ShareCreatedView_shares.len() == 1
            &&& a.asks(
                b,
                EffectView::WriteClipboard { text: url@, source: CopySource::NewShare },
            )
            &&& a.tells(b, "Share created: "@ + url@)
            &&& b.cart == a.cart
        }),
{
    reveal(AppView::share_made);
    law_message_is_told(a, "Share created: "@ + url@);
}

/// The shares are shown where they are still wanted, and only there.
pub proof fn law_wanted_shares_are_shown(a: AppView, v: Vec<MyShare>, set: SyntaxSet, theme: Theme)
    ensures
        ({
            let b = a.applied(OpResult::MyShares(Ok(v)), set, theme);
            let wanted = a.shares_pending || a.input is MySharesView;
            &&& wanted ==> b.input is MySharesView && b.input->MySharesView_shares == v@
                && b.input->MySharesView_confirm_delete is None && !b.shares_pending && (
            v@.len() > 0 ==> b.input->MySharesView_selected < v@.len())
            &&& !wanted ==> b.input == a.input
            &&& !b.loading
            &&& a.asks_nothing(b) && a.is_silent(b)
            &&& b.entries == a.entries && b.cart == a.cart
        }),
{
    reveal(AppView::shares_came);
}

/// A listing for the picker is shown in it where it is the one it waits for.
pub proof fn law_awaited_picker_listing_is_shown(
    a: AppView,
    source: Entry,
    folder: String,
    v: Vec<Entry>,
    set: SyntaxSet,
    theme: Theme,
)
    requires
        a.input is MovePicker,
        a.input->MovePicker_picker.folder_id == folder@,
    ensures
        ({
            let p = a.input->MovePicker_picker;
            let b = a.applied(
                OpResult::PickerLs(p.listing_request_id, folder, Ok(v)),
                set,
                theme,
            );
            &&& b.input is MovePicker
            &&& b.input->MovePicker_source == a.input->MovePicker_source
            &&& b.input->MovePicker_picker.entries == v@
            &&& !b.input->MovePicker_picker.loading
            &&& b.input->MovePicker_picker.folder_id == p.folder_id
            &&& b.input->MovePicker_picker.breadcrumb == p.breadcrumb
            &&& a.keeps_files(b) && a.asks_nothing(b) && a.is_silent(b)
        }),
{
    reveal(AppView::picker_listing_came);
}

/// A login that went well has the session taken over, with what was typed. One that failed leads
/// back to the form, with what was typed and with what went wrong.
pub proof fn law_login_ends(
    a: AppView,
    email: String,
    password: String,
    e: String,
    set: SyntaxSet,
    theme: Theme,
)
    ensures
        a.applied(OpResult::LoginDone { email, password, result: Ok(()) }, set, theme) == (AppView {
            effects: a.effects.push(
                EffectView::AdoptSession { email: email@, password: password@ },
            ),
            ..a
        }),
        a.applied(OpResult::LoginDone { email, password, result: Err(e) }, set, theme) == (AppView {
            input: ModeView::Login {
                field: LoginField::Email,
                email: email@,
                password: password@,
                error: Some("Login failed: "@ + e@),
                logging_in: false,
            },
            ..a
        }),
{
    reveal(AppView::login_ended);
}

/// A session that was taken over shows the drive.
pub proof fn law_session_shows_the_drive(a: AppView)
    ensures
        ({
            let b = a.session_taken(Ok(()), Ok(()));
            &&& b.input is Normal
            &&& b.loading
            &&& b.effects.len() > a.effects.len()
            &&& b.effects[a.effects.len() as int] == (EffectView::ListFolder {
                request_id: b.main_listing_request_id,
                folder_id: a.current_folder_id,
            })
            &&& a.tells(b, "Login successful"@)
        }),
{
    law_message_is_told(a.in_mode(ModeView::Normal).refreshed(), "Login successful"@);
}

/// An upload that went well is told and the folder listed again, one that failed is told.
pub proof fn law_upload_ends(a: AppView, msg: String, set: SyntaxSet, theme: Theme)
    ensures
        ({
            let b = a.applied(OpResult::Upload(Ok(msg)), set, theme);
            &&& a.tells(b, msg@)
            &&& b.loading
            &&& b.effects.len() > a.effects.len()
            &&& b.effects[a.effects.len() as int] == (EffectView::ListFolder {
                request_id: b.main_listing_request_id,
                folder_id: a.current_folder_id,
            })
        }),
        ({
            let b = a.applied(OpResult::Upload(Err(msg)), set, theme);
            a.keeps_files(b) && a.tells(b, "Upload failed: "@ + msg@) && !b.loading
                && a.asks_nothing(b)
        }),
{
    reveal(AppView::upload_ended);
    law_message_is_told(a.finished_loading(), msg@);
    law_message_is_told(a.finished_loading(), "Upload failed: "@ + msg@);
}

/// A completion is put into the destination that it was asked for, where that was not changed
/// since, and into none other.
pub proof fn law_completion_is_put_where_it_was_asked_for(
    a: AppView,
    id: u64,
    value: String,
    folder: String,
    c: PathCompletion,
    set: SyntaxSet,
    theme: Theme,
)
    requires
        a.path_completion_in_flight == Some(id),
        a.input is MoveInput,
    ensures
        ({
            let b = a.applied(
                OpResult::PathCandidates {
                    request_id: id,
                    value,
                    folder_context: folder,
                    completion: Some(c),
                },
                set,
                theme,
            );
            let i = a.input->MoveInput_input;
            let same = i.pending_request_id == Some(id) && i.value == value@ && a.current_folder_id
                == folder@;
            &&& b.path_completion_in_flight is None
            &&& same ==> b.input is MoveInput && b.input->MoveInput_source
                == a.input->MoveInput_source && b.input->MoveInput_input.value == c.value@
                && b.input->MoveInput_input.candidates == c.candidates@ && b.text_cursor
                == usize::MAX
            &&& !same ==> b.input == a.input && b.text_cursor == a.text_cursor
            &&& a.asks_nothing(b) && a.is_silent(b)
        }),
{
    reveal(AppView::completion_came);
}

/// What could not be had to play is told, and nothing else changes.
pub proof fn law_failed_playing_is_told(
    a: AppView,
    q: AsyncRequest,
    e: String,
    set: SyntaxSet,
    theme: Theme,
)
    requires
        a.modal_request == Some(q@),
        a.input is Normal,
    ensures
        ({
            let b = a.applied(OpResult::PlayInfo(q, Err(e)), set, theme);
            a.keeps_files(b) && b.input is Normal && !b.loading && a.asks_nothing(b) && a.tells(
                b,
                "Play info failed: "@ + e@,
            )
        }),
        ({
            let b = a.applied(OpResult::PlayPickerInfo(q, Err(e)), set, theme);
            a.keeps_files(b) && b.input is Normal && !b.loading && a.asks_nothing(b) && a.tells(
                b,
                "Play picker info failed: "@ + e@,
            )
        }),
{
    reveal(AppView::play_info_came);
    reveal(AppView::play_options_came);
    law_message_is_told(a.dialog_ended(), "Play info failed: "@ + e@);
    law_message_is_told(a.dialog_ended(), "Play picker info failed: "@ + e@);
}

/// A page that could not be had is told and left, or not opened.
pub proof fn law_failed_pages_are_told(a: AppView, e: String, set: SyntaxSet, theme: Theme)
    ensures
        ({
            let b = a.applied(OpResult::TrashList(Err(e)), set, theme);
            &&& !b.loading && a.asks_nothing(b) && a.tells(b, "Failed to load trash: "@ + e@)
            &&& b.input == (if a.input is TrashView {
                ModeView::Normal
            } else {
                a.input
            })
        }),
        ({
            let b = a.applied(OpResult::MyShares(Err(e)), set, theme);
            &&& !b.loading && !b.shares_pending && a.asks_nothing(b)
            &&& a.tells(b, "Failed to load shares: "@ + e@)
            &&& b.input == (if a.input is MySharesView {
                ModeView::Normal
            } else {
                a.input
            })
        }),
        ({
            let b = a.applied(OpResult::Quota(Err(e)), set, theme);
            a.keeps_files(b) && b.input == a.input && a.asks_nothing(b) && a.tells(
                b,
                "Quota fetch failed: "@ + e@,
            )
        }),
{
    reveal(AppView::trash_listed);
    reveal(AppView::quota_came);
    reveal(AppView::shares_came);
    law_message_is_told(a.finished_loading().trash_left(), "Failed to load trash: "@ + e@);
    law_message_is_told(
        AppView { shares_pending: false, ..a.finished_loading() },
        "Failed to load shares: "@ + e@,
    );
    law_message_is_told(a, "Quota fetch failed: "@ + e@);
}

} // verus!
