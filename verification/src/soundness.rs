//! What holds in every state of the interface.

use crate::app::{AppView, MAX_LOGS};
use crate::effect::{OpResult, PathCompletion};
use crate::laws::law_cursor_follows_its_entry;
use crate::model::{Entry, FileInfo, ImageHandle, MyShare, OfflineTask, PlayOption, RequestView};
use crate::navigate::no_duplicates;
use crate::start::{login_mode, Setup, SPINNER_LEN};
use crate::text::{opt_text, Chars};
use syntect::highlighting::Theme;
use syntect::parsing::SyntaxSet;
use vstd::prelude::*;

verus! {

impl AppView {
    /// Whether the cursor stands on an entry of the list, where there is one.
    pub open spec fn cursor_is_listed(self) -> bool {
        self.entries.len() == 0 || self.selected < self.entries.len()
    }

    /// What holds in every state of the interface: the cursor stands on an entry of the list, no
    /// more messages are kept than the limit allows, the spinner stands at one of its pictures,
    /// and no entry is in the cart twice.
    pub open spec fn is_sound(self) -> bool {
        &&& self.cursor_is_listed()
        &&& self.logs.len() <= MAX_LOGS
        &&& self.spinner_idx < SPINNER_LEN
        &&& no_duplicates(self.cart)
    }
}

/// The interface starts out sound.
pub proof fn law_start_is_sound(setup: Setup, credentials: Option<(Chars, Chars)>)
    ensures
        AppView::authed(setup).is_sound(),
        AppView::fresh(setup, login_mode(credentials), Seq::empty()).is_sound(),
{
}

/// The passing of time keeps the interface sound.
pub proof fn law_time_keeps_the_interface_sound(a: AppView, now: u64)
    requires
        a.is_sound(),
    ensures
        a.ticked(now).is_sound(),
        a.preview_settled().is_sound(),
{
}

/// Whether an operation leaves the cart and the spinner alone, the cursor in the list, and the log
/// within its limit.
pub open spec fn leaves_alone(a: AppView, b: AppView) -> bool {
    &&& b.cart == a.cart
    &&& b.spinner_idx == a.spinner_idx
    &&& a.logs.len() <= MAX_LOGS ==> b.logs.len() <= MAX_LOGS
    &&& a.cursor_is_listed() ==> b.cursor_is_listed()
}

/// Replies keep the interface sound.
pub proof fn law_replies_keep_the_interface_sound(
    a: AppView,
    r: OpResult,
    set: SyntaxSet,
    theme: Theme,
)
    requires
        a.is_sound(),
    ensures
        a.applied(r, set, theme).is_sound(),
{
    lemma_replies_leave_alone(a, r, set, theme);
}

proof fn lemma_listing_leaves_alone(
    a: AppView,
    id: u64,
    folder: Chars,
    result: Result<Vec<Entry>, String>,
)
    ensures
        leaves_alone(a, a.main_listed(id, folder, result)),
        leaves_alone(a, a.picker_listing_came(id, folder, result)),
{
    reveal(AppView::main_listed);
    reveal(AppView::picker_listing_came);
    match result {
        Ok(v) => {
            assert(v.len() == v@.len());
            law_cursor_follows_its_entry(a.finished_loading(), v@);
        },
        Err(_) => {},
    }
}

pub proof fn lemma_refresh_leaves_alone(a: AppView)
    ensures
        leaves_alone(a, a.refreshed()),
        leaves_alone(a, a.parent_refreshed()),
        leaves_alone(a, a.preview_cleared()),
        leaves_alone(a, a.cursor_moved()),
        leaves_alone(a, a.offline_tasks_opened()),
        leaves_alone(a, a.trash_reopened()),
{
}

proof fn lemma_info_leaves_alone(
    a: AppView,
    q: RequestView,
    result: Result<FileInfo, String>,
    fallback: Option<Chars>,
)
    ensures
        leaves_alone(a, a.info_came(q, result, fallback)),
        leaves_alone(a, a.preview_info_came(q, result)),
        leaves_alone(a, a.play_info_came(q, result)),
{
    reveal(AppView::info_came);
    reveal(AppView::preview_info_came);
    reveal(AppView::play_info_came);
}

proof fn lemma_folder_leaves_alone(a: AppView, q: RequestView, result: Result<Vec<Entry>, String>)
    ensures
        leaves_alone(a, a.parent_listed(q, result)),
        leaves_alone(a, a.folder_preview_came(q, result)),
{
    reveal(AppView::parent_listed);
    reveal(AppView::folder_preview_came);
}

proof fn lemma_trash_leaves_alone(a: AppView, result: Result<Vec<Entry>, String>)
    ensures
        leaves_alone(a, a.trash_listed(result)),
{
    reveal(AppView::trash_listed);
}

proof fn lemma_text_leaves_alone(
    a: AppView,
    q: RequestView,
    result: Result<(String, String, u64, bool), String>,
    set: SyntaxSet,
    theme: Theme,
)
    ensures
        leaves_alone(a, a.text_preview_came(q, result, set, theme)),
{
    reveal(AppView::text_preview_came);
}

proof fn lemma_goto_leaves_alone(
    a: AppView,
    q: RequestView,
    result: Result<(String, Vec<(String, String)>), String>,
)
    ensures
        leaves_alone(a, a.goto_came(q, result)),
{
    reveal(AppView::goto_came);
}

proof fn lemma_picture_leaves_alone(
    a: AppView,
    q: RequestView,
    result: Result<ImageHandle, String>,
)
    ensures
        leaves_alone(a, a.thumbnail_came(q, result)),
        leaves_alone(a, a.info_thumbnail_came(q, result)),
{
    reveal(AppView::thumbnail_came);
    reveal(AppView::info_thumbnail_came);
}

proof fn lemma_tasks_leave_alone(
    a: AppView,
    q: RequestView,
    tasks: Result<Vec<OfflineTask>, String>,
    streams: Result<(FileInfo, Vec<PlayOption>), String>,
)
    ensures
        leaves_alone(a, a.offline_tasks_came(q, tasks)),
        leaves_alone(a, a.play_options_came(q, streams)),
{
    reveal(AppView::offline_tasks_came);
    reveal(AppView::play_options_came);
}

proof fn lemma_drive_leaves_alone(
    a: AppView,
    quota: Result<Option<(Option<String>, Option<String>)>, String>,
    shares: Result<Vec<MyShare>, String>,
    version: Option<Chars>,
)
    ensures
        leaves_alone(a, a.quota_came(quota)),
        leaves_alone(a, a.shares_came(shares)),
        leaves_alone(a, a.update_came(version)),
{
    reveal(AppView::quota_came);
    reveal(AppView::shares_came);
    reveal(AppView::update_came);
}

proof fn lemma_dialogs_leave_alone(
    a: AppView,
    x: Chars,
    y: Chars,
    z: Chars,
    id: u64,
    completion: Option<PathCompletion>,
    result: Result<(), String>,
)
    ensures
        leaves_alone(a, a.share_made(x, y, z)),
        leaves_alone(a, a.completion_came(id, x, y, completion)),
        leaves_alone(a, a.login_ended(x, y, result)),
        leaves_alone(a, a.logged(x).finished_loading()),
{
    reveal(AppView::share_made);
    reveal(AppView::completion_came);
    reveal(AppView::login_ended);
}

proof fn lemma_told_leaves_alone(a: AppView, msg: Chars, result: Result<String, String>)
    ensures
        leaves_alone(a, a.logged(msg).refreshed()),
        leaves_alone(a, a.finished_loading().logged(msg).trash_reopened()),
        leaves_alone(a, a.logged(msg).offline_tasks_opened()),
        leaves_alone(a, a.upload_ended(result)),
{
    reveal(AppView::upload_ended);
    lemma_refresh_leaves_alone(a.logged(msg));
    lemma_refresh_leaves_alone(a.finished_loading().logged(msg));
    match result {
        Ok(m) => lemma_refresh_leaves_alone(a.finished_loading().logged(m@)),
        Err(_) => {},
    }
}

proof fn lemma_replies_leave_alone(a: AppView, r: OpResult, set: SyntaxSet, theme: Theme)
    ensures
        leaves_alone(a, a.applied(r, set, theme)),
{
    match r {
        OpResult::Ls(id, folder, result) => lemma_listing_leaves_alone(a, id, folder@, result),
        OpResult::PickerLs(id, folder, result) => lemma_listing_leaves_alone(a, id, folder@, result),
        OpResult::Info(q, result, fallback) => lemma_info_leaves_alone(
            a,
            q@,
            result,
            opt_text(fallback),
        ),
        OpResult::PreviewInfo(q, result) => lemma_info_leaves_alone(a, q@, result, None),
        OpResult::PlayInfo(q, result) => lemma_info_leaves_alone(a, q@, result, None),
        OpResult::ParentLs(q, result) => lemma_folder_leaves_alone(a, q@, result),
        OpResult::PreviewLs(q, result) => lemma_folder_leaves_alone(a, q@, result),
        OpResult::TrashList(result) => lemma_trash_leaves_alone(a, result),
        OpResult::PreviewText(q, result) => lemma_text_leaves_alone(a, q@, result, set, theme),
        OpResult::GotoPath(q, result) => lemma_goto_leaves_alone(a, q@, result),
        OpResult::Done(msg) => lemma_told_leaves_alone(a, msg@, Ok(msg)),
        OpResult::TrashOp(msg) => lemma_told_leaves_alone(a, msg@, Ok(msg)),
        OpResult::OfflineOp(msg) => lemma_told_leaves_alone(a, msg@, Ok(msg)),
        OpResult::Upload(result) => lemma_told_leaves_alone(a, Seq::empty(), result),
        OpResult::PreviewThumbnail(q, result) => lemma_picture_leaves_alone(a, q@, result),
        OpResult::InfoThumbnail(q, result) => lemma_picture_leaves_alone(a, q@, result),
        OpResult::OfflineTasks(q, result) => lemma_tasks_leave_alone(
            a,
            q@,
            result,
            Err(arbitrary()),
        ),
        OpResult::PlayPickerInfo(q, result) => lemma_tasks_leave_alone(
            a,
            q@,
            Err(arbitrary()),
            result,
        ),
        OpResult::Quota(result) => lemma_drive_leaves_alone(a, result, Err(arbitrary()), None),
        OpResult::MyShares(result) => lemma_drive_leaves_alone(a, Ok(None), result, None),
        OpResult::UpdateAvailable(version) => lemma_drive_leaves_alone(
            a,
            Ok(None),
            Err(arbitrary()),
            opt_text(version),
        ),
        OpResult::ShareCreated { title, url, pass_code } => lemma_dialogs_leave_alone(
            a,
            title@,
            url@,
            pass_code@,
            0,
            None,
            Ok(()),
        ),
        OpResult::PathCandidates { request_id, value, folder_context, completion } =>
            lemma_dialogs_leave_alone(
            a,
            value@,
            folder_context@,
            Seq::empty(),
            request_id,
            completion,
            Ok(()),
        ),
        OpResult::LoginDone { email, password, result } => lemma_dialogs_leave_alone(
            a,
            email@,
            password@,
            Seq::empty(),
            0,
            None,
            result,
        ),
        OpResult::Failed(msg) => lemma_dialogs_leave_alone(
            a,
            msg@,
            Seq::empty(),
            Seq::empty(),
            0,
            None,
            Ok(()),
        ),
    }
}

} // verus!
