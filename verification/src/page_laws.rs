//! What holds of the pages of the trash, the shares, the offline tasks and the downloads.

use crate::app::AppView;
use crate::effect::{CopySource, EffectView, LocalStep, RemoteOpView};
use crate::event::{KeyCode, KeyModifiers};
use crate::frame::law_message_is_told;
use crate::model::{
    AsyncRequestKind, DownloadTask, Entry, LocalPathInputView, ModeView, MyShare, OfflineTask,
    TaskStatus,
};
use crate::text::{decimal, opt_text, trimmed, Chars};
use crate::views::{
    downloads_binding, shares_binding, tasks_binding, trash_binding, DownloadsAction, LocalPathKind,
    SharesAction, TasksAction, TrashAction,
};
use vstd::prelude::*;

verus! {

/// `u` asks to restore the entry under the cursor, `x` to erase it for good. The page stays as it
/// is until the answer comes.
pub proof fn law_trash_acts_on_the_entry_under_the_cursor(
    a: AppView,
    entries: Seq<Entry>,
    selected: usize,
    expanded: bool,
    e: Entry,
)
    requires
        !a.loading,
        selected < entries.len(),
        entries[selected as int] == e,
    ensures
        ({
            let b = a.trash_key(entries, selected, expanded, KeyCode::Char('u'));
            &&& a.asks(
                b,
                EffectView::Remote(RemoteOpView::Untrash { id: e.id@, name: e.name@ }),
            )
            &&& b.loading
            &&& b.input == (ModeView::TrashView { entries, selected, expanded })
            &&& b.trash_entries == entries
            &&& b.trash_selected == selected
            &&& b.entries == a.entries && b.cart == a.cart
        }),
        ({
            let b = a.trash_key(entries, selected, expanded, KeyCode::Char('x'));
            &&& a.asks(
                b,
                EffectView::Remote(RemoteOpView::DeleteTrashed { id: e.id@, name: e.name@ }),
            )
            &&& b.loading
            &&& b.input == (ModeView::TrashView { entries, selected, expanded })
            &&& b.trash_entries == entries
            &&& b.trash_selected == selected
            &&& b.entries == a.entries && b.cart == a.cart
        }),
{
    reveal(AppView::trash_key);
}

/// While something is awaited, the trash takes no key but Escape, which stops waiting. Nothing is
/// restored or erased then.
pub proof fn law_trash_waits(
    a: AppView,
    entries: Seq<Entry>,
    selected: usize,
    expanded: bool,
    code: KeyCode,
)
    requires
        a.loading,
    ensures
        ({
            let waiting = AppView {
                input: ModeView::TrashView { entries, selected, expanded },
                ..a
            };
            a.trash_key(entries, selected, expanded, code) == (if code == KeyCode::Esc {
                AppView { loading: false, loading_label: None, ..waiting }
            } else {
                waiting
            })
        }),
{
    reveal(AppView::trash_key);
}

/// The other keys of the trash walk through it, spread it out and fold it, load it again, or close
/// it, and ask the drive to change nothing.
pub proof fn law_trash_is_walked(
    a: AppView,
    entries: Seq<Entry>,
    selected: usize,
    expanded: bool,
)
    requires
        !a.loading,
        selected < entries.len() <= usize::MAX,
    ensures
        ({
            let down = a.trash_key(entries, selected, expanded, KeyCode::Down);
            let at = (if selected + 1 < entries.len() {
                selected + 1
            } else {
                selected as int
            }) as usize;
            &&& a.asks_nothing(down)
            &&& down.input == (ModeView::TrashView { entries, selected: at, expanded })
            &&& down.trash_selected == at
        }),
        ({
            let up = a.trash_key(entries, selected, expanded, KeyCode::Up);
            let at = (if selected > 0 { selected - 1 } else { 0 }) as usize;
            &&& a.asks_nothing(up)
            &&& up.input == (ModeView::TrashView { entries, selected: at, expanded })
            &&& up.trash_selected == at
        }),
        ({
            let spread = a.trash_key(entries, selected, expanded, KeyCode::Enter);
            &&& a.asks_nothing(spread)
            &&& spread.input == (ModeView::TrashView { entries, selected, expanded: !expanded })
        }),
        ({
            let closed = a.trash_key(entries, selected, false, KeyCode::Esc);
            let folded = a.trash_key(entries, selected, true, KeyCode::Esc);
            &&& a.asks_nothing(closed) && closed.input == a.input && closed.trash_entries.len() == 0
            &&& a.asks_nothing(folded)
            &&& folded.input == (ModeView::TrashView { entries, selected, expanded: false })
        }),
{
    reveal(AppView::trash_key);
}

/// `r` asks for the trash again.
pub proof fn law_trash_is_loaded_again(
    a: AppView,
    entries: Seq<Entry>,
    selected: usize,
    expanded: bool,
)
    requires
        !a.loading,
    ensures
        ({
            let b = a.trash_key(entries, selected, expanded, KeyCode::Char('r'));
            b.loading && a.asks(b, EffectView::ListTrash) && b.input is TrashView
        }),
{
    reveal(AppView::trash_key);
}

/// The space key shows what is known of the entry under the cursor, and asks for its own picture
/// where it has one.
pub proof fn law_trash_info_is_of_the_entry_under_the_cursor(
    a: AppView,
    entries: Seq<Entry>,
    selected: usize,
    expanded: bool,
    e: Entry,
)
    requires
        !a.loading,
        selected < entries.len(),
        entries[selected as int] == e,
    ensures
        ({
            let b = a.trash_key(entries, selected, expanded, KeyCode::Char(' '));
            let link = opt_text(e.thumbnail_link);
            &&& b.input is InfoView
            &&& b.input->info.name == e.name@
            &&& b.input->info.id == Some(e.id@)
            &&& b.input->target_id == e.id@
            &&& b.trash_entries == entries
            &&& b.trash_selected == selected
            &&& b.trash_expanded == expanded
            &&& link is Some && link->0.len() > 0 ==> b.modal_request is Some
                && b.modal_request->0.target == e.id@ && a.asks(
                b,
                EffectView::FetchThumbnail {
                    request: b.modal_request->0,
                    url: link->0,
                    for_info: true,
                },
            )
            &&& !(link is Some && link->0.len() > 0) ==> a.asks_nothing(b) && b.modal_request
                is None
        }),
{
    reveal(AppView::trash_key);
}

/// A share is deleted once that is confirmed, and it is the one that the question was about.
pub proof fn law_share_is_deleted_on_a_yes(
    a: AppView,
    shares: Seq<MyShare>,
    selected: usize,
    share_id: Chars,
)
    ensures
        ({
            let b = a.shares_key(shares, selected, Some(share_id), KeyCode::Char('y'));
            &&& b == (AppView {
                input: ModeView::MySharesView { shares, selected, confirm_delete: None },
                loading: true,
                effects: a.effects.push(
                    EffectView::Remote(RemoteOpView::DeleteShare { share_id }),
                ),
                ..a
            })
            &&& b == a.shares_key(shares, selected, Some(share_id), KeyCode::Enter)
        }),
{
    reveal(AppView::shares_key);
}

/// Any other key leaves the share alone.
pub proof fn law_share_is_not_deleted_without_a_yes(
    a: AppView,
    shares: Seq<MyShare>,
    selected: usize,
    share_id: Chars,
    code: KeyCode,
)
    requires
        code != KeyCode::Char('y'),
        code != KeyCode::Enter,
    ensures
        a.shares_key(shares, selected, Some(share_id), code) == (AppView {
            input: ModeView::MySharesView { shares, selected, confirm_delete: None },
            ..a
        }),
{
    reveal(AppView::shares_key);
}

/// `d` asks about the share under the cursor, `y` copies its link, and neither touches the drive.
pub proof fn law_shares_act_on_the_share_under_the_cursor(
    a: AppView,
    shares: Seq<MyShare>,
    selected: usize,
    code: KeyCode,
)
    requires
        selected < shares.len(),
        code == KeyCode::Char('d') || code == KeyCode::Char('x'),
    ensures
        a.shares_key(shares, selected, None, code) == (AppView {
            input: ModeView::MySharesView {
                shares,
                selected,
                confirm_delete: Some(shares[selected as int].share_id@),
            },
            ..a
        }),
        a.shares_key(shares, selected, None, KeyCode::Char('y')) == (AppView {
            input: ModeView::MySharesView { shares, selected, confirm_delete: None },
            effects: a.effects.push(
                EffectView::WriteClipboard {
                    text: shares[selected as int].share_url@,
                    source: CopySource::MyShares,
                },
            ),
            ..a
        }),
{
    reveal(AppView::shares_key);
}

/// The other keys of the shares walk through them, load them again or close the page.
pub proof fn law_shares_are_walked(a: AppView, shares: Seq<MyShare>, selected: usize)
    requires
        selected < shares.len() <= usize::MAX,
    ensures
        a.shares_key(shares, selected, None, KeyCode::Down) == (AppView {
            input: ModeView::MySharesView {
                shares,
                selected: (if selected + 1 < shares.len() {
                    selected + 1
                } else {
                    selected as int
                }) as usize,
                confirm_delete: None,
            },
            ..a
        }),
        a.shares_key(shares, selected, None, KeyCode::Up) == (AppView {
            input: ModeView::MySharesView {
                shares,
                selected: (if selected > 0 { selected - 1 } else { 0 }) as usize,
                confirm_delete: None,
            },
            ..a
        }),
        a.shares_key(shares, selected, None, KeyCode::Esc) == (AppView {
            input: ModeView::Normal,
            ..a
        }),
        ({
            let b = a.shares_key(shares, selected, None, KeyCode::Char('r'));
            b.loading && a.keeps_files(b) && a.asks(b, EffectView::ListShares)
        }),
{
    reveal(AppView::shares_key);
}

/// The newest created share is on top: `y` copies its link, and Escape puts it away, back to the
/// cart behind the last one.
pub proof fn law_created_shares_are_a_stack(
    a: AppView,
    shares: Seq<(Chars, Chars, Chars)>,
    top: (Chars, Chars, Chars),
    m: KeyModifiers,
)
    requires
        !m.control,
    ensures
        a.created_shares_key(shares.push(top), KeyCode::Char('y'), m) == (AppView {
            input: ModeView::ShareCreatedView { shares: shares.push(top) },
            effects: a.effects.push(
                EffectView::WriteClipboard { text: top.1, source: CopySource::CreatedShare },
            ),
            ..a
        }),
        a.created_shares_key(shares.push(top), KeyCode::Esc, m) == (AppView {
            input: if shares.len() > 0 {
                ModeView::ShareCreatedView { shares }
            } else {
                ModeView::CartView
            },
            ..a
        }),
{
    reveal(AppView::created_shares_key);
    assert(shares.push(top).drop_last() =~= shares);
}

/// `R` retries the task under the cursor where it failed, and only there.
pub proof fn law_failed_task_is_retried(
    a: AppView,
    tasks: Seq<OfflineTask>,
    selected: usize,
    t: OfflineTask,
)
    requires
        selected < tasks.len(),
        tasks[selected as int] == t,
    ensures
        ({
            let b = a.tasks_key(tasks, selected, KeyCode::Char('R'));
            let failed = t.phase@ == "PHASE_TYPE_ERROR"@;
            &&& failed ==> b == (AppView {
                input: ModeView::InfoLoading,
                loading: true,
                loading_label: b.loading_label,
                effects: a.effects.push(
                    EffectView::Remote(RemoteOpView::RetryTask { id: t.id@, name: t.name@ }),
                ),
                ..a
            })
            &&& !failed ==> b == (AppView {
                input: ModeView::OfflineTasksView { tasks, selected },
                ..a
            })
        }),
{
    reveal(AppView::tasks_key);
}

/// `x` deletes the task under the cursor, whatever became of it.
pub proof fn law_task_under_the_cursor_is_deleted(
    a: AppView,
    tasks: Seq<OfflineTask>,
    selected: usize,
    t: OfflineTask,
)
    requires
        selected < tasks.len(),
        tasks[selected as int] == t,
    ensures
        ({
            let b = a.tasks_key(tasks, selected, KeyCode::Char('x'));
            b == AppView {
                input: ModeView::InfoLoading,
                loading: true,
                loading_label: b.loading_label,
                effects: a.effects.push(
                    EffectView::Remote(RemoteOpView::DeleteTask { id: t.id@, name: t.name@ }),
                ),
                ..a
            }
        }),
{
    reveal(AppView::tasks_key);
}

/// The other keys of the tasks walk through them, load them again or close the page.
pub proof fn law_tasks_are_walked(a: AppView, tasks: Seq<OfflineTask>, selected: usize)
    requires
        selected < tasks.len() <= usize::MAX,
    ensures
        a.tasks_key(tasks, selected, KeyCode::Down) == (AppView {
            input: ModeView::OfflineTasksView {
                tasks,
                selected: (if selected + 1 < tasks.len() {
                    selected + 1
                } else {
                    selected as int
                }) as usize,
            },
            ..a
        }),
        a.tasks_key(tasks, selected, KeyCode::Up) == (AppView {
            input: ModeView::OfflineTasksView {
                tasks,
                selected: (if selected > 0 { selected - 1 } else { 0 }) as usize,
            },
            ..a
        }),
        a.tasks_key(tasks, selected, KeyCode::Esc) == a,
        ({
            let b = a.tasks_key(tasks, selected, KeyCode::Char('r'));
            &&& b.loading && b.input is InfoLoading && b.modal_request is Some
            &&& b.modal_request->0.kind == AsyncRequestKind::OfflineTasks
            &&& a.asks(b, EffectView::ListOfflineTasks { request: b.modal_request->0 })
        }),
{
    reveal(AppView::tasks_key);
}

/// In the spread out list `r` on a task that failed makes it wait again and has the downloads
/// started, and only the task under the cursor changes.
pub proof fn law_failed_download_is_retried(a: AppView, i: int)
    requires
        a.downloads_expanded,
        a.downloads_selected < a.downloads.len(),
        a.downloads[a.downloads_selected as int].status == TaskStatus::Failed,
        0 <= i < a.downloads.len(),
    ensures
        ({
            let b = a.downloads_key(KeyCode::Char('r'));
            let at = a.downloads_selected as int;
            let t = a.downloads[at];
            &&& b.downloads.len() == a.downloads.len()
            &&& b.downloads[at] == (DownloadTask { status: TaskStatus::Pending, ..t })
            &&& i != at ==> b.downloads[i] == a.downloads[i]
            &&& b.effects == a.effects.push(EffectView::ResetDownload { id: t.id }).push(
                EffectView::StartDownloads,
            )
            &&& b.input is DownloadView
            &&& b.downloads_selected == a.downloads_selected
            &&& a.tells(b, "Retrying"@ + " '"@ + t.name@ + "'"@)
        }),
{
    reveal(AppView::downloads_key);
    let t = a.downloads[a.downloads_selected as int];
    law_message_is_told(
        a.task_set(a.downloads_selected as int, TaskStatus::Pending).asking(
            EffectView::ResetDownload { id: t.id },
        ),
        "Retrying"@ + " '"@ + t.name@ + "'"@,
    );
}

/// On a task of any other status `r` changes no task and asks for nothing.
pub proof fn law_only_failed_downloads_are_retried(a: AppView)
    requires
        a.downloads_selected < a.downloads.len() ==> a.downloads[a.downloads_selected as int].status
            != TaskStatus::Failed,
    ensures
        a.downloads_key(KeyCode::Char('r')) == (AppView { input: ModeView::DownloadView, ..a }),
{
    reveal(AppView::downloads_key);
}

/// In the spread out list `p` pauses the task under the cursor while it runs, and lets it go on
/// where it is paused, without touching another one.
pub proof fn law_download_is_paused_and_resumed(a: AppView, i: int)
    requires
        a.downloads_expanded,
        a.downloads_selected < a.downloads.len(),
        0 <= i < a.downloads.len(),
    ensures
        ({
            let b = a.downloads_key(KeyCode::Char('p'));
            let at = a.downloads_selected as int;
            let t = a.downloads[at];
            &&& b.input is DownloadView
            &&& b.downloads.len() == a.downloads.len()
            &&& i != at ==> b.downloads[i] == a.downloads[i]
            &&& t.status == TaskStatus::Downloading ==> b.downloads[at] == (DownloadTask {
                status: TaskStatus::Paused,
                ..t
            }) && a.asks(b, EffectView::StopDownload { id: t.id })
            &&& t.status == TaskStatus::Paused ==> b.downloads[at] == (DownloadTask {
                status: TaskStatus::Pending,
                ..t
            }) && b.effects == a.effects.push(EffectView::ResetDownload { id: t.id }).push(
                EffectView::StartDownloads,
            )
            &&& t.status != TaskStatus::Downloading && t.status != TaskStatus::Paused ==> b == (
            AppView { input: ModeView::DownloadView, ..a })
        }),
{
    reveal(AppView::downloads_key);
}

/// Enter spreads the list out and folds it, and Escape closes the page.
pub proof fn law_downloads_are_spread_out(a: AppView)
    ensures
        a.downloads_key(KeyCode::Enter) == (AppView {
            input: ModeView::DownloadView,
            downloads_expanded: !a.downloads_expanded,
            ..a
        }),
        a.downloads_key(KeyCode::Esc) == a,
{
    reveal(AppView::downloads_key);
}

/// While the list is folded, no other key does anything.
pub proof fn law_folded_downloads_take_no_key(a: AppView, code: KeyCode)
    requires
        !a.downloads_expanded,
        code != KeyCode::Enter,
        code != KeyCode::Esc,
    ensures
        a.downloads_key(code) == (AppView { input: ModeView::DownloadView, ..a }),
{
    reveal(AppView::downloads_key);
}

/// In the spread out list `x` has the task under the cursor cancelled, and the cursor goes by one
/// row.
pub proof fn law_downloads_are_walked(a: AppView)
    requires
        a.downloads_selected < a.downloads.len() <= usize::MAX,
        a.downloads_expanded,
    ensures
        a.downloads_key(KeyCode::Char('x')) == (AppView {
            input: ModeView::DownloadView,
            effects: a.effects.push(EffectView::CancelDownload { index: a.downloads_selected }),
            ..a
        }),
        a.downloads_key(KeyCode::Down) == (AppView {
            input: ModeView::DownloadView,
            downloads_selected: (if a.downloads_selected + 1 < a.downloads.len() {
                a.downloads_selected + 1
            } else {
                a.downloads_selected as int
            }) as usize,
            ..a
        }),
        a.downloads_key(KeyCode::Up) == (AppView {
            input: ModeView::DownloadView,
            downloads_selected: (if a.downloads_selected > 0 {
                a.downloads_selected - 1
            } else {
                0
            }) as usize,
            ..a
        }),
{
    reveal(AppView::downloads_key);
}

/// A destination that is confirmed queues the whole cart for it, empties the cart and starts the
/// downloads. A blank one does not.
pub proof fn law_cart_is_downloaded_to_the_typed_path(a: AppView, input: LocalPathInputView)
    ensures
        ({
            let b = a.local_completed(input, false, LocalStep::Confirm, false);
            let path = trimmed(input.value);
            &&& path.len() > 0 ==> {
                &&& b.cart.len() == 0
                &&& b.cart_selected == 0
                &&& b.input is DownloadView
                &&& b.effects == a.effects.push(
                    EffectView::QueueDownloads { dest: path, items: a.cart },
                ).push(EffectView::StartDownloads)
                &&& a.tells(b, "Queued "@ + decimal(a.cart.len()) + " files for download"@)
            }
            &&& path.len() == 0 ==> {
                &&& b.cart == a.cart
                &&& a.asks_nothing(b)
                &&& b.input == (ModeView::DownloadInput { input })
                &&& a.tells(b, "No destination path specified"@)
            }
        }),
{
    law_message_is_told(a, "No destination path specified"@);
    law_message_is_told(
        a.cart_emptied().asking(
            EffectView::QueueDownloads { dest: trimmed(input.value), items: a.cart },
        ),
        "Queued "@ + decimal(a.cart.len()) + " files for download"@,
    );
}

/// A path that is confirmed for an upload is looked at first. A candidate that is taken from the
/// list is not confirmed yet.
pub proof fn law_upload_path_is_looked_at(a: AppView, input: LocalPathInputView)
    ensures
        a.local_completed(input, true, LocalStep::Confirm, false) == (AppView {
            input: ModeView::UploadInput { input },
            effects: a.effects.push(EffectView::InspectPath { path: trimmed(input.value) }),
            ..a
        }),
        a.local_completed(input, true, LocalStep::Confirm, true) == (AppView {
            input: ModeView::UploadInput { input },
            text_cursor: usize::MAX,
            ..a
        }),
        a.local_completed(input, false, LocalStep::Confirm, true) == (AppView {
            input: ModeView::DownloadInput { input },
            text_cursor: usize::MAX,
            ..a
        }),
{
}

/// A file or a folder is uploaded to the folder that is shown. Nothing else is uploaded.
pub proof fn law_upload_goes_to_the_shown_folder(a: AppView, path: Chars, name: Chars)
    ensures
        ({
            let b = a.upload_path_seen(path, LocalPathKind::File, name);
            &&& a.keeps_files(b) && b.loading && b.input is Normal
            &&& a.asks(
                b,
                EffectView::Remote(
                    RemoteOpView::UploadFile { folder_id: a.current_folder_id, path },
                ),
            )
        }),
        ({
            let b = a.upload_path_seen(path, LocalPathKind::Folder, name);
            &&& a.keeps_files(b) && b.loading && b.input is Normal
            &&& a.asks(
                b,
                EffectView::Remote(
                    RemoteOpView::UploadDir { folder_id: a.current_folder_id, path, name },
                ),
            )
        }),
        ({
            let b = a.upload_path_seen(path, LocalPathKind::Missing, name);
            let c = a.upload_path_seen(path, LocalPathKind::Other, name);
            &&& a.keeps_files(b) && a.asks_nothing(b) && b.input == a.input && a.tells(
                b,
                "File not found: "@ + path,
            )
            &&& a.keeps_files(c) && a.asks_nothing(c) && c.input == a.input && a.tells(
                c,
                "Not a file or directory: "@ + path,
            )
        }),
{
    law_message_is_told(a, "File not found: "@ + path);
    law_message_is_told(a, "Not a file or directory: "@ + path);
}

/// The keys of these pages.
pub proof fn law_keys_of_the_pages()
    ensures
        trash_binding(KeyCode::Char('j')) == TrashAction::Down,
        trash_binding(KeyCode::Char('k')) == TrashAction::Up,
        shares_binding(KeyCode::Char('j')) == SharesAction::Down,
        shares_binding(KeyCode::Char('k')) == SharesAction::Up,
        shares_binding(KeyCode::Char('l')) == SharesAction::ToggleLogs,
        tasks_binding(KeyCode::Char('j')) == TasksAction::Down,
        tasks_binding(KeyCode::Char('k')) == TasksAction::Up,
        downloads_binding(KeyCode::Char('j')) == DownloadsAction::Down,
        downloads_binding(KeyCode::Char('k')) == DownloadsAction::Up,
{
}

} // verus!
