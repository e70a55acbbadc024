//! Work that the interface asks its host to do, and the replies.

use crate::model::{
    AsyncRequest, ConfigView, Entry, FileInfo, ImageHandle, LocalPathInput, LocalPathInputView,
    MyShare, OfflineTask, PathInput, PathInputView, PlayOption, RequestView, TuiConfig,
};
use crate::text::{cat2, cat3, cat4, cat5, dec, decimal, opt_text, owned, texts, Chars};
use vstd::prelude::*;

verus! {

/// A change on the drive. What it carries beside the ids goes into the message about its outcome.
#[derive(Debug)]
#[allow(inconsistent_fields)]
pub enum RemoteOp {
    MoveCopy {
        source_id: String,
        source_name: String,
        dest_id: String,
        dest_path: String,
        is_move: bool,
    },
    CartMoveCopy { ids: Vec<String>, dest_id: String, dest_path: String, is_move: bool },
    Rename { id: String, old_name: String, new_name: String },
    Mkdir { parent_id: String, name: String },
    Star { id: String, name: String, starred: bool },
    Trash { id: String, name: String },
    Delete { id: String, name: String },
    TrashCart { ids: Vec<String> },
    Untrash { id: String, name: String },
    DeleteTrashed { id: String, name: String },
    RetryTask { id: String, name: String },
    DeleteTask { id: String, name: String },
    OfflineDownload { url: String, parent_id: Option<String> },
    SaveShare { share_id: String, to_parent_id: String },
    CreateShare { file_id: String, title: String, need_password: bool },
    DeleteShare { share_id: String },
    CopyLink { id: String, name: String },
    UploadDir { folder_id: String, path: String, name: String },
    UploadFile { folder_id: String, path: String },
}

#[allow(inconsistent_fields)]
pub enum RemoteOpView {
    MoveCopy {
        source_id: Chars,
        source_name: Chars,
        dest_id: Chars,
        dest_path: Chars,
        is_move: bool,
    },
    CartMoveCopy { ids: Seq<Chars>, dest_id: Chars, dest_path: Chars, is_move: bool },
    Rename { id: Chars, old_name: Chars, new_name: Chars },
    Mkdir { parent_id: Chars, name: Chars },
    Star { id: Chars, name: Chars, starred: bool },
    Trash { id: Chars, name: Chars },
    Delete { id: Chars, name: Chars },
    TrashCart { ids: Seq<Chars> },
    Untrash { id: Chars, name: Chars },
    DeleteTrashed { id: Chars, name: Chars },
    RetryTask { id: Chars, name: Chars },
    DeleteTask { id: Chars, name: Chars },
    OfflineDownload { url: Chars, parent_id: Option<Chars> },
    SaveShare { share_id: Chars, to_parent_id: Chars },
    CreateShare { file_id: Chars, title: Chars, need_password: bool },
    DeleteShare { share_id: Chars },
    CopyLink { id: Chars, name: Chars },
    UploadDir { folder_id: Chars, path: Chars, name: Chars },
    UploadFile { folder_id: Chars, path: Chars },
}

impl View for RemoteOp {
    type V = RemoteOpView;

    open spec fn view(&self) -> RemoteOpView {
        match self {
            RemoteOp::MoveCopy { source_id, source_name, dest_id, dest_path, is_move } =>
                RemoteOpView::MoveCopy {
                source_id: source_id@,
                source_name: source_name@,
                dest_id: dest_id@,
                dest_path: dest_path@,
                is_move: *is_move,
            },
            RemoteOp::CartMoveCopy { ids, dest_id, dest_path, is_move } =>
                RemoteOpView::CartMoveCopy {
                ids: texts(ids@),
                dest_id: dest_id@,
                dest_path: dest_path@,
                is_move: *is_move,
            },
            RemoteOp::Rename { id, old_name, new_name } => RemoteOpView::Rename {
                id: id@,
                old_name: old_name@,
                new_name: new_name@,
            },
            RemoteOp::Mkdir { parent_id, name } => RemoteOpView::Mkdir {
                parent_id: parent_id@,
                name: name@,
            },
            RemoteOp::Star { id, name, starred } => RemoteOpView::Star {
                id: id@,
                name: name@,
                starred: *starred,
            },
            RemoteOp::Trash { id, name } => RemoteOpView::Trash { id: id@, name: name@ },
            RemoteOp::Delete { id, name } => RemoteOpView::Delete { id: id@, name: name@ },
            RemoteOp::TrashCart { ids } => RemoteOpView::TrashCart { ids: texts(ids@) },
            RemoteOp::Untrash { id, name } => RemoteOpView::Untrash { id: id@, name: name@ },
            RemoteOp::DeleteTrashed { id, name } => RemoteOpView::DeleteTrashed {
                id: id@,
                name: name@,
            },
            RemoteOp::RetryTask { id, name } => RemoteOpView::RetryTask { id: id@, name: name@ },
            RemoteOp::DeleteTask { id, name } => RemoteOpView::DeleteTask { id: id@, name: name@ },
            RemoteOp::OfflineDownload { url, parent_id } => RemoteOpView::OfflineDownload {
                url: url@,
                parent_id: opt_text(*parent_id),
            },
            RemoteOp::SaveShare { share_id, to_parent_id } => RemoteOpView::SaveShare {
                share_id: share_id@,
                to_parent_id: to_parent_id@,
            },
            RemoteOp::CreateShare { file_id, title, need_password } => RemoteOpView::CreateShare {
                file_id: file_id@,
                title: title@,
                need_password: *need_password,
            },
            RemoteOp::DeleteShare { share_id } => RemoteOpView::DeleteShare { share_id: share_id@ },
            RemoteOp::CopyLink { id, name } => RemoteOpView::CopyLink { id: id@, name: name@ },
            RemoteOp::UploadDir { folder_id, path, name } => RemoteOpView::UploadDir {
                folder_id: folder_id@,
                path: path@,
                name: name@,
            },
            RemoteOp::UploadFile { folder_id, path } => RemoteOpView::UploadFile {
                folder_id: folder_id@,
                path: path@,
            },
        }
    }
}

/// Why the settings are being written.
#[derive(Clone, Copy, Debug, PartialEq, Eq, Structural)]
pub enum SavePurpose {
    Settings,
    CustomColors,
    ImageProtocols,
    /// Nothing waits for the outcome.
    Silent,
}

/// Where a copied link was copied from.
#[derive(Clone, Copy, Debug, PartialEq, Eq, Structural)]
pub enum CopySource {
    /// A share that has just been made: the outcome is not told.
    NewShare,
    CreatedShare,
    MyShares,
}

/// A step of the completion of a local path.
#[derive(Clone, Copy, Debug, PartialEq, Eq, Structural)]
pub enum LocalStep {
    /// Open the list of candidates, or go to the next one of an open list.
    OpenOrNext,
    /// Open the list of candidates unless it is open, and go to the previous one.
    OpenAndPrev,
    Prev,
    Next,
    /// Open the list of candidates anew.
    Reopen,
    /// Take the chosen candidate over, if there is one.
    Confirm,
}

/// Something that only the host can do.
#[derive(Debug)]
#[allow(inconsistent_fields)]
pub enum Effect {
    Login { email: String, password: String },
    CheckUpdate,
    FetchQuota,
    ListFolder { request_id: u64, folder_id: String },
    ListPicker { request_id: u64, folder_id: String },
    ListParent { request: AsyncRequest },
    ListPreview { request: AsyncRequest },
    FetchThumbnail { request: AsyncRequest, url: String, for_info: bool },
    FetchText { request: AsyncRequest, max_bytes: u64 },
    FetchPreviewInfo { request: AsyncRequest },
    FetchInfo { request: AsyncRequest, thumb_fallback: Option<String> },
    FetchPlayInfo { request: AsyncRequest },
    FetchPlayOptions { request: AsyncRequest },
    ResolveNav { request: AsyncRequest },
    ListOfflineTasks { request: AsyncRequest },
    ListTrash,
    ListShares,
    Remote(RemoteOp),
    ResolvePath { target: String, source: Option<Entry>, is_move: bool },
    SaveConfig { config: TuiConfig, purpose: SavePurpose },
    /// Keep the credentials and go over to the session that a sign-in made.
    AdoptSession { email: String, password: String },
    DetectTerminal,
    SortEntries,
    CompletePath { input: PathInput },
    CompleteLocal { step: LocalStep, input: LocalPathInput },
    OpenLocalInput { for_upload: bool },
    InspectPath { path: String },
    WriteClipboard { text: String, source: CopySource },
    LaunchPlayer { program: String, args: Vec<String> },
    QueueDownloads { dest: String, items: Vec<Entry> },
    StartDownloads,
    StopDownload { id: u64 },
    ResetDownload { id: u64 },
    CancelDownload { index: usize },
    SetDownloadJobs { jobs: usize },
}

#[allow(inconsistent_fields)]
pub enum EffectView {
    Login { email: Chars, password: Chars },
    CheckUpdate,
    FetchQuota,
    ListFolder { request_id: u64, folder_id: Chars },
    ListPicker { request_id: u64, folder_id: Chars },
    ListParent { request: RequestView },
    ListPreview { request: RequestView },
    FetchThumbnail { request: RequestView, url: Chars, for_info: bool },
    FetchText { request: RequestView, max_bytes: u64 },
    FetchPreviewInfo { request: RequestView },
    FetchInfo { request: RequestView, thumb_fallback: Option<Chars> },
    FetchPlayInfo { request: RequestView },
    FetchPlayOptions { request: RequestView },
    ResolveNav { request: RequestView },
    ListOfflineTasks { request: RequestView },
    ListTrash,
    ListShares,
    Remote(RemoteOpView),
    ResolvePath { target: Chars, source: Option<Entry>, is_move: bool },
    SaveConfig { config: ConfigView, purpose: SavePurpose },
    AdoptSession { email: Chars, password: Chars },
    DetectTerminal,
    SortEntries,
    CompletePath { input: PathInputView },
    CompleteLocal { step: LocalStep, input: LocalPathInputView },
    OpenLocalInput { for_upload: bool },
    InspectPath { path: Chars },
    WriteClipboard { text: Chars, source: CopySource },
    LaunchPlayer { program: Chars, args: Seq<Chars> },
    QueueDownloads { dest: Chars, items: Seq<Entry> },
    StartDownloads,
    StopDownload { id: u64 },
    ResetDownload { id: u64 },
    CancelDownload { index: usize },
    SetDownloadJobs { jobs: usize },
}

impl View for Effect {
    type V = EffectView;

    open spec fn view(&self) -> EffectView {
        match self {
            Effect::Login { email, password } => EffectView::Login {
                email: email@,
                password: password@,
            },
            Effect::CheckUpdate => EffectView::CheckUpdate,
            Effect::FetchQuota => EffectView::FetchQuota,
            Effect::ListFolder { request_id, folder_id } => EffectView::ListFolder {
                request_id: *request_id,
                folder_id: folder_id@,
            },
            Effect::ListPicker { request_id, folder_id } => EffectView::ListPicker {
                request_id: *request_id,
                folder_id: folder_id@,
            },
            Effect::ListParent { request } => EffectView::ListParent { request: request@ },
            Effect::ListPreview { request } => EffectView::ListPreview { request: request@ },
            Effect::FetchThumbnail { request, url, for_info } => EffectView::FetchThumbnail {
                request: request@,
                url: url@,
                for_info: *for_info,
            },
            Effect::FetchText { request, max_bytes } => EffectView::FetchText {
                request: request@,
                max_bytes: *max_bytes,
            },
            Effect::FetchPreviewInfo { request } => EffectView::FetchPreviewInfo {
                request: request@,
            },
            Effect::FetchInfo { request, thumb_fallback } => EffectView::FetchInfo {
                request: request@,
                thumb_fallback: opt_text(*thumb_fallback),
            },
            Effect::FetchPlayInfo { request } => EffectView::FetchPlayInfo { request: request@ },
            Effect::FetchPlayOptions { request } => EffectView::FetchPlayOptions {
                request: request@,
            },
            Effect::ResolveNav { request } => EffectView::ResolveNav { request: request@ },
            Effect::ListOfflineTasks { request } => EffectView::ListOfflineTasks {
                request: request@,
            },
            Effect::ListTrash => EffectView::ListTrash,
            Effect::ListShares => EffectView::ListShares,
            Effect::Remote(op) => EffectView::Remote(op@),
            Effect::ResolvePath { target, source, is_move } => EffectView::ResolvePath {
                target: target@,
                source: *source,
                is_move: *is_move,
            },
            Effect::SaveConfig { config, purpose } => EffectView::SaveConfig {
                config: config@,
                purpose: *purpose,
            },
            Effect::AdoptSession { email, password } => EffectView::AdoptSession {
                email: email@,
                password: password@,
            },
            Effect::DetectTerminal => EffectView::DetectTerminal,
            Effect::SortEntries => EffectView::SortEntries,
            Effect::CompletePath { input } => EffectView::CompletePath { input: input@ },
            Effect::CompleteLocal { step, input } => EffectView::CompleteLocal {
                step: *step,
                input: input@,
            },
            Effect::OpenLocalInput { for_upload } => EffectView::OpenLocalInput {
                for_upload: *for_upload,
            },
            Effect::InspectPath { path } => EffectView::InspectPath { path: path@ },
            Effect::WriteClipboard { text, source } => EffectView::WriteClipboard {
                text: text@,
                source: *source,
            },
            Effect::LaunchPlayer { program, args } => EffectView::LaunchPlayer {
                program: program@,
                args: texts(args@),
            },
            Effect::QueueDownloads { dest, items } => EffectView::QueueDownloads {
                dest: dest@,
                items: items@,
            },
            Effect::StartDownloads => EffectView::StartDownloads,
            Effect::StopDownload { id } => EffectView::StopDownload { id: *id },
            Effect::ResetDownload { id } => EffectView::ResetDownload { id: *id },
            Effect::CancelDownload { index } => EffectView::CancelDownload { index: *index },
            Effect::SetDownloadJobs { jobs } => EffectView::SetDownloadJobs { jobs: *jobs },
        }
    }
}

pub open spec fn effects_view(v: Seq<Effect>) -> Seq<EffectView> {
    Seq::new(v.len(), |i: int| v[i]@)
}

/// A completed destination path.
#[derive(Debug)]
pub struct PathCompletion {
    pub value: String,
    pub candidates: Vec<String>,
    pub candidate_idx: Option<usize>,
}

/// The outcome of some work. Errors are given as text; listings come in the order of the settings.
#[derive(Debug)]
pub enum OpResult {
    /// A listing of the main pane, with the request and the folder that it answers.
    Ls(u64, String, Result<Vec<Entry>, String>),
    Done(String),
    Failed(String),
    Info(AsyncRequest, Result<FileInfo, String>, Option<String>),
    ParentLs(AsyncRequest, Result<Vec<Entry>, String>),
    PreviewLs(AsyncRequest, Result<Vec<Entry>, String>),
    PreviewInfo(AsyncRequest, Result<FileInfo, String>),
    /// Name, contents, size and whether the contents were cut short.
    PreviewText(AsyncRequest, Result<(String, String, u64, bool), String>),
    PreviewThumbnail(AsyncRequest, Result<ImageHandle, String>),
    OfflineTasks(AsyncRequest, Result<Vec<OfflineTask>, String>),
    PlayInfo(AsyncRequest, Result<FileInfo, String>),
    PlayPickerInfo(AsyncRequest, Result<(FileInfo, Vec<PlayOption>), String>),
    TrashList(Result<Vec<Entry>, String>),
    TrashOp(String),
    OfflineOp(String),
    InfoThumbnail(AsyncRequest, Result<ImageHandle, String>),
    /// The folder of a path, and the way to it.
    GotoPath(AsyncRequest, Result<(String, Vec<(String, String)>), String>),
    /// What is used and what is allowed, as the drive wrote them; absent when it told neither.
    Quota(Result<Option<(Option<String>, Option<String>)>, String>),
    Upload(Result<String, String>),
    ShareCreated { title: String, url: String, pass_code: String },
    MyShares(Result<Vec<MyShare>, String>),
    UpdateAvailable(Option<String>),
    /// A listing of a destination picker, with the request and the folder that it answers.
    PickerLs(u64, String, Result<Vec<Entry>, String>),
    /// The completion of the path `value` typed in a folder, absent when nothing matched.
    PathCandidates {
        request_id: u64,
        value: String,
        folder_context: String,
        completion: Option<PathCompletion>,
    },
    LoginDone { email: String, password: String, result: Result<(), String> },
}

/// What the drive answered to a change.
#[derive(Debug)]
pub enum RemoteReply {
    Done,
    /// The name of what was made or uploaded, where it has one.
    Named(Option<String>),
    /// How many files were uploaded and how many failed.
    Counted(u64, u64),
    /// How many items were saved. A share without files is not saved at all.
    Saved(u64),
    Uploaded { name: String, instant: bool },
    Shared { url: String, pass_code: String },
    Shares(Result<Vec<MyShare>, String>),
    /// The link of a file.
    Link(String),
    /// The link was found and copied.
    LinkCopied,
    /// The link was found, but could not be copied.
    LinkNotCopied(String),
}

/// The link that is to be copied before the answer to a change can be told.
pub open spec fn copied_link(op: RemoteOpView, reply: RemoteReply) -> Option<Chars> {
    match (op, reply) {
        (RemoteOpView::CopyLink { .. }, RemoteReply::Link(url)) => Some(url@),
        _ => None,
    }
}

/// Finds the link that is to be copied before the answer to a change can be told.
pub fn link_to_copy(op: &RemoteOp, reply: &RemoteReply) -> (r: Option<String>)
    ensures
        opt_text(r) == copied_link(op@, *reply),
{
    match (op, reply) {
        (RemoteOp::CopyLink { id: _, name: _ }, RemoteReply::Link(url)) => Some(url.clone()),
        _ => None,
    }
}

/// The answer that an attempt to copy a link stands for.
pub fn link_tried(result: Result<(), String>) -> (r: RemoteReply)
    ensures
        match result {
            Ok(_) => r == RemoteReply::LinkCopied,
            Err(e) => r == RemoteReply::LinkNotCopied(e),
        },
{
    match result {
        Ok(_) => RemoteReply::LinkCopied,
        Err(e) => RemoteReply::LinkNotCopied(e),
    }
}

/// What is wrong with an answer that does not stand for a success.
pub open spec fn refusal(op: RemoteOpView, reply: RemoteReply) -> Option<Chars> {
    match op {
        RemoteOpView::SaveShare { .. } => match reply {
            RemoteReply::Saved(n) => if n == 0 {
                Some("share contains no files"@)
            } else {
                None
            },
            _ => Some("share contains no files"@),
        },
        RemoteOpView::CopyLink { .. } => match reply {
            RemoteReply::LinkCopied => None,
            _ => Some("no link"@),
        },
        _ => None,
    }
}

fn find_refusal(op: &RemoteOp, reply: &RemoteReply) -> (r: Option<&'static str>)
    ensures
        match r {
            Some(e) => refusal(op@, *reply) == Some(e@),
            None => refusal(op@, *reply) is None,
        },
{
    match op {
        RemoteOp::SaveShare { share_id: _, to_parent_id: _ } => match reply {
            RemoteReply::Saved(n) => if *n == 0 {
                Some("share contains no files")
            } else {
                None
            },
            _ => Some("share contains no files"),
        },
        RemoteOp::CopyLink { id: _, name: _ } => match reply {
            RemoteReply::LinkCopied => None,
            _ => Some("no link"),
        },
        _ => None,
    }
}

pub open spec fn op_word(is_move: bool) -> Chars {
    if is_move {
        "Move"@
    } else {
        "Copy"@
    }
}

pub fn op_name(is_move: bool) -> (r: &'static str)
    ensures
        r@ == op_word(is_move),
{
    if is_move {
        "Move"
    } else {
        "Copy"
    }
}

pub open spec fn star_word(starred: bool) -> Chars {
    if starred {
        "Unstarred"@
    } else {
        "Starred"@
    }
}

/// A text in single quotes between two others.
pub open spec fn quoted(before: Chars, name: Chars, after: Chars) -> Chars {
    before + "'"@ + name + "'"@ + after
}

fn quote(before: &str, name: &str, after: &str) -> (r: String)
    ensures
        r@ == quoted(before@, name@, after@),
{
    cat5(before, "'", name, "'", after)
}

/// The name in an answer, or `other` where the answer has none.
pub open spec fn reply_name(reply: RemoteReply, other: Chars) -> Chars {
    match reply {
        RemoteReply::Named(Some(name)) => name@,
        _ => other,
    }
}

fn name_of(reply: RemoteReply, other: &str) -> (r: String)
    ensures
        r@ == reply_name(reply, other@),
{
    match reply {
        RemoteReply::Named(Some(name)) => name,
        _ => owned(other),
    }
}

/// The message about a change that went well.
pub open spec fn success_text(op: RemoteOpView, reply: RemoteReply) -> Chars {
    match op {
        RemoteOpView::MoveCopy { source_name, dest_path, is_move, .. } => quoted(
            quoted(op_word(is_move) + "d "@, source_name, " -> "@),
            dest_path,
            ""@,
        ),
        RemoteOpView::CartMoveCopy { ids, dest_path, is_move, .. } => quoted(
            op_word(is_move) + "d "@ + decimal(ids.len()) + " item(s) -> "@,
            dest_path,
            ""@,
        ),
        RemoteOpView::Rename { old_name, new_name, .. } => quoted(
            quoted("Renamed "@, old_name, " -> "@),
            new_name,
            ""@,
        ),
        RemoteOpView::Mkdir { name, .. } => quoted(
            "Created folder "@,
            reply_name(reply, name),
            ""@,
        ),
        RemoteOpView::Star { name, starred, .. } => quoted(star_word(starred) + " "@, name, ""@),
        RemoteOpView::Trash { name, .. } => quoted("Removed "@, name, " (to trash)"@),
        RemoteOpView::Delete { name, .. } => quoted("Permanently deleted "@, name, ""@),
        RemoteOpView::TrashCart { ids } => "Trashed "@ + decimal(ids.len()) + " item(s)"@,
        RemoteOpView::Untrash { name, .. } => quoted("Restored "@, name, ""@),
        RemoteOpView::DeleteTrashed { name, .. } => quoted("Permanently deleted "@, name, ""@),
        RemoteOpView::RetryTask { name, .. } => "Retrying task: "@ + name,
        RemoteOpView::DeleteTask { name, .. } => "Deleted task: "@ + name,
        RemoteOpView::OfflineDownload { .. } => "Offline task created: "@ + reply_name(
            reply,
            "unknown"@,
        ),
        RemoteOpView::SaveShare { .. } => "Saved "@ + decimal(
            match reply {
                RemoteReply::Saved(n) => n as nat,
                _ => 0,
            },
        ) + " item(s) to your drive"@,
        RemoteOpView::CreateShare { title, .. } => title,
        RemoteOpView::DeleteShare { share_id } => share_id,
        RemoteOpView::CopyLink { name, .. } => quoted("Copied link: "@, name, ""@),
        RemoteOpView::UploadDir { name, .. } => match reply {
            RemoteReply::Counted(ok, failed) => if failed == 0 {
                quoted("Uploaded folder "@, name, " ("@) + decimal(ok as nat) + " files)"@
            } else {
                quoted("Uploaded folder "@, name, " ("@) + decimal(ok as nat) + " ok, "@ + decimal(
                    failed as nat,
                ) + " failed)"@
            },
            _ => quoted("Uploaded folder "@, name, ""@),
        },
        RemoteOpView::UploadFile { path, .. } => match reply {
            RemoteReply::Uploaded { name, instant } => quoted(
                "Uploaded "@,
                name@,
                if instant { " (instant, dedup)"@ } else { ""@ },
            ),
            _ => quoted("Uploaded "@, path, ""@),
        },
    }
}

/// The message about a change that failed with an error.
pub open spec fn failure_text(op: RemoteOpView, error: Chars) -> Chars {
    match op {
        RemoteOpView::MoveCopy { is_move, .. } => op_word(is_move) + " failed: "@ + error,
        RemoteOpView::CartMoveCopy { is_move, .. } => op_word(is_move) + " failed: "@ + error,
        RemoteOpView::Rename { .. } => "Rename failed: "@ + error,
        RemoteOpView::Mkdir { .. } => "Mkdir failed: "@ + error,
        RemoteOpView::Star { starred, .. } => star_word(starred) + " failed: "@ + error,
        RemoteOpView::Trash { .. } => "Remove failed: "@ + error,
        RemoteOpView::Delete { .. } => "Permanent delete failed: "@ + error,
        RemoteOpView::TrashCart { .. } => "Trash failed: "@ + error,
        RemoteOpView::Untrash { .. } => "Untrash failed: "@ + error,
        RemoteOpView::DeleteTrashed { .. } => "Permanent delete failed: "@ + error,
        RemoteOpView::RetryTask { .. } => "Retry failed: "@ + error,
        RemoteOpView::DeleteTask { .. } => "Delete task failed: "@ + error,
        RemoteOpView::OfflineDownload { .. } => "Offline download failed: "@ + error,
        RemoteOpView::SaveShare { .. } => "Save share failed: "@ + error,
        RemoteOpView::CreateShare { title, .. } => quoted("Share failed for "@, title, ": "@)
            + error,
        RemoteOpView::DeleteShare { .. } => "Delete failed: "@ + error,
        RemoteOpView::CopyLink { .. } => "Link failed: "@ + error,
        RemoteOpView::UploadDir { .. } => error,
        RemoteOpView::UploadFile { .. } => error,
    }
}

fn success_message(op: &RemoteOp, reply: RemoteReply) -> (r: String)
    ensures
        r@ == success_text(op@, reply),
{
    match op {
        RemoteOp::MoveCopy { source_id: _, source_name, dest_id: _, dest_path, is_move } => {
            let head: String = cat2(op_name(*is_move), "d ");
            let from: String = quote(head.as_str(), source_name.as_str(), " -> ");
            quote(from.as_str(), dest_path.as_str(), "")
        },
        RemoteOp::CartMoveCopy { ids, dest_id: _, dest_path, is_move } => {
            let head: String = cat4(
                op_name(*is_move),
                "d ",
                dec(ids.len() as u64).as_str(),
                " item(s) -> ",
            );
            quote(head.as_str(), dest_path.as_str(), "")
        },
        RemoteOp::Rename { id: _, old_name, new_name } => {
            let from: String = quote("Renamed ", old_name.as_str(), " -> ");
            quote(from.as_str(), new_name.as_str(), "")
        },
        RemoteOp::Mkdir { parent_id: _, name } => {
            let made: String = name_of(reply, name.as_str());
            quote("Created folder ", made.as_str(), "")
        },
        RemoteOp::Star { id: _, name, starred } => {
            let word: &str = if *starred { "Unstarred" } else { "Starred" };
            quote(cat2(word, " ").as_str(), name.as_str(), "")
        },
        RemoteOp::Trash { id: _, name } => quote("Removed ", name.as_str(), " (to trash)"),
        RemoteOp::Delete { id: _, name } => quote("Permanently deleted ", name.as_str(), ""),
        RemoteOp::TrashCart { ids } => cat3(
            "Trashed ",
            dec(ids.len() as u64).as_str(),
            " item(s)",
        ),
        RemoteOp::Untrash { id: _, name } => quote("Restored ", name.as_str(), ""),
        RemoteOp::DeleteTrashed { id: _, name } => quote(
            "Permanently deleted ",
            name.as_str(),
            "",
        ),
        RemoteOp::RetryTask { id: _, name } => cat2("Retrying task: ", name.as_str()),
        RemoteOp::DeleteTask { id: _, name } => cat2("Deleted task: ", name.as_str()),
        RemoteOp::OfflineDownload { url: _, parent_id: _ } => {
            let name: String = name_of(reply, "unknown");
            cat2("Offline task created: ", name.as_str())
        },
        RemoteOp::SaveShare { share_id: _, to_parent_id: _ } => {
            let n: u64 = match reply {
                RemoteReply::Saved(n) => n,
                _ => 0,
            };
            cat3("Saved ", dec(n).as_str(), " item(s) to your drive")
        },
        RemoteOp::CreateShare { file_id: _, title, need_password: _ } => owned(title.as_str()),
        RemoteOp::DeleteShare { share_id } => owned(share_id.as_str()),
        RemoteOp::CopyLink { id: _, name } => quote("Copied link: ", name.as_str(), ""),
        RemoteOp::UploadDir { folder_id: _, path: _, name } => {
            match reply {
                RemoteReply::Counted(ok, failed) => {
                    let head: String = quote("Uploaded folder ", name.as_str(), " (");
                    if failed == 0 {
                        cat3(head.as_str(), dec(ok).as_str(), " files)")
                    } else {
                        cat5(
                            head.as_str(),
                            dec(ok).as_str(),
                            " ok, ",
                            dec(failed).as_str(),
                            " failed)",
                        )
                    }
                },
                _ => quote("Uploaded folder ", name.as_str(), ""),
            }
        },
        RemoteOp::UploadFile { folder_id: _, path } => {
            match reply {
                RemoteReply::Uploaded { name, instant } => quote(
                    "Uploaded ",
                    name.as_str(),
                    if instant { " (instant, dedup)" } else { "" },
                ),
                _ => quote("Uploaded ", path.as_str(), ""),
            }
        },
    }
}

fn failure_message(op: &RemoteOp, error: &str) -> (r: String)
    ensures
        r@ == failure_text(op@, error@),
{
    match op {
        RemoteOp::MoveCopy { source_id: _, source_name: _, dest_id: _, dest_path: _, is_move } =>
            cat3(op_name(*is_move), " failed: ", error),
        RemoteOp::CartMoveCopy { ids: _, dest_id: _, dest_path: _, is_move } => cat3(
            op_name(*is_move),
            " failed: ",
            error,
        ),
        RemoteOp::Rename { id: _, old_name: _, new_name: _ } => cat2("Rename failed: ", error),
        RemoteOp::Mkdir { parent_id: _, name: _ } => cat2("Mkdir failed: ", error),
        RemoteOp::Star { id: _, name: _, starred } => {
            let word: &str = if *starred { "Unstarred" } else { "Starred" };
            cat3(word, " failed: ", error)
        },
        RemoteOp::Trash { id: _, name: _ } => cat2("Remove failed: ", error),
        RemoteOp::Delete { id: _, name: _ } => cat2("Permanent delete failed: ", error),
        RemoteOp::TrashCart { ids: _ } => cat2("Trash failed: ", error),
        RemoteOp::Untrash { id: _, name: _ } => cat2("Untrash failed: ", error),
        RemoteOp::DeleteTrashed { id: _, name: _ } => cat2("Permanent delete failed: ", error),
        RemoteOp::RetryTask { id: _, name: _ } => cat2("Retry failed: ", error),
        RemoteOp::DeleteTask { id: _, name: _ } => cat2("Delete task failed: ", error),
        RemoteOp::OfflineDownload { url: _, parent_id: _ } => cat2(
            "Offline download failed: ",
            error,
        ),
        RemoteOp::SaveShare { share_id: _, to_parent_id: _ } => cat2("Save share failed: ", error),
        RemoteOp::CreateShare { file_id: _, title, need_password: _ } => {
            let head: String = quote("Share failed for ", title.as_str(), ": ");
            cat2(head.as_str(), error)
        },
        RemoteOp::DeleteShare { share_id: _ } => cat2("Delete failed: ", error),
        RemoteOp::CopyLink { id: _, name: _ } => cat2("Link failed: ", error),
        RemoteOp::UploadDir { folder_id: _, path: _, name: _ } => owned(error),
        RemoteOp::UploadFile { folder_id: _, path: _ } => owned(error),
    }
}

/// Whether `r` reports the outcome of a change with the text `text`, in the way that fits the
/// view from which the change was asked for.
pub open spec fn reports(op: RemoteOpView, worked: bool, text: Chars, r: OpResult) -> bool {
    match op {
        RemoteOpView::Untrash { .. } => r matches OpResult::TrashOp(m) && m@ == text,
        RemoteOpView::DeleteTrashed { .. } => r matches OpResult::TrashOp(m) && m@ == text,
        RemoteOpView::RetryTask { .. } => r matches OpResult::OfflineOp(m) && m@ == text,
        RemoteOpView::DeleteTask { .. } => r matches OpResult::OfflineOp(m) && m@ == text,
        RemoteOpView::UploadDir { .. } => if worked {
            r matches OpResult::Upload(Ok(m)) && m@ == text
        } else {
            r matches OpResult::Upload(Err(m)) && m@ == text
        },
        RemoteOpView::UploadFile { .. } => if worked {
            r matches OpResult::Upload(Ok(m)) && m@ == text
        } else {
            r matches OpResult::Upload(Err(m)) && m@ == text
        },
        _ => if worked {
            r matches OpResult::Done(m) && m@ == text
        } else {
            r matches OpResult::Failed(m) && m@ == text
        },
    }
}

fn report_failure(op: &RemoteOp, error: &str) -> (r: OpResult)
    ensures
        reports(op@, false, failure_text(op@, error@), r),
{
    let text: String = failure_message(op, error);
    match op {
        RemoteOp::Untrash { id: _, name: _ } => OpResult::TrashOp(text),
        RemoteOp::DeleteTrashed { id: _, name: _ } => OpResult::TrashOp(text),
        RemoteOp::RetryTask { id: _, name: _ } => OpResult::OfflineOp(text),
        RemoteOp::DeleteTask { id: _, name: _ } => OpResult::OfflineOp(text),
        RemoteOp::UploadDir { folder_id: _, path: _, name: _ } => OpResult::Upload(Err(text)),
        RemoteOp::UploadFile { folder_id: _, path: _ } => OpResult::Upload(Err(text)),
        _ => OpResult::Failed(text),
    }
}

fn report_success(op: &RemoteOp, reply: RemoteReply) -> (r: OpResult)
    ensures
        reports(op@, true, success_text(op@, reply), r),
{
    let text: String = success_message(op, reply);
    match op {
        RemoteOp::Untrash { id: _, name: _ } => OpResult::TrashOp(text),
        RemoteOp::DeleteTrashed { id: _, name: _ } => OpResult::TrashOp(text),
        RemoteOp::RetryTask { id: _, name: _ } => OpResult::OfflineOp(text),
        RemoteOp::DeleteTask { id: _, name: _ } => OpResult::OfflineOp(text),
        RemoteOp::UploadDir { folder_id: _, path: _, name: _ } => OpResult::Upload(Ok(text)),
        RemoteOp::UploadFile { folder_id: _, path: _ } => OpResult::Upload(Ok(text)),
        _ => OpResult::Done(text),
    }
}

/// Whether `r` is the result that the answer of the drive to a change stands for.
pub open spec fn is_outcome(
    op: RemoteOpView,
    reply: Result<RemoteReply, String>,
    r: OpResult,
) -> bool {
    match reply {
        Err(e) => reports(op, false, failure_text(op, e@), r),
        Ok(reply) => match (op, reply) {
            (
                RemoteOpView::CreateShare { title, .. },
                RemoteReply::Shared { url, pass_code },
            ) => r matches OpResult::ShareCreated { title: t, url: u, pass_code: p } && t@ == title
                && u == url && p == pass_code,
            (RemoteOpView::DeleteShare { .. }, RemoteReply::Shares(shares)) => r
                == OpResult::MyShares(shares),
            (RemoteOpView::CopyLink { .. }, RemoteReply::LinkNotCopied(e)) => r matches
                OpResult::Failed(m) && m@ == "Clipboard failed: "@ + e@,
            (_, reply) => match refusal(op, reply) {
                Some(e) => reports(op, false, failure_text(op, e), r),
                None => reports(op, true, success_text(op, reply), r),
            },
        },
    }
}

/// The result that the answer of the drive to a change stands for.
pub fn remote_outcome(op: &RemoteOp, reply: Result<RemoteReply, String>) -> (r: OpResult)
    ensures
        is_outcome(op@, reply, r),
{
    match reply {
        Err(e) => report_failure(op, e.as_str()),
        Ok(reply) => {
            match (op, reply) {
                (
                    RemoteOp::CreateShare { file_id: _, title, need_password: _ },
                    RemoteReply::Shared { url, pass_code },
                ) => OpResult::ShareCreated { title: owned(title.as_str()), url, pass_code },
                (
                    RemoteOp::DeleteShare { share_id: _ },
                    RemoteReply::Shares(shares),
                ) => OpResult::MyShares(shares),
                (
                    RemoteOp::CopyLink { id: _, name: _ },
                    RemoteReply::LinkNotCopied(e),
                ) => OpResult::Failed(cat2("Clipboard failed: ", e.as_str())),
                (_, reply) => match find_refusal(op, &reply) {
                    Some(e) => report_failure(op, e),
                    None => report_success(op, reply),
                },
            }
        },
    }
}

} // verus!
