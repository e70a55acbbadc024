//! The state of the interface and the requests it makes.

use crate::effect::{effects_view, Effect, EffectView, SavePurpose};
use crate::geometry::{min_int, ScreenState};
use crate::model::{
    clone_entries, opt_request, opt_status, AsyncRequest, AsyncRequestKind, ConfigView,
    DownloadTask, Entry, EntryKind, InputMode, ModeView, PickerState, PreviewState, PreviewView,
    RequestView, SettingOptions, StatusKind, StatusMessage, StatusView, TuiConfig,
};
use crate::text::{
    cat2, cat4, contains, joined, lower, matches_at, occurs, opt_eq, opt_text, owned, stands_at,
    text_pairs, texts, to_lower, Chars,
};
use vstd::prelude::*;

verus! {

/// The moments, in milliseconds, that the interface goes by.
#[derive(Clone, Copy, Debug, PartialEq, Eq, Structural)]
pub struct Clock {
    pub now: u64,
    pub last_blink: u64,
    pub last_spinner: u64,
    pub last_cursor_move: u64,
    pub last_click_time: u64,
}

/// The state of the interface.
#[derive(Debug)]
pub struct App {
    pub config: TuiConfig,
    pub options: SettingOptions,
    /// The version of the program.
    pub version: String,
    pub current_folder_id: String,
    pub main_listing_request_id: u64,
    pub async_request_generation: u64,
    pub modal_request: Option<AsyncRequest>,
    pub preview_request: Option<AsyncRequest>,
    pub parent_listing_request: Option<AsyncRequest>,
    pub path_completion_in_flight: Option<u64>,
    /// The folders on the way to the current one: the id of each and the name of the next.
    pub breadcrumb: Vec<(String, String)>,
    pub entries: Vec<Entry>,
    pub selected: usize,
    pub logs: Vec<String>,
    pub status_message: Option<StatusMessage>,
    pub input: InputMode,
    pub cursor_visible: bool,
    /// UTF-8 byte offset in the active text field. `usize::MAX` means the end.
    pub text_cursor: usize,
    pub loading: bool,
    pub spinner_idx: usize,
    pub show_help_sheet: bool,
    pub help_scroll: usize,
    pub parent_entries: Vec<Entry>,
    pub parent_selected: usize,
    pub preview_state: PreviewState,
    pub preview_target_id: Option<String>,
    pub preview_target_name: Option<String>,
    pub show_logs_overlay: bool,
    pub pending_preview_fetch: bool,
    pub cart: Vec<Entry>,
    pub cart_selected: usize,
    pub downloads: Vec<DownloadTask>,
    pub downloads_selected: usize,
    /// Whether a download is under way.
    pub downloads_active: bool,
    pub downloads_expanded: bool,
    pub last_click_pos: (u16, u16),
    pub preview_scroll: usize,
    /// `None` follows the newest message; `Some(y)` stays at that line.
    pub logs_scroll: Option<usize>,
    pub trash_entries: Vec<Entry>,
    pub trash_selected: usize,
    pub trash_expanded: bool,
    pub loading_label: Option<String>,
    pub quota_used: Option<u64>,
    pub quota_limit: Option<u64>,
    pub shares_pending: bool,
    pub update_available: Option<String>,
    pub clock: Clock,
    pub screen: ScreenState,
    /// Work for the host, oldest first.
    pub effects: Vec<Effect>,
}

/// The state of the interface as the specifications see it.
pub struct AppView {
    pub config: ConfigView,
    pub options: SettingOptions,
    pub version: Chars,
    pub current_folder_id: Chars,
    pub main_listing_request_id: u64,
    pub async_request_generation: u64,
    pub modal_request: Option<RequestView>,
    pub preview_request: Option<RequestView>,
    pub parent_listing_request: Option<RequestView>,
    pub path_completion_in_flight: Option<u64>,
    pub breadcrumb: Seq<(Chars, Chars)>,
    pub entries: Seq<Entry>,
    pub selected: usize,
    pub logs: Seq<Chars>,
    pub status_message: Option<StatusView>,
    pub input: ModeView,
    pub cursor_visible: bool,
    pub text_cursor: usize,
    pub loading: bool,
    pub spinner_idx: usize,
    pub show_help_sheet: bool,
    pub help_scroll: usize,
    pub parent_entries: Seq<Entry>,
    pub parent_selected: usize,
    pub preview_state: PreviewView,
    pub preview_target_id: Option<Chars>,
    pub preview_target_name: Option<Chars>,
    pub show_logs_overlay: bool,
    pub pending_preview_fetch: bool,
    pub cart: Seq<Entry>,
    pub cart_selected: usize,
    pub downloads: Seq<DownloadTask>,
    pub downloads_selected: usize,
    pub downloads_active: bool,
    pub downloads_expanded: bool,
    pub last_click_pos: (u16, u16),
    pub preview_scroll: usize,
    pub logs_scroll: Option<usize>,
    pub trash_entries: Seq<Entry>,
    pub trash_selected: usize,
    pub trash_expanded: bool,
    pub loading_label: Option<Chars>,
    pub quota_used: Option<u64>,
    pub quota_limit: Option<u64>,
    pub shares_pending: bool,
    pub update_available: Option<Chars>,
    pub clock: Clock,
    pub screen: ScreenState,
    pub effects: Seq<EffectView>,
}

impl View for App {
    type V = AppView;

    open spec fn view(&self) -> AppView {
        AppView {
            config: self.config@,
            options: self.options,
            version: self.version@,
            current_folder_id: self.current_folder_id@,
            main_listing_request_id: self.main_listing_request_id,
            async_request_generation: self.async_request_generation,
            modal_request: opt_request(self.modal_request),
            preview_request: opt_request(self.preview_request),
            parent_listing_request: opt_request(self.parent_listing_request),
            path_completion_in_flight: self.path_completion_in_flight,
            breadcrumb: text_pairs(self.breadcrumb@),
            entries: self.entries@,
            selected: self.selected,
            logs: texts(self.logs@),
            status_message: opt_status(self.status_message),
            input: self.input@,
            cursor_visible: self.cursor_visible,
            text_cursor: self.text_cursor,
            loading: self.loading,
            spinner_idx: self.spinner_idx,
            show_help_sheet: self.show_help_sheet,
            help_scroll: self.help_scroll,
            parent_entries: self.parent_entries@,
            parent_selected: self.parent_selected,
            preview_state: self.preview_state@,
            preview_target_id: opt_text(self.preview_target_id),
            preview_target_name: opt_text(self.preview_target_name),
            show_logs_overlay: self.show_logs_overlay,
            pending_preview_fetch: self.pending_preview_fetch,
            cart: self.cart@,
            cart_selected: self.cart_selected,
            downloads: self.downloads@,
            downloads_selected: self.downloads_selected,
            downloads_active: self.downloads_active,
            downloads_expanded: self.downloads_expanded,
            last_click_pos: self.last_click_pos,
            preview_scroll: self.preview_scroll,
            logs_scroll: self.logs_scroll,
            trash_entries: self.trash_entries@,
            trash_selected: self.trash_selected,
            trash_expanded: self.trash_expanded,
            loading_label: opt_text(self.loading_label),
            quota_used: self.quota_used,
            quota_limit: self.quota_limit,
            shares_pending: self.shares_pending,
            update_available: opt_text(self.update_available),
            clock: self.clock,
            screen: self.screen,
            effects: effects_view(self.effects@),
        }
    }
}

/// The most messages that are kept.
pub const MAX_LOGS: usize = 500;

/// How long a message stays at the bottom, in milliseconds.
pub const STATUS_MILLIS: u64 = 4000;

/// Whether a message tells of an error.
pub open spec fn tells_error(low: Chars) -> bool {
    occurs(low, "failed"@) || occurs(low, "error"@) || occurs(low, "invalid"@) || occurs(
        low,
        "not found"@,
    ) || occurs(low, "cannot"@) || occurs(low, "unavailable"@)
}

/// Whether a message is a warning.
pub open spec fn tells_warning(low: Chars) -> bool {
    occurs(low, "cancelled"@) || stands_at(low, "no "@, 0) || occurs(low, "warning"@)
}

/// How serious a message is, by its words.
#[verifier::opaque]
pub open spec fn status_kind(msg: Chars) -> StatusKind {
    let low = lower(msg);
    if tells_error(low) {
        StatusKind::Error
    } else if tells_warning(low) {
        StatusKind::Warning
    } else {
        StatusKind::Info
    }
}

fn message_kind(msg: &str) -> (r: StatusKind)
    ensures
        r == status_kind(msg@),
{
    reveal(status_kind);
    let low: Vec<char> = to_lower(msg);
    if contains(&low, "failed") || contains(&low, "error") || contains(&low, "invalid")
        || contains(&low, "not found") || contains(&low, "cannot") || contains(
        &low,
        "unavailable",
    ) {
        return StatusKind::Error;
    }
    let no: Vec<char> = crate::text::chars_of("no ");
    if contains(&low, "cancelled") || matches_at(&low, &no, 0) || contains(&low, "warning") {
        StatusKind::Warning
    } else {
        StatusKind::Info
    }
}

/// The names of a breadcrumb.
pub open spec fn crumb_names(crumbs: Seq<(Chars, Chars)>) -> Seq<Chars> {
    Seq::new(crumbs.len(), |i: int| crumbs[i].1)
}

/// The path that a breadcrumb leads to.
pub open spec fn path_text(crumbs: Seq<(Chars, Chars)>) -> Chars {
    if crumbs.len() == 0 {
        "/"@
    } else {
        "/"@ + joined(crumb_names(crumbs), "/"@)
    }
}

/// The path of the first `n` folders of a breadcrumb.
pub(crate) fn path_upto(crumbs: &Vec<(String, String)>, n: usize) -> (r: String)
    requires
        n <= crumbs@.len(),
    ensures
        r@ == path_text(text_pairs(crumbs@).take(n as int)),
{
    if n == 0 {
        return owned("/");
    }
    let ghost names = crumb_names(text_pairs(crumbs@).take(n as int));
    let mut out: String = owned(crumbs[0].1.as_str());
    let mut i: usize = 1;
    assert(names.take(1).len() == 1);
    while i < n
        invariant
            1 <= i <= n <= crumbs@.len(),
            names == crumb_names(text_pairs(crumbs@).take(n as int)),
            out@ == joined(names.take(i as int), "/"@),
        decreases n - i,
    {
        out.push_str("/");
        out.push_str(crumbs[i].1.as_str());
        assert(names.take(i + 1).drop_last() =~= names.take(i as int));
        i += 1;
    }
    assert(names.take(names.len() as int) =~= names);
    cat2("/", out.as_str())
}

fn path_display(crumbs: &Vec<(String, String)>) -> (r: String)
    ensures
        r@ == path_text(text_pairs(crumbs@)),
{
    assert(text_pairs(crumbs@).take(crumbs@.len() as int) =~= text_pairs(crumbs@));
    path_upto(crumbs, crumbs.len())
}

/// The entry that is selected, where there is one.
pub open spec fn entry_at(entries: Seq<Entry>, i: usize) -> Option<Entry> {
    if i < entries.len() {
        Some(entries[i as int])
    } else {
        None
    }
}

/// The requests whose replies are awaited while the main pane stays in use.
pub open spec fn owns_loading(request: Option<RequestView>) -> bool {
    match request {
        Some(r) => r.kind == AsyncRequestKind::Play || r.kind == AsyncRequestKind::PlayPicker
            || r.kind == AsyncRequestKind::GotoPath,
        None => false,
    }
}

/// The messages that are kept of a log.
pub open spec fn newest(logs: Seq<Chars>) -> Seq<Chars> {
    if logs.len() > MAX_LOGS {
        logs.skip(1)
    } else {
        logs
    }
}

fn drop_oldest(logs: &mut Vec<String>)
    ensures
        texts(final(logs)@) == newest(texts(old(logs)@)),
{
    if logs.len() > MAX_LOGS {
        logs.remove(0);
        assert(texts(logs@) =~= texts(old(logs)@).skip(1));
    }
}

/// The last index of a list that an index may stand for.
pub open spec fn clamped(i: usize, len: nat) -> usize {
    if i < len {
        i
    } else if len == 0 {
        0
    } else {
        (len - 1) as usize
    }
}

pub(crate) fn clamp_index(i: usize, len: usize) -> (r: usize)
    ensures
        r == clamped(i, len as nat),
{
    if i < len {
        i
    } else {
        len.saturating_sub(1)
    }
}

/// What is asked for to preview a file.
pub open spec fn file_preview_work(e: Entry, request: RequestView, max_bytes: u64) -> EffectView {
    match e.thumbnail_link {
        Some(url) if url@.len() > 0 => EffectView::FetchThumbnail {
            request,
            url: url@,
            for_info: false,
        },
        _ => if e.text_previewable {
            EffectView::FetchText { request, max_bytes }
        } else {
            EffectView::FetchPreviewInfo { request }
        },
    }
}

fn file_preview_effect(e: Entry, request: AsyncRequest, max_bytes: u64) -> (r: Effect)
    ensures
        r@ == file_preview_work(e, request@, max_bytes),
{
    if let Some(url) = e.thumbnail_link {
        if !url.as_str().is_empty() {
            return Effect::FetchThumbnail { request, url, for_info: false };
        }
    }
    if e.text_previewable {
        Effect::FetchText { request, max_bytes }
    } else {
        Effect::FetchPreviewInfo { request }
    }
}

/// The sign for the direction of the sorting.
pub open spec fn sort_arrow(reverse: bool) -> Chars {
    if reverse {
        "\u{2193}"@
    } else {
        "\u{2191}"@
    }
}

fn sort_sign(reverse: bool) -> (r: &'static str)
    ensures
        r@ == sort_arrow(reverse),
{
    if reverse {
        "\u{2193}"
    } else {
        "\u{2191}"
    }
}

impl AppView {
    pub open spec fn in_mode(self, input: ModeView) -> AppView {
        AppView { input, ..self }
    }

    pub open spec fn asking(self, e: EffectView) -> AppView {
        AppView { effects: self.effects.push(e), ..self }
    }

    pub open spec fn finished_loading(self) -> AppView {
        AppView { loading: false, loading_label: None, ..self }
    }

    /// Loading under a label.
    pub open spec fn loading_as(self, label: Chars) -> AppView {
        AppView { loading: true, loading_label: Some(label), ..self }
    }

    /// With a message added to the log and shown at the bottom.
    pub open spec fn logged(self, msg: Chars) -> AppView {
        AppView {
            status_message: Some(
                StatusView {
                    text: msg,
                    kind: status_kind(msg),
                    expires_at: min_int(self.clock.now + STATUS_MILLIS, u64::MAX as int) as u64,
                },
            ),
            logs: newest(self.logs.push(msg)),
            ..self
        }
    }

    /// With several messages added to the log, each after two blanks.
    pub open spec fn logged_names(self, items: Seq<Entry>) -> AppView
        decreases items.len(),
    {
        if items.len() == 0 {
            self
        } else {
            self.logged_names(items.drop_last()).logged("  "@ + items.last().name@)
        }
    }

    /// With several messages added to the log.
    pub open spec fn logged_all(self, msgs: Seq<Chars>) -> AppView
        decreases msgs.len(),
    {
        if msgs.len() == 0 {
            self
        } else {
            self.logged_all(msgs.drop_last()).logged(msgs.last())
        }
    }

    pub open spec fn main_invalidated(self) -> AppView {
        AppView {
            main_listing_request_id: self.main_listing_request_id.wrapping_add(1),
            ..self
        }
    }

    pub open spec fn main_requested(self, folder_id: Chars) -> AppView {
        let a = self.main_invalidated();
        a.asking(
            EffectView::ListFolder { request_id: a.main_listing_request_id, folder_id },
        )
    }

    pub open spec fn next_id(self) -> u64 {
        self.async_request_generation.wrapping_add(1)
    }

    pub open spec fn with_next_id(self) -> AppView {
        AppView { async_request_generation: self.next_id(), ..self }
    }

    /// The request that is made next.
    pub open spec fn request_of(self, kind: AsyncRequestKind, target: Chars) -> RequestView {
        RequestView { id: self.next_id(), kind, target }
    }

    pub open spec fn modal_begun(self, kind: AsyncRequestKind, target: Chars) -> AppView {
        AppView {
            modal_request: Some(self.request_of(kind, target)),
            ..self.with_next_id()
        }
    }

    pub open spec fn preview_begun(self, kind: AsyncRequestKind, target: Chars) -> AppView {
        AppView {
            preview_request: Some(self.request_of(kind, target)),
            ..self.with_next_id()
        }
    }

    pub open spec fn parent_refreshed(self) -> AppView {
        let below = self.breadcrumb.len() > 0;
        let request = self.request_of(AsyncRequestKind::ParentListing, self.breadcrumb.last().0);
        AppView {
            parent_listing_request: if below {
                Some(request)
            } else {
                None
            },
            async_request_generation: if below {
                self.next_id()
            } else {
                self.async_request_generation
            },
            effects: if below {
                self.effects.push(EffectView::ListParent { request })
            } else {
                self.effects
            },
            parent_entries: if below {
                self.parent_entries
            } else {
                Seq::empty()
            },
            parent_selected: if below {
                self.parent_selected
            } else {
                0
            },
            ..self
        }
    }

    pub open spec fn refreshed(self) -> AppView {
        let a = AppView { loading: true, ..self };
        a.main_requested(self.current_folder_id).parent_refreshed().asking(EffectView::FetchQuota)
    }

    /// Without a pending interactive request, and without the loading sign that it had put up.
    pub open spec fn modal_invalidated(self) -> AppView {
        let owned = owns_loading(self.modal_request);
        AppView {
            modal_request: None,
            loading: self.loading && !owned,
            loading_label: if owned {
                None
            } else {
                self.loading_label
            },
            ..self
        }
    }

    pub open spec fn preview_cleared(self) -> AppView {
        AppView {
            preview_state: PreviewView::Empty,
            preview_target_id: None,
            preview_target_name: None,
            preview_request: None,
            pending_preview_fetch: false,
            preview_scroll: 0,
            ..self
        }
    }

    pub open spec fn current(self) -> Option<Entry> {
        entry_at(self.entries, self.selected)
    }

    /// With the preview at the beginning of what the cursor is on now.
    pub open spec fn preview_restarted(self) -> AppView {
        AppView { preview_scroll: 0, preview_request: None, ..self }
    }

    pub open spec fn cursor_move_noted(self) -> AppView {
        AppView {
            clock: Clock { last_cursor_move: self.clock.now, ..self.clock },
            ..self
        }
    }

    /// With the preview following an entry.
    pub open spec fn previewing(self, e: Entry) -> AppView {
        AppView {
            preview_state: if e.kind == EntryKind::File {
                PreviewView::FileBasicInfo
            } else {
                PreviewView::Empty
            },
            preview_target_id: Some(e.id@),
            pending_preview_fetch: self.config.lazy_preview || self.pending_preview_fetch,
            ..self
        }
    }

    /// With the preview following the selected entry.
    pub open spec fn cursor_moved(self) -> AppView {
        let shown = self.config.show_preview;
        let there = shown && self.selected < self.entries.len();
        let e = self.entries[self.selected as int];
        AppView {
            preview_scroll: 0,
            preview_request: None,
            clock: if shown {
                Clock { last_cursor_move: self.clock.now, ..self.clock }
            } else {
                self.clock
            },
            preview_state: if there && e.kind == EntryKind::File {
                PreviewView::FileBasicInfo
            } else if shown {
                PreviewView::Empty
            } else {
                self.preview_state
            },
            preview_target_id: if there {
                Some(e.id@)
            } else if shown {
                None
            } else {
                self.preview_target_id
            },
            preview_target_name: if shown && !there {
                None
            } else {
                self.preview_target_name
            },
            pending_preview_fetch: if there {
                self.config.lazy_preview || self.pending_preview_fetch
            } else {
                !shown && self.pending_preview_fetch
            },
            ..self
        }
    }

    /// With the selection at `i`, followed by the preview.
    pub open spec fn selecting(self, i: int) -> AppView {
        AppView { selected: i as usize, ..self }.cursor_moved()
    }

    /// With the preview of an entry being loaded.
    pub open spec fn preview_loading(self, e: Entry) -> AppView {
        AppView {
            preview_target_id: Some(e.id@),
            preview_state: PreviewView::Loading,
            ..self
        }
    }

    /// With the preview of a folder asked for.
    pub open spec fn folder_preview_asked(self, e: Entry) -> AppView {
        self.preview_begun(AsyncRequestKind::FolderPreview, e.id@).asking(
            EffectView::ListPreview {
                request: self.request_of(AsyncRequestKind::FolderPreview, e.id@),
            },
        )
    }

    /// With the preview of a file asked for: its thumbnail where it has one, else its text where
    /// it can be shown, else its details.
    pub open spec fn file_preview_asked(self, e: Entry) -> AppView {
        self.preview_begun(AsyncRequestKind::FilePreview, e.id@).asking(
            file_preview_work(
                e,
                self.request_of(AsyncRequestKind::FilePreview, e.id@),
                self.config.preview_max_size,
            ),
        )
    }

    /// With the preview of the selected entry asked for.
    pub open spec fn preview_fetched(self) -> AppView {
        let there = self.selected < self.entries.len();
        let e = self.entries[self.selected as int];
        let request = self.request_of(
            if e.kind == EntryKind::Folder {
                AsyncRequestKind::FolderPreview
            } else {
                AsyncRequestKind::FilePreview
            },
            e.id@,
        );
        let work = if e.kind == EntryKind::Folder {
            EffectView::ListPreview { request }
        } else {
            file_preview_work(e, request, self.config.preview_max_size)
        };
        AppView {
            preview_target_id: if there {
                Some(e.id@)
            } else {
                self.preview_target_id
            },
            preview_state: if there {
                PreviewView::Loading
            } else {
                self.preview_state
            },
            preview_request: if there {
                Some(request)
            } else {
                self.preview_request
            },
            async_request_generation: if there {
                self.next_id()
            } else {
                self.async_request_generation
            },
            effects: if there {
                self.effects.push(work)
            } else {
                self.effects
            },
            ..self
        }
    }

    /// The trash as it was left, with its listing asked for again.
    pub open spec fn trash_reopened(self) -> AppView {
        self.in_mode(
            ModeView::TrashView {
                entries: self.trash_entries,
                selected: self.trash_selected,
                expanded: self.trash_expanded,
            },
        ).loading_as("Loading trash..."@).asking(EffectView::ListTrash)
    }

    pub open spec fn shares_opened(self) -> AppView {
        AppView { shares_pending: true, ..self }.loading_as("Loading shares..."@).asking(
            EffectView::ListShares,
        )
    }

    pub open spec fn offline_tasks_opened(self) -> AppView {
        let a = self.in_mode(ModeView::InfoLoading).loading_as("Loading offline tasks..."@);
        let request = a.request_of(AsyncRequestKind::OfflineTasks, "offline-tasks"@);
        a.modal_begun(AsyncRequestKind::OfflineTasks, "offline-tasks"@).asking(
            EffectView::ListOfflineTasks { request },
        )
    }

    /// With the entries to be sorted anew by the settings.
    pub open spec fn resorted(self) -> AppView {
        AppView {
            selected: clamped(self.selected, self.entries.len()),
            ..self.asking(EffectView::SortEntries)
        }.logged(
            "Sort: "@ + self.options.sort_field.name(self.config.sort_field) + " "@ + sort_arrow(
                self.config.sort_reverse,
            ),
        )
    }

    pub open spec fn saving_silently(self) -> AppView {
        self.asking(
            EffectView::SaveConfig { config: self.config, purpose: SavePurpose::Silent },
        )
    }

    pub open spec fn modal_matches(self, request: RequestView) -> bool {
        self.modal_request == Some(request)
    }

    pub open spec fn preview_matches(self, request: RequestView) -> bool {
        self.preview_request == Some(request) && self.preview_target_id == Some(request.target)
    }
}

impl App {
    /// Puts some work into the queue of the host.
    pub(crate) fn ask(&mut self, e: Effect)
        ensures
            final(self)@ == old(self)@.asking(e@),
    {
        self.effects.push(e);
        assert(effects_view(self.effects@) =~= effects_view(old(self).effects@).push(e@));
    }

    /// Hands the queued work over to the host.
    pub fn take_effects(&mut self) -> (r: Vec<Effect>)
        ensures
            effects_view(r@) == old(self)@.effects,
            final(self)@ == (AppView { effects: Seq::empty(), ..old(self)@ }),
    {
        let mut out: Vec<Effect> = Vec::new();
        std::mem::swap(&mut out, &mut self.effects);
        assert(effects_view(self.effects@) =~= Seq::<EffectView>::empty());
        out
    }

    pub fn current_path_display(&self) -> (r: String)
        ensures
            r@ == path_text(self@.breadcrumb),
    {
        path_display(&self.breadcrumb)
    }

    pub fn picker_path_display(picker: &PickerState) -> (r: String)
        ensures
            r@ == path_text(picker@.breadcrumb),
    {
        path_display(&picker.breadcrumb)
    }

    pub fn current_entry(&self) -> (r: Option<Entry>)
        ensures
            r == self@.current(),
    {
        if self.selected < self.entries.len() {
            Some(self.entries[self.selected].clone())
        } else {
            None
        }
    }

    pub fn finish_loading(&mut self)
        ensures
            final(self)@ == old(self)@.finished_loading(),
    {
        self.loading = false;
        self.loading_label = None;
    }

    pub(crate) fn load_as(&mut self, label: &str)
        ensures
            final(self)@ == old(self)@.loading_as(label@),
    {
        self.loading = true;
        self.loading_label = Some(owned(label));
    }

    /// Adds a message to the log and shows it at the bottom. The oldest message is dropped when
    /// too many are kept.
    pub fn push_log(&mut self, msg: String)
        ensures
            final(self)@ == old(self)@.logged(msg@),
    {
        let kind: StatusKind = message_kind(msg.as_str());
        self.status_message = Some(
            StatusMessage {
                text: msg.clone(),
                kind,
                expires_at: self.clock.now.saturating_add(STATUS_MILLIS),
            },
        );
        let ghost before = self.logs@;
        self.logs.push(msg);
        assert(texts(self.logs@) =~= texts(before).push(msg@));
        drop_oldest(&mut self.logs);
    }

    pub(crate) fn log(&mut self, msg: &str)
        ensures
            final(self)@ == old(self)@.logged(msg@),
    {
        self.push_log(owned(msg));
    }

    pub fn fetch_quota(&mut self)
        ensures
            final(self)@ == old(self)@.asking(EffectView::FetchQuota),
    {
        self.ask(Effect::FetchQuota);
    }

    /// Asks for a newer version, unless that is switched off.
    pub fn check_for_update_async(&mut self)
        ensures
            final(self)@ == (if old(self)@.config.update_check
                == old(self)@.options.updates_off {
                old(self)@
            } else {
                old(self)@.asking(EffectView::CheckUpdate)
            }),
    {
        if self.config.update_check != self.options.updates_off {
            self.ask(Effect::CheckUpdate);
        }
    }

    pub fn refresh(&mut self)
        ensures
            final(self)@ == old(self)@.refreshed(),
    {
        self.loading = true;
        let id: String = self.current_folder_id.clone();
        self.request_main_listing(id);
        self.refresh_parent();
        self.fetch_quota();
    }

    pub fn request_main_listing(&mut self, folder_id: String)
        ensures
            final(self)@ == old(self)@.main_requested(folder_id@),
    {
        self.invalidate_main_listing();
        let request_id: u64 = self.main_listing_request_id;
        self.ask(Effect::ListFolder { request_id, folder_id });
    }

    pub fn invalidate_main_listing(&mut self)
        ensures
            final(self)@ == old(self)@.main_invalidated(),
    {
        self.main_listing_request_id = self.main_listing_request_id.wrapping_add(1);
    }

    pub fn next_async_request_id(&mut self) -> (r: u64)
        ensures
            r == old(self)@.next_id(),
            final(self)@ == old(self)@.with_next_id(),
    {
        self.async_request_generation = self.async_request_generation.wrapping_add(1);
        self.async_request_generation
    }

    pub fn new_async_request(&mut self, kind: AsyncRequestKind, target: String) -> (r: AsyncRequest)
        ensures
            r@ == old(self)@.request_of(kind, target@),
            final(self)@ == old(self)@.with_next_id(),
    {
        let id: u64 = self.next_async_request_id();
        AsyncRequest { id, kind, target }
    }

    pub fn begin_modal_request(&mut self, kind: AsyncRequestKind, target: String) -> (r:
        AsyncRequest)
        ensures
            r@ == old(self)@.request_of(kind, target@),
            final(self)@ == old(self)@.modal_begun(kind, target@),
    {
        let request: AsyncRequest = self.new_async_request(kind, target);
        self.modal_request = Some(request.clone());
        request
    }

    pub fn begin_preview_request(&mut self, kind: AsyncRequestKind, target: String) -> (r:
        AsyncRequest)
        ensures
            r@ == old(self)@.request_of(kind, target@),
            final(self)@ == old(self)@.preview_begun(kind, target@),
    {
        let request: AsyncRequest = self.new_async_request(kind, target);
        self.preview_request = Some(request.clone());
        request
    }

    pub fn modal_request_matches(&self, request: &AsyncRequest) -> (r: bool)
        ensures
            r == self@.modal_matches(request@),
    {
        match &self.modal_request {
            Some(m) => m.same(request),
            None => false,
        }
    }

    pub fn preview_request_matches(&self, request: &AsyncRequest) -> (r: bool)
        ensures
            r == self@.preview_matches(request@),
    {
        match &self.preview_request {
            Some(p) => p.same(request) && opt_eq(&self.preview_target_id, request.target.as_str()),
            None => false,
        }
    }

    pub fn invalidate_modal_request(&mut self)
        ensures
            final(self)@ == old(self)@.modal_invalidated(),
    {
        let owned_loading: bool = match &self.modal_request {
            Some(r) => r.kind == AsyncRequestKind::Play || r.kind == AsyncRequestKind::PlayPicker
                || r.kind == AsyncRequestKind::GotoPath,
            None => false,
        };
        self.modal_request = None;
        if owned_loading {
            self.finish_loading();
        }
    }

    pub fn refresh_parent(&mut self)
        ensures
            final(self)@ == old(self)@.parent_refreshed(),
    {
        let n: usize = self.breadcrumb.len();
        if n > 0 {
            let parent_id: String = self.breadcrumb[n - 1].0.clone();
            let request: AsyncRequest = self.new_async_request(
                AsyncRequestKind::ParentListing,
                parent_id,
            );
            self.parent_listing_request = Some(request.clone());
            self.ask(Effect::ListParent { request });
        } else {
            self.parent_listing_request = None;
            self.parent_entries = Vec::new();
            self.parent_selected = 0;
        }
    }

    pub fn clear_preview(&mut self)
        ensures
            final(self)@ == old(self)@.preview_cleared(),
    {
        self.preview_state = PreviewState::Empty;
        self.preview_target_id = None;
        self.preview_target_name = None;
        self.preview_request = None;
        self.pending_preview_fetch = false;
        self.preview_scroll = 0;
    }

    pub fn on_cursor_move(&mut self)
        ensures
            final(self)@ == old(self)@.cursor_moved(),
    {
        proof {
            lemma_cursor_moved(self@);
        }
        self.restart_preview();
        if !self.config.show_preview {
            return;
        }
        self.note_cursor_move();
        if self.selected < self.entries.len() {
            self.follow_selected();
            return;
        }
        self.clear_preview();
    }

    fn restart_preview(&mut self)
        ensures
            final(self)@ == old(self)@.preview_restarted(),
    {
        self.preview_scroll = 0;
        self.preview_request = None;
    }

    fn note_cursor_move(&mut self)
        ensures
            final(self)@ == old(self)@.cursor_move_noted(),
    {
        self.clock.last_cursor_move = self.clock.now;
    }

    fn follow_selected(&mut self)
        requires
            old(self).selected < old(self).entries@.len(),
        ensures
            final(self)@ == old(self)@.previewing(
                old(self)@.entries[old(self)@.selected as int],
            ),
    {
        let file: bool = self.entries[self.selected].kind == EntryKind::File;
        let id: String = self.entries[self.selected].id.clone();
        self.preview_state = if file { PreviewState::FileBasicInfo } else { PreviewState::Empty };
        self.preview_target_id = Some(id);
        self.pending_preview_fetch = self.config.lazy_preview || self.pending_preview_fetch;
    }

    pub(crate) fn select(&mut self, i: usize)
        ensures
            final(self)@ == old(self)@.selecting(i as int),
    {
        self.selected = i;
        self.on_cursor_move();
    }

    pub fn spawn_thumbnail_fetch(&mut self, url: String, request: AsyncRequest, for_info: bool)
        ensures
            final(self)@ == old(self)@.asking(
                EffectView::FetchThumbnail { request: request@, url: url@, for_info },
            ),
    {
        self.ask(Effect::FetchThumbnail { request, url, for_info });
    }

    fn begin_preview_loading(&mut self, e: &Entry)
        ensures
            final(self)@ == old(self)@.preview_loading(*e),
    {
        self.preview_target_id = Some(e.id.clone());
        self.preview_state = PreviewState::Loading;
    }

    fn ask_folder_preview(&mut self, e: Entry)
        ensures
            final(self)@ == old(self)@.folder_preview_asked(e),
    {
        let request: AsyncRequest = self.begin_preview_request(
            AsyncRequestKind::FolderPreview,
            e.id,
        );
        self.ask(Effect::ListPreview { request });
    }

    fn ask_file_preview(&mut self, e: Entry)
        ensures
            final(self)@ == old(self)@.file_preview_asked(e),
    {
        let max_bytes: u64 = self.config.preview_max_size;
        let id: String = e.id.clone();
        let request: AsyncRequest = self.begin_preview_request(AsyncRequestKind::FilePreview, id);
        let work: Effect = file_preview_effect(e, request, max_bytes);
        self.ask(work);
    }

    pub fn fetch_preview_for_selected(&mut self)
        ensures
            final(self)@ == old(self)@.preview_fetched(),
    {
        if self.selected >= self.entries.len() {
            return;
        }
        let entry: Entry = self.entries[self.selected].clone();
        self.begin_preview_loading(&entry);
        if entry.kind == EntryKind::Folder {
            self.ask_folder_preview(entry);
            return;
        }
        self.ask_file_preview(entry);
    }

    pub fn open_trash_view_preserve(&mut self)
        ensures
            final(self)@ == old(self)@.trash_reopened(),
    {
        self.input = InputMode::TrashView {
            entries: clone_entries(&self.trash_entries),
            selected: self.trash_selected,
            expanded: self.trash_expanded,
        };
        self.load_as("Loading trash...");
        self.ask(Effect::ListTrash);
    }

    pub fn open_my_shares_view(&mut self)
        ensures
            final(self)@ == old(self)@.shares_opened(),
    {
        self.shares_pending = true;
        self.load_as("Loading shares...");
        self.ask(Effect::ListShares);
    }

    pub fn open_offline_tasks_view(&mut self)
        ensures
            final(self)@ == old(self)@.offline_tasks_opened(),
    {
        self.input = InputMode::InfoLoading;
        self.load_as("Loading offline tasks...");
        let request: AsyncRequest = self.begin_modal_request(
            AsyncRequestKind::OfflineTasks,
            owned("offline-tasks"),
        );
        self.ask(Effect::ListOfflineTasks { request });
    }

    /// Has the entries sorted by the settings, and says so.
    pub fn resort_entries(&mut self)
        ensures
            final(self)@ == old(self)@.resorted(),
    {
        self.ask(Effect::SortEntries);
        self.selected = clamp_index(self.selected, self.entries.len());
        let msg: String = cat4(
            "Sort: ",
            self.options.sort_field.label(self.config.sort_field),
            " ",
            sort_sign(self.config.sort_reverse),
        );
        self.push_log(msg);
    }

    /// Takes over the entries that the host has sorted.
    pub fn entries_sorted(&mut self, entries: Vec<Entry>)
        ensures
            final(self)@ == (AppView { entries: entries@, ..old(self)@ }),
    {
        self.entries = entries;
    }

    pub(crate) fn save_silently(&mut self)
        ensures
            final(self)@ == old(self)@.saving_silently(),
    {
        let config: TuiConfig = self.config.clone();
        self.ask(Effect::SaveConfig { config, purpose: SavePurpose::Silent });
    }

    /// Has the sign-in done by the host.
    pub fn attempt_login(&mut self, email: &str, password: &str)
        ensures
            final(self)@ == old(self)@.asking(
                EffectView::Login { email: email@, password: password@ },
            ),
    {
        self.ask(Effect::Login { email: owned(email), password: owned(password) });
    }
}

/// What a moved cursor does, case by case.
proof fn lemma_cursor_moved(a: AppView)
    ensures
        !a.config.show_preview ==> a.cursor_moved() == a.preview_restarted(),
        a.config.show_preview && a.selected < a.entries.len() ==> a.cursor_moved()
            == a.preview_restarted().cursor_move_noted().previewing(
            a.entries[a.selected as int],
        ),
        a.config.show_preview && a.selected >= a.entries.len() ==> a.cursor_moved()
            == a.preview_restarted().cursor_move_noted().preview_cleared(),
{
}

/// However many messages are logged, no more than the limit are kept.
pub proof fn law_logs_are_bounded(a: AppView, msg: Chars)
    requires
        a.logs.len() <= MAX_LOGS,
    ensures
        a.logged(msg).logs.len() <= MAX_LOGS,
        a.logged(msg).logs.last() == msg,
{
}

/// A request that is given up never leaves the loading sign behind that it had put up, and one
/// that had put up none leaves it alone.
pub proof fn law_invalidated_request_ends_its_loading(a: AppView)
    ensures
        a.modal_invalidated().modal_request is None,
        owns_loading(a.modal_request) ==> !a.modal_invalidated().loading,
        !owns_loading(a.modal_request) ==> a.modal_invalidated().loading == a.loading,
{
}

/// Two requests in a row are told apart by their numbers.
pub proof fn law_requests_are_told_apart(
    a: AppView,
    kind: AsyncRequestKind,
    target: Chars,
    kind2: AsyncRequestKind,
    target2: Chars,
)
    ensures
        a.request_of(kind, target).id != a.with_next_id().request_of(kind2, target2).id,
        a.main_requested(target).main_listing_request_id != a.main_listing_request_id,
{
}

} // verus!
