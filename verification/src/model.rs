//! The data that the interface shows and edits.

use crate::style::{lines_view, Line, LineView};
use crate::text::{clone_opt, opt_text, text_pairs, texts, Chars};
use vstd::prelude::*;

verus! {

#[derive(Clone, Copy, Debug, PartialEq, Eq, Structural)]
pub enum EntryKind {
    Folder,
    File,
}

/// What sort of file an entry is, for its icon and colour.
#[derive(Clone, Copy, Debug, PartialEq, Eq, Structural)]
pub enum FileCategory {
    Folder,
    Archive,
    Image,
    Video,
    Audio,
    Document,
    Code,
    Default,
}

/// A file or folder of the drive.
#[derive(Debug)]
pub struct Entry {
    pub id: String,
    pub name: String,
    pub kind: EntryKind,
    pub size: u64,
    pub created_time: String,
    pub modified_time: String,
    pub starred: bool,
    pub thumbnail_link: Option<String>,
    pub category: FileCategory,
    /// Whether the contents can be shown as text.
    pub text_previewable: bool,
}

impl Clone for Entry {
    fn clone(&self) -> (r: Self)
        ensures
            r == *self,
    {
        Entry {
            id: self.id.clone(),
            name: self.name.clone(),
            kind: self.kind,
            size: self.size,
            created_time: self.created_time.clone(),
            modified_time: self.modified_time.clone(),
            starred: self.starred,
            thumbnail_link: clone_opt(&self.thumbnail_link),
            category: self.category,
            text_previewable: self.text_previewable,
        }
    }
}

pub fn clone_entries(v: &Vec<Entry>) -> (r: Vec<Entry>)
    ensures
        r@ == v@,
{
    let mut out: Vec<Entry> = Vec::new();
    let mut i: usize = 0;
    while i < v.len()
        invariant
            i <= v.len(),
            out@ == v@.subrange(0, i as int),
        decreases v.len() - i,
    {
        out.push(v[i].clone());
        i += 1;
        assert(out@ =~= v@.subrange(0, i as int));
    }
    assert(v@.subrange(0, v@.len() as int) =~= v@);
    out
}

/// The index of the first entry with an id, where there is one.
pub open spec fn find_entry(v: Seq<Entry>, id: Chars) -> Option<int>
    decreases v.len(),
{
    if v.len() == 0 {
        None
    } else {
        match find_entry(v.drop_last(), id) {
            Some(i) => Some(i),
            None => if v.last().id@ == id {
                Some(v.len() - 1)
            } else {
                None
            },
        }
    }
}

pub fn position_of(v: &Vec<Entry>, id: &String) -> (r: Option<usize>)
    ensures
        match r {
            Some(i) => find_entry(v@, id@) == Some(i as int) && i < v@.len() && v@[i as int].id@
                == id@,
            None => find_entry(v@, id@) is None && forall|k: int|
                0 <= k < v@.len() ==> (#[trigger] v@[k]).id@ != id@,
        },
{
    let mut i: usize = 0;
    assert(v@.take(0).len() == 0);
    while i < v.len()
        invariant
            i <= v.len(),
            find_entry(v@.take(i as int), id@) is None,
            forall|k: int| 0 <= k < i ==> (#[trigger] v@[k]).id@ != id@,
        decreases v.len() - i,
    {
        assert(v@.take(i + 1).drop_last() =~= v@.take(i as int));
        if v[i].id == *id {
            proof {
                lemma_find_in_longer(v@, i + 1, id@);
            }
            return Some(i);
        }
        i += 1;
    }
    assert(v@.take(v@.len() as int) =~= v@);
    None
}

proof fn lemma_find_in_longer(v: Seq<Entry>, n: int, id: Chars)
    requires
        0 <= n <= v.len(),
        find_entry(v.take(n), id) is Some,
    ensures
        find_entry(v, id) == find_entry(v.take(n), id),
    decreases v.len(),
{
    if n < v.len() {
        assert(v.drop_last().take(n) =~= v.take(n));
        lemma_find_in_longer(v.drop_last(), n, id);
    } else {
        assert(v.take(n) =~= v);
    }
}

/// One stream of a video.
#[derive(Debug)]
pub struct Media {
    pub is_origin: bool,
    pub url: Option<String>,
    pub name: Option<String>,
}

/// Details of a file.
#[derive(Debug)]
pub struct FileInfo {
    pub id: Option<String>,
    pub name: String,
    pub kind: Option<String>,
    pub size: Option<String>,
    pub hash: Option<String>,
    pub mime_type: Option<String>,
    /// The dates as they are shown.
    pub created_time: Option<String>,
    pub modified_time: Option<String>,
    pub web_content_link: Option<String>,
    pub thumbnail_link: Option<String>,
    /// The plain download link.
    pub octet_link: Option<String>,
    pub medias: Vec<Media>,
}

pub struct FileInfoView {
    pub id: Option<Chars>,
    pub name: Chars,
    pub kind: Option<Chars>,
    pub size: Option<Chars>,
    pub hash: Option<Chars>,
    pub mime_type: Option<Chars>,
    pub created_time: Option<Chars>,
    pub modified_time: Option<Chars>,
    pub web_content_link: Option<Chars>,
    pub thumbnail_link: Option<Chars>,
    pub octet_link: Option<Chars>,
    pub medias: Seq<Media>,
}

impl View for FileInfo {
    type V = FileInfoView;

    open spec fn view(&self) -> FileInfoView {
        FileInfoView {
            id: opt_text(self.id),
            name: self.name@,
            kind: opt_text(self.kind),
            size: opt_text(self.size),
            hash: opt_text(self.hash),
            mime_type: opt_text(self.mime_type),
            created_time: opt_text(self.created_time),
            modified_time: opt_text(self.modified_time),
            web_content_link: opt_text(self.web_content_link),
            thumbnail_link: opt_text(self.thumbnail_link),
            octet_link: opt_text(self.octet_link),
            medias: self.medias@,
        }
    }
}

/// A stream that can be played.
#[derive(Debug)]
pub struct PlayOption {
    pub label: String,
    pub url: String,
    pub available: bool,
}

pub struct PlayOptionView {
    pub label: Chars,
    pub url: Chars,
    pub available: bool,
}

impl View for PlayOption {
    type V = PlayOptionView;

    open spec fn view(&self) -> PlayOptionView {
        PlayOptionView { label: self.label@, url: self.url@, available: self.available }
    }
}

pub open spec fn options_view(v: Seq<PlayOption>) -> Seq<PlayOptionView> {
    Seq::new(v.len(), |i: int| v[i]@)
}

/// A download that the drive itself performs.
#[derive(Debug)]
pub struct OfflineTask {
    pub id: String,
    pub name: String,
    pub phase: String,
    pub progress: u32,
    pub message: Option<String>,
    /// The size of the file, as a numeral.
    pub file_size: Option<String>,
}

/// A share of the user.
#[derive(Debug)]
pub struct MyShare {
    pub share_id: String,
    pub share_url: String,
    pub title: String,
    pub pass_code: String,
    pub share_to: String,
    pub expiration_days: String,
    pub create_time: String,
    pub view_count: String,
    pub restore_count: String,
    pub file_num: String,
}

/// A picture that the host keeps: its handle and its size in pixels.
#[derive(Clone, Copy, Debug, PartialEq, Eq, Structural)]
pub struct ImageHandle {
    pub id: u64,
    pub width: u32,
    pub height: u32,
}

#[derive(Clone, Copy, Debug, PartialEq, Eq, Structural)]
pub enum TaskStatus {
    Pending,
    Downloading,
    Paused,
    Done,
    Failed,
}

/// A download to the local disk.
#[derive(Debug)]
pub struct DownloadTask {
    pub id: u64,
    pub name: String,
    pub total_size: u64,
    pub downloaded: u64,
    pub status: TaskStatus,
}

#[derive(Clone, Copy, Debug, PartialEq, Eq, Structural)]
pub enum AsyncRequestKind {
    Info,
    FolderPreview,
    FilePreview,
    OfflineTasks,
    Play,
    PlayPicker,
    GotoPath,
    ParentListing,
}

/// A request whose reply is awaited. A reply counts only when it answers this very request.
#[derive(Debug)]
pub struct AsyncRequest {
    pub id: u64,
    pub kind: AsyncRequestKind,
    pub target: String,
}

pub struct RequestView {
    pub id: u64,
    pub kind: AsyncRequestKind,
    pub target: Chars,
}

impl View for AsyncRequest {
    type V = RequestView;

    open spec fn view(&self) -> RequestView {
        RequestView { id: self.id, kind: self.kind, target: self.target@ }
    }
}

impl Clone for AsyncRequest {
    fn clone(&self) -> (r: Self)
        ensures
            r == *self,
    {
        AsyncRequest { id: self.id, kind: self.kind, target: self.target.clone() }
    }
}

impl AsyncRequest {
    pub fn same(&self, other: &AsyncRequest) -> (r: bool)
        ensures
            r == (self@ == other@),
    {
        self.id == other.id && self.kind == other.kind && self.target == other.target
    }
}

pub open spec fn opt_request(o: Option<AsyncRequest>) -> Option<RequestView> {
    match o {
        Some(r) => Some(r@),
        None => None,
    }
}

/// The colours of the custom scheme, as red, green and blue.
#[derive(Clone, Copy, Debug)]
pub struct CustomColors {
    pub folder: (u8, u8, u8),
    pub archive: (u8, u8, u8),
    pub image: (u8, u8, u8),
    pub video: (u8, u8, u8),
    pub audio: (u8, u8, u8),
    pub document: (u8, u8, u8),
    pub code: (u8, u8, u8),
    pub default: (u8, u8, u8),
}

/// The settings. A choice among named options is held as its index in the option list.
#[derive(Debug)]
pub struct TuiConfig {
    pub nerd_font: bool,
    pub border_style: usize,
    pub color_scheme: usize,
    pub show_help_bar: bool,
    pub quota_bar_style: usize,
    pub show_preview: bool,
    pub lazy_preview: bool,
    pub preview_max_size: u64,
    pub thumbnail_mode: usize,
    /// The image protocol of each terminal.
    pub image_protocols: Vec<(String, usize)>,
    pub sort_field: usize,
    pub sort_reverse: bool,
    /// Whether a destination is picked from a list of folders instead of typed.
    pub use_picker: bool,
    pub cli_nerd_font: bool,
    pub player: Option<String>,
    pub download_jobs: usize,
    pub update_check: usize,
    pub custom_colors: CustomColors,
}

pub struct ConfigView {
    pub nerd_font: bool,
    pub border_style: usize,
    pub color_scheme: usize,
    pub show_help_bar: bool,
    pub quota_bar_style: usize,
    pub show_preview: bool,
    pub lazy_preview: bool,
    pub preview_max_size: u64,
    pub thumbnail_mode: usize,
    pub image_protocols: Seq<(Chars, usize)>,
    pub sort_field: usize,
    pub sort_reverse: bool,
    pub use_picker: bool,
    pub cli_nerd_font: bool,
    pub player: Option<Chars>,
    pub download_jobs: usize,
    pub update_check: usize,
    pub custom_colors: CustomColors,
}

pub open spec fn protocols_view(v: Seq<(String, usize)>) -> Seq<(Chars, usize)> {
    Seq::new(v.len(), |i: int| (v[i].0@, v[i].1))
}

impl View for TuiConfig {
    type V = ConfigView;

    open spec fn view(&self) -> ConfigView {
        ConfigView {
            nerd_font: self.nerd_font,
            border_style: self.border_style,
            color_scheme: self.color_scheme,
            show_help_bar: self.show_help_bar,
            quota_bar_style: self.quota_bar_style,
            show_preview: self.show_preview,
            lazy_preview: self.lazy_preview,
            preview_max_size: self.preview_max_size,
            thumbnail_mode: self.thumbnail_mode,
            image_protocols: protocols_view(self.image_protocols@),
            sort_field: self.sort_field,
            sort_reverse: self.sort_reverse,
            use_picker: self.use_picker,
            cli_nerd_font: self.cli_nerd_font,
            player: opt_text(self.player),
            download_jobs: self.download_jobs,
            update_check: self.update_check,
            custom_colors: self.custom_colors,
        }
    }
}

pub fn clone_protocols(v: &Vec<(String, usize)>) -> (r: Vec<(String, usize)>)
    ensures
        r@ == v@,
{
    let mut out: Vec<(String, usize)> = Vec::new();
    let mut i: usize = 0;
    while i < v.len()
        invariant
            i <= v.len(),
            out@ == v@.subrange(0, i as int),
        decreases v.len() - i,
    {
        let name: String = v[i].0.clone();
        let p: usize = v[i].1;
        out.push((name, p));
        i += 1;
        assert(out@ =~= v@.subrange(0, i as int));
    }
    assert(v@.subrange(0, v@.len() as int) =~= v@);
    out
}

impl Clone for TuiConfig {
    fn clone(&self) -> (r: Self)
        ensures
            r@ == self@,
    {
        TuiConfig {
            nerd_font: self.nerd_font,
            border_style: self.border_style,
            color_scheme: self.color_scheme,
            show_help_bar: self.show_help_bar,
            quota_bar_style: self.quota_bar_style,
            show_preview: self.show_preview,
            lazy_preview: self.lazy_preview,
            preview_max_size: self.preview_max_size,
            thumbnail_mode: self.thumbnail_mode,
            image_protocols: clone_protocols(&self.image_protocols),
            sort_field: self.sort_field,
            sort_reverse: self.sort_reverse,
            use_picker: self.use_picker,
            cli_nerd_font: self.cli_nerd_font,
            player: clone_opt(&self.player),
            download_jobs: self.download_jobs,
            update_check: self.update_check,
            custom_colors: self.custom_colors,
        }
    }
}

/// A list of named options that is stepped through in both directions.
#[derive(Debug)]
pub struct OptionTable {
    pub labels: Vec<String>,
    pub next: Vec<usize>,
    pub prev: Vec<usize>,
}

impl OptionTable {
    pub open spec fn after(self, i: usize) -> usize {
        if i < self.next@.len() {
            self.next@[i as int]
        } else {
            i
        }
    }

    pub fn next_of(&self, i: usize) -> (r: usize)
        ensures
            r == self.after(i),
    {
        if i < self.next.len() {
            self.next[i]
        } else {
            i
        }
    }

    pub open spec fn before(self, i: usize) -> usize {
        if i < self.prev@.len() {
            self.prev@[i as int]
        } else {
            i
        }
    }

    pub fn prev_of(&self, i: usize) -> (r: usize)
        ensures
            r == self.before(i),
    {
        if i < self.prev.len() {
            self.prev[i]
        } else {
            i
        }
    }

    pub open spec fn name(self, i: usize) -> Chars {
        if i < self.labels@.len() {
            self.labels@[i as int]@
        } else {
            ""@
        }
    }

    pub fn label(&self, i: usize) -> (r: &str)
        ensures
            r@ == self.name(i),
    {
        if i < self.labels.len() {
            self.labels[i].as_str()
        } else {
            ""
        }
    }
}

/// The option lists of the settings.
#[derive(Debug)]
pub struct SettingOptions {
    pub border_style: OptionTable,
    pub color_scheme: OptionTable,
    pub quota_bar_style: OptionTable,
    pub thumbnail_mode: OptionTable,
    pub image_protocol: OptionTable,
    pub sort_field: OptionTable,
    pub update_check: OptionTable,
    /// What each way of looking for updates means.
    pub update_notes: Vec<String>,
    /// The names of typing a destination and of picking it.
    pub move_mode: (String, String),
    /// The image protocol of a terminal for which none was chosen.
    pub protocol_auto: usize,
    pub scheme_custom: usize,
    pub scheme_vibrant: usize,
    pub updates_off: usize,
    pub updates_notify: usize,
    pub quota_as_percent: usize,
}

/// A destination path that is being typed.
#[derive(Debug)]
pub struct PathInput {
    pub value: String,
    pub candidates: Vec<String>,
    pub candidate_idx: Option<usize>,
    pub pending_request_id: Option<u64>,
}

pub struct PathInputView {
    pub value: Chars,
    pub candidates: Seq<String>,
    pub candidate_idx: Option<usize>,
    pub pending_request_id: Option<u64>,
}

impl View for PathInput {
    type V = PathInputView;

    open spec fn view(&self) -> PathInputView {
        PathInputView {
            value: self.value@,
            candidates: self.candidates@,
            candidate_idx: self.candidate_idx,
            pending_request_id: self.pending_request_id,
        }
    }
}

impl PathInputView {
    pub open spec fn fresh() -> PathInputView {
        PathInputView {
            value: Seq::empty(),
            candidates: Seq::empty(),
            candidate_idx: None,
            pending_request_id: None,
        }
    }

    pub open spec fn cleared(self) -> PathInputView {
        PathInputView { value: self.value, ..PathInputView::fresh() }
    }
}

impl PathInput {
    pub fn new() -> (r: Self)
        ensures
            r@ == PathInputView::fresh(),
    {
        let r = PathInput {
            value: String::new(),
            candidates: Vec::new(),
            candidate_idx: None,
            pending_request_id: None,
        };
        assert(r@.value =~= Seq::<char>::empty());
        r
    }

    /// Closes the list of candidates and forgets the one that was asked for.
    pub fn clear_completion(&mut self)
        ensures
            final(self)@ == old(self)@.cleared(),
    {
        self.candidates = Vec::new();
        self.candidate_idx = None;
        self.pending_request_id = None;
    }
}

/// A path of the local disk that is being typed. Each candidate says whether it is a folder.
#[derive(Debug)]
pub struct LocalPathInput {
    pub value: String,
    pub candidates: Vec<(String, bool)>,
    pub candidate_idx: Option<usize>,
}

pub struct LocalPathInputView {
    pub value: Chars,
    pub candidates: Seq<(String, bool)>,
    pub candidate_idx: Option<usize>,
}

impl View for LocalPathInput {
    type V = LocalPathInputView;

    open spec fn view(&self) -> LocalPathInputView {
        LocalPathInputView {
            value: self.value@,
            candidates: self.candidates@,
            candidate_idx: self.candidate_idx,
        }
    }
}

/// A folder list from which a destination is picked.
#[derive(Debug)]
pub struct PickerState {
    pub folder_id: String,
    pub listing_request_id: u64,
    pub breadcrumb: Vec<(String, String)>,
    pub entries: Vec<Entry>,
    pub selected: usize,
    pub loading: bool,
}

pub struct PickerView {
    pub folder_id: Chars,
    pub listing_request_id: u64,
    pub breadcrumb: Seq<(Chars, Chars)>,
    pub entries: Seq<Entry>,
    pub selected: usize,
    pub loading: bool,
}

impl View for PickerState {
    type V = PickerView;

    open spec fn view(&self) -> PickerView {
        PickerView {
            folder_id: self.folder_id@,
            listing_request_id: self.listing_request_id,
            breadcrumb: text_pairs(self.breadcrumb@),
            entries: self.entries@,
            selected: self.selected,
            loading: self.loading,
        }
    }
}

#[derive(Clone, Copy, Debug, PartialEq, Eq, Structural)]
pub enum LoginField {
    Email,
    Password,
}

/// What the preview pane shows.
#[derive(Debug)]
pub enum PreviewState {
    Empty,
    Loading,
    FolderListing(Vec<Entry>),
    FileBasicInfo,
    FileDetailedInfo(FileInfo),
    FileTextPreview { name: String, lines: Vec<Line>, size: u64, truncated: bool },
    ThumbnailImage { image: ImageHandle },
}

pub enum PreviewView {
    Empty,
    Loading,
    FolderListing(Seq<Entry>),
    FileBasicInfo,
    FileDetailedInfo(FileInfoView),
    FileTextPreview { name: Chars, lines: Seq<LineView>, size: u64, truncated: bool },
    ThumbnailImage { image: ImageHandle },
}

impl View for PreviewState {
    type V = PreviewView;

    open spec fn view(&self) -> PreviewView {
        match self {
            PreviewState::Empty => PreviewView::Empty,
            PreviewState::Loading => PreviewView::Loading,
            PreviewState::FolderListing(v) => PreviewView::FolderListing(v@),
            PreviewState::FileBasicInfo => PreviewView::FileBasicInfo,
            PreviewState::FileDetailedInfo(i) => PreviewView::FileDetailedInfo(i@),
            PreviewState::FileTextPreview { name, lines, size, truncated } =>
                PreviewView::FileTextPreview {
                name: name@,
                lines: lines_view(lines@),
                size: *size,
                truncated: *truncated,
            },
            PreviewState::ThumbnailImage { image } => PreviewView::ThumbnailImage {
                image: *image,
            },
        }
    }
}

/// Title, link and pass code of a share that was just made.
pub open spec fn shares_view(v: Seq<(String, String, String)>) -> Seq<(Chars, Chars, Chars)> {
    Seq::new(v.len(), |i: int| (v[i].0@, v[i].1@, v[i].2@))
}

/// What the keys act on.
#[derive(Debug)]
#[allow(inconsistent_fields)]
pub enum InputMode {
    Login {
        field: LoginField,
        email: String,
        password: String,
        error: Option<String>,
        logging_in: bool,
    },
    Normal,
    ActionMenu { selected: usize },
    Rename { value: String },
    Mkdir { value: String },
    ConfirmDelete,
    ConfirmPermanentDelete { value: String },
    MoveInput { source: Entry, input: PathInput },
    CopyInput { source: Entry, input: PathInput },
    MovePicker { source: Entry, picker: PickerState },
    CopyPicker { source: Entry, picker: PickerState },
    CartView,
    CartMoveInput { input: PathInput },
    CartCopyInput { input: PathInput },
    CartMovePicker { picker: PickerState },
    CartCopyPicker { picker: PickerState },
    ConfirmCartDelete,
    DownloadInput { input: LocalPathInput },
    UploadInput { input: LocalPathInput },
    DownloadView,
    OfflineInput { value: String },
    SaveShareInput { value: String },
    OfflineTasksView { tasks: Vec<OfflineTask>, selected: usize },
    InfoLoading,
    InfoView {
        request_id: u64,
        target_id: String,
        info: FileInfo,
        image: Option<ImageHandle>,
        has_thumbnail: bool,
    },
    InfoFolderView { name: String, entries: Vec<Entry> },
    TextPreviewView { name: String, lines: Vec<Line>, truncated: bool },
    ConfirmPlay { name: String, url: String },
    PlayPicker { name: String, medias: Vec<PlayOption>, selected: usize },
    PlayerInput { value: String, pending_url: String },
    TrashView { entries: Vec<Entry>, selected: usize, expanded: bool },
    SharePrompt,
    /// Title, link and pass code of each share.
    ShareCreatedView { shares: Vec<(String, String, String)> },
    MySharesView {
        shares: Vec<MyShare>,
        selected: usize,
        /// The share whose deletion has to be confirmed.
        confirm_delete: Option<String>,
    },
    ConfirmQuit,
    GotoPath { query: String },
    Settings { selected: usize, editing: bool, draft: TuiConfig, modified: bool },
    ConfirmDiscardSettings { selected: usize, draft: TuiConfig },
    CustomColorSettings {
        selected: usize,
        draft: TuiConfig,
        modified: bool,
        editing_rgb: bool,
        rgb_input: String,
        /// 0 for red, 1 for green, 2 for blue.
        rgb_component: usize,
    },
    ImageProtocolSettings {
        selected: usize,
        draft: TuiConfig,
        modified: bool,
        current_terminal: String,
        terminals: Vec<String>,
    },
}

#[allow(inconsistent_fields)]
pub enum ModeView {
    Login {
        field: LoginField,
        email: Chars,
        password: Chars,
        error: Option<Chars>,
        logging_in: bool,
    },
    Normal,
    ActionMenu { selected: usize },
    Rename { value: Chars },
    Mkdir { value: Chars },
    ConfirmDelete,
    ConfirmPermanentDelete { value: Chars },
    MoveInput { source: Entry, input: PathInputView },
    CopyInput { source: Entry, input: PathInputView },
    MovePicker { source: Entry, picker: PickerView },
    CopyPicker { source: Entry, picker: PickerView },
    CartView,
    CartMoveInput { input: PathInputView },
    CartCopyInput { input: PathInputView },
    CartMovePicker { picker: PickerView },
    CartCopyPicker { picker: PickerView },
    ConfirmCartDelete,
    DownloadInput { input: LocalPathInputView },
    UploadInput { input: LocalPathInputView },
    DownloadView,
    OfflineInput { value: Chars },
    SaveShareInput { value: Chars },
    OfflineTasksView { tasks: Seq<OfflineTask>, selected: usize },
    InfoLoading,
    InfoView {
        request_id: u64,
        target_id: Chars,
        info: FileInfoView,
        image: Option<ImageHandle>,
        has_thumbnail: bool,
    },
    InfoFolderView { name: Chars, entries: Seq<Entry> },
    TextPreviewView { name: Chars, lines: Seq<LineView>, truncated: bool },
    ConfirmPlay { name: Chars, url: Chars },
    PlayPicker { name: Chars, medias: Seq<PlayOptionView>, selected: usize },
    PlayerInput { value: Chars, pending_url: Chars },
    TrashView { entries: Seq<Entry>, selected: usize, expanded: bool },
    SharePrompt,
    ShareCreatedView { shares: Seq<(Chars, Chars, Chars)> },
    MySharesView { shares: Seq<MyShare>, selected: usize, confirm_delete: Option<Chars> },
    ConfirmQuit,
    GotoPath { query: Chars },
    Settings { selected: usize, editing: bool, draft: ConfigView, modified: bool },
    ConfirmDiscardSettings { selected: usize, draft: ConfigView },
    CustomColorSettings {
        selected: usize,
        draft: ConfigView,
        modified: bool,
        editing_rgb: bool,
        rgb_input: Chars,
        rgb_component: usize,
    },
    ImageProtocolSettings {
        selected: usize,
        draft: ConfigView,
        modified: bool,
        current_terminal: Chars,
        terminals: Seq<Chars>,
    },
}

impl View for InputMode {
    type V = ModeView;

    open spec fn view(&self) -> ModeView {
        match self {
            InputMode::Login { field, email, password, error, logging_in } => ModeView::Login {
                field: *field,
                email: email@,
                password: password@,
                error: opt_text(*error),
                logging_in: *logging_in,
            },
            InputMode::Normal => ModeView::Normal,
            InputMode::ActionMenu { selected } => ModeView::ActionMenu { selected: *selected },
            InputMode::Rename { value } => ModeView::Rename { value: value@ },
            InputMode::Mkdir { value } => ModeView::Mkdir { value: value@ },
            InputMode::ConfirmDelete => ModeView::ConfirmDelete,
            InputMode::ConfirmPermanentDelete { value } => ModeView::ConfirmPermanentDelete {
                value: value@,
            },
            InputMode::MoveInput { source, input } => ModeView::MoveInput {
                source: *source,
                input: input@,
            },
            InputMode::CopyInput { source, input } => ModeView::CopyInput {
                source: *source,
                input: input@,
            },
            InputMode::MovePicker { source, picker } => ModeView::MovePicker {
                source: *source,
                picker: picker@,
            },
            InputMode::CopyPicker { source, picker } => ModeView::CopyPicker {
                source: *source,
                picker: picker@,
            },
            InputMode::CartView => ModeView::CartView,
            InputMode::CartMoveInput { input } => ModeView::CartMoveInput { input: input@ },
            InputMode::CartCopyInput { input } => ModeView::CartCopyInput { input: input@ },
            InputMode::CartMovePicker { picker } => ModeView::CartMovePicker { picker: picker@ },
            InputMode::CartCopyPicker { picker } => ModeView::CartCopyPicker { picker: picker@ },
            InputMode::ConfirmCartDelete => ModeView::ConfirmCartDelete,
            InputMode::DownloadInput { input } => ModeView::DownloadInput { input: input@ },
            InputMode::UploadInput { input } => ModeView::UploadInput { input: input@ },
            InputMode::DownloadView => ModeView::DownloadView,
            InputMode::OfflineInput { value } => ModeView::OfflineInput { value: value@ },
            InputMode::SaveShareInput { value } => ModeView::SaveShareInput { value: value@ },
            InputMode::OfflineTasksView { tasks, selected } => ModeView::OfflineTasksView {
                tasks: tasks@,
                selected: *selected,
            },
            InputMode::InfoLoading => ModeView::InfoLoading,
            InputMode::InfoView { request_id, target_id, info, image, has_thumbnail } =>
                ModeView::InfoView {
                request_id: *request_id,
                target_id: target_id@,
                info: info@,
                image: *image,
                has_thumbnail: *has_thumbnail,
            },
            InputMode::InfoFolderView { name, entries } => ModeView::InfoFolderView {
                name: name@,
                entries: entries@,
            },
            InputMode::TextPreviewView { name, lines, truncated } => ModeView::TextPreviewView {
                name: name@,
                lines: lines_view(lines@),
                truncated: *truncated,
            },
            InputMode::ConfirmPlay { name, url } => ModeView::ConfirmPlay {
                name: name@,
                url: url@,
            },
            InputMode::PlayPicker { name, medias, selected } => ModeView::PlayPicker {
                name: name@,
                medias: options_view(medias@),
                selected: *selected,
            },
            InputMode::PlayerInput { value, pending_url } => ModeView::PlayerInput {
                value: value@,
                pending_url: pending_url@,
            },
            InputMode::TrashView { entries, selected, expanded } => ModeView::TrashView {
                entries: entries@,
                selected: *selected,
                expanded: *expanded,
            },
            InputMode::SharePrompt => ModeView::SharePrompt,
            InputMode::ShareCreatedView { shares } => ModeView::ShareCreatedView {
                shares: shares_view(shares@),
            },
            InputMode::MySharesView { shares, selected, confirm_delete } =>
                ModeView::MySharesView {
                shares: shares@,
                selected: *selected,
                confirm_delete: opt_text(*confirm_delete),
            },
            InputMode::ConfirmQuit => ModeView::ConfirmQuit,
            InputMode::GotoPath { query } => ModeView::GotoPath { query: query@ },
            InputMode::Settings { selected, editing, draft, modified } => ModeView::Settings {
                selected: *selected,
                editing: *editing,
                draft: draft@,
                modified: *modified,
            },
            InputMode::ConfirmDiscardSettings { selected, draft } =>
                ModeView::ConfirmDiscardSettings { selected: *selected, draft: draft@ },
            InputMode::CustomColorSettings {
                selected,
                draft,
                modified,
                editing_rgb,
                rgb_input,
                rgb_component,
            } => ModeView::CustomColorSettings {
                selected: *selected,
                draft: draft@,
                modified: *modified,
                editing_rgb: *editing_rgb,
                rgb_input: rgb_input@,
                rgb_component: *rgb_component,
            },
            InputMode::ImageProtocolSettings {
                selected,
                draft,
                modified,
                current_terminal,
                terminals,
            } => ModeView::ImageProtocolSettings {
                selected: *selected,
                draft: draft@,
                modified: *modified,
                current_terminal: current_terminal@,
                terminals: texts(terminals@),
            },
        }
    }
}

#[derive(Clone, Copy, Debug, PartialEq, Eq, Structural)]
pub enum StatusKind {
    Info,
    Warning,
    Error,
}

/// The message shown at the bottom for a few seconds.
#[derive(Debug)]
pub struct StatusMessage {
    pub text: String,
    pub kind: StatusKind,
    pub expires_at: u64,
}

pub struct StatusView {
    pub text: Chars,
    pub kind: StatusKind,
    pub expires_at: u64,
}

pub open spec fn opt_status(o: Option<StatusMessage>) -> Option<StatusView> {
    match o {
        Some(s) => Some(
            StatusView { text: s.text@, kind: s.kind, expires_at: s.expires_at },
        ),
        None => None,
    }
}

} // verus!
