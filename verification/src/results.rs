//! What the replies to requests do to the interface. A reply counts only while the request that
//! it answers is the newest of its sort; any other one is ignored.

use crate::app::{clamp_index, clamped, entry_at, path_text, App, AppView};
use crate::effect::{CopySource, Effect, EffectView, OpResult, PathCompletion};
use crate::folder_listing_matches;
use crate::highlight::{highlight_content, highlighted, HighlightAssets};
use crate::model::{
    clone_entries, find_entry, options_view, position_of, shares_view, AsyncRequest, Entry,
    FileInfo, ImageHandle, InputMode, LoginField, ModeView, MyShare, OfflineTask, PathInput,
    PathInputView, PickerState, PickerView, PlayOption, PreviewState, PreviewView, RequestView,
};
use crate::style::{clone_lines, lines_view, Line, LineView};
use crate::text::{cat2, cat5, opt_text, parse_number, parsed, str_eq, text_pairs, texts, Chars};
use syntect::highlighting::Theme;
use syntect::parsing::SyntaxSet;
use vstd::prelude::*;

verus! {

/// Where the cursor goes when a listing is replaced: to the entry that it was on, or near to where
/// it was.
pub open spec fn kept_selection(old_entries: Seq<Entry>, selected: usize, new: Seq<Entry>) -> usize {
    match entry_at(old_entries, selected) {
        Some(e) => match find_entry(new, e.id@) {
            Some(i) => i as usize,
            None => clamped(selected, new.len()),
        },
        None => clamped(selected, new.len()),
    }
}

fn keep_selection(old_entries: &Vec<Entry>, selected: usize, new: &Vec<Entry>) -> (r: usize)
    ensures
        r == kept_selection(old_entries@, selected, new@),
{
    if selected < old_entries.len() {
        if let Some(i) = position_of(new, &old_entries[selected].id) {
            return i;
        }
    }
    clamp_index(selected, new.len())
}

/// The first of two optional links that is not empty.
pub open spec fn first_link(a: Option<Chars>, b: Option<Chars>) -> Option<Chars> {
    if a is Some && a->0.len() > 0 {
        a
    } else if b is Some && b->0.len() > 0 {
        b
    } else {
        None
    }
}

fn pick_link(a: &Option<String>, b: Option<String>) -> (r: Option<String>)
    ensures
        opt_text(r) == first_link(opt_text(*a), opt_text(b)),
{
    if let Some(u) = a {
        if !u.as_str().is_empty() {
            return Some(u.clone());
        }
    }
    if let Some(u) = b {
        if !u.as_str().is_empty() {
            return Some(u);
        }
    }
    None
}

/// An optional text, or the empty one.
pub open spec fn text_or_empty(o: Option<Chars>) -> Chars {
    match o {
        Some(t) => t,
        None => Seq::empty(),
    }
}

fn take_text(o: &mut Option<String>) -> (r: String)
    ensures
        *final(o) is None,
        r@ == text_or_empty(opt_text(*old(o))),
{
    match o.take() {
        Some(t) => t,
        None => {
            let none: String = String::new();
            assert(none@ =~= Seq::<char>::empty());
            none
        },
    }
}

/// The link that a file is played from: its web link, else its plain download link.
pub open spec fn play_link(info: crate::model::FileInfoView) -> Chars {
    match info.web_content_link {
        Some(u) => u,
        None => text_or_empty(info.octet_link),
    }
}

fn playback_link(info: &FileInfo) -> (r: String)
    ensures
        r@ == play_link(info@),
{
    match &info.web_content_link {
        Some(u) => u.clone(),
        None => match &info.octet_link {
            Some(u) => u.clone(),
            None => {
                let none: String = String::new();
                assert(none@ =~= Seq::<char>::empty());
                none
            },
        },
    }
}

/// The index of the first stream from `i` on that can be played, or 0.
pub open spec fn first_available(v: Seq<PlayOption>, i: int) -> int
    decreases v.len() - i,
{
    if 0 <= i < v.len() {
        if v[i].available {
            i
        } else {
            first_available(v, i + 1)
        }
    } else {
        0
    }
}

fn find_available(v: &Vec<PlayOption>) -> (r: usize)
    ensures
        r == first_available(v@, 0),
{
    let mut i: usize = 0;
    while i < v.len()
        invariant
            i <= v.len(),
            first_available(v@, 0) == first_available(v@, i as int),
        decreases v.len() - i,
    {
        if v[i].available {
            return i;
        }
        i += 1;
    }
    0
}

/// The picker of a mode that has one.
pub open spec fn mode_picker(m: ModeView) -> Option<PickerView> {
    match m {
        ModeView::MovePicker { picker, .. } => Some(picker),
        ModeView::CopyPicker { picker, .. } => Some(picker),
        ModeView::CartMovePicker { picker } => Some(picker),
        ModeView::CartCopyPicker { picker } => Some(picker),
        _ => None,
    }
}

/// The mode with another picker.
pub open spec fn with_picker(m: ModeView, p: PickerView) -> ModeView {
    match m {
        ModeView::MovePicker { source, .. } => ModeView::MovePicker { source, picker: p },
        ModeView::CopyPicker { source, .. } => ModeView::CopyPicker { source, picker: p },
        ModeView::CartMovePicker { .. } => ModeView::CartMovePicker { picker: p },
        ModeView::CartCopyPicker { .. } => ModeView::CartCopyPicker { picker: p },
        _ => m,
    }
}

/// Whether a picker waits for this very listing.
pub open spec fn picker_waits(p: PickerView, request_id: u64, folder_id: Chars) -> bool {
    p.folder_id == folder_id && p.listing_request_id == request_id
}

/// A picker after its listing came in.
pub open spec fn picker_listed(p: PickerView, result: Result<Vec<Entry>, String>) -> PickerView {
    match result {
        Ok(v) => PickerView { entries: v@, loading: false, ..p },
        Err(_) => PickerView { loading: false, ..p },
    }
}

/// The mode after a picker listing came in.
pub open spec fn mode_listed(
    m: ModeView,
    request_id: u64,
    folder_id: Chars,
    result: Result<Vec<Entry>, String>,
) -> ModeView {
    match mode_picker(m) {
        Some(p) => if picker_waits(p, request_id, folder_id) {
            with_picker(m, picker_listed(p, result))
        } else {
            m
        },
        None => m,
    }
}

/// The error that a picker listing brings to a mode that waits for it.
pub open spec fn listing_error(
    m: ModeView,
    request_id: u64,
    folder_id: Chars,
    result: Result<Vec<Entry>, String>,
) -> Option<Chars> {
    match mode_picker(m) {
        Some(p) => if picker_waits(p, request_id, folder_id) {
            match result {
                Ok(_) => None,
                Err(e) => Some(e@),
            }
        } else {
            None
        },
        None => None,
    }
}

fn list_in_picker(
    p: PickerState,
    request_id: u64,
    folder_id: &String,
    result: Result<Vec<Entry>, String>,
) -> (r: (PickerState, Option<String>))
    ensures
        r.0@ == (if picker_waits(p@, request_id, folder_id@) {
            picker_listed(p@, result)
        } else {
            p@
        }),
        opt_text(r.1) == (if picker_waits(p@, request_id, folder_id@) {
            match result {
                Ok(_) => None,
                Err(e) => Some(e@),
            }
        } else {
            None
        }),
{
    if p.folder_id == *folder_id && p.listing_request_id == request_id {
        let mut q: PickerState = p;
        q.loading = false;
        match result {
            Ok(v) => {
                q.entries = v;
                (q, None)
            },
            Err(e) => (q, Some(e)),
        }
    } else {
        (p, None)
    }
}

fn list_in_mode(
    m: InputMode,
    request_id: u64,
    folder_id: &String,
    result: Result<Vec<Entry>, String>,
) -> (r: (InputMode, Option<String>))
    ensures
        r.0@ == mode_listed(m@, request_id, folder_id@, result),
        opt_text(r.1) == listing_error(m@, request_id, folder_id@, result),
{
    match m {
        InputMode::MovePicker { source, picker } => {
            let (picker, e) = list_in_picker(picker, request_id, folder_id, result);
            (InputMode::MovePicker { source, picker }, e)
        },
        InputMode::CopyPicker { source, picker } => {
            let (picker, e) = list_in_picker(picker, request_id, folder_id, result);
            (InputMode::CopyPicker { source, picker }, e)
        },
        InputMode::CartMovePicker { picker } => {
            let (picker, e) = list_in_picker(picker, request_id, folder_id, result);
            (InputMode::CartMovePicker { picker }, e)
        },
        InputMode::CartCopyPicker { picker } => {
            let (picker, e) = list_in_picker(picker, request_id, folder_id, result);
            (InputMode::CartCopyPicker { picker }, e)
        },
        other => (other, None),
    }
}

/// The path input of a mode that has one.
pub open spec fn mode_input(m: ModeView) -> Option<PathInputView> {
    match m {
        ModeView::MoveInput { input, .. } => Some(input),
        ModeView::CopyInput { input, .. } => Some(input),
        ModeView::CartMoveInput { input } => Some(input),
        ModeView::CartCopyInput { input } => Some(input),
        _ => None,
    }
}

/// The mode with another path input.
pub open spec fn with_input(m: ModeView, i: PathInputView) -> ModeView {
    match m {
        ModeView::MoveInput { source, .. } => ModeView::MoveInput { source, input: i },
        ModeView::CopyInput { source, .. } => ModeView::CopyInput { source, input: i },
        ModeView::CartMoveInput { .. } => ModeView::CartMoveInput { input: i },
        ModeView::CartCopyInput { .. } => ModeView::CartCopyInput { input: i },
        _ => m,
    }
}

/// Whether a path input still waits for this completion. The request protects a newly opened
/// dialog from the answer to an older one; text and folder protect later edits and navigation.
pub open spec fn input_waits(
    i: PathInputView,
    request_id: u64,
    value: Chars,
    here: Chars,
    folder_context: Chars,
) -> bool {
    i.pending_request_id == Some(request_id) && i.value == value && here == folder_context
}

/// A path input with a completion taken over.
pub open spec fn input_completed(c: PathCompletion) -> PathInputView {
    PathInputView {
        value: c.value@,
        candidates: c.candidates@,
        candidate_idx: c.candidate_idx,
        pending_request_id: None,
    }
}

/// Whether a mode takes a completion over.
pub open spec fn takes_completion(
    m: ModeView,
    request_id: u64,
    value: Chars,
    here: Chars,
    folder_context: Chars,
) -> bool {
    match mode_input(m) {
        Some(i) => input_waits(i, request_id, value, here, folder_context),
        None => false,
    }
}

fn input_wants(i: &PathInput, request_id: u64, value: &String, same_folder: bool) -> (r: bool)
    ensures
        r == (i@.pending_request_id == Some(request_id) && i@.value == value@ && same_folder),
{
    match i.pending_request_id {
        Some(id) => id == request_id && i.value == *value && same_folder,
        None => false,
    }
}

fn mode_wants(
    m: &InputMode,
    request_id: u64,
    value: &String,
    here: &String,
    folder_context: &String,
) -> (r: bool)
    ensures
        r == takes_completion(m@, request_id, value@, here@, folder_context@),
{
    let same: bool = *here == *folder_context;
    match m {
        InputMode::MoveInput { source: _, input } => input_wants(input, request_id, value, same),
        InputMode::CopyInput { source: _, input } => input_wants(input, request_id, value, same),
        InputMode::CartMoveInput { input } => input_wants(input, request_id, value, same),
        InputMode::CartCopyInput { input } => input_wants(input, request_id, value, same),
        _ => false,
    }
}

fn complete_mode(m: InputMode, c: PathCompletion) -> (r: InputMode)
    ensures
        r@ == with_input(m@, input_completed(c)),
{
    let input: PathInput = PathInput {
        value: c.value,
        candidates: c.candidates,
        candidate_idx: c.candidate_idx,
        pending_request_id: None,
    };
    match m {
        InputMode::MoveInput { source, input: _ } => InputMode::MoveInput { source, input },
        InputMode::CopyInput { source, input: _ } => InputMode::CopyInput { source, input },
        InputMode::CartMoveInput { input: _ } => InputMode::CartMoveInput { input },
        InputMode::CartCopyInput { input: _ } => InputMode::CartCopyInput { input },
        other => other,
    }
}

/// A number that the drive wrote as text.
pub open spec fn quota_number(o: Option<String>) -> Option<u64> {
    match o {
        Some(s) => match parsed(s@, u64::MAX as nat) {
            Some(n) => Some(n as u64),
            None => None,
        },
        None => None,
    }
}

fn read_number(o: Option<String>) -> (r: Option<u64>)
    ensures
        r == quota_number(o),
{
    match o {
        Some(s) => parse_number(s.as_str(), u64::MAX),
        None => None,
    }
}

/// Whether the trash is spread out, in a mode that shows it.
pub open spec fn trash_spread(m: ModeView, otherwise: bool) -> bool {
    match m {
        ModeView::TrashView { expanded, .. } => expanded,
        _ => otherwise,
    }
}

fn trash_is_spread(m: &InputMode, otherwise: bool) -> (r: bool)
    ensures
        r == trash_spread(m@, otherwise),
{
    match m {
        InputMode::TrashView { entries: _, selected: _, expanded } => *expanded,
        _ => otherwise,
    }
}

/// The selected share, in a mode that shows the shares.
pub open spec fn share_cursor(m: ModeView, len: nat) -> usize {
    match m {
        ModeView::MySharesView { selected, .. } => clamped(selected, len),
        _ => 0,
    }
}

fn share_index(m: &InputMode, len: usize) -> (r: usize)
    ensures
        r == share_cursor(m@, len as nat),
{
    match m {
        InputMode::MySharesView { shares: _, selected, confirm_delete: _ } => clamp_index(
            *selected,
            len,
        ),
        _ => 0,
    }
}

/// The shares that were just made, with one more.
pub open spec fn shares_with(m: ModeView, share: (Chars, Chars, Chars)) -> ModeView {
    match m {
        ModeView::ShareCreatedView { shares } => ModeView::ShareCreatedView {
            shares: shares.push(share),
        },
        _ => ModeView::ShareCreatedView { shares: seq![share] },
    }
}

fn add_share(m: InputMode, share: (String, String, String)) -> (r: InputMode)
    ensures
        r@ == shares_with(m@, (share.0@, share.1@, share.2@)),
{
    match m {
        InputMode::ShareCreatedView { shares } => {
            let mut list: Vec<(String, String, String)> = shares;
            list.push(share);
            assert(shares_view(list@) =~= shares_view(shares@).push(
                (share.0@, share.1@, share.2@),
            ));
            InputMode::ShareCreatedView { shares: list }
        },
        _ => {
            let mut list: Vec<(String, String, String)> = Vec::new();
            list.push(share);
            assert(shares_view(list@) =~= seq![(share.0@, share.1@, share.2@)]);
            InputMode::ShareCreatedView { shares: list }
        },
    }
}

/// Whether a mode shows the details that a request asked for.
pub open spec fn shows_info(m: ModeView, request: RequestView) -> bool {
    match m {
        ModeView::InfoView { request_id, target_id, .. } => request_id == request.id && target_id
            == request.target,
        _ => false,
    }
}

fn info_is_shown(m: &InputMode, request: &AsyncRequest) -> (r: bool)
    ensures
        r == shows_info(m@, request@),
{
    match m {
        InputMode::InfoView { request_id, target_id, info: _, image: _, has_thumbnail: _ } =>
            *request_id == request.id && *target_id == request.target,
        _ => false,
    }
}

/// The details with their picture.
pub open spec fn with_image(m: ModeView, img: ImageHandle) -> ModeView {
    match m {
        ModeView::InfoView { request_id, target_id, info, has_thumbnail, .. } =>
            ModeView::InfoView {
            request_id,
            target_id,
            info,
            image: Some(img),
            has_thumbnail,
        },
        _ => m,
    }
}

fn put_image(m: InputMode, img: ImageHandle) -> (r: InputMode)
    ensures
        r@ == with_image(m@, img),
{
    match m {
        InputMode::InfoView { request_id, target_id, info, image: _, has_thumbnail } =>
            InputMode::InfoView {
            request_id,
            target_id,
            info,
            image: Some(img),
            has_thumbnail,
        },
        other => other,
    }
}

impl AppView {
    pub open spec fn without_modal(self) -> AppView {
        AppView { modal_request: None, ..self }
    }

    pub open spec fn without_preview_request(self) -> AppView {
        AppView { preview_request: None, ..self }
    }

    pub open spec fn showing(self, preview_state: PreviewView) -> AppView {
        AppView { preview_state, ..self }
    }

    /// Whether a reply is awaited in the dialog that waits for details.
    pub open spec fn awaits_in_dialog(self, request: RequestView) -> bool {
        self.modal_matches(request) && self.input is InfoLoading
    }

    /// Whether a reply is awaited while the main pane is in use.
    pub open spec fn awaits_in_main(self, request: RequestView) -> bool {
        self.modal_matches(request) && self.input is Normal
    }

    pub open spec fn dialog_ended(self) -> AppView {
        self.without_modal().finished_loading()
    }

    pub open spec fn with_listing(self, v: Seq<Entry>) -> AppView {
        AppView {
            selected: kept_selection(self.entries, self.selected, v),
            entries: v,
            ..self
        }
    }

    #[verifier::opaque]
    pub open spec fn main_listed(
        self,
        request_id: u64,
        folder_id: Chars,
        result: Result<Vec<Entry>, String>,
    ) -> AppView {
        if !(self.current_folder_id == folder_id && self.main_listing_request_id == request_id) {
            self
        } else {
            match result {
                Ok(v) => self.finished_loading().with_listing(v@).logged(
                    "Refreshed "@ + path_text(self.breadcrumb),
                ).cursor_moved(),
                Err(e) => self.finished_loading().logged("Refresh failed: "@ + e@),
            }
        }
    }

    /// With the details of a file opened, and its picture asked for where it has one.
    pub open spec fn info_opened(
        self,
        request: RequestView,
        info: crate::model::FileInfoView,
        url: Option<Chars>,
    ) -> AppView {
        let a = self.in_mode(
            ModeView::InfoView {
                request_id: request.id,
                target_id: request.target,
                info,
                image: None,
                has_thumbnail: url is Some,
            },
        );
        match url {
            Some(u) => a.asking(
                EffectView::FetchThumbnail { request, url: u, for_info: true },
            ),
            None => a.without_modal(),
        }
    }

    #[verifier::opaque]
    pub open spec fn info_came(
        self,
        request: RequestView,
        result: Result<FileInfo, String>,
        fallback: Option<Chars>,
    ) -> AppView {
        if !self.awaits_in_dialog(request) {
            self
        } else {
            match result {
                Ok(info) => self.finished_loading().info_opened(
                    request,
                    info@,
                    first_link(info@.thumbnail_link, fallback),
                ),
                Err(e) => self.dialog_ended().in_mode(ModeView::Normal).logged(
                    "File info failed: "@ + e@,
                ),
            }
        }
    }

    pub open spec fn awaits_parent(self, request: RequestView) -> bool {
        self.parent_listing_request == Some(request) && self.breadcrumb.len() > 0
            && self.breadcrumb.last().0 == request.target
    }

    pub open spec fn with_parent(self, v: Seq<Entry>) -> AppView {
        AppView {
            parent_listing_request: None,
            parent_entries: v,
            parent_selected: match find_entry(v, self.current_folder_id) {
                Some(i) => i as usize,
                None => self.parent_selected,
            },
            ..self
        }
    }

    #[verifier::opaque]
    pub open spec fn parent_listed(
        self,
        request: RequestView,
        result: Result<Vec<Entry>, String>,
    ) -> AppView {
        if !self.awaits_parent(request) {
            self
        } else {
            match result {
                Ok(v) => self.with_parent(v@),
                Err(e) => AppView { parent_listing_request: None, ..self }.logged(
                    "Parent listing failed: "@ + e@,
                ),
            }
        }
    }

    /// With the contents of a folder opened.
    pub open spec fn folder_opened(self, target: Chars, v: Seq<Entry>) -> AppView {
        AppView {
            preview_target_name: None,
            preview_state: PreviewView::FolderListing(v),
            preview_target_id: Some(target),
            input: ModeView::InfoFolderView {
                name: text_or_empty(self.preview_target_name),
                entries: v,
            },
            ..self
        }
    }

    #[verifier::opaque]
    pub open spec fn folder_preview_came(
        self,
        request: RequestView,
        result: Result<Vec<Entry>, String>,
    ) -> AppView {
        if self.awaits_in_dialog(request) {
            match result {
                Ok(v) => self.dialog_ended().folder_opened(request.target, v@),
                Err(e) => self.dialog_ended().in_mode(ModeView::Normal).logged(
                    "Folder listing failed: "@ + e@,
                ),
            }
        } else if self.preview_matches(request) {
            match result {
                Ok(v) => self.without_preview_request().showing(PreviewView::FolderListing(v@)),
                Err(e) => self.without_preview_request().showing(PreviewView::Empty).logged(
                    "Folder listing failed: "@ + e@,
                ),
            }
        } else {
            self
        }
    }

    #[verifier::opaque]
    pub open spec fn preview_info_came(
        self,
        request: RequestView,
        result: Result<FileInfo, String>,
    ) -> AppView {
        if !self.preview_matches(request) {
            self
        } else {
            match result {
                Ok(info) => self.without_preview_request().showing(
                    PreviewView::FileDetailedInfo(info@),
                ),
                Err(e) => self.without_preview_request().showing(PreviewView::Empty).logged(
                    "Preview info failed: "@ + e@,
                ),
            }
        }
    }

    /// With a text preview opened over the main pane.
    pub open spec fn text_opened(
        self,
        target: Chars,
        name: Chars,
        lines: Seq<LineView>,
        size: u64,
        truncated: bool,
    ) -> AppView {
        AppView {
            input: ModeView::TextPreviewView { name, lines, truncated },
            preview_state: PreviewView::FileTextPreview { name, lines, size, truncated },
            preview_target_id: Some(target),
            ..self
        }
    }

    #[verifier::opaque]
    pub open spec fn text_preview_came(
        self,
        request: RequestView,
        result: Result<(String, String, u64, bool), String>,
        set: SyntaxSet,
        theme: Theme,
    ) -> AppView {
        if self.awaits_in_dialog(request) {
            match result {
                Ok(t) => self.dialog_ended().text_opened(
                    request.target,
                    t.0@,
                    highlighted(t.0@, t.1@, set, theme),
                    t.2,
                    t.3,
                ),
                Err(e) => self.dialog_ended().in_mode(ModeView::Normal).logged(
                    "Text preview failed: "@ + e@,
                ),
            }
        } else if self.preview_matches(request) {
            match result {
                Ok(t) => self.without_preview_request().showing(
                    PreviewView::FileTextPreview {
                        name: t.0@,
                        lines: highlighted(t.0@, t.1@, set, theme),
                        size: t.2,
                        truncated: t.3,
                    },
                ),
                Err(e) => self.without_preview_request().showing(
                    PreviewView::FileBasicInfo,
                ).logged("Text preview failed: "@ + e@),
            }
        } else {
            self
        }
    }

    #[verifier::opaque]
    pub open spec fn thumbnail_came(
        self,
        request: RequestView,
        result: Result<ImageHandle, String>,
    ) -> AppView {
        if !self.preview_matches(request) {
            self
        } else {
            match result {
                Ok(image) => self.without_preview_request().showing(
                    PreviewView::ThumbnailImage { image },
                ),
                Err(e) => self.without_preview_request().showing(
                    PreviewView::FileBasicInfo,
                ).logged("Thumbnail preview failed: "@ + e@),
            }
        }
    }

    #[verifier::opaque]
    pub open spec fn offline_tasks_came(
        self,
        request: RequestView,
        result: Result<Vec<OfflineTask>, String>,
    ) -> AppView {
        if !self.awaits_in_dialog(request) {
            self
        } else {
            match result {
                Ok(v) => self.dialog_ended().in_mode(
                    ModeView::OfflineTasksView { tasks: v@, selected: 0 },
                ),
                Err(e) => self.dialog_ended().in_mode(ModeView::Normal).logged(
                    "Failed to load offline tasks: "@ + e@,
                ),
            }
        }
    }

    #[verifier::opaque]
    pub open spec fn play_info_came(
        self,
        request: RequestView,
        result: Result<FileInfo, String>,
    ) -> AppView {
        if !self.awaits_in_main(request) {
            self
        } else {
            match result {
                Ok(info) => if play_link(info@).len() == 0 {
                    self.dialog_ended().logged("No playback URL available"@)
                } else {
                    self.dialog_ended().in_mode(
                        ModeView::ConfirmPlay { name: info@.name, url: play_link(info@) },
                    )
                },
                Err(e) => self.dialog_ended().logged("Play info failed: "@ + e@),
            }
        }
    }

    #[verifier::opaque]
    pub open spec fn play_options_came(
        self,
        request: RequestView,
        result: Result<(FileInfo, Vec<PlayOption>), String>,
    ) -> AppView {
        if !self.awaits_in_main(request) {
            self
        } else {
            match result {
                Ok(t) => if t.1@.len() == 0 {
                    self.dialog_ended().logged("No playback streams available"@)
                } else {
                    self.dialog_ended().in_mode(
                        ModeView::PlayPicker {
                            name: t.0@.name,
                            medias: options_view(t.1@),
                            selected: first_available(t.1@, 0) as usize,
                        },
                    )
                },
                Err(e) => self.dialog_ended().logged("Play picker info failed: "@ + e@),
            }
        }
    }

    /// With the trash opened on a listing, the cursor near to where it was.
    pub open spec fn trash_shown(self, v: Seq<Entry>) -> AppView {
        let selected = clamped(self.trash_selected, v.len());
        let expanded = trash_spread(self.input, self.trash_expanded);
        AppView {
            trash_entries: v,
            trash_selected: selected,
            trash_expanded: expanded,
            input: ModeView::TrashView { entries: v, selected, expanded },
            ..self
        }
    }

    pub open spec fn trash_left(self) -> AppView {
        if self.input is TrashView {
            self.in_mode(ModeView::Normal)
        } else {
            self
        }
    }

    #[verifier::opaque]
    pub open spec fn trash_listed(self, result: Result<Vec<Entry>, String>) -> AppView {
        match result {
            Ok(v) => self.finished_loading().trash_shown(v@),
            Err(e) => self.finished_loading().trash_left().logged(
                "Failed to load trash: "@ + e@,
            ),
        }
    }

    #[verifier::opaque]
    pub open spec fn info_thumbnail_came(
        self,
        request: RequestView,
        result: Result<ImageHandle, String>,
    ) -> AppView {
        if !(self.modal_matches(request) && shows_info(self.input, request)) {
            self
        } else {
            match result {
                Ok(img) => self.in_mode(with_image(self.input, img)).without_modal(),
                Err(e) => self.without_modal().logged("Info thumbnail failed: "@ + e@),
            }
        }
    }

    /// With another folder entered, and nothing shown of the one before.
    pub open spec fn placed_in(self, folder_id: Chars, crumbs: Seq<(Chars, Chars)>) -> AppView {
        AppView {
            breadcrumb: crumbs,
            current_folder_id: folder_id,
            selected: 0,
            parent_entries: Seq::empty(),
            parent_selected: 0,
            ..self
        }
    }

    pub open spec fn is_loading(self) -> AppView {
        AppView { loading: true, ..self }
    }

    #[verifier::opaque]
    pub open spec fn goto_came(
        self,
        request: RequestView,
        result: Result<(String, Vec<(String, String)>), String>,
    ) -> AppView {
        if !self.awaits_in_main(request) {
            self
        } else {
            match result {
                Ok(t) => self.dialog_ended().placed_in(
                    t.0@,
                    text_pairs(t.1@),
                ).parent_refreshed().preview_cleared().is_loading().main_requested(t.0@),
                Err(e) => self.dialog_ended().logged("Go to path failed: "@ + e@),
            }
        }
    }

    #[verifier::opaque]
    pub open spec fn quota_came(
        self,
        result: Result<Option<(Option<String>, Option<String>)>, String>,
    ) -> AppView {
        match result {
            Ok(Some(q)) => AppView {
                quota_used: quota_number(q.0),
                quota_limit: quota_number(q.1),
                ..self
            },
            Ok(None) => self,
            Err(e) => self.logged("Quota fetch failed: "@ + e@),
        }
    }

    #[verifier::opaque]
    pub open spec fn upload_ended(self, result: Result<String, String>) -> AppView {
        match result {
            Ok(msg) => self.finished_loading().logged(msg@).refreshed(),
            Err(e) => self.finished_loading().logged("Upload failed: "@ + e@),
        }
    }

    /// With a new share among those that are shown, and its link on its way to the clipboard.
    #[verifier::opaque]
    pub open spec fn share_made(self, title: Chars, url: Chars, pass_code: Chars) -> AppView {
        let a = self.logged("Share created: "@ + url);
        a.in_mode(shares_with(a.input, (title, url, pass_code))).asking(
            EffectView::WriteClipboard { text: url, source: CopySource::NewShare },
        )
    }

    pub open spec fn shares_shown(self, v: Seq<MyShare>) -> AppView {
        AppView {
            shares_pending: false,
            input: ModeView::MySharesView {
                shares: v,
                selected: share_cursor(self.input, v.len()),
                confirm_delete: None,
            },
            ..self
        }
    }

    pub open spec fn shares_left(self) -> AppView {
        if self.input is MySharesView {
            self.in_mode(ModeView::Normal)
        } else {
            self
        }
    }

    #[verifier::opaque]
    pub open spec fn shares_came(self, result: Result<Vec<MyShare>, String>) -> AppView {
        match result {
            Ok(v) => if self.shares_pending || self.input is MySharesView {
                self.finished_loading().shares_shown(v@)
            } else {
                self.finished_loading()
            },
            Err(e) => AppView { shares_pending: false, ..self.finished_loading() }.logged(
                "Failed to load shares: "@ + e@,
            ).shares_left(),
        }
    }

    #[verifier::opaque]
    pub open spec fn update_came(self, version: Option<Chars>) -> AppView {
        match version {
            Some(v) => AppView {
                update_available: Some(v),
                ..self.logged(
                    "Update available: v"@ + self.version + " \u{2192} v"@ + v
                        + " (run `pikpaktui update`)"@,
                )
            },
            None => self,
        }
    }

    #[verifier::opaque]
    pub open spec fn picker_listing_came(
        self,
        request_id: u64,
        folder_id: Chars,
        result: Result<Vec<Entry>, String>,
    ) -> AppView {
        let a = self.in_mode(mode_listed(self.input, request_id, folder_id, result));
        match listing_error(self.input, request_id, folder_id, result) {
            Some(e) => a.logged("Picker load failed: "@ + e),
            None => a,
        }
    }

    pub open spec fn completion_ended(self) -> AppView {
        AppView { path_completion_in_flight: None, ..self }
    }

    /// With a completion in the path input and the cursor behind it.
    pub open spec fn completion_taken(self, c: PathCompletion) -> AppView {
        AppView {
            input: with_input(self.input, input_completed(c)),
            text_cursor: usize::MAX,
            ..self
        }
    }

    #[verifier::opaque]
    pub open spec fn completion_came(
        self,
        request_id: u64,
        value: Chars,
        folder_context: Chars,
        completion: Option<PathCompletion>,
    ) -> AppView {
        if self.path_completion_in_flight != Some(request_id) {
            self
        } else {
            match completion {
                Some(c) => if takes_completion(
                    self.input,
                    request_id,
                    value,
                    self.current_folder_id,
                    folder_context,
                ) {
                    self.completion_ended().completion_taken(c)
                } else {
                    self.completion_ended()
                },
                None => self.completion_ended(),
            }
        }
    }

    #[verifier::opaque]
    pub open spec fn login_ended(
        self,
        email: Chars,
        password: Chars,
        result: Result<(), String>,
    ) -> AppView {
        match result {
            Ok(_) => self.asking(EffectView::AdoptSession { email, password }),
            Err(e) => self.in_mode(
                ModeView::Login {
                    field: LoginField::Email,
                    email,
                    password,
                    error: Some("Login failed: "@ + e@),
                    logging_in: false,
                },
            ),
        }
    }

    /// With a note about what went wrong, where something did.
    pub open spec fn noted(self, before: Chars, result: Result<(), String>) -> AppView {
        match result {
            Ok(_) => self,
            Err(e) => self.logged(before + e@),
        }
    }

    pub open spec fn session_taken(
        self,
        saved: Result<(), String>,
        rebuilt: Result<(), String>,
    ) -> AppView {
        self.noted("Warning: failed to save config: "@, saved).noted(
            "client rebuild failed: "@,
            rebuilt,
        ).in_mode(ModeView::Normal).refreshed().logged("Login successful"@)
    }

    /// The interface after a reply.
    pub open spec fn applied(self, r: OpResult, set: SyntaxSet, theme: Theme) -> AppView {
        match r {
            OpResult::Ls(id, folder, result) => self.main_listed(id, folder@, result),
            OpResult::Done(msg) => self.logged(msg@).refreshed(),
            OpResult::Failed(msg) => self.logged(msg@).finished_loading(),
            OpResult::Info(q, result, fallback) => self.info_came(q@, result, opt_text(fallback)),
            OpResult::ParentLs(q, result) => self.parent_listed(q@, result),
            OpResult::PreviewLs(q, result) => self.folder_preview_came(q@, result),
            OpResult::PreviewInfo(q, result) => self.preview_info_came(q@, result),
            OpResult::PreviewText(q, result) => self.text_preview_came(q@, result, set, theme),
            OpResult::PreviewThumbnail(q, result) => self.thumbnail_came(q@, result),
            OpResult::OfflineTasks(q, result) => self.offline_tasks_came(q@, result),
            OpResult::PlayInfo(q, result) => self.play_info_came(q@, result),
            OpResult::PlayPickerInfo(q, result) => self.play_options_came(q@, result),
            OpResult::TrashList(result) => self.trash_listed(result),
            OpResult::TrashOp(msg) => self.finished_loading().logged(msg@).trash_reopened(),
            OpResult::OfflineOp(msg) => self.logged(msg@).offline_tasks_opened(),
            OpResult::InfoThumbnail(q, result) => self.info_thumbnail_came(q@, result),
            OpResult::GotoPath(q, result) => self.goto_came(q@, result),
            OpResult::Quota(result) => self.quota_came(result),
            OpResult::Upload(result) => self.upload_ended(result),
            OpResult::ShareCreated { title, url, pass_code } => self.share_made(
                title@,
                url@,
                pass_code@,
            ),
            OpResult::MyShares(result) => self.shares_came(result),
            OpResult::UpdateAvailable(version) => self.update_came(opt_text(version)),
            OpResult::PickerLs(id, folder, result) => self.picker_listing_came(
                id,
                folder@,
                result,
            ),
            OpResult::PathCandidates { request_id, value, folder_context, completion } =>
                self.completion_came(request_id, value@, folder_context@, completion),
            OpResult::LoginDone { email, password, result } => self.login_ended(
                email@,
                password@,
                result,
            ),
        }
    }
}

impl AppView {
    /// The interface after the first `n` of several replies, in the order in which they came.
    pub open spec fn polled(self, results: Seq<OpResult>, n: int, set: SyntaxSet, theme: Theme) -> AppView
        decreases n,
    {
        if n <= 0 {
            self
        } else {
            self.polled(results, n - 1, set, theme).applied(results[n - 1], set, theme)
        }
    }
}

impl App {
    pub(crate) fn end_dialog(&mut self)
        ensures
            final(self)@ == old(self)@.dialog_ended(),
    {
        self.modal_request = None;
        self.finish_loading();
    }

    pub(crate) fn set_mode(&mut self, mode: InputMode)
        ensures
            final(self)@ == old(self)@.in_mode(mode@),
    {
        self.input = mode;
    }

    fn show_preview(&mut self, state: PreviewState)
        ensures
            final(self)@ == old(self)@.without_preview_request().showing(state@),
    {
        self.preview_request = None;
        self.preview_state = state;
    }

    fn fail_dialog(&mut self, before: &str, e: &str)
        ensures
            final(self)@ == old(self)@.dialog_ended().in_mode(ModeView::Normal).logged(
                before@ + e@,
            ),
    {
        self.end_dialog();
        self.set_mode(InputMode::Normal);
        self.push_log(cat2(before, e));
    }

    fn log_with(&mut self, before: &str, e: &str)
        ensures
            final(self)@ == old(self)@.logged(before@ + e@),
    {
        self.push_log(cat2(before, e));
    }

    fn awaited_in_dialog(&self, request: &AsyncRequest) -> (r: bool)
        ensures
            r == self@.awaits_in_dialog(request@),
    {
        let loading: bool = match &self.input {
            InputMode::InfoLoading => true,
            _ => false,
        };
        self.modal_request_matches(request) && loading
    }

    fn awaited_in_main(&self, request: &AsyncRequest) -> (r: bool)
        ensures
            r == self@.awaits_in_main(request@),
    {
        let normal: bool = match &self.input {
            InputMode::Normal => true,
            _ => false,
        };
        self.modal_request_matches(request) && normal
    }

    fn take_listing(&mut self, v: Vec<Entry>)
        ensures
            final(self)@ == old(self)@.with_listing(v@),
    {
        let i: usize = keep_selection(&self.entries, self.selected, &v);
        self.entries = v;
        self.selected = i;
    }

    fn apply_listing(&mut self, id: u64, folder: String, result: Result<Vec<Entry>, String>)
        ensures
            final(self)@ == old(self)@.main_listed(id, folder@, result),
    {
        reveal(AppView::main_listed);
        if !folder_listing_matches(
            self.current_folder_id.as_str(),
            self.main_listing_request_id,
            folder.as_str(),
            id,
        ) {
            return;
        }
        self.finish_loading();
        match result {
            Ok(v) => {
                let path: String = self.current_path_display();
                self.take_listing(v);
                self.log_with("Refreshed ", path.as_str());
                self.on_cursor_move();
                return;
            },
            Err(e) => {
                self.log_with("Refresh failed: ", e.as_str());
                return;
            },
        }
    }

    pub(crate) fn open_info(&mut self, request: AsyncRequest, info: FileInfo, url: Option<String>)
        ensures
            final(self)@ == old(self)@.info_opened(request@, info@, opt_text(url)),
    {
        let target_id: String = request.target.clone();
        let has_thumbnail: bool = url.is_some();
        let mode: InputMode = InputMode::InfoView {
            request_id: request.id,
            target_id,
            info,
            image: None,
            has_thumbnail,
        };
        self.set_mode(mode);
        match url {
            Some(u) => {
                self.spawn_thumbnail_fetch(u, request, true);
                return;
            },
            None => {
                self.modal_request = None;
                return;
            },
        }
    }

    fn apply_info(
        &mut self,
        request: AsyncRequest,
        result: Result<FileInfo, String>,
        fallback: Option<String>,
    )
        ensures
            final(self)@ == old(self)@.info_came(request@, result, opt_text(fallback)),
    {
        reveal(AppView::info_came);
        if !self.awaited_in_dialog(&request) {
            return;
        }
        match result {
            Ok(info) => {
                self.finish_loading();
                let url: Option<String> = pick_link(&info.thumbnail_link, fallback);
                self.open_info(request, info, url);
                return;
            },
            Err(e) => {
                self.fail_dialog("File info failed: ", e.as_str());
                return;
            },
        }
    }

    fn awaited_parent(&self, request: &AsyncRequest) -> (r: bool)
        ensures
            r == self@.awaits_parent(request@),
    {
        let n: usize = self.breadcrumb.len();
        match &self.parent_listing_request {
            Some(p) => p.same(request) && n > 0 && str_eq(
                self.breadcrumb[n - 1].0.as_str(),
                request.target.as_str(),
            ),
            None => false,
        }
    }

    fn take_parent(&mut self, v: Vec<Entry>)
        ensures
            final(self)@ == old(self)@.with_parent(v@),
    {
        let at: usize = match position_of(&v, &self.current_folder_id) {
            Some(i) => i,
            None => self.parent_selected,
        };
        self.parent_listing_request = None;
        self.parent_entries = v;
        self.parent_selected = at;
    }

    fn apply_parent(&mut self, request: AsyncRequest, result: Result<Vec<Entry>, String>)
        ensures
            final(self)@ == old(self)@.parent_listed(request@, result),
    {
        reveal(AppView::parent_listed);
        if !self.awaited_parent(&request) {
            return;
        }
        match result {
            Ok(v) => {
                self.take_parent(v);
                return;
            },
            Err(e) => {
                self.parent_listing_request = None;
                self.log_with("Parent listing failed: ", e.as_str());
                return;
            },
        }
    }

    fn open_folder(&mut self, target: String, v: Vec<Entry>)
        ensures
            final(self)@ == old(self)@.folder_opened(target@, v@),
    {
        let name: String = take_text(&mut self.preview_target_name);
        let copy: Vec<Entry> = clone_entries(&v);
        self.preview_state = PreviewState::FolderListing(copy);
        self.preview_target_id = Some(target);
        self.input = InputMode::InfoFolderView { name, entries: v };
    }

    fn apply_folder_preview(&mut self, request: AsyncRequest, result: Result<Vec<Entry>, String>)
        ensures
            final(self)@ == old(self)@.folder_preview_came(request@, result),
    {
        reveal(AppView::folder_preview_came);
        if self.awaited_in_dialog(&request) {
            match result {
                Ok(v) => {
                    self.end_dialog();
                    self.open_folder(request.target, v);
                    return;
                },
                Err(e) => {
                    self.fail_dialog("Folder listing failed: ", e.as_str());
                    return;
                },
            }
        }
        if !self.preview_request_matches(&request) {
            return;
        }
        match result {
            Ok(v) => {
                self.show_preview(PreviewState::FolderListing(v));
                return;
            },
            Err(e) => {
                self.show_preview(PreviewState::Empty);
                self.log_with("Folder listing failed: ", e.as_str());
                return;
            },
        }
    }

    fn apply_preview_info(&mut self, request: AsyncRequest, result: Result<FileInfo, String>)
        ensures
            final(self)@ == old(self)@.preview_info_came(request@, result),
    {
        reveal(AppView::preview_info_came);
        if !self.preview_request_matches(&request) {
            return;
        }
        match result {
            Ok(info) => {
                self.show_preview(PreviewState::FileDetailedInfo(info));
                return;
            },
            Err(e) => {
                self.show_preview(PreviewState::Empty);
                self.log_with("Preview info failed: ", e.as_str());
                return;
            },
        }
    }

    fn open_text(
        &mut self,
        target: String,
        name: String,
        lines: Vec<Line>,
        size: u64,
        truncated: bool,
    )
        ensures
            final(self)@ == old(self)@.text_opened(
                target@,
                name@,
                lines_view(lines@),
                size,
                truncated,
            ),
    {
        let copy: Vec<Line> = clone_lines(&lines);
        let again: String = name.clone();
        self.input = InputMode::TextPreviewView { name: again, lines: copy, truncated };
        self.preview_state = PreviewState::FileTextPreview { name, lines, size, truncated };
        self.preview_target_id = Some(target);
    }

    fn apply_text_preview(
        &mut self,
        request: AsyncRequest,
        result: Result<(String, String, u64, bool), String>,
        assets: &HighlightAssets,
    )
        ensures
            final(self)@ == old(self)@.text_preview_came(
                request@,
                result,
                assets.syntax_set(),
                assets.color_theme(),
            ),
    {
        reveal(AppView::text_preview_came);
        if self.awaited_in_dialog(&request) {
            match result {
                Ok(t) => {
                    let lines: Vec<Line> = highlight_content(t.0.as_str(), t.1.as_str(), assets);
                    self.end_dialog();
                    self.open_text(request.target, t.0, lines, t.2, t.3);
                    return;
                },
                Err(e) => {
                    self.fail_dialog("Text preview failed: ", e.as_str());
                    return;
                },
            }
        }
        if !self.preview_request_matches(&request) {
            return;
        }
        match result {
            Ok(t) => {
                let lines: Vec<Line> = highlight_content(t.0.as_str(), t.1.as_str(), assets);
                self.show_preview(
                    PreviewState::FileTextPreview { name: t.0, lines, size: t.2, truncated: t.3 },
                );
                return;
            },
            Err(e) => {
                self.show_preview(PreviewState::FileBasicInfo);
                self.log_with("Text preview failed: ", e.as_str());
                return;
            },
        }
    }

    fn apply_thumbnail(&mut self, request: AsyncRequest, result: Result<ImageHandle, String>)
        ensures
            final(self)@ == old(self)@.thumbnail_came(request@, result),
    {
        reveal(AppView::thumbnail_came);
        if !self.preview_request_matches(&request) {
            return;
        }
        match result {
            Ok(image) => {
                self.show_preview(PreviewState::ThumbnailImage { image });
                return;
            },
            Err(e) => {
                self.show_preview(PreviewState::FileBasicInfo);
                self.log_with("Thumbnail preview failed: ", e.as_str());
                return;
            },
        }
    }

    fn apply_offline_tasks(
        &mut self,
        request: AsyncRequest,
        result: Result<Vec<OfflineTask>, String>,
    )
        ensures
            final(self)@ == old(self)@.offline_tasks_came(request@, result),
    {
        reveal(AppView::offline_tasks_came);
        if !self.awaited_in_dialog(&request) {
            return;
        }
        match result {
            Ok(tasks) => {
                self.end_dialog();
                self.set_mode(InputMode::OfflineTasksView { tasks, selected: 0 });
                return;
            },
            Err(e) => {
                self.fail_dialog("Failed to load offline tasks: ", e.as_str());
                return;
            },
        }
    }

    fn apply_play_info(&mut self, request: AsyncRequest, result: Result<FileInfo, String>)
        ensures
            final(self)@ == old(self)@.play_info_came(request@, result),
    {
        reveal(AppView::play_info_came);
        if !self.awaited_in_main(&request) {
            return;
        }
        self.end_dialog();
        match result {
            Ok(info) => {
                let url: String = playback_link(&info);
                if url.as_str().is_empty() {
                    self.log("No playback URL available");
                    return;
                }
                self.set_mode(InputMode::ConfirmPlay { name: info.name, url });
                return;
            },
            Err(e) => {
                self.log_with("Play info failed: ", e.as_str());
                return;
            },
        }
    }

    fn apply_play_options(
        &mut self,
        request: AsyncRequest,
        result: Result<(FileInfo, Vec<PlayOption>), String>,
    )
        ensures
            final(self)@ == old(self)@.play_options_came(request@, result),
    {
        reveal(AppView::play_options_came);
        if !self.awaited_in_main(&request) {
            return;
        }
        self.end_dialog();
        match result {
            Ok(t) => {
                if t.1.len() == 0 {
                    self.log("No playback streams available");
                    return;
                }
                let selected: usize = find_available(&t.1);
                self.set_mode(InputMode::PlayPicker { name: t.0.name, medias: t.1, selected });
                return;
            },
            Err(e) => {
                self.log_with("Play picker info failed: ", e.as_str());
                return;
            },
        }
    }

    fn show_trash(&mut self, v: Vec<Entry>)
        ensures
            final(self)@ == old(self)@.trash_shown(v@),
    {
        let selected: usize = clamp_index(self.trash_selected, v.len());
        let expanded: bool = trash_is_spread(&self.input, self.trash_expanded);
        self.trash_entries = clone_entries(&v);
        self.trash_selected = selected;
        self.trash_expanded = expanded;
        self.input = InputMode::TrashView { entries: v, selected, expanded };
    }

    fn leave_trash(&mut self)
        ensures
            final(self)@ == old(self)@.trash_left(),
    {
        if let InputMode::TrashView { .. } = &self.input {
            self.input = InputMode::Normal;
            return;
        }
    }

    fn apply_trash_list(&mut self, result: Result<Vec<Entry>, String>)
        ensures
            final(self)@ == old(self)@.trash_listed(result),
    {
        reveal(AppView::trash_listed);
        self.finish_loading();
        match result {
            Ok(v) => {
                self.show_trash(v);
                return;
            },
            Err(e) => {
                self.leave_trash();
                self.log_with("Failed to load trash: ", e.as_str());
                return;
            },
        }
    }

    fn apply_info_thumbnail(&mut self, request: AsyncRequest, result: Result<ImageHandle, String>)
        ensures
            final(self)@ == old(self)@.info_thumbnail_came(request@, result),
    {
        reveal(AppView::info_thumbnail_came);
        if !self.modal_request_matches(&request) || !info_is_shown(&self.input, &request) {
            return;
        }
        match result {
            Ok(img) => {
                self.place_image(img);
                return;
            },
            Err(e) => {
                self.modal_request = None;
                self.log_with("Info thumbnail failed: ", e.as_str());
                return;
            },
        }
    }

    fn place_image(&mut self, img: ImageHandle)
        ensures
            final(self)@ == old(self)@.in_mode(with_image(old(self)@.input, img)).without_modal(),
    {
        let mut mode: InputMode = InputMode::Normal;
        std::mem::swap(&mut mode, &mut self.input);
        self.input = put_image(mode, img);
        self.modal_request = None;
    }

    fn place_in(&mut self, folder_id: String, crumbs: Vec<(String, String)>)
        ensures
            final(self)@ == old(self)@.placed_in(folder_id@, text_pairs(crumbs@)),
    {
        self.breadcrumb = crumbs;
        self.current_folder_id = folder_id;
        self.selected = 0;
        self.parent_entries = Vec::new();
        self.parent_selected = 0;
    }

    fn apply_goto(
        &mut self,
        request: AsyncRequest,
        result: Result<(String, Vec<(String, String)>), String>,
    )
        ensures
            final(self)@ == old(self)@.goto_came(request@, result),
    {
        reveal(AppView::goto_came);
        if !self.awaited_in_main(&request) {
            return;
        }
        self.end_dialog();
        match result {
            Ok(t) => {
                let id: String = t.0.clone();
                self.place_in(t.0, t.1);
                self.refresh_parent();
                self.clear_preview();
                self.loading = true;
                self.request_main_listing(id);
                return;
            },
            Err(e) => {
                self.log_with("Go to path failed: ", e.as_str());
                return;
            },
        }
    }

    fn apply_quota(&mut self, result: Result<Option<(Option<String>, Option<String>)>, String>)
        ensures
            final(self)@ == old(self)@.quota_came(result),
    {
        reveal(AppView::quota_came);
        match result {
            Ok(Some(q)) => {
                self.quota_used = read_number(q.0);
                self.quota_limit = read_number(q.1);
                return;
            },
            Ok(None) => {
                return;
            },
            Err(e) => {
                self.log_with("Quota fetch failed: ", e.as_str());
                return;
            },
        }
    }

    fn apply_upload(&mut self, result: Result<String, String>)
        ensures
            final(self)@ == old(self)@.upload_ended(result),
    {
        reveal(AppView::upload_ended);
        self.finish_loading();
        match result {
            Ok(msg) => {
                self.push_log(msg);
                self.refresh();
                return;
            },
            Err(e) => {
                self.log_with("Upload failed: ", e.as_str());
                return;
            },
        }
    }

    fn apply_share(&mut self, title: String, url: String, pass_code: String)
        ensures
            final(self)@ == old(self)@.share_made(title@, url@, pass_code@),
    {
        reveal(AppView::share_made);
        self.log_with("Share created: ", url.as_str());
        let text: String = url.clone();
        let mut mode: InputMode = InputMode::Normal;
        std::mem::swap(&mut mode, &mut self.input);
        self.input = add_share(mode, (title, url, pass_code));
        self.ask(Effect::WriteClipboard { text, source: CopySource::NewShare });
    }

    fn show_shares(&mut self, shares: Vec<MyShare>)
        ensures
            final(self)@ == old(self)@.shares_shown(shares@),
    {
        let selected: usize = share_index(&self.input, shares.len());
        self.shares_pending = false;
        self.input = InputMode::MySharesView { shares, selected, confirm_delete: None };
    }

    fn leave_shares(&mut self)
        ensures
            final(self)@ == old(self)@.shares_left(),
    {
        if let InputMode::MySharesView { .. } = &self.input {
            self.input = InputMode::Normal;
            return;
        }
    }

    fn apply_shares(&mut self, result: Result<Vec<MyShare>, String>)
        ensures
            final(self)@ == old(self)@.shares_came(result),
    {
        reveal(AppView::shares_came);
        self.finish_loading();
        match result {
            Ok(v) => {
                let wanted: bool = match &self.input {
                    InputMode::MySharesView { .. } => true,
                    _ => self.shares_pending,
                };
                if wanted {
                    self.show_shares(v);
                    return;
                }
                return;
            },
            Err(e) => {
                self.shares_pending = false;
                self.log_with("Failed to load shares: ", e.as_str());
                self.leave_shares();
                return;
            },
        }
    }

    fn apply_update(&mut self, version: Option<String>)
        ensures
            final(self)@ == old(self)@.update_came(opt_text(version)),
    {
        reveal(AppView::update_came);
        match version {
            Some(v) => {
                let msg: String = cat5(
                    "Update available: v",
                    self.version.as_str(),
                    " \u{2192} v",
                    v.as_str(),
                    " (run `pikpaktui update`)",
                );
                self.push_log(msg);
                self.update_available = Some(v);
                return;
            },
            None => {
                return;
            },
        }
    }

    fn list_in_dialog(&mut self, id: u64, folder: &String, result: Result<Vec<Entry>, String>) -> (r:
        Option<String>)
        ensures
            final(self)@ == old(self)@.in_mode(
                mode_listed(old(self)@.input, id, folder@, result),
            ),
            opt_text(r) == listing_error(old(self)@.input, id, folder@, result),
    {
        let mut mode: InputMode = InputMode::Normal;
        std::mem::swap(&mut mode, &mut self.input);
        let (mode, error) = list_in_mode(mode, id, folder, result);
        self.input = mode;
        error
    }

    fn apply_picker_listing(&mut self, id: u64, folder: String, result: Result<Vec<Entry>, String>)
        ensures
            final(self)@ == old(self)@.picker_listing_came(id, folder@, result),
    {
        reveal(AppView::picker_listing_came);
        match self.list_in_dialog(id, &folder, result) {
            Some(e) => {
                self.log_with("Picker load failed: ", e.as_str());
                return;
            },
            None => {
                return;
            },
        }
    }

    fn end_completion(&mut self)
        ensures
            final(self)@ == old(self)@.completion_ended(),
    {
        self.path_completion_in_flight = None;
    }

    fn take_completion(&mut self, c: PathCompletion)
        ensures
            final(self)@ == old(self)@.completion_taken(c),
    {
        let mut mode: InputMode = InputMode::Normal;
        std::mem::swap(&mut mode, &mut self.input);
        self.input = complete_mode(mode, c);
        self.text_cursor = usize::MAX;
    }

    fn apply_completion(
        &mut self,
        request_id: u64,
        value: String,
        folder_context: String,
        completion: Option<PathCompletion>,
    )
        ensures
            final(self)@ == old(self)@.completion_came(
                request_id,
                value@,
                folder_context@,
                completion,
            ),
    {
        reveal(AppView::completion_came);
        let awaited: bool = match self.path_completion_in_flight {
            Some(id) => id == request_id,
            None => false,
        };
        if !awaited {
            return;
        }
        let wanted: bool = mode_wants(
            &self.input,
            request_id,
            &value,
            &self.current_folder_id,
            &folder_context,
        );
        self.end_completion();
        match completion {
            Some(c) => {
                if wanted {
                    self.take_completion(c);
                    return;
                }
                return;
            },
            None => {
                return;
            },
        }
    }

    fn apply_login(&mut self, email: String, password: String, result: Result<(), String>)
        ensures
            final(self)@ == old(self)@.login_ended(email@, password@, result),
    {
        reveal(AppView::login_ended);
        match result {
            Ok(_) => {
                self.ask(Effect::AdoptSession { email, password });
                return;
            },
            Err(e) => {
                let error: Option<String> = Some(cat2("Login failed: ", e.as_str()));
                self.set_mode(
                    InputMode::Login {
                        field: LoginField::Email,
                        email,
                        password,
                        error,
                        logging_in: false,
                    },
                );
                return;
            },
        }
    }

    fn note(&mut self, before: &str, result: Result<(), String>)
        ensures
            final(self)@ == old(self)@.noted(before@, result),
    {
        match result {
            Ok(_) => {
                return;
            },
            Err(e) => {
                self.log_with(before, e.as_str());
                return;
            },
        }
    }

    /// Goes on after a sign-in: tells what went wrong on the way, and shows the drive.
    pub fn session_adopted(&mut self, saved: Result<(), String>, rebuilt: Result<(), String>)
        ensures
            final(self)@ == old(self)@.session_taken(saved, rebuilt),
    {
        self.note("Warning: failed to save config: ", saved);
        self.note("client rebuild failed: ", rebuilt);
        self.set_mode(InputMode::Normal);
        self.refresh();
        self.log("Login successful");
    }

    fn log_all(&mut self, msgs: Vec<String>)
        ensures
            final(self)@ == old(self)@.logged_all(texts(msgs@)),
    {
        let ghost all = texts(msgs@);
        let mut i: usize = 0;
        assert(all.take(0).len() == 0);
        while i < msgs.len()
            invariant
                i <= msgs.len(),
                all == texts(msgs@),
                self@ == old(self)@.logged_all(all.take(i as int)),
            decreases msgs.len() - i,
        {
            assert(all.take(i + 1).drop_last() =~= all.take(i as int));
            self.push_log(msgs[i].clone());
            i += 1;
        }
        assert(all.take(all.len() as int) =~= all);
    }

    /// Applies the replies that have come in, the oldest first, and then logs what the downloads
    /// have told.
    pub fn poll_results(
        &mut self,
        results: Vec<OpResult>,
        told: Vec<String>,
        assets: &HighlightAssets,
    )
        ensures
            final(self)@ == old(self)@.polled(
                results@,
                results@.len() as int,
                assets.syntax_set(),
                assets.color_theme(),
            ).logged_all(texts(told@)),
    {
        let mut left: Vec<OpResult> = results;
        let ghost all = results@;
        let ghost start = self@;
        let ghost mut n: int = 0;
        while left.len() > 0
            invariant
                0 <= n <= all.len(),
                left@ == all.skip(n),
                self@ == start.polled(all, n, assets.syntax_set(), assets.color_theme()),
            decreases left@.len(),
        {
            let r: OpResult = left.remove(0);
            assert(r == all[n]);
            self.apply_result(r, assets);
            proof {
                n = n + 1;
            }
            assert(left@ =~= all.skip(n));
        }
        assert(n == all.len());
        self.log_all(told);
    }

    /// Applies a reply to the interface.
    pub fn apply_result(&mut self, result: OpResult, assets: &HighlightAssets)
        ensures
            final(self)@ == old(self)@.applied(
                result,
                assets.syntax_set(),
                assets.color_theme(),
            ),
    {
        match result {
            OpResult::Ls(id, folder, r) => {
                self.apply_listing(id, folder, r);
                return;
            },
            OpResult::Done(msg) => {
                self.push_log(msg);
                self.refresh();
                return;
            },
            OpResult::Failed(msg) => {
                self.push_log(msg);
                self.finish_loading();
                return;
            },
            OpResult::Info(q, r, fallback) => {
                self.apply_info(q, r, fallback);
                return;
            },
            OpResult::ParentLs(q, r) => {
                self.apply_parent(q, r);
                return;
            },
            OpResult::PreviewLs(q, r) => {
                self.apply_folder_preview(q, r);
                return;
            },
            OpResult::PreviewInfo(q, r) => {
                self.apply_preview_info(q, r);
                return;
            },
            OpResult::PreviewText(q, r) => {
                self.apply_text_preview(q, r, assets);
                return;
            },
            OpResult::PreviewThumbnail(q, r) => {
                self.apply_thumbnail(q, r);
                return;
            },
            OpResult::OfflineTasks(q, r) => {
                self.apply_offline_tasks(q, r);
                return;
            },
            OpResult::PlayInfo(q, r) => {
                self.apply_play_info(q, r);
                return;
            },
            OpResult::PlayPickerInfo(q, r) => {
                self.apply_play_options(q, r);
                return;
            },
            OpResult::TrashList(r) => {
                self.apply_trash_list(r);
                return;
            },
            OpResult::TrashOp(msg) => {
                self.finish_loading();
                self.push_log(msg);
                self.open_trash_view_preserve();
                return;
            },
            OpResult::OfflineOp(msg) => {
                self.push_log(msg);
                self.open_offline_tasks_view();
                return;
            },
            OpResult::InfoThumbnail(q, r) => {
                self.apply_info_thumbnail(q, r);
                return;
            },
            OpResult::GotoPath(q, r) => {
                self.apply_goto(q, r);
                return;
            },
            OpResult::Quota(r) => {
                self.apply_quota(r);
                return;
            },
            OpResult::Upload(r) => {
                self.apply_upload(r);
                return;
            },
            OpResult::ShareCreated { title, url, pass_code } => {
                self.apply_share(title, url, pass_code);
                return;
            },
            OpResult::MyShares(r) => {
                self.apply_shares(r);
                return;
            },
            OpResult::UpdateAvailable(version) => {
                self.apply_update(version);
                return;
            },
            OpResult::PickerLs(id, folder, r) => {
                self.apply_picker_listing(id, folder, r);
                return;
            },
            OpResult::PathCandidates { request_id, value, folder_context, completion } => {
                self.apply_completion(request_id, value, folder_context, completion);
                return;
            },
            OpResult::LoginDone { email, password, result } => {
                self.apply_login(email, password, result);
                return;
            },
        }
    }
}

} // verus!
