//! The keys of the main pane.

use crate::app::{clamp_index, clamped, path_text, App, AppView};
use crate::effect::{Effect, EffectView, RemoteOp, RemoteOpView};
use crate::event::{KeyCode, KeyModifiers};
use crate::geometry::{max_int, min_int};
use crate::model::{
    find_entry, position_of, AsyncRequest, AsyncRequestKind, ConfigView, Entry, EntryKind,
    FileCategory, InputMode, ModeView, PathInput, PathInputView, PickerState, PickerView,
    PreviewState, PreviewView, TuiConfig,
};
use crate::text::{cat2, cat3, opt_eq, opt_text, text_pairs, Chars};
use vstd::prelude::*;

verus! {

/// A movement of the cursor in the main pane.
#[derive(Clone, Copy, Debug, PartialEq, Eq, Structural)]
pub enum Motion {
    Down,
    Up,
    PageDown,
    PageUp,
    HalfPageDown,
    HalfPageUp,
    Top,
    Bottom,
}

/// What a key of the main pane does.
#[derive(Clone, Copy, Debug, PartialEq, Eq, Structural)]
pub enum NormalAction {
    Quit,
    Go(Motion),
    Open,
    Leave,
    ToggleLogs,
    Refresh,
    MoveEntry,
    CopyEntry,
    Rename,
    Delete,
    Mkdir,
    Help,
    ToggleCart,
    Cart,
    Downloads,
    Shares,
    Star,
    CopyLink,
    Upload,
    OfflineInput,
    SaveShare,
    OfflineTasks,
    Trash,
    NextSort,
    ReverseSort,
    PickStream,
    Preview,
    Settings,
    ActionMenu,
    Info,
    GotoPath,
    Cancel,
    Nothing,
}

/// The action that a key of the main pane is bound to.
pub open spec fn binding(code: KeyCode, modifiers: KeyModifiers) -> NormalAction {
    match code {
        KeyCode::Down => NormalAction::Go(Motion::Down),
        KeyCode::Up => NormalAction::Go(Motion::Up),
        KeyCode::PageDown => NormalAction::Go(Motion::PageDown),
        KeyCode::PageUp => NormalAction::Go(Motion::PageUp),
        KeyCode::Home => NormalAction::Go(Motion::Top),
        KeyCode::End => NormalAction::Go(Motion::Bottom),
        KeyCode::Enter => NormalAction::Open,
        KeyCode::Backspace => NormalAction::Leave,
        KeyCode::Esc => NormalAction::Cancel,
        KeyCode::Char(c) => char_binding(c, modifiers.control),
        _ => NormalAction::Nothing,
    }
}

pub open spec fn char_binding(c: char, control: bool) -> NormalAction {
    if c == 'q' {
        NormalAction::Quit
    } else if c == 'j' {
        NormalAction::Go(Motion::Down)
    } else if c == 'k' {
        NormalAction::Go(Motion::Up)
    } else if c == 'g' {
        if control {
            NormalAction::Nothing
        } else {
            NormalAction::Go(Motion::Top)
        }
    } else if c == 'G' {
        NormalAction::Go(Motion::Bottom)
    } else if c == 'd' {
        if control {
            NormalAction::Go(Motion::HalfPageDown)
        } else {
            NormalAction::Delete
        }
    } else if c == 'u' {
        if control {
            NormalAction::Go(Motion::HalfPageUp)
        } else {
            NormalAction::Upload
        }
    } else if c == 'l' {
        NormalAction::ToggleLogs
    } else if c == 'r' {
        NormalAction::Refresh
    } else if c == 'm' {
        NormalAction::MoveEntry
    } else if c == 'c' {
        NormalAction::CopyEntry
    } else if c == 'n' {
        NormalAction::Rename
    } else if c == 'f' {
        NormalAction::Mkdir
    } else if c == 'h' {
        NormalAction::Help
    } else if c == 'a' {
        NormalAction::ToggleCart
    } else if c == 'A' {
        NormalAction::Cart
    } else if c == 'D' {
        NormalAction::Downloads
    } else if c == 'M' {
        NormalAction::Shares
    } else if c == 's' {
        NormalAction::Star
    } else if c == 'y' {
        NormalAction::CopyLink
    } else if c == 'o' {
        NormalAction::OfflineInput
    } else if c == 'b' {
        NormalAction::SaveShare
    } else if c == 'O' {
        NormalAction::OfflineTasks
    } else if c == 't' {
        NormalAction::Trash
    } else if c == 'S' {
        NormalAction::NextSort
    } else if c == 'R' {
        NormalAction::ReverseSort
    } else if c == 'w' {
        NormalAction::PickStream
    } else if c == 'p' {
        NormalAction::Preview
    } else if c == ',' {
        NormalAction::Settings
    } else if c == '?' {
        NormalAction::ActionMenu
    } else if c == ' ' {
        NormalAction::Info
    } else if c == ':' {
        NormalAction::GotoPath
    } else {
        NormalAction::Nothing
    }
}

fn bound_char(c: char, control: bool) -> (r: NormalAction)
    ensures
        r == char_binding(c, control),
{
    if c == 'q' {
        NormalAction::Quit
    } else if c == 'j' {
        NormalAction::Go(Motion::Down)
    } else if c == 'k' {
        NormalAction::Go(Motion::Up)
    } else if c == 'g' {
        if control {
            NormalAction::Nothing
        } else {
            NormalAction::Go(Motion::Top)
        }
    } else if c == 'G' {
        NormalAction::Go(Motion::Bottom)
    } else if c == 'd' {
        if control {
            NormalAction::Go(Motion::HalfPageDown)
        } else {
            NormalAction::Delete
        }
    } else if c == 'u' {
        if control {
            NormalAction::Go(Motion::HalfPageUp)
        } else {
            NormalAction::Upload
        }
    } else if c == 'l' {
        NormalAction::ToggleLogs
    } else if c == 'r' {
        NormalAction::Refresh
    } else if c == 'm' {
        NormalAction::MoveEntry
    } else if c == 'c' {
        NormalAction::CopyEntry
    } else if c == 'n' {
        NormalAction::Rename
    } else if c == 'f' {
        NormalAction::Mkdir
    } else if c == 'h' {
        NormalAction::Help
    } else if c == 'a' {
        NormalAction::ToggleCart
    } else if c == 'A' {
        NormalAction::Cart
    } else if c == 'D' {
        NormalAction::Downloads
    } else if c == 'M' {
        NormalAction::Shares
    } else if c == 's' {
        NormalAction::Star
    } else if c == 'y' {
        NormalAction::CopyLink
    } else if c == 'o' {
        NormalAction::OfflineInput
    } else if c == 'b' {
        NormalAction::SaveShare
    } else if c == 'O' {
        NormalAction::OfflineTasks
    } else if c == 't' {
        NormalAction::Trash
    } else if c == 'S' {
        NormalAction::NextSort
    } else if c == 'R' {
        NormalAction::ReverseSort
    } else if c == 'w' {
        NormalAction::PickStream
    } else if c == 'p' {
        NormalAction::Preview
    } else if c == ',' {
        NormalAction::Settings
    } else if c == '?' {
        NormalAction::ActionMenu
    } else if c == ' ' {
        NormalAction::Info
    } else if c == ':' {
        NormalAction::GotoPath
    } else {
        NormalAction::Nothing
    }
}

fn bound(code: KeyCode, modifiers: KeyModifiers) -> (r: NormalAction)
    ensures
        r == binding(code, modifiers),
{
    match code {
        KeyCode::Down => NormalAction::Go(Motion::Down),
        KeyCode::Up => NormalAction::Go(Motion::Up),
        KeyCode::PageDown => NormalAction::Go(Motion::PageDown),
        KeyCode::PageUp => NormalAction::Go(Motion::PageUp),
        KeyCode::Home => NormalAction::Go(Motion::Top),
        KeyCode::End => NormalAction::Go(Motion::Bottom),
        KeyCode::Enter => NormalAction::Open,
        KeyCode::Backspace => NormalAction::Leave,
        KeyCode::Esc => NormalAction::Cancel,
        KeyCode::Char(c) => bound_char(c, modifiers.control),
        _ => NormalAction::Nothing,
    }
}

/// Where a movement takes the cursor in a list of `len` entries of which `height` rows are shown;
/// absent where the cursor is left alone.
pub open spec fn destination(m: Motion, at: usize, len: nat, height: u16) -> Option<int> {
    let page = max_int(height as int, 1);
    let half = max_int(height as int / 2, 1);
    match m {
        Motion::Up => if at > 0 {
            Some(at - 1)
        } else {
            None
        },
        _ => if len == 0 {
            None
        } else {
            match m {
                Motion::Down => Some(min_int(at + 1, len - 1)),
                Motion::PageDown => Some(min_int(at + page, len - 1)),
                Motion::PageUp => Some(max_int(at - page, 0)),
                Motion::HalfPageDown => Some(min_int(at + half, len - 1)),
                Motion::HalfPageUp => Some(max_int(at - half, 0)),
                Motion::Top => Some(0),
                _ => Some(len - 1),
            }
        },
    }
}

fn move_target(m: Motion, at: usize, len: usize, height: u16) -> (r: Option<usize>)
    ensures
        match r {
            Some(i) => destination(m, at, len as nat, height) == Some(i as int),
            None => destination(m, at, len as nat, height) is None,
        },
{
    let page: usize = if height > 1 { height as usize } else { 1 };
    let half: usize = if height / 2 > 1 { (height / 2) as usize } else { 1 };
    match m {
        Motion::Up => if at > 0 {
            Some(at - 1)
        } else {
            None
        },
        _ => {
            if len == 0 {
                return None;
            }
            match m {
                Motion::Down => Some(step_down(at, 1, len)),
                Motion::PageDown => Some(step_down(at, page, len)),
                Motion::PageUp => Some(at.saturating_sub(page)),
                Motion::HalfPageDown => Some(step_down(at, half, len)),
                Motion::HalfPageUp => Some(at.saturating_sub(half)),
                Motion::Top => Some(0),
                _ => Some(len - 1),
            }
        },
    }
}

/// The index `n` further down a list, or the last one.
pub fn step_down(at: usize, n: usize, len: usize) -> (r: usize)
    requires
        len > 0,
    ensures
        r == min_int(at + n, len - 1),
{
    let to: usize = at.saturating_add(n);
    if to < len {
        to
    } else {
        len - 1
    }
}

/// The list without the entries of an id.
pub open spec fn without_id(v: Seq<Entry>, id: Chars) -> Seq<Entry>
    decreases v.len(),
{
    if v.len() == 0 {
        v
    } else if v.last().id@ == id {
        without_id(v.drop_last(), id)
    } else {
        without_id(v.drop_last(), id).push(v.last())
    }
}

fn remove_id(v: &mut Vec<Entry>, id: &String)
    ensures
        final(v)@ == without_id(old(v)@, id@),
{
    let mut i: usize = 0;
    let ghost full = v@;
    let ghost mut seen: int = 0;
    assert(full.take(0) =~= Seq::<Entry>::empty());
    assert(v@ =~= without_id(full.take(0), id@) + full.skip(0));
    while i < v.len()
        invariant
            0 <= seen <= full.len(),
            i == without_id(full.take(seen), id@).len(),
            v@ == without_id(full.take(seen), id@) + full.skip(seen),
        decreases full.len() - seen,
    {
        assert(full.skip(seen).len() > 0);
        assert(v@[i as int] == full[seen]);
        assert(full.take(seen + 1).drop_last() =~= full.take(seen));
        let ghost kept = without_id(full.take(seen), id@);
        if v[i].id == *id {
            v.remove(i);
            assert(v@ =~= kept + full.skip(seen + 1));
        } else {
            i += 1;
            assert(v@ =~= kept.push(full[seen]) + full.skip(seen + 1));
        }
        proof {
            seen = seen + 1;
        }
    }
    assert(full.skip(seen).len() == 0);
    assert(full.take(seen) =~= full);
    assert(v@ =~= without_id(full, id@));
}

/// The entries that the preview already holds of a folder.
pub open spec fn cached_children(target: Option<Chars>, state: PreviewView, id: Chars) -> Option<
    Seq<Entry>,
> {
    if target == Some(id) {
        match state {
            PreviewView::FolderListing(v) => Some(v),
            _ => None,
        }
    } else {
        None
    }
}

pub open spec fn opt_entries(o: Option<Vec<Entry>>) -> Option<Seq<Entry>> {
    match o {
        Some(v) => Some(v@),
        None => None,
    }
}

fn children_of(state: PreviewState, wanted: bool) -> (r: Option<Vec<Entry>>)
    ensures
        opt_entries(r) == (if wanted {
            match state@ {
                PreviewView::FolderListing(v) => Some(v),
                _ => None,
            }
        } else {
            None
        }),
{
    if !wanted {
        return None;
    }
    match state {
        PreviewState::FolderListing(v) => Some(v),
        _ => None,
    }
}

impl AppView {
    /// With a folder entered, and its own entries still unknown.
    pub open spec fn entered(self, e: Entry) -> AppView {
        AppView {
            parent_entries: self.entries,
            entries: Seq::empty(),
            parent_selected: self.selected,
            current_folder_id: e.id@,
            breadcrumb: self.breadcrumb.push((self.current_folder_id, e.name@)),
            selected: 0,
            ..self
        }.preview_cleared()
    }

    pub open spec fn with_entries(self, v: Seq<Entry>) -> AppView {
        AppView { entries: v, ..self }
    }

    /// With a folder opened: at once where the preview holds its entries already, else when its
    /// listing comes in.
    pub open spec fn folder_entered(self, e: Entry) -> AppView {
        let a = self.entered(e);
        match cached_children(self.preview_target_id, self.preview_state, e.id@) {
            Some(v) => a.main_invalidated().finished_loading().with_entries(v).logged(
                "Refreshed "@ + path_text(a.breadcrumb),
            ).cursor_moved(),
            None => a.is_loading().main_requested(e.id@),
        }
    }

    pub open spec fn play_asked(self, e: Entry) -> AppView {
        let a = self.is_loading();
        a.modal_begun(AsyncRequestKind::Play, e.id@).asking(
            EffectView::FetchPlayInfo { request: a.request_of(AsyncRequestKind::Play, e.id@) },
        )
    }

    pub open spec fn streams_asked(self, e: Entry) -> AppView {
        let a = self.is_loading();
        a.modal_begun(AsyncRequestKind::PlayPicker, e.id@).asking(
            EffectView::FetchPlayOptions {
                request: a.request_of(AsyncRequestKind::PlayPicker, e.id@),
            },
        )
    }

    pub open spec fn opened(self) -> AppView {
        match self.current() {
            Some(e) => if e.kind == EntryKind::Folder {
                self.folder_entered(e)
            } else if e.category == FileCategory::Video {
                self.play_asked(e)
            } else {
                self
            },
            None => self,
        }
    }

    /// Back in the parent folder, with its entries as far as they are known.
    pub open spec fn moved_up(self) -> AppView {
        AppView {
            current_folder_id: self.breadcrumb.last().0,
            breadcrumb: self.breadcrumb.drop_last(),
            entries: self.parent_entries,
            parent_entries: Seq::empty(),
            selected: if self.parent_entries.len() == 0 {
                self.parent_selected
            } else {
                clamped(self.parent_selected, self.parent_entries.len())
            },
            ..self
        }.main_invalidated().finished_loading()
    }

    /// With the preview showing the folder that was left.
    pub open spec fn previewing_left(self, id: Chars, v: Seq<Entry>) -> AppView {
        let shown = self.config.show_preview;
        AppView {
            preview_state: if shown {
                PreviewView::FolderListing(v)
            } else {
                PreviewView::Empty
            },
            preview_target_id: if shown {
                Some(id)
            } else {
                None
            },
            preview_target_name: if shown {
                self.preview_target_name
            } else {
                None
            },
            preview_request: if shown {
                self.preview_request
            } else {
                None
            },
            preview_scroll: if shown {
                self.preview_scroll
            } else {
                0
            },
            pending_preview_fetch: false,
            ..self
        }
    }

    pub open spec fn left(self) -> AppView {
        if self.breadcrumb.len() == 0 {
            self
        } else {
            let a = self.moved_up().previewing_left(self.current_folder_id, self.entries);
            if self.parent_entries.len() == 0 {
                a.refreshed()
            } else {
                a.parent_refreshed()
            }
        }
    }

    pub open spec fn gone(self, m: Motion) -> AppView {
        match destination(
            m,
            self.selected,
            self.entries.len(),
            self.screen.list_area_height,
        ) {
            Some(i) => self.selecting(i),
            None => self,
        }
    }

    pub open spec fn logs_toggled(self) -> AppView {
        AppView { show_logs_overlay: !self.show_logs_overlay, logs_scroll: None, ..self }
    }

    pub open spec fn help_opened(self) -> AppView {
        AppView { show_help_sheet: true, help_scroll: 0, ..self }
    }

    pub open spec fn picker_listing_asked(self, folder_id: Chars) -> AppView {
        self.with_next_id().asking(
            EffectView::ListPicker { request_id: self.next_id(), folder_id },
        )
    }

    /// A picker on the current folder whose listing is asked for next.
    pub open spec fn fresh_picker(self) -> PickerView {
        PickerView {
            folder_id: self.current_folder_id,
            listing_request_id: self.next_id(),
            breadcrumb: self.breadcrumb,
            entries: Seq::empty(),
            selected: 0,
            loading: true,
        }
    }

    pub open spec fn picker_opened(self, source: Entry, is_move: bool) -> AppView {
        self.picker_listing_asked(self.current_folder_id).in_mode(
            picker_mode(Some(source), self.fresh_picker(), is_move),
        )
    }

    pub open spec fn transfer_started(self, source: Entry, is_move: bool) -> AppView {
        if self.config.use_picker {
            self.picker_opened(source, is_move)
        } else {
            self.in_mode(input_mode(Some(source), PathInputView::fresh(), is_move))
        }
    }

    pub open spec fn cart_item_dropped(self, e: Entry) -> AppView {
        AppView { cart: without_id(self.cart, e.id@), ..self }
    }

    pub open spec fn cart_item_added(self, e: Entry) -> AppView {
        AppView { cart: self.cart.push(e), ..self }
    }

    pub open spec fn cart_toggled(self) -> AppView {
        match self.current() {
            Some(e) => if find_entry(self.cart, e.id@) is Some {
                self.cart_item_dropped(e).logged("Removed '"@ + e.name@ + "' from cart"@)
            } else {
                self.logged("Added '"@ + e.name@ + "' to cart"@).cart_item_added(e)
            },
            None => self,
        }
    }

    pub open spec fn remote_asked(self, op: RemoteOpView) -> AppView {
        self.is_loading().asking(EffectView::Remote(op))
    }

    pub open spec fn trash_opened(self) -> AppView {
        AppView {
            trash_entries: Seq::empty(),
            trash_selected: 0,
            trash_expanded: false,
            input: ModeView::TrashView { entries: Seq::empty(), selected: 0, expanded: false },
            ..self
        }.loading_as("Loading trash..."@).asking(EffectView::ListTrash)
    }

    pub open spec fn with_next_sort(self) -> AppView {
        AppView {
            config: ConfigView {
                sort_field: self.options.sort_field.after(self.config.sort_field),
                ..self.config
            },
            ..self
        }
    }

    pub open spec fn with_sort_turned(self) -> AppView {
        AppView {
            config: ConfigView { sort_reverse: !self.config.sort_reverse, ..self.config },
            ..self
        }
    }

    pub open spec fn sort_stepped(self) -> AppView {
        self.with_next_sort().resorted().saving_silently()
    }

    pub open spec fn sort_reversed(self) -> AppView {
        self.with_sort_turned().resorted().saving_silently()
    }

    pub open spec fn text_dialog_asked(self, e: Entry) -> AppView {
        let a = self.in_mode(ModeView::InfoLoading).loading_as("Loading preview..."@);
        a.modal_begun(AsyncRequestKind::FilePreview, e.id@).asking(
            EffectView::FetchText {
                request: a.request_of(AsyncRequestKind::FilePreview, e.id@),
                max_bytes: self.config.preview_max_size,
            },
        )
    }

    pub open spec fn preview_asked(self) -> AppView {
        match self.current() {
            Some(e) => if self.config.show_preview {
                self.preview_fetched()
            } else if e.kind == EntryKind::File && e.text_previewable {
                self.text_dialog_asked(e)
            } else {
                self
            },
            None => self,
        }
    }

    pub open spec fn file_info_asked(self, e: Entry) -> AppView {
        let a = self.in_mode(ModeView::InfoLoading).loading_as("Loading file info..."@);
        a.modal_begun(AsyncRequestKind::Info, e.id@).asking(
            EffectView::FetchInfo {
                request: a.request_of(AsyncRequestKind::Info, e.id@),
                thumb_fallback: opt_text(e.thumbnail_link),
            },
        )
    }

    pub open spec fn targeting(self, e: Entry) -> AppView {
        AppView {
            preview_target_id: Some(e.id@),
            preview_target_name: Some(e.name@),
            ..self
        }
    }

    pub open spec fn folder_info_asked(self, e: Entry) -> AppView {
        let a = self.in_mode(ModeView::InfoLoading).loading_as("Loading folder..."@).targeting(e);
        a.modal_begun(AsyncRequestKind::FolderPreview, e.id@).asking(
            EffectView::ListPreview {
                request: a.request_of(AsyncRequestKind::FolderPreview, e.id@),
            },
        )
    }

    pub open spec fn info_asked(self) -> AppView {
        match self.current() {
            Some(e) => if e.kind == EntryKind::File {
                self.file_info_asked(e)
            } else {
                self.folder_info_asked(e)
            },
            None => self,
        }
    }

    pub open spec fn settings_opened(self) -> AppView {
        self.in_mode(
            ModeView::Settings {
                selected: 0,
                editing: false,
                draft: self.config,
                modified: false,
            },
        )
    }

    pub open spec fn shares_cancelled(self) -> AppView {
        AppView {
            shares_pending: false,
            loading: self.loading && !self.shares_pending,
            loading_label: if self.shares_pending {
                None
            } else {
                self.loading_label
            },
            ..self
        }
    }

    /// What an action of the main pane does.
    #[verifier::opaque]
    pub open spec fn acted(self, action: NormalAction) -> AppView {
        let current = self.current();
        match action {
            NormalAction::Quit => if self.downloads_active {
                self.in_mode(ModeView::ConfirmQuit)
            } else {
                self
            },
            NormalAction::Go(m) => self.gone(m),
            NormalAction::Open => self.opened(),
            NormalAction::Leave => self.left(),
            NormalAction::ToggleLogs => self.logs_toggled(),
            NormalAction::Refresh => self.refreshed(),
            NormalAction::MoveEntry => match current {
                Some(e) => self.transfer_started(e, true),
                None => self,
            },
            NormalAction::CopyEntry => match current {
                Some(e) => self.transfer_started(e, false),
                None => self,
            },
            NormalAction::Rename => if current is Some {
                self.in_mode(ModeView::Rename { value: Seq::empty() })
            } else {
                self
            },
            NormalAction::Delete => if current is Some {
                self.in_mode(ModeView::ConfirmDelete)
            } else {
                self
            },
            NormalAction::Mkdir => self.in_mode(ModeView::Mkdir { value: Seq::empty() }),
            NormalAction::Help => self.help_opened(),
            NormalAction::ToggleCart => self.cart_toggled(),
            NormalAction::Cart => self.in_mode(ModeView::CartView),
            NormalAction::Downloads => self.in_mode(ModeView::DownloadView),
            NormalAction::Shares => self.shares_opened(),
            NormalAction::Star => match current {
                Some(e) => self.remote_asked(
                    RemoteOpView::Star { id: e.id@, name: e.name@, starred: e.starred },
                ),
                None => self,
            },
            NormalAction::CopyLink => match current {
                Some(e) => if e.kind == EntryKind::File {
                    self.asking(
                        EffectView::Remote(RemoteOpView::CopyLink { id: e.id@, name: e.name@ }),
                    )
                } else {
                    self
                },
                None => self,
            },
            NormalAction::Upload => self.asking(EffectView::OpenLocalInput { for_upload: true }),
            NormalAction::OfflineInput => self.in_mode(
                ModeView::OfflineInput { value: Seq::empty() },
            ),
            NormalAction::SaveShare => self.in_mode(
                ModeView::SaveShareInput { value: Seq::empty() },
            ),
            NormalAction::OfflineTasks => self.offline_tasks_opened(),
            NormalAction::Trash => self.trash_opened(),
            NormalAction::NextSort => self.sort_stepped(),
            NormalAction::ReverseSort => self.sort_reversed(),
            NormalAction::PickStream => match current {
                Some(e) => if e.kind == EntryKind::File && e.category == FileCategory::Video {
                    self.streams_asked(e)
                } else {
                    self
                },
                None => self,
            },
            NormalAction::Preview => self.preview_asked(),
            NormalAction::Settings => self.settings_opened(),
            NormalAction::ActionMenu => self.in_mode(ModeView::ActionMenu { selected: 0 }),
            NormalAction::Info => self.info_asked(),
            NormalAction::GotoPath => self.in_mode(ModeView::GotoPath { query: Seq::empty() }),
            NormalAction::Cancel => self.shares_cancelled(),
            NormalAction::Nothing => self,
        }
    }

    /// Whether an action of the main pane ends the program.
    pub open spec fn quits(self, action: NormalAction) -> bool {
        action == NormalAction::Quit && !self.downloads_active
    }
}

/// The mode in which a destination is picked for one entry or for the cart.
pub open spec fn picker_mode(source: Option<Entry>, picker: PickerView, is_move: bool) -> ModeView {
    match source {
        Some(e) => if is_move {
            ModeView::MovePicker { source: e, picker }
        } else {
            ModeView::CopyPicker { source: e, picker }
        },
        None => if is_move {
            ModeView::CartMovePicker { picker }
        } else {
            ModeView::CartCopyPicker { picker }
        },
    }
}

pub(crate) fn make_picker_mode(source: Option<Entry>, picker: PickerState, is_move: bool) -> (r:
    InputMode)
    ensures
        r@ == picker_mode(source, picker@, is_move),
{
    match source {
        Some(e) => if is_move {
            InputMode::MovePicker { source: e, picker }
        } else {
            InputMode::CopyPicker { source: e, picker }
        },
        None => if is_move {
            InputMode::CartMovePicker { picker }
        } else {
            InputMode::CartCopyPicker { picker }
        },
    }
}

/// The mode in which a destination is typed for one entry or for the cart.
pub open spec fn input_mode(source: Option<Entry>, input: PathInputView, is_move: bool) -> ModeView {
    match source {
        Some(e) => if is_move {
            ModeView::MoveInput { source: e, input }
        } else {
            ModeView::CopyInput { source: e, input }
        },
        None => if is_move {
            ModeView::CartMoveInput { input }
        } else {
            ModeView::CartCopyInput { input }
        },
    }
}

pub(crate) fn make_input_mode(source: Option<Entry>, input: PathInput, is_move: bool) -> (r:
    InputMode)
    ensures
        r@ == input_mode(source, input@, is_move),
{
    match source {
        Some(e) => if is_move {
            InputMode::MoveInput { source: e, input }
        } else {
            InputMode::CopyInput { source: e, input }
        },
        None => if is_move {
            InputMode::CartMoveInput { input }
        } else {
            InputMode::CartCopyInput { input }
        },
    }
}

pub(crate) fn empty_text() -> (r: String)
    ensures
        r@ == Seq::<char>::empty(),
{
    let r: String = String::new();
    assert(r@ =~= Seq::<char>::empty());
    r
}

impl App {
    pub(crate) fn start_loading(&mut self)
        ensures
            final(self)@ == old(self)@.is_loading(),
    {
        self.loading = true;
    }

    fn enter(&mut self, e: Entry)
        ensures
            final(self)@ == old(self)@.entered(e),
    {
        self.shift_into(e);
        self.clear_preview();
    }

    fn shift_into(&mut self, e: Entry)
        ensures
            final(self)@ == (AppView {
                parent_entries: old(self)@.entries,
                entries: Seq::empty(),
                parent_selected: old(self)@.selected,
                current_folder_id: e.id@,
                breadcrumb: old(self)@.breadcrumb.push((old(self)@.current_folder_id, e.name@)),
                selected: 0,
                ..old(self)@
            }),
    {
        let mut listed: Vec<Entry> = Vec::new();
        std::mem::swap(&mut listed, &mut self.entries);
        self.parent_entries = listed;
        self.parent_selected = self.selected;
        let mut left: String = e.id;
        std::mem::swap(&mut left, &mut self.current_folder_id);
        let ghost before = self.breadcrumb@;
        let step: (String, String) = (left, e.name);
        self.breadcrumb.push(step);
        assert(text_pairs(self.breadcrumb@) =~= text_pairs(before).push((step.0@, step.1@)));
        self.selected = 0;
    }

    fn take_preview(&mut self) -> (r: PreviewState)
        ensures
            r@ == old(self)@.preview_state,
            final(self)@ == (AppView { preview_state: PreviewView::Empty, ..old(self)@ }),
    {
        let mut state: PreviewState = PreviewState::Empty;
        std::mem::swap(&mut state, &mut self.preview_state);
        state
    }

    fn show_entries(&mut self, v: Vec<Entry>)
        ensures
            final(self)@ == old(self)@.with_entries(v@),
    {
        self.entries = v;
    }

    fn enter_folder(&mut self, e: Entry)
        ensures
            final(self)@ == old(self)@.folder_entered(e),
    {
        let wanted: bool = opt_eq(&self.preview_target_id, e.id.as_str());
        let id: String = e.id.clone();
        let state: PreviewState = self.take_preview();
        let cached: Option<Vec<Entry>> = children_of(state, wanted);
        self.enter(e);
        match cached {
            Some(v) => {
                let path: String = self.current_path_display();
                self.invalidate_main_listing();
                self.finish_loading();
                self.show_entries(v);
                self.push_log(cat2("Refreshed ", path.as_str()));
                self.on_cursor_move();
                return;
            },
            None => {
                self.start_loading();
                self.request_main_listing(id);
                return;
            },
        }
    }

    fn ask_play(&mut self, e: Entry)
        ensures
            final(self)@ == old(self)@.play_asked(e),
    {
        self.start_loading();
        let request: AsyncRequest = self.begin_modal_request(AsyncRequestKind::Play, e.id);
        self.ask(Effect::FetchPlayInfo { request });
    }

    fn ask_streams(&mut self, e: Entry)
        ensures
            final(self)@ == old(self)@.streams_asked(e),
    {
        self.start_loading();
        let request: AsyncRequest = self.begin_modal_request(AsyncRequestKind::PlayPicker, e.id);
        self.ask(Effect::FetchPlayOptions { request });
    }

    fn open_selected(&mut self)
        ensures
            final(self)@ == old(self)@.opened(),
    {
        match self.current_entry() {
            Some(e) => {
                if e.kind == EntryKind::Folder {
                    self.enter_folder(e);
                    return;
                }
                if e.category == FileCategory::Video {
                    self.ask_play(e);
                    return;
                }
                return;
            },
            None => {
                return;
            },
        }
    }

    fn shift_up(&mut self) -> (r: (String, Vec<Entry>))
        requires
            old(self)@.breadcrumb.len() > 0,
        ensures
            r.0@ == old(self)@.current_folder_id,
            r.1@ == old(self)@.entries,
            final(self)@ == old(self)@.moved_up(),
    {
        let crumb: (String, String) = self.breadcrumb.pop().unwrap();
        assert(text_pairs(self.breadcrumb@) =~= text_pairs(old(self).breadcrumb@).drop_last());
        let mut leaving: String = crumb.0;
        std::mem::swap(&mut leaving, &mut self.current_folder_id);
        let mut listed: Vec<Entry> = Vec::new();
        std::mem::swap(&mut listed, &mut self.parent_entries);
        let n: usize = listed.len();
        std::mem::swap(&mut listed, &mut self.entries);
        self.selected = restored_index(self.parent_selected, n);
        self.invalidate_main_listing();
        self.finish_loading();
        (leaving, listed)
    }

    fn preview_left(&mut self, id: String, v: Vec<Entry>)
        ensures
            final(self)@ == old(self)@.previewing_left(id@, v@),
    {
        if self.config.show_preview {
            self.preview_state = PreviewState::FolderListing(v);
            self.preview_target_id = Some(id);
            self.pending_preview_fetch = false;
            return;
        }
        self.clear_preview();
    }

    fn leave_folder(&mut self)
        ensures
            final(self)@ == old(self)@.left(),
    {
        if self.breadcrumb.len() == 0 {
            return;
        }
        let known: bool = self.parent_entries.len() > 0;
        let (id, v) = self.shift_up();
        self.preview_left(id, v);
        if !known {
            self.refresh();
            return;
        }
        self.refresh_parent();
    }

    fn go(&mut self, m: Motion)
        ensures
            final(self)@ == old(self)@.gone(m),
    {
        match move_target(
            m,
            self.selected,
            self.entries.len(),
            self.screen.list_area_height,
        ) {
            Some(i) => {
                self.select(i);
                return;
            },
            None => {
                return;
            },
        }
    }

    fn toggle_logs(&mut self)
        ensures
            final(self)@ == old(self)@.logs_toggled(),
    {
        self.show_logs_overlay = !self.show_logs_overlay;
        self.logs_scroll = None;
    }

    pub(crate) fn open_help(&mut self)
        ensures
            final(self)@ == old(self)@.help_opened(),
    {
        self.show_help_sheet = true;
        self.help_scroll = 0;
    }

    pub fn spawn_picker_ls(&mut self, folder_id: String) -> (r: u64)
        ensures
            r == old(self)@.next_id(),
            final(self)@ == old(self)@.picker_listing_asked(folder_id@),
    {
        let request_id: u64 = self.next_async_request_id();
        self.ask(Effect::ListPicker { request_id, folder_id });
        request_id
    }

    /// Starts a picker on the current folder; its listing comes in later, so that a slow link
    /// never holds up the keys.
    pub fn build_picker_state(&mut self) -> (r: PickerState)
        ensures
            r@ == old(self)@.fresh_picker(),
            final(self)@ == old(self)@.picker_listing_asked(old(self)@.current_folder_id),
    {
        let folder_id: String = self.current_folder_id.clone();
        let breadcrumb: Vec<(String, String)> = crate::text::clone_pairs(&self.breadcrumb);
        let listing_request_id: u64 = self.spawn_picker_ls(folder_id.clone());
        PickerState {
            folder_id,
            listing_request_id,
            breadcrumb,
            entries: Vec::new(),
            selected: 0,
            loading: true,
        }
    }

    pub fn init_picker(&mut self, source: Entry, is_move: bool)
        ensures
            final(self)@ == old(self)@.picker_opened(source, is_move),
    {
        let picker: PickerState = self.build_picker_state();
        let mode: InputMode = make_picker_mode(Some(source), picker, is_move);
        self.set_mode(mode);
    }

    pub fn init_path_input(&mut self, source: Entry, is_move: bool)
        ensures
            final(self)@ == old(self)@.in_mode(
                input_mode(Some(source), PathInputView::fresh(), is_move),
            ),
    {
        let mode: InputMode = make_input_mode(Some(source), PathInput::new(), is_move);
        self.set_mode(mode);
    }

    pub fn start_move_copy(&mut self, source: Entry, is_move: bool)
        ensures
            final(self)@ == old(self)@.transfer_started(source, is_move),
    {
        if self.config.use_picker {
            self.init_picker(source, is_move);
            return;
        }
        self.init_path_input(source, is_move);
    }

    fn transfer_current(&mut self, is_move: bool)
        ensures
            final(self)@ == (match old(self)@.current() {
                Some(e) => old(self)@.transfer_started(e, is_move),
                None => old(self)@,
            }),
    {
        match self.current_entry() {
            Some(e) => {
                self.start_move_copy(e, is_move);
                return;
            },
            None => {
                return;
            },
        }
    }

    fn drop_cart_item(&mut self, e: &Entry)
        ensures
            final(self)@ == old(self)@.cart_item_dropped(*e),
    {
        remove_id(&mut self.cart, &e.id);
    }

    fn add_cart_item(&mut self, e: Entry)
        ensures
            final(self)@ == old(self)@.cart_item_added(e),
    {
        self.cart.push(e);
    }

    fn toggle_cart(&mut self)
        ensures
            final(self)@ == old(self)@.cart_toggled(),
    {
        match self.current_entry() {
            Some(e) => {
                if position_of(&self.cart, &e.id).is_some() {
                    self.drop_cart_item(&e);
                    self.push_log(cat3("Removed '", e.name.as_str(), "' from cart"));
                    return;
                }
                self.push_log(cat3("Added '", e.name.as_str(), "' to cart"));
                self.add_cart_item(e);
                return;
            },
            None => {
                return;
            },
        }
    }

    pub(crate) fn ask_remote(&mut self, op: RemoteOp)
        ensures
            final(self)@ == old(self)@.remote_asked(op@),
    {
        self.start_loading();
        self.ask(Effect::Remote(op));
    }

    pub fn spawn_star_toggle(&mut self, e: Entry)
        ensures
            final(self)@ == old(self)@.remote_asked(
                RemoteOpView::Star { id: e.id@, name: e.name@, starred: e.starred },
            ),
    {
        self.ask_remote(RemoteOp::Star { id: e.id, name: e.name, starred: e.starred });
    }

    pub fn open_trash_view(&mut self)
        ensures
            final(self)@ == old(self)@.trash_opened(),
    {
        self.clear_trash();
        self.load_as("Loading trash...");
        self.ask(Effect::ListTrash);
    }

    fn clear_trash(&mut self)
        ensures
            final(self)@ == (AppView {
                trash_entries: Seq::empty(),
                trash_selected: 0,
                trash_expanded: false,
                input: ModeView::TrashView { entries: Seq::empty(), selected: 0, expanded: false },
                ..old(self)@
            }),
    {
        self.trash_entries = Vec::new();
        self.trash_selected = 0;
        self.trash_expanded = false;
        self.input = InputMode::TrashView { entries: Vec::new(), selected: 0, expanded: false };
    }

    fn take_next_sort(&mut self)
        ensures
            final(self)@ == old(self)@.with_next_sort(),
    {
        self.config.sort_field = self.options.sort_field.next_of(self.config.sort_field);
    }

    fn turn_sort(&mut self)
        ensures
            final(self)@ == old(self)@.with_sort_turned(),
    {
        self.config.sort_reverse = !self.config.sort_reverse;
    }

    fn step_sort(&mut self)
        ensures
            final(self)@ == old(self)@.sort_stepped(),
    {
        self.take_next_sort();
        self.resort_entries();
        self.save_silently();
    }

    fn reverse_sort(&mut self)
        ensures
            final(self)@ == old(self)@.sort_reversed(),
    {
        self.turn_sort();
        self.resort_entries();
        self.save_silently();
    }

    fn ask_text_dialog(&mut self, e: Entry)
        ensures
            final(self)@ == old(self)@.text_dialog_asked(e),
    {
        self.set_mode(InputMode::InfoLoading);
        self.load_as("Loading preview...");
        let request: AsyncRequest = self.begin_modal_request(AsyncRequestKind::FilePreview, e.id);
        let max_bytes: u64 = self.config.preview_max_size;
        self.ask(Effect::FetchText { request, max_bytes });
    }

    fn preview_selected(&mut self)
        ensures
            final(self)@ == old(self)@.preview_asked(),
    {
        match self.current_entry() {
            Some(e) => {
                if self.config.show_preview {
                    self.fetch_preview_for_selected();
                    return;
                }
                if e.kind == EntryKind::File && e.text_previewable {
                    self.ask_text_dialog(e);
                    return;
                }
                return;
            },
            None => {
                return;
            },
        }
    }

    pub fn open_info_popup(&mut self, e: Entry)
        ensures
            final(self)@ == old(self)@.file_info_asked(e),
    {
        self.set_mode(InputMode::InfoLoading);
        self.load_as("Loading file info...");
        let request: AsyncRequest = self.begin_modal_request(AsyncRequestKind::Info, e.id);
        self.ask(Effect::FetchInfo { request, thumb_fallback: e.thumbnail_link });
    }

    fn target(&mut self, e: &Entry)
        ensures
            final(self)@ == old(self)@.targeting(*e),
    {
        self.preview_target_id = Some(e.id.clone());
        self.preview_target_name = Some(e.name.clone());
    }

    pub fn open_folder_info_popup(&mut self, e: Entry)
        ensures
            final(self)@ == old(self)@.folder_info_asked(e),
    {
        self.set_mode(InputMode::InfoLoading);
        self.load_as("Loading folder...");
        self.target(&e);
        let request: AsyncRequest = self.begin_modal_request(AsyncRequestKind::FolderPreview, e.id);
        self.ask(Effect::ListPreview { request });
    }

    fn ask_info(&mut self)
        ensures
            final(self)@ == old(self)@.info_asked(),
    {
        match self.current_entry() {
            Some(e) => {
                if e.kind == EntryKind::File {
                    self.open_info_popup(e);
                    return;
                }
                self.open_folder_info_popup(e);
                return;
            },
            None => {
                return;
            },
        }
    }

    fn open_settings(&mut self)
        ensures
            final(self)@ == old(self)@.settings_opened(),
    {
        let draft: TuiConfig = self.config.clone();
        self.set_mode(
            InputMode::Settings { selected: 0, editing: false, draft, modified: false },
        );
    }

    fn end_shares_wait(&mut self)
        ensures
            final(self)@ == (AppView { shares_pending: false, ..old(self)@ }),
    {
        self.shares_pending = false;
    }

    fn cancel_shares(&mut self)
        ensures
            final(self)@ == old(self)@.shares_cancelled(),
    {
        if self.shares_pending {
            self.end_shares_wait();
            self.finish_loading();
            return;
        }
    }

    fn star_current(&mut self)
        ensures
            final(self)@ == old(self)@.acted(NormalAction::Star),
    {
        reveal(AppView::acted);
        match self.current_entry() {
            Some(e) => {
                self.spawn_star_toggle(e);
                return;
            },
            None => {
                return;
            },
        }
    }

    fn copy_current_link(&mut self)
        ensures
            final(self)@ == old(self)@.acted(NormalAction::CopyLink),
    {
        reveal(AppView::acted);
        match self.current_entry() {
            Some(e) => {
                if e.kind == EntryKind::File {
                    self.ask(Effect::Remote(RemoteOp::CopyLink { id: e.id, name: e.name }));
                    return;
                }
                return;
            },
            None => {
                return;
            },
        }
    }

    fn pick_stream(&mut self)
        ensures
            final(self)@ == old(self)@.acted(NormalAction::PickStream),
    {
        reveal(AppView::acted);
        match self.current_entry() {
            Some(e) => {
                if e.kind == EntryKind::File && e.category == FileCategory::Video {
                    self.ask_streams(e);
                    return;
                }
                return;
            },
            None => {
                return;
            },
        }
    }

    /// Does what an action of the main pane stands for. The answer tells whether it ends the
    /// program.
    pub fn act(&mut self, action: NormalAction) -> (quit: bool)
        ensures
            final(self)@ == old(self)@.acted(action),
            quit == old(self)@.quits(action),
    {
        reveal(AppView::acted);
        match action {
            NormalAction::Quit => {
                if self.downloads_active {
                    self.set_mode(InputMode::ConfirmQuit);
                    return false;
                }
                return true;
            },
            NormalAction::Go(m) => {
                self.go(m);
                return false;
            },
            NormalAction::Open => {
                self.open_selected();
                return false;
            },
            NormalAction::Leave => {
                self.leave_folder();
                return false;
            },
            NormalAction::ToggleLogs => {
                self.toggle_logs();
                return false;
            },
            NormalAction::Refresh => {
                self.refresh();
                return false;
            },
            NormalAction::MoveEntry => {
                self.transfer_current(true);
                return false;
            },
            NormalAction::CopyEntry => {
                self.transfer_current(false);
                return false;
            },
            NormalAction::Rename => {
                if self.selected < self.entries.len() {
                    self.set_mode(InputMode::Rename { value: empty_text() });
                    return false;
                }
                return false;
            },
            NormalAction::Delete => {
                if self.selected < self.entries.len() {
                    self.set_mode(InputMode::ConfirmDelete);
                    return false;
                }
                return false;
            },
            NormalAction::Mkdir => {
                self.set_mode(InputMode::Mkdir { value: empty_text() });
                return false;
            },
            NormalAction::Help => {
                self.open_help();
                return false;
            },
            NormalAction::ToggleCart => {
                self.toggle_cart();
                return false;
            },
            NormalAction::Cart => {
                self.set_mode(InputMode::CartView);
                return false;
            },
            NormalAction::Downloads => {
                self.set_mode(InputMode::DownloadView);
                return false;
            },
            NormalAction::Shares => {
                self.open_my_shares_view();
                return false;
            },
            NormalAction::Star => {
                self.star_current();
                return false;
            },
            NormalAction::CopyLink => {
                self.copy_current_link();
                return false;
            },
            NormalAction::Upload => {
                self.ask(Effect::OpenLocalInput { for_upload: true });
                return false;
            },
            NormalAction::OfflineInput => {
                self.set_mode(InputMode::OfflineInput { value: empty_text() });
                return false;
            },
            NormalAction::SaveShare => {
                self.set_mode(InputMode::SaveShareInput { value: empty_text() });
                return false;
            },
            NormalAction::OfflineTasks => {
                self.open_offline_tasks_view();
                return false;
            },
            NormalAction::Trash => {
                self.open_trash_view();
                return false;
            },
            NormalAction::NextSort => {
                self.step_sort();
                return false;
            },
            NormalAction::ReverseSort => {
                self.reverse_sort();
                return false;
            },
            NormalAction::PickStream => {
                self.pick_stream();
                return false;
            },
            NormalAction::Preview => {
                self.preview_selected();
                return false;
            },
            NormalAction::Settings => {
                self.open_settings();
                return false;
            },
            NormalAction::ActionMenu => {
                self.set_mode(InputMode::ActionMenu { selected: 0 });
                return false;
            },
            NormalAction::Info => {
                self.ask_info();
                return false;
            },
            NormalAction::GotoPath => {
                self.set_mode(InputMode::GotoPath { query: empty_text() });
                return false;
            },
            NormalAction::Cancel => {
                self.cancel_shares();
                return false;
            },
            NormalAction::Nothing => {
                return false;
            },
        }
    }

    /// Handles a key of the main pane. The answer tells whether it ends the program.
    pub fn handle_normal_key(&mut self, code: KeyCode, modifiers: KeyModifiers) -> (quit: bool)
        ensures
            final(self)@ == old(self)@.acted(binding(code, modifiers)),
            quit == old(self)@.quits(binding(code, modifiers)),
    {
        reveal(AppView::acted);
        self.act(bound(code, modifiers))
    }
}

/// The index that the cursor comes back to in a list of `n` entries; as it was where the list is
/// not known yet.
fn restored_index(i: usize, n: usize) -> (r: usize)
    ensures
        r == (if n == 0 {
            i
        } else {
            clamped(i, n as nat)
        }),
{
    if n == 0 {
        i
    } else {
        clamp_index(i, n)
    }
}

/// No entry is in the cart twice.
pub open spec fn no_duplicates(cart: Seq<Entry>) -> bool {
    forall|i: int, j: int|
        0 <= i < j < cart.len() ==> (#[trigger] cart[i]).id@ != (#[trigger] cart[j]).id@
}

proof fn lemma_without_id(v: Seq<Entry>, id: Chars)
    requires
        no_duplicates(v),
    ensures
        no_duplicates(without_id(v, id)),
        forall|i: int|
            0 <= i < without_id(v, id).len() ==> (#[trigger] without_id(v, id)[i]).id@ != id
                && v.contains(without_id(v, id)[i]),
    decreases v.len(),
{
    if v.len() > 0 {
        let rest = v.drop_last();
        assert forall|i: int, j: int| 0 <= i < j < rest.len() implies (#[trigger] rest[i]).id@ != (
        #[trigger] rest[j]).id@ by {
            assert(v[i].id@ != v[j].id@);
        }
        lemma_without_id(rest, id);
        let kept = without_id(rest, id);
        assert forall|i: int| 0 <= i < kept.len() implies v.contains(#[trigger] kept[i]) && kept[i].id@
            != v.last().id@ by {
            let k = choose|k: int| 0 <= k < rest.len() && rest[k] == kept[i];
            assert(rest.contains(kept[i]));
            assert(v[k] == kept[i]);
            assert(v[k].id@ != v[v.len() - 1].id@);
        }
        if v.last().id@ != id {
            assert(v.contains(v[v.len() - 1]));
        }
    }
}

proof fn lemma_find_none(v: Seq<Entry>, id: Chars)
    requires
        find_entry(v, id) is None,
    ensures
        forall|i: int| 0 <= i < v.len() ==> (#[trigger] v[i]).id@ != id,
    decreases v.len(),
{
    if v.len() > 0 {
        lemma_find_none(v.drop_last(), id);
        assert forall|i: int| 0 <= i < v.len() implies (#[trigger] v[i]).id@ != id by {
            if i < v.len() - 1 {
                assert(v.drop_last()[i] == v[i]);
            }
        }
    }
}

/// Putting an entry into the cart and taking it out again keeps each entry there at most once.
pub proof fn law_cart_has_no_duplicates(a: AppView)
    requires
        no_duplicates(a.cart),
    ensures
        no_duplicates(a.cart_toggled().cart),
{
    match a.current() {
        Some(e) => {
            if find_entry(a.cart, e.id@) is Some {
                lemma_without_id(a.cart, e.id@);
            } else {
                lemma_find_none(a.cart, e.id@);
            }
        },
        None => {},
    }
}

/// Opening a folder whose entries are known already, or going back to a parent whose entries are
/// known, ends the loading sign of the listing that it makes void.
pub proof fn law_known_listing_ends_loading(a: AppView, e: Entry)
    ensures
        cached_children(a.preview_target_id, a.preview_state, e.id@) is Some
            ==> !a.folder_entered(e).loading && a.folder_entered(e).main_listing_request_id
            != a.main_listing_request_id,
        a.breadcrumb.len() > 0 && a.parent_entries.len() > 0 ==> !a.left().loading
            && a.left().main_listing_request_id != a.main_listing_request_id,
{
}

} // verus!
