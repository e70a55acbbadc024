//! The keys of the trash, the shares, the offline tasks, the downloads and the inputs that go
//! with them.

use crate::app::{entry_at, App, AppView};
use crate::effect::{CopySource, Effect, EffectView, LocalStep, RemoteOp, RemoteOpView};
use crate::event::{KeyCode, KeyModifiers};
use crate::model::{
    clone_entries, shares_view, AsyncRequest, AsyncRequestKind, DownloadTask, Entry, EntryKind,
    FileInfo, FileInfoView, InputMode, LocalPathInput, LocalPathInputView, ModeView, MyShare,
    OfflineTask, TaskStatus,
};
use crate::results::first_link;
use crate::share::{extract_share_id, share_id_of};
use crate::text::{
    cat2, cat3, dec, decimal, opt_text, owned, split_words, str_eq, texts, trim, trimmed, words,
    Chars,
};
use crate::transfer::{cursor_down, cursor_up, go_down, go_up};
use vstd::prelude::*;

verus! {

// ---------------------------------------------------------------------------------------------
// The trash.

/// What a key of the trash does.
#[derive(Clone, Copy, Debug, PartialEq, Eq, Structural)]
pub enum TrashAction {
    Close,
    Down,
    Up,
    Spread,
    Restore,
    Erase,
    Info,
    Reload,
    Nothing,
}

pub open spec fn trash_binding(code: KeyCode) -> TrashAction {
    match code {
        KeyCode::Esc => TrashAction::Close,
        KeyCode::Down => TrashAction::Down,
        KeyCode::Up => TrashAction::Up,
        KeyCode::Enter => TrashAction::Spread,
        KeyCode::Char(c) => if c == 'j' {
            TrashAction::Down
        } else if c == 'k' {
            TrashAction::Up
        } else if c == 'u' {
            TrashAction::Restore
        } else if c == 'x' {
            TrashAction::Erase
        } else if c == ' ' {
            TrashAction::Info
        } else if c == 'r' {
            TrashAction::Reload
        } else {
            TrashAction::Nothing
        },
        _ => TrashAction::Nothing,
    }
}

fn trash_bound(code: KeyCode) -> (r: TrashAction)
    ensures
        r == trash_binding(code),
{
    match code {
        KeyCode::Esc => TrashAction::Close,
        KeyCode::Down => TrashAction::Down,
        KeyCode::Up => TrashAction::Up,
        KeyCode::Enter => TrashAction::Spread,
        KeyCode::Char(c) => if c == 'j' {
            TrashAction::Down
        } else if c == 'k' {
            TrashAction::Up
        } else if c == 'u' {
            TrashAction::Restore
        } else if c == 'x' {
            TrashAction::Erase
        } else if c == ' ' {
            TrashAction::Info
        } else if c == 'r' {
            TrashAction::Reload
        } else {
            TrashAction::Nothing
        },
        _ => TrashAction::Nothing,
    }
}

/// A text where it is not empty.
pub open spec fn unless_empty(s: Chars) -> Option<Chars> {
    if s.len() > 0 {
        Some(s)
    } else {
        None
    }
}

fn some_text(s: String) -> (r: Option<String>)
    ensures
        opt_text(r) == unless_empty(s@),
{
    if s.as_str().is_empty() {
        None
    } else {
        Some(s)
    }
}

pub open spec fn kind_text(kind: EntryKind) -> Chars {
    match kind {
        EntryKind::Folder => "drive#folder"@,
        EntryKind::File => "drive#file"@,
    }
}

/// The size as text, where it is known.
pub open spec fn size_text(size: u64) -> Option<Chars> {
    if size > 0 {
        Some(decimal(size as nat))
    } else {
        None
    }
}

fn size_label(size: u64) -> (r: Option<String>)
    ensures
        opt_text(r) == size_text(size),
{
    if size > 0 {
        Some(dec(size))
    } else {
        None
    }
}

/// The details of an entry that lies in the trash.
pub open spec fn trashed_info(e: Entry) -> FileInfoView {
    FileInfoView {
        id: Some(e.id@),
        name: e.name@,
        kind: Some(kind_text(e.kind)),
        size: size_text(e.size),
        hash: None,
        mime_type: None,
        created_time: unless_empty(e.created_time@),
        modified_time: unless_empty(e.modified_time@),
        web_content_link: None,
        thumbnail_link: opt_text(e.thumbnail_link),
        octet_link: None,
        medias: Seq::empty(),
    }
}

fn info_of_trashed(e: Entry) -> (r: FileInfo)
    ensures
        r@ == trashed_info(e),
{
    let kind: String = match e.kind {
        EntryKind::Folder => owned("drive#folder"),
        EntryKind::File => owned("drive#file"),
    };
    FileInfo {
        id: Some(e.id),
        name: e.name,
        kind: Some(kind),
        size: size_label(e.size),
        hash: None,
        mime_type: None,
        created_time: some_text(e.created_time),
        modified_time: some_text(e.modified_time),
        web_content_link: None,
        thumbnail_link: e.thumbnail_link,
        octet_link: None,
        medias: Vec::new(),
    }
}

fn link_of(o: &Option<String>) -> (r: Option<String>)
    ensures
        opt_text(r) == first_link(opt_text(*o), None),
{
    match o {
        Some(u) => if u.as_str().is_empty() {
            None
        } else {
            Some(u.clone())
        },
        None => None,
    }
}

impl AppView {
    pub open spec fn trash_mode(self, entries: Seq<Entry>, selected: usize, expanded: bool) -> AppView {
        self.in_mode(ModeView::TrashView { entries, selected, expanded })
    }

    pub open spec fn trash_spread_kept(self, expanded: bool) -> AppView {
        AppView { trash_expanded: expanded, ..self }
    }

    pub open spec fn trash_cursor_kept(self, selected: usize) -> AppView {
        AppView { trash_selected: selected, ..self }
    }

    /// With the trash remembered as it is shown.
    pub open spec fn trash_kept(self, entries: Seq<Entry>, selected: usize, expanded: bool) -> AppView {
        AppView {
            trash_entries: entries,
            trash_selected: selected,
            trash_expanded: expanded,
            ..self
        }
    }

    pub open spec fn trash_op_asked(
        self,
        entries: Seq<Entry>,
        selected: usize,
        expanded: bool,
        label: Chars,
        op: RemoteOpView,
    ) -> AppView {
        self.trash_kept(entries, selected, expanded).trash_mode(
            entries,
            selected,
            expanded,
        ).loading_as(label).asking(EffectView::Remote(op))
    }

    /// With the details of an entry in the trash opened.
    pub open spec fn trash_info_opened(
        self,
        entries: Seq<Entry>,
        selected: usize,
        expanded: bool,
    ) -> AppView {
        let e = entries[selected as int];
        let a = self.trash_kept(entries, selected, expanded);
        a.modal_begun(AsyncRequestKind::Info, e.id@).info_opened(
            a.request_of(AsyncRequestKind::Info, e.id@),
            trashed_info(e),
            first_link(opt_text(e.thumbnail_link), None),
        )
    }

    pub open spec fn trash_closed(self, entries: Seq<Entry>, selected: usize, expanded: bool) -> AppView {
        if expanded {
            self.trash_spread_kept(false).trash_mode(entries, selected, false)
        } else {
            self.trash_kept(Seq::empty(), 0, false)
        }
    }

    #[verifier::opaque]
    pub open spec fn trash_key(
        self,
        entries: Seq<Entry>,
        selected: usize,
        expanded: bool,
        code: KeyCode,
    ) -> AppView {
        if self.loading {
            if code == KeyCode::Esc {
                self.finished_loading().trash_mode(entries, selected, expanded)
            } else {
                self.trash_mode(entries, selected, expanded)
            }
        } else {
            let here = entry_at(entries, selected);
            match trash_binding(code) {
                TrashAction::Close => self.trash_closed(entries, selected, expanded),
                TrashAction::Down => {
                    let at = cursor_down(selected, entries.len());
                    self.trash_cursor_kept(at).trash_mode(entries, at, expanded)
                },
                TrashAction::Up => {
                    let at = cursor_up(selected);
                    self.trash_cursor_kept(at).trash_mode(entries, at, expanded)
                },
                TrashAction::Spread => self.trash_spread_kept(!expanded).trash_mode(
                    entries,
                    selected,
                    !expanded,
                ),
                TrashAction::Restore => match here {
                    Some(e) => self.trash_op_asked(
                        entries,
                        selected,
                        expanded,
                        "Restoring..."@,
                        RemoteOpView::Untrash { id: e.id@, name: e.name@ },
                    ),
                    None => self.trash_mode(entries, selected, expanded),
                },
                TrashAction::Erase => match here {
                    Some(e) => self.trash_op_asked(
                        entries,
                        selected,
                        expanded,
                        "Deleting..."@,
                        RemoteOpView::DeleteTrashed { id: e.id@, name: e.name@ },
                    ),
                    None => self.trash_mode(entries, selected, expanded),
                },
                TrashAction::Info => match here {
                    Some(_) => self.trash_info_opened(entries, selected, expanded),
                    None => self.trash_mode(entries, selected, expanded),
                },
                TrashAction::Reload => self.trash_spread_kept(expanded).trash_reopened(),
                TrashAction::Nothing => self.trash_mode(entries, selected, expanded),
            }
        }
    }
}

impl App {
    fn show_trash_mode(&mut self, entries: Vec<Entry>, selected: usize, expanded: bool)
        ensures
            final(self)@ == old(self)@.trash_mode(entries@, selected, expanded),
    {
        self.input = InputMode::TrashView { entries, selected, expanded };
    }

    fn keep_trash_spread(&mut self, expanded: bool)
        ensures
            final(self)@ == old(self)@.trash_spread_kept(expanded),
    {
        self.trash_expanded = expanded;
    }

    pub(crate) fn keep_trash_cursor(&mut self, selected: usize)
        ensures
            final(self)@ == old(self)@.trash_cursor_kept(selected),
    {
        self.trash_selected = selected;
    }

    fn keep_trash(&mut self, entries: Vec<Entry>, selected: usize, expanded: bool)
        ensures
            final(self)@ == old(self)@.trash_kept(entries@, selected, expanded),
    {
        self.trash_entries = entries;
        self.trash_selected = selected;
        self.trash_expanded = expanded;
    }

    fn ask_trash_op(
        &mut self,
        entries: Vec<Entry>,
        selected: usize,
        expanded: bool,
        label: &str,
        op: RemoteOp,
    )
        ensures
            final(self)@ == old(self)@.trash_op_asked(
                entries@,
                selected,
                expanded,
                label@,
                op@,
            ),
    {
        let copy: Vec<Entry> = clone_entries(&entries);
        self.keep_trash(copy, selected, expanded);
        self.show_trash_mode(entries, selected, expanded);
        self.load_as(label);
        self.ask(Effect::Remote(op));
    }

    fn open_trash_info(&mut self, entries: Vec<Entry>, selected: usize, expanded: bool)
        requires
            selected < entries@.len(),
        ensures
            final(self)@ == old(self)@.trash_info_opened(entries@, selected, expanded),
    {
        let e: Entry = entries[selected].clone();
        self.keep_trash(entries, selected, expanded);
        let url: Option<String> = link_of(&e.thumbnail_link);
        let request: AsyncRequest = self.begin_modal_request(AsyncRequestKind::Info, e.id.clone());
        let info: FileInfo = info_of_trashed(e);
        self.open_info(request, info, url);
    }

    fn close_trash(&mut self, entries: Vec<Entry>, selected: usize, expanded: bool)
        ensures
            final(self)@ == old(self)@.trash_closed(entries@, selected, expanded),
    {
        if expanded {
            self.keep_trash_spread(false);
            self.show_trash_mode(entries, selected, false);
            return;
        }
        self.keep_trash(Vec::new(), 0, false);
    }

    fn move_in_trash(&mut self, entries: Vec<Entry>, at: usize, expanded: bool)
        ensures
            final(self)@ == old(self)@.trash_cursor_kept(at).trash_mode(entries@, at, expanded),
    {
        self.keep_trash_cursor(at);
        self.show_trash_mode(entries, at, expanded);
    }

    pub fn handle_trash_view_key(
        &mut self,
        code: KeyCode,
        entries: Vec<Entry>,
        selected: usize,
        expanded: bool,
    )
        ensures
            final(self)@ == old(self)@.trash_key(entries@, selected, expanded, code),
    {
        reveal(AppView::trash_key);
        if self.loading {
            if code == KeyCode::Esc {
                self.finish_loading();
                self.show_trash_mode(entries, selected, expanded);
                return;
            }
            self.show_trash_mode(entries, selected, expanded);
            return;
        }
        match trash_bound(code) {
            TrashAction::Close => {
                self.close_trash(entries, selected, expanded);
                return;
            },
            TrashAction::Down => {
                let at: usize = go_down(selected, entries.len());
                self.move_in_trash(entries, at, expanded);
                return;
            },
            TrashAction::Up => {
                let at: usize = go_up(selected);
                self.move_in_trash(entries, at, expanded);
                return;
            },
            TrashAction::Spread => {
                self.keep_trash_spread(!expanded);
                self.show_trash_mode(entries, selected, !expanded);
                return;
            },
            TrashAction::Restore => {
                if selected < entries.len() {
                    let id: String = entries[selected].id.clone();
                    let name: String = entries[selected].name.clone();
                    let op: RemoteOp = RemoteOp::Untrash { id, name };
                    self.ask_trash_op(entries, selected, expanded, "Restoring...", op);
                    return;
                }
                self.show_trash_mode(entries, selected, expanded);
                return;
            },
            TrashAction::Erase => {
                if selected < entries.len() {
                    let id: String = entries[selected].id.clone();
                    let name: String = entries[selected].name.clone();
                    let op: RemoteOp = RemoteOp::DeleteTrashed { id, name };
                    self.ask_trash_op(entries, selected, expanded, "Deleting...", op);
                    return;
                }
                self.show_trash_mode(entries, selected, expanded);
                return;
            },
            TrashAction::Info => {
                if selected < entries.len() {
                    self.open_trash_info(entries, selected, expanded);
                    return;
                }
                self.show_trash_mode(entries, selected, expanded);
                return;
            },
            TrashAction::Reload => {
                self.keep_trash_spread(expanded);
                self.open_trash_view_preserve();
                return;
            },
            TrashAction::Nothing => {
                self.show_trash_mode(entries, selected, expanded);
                return;
            },
        }
    }
}

// ---------------------------------------------------------------------------------------------
// Shares.

/// What a key of the list of shares does.
#[derive(Clone, Copy, Debug, PartialEq, Eq, Structural)]
pub enum SharesAction {
    Close,
    Down,
    Up,
    CopyLink,
    ToggleLogs,
    Delete,
    Reload,
    Nothing,
}

pub open spec fn shares_binding(code: KeyCode) -> SharesAction {
    match code {
        KeyCode::Esc => SharesAction::Close,
        KeyCode::Down => SharesAction::Down,
        KeyCode::Up => SharesAction::Up,
        KeyCode::Char(c) => if c == 'j' {
            SharesAction::Down
        } else if c == 'k' {
            SharesAction::Up
        } else if c == 'y' {
            SharesAction::CopyLink
        } else if c == 'l' {
            SharesAction::ToggleLogs
        } else if c == 'd' || c == 'x' {
            SharesAction::Delete
        } else if c == 'r' {
            SharesAction::Reload
        } else {
            SharesAction::Nothing
        },
        _ => SharesAction::Nothing,
    }
}

fn shares_bound(code: KeyCode) -> (r: SharesAction)
    ensures
        r == shares_binding(code),
{
    match code {
        KeyCode::Esc => SharesAction::Close,
        KeyCode::Down => SharesAction::Down,
        KeyCode::Up => SharesAction::Up,
        KeyCode::Char(c) => if c == 'j' {
            SharesAction::Down
        } else if c == 'k' {
            SharesAction::Up
        } else if c == 'y' {
            SharesAction::CopyLink
        } else if c == 'l' {
            SharesAction::ToggleLogs
        } else if c == 'd' || c == 'x' {
            SharesAction::Delete
        } else if c == 'r' {
            SharesAction::Reload
        } else {
            SharesAction::Nothing
        },
        _ => SharesAction::Nothing,
    }
}

impl AppView {
    pub open spec fn shares_mode(
        self,
        shares: Seq<MyShare>,
        selected: usize,
        confirm_delete: Option<Chars>,
    ) -> AppView {
        self.in_mode(ModeView::MySharesView { shares, selected, confirm_delete })
    }

    pub open spec fn logs_flipped(self) -> AppView {
        AppView { show_logs_overlay: !self.show_logs_overlay, ..self }
    }

    pub open spec fn logs_opened(self) -> AppView {
        AppView { show_logs_overlay: true, ..self }
    }

    #[verifier::opaque]
    pub open spec fn shares_key(
        self,
        shares: Seq<MyShare>,
        selected: usize,
        confirm_delete: Option<Chars>,
        code: KeyCode,
    ) -> AppView {
        let same = self.shares_mode(shares, selected, None);
        match confirm_delete {
            Some(share_id) => if code == KeyCode::Char('y') || code == KeyCode::Enter {
                self.is_loading().shares_mode(shares, selected, None).asking(
                    EffectView::Remote(RemoteOpView::DeleteShare { share_id }),
                )
            } else {
                same
            },
            None => match shares_binding(code) {
                SharesAction::Close => self.in_mode(ModeView::Normal),
                SharesAction::Down => self.shares_mode(
                    shares,
                    cursor_down(selected, shares.len()),
                    None,
                ),
                SharesAction::Up => self.shares_mode(shares, cursor_up(selected), None),
                SharesAction::CopyLink => if selected < shares.len() {
                    same.asking(
                        EffectView::WriteClipboard {
                            text: shares[selected as int].share_url@,
                            source: CopySource::MyShares,
                        },
                    )
                } else {
                    same
                },
                SharesAction::ToggleLogs => self.logs_flipped().shares_mode(
                    shares,
                    selected,
                    None,
                ),
                SharesAction::Delete => if selected < shares.len() {
                    self.shares_mode(
                        shares,
                        selected,
                        Some(shares[selected as int].share_id@),
                    )
                } else {
                    same
                },
                SharesAction::Reload => self.loading_as("Loading shares..."@).shares_mode(
                    shares,
                    selected,
                    None,
                ).asking(EffectView::ListShares),
                SharesAction::Nothing => same,
            },
        }
    }

    /// The shares that were just made, as long as there are any.
    pub open spec fn created_mode(self, shares: Seq<(Chars, Chars, Chars)>) -> AppView {
        self.in_mode(ModeView::ShareCreatedView { shares })
    }

    #[verifier::opaque]
    pub open spec fn created_shares_key(
        self,
        shares: Seq<(Chars, Chars, Chars)>,
        code: KeyCode,
        modifiers: KeyModifiers,
    ) -> AppView {
        if code == KeyCode::Esc {
            if modifiers.control || shares.len() <= 1 {
                self.in_mode(ModeView::CartView)
            } else {
                self.created_mode(shares.drop_last())
            }
        } else if code == KeyCode::Char('y') && shares.len() > 0 {
            self.created_mode(shares).asking(
                EffectView::WriteClipboard {
                    text: shares.last().1,
                    source: CopySource::CreatedShare,
                },
            )
        } else {
            self.created_mode(shares)
        }
    }

    /// After a link was written to the clipboard, or was not. Nothing is told of the link of a share
    /// that has just been made.
    pub open spec fn link_copied(
        self,
        text: Chars,
        source: CopySource,
        result: Result<(), String>,
    ) -> AppView {
        match source {
            CopySource::NewShare => self,
            CopySource::CreatedShare => match result {
                Ok(_) => self.logged("Copied URL: "@ + text),
                Err(e) => self.logged("Clipboard failed: "@ + e@),
            },
            CopySource::MyShares => match result {
                Ok(_) => self.logged("Copied: "@ + text).logs_opened(),
                Err(e) => self.logged("Clipboard failed: "@ + e@).logs_opened(),
            },
        }
    }
}

impl App {
    fn show_shares_mode(
        &mut self,
        shares: Vec<MyShare>,
        selected: usize,
        confirm_delete: Option<String>,
    )
        ensures
            final(self)@ == old(self)@.shares_mode(shares@, selected, opt_text(confirm_delete)),
    {
        self.input = InputMode::MySharesView { shares, selected, confirm_delete };
    }

    fn flip_logs(&mut self)
        ensures
            final(self)@ == old(self)@.logs_flipped(),
    {
        self.show_logs_overlay = !self.show_logs_overlay;
    }

    fn confirm_share_key(
        &mut self,
        code: KeyCode,
        shares: Vec<MyShare>,
        selected: usize,
        share_id: String,
    )
        ensures
            final(self)@ == old(self)@.shares_key(shares@, selected, Some(share_id@), code),
    {
        reveal(AppView::shares_key);
        if code == KeyCode::Char('y') || code == KeyCode::Enter {
            self.start_loading();
            self.show_shares_mode(shares, selected, None);
            self.ask(Effect::Remote(RemoteOp::DeleteShare { share_id }));
            return;
        }
        self.show_shares_mode(shares, selected, None);
    }

    fn browse_shares_key(&mut self, code: KeyCode, shares: Vec<MyShare>, selected: usize)
        ensures
            final(self)@ == old(self)@.shares_key(shares@, selected, None, code),
    {
        reveal(AppView::shares_key);
        match shares_bound(code) {
            SharesAction::Close => {
                self.set_mode(InputMode::Normal);
                return;
            },
            SharesAction::Down => {
                let at: usize = go_down(selected, shares.len());
                self.show_shares_mode(shares, at, None);
                return;
            },
            SharesAction::Up => {
                self.show_shares_mode(shares, go_up(selected), None);
                return;
            },
            SharesAction::CopyLink => {
                if selected < shares.len() {
                    let text: String = shares[selected].share_url.clone();
                    self.show_shares_mode(shares, selected, None);
                    self.ask(Effect::WriteClipboard { text, source: CopySource::MyShares });
                    return;
                }
                self.show_shares_mode(shares, selected, None);
                return;
            },
            SharesAction::ToggleLogs => {
                self.flip_logs();
                self.show_shares_mode(shares, selected, None);
                return;
            },
            SharesAction::Delete => {
                if selected < shares.len() {
                    let id: String = shares[selected].share_id.clone();
                    self.show_shares_mode(shares, selected, Some(id));
                    return;
                }
                self.show_shares_mode(shares, selected, None);
                return;
            },
            SharesAction::Reload => {
                self.load_as("Loading shares...");
                self.show_shares_mode(shares, selected, None);
                self.ask(Effect::ListShares);
                return;
            },
            SharesAction::Nothing => {
                self.show_shares_mode(shares, selected, None);
                return;
            },
        }
    }

    pub fn handle_my_shares_key(
        &mut self,
        code: KeyCode,
        shares: Vec<MyShare>,
        selected: usize,
        confirm_delete: Option<String>,
    )
        ensures
            final(self)@ == old(self)@.shares_key(
                shares@,
                selected,
                opt_text(confirm_delete),
                code,
            ),
    {
        reveal(AppView::shares_key);
        match confirm_delete {
            Some(id) => {
                self.confirm_share_key(code, shares, selected, id);
                return;
            },
            None => {
                self.browse_shares_key(code, shares, selected);
                return;
            },
        }
    }

    fn show_created(&mut self, shares: Vec<(String, String, String)>)
        ensures
            final(self)@ == old(self)@.created_mode(shares_view(shares@)),
    {
        self.input = InputMode::ShareCreatedView { shares };
    }

    pub fn handle_share_created_view_key(
        &mut self,
        code: KeyCode,
        modifiers: KeyModifiers,
        shares: Vec<(String, String, String)>,
    )
        ensures
            final(self)@ == old(self)@.created_shares_key(shares_view(shares@), code, modifiers),
    {
        reveal(AppView::created_shares_key);
        let n: usize = shares.len();
        if code == KeyCode::Esc {
            if modifiers.control || n <= 1 {
                self.set_mode(InputMode::CartView);
                return;
            }
            let mut rest: Vec<(String, String, String)> = shares;
            rest.pop();
            assert(shares_view(rest@) =~= shares_view(shares@).drop_last());
            self.show_created(rest);
            return;
        }
        if code == KeyCode::Char('y') && n > 0 {
            let text: String = shares[n - 1].1.clone();
            self.show_created(shares);
            self.ask(Effect::WriteClipboard { text, source: CopySource::CreatedShare });
            return;
        }
        self.show_created(shares);
    }

    fn log_copied(&mut self, before: &str, text: &str, result: Result<(), String>)
        ensures
            final(self)@ == (match result {
                Ok(_) => old(self)@.logged(before@ + text@),
                Err(e) => old(self)@.logged("Clipboard failed: "@ + e@),
            }),
    {
        match result {
            Ok(_) => {
                self.push_log(cat2(before, text));
                return;
            },
            Err(e) => {
                self.push_log(cat2("Clipboard failed: ", e.as_str()));
                return;
            },
        }
    }

    fn open_logs(&mut self)
        ensures
            final(self)@ == old(self)@.logs_opened(),
    {
        self.show_logs_overlay = true;
    }

    /// Tells how copying a link went.
    pub fn clipboard_written(&mut self, text: String, source: CopySource, result: Result<(), String>)
        ensures
            final(self)@ == old(self)@.link_copied(text@, source, result),
    {
        match source {
            CopySource::NewShare => {
                return;
            },
            CopySource::CreatedShare => {
                self.log_copied("Copied URL: ", text.as_str(), result);
                return;
            },
            CopySource::MyShares => {
                self.log_copied("Copied: ", text.as_str(), result);
                self.open_logs();
                return;
            },
        }
    }
}

// ---------------------------------------------------------------------------------------------
// Offline tasks.

/// What a key of the list of offline tasks does.
#[derive(Clone, Copy, Debug, PartialEq, Eq, Structural)]
pub enum TasksAction {
    Close,
    Down,
    Up,
    Reload,
    Retry,
    Delete,
    Nothing,
}

pub open spec fn tasks_binding(code: KeyCode) -> TasksAction {
    match code {
        KeyCode::Esc => TasksAction::Close,
        KeyCode::Down => TasksAction::Down,
        KeyCode::Up => TasksAction::Up,
        KeyCode::Char(c) => if c == 'j' {
            TasksAction::Down
        } else if c == 'k' {
            TasksAction::Up
        } else if c == 'r' {
            TasksAction::Reload
        } else if c == 'R' {
            TasksAction::Retry
        } else if c == 'x' {
            TasksAction::Delete
        } else {
            TasksAction::Nothing
        },
        _ => TasksAction::Nothing,
    }
}

fn tasks_bound(code: KeyCode) -> (r: TasksAction)
    ensures
        r == tasks_binding(code),
{
    match code {
        KeyCode::Esc => TasksAction::Close,
        KeyCode::Down => TasksAction::Down,
        KeyCode::Up => TasksAction::Up,
        KeyCode::Char(c) => if c == 'j' {
            TasksAction::Down
        } else if c == 'k' {
            TasksAction::Up
        } else if c == 'r' {
            TasksAction::Reload
        } else if c == 'R' {
            TasksAction::Retry
        } else if c == 'x' {
            TasksAction::Delete
        } else {
            TasksAction::Nothing
        },
        _ => TasksAction::Nothing,
    }
}

impl AppView {
    pub open spec fn tasks_mode(self, tasks: Seq<OfflineTask>, selected: usize) -> AppView {
        self.in_mode(ModeView::OfflineTasksView { tasks, selected })
    }

    pub open spec fn task_op_asked(self, label: Chars, op: RemoteOpView) -> AppView {
        self.in_mode(ModeView::InfoLoading).loading_as(label).asking(EffectView::Remote(op))
    }

    #[verifier::opaque]
    pub open spec fn tasks_key(
        self,
        tasks: Seq<OfflineTask>,
        selected: usize,
        code: KeyCode,
    ) -> AppView {
        match tasks_binding(code) {
            TasksAction::Close => self,
            TasksAction::Down => self.tasks_mode(tasks, cursor_down(selected, tasks.len())),
            TasksAction::Up => self.tasks_mode(tasks, cursor_up(selected)),
            TasksAction::Reload => self.offline_tasks_opened(),
            TasksAction::Retry => if selected < tasks.len() && tasks[selected as int].phase@
                == "PHASE_TYPE_ERROR"@ {
                self.task_op_asked(
                    "Retrying task..."@,
                    RemoteOpView::RetryTask {
                        id: tasks[selected as int].id@,
                        name: tasks[selected as int].name@,
                    },
                )
            } else {
                self.tasks_mode(tasks, selected)
            },
            TasksAction::Delete => if selected < tasks.len() {
                self.task_op_asked(
                    "Deleting task..."@,
                    RemoteOpView::DeleteTask {
                        id: tasks[selected as int].id@,
                        name: tasks[selected as int].name@,
                    },
                )
            } else {
                self.tasks_mode(tasks, selected)
            },
            TasksAction::Nothing => self.tasks_mode(tasks, selected),
        }
    }
}

impl App {
    fn show_tasks(&mut self, tasks: Vec<OfflineTask>, selected: usize)
        ensures
            final(self)@ == old(self)@.tasks_mode(tasks@, selected),
    {
        self.input = InputMode::OfflineTasksView { tasks, selected };
    }

    fn ask_task_op(&mut self, label: &str, op: RemoteOp)
        ensures
            final(self)@ == old(self)@.task_op_asked(label@, op@),
    {
        self.set_mode(InputMode::InfoLoading);
        self.load_as(label);
        self.ask(Effect::Remote(op));
    }

    pub fn handle_offline_tasks_key(
        &mut self,
        code: KeyCode,
        tasks: Vec<OfflineTask>,
        selected: usize,
    )
        ensures
            final(self)@ == old(self)@.tasks_key(tasks@, selected, code),
    {
        reveal(AppView::tasks_key);
        match tasks_bound(code) {
            TasksAction::Close => {
                return;
            },
            TasksAction::Down => {
                let at: usize = go_down(selected, tasks.len());
                self.show_tasks(tasks, at);
                return;
            },
            TasksAction::Up => {
                self.show_tasks(tasks, go_up(selected));
                return;
            },
            TasksAction::Reload => {
                self.open_offline_tasks_view();
                return;
            },
            TasksAction::Retry => {
                if selected < tasks.len() && str_eq(
                    tasks[selected].phase.as_str(),
                    "PHASE_TYPE_ERROR",
                ) {
                    let id: String = tasks[selected].id.clone();
                    let name: String = tasks[selected].name.clone();
                    self.ask_task_op("Retrying task...", RemoteOp::RetryTask { id, name });
                    return;
                }
                self.show_tasks(tasks, selected);
                return;
            },
            TasksAction::Delete => {
                if selected < tasks.len() {
                    let id: String = tasks[selected].id.clone();
                    let name: String = tasks[selected].name.clone();
                    self.ask_task_op("Deleting task...", RemoteOp::DeleteTask { id, name });
                    return;
                }
                self.show_tasks(tasks, selected);
                return;
            },
            TasksAction::Nothing => {
                self.show_tasks(tasks, selected);
                return;
            },
        }
    }
}

// ---------------------------------------------------------------------------------------------
// Downloads.

/// What a key of the downloads does.
#[derive(Clone, Copy, Debug, PartialEq, Eq, Structural)]
pub enum DownloadsAction {
    Close,
    Spread,
    Down,
    Up,
    PauseOrResume,
    Cancel,
    Retry,
    Nothing,
}

pub open spec fn downloads_binding(code: KeyCode) -> DownloadsAction {
    match code {
        KeyCode::Esc => DownloadsAction::Close,
        KeyCode::Enter => DownloadsAction::Spread,
        KeyCode::Down => DownloadsAction::Down,
        KeyCode::Up => DownloadsAction::Up,
        KeyCode::Char(c) => if c == 'j' {
            DownloadsAction::Down
        } else if c == 'k' {
            DownloadsAction::Up
        } else if c == 'p' {
            DownloadsAction::PauseOrResume
        } else if c == 'x' {
            DownloadsAction::Cancel
        } else if c == 'r' {
            DownloadsAction::Retry
        } else {
            DownloadsAction::Nothing
        },
        _ => DownloadsAction::Nothing,
    }
}

fn downloads_bound(code: KeyCode) -> (r: DownloadsAction)
    ensures
        r == downloads_binding(code),
{
    match code {
        KeyCode::Esc => DownloadsAction::Close,
        KeyCode::Enter => DownloadsAction::Spread,
        KeyCode::Down => DownloadsAction::Down,
        KeyCode::Up => DownloadsAction::Up,
        KeyCode::Char(c) => if c == 'j' {
            DownloadsAction::Down
        } else if c == 'k' {
            DownloadsAction::Up
        } else if c == 'p' {
            DownloadsAction::PauseOrResume
        } else if c == 'x' {
            DownloadsAction::Cancel
        } else if c == 'r' {
            DownloadsAction::Retry
        } else {
            DownloadsAction::Nothing
        },
        _ => DownloadsAction::Nothing,
    }
}

/// A download in another state.
pub open spec fn with_status(t: DownloadTask, status: TaskStatus) -> DownloadTask {
    DownloadTask { status, ..t }
}

fn set_status(v: &mut Vec<DownloadTask>, i: usize, status: TaskStatus)
    requires
        i < old(v)@.len(),
    ensures
        final(v)@ == old(v)@.update(i as int, with_status(old(v)@[i as int], status)),
{
    let t: DownloadTask = DownloadTask {
        id: v[i].id,
        name: v[i].name.clone(),
        total_size: v[i].total_size,
        downloaded: v[i].downloaded,
        status,
    };
    v.set(i, t);
}

impl AppView {
    pub open spec fn downloads_cursor(self, at: usize) -> AppView {
        AppView { downloads_selected: at, ..self }
    }

    pub open spec fn downloads_flipped(self) -> AppView {
        AppView { downloads_expanded: !self.downloads_expanded, ..self }
    }

    pub open spec fn task_set(self, i: int, status: TaskStatus) -> AppView {
        AppView {
            downloads: self.downloads.update(i, with_status(self.downloads[i], status)),
            ..self
        }
    }

    /// With the chosen download stopped. Its worker is told to end, for a waiting one would keep
    /// its connection and its place.
    pub open spec fn download_paused(self, i: int) -> AppView {
        self.task_set(i, TaskStatus::Paused).asking(
            EffectView::StopDownload { id: self.downloads[i].id },
        ).logged("Paused '"@ + self.downloads[i].name@ + "'"@)
    }

    /// With the chosen download waiting for a worker again. The old worker keeps its own order to
    /// stop.
    pub open spec fn download_requeued(self, i: int, word: Chars) -> AppView {
        self.task_set(i, TaskStatus::Pending).asking(
            EffectView::ResetDownload { id: self.downloads[i].id },
        ).logged(word + " '"@ + self.downloads[i].name@ + "'"@).asking(
            EffectView::StartDownloads,
        )
    }

    pub open spec fn download_toggled(self) -> AppView {
        let i = self.downloads_selected as int;
        if i < self.downloads.len() {
            match self.downloads[i].status {
                TaskStatus::Downloading => self.download_paused(i),
                TaskStatus::Paused => self.download_requeued(i, "Resumed"@),
                _ => self,
            }
        } else {
            self
        }
    }

    pub open spec fn download_retried(self) -> AppView {
        let i = self.downloads_selected as int;
        if i < self.downloads.len() && self.downloads[i].status == TaskStatus::Failed {
            self.download_requeued(i, "Retrying"@)
        } else {
            self
        }
    }

    /// What a key does to the downloads themselves. Without the cursor of the spread out list only
    /// opening and closing act: anything else would hit a download that is not seen.
    pub open spec fn downloads_acted(self, action: DownloadsAction) -> AppView {
        if action == DownloadsAction::Spread {
            self.downloads_flipped()
        } else if !self.downloads_expanded {
            self
        } else {
            match action {
                DownloadsAction::Down => self.downloads_cursor(
                    cursor_down(self.downloads_selected, self.downloads.len()),
                ),
                DownloadsAction::Up => self.downloads_cursor(cursor_up(self.downloads_selected)),
                DownloadsAction::PauseOrResume => self.download_toggled(),
                DownloadsAction::Cancel => self.asking(
                    EffectView::CancelDownload { index: self.downloads_selected },
                ),
                DownloadsAction::Retry => self.download_retried(),
                _ => self,
            }
        }
    }

    #[verifier::opaque]
    pub open spec fn downloads_key(self, code: KeyCode) -> AppView {
        let action = downloads_binding(code);
        if action == DownloadsAction::Close {
            self
        } else {
            self.downloads_acted(action).in_mode(ModeView::DownloadView)
        }
    }

    /// After the host took a download out of the list, or found none to take.
    pub open spec fn download_dropped(self, name: Option<Chars>) -> AppView {
        match name {
            Some(n) => self.logged("Cancelled '"@ + n + "'"@).asking(EffectView::StartDownloads),
            None => self,
        }
    }

    /// With everything in the cart waiting to be downloaded into a folder.
    pub open spec fn cart_download_started(self, dest: Chars) -> AppView {
        self.cart_emptied().asking(
            EffectView::QueueDownloads { dest, items: self.cart },
        ).logged("Queued "@ + decimal(self.cart.len()) + " files for download"@).asking(
            EffectView::StartDownloads,
        )
    }
}

impl App {
    fn move_downloads_cursor(&mut self, at: usize)
        ensures
            final(self)@ == old(self)@.downloads_cursor(at),
    {
        self.downloads_selected = at;
    }

    fn flip_downloads(&mut self)
        ensures
            final(self)@ == old(self)@.downloads_flipped(),
    {
        self.downloads_expanded = !self.downloads_expanded;
    }

    fn set_task(&mut self, i: usize, status: TaskStatus)
        requires
            i < old(self).downloads@.len(),
        ensures
            final(self)@ == old(self)@.task_set(i as int, status),
    {
        set_status(&mut self.downloads, i, status);
    }

    fn pause_download(&mut self, i: usize)
        requires
            i < old(self).downloads@.len(),
        ensures
            final(self)@ == old(self)@.download_paused(i as int),
    {
        let id: u64 = self.downloads[i].id;
        let msg: String = cat3("Paused '", self.downloads[i].name.as_str(), "'");
        self.set_task(i, TaskStatus::Paused);
        self.ask(Effect::StopDownload { id });
        self.push_log(msg);
    }

    fn requeue_download(&mut self, i: usize, word: &str)
        requires
            i < old(self).downloads@.len(),
        ensures
            final(self)@ == old(self)@.download_requeued(i as int, word@),
    {
        let id: u64 = self.downloads[i].id;
        let msg: String = crate::text::cat4(word, " '", self.downloads[i].name.as_str(), "'");
        self.set_task(i, TaskStatus::Pending);
        self.ask(Effect::ResetDownload { id });
        self.push_log(msg);
        self.ask(Effect::StartDownloads);
    }

    fn toggle_download(&mut self)
        ensures
            final(self)@ == old(self)@.download_toggled(),
    {
        let i: usize = self.downloads_selected;
        if i >= self.downloads.len() {
            return;
        }
        match self.downloads[i].status {
            TaskStatus::Downloading => {
                self.pause_download(i);
                return;
            },
            TaskStatus::Paused => {
                self.requeue_download(i, "Resumed");
                return;
            },
            _ => {
                return;
            },
        }
    }

    fn retry_download(&mut self)
        ensures
            final(self)@ == old(self)@.download_retried(),
    {
        let i: usize = self.downloads_selected;
        if i < self.downloads.len() && self.downloads[i].status == TaskStatus::Failed {
            self.requeue_download(i, "Retrying");
            return;
        }
    }

    fn act_on_downloads(&mut self, action: DownloadsAction)
        ensures
            final(self)@ == old(self)@.downloads_acted(action),
    {
        if action == DownloadsAction::Spread {
            self.flip_downloads();
            return;
        }
        if !self.downloads_expanded {
            return;
        }
        match action {
            DownloadsAction::Down => {
                let at: usize = go_down(self.downloads_selected, self.downloads.len());
                self.move_downloads_cursor(at);
                return;
            },
            DownloadsAction::Up => {
                let at: usize = go_up(self.downloads_selected);
                self.move_downloads_cursor(at);
                return;
            },
            DownloadsAction::PauseOrResume => {
                self.toggle_download();
                return;
            },
            DownloadsAction::Cancel => {
                let index: usize = self.downloads_selected;
                self.ask(Effect::CancelDownload { index });
                return;
            },
            DownloadsAction::Retry => {
                self.retry_download();
                return;
            },
            _ => {
                return;
            },
        }
    }

    pub fn handle_download_view_key(&mut self, code: KeyCode)
        ensures
            final(self)@ == old(self)@.downloads_key(code),
    {
        reveal(AppView::downloads_key);
        let action: DownloadsAction = downloads_bound(code);
        if action == DownloadsAction::Close {
            return;
        }
        self.act_on_downloads(action);
        self.set_mode(InputMode::DownloadView);
    }

    /// Tells which download the host took out of the list.
    pub fn download_cancelled(&mut self, name: Option<String>)
        ensures
            final(self)@ == old(self)@.download_dropped(opt_text(name)),
    {
        match name {
            Some(n) => {
                self.push_log(cat3("Cancelled '", n.as_str(), "'"));
                self.ask(Effect::StartDownloads);
                return;
            },
            None => {
                return;
            },
        }
    }

    /// Takes over the downloads as the host sees them.
    pub fn downloads_changed(&mut self, downloads: Vec<DownloadTask>, active: bool)
        ensures
            final(self)@ == (AppView {
                downloads: downloads@,
                downloads_active: active,
                ..old(self)@
            }),
    {
        self.downloads = downloads;
        self.downloads_active = active;
    }

    pub fn start_cart_download(&mut self, dest: String)
        ensures
            final(self)@ == old(self)@.cart_download_started(dest@),
    {
        let n: usize = self.cart.len();
        let mut items: Vec<Entry> = Vec::new();
        self.swap_cart(&mut items);
        self.ask(Effect::QueueDownloads { dest, items });
        self.push_log(cat3("Queued ", dec(n as u64).as_str(), " files for download"));
        self.ask(Effect::StartDownloads);
    }

    fn swap_cart(&mut self, items: &mut Vec<Entry>)
        requires
            old(items)@.len() == 0,
        ensures
            final(items)@ == old(self)@.cart,
            final(self)@ == old(self)@.cart_emptied(),
    {
        std::mem::swap(items, &mut self.cart);
        self.cart_selected = 0;
        assert(self.cart@ =~= Seq::<Entry>::empty());
    }
}

// ---------------------------------------------------------------------------------------------
// Local paths.

/// A step of local completion that a key asks for.
pub open spec fn local_step(input: LocalPathInputView, code: KeyCode) -> Option<LocalStep> {
    match code {
        KeyCode::Tab => Some(LocalStep::OpenOrNext),
        KeyCode::BackTab => Some(LocalStep::OpenAndPrev),
        KeyCode::Up => Some(LocalStep::Prev),
        KeyCode::Down => Some(LocalStep::Next),
        KeyCode::Enter => Some(LocalStep::Confirm),
        _ => None,
    }
}

fn local_step_of(code: KeyCode) -> (r: Option<LocalStep>)
    ensures
        forall|i: LocalPathInputView| r == #[trigger] local_step(i, code),
{
    match code {
        KeyCode::Tab => Some(LocalStep::OpenOrNext),
        KeyCode::BackTab => Some(LocalStep::OpenAndPrev),
        KeyCode::Up => Some(LocalStep::Prev),
        KeyCode::Down => Some(LocalStep::Next),
        KeyCode::Enter => Some(LocalStep::Confirm),
        _ => None,
    }
}

/// The mode in which a local path is typed.
pub open spec fn local_mode(input: LocalPathInputView, for_upload: bool) -> ModeView {
    if for_upload {
        ModeView::UploadInput { input }
    } else {
        ModeView::DownloadInput { input }
    }
}

fn make_local_mode(input: LocalPathInput, for_upload: bool) -> (r: InputMode)
    ensures
        r@ == local_mode(input@, for_upload),
{
    if for_upload {
        InputMode::UploadInput { input }
    } else {
        InputMode::DownloadInput { input }
    }
}

/// What a local path turned out to be.
#[derive(Clone, Copy, Debug, PartialEq, Eq, Structural)]
pub enum LocalPathKind {
    Missing,
    Folder,
    File,
    Other,
}

impl AppView {
    pub open spec fn local_input(self, input: LocalPathInputView, for_upload: bool) -> AppView {
        self.in_mode(local_mode(input, for_upload))
    }

    /// With a local path input given up.
    pub open spec fn local_input_left(self, for_upload: bool) -> AppView {
        if for_upload {
            self.in_mode(ModeView::Normal)
        } else {
            self.in_mode(ModeView::CartView)
        }
    }

    pub open spec fn local_completion_asked(
        self,
        input: LocalPathInputView,
        for_upload: bool,
        step: LocalStep,
    ) -> AppView {
        self.local_input(input, for_upload).asking(EffectView::CompleteLocal { step, input })
    }

    /// After typing into a local path: an open list of candidates is opened anew.
    pub open spec fn local_typed(
        self,
        input: LocalPathInputView,
        for_upload: bool,
        code: KeyCode,
        modifiers: KeyModifiers,
    ) -> AppView {
        let value = self.typing(input.value, code, modifiers).value;
        let next = LocalPathInputView { value, ..input };
        let a = self.typed(input.value, code, modifiers);
        if value != input.value && input.candidates.len() > 0 {
            a.local_completion_asked(next, for_upload, LocalStep::Reopen)
        } else {
            a.local_input(next, for_upload)
        }
    }

    #[verifier::opaque]
    pub open spec fn local_input_key(
        self,
        input: LocalPathInputView,
        for_upload: bool,
        code: KeyCode,
        modifiers: KeyModifiers,
    ) -> AppView {
        if code == KeyCode::Esc {
            if input.candidates.len() > 0 {
                self.local_input(
                    LocalPathInputView { candidates: Seq::empty(), candidate_idx: None, ..input },
                    for_upload,
                )
            } else {
                self.local_input_left(for_upload)
            }
        } else {
            match local_step(input, code) {
                Some(step) => self.local_completion_asked(input, for_upload, step),
                None => self.local_typed(input, for_upload, code, modifiers),
            }
        }
    }

    /// After a path was confirmed.
    pub open spec fn local_path_confirmed(
        self,
        input: LocalPathInputView,
        for_upload: bool,
    ) -> AppView {
        let path = trimmed(input.value);
        if for_upload {
            self.local_input(input, for_upload).asking(EffectView::InspectPath { path })
        } else if path.len() == 0 {
            self.logged("No destination path specified"@).local_input(input, for_upload)
        } else {
            self.cart_download_started(path).in_mode(ModeView::DownloadView)
        }
    }

    /// After the host completed a local path. A confirmation for which no candidate was chosen
    /// confirms the path itself.
    pub open spec fn local_completed(
        self,
        input: LocalPathInputView,
        for_upload: bool,
        step: LocalStep,
        applied: bool,
    ) -> AppView {
        if step == LocalStep::Confirm {
            if applied {
                self.cursor_at_end().local_input(input, for_upload)
            } else {
                self.local_path_confirmed(input, for_upload)
            }
        } else {
            self.local_input(input, for_upload)
        }
    }

    /// With an upload under way.
    pub open spec fn upload_started(self, label: Chars, op: RemoteOpView) -> AppView {
        self.loading_as(label).in_mode(ModeView::Normal).asking(EffectView::Remote(op))
    }

    /// After the host looked at a path that is to be uploaded.
    pub open spec fn upload_path_seen(self, path: Chars, kind: LocalPathKind, name: Chars) -> AppView {
        match kind {
            LocalPathKind::Missing => self.logged("File not found: "@ + path),
            LocalPathKind::Folder => self.upload_started(
                "Uploading folder "@ + name + "\u{2026}"@,
                RemoteOpView::UploadDir { folder_id: self.current_folder_id, path, name },
            ),
            LocalPathKind::File => self.upload_started(
                "Uploading "@ + name + "\u{2026}"@,
                RemoteOpView::UploadFile { folder_id: self.current_folder_id, path },
            ),
            LocalPathKind::Other => self.logged("Not a file or directory: "@ + path),
        }
    }
}

impl App {
    fn show_local_input(&mut self, input: LocalPathInput, for_upload: bool)
        ensures
            final(self)@ == old(self)@.local_input(input@, for_upload),
    {
        self.set_mode(make_local_mode(input, for_upload));
    }

    /// Opens the input of a local path with what the host starts it with.
    pub fn local_input_opened(&mut self, input: LocalPathInput, for_upload: bool)
        ensures
            final(self)@ == old(self)@.local_input(input@, for_upload),
    {
        self.show_local_input(input, for_upload);
    }

    fn leave_local_input(&mut self, for_upload: bool)
        ensures
            final(self)@ == old(self)@.local_input_left(for_upload),
    {
        if for_upload {
            self.set_mode(InputMode::Normal);
            return;
        }
        self.set_mode(InputMode::CartView);
    }

    fn ask_local_completion(&mut self, input: LocalPathInput, for_upload: bool, step: LocalStep)
        ensures
            final(self)@ == old(self)@.local_completion_asked(input@, for_upload, step),
    {
        let copy: LocalPathInput = copy_local(&input);
        self.show_local_input(input, for_upload);
        self.ask(Effect::CompleteLocal { step, input: copy });
    }

    fn type_local(
        &mut self,
        input: LocalPathInput,
        for_upload: bool,
        code: KeyCode,
        modifiers: KeyModifiers,
    )
        ensures
            final(self)@ == old(self)@.local_typed(input@, for_upload, code, modifiers),
    {
        let (value, _done) = self.type_into(input.value.clone(), code, modifiers);
        let changed: bool = !(value == input.value);
        let open: bool = input.candidates.len() > 0;
        let next: LocalPathInput = LocalPathInput {
            value,
            candidates: input.candidates,
            candidate_idx: input.candidate_idx,
        };
        if changed && open {
            self.ask_local_completion(next, for_upload, LocalStep::Reopen);
            return;
        }
        self.show_local_input(next, for_upload);
    }

    /// Handles a key in the input of a local path.
    pub fn apply_local_path_input_key(
        &mut self,
        code: KeyCode,
        modifiers: KeyModifiers,
        input: LocalPathInput,
        for_upload: bool,
    )
        ensures
            final(self)@ == old(self)@.local_input_key(input@, for_upload, code, modifiers),
    {
        reveal(AppView::local_input_key);
        if code == KeyCode::Esc {
            if input.candidates.len() > 0 {
                let next: LocalPathInput = LocalPathInput {
                    value: input.value,
                    candidates: Vec::new(),
                    candidate_idx: None,
                };
                self.show_local_input(next, for_upload);
                return;
            }
            self.leave_local_input(for_upload);
            return;
        }
        match local_step_of(code) {
            Some(step) => {
                self.ask_local_completion(input, for_upload, step);
                return;
            },
            None => {
                self.type_local(input, for_upload, code, modifiers);
                return;
            },
        }
    }

    fn confirm_local_path(&mut self, input: LocalPathInput, for_upload: bool)
        ensures
            final(self)@ == old(self)@.local_path_confirmed(input@, for_upload),
    {
        let path: String = trim(input.value.as_str());
        if for_upload {
            self.show_local_input(input, for_upload);
            self.ask(Effect::InspectPath { path });
            return;
        }
        if path.as_str().is_empty() {
            self.log("No destination path specified");
            self.show_local_input(input, for_upload);
            return;
        }
        self.start_cart_download(path);
        self.set_mode(InputMode::DownloadView);
    }

    /// Takes over what the host made of a local path.
    pub fn local_completion_done(
        &mut self,
        input: LocalPathInput,
        for_upload: bool,
        step: LocalStep,
        applied: bool,
    )
        ensures
            final(self)@ == old(self)@.local_completed(input@, for_upload, step, applied),
    {
        if step == LocalStep::Confirm {
            if applied {
                self.cursor_to_end();
                self.show_local_input(input, for_upload);
                return;
            }
            self.confirm_local_path(input, for_upload);
            return;
        }
        self.show_local_input(input, for_upload);
    }

    fn start_upload(&mut self, label: String, op: RemoteOp)
        ensures
            final(self)@ == old(self)@.upload_started(label@, op@),
    {
        self.load_as(label.as_str());
        self.set_mode(InputMode::Normal);
        self.ask(Effect::Remote(op));
    }

    /// Goes on with an upload after the host looked at the path: `name` is its last part.
    pub fn local_path_inspected(&mut self, path: String, kind: LocalPathKind, name: String)
        ensures
            final(self)@ == old(self)@.upload_path_seen(path@, kind, name@),
    {
        match kind {
            LocalPathKind::Missing => {
                self.push_log(cat2("File not found: ", path.as_str()));
                return;
            },
            LocalPathKind::Folder => {
                let label: String = cat3("Uploading folder ", name.as_str(), "\u{2026}");
                let folder_id: String = self.current_folder_id.clone();
                self.start_upload(label, RemoteOp::UploadDir { folder_id, path, name });
                return;
            },
            LocalPathKind::File => {
                let label: String = cat3("Uploading ", name.as_str(), "\u{2026}");
                let folder_id: String = self.current_folder_id.clone();
                self.start_upload(label, RemoteOp::UploadFile { folder_id, path });
                return;
            },
            LocalPathKind::Other => {
                self.push_log(cat2("Not a file or directory: ", path.as_str()));
                return;
            },
        }
    }
}

fn copy_local(i: &LocalPathInput) -> (r: LocalPathInput)
    ensures
        r@ == i@,
{
    let mut out: Vec<(String, bool)> = Vec::new();
    let mut k: usize = 0;
    while k < i.candidates.len()
        invariant
            k <= i.candidates.len(),
            out@ == i.candidates@.subrange(0, k as int),
        decreases i.candidates.len() - k,
    {
        let name: String = i.candidates[k].0.clone();
        let folder: bool = i.candidates[k].1;
        out.push((name, folder));
        k += 1;
        assert(out@ =~= i.candidates@.subrange(0, k as int));
    }
    assert(i.candidates@.subrange(0, i.candidates@.len() as int) =~= i.candidates@);
    LocalPathInput {
        value: i.value.clone(),
        candidates: out,
        candidate_idx: i.candidate_idx,
    }
}

// ---------------------------------------------------------------------------------------------
// Links that are typed in.

impl AppView {
    pub open spec fn offline_download_asked(self, url: Chars) -> AppView {
        self.remote_asked(
            RemoteOpView::OfflineDownload { url, parent_id: unless_empty(self.current_folder_id) },
        )
    }

    #[verifier::opaque]
    pub open spec fn offline_input_key(
        self,
        value: Chars,
        code: KeyCode,
        modifiers: KeyModifiers,
    ) -> AppView {
        let e = self.typing(value, code, modifiers);
        let a = self.typed(value, code, modifiers);
        let url = trimmed(e.value);
        match e.done {
            Some(false) => a.logged("Offline download cancelled"@),
            Some(true) => if url.len() == 0 {
                a.logged("No URL provided"@).in_mode(ModeView::OfflineInput { value: e.value })
            } else {
                a.offline_download_asked(url)
            },
            None => a.in_mode(ModeView::OfflineInput { value: e.value }),
        }
    }

    pub open spec fn save_share_asked(self, url: Chars) -> AppView {
        self.remote_asked(
            RemoteOpView::SaveShare {
                share_id: share_id_of(url),
                to_parent_id: self.current_folder_id,
            },
        )
    }

    #[verifier::opaque]
    pub open spec fn save_share_key(
        self,
        value: Chars,
        code: KeyCode,
        modifiers: KeyModifiers,
    ) -> AppView {
        let e = self.typing(value, code, modifiers);
        let a = self.typed(value, code, modifiers);
        let url = trimmed(e.value);
        match e.done {
            Some(false) => a.logged("Save share cancelled"@),
            Some(true) => if url.len() == 0 {
                a.logged("No share URL provided"@).in_mode(
                    ModeView::SaveShareInput { value: e.value },
                )
            } else {
                a.save_share_asked(url)
            },
            None => a.in_mode(ModeView::SaveShareInput { value: e.value }),
        }
    }

    /// With a player started on a link. The command is a program and its arguments; the link is
    /// kept from being taken for an option.
    pub open spec fn player_asked(self, cmd: Chars, url: Chars) -> AppView {
        let parts = words(cmd);
        if parts.len() == 0 {
            self.logged("Player command is empty"@)
        } else {
            self.asking(
                EffectView::LaunchPlayer {
                    program: parts[0],
                    args: parts.skip(1).push("--"@).push(url),
                },
            )
        }
    }

    /// After the host started a player, or could not.
    pub open spec fn player_started(self, program: Chars, result: Result<(), String>) -> AppView {
        match result {
            Ok(_) => self.logged("Launched "@ + program + " with video URL"@),
            Err(e) => self.logged("Failed to launch "@ + program + ": "@ + e@),
        }
    }
}

impl App {
    pub fn spawn_offline_download(&mut self, url: String)
        ensures
            final(self)@ == old(self)@.offline_download_asked(url@),
    {
        let parent_id: Option<String> = some_text(self.current_folder_id.clone());
        self.ask_remote(RemoteOp::OfflineDownload { url, parent_id });
    }

    pub fn handle_offline_input_key(
        &mut self,
        code: KeyCode,
        modifiers: KeyModifiers,
        value: String,
    )
        ensures
            final(self)@ == old(self)@.offline_input_key(value@, code, modifiers),
    {
        reveal(AppView::offline_input_key);
        let (value, done) = self.type_into(value, code, modifiers);
        match done {
            Some(confirmed) => {
                if !confirmed {
                    self.log("Offline download cancelled");
                    return;
                }
                let url: String = trim(value.as_str());
                if url.as_str().is_empty() {
                    self.log("No URL provided");
                    self.set_mode(InputMode::OfflineInput { value });
                    return;
                }
                self.spawn_offline_download(url);
                return;
            },
            None => {
                self.set_mode(InputMode::OfflineInput { value });
                return;
            },
        }
    }

    pub fn spawn_save_share(&mut self, url: String)
        ensures
            final(self)@ == old(self)@.save_share_asked(url@),
    {
        let share_id: String = extract_share_id(url.as_str());
        let to_parent_id: String = self.current_folder_id.clone();
        self.ask_remote(RemoteOp::SaveShare { share_id, to_parent_id });
    }

    /// A share is saved into the folder that is open, or into the root of the drive.
    pub fn handle_save_share_input_key(
        &mut self,
        code: KeyCode,
        modifiers: KeyModifiers,
        value: String,
    )
        ensures
            final(self)@ == old(self)@.save_share_key(value@, code, modifiers),
    {
        reveal(AppView::save_share_key);
        let (value, done) = self.type_into(value, code, modifiers);
        match done {
            Some(confirmed) => {
                if !confirmed {
                    self.log("Save share cancelled");
                    return;
                }
                let url: String = trim(value.as_str());
                if url.as_str().is_empty() {
                    self.log("No share URL provided");
                    self.set_mode(InputMode::SaveShareInput { value });
                    return;
                }
                self.spawn_save_share(url);
                return;
            },
            None => {
                self.set_mode(InputMode::SaveShareInput { value });
                return;
            },
        }
    }

    pub fn spawn_player(&mut self, cmd: &str, url: &str)
        ensures
            final(self)@ == old(self)@.player_asked(cmd@, url@),
    {
        let mut parts: Vec<String> = split_words(cmd);
        let ghost all = texts(parts@);
        if parts.len() == 0 {
            self.log("Player command is empty");
            return;
        }
        let program: String = parts.remove(0);
        let ghost tail = parts@;
        parts.push(owned("--"));
        parts.push(owned(url));
        assert(texts(parts@) =~= all.skip(1).push("--"@).push(url@));
        self.ask(Effect::LaunchPlayer { program, args: parts });
    }

    /// Tells how starting a player went.
    pub fn player_launched(&mut self, program: String, result: Result<(), String>)
        ensures
            final(self)@ == old(self)@.player_started(program@, result),
    {
        match result {
            Ok(_) => {
                self.push_log(cat3("Launched ", program.as_str(), " with video URL"));
                return;
            },
            Err(e) => {
                self.push_log(
                    crate::text::cat4("Failed to launch ", program.as_str(), ": ", e.as_str()),
                );
                return;
            },
        }
    }
}

} // verus!
