//! Moving and copying: typing or picking a destination, and the cart.

use crate::app::{path_text, App, AppView};
use crate::effect::{op_name, op_word, Effect, EffectView, RemoteOp, RemoteOpView};
use crate::event::{KeyCode, KeyModifiers};
use crate::geometry::min_int;
use crate::model::{
    Entry, EntryKind, InputMode, ModeView, PathInput, PathInputView, PickerState, PickerView,
};
use crate::navigate::{input_mode, make_input_mode, make_picker_mode, picker_mode, step_down};
use crate::text::{cat2, cat3, clone_texts, dec, decimal, text_pairs, texts, trim, trimmed, Chars};
use crate::text_input::{edited, handle_text_input, index_at, offset_of, Edited};
use vstd::prelude::*;

verus! {

/// The folders of a listing, in order.
pub open spec fn folders(v: Seq<Entry>) -> Seq<Entry>
    decreases v.len(),
{
    if v.len() == 0 {
        v
    } else if v.last().kind == EntryKind::Folder {
        folders(v.drop_last()).push(v.last())
    } else {
        folders(v.drop_last())
    }
}

proof fn lemma_folders_grow(v: Seq<Entry>, n: int)
    requires
        0 <= n <= v.len(),
    ensures
        folders(v.take(n)).len() <= folders(v).len(),
        forall|i: int|
            0 <= i < folders(v.take(n)).len() ==> folders(v.take(n))[i] == #[trigger] folders(v)[i],
    decreases v.len(),
{
    if n < v.len() {
        assert(v.drop_last().take(n) =~= v.take(n));
        lemma_folders_grow(v.drop_last(), n);
    } else {
        assert(v.take(n) =~= v);
    }
}

/// How many folders a listing has.
pub fn count_folders(v: &Vec<Entry>) -> (r: usize)
    ensures
        r == folders(v@).len(),
        r <= v.len(),
{
    let mut n: usize = 0;
    let mut i: usize = 0;
    assert(v@.take(0).len() == 0);
    while i < v.len()
        invariant
            i <= v.len(),
            n == folders(v@.take(i as int)).len(),
            n <= i,
        decreases v.len() - i,
    {
        assert(v@.take(i + 1).drop_last() =~= v@.take(i as int));
        if v[i].kind == EntryKind::Folder {
            n += 1;
        }
        i += 1;
    }
    assert(v@.take(v@.len() as int) =~= v@);
    n
}

/// The folder at an index among the folders of a listing.
fn nth_folder(v: &Vec<Entry>, nth: usize) -> (r: Option<Entry>)
    ensures
        match r {
            Some(e) => nth < folders(v@).len() && e == folders(v@)[nth as int],
            None => nth >= folders(v@).len(),
        },
{
    let mut n: usize = 0;
    let mut i: usize = 0;
    assert(v@.take(0).len() == 0);
    while i < v.len()
        invariant
            i <= v.len(),
            n == folders(v@.take(i as int)).len(),
            n <= nth,
            n <= i,
        decreases v.len() - i,
    {
        assert(v@.take(i + 1).drop_last() =~= v@.take(i as int));
        if v[i].kind == EntryKind::Folder {
            if n == nth {
                proof {
                    lemma_folders_grow(v@, i + 1);
                }
                return Some(v[i].clone());
            }
            n += 1;
        }
        i += 1;
    }
    assert(v@.take(v@.len() as int) =~= v@);
    None
}

/// The ids of entries.
pub open spec fn ids_of(v: Seq<Entry>) -> Seq<Chars> {
    Seq::new(v.len(), |i: int| v[i].id@)
}

fn collect_ids(v: &Vec<Entry>) -> (r: Vec<String>)
    ensures
        texts(r@) == ids_of(v@),
{
    let mut out: Vec<String> = Vec::new();
    let mut i: usize = 0;
    while i < v.len()
        invariant
            i <= v.len(),
            out@.len() == i,
            forall|k: int| 0 <= k < i ==> (#[trigger] out@[k])@ == v@[k].id@,
        decreases v.len() - i,
    {
        out.push(v[i].id.clone());
        i += 1;
    }
    assert(texts(out@) =~= ids_of(v@));
    out
}

/// What a key in a path input leads to.
pub enum PathKeyView {
    Updated(PathInputView),
    Confirmed(Chars),
    SwitchToPicker,
    Cancelled,
}

pub enum PathInputKeyResult {
    Updated(PathInput),
    /// The path that was typed.
    Confirmed(String),
    SwitchToPicker,
    Cancelled,
}

impl View for PathInputKeyResult {
    type V = PathKeyView;

    open spec fn view(&self) -> PathKeyView {
        match self {
            PathInputKeyResult::Updated(i) => PathKeyView::Updated(i@),
            PathInputKeyResult::Confirmed(s) => PathKeyView::Confirmed(s@),
            PathInputKeyResult::SwitchToPicker => PathKeyView::SwitchToPicker,
            PathInputKeyResult::Cancelled => PathKeyView::Cancelled,
        }
    }
}

/// What a key in a destination picker leads to.
pub enum PickerKeyView {
    Navigated(PickerView),
    Confirmed(PickerView),
    Cancelled,
    ShowHelp(PickerView),
    SwitchToTextInput,
}

pub enum PickerKeyResult {
    Navigated(PickerState),
    /// The folder that is open is the destination.
    Confirmed(PickerState),
    Cancelled,
    ShowHelp(PickerState),
    SwitchToTextInput,
}

impl View for PickerKeyResult {
    type V = PickerKeyView;

    open spec fn view(&self) -> PickerKeyView {
        match self {
            PickerKeyResult::Navigated(p) => PickerKeyView::Navigated(p@),
            PickerKeyResult::Confirmed(p) => PickerKeyView::Confirmed(p@),
            PickerKeyResult::Cancelled => PickerKeyView::Cancelled,
            PickerKeyResult::ShowHelp(p) => PickerKeyView::ShowHelp(p@),
            PickerKeyResult::SwitchToTextInput => PickerKeyView::SwitchToTextInput,
        }
    }
}

/// A path input with another text; a changed text has no candidates any more.
pub open spec fn retyped(input: PathInputView, value: Chars) -> PathInputView {
    if value == input.value {
        input
    } else {
        PathInputView { value, ..PathInputView::fresh() }
    }
}

/// A path input with the list of candidates closed.
pub open spec fn list_closed(input: PathInputView) -> PathInputView {
    PathInputView { candidates: Seq::empty(), candidate_idx: None, ..input }
}

/// What a key in a path input leads to, apart from completion and typing.
pub open spec fn path_result(input: PathInputView, code: KeyCode, modifiers: KeyModifiers, typed: Chars)
    -> PathKeyView {
    if code == KeyCode::Char('b') && modifiers.control {
        PathKeyView::SwitchToPicker
    } else {
        match code {
            KeyCode::Esc => if input.candidates.len() > 0 {
                PathKeyView::Updated(input.cleared())
            } else {
                PathKeyView::Cancelled
            },
            KeyCode::Enter => if input.candidates.len() > 0 {
                PathKeyView::Updated(list_closed(input))
            } else if trimmed(input.value).len() > 0 {
                PathKeyView::Confirmed(trimmed(input.value))
            } else {
                PathKeyView::Updated(input)
            },
            KeyCode::Tab => PathKeyView::Updated(input),
            _ => PathKeyView::Updated(retyped(input, typed)),
        }
    }
}

/// Whether a key in a path input types into it.
pub open spec fn path_types(code: KeyCode, modifiers: KeyModifiers) -> bool {
    !(code == KeyCode::Char('b') && modifiers.control) && code != KeyCode::Esc && code
        != KeyCode::Enter && code != KeyCode::Tab
}

/// What a key makes of a picker, when the next request has the number `next`.
pub open spec fn picker_result(p: PickerView, code: KeyCode, next: u64) -> PickerKeyView {
    let list = folders(p.entries);
    let down = PickerKeyView::Navigated(
        PickerView {
            selected: if list.len() > 0 {
                min_int(p.selected + 1, list.len() - 1) as usize
            } else {
                p.selected
            },
            ..p
        },
    );
    let up = PickerKeyView::Navigated(
        PickerView {
            selected: if p.selected > 0 {
                (p.selected - 1) as usize
            } else {
                0
            },
            ..p
        },
    );
    match code {
        KeyCode::Down => down,
        KeyCode::Up => up,
        KeyCode::Enter => if p.selected < list.len() {
            let e = list[p.selected as int];
            PickerKeyView::Navigated(
                PickerView {
                    folder_id: e.id@,
                    listing_request_id: next,
                    breadcrumb: p.breadcrumb.push((p.folder_id, e.name@)),
                    entries: Seq::empty(),
                    selected: 0,
                    loading: true,
                },
            )
        } else {
            PickerKeyView::Navigated(p)
        },
        KeyCode::Backspace => if p.breadcrumb.len() > 0 {
            PickerKeyView::Navigated(
                PickerView {
                    folder_id: p.breadcrumb.last().0,
                    listing_request_id: next,
                    breadcrumb: p.breadcrumb.drop_last(),
                    entries: Seq::empty(),
                    selected: 0,
                    loading: true,
                },
            )
        } else {
            PickerKeyView::Navigated(p)
        },
        KeyCode::Esc => PickerKeyView::Cancelled,
        KeyCode::Char(c) => if c == 'j' {
            down
        } else if c == 'k' {
            up
        } else if c == ' ' {
            PickerKeyView::Confirmed(p)
        } else if c == '/' {
            PickerKeyView::SwitchToTextInput
        } else if c == 'h' {
            PickerKeyView::ShowHelp(p)
        } else {
            PickerKeyView::Navigated(p)
        },
        _ => PickerKeyView::Navigated(p),
    }
}

/// The folder whose listing a key in a picker asks for.
pub open spec fn picker_asks(p: PickerView, code: KeyCode) -> Option<Chars> {
    let list = folders(p.entries);
    match code {
        KeyCode::Enter => if p.selected < list.len() {
            Some(list[p.selected as int].id@)
        } else {
            None
        },
        KeyCode::Backspace => if p.breadcrumb.len() > 0 {
            Some(p.breadcrumb.last().0)
        } else {
            None
        },
        _ => None,
    }
}

impl AppView {
    /// What a key makes of a line of text at the cursor.
    pub open spec fn typing(self, value: Chars, code: KeyCode, modifiers: KeyModifiers) -> Edited {
        edited(value, index_at(value, self.text_cursor as nat), code, modifiers)
    }

    /// With the cursor where a key leaves it.
    pub open spec fn typed(self, value: Chars, code: KeyCode, modifiers: KeyModifiers) -> AppView {
        let e = self.typing(value, code, modifiers);
        AppView { text_cursor: offset_of(e.value, e.at), ..self }
    }

    pub open spec fn cursor_at_end(self) -> AppView {
        AppView { text_cursor: usize::MAX, ..self }
    }

    /// After a key in a path input: completion is asked for, or the cursor moves.
    pub open spec fn path_keyed(self, input: PathInputView, code: KeyCode, modifiers: KeyModifiers) -> AppView {
        if code == KeyCode::Tab {
            self.cursor_at_end().asking(EffectView::CompletePath { input })
        } else if path_types(code, modifiers) {
            self.typed(input.value, code, modifiers)
        } else {
            self
        }
    }

    /// With a transfer given up.
    pub open spec fn transfer_cancelled(self, source: Option<Entry>, is_move: bool) -> AppView {
        let a = self.logged(op_word(is_move) + " cancelled"@);
        if source is None {
            a.in_mode(ModeView::CartView)
        } else {
            a
        }
    }

    /// With a picker opened for one entry or for the cart.
    pub open spec fn picking(self, source: Option<Entry>, is_move: bool) -> AppView {
        self.picker_listing_asked(self.current_folder_id).in_mode(
            picker_mode(source, self.fresh_picker(), is_move),
        )
    }

    #[verifier::opaque]
    pub open spec fn path_input_key(
        self,
        source: Option<Entry>,
        input: PathInputView,
        is_move: bool,
        code: KeyCode,
        modifiers: KeyModifiers,
    ) -> AppView {
        let a = self.path_keyed(input, code, modifiers);
        match path_result(
            input,
            code,
            modifiers,
            self.typing(input.value, code, modifiers).value,
        ) {
            PathKeyView::Updated(i) => a.in_mode(input_mode(source, i, is_move)),
            PathKeyView::Confirmed(target) => a.asking(
                EffectView::ResolvePath { target, source, is_move },
            ),
            PathKeyView::SwitchToPicker => a.picking(source, is_move),
            PathKeyView::Cancelled => a.transfer_cancelled(source, is_move),
        }
    }

    pub open spec fn cart_emptied(self) -> AppView {
        AppView { cart: Seq::empty(), cart_selected: 0, ..self }
    }

    /// With the transfer of one entry, or of all that is in the cart, under way.
    pub open spec fn transferred(
        self,
        source: Option<Entry>,
        dest_id: Chars,
        dest_path: Chars,
        is_move: bool,
    ) -> AppView {
        match source {
            Some(e) => self.remote_asked(
                RemoteOpView::MoveCopy {
                    source_id: e.id@,
                    source_name: e.name@,
                    dest_id,
                    dest_path,
                    is_move,
                },
            ),
            None => self.remote_asked(
                RemoteOpView::CartMoveCopy { ids: ids_of(self.cart), dest_id, dest_path, is_move },
            ).cart_emptied().logged_names(self.cart),
        }
    }

    /// After the folder of a typed path was looked up.
    pub open spec fn path_found(
        self,
        target: Chars,
        source: Option<Entry>,
        is_move: bool,
        result: Result<String, String>,
    ) -> AppView {
        match result {
            Ok(id) => self.transferred(source, id@, target, is_move),
            Err(e) => {
                let a = self.logged("Invalid path: "@ + e@);
                if source is None {
                    a.in_mode(ModeView::CartView)
                } else {
                    a
                }
            },
        }
    }

    pub open spec fn picker_keyed(self, p: PickerView, code: KeyCode) -> AppView {
        match picker_asks(p, code) {
            Some(id) => self.picker_listing_asked(id),
            None => self,
        }
    }

    #[verifier::opaque]
    pub open spec fn picker_key(
        self,
        source: Option<Entry>,
        p: PickerView,
        is_move: bool,
        code: KeyCode,
    ) -> AppView {
        let a = self.picker_keyed(p, code);
        match picker_result(p, code, self.next_id()) {
            PickerKeyView::Navigated(q) => a.in_mode(picker_mode(source, q, is_move)),
            PickerKeyView::Confirmed(q) => a.transferred(
                source,
                q.folder_id,
                path_text(q.breadcrumb),
                is_move,
            ),
            PickerKeyView::Cancelled => a.transfer_cancelled(source, is_move),
            PickerKeyView::ShowHelp(q) => a.help_opened().in_mode(picker_mode(source, q, is_move)),
            PickerKeyView::SwitchToTextInput => a.in_mode(
                input_mode(source, PathInputView::fresh(), is_move),
            ),
        }
    }
}

fn closed_list(i: PathInput) -> (r: PathInput)
    ensures
        r@ == list_closed(i@),
{
    let mut out: PathInput = i;
    out.candidates = Vec::new();
    out.candidate_idx = None;
    out
}

fn cleared_input(i: PathInput) -> (r: PathInput)
    ensures
        r@ == i@.cleared(),
{
    let mut out: PathInput = i;
    out.clear_completion();
    out
}

fn retype(i: PathInput, value: String) -> (r: PathInput)
    ensures
        r@ == retyped(i@, value@),
{
    if i.value == value {
        return i;
    }
    let mut out: PathInput = PathInput::new();
    out.value = value;
    out
}

fn copy_input(i: &PathInput) -> (r: PathInput)
    ensures
        r@ == i@,
{
    PathInput {
        value: i.value.clone(),
        candidates: clone_texts(&i.candidates),
        candidate_idx: i.candidate_idx,
        pending_request_id: i.pending_request_id,
    }
}

fn confirm_path(input: PathInput) -> (r: PathInputKeyResult)
    ensures
        r@ == (if input@.candidates.len() > 0 {
            PathKeyView::Updated(list_closed(input@))
        } else if trimmed(input@.value).len() > 0 {
            PathKeyView::Confirmed(trimmed(input@.value))
        } else {
            PathKeyView::Updated(input@)
        }),
{
    if input.candidates.len() > 0 {
        return PathInputKeyResult::Updated(closed_list(input));
    }
    let target: String = trim(input.value.as_str());
    if !target.as_str().is_empty() {
        PathInputKeyResult::Confirmed(target)
    } else {
        PathInputKeyResult::Updated(input)
    }
}

/// The picker in the folder `id`, whose listing was asked for as `request`.
fn picker_in(p: PickerState, id: String, name: Option<String>, request: u64) -> (r: PickerState)
    requires
        name is None ==> p@.breadcrumb.len() > 0,
    ensures
        r@ == (PickerView {
            folder_id: id@,
            listing_request_id: request,
            breadcrumb: match name {
                Some(n) => p@.breadcrumb.push((p@.folder_id, n@)),
                None => p@.breadcrumb.drop_last(),
            },
            entries: Seq::empty(),
            selected: 0,
            loading: true,
        }),
{
    let mut crumbs: Vec<(String, String)> = p.breadcrumb;
    match name {
        Some(n) => {
            let step: (String, String) = (p.folder_id, n);
            crumbs.push(step);
            assert(text_pairs(crumbs@) =~= text_pairs(p.breadcrumb@).push((step.0@, step.1@)));
        },
        None => {
            crumbs.pop();
            assert(text_pairs(crumbs@) =~= text_pairs(p.breadcrumb@).drop_last());
        },
    }
    PickerState {
        folder_id: id,
        listing_request_id: request,
        breadcrumb: crumbs,
        entries: Vec::new(),
        selected: 0,
        loading: true,
    }
}

fn picker_at(p: PickerState, selected: usize) -> (r: PickerState)
    ensures
        r@ == (PickerView { selected, ..p@ }),
{
    let mut out: PickerState = p;
    out.selected = selected;
    out
}

impl App {
    pub(crate) fn type_into(&mut self, value: String, code: KeyCode, modifiers: KeyModifiers) -> (r:
        (String, Option<bool>))
        ensures
            final(self)@ == old(self)@.typed(value@, code, modifiers),
            r.0@ == old(self)@.typing(value@, code, modifiers).value,
            r.1 == old(self)@.typing(value@, code, modifiers).done,
    {
        let mut text: String = value;
        let done: Option<bool> = handle_text_input(
            &mut text,
            &mut self.text_cursor,
            code,
            modifiers,
        );
        (text, done)
    }

    pub(crate) fn cursor_to_end(&mut self)
        ensures
            final(self)@ == old(self)@.cursor_at_end(),
    {
        self.text_cursor = usize::MAX;
    }

    /// Edits a destination path that is being typed.
    pub fn apply_path_input_key(
        &mut self,
        code: KeyCode,
        modifiers: KeyModifiers,
        input: PathInput,
    ) -> (r: PathInputKeyResult)
        ensures
            final(self)@ == old(self)@.path_keyed(input@, code, modifiers),
            r@ == path_result(
                input@,
                code,
                modifiers,
                old(self)@.typing(input@.value, code, modifiers).value,
            ),
    {
        if code == KeyCode::Char('b') && modifiers.control {
            return PathInputKeyResult::SwitchToPicker;
        }
        match code {
            KeyCode::Esc => {
                if input.candidates.len() > 0 {
                    return PathInputKeyResult::Updated(cleared_input(input));
                }
                return PathInputKeyResult::Cancelled;
            },
            KeyCode::Enter => {
                return confirm_path(input);
            },
            KeyCode::Tab => {
                self.cursor_to_end();
                let copy: PathInput = copy_input(&input);
                self.ask(Effect::CompletePath { input: copy });
                return PathInputKeyResult::Updated(input);
            },
            _ => {
                let (value, _done) = self.type_into(input.value.clone(), code, modifiers);
                return PathInputKeyResult::Updated(retype(input, value));
            },
        }
    }

    fn cancel_transfer(&mut self, source: Option<Entry>, is_move: bool)
        ensures
            final(self)@ == old(self)@.transfer_cancelled(source, is_move),
    {
        self.push_log(cat2(op_name(is_move), " cancelled"));
        if source.is_none() {
            self.set_mode(InputMode::CartView);
            return;
        }
    }

    fn pick_for(&mut self, source: Option<Entry>, is_move: bool)
        ensures
            final(self)@ == old(self)@.picking(source, is_move),
    {
        let picker: PickerState = self.build_picker_state();
        let mode: InputMode = make_picker_mode(source, picker, is_move);
        self.set_mode(mode);
    }

    /// Handles a key in a path input, for one entry or, without one, for the cart.
    pub fn handle_generic_path_input_key(
        &mut self,
        code: KeyCode,
        modifiers: KeyModifiers,
        input: PathInput,
        is_move: bool,
        source: Option<Entry>,
    )
        ensures
            final(self)@ == old(self)@.path_input_key(source, input@, is_move, code, modifiers),
    {
        reveal(AppView::path_input_key);
        match self.apply_path_input_key(code, modifiers, input) {
            PathInputKeyResult::Updated(i) => {
                let mode: InputMode = make_input_mode(source, i, is_move);
                self.set_mode(mode);
                return;
            },
            PathInputKeyResult::Confirmed(target) => {
                self.ask(Effect::ResolvePath { target, source, is_move });
                return;
            },
            PathInputKeyResult::SwitchToPicker => {
                self.pick_for(source, is_move);
                return;
            },
            PathInputKeyResult::Cancelled => {
                self.cancel_transfer(source, is_move);
                return;
            },
        }
    }

    pub(crate) fn empty_cart(&mut self)
        ensures
            final(self)@ == old(self)@.cart_emptied(),
    {
        self.cart = Vec::new();
        self.cart_selected = 0;
    }

    fn take_cart(&mut self) -> (r: Vec<Entry>)
        ensures
            r@ == old(self)@.cart,
            final(self)@ == old(self)@.cart_emptied(),
    {
        let mut out: Vec<Entry> = Vec::new();
        std::mem::swap(&mut out, &mut self.cart);
        self.cart_selected = 0;
        out
    }

    fn log_names(&mut self, items: &Vec<Entry>)
        ensures
            final(self)@ == old(self)@.logged_names(items@),
    {
        let mut i: usize = 0;
        assert(items@.take(0).len() == 0);
        while i < items.len()
            invariant
                i <= items.len(),
                self@ == old(self)@.logged_names(items@.take(i as int)),
            decreases items.len() - i,
        {
            assert(items@.take(i + 1).drop_last() =~= items@.take(i as int));
            self.push_log(cat2("  ", items[i].name.as_str()));
            i += 1;
        }
        assert(items@.take(items@.len() as int) =~= items@);
    }

    pub fn spawn_move_copy(
        &mut self,
        source: Entry,
        dest_id: String,
        dest_path: String,
        is_move: bool,
    )
        ensures
            final(self)@ == old(self)@.transferred(Some(source), dest_id@, dest_path@, is_move),
    {
        self.ask_remote(
            RemoteOp::MoveCopy {
                source_id: source.id,
                source_name: source.name,
                dest_id,
                dest_path,
                is_move,
            },
        );
    }

    pub fn spawn_cart_move_copy(&mut self, dest_id: String, dest_path: String, is_move: bool)
        ensures
            final(self)@ == old(self)@.transferred(None, dest_id@, dest_path@, is_move),
    {
        let ids: Vec<String> = collect_ids(&self.cart);
        self.ask_remote(RemoteOp::CartMoveCopy { ids, dest_id, dest_path, is_move });
        let items: Vec<Entry> = self.take_cart();
        self.log_names(&items);
    }

    fn transfer(
        &mut self,
        source: Option<Entry>,
        dest_id: String,
        dest_path: String,
        is_move: bool,
    )
        ensures
            final(self)@ == old(self)@.transferred(source, dest_id@, dest_path@, is_move),
    {
        match source {
            Some(e) => {
                self.spawn_move_copy(e, dest_id, dest_path, is_move);
                return;
            },
            None => {
                self.spawn_cart_move_copy(dest_id, dest_path, is_move);
                return;
            },
        }
    }

    /// Goes on with a transfer after the folder of a typed path was looked up.
    pub fn path_resolved(
        &mut self,
        target: String,
        source: Option<Entry>,
        is_move: bool,
        result: Result<String, String>,
    )
        ensures
            final(self)@ == old(self)@.path_found(target@, source, is_move, result),
    {
        match result {
            Ok(id) => {
                self.transfer(source, id, target, is_move);
                return;
            },
            Err(e) => {
                self.push_log(cat2("Invalid path: ", e.as_str()));
                if source.is_none() {
                    self.set_mode(InputMode::CartView);
                    return;
                }
                return;
            },
        }
    }

    /// Navigates in a destination picker.
    pub fn apply_picker_key(&mut self, code: KeyCode, picker: PickerState) -> (r: PickerKeyResult)
        ensures
            final(self)@ == old(self)@.picker_keyed(picker@, code),
            r@ == picker_result(picker@, code, old(self)@.next_id()),
    {
        let down: bool = code == KeyCode::Down || code == KeyCode::Char('j');
        let up: bool = code == KeyCode::Up || code == KeyCode::Char('k');
        if down {
            let n: usize = count_folders(&picker.entries);
            let at: usize = if n > 0 { step_down(picker.selected, 1, n) } else { picker.selected };
            return PickerKeyResult::Navigated(picker_at(picker, at));
        }
        if up {
            let at: usize = picker.selected.saturating_sub(1);
            return PickerKeyResult::Navigated(picker_at(picker, at));
        }
        match code {
            KeyCode::Enter => {
                match nth_folder(&picker.entries, picker.selected) {
                    Some(e) => {
                        let request: u64 = self.spawn_picker_ls(e.id.clone());
                        return PickerKeyResult::Navigated(
                            picker_in(picker, e.id, Some(e.name), request),
                        );
                    },
                    None => {
                        return PickerKeyResult::Navigated(picker);
                    },
                }
            },
            KeyCode::Backspace => {
                let n: usize = picker.breadcrumb.len();
                if n > 0 {
                    let id: String = picker.breadcrumb[n - 1].0.clone();
                    let request: u64 = self.spawn_picker_ls(id.clone());
                    return PickerKeyResult::Navigated(picker_in(picker, id, None, request));
                }
                return PickerKeyResult::Navigated(picker);
            },
            KeyCode::Esc => {
                return PickerKeyResult::Cancelled;
            },
            KeyCode::Char(c) => {
                if c == ' ' {
                    return PickerKeyResult::Confirmed(picker);
                }
                if c == '/' {
                    return PickerKeyResult::SwitchToTextInput;
                }
                if c == 'h' {
                    return PickerKeyResult::ShowHelp(picker);
                }
                return PickerKeyResult::Navigated(picker);
            },
            _ => {
                return PickerKeyResult::Navigated(picker);
            },
        }
    }

    /// Handles a key in a destination picker, for one entry or, without one, for the cart.
    pub fn handle_generic_picker_key(
        &mut self,
        code: KeyCode,
        picker: PickerState,
        is_move: bool,
        source: Option<Entry>,
    )
        ensures
            final(self)@ == old(self)@.picker_key(source, picker@, is_move, code),
    {
        reveal(AppView::picker_key);
        match self.apply_picker_key(code, picker) {
            PickerKeyResult::Navigated(p) => {
                let mode: InputMode = make_picker_mode(source, p, is_move);
                self.set_mode(mode);
                return;
            },
            PickerKeyResult::Confirmed(p) => {
                let path: String = App::picker_path_display(&p);
                self.transfer(source, p.folder_id, path, is_move);
                return;
            },
            PickerKeyResult::Cancelled => {
                self.cancel_transfer(source, is_move);
                return;
            },
            PickerKeyResult::ShowHelp(p) => {
                self.open_help();
                let mode: InputMode = make_picker_mode(source, p, is_move);
                self.set_mode(mode);
                return;
            },
            PickerKeyResult::SwitchToTextInput => {
                let mode: InputMode = make_input_mode(source, PathInput::new(), is_move);
                self.set_mode(mode);
                return;
            },
        }
    }

    /// Takes over what the completion made of a path input, and the request that it still waits
    /// for.
    pub fn path_input_completed(&mut self, input: PathInput, in_flight: Option<u64>)
        ensures
            final(self)@ == (AppView {
                input: crate::results::with_input(old(self)@.input, input@),
                path_completion_in_flight: in_flight,
                ..old(self)@
            }),
    {
        let mut mode: InputMode = InputMode::Normal;
        std::mem::swap(&mut mode, &mut self.input);
        self.input = put_input(mode, input);
        self.path_completion_in_flight = in_flight;
    }
}

fn put_input(m: InputMode, input: PathInput) -> (r: InputMode)
    ensures
        r@ == crate::results::with_input(m@, input@),
{
    match m {
        InputMode::MoveInput { source, input: _ } => InputMode::MoveInput { source, input },
        InputMode::CopyInput { source, input: _ } => InputMode::CopyInput { source, input },
        InputMode::CartMoveInput { input: _ } => InputMode::CartMoveInput { input },
        InputMode::CartCopyInput { input: _ } => InputMode::CartCopyInput { input },
        other => other,
    }
}

// ---------------------------------------------------------------------------------------------
// The cart.

/// The cart cursor one down, within the cart.
pub open spec fn cursor_down(at: usize, len: nat) -> usize {
    if len > 0 {
        min_int(at + 1, len - 1) as usize
    } else {
        at
    }
}

pub open spec fn cursor_up(at: usize) -> usize {
    if at > 0 {
        (at - 1) as usize
    } else {
        0
    }
}

pub(crate) fn go_down(at: usize, len: usize) -> (r: usize)
    ensures
        r == cursor_down(at, len as nat),
{
    if len > 0 {
        step_down(at, 1, len)
    } else {
        at
    }
}

pub(crate) fn go_up(at: usize) -> (r: usize)
    ensures
        r == cursor_up(at),
{
    at.saturating_sub(1)
}

/// The cursor after the item under it left a list that has `len` items now.
pub open spec fn cursor_after_removal(at: usize, len: nat) -> usize {
    if at >= len && at > 0 {
        (at - 1) as usize
    } else {
        at
    }
}

fn index_after_removal(at: usize, len: usize) -> (r: usize)
    ensures
        r == cursor_after_removal(at, len as nat),
{
    if at >= len && at > 0 {
        at - 1
    } else {
        at
    }
}

/// What a key of the cart does.
#[derive(Clone, Copy, Debug, PartialEq, Eq, Structural)]
pub enum CartAction {
    Close,
    Down,
    Up,
    Remove,
    Clear,
    Download,
    MoveAll,
    CopyAll,
    TrashAll,
    Share,
    SharePlain,
    Nothing,
}

pub open spec fn cart_binding(code: KeyCode) -> CartAction {
    match code {
        KeyCode::Esc => CartAction::Close,
        KeyCode::Down => CartAction::Down,
        KeyCode::Up => CartAction::Up,
        KeyCode::Enter => CartAction::Download,
        KeyCode::Char(c) => if c == 'j' {
            CartAction::Down
        } else if c == 'k' {
            CartAction::Up
        } else if c == 'x' || c == 'd' {
            CartAction::Remove
        } else if c == 'C' {
            CartAction::Clear
        } else if c == 'm' {
            CartAction::MoveAll
        } else if c == 'c' {
            CartAction::CopyAll
        } else if c == 't' {
            CartAction::TrashAll
        } else if c == 's' {
            CartAction::Share
        } else if c == 'S' {
            CartAction::SharePlain
        } else {
            CartAction::Nothing
        },
        _ => CartAction::Nothing,
    }
}

/// Clearing the cart has a key of its own, `C`: `a` adds to the cart everywhere else, and a stray
/// one must not empty it.
fn cart_bound(code: KeyCode) -> (r: CartAction)
    ensures
        r == cart_binding(code),
{
    match code {
        KeyCode::Esc => CartAction::Close,
        KeyCode::Down => CartAction::Down,
        KeyCode::Up => CartAction::Up,
        KeyCode::Enter => CartAction::Download,
        KeyCode::Char(c) => if c == 'j' {
            CartAction::Down
        } else if c == 'k' {
            CartAction::Up
        } else if c == 'x' || c == 'd' {
            CartAction::Remove
        } else if c == 'C' {
            CartAction::Clear
        } else if c == 'm' {
            CartAction::MoveAll
        } else if c == 'c' {
            CartAction::CopyAll
        } else if c == 't' {
            CartAction::TrashAll
        } else if c == 's' {
            CartAction::Share
        } else if c == 'S' {
            CartAction::SharePlain
        } else {
            CartAction::Nothing
        },
        _ => CartAction::Nothing,
    }
}

/// The work of making one share for each entry.
pub open spec fn share_work(v: Seq<Entry>, need_password: bool) -> Seq<EffectView> {
    Seq::new(
        v.len(),
        |i: int|
            EffectView::Remote(
                RemoteOpView::CreateShare { file_id: v[i].id@, title: v[i].name@, need_password },
            ),
    )
}

impl AppView {
    pub open spec fn cart_cursor(self, at: usize) -> AppView {
        AppView { cart_selected: at, ..self }
    }

    pub open spec fn cart_item_removed(self) -> AppView {
        let at = self.cart_selected as int;
        AppView {
            cart: self.cart.remove(at),
            cart_selected: cursor_after_removal(
                self.cart_selected,
                (self.cart.len() - 1) as nat,
            ),
            ..self
        }
    }

    pub open spec fn cart_removal(self) -> AppView {
        if self.cart_selected < self.cart.len() {
            self.cart_item_removed().logged(
                "Removed '"@ + self.cart[self.cart_selected as int].name@ + "' from cart"@,
            )
        } else {
            self
        }
    }

    pub open spec fn shares_asked(self, need_password: bool) -> AppView {
        if self.cart.len() == 0 {
            self.in_mode(ModeView::CartView)
        } else {
            AppView {
                effects: self.effects + share_work(self.cart, need_password),
                ..self.in_mode(ModeView::ShareCreatedView { shares: Seq::empty() })
            }
        }
    }

    #[verifier::opaque]
    pub open spec fn cart_key(self, action: CartAction) -> AppView {
        match action {
            CartAction::Close => self,
            CartAction::Down => self.cart_cursor(
                cursor_down(self.cart_selected, self.cart.len()),
            ).in_mode(ModeView::CartView),
            CartAction::Up => self.cart_cursor(cursor_up(self.cart_selected)).in_mode(
                ModeView::CartView,
            ),
            CartAction::Remove => self.cart_removal().in_mode(ModeView::CartView),
            CartAction::Clear => self.cart_emptied().logged(
                "Cleared "@ + decimal(self.cart.len()) + " items from cart"@,
            ).in_mode(ModeView::CartView),
            CartAction::Nothing => self.in_mode(ModeView::CartView),
            _ => if self.cart.len() == 0 {
                self.logged("Cart is empty"@).in_mode(ModeView::CartView)
            } else {
                match action {
                    CartAction::Download => self.in_mode(ModeView::CartView).asking(
                        EffectView::OpenLocalInput { for_upload: false },
                    ),
                    CartAction::MoveAll => self.picking(None, true),
                    CartAction::CopyAll => self.picking(None, false),
                    CartAction::TrashAll => self.in_mode(ModeView::ConfirmCartDelete),
                    CartAction::Share => self.in_mode(ModeView::SharePrompt),
                    _ => self.shares_asked(false),
                }
            },
        }
    }

    pub open spec fn cart_trashed(self) -> AppView {
        self.remote_asked(RemoteOpView::TrashCart { ids: ids_of(self.cart) }).cart_emptied()
    }

    #[verifier::opaque]
    pub open spec fn confirm_cart_delete_key(self, code: KeyCode) -> AppView {
        if code == KeyCode::Char('y') || code == KeyCode::Enter {
            self.cart_trashed()
        } else {
            self.in_mode(ModeView::CartView)
        }
    }

    #[verifier::opaque]
    pub open spec fn share_prompt_key(self, code: KeyCode) -> AppView {
        if code == KeyCode::Char('p') {
            self.shares_asked(false)
        } else if code == KeyCode::Char('P') {
            self.shares_asked(true)
        } else {
            self.in_mode(ModeView::CartView)
        }
    }
}

impl App {
    fn move_cart_cursor(&mut self, at: usize)
        ensures
            final(self)@ == old(self)@.cart_cursor(at).in_mode(ModeView::CartView),
    {
        self.cart_selected = at;
        self.input = InputMode::CartView;
    }

    fn take_cart_item(&mut self) -> (r: Entry)
        requires
            old(self).cart_selected < old(self).cart@.len(),
        ensures
            r == old(self)@.cart[old(self)@.cart_selected as int],
            final(self)@ == old(self)@.cart_item_removed(),
    {
        let item: Entry = self.cart.remove(self.cart_selected);
        self.cart_selected = index_after_removal(self.cart_selected, self.cart.len());
        item
    }

    fn remove_cart_item(&mut self)
        ensures
            final(self)@ == old(self)@.cart_removal(),
    {
        if self.cart_selected < self.cart.len() {
            let item: Entry = self.take_cart_item();
            self.push_log(cat3("Removed '", item.name.as_str(), "' from cart"));
            return;
        }
    }

    fn clear_cart(&mut self)
        ensures
            final(self)@ == old(self)@.cart_key(CartAction::Clear),
    {
        reveal(AppView::cart_key);
        let n: usize = self.cart.len();
        self.empty_cart();
        self.push_log(cat3("Cleared ", dec(n as u64).as_str(), " items from cart"));
        self.set_mode(InputMode::CartView);
    }

    fn ask_shares(&mut self, need_password: bool)
        ensures
            final(self)@ == (AppView {
                effects: old(self)@.effects + share_work(old(self)@.cart, need_password),
                ..old(self)@
            }),
    {
        let mut i: usize = 0;
        let ghost all = share_work(self@.cart, need_password);
        assert(old(self)@.effects + all.take(0) =~= old(self)@.effects);
        while i < self.cart.len()
            invariant
                i <= self.cart.len(),
                all == share_work(old(self)@.cart, need_password),
                self@ == (AppView {
                    effects: old(self)@.effects + all.take(i as int),
                    ..old(self)@
                }),
            decreases self.cart.len() - i,
        {
            let file_id: String = self.cart[i].id.clone();
            let title: String = self.cart[i].name.clone();
            self.ask(Effect::Remote(RemoteOp::CreateShare { file_id, title, need_password }));
            assert((old(self)@.effects + all.take(i as int)).push(all[i as int])
                =~= old(self)@.effects + all.take(i + 1));
            i += 1;
        }
        assert(all.take(all.len() as int) =~= all);
    }

    pub fn spawn_create_shares(&mut self, need_password: bool)
        ensures
            final(self)@ == old(self)@.shares_asked(need_password),
    {
        if self.cart.len() == 0 {
            self.set_mode(InputMode::CartView);
            return;
        }
        self.open_created_shares();
        self.ask_shares(need_password);
    }

    fn open_created_shares(&mut self)
        ensures
            final(self)@ == old(self)@.in_mode(
                ModeView::ShareCreatedView { shares: Seq::empty() },
            ),
    {
        let none: Vec<(String, String, String)> = Vec::new();
        assert(crate::model::shares_view(none@) =~= Seq::<(Chars, Chars, Chars)>::empty());
        self.set_mode(InputMode::ShareCreatedView { shares: none });
    }

    fn say_cart_is_empty(&mut self)
        ensures
            final(self)@ == old(self)@.logged("Cart is empty"@).in_mode(ModeView::CartView),
    {
        self.log("Cart is empty");
        self.set_mode(InputMode::CartView);
    }

    fn use_cart(&mut self, action: CartAction)
        requires
            action == CartAction::Download || action == CartAction::MoveAll || action
                == CartAction::CopyAll || action == CartAction::TrashAll || action
                == CartAction::Share || action == CartAction::SharePlain,
        ensures
            final(self)@ == old(self)@.cart_key(action),
    {
        reveal(AppView::cart_key);
        if self.cart.len() == 0 {
            self.say_cart_is_empty();
            return;
        }
        match action {
            CartAction::Download => {
                self.set_mode(InputMode::CartView);
                self.ask(Effect::OpenLocalInput { for_upload: false });
                return;
            },
            CartAction::MoveAll => {
                self.pick_for(None, true);
                return;
            },
            CartAction::CopyAll => {
                self.pick_for(None, false);
                return;
            },
            CartAction::TrashAll => {
                self.set_mode(InputMode::ConfirmCartDelete);
                return;
            },
            CartAction::Share => {
                self.set_mode(InputMode::SharePrompt);
                return;
            },
            _ => {
                self.spawn_create_shares(false);
                return;
            },
        }
    }

    pub fn handle_cart_view_key(&mut self, code: KeyCode)
        ensures
            final(self)@ == old(self)@.cart_key(cart_binding(code)),
    {
        reveal(AppView::cart_key);
        let action: CartAction = cart_bound(code);
        match action {
            CartAction::Close => {
                return;
            },
            CartAction::Down => {
                let at: usize = go_down(self.cart_selected, self.cart.len());
                self.move_cart_cursor(at);
                return;
            },
            CartAction::Up => {
                let at: usize = go_up(self.cart_selected);
                self.move_cart_cursor(at);
                return;
            },
            CartAction::Remove => {
                self.remove_cart_item();
                self.set_mode(InputMode::CartView);
                return;
            },
            CartAction::Clear => {
                self.clear_cart();
                return;
            },
            CartAction::Nothing => {
                self.set_mode(InputMode::CartView);
                return;
            },
            _ => {
                self.use_cart(action);
                return;
            },
        }
    }

    pub fn spawn_cart_delete(&mut self)
        ensures
            final(self)@ == old(self)@.cart_trashed(),
    {
        let ids: Vec<String> = collect_ids(&self.cart);
        self.ask_remote(RemoteOp::TrashCart { ids });
        self.empty_cart();
    }

    pub fn handle_confirm_cart_delete_key(&mut self, code: KeyCode)
        ensures
            final(self)@ == old(self)@.confirm_cart_delete_key(code),
    {
        reveal(AppView::confirm_cart_delete_key);
        if code == KeyCode::Char('y') || code == KeyCode::Enter {
            self.spawn_cart_delete();
            return;
        }
        self.set_mode(InputMode::CartView);
    }

    pub fn handle_share_prompt_key(&mut self, code: KeyCode)
        ensures
            final(self)@ == old(self)@.share_prompt_key(code),
    {
        reveal(AppView::share_prompt_key);
        if code == KeyCode::Char('p') {
            self.spawn_create_shares(false);
            return;
        }
        if code == KeyCode::Char('P') {
            self.spawn_create_shares(true);
            return;
        }
        self.set_mode(InputMode::CartView);
    }
}

} // verus!
