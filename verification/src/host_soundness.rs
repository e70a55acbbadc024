//! What the mouse, the replies, the machine and the screen leave in order.

use crate::app::AppView;
use crate::areas::Areas;
use crate::effect::{CopySource, LocalStep, OpResult, SavePurpose};
use crate::event::{KeyCode, MouseEvent};
use crate::kit::Kit;
use crate::mouse::pane_index;
use crate::model::{DownloadTask, Entry, LocalPathInputView};
use crate::navigate::binding;
use crate::key_soundness::{
    keeps_or_empties, law_keys_keep_the_interface_sound, lemma_acting_keeps_sound,
    lemma_transfer_keeps_or_empties,
};
use crate::soundness::{law_replies_keep_the_interface_sound, leaves_alone};
use crate::text::Chars;
use crate::views::LocalPathKind;
use syntect::highlighting::Theme;
use syntect::parsing::SyntaxSet;
use vstd::prelude::*;

verus! {

proof fn lemma_wheel_leaves_alone(a: AppView, col: u16, row: u16, up: bool)
    ensures
        leaves_alone(a, a.scrolled(col, row, up)),
{
}

proof fn lemma_presses_keep_sound(a: AppView, code: KeyCode)
    requires
        a.is_sound(),
    ensures
        a.pressed(code).is_sound(),
{
    lemma_acting_keeps_sound(a, binding(code, AppView::no_mods()));
}

proof fn lemma_rows_keep_sound(a: AppView, i: usize, double: bool)
    requires
        a.is_sound(),
    ensures
        a.row_clicked(i, double).is_sound(),
{
    law_keys_keep_the_interface_sound(a.row_taken(i), KeyCode::Enter, AppView::no_mods());
}

proof fn lemma_current_keeps_sound(a: AppView, row: u16, double: bool)
    requires
        a.is_sound(),
        a.screen.current_pane_area.y < row,
    ensures
        a.current_clicked(row, double).is_sound(),
{
    let i = pane_index(row, a.screen.current_pane_area, a.screen.scroll_offset);
    if i < a.entries.len() {
        assert(leaves_alone(a, a.selecting(i)));
        lemma_presses_keep_sound(a.selecting(i), KeyCode::Enter);
    }
}

proof fn lemma_parent_keeps_sound(a: AppView, row: u16, double: bool)
    requires
        a.is_sound(),
    ensures
        a.parent_clicked(row, double).is_sound(),
{
    let i = pane_index(row, a.screen.parent_pane_area, a.screen.parent_scroll_offset);
    let b = a.parent_at(i as usize);
    lemma_presses_keep_sound(b, KeyCode::Backspace);
    lemma_presses_keep_sound(b.pressed(KeyCode::Backspace), KeyCode::Enter);
}

proof fn lemma_panes_keep_sound(a: AppView, col: u16, row: u16, double: bool)
    requires
        a.is_sound(),
    ensures
        a.panes_clicked(col, row, double).is_sound(),
{
    if a.screen.current_pane_area.holds_inside(col, row) {
        lemma_current_keeps_sound(a, row, double);
    }
    lemma_parent_keeps_sound(a, row, double);
    lemma_presses_keep_sound(a, KeyCode::Enter);
    lemma_presses_keep_sound(a, KeyCode::Char(' '));
}

/// The mouse keeps the interface sound.
pub proof fn law_mouse_keeps_the_interface_sound(
    a: AppView,
    e: MouseEvent,
    hit: Option<(usize, bool)>,
)
    requires
        a.is_sound(),
    ensures
        a.moused(e, hit).is_sound(),
{
    let b = a.attended();
    lemma_wheel_leaves_alone(b, e.column, e.row, true);
    lemma_wheel_leaves_alone(b, e.column, e.row, false);
    let c = b.click_noted(e.column, e.row);
    let double = b.is_double_click(e.column, e.row);
    lemma_panes_keep_sound(c, e.column, e.row, double);
    match c.row_under(e.column, e.row) {
        Some(i) => lemma_rows_keep_sound(c, i, double),
        None => {},
    }
}

/// Any number of replies keep the interface sound.
pub proof fn law_polling_keeps_the_interface_sound(
    a: AppView,
    results: Seq<OpResult>,
    n: int,
    set: SyntaxSet,
    theme: Theme,
)
    requires
        a.is_sound(),
    ensures
        a.polled(results, n, set, theme).is_sound(),
    decreases n,
{
    if n > 0 {
        law_polling_keeps_the_interface_sound(a, results, n - 1, set, theme);
        law_replies_keep_the_interface_sound(
            a.polled(results, n - 1, set, theme),
            results[n - 1],
            set,
            theme,
        );
    }
}

/// Messages keep the interface sound.
pub proof fn law_messages_keep_the_interface_sound(a: AppView, msgs: Seq<Chars>)
    requires
        a.is_sound(),
    ensures
        a.logged_all(msgs).is_sound(),
    decreases msgs.len(),
{
    if msgs.len() > 0 {
        law_messages_keep_the_interface_sound(a, msgs.drop_last());
    }
}

/// The destination that was found for a move or a copy keeps the interface sound.
pub proof fn law_destination_keeps_the_interface_sound(
    a: AppView,
    target: Chars,
    source: Option<Entry>,
    is_move: bool,
    result: Result<String, String>,
)
    requires
        a.is_sound(),
    ensures
        a.path_found(target, source, is_move, result).is_sound(),
{
    match result {
        Ok(id) => {
            lemma_transfer_keeps_or_empties(a, source, id@, target, is_move);
            assert(keeps_or_empties(a, a.transferred(source, id@, target, is_move)));
        },
        Err(_) => {},
    }
}

/// What the machine reports keeps the interface sound: a saved configuration, a detected
/// terminal, a written clipboard, a started player, and a session taken over.
pub proof fn law_machine_keeps_the_interface_sound(
    a: AppView,
    purpose: SavePurpose,
    text: Chars,
    source: CopySource,
    protocols: Seq<(String, usize)>,
    first: Result<(), String>,
    second: Result<(), String>,
)
    requires
        a.is_sound(),
    ensures
        a.save_ended(purpose, first).is_sound(),
        a.protocols_opened(text, protocols).is_sound(),
        a.link_copied(text, source, first).is_sound(),
        a.player_started(text, first).is_sound(),
        a.session_taken(first, second).is_sound(),
{
}

proof fn lemma_input_keeps_or_empties(
    a: AppView,
    input: LocalPathInputView,
    for_upload: bool,
    step: LocalStep,
    was_applied: bool,
)
    ensures
        leaves_alone(a, a.local_input(input, for_upload)),
        keeps_or_empties(a, a.local_completed(input, for_upload, step, was_applied)),
{
}

proof fn lemma_upload_leaves_alone(a: AppView, path: Chars, kind: LocalPathKind, name: Chars)
    ensures
        leaves_alone(a, a.upload_path_seen(path, kind, name)),
{
}

/// What is reported of local paths keeps the interface sound.
pub proof fn law_paths_keep_the_interface_sound(
    a: AppView,
    input: LocalPathInputView,
    for_upload: bool,
    step: LocalStep,
    was_applied: bool,
    path: Chars,
    kind: LocalPathKind,
    name: Chars,
)
    requires
        a.is_sound(),
    ensures
        a.local_input(input, for_upload).is_sound(),
        a.local_completed(input, for_upload, step, was_applied).is_sound(),
        a.upload_path_seen(path, kind, name).is_sound(),
{
    lemma_input_keeps_or_empties(a, input, for_upload, step, was_applied);
    lemma_upload_leaves_alone(a, path, kind, name);
}

/// What is reported of downloads keeps the interface sound.
pub proof fn law_downloads_keep_the_interface_sound(
    a: AppView,
    dropped: Option<Chars>,
    downloads: Seq<DownloadTask>,
    downloads_active: bool,
)
    requires
        a.is_sound(),
    ensures
        a.download_dropped(dropped).is_sound(),
        (AppView { downloads, downloads_active, ..a }).is_sound(),
{
}

/// An order put on the entries keeps the interface sound.
pub proof fn law_sorting_keeps_the_interface_sound(a: AppView, entries: Seq<Entry>)
    requires
        a.is_sound(),
        entries.len() == a.entries.len(),
    ensures
        (AppView { entries, ..a }).is_sound(),
{
}

/// Drawing keeps the interface sound.
pub proof fn law_drawing_keeps_the_interface_sound(a: AppView, areas: Areas, kit: Kit)
    requires
        a.is_sound(),
    ensures
        (AppView { screen: a.screen_drawn(areas, kit), ..a }).is_sound(),
{
}

} // verus!
