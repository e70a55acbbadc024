//! What holds across several operations of the interface.

use crate::app::AppView;
use crate::effect::OpResult;
use crate::event::{KeyCode, KeyModifiers};
use crate::geometry::{max_int, Rect};
use crate::keys::{action_list, ACTION_COUNT};
use crate::model::{find_entry, Entry};
use crate::navigate::{binding, no_duplicates, without_id};
use crate::panes::{toast_area, toast_scene};
use crate::results::{mode_picker, picker_waits};
use crate::scene::{cleared_area, WidgetView};
use crate::text::Chars;
use crate::transfer::CartAction;
use crate::width::padded;
use syntect::highlighting::Theme;
use syntect::parsing::SyntaxSet;
use vstd::prelude::*;

verus! {

impl AppView {
    /// Whether a reply answers a request that is no longer awaited: one that another request has
    /// taken the place of, that was given up, or that belongs to a folder which was left.
    pub open spec fn is_stale(self, r: OpResult) -> bool {
        match r {
            OpResult::Ls(id, folder, _) => self.current_folder_id != folder@
                || self.main_listing_request_id != id,
            OpResult::Info(q, _, _) => self.modal_request != Some(q@),
            OpResult::ParentLs(q, _) => self.parent_listing_request != Some(q@),
            OpResult::PreviewLs(q, _) => self.modal_request != Some(q@) && self.preview_request
                != Some(q@),
            OpResult::PreviewInfo(q, _) => self.preview_request != Some(q@),
            OpResult::PreviewText(q, _) => self.modal_request != Some(q@) && self.preview_request
                != Some(q@),
            OpResult::PreviewThumbnail(q, _) => self.preview_request != Some(q@),
            OpResult::OfflineTasks(q, _) => self.modal_request != Some(q@),
            OpResult::PlayInfo(q, _) => self.modal_request != Some(q@),
            OpResult::PlayPickerInfo(q, _) => self.modal_request != Some(q@),
            OpResult::InfoThumbnail(q, _) => self.modal_request != Some(q@),
            OpResult::GotoPath(q, _) => self.modal_request != Some(q@),
            OpResult::PickerLs(id, folder, _) => match mode_picker(self.input) {
                Some(p) => !picker_waits(p, id, folder@),
                None => true,
            },
            OpResult::PathCandidates { request_id, .. } => self.path_completion_in_flight != Some(
                request_id,
            ),
            _ => false,
        }
    }

    /// Whether a reply opens a dialog or leads to another folder, and something else is shown by
    /// now.
    pub open spec fn comes_too_late(self, r: OpResult) -> bool {
        match r {
            OpResult::Info(_, _, _) => !(self.input is InfoLoading),
            OpResult::OfflineTasks(_, _) => !(self.input is InfoLoading),
            OpResult::PlayInfo(_, _) => !(self.input is Normal),
            OpResult::PlayPickerInfo(_, _) => !(self.input is Normal),
            OpResult::GotoPath(_, _) => !(self.input is Normal),
            OpResult::InfoThumbnail(_, _) => !(self.input is InfoView),
            OpResult::PickerLs(_, _, _) => mode_picker(self.input) is None,
            _ => false,
        }
    }
}

/// A reply to a request that is no longer awaited changes nothing.
pub proof fn law_stale_reply_changes_nothing(a: AppView, r: OpResult, set: SyntaxSet, theme: Theme)
    requires
        a.is_stale(r),
    ensures
        a.applied(r, set, theme) == a,
{
    reveal(AppView::main_listed);
    reveal(AppView::info_came);
    reveal(AppView::parent_listed);
    reveal(AppView::folder_preview_came);
    reveal(AppView::preview_info_came);
    reveal(AppView::text_preview_came);
    reveal(AppView::thumbnail_came);
    reveal(AppView::offline_tasks_came);
    reveal(AppView::play_info_came);
    reveal(AppView::play_options_came);
    reveal(AppView::info_thumbnail_came);
    reveal(AppView::goto_came);
    reveal(AppView::picker_listing_came);
    reveal(AppView::completion_came);
}

/// A reply that would open a dialog, or lead to another folder, changes nothing once something else
/// was opened, even where it is still awaited.
pub proof fn law_late_reply_changes_nothing(a: AppView, r: OpResult, set: SyntaxSet, theme: Theme)
    requires
        a.comes_too_late(r),
    ensures
        a.applied(r, set, theme) == a,
{
    reveal(AppView::info_came);
    reveal(AppView::offline_tasks_came);
    reveal(AppView::play_info_came);
    reveal(AppView::play_options_came);
    reveal(AppView::goto_came);
    reveal(AppView::info_thumbnail_came);
    reveal(AppView::picker_listing_came);
}

/// As soon as a folder is listed again, the reply to the request before is stale.
pub proof fn law_newer_listing_voids_the_older(
    a: AppView,
    folder: Chars,
    target: String,
    result: Result<Vec<Entry>, String>,
    set: SyntaxSet,
    theme: Theme,
)
    ensures
        ({
            let older = OpResult::Ls(a.main_listing_request_id, target, result);
            let b = a.main_requested(folder);
            b.is_stale(older) && b.applied(older, set, theme) == b
        }),
{
    let older = OpResult::Ls(a.main_listing_request_id, target, result);
    let b = a.main_requested(folder);
    law_stale_reply_changes_nothing(b, older, set, theme);
}

/// A listing leaves the cursor on the entry that it was on, where that entry is still there, and on
/// some entry in any case, where there is one.
pub proof fn law_cursor_follows_its_entry(a: AppView, v: Seq<Entry>)
    requires
        v.len() <= usize::MAX,
    ensures
        v.len() > 0 ==> a.with_listing(v).selected < v.len(),
        a.selected < a.entries.len() && find_entry(v, a.entries[a.selected as int].id@) is Some
            ==> v[a.with_listing(v).selected as int].id@ == a.entries[a.selected as int].id@,
{
    if a.selected < a.entries.len() {
        lemma_found(v, a.entries[a.selected as int].id@);
    }
}

proof fn lemma_found(v: Seq<Entry>, id: Chars)
    ensures
        match find_entry(v, id) {
            Some(i) => 0 <= i < v.len() && v[i as int].id@ == id,
            None => true,
        },
    decreases v.len(),
{
    if v.len() > 0 {
        lemma_found(v.drop_last(), id);
    }
}

/// What is done in the cart keeps each entry there at most once.
pub proof fn law_cart_stays_without_duplicates(a: AppView, action: CartAction)
    requires
        no_duplicates(a.cart),
    ensures
        no_duplicates(a.cart_key(action).cart),
{
    reveal(AppView::cart_key);
    if a.cart_selected < a.cart.len() {
        let rest = a.cart.remove(a.cart_selected as int);
        assert forall|i: int, j: int| 0 <= i < j < rest.len() implies (#[trigger] rest[i]).id@ != (
        #[trigger] rest[j]).id@ by {
            let m = if i < a.cart_selected {
                i
            } else {
                i + 1
            };
            let n = if j < a.cart_selected {
                j
            } else {
                j + 1
            };
            assert(a.cart[m].id@ != a.cart[n].id@);
        }
    }
}

/// Putting an entry into the cart and taking it out again leaves the cart as it was.
pub proof fn law_toggling_twice_keeps_the_cart(a: AppView)
    requires
        a.current() is Some,
        find_entry(a.cart, a.current()->0.id@) is None,
    ensures
        a.cart_toggled().cart == a.cart.push(a.current()->0),
        a.cart_toggled().cart_toggled().cart == a.cart,
{
    let e = a.current()->0;
    let b = a.cart_toggled();
    assert(b.current() == a.current());
    assert(b.cart.drop_last() =~= a.cart);
    lemma_none_without(a.cart, e.id@);
}

proof fn lemma_none_without(v: Seq<Entry>, id: Chars)
    requires
        find_entry(v, id) is None,
    ensures
        without_id(v, id) == v,
    decreases v.len(),
{
    if v.len() > 0 {
        lemma_none_without(v.drop_last(), id);
        assert(v.drop_last().push(v.last()) =~= v);
    }
}

/// The menu of actions does what the key of the selected action does in the main pane.
pub proof fn law_menu_runs_the_action_of_its_key(a: AppView, selected: usize)
    requires
        selected < ACTION_COUNT,
    ensures
        a.menu_key(selected, KeyCode::Enter) == a.acted(
            binding(
                action_list()[selected as int].key,
                KeyModifiers { control: false, alt: false },
            ),
        ),
        a.menu_quits(selected, KeyCode::Enter) == a.quits(
            binding(
                action_list()[selected as int].key,
                KeyModifiers { control: false, alt: false },
            ),
        ),
{
    reveal(AppView::menu_key);
    reveal(AppView::acted);
}

/// In the dialog that wants a `yes`, nothing is deleted unless it was typed: any other key or text
/// asks nothing of the drive.
pub proof fn law_permanent_delete_takes_a_yes(
    a: AppView,
    value: Chars,
    code: KeyCode,
    modifiers: KeyModifiers,
)
    requires
        value != "yes"@ || code != KeyCode::Enter,
    ensures
        a.confirm_permanent_delete_key(value, code, modifiers).effects == a.effects,
{
    reveal(AppView::confirm_permanent_delete_key);
}

/// A message is shown at the bottom as soon as it is logged, without the logs being opened, where
/// the main area has room for it.
pub proof fn law_logged_message_is_shown(a: AppView, msg: Chars, main: Rect, screen: Rect)
    requires
        main.width >= 16,
        main.height >= 4,
    ensures
        ({
            let b = a.logged(msg);
            let area = toast_area(msg, main);
            let scene = toast_scene(b.status_message, b.clock.now, main, screen);
            &&& scene.len() == 2
            &&& scene[0] == (WidgetView::Clear { area: cleared_area(area, screen) })
            &&& scene[1] matches WidgetView::Panel { lines, .. } && lines.len() == 1
                && lines[0].len() == 1 && lines[0][0].text == padded(
                msg,
                max_int(area.width - 4, 0) as nat,
            )
        }),
{
}

/// While the help has nothing to scroll, every key closes it and does nothing else.
pub proof fn law_every_key_closes_short_help(a: AppView, code: KeyCode, modifiers: KeyModifiers)
    requires
        a.show_help_sheet,
        a.screen.help_scroll_max == 0,
    ensures
        a.key_handled(code, modifiers) == a.help_closed(),
        !a.key_quits(code, modifiers),
{
    reveal(AppView::key_handled);
}

/// The help is never scrolled beyond its end.
pub proof fn law_help_scroll_stays_in_bounds(a: AppView, code: KeyCode, modifiers: KeyModifiers)
    requires
        a.show_help_sheet,
        a.help_scroll <= a.screen.help_scroll_max,
    ensures
        a.key_handled(code, modifiers).help_scroll <= a.screen.help_scroll_max,
{
    reveal(AppView::key_handled);
}

/// While downloads are under way, neither `Ctrl+C` nor any key of the main pane ends the program
/// at once.
pub proof fn law_downloads_are_not_cut_off(a: AppView, code: KeyCode, modifiers: KeyModifiers)
    requires
        a.downloads_active,
        a.input is Normal,
    ensures
        !a.key_quits(code, modifiers),
{
}

} // verus!
