//! What holds of moving through the drive.

use crate::app::AppView;
use crate::effect::{EffectView, RemoteOpView, SavePurpose};
use crate::event::{KeyCode, KeyModifiers};
use crate::model::{
    find_entry, AsyncRequestKind, Entry, EntryKind, FileCategory, ModeView, PreviewView,
};
use crate::navigate::{binding, Motion, NormalAction};
use crate::text::{opt_text, Chars};
use vstd::prelude::*;

verus! {

/// Leaving a folder leads to the folder that it was entered from, however deep it lies.
pub proof fn law_leaving_leads_to_the_folder_it_was_entered_from(
    a: AppView,
    crumbs: Seq<(Chars, Chars)>,
    id: Chars,
    name: Chars,
)
    requires
        a.breadcrumb == crumbs.push((id, name)),
    ensures
        ({
            let b = a.acted(NormalAction::Leave);
            &&& b.current_folder_id == id
            &&& b.breadcrumb == crumbs
            &&& b.entries == a.parent_entries
            &&& b.cart == a.cart
            &&& b.input == a.input
        }),
{
    reveal(AppView::acted);
    assert(crumbs.push((id, name)).drop_last() =~= crumbs);
}

/// Entering a folder goes one step down from the folder that is shown.
pub proof fn law_entering_goes_one_step_down(a: AppView, e: Entry)
    requires
        a.selected < a.entries.len(),
        a.entries[a.selected as int] == e,
        e.kind == EntryKind::Folder,
    ensures
        ({
            let b = a.acted(NormalAction::Open);
            &&& b.input == a.input
            &&& b.current_folder_id == e.id@
            &&& b.breadcrumb == a.breadcrumb.push((a.current_folder_id, e.name@))
            &&& b.parent_entries == a.entries
            &&& b.parent_selected == a.selected
            &&& b.cart == a.cart
        }),
{
    reveal(AppView::acted);
}

/// Entering a folder and leaving it again leads back to the folder, the path, the listing and the
/// row that it was entered from, however deep that lies.
pub proof fn law_leaving_undoes_entering(a: AppView, e: Entry)
    requires
        a.selected < a.entries.len(),
        a.entries[a.selected as int] == e,
        e.kind == EntryKind::Folder,
    ensures
        ({
            let b = a.acted(NormalAction::Open);
            let c = b.acted(NormalAction::Leave);
            &&& c.current_folder_id == a.current_folder_id
            &&& c.breadcrumb == a.breadcrumb
            &&& c.entries == a.entries
            &&& c.selected == a.selected
            &&& c.cart == a.cart
        }),
{
    reveal(AppView::acted);
    let b = a.acted(NormalAction::Open);
    law_entering_goes_one_step_down(a, e);
    law_leaving_leads_to_the_folder_it_was_entered_from(
        b,
        a.breadcrumb,
        a.current_folder_id,
        e.name@,
    );
    law_leaving_shows_a_listing_that_is_there(b);
}

proof fn lemma_left(a: AppView, crumbs: Seq<(Chars, Chars)>, id: Chars, name: Chars)
    requires
        a.breadcrumb == crumbs.push((id, name)),
    ensures
        a.left().current_folder_id == id,
        a.left().breadcrumb == crumbs,
        a.left().entries == a.parent_entries,
        a.parent_selected < a.parent_entries.len() ==> a.left().selected == a.parent_selected,
{
    assert(crumbs.push((id, name)).drop_last() =~= crumbs);
}

proof fn lemma_entered(a: AppView, e: Entry)
    ensures
        a.folder_entered(e).current_folder_id == e.id@,
        a.folder_entered(e).breadcrumb == a.breadcrumb.push((a.current_folder_id, e.name@)),
        a.folder_entered(e).parent_entries == a.entries,
        a.folder_entered(e).parent_selected == a.selected,
{
}

/// The same holds of entering any folder in any state, whether its listing is known or not.
pub proof fn law_any_folder_is_left_as_it_was_entered(a: AppView, e: Entry)
    ensures
        a.folder_entered(e).current_folder_id == e.id@,
        a.folder_entered(e).left().current_folder_id == a.current_folder_id,
        a.folder_entered(e).left().breadcrumb == a.breadcrumb,
        a.folder_entered(e).left().entries == a.entries,
        a.selected < a.entries.len() ==> a.folder_entered(e).left().selected == a.selected,
{
    lemma_entered(a, e);
    lemma_left(a.folder_entered(e), a.breadcrumb, a.current_folder_id, e.name@);
}

/// Where the listing of the folder above is not there yet, leaving asks for the listing of the
/// folder that it leads to, and only the answer to that is awaited.
pub proof fn law_leaving_asks_for_a_listing_that_is_not_there(a: AppView)
    requires
        a.breadcrumb.len() > 0,
        a.parent_entries.len() == 0,
    ensures
        ({
            let b = a.acted(NormalAction::Leave);
            &&& b.loading
            &&& b.effects.len() > a.effects.len()
            &&& b.effects[a.effects.len() as int] == (EffectView::ListFolder {
                request_id: b.main_listing_request_id,
                folder_id: b.current_folder_id,
            })
            &&& b.effects.last() == EffectView::FetchQuota
            &&& b.main_listing_request_id != a.main_listing_request_id
        }),
{
    reveal(AppView::acted);
}

/// Where it is there, it is shown at once, with the folder that was left in the preview, and the
/// listing of the folder above it is asked for.
pub proof fn law_leaving_shows_a_listing_that_is_there(a: AppView)
    requires
        a.breadcrumb.len() > 0,
        a.parent_entries.len() > 0,
    ensures
        ({
            let b = a.acted(NormalAction::Leave);
            &&& !b.loading
            &&& b.entries == a.parent_entries
            &&& b.selected < b.entries.len()
            &&& a.parent_selected < a.parent_entries.len() ==> b.selected == a.parent_selected
            &&& b.parent_entries.len() == 0
            &&& a.config.show_preview ==> b.preview_state == PreviewView::FolderListing(a.entries)
                && b.preview_target_id == Some(a.current_folder_id)
            &&& !a.config.show_preview ==> b.preview_state is Empty && b.preview_target_id is None
            &&& b.breadcrumb.len() == 0 ==> b.effects == a.effects
            &&& b.breadcrumb.len() > 0 ==> b.parent_listing_request is Some
                && b.parent_listing_request->0.target == b.breadcrumb.last().0
                && b.parent_listing_request->0.kind == AsyncRequestKind::ParentListing && a.asks(
                b,
                EffectView::ListParent { request: b.parent_listing_request->0 },
            )
        }),
{
    reveal(AppView::acted);
}

/// At the top of the drive there is nothing to leave.
pub proof fn law_the_top_is_not_left(a: AppView)
    requires
        a.breadcrumb.len() == 0,
    ensures
        ({
            let b = a.acted(NormalAction::Leave);
            a.keeps_files(b) && a.asks_nothing(b) && a.is_silent(b) && b.input == a.input
        }),
{
    reveal(AppView::acted);
}

/// Entering a folder asks for its own listing where the preview holds none of it.
pub proof fn law_entered_folder_is_asked_for(a: AppView, e: Entry)
    requires
        a.selected < a.entries.len(),
        a.entries[a.selected as int] == e,
        e.kind == EntryKind::Folder,
        a.preview_target_id != Some(e.id@) || !(a.preview_state is FolderListing),
    ensures
        ({
            let b = a.acted(NormalAction::Open);
            &&& b.selected == 0
            &&& b.entries.len() == 0
            &&& b.loading
            &&& b.main_listing_request_id != a.main_listing_request_id
            &&& a.asks(
                b,
                EffectView::ListFolder { request_id: b.main_listing_request_id, folder_id: e.id@ },
            )
        }),
{
    reveal(AppView::acted);
}

/// A listing that the preview holds of it is shown at once, and nothing is asked for. What was
/// asked for before is no longer awaited.
pub proof fn law_previewed_folder_is_shown_at_once(a: AppView, e: Entry, v: Seq<Entry>)
    requires
        a.selected < a.entries.len(),
        a.entries[a.selected as int] == e,
        e.kind == EntryKind::Folder,
        a.preview_target_id == Some(e.id@),
        a.preview_state == PreviewView::FolderListing(v),
    ensures
        ({
            let b = a.acted(NormalAction::Open);
            &&& b.selected == 0
            &&& b.entries == v
            &&& !b.loading
            &&& b.main_listing_request_id != a.main_listing_request_id
            &&& a.asks_nothing(b)
        }),
{
    reveal(AppView::acted);
}

/// Enter on a video asks how to play that very video. On another file it does nothing.
pub proof fn law_opened_file(a: AppView, e: Entry)
    requires
        a.selected < a.entries.len(),
        a.entries[a.selected as int] == e,
        e.kind == EntryKind::File,
    ensures
        ({
            let b = a.acted(NormalAction::Open);
            &&& a.keeps_files(b)
            &&& a.is_silent(b)
            &&& b.input == a.input
            &&& e.category == FileCategory::Video ==> {
                &&& b.loading
                &&& b.modal_request is Some
                &&& b.modal_request->0.target == e.id@
                &&& b.modal_request->0.kind == AsyncRequestKind::Play
                &&& b.modal_request->0.id != a.async_request_generation
                &&& a.asks(b, EffectView::FetchPlayInfo { request: b.modal_request->0 })
            }
            &&& e.category != FileCategory::Video ==> a.asks_nothing(b)
        }),
{
    reveal(AppView::acted);
}

/// `w` asks for the streams of the video under the cursor, and does nothing on any other entry.
pub proof fn law_streams_are_asked_of_a_video(a: AppView, e: Entry)
    requires
        a.selected < a.entries.len(),
        a.entries[a.selected as int] == e,
    ensures
        ({
            let b = a.acted(NormalAction::PickStream);
            let video = e.kind == EntryKind::File && e.category == FileCategory::Video;
            &&& a.keeps_files(b)
            &&& a.is_silent(b)
            &&& b.input == a.input
            &&& video ==> {
                &&& b.loading
                &&& b.modal_request is Some
                &&& b.modal_request->0.target == e.id@
                &&& b.modal_request->0.kind == AsyncRequestKind::PlayPicker
                &&& a.asks(b, EffectView::FetchPlayOptions { request: b.modal_request->0 })
            }
            &&& !video ==> a.asks_nothing(b)
        }),
{
    reveal(AppView::acted);
}

/// A movement of the cursor changes no listing, asks for nothing and goes by the rows it is meant
/// to, but never beyond the first or the last one.
pub proof fn law_cursor_moves(a: AppView, motion: Motion)
    requires
        a.selected < a.entries.len() <= usize::MAX,
    ensures
        ({
            let b = a.acted(NormalAction::Go(motion));
            let height = a.screen.list_area_height as int;
            let page = if height > 0 { height } else { 1 };
            let half = if height >= 2 { height / 2 } else { 1 };
            let last = a.entries.len() - 1;
            let to = match motion {
                Motion::Down => a.selected + 1,
                Motion::Up => a.selected - 1,
                Motion::PageDown => a.selected + page,
                Motion::PageUp => a.selected - page,
                Motion::HalfPageDown => a.selected + half,
                Motion::HalfPageUp => a.selected - half,
                Motion::Top => 0,
                Motion::Bottom => last,
            };
            &&& b.selected == (if to < 0 { 0 } else if to > last { last } else { to })
            &&& b.entries == a.entries
            &&& b.breadcrumb == a.breadcrumb
            &&& b.current_folder_id == a.current_folder_id
            &&& b.cart == a.cart
            &&& b.input == a.input
            &&& a.asks_nothing(b)
            &&& a.is_silent(b)
        }),
{
    reveal(AppView::acted);
}

/// Wherever the cursor moves to, the preview is that of the entry it is on then.
pub proof fn law_preview_follows_the_cursor(a: AppView, motion: Motion)
    requires
        a.config.show_preview,
        a.selected < a.entries.len() <= usize::MAX,
        motion == Motion::Up ==> a.selected > 0,
    ensures
        ({
            let b = a.acted(NormalAction::Go(motion));
            let e = a.entries[b.selected as int];
            &&& b.preview_target_id == Some(e.id@)
            &&& e.kind == EntryKind::File ==> b.preview_state is FileBasicInfo
            &&& e.kind == EntryKind::Folder ==> b.preview_state is Empty
            &&& b.preview_request is None
            &&& b.preview_scroll == 0
            &&& a.config.lazy_preview ==> b.pending_preview_fetch
            &&& b.clock.last_cursor_move == a.clock.now
        }),
{
    reveal(AppView::acted);
}

/// In an empty folder the cursor stays where it is.
pub proof fn law_cursor_stays_in_an_empty_folder(a: AppView, motion: Motion)
    requires
        a.entries.len() == 0,
        a.selected == 0,
    ensures
        a.acted(NormalAction::Go(motion)) == a,
{
    reveal(AppView::acted);
}

/// `r` asks for the folder that is shown, for the one above it and for the quota, once each.
pub proof fn law_refresh_asks_for_the_shown_folder(a: AppView)
    ensures
        ({
            let b = a.acted(NormalAction::Refresh);
            let n = a.effects.len() as int;
            &&& b.loading
            &&& b.entries == a.entries
            &&& b.selected == a.selected
            &&& b.current_folder_id == a.current_folder_id
            &&& b.breadcrumb == a.breadcrumb
            &&& b.main_listing_request_id != a.main_listing_request_id
            &&& b.effects.len() == n + (if a.breadcrumb.len() > 0 { 3int } else { 2 })
            &&& b.effects.take(n) == a.effects
            &&& b.effects[n] == (EffectView::ListFolder {
                request_id: b.main_listing_request_id,
                folder_id: a.current_folder_id,
            })
            &&& a.breadcrumb.len() > 0 ==> b.parent_listing_request is Some
                && b.parent_listing_request->0.target == a.breadcrumb.last().0
                && b.effects[n + 1] == (EffectView::ListParent {
                request: b.parent_listing_request->0,
            })
            &&& b.effects.last() == EffectView::FetchQuota
        }),
{
    reveal(AppView::acted);
    let b = a.acted(NormalAction::Refresh);
    assert(b.effects.take(a.effects.len() as int) =~= a.effects);
}

/// `p` with the preview pane shown fetches the preview of the entry under the cursor: a folder's
/// listing, else the thumbnail where there is one, else the text where it is one, else the facts.
pub proof fn law_preview_is_of_the_entry_under_the_cursor(a: AppView, e: Entry)
    requires
        a.config.show_preview,
        a.selected < a.entries.len(),
        a.entries[a.selected as int] == e,
    ensures
        ({
            let b = a.acted(NormalAction::Preview);
            let link = opt_text(e.thumbnail_link);
            let q = b.preview_request->0;
            &&& b.preview_request is Some
            &&& q.target == e.id@
            &&& b.preview_target_id == Some(e.id@)
            &&& b.preview_state is Loading
            &&& b.entries == a.entries
            &&& b.selected == a.selected
            &&& e.kind == EntryKind::Folder ==> a.asks(b, EffectView::ListPreview { request: q })
            &&& e.kind == EntryKind::File && link is Some && link->0.len() > 0 ==> a.asks(
                b,
                EffectView::FetchThumbnail { request: q, url: link->0, for_info: false },
            )
            &&& e.kind == EntryKind::File && !(link is Some && link->0.len() > 0) ==> {
                if e.text_previewable {
                    a.asks(
                        b,
                        EffectView::FetchText { request: q, max_bytes: a.config.preview_max_size },
                    )
                } else {
                    a.asks(b, EffectView::FetchPreviewInfo { request: q })
                }
            }
        }),
{
    reveal(AppView::acted);
}

/// `p` without the preview pane opens the text of a file that can be shown as text, and does
/// nothing on any other entry.
pub proof fn law_text_is_opened_without_the_pane(a: AppView, e: Entry)
    requires
        !a.config.show_preview,
        a.selected < a.entries.len(),
        a.entries[a.selected as int] == e,
    ensures
        ({
            let b = a.acted(NormalAction::Preview);
            let text = e.kind == EntryKind::File && e.text_previewable;
            &&& a.keeps_files(b)
            &&& text ==> {
                &&& b.input is InfoLoading
                &&& b.loading
                &&& b.modal_request is Some
                &&& b.modal_request->0.target == e.id@
                &&& b.modal_request->0.kind == AsyncRequestKind::FilePreview
                &&& a.asks(
                    b,
                    EffectView::FetchText {
                        request: b.modal_request->0,
                        max_bytes: a.config.preview_max_size,
                    },
                )
            }
            &&& !text ==> a.asks_nothing(b) && b.input == a.input
        }),
{
    reveal(AppView::acted);
}

/// The space key asks for the facts about the file under the cursor, or for what is in the folder
/// under it.
pub proof fn law_info_is_of_the_entry_under_the_cursor(a: AppView, e: Entry)
    requires
        a.selected < a.entries.len(),
        a.entries[a.selected as int] == e,
    ensures
        ({
            let b = a.acted(NormalAction::Info);
            let q = b.modal_request->0;
            &&& b.input is InfoLoading
            &&& b.loading
            &&& b.modal_request is Some
            &&& q.target == e.id@
            &&& b.entries == a.entries
            &&& b.current_folder_id == a.current_folder_id
            &&& e.kind == EntryKind::File ==> q.kind == AsyncRequestKind::Info && a.asks(
                b,
                EffectView::FetchInfo { request: q, thumb_fallback: opt_text(e.thumbnail_link) },
            )
            &&& e.kind == EntryKind::Folder ==> q.kind == AsyncRequestKind::FolderPreview
                && b.preview_target_name == Some(e.name@) && b.preview_target_id == Some(e.id@)
                && a.asks(b, EffectView::ListPreview { request: q })
        }),
{
    reveal(AppView::acted);
}

/// `s` asks to turn the star of the entry under the cursor.
pub proof fn law_star_is_of_the_entry_under_the_cursor(a: AppView, e: Entry)
    requires
        a.selected < a.entries.len(),
        a.entries[a.selected as int] == e,
    ensures
        ({
            let b = a.acted(NormalAction::Star);
            &&& a.keeps_files(b)
            &&& b.loading
            &&& b.input == a.input
            &&& a.asks(
                b,
                EffectView::Remote(
                    RemoteOpView::Star { id: e.id@, name: e.name@, starred: e.starred },
                ),
            )
        }),
{
    reveal(AppView::acted);
}

/// `y` asks for the link of the file under the cursor, and for none on a folder.
pub proof fn law_link_is_of_the_file_under_the_cursor(a: AppView, e: Entry)
    requires
        a.selected < a.entries.len(),
        a.entries[a.selected as int] == e,
    ensures
        ({
            let b = a.acted(NormalAction::CopyLink);
            &&& a.keeps_files(b)
            &&& b.input == a.input
            &&& e.kind == EntryKind::File ==> a.asks(
                b,
                EffectView::Remote(RemoteOpView::CopyLink { id: e.id@, name: e.name@ }),
            )
            &&& e.kind == EntryKind::Folder ==> a.asks_nothing(b)
        }),
{
    reveal(AppView::acted);
}

/// `a` puts the entry under the cursor at the end of the cart where the cart has none of its id,
/// and else takes every entry of its id, and no other, out of the cart.
pub proof fn law_cart_takes_the_entry_under_the_cursor(
    a: AppView,
    e: Entry,
    i: int,
)
    requires
        a.selected < a.entries.len(),
        a.entries[a.selected as int] == e,
        0 <= i < a.cart.len(),
    ensures
        ({
            let b = a.acted(NormalAction::ToggleCart);
            let held = exists|j: int| 0 <= j < a.cart.len() && (#[trigger] a.cart[j]).id@ == e.id@;
            &&& a.asks_nothing(b)
            &&& b.entries == a.entries
            &&& b.selected == a.selected
            &&& b.input == a.input
            &&& !held ==> b.cart == a.cart.push(e) && a.tells(
                b,
                "Added '"@ + e.name@ + "' to cart"@,
            )
            &&& held ==> {
                &&& a.tells(b, "Removed '"@ + e.name@ + "' from cart"@)
                &&& b.cart.contains(a.cart[i]) == (a.cart[i].id@ != e.id@)
                &&& forall|j: int|
                    0 <= j < b.cart.len() ==> (#[trigger] b.cart[j]).id@ != e.id@
                        && a.cart.contains(b.cart[j])
            }
        }),
{
    reveal(AppView::acted);
    lemma_entry_is_found(a.cart, e.id@);
    lemma_entries_without(a.cart, e.id@);
    let b = a.acted(NormalAction::ToggleCart);
    if find_entry(a.cart, e.id@) is Some {
        assert(b.cart == crate::navigate::without_id(a.cart, e.id@));
        assert(a.cart.contains(a.cart[i]));
    }
}

proof fn lemma_entry_is_found(v: Seq<Entry>, id: Chars)
    ensures
        find_entry(v, id) is Some <==> exists|j: int|
            0 <= j < v.len() && (#[trigger] v[j]).id@ == id,
    decreases v.len(),
{
    if v.len() > 0 {
        let front = v.drop_last();
        lemma_entry_is_found(front, id);
        if v.last().id@ == id {
            assert(v[v.len() - 1].id@ == id);
        }
        if exists|j: int| 0 <= j < front.len() && (#[trigger] front[j]).id@ == id {
            let j = choose|j: int| 0 <= j < front.len() && (#[trigger] front[j]).id@ == id;
            assert(v[j].id@ == id);
        }
        if exists|j: int| 0 <= j < v.len() && (#[trigger] v[j]).id@ == id {
            let j = choose|j: int| 0 <= j < v.len() && (#[trigger] v[j]).id@ == id;
            if j < front.len() {
                assert(front[j].id@ == id);
            }
        }
    }
}

proof fn lemma_entries_without(v: Seq<Entry>, id: Chars)
    ensures
        forall|e: Entry|
            #[trigger] crate::navigate::without_id(v, id).contains(e) <==> v.contains(e) && e.id@
                != id,
        forall|j: int|
            0 <= j < crate::navigate::without_id(v, id).len() ==> (
            #[trigger] crate::navigate::without_id(v, id)[j]).id@ != id && v.contains(
                crate::navigate::without_id(v, id)[j],
            ),
    decreases v.len(),
{
    let w = crate::navigate::without_id(v, id);
    if v.len() > 0 {
        let front = v.drop_last();
        let u = crate::navigate::without_id(front, id);
        lemma_entries_without(front, id);
        assert forall|e: Entry| #[trigger] w.contains(e) <==> v.contains(e) && e.id@ != id by {
            if v.contains(e) && e.id@ != id {
                let k = choose|k: int| 0 <= k < v.len() && v[k] == e;
                if k < front.len() {
                    assert(front[k] == e);
                    assert(u.contains(e));
                    let l = choose|l: int| 0 <= l < u.len() && u[l] == e;
                    assert(w[l] == e);
                } else {
                    assert(w[w.len() - 1] == e);
                }
            }
            if w.contains(e) {
                let k = choose|k: int| 0 <= k < w.len() && w[k] == e;
                if k < u.len() && w.len() >= u.len() && u[k] == e {
                    assert(u.contains(e));
                    assert(front.contains(e));
                    let l = choose|l: int| 0 <= l < front.len() && front[l] == e;
                    assert(v[l] == e);
                } else {
                    assert(v[v.len() - 1] == e);
                }
            }
        }
        assert forall|j: int| 0 <= j < w.len() implies (#[trigger] w[j]).id@ != id && v.contains(
            w[j],
        ) by {
            assert(w.contains(w[j]));
        }
    } else {
        assert(w =~= v);
    }
}

/// `S` goes on to the next order, `R` turns the order round. Either sorts the listing, keeps the
/// choice and says so.
pub proof fn law_order_is_changed_and_kept(a: AppView)
    ensures
        ({
            let b = a.acted(NormalAction::NextSort);
            let c = a.acted(NormalAction::ReverseSort);
            &&& b.config.sort_field == a.options.sort_field.after(a.config.sort_field)
            &&& b.config.sort_reverse == a.config.sort_reverse
            &&& c.config.sort_reverse == !a.config.sort_reverse
            &&& c.config.sort_field == a.config.sort_field
            &&& b.effects == a.effects.push(EffectView::SortEntries).push(
                EffectView::SaveConfig { config: b.config, purpose: SavePurpose::Silent },
            )
            &&& c.effects == a.effects.push(EffectView::SortEntries).push(
                EffectView::SaveConfig { config: c.config, purpose: SavePurpose::Silent },
            )
            &&& b.config.player == a.config.player && c.config.player == a.config.player
            &&& b.config.show_preview == a.config.show_preview
            &&& b.entries == a.entries && c.entries == a.entries
            &&& a.selected < a.entries.len() ==> b.selected == a.selected && c.selected
                == a.selected
        }),
{
    reveal(AppView::acted);
}

/// Turning the order round changes one setting, and turning it round twice changes none.
pub proof fn law_order_turned_twice_is_the_same(a: AppView)
    ensures
        a.acted(NormalAction::ReverseSort).acted(NormalAction::ReverseSort).config == a.config,
{
    reveal(AppView::acted);
    lemma_order_turned(a);
    lemma_order_turned(a.acted(NormalAction::ReverseSort));
}

proof fn lemma_order_turned(a: AppView)
    ensures
        a.acted(NormalAction::ReverseSort).config == (crate::model::ConfigView {
            sort_reverse: !a.config.sort_reverse,
            ..a.config
        }),
{
    reveal(AppView::acted);
}

/// What opens a dialog opens that dialog, empty, and changes nothing else.
pub proof fn law_dialogs_open_empty(a: AppView)
    ensures
        a.acted(NormalAction::Mkdir) == (AppView {
            input: ModeView::Mkdir { value: Seq::empty() },
            ..a
        }),
        a.acted(NormalAction::GotoPath) == (AppView {
            input: ModeView::GotoPath { query: Seq::empty() },
            ..a
        }),
        a.acted(NormalAction::OfflineInput) == (AppView {
            input: ModeView::OfflineInput { value: Seq::empty() },
            ..a
        }),
        a.acted(NormalAction::SaveShare) == (AppView {
            input: ModeView::SaveShareInput { value: Seq::empty() },
            ..a
        }),
        a.acted(NormalAction::ActionMenu) == (AppView {
            input: ModeView::ActionMenu { selected: 0 },
            ..a
        }),
{
    reveal(AppView::acted);
}

/// The pages open as they were left, and the settings with what is in force.
pub proof fn law_pages_open(a: AppView)
    ensures
        a.acted(NormalAction::Cart) == (AppView { input: ModeView::CartView, ..a }),
        a.acted(NormalAction::Downloads) == (AppView { input: ModeView::DownloadView, ..a }),
        a.acted(NormalAction::Settings) == (AppView {
            input: ModeView::Settings {
                selected: 0,
                editing: false,
                draft: a.config,
                modified: false,
            },
            ..a
        }),
        a.acted(NormalAction::Nothing) == a,
{
    reveal(AppView::acted);
}

/// An entry is renamed or deleted only behind a dialog, and where the cursor is on one.
pub proof fn law_entry_is_changed_behind_a_dialog(a: AppView)
    ensures
        a.acted(NormalAction::Rename) == (AppView {
            input: if a.selected < a.entries.len() {
                ModeView::Rename { value: Seq::empty() }
            } else {
                a.input
            },
            ..a
        }),
        a.acted(NormalAction::Delete) == (AppView {
            input: if a.selected < a.entries.len() {
                ModeView::ConfirmDelete
            } else {
                a.input
            },
            ..a
        }),
{
    reveal(AppView::acted);
}

/// Where the cursor is on no entry, what needs one does nothing.
pub proof fn law_nothing_is_done_without_an_entry(a: AppView)
    requires
        a.selected >= a.entries.len(),
    ensures
        a.acted(NormalAction::Open) == a,
        a.acted(NormalAction::MoveEntry) == a,
        a.acted(NormalAction::CopyEntry) == a,
        a.acted(NormalAction::ToggleCart) == a,
        a.acted(NormalAction::Star) == a,
        a.acted(NormalAction::CopyLink) == a,
        a.acted(NormalAction::PickStream) == a,
        a.acted(NormalAction::Preview) == a,
        a.acted(NormalAction::Info) == a,
{
    reveal(AppView::acted);
}

/// `u` asks for the path of what is to be uploaded.
pub proof fn law_upload_begins_with_a_path(a: AppView)
    ensures
        ({
            let b = a.acted(NormalAction::Upload);
            a.keeps_files(b) && a.asks(b, EffectView::OpenLocalInput { for_upload: true })
        }),
{
    reveal(AppView::acted);
}

/// `t`, `M` and `O` ask for the trash, the shares and the offline tasks.
pub proof fn law_remote_pages_are_asked_for(a: AppView)
    ensures
        ({
            let trash = a.acted(NormalAction::Trash);
            let shares = a.acted(NormalAction::Shares);
            let tasks = a.acted(NormalAction::OfflineTasks);
            &&& trash.loading && a.asks(trash, EffectView::ListTrash)
            &&& trash.input == (ModeView::TrashView {
                entries: Seq::empty(),
                selected: 0,
                expanded: false,
            })
            &&& shares.loading && shares.shares_pending && a.asks(shares, EffectView::ListShares)
            &&& shares.input == a.input
            &&& tasks.loading && tasks.input is InfoLoading && tasks.modal_request is Some
            &&& tasks.modal_request->0.kind == AsyncRequestKind::OfflineTasks
            &&& a.asks(
                tasks,
                EffectView::ListOfflineTasks { request: tasks.modal_request->0 },
            )
            &&& trash.cart == a.cart && shares.cart == a.cart && tasks.cart == a.cart
            &&& trash.entries == a.entries && shares.entries == a.entries && tasks.entries
                == a.entries
        }),
{
    reveal(AppView::acted);
}

/// Escape gives up waiting for the shares, and only that.
pub proof fn law_escape_gives_up_the_shares(a: AppView)
    ensures
        ({
            let b = a.acted(NormalAction::Cancel);
            &&& !b.shares_pending
            &&& a.shares_pending ==> !b.loading
            &&& a.asks_nothing(b) && a.is_silent(b)
            &&& b.input == a.input
            &&& b.entries == a.entries && b.cart == a.cart && b.selected == a.selected
        }),
{
    reveal(AppView::acted);
}

/// `h` opens the help at its top, and `l` shows or hides the logs.
pub proof fn law_help_and_logs_are_toggled(a: AppView)
    ensures
        ({
            let help = a.acted(NormalAction::Help);
            let logs = a.acted(NormalAction::ToggleLogs);
            &&& help.show_help_sheet && help.help_scroll == 0 && a.asks_nothing(help)
            &&& logs.show_logs_overlay == !a.show_logs_overlay && logs.logs_scroll is None
            &&& logs.input == a.input && a.asks_nothing(logs)
        }),
{
    reveal(AppView::acted);
}

/// `m` and `c` ask where the entry under the cursor is to go, starting in the folder that is
/// shown: `m` for a move, `c` for a copy.
pub proof fn law_transfer_begins_with_the_entry_under_the_cursor(
    a: AppView,
    e: Entry,
)
    requires
        a.selected < a.entries.len(),
        a.entries[a.selected as int] == e,
    ensures
        ({
            let to_move = a.acted(NormalAction::MoveEntry);
            let to_copy = a.acted(NormalAction::CopyEntry);
            &&& a.keeps_files(to_move)
            &&& a.keeps_files(to_copy)
            &&& if a.config.use_picker {
                &&& to_move.input matches ModeView::MovePicker { source, picker } && source == e
                    && picker.folder_id == a.current_folder_id && picker.breadcrumb
                    == a.breadcrumb && picker.loading && picker.selected == 0 && a.asks(
                    to_move,
                    EffectView::ListPicker {
                        request_id: picker.listing_request_id,
                        folder_id: a.current_folder_id,
                    },
                )
                &&& to_copy.input matches ModeView::CopyPicker { source, picker } && source == e
                    && picker.folder_id == a.current_folder_id && picker.breadcrumb
                    == a.breadcrumb && picker.loading && picker.selected == 0 && a.asks(
                    to_copy,
                    EffectView::ListPicker {
                        request_id: picker.listing_request_id,
                        folder_id: a.current_folder_id,
                    },
                )
            } else {
                &&& to_move.input matches ModeView::MoveInput { source, input } && source == e
                    && input.value.len() == 0 && a.asks_nothing(to_move)
                &&& to_copy.input matches ModeView::CopyInput { source, input } && source == e
                    && input.value.len() == 0 && a.asks_nothing(to_copy)
            }
        }),
{
    reveal(AppView::acted);
}

/// In the main pane a key does what it is bound to, once what another key was waiting for is
/// given up.
pub proof fn law_main_pane_takes_its_keys(a: AppView, code: KeyCode, m: KeyModifiers)
    requires
        a.browses(),
        !(code == KeyCode::Char('c') && m.control),
    ensures
        a.key_handled(code, m) == (AppView {
            input: ModeView::Normal,
            text_cursor: usize::MAX,
            ..a.modal_invalidated()
        }).acted(binding(code, m)),
        a.modal_invalidated().modal_request is None,
        a.keeps_files(a.modal_invalidated()),
{
    reveal(AppView::key_handled);
    reveal(AppView::mode_key);
}

/// What the keys of the main pane are for.
pub proof fn law_keys_of_the_main_pane(m: KeyModifiers)
    ensures
        binding(KeyCode::Enter, m) == NormalAction::Open,
        binding(KeyCode::Backspace, m) == NormalAction::Leave,
        binding(KeyCode::Esc, m) == NormalAction::Cancel,
        binding(KeyCode::Down, m) == NormalAction::Go(Motion::Down),
        binding(KeyCode::Up, m) == NormalAction::Go(Motion::Up),
        binding(KeyCode::PageDown, m) == NormalAction::Go(Motion::PageDown),
        binding(KeyCode::PageUp, m) == NormalAction::Go(Motion::PageUp),
        binding(KeyCode::Home, m) == NormalAction::Go(Motion::Top),
        binding(KeyCode::End, m) == NormalAction::Go(Motion::Bottom),
        binding(KeyCode::Char('j'), m) == NormalAction::Go(Motion::Down),
        binding(KeyCode::Char('k'), m) == NormalAction::Go(Motion::Up),
        !m.control ==> binding(KeyCode::Char('g'), m) == NormalAction::Go(Motion::Top),
        binding(KeyCode::Char('G'), m) == NormalAction::Go(Motion::Bottom),
        m.control ==> binding(KeyCode::Char('d'), m) == NormalAction::Go(Motion::HalfPageDown),
        m.control ==> binding(KeyCode::Char('u'), m) == NormalAction::Go(Motion::HalfPageUp),
        !m.control ==> binding(KeyCode::Char('d'), m) == NormalAction::Delete,
        !m.control ==> binding(KeyCode::Char('u'), m) == NormalAction::Upload,
        binding(KeyCode::Char('q'), m) == NormalAction::Quit,
        binding(KeyCode::Char('l'), m) == NormalAction::ToggleLogs,
        binding(KeyCode::Char('r'), m) == NormalAction::Refresh,
        binding(KeyCode::Char('m'), m) == NormalAction::MoveEntry,
        binding(KeyCode::Char('c'), m) == NormalAction::CopyEntry,
        binding(KeyCode::Char('n'), m) == NormalAction::Rename,
        binding(KeyCode::Char('f'), m) == NormalAction::Mkdir,
        binding(KeyCode::Char('h'), m) == NormalAction::Help,
        binding(KeyCode::Char('a'), m) == NormalAction::ToggleCart,
        binding(KeyCode::Char('A'), m) == NormalAction::Cart,
        binding(KeyCode::Char('D'), m) == NormalAction::Downloads,
        binding(KeyCode::Char('M'), m) == NormalAction::Shares,
        binding(KeyCode::Char('s'), m) == NormalAction::Star,
        binding(KeyCode::Char('y'), m) == NormalAction::CopyLink,
        binding(KeyCode::Char('o'), m) == NormalAction::OfflineInput,
        binding(KeyCode::Char('b'), m) == NormalAction::SaveShare,
        binding(KeyCode::Char('O'), m) == NormalAction::OfflineTasks,
        binding(KeyCode::Char('t'), m) == NormalAction::Trash,
        binding(KeyCode::Char('S'), m) == NormalAction::NextSort,
        binding(KeyCode::Char('R'), m) == NormalAction::ReverseSort,
        binding(KeyCode::Char('w'), m) == NormalAction::PickStream,
        binding(KeyCode::Char('p'), m) == NormalAction::Preview,
        binding(KeyCode::Char(','), m) == NormalAction::Settings,
        binding(KeyCode::Char('?'), m) == NormalAction::ActionMenu,
        binding(KeyCode::Char(' '), m) == NormalAction::Info,
        binding(KeyCode::Char(':'), m) == NormalAction::GotoPath,
{
}

/// The program is left by `q` and by `Ctrl+C` where no download runs, and else only once the
/// question about it is answered with `y`.
pub proof fn law_when_the_program_is_left(a: AppView, code: KeyCode, m: KeyModifiers)
    requires
        !a.show_help_sheet,
    ensures
        code == KeyCode::Char('c') && m.control ==> a.key_quits(code, m) == !a.downloads_active,
        a.input is Normal && code == KeyCode::Char('q') ==> a.key_quits(code, m)
            == !a.downloads_active,
        a.input is Normal && code == KeyCode::Char('q') && a.downloads_active ==> a.key_handled(
            code,
            m,
        ).input is ConfirmQuit,
        a.input is ConfirmQuit && code == KeyCode::Char('y') ==> a.key_quits(code, m),
        a.input is ConfirmQuit && (code == KeyCode::Char('n') || code == KeyCode::Esc)
            ==> !a.key_quits(code, m) && a.key_handled(code, m).input is Normal,
{
    reveal(AppView::key_handled);
    reveal(AppView::mode_key);
    reveal(AppView::acted);
}

} // verus!
