//! What holds of moving, copying and of the cart.

use crate::app::AppView;
use crate::effect::{EffectView, RemoteOpView};
use crate::event::{KeyCode, KeyModifiers};
use crate::model::{Entry, EntryKind, ModeView, PathInputView, PickerView};
use crate::text::{decimal, trimmed, Chars};
use crate::transfer::{cart_binding, folders, CartAction};
use vstd::prelude::*;

verus! {

/// A destination that is picked for one entry, whatever its kind, asks the drive for one transfer
/// of that entry into the open folder: for a move where it was a move, for a copy where it was a
/// copy. Nothing else is asked for, and nothing is taken out of the cart.
pub proof fn law_picked_destination_is_used(a: AppView, e: Entry, p: PickerView, is_move: bool)
    ensures
        ({
            let b = a.picker_key(Some(e), p, is_move, KeyCode::Char(' '));
            &&& b.loading
            &&& b.input == a.input
            &&& a.keeps_files(b)
            &&& a.is_silent(b)
            &&& b.effects.len() == a.effects.len() + 1
            &&& b.effects.drop_last() == a.effects
            &&& b.effects.last() matches EffectView::Remote(
                RemoteOpView::MoveCopy { source_id, source_name, dest_id, is_move: moves, .. },
            ) && source_id == e.id@ && source_name == e.name@ && dest_id == p.folder_id && moves
                == is_move
        }),
{
    reveal(AppView::picker_key);
    let b = a.picker_key(Some(e), p, is_move, KeyCode::Char(' '));
    assert(b.effects.drop_last() =~= a.effects);
}

/// A typed destination asks for the folder of that path, for the same entry and the same kind of
/// transfer.
pub proof fn law_typed_destination_is_looked_up(
    a: AppView,
    source: Option<Entry>,
    input: PathInputView,
    is_move: bool,
    m: KeyModifiers,
)
    requires
        input.candidates.len() == 0,
        trimmed(input.value).len() > 0,
    ensures
        ({
            let b = a.path_input_key(source, input, is_move, KeyCode::Enter, m);
            &&& a.keeps_files(b)
            &&& a.is_silent(b)
            &&& b.input == a.input
            &&& a.asks(
                b,
                EffectView::ResolvePath { target: trimmed(input.value), source, is_move },
            )
        }),
{
    reveal(AppView::path_input_key);
}

/// Once the folder of a typed path is known, the entry goes into that folder, and not before.
pub proof fn law_resolved_destination_is_used(
    a: AppView,
    target: Chars,
    e: Entry,
    is_move: bool,
    id: String,
    error: String,
)
    ensures
        ({
            let b = a.path_found(target, Some(e), is_move, Ok(id));
            &&& b.loading
            &&& a.keeps_files(b)
            &&& a.asks(
                b,
                EffectView::Remote(
                    RemoteOpView::MoveCopy {
                        source_id: e.id@,
                        source_name: e.name@,
                        dest_id: id@,
                        dest_path: target,
                        is_move,
                    },
                ),
            )
        }),
        ({
            let b = a.path_found(target, Some(e), is_move, Err(error));
            &&& a.keeps_files(b)
            &&& a.asks_nothing(b)
            &&& b.input == a.input
            &&& b.loading == a.loading
            &&& a.tells(b, "Invalid path: "@ + error@)
        }),
{
}

/// The whole cart, and no other entry, goes into the folder that was picked or typed for it, by
/// one transfer of the kind that was asked for, and the cart is empty then.
pub proof fn law_cart_is_transferred_as_a_whole(
    a: AppView,
    p: PickerView,
    is_move: bool,
    target: Chars,
    id: String,
    i: int,
)
    requires
        0 <= i < a.cart.len(),
    ensures
        ({
            let b = a.picker_key(None, p, is_move, KeyCode::Char(' '));
            &&& b.cart.len() == 0
            &&& b.cart_selected == 0
            &&& b.loading
            &&& b.entries == a.entries
            &&& b.effects.len() == a.effects.len() + 1
            &&& b.effects.drop_last() == a.effects
            &&& b.effects.last() matches EffectView::Remote(
                RemoteOpView::CartMoveCopy { ids, dest_id, is_move: moves, .. },
            ) && ids.len() == a.cart.len() && ids[i] == a.cart[i].id@ && dest_id == p.folder_id
                && moves == is_move
        }),
        ({
            let b = a.path_found(target, None, is_move, Ok(id));
            &&& b.cart.len() == 0
            &&& b.cart_selected == 0
            &&& b.loading
            &&& b.effects.len() == a.effects.len() + 1
            &&& b.effects.drop_last() == a.effects
            &&& b.effects.last() matches EffectView::Remote(
                RemoteOpView::CartMoveCopy { ids, dest_id, dest_path, is_move: moves },
            ) && ids.len() == a.cart.len() && ids[i] == a.cart[i].id@ && dest_id == id@
                && dest_path == target && moves == is_move
        }),
{
    reveal(AppView::picker_key);
    lemma_cart_transferred(a, p.folder_id, crate::app::path_text(p.breadcrumb), is_move, i);
    lemma_cart_transferred(a, id@, target, is_move, i);
}

proof fn lemma_cart_transferred(
    a: AppView,
    to: Chars,
    path: Chars,
    is_move: bool,
    i: int,
)
    requires
        0 <= i < a.cart.len(),
    ensures
        ({
            let b = a.transferred(None, to, path, is_move);
            &&& b.cart.len() == 0
            &&& b.cart_selected == 0
            &&& b.loading
            &&& b.entries == a.entries
            &&& b.effects.len() == a.effects.len() + 1
            &&& b.effects.drop_last() == a.effects
            &&& b.effects.last() matches EffectView::Remote(
                RemoteOpView::CartMoveCopy { ids, dest_id, dest_path, is_move: moves },
            ) && ids.len() == a.cart.len() && ids[i] == a.cart[i].id@ && dest_id == to && dest_path
                == path && moves == is_move
        }),
{
    let op = RemoteOpView::CartMoveCopy {
        ids: crate::transfer::ids_of(a.cart),
        dest_id: to,
        dest_path: path,
        is_move,
    };
    let c = a.remote_asked(op).cart_emptied();
    lemma_names_only_tell(c, a.cart);
    assert(a.effects.push(EffectView::Remote(op)).drop_last() =~= a.effects);
}

/// Telling the names of entries changes nothing but the messages.
proof fn lemma_names_only_tell(a: AppView, items: Seq<Entry>)
    ensures
        a.logged_names(items) == (AppView {
            logs: a.logged_names(items).logs,
            status_message: a.logged_names(items).status_message,
            ..a
        }),
    decreases items.len(),
{
    if items.len() > 0 {
        lemma_names_only_tell(a, items.drop_last());
    }
}

/// A path that is not found leaves the cart as it was, and open.
pub proof fn law_cart_is_kept_where_the_path_is_wrong(
    a: AppView,
    target: Chars,
    is_move: bool,
    error: String,
)
    ensures
        ({
            let b = a.path_found(target, None, is_move, Err(error));
            &&& b.cart == a.cart
            &&& b.cart_selected == a.cart_selected
            &&& a.asks_nothing(b)
            &&& b.input is CartView
            &&& a.tells(b, "Invalid path: "@ + error@)
        }),
{
}

/// Opening a folder of the picker and going back leads to the folder and the path that it was
/// opened from, and each step asks for the listing of the folder that it leads to.
pub proof fn law_picker_goes_back_where_it_came_from(
    a: AppView,
    source: Option<Entry>,
    p: PickerView,
    crumbs: Seq<(Chars, Chars)>,
    id: Chars,
    name: Chars,
)
    requires
        p.breadcrumb == crumbs.push((id, name)),
    ensures
        ({
            let b = a.picker_key(source, p, true, KeyCode::Backspace);
            let q = match source {
                Some(_) => b.input->MovePicker_picker,
                None => b.input->CartMovePicker_picker,
            };
            &&& source is Some ==> b.input is MovePicker && b.input->MovePicker_source == source->0
            &&& source is None ==> b.input is CartMovePicker
            &&& q.folder_id == id
            &&& q.breadcrumb == crumbs
            &&& q.loading
            &&& q.entries.len() == 0
            &&& q.selected == 0
            &&& a.keeps_files(b)
            &&& a.asks(
                b,
                EffectView::ListPicker { request_id: q.listing_request_id, folder_id: id },
            )
        }),
        ({
            let b = a.picker_key(source, p, false, KeyCode::Backspace);
            let q = match source {
                Some(_) => b.input->CopyPicker_picker,
                None => b.input->CartCopyPicker_picker,
            };
            &&& source is Some ==> b.input is CopyPicker && b.input->CopyPicker_source == source->0
            &&& source is None ==> b.input is CartCopyPicker
            &&& q.folder_id == id
            &&& q.breadcrumb == crumbs
            &&& a.keeps_files(b)
            &&& a.asks(
                b,
                EffectView::ListPicker { request_id: q.listing_request_id, folder_id: id },
            )
        }),
{
    reveal(AppView::picker_key);
    assert(crumbs.push((id, name)).drop_last() =~= crumbs);
}

/// Only folders can be opened in the picker: the one that is opened is the one under the cursor
/// among the folders, in the order of the listing.
pub proof fn law_picker_opens_the_folder_under_the_cursor(
    a: AppView,
    e: Entry,
    p: PickerView,
    is_move: bool,
)
    requires
        p.selected < folders(p.entries).len(),
    ensures
        ({
            let b = a.picker_key(Some(e), p, is_move, KeyCode::Enter);
            let f = folders(p.entries)[p.selected as int];
            let q = if is_move {
                b.input->MovePicker_picker
            } else {
                b.input->CopyPicker_picker
            };
            &&& f.kind == EntryKind::Folder
            &&& p.entries.contains(f)
            &&& is_move ==> b.input is MovePicker && b.input->MovePicker_source == e
            &&& !is_move ==> b.input is CopyPicker && b.input->CopyPicker_source == e
            &&& q.folder_id == f.id@
            &&& q.breadcrumb == p.breadcrumb.push((p.folder_id, f.name@))
            &&& q.loading
            &&& q.entries.len() == 0
            &&& q.selected == 0
            &&& q.listing_request_id != a.async_request_generation
            &&& a.keeps_files(b)
            &&& a.asks(
                b,
                EffectView::ListPicker { request_id: q.listing_request_id, folder_id: f.id@ },
            )
        }),
{
    reveal(AppView::picker_key);
    lemma_folders(p.entries);
    let f = folders(p.entries)[p.selected as int];
    assert(folders(p.entries).contains(f));
}

/// The folders of a listing are its entries that are folders, all of them.
proof fn lemma_folders(v: Seq<Entry>)
    ensures
        forall|e: Entry| #[trigger]
            folders(v).contains(e) <==> v.contains(e) && e.kind == EntryKind::Folder,
    decreases v.len(),
{
    let w = folders(v);
    if v.len() > 0 {
        let front = v.drop_last();
        let u = folders(front);
        lemma_folders(front);
        assert forall|e: Entry| #[trigger] w.contains(e) <==> v.contains(e) && e.kind
            == EntryKind::Folder by {
            if v.contains(e) && e.kind == EntryKind::Folder {
                let k = choose|k: int| 0 <= k < v.len() && v[k] == e;
                if k < front.len() {
                    assert(front[k] == e);
                    assert(u.contains(e));
                    let l = choose|l: int| 0 <= l < u.len() && u[l] == e;
                    assert(w[l] == e);
                } else {
                    assert(w[w.len() - 1] == e);
                }
            }
            if w.contains(e) {
                let k = choose|k: int| 0 <= k < w.len() && w[k] == e;
                if k < u.len() && u[k] == e {
                    assert(u.contains(e));
                    let l = choose|l: int| 0 <= l < front.len() && front[l] == e;
                    assert(v[l] == e);
                } else {
                    assert(v[v.len() - 1] == e);
                }
            }
        }
    }
}

/// Every folder of a listing, and nothing else, can be picked.
pub proof fn law_picker_shows_the_folders(v: Seq<Entry>, e: Entry)
    ensures
        folders(v).contains(e) <==> v.contains(e) && e.kind == EntryKind::Folder,
{
    lemma_folders(v);
}

/// Giving up a transfer asks for nothing, says so, and leads back to the cart where it was one of
/// the cart.
pub proof fn law_transfer_is_given_up(
    a: AppView,
    e: Entry,
    p: PickerView,
    is_move: bool,
    input: PathInputView,
    m: KeyModifiers,
)
    requires
        input.candidates.len() == 0,
    ensures
        ({
            let one = a.picker_key(Some(e), p, is_move, KeyCode::Esc);
            let cart = a.picker_key(None, p, is_move, KeyCode::Esc);
            let typed = a.path_input_key(Some(e), input, is_move, KeyCode::Esc, m);
            let said = if is_move {
                "Move"@ + " cancelled"@
            } else {
                "Copy"@ + " cancelled"@
            };
            &&& a.keeps_files(one) && a.asks_nothing(one) && one.input == a.input && a.tells(
                one,
                said,
            )
            &&& a.keeps_files(cart) && a.asks_nothing(cart) && cart.input is CartView && a.tells(
                cart,
                said,
            )
            &&& a.keeps_files(typed) && a.asks_nothing(typed) && typed.input == a.input && a.tells(
                typed,
                said,
            )
        }),
{
    reveal(AppView::picker_key);
    reveal(AppView::path_input_key);
}

/// What is done in the cart: the cursor moves by one row, one entry is taken out, all are taken
/// out, or a dialog about all of them is opened. None of it asks the drive for anything.
pub proof fn law_cart_keys(a: AppView)
    requires
        a.cart.len() <= usize::MAX,
    ensures
        ({
            let down = a.cart_key(CartAction::Down);
            let up = a.cart_key(CartAction::Up);
            let n = a.cart.len();
            &&& n > 0 && a.cart_selected < n ==> down.cart_selected == (if a.cart_selected + 1 < n {
                a.cart_selected + 1
            } else {
                a.cart_selected as int
            })
            &&& up.cart_selected == (if a.cart_selected > 0 { a.cart_selected - 1 } else { 0 })
            &&& down.cart == a.cart && up.cart == a.cart
            &&& down.input is CartView && up.input is CartView
            &&& a.asks_nothing(down) && a.asks_nothing(up)
        }),
        a.cart_key(CartAction::Close) == a,
{
    reveal(AppView::cart_key);
}

/// The entry under the cursor, and only that, is taken out of the cart. The others keep their
/// order.
pub proof fn law_entry_under_the_cursor_leaves_the_cart(a: AppView, i: int)
    requires
        a.cart_selected < a.cart.len() <= usize::MAX,
        0 <= i < a.cart.len() - 1,
    ensures
        ({
            let b = a.cart_key(CartAction::Remove);
            let at = a.cart_selected as int;
            &&& b.cart.len() == a.cart.len() - 1
            &&& b.cart[i] == (if i < at { a.cart[i] } else { a.cart[i + 1] })
            &&& b.cart_selected < b.cart.len()
            &&& b.input is CartView
            &&& a.asks_nothing(b)
            &&& a.tells(b, "Removed '"@ + a.cart[at].name@ + "' from cart"@)
        }),
{
    reveal(AppView::cart_key);
}

pub proof fn law_cart_is_cleared(a: AppView)
    ensures
        ({
            let b = a.cart_key(CartAction::Clear);
            &&& b.cart.len() == 0
            &&& b.cart_selected == 0
            &&& b.input is CartView
            &&& a.asks_nothing(b)
            &&& a.tells(b, "Cleared "@ + decimal(a.cart.len()) + " items from cart"@)
        }),
{
    reveal(AppView::cart_key);
}

/// With an empty cart there is nothing to transfer, trash, share or download.
pub proof fn law_empty_cart_does_nothing(a: AppView, action: CartAction)
    requires
        a.cart.len() == 0,
        action == CartAction::Download || action == CartAction::MoveAll || action
            == CartAction::CopyAll || action == CartAction::TrashAll || action == CartAction::Share
            || action == CartAction::SharePlain,
    ensures
        ({
            let b = a.cart_key(action);
            &&& a.keeps_files(b)
            &&& a.asks_nothing(b)
            &&& b.input is CartView
            &&& a.tells(b, "Cart is empty"@)
        }),
{
    reveal(AppView::cart_key);
}

/// With something in it, the whole cart is moved, copied, trashed, shared or downloaded, each only
/// after a dialog of its own, but for the quick share.
pub proof fn law_cart_dialogs(a: AppView)
    requires
        a.cart.len() > 0,
    ensures
        ({
            let to_move = a.cart_key(CartAction::MoveAll);
            let to_copy = a.cart_key(CartAction::CopyAll);
            let trash = a.cart_key(CartAction::TrashAll);
            let share = a.cart_key(CartAction::Share);
            let download = a.cart_key(CartAction::Download);
            &&& a.keeps_files(to_move) && to_move.input is CartMovePicker
            &&& to_move.input->CartMovePicker_picker.folder_id == a.current_folder_id
            &&& to_move.input->CartMovePicker_picker.breadcrumb == a.breadcrumb
            &&& a.asks(
                to_move,
                EffectView::ListPicker {
                    request_id: to_move.input->CartMovePicker_picker.listing_request_id,
                    folder_id: a.current_folder_id,
                },
            )
            &&& a.keeps_files(to_copy) && to_copy.input is CartCopyPicker
            &&& to_copy.input->CartCopyPicker_picker.folder_id == a.current_folder_id
            &&& a.asks(
                to_copy,
                EffectView::ListPicker {
                    request_id: to_copy.input->CartCopyPicker_picker.listing_request_id,
                    folder_id: a.current_folder_id,
                },
            )
            &&& a.keeps_files(trash) && trash.input is ConfirmCartDelete && a.asks_nothing(trash)
            &&& a.keeps_files(share) && share.input is SharePrompt && a.asks_nothing(share)
            &&& a.keeps_files(download) && download.input is CartView && a.asks(
                download,
                EffectView::OpenLocalInput { for_upload: false },
            )
        }),
{
    reveal(AppView::cart_key);
}

/// The cart goes to the trash only where that is confirmed, all of it and nothing else.
pub proof fn law_cart_is_trashed_on_a_yes(a: AppView, code: KeyCode, i: int)
    requires
        0 <= i < a.cart.len(),
    ensures
        ({
            let b = a.confirm_cart_delete_key(code);
            if code == KeyCode::Char('y') || code == KeyCode::Enter {
                &&& b.cart.len() == 0
                &&& b.loading
                &&& b.input == a.input
                &&& b.effects.len() == a.effects.len() + 1
                &&& b.effects.drop_last() == a.effects
                &&& b.effects.last() matches EffectView::Remote(RemoteOpView::TrashCart { ids })
                    && ids.len() == a.cart.len() && ids[i] == a.cart[i].id@
            } else {
                b == AppView { input: ModeView::CartView, ..a }
            }
        }),
{
    reveal(AppView::confirm_cart_delete_key);
    let b = a.confirm_cart_delete_key(code);
    assert(b.effects.drop_last() =~= a.effects || b.effects == a.effects);
}

/// Every entry of the cart is shared, with its own id and name: without a password by the quick
/// share and by `p`, with one by `P`. The cart is kept.
pub proof fn law_every_entry_of_the_cart_is_shared(a: AppView, i: int)
    requires
        0 <= i < a.cart.len(),
    ensures
        ({
            let quick = a.cart_key(CartAction::SharePlain);
            let plain = a.share_prompt_key(KeyCode::Char('p'));
            let secret = a.share_prompt_key(KeyCode::Char('P'));
            let n = a.effects.len() as int;
            &&& quick == plain
            &&& plain.cart == a.cart && secret.cart == a.cart
            &&& plain.input == (ModeView::ShareCreatedView { shares: Seq::empty() })
            &&& secret.input == plain.input
            &&& plain.effects.len() == n + a.cart.len()
            &&& secret.effects.len() == n + a.cart.len()
            &&& plain.effects.take(n) == a.effects
            &&& secret.effects.take(n) == a.effects
            &&& plain.effects[n + i] == EffectView::Remote(
                RemoteOpView::CreateShare {
                    file_id: a.cart[i].id@,
                    title: a.cart[i].name@,
                    need_password: false,
                },
            )
            &&& secret.effects[n + i] == EffectView::Remote(
                RemoteOpView::CreateShare {
                    file_id: a.cart[i].id@,
                    title: a.cart[i].name@,
                    need_password: true,
                },
            )
        }),
{
    reveal(AppView::cart_key);
    reveal(AppView::share_prompt_key);
    let n = a.effects.len() as int;
    assert(a.share_prompt_key(KeyCode::Char('p')).effects.take(n) =~= a.effects);
    assert(a.share_prompt_key(KeyCode::Char('P')).effects.take(n) =~= a.effects);
}

/// Any other key of that question shares nothing and leads back to the cart.
pub proof fn law_sharing_is_given_up(a: AppView, code: KeyCode)
    requires
        code != KeyCode::Char('p'),
        code != KeyCode::Char('P'),
    ensures
        a.share_prompt_key(code) == (AppView { input: ModeView::CartView, ..a }),
{
    reveal(AppView::share_prompt_key);
}

/// What the keys of the cart are for.
pub proof fn law_keys_of_the_cart()
    ensures
        cart_binding(KeyCode::Esc) == CartAction::Close,
        cart_binding(KeyCode::Down) == CartAction::Down,
        cart_binding(KeyCode::Char('j')) == CartAction::Down,
        cart_binding(KeyCode::Up) == CartAction::Up,
        cart_binding(KeyCode::Char('k')) == CartAction::Up,
        cart_binding(KeyCode::Enter) == CartAction::Download,
        cart_binding(KeyCode::Char('x')) == CartAction::Remove,
        cart_binding(KeyCode::Char('d')) == CartAction::Remove,
        cart_binding(KeyCode::Char('C')) == CartAction::Clear,
        cart_binding(KeyCode::Char('m')) == CartAction::MoveAll,
        cart_binding(KeyCode::Char('c')) == CartAction::CopyAll,
        cart_binding(KeyCode::Char('t')) == CartAction::TrashAll,
        cart_binding(KeyCode::Char('s')) == CartAction::Share,
        cart_binding(KeyCode::Char('S')) == CartAction::SharePlain,
{
}

} // verus!
