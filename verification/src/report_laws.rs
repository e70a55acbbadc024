//! What holds of the messages about changes on the drive, of time and of the start.

use crate::app::{AppView, Clock};
use crate::effect::{
    copied_link, failure_text, is_outcome, reports, success_text, EffectView, OpResult,
    RemoteOpView, RemoteReply,
};
use crate::media::{as_float, half_even, size_text};
use crate::model::{EntryKind, LoginField, ModeView, MyShare};
use crate::start::{login_mode, Setup};
use crate::text::{decimal, Chars};
use vstd::prelude::*;

verus! {

/// The message about a change that failed ends in what went wrong.
pub proof fn law_failure_tells_the_error(op: RemoteOpView, error: Chars)
    ensures
        failure_text(op, error).len() >= error.len(),
        failure_text(op, error).skip(failure_text(op, error).len() - error.len()) == error,
{
    let t = failure_text(op, error);
    assert(t.skip(t.len() - error.len()) =~= error);
}

/// A change of the folder that is shown is reported as done where it worked, and as failed where
/// it did not, with the text about it. What was done in the trash, to the offline tasks and by an
/// upload is reported there.
pub proof fn law_changes_are_reported_where_they_belong(
    op: RemoteOpView,
    worked: bool,
    text: Chars,
    r: OpResult,
)
    requires
        reports(op, worked, text, r),
    ensures
        op is Untrash || op is DeleteTrashed ==> r is TrashOp && r->TrashOp_0@ == text,
        op is RetryTask || op is DeleteTask ==> r is OfflineOp && r->OfflineOp_0@ == text,
        op is UploadDir || op is UploadFile ==> r is Upload && (worked <==> r->Upload_0 is Ok),
        op is MoveCopy || op is CartMoveCopy || op is Rename || op is Mkdir || op is Star || op
            is Trash || op is Delete || op is TrashCart || op is OfflineDownload || op is SaveShare
            || op is CopyLink ==> (worked ==> r is Done && r->Done_0@ == text) && (!worked ==> r
            is Failed && r->Failed_0@ == text),
{
}

/// An error of the drive is never told as a success: a change of the folder that is shown fails
/// then, with the error at the end of what is told.
pub proof fn law_errors_are_told_as_failures(op: RemoteOpView, e: String, r: OpResult)
    requires
        is_outcome(op, Err(e), r),
    ensures
        !(r is Done) && !(r is ShareCreated) && !(r is MyShares),
        r is Upload ==> r->Upload_0 is Err,
        r is Failed ==> r->Failed_0@.len() >= e@.len() && r->Failed_0@.skip(
            r->Failed_0@.len() - e@.len(),
        ) == e@,
        op is MoveCopy || op is Rename || op is Mkdir || op is Delete || op is CreateShare || op
            is DeleteShare || op is SaveShare || op is CopyLink ==> r is Failed,
{
    law_failure_tells_the_error(op, e@);
}

/// A change that the drive took is done, and told as what it was.
pub proof fn law_successes_are_told_as_done(op: RemoteOpView, r: OpResult)
    requires
        is_outcome(op, Ok(RemoteReply::Done), r),
        op is MoveCopy || op is CartMoveCopy || op is Rename || op is Mkdir || op is Star || op
            is Trash || op is Delete || op is TrashCart,
    ensures
        r is Done,
        r->Done_0@ == success_text(op, RemoteReply::Done),
{
}

/// A share that was created is shown with its own title, link and password. The shares that are
/// left after one was deleted are shown.
pub proof fn law_shares_are_shown_as_they_came(
    file_id: Chars,
    title: Chars,
    need_password: bool,
    url: String,
    pass_code: String,
    left: Vec<MyShare>,
    r: OpResult,
    share_id: Chars,
)
    ensures
        is_outcome(
            RemoteOpView::CreateShare { file_id, title, need_password },
            Ok(RemoteReply::Shared { url, pass_code }),
            r,
        ) ==> r is ShareCreated && r->title@ == title && r->url == url && r->pass_code == pass_code,
        is_outcome(
            RemoteOpView::DeleteShare { share_id },
            Ok(RemoteReply::Shares(Ok(left))),
            r,
        ) ==> r == OpResult::MyShares(Ok(left)),
{
}

/// A link counts as copied only where it was, and a share as saved only where something was in it.
pub proof fn law_what_was_not_done_is_not_told_as_done(
    id: Chars,
    name: Chars,
    e: String,
    n: u64,
    r: OpResult,
)
    ensures
        is_outcome(
            RemoteOpView::CopyLink { id, name },
            Ok(RemoteReply::LinkNotCopied(e)),
            r,
        ) ==> r is Failed && r->Failed_0@ == "Clipboard failed: "@ + e@,
        is_outcome(RemoteOpView::CopyLink { id, name }, Ok(RemoteReply::LinkCopied), r) ==> r
            is Done,
        is_outcome(
            RemoteOpView::SaveShare { share_id: id, to_parent_id: name },
            Ok(RemoteReply::Saved(n)),
            r,
        ) ==> (r is Done <==> n > 0) && (r is Failed <==> n == 0),
{
}

/// A link is copied where one was asked for and came, and only there.
pub proof fn law_link_to_copy_is_the_one_that_came(
    op: RemoteOpView,
    url: String,
    reply: RemoteReply,
)
    ensures
        op is CopyLink ==> copied_link(op, RemoteReply::Link(url)) == Some(url@),
        !(op is CopyLink) ==> copied_link(op, reply) is None,
        !(reply is Link) ==> copied_link(op, reply) is None,
{
}

/// The message about a transfer that worked says whether it was a move or a copy, of what, and
/// where to.
pub proof fn law_transfer_is_told(
    id: Chars,
    name: Chars,
    to: Chars,
    path: Chars,
    ids: Seq<Chars>,
    reply: RemoteReply,
)
    ensures
        success_text(
            RemoteOpView::MoveCopy {
                source_id: id,
                source_name: name,
                dest_id: to,
                dest_path: path,
                is_move: true,
            },
            reply,
        ) == "Move"@ + "d "@ + "'"@ + name + "'"@ + " -> "@ + "'"@ + path + "'"@ + ""@,
        success_text(
            RemoteOpView::MoveCopy {
                source_id: id,
                source_name: name,
                dest_id: to,
                dest_path: path,
                is_move: false,
            },
            reply,
        ) == "Copy"@ + "d "@ + "'"@ + name + "'"@ + " -> "@ + "'"@ + path + "'"@ + ""@,
        success_text(
            RemoteOpView::CartMoveCopy { ids, dest_id: to, dest_path: path, is_move: true },
            reply,
        ) == "Move"@ + "d "@ + decimal(ids.len()) + " item(s) -> "@ + "'"@ + path + "'"@ + ""@,
        success_text(
            RemoteOpView::CartMoveCopy { ids, dest_id: to, dest_path: path, is_move: false },
            reply,
        ) == "Copy"@ + "d "@ + decimal(ids.len()) + " item(s) -> "@ + "'"@ + path + "'"@ + ""@,
{
}

/// The message about any other change that worked says what was done to what.
pub proof fn law_other_changes_are_told(
    id: Chars,
    name: Chars,
    new_name: Chars,
    ids: Seq<Chars>,
    made: String,
    n: u64,
)
    ensures
        success_text(
            RemoteOpView::Rename { id, old_name: name, new_name },
            RemoteReply::Done,
        ) == "Renamed "@ + "'"@ + name + "'"@ + " -> "@ + "'"@ + new_name + "'"@ + ""@,
        success_text(RemoteOpView::Mkdir { parent_id: id, name }, RemoteReply::Named(Some(made)))
            == "Created folder "@ + "'"@ + made@ + "'"@ + ""@,
        success_text(RemoteOpView::Mkdir { parent_id: id, name }, RemoteReply::Named(None))
            == "Created folder "@ + "'"@ + name + "'"@ + ""@,
        success_text(RemoteOpView::Star { id, name, starred: true }, RemoteReply::Done)
            == "Unstarred"@ + " "@ + "'"@ + name + "'"@ + ""@,
        success_text(RemoteOpView::Star { id, name, starred: false }, RemoteReply::Done)
            == "Starred"@ + " "@ + "'"@ + name + "'"@ + ""@,
        success_text(RemoteOpView::Delete { id, name }, RemoteReply::Done)
            == "Permanently deleted "@ + "'"@ + name + "'"@ + ""@,
        success_text(RemoteOpView::Untrash { id, name }, RemoteReply::Done) == "Restored "@ + "'"@
            + name + "'"@ + ""@,
        success_text(RemoteOpView::TrashCart { ids }, RemoteReply::Done) == "Trashed "@ + decimal(
            ids.len(),
        ) + " item(s)"@,
        success_text(
            RemoteOpView::SaveShare { share_id: id, to_parent_id: name },
            RemoteReply::Saved(n),
        ) == "Saved "@ + decimal(n as nat) + " item(s) to your drive"@,
{
}

/// Rounding goes to the nearest whole number.
pub proof fn law_rounding_is_to_the_nearest(n: int, d: int)
    requires
        n >= 0,
        d > 0,
    ensures
        2 * (n - half_even(n, d) * d) <= d,
        2 * (half_even(n, d) * d - n) <= d,
{
    vstd::arithmetic::div_mod::lemma_fundamental_div_mod(n, d);
    vstd::arithmetic::div_mod::lemma_mod_bound(n, d);
    let q = n / d;
    assert(d * q == q * d) by (nonlinear_arith);
    assert((q + 1) * d == q * d + d) by (nonlinear_arith);
}

/// A size is shown in the largest unit that it reaches, rounded to the nearest tenth of it. Below a
/// kibibyte it is shown in bytes.
pub proof fn law_sizes_are_shown_in_their_unit(bytes: int) -> (tenths: int)
    requires
        0 <= bytes < 0x20_0000_0000_0000,
    ensures
        bytes < 1024 ==> size_text(bytes) == decimal(bytes as nat) + " B"@,
        bytes >= 1024 ==> {
            let (unit, sign) = if bytes >= 1099511627776 {
                (1099511627776, " TB"@)
            } else if bytes >= 1073741824 {
                (1073741824, " GB"@)
            } else if bytes >= 1048576 {
                (1048576, " MB"@)
            } else {
                (1024int, " KB"@)
            };
            &&& size_text(bytes) == decimal((tenths / 10) as nat) + "."@ + decimal(
                (tenths % 10) as nat,
            ) + sign
            &&& 2 * (bytes * 10 - tenths * unit) <= unit
            &&& 2 * (tenths * unit - bytes * 10) <= unit
        },
{
    let unit: int = if bytes >= 1099511627776 {
        1099511627776
    } else if bytes >= 1073741824 {
        1073741824
    } else if bytes >= 1048576 {
        1048576
    } else {
        1024
    };
    lemma_exact(bytes);
    law_rounding_is_to_the_nearest(bytes * 10, unit);
    half_even(bytes * 10, unit)
}

proof fn lemma_exact(n: int)
    requires
        0 <= n < 0x20_0000_0000_0000,
    ensures
        as_float(n) == n,
{
    assert(n / 1 == n && n % 1 == 0);
    assert(half_even(n, 1) == n);
}

/// The cursor blinks every 500 milliseconds.
pub proof fn law_cursor_blinks(a: AppView)
    requires
        a.clock.now >= a.clock.last_blink,
    ensures
        ({
            let b = a.blinked();
            let blinks = a.clock.now - a.clock.last_blink >= 500;
            &&& b.cursor_visible == (if blinks { !a.cursor_visible } else { a.cursor_visible })
            &&& b.clock == (Clock {
                last_blink: if blinks { a.clock.now } else { a.clock.last_blink },
                ..a.clock
            })
            &&& b == (AppView { cursor_visible: b.cursor_visible, clock: b.clock, ..a })
        }),
{
}

/// The spinner goes on to its next picture every 80 milliseconds, and from the last to the first.
pub proof fn law_spinner_turns(a: AppView)
    requires
        a.clock.now >= a.clock.last_spinner,
        a.spinner_idx < 10,
    ensures
        ({
            let b = a.spun();
            let spins = a.clock.now - a.clock.last_spinner >= 80;
            &&& b.spinner_idx == (if !spins {
                a.spinner_idx as int
            } else if a.spinner_idx < 9 {
                a.spinner_idx + 1
            } else {
                0
            })
            &&& b.clock == (Clock {
                last_spinner: if spins { a.clock.now } else { a.clock.last_spinner },
                ..a.clock
            })
            &&& b == (AppView { spinner_idx: b.spinner_idx, clock: b.clock, ..a })
        }),
{
}

/// Time blinks and spins, and changes nothing else.
pub proof fn law_time_only_blinks_and_spins(a: AppView, now: u64)
    ensures
        ({
            let b = a.ticked(now);
            &&& b == (AppView {
                cursor_visible: b.cursor_visible,
                spinner_idx: b.spinner_idx,
                clock: b.clock,
                ..a
            })
            &&& b == (AppView { clock: Clock { now, ..a.clock }, ..a }).blinked().spun()
        }),
{
}

/// A preview that is put off is fetched 300 milliseconds after the cursor came to rest, once, and
/// not for a text that is longer than what is allowed.
pub proof fn law_preview_is_fetched_when_the_cursor_rests(a: AppView)
    requires
        a.clock.now >= a.clock.last_cursor_move,
        a.selected < a.entries.len(),
    ensures
        ({
            let b = a.preview_settled();
            let e = a.entries[a.selected as int];
            let rests = a.clock.now - a.clock.last_cursor_move >= 300;
            let due = a.config.lazy_preview && a.pending_preview_fetch && rests;
            let long = e.kind == EntryKind::File && e.text_previewable && e.size
                > a.config.preview_max_size;
            &&& !due ==> b == a
            &&& due ==> !b.pending_preview_fetch
            &&& due && long ==> b == (AppView { pending_preview_fetch: false, ..a })
            &&& due && !long ==> b.effects.len() == a.effects.len() + 1 && b.preview_target_id
                == Some(e.id@) && b.preview_request is Some && b.preview_request->0.target == e.id@
        }),
{
}

/// The interface of a session starts at the top of the drive and asks for its listing.
pub proof fn law_session_starts_at_the_top(setup: Setup)
    ensures
        ({
            let a = AppView::authed(setup);
            &&& a.input is Normal
            &&& a.current_folder_id.len() == 0
            &&& a.breadcrumb.len() == 0
            &&& a.loading
            &&& a.cart.len() == 0
            &&& a.config == setup.config@
            &&& a.downloads == setup.downloads@
            &&& a.effects.len() >= 1
            &&& a.effects[0] == (EffectView::ListFolder {
                request_id: a.main_listing_request_id,
                folder_id: Seq::empty(),
            })
            &&& a.effects.contains(EffectView::FetchQuota)
            &&& a.effects.contains(EffectView::CheckUpdate) <==> setup.config@.update_check
                != setup.options.updates_off
        }),
{
    let a = AppView::authed(setup);
    assert(a.effects[1] == EffectView::FetchQuota);
    if setup.config@.update_check != setup.options.updates_off {
        assert(a.effects.last() == EffectView::CheckUpdate);
    } else {
        assert(a.effects.len() == 3);
    }
}

/// With credentials the login begins at once with them, without them the form is empty and waits.
pub proof fn law_login_begins(a: AppView, email: Chars, password: Chars)
    ensures
        login_mode(Some((email, password))) == (ModeView::Login {
            field: LoginField::Email,
            email,
            password,
            error: None,
            logging_in: true,
        }),
        login_mode(None) == (ModeView::Login {
            field: LoginField::Email,
            email: Seq::empty(),
            password: Seq::empty(),
            error: None,
            logging_in: false,
        }),
        a.input == login_mode(Some((email, password))) ==> a.begun() == (AppView {
            effects: a.effects.push(EffectView::Login { email, password }),
            ..a
        }),
        a.input == login_mode(None) ==> a.begun() == a,
{
}

} // verus!
