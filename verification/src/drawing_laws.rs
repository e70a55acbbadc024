//! What holds of the dialogs and notes that are drawn: each shows what it is about.

use crate::app::AppView;
use crate::areas::Areas;
use crate::dialogs::{login_lines, login_note, under_way};
use crate::fields::{entry_lines, triangle};
use crate::geometry::Rect;
use crate::help_bar::mode_hints;
use crate::kit::Kit;
use crate::lists::{phase_look, task_row};
use crate::media::size_text;
use crate::model::{
    Entry, EntryKind, LoginField, ModeView, OfflineTask, PathInputView, PreviewView, SettingOptions,
    StatusKind, StatusView,
};
use crate::mouse::settings_hit;
use crate::panes::{quota_spans, toast_scene, QuotaView};
use crate::setting_pages::FieldCursor;
use crate::settings::SettingsView;
use crate::share_pages::cards;
use crate::style::Color;
use crate::text::{decimal, Chars};
use crate::width::{padded, shortened, text_columns};
use vstd::prelude::*;

verus! {

/// The dialogs of a destination say whether they are for a move or a copy, and of what.
pub proof fn law_destination_dialogs_say_what_they_are_for(
    a: AppView,
    e: Entry,
    i: PathInputView,
    areas: Areas,
)
    ensures
        ({
            let panel = a.typing_part(areas)[1];
            &&& a.input == (ModeView::MoveInput { source: e, input: i }) ==> panel->Panel_title
                == " "@ + "Move"@ + " "@
            &&& a.input == (ModeView::CopyInput { source: e, input: i }) ==> panel->Panel_title
                == " "@ + "Copy"@ + " "@
            &&& a.input == (ModeView::CartMoveInput { input: i }) ==> panel->Panel_title == " "@
                + "Move Cart"@ + " "@
            &&& a.input == (ModeView::CartCopyInput { input: i }) ==> panel->Panel_title == " "@
                + "Copy Cart"@ + " "@
        }),
{
    reveal(AppView::typing_part);
}

/// The question about a deletion is about the entry under the cursor.
pub proof fn law_deletion_question_names_the_entry(
    a: AppView,
    e: Entry,
    areas: Areas,
    kit: Kit,
)
    requires
        a.selected < a.entries.len(),
        a.entries[a.selected as int] == e,
    ensures
        ({
            let panel = a.question_part(areas, kit)[1];
            &&& a.input is ConfirmDelete ==> panel is Panel && panel->Panel_lines[1][1].text == "`"@
                + e.name@ + "`"@
            &&& a.input is ConfirmPermanentDelete ==> panel is Panel && panel->Panel_lines[2
                + triangle().len() as int][1].text == "`"@ + e.name@ + "`"@
        }),
{
    reveal(AppView::question_part);
}

/// The other questions say how many entries, how many downloads and which video they are about.
pub proof fn law_questions_say_what_they_are_about(
    a: AppView,
    name: Chars,
    url: Chars,
    areas: Areas,
    kit: Kit,
)
    ensures
        ({
            let panel = a.question_part(areas, kit)[1];
            &&& a.input is ConfirmCartDelete ==> panel is Panel && panel->Panel_lines[1][1].text
                == decimal(a.cart.len()) + " item(s)"@
            &&& a.input is ConfirmQuit ==> panel is Panel && panel->Panel_lines[1][1].text
                == decimal(under_way(a.downloads)) + " download(s) still active."@
            &&& a.input == (ModeView::ConfirmPlay { name, url }) ==> panel is Panel
                && panel->Panel_lines[1][1].text == "\""@ + shortened(name, 40) + "\""@
                && panel->Panel_lines[3][1].text == (match a.config.player {
                Some(p) => p,
                None => "not configured"@,
            })
        }),
{
    reveal(AppView::question_part);
}

/// A message is drawn in the colour of its kind, under the name of its kind.
pub proof fn law_messages_are_drawn_by_kind(s: StatusView, now: u64, main: Rect, screen: Rect)
    requires
        s.expires_at >= now,
        main.width >= 16,
        main.height >= 4,
    ensures
        ({
            let panel = toast_scene(Some(s), now, main, screen)[1];
            &&& panel is Panel
            &&& s.kind == StatusKind::Info ==> panel->Panel_border == Color::Green
                && panel->Panel_title == " "@ + "Status"@ + " "@
            &&& s.kind == StatusKind::Warning ==> panel->Panel_border == Color::Yellow
                && panel->Panel_title == " "@ + "Notice"@ + " "@
            &&& s.kind == StatusKind::Error ==> panel->Panel_border == Color::Red
                && panel->Panel_title == " "@ + "Error"@ + " "@
        }),
{
}

/// The quota shows what is used first and the limit behind it.
pub proof fn law_quota_shows_used_and_limit(
    used: u64,
    limit: u64,
    as_percent: bool,
    f: crate::kit::QuotaFigures,
)
    requires
        limit > 0,
    ensures
        ({
            let q = QuotaView { used: Some(used), limit: Some(limit), as_percent };
            let line = quota_spans(q, Some(f));
            &&& line[1].text == size_text(used as int)
            &&& line[3].text == size_text(limit as int)
            &&& as_percent ==> line[5].text == f.percent@
        }),
        quota_spans(QuotaView { used: None, limit: Some(limit), as_percent }, Some(f)).len() == 0,
{
}

/// The preview scrolls up by one row, and not beyond its first.
pub proof fn law_preview_scrolls_up_by_one(a: AppView)
    ensures
        a.preview_scrolled(true) == (AppView {
            preview_scroll: (if a.preview_scroll > 0 { a.preview_scroll - 1 } else { 0 }) as usize,
            ..a
        }),
{
}

/// It scrolls down by one row, as long as there are rows below those that are seen.
pub proof fn law_preview_scrolls_down_by_one(a: AppView, children: Seq<Entry>)
    requires
        a.preview_state == PreviewView::FolderListing(children),
        children.len() <= usize::MAX,
        a.screen.preview_pane_area.height >= 2,
    ensures
        ({
            let b = a.preview_scrolled(false);
            let seen = a.preview_scroll + (a.screen.preview_pane_area.height - 2);
            &&& seen < children.len() ==> b.preview_scroll == a.preview_scroll + 1
            &&& seen >= children.len() ==> b.preview_scroll == a.preview_scroll
            &&& b == (AppView { preview_scroll: b.preview_scroll, ..a })
        }),
{
}

/// A click on a row of the settings chooses that row. A second one begins to set it, and nothing
/// is changed by either beside the switches.
pub proof fn law_settings_are_clicked(
    s: SettingsView,
    o: SettingOptions,
    row: usize,
    col: u16,
    area: Rect,
)
    ensures
        settings_hit(s, o, (row, false), col, area, false) == (SettingsView {
            selected: row,
            ..s
        }),
        settings_hit(s, o, (row, false), col, area, true) == (SettingsView {
            selected: row,
            editing: true,
            ..s
        }),
{
}

/// The card on top is that of the newest share, with its own title and link.
pub proof fn law_newest_share_is_on_top(
    shares: Seq<(Chars, Chars, Chars)>,
    top: (Chars, Chars, Chars),
    vibrant: bool,
    screen: Rect,
)
    ensures
        ({
            let all = shares.push(top);
            let card = cards(all, all.len() as int, vibrant, screen).last();
            &&& card is Panel
            &&& card->Panel_title == " "@ + ("Share: "@ + shortened(top.0, 30)) + " "@
            &&& top.2.len() > 0 ==> card->Panel_lines[2][1].text == top.2
            &&& card->Panel_lines[1][1].text == shortened(
                top.1,
                (if card->Panel_area.width >= 4 { card->Panel_area.width - 4 } else { 0 }) as nat,
            )
        }),
{
}

/// The facts of a file hold its size and dates, and those of a folder no size.
pub proof fn law_facts_hold_the_size_of_a_file(e: Entry, in_cart: bool, width: int, k: int)
    requires
        e.kind == EntryKind::File,
        e.created_time@.len() == 0,
        e.modified_time@.len() == 0,
        !e.starred,
        !in_cart,
    ensures
        entry_lines(e, in_cart, width).last()[1].text == size_text(e.size as int),
        entry_lines(e, in_cart, width).last()[0].text == "  Size:  "@,
        entry_lines(e, true, width).last()[1].text == "\u{2606} In cart"@,
{
    assert(entry_lines(e, in_cart, width) =~= entry_lines(e, in_cart, width).drop_last().push(
        entry_lines(e, in_cart, width).last(),
    ));
}

/// A task is shown in the colour of what became of it.
pub proof fn law_tasks_are_shown_by_what_became_of_them(t: OfflineTask, selected: bool)
    ensures
        ({
            let color = task_row(t, selected)[1].style.fg;
            &&& t.phase@ == "PHASE_TYPE_COMPLETE"@ ==> color == Some(Color::Green)
            &&& t.phase@ == "PHASE_TYPE_RUNNING"@ ==> color == Some(Color::Cyan)
            &&& t.phase@ == "PHASE_TYPE_PENDING"@ ==> color == Some(Color::DarkGray)
            &&& t.phase@ == "PHASE_TYPE_ERROR"@ ==> color == Some(Color::Red)
        }),
{
    reveal_strlit("PHASE_TYPE_COMPLETE");
    reveal_strlit("PHASE_TYPE_RUNNING");
    reveal_strlit("PHASE_TYPE_PENDING");
    reveal_strlit("PHASE_TYPE_ERROR");
    assert("PHASE_TYPE_COMPLETE"@.len() == 19);
    assert("PHASE_TYPE_ERROR"@.len() == 16);
    assert("PHASE_TYPE_RUNNING"@.len() == 18 && "PHASE_TYPE_PENDING"@.len() == 18);
    assert("PHASE_TYPE_RUNNING"@[11] != "PHASE_TYPE_PENDING"@[11]);
    assert(task_row(t, selected)[1].style.fg == Some(phase_look(t.phase@).1));
}

/// The form shows the email in its first field, whichever field is chosen.
pub proof fn law_login_form_shows_the_email(
    email: Chars,
    password: Chars,
    error: Chars,
    c: FieldCursor,
    area: Rect,
)
    ensures
        ({
            let lines = login_lines(LoginField::Password, email, password, None, false, c, area);
            let width = if area.width >= 14 { area.width - 14 } else { 0 };
            lines[1][1].text == crate::width::padded(email, width as nat)
        }),
        login_note(Some(error), false)[0][0].text == "  "@ + error,
        login_note(Some(error), true)[0][0].text == "  Logging in..."@,
        login_note(None, false).len() == 0,
{
}

/// The hints under a dialog name the keys that it is answered with.
pub proof fn law_hints_name_the_answers()
    ensures
        mode_hints(ModeView::ConfirmDelete) =~= seq![
            ("y"@, "permanent delete"@),
            ("n/Esc"@, "cancel"@),
        ],
        mode_hints(ModeView::ConfirmQuit) =~= seq![("y"@, "quit"@), ("n/Esc"@, "cancel"@)],
        mode_hints(ModeView::ConfirmCartDelete) =~= seq![
            ("y/Enter"@, "trash"@),
            ("n/Esc"@, "cancel"@),
        ],
        mode_hints(ModeView::SharePrompt) =~= seq![
            ("p"@, "public share"@),
            ("P"@, "with password"@),
            ("Esc"@, "cancel"@),
        ],
{
}

/// The hints under the pages name their keys, each for what it does.
pub proof fn law_hints_name_the_keys_of_the_pages(
    tasks: Seq<OfflineTask>,
    entries: Seq<Entry>,
    selected: usize,
    expanded: bool,
)
    ensures
        ({
            let cart = mode_hints(ModeView::CartView);
            &&& cart[1] == ("x"@, "remove"@) && cart[2] == ("C"@, "clear all"@)
            &&& cart[3] == ("Enter"@, "download"@) && cart[4] == ("m"@, "move"@)
            &&& cart[5] == ("c"@, "copy"@) && cart[6] == ("t"@, "trash"@)
            &&& cart[7] == ("s"@, "share"@) && cart[8] == ("S"@, "quick share"@)
        }),
        ({
            let downloads = mode_hints(ModeView::DownloadView);
            &&& downloads[2] == ("p"@, "pause/resume"@) && downloads[3] == ("x"@, "cancel"@)
            &&& downloads[4] == ("r"@, "retry"@)
        }),
        ({
            let hints = mode_hints(ModeView::OfflineTasksView { tasks, selected });
            &&& hints[1] == ("r"@, "refresh"@) && hints[2] == ("R"@, "retry"@)
            &&& hints[3] == ("x"@, "delete"@)
        }),
        ({
            let hints = mode_hints(ModeView::TrashView { entries, selected, expanded });
            &&& hints.contains(("u"@, "restore"@)) && hints.contains(("x"@, "delete"@))
            &&& hints.contains(("r"@, "refresh"@)) && hints.contains(("Space"@, "info"@))
            &&& expanded ==> hints.contains(("Enter"@, "collapse"@))
            &&& !expanded ==> hints.contains(("Enter"@, "expand"@))
        }),
{
    let hints = mode_hints(ModeView::TrashView { entries, selected, expanded });
    if expanded {
        assert(hints[1] == ("Space"@, "info"@) && hints[2] == ("u"@, "restore"@));
        assert(hints[3] == ("x"@, "delete"@) && hints[4] == ("r"@, "refresh"@));
        assert(hints[5] == ("Enter"@, "collapse"@));
    } else {
        assert(hints[2] == ("Space"@, "info"@) && hints[3] == ("u"@, "restore"@));
        assert(hints[4] == ("x"@, "delete"@) && hints[5] == ("r"@, "refresh"@));
        assert(hints[1] == ("Enter"@, "expand"@));
    }
}

/// A name that fits is shown whole, and a text that fits is only padded.
pub proof fn law_what_fits_is_shown_whole(name: Chars, max: nat)
    requires
        text_columns(name) <= max,
    ensures
        shortened(name, max) == name,
        padded(name, max).take(name.len() as int) =~= name,
        forall|i: int| name.len() <= i < padded(name, max).len() ==> #[trigger] padded(name, max)[i]
            == ' ',
{
}

} // verus!
