//! What holds of the destinations and paths that are typed or picked, and of what is read and
//! closed again.

use crate::app::AppView;
use crate::effect::{CopySource, EffectView, LocalStep, OpResult};
use crate::event::{KeyCode, KeyModifiers};
use crate::frame::law_message_is_told;
use crate::model::{
    AsyncRequest, Entry, LocalPathInputView, ModeView, PathInputView, PickerView, PreviewView,
};
use crate::settings::{colors_after, settings_after, ColorsView, SettingsStep, SettingsView};
use crate::model::SettingOptions;
use crate::text::{is_digit, Chars};
use crate::transfer::folders;
use syntect::highlighting::Theme;
use syntect::parsing::SyntaxSet;
use vstd::prelude::*;

verus! {

/// The dialog of one transfer: that of a move or of a copy, of one entry or of the cart.
pub open spec fn typing_of(source: Option<Entry>, input: PathInputView, is_move: bool) -> ModeView {
    match source {
        Some(e) => if is_move {
            ModeView::MoveInput { source: e, input }
        } else {
            ModeView::CopyInput { source: e, input }
        },
        None => if is_move {
            ModeView::CartMoveInput { input }
        } else {
            ModeView::CartCopyInput { input }
        },
    }
}

/// The picker of one transfer.
pub open spec fn picking_of(source: Option<Entry>, picker: PickerView, is_move: bool) -> ModeView {
    match source {
        Some(e) => if is_move {
            ModeView::MovePicker { source: e, picker }
        } else {
            ModeView::CopyPicker { source: e, picker }
        },
        None => if is_move {
            ModeView::CartMovePicker { picker }
        } else {
            ModeView::CartCopyPicker { picker }
        },
    }
}

/// Tab asks to complete the destination that was typed so far, and keeps it.
pub proof fn law_tab_completes_the_destination(
    a: AppView,
    source: Option<Entry>,
    input: PathInputView,
    is_move: bool,
    m: KeyModifiers,
)
    ensures
        a.path_input_key(source, input, is_move, KeyCode::Tab, m) == (AppView {
            input: typing_of(source, input, is_move),
            text_cursor: usize::MAX,
            effects: a.effects.push(EffectView::CompletePath { input }),
            ..a
        }),
{
    reveal(AppView::path_input_key);
}

/// `Ctrl+B` goes over to picking the destination, from the folder that is shown, for the same
/// transfer.
pub proof fn law_typing_goes_over_to_picking(
    a: AppView,
    source: Option<Entry>,
    input: PathInputView,
    is_move: bool,
    m: KeyModifiers,
)
    requires
        m.control,
    ensures
        ({
            let b = a.path_input_key(source, input, is_move, KeyCode::Char('b'), m);
            let p = PickerView {
                folder_id: a.current_folder_id,
                listing_request_id: b.async_request_generation,
                breadcrumb: a.breadcrumb,
                entries: Seq::empty(),
                selected: 0,
                loading: true,
            };
            &&& b.input == picking_of(source, p, is_move)
            &&& a.keeps_files(b) && a.is_silent(b)
            &&& a.asks(
                b,
                EffectView::ListPicker {
                    request_id: b.async_request_generation,
                    folder_id: a.current_folder_id,
                },
            )
        }),
{
    reveal(AppView::path_input_key);
}

/// `/` goes over to typing it, from nothing, for the same transfer. `h` opens the help, and the
/// picker stays below it.
pub proof fn law_picking_goes_over_to_typing(
    a: AppView,
    source: Option<Entry>,
    p: PickerView,
    is_move: bool,
)
    ensures
        ({
            let b = a.picker_key(source, p, is_move, KeyCode::Char('/'));
            let none = PathInputView {
                value: Seq::empty(),
                candidates: Seq::empty(),
                candidate_idx: None,
                pending_request_id: None,
            };
            b == AppView { input: typing_of(source, none, is_move), ..a }
        }),
        a.picker_key(source, p, is_move, KeyCode::Char('h')) == (AppView {
            input: picking_of(source, p, is_move),
            show_help_sheet: true,
            help_scroll: 0,
            ..a
        }),
{
    reveal(AppView::picker_key);
}

/// The cursor of the picker goes by one folder, and not beyond the first or the last.
pub proof fn law_picker_is_walked(a: AppView, source: Option<Entry>, p: PickerView, is_move: bool)
    requires
        p.selected < folders(p.entries).len() <= usize::MAX,
    ensures
        ({
            let n = folders(p.entries).len();
            let down = PickerView {
                selected: (if p.selected + 1 < n { p.selected + 1 } else { p.selected as int })
                    as usize,
                ..p
            };
            let up = PickerView {
                selected: (if p.selected > 0 { p.selected - 1 } else { 0 }) as usize,
                ..p
            };
            &&& a.picker_key(source, p, is_move, KeyCode::Down) == (AppView {
                input: picking_of(source, down, is_move),
                ..a
            })
            &&& a.picker_key(source, p, is_move, KeyCode::Char('j')) == (AppView {
                input: picking_of(source, down, is_move),
                ..a
            })
            &&& a.picker_key(source, p, is_move, KeyCode::Up) == (AppView {
                input: picking_of(source, up, is_move),
                ..a
            })
        }),
{
    reveal(AppView::picker_key);
}

/// Escape and Enter close the list of candidates first, and keep what was typed.
pub proof fn law_candidates_are_closed_first(
    a: AppView,
    source: Option<Entry>,
    input: PathInputView,
    is_move: bool,
    m: KeyModifiers,
)
    requires
        input.candidates.len() > 0,
    ensures
        ({
            let b = a.path_input_key(source, input, is_move, KeyCode::Esc, m);
            let c = a.path_input_key(source, input, is_move, KeyCode::Enter, m);
            let left = PathInputView {
                value: input.value,
                candidates: Seq::empty(),
                candidate_idx: None,
                pending_request_id: None,
            };
            let taken = PathInputView { candidates: Seq::empty(), candidate_idx: None, ..input };
            &&& b == (AppView { input: typing_of(source, left, is_move), ..a })
            &&& c == (AppView { input: typing_of(source, taken, is_move), ..a })
        }),
{
    reveal(AppView::path_input_key);
}

/// Any other key edits what was typed. A change drops the candidates, which were for the old text.
pub proof fn law_destination_is_edited(
    a: AppView,
    e: Entry,
    input: PathInputView,
    is_move: bool,
    c: char,
    m: KeyModifiers,
)
    requires
        !m.control,
        !m.alt,
    ensures
        ({
            let b = a.path_input_key(Some(e), input, is_move, KeyCode::Char(c), m);
            let text = a.typing(input.value, KeyCode::Char(c), m).value;
            let i = if is_move { b.input->MoveInput_input } else { b.input->CopyInput_input };
            &&& is_move ==> b.input is MoveInput && b.input->MoveInput_source == e
            &&& !is_move ==> b.input is CopyInput && b.input->CopyInput_source == e
            &&& i.value == text
            &&& text != input.value ==> i.candidates.len() == 0 && i.pending_request_id is None
            &&& a.keeps_files(b) && a.asks_nothing(b) && a.is_silent(b)
        }),
{
    reveal(AppView::path_input_key);
}

/// In the dialog of a local path, Tab and the arrows ask for the candidates, Enter asks to take
/// one or to confirm, and the text stays as it is until the answer comes.
pub proof fn law_local_path_is_completed(
    a: AppView,
    i: LocalPathInputView,
    m: KeyModifiers,
    code: KeyCode,
    step: LocalStep,
)
    requires
        ({
            ||| code == KeyCode::Tab && step == LocalStep::OpenOrNext
            ||| code == KeyCode::BackTab && step == LocalStep::OpenAndPrev
            ||| code == KeyCode::Up && step == LocalStep::Prev
            ||| code == KeyCode::Down && step == LocalStep::Next
            ||| code == KeyCode::Enter && step == LocalStep::Confirm
        }),
    ensures
        a.local_input_key(i, true, code, m) == (AppView {
            input: ModeView::UploadInput { input: i },
            effects: a.effects.push(EffectView::CompleteLocal { step, input: i }),
            ..a
        }),
        a.local_input_key(i, false, code, m) == (AppView {
            input: ModeView::DownloadInput { input: i },
            effects: a.effects.push(EffectView::CompleteLocal { step, input: i }),
            ..a
        }),
{
    reveal(AppView::local_input_key);
}

/// Escape closes the candidates first. Then it leads back: from an upload to the main pane, from a
/// download to the cart.
pub proof fn law_local_path_is_given_up(a: AppView, i: LocalPathInputView, m: KeyModifiers)
    ensures
        i.candidates.len() == 0 ==> a.local_input_key(i, true, KeyCode::Esc, m) == (AppView {
            input: ModeView::Normal,
            ..a
        }),
        i.candidates.len() == 0 ==> a.local_input_key(i, false, KeyCode::Esc, m) == (AppView {
            input: ModeView::CartView,
            ..a
        }),
        i.candidates.len() > 0 ==> a.local_input_key(i, true, KeyCode::Esc, m) == (AppView {
            input: ModeView::UploadInput {
                input: LocalPathInputView {
                    candidates: Seq::empty(),
                    candidate_idx: None,
                    ..i
                },
            },
            ..a
        }),
{
    reveal(AppView::local_input_key);
}

/// Escape gives up what a dialog waits for. What was opened from the trash leads back to it.
pub proof fn law_waiting_is_given_up(a: AppView, code: KeyCode)
    ensures
        ({
            let b = a.info_loading_key(KeyCode::Esc);
            &&& b.modal_request is None
            &&& !b.loading
            &&& a.asks_nothing(b) && a.is_silent(b)
            &&& a.trash_entries.len() == 0 ==> b.input == a.input
            &&& a.trash_entries.len() > 0 ==> b.input == (ModeView::TrashView {
                entries: a.trash_entries,
                selected: a.trash_selected,
                expanded: a.trash_expanded,
            })
        }),
        code != KeyCode::Esc ==> a.info_loading_key(code) == a,
{
    reveal(AppView::info_loading_key);
}

/// What was opened from the trash is closed to the trash, with its rows, its cursor and its shape.
pub proof fn law_trash_is_resumed(a: AppView)
    ensures
        a.trash_entries.len() > 0 ==> a.trash_resumed() == (AppView {
            input: ModeView::TrashView {
                entries: a.trash_entries,
                selected: a.trash_selected,
                expanded: a.trash_expanded,
            },
            trash_entries: Seq::empty(),
            ..a
        }),
        a.trash_entries.len() == 0 ==> a.trash_resumed() == a,
{
}

/// What became of a link that was copied is told, with the link or with what went wrong.
pub proof fn law_copied_link_is_told(a: AppView, url: Chars, e: String)
    ensures
        a.tells(
            a.link_copied(url, CopySource::CreatedShare, Ok(())),
            "Copied URL: "@ + url,
        ),
        a.tells(
            a.link_copied(url, CopySource::CreatedShare, Err(e)),
            "Clipboard failed: "@ + e@,
        ),
        a.tells(a.link_copied(url, CopySource::MyShares, Ok(())), "Copied: "@ + url),
        a.tells(
            a.link_copied(url, CopySource::MyShares, Err(e)),
            "Clipboard failed: "@ + e@,
        ),
        a.link_copied(url, CopySource::MyShares, Ok(())).show_logs_overlay,
        a.link_copied(url, CopySource::NewShare, Ok(())) == a,
        a.link_copied(url, CopySource::NewShare, Err(e)) == a,
{
    law_message_is_told(a, "Copied URL: "@ + url);
    law_message_is_told(a, "Copied: "@ + url);
    law_message_is_told(a, "Clipboard failed: "@ + e@);
}

/// What became of the player is told, and a download that was cancelled has the others go on.
pub proof fn law_player_and_cancelled_download_are_told(
    a: AppView,
    program: Chars,
    name: Chars,
    e: String,
)
    ensures
        a.tells(
            a.player_started(program, Ok(())),
            "Launched "@ + program + " with video URL"@,
        ),
        a.tells(
            a.player_started(program, Err(e)),
            "Failed to launch "@ + program + ": "@ + e@,
        ),
        a.asks_nothing(a.player_started(program, Ok(()))),
        a.tells(a.download_dropped(Some(name)), "Cancelled '"@ + name + "'"@),
        a.asks(a.download_dropped(Some(name)), EffectView::StartDownloads),
        a.download_dropped(None) == a,
{
    law_message_is_told(a, "Launched "@ + program + " with video URL"@);
    law_message_is_told(a, "Failed to launch "@ + program + ": "@ + e@);
    law_message_is_told(a, "Cancelled '"@ + name + "'"@);
}

/// A newer version is kept and told with the one in use. Where there is none, nothing happens.
pub proof fn law_newer_version_is_told(
    a: AppView,
    version: String,
    set: SyntaxSet,
    theme: Theme,
)
    ensures
        ({
            let b = a.applied(OpResult::UpdateAvailable(Some(version)), set, theme);
            &&& b.update_available == Some(version@)
            &&& a.asks_nothing(b)
            &&& a.tells(
                b,
                "Update available: v"@ + a.version + " \u{2192} v"@ + version@
                    + " (run `pikpaktui update`)"@,
            )
        }),
        a.applied(OpResult::UpdateAvailable(None), set, theme) == a,
{
    reveal(AppView::update_came);
    law_message_is_told(
        a,
        "Update available: v"@ + a.version + " \u{2192} v"@ + version@
            + " (run `pikpaktui update`)"@,
    );
}

/// The quota is kept as it was told, used and limit each as its own.
pub proof fn law_quota_is_kept(
    a: AppView,
    used: u64,
    limit: u64,
    s: String,
    t: String,
    set: SyntaxSet,
    theme: Theme,
)
    requires
        s@ == crate::text::decimal(used as nat),
        t@ == crate::text::decimal(limit as nat),
    ensures
        ({
            let b = a.applied(OpResult::Quota(Ok(Some((Some(s), Some(t))))), set, theme);
            b == AppView { quota_used: Some(used), quota_limit: Some(limit), ..a }
        }),
        a.applied(OpResult::Quota(Ok(None)), set, theme) == a,
{
    reveal(AppView::quota_came);
    crate::text_laws::law_written_number_is_read_again(used as nat, u64::MAX as nat);
    crate::text_laws::law_written_number_is_read_again(limit as nat, u64::MAX as nat);
}

/// A preview that could not be had says so, and leaves what is known in its place.
pub proof fn law_failed_previews_are_told(
    a: AppView,
    q: AsyncRequest,
    e: String,
    set: SyntaxSet,
    theme: Theme,
)
    requires
        a.preview_request == Some(q@),
        a.preview_target_id == Some(q@.target),
        a.modal_request != Some(q@),
    ensures
        ({
            let b = a.applied(OpResult::PreviewLs(q, Err(e)), set, theme);
            b.preview_state is Empty && b.preview_request is None && a.asks_nothing(b) && a.tells(
                b,
                "Folder listing failed: "@ + e@,
            )
        }),
        ({
            let b = a.applied(OpResult::PreviewInfo(q, Err(e)), set, theme);
            b.preview_state is Empty && b.preview_request is None && a.asks_nothing(b) && a.tells(
                b,
                "Preview info failed: "@ + e@,
            )
        }),
        ({
            let b = a.applied(OpResult::PreviewText(q, Err(e)), set, theme);
            b.preview_state is FileBasicInfo && b.preview_request is None && a.asks_nothing(b)
                && a.tells(b, "Text preview failed: "@ + e@)
        }),
        ({
            let b = a.applied(OpResult::PreviewThumbnail(q, Err(e)), set, theme);
            b.preview_state is FileBasicInfo && b.preview_request is None && a.asks_nothing(b)
                && a.tells(b, "Thumbnail preview failed: "@ + e@)
        }),
{
    reveal(AppView::folder_preview_came);
    reveal(AppView::preview_info_came);
    reveal(AppView::text_preview_came);
    reveal(AppView::thumbnail_came);
    let c = a.without_preview_request();
    law_message_is_told(c.showing(PreviewView::Empty), "Folder listing failed: "@ + e@);
    law_message_is_told(c.showing(PreviewView::Empty), "Preview info failed: "@ + e@);
    law_message_is_told(c.showing(PreviewView::FileBasicInfo), "Text preview failed: "@ + e@);
    law_message_is_told(
        c.showing(PreviewView::FileBasicInfo),
        "Thumbnail preview failed: "@ + e@,
    );
}

/// A listing goes into the picker that waits for it, whichever of the four is open, and leaves the
/// transfer as it is.
pub proof fn law_every_picker_takes_its_listing(
    a: AppView,
    source: Option<Entry>,
    p: PickerView,
    is_move: bool,
    folder: String,
    v: Vec<Entry>,
    set: SyntaxSet,
    theme: Theme,
)
    requires
        a.input == picking_of(source, p, is_move),
        p.folder_id == folder@,
    ensures
        a.applied(OpResult::PickerLs(p.listing_request_id, folder, Ok(v)), set, theme) == (AppView {
            input: picking_of(
                source,
                PickerView { entries: v@, loading: false, ..p },
                is_move,
            ),
            ..a
        }),
{
    reveal(AppView::picker_listing_came);
}

/// The row of the colour scheme leads to the own colours where the scheme is that of own colours,
/// and only there.
pub proof fn law_own_colours_are_opened(s: SettingsView, o: SettingOptions, typed: Chars)
    requires
        s.editing,
        s.selected == 2,
    ensures
        s.draft.color_scheme == o.scheme_custom ==> settings_after(s, KeyCode::Enter, o, typed) == (
            s,
            SettingsStep::OpenColors,
        ),
        s.draft.color_scheme != o.scheme_custom ==> settings_after(s, KeyCode::Enter, o, typed)
            == (SettingsView { editing: false, ..s }, SettingsStep::Stay),
{
}

/// A part of a colour takes digits, at most three, and no other character. Backspace takes the
/// last one away.
pub proof fn law_parts_of_a_colour_are_typed(s: ColorsView, c: char)
    requires
        s.editing_rgb,
        s.rgb_input.len() > 0,
    ensures
        !is_digit(c) ==> colors_after(s, KeyCode::Char(c)).0 == s,
        is_digit(c) ==> colors_after(s, KeyCode::Char(c)).0 == s || colors_after(
            s,
            KeyCode::Char(c),
        ).0 == (ColorsView { rgb_input: s.rgb_input.push(c), ..s }),
        colors_after(s, KeyCode::Backspace).0 == (ColorsView {
            rgb_input: s.rgb_input.drop_last(),
            ..s
        }),
{
}

} // verus!
