//! What holds of the dialogs: what they ask for when they are confirmed, and that nothing is asked
//! for when they are given up.

use crate::app::AppView;
use crate::effect::{EffectView, RemoteOpView, SavePurpose};
use crate::event::{KeyCode, KeyModifiers};
use crate::frame::law_message_is_told;
use crate::keys::{action_list, next_available, previous_available};
use crate::model::{AsyncRequestKind, ConfigView, Entry, LoginField, ModeView, PlayOptionView};
use crate::share::share_id_of;
use crate::text::{trimmed, words, Chars};
use crate::text_input::{edited, Edited};
use vstd::prelude::*;

verus! {

/// Enter ends the typing with the text as it is, Escape without it.
proof fn lemma_typing_ends(a: AppView, value: Chars, m: KeyModifiers)
    ensures
        a.typing(value, KeyCode::Enter, m).value == value,
        a.typing(value, KeyCode::Enter, m).done == Some(true),
        a.typing(value, KeyCode::Esc, m).done == Some(false),
        a.typed(value, KeyCode::Enter, m) == (AppView {
            text_cursor: a.typed(value, KeyCode::Enter, m).text_cursor,
            ..a
        }),
        a.typed(value, KeyCode::Esc, m) == (AppView {
            text_cursor: a.typed(value, KeyCode::Esc, m).text_cursor,
            ..a
        }),
{
}

/// Enter in the dialog of a new name asks to rename the entry under the cursor to that name, unless
/// the name is blank.
pub proof fn law_rename_is_of_the_entry_under_the_cursor(
    a: AppView,
    e: Entry,
    value: Chars,
    m: KeyModifiers,
)
    requires
        a.selected < a.entries.len(),
        a.entries[a.selected as int] == e,
    ensures
        ({
            let b = a.rename_key(value, KeyCode::Enter, m);
            &&& a.keeps_files(b) && a.is_silent(b) && b.input == a.input
            &&& trimmed(value).len() > 0 ==> b.loading && a.asks(
                b,
                EffectView::Remote(
                    RemoteOpView::Rename {
                        id: e.id@,
                        old_name: e.name@,
                        new_name: trimmed(value),
                    },
                ),
            )
            &&& trimmed(value).len() == 0 ==> a.asks_nothing(b)
        }),
{
    reveal(AppView::rename_key);
    lemma_typing_ends(a, value, m);
}

/// Enter in the dialog of a new folder asks for a folder of that name in the folder that is shown,
/// unless the name is blank.
pub proof fn law_folder_is_made_in_the_shown_folder(a: AppView, value: Chars, m: KeyModifiers)
    ensures
        ({
            let b = a.mkdir_key(value, KeyCode::Enter, m);
            &&& a.keeps_files(b) && a.is_silent(b) && b.input == a.input
            &&& trimmed(value).len() > 0 ==> b.loading && a.asks(
                b,
                EffectView::Remote(
                    RemoteOpView::Mkdir { parent_id: a.current_folder_id, name: trimmed(value) },
                ),
            )
            &&& trimmed(value).len() == 0 ==> a.asks_nothing(b)
        }),
{
    reveal(AppView::mkdir_key);
    lemma_typing_ends(a, value, m);
}

/// Enter in the dialog of a path asks for the way to that path.
pub proof fn law_typed_path_is_gone_to(a: AppView, value: Chars, m: KeyModifiers)
    requires
        trimmed(value).len() > 0,
    ensures
        ({
            let b = a.goto_key(value, KeyCode::Enter, m);
            &&& a.keeps_files(b) && b.input == a.input
            &&& b.loading
            &&& b.modal_request is Some
            &&& b.modal_request->0.target == trimmed(value)
            &&& b.modal_request->0.kind == AsyncRequestKind::GotoPath
            &&& a.asks(b, EffectView::ResolveNav { request: b.modal_request->0 })
        }),
{
    reveal(AppView::goto_key);
    lemma_typing_ends(a, value, m);
    assert(a.goto_key(value, KeyCode::Enter, m) == a.typed(value, KeyCode::Enter, m).goto_asked(
        trimmed(value),
    ));
}

/// A blank path leads nowhere.
pub proof fn law_blank_path_leads_nowhere(a: AppView, value: Chars, m: KeyModifiers)
    requires
        trimmed(value).len() == 0,
    ensures
        a.goto_key(value, KeyCode::Enter, m) == (AppView {
            text_cursor: a.goto_key(value, KeyCode::Enter, m).text_cursor,
            ..a
        }),
{
    reveal(AppView::goto_key);
    lemma_typing_ends(a, value, m);
}

/// Escape closes each of these dialogs and asks for nothing.
pub proof fn law_escape_asks_for_nothing(a: AppView, value: Chars, m: KeyModifiers)
    ensures
        a.rename_key(value, KeyCode::Esc, m) == (AppView {
            text_cursor: a.rename_key(value, KeyCode::Esc, m).text_cursor,
            ..a
        }),
        a.mkdir_key(value, KeyCode::Esc, m) == (AppView {
            text_cursor: a.mkdir_key(value, KeyCode::Esc, m).text_cursor,
            ..a
        }),
        a.goto_key(value, KeyCode::Esc, m) == (AppView {
            text_cursor: a.goto_key(value, KeyCode::Esc, m).text_cursor,
            ..a
        }),
{
    reveal(AppView::rename_key);
    reveal(AppView::mkdir_key);
    reveal(AppView::goto_key);
    lemma_typing_ends(a, value, m);
}

/// While a dialog is open, any key but Enter and Escape only edits its text.
pub proof fn law_typing_only_edits(a: AppView, value: Chars, code: KeyCode, m: KeyModifiers)
    requires
        code != KeyCode::Enter,
        code != KeyCode::Esc,
    ensures
        ({
            let text = a.typing(value, code, m).value;
            let rename = a.rename_key(value, code, m);
            let mkdir = a.mkdir_key(value, code, m);
            let goto = a.goto_key(value, code, m);
            let delete = a.confirm_permanent_delete_key(value, code, m);
            let offline = a.offline_input_key(value, code, m);
            let share = a.save_share_key(value, code, m);
            let cursor = rename.text_cursor;
            &&& rename == (AppView {
                input: ModeView::Rename { value: text },
                text_cursor: cursor,
                ..a
            })
            &&& mkdir == (AppView {
                input: ModeView::Mkdir { value: text },
                text_cursor: cursor,
                ..a
            })
            &&& goto == (AppView {
                input: ModeView::GotoPath { query: text },
                text_cursor: cursor,
                ..a
            })
            &&& delete == (AppView {
                input: ModeView::ConfirmPermanentDelete { value: text },
                text_cursor: cursor,
                ..a
            })
            &&& offline == (AppView {
                input: ModeView::OfflineInput { value: text },
                text_cursor: cursor,
                ..a
            })
            &&& share == (AppView {
                input: ModeView::SaveShareInput { value: text },
                text_cursor: cursor,
                ..a
            })
        }),
{
    reveal(AppView::rename_key);
    reveal(AppView::mkdir_key);
    reveal(AppView::goto_key);
    reveal(AppView::confirm_permanent_delete_key);
    reveal(AppView::offline_input_key);
    reveal(AppView::save_share_key);
}

/// A deletion is that of the entry under the cursor. In the first question only `y` asks for it.
pub proof fn law_deletion_is_of_the_entry_under_the_cursor(a: AppView, e: Entry, code: KeyCode)
    requires
        a.selected < a.entries.len(),
        a.entries[a.selected as int] == e,
    ensures
        ({
            let b = a.confirm_delete_key(code);
            let op = EffectView::Remote(RemoteOpView::Delete { id: e.id@, name: e.name@ });
            &&& code == KeyCode::Char('y') ==> a.keeps_files(b) && a.asks(b, op) && b.loading
                && b.input == a.input && a.is_silent(b)
            &&& code == KeyCode::Char('p') ==> b == (AppView {
                input: ModeView::ConfirmPermanentDelete { value: Seq::empty() },
                text_cursor: 0,
                ..a
            })
            &&& code != KeyCode::Char('y') ==> a.asks_nothing(b)
            &&& code == KeyCode::Char('n') || code == KeyCode::Esc ==> b.input == a.input
                && a.tells(b, "Delete cancelled"@)
        }),
{
    reveal(AppView::confirm_delete_key);
    law_message_is_told(a, "Delete cancelled"@);
}

/// In the second one, only a `yes` does.
pub proof fn law_yes_deletes_the_entry_under_the_cursor(a: AppView, e: Entry, m: KeyModifiers)
    requires
        a.selected < a.entries.len(),
        a.entries[a.selected as int] == e,
    ensures
        ({
            let b = a.confirm_permanent_delete_key("yes"@, KeyCode::Enter, m);
            let op = EffectView::Remote(RemoteOpView::Delete { id: e.id@, name: e.name@ });
            a.keeps_files(b) && a.asks(b, op) && b.loading && b.input == a.input
        }),
{
    reveal(AppView::confirm_permanent_delete_key);
    lemma_typing_ends(a, "yes"@, m);
}

/// Playing a link starts the player that is set, with that link as its last argument, behind the
/// player's own. Where none is set, the link waits for a player to be typed.
pub proof fn law_link_is_played(a: AppView, url: Chars)
    ensures
        match a.config.player {
            Some(cmd) => words(cmd).len() > 0 ==> {
                let b = a.played(url);
                &&& b.effects.len() == a.effects.len() + 1
                &&& b.effects.drop_last() == a.effects
                &&& b.effects.last() matches EffectView::LaunchPlayer { program, args } && program
                    == words(cmd)[0] && args.last() == url && args[args.len() - 2] == "--"@
                    && args.len() == words(cmd).len() + 1 && args.take(words(cmd).len() - 1)
                    == words(cmd).skip(1)
                &&& b.input == a.input
            },
            None => a.played(url) == (AppView {
                input: ModeView::PlayerInput { value: Seq::empty(), pending_url: url },
                ..a
            }),
        },
{
    let b = a.played(url);
    if a.config.player is Some && words(a.config.player->0).len() > 0 {
        let parts = words(a.config.player->0);
        assert(b.effects.drop_last() =~= a.effects);
        assert(parts.skip(1).push("--"@).push(url).take(parts.len() - 1) =~= parts.skip(1));
    }
}

/// Enter on a stream that is available plays the link of that very stream: the player that is set
/// is started with it, and where none is set, it is the link that waits for a player.
pub proof fn law_chosen_stream_is_played(
    a: AppView,
    name: Chars,
    medias: Seq<PlayOptionView>,
    selected: usize,
)
    requires
        selected < medias.len(),
        medias[selected as int].available,
    ensures
        ({
            let b = a.streams_key(name, medias, selected, KeyCode::Enter);
            let url = medias[selected as int].url;
            match a.config.player {
                Some(cmd) => words(cmd).len() > 0 ==> {
                    &&& b.effects.len() == a.effects.len() + 1
                    &&& b.effects.drop_last() == a.effects
                    &&& b.effects.last() is LaunchPlayer
                    &&& b.effects.last()->args.last() == url
                    &&& b.effects.last()->program == words(cmd)[0]
                    &&& b.input == a.input
                },
                None => b == AppView {
                    input: ModeView::PlayerInput { value: Seq::empty(), pending_url: url },
                    ..a
                },
            }
        }),
{
    reveal(AppView::streams_key);
    law_link_is_played(a, medias[selected as int].url);
}

/// Enter on a stream that is not available plays nothing, and says why.
pub proof fn law_cold_stream_is_not_played(
    a: AppView,
    name: Chars,
    medias: Seq<PlayOptionView>,
    selected: usize,
)
    requires
        selected < medias.len(),
        !medias[selected as int].available,
    ensures
        ({
            let b = a.streams_key(name, medias, selected, KeyCode::Enter);
            &&& a.keeps_files(b)
            &&& a.asks_nothing(b)
            &&& b.input == (ModeView::PlayPicker { name, medias, selected })
            &&& a.tells(b, "Stream not available (cold storage)"@)
        }),
{
    reveal(AppView::streams_key);
    law_message_is_told(a, "Stream not available (cold storage)"@);
}

/// The cursor goes to the nearest stream below or above that is available, skips every one that
/// is not, and stays where there is none.
pub proof fn law_cursor_goes_to_available_streams(
    a: AppView,
    name: Chars,
    medias: Seq<PlayOptionView>,
    selected: usize,
    k: int,
)
    requires
        selected < medias.len() <= usize::MAX,
        0 <= k < medias.len(),
    ensures
        ({
            let down = a.streams_key(name, medias, selected, KeyCode::Down);
            let at = down.input->PlayPicker_selected;
            &&& down == (AppView {
                input: ModeView::PlayPicker { name, medias, selected: at },
                ..a
            })
            &&& selected <= at < medias.len()
            &&& at == selected || medias[at as int].available
            &&& selected < k < at ==> !medias[k].available
            &&& at == selected && k > selected ==> !medias[k].available
        }),
        ({
            let up = a.streams_key(name, medias, selected, KeyCode::Up);
            let at = up.input->PlayPicker_selected;
            &&& up == (AppView { input: ModeView::PlayPicker { name, medias, selected: at }, ..a })
            &&& at <= selected
            &&& at == selected || medias[at as int].available
            &&& at < k < selected ==> !medias[k].available
            &&& at == selected && k < selected ==> !medias[k].available
        }),
{
    reveal(AppView::streams_key);
    lemma_next_available(medias, selected + 1, k);
    lemma_previous_available(medias, selected as int, k);
}

proof fn lemma_next_available(v: Seq<PlayOptionView>, i: int, k: int)
    requires
        0 <= i,
    ensures
        match next_available(v, i) {
            Some(n) => i <= n < v.len() && v[n].available && (i <= k < n ==> !v[k].available),
            None => i <= k < v.len() ==> !v[k].available,
        },
    decreases v.len() - i,
{
    if i < v.len() && !v[i].available {
        lemma_next_available(v, i + 1, k);
    }
}

proof fn lemma_previous_available(v: Seq<PlayOptionView>, n: int, k: int)
    requires
        n <= v.len(),
    ensures
        match previous_available(v, n) {
            Some(i) => 0 <= i < n && v[i].available && (i < k < n ==> !v[k].available),
            None => 0 <= k < n ==> !v[k].available,
        },
    decreases n,
{
    if n > 0 && !v[n - 1].available {
        lemma_previous_available(v, n - 1, k);
    }
}

/// A video is played only where that is confirmed, by the link that the question was about.
pub proof fn law_confirmed_video_is_played(a: AppView, name: Chars, url: Chars, code: KeyCode)
    ensures
        ({
            let b = a.confirm_play_key(name, url, code);
            &&& code == KeyCode::Enter || code == KeyCode::Char('y') ==> b == a.played(url)
            &&& code == KeyCode::Esc || code == KeyCode::Char('n') ==> b == a
            &&& code != KeyCode::Enter && code != KeyCode::Char('y') ==> a.asks_nothing(b)
        }),
{
    reveal(AppView::confirm_play_key);
}

/// The player that was typed is started with the waiting link, set and kept. A blank one is not
/// taken, and Escape drops the link.
pub proof fn law_typed_player_is_set(a: AppView, value: Chars, url: Chars, m: KeyModifiers)
    ensures
        ({
            let b = a.player_key(value, url, KeyCode::Enter, m);
            let cmd = trimmed(value);
            &&& cmd.len() > 0 && words(cmd).len() > 0 ==> {
                &&& b.config == (ConfigView { player: Some(cmd), ..a.config })
                &&& b.effects.len() == a.effects.len() + 2
                &&& b.effects[a.effects.len() as int] is LaunchPlayer
                &&& b.effects[a.effects.len() as int]->args.last() == url
                &&& b.effects[a.effects.len() as int]->program == words(cmd)[0]
                &&& b.effects.last() == (EffectView::SaveConfig {
                    config: b.config,
                    purpose: SavePurpose::Silent,
                })
                &&& b.input == a.input
            }
            &&& cmd.len() == 0 ==> {
                &&& b.config == a.config
                &&& a.asks_nothing(b)
                &&& b.input == (ModeView::PlayerInput { value, pending_url: url })
            }
        }),
        ({
            let b = a.player_key(value, url, KeyCode::Esc, m);
            a.keeps_files(b) && a.asks_nothing(b) && b.input == a.input
        }),
{
    reveal(AppView::player_key);
}

/// The link in the dialog of a cloud download is asked for in the folder that is shown.
pub proof fn law_cloud_download_goes_to_the_shown_folder(a: AppView, value: Chars, m: KeyModifiers)
    requires
        trimmed(value).len() > 0,
    ensures
        ({
            let b = a.offline_input_key(value, KeyCode::Enter, m);
            let here = a.current_folder_id;
            &&& a.keeps_files(b) && a.is_silent(b) && b.loading && b.input == a.input
            &&& b.effects.len() == a.effects.len() + 1
            &&& b.effects.drop_last() == a.effects
            &&& b.effects.last() matches EffectView::Remote(
                RemoteOpView::OfflineDownload { url, parent_id },
            ) && url == trimmed(value) && parent_id == (if here.len() > 0 {
                Some(here)
            } else {
                None
            })
        }),
{
    reveal(AppView::offline_input_key);
    lemma_typing_ends(a, value, m);
    let b = a.offline_input_key(value, KeyCode::Enter, m);
    assert(b.effects.drop_last() =~= a.effects);
}

/// The share in the dialog of a share is saved to the folder that is shown.
pub proof fn law_share_is_saved_to_the_shown_folder(a: AppView, value: Chars, m: KeyModifiers)
    requires
        trimmed(value).len() > 0,
    ensures
        ({
            let b = a.save_share_key(value, KeyCode::Enter, m);
            &&& a.keeps_files(b) && a.is_silent(b) && b.loading && b.input == a.input
            &&& a.asks(
                b,
                EffectView::Remote(
                    RemoteOpView::SaveShare {
                        share_id: share_id_of(trimmed(value)),
                        to_parent_id: a.current_folder_id,
                    },
                ),
            )
        }),
{
    reveal(AppView::save_share_key);
    lemma_typing_ends(a, value, m);
}

/// A blank link asks for nothing and leaves the dialog open, and so does Escape, which closes it.
pub proof fn law_blank_links_are_not_fetched(a: AppView, value: Chars, m: KeyModifiers)
    ensures
        trimmed(value).len() == 0 ==> {
            let b = a.offline_input_key(value, KeyCode::Enter, m);
            let c = a.save_share_key(value, KeyCode::Enter, m);
            &&& a.keeps_files(b) && a.asks_nothing(b) && b.input == (ModeView::OfflineInput {
                value,
            })
            &&& a.keeps_files(c) && a.asks_nothing(c) && c.input == (ModeView::SaveShareInput {
                value,
            })
        },
        ({
            let b = a.offline_input_key(value, KeyCode::Esc, m);
            let c = a.save_share_key(value, KeyCode::Esc, m);
            &&& a.keeps_files(b) && a.asks_nothing(b) && b.input == a.input
            &&& a.keeps_files(c) && a.asks_nothing(c) && c.input == a.input
        }),
{
    reveal(AppView::offline_input_key);
    reveal(AppView::save_share_key);
    lemma_typing_ends(a, value, m);
}

/// Enter in the form logs in with the email and the password that were typed, where both are
/// there, and else says that they are missing.
pub proof fn law_login_uses_what_was_typed(
    a: AppView,
    field: LoginField,
    email: Chars,
    password: Chars,
    m: KeyModifiers,
)
    ensures
        ({
            let b = a.login_key(field, email, password, false, KeyCode::Enter, m);
            let there = trimmed(email).len() > 0 && password.len() > 0;
            &&& there ==> b == (AppView {
                input: ModeView::Login { field, email, password, error: None, logging_in: true },
                effects: a.effects.push(EffectView::Login { email, password }),
                ..a
            })
            &&& !there ==> b == (AppView {
                input: ModeView::Login {
                    field,
                    email,
                    password,
                    error: Some("Email and password are required"@),
                    logging_in: false,
                },
                ..a
            })
        }),
{
    reveal(AppView::login_key);
}

/// Tab goes to the other field and back. While a login runs, no key changes anything.
pub proof fn law_login_form_is_walked(
    a: AppView,
    email: Chars,
    password: Chars,
    field: LoginField,
    code: KeyCode,
    m: KeyModifiers,
)
    requires
        code == KeyCode::Tab || code == KeyCode::BackTab,
    ensures
        a.login_key(LoginField::Email, email, password, false, code, m) == (AppView {
            input: ModeView::Login {
                field: LoginField::Password,
                email,
                password,
                error: None,
                logging_in: false,
            },
            text_cursor: usize::MAX,
            ..a
        }),
        a.login_key(LoginField::Password, email, password, false, code, m) == (AppView {
            input: ModeView::Login {
                field: LoginField::Email,
                email,
                password,
                error: None,
                logging_in: false,
            },
            text_cursor: usize::MAX,
            ..a
        }),
        a.login_key(field, email, password, true, code, m) == (AppView {
            input: ModeView::Login { field, email, password, error: None, logging_in: true },
            ..a
        }),
{
    reveal(AppView::login_key);
}

/// What is typed goes into the field that is chosen, and the other one keeps its text.
pub proof fn law_login_types_into_the_chosen_field(
    a: AppView,
    email: Chars,
    password: Chars,
    code: KeyCode,
    m: KeyModifiers,
)
    requires
        code != KeyCode::Enter,
        code != KeyCode::Esc,
        code != KeyCode::Tab,
        code != KeyCode::BackTab,
    ensures
        ({
            let b = a.login_key(LoginField::Email, email, password, false, code, m);
            let c = a.login_key(LoginField::Password, email, password, false, code, m);
            &&& a.asks_nothing(b) && a.asks_nothing(c)
            &&& b.input == (ModeView::Login {
                field: LoginField::Email,
                email: a.typing(email, code, m).value,
                password,
                error: None,
                logging_in: false,
            })
            &&& c.input == (ModeView::Login {
                field: LoginField::Password,
                email,
                password: a.typing(password, code, m).value,
                error: None,
                logging_in: false,
            })
        }),
{
    reveal(AppView::login_key);
}

/// A text is edited at the cursor: a character goes in there, Backspace takes the one before it,
/// Delete the one behind it, and nothing else of the text changes.
pub proof fn law_text_is_edited_at_the_cursor(s: Chars, k: int, c: char, m: KeyModifiers)
    requires
        0 <= k <= s.len(),
    ensures
        !m.control && !m.alt ==> edited(s, k, KeyCode::Char(c), m) == (Edited {
            value: s.take(k).push(c) + s.skip(k),
            at: k + 1,
            done: None,
        }),
        k > 0 ==> edited(s, k, KeyCode::Backspace, m) == (Edited {
            value: s.take(k - 1) + s.skip(k),
            at: k - 1,
            done: None,
        }),
        k < s.len() ==> edited(s, k, KeyCode::Delete, m) == (Edited {
            value: s.take(k) + s.skip(k + 1),
            at: k,
            done: None,
        }),
        k > 0 ==> edited(s, k, KeyCode::Left, m) == (Edited { value: s, at: k - 1, done: None }),
        k < s.len() ==> edited(s, k, KeyCode::Right, m) == (Edited {
            value: s,
            at: k + 1,
            done: None,
        }),
        edited(s, k, KeyCode::Enter, m) == (Edited { value: s, at: k, done: Some(true) }),
        edited(s, k, KeyCode::Esc, m) == (Edited { value: s, at: k, done: Some(false) }),
        edited(s, 0, KeyCode::Backspace, m).value == s,
        edited(s, s.len() as int, KeyCode::Delete, m).value == s,
        m.control ==> edited(s, k, KeyCode::Char('a'), m) == (Edited {
            value: s,
            at: 0,
            done: None,
        }),
        m.control ==> edited(s, k, KeyCode::Char('e'), m) == (Edited {
            value: s,
            at: s.len() as int,
            done: None,
        }),
{
    assert(s.insert(k, c) =~= s.take(k).push(c) + s.skip(k));
    if k > 0 {
        assert(s.remove(k - 1) =~= s.take(k - 1) + s.skip(k));
    }
    if k < s.len() {
        assert(s.remove(k) =~= s.take(k) + s.skip(k + 1));
    }
}

/// The list of actions goes by one row, or to its first or last one, and Escape closes it.
pub proof fn law_action_list_is_walked(a: AppView, selected: usize)
    requires
        selected < action_list().len(),
    ensures
        ({
            let n = action_list().len();
            &&& n == 22
            &&& a.menu_key(selected, KeyCode::Down).input == (ModeView::ActionMenu {
                selected: (if selected + 1 < n { selected + 1 } else { selected as int }) as usize,
            })
            &&& a.menu_key(selected, KeyCode::Up).input == (ModeView::ActionMenu {
                selected: (if selected > 0 { selected - 1 } else { 0 }) as usize,
            })
            &&& a.menu_key(selected, KeyCode::Home).input == (ModeView::ActionMenu { selected: 0 })
            &&& a.menu_key(selected, KeyCode::End).input == (ModeView::ActionMenu { selected: 21 })
            &&& a.menu_key(selected, KeyCode::Esc) == a
        }),
{
    reveal(AppView::menu_key);
}

} // verus!
