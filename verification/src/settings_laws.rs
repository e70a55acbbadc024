//! What holds of changing the settings.

use crate::app::AppView;
use crate::effect::{EffectView, SavePurpose};
use crate::event::{KeyCode, KeyModifiers};
use crate::frame::law_message_is_told;
use crate::model::{ConfigView, ModeView, SettingOptions};
use crate::settings::{
    colors_after, law_protocol_set_is_found, protocol_of, protocols_after, settings_after,
    ColorsView, ProtocolsView, SettingsStep, SettingsView,
};
use crate::text::{parsed, Chars};
use vstd::prelude::*;

verus! {

/// A switch that is being set is turned by the space key, and by Enter and the arrows as well.
/// Each switch turns its own setting and no other.
pub proof fn law_switches_turn_their_own_setting(
    s: SettingsView,
    o: SettingOptions,
    typed: Chars,
    code: KeyCode,
)
    requires
        s.editing,
        code == KeyCode::Char(' ') || code == KeyCode::Enter || code == KeyCode::Left || code
            == KeyCode::Right,
    ensures
        ({
            let next = settings_after(s, code, o, typed);
            let d = s.draft;
            let turned = if s.selected == 0 {
                Some(ConfigView { nerd_font: !d.nerd_font, ..d })
            } else if s.selected == 3 {
                Some(ConfigView { show_help_bar: !d.show_help_bar, ..d })
            } else if s.selected == 5 {
                Some(ConfigView { show_preview: !d.show_preview, ..d })
            } else if s.selected == 6 {
                Some(ConfigView { lazy_preview: !d.lazy_preview, ..d })
            } else if s.selected == 11 {
                Some(ConfigView { sort_reverse: !d.sort_reverse, ..d })
            } else if s.selected == 13 {
                Some(ConfigView { cli_nerd_font: !d.cli_nerd_font, ..d })
            } else {
                None
            };
            turned is Some ==> next.1 is Stay && next.0 == (SettingsView {
                editing: false,
                draft: turned->0,
                modified: true,
                ..s
            })
        }),
{
}

/// A choice that is being set goes on with the right arrow and back with the left one, each in its
/// own table, and no other setting changes.
pub proof fn law_choices_step_through_their_own_table(
    s: SettingsView,
    o: SettingOptions,
    typed: Chars,
    forward: bool,
)
    requires
        s.editing,
    ensures
        ({
            let code = if forward { KeyCode::Right } else { KeyCode::Left };
            let next = settings_after(s, code, o, typed);
            let d = s.draft;
            let stepped = if s.selected == 1 {
                Some(
                    ConfigView {
                        border_style: if forward {
                            o.border_style.after(d.border_style)
                        } else {
                            o.border_style.before(d.border_style)
                        },
                        ..d
                    },
                )
            } else if s.selected == 2 {
                Some(
                    ConfigView {
                        color_scheme: if forward {
                            o.color_scheme.after(d.color_scheme)
                        } else {
                            o.color_scheme.before(d.color_scheme)
                        },
                        ..d
                    },
                )
            } else if s.selected == 4 {
                Some(
                    ConfigView {
                        quota_bar_style: if forward {
                            o.quota_bar_style.after(d.quota_bar_style)
                        } else {
                            o.quota_bar_style.before(d.quota_bar_style)
                        },
                        ..d
                    },
                )
            } else if s.selected == 8 {
                Some(
                    ConfigView {
                        thumbnail_mode: if forward {
                            o.thumbnail_mode.after(d.thumbnail_mode)
                        } else {
                            o.thumbnail_mode.before(d.thumbnail_mode)
                        },
                        ..d
                    },
                )
            } else if s.selected == 10 {
                Some(
                    ConfigView {
                        sort_field: if forward {
                            o.sort_field.after(d.sort_field)
                        } else {
                            o.sort_field.before(d.sort_field)
                        },
                        ..d
                    },
                )
            } else if s.selected == 12 {
                Some(ConfigView { use_picker: !d.use_picker, ..d })
            } else if s.selected == 16 {
                Some(
                    ConfigView {
                        update_check: if forward {
                            o.update_check.after(d.update_check)
                        } else {
                            o.update_check.before(d.update_check)
                        },
                        ..d
                    },
                )
            } else {
                None
            };
            stepped is Some ==> next.1 is Stay && next.0 == (SettingsView {
                draft: stepped->0,
                modified: true,
                ..s
            })
        }),
{
}

/// The size of a preview goes by a kibibyte between one and ten mebibytes, the number of downloads
/// by one between one and sixteen, and a step back undoes a step on inside these bounds.
pub proof fn law_numbers_go_up_and_down(s: SettingsView, o: SettingOptions, typed: Chars)
    requires
        s.editing,
    ensures
        s.selected == 7 && 1024 <= s.draft.preview_max_size <= 10485760 ==> {
            let up = settings_after(s, KeyCode::Up, o, typed).0;
            let down = settings_after(s, KeyCode::Down, o, typed).0;
            let n = s.draft.preview_max_size as int;
            &&& up == (SettingsView {
                draft: ConfigView {
                    preview_max_size: (if n + 1024 <= 10485760 {
                        n + 1024
                    } else {
                        10485760
                    }) as u64,
                    ..s.draft
                },
                modified: true,
                ..s
            })
            &&& down == (SettingsView {
                draft: ConfigView {
                    preview_max_size: (if n - 1024 >= 1024 { n - 1024 } else { 1024 }) as u64,
                    ..s.draft
                },
                modified: true,
                ..s
            })
        },
        s.selected == 15 && 1 <= s.draft.download_jobs <= 16 ==> {
            let up = settings_after(s, KeyCode::Up, o, typed).0;
            let down = settings_after(s, KeyCode::Down, o, typed).0;
            let n = s.draft.download_jobs as int;
            &&& up == (SettingsView {
                draft: ConfigView {
                    download_jobs: (if n < 16 { n + 1 } else { 16 }) as usize,
                    ..s.draft
                },
                modified: true,
                ..s
            })
            &&& down == (SettingsView {
                draft: ConfigView {
                    download_jobs: (if n > 1 { n - 1 } else { 1 }) as usize,
                    ..s.draft
                },
                modified: true,
                ..s
            })
        },
{
}

/// What is typed for the player is the player, and none where the text is empty.
pub proof fn law_player_is_what_was_typed(
    s: SettingsView,
    o: SettingOptions,
    typed: Chars,
    c: char,
)
    requires
        s.editing,
        s.selected == 14,
    ensures
        ({
            let next = settings_after(s, KeyCode::Char(c), o, typed).0;
            &&& next.draft == (ConfigView {
                player: if typed.len() == 0 {
                    None
                } else {
                    Some(typed)
                },
                ..s.draft
            })
            &&& s.modified ==> next.modified
            &&& s.draft.player is Some && s.draft.player->0 != typed ==> next.modified
            &&& next.editing && next.selected == 14
        }),
{
}

/// `s` asks to keep the settings as they were changed, and asks for nothing where they were not.
pub proof fn law_changed_settings_are_kept(a: AppView, s: SettingsView, m: KeyModifiers)
    requires
        !s.editing,
    ensures
        a.settings_key(s, KeyCode::Char('s'), m) == (AppView {
            input: ModeView::Settings {
                selected: s.selected,
                editing: false,
                draft: s.draft,
                modified: s.modified,
            },
            effects: if s.modified {
                a.effects.push(
                    EffectView::SaveConfig { config: s.draft, purpose: SavePurpose::Settings },
                )
            } else {
                a.effects
            },
            ..a
        }),
{
    reveal(AppView::settings_key);
}

/// Settings that were kept are in force, all of them, with the listing sorted and the number of
/// downloads set by them. Where they could not be kept, the old ones stay in force.
pub proof fn law_kept_settings_are_in_force(
    a: AppView,
    selected: usize,
    editing: bool,
    draft: ConfigView,
    modified: bool,
    e: String,
)
    requires
        a.input == (ModeView::Settings { selected, editing, draft, modified }),
    ensures
        ({
            let b = a.save_ended(SavePurpose::Settings, Ok(()));
            &&& b.config == draft
            &&& b.input is Normal
            &&& b.effects == a.effects.push(EffectView::SortEntries).push(
                EffectView::SetDownloadJobs {
                    jobs: (if draft.download_jobs > 1 {
                        draft.download_jobs as int
                    } else {
                        1
                    }) as usize,
                },
            ).push(EffectView::StartDownloads)
            &&& b.entries == a.entries && b.cart == a.cart && b.breadcrumb == a.breadcrumb
        }),
        ({
            let b = a.save_ended(SavePurpose::Settings, Err(e));
            &&& b.config == a.config
            &&& b.input == a.input
            &&& a.asks_nothing(b)
            &&& a.tells(b, "Failed to save config: "@ + e@)
        }),
{
    law_message_is_told(a, "Failed to save config: "@ + e@);
}

/// A page of the settings that was kept is in force, and leads back to its row.
pub proof fn law_kept_pages_are_in_force(a: AppView)
    ensures
        a.input is CustomColorSettings ==> {
            let b = a.save_ended(SavePurpose::CustomColors, Ok(()));
            &&& b.config == a.input->CustomColorSettings_draft
            &&& b.input == (ModeView::Settings {
                selected: 2,
                editing: false,
                draft: b.config,
                modified: false,
            })
            &&& a.asks_nothing(b)
        },
        a.input is ImageProtocolSettings ==> {
            let b = a.save_ended(SavePurpose::ImageProtocols, Ok(()));
            &&& b.config == a.input->ImageProtocolSettings_draft
            &&& b.input == (ModeView::Settings {
                selected: 9,
                editing: false,
                draft: b.config,
                modified: false,
            })
            &&& a.asks_nothing(b)
        },
{
}

/// Escape closes the settings where nothing was changed, and else asks back with what was changed.
/// They are then dropped by `y`, and shown again by `n`, as they were.
pub proof fn law_changed_settings_are_asked_about(a: AppView, s: SettingsView, m: KeyModifiers)
    requires
        !s.editing,
    ensures
        !s.modified ==> a.settings_key(s, KeyCode::Esc, m) == (AppView {
            input: ModeView::Normal,
            ..a
        }),
        s.modified ==> a.settings_key(s, KeyCode::Esc, m) == (AppView {
            input: ModeView::ConfirmDiscardSettings { selected: s.selected, draft: s.draft },
            ..a
        }),
        a.discard_key(s.selected, s.draft, KeyCode::Char('y')) == (AppView {
            input: ModeView::Normal,
            ..a
        }),
        a.discard_key(s.selected, s.draft, KeyCode::Char('n')) == (AppView {
            input: ModeView::Settings {
                selected: s.selected,
                editing: false,
                draft: s.draft,
                modified: true,
            },
            ..a
        }),
{
    reveal(AppView::settings_key);
    reveal(AppView::discard_key);
}

/// The rows of the settings are walked one by one, and Enter begins to set the one under the
/// cursor.
pub proof fn law_settings_are_walked(s: SettingsView, o: SettingOptions, typed: Chars)
    requires
        !s.editing,
        s.selected <= 16,
    ensures
        settings_after(s, KeyCode::Down, o, typed).0 == (SettingsView {
            selected: (if s.selected < 16 { s.selected + 1 } else { 16 }) as usize,
            ..s
        }),
        settings_after(s, KeyCode::Up, o, typed).0 == (SettingsView {
            selected: (if s.selected > 0 { s.selected - 1 } else { 0 }) as usize,
            ..s
        }),
        s.selected != 9 ==> settings_after(s, KeyCode::Enter, o, typed) == (
            SettingsView { editing: true, ..s },
            SettingsStep::Stay,
        ),
        s.selected == 9 ==> settings_after(s, KeyCode::Enter, o, typed) == (
            s,
            SettingsStep::OpenProtocols,
        ),
{
}

/// The number that was typed becomes the part of the colour that it was typed for, of the row that
/// it was typed in. The other parts and the other colours stay.
pub proof fn law_typed_number_colours_its_own_part(s: ColorsView, n: nat)
    requires
        s.editing_rgb,
        s.selected <= 7,
        s.rgb_component <= 2,
        parsed(s.rgb_input, 255) == Some(n),
    ensures
        ({
            let next = colors_after(s, KeyCode::Enter);
            let old_colors = s.draft.custom_colors;
            let new_colors = next.0.draft.custom_colors;
            let part = s.rgb_component;
            let v = n as u8;
            &&& v == n
            &&& next.1 is Stay
            &&& next.0.modified && !next.0.editing_rgb && next.0.selected == s.selected
            &&& next.0.draft == (ConfigView { custom_colors: new_colors, ..s.draft })
            &&& new_colors.folder == recoloured(old_colors.folder, s.selected == 0, part, v)
            &&& new_colors.archive == recoloured(old_colors.archive, s.selected == 1, part, v)
            &&& new_colors.image == recoloured(old_colors.image, s.selected == 2, part, v)
            &&& new_colors.video == recoloured(old_colors.video, s.selected == 3, part, v)
            &&& new_colors.audio == recoloured(old_colors.audio, s.selected == 4, part, v)
            &&& new_colors.document == recoloured(old_colors.document, s.selected == 5, part, v)
            &&& new_colors.code == recoloured(old_colors.code, s.selected == 6, part, v)
            &&& new_colors.default == recoloured(old_colors.default, s.selected == 7, part, v)
        }),
{
}

/// A colour with one part set to `v`, where it is the one that is set.
pub open spec fn recoloured(c: (u8, u8, u8), set: bool, part: usize, v: u8) -> (u8, u8, u8) {
    (
        if set && part == 0 { v } else { c.0 },
        if set && part == 1 { v } else { c.1 },
        if set && part == 2 { v } else { c.2 },
    )
}

/// A number that is none, or is too large for a part of a colour, changes no colour, nor does one
/// that was given up.
pub proof fn law_wrong_number_colours_nothing(s: ColorsView)
    requires
        s.editing_rgb,
    ensures
        parsed(s.rgb_input, 255) is None ==> colors_after(s, KeyCode::Enter).0.draft == s.draft,
        colors_after(s, KeyCode::Esc).0.draft == s.draft,
        !colors_after(s, KeyCode::Esc).0.editing_rgb,
        colors_after(s, KeyCode::Esc).0.modified == s.modified,
{
}

/// `r`, `g` and `b` begin to type the red, the green and the blue part, from nothing.
pub proof fn law_parts_of_a_colour_are_chosen(s: ColorsView)
    requires
        !s.editing_rgb,
    ensures
        colors_after(s, KeyCode::Char('r')).0 == (ColorsView {
            editing_rgb: true,
            rgb_input: Seq::empty(),
            rgb_component: 0,
            ..s
        }),
        colors_after(s, KeyCode::Char('g')).0 == (ColorsView {
            editing_rgb: true,
            rgb_input: Seq::empty(),
            rgb_component: 1,
            ..s
        }),
        colors_after(s, KeyCode::Char('b')).0 == (ColorsView {
            editing_rgb: true,
            rgb_input: Seq::empty(),
            rgb_component: 2,
            ..s
        }),
        s.modified ==> colors_after(s, KeyCode::Char('s')).1 is Save,
        colors_after(s, KeyCode::Char('s')).0.draft == s.draft,
        colors_after(s, KeyCode::Esc).1 is Back,
{
}

/// The arrows choose the next or the last protocol of the terminal under the cursor.
pub proof fn law_protocol_of_the_terminal_under_the_cursor_is_chosen(
    s: ProtocolsView,
    o: SettingOptions,
)
    requires
        s.selected < s.terminals.len(),
    ensures
        ({
            let term = s.terminals[s.selected as int];
            let now = protocol_of(s.draft.image_protocols, term, o.protocol_auto);
            let right = protocols_after(s, KeyCode::Right, o);
            let left = protocols_after(s, KeyCode::Left, o);
            &&& protocol_of(right.0.draft.image_protocols, term, o.protocol_auto)
                == o.image_protocol.after(now)
            &&& protocol_of(left.0.draft.image_protocols, term, o.protocol_auto)
                == o.image_protocol.before(now)
            &&& right.0.modified && left.0.modified
            &&& right.1 is Stay && left.1 is Stay
            &&& right.0.selected == s.selected && right.0.terminals == s.terminals
            &&& right.0.draft == (ConfigView {
                image_protocols: right.0.draft.image_protocols,
                ..s.draft
            })
            &&& left.0.draft == (ConfigView {
                image_protocols: left.0.draft.image_protocols,
                ..s.draft
            })
        }),
{
    let term = s.terminals[s.selected as int];
    let now = protocol_of(s.draft.image_protocols, term, o.protocol_auto);
    law_protocol_set_is_found(
        s.draft.image_protocols,
        term,
        term,
        o.image_protocol.after(now),
        o.protocol_auto,
    );
    law_protocol_set_is_found(
        s.draft.image_protocols,
        term,
        term,
        o.image_protocol.before(now),
        o.protocol_auto,
    );
}

/// The pages of the settings ask to keep what was changed on them, each as its own.
pub proof fn law_changed_pages_are_kept(a: AppView, c: ColorsView, p: ProtocolsView)
    requires
        c.modified,
        !c.editing_rgb,
        p.modified,
    ensures
        a.colors_key(c, KeyCode::Char('s')).effects == a.effects.push(
            EffectView::SaveConfig { config: c.draft, purpose: SavePurpose::CustomColors },
        ),
        a.colors_key(c, KeyCode::Char('s')).config == a.config,
        a.protocols_key(p, KeyCode::Char('s')).effects == a.effects.push(
            EffectView::SaveConfig { config: p.draft, purpose: SavePurpose::ImageProtocols },
        ),
        a.protocols_key(p, KeyCode::Char('s')).config == a.config,
{
    reveal(AppView::colors_key);
    reveal(AppView::protocols_key);
}

} // verus!
