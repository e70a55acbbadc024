//! The rows of the settings: their names, what they are for and what they are set to.

use crate::media::{or_text, text_or};
use crate::model::{ConfigView, SettingOptions, TuiConfig};
use crate::text::{cat2, clone_opt, dec, decimal, owned, str_eq, Chars};
use vstd::prelude::*;

verus! {

pub const SETTING_COUNT: usize = 17;

/// A row of the settings.
#[derive(Debug)]
pub struct SettingItem {
    pub name: String,
    pub description: String,
    pub value: String,
}

pub struct SettingItemView {
    pub name: Chars,
    pub description: Chars,
    pub value: Chars,
}

impl View for SettingItem {
    type V = SettingItemView;

    open spec fn view(&self) -> SettingItemView {
        SettingItemView {
            name: self.name@,
            description: self.description@,
            value: self.value@,
        }
    }
}

/// Rows of the settings under a common heading.
#[derive(Debug)]
pub struct SettingsCategory {
    pub name: String,
    pub items: Vec<SettingItem>,
}

pub struct CategoryView {
    pub name: Chars,
    pub items: Seq<SettingItemView>,
}

pub open spec fn items_view(v: Seq<SettingItem>) -> Seq<SettingItemView> {
    Seq::new(v.len(), |i: int| v[i]@)
}

impl View for SettingsCategory {
    type V = CategoryView;

    open spec fn view(&self) -> CategoryView {
        CategoryView { name: self.name@, items: items_view(self.items@) }
    }
}

pub open spec fn categories_view(v: Seq<SettingsCategory>) -> Seq<CategoryView> {
    Seq::new(v.len(), |i: int| v[i]@)
}

/// A switch that is on or off.
pub open spec fn checkbox(on: bool) -> Chars {
    if on {
        "[\u{2713}]"@
    } else {
        "[ ]"@
    }
}

fn write_checkbox(on: bool) -> (r: String)
    ensures
        r@ == checkbox(on),
{
    if on {
        owned("[\u{2713}]")
    } else {
        owned("[ ]")
    }
}

/// Whether a value is that of a switch.
pub open spec fn is_checkbox(value: Chars) -> bool {
    value == "[\u{2713}]"@ || value == "[ ]"@
}

pub fn shows_switch(value: &str) -> (r: bool)
    ensures
        r == is_checkbox(value@),
{
    str_eq(value, "[\u{2713}]") || str_eq(value, "[ ]")
}

pub open spec fn setting_name(i: usize) -> Chars {
    if i == 0 {
        "Nerd Font Icons"@
    } else if i == 1 {
        "Border Style"@
    } else if i == 2 {
        "Color Scheme"@
    } else if i == 3 {
        "Show Help Bar"@
    } else if i == 4 {
        "Quota Bar Style"@
    } else if i == 5 {
        "Show Preview Pane"@
    } else if i == 6 {
        "Lazy Preview"@
    } else if i == 7 {
        "Preview Max Size"@
    } else if i == 8 {
        "Thumbnail Mode"@
    } else if i == 9 {
        "Image Protocol"@
    } else if i == 10 {
        "Sort Field"@
    } else if i == 11 {
        "Reverse Order"@
    } else if i == 12 {
        "Move Mode"@
    } else if i == 13 {
        "CLI Nerd Font"@
    } else if i == 14 {
        "Player Command"@
    } else if i == 15 {
        "Concurrent Downloads"@
    } else {
        "Update Check"@
    }
}

fn name_of(i: usize) -> (r: &'static str)
    ensures
        r@ == setting_name(i),
{
    match i {
        0 => "Nerd Font Icons",
        1 => "Border Style",
        2 => "Color Scheme",
        3 => "Show Help Bar",
        4 => "Quota Bar Style",
        5 => "Show Preview Pane",
        6 => "Lazy Preview",
        7 => "Preview Max Size",
        8 => "Thumbnail Mode",
        9 => "Image Protocol",
        10 => "Sort Field",
        11 => "Reverse Order",
        12 => "Move Mode",
        13 => "CLI Nerd Font",
        14 => "Player Command",
        15 => "Concurrent Downloads",
        _ => "Update Check",
    }
}

/// What a way of looking for updates means.
pub open spec fn update_note(o: SettingOptions, i: usize) -> Chars {
    if i < o.update_notes@.len() {
        o.update_notes@[i as int]@
    } else {
        ""@
    }
}

pub open spec fn setting_description(c: ConfigView, o: SettingOptions, i: usize) -> Chars {
    if i == 0 {
        "Use Nerd Font icons in TUI"@
    } else if i == 1 {
        "Window border appearance"@
    } else if i == 2 {
        "UI color theme"@
    } else if i == 3 {
        "Display keyboard shortcuts"@
    } else if i == 4 {
        "Storage usage display style"@
    } else if i == 5 {
        "Enable three-column layout"@
    } else if i == 6 {
        "Auto-load preview after delay"@
    } else if i == 7 {
        "Maximum bytes for text preview"@
    } else if i == 8 {
        "Colored thumbnail rendering"@
    } else if i == 9 {
        "Terminal image rendering protocol"@
    } else if i == 10 {
        "Field to sort entries by"@
    } else if i == 11 {
        "Reverse sort direction"@
    } else if i == 12 {
        "Interface for move/copy operations"@
    } else if i == 13 {
        "Use icons in CLI output"@
    } else if i == 14 {
        "External player for video playback"@
    } else if i == 15 {
        "Simultaneous cart downloads (1 = sequential)"@
    } else {
        update_note(o, c.update_check)
    }
}

fn description_of(draft: &TuiConfig, o: &SettingOptions, i: usize) -> (r: String)
    ensures
        r@ == setting_description(draft@, *o, i),
{
    let s: &str = match i {
        0 => "Use Nerd Font icons in TUI",
        1 => "Window border appearance",
        2 => "UI color theme",
        3 => "Display keyboard shortcuts",
        4 => "Storage usage display style",
        5 => "Enable three-column layout",
        6 => "Auto-load preview after delay",
        7 => "Maximum bytes for text preview",
        8 => "Colored thumbnail rendering",
        9 => "Terminal image rendering protocol",
        10 => "Field to sort entries by",
        11 => "Reverse sort direction",
        12 => "Interface for move/copy operations",
        13 => "Use icons in CLI output",
        14 => "External player for video playback",
        15 => "Simultaneous cart downloads (1 = sequential)",
        _ => if draft.update_check < o.update_notes.len() {
            o.update_notes[draft.update_check].as_str()
        } else {
            ""
        },
    };
    owned(s)
}

/// What a row is set to.
pub open spec fn setting_value(c: ConfigView, o: SettingOptions, i: usize) -> Chars {
    if i == 0 {
        checkbox(c.nerd_font)
    } else if i == 1 {
        o.border_style.name(c.border_style)
    } else if i == 2 {
        o.color_scheme.name(c.color_scheme)
    } else if i == 3 {
        checkbox(c.show_help_bar)
    } else if i == 4 {
        o.quota_bar_style.name(c.quota_bar_style)
    } else if i == 5 {
        checkbox(c.show_preview)
    } else if i == 6 {
        checkbox(c.lazy_preview)
    } else if i == 7 {
        decimal((c.preview_max_size / 1024) as nat) + " KB"@
    } else if i == 8 {
        o.thumbnail_mode.name(c.thumbnail_mode)
    } else if i == 9 {
        ">"@
    } else if i == 10 {
        o.sort_field.name(c.sort_field)
    } else if i == 11 {
        checkbox(c.sort_reverse)
    } else if i == 12 {
        if c.use_picker {
            o.move_mode.1@
        } else {
            o.move_mode.0@
        }
    } else if i == 13 {
        checkbox(c.cli_nerd_font)
    } else if i == 14 {
        text_or(c.player, "(none)"@)
    } else if i == 15 {
        decimal(c.download_jobs as nat)
    } else if i == 16 {
        o.update_check.name(c.update_check)
    } else {
        ""@
    }
}

pub fn value_of(draft: &TuiConfig, o: &SettingOptions, i: usize) -> (r: String)
    ensures
        r@ == setting_value(draft@, *o, i),
{
    match i {
        0 => write_checkbox(draft.nerd_font),
        1 => owned(o.border_style.label(draft.border_style)),
        2 => owned(o.color_scheme.label(draft.color_scheme)),
        3 => write_checkbox(draft.show_help_bar),
        4 => owned(o.quota_bar_style.label(draft.quota_bar_style)),
        5 => write_checkbox(draft.show_preview),
        6 => write_checkbox(draft.lazy_preview),
        7 => cat2(dec(draft.preview_max_size / 1024).as_str(), " KB"),
        8 => owned(o.thumbnail_mode.label(draft.thumbnail_mode)),
        9 => owned(">"),
        10 => owned(o.sort_field.label(draft.sort_field)),
        11 => write_checkbox(draft.sort_reverse),
        12 => if draft.use_picker {
            o.move_mode.1.clone()
        } else {
            o.move_mode.0.clone()
        },
        13 => write_checkbox(draft.cli_nerd_font),
        14 => or_text(clone_opt(&draft.player), "(none)"),
        15 => dec(draft.download_jobs as u64),
        16 => owned(o.update_check.label(draft.update_check)),
        _ => owned(""),
    }
}

pub open spec fn setting_item(c: ConfigView, o: SettingOptions, i: usize) -> SettingItemView {
    SettingItemView {
        name: setting_name(i),
        description: setting_description(c, o, i),
        value: setting_value(c, o, i),
    }
}

/// The rows from `from` up to `to` under a heading.
pub open spec fn category(name: Chars, c: ConfigView, o: SettingOptions, from: int, to: int) -> CategoryView {
    CategoryView {
        name,
        items: Seq::new((to - from) as nat, |k: int| setting_item(c, o, (from + k) as usize)),
    }
}

/// All rows of the settings, in order, under their headings.
pub open spec fn settings_layout(c: ConfigView, o: SettingOptions) -> Seq<CategoryView> {
    seq![
        category("UI Settings"@, c, o, 0, 5),
        category("Preview Settings"@, c, o, 5, 10),
        category("Sort Settings"@, c, o, 10, 12),
        category("Interface Settings"@, c, o, 12, 14),
        category("Playback Settings"@, c, o, 14, 15),
        category("Download Settings"@, c, o, 15, 16),
        category("Update Settings"@, c, o, 16, 17),
    ]
}

fn build_category(
    name: &str,
    draft: &TuiConfig,
    o: &SettingOptions,
    from: usize,
    to: usize,
) -> (r: SettingsCategory)
    requires
        from <= to,
    ensures
        r@ == category(name@, draft@, *o, from as int, to as int),
{
    let mut items: Vec<SettingItem> = Vec::new();
    let mut i: usize = from;
    while i < to
        invariant
            from <= i <= to,
            items@.len() == i - from,
            forall|k: int|
                0 <= k < i - from ==> (#[trigger] items@[k])@ == setting_item(
                    draft@,
                    *o,
                    (from + k) as usize,
                ),
        decreases to - i,
    {
        items.push(
            SettingItem {
                name: owned(name_of(i)),
                description: description_of(draft, o, i),
                value: value_of(draft, o, i),
            },
        );
        i += 1;
    }
    let r: SettingsCategory = SettingsCategory { name: owned(name), items };
    assert(r@.items =~= category(name@, draft@, *o, from as int, to as int).items);
    r
}

/// The layout of the settings: the headings, the rows under each and their order.
pub fn settings_items(draft: &TuiConfig, o: &SettingOptions) -> (r: Vec<SettingsCategory>)
    ensures
        categories_view(r@) == settings_layout(draft@, *o),
{
    let mut v: Vec<SettingsCategory> = Vec::new();
    v.push(build_category("UI Settings", draft, o, 0, 5));
    v.push(build_category("Preview Settings", draft, o, 5, 10));
    v.push(build_category("Sort Settings", draft, o, 10, 12));
    v.push(build_category("Interface Settings", draft, o, 12, 14));
    v.push(build_category("Playback Settings", draft, o, 14, 15));
    v.push(build_category("Download Settings", draft, o, 15, 16));
    v.push(build_category("Update Settings", draft, o, 16, 17));
    assert(categories_view(v@) =~= settings_layout(draft@, *o));
    v
}

} // verus!
