//! What holds of what is drawn: each row shows what it stands for, and a click on it means that.

use crate::app::{path_text, AppView};
use crate::areas::Areas;
use crate::dialogs::{cart_delete_lines, delete_lines, quit_lines, under_way};
use crate::event::KeyCode;
use crate::geometry::{list_index, Rect};
use crate::help_layout::{layout_of, MainLayoutMode};
use crate::keys::action_list;
use crate::kit::Kit;
use crate::lists::{
    cart_mouse, menu_mouse, streams_mouse, tasks_mouse, total_size, trash_mouse, MouseRows,
};
use crate::media::size_text;
use crate::model::{
    ConfigView, DownloadTask, Entry, EntryKind, ModeView, OfflineTask, PickerView, PlayOptionView,
    SettingOptions, TaskStatus,
};
use crate::panes::{main_items, toast_scene};
use crate::scene::{at_percent, centered, Looks, WidgetView};
use crate::setting_items::setting_value;
use crate::setting_pages::colors_mouse;
use crate::settings::{settings_after, SettingsView};
use crate::share::{expiry_color, expiry_text};
use crate::style::{Color, LineView};
use crate::text::{all_digits, decimal, is_digit, Chars};
use crate::text_laws::law_written_number_is_read_again;
use crate::width::{padded, shortened};
use vstd::prelude::*;

verus! {

impl MouseRows {
    /// The item that a click on a cell means.
    pub open spec fn under(self, col: u16, row: u16) -> Option<usize> {
        list_index(col, row, self.area, self.first_row, self.offset, self.visible)
    }
}

/// The line of a panel that is drawn in a row of the screen.
pub open spec fn line_in_row(panel: WidgetView, row: u16) -> LineView {
    panel->Panel_lines[row - panel->Panel_area.y - 1]
}

/// Whether a line begins with the mark of the row that is chosen.
pub open spec fn is_marked(line: LineView) -> bool {
    line[0].text == " \u{203a} "@
}

/// A click on a drawn row of the cart means the entry that this row names, and the row of the
/// chosen entry is the marked one.
pub proof fn law_cart_row_is_clicked_as_drawn(
    a: AppView,
    area: Rect,
    screen: Rect,
    kit: Kit,
    col: u16,
    row: u16,
)
    requires
        cart_mouse(a.cart, area, kit) is Some,
        cart_mouse(a.cart, area, kit)->0.under(col, row) is Some,
        area.y + area.height <= u16::MAX,
        kit.offset + 0x10000 <= usize::MAX,
    ensures
        ({
            let i = cart_mouse(a.cart, area, kit)->0.under(col, row)->0 as int;
            let panel = a.cart_scene(area, screen, kit)[1];
            let line = line_in_row(panel, row);
            &&& i < a.cart.len()
            &&& panel is Panel && panel->Panel_area == area
            &&& line[1].text == a.cart[i].name@
            &&& line[2].text == "  "@ + size_text(a.cart[i].size as int)
            &&& is_marked(line) <==> i == a.cart_selected
        }),
{
    reveal(AppView::cart_scene);
    reveal_strlit(" \u{203a} ");
    reveal_strlit("   ");
    assert(" \u{203a} "@[1] != "   "@[1]);
}

/// The same holds of the trash.
pub proof fn law_trash_row_is_clicked_as_drawn(
    a: AppView,
    entries: Seq<Entry>,
    selected: usize,
    area: Rect,
    screen: Rect,
    kit: Kit,
    col: u16,
    row: u16,
)
    requires
        trash_mouse(entries, false, area, kit) is Some,
        trash_mouse(entries, false, area, kit)->0.under(col, row) is Some,
        area.y + area.height <= u16::MAX,
        kit.offset + 0x10000 <= usize::MAX,
    ensures
        ({
            let i = trash_mouse(entries, false, area, kit)->0.under(col, row)->0 as int;
            let panel = a.trash_scene(entries, selected, false, area, None, screen, kit)[1];
            let line = line_in_row(panel, row);
            &&& i < entries.len()
            &&& panel is Panel && panel->Panel_area == area
            &&& line[2].text == shortened(entries[i].name@, 35)
            &&& is_marked(line) <==> i == selected
        }),
{
    reveal(AppView::trash_scene);
    reveal_strlit(" \u{203a} ");
    reveal_strlit("   ");
    assert(" \u{203a} "@[1] != "   "@[1]);
}

/// The same holds of the offline tasks.
pub proof fn law_task_row_is_clicked_as_drawn(
    a: AppView,
    tasks: Seq<OfflineTask>,
    selected: usize,
    area: Rect,
    screen: Rect,
    kit: Kit,
    col: u16,
    row: u16,
)
    requires
        tasks_mouse(tasks, area, kit) is Some,
        tasks_mouse(tasks, area, kit)->0.under(col, row) is Some,
        area.y + area.height <= u16::MAX,
        kit.offset + 0x10000 <= usize::MAX,
    ensures
        ({
            let i = tasks_mouse(tasks, area, kit)->0.under(col, row)->0 as int;
            let panel = a.tasks_scene(tasks, selected, area, screen, kit)[1];
            let line = line_in_row(panel, row);
            &&& i < tasks.len()
            &&& panel is Panel && panel->Panel_area == area
            &&& line[2].text == padded(tasks[i].name@, 35)
            &&& is_marked(line) <==> i == selected
        }),
{
    reveal(AppView::tasks_scene);
    reveal_strlit(" \u{203a} ");
    reveal_strlit("   ");
    assert(" \u{203a} "@[1] != "   "@[1]);
}

/// The same holds of the list of actions.
pub proof fn law_action_row_is_clicked_as_drawn(
    a: AppView,
    selected: usize,
    area: Rect,
    screen: Rect,
    kit: Kit,
    col: u16,
    row: u16,
)
    requires
        menu_mouse(area, kit).under(col, row) is Some,
        area.y + area.height <= u16::MAX,
        kit.offset + 0x10000 <= usize::MAX,
    ensures
        ({
            let i = menu_mouse(area, kit).under(col, row)->0 as int;
            let panel = a.menu_scene(selected, area, screen, kit)[1];
            let line = line_in_row(panel, row);
            &&& i < action_list().len()
            &&& panel is Panel && panel->Panel_area == area
            &&& line[1].text == padded(action_list()[i].shortcut, 8)
            &&& line[2].text == action_list()[i].label
            &&& is_marked(line) <==> i == selected
        }),
{
    reveal(AppView::menu_scene);
    reveal_strlit(" \u{203a} ");
    reveal_strlit("   ");
    assert(" \u{203a} "@[1] != "   "@[1]);
}

/// The same holds of the streams. The ones that are not available say so.
pub proof fn law_stream_row_is_clicked_as_drawn(
    a: AppView,
    name: Chars,
    medias: Seq<PlayOptionView>,
    selected: usize,
    area: Rect,
    screen: Rect,
    col: u16,
    row: u16,
)
    requires
        streams_mouse(medias.len(), area).under(col, row) is Some,
        area.y + area.height <= u16::MAX,
    ensures
        ({
            let i = streams_mouse(medias.len(), area).under(col, row)->0 as int;
            let panel = a.streams_scene(name, medias, selected, area, screen)[1];
            let line = line_in_row(panel, row);
            &&& i < medias.len()
            &&& panel is Panel && panel->Panel_area == area
            &&& line[1].text == medias[i].label
            &&& line[2].text == (if medias[i].available { ""@ } else { " (cold)"@ })
            &&& line[0].text == (if i == selected { " > "@ } else { "   "@ })
        }),
{
    reveal(AppView::streams_scene);
}

/// The same holds of the colours: each row shows its own name and colour.
pub proof fn law_color_row_is_clicked_as_drawn(
    a: AppView,
    draft: ConfigView,
    selected: usize,
    modified: bool,
    area: Rect,
    screen: Rect,
    col: u16,
    row: u16,
)
    requires
        colors_mouse(area).under(col, row) is Some,
        area.y + area.height <= u16::MAX,
    ensures
        ({
            let i = colors_mouse(area).under(col, row)->0 as int;
            let panel = a.colors_scene(
                selected,
                draft,
                modified,
                false,
                Seq::empty(),
                0,
                area,
                screen,
            )[1];
            let line = line_in_row(panel, row);
            let all = draft.custom_colors;
            let c = if i == 0 {
                all.folder
            } else if i == 1 {
                all.archive
            } else if i == 2 {
                all.image
            } else if i == 3 {
                all.video
            } else if i == 4 {
                all.audio
            } else if i == 5 {
                all.document
            } else if i == 6 {
                all.code
            } else {
                all.default
            };
            &&& 0 <= i < 8
            &&& panel is Panel && panel->Panel_area == area
            &&& line[2].style.fg == Some(Color::Rgb(c.0, c.1, c.2))
            &&& is_marked(line) <==> i == selected
        }),
{
    reveal(AppView::colors_scene);
    reveal_strlit(" \u{203a} ");
    reveal_strlit("   ");
    assert(" \u{203a} "@[1] != "   "@[1]);
}

/// Each row of the main pane names its entry, with a star where it has one, with another where it
/// is in the cart, and with its size where it is a file.
pub proof fn law_main_rows_show_their_entries(
    looks: Looks,
    entries: Seq<Entry>,
    cart: Seq<Entry>,
    i: int,
)
    requires
        0 <= i < entries.len(),
    ensures
        ({
            let rows = main_items(looks, entries, cart);
            let e = entries[i];
            let in_cart = exists|j: int| 0 <= j < cart.len() && (#[trigger] cart[j]).id@ == e.id@;
            &&& rows.len() == entries.len()
            &&& rows[i][4].text == e.name@
            &&& rows[i][2].text == (if e.starred { "\u{2605} "@ } else { ""@ })
            &&& rows[i][3].text == (if in_cart { "\u{2606} "@ } else { ""@ })
            &&& rows[i][5].text == (if e.kind == EntryKind::File {
                "  "@ + size_text(e.size as int)
            } else {
                ""@
            })
        }),
{
}

/// The main pane is titled by the path of the folder that is shown, and its cursor is on the
/// chosen entry.
pub proof fn law_main_pane_shows_where_it_is(a: AppView, area: Rect, kit: Kit)
    ensures
        ({
            let pane = a.current_pane(area, kit)[0];
            &&& a.current_pane(area, kit).len() == 1
            &&& pane is List && pane->List_area == area
            &&& !a.loading ==> pane->List_title == " "@ + path_text(a.breadcrumb) + " "@
            &&& pane->items.len() == a.entries.len()
            &&& a.selected < a.entries.len() ==> pane->selected == Some(a.selected)
            &&& a.entries.len() == 0 ==> pane->selected is None
        }),
{
}

/// The pane of the folder above is titled by its path.
pub proof fn law_parent_pane_shows_where_it_is(
    a: AppView,
    area: Rect,
    kit: Kit,
    crumbs: Seq<(Chars, Chars)>,
    last: (Chars, Chars),
)
    requires
        a.breadcrumb == crumbs.push(last),
    ensures
        ({
            let pane = a.parent_pane(area, kit)[0];
            &&& pane is List && pane->List_area == area
            &&& pane->List_title == " "@ + path_text(crumbs) + " "@
            &&& pane->items.len() == a.parent_entries.len()
            &&& a.parent_selected < a.parent_entries.len() ==> pane->selected == Some(
                a.parent_selected,
            )
        }),
{
    assert(crumbs.push(last).take(crumbs.len() as int) =~= crumbs);
}

/// The picker says whether it is for a move or a copy, and where to.
pub proof fn law_picker_says_what_it_is_for(
    a: AppView,
    e: Entry,
    p: PickerView,
    panes: (Rect, Rect),
    bar: Option<Rect>,
    kit: Kit,
)
    requires
        !p.loading,
    ensures
        ({
            let to_move = a.picker_scene(e, p, true, panes, bar, kit)[1];
            let to_copy = a.picker_scene(e, p, false, panes, bar, kit)[1];
            &&& to_move is List && to_move->List_area == panes.1
            &&& to_move->List_title == " "@ + "Move"@ + " to: "@ + path_text(p.breadcrumb) + " "@
            &&& to_copy is List && to_copy->List_area == panes.1
            &&& to_copy->List_title == " "@ + "Copy"@ + " to: "@ + path_text(p.breadcrumb) + " "@
        }),
{
    reveal(AppView::picker_scene);
}

/// Each picker is drawn for what it is for: that of a move for a move, that of a copy for a copy.
pub proof fn law_picker_is_drawn_for_what_it_is_for(
    a: AppView,
    e: Entry,
    p: PickerView,
    areas: Areas,
    kit: Kit,
)
    requires
        !a.show_help_sheet,
    ensures
        a.input == (ModeView::MovePicker { source: e, picker: p }) ==> a.scene(areas, kit)
            =~= a.picker_scene(e, p, true, areas.halves, areas.bar, kit),
        a.input == (ModeView::CopyPicker { source: e, picker: p }) ==> a.scene(areas, kit)
            =~= a.picker_scene(e, p, false, areas.halves, areas.bar, kit),
        a.input == (ModeView::CartMovePicker { picker: p }) ==> a.scene(areas, kit)
            =~= a.cart_picker_scene(p, true, areas.halves, areas.bar, kit),
        a.input == (ModeView::CartCopyPicker { picker: p }) ==> a.scene(areas, kit)
            =~= a.cart_picker_scene(p, false, areas.halves, areas.bar, kit),
{
    reveal(AppView::picker_scene);
    reveal(AppView::cart_picker_scene);
}

/// The question about a deletion names the entry, that about the cart how many there are in it,
/// and that about leaving how many downloads are under way.
pub proof fn law_questions_name_what_they_are_about(name: Chars, n: nat)
    ensures
        delete_lines(name)[1][1].text == "`"@ + name + "`"@,
        cart_delete_lines(n)[1][1].text == decimal(n) + " item(s)"@,
        quit_lines(n)[1][1].text == decimal(n) + " download(s) still active."@,
{
}

/// A download is under way while it runs and while it waits, and not otherwise.
pub proof fn law_downloads_under_way_are_counted(v: Seq<DownloadTask>, t: DownloadTask)
    ensures
        under_way(Seq::empty()) == 0,
        under_way(v.push(t)) == under_way(v) + (if t.status == TaskStatus::Downloading || t.status
            == TaskStatus::Pending {
            1nat
        } else {
            0nat
        }),
{
    assert(v.push(t).drop_last() =~= v);
}

/// The size of the cart is the sum of the sizes in it.
pub proof fn law_sizes_are_added_up(v: Seq<Entry>, e: Entry)
    ensures
        total_size(Seq::empty()) == 0,
        total_size(v) + e.size <= u64::MAX ==> total_size(v.push(e)) == total_size(v) + e.size,
{
    assert(v.push(e).drop_last() =~= v);
    lemma_sum(v);
}

proof fn lemma_sum(v: Seq<Entry>)
    ensures
        crate::lists::sizes_sum(v) >= 0,
    decreases v.len(),
{
    if v.len() > 0 {
        lemma_sum(v.drop_last());
    }
}

/// A message is shown until four seconds after it was told, where there is room for it.
pub proof fn law_message_is_shown_for_four_seconds(
    a: AppView,
    msg: Chars,
    later: u64,
    main: Rect,
    screen: Rect,
)
    requires
        a.clock.now + 4000 <= u64::MAX,
        main.width >= 16,
        main.height >= 4,
    ensures
        later <= a.clock.now + 4000 ==> toast_scene(
            a.logged(msg).status_message,
            later,
            main,
            screen,
        ).len() == 2,
        later > a.clock.now + 4000 ==> toast_scene(
            a.logged(msg).status_message,
            later,
            main,
            screen,
        ).len() == 0,
{
}

/// A dialog is as wide as its share of the width and as high as its share of the height, and the
/// whole screen at a hundred percent of both.
pub proof fn law_dialogs_take_their_share(px: int, py: int, qx: int, qy: int, area: Rect)
    requires
        area.x + area.width <= u16::MAX,
        area.y + area.height <= u16::MAX,
    ensures
        centered(px, py, area).width == centered(px, qy, area).width,
        centered(px, py, area).x == centered(px, qy, area).x,
        centered(px, py, area).height == centered(qx, py, area).height,
        centered(px, py, area).y == centered(qx, py, area).y,
        centered(100, 100, area) == area,
{
    let h = area.height as int;
    let w = area.width as int;
    assert(at_percent(h, 0) == 0 && at_percent(h, 100) == h) by (nonlinear_arith)
        requires
            at_percent(h, 0) == (0 * h + 50) / 100,
            at_percent(h, 100) == (100 * h + 50) / 100,
    ;
    assert(at_percent(w, 0) == 0 && at_percent(w, 100) == w) by (nonlinear_arith)
        requires
            at_percent(w, 0) == (0 * w + 50) / 100,
            at_percent(w, 100) == (100 * w + 50) / 100,
    ;
}

/// The panes that are shown: all three from 96 columns on, two from 64 on, and else the main one.
/// Without a preview, two from 60 columns on.
pub proof fn law_panes_by_width(width: int)
    ensures
        width >= 96 ==> layout_of(width, true) == MainLayoutMode::ThreePane,
        64 <= width < 96 ==> layout_of(width, true) == MainLayoutMode::CurrentPreview,
        width < 64 ==> layout_of(width, true) == MainLayoutMode::CurrentOnly,
        width >= 60 ==> layout_of(width, false) == MainLayoutMode::ParentCurrent,
        width < 60 ==> layout_of(width, false) == MainLayoutMode::CurrentOnly,
{
}

/// The screen remembers the areas that it drew, so that the mouse finds them.
pub proof fn law_screen_remembers_what_it_drew(a: AppView, areas: Areas, kit: Kit)
    requires
        a.input is Normal,
    ensures
        ({
            let s = a.screen_drawn(areas, kit);
            &&& s.current_pane_area == areas.current
            &&& s.parent_pane_area == areas.parent
            &&& s.preview_pane_area == areas.preview
            &&& s.list_area_height == areas.current.height
            &&& a.show_logs_overlay ==> s.logs_overlay_area == areas.logs
            &&& s.mouse_list_visible == 0
            &&& s.scroll_offset == a.screen.scroll_offset
        }),
{
}

/// A switch that is turned is shown otherwise in its own row, and no other row changes.
pub proof fn law_turned_switch_is_seen_in_its_row(
    s: SettingsView,
    o: SettingOptions,
    typed: Chars,
    i: usize,
)
    requires
        s.editing,
        s.selected == 0 || s.selected == 3 || s.selected == 5 || s.selected == 6 || s.selected == 11
            || s.selected == 13,
    ensures
        ({
            let d = settings_after(s, KeyCode::Char(' '), o, typed).0.draft;
            &&& setting_value(d, o, s.selected) != setting_value(s.draft, o, s.selected)
            &&& i != s.selected ==> setting_value(d, o, i) == setting_value(s.draft, o, i)
        }),
{
    reveal_strlit("[\u{2713}]");
    reveal_strlit("[ ]");
    assert("[\u{2713}]"@[1] != "[ ]"@[1]);
}

/// A choice, a number or a mode that is changed is changed in its own row only.
pub proof fn law_changed_choice_is_seen_in_its_row(
    s: SettingsView,
    o: SettingOptions,
    typed: Chars,
    code: KeyCode,
    i: usize,
)
    requires
        s.editing,
        code == KeyCode::Left || code == KeyCode::Right || code == KeyCode::Up || code
            == KeyCode::Down,
        i != s.selected,
    ensures
        setting_value(settings_after(s, code, o, typed).0.draft, o, i) == setting_value(
            s.draft,
            o,
            i,
        ) || s.selected == 14,
{
}

/// A share that ends says in how many days, red up to three and yellow up to seven.
pub proof fn law_end_of_a_share_is_shown(n: nat)
    requires
        0 < n <= 0x7fff_ffff_ffff_ffff,
    ensures
        expiry_text(decimal(n)) == decimal(n) + " days"@,
        n <= 3 ==> expiry_color(decimal(n)) == Color::Red,
        3 < n <= 7 ==> expiry_color(decimal(n)) == Color::Yellow,
        n > 7 ==> expiry_color(decimal(n)) == Color::DarkGray,
{
    law_written_number_is_read_again(n, 0x7fff_ffff_ffff_ffff);
    law_written_number_is_read_again(0, 0x7fff_ffff_ffff_ffff);
    reveal_strlit("");
    reveal_strlit("-1");
    reveal_strlit("0");
    let d = decimal(n);
    assert(decimal(0) =~= "0"@);
    if d.len() > 0 && d[0] == '-' {
        assert(!is_digit(d[0]));
        assert(!all_digits(d));
    }
    assert(d.len() > 0);
    assert(d != "-1"@) by {
        assert("-1"@[0] == '-');
    }
    assert(d != "0"@);
}

/// A share without an end, or that never ends, says so.
pub proof fn law_endless_share_is_shown()
    ensures
        expiry_text(""@) == "permanent"@,
        expiry_text("-1"@) == "permanent"@,
        expiry_text("0"@) == "permanent"@,
        expiry_color("-1"@) == Color::Green,
{
}

} // verus!
