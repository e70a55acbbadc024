//! What holds of the mouse.

use crate::app::AppView;
use crate::event::{KeyCode, KeyModifiers, MouseEvent, MouseEventKind};
use crate::geometry::{list_index, Rect};
use crate::model::{EntryKind, ModeView};
use crate::mouse::{logs_wheeled, wheeled};
use crate::navigate::NormalAction;
use vstd::prelude::*;

verus! {

/// A click inside the main pane selects the entry that is drawn in that row, and asks for nothing.
pub proof fn law_click_selects_the_row_under_it(a: AppView, col: u16, row: u16)
    requires
        a.screen.current_pane_area.holds_inside(col, row),
        a.entries.len() <= usize::MAX,
    ensures
        ({
            let b = a.panes_clicked(col, row, false);
            let i = a.screen.scroll_offset + (row - a.screen.current_pane_area.y - 1);
            &&& i < a.entries.len() ==> b.selected == i
            &&& i >= a.entries.len() ==> b == a
            &&& b.entries == a.entries && b.cart == a.cart && b.breadcrumb == a.breadcrumb
            &&& a.asks_nothing(b) && a.is_silent(b) && b.input == a.input
        }),
{
}

/// A second click on it opens that entry, as Enter does.
pub proof fn law_double_click_opens_the_row_under_it(a: AppView, col: u16, row: u16)
    requires
        a.screen.current_pane_area.holds_inside(col, row),
        a.screen.scroll_offset + (row - a.screen.current_pane_area.y - 1) < a.entries.len()
            <= usize::MAX,
    ensures
        a.panes_clicked(col, row, true) == a.panes_clicked(col, row, false).acted(
            NormalAction::Open,
        ),
{
    reveal(AppView::acted);
}

/// A click inside the pane of the folder above marks the row under it there, and asks for nothing.
pub proof fn law_click_marks_the_parent_row_under_it(a: AppView, col: u16, row: u16)
    requires
        !a.screen.current_pane_area.holds_inside(col, row),
        a.screen.parent_pane_area.holds_inside(col, row),
        a.parent_entries.len() <= usize::MAX,
    ensures
        ({
            let i = a.screen.parent_scroll_offset + (row - a.screen.parent_pane_area.y - 1);
            &&& i < a.parent_entries.len() ==> a.panes_clicked(col, row, false) == (AppView {
                parent_selected: i as usize,
                ..a
            })
            &&& i >= a.parent_entries.len() ==> a.panes_clicked(col, row, false) == a
        }),
{
}

/// A click beside the panes does nothing.
pub proof fn law_click_beside_the_panes_does_nothing(
    a: AppView,
    col: u16,
    row: u16,
    double: bool,
)
    requires
        !a.screen.current_pane_area.holds_inside(col, row),
        !a.screen.parent_pane_area.holds_inside(col, row),
        !a.screen.preview_pane_area.holds(col, row),
    ensures
        a.panes_clicked(col, row, double) == a,
{
}

/// A list is clicked at the item that is drawn in that row.
pub proof fn law_list_is_clicked_at_the_drawn_item(
    col: u16,
    row: u16,
    area: Rect,
    first_row: u16,
    offset: usize,
    visible: usize,
)
    requires
        offset + row <= usize::MAX,
        visible < 0x10000,
        area.x + area.width <= u16::MAX,
        area.y + area.height <= u16::MAX,
    ensures
        match list_index(col, row, area, first_row, offset, visible) {
            Some(i) => i - offset == row - first_row && offset <= i < offset + visible
                && area.holds(col, row),
            None => !(area.x < col < area.x + area.width - 1 && area.y <= row < area.y + area.height
                && first_row <= row < first_row + visible),
        },
{
}

/// The wheel goes up or down by its step, but never beyond the first or the last item.
pub proof fn law_wheel_goes_by_its_step(selected: usize, len: nat, step: int)
    requires
        selected < len <= usize::MAX,
        0 < step,
    ensures
        wheeled(selected, true, len, step) == (if selected >= step { selected - step } else { 0 }),
        wheeled(selected, false, len, step) == (if selected + step < len {
            selected + step
        } else {
            len - 1
        }),
{
}

/// The wheel over the main pane moves the cursor by three rows, and asks for nothing.
pub proof fn law_wheel_moves_the_cursor(a: AppView, col: u16, row: u16, up: bool)
    requires
        a.input is Normal,
        !(a.show_logs_overlay && a.screen.logs_overlay_area.holds(col, row)),
        a.screen.current_pane_area.holds(col, row),
        a.selected < a.entries.len() <= usize::MAX,
    ensures
        ({
            let b = a.scrolled(col, row, up);
            let to = if up { a.selected - 3 } else { a.selected + 3 };
            let last = a.entries.len() - 1;
            &&& b.selected == (if to < 0 { 0 } else if to > last { last } else { to })
            &&& b.entries == a.entries && b.cart == a.cart
            &&& a.asks_nothing(b) && a.is_silent(b) && b.input is Normal
        }),
{
}

/// The wheel over the pane of the folder above moves the mark there.
pub proof fn law_wheel_moves_the_parent_mark(a: AppView, col: u16, row: u16, up: bool)
    requires
        a.input is Normal,
        !(a.show_logs_overlay && a.screen.logs_overlay_area.holds(col, row)),
        !a.screen.current_pane_area.holds(col, row),
        a.screen.parent_pane_area.holds(col, row),
        a.parent_selected < a.parent_entries.len() <= usize::MAX,
    ensures
        ({
            let to = if up { a.parent_selected - 3 } else { a.parent_selected + 3 };
            let last = a.parent_entries.len() - 1;
            a.scrolled(col, row, up) == (AppView {
                parent_selected: (if to < 0 { 0 } else if to > last { last } else { to }) as usize,
                ..a
            })
        }),
{
}

/// The wheel in a page moves its cursor by one row, and nothing else.
pub proof fn law_wheel_moves_the_cursor_of_a_page(a: AppView, col: u16, row: u16, up: bool)
    ensures
        a.input is CartView && a.cart_selected < a.cart.len() <= usize::MAX ==> a.scrolled(
            col,
            row,
            up,
        ) == (AppView {
            cart_selected: (if up {
                if a.cart_selected > 0 { a.cart_selected - 1 } else { 0 }
            } else if a.cart_selected + 1 < a.cart.len() {
                a.cart_selected + 1
            } else {
                a.cart_selected as int
            }) as usize,
            ..a
        }),
        a.input is DownloadView && a.downloads_selected < a.downloads.len() <= usize::MAX
            ==> a.scrolled(col, row, up) == (AppView {
            downloads_selected: (if up {
                if a.downloads_selected > 0 { a.downloads_selected - 1 } else { 0 }
            } else if a.downloads_selected + 1 < a.downloads.len() {
                a.downloads_selected + 1
            } else {
                a.downloads_selected as int
            }) as usize,
            ..a
        }),
{
}

/// The logs scroll by three lines between the first and the last, and at the last they follow what
/// is told.
pub proof fn law_logs_scroll(at: usize, max: int)
    requires
        0 <= at <= max <= usize::MAX,
    ensures
        logs_wheeled(Some(at), true, max) == Some((if at >= 3 { at - 3 } else { 0 }) as usize),
        logs_wheeled(Some(at), false, max) == (if at + 3 < max {
            Some((at + 3) as usize)
        } else {
            None
        }),
        logs_wheeled(None, true, max) == Some((if max >= 3 { max - 3 } else { 0 }) as usize),
        logs_wheeled(None, false, max) is None,
{
}

/// Two clicks are one double click where they are on the same cell and less than 400 milliseconds
/// apart.
pub proof fn law_double_click(a: AppView, col: u16, row: u16)
    requires
        a.clock.now >= a.clock.last_click_time,
    ensures
        a.is_double_click(col, row) <==> a.clock.now - a.clock.last_click_time < 400
            && a.last_click_pos == (col, row),
        a.click_noted(col, row).last_click_pos == (col, row),
        a.click_noted(col, row).clock.last_click_time == a.clock.now,
        a.click_noted(col, row).is_double_click(col, row),
{
}

/// While the help is open, a click closes it and does nothing else, and the wheel scrolls it by
/// three lines.
pub proof fn law_mouse_in_the_help(a: AppView, e: MouseEvent, hit: Option<(usize, bool)>)
    requires
        a.show_help_sheet,
        a.help_scroll <= a.screen.help_scroll_max,
    ensures
        ({
            let b = a.moused(e, hit);
            &&& e.kind == MouseEventKind::LeftDown ==> b == (AppView {
                show_help_sheet: false,
                help_scroll: 0,
                ..a
            })
            &&& e.kind == MouseEventKind::ScrollUp ==> b == (AppView {
                help_scroll: (if a.help_scroll >= 3 { a.help_scroll - 3 } else { 0 }) as usize,
                ..a
            })
            &&& e.kind == MouseEventKind::ScrollDown ==> b == (AppView {
                help_scroll: (if a.help_scroll + 3 <= a.screen.help_scroll_max {
                    a.help_scroll + 3
                } else {
                    a.screen.help_scroll_max as int
                }) as usize,
                ..a
            })
        }),
{
}

/// A click on a row of a page selects that row, and nothing else happens.
pub proof fn law_click_selects_the_row_of_a_page(a: AppView, i: usize)
    ensures
        a.input is CartView ==> a.row_clicked(i, false) == (AppView { cart_selected: i, ..a }),
        a.input is DownloadView ==> a.row_clicked(i, false) == (AppView {
            downloads_selected: i,
            ..a
        }),
        a.input is ActionMenu ==> a.row_clicked(i, false) == (AppView {
            input: ModeView::ActionMenu { selected: i },
            ..a
        }),
        a.input is PlayPicker ==> a.row_clicked(i, false) == (AppView {
            input: ModeView::PlayPicker {
                name: a.input->PlayPicker_name,
                medias: a.input->PlayPicker_medias,
                selected: i,
            },
            ..a
        }),
        a.input is OfflineTasksView ==> a.row_clicked(i, false) == (AppView {
            input: ModeView::OfflineTasksView {
                tasks: a.input->OfflineTasksView_tasks,
                selected: i,
            },
            ..a
        }),
        a.input is MySharesView ==> a.row_clicked(i, false) == (AppView {
            input: ModeView::MySharesView {
                shares: a.input->MySharesView_shares,
                selected: i,
                confirm_delete: a.input->MySharesView_confirm_delete,
            },
            ..a
        }),
        a.input is TrashView ==> a.row_clicked(i, false) == (AppView {
            input: ModeView::TrashView {
                entries: a.input->TrashView_entries,
                selected: i,
                expanded: a.input->TrashView_expanded,
            },
            trash_selected: i,
            ..a
        }),
{
}

/// The left button clicks where it is, the wheel scrolls there, and every click is remembered.
pub proof fn law_mouse_acts_where_it_is(a: AppView, e: MouseEvent, hit: Option<(usize, bool)>)
    requires
        !a.show_help_sheet,
        !(a.input is InfoLoading),
    ensures
        ({
            let c = a.modal_invalidated();
            let b = a.moused(e, hit);
            &&& e.kind == MouseEventKind::ScrollUp ==> b == c.scrolled(e.column, e.row, true)
            &&& e.kind == MouseEventKind::ScrollDown ==> b == c.scrolled(e.column, e.row, false)
            &&& e.kind == MouseEventKind::LeftDown ==> b == c.click_noted(e.column, e.row).clicked(
                e.column,
                e.row,
                c.is_double_click(e.column, e.row),
                hit,
            )
            &&& e.kind == MouseEventKind::Other ==> b == c
        }),
{
}

/// A click on the logs does nothing behind them.
pub proof fn law_logs_take_the_click(
    a: AppView,
    col: u16,
    row: u16,
    double: bool,
    hit: Option<(usize, bool)>,
)
    requires
        !a.show_help_sheet,
        a.show_logs_overlay,
        a.screen.logs_overlay_area.holds(col, row),
    ensures
        a.clicked(col, row, double, hit) == a,
{
}

/// A double click on a row of the cart, the trash, the streams or the actions does what Enter does
/// on that row. Elsewhere it only selects.
pub proof fn law_double_click_on_a_row(a: AppView, i: usize)
    ensures
        a.input is CartView || a.input is TrashView || a.input is PlayPicker || a.input
            is ActionMenu ==> a.row_clicked(i, true) == a.row_clicked(i, false).key_handled(
            KeyCode::Enter,
            KeyModifiers { control: false, alt: false },
        ),
        a.input is DownloadView || a.input is OfflineTasksView || a.input is MySharesView
            ==> a.row_clicked(i, true) == a.row_clicked(i, false),
{
    reveal(AppView::key_handled);
}

/// A double click in the pane of the folder above goes up and, from there, into the folder that was
/// clicked.
pub proof fn law_double_click_in_the_parent_pane(a: AppView, row: u16)
    requires
        a.parent_entries.len() <= usize::MAX,
        a.screen.parent_scroll_offset + (row - a.screen.parent_pane_area.y - 1)
            < a.parent_entries.len(),
        a.screen.parent_pane_area.y < row,
    ensures
        ({
            let i = a.screen.parent_scroll_offset + (row - a.screen.parent_pane_area.y - 1);
            let up = (AppView { parent_selected: i as usize, ..a }).acted(NormalAction::Leave);
            let folder = up.selected < up.entries.len() && up.entries[up.selected as int].kind
                == EntryKind::Folder;
            a.parent_clicked(row, true) == (if folder {
                up.acted(NormalAction::Open)
            } else {
                up
            })
        }),
{
    reveal(AppView::acted);
}

} // verus!
