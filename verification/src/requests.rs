//! What the host has to find out before the screen can be drawn.

use crate::app::{App, AppView};
use crate::areas::Areas;
use crate::geometry::{is_in_rect, max_int, Rect};
use crate::keys::ACTION_COUNT;
use crate::lists::{menu_room, room_in_menu, room_in_trash, trash_room, CART_ROWS, TASK_ROWS};
use crate::model::{InputMode, ModeView, TuiConfig};
use crate::screen::trash_area;
use crate::setting_items::{
    categories_view, items_view, settings_items, settings_layout, SettingsCategory,
};
use crate::share_pages::{room_for_shares, shares_room};
use crate::text::Chars;
use vstd::prelude::*;

verus! {

/// An overlay that is as high as the rows of its list, within bounds in percent.
#[derive(Clone, Copy, Debug, PartialEq, Eq, Structural)]
pub struct HeightRequest {
    pub rows: usize,
    /// The most rows that are shown at once.
    pub most: usize,
    pub lowest: u16,
    pub highest: u16,
}

/// A list that is scrolled so that the selected row is seen.
#[derive(Clone, Copy, Debug)]
pub struct ListRequest {
    pub selected: usize,
    pub visible: usize,
    pub rows: usize,
    /// What is told where there are no rows.
    pub empty: &'static str,
}

pub struct ListRequestView {
    pub selected: usize,
    pub visible: usize,
    pub rows: nat,
    pub empty: Chars,
}

pub open spec fn request_view(r: Option<ListRequest>) -> Option<ListRequestView> {
    match r {
        Some(q) => Some(
            ListRequestView {
                selected: q.selected,
                visible: q.visible,
                rows: q.rows as nat,
                empty: q.empty@,
            },
        ),
        None => None,
    }
}

/// The settings, which are scrolled so that the selected one is seen.
#[derive(Debug)]
pub struct SettingsRequest {
    pub selected: usize,
    /// How many settings each heading has.
    pub counts: Vec<usize>,
    /// The rows for them.
    pub visible: usize,
}

fn count_settings(v: &Vec<SettingsCategory>) -> (r: Vec<usize>)
    ensures
        r@.len() == v@.len(),
        forall|i: int| 0 <= i < r@.len() ==> #[trigger] r@[i] == v@[i].items@.len(),
{
    let mut out: Vec<usize> = Vec::new();
    let mut i: usize = 0;
    while i < v.len()
        invariant
            i <= v@.len(),
            out@.len() == i,
            forall|k: int| 0 <= k < i ==> #[trigger] out@[k] == v@[k].items@.len(),
        decreases v@.len() - i,
    {
        out.push(v[i].items.len());
        i += 1;
    }
    out
}

impl AppView {
    /// The overlay whose height goes by the rows of its list.
    pub open spec fn height_request(self) -> Option<HeightRequest> {
        let cart = HeightRequest {
            rows: self.cart.len() as usize,
            most: CART_ROWS,
            lowest: 25,
            highest: 70,
        };
        match self.input {
            ModeView::CartView => Some(cart),
            ModeView::SharePrompt => Some(cart),
            ModeView::ShareCreatedView { .. } => Some(cart),
            ModeView::OfflineTasksView { tasks, .. } => Some(
                HeightRequest {
                    rows: tasks.len() as usize,
                    most: TASK_ROWS,
                    lowest: 25,
                    highest: 75,
                },
            ),
            ModeView::TrashView { entries, .. } => Some(
                HeightRequest { rows: entries.len() as usize, most: 15, lowest: 25, highest: 75 },
            ),
            ModeView::InfoView { .. } => Some(
                HeightRequest {
                    rows: self.trash_entries.len() as usize,
                    most: 15,
                    lowest: 25,
                    highest: 75,
                },
            ),
            _ => None,
        }
    }

    /// The list that is shown.
    pub open spec fn list_request(self, a: Areas) -> Option<ListRequestView> {
        let cart = ListRequestView {
            selected: self.cart_selected,
            visible: CART_ROWS,
            rows: self.cart.len(),
            empty: "Cart is empty. Press 'a' on files to add them."@,
        };
        match self.input {
            ModeView::CartView => Some(cart),
            ModeView::SharePrompt => Some(cart),
            ModeView::ShareCreatedView { .. } => Some(cart),
            ModeView::OfflineTasksView { tasks, selected } => Some(
                ListRequestView {
                    selected,
                    visible: TASK_ROWS,
                    rows: tasks.len(),
                    empty: "No offline tasks. Press 'o' to add a URL."@,
                },
            ),
            ModeView::TrashView { entries, selected, expanded } => Some(
                ListRequestView {
                    selected,
                    visible: trash_room(
                        trash_area(expanded, a.main, a.overlay),
                        expanded,
                    ) as usize,
                    rows: entries.len(),
                    empty: "Trash is empty."@,
                },
            ),
            ModeView::InfoView { .. } => Some(
                ListRequestView {
                    selected: self.trash_selected,
                    visible: trash_room(
                        trash_area(self.trash_expanded, a.main, a.below),
                        self.trash_expanded,
                    ) as usize,
                    rows: self.trash_entries.len(),
                    empty: "Trash is empty."@,
                },
            ),
            ModeView::ActionMenu { selected } => Some(
                ListRequestView {
                    selected,
                    visible: menu_room(a.overlay) as usize,
                    rows: ACTION_COUNT as nat,
                    empty: ""@,
                },
            ),
            ModeView::MySharesView { shares, selected, .. } => Some(
                ListRequestView {
                    selected,
                    visible: shares_room(a.halves.0) as usize,
                    rows: shares.len(),
                    empty: "No shares found."@,
                },
            ),
            _ => None,
        }
    }

    /// The line of the settings under a cell, while none of them is being typed.
    pub open spec fn line_of_settings(self, col: u16, row: u16) -> Option<usize> {
        let area = self.screen.settings_area;
        match self.input {
            ModeView::Settings { editing, .. } => if !editing && area.holds(col, row) {
                Some(max_int(row - (area.y + 1), 0) as usize)
            } else {
                None
            },
            _ => None,
        }
    }

    /// The setting that is selected on the page of the settings.
    pub open spec fn settings_selected(self) -> Option<usize> {
        match self.input {
            ModeView::Settings { selected, .. } => Some(selected),
            ModeView::ConfirmDiscardSettings { selected, .. } => Some(selected),
            _ => None,
        }
    }
}

impl App {
    /// Tells of the overlay whose height goes by the rows of its list.
    pub fn request_height(&self) -> (r: Option<HeightRequest>)
        ensures
            r == self@.height_request(),
    {
        let cart: HeightRequest = HeightRequest {
            rows: self.cart.len(),
            most: CART_ROWS,
            lowest: 25,
            highest: 70,
        };
        match &self.input {
            InputMode::CartView => Some(cart),
            InputMode::SharePrompt => Some(cart),
            InputMode::ShareCreatedView { .. } => Some(cart),
            InputMode::OfflineTasksView { tasks, .. } => Some(
                HeightRequest { rows: tasks.len(), most: TASK_ROWS, lowest: 25, highest: 75 },
            ),
            InputMode::TrashView { entries, .. } => Some(
                HeightRequest { rows: entries.len(), most: 15, lowest: 25, highest: 75 },
            ),
            InputMode::InfoView { .. } => Some(
                HeightRequest {
                    rows: self.trash_entries.len(),
                    most: 15,
                    lowest: 25,
                    highest: 75,
                },
            ),
            _ => None,
        }
    }

    fn request_trash(&self, area: Rect, rows: usize, selected: usize, expanded: bool) -> (r:
        Option<ListRequest>)
        ensures
            request_view(r) == Some(
                ListRequestView {
                    selected,
                    visible: trash_room(area, expanded) as usize,
                    rows: rows as nat,
                    empty: "Trash is empty."@,
                },
            ),
    {
        Some(
            ListRequest {
                selected,
                visible: room_in_trash(area, expanded),
                rows,
                empty: "Trash is empty.",
            },
        )
    }

    /// Tells of the list that is shown.
    pub fn request_list(&self, a: Areas) -> (r: Option<ListRequest>)
        ensures
            request_view(r) == self@.list_request(a),
    {
        let cart: ListRequest = ListRequest {
            selected: self.cart_selected,
            visible: CART_ROWS,
            rows: self.cart.len(),
            empty: "Cart is empty. Press 'a' on files to add them.",
        };
        match &self.input {
            InputMode::CartView => Some(cart),
            InputMode::SharePrompt => Some(cart),
            InputMode::ShareCreatedView { .. } => Some(cart),
            InputMode::OfflineTasksView { tasks, selected } => Some(
                ListRequest {
                    selected: *selected,
                    visible: TASK_ROWS,
                    rows: tasks.len(),
                    empty: "No offline tasks. Press 'o' to add a URL.",
                },
            ),
            InputMode::TrashView { entries, selected, expanded } => {
                let area: Rect = if *expanded {
                    a.main
                } else {
                    a.overlay
                };
                self.request_trash(area, entries.len(), *selected, *expanded)
            },
            InputMode::InfoView { .. } => {
                let area: Rect = if self.trash_expanded {
                    a.main
                } else {
                    a.below
                };
                self.request_trash(
                    area,
                    self.trash_entries.len(),
                    self.trash_selected,
                    self.trash_expanded,
                )
            },
            InputMode::ActionMenu { selected } => Some(
                ListRequest {
                    selected: *selected,
                    visible: room_in_menu(a.overlay),
                    rows: ACTION_COUNT,
                    empty: "",
                },
            ),
            InputMode::MySharesView { shares, selected, .. } => Some(
                ListRequest {
                    selected: *selected,
                    visible: room_for_shares(a.halves.0),
                    rows: shares.len(),
                    empty: "No shares found.",
                },
            ),
            _ => None,
        }
    }

    fn request_page(&self, selected: usize, draft: &TuiConfig, area: Rect) -> (r: SettingsRequest)
        ensures
            r.selected == selected,
            r.visible == max_int(area.height - 4, 0),
            r.counts@ == seq![5usize, 5, 2, 2, 1, 1, 1],
    {
        let items: Vec<SettingsCategory> = settings_items(draft, &self.options);
        let ghost cats = settings_layout(draft@, self.options);
        let counts: Vec<usize> = count_settings(&items);
        let ghost seen = categories_view(items@);
        assert(items@.len() == seen.len());
        assert forall|i: int| 0 <= i < 7 implies #[trigger] items@[i].items@.len()
            == cats[i].items.len() by {
            assert(seen[i] == items@[i]@);
            assert(items_view(items@[i].items@).len() == seen[i].items.len());
        }
        assert(counts@[0] == 5 && counts@[1] == 5 && counts@[2] == 2 && counts@[3] == 2);
        assert(counts@[4] == 1 && counts@[5] == 1 && counts@[6] == 1);
        assert(counts@ =~= seq![5usize, 5, 2, 2, 1, 1, 1]);
        SettingsRequest { selected, counts, visible: area.height.saturating_sub(4) as usize }
    }

    /// Tells of the settings on their page, which stands in `area`.
    pub fn request_settings(&self, area: Rect) -> (r: Option<SettingsRequest>)
        ensures
            r is Some <==> self@.settings_selected() is Some,
            match r {
                Some(q) => Some(q.selected) == self@.settings_selected() && q.visible == max_int(
                    area.height - 4,
                    0,
                ) && q.counts@ == seq![5usize, 5, 2, 2, 1, 1, 1],
                None => true,
            },
    {
        match &self.input {
            InputMode::Settings { selected, draft, .. } => Some(
                self.request_page(*selected, draft, area),
            ),
            InputMode::ConfirmDiscardSettings { selected, draft } => Some(
                self.request_page(*selected, draft, area),
            ),
            _ => None,
        }
    }

    /// The line of the settings under a cell, counted from the first one that is shown. There is
    /// none while a setting is being typed.
    pub fn settings_line(&self, col: u16, row: u16) -> (r: Option<usize>)
        ensures
            r == self@.line_of_settings(col, row),
    {
        match &self.input {
            InputMode::Settings { editing, .. } => {
                let area: Rect = self.screen.settings_area;
                if !*editing && is_in_rect(col, row, area) {
                    Some(row.saturating_sub(area.y.saturating_add(1)) as usize)
                } else {
                    None
                }
            },
            _ => None,
        }
    }
}

} // verus!
