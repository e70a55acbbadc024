//! Rectangles of terminal cells.

use vstd::prelude::*;

verus! {

#[derive(Clone, Copy, Debug, PartialEq, Eq, Structural)]
pub struct Rect {
    pub x: u16,
    pub y: u16,
    pub width: u16,
    pub height: u16,
}

impl Rect {
    pub fn new(x: u16, y: u16, width: u16, height: u16) -> (r: Rect)
        ensures
            r == (Rect { x, y, width, height }),
    {
        Rect { x, y, width, height }
    }

    /// Whether a cell lies in the rectangle.
    pub open spec fn holds(self, col: u16, row: u16) -> bool {
        &&& self.x <= col < self.x + self.width
        &&& self.y <= row < self.y + self.height
    }

    /// Whether a cell lies in the rectangle and not on its one cell wide border.
    pub open spec fn holds_inside(self, col: u16, row: u16) -> bool {
        &&& self.x < col < self.x + self.width - 1
        &&& self.y < row < self.y + self.height - 1
    }
}

/// Whether a cell lies in a rectangle.
pub fn is_in_rect(col: u16, row: u16, rect: Rect) -> (r: bool)
    ensures
        r == rect.holds(col, row),
{
    col >= rect.x && (col as u32) < (rect.x as u32) + (rect.width as u32) && row >= rect.y && (
    row as u32) < (rect.y as u32) + (rect.height as u32)
}

/// Whether a cell lies inside of the border of a rectangle: a click on the top border must not
/// select the first row, nor one on the bottom border a row past the visible ones.
pub fn is_in_content(col: u16, row: u16, rect: Rect) -> (r: bool)
    ensures
        r == rect.holds_inside(col, row),
{
    rect.width > 2 && rect.height > 2 && col > rect.x && (col as u32) + 1 < (rect.x as u32) + (
    rect.width as u32) && row > rect.y && (row as u32) + 1 < (rect.y as u32) + (rect.height as u32)
}

pub open spec fn min_int(a: int, b: int) -> int {
    if a <= b {
        a
    } else {
        b
    }
}

pub open spec fn max_int(a: int, b: int) -> int {
    if a >= b {
        a
    } else {
        b
    }
}

/// The item of a list under a cell. The rows of the list begin at `first_row` and show the items
/// from `offset` on; the cells of the left and right border belong to none.
pub open spec fn list_index(
    col: u16,
    row: u16,
    area: Rect,
    first_row: u16,
    offset: usize,
    visible: usize,
) -> Option<usize> {
    let right = min_int(area.x + area.width, u16::MAX as int) - 1;
    let bottom = min_int(area.y + area.height, u16::MAX as int);
    if area.x < col < right && area.y <= row < bottom && first_row <= row && row - first_row
        < visible % 0x10000 {
        Some(min_int(offset + (row - first_row), usize::MAX as int) as usize)
    } else {
        None
    }
}

pub fn mouse_list_index(
    col: u16,
    row: u16,
    area: Rect,
    first_row: u16,
    offset: usize,
    visible: usize,
) -> (r: Option<usize>)
    ensures
        r == list_index(col, row, area, first_row, offset, visible),
{
    let right: u16 = area.x.saturating_add(area.width).saturating_sub(1);
    let bottom: u16 = area.y.saturating_add(area.height);
    let inside: bool = col > area.x && col < right && row >= area.y && row < bottom;
    if inside && row >= first_row && ((row - first_row) as usize) < visible % 0x10000 {
        Some(offset.saturating_add((row - first_row) as usize))
    } else {
        None
    }
}

/// What the last drawing of the screen left behind for the mouse and for paging.
#[derive(Clone, Copy, Debug, PartialEq, Eq, Structural)]
pub struct ScreenState {
    pub current_pane_area: Rect,
    pub parent_pane_area: Rect,
    pub preview_pane_area: Rect,
    pub logs_overlay_area: Rect,
    pub settings_area: Rect,
    pub scroll_offset: usize,
    pub parent_scroll_offset: usize,
    pub list_area_height: u16,
    pub mouse_list_area: Rect,
    pub mouse_list_first_row: u16,
    pub mouse_list_offset: usize,
    pub mouse_list_visible: usize,
    pub help_scroll_max: usize,
}

impl ScreenState {
    pub open spec fn blank_spec() -> ScreenState {
        let none = Rect { x: 0, y: 0, width: 0, height: 0 };
        ScreenState {
            current_pane_area: none,
            parent_pane_area: none,
            preview_pane_area: none,
            logs_overlay_area: none,
            settings_area: none,
            scroll_offset: 0,
            parent_scroll_offset: 0,
            list_area_height: 0,
            mouse_list_area: none,
            mouse_list_first_row: 0,
            mouse_list_offset: 0,
            mouse_list_visible: 0,
            help_scroll_max: 0,
        }
    }

    pub fn blank() -> (r: ScreenState)
        ensures
            r == ScreenState::blank_spec(),
    {
        let none: Rect = Rect::new(0, 0, 0, 0);
        ScreenState {
            current_pane_area: none,
            parent_pane_area: none,
            preview_pane_area: none,
            logs_overlay_area: none,
            settings_area: none,
            scroll_offset: 0,
            parent_scroll_offset: 0,
            list_area_height: 0,
            mouse_list_area: none,
            mouse_list_first_row: 0,
            mouse_list_offset: 0,
            mouse_list_visible: 0,
            help_scroll_max: 0,
        }
    }
}

} // verus!
