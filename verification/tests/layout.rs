use pikpaktui::folder_listing_matches;
use pikpaktui::geometry::{mouse_list_index, Rect};
use pikpaktui::help_layout::{
    balanced_help_columns, help_column_count, help_column_widths, help_item_parts,
    help_sheet_width, main_layout_mode, MainLayoutMode,
};
use pikpaktui::media::format_size;
use unicode_width::UnicodeWidthStr;

#[test]
fn help_sheet_never_exceeds_a_narrow_terminal() {
    for terminal_width in [0, 1, 20, 40, 44, 100] {
        assert!(help_sheet_width(terminal_width) <= terminal_width);
    }
    assert_eq!(help_sheet_width(40), 40);
    assert_eq!(help_sheet_width(100), 92);
}

#[test]
fn narrow_help_uses_fewer_columns_before_descriptions_collapse() {
    assert_eq!(help_column_count(90, 3, 8), 3);
    assert_eq!(help_column_count(44, 3, 8), 2);
    assert_eq!(help_column_count(38, 3, 8), 1);
    assert_eq!(help_column_count(30, 3, 8), 1);
    assert_eq!(help_column_count(17, 3, 8), 1);
}

#[test]
fn no_sections_take_no_columns() {
    assert_eq!(help_column_count(90, 0, 8), 0);
    assert!(help_column_widths(90, 0).is_empty());
    assert!(balanced_help_columns(&vec![], 3).is_empty());
    assert!(balanced_help_columns(&vec![1, 2], 0).is_empty());
}

#[test]
fn main_layout_reduces_panes_at_responsive_breakpoints() {
    assert_eq!(main_layout_mode(120, true), MainLayoutMode::ThreePane);
    assert_eq!(main_layout_mode(80, true), MainLayoutMode::CurrentPreview);
    assert_eq!(main_layout_mode(50, true), MainLayoutMode::CurrentOnly);
    assert_eq!(main_layout_mode(80, false), MainLayoutMode::ParentCurrent);
    assert_eq!(main_layout_mode(50, false), MainLayoutMode::CurrentOnly);
}

#[test]
fn main_layout_changes_exactly_at_its_breakpoints() {
    assert_eq!(main_layout_mode(96, true), MainLayoutMode::ThreePane);
    assert_eq!(main_layout_mode(95, true), MainLayoutMode::CurrentPreview);
    assert_eq!(main_layout_mode(64, true), MainLayoutMode::CurrentPreview);
    assert_eq!(main_layout_mode(63, true), MainLayoutMode::CurrentOnly);
    assert_eq!(main_layout_mode(60, false), MainLayoutMode::ParentCurrent);
    assert_eq!(main_layout_mode(59, false), MainLayoutMode::CurrentOnly);
}

#[test]
fn help_columns_use_every_available_display_cell() {
    let widths = help_column_widths(89, 3);
    assert_eq!(widths.iter().sum::<usize>(), 89);
    assert!(widths.iter().max().unwrap() - widths.iter().min().unwrap() <= 1);
}

#[test]
fn left_over_cells_go_to_the_first_columns() {
    assert_eq!(help_column_widths(89, 3), vec![30, 30, 29]);
}

#[test]
fn unicode_help_item_is_exactly_one_column_wide() {
    let (key, desc) = help_item_parts(" ", "快捷键", "移动到父目录", 8, 20);
    assert_eq!(UnicodeWidthStr::width(format!("{key}{desc}").as_str()), 20);

    let (key, desc) = help_item_parts(" ", "快捷键", "移动", 8, 6);
    assert_eq!(UnicodeWidthStr::width(format!("{key}{desc}").as_str()), 6);
}

#[test]
fn a_help_item_is_its_key_and_its_description() {
    let (key, desc) = help_item_parts(" ", "j", "Move down", 4, 20);
    assert_eq!(key, " j    ");
    assert_eq!(desc, "Move down     ");
}

#[test]
fn stacked_sections_are_assigned_to_the_shortest_column() {
    assert_eq!(
        balanced_help_columns(&vec![15, 9, 11], 2),
        vec![vec![0], vec![1, 2]]
    );
}

#[test]
fn every_section_is_put_into_one_column() {
    let columns = balanced_help_columns(&vec![4, 4, 4, 1, 9], 3);
    assert_eq!(columns, vec![vec![0, 3], vec![1, 4], vec![2]]);
}

#[test]
fn older_listing_for_same_folder_cannot_replace_newer_listing() {
    assert!(!folder_listing_matches("folder-a", 8, "folder-a", 7));
    assert!(folder_listing_matches("folder-a", 8, "folder-a", 8));
}

#[test]
fn list_hit_testing_maps_visible_rows_through_scroll_offset() {
    let area = Rect::new(10, 5, 30, 12);
    assert_eq!(mouse_list_index(12, 7, area, 7, 4, 6), Some(4));
    assert_eq!(mouse_list_index(12, 10, area, 7, 4, 6), Some(7));
}

#[test]
fn list_hit_testing_rejects_borders_and_rows_beyond_items() {
    let area = Rect::new(10, 5, 30, 12);
    assert_eq!(mouse_list_index(10, 7, area, 7, 0, 3), None);
    assert_eq!(mouse_list_index(9, 7, area, 7, 0, 3), None);
    assert_eq!(mouse_list_index(12, 6, area, 7, 0, 3), None);
    assert_eq!(mouse_list_index(12, 10, area, 7, 0, 3), None);
}

fn size_by_float(bytes: u64) -> String {
    const KB: u64 = 1024;
    const MB: u64 = 1024 * KB;
    const GB: u64 = 1024 * MB;
    const TB: u64 = 1024 * GB;
    if bytes >= TB {
        format!("{:.1} TB", bytes as f64 / TB as f64)
    } else if bytes >= GB {
        format!("{:.1} GB", bytes as f64 / GB as f64)
    } else if bytes >= MB {
        format!("{:.1} MB", bytes as f64 / MB as f64)
    } else if bytes >= KB {
        format!("{:.1} KB", bytes as f64 / KB as f64)
    } else {
        format!("{} B", bytes)
    }
}

#[test]
fn sizes_are_written_in_the_largest_unit_that_they_fill() {
    assert_eq!(format_size(0), "0 B");
    assert_eq!(format_size(1023), "1023 B");
    assert_eq!(format_size(1024), "1.0 KB");
    assert_eq!(format_size(1536), "1.5 KB");
    assert_eq!(format_size(1280), "1.2 KB");
    assert_eq!(format_size(1792), "1.8 KB");
    assert_eq!(format_size(5 * 1024 * 1024), "5.0 MB");
    assert_eq!(format_size(1024 * 1024 - 1), "1024.0 KB");
    assert_eq!(format_size(3 * 1024 * 1024 * 1024), "3.0 GB");
    assert_eq!(format_size(1 << 40), "1.0 TB");
}

#[test]
fn sizes_agree_with_the_rounding_of_floats() {
    let mut bytes: u64 = 1;
    let mut step: u64 = 7;
    for _ in 0..4000 {
        assert_eq!(format_size(bytes), size_by_float(bytes), "{bytes}");
        step = step.wrapping_mul(6364136223846793005).wrapping_add(1442695040888963407);
        bytes = step >> (step % 64);
    }
    for shift in 0..64 {
        for delta in [0u64, 1, 2, 3, 1023, 1024, 1025, 2047] {
            let up = (1u64 << shift).saturating_add(delta);
            let down = (1u64 << shift).saturating_sub(delta);
            assert_eq!(format_size(up), size_by_float(up), "{up}");
            assert_eq!(format_size(down), size_by_float(down), "{down}");
        }
    }
    assert_eq!(format_size(u64::MAX), size_by_float(u64::MAX));
    let quarter = (1u64 << 40) + (1u64 << 38);
    assert_eq!(format_size(quarter), size_by_float(quarter));
}
