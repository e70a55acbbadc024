use pikpaktui::width::{pad_to_width, truncate_name, wrap_line, wrap_logs};
use unicode_width::UnicodeWidthStr;

fn logs(lines: &[&str]) -> Vec<String> {
    lines.iter().map(|s| s.to_string()).collect()
}

#[test]
fn pads_short_ascii() {
    assert_eq!(pad_to_width("abc", 5), "abc  ");
}

#[test]
fn exact_width_untouched() {
    assert_eq!(pad_to_width("abcde", 5), "abcde");
}

#[test]
fn truncates_overflow_with_ellipsis() {
    let out = pad_to_width("abcdefghij", 7);
    assert_eq!(UnicodeWidthStr::width(out.as_str()), 7);
    assert!(out.ends_with("..."));
}

#[test]
fn cjk_pads_by_display_width() {
    // 3 CJK chars = 6 columns; pad to 8 needs 2 spaces
    assert_eq!(pad_to_width("三上悠", 8), "三上悠  ");
}

#[test]
fn cjk_truncates_by_display_width() {
    let out = pad_to_width("三上悠亚三上悠亚", 9);
    assert_eq!(UnicodeWidthStr::width(out.as_str()), 9);
}

#[test]
fn tiny_width_hard_cuts() {
    assert_eq!(pad_to_width("abcdef", 2), "ab");
    // A double-width char that doesn't fit in 1 column becomes padding
    assert_eq!(pad_to_width("三", 1), " ");
}

#[test]
fn names_are_cut_with_three_dots() {
    assert_eq!(truncate_name("abcdefghij", 7), "abcd...");
    assert_eq!(truncate_name("abcdefg", 7), "abcdefg");
    assert_eq!(truncate_name("三上悠亚", 6), "三...");
    assert_eq!(truncate_name("abcdef", 2), "...");
}

#[test]
fn empty_string_gives_one_line() {
    assert_eq!(wrap_line("", 50), vec![""]);
}

#[test]
fn short_string_no_wrap() {
    assert_eq!(wrap_line("hello", 50), vec!["hello"]);
}

#[test]
fn exact_fit_no_wrap() {
    assert_eq!(wrap_line("abcde", 5), vec!["abcde"]);
}

#[test]
fn simple_wrap() {
    assert_eq!(wrap_line("abcdefgh", 5), vec!["abcde", "fgh"]);
}

#[test]
fn multiple_wraps() {
    assert_eq!(wrap_line("abcdefghijklm", 5), vec!["abcde", "fghij", "klm"]);
}

#[test]
fn cjk_double_width() {
    // Each CJK char is width 2, so 3 chars = width 6
    // In a width-5 area, "三上" (width 4) fits, "悠" starts new line
    assert_eq!(wrap_line("三上悠", 5), vec!["三上", "悠"]);
}

#[test]
fn cjk_exact_fit() {
    // "三上" = width 4, fits in width 4
    assert_eq!(wrap_line("三上", 4), vec!["三上"]);
}

#[test]
fn mixed_ascii_cjk() {
    // "ab三" = 2 + 2 = 4 width, fits in 5
    // "cd" = 2, next line
    assert_eq!(wrap_line("ab三cd", 5), vec!["ab三c", "d"]);
}

#[test]
fn nothing_is_wrapped_into_no_width() {
    assert_eq!(wrap_line("abc", 0), vec!["abc"]);
}

#[test]
fn long_url_wrap() {
    let url = "https://dl-z01a-0049.mypikpak.com/download/?fid=KKGF0zFia";
    let lines = wrap_line(url, 20);
    // Each line should be at most 20 chars wide
    for line in &lines {
        assert!(
            unicode_width::UnicodeWidthStr::width(line.as_str()) <= 20,
            "line too wide: {:?} (width {})",
            line,
            unicode_width::UnicodeWidthStr::width(line.as_str())
        );
    }
    // Rejoin should give original
    let rejoined: String = lines.concat();
    assert_eq!(rejoined, url);
}

#[test]
fn wrap_logs_total_lines() {
    let logs = logs(&[
        "short",
        "a]medium length line here",
        "abcdefghijklmnopqrstuvwxyz",
    ]);
    let wrapped = wrap_logs(&logs, 10);
    assert_eq!(wrapped.len(), 7);
}

#[test]
fn scroll_bottom_shows_last_lines() {
    let logs = logs(&["line1", "line2", "line3", "line4", "line5"]);
    let wrapped = wrap_logs(&logs, 50);
    let visible = 3;
    let max_scroll = wrapped.len().saturating_sub(visible);
    let bottom: Vec<&str> = wrapped
        .iter()
        .skip(max_scroll)
        .take(visible)
        .map(|s| s.as_str())
        .collect();
    assert_eq!(bottom, vec!["line3", "line4", "line5"]);
}

#[test]
fn scroll_with_wrapped_lines_reaches_bottom() {
    let logs = logs(&[
        "short",
        "this is a very long line that will wrap multiple times in a narrow window!",
        "last line",
    ]);
    let width = 20;
    let visible = 5;
    let wrapped = wrap_logs(&logs, width);
    let total = wrapped.len();
    let max_scroll = total.saturating_sub(visible);
    let bottom: Vec<&str> = wrapped
        .iter()
        .skip(max_scroll)
        .take(visible)
        .map(|s| s.as_str())
        .collect();
    assert_eq!(bottom.last().unwrap(), &"last line");
}

#[test]
fn characters_wider_than_a_line_become_padding() {
    assert_eq!(wrap_line("三", 1), vec![" "]);
    assert_eq!(wrap_line("a三b", 1), vec!["a", " ", "b"]);
    for width in 1..6 {
        for line in wrap_line("三上 abc 悠亚", width) {
            assert!(UnicodeWidthStr::width(line.as_str()) <= width, "{line:?} in {width}");
        }
    }
}

#[test]
fn shortened_names_fit_and_stay_as_they_are() {
    for name in ["abcdefghij", "三上悠亚三上悠亚", "a三b上c", ""] {
        for width in 3..12 {
            let short = truncate_name(name, width);
            assert!(UnicodeWidthStr::width(short.as_str()) <= width);
            assert_eq!(truncate_name(&short, width), short);
            assert_eq!(short == name, UnicodeWidthStr::width(name) <= width);
        }
    }
}
