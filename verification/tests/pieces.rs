use image::{DynamicImage, ImageFormat};
use pikpaktui::areas::{lay_out_panes, layout_with_help_bar};
use pikpaktui::dialogs::{count_under_way, draw_candidate_list, percent_of_folder, percent_of_input};
use pikpaktui::event::{KeyCode, KeyModifiers};
use pikpaktui::fields::wrap_labeled_field;
use pikpaktui::geometry::{is_in_content, is_in_rect, Rect};
use pikpaktui::highlight::{highlight_content, HighlightAssets};
use pikpaktui::media::{play_options, stream_links};
use pikpaktui::model::{DownloadTask, FileInfo, Media, MyShare, TaskStatus};
use pikpaktui::scene::{
    centered_rect, clear_overlay_area, hints2, hints3, intersection, styled_help_spans_fit,
};
use pikpaktui::share::{
    extract_share_id, share_expiry_color, share_expiry_label, share_is_password,
};
use pikpaktui::style::{Color, Line, Style};
use pikpaktui::terminal::{
    clipboard_tools, clipboard_tried, configured_image_protocol, Clipboard, ImageProtocol,
    TerminalProtocol,
};
use pikpaktui::text_input::{handle_text_input, text_input_view, text_len};
use pikpaktui::thumbnail::fetched_thumbnail;
use pikpaktui::width::truncate_name;
use std::io::Cursor;
use unicode_width::UnicodeWidthStr;

fn text_of(line: &Line) -> String {
    line.spans.iter().map(|s| s.text.as_str()).collect()
}

#[test]
fn unicode_cursor_edits_at_character_boundaries() {
    let mut value = "a界b".to_string();
    let mut cursor = value.len();

    handle_text_input(&mut value, &mut cursor, KeyCode::Left, KeyModifiers::none());
    handle_text_input(&mut value, &mut cursor, KeyCode::Backspace, KeyModifiers::none());
    handle_text_input(&mut value, &mut cursor, KeyCode::Char('中'), KeyModifiers::none());

    assert_eq!(value, "a中b");
    assert_eq!(cursor, "a中".len());
}

#[test]
fn control_word_delete_removes_the_previous_word() {
    let mut value = "open -a IINA".to_string();
    let mut cursor = value.len();

    handle_text_input(&mut value, &mut cursor, KeyCode::Char('w'), KeyModifiers::control());

    assert_eq!(value, "open -a ");
    assert_eq!(cursor, value.len());
}

#[test]
fn long_input_view_keeps_cursor_visible_within_width() {
    let value = "/this/is/a/very/long/path/that/keeps/growing";
    let rendered = text_input_view(value, value.len(), 18, true);

    assert!(rendered.starts_with('\u{2026}'));
    assert!(rendered.contains('\u{2588}'));
    assert!(rendered.contains("growing"));
    assert!(UnicodeWidthStr::width(rendered.as_str()) <= 18);
}

#[test]
fn input_view_shows_text_after_a_midline_cursor() {
    let value = "alpha界omega";
    let rendered = text_input_view(value, "alpha".len(), 12, true);

    assert!(rendered.contains("alpha"));
    assert!(rendered.contains('\u{2588}'));
    assert!(rendered.contains('\u{754c}'));
    assert!(UnicodeWidthStr::width(rendered.as_str()) <= 12);
}

#[test]
fn a_single_column_holds_no_cursor_beside_cut_text() {
    assert_eq!(text_input_view("abc", 3, 1, true), "\u{2026}\u{2588}");
    assert_eq!(text_input_view("", 0, 1, true), "\u{2588}");
    assert_eq!(text_input_view("abc", 3, 0, true), "");
}

#[test]
fn typing_and_erasing_gives_the_line_back() {
    let mut value = "ab".to_string();
    let mut cursor = 1;
    assert_eq!(
        handle_text_input(&mut value, &mut cursor, KeyCode::Char('é'), KeyModifiers::none()),
        None
    );
    assert_eq!((value.as_str(), cursor), ("aéb", 3));
    handle_text_input(&mut value, &mut cursor, KeyCode::Backspace, KeyModifiers::none());
    assert_eq!((value.as_str(), cursor), ("ab", 1));
    assert_eq!(
        handle_text_input(&mut value, &mut cursor, KeyCode::Enter, KeyModifiers::none()),
        Some(true)
    );
    assert_eq!(
        handle_text_input(&mut value, &mut cursor, KeyCode::Esc, KeyModifiers::none()),
        Some(false)
    );
    assert_eq!(text_len("aéb"), 4);
}

#[test]
fn share_ids_are_found_in_links() {
    assert_eq!(extract_share_id("https://mypikpak.com/s/VNabc"), "VNabc");
    assert_eq!(extract_share_id("https://mypikpak.com/s/VNabc/"), "VNabc");
    assert_eq!(extract_share_id("VNabc"), "VNabc");
}

fn share(pass_code: &str, share_to: &str) -> MyShare {
    MyShare {
        share_id: "id".to_string(),
        share_url: "https://mypikpak.com/s/id".to_string(),
        title: "title".to_string(),
        pass_code: pass_code.to_string(),
        share_to: share_to.to_string(),
        expiration_days: "-1".to_string(),
        create_time: String::new(),
        view_count: "0".to_string(),
        restore_count: "0".to_string(),
        file_num: "1".to_string(),
    }
}

#[test]
fn shares_tell_how_long_they_last() {
    assert_eq!(share_expiry_label("-1"), "permanent");
    assert_eq!(share_expiry_label("0"), "permanent");
    assert_eq!(share_expiry_label(""), "permanent");
    assert_eq!(share_expiry_label("7"), "7 days");
    assert_eq!(share_expiry_label("soon"), "0 days");
    assert_eq!(share_expiry_color("-1"), Color::Green);
    assert_eq!(share_expiry_color("3"), Color::Red);
    assert_eq!(share_expiry_color("7"), Color::Yellow);
    assert_eq!(share_expiry_color("8"), Color::DarkGray);
    assert_eq!(share_expiry_color("soon"), Color::DarkGray);
    assert!(share_is_password(&share("1234", "")));
    assert!(share_is_password(&share("", "encryptedlink")));
    assert!(!share_is_password(&share("", "publiclink")));
}

fn media(origin: bool, url: Option<&str>, name: Option<&str>) -> Media {
    Media {
        is_origin: origin,
        url: url.map(str::to_string),
        name: name.map(str::to_string),
    }
}

#[test]
fn streams_are_offered_in_order_after_the_original() {
    let info = FileInfo {
        id: None,
        name: "movie".to_string(),
        kind: None,
        size: Some("2048".to_string()),
        hash: None,
        mime_type: None,
        created_time: None,
        modified_time: None,
        web_content_link: Some("https://o".to_string()),
        thumbnail_link: None,
        octet_link: None,
        medias: vec![
            media(true, Some("https://o"), Some("Origin")),
            media(false, Some("https://a"), Some("1080p")),
            media(false, None, Some("none")),
            media(false, Some(""), Some("empty")),
            media(false, Some("https://b"), None),
        ],
    };
    assert_eq!(stream_links(&info), ["https://a", "https://b"]);
    let options = play_options(&info, &vec![false, true]);
    let shown: Vec<(&str, &str, bool)> =
        options.iter().map(|o| (o.label.as_str(), o.url.as_str(), o.available)).collect();
    assert_eq!(
        shown,
        [
            ("Original (2.0 KB)", "https://o", true),
            ("1080p", "https://a", false),
            ("Unknown", "https://b", true),
        ]
    );
}

#[test]
fn pictures_are_read_from_bytes() {
    let mut png: Vec<u8> = Vec::new();
    DynamicImage::new_rgb8(3, 2).write_to(&mut Cursor::new(&mut png), ImageFormat::Png).unwrap();

    let picture = fetched_thumbnail(200, "200 OK", &png).unwrap();
    assert_eq!((picture.width, picture.height), (3, 2));
    assert_eq!((picture.image.width(), picture.image.height()), (3, 2));
    assert_eq!(picture.image, DynamicImage::new_rgb8(3, 2));

    let refused = fetched_thumbnail(404, "404 Not Found", &png).unwrap_err();
    assert_eq!(refused, "thumbnail download failed: 404 Not Found");
    let broken = fetched_thumbnail(200, "200 OK", &b"no picture".to_vec()).unwrap_err();
    assert!(broken.starts_with("failed to decode thumbnail image: "), "{broken}");
    assert!(fetched_thumbnail(300, "300 Multiple Choices", &png).is_err());
    assert!(fetched_thumbnail(299, "299", &png).is_ok());
}

#[test]
fn iterm_is_not_taken_for_kitty() {
    let iterm = Some("iTerm.app".to_string());
    let kitty = TerminalProtocol::Kitty;
    assert_eq!(
        configured_image_protocol(ImageProtocol::Auto, kitty, &iterm),
        TerminalProtocol::Iterm2
    );
    assert_eq!(configured_image_protocol(ImageProtocol::Auto, kitty, &None), kitty);
    assert_eq!(
        configured_image_protocol(ImageProtocol::Auto, TerminalProtocol::Sixel, &iterm),
        TerminalProtocol::Sixel
    );
    assert_eq!(configured_image_protocol(ImageProtocol::Kitty, kitty, &iterm), kitty);
    assert_eq!(
        configured_image_protocol(ImageProtocol::Sixel, TerminalProtocol::Halfblocks, &None),
        TerminalProtocol::Sixel
    );
}

#[test]
fn clipboard_programs_are_tried_in_order() {
    let tools = clipboard_tools(false);
    assert_eq!(tools.iter().map(|t| t.command).collect::<Vec<_>>(), ["wl-copy", "xclip"]);
    assert_eq!(tools[1].args, ["-selection", "clipboard"]);
    assert_eq!(clipboard_tools(true)[0].command, "pbcopy");
    assert!(matches!(clipboard_tried(0, 2, false, None), Clipboard::Try(1)));
    assert!(matches!(clipboard_tried(0, 2, true, None), Clipboard::Written));
    let Clipboard::Failed(why) = clipboard_tried(1, 2, false, None) else {
        panic!("no program was left");
    };
    assert_eq!(why, "no clipboard tool found (pbcopy / wl-copy / xclip)");
    assert!(matches!(
        clipboard_tried(0, 1, true, Some("gone".to_string())),
        Clipboard::Failed(e) if e == "gone"
    ));
}

#[test]
fn candidates_are_shown_around_the_chosen_one() {
    let names: Vec<(String, bool)> = (0..12).map(|i| (format!("c{i}"), i % 2 == 0)).collect();
    let shown: Vec<String> = draw_candidate_list(&names, Some(1)).iter().map(text_of).collect();
    assert_eq!(shown[0], "");
    assert_eq!(shown[1], "    c0/");
    assert_eq!(shown[2], "  > c1");
    assert_eq!(shown[9], "    ... and 4 more");

    let shown: Vec<String> = draw_candidate_list(&names, Some(9)).iter().map(text_of).collect();
    assert_eq!(shown[1], "    \u{2191} 3 more above");
    assert_eq!(shown[2], "    c3");
    assert_eq!(shown[8], "  > c9");
    assert_eq!(shown[9], "    ... and 2 more");
    assert!(draw_candidate_list(&Vec::new(), None).is_empty());
}

#[test]
fn dialogs_grow_with_their_rows_within_bounds() {
    assert_eq!(percent_of_input(6, 0, 24), 25);
    assert_eq!(percent_of_input(6, 3, 24), 41);
    assert_eq!(percent_of_input(6, 100, 24), 60);
    assert_eq!(percent_of_input(6, 0, 100), 20);
    assert_eq!(percent_of_input(6, 0, 0), 60);
    assert_eq!(percent_of_folder(0, 24), 25);
    assert_eq!(percent_of_folder(5, 24), 37);
    assert_eq!(percent_of_folder(50, 24), 70);
}

#[test]
fn downloads_under_way_are_counted() {
    let task = |status| DownloadTask {
        id: 0,
        name: String::new(),
        total_size: 0,
        downloaded: 0,
        status,
    };
    let tasks = vec![task(TaskStatus::Pending), task(TaskStatus::Downloading), task(TaskStatus::Done)];
    assert_eq!(count_under_way(&tasks), 2);
}

#[test]
fn cells_of_a_border_are_told_from_its_inside() {
    let r = Rect::new(2, 3, 4, 5);
    assert!(is_in_rect(2, 3, r));
    assert!(is_in_rect(5, 7, r));
    assert!(!is_in_rect(6, 3, r));
    assert!(!is_in_content(2, 4, r));
    assert!(is_in_content(3, 4, r));
    assert!(!is_in_content(3, 7, r));
}

#[test]
fn overlays_stand_in_the_middle() {
    assert_eq!(centered_rect(60, 20, Rect::new(0, 0, 100, 50)), Rect::new(20, 20, 60, 10));
    assert_eq!(
        clear_overlay_area(Rect::new(20, 20, 60, 10), Rect::new(0, 0, 100, 50)),
        Rect::new(19, 20, 62, 10)
    );
    assert_eq!(
        clear_overlay_area(Rect::new(0, 0, 100, 10), Rect::new(0, 0, 100, 50)),
        Rect::new(0, 0, 100, 10)
    );
    assert_eq!(
        intersection(Rect::new(0, 0, 10, 10), Rect::new(5, 8, 10, 10)),
        Rect::new(5, 8, 5, 2)
    );
}

#[test]
fn hints_are_left_out_where_they_do_not_fit() {
    let pairs = hints3(("Tab", "switch"), ("Enter", "login"), ("Esc", "quit"));
    let text = |max| -> String {
        styled_help_spans_fit(&pairs, max).iter().map(|s| s.text.clone()).collect()
    };
    let all = text(100);
    assert_eq!(all, "Tab switch \u{2022} Enter login \u{2022} Esc quit");
    assert_eq!(text(UnicodeWidthStr::width(all.as_str())), all);
    let cut = text(UnicodeWidthStr::width(all.as_str()) - 1);
    assert_eq!(cut, "Tab switch \u{2022} Enter login");
    assert!(styled_help_spans_fit(&hints2(("a", "b"), ("c", "d")), 0).is_empty());
}

#[test]
fn labelled_fields_are_folded_under_their_label() {
    let lines = wrap_labeled_field(
        "  Name:  ",
        "one two three four",
        Style::plain(),
        Style::plain(),
        20,
    );
    let text: Vec<String> = lines.iter().map(text_of).collect();
    assert!(text[0].starts_with("  Name:  "), "{text:?}");
    assert!(text.len() > 1, "{text:?}");
    for line in &text {
        assert!(UnicodeWidthStr::width(line.as_str()) <= 20, "{text:?}");
    }
}

#[test]
fn unknown_kinds_of_text_stay_plain() {
    let assets = HighlightAssets::load();
    let lines = highlight_content("notes.unknown-kind", "just text\n", &assets);
    assert!(text_of(&lines[0]).contains("just text"));
    assert_eq!(truncate_name("short", 10), "short");
}

/// The cells from `from` to `to` percent of an area of `size` cells, as a start and a length.
fn share_of(size: u16, from: u32, to: u32) -> (u16, u16) {
    let at = |percent: u32| (u32::from(size) * percent + 50) / 100;
    (at(from) as u16, (at(to) - at(from)) as u16)
}

#[test]
fn overlays_take_their_share_of_every_screen() {
    for percent in [0, 20, 22, 25, 33, 40, 45, 52, 55, 65, 68, 76, 80, 99, 100] {
        let side = (100 - u32::from(percent)) / 2;
        for size in (0..=300).chain([999, 4097, 65000, 65535]) {
            let (start, len) = share_of(size, side, side + u32::from(percent));
            let r = centered_rect(percent, percent, Rect::new(0, 0, size, size));
            assert_eq!(r, Rect::new(start, start, len, len), "{percent} of {size}");
        }
        let (x, width) = share_of(47, side, side + u32::from(percent));
        let (y, height) = share_of(31, side, side + u32::from(percent));
        let r = centered_rect(percent, percent, Rect::new(5, 9, 47, 31));
        assert_eq!(r, Rect::new(5 + x, 9 + y, width, height));
    }
}

#[test]
fn panes_share_the_width() {
    for width in 0..=250u16 {
        let main = Rect::new(3, 2, width, 20);
        let at = |from: u32, to: u32| {
            let (x, w) = share_of(width, from, to);
            Rect::new(3 + x, 2, w, 20)
        };
        let none = Rect::new(0, 0, 0, 0);
        let p = lay_out_panes(main, true);
        if width >= 96 {
            assert_eq!((p.parent, p.current, p.preview), (at(0, 20), at(20, 60), at(60, 100)));
            assert_eq!(p.logs, p.preview);
        } else if width >= 64 {
            assert_eq!((p.parent, p.current, p.preview), (none, at(0, 58), at(58, 100)));
        } else {
            assert_eq!((p.parent, p.current, p.preview), (none, main, none));
            assert_eq!(p.logs, at(48, 100));
        }
        let p = lay_out_panes(main, false);
        if width >= 60 {
            assert_eq!((p.parent, p.current, p.preview), (at(0, 25), at(25, 100), none));
        } else {
            assert_eq!((p.parent, p.current, p.preview), (none, main, none));
        }
    }
}

#[test]
fn the_help_bar_takes_the_last_row() {
    for height in 2..=200 {
        let area = Rect::new(4, 7, 30, height);
        let (main, bar) = layout_with_help_bar(area, true);
        assert_eq!(main, Rect::new(4, 7, 30, height - 1));
        assert_eq!(bar, Some(Rect::new(4, 7 + height - 1, 30, 1)));
        assert_eq!(layout_with_help_bar(area, false), (area, None));
    }
    let (main, bar) = layout_with_help_bar(Rect::new(0, 0, 9, 1), true);
    assert_eq!((main.height, bar.unwrap().height), (1, 0));
    let (main, bar) = layout_with_help_bar(Rect::new(0, 0, 9, 0), true);
    assert_eq!((main.height, bar.unwrap().height), (0, 0));
}

#[test]
fn folding_loses_nothing_but_white_space() {
    let value = "one  two three 三上悠亚 averyveryverylongword end";
    for width in 10..40 {
        let lines = wrap_labeled_field("  Name:  ", value, Style::plain(), Style::plain(), width);
        let shown: String = lines.iter().map(|l| l.spans[1].text.as_str()).collect();
        let dense = |s: &str| s.chars().filter(|c| !c.is_whitespace()).collect::<String>();
        assert_eq!(dense(&shown), dense(value), "{width}");
    }
}
