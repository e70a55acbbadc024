use pikpaktui::app::App;
use pikpaktui::effect::{Effect, OpResult};
use pikpaktui::event::{KeyCode, KeyModifiers, MouseEvent, MouseEventKind};
use pikpaktui::geometry::Rect;
use pikpaktui::help_sheet::{draw_help_sheet, HelpTopic};
use pikpaktui::highlight::HighlightAssets;
use pikpaktui::keys::normal_actions;
use pikpaktui::kit::Kit;
use pikpaktui::model::{
    AsyncRequest, AsyncRequestKind, CustomColors, Entry, EntryKind, FileCategory, FileInfo,
    ImageHandle, InputMode, OptionTable, PickerState, PreviewState, SettingOptions, StatusKind,
    TuiConfig,
};
use pikpaktui::scene::{Look, Looks, ThumbnailRenderMode, Widget};
use pikpaktui::start::Setup;
use pikpaktui::style::{Color, Line};
use pikpaktui::{folder_listing_matches, start};
use ratatui::backend::TestBackend;
use ratatui::widgets::{Block, Borders, Clear, List, ListItem, ListState, Paragraph};
use ratatui::Terminal;

fn table(labels: &[&str]) -> OptionTable {
    let n = labels.len();
    OptionTable {
        labels: labels.iter().map(|s| s.to_string()).collect(),
        next: (0..n).map(|i| (i + 1) % n).collect(),
        prev: (0..n).map(|i| (i + n - 1) % n).collect(),
    }
}

fn options() -> SettingOptions {
    SettingOptions {
        border_style: table(&["rounded", "thick", "thick rounded", "double"]),
        color_scheme: table(&["vibrant", "classic", "custom"]),
        quota_bar_style: table(&["bar", "percent"]),
        thumbnail_mode: table(&["auto", "off"]),
        image_protocol: table(&["auto", "kitty", "iterm2", "sixel"]),
        sort_field: table(&["name", "size", "created", "type"]),
        update_check: table(&["notify", "quiet", "off"]),
        update_notes: vec!["notify".to_string(), "quiet".to_string(), "off".to_string()],
        move_mode: ("text".to_string(), "picker".to_string()),
        protocol_auto: 0,
        scheme_custom: 2,
        scheme_vibrant: 0,
        updates_off: 2,
        updates_notify: 0,
        quota_as_percent: 1,
    }
}

fn config() -> TuiConfig {
    let black = (0u8, 0u8, 0u8);
    TuiConfig {
        nerd_font: false,
        border_style: 0,
        color_scheme: 0,
        show_help_bar: true,
        quota_bar_style: 0,
        show_preview: true,
        lazy_preview: false,
        preview_max_size: 65536,
        thumbnail_mode: 0,
        image_protocols: Vec::new(),
        sort_field: 0,
        sort_reverse: false,
        use_picker: true,
        cli_nerd_font: false,
        player: None,
        download_jobs: 1,
        update_check: 0,
        custom_colors: CustomColors {
            folder: black,
            archive: black,
            image: black,
            video: black,
            audio: black,
            document: black,
            code: black,
            default: black,
        },
    }
}

fn setup() -> Setup {
    Setup {
        config: config(),
        options: options(),
        version: "1.2.3".to_string(),
        downloads: Vec::new(),
        now: 1_000,
    }
}

fn test_app() -> App {
    App::new_login(setup(), None)
}

fn look(icon: &str) -> Look {
    Look { icon: icon.to_string(), cli_icon: icon.to_string(), color: Color::Reset }
}

fn kit() -> Kit {
    Kit {
        looks: Looks {
            folder: look("D"),
            archive: look("Z"),
            image: look("I"),
            video: look("V"),
            audio: look("A"),
            document: look("T"),
            code: look("C"),
            default: look("F"),
        },
        thumbnails: ThumbnailRenderMode::Off,
        font: None,
        offset: 0,
        percent: 50,
        more: Vec::new(),
        empty: Vec::new(),
        settings_offset: 0,
        quota: None,
    }
}

fn text_of(line: &Line) -> String {
    line.spans.iter().map(|s| s.text.as_str()).collect()
}

fn rect(r: Rect) -> ratatui::layout::Rect {
    ratatui::layout::Rect::new(r.x, r.y, r.width, r.height)
}

fn paragraph(lines: &[Line]) -> Paragraph<'static> {
    Paragraph::new(lines.iter().map(|l| ratatui::text::Line::from(text_of(l))).collect::<Vec<_>>())
}

fn framed(title: &str) -> Block<'static> {
    Block::default().borders(Borders::ALL).title(title.to_string())
}

fn rendered(widgets: &[Widget], width: u16, height: u16) -> String {
    let mut terminal = Terminal::new(TestBackend::new(width, height)).unwrap();
    terminal
        .draw(|f| {
            for w in widgets {
                match w {
                    Widget::Clear { area } => f.render_widget(Clear, rect(*area)),
                    Widget::Panel { area, title, lines, .. } => {
                        f.render_widget(paragraph(lines).block(framed(title)), rect(*area))
                    }
                    Widget::List { area, title, items, selected, symbol, .. } => {
                        let rows: Vec<ListItem> =
                            items.iter().map(|l| ListItem::new(text_of(l))).collect();
                        let mut state = ListState::default();
                        state.select(*selected);
                        f.render_stateful_widget(
                            List::new(rows).block(framed(title)).highlight_symbol(symbol.as_str()),
                            rect(*area),
                            &mut state,
                        );
                    }
                    Widget::Text { area, lines } => f.render_widget(paragraph(lines), rect(*area)),
                    Widget::Border { area, title, .. } => {
                        f.render_widget(framed(title), rect(*area))
                    }
                    _ => {}
                }
            }
        })
        .unwrap();
    terminal.backend().buffer().content.iter().map(|cell| cell.symbol()).collect()
}

fn topic() -> HelpTopic {
    HelpTopic { picker: false, show_preview: true, lazy_preview: false, vibrant: true }
}

fn rendered_help(width: u16, height: u16) -> String {
    let (widgets, _room) = draw_help_sheet(topic(), Rect::new(0, 0, width, height), 0);
    rendered(&widgets, width, height)
}

fn info(id: &str, name: &str) -> FileInfo {
    FileInfo {
        id: Some(id.to_string()),
        name: name.to_string(),
        kind: Some("drive#file".to_string()),
        size: None,
        hash: None,
        mime_type: None,
        created_time: None,
        modified_time: None,
        web_content_link: Some("https://example.invalid/video".to_string()),
        thumbnail_link: None,
        octet_link: None,
        medias: Vec::new(),
    }
}

fn folder(id: &str, name: &str) -> Entry {
    Entry {
        id: id.to_string(),
        name: name.to_string(),
        kind: EntryKind::Folder,
        size: 0,
        created_time: String::new(),
        modified_time: String::new(),
        starred: false,
        thumbnail_link: None,
        category: FileCategory::Folder,
        text_previewable: false,
    }
}

fn file(id: &str, name: &str, size: u64) -> Entry {
    Entry {
        id: id.to_string(),
        name: name.to_string(),
        kind: EntryKind::File,
        size,
        created_time: String::new(),
        modified_time: String::new(),
        starred: false,
        thumbnail_link: None,
        category: FileCategory::Default,
        text_previewable: false,
    }
}

fn request(id: u64, kind: AsyncRequestKind, target: &str) -> AsyncRequest {
    AsyncRequest { id, kind, target: target.to_string() }
}

fn poll(app: &mut App, results: Vec<OpResult>) {
    app.poll_results(results, Vec::new(), &HighlightAssets::load());
}

fn press(app: &mut App, code: KeyCode) -> bool {
    app.handle_key(code, KeyModifiers::none())
}

#[test]
fn fifty_column_help_keeps_action_descriptions_readable() {
    let rendered = rendered_help(50, 16);
    assert!(rendered.contains("Move down"), "{rendered}");
    assert!(rendered.contains("Copy"), "{rendered}");
    assert!(rendered.contains("close"), "{rendered}");
}

#[test]
fn recent_operation_status_is_visible_without_opening_logs() {
    let mut app = test_app();
    app.push_log("Upload failed: timeout".to_string());
    let kit = kit();
    let areas = app.lay_out(Rect::new(0, 0, 80, 24), &kit);
    let (widgets, _rows) = app.draw_main(areas, &kit);
    let rendered = rendered(&widgets, 80, 24);

    assert!(rendered.contains("Upload failed: timeout"), "{rendered}");
    assert!(rendered.contains("Error"), "{rendered}");
}

#[test]
fn action_menu_renders_discoverable_labels_and_shortcuts() {
    let mut app = test_app();
    app.input = InputMode::ActionMenu { selected: 0 };
    let kit = kit();
    let areas = app.lay_out(Rect::new(0, 0, 80, 28), &kit);
    let widgets = app.draw(areas, &kit);
    let rendered = rendered(&widgets, 80, 28);

    assert!(rendered.contains("Actions"), "{rendered}");
    assert!(rendered.contains("Open folder / play video"), "{rendered}");
    assert!(rendered.contains("Enter"), "{rendered}");
}

#[test]
fn short_narrow_help_keeps_the_close_hint_visible() {
    let rendered = rendered_help(20, 8);

    assert!(rendered.contains("close"), "close hint was clipped:\n{rendered}");
}

#[test]
fn short_help_can_scroll_to_the_last_action() {
    let mut app = test_app();
    app.show_help_sheet = true;
    let term = Rect::new(0, 0, 20, 8);

    let (_first, room) = draw_help_sheet(topic(), term, app.help_scroll);
    app.screen.help_scroll_max = room;
    assert!(app.screen.help_scroll_max > 0);
    press(&mut app, KeyCode::End);
    let (widgets, _room) = draw_help_sheet(topic(), term, app.help_scroll);
    let rendered = rendered(&widgets, 20, 8);

    assert!(rendered.contains("Quit"), "last action was unreachable:\n{rendered}");
    assert!(rendered.contains("close"), "close hint disappeared:\n{rendered}");
}

#[test]
fn scroll_key_closes_help_when_the_sheet_does_not_need_scrolling() {
    let mut app = test_app();
    app.show_help_sheet = true;
    let (_widgets, room) = draw_help_sheet(topic(), Rect::new(0, 0, 100, 40), 0);
    app.screen.help_scroll_max = room;
    assert_eq!(app.screen.help_scroll_max, 0);

    press(&mut app, KeyCode::Down);

    assert!(!app.show_help_sheet);
}

#[test]
fn main_listing_result_is_bound_to_its_requested_folder() {
    let result = OpResult::Ls(7, "folder-a".to_string(), Ok(Vec::new()));
    let OpResult::Ls(request_id, requested_folder_id, _) = result else {
        panic!("expected a main folder listing result");
    };

    assert!(folder_listing_matches("folder-a", 7, requested_folder_id.as_str(), request_id));
    assert!(!folder_listing_matches("folder-b", 7, requested_folder_id.as_str(), request_id));
}

#[test]
fn older_parent_listing_for_the_same_parent_cannot_replace_a_newer_one() {
    let mut app = test_app();
    app.breadcrumb = vec![("parent".to_string(), "child".to_string())];
    app.parent_listing_request = Some(request(2, AsyncRequestKind::ParentListing, "parent"));

    poll(
        &mut app,
        vec![
            OpResult::ParentLs(
                request(2, AsyncRequestKind::ParentListing, "parent"),
                Ok(vec![folder("new", "new")]),
            ),
            OpResult::ParentLs(
                request(1, AsyncRequestKind::ParentListing, "parent"),
                Ok(vec![folder("old", "old")]),
            ),
        ],
    );

    assert_eq!(app.parent_entries[0].id, "new");
}

#[test]
fn older_picker_listing_for_same_folder_cannot_replace_newer_dialog_result() {
    let mut app = test_app();
    app.input = InputMode::CopyPicker {
        source: folder("source", "source"),
        picker: PickerState {
            folder_id: "folder-a".to_string(),
            listing_request_id: 2,
            breadcrumb: Vec::new(),
            entries: Vec::new(),
            selected: 0,
            loading: true,
        },
    };

    poll(
        &mut app,
        vec![
            OpResult::PickerLs(2, "folder-a".to_string(), Ok(vec![folder("new", "new")])),
            OpResult::PickerLs(1, "folder-a".to_string(), Ok(vec![folder("old", "old")])),
        ],
    );

    let InputMode::CopyPicker { picker, .. } = app.input else {
        panic!("picker unexpectedly closed");
    };
    assert_eq!(picker.entries[0].id, "new");
}

#[test]
fn cached_child_navigation_finishes_the_invalidated_network_loading_state() {
    let mut app = test_app();
    app.input = InputMode::Normal;
    app.entries = vec![folder("child", "child")];
    app.selected = 0;
    app.preview_target_id = Some("child".to_string());
    app.preview_state = PreviewState::FolderListing(Vec::new());
    app.loading = true;

    press(&mut app, KeyCode::Enter);

    assert!(!app.loading);
}

#[test]
fn cached_parent_navigation_finishes_the_invalidated_network_loading_state() {
    let mut app = test_app();
    app.input = InputMode::Normal;
    app.current_folder_id = "child".to_string();
    app.breadcrumb = vec![("parent".to_string(), "child".to_string())];
    app.parent_entries = vec![folder("sibling", "sibling")];
    app.loading = true;

    press(&mut app, KeyCode::Backspace);

    assert!(!app.loading);
}

#[test]
fn stale_info_result_cannot_replace_a_newer_loading_target() {
    let mut app = test_app();
    app.input = InputMode::InfoLoading;
    app.modal_request = Some(request(2, AsyncRequestKind::Info, "new-target"));

    poll(
        &mut app,
        vec![OpResult::Info(
            request(1, AsyncRequestKind::Info, "old-target"),
            Ok(info("old-target", "old")),
            None,
        )],
    );

    assert!(matches!(app.input, InputMode::InfoLoading));
}

#[test]
fn stale_folder_preview_cannot_replace_a_newer_loading_target() {
    let mut app = test_app();
    app.input = InputMode::InfoLoading;
    app.preview_target_id = Some("new-target".to_string());
    app.preview_target_name = Some("new".to_string());
    app.modal_request = Some(request(2, AsyncRequestKind::FolderPreview, "new-target"));

    poll(
        &mut app,
        vec![OpResult::PreviewLs(
            request(1, AsyncRequestKind::FolderPreview, "old-target"),
            Ok(Vec::new()),
        )],
    );

    assert!(matches!(app.input, InputMode::InfoLoading));
}

#[test]
fn stale_thumbnail_cannot_land_on_a_different_info_view() {
    let mut app = test_app();
    app.modal_request = Some(request(2, AsyncRequestKind::Info, "new-target"));
    app.input = InputMode::InfoView {
        request_id: 2,
        target_id: "new-target".to_string(),
        info: info("new-target", "new"),
        image: None,
        has_thumbnail: true,
    };

    poll(
        &mut app,
        vec![OpResult::InfoThumbnail(
            request(1, AsyncRequestKind::Info, "old-target"),
            Ok(ImageHandle { id: 1, width: 1, height: 1 }),
        )],
    );

    let InputMode::InfoView { image, .. } = app.input else {
        panic!("info view was unexpectedly replaced");
    };
    assert!(image.is_none());
}

#[test]
fn awaited_thumbnail_lands_on_its_info_view() {
    let mut app = test_app();
    app.modal_request = Some(request(2, AsyncRequestKind::Info, "target"));
    app.input = InputMode::InfoView {
        request_id: 2,
        target_id: "target".to_string(),
        info: info("target", "new"),
        image: None,
        has_thumbnail: true,
    };

    poll(
        &mut app,
        vec![OpResult::InfoThumbnail(
            request(2, AsyncRequestKind::Info, "target"),
            Ok(ImageHandle { id: 9, width: 2, height: 3 }),
        )],
    );

    let InputMode::InfoView { image, .. } = app.input else {
        panic!("info view was unexpectedly replaced");
    };
    assert_eq!(image, Some(ImageHandle { id: 9, width: 2, height: 3 }));
    assert!(app.modal_request.is_none());
}

#[test]
fn delayed_play_result_cannot_replace_a_later_modal() {
    let mut app = test_app();
    app.input =
        InputMode::Settings { selected: 0, editing: false, draft: config(), modified: false };
    app.modal_request = Some(request(1, AsyncRequestKind::Play, "old-target"));

    poll(
        &mut app,
        vec![OpResult::PlayInfo(
            request(1, AsyncRequestKind::Play, "old-target"),
            Ok(info("old-target", "old")),
        )],
    );

    assert!(matches!(app.input, InputMode::Settings { .. }));
}

#[test]
fn awaited_play_result_asks_before_it_plays() {
    let mut app = test_app();
    app.input = InputMode::Normal;
    app.modal_request = Some(request(1, AsyncRequestKind::Play, "video"));

    poll(
        &mut app,
        vec![OpResult::PlayInfo(
            request(1, AsyncRequestKind::Play, "video"),
            Ok(info("video", "movie.mp4")),
        )],
    );

    let InputMode::ConfirmPlay { name, url } = app.input else {
        panic!("nothing was asked");
    };
    assert_eq!(name, "movie.mp4");
    assert_eq!(url, "https://example.invalid/video");
}

#[test]
fn keyboard_invalidation_of_pending_interactive_request_finishes_its_loading_state() {
    for kind in
        [AsyncRequestKind::Play, AsyncRequestKind::PlayPicker, AsyncRequestKind::GotoPath]
    {
        let mut app = test_app();
        app.input = InputMode::Normal;
        app.loading = true;
        app.modal_request = Some(request(1, kind, "target"));

        press(&mut app, KeyCode::Down);

        assert!(app.modal_request.is_none(), "{kind:?}");
        assert!(!app.loading, "{kind:?}");
    }
}

#[test]
fn mouse_invalidation_of_pending_play_finishes_its_loading_state() {
    let mut app = test_app();
    app.input = InputMode::Normal;
    app.loading = true;
    app.modal_request = Some(request(1, AsyncRequestKind::Play, "video"));

    app.handle_mouse(MouseEvent { kind: MouseEventKind::LeftDown, column: 0, row: 0 }, None);

    assert!(app.modal_request.is_none());
    assert!(!app.loading);
}

#[test]
fn delayed_goto_result_cannot_navigate_after_a_later_modal_opened() {
    let mut app = test_app();
    app.current_folder_id = "before".to_string();
    app.input =
        InputMode::Settings { selected: 0, editing: false, draft: config(), modified: false };
    app.modal_request = Some(request(1, AsyncRequestKind::GotoPath, "/after"));

    poll(
        &mut app,
        vec![OpResult::GotoPath(
            request(1, AsyncRequestKind::GotoPath, "/after"),
            Ok(("after".to_string(), vec![("".to_string(), "after".to_string())])),
        )],
    );

    assert_eq!(app.current_folder_id, "before");
    assert!(matches!(app.input, InputMode::Settings { .. }));
}

#[test]
fn awaited_goto_result_enters_the_folder() {
    let mut app = test_app();
    app.current_folder_id = "before".to_string();
    app.input = InputMode::Normal;
    app.modal_request = Some(request(1, AsyncRequestKind::GotoPath, "/after"));

    poll(
        &mut app,
        vec![OpResult::GotoPath(
            request(1, AsyncRequestKind::GotoPath, "/after"),
            Ok(("after".to_string(), vec![("".to_string(), "after".to_string())])),
        )],
    );

    assert_eq!(app.current_folder_id, "after");
    assert_eq!(app.current_path_display(), "/after");
    assert!(app.loading);
    let listed = app.take_effects().into_iter().any(
        |e| matches!(e, Effect::ListFolder { folder_id, .. } if folder_id == "after"),
    );
    assert!(listed);
}

#[test]
fn unsaved_settings_require_explicit_discard_confirmation() {
    let mut app = test_app();
    app.input =
        InputMode::Settings { selected: 4, editing: false, draft: config(), modified: true };

    press(&mut app, KeyCode::Esc);
    assert!(matches!(app.input, InputMode::ConfirmDiscardSettings { selected: 4, .. }));

    press(&mut app, KeyCode::Esc);
    assert!(matches!(app.input, InputMode::Settings { selected: 4, modified: true, .. }));
}

#[test]
fn settings_subpages_return_focus_to_their_origin_rows() {
    let mut app = test_app();
    app.input = InputMode::CustomColorSettings {
        selected: 0,
        draft: config(),
        modified: false,
        editing_rgb: false,
        rgb_input: String::new(),
        rgb_component: 0,
    };
    press(&mut app, KeyCode::Esc);
    assert!(matches!(app.input, InputMode::Settings { selected: 2, .. }));

    app.input = InputMode::ImageProtocolSettings {
        selected: 0,
        draft: config(),
        modified: false,
        current_terminal: "test".to_string(),
        terminals: vec!["test".to_string()],
    };
    press(&mut app, KeyCode::Esc);
    assert!(matches!(app.input, InputMode::Settings { selected: 9, .. }));
}

#[test]
fn log_messages_also_create_visible_typed_status() {
    let mut app = test_app();

    app.push_log("Upload failed: network timeout".to_string());
    let status = app.status_message.as_ref().unwrap();
    assert_eq!(status.kind, StatusKind::Error);
    assert_eq!(status.text, "Upload failed: network timeout");

    app.push_log("Download cancelled".to_string());
    assert_eq!(app.status_message.as_ref().unwrap().kind, StatusKind::Warning);

    app.push_log("Uploaded file".to_string());
    assert_eq!(app.status_message.as_ref().unwrap().kind, StatusKind::Info);
}

#[test]
fn action_menu_runs_the_selected_normal_mode_action() {
    let mut app = test_app();
    app.input = InputMode::Normal;
    press(&mut app, KeyCode::Char('?'));
    assert!(matches!(app.input, InputMode::ActionMenu { selected: 0 }));

    let settings_index =
        normal_actions().iter().position(|action| action.key == KeyCode::Char(',')).unwrap();
    app.input = InputMode::ActionMenu { selected: settings_index };
    press(&mut app, KeyCode::Enter);
    assert!(matches!(app.input, InputMode::Settings { .. }));
}

#[test]
fn signed_in_start_asks_for_the_listing_the_quota_and_updates() {
    let mut app = start::run(setup());
    assert!(matches!(app.input, InputMode::Normal));
    assert!(app.loading);
    let effects = app.take_effects();
    assert!(effects.iter().any(|e| matches!(e, Effect::ListFolder { .. })));
    assert!(effects.iter().any(|e| matches!(e, Effect::FetchQuota)));
    assert!(effects.iter().any(|e| matches!(e, Effect::CheckUpdate)));
    assert!(app.take_effects().is_empty());
}

#[test]
fn start_with_credentials_signs_in_at_once() {
    let known = Some(("me@example.invalid".to_string(), "pw".to_string()));
    let mut app = start::run_with_credentials(known, setup());
    assert!(matches!(app.input, InputMode::Login { logging_in: true, .. }));
    let effects = app.take_effects();
    assert_eq!(effects.len(), 1);
    assert!(matches!(
        &effects[0],
        Effect::Login { email, password } if email == "me@example.invalid" && password == "pw"
    ));

    let mut app = start::run_with_credentials(None, setup());
    assert!(matches!(app.input, InputMode::Login { logging_in: false, .. }));
    assert!(app.take_effects().is_empty());
}

#[test]
fn failed_sign_in_comes_back_to_the_form() {
    let mut app = test_app();
    poll(
        &mut app,
        vec![OpResult::LoginDone {
            email: "me".to_string(),
            password: "pw".to_string(),
            result: Err("no".to_string()),
        }],
    );
    let InputMode::Login { email, error, logging_in, .. } = &app.input else {
        panic!("the form is gone");
    };
    assert_eq!(email, "me");
    assert_eq!(error.as_deref(), Some("Login failed: no"));
    assert!(!logging_in);
}

#[test]
fn listing_keeps_the_cursor_on_its_entry() {
    let mut app = test_app();
    app.input = InputMode::Normal;
    app.entries = vec![folder("a", "a"), folder("b", "b")];
    app.selected = 1;
    app.main_listing_request_id = 3;

    poll(
        &mut app,
        vec![OpResult::Ls(
            3,
            String::new(),
            Ok(vec![folder("a", "a"), folder("aa", "aa"), folder("b", "b")]),
        )],
    );

    assert_eq!(app.selected, 2);
    assert_eq!(app.logs.last().unwrap(), "Refreshed /");

    poll(&mut app, vec![OpResult::Ls(3, String::new(), Err("down".to_string()))]);
    assert_eq!(app.logs.last().unwrap(), "Refresh failed: down");
}

#[test]
fn logs_keep_the_newest_messages_only() {
    let mut app = test_app();
    for i in 0..510 {
        app.push_log(format!("message {i}"));
    }
    assert_eq!(app.logs.len(), 500);
    assert_eq!(app.logs[0], "message 10");
    assert_eq!(app.logs[499], "message 509");
}

#[test]
fn cart_holds_each_entry_once() {
    let mut app = test_app();
    app.input = InputMode::Normal;
    app.entries = vec![file("a", "a.txt", 10), file("b", "b.txt", 20)];

    press(&mut app, KeyCode::Char('a'));
    assert_eq!(app.cart.len(), 1);
    press(&mut app, KeyCode::Char('a'));
    assert_eq!(app.cart.len(), 0);

    press(&mut app, KeyCode::Char('a'));
    press(&mut app, KeyCode::Char('j'));
    press(&mut app, KeyCode::Char('a'));
    assert_eq!(app.cart.iter().map(|e| e.id.as_str()).collect::<Vec<_>>(), ["a", "b"]);

    app.input = InputMode::CartView;
    press(&mut app, KeyCode::Char('x'));
    assert_eq!(app.cart.iter().map(|e| e.id.as_str()).collect::<Vec<_>>(), ["b"]);
    press(&mut app, KeyCode::Char('a'));
    assert_eq!(app.cart.len(), 1);
    press(&mut app, KeyCode::Char('C'));
    assert!(app.cart.is_empty());
    assert!(matches!(app.input, InputMode::CartView));
}

#[test]
fn permanent_delete_wants_a_yes() {
    let mut app = test_app();
    app.input = InputMode::ConfirmPermanentDelete { value: String::new() };
    app.entries = vec![file("a", "a.txt", 10)];
    press(&mut app, KeyCode::Char('y'));
    press(&mut app, KeyCode::Enter);
    assert!(app.take_effects().is_empty());
    assert_eq!(
        app.logs.last().unwrap(),
        "Permanent delete cancelled (type 'yes' to confirm)"
    );

    app.text_cursor = 0;
    app.input = InputMode::ConfirmPermanentDelete { value: String::new() };
    for c in "yes".chars() {
        press(&mut app, KeyCode::Char(c));
    }
    press(&mut app, KeyCode::Enter);
    assert_eq!(app.take_effects().len(), 1);
    assert!(app.loading);
}

#[test]
fn leaving_while_downloads_run_asks_first() {
    let mut app = test_app();
    app.input = InputMode::Normal;
    assert!(press(&mut app, KeyCode::Char('q')));

    app.downloads_active = true;
    assert!(!press(&mut app, KeyCode::Char('q')));
    assert!(matches!(app.input, InputMode::ConfirmQuit));
    assert!(press(&mut app, KeyCode::Char('y')));

    app.input = InputMode::Normal;
    assert!(!app.handle_key(KeyCode::Char('c'), KeyModifiers::control()));
    assert!(matches!(app.input, InputMode::ConfirmQuit));
}

#[test]
fn spinner_turns_and_cursor_blinks_with_time() {
    let mut app = test_app();
    assert!(app.cursor_visible);
    app.tick(1_079);
    assert_eq!(app.spinner_idx, 0);
    app.tick(1_080);
    assert_eq!(app.spinner_idx, 1);
    app.tick(1_500);
    assert!(!app.cursor_visible);
    app.spinner_idx = 9;
    app.tick(1_600);
    assert_eq!(app.spinner_idx, 0);
}

#[test]
fn drawing_leaves_the_rows_of_a_list_for_the_mouse() {
    let mut app = test_app();
    app.input = InputMode::CartView;
    app.cart = vec![file("a", "a.txt", 10), file("b", "b.txt", 20)];
    let kit = kit();
    let screen = Rect::new(0, 0, 100, 30);
    let areas = app.lay_out(screen, &kit);
    let widgets = app.draw(areas, &kit);
    let shown = rendered(&widgets, 100, 30);
    assert!(shown.contains("Cart (2 files, 30 B)"), "{shown}");
    assert!(shown.contains("C clear"), "{shown}");
    assert!(shown.contains(" \u{203a} a.txt  10 B"), "{shown}");
    assert_eq!(app.screen.mouse_list_visible, 2);
    assert_eq!(app.screen.mouse_list_area, areas.overlay);
    assert_eq!(app.screen.mouse_list_first_row, areas.overlay.y + 2);

    app.input = InputMode::Normal;
    let areas = app.lay_out(screen, &kit);
    app.draw(areas, &kit);
    assert_eq!(app.screen.mouse_list_visible, 0);
    assert_eq!(app.screen.current_pane_area, areas.current);
}

#[test]
fn areas_lie_on_the_screen() {
    let app = test_app();
    let kit = kit();
    for (width, height) in [(120, 40), (80, 24), (40, 10), (1, 1), (0, 0)] {
        let screen = Rect::new(0, 0, width, height);
        let a = app.lay_out(screen, &kit);
        for part in [a.main, a.current, a.overlay, a.loading, a.halves.0, a.halves.1] {
            assert!(part.x + part.width <= width, "{part:?}");
            assert!(part.y + part.height <= height, "{part:?}");
        }
        assert!(a.bar.is_some());
    }
    let a = app.lay_out(Rect::new(0, 0, 120, 40), &kit);
    assert_eq!(a.main, Rect::new(0, 0, 120, 39));
    assert_eq!(a.bar, Some(Rect::new(0, 39, 120, 1)));
    assert_eq!(a.parent, Rect::new(0, 0, 24, 39));
    assert_eq!(a.current, Rect::new(24, 0, 48, 39));
    assert_eq!(a.preview, Rect::new(72, 0, 48, 39));
    assert_eq!(a.overlay, Rect::new(30, 12, 60, 16));
}

#[test]
fn text_preview_is_highlighted() {
    let mut app = test_app();
    app.input = InputMode::InfoLoading;
    app.modal_request = Some(request(1, AsyncRequestKind::FilePreview, "id"));
    poll(
        &mut app,
        vec![OpResult::PreviewText(
            request(1, AsyncRequestKind::FilePreview, "id"),
            Ok(("a.rs".to_string(), "fn main() {}\nlet x = 1;\n".to_string(), 24, false)),
        )],
    );
    let InputMode::TextPreviewView { name, lines, truncated } = &app.input else {
        panic!("the text is not shown");
    };
    assert_eq!(name, "a.rs");
    assert!(!truncated);
    let text: Vec<String> = lines.iter().map(text_of).collect();
    assert!(text[0].contains("fn main() {}"), "{text:?}");
    assert!(text[1].contains("let x = 1;"), "{text:?}");
    assert!(lines[0].spans.len() > 2);
    let colors: Vec<_> = lines[0].spans.iter().map(|s| s.style.fg).collect();
    assert!(colors.iter().any(|c| *c != colors[colors.len() - 1]), "{colors:?}");
}

#[test]
fn every_mode_can_be_drawn() {
    let mut app = test_app();
    app.cart = vec![file("a", "a.txt", 10)];
    app.entries = vec![file("a", "a.txt", 10), folder("b", "b")];
    let kit = kit();
    let modes = vec![
        InputMode::Normal,
        InputMode::Rename { value: "new name".to_string() },
        InputMode::Mkdir { value: "new folder".to_string() },
        InputMode::GotoPath { query: "/My Pack".to_string() },
        InputMode::ConfirmDelete,
        InputMode::ConfirmPermanentDelete { value: "ye".to_string() },
        InputMode::ConfirmQuit,
        InputMode::CartView,
        InputMode::ConfirmCartDelete,
        InputMode::OfflineInput { value: "magnet:".to_string() },
        InputMode::OfflineTasksView { tasks: Vec::new(), selected: 0 },
        InputMode::InfoLoading,
        InputMode::ConfirmPlay { name: "movie.mp4".to_string(), url: String::new() },
        InputMode::PlayerInput { value: "mpv".to_string(), pending_url: String::new() },
        InputMode::SharePrompt,
        InputMode::ShareCreatedView {
            shares: vec![("t".to_string(), "https://x".to_string(), "pass".to_string())],
        },
        InputMode::Settings { selected: 0, editing: false, draft: config(), modified: true },
        InputMode::ConfirmDiscardSettings { selected: 0, draft: config() },
    ];
    let titles = [
        " / ",
        "Rename",
        "New Folder",
        "Go to Path",
        "Confirm Remove",
        "Permanent Delete",
        "Confirm Quit",
        "Cart (1 files, 10 B)",
        "Confirm Trash Cart",
        "Offline Download",
        "Offline Tasks (0)",
        "Info",
        "Play Video",
        "Player Command",
        "Share",
        "https://x",
        "Settings *",
        "Unsaved Settings",
    ];
    for (mode, title) in modes.into_iter().zip(titles) {
        app.input = mode;
        let areas = app.lay_out(Rect::new(0, 0, 120, 40), &kit);
        let widgets = app.draw(areas, &kit);
        let shown = rendered(&widgets, 120, 40);
        assert!(shown.contains(title), "{title}:\n{shown}");
    }
}

#[test]
fn password_is_never_drawn() {
    let mut app = App::new_login(
        setup(),
        Some(("me@example.invalid".to_string(), "hunter2".to_string())),
    );
    let kit = kit();
    let areas = app.lay_out(Rect::new(0, 0, 120, 40), &kit);
    let widgets = app.draw(areas, &kit);
    let shown = rendered(&widgets, 120, 40);
    assert!(shown.contains("me@example.invalid"), "{shown}");
    assert!(shown.contains("*******"), "{shown}");
    assert!(!shown.contains("hunter2"), "{shown}");
    assert!(shown.contains("Logging in..."), "{shown}");
}

#[test]
fn parts_of_panels_meet_without_gaps() {
    let mut app = test_app();
    app.config.show_preview = true;
    app.update_available = Some("2.0.0".to_string());
    app.entries = vec![file("a", "a.txt", 10)];
    app.input = InputMode::InfoView {
        request_id: 1,
        target_id: "a".to_string(),
        info: FileInfo { web_content_link: None, ..info("a", "a.txt") },
        image: None,
        has_thumbnail: true,
    };
    let kit = kit();
    for width in 0..=220u16 {
        let height = width / 2 + 3;
        let a = app.lay_out(Rect::new(0, 0, width, height), &kit);

        let (left, right) = a.bar_parts;
        assert_eq!((left.x, left.y, left.height), (0, height - 1, 1));
        assert_eq!((right.x, right.y, right.height), (left.width, height - 1, 1));
        assert_eq!(left.width + right.width, width);

        let (picture, below) = a.preview_parts;
        assert_eq!(picture.y + picture.height, below.y);
        assert_eq!(picture.height + below.height, a.preview.height.saturating_sub(2));

        let inner_width = a.overlay.width.saturating_sub(2);
        let inner_height = a.overlay.height.saturating_sub(2);
        let thumb = (inner_width as u32 * 2 / 5).max(10).min(inner_width as u32) as u16;
        assert_eq!(a.info.thumb.width, thumb);
        assert_eq!(a.info.meta.width, inner_width - thumb);
        assert_eq!(a.info.meta.x + a.info.meta.width, a.info.thumb.x);
        assert_eq!(a.info.meta.height, inner_height.saturating_sub(2));
        assert_eq!(a.info.footer.height, inner_height.min(2));
        assert_eq!(a.info.footer.y, a.info.meta.y + a.info.meta.height);
    }
}
