use pikpaktui::app::App;
use pikpaktui::effect::{
    link_to_copy, link_tried, remote_outcome, CopySource, Effect, OpResult, PathCompletion,
    RemoteOp, RemoteReply,
};
use pikpaktui::event::{KeyCode, KeyModifiers, MouseEvent, MouseEventKind};
use pikpaktui::geometry::Rect;
use pikpaktui::highlight::HighlightAssets;
use pikpaktui::model::{
    CustomColors, DownloadTask, Entry, EntryKind, FileCategory, InputMode, MyShare, OfflineTask,
    OptionTable, PickerState, SettingOptions, TaskStatus, TuiConfig,
};
use pikpaktui::start::Setup;

fn table(n: usize) -> OptionTable {
    OptionTable {
        labels: (0..n).map(|i| format!("option {i}")).collect(),
        next: (0..n).map(|i| (i + 1) % n).collect(),
        prev: (0..n).map(|i| (i + n - 1) % n).collect(),
    }
}

fn config() -> TuiConfig {
    let black = (0u8, 0u8, 0u8);
    TuiConfig {
        nerd_font: false,
        border_style: 0,
        color_scheme: 1,
        show_help_bar: true,
        quota_bar_style: 0,
        show_preview: true,
        lazy_preview: false,
        preview_max_size: 65536,
        thumbnail_mode: 0,
        image_protocols: Vec::new(),
        sort_field: 0,
        sort_reverse: false,
        use_picker: true,
        cli_nerd_font: false,
        player: None,
        download_jobs: 1,
        update_check: 0,
        custom_colors: CustomColors {
            folder: black,
            archive: black,
            image: black,
            video: black,
            audio: black,
            document: black,
            code: black,
            default: black,
        },
    }
}

fn test_app() -> App {
    let options = SettingOptions {
        border_style: table(4),
        color_scheme: table(3),
        quota_bar_style: table(2),
        thumbnail_mode: table(2),
        image_protocol: table(4),
        sort_field: table(4),
        update_check: table(3),
        update_notes: vec![String::new(), String::new(), String::new()],
        move_mode: ("text".to_string(), "picker".to_string()),
        protocol_auto: 0,
        scheme_custom: 2,
        scheme_vibrant: 0,
        updates_off: 2,
        updates_notify: 0,
        quota_as_percent: 1,
    };
    let mut app = App::new_login(
        Setup {
            config: config(),
            options,
            version: "1.0.0".to_string(),
            downloads: Vec::new(),
            now: 0,
        },
        None,
    );
    app.input = InputMode::Normal;
    app
}

fn entry(id: &str, kind: EntryKind) -> Entry {
    Entry {
        id: id.to_string(),
        name: id.to_string(),
        kind,
        size: 1,
        created_time: String::new(),
        modified_time: String::new(),
        starred: false,
        thumbnail_link: None,
        category: match kind {
            EntryKind::Folder => FileCategory::Folder,
            EntryKind::File => FileCategory::Default,
        },
        text_previewable: false,
    }
}

fn press(app: &mut App, code: KeyCode) -> bool {
    app.handle_key(code, KeyModifiers::none())
}

fn type_text(app: &mut App, text: &str) {
    for c in text.chars() {
        press(app, KeyCode::Char(c));
    }
}

fn poll(app: &mut App, results: Vec<OpResult>) {
    app.poll_results(results, Vec::new(), &HighlightAssets::load());
}

#[test]
fn renaming_asks_the_drive() {
    let mut app = test_app();
    app.entries = vec![entry("a", EntryKind::File)];
    app.text_cursor = usize::MAX;
    app.input = InputMode::Rename { value: "a".to_string() };
    type_text(&mut app, "b");
    press(&mut app, KeyCode::Enter);
    let effects = app.take_effects();
    assert!(matches!(
        &effects[0],
        Effect::Remote(RemoteOp::Rename { id, old_name, new_name })
            if id == "a" && old_name == "a" && new_name == "ab"
    ));
    assert!(app.loading);
}

#[test]
fn folders_are_made_in_the_current_one() {
    let mut app = test_app();
    app.current_folder_id = "here".to_string();
    app.input = InputMode::Mkdir { value: String::new() };
    app.text_cursor = 0;
    type_text(&mut app, "new");
    press(&mut app, KeyCode::Enter);
    let effects = app.take_effects();
    assert!(matches!(
        &effects[0],
        Effect::Remote(RemoteOp::Mkdir { parent_id, name }) if parent_id == "here" && name == "new"
    ));
}

#[test]
fn picker_steps_over_files_and_moves_to_the_open_folder() {
    let mut app = test_app();
    app.input = InputMode::MovePicker {
        source: entry("source", EntryKind::File),
        picker: PickerState {
            folder_id: "root".to_string(),
            listing_request_id: 1,
            breadcrumb: Vec::new(),
            entries: vec![
                entry("f1", EntryKind::File),
                entry("d1", EntryKind::Folder),
                entry("d2", EntryKind::Folder),
            ],
            selected: 0,
            loading: false,
        },
    };
    press(&mut app, KeyCode::Down);
    press(&mut app, KeyCode::Down);
    let InputMode::MovePicker { picker, .. } = &app.input else {
        panic!("the picker is gone");
    };
    assert_eq!(picker.selected, 1);

    press(&mut app, KeyCode::Enter);
    let InputMode::MovePicker { picker, .. } = &app.input else {
        panic!("the picker is gone");
    };
    assert_eq!(picker.folder_id, "d2");
    assert!(picker.loading);

    press(&mut app, KeyCode::Char(' '));
    let moved = app.take_effects().into_iter().any(|e| {
        matches!(
            e,
            Effect::Remote(RemoteOp::MoveCopy { source_id, dest_id, is_move: true, .. })
                if source_id == "source" && dest_id == "d2"
        )
    });
    assert!(moved);
}

#[test]
fn completion_is_taken_only_where_it_was_asked_for() {
    let mut app = test_app();
    app.config.use_picker = false;
    app.entries = vec![entry("a", EntryKind::File)];
    press(&mut app, KeyCode::Char('m'));
    type_text(&mut app, "/x");
    let InputMode::MoveInput { input, .. } = &mut app.input else {
        panic!("no path is asked for");
    };
    input.pending_request_id = Some(4);
    app.path_completion_in_flight = Some(4);

    let reply = |id: u64| OpResult::PathCandidates {
        request_id: id,
        value: "/x".to_string(),
        folder_context: String::new(),
        completion: Some(PathCompletion {
            value: "/xyz".to_string(),
            candidates: vec!["xyz".to_string()],
            candidate_idx: Some(0),
        }),
    };
    poll(&mut app, vec![reply(3)]);
    assert_eq!(app.path_completion_in_flight, Some(4));
    poll(&mut app, vec![reply(4)]);
    let InputMode::MoveInput { input, .. } = &app.input else {
        panic!("no path is asked for");
    };
    assert_eq!(input.value, "/xyz");
    assert_eq!(input.candidates, ["xyz"]);
    assert_eq!(app.path_completion_in_flight, None);
}

#[test]
fn trash_can_be_browsed_and_emptied_one_by_one() {
    let mut app = test_app();
    press(&mut app, KeyCode::Char('t'));
    poll(
        &mut app,
        vec![OpResult::TrashList(Ok(vec![
            entry("t1", EntryKind::File),
            entry("t2", EntryKind::File),
        ]))],
    );
    let InputMode::TrashView { entries, selected, .. } = &app.input else {
        panic!("the trash is not shown");
    };
    assert_eq!((entries.len(), *selected), (2, 0));
    app.take_effects();
    press(&mut app, KeyCode::Down);
    press(&mut app, KeyCode::Char('u'));
    let restored = app.take_effects().into_iter().any(
        |e| matches!(e, Effect::Remote(RemoteOp::Untrash { id, .. }) if id == "t2"),
    );
    assert!(restored);
    poll(&mut app, vec![OpResult::TrashList(Err("down".to_string()))]);
    assert_eq!(app.logs.last().unwrap(), "Failed to load trash: down");
}

#[test]
fn offline_tasks_are_shown_when_they_come() {
    let mut app = test_app();
    press(&mut app, KeyCode::Char('O'));
    assert!(matches!(app.input, InputMode::InfoLoading));
    let request = app.take_effects().into_iter().find_map(|e| match e {
        Effect::ListOfflineTasks { request } => Some(request),
        _ => None,
    });
    let task = OfflineTask {
        id: "1".to_string(),
        name: "file".to_string(),
        phase: "PHASE_TYPE_RUNNING".to_string(),
        progress: 10,
        message: None,
        file_size: None,
    };
    poll(&mut app, vec![OpResult::OfflineTasks(request.unwrap(), Ok(vec![task]))]);
    assert!(matches!(&app.input, InputMode::OfflineTasksView { tasks, selected: 0 } if tasks.len() == 1));
    assert!(!app.loading);
}

#[test]
fn shares_are_deleted_after_a_second_question() {
    let mut app = test_app();
    let share = MyShare {
        share_id: "s1".to_string(),
        share_url: "https://mypikpak.com/s/s1".to_string(),
        title: "title".to_string(),
        pass_code: String::new(),
        share_to: String::new(),
        expiration_days: "-1".to_string(),
        create_time: String::new(),
        view_count: "0".to_string(),
        restore_count: "0".to_string(),
        file_num: "1".to_string(),
    };
    app.shares_pending = true;
    poll(&mut app, vec![OpResult::MyShares(Ok(vec![share]))]);
    assert!(matches!(&app.input, InputMode::MySharesView { confirm_delete: None, .. }));
    press(&mut app, KeyCode::Char('d'));
    assert!(matches!(
        &app.input,
        InputMode::MySharesView { confirm_delete: Some(id), .. } if id == "s1"
    ));
    assert!(app.take_effects().is_empty());
    press(&mut app, KeyCode::Char('y'));
    let deleted = app.take_effects().into_iter().any(
        |e| matches!(e, Effect::Remote(RemoteOp::DeleteShare { share_id }) if share_id == "s1"),
    );
    assert!(deleted);
}

#[test]
fn settings_are_flipped_and_saved() {
    let mut app = test_app();
    press(&mut app, KeyCode::Char(','));
    press(&mut app, KeyCode::Enter);
    press(&mut app, KeyCode::Char(' '));
    let InputMode::Settings { draft, modified, .. } = &app.input else {
        panic!("the settings are not shown");
    };
    assert!(draft.nerd_font);
    assert!(*modified);
    assert!(!app.config.nerd_font);
    press(&mut app, KeyCode::Char('s'));
    let asked = app.take_effects().into_iter().find_map(|e| match e {
        Effect::SaveConfig { config, purpose } => Some((config, purpose)),
        _ => None,
    });
    let (config, purpose) = asked.unwrap();
    assert!(config.nerd_font);
    app.config_saved(purpose, Ok(()));
    assert!(app.config.nerd_font);
}

#[test]
fn downloads_are_paused_and_started_again() {
    let mut app = test_app();
    app.downloads = vec![DownloadTask {
        id: 7,
        name: "file".to_string(),
        total_size: 10,
        downloaded: 3,
        status: TaskStatus::Downloading,
    }];
    app.input = InputMode::DownloadView;
    press(&mut app, KeyCode::Char('p'));
    assert_eq!(app.downloads[0].status, TaskStatus::Downloading);
    press(&mut app, KeyCode::Enter);
    assert!(app.downloads_expanded);
    press(&mut app, KeyCode::Char('p'));
    assert_eq!(app.downloads[0].status, TaskStatus::Paused);
    let stopped = app.take_effects().into_iter().any(|e| matches!(e, Effect::StopDownload { id: 7 }));
    assert!(stopped);
    press(&mut app, KeyCode::Char('p'));
    assert_eq!(app.downloads[0].status, TaskStatus::Pending);
}

#[test]
fn clicks_select_entries_and_scrolling_moves_the_cursor() {
    let mut app = test_app();
    app.entries = (0..10).map(|i| entry(&format!("e{i}"), EntryKind::File)).collect();
    app.screen.current_pane_area = Rect::new(20, 0, 40, 20);
    app.screen.list_area_height = 20;
    let at = |kind, column, row| MouseEvent { kind, column, row };
    app.handle_mouse(at(MouseEventKind::LeftDown, 25, 4), None);
    assert_eq!(app.selected, 3);
    app.handle_mouse(at(MouseEventKind::LeftDown, 20, 6), None);
    assert_eq!(app.selected, 3);
    app.handle_mouse(at(MouseEventKind::ScrollDown, 25, 4), None);
    assert!(app.selected > 3);
}

#[test]
fn outcomes_of_changes_are_told() {
    let op = RemoteOp::Trash { id: "a".to_string(), name: "a.txt".to_string() };
    assert!(matches!(
        remote_outcome(&op, Ok(RemoteReply::Done)),
        OpResult::Done(m) if m == "Removed 'a.txt' (to trash)"
    ));
    assert!(matches!(
        remote_outcome(&op, Err("down".to_string())),
        OpResult::Failed(m) if m == "Remove failed: down"
    ));
}

#[test]
fn copied_links_are_told() {
    let mut app = test_app();
    app.clipboard_written("https://x".to_string(), CopySource::MyShares, Err("no tool".to_string()));
    assert!(app.logs.last().unwrap().contains("no tool"), "{:?}", app.logs);
}

fn in_order(app: &App) {
    assert!(app.entries.is_empty() || app.selected < app.entries.len());
    assert!(app.logs.len() <= 500);
    for (i, e) in app.cart.iter().enumerate() {
        assert!(app.cart[..i].iter().all(|other| other.id != e.id));
    }
}

#[test]
fn every_key_in_any_order_leaves_the_cursor_in_the_list() {
    let mut app = test_app();
    app.entries = (0..5).map(|i| entry(&format!("e{i}"), EntryKind::Folder)).collect();
    app.screen.list_area_height = 3;
    let keys = [
        KeyCode::Char('j'),
        KeyCode::Char('a'),
        KeyCode::Down,
        KeyCode::Char('G'),
        KeyCode::Char('a'),
        KeyCode::PageUp,
        KeyCode::PageDown,
        KeyCode::Up,
        KeyCode::Enter,
        KeyCode::Backspace,
        KeyCode::Char('g'),
        KeyCode::Esc,
    ];
    for round in 0..keys.len() {
        for step in 0..keys.len() {
            press(&mut app, keys[(step * (round + 1)) % keys.len()]);
            in_order(&app);
        }
    }
}

#[test]
fn shorter_listings_pull_the_cursor_back() {
    let mut app = test_app();
    app.entries = (0..9).map(|i| entry(&format!("e{i}"), EntryKind::File)).collect();
    app.selected = 8;
    app.request_main_listing(String::new());
    let id = app.main_listing_request_id;
    poll(
        &mut app,
        vec![OpResult::Ls(id, String::new(), Ok(vec![entry("x", EntryKind::File)]))],
    );
    assert_eq!(app.selected, 0);
    in_order(&app);
}

#[test]
fn paths_that_are_not_found_leave_the_cart_alone() {
    let mut app = test_app();
    app.cart = vec![entry("a", EntryKind::File)];
    app.path_resolved("/no".to_string(), None, true, Err("not there".to_string()));
    assert_eq!(app.logs.last().unwrap(), "Invalid path: not there");
    assert!(matches!(app.input, InputMode::CartView));
    assert_eq!(app.cart.len(), 1);

    app.path_resolved("/yes".to_string(), None, true, Ok("d".to_string()));
    assert!(app.cart.is_empty());
    let moved = app.take_effects().into_iter().any(|e| {
        matches!(
            e,
            Effect::Remote(RemoteOp::CartMoveCopy { ids, dest_id, is_move: true, .. })
                if ids == ["a"] && dest_id == "d"
        )
    });
    assert!(moved);
    in_order(&app);
}

#[test]
fn requests_have_numbers_of_their_own() {
    let mut app = test_app();
    let first = app.next_async_request_id();
    let second = app.next_async_request_id();
    assert_ne!(first, second);
}

#[test]
fn a_session_is_taken_over_with_its_warnings() {
    let mut app = test_app();
    app.session_adopted(Err("read only".to_string()), Ok(()));
    assert_eq!(app.logs[0], "Warning: failed to save config: read only");
    assert_eq!(app.logs.last().unwrap(), "Login successful");
    assert!(app.loading);
}

#[test]
fn a_share_without_files_is_refused() {
    let op = RemoteOp::SaveShare { share_id: "s".to_string(), to_parent_id: String::new() };
    assert!(matches!(
        remote_outcome(&op, Ok(RemoteReply::Saved(0))),
        OpResult::Failed(m) if m == "Save share failed: share contains no files"
    ));
    assert!(matches!(
        remote_outcome(&op, Ok(RemoteReply::Saved(2))),
        OpResult::Done(m) if m == "Saved 2 item(s) to your drive"
    ));
}

#[test]
fn links_are_told_as_copied_only_when_they_were() {
    let op = RemoteOp::CopyLink { id: "a".to_string(), name: "a.txt".to_string() };
    let link = RemoteReply::Link("https://x".to_string());
    assert_eq!(link_to_copy(&op, &link), Some("https://x".to_string()));
    assert_eq!(link_to_copy(&op, &RemoteReply::Done), None);
    assert!(matches!(
        remote_outcome(&op, Ok(link_tried(Ok(())))),
        OpResult::Done(m) if m == "Copied link: 'a.txt'"
    ));
    assert!(matches!(
        remote_outcome(&op, Ok(link_tried(Err("no tool".to_string())))),
        OpResult::Failed(m) if m == "Clipboard failed: no tool"
    ));
    assert!(matches!(
        remote_outcome(&op, Ok(RemoteReply::Done)),
        OpResult::Failed(m) if m == "Link failed: no link"
    ));
}

#[test]
fn the_link_of_a_new_share_is_copied_without_a_word() {
    let mut app = test_app();
    poll(
        &mut app,
        vec![OpResult::ShareCreated {
            title: "a".to_string(),
            url: "https://x".to_string(),
            pass_code: String::new(),
        }],
    );
    let copied = app.take_effects().into_iter().any(|e| {
        matches!(e, Effect::WriteClipboard { text, source: CopySource::NewShare } if text == "https://x")
    });
    assert!(copied);
    let told = app.logs.len();
    app.clipboard_written("https://x".to_string(), CopySource::NewShare, Err("no".to_string()));
    app.clipboard_written("https://x".to_string(), CopySource::NewShare, Ok(()));
    assert_eq!(app.logs.len(), told);
}

#[test]
fn a_click_closes_the_help_and_nothing_else() {
    let mut app = test_app();
    app.entries = (0..10).map(|i| entry(&format!("e{i}"), EntryKind::File)).collect();
    app.screen.current_pane_area = Rect::new(20, 0, 40, 20);
    app.show_help_sheet = true;
    app.help_scroll = 4;
    app.handle_mouse_click(25, 4, true, None);
    assert!(!app.show_help_sheet);
    assert_eq!((app.help_scroll, app.selected), (0, 0));
}

#[test]
fn chosen_image_protocols_are_kept_when_their_page_is_opened_again() {
    let mut app = test_app();
    let mut draft = config();
    draft.image_protocols = vec![("kitty".to_string(), 2), ("xterm".to_string(), 3)];
    app.input = InputMode::Settings { selected: 9, editing: false, draft, modified: false };
    press(&mut app, KeyCode::Enter);
    assert!(app.take_effects().into_iter().any(|e| matches!(e, Effect::DetectTerminal)));
    let found = || vec![("foot".to_string(), 0), ("kitty".to_string(), 0)];
    app.terminal_detected("foot".to_string(), found());
    let InputMode::ImageProtocolSettings { selected, draft, terminals, .. } = &app.input else {
        panic!("the page is not open");
    };
    assert_eq!(*selected, 0);
    assert_eq!(terminals, &["foot", "kitty", "xterm"]);
    assert_eq!(
        draft.image_protocols,
        [("foot".to_string(), 0), ("kitty".to_string(), 2), ("xterm".to_string(), 3)]
    );

    press(&mut app, KeyCode::Right);
    press(&mut app, KeyCode::Esc);
    press(&mut app, KeyCode::Enter);
    app.terminal_detected("foot".to_string(), found());
    let InputMode::ImageProtocolSettings { draft, modified, .. } = &app.input else {
        panic!("the page is not open");
    };
    assert_eq!(draft.image_protocols[0], ("foot".to_string(), 1));
    assert!(*modified);
}

#[test]
fn settings_stay_in_range_under_every_key() {
    let mut app = test_app();
    let before = app.config.download_jobs;
    for row in [7, 15] {
        for key in [KeyCode::Up, KeyCode::Down] {
            let draft = config();
            app.input = InputMode::Settings { selected: row, editing: true, draft, modified: false };
            for _ in 0..11000 {
                press(&mut app, key);
            }
            let InputMode::Settings { selected, draft, modified, .. } = &app.input else {
                panic!("the settings are closed");
            };
            assert_eq!(*selected, row);
            assert!((1..=16).contains(&draft.download_jobs));
            assert!((1024..=10485760).contains(&draft.preview_max_size));
            assert!(*modified);
        }
    }
    let draft = config();
    app.input = InputMode::Settings { selected: 0, editing: false, draft, modified: false };
    for _ in 0..40 {
        press(&mut app, KeyCode::Down);
    }
    assert!(matches!(app.input, InputMode::Settings { selected: 16, .. }));
    assert_eq!(app.config.download_jobs, before);
}

#[test]
fn what_downloads_tell_is_logged_after_the_replies() {
    let mut app = test_app();
    app.poll_results(
        vec![OpResult::Failed("first".to_string())],
        vec!["second".to_string(), "third".to_string()],
        &HighlightAssets::load(),
    );
    assert_eq!(app.logs, ["first", "second", "third"]);
}
