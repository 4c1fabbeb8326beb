use std::collections::HashSet;
use venv_cleaner::error::VenvCleanerError;
use venv_cleaner::events::{AppEvent, AppState, KeyCode, KeyEvent};
use venv_cleaner::sort_key::SortBy;
use venv_cleaner::timestamp::Timestamp;
use venv_cleaner::tui_app::{deleted_status, found_status, DeletionProgress, TuiApp};
use venv_cleaner::tui_mode::{loaded_status, scanning_status, Screen, TuiAction, TuiMode};
use venv_cleaner::venv_info::VenvInfo;

fn create_test_venv(path: &str, size: u64) -> VenvInfo {
    let now = Timestamp::now();
    VenvInfo::new(path.to_string(), size, now, now)
}

fn key(code: KeyCode) -> KeyEvent {
    KeyEvent::new(code, false)
}

fn ctrl(c: char) -> KeyEvent {
    KeyEvent::new(KeyCode::Char(c), true)
}

fn three() -> Vec<VenvInfo> {
    vec![
        create_test_venv("/path1/.venv", 100),
        create_test_venv("/path2/.venv", 200),
        create_test_venv("/path3/.venv", 300),
    ]
}

fn browsing() -> TuiMode {
    let mut mode = TuiMode::new("/base".to_string(), true, 0);
    assert!(matches!(mode.run(), TuiAction::StartScan));
    assert!(matches!(mode.handle_event(AppEvent::VenvsLoaded(three()), 0), TuiAction::Nothing));
    assert_eq!(*mode.app().state(), AppState::Browsing);
    mode
}

fn paths(venvs: &Vec<VenvInfo>) -> Vec<&str> {
    venvs.iter().map(|v| v.path()).collect()
}

#[test]
fn test_app_initialization() {
    let app = TuiApp::new();
    assert_eq!(app.state(), &AppState::Loading);
    assert_eq!(app.venvs().len(), 0);
    assert_eq!(app.selected_index(), 0);
    assert!(!app.has_selected_items());
}

#[test]
fn test_selection_navigation() {
    let mut app = TuiApp::new();
    let venvs = vec![
        create_test_venv("/path1/.venv", 100),
        create_test_venv("/path2/.venv", 200),
        create_test_venv("/path3/.venv", 300),
    ];
    app.set_venvs(venvs);

    assert_eq!(app.selected_index(), 0);

    app.select_next();
    assert_eq!(app.selected_index(), 1);

    app.select_next();
    assert_eq!(app.selected_index(), 2);

    app.select_next(); // Should stay at last item
    assert_eq!(app.selected_index(), 2);

    app.select_previous();
    assert_eq!(app.selected_index(), 1);

    app.select_first();
    assert_eq!(app.selected_index(), 0);

    app.select_last();
    assert_eq!(app.selected_index(), 2);
}

#[test]
fn test_item_selection() {
    let mut app = TuiApp::new();
    let venvs = vec![create_test_venv("/path1/.venv", 100), create_test_venv("/path2/.venv", 200)];
    app.set_venvs(venvs);

    assert!(!app.has_selected_items());

    app.toggle_selected();
    assert!(app.has_selected_items());
    assert!(app.is_item_selected(0));

    app.select_next();
    app.toggle_selected();
    assert_eq!(app.selected_venvs().len(), 2);

    app.deselect_all();
    assert!(!app.has_selected_items());

    app.select_all();
    assert_eq!(app.selected_venvs().len(), 2);
}

#[test]
fn test_sorting() {
    let mut app = TuiApp::new();
    assert_eq!(app.sort_by(), SortBy::Path);

    app.cycle_sort();
    assert_eq!(app.sort_by(), SortBy::Size);

    app.cycle_sort();
    assert_eq!(app.sort_by(), SortBy::Created);

    app.cycle_sort();
    assert_eq!(app.sort_by(), SortBy::LastModified);

    app.cycle_sort();
    assert_eq!(app.sort_by(), SortBy::Path);
}

#[test]
fn the_state_at_the_start() {
    let app = TuiApp::default();
    assert_eq!(app.status(), "Initializing...");
    assert_eq!(app.error_message(), "");
    assert_eq!(app.current_directory(), ".");
    assert!(app.is_recursive());
    assert!(!app.show_details());
    assert_eq!(app.loading_dots(), 0);
    assert_eq!(app.scroll_offset(), 0);
    assert_eq!(app.visible_items(), 20);
    assert!(app.selected_venv().is_none());
    assert_eq!(app.visible_range(), (0, 0));
    let progress = DeletionProgress::default();
    assert_eq!(
        (progress.total, progress.completed, progress.successful, progress.failed),
        (0, 0, 0, 0)
    );
    assert!(progress.results.is_empty());
}

#[test]
fn a_new_list_is_sorted_and_unmarked() {
    let mut app = TuiApp::new();
    app.set_venvs(vec![
        create_test_venv("/b/.venv", 1),
        create_test_venv("/c/.venv", 2),
        create_test_venv("/a/.venv", 3),
    ]);
    assert_eq!(paths(app.venvs()), vec!["/a/.venv", "/b/.venv", "/c/.venv"]);
    assert_eq!(app.status(), "Found 3 .venv directories");
    app.select_all();
    app.select_last();
    assert_eq!(app.selected_venvs().len(), 3);

    // a search that finds fewer leaves no mark behind
    app.set_venvs(vec![create_test_venv("/only/.venv", 9)]);
    assert!(app.selected_venvs().is_empty());
    assert!(!app.has_selected_items());
    assert_eq!(app.selected_index(), 0);
    assert_eq!(app.scroll_offset(), 0);
    assert!(app.get_selected_venvs().is_empty());

    // nor does one that finds more, or nothing
    app.toggle_selected();
    app.set_venvs(three());
    assert!(app.selected_venvs().is_empty());
    app.select_all();
    app.set_venvs(vec![]);
    assert!(app.selected_venvs().is_empty());
    assert_eq!(app.status(), "No .venv directories found");
}

#[test]
fn marks_never_point_past_the_list() {
    let mut app = TuiApp::new();
    // nothing to mark in an empty list
    app.toggle_selected();
    assert!(!app.has_selected_items());
    app.select_all();
    assert!(!app.has_selected_items());

    app.set_venvs(three());
    app.select_last();
    app.toggle_selected();
    assert_eq!(app.selected_venvs(), &HashSet::from([2]));
    app.toggle_selected();
    assert!(app.selected_venvs().is_empty());
    app.select_all();
    assert_eq!(app.selected_venvs(), &HashSet::from([0, 1, 2]));
    assert_eq!(paths(&app.get_selected_venvs()), vec!["/path1/.venv", "/path2/.venv", "/path3/.venv"]);
}

#[test]
fn sorting_anew_drops_the_marks() {
    let mut app = TuiApp::new();
    app.set_venvs(three());
    app.select_all();
    app.cycle_sort(); // by size, largest first
    assert_eq!(app.sort_by(), SortBy::Size);
    assert_eq!(paths(app.venvs()), vec!["/path3/.venv", "/path2/.venv", "/path1/.venv"]);
    assert!(app.selected_venvs().is_empty());

    app.toggle_selected();
    app.reverse_sort();
    assert_eq!(paths(app.venvs()), vec!["/path1/.venv", "/path2/.venv", "/path3/.venv"]);
    assert!(app.selected_venvs().is_empty());
}

#[test]
fn paging_and_scrolling() {
    let mut app = TuiApp::new();
    let many: Vec<VenvInfo> =
        (0..50).map(|k| create_test_venv(&format!("/p{:02}/.venv", k), k)).collect();
    app.set_venvs(many);
    app.set_visible_items(10);
    assert_eq!(app.visible_range(), (0, 10));

    app.page_down();
    assert_eq!(app.selected_index(), 9);
    assert_eq!(app.scroll_offset(), 0);
    app.page_down();
    assert_eq!(app.selected_index(), 18);
    assert_eq!(app.scroll_offset(), 9);
    assert_eq!(app.visible_range(), (9, 19));
    app.select_last();
    assert_eq!(app.selected_index(), 49);
    assert_eq!(app.scroll_offset(), 40);
    assert_eq!(app.visible_range(), (40, 50));
    app.page_down();
    assert_eq!(app.selected_index(), 49);
    app.page_up();
    assert_eq!(app.selected_index(), 40);
    assert_eq!(app.scroll_offset(), 40);
    app.select_previous();
    assert_eq!(app.selected_index(), 39);
    assert_eq!(app.scroll_offset(), 39);
    app.select_first();
    assert_eq!((app.selected_index(), app.scroll_offset()), (0, 0));
    app.page_up();
    assert_eq!((app.selected_index(), app.scroll_offset()), (0, 0));

    // a screen without rows shows the cursor's row first
    app.set_visible_items(0);
    app.select_next();
    assert_eq!((app.selected_index(), app.scroll_offset()), (1, 1));
    assert_eq!(app.visible_range(), (1, 1));
    app.page_down();
    assert_eq!(app.selected_index(), 1);
}

#[test]
fn the_animation_advances_after_half_a_second() {
    let mut app = TuiApp::new();
    app.tick(500);
    assert_eq!(app.loading_dots(), 0);
    app.tick(501);
    assert_eq!(app.loading_dots(), 1);
    app.tick(900);
    assert_eq!(app.loading_dots(), 1);
    app.tick(1002);
    assert_eq!(app.loading_dots(), 2);
    app.tick(2000);
    app.tick(3000);
    assert_eq!(app.loading_dots(), 0);
    // a clock that runs backwards changes nothing
    app.tick(10);
    assert_eq!(app.loading_dots(), 0);
}

#[test]
fn statistics_at_a_fixed_instant() {
    let now = Timestamp::from_parts(1_700_000_000, 0);
    let mb: u64 = 1024 * 1024;
    let mut app = TuiApp::new();
    app.set_venvs(vec![
        VenvInfo::new("/a/.venv".to_string(), 10 * mb, now, now.minus_days(5)),
        VenvInfo::new("/b/.venv".to_string(), 200 * mb, now, now.minus_days(45)),
        VenvInfo::new("/c/.venv".to_string(), 2048 * mb, now, now.minus_days(120)),
    ]);
    let stats = app.get_summary_stats_at(&now);
    assert_eq!(stats.total_count, 3);
    assert_eq!(stats.recent_count, 1);
    assert_eq!(stats.old_count, 1);
    assert_eq!(stats.total_count - stats.recent_count - stats.old_count, 1);
    assert_eq!(stats.total_size, 10 * mb + 200 * mb + 2048 * mb);
    assert_eq!(stats.selected_count, 0);
    assert_eq!(stats.selected_size, 0);

    app.select_next();
    app.toggle_selected();
    app.select_next();
    app.toggle_selected();
    let stats = app.get_summary_stats_at(&now);
    assert_eq!(stats.selected_count, 2);
    assert_eq!(stats.selected_size, 200 * mb + 2048 * mb);
    let by_clock = app.get_summary_stats();
    assert_eq!(by_clock.total_size, stats.total_size);
    assert_eq!(by_clock.selected_size, stats.selected_size);
}

#[test]
fn totals_stop_at_the_largest_number() {
    let mut app = TuiApp::new();
    app.set_venvs(vec![create_test_venv("/a/.venv", u64::MAX - 1), create_test_venv("/b/.venv", 5)]);
    let stats = app.get_summary_stats_at(&Timestamp::now());
    assert_eq!(stats.total_size, u64::MAX);
}

#[test]
fn results_of_a_removal() {
    let mut app = TuiApp::new();
    app.set_venvs(three());
    app.select_all();
    app.select_last();
    let results = vec![
        (create_test_venv("/path1/.venv", 100), Ok(())),
        (
            create_test_venv("/path2/.venv", 200),
            Err(VenvCleanerError::PermissionDenied { path: "/path2/.venv".to_string() }),
        ),
        (create_test_venv("/path3/.venv", 300), Ok(())),
    ];
    app.handle_deletion_results(results);
    let progress = app.deletion_progress();
    assert_eq!((progress.total, progress.completed), (3, 3));
    assert_eq!((progress.successful, progress.failed), (2, 1));
    assert_eq!(
        progress.results,
        vec![
            ("/path1/.venv".to_string(), true),
            ("/path2/.venv".to_string(), false),
            ("/path3/.venv".to_string(), true),
        ]
    );
    assert_eq!(
        app.status(),
        "⚠️ Deleted 2 directories, 1 failed. Check permissions for failed items."
    );
    assert!(app.selected_venvs().is_empty());
    assert_eq!((app.selected_index(), app.scroll_offset()), (0, 0));

    app.handle_deletion_results(vec![(create_test_venv("/path1/.venv", 100), Ok(()))]);
    assert_eq!(
        app.status(),
        "✅ Successfully deleted 1 directories. List will refresh automatically."
    );
}

#[test]
fn status_lines() {
    assert_eq!(found_status(0), "No .venv directories found");
    assert_eq!(found_status(12), "Found 12 .venv directories");
    assert_eq!(
        deleted_status(3, 0),
        "✅ Successfully deleted 3 directories. List will refresh automatically."
    );
    assert_eq!(
        deleted_status(0, 2),
        "⚠️ Deleted 0 directories, 2 failed. Check permissions for failed items."
    );
    assert_eq!(scanning_status(true), "🔍 Scanning for .venv directories recursively...");
    assert_eq!(scanning_status(false), "🔍 Scanning for .venv directories in current directory...");
    assert_eq!(
        loaded_status(0),
        "No .venv directories found. Press 'r' to refresh or 'q' to quit."
    );
    assert_eq!(
        loaded_status(4),
        "Found 4 .venv directories. Use arrow keys to navigate, Space to select."
    );
}

#[test]
fn the_folder_of_the_entry_under_the_cursor() {
    let mut app = TuiApp::new();
    assert_eq!(app.open_folder(), None);
    app.set_venvs(vec![create_test_venv("/home/me/proj/.venv", 1)]);
    assert_eq!(app.open_folder(), Some("/home/me/proj".to_string()));
    app.toggle_details();
    assert!(app.show_details());
}

#[test]
fn a_run_from_loading_to_browsing() {
    let mut mode = TuiMode::new("/base".to_string(), false, 2);
    assert_eq!(mode.cleaner().base_directory(), "/base");
    assert!(!mode.cleaner().is_recursive());
    assert!(!mode.cleaner().is_force_mode());
    assert!(!mode.cleaner().is_dry_run());
    assert_eq!(mode.cleaner().verbosity(), 2);
    assert_eq!(mode.app().current_directory(), "/base");
    assert_eq!(mode.draw_ui(), Screen::Loading);

    assert!(matches!(mode.run(), TuiAction::StartScan));
    assert_eq!(*mode.app().state(), AppState::Loading);
    assert_eq!(mode.app().status(), "🔍 Scanning for .venv directories in current directory...");

    // while loading, keys other than the ones that leave do nothing
    assert!(matches!(mode.handle_key_event(key(KeyCode::Down)), TuiAction::Nothing));
    assert_eq!(*mode.app().state(), AppState::Loading);

    assert!(matches!(mode.handle_event(AppEvent::VenvsLoaded(three()), 0), TuiAction::Nothing));
    assert_eq!(*mode.app().state(), AppState::Browsing);
    assert_eq!(mode.app().venvs().len(), 3);
    assert_eq!(mode.draw_ui(), Screen::Main);
}

#[test]
fn a_failed_search_is_shown_and_acknowledged() {
    let mut mode = TuiMode::new("/base".to_string(), true, 0);
    mode.run();
    let action = mode.handle_event(AppEvent::LoadError("no such luck".to_string()), 0);
    assert!(matches!(action, TuiAction::Nothing));
    assert_eq!(*mode.app().state(), AppState::Error);
    assert_eq!(mode.app().error_message(), "no such luck");
    assert_eq!(mode.draw_ui(), Screen::Error);
    assert!(matches!(mode.handle_key_event(key(KeyCode::Char('z'))), TuiAction::Nothing));
    assert_eq!(*mode.app().state(), AppState::Error);
    assert!(matches!(mode.handle_key_event(key(KeyCode::Enter)), TuiAction::Nothing));
    assert_eq!(*mode.app().state(), AppState::Browsing);

    mode.finish_loading(Err(VenvCleanerError::NoVenvFound));
    assert_eq!(*mode.app().state(), AppState::Error);
    assert_eq!(mode.app().error_message(), "No .venv folders found in the specified directory");
    assert!(matches!(mode.handle_key_event(key(KeyCode::Char('q'))), TuiAction::Quit));
    assert_eq!(*mode.app().state(), AppState::Quit);
}

#[test]
fn a_search_run_to_its_end() {
    let mut mode = TuiMode::new("/base".to_string(), true, 0);
    mode.finish_loading(Ok(three()));
    assert_eq!(*mode.app().state(), AppState::Browsing);
    assert_eq!(
        mode.app().status(),
        "Found 3 .venv directories. Use arrow keys to navigate, Space to select."
    );
    mode.finish_loading(Ok(vec![]));
    assert_eq!(
        mode.app().status(),
        "No .venv directories found. Press 'r' to refresh or 'q' to quit."
    );
}

#[test]
fn keys_while_browsing() {
    let mut mode = browsing();
    mode.handle_key_event(key(KeyCode::Down));
    assert_eq!(mode.app().selected_index(), 1);
    mode.handle_key_event(key(KeyCode::End));
    assert_eq!(mode.app().selected_index(), 2);
    mode.handle_key_event(key(KeyCode::Up));
    assert_eq!(mode.app().selected_index(), 1);
    mode.handle_key_event(key(KeyCode::Home));
    assert_eq!(mode.app().selected_index(), 0);
    mode.set_visible_items(2);
    mode.handle_key_event(key(KeyCode::PageDown));
    assert_eq!(mode.app().selected_index(), 1);
    mode.handle_key_event(key(KeyCode::PageUp));
    assert_eq!(mode.app().selected_index(), 0);

    mode.handle_key_event(key(KeyCode::Char(' ')));
    assert!(mode.app().is_item_selected(0));
    mode.handle_key_event(key(KeyCode::Enter));
    assert!(!mode.app().is_item_selected(0));
    // without Control, a and d are just letters
    mode.handle_key_event(key(KeyCode::Char('a')));
    assert!(!mode.app().has_selected_items());
    mode.handle_key_event(ctrl('a'));
    assert_eq!(mode.app().selected_venvs().len(), 3);
    mode.handle_key_event(key(KeyCode::Char('d')));
    assert_eq!(mode.app().selected_venvs().len(), 3);
    mode.handle_key_event(ctrl('d'));
    assert!(!mode.app().has_selected_items());

    mode.handle_key_event(key(KeyCode::Char('s')));
    assert_eq!(mode.app().sort_by(), SortBy::Size);
    assert_eq!(mode.app().status(), "Sorted by Size");
    assert_eq!(paths(mode.app().venvs()), vec!["/path3/.venv", "/path2/.venv", "/path1/.venv"]);

    mode.handle_key_event(key(KeyCode::Char('h')));
    assert_eq!(*mode.app().state(), AppState::Help);
    assert_eq!(mode.draw_ui(), Screen::Help);
    mode.handle_key_event(key(KeyCode::Other));
    assert_eq!(*mode.app().state(), AppState::Browsing);
    mode.handle_key_event(key(KeyCode::F(1)));
    assert_eq!(*mode.app().state(), AppState::Help);
    mode.handle_key_event(key(KeyCode::Esc));
    assert_eq!(*mode.app().state(), AppState::Browsing);
    mode.handle_key_event(key(KeyCode::F(2)));
    assert_eq!(*mode.app().state(), AppState::Browsing);

    match mode.handle_key_event(key(KeyCode::Char('o'))) {
        TuiAction::OpenFolder(folder) => assert_eq!(folder, "/path3"),
        other => panic!("unexpected: {:?}", other),
    }
    assert!(matches!(mode.handle_key_event(key(KeyCode::Char('r'))), TuiAction::StartScan));
    assert_eq!(*mode.app().state(), AppState::Loading);
}

#[test]
fn a_removal_has_to_be_confirmed() {
    let mut mode = browsing();
    // nothing marked: the request is not even put
    assert!(matches!(mode.handle_key_event(key(KeyCode::Delete)), TuiAction::Nothing));
    assert_eq!(*mode.app().state(), AppState::Browsing);
    assert!(matches!(mode.handle_key_event(key(KeyCode::Char('x'))), TuiAction::Nothing));
    assert_eq!(*mode.app().state(), AppState::Browsing);

    mode.handle_key_event(key(KeyCode::Down));
    mode.handle_key_event(key(KeyCode::Char(' ')));
    mode.handle_key_event(key(KeyCode::Char('x')));
    assert_eq!(*mode.app().state(), AppState::ConfirmingDeletion);
    assert_eq!(mode.draw_ui(), Screen::MainWithConfirmation);

    // declined: back to the list, the mark is still there
    assert!(matches!(mode.handle_key_event(key(KeyCode::Char('n'))), TuiAction::Nothing));
    assert_eq!(*mode.app().state(), AppState::Browsing);
    assert!(mode.app().is_item_selected(1));
    assert_eq!(mode.app().selected_venvs().len(), 1);

    mode.handle_key_event(key(KeyCode::Delete));
    // other keys neither confirm nor decline
    assert!(matches!(mode.handle_key_event(key(KeyCode::Char('z'))), TuiAction::Nothing));
    assert!(matches!(mode.handle_key_event(key(KeyCode::Down)), TuiAction::Nothing));
    assert_eq!(*mode.app().state(), AppState::ConfirmingDeletion);
    match mode.handle_key_event(key(KeyCode::Char('y'))) {
        TuiAction::StartDeletion(venvs) => {
            assert_eq!(paths(&venvs), vec!["/path2/.venv"]);
        }
        other => panic!("unexpected: {:?}", other),
    }
    assert_eq!(*mode.app().state(), AppState::Deleting);
    assert_eq!(mode.app().status(), "Deleting selected directories...");
    assert_eq!(mode.draw_ui(), Screen::MainWithProgress);

    // while deleting, keys that do not ask to leave do nothing
    assert!(matches!(mode.handle_key_event(key(KeyCode::Char('r'))), TuiAction::Nothing));
    assert!(matches!(mode.handle_key_event(key(KeyCode::Enter)), TuiAction::Nothing));
    assert!(matches!(mode.handle_key_event(ctrl('a')), TuiAction::Nothing));
    assert_eq!(*mode.app().state(), AppState::Deleting);

    let results = vec![(create_test_venv("/path2/.venv", 200), Ok(()))];
    let action = mode.handle_event(AppEvent::DeletionComplete(results), 0);
    assert!(matches!(action, TuiAction::StartScan));
    assert_eq!(*mode.app().state(), AppState::Loading);
    assert!(!mode.app().has_selected_items());
    assert_eq!(mode.app().deletion_progress().successful, 1);
    assert_eq!(mode.app().deletion_progress().failed, 0);
    // the outcome stays in the status while the list is searched anew
    assert_eq!(
        mode.app().status(),
        "✅ Successfully deleted 1 directories. List will refresh automatically."
    );
    assert_eq!(mode.draw_ui(), Screen::Loading);
    // and no second search can be started meanwhile
    assert!(matches!(mode.handle_key_event(key(KeyCode::Char('r'))), TuiAction::Nothing));
}

#[test]
fn leaving_during_a_removal() {
    let mut mode = browsing();
    mode.handle_key_event(key(KeyCode::Char(' ')));
    mode.handle_key_event(key(KeyCode::Delete));
    mode.handle_key_event(key(KeyCode::Enter));
    assert_eq!(*mode.app().state(), AppState::Deleting);
    assert!(matches!(mode.handle_key_event(ctrl('q')), TuiAction::Quit));
    assert_eq!(*mode.app().state(), AppState::Quit);
}

#[test]
fn quitting_before_the_search_is_back() {
    let mut mode = TuiMode::new("/base".to_string(), true, 0);
    assert!(matches!(mode.run(), TuiAction::StartScan));
    // the user leaves while the worker is still out
    assert!(matches!(mode.handle_event(AppEvent::Input(key(KeyCode::Char('q'))), 0), TuiAction::Quit));
    assert_eq!(*mode.app().state(), AppState::Quit);
    assert_eq!(mode.draw_ui(), Screen::Blank);

    // whatever arrives now is dropped
    let late = mode.handle_event(AppEvent::VenvsLoaded(three()), 10);
    assert!(matches!(late, TuiAction::Quit));
    assert!(mode.app().venvs().is_empty());
    assert_eq!(*mode.app().state(), AppState::Quit);
    assert!(matches!(mode.handle_event(AppEvent::LoadError("late".into()), 20), TuiAction::Quit));
    assert_eq!(mode.app().error_message(), "");
    assert!(matches!(mode.handle_event(AppEvent::Tick, 100_000), TuiAction::Quit));
    assert_eq!(mode.app().loading_dots(), 0);
    assert!(matches!(mode.handle_event(AppEvent::DeletionComplete(vec![]), 30), TuiAction::Quit));
    assert!(matches!(mode.handle_key_event(key(KeyCode::Char('r'))), TuiAction::Quit));
    assert_eq!(*mode.app().state(), AppState::Quit);
}

#[test]
fn escape_leaves_from_loading_and_browsing() {
    let mut loading = TuiMode::new("/base".to_string(), true, 0);
    assert!(matches!(loading.handle_key_event(key(KeyCode::Esc)), TuiAction::Quit));
    let mut mode = browsing();
    assert!(matches!(mode.handle_key_event(key(KeyCode::Esc)), TuiAction::Quit));
    assert_eq!(*mode.app().state(), AppState::Quit);
}

#[test]
fn ticks_drive_the_animation() {
    let mut mode = TuiMode::new("/base".to_string(), true, 0);
    assert!(matches!(mode.handle_event(AppEvent::Tick, 600), TuiAction::Nothing));
    assert_eq!(mode.app().loading_dots(), 1);
    mode.handle_tick(700);
    assert_eq!(mode.app().loading_dots(), 1);
    mode.handle_tick(1200);
    assert_eq!(mode.app().loading_dots(), 2);
}

#[test]
fn a_new_search_supersedes_the_list() {
    let mut mode = browsing();
    mode.handle_key_event(ctrl('a'));
    let action = mode.handle_event(AppEvent::VenvsLoaded(vec![create_test_venv("/z/.venv", 1)]), 0);
    assert!(matches!(action, TuiAction::Nothing));
    assert_eq!(paths(mode.app().venvs()), vec!["/z/.venv"]);
    assert!(!mode.app().has_selected_items());
    assert_eq!(*mode.app().state(), AppState::Browsing);
}

fn in_state(state: AppState) -> TuiMode {
    let mut mode = browsing();
    mode.handle_key_event(key(KeyCode::Down));
    mode.handle_key_event(key(KeyCode::Char(' ')));
    match state {
        AppState::Loading => {
            mode.handle_key_event(key(KeyCode::Char('r')));
        }
        AppState::Browsing => {}
        AppState::ConfirmingDeletion => {
            mode.handle_key_event(key(KeyCode::Delete));
        }
        AppState::Deleting => {
            mode.handle_key_event(key(KeyCode::Delete));
            mode.handle_key_event(key(KeyCode::Char('y')));
        }
        AppState::Error => {
            mode.handle_key_event(key(KeyCode::Char('r')));
            mode.handle_event(AppEvent::LoadError("boom".to_string()), 0);
        }
        AppState::Help => {
            mode.handle_key_event(key(KeyCode::Char('h')));
        }
        AppState::Quit => {
            mode.handle_key_event(key(KeyCode::Char('q')));
        }
    }
    assert_eq!(*mode.app().state(), state);
    mode
}

#[test]
fn q_leaves_from_every_state() {
    for state in [
        AppState::Loading,
        AppState::Browsing,
        AppState::ConfirmingDeletion,
        AppState::Deleting,
        AppState::Error,
        AppState::Help,
    ] {
        for control in [false, true] {
            let mut mode = in_state(state);
            let marks = mode.app().selected_venvs().clone();
            let action = mode.handle_key_event(KeyEvent::new(KeyCode::Char('q'), control));
            assert!(matches!(action, TuiAction::Quit), "{:?}", state);
            assert_eq!(*mode.app().state(), AppState::Quit, "{:?}", state);
            // the list and the marks are as they were
            assert_eq!(paths(mode.app().venvs()), vec!["/path1/.venv", "/path2/.venv", "/path3/.venv"]);
            assert_eq!(mode.app().selected_venvs(), &marks);
            // and nothing is taken in any more
            assert!(matches!(mode.handle_event(AppEvent::VenvsLoaded(vec![]), 0), TuiAction::Quit));
            assert_eq!(mode.app().venvs().len(), 3);
        }
    }
}

#[test]
fn escape_leaves_where_nothing_is_to_be_declined() {
    for (state, leaves) in [
        (AppState::Loading, true),
        (AppState::Browsing, true),
        (AppState::Deleting, true),
        (AppState::ConfirmingDeletion, false),
        (AppState::Error, false),
        (AppState::Help, false),
    ] {
        let mut mode = in_state(state);
        let action = mode.handle_key_event(key(KeyCode::Esc));
        if leaves {
            assert!(matches!(action, TuiAction::Quit), "{:?}", state);
            assert_eq!(*mode.app().state(), AppState::Quit);
        } else {
            assert!(matches!(action, TuiAction::Nothing), "{:?}", state);
            assert_eq!(*mode.app().state(), AppState::Browsing);
        }
    }
}
