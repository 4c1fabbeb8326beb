use venv_cleaner::error::VenvCleanerError;
use venv_cleaner::events::{
    get_shortcuts_for_state, AppEvent, AppState, EventHandler, KeyCode, KeyEvent,
    KeyboardShortcuts, NextStep, Shortcut,
};
use venv_cleaner::sort_key::SortBy;
use venv_cleaner::timestamp::Timestamp;
use venv_cleaner::venv_info::VenvInfo;

#[test]
fn test_shortcut_matching() {
    let quit_key = KeyEvent::new(KeyCode::Char('q'), false);
    assert!(Shortcut::Quit.matches_shortcut(&quit_key));

    let esc_key = KeyEvent::new(KeyCode::Esc, false);
    assert!(Shortcut::Quit.matches_shortcut(&esc_key));

    let ctrl_a = KeyEvent::new(KeyCode::Char('a'), true);
    assert!(Shortcut::SelectAll.matches_shortcut(&ctrl_a));

    let regular_a = KeyEvent::new(KeyCode::Char('a'), false);
    assert!(!Shortcut::SelectAll.matches_shortcut(&regular_a));
}

#[test]
fn test_shortcut_display_strings() {
    assert_eq!(Shortcut::Quit.display_string(), "q/Esc");
    assert_eq!(Shortcut::Help.display_string(), "h/F1");
    assert_eq!(Shortcut::SelectAll.display_string(), "Ctrl+A");
}

#[test]
fn test_shortcuts_for_state() {
    let loading_shortcuts = get_shortcuts_for_state(&AppState::Loading);
    assert_eq!(loading_shortcuts.len(), 1);
    assert!(loading_shortcuts.contains(&Shortcut::Quit));

    let browsing_shortcuts = get_shortcuts_for_state(&AppState::Browsing);
    assert!(browsing_shortcuts.len() > 5);
    assert!(browsing_shortcuts.contains(&Shortcut::Quit));
    assert!(browsing_shortcuts.contains(&Shortcut::Help));
    assert!(browsing_shortcuts.contains(&Shortcut::Delete));
}

#[test]
fn test_event_handler_creation() {
    let handler = EventHandler::new(100, 0);
    assert_eq!(handler.tick_interval_ms, 100);
    assert_eq!(handler.last_tick_ms, 0);
}

#[test]
fn test_sort_by_cycle() {
    assert_eq!(SortBy::Path.next(), SortBy::Size);
    assert_eq!(SortBy::Size.next(), SortBy::Created);
    assert_eq!(SortBy::Created.next(), SortBy::LastModified);
    assert_eq!(SortBy::LastModified.next(), SortBy::Path);
}

#[test]
fn test_sort_by_previous() {
    assert_eq!(SortBy::Path.previous(), SortBy::LastModified);
    assert_eq!(SortBy::Size.previous(), SortBy::Path);
    assert_eq!(SortBy::Created.previous(), SortBy::Size);
    assert_eq!(SortBy::LastModified.previous(), SortBy::Created);
}

#[test]
fn test_sort_by_display_names() {
    assert_eq!(SortBy::Path.display_name(), "Path");
    assert_eq!(SortBy::Size.display_name(), "Size");
    assert_eq!(SortBy::Created.display_name(), "Created");
    assert_eq!(SortBy::LastModified.display_name(), "Last Used");
}

#[test]
fn every_shortcut_has_its_keys_and_label() {
    let plain = |code| KeyEvent::new(code, false);
    let cases = vec![
        (Shortcut::Quit, plain(KeyCode::Char('q')), "q/Esc"),
        (Shortcut::Help, plain(KeyCode::F(1)), "h/F1"),
        (Shortcut::Refresh, plain(KeyCode::Char('r')), "r"),
        (Shortcut::Up, plain(KeyCode::Up), "↑"),
        (Shortcut::Down, plain(KeyCode::Down), "↓"),
        (Shortcut::Home, plain(KeyCode::Home), "Home"),
        (Shortcut::End, plain(KeyCode::End), "End"),
        (Shortcut::PageUp, plain(KeyCode::PageUp), "PgUp"),
        (Shortcut::PageDown, plain(KeyCode::PageDown), "PgDn"),
        (Shortcut::Toggle, plain(KeyCode::Char(' ')), "Space/Enter"),
        (Shortcut::SelectAll, KeyEvent::new(KeyCode::Char('a'), true), "Ctrl+A"),
        (Shortcut::DeselectAll, KeyEvent::new(KeyCode::Char('d'), true), "Ctrl+D"),
        (Shortcut::Delete, plain(KeyCode::Delete), "Del/x"),
        (Shortcut::Sort, plain(KeyCode::Char('s')), "s"),
        (Shortcut::OpenFolder, plain(KeyCode::Char('o')), "o"),
        (Shortcut::Confirm, plain(KeyCode::Char('y')), "y/Enter"),
        (Shortcut::Cancel, plain(KeyCode::Char('n')), "n/Esc"),
    ];
    for (shortcut, key, label) in cases {
        assert!(shortcut.matches_shortcut(&key), "{:?}", shortcut);
        assert!(!shortcut.matches_shortcut(&plain(KeyCode::Other)), "{:?}", shortcut);
        assert_eq!(shortcut.display_string(), label);
    }
    assert!(!Shortcut::Help.matches_shortcut(&plain(KeyCode::F(2))));
    assert!(Shortcut::Toggle.matches_shortcut(&plain(KeyCode::Enter)));
    assert!(Shortcut::Confirm.matches_shortcut(&plain(KeyCode::Enter)));
    assert!(Shortcut::Cancel.matches_shortcut(&plain(KeyCode::Esc)));
}

#[test]
fn shortcuts_of_the_other_states() {
    assert_eq!(
        get_shortcuts_for_state(&AppState::ConfirmingDeletion),
        vec![Shortcut::Confirm, Shortcut::Cancel]
    );
    assert_eq!(get_shortcuts_for_state(&AppState::Deleting), vec![Shortcut::Quit]);
    assert_eq!(get_shortcuts_for_state(&AppState::Error), vec![Shortcut::Quit, Shortcut::Cancel]);
    assert!(get_shortcuts_for_state(&AppState::Help).is_empty());
    assert!(get_shortcuts_for_state(&AppState::Quit).is_empty());
    assert_eq!(get_shortcuts_for_state(&AppState::Browsing).len(), 15);
}

#[test]
fn ticks_come_when_the_interval_has_passed() {
    let mut handler = EventHandler::new(250, 1000);
    assert!(!handler.tick_due(1000));
    assert!(!handler.tick_due(1249));
    assert!(handler.tick_due(1250));
    // a clock that runs backwards counts as no time passed
    assert!(!handler.tick_due(10));

    assert_eq!(handler.next(1100), NextStep::Wait);
    assert_eq!(handler.last_tick_ms, 1000);
    assert_eq!(handler.next(1300), NextStep::QueuedOrTick);
    assert_eq!(handler.last_tick_ms, 1300);

    assert!(handler.try_next(1400).is_none());
    assert_eq!(handler.last_tick_ms, 1300);
    assert!(matches!(handler.try_next(1550), Some(AppEvent::Tick)));
    assert_eq!(handler.last_tick_ms, 1550);
}

#[test]
fn a_queued_event_goes_before_the_tick() {
    assert!(matches!(AppEvent::queued_or_tick(None), AppEvent::Tick));
    let queued = AppEvent::LoadError("gone".to_string());
    match AppEvent::queued_or_tick(Some(queued)) {
        AppEvent::LoadError(text) => assert_eq!(text, "gone"),
        _ => panic!("the queued event was lost"),
    }
}

#[test]
fn a_search_ends_in_one_event() {
    let now = Timestamp::from_parts(1_700_000_000, 0);
    let found = vec![VenvInfo::new("/p/.venv".to_string(), 5, now, now)];
    match AppEvent::from_search(Ok(found)) {
        AppEvent::VenvsLoaded(venvs) => {
            assert_eq!(venvs.len(), 1);
            assert_eq!(venvs[0].path(), "/p/.venv");
        }
        _ => panic!("expected the environments"),
    }
    match AppEvent::from_search(Err(VenvCleanerError::NoVenvFound)) {
        AppEvent::LoadError(text) => {
            assert_eq!(text, "No .venv folders found in the specified directory")
        }
        _ => panic!("expected the failure"),
    }
}
