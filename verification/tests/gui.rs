use std::collections::HashSet;
use venv_cleaner::cleaner::VenvCleaner;
use venv_cleaner::components::{
    ConfirmationDialog, ProgressIndicator, StatusCard, Toolbar, ToolbarAction,
};
use venv_cleaner::error::VenvCleanerError;
use venv_cleaner::file_utils::PathStatus;
use venv_cleaner::gui::{
    get_age_color, get_age_indicator, get_size_color, DialogResult, GuiAppState, GuiEvent,
    GuiMode, GuiSortBy, Rgba,
};
use venv_cleaner::gui_app::{GuiApp, GuiContent, GuiKey};
use venv_cleaner::sort_key::SortBy;
use venv_cleaner::theme::{ColorSchemes, Colors, FontSize, TermColor, Theme};
use venv_cleaner::timestamp::Timestamp;
use venv_cleaner::venv_info::VenvInfo;

fn venv(path: &str, size: u64) -> VenvInfo {
    let now = Timestamp::from_parts(1_700_000_000, 0);
    VenvInfo::new(path.to_string(), size, now, now)
}

fn three() -> Vec<VenvInfo> {
    vec![
        venv("/work/Shop/.venv", 300),
        venv("/home/me/blog/.venv", 100),
        venv("/home/me/shopping/.venv", 200),
    ]
}

fn app() -> GuiApp {
    let cleaner = VenvCleaner::new("/base".to_string(), true, false, false, 0);
    GuiApp::new(cleaner, "/base".to_string(), true)
}

fn browsing() -> GuiApp {
    let mut app = app();
    assert!(!app.handle_event(GuiEvent::VenvsLoaded(three())));
    app
}

fn paths(venvs: &Vec<VenvInfo>) -> Vec<&str> {
    venvs.iter().map(|v| v.path()).collect()
}

#[test]
fn test_gui_sort_by_cycle() {
    assert_eq!(GuiSortBy::Path.next(), GuiSortBy::Size);
    assert_eq!(GuiSortBy::Size.next(), GuiSortBy::Created);
    assert_eq!(GuiSortBy::Created.next(), GuiSortBy::LastModified);
    assert_eq!(GuiSortBy::LastModified.next(), GuiSortBy::Path);
}

#[test]
fn test_gui_sort_by_display_names() {
    assert_eq!(GuiSortBy::Path.display_name(), "Path");
    assert_eq!(GuiSortBy::Size.display_name(), "Size");
    assert_eq!(GuiSortBy::Created.display_name(), "Created");
    assert_eq!(GuiSortBy::LastModified.display_name(), "Last Used");
}

#[test]
fn test_gui_mode_creation() {
    let gui_mode = GuiMode::new("/tmp/some-dir".to_string(), true, 1);
    assert!(gui_mode.is_ok());
}

#[test]
fn test_status_card_creation() {
    let blue = Rgba::rgb(0, 0, 255);
    let card = StatusCard::new("Test", "123", "🔍", blue);
    assert_eq!(card.title, "Test");
    assert_eq!(card.value, "123");
    assert_eq!(card.icon, "🔍");
    assert_eq!(card.color, blue);
}

#[test]
fn test_confirmation_dialog_creation() {
    let dialog = ConfirmationDialog::new("Test Title", "Test Message").buttons("Yes", "No").danger();

    assert_eq!(dialog.title, "Test Title");
    assert_eq!(dialog.message, "Test Message");
    assert_eq!(dialog.confirm_text, "Yes");
    assert_eq!(dialog.cancel_text, "No");
    assert!(dialog.danger);
}

#[test]
fn test_toolbar_creation() {
    let toolbar = Toolbar::new()
        .action(ToolbarAction::button("Test").icon("🔍").enabled(false))
        .action(ToolbarAction::separator())
        .action(ToolbarAction::button("Another").tooltip("Test tooltip"));

    assert_eq!(toolbar.actions.len(), 3);
}

#[test]
fn test_default_theme() {
    let theme = Theme::default();
    assert_eq!(theme.font_normal, 13);
    assert_eq!(theme.spacing, 8);
    assert_ne!(theme.primary, Rgba::rgba(0, 0, 0, 0));
}

#[test]
fn test_dark_theme() {
    let theme = Theme::dark();
    // Dark theme should have dark background
    assert!(theme.background.r < 100);
    assert!(theme.background.g < 100);
    assert!(theme.background.b < 100);
}

#[test]
fn test_age_colors() {
    let theme = Theme::default();

    // Recent should be green-ish
    let recent_color = theme.get_age_color(15);
    assert_eq!(recent_color, theme.age_recent);

    // Moderate should be yellow-ish
    let moderate_color = theme.get_age_color(60);
    assert_eq!(moderate_color, theme.age_moderate);

    // Old should be red-ish
    let old_color = theme.get_age_color(120);
    assert_eq!(old_color, theme.age_old);
}

#[test]
fn test_size_colors() {
    let theme = Theme::default();

    // Small size should be gray-ish
    let small_color = theme.get_size_color(1024); // 1KB
    assert_eq!(small_color, theme.size_small);

    // Medium size should be orange-ish
    let medium_color = theme.get_size_color(200 * 1024 * 1024); // 200MB
    assert_eq!(medium_color, theme.size_medium);

    // Large size should be red-ish
    let large_color = theme.get_size_color(2 * 1024 * 1024 * 1024); // 2GB
    assert_eq!(large_color, theme.size_large);
}

#[test]
fn test_font_sizes() {
    let theme = Theme::default();

    let small_font = theme.font_id(FontSize::Small);
    let normal_font = theme.font_id(FontSize::Normal);
    let large_font = theme.font_id(FontSize::Large);
    let heading_font = theme.font_id(FontSize::Heading);

    assert_eq!(small_font, theme.font_small);
    assert_eq!(normal_font, theme.font_normal);
    assert_eq!(large_font, theme.font_large);
    assert_eq!(heading_font, theme.font_heading);
}

#[test]
fn test_color_schemes() {
    let blue = ColorSchemes::blue();
    let dark = ColorSchemes::dark();
    let green = ColorSchemes::green();
    let purple = ColorSchemes::purple();

    // Each scheme should have different primary colors
    assert_ne!(blue.primary, dark.primary);
    assert_ne!(blue.primary, green.primary);
    assert_ne!(blue.primary, purple.primary);
    assert_ne!(green.primary, purple.primary);
}

#[test]
fn themes_in_detail() {
    let light = Theme::default();
    assert_eq!(light.primary, Rgba { r: 70, g: 130, b: 200, a: 255 });
    assert_eq!(light.selection, Rgba { r: 70, g: 130, b: 200, a: 80 });
    assert_eq!(
        (light.font_small, light.font_normal, light.font_large, light.font_heading),
        (11, 13, 16, 20)
    );
    assert_eq!((light.padding, light.button_height, light.row_height), (12, 32, 28));
    assert_eq!((light.rounding, light.stroke_width), (4, 1));
    assert_eq!(light.border_stroke(), (1, Rgba::rgb(206, 212, 218)));

    let dark = Theme::dark();
    assert_eq!(dark.background, Rgba::rgb(32, 33, 36));
    assert_eq!(dark.text_primary, Rgba::rgb(255, 255, 255));
    assert_eq!(dark.font_normal, light.font_normal);
    assert_eq!(ColorSchemes::dark(), dark);
    assert_eq!(ColorSchemes::blue(), light);

    let green = ColorSchemes::green();
    assert_eq!(green.primary, Rgba::rgb(40, 167, 69));
    assert_eq!(green.background, light.background);
    let purple = ColorSchemes::purple();
    assert_eq!(purple.hover, Rgba::rgba(108, 117, 225, 40));
    assert_eq!(purple.error, light.error);

    // the bounds of the colour classes belong to the lower class
    assert_eq!(light.get_age_color(30), light.age_recent);
    assert_eq!(light.get_age_color(31), light.age_moderate);
    assert_eq!(light.get_age_color(90), light.age_moderate);
    assert_eq!(light.get_age_color(91), light.age_old);
    assert_eq!(light.get_age_color(-3), light.age_recent);
    assert_eq!(light.get_size_color(100 * 1024 * 1024 - 1), light.size_small);
    assert_eq!(light.get_size_color(100 * 1024 * 1024), light.size_medium);
    assert_eq!(light.get_size_color(1024 * 1024 * 1024 - 1), light.size_medium);
    assert_eq!(light.get_size_color(1024 * 1024 * 1024), light.size_large);
}

#[test]
fn colours_of_the_list() {
    assert_eq!(get_size_color(5), Rgba::rgb(200, 200, 200));
    assert_eq!(get_size_color(100 * 1024 * 1024), Rgba::rgb(255, 200, 100));
    assert_eq!(get_size_color(1024 * 1024 * 1024), Rgba::rgb(255, 100, 100));
    assert_eq!(get_age_color(30), Rgba::rgb(100, 255, 100));
    assert_eq!(get_age_color(90), Rgba::rgb(255, 255, 100));
    assert_eq!(get_age_color(91), Rgba::rgb(255, 100, 100));
    assert_eq!(get_age_indicator(0), "🟢");
    assert_eq!(get_age_indicator(31), "🟡");
    assert_eq!(get_age_indicator(1000), "🔴");
    assert_eq!(Colors::PRIMARY, TermColor::Cyan);
    assert_eq!(Colors::SECONDARY, TermColor::Yellow);
    assert_eq!(Colors::SUCCESS, TermColor::Green);
    assert_eq!(Colors::WARNING, TermColor::Yellow);
    assert_eq!(Colors::ERROR, TermColor::Red);
    assert_eq!(Colors::MUTED, TermColor::Gray);
    assert_eq!(Colors::SELECTED, TermColor::Blue);
    assert_eq!(Colors::HIGHLIGHT, TermColor::Magenta);
    assert_ne!(DialogResult::Confirm, DialogResult::Cancel);
    assert_ne!(DialogResult::Unanswered, DialogResult::Confirm);
}

#[test]
fn parts_of_the_toolbar() {
    let plain = ToolbarAction::button("Refresh");
    assert_eq!(plain.button_text(), "Refresh");
    assert!(matches!(
        plain,
        ToolbarAction::Button { text: "Refresh", icon: None, enabled: true, tooltip: None }
    ));
    let full = plain.icon("🔄").enabled(false).tooltip("Search again");
    assert!(matches!(
        full,
        ToolbarAction::Button {
            text: "Refresh",
            icon: Some("🔄"),
            enabled: false,
            tooltip: Some("Search again")
        }
    ));
    assert_eq!(full.button_text(), "🔄 Refresh");
    let line = ToolbarAction::separator().icon("x").enabled(false).tooltip("y");
    assert!(matches!(line, ToolbarAction::Separator));
    assert_eq!(line.button_text(), "");
    assert!(Toolbar::default().actions.is_empty());
    let dialog = ConfirmationDialog::new("T", "M");
    assert_eq!((dialog.confirm_text, dialog.cancel_text, dialog.danger), ("OK", "Cancel", false));
}

#[test]
fn sort_options_of_both_front_ends_agree() {
    for (gui, plain, index) in [
        (GuiSortBy::Path, SortBy::Path, 0u8),
        (GuiSortBy::Size, SortBy::Size, 1),
        (GuiSortBy::Created, SortBy::Created, 2),
        (GuiSortBy::LastModified, SortBy::LastModified, 3),
    ] {
        assert_eq!(gui.sort_key(), plain);
        assert_eq!(gui.index(), index);
        assert_eq!(gui.next().sort_key(), plain.next());
        assert_eq!(gui.display_name(), plain.display_name());
    }
}

#[test]
fn the_start_of_a_graphical_run() {
    let mode = GuiMode::new("/base".to_string(), false, 3).unwrap();
    let (cleaner, directory, recursive) = mode.into_parts();
    assert_eq!(cleaner.base_directory(), "/base");
    assert!(!cleaner.is_recursive());
    assert!(!cleaner.is_force_mode());
    assert!(!cleaner.is_dry_run());
    assert_eq!(cleaner.verbosity(), 3);
    assert_eq!(directory, "/base");
    assert!(!recursive);

    let app = GuiApp::new(cleaner, directory, recursive);
    assert_eq!(app.state(), GuiAppState::Loading);
    assert_eq!(app.status(), "🔍 Scanning for .venv directories in current directory...");
    assert!(app.venvs().is_empty());
    assert!(app.selected_venvs().is_empty());
    assert_eq!(app.sort_by(), GuiSortBy::Path);
    assert!(!app.is_reverse_sort());
    assert_eq!(app.search_filter(), "");
    assert!(!app.shows_confirmation_dialog());
    assert_eq!(app.draw_main_content(), GuiContent::Loading);
    let worker = app.worker_cleaner();
    assert_eq!(worker.base_directory(), "/base");
    assert!(!worker.is_recursive());
    assert_eq!(worker.verbosity(), 0);
}

#[test]
fn reports_of_background_work() {
    let mut app = app();
    assert!(!app.handle_event(GuiEvent::VenvsLoaded(three())));
    assert_eq!(app.state(), GuiAppState::Browsing);
    assert_eq!(
        paths(app.venvs()),
        vec!["/home/me/blog/.venv", "/home/me/shopping/.venv", "/work/Shop/.venv"]
    );
    assert_eq!(
        app.status(),
        "Found 3 .venv directories. Select directories to delete or use the search filter."
    );
    assert_eq!(app.draw_main_content(), GuiContent::Table);

    assert!(!app.handle_event(GuiEvent::LoadError("boom".to_string())));
    assert_eq!(app.state(), GuiAppState::Error);
    assert_eq!(app.error_message(), "boom");
    assert_eq!(app.draw_main_content(), GuiContent::Error);

    assert!(!app.handle_event(GuiEvent::VenvsLoaded(vec![])));
    assert_eq!(
        app.status(),
        "No .venv directories found. Try changing the search directory or enabling recursive search."
    );

    match GuiEvent::from_search(Err(VenvCleanerError::NoVenvFound)) {
        GuiEvent::LoadError(text) => {
            assert_eq!(text, "No .venv folders found in the specified directory")
        }
        _ => panic!("expected the failure"),
    }
    assert!(matches!(GuiEvent::from_search(Ok(vec![])), GuiEvent::VenvsLoaded(_)));
}

#[test]
fn everything_queued_is_worked_in_before_drawing() {
    let mut app = browsing();
    app.select_all();
    let queued = vec![
        GuiEvent::DeletionComplete(vec![(venv("/work/Shop/.venv", 300), Ok(()))]),
        GuiEvent::LoadError("first".to_string()),
        GuiEvent::VenvsLoaded(vec![venv("/b/.venv", 2), venv("/a/.venv", 1)]),
    ];
    let searches = app.handle_events(queued);
    assert_eq!(searches, 1);
    // the last report is the one that shows
    assert_eq!(app.state(), GuiAppState::Browsing);
    assert_eq!(paths(app.venvs()), vec!["/a/.venv", "/b/.venv"]);
    assert!(app.selected_venvs().is_empty());
    assert_eq!(app.error_message(), "first");
    assert_eq!(app.handle_events(vec![]), 0);
}

#[test]
fn marking_rows() {
    let mut app = browsing();
    app.toggle_row(1);
    assert_eq!(app.selected_venvs(), &HashSet::from([1]));
    app.toggle_row(1);
    assert!(app.selected_venvs().is_empty());
    app.set_row_selected(2, true);
    app.set_row_selected(2, true);
    app.set_row_selected(0, false);
    assert_eq!(app.selected_venvs(), &HashSet::from([2]));
    // rows that are not there cannot be marked
    app.toggle_row(3);
    app.set_row_selected(99, true);
    assert_eq!(app.selected_venvs(), &HashSet::from([2]));
    assert_eq!(app.selected_size(), 300);
    assert_eq!(paths(&app.get_selected_venvs()), vec!["/work/Shop/.venv"]);

    app.select_all();
    assert_eq!(app.selected_venvs(), &HashSet::from([0, 1, 2]));
    assert_eq!(app.selected_size(), 600);
    app.select_none();
    assert!(app.selected_venvs().is_empty());
    assert_eq!(app.selected_size(), 0);
}

#[test]
fn filtering_ignores_case() {
    let mut app = browsing();
    assert_eq!(app.get_filtered_venvs(), vec![0, 1, 2]);
    app.set_search_filter("SHOP".to_string());
    assert_eq!(app.search_filter(), "SHOP");
    assert_eq!(app.get_filtered_venvs(), vec![1, 2]);
    app.set_search_filter("blog".to_string());
    assert_eq!(app.get_filtered_venvs(), vec![0]);
    app.set_search_filter(".venv".to_string());
    assert_eq!(app.get_filtered_venvs(), vec![0, 1, 2]);
    app.set_search_filter("nothing like it".to_string());
    assert!(app.get_filtered_venvs().is_empty());
}

#[test]
fn the_head_of_the_mark_column() {
    let mut app = browsing();
    app.set_search_filter("shop".to_string());
    app.toggle_all_filtered();
    assert_eq!(app.selected_venvs(), &HashSet::from([1, 2]));
    // as many marked as shown: all marks go
    app.toggle_all_filtered();
    assert!(app.selected_venvs().is_empty());
    app.set_search_filter(String::new());
    app.toggle_row(0);
    app.toggle_all_filtered();
    assert_eq!(app.selected_venvs(), &HashSet::from([0, 1, 2]));
}

#[test]
fn sorting_the_graphical_list() {
    let mut app = browsing();
    app.select_all();
    app.set_sort_by(GuiSortBy::Size);
    assert_eq!(
        paths(app.venvs()),
        vec!["/work/Shop/.venv", "/home/me/shopping/.venv", "/home/me/blog/.venv"]
    );
    assert!(app.selected_venvs().is_empty());
    app.toggle_row(0);
    app.toggle_reverse_sort();
    assert!(app.is_reverse_sort());
    assert_eq!(
        paths(app.venvs()),
        vec!["/home/me/blog/.venv", "/home/me/shopping/.venv", "/work/Shop/.venv"]
    );
    assert!(app.selected_venvs().is_empty());
    app.sort_venvs();
    assert_eq!(app.venvs().len(), 3);
}

#[test]
fn a_graphical_removal() {
    let mut app = browsing();
    // nothing marked: no request, no removal
    app.request_deletion();
    assert!(!app.shows_confirmation_dialog());
    assert!(app.start_deletion().is_none());
    assert_eq!(app.state(), GuiAppState::Browsing);

    app.toggle_row(0);
    app.toggle_row(2);
    app.request_deletion();
    assert!(app.shows_confirmation_dialog());
    app.cancel_deletion();
    assert!(!app.shows_confirmation_dialog());
    assert_eq!(app.selected_venvs().len(), 2);

    app.request_deletion();
    let (marked, worker) = app.confirm_deletion().unwrap();
    assert_eq!(paths(&marked), vec!["/home/me/blog/.venv", "/work/Shop/.venv"]);
    assert_eq!(worker.base_directory(), "/base");
    assert!(!worker.is_dry_run());
    assert!(!app.shows_confirmation_dialog());
    assert_eq!(app.state(), GuiAppState::Deleting);
    assert_eq!(app.status(), "Deleting 2 directories...");
    assert_eq!(app.draw_main_content(), GuiContent::Progress);

    let results = vec![
        (venv("/home/me/blog/.venv", 100), Ok(())),
        (venv("/work/Shop/.venv", 300), Err(VenvCleanerError::OperationCancelled)),
    ];
    app.handle_deletion_results(&results);
    assert_eq!(
        app.status(),
        "⚠️ Deleted 1 directories, 1 failed. Check permissions for failed items."
    );
    assert!(app.selected_venvs().is_empty());
    assert_eq!(app.state(), GuiAppState::Loading);

    assert!(app.handle_event(GuiEvent::DeletionComplete(results)));
    assert_eq!(app.state(), GuiAppState::Loading);
    assert_eq!(
        app.status(),
        "⚠️ Deleted 1 directories, 1 failed. Check permissions for failed items."
    );
}

#[test]
fn one_job_at_a_time() {
    // the first search is under way from the start
    let mut app = app();
    assert!(!app.accepts_jobs());
    assert!(app.start_loading_venvs().is_none());
    assert!(app.handle_key(GuiKey::Refresh).is_none());
    app.set_pending_directory("/elsewhere".to_string());
    assert!(app.select_directory(PathStatus::Directory).is_none());
    assert_eq!(app.worker_cleaner().base_directory(), "/base");
    assert_eq!(app.state(), GuiAppState::Loading);

    app.handle_event(GuiEvent::VenvsLoaded(three()));
    assert!(app.accepts_jobs());
    app.select_all();
    assert!(app.start_deletion().is_some());
    // while the removal is under way neither another removal nor a search begins
    assert!(app.start_deletion().is_none());
    assert!(app.confirm_deletion().is_none());
    assert!(app.start_loading_venvs().is_none());
    assert_eq!(app.state(), GuiAppState::Deleting);
    assert_eq!(app.status(), "Deleting 3 directories...");

    // after a failure a new search may be asked for
    app.handle_event(GuiEvent::LoadError("x".to_string()));
    assert!(app.start_loading_venvs().is_some());
    assert_eq!(app.state(), GuiAppState::Loading);
}

#[test]
fn leaving_the_graphical_front_end() {
    let mut app = browsing();
    app.toggle_row(1);
    app.quit();
    assert_eq!(app.state(), GuiAppState::Quit);
    assert_eq!(app.draw_main_content(), GuiContent::Blank);
    assert!(!app.accepts_jobs());
    // nothing that arrives now has any effect
    assert!(!app.handle_event(GuiEvent::VenvsLoaded(vec![])));
    assert!(!app.handle_event(GuiEvent::DeletionComplete(vec![])));
    assert!(!app.handle_event(GuiEvent::LoadError("late".to_string())));
    assert_eq!(app.handle_events(vec![GuiEvent::DeletionComplete(vec![])]), 0);
    assert!(app.handle_key(GuiKey::Refresh).is_none());
    assert!(app.handle_key(GuiKey::SelectAll).is_none());
    assert!(app.start_deletion().is_none());
    assert_eq!(app.venvs().len(), 3);
    assert_eq!(app.selected_venvs(), &HashSet::from([1]));
    assert_eq!(app.error_message(), "");
    assert_eq!(app.state(), GuiAppState::Quit);
}

#[test]
fn graphical_keys() {
    let mut app = browsing();
    assert!(app.handle_key(GuiKey::SelectAll).is_none());
    assert_eq!(app.selected_venvs().len(), 3);
    assert!(app.handle_key(GuiKey::Delete).is_none());
    assert!(app.shows_confirmation_dialog());
    app.set_show_help(true);
    app.set_show_about(true);
    assert!(app.handle_key(GuiKey::Escape).is_none());
    assert!(!app.shows_confirmation_dialog());
    assert_eq!(app.selected_venvs().len(), 3);
    let worker = app.handle_key(GuiKey::Refresh).unwrap();
    assert_eq!(worker.base_directory(), "/base");
    assert_eq!(app.state(), GuiAppState::Loading);
}

#[test]
fn choosing_another_directory() {
    let mut app = browsing();
    app.open_folder_dialog();
    assert_eq!(app.directory_in_dialog(), "/base");
    // nothing entered: nothing to choose
    assert!(app.select_directory(PathStatus::Directory).is_none());
    app.set_pending_directory("/elsewhere".to_string());
    assert_eq!(app.directory_in_dialog(), "/elsewhere");
    // what is not a directory cannot be chosen
    assert!(app.select_directory(PathStatus::Missing).is_none());
    assert!(app.select_directory(PathStatus::NotDirectory).is_none());
    assert_eq!(app.directory_in_dialog(), "/elsewhere");
    assert_eq!(app.state(), GuiAppState::Browsing);

    let worker = app.select_directory(PathStatus::Directory).unwrap();
    assert_eq!(worker.base_directory(), "/elsewhere");
    assert!(worker.is_recursive());
    assert_eq!(app.state(), GuiAppState::Loading);
    assert_eq!(app.directory_in_dialog(), "/elsewhere");
    assert_eq!(app.worker_cleaner().base_directory(), "/elsewhere");

    app.open_folder_dialog();
    app.set_pending_directory("/third".to_string());
    app.cancel_folder_dialog();
    assert_eq!(app.directory_in_dialog(), "/elsewhere");
}

#[test]
fn the_graphical_animation() {
    let mut app = app();
    app.update_animation(499);
    assert_eq!(app.loading_dots(), 0);
    app.update_animation(500);
    assert_eq!(app.loading_dots(), 1);
    app.update_animation(999);
    assert_eq!(app.loading_dots(), 1);
    app.update_animation(1000);
    app.update_animation(1500);
    app.update_animation(2000);
    assert_eq!(app.loading_dots(), 0);
}

#[test]
fn the_head_mark_of_the_table() {
    let mut app = browsing();
    assert!(!app.all_selected());
    app.set_all_selected(true);
    assert!(app.all_selected());
    assert_eq!(app.selected_venvs().len(), 3);
    app.toggle_row(1);
    assert!(!app.all_selected());
    app.set_all_selected(false);
    assert!(app.selected_venvs().is_empty());
    // an empty list is never wholly marked
    let mut empty = browsing();
    empty.handle_event(GuiEvent::VenvsLoaded(vec![]));
    empty.set_all_selected(true);
    assert!(!empty.all_selected());
}

#[test]
fn notes_of_the_directory_dialog() {
    assert_eq!(GuiApp::pending_directory_note(PathStatus::Missing), "⚠️ Directory does not exist");
    assert_eq!(
        GuiApp::pending_directory_note(PathStatus::NotDirectory),
        "⚠️ Path is not a directory"
    );
    assert_eq!(GuiApp::pending_directory_note(PathStatus::Directory), "✅ Valid directory");
}

#[test]
fn repainting_while_work_is_under_way() {
    let mut app = app();
    assert!(app.needs_repaint());
    app.handle_event(GuiEvent::VenvsLoaded(three()));
    assert!(!app.needs_repaint());
    app.toggle_row(0);
    app.start_deletion();
    assert!(app.needs_repaint());
    app.handle_event(GuiEvent::LoadError("x".to_string()));
    assert!(!app.needs_repaint());
}

#[test]
fn test_progress_indicator_creation() {
    let progress = ProgressIndicator::new(750).text("Loading...").hide_percentage();

    assert_eq!(progress.progress, 750);
    assert_eq!(progress.text, Some("Loading...".to_string()));
    assert!(!progress.show_percentage);
}

#[test]
fn test_progress_indicator_clamping() {
    let progress_low = ProgressIndicator::new(-500);
    assert_eq!(progress_low.progress, 0);

    let progress_high = ProgressIndicator::new(1500);
    assert_eq!(progress_high.progress, 1000);
}

#[test]
fn what_a_progress_bar_shows() {
    assert_eq!(ProgressIndicator::new(750).overlay_text(), "75.0%");
    assert_eq!(ProgressIndicator::new(0).overlay_text(), "0.0%");
    assert_eq!(ProgressIndicator::new(5).overlay_text(), "0.5%");
    assert_eq!(ProgressIndicator::new(1000).overlay_text(), "100.0%");
    assert_eq!(ProgressIndicator::new(333).hide_percentage().overlay_text(), "");
    assert_eq!(ProgressIndicator::new(333).text("busy").overlay_text(), "busy");
    assert_eq!(ProgressIndicator::new(333).hide_percentage().text("busy").overlay_text(), "busy");
    assert_eq!(ProgressIndicator::new(999).bar_color(), Rgba::rgb(70, 130, 200));
    assert_eq!(ProgressIndicator::new(1000).bar_color(), Rgba::rgb(40, 180, 40));
    assert!(!ProgressIndicator::new(500).writes_light());
    assert!(ProgressIndicator::new(501).writes_light());
}

#[test]
fn a_graphical_run_begins_with_a_search() {
    let app = GuiMode::new("/base".to_string(), true, 0).unwrap().run();
    assert_eq!(app.state(), GuiAppState::Loading);
    assert_eq!(app.status(), "🔍 Scanning for .venv directories recursively...");
    assert_eq!(app.worker_cleaner().base_directory(), "/base");
}

#[test]
fn every_finished_removal_owes_one_search() {
    let mut app = browsing();
    let done = || GuiEvent::DeletionComplete(vec![]);
    let queued = vec![
        done(),
        GuiEvent::LoadError("x".to_string()),
        done(),
        GuiEvent::VenvsLoaded(vec![]),
        done(),
    ];
    assert_eq!(app.handle_events(queued), 3);
    assert_eq!(app.state(), GuiAppState::Loading);
    assert_eq!(app.handle_events(vec![GuiEvent::VenvsLoaded(three())]), 0);
    assert_eq!(app.handle_events(vec![done()]), 1);
    app.quit();
    assert_eq!(app.handle_events(vec![done(), done()]), 0);
}
