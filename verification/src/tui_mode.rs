//! The state machine of the terminal front end.
//!
//! The machine takes one event at a time and answers with the new state and
//! with what the caller is to do: start a search, start a removal, open a
//! folder, leave. It does none of these itself. Once it has reached
//! [`AppState::Quit`] no event changes anything any more.

use vstd::prelude::*;
use crate::cleaner::{CleanerSettings, VenvCleaner};
use crate::error::VenvCleanerError;
use crate::events::{AppEvent, AppState, KeyCode, KeyEvent};
use crate::outcome::DeletionResult;
use crate::size_text::{decimal_text, push_decimal};
use crate::tui_app::{deleted_text, recorded, TuiApp, TuiAppView, ANIMATION_STEP_MS};
use crate::venv_info::VenvInfo;

verus! {

/// The status line while the machine is being set up.
pub const STARTING_STATUS: &'static str = "Initializing VenvCleaner TUI...";

/// The status line while a removal is under way.
pub const DELETING_STATUS: &'static str = "Deleting selected directories...";

/// What the caller of the state machine is to do after an event.
#[derive(Debug)]
pub enum TuiAction {
    /// Nothing.
    Nothing,
    /// Leave the event loop.
    Quit,
    /// Start a search.
    StartScan,
    /// Start removing these environments.
    StartDeletion(Vec<VenvInfo>),
    /// Open this folder.
    OpenFolder(String),
}

/// What is to be drawn.
#[derive(Debug, Clone, Copy, PartialEq, Eq, Structural)]
pub enum Screen {
    /// The loading screen.
    Loading,
    /// The list.
    Main,
    /// The list, and over it the request to confirm a removal.
    MainWithConfirmation,
    /// The list, and over it the progress of a removal.
    MainWithProgress,
    /// The failure screen.
    Error,
    /// The help screen.
    Help,
    /// Nothing: the front end has been left.
    Blank,
}

/// The words for how the search goes about.
pub open spec fn search_mode_text(recursive: bool) -> Seq<char> {
    if recursive {
        "recursively"@
    } else {
        "in current directory"@
    }
}

/// The status line while a search is under way.
pub open spec fn scanning_text(recursive: bool) -> Seq<char> {
    "🔍 Scanning for .venv directories "@ + search_mode_text(recursive) + "..."@
}

/// The status line after a search that found `count` environments.
pub open spec fn loaded_text(count: nat) -> Seq<char> {
    if count == 0 {
        "No .venv directories found. Press 'r' to refresh or 'q' to quit."@
    } else {
        "Found "@ + decimal_text(count)
            + " .venv directories. Use arrow keys to navigate, Space to select."@
    }
}

/// The status line after the list has been sorted anew.
pub open spec fn sorted_text(name: Seq<char>) -> Seq<char> {
    "Sorted by "@ + name
}

/// True when `key` asks to leave the front end in `state`. The key `q` asks
/// for it in every state. Escape asks for it while loading, browsing or
/// deleting; where a question is open or a failure is shown, Escape declines
/// or acknowledges instead, and on the help screen it returns to the list
/// like any other key.
pub open spec fn is_quit_request(state: AppState, key: KeyEvent) -> bool {
    key.code == KeyCode::Char('q') || (key.code == KeyCode::Esc && (state == AppState::Loading
        || state == AppState::Browsing || state == AppState::Deleting))
}

/// The kinds of thing the caller can be asked to do.
#[derive(PartialEq, Eq, Structural)]
pub enum ActionKind {
    /// Nothing.
    Nothing,
    /// Leave.
    Quit,
    /// Start a search.
    StartScan,
    /// Start a removal.
    StartDeletion,
    /// Open a folder.
    OpenFolder,
}

impl TuiAppView {
    /// The state in `state`, all else unchanged.
    pub open spec fn in_state(self, state: AppState) -> TuiAppView {
        TuiAppView { state, ..self }
    }

    /// The state with the status line `status`, all else unchanged.
    pub open spec fn with_status(self, status: Seq<char>) -> TuiAppView {
        TuiAppView { status, ..self }
    }

    /// The state on entering a search.
    pub open spec fn searching(self, recursive: bool) -> TuiAppView {
        self.in_state(AppState::Loading).with_status(scanning_text(recursive))
    }

    /// The folder that holds the environment under the cursor.
    pub open spec fn folder_under_cursor(self) -> Option<Seq<char>> {
        if self.selected_index < self.venvs.len() {
            self.venvs[self.selected_index as int]@.parent()
        } else {
            None
        }
    }

    /// The state after a key, with a search of the kind `recursive`. Once
    /// the front end has been left nothing changes; before that, a request
    /// to leave is granted in every state, and any other key does what it
    /// stands for in the state at hand.
    pub open spec fn after_key(self, recursive: bool, key: KeyEvent) -> TuiAppView {
        if self.state == AppState::Quit {
            self
        } else if is_quit_request(self.state, key) {
            self.in_state(AppState::Quit)
        } else {
            self.after_plain_key(recursive, key)
        }
    }

    /// The state after a key that does not ask to leave.
    pub open spec fn after_plain_key(self, recursive: bool, key: KeyEvent) -> TuiAppView {
        match self.state {
            AppState::Loading => self,
            AppState::Browsing => match key.code {
                KeyCode::Char(c) => if c == 'h' {
                    self.in_state(AppState::Help)
                } else if c == 'r' {
                    self.searching(recursive)
                } else if c == ' ' {
                    self.after_toggle()
                } else if c == 'a' && key.control {
                    self.after_select_all()
                } else if c == 'd' && key.control {
                    self.after_deselect_all()
                } else if c == 'x' {
                    self.after_delete_request()
                } else if c == 's' {
                    self.resorted(self.sort_by.spec_next(), self.reverse_sort).with_status(
                        sorted_text(self.sort_by.spec_next().spec_display_name()),
                    )
                } else {
                    self
                },
                KeyCode::F(n) => if n == 1 {
                    self.in_state(AppState::Help)
                } else {
                    self
                },
                KeyCode::Up => self.after_previous(),
                KeyCode::Down => self.after_next(),
                KeyCode::Home => self.after_first(),
                KeyCode::End => self.after_last(),
                KeyCode::PageUp => self.after_page_up(),
                KeyCode::PageDown => self.after_page_down(),
                KeyCode::Enter => self.after_toggle(),
                KeyCode::Delete => self.after_delete_request(),
                KeyCode::Esc => self,
                KeyCode::Other => self,
            },
            AppState::ConfirmingDeletion => if key.code == KeyCode::Char('y') || key.code
                == KeyCode::Enter {
                self.in_state(AppState::Deleting).with_status(DELETING_STATUS@)
            } else if key.code == KeyCode::Char('n') || key.code == KeyCode::Esc {
                self.in_state(AppState::Browsing)
            } else {
                self
            },
            AppState::Deleting => self,
            AppState::Error => if key.code == KeyCode::Enter || key.code == KeyCode::Esc {
                self.in_state(AppState::Browsing)
            } else {
                self
            },
            AppState::Help => self.in_state(AppState::Browsing),
            AppState::Quit => self,
        }
    }

    /// The state after a request to remove the marked entries: the request is
    /// put to the user if anything is marked, and ignored otherwise.
    pub open spec fn after_delete_request(self) -> TuiAppView {
        if self.selected != Set::<usize>::empty() {
            self.in_state(AppState::ConfirmingDeletion)
        } else {
            self
        }
    }

    /// What the caller is to do after a key: to leave, when the front end
    /// has been left or the key asks for it; else to search, to remove or to
    /// open a folder, where the key stands for that in the state at hand.
    pub open spec fn action_for_key(self, key: KeyEvent) -> ActionKind {
        if self.state == AppState::Quit || is_quit_request(self.state, key) {
            ActionKind::Quit
        } else if self.state == AppState::Browsing && key.code == KeyCode::Char('r') {
            ActionKind::StartScan
        } else if self.state == AppState::Browsing && key.code == KeyCode::Char('o')
            && self.folder_under_cursor() is Some {
            ActionKind::OpenFolder
        } else if self.state == AppState::ConfirmingDeletion && (key.code == KeyCode::Char('y')
            || key.code == KeyCode::Enter) {
            ActionKind::StartDeletion
        } else {
            ActionKind::Nothing
        }
    }

    /// The state after the animation clock has been read.
    pub open spec fn after_tick(self, now_ms: u64) -> TuiAppView {
        if now_ms - self.last_tick_ms > ANIMATION_STEP_MS {
            TuiAppView {
                last_tick_ms: now_ms,
                loading_dots: ((self.loading_dots + 1) % 4) as usize,
                ..self
            }
        } else {
            self
        }
    }
}

/// True when `action` is of the kind `kind`.
pub open spec fn is_of_kind(action: TuiAction, kind: ActionKind) -> bool {
    match kind {
        ActionKind::Nothing => action is Nothing,
        ActionKind::Quit => action is Quit,
        ActionKind::StartScan => action is StartScan,
        ActionKind::StartDeletion => action is StartDeletion,
        ActionKind::OpenFolder => action is OpenFolder,
    }
}

/// What a [`TuiMode`] holds, as plain values.
pub struct TuiModeView {
    /// The settings of the search and removal.
    pub settings: CleanerSettings,
    /// The state of the front end.
    pub app: TuiAppView,
}

/// The terminal front end's state machine: the settings of the run and the
/// state that the events work on.
pub struct TuiMode {
    cleaner: VenvCleaner,
    app: TuiApp,
}

impl View for TuiMode {
    type V = TuiModeView;

    closed spec fn view(&self) -> TuiModeView {
        TuiModeView { settings: self.cleaner@, app: self.app@ }
    }
}

/// The words for how the search goes about.
fn search_mode(recursive: bool) -> (text: &'static str)
    ensures
        text@ == search_mode_text(recursive),
{
    if recursive {
        "recursively"
    } else {
        "in current directory"
    }
}

/// The status line while a search is under way.
pub fn scanning_status(recursive: bool) -> (text: String)
    ensures
        text@ == scanning_text(recursive),
{
    String::from_str("🔍 Scanning for .venv directories ").concat(search_mode(recursive)).concat(
        "...",
    )
}

/// The status line after a search that found `count` environments.
pub fn loaded_status(count: usize) -> (text: String)
    ensures
        text@ == loaded_text(count as nat),
{
    if count == 0 {
        String::from_str("No .venv directories found. Press 'r' to refresh or 'q' to quit.")
    } else {
        let mut text = String::from_str("Found ");
        push_decimal(&mut text, count as u128);
        text.append(" .venv directories. Use arrow keys to navigate, Space to select.");
        text
    }
}

impl TuiMode {
    /// True when the state is in order; see [`TuiAppView::wf`].
    pub open spec fn wf(&self) -> bool {
        self@.app.wf()
    }

    /// A machine for searching `base_directory`. Removal is neither forced
    /// nor simulated. The machine starts in the loading state.
    pub fn new(base_directory: String, recursive: bool, verbosity: u8) -> (mode: TuiMode)
        ensures
            mode.wf(),
            mode@.settings == (CleanerSettings {
                base_directory: base_directory@,
                recursive,
                force_mode: false,
                dry_run: false,
                verbosity,
            }),
            mode@.app.current_directory == base_directory@,
            mode@.app.is_recursive == recursive,
            crate::tui_app::is_initial(
                TuiAppView { current_directory: "."@, is_recursive: true, ..mode@.app },
            ),
    {
        let cleaner = VenvCleaner::new(base_directory.clone(), recursive, false, false, verbosity);
        let mut app = TuiApp::new();
        app.set_current_directory(base_directory, recursive);
        TuiMode { cleaner, app }
    }

    /// The settings of the search and removal.
    pub fn cleaner(&self) -> (cleaner: &VenvCleaner)
        ensures
            cleaner@ == self@.settings,
    {
        &self.cleaner
    }

    /// The state of the front end.
    pub fn app(&self) -> (app: &TuiApp)
        ensures
            app@ == self@.app,
    {
        &self.app
    }

    /// Tells the state how many list rows fit on screen.
    pub fn set_visible_items(&mut self, count: usize)
        ensures
            final(self)@ == (TuiModeView {
                app: TuiAppView { visible_items: count, ..old(self)@.app },
                ..old(self)@
            }),
    {
        self.app.set_visible_items(count);
    }

    /// Begins the run: the machine enters the loading state, and the caller
    /// is to start the first search.
    pub fn run(&mut self) -> (action: TuiAction)
        requires
            old(self).wf(),
        ensures
            final(self).wf(),
            action is StartScan,
            final(self)@ == (TuiModeView {
                app: old(self)@.app.searching(old(self)@.settings.recursive),
                ..old(self)@
            }),
    {
        self.app.set_state(AppState::Loading);
        self.app.set_status(String::from_str(STARTING_STATUS));
        self.start_loading_venvs();
        TuiAction::StartScan
    }

    /// Enters the loading state and says so in the status line.
    fn start_loading_venvs(&mut self)
        requires
            old(self).wf(),
        ensures
            final(self).wf(),
            final(self)@ == (TuiModeView {
                app: old(self)@.app.searching(old(self)@.settings.recursive),
                ..old(self)@
            }),
    {
        self.app.set_state(AppState::Loading);
        self.app.set_status(scanning_status(self.cleaner.is_recursive()));
    }

    /// Takes in the outcome of a search that the caller ran to its end. On
    /// success the list is replaced, the status tells what was found and how
    /// to go on, and the machine goes to browsing. On failure the failure is
    /// recorded and the machine goes to the error state.
    pub fn finish_loading(&mut self, outcome: Result<Vec<VenvInfo>, VenvCleanerError>)
        requires
            old(self).wf(),
        ensures
            final(self).wf(),
            final(self)@.settings == old(self)@.settings,
            outcome matches Ok(venvs) ==> final(self)@.app == old(self)@.app.with_list(
                venvs@,
            ).in_state(AppState::Browsing).with_status(loaded_text(venvs.len() as nat)),
            outcome matches Err(e) ==> final(self)@.app == (TuiAppView {
                state: AppState::Error,
                error_message: e.description(),
                ..old(self)@.app
            }),
    {
        match outcome {
            Ok(venvs) => {
                let ghost given = venvs@;
                self.app.set_venvs(venvs);
                self.app.set_state(AppState::Browsing);
                let count: usize = self.app.venvs().len();
                proof {
                    crate::sorting::lemma_stable_sorted_len(
                        given,
                        old(self)@.app.sort_by,
                        old(self)@.app.reverse_sort,
                    );
                }
                self.app.set_status(loaded_status(count));
            },
            Err(e) => {
                self.app.set_error(e.to_string());
                self.app.set_state(AppState::Error);
            },
        }
    }

    /// Works a key press into the state and tells the caller what to do.
    ///
    /// The key `q` leaves the front end from every state. While loading or
    /// deleting nothing else is possible. While browsing, the keys move the
    /// cursor, mark entries, sort, ask for a new search, for help, for the
    /// folder of an entry, or for the removal of the marked entries, which
    /// has to be confirmed and is only asked when something is marked. A
    /// confirmed removal is handed to the caller with the marked
    /// environments; a declined one returns to browsing with the marks as
    /// they were. A failure is acknowledged by returning to browsing. Once
    /// left, the machine stays left.
    pub fn handle_key_event(&mut self, key: KeyEvent) -> (action: TuiAction)
        requires
            old(self).wf(),
        ensures
            final(self).wf(),
            final(self)@.settings == old(self)@.settings,
            final(self)@.app == old(self)@.app.after_key(old(self)@.settings.recursive, key),
            is_of_kind(action, old(self)@.app.action_for_key(key)),
            action matches TuiAction::StartDeletion(venvs) ==> venvs@ == old(self)@.app.marked(),
            action matches TuiAction::OpenFolder(folder) ==> Some(folder@) == old(self)@.app.folder_under_cursor(),
    {
        let state = *self.app.state();
        if state == AppState::Quit {
            return TuiAction::Quit;
        }
        let leaves = key.code == KeyCode::Char('q') || (key.code == KeyCode::Esc && (state
            == AppState::Loading || state == AppState::Browsing || state == AppState::Deleting));
        if leaves {
            return self.quit();
        }
        match state {
            AppState::Loading => {},
            AppState::Browsing => {
                match key.code {
                    KeyCode::Char(c) => {
                        if c == 'h' {
                            self.app.set_state(AppState::Help);
                        } else if c == 'r' {
                            self.start_loading_venvs();
                            return TuiAction::StartScan;
                        } else if c == ' ' {
                            self.app.toggle_selected();
                        } else if c == 'a' && key.control {
                            self.app.select_all();
                        } else if c == 'd' && key.control {
                            self.app.deselect_all();
                        } else if c == 'x' {
                            self.request_deletion();
                        } else if c == 's' {
                            self.app.cycle_sort();
                            let name = self.app.sort_by().display_name();
                            self.app.set_status(String::from_str("Sorted by ").concat(name));
                        } else if c == 'o' {
                            match self.app.open_folder() {
                                Some(folder) => {
                                    return TuiAction::OpenFolder(folder);
                                },
                                None => {},
                            }
                        }
                    },
                    KeyCode::F(n) => {
                        if n == 1 {
                            self.app.set_state(AppState::Help);
                        }
                    },
                    KeyCode::Up => {
                        self.app.select_previous();
                    },
                    KeyCode::Down => {
                        self.app.select_next();
                    },
                    KeyCode::Home => {
                        self.app.select_first();
                    },
                    KeyCode::End => {
                        self.app.select_last();
                    },
                    KeyCode::PageUp => {
                        self.app.page_up();
                    },
                    KeyCode::PageDown => {
                        self.app.page_down();
                    },
                    KeyCode::Enter => {
                        self.app.toggle_selected();
                    },
                    KeyCode::Delete => {
                        self.request_deletion();
                    },
                    KeyCode::Esc => {},
                    KeyCode::Other => {},
                }
            },
            AppState::ConfirmingDeletion => {
                if key.code == KeyCode::Char('y') || key.code == KeyCode::Enter {
                    let venvs = self.start_deletion();
                    return TuiAction::StartDeletion(venvs);
                } else if key.code == KeyCode::Char('n') || key.code == KeyCode::Esc {
                    self.app.set_state(AppState::Browsing);
                }
            },
            AppState::Deleting => {},
            AppState::Error => {
                if key.code == KeyCode::Enter || key.code == KeyCode::Esc {
                    self.app.set_state(AppState::Browsing);
                }
            },
            AppState::Help => {
                self.app.set_state(AppState::Browsing);
            },
            AppState::Quit => {},
        }
        TuiAction::Nothing
    }

    /// Leaves the front end.
    fn quit(&mut self) -> (action: TuiAction)
        ensures
            action is Quit,
            final(self)@ == (TuiModeView {
                app: old(self)@.app.in_state(AppState::Quit),
                ..old(self)@
            }),
    {
        self.app.set_state(AppState::Quit);
        TuiAction::Quit
    }

    /// Puts the removal of the marked entries to the user, if any is marked.
    fn request_deletion(&mut self)
        ensures
            final(self)@ == (TuiModeView {
                app: old(self)@.app.after_delete_request(),
                ..old(self)@
            }),
    {
        if self.app.has_selected_items() {
            self.app.set_state(AppState::ConfirmingDeletion);
        }
    }

    /// Advances the loading animation if its time has come.
    pub fn handle_tick(&mut self, now_ms: u64)
        requires
            old(self).wf(),
        ensures
            final(self).wf(),
            final(self)@ == (TuiModeView {
                app: old(self)@.app.after_tick(now_ms),
                ..old(self)@
            }),
    {
        self.app.tick(now_ms);
    }

    /// Enters the deleting state and hands out the marked environments, in
    /// the order of the list, for the caller to remove.
    fn start_deletion(&mut self) -> (venvs: Vec<VenvInfo>)
        requires
            old(self).wf(),
        ensures
            final(self).wf(),
            venvs@ == old(self)@.app.marked(),
            final(self)@ == (TuiModeView {
                app: old(self)@.app.in_state(AppState::Deleting).with_status(DELETING_STATUS@),
                ..old(self)@
            }),
    {
        self.app.set_state(AppState::Deleting);
        self.app.set_status(String::from_str(DELETING_STATUS));
        self.app.get_selected_venvs()
    }

    /// Takes in the results of a removal: the progress is recorded, the
    /// status tells how the removal went, every mark is dropped, and the
    /// machine enters the loading state for the search that is to follow.
    pub fn finish_deletion(&mut self, results: Vec<DeletionResult>)
        requires
            old(self).wf(),
        ensures
            final(self).wf(),
            final(self)@.settings == old(self)@.settings,
            final(self)@.app == (TuiAppView {
                progress: final(self)@.app.progress,
                state: AppState::Loading,
                status: deleted_text(
                    final(self)@.app.progress.successful as nat,
                    final(self)@.app.progress.failed as nat,
                ),
                selected: Set::empty(),
                selected_index: 0,
                scroll_offset: 0,
                ..old(self)@.app
            }),
            recorded(final(self)@.app.progress, results@),
    {
        self.app.handle_deletion_results(results);
        self.app.set_state(AppState::Loading);
    }

    /// Works one event of the queue into the state and tells the caller what
    /// to do. `now_ms` is the reading of the animation clock.
    ///
    /// A finished search replaces the list, drops the marks and leads to
    /// browsing; a failed one leads to the error state. A finished removal
    /// leads to the loading state, and the caller is to search again. After
    /// the machine was left, every event is dropped without effect.
    pub fn handle_event(&mut self, event: AppEvent, now_ms: u64) -> (action: TuiAction)
        requires
            old(self).wf(),
        ensures
            final(self).wf(),
            final(self)@.settings == old(self)@.settings,
            old(self)@.app.state == AppState::Quit ==> action is Quit && final(self)@ == old(self)@,
            old(self)@.app.state != AppState::Quit ==> match event {
                AppEvent::Input(key) => {
                    &&& final(self)@.app == old(self)@.app.after_key(
                        old(self)@.settings.recursive,
                        key,
                    )
                    &&& is_of_kind(action, old(self)@.app.action_for_key(key))
                    &&& action matches TuiAction::StartDeletion(venvs) ==> venvs@ == old(self)@.app.marked()
                    &&& action matches TuiAction::OpenFolder(folder) ==> Some(folder@) == old(self)@.app.folder_under_cursor()
                },
                AppEvent::Tick => action is Nothing && final(self)@.app == old(self)@.app.after_tick(
                    now_ms,
                ),
                AppEvent::VenvsLoaded(venvs) => action is Nothing && final(self)@.app == old(self)@.app.with_list(venvs@).in_state(AppState::Browsing),
                AppEvent::LoadError(message) => action is Nothing && final(self)@.app == (TuiAppView {
                    state: AppState::Error,
                    error_message: message@,
                    ..old(self)@.app
                }),
                AppEvent::DeletionComplete(results) => {
                    &&& action is StartScan
                    &&& final(self)@.app == (TuiAppView {
                        progress: final(self)@.app.progress,
                        state: AppState::Loading,
                        status: deleted_text(
                            final(self)@.app.progress.successful as nat,
                            final(self)@.app.progress.failed as nat,
                        ),
                        selected: Set::empty(),
                        selected_index: 0,
                        scroll_offset: 0,
                        ..old(self)@.app
                    })
                    &&& recorded(final(self)@.app.progress, results@)
                },
            },
    {
        if *self.app.state() == AppState::Quit {
            return TuiAction::Quit;
        }
        match event {
            AppEvent::Input(key) => self.handle_key_event(key),
            AppEvent::Tick => {
                self.handle_tick(now_ms);
                TuiAction::Nothing
            },
            AppEvent::VenvsLoaded(venvs) => {
                self.app.set_venvs(venvs);
                self.app.set_state(AppState::Browsing);
                TuiAction::Nothing
            },
            AppEvent::LoadError(message) => {
                self.app.set_error(message);
                self.app.set_state(AppState::Error);
                TuiAction::Nothing
            },
            AppEvent::DeletionComplete(results) => {
                self.finish_deletion(results);
                TuiAction::StartScan
            },
        }
    }

    /// What is to be drawn in the state the machine is in.
    pub fn draw_ui(&self) -> (screen: Screen)
        ensures
            screen == screen_for(self@.app.state),
    {
        match self.app.state() {
            AppState::Loading => Screen::Loading,
            AppState::Browsing => Screen::Main,
            AppState::ConfirmingDeletion => Screen::MainWithConfirmation,
            AppState::Deleting => Screen::MainWithProgress,
            AppState::Error => Screen::Error,
            AppState::Help => Screen::Help,
            AppState::Quit => Screen::Blank,
        }
    }
}

/// What is to be drawn in each state.
pub open spec fn screen_for(state: AppState) -> Screen {
    match state {
        AppState::Loading => Screen::Loading,
        AppState::Browsing => Screen::Main,
        AppState::ConfirmingDeletion => Screen::MainWithConfirmation,
        AppState::Deleting => Screen::MainWithProgress,
        AppState::Error => Screen::Error,
        AppState::Help => Screen::Help,
        AppState::Quit => Screen::Blank,
    }
}

/// Once the front end has been left, no key changes the state, and every key
/// is answered by the request to leave.
pub proof fn law_quit_is_final(app: TuiAppView, recursive: bool, key: KeyEvent)
    requires
        app.state == AppState::Quit,
    ensures
        app.after_key(recursive, key) == app,
        app.action_for_key(key) == ActionKind::Quit,
{
}

/// Replacing the list drops every mark and leaves the state in order,
/// whatever was marked before and however long the new list is.
pub proof fn law_new_list_drops_marks(app: TuiAppView, venvs: Seq<VenvInfo>)
    requires
        app.wf(),
    ensures
        app.with_list(venvs).selected == Set::<usize>::empty(),
        app.with_list(venvs).wf(),
        app.with_list(venvs).venvs.len() == venvs.len(),
{
    crate::sorting::lemma_stable_sorted_len(venvs, app.sort_by, app.reverse_sort);
}

/// Arranging the list anew drops every mark and leaves the state in order.
pub proof fn law_new_order_drops_marks(app: TuiAppView, recursive: bool)
    requires
        app.wf(),
        app.state == AppState::Browsing,
    ensures
        app.after_key(recursive, KeyEvent { code: KeyCode::Char('s'), control: false }).selected
            == Set::<usize>::empty(),
        app.after_key(recursive, KeyEvent { code: KeyCode::Char('s'), control: false }).wf(),
{
    crate::sorting::lemma_stable_sorted_len(app.venvs, app.sort_by.spec_next(), app.reverse_sort);
}

/// Moving the cursor to a place of the list leaves the state in order.
proof fn lemma_cursor_keeps_order(app: TuiAppView, index: usize)
    requires
        app.wf(),
        index == 0 || index < app.venvs.len(),
    ensures
        app.with_cursor(index).wf(),
{
}

/// The keys that move the cursor leave the state in order.
proof fn lemma_moves_keep_order(app: TuiAppView)
    requires
        app.wf(),
    ensures
        app.after_next().wf(),
        app.after_previous().wf(),
        app.after_first().wf(),
        app.after_last().wf(),
        app.after_page_up().wf(),
        app.after_page_down().wf(),
{
    if app.venvs.len() > 0 {
        lemma_cursor_keeps_order(
            app,
            crate::tui_app::lesser(app.selected_index + 1, app.venvs.len() - 1) as usize,
        );
        lemma_cursor_keeps_order(app, (app.venvs.len() - 1) as usize);
        lemma_cursor_keeps_order(
            app,
            crate::tui_app::lesser(app.selected_index + app.page_size(), app.venvs.len() - 1)
                as usize,
        );
    }
    if app.selected_index > 0 {
        lemma_cursor_keeps_order(app, (app.selected_index - 1) as usize);
    }
    if app.selected_index >= app.page_size() {
        lemma_cursor_keeps_order(app, (app.selected_index - app.page_size()) as usize);
    } else {
        lemma_cursor_keeps_order(app, 0);
    }
}

/// The keys that change the marks leave the state in order.
proof fn lemma_marks_keep_order(app: TuiAppView)
    requires
        app.wf(),
    ensures
        app.after_toggle().wf(),
        app.after_select_all().wf(),
        app.after_deselect_all().wf(),
{
    lemma_prefix_is_finite(app.venvs.len());
}

/// Arranging the list anew leaves the state in order.
proof fn lemma_sorting_keeps_order(app: TuiAppView, status: Seq<char>)
    requires
        app.wf(),
    ensures
        app.resorted(app.sort_by.spec_next(), app.reverse_sort).with_status(status).wf(),
{
    crate::sorting::lemma_stable_sorted_len(app.venvs, app.sort_by.spec_next(), app.reverse_sort);
    let cursor = if app.selected_index <= app.last_index() {
        app.selected_index
    } else {
        app.last_index()
    };
    lemma_cursor_keeps_order(app, cursor);
}

/// While browsing, no key leads to a disorderly state.
proof fn lemma_browsing_keys_keep_order(app: TuiAppView, recursive: bool, key: KeyEvent)
    requires
        app.wf(),
        app.state == AppState::Browsing,
    ensures
        app.after_key(recursive, key).wf(),
{
    let after = app.after_key(recursive, key);
    match key.code {
        KeyCode::Char(c) => {
            if c == ' ' || (c == 'a' && key.control) || (c == 'd' && key.control) {
                lemma_marks_keep_order(app);
            } else if c == 's' {
                lemma_sorting_keeps_order(
                    app,
                    sorted_text(app.sort_by.spec_next().spec_display_name()),
                );
            } else {
                assert(after.venvs == app.venvs && after.selected == app.selected
                    && after.selected_index == app.selected_index && after.scroll_offset
                    == app.scroll_offset && after.loading_dots == app.loading_dots);
            }
        },
        KeyCode::Up | KeyCode::Down | KeyCode::Home | KeyCode::End | KeyCode::PageUp
        | KeyCode::PageDown => {
            lemma_moves_keep_order(app);
        },
        KeyCode::Enter => {
            lemma_marks_keep_order(app);
        },
        _ => {
            assert(after.venvs == app.venvs && after.selected == app.selected
                && after.selected_index == app.selected_index && after.scroll_offset
                == app.scroll_offset && after.loading_dots == app.loading_dots);
        },
    }
}

/// No key leads from an orderly state to a disorderly one: the marks and the
/// cursor stay within the list.
pub proof fn law_keys_keep_order(app: TuiAppView, recursive: bool, key: KeyEvent)
    requires
        app.wf(),
    ensures
        app.after_key(recursive, key).wf(),
{
    let after = app.after_key(recursive, key);
    if app.state == AppState::Browsing {
        lemma_browsing_keys_keep_order(app, recursive, key);
    } else {
        assert(after.venvs == app.venvs && after.selected == app.selected && after.selected_index
            == app.selected_index && after.scroll_offset == app.scroll_offset
            && after.loading_dots == app.loading_dots);
    }
}

/// The places below `n` are finitely many.
proof fn lemma_prefix_is_finite(n: nat)
    ensures
        Set::new(|i: usize| i < n).finite(),
    decreases n,
{
    if n == 0 {
        assert(Set::new(|i: usize| i < n) =~= Set::<usize>::empty());
    } else if n - 1 > usize::MAX {
        lemma_prefix_is_finite((n - 1) as nat);
        assert(Set::new(|i: usize| i < n) =~= Set::new(|i: usize| i < n - 1));
    } else {
        lemma_prefix_is_finite((n - 1) as nat);
        assert(Set::new(|i: usize| i < n) =~= Set::new(|i: usize| i < n - 1).insert(
            (n - 1) as usize,
        ));
    }
}

/// A removal is put to the user only when something is marked, and
/// declining it returns to the list with the marks and the list as they
/// were.
pub proof fn law_removal_is_confirmed(app: TuiAppView, recursive: bool)
    requires
        app.state == AppState::Browsing,
    ensures
        app.selected == Set::<usize>::empty() ==> app.after_key(
            recursive,
            KeyEvent { code: KeyCode::Delete, control: false },
        ) == app,
        app.selected != Set::<usize>::empty() ==> app.after_key(
            recursive,
            KeyEvent { code: KeyCode::Delete, control: false },
        ).after_key(recursive, KeyEvent { code: KeyCode::Char('n'), control: false }) == app,
        app.action_for_key(KeyEvent { code: KeyCode::Delete, control: false })
            == ActionKind::Nothing,
{
}

/// While a search or a removal is under way, no key starts another: the
/// keys can only leave, or do nothing.
pub proof fn law_one_job_at_a_time(app: TuiAppView, recursive: bool, key: KeyEvent)
    requires
        app.state == AppState::Loading || app.state == AppState::Deleting,
    ensures
        app.action_for_key(key) == ActionKind::Nothing || app.action_for_key(key)
            == ActionKind::Quit,
        app.after_key(recursive, key) == app || app.after_key(recursive, key) == app.in_state(
            AppState::Quit,
        ),
{
}

/// A removal that the user confirms is handed to the caller, and the
/// machine waits in the deleting state.
pub proof fn law_confirmed_removal_starts(app: TuiAppView, recursive: bool)
    requires
        app.state == AppState::ConfirmingDeletion,
    ensures
        app.action_for_key(KeyEvent { code: KeyCode::Char('y'), control: false })
            == ActionKind::StartDeletion,
        app.after_key(recursive, KeyEvent { code: KeyCode::Char('y'), control: false }).state
            == AppState::Deleting,
        app.after_key(recursive, KeyEvent { code: KeyCode::Char('y'), control: false }).selected
            == app.selected,
{
}

/// The front end can be left from every state in one step: in each of the
/// six states before `Quit`, the key `q` leads to `Quit` and is answered by
/// the request to leave, and neither the list nor the marks nor anything
/// else but the state is touched on the way.
pub proof fn law_quit_from_every_state(app: TuiAppView, recursive: bool, control: bool)
    requires
        app.state == AppState::Loading || app.state == AppState::Browsing || app.state
            == AppState::ConfirmingDeletion || app.state == AppState::Deleting || app.state
            == AppState::Error || app.state == AppState::Help,
    ensures
        app.after_key(recursive, KeyEvent { code: KeyCode::Char('q'), control }) == app.in_state(
            AppState::Quit,
        ),
        app.action_for_key(KeyEvent { code: KeyCode::Char('q'), control }) == ActionKind::Quit,
        app.after_key(recursive, KeyEvent { code: KeyCode::Char('q'), control }).venvs
            == app.venvs,
        app.after_key(recursive, KeyEvent { code: KeyCode::Char('q'), control }).selected
            == app.selected,
{
}

/// Every request to leave is granted, whatever the state: the machine goes
/// to `Quit`, or is there already, and the caller is told to leave.
pub proof fn law_quit_request_is_granted(app: TuiAppView, recursive: bool, key: KeyEvent)
    requires
        is_quit_request(app.state, key),
    ensures
        app.after_key(recursive, key).state == AppState::Quit,
        app.action_for_key(key) == ActionKind::Quit,
        app.after_key(recursive, key) == app.in_state(AppState::Quit),
{
}

/// Where leaving is the only thing on offer, the keys that are shown for it
/// do leave: while loading and while deleting, the keys of
/// [`Shortcut::Quit`](crate::events::Shortcut::Quit) are requests to leave,
/// and so they are while browsing.
pub proof fn law_offered_quit_leaves(app: TuiAppView, recursive: bool, key: KeyEvent)
    requires
        app.state == AppState::Loading || app.state == AppState::Deleting || app.state
            == AppState::Browsing,
        crate::events::KeyboardShortcuts::is_triggered_by(&crate::events::Shortcut::Quit, key),
    ensures
        crate::events::shortcuts_for(app.state).contains(crate::events::Shortcut::Quit),
        app.after_key(recursive, key) == app.in_state(AppState::Quit),
        app.action_for_key(key) == ActionKind::Quit,
{
    assert(crate::events::shortcuts_for(app.state)[0] == crate::events::Shortcut::Quit);
}

} // verus!
