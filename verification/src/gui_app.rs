//! The state behind the graphical front end.
//!
//! The state is changed by what background work reports and by what the user
//! does: marking rows, sorting, filtering, asking for a removal, choosing
//! another directory. Drawing is left to the caller. As in the terminal
//! front end, rows are marked by their place in the list, and the marks are
//! dropped whenever the list is replaced or rearranged.

use vstd::prelude::*;
use std::collections::HashSet;
use crate::cleaner::{CleanerSettings, VenvCleaner};
use crate::file_utils::PathStatus;
use crate::gui::{GuiAppState, GuiEvent, GuiSortBy};
use crate::outcome::{success_count, total_bytes, DeletionResult};
use crate::size_text::{decimal_text, push_decimal};
use crate::sorting::{sort_entries, stable_sorted};
use crate::text_search;
use crate::text_search::{lowercase_of, occurs_in};
use crate::tui_app::{chosen, deleted_status, deleted_text};
use crate::tui_mode::{scanning_status, scanning_text};
use crate::venv_info::{VenvInfo, VenvRecord};
use crate::walk::saturated;

verus! {

broadcast use vstd::std_specs::hash::group_hash_axioms;

/// The loading animation advances when at least this many milliseconds have
/// passed.
pub const GUI_ANIMATION_STEP_MS: u64 = 500;

/// The keys that the graphical front end reacts to.
#[derive(Debug, Clone, Copy, PartialEq, Eq, Structural)]
pub enum GuiKey {
    /// F5: search again.
    Refresh,
    /// Control and A: mark every row.
    SelectAll,
    /// Delete: ask for the removal of the marked rows.
    Delete,
    /// Escape: close the dialogs.
    Escape,
}

/// What fills the main area of the window.
#[derive(Debug, Clone, Copy, PartialEq, Eq, Structural)]
pub enum GuiContent {
    /// The loading screen.
    Loading,
    /// The table of environments.
    Table,
    /// The progress of a removal.
    Progress,
    /// The failure screen.
    Error,
    /// Nothing.
    Blank,
}

/// What a [`GuiApp`] holds, as plain values.
pub struct GuiAppView {
    /// The state of the front end.
    pub state: GuiAppState,
    /// The settings the front end was started with.
    pub settings: CleanerSettings,
    /// The environments, in the order shown.
    pub venvs: Seq<VenvInfo>,
    /// The places of the marked rows.
    pub selected: Set<usize>,
    /// The attribute the list is ordered by.
    pub sort_by: GuiSortBy,
    /// Whether the order is reversed.
    pub reverse_sort: bool,
    /// The status line.
    pub status: Seq<char>,
    /// The description of the last failure.
    pub error_message: Seq<char>,
    /// The directory that is searched.
    pub current_directory: Seq<char>,
    /// Whether the search descends.
    pub is_recursive: bool,
    /// The phase of the loading animation.
    pub loading_dots: usize,
    /// When the animation last advanced, in milliseconds.
    pub last_animation_update_ms: u64,
    /// Whether the request to confirm a removal is shown.
    pub show_confirmation_dialog: bool,
    /// Whether the help window is shown.
    pub show_help: bool,
    /// Whether the about window is shown.
    pub show_about: bool,
    /// Whether the dialog for choosing a directory is shown.
    pub show_folder_dialog: bool,
    /// The directory entered in that dialog, if any.
    pub pending_directory: Option<Seq<char>>,
    /// The text that rows are filtered by.
    pub search_filter: Seq<char>,
    /// Whether the dark colours are used.
    pub dark_theme: bool,
}

/// The status line after a search that found `count` environments.
pub open spec fn gui_loaded_text(count: nat) -> Seq<char> {
    if count == 0 {
        "No .venv directories found. Try changing the search directory or enabling recursive search."@
    } else {
        "Found "@ + decimal_text(count)
            + " .venv directories. Select directories to delete or use the search filter."@
    }
}

/// The status line while `count` environments are being removed.
pub open spec fn gui_deleting_text(count: nat) -> Seq<char> {
    "Deleting "@ + decimal_text(count) + " directories..."@
}

/// The status line after another directory was chosen.
pub open spec fn changed_directory_text(path: Seq<char>) -> Seq<char> {
    "Changed directory to: "@ + path
}

/// True when the row of `record` passes the filter `filter`: the filter in
/// lower case occurs in the lower-case location or path.
pub open spec fn passes_filter(record: VenvRecord, filter: Seq<char>) -> bool {
    let needle = lowercase_of(filter);
    occurs_in(needle, lowercase_of(record.location())) || occurs_in(
        needle,
        lowercase_of(record.path),
    )
}

/// The places below `n` whose rows are shown under `filter`, in rising
/// order. An empty filter shows every row.
pub open spec fn filtered_upto(venvs: Seq<VenvInfo>, filter: Seq<char>, n: int) -> Seq<usize>
    decreases n,
{
    if n <= 0 {
        Seq::empty()
    } else if filter.len() == 0 || passes_filter(venvs[n - 1]@, filter) {
        filtered_upto(venvs, filter, n - 1).push((n - 1) as usize)
    } else {
        filtered_upto(venvs, filter, n - 1)
    }
}

/// The set of the first `n` of `indices`.
pub open spec fn index_set(indices: Seq<usize>, n: int) -> Set<usize>
    decreases n,
{
    if n <= 0 {
        Set::empty()
    } else {
        index_set(indices, n - 1).insert(indices[n - 1])
    }
}

/// True of the state at the start of a run that searches `directory`: the
/// first search under way, nothing found or marked, the list ordered by
/// path, no dialog open and no filter set.
pub open spec fn is_fresh(
    app: GuiAppView,
    settings: CleanerSettings,
    directory: Seq<char>,
    recursive: bool,
) -> bool {
    &&& app.state == GuiAppState::Loading
    &&& app.settings == settings
    &&& app.venvs == Seq::<VenvInfo>::empty()
    &&& app.selected == Set::<usize>::empty()
    &&& app.sort_by == GuiSortBy::Path
    &&& !app.reverse_sort
    &&& app.status == scanning_text(recursive)
    &&& app.error_message == Seq::<char>::empty()
    &&& app.current_directory == directory
    &&& app.is_recursive == recursive
    &&& app.loading_dots == 0
    &&& app.last_animation_update_ms == 0
    &&& !app.show_confirmation_dialog
    &&& !app.show_help
    &&& !app.show_about
    &&& !app.show_folder_dialog
    &&& app.pending_directory is None
    &&& app.search_filter == Seq::<char>::empty()
    &&& !app.dark_theme
}

impl GuiAppView {
    /// What always holds of the state: every mark points at a row of the
    /// list, and the animation is in one of its phases.
    pub open spec fn wf(self) -> bool {
        &&& self.selected.finite()
        &&& forall|i: usize| self.selected.contains(i) ==> i < self.venvs.len()
        &&& self.loading_dots < 4
    }

    /// The attribute and direction of the order, as the sort takes them.
    pub open spec fn arranged(self, venvs: Seq<VenvInfo>) -> Seq<VenvInfo> {
        stable_sorted(venvs, self.sort_by.spec_sort_key(), self.reverse_sort)
    }

    /// The marked environments, in the order of the list.
    pub open spec fn marked(self) -> Seq<VenvInfo> {
        chosen(self.venvs, self.selected, self.venvs.len() as int)
    }

    /// The places of the rows shown under the filter.
    pub open spec fn filtered(self) -> Seq<usize> {
        filtered_upto(self.venvs, self.search_filter, self.venvs.len() as int)
    }

    /// The settings a background worker is given: the directory and kind of
    /// search now in force, nothing forced, nothing simulated, no chatter.
    pub open spec fn worker_settings(self) -> CleanerSettings {
        CleanerSettings {
            base_directory: self.current_directory,
            recursive: self.is_recursive,
            force_mode: false,
            dry_run: false,
            verbosity: 0,
        }
    }

    /// True when a search or a removal may be started: none is under way,
    /// and the front end has not been left.
    pub open spec fn accepts_jobs(self) -> bool {
        self.state != GuiAppState::Loading && self.state != GuiAppState::Deleting && self.state
            != GuiAppState::Quit
    }

    /// The state after a search was asked for: it begins unless a search or
    /// a removal is under way or the front end has been left.
    pub open spec fn after_refresh(self) -> GuiAppView {
        if self.accepts_jobs() {
            self.searching()
        } else {
            self
        }
    }

    /// The state on entering a search.
    pub open spec fn searching(self) -> GuiAppView {
        GuiAppView {
            state: GuiAppState::Loading,
            status: scanning_text(self.is_recursive),
            ..self
        }
    }

    /// The state after the list has been arranged anew: no marks.
    pub open spec fn resorted(self) -> GuiAppView {
        GuiAppView { venvs: self.arranged(self.venvs), selected: Set::empty(), ..self }
    }

    /// The state after a search has delivered `venvs`.
    pub open spec fn after_loaded(self, venvs: Seq<VenvInfo>) -> GuiAppView {
        GuiAppView {
            venvs: self.arranged(venvs),
            state: GuiAppState::Browsing,
            selected: Set::empty(),
            status: gui_loaded_text(venvs.len()),
            ..self
        }
    }

    /// The state after a search has failed with `message`.
    pub open spec fn after_load_error(self, message: Seq<char>) -> GuiAppView {
        GuiAppView { error_message: message, state: GuiAppState::Error, ..self }
    }

    /// The state after a removal has delivered `results`: the status tells
    /// how it went, the marks are dropped, the request to confirm is closed,
    /// and the loading state is entered for the search that follows.
    pub open spec fn after_deleted(self, results: Seq<DeletionResult>) -> GuiAppView {
        GuiAppView {
            status: deleted_text(
                success_count(results, results.len() as int),
                (results.len() - success_count(results, results.len() as int)) as nat,
            ),
            selected: Set::empty(),
            show_confirmation_dialog: false,
            state: GuiAppState::Loading,
            ..self
        }
    }

    /// The state after one report of background work. Once the front end
    /// has been left, reports change nothing.
    pub open spec fn after_event(self, event: GuiEvent) -> GuiAppView {
        if self.state == GuiAppState::Quit {
            self
        } else {
            match event {
                GuiEvent::VenvsLoaded(venvs) => self.after_loaded(venvs@),
                GuiEvent::LoadError(message) => self.after_load_error(message@),
                GuiEvent::DeletionComplete(results) => self.after_deleted(results@),
            }
        }
    }

    /// The state after a key. Once the front end has been left, keys change
    /// nothing.
    pub open spec fn after_key(self, key: GuiKey) -> GuiAppView {
        if self.state == GuiAppState::Quit {
            self
        } else {
            match key {
                GuiKey::Refresh => self.after_refresh(),
                GuiKey::SelectAll => self.after_select_all(),
                GuiKey::Delete => self.after_delete_request(),
                GuiKey::Escape => self.after_escape(),
            }
        }
    }

    /// The state after the reports `events`, taken in order.
    pub open spec fn after_events(self, events: Seq<GuiEvent>) -> GuiAppView
        decreases events.len(),
    {
        if events.len() == 0 {
            self
        } else {
            self.after_event(events[0]).after_events(events.drop_first())
        }
    }

    /// How many searches the reports `events`, taken in order, oblige the
    /// caller to start: one for every finished removal that is taken in
    /// before the front end has been left.
    pub open spec fn searches_owed(self, events: Seq<GuiEvent>) -> nat
        decreases events.len(),
    {
        if events.len() == 0 {
            0
        } else {
            (if self.state != GuiAppState::Quit && events[0] is DeletionComplete {
                1nat
            } else {
                0nat
            }) + self.after_event(events[0]).searches_owed(events.drop_first())
        }
    }

    /// The state after the user asked for the removal of the marked rows.
    pub open spec fn after_delete_request(self) -> GuiAppView {
        if self.selected != Set::<usize>::empty() {
            GuiAppView { show_confirmation_dialog: true, ..self }
        } else {
            self
        }
    }

    /// The state after the dialogs have been closed.
    pub open spec fn after_escape(self) -> GuiAppView {
        GuiAppView { show_confirmation_dialog: false, show_help: false, show_about: false, ..self }
    }

    /// The state with every row marked.
    pub open spec fn after_select_all(self) -> GuiAppView {
        GuiAppView { selected: Set::new(|i: usize| i < self.venvs.len()), ..self }
    }

    /// The state after the mark of row `index` has been set or cleared.
    pub open spec fn with_row(self, index: usize, on: bool) -> GuiAppView {
        if index >= self.venvs.len() {
            self
        } else if on {
            GuiAppView { selected: self.selected.insert(index), ..self }
        } else {
            GuiAppView { selected: self.selected.remove(index), ..self }
        }
    }

    /// The state after a removal of the marked rows was asked for: it begins
    /// unless nothing is marked, a search or a removal is under way, or the
    /// front end has been left.
    pub open spec fn deleting(self) -> GuiAppView {
        if self.marked().len() == 0 || !self.accepts_jobs() {
            self
        } else {
            GuiAppView {
                state: GuiAppState::Deleting,
                status: gui_deleting_text(self.marked().len()),
                ..self
            }
        }
    }
}

/// The state behind the graphical front end.
pub struct GuiApp {
    state: GuiAppState,
    cleaner: VenvCleaner,
    venvs: Vec<VenvInfo>,
    selected_venvs: HashSet<usize>,
    sort_by: GuiSortBy,
    reverse_sort: bool,
    status: String,
    error_message: String,
    current_directory: String,
    is_recursive: bool,
    loading_dots: usize,
    last_animation_update_ms: u64,
    show_confirmation_dialog: bool,
    show_help: bool,
    show_about: bool,
    show_folder_dialog: bool,
    pending_directory: Option<String>,
    search_filter: String,
    dark_theme: bool,
}

impl View for GuiApp {
    type V = GuiAppView;

    closed spec fn view(&self) -> GuiAppView {
        GuiAppView {
            state: self.state,
            settings: self.cleaner@,
            venvs: self.venvs@,
            selected: self.selected_venvs@,
            sort_by: self.sort_by,
            reverse_sort: self.reverse_sort,
            status: self.status@,
            error_message: self.error_message@,
            current_directory: self.current_directory@,
            is_recursive: self.is_recursive,
            loading_dots: self.loading_dots,
            last_animation_update_ms: self.last_animation_update_ms,
            show_confirmation_dialog: self.show_confirmation_dialog,
            show_help: self.show_help,
            show_about: self.show_about,
            show_folder_dialog: self.show_folder_dialog,
            pending_directory: match self.pending_directory {
                Some(path) => Some(path@),
                None => None,
            },
            search_filter: self.search_filter@,
            dark_theme: self.dark_theme,
        }
    }
}

/// The status line after a search that found `count` environments.
pub fn gui_loaded_status(count: usize) -> (text: String)
    ensures
        text@ == gui_loaded_text(count as nat),
{
    if count == 0 {
        String::from_str(
            "No .venv directories found. Try changing the search directory or enabling recursive search.",
        )
    } else {
        let mut text = String::from_str("Found ");
        push_decimal(&mut text, count as u128);
        text.append(" .venv directories. Select directories to delete or use the search filter.");
        text
    }
}

/// The status line while `count` environments are being removed.
pub fn gui_deleting_status(count: usize) -> (text: String)
    ensures
        text@ == gui_deleting_text(count as nat),
{
    let mut text = String::from_str("Deleting ");
    push_decimal(&mut text, count as u128);
    text.append(" directories...");
    text
}

impl GuiApp {
    /// True when the state is in order; see [`GuiAppView::wf`].
    pub open spec fn wf(&self) -> bool {
        self@.wf()
    }

    /// The state at the start of a run that searches `base_directory`: the
    /// first search has begun, nothing is found or marked yet, the list is
    /// ordered by path, and no dialog is open.
    pub fn new(cleaner: VenvCleaner, base_directory: String, recursive: bool) -> (app: GuiApp)
        ensures
            app.wf(),
            is_fresh(app@, cleaner@, base_directory@, recursive),
    {
        GuiApp {
            state: GuiAppState::Loading,
            cleaner,
            venvs: Vec::new(),
            selected_venvs: HashSet::new(),
            sort_by: GuiSortBy::Path,
            reverse_sort: false,
            status: scanning_status(recursive),
            error_message: String::new(),
            current_directory: base_directory,
            is_recursive: recursive,
            loading_dots: 0,
            last_animation_update_ms: 0,
            show_confirmation_dialog: false,
            show_help: false,
            show_about: false,
            show_folder_dialog: false,
            pending_directory: None,
            search_filter: String::new(),
            dark_theme: false,
        }
    }

    /// The settings for a background worker.
    pub fn worker_cleaner(&self) -> (cleaner: VenvCleaner)
        ensures
            cleaner@ == self@.worker_settings(),
    {
        VenvCleaner::new(self.current_directory.clone(), self.is_recursive, false, false, 0)
    }

    /// Whether a search or a removal may be started.
    pub fn accepts_jobs(&self) -> (r: bool)
        ensures
            r == self@.accepts_jobs(),
    {
        !matches!(self.state, GuiAppState::Loading | GuiAppState::Deleting | GuiAppState::Quit)
    }

    /// Asks for a search. Unless a search or a removal is under way, the
    /// loading state is entered and the settings are handed out for the
    /// worker that the caller is to start.
    pub fn start_loading_venvs(&mut self) -> (search: Option<VenvCleaner>)
        ensures
            final(self)@ == old(self)@.after_refresh(),
            search is Some <==> old(self)@.accepts_jobs(),
            search matches Some(cleaner) ==> cleaner@ == old(self)@.worker_settings(),
    {
        if !self.accepts_jobs() {
            return None;
        }
        let cleaner = self.worker_cleaner();
        self.state = GuiAppState::Loading;
        self.status = scanning_status(self.is_recursive);
        Some(cleaner)
    }

    /// Leaves the front end. From now on nothing that is reported and no key
    /// changes the state.
    pub fn quit(&mut self)
        ensures
            final(self)@ == (GuiAppView { state: GuiAppState::Quit, ..old(self)@ }),
    {
        self.state = GuiAppState::Quit;
    }

    /// The marked environments, in the order of the list.
    pub fn get_selected_venvs(&self) -> (marked: Vec<VenvInfo>)
        ensures
            marked@ == self@.marked(),
    {
        let mut marked: Vec<VenvInfo> = Vec::new();
        let mut i: usize = 0;
        while i < self.venvs.len()
            invariant
                i <= self.venvs.len(),
                marked@ == chosen(self.venvs@, self.selected_venvs@, i as int),
            decreases self.venvs.len() - i,
        {
            if self.selected_venvs.contains(&i) {
                marked.push(self.venvs[i].clone());
            }
            i = i + 1;
        }
        marked
    }

    /// Enters the deleting state and hands out the marked environments
    /// together with the settings for the worker that is to remove them.
    /// With nothing marked, nothing happens.
    pub fn start_deletion(&mut self) -> (job: Option<(Vec<VenvInfo>, VenvCleaner)>)
        ensures
            final(self)@ == old(self)@.deleting(),
            job is None <==> old(self)@.marked().len() == 0 || !old(self)@.accepts_jobs(),
            job matches Some(work) ==> work.0@ == old(self)@.marked() && work.1@ == old(self)@.worker_settings(),
    {
        if !self.accepts_jobs() {
            return None;
        }
        let marked = self.get_selected_venvs();
        if marked.len() == 0 {
            return None;
        }
        let cleaner = self.worker_cleaner();
        self.state = GuiAppState::Deleting;
        self.status = gui_deleting_status(marked.len());
        Some((marked, cleaner))
    }

    /// Takes in the results of a removal: the status tells how it went, the
    /// marks are dropped, the request to confirm is closed and the loading
    /// state is entered.
    pub fn handle_deletion_results(&mut self, results: &Vec<DeletionResult>)
        requires
            old(self).wf(),
        ensures
            final(self).wf(),
            final(self)@ == (GuiAppView {
                status: deleted_text(
                    success_count(results@, results.len() as int),
                    (results.len() - success_count(results@, results.len() as int)) as nat,
                ),
                selected: Set::empty(),
                show_confirmation_dialog: false,
                state: GuiAppState::Loading,
                ..old(self)@
            }),
    {
        let summary = crate::outcome::summarize(results);
        self.status = deleted_status(summary.successful, summary.failed);
        self.selected_venvs.clear();
        self.show_confirmation_dialog = false;
        self.state = GuiAppState::Loading;
    }

    /// Arranges the list by the sort settings now in force and drops the
    /// marks.
    pub fn sort_venvs(&mut self)
        requires
            old(self).wf(),
        ensures
            final(self).wf(),
            final(self)@ == old(self)@.resorted(),
    {
        let ghost before = self.venvs@;
        sort_entries(&mut self.venvs, self.sort_by.sort_key(), self.reverse_sort);
        proof {
            crate::sorting::lemma_stable_sorted_len(
                before,
                self.sort_by.spec_sort_key(),
                self.reverse_sort,
            );
        }
        self.selected_venvs.clear();
    }

    /// Works one report of background work into the state. True when the
    /// caller is to start a search: after a finished removal.
    pub fn handle_event(&mut self, event: GuiEvent) -> (start_search: bool)
        requires
            old(self).wf(),
        ensures
            final(self).wf(),
            final(self)@ == old(self)@.after_event(event),
            start_search == (event is DeletionComplete && old(self)@.state != GuiAppState::Quit),
    {
        if matches!(self.state, GuiAppState::Quit) {
            return false;
        }
        match event {
            GuiEvent::VenvsLoaded(venvs) => {
                let count: usize = venvs.len();
                self.selected_venvs.clear();
                self.venvs = venvs;
                self.sort_venvs();
                self.state = GuiAppState::Browsing;
                self.status = gui_loaded_status(count);
                false
            },
            GuiEvent::LoadError(message) => {
                self.error_message = message;
                self.state = GuiAppState::Error;
                false
            },
            GuiEvent::DeletionComplete(results) => {
                self.handle_deletion_results(&results);
                true
            },
        }
    }

    /// Works everything that is queued into the state, in the order in which
    /// it was queued, and tells how many searches the caller is to start:
    /// one for every finished removal that is taken in before the front end
    /// has been left.
    pub fn handle_events(&mut self, events: Vec<GuiEvent>) -> (searches: usize)
        requires
            old(self).wf(),
        ensures
            final(self).wf(),
            final(self)@ == old(self)@.after_events(events@),
            searches == old(self)@.searches_owed(events@),
    {
        let mut events = events;
        let ghost all = events@;
        let total: usize = events.len();
        let mut searches: usize = 0;
        let ghost mut done: int = 0;
        while events.len() > 0
            invariant
                self.wf(),
                0 <= done <= all.len(),
                all.len() == total,
                done + events@.len() == all.len(),
                events@ == all.skip(done),
                searches <= done,
                old(self)@.after_events(all) == self@.after_events(events@),
                old(self)@.searches_owed(all) == searches + self@.searches_owed(events@),
            decreases events.len(),
        {
            let ghost rest = events@;
            let event = events.remove(0);
            assert(events@ =~= rest.drop_first());
            assert(events@ =~= all.skip(done + 1));
            if self.handle_event(event) {
                searches = searches + 1;
            }
            proof {
                done = done + 1;
            }
        }
        searches
    }

    /// Advances the loading animation by one phase when at least
    /// [`GUI_ANIMATION_STEP_MS`] milliseconds have passed since it last
    /// advanced.
    pub fn update_animation(&mut self, now_ms: u64)
        requires
            old(self).wf(),
        ensures
            final(self).wf(),
            now_ms - old(self)@.last_animation_update_ms >= GUI_ANIMATION_STEP_MS ==> final(self)@
                == (GuiAppView {
                last_animation_update_ms: now_ms,
                loading_dots: ((old(self)@.loading_dots + 1) % 4) as usize,
                ..old(self)@
            }),
            now_ms - old(self)@.last_animation_update_ms < GUI_ANIMATION_STEP_MS ==> final(self)@
                == old(self)@,
    {
        if now_ms >= self.last_animation_update_ms && now_ms - self.last_animation_update_ms
            >= GUI_ANIMATION_STEP_MS {
            self.loading_dots = (self.loading_dots + 1) % 4;
            self.last_animation_update_ms = now_ms;
        }
    }

    /// The places of the rows shown under the search filter, in rising
    /// order.
    pub fn get_filtered_venvs(&self) -> (shown: Vec<usize>)
        ensures
            shown@ == self@.filtered(),
    {
        let mut shown: Vec<usize> = Vec::new();
        let unfiltered: bool = self.search_filter.as_str().unicode_len() == 0;
        let needle = text_search::to_lowercase(self.search_filter.as_str());
        let mut i: usize = 0;
        while i < self.venvs.len()
            invariant
                i <= self.venvs.len(),
                unfiltered == (self.search_filter@.len() == 0),
                needle@ == lowercase_of(self.search_filter@),
                shown@ == filtered_upto(self.venvs@, self.search_filter@, i as int),
            decreases self.venvs.len() - i,
        {
            let passes = if unfiltered {
                true
            } else {
                let location = text_search::to_lowercase(self.venvs[i].location().as_str());
                if text_search::contains(location.as_str(), needle.as_str()) {
                    true
                } else {
                    let path = text_search::to_lowercase(self.venvs[i].path());
                    text_search::contains(path.as_str(), needle.as_str())
                }
            };
            if passes {
                shown.push(i);
            }
            i = i + 1;
        }
        shown
    }

    /// Marks every row.
    pub fn select_all(&mut self)
        requires
            old(self).wf(),
        ensures
            final(self).wf(),
            final(self)@ == old(self)@.after_select_all(),
    {
        self.selected_venvs.clear();
        let count: usize = self.venvs.len();
        let mut i: usize = 0;
        while i < count
            invariant
                i <= count,
                count == self.venvs.len(),
                self.selected_venvs@.finite(),
                self.selected_venvs@ =~= Set::new(|k: usize| k < i),
                self@ == (GuiAppView { selected: self.selected_venvs@, ..old(self)@ }),
            decreases count - i,
        {
            self.selected_venvs.insert(i);
            i = i + 1;
        }
    }

    /// Unmarks every row.
    pub fn select_none(&mut self)
        requires
            old(self).wf(),
        ensures
            final(self).wf(),
            final(self)@ == (GuiAppView { selected: Set::empty(), ..old(self)@ }),
    {
        self.selected_venvs.clear();
    }

    /// Marks row `index`, or unmarks it, as `on` says. A place outside the
    /// list is ignored.
    pub fn set_row_selected(&mut self, index: usize, on: bool)
        requires
            old(self).wf(),
        ensures
            final(self).wf(),
            final(self)@ == old(self)@.with_row(index, on),
    {
        if index < self.venvs.len() {
            if on {
                self.selected_venvs.insert(index);
            } else {
                self.selected_venvs.remove(&index);
            }
        }
    }

    /// Turns the mark of row `index` over.
    pub fn toggle_row(&mut self, index: usize)
        requires
            old(self).wf(),
        ensures
            final(self).wf(),
            final(self)@ == old(self)@.with_row(index, !old(self)@.selected.contains(index)),
    {
        let on = !self.selected_venvs.contains(&index);
        self.set_row_selected(index, on);
    }

    /// The click on the head of the mark column: when as many rows are
    /// marked as are shown, every mark is dropped; otherwise exactly the
    /// rows shown are marked.
    pub fn toggle_all_filtered(&mut self)
        requires
            old(self).wf(),
        ensures
            final(self).wf(),
            old(self)@.selected.len() == old(self)@.filtered().len() ==> final(self)@ == (
            GuiAppView { selected: Set::empty(), ..old(self)@ }),
            old(self)@.selected.len() != old(self)@.filtered().len() ==> final(self)@ == (
            GuiAppView {
                selected: index_set(old(self)@.filtered(), old(self)@.filtered().len() as int),
                ..old(self)@
            }),
    {
        let shown = self.get_filtered_venvs();
        if self.selected_venvs.len() == shown.len() {
            self.selected_venvs.clear();
        } else {
            self.selected_venvs.clear();
            proof {
                lemma_filtered_in_range(self.venvs@, self.search_filter@, self.venvs.len() as int);
            }
            let mut k: usize = 0;
            while k < shown.len()
                invariant
                    k <= shown.len(),
                    shown@ == old(self)@.filtered(),
                    forall|j: int| 0 <= j < shown.len() ==> (#[trigger] shown[j]) < self.venvs.len(),
                    self.selected_venvs@.finite(),
                    self.selected_venvs@ == index_set(shown@, k as int),
                    forall|i: usize| self.selected_venvs@.contains(i) ==> i < self.venvs.len(),
                    self@ == (GuiAppView { selected: self.selected_venvs@, ..old(self)@ }),
                decreases shown.len() - k,
            {
                self.selected_venvs.insert(shown[k]);
                k = k + 1;
            }
        }
    }

    /// Changes the sort attribute and arranges the list by it.
    pub fn set_sort_by(&mut self, sort_by: GuiSortBy)
        requires
            old(self).wf(),
        ensures
            final(self).wf(),
            final(self)@ == (GuiAppView { sort_by, ..old(self)@ }).resorted(),
    {
        self.sort_by = sort_by;
        self.sort_venvs();
    }

    /// Turns the sort order round and arranges the list by it.
    pub fn toggle_reverse_sort(&mut self)
        requires
            old(self).wf(),
        ensures
            final(self).wf(),
            final(self)@ == (GuiAppView {
                reverse_sort: !old(self)@.reverse_sort,
                ..old(self)@
            }).resorted(),
    {
        self.reverse_sort = !self.reverse_sort;
        self.sort_venvs();
    }

    /// Asks for the removal of the marked rows: the request to confirm is
    /// shown if anything is marked.
    pub fn request_deletion(&mut self)
        ensures
            final(self)@ == old(self)@.after_delete_request(),
    {
        let empty = self.selected_venvs.is_empty();
        assert(self.selected_venvs@.is_empty() <==> self.selected_venvs@ =~= Set::<usize>::empty());
        if !empty {
            self.show_confirmation_dialog = true;
        }
    }

    /// Declines the removal: the request to confirm is closed, and nothing
    /// else changes.
    pub fn cancel_deletion(&mut self)
        ensures
            final(self)@ == (GuiAppView { show_confirmation_dialog: false, ..old(self)@ }),
    {
        self.show_confirmation_dialog = false;
    }

    /// Confirms the removal: the request to confirm is closed and the
    /// removal begins, as in [`Self::start_deletion`].
    pub fn confirm_deletion(&mut self) -> (job: Option<(Vec<VenvInfo>, VenvCleaner)>)
        ensures
            final(self)@ == (GuiAppView {
                show_confirmation_dialog: false,
                ..old(self)@
            }).deleting(),
            job is None <==> old(self)@.marked().len() == 0 || !old(self)@.accepts_jobs(),
            job matches Some(work) ==> work.0@ == old(self)@.marked() && work.1@ == old(self)@.worker_settings(),
    {
        self.show_confirmation_dialog = false;
        self.start_deletion()
    }

    /// Works a key into the state. The settings for a worker are handed out
    /// when the caller is to start a search.
    pub fn handle_key(&mut self, key: GuiKey) -> (search: Option<VenvCleaner>)
        requires
            old(self).wf(),
        ensures
            final(self).wf(),
            final(self)@ == old(self)@.after_key(key),
            search is Some <==> key == GuiKey::Refresh && old(self)@.accepts_jobs(),
            search matches Some(cleaner) ==> cleaner@ == old(self)@.worker_settings(),
    {
        if matches!(self.state, GuiAppState::Quit) {
            return None;
        }
        match key {
            GuiKey::Refresh => self.start_loading_venvs(),
            GuiKey::SelectAll => {
                self.select_all();
                None
            },
            GuiKey::Delete => {
                self.request_deletion();
                None
            },
            GuiKey::Escape => {
                self.show_confirmation_dialog = false;
                self.show_help = false;
                self.show_about = false;
                None
            },
        }
    }

    /// Shows or hides the help window.
    pub fn set_show_help(&mut self, show: bool)
        ensures
            final(self)@ == (GuiAppView { show_help: show, ..old(self)@ }),
    {
        self.show_help = show;
    }

    /// Shows or hides the about window.
    pub fn set_show_about(&mut self, show: bool)
        ensures
            final(self)@ == (GuiAppView { show_about: show, ..old(self)@ }),
    {
        self.show_about = show;
    }

    /// Opens the dialog for choosing a directory.
    pub fn open_folder_dialog(&mut self)
        ensures
            final(self)@ == (GuiAppView { show_folder_dialog: true, ..old(self)@ }),
    {
        self.show_folder_dialog = true;
    }

    /// Records the directory entered in the dialog.
    pub fn set_pending_directory(&mut self, path: String)
        ensures
            final(self)@ == (GuiAppView { pending_directory: Some(path@), ..old(self)@ }),
    {
        self.pending_directory = Some(path);
    }

    /// Closes the dialog for choosing a directory and forgets what was
    /// entered.
    pub fn cancel_folder_dialog(&mut self)
        ensures
            final(self)@ == (GuiAppView {
                show_folder_dialog: false,
                pending_directory: None,
                ..old(self)@
            }),
    {
        self.show_folder_dialog = false;
        self.pending_directory = None;
    }

    /// The directory that the dialog would choose: the one entered, or the
    /// current one while nothing was entered.
    pub fn directory_in_dialog(&self) -> (path: String)
        ensures
            path@ == match self@.pending_directory {
                Some(pending) => pending,
                None => self@.current_directory,
            },
    {
        match &self.pending_directory {
            Some(pending) => pending.clone(),
            None => self.current_directory.clone(),
        }
    }

    /// Chooses the directory entered in the dialog, given what was found at
    /// it. The choice takes effect only if a directory was entered, is a
    /// directory, and neither a search nor a removal is under way: then it
    /// becomes the directory to search, the search descends, the dialog
    /// closes and a search begins, for which the settings are handed out.
    /// Otherwise nothing changes.
    pub fn select_directory(&mut self, status: PathStatus) -> (search: Option<VenvCleaner>)
        ensures
            old(self)@.pending_directory is None || status != PathStatus::Directory || !old(self)@.accepts_jobs() ==> search is None && final(self)@ == old(self)@,
            old(self)@.pending_directory matches Some(path) ==> status == PathStatus::Directory
                && old(self)@.accepts_jobs() ==> {
                &&& final(self)@ == (GuiAppView {
                    current_directory: path,
                    is_recursive: true,
                    show_folder_dialog: false,
                    pending_directory: None,
                    state: GuiAppState::Loading,
                    status: scanning_text(true),
                    ..old(self)@
                })
                &&& search matches Some(cleaner) && cleaner@ == final(self)@.worker_settings()
            },
    {
        if !matches!(status, PathStatus::Directory) || !self.accepts_jobs() {
            return None;
        }
        match self.pending_directory.take() {
            Some(path) => {
                self.current_directory = path;
                self.is_recursive = true;
                self.show_folder_dialog = false;
                self.status = String::from_str("Changed directory to: ").concat(
                    self.current_directory.as_str(),
                );
                self.start_loading_venvs()
            },
            None => None,
        }
    }

    /// Whether the mark at the head of the table is set: when the list is
    /// not empty and as many rows are marked as there are.
    pub fn all_selected(&self) -> (r: bool)
        requires
            self.wf(),
        ensures
            r == (self@.venvs.len() > 0 && self@.selected.len() == self@.venvs.len()),
    {
        self.venvs.len() > 0 && self.selected_venvs.len() == self.venvs.len()
    }

    /// Sets or clears the mark at the head of the table: every row is
    /// marked, or none.
    pub fn set_all_selected(&mut self, on: bool)
        requires
            old(self).wf(),
        ensures
            final(self).wf(),
            on ==> final(self)@ == old(self)@.after_select_all(),
            !on ==> final(self)@ == (GuiAppView { selected: Set::empty(), ..old(self)@ }),
    {
        if on {
            self.select_all();
        } else {
            self.select_none();
        }
    }

    /// What the dialog says about the directory entered, given what was
    /// found at it.
    pub fn pending_directory_note(status: PathStatus) -> (note: &'static str)
        ensures
            note@ == match status {
                PathStatus::Missing => "⚠️ Directory does not exist"@,
                PathStatus::NotDirectory => "⚠️ Path is not a directory"@,
                PathStatus::Directory => "✅ Valid directory"@,
            },
    {
        match status {
            PathStatus::Missing => "⚠️ Directory does not exist",
            PathStatus::NotDirectory => "⚠️ Path is not a directory",
            PathStatus::Directory => "✅ Valid directory",
        }
    }

    /// Whether the window has to be drawn again soon without the user doing
    /// anything: while a search or a removal is under way.
    pub fn needs_repaint(&self) -> (r: bool)
        ensures
            r == (self@.state == GuiAppState::Loading || self@.state == GuiAppState::Deleting),
    {
        matches!(self.state, GuiAppState::Loading | GuiAppState::Deleting)
    }

    /// The combined size of the marked rows, held to `u64::MAX`.
    pub fn selected_size(&self) -> (total: u64)
        ensures
            total == saturated(total_bytes(self@.marked())),
    {
        let marked = self.get_selected_venvs();
        crate::outcome::total_size(&marked)
    }

    /// What fills the main area of the window in the state the front end is
    /// in.
    pub fn draw_main_content(&self) -> (content: GuiContent)
        ensures
            content == match self@.state {
                GuiAppState::Loading => GuiContent::Loading,
                GuiAppState::Browsing => GuiContent::Table,
                GuiAppState::Deleting => GuiContent::Progress,
                GuiAppState::Error => GuiContent::Error,
                _ => GuiContent::Blank,
            },
    {
        match self.state {
            GuiAppState::Loading => GuiContent::Loading,
            GuiAppState::Browsing => GuiContent::Table,
            GuiAppState::Deleting => GuiContent::Progress,
            GuiAppState::Error => GuiContent::Error,
            _ => GuiContent::Blank,
        }
    }

    /// The state of the front end.
    pub fn state(&self) -> (state: GuiAppState)
        ensures
            state == self@.state,
    {
        self.state
    }

    /// The environments, in the order shown.
    pub fn venvs(&self) -> (venvs: &Vec<VenvInfo>)
        ensures
            venvs@ == self@.venvs,
    {
        &self.venvs
    }

    /// The places of the marked rows.
    pub fn selected_venvs(&self) -> (selected: &HashSet<usize>)
        ensures
            selected@ == self@.selected,
    {
        &self.selected_venvs
    }

    /// The status line.
    pub fn status(&self) -> (status: &str)
        ensures
            status@ == self@.status,
    {
        self.status.as_str()
    }

    /// The description of the last failure.
    pub fn error_message(&self) -> (message: &str)
        ensures
            message@ == self@.error_message,
    {
        self.error_message.as_str()
    }

    /// The attribute the list is ordered by.
    pub fn sort_by(&self) -> (sort_by: GuiSortBy)
        ensures
            sort_by == self@.sort_by,
    {
        self.sort_by
    }

    /// Whether the order is reversed.
    pub fn is_reverse_sort(&self) -> (r: bool)
        ensures
            r == self@.reverse_sort,
    {
        self.reverse_sort
    }

    /// The text that rows are filtered by.
    pub fn search_filter(&self) -> (filter: &str)
        ensures
            filter@ == self@.search_filter,
    {
        self.search_filter.as_str()
    }

    /// Replaces the text that rows are filtered by.
    pub fn set_search_filter(&mut self, filter: String)
        ensures
            final(self)@ == (GuiAppView { search_filter: filter@, ..old(self)@ }),
    {
        self.search_filter = filter;
    }

    /// The phase of the loading animation.
    pub fn loading_dots(&self) -> (dots: usize)
        ensures
            dots == self@.loading_dots,
    {
        self.loading_dots
    }

    /// Whether the request to confirm a removal is shown.
    pub fn shows_confirmation_dialog(&self) -> (r: bool)
        ensures
            r == self@.show_confirmation_dialog,
    {
        self.show_confirmation_dialog
    }
}

/// The places that a filter lets through are places of the list.
pub proof fn lemma_filtered_in_range(venvs: Seq<VenvInfo>, filter: Seq<char>, n: int)
    requires
        0 <= n <= venvs.len(),
    ensures
        forall|j: int|
            0 <= j < filtered_upto(venvs, filter, n).len() ==> (#[trigger] filtered_upto(
                venvs,
                filter,
                n,
            )[j]) < n,
        filtered_upto(venvs, filter, n).len() <= n,
    decreases n,
{
    if n > 0 {
        lemma_filtered_in_range(venvs, filter, n - 1);
    }
}

/// Whatever background work reports, and in whatever order, the marks stay
/// within the list; and a report that replaces the list, or that a removal
/// has finished, leaves nothing marked.
pub proof fn law_reports_keep_order(app: GuiAppView, event: GuiEvent)
    requires
        app.wf(),
    ensures
        app.after_event(event).wf(),
        app.state != GuiAppState::Quit && event is VenvsLoaded ==> app.after_event(event).selected
            == Set::<usize>::empty(),
        app.state != GuiAppState::Quit && event is DeletionComplete ==> app.after_event(
            event,
        ).selected == Set::<usize>::empty(),
{
    if app.state != GuiAppState::Quit {
        match event {
            GuiEvent::VenvsLoaded(venvs) => {
                crate::sorting::lemma_stable_sorted_len(
                    venvs@,
                    app.sort_by.spec_sort_key(),
                    app.reverse_sort,
                );
            },
            _ => {},
        }
    }
}

/// While a search or a removal is under way, asking for another starts
/// none: the state stays as it is.
pub proof fn law_one_job_at_a_time(app: GuiAppView)
    requires
        app.state == GuiAppState::Loading || app.state == GuiAppState::Deleting,
    ensures
        app.after_refresh() == app,
        app.deleting() == app,
        app.after_key(GuiKey::Refresh) == app,
{
}

/// Once the front end has been left, neither reports nor keys change
/// anything.
pub proof fn law_quit_is_final(app: GuiAppView, event: GuiEvent, key: GuiKey)
    requires
        app.state == GuiAppState::Quit,
    ensures
        app.after_event(event) == app,
        app.after_key(key) == app,
        app.after_refresh() == app,
        app.deleting() == app,
{
}

/// No report leads into or out of `Quit`, so the searches that a queue owes
/// are none once the front end has been left, and otherwise as many as the
/// queue holds finished removals.
pub proof fn law_searches_owed(app: GuiAppView, events: Seq<GuiEvent>)
    ensures
        app.state == GuiAppState::Quit ==> app.searches_owed(events) == 0,
        app.searches_owed(events) <= events.len(),
        app.state != GuiAppState::Quit ==> app.searches_owed(events) == events.filter(
            |e: GuiEvent| e is DeletionComplete,
        ).len(),
        (app.state == GuiAppState::Quit) == (app.after_events(events).state == GuiAppState::Quit),
    decreases events.len(),
{
    let finished = |e: GuiEvent| e is DeletionComplete;
    if events.len() > 0 {
        let rest = events.drop_first();
        law_searches_owed(app.after_event(events[0]), rest);
        assert(events =~= seq![events[0]] + rest);
        Seq::filter_distributes_over_add(seq![events[0]], rest, finished);
        reveal_with_fuel(Seq::filter, 2);
        let one = seq![events[0]];
        assert(one.drop_last() =~= Seq::<GuiEvent>::empty());
        assert(one.drop_last().filter(finished) =~= Seq::<GuiEvent>::empty());
        assert(one.last() == events[0]);
        assert(seq![events[0]].filter(finished).len() == if events[0] is DeletionComplete {
            1nat
        } else {
            0nat
        });
    } else {
        reveal(Seq::filter);
    }
}

} // verus!
