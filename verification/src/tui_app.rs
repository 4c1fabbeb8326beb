//! The state behind the terminal front end: the list of environments, the
//! cursor, the marked entries, the sort order and the messages.
//!
//! Entries are marked by their place in the list. Whenever the list is
//! replaced or rearranged the marks are dropped, so that a mark never points
//! at another entry than the one it was put on, nor past the end of the list.

use vstd::prelude::*;
use std::collections::HashSet;
use crate::events::AppState;
use crate::outcome::{total_bytes, total_size, DeletionResult};
use crate::size_text::{decimal_text, push_decimal};
use crate::sort_key::SortBy;
use crate::sorting::{sort_entries, stable_sorted};
use crate::timestamp::Timestamp;
use crate::venv_info::VenvInfo;
use crate::walk::saturated;

verus! {

broadcast use vstd::std_specs::hash::group_hash_axioms;

/// The animation of the loading screen advances when more than this many
/// milliseconds have passed.
pub const ANIMATION_STEP_MS: u64 = 500;

/// The animation has this many phases.
pub const ANIMATION_PHASES: usize = 4;

/// The number of list rows assumed until the terminal's size is known.
pub const DEFAULT_VISIBLE_ITEMS: usize = 20;

/// How far a batch of removals has come.
#[derive(Debug, Clone)]
pub struct DeletionProgress {
    /// How many environments were to be removed.
    pub total: usize,
    /// How many have been dealt with.
    pub completed: usize,
    /// How many removals succeeded.
    pub successful: usize,
    /// How many failed.
    pub failed: usize,
    /// The path of each environment dealt with, and whether it was removed.
    pub results: Vec<(String, bool)>,
}

impl Default for DeletionProgress {
    /// The progress of a batch that has not begun: nothing to do, nothing
    /// done.
    fn default() -> (progress: DeletionProgress)
        ensures
            progress.total == 0,
            progress.completed == 0,
            progress.successful == 0,
            progress.failed == 0,
            progress.results@ == Seq::<(String, bool)>::empty(),
    {
        DeletionProgress { total: 0, completed: 0, successful: 0, failed: 0, results: Vec::new() }
    }
}

/// Figures about the list as a whole.
#[derive(Debug, Clone, Copy, PartialEq, Eq, Structural)]
pub struct SummaryStats {
    /// How many environments the list holds.
    pub total_count: usize,
    /// How many of them are marked.
    pub selected_count: usize,
    /// The combined size of all, held to `u64::MAX`.
    pub total_size: u64,
    /// The combined size of the marked ones, held to `u64::MAX`.
    pub selected_size: u64,
    /// How many count as old.
    pub old_count: usize,
    /// How many count as recently used.
    pub recent_count: usize,
}

/// What a [`TuiApp`] holds, as plain values.
pub struct TuiAppView {
    /// The state of the front end.
    pub state: AppState,
    /// The environments, in the order shown.
    pub venvs: Seq<VenvInfo>,
    /// The place of the cursor.
    pub selected_index: usize,
    /// The places of the marked entries.
    pub selected: Set<usize>,
    /// The attribute the list is ordered by.
    pub sort_by: SortBy,
    /// Whether the order is reversed.
    pub reverse_sort: bool,
    /// The status line.
    pub status: Seq<char>,
    /// The description of the last failure.
    pub error_message: Seq<char>,
    /// When the animation last advanced, in milliseconds.
    pub last_tick_ms: u64,
    /// The phase of the loading animation.
    pub loading_dots: usize,
    /// How far the last batch of removals has come.
    pub progress: DeletionProgress,
    /// The directory that is searched.
    pub current_directory: Seq<char>,
    /// Whether the search descends.
    pub is_recursive: bool,
    /// Whether details are shown.
    pub show_details: bool,
    /// The place of the first list row on screen.
    pub scroll_offset: usize,
    /// How many list rows fit on screen.
    pub visible_items: usize,
}

/// True when `progress` shows the batch with the results `results` as
/// complete: the counts are those of the results, and every result is noted
/// by the path of its environment and by whether the removal succeeded.
pub open spec fn recorded(progress: DeletionProgress, results: Seq<DeletionResult>) -> bool {
    &&& progress.total == results.len()
    &&& progress.completed == results.len()
    &&& progress.successful == crate::outcome::success_count(results, results.len() as int)
    &&& progress.successful + progress.failed == results.len()
    &&& progress.results@.len() == results.len()
    &&& forall|k: int|
        0 <= k < results.len() ==> {
            &&& (#[trigger] progress.results@[k]).0@ == results[k].0@.path
            &&& progress.results@[k].1 == (results[k].1 is Ok)
        }
}

/// True of the state at the start: loading, nothing found or marked, ordered
/// by path, cursor and screen at the top, no batch of removals begun, the
/// animation at rest, the current directory searched with everything below.
pub open spec fn is_initial(app: TuiAppView) -> bool {
    &&& app.state == AppState::Loading
    &&& app.venvs == Seq::<VenvInfo>::empty()
    &&& app.selected_index == 0
    &&& app.selected == Set::<usize>::empty()
    &&& app.sort_by == SortBy::Path
    &&& !app.reverse_sort
    &&& app.status == "Initializing..."@
    &&& app.error_message == Seq::<char>::empty()
    &&& app.last_tick_ms == 0
    &&& app.loading_dots == 0
    &&& recorded(app.progress, Seq::<DeletionResult>::empty())
    &&& app.progress.failed == 0
    &&& app.current_directory == "."@
    &&& app.is_recursive
    &&& !app.show_details
    &&& app.scroll_offset == 0
    &&& app.visible_items == DEFAULT_VISIBLE_ITEMS
}

/// The status line for a list of `count` environments.
pub open spec fn found_text(count: nat) -> Seq<char> {
    if count == 0 {
        "No .venv directories found"@
    } else {
        "Found "@ + decimal_text(count) + " .venv directories"@
    }
}

/// The status line after a batch of removals.
pub open spec fn deleted_text(successful: nat, failed: nat) -> Seq<char> {
    if failed == 0 {
        "✅ Successfully deleted "@ + decimal_text(successful)
            + " directories. List will refresh automatically."@
    } else {
        "⚠️ Deleted "@ + decimal_text(successful) + " directories, "@ + decimal_text(failed)
            + " failed. Check permissions for failed items."@
    }
}

/// The smaller of two places.
pub open spec fn lesser(a: int, b: int) -> int {
    if a <= b {
        a
    } else {
        b
    }
}

/// The first row to show so that the cursor is on screen: the cursor's row
/// when it lies above the screen; when it lies below, the row that puts it
/// last; otherwise the row shown now.
pub open spec fn scroll_for(selected: usize, scroll: usize, visible: usize) -> usize {
    let keep: int = if visible == 0 {
        0
    } else {
        visible - 1
    };
    if selected < scroll {
        selected
    } else if selected >= scroll + visible {
        (selected - keep) as usize
    } else {
        scroll
    }
}

/// The places below `n` that are marked, as entries of the list, in the
/// order of the list.
pub open spec fn chosen(venvs: Seq<VenvInfo>, selected: Set<usize>, n: int) -> Seq<VenvInfo>
    decreases n,
{
    if n <= 0 {
        Seq::empty()
    } else if selected.contains((n - 1) as usize) {
        chosen(venvs, selected, n - 1).push(venvs[n - 1])
    } else {
        chosen(venvs, selected, n - 1)
    }
}

/// How many of the first `n` environments count as old at `now`.
pub open spec fn old_count(venvs: Seq<VenvInfo>, now: Timestamp, n: int) -> nat
    decreases n,
{
    if n <= 0 {
        0
    } else {
        old_count(venvs, now, n - 1) + if venvs[n - 1]@.old_at(now) {
            1nat
        } else {
            0nat
        }
    }
}

/// How many of the first `n` environments count as recently used at `now`.
pub open spec fn recent_count(venvs: Seq<VenvInfo>, now: Timestamp, n: int) -> nat
    decreases n,
{
    if n <= 0 {
        0
    } else {
        recent_count(venvs, now, n - 1) + if venvs[n - 1]@.recently_used_at(now) {
            1nat
        } else {
            0nat
        }
    }
}

impl TuiAppView {
    /// What always holds of the state: every mark points at an entry of the
    /// list, the cursor is on an entry unless the list is empty, the screen
    /// does not start below the cursor, and the animation is in one of its
    /// phases.
    pub open spec fn wf(self) -> bool {
        &&& self.selected.finite()
        &&& forall|i: usize| self.selected.contains(i) ==> i < self.venvs.len()
        &&& (self.selected_index == 0 || self.selected_index < self.venvs.len())
        &&& self.scroll_offset <= self.selected_index
        &&& self.loading_dots < ANIMATION_PHASES
    }

    /// The state with the cursor at `index` and the screen moved to show it.
    pub open spec fn with_cursor(self, index: usize) -> TuiAppView {
        TuiAppView {
            selected_index: index,
            scroll_offset: scroll_for(index, self.scroll_offset, self.visible_items),
            ..self
        }
    }

    /// The last place of the list, or zero for an empty list.
    pub open spec fn last_index(self) -> usize {
        if self.venvs.len() == 0 {
            0
        } else {
            (self.venvs.len() - 1) as usize
        }
    }

    /// How far a page moves the cursor.
    pub open spec fn page_size(self) -> usize {
        if self.visible_items == 0 {
            0
        } else {
            (self.visible_items - 1) as usize
        }
    }

    /// The state after the cursor has moved to the next entry.
    pub open spec fn after_next(self) -> TuiAppView {
        if self.venvs.len() == 0 {
            self
        } else {
            self.with_cursor(lesser(self.selected_index + 1, self.venvs.len() - 1) as usize)
        }
    }

    /// The state after the cursor has moved to the entry before.
    pub open spec fn after_previous(self) -> TuiAppView {
        if self.selected_index == 0 {
            self
        } else {
            self.with_cursor((self.selected_index - 1) as usize)
        }
    }

    /// The state after cursor and screen have moved to the top.
    pub open spec fn after_first(self) -> TuiAppView {
        TuiAppView { selected_index: 0, scroll_offset: 0, ..self }
    }

    /// The state after the cursor has moved to the last entry.
    pub open spec fn after_last(self) -> TuiAppView {
        if self.venvs.len() == 0 {
            self
        } else {
            self.with_cursor((self.venvs.len() - 1) as usize)
        }
    }

    /// The state after the cursor has moved up by a page.
    pub open spec fn after_page_up(self) -> TuiAppView {
        self.with_cursor(
            if self.selected_index >= self.page_size() {
                (self.selected_index - self.page_size()) as usize
            } else {
                0
            },
        )
    }

    /// The state after the cursor has moved down by a page.
    pub open spec fn after_page_down(self) -> TuiAppView {
        if self.venvs.len() == 0 {
            self
        } else {
            self.with_cursor(
                lesser(self.selected_index + self.page_size(), self.venvs.len() - 1) as usize,
            )
        }
    }

    /// The state after the mark of the entry under the cursor has been
    /// turned over.
    pub open spec fn after_toggle(self) -> TuiAppView {
        if self.selected_index >= self.venvs.len() {
            self
        } else if self.selected.contains(self.selected_index) {
            TuiAppView { selected: self.selected.remove(self.selected_index), ..self }
        } else {
            TuiAppView { selected: self.selected.insert(self.selected_index), ..self }
        }
    }

    /// The state with every entry marked.
    pub open spec fn after_select_all(self) -> TuiAppView {
        TuiAppView { selected: Set::new(|i: usize| i < self.venvs.len()), ..self }
    }

    /// The state with no entry marked.
    pub open spec fn after_deselect_all(self) -> TuiAppView {
        TuiAppView { selected: Set::empty(), ..self }
    }

    /// The marked environments, in the order of the list.
    pub open spec fn marked(self) -> Seq<VenvInfo> {
        chosen(self.venvs, self.selected, self.venvs.len() as int)
    }

    /// The state after the list has been replaced by `venvs`, arranged by
    /// the current order: cursor and screen at the top, no marks, and the
    /// status telling how many there are.
    pub open spec fn with_list(self, venvs: Seq<VenvInfo>) -> TuiAppView {
        TuiAppView {
            venvs: stable_sorted(venvs, self.sort_by, self.reverse_sort),
            selected_index: 0,
            selected: Set::empty(),
            scroll_offset: 0,
            status: found_text(venvs.len()),
            ..self
        }
    }

    /// The state after the list has been arranged anew by `sort_by` and
    /// `reverse_sort`: no marks, the cursor held within the list.
    pub open spec fn resorted(self, sort_by: SortBy, reverse_sort: bool) -> TuiAppView {
        let cursor = if self.selected_index <= self.last_index() {
            self.selected_index
        } else {
            self.last_index()
        };
        TuiAppView {
            venvs: stable_sorted(self.venvs, sort_by, reverse_sort),
            sort_by,
            reverse_sort,
            selected: Set::empty(),
            selected_index: cursor,
            scroll_offset: scroll_for(cursor, self.scroll_offset, self.visible_items),
            ..self
        }
    }
}

/// The state behind the terminal front end.
pub struct TuiApp {
    state: AppState,
    venvs: Vec<VenvInfo>,
    selected_index: usize,
    selected_venvs: HashSet<usize>,
    sort_by: SortBy,
    reverse_sort: bool,
    status: String,
    error_message: String,
    last_tick_ms: u64,
    loading_dots: usize,
    deletion_progress: DeletionProgress,
    current_directory: String,
    is_recursive: bool,
    show_details: bool,
    scroll_offset: usize,
    visible_items: usize,
}

impl View for TuiApp {
    type V = TuiAppView;

    closed spec fn view(&self) -> TuiAppView {
        TuiAppView {
            state: self.state,
            venvs: self.venvs@,
            selected_index: self.selected_index,
            selected: self.selected_venvs@,
            sort_by: self.sort_by,
            reverse_sort: self.reverse_sort,
            status: self.status@,
            error_message: self.error_message@,
            last_tick_ms: self.last_tick_ms,
            loading_dots: self.loading_dots,
            progress: self.deletion_progress,
            current_directory: self.current_directory@,
            is_recursive: self.is_recursive,
            show_details: self.show_details,
            scroll_offset: self.scroll_offset,
            visible_items: self.visible_items,
        }
    }
}

/// The status line for a list of `count` environments.
pub fn found_status(count: usize) -> (text: String)
    ensures
        text@ == found_text(count as nat),
{
    if count == 0 {
        String::from_str("No .venv directories found")
    } else {
        let mut text = String::from_str("Found ");
        push_decimal(&mut text, count as u128);
        text.append(" .venv directories");
        text
    }
}

/// The status line after a batch of removals.
pub fn deleted_status(successful: usize, failed: usize) -> (text: String)
    ensures
        text@ == deleted_text(successful as nat, failed as nat),
{
    if failed == 0 {
        let mut text = String::from_str("✅ Successfully deleted ");
        push_decimal(&mut text, successful as u128);
        text.append(" directories. List will refresh automatically.");
        text
    } else {
        let mut text = String::from_str("⚠️ Deleted ");
        push_decimal(&mut text, successful as u128);
        text.append(" directories, ");
        push_decimal(&mut text, failed as u128);
        text.append(" failed. Check permissions for failed items.");
        text
    }
}

impl TuiApp {
    /// True when the state is in order; see [`TuiAppView::wf`].
    pub open spec fn wf(&self) -> bool {
        self@.wf()
    }

    /// The state at the start: loading, nothing found yet, ordered by path,
    /// searching the current directory and below.
    pub fn new() -> (app: TuiApp)
        ensures
            app.wf(),
            is_initial(app@),
    {
        TuiApp {
            state: AppState::Loading,
            venvs: Vec::new(),
            selected_index: 0,
            selected_venvs: HashSet::new(),
            sort_by: SortBy::Path,
            reverse_sort: false,
            status: String::from_str("Initializing..."),
            error_message: String::new(),
            last_tick_ms: 0,
            loading_dots: 0,
            deletion_progress: DeletionProgress::default(),
            current_directory: String::from_str("."),
            is_recursive: true,
            show_details: false,
            scroll_offset: 0,
            visible_items: DEFAULT_VISIBLE_ITEMS,
        }
    }

    /// The state of the front end.
    pub fn state(&self) -> (state: &AppState)
        ensures
            *state == self@.state,
    {
        &self.state
    }

    /// Puts the front end into `state`.
    pub fn set_state(&mut self, state: AppState)
        ensures
            final(self)@ == (TuiAppView { state, ..old(self)@ }),
    {
        self.state = state;
    }

    /// The environments, in the order shown.
    pub fn venvs(&self) -> (venvs: &Vec<VenvInfo>)
        ensures
            venvs@ == self@.venvs,
    {
        &self.venvs
    }

    /// Replaces the list by `venvs`, arranged by the current sort order. The
    /// cursor and the screen return to the top, every mark is dropped, and
    /// the status tells how many environments there are.
    pub fn set_venvs(&mut self, venvs: Vec<VenvInfo>)
        requires
            old(self).wf(),
        ensures
            final(self)@ == old(self)@.with_list(venvs@),
            final(self).wf(),
    {
        let mut venvs = venvs;
        let ghost given = venvs@;
        sort_entries(&mut venvs, self.sort_by, self.reverse_sort);
        proof {
            crate::sorting::lemma_stable_sorted_len(given, self.sort_by, self.reverse_sort);
        }
        self.status = found_status(venvs.len());
        self.venvs = venvs;
        self.selected_index = 0;
        self.selected_venvs.clear();
        self.scroll_offset = 0;
    }

    /// The place of the cursor.
    pub fn selected_index(&self) -> (index: usize)
        ensures
            index == self@.selected_index,
    {
        self.selected_index
    }

    /// The environment under the cursor, if the list has one there.
    pub fn selected_venv(&self) -> (venv: Option<&VenvInfo>)
        ensures
            self@.selected_index < self@.venvs.len() ==> venv == Some(
                &self@.venvs[self@.selected_index as int],
            ),
            self@.selected_index >= self@.venvs.len() ==> venv is None,
    {
        if self.selected_index < self.venvs.len() {
            Some(&self.venvs[self.selected_index])
        } else {
            None
        }
    }

    /// The places of the marked entries.
    pub fn selected_venvs(&self) -> (selected: &HashSet<usize>)
        ensures
            selected@ == self@.selected,
    {
        &self.selected_venvs
    }

    /// Whether any entry is marked.
    pub fn has_selected_items(&self) -> (r: bool)
        ensures
            r == (self@.selected != Set::<usize>::empty()),
    {
        let empty = self.selected_venvs.is_empty();
        assert(self.selected_venvs@.is_empty() <==> self.selected_venvs@ =~= Set::<usize>::empty());
        !empty
    }

    /// The attribute the list is ordered by.
    pub fn sort_by(&self) -> (sort_by: SortBy)
        ensures
            sort_by == self@.sort_by,
    {
        self.sort_by
    }

    /// The status line.
    pub fn status(&self) -> (status: &str)
        ensures
            status@ == self@.status,
    {
        self.status.as_str()
    }

    /// Replaces the status line.
    pub fn set_status(&mut self, status: String)
        ensures
            final(self)@ == (TuiAppView { status: status@, ..old(self)@ }),
    {
        self.status = status;
    }

    /// The description of the last failure.
    pub fn error_message(&self) -> (message: &str)
        ensures
            message@ == self@.error_message,
    {
        self.error_message.as_str()
    }

    /// Records the description of a failure.
    pub fn set_error(&mut self, error: String)
        ensures
            final(self)@ == (TuiAppView { error_message: error@, ..old(self)@ }),
    {
        self.error_message = error;
    }

    /// The directory that is searched.
    pub fn current_directory(&self) -> (path: &String)
        ensures
            path@ == self@.current_directory,
    {
        &self.current_directory
    }

    /// Sets the directory to search and whether the search descends.
    pub fn set_current_directory(&mut self, path: String, recursive: bool)
        ensures
            final(self)@ == (TuiAppView {
                current_directory: path@,
                is_recursive: recursive,
                ..old(self)@
            }),
    {
        self.current_directory = path;
        self.is_recursive = recursive;
    }

    /// Whether the search descends.
    pub fn is_recursive(&self) -> (r: bool)
        ensures
            r == self@.is_recursive,
    {
        self.is_recursive
    }

    /// The phase of the loading animation.
    pub fn loading_dots(&self) -> (dots: usize)
        ensures
            dots == self@.loading_dots,
    {
        self.loading_dots
    }

    /// How far the last batch of removals has come.
    pub fn deletion_progress(&self) -> (progress: &DeletionProgress)
        ensures
            *progress == self@.progress,
    {
        &self.deletion_progress
    }

    /// Whether details are shown.
    pub fn show_details(&self) -> (r: bool)
        ensures
            r == self@.show_details,
    {
        self.show_details
    }

    /// Shows the details if they are hidden, hides them if they are shown.
    pub fn toggle_details(&mut self)
        ensures
            final(self)@ == (TuiAppView { show_details: !old(self)@.show_details, ..old(self)@ }),
    {
        self.show_details = !self.show_details;
    }

    /// The place of the first list row on screen.
    pub fn scroll_offset(&self) -> (offset: usize)
        ensures
            offset == self@.scroll_offset,
    {
        self.scroll_offset
    }

    /// Tells the state how many list rows fit on screen.
    pub fn set_visible_items(&mut self, count: usize)
        ensures
            final(self)@ == (TuiAppView { visible_items: count, ..old(self)@ }),
    {
        self.visible_items = count;
    }

    /// How many list rows fit on screen.
    pub fn visible_items(&self) -> (count: usize)
        ensures
            count == self@.visible_items,
    {
        self.visible_items
    }

    /// Moves the screen so that the cursor is on it.
    fn adjust_scroll(&mut self)
        requires
            old(self).selected_index == 0 || old(self).selected_index < old(self).venvs.len(),
        ensures
            final(self)@ == (TuiAppView {
                scroll_offset: scroll_for(
                    old(self)@.selected_index,
                    old(self)@.scroll_offset,
                    old(self)@.visible_items,
                ),
                ..old(self)@
            }),
            final(self)@.scroll_offset <= final(self)@.selected_index,
    {
        if self.selected_index < self.scroll_offset {
            self.scroll_offset = self.selected_index;
        } else {
            let below = match self.scroll_offset.checked_add(self.visible_items) {
                Some(limit) => self.selected_index >= limit,
                None => false,
            };
            if below {
                let keep: usize = if self.visible_items == 0 {
                    0
                } else {
                    self.visible_items - 1
                };
                self.scroll_offset = self.selected_index - keep;
            }
        }
    }

    /// Moves the cursor to the next entry, if there is one.
    pub fn select_next(&mut self)
        requires
            old(self).wf(),
        ensures
            final(self).wf(),
            final(self)@ == old(self)@.after_next(),
    {
        if self.venvs.len() > 0 {
            let last: usize = self.venvs.len() - 1;
            let next: usize = self.selected_index + 1;
            self.selected_index = if next <= last {
                next
            } else {
                last
            };
            self.adjust_scroll();
        }
    }

    /// Moves the cursor to the entry before, if there is one.
    pub fn select_previous(&mut self)
        requires
            old(self).wf(),
        ensures
            final(self).wf(),
            final(self)@ == old(self)@.after_previous(),
    {
        if self.selected_index > 0 {
            self.selected_index = self.selected_index - 1;
            self.adjust_scroll();
        }
    }

    /// Moves the cursor and the screen to the top of the list.
    pub fn select_first(&mut self)
        requires
            old(self).wf(),
        ensures
            final(self).wf(),
            final(self)@ == old(self)@.after_first(),
    {
        self.selected_index = 0;
        self.scroll_offset = 0;
    }

    /// Moves the cursor to the last entry.
    pub fn select_last(&mut self)
        requires
            old(self).wf(),
        ensures
            final(self).wf(),
            final(self)@ == old(self)@.after_last(),
    {
        if self.venvs.len() > 0 {
            self.selected_index = self.venvs.len() - 1;
            self.adjust_scroll();
        }
    }

    /// Moves the cursor up by a page: one row less than fit on screen.
    pub fn page_up(&mut self)
        requires
            old(self).wf(),
        ensures
            final(self).wf(),
            final(self)@ == old(self)@.after_page_up(),
    {
        let page: usize = if self.visible_items == 0 {
            0
        } else {
            self.visible_items - 1
        };
        self.selected_index = if self.selected_index >= page {
            self.selected_index - page
        } else {
            0
        };
        self.adjust_scroll();
    }

    /// Moves the cursor down by a page, but not past the last entry.
    pub fn page_down(&mut self)
        requires
            old(self).wf(),
        ensures
            final(self).wf(),
            final(self)@ == old(self)@.after_page_down(),
    {
        if self.venvs.len() > 0 {
            let page: usize = if self.visible_items == 0 {
                0
            } else {
                self.visible_items - 1
            };
            let last: usize = self.venvs.len() - 1;
            self.selected_index = match self.selected_index.checked_add(page) {
                Some(target) => if target <= last {
                    target
                } else {
                    last
                },
                None => last,
            };
            self.adjust_scroll();
        }
    }

    /// Marks the entry under the cursor, or unmarks it if it is marked.
    /// Nothing happens while the list is empty.
    pub fn toggle_selected(&mut self)
        requires
            old(self).wf(),
        ensures
            final(self).wf(),
            final(self)@ == old(self)@.after_toggle(),
    {
        if self.selected_index < self.venvs.len() {
            let index: usize = self.selected_index;
            if self.selected_venvs.contains(&index) {
                self.selected_venvs.remove(&index);
            } else {
                self.selected_venvs.insert(index);
            }
        }
    }

    /// Marks every entry.
    pub fn select_all(&mut self)
        requires
            old(self).wf(),
        ensures
            final(self).wf(),
            final(self)@ == old(self)@.after_select_all(),
    {
        self.selected_venvs.clear();
        let count: usize = self.venvs.len();
        let mut i: usize = 0;
        while i < count
            invariant
                i <= count,
                count == self.venvs.len(),
                self.selected_venvs@.finite(),
                self.selected_venvs@ =~= Set::new(|k: usize| k < i),
                self@ == (TuiAppView { selected: self.selected_venvs@, ..old(self)@ }),
            decreases count - i,
        {
            self.selected_venvs.insert(i);
            i = i + 1;
        }
    }

    /// Unmarks every entry.
    pub fn deselect_all(&mut self)
        requires
            old(self).wf(),
        ensures
            final(self).wf(),
            final(self)@ == old(self)@.after_deselect_all(),
    {
        self.selected_venvs.clear();
    }

    /// Arranges the list anew by the sort settings now in force.
    fn sort_current_venvs(&mut self)
        requires
            old(self).wf(),
        ensures
            final(self).wf(),
            final(self)@ == old(self)@.resorted(old(self)@.sort_by, old(self)@.reverse_sort),
    {
        let ghost before = self.venvs@;
        sort_entries(&mut self.venvs, self.sort_by, self.reverse_sort);
        proof {
            crate::sorting::lemma_stable_sorted_len(before, self.sort_by, self.reverse_sort);
        }
        self.selected_venvs.clear();
        let last: usize = if self.venvs.len() == 0 {
            0
        } else {
            self.venvs.len() - 1
        };
        if self.selected_index > last {
            self.selected_index = last;
        }
        self.adjust_scroll();
    }

    /// Moves on to the next sort attribute and arranges the list by it.
    /// Every mark is dropped.
    pub fn cycle_sort(&mut self)
        requires
            old(self).wf(),
        ensures
            final(self).wf(),
            final(self)@ == old(self)@.resorted(
                old(self)@.sort_by.spec_next(),
                old(self)@.reverse_sort,
            ),
    {
        self.sort_by = self.sort_by.next();
        self.sort_current_venvs();
    }

    /// Turns the sort order round and arranges the list by it. Every mark is
    /// dropped.
    pub fn reverse_sort(&mut self)
        requires
            old(self).wf(),
        ensures
            final(self).wf(),
            final(self)@ == old(self)@.resorted(old(self)@.sort_by, !old(self)@.reverse_sort),
    {
        self.reverse_sort = !self.reverse_sort;
        self.sort_current_venvs();
    }

    /// Advances the loading animation by one phase when more than
    /// [`ANIMATION_STEP_MS`] milliseconds have passed since it last advanced.
    pub fn tick(&mut self, now_ms: u64)
        requires
            old(self).wf(),
        ensures
            final(self).wf(),
            now_ms - old(self)@.last_tick_ms > ANIMATION_STEP_MS ==> final(self)@ == (TuiAppView {
                last_tick_ms: now_ms,
                loading_dots: ((old(self)@.loading_dots + 1) % 4) as usize,
                ..old(self)@
            }),
            now_ms - old(self)@.last_tick_ms <= ANIMATION_STEP_MS ==> final(self)@ == old(self)@,
    {
        if now_ms > self.last_tick_ms && now_ms - self.last_tick_ms > ANIMATION_STEP_MS {
            self.last_tick_ms = now_ms;
            self.loading_dots = (self.loading_dots + 1) % ANIMATION_PHASES;
        }
    }

    /// The first row on screen and the row behind the last.
    pub fn visible_range(&self) -> (range: (usize, usize))
        ensures
            range.0 == self@.scroll_offset,
            range.1 == lesser(
                self@.scroll_offset + self@.visible_items,
                self@.venvs.len() as int,
            ),
    {
        let start: usize = self.scroll_offset;
        let end: usize = match start.checked_add(self.visible_items) {
            Some(limit) => if limit <= self.venvs.len() {
                limit
            } else {
                self.venvs.len()
            },
            None => self.venvs.len(),
        };
        (start, end)
    }

    /// Whether the entry at `index` is marked.
    pub fn is_item_selected(&self, index: usize) -> (r: bool)
        ensures
            r == self@.selected.contains(index),
    {
        self.selected_venvs.contains(&index)
    }

    /// The marked environments, in the order of the list.
    pub fn get_selected_venvs(&self) -> (marked: Vec<VenvInfo>)
        ensures
            marked@ == self@.marked(),
    {
        let mut marked: Vec<VenvInfo> = Vec::new();
        let mut i: usize = 0;
        while i < self.venvs.len()
            invariant
                i <= self.venvs.len(),
                marked@ == chosen(self.venvs@, self.selected_venvs@, i as int),
            decreases self.venvs.len() - i,
        {
            if self.selected_venvs.contains(&i) {
                marked.push(self.venvs[i].clone());
            }
            i = i + 1;
        }
        marked
    }

    /// The folder to open for the entry under the cursor: the directory that
    /// holds the environment. Opening it is left to the caller.
    pub fn open_folder(&self) -> (folder: Option<String>)
        ensures
            self@.selected_index >= self@.venvs.len() ==> folder is None,
            self@.selected_index < self@.venvs.len() ==> crate::path_text::text_of(folder)
                == self@.venvs[self@.selected_index as int]@.parent(),
    {
        match self.selected_venv() {
            Some(venv) => venv.parent_path(),
            None => None,
        }
    }

    /// Takes in the results of a batch of removals: the progress shows the
    /// batch as complete, the status tells how it went, every mark is
    /// dropped, and cursor and screen return to the top.
    pub fn handle_deletion_results(&mut self, results: Vec<DeletionResult>)
        requires
            old(self).wf(),
        ensures
            final(self).wf(),
            recorded(final(self)@.progress, results@),
            final(self)@ == (TuiAppView {
                progress: final(self)@.progress,
                status: deleted_text(
                    final(self)@.progress.successful as nat,
                    final(self)@.progress.failed as nat,
                ),
                selected: Set::empty(),
                selected_index: 0,
                scroll_offset: 0,
                ..old(self)@
            }),
    {
        let mut successful: usize = 0;
        let mut failed: usize = 0;
        let mut simplified: Vec<(String, bool)> = Vec::new();
        let mut k: usize = 0;
        while k < results.len()
            invariant
                k <= results.len(),
                successful == crate::outcome::success_count(results@, k as int),
                successful + failed == k,
                simplified.len() == k,
                forall|j: int|
                    0 <= j < k ==> {
                        &&& (#[trigger] simplified[j]).0@ == results[j].0@.path
                        &&& simplified[j].1 == (results[j].1 is Ok)
                    },
            decreases results.len() - k,
        {
            let path = String::from_str(results[k].0.path());
            match &results[k].1 {
                Ok(_) => {
                    successful = successful + 1;
                    simplified.push((path, true));
                },
                Err(_) => {
                    failed = failed + 1;
                    simplified.push((path, false));
                },
            }
            k = k + 1;
        }
        let count: usize = simplified.len();
        self.deletion_progress = DeletionProgress {
            total: count,
            completed: count,
            successful,
            failed,
            results: simplified,
        };
        self.status = deleted_status(successful, failed);
        self.selected_venvs.clear();
        self.selected_index = 0;
        self.scroll_offset = 0;
    }

    /// Figures about the list at the instant `now`.
    pub fn get_summary_stats_at(&self, now: &Timestamp) -> (stats: SummaryStats)
        requires
            self.wf(),
        ensures
            stats.total_count == self@.venvs.len(),
            stats.selected_count == self@.selected.len(),
            stats.total_size == saturated(total_bytes(self@.venvs)),
            stats.selected_size == saturated(
                total_bytes(chosen(self@.venvs, self@.selected, self@.venvs.len() as int)),
            ),
            stats.old_count == old_count(self@.venvs, *now, self@.venvs.len() as int),
            stats.recent_count == recent_count(self@.venvs, *now, self@.venvs.len() as int),
    {
        let mut selected_size: u64 = 0;
        let mut old: usize = 0;
        let mut recent: usize = 0;
        let mut i: usize = 0;
        while i < self.venvs.len()
            invariant
                i <= self.venvs.len(),
                selected_size == saturated(
                    total_bytes(chosen(self.venvs@, self.selected_venvs@, i as int)),
                ),
                old == old_count(self.venvs@, *now, i as int),
                recent == recent_count(self.venvs@, *now, i as int),
                old <= i,
                recent <= i,
            decreases self.venvs.len() - i,
        {
            if self.selected_venvs.contains(&i) {
                assert(chosen(self.venvs@, self.selected_venvs@, i + 1).drop_last() =~= chosen(
                    self.venvs@,
                    self.selected_venvs@,
                    i as int,
                ));
                selected_size = selected_size.saturating_add(self.venvs[i].size_bytes());
            }
            if self.venvs[i].is_old_at(now) {
                old = old + 1;
            }
            if self.venvs[i].is_recently_used_at(now) {
                recent = recent + 1;
            }
            i = i + 1;
        }
        SummaryStats {
            total_count: self.venvs.len(),
            selected_count: self.selected_venvs.len(),
            total_size: total_size(&self.venvs),
            selected_size,
            old_count: old,
            recent_count: recent,
        }
    }

    /// Figures about the list, with ages judged by the system clock.
    pub fn get_summary_stats(&self) -> (stats: SummaryStats)
        requires
            self.wf(),
        ensures
            stats.total_count == self@.venvs.len(),
            stats.selected_count == self@.selected.len(),
            stats.total_size == saturated(total_bytes(self@.venvs)),
            stats.selected_size == saturated(
                total_bytes(chosen(self@.venvs, self@.selected, self@.venvs.len() as int)),
            ),
            exists|now: Timestamp|
                stats.old_count == #[trigger] old_count(self@.venvs, now, self@.venvs.len() as int)
                    && stats.recent_count == recent_count(
                    self@.venvs,
                    now,
                    self@.venvs.len() as int,
                ),
    {
        let now = Timestamp::now();
        let stats = self.get_summary_stats_at(&now);
        assert(stats.old_count == old_count(self@.venvs, now, self@.venvs.len() as int));
        stats
    }
}

impl Default for TuiApp {
    /// The state at the start, as [`TuiApp::new`] gives it.
    fn default() -> (app: TuiApp)
        ensures
            app.wf(),
            is_initial(app@),
    {
        TuiApp::new()
    }
}

} // verus!
