//! The command-line front end: what a run is to do, what a query reports,
//! and how a clean-up is tallied.

use vstd::prelude::*;
use crate::cleaner::{CleanerSettings, VenvCleaner};
use crate::error::{VenvCleanerError, MISSING_DIRECTORY, NOT_A_DIRECTORY};
use crate::file_utils::{IoFailure, PathStatus};
use crate::outcome::{total_bytes, total_size};
use crate::shorten::{format_path_for_display, shortened};
use crate::size_text::{format_size, size_text};
use crate::sort_key::SortBy;
use crate::sorting::{sort_entries, stable_sorted};
use crate::text_search;
use crate::text_search::{lowercase_of, trimmed_of};
use crate::timestamp::Timestamp;
use crate::tui_app::old_count;
use crate::venv_info::VenvInfo;
use crate::walk::saturated;

verus! {

/// Environments above this size are pointed out as taking much room.
pub const LARGE_SIZE: u64 = 524_288_000;

/// The width of the location column of a query.
pub const LOCATION_WIDTH: usize = 58;

/// The front end a run uses.
#[derive(Debug, Clone, Copy, PartialEq, Eq, Structural)]
pub enum AppMode {
    /// The command line.
    Cli,
    /// The terminal interface.
    Tui,
    /// The graphical interface.
    Gui,
}

/// The front end that the options ask for: the terminal interface if it is
/// asked for, else the graphical one if that is, else the command line.
pub open spec fn mode_for(tui: bool, gui: bool) -> AppMode {
    if tui {
        AppMode::Tui
    } else if gui {
        AppMode::Gui
    } else {
        AppMode::Cli
    }
}

/// The front end that the options ask for.
pub fn determine_mode(tui: bool, gui: bool) -> (mode: AppMode)
    ensures
        mode == mode_for(tui, gui),
{
    if tui {
        AppMode::Tui
    } else if gui {
        AppMode::Gui
    } else {
        AppMode::Cli
    }
}

/// The code the process ends with: zero after a run that came to its end or
/// that the user called off, one after any failure.
pub open spec fn exit_code_for(outcome: Result<(), VenvCleanerError>) -> i32 {
    match outcome {
        Ok(_) => 0,
        Err(e) => if e is OperationCancelled {
            0
        } else {
            1
        },
    }
}

/// The code the process ends with.
pub fn exit_code(outcome: &Result<(), VenvCleanerError>) -> (code: i32)
    ensures
        code == exit_code_for(*outcome),
{
    match outcome {
        Ok(_) => 0,
        Err(e) => match e {
            VenvCleanerError::OperationCancelled => 0,
            _ => 1,
        },
    }
}

/// Whether the terminal interface searches recursively: it does unless it is
/// told not to.
pub fn tui_searches_recursively(no_recursive: bool) -> (recursive: bool)
    ensures
        recursive == !no_recursive,
{
    !no_recursive
}

/// The options of a command-line run.
#[derive(Debug, Clone)]
pub struct CliArgs {
    /// The directory to search, if one was named.
    pub directory: Option<String>,
    /// Whether to descend into subdirectories.
    pub recursive: bool,
    /// Whether to remove without asking.
    pub force: bool,
    /// Whether to simulate only.
    pub dry_run: bool,
    /// Whether to list the environments instead of removing them.
    pub query: bool,
    /// How often verbosity was asked for.
    pub verbose: u8,
}

/// What a [`CliMode`] holds, as plain values.
pub struct CliModeView {
    /// The settings of search and removal.
    pub settings: CleanerSettings,
    /// Whether the run lists instead of removing.
    pub query_mode: bool,
    /// Whether progress is shown during the search.
    pub show_progress: bool,
}

/// What a query found out about a list of environments.
#[derive(Debug)]
pub struct QueryReport {
    /// The environments, largest first.
    pub sorted: Vec<VenvInfo>,
    /// Their combined size, held to `u64::MAX`.
    pub total_size: u64,
    /// How many there are.
    pub total_count: usize,
    /// How many count as old.
    pub old_count: usize,
    /// How many are larger than [`LARGE_SIZE`].
    pub large_count: usize,
}

/// The tally of a clean-up.
#[derive(Debug)]
pub struct CleanupTally {
    /// How many environments were removed.
    pub deleted_count: usize,
    /// The bytes that their removal freed, held to `u64::MAX`.
    pub total_freed: u64,
    /// The environments that could not be dealt with, by path, and why.
    pub errors: Vec<(String, VenvCleanerError)>,
}

/// How many of the first `n` environments are larger than [`LARGE_SIZE`].
pub open spec fn large_count(venvs: Seq<VenvInfo>, n: int) -> nat
    decreases n,
{
    if n <= 0 {
        0
    } else {
        large_count(venvs, n - 1) + if venvs[n - 1]@.size_bytes > LARGE_SIZE {
            1nat
        } else {
            0nat
        }
    }
}

/// What came of one environment in a clean-up: removed (`true`), skipped
/// (`false`), or failed.
pub type CleanupStep = (VenvInfo, Result<bool, VenvCleanerError>);

/// How many of the first `n` steps removed their environment.
pub open spec fn removed_in(steps: Seq<CleanupStep>, n: int) -> nat
    decreases n,
{
    if n <= 0 {
        0
    } else {
        removed_in(steps, n - 1) + if steps[n - 1].1 == Ok::<bool, VenvCleanerError>(true) {
            1nat
        } else {
            0nat
        }
    }
}

/// The bytes that the first `n` steps freed: the sizes of the environments
/// that were removed.
pub open spec fn freed_in(steps: Seq<CleanupStep>, n: int) -> nat
    decreases n,
{
    if n <= 0 {
        0
    } else {
        freed_in(steps, n - 1) + if steps[n - 1].1 == Ok::<bool, VenvCleanerError>(true) {
            steps[n - 1].0@.size_bytes as nat
        } else {
            0nat
        }
    }
}

/// The failures among the first `n` steps, each with the path of its
/// environment, in the order of the steps.
pub open spec fn failures_in(steps: Seq<CleanupStep>, n: int) -> Seq<(Seq<char>, VenvCleanerError)>
    decreases n,
{
    if n <= 0 {
        Seq::empty()
    } else {
        match steps[n - 1].1 {
            Err(e) => failures_in(steps, n - 1).push((steps[n - 1].0@.path, e)),
            Ok(_) => failures_in(steps, n - 1),
        }
    }
}

/// The failures that a tally has noted, with the paths as text.
pub open spec fn noted(errors: Seq<(String, VenvCleanerError)>) -> Seq<(Seq<char>, VenvCleanerError)> {
    errors.map_values(|pair: (String, VenvCleanerError)| (pair.0@, pair.1))
}

/// True of an answer that means yes: `y` or `yes`, in any case, with white
/// space around it or not.
pub open spec fn means_yes(answer: Seq<char>) -> bool {
    lowercase_of(trimmed_of(answer)) == "y"@ || lowercase_of(trimmed_of(answer)) == "yes"@
}

/// The command-line front end of one run.
#[derive(Debug)]
pub struct CliMode {
    cleaner: VenvCleaner,
    query_mode: bool,
    show_progress: bool,
}

impl View for CliMode {
    type V = CliModeView;

    closed spec fn view(&self) -> CliModeView {
        CliModeView {
            settings: self.cleaner@,
            query_mode: self.query_mode,
            show_progress: self.show_progress,
        }
    }
}

impl CliArgs {
    /// The directory that the run searches: the one named, or else the
    /// current directory. A current directory that cannot be told is an
    /// error when none was named.
    pub fn base_directory(&self, current_dir: Result<String, IoFailure>) -> (r: Result<
        String,
        VenvCleanerError,
    >)
        ensures
            self.directory matches Some(named) ==> (r matches Ok(path) && path@ == named@),
            self.directory is None ==> match current_dir {
                Ok(cwd) => r matches Ok(path) && path@ == cwd@,
                Err(failure) => r matches Err(e) && e.is_io(failure.message@),
            },
    {
        match &self.directory {
            Some(named) => Ok(named.clone()),
            None => match current_dir {
                Ok(cwd) => Ok(cwd),
                Err(failure) => Err(VenvCleanerError::Io(failure.message)),
            },
        }
    }
}

impl CliMode {
    /// The front end for the options `args` and the directory
    /// `base_directory`, of which `status` tells what was found there. A
    /// directory that is missing or is no directory is refused before
    /// anything is searched. Progress is shown unless verbosity was asked
    /// for.
    pub fn new(args: &CliArgs, base_directory: String, status: PathStatus) -> (r: Result<
        CliMode,
        VenvCleanerError,
    >)
        ensures
            status == PathStatus::Missing ==> (r matches Err(e) && e.is_path_error(
                base_directory@,
                MISSING_DIRECTORY@,
            )),
            status == PathStatus::NotDirectory ==> (r matches Err(e) && e.is_path_error(
                base_directory@,
                NOT_A_DIRECTORY@,
            )),
            status == PathStatus::Directory ==> (r matches Ok(mode) && mode@ == (CliModeView {
                settings: CleanerSettings {
                    base_directory: base_directory@,
                    recursive: args.recursive,
                    force_mode: args.force,
                    dry_run: args.dry_run,
                    verbosity: args.verbose,
                },
                query_mode: args.query,
                show_progress: args.verbose == 0,
            })),
    {
        match VenvCleaner::check_base_directory(base_directory.as_str(), status) {
            Err(e) => Err(e),
            Ok(_) => {
                let cleaner = VenvCleaner::new(
                    base_directory,
                    args.recursive,
                    args.force,
                    args.dry_run,
                    args.verbose,
                );
                Ok(CliMode { cleaner, query_mode: args.query, show_progress: args.verbose == 0 })
            },
        }
    }

    /// What the command line makes of the outcome of a search. That nothing
    /// was found is told to the user but is no failure: the run goes on with
    /// an empty list. Every other failure ends the run.
    pub fn search_outcome(result: Result<Vec<VenvInfo>, VenvCleanerError>) -> (r: Result<
        Vec<VenvInfo>,
        VenvCleanerError,
    >)
        ensures
            result matches Ok(found) ==> r == Ok::<Vec<VenvInfo>, VenvCleanerError>(found),
            result matches Err(e) ==> if e is NoVenvFound {
                r matches Ok(found) && found@.len() == 0
            } else {
                r == Err::<Vec<VenvInfo>, VenvCleanerError>(e)
            },
    {
        match result {
            Ok(found) => Ok(found),
            Err(e) => match e {
                VenvCleanerError::NoVenvFound => Ok(Vec::new()),
                other => Err(other),
            },
        }
    }

    /// The settings of search and removal.
    pub fn cleaner(&self) -> (cleaner: &VenvCleaner)
        ensures
            cleaner@ == self@.settings,
    {
        &self.cleaner
    }

    /// Whether the run lists the environments instead of removing them.
    pub fn is_query_mode(&self) -> (r: bool)
        ensures
            r == self@.query_mode,
    {
        self.query_mode
    }

    /// Whether progress is shown during the search.
    pub fn shows_progress(&self) -> (r: bool)
        ensures
            r == self@.show_progress,
    {
        self.show_progress
    }

    /// What a query reports about `venvs` at the instant `now`: the
    /// environments with the largest first, their number and combined size,
    /// and how many are old or large.
    pub fn query_report(&self, venvs: &Vec<VenvInfo>, now: &Timestamp) -> (report: QueryReport)
        ensures
            report.sorted@ == stable_sorted(venvs@, SortBy::Size, false),
            report.total_size == saturated(total_bytes(venvs@)),
            report.total_count == venvs.len(),
            report.old_count == old_count(venvs@, *now, venvs.len() as int),
            report.large_count == large_count(venvs@, venvs.len() as int),
    {
        let mut sorted: Vec<VenvInfo> = Vec::new();
        let mut old: usize = 0;
        let mut large: usize = 0;
        let mut i: usize = 0;
        while i < venvs.len()
            invariant
                i <= venvs.len(),
                sorted@ == venvs@.take(i as int),
                old == old_count(venvs@, *now, i as int),
                large == large_count(venvs@, i as int),
                old <= i,
                large <= i,
            decreases venvs.len() - i,
        {
            sorted.push(venvs[i].clone());
            assert(sorted@ =~= venvs@.take(i + 1));
            if venvs[i].is_old_at(now) {
                old = old + 1;
            }
            if venvs[i].size_bytes() > LARGE_SIZE {
                large = large + 1;
            }
            i = i + 1;
        }
        assert(sorted@ =~= venvs@);
        sort_entries(&mut sorted, SortBy::Size, false);
        QueryReport {
            sorted,
            total_size: total_size(venvs),
            total_count: venvs.len(),
            old_count: old,
            large_count: large,
        }
    }

    /// Whether the user is asked before an environment is removed: always,
    /// unless removal is forced.
    pub fn asks_before_deleting(&self) -> (r: bool)
        ensures
            r == !self@.settings.force_mode,
    {
        !self.cleaner.is_force_mode()
    }

    /// Whether an answer that has been trimmed and brought to lower case
    /// means yes.
    pub fn is_yes(normalized: &str) -> (r: bool)
        ensures
            r == (normalized@ == "y"@ || normalized@ == "yes"@),
    {
        let answer = String::from_str(normalized);
        answer == String::from_str("y") || answer == String::from_str("yes")
    }

    /// Whether the user's answer to the question of removal means yes.
    pub fn confirms_deletion(answer: &str) -> (r: bool)
        ensures
            r == means_yes(answer@),
    {
        let normalized = text_search::to_lowercase(text_search::trim(answer));
        CliMode::is_yes(normalized.as_str())
    }

    /// Whether the summary of a clean-up ends on a note of success: when
    /// something was removed, and not just in simulation.
    pub fn cleanup_succeeded(&self, deleted_count: usize) -> (celebrate: bool)
        ensures
            celebrate == (deleted_count > 0 && !self@.settings.dry_run),
    {
        deleted_count > 0 && !self.cleaner.is_dry_run()
    }

    /// Fits a location into a column of `max_width` characters, keeping its
    /// end.
    pub fn format_location_for_display(location: &str, max_width: usize) -> (text: String)
        ensures
            text@ == shortened(location@, max_width as nat),
            max_width >= 3 ==> text@.len() <= max_width,
    {
        format_path_for_display(location, max_width)
    }

    /// A size in bytes as short text.
    pub fn format_size(bytes: u64) -> (text: String)
        ensures
            text@ == size_text(bytes),
    {
        format_size(bytes)
    }
}

impl QueryReport {
    /// Whether the report gives reason for advice at all: when some
    /// environments are old or large.
    pub fn has_recommendations(&self) -> (r: bool)
        ensures
            r == (self.old_count > 0 || self.large_count > 0),
    {
        self.old_count > 0 || self.large_count > 0
    }

    /// Whether the report closes with the advice to clean up: when there are
    /// old environments.
    pub fn advises_cleanup(&self) -> (advise: bool)
        ensures
            advise == (self.old_count > 0),
    {
        self.old_count > 0
    }
}

impl CleanupTally {
    /// An empty tally.
    pub fn new() -> (tally: CleanupTally)
        ensures
            tally.deleted_count == 0,
            tally.total_freed == 0,
            tally.errors@ == Seq::<(String, VenvCleanerError)>::empty(),
    {
        CleanupTally { deleted_count: 0, total_freed: 0, errors: Vec::new() }
    }

    /// The tally of a whole clean-up: how many environments were removed,
    /// what their removal freed, and which steps failed. Skipped
    /// environments and failures free nothing.
    pub fn tally(steps: Vec<CleanupStep>) -> (tally: CleanupTally)
        ensures
            tally.deleted_count == removed_in(steps@, steps.len() as int),
            tally.total_freed == saturated(freed_in(steps@, steps.len() as int)),
            noted(tally.errors@) == failures_in(steps@, steps.len() as int),
    {
        let mut steps = steps;
        let ghost all = steps@;
        let total: usize = steps.len();
        let mut tally = CleanupTally::new();
        let ghost mut done: int = 0;
        assert(noted(tally.errors@) =~= failures_in(all, 0));
        while steps.len() > 0
            invariant
                0 <= done <= all.len(),
                all.len() == total,
                done + steps@.len() == all.len(),
                steps@ == all.skip(done),
                tally.deleted_count == removed_in(all, done),
                tally.deleted_count <= done,
                tally.total_freed == saturated(freed_in(all, done)),
                noted(tally.errors@) == failures_in(all, done),
            decreases steps.len(),
        {
            let ghost before = tally.errors@;
            let step = steps.remove(0);
            assert(step == all[done]);
            assert(steps@ =~= all.skip(done + 1));
            let venv = step.0;
            let outcome = step.1;
            let ghost given = outcome;
            tally.record(&venv, outcome);
            proof {
                assert(venv == all[done].0 && given == all[done].1);
                match given {
                    Ok(removed) => {
                        if removed {
                            assert(given == Ok::<bool, VenvCleanerError>(true));
                        } else {
                            assert(given == Ok::<bool, VenvCleanerError>(false));
                        }
                    },
                    Err(_) => {},
                }
                if all[done].1 is Err {
                    assert(tally.errors@.drop_last() == before);
                    assert(noted(tally.errors@) =~= noted(before).push(
                        (all[done].0@.path, all[done].1->Err_0),
                    ));
                } else {
                    assert(tally.errors@ == before);
                }
                done = done + 1;
            }
        }
        tally
    }

    /// Adds what came of one environment to the tally: a removal counts and
    /// frees the environment's size, a skip changes nothing, and a failure
    /// is noted under the environment's path.
    pub fn record(&mut self, venv: &VenvInfo, outcome: Result<bool, VenvCleanerError>)
        ensures
            outcome == Ok::<bool, VenvCleanerError>(true) ==> {
                &&& final(self).deleted_count == if old(self).deleted_count < usize::MAX {
                    old(self).deleted_count + 1
                } else {
                    usize::MAX as int
                }
                &&& final(self).total_freed == saturated(
                    (old(self).total_freed + venv@.size_bytes) as nat,
                )
                &&& final(self).errors@ == old(self).errors@
            },
            outcome == Ok::<bool, VenvCleanerError>(false) ==> *final(self) == *old(self),
            outcome matches Err(e) ==> {
                &&& final(self).deleted_count == old(self).deleted_count
                &&& final(self).total_freed == old(self).total_freed
                &&& final(self).errors@.len() == old(self).errors@.len() + 1
                &&& final(self).errors@.drop_last() == old(self).errors@
                &&& final(self).errors@.last().0@ == venv@.path
                &&& final(self).errors@.last().1 == e
            },
    {
        match outcome {
            Ok(deleted) => {
                if deleted {
                    if self.deleted_count < usize::MAX {
                        self.deleted_count = self.deleted_count + 1;
                    }
                    self.total_freed = self.total_freed.saturating_add(venv.size_bytes());
                }
            },
            Err(e) => {
                self.errors.push((String::from_str(venv.path()), e));
                assert(self.errors@.drop_last() =~= old(self).errors@);
            },
        }
    }
}

/// Where every environment of a clean-up is removed, as in a dry run in
/// which every removal is confirmed, the tally counts every one and frees
/// the combined size of all; nothing fails.
pub proof fn law_full_cleanup_frees_everything(steps: Seq<CleanupStep>, n: int)
    requires
        0 <= n <= steps.len(),
        forall|k: int| 0 <= k < n ==> (#[trigger] steps[k]).1 == Ok::<bool, VenvCleanerError>(true),
    ensures
        removed_in(steps, n) == n,
        freed_in(steps, n) == total_bytes(steps.map_values(|s: CleanupStep| s.0).take(n)),
        failures_in(steps, n) == Seq::<(Seq<char>, VenvCleanerError)>::empty(),
    decreases n,
{
    let entries = steps.map_values(|s: CleanupStep| s.0);
    if n > 0 {
        law_full_cleanup_frees_everything(steps, n - 1);
        assert(entries.take(n).drop_last() =~= entries.take(n - 1));
        assert(entries.take(n).last() == steps[n - 1].0);
    } else {
        assert(entries.take(0) =~= Seq::<VenvInfo>::empty());
    }
}

/// A clean-up never frees more than its environments hold, and what was
/// skipped or failed frees nothing.
pub proof fn law_cleanup_is_bounded(steps: Seq<CleanupStep>, n: int)
    requires
        0 <= n <= steps.len(),
    ensures
        removed_in(steps, n) + failures_in(steps, n).len() <= n,
        freed_in(steps, n) <= total_bytes(steps.map_values(|s: CleanupStep| s.0).take(n)),
    decreases n,
{
    let entries = steps.map_values(|s: CleanupStep| s.0);
    if n > 0 {
        law_cleanup_is_bounded(steps, n - 1);
        assert(entries.take(n).drop_last() =~= entries.take(n - 1));
        assert(entries.take(n).last() == steps[n - 1].0);
    } else {
        assert(entries.take(0) =~= Seq::<VenvInfo>::empty());
    }
}

} // verus!
