//! The search for environments and the decision to remove one, under the
//! settings of one run.

use vstd::prelude::*;
use crate::error::{VenvCleanerError, MISSING_DIRECTORY, NOT_A_DIRECTORY};
use crate::file_utils::{delete_verdict, DeletionProbe, FileUtils, IoFailure, PathStatus, Verdict};
use crate::scan::{failures_of, records, records_of, scan, search_indices};
use crate::timestamp::Timestamp;
use crate::venv_info::VenvInfo;
use crate::walk::{find_root_failure, root_failure, WalkItem};

verus! {

/// The words in front of the path in a dry-run notice.
pub const DRY_RUN_NOTICE: &'static str = "DRY RUN: Would delete: ";

/// The settings of a run, as plain values.
pub struct CleanerSettings {
    /// Where the search starts.
    pub base_directory: Seq<char>,
    /// Whether the search descends into subdirectories.
    pub recursive: bool,
    /// Whether removal goes ahead without asking.
    pub force_mode: bool,
    /// Whether removal is only simulated.
    pub dry_run: bool,
    /// How much is said: zero is quiet.
    pub verbosity: u8,
}

/// What is to be done about one environment that was asked to be removed.
#[derive(Debug)]
pub enum DeletionPlan {
    /// A dry run: nothing is touched, and the removal counts as done.
    Simulate,
    /// Remove the directory tree.
    Remove,
    /// Leave it, for the reason given.
    Refuse(VenvCleanerError),
}

/// The search and removal of environments under fixed settings.
#[derive(Debug)]
pub struct VenvCleaner {
    base_directory: String,
    recursive: bool,
    force_mode: bool,
    dry_run: bool,
    verbosity: u8,
}

impl View for VenvCleaner {
    type V = CleanerSettings;

    closed spec fn view(&self) -> CleanerSettings {
        CleanerSettings {
            base_directory: self.base_directory@,
            recursive: self.recursive,
            force_mode: self.force_mode,
            dry_run: self.dry_run,
            verbosity: self.verbosity,
        }
    }
}

/// True when `result` is what a search of `walk` owes at the instant `now`.
/// Where the directory that the walk started from could not be read, the
/// search has failed as a whole, and the result is an `Io` error with the
/// system's description. Otherwise it is the failure `NoVenvFound` when the
/// search came across no environment at all, and else the records of the
/// environments that could be examined, in the order of the walk.
pub open spec fn is_search_result(
    walk: Seq<WalkItem>,
    recursive: bool,
    now: Timestamp,
    result: Result<Vec<VenvInfo>, VenvCleanerError>,
) -> bool {
    let found = search_indices(walk, recursive);
    let matches = records_of(walk, found, now);
    let errors = failures_of(walk, found, now);
    match root_failure(walk) {
        Some(message) => result matches Err(e) && e.is_io(message),
        None => if matches.len() == 0 && errors == 0 {
            result matches Err(e) && e is NoVenvFound
        } else {
            result matches Ok(entries) && records(entries@) == matches
        },
    }
}

/// How many environments a search of `walk` met but could not examine. A
/// search that failed as a whole examined none.
pub open spec fn unexamined(walk: Seq<WalkItem>, recursive: bool, now: Timestamp) -> nat {
    if root_failure(walk) is Some {
        0
    } else {
        failures_of(walk, search_indices(walk, recursive), now)
    }
}

/// True when `plan` is what the settings and the observation call for: a
/// simulation in a dry run; otherwise removal where it is permitted, a
/// refusal for want of permission where it is not, and a refusal with the
/// failure where permission could not be told.
pub open spec fn is_plan_for(
    settings: CleanerSettings,
    path: Seq<char>,
    probe: DeletionProbe,
    plan: DeletionPlan,
) -> bool {
    if settings.dry_run {
        plan is Simulate
    } else {
        match delete_verdict(probe) {
            Verdict::Allowed => plan is Remove,
            Verdict::Denied => plan matches DeletionPlan::Refuse(e) && e.is_permission_denied(path),
            Verdict::Failed(message) => plan matches DeletionPlan::Refuse(e) && e.is_io(message),
        }
    }
}

impl VenvCleaner {
    /// Accepts the directory a search is to start from only if it is there
    /// and is a directory; `status` tells what was found at `path`. The
    /// check comes before any search.
    pub fn check_base_directory(path: &str, status: PathStatus) -> (r: Result<
        (),
        VenvCleanerError,
    >)
        ensures
            status == PathStatus::Directory <==> r is Ok,
            status == PathStatus::Missing ==> (r matches Err(e) && e.is_path_error(
                path@,
                MISSING_DIRECTORY@,
            )),
            status == PathStatus::NotDirectory ==> (r matches Err(e) && e.is_path_error(
                path@,
                NOT_A_DIRECTORY@,
            )),
    {
        match status {
            PathStatus::Missing => Err(VenvCleanerError::missing_directory(path)),
            PathStatus::NotDirectory => Err(VenvCleanerError::not_a_directory(path)),
            PathStatus::Directory => Ok(()),
        }
    }

    /// A cleaner with the given settings.
    pub fn new(
        base_directory: String,
        recursive: bool,
        force_mode: bool,
        dry_run: bool,
        verbosity: u8,
    ) -> (cleaner: VenvCleaner)
        ensures
            cleaner@ == (CleanerSettings {
                base_directory: base_directory@,
                recursive,
                force_mode,
                dry_run,
                verbosity,
            }),
    {
        VenvCleaner { base_directory, recursive, force_mode, dry_run, verbosity }
    }

    /// Finds the environments in the walk of the base directory, filling in
    /// `now` for times that the file system does not record.
    ///
    /// The search fails with `NoVenvFound` exactly when it neither found an
    /// environment nor failed to examine one. Environments that could not be
    /// examined are left out of the result.
    pub fn find_venv_directories_at(&self, walk: &Vec<WalkItem>, now: Timestamp) -> (r: Result<
        Vec<VenvInfo>,
        VenvCleanerError,
    >)
        ensures
            is_search_result(walk@, self@.recursive, now, r),
            r is Err <==> root_failure(walk@) is Some || search_indices(
                walk@,
                self@.recursive,
            ).len() == 0,
            !self@.recursive ==> (r matches Ok(entries) ==> entries.len() <= 1),
    {
        self.search_at(walk, now).0
    }

    /// Searches the walk of the base directory as
    /// [`Self::find_venv_directories_at`] does, and tells beside the result
    /// how many environments were met that could not be examined.
    pub fn search_at(&self, walk: &Vec<WalkItem>, now: Timestamp) -> (r: (
        Result<Vec<VenvInfo>, VenvCleanerError>,
        usize,
    ))
        ensures
            is_search_result(walk@, self@.recursive, now, r.0),
            r.1 == unexamined(walk@, self@.recursive, now),
            r.0 is Err <==> root_failure(walk@) is Some || search_indices(
                walk@,
                self@.recursive,
            ).len() == 0,
            !self@.recursive ==> (r.0 matches Ok(entries) ==> entries.len() <= 1),
    {
        match find_root_failure(walk) {
            Some(message) => (Err(VenvCleanerError::Io(message)), 0),
            None => {
                let report = scan(walk, self.recursive, now);
                if report.entries.len() == 0 && report.errors == 0 {
                    (Err(VenvCleanerError::NoVenvFound), 0)
                } else {
                    (Ok(report.entries), report.errors)
                }
            },
        }
    }

    /// Whether the user is warned that `failures` environments could not be
    /// examined: when there are any, and the run is not quiet.
    pub fn warns_of_failures(&self, failures: usize) -> (warn: bool)
        ensures
            warn == (failures > 0 && self@.verbosity > 0),
    {
        failures > 0 && self.verbosity > 0
    }

    /// Finds the environments in the walk of the base directory. Times that
    /// the file system does not record are taken from the system clock.
    pub fn find_venv_directories(&self, walk: &Vec<WalkItem>) -> (r: Result<
        Vec<VenvInfo>,
        VenvCleanerError,
    >)
        ensures
            exists|now: Timestamp| #[trigger] is_search_result(walk@, self@.recursive, now, r),
            r is Err <==> root_failure(walk@) is Some || search_indices(
                walk@,
                self@.recursive,
            ).len() == 0,
            root_failure(walk@) matches Some(message) ==> (r matches Err(e) && e.is_io(message)),
    {
        let now = Timestamp::now();
        let r = self.find_venv_directories_at(walk, now);
        assert(is_search_result(walk@, self@.recursive, now, r));
        r
    }

    /// Decides what to do about the environment `venv_info`, given what was
    /// observed of its directory. In a dry run the observation is not looked
    /// at and nothing is to be removed.
    pub fn delete_venv_directory(&self, venv_info: &VenvInfo, probe: &DeletionProbe) -> (plan:
        DeletionPlan)
        ensures
            is_plan_for(self@, venv_info@.path, *probe, plan),
    {
        if self.dry_run {
            return DeletionPlan::Simulate;
        }
        match FileUtils::can_delete_directory(probe) {
            Ok(allowed) => {
                if allowed {
                    DeletionPlan::Remove
                } else {
                    DeletionPlan::Refuse(
                        VenvCleanerError::PermissionDenied {
                            path: String::from_str(venv_info.path()),
                        },
                    )
                }
            },
            Err(e) => DeletionPlan::Refuse(e),
        }
    }

    /// The notice printed for an environment in a dry run.
    pub fn dry_run_notice(venv_info: &VenvInfo) -> (text: String)
        ensures
            text@ == DRY_RUN_NOTICE@ + venv_info@.path,
    {
        String::from_str(DRY_RUN_NOTICE).concat(venv_info.path())
    }

    /// The outcome of a removal that was carried out: success, or the
    /// system's failure as an `Io` error.
    pub fn removal_outcome(removal: Result<(), IoFailure>) -> (r: Result<(), VenvCleanerError>)
        ensures
            removal is Ok ==> r is Ok,
            removal matches Err(failure) ==> (r matches Err(e) && e.is_io(failure.message@)),
    {
        match removal {
            Ok(_) => Ok(()),
            Err(failure) => Err(VenvCleanerError::Io(failure.message)),
        }
    }

    /// Where the search starts.
    pub fn base_directory(&self) -> (path: &str)
        ensures
            path@ == self@.base_directory,
    {
        self.base_directory.as_str()
    }

    /// Whether the search descends into subdirectories.
    pub fn is_recursive(&self) -> (r: bool)
        ensures
            r == self@.recursive,
    {
        self.recursive
    }

    /// Whether removal goes ahead without asking.
    pub fn is_force_mode(&self) -> (r: bool)
        ensures
            r == self@.force_mode,
    {
        self.force_mode
    }

    /// Whether removal is only simulated.
    pub fn is_dry_run(&self) -> (r: bool)
        ensures
            r == self@.dry_run,
    {
        self.dry_run
    }

    /// How much is said: zero is quiet.
    pub fn verbosity(&self) -> (level: u8)
        ensures
            level == self@.verbosity,
    {
        self.verbosity
    }
}

/// Where the directory that the walk started from could be read, a search
/// fails with `NoVenvFound` exactly when it found no environment and failed
/// to examine none; as soon as it met a single environment, examined or not,
/// it succeeds with those that could be examined.
pub proof fn law_not_found_means_nothing_met(
    walk: Seq<WalkItem>,
    recursive: bool,
    now: Timestamp,
    result: Result<Vec<VenvInfo>, VenvCleanerError>,
)
    requires
        root_failure(walk) is None,
        is_search_result(walk, recursive, now, result),
    ensures
        result is Err <==> records_of(walk, search_indices(walk, recursive), now).len() == 0
            && failures_of(walk, search_indices(walk, recursive), now) == 0,
        result is Err <==> search_indices(walk, recursive).len() == 0,
        result matches Err(e) ==> e is NoVenvFound,
        result matches Ok(entries) ==> entries.len() + failures_of(
            walk,
            search_indices(walk, recursive),
            now,
        ) == search_indices(walk, recursive).len(),
{
    crate::scan::lemma_records_and_failures(walk, search_indices(walk, recursive), now);
}

/// Where the directory that the walk started from could not be read, the
/// search fails with an `Io` error that carries the system's description,
/// whatever else the walk reports: never with `NoVenvFound`, and never with
/// a list.
pub proof fn law_unreadable_root_is_fatal(
    walk: Seq<WalkItem>,
    recursive: bool,
    now: Timestamp,
    result: Result<Vec<VenvInfo>, VenvCleanerError>,
)
    requires
        is_search_result(walk, recursive, now, result),
        exists|i: int| 0 <= i < walk.len() && crate::walk::is_root_failure(#[trigger] walk[i]),
    ensures
        root_failure(walk) matches Some(message) && result matches Err(e) && e.is_io(message),
        result matches Err(e) && e is Io,
        !(result is Ok),
{
    crate::walk::lemma_first_root_failure(walk, 0);
}

/// In a dry run nothing is ever planned for removal, whatever was observed
/// of the directory.
pub proof fn law_dry_run_plans_no_removal(
    settings: CleanerSettings,
    path: Seq<char>,
    probe: DeletionProbe,
    plan: DeletionPlan,
)
    requires
        settings.dry_run,
        is_plan_for(settings, path, probe, plan),
    ensures
        plan is Simulate,
        !(plan is Remove),
{
}

/// Outside a dry run a removal is planned only for a directory that is
/// there, whose parent, if it has one, can be written to, and that can be
/// listed.
pub proof fn law_removal_needs_permission(
    settings: CleanerSettings,
    path: Seq<char>,
    probe: DeletionProbe,
    plan: DeletionPlan,
)
    requires
        !settings.dry_run,
        is_plan_for(settings, path, probe, plan),
        plan is Remove,
    ensures
        probe.exists,
        probe.listing is Ok,
        probe.parent_mode matches Some(stat) ==> stat matches Ok(mode) && (mode
            & crate::file_utils::OWNER_WRITE) != 0,
{
}

} // verus!
