//! Questions about directories, answered from what was observed of them.
//!
//! Nothing here touches the file system. The caller looks, and hands over what
//! it saw: whether a path exists, what a walk reported, which permission bits
//! a directory carries, whether a listing succeeded.

use vstd::prelude::*;
use crate::error::{VenvCleanerError, MISSING_DIRECTORY, NOT_A_DIRECTORY};
use crate::path_text;
use crate::path_text::{components_of, file_name_of, joined, texts_of};
use crate::shorten::{format_path_for_display, shortened};
use crate::walk::{file_bytes, measure_all, saturated, EntryKind, WalkItem, MARKER};

verus! {

/// The owner's write permission among the mode bits of a directory.
pub const OWNER_WRITE: u32 = 0o200;

/// What stands in front of a path that was shortened to its last components.
pub const SHORTENED_PREFIX: &'static str = ".../";

/// What was found at a path.
#[derive(Debug, Clone, Copy, PartialEq, Eq, Structural)]
pub enum PathStatus {
    /// Nothing is there.
    Missing,
    /// Something is there, but it is not a directory.
    NotDirectory,
    /// A directory.
    Directory,
}

/// An input/output failure as far as the decisions here depend on it.
#[derive(Debug, Clone)]
pub struct IoFailure {
    /// True when the system refused for want of permission.
    pub permission_denied: bool,
    /// The system's description of the failure.
    pub message: String,
}

/// What was observed of a directory that is to be removed.
#[derive(Debug)]
pub struct DeletionProbe {
    /// Whether the directory is still there.
    pub exists: bool,
    /// The mode bits of the directory that holds it, or why they could not be
    /// read; `None` when the path has no parent.
    pub parent_mode: Option<Result<u32, IoFailure>>,
    /// Whether the directory itself could be listed.
    pub listing: Result<(), IoFailure>,
}

/// What an observation says about a permission: yes, no, or a failure with
/// its description.
pub enum Verdict {
    /// Permitted.
    Allowed,
    /// Not permitted.
    Denied,
    /// Could not be told; the system's description of why.
    Failed(Seq<char>),
}

/// What the mode bits of a directory, or the failure to read them, say about
/// writing to it. A failure for want of permission means no; any other
/// failure is passed on.
pub open spec fn write_verdict(stat: Result<u32, IoFailure>) -> Verdict {
    match stat {
        Ok(mode) => if (mode & OWNER_WRITE) != 0 {
            Verdict::Allowed
        } else {
            Verdict::Denied
        },
        Err(failure) => if failure.permission_denied {
            Verdict::Denied
        } else {
            Verdict::Failed(failure.message@)
        },
    }
}

/// What the attempt to list a directory says about reading it. A failure for
/// want of permission means no; any other failure is passed on.
pub open spec fn listing_verdict(listing: Result<(), IoFailure>) -> Verdict {
    match listing {
        Ok(_) => Verdict::Allowed,
        Err(failure) => if failure.permission_denied {
            Verdict::Denied
        } else {
            Verdict::Failed(failure.message@)
        },
    }
}

/// Whether the directory observed by `probe` may be removed. A directory
/// that is gone may not, and nothing else is looked at. Otherwise the
/// directory that holds it has to be writable and the directory itself has
/// to be listable: want of permission in either means no, and any other
/// failure to find out is passed on, that of the parent first.
pub open spec fn delete_verdict(probe: DeletionProbe) -> Verdict {
    if !probe.exists {
        Verdict::Denied
    } else {
        match probe.parent_mode {
            Some(stat) => match write_verdict(stat) {
                Verdict::Allowed => listing_verdict(probe.listing),
                other => other,
            },
            None => listing_verdict(probe.listing),
        }
    }
}

/// True when `result` says what `verdict` says.
pub open spec fn agrees(result: Result<bool, VenvCleanerError>, verdict: Verdict) -> bool {
    match verdict {
        Verdict::Allowed => result == Ok::<bool, VenvCleanerError>(true),
        Verdict::Denied => result == Ok::<bool, VenvCleanerError>(false),
        Verdict::Failed(message) => result matches Err(e) && e.is_io(message),
    }
}

/// The number of regular files in the first `n` reports of a walk.
pub open spec fn file_count(items: Seq<WalkItem>, n: int) -> nat
    decreases n,
{
    if n <= 0 {
        0
    } else {
        file_count(items, n - 1) + if items[n - 1] matches WalkItem::Entry(entry) && entry.kind
            == EntryKind::File {
            1nat
        } else {
            0nat
        }
    }
}

/// The number of directories in the first `n` reports of a walk, not counting
/// the directory the walk started from.
pub open spec fn directory_count(items: Seq<WalkItem>, n: int) -> nat
    decreases n,
{
    if n <= 0 {
        0
    } else {
        directory_count(items, n - 1) + if items[n - 1] matches WalkItem::Entry(entry)
            && entry.kind == EntryKind::Directory && entry.depth > 0 {
            1nat
        } else {
            0nat
        }
    }
}

/// One if `names` holds `name`, zero otherwise.
pub open spec fn present(names: Seq<Seq<char>>, name: Seq<char>) -> nat {
    if names.contains(name) {
        1
    } else {
        0
    }
}

/// How many of the five things usually found in an environment are among
/// `names`.
pub open spec fn usual_contents(names: Seq<Seq<char>>) -> nat {
    present(names, "bin"@) + present(names, "Scripts"@) + present(names, "lib"@) + present(
        names,
        "include"@,
    ) + present(names, "pyvenv.cfg"@)
}

/// The path made of the last `count` of `components`.
pub open spec fn tail_path(components: Seq<Seq<char>>, count: nat) -> Seq<char>
    decreases count,
{
    if count == 0 {
        Seq::empty()
    } else {
        joined(components[components.len() - count], tail_path(components, (count - 1) as nat))
    }
}

/// True when the last `count` components fit a column of `max` characters
/// behind the prefix.
pub open spec fn tail_fits(components: Seq<Seq<char>>, max: nat, count: nat) -> bool {
    SHORTENED_PREFIX@.len() + tail_path(components, count).len() <= max
}

/// With the last `tried` components known to fit: how many fit before the
/// first count that does not.
pub open spec fn fit_count(components: Seq<Seq<char>>, max: nat, tried: nat) -> nat
    decreases components.len() - tried,
{
    if tried >= components.len() {
        tried
    } else if tail_fits(components, max, tried + 1) {
        fit_count(components, max, tried + 1)
    } else {
        tried
    }
}

/// `path` as shown in a column of `max` characters. A path that fits, or has
/// at most two components, is shown whole. A longer one is shown as the
/// prefix and as many of its last components as fit; when not even the last
/// fits, as an ellipsis and the end of its text.
pub open spec fn display_path(path: Seq<char>, max: nat) -> Seq<char> {
    let components = components_of(path);
    if path.len() <= max || components.len() <= 2 {
        path
    } else if fit_count(components, max, 0) == 0 {
        shortened(path, max)
    } else {
        SHORTENED_PREFIX@ + tail_path(components, fit_count(components, max, 0))
    }
}

/// True when one of `names` is `name`.
fn holds_name(names: &Vec<String>, name: &str) -> (r: bool)
    ensures
        r == texts_of(names@).contains(name@),
{
    let target = String::from_str(name);
    let mut i: usize = 0;
    while i < names.len()
        invariant
            i <= names.len(),
            target@ == name@,
            forall|k: int| 0 <= k < i ==> texts_of(names@)[k] != name@,
        decreases names.len() - i,
    {
        if names[i] == target {
            assert(texts_of(names@)[i as int] == name@);
            return true;
        }
        i = i + 1;
    }
    false
}

/// Helpers for questions about files and directories.
pub struct FileUtils;

impl FileUtils {
    /// The total size of the regular files that the walk of a directory
    /// reported.
    ///
    /// `status` tells what was found at `path`; `walk` is the walk of the
    /// directory. A path that is missing or no directory is an error. The
    /// sum stops growing at `u64::MAX`; files whose size could not be read add
    /// nothing.
    pub fn calculate_directory_size(path: &str, status: PathStatus, walk: &Vec<WalkItem>) -> (r:
        Result<u64, VenvCleanerError>)
        ensures
            status == PathStatus::Missing ==> (r matches Err(e) && e.is_path_error(
                path@,
                MISSING_DIRECTORY@,
            )),
            status == PathStatus::NotDirectory ==> (r matches Err(e) && e.is_path_error(
                path@,
                NOT_A_DIRECTORY@,
            )),
            status == PathStatus::Directory ==> r == Ok::<u64, VenvCleanerError>(
                saturated(file_bytes(walk@, 0, walk.len() as int)),
            ),
    {
        match status {
            PathStatus::Missing => Err(VenvCleanerError::missing_directory(path)),
            PathStatus::NotDirectory => Err(VenvCleanerError::not_a_directory(path)),
            PathStatus::Directory => Ok(measure_all(walk).total_size),
        }
    }

    /// Whether a directory may be written to, judged by its mode bits or by
    /// the failure to read them.
    pub fn check_write_permission(stat: &Result<u32, IoFailure>) -> (r: Result<
        bool,
        VenvCleanerError,
    >)
        ensures
            agrees(r, write_verdict(*stat)),
    {
        match stat {
            Ok(mode) => Ok((*mode & OWNER_WRITE) != 0),
            Err(failure) => {
                if failure.permission_denied {
                    Ok(false)
                } else {
                    Err(VenvCleanerError::Io(failure.message.clone()))
                }
            },
        }
    }

    /// Whether the directory observed by `probe` may be removed.
    pub fn can_delete_directory(probe: &DeletionProbe) -> (r: Result<bool, VenvCleanerError>)
        ensures
            agrees(r, delete_verdict(*probe)),
    {
        if !probe.exists {
            return Ok(false);
        }
        match &probe.parent_mode {
            Some(stat) => {
                match FileUtils::check_write_permission(stat) {
                    Ok(can_write) => {
                        if !can_write {
                            return Ok(false);
                        }
                    },
                    Err(e) => {
                        return Err(e);
                    },
                }
            },
            None => {},
        }
        match &probe.listing {
            Ok(_) => Ok(true),
            Err(failure) => {
                if failure.permission_denied {
                    Ok(false)
                } else {
                    Err(VenvCleanerError::Io(failure.message.clone()))
                }
            },
        }
    }

    /// The number of regular files and of directories that a walk reported,
    /// the directory it started from not counted.
    pub fn count_items(walk: &Vec<WalkItem>) -> (r: Result<(usize, usize), VenvCleanerError>)
        ensures
            r matches Ok(counts) && counts.0 == file_count(walk@, walk.len() as int) && counts.1
                == directory_count(walk@, walk.len() as int),
    {
        let mut files: usize = 0;
        let mut directories: usize = 0;
        let mut k: usize = 0;
        while k < walk.len()
            invariant
                k <= walk.len(),
                files == file_count(walk@, k as int),
                directories == directory_count(walk@, k as int),
                files <= k,
                directories <= k,
            decreases walk.len() - k,
        {
            match &walk[k] {
                WalkItem::Entry(entry) => {
                    if matches!(entry.kind, EntryKind::File) {
                        files = files + 1;
                    } else if matches!(entry.kind, EntryKind::Directory) && entry.depth > 0 {
                        directories = directories + 1;
                    }
                },
                WalkItem::Failure { .. } => {},
            }
            k = k + 1;
        }
        Ok((files, directories))
    }

    /// Whether a path looks like a real environment: a directory named
    /// [`MARKER`] that holds at least two of `bin`, `Scripts`, `lib`,
    /// `include` and `pyvenv.cfg`. `child_names` are the names found directly
    /// in it.
    pub fn is_valid_venv_directory(path: &str, is_dir: bool, child_names: &Vec<String>) -> (r: bool)
        ensures
            r == (is_dir && file_name_of(path@) == Some(MARKER@) && usual_contents(
                texts_of(child_names@),
            ) >= 2),
    {
        if !is_dir {
            return false;
        }
        let named_marker = match path_text::file_name(path) {
            Some(name) => name == String::from_str(MARKER),
            None => false,
        };
        if !named_marker {
            return false;
        }
        let mut found: u8 = 0;
        if holds_name(child_names, "bin") {
            found = found + 1;
        }
        if holds_name(child_names, "Scripts") {
            found = found + 1;
        }
        if holds_name(child_names, "lib") {
            found = found + 1;
        }
        if holds_name(child_names, "include") {
            found = found + 1;
        }
        if holds_name(child_names, "pyvenv.cfg") {
            found = found + 1;
        }
        found >= 2
    }

    /// Shortens a path for a column of `max_length` characters, keeping whole
    /// components from its end where it can.
    pub fn format_path_for_display(path: &str, max_length: usize) -> (r: String)
        ensures
            r@ == display_path(path@, max_length as nat),
    {
        let len: usize = path.unicode_len();
        if len <= max_length {
            return String::from_str(path);
        }
        let components = path_text::components(path);
        let ghost texts = texts_of(components@);
        if components.len() <= 2 {
            return String::from_str(path);
        }
        let count: usize = components.len();
        let mut result = String::new();
        let mut tail = String::new();
        let mut taken: usize = 0;
        assert(tail@ =~= tail_path(texts, 0));
        loop
            invariant
                taken <= count,
                count == components.len(),
                texts == texts_of(components@),
                tail@ == tail_path(texts, taken as nat),
                fit_count(texts, max_length as nat, 0) == fit_count(
                    texts,
                    max_length as nat,
                    taken as nat,
                ),
                taken > 0 ==> result@ == SHORTENED_PREFIX@ + tail_path(texts, taken as nat),
            ensures
                taken == fit_count(texts, max_length as nat, 0),
                taken > 0 ==> result@ == SHORTENED_PREFIX@ + tail_path(texts, taken as nat),
            decreases count - taken,
        {
            if taken >= count {
                break ;
            }
            let component = &components[count - 1 - taken];
            assert(component@ == texts[count - (taken + 1)]);
            let candidate = path_text::join(component.as_str(), tail.as_str());
            let text = String::from_str(SHORTENED_PREFIX).concat(candidate.as_str());
            let width: usize = text.as_str().unicode_len();
            assert(candidate@ == tail_path(texts, (taken + 1) as nat));
            if width > max_length {
                break ;
            }
            result = text;
            tail = candidate;
            taken = taken + 1;
        }
        if taken == 0 {
            format_path_for_display(path, max_length)
        } else {
            result
        }
    }
}

} // verus!
