//! A directory walk, as the list of what it came across.
//!
//! A walk goes through a tree depth first and reports every entry before the
//! entries below it. Each report carries its depth: zero for the directory the
//! walk started from, one for what lies directly in it, and so on. The
//! entries below a directory are therefore the reports that follow it for as
//! long as their depth is greater than its own.

use vstd::prelude::*;
use crate::timestamp::Timestamp;

verus! {

/// The name that marks a directory as a virtual environment.
pub const MARKER: &'static str = ".venv";

/// What kind of thing a directory entry is, without following links.
#[derive(Debug, Clone, Copy, PartialEq, Eq, Structural)]
pub enum EntryKind {
    /// A regular file.
    File,
    /// A directory.
    Directory,
    /// Anything else: a symbolic link, a socket, a device.
    Other,
}

/// What the file system tells about an entry.
#[derive(Debug, Clone, Copy)]
pub struct EntryMetadata {
    /// The size in bytes.
    pub len: u64,
    /// When the entry was created, where the file system records it.
    pub created: Option<Timestamp>,
    /// When the entry was last modified, where the file system records it.
    pub modified: Option<Timestamp>,
}

/// One entry that a walk came across.
#[derive(Debug, Clone)]
pub struct WalkEntry {
    /// How far below the start of the walk the entry lies.
    pub depth: usize,
    /// The path of the entry.
    pub path: String,
    /// The last component of the path.
    pub name: String,
    /// The kind of the entry.
    pub kind: EntryKind,
    /// The metadata of the entry; `None` when it could not be read.
    pub metadata: Option<EntryMetadata>,
}

/// One report of a walk: an entry, or a place that could not be read.
#[derive(Debug, Clone)]
pub enum WalkItem {
    /// An entry.
    Entry(WalkEntry),
    /// A failure to read. The depth is that of the directory that could not
    /// be opened, or of the entry that could not be read; zero means that
    /// the directory the walk started from could not be read. The message
    /// is the system's description of the failure.
    Failure { depth: usize, message: String },
}

/// The depth of a report.
pub open spec fn depth_of(item: WalkItem) -> nat {
    match item {
        WalkItem::Entry(entry) => entry.depth as nat,
        WalkItem::Failure { depth, .. } => depth as nat,
    }
}

/// True of a directory that carries the marker name.
pub open spec fn is_marker_dir(item: WalkItem) -> bool {
    item matches WalkItem::Entry(entry) && entry.kind == EntryKind::Directory && entry.name@
        == MARKER@
}

/// The bytes that a report adds to a total: the size of a regular file whose
/// metadata could be read, and nothing otherwise.
pub open spec fn counted_bytes(item: WalkItem) -> nat {
    match item {
        WalkItem::Entry(entry) => match entry.metadata {
            Some(metadata) => if entry.kind == EntryKind::File {
                metadata.len as nat
            } else {
                0
            },
            None => 0,
        },
        WalkItem::Failure { .. } => 0,
    }
}

/// True of a report that stands for something unreadable: a failure of the
/// walk, or a regular file without metadata.
pub open spec fn is_unreadable(item: WalkItem) -> bool {
    match item {
        WalkItem::Entry(entry) => entry.kind == EntryKind::File && entry.metadata is None,
        WalkItem::Failure { .. } => true,
    }
}

/// The first place at or after `from` whose depth is not greater than
/// `depth`, or the length of the walk when there is none. With `from` just
/// behind a directory of depth `depth`, this is where what lies below the
/// directory ends.
pub open spec fn subtree_end(items: Seq<WalkItem>, depth: nat, from: int) -> int
    decreases items.len() - from,
{
    if from < 0 || from >= items.len() {
        items.len() as int
    } else if depth_of(items[from]) <= depth {
        from
    } else {
        subtree_end(items, depth, from + 1)
    }
}

/// Where what lies below the report at `start` ends.
pub open spec fn end_of(items: Seq<WalkItem>, start: int) -> int {
    subtree_end(items, depth_of(items[start]), start + 1)
}

/// The bytes of the regular files reported in `items[lo..hi]`.
pub open spec fn file_bytes(items: Seq<WalkItem>, lo: int, hi: int) -> nat
    decreases hi - lo,
{
    if hi <= lo {
        0
    } else {
        file_bytes(items, lo, hi - 1) + counted_bytes(items[hi - 1])
    }
}

/// The number of unreadable reports in `items[lo..hi]`.
pub open spec fn unreadable_count(items: Seq<WalkItem>, lo: int, hi: int) -> nat
    decreases hi - lo,
{
    if hi <= lo {
        0
    } else {
        unreadable_count(items, lo, hi - 1) + if is_unreadable(items[hi - 1]) {
            1nat
        } else {
            0nat
        }
    }
}

/// True of a failure to read the directory that the walk started from.
pub open spec fn is_root_failure(item: WalkItem) -> bool {
    item matches WalkItem::Failure { depth, .. } && depth == 0
}

/// The first place at or after `from` that reports a failure to read the
/// directory the walk started from, or the length of the walk when there is
/// none.
pub open spec fn first_root_failure(items: Seq<WalkItem>, from: int) -> int
    decreases items.len() - from,
{
    if from < 0 || from >= items.len() {
        items.len() as int
    } else if is_root_failure(items[from]) {
        from
    } else {
        first_root_failure(items, from + 1)
    }
}

/// The system's description of the first failure to read the directory that
/// the walk started from; `None` when the walk reports no such failure.
pub open spec fn root_failure(items: Seq<WalkItem>) -> Option<Seq<char>> {
    if first_root_failure(items, 0) < items.len() {
        Some(items[first_root_failure(items, 0)]->Failure_message@)
    } else {
        None
    }
}

/// A byte count held to what a `u64` can carry.
pub open spec fn saturated(total: nat) -> u64 {
    if total > u64::MAX {
        u64::MAX
    } else {
        total as u64
    }
}

/// The end of a subtree lies between where the search starts and the end of
/// the walk; nothing in between is as shallow as `depth`, and what stands at
/// the end is.
pub proof fn lemma_subtree_end(items: Seq<WalkItem>, depth: nat, from: int)
    requires
        0 <= from <= items.len(),
    ensures
        from <= subtree_end(items, depth, from) <= items.len(),
        forall|k: int|
            from <= k < subtree_end(items, depth, from) ==> depth_of(#[trigger] items[k]) > depth,
        subtree_end(items, depth, from) < items.len() ==> depth_of(
            items[subtree_end(items, depth, from)],
        ) <= depth,
    decreases items.len() - from,
{
    if from < items.len() && depth_of(items[from]) > depth {
        lemma_subtree_end(items, depth, from + 1);
    }
}

/// A subtree ends no later than any place behind its start that is as
/// shallow as its root.
pub proof fn lemma_subtree_end_bound(items: Seq<WalkItem>, depth: nat, from: int, bound: int)
    requires
        0 <= from <= bound <= items.len(),
        bound < items.len() ==> depth_of(items[bound]) <= depth,
    ensures
        subtree_end(items, depth, from) <= bound,
    decreases items.len() - from,
{
    if from < bound && depth_of(items[from]) > depth {
        lemma_subtree_end_bound(items, depth, from + 1, bound);
    }
}

/// The depth of a report.
pub fn item_depth(item: &WalkItem) -> (depth: usize)
    ensures
        depth == depth_of(*item),
{
    match item {
        WalkItem::Entry(entry) => entry.depth,
        WalkItem::Failure { depth, .. } => *depth,
    }
}

/// True of a directory that carries the marker name.
pub fn is_marker_directory(item: &WalkItem) -> (r: bool)
    ensures
        r == is_marker_dir(*item),
{
    match item {
        WalkItem::Entry(entry) => {
            let marker = String::from_str(MARKER);
            matches!(entry.kind, EntryKind::Directory) && entry.name == marker
        },
        WalkItem::Failure { .. } => false,
    }
}

/// What measuring a stretch of a walk gives.
#[derive(Debug, Clone, Copy, PartialEq, Eq, Structural)]
pub struct Measure {
    /// Where the stretch ends: the index behind its last report.
    pub end: usize,
    /// The bytes of its regular files, held to `u64::MAX`.
    pub total_size: u64,
    /// How many of its reports were unreadable.
    pub error_count: usize,
}

/// Measures the report at `start` together with everything below it.
pub fn measure_subtree(items: &Vec<WalkItem>, start: usize) -> (m: Measure)
    requires
        start < items.len(),
    ensures
        m.end == end_of(items@, start as int),
        start < m.end <= items.len(),
        m.total_size == saturated(file_bytes(items@, start as int, m.end as int)),
        m.error_count == unreadable_count(items@, start as int, m.end as int),
{
    let depth: usize = item_depth(&items[start]);
    let mut total: u64 = 0;
    let mut errors: usize = 0;
    let mut k: usize = start;
    proof {
        lemma_subtree_end(items@, depth as nat, start + 1);
    }
    loop
        invariant
            start <= k <= items.len(),
            start < items.len(),
            depth == depth_of(items@[start as int]),
            k > start ==> end_of(items@, start as int) == subtree_end(
                items@,
                depth as nat,
                k as int,
            ),
            total == saturated(file_bytes(items@, start as int, k as int)),
            errors == unreadable_count(items@, start as int, k as int),
            errors <= k - start,
        ensures
            start < k <= items.len(),
            k == end_of(items@, start as int),
            total == saturated(file_bytes(items@, start as int, k as int)),
            errors == unreadable_count(items@, start as int, k as int),
        decreases items.len() - k,
    {
        if k > start {
            if k >= items.len() {
                break ;
            }
            if item_depth(&items[k]) <= depth {
                break ;
            }
        }
        match &items[k] {
            WalkItem::Entry(entry) => {
                if matches!(entry.kind, EntryKind::File) {
                    match entry.metadata {
                        Some(metadata) => {
                            total = total.saturating_add(metadata.len);
                        },
                        None => {
                            errors = errors + 1;
                        },
                    }
                }
            },
            WalkItem::Failure { .. } => {
                errors = errors + 1;
            },
        }
        k = k + 1;
    }
    Measure { end: k, total_size: total, error_count: errors }
}

/// Measures every report of a walk.
pub fn measure_all(items: &Vec<WalkItem>) -> (m: Measure)
    ensures
        m.end == items.len(),
        m.total_size == saturated(file_bytes(items@, 0, items.len() as int)),
        m.error_count == unreadable_count(items@, 0, items.len() as int),
{
    let mut total: u64 = 0;
    let mut errors: usize = 0;
    let mut k: usize = 0;
    while k < items.len()
        invariant
            k <= items.len(),
            total == saturated(file_bytes(items@, 0, k as int)),
            errors == unreadable_count(items@, 0, k as int),
            errors <= k,
        decreases items.len() - k,
    {
        match &items[k] {
            WalkItem::Entry(entry) => {
                if matches!(entry.kind, EntryKind::File) {
                    match entry.metadata {
                        Some(metadata) => {
                            total = total.saturating_add(metadata.len);
                        },
                        None => {
                            errors = errors + 1;
                        },
                    }
                }
            },
            WalkItem::Failure { .. } => {
                errors = errors + 1;
            },
        }
        k = k + 1;
    }
    Measure { end: k, total_size: total, error_count: errors }
}

/// What `first_root_failure` finds is a failure at depth zero, and nothing
/// before it is one.
pub proof fn lemma_first_root_failure(items: Seq<WalkItem>, from: int)
    requires
        0 <= from <= items.len(),
    ensures
        from <= first_root_failure(items, from) <= items.len(),
        first_root_failure(items, from) < items.len() ==> is_root_failure(
            items[first_root_failure(items, from)],
        ),
        forall|k: int|
            from <= k < first_root_failure(items, from) ==> !is_root_failure(#[trigger] items[k]),
    decreases items.len() - from,
{
    if from < items.len() && !is_root_failure(items[from]) {
        lemma_first_root_failure(items, from + 1);
    }
}

/// Looks for a failure to read the directory that the walk started from and
/// hands back the system's description of the first one.
pub fn find_root_failure(items: &Vec<WalkItem>) -> (message: Option<String>)
    ensures
        match message {
            Some(text) => root_failure(items@) == Some(text@),
            None => root_failure(items@) is None,
        },
{
    let mut i: usize = 0;
    while i < items.len()
        invariant
            i <= items.len(),
            first_root_failure(items@, 0) == first_root_failure(items@, i as int),
        decreases items.len() - i,
    {
        match &items[i] {
            WalkItem::Failure { depth, message } => {
                if *depth == 0 {
                    return Some(message.clone());
                }
            },
            WalkItem::Entry(_) => {},
        }
        i = i + 1;
    }
    None
}

} // verus!
