//! The record kept of one virtual-environment directory.

use vstd::prelude::*;
use std::cmp::Ordering;
use crate::path_text;
use crate::path_text::{file_name_of, parent_of, path_order, text_of};
use crate::size_text::{format_size, size_text, GB};
use crate::timestamp::{Timestamp, UNKNOWN_DATE};

verus! {

/// An environment modified within this many days counts as recently used.
pub const RECENT_DAYS: u32 = 30;

/// An environment untouched for more than this many days counts as old.
pub const OLD_DAYS: u32 = 90;

/// Sizes above this are large enough to be pointed out in a listing.
pub const NOTABLE_SIZE: u64 = 104_857_600;

/// Shown as the location of an environment whose path has no parent.
pub const UNKNOWN_LOCATION: &'static str = "Unknown";

/// How long ago an environment was last used.
#[derive(Debug, Clone, Copy, PartialEq, Eq, Structural)]
pub enum AgeBucket {
    /// Used within the last [`RECENT_DAYS`] days.
    Recent,
    /// Neither recent nor old.
    Moderate,
    /// Not used for more than [`OLD_DAYS`] days.
    Old,
}

/// How much room an environment takes.
#[derive(Debug, Clone, Copy, PartialEq, Eq, Structural)]
pub enum SizeBucket {
    /// Nothing remarkable.
    Small,
    /// More than [`NOTABLE_SIZE`].
    Medium,
    /// More than a gibibyte.
    Large,
}

/// What a [`VenvInfo`] holds, as plain mathematical values.
pub struct VenvRecord {
    /// The full path of the environment directory.
    pub path: Seq<char>,
    /// The bytes of all regular files below it.
    pub size_bytes: u64,
    /// When the directory was created.
    pub created: Timestamp,
    /// When the directory was last modified.
    pub last_modified: Timestamp,
}

impl VenvRecord {
    /// True when the record counts as recently used at `now`.
    pub open spec fn recently_used_at(self, now: Timestamp) -> bool {
        self.last_modified.spec_within_days(now, RECENT_DAYS as int)
    }

    /// True when the record counts as old at `now`.
    pub open spec fn old_at(self, now: Timestamp) -> bool {
        self.last_modified.spec_older_than_days(now, OLD_DAYS as int)
    }

    /// Whole days from the last modification to `now`.
    pub open spec fn age_in_days_at(self, now: Timestamp) -> int {
        now.spec_days_since(self.last_modified)
    }

    /// The age class at `now`.
    pub open spec fn age_bucket_at(self, now: Timestamp) -> AgeBucket {
        if self.recently_used_at(now) {
            AgeBucket::Recent
        } else if self.old_at(now) {
            AgeBucket::Old
        } else {
            AgeBucket::Moderate
        }
    }

    /// The size class.
    pub open spec fn size_bucket(self) -> SizeBucket {
        if self.size_bytes > GB {
            SizeBucket::Large
        } else if self.size_bytes > NOTABLE_SIZE {
            SizeBucket::Medium
        } else {
            SizeBucket::Small
        }
    }

    /// The directory that holds the environment, if the path names one.
    pub open spec fn parent(self) -> Option<Seq<char>> {
        parent_of(self.path)
    }

    /// The name of the directory that holds the environment.
    pub open spec fn project_name(self) -> Option<Seq<char>> {
        match parent_of(self.path) {
            Some(parent) => file_name_of(parent),
            None => None,
        }
    }

    /// The holding directory as shown to the user.
    pub open spec fn location(self) -> Seq<char> {
        match parent_of(self.path) {
            Some(parent) => parent,
            None => UNKNOWN_LOCATION@,
        }
    }

    /// The one-line summary, given the two dates as text.
    pub open spec fn summary_text(self, created: Seq<char>, last_modified: Seq<char>) -> Seq<
        char,
    > {
        self.path + " | "@ + size_text(self.size_bytes) + " | Created: "@ + created
            + " | Last used: "@ + last_modified
    }

    /// The record written out field by field, given the two dates as text.
    pub open spec fn display_text(self, created: Seq<char>, last_modified: Seq<char>) -> Seq<
        char,
    > {
        "VenvInfo { path: "@ + self.path + ", size: "@ + size_text(self.size_bytes)
            + ", created: "@ + created + ", last_modified: "@ + last_modified + " }"@
    }
}

/// The sign of comparing `a` with `b` as an `Ordering` would report it.
pub open spec fn sign_of(a: int, b: int) -> int {
    if a < b {
        -1
    } else if a == b {
        0
    } else {
        1
    }
}

impl VenvRecord {
    /// The sign of ordering `self` against `other` with larger sizes first.
    pub open spec fn size_sign(self, other: VenvRecord) -> int {
        sign_of(other.size_bytes as int, self.size_bytes as int)
    }

    /// The sign of ordering `self` against `other` with later creation first.
    pub open spec fn created_sign(self, other: VenvRecord) -> int {
        sign_of(other.created.nanos as int, self.created.nanos as int)
    }

    /// The sign of ordering `self` against `other` with later use first.
    pub open spec fn last_modified_sign(self, other: VenvRecord) -> int {
        sign_of(other.last_modified.nanos as int, self.last_modified.nanos as int)
    }

    /// The sign of ordering `self` against `other` by path.
    pub open spec fn path_sign(self, other: VenvRecord) -> int {
        path_order(self.path, other.path)
    }
}

/// The sign that an `Ordering` stands for.
pub open spec fn ordering_sign(o: Ordering) -> int {
    match o {
        Ordering::Less => -1,
        Ordering::Equal => 0,
        Ordering::Greater => 1,
    }
}

/// One virtual-environment directory as it was found: where it is, how large
/// it is and when it was created and last modified. The record does not
/// change once made.
#[derive(Debug, PartialEq)]
pub struct VenvInfo {
    path: String,
    size_bytes: u64,
    created: Timestamp,
    last_modified: Timestamp,
}

impl View for VenvInfo {
    type V = VenvRecord;

    closed spec fn view(&self) -> VenvRecord {
        VenvRecord {
            path: self.path@,
            size_bytes: self.size_bytes,
            created: self.created,
            last_modified: self.last_modified,
        }
    }
}

impl Clone for VenvInfo {
    fn clone(&self) -> (copy: Self)
        ensures
            copy == *self,
    {
        VenvInfo {
            path: self.path.clone(),
            size_bytes: self.size_bytes,
            created: self.created,
            last_modified: self.last_modified,
        }
    }
}

impl VenvInfo {
    /// A record of the directory at `path`.
    pub fn new(path: String, size_bytes: u64, created: Timestamp, last_modified: Timestamp) -> (info:
        VenvInfo)
        ensures
            info@ == (VenvRecord { path: path@, size_bytes, created, last_modified }),
    {
        VenvInfo { path, size_bytes, created, last_modified }
    }

    /// The full path of the environment directory.
    pub fn path(&self) -> (path: &str)
        ensures
            path@ == self@.path,
    {
        self.path.as_str()
    }

    /// The directory that holds the environment.
    pub fn parent_path(&self) -> (parent: Option<String>)
        ensures
            text_of(parent) == self@.parent(),
    {
        path_text::parent(self.path.as_str())
    }

    /// The size in bytes.
    pub fn size_bytes(&self) -> (size: u64)
        ensures
            size == self@.size_bytes,
    {
        self.size_bytes
    }

    /// The size as short text, such as `12.50 MB`.
    pub fn size_formatted(&self) -> (text: String)
        ensures
            text@ == size_text(self@.size_bytes),
    {
        format_size(self.size_bytes)
    }

    /// The size class of the environment.
    pub fn size_bucket(&self) -> (bucket: SizeBucket)
        ensures
            bucket == self@.size_bucket(),
    {
        if self.size_bytes > GB {
            SizeBucket::Large
        } else if self.size_bytes > NOTABLE_SIZE {
            SizeBucket::Medium
        } else {
            SizeBucket::Small
        }
    }

    /// When the directory was created.
    pub fn created(&self) -> (t: &Timestamp)
        ensures
            *t == self@.created,
    {
        &self.created
    }

    /// The creation time in the local time zone; [`UNKNOWN_DATE`] for a time
    /// outside the calendar.
    pub fn created_formatted(&self) -> (text: String)
        ensures
            !(i64::MIN <= self@.created.spec_seconds() <= i64::MAX) ==> text@ == UNKNOWN_DATE@,
    {
        self.created.formatted()
    }

    /// When the directory was last modified.
    pub fn last_modified(&self) -> (t: &Timestamp)
        ensures
            *t == self@.last_modified,
    {
        &self.last_modified
    }

    /// The time of the last modification in the local time zone;
    /// [`UNKNOWN_DATE`] for a time outside the calendar.
    pub fn last_modified_formatted(&self) -> (text: String)
        ensures
            !(i64::MIN <= self@.last_modified.spec_seconds() <= i64::MAX) ==> text@
                == UNKNOWN_DATE@,
    {
        self.last_modified.formatted()
    }

    /// The name of the directory that holds the environment.
    pub fn project_name(&self) -> (name: Option<String>)
        ensures
            text_of(name) == self@.project_name(),
    {
        match path_text::parent(self.path.as_str()) {
            Some(parent) => path_text::file_name(parent.as_str()),
            None => None,
        }
    }

    /// True when the environment was modified less than [`RECENT_DAYS`] days
    /// before `now`.
    pub fn is_recently_used_at(&self, now: &Timestamp) -> (recent: bool)
        ensures
            recent == self@.recently_used_at(*now),
    {
        self.last_modified.within_days(now, RECENT_DAYS)
    }

    /// True when the environment was last modified more than [`OLD_DAYS`]
    /// days before `now`.
    pub fn is_old_at(&self, now: &Timestamp) -> (old: bool)
        ensures
            old == self@.old_at(*now),
    {
        self.last_modified.older_than_days(now, OLD_DAYS)
    }

    /// Whole days from the last modification to `now`.
    pub fn age_in_days_at(&self, now: &Timestamp) -> (days: i64)
        ensures
            days == self@.age_in_days_at(*now),
    {
        now.days_since(&self.last_modified)
    }

    /// The age class of the environment at `now`.
    pub fn age_bucket_at(&self, now: &Timestamp) -> (bucket: AgeBucket)
        ensures
            bucket == self@.age_bucket_at(*now),
    {
        if self.is_recently_used_at(now) {
            AgeBucket::Recent
        } else if self.is_old_at(now) {
            AgeBucket::Old
        } else {
            AgeBucket::Moderate
        }
    }

    /// True when the environment was used within the last [`RECENT_DAYS`]
    /// days, by the system clock.
    pub fn is_recently_used(&self) -> (recent: bool)
        ensures
            exists|now: Timestamp| recent == #[trigger] self@.recently_used_at(now),
    {
        let now = Timestamp::now();
        let recent = self.is_recently_used_at(&now);
        assert(recent == self@.recently_used_at(now));
        recent
    }

    /// True when the environment has not been used for more than
    /// [`OLD_DAYS`] days, by the system clock.
    pub fn is_old(&self) -> (old: bool)
        ensures
            exists|now: Timestamp| old == #[trigger] self@.old_at(now),
    {
        let now = Timestamp::now();
        let old = self.is_old_at(&now);
        assert(old == self@.old_at(now));
        old
    }

    /// Whole days since the last modification, by the system clock.
    pub fn age_in_days(&self) -> (days: i64)
        ensures
            exists|now: Timestamp| days == #[trigger] self@.age_in_days_at(now),
    {
        let now = Timestamp::now();
        let days = self.age_in_days_at(&now);
        assert(days == self@.age_in_days_at(now));
        days
    }

    /// The one-line summary built around the two dates given as text.
    pub fn summary_with(&self, created: &str, last_modified: &str) -> (text: String)
        ensures
            text@ == self@.summary_text(created@, last_modified@),
    {
        let size = format_size(self.size_bytes);
        String::from_str(self.path.as_str()).concat(" | ").concat(size.as_str()).concat(
            " | Created: ",
        ).concat(created).concat(" | Last used: ").concat(last_modified)
    }

    /// A one-line summary: path, size, creation and last use.
    pub fn summary(&self) -> (text: String)
        ensures
            exists|created: Seq<char>, last_modified: Seq<char>| text@ == #[trigger] self@.summary_text(
                created,
                last_modified,
            ),
    {
        let created = self.created.formatted();
        let last_modified = self.last_modified.formatted();
        let text = self.summary_with(created.as_str(), last_modified.as_str());
        assert(text@ == self@.summary_text(created@, last_modified@));
        text
    }

    /// The directory that holds the environment, as text for the user;
    /// [`UNKNOWN_LOCATION`] when the path has no parent.
    pub fn location(&self) -> (text: String)
        ensures
            text@ == self@.location(),
    {
        match path_text::parent(self.path.as_str()) {
            Some(parent) => parent,
            None => String::from_str(UNKNOWN_LOCATION),
        }
    }

    /// The record written out field by field around the two dates given as
    /// text.
    pub fn display_with(&self, created: &str, last_modified: &str) -> (text: String)
        ensures
            text@ == self@.display_text(created@, last_modified@),
    {
        let size = format_size(self.size_bytes);
        String::from_str("VenvInfo { path: ").concat(self.path.as_str()).concat(", size: ").concat(
            size.as_str(),
        ).concat(", created: ").concat(created).concat(", last_modified: ").concat(
            last_modified,
        ).concat(" }")
    }

    /// The record written out field by field.
    pub fn to_string(&self) -> (text: String)
        ensures
            exists|created: Seq<char>, last_modified: Seq<char>| text@ == #[trigger] self@.display_text(
                created,
                last_modified,
            ),
    {
        let created = self.created.formatted();
        let last_modified = self.last_modified.formatted();
        let text = self.display_with(created.as_str(), last_modified.as_str());
        assert(text@ == self@.display_text(created@, last_modified@));
        text
    }

    /// Orders larger environments first.
    pub fn compare_by_size(&self, other: &VenvInfo) -> (o: Ordering)
        ensures
            ordering_sign(o) == self@.size_sign(other@),
    {
        if other.size_bytes < self.size_bytes {
            Ordering::Less
        } else if other.size_bytes == self.size_bytes {
            Ordering::Equal
        } else {
            Ordering::Greater
        }
    }

    /// Orders more recently created environments first.
    pub fn compare_by_created(&self, other: &VenvInfo) -> (o: Ordering)
        ensures
            ordering_sign(o) == self@.created_sign(other@),
    {
        if other.created.nanos < self.created.nanos {
            Ordering::Less
        } else if other.created.nanos == self.created.nanos {
            Ordering::Equal
        } else {
            Ordering::Greater
        }
    }

    /// Orders more recently used environments first.
    pub fn compare_by_last_modified(&self, other: &VenvInfo) -> (o: Ordering)
        ensures
            ordering_sign(o) == self@.last_modified_sign(other@),
    {
        if other.last_modified.nanos < self.last_modified.nanos {
            Ordering::Less
        } else if other.last_modified.nanos == self.last_modified.nanos {
            Ordering::Equal
        } else {
            Ordering::Greater
        }
    }

    /// Orders by path, as paths compare.
    pub fn compare_by_path(&self, other: &VenvInfo) -> (o: Ordering)
        ensures
            ordering_sign(o) == self@.path_sign(other@),
    {
        let sign: i8 = path_text::order(self.path.as_str(), other.path.as_str());
        if sign < 0 {
            Ordering::Less
        } else if sign == 0 {
            Ordering::Equal
        } else {
            Ordering::Greater
        }
    }
}

} // verus!
