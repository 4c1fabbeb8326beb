//! The orderings an entry list can be shown in.

use vstd::prelude::*;

verus! {

/// The attribute an entry list is ordered by.
#[derive(Debug, Clone, Copy, PartialEq, Eq, Structural)]
pub enum SortBy {
    /// Alphabetical by path.
    Path,
    /// Largest first.
    Size,
    /// Newest first.
    Created,
    /// Most recently used first.
    LastModified,
}

impl SortBy {
    /// The option that follows `self` in the cycle Path, Size, Created,
    /// LastModified.
    pub open spec fn spec_next(self) -> SortBy {
        match self {
            SortBy::Path => SortBy::Size,
            SortBy::Size => SortBy::Created,
            SortBy::Created => SortBy::LastModified,
            SortBy::LastModified => SortBy::Path,
        }
    }

    /// The option that precedes `self` in the cycle.
    pub open spec fn spec_previous(self) -> SortBy {
        match self {
            SortBy::Path => SortBy::LastModified,
            SortBy::Size => SortBy::Path,
            SortBy::Created => SortBy::Size,
            SortBy::LastModified => SortBy::Created,
        }
    }

    /// The name shown for the option.
    pub open spec fn spec_display_name(self) -> Seq<char> {
        match self {
            SortBy::Path => "Path"@,
            SortBy::Size => "Size"@,
            SortBy::Created => "Created"@,
            SortBy::LastModified => "Last Used"@,
        }
    }

    /// The next sort option in the cycle.
    pub fn next(self) -> (r: SortBy)
        ensures
            r == self.spec_next(),
    {
        match self {
            SortBy::Path => SortBy::Size,
            SortBy::Size => SortBy::Created,
            SortBy::Created => SortBy::LastModified,
            SortBy::LastModified => SortBy::Path,
        }
    }

    /// The previous sort option in the cycle.
    pub fn previous(self) -> (r: SortBy)
        ensures
            r == self.spec_previous(),
    {
        match self {
            SortBy::Path => SortBy::LastModified,
            SortBy::Size => SortBy::Path,
            SortBy::Created => SortBy::Size,
            SortBy::LastModified => SortBy::Created,
        }
    }

    /// The name shown for the option.
    pub fn display_name(self) -> (name: &'static str)
        ensures
            name@ == self.spec_display_name(),
    {
        match self {
            SortBy::Path => "Path",
            SortBy::Size => "Size",
            SortBy::Created => "Created",
            SortBy::LastModified => "Last Used",
        }
    }

    /// Going forward and then back, or back and then forward, returns to the
    /// same option, and four steps forward close the cycle.
    pub proof fn law_cycle(self)
        ensures
            self.spec_next().spec_previous() == self,
            self.spec_previous().spec_next() == self,
            self.spec_next().spec_next().spec_next().spec_next() == self,
    {
    }
}

} // verus!
