//! The vocabulary of the graphical front end: its states, sort options,
//! events, colours and the colour classes of sizes and ages.

use vstd::prelude::*;
use crate::cleaner::{CleanerSettings, VenvCleaner};
use crate::error::VenvCleanerError;
use crate::outcome::DeletionResult;
use crate::sort_key::SortBy;
use crate::venv_info::VenvInfo;

verus! {

/// One hundred mebibytes.
pub const MB_100: u64 = 104_857_600;

/// One gibibyte.
pub const GB_1: u64 = 1_073_741_824;

/// The states of the graphical front end.
#[derive(Debug, Clone, Copy, PartialEq, Eq, Structural)]
pub enum GuiAppState {
    /// A search is under way.
    Loading,
    /// The list of environments is shown.
    Browsing,
    /// The user is asked to confirm a removal.
    ConfirmingDeletion,
    /// A removal is under way.
    Deleting,
    /// A failure is shown.
    Error,
    /// The front end has been left.
    Quit,
}

/// The attribute the graphical list is ordered by.
#[derive(Debug, Clone, Copy, PartialEq, Eq, Structural)]
pub enum GuiSortBy {
    /// Alphabetical by path.
    Path,
    /// Largest first.
    Size,
    /// Newest first.
    Created,
    /// Most recently used first.
    LastModified,
}

impl GuiSortBy {
    /// The same attribute as a [`SortBy`].
    pub open spec fn spec_sort_key(self) -> SortBy {
        match self {
            GuiSortBy::Path => SortBy::Path,
            GuiSortBy::Size => SortBy::Size,
            GuiSortBy::Created => SortBy::Created,
            GuiSortBy::LastModified => SortBy::LastModified,
        }
    }

    /// The number under which the option is stored between runs.
    pub open spec fn spec_index(self) -> u8 {
        match self {
            GuiSortBy::Path => 0,
            GuiSortBy::Size => 1,
            GuiSortBy::Created => 2,
            GuiSortBy::LastModified => 3,
        }
    }

    /// The same attribute as a [`SortBy`].
    pub fn sort_key(self) -> (key: SortBy)
        ensures
            key == self.spec_sort_key(),
    {
        match self {
            GuiSortBy::Path => SortBy::Path,
            GuiSortBy::Size => SortBy::Size,
            GuiSortBy::Created => SortBy::Created,
            GuiSortBy::LastModified => SortBy::LastModified,
        }
    }

    /// The next option in the cycle Path, Size, Created, LastModified.
    pub fn next(self) -> (r: GuiSortBy)
        ensures
            r.spec_sort_key() == self.spec_sort_key().spec_next(),
    {
        match self {
            GuiSortBy::Path => GuiSortBy::Size,
            GuiSortBy::Size => GuiSortBy::Created,
            GuiSortBy::Created => GuiSortBy::LastModified,
            GuiSortBy::LastModified => GuiSortBy::Path,
        }
    }

    /// The name shown for the option.
    pub fn display_name(self) -> (name: &'static str)
        ensures
            name@ == self.spec_sort_key().spec_display_name(),
    {
        self.sort_key().display_name()
    }

    /// The number under which the option is stored between runs.
    pub fn index(self) -> (i: u8)
        ensures
            i == self.spec_index(),
    {
        match self {
            GuiSortBy::Path => 0,
            GuiSortBy::Size => 1,
            GuiSortBy::Created => 2,
            GuiSortBy::LastModified => 3,
        }
    }
}

/// What background work reports to the graphical front end.
#[derive(Debug)]
pub enum GuiEvent {
    /// A search has finished with these environments.
    VenvsLoaded(Vec<VenvInfo>),
    /// A search has failed, with this description.
    LoadError(String),
    /// A batch of removals has finished.
    DeletionComplete(Vec<DeletionResult>),
}

impl GuiEvent {
    /// The one event that a finished search reports: the environments it
    /// found, or the description of its failure.
    pub fn from_search(result: Result<Vec<VenvInfo>, VenvCleanerError>) -> (event: GuiEvent)
        ensures
            result matches Ok(entries) ==> event == GuiEvent::VenvsLoaded(entries),
            result matches Err(e) ==> (event matches GuiEvent::LoadError(text) && text@
                == e.description()),
    {
        match result {
            Ok(entries) => GuiEvent::VenvsLoaded(entries),
            Err(e) => GuiEvent::LoadError(e.to_string()),
        }
    }
}

/// What the graphical front end is started from.
#[derive(Debug)]
pub struct GuiMode {
    cleaner: VenvCleaner,
    base_directory: String,
    recursive: bool,
    verbosity: u8,
}

impl View for GuiMode {
    type V = CleanerSettings;

    closed spec fn view(&self) -> CleanerSettings {
        self.cleaner@
    }
}

impl GuiMode {
    /// What is in order of a start: the directory and the kind of search
    /// kept beside the settings are those of the settings.
    pub closed spec fn wf(&self) -> bool {
        &&& self.base_directory@ == self.cleaner@.base_directory
        &&& self.recursive == self.cleaner@.recursive
        &&& self.verbosity == self.cleaner@.verbosity
    }

    /// The start of a graphical run that searches `base_directory`. Removal
    /// is neither forced nor simulated.
    pub fn new(base_directory: String, recursive: bool, verbosity: u8) -> (r: Result<
        GuiMode,
        VenvCleanerError,
    >)
        ensures
            r matches Ok(mode) && mode.wf() && mode@ == (CleanerSettings {
                base_directory: base_directory@,
                recursive,
                force_mode: false,
                dry_run: false,
                verbosity,
            }),
    {
        let cleaner = VenvCleaner::new(base_directory.clone(), recursive, false, false, verbosity);
        Ok(GuiMode { cleaner, base_directory, recursive, verbosity })
    }

    /// Begins the run: the state of the front end with the first search
    /// under way. Drawing it and carrying out the search are left to the
    /// caller.
    pub fn run(self) -> (app: crate::gui_app::GuiApp)
        requires
            self.wf(),
        ensures
            app.wf(),
            crate::gui_app::is_fresh(app@, self@, self@.base_directory, self@.recursive),
    {
        crate::gui_app::GuiApp::new(self.cleaner, self.base_directory, self.recursive)
    }

    /// Gives up the start for its parts: the settings, the directory to
    /// search, and whether the search descends.
    pub fn into_parts(self) -> (parts: (VenvCleaner, String, bool))
        requires
            self.wf(),
        ensures
            parts.0@ == self@,
            parts.1@ == self@.base_directory,
            parts.2 == self@.recursive,
    {
        (self.cleaner, self.base_directory, self.recursive)
    }
}

/// A colour: red, green, blue and opacity, each from 0 to 255.
#[derive(Debug, Clone, Copy, PartialEq, Eq, Structural)]
pub struct Rgba {
    /// Red.
    pub r: u8,
    /// Green.
    pub g: u8,
    /// Blue.
    pub b: u8,
    /// Opacity.
    pub a: u8,
}

impl Rgba {
    /// An opaque colour.
    pub open spec fn spec_rgb(r: u8, g: u8, b: u8) -> Rgba {
        Rgba { r, g, b, a: 255 }
    }

    /// An opaque colour.
    pub fn rgb(r: u8, g: u8, b: u8) -> (c: Rgba)
        ensures
            c == Rgba::spec_rgb(r, g, b),
    {
        Rgba { r, g, b, a: 255 }
    }

    /// A colour with the given opacity.
    pub fn rgba(r: u8, g: u8, b: u8, a: u8) -> (c: Rgba)
        ensures
            c == (Rgba { r, g, b, a }),
    {
        Rgba { r, g, b, a }
    }
}

/// The colour of a size in the graphical list: red from a gibibyte on,
/// orange from a hundred mebibytes on, grey below.
pub open spec fn size_color(bytes: u64) -> Rgba {
    if bytes >= GB_1 {
        Rgba::spec_rgb(255, 100, 100)
    } else if bytes >= MB_100 {
        Rgba::spec_rgb(255, 200, 100)
    } else {
        Rgba::spec_rgb(200, 200, 200)
    }
}

/// The colour of an age in the graphical list: green up to thirty days,
/// yellow up to ninety, red beyond.
pub open spec fn age_color(days: i64) -> Rgba {
    if days <= 30 {
        Rgba::spec_rgb(100, 255, 100)
    } else if days <= 90 {
        Rgba::spec_rgb(255, 255, 100)
    } else {
        Rgba::spec_rgb(255, 100, 100)
    }
}

/// The sign shown beside an age.
pub open spec fn age_indicator(days: i64) -> Seq<char> {
    if days <= 30 {
        "🟢"@
    } else if days <= 90 {
        "🟡"@
    } else {
        "🔴"@
    }
}

/// The colour of a size of `bytes` bytes.
pub fn get_size_color(bytes: u64) -> (c: Rgba)
    ensures
        c == size_color(bytes),
{
    if bytes >= GB_1 {
        Rgba::rgb(255, 100, 100)
    } else if bytes >= MB_100 {
        Rgba::rgb(255, 200, 100)
    } else {
        Rgba::rgb(200, 200, 200)
    }
}

/// The colour of an age of `days` days.
pub fn get_age_color(days: i64) -> (c: Rgba)
    ensures
        c == age_color(days),
{
    if days <= 30 {
        Rgba::rgb(100, 255, 100)
    } else if days <= 90 {
        Rgba::rgb(255, 255, 100)
    } else {
        Rgba::rgb(255, 100, 100)
    }
}

/// The sign shown beside an age of `days` days.
pub fn get_age_indicator(days: i64) -> (sign: &'static str)
    ensures
        sign@ == age_indicator(days),
{
    if days <= 30 {
        "🟢"
    } else if days <= 90 {
        "🟡"
    } else {
        "🔴"
    }
}

/// What a dialog was answered with.
#[derive(Debug, Clone, Copy, PartialEq, Eq, Structural)]
pub enum DialogResult {
    /// Not answered yet.
    Unanswered,
    /// Yes.
    Confirm,
    /// No.
    Cancel,
}

} // verus!
