//! Colours and measures of the graphical front end, and the colours of the
//! terminal front end.

use vstd::prelude::*;
use crate::gui::{Rgba, GB_1, MB_100};

verus! {

/// The sizes of type.
#[derive(Debug, Clone, Copy, PartialEq, Eq, Structural)]
pub enum FontSize {
    /// Small print.
    Small,
    /// Running text.
    Normal,
    /// Emphasis.
    Large,
    /// Headings.
    Heading,
}

/// The colours and measures of the graphical front end. Measures are in
/// points.
#[derive(Debug, Clone, Copy, PartialEq, Eq, Structural)]
pub struct Theme {
    /// The main colour.
    pub primary: Rgba,
    /// The second colour.
    pub secondary: Rgba,
    /// The colour of accents.
    pub accent: Rgba,
    /// The colour of success.
    pub success: Rgba,
    /// The colour of warnings.
    pub warning: Rgba,
    /// The colour of failures.
    pub error: Rgba,
    /// The colour of notes.
    pub info: Rgba,
    /// The colour behind everything.
    pub background: Rgba,
    /// The colour of surfaces.
    pub surface: Rgba,
    /// The colour of panels.
    pub panel: Rgba,
    /// The colour of text.
    pub text_primary: Rgba,
    /// The colour of less important text.
    pub text_secondary: Rgba,
    /// The colour of unimportant text.
    pub text_muted: Rgba,
    /// The colour of what is selected.
    pub selection: Rgba,
    /// The colour of what is highlighted.
    pub highlight: Rgba,
    /// The colour of what the pointer is over.
    pub hover: Rgba,
    /// The colour of borders.
    pub border: Rgba,
    /// The colour of separators.
    pub separator: Rgba,
    /// The colour of a recently used environment.
    pub age_recent: Rgba,
    /// The colour of an environment neither recent nor old.
    pub age_moderate: Rgba,
    /// The colour of an old environment.
    pub age_old: Rgba,
    /// The colour of a small size.
    pub size_small: Rgba,
    /// The colour of a middling size.
    pub size_medium: Rgba,
    /// The colour of a large size.
    pub size_large: Rgba,
    /// The size of small print.
    pub font_small: u16,
    /// The size of running text.
    pub font_normal: u16,
    /// The size of emphasised text.
    pub font_large: u16,
    /// The size of headings.
    pub font_heading: u16,
    /// The room between items.
    pub spacing: u16,
    /// The room inside items.
    pub padding: u16,
    /// The height of a button.
    pub button_height: u16,
    /// The height of a table row.
    pub row_height: u16,
    /// The radius of rounded corners.
    pub rounding: u16,
    /// The width of lines.
    pub stroke_width: u16,
}

/// The light theme, in blue.
pub open spec fn light_theme() -> Theme {
    Theme {
        primary: Rgba::spec_rgb(70, 130, 200),
        secondary: Rgba::spec_rgb(100, 160, 220),
        accent: Rgba::spec_rgb(255, 165, 0),
        success: Rgba::spec_rgb(40, 180, 40),
        warning: Rgba::spec_rgb(255, 165, 0),
        error: Rgba::spec_rgb(220, 50, 50),
        info: Rgba::spec_rgb(70, 130, 200),
        background: Rgba::spec_rgb(248, 249, 250),
        surface: Rgba::spec_rgb(255, 255, 255),
        panel: Rgba::spec_rgb(245, 246, 247),
        text_primary: Rgba::spec_rgb(33, 37, 41),
        text_secondary: Rgba::spec_rgb(73, 80, 87),
        text_muted: Rgba::spec_rgb(134, 142, 150),
        selection: Rgba { r: 70, g: 130, b: 200, a: 80 },
        highlight: Rgba { r: 255, g: 165, b: 0, a: 60 },
        hover: Rgba { r: 70, g: 130, b: 200, a: 40 },
        border: Rgba::spec_rgb(206, 212, 218),
        separator: Rgba::spec_rgb(233, 236, 239),
        age_recent: Rgba::spec_rgb(40, 180, 40),
        age_moderate: Rgba::spec_rgb(255, 193, 7),
        age_old: Rgba::spec_rgb(220, 53, 69),
        size_small: Rgba::spec_rgb(134, 142, 150),
        size_medium: Rgba::spec_rgb(255, 165, 0),
        size_large: Rgba::spec_rgb(220, 53, 69),
        font_small: 11,
        font_normal: 13,
        font_large: 16,
        font_heading: 20,
        spacing: 8,
        padding: 12,
        button_height: 32,
        row_height: 28,
        rounding: 4,
        stroke_width: 1,
    }
}

/// The dark theme: the colours of the light one replaced, its measures kept.
pub open spec fn dark_theme() -> Theme {
    Theme {
        primary: Rgba::spec_rgb(100, 160, 240),
        secondary: Rgba::spec_rgb(130, 180, 250),
        accent: Rgba::spec_rgb(255, 193, 7),
        success: Rgba::spec_rgb(72, 207, 72),
        warning: Rgba::spec_rgb(255, 193, 7),
        error: Rgba::spec_rgb(248, 81, 73),
        info: Rgba::spec_rgb(100, 160, 240),
        background: Rgba::spec_rgb(32, 33, 36),
        surface: Rgba::spec_rgb(45, 46, 49),
        panel: Rgba::spec_rgb(40, 41, 44),
        text_primary: Rgba::spec_rgb(255, 255, 255),
        text_secondary: Rgba::spec_rgb(189, 193, 198),
        text_muted: Rgba::spec_rgb(154, 160, 166),
        selection: Rgba { r: 100, g: 160, b: 240, a: 80 },
        highlight: Rgba { r: 255, g: 193, b: 7, a: 60 },
        hover: Rgba { r: 100, g: 160, b: 240, a: 40 },
        border: Rgba::spec_rgb(95, 99, 104),
        separator: Rgba::spec_rgb(60, 64, 67),
        age_recent: Rgba::spec_rgb(72, 207, 72),
        age_moderate: Rgba::spec_rgb(255, 193, 7),
        age_old: Rgba::spec_rgb(248, 81, 73),
        size_small: Rgba::spec_rgb(154, 160, 166),
        size_medium: Rgba::spec_rgb(255, 193, 7),
        size_large: Rgba::spec_rgb(248, 81, 73),
        ..light_theme()
    }
}

/// The light theme in green.
pub open spec fn green_theme() -> Theme {
    Theme {
        primary: Rgba::spec_rgb(40, 167, 69),
        secondary: Rgba::spec_rgb(72, 180, 97),
        accent: Rgba::spec_rgb(255, 193, 7),
        selection: Rgba { r: 40, g: 167, b: 69, a: 80 },
        hover: Rgba { r: 40, g: 167, b: 69, a: 40 },
        ..light_theme()
    }
}

/// The light theme in purple.
pub open spec fn purple_theme() -> Theme {
    Theme {
        primary: Rgba::spec_rgb(108, 117, 225),
        secondary: Rgba::spec_rgb(130, 138, 235),
        accent: Rgba::spec_rgb(255, 193, 7),
        selection: Rgba { r: 108, g: 117, b: 225, a: 80 },
        hover: Rgba { r: 108, g: 117, b: 225, a: 40 },
        ..light_theme()
    }
}

impl Default for Theme {
    /// The light theme, in blue.
    fn default() -> (theme: Theme)
        ensures
            theme == light_theme(),
    {
        Theme {
            primary: Rgba::rgb(70, 130, 200),
            secondary: Rgba::rgb(100, 160, 220),
            accent: Rgba::rgb(255, 165, 0),
            success: Rgba::rgb(40, 180, 40),
            warning: Rgba::rgb(255, 165, 0),
            error: Rgba::rgb(220, 50, 50),
            info: Rgba::rgb(70, 130, 200),
            background: Rgba::rgb(248, 249, 250),
            surface: Rgba::rgb(255, 255, 255),
            panel: Rgba::rgb(245, 246, 247),
            text_primary: Rgba::rgb(33, 37, 41),
            text_secondary: Rgba::rgb(73, 80, 87),
            text_muted: Rgba::rgb(134, 142, 150),
            selection: Rgba::rgba(70, 130, 200, 80),
            highlight: Rgba::rgba(255, 165, 0, 60),
            hover: Rgba::rgba(70, 130, 200, 40),
            border: Rgba::rgb(206, 212, 218),
            separator: Rgba::rgb(233, 236, 239),
            age_recent: Rgba::rgb(40, 180, 40),
            age_moderate: Rgba::rgb(255, 193, 7),
            age_old: Rgba::rgb(220, 53, 69),
            size_small: Rgba::rgb(134, 142, 150),
            size_medium: Rgba::rgb(255, 165, 0),
            size_large: Rgba::rgb(220, 53, 69),
            font_small: 11,
            font_normal: 13,
            font_large: 16,
            font_heading: 20,
            spacing: 8,
            padding: 12,
            button_height: 32,
            row_height: 28,
            rounding: 4,
            stroke_width: 1,
        }
    }
}

impl Theme {
    /// The dark theme.
    pub fn dark() -> (theme: Theme)
        ensures
            theme == dark_theme(),
    {
        Theme {
            primary: Rgba::rgb(100, 160, 240),
            secondary: Rgba::rgb(130, 180, 250),
            accent: Rgba::rgb(255, 193, 7),
            success: Rgba::rgb(72, 207, 72),
            warning: Rgba::rgb(255, 193, 7),
            error: Rgba::rgb(248, 81, 73),
            info: Rgba::rgb(100, 160, 240),
            background: Rgba::rgb(32, 33, 36),
            surface: Rgba::rgb(45, 46, 49),
            panel: Rgba::rgb(40, 41, 44),
            text_primary: Rgba::rgb(255, 255, 255),
            text_secondary: Rgba::rgb(189, 193, 198),
            text_muted: Rgba::rgb(154, 160, 166),
            selection: Rgba::rgba(100, 160, 240, 80),
            highlight: Rgba::rgba(255, 193, 7, 60),
            hover: Rgba::rgba(100, 160, 240, 40),
            border: Rgba::rgb(95, 99, 104),
            separator: Rgba::rgb(60, 64, 67),
            age_recent: Rgba::rgb(72, 207, 72),
            age_moderate: Rgba::rgb(255, 193, 7),
            age_old: Rgba::rgb(248, 81, 73),
            size_small: Rgba::rgb(154, 160, 166),
            size_medium: Rgba::rgb(255, 193, 7),
            size_large: Rgba::rgb(248, 81, 73),
            ..Theme::default()
        }
    }

    /// The size of type of the class `size`, in points.
    pub open spec fn spec_font_size(self, size: FontSize) -> u16 {
        match size {
            FontSize::Small => self.font_small,
            FontSize::Normal => self.font_normal,
            FontSize::Large => self.font_large,
            FontSize::Heading => self.font_heading,
        }
    }

    /// The colour for an age of `days` days: recent up to thirty days,
    /// moderate up to ninety, old beyond.
    pub open spec fn spec_age_color(self, days: i64) -> Rgba {
        if days <= 30 {
            self.age_recent
        } else if days <= 90 {
            self.age_moderate
        } else {
            self.age_old
        }
    }

    /// The colour for a size of `bytes` bytes: large from a gibibyte on,
    /// middling from a hundred mebibytes on, small below.
    pub open spec fn spec_size_color(self, bytes: u64) -> Rgba {
        if bytes >= GB_1 {
            self.size_large
        } else if bytes >= MB_100 {
            self.size_medium
        } else {
            self.size_small
        }
    }

    /// The size of type of the class `size`, in points.
    pub fn font_id(&self, size: FontSize) -> (points: u16)
        ensures
            points == self.spec_font_size(size),
    {
        match size {
            FontSize::Small => self.font_small,
            FontSize::Normal => self.font_normal,
            FontSize::Large => self.font_large,
            FontSize::Heading => self.font_heading,
        }
    }

    /// The colour for an age of `days` days.
    pub fn get_age_color(&self, days: i64) -> (c: Rgba)
        ensures
            c == self.spec_age_color(days),
    {
        if days <= 30 {
            self.age_recent
        } else if days <= 90 {
            self.age_moderate
        } else {
            self.age_old
        }
    }

    /// The colour for a size of `bytes` bytes.
    pub fn get_size_color(&self, bytes: u64) -> (c: Rgba)
        ensures
            c == self.spec_size_color(bytes),
    {
        if bytes >= GB_1 {
            self.size_large
        } else if bytes >= MB_100 {
            self.size_medium
        } else {
            self.size_small
        }
    }

    /// The colour and width of borders.
    pub fn border_stroke(&self) -> (stroke: (u16, Rgba))
        ensures
            stroke == (self.stroke_width, self.border),
    {
        (self.stroke_width, self.border)
    }
}

/// The themes that come with the application.
pub struct ColorSchemes;

impl ColorSchemes {
    /// The light theme in blue.
    pub fn blue() -> (theme: Theme)
        ensures
            theme == light_theme(),
    {
        Theme::default()
    }

    /// The dark theme.
    pub fn dark() -> (theme: Theme)
        ensures
            theme == dark_theme(),
    {
        Theme::dark()
    }

    /// The light theme in green.
    pub fn green() -> (theme: Theme)
        ensures
            theme == green_theme(),
    {
        Theme {
            primary: Rgba::rgb(40, 167, 69),
            secondary: Rgba::rgb(72, 180, 97),
            accent: Rgba::rgb(255, 193, 7),
            selection: Rgba::rgba(40, 167, 69, 80),
            hover: Rgba::rgba(40, 167, 69, 40),
            ..Theme::default()
        }
    }

    /// The light theme in purple.
    pub fn purple() -> (theme: Theme)
        ensures
            theme == purple_theme(),
    {
        Theme {
            primary: Rgba::rgb(108, 117, 225),
            secondary: Rgba::rgb(130, 138, 235),
            accent: Rgba::rgb(255, 193, 7),
            selection: Rgba::rgba(108, 117, 225, 80),
            hover: Rgba::rgba(108, 117, 225, 40),
            ..Theme::default()
        }
    }

    /// The four themes differ in their main colour.
    pub proof fn law_schemes_differ()
        ensures
            light_theme().primary != dark_theme().primary,
            light_theme().primary != green_theme().primary,
            light_theme().primary != purple_theme().primary,
            green_theme().primary != purple_theme().primary,
            dark_theme().primary != green_theme().primary,
            dark_theme().primary != purple_theme().primary,
    {
    }
}

/// A colour of the terminal.
#[derive(Debug, Clone, Copy, PartialEq, Eq, Structural)]
pub enum TermColor {
    /// Cyan.
    Cyan,
    /// Yellow.
    Yellow,
    /// Green.
    Green,
    /// Red.
    Red,
    /// Grey.
    Gray,
    /// Blue.
    Blue,
    /// Magenta.
    Magenta,
}

/// The colours of the terminal front end.
pub struct Colors;

impl Colors {
    /// The main colour.
    pub const PRIMARY: TermColor = TermColor::Cyan;

    /// The second colour.
    pub const SECONDARY: TermColor = TermColor::Yellow;

    /// The colour of success.
    pub const SUCCESS: TermColor = TermColor::Green;

    /// The colour of warnings.
    pub const WARNING: TermColor = TermColor::Yellow;

    /// The colour of failures.
    pub const ERROR: TermColor = TermColor::Red;

    /// The colour of unimportant text.
    pub const MUTED: TermColor = TermColor::Gray;

    /// The colour of the row under the cursor.
    pub const SELECTED: TermColor = TermColor::Blue;

    /// The colour of highlights.
    pub const HIGHLIGHT: TermColor = TermColor::Magenta;
}

} // verus!
