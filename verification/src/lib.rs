//! Finds, measures and removes Python virtual-environment directories.
//!
//! The library holds the rules and leaves the doing to its caller. The
//! caller walks the file system, watches the keyboard and draws; the library
//! is told what was seen and answers with what is found, how it is ordered,
//! what the front end shows next and what is to be removed.
//!
//! * [`walk`], [`scan`], [`file_utils`] and [`cleaner`]: searching a walk of
//!   a directory tree for environments, measuring them, and deciding whether
//!   one may be removed.
//! * [`venv_info`], [`timestamp`], [`size_text`], [`shorten`] and
//!   [`text_search`]: the record of an environment and how it is shown and
//!   searched.
//! * [`sort_key`], [`sorting`], [`sorting_laws`] and [`order_laws`]: the
//!   stable ordering of a list of environments and what holds of it, by
//!   sizes and times and by any attribute that compares totally.
//! * [`events`], [`tui_app`] and [`tui_mode`]: the state machine of the
//!   terminal front end.
//! * [`gui`], [`gui_app`], [`components`] and [`theme`]: the state and the
//!   vocabulary of the graphical front end.
//! * [`cli`] and [`outcome`]: the command line's settings, reports and
//!   tallies.
//! * [`error`]: what can go wrong.
//! * [`local_time`] and [`path_text`]: the calls whose answers are taken on
//!   trust: the clock and the local time zone, and the standard library's
//!   rules for paths. One more, the lower case of a text, is in
//!   [`text_search`].

pub mod cleaner;
pub mod cli;
pub mod components;
pub mod error;
pub mod events;
pub mod file_utils;
pub mod gui;
pub mod gui_app;
pub mod local_time;
pub mod order_laws;
pub mod outcome;
pub mod path_text;
pub mod scan;
pub mod shorten;
pub mod size_text;
pub mod sort_key;
pub mod sorting;
pub mod sorting_laws;
pub mod text_search;
pub mod theme;
pub mod timestamp;
pub mod tui_app;
pub mod tui_mode;
pub mod venv_info;
pub mod walk;
