//! What can happen to the interactive front end: keys, ticks, and the
//! results that background work reports.

use vstd::prelude::*;
use crate::error::VenvCleanerError;
use crate::outcome::DeletionResult;
use crate::venv_info::VenvInfo;

verus! {

/// The states of the interactive front end.
#[derive(Debug, Clone, Copy, PartialEq, Eq, Structural)]
pub enum AppState {
    /// A search is under way.
    Loading,
    /// The list of environments is shown.
    Browsing,
    /// The user is asked to confirm a removal.
    ConfirmingDeletion,
    /// A removal is under way.
    Deleting,
    /// A failure is shown.
    Error,
    /// The help screen is shown.
    Help,
    /// The front end has been left; nothing happens any more.
    Quit,
}

/// The key that was pressed.
#[derive(Debug, Clone, Copy, PartialEq, Eq, Structural)]
pub enum KeyCode {
    /// A character key.
    Char(char),
    /// Escape.
    Esc,
    /// Return.
    Enter,
    /// Arrow up.
    Up,
    /// Arrow down.
    Down,
    /// Home.
    Home,
    /// End.
    End,
    /// Page up.
    PageUp,
    /// Page down.
    PageDown,
    /// Delete.
    Delete,
    /// A function key, by its number.
    F(u8),
    /// Any other key.
    Other,
}

/// A key press: the key, and whether Control was held.
#[derive(Debug, Clone, Copy, PartialEq, Eq, Structural)]
pub struct KeyEvent {
    /// The key.
    pub code: KeyCode,
    /// Whether Control was held.
    pub control: bool,
}

impl KeyEvent {
    /// The press of `code`, with Control held or not.
    pub fn new(code: KeyCode, control: bool) -> (key: KeyEvent)
        ensures
            key == (KeyEvent { code, control }),
    {
        KeyEvent { code, control }
    }
}

/// One event of the front end's queue.
#[derive(Debug)]
pub enum AppEvent {
    /// A key was pressed.
    Input(KeyEvent),
    /// The tick interval has passed.
    Tick,
    /// A search has finished with these environments.
    VenvsLoaded(Vec<VenvInfo>),
    /// A search has failed, with this description.
    LoadError(String),
    /// A batch of removals has finished.
    DeletionComplete(Vec<DeletionResult>),
}

impl AppEvent {
    /// The one event that a finished search puts on the queue: the
    /// environments it found, or the description of its failure.
    pub fn from_search(result: Result<Vec<VenvInfo>, VenvCleanerError>) -> (event: AppEvent)
        ensures
            result matches Ok(entries) ==> event == AppEvent::VenvsLoaded(entries),
            result matches Err(e) ==> (event matches AppEvent::LoadError(text) && text@
                == e.description()),
    {
        match result {
            Ok(entries) => AppEvent::VenvsLoaded(entries),
            Err(e) => AppEvent::LoadError(e.to_string()),
        }
    }

    /// The event handed out when a tick is due: the queued event if there is
    /// one, and otherwise the tick.
    pub fn queued_or_tick(queued: Option<AppEvent>) -> (event: AppEvent)
        ensures
            queued matches Some(e) ==> event == e,
            queued is None ==> event is Tick,
    {
        match queued {
            Some(e) => e,
            None => AppEvent::Tick,
        }
    }
}

/// What the consumer of the queue does next.
#[derive(Debug, Clone, Copy, PartialEq, Eq, Structural)]
pub enum NextStep {
    /// A tick is due: hand out what is queued, or the tick if nothing is.
    QueuedOrTick,
    /// No tick is due: wait for the next event.
    Wait,
}

/// The clock of the event queue: it tells when a tick is due. Time is
/// counted in milliseconds from a start that the caller chooses.
#[derive(Debug, Clone, Copy, PartialEq, Eq, Structural)]
pub struct EventHandler {
    /// When the last tick was handed out.
    pub last_tick_ms: u64,
    /// The time from one tick to the next.
    pub tick_interval_ms: u64,
}

impl EventHandler {
    /// True when at least one interval has passed since the last tick. A
    /// clock that reads earlier than the last tick counts as no time passed.
    pub open spec fn spec_tick_due(self, now_ms: u64) -> bool {
        let elapsed: int = if now_ms >= self.last_tick_ms {
            now_ms - self.last_tick_ms
        } else {
            0
        };
        elapsed >= self.tick_interval_ms
    }

    /// A clock that ticks every `tick_interval_ms` milliseconds, started at
    /// `now_ms`.
    pub fn new(tick_interval_ms: u64, now_ms: u64) -> (handler: EventHandler)
        ensures
            handler == (EventHandler { last_tick_ms: now_ms, tick_interval_ms }),
    {
        EventHandler { last_tick_ms: now_ms, tick_interval_ms }
    }

    /// Whether a tick is due at `now_ms`.
    pub fn tick_due(&self, now_ms: u64) -> (due: bool)
        ensures
            due == self.spec_tick_due(now_ms),
    {
        let elapsed: u64 = if now_ms >= self.last_tick_ms {
            now_ms - self.last_tick_ms
        } else {
            0
        };
        elapsed >= self.tick_interval_ms
    }

    /// What a consumer that is willing to wait does at `now_ms`. When a tick
    /// is due the clock restarts and the consumer hands out what is queued,
    /// or the tick; otherwise it waits.
    pub fn next(&mut self, now_ms: u64) -> (step: NextStep)
        ensures
            old(self).spec_tick_due(now_ms) ==> step == NextStep::QueuedOrTick && *final(self) == (
            EventHandler { last_tick_ms: now_ms, ..*old(self) }),
            !old(self).spec_tick_due(now_ms) ==> step == NextStep::Wait && *final(self) == *old(self),
    {
        if self.tick_due(now_ms) {
            self.last_tick_ms = now_ms;
            NextStep::QueuedOrTick
        } else {
            NextStep::Wait
        }
    }

    /// What a consumer that does not wait gets at `now_ms` before it looks at
    /// the queue: a tick when one is due, and the clock restarts; otherwise
    /// nothing, and the queue is to be polled.
    pub fn try_next(&mut self, now_ms: u64) -> (event: Option<AppEvent>)
        ensures
            old(self).spec_tick_due(now_ms) ==> event == Some(AppEvent::Tick) && *final(self) == (
            EventHandler { last_tick_ms: now_ms, ..*old(self) }),
            !old(self).spec_tick_due(now_ms) ==> event is None && *final(self) == *old(self),
    {
        if self.tick_due(now_ms) {
            self.last_tick_ms = now_ms;
            Some(AppEvent::Tick)
        } else {
            None
        }
    }
}

/// The actions that keys are bound to.
#[derive(Debug, Clone, Copy, PartialEq, Eq, Structural)]
pub enum Shortcut {
    /// Leave the application.
    Quit,
    /// Show the help screen.
    Help,
    /// Search again.
    Refresh,
    /// Move the cursor up.
    Up,
    /// Move the cursor down.
    Down,
    /// Move the cursor to the first entry.
    Home,
    /// Move the cursor to the last entry.
    End,
    /// Move the cursor up by a page.
    PageUp,
    /// Move the cursor down by a page.
    PageDown,
    /// Mark or unmark the entry under the cursor.
    Toggle,
    /// Mark every entry.
    SelectAll,
    /// Unmark every entry.
    DeselectAll,
    /// Remove the marked entries.
    Delete,
    /// Change the sort order.
    Sort,
    /// Open the folder of the entry under the cursor.
    OpenFolder,
    /// Say yes.
    Confirm,
    /// Say no.
    Cancel,
}

/// What a key binding can tell about itself.
pub trait KeyboardShortcuts {
    /// True when `key` triggers the binding.
    spec fn is_triggered_by(&self, key: KeyEvent) -> bool;

    /// The keys of the binding as shown to the user.
    spec fn label(&self) -> Seq<char>;

    /// Whether `key` triggers the binding.
    fn matches_shortcut(&self, key: &KeyEvent) -> (r: bool)
        ensures
            r == self.is_triggered_by(*key),
    ;

    /// The keys of the binding as shown to the user.
    fn display_string(&self) -> (text: String)
        ensures
            text@ == self.label(),
    ;
}

impl KeyboardShortcuts for Shortcut {
    open spec fn is_triggered_by(&self, key: KeyEvent) -> bool {
        match *self {
            Shortcut::Quit => key.code == KeyCode::Char('q') || key.code == KeyCode::Esc,
            Shortcut::Help => key.code == KeyCode::Char('h') || key.code == KeyCode::F(1),
            Shortcut::Refresh => key.code == KeyCode::Char('r'),
            Shortcut::Up => key.code == KeyCode::Up,
            Shortcut::Down => key.code == KeyCode::Down,
            Shortcut::Home => key.code == KeyCode::Home,
            Shortcut::End => key.code == KeyCode::End,
            Shortcut::PageUp => key.code == KeyCode::PageUp,
            Shortcut::PageDown => key.code == KeyCode::PageDown,
            Shortcut::Toggle => key.code == KeyCode::Enter || key.code == KeyCode::Char(' '),
            Shortcut::SelectAll => key.code == KeyCode::Char('a') && key.control,
            Shortcut::DeselectAll => key.code == KeyCode::Char('d') && key.control,
            Shortcut::Delete => key.code == KeyCode::Delete || key.code == KeyCode::Char('x'),
            Shortcut::Sort => key.code == KeyCode::Char('s'),
            Shortcut::OpenFolder => key.code == KeyCode::Char('o'),
            Shortcut::Confirm => key.code == KeyCode::Char('y') || key.code == KeyCode::Enter,
            Shortcut::Cancel => key.code == KeyCode::Char('n') || key.code == KeyCode::Esc,
        }
    }

    open spec fn label(&self) -> Seq<char> {
        match *self {
            Shortcut::Quit => "q/Esc"@,
            Shortcut::Help => "h/F1"@,
            Shortcut::Refresh => "r"@,
            Shortcut::Up => "↑"@,
            Shortcut::Down => "↓"@,
            Shortcut::Home => "Home"@,
            Shortcut::End => "End"@,
            Shortcut::PageUp => "PgUp"@,
            Shortcut::PageDown => "PgDn"@,
            Shortcut::Toggle => "Space/Enter"@,
            Shortcut::SelectAll => "Ctrl+A"@,
            Shortcut::DeselectAll => "Ctrl+D"@,
            Shortcut::Delete => "Del/x"@,
            Shortcut::Sort => "s"@,
            Shortcut::OpenFolder => "o"@,
            Shortcut::Confirm => "y/Enter"@,
            Shortcut::Cancel => "n/Esc"@,
        }
    }

    fn matches_shortcut(&self, key: &KeyEvent) -> (r: bool) {
        match self {
            Shortcut::Quit => key.code == KeyCode::Char('q') || key.code == KeyCode::Esc,
            Shortcut::Help => key.code == KeyCode::Char('h') || key.code == KeyCode::F(1),
            Shortcut::Refresh => key.code == KeyCode::Char('r'),
            Shortcut::Up => key.code == KeyCode::Up,
            Shortcut::Down => key.code == KeyCode::Down,
            Shortcut::Home => key.code == KeyCode::Home,
            Shortcut::End => key.code == KeyCode::End,
            Shortcut::PageUp => key.code == KeyCode::PageUp,
            Shortcut::PageDown => key.code == KeyCode::PageDown,
            Shortcut::Toggle => key.code == KeyCode::Enter || key.code == KeyCode::Char(' '),
            Shortcut::SelectAll => key.code == KeyCode::Char('a') && key.control,
            Shortcut::DeselectAll => key.code == KeyCode::Char('d') && key.control,
            Shortcut::Delete => key.code == KeyCode::Delete || key.code == KeyCode::Char('x'),
            Shortcut::Sort => key.code == KeyCode::Char('s'),
            Shortcut::OpenFolder => key.code == KeyCode::Char('o'),
            Shortcut::Confirm => key.code == KeyCode::Char('y') || key.code == KeyCode::Enter,
            Shortcut::Cancel => key.code == KeyCode::Char('n') || key.code == KeyCode::Esc,
        }
    }

    fn display_string(&self) -> (text: String) {
        match self {
            Shortcut::Quit => String::from_str("q/Esc"),
            Shortcut::Help => String::from_str("h/F1"),
            Shortcut::Refresh => String::from_str("r"),
            Shortcut::Up => String::from_str("↑"),
            Shortcut::Down => String::from_str("↓"),
            Shortcut::Home => String::from_str("Home"),
            Shortcut::End => String::from_str("End"),
            Shortcut::PageUp => String::from_str("PgUp"),
            Shortcut::PageDown => String::from_str("PgDn"),
            Shortcut::Toggle => String::from_str("Space/Enter"),
            Shortcut::SelectAll => String::from_str("Ctrl+A"),
            Shortcut::DeselectAll => String::from_str("Ctrl+D"),
            Shortcut::Delete => String::from_str("Del/x"),
            Shortcut::Sort => String::from_str("s"),
            Shortcut::OpenFolder => String::from_str("o"),
            Shortcut::Confirm => String::from_str("y/Enter"),
            Shortcut::Cancel => String::from_str("n/Esc"),
        }
    }
}

/// The bindings that are in force in each state.
pub open spec fn shortcuts_for(state: AppState) -> Seq<Shortcut> {
    match state {
        AppState::Loading => seq![Shortcut::Quit],
        AppState::Browsing => seq![
            Shortcut::Quit,
            Shortcut::Help,
            Shortcut::Refresh,
            Shortcut::Up,
            Shortcut::Down,
            Shortcut::Home,
            Shortcut::End,
            Shortcut::PageUp,
            Shortcut::PageDown,
            Shortcut::Toggle,
            Shortcut::SelectAll,
            Shortcut::DeselectAll,
            Shortcut::Delete,
            Shortcut::Sort,
            Shortcut::OpenFolder,
        ],
        AppState::ConfirmingDeletion => seq![Shortcut::Confirm, Shortcut::Cancel],
        AppState::Deleting => seq![Shortcut::Quit],
        AppState::Error => seq![Shortcut::Quit, Shortcut::Cancel],
        AppState::Help => Seq::empty(),
        AppState::Quit => Seq::empty(),
    }
}

/// The bindings that are in force in `state`.
pub fn get_shortcuts_for_state(state: &AppState) -> (shortcuts: Vec<Shortcut>)
    ensures
        shortcuts@ == shortcuts_for(*state),
{
    let shortcuts = match state {
        AppState::Loading => vec![Shortcut::Quit],
        AppState::Browsing => vec![
            Shortcut::Quit,
            Shortcut::Help,
            Shortcut::Refresh,
            Shortcut::Up,
            Shortcut::Down,
            Shortcut::Home,
            Shortcut::End,
            Shortcut::PageUp,
            Shortcut::PageDown,
            Shortcut::Toggle,
            Shortcut::SelectAll,
            Shortcut::DeselectAll,
            Shortcut::Delete,
            Shortcut::Sort,
            Shortcut::OpenFolder,
        ],
        AppState::ConfirmingDeletion => vec![Shortcut::Confirm, Shortcut::Cancel],
        AppState::Deleting => vec![Shortcut::Quit],
        AppState::Error => vec![Shortcut::Quit, Shortcut::Cancel],
        AppState::Help => Vec::new(),
        AppState::Quit => Vec::new(),
    };
    assert(shortcuts@ =~= shortcuts_for(*state));
    shortcuts
}

} // verus!
