//! The screens of the dashboard and what a key does on each of them.

use vstd::prelude::*;

verus! {

/// The screen that the dashboard shows.
#[derive(Debug, Clone, Copy, PartialEq, Eq, Structural)]
pub enum CurrentScreen {
    /// The alert levels of all repositories. The dashboard starts here.
    Overview,
    /// The list of repositories.
    ProjectList,
    /// The repository that was opened from the list.
    Project,
    /// The alerts of that repository.
    DependabotDetails,
    /// The question whether to fetch everything anew.
    Update,
    /// The wait while everything is fetched anew.
    Updating,
}

impl Default for CurrentScreen {
    fn default() -> (screen: Self)
        ensures
            screen == CurrentScreen::Overview,
    {
        CurrentScreen::Overview
    }
}

impl CurrentScreen {
    /// The two screens that show the repository that was opened.
    pub open spec fn shows_repository(self) -> bool {
        self == CurrentScreen::Project || self == CurrentScreen::DependabotDetails
    }
}

/// A key of the terminal, as far as the dashboard tells keys apart.
#[derive(Debug, Clone, Copy, PartialEq, Eq, Structural)]
pub enum Key {
    Up,
    Down,
    Enter,
    Tab,
    Char(char),
    /// Any other key.
    Other,
}

/// What a key asks of the dashboard.
#[derive(Debug, Clone, Copy, PartialEq, Eq, Structural)]
pub enum Effect {
    /// The key means nothing on this screen.
    Ignored,
    /// End the session.
    Quit,
    /// Show another screen.
    Show(CurrentScreen),
    /// Move the highlight of the repository list one step up.
    HighlightPrevious,
    /// Move the highlight of the repository list one step down.
    HighlightNext,
    /// Open the highlighted repository.
    OpenRepository,
    /// Scroll the alert details one line up.
    ScrollUp,
    /// Scroll the alert details one line down.
    ScrollDown,
    /// Scroll the alert details to the top.
    ScrollTop,
    /// Fetch everything anew.
    StartRefresh,
}

/// The table of the dashboard's keys: what `key` asks for on `screen`.
/// `q` ends the session from every screen; a key without an entry is ignored.
pub open spec fn key_effect(screen: CurrentScreen, key: Key) -> Effect {
    if key == Key::Char('q') {
        Effect::Quit
    } else {
        match screen {
            CurrentScreen::Overview => {
                if key == Key::Char('r') {
                    Effect::Show(CurrentScreen::ProjectList)
                } else if key == Key::Char('u') {
                    Effect::Show(CurrentScreen::Update)
                } else {
                    Effect::Ignored
                }
            },
            CurrentScreen::ProjectList => {
                if key == Key::Enter {
                    Effect::OpenRepository
                } else if key == Key::Up {
                    Effect::HighlightPrevious
                } else if key == Key::Down {
                    Effect::HighlightNext
                } else if key == Key::Char('o') {
                    Effect::Show(CurrentScreen::Overview)
                } else if key == Key::Char('u') {
                    Effect::Show(CurrentScreen::Update)
                } else {
                    Effect::Ignored
                }
            },
            CurrentScreen::Project => {
                if key == Key::Char('r') {
                    Effect::Show(CurrentScreen::ProjectList)
                } else if key == Key::Tab {
                    Effect::Show(CurrentScreen::DependabotDetails)
                } else {
                    Effect::Ignored
                }
            },
            CurrentScreen::DependabotDetails => {
                if key == Key::Up {
                    Effect::ScrollUp
                } else if key == Key::Down {
                    Effect::ScrollDown
                } else if key == Key::Tab {
                    Effect::Show(CurrentScreen::Project)
                } else if key == Key::Char('o') {
                    Effect::Show(CurrentScreen::Overview)
                } else if key == Key::Char('t') {
                    Effect::ScrollTop
                } else {
                    Effect::Ignored
                }
            },
            CurrentScreen::Update => {
                if key == Key::Char('y') {
                    Effect::StartRefresh
                } else if key == Key::Char('n') {
                    Effect::Show(CurrentScreen::ProjectList)
                } else {
                    Effect::Ignored
                }
            },
            CurrentScreen::Updating => Effect::Ignored,
        }
    }
}

/// Looks `key` up in the table of the dashboard's keys.
pub fn effect_of_key(screen: CurrentScreen, key: Key) -> (effect: Effect)
    ensures
        effect == key_effect(screen, key),
{
    match key {
        Key::Char('q') => Effect::Quit,
        _ => match screen {
            CurrentScreen::Overview => match key {
                Key::Char('r') => Effect::Show(CurrentScreen::ProjectList),
                Key::Char('u') => Effect::Show(CurrentScreen::Update),
                _ => Effect::Ignored,
            },
            CurrentScreen::ProjectList => match key {
                Key::Enter => Effect::OpenRepository,
                Key::Up => Effect::HighlightPrevious,
                Key::Down => Effect::HighlightNext,
                Key::Char('o') => Effect::Show(CurrentScreen::Overview),
                Key::Char('u') => Effect::Show(CurrentScreen::Update),
                _ => Effect::Ignored,
            },
            CurrentScreen::Project => match key {
                Key::Char('r') => Effect::Show(CurrentScreen::ProjectList),
                Key::Tab => Effect::Show(CurrentScreen::DependabotDetails),
                _ => Effect::Ignored,
            },
            CurrentScreen::DependabotDetails => match key {
                Key::Up => Effect::ScrollUp,
                Key::Down => Effect::ScrollDown,
                Key::Tab => Effect::Show(CurrentScreen::Project),
                Key::Char('o') => Effect::Show(CurrentScreen::Overview),
                Key::Char('t') => Effect::ScrollTop,
                _ => Effect::Ignored,
            },
            CurrentScreen::Update => match key {
                Key::Char('y') => Effect::StartRefresh,
                Key::Char('n') => Effect::Show(CurrentScreen::ProjectList),
                _ => Effect::Ignored,
            },
            CurrentScreen::Updating => Effect::Ignored,
        },
    }
}

/// A refresh can be asked for on one screen only: the one that asks the question.
pub proof fn lemma_refresh_starts_from_update_only(screen: CurrentScreen, key: Key)
    requires
        key_effect(screen, key) == Effect::StartRefresh,
    ensures
        screen == CurrentScreen::Update,
        key == Key::Char('y'),
{
}

/// No key leads to the waiting screen, and none leads away from it.
pub proof fn lemma_keys_leave_updating_alone(screen: CurrentScreen, key: Key)
    ensures
        key_effect(screen, key) != Effect::Show(CurrentScreen::Updating),
        screen == CurrentScreen::Updating ==> key_effect(screen, key) == Effect::Ignored
            || key_effect(screen, key) == Effect::Quit,
{
}

} // verus!
