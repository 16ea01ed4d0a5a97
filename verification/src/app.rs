//! The session: what the dashboard shows, and how keys and the refresh worker
//! change it.

use crate::current_screen::{effect_of_key, key_effect, CurrentScreen, Effect, Key};
use crate::dependabot::{alert_lines, alerts_text, line_texts, LINES_PER_ALERT};
use crate::refresh::{poll_channel, PollView, RefreshPoll, RefreshResult, RefreshStep};
use crate::repository::{Repository, RepositoryView};
use crate::repository_list::{
    first_cursor,
    next_cursor,
    previous_cursor,
    repository_views,
    RepositoryList,
    RepositoryListView,
};
use crate::scrollbar::{DependabotScrollbar, ScrollView};
use crate::widget_state::{list_offset, throbber_index, throbber_state_default};
use std::sync::mpsc::Receiver;
use throbber_widgets_tui::ThrobberState;
use vstd::prelude::*;

verus! {

/// The state of one session of the dashboard.
pub struct App {
    /// A copy of the repository that was opened from the list.
    pub current_repository: Option<Repository>,
    /// The time at which the snapshot of the repositories was last written.
    pub last_updated: String,
    /// All repositories.
    pub repositories: RepositoryList,
    /// The screen that is shown.
    pub current_screen: CurrentScreen,
    /// The access token for the provider.
    pub token: String,
    /// The user whose repositories are shown.
    pub username: String,
    /// The animation of the busy indicator.
    pub spinner_state: ThrobberState,
    /// The channel on which the refresh worker will send its result, while one is at work.
    pub fetching: Option<Receiver<RefreshResult>>,
    /// The scrollbar of the alert details.
    pub scrollbar: DependabotScrollbar,
    /// The height of the alert details when they were last drawn.
    pub chunk_height: u16,
    /// The message of the last error.
    pub error: Option<String>,
}

/// What the session asks of the loop that drives it.
#[derive(Debug)]
pub enum Action {
    /// Go on: draw and read the next key.
    Continue,
    /// End the session.
    Quit,
    /// Start a worker that fetches everything anew with these credentials,
    /// and hand its channel to `App::begin_refresh`.
    BeginRefresh { username: String, token: String },
}

/// What a request of the session says, with texts as values.
pub enum ActionView {
    Continue,
    Quit,
    BeginRefresh { username: Seq<char>, token: Seq<char> },
}

impl View for Action {
    type V = ActionView;

    open spec fn view(&self) -> ActionView {
        match self {
            Action::Continue => ActionView::Continue,
            Action::Quit => ActionView::Quit,
            Action::BeginRefresh { username, token } => ActionView::BeginRefresh {
                username: username@,
                token: token@,
            },
        }
    }
}

/// What a session holds.
pub struct SessionView {
    pub current_repository: Option<RepositoryView>,
    pub last_updated: Seq<char>,
    pub repositories: RepositoryListView,
    pub current_screen: CurrentScreen,
    pub token: Seq<char>,
    pub username: Seq<char>,
    /// The symbol index of the busy indicator.
    pub spinner: i8,
    /// Whether a refresh worker is at work.
    pub refreshing: bool,
    pub scrollbar: ScrollView,
    pub chunk_height: u16,
    pub error: Option<Seq<char>>,
}

/// The message of the error that ends the session when the worker is lost.
pub open spec fn worker_lost_message() -> Seq<char> {
    "Fetch thread terminated unexpectedly"@
}

/// The length of the scrollbar for a repository with `total` open alerts, before
/// the details are drawn: one block of lines per alert, as far as the machine
/// can count.
pub open spec fn detail_extent(total: usize) -> nat {
    if total * LINES_PER_ALERT <= usize::MAX {
        (total * LINES_PER_ALERT) as nat
    } else {
        usize::MAX as nat
    }
}

/// The index of the busy indicator one tick later. It stops at the largest
/// index; drawing the indicator brings it back into the range of its symbols.
pub open spec fn ticked(spinner: i8) -> i8 {
    if spinner == i8::MAX {
        i8::MAX
    } else {
        (spinner + 1) as i8
    }
}

impl SessionView {
    /// What holds of every session, whatever keys and results it has seen: a
    /// worker is at work on the waiting screen only, the screens of a
    /// repository show a copy of the highlighted repository, the highlight
    /// fits the list, and the scroll position is in range.
    pub open spec fn consistent(self) -> bool {
        &&& self.refreshing ==> self.current_screen == CurrentScreen::Updating
        &&& self.current_screen.shows_repository() ==> self.current_repository is Some
            && self.current_repository == self.repositories.current()
        &&& self.repositories.valid()
        &&& self.scrollbar.valid()
    }

    /// The session after a key.
    pub open spec fn after_key(self, key: Key) -> SessionView {
        match key_effect(self.current_screen, key) {
            Effect::Ignored => self,
            Effect::Quit => self,
            Effect::StartRefresh => self,
            Effect::Show(screen) => SessionView { current_screen: screen, ..self },
            Effect::HighlightPrevious => SessionView {
                repositories: RepositoryListView {
                    cursor: previous_cursor(
                        self.repositories.cursor,
                        self.repositories.repos.len(),
                    ),
                    ..self.repositories
                },
                ..self
            },
            Effect::HighlightNext => SessionView {
                repositories: RepositoryListView {
                    cursor: next_cursor(self.repositories.cursor, self.repositories.repos.len()),
                    ..self.repositories
                },
                ..self
            },
            Effect::OpenRepository => match self.repositories.current() {
                Some(repository) => SessionView {
                    current_repository: Some(repository),
                    current_screen: CurrentScreen::Project,
                    scrollbar: ScrollView {
                        position: 0,
                        length: detail_extent(repository.total_active_alerts),
                    },
                    ..self
                },
                None => self,
            },
            Effect::ScrollUp => SessionView { scrollbar: self.scrollbar.scrolled_up(), ..self },
            Effect::ScrollDown => SessionView { scrollbar: self.scrollbar.scrolled_down(), ..self },
            Effect::ScrollTop => SessionView {
                scrollbar: ScrollView { position: 0, length: self.scrollbar.length },
                ..self
            },
        }
    }

    /// What the session asks of its loop after a key.
    pub open spec fn action_after_key(self, key: Key) -> ActionView {
        match key_effect(self.current_screen, key) {
            Effect::Quit => ActionView::Quit,
            Effect::StartRefresh => ActionView::BeginRefresh {
                username: self.username,
                token: self.token,
            },
            _ => ActionView::Continue,
        }
    }

    /// The session once a worker has been started for it.
    pub open spec fn refresh_begun(self) -> SessionView {
        SessionView { current_screen: CurrentScreen::Updating, refreshing: true, ..self }
    }

    /// The session after a look into the channel that found `poll`.
    /// While no worker is at work, nothing that is found changes anything.
    pub open spec fn after_poll(self, poll: PollView) -> SessionView {
        if !self.refreshing {
            self
        } else {
            match poll {
                PollView::Loaded(list) => SessionView {
                    repositories: RepositoryListView {
                        repos: list.repos,
                        cursor: first_cursor(list.repos.len()),
                    },
                    refreshing: false,
                    current_screen: CurrentScreen::Overview,
                    ..self
                },
                PollView::Failed(message) => SessionView {
                    error: Some(message),
                    refreshing: false,
                    current_screen: CurrentScreen::Overview,
                    ..self
                },
                PollView::Pending => SessionView { spinner: ticked(self.spinner), ..self },
                PollView::Lost => SessionView { error: Some(worker_lost_message()), ..self },
            }
        }
    }

    /// What the session did with a look into the channel that found `poll`.
    pub open spec fn step_after_poll(self, poll: PollView) -> RefreshStep {
        if !self.refreshing {
            RefreshStep::Idle
        } else {
            match poll {
                PollView::Loaded(_) => RefreshStep::Adopted,
                PollView::Failed(_) => RefreshStep::Failed,
                PollView::Pending => RefreshStep::Waiting,
                PollView::Lost => RefreshStep::Lost,
            }
        }
    }

    /// The session after the alert details were laid out with `lines` lines
    /// in a viewport of `height` lines: the scrollbar is sized anew where the
    /// height is not the one that was seen last.
    pub open spec fn after_layout(self, lines: usize, height: u16) -> SessionView {
        SessionView {
            scrollbar: if self.chunk_height != height {
                ScrollView::sized(lines as nat, height as nat)
            } else {
                self.scrollbar
            },
            chunk_height: height,
            ..self
        }
    }
}

/// The text of an optional message.
pub open spec fn optional_text(text: Option<String>) -> Option<Seq<char>> {
    match text {
        Some(t) => Some(t@),
        None => None,
    }
}

/// The view of an optional repository.
pub open spec fn optional_repository(repository: Option<Repository>) -> Option<RepositoryView> {
    match repository {
        Some(r) => Some(r@),
        None => None,
    }
}

impl View for App {
    type V = SessionView;

    open spec fn view(&self) -> SessionView {
        SessionView {
            current_repository: optional_repository(self.current_repository),
            last_updated: self.last_updated@,
            repositories: self.repositories@,
            current_screen: self.current_screen,
            token: self.token@,
            username: self.username@,
            spinner: throbber_index(self.spinner_state),
            refreshing: self.fetching is Some,
            scrollbar: self.scrollbar@,
            chunk_height: self.chunk_height,
            error: optional_text(self.error),
        }
    }
}

impl App {
    /// The widgets are drawn with what the session holds: the list widget
    /// highlights the highlighted repository, and the scrollbar widget stands
    /// at the scroll position. Every step of the session keeps this so; only
    /// a renderer that changes the widget states itself can end it.
    pub open spec fn widgets_follow(&self) -> bool {
        &&& self.repositories.widget_follows(list_offset(self.repositories.widget_state()))
        &&& self.scrollbar.widget_follows()
    }

    /// A session over the given repositories: the overview is shown, the first
    /// repository is highlighted, and no refresh is under way.
    pub fn new(repositories: Vec<Repository>, token: String, username: String) -> (app: App)
        ensures
            app@ == (SessionView {
                current_repository: None,
                last_updated: Seq::empty(),
                repositories: RepositoryListView {
                    repos: repository_views(repositories@),
                    cursor: first_cursor(repositories@.len()),
                },
                current_screen: CurrentScreen::Overview,
                token: token@,
                username: username@,
                spinner: 0,
                refreshing: false,
                scrollbar: ScrollView { position: 0, length: 0 },
                chunk_height: 0,
                error: None,
            }),
            app@.consistent(),
            app.widgets_follow(),
            app.repositories.spec_repos() == repositories@,
    {
        App {
            current_repository: None,
            last_updated: String::new(),
            repositories: RepositoryList::with_respositories(repositories),
            current_screen: CurrentScreen::Overview,
            token,
            username,
            spinner_state: throbber_state_default(),
            fetching: None,
            scrollbar: DependabotScrollbar::default(),
            chunk_height: 0,
            error: None,
        }
    }

    /// A session over what was read from the snapshot. Where nothing could
    /// be read, the session starts without repositories.
    pub fn from_snapshot(
        snapshot: Option<Vec<Repository>>,
        token: String,
        username: String,
    ) -> (app: App)
        ensures
            app@.consistent(),
            app.widgets_follow(),
            app@.current_screen == CurrentScreen::Overview,
            app@.current_repository is None,
            app@.last_updated == Seq::<char>::empty(),
            !app@.refreshing,
            app@.error is None,
            app@.token == token@,
            app@.username == username@,
            app@.spinner == 0,
            app@.chunk_height == 0,
            app@.scrollbar == (ScrollView { position: 0, length: 0 }),
            match snapshot {
                Some(repositories) => app.repositories.spec_repos() == repositories@
                    && app@.repositories.cursor == first_cursor(repositories@.len()),
                None => app.repositories.spec_repos().len() == 0 && app@.repositories.cursor
                    is None,
            },
    {
        match snapshot {
            Some(repositories) => App::new(repositories, token, username),
            None => App::new(Vec::new(), token, username),
        }
    }

    /// Moves the busy indicator on by one tick.
    pub fn on_tick(&mut self)
        ensures
            final(self)@ == (SessionView { spinner: ticked(old(self)@.spinner), ..old(self)@ }),
            final(self).fetching == old(self).fetching,
            final(self).repositories == old(self).repositories,
            final(self).scrollbar == old(self).scrollbar,
    {
        self.spinner_state.calc_next();
    }

    /// Handles one key: looks it up in the table of keys for the screen that
    /// is shown, changes the session accordingly, and says what the loop is
    /// to do next.
    pub fn handle_key(&mut self, key: Key) -> (action: Action)
        ensures
            final(self)@ == old(self)@.after_key(key),
            action@ == old(self)@.action_after_key(key),
            final(self).fetching == old(self).fetching,
            old(self)@.consistent() ==> final(self)@.consistent(),
            old(self).widgets_follow() ==> final(self).widgets_follow(),
    {
        let action = match effect_of_key(self.current_screen, key) {
            Effect::Ignored => Action::Continue,
            Effect::Quit => Action::Quit,
            Effect::StartRefresh => Action::BeginRefresh {
                username: self.username.clone(),
                token: self.token.clone(),
            },
            Effect::Show(screen) => {
                self.current_screen = screen;
                Action::Continue
            },
            Effect::HighlightPrevious => {
                self.repositories.previous();
                Action::Continue
            },
            Effect::HighlightNext => {
                self.repositories.next();
                Action::Continue
            },
            Effect::OpenRepository => {
                let opened = match self.repositories.get_selected_repository() {
                    Some(repository) => Some(repository.clone()),
                    None => None,
                };
                match opened {
                    Some(repository) => {
                        let total = repository.total_active_alerts;
                        let extent = if total <= usize::MAX / LINES_PER_ALERT {
                            total * LINES_PER_ALERT
                        } else {
                            usize::MAX
                        };
                        self.scrollbar = DependabotScrollbar::new(extent);
                        self.current_repository = Some(repository);
                        self.current_screen = CurrentScreen::Project;
                    },
                    None => {},
                }
                Action::Continue
            },
            Effect::ScrollUp => {
                self.scrollbar.scroll_up();
                Action::Continue
            },
            Effect::ScrollDown => {
                self.scrollbar.scroll_down();
                Action::Continue
            },
            Effect::ScrollTop => {
                self.scrollbar.top();
                Action::Continue
            },
        };
        proof {
            if old(self)@.consistent() {
                lemma_keys_preserve_consistency(old(self)@, key);
            }
        }
        action
    }

    /// Takes the channel of the worker that was started after
    /// `Action::BeginRefresh`, and shows the waiting screen.
    pub fn begin_refresh(&mut self, receiver: Receiver<RefreshResult>)
        requires
            old(self).current_screen == CurrentScreen::Update,
            old(self).fetching is None,
        ensures
            final(self)@ == old(self)@.refresh_begun(),
            final(self).fetching == Some(receiver),
            old(self)@.consistent() ==> final(self)@.consistent(),
            old(self).widgets_follow() ==> final(self).widgets_follow(),
    {
        self.current_screen = CurrentScreen::Updating;
        self.fetching = Some(receiver);
    }

    /// Changes the session by what a look into the channel found.
    pub fn apply_poll(&mut self, outcome: RefreshPoll) -> (step: RefreshStep)
        ensures
            final(self)@ == old(self)@.after_poll(outcome@),
            step == old(self)@.step_after_poll(outcome@),
            old(self).fetching is None ==> final(self).fetching is None,
            outcome@ is Pending || outcome@ is Lost ==> final(self).fetching == old(self).fetching,
            old(self)@.consistent() ==> final(self)@.consistent(),
            old(self).widgets_follow() ==> final(self).widgets_follow(),
    {
        if self.fetching.is_none() {
            return RefreshStep::Idle;
        }
        match outcome {
            RefreshPoll::Ready(Ok(list)) => {
                self.repositories = list;
                self.repositories.select_first();
                self.fetching = None;
                self.current_screen = CurrentScreen::Overview;
                RefreshStep::Adopted
            },
            RefreshPoll::Ready(Err(message)) => {
                self.error = Some(message);
                self.fetching = None;
                self.current_screen = CurrentScreen::Overview;
                RefreshStep::Failed
            },
            RefreshPoll::Pending => {
                self.on_tick();
                RefreshStep::Waiting
            },
            RefreshPoll::Lost => {
                self.error = Some(String::from_str("Fetch thread terminated unexpectedly"));
                RefreshStep::Lost
            },
        }
    }

    /// Looks into the channel of the refresh worker, if one is at work, and
    /// changes the session by what is found there.
    pub fn poll_refresh(&mut self) -> (step: RefreshStep)
        ensures
            exists|found: PollView|
                final(self)@ == #[trigger] old(self)@.after_poll(found) && step == old(
                    self,
                )@.step_after_poll(found),
            old(self).fetching is None ==> step == RefreshStep::Idle && final(self)@ == old(
                self,
            )@,
            old(self)@.consistent() ==> final(self)@.consistent(),
            old(self).widgets_follow() ==> final(self).widgets_follow(),
    {
        let outcome = match &self.fetching {
            Some(receiver) => poll_channel(receiver),
            None => RefreshPoll::Pending,
        };
        let ghost found = outcome@;
        let step = self.apply_poll(outcome);
        assert(self@ == old(self)@.after_poll(found));
        step
    }

    /// The text of the alerts of the repository that was opened, one block of
    /// lines per alert.
    pub fn detail_lines(&self) -> (lines: Vec<String>)
        requires
            self.current_repository is Some,
        ensures
            line_texts(lines@) == alert_lines(self@.current_repository->Some_0.dependabots),
            lines@.len() == self@.current_repository->Some_0.dependabots.len() * LINES_PER_ALERT,
    {
        match &self.current_repository {
            Some(repository) => alerts_text(&repository.dependabots),
            None => Vec::new(),
        }
    }

    /// Records the layout of the alert details: `lines` lines of text in a
    /// viewport of `height` lines. The scrollbar is sized anew where the
    /// height is not the one that was seen last.
    pub fn observe_viewport(&mut self, lines: usize, height: u16)
        ensures
            final(self)@ == old(self)@.after_layout(lines, height),
            final(self).fetching == old(self).fetching,
            old(self)@.consistent() ==> final(self)@.consistent(),
            old(self).widgets_follow() ==> final(self).widgets_follow(),
    {
        if self.chunk_height != height {
            self.scrollbar.resize(lines, height as usize);
        }
        self.chunk_height = height;
    }
}

/// The text that names what is shown: the screen, or on the screens of a
/// repository the name of the highlighted repository.
pub open spec fn navigation_text(session: SessionView) -> Seq<char> {
    match session.current_screen {
        CurrentScreen::Overview => "Overview"@,
        CurrentScreen::ProjectList => "Repository List"@,
        CurrentScreen::Project | CurrentScreen::DependabotDetails => {
            match session.repositories.current() {
                Some(repository) => repository.name@,
                None => "Repository"@,
            }
        },
        CurrentScreen::Update | CurrentScreen::Updating => "Updating"@,
    }
}

/// The keys of the overview.
pub const OVERVIEW_KEYS: &'static str =
    "(r) to view repositories / (u) to update repositories / (q) to quit";

/// The keys of the repository list.
pub const PROJECT_LIST_KEYS: &'static str =
    "(↑/↓) to navigate / (enter) to view repository / (q) to quit / (o) to view overview / (u) to update repositories";

/// The keys of the question whether to refresh, and of the wait that follows it.
pub const UPDATE_KEYS: &'static str = "(y/n) to confirm update";

/// The keys of the screen of one repository.
pub const PROJECT_KEYS: &'static str =
    "(q) to quit / (o) to view overview / (r) to view repositories / (tab) to switch tabs";

/// The keys of the alert details.
pub const DETAILS_KEYS: &'static str =
    "(↑/↓) to navigate / (q) to quit / (r) to view repositories / (tab) to switch tabs";

/// The keys that mean something on a screen, as a line of text.
pub open spec fn key_hint(screen: CurrentScreen) -> Seq<char> {
    match screen {
        CurrentScreen::Overview => OVERVIEW_KEYS@,
        CurrentScreen::ProjectList => PROJECT_LIST_KEYS@,
        CurrentScreen::Update | CurrentScreen::Updating => UPDATE_KEYS@,
        CurrentScreen::Project => PROJECT_KEYS@,
        CurrentScreen::DependabotDetails => DETAILS_KEYS@,
    }
}

/// The line of key hints for the screen that is shown.
pub fn get_key_hint_text(app: &App) -> (text: &'static str)
    ensures
        text@ == key_hint(app.current_screen),
{
    match app.current_screen {
        CurrentScreen::Overview => OVERVIEW_KEYS,
        CurrentScreen::ProjectList => PROJECT_LIST_KEYS,
        CurrentScreen::Update => UPDATE_KEYS,
        CurrentScreen::Updating => UPDATE_KEYS,
        CurrentScreen::Project => PROJECT_KEYS,
        CurrentScreen::DependabotDetails => DETAILS_KEYS,
    }
}

/// The text that names what is shown. On the alert details this is the name
/// of the highlighted repository, so there has to be one.
pub fn get_navigation_text(app: &App) -> (text: String)
    requires
        app.current_screen == CurrentScreen::DependabotDetails ==> app@.repositories.cursor
            is Some,
    ensures
        text@ == navigation_text(app@),
{
    match app.current_screen {
        CurrentScreen::Overview => String::from_str("Overview"),
        CurrentScreen::ProjectList => String::from_str("Repository List"),
        CurrentScreen::Project | CurrentScreen::DependabotDetails => {
            match app.repositories.get_selected_repository() {
                Some(repository) => repository.name.clone(),
                None => String::from_str("Repository"),
            }
        },
        CurrentScreen::Update | CurrentScreen::Updating => String::from_str("Updating"),
    }
}

/// How many of the given looks into the channel, taken one after the other,
/// find a result that the session takes: a new list or a failure.
pub open spec fn results_taken(session: SessionView, polls: Seq<PollView>) -> nat
    decreases polls.len(),
{
    if polls.len() == 0 {
        0
    } else {
        let taken: nat = match session.step_after_poll(polls[0]) {
            RefreshStep::Adopted => 1,
            RefreshStep::Failed => 1,
            _ => 0,
        };
        taken + results_taken(session.after_poll(polls[0]), polls.skip(1))
    }
}

/// Once the session has taken the result of a refresh, the worker's channel is
/// let go: whatever a later look would find, it changes nothing and reports
/// that no refresh is under way.
pub proof fn lemma_result_is_taken_once(session: SessionView, first: PollView, second: PollView)
    requires
        first is Loaded || first is Failed,
    ensures
        !session.after_poll(first).refreshing,
        session.after_poll(first).after_poll(second) == session.after_poll(first),
        session.after_poll(first).step_after_poll(second) == RefreshStep::Idle,
{
}

/// While no refresh is under way, no look into the channel yields a result.
pub proof fn lemma_no_result_without_refresh(session: SessionView, polls: Seq<PollView>)
    requires
        !session.refreshing,
    ensures
        results_taken(session, polls) == 0,
    decreases polls.len(),
{
    if polls.len() > 0 {
        lemma_no_result_without_refresh(session.after_poll(polls[0]), polls.skip(1));
    }
}

/// However often the channel is looked into, and whatever is found there, the
/// session takes at most one result for one refresh.
pub proof fn lemma_at_most_one_result(session: SessionView, polls: Seq<PollView>)
    ensures
        results_taken(session, polls) <= 1,
    decreases polls.len(),
{
    if polls.len() > 0 {
        let next = session.after_poll(polls[0]);
        if next.refreshing {
            lemma_at_most_one_result(next, polls.skip(1));
        } else {
            lemma_no_result_without_refresh(next, polls.skip(1));
        }
    }
}

/// A refresh that fails leaves the repositories and their highlight as they
/// were, records the message, and shows the overview.
pub proof fn lemma_failure_keeps_the_list(session: SessionView, message: Seq<char>)
    requires
        session.refreshing,
    ensures
        session.after_poll(PollView::Failed(message)).repositories == session.repositories,
        session.after_poll(PollView::Failed(message)).error == Some(message),
        session.after_poll(PollView::Failed(message)).current_screen == CurrentScreen::Overview,
{
}

/// A refresh that fails with a message shows a message: the error of the
/// session is then not empty, the overview is shown, and the repositories and
/// their highlight are as they were.
pub proof fn lemma_failure_is_shown(session: SessionView, message: Seq<char>)
    requires
        session.refreshing,
        message.len() > 0,
    ensures
        session.after_poll(PollView::Failed(message)).error matches Some(text) && text.len() > 0,
        session.after_poll(PollView::Failed(message)).current_screen == CurrentScreen::Overview,
        session.after_poll(PollView::Failed(message)).repositories == session.repositories,
        !session.after_poll(PollView::Failed(message)).refreshing,
{
}

/// A refresh that succeeds replaces the repositories and puts the highlight on
/// the first of them, whatever was highlighted before and in what was sent.
pub proof fn lemma_success_resets_the_highlight(session: SessionView, list: RepositoryListView)
    requires
        session.refreshing,
    ensures
        session.after_poll(PollView::Loaded(list)).repositories.repos == list.repos,
        session.after_poll(PollView::Loaded(list)).repositories.cursor == first_cursor(
            list.repos.len(),
        ),
        session.after_poll(PollView::Loaded(list)).current_screen == CurrentScreen::Overview,
{
}

/// Whatever a look into the channel finds, a consistent session stays consistent.
pub proof fn lemma_polls_preserve_consistency(session: SessionView, poll: PollView)
    requires
        session.consistent(),
    ensures
        session.after_poll(poll).consistent(),
{
}

/// A refresh that begins on the screen that asks for it keeps the session
/// consistent; and on that screen no other refresh is under way.
pub proof fn lemma_refresh_begins_consistently(session: SessionView)
    requires
        session.consistent(),
        session.current_screen == CurrentScreen::Update,
    ensures
        !session.refreshing,
        session.refresh_begun().consistent(),
{
}

/// Laying out the alert details keeps a consistent session consistent.
pub proof fn lemma_layout_preserves_consistency(session: SessionView, lines: usize, height: u16)
    requires
        session.consistent(),
    ensures
        session.after_layout(lines, height).consistent(),
{
}

/// On an empty list there is nothing to open: the key that opens a repository
/// changes nothing.
pub proof fn lemma_nothing_to_open_in_empty_list(session: SessionView)
    requires
        session.current_screen == CurrentScreen::ProjectList,
        session.repositories.repos.len() == 0,
        session.repositories.valid(),
    ensures
        session.after_key(Key::Enter) == session,
{
}

/// A key keeps a consistent session consistent.
pub proof fn lemma_keys_preserve_consistency(session: SessionView, key: Key)
    requires
        session.consistent(),
    ensures
        session.after_key(key).consistent(),
{
    crate::current_screen::lemma_keys_leave_updating_alone(session.current_screen, key);
}

} // verus!
