use dependabot_tracker::app::{get_key_hint_text, get_navigation_text, Action, App};
use dependabot_tracker::current_screen::{effect_of_key, CurrentScreen, Effect, Key};
use dependabot_tracker::dependabot::{Dependabot, DependabotSeverity, DependabotState};
use dependabot_tracker::refresh::{RefreshPoll, RefreshResult, RefreshStep, POLL_INTERVAL_MS};
use dependabot_tracker::repository::{GitHubRepository, Repository};
use dependabot_tracker::repository_list::RepositoryList;
use ratatui::widgets::ScrollbarState;
use std::sync::mpsc;

fn alert(number: u32, state: DependabotState) -> Dependabot {
    Dependabot {
        number,
        state,
        severity: DependabotSeverity::High,
        html_url: format!("https://example.test/alerts/{}", number),
        created_at: "2024-01-02T03:04:05Z".to_string(),
        updated_at: "2024-02-03T04:05:06Z".to_string(),
        dismissed_at: None,
        dependency_ecosystem: "pip".to_string(),
        dependency_name: format!("module-{}", number),
    }
}

fn repository(id: u32, name: &str, open: u32, fixed: u32) -> Repository {
    let listed = GitHubRepository {
        id,
        name: name.to_string(),
        full_name: format!("octo/{}", name),
        private: false,
        html_url: format!("https://example.test/octo/{}", name),
        archived: false,
    };
    let mut alerts = Vec::new();
    for n in 0..open {
        alerts.push(alert(n + 1, DependabotState::Open));
    }
    for n in 0..fixed {
        alerts.push(alert(open + n + 1, DependabotState::Fixed));
    }
    Repository::with_alerts(&listed, alerts)
}

fn three_repositories() -> Vec<Repository> {
    vec![repository(1, "first", 2, 0), repository(2, "second", 0, 0), repository(3, "third", 5, 1)]
}

fn session(repositories: Vec<Repository>) -> App {
    App::new(repositories, "token-value".to_string(), "octo".to_string())
}

fn press(app: &mut App, keys: &[Key]) {
    for key in keys {
        assert!(matches!(app.handle_key(*key), Action::Continue));
    }
}

fn names(app: &App) -> Vec<String> {
    app.repositories.repos().iter().map(|r| r.name.clone()).collect()
}

fn start_refresh(app: &mut App) -> mpsc::Sender<RefreshResult> {
    press(app, &[Key::Char('u')]);
    assert_eq!(app.current_screen, CurrentScreen::Update);
    match app.handle_key(Key::Char('y')) {
        Action::BeginRefresh { username, token } => {
            assert_eq!(username, "octo");
            assert_eq!(token, "token-value");
        }
        other => panic!("expected a refresh to begin, got {:?}", other),
    }
    assert_eq!(app.current_screen, CurrentScreen::Update);
    assert!(app.fetching.is_none());
    let (sender, receiver) = mpsc::channel();
    app.begin_refresh(receiver);
    assert_eq!(app.current_screen, CurrentScreen::Updating);
    assert!(app.fetching.is_some());
    sender
}

#[test]
fn new_session_shows_the_overview() {
    let app = session(three_repositories());
    assert_eq!(app.current_screen, CurrentScreen::Overview);
    assert_eq!(CurrentScreen::default(), CurrentScreen::Overview);
    assert!(app.current_repository.is_none());
    assert_eq!(app.last_updated, "");
    assert!(app.fetching.is_none());
    assert!(app.error.is_none());
    assert_eq!(app.chunk_height, 0);
    assert_eq!(app.token, "token-value");
    assert_eq!(app.username, "octo");
    assert_eq!(app.spinner_state.index(), 0);
    assert_eq!(app.repositories.selected(), Some(0));
    assert_eq!(app.scrollbar.get_length(), 0);
    assert_eq!(app.scrollbar.position(), 0);
    assert_eq!(names(&app), vec!["first", "second", "third"]);
}

#[test]
fn unreadable_snapshot_starts_without_repositories() {
    let app = App::from_snapshot(None, "t".to_string(), "u".to_string());
    assert_eq!(app.repositories.repos().len(), 0);
    assert_eq!(app.repositories.selected(), None);
    assert_eq!(app.current_screen, CurrentScreen::Overview);
    assert_eq!(app.token, "t");
    assert_eq!(app.username, "u");
    let read = App::from_snapshot(Some(three_repositories()), "t".to_string(), "u".to_string());
    assert_eq!(names(&read), vec!["first", "second", "third"]);
    assert_eq!(read.repositories.selected(), Some(0));
}

#[test]
fn empty_snapshot_leaves_nothing_to_select() {
    let mut app = App::from_snapshot(Some(Vec::new()), "t".to_string(), "u".to_string());
    assert_eq!(app.repositories.repos().len(), 0);
    assert!(app.repositories.get_selected_repository().is_none());
    press(&mut app, &[Key::Char('r')]);
    assert_eq!(app.current_screen, CurrentScreen::ProjectList);
    press(&mut app, &[Key::Enter]);
    assert_eq!(app.current_screen, CurrentScreen::ProjectList);
    assert!(app.current_repository.is_none());
    assert_eq!(app.scrollbar.get_length(), 0);
    press(&mut app, &[Key::Down, Key::Up, Key::Enter]);
    assert_eq!(app.current_screen, CurrentScreen::ProjectList);
    assert_eq!(app.repositories.selected(), None);
    assert!(app.current_repository.is_none());
}

#[test]
fn down_in_the_list_visits_all_repositories_in_order() {
    let mut app = session(three_repositories());
    let totals: Vec<usize> =
        app.repositories.repos().iter().map(|r| r.total_active_alerts).collect();
    assert_eq!(totals, vec![2, 0, 5]);
    press(&mut app, &[Key::Char('r')]);
    let mut visited = Vec::new();
    for _ in 0..7 {
        visited.push(app.repositories.selected().unwrap());
        press(&mut app, &[Key::Down]);
    }
    assert_eq!(visited, vec![0, 1, 2, 0, 1, 2, 0]);
    press(&mut app, &[Key::Up, Key::Up]);
    assert_eq!(app.repositories.selected(), Some(2));
}

#[test]
fn forty_open_alerts_in_a_viewport_of_ten_lines() {
    let mut app = session(vec![repository(9, "busy", 40, 0)]);
    press(&mut app, &[Key::Char('r'), Key::Enter]);
    assert_eq!(app.current_screen, CurrentScreen::Project);
    assert_eq!(app.current_repository.as_ref().map(|r| r.total_active_alerts), Some(40));
    assert_eq!(app.scrollbar.get_length(), 400);
    press(&mut app, &[Key::Tab]);
    assert_eq!(app.current_screen, CurrentScreen::DependabotDetails);
    let lines = app.detail_lines();
    assert_eq!(lines.len(), 400);
    app.observe_viewport(lines.len(), 10);
    assert_eq!(app.chunk_height, 10);
    assert_eq!(app.scrollbar.get_length(), (40 * 10) - 10);
    assert_eq!(app.scrollbar.position(), 0);
    for _ in 0..390 {
        press(&mut app, &[Key::Down]);
    }
    assert_eq!(app.scrollbar.position(), 390);
    press(&mut app, &[Key::Down]);
    assert_eq!(app.scrollbar.position(), 0);
    press(&mut app, &[Key::Up]);
    assert_eq!(app.scrollbar.position(), 390);
}

#[test]
fn opening_sizes_the_scrollbar_by_the_open_alerts() {
    let mut app = session(three_repositories());
    press(&mut app, &[Key::Char('r'), Key::Up, Key::Enter]);
    assert_eq!(app.current_screen, CurrentScreen::Project);
    let opened = app.current_repository.as_ref().expect("a repository was opened");
    assert_eq!(opened.name, "third");
    assert_eq!(opened.dependabots.len(), 6);
    assert_eq!(app.scrollbar.get_length(), 50);
    assert_eq!(app.scrollbar.position(), 0);
    assert_eq!(app.detail_lines().len(), 60);
    assert_eq!(app.detail_lines()[51], "Number: 6");
    assert_eq!(app.detail_lines()[52], "State: Fixed");
}

#[test]
fn opening_a_repository_with_a_count_beyond_the_machine() {
    let mut huge = repository(1, "huge", 0, 0);
    huge.total_active_alerts = usize::MAX / 10 + 1;
    let mut edge = repository(2, "edge", 0, 0);
    edge.total_active_alerts = usize::MAX / 10;
    let mut app = session(vec![huge, edge]);
    press(&mut app, &[Key::Char('r'), Key::Enter]);
    assert_eq!(app.scrollbar.get_length(), usize::MAX);
    press(&mut app, &[Key::Char('r'), Key::Down, Key::Enter]);
    assert_eq!(app.scrollbar.get_length(), (usize::MAX / 10) * 10);
}

#[test]
fn layout_resizes_only_when_the_height_changes() {
    let mut app = session(vec![repository(9, "busy", 4, 0)]);
    press(&mut app, &[Key::Char('r'), Key::Enter, Key::Tab]);
    assert_eq!(app.scrollbar.get_length(), 40);
    app.observe_viewport(40, 0);
    assert_eq!(app.scrollbar.get_length(), 40);
    assert_eq!(app.chunk_height, 0);
    app.observe_viewport(40, 15);
    assert_eq!(app.scrollbar.get_length(), 25);
    press(&mut app, &[Key::Down, Key::Down]);
    assert_eq!(app.scrollbar.position(), 2);
    app.observe_viewport(40, 15);
    assert_eq!(app.scrollbar.get_length(), 25);
    assert_eq!(app.scrollbar.position(), 2);
    app.observe_viewport(40, 50);
    assert_eq!(app.chunk_height, 50);
    assert_eq!(app.scrollbar.get_length(), 0);
    assert_eq!(app.scrollbar.position(), 0);
    press(&mut app, &[Key::Down]);
    assert_eq!(app.scrollbar.position(), 0);
    press(&mut app, &[Key::Up]);
    assert_eq!(app.scrollbar.position(), 0);
}

#[test]
fn keys_move_between_the_screens() {
    let mut app = session(three_repositories());
    press(&mut app, &[Key::Char('u')]);
    assert_eq!(app.current_screen, CurrentScreen::Update);
    press(&mut app, &[Key::Char('n')]);
    assert_eq!(app.current_screen, CurrentScreen::ProjectList);
    press(&mut app, &[Key::Char('o')]);
    assert_eq!(app.current_screen, CurrentScreen::Overview);
    press(&mut app, &[Key::Char('r'), Key::Char('u')]);
    assert_eq!(app.current_screen, CurrentScreen::Update);
    press(&mut app, &[Key::Char('n'), Key::Enter]);
    assert_eq!(app.current_screen, CurrentScreen::Project);
    press(&mut app, &[Key::Tab]);
    assert_eq!(app.current_screen, CurrentScreen::DependabotDetails);
    press(&mut app, &[Key::Tab]);
    assert_eq!(app.current_screen, CurrentScreen::Project);
    press(&mut app, &[Key::Char('r')]);
    assert_eq!(app.current_screen, CurrentScreen::ProjectList);
    press(&mut app, &[Key::Enter, Key::Tab, Key::Char('o')]);
    assert_eq!(app.current_screen, CurrentScreen::Overview);
}

#[test]
fn keys_without_an_entry_change_nothing() {
    let mut app = session(three_repositories());
    press(&mut app, &[Key::Enter, Key::Up, Key::Down, Key::Tab, Key::Char('y'), Key::Other]);
    assert_eq!(app.current_screen, CurrentScreen::Overview);
    assert_eq!(app.repositories.selected(), Some(0));
    press(&mut app, &[Key::Char('r'), Key::Tab, Key::Char('t'), Key::Char('R'), Key::Other]);
    assert_eq!(app.current_screen, CurrentScreen::ProjectList);
    press(&mut app, &[Key::Enter, Key::Up, Key::Down, Key::Char('o'), Key::Char('u')]);
    assert_eq!(app.current_screen, CurrentScreen::Project);
    assert_eq!(app.repositories.selected(), Some(0));
    assert_eq!(app.scrollbar.position(), 0);
    press(&mut app, &[Key::Tab, Key::Enter, Key::Char('r'), Key::Char('u')]);
    assert_eq!(app.current_screen, CurrentScreen::DependabotDetails);
    press(&mut app, &[Key::Char('o'), Key::Char('u'), Key::Up, Key::Enter, Key::Char('o')]);
    assert_eq!(app.current_screen, CurrentScreen::Update);
    assert_eq!(app.repositories.selected(), Some(0));
}

#[test]
fn quit_ends_the_session_from_every_screen() {
    let screens = [
        CurrentScreen::Overview,
        CurrentScreen::ProjectList,
        CurrentScreen::Project,
        CurrentScreen::DependabotDetails,
        CurrentScreen::Update,
        CurrentScreen::Updating,
    ];
    for screen in screens {
        assert_eq!(effect_of_key(screen, Key::Char('q')), Effect::Quit);
    }
    let mut app = session(three_repositories());
    assert!(matches!(app.handle_key(Key::Char('q')), Action::Quit));
    assert_eq!(app.current_screen, CurrentScreen::Overview);
    press(&mut app, &[Key::Char('r'), Key::Enter, Key::Tab]);
    assert!(matches!(app.handle_key(Key::Char('q')), Action::Quit));
    assert_eq!(app.current_screen, CurrentScreen::DependabotDetails);
    let _sender = start_refresh(&mut session(Vec::new()));
}

fn shown(screen: CurrentScreen) -> Effect {
    Effect::Show(screen)
}

#[test]
fn the_table_of_keys() {
    let overview = CurrentScreen::Overview;
    let list = CurrentScreen::ProjectList;
    let project = CurrentScreen::Project;
    let details = CurrentScreen::DependabotDetails;
    let update = CurrentScreen::Update;
    let updating = CurrentScreen::Updating;
    assert_eq!(effect_of_key(overview, Key::Char('r')), shown(list));
    assert_eq!(effect_of_key(overview, Key::Char('u')), shown(update));
    assert_eq!(effect_of_key(overview, Key::Enter), Effect::Ignored);
    assert_eq!(effect_of_key(list, Key::Enter), Effect::OpenRepository);
    assert_eq!(effect_of_key(list, Key::Up), Effect::HighlightPrevious);
    assert_eq!(effect_of_key(list, Key::Down), Effect::HighlightNext);
    assert_eq!(effect_of_key(list, Key::Char('o')), shown(overview));
    assert_eq!(effect_of_key(list, Key::Char('u')), shown(update));
    assert_eq!(effect_of_key(list, Key::Char('r')), Effect::Ignored);
    assert_eq!(effect_of_key(project, Key::Char('r')), shown(list));
    assert_eq!(effect_of_key(project, Key::Tab), shown(details));
    assert_eq!(effect_of_key(project, Key::Char('o')), Effect::Ignored);
    assert_eq!(effect_of_key(details, Key::Up), Effect::ScrollUp);
    assert_eq!(effect_of_key(details, Key::Down), Effect::ScrollDown);
    assert_eq!(effect_of_key(details, Key::Char('t')), Effect::ScrollTop);
    assert_eq!(effect_of_key(details, Key::Tab), shown(project));
    assert_eq!(effect_of_key(details, Key::Char('o')), shown(overview));
    assert_eq!(effect_of_key(details, Key::Char('r')), Effect::Ignored);
    assert_eq!(effect_of_key(update, Key::Char('y')), Effect::StartRefresh);
    assert_eq!(effect_of_key(update, Key::Char('n')), shown(list));
    assert_eq!(effect_of_key(update, Key::Char('u')), Effect::Ignored);
    let keys =
        [Key::Up, Key::Down, Key::Enter, Key::Tab, Key::Char('y'), Key::Char('o'), Key::Other];
    for key in keys {
        assert_eq!(effect_of_key(updating, key), Effect::Ignored);
    }
}

#[test]
fn scrolling_keys_on_the_alert_details() {
    let mut app = session(three_repositories());
    press(&mut app, &[Key::Char('r'), Key::Enter, Key::Tab]);
    assert_eq!(app.scrollbar.get_length(), 20);
    press(&mut app, &[Key::Down, Key::Down, Key::Down]);
    assert_eq!(app.scrollbar.position(), 3);
    press(&mut app, &[Key::Up]);
    assert_eq!(app.scrollbar.position(), 2);
    press(&mut app, &[Key::Char('t')]);
    assert_eq!(app.scrollbar.position(), 0);
    press(&mut app, &[Key::Up]);
    assert_eq!(app.scrollbar.position(), 20);
    press(&mut app, &[Key::Down]);
    assert_eq!(app.scrollbar.position(), 0);
}

#[test]
fn tick_moves_the_busy_indicator() {
    let mut app = session(Vec::new());
    app.on_tick();
    assert_eq!(app.spinner_state.index(), 1);
    app.on_tick();
    app.on_tick();
    assert_eq!(app.spinner_state.index(), 3);
    for _ in 0..200 {
        app.on_tick();
    }
    assert_eq!(app.spinner_state.index(), i8::MAX);
    assert_eq!(app.current_screen, CurrentScreen::Overview);
}

#[test]
fn refresh_that_succeeds_replaces_the_list() {
    let mut app = session(three_repositories());
    press(&mut app, &[Key::Char('r'), Key::Down]);
    let sender = start_refresh(&mut app);
    assert_eq!(app.poll_refresh(), RefreshStep::Waiting);
    assert_eq!(app.spinner_state.index(), 1);
    assert_eq!(app.poll_refresh(), RefreshStep::Waiting);
    assert_eq!(app.spinner_state.index(), 2);
    assert_eq!(app.current_screen, CurrentScreen::Updating);
    assert_eq!(names(&app), vec!["first", "second", "third"]);
    let mut fresh = RepositoryList::with_respositories(vec![
        repository(7, "alpha", 1, 0),
        repository(8, "beta", 0, 3),
    ]);
    fresh.next();
    sender.send(Ok(fresh)).unwrap();
    assert_eq!(app.poll_refresh(), RefreshStep::Adopted);
    assert_eq!(app.current_screen, CurrentScreen::Overview);
    assert!(app.fetching.is_none());
    assert!(app.error.is_none());
    assert_eq!(names(&app), vec!["alpha", "beta"]);
    assert_eq!(app.repositories.selected(), Some(0));
    assert_eq!(app.repositories.get_mut_state().selected(), Some(0));
}

#[test]
fn refresh_that_fails_keeps_the_list() {
    let mut app = session(three_repositories());
    press(&mut app, &[Key::Char('r'), Key::Down, Key::Down]);
    let sender = start_refresh(&mut app);
    sender.send(Err("error sending request".to_string())).unwrap();
    assert_eq!(app.poll_refresh(), RefreshStep::Failed);
    assert_eq!(app.error.as_deref(), Some("error sending request"));
    assert!(!app.error.as_deref().unwrap().is_empty());
    assert_eq!(app.current_screen, CurrentScreen::Overview);
    assert!(app.fetching.is_none());
    assert_eq!(names(&app), vec!["first", "second", "third"]);
    assert_eq!(app.repositories.selected(), Some(2));
    let totals: Vec<usize> =
        app.repositories.repos().iter().map(|r| r.total_active_alerts).collect();
    assert_eq!(totals, vec![2, 0, 5]);
}

#[test]
fn result_is_taken_once() {
    let mut app = session(three_repositories());
    let sender = start_refresh(&mut app);
    sender.send(Err("first".to_string())).unwrap();
    sender.send(Ok(RepositoryList::with_respositories(Vec::new()))).unwrap();
    assert_eq!(app.poll_refresh(), RefreshStep::Failed);
    assert_eq!(app.poll_refresh(), RefreshStep::Idle);
    assert_eq!(app.poll_refresh(), RefreshStep::Idle);
    assert_eq!(app.error.as_deref(), Some("first"));
    assert_eq!(names(&app), vec!["first", "second", "third"]);
    let late = RefreshPoll::Ready(Ok(RepositoryList::with_respositories(Vec::new())));
    assert_eq!(app.apply_poll(late), RefreshStep::Idle);
    assert_eq!(app.apply_poll(RefreshPoll::Ready(Err("late".to_string()))), RefreshStep::Idle);
    assert_eq!(app.apply_poll(RefreshPoll::Pending), RefreshStep::Idle);
    assert_eq!(app.apply_poll(RefreshPoll::Lost), RefreshStep::Idle);
    assert_eq!(app.error.as_deref(), Some("first"));
    assert_eq!(app.spinner_state.index(), 0);
    assert_eq!(app.current_screen, CurrentScreen::Overview);
    assert_eq!(names(&app), vec!["first", "second", "third"]);
}

#[test]
fn lost_worker_ends_the_session() {
    let mut app = session(three_repositories());
    let sender = start_refresh(&mut app);
    drop(sender);
    assert_eq!(app.poll_refresh(), RefreshStep::Lost);
    assert_eq!(app.error.as_deref(), Some("Fetch thread terminated unexpectedly"));
    assert_eq!(names(&app), vec!["first", "second", "third"]);
    assert_eq!(app.current_screen, CurrentScreen::Updating);
}

#[test]
fn results_applied_by_hand() {
    let mut app = session(three_repositories());
    let _sender = start_refresh(&mut app);
    assert_eq!(app.apply_poll(RefreshPoll::Pending), RefreshStep::Waiting);
    assert_eq!(app.spinner_state.index(), 1);
    assert!(app.fetching.is_some());
    let fresh = RepositoryList::with_respositories(vec![repository(4, "only", 0, 0)]);
    assert_eq!(app.apply_poll(RefreshPoll::Ready(Ok(fresh))), RefreshStep::Adopted);
    assert_eq!(names(&app), vec!["only"]);
    assert_eq!(app.repositories.selected(), Some(0));
    assert!(app.fetching.is_none());
    let _second = start_refresh(&mut app);
    let nothing = RepositoryList::with_respositories(Vec::new());
    assert_eq!(app.apply_poll(RefreshPoll::Ready(Ok(nothing))), RefreshStep::Adopted);
    assert_eq!(app.repositories.selected(), None);
    assert!(names(&app).is_empty());
    assert_eq!(POLL_INTERVAL_MS, 200);
}

#[test]
fn key_hints_by_screen() {
    let mut app = session(three_repositories());
    assert_eq!(
        get_key_hint_text(&app),
        "(r) to view repositories / (u) to update repositories / (q) to quit"
    );
    press(&mut app, &[Key::Char('r')]);
    assert_eq!(
        get_key_hint_text(&app),
        "(↑/↓) to navigate / (enter) to view repository / (q) to quit / (o) to view overview / (u) to update repositories"
    );
    press(&mut app, &[Key::Enter]);
    assert_eq!(
        get_key_hint_text(&app),
        "(q) to quit / (o) to view overview / (r) to view repositories / (tab) to switch tabs"
    );
    press(&mut app, &[Key::Tab]);
    assert_eq!(
        get_key_hint_text(&app),
        "(↑/↓) to navigate / (q) to quit / (r) to view repositories / (tab) to switch tabs"
    );
    press(&mut app, &[Key::Char('o')]);
    let _sender = start_refresh(&mut app);
    assert_eq!(get_key_hint_text(&app), "(y/n) to confirm update");
    app.current_screen = CurrentScreen::Update;
    assert_eq!(get_key_hint_text(&app), "(y/n) to confirm update");
}

#[test]
fn navigation_text_by_screen() {
    let mut app = session(three_repositories());
    assert_eq!(get_navigation_text(&app), "Overview");
    press(&mut app, &[Key::Char('r')]);
    assert_eq!(get_navigation_text(&app), "Repository List");
    press(&mut app, &[Key::Down, Key::Enter]);
    assert_eq!(get_navigation_text(&app), "second");
    press(&mut app, &[Key::Tab]);
    assert_eq!(get_navigation_text(&app), "second");
    press(&mut app, &[Key::Char('o'), Key::Char('u')]);
    assert_eq!(get_navigation_text(&app), "Updating");
    let mut empty = session(Vec::new());
    empty.current_screen = CurrentScreen::Project;
    assert_eq!(get_navigation_text(&empty), "Repository");
    let _sender = start_refresh(&mut app);
    assert_eq!(get_navigation_text(&app), "Updating");
}

#[test]
fn widgets_follow_the_keys() {
    let mut app = session(three_repositories());
    press(&mut app, &[Key::Char('r'), Key::Down]);
    assert_eq!(app.repositories.get_mut_state().selected(), Some(1));
    press(&mut app, &[Key::Down, Key::Down, Key::Up]);
    assert_eq!(app.repositories.get_mut_state().selected(), Some(2));
    press(&mut app, &[Key::Enter, Key::Tab, Key::Down, Key::Down]);
    assert_eq!(
        *app.scrollbar.get_mut_state(),
        ScrollbarState::new(50).viewport_content_length(1).position(2)
    );
    app.observe_viewport(60, 20);
    assert_eq!(
        *app.scrollbar.get_mut_state(),
        ScrollbarState::new(40).viewport_content_length(1).position(0)
    );
    press(&mut app, &[Key::Up]);
    assert_eq!(
        *app.scrollbar.get_mut_state(),
        ScrollbarState::new(40).viewport_content_length(1).position(40)
    );
    assert_eq!(app.repositories.get_mut_state().selected(), Some(2));
}
