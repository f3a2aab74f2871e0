use kafka_top::app::{App, Cli, KeyCode, KeyInput, Tab, View};
use kafka_top::fetch::{FetchOutcome, FetchRequest};
use kafka_top::state::{GroupSummary, GroupsData, LoadState, TopicSummary, TopicsData};

fn cli() -> Cli {
    Cli {
        bootstrap_servers: "localhost:9092".to_string(),
        topic_filter: None,
        group_filter: Some("pay".to_string()),
        refresh_interval: 5,
        kafka_config: vec![],
    }
}

fn key(code: KeyCode) -> KeyInput {
    KeyInput { code, is_press: true, no_modifiers: true }
}

fn topics(names: &[&str]) -> TopicsData {
    TopicsData {
        topics: names
            .iter()
            .map(|n| TopicSummary { name: n.to_string(), partition_count: 1, total_messages: 0 })
            .collect(),
    }
}

fn groups(ids: &[&str]) -> GroupsData {
    GroupsData {
        groups: ids
            .iter()
            .map(|g| GroupSummary {
                group_id: g.to_string(),
                state: "Stable".to_string(),
                protocol_type: "consumer".to_string(),
                member_count: 1,
            })
            .collect(),
    }
}

#[test]
fn tab_next_and_prev_cycle() {
    assert_eq!(Tab::Dashboard.next(), Tab::Topics);
    assert_eq!(Tab::Topics.next(), Tab::ConsumerGroups);
    assert_eq!(Tab::ConsumerGroups.next(), Tab::Dashboard);
    assert_eq!(Tab::Dashboard.prev(), Tab::ConsumerGroups);
    assert_eq!(Tab::Topics.prev(), Tab::Dashboard);
    assert_eq!(Tab::ConsumerGroups.prev(), Tab::Topics);
    for t in [Tab::Dashboard, Tab::Topics, Tab::ConsumerGroups] {
        assert_eq!(t.next().prev(), t);
        assert_eq!(t.prev().next(), t);
        assert_eq!(t.next().next().next(), t);
    }
}

#[test]
fn new_app_starts_on_dashboard() {
    let app = App::new(cli());
    assert!(!app.should_quit);
    assert_eq!(app.current_tab, Tab::Dashboard);
    assert_eq!(app.current_view, View::Normal);
    assert!(app.dashboard_state.is_idle());
    assert!(app.topics_state.is_idle());
    assert_eq!(app.topic_list_index, 0);
    assert_eq!(app.group_list_index, 0);
    assert!(app.prev_offsets.is_empty());
}

#[test]
fn quit_key_sets_flag_without_refresh() {
    let mut app = App::new(cli());
    assert!(!app.handle_key(key(KeyCode::Char('q'))));
    assert!(app.should_quit);
    let mut app = App::new(cli());
    assert!(!app.handle_key(key(KeyCode::Char('Q'))));
    assert!(app.should_quit);
}

#[test]
fn tab_then_backtab_returns_to_same_tab() {
    let mut app = App::new(cli());
    assert!(app.handle_key(key(KeyCode::Tab)));
    assert_eq!(app.current_tab, Tab::Topics);
    assert!(app.handle_key(key(KeyCode::BackTab)));
    assert_eq!(app.current_tab, Tab::Dashboard);
    assert!(app.handle_key(key(KeyCode::BackTab)));
    assert_eq!(app.current_tab, Tab::ConsumerGroups);
}

#[test]
fn tab_release_is_ignored() {
    let mut app = App::new(cli());
    let released = KeyInput { code: KeyCode::Tab, is_press: false, no_modifiers: true };
    assert!(!app.handle_key(released));
    assert_eq!(app.current_tab, Tab::Dashboard);
}

#[test]
fn refresh_key_resets_shown_screen() {
    let mut app = App::new(cli());
    app.dashboard_state = LoadState::Loading;
    assert!(app.handle_key(key(KeyCode::Char('r'))));
    assert!(app.dashboard_state.is_idle());
}

#[test]
fn scrolling_stays_inside_the_list() {
    let mut app = App::new(cli());
    app.current_tab = Tab::Topics;
    app.topics_state = LoadState::Loaded(topics(&["a", "b", "c"]));
    assert!(!app.handle_key(key(KeyCode::Up)));
    assert_eq!(app.topic_list_index, 0);
    app.handle_key(key(KeyCode::Down));
    app.handle_key(key(KeyCode::Char('j')));
    assert_eq!(app.topic_list_index, 2);
    app.handle_key(key(KeyCode::Down));
    assert_eq!(app.topic_list_index, 2);
    app.handle_key(key(KeyCode::Char('k')));
    assert_eq!(app.topic_list_index, 1);
    let shifted = KeyInput { code: KeyCode::Char('k'), is_press: true, no_modifiers: false };
    app.handle_key(shifted);
    assert_eq!(app.topic_list_index, 1);
}

#[test]
fn scrolling_an_unloaded_list_does_not_move_down() {
    let mut app = App::new(cli());
    app.current_tab = Tab::ConsumerGroups;
    app.scroll_down();
    assert_eq!(app.group_list_index, 0);
}

#[test]
fn enter_opens_highlighted_topic_and_esc_goes_back() {
    let mut app = App::new(cli());
    app.current_tab = Tab::Topics;
    app.topics_state = LoadState::Loaded(topics(&["orders", "payments"]));
    app.topic_list_index = 1;
    app.topic_detail_state = LoadState::Loading;
    assert!(app.handle_key(key(KeyCode::Enter)));
    assert_eq!(app.current_view, View::TopicDetail);
    assert_eq!(app.selected_topic.as_deref(), Some("payments"));
    assert!(app.topic_detail_state.is_idle());
    // Tab is ignored in a detail view
    assert!(!app.handle_key(key(KeyCode::Tab)));
    assert_eq!(app.current_tab, Tab::Topics);
    assert!(!app.handle_key(key(KeyCode::Esc)));
    assert_eq!(app.current_view, View::Normal);
    assert!(app.selected_topic.is_none());
    assert_eq!(app.topic_list_index, 1);
}

#[test]
fn enter_clamps_a_stale_index() {
    let mut app = App::new(cli());
    app.current_tab = Tab::ConsumerGroups;
    app.groups_state = LoadState::Loaded(groups(&["g1", "g2"]));
    app.group_list_index = 9;
    assert!(app.handle_key(key(KeyCode::Enter)));
    assert_eq!(app.current_view, View::GroupDetail);
    assert_eq!(app.selected_group.as_deref(), Some("g2"));
}

#[test]
fn enter_on_empty_or_dashboard_does_nothing() {
    let mut app = App::new(cli());
    assert!(!app.handle_key(key(KeyCode::Enter)));
    assert_eq!(app.current_view, View::Normal);
    app.current_tab = Tab::Topics;
    app.topics_state = LoadState::Loaded(topics(&[]));
    assert!(!app.handle_key(key(KeyCode::Enter)));
    assert_eq!(app.current_view, View::Normal);
    assert!(!app.needs_refresh_on_view_change());
}

#[test]
fn begin_fetch_only_fetches_idle_screens_unless_forced() {
    let mut app = App::new(cli());
    match app.begin_fetch(false) {
        Some(FetchRequest::Dashboard) => {}
        _ => panic!("expected a dashboard fetch"),
    }
    assert!(matches!(app.dashboard_state, LoadState::Loading));
    assert!(app.begin_fetch(false).is_none());
    assert!(matches!(app.begin_fetch(true), Some(FetchRequest::Dashboard)));
}

#[test]
fn begin_fetch_passes_the_filter() {
    let mut app = App::new(cli());
    app.current_tab = Tab::ConsumerGroups;
    match app.begin_fetch(false) {
        Some(FetchRequest::Groups(Some(f))) => assert_eq!(f, "pay"),
        _ => panic!("expected a group fetch with the filter"),
    }
}

#[test]
fn detail_without_selection_fails_at_once() {
    let mut app = App::new(cli());
    app.current_view = View::TopicDetail;
    assert!(app.begin_fetch(false).is_none());
    match &app.topic_detail_state {
        LoadState::Error(e) => assert_eq!(e, "No topic selected"),
        _ => panic!("expected an error"),
    }
    app.current_view = View::GroupDetail;
    assert!(app.begin_fetch(false).is_none());
    match &app.group_detail_state {
        LoadState::Error(e) => assert_eq!(e, "No group selected"),
        _ => panic!("expected an error"),
    }
}

#[test]
fn fetched_list_clamps_the_selection() {
    let mut app = App::new(cli());
    app.current_tab = Tab::Topics;
    app.topic_list_index = 7;
    app.begin_fetch(false);
    app.finish_fetch(FetchOutcome::Topics(Ok(topics(&["a", "b"]))), 0);
    assert_eq!(app.topic_list_index, 1);
    app.finish_fetch(FetchOutcome::Topics(Ok(topics(&[]))), 0);
    assert_eq!(app.topic_list_index, 0);
}

#[test]
fn failed_first_load_shows_error_but_refresh_keeps_data() {
    let mut app = App::new(cli());
    app.current_tab = Tab::Topics;
    app.begin_fetch(false);
    app.finish_fetch(FetchOutcome::Topics(Err("Failed to fetch metadata: down".to_string())), 0);
    match &app.topics_state {
        LoadState::Error(e) => assert_eq!(e, "Failed to fetch metadata: down"),
        _ => panic!("expected an error"),
    }
    app.finish_fetch(FetchOutcome::Topics(Ok(topics(&["a"]))), 0);
    assert!(matches!(app.begin_fetch(true), Some(FetchRequest::Topics(None))));
    assert!(matches!(app.topics_state, LoadState::Loaded(_)));
    app.finish_fetch(FetchOutcome::Topics(Err("again".to_string())), 0);
    match &app.topics_state {
        LoadState::Loaded(d) => assert_eq!(d.topics[0].name, "a"),
        _ => panic!("expected the earlier data"),
    }
}

#[test]
fn refresh_key_is_followed_by_a_fetch() {
    let mut app = App::new(cli());
    app.current_tab = Tab::Topics;
    app.topics_state = LoadState::Loaded(topics(&["a"]));
    assert!(app.begin_fetch(false).is_none());
    assert!(app.handle_key(key(KeyCode::Char('R'))));
    assert!(matches!(app.begin_fetch(false), Some(FetchRequest::Topics(None))));
    assert!(app.handle_key(key(KeyCode::Tab)));
    assert!(matches!(app.begin_fetch(false), Some(FetchRequest::Groups(_))));
}

#[test]
fn enter_in_detail_view_asks_for_a_fetch_that_is_skipped() {
    let mut app = App::new(cli());
    app.current_view = View::TopicDetail;
    app.selected_topic = Some("t".to_string());
    app.topic_detail_state = LoadState::Loading;
    assert!(app.handle_key(key(KeyCode::Enter)));
    assert!(app.begin_fetch(false).is_none());
    // Esc never asks for a fetch: the list view keeps its data
    assert!(!app.handle_key(key(KeyCode::Esc)));
    assert_eq!(app.current_view, View::Normal);
}
