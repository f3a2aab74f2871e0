use vstd::prelude::*;

use vstd::view::View as _;
use crate::rates::OffsetSample;
use crate::state::{DashboardData, GroupDetailData, GroupsData, LoadState, TopicDetailData, TopicsData};

verus! {

/// The three top-level screens, in the order the tab bar shows them.
#[derive(Debug, Clone, Copy, PartialEq, Eq, Structural)]
pub enum Tab {
    Dashboard,
    Topics,
    ConsumerGroups,
}

impl Tab {
    /// The tab to the right, wrapping from the last to the first.
    pub open spec fn spec_next(self) -> Tab {
        match self {
            Tab::Dashboard => Tab::Topics,
            Tab::Topics => Tab::ConsumerGroups,
            Tab::ConsumerGroups => Tab::Dashboard,
        }
    }

    /// The tab to the left, wrapping from the first to the last.
    pub open spec fn spec_prev(self) -> Tab {
        match self {
            Tab::Dashboard => Tab::ConsumerGroups,
            Tab::Topics => Tab::Dashboard,
            Tab::ConsumerGroups => Tab::Topics,
        }
    }

    pub fn next(&self) -> (r: Tab)
        ensures
            r == self.spec_next(),
    {
        match self {
            Tab::Dashboard => Tab::Topics,
            Tab::Topics => Tab::ConsumerGroups,
            Tab::ConsumerGroups => Tab::Dashboard,
        }
    }

    pub fn prev(&self) -> (r: Tab)
        ensures
            r == self.spec_prev(),
    {
        match self {
            Tab::Dashboard => Tab::ConsumerGroups,
            Tab::Topics => Tab::Dashboard,
            Tab::ConsumerGroups => Tab::Topics,
        }
    }
}


/// Which screen is shown: the current tab's list, or the detail of one item.
#[derive(Debug, Clone, Copy, PartialEq, Eq, Structural)]
pub enum View {
    Normal,
    TopicDetail,
    GroupDetail,
}

/// Command-line settings.
#[derive(Debug, Clone)]
pub struct Cli {
    /// Kafka bootstrap servers (comma-separated)
    pub bootstrap_servers: String,
    /// Filter topics by name (substring match)
    pub topic_filter: Option<String>,
    /// Filter consumer groups by name (substring match)
    pub group_filter: Option<String>,
    /// Auto-refresh interval in seconds
    pub refresh_interval: u64,
    /// Extra Kafka client config options (key=value)
    pub kafka_config: Vec<String>,
}

/// The key of a key press, as far as the application tells keys apart.
#[derive(Debug, Clone, Copy, PartialEq, Eq, Structural)]
pub enum KeyCode {
    Char(char),
    Tab,
    BackTab,
    Enter,
    Esc,
    Up,
    Down,
    Other,
}

/// A key event: the key, whether it is a press (not a release or repeat),
/// and whether no modifier key was held.
#[derive(Debug, Clone, Copy, PartialEq, Eq, Structural)]
pub struct KeyInput {
    pub code: KeyCode,
    pub is_press: bool,
    pub no_modifiers: bool,
}

/// The state of the monitor: navigation, the data of each screen, and the
/// offsets last seen, from which rates are computed.
pub struct App {
    pub cli: Cli,
    pub should_quit: bool,
    pub current_tab: Tab,
    pub current_view: View,
    pub selected_topic: Option<String>,
    pub selected_group: Option<String>,
    pub dashboard_state: LoadState<DashboardData>,
    pub topics_state: LoadState<TopicsData>,
    pub topic_detail_state: LoadState<TopicDetailData>,
    pub groups_state: LoadState<GroupsData>,
    pub group_detail_state: LoadState<GroupDetailData>,
    pub topic_list_index: usize,
    pub group_list_index: usize,
    /// Last committed offset seen per (topic, partition) of the selected group.
    pub prev_offsets: Vec<OffsetSample>,
    /// Last log-end offset seen per (topic, partition) of the selected topic.
    pub prev_topic_offsets: Vec<OffsetSample>,
}

/// A list selection is valid when, with the list loaded, it points into the list
/// (or is 0 for an empty list).
pub open spec fn index_fits(loaded_len: Option<nat>, index: usize) -> bool {
    match loaded_len {
        Some(n) => (n == 0 && index == 0) || index < n,
        None => true,
    }
}

pub open spec fn topics_len(s: LoadState<TopicsData>) -> Option<nat> {
    match s {
        LoadState::Loaded(d) => Some(d.topics@.len()),
        _ => None,
    }
}

pub open spec fn groups_len(s: LoadState<GroupsData>) -> Option<nat> {
    match s {
        LoadState::Loaded(d) => Some(d.groups@.len()),
        _ => None,
    }
}

pub open spec fn is_char(code: KeyCode, c: char) -> bool {
    code == KeyCode::Char(c)
}

impl App {
    /// What every state reachable from `App::new` satisfies: list selections point into
    /// loaded lists, and a detail view always has the item it shows selected (and only it).
    pub open spec fn inv(self) -> bool {
        &&& index_fits(topics_len(self.topics_state), self.topic_list_index)
        &&& index_fits(groups_len(self.groups_state), self.group_list_index)
        &&& match self.current_view {
            View::Normal => self.selected_topic is None && self.selected_group is None,
            View::TopicDetail => self.selected_topic is Some && self.selected_group is None,
            View::GroupDetail => self.selected_group is Some && self.selected_topic is None,
        }
    }

    pub open spec fn reset_spec(self) -> App {
        match self.current_view {
            View::Normal => match self.current_tab {
                Tab::Dashboard => App { dashboard_state: LoadState::Idle, ..self },
                Tab::Topics => App { topics_state: LoadState::Idle, ..self },
                Tab::ConsumerGroups => App { groups_state: LoadState::Idle, ..self },
            },
            View::TopicDetail => App { topic_detail_state: LoadState::Idle, ..self },
            View::GroupDetail => App { group_detail_state: LoadState::Idle, ..self },
        }
    }

    pub open spec fn drill_down_spec(self) -> App {
        if self.current_view != View::Normal {
            self
        } else {
            match self.current_tab {
                Tab::Topics => match self.topics_state {
                    LoadState::Loaded(data) => if data.topics@.len() > 0 {
                        let idx = if self.topic_list_index < data.topics@.len() - 1 {
                            self.topic_list_index as int
                        } else {
                            data.topics@.len() - 1
                        };
                        App {
                            selected_topic: Some(data.topics@[idx].name),
                            current_view: View::TopicDetail,
                            topic_detail_state: LoadState::Idle,
                            ..self
                        }
                    } else {
                        self
                    },
                    _ => self,
                },
                Tab::ConsumerGroups => match self.groups_state {
                    LoadState::Loaded(data) => if data.groups@.len() > 0 {
                        let idx = if self.group_list_index < data.groups@.len() - 1 {
                            self.group_list_index as int
                        } else {
                            data.groups@.len() - 1
                        };
                        App {
                            selected_group: Some(data.groups@[idx].group_id),
                            current_view: View::GroupDetail,
                            group_detail_state: LoadState::Idle,
                            ..self
                        }
                    } else {
                        self
                    },
                    _ => self,
                },
                Tab::Dashboard => self,
            }
        }
    }

    pub open spec fn go_back_spec(self) -> App {
        match self.current_view {
            View::Normal => self,
            _ => App { current_view: View::Normal, selected_topic: None, selected_group: None, ..self },
        }
    }

    pub open spec fn scroll_up_spec(self) -> App {
        match self.current_tab {
            Tab::Topics => if self.topic_list_index > 0 {
                App { topic_list_index: (self.topic_list_index - 1) as usize, ..self }
            } else {
                self
            },
            Tab::ConsumerGroups => if self.group_list_index > 0 {
                App { group_list_index: (self.group_list_index - 1) as usize, ..self }
            } else {
                self
            },
            Tab::Dashboard => self,
        }
    }

    pub open spec fn scroll_down_spec(self) -> App {
        match self.current_tab {
            Tab::Topics => match topics_len(self.topics_state) {
                Some(n) => if self.topic_list_index + 1 < n {
                    App { topic_list_index: (self.topic_list_index + 1) as usize, ..self }
                } else {
                    self
                },
                None => self,
            },
            Tab::ConsumerGroups => match groups_len(self.groups_state) {
                Some(n) => if self.group_list_index + 1 < n {
                    App { group_list_index: (self.group_list_index + 1) as usize, ..self }
                } else {
                    self
                },
                None => self,
            },
            Tab::Dashboard => self,
        }
    }

    /// The state after a key and whether the shown screen must then be fetched.
    pub open spec fn key_spec(self, key: KeyInput) -> (App, bool) {
        if is_char(key.code, 'q') || is_char(key.code, 'Q') {
            (App { should_quit: true, ..self }, false)
        } else if is_char(key.code, 'r') || is_char(key.code, 'R') {
            (self.reset_spec(), true)
        } else if key.code == KeyCode::Tab && key.is_press {
            if self.current_view == View::Normal {
                (App { current_tab: self.current_tab.spec_next(), ..self }.reset_spec(), true)
            } else {
                (self, false)
            }
        } else if key.code == KeyCode::BackTab && key.is_press {
            if self.current_view == View::Normal {
                (App { current_tab: self.current_tab.spec_prev(), ..self }.reset_spec(), true)
            } else {
                (self, false)
            }
        } else if key.code == KeyCode::Enter {
            let a = self.drill_down_spec();
            (a, a.current_view != View::Normal)
        } else if key.code == KeyCode::Esc {
            let a = self.go_back_spec();
            (a, a.current_view != View::Normal)
        } else if (key.code == KeyCode::Up || is_char(key.code, 'k')) && key.no_modifiers {
            (self.scroll_up_spec(), false)
        } else if (key.code == KeyCode::Down || is_char(key.code, 'j')) && key.no_modifiers {
            (self.scroll_down_spec(), false)
        } else {
            (self, false)
        }
    }

    pub fn new(cli: Cli) -> (app: App)
        ensures
            app.cli == cli,
            !app.should_quit,
            app.current_tab == Tab::Dashboard,
            app.current_view == View::Normal,
            app.selected_topic is None,
            app.selected_group is None,
            app.dashboard_state is Idle,
            app.topics_state is Idle,
            app.topic_detail_state is Idle,
            app.groups_state is Idle,
            app.group_detail_state is Idle,
            app.topic_list_index == 0,
            app.group_list_index == 0,
            app.prev_offsets@.len() == 0,
            app.prev_topic_offsets@.len() == 0,
            app.inv(),
    {
        App {
            cli,
            should_quit: false,
            current_tab: Tab::Dashboard,
            current_view: View::Normal,
            selected_topic: None,
            selected_group: None,
            dashboard_state: LoadState::Idle,
            topics_state: LoadState::Idle,
            topic_detail_state: LoadState::Idle,
            groups_state: LoadState::Idle,
            group_detail_state: LoadState::Idle,
            topic_list_index: 0,
            group_list_index: 0,
            prev_offsets: Vec::new(),
            prev_topic_offsets: Vec::new(),
        }
    }

    /// Applies a key press; returns true if the shown screen must then be fetched.
    pub fn handle_key(&mut self, key: KeyInput) -> (refresh: bool)
        ensures
            (*final(self), refresh) == old(self).key_spec(key),
            old(self).inv() ==> final(self).inv(),
    {
        let code = key.code;
        if code == KeyCode::Char('q') || code == KeyCode::Char('Q') {
            self.should_quit = true;
            false
        } else if code == KeyCode::Char('r') || code == KeyCode::Char('R') {
            self.reset_current_view();
            true
        } else if code == KeyCode::Tab && key.is_press {
            if self.current_view == View::Normal {
                self.current_tab = self.current_tab.next();
                self.reset_current_view();
                true
            } else {
                false
            }
        } else if code == KeyCode::BackTab && key.is_press {
            if self.current_view == View::Normal {
                self.current_tab = self.current_tab.prev();
                self.reset_current_view();
                true
            } else {
                false
            }
        } else if code == KeyCode::Enter {
            self.drill_down();
            self.needs_refresh_on_view_change()
        } else if code == KeyCode::Esc {
            self.go_back();
            self.needs_refresh_on_view_change()
        } else if (code == KeyCode::Up || code == KeyCode::Char('k')) && key.no_modifiers {
            self.scroll_up();
            false
        } else if (code == KeyCode::Down || code == KeyCode::Char('j')) && key.no_modifiers {
            self.scroll_down();
            false
        } else {
            false
        }
    }

    pub fn needs_refresh_on_view_change(&self) -> (r: bool)
        ensures
            r == (self.current_view != View::Normal),
    {
        self.current_view != View::Normal
    }

    /// Opens the detail of the highlighted topic or group, if its list is loaded and not empty.
    pub fn drill_down(&mut self)
        ensures
            *final(self) == old(self).drill_down_spec(),
            old(self).inv() ==> final(self).inv(),
    {
        if self.current_view != View::Normal {
            return;
        }
        match self.current_tab {
            Tab::Topics => {
                if let LoadState::Loaded(data) = &self.topics_state {
                    if data.topics.len() > 0 {
                        let idx = if self.topic_list_index < data.topics.len() - 1 {
                            self.topic_list_index
                        } else {
                            data.topics.len() - 1
                        };
                        let name = data.topics[idx].name.clone();
                        self.selected_topic = Some(name);
                        self.current_view = View::TopicDetail;
                        self.topic_detail_state = LoadState::Idle;
                    }
                }
            },
            Tab::ConsumerGroups => {
                if let LoadState::Loaded(data) = &self.groups_state {
                    if data.groups.len() > 0 {
                        let idx = if self.group_list_index < data.groups.len() - 1 {
                            self.group_list_index
                        } else {
                            data.groups.len() - 1
                        };
                        let id = data.groups[idx].group_id.clone();
                        self.selected_group = Some(id);
                        self.current_view = View::GroupDetail;
                        self.group_detail_state = LoadState::Idle;
                    }
                }
            },
            Tab::Dashboard => {},
        }
    }

    /// Leaves a detail view for the list it was opened from.
    pub fn go_back(&mut self)
        ensures
            *final(self) == old(self).go_back_spec(),
            old(self).inv() ==> final(self).inv(),
    {
        match self.current_view {
            View::TopicDetail | View::GroupDetail => {
                self.current_view = View::Normal;
                self.selected_topic = None;
                self.selected_group = None;
            },
            View::Normal => {},
        }
    }

    pub fn scroll_up(&mut self)
        ensures
            *final(self) == old(self).scroll_up_spec(),
            old(self).inv() ==> final(self).inv(),
    {
        match self.current_tab {
            Tab::Topics => {
                if self.topic_list_index > 0 {
                    self.topic_list_index = self.topic_list_index - 1;
                }
            },
            Tab::ConsumerGroups => {
                if self.group_list_index > 0 {
                    self.group_list_index = self.group_list_index - 1;
                }
            },
            Tab::Dashboard => {},
        }
    }

    pub fn scroll_down(&mut self)
        ensures
            *final(self) == old(self).scroll_down_spec(),
            old(self).inv() ==> final(self).inv(),
    {
        match self.current_tab {
            Tab::Topics => {
                if let LoadState::Loaded(data) = &self.topics_state {
                    let n = data.topics.len();
                    if n > 0 && self.topic_list_index < n - 1 {
                        self.topic_list_index = self.topic_list_index + 1;
                    }
                }
            },
            Tab::ConsumerGroups => {
                if let LoadState::Loaded(data) = &self.groups_state {
                    let n = data.groups.len();
                    if n > 0 && self.group_list_index < n - 1 {
                        self.group_list_index = self.group_list_index + 1;
                    }
                }
            },
            Tab::Dashboard => {},
        }
    }

    /// Forgets the shown screen's data so that the next fetch loads it afresh.
    pub fn reset_current_view(&mut self)
        ensures
            *final(self) == old(self).reset_spec(),
            old(self).inv() ==> final(self).inv(),
    {
        match self.current_view {
            View::Normal => match self.current_tab {
                Tab::Dashboard => self.dashboard_state = LoadState::Idle,
                Tab::Topics => self.topics_state = LoadState::Idle,
                Tab::ConsumerGroups => self.groups_state = LoadState::Idle,
            },
            View::TopicDetail => {
                self.topic_detail_state = LoadState::Idle;
            },
            View::GroupDetail => {
                self.group_detail_state = LoadState::Idle;
            },
        }
    }
}

} // verus!
