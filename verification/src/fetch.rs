use vstd::prelude::*;

use vstd::view::View as _;
use crate::app::{App, Tab, View};
use crate::rates::{
    assignment_sample, partition_sample, rate_assignments, rate_partitions, rated_assignment,
    rated_partition,
};
use crate::state::{DashboardData, GroupDetailData, GroupsData, LoadState, TopicDetailData, TopicsData};

verus! {

/// What the shown screen needs fetched from the cluster.
#[derive(Debug, Clone)]
pub enum FetchRequest {
    Dashboard,
    /// Topics, with the name filter to apply.
    Topics(Option<String>),
    /// Consumer groups, with the name filter to apply.
    Groups(Option<String>),
    TopicDetail(String),
    GroupDetail(String),
}

/// What a fetch brought back: the data, or the error's text.
#[derive(Debug)]
pub enum FetchOutcome {
    Dashboard(Result<DashboardData, String>),
    Topics(Result<TopicsData, String>),
    Groups(Result<GroupsData, String>),
    TopicDetail(Result<TopicDetailData, String>),
    GroupDetail(Result<GroupDetailData, String>),
}

/// The five places screen data is kept.
#[derive(Debug, Clone, Copy, PartialEq, Eq, Structural)]
pub enum Slot {
    Dashboard,
    Topics,
    Groups,
    TopicDetail,
    GroupDetail,
}

/// A slot that a fetch starts on shows "loading", unless it already shows data,
/// which stays on screen while it is refreshed.
pub open spec fn started<T: Clone>(s: LoadState<T>) -> LoadState<T> {
    match s {
        LoadState::Loaded(_) => s,
        _ => LoadState::Loading,
    }
}

/// A failed fetch shows its error, unless data is on screen, which is then kept.
pub open spec fn failed<T: Clone>(s: LoadState<T>, e: String) -> LoadState<T> {
    match s {
        LoadState::Loaded(_) => s,
        _ => LoadState::Error(e),
    }
}

/// The selection index after a list of `len` items arrives: kept if it still points
/// into the list, else moved to the last item (0 for an empty list).
pub open spec fn clamp_index(index: usize, len: nat) -> usize {
    if len == 0 {
        0
    } else if index < len - 1 {
        index
    } else {
        (len - 1) as usize
    }
}

fn clamp_to_len(index: usize, len: usize) -> (r: usize)
    ensures
        r == clamp_index(index, len as nat),
{
    if len == 0 {
        0
    } else if index < len - 1 {
        index
    } else {
        len - 1
    }
}

fn start<T: Clone>(s: &mut LoadState<T>)
    ensures
        *final(s) == started(*old(s)),
{
    if let LoadState::Loaded(_) = s {
    } else {
        *s = LoadState::Loading;
    }
}

fn fail<T: Clone>(s: &mut LoadState<T>, e: String)
    ensures
        *final(s) == failed(*old(s), e),
{
    if let LoadState::Loaded(_) = s {
    } else {
        *s = LoadState::Error(e);
    }
}

fn clone_filter(f: &Option<String>) -> (r: Option<String>)
    ensures
        r == *f,
{
    match f {
        Some(s) => Some(s.clone()),
        None => None,
    }
}

impl App {
    /// The slot that holds the shown screen's data.
    pub open spec fn shown_slot(self) -> Slot {
        match self.current_view {
            View::Normal => match self.current_tab {
                Tab::Dashboard => Slot::Dashboard,
                Tab::Topics => Slot::Topics,
                Tab::ConsumerGroups => Slot::Groups,
            },
            View::TopicDetail => Slot::TopicDetail,
            View::GroupDetail => Slot::GroupDetail,
        }
    }

    pub open spec fn slot_idle(self, slot: Slot) -> bool {
        match slot {
            Slot::Dashboard => self.dashboard_state is Idle,
            Slot::Topics => self.topics_state is Idle,
            Slot::Groups => self.groups_state is Idle,
            Slot::TopicDetail => self.topic_detail_state is Idle,
            Slot::GroupDetail => self.group_detail_state is Idle,
        }
    }

    pub fn shown_slot_exec(&self) -> (r: Slot)
        ensures
            r == self.shown_slot(),
    {
        match self.current_view {
            View::Normal => match self.current_tab {
                Tab::Dashboard => Slot::Dashboard,
                Tab::Topics => Slot::Topics,
                Tab::ConsumerGroups => Slot::Groups,
            },
            View::TopicDetail => Slot::TopicDetail,
            View::GroupDetail => Slot::GroupDetail,
        }
    }

    /// Starts fetching the shown screen's data: unless `force` is set, only a screen
    /// with no data yet (idle) is fetched. Returns what to fetch, or `None` when nothing
    /// is to be fetched. A detail view with nothing selected fails at once with
    /// "No topic selected" / "No group selected".
    pub fn begin_fetch(&mut self, force: bool) -> (r: Option<FetchRequest>)
        ensures
            !force && !old(self).slot_idle(old(self).shown_slot()) ==> r is None && *final(self)
                == *old(self),
            force || old(self).slot_idle(old(self).shown_slot()) ==> match old(self).shown_slot() {
                Slot::Dashboard => r == Some(FetchRequest::Dashboard) && *final(self) == App {
                    dashboard_state: started(old(self).dashboard_state),
                    ..*old(self)
                },
                Slot::Topics => r == Some(FetchRequest::Topics(old(self).cli.topic_filter))
                    && *final(self) == App { topics_state: started(old(self).topics_state), ..*old(self) },
                Slot::Groups => r == Some(FetchRequest::Groups(old(self).cli.group_filter))
                    && *final(self) == App { groups_state: started(old(self).groups_state), ..*old(self) },
                Slot::TopicDetail => match old(self).selected_topic {
                    Some(t) => r == Some(FetchRequest::TopicDetail(t)) && *final(self) == App {
                        topic_detail_state: started(old(self).topic_detail_state),
                        ..*old(self)
                    },
                    None => {
                        &&& r is None
                        &&& *final(self) == App {
                            topic_detail_state: final(self).topic_detail_state,
                            ..*old(self)
                        }
                        &&& old(self).topic_detail_state is Loaded ==> final(self).topic_detail_state
                            == old(self).topic_detail_state
                        &&& !(old(self).topic_detail_state is Loaded) ==> (final(self).topic_detail_state matches LoadState::Error(e) && e@
                            == "No topic selected"@)
                    },
                },
                Slot::GroupDetail => match old(self).selected_group {
                    Some(g) => r == Some(FetchRequest::GroupDetail(g)) && *final(self) == App {
                        group_detail_state: started(old(self).group_detail_state),
                        ..*old(self)
                    },
                    None => {
                        &&& r is None
                        &&& *final(self) == App {
                            group_detail_state: final(self).group_detail_state,
                            ..*old(self)
                        }
                        &&& old(self).group_detail_state is Loaded ==> final(self).group_detail_state
                            == old(self).group_detail_state
                        &&& !(old(self).group_detail_state is Loaded) ==> (final(self).group_detail_state matches LoadState::Error(e) && e@
                            == "No group selected"@)
                    },
                },
            },
            old(self).inv() ==> final(self).inv(),
    {
        let slot = self.shown_slot_exec();
        let idle = match slot {
            Slot::Dashboard => self.dashboard_state.is_idle(),
            Slot::Topics => self.topics_state.is_idle(),
            Slot::Groups => self.groups_state.is_idle(),
            Slot::TopicDetail => self.topic_detail_state.is_idle(),
            Slot::GroupDetail => self.group_detail_state.is_idle(),
        };
        if !force && !idle {
            return None;
        }
        match slot {
            Slot::Dashboard => {
                start(&mut self.dashboard_state);
                Some(FetchRequest::Dashboard)
            },
            Slot::Topics => {
                start(&mut self.topics_state);
                Some(FetchRequest::Topics(clone_filter(&self.cli.topic_filter)))
            },
            Slot::Groups => {
                start(&mut self.groups_state);
                Some(FetchRequest::Groups(clone_filter(&self.cli.group_filter)))
            },
            Slot::TopicDetail => match &self.selected_topic {
                Some(t) => {
                    let t = t.clone();
                    start(&mut self.topic_detail_state);
                    Some(FetchRequest::TopicDetail(t))
                },
                None => {
                    fail(&mut self.topic_detail_state, String::from_str("No topic selected"));
                    None
                },
            },
            Slot::GroupDetail => match &self.selected_group {
                Some(g) => {
                    let g = g.clone();
                    start(&mut self.group_detail_state);
                    Some(FetchRequest::GroupDetail(g))
                },
                None => {
                    fail(&mut self.group_detail_state, String::from_str("No group selected"));
                    None
                },
            },
        }
    }

    /// Takes in what a fetch brought back, at time `now_nanos`. Data replaces the slot's
    /// content (a list's selection is moved into the new list; detail data gets rates
    /// against the offsets seen at the previous fetch, and its offsets are kept for the
    /// next one). An error is shown unless the slot still shows earlier data.
    pub fn finish_fetch(&mut self, outcome: FetchOutcome, now_nanos: u64)
        ensures
            match outcome {
                FetchOutcome::Dashboard(Ok(d)) => *final(self) == App {
                    dashboard_state: LoadState::Loaded(d),
                    ..*old(self)
                },
                FetchOutcome::Dashboard(Err(e)) => *final(self) == App {
                    dashboard_state: failed(old(self).dashboard_state, e),
                    ..*old(self)
                },
                FetchOutcome::Topics(Ok(d)) => *final(self) == App {
                    topics_state: LoadState::Loaded(d),
                    topic_list_index: clamp_index(old(self).topic_list_index, d.topics@.len()),
                    ..*old(self)
                },
                FetchOutcome::Topics(Err(e)) => *final(self) == App {
                    topics_state: failed(old(self).topics_state, e),
                    ..*old(self)
                },
                FetchOutcome::Groups(Ok(d)) => *final(self) == App {
                    groups_state: LoadState::Loaded(d),
                    group_list_index: clamp_index(old(self).group_list_index, d.groups@.len()),
                    ..*old(self)
                },
                FetchOutcome::Groups(Err(e)) => *final(self) == App {
                    groups_state: failed(old(self).groups_state, e),
                    ..*old(self)
                },
                FetchOutcome::TopicDetail(Ok(d)) => {
                    &&& *final(self) == App {
                        topic_detail_state: final(self).topic_detail_state,
                        prev_topic_offsets: final(self).prev_topic_offsets,
                        ..*old(self)
                    }
                    &&& final(self).topic_detail_state matches LoadState::Loaded(nd) && {
                        &&& nd.topic == d.topic
                        &&& nd.partitions@.len() == d.partitions@.len()
                        &&& forall|i: int|
                            0 <= i < d.partitions@.len() ==> #[trigger] nd.partitions@[i]
                                == rated_partition(
                                d.partitions@[i],
                                d.topic@,
                                old(self).prev_topic_offsets@,
                                now_nanos,
                            )
                    }
                    &&& final(self).prev_topic_offsets@.len() == d.partitions@.len()
                    &&& forall|i: int|
                        0 <= i < d.partitions@.len() ==> #[trigger] final(self).prev_topic_offsets@[i]
                            == partition_sample(d.topic, d.partitions@[i], now_nanos)
                },
                FetchOutcome::TopicDetail(Err(e)) => *final(self) == App {
                    topic_detail_state: failed(old(self).topic_detail_state, e),
                    ..*old(self)
                },
                FetchOutcome::GroupDetail(Ok(d)) => {
                    &&& *final(self) == App {
                        group_detail_state: final(self).group_detail_state,
                        prev_offsets: final(self).prev_offsets,
                        ..*old(self)
                    }
                    &&& final(self).group_detail_state matches LoadState::Loaded(nd) && {
                        &&& nd.group_id == d.group_id
                        &&& nd.state == d.state
                        &&& nd.protocol == d.protocol
                        &&& nd.members == d.members
                        &&& nd.assignments@.len() == d.assignments@.len()
                        &&& forall|i: int|
                            0 <= i < d.assignments@.len() ==> #[trigger] nd.assignments@[i]
                                == rated_assignment(d.assignments@[i], old(self).prev_offsets@, now_nanos)
                    }
                    &&& final(self).prev_offsets@.len() == d.assignments@.len()
                    &&& forall|i: int|
                        0 <= i < d.assignments@.len() ==> #[trigger] final(self).prev_offsets@[i]
                            == assignment_sample(d.assignments@[i], now_nanos)
                },
                FetchOutcome::GroupDetail(Err(e)) => *final(self) == App {
                    group_detail_state: failed(old(self).group_detail_state, e),
                    ..*old(self)
                },
            },
            old(self).inv() ==> final(self).inv(),
    {
        match outcome {
            FetchOutcome::Dashboard(Ok(d)) => {
                self.dashboard_state = LoadState::Loaded(d);
            },
            FetchOutcome::Dashboard(Err(e)) => {
                fail(&mut self.dashboard_state, e);
            },
            FetchOutcome::Topics(Ok(d)) => {
                self.topic_list_index = clamp_to_len(self.topic_list_index, d.topics.len());
                self.topics_state = LoadState::Loaded(d);
            },
            FetchOutcome::Topics(Err(e)) => {
                fail(&mut self.topics_state, e);
            },
            FetchOutcome::Groups(Ok(d)) => {
                self.group_list_index = clamp_to_len(self.group_list_index, d.groups.len());
                self.groups_state = LoadState::Loaded(d);
            },
            FetchOutcome::Groups(Err(e)) => {
                fail(&mut self.groups_state, e);
            },
            FetchOutcome::TopicDetail(Ok(d)) => {
                let mut d = d;
                let next = rate_partitions(&mut d, &self.prev_topic_offsets, now_nanos);
                self.prev_topic_offsets = next;
                self.topic_detail_state = LoadState::Loaded(d);
            },
            FetchOutcome::TopicDetail(Err(e)) => {
                fail(&mut self.topic_detail_state, e);
            },
            FetchOutcome::GroupDetail(Ok(d)) => {
                let mut d = d;
                let next = rate_assignments(&mut d, &self.prev_offsets, now_nanos);
                self.prev_offsets = next;
                self.group_detail_state = LoadState::Loaded(d);
            },
            FetchOutcome::GroupDetail(Err(e)) => {
                fail(&mut self.group_detail_state, e);
            },
        }
    }
}

} // verus!
