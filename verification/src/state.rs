use vstd::prelude::*;

verus! {

/// A throughput measured between two samples of one partition's offset:
/// `messages` offsets were added over `elapsed_nanos` nanoseconds.
/// The rate in messages per second is `messages * 1e9 / elapsed_nanos`;
/// a `Rate` is only ever made with `elapsed_nanos > 0`.
#[derive(Debug, Clone, Copy, PartialEq, Eq, Structural)]
pub struct Rate {
    pub messages: u64,
    pub elapsed_nanos: u64,
}

/// The loading status of one screen's data.
#[derive(Debug, Clone)]
pub enum LoadState<T: Clone> {
    Idle,
    Loading,
    Loaded(T),
    Error(String),
}

impl<T: Clone> LoadState<T> {
    pub fn is_idle(&self) -> (r: bool)
        ensures
            r == (*self is Idle),
    {
        match self {
            LoadState::Idle => true,
            _ => false,
        }
    }
}

#[derive(Debug, Clone)]
pub struct BrokerInfo {
    pub id: i32,
    pub host: String,
    pub port: i32,
}

#[derive(Debug, Clone)]
pub struct DashboardData {
    pub connected_broker: String,
    pub broker_count: usize,
    pub topic_count: usize,
    pub group_count: usize,
    pub brokers: Vec<BrokerInfo>,
}

#[derive(Debug, Clone)]
pub struct GroupSummary {
    pub group_id: String,
    pub state: String,
    pub protocol_type: String,
    pub member_count: i32,
}

#[derive(Debug, Clone)]
pub struct GroupsData {
    pub groups: Vec<GroupSummary>,
}

#[derive(Debug, Clone)]
pub struct PartitionAssignment {
    pub topic: String,
    pub partition_id: i32,
    pub current_offset: i64,
    pub log_end_offset: i64,
    pub lag: i64,
    /// Consumption rate since the previous sample; `None` on the first measurement.
    pub consumer_rate: Option<Rate>,
}

#[derive(Debug, Clone)]
pub struct GroupMemberInfo {
    pub member_id: String,
    pub client_id: String,
    pub client_host: String,
}

#[derive(Debug, Clone)]
pub struct GroupDetailData {
    pub group_id: String,
    pub state: String,
    pub protocol: String,
    pub members: Vec<GroupMemberInfo>,
    pub assignments: Vec<PartitionAssignment>,
}

#[derive(Debug, Clone)]
pub struct TopicSummary {
    pub name: String,
    pub partition_count: usize,
    pub total_messages: i64,
}

#[derive(Debug, Clone)]
pub struct TopicsData {
    pub topics: Vec<TopicSummary>,
}

#[derive(Debug, Clone)]
pub struct PartitionInfo {
    pub id: i32,
    pub leader: i32,
    pub replicas: Vec<i32>,
    pub isr: Vec<i32>,
    pub log_end_offset: i64,
    /// Production rate since the previous sample; `None` on the first measurement.
    pub producer_rate: Option<Rate>,
}

#[derive(Debug, Clone)]
pub struct TopicDetailData {
    pub topic: String,
    pub partitions: Vec<PartitionInfo>,
}

} // verus!
