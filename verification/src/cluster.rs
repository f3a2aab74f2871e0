use vstd::prelude::*;

use crate::state::{
    BrokerInfo, DashboardData, GroupDetailData, GroupMemberInfo, GroupSummary, GroupsData,
    PartitionAssignment, PartitionInfo, TopicDetailData, TopicSummary, TopicsData,
};
use crate::text::{is_infix, is_internal, is_internal_name, lowercase, name_matches, push_signed_decimal, signed_decimal};

verus! {

/// One partition as the cluster metadata describes it.
#[derive(Debug, Clone)]
pub struct PartitionMeta {
    pub id: i32,
    pub leader: i32,
    pub replicas: Vec<i32>,
    pub isr: Vec<i32>,
}

/// One topic as the cluster metadata describes it.
#[derive(Debug, Clone)]
pub struct TopicMeta {
    pub name: String,
    pub partitions: Vec<PartitionMeta>,
}

/// One member of a consumer group, as the group list describes it.
#[derive(Debug, Clone)]
pub struct MemberListing {
    pub id: String,
    pub client_id: String,
    pub client_host: String,
}

/// One consumer group, as the group list describes it.
#[derive(Debug, Clone)]
pub struct GroupListing {
    pub name: String,
    pub state: String,
    pub protocol_type: String,
    pub protocol: String,
    pub members: Vec<MemberListing>,
}

pub open spec fn filter_view(filter: Option<&str>) -> Option<Seq<char>> {
    match filter {
        Some(f) => Some(f@),
        None => None,
    }
}

/// A name passes a filter when there is none, or when the lowercased filter occurs in
/// the lowercased name.
pub open spec fn passes(name: Seq<char>, filter: Option<Seq<char>>) -> bool {
    match filter {
        None => true,
        Some(f) => is_infix(lowercase(f), lowercase(name)),
    }
}

/// Number of the first `n` topics that are not internal.
pub open spec fn visible_count(topics: Seq<TopicMeta>, n: int) -> nat
    decreases n,
{
    if n <= 0 {
        0
    } else if is_internal(topics[n - 1].name@) {
        visible_count(topics, n - 1)
    } else {
        visible_count(topics, n - 1) + 1
    }
}

/// Indices, in order, of the first `n` topics that are listed: not internal, passing the filter.
pub open spec fn listed_topics(topics: Seq<TopicMeta>, filter: Option<Seq<char>>, n: int) -> Seq<usize>
    decreases n,
{
    if n <= 0 {
        Seq::empty()
    } else if !is_internal(topics[n - 1].name@) && passes(topics[n - 1].name@, filter) {
        listed_topics(topics, filter, n - 1).push((n - 1) as usize)
    } else {
        listed_topics(topics, filter, n - 1)
    }
}

/// Sum of the high watermarks of a topic's partitions, one that could not be read counting 0.
pub open spec fn total_high(highs: Seq<Option<i64>>) -> int
    decreases highs.len(),
{
    if highs.len() == 0 {
        0
    } else {
        total_high(highs.drop_last()) + match highs.last() {
            Some(h) => h as int,
            None => 0,
        }
    }
}

/// Every partial sum (as the summing runs) fits in an `i64`.
pub open spec fn sums_fit(highs: Seq<Option<i64>>) -> bool {
    forall|k: int| 0 <= k <= highs.len() ==> i64::MIN <= #[trigger] total_high(highs.take(k)) <= i64::MAX
}

pub open spec fn connected_text(name: Seq<char>, id: i32) -> Seq<char> {
    name + " (id "@ + signed_decimal(id as int) + ")"@
}

/// Number of topics that are not internal.
pub fn visible_topic_count(topics: &Vec<TopicMeta>) -> (r: usize)
    ensures
        r == visible_count(topics@, topics@.len() as int),
{
    let mut c: usize = 0;
    let mut i: usize = 0;
    while i < topics.len()
        invariant
            i <= topics@.len(),
            c == visible_count(topics@, i as int),
            c <= i,
        decreases topics@.len() - i,
    {
        if !is_internal_name(topics[i].name.as_str()) {
            c = c + 1;
        }
        i = i + 1;
    }
    c
}

/// The dashboard: the broker the metadata came from ("name (id N)"), the brokers, the
/// number of topics that are not internal, and the number of groups (0 when the group
/// list could not be read).
pub fn dashboard_data(
    orig_broker_name: &str,
    orig_broker_id: i32,
    brokers: Vec<BrokerInfo>,
    topics: &Vec<TopicMeta>,
    group_count: Option<usize>,
) -> (r: DashboardData)
    ensures
        r.connected_broker@ == connected_text(orig_broker_name@, orig_broker_id),
        r.broker_count == brokers@.len(),
        r.brokers == brokers,
        r.topic_count == visible_count(topics@, topics@.len() as int),
        r.group_count == match group_count {
            Some(n) => n,
            None => 0,
        },
{
    let mut connected = String::from_str(orig_broker_name);
    connected.append(" (id ");
    push_signed_decimal(&mut connected, orig_broker_id as i64);
    connected.append(")");
    let topic_count = visible_topic_count(topics);
    let group_count = match group_count {
        Some(n) => n,
        None => 0,
    };
    DashboardData {
        connected_broker: connected,
        broker_count: brokers.len(),
        topic_count,
        group_count,
        brokers,
    }
}

/// Indices of the topics to list: those not internal whose name passes the filter.
pub fn select_topics(topics: &Vec<TopicMeta>, filter: Option<&str>) -> (r: Vec<usize>)
    ensures
        r@ == listed_topics(topics@, filter_view(filter), topics@.len() as int),
{
    let mut r: Vec<usize> = Vec::new();
    let mut i: usize = 0;
    while i < topics.len()
        invariant
            i <= topics@.len(),
            r@ == listed_topics(topics@, filter_view(filter), i as int),
        decreases topics@.len() - i,
    {
        let name = topics[i].name.as_str();
        if !is_internal_name(name) && name_matches(name, filter) {
            r.push(i);
        }
        i = i + 1;
    }
    r
}

/// Sum of the high watermarks of a topic's partitions (`None`: could not be read, counts 0).
pub fn total_messages(highs: &Vec<Option<i64>>) -> (r: i64)
    requires
        sums_fit(highs@),
    ensures
        r == total_high(highs@),
{
    let mut t: i64 = 0;
    let mut i: usize = 0;
    while i < highs.len()
        invariant
            i <= highs@.len(),
            sums_fit(highs@),
            t == total_high(highs@.take(i as int)),
        decreases highs@.len() - i,
    {
        proof {
            assert(highs@.take(i + 1).drop_last() =~= highs@.take(i as int));
            assert(i64::MIN <= total_high(highs@.take(i + 1)) <= i64::MAX);
        }
        let h = match highs[i] {
            Some(h) => h,
            None => 0,
        };
        t = t + h;
        i = i + 1;
    }
    proof {
        assert(highs@.take(highs@.len() as int) =~= highs@);
    }
    t
}

/// The row of the topic list for one topic, given the high watermark read for each of
/// its partitions.
pub fn topic_summary(meta: &TopicMeta, highs: &Vec<Option<i64>>) -> (r: TopicSummary)
    requires
        sums_fit(highs@),
    ensures
        r.name == meta.name,
        r.partition_count == meta.partitions@.len(),
        r.total_messages == total_high(highs@),
{
    TopicSummary {
        name: meta.name.clone(),
        partition_count: meta.partitions.len(),
        total_messages: total_messages(highs),
    }
}

/// The topic list: one summary per selected topic, `highs[k]` being the watermarks read
/// for the partitions of topic `selected[k]`.
pub fn topics_data(topics: &Vec<TopicMeta>, selected: &Vec<usize>, highs: &Vec<Vec<Option<i64>>>) -> (r:
    TopicsData)
    requires
        highs@.len() == selected@.len(),
        forall|k: int| 0 <= k < selected@.len() ==> #[trigger] selected@[k] < topics@.len(),
        forall|k: int| 0 <= k < highs@.len() ==> sums_fit(#[trigger] highs@[k]@),
    ensures
        r.topics@.len() == selected@.len(),
        forall|k: int|
            0 <= k < selected@.len() ==> {
                &&& #[trigger] r.topics@[k].name == topics@[selected@[k] as int].name
                &&& r.topics@[k].partition_count == topics@[selected@[k] as int].partitions@.len()
                &&& r.topics@[k].total_messages == total_high(highs@[k]@)
            },
{
    let mut out: Vec<TopicSummary> = Vec::new();
    let mut k: usize = 0;
    while k < selected.len()
        invariant
            k <= selected@.len(),
            highs@.len() == selected@.len(),
            forall|j: int| 0 <= j < selected@.len() ==> #[trigger] selected@[j] < topics@.len(),
            forall|j: int| 0 <= j < highs@.len() ==> sums_fit(#[trigger] highs@[j]@),
            out@.len() == k,
            forall|j: int|
                0 <= j < k ==> {
                    &&& #[trigger] out@[j].name == topics@[selected@[j] as int].name
                    &&& out@[j].partition_count == topics@[selected@[j] as int].partitions@.len()
                    &&& out@[j].total_messages == total_high(highs@[j]@)
                },
        decreases selected@.len() - k,
    {
        let s = topic_summary(&topics[selected[k]], &highs[k]);
        out.push(s);
        k = k + 1;
    }
    TopicsData { topics: out }
}

/// Index of the first topic with exactly this name, or the error
/// "Topic '<name>' not found".
pub fn find_topic(topics: &Vec<TopicMeta>, name: &str) -> (r: Result<usize, String>)
    ensures
        match r {
            Ok(i) => i < topics@.len() && topics@[i as int].name@ == name@ && forall|j: int|
                0 <= j < i ==> #[trigger] topics@[j].name@ != name@,
            Err(e) => e@ == "Topic '"@ + name@ + "' not found"@ && forall|j: int|
                0 <= j < topics@.len() ==> #[trigger] topics@[j].name@ != name@,
        },
{
    let wanted = String::from_str(name);
    let mut i: usize = 0;
    while i < topics.len()
        invariant
            i <= topics@.len(),
            wanted@ == name@,
            forall|j: int| 0 <= j < i ==> #[trigger] topics@[j].name@ != name@,
        decreases topics@.len() - i,
    {
        if topics[i].name == wanted {
            return Ok(i);
        }
        i = i + 1;
    }
    let mut e = String::from_str("Topic '");
    e.append(name);
    e.append("' not found");
    Err(e)
}

/// A partition row of a topic's detail shows the metadata's partition and the high
/// watermark read for it (-1 when it could not be read), with no rate yet.
pub open spec fn is_partition_row(r: PartitionInfo, p: PartitionMeta, high: Option<i64>) -> bool {
    &&& r.id == p.id
    &&& r.leader == p.leader
    &&& r.replicas@ == p.replicas@
    &&& r.isr@ == p.isr@
    &&& r.log_end_offset == match high {
        Some(h) => h,
        None => -1i64,
    }
    &&& r.producer_rate is None
}

fn clone_ids(v: &Vec<i32>) -> (r: Vec<i32>)
    ensures
        r@ == v@,
{
    let mut out: Vec<i32> = Vec::new();
    let mut i: usize = 0;
    while i < v.len()
        invariant
            i <= v@.len(),
            out@ == v@.take(i as int),
        decreases v@.len() - i,
    {
        out.push(v[i]);
        proof {
            assert(v@.take(i + 1) =~= v@.take(i as int).push(v@[i as int]));
        }
        i = i + 1;
    }
    proof {
        assert(v@.take(v@.len() as int) =~= v@);
    }
    out
}

/// A topic's detail: each partition with its leader, replicas, in-sync replicas and
/// log-end offset (the high watermark read for it, -1 when it could not be read).
pub fn topic_detail_data(topic: &str, meta: &TopicMeta, highs: &Vec<Option<i64>>) -> (r: TopicDetailData)
    requires
        highs@.len() == meta.partitions@.len(),
    ensures
        r.topic@ == topic@,
        r.partitions@.len() == meta.partitions@.len(),
        forall|i: int|
            0 <= i < meta.partitions@.len() ==> is_partition_row(
                #[trigger] r.partitions@[i],
                meta.partitions@[i],
                highs@[i],
            ),
        forall|i: int|
            0 <= i < meta.partitions@.len() ==> {
                &&& (#[trigger] r.partitions@[i]).id == meta.partitions@[i].id
                &&& r.partitions@[i].leader == meta.partitions@[i].leader
                &&& r.partitions@[i].replicas@ == meta.partitions@[i].replicas@
                &&& r.partitions@[i].isr@ == meta.partitions@[i].isr@
                &&& (highs@[i] is Some ==> r.partitions@[i].log_end_offset == highs@[i]->0)
                &&& (highs@[i] is None ==> r.partitions@[i].log_end_offset == -1)
                &&& r.partitions@[i].producer_rate is None
            },
{
    let mut out: Vec<PartitionInfo> = Vec::new();
    let mut i: usize = 0;
    while i < meta.partitions.len()
        invariant
            i <= meta.partitions@.len(),
            highs@.len() == meta.partitions@.len(),
            out@.len() == i,
            forall|j: int| 0 <= j < i ==> is_partition_row(#[trigger] out@[j], meta.partitions@[j], highs@[j]),
        decreases meta.partitions@.len() - i,
    {
        let p = &meta.partitions[i];
        let log_end = match highs[i] {
            Some(h) => h,
            None => -1,
        };
        out.push(
            PartitionInfo {
                id: p.id,
                leader: p.leader,
                replicas: clone_ids(&p.replicas),
                isr: clone_ids(&p.isr),
                log_end_offset: log_end,
                producer_rate: None,
            },
        );
        i = i + 1;
    }
    TopicDetailData { topic: String::from_str(topic), partitions: out }
}

/// Indices, in order, of the first `n` groups whose name passes the filter.
pub open spec fn listed_groups(groups: Seq<GroupListing>, filter: Option<Seq<char>>, n: int) -> Seq<int>
    decreases n,
{
    if n <= 0 {
        Seq::empty()
    } else if passes(groups[n - 1].name@, filter) {
        listed_groups(groups, filter, n - 1).push(n - 1)
    } else {
        listed_groups(groups, filter, n - 1)
    }
}

pub open spec fn group_row(g: GroupListing) -> GroupSummary {
    GroupSummary {
        group_id: g.name,
        state: g.state,
        protocol_type: g.protocol_type,
        member_count: g.members@.len() as i32,
    }
}

/// The consumer group list: one summary per group whose name passes the filter, in order.
pub fn groups_data(groups: &Vec<GroupListing>, filter: Option<&str>) -> (r: GroupsData)
    ensures
        ({
            let sel = listed_groups(groups@, filter_view(filter), groups@.len() as int);
            &&& r.groups@.len() == sel.len()
            &&& forall|k: int| 0 <= k < sel.len() ==> #[trigger] r.groups@[k] == group_row(groups@[sel[k]])
            &&& forall|k: int|
                0 <= k < sel.len() ==> {
                    &&& (#[trigger] r.groups@[k]).group_id == groups@[sel[k]].name
                    &&& r.groups@[k].state == groups@[sel[k]].state
                    &&& r.groups@[k].protocol_type == groups@[sel[k]].protocol_type
                    &&& r.groups@[k].member_count == groups@[sel[k]].members@.len() as i32
                }
        }),
{
    let mut out: Vec<GroupSummary> = Vec::new();
    let mut i: usize = 0;
    while i < groups.len()
        invariant
            i <= groups@.len(),
            ({
                let sel = listed_groups(groups@, filter_view(filter), i as int);
                &&& out@.len() == sel.len()
                &&& forall|k: int| 0 <= k < sel.len() ==> #[trigger] out@[k] == group_row(groups@[sel[k]])
            }),
        decreases groups@.len() - i,
    {
        let g = &groups[i];
        if name_matches(g.name.as_str(), filter) {
            out.push(
                GroupSummary {
                    group_id: g.name.clone(),
                    state: g.state.clone(),
                    protocol_type: g.protocol_type.clone(),
                    member_count: g.members.len() as i32,
                },
            );
        }
        i = i + 1;
    }
    GroupsData { groups: out }
}

/// Index of the first group with exactly this name, or the error
/// "Consumer group '<name>' not found".
pub fn find_group(groups: &Vec<GroupListing>, group_id: &str) -> (r: Result<usize, String>)
    ensures
        match r {
            Ok(i) => i < groups@.len() && groups@[i as int].name@ == group_id@ && forall|j: int|
                0 <= j < i ==> #[trigger] groups@[j].name@ != group_id@,
            Err(e) => e@ == "Consumer group '"@ + group_id@ + "' not found"@ && forall|j: int|
                0 <= j < groups@.len() ==> #[trigger] groups@[j].name@ != group_id@,
        },
{
    let wanted = String::from_str(group_id);
    let mut i: usize = 0;
    while i < groups.len()
        invariant
            i <= groups@.len(),
            wanted@ == group_id@,
            forall|j: int| 0 <= j < i ==> #[trigger] groups@[j].name@ != group_id@,
        decreases groups@.len() - i,
    {
        if groups[i].name == wanted {
            return Ok(i);
        }
        i = i + 1;
    }
    let mut e = String::from_str("Consumer group '");
    e.append(group_id);
    e.append("' not found");
    Err(e)
}

pub open spec fn member_row(m: MemberListing) -> GroupMemberInfo {
    GroupMemberInfo { member_id: m.id, client_id: m.client_id, client_host: m.client_host }
}

/// The members of a group, in the order listed.
pub fn group_members(g: &GroupListing) -> (r: Vec<GroupMemberInfo>)
    ensures
        r@.len() == g.members@.len(),
        forall|i: int| 0 <= i < g.members@.len() ==> #[trigger] r@[i] == member_row(g.members@[i]),
        forall|i: int|
            0 <= i < g.members@.len() ==> {
                &&& (#[trigger] r@[i]).member_id == g.members@[i].id
                &&& r@[i].client_id == g.members@[i].client_id
                &&& r@[i].client_host == g.members@[i].client_host
            },
{
    let mut out: Vec<GroupMemberInfo> = Vec::new();
    let mut i: usize = 0;
    while i < g.members.len()
        invariant
            i <= g.members@.len(),
            out@.len() == i,
            forall|j: int| 0 <= j < i ==> #[trigger] out@[j] == member_row(g.members@[j]),
        decreases g.members@.len() - i,
    {
        let m = &g.members[i];
        out.push(
            GroupMemberInfo {
                member_id: m.id.clone(),
                client_id: m.client_id.clone(),
                client_host: m.client_host.clone(),
            },
        );
        i = i + 1;
    }
    out
}

/// The committed offset of a partition, when the group has committed a real position
/// (a number, not negative); other offsets (none, beginning, end, ...) give `None`.
pub fn committed_position(offset: Option<i64>) -> (r: Option<i64>)
    ensures
        r == match offset {
            Some(o) => if o >= 0 {
                Some(o)
            } else {
                None
            },
            None => None,
        },
{
    match offset {
        Some(o) => if o >= 0 {
            Some(o)
        } else {
            None
        },
        None => None,
    }
}

/// Lag of a consumer at `offset` behind a log ending at `log_end`: how far it is behind
/// (never negative), or -1 when the log end is unknown (negative).
pub open spec fn lag_of(offset: i64, log_end: i64) -> i64 {
    if log_end >= 0 {
        if log_end - offset > 0 {
            (log_end - offset) as i64
        } else {
            0
        }
    } else {
        -1i64
    }
}

/// The assignment row of one partition a group has committed `offset` on; the log end is
/// the high watermark read for it (-1 when it could not be read).
pub fn partition_assignment(topic: String, partition: i32, offset: i64, high: Option<i64>) -> (r:
    PartitionAssignment)
    requires
        offset >= 0,
    ensures
        r.topic == topic,
        r.partition_id == partition,
        r.current_offset == offset,
        r.log_end_offset == match high {
            Some(h) => h,
            None => -1i64,
        },
        r.lag == lag_of(offset, r.log_end_offset),
        r.consumer_rate is None,
{
    let log_end = match high {
        Some(h) => h,
        None => -1,
    };
    let lag = if log_end >= 0 {
        if log_end - offset > 0 {
            log_end - offset
        } else {
            0
        }
    } else {
        -1
    };
    PartitionAssignment {
        topic,
        partition_id: partition,
        current_offset: offset,
        log_end_offset: log_end,
        lag,
        consumer_rate: None,
    }
}

/// One partition of the committed-offset reply: its topic, partition and committed
/// offset, when that offset is a number (`None` for beginning, end, stored, invalid, ...).
#[derive(Debug, Clone)]
pub struct CommittedEntry {
    pub topic: String,
    pub partition: i32,
    pub offset: Option<i64>,
}

pub open spec fn has_position(e: CommittedEntry) -> bool {
    e.offset matches Some(o) && o >= 0
}

/// Indices, in order, of the first `n` committed entries that hold a real position.
pub open spec fn positioned(entries: Seq<CommittedEntry>, n: int) -> Seq<int>
    decreases n,
{
    if n <= 0 {
        Seq::empty()
    } else if has_position(entries[n - 1]) {
        positioned(entries, n - 1).push(n - 1)
    } else {
        positioned(entries, n - 1)
    }
}

/// An assignment row built from a committed entry and the high watermark read for it.
pub open spec fn is_assignment_of(a: PartitionAssignment, e: CommittedEntry, high: Option<i64>) -> bool {
    &&& a.topic == e.topic
    &&& a.partition_id == e.partition
    &&& e.offset == Some(a.current_offset)
    &&& a.log_end_offset == match high {
        Some(h) => h,
        None => -1i64,
    }
    &&& a.lag == lag_of(a.current_offset, a.log_end_offset)
    &&& a.consumer_rate is None
}

/// Every row of a group's assignments comes from an entry of the committed-offset reply
/// holding a real (non-negative) position, taken in the reply's order.
pub proof fn lemma_assignments_come_from_positions(entries: Seq<CommittedEntry>, n: int)
    requires
        0 <= n <= entries.len(),
    ensures
        forall|k: int|
            0 <= k < positioned(entries, n).len() ==> {
                let i = #[trigger] positioned(entries, n)[k];
                0 <= i < n && has_position(entries[i])
            },
        forall|k: int|
            0 <= k < positioned(entries, n).len() ==> {
                let i = #[trigger] positioned(entries, n)[k];
                entries[i].offset is Some && entries[i].offset->0 >= 0
            },
        forall|k: int, j: int|
            0 <= k < j < positioned(entries, n).len() ==> positioned(entries, n)[k] < positioned(entries, n)[j],
    decreases n,
{
    if n > 0 {
        lemma_assignments_come_from_positions(entries, n - 1);
        let prev = positioned(entries, n - 1);
        let cur = positioned(entries, n);
        assert forall|k: int| 0 <= k < cur.len() implies {
            let i = #[trigger] cur[k];
            0 <= i < n && has_position(entries[i])
        } by {
            if k < prev.len() {
                assert(cur[k] == prev[k]);
            }
        }
        assert forall|k: int, j: int| 0 <= k < j < cur.len() implies cur[k] < cur[j] by {
            assert(cur[k] == prev[k]);
            if j < prev.len() {
                assert(cur[j] == prev[j]);
            }
        }
    }
}

/// No committed position is left out: every entry whose committed offset is a number, not
/// negative, gets a row.
pub proof fn lemma_every_position_gets_a_row(entries: Seq<CommittedEntry>, n: int, i: int)
    requires
        0 <= i < n <= entries.len(),
        entries[i].offset is Some,
        entries[i].offset->0 >= 0,
    ensures
        exists|k: int| 0 <= k < positioned(entries, n).len() && positioned(entries, n)[k] == i,
    decreases n,
{
    let prev = positioned(entries, n - 1);
    let cur = positioned(entries, n);
    if i == n - 1 {
        assert(cur[prev.len() as int] == i);
    } else {
        lemma_every_position_gets_a_row(entries, n - 1, i);
        let k = choose|k: int| 0 <= k < prev.len() && prev[k] == i;
        assert(cur[k] == prev[k]);
    }
}

/// Only groups whose name passes the filter are listed, in the listing's order.
pub proof fn lemma_group_list_exact(groups: Seq<GroupListing>, filter: Option<Seq<char>>, n: int)
    requires
        0 <= n <= groups.len(),
    ensures
        forall|k: int|
            0 <= k < listed_groups(groups, filter, n).len() ==> {
                let i = #[trigger] listed_groups(groups, filter, n)[k];
                &&& 0 <= i < n
                &&& match filter {
                    None => true,
                    Some(f) => is_infix(lowercase(f), lowercase(groups[i].name@)),
                }
            },
        forall|k: int, j: int|
            0 <= k < j < listed_groups(groups, filter, n).len() ==> listed_groups(groups, filter, n)[k]
                < listed_groups(groups, filter, n)[j],
    decreases n,
{
    if n > 0 {
        lemma_group_list_exact(groups, filter, n - 1);
        let prev = listed_groups(groups, filter, n - 1);
        let cur = listed_groups(groups, filter, n);
        assert forall|k: int| 0 <= k < prev.len() implies cur[k] == prev[k] by {}
        assert forall|k: int, j: int| 0 <= k < j < cur.len() implies cur[k] < cur[j] by {
            assert(cur[k] == prev[k]);
            if j < prev.len() {
                assert(cur[j] == prev[j]);
            }
        }
    }
}

/// Every group whose name passes the filter is listed.
pub proof fn lemma_group_list_complete(groups: Seq<GroupListing>, filter: Option<Seq<char>>, n: int, i: int)
    requires
        0 <= i < n <= groups.len(),
        match filter {
            None => true,
            Some(f) => is_infix(lowercase(f), lowercase(groups[i].name@)),
        },
    ensures
        exists|k: int| 0 <= k < listed_groups(groups, filter, n).len() && listed_groups(groups, filter, n)[k] == i,
    decreases n,
{
    let prev = listed_groups(groups, filter, n - 1);
    let cur = listed_groups(groups, filter, n);
    if i == n - 1 {
        assert(cur[prev.len() as int] == i);
    } else {
        lemma_group_list_complete(groups, filter, n - 1, i);
        let k = choose|k: int| 0 <= k < prev.len() && prev[k] == i;
        assert(cur[k] == prev[k]);
    }
}

/// Every topic that is not internal and whose name passes the filter is listed.
pub proof fn lemma_topic_list_complete(topics: Seq<TopicMeta>, filter: Option<Seq<char>>, n: int, i: int)
    requires
        0 <= i < n <= topics.len(),
        topics.len() <= usize::MAX,
        !(topics[i].name@.len() > 0 && topics[i].name@[0] == '_'),
        match filter {
            None => true,
            Some(f) => is_infix(lowercase(f), lowercase(topics[i].name@)),
        },
    ensures
        exists|k: int| 0 <= k < listed_topics(topics, filter, n).len() && listed_topics(topics, filter, n)[k] == i,
    decreases n,
{
    let prev = listed_topics(topics, filter, n - 1);
    let cur = listed_topics(topics, filter, n);
    if i == n - 1 {
        assert(cur[prev.len() as int] == i);
    } else {
        lemma_topic_list_complete(topics, filter, n - 1, i);
        let k = choose|k: int| 0 <= k < prev.len() && prev[k] == i;
        assert(cur[k] == prev[k]);
    }
}

/// The lag of a consumer at a committed offset: how far the log end is ahead of it, 0 when
/// it is not ahead, and -1 when the log end is unknown (negative).
pub proof fn lemma_lag(offset: i64, log_end: i64)
    requires
        offset >= 0,
    ensures
        log_end >= offset ==> lag_of(offset, log_end) == log_end - offset,
        0 <= log_end < offset ==> lag_of(offset, log_end) == 0,
        log_end < 0 ==> lag_of(offset, log_end) == -1,
        lag_of(offset, log_end) >= -1,
{
}

/// The committed entries whose watermark is to be read: those holding a real position.
pub fn positions_to_read(entries: &Vec<CommittedEntry>) -> (r: Vec<usize>)
    ensures
        r@.len() == positioned(entries@, entries@.len() as int).len(),
        forall|k: int| 0 <= k < r@.len() ==> #[trigger] r@[k] == positioned(entries@, entries@.len() as int)[k],
{
    let mut r: Vec<usize> = Vec::new();
    let mut i: usize = 0;
    while i < entries.len()
        invariant
            i <= entries@.len(),
            r@.len() == positioned(entries@, i as int).len(),
            forall|k: int| 0 <= k < r@.len() ==> #[trigger] r@[k] == positioned(entries@, i as int)[k],
        decreases entries@.len() - i,
    {
        if let Some(_) = committed_position(entries[i].offset) {
            r.push(i);
        }
        i = i + 1;
    }
    r
}

/// The assignments of a group: `None` when there are no committed offsets to show (nothing
/// to ask for, or the query failed), which gives none; otherwise one row per entry holding
/// a real position, in the reply's order, `highs[k]` being the watermark read for the
/// `k`-th of them.
pub fn group_assignments(committed: Option<&Vec<CommittedEntry>>, highs: &Vec<Option<i64>>) -> (r: Vec<
    PartitionAssignment,
>)
    requires
        match committed {
            Some(entries) => highs@.len() == positioned(entries@, entries@.len() as int).len(),
            None => true,
        },
    ensures
        match committed {
            None => r@.len() == 0,
            Some(entries) => {
                let sel = positioned(entries@, entries@.len() as int);
                &&& r@.len() == sel.len()
                &&& forall|k: int|
                    0 <= k < sel.len() ==> is_assignment_of(#[trigger] r@[k], entries@[sel[k]], highs@[k])
                &&& forall|k: int|
                    0 <= k < sel.len() ==> {
                        let e = entries@[sel[k]];
                        &&& (#[trigger] r@[k]).topic == e.topic
                        &&& r@[k].partition_id == e.partition
                        &&& e.offset == Some(r@[k].current_offset)
                        &&& r@[k].current_offset >= 0
                        &&& (highs@[k] is Some ==> r@[k].log_end_offset == highs@[k]->0)
                        &&& (highs@[k] is None ==> r@[k].log_end_offset == -1)
                        &&& (r@[k].log_end_offset >= r@[k].current_offset ==> r@[k].lag == r@[k].log_end_offset - r@[k].current_offset)
                        &&& (0 <= r@[k].log_end_offset < r@[k].current_offset ==> r@[k].lag == 0)
                        &&& (r@[k].log_end_offset < 0 ==> r@[k].lag == -1)
                        &&& r@[k].consumer_rate is None
                    }
            },
        },
{
    match committed {
        None => Vec::new(),
        Some(entries) => {
            let mut out: Vec<PartitionAssignment> = Vec::new();
            let hl = highs.len();
            let mut i: usize = 0;
            let mut k: usize = 0;
            while i < entries.len()
                invariant
                    hl == highs@.len(),
                    i <= entries@.len(),
                    highs@.len() == positioned(entries@, entries@.len() as int).len(),
                    k == positioned(entries@, i as int).len(),
                    out@.len() == k,
                    forall|j: int|
                        0 <= j < k ==> is_assignment_of(
                            #[trigger] out@[j],
                            entries@[positioned(entries@, i as int)[j]],
                            highs@[j],
                        ),
                decreases entries@.len() - i,
            {
                proof {
                    lemma_positioned_prefix(entries@, i as int + 1, entries@.len() as int);
                }
                let ghost before = positioned(entries@, i as int);
                if let Some(o) = committed_position(entries[i].offset) {
                    let e = &entries[i];
                    out.push(partition_assignment(e.topic.clone(), e.partition, o, highs[k]));
                    k = k + 1;
                }
                proof {
                    let after = positioned(entries@, i as int + 1);
                    assert forall|j: int| 0 <= j < before.len() implies #[trigger] after[j] == before[j] by {}
                }
                i = i + 1;
            }
            proof {
                let sel = positioned(entries@, entries@.len() as int);
                assert(sel == positioned(entries@, i as int));
                lemma_assignments_come_from_positions(entries@, entries@.len() as int);
            }
            out
        },
    }
}

proof fn lemma_positioned_prefix(entries: Seq<CommittedEntry>, a: int, b: int)
    requires
        0 <= a <= b <= entries.len(),
    ensures
        positioned(entries, b).len() >= positioned(entries, a).len(),
        forall|j: int| 0 <= j < positioned(entries, a).len() ==> #[trigger] positioned(entries, b)[j]
            == positioned(entries, a)[j],
    decreases b - a,
{
    if a < b {
        lemma_positioned_prefix(entries, a, b - 1);
    }
}

/// A group's detail: its state, protocol and members (from its listing), and its
/// assignments built from the committed offsets as `group_assignments` builds them.
pub fn group_detail(
    group_id: &str,
    g: &GroupListing,
    committed: Option<&Vec<CommittedEntry>>,
    highs: &Vec<Option<i64>>,
) -> (r: GroupDetailData)
    requires
        match committed {
            Some(entries) => highs@.len() == positioned(entries@, entries@.len() as int).len(),
            None => true,
        },
    ensures
        r.group_id@ == group_id@,
        r.state == g.state,
        r.protocol == g.protocol,
        r.members@.len() == g.members@.len(),
        forall|i: int| 0 <= i < g.members@.len() ==> #[trigger] r.members@[i] == member_row(g.members@[i]),
        forall|i: int|
            0 <= i < g.members@.len() ==> {
                &&& (#[trigger] r.members@[i]).member_id == g.members@[i].id
                &&& r.members@[i].client_id == g.members@[i].client_id
                &&& r.members@[i].client_host == g.members@[i].client_host
            },
        match committed {
            None => r.assignments@.len() == 0,
            Some(entries) => {
                let sel = positioned(entries@, entries@.len() as int);
                &&& r.assignments@.len() == sel.len()
                &&& forall|k: int|
                    0 <= k < sel.len() ==> is_assignment_of(
                        #[trigger] r.assignments@[k],
                        entries@[sel[k]],
                        highs@[k],
                    )
                &&& forall|k: int|
                    0 <= k < sel.len() ==> {
                        let e = entries@[sel[k]];
                        &&& (#[trigger] r.assignments@[k]).topic == e.topic
                        &&& r.assignments@[k].partition_id == e.partition
                        &&& e.offset == Some(r.assignments@[k].current_offset)
                        &&& r.assignments@[k].current_offset >= 0
                        &&& (highs@[k] is Some ==> r.assignments@[k].log_end_offset == highs@[k]->0)
                        &&& (highs@[k] is None ==> r.assignments@[k].log_end_offset == -1)
                        &&& (r.assignments@[k].log_end_offset >= r.assignments@[k].current_offset ==> r.assignments@[k].lag == r.assignments@[k].log_end_offset - r.assignments@[k].current_offset)
                        &&& (0 <= r.assignments@[k].log_end_offset < r.assignments@[k].current_offset ==> r.assignments@[k].lag == 0)
                        &&& (r.assignments@[k].log_end_offset < 0 ==> r.assignments@[k].lag == -1)
                        &&& r.assignments@[k].consumer_rate is None
                    }
            },
        },
{
    GroupDetailData {
        group_id: String::from_str(group_id),
        state: g.state.clone(),
        protocol: g.protocol.clone(),
        members: group_members(g),
        assignments: group_assignments(committed, highs),
    }
}

} // verus!
