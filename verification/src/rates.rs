use vstd::prelude::*;

use crate::state::{GroupDetailData, PartitionAssignment, PartitionInfo, Rate, TopicDetailData};

verus! {

/// The offset of one partition seen at one moment (nanoseconds on a monotonic clock).
#[derive(Debug, Clone)]
pub struct OffsetSample {
    pub topic: String,
    pub partition: i32,
    pub offset: i64,
    pub at_nanos: u64,
}

pub open spec fn sample_matches(s: OffsetSample, topic: Seq<char>, partition: i32) -> bool {
    s.topic@ == topic && s.partition == partition
}

/// The sample kept for a (topic, partition) key: the last one recorded for it,
/// as a map that records samples in order would keep it.
pub open spec fn last_sample(samples: Seq<OffsetSample>, topic: Seq<char>, partition: i32) -> Option<
    OffsetSample,
>
    decreases samples.len(),
{
    if samples.len() == 0 {
        None
    } else if sample_matches(samples.last(), topic, partition) {
        Some(samples.last())
    } else {
        last_sample(samples.drop_last(), topic, partition)
    }
}

/// The rate between a previous sample and the offset seen `now`: defined when time has
/// passed and the offset has not gone back.
pub open spec fn measured_rate(prev: Option<OffsetSample>, offset: i64, now: u64) -> Option<Rate> {
    match prev {
        Some(s) => if now > s.at_nanos && offset >= s.offset {
            Some(Rate { messages: (offset - s.offset) as u64, elapsed_nanos: (now - s.at_nanos) as u64 })
        } else {
            None
        },
        None => None,
    }
}

pub open spec fn rated_partition(
    p: PartitionInfo,
    topic: Seq<char>,
    prev: Seq<OffsetSample>,
    now: u64,
) -> PartitionInfo {
    match measured_rate(last_sample(prev, topic, p.id), p.log_end_offset, now) {
        Some(r) => PartitionInfo { producer_rate: Some(r), ..p },
        None => p,
    }
}

pub open spec fn rated_assignment(
    a: PartitionAssignment,
    prev: Seq<OffsetSample>,
    now: u64,
) -> PartitionAssignment {
    match measured_rate(last_sample(prev, a.topic@, a.partition_id), a.current_offset, now) {
        Some(r) => PartitionAssignment { consumer_rate: Some(r), ..a },
        None => a,
    }
}

pub open spec fn partition_sample(topic: String, p: PartitionInfo, now: u64) -> OffsetSample {
    OffsetSample { topic, partition: p.id, offset: p.log_end_offset, at_nanos: now }
}

pub open spec fn assignment_sample(a: PartitionAssignment, now: u64) -> OffsetSample {
    OffsetSample { topic: a.topic, partition: a.partition_id, offset: a.current_offset, at_nanos: now }
}

proof fn lemma_last_sample_skips(s: Seq<OffsetSample>, j: int, topic: Seq<char>, partition: i32)
    requires
        0 <= j <= s.len(),
        forall|k: int| j <= k < s.len() ==> !sample_matches(#[trigger] s[k], topic, partition),
    ensures
        last_sample(s, topic, partition) == last_sample(s.take(j), topic, partition),
    decreases s.len() - j,
{
    if j < s.len() {
        assert(s.drop_last().take(j) =~= s.take(j));
        lemma_last_sample_skips(s.drop_last(), j, topic, partition);
    } else {
        assert(s.take(j) =~= s);
    }
}

/// Index of the sample kept for (topic, partition), if any.
pub fn find_sample(samples: &Vec<OffsetSample>, topic: &String, partition: i32) -> (r: Option<usize>)
    ensures
        match r {
            Some(i) => i < samples@.len() && last_sample(samples@, topic@, partition) == Some(
                samples@[i as int],
            ),
            None => last_sample(samples@, topic@, partition) is None,
        },
{
    let mut j = samples.len();
    while j > 0
        invariant
            j <= samples@.len(),
            forall|k: int| j <= k < samples@.len() ==> !sample_matches(#[trigger] samples@[k], topic@, partition),
        decreases j,
    {
        let s = &samples[j - 1];
        if s.partition == partition && s.topic == *topic {
            proof {
                lemma_last_sample_skips(samples@, j as int, topic@, partition);
                assert(samples@.take(j as int).last() == samples@[j - 1]);
            }
            return Some(j - 1);
        }
        j = j - 1;
    }
    proof {
        lemma_last_sample_skips(samples@, 0, topic@, partition);
    }
    None
}

/// The rate of a partition whose offset is `offset` at `now`, against the kept samples.
pub fn rate_since(samples: &Vec<OffsetSample>, topic: &String, partition: i32, offset: i64, now: u64) -> (r:
    Option<Rate>)
    ensures
        r == measured_rate(last_sample(samples@, topic@, partition), offset, now),
{
    match find_sample(samples, topic, partition) {
        Some(i) => {
            let s = &samples[i];
            if now > s.at_nanos && offset >= s.offset {
                let messages = (offset as i128 - s.offset as i128) as u64;
                Some(Rate { messages, elapsed_nanos: now - s.at_nanos })
            } else {
                None
            }
        },
        None => None,
    }
}

/// Gives each partition of a topic's detail its production rate since the kept samples,
/// and returns the samples to keep for the next measurement.
pub fn rate_partitions(data: &mut TopicDetailData, prev: &Vec<OffsetSample>, now: u64) -> (next:
    Vec<OffsetSample>)
    ensures
        final(data).topic == old(data).topic,
        final(data).partitions@.len() == old(data).partitions@.len(),
        forall|i: int|
            0 <= i < old(data).partitions@.len() ==> #[trigger] final(data).partitions@[i]
                == rated_partition(old(data).partitions@[i], old(data).topic@, prev@, now),
        next@.len() == old(data).partitions@.len(),
        forall|i: int|
            0 <= i < old(data).partitions@.len() ==> #[trigger] next@[i] == partition_sample(
                old(data).topic,
                old(data).partitions@[i],
                now,
            ),
{
    let ghost orig = data.partitions@;
    let mut next: Vec<OffsetSample> = Vec::new();
    let n = data.partitions.len();
    let mut i: usize = 0;
    while i < n
        invariant
            n == orig.len(),
            data.topic == old(data).topic,
            orig == old(data).partitions@,
            data.partitions@.len() == n,
            i <= n,
            forall|k: int| 0 <= k < i ==> #[trigger] data.partitions@[k] == rated_partition(orig[k], data.topic@, prev@, now),
            forall|k: int| i <= k < n ==> #[trigger] data.partitions@[k] == orig[k],
            next@.len() == i,
            forall|k: int| 0 <= k < i ==> #[trigger] next@[k] == partition_sample(data.topic, orig[k], now),
        decreases n - i,
    {
        let id = data.partitions[i].id;
        let offset = data.partitions[i].log_end_offset;
        let r = rate_since(prev, &data.topic, id, offset, now);
        if let Some(rate) = r {
            data.partitions[i].producer_rate = Some(rate);
        }
        next.push(OffsetSample { topic: data.topic.clone(), partition: id, offset, at_nanos: now });
        i = i + 1;
    }
    next
}

/// Gives each partition assignment of a group its consumption rate since the kept samples,
/// and returns the samples to keep for the next measurement.
pub fn rate_assignments(data: &mut GroupDetailData, prev: &Vec<OffsetSample>, now: u64) -> (next:
    Vec<OffsetSample>)
    ensures
        final(data).group_id == old(data).group_id,
        final(data).state == old(data).state,
        final(data).protocol == old(data).protocol,
        final(data).members == old(data).members,
        final(data).assignments@.len() == old(data).assignments@.len(),
        forall|i: int|
            0 <= i < old(data).assignments@.len() ==> #[trigger] final(data).assignments@[i]
                == rated_assignment(old(data).assignments@[i], prev@, now),
        next@.len() == old(data).assignments@.len(),
        forall|i: int|
            0 <= i < old(data).assignments@.len() ==> #[trigger] next@[i] == assignment_sample(
                old(data).assignments@[i],
                now,
            ),
{
    let ghost orig = data.assignments@;
    let mut next: Vec<OffsetSample> = Vec::new();
    let n = data.assignments.len();
    let mut i: usize = 0;
    while i < n
        invariant
            n == orig.len(),
            data.group_id == old(data).group_id,
            data.state == old(data).state,
            data.protocol == old(data).protocol,
            data.members == old(data).members,
            orig == old(data).assignments@,
            data.assignments@.len() == n,
            i <= n,
            forall|k: int| 0 <= k < i ==> #[trigger] data.assignments@[k] == rated_assignment(orig[k], prev@, now),
            forall|k: int| i <= k < n ==> #[trigger] data.assignments@[k] == orig[k],
            next@.len() == i,
            forall|k: int| 0 <= k < i ==> #[trigger] next@[k] == assignment_sample(orig[k], now),
        decreases n - i,
    {
        let id = data.assignments[i].partition_id;
        let offset = data.assignments[i].current_offset;
        let r = rate_since(prev, &data.assignments[i].topic, id, offset, now);
        if let Some(rate) = r {
            data.assignments[i].consumer_rate = Some(rate);
        }
        let topic = data.assignments[i].topic.clone();
        next.push(OffsetSample { topic, partition: id, offset, at_nanos: now });
        i = i + 1;
    }
    next
}

} // verus!
