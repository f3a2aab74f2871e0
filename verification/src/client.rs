use vstd::prelude::*;

use vstd::string::StrSliceExecFns;
use rdkafka::config::ClientConfig;
use rdkafka::TopicPartitionList;

use crate::app::Cli;
use crate::cluster::TopicMeta;
use crate::text::{is_internal, is_internal_name, to_chars};

verus! {

#[verifier::external_type_specification]
#[verifier::external_body]
pub struct ExClientConfig(rdkafka::config::ClientConfig);

#[verifier::external_type_specification]
#[verifier::external_body]
pub struct ExTopicPartitionList(rdkafka::TopicPartitionList);

/// The parameters (key to value) held by an rdkafka `ClientConfig`.
pub uninterp spec fn config_params(c: ClientConfig) -> Map<Seq<char>, Seq<char>>;

/// The (topic, partition) entries of an rdkafka `TopicPartitionList`, in the order added.
pub uninterp spec fn partition_entries(l: TopicPartitionList) -> Seq<(Seq<char>, i32)>;

/// rdkafka's `ClientConfig::new`: a configuration with no parameters set.
#[verifier::external_body]
fn new_client_config() -> (config: ClientConfig)
    ensures
        config_params(config).is_empty(),
{
    ClientConfig::new()
}

/// rdkafka's `ClientConfig::set`: sets `key` to `value`, replacing an earlier value.
#[verifier::external_body]
fn set_param(c: &mut ClientConfig, key: &str, value: &str)
    ensures
        config_params(*final(c)) == config_params(*old(c)).insert(key@, value@),
{
    c.set(key, value);
}

/// rdkafka's `TopicPartitionList::new`: an empty list.
#[verifier::external_body]
fn new_partition_list() -> (list: TopicPartitionList)
    ensures
        partition_entries(list).len() == 0,
{
    TopicPartitionList::new()
}

/// rdkafka's `TopicPartitionList::add_partition`: appends (topic, partition). It panics on a
/// topic name holding a NUL character, which `requires` leaves out.
#[verifier::external_body]
fn add_partition(l: &mut TopicPartitionList, topic: &str, partition: i32)
    requires
        !topic@.contains('\0'),
    ensures
        partition_entries(*final(l)) == partition_entries(*old(l)).push((topic@, partition)),
{
    l.add_partition(topic, partition);
}

/// rdkafka's `TopicPartitionList::elements`, tested for emptiness.
#[verifier::external_body]
fn partition_list_is_empty(l: &TopicPartitionList) -> (r: bool)
    ensures
        r == (partition_entries(*l).len() == 0),
{
    l.elements().is_empty()
}

/// The text before and after the first `=` of an extra option `key=value`; `None` when
/// there is no `=`.
pub open spec fn key_value(s: Seq<char>) -> Option<(Seq<char>, Seq<char>)> {
    if exists|i: int| 0 <= i < s.len() && s[i] == '=' {
        let i = choose|i: int|
            0 <= i < s.len() && s[i] == '=' && forall|j: int| 0 <= j < i ==> s[j] != '=';
        Some((s.take(i), s.skip(i + 1)))
    } else {
        None
    }
}

/// `m` with each extra option `key=value` applied in order (options without `=` ignored).
pub open spec fn with_extra_params(m: Map<Seq<char>, Seq<char>>, extras: Seq<String>) -> Map<
    Seq<char>,
    Seq<char>,
>
    decreases extras.len(),
{
    if extras.len() == 0 {
        m
    } else {
        let before = with_extra_params(m, extras.drop_last());
        match key_value(extras.last()@) {
            Some((k, v)) => before.insert(k, v),
            None => before,
        }
    }
}

/// The parameters of the admin client: the fixed ones, then the user's extra options.
pub open spec fn admin_params(cli: Cli) -> Map<Seq<char>, Seq<char>> {
    with_extra_params(
        Map::empty().insert("bootstrap.servers"@, cli.bootstrap_servers@).insert(
            "client.id"@,
            "kafka-top-admin"@,
        ).insert("allow.auto.create.topics"@, "false"@).insert("metadata.max.age.ms"@, "30000"@),
        cli.kafka_config@,
    )
}

/// The parameters of the consumer used to read offsets: the fixed ones (no auto-commit,
/// start at the latest offset), then the user's extra options.
pub open spec fn consumer_params(cli: Cli) -> Map<Seq<char>, Seq<char>> {
    with_extra_params(
        Map::empty().insert("bootstrap.servers"@, cli.bootstrap_servers@).insert(
            "client.id"@,
            "kafka-top-consumer"@,
        ).insert("enable.auto.commit"@, "false"@).insert("auto.offset.reset"@, "latest"@).insert(
            "allow.auto.create.topics"@,
            "false"@,
        ).insert("metadata.max.age.ms"@, "30000"@),
        cli.kafka_config@,
    )
}

/// Splits `key=value` at its first `=` (std's `split_once('=')`).
pub fn split_key_value(s: &str) -> (r: Option<(String, String)>)
    ensures
        match key_value(s@) {
            Some((k, v)) => r matches Some((rk, rv)) && rk@ == k && rv@ == v,
            None => r is None,
        },
{
    let chars = to_chars(s);
    let n = chars.len();
    let mut i: usize = 0;
    while i < n
        invariant
            chars@ == s@,
            n == s@.len(),
            i <= n,
            forall|j: int| 0 <= j < i ==> s@[j] != '=',
        decreases n - i,
    {
        if chars[i] == '=' {
            let k = String::from_str(s.substring_char(0, i));
            let v = String::from_str(s.substring_char(i + 1, n));
            proof {
                let c = choose|c: int|
                    0 <= c < s@.len() && s@[c] == '=' && forall|j: int| 0 <= j < c ==> s@[j] != '=';
                assert(0 <= i < s@.len() && s@[i as int] == '=' && forall|j: int| 0 <= j < i ==> s@[j] != '=');
                if c < i {
                    assert(s@[c] != '=');
                }
                if i < c {
                    assert(s@[i as int] != '=');
                }
                assert(c == i);
                assert(s@.take(i as int) =~= s@.subrange(0, i as int));
                assert(s@.skip(i + 1) =~= s@.subrange(i + 1, n as int));
            }
            return Some((k, v));
        }
        i = i + 1;
    }
    None
}

fn apply_extra_params(c: &mut ClientConfig, extras: &Vec<String>)
    ensures
        config_params(*final(c)) == with_extra_params(config_params(*old(c)), extras@),
{
    let mut i: usize = 0;
    while i < extras.len()
        invariant
            i <= extras@.len(),
            config_params(*c) == with_extra_params(config_params(*old(c)), extras@.take(i as int)),
        decreases extras@.len() - i,
    {
        proof {
            assert(extras@.take(i + 1).drop_last() =~= extras@.take(i as int));
        }
        if let Some((k, v)) = split_key_value(extras[i].as_str()) {
            set_param(c, k.as_str(), v.as_str());
        }
        i = i + 1;
    }
    proof {
        assert(extras@.take(extras@.len() as int) =~= extras@);
    }
}

/// The configuration of the admin client that reads cluster metadata.
pub fn admin_config(cli: &Cli) -> (c: ClientConfig)
    ensures
        config_params(c) == admin_params(*cli),
{
    let mut c = new_client_config();
    proof {
        assert(config_params(c) =~= Map::<Seq<char>, Seq<char>>::empty());
    }
    set_param(&mut c, "bootstrap.servers", cli.bootstrap_servers.as_str());
    set_param(&mut c, "client.id", "kafka-top-admin");
    set_param(&mut c, "allow.auto.create.topics", "false");
    set_param(&mut c, "metadata.max.age.ms", "30000");
    apply_extra_params(&mut c, &cli.kafka_config);
    c
}

/// The configuration of the consumer that reads offsets and group lists.
pub fn consumer_config(cli: &Cli) -> (c: ClientConfig)
    ensures
        config_params(c) == consumer_params(*cli),
{
    let mut c = new_client_config();
    proof {
        assert(config_params(c) =~= Map::<Seq<char>, Seq<char>>::empty());
    }
    set_param(&mut c, "bootstrap.servers", cli.bootstrap_servers.as_str());
    set_param(&mut c, "client.id", "kafka-top-consumer");
    set_param(&mut c, "enable.auto.commit", "false");
    set_param(&mut c, "auto.offset.reset", "latest");
    set_param(&mut c, "allow.auto.create.topics", "false");
    set_param(&mut c, "metadata.max.age.ms", "30000");
    apply_extra_params(&mut c, &cli.kafka_config);
    c
}

/// The (topic, partition) pairs of every partition of the first `n` topics that are not internal.
pub open spec fn query_entries(topics: Seq<TopicMeta>, n: int) -> Seq<(Seq<char>, i32)>
    decreases n,
{
    if n <= 0 {
        Seq::empty()
    } else if is_internal(topics[n - 1].name@) {
        query_entries(topics, n - 1)
    } else {
        query_entries(topics, n - 1) + Seq::new(
            topics[n - 1].partitions@.len(),
            |i: int| (topics[n - 1].name@, topics[n - 1].partitions@[i].id),
        )
    }
}

/// Topic names that rdkafka can take (C strings: no NUL character).
pub open spec fn names_fit(topics: Seq<TopicMeta>) -> bool {
    forall|i: int| 0 <= i < topics.len() && !is_internal(#[trigger] topics[i].name@) ==> !topics[i].name@.contains('\0')
}

/// The list of partitions whose committed offsets are asked for: every partition of every
/// topic that is not internal.
pub fn offset_query(topics: &Vec<TopicMeta>) -> (l: TopicPartitionList)
    requires
        names_fit(topics@),
    ensures
        partition_entries(l) == query_entries(topics@, topics@.len() as int),
{
    let mut l = new_partition_list();
    let mut t: usize = 0;
    while t < topics.len()
        invariant
            t <= topics@.len(),
            names_fit(topics@),
            partition_entries(l) == query_entries(topics@, t as int),
        decreases topics@.len() - t,
    {
        let topic = &topics[t];
        if !is_internal_name(topic.name.as_str()) {
            let ghost before = partition_entries(l);
            let np = topic.partitions.len();
            let mut p: usize = 0;
            while p < np
                invariant
                    t < topics@.len(),
                    *topic == topics@[t as int],
                    np == topic.partitions@.len(),
                    p <= np,
                    !topic.name@.contains('\0'),
                    partition_entries(l) == before + Seq::new(
                        p as nat,
                        |i: int| (topic.name@, topic.partitions@[i].id),
                    ),
                decreases np - p,
            {
                add_partition(&mut l, topic.name.as_str(), topic.partitions[p].id);
                proof {
                    assert(before + Seq::new((p + 1) as nat, |i: int| (topic.name@, topic.partitions@[i].id))
                        =~= (before + Seq::new(p as nat, |i: int| (topic.name@, topic.partitions@[i].id))).push(
                        (topic.name@, topic.partitions@[p as int].id),
                    ));
                }
                p = p + 1;
            }
        }
        t = t + 1;
    }
    l
}

/// Whether a list of partitions is empty (then no offsets are asked for).
pub fn query_is_empty(l: &TopicPartitionList) -> (r: bool)
    ensures
        r == (partition_entries(*l).len() == 0),
{
    partition_list_is_empty(l)
}

} // verus!
