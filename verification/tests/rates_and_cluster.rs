use kafka_top::app::{App, Cli, View};
use kafka_top::client::{admin_config, consumer_config, offset_query, query_is_empty, split_key_value};
use kafka_top::cluster::{
    committed_position, dashboard_data, find_group, find_topic, group_assignments, group_detail, groups_data,
    partition_assignment, select_topics, topic_detail_data, topics_data, total_messages,
    positions_to_read, visible_topic_count, CommittedEntry, GroupListing, MemberListing, PartitionMeta, TopicMeta,
};
use kafka_top::fetch::FetchOutcome;
use kafka_top::rates::{find_sample, rate_partitions, OffsetSample};
use kafka_top::state::{
    BrokerInfo, GroupDetailData, LoadState, PartitionAssignment, PartitionInfo, Rate, TopicDetailData,
};
use kafka_top::text::{contains_str, name_matches};

fn cli(extra: Vec<&str>) -> Cli {
    Cli {
        bootstrap_servers: "broker:9092".to_string(),
        topic_filter: None,
        group_filter: None,
        refresh_interval: 5,
        kafka_config: extra.into_iter().map(|s| s.to_string()).collect(),
    }
}

fn partition(id: i32, log_end: i64) -> PartitionInfo {
    PartitionInfo { id, leader: 1, replicas: vec![1, 2], isr: vec![1], log_end_offset: log_end, producer_rate: None }
}

fn meta(name: &str, ids: &[i32]) -> TopicMeta {
    TopicMeta {
        name: name.to_string(),
        partitions: ids
            .iter()
            .map(|&id| PartitionMeta { id, leader: 0, replicas: vec![0, 1], isr: vec![0] })
            .collect(),
    }
}

fn listing(name: &str, members: usize) -> GroupListing {
    GroupListing {
        name: name.to_string(),
        state: "Stable".to_string(),
        protocol_type: "consumer".to_string(),
        protocol: "range".to_string(),
        members: (0..members)
            .map(|i| MemberListing {
                id: format!("m{}", i),
                client_id: "c".to_string(),
                client_host: "/10.0.0.1".to_string(),
            })
            .collect(),
    }
}

#[test]
fn topic_rate_between_two_fetches() {
    let mut app = App::new(cli(vec![]));
    app.current_view = View::TopicDetail;
    app.selected_topic = Some("orders".to_string());
    let first = TopicDetailData { topic: "orders".to_string(), partitions: vec![partition(0, 100), partition(1, 50)] };
    app.finish_fetch(FetchOutcome::TopicDetail(Ok(first)), 1_000_000_000);
    match &app.topic_detail_state {
        LoadState::Loaded(d) => assert!(d.partitions.iter().all(|p| p.producer_rate.is_none())),
        _ => panic!("expected data"),
    }
    assert_eq!(app.prev_topic_offsets.len(), 2);
    let second = TopicDetailData { topic: "orders".to_string(), partitions: vec![partition(0, 130), partition(1, 40)] };
    app.finish_fetch(FetchOutcome::TopicDetail(Ok(second)), 3_000_000_000);
    match &app.topic_detail_state {
        LoadState::Loaded(d) => {
            assert_eq!(d.partitions[0].producer_rate, Some(Rate { messages: 30, elapsed_nanos: 2_000_000_000 }));
            // the offset went back: no rate
            assert_eq!(d.partitions[1].producer_rate, None);
        }
        _ => panic!("expected data"),
    }
    assert_eq!(app.prev_topic_offsets[0].offset, 130);
    assert_eq!(app.prev_topic_offsets[0].at_nanos, 3_000_000_000);
}

#[test]
fn no_rate_when_no_time_passed() {
    let prev = vec![OffsetSample { topic: "t".to_string(), partition: 0, offset: 5, at_nanos: 10 }];
    let mut d = TopicDetailData { topic: "t".to_string(), partitions: vec![partition(0, 9)] };
    let next = rate_partitions(&mut d, &prev, 10);
    assert_eq!(d.partitions[0].producer_rate, None);
    assert_eq!(next[0].offset, 9);
}

#[test]
fn group_rate_uses_topic_and_partition() {
    let mut app = App::new(cli(vec![]));
    let assignment = |topic: &str, part: i32, off: i64| PartitionAssignment {
        topic: topic.to_string(),
        partition_id: part,
        current_offset: off,
        log_end_offset: off,
        lag: 0,
        consumer_rate: None,
    };
    let data = |a: Vec<PartitionAssignment>| GroupDetailData {
        group_id: "g".to_string(),
        state: "Stable".to_string(),
        protocol: "range".to_string(),
        members: vec![],
        assignments: a,
    };
    app.finish_fetch(FetchOutcome::GroupDetail(Ok(data(vec![assignment("a", 0, 10), assignment("b", 0, 20)]))), 100);
    app.finish_fetch(FetchOutcome::GroupDetail(Ok(data(vec![assignment("b", 0, 25), assignment("c", 0, 1)]))), 150);
    match &app.group_detail_state {
        LoadState::Loaded(d) => {
            assert_eq!(d.assignments[0].consumer_rate, Some(Rate { messages: 5, elapsed_nanos: 50 }));
            assert_eq!(d.assignments[1].consumer_rate, None);
        }
        _ => panic!("expected data"),
    }
}

#[test]
fn latest_duplicate_sample_wins() {
    let s = |off: i64| OffsetSample { topic: "t".to_string(), partition: 3, offset: off, at_nanos: 0 };
    let samples = vec![s(1), s(2)];
    assert_eq!(find_sample(&samples, &"t".to_string(), 3), Some(1));
    assert_eq!(find_sample(&samples, &"u".to_string(), 3), None);
}

#[test]
fn rate_difference_is_exact_for_extreme_offsets() {
    let prev = vec![OffsetSample { topic: "t".to_string(), partition: 0, offset: -1, at_nanos: 0 }];
    let mut d = TopicDetailData { topic: "t".to_string(), partitions: vec![partition(0, i64::MAX)] };
    rate_partitions(&mut d, &prev, 1);
    assert_eq!(d.partitions[0].producer_rate, Some(Rate { messages: 1u64 << 63, elapsed_nanos: 1 }));
}

#[test]
fn substring_and_case_insensitive_filter() {
    assert!(contains_str("payments", "men"));
    assert!(contains_str("payments", ""));
    assert!(!contains_str("pay", "payments"));
    assert!(name_matches("Payments-EU", Some("ments-eu")));
    assert!(name_matches("anything", None));
    assert!(!name_matches("orders", Some("pay")));
}

#[test]
fn topic_list_hides_internal_and_filters() {
    let metas = vec![meta("__consumer_offsets", &[0]), meta("Orders", &[0, 1]), meta("payments", &[0]), meta("_schemas", &[0])];
    assert_eq!(visible_topic_count(&metas), 2);
    assert_eq!(select_topics(&metas, None), vec![1, 2]);
    assert_eq!(select_topics(&metas, Some("ORD")), vec![1]);
    let sel = select_topics(&metas, None);
    let highs = vec![vec![Some(10), None], vec![Some(7)]];
    let data = topics_data(&metas, &sel, &highs);
    assert_eq!(data.topics.len(), 2);
    assert_eq!(data.topics[0].name, "Orders");
    assert_eq!(data.topics[0].partition_count, 2);
    assert_eq!(data.topics[0].total_messages, 10);
    assert_eq!(data.topics[1].total_messages, 7);
    assert_eq!(total_messages(&vec![]), 0);
}

#[test]
fn topic_detail_and_not_found() {
    let metas = vec![meta("a", &[0, 1]), meta("b", &[2])];
    assert_eq!(find_topic(&metas, "b"), Ok(1));
    assert_eq!(find_topic(&metas, "c"), Err("Topic 'c' not found".to_string()));
    let d = topic_detail_data("a", &metas[0], &vec![Some(42), None]);
    assert_eq!(d.topic, "a");
    assert_eq!(d.partitions[0].log_end_offset, 42);
    assert_eq!(d.partitions[1].log_end_offset, -1);
    assert_eq!(d.partitions[1].id, 1);
    assert_eq!(d.partitions[0].replicas, vec![0, 1]);
}

#[test]
fn dashboard_counts() {
    let metas = vec![meta("__consumer_offsets", &[0]), meta("orders", &[0])];
    let brokers = vec![BrokerInfo { id: 1, host: "h".to_string(), port: 9092 }];
    let d = dashboard_data("broker-1:9092/1", 1, brokers, &metas, None);
    assert_eq!(d.connected_broker, "broker-1:9092/1 (id 1)");
    assert_eq!(d.broker_count, 1);
    assert_eq!(d.topic_count, 1);
    assert_eq!(d.group_count, 0);
    let d = dashboard_data("x", -3, vec![], &metas, Some(4));
    assert_eq!(d.connected_broker, "x (id -3)");
    assert_eq!(d.group_count, 4);
}

#[test]
fn groups_list_and_detail() {
    let ls = vec![listing("payments-app", 2), listing("orders-app", 0)];
    let g = groups_data(&ls, Some("PAY"));
    assert_eq!(g.groups.len(), 1);
    assert_eq!(g.groups[0].group_id, "payments-app");
    assert_eq!(g.groups[0].member_count, 2);
    assert_eq!(groups_data(&ls, None).groups.len(), 2);
    assert_eq!(find_group(&ls, "orders-app"), Ok(1));
    assert_eq!(find_group(&ls, "x"), Err("Consumer group 'x' not found".to_string()));
    let d = group_detail("payments-app", &ls[0], None, &vec![]);
    assert_eq!(d.members.len(), 2);
    assert!(d.assignments.is_empty());
    assert_eq!(d.members[1].member_id, "m1");
    assert_eq!(d.protocol, "range");
}

#[test]
fn committed_positions_and_lag() {
    assert_eq!(committed_position(Some(5)), Some(5));
    assert_eq!(committed_position(Some(-1001)), None);
    assert_eq!(committed_position(None), None);
    let a = partition_assignment("t".to_string(), 0, 10, Some(25));
    assert_eq!(a.lag, 15);
    let a = partition_assignment("t".to_string(), 0, 30, Some(25));
    assert_eq!(a.lag, 0);
    let a = partition_assignment("t".to_string(), 0, 30, None);
    assert_eq!(a.log_end_offset, -1);
    assert_eq!(a.lag, -1);
}

#[test]
fn client_configs_take_extra_options() {
    let c = admin_config(&cli(vec!["security.protocol=SASL_SSL", "bad", "client.id=mine", "a=b=c"]));
    assert_eq!(c.get("bootstrap.servers"), Some("broker:9092"));
    assert_eq!(c.get("client.id"), Some("mine"));
    assert_eq!(c.get("security.protocol"), Some("SASL_SSL"));
    assert_eq!(c.get("allow.auto.create.topics"), Some("false"));
    assert_eq!(c.get("metadata.max.age.ms"), Some("30000"));
    assert_eq!(c.get("a"), Some("b=c"));
    assert_eq!(c.get("bad"), None);
    let c = consumer_config(&cli(vec![]));
    assert_eq!(c.get("client.id"), Some("kafka-top-consumer"));
    assert_eq!(c.get("enable.auto.commit"), Some("false"));
    assert_eq!(c.get("auto.offset.reset"), Some("latest"));
}

#[test]
fn split_at_first_equals() {
    assert_eq!(split_key_value("k=v"), Some(("k".to_string(), "v".to_string())));
    assert_eq!(split_key_value("k=v=w"), Some(("k".to_string(), "v=w".to_string())));
    assert_eq!(split_key_value("=v"), Some(("".to_string(), "v".to_string())));
    assert_eq!(split_key_value("kv"), None);
}

#[test]
fn offset_query_lists_visible_partitions() {
    let metas = vec![meta("__consumer_offsets", &[0, 1]), meta("a", &[0, 1]), meta("b", &[5])];
    let l = offset_query(&metas);
    assert!(!query_is_empty(&l));
    let elems: Vec<(String, i32)> = l.elements().iter().map(|e| (e.topic().to_string(), e.partition())).collect();
    assert_eq!(elems, vec![("a".to_string(), 0), ("a".to_string(), 1), ("b".to_string(), 5)]);
    let l = offset_query(&vec![meta("_x", &[0])]);
    assert!(query_is_empty(&l));
}

#[test]
fn group_assignments_follow_committed_positions() {
    let e = |t: &str, p: i32, o: Option<i64>| CommittedEntry { topic: t.to_string(), partition: p, offset: o };
    let entries = vec![e("a", 0, Some(10)), e("a", 1, None), e("b", 0, Some(-1001)), e("b", 1, Some(0)), e("c", 2, Some(7))];
    assert_eq!(positions_to_read(&entries), vec![0, 3, 4]);
    let highs = vec![Some(25), None, Some(3)];
    let rows = group_assignments(Some(&entries), &highs);
    assert_eq!(rows.len(), 3);
    assert_eq!((rows[0].topic.as_str(), rows[0].partition_id, rows[0].current_offset), ("a", 0, 10));
    assert_eq!((rows[0].log_end_offset, rows[0].lag), (25, 15));
    assert_eq!((rows[1].topic.as_str(), rows[1].partition_id, rows[1].current_offset), ("b", 1, 0));
    assert_eq!((rows[1].log_end_offset, rows[1].lag), (-1, -1));
    assert_eq!((rows[2].topic.as_str(), rows[2].log_end_offset, rows[2].lag), ("c", 3, 0));
    assert!(rows.iter().all(|r| r.consumer_rate.is_none()));
    // no committed offsets to show: no assignments
    assert!(group_assignments(None, &vec![]).is_empty());
    let ls = vec![listing("g", 1)];
    let d = group_detail("g", &ls[0], Some(&entries), &highs);
    assert_eq!(d.assignments.len(), 3);
    assert_eq!(d.group_id, "g");
    assert_eq!(d.state, "Stable");
}
