use kafka_top::app::{Cli, Tab, View};
use kafka_top::state::{
    DashboardData, BrokerInfo, GroupDetailData, GroupMemberInfo, GroupSummary, GroupsData, LoadState,
    PartitionAssignment, PartitionInfo, Rate, TopicDetailData, TopicSummary, TopicsData,
};
use kafka_top::text::{decimal_string, format_number, signed_decimal_string};
use kafka_top::ui::{
    assignment_rows, broker_rows, group_rows, group_state_tone, groups_title, help_line, join_id_list,
    load_panel, member_rows, min_members_section, partition_rows, shown_rate, tab_highlight, title_bar,
    topic_detail_title, topic_rows, topics_title, Panel, Tone,
};

#[test]
fn format_number_groups_thousands() {
    assert_eq!(format_number(12345), "12,345");
    assert_eq!(format_number(0), "0");
    assert_eq!(format_number(999), "999");
    assert_eq!(format_number(1000), "1,000");
    assert_eq!(format_number(1234567), "1,234,567");
    assert_eq!(format_number(-1), "-1");
    assert_eq!(format_number(-123), "-123");
    assert_eq!(format_number(-1234), "-1,234");
    assert_eq!(format_number(-123456), "-123,456");
    assert_eq!(format_number(i64::MAX), "9,223,372,036,854,775,807");
    assert_eq!(format_number(i64::MIN), "-9,223,372,036,854,775,808");
}

#[test]
fn decimals_match_to_string() {
    for n in [0i64, 7, 10, 99, 100, -5, -10, i64::MIN, i64::MAX, 123456789] {
        assert_eq!(signed_decimal_string(n), n.to_string());
    }
    for n in [0u64, 9, 10, u64::MAX] {
        assert_eq!(decimal_string(n), n.to_string());
    }
}

#[test]
fn members_section_height() {
    assert_eq!(min_members_section(0), 3);
    assert_eq!(min_members_section(2), 5);
    assert_eq!(min_members_section(5), 8);
    assert_eq!(min_members_section(40), 8);
}

#[test]
fn state_colors() {
    assert_eq!(group_state_tone("Stable"), Tone::Green);
    assert_eq!(group_state_tone("Empty"), Tone::DarkGray);
    assert_eq!(group_state_tone("PreparingRebalance"), Tone::Yellow);
}

#[test]
fn titles_and_help() {
    let t = TopicsData { topics: vec![TopicSummary { name: "a".to_string(), partition_count: 3, total_messages: 1234 }] };
    assert_eq!(topics_title(&t), " Topics (1 total)");
    assert_eq!(groups_title(&GroupsData { groups: vec![] }), " Consumer Groups (0 total)");
    let d = TopicDetailData { topic: "orders".to_string(), partitions: vec![] };
    assert_eq!(topic_detail_title(&d), " Topic: orders (0 partitions)");
    let cli = Cli {
        bootstrap_servers: "b:9092".to_string(),
        topic_filter: None,
        group_filter: None,
        refresh_interval: 5,
        kafka_config: vec![],
    };
    assert_eq!(title_bar(&cli), " kafka-top  |  b:9092 ");
    assert_eq!(help_line(View::TopicDetail), " [Esc] Back  [r] Refresh  [q] Quit ");
    assert_eq!(help_line(View::Normal), " [Tab/Shift+Tab] Navigate  [Enter] Details  [r] Refresh  [q] Quit ");
    assert_eq!(Tab::ConsumerGroups.index(), 2);
    assert_eq!(tab_highlight(View::Normal), Tone::Yellow);
    assert_eq!(tab_highlight(View::GroupDetail), Tone::DarkGray);
}

#[test]
fn panels() {
    let idle: LoadState<TopicsData> = LoadState::Idle;
    assert!(matches!(load_panel(&idle, "Fetching topics"), Panel::Empty(t) if t == " Press [r] to refresh "));
    let loading: LoadState<TopicsData> = LoadState::Loading;
    assert!(matches!(load_panel(&loading, "Fetching topics"), Panel::Loading(t) if t == " Fetching topics ..."));
    let err: LoadState<TopicsData> = LoadState::Error("boom".to_string());
    assert!(matches!(load_panel(&err, "x"), Panel::Error(t) if t == "boom"));
    let loaded = LoadState::Loaded(TopicsData { topics: vec![] });
    assert!(matches!(load_panel(&loaded, "x"), Panel::Content));
}

#[test]
fn topic_and_group_rows() {
    let t = TopicsData {
        topics: vec![
            TopicSummary { name: "a".to_string(), partition_count: 3, total_messages: 1234 },
            TopicSummary { name: "b".to_string(), partition_count: 1, total_messages: 5 },
        ],
    };
    let rows = topic_rows(&t, 1);
    assert_eq!(rows[0].cells[2].text, "1,234");
    assert_eq!(rows[0].cells[1].text, "3");
    assert!(!rows[0].highlighted);
    assert!(rows[1].highlighted);
    let g = GroupsData {
        groups: vec![GroupSummary {
            group_id: "g".to_string(),
            state: "Empty".to_string(),
            protocol_type: "consumer".to_string(),
            member_count: 0,
        }],
    };
    let rows = group_rows(&g, 0);
    assert_eq!(rows[0].cells[1].tone, Tone::DarkGray);
    assert_eq!(rows[0].cells[3].text, "0");
    assert!(rows[0].highlighted);
}

#[test]
fn partition_and_assignment_rows() {
    let d = TopicDetailData {
        topic: "t".to_string(),
        partitions: vec![
            PartitionInfo {
                id: 0,
                leader: 2,
                replicas: vec![2, 3, 1],
                isr: vec![2],
                log_end_offset: 10000,
                producer_rate: Some(Rate { messages: 5, elapsed_nanos: 1 }),
            },
            PartitionInfo { id: 1, leader: -1, replicas: vec![1], isr: vec![], log_end_offset: -1, producer_rate: None },
        ],
    };
    let rows = partition_rows(&d);
    assert_eq!(rows[0].cells[0].tone, Tone::DarkGray);
    assert_eq!(rows[0].cells[1].tone, Tone::Green);
    assert_eq!(rows[0].cells[2].text, "2, 3, 1");
    assert_eq!(rows[0].cells[3].text, "2");
    assert_eq!(rows[0].cells[4].text, "10,000");
    assert!(rows[0].rate.is_some());
    assert_eq!(rows[1].cells[0].tone, Tone::Plain);
    assert_eq!(rows[1].cells[1].tone, Tone::Red);
    assert_eq!(rows[1].cells[3].text, "");
    assert!(rows[1].rate.is_none());
    assert_eq!(join_id_list(&vec![]), "");
    assert_eq!(shown_rate(Some(Rate { messages: 0, elapsed_nanos: 9 })), None);

    let g = GroupDetailData {
        group_id: "g".to_string(),
        state: "Stable".to_string(),
        protocol: "range".to_string(),
        members: vec![GroupMemberInfo {
            member_id: "m".to_string(),
            client_id: "c".to_string(),
            client_host: "h".to_string(),
        }],
        assignments: vec![
            PartitionAssignment { topic: "t".to_string(), partition_id: 0, current_offset: 5, log_end_offset: 9, lag: 4, consumer_rate: None },
            PartitionAssignment { topic: "t".to_string(), partition_id: 1, current_offset: 9, log_end_offset: 9, lag: 0, consumer_rate: None },
        ],
    };
    let rows = assignment_rows(&g);
    assert_eq!(rows[0].cells[4].text, "4");
    assert_eq!(rows[0].cells[4].tone, Tone::Red);
    assert_eq!(rows[1].cells[4].tone, Tone::Green);
    let rows = member_rows(&g);
    assert_eq!(rows[0].cells[2].text, "h");
    let dash = DashboardData {
        connected_broker: "x".to_string(),
        broker_count: 1,
        topic_count: 0,
        group_count: 0,
        brokers: vec![BrokerInfo { id: 7, host: "k1".to_string(), port: 9092 }],
    };
    let rows = broker_rows(&dash);
    assert_eq!(rows[0].cells[0].text, "7");
    assert_eq!(rows[0].cells[2].text, "9092");
}

#[test]
fn formatting_only_inserts_commas() {
    for n in [0i64, 5, 999, 1000, 65536, -7, -100, -1000, -123456, i64::MIN, i64::MAX] {
        let text = format_number(n);
        assert_eq!(text.replace(',', ""), n.to_string());
        let digits = text.trim_start_matches('-');
        let k = digits.replace(',', "").len();
        assert_eq!(digits.len(), k + (k - 1) / 3);
        let groups: Vec<&str> = digits.split(',').collect();
        assert!((1..=3).contains(&groups[0].len()));
        assert!(groups[1..].iter().all(|g| g.len() == 3));
    }
}
