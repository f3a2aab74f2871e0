use vstd::prelude::*;

use vstd::view::View as _;
use crate::app::{Cli, Tab, View};
use crate::state::{
    BrokerInfo, DashboardData, GroupDetailData, GroupsData, LoadState, PartitionAssignment,
    PartitionInfo, Rate, TopicDetailData, TopicsData,
};
use crate::text::{decimal, format_number, formatted, push_decimal, push_signed_decimal, signed_decimal};

verus! {

/// The color a piece of text is drawn in.
#[derive(Debug, Clone, Copy, PartialEq, Eq, Structural)]
pub enum Tone {
    Plain,
    Green,
    Red,
    Yellow,
    DarkGray,
}

/// One cell of a table: its text and color.
#[derive(Debug, Clone)]
pub struct Cell {
    pub text: String,
    pub tone: Tone,
}

/// One row of a table. `rate` is the value of the rate column in tables that have one
/// (`None` shows "-").
#[derive(Debug, Clone)]
pub struct TableRow {
    pub cells: Vec<Cell>,
    pub highlighted: bool,
    pub rate: Option<Rate>,
}

/// What the content area shows for a screen's load state.
#[derive(Debug, Clone)]
pub enum Panel {
    /// Nothing loaded yet: a hint, in dark gray.
    Empty(String),
    /// A fetch is running: a message, in yellow.
    Loading(String),
    /// The fetch failed: the error, in red.
    Error(String),
    /// The data is loaded and is drawn by the screen itself.
    Content,
}

/// The height of the members table: borders and header (3) plus one line per member,
/// at most five.
pub fn min_members_section(member_count: usize) -> (r: u16)
    ensures
        r == 3 + if member_count < 5 {
            member_count as int
        } else {
            5
        },
{
    let shown: usize = if member_count < 5 {
        member_count
    } else {
        5
    };
    3u16 + shown as u16
}

/// The color of a consumer group's state: green when stable, dark gray when empty, yellow
/// otherwise (rebalancing, dead, ...).
pub fn group_state_tone(state: &str) -> (t: Tone)
    ensures
        t == if state@ == "Stable"@ {
            Tone::Green
        } else if state@ == "Empty"@ {
            Tone::DarkGray
        } else {
            Tone::Yellow
        },
{
    let s = String::from_str(state);
    if s == String::from_str("Stable") {
        Tone::Green
    } else if s == String::from_str("Empty") {
        Tone::DarkGray
    } else {
        Tone::Yellow
    }
}

/// A rate is shown only when it is above zero.
pub open spec fn visible_rate(r: Option<Rate>) -> Option<Rate> {
    match r {
        Some(x) => if x.messages > 0 && x.elapsed_nanos > 0 {
            Some(x)
        } else {
            None
        },
        None => None,
    }
}

pub fn shown_rate(r: Option<Rate>) -> (s: Option<Rate>)
    ensures
        s == visible_rate(r),
        s is Some <==> (r matches Some(x) && x.messages > 0 && x.elapsed_nanos > 0),
        s is Some ==> s == r,
{
    match r {
        Some(x) => if x.messages > 0 && x.elapsed_nanos > 0 {
            Some(x)
        } else {
            None
        },
        None => None,
    }
}

fn plain(text: String) -> (c: Cell)
    ensures
        c.text == text,
        c.tone == Tone::Plain,
{
    Cell { text, tone: Tone::Plain }
}

fn decimal_cell(n: u64) -> (c: Cell)
    ensures
        c.text@ == decimal(n as nat),
        c.tone == Tone::Plain,
{
    let mut s = String::new();
    push_decimal(&mut s, n);
    proof {
        assert(Seq::<char>::empty() + decimal(n as nat) =~= decimal(n as nat));
    }
    Cell { text: s, tone: Tone::Plain }
}

fn signed_cell(n: i64, tone: Tone) -> (c: Cell)
    ensures
        c.text@ == signed_decimal(n as int),
        c.tone == tone,
{
    let mut s = String::new();
    push_signed_decimal(&mut s, n);
    proof {
        assert(Seq::<char>::empty() + signed_decimal(n as int) =~= signed_decimal(n as int));
    }
    Cell { text: s, tone }
}

/// "<prefix><n><suffix>".
fn counted(prefix: &str, n: usize, suffix: &str) -> (r: String)
    ensures
        r@ == prefix@ + decimal(n as nat) + suffix@,
{
    let mut s = String::from_str(prefix);
    push_decimal(&mut s, n as u64);
    s.append(suffix);
    s
}

/// The title of the topic list: " Topics (N total)".
pub fn topics_title(data: &TopicsData) -> (r: String)
    ensures
        r@ == " Topics ("@ + decimal(data.topics@.len()) + " total)"@,
{
    counted(" Topics (", data.topics.len(), " total)")
}

/// The title of the consumer group list: " Consumer Groups (N total)".
pub fn groups_title(data: &GroupsData) -> (r: String)
    ensures
        r@ == " Consumer Groups ("@ + decimal(data.groups@.len()) + " total)"@,
{
    counted(" Consumer Groups (", data.groups.len(), " total)")
}

/// The title of a topic's detail: " Topic: NAME (N partitions)".
pub fn topic_detail_title(data: &TopicDetailData) -> (r: String)
    ensures
        r@ == " Topic: "@ + data.topic@ + " ("@ + decimal(data.partitions@.len()) + " partitions)"@,
{
    let mut s = String::from_str(" Topic: ");
    s.append(data.topic.as_str());
    s.append(" (");
    push_decimal(&mut s, data.partitions.len() as u64);
    s.append(" partitions)");
    s
}

/// The title bar: " kafka-top  |  SERVERS ".
pub fn title_bar(cli: &Cli) -> (r: String)
    ensures
        r@ == " kafka-top  |  "@ + cli.bootstrap_servers@ + " "@,
{
    let mut s = String::from_str(" kafka-top  |  ");
    s.append(cli.bootstrap_servers.as_str());
    s.append(" ");
    s
}

pub open spec fn help_text(view: View) -> Seq<char> {
    match view {
        View::Normal => " [Tab/Shift+Tab] Navigate  [Enter] Details  [r] Refresh  [q] Quit "@,
        _ => " [Esc] Back  [r] Refresh  [q] Quit "@,
    }
}

/// The key help shown on the status line: detail views offer going back.
pub fn help_line(view: View) -> (r: String)
    ensures
        r@ == help_text(view),
{
    match view {
        View::Normal => String::from_str(" [Tab/Shift+Tab] Navigate  [Enter] Details  [r] Refresh  [q] Quit "),
        _ => String::from_str(" [Esc] Back  [r] Refresh  [q] Quit "),
    }
}

impl Tab {
    pub open spec fn spec_index(self) -> nat {
        match self {
            Tab::Dashboard => 0,
            Tab::Topics => 1,
            Tab::ConsumerGroups => 2,
        }
    }

    /// The tab's position in the tab bar.
    pub fn index(&self) -> (r: usize)
        ensures
            r == self.spec_index(),
    {
        match self {
            Tab::Dashboard => 0,
            Tab::Topics => 1,
            Tab::ConsumerGroups => 2,
        }
    }
}

/// The selected tab is drawn yellow (bold) in a list view and dimmed in a detail view.
pub fn tab_highlight(view: View) -> (t: Tone)
    ensures
        t == if view == View::Normal {
            Tone::Yellow
        } else {
            Tone::DarkGray
        },
{
    if view == View::Normal {
        Tone::Yellow
    } else {
        Tone::DarkGray
    }
}

pub open spec fn load_panel_text<T: Clone>(s: LoadState<T>, loading_msg: Seq<char>) -> Option<Seq<char>> {
    match s {
        LoadState::Idle => Some(" Press [r] to refresh "@),
        LoadState::Loading => Some(" "@ + loading_msg + " ..."@),
        LoadState::Error(e) => Some(e@),
        LoadState::Loaded(_) => None,
    }
}

/// What the content area shows for a load state: a hint when idle, the loading message,
/// the error, or the screen's content once loaded.
pub fn load_panel<T: Clone>(s: &LoadState<T>, loading_msg: &str) -> (p: Panel)
    ensures
        match p {
            Panel::Empty(t) => *s is Idle && Some(t@) == load_panel_text(*s, loading_msg@),
            Panel::Loading(t) => *s is Loading && Some(t@) == load_panel_text(*s, loading_msg@),
            Panel::Error(t) => *s is Error && Some(t@) == load_panel_text(*s, loading_msg@),
            Panel::Content => *s is Loaded,
        },
{
    match s {
        LoadState::Idle => Panel::Empty(String::from_str(" Press [r] to refresh ")),
        LoadState::Loading => {
            let mut t = String::from_str(" ");
            t.append(loading_msg);
            t.append(" ...");
            Panel::Loading(t)
        },
        LoadState::Error(e) => Panel::Error(e.clone()),
        LoadState::Loaded(_) => Panel::Content,
    }
}

/// A topic list row: name, partition count, total messages (with thousands commas);
/// highlighted when selected.
pub open spec fn is_topic_row(r: TableRow, name: Seq<char>, partitions: nat, total: i64, selected: bool) -> bool {
    &&& r.cells@.len() == 3
    &&& r.cells@[0].text@ == name
    &&& r.cells@[1].text@ == decimal(partitions)
    &&& r.cells@[2].text@ == formatted(total as int)
    &&& forall|k: int| 0 <= k < 3 ==> #[trigger] r.cells@[k].tone == Tone::Plain
    &&& r.highlighted == selected
    &&& r.rate is None
}

/// The rows of the topic list; the row at `selected` is highlighted.
pub fn topic_rows(data: &TopicsData, selected: usize) -> (rows: Vec<TableRow>)
    ensures
        rows@.len() == data.topics@.len(),
        forall|i: int|
            0 <= i < rows@.len() ==> is_topic_row(
                #[trigger] rows@[i],
                data.topics@[i].name@,
                data.topics@[i].partition_count as nat,
                data.topics@[i].total_messages,
                i == selected,
            ),
        forall|i: int|
            0 <= i < rows@.len() ==> {
                &&& (#[trigger] rows@[i]).cells@.len() == 3
                &&& rows@[i].cells@[0].text@ == data.topics@[i].name@
                &&& rows@[i].cells@[1].text@ == decimal((data.topics@[i].partition_count as nat))
                &&& rows@[i].cells@[2].text@ == formatted(data.topics@[i].total_messages as int)
                &&& forall|k: int| 0 <= k < 3 ==> #[trigger] rows@[i].cells@[k].tone == Tone::Plain
                &&& rows@[i].highlighted == (i == selected)
                &&& rows@[i].rate is None
            },
{
    let mut rows: Vec<TableRow> = Vec::new();
    let mut i: usize = 0;
    while i < data.topics.len()
        invariant
            i <= data.topics@.len(),
            rows@.len() == i,
            forall|j: int|
                0 <= j < i ==> is_topic_row(
                    #[trigger] rows@[j],
                    data.topics@[j].name@,
                    data.topics@[j].partition_count as nat,
                    data.topics@[j].total_messages,
                    j == selected,
                ),
        decreases data.topics@.len() - i,
    {
        let t = &data.topics[i];
        let mut cells: Vec<Cell> = Vec::new();
        cells.push(plain(t.name.clone()));
        cells.push(decimal_cell(t.partition_count as u64));
        cells.push(plain(format_number(t.total_messages)));
        rows.push(TableRow { cells, highlighted: i == selected, rate: None });
        i = i + 1;
    }
    rows
}

/// A consumer group list row: id, state (colored), protocol type, member count;
/// highlighted when selected.
pub open spec fn is_group_row(r: TableRow, id: Seq<char>, state: Seq<char>, protocol: Seq<char>, members: i32, selected: bool) -> bool {
    &&& r.cells@.len() == 4
    &&& r.cells@[0].text@ == id
    &&& r.cells@[0].tone == Tone::Plain
    &&& r.cells@[1].text@ == state
    &&& r.cells@[1].tone == (if state == "Stable"@ {
        Tone::Green
    } else if state == "Empty"@ {
        Tone::DarkGray
    } else {
        Tone::Yellow
    })
    &&& r.cells@[2].text@ == protocol
    &&& r.cells@[2].tone == Tone::Plain
    &&& r.cells@[3].text@ == signed_decimal(members as int)
    &&& r.cells@[3].tone == Tone::Plain
    &&& r.highlighted == selected
    &&& r.rate is None
}

/// The rows of the consumer group list; the row at `selected` is highlighted.
pub fn group_rows(data: &GroupsData, selected: usize) -> (rows: Vec<TableRow>)
    ensures
        rows@.len() == data.groups@.len(),
        forall|i: int|
            0 <= i < rows@.len() ==> is_group_row(
                #[trigger] rows@[i],
                data.groups@[i].group_id@,
                data.groups@[i].state@,
                data.groups@[i].protocol_type@,
                data.groups@[i].member_count,
                i == selected,
            ),
        forall|i: int|
            0 <= i < rows@.len() ==> {
                &&& (#[trigger] rows@[i]).cells@.len() == 4
                &&& rows@[i].cells@[0].text@ == data.groups@[i].group_id@
                &&& rows@[i].cells@[0].tone == Tone::Plain
                &&& rows@[i].cells@[1].text@ == data.groups@[i].state@
                &&& rows@[i].cells@[1].tone == (if data.groups@[i].state@ == "Stable"@ {
                    Tone::Green
                } else if data.groups@[i].state@ == "Empty"@ {
                    Tone::DarkGray
                } else {
                    Tone::Yellow
                })
                &&& rows@[i].cells@[2].text@ == data.groups@[i].protocol_type@
                &&& rows@[i].cells@[2].tone == Tone::Plain
                &&& rows@[i].cells@[3].text@ == signed_decimal(data.groups@[i].member_count as int)
                &&& rows@[i].cells@[3].tone == Tone::Plain
                &&& rows@[i].highlighted == (i == selected)
                &&& rows@[i].rate is None
            },
{
    let mut rows: Vec<TableRow> = Vec::new();
    let mut i: usize = 0;
    while i < data.groups.len()
        invariant
            i <= data.groups@.len(),
            rows@.len() == i,
            forall|j: int|
                0 <= j < i ==> is_group_row(
                    #[trigger] rows@[j],
                    data.groups@[j].group_id@,
                    data.groups@[j].state@,
                    data.groups@[j].protocol_type@,
                    data.groups@[j].member_count,
                    j == selected,
                ),
        decreases data.groups@.len() - i,
    {
        let g = &data.groups[i];
        let mut cells: Vec<Cell> = Vec::new();
        cells.push(plain(g.group_id.clone()));
        cells.push(Cell { text: g.state.clone(), tone: group_state_tone(g.state.as_str()) });
        cells.push(plain(g.protocol_type.clone()));
        cells.push(signed_cell(g.member_count as i64, Tone::Plain));
        rows.push(TableRow { cells, highlighted: i == selected, rate: None });
        i = i + 1;
    }
    rows
}

/// Broker ids joined by ", ".
pub open spec fn join_ids(ids: Seq<i32>) -> Seq<char>
    decreases ids.len(),
{
    if ids.len() == 0 {
        Seq::empty()
    } else if ids.len() == 1 {
        signed_decimal(ids[0] as int)
    } else {
        join_ids(ids.drop_last()) + ", "@ + signed_decimal(ids.last() as int)
    }
}

/// Joins broker ids with ", " (e.g. "1, 2, 3").
pub fn join_id_list(ids: &Vec<i32>) -> (r: String)
    ensures
        r@ == join_ids(ids@),
{
    let mut s = String::new();
    let mut i: usize = 0;
    while i < ids.len()
        invariant
            i <= ids@.len(),
            s@ == join_ids(ids@.take(i as int)),
        decreases ids@.len() - i,
    {
        proof {
            assert(ids@.take(i + 1).drop_last() =~= ids@.take(i as int));
        }
        if i > 0 {
            s.append(", ");
        }
        push_signed_decimal(&mut s, ids[i] as i64);
        proof {
            if i == 0 {
                assert(Seq::<char>::empty() + signed_decimal(ids@[0] as int) =~= signed_decimal(ids@[0] as int));
            }
        }
        i = i + 1;
    }
    proof {
        assert(ids@.take(ids@.len() as int) =~= ids@);
    }
    s
}

/// A partition row of a topic's detail: id (dimmed when a replicated partition is led by
/// another broker than its own id), leader (green, or red when there is none), replicas,
/// in-sync replicas, log-end offset (with thousands commas), and the rate when above zero.
pub open spec fn is_partition_row(r: TableRow, p: PartitionInfo) -> bool {
    &&& r.cells@.len() == 5
    &&& r.cells@[0].text@ == signed_decimal(p.id as int)
    &&& r.cells@[0].tone == (if p.leader == p.id || p.replicas@.len() <= 1 {
        Tone::Plain
    } else {
        Tone::DarkGray
    })
    &&& r.cells@[1].text@ == signed_decimal(p.leader as int)
    &&& r.cells@[1].tone == (if p.leader >= 0 {
        Tone::Green
    } else {
        Tone::Red
    })
    &&& r.cells@[2].text@ == join_ids(p.replicas@)
    &&& r.cells@[2].tone == Tone::Plain
    &&& r.cells@[3].text@ == join_ids(p.isr@)
    &&& r.cells@[3].tone == Tone::Plain
    &&& r.cells@[4].text@ == formatted(p.log_end_offset as int)
    &&& r.cells@[4].tone == Tone::Plain
    &&& !r.highlighted
    &&& r.rate == visible_rate(p.producer_rate)
}

/// The rows of a topic's partition table.
pub fn partition_rows(data: &TopicDetailData) -> (rows: Vec<TableRow>)
    ensures
        rows@.len() == data.partitions@.len(),
        forall|i: int| 0 <= i < rows@.len() ==> is_partition_row(#[trigger] rows@[i], data.partitions@[i]),
        forall|i: int|
            0 <= i < rows@.len() ==> {
                &&& (#[trigger] rows@[i]).cells@.len() == 5
                &&& rows@[i].cells@[0].text@ == signed_decimal(data.partitions@[i].id as int)
                &&& rows@[i].cells@[0].tone == (if data.partitions@[i].leader == data.partitions@[i].id || data.partitions@[i].replicas@.len() <= 1 {
                    Tone::Plain
                } else {
                    Tone::DarkGray
                })
                &&& rows@[i].cells@[1].text@ == signed_decimal(data.partitions@[i].leader as int)
                &&& rows@[i].cells@[1].tone == (if data.partitions@[i].leader >= 0 {
                    Tone::Green
                } else {
                    Tone::Red
                })
                &&& rows@[i].cells@[2].text@ == join_ids(data.partitions@[i].replicas@)
                &&& rows@[i].cells@[2].tone == Tone::Plain
                &&& rows@[i].cells@[3].text@ == join_ids(data.partitions@[i].isr@)
                &&& rows@[i].cells@[3].tone == Tone::Plain
                &&& rows@[i].cells@[4].text@ == formatted(data.partitions@[i].log_end_offset as int)
                &&& rows@[i].cells@[4].tone == Tone::Plain
                &&& !rows@[i].highlighted
                &&& rows@[i].rate == visible_rate(data.partitions@[i].producer_rate)
            },
{
    let mut rows: Vec<TableRow> = Vec::new();
    let mut i: usize = 0;
    while i < data.partitions.len()
        invariant
            i <= data.partitions@.len(),
            rows@.len() == i,
            forall|j: int| 0 <= j < i ==> is_partition_row(#[trigger] rows@[j], data.partitions@[j]),
        decreases data.partitions@.len() - i,
    {
        let p = &data.partitions[i];
        let id_tone = if p.leader == p.id || p.replicas.len() <= 1 {
            Tone::Plain
        } else {
            Tone::DarkGray
        };
        let leader_tone = if p.leader >= 0 {
            Tone::Green
        } else {
            Tone::Red
        };
        let mut cells: Vec<Cell> = Vec::new();
        cells.push(signed_cell(p.id as i64, id_tone));
        cells.push(signed_cell(p.leader as i64, leader_tone));
        cells.push(plain(join_id_list(&p.replicas)));
        cells.push(plain(join_id_list(&p.isr)));
        cells.push(plain(format_number(p.log_end_offset)));
        rows.push(TableRow { cells, highlighted: false, rate: shown_rate(p.producer_rate) });
        i = i + 1;
    }
    rows
}

/// An assignment row of a group's detail: topic, partition, committed offset, log-end
/// offset, lag (red when behind, green when caught up), and the rate when above zero.
pub open spec fn is_assignment_row(r: TableRow, a: PartitionAssignment) -> bool {
    &&& r.cells@.len() == 5
    &&& r.cells@[0].text@ == a.topic@
    &&& r.cells@[1].text@ == signed_decimal(a.partition_id as int)
    &&& r.cells@[2].text@ == signed_decimal(a.current_offset as int)
    &&& r.cells@[3].text@ == signed_decimal(a.log_end_offset as int)
    &&& r.cells@[4].text@ == signed_decimal(a.lag as int)
    &&& forall|k: int| 0 <= k < 4 ==> #[trigger] r.cells@[k].tone == Tone::Plain
    &&& r.cells@[4].tone == (if a.lag > 0 {
        Tone::Red
    } else {
        Tone::Green
    })
    &&& !r.highlighted
    &&& r.rate == visible_rate(a.consumer_rate)
}

/// The rows of a group's partition assignment table.
pub fn assignment_rows(data: &GroupDetailData) -> (rows: Vec<TableRow>)
    ensures
        rows@.len() == data.assignments@.len(),
        forall|i: int| 0 <= i < rows@.len() ==> is_assignment_row(#[trigger] rows@[i], data.assignments@[i]),
        forall|i: int|
            0 <= i < rows@.len() ==> {
                &&& (#[trigger] rows@[i]).cells@.len() == 5
                &&& rows@[i].cells@[0].text@ == data.assignments@[i].topic@
                &&& rows@[i].cells@[1].text@ == signed_decimal(data.assignments@[i].partition_id as int)
                &&& rows@[i].cells@[2].text@ == signed_decimal(data.assignments@[i].current_offset as int)
                &&& rows@[i].cells@[3].text@ == signed_decimal(data.assignments@[i].log_end_offset as int)
                &&& rows@[i].cells@[4].text@ == signed_decimal(data.assignments@[i].lag as int)
                &&& forall|k: int| 0 <= k < 4 ==> #[trigger] rows@[i].cells@[k].tone == Tone::Plain
                &&& rows@[i].cells@[4].tone == (if data.assignments@[i].lag > 0 {
                    Tone::Red
                } else {
                    Tone::Green
                })
                &&& !rows@[i].highlighted
                &&& rows@[i].rate == visible_rate(data.assignments@[i].consumer_rate)
            },
{
    let mut rows: Vec<TableRow> = Vec::new();
    let mut i: usize = 0;
    while i < data.assignments.len()
        invariant
            i <= data.assignments@.len(),
            rows@.len() == i,
            forall|j: int| 0 <= j < i ==> is_assignment_row(#[trigger] rows@[j], data.assignments@[j]),
        decreases data.assignments@.len() - i,
    {
        let a = &data.assignments[i];
        let lag_tone = if a.lag > 0 {
            Tone::Red
        } else {
            Tone::Green
        };
        let mut cells: Vec<Cell> = Vec::new();
        cells.push(plain(a.topic.clone()));
        cells.push(signed_cell(a.partition_id as i64, Tone::Plain));
        cells.push(signed_cell(a.current_offset, Tone::Plain));
        cells.push(signed_cell(a.log_end_offset, Tone::Plain));
        cells.push(signed_cell(a.lag, lag_tone));
        rows.push(TableRow { cells, highlighted: false, rate: shown_rate(a.consumer_rate) });
        i = i + 1;
    }
    rows
}

/// The rows of a group's member table: member id, client id, host.
pub fn member_rows(data: &GroupDetailData) -> (rows: Vec<TableRow>)
    ensures
        rows@.len() == data.members@.len(),
        forall|i: int|
            0 <= i < rows@.len() ==> {
                &&& (#[trigger] rows@[i]).cells@.len() == 3
                &&& rows@[i].cells@[0].text == data.members@[i].member_id
                &&& rows@[i].cells@[1].text == data.members@[i].client_id
                &&& rows@[i].cells@[2].text == data.members@[i].client_host
                &&& forall|k: int| 0 <= k < 3 ==> #[trigger] rows@[i].cells@[k].tone == Tone::Plain
                &&& !rows@[i].highlighted
                &&& rows@[i].rate is None
            },
{
    let mut rows: Vec<TableRow> = Vec::new();
    let mut i: usize = 0;
    while i < data.members.len()
        invariant
            i <= data.members@.len(),
            rows@.len() == i,
            forall|j: int|
                0 <= j < i ==> {
                    &&& (#[trigger] rows@[j]).cells@.len() == 3
                    &&& rows@[j].cells@[0].text == data.members@[j].member_id
                    &&& rows@[j].cells@[1].text == data.members@[j].client_id
                    &&& rows@[j].cells@[2].text == data.members@[j].client_host
                    &&& forall|k: int| 0 <= k < 3 ==> #[trigger] rows@[j].cells@[k].tone == Tone::Plain
                    &&& !rows@[j].highlighted
                    &&& rows@[j].rate is None
                },
        decreases data.members@.len() - i,
    {
        let m = &data.members[i];
        let mut cells: Vec<Cell> = Vec::new();
        cells.push(plain(m.member_id.clone()));
        cells.push(plain(m.client_id.clone()));
        cells.push(plain(m.client_host.clone()));
        rows.push(TableRow { cells, highlighted: false, rate: None });
        i = i + 1;
    }
    rows
}

/// The rows of the broker table: id, host, port.
pub fn broker_rows(data: &DashboardData) -> (rows: Vec<TableRow>)
    ensures
        rows@.len() == data.brokers@.len(),
        forall|i: int|
            0 <= i < rows@.len() ==> {
                &&& (#[trigger] rows@[i]).cells@.len() == 3
                &&& rows@[i].cells@[0].text@ == signed_decimal(data.brokers@[i].id as int)
                &&& rows@[i].cells@[1].text == data.brokers@[i].host
                &&& rows@[i].cells@[2].text@ == signed_decimal(data.brokers@[i].port as int)
                &&& forall|k: int| 0 <= k < 3 ==> #[trigger] rows@[i].cells@[k].tone == Tone::Plain
                &&& !rows@[i].highlighted
                &&& rows@[i].rate is None
            },
{
    let mut rows: Vec<TableRow> = Vec::new();
    let mut i: usize = 0;
    while i < data.brokers.len()
        invariant
            i <= data.brokers@.len(),
            rows@.len() == i,
            forall|j: int|
                0 <= j < i ==> {
                    &&& (#[trigger] rows@[j]).cells@.len() == 3
                    &&& rows@[j].cells@[0].text@ == signed_decimal(data.brokers@[j].id as int)
                    &&& rows@[j].cells@[1].text == data.brokers@[j].host
                    &&& rows@[j].cells@[2].text@ == signed_decimal(data.brokers@[j].port as int)
                    &&& forall|k: int| 0 <= k < 3 ==> #[trigger] rows@[j].cells@[k].tone == Tone::Plain
                    &&& !rows@[j].highlighted
                    &&& rows@[j].rate is None
                },
        decreases data.brokers@.len() - i,
    {
        let b: &BrokerInfo = &data.brokers[i];
        let mut cells: Vec<Cell> = Vec::new();
        cells.push(signed_cell(b.id as i64, Tone::Plain));
        cells.push(plain(b.host.clone()));
        cells.push(signed_cell(b.port as i64, Tone::Plain));
        rows.push(TableRow { cells, highlighted: false, rate: None });
        i = i + 1;
    }
    rows
}

} // verus!
