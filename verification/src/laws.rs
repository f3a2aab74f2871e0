use vstd::prelude::*;

use vstd::view::View as _;
use crate::app::{App, KeyCode, KeyInput, Tab, View};
use crate::cluster::{listed_topics, passes, total_high, visible_count, TopicMeta};
use crate::fetch::{clamp_index, failed, started, Slot};
use crate::rates::{
    assignment_sample, last_sample, partition_sample, rated_assignment, rated_partition, sample_matches,
    OffsetSample,
};
use crate::state::{LoadState, PartitionAssignment, PartitionInfo, Rate};
use crate::text::{decimal, digit_char, group_thousands, is_internal};

verus! {

/// Moving one tab right and then one tab left (or left, then right) comes back to the same tab.
pub proof fn lemma_tab_next_prev_inverse(t: Tab)
    ensures
        t.spec_next().spec_prev() == t,
        t.spec_prev().spec_next() == t,
{
}

/// Three moves in the same direction visit every tab and come back to the start.
pub proof fn lemma_tab_cycle(t: Tab)
    ensures
        t.spec_next().spec_next().spec_next() == t,
        t.spec_prev().spec_prev().spec_prev() == t,
        t.spec_next() != t,
        t.spec_next().spec_next() != t,
{
}

/// Every key keeps the state well formed: list selections stay inside loaded lists and a
/// detail view keeps exactly its own selection.
pub proof fn lemma_key_keeps_inv(app: App, key: KeyInput)
    requires
        app.inv(),
    ensures
        app.key_spec(key).0.inv(),
{
}

/// In a list view, Tab then Shift+Tab (both pressed) returns to the same tab, and
/// each of the two asks for a fetch.
pub proof fn lemma_tab_then_backtab(app: App, tab: KeyInput, backtab: KeyInput)
    requires
        app.current_view == View::Normal,
        tab.code == KeyCode::Tab,
        tab.is_press,
        backtab.code == KeyCode::BackTab,
        backtab.is_press,
    ensures
        app.key_spec(tab).1,
        app.key_spec(tab).0.key_spec(backtab).1,
        app.key_spec(tab).0.key_spec(backtab).0.current_tab == app.current_tab,
        app.key_spec(tab).0.key_spec(backtab).0.current_view == View::Normal,
{
    lemma_tab_next_prev_inverse(app.current_tab);
}

/// Opening a detail and going back returns to the list view with the same tab,
/// the same list data and the same highlighted row, and nothing selected.
pub proof fn lemma_drill_down_then_back(app: App)
    requires
        app.inv(),
        app.current_view == View::Normal,
    ensures
        ({
            let b = app.drill_down_spec().go_back_spec();
            &&& b.current_view == View::Normal
            &&& b.current_tab == app.current_tab
            &&& b.topics_state == app.topics_state
            &&& b.groups_state == app.groups_state
            &&& b.topic_list_index == app.topic_list_index
            &&& b.group_list_index == app.group_list_index
            &&& b.selected_topic is None
            &&& b.selected_group is None
        }),
{
}

/// Quitting: `q` or `Q` sets the quit flag, changes nothing else and asks for no fetch.
pub proof fn lemma_quit_key(app: App, key: KeyInput)
    requires
        key.code == KeyCode::Char('q') || key.code == KeyCode::Char('Q'),
    ensures
        app.key_spec(key).0 == (App { should_quit: true, ..app }),
        !app.key_spec(key).1,
{
}

/// A key that asks for a fetch leaves the shown screen idle, so the fetch that follows is
/// not skipped (Enter pressed inside a detail view, which asks for a fetch of a screen
/// already loading or loaded, is the exception).
pub proof fn lemma_refresh_key_leaves_screen_idle(app: App, key: KeyInput)
    requires
        app.key_spec(key).1,
        !(key.code == KeyCode::Enter && app.current_view != View::Normal),
    ensures
        app.key_spec(key).0.slot_idle(app.key_spec(key).0.shown_slot()),
{
}

/// Data on screen is never replaced by "loading" or by an error: starting a fetch or
/// failing one leaves loaded data as it is.
pub proof fn lemma_loaded_data_survives<T: Clone>(s: LoadState<T>, e: String)
    requires
        s is Loaded,
    ensures
        started(s) == s,
        failed(s, e) == s,
{
}

proof fn lemma_last_sample_unique(s: Seq<OffsetSample>, k: int, topic: Seq<char>, partition: i32)
    requires
        0 <= k < s.len(),
        sample_matches(s[k], topic, partition),
        forall|j: int| 0 <= j < s.len() && j != k ==> !sample_matches(#[trigger] s[j], topic, partition),
    ensures
        last_sample(s, topic, partition) == Some(s[k]),
    decreases s.len(),
{
    if k != s.len() - 1 {
        assert(!sample_matches(s[s.len() - 1], topic, partition));
        let t = s.drop_last();
        assert forall|j: int| 0 <= j < t.len() && j != k implies !sample_matches(#[trigger] t[j], topic, partition) by {
            assert(t[j] == s[j]);
        }
        lemma_last_sample_unique(t, k, topic, partition);
    }
}

/// The rate shown for a partition of a topic is its offset growth since the previous
/// fetch over the time between the two fetches: when the previous fetch listed the
/// topic's partitions once each and kept their offsets (as `finish_fetch` keeps them),
/// a partition whose offset did not go back, seen later in time, gets exactly that rate.
pub proof fn lemma_rate_between_fetches(
    topic: String,
    first: Seq<PartitionInfo>,
    kept: Seq<OffsetSample>,
    t1: u64,
    k: int,
    p: PartitionInfo,
    t2: u64,
)
    requires
        0 <= k < first.len(),
        forall|i: int, j: int| 0 <= i < j < first.len() ==> first[i].id != first[j].id,
        kept.len() == first.len(),
        forall|i: int|
            0 <= i < first.len() ==> {
                &&& (#[trigger] kept[i]).topic@ == topic@
                &&& kept[i].partition == first[i].id
                &&& kept[i].offset == first[i].log_end_offset
                &&& kept[i].at_nanos == t1
            },
        p.id == first[k].id,
        t2 > t1,
        p.log_end_offset >= first[k].log_end_offset,
    ensures
        rated_partition(p, topic@, kept, t2).producer_rate == Some(
            Rate {
                messages: (p.log_end_offset - first[k].log_end_offset) as u64,
                elapsed_nanos: (t2 - t1) as u64,
            },
        ),
        rated_partition(p, topic@, kept, t2).id == p.id,
        rated_partition(p, topic@, kept, t2).leader == p.leader,
        rated_partition(p, topic@, kept, t2).replicas == p.replicas,
        rated_partition(p, topic@, kept, t2).isr == p.isr,
        rated_partition(p, topic@, kept, t2).log_end_offset == p.log_end_offset,
{
    assert forall|j: int| 0 <= j < kept.len() && j != k implies !sample_matches(#[trigger] kept[j], topic@, p.id) by {
        assert(kept[j].partition == first[j].id);
        if j < k {
            assert(first[j].id != first[k].id);
        } else {
            assert(first[k].id != first[j].id);
        }
    }
    assert(kept[k].partition == first[k].id);
    lemma_last_sample_unique(kept, k, topic@, p.id);
}

/// The offsets kept after a topic's detail is fetched are, for each partition, its
/// topic, id and log-end offset at the time of the fetch.
pub proof fn lemma_topic_sample_fields(topic: String, p: PartitionInfo, now: u64)
    ensures
        partition_sample(topic, p, now).topic == topic,
        partition_sample(topic, p, now).partition == p.id,
        partition_sample(topic, p, now).offset == p.log_end_offset,
        partition_sample(topic, p, now).at_nanos == now,
{
}

/// The offsets kept after a group's detail is fetched are, for each assignment, its
/// topic, partition and committed (current) offset at the time of the fetch.
pub proof fn lemma_group_sample_fields(a: PartitionAssignment, now: u64)
    ensures
        assignment_sample(a, now).topic == a.topic,
        assignment_sample(a, now).partition == a.partition_id,
        assignment_sample(a, now).offset == a.current_offset,
        assignment_sample(a, now).at_nanos == now,
{
}

/// The consumption rate shown for a partition of a group is the growth of the group's
/// committed offset since the previous fetch over the time between the two fetches: when
/// the previous fetch listed each (topic, partition) once and kept its committed offset,
/// an assignment whose committed offset did not go back, seen later in time, gets exactly
/// that rate; its other fields are unchanged.
pub proof fn lemma_consumer_rate_between_fetches(
    first: Seq<PartitionAssignment>,
    kept: Seq<OffsetSample>,
    t1: u64,
    k: int,
    a: PartitionAssignment,
    t2: u64,
)
    requires
        0 <= k < first.len(),
        forall|i: int, j: int|
            0 <= i < j < first.len() ==> !(first[i].topic@ == first[j].topic@ && first[i].partition_id
                == first[j].partition_id),
        kept.len() == first.len(),
        forall|i: int|
            0 <= i < first.len() ==> {
                &&& (#[trigger] kept[i]).topic@ == first[i].topic@
                &&& kept[i].partition == first[i].partition_id
                &&& kept[i].offset == first[i].current_offset
                &&& kept[i].at_nanos == t1
            },
        a.topic@ == first[k].topic@,
        a.partition_id == first[k].partition_id,
        t2 > t1,
        a.current_offset >= first[k].current_offset,
    ensures
        rated_assignment(a, kept, t2).consumer_rate == Some(
            Rate {
                messages: (a.current_offset - first[k].current_offset) as u64,
                elapsed_nanos: (t2 - t1) as u64,
            },
        ),
        rated_assignment(a, kept, t2).topic == a.topic,
        rated_assignment(a, kept, t2).partition_id == a.partition_id,
        rated_assignment(a, kept, t2).current_offset == a.current_offset,
        rated_assignment(a, kept, t2).log_end_offset == a.log_end_offset,
        rated_assignment(a, kept, t2).lag == a.lag,
{
    assert forall|j: int| 0 <= j < kept.len() && j != k implies !sample_matches(
        #[trigger] kept[j],
        a.topic@,
        a.partition_id,
    ) by {
        if j < k {
            assert(!(first[j].topic@ == first[k].topic@ && first[j].partition_id == first[k].partition_id));
        } else {
            assert(!(first[k].topic@ == first[j].topic@ && first[k].partition_id == first[j].partition_id));
        }
    }
    lemma_last_sample_unique(kept, k, a.topic@, a.partition_id);
}

/// No rate is measured against a kept offset when no time has passed or the offset went
/// back: the partition's rate stays as it was.
pub proof fn lemma_no_rate_without_progress(
    topic: String,
    kept: Seq<OffsetSample>,
    k: int,
    p: PartitionInfo,
    now: u64,
)
    requires
        0 <= k < kept.len(),
        kept[k].topic@ == topic@,
        kept[k].partition == p.id,
        forall|j: int| 0 <= j < kept.len() && j != k ==> !((#[trigger] kept[j]).topic@ == topic@ && kept[j].partition == p.id),
        now <= kept[k].at_nanos || p.log_end_offset < kept[k].offset,
    ensures
        rated_partition(p, topic@, kept, now) == p,
{
    lemma_last_sample_unique(kept, k, topic@, p.id);
}

/// Of several kept offsets for one (topic, partition), the one recorded last counts, as
/// with a map that records each fetch's offsets in order: adding a sample for a key makes
/// it the one found, and adding one for another key changes nothing.
pub proof fn lemma_latest_sample_counts(kept: Seq<OffsetSample>, s: OffsetSample, topic: Seq<char>, partition: i32)
    ensures
        s.topic@ == topic && s.partition == partition ==> last_sample(kept.push(s), topic, partition) == Some(s),
        !(s.topic@ == topic && s.partition == partition) ==> last_sample(kept.push(s), topic, partition)
            == last_sample(kept, topic, partition),
        last_sample(Seq::<OffsetSample>::empty(), topic, partition) is None,
{
    assert(kept.push(s).drop_last() =~= kept);
}

/// A topic's total is additive over its partitions: no partitions total 0, a partition
/// whose high watermark was read adds it, and one that could not be read adds nothing.
pub proof fn lemma_total_is_sum(highs: Seq<Option<i64>>, h: i64)
    ensures
        total_high(Seq::<Option<i64>>::empty()) == 0,
        total_high(highs.push(Some(h))) == total_high(highs) + h,
        total_high(highs.push(None)) == total_high(highs),
{
    assert(highs.push(Some(h)).drop_last() =~= highs);
    assert(highs.push(None).drop_last() =~= highs);
}

/// A list selection that still points into the newly arrived list is kept; one past its
/// end moves to the last item; with an empty list it is 0. The result is always inside
/// the list (or 0).
pub proof fn lemma_clamp_keeps_selection(index: usize, len: nat)
    requires
        len <= usize::MAX,
    ensures
        index < len ==> clamp_index(index, len) == index,
        len > 0 && index >= len ==> clamp_index(index, len) == len - 1,
        len == 0 ==> clamp_index(index, len) == 0,
        len > 0 ==> clamp_index(index, len) < len,
        clamp_index(index, len) <= index,
{
}

/// Enter in a loaded, non-empty list opens the highlighted row: the topic (or group) at the
/// selection when it is inside the list, else the last one.
pub proof fn lemma_enter_opens_highlighted(app: App, key: KeyInput)
    requires
        app.current_view == View::Normal,
        key.code == KeyCode::Enter,
    ensures
        app.current_tab == Tab::Topics ==> match app.topics_state {
            LoadState::Loaded(d) => d.topics@.len() > 0 ==> {
                let r = app.key_spec(key);
                &&& r.1
                &&& r.0.current_view == View::TopicDetail
                &&& r.0.topic_detail_state is Idle
                &&& r.0.topic_list_index == app.topic_list_index
                &&& app.topic_list_index < d.topics@.len() ==> r.0.selected_topic == Some(
                    d.topics@[app.topic_list_index as int].name,
                )
                &&& app.topic_list_index >= d.topics@.len() ==> r.0.selected_topic == Some(
                    d.topics@[d.topics@.len() - 1].name,
                )
            },
            _ => app.key_spec(key) == (app, false),
        },
        app.current_tab == Tab::ConsumerGroups ==> match app.groups_state {
            LoadState::Loaded(d) => d.groups@.len() > 0 ==> {
                let r = app.key_spec(key);
                &&& r.1
                &&& r.0.current_view == View::GroupDetail
                &&& r.0.group_detail_state is Idle
                &&& r.0.group_list_index == app.group_list_index
                &&& app.group_list_index < d.groups@.len() ==> r.0.selected_group == Some(
                    d.groups@[app.group_list_index as int].group_id,
                )
                &&& app.group_list_index >= d.groups@.len() ==> r.0.selected_group == Some(
                    d.groups@[d.groups@.len() - 1].group_id,
                )
            },
            _ => app.key_spec(key) == (app, false),
        },
        app.current_tab == Tab::Dashboard ==> app.key_spec(key) == (app, false),
{
}

/// Up and Down (or k and j, without modifiers) move the highlighted row of the shown list
/// by exactly one, within the loaded list; nothing else changes and no fetch is asked for.
pub proof fn lemma_scroll_moves_by_one(app: App, up: KeyInput, down: KeyInput)
    requires
        up.code == KeyCode::Up,
        up.no_modifiers,
        down.code == KeyCode::Down,
        down.no_modifiers,
        app.current_tab == Tab::Topics,
    ensures
        !app.key_spec(up).1,
        !app.key_spec(down).1,
        app.topic_list_index > 0 ==> app.key_spec(up).0 == (App { topic_list_index: (app.topic_list_index - 1) as usize, ..app }),
        app.topic_list_index == 0 ==> app.key_spec(up).0 == app,
        match app.topics_state {
            LoadState::Loaded(d) => app.topic_list_index + 1 < d.topics@.len() ==> app.key_spec(down).0 == (App {
                topic_list_index: (app.topic_list_index + 1) as usize,
                ..app
            }),
            _ => app.key_spec(down).0 == app,
        },
{
}

/// Esc in a detail view returns to the list it was opened from, with nothing selected and
/// the list's data, tab and highlighted row unchanged, and asks for no fetch; in a list
/// view it does nothing.
pub proof fn lemma_esc_goes_back(app: App, key: KeyInput)
    requires
        key.code == KeyCode::Esc,
    ensures
        !app.key_spec(key).1,
        app.current_view == View::Normal ==> app.key_spec(key).0 == app,
        app.current_view != View::Normal ==> app.key_spec(key).0 == (App {
            current_view: View::Normal,
            selected_topic: None,
            selected_group: None,
            ..app
        }),
{
}

/// The refresh key forgets only the shown screen's data: every other screen keeps its
/// data, and navigation is unchanged.
pub proof fn lemma_refresh_key_resets_only_shown(app: App, key: KeyInput)
    requires
        key.code == KeyCode::Char('r') || key.code == KeyCode::Char('R'),
    ensures
        ({
            let (b, refresh) = app.key_spec(key);
            &&& refresh
            &&& b.current_view == app.current_view
            &&& b.current_tab == app.current_tab
            &&& b.topic_list_index == app.topic_list_index
            &&& b.group_list_index == app.group_list_index
            &&& b.selected_topic == app.selected_topic
            &&& b.selected_group == app.selected_group
            &&& b.slot_idle(app.shown_slot())
            &&& (app.shown_slot() != Slot::Dashboard ==> b.dashboard_state == app.dashboard_state)
            &&& (app.shown_slot() != Slot::Topics ==> b.topics_state == app.topics_state)
            &&& (app.shown_slot() != Slot::Groups ==> b.groups_state == app.groups_state)
            &&& (app.shown_slot() != Slot::TopicDetail ==> b.topic_detail_state == app.topic_detail_state)
            &&& (app.shown_slot() != Slot::GroupDetail ==> b.group_detail_state == app.group_detail_state)
        }),
{
}

/// No consumption rate is measured against a kept offset when no time has passed or the
/// committed offset went back: the assignment's rate stays as it was.
pub proof fn lemma_no_consumer_rate_without_progress(kept: Seq<OffsetSample>, k: int, a: PartitionAssignment, now: u64)
    requires
        0 <= k < kept.len(),
        kept[k].topic@ == a.topic@,
        kept[k].partition == a.partition_id,
        forall|j: int|
            0 <= j < kept.len() && j != k ==> !((#[trigger] kept[j]).topic@ == a.topic@ && kept[j].partition
                == a.partition_id),
        now <= kept[k].at_nanos || a.current_offset < kept[k].offset,
    ensures
        rated_assignment(a, kept, now) == a,
{
    lemma_last_sample_unique(kept, k, a.topic@, a.partition_id);
}

/// Starting a fetch of a screen without data shows "loading"; a failed fetch of a screen
/// without data shows the error.
pub proof fn lemma_unloaded_screen_shows_progress<T: Clone>(s: LoadState<T>, e: String)
    requires
        !(s is Loaded),
    ensures
        started(s) is Loading,
        failed(s, e) == LoadState::<T>::Error(e),
{
}

/// On the first fetch of a detail (no offsets kept yet) no rate is measured.
pub proof fn lemma_first_fetch_has_no_rate(topic: Seq<char>, p: PartitionInfo, now: u64)
    ensures
        rated_partition(p, topic, Seq::<OffsetSample>::empty(), now) == p,
{
}


pub open spec fn not_comma(c: char) -> bool {
    c != ','
}

proof fn lemma_digits_have_no_comma(n: nat)
    ensures
        forall|i: int| 0 <= i < decimal(n).len() ==> #[trigger] decimal(n)[i] != ',',
    decreases n,
{
    if n >= 10 {
        lemma_digits_have_no_comma(n / 10);
        assert(digit_char(n % 10) != ',');
        let d = decimal(n / 10);
        assert(decimal(n) == d.push(digit_char(n % 10)));
        assert forall|i: int| 0 <= i < decimal(n).len() implies #[trigger] decimal(n)[i] != ',' by {
            if i < d.len() {
                assert(decimal(n)[i] == d[i]);
            }
        }
    } else {
        assert(digit_char(n) != ',');
    }
}

proof fn lemma_filter_keeps_all(s: Seq<char>)
    requires
        forall|i: int| 0 <= i < s.len() ==> #[trigger] s[i] != ',',
    ensures
        s.filter(|c: char| not_comma(c)) == s,
    decreases s.len(),
{
    reveal_with_fuel(Seq::filter, 1);
    if s.len() > 0 {
        let t = s.drop_last();
        assert forall|i: int| 0 <= i < t.len() implies #[trigger] t[i] != ',' by {
            assert(t[i] == s[i]);
        }
        lemma_filter_keeps_all(t);
        assert(t.push(s.last()) =~= s);
    }
}

proof fn lemma_strip_grouping(s: Seq<char>)
    requires
        forall|i: int| 0 <= i < s.len() ==> #[trigger] s[i] != ',',
    ensures
        group_thousands(s).filter(|c: char| not_comma(c)) == s,
    decreases s.len(),
{
    let p = |c: char| not_comma(c);
    if s.len() <= 3 {
        lemma_filter_keeps_all(s);
    } else {
        let head = s.subrange(0, s.len() - 3);
        let tail = s.subrange(s.len() - 3, s.len() as int);
        assert forall|i: int| 0 <= i < head.len() implies #[trigger] head[i] != ',' by {
            assert(head[i] == s[i]);
        }
        assert forall|i: int| 0 <= i < tail.len() implies #[trigger] tail[i] != ',' by {
            assert(tail[i] == s[s.len() - 3 + i]);
        }
        lemma_strip_grouping(head);
        lemma_filter_keeps_all(tail);
        Seq::filter_distributes_over_add(group_thousands(head) + seq![','], tail, p);
        Seq::filter_distributes_over_add(group_thousands(head), seq![','], p);
        reveal_with_fuel(Seq::filter, 2);
        assert(seq![','].filter(p) =~= Seq::<char>::empty());
        assert(head + tail =~= s);
    }
}

proof fn lemma_decimal_nonempty(n: nat)
    ensures
        decimal(n).len() >= 1,
    decreases n,
{
    if n >= 10 {
        lemma_decimal_nonempty(n / 10);
    }
}

#[verifier::spinoff_prover]
#[verifier::rlimit(50)]
proof fn lemma_grouping_shape(s: Seq<char>)
    requires
        s.len() >= 1,
        forall|i: int| 0 <= i < s.len() ==> #[trigger] s[i] != ',',
    ensures
        group_thousands(s).len() == s.len() + (s.len() - 1) / 3,
        forall|i: int|
            0 <= i < group_thousands(s).len() ==> ((#[trigger] group_thousands(s)[i] == ',') <==> (
            group_thousands(s).len() - i) % 4 == 0),
    decreases s.len(),
{
    let g = group_thousands(s);
    if s.len() > 3 {
        let head = s.subrange(0, s.len() - 3);
        let tail = s.subrange(s.len() - 3, s.len() as int);
        assert forall|i: int| 0 <= i < head.len() implies #[trigger] head[i] != ',' by {
            assert(head[i] == s[i]);
        }
        lemma_grouping_shape(head);
        let gh = group_thousands(head);
        assert(g == gh + seq![','] + tail);
        assert forall|i: int| 0 <= i < g.len() implies ((#[trigger] g[i] == ',') <==> (g.len() - i) % 4
            == 0) by {
            if i < gh.len() {
                assert(g[i] == gh[i]);
                assert((g.len() - i) % 4 == (gh.len() - i) % 4);
            } else if i > gh.len() {
                assert(g[i] == tail[i - gh.len() - 1]);
                assert(tail[i - gh.len() - 1] == s[s.len() - 3 + (i - gh.len() - 1)]);
            }
        }
    } else {
        assert forall|i: int| 0 <= i < g.len() implies ((#[trigger] g[i] == ',') <==> (g.len() - i) % 4
            == 0) by {
            assert(g[i] == s[i]);
        }
    }
}

/// The shape of a formatted number. Its magnitude's `k` decimal digits come after a `-`
/// for negative numbers, grouped as `k + (k - 1) / 3` characters. In that grouped text a
/// character is a comma exactly when its distance from the end is a multiple of 4, so
/// every group after the first has 3 digits. The length is never a multiple of 4, so the
/// first group has 1 to 3 digits. Taking the commas out gives the digits back.
pub proof fn lemma_format_number_shape(n: int)
    ensures
        ({
            let digits = if n < 0 {
                decimal((-n) as nat)
            } else {
                decimal(n as nat)
            };
            let g = group_thousands(digits);
            &&& crate::text::formatted(n) == if n < 0 {
                seq!['-'] + g
            } else {
                g
            }
            &&& digits.len() >= 1
            &&& g.len() == digits.len() + (digits.len() - 1) / 3
            &&& g.len() % 4 != 0
            &&& forall|i: int| 0 <= i < g.len() ==> ((#[trigger] g[i] == ',') <==> (g.len() - i) % 4 == 0)
            &&& g.filter(|c: char| not_comma(c)) == digits
        }),
{
    let m: nat = if n < 0 {
        (-n) as nat
    } else {
        n as nat
    };
    let digits = decimal(m);
    lemma_decimal_nonempty(m);
    lemma_digits_have_no_comma(m);
    lemma_grouping_shape(digits);
    lemma_strip_grouping(digits);
    let k = digits.len();
    assert((k + (k - 1) / 3) % 4 != 0) by (nonlinear_arith)
        requires
            k >= 1,
    ;
}

/// Without a filter, the topic list shows exactly the topics that are not internal.
pub proof fn lemma_no_filter_lists_all_visible(topics: Seq<TopicMeta>, n: int)
    requires
        0 <= n <= topics.len(),
    ensures
        listed_topics(topics, None, n).len() == visible_count(topics, n),
    decreases n,
{
    if n > 0 {
        lemma_no_filter_lists_all_visible(topics, n - 1);
    }
}

/// Every listed topic is one that is not internal and whose name passes the filter,
/// and the list keeps the metadata's order.
pub proof fn lemma_listed_topics_pass(topics: Seq<TopicMeta>, filter: Option<Seq<char>>, n: int)
    requires
        0 <= n <= topics.len(),
        topics.len() <= usize::MAX,
    ensures
        forall|k: int|
            0 <= k < listed_topics(topics, filter, n).len() ==> {
                let i = #[trigger] listed_topics(topics, filter, n)[k];
                &&& i < n
                &&& !is_internal(topics[i as int].name@)
                &&& passes(topics[i as int].name@, filter)
            },
        forall|k: int, j: int|
            0 <= k < j < listed_topics(topics, filter, n).len() ==> listed_topics(topics, filter, n)[k]
                < listed_topics(topics, filter, n)[j],
    decreases n,
{
    if n > 0 {
        lemma_listed_topics_pass(topics, filter, n - 1);
        let prev = listed_topics(topics, filter, n - 1);
        let cur = listed_topics(topics, filter, n);
        assert forall|k: int| 0 <= k < prev.len() implies cur[k] == prev[k] by {}
        assert forall|k: int|
            0 <= k < cur.len() implies {
                let i = #[trigger] cur[k];
                &&& i < n
                &&& !is_internal(topics[i as int].name@)
                &&& passes(topics[i as int].name@, filter)
            } by {
            if k < prev.len() {
                assert(cur[k] == prev[k]);
            }
        }
        assert forall|k: int, j: int| 0 <= k < j < cur.len() implies cur[k] < cur[j] by {
            assert(cur[k] == prev[k]);
            if j < prev.len() {
                assert(cur[j] == prev[j]);
            } else {
                assert(prev[k] < n - 1);
            }
        }
    }
}

} // verus!
