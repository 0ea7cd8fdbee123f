//! The canonical result shape, and the ordering policy for its events.
use vstd::prelude::*;
use crate::json::opt_view;
use crate::state::{StateType, priority};
use crate::time::{Timestamp, time_le, no_later};

verus! {

/// One scan or checkpoint that a courier reported.
#[derive(Clone, Debug)]
pub struct TrackingStatus {
    /// When it happened, Seoul wall-clock time.
    pub time: Timestamp,
    /// The courier's own status text.
    pub status: Option<String>,
    /// A free-form message.
    pub message: Option<String>,
    /// Where it happened.
    pub location: Option<String>,
    /// A page that follows the delivery live.
    pub live_tracking_url: Option<String>,
    /// The lifecycle stage the status text was classified into.
    pub state: StateType,
}

pub struct EventView {
    pub time: Timestamp,
    pub status: Option<Seq<char>>,
    pub message: Option<Seq<char>>,
    pub location: Option<Seq<char>>,
    pub live_tracking_url: Option<Seq<char>>,
    pub state: StateType,
}

impl View for TrackingStatus {
    type V = EventView;

    open spec fn view(&self) -> EventView {
        EventView {
            time: self.time,
            status: opt_view(self.status),
            message: opt_view(self.message),
            location: opt_view(self.location),
            live_tracking_url: opt_view(self.live_tracking_url),
            state: self.state,
        }
    }
}

/// The outcome of one successful resolution.
#[derive(Clone, Debug)]
pub struct DeliveryStatus {
    /// The courier's identifier, as the caller asked for it.
    pub id: String,
    /// The courier's display name.
    pub name: String,
    /// The page where the courier shows the shipment.
    pub url: String,
    pub tracking_number: String,
    pub is_delivered: bool,
    pub sender: Option<String>,
    pub receiver: Option<String>,
    pub product: Option<String>,
    /// The events, earliest first.
    pub tracks: Vec<TrackingStatus>,
}

pub struct InfoView {
    pub id: Seq<char>,
    pub name: Seq<char>,
    pub url: Seq<char>,
    pub tracking_number: Seq<char>,
    pub is_delivered: bool,
    pub sender: Option<Seq<char>>,
    pub receiver: Option<Seq<char>>,
    pub product: Option<Seq<char>>,
    pub tracks: Seq<EventView>,
}

pub open spec fn events_view(v: Seq<TrackingStatus>) -> Seq<EventView> {
    v.map_values(|e: TrackingStatus| e@)
}

impl View for DeliveryStatus {
    type V = InfoView;

    open spec fn view(&self) -> InfoView {
        InfoView {
            id: self.id@,
            name: self.name@,
            url: self.url@,
            tracking_number: self.tracking_number@,
            is_delivered: self.is_delivered,
            sender: opt_view(self.sender),
            receiver: opt_view(self.receiver),
            product: opt_view(self.product),
            tracks: events_view(self.tracks@),
        }
    }
}

/// `a` may stand before `b`: it is earlier, or as early and, where `by_state`,
/// no further along the pipeline.
pub open spec fn goes_before(a: EventView, b: EventView, by_state: bool) -> bool {
    if a.time == b.time {
        !by_state || priority(a.state) <= priority(b.state)
    } else {
        time_le(a.time, b.time)
    }
}

/// Where a stable insertion puts `e` into `s`: after the last element that may stand before it.
pub open spec fn insert_pos(s: Seq<EventView>, e: EventView, by_state: bool) -> int
    decreases s.len(),
{
    if s.len() == 0 {
        0
    } else if goes_before(s.last(), e, by_state) {
        s.len() as int
    } else {
        insert_pos(s.drop_last(), e, by_state)
    }
}

/// `s` ordered by `goes_before`, keeping the order of events that tie.
pub open spec fn sort_events(s: Seq<EventView>, by_state: bool) -> Seq<EventView>
    decreases s.len(),
{
    if s.len() == 0 {
        s
    } else {
        let rest = sort_events(s.drop_last(), by_state);
        rest.insert(insert_pos(rest, s.last(), by_state), s.last())
    }
}

/// Each event is no earlier than the one before it.
pub open spec fn chronological(s: Seq<EventView>) -> bool {
    forall|i: int, j: int| 0 <= i < j < s.len() ==> time_le(#[trigger] s[i].time, #[trigger] s[j].time)
}

/// Each event may stand before every later one.
pub open spec fn ordered(s: Seq<EventView>, by_state: bool) -> bool {
    forall|i: int, j: int| 0 <= i < j < s.len() ==> goes_before(#[trigger] s[i], #[trigger] s[j], by_state)
}

/// The events as the result shows them: reversed first where the courier lists
/// newest first, then sorted.
pub open spec fn normalized(s: Seq<EventView>, newest_first: bool, by_state: bool) -> Seq<EventView> {
    sort_events(if newest_first { s.reverse() } else { s }, by_state)
}

proof fn lemma_goes_before_total(a: EventView, b: EventView, by_state: bool)
    ensures
        goes_before(a, b, by_state) || goes_before(b, a, by_state),
{
    crate::time::lemma_time_le_total(a.time, b.time);
}

proof fn lemma_goes_before_trans(a: EventView, b: EventView, c: EventView, by_state: bool)
    requires
        goes_before(a, b, by_state),
        goes_before(b, c, by_state),
    ensures
        goes_before(a, c, by_state),
{
    crate::time::lemma_time_le_total(a.time, b.time);
    crate::time::lemma_time_le_total(b.time, c.time);
    crate::time::lemma_time_le_total(a.time, c.time);
}

proof fn lemma_insert_pos_bounds(s: Seq<EventView>, e: EventView, by_state: bool)
    ensures
        0 <= insert_pos(s, e, by_state) <= s.len(),
        forall|k: int|
            insert_pos(s, e, by_state) <= k < s.len() ==> !goes_before(#[trigger] s[k], e, by_state),
        insert_pos(s, e, by_state) > 0 ==> goes_before(
            s[insert_pos(s, e, by_state) - 1],
            e,
            by_state,
        ),
    decreases s.len(),
{
    if s.len() > 0 && !goes_before(s.last(), e, by_state) {
        lemma_insert_pos_bounds(s.drop_last(), e, by_state);
        let p = insert_pos(s, e, by_state);
        assert forall|k: int| p <= k < s.len() implies !goes_before(#[trigger] s[k], e, by_state) by {
            if k < s.len() - 1 {
                assert(s.drop_last()[k] == s[k]);
            }
        }
    }
}

proof fn lemma_insert_ordered(s: Seq<EventView>, e: EventView, by_state: bool)
    requires
        ordered(s, by_state),
    ensures
        ordered(s.insert(insert_pos(s, e, by_state), e), by_state),
{
    lemma_insert_pos_bounds(s, e, by_state);
    let p = insert_pos(s, e, by_state);
    let t = s.insert(p, e);
    assert forall|i: int, j: int| 0 <= i < j < t.len() implies goes_before(
        #[trigger] t[i],
        #[trigger] t[j],
        by_state,
    ) by {
        if i < p && j == p {
            if i < p - 1 {
                lemma_goes_before_trans(s[i], s[p - 1], e, by_state);
            }
        } else if i == p && j > p {
            lemma_goes_before_total(s[j - 1], e, by_state);
        } else if i < p && j > p {
            assert(goes_before(s[i], s[j - 1], by_state));
        } else if i > p {
            assert(goes_before(s[i - 1], s[j - 1], by_state));
        }
    }
}

/// Sorting puts the events in order.
pub proof fn lemma_sort_ordered(s: Seq<EventView>, by_state: bool)
    ensures
        ordered(sort_events(s, by_state), by_state),
        sort_events(s, by_state).len() == s.len(),
    decreases s.len(),
{
    if s.len() > 0 {
        lemma_sort_ordered(s.drop_last(), by_state);
        let rest = sort_events(s.drop_last(), by_state);
        lemma_insert_ordered(rest, s.last(), by_state);
        lemma_insert_pos_bounds(rest, s.last(), by_state);
    }
}

/// Events in order are in chronological order.
pub proof fn lemma_ordered_chronological(s: Seq<EventView>, by_state: bool)
    requires
        ordered(s, by_state),
    ensures
        chronological(s),
{
    assert forall|i: int, j: int| 0 <= i < j < s.len() implies time_le(
        #[trigger] s[i].time,
        #[trigger] s[j].time,
    ) by {
        assert(goes_before(s[i], s[j], by_state));
        crate::time::lemma_time_le_total(s[i].time, s[j].time);
    }
}

/// Normalized events are in chronological order, whatever order they came in.
pub proof fn lemma_normalized_chronological(s: Seq<EventView>, newest_first: bool, by_state: bool)
    ensures
        chronological(normalized(s, newest_first, by_state)),
{
    let t = if newest_first { s.reverse() } else { s };
    lemma_sort_ordered(t, by_state);
    lemma_ordered_chronological(sort_events(t, by_state), by_state);
}

/// Whether `a` may stand before `b`.
fn may_go_before(a: &TrackingStatus, b: &TrackingStatus, by_state: bool) -> (r: bool)
    ensures
        r == goes_before(a@, b@, by_state),
{
    if a.time == b.time {
        !by_state || StateType::get_priority(a.state) <= StateType::get_priority(b.state)
    } else {
        no_later(&a.time, &b.time)
    }
}

/// Puts the events into the order the result shows: reversed first where the
/// courier lists newest first, then stably sorted by time and, where
/// `by_state`, by pipeline priority among events of the same time.
pub fn normalize(events: Vec<TrackingStatus>, newest_first: bool, by_state: bool) -> (r: Vec<
    TrackingStatus,
>)
    ensures
        events_view(r@) == normalized(events_view(events@), newest_first, by_state),
        chronological(events_view(r@)),
{
    let ghost input = if newest_first {
        events_view(events@).reverse()
    } else {
        events_view(events@)
    };
    let mut source = events;
    let n = source.len();
    proof {
        assert(input.subrange(0, n as int) =~= input);
        assert(events_view(events@).subrange(0, n as int) =~= events_view(events@));
    }
    let mut sorted: Vec<TrackingStatus> = Vec::new();
    let mut i: usize = 0;
    while i < n
        invariant
            i <= n,
            n == events@.len(),
            input.len() == n,
            input == (if newest_first {
                events_view(events@).reverse()
            } else {
                events_view(events@)
            }),
            source.len() == n - i,
            newest_first ==> events_view(source@) == events_view(events@).subrange(0, n - i),
            !newest_first ==> events_view(source@) == input.subrange(i as int, n as int),
            events_view(sorted@) == sort_events(input.subrange(0, i as int), by_state),
        decreases n - i,
    {
        let ghost before_remove = source@;
        let e = if newest_first {
            source.pop().unwrap()
        } else {
            source.remove(0)
        };
        proof {
            if newest_first {
                assert(e@ == events_view(before_remove)[n - i - 1]);
                assert(events_view(before_remove)[n - i - 1] == events_view(events@)[n - i - 1]);
                assert(input[i as int] == events_view(events@)[n - 1 - i]);
                assert(e@ == input[i as int]);
                assert(events_view(source@) =~= events_view(events@).subrange(0, n - i - 1));
            } else {
                assert(e@ == events_view(before_remove)[0]);
                assert(input.subrange(i as int, n as int)[0] == input[i as int]);
                assert(e@ == input[i as int]);
                assert(source@ == before_remove.remove(0));
                assert forall|k: int| 0 <= k < source@.len() implies events_view(source@)[k]
                    == input.subrange(i + 1, n as int)[k] by {
                    assert(source@[k] == before_remove[k + 1]);
                    assert(events_view(before_remove)[k + 1] == input.subrange(
                        i as int,
                        n as int,
                    )[k + 1]);
                }
                assert(events_view(source@) =~= input.subrange(i + 1, n as int));
            }
        }
        let ghost prev = events_view(sorted@);
        let mut j: usize = sorted.len();
        proof {
            assert(prev.subrange(0, j as int) =~= prev);
        }
        while j > 0 && !may_go_before(&sorted[j - 1], &e, by_state)
            invariant
                j <= sorted.len(),
                events_view(sorted@) == prev,
                insert_pos(prev, e@, by_state) == insert_pos(prev.subrange(0, j as int), e@, by_state),
            decreases j,
        {
            proof {
                let t = prev.subrange(0, j as int);
                assert(t.drop_last() =~= prev.subrange(0, j - 1));
            }
            j = j - 1;
        }
        proof {
            let t = prev.subrange(0, j as int);
            if j > 0 {
                assert(t.last() == prev[j - 1]);
            }
        }
        sorted.insert(j, e);
        proof {
            let part = input.subrange(0, i + 1);
            assert(part.drop_last() =~= input.subrange(0, i as int));
            assert(part.last() == e@);
            if !newest_first {
                assert(input.subrange(i as int, n as int)[0] == input[i as int]);
            }
            assert(events_view(sorted@) =~= prev.insert(j as int, e@));
        }
        i = i + 1;
    }
    proof {
        assert(input.subrange(0, n as int) =~= input);
        lemma_normalized_chronological(events_view(events@), newest_first, by_state);
    }
    sorted
}

} // verus!
