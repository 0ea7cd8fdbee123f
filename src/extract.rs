//! Pieces shared by the couriers' parsers: reading times, reporting what is
//! missing, and gathering the events of a page's rows.
use vstd::prelude::*;
use crate::couriers::{CourierType, html_row_events, json_row_events, html_row, json_row};
use crate::error::{ErrorView, TrackingError};
use crate::status::{DeliveryStatus, InfoView, TrackingStatus, EventView, events_view};
use crate::time::{Timestamp, TimeFields, seoul_time, seoul_time_of_instant, read_seoul_time, read_instant_in_seoul};

verus! {

pub open spec fn result_view(r: Result<DeliveryStatus, TrackingError>) -> Result<InfoView, ErrorView> {
    match r {
        Ok(info) => Ok(info@),
        Err(e) => Err(e@),
    }
}

pub open spec fn opt_result_view(r: Option<Result<DeliveryStatus, TrackingError>>) -> Option<
    Result<InfoView, ErrorView>,
> {
    match r {
        Some(r) => Some(result_view(r)),
        None => None,
    }
}

pub open spec fn stamp(f: TimeFields) -> Timestamp {
    Timestamp {
        year: f.0 as i32,
        month: f.1 as u8,
        day: f.2 as u8,
        hour: f.3 as u8,
        minute: f.4 as u8,
        second: f.5 as u8,
    }
}

pub open spec fn time_of(f: Option<TimeFields>) -> Option<Timestamp> {
    match f {
        Some(f) => Some(stamp(f)),
        None => None,
    }
}

/// `text` read as a Seoul time laid out as `format`.
pub open spec fn seoul(text: Seq<char>, format: Seq<char>) -> Option<Timestamp> {
    time_of(seoul_time(text, format))
}

pub fn read_time(text: &str, format: &str) -> (r: Option<Timestamp>)
    ensures
        r == seoul(text@, format@),
{
    read_seoul_time(text, format)
}

/// The Seoul time of the instant that `text`, laid out as `format` with its UTC offset, names.
pub open spec fn instant(text: Seq<char>, format: Seq<char>) -> Option<Timestamp> {
    time_of(seoul_time_of_instant(text, format))
}

pub fn read_instant(text: &str, format: &str) -> (r: Option<Timestamp>)
    ensures
        r == instant(text@, format@),
{
    read_instant_in_seoul(text, format)
}

/// The error for data embedded in a page that is not JSON.
pub open spec fn embedded() -> ErrorView {
    ErrorView::ParsingError("the embedded data is not JSON"@)
}

pub fn embedded_error() -> (r: TrackingError)
    ensures
        r@ == embedded(),
{
    TrackingError::ParsingError("the embedded data is not JSON".to_string())
}

/// The error for a page that lacks a field the parser relies on.
pub open spec fn missing() -> ErrorView {
    ErrorView::ParsingError("a field is missing from the response"@)
}

pub fn missing_field() -> (r: TrackingError)
    ensures
        r@ == missing(),
{
    TrackingError::ParsingError("a field is missing from the response".to_string())
}

/// The error for an event that cannot be read.
pub open spec fn unreadable() -> ErrorView {
    ErrorView::ParsingError("an event cannot be read"@)
}

pub fn unreadable_event() -> (r: TrackingError)
    ensures
        r@ == unreadable(),
{
    TrackingError::ParsingError("an event cannot be read".to_string())
}

/// The error for a response that is not the JSON the courier's service sends.
pub open spec fn malformed() -> ErrorView {
    ErrorView::RequestFailed("the response is not JSON"@)
}

pub fn malformed_response() -> (r: TrackingError)
    ensures
        r@ == malformed(),
{
    TrackingError::RequestFailed("the response is not JSON".to_string())
}

/// The events of all rows of a page, in row order; `None` where a row cannot be read.
pub open spec fn gather_html(c: CourierType, rows: Seq<Seq<Seq<char>>>) -> Option<Seq<EventView>>
    decreases rows.len(),
{
    if rows.len() == 0 {
        Some(Seq::empty())
    } else {
        match (gather_html(c, rows.drop_last()), html_row_events(c, rows.last())) {
            (Some(a), Some(b)) => Some(a + b),
            _ => None,
        }
    }
}

/// The events of all elements of a JSON array, in order; `None` where one cannot be read.
pub open spec fn gather_json(c: CourierType, ctx: Seq<char>, rows: Seq<Seq<Option<Seq<char>>>>) -> Option<
    Seq<EventView>,
>
    decreases rows.len(),
{
    if rows.len() == 0 {
        Some(Seq::empty())
    } else {
        match (gather_json(c, ctx, rows.drop_last()), json_row_events(c, ctx, rows.last())) {
            (Some(a), Some(b)) => Some(a + b),
            _ => None,
        }
    }
}

proof fn lemma_gather_html_fails(c: CourierType, rows: Seq<Seq<Seq<char>>>, i: int, j: int)
    requires
        0 <= i <= j <= rows.len(),
        gather_html(c, rows.subrange(0, i)) is None,
    ensures
        gather_html(c, rows.subrange(0, j)) is None,
    decreases j - i,
{
    if i < j {
        lemma_gather_html_fails(c, rows, i, j - 1);
        assert(rows.subrange(0, j).drop_last() =~= rows.subrange(0, j - 1));
    }
}

proof fn lemma_gather_json_fails(
    c: CourierType,
    ctx: Seq<char>,
    rows: Seq<Seq<Option<Seq<char>>>>,
    i: int,
    j: int,
)
    requires
        0 <= i <= j <= rows.len(),
        gather_json(c, ctx, rows.subrange(0, i)) is None,
    ensures
        gather_json(c, ctx, rows.subrange(0, j)) is None,
    decreases j - i,
{
    if i < j {
        lemma_gather_json_fails(c, ctx, rows, i, j - 1);
        assert(rows.subrange(0, j).drop_last() =~= rows.subrange(0, j - 1));
    }
}

pub open spec fn opt_events(r: Option<Vec<TrackingStatus>>) -> Option<Seq<EventView>> {
    match r {
        Some(v) => Some(events_view(v@)),
        None => None,
    }
}

/// The events of all rows of a page, in row order.
pub fn gather_html_rows(c: CourierType, rows: &Vec<Vec<String>>) -> (r: Option<Vec<TrackingStatus>>)
    ensures
        opt_events(r) == gather_html(c, crate::markup::table_view(rows@)),
{
    let ghost t = crate::markup::table_view(rows@);
    let n = rows.len();
    let mut out: Vec<TrackingStatus> = Vec::new();
    let mut i: usize = 0;
    proof {
        assert(t.subrange(0, 0) =~= Seq::<Seq<Seq<char>>>::empty());
    }
    while i < n
        invariant
            n == rows@.len(),
            t == crate::markup::table_view(rows@),
            i <= n,
            gather_html(c, t.subrange(0, i as int)) == Some(events_view(out@)),
        decreases n - i,
    {
        let got = html_row(c, &rows[i]);
        proof {
            assert(t.subrange(0, i + 1).drop_last() =~= t.subrange(0, i as int));
            assert(t.subrange(0, i + 1).last() == t[i as int]);
        }
        match got {
            Some(mut evs) => {
                let ghost before = events_view(out@);
                let ghost added = events_view(evs@);
                out.append(&mut evs);
                proof {
                    assert(events_view(out@) =~= before + added);
                }
            },
            None => {
                proof {
                    lemma_gather_html_fails(c, t, i + 1, n as int);
                    assert(t.subrange(0, n as int) =~= t);
                }
                return None;
            },
        }
        i = i + 1;
    }
    proof {
        assert(t.subrange(0, n as int) =~= t);
    }
    Some(out)
}

/// The events of all elements of a JSON array, in order.
pub fn gather_json_rows(c: CourierType, ctx: &str, rows: &Vec<Vec<Option<String>>>) -> (r: Option<
    Vec<TrackingStatus>,
>)
    ensures
        opt_events(r) == gather_json(c, ctx@, crate::json::opt_table_view(rows@)),
{
    let ghost t = crate::json::opt_table_view(rows@);
    let n = rows.len();
    let mut out: Vec<TrackingStatus> = Vec::new();
    let mut i: usize = 0;
    proof {
        assert(t.subrange(0, 0) =~= Seq::<Seq<Option<Seq<char>>>>::empty());
    }
    while i < n
        invariant
            n == rows@.len(),
            t == crate::json::opt_table_view(rows@),
            i <= n,
            gather_json(c, ctx@, t.subrange(0, i as int)) == Some(events_view(out@)),
        decreases n - i,
    {
        let got = json_row(c, ctx, &rows[i]);
        proof {
            assert(t.subrange(0, i + 1).drop_last() =~= t.subrange(0, i as int));
            assert(t.subrange(0, i + 1).last() == t[i as int]);
        }
        match got {
            Some(mut evs) => {
                let ghost before = events_view(out@);
                let ghost added = events_view(evs@);
                out.append(&mut evs);
                proof {
                    assert(events_view(out@) =~= before + added);
                }
            },
            None => {
                proof {
                    lemma_gather_json_fails(c, ctx@, t, i + 1, n as int);
                    assert(t.subrange(0, n as int) =~= t);
                }
                return None;
            },
        }
        i = i + 1;
    }
    proof {
        assert(t.subrange(0, n as int) =~= t);
    }
    Some(out)
}

} // verus!
