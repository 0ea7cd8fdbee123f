//! Daesin Logistics, whose branch rows become an arrival and a departure event.
use vstd::prelude::*;
use crate::state::StateType;
use crate::format::{is_numeric, numeric};
use crate::couriers::{CourierType, single, selectors4};
use crate::error::{ErrorView, TrackingError};
use crate::extract::{gather_html, gather_html_rows, opt_events, read_time, result_view, seoul, unreadable, unreadable_event};
use crate::markup::{html_rows, html_text, select_rows, select_text, texts_view};
use crate::status::{DeliveryStatus, EventView, InfoView, TrackingStatus, normalize, normalized};
use crate::text::{contains_text, has_text, join2, join3, same_text, trim_text, trimmed};
use crate::transport::{HttpRequest, get, get_view, no_headers};

verus! {

/// Daesin Logistics.
pub struct Daesin;

/// The tracking-number format.
pub open spec fn valid(s: Seq<char>) -> bool {
    numeric(s, 12) || numeric(s, 13)
}

/// The classification of a status text.
pub open spec fn state_of(s: Seq<char>) -> StateType {
    if s == "인수"@ {
        StateType::AtPickup
    } else if s == "출발"@ {
        StateType::InTransitSent
    } else if s == "도착"@ {
        StateType::InTransitReceived
    } else if s == "배송완료"@ {
        StateType::Delivered
    } else {
        StateType::Unknown
    }
}

impl Daesin {
    pub fn id() -> (r: &'static str)
        ensures
            r@ == "kr.daesin"@,
    {
        "kr.daesin"
    }

    pub fn name() -> (r: &'static str)
        ensures
            r@ == "대신택배"@,
    {
        "대신택배"
    }

    /// The expected format, as the error for a malformed number states it.
    pub fn hint() -> (r: &'static str)
        ensures
            r@ == "숫자 12자리 또는 13자리"@,
    {
        "숫자 12자리 또는 13자리"
    }

    /// Whether `tracking_number` has the courier's format.
    pub fn validate(tracking_number: &str) -> (r: bool)
        ensures
            r == valid(tracking_number@),
    {
        is_numeric(tracking_number, 12) || is_numeric(tracking_number, 13)
    }

    /// The lifecycle stage of one of the courier's status texts.
    pub fn state_from(status: &str) -> (r: StateType)
        ensures
            r == state_of(status@),
    {
        if same_text(status, "인수") {
            StateType::AtPickup
        } else if same_text(status, "출발") {
            StateType::InTransitSent
        } else if same_text(status, "도착") {
            StateType::InTransitReceived
        } else if same_text(status, "배송완료") {
            StateType::Delivered
        } else {
            StateType::Unknown
        }
    }
}

} // verus!

verus! {

pub const PAGE: &'static str = "https://www.ds3211.co.kr/freight/internalFreightSearch.ht?billno=";
pub const NOT_FOUND: &'static str = "검색하신 운송장번호로 운송된 내역이 없습니다";
pub const ROWS: &'static str = "#printarea > table:nth-child(5) > tbody > tr";
pub const DELIVERY: &'static str = "#printarea > table:nth-child(5) > tbody > tr:last-child > td:nth-child(6)";
pub const SENDER: &'static str = "#printarea > table.depth01.tmar_15.bmar_50 > tbody > tr:nth-child(1) > td:nth-child(2)";
pub const RECEIVER: &'static str = "#printarea > table.depth01.tmar_15.bmar_50 > tbody > tr:nth-child(2) > td:nth-child(2)";
pub const PRODUCT: &'static str = "#printarea > table.depth01.tmar_15.bmar_50 > tbody > tr:nth-child(3) > td:nth-child(2)";

pub open spec fn cells() -> Seq<Seq<char>> {
    seq!["td:nth-child(1)"@, "td:nth-child(2)"@, "td:nth-child(4)"@, "td:nth-child(5)"@]
}

/// `[branch kind] branch name`.
pub open spec fn place(row: Seq<Seq<char>>) -> Seq<char> {
    "["@ + trimmed(row[1]) + "] "@ + trimmed(row[2])
}

pub open spec fn arrival_status(row: Seq<Seq<char>>) -> Seq<char> {
    if row[1] == "발송취급점"@ {
        "인수"@
    } else {
        "도착"@
    }
}

pub open spec fn departure_status(row: Seq<Seq<char>>) -> Seq<char> {
    if row[1] == "도착취급점"@ {
        "배송완료"@
    } else {
        "출발"@
    }
}

pub open spec fn event_at(t: crate::time::Timestamp, status: Seq<char>, place: Seq<char>) -> EventView {
    EventView {
        time: t,
        status: Some(status),
        message: None,
        location: Some(place),
        live_tracking_url: None,
        state: state_of(status),
    }
}

/// A branch row: the parcel's arrival there and, where it has one, its departure.
pub open spec fn row_events(row: Seq<Seq<char>>) -> Option<Seq<EventView>> {
    if row.len() != 5 {
        None
    } else if has_text(row[0], "th"@) {
        Some(Seq::empty())
    } else {
        match seoul(row[3], "%Y-%m-%d %H:%M"@) {
            None => None,
            Some(t) => {
                let first = event_at(t, arrival_status(row), place(row));
                if row[4].len() == 0 {
                    Some(seq![first])
                } else {
                    match seoul(row[4], "%Y-%m-%d %H:%M"@) {
                        None => None,
                        Some(t2) => Some(seq![first, event_at(t2, departure_status(row), place(row))]),
                    }
                }
            },
        }
    }
}

/// What a reply page says.
pub open spec fn parsed(tn: Seq<char>, body: Seq<char>) -> Result<InfoView, ErrorView> {
    if has_text(body, NOT_FOUND@) {
        Err(ErrorView::NotExistsTrackingNumber)
    } else {
        match gather_html(CourierType::Daesin, html_rows(body, ROWS@, cells())) {
            None => Err(unreadable()),
            Some(evs) => Ok(
                InfoView {
                    id: "kr.daesin"@,
                    name: "대신택배"@,
                    url: PAGE@ + tn,
                    tracking_number: tn,
                    is_delivered: has_text(html_text(body, DELIVERY@), "배송완료"@),
                    sender: Some(html_text(body, SENDER@)),
                    receiver: Some(html_text(body, RECEIVER@)),
                    product: Some(html_text(body, PRODUCT@)),
                    tracks: normalized(evs, false, false),
                },
            ),
        }
    }
}

impl Daesin {
    pub fn request(tracking_number: &str) -> (r: HttpRequest)
        ensures
            r@ == get_view(PAGE@ + tracking_number@, Seq::empty()),
    {
        get(join2(PAGE, tracking_number), no_headers())
    }

    fn event(t: crate::time::Timestamp, status: &str, place: &String) -> (r: TrackingStatus)
        ensures
            r@ == event_at(t, status@, place@),
    {
        let state = Daesin::state_from(status);
        TrackingStatus {
            time: t,
            status: Some(status.to_string()),
            message: None,
            location: Some(place.clone()),
            live_tracking_url: None,
            state,
        }
    }

    pub fn row(row: &Vec<String>) -> (r: Option<Vec<TrackingStatus>>)
        ensures
            opt_events(r) == row_events(texts_view(row@)),
    {
        if row.len() != 5 {
            return None;
        }
        if contains_text(row[0].as_str(), "th") {
            return Some(Vec::new());
        }
        let t = match read_time(row[3].as_str(), "%Y-%m-%d %H:%M") {
            Some(t) => t,
            None => return None,
        };
        let kind = trim_text(row[1].as_str());
        let name = trim_text(row[2].as_str());
        let place = join3("[", kind.as_str(), "] ");
        let place = join2(place.as_str(), name.as_str());
        let arrival = if same_text(row[1].as_str(), "발송취급점") {
            "인수"
        } else {
            "도착"
        };
        let mut v = single(Daesin::event(t, arrival, &place));
        if row[4].as_str().is_empty() {
            return Some(v);
        }
        let t2 = match read_time(row[4].as_str(), "%Y-%m-%d %H:%M") {
            Some(t) => t,
            None => return None,
        };
        let departure = if same_text(row[1].as_str(), "도착취급점") {
            "배송완료"
        } else {
            "출발"
        };
        let ghost before = crate::status::events_view(v@);
        let e2 = Daesin::event(t2, departure, &place);
        v.push(e2);
        proof {
            assert(crate::status::events_view(v@) =~= before.push(e2@));
        }
        Some(v)
    }

    /// Reads a reply page.
    pub fn parse(tracking_number: &str, body: &str) -> (r: Result<DeliveryStatus, TrackingError>)
        ensures
            result_view(r) == parsed(tracking_number@, body@),
    {
        if contains_text(body, NOT_FOUND) {
            return Err(TrackingError::NotExistsTrackingNumber);
        }
        let cells = selectors4("td:nth-child(1)", "td:nth-child(2)", "td:nth-child(4)", "td:nth-child(5)");
        let rows = select_rows(body, ROWS, &cells);
        let evs = match gather_html_rows(CourierType::Daesin, &rows) {
            Some(evs) => evs,
            None => return Err(unreadable_event()),
        };
        let delivered = select_text(body, DELIVERY);
        Ok(DeliveryStatus {
            id: Daesin::id().to_string(),
            name: Daesin::name().to_string(),
            url: join2(PAGE, tracking_number),
            tracking_number: tracking_number.to_string(),
            is_delivered: contains_text(delivered.as_str(), "배송완료"),
            sender: Some(select_text(body, SENDER)),
            receiver: Some(select_text(body, RECEIVER)),
            product: Some(select_text(body, PRODUCT)),
            tracks: normalize(evs, false, false),
        })
    }
}

} // verus!
