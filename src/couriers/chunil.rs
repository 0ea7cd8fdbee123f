//! Chunil Express.
use vstd::prelude::*;
use crate::state::StateType;
use crate::format::{is_numeric, numeric};
use crate::couriers::{CourierType, single, selectors3};
use crate::error::{ErrorView, TrackingError};
use crate::extract::{gather_html, gather_html_rows, opt_events, read_time, result_view, seoul, unreadable, unreadable_event};
use crate::markup::{html_rows, html_text, select_rows, select_text, texts_view};
use crate::status::{DeliveryStatus, EventView, InfoView, TrackingStatus, normalize, normalized};
use crate::text::{contains_text, has_text, join2};
use crate::transport::{HttpRequest, get, get_view, no_headers};

verus! {

/// Chunil Express.
pub struct Chunil;

/// The tracking-number format.
pub open spec fn valid(s: Seq<char>) -> bool {
    numeric(s, 11)
}

/// The classification of a status text.
pub open spec fn state_of(s: Seq<char>) -> StateType {
    if has_text(s, "배송완료"@) {
        StateType::Delivered
    } else {
        StateType::Unknown
    }
}

impl Chunil {
    pub fn id() -> (r: &'static str)
        ensures
            r@ == "kr.chunil"@,
    {
        "kr.chunil"
    }

    pub fn name() -> (r: &'static str)
        ensures
            r@ == "천일택배"@,
    {
        "천일택배"
    }

    /// The expected format, as the error for a malformed number states it.
    pub fn hint() -> (r: &'static str)
        ensures
            r@ == "숫자 11자리"@,
    {
        "숫자 11자리"
    }

    /// Whether `tracking_number` has the courier's format.
    pub fn validate(tracking_number: &str) -> (r: bool)
        ensures
            r == valid(tracking_number@),
    {
        is_numeric(tracking_number, 11)
    }

    /// The lifecycle stage of one of the courier's status texts.
    pub fn state_from(status: &str) -> (r: StateType)
        ensures
            r == state_of(status@),
    {
        if contains_text(status, "배송완료") {
            StateType::Delivered
        } else {
            StateType::Unknown
        }
    }
}

} // verus!

verus! {

pub const PAGE: &'static str = "https://www.chunil.co.kr/HTrace/HTrace.jsp?transNo=";
pub const NOT_FOUND: &'static str = "결과가 없습니다";
pub const ROWS: &'static str = "#tracking > tbody > tr";
pub const DELIVERY: &'static str = "table.table01 > tbody > tr:nth-child(2) > td:nth-child(2) > table.table02 > tbody > tr:nth-child(2) > td:nth-child(2)";
pub const SENDER: &'static str = "table.table01 > tbody > tr:nth-child(1) > td:nth-child(1) > table.table02 > tbody > tr:nth-child(1) > td:nth-child(2)";
pub const RECEIVER: &'static str = "table.table01 > tbody > tr:nth-child(1) > td:nth-child(2) > table.table02 > tbody > tr:nth-child(1) > td:nth-child(2)";
pub const PRODUCT: &'static str = "table.table01 > tbody > tr:nth-child(2) > td:nth-child(1) > table.table02 > tbody > tr:nth-child(1) > td:nth-child(2)";

pub open spec fn cells() -> Seq<Seq<char>> {
    seq!["td:nth-child(1)"@, "td:nth-child(4)"@, "td:nth-child(2)"@]
}

/// The event of one table row (dated to the day); the heading row gives none.
pub open spec fn row_events(row: Seq<Seq<char>>) -> Option<Seq<EventView>> {
    if row.len() != 4 {
        None
    } else if has_text(row[0], "날짜"@) {
        Some(Seq::empty())
    } else {
        match seoul(row[1] + " 00:00:00"@, "%Y-%m-%d %H:%M:%S"@) {
            None => None,
            Some(t) => Some(
                seq![
                    EventView {
                        time: t,
                        status: Some(row[2]),
                        message: None,
                        location: Some(row[3]),
                        live_tracking_url: None,
                        state: state_of(row[2]),
                    },
                ],
            ),
        }
    }
}

/// What a reply page says.
pub open spec fn parsed(tn: Seq<char>, body: Seq<char>) -> Result<InfoView, ErrorView> {
    if has_text(body, NOT_FOUND@) {
        Err(ErrorView::NotExistsTrackingNumber)
    } else {
        match gather_html(CourierType::Chunil, html_rows(body, ROWS@, cells())) {
            None => Err(unreadable()),
            Some(evs) => Ok(
                InfoView {
                    id: "kr.chunil"@,
                    name: "천일택배"@,
                    url: PAGE@ + tn,
                    tracking_number: tn,
                    is_delivered: has_text(html_text(body, DELIVERY@), "배송완료"@),
                    sender: Some(html_text(body, SENDER@)),
                    receiver: Some(html_text(body, RECEIVER@)),
                    product: Some(html_text(body, PRODUCT@)),
                    tracks: normalized(evs, false, false),
                },
            ),
        }
    }
}

impl Chunil {
    pub fn request(tracking_number: &str) -> (r: HttpRequest)
        ensures
            r@ == get_view(PAGE@ + tracking_number@, Seq::empty()),
    {
        get(join2(PAGE, tracking_number), no_headers())
    }

    pub fn row(row: &Vec<String>) -> (r: Option<Vec<TrackingStatus>>)
        ensures
            opt_events(r) == row_events(texts_view(row@)),
    {
        if row.len() != 4 {
            return None;
        }
        if contains_text(row[0].as_str(), "날짜") {
            return Some(Vec::new());
        }
        let day = join2(row[1].as_str(), " 00:00:00");
        let t = match read_time(day.as_str(), "%Y-%m-%d %H:%M:%S") {
            Some(t) => t,
            None => return None,
        };
        let state = Chunil::state_from(row[2].as_str());
        Some(single(TrackingStatus {
            time: t,
            status: Some(row[2].clone()),
            message: None,
            location: Some(row[3].clone()),
            live_tracking_url: None,
            state,
        }))
    }

    /// Reads a reply page.
    pub fn parse(tracking_number: &str, body: &str) -> (r: Result<DeliveryStatus, TrackingError>)
        ensures
            result_view(r) == parsed(tracking_number@, body@),
    {
        if contains_text(body, NOT_FOUND) {
            return Err(TrackingError::NotExistsTrackingNumber);
        }
        let cells = selectors3("td:nth-child(1)", "td:nth-child(4)", "td:nth-child(2)");
        let rows = select_rows(body, ROWS, &cells);
        let evs = match gather_html_rows(CourierType::Chunil, &rows) {
            Some(evs) => evs,
            None => return Err(unreadable_event()),
        };
        let delivered = select_text(body, DELIVERY);
        Ok(DeliveryStatus {
            id: Chunil::id().to_string(),
            name: Chunil::name().to_string(),
            url: join2(PAGE, tracking_number),
            tracking_number: tracking_number.to_string(),
            is_delivered: contains_text(delivered.as_str(), "배송완료"),
            sender: Some(select_text(body, SENDER)),
            receiver: Some(select_text(body, RECEIVER)),
            product: Some(select_text(body, PRODUCT)),
            tracks: normalize(evs, false, false),
        })
    }
}

} // verus!
