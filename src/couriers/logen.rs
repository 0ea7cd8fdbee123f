//! Logen.
use vstd::prelude::*;
use crate::state::StateType;
use crate::format::{is_numeric, numeric};
use crate::couriers::{CourierType, single, selectors5};
use crate::error::{ErrorView, TrackingError};
use crate::extract::{gather_html, gather_html_rows, opt_events, read_time, result_view, seoul, unreadable, unreadable_event};
use crate::markup::{html_rows, html_text, select_rows, select_text, texts_view};
use crate::status::{DeliveryStatus, EventView, InfoView, TrackingStatus, normalize, normalized};
use crate::text::{contains_text, has_text, join2, join3, same_text, trim_text, trimmed};
use crate::transport::{HttpRequest, get, get_view, no_headers};

verus! {

/// Logen.
pub struct Logen;

/// The tracking-number format.
pub open spec fn valid(s: Seq<char>) -> bool {
    numeric(s, 11)
}

/// The classification of a status text.
pub open spec fn state_of(s: Seq<char>) -> StateType {
    if s == "집하완료"@ {
        StateType::AtPickup
    } else if s == "터미널입고"@ || s == "터미널출고"@ || s == "배송입고"@ {
        StateType::InTransit
    } else if s == "배송출고"@ {
        StateType::OutForDelivery
    } else if s == "배송완료"@ {
        StateType::Delivered
    } else {
        StateType::Unknown
    }
}

impl Logen {
    pub fn id() -> (r: &'static str)
        ensures
            r@ == "kr.logen"@,
    {
        "kr.logen"
    }

    pub fn name() -> (r: &'static str)
        ensures
            r@ == "로젠택배"@,
    {
        "로젠택배"
    }

    /// The expected format, as the error for a malformed number states it.
    pub fn hint() -> (r: &'static str)
        ensures
            r@ == "숫자 11자리"@,
    {
        "숫자 11자리"
    }

    /// Whether `tracking_number` has the courier's format.
    pub fn validate(tracking_number: &str) -> (r: bool)
        ensures
            r == valid(tracking_number@),
    {
        is_numeric(tracking_number, 11)
    }

    /// The lifecycle stage of one of the courier's status texts.
    pub fn state_from(status: &str) -> (r: StateType)
        ensures
            r == state_of(status@),
    {
        if same_text(status, "집하완료") {
            StateType::AtPickup
        } else if same_text(status, "터미널입고") || same_text(status, "터미널출고") || same_text(status, "배송입고") {
            StateType::InTransit
        } else if same_text(status, "배송출고") {
            StateType::OutForDelivery
        } else if same_text(status, "배송완료") {
            StateType::Delivered
        } else {
            StateType::Unknown
        }
    }
}

} // verus!

verus! {

pub const PAGE: &'static str = "https://www.ilogen.com/web/personal/trace/";
pub const NOT_FOUND: &'static str = "배송자료를 조회할 수 없습니다";
pub const ROWS: &'static str = "table.data.tkInfo > tbody > tr";
pub const DELIVERY: &'static str = "li.on";
pub const SENDER: &'static str = "table.horizon.pdInfo > tbody > tr:nth-child(4) > td:nth-child(2)";
pub const RECEIVER: &'static str = "table.horizon.pdInfo > tbody > tr:nth-child(4) > td:nth-child(4)";
pub const PRODUCT: &'static str = "table.horizon.pdInfo > tbody > tr:nth-child(1) > td:nth-child(4)";

pub open spec fn cells() -> Seq<Seq<char>> {
    seq!["td:nth-child(1)"@, "td:nth-child(2)"@, "td:nth-child(3)"@, "td:nth-child(4)"@, "td:nth-child(6)"@]
}

/// The message of a row; a departure for delivery names the expected deliverer.
pub open spec fn message_text(row: Seq<Seq<char>>) -> Seq<char> {
    trimmed(row[4]) + if trimmed(row[3]) == "배송출고"@ {
        " ("@ + trimmed(row[5]) + " 배달예정)"@
    } else {
        Seq::<char>::empty()
    }
}

/// The event of one table row.
pub open spec fn row_events(row: Seq<Seq<char>>) -> Option<Seq<EventView>> {
    if row.len() != 6 {
        None
    } else {
        match seoul(row[1], "%Y.%m.%d %H:%M"@) {
            None => None,
            Some(t) => Some(
                seq![
                    EventView {
                        time: t,
                        status: Some(trimmed(row[3])),
                        message: Some(message_text(row)),
                        location: Some(row[2]),
                        live_tracking_url: None,
                        state: state_of(trimmed(row[3])),
                    },
                ],
            ),
        }
    }
}

/// What a reply page says.
pub open spec fn parsed(tn: Seq<char>, body: Seq<char>) -> Result<InfoView, ErrorView> {
    if has_text(body, NOT_FOUND@) {
        Err(ErrorView::NotExistsTrackingNumber)
    } else {
        match gather_html(CourierType::Logen, html_rows(body, ROWS@, cells())) {
            None => Err(unreadable()),
            Some(evs) => Ok(
                InfoView {
                    id: "kr.logen"@,
                    name: "로젠택배"@,
                    url: PAGE@ + tn,
                    tracking_number: tn,
                    is_delivered: has_text(html_text(body, DELIVERY@), "배송완료"@),
                    sender: Some(html_text(body, SENDER@)),
                    receiver: Some(html_text(body, RECEIVER@)),
                    product: Some(html_text(body, PRODUCT@)),
                    tracks: normalized(evs, false, false),
                },
            ),
        }
    }
}

impl Logen {
    pub fn request(tracking_number: &str) -> (r: HttpRequest)
        ensures
            r@ == get_view(PAGE@ + tracking_number@, Seq::empty()),
    {
        get(join2(PAGE, tracking_number), no_headers())
    }

    pub fn row(row: &Vec<String>) -> (r: Option<Vec<TrackingStatus>>)
        ensures
            opt_events(r) == row_events(texts_view(row@)),
    {
        if row.len() != 6 {
            return None;
        }
        let t = match read_time(row[1].as_str(), "%Y.%m.%d %H:%M") {
            Some(t) => t,
            None => return None,
        };
        let status = trim_text(row[3].as_str());
        let text = trim_text(row[4].as_str());
        let message = if same_text(status.as_str(), "배송출고") {
            let who = trim_text(row[5].as_str());
            let extra = join3(" (", who.as_str(), " 배달예정)");
            join2(text.as_str(), extra.as_str())
        } else {
            text
        };
        let state = Logen::state_from(status.as_str());
        Some(single(TrackingStatus {
            time: t,
            status: Some(status),
            message: Some(message),
            location: Some(row[2].clone()),
            live_tracking_url: None,
            state,
        }))
    }

    /// Reads a reply page.
    pub fn parse(tracking_number: &str, body: &str) -> (r: Result<DeliveryStatus, TrackingError>)
        ensures
            result_view(r) == parsed(tracking_number@, body@),
    {
        if contains_text(body, NOT_FOUND) {
            return Err(TrackingError::NotExistsTrackingNumber);
        }
        let cells = selectors5("td:nth-child(1)", "td:nth-child(2)", "td:nth-child(3)", "td:nth-child(4)", "td:nth-child(6)");
        let rows = select_rows(body, ROWS, &cells);
        let evs = match gather_html_rows(CourierType::Logen, &rows) {
            Some(evs) => evs,
            None => return Err(unreadable_event()),
        };
        let delivered = select_text(body, DELIVERY);
        Ok(DeliveryStatus {
            id: Logen::id().to_string(),
            name: Logen::name().to_string(),
            url: join2(PAGE, tracking_number),
            tracking_number: tracking_number.to_string(),
            is_delivered: contains_text(delivered.as_str(), "배송완료"),
            sender: Some(select_text(body, SENDER)),
            receiver: Some(select_text(body, RECEIVER)),
            product: Some(select_text(body, PRODUCT)),
            tracks: normalize(evs, false, false),
        })
    }
}

} // verus!
