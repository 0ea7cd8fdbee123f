//! The CU convenience-store parcel service; parcels that CJ Logistics carries end to end are resolved there.
use vstd::prelude::*;
use crate::state::StateType;
use crate::format::{is_numeric, numeric};
use crate::couriers::{CourierType, single, selectors3};
use crate::error::{ErrorView, TrackingError};
use crate::extract::{opt_result_view, gather_html, gather_html_rows, missing, missing_field, opt_events, read_time, seoul, unreadable, unreadable_event};
use crate::markup::{html_attr, html_rows, html_text, select_attr, select_rows, select_text, texts_view};
use crate::status::{DeliveryStatus, EventView, InfoView, TrackingStatus, normalize, normalized};
use crate::text::{contains_text, has_text, trim_text, trimmed};
use crate::transport::{HttpRequest, agent_header, agent_headers, pair, post, post_view};

verus! {

/// The CU convenience-store parcel service.
pub struct Cupost;

/// The tracking-number format.
pub open spec fn valid(s: Seq<char>) -> bool {
    numeric(s, 10) || numeric(s, 11) || numeric(s, 12)
}

/// The classification of a status text.
pub open spec fn state_of(s: Seq<char>) -> StateType {
    if has_text(s, "점포접수"@) {
        StateType::AtPickup
    } else if has_text(s, "입고"@) || has_text(s, "출고"@) {
        StateType::InTransit
    } else if has_text(s, "도착"@) {
        StateType::OutForDelivery
    } else if has_text(s, "수령"@) {
        StateType::Delivered
    } else {
        StateType::Unknown
    }
}

impl Cupost {
    pub fn id() -> (r: &'static str)
        ensures
            r@ == "kr.cupost"@,
    {
        "kr.cupost"
    }

    pub fn name() -> (r: &'static str)
        ensures
            r@ == "CU 편의점택배"@,
    {
        "CU 편의점택배"
    }

    /// The expected format, as the error for a malformed number states it.
    pub fn hint() -> (r: &'static str)
        ensures
            r@ == "숫자 10자리 또는 11자리 또는 12자리"@,
    {
        "숫자 10자리 또는 11자리 또는 12자리"
    }

    /// Whether `tracking_number` has the courier's format.
    pub fn validate(tracking_number: &str) -> (r: bool)
        ensures
            r == valid(tracking_number@),
    {
        is_numeric(tracking_number, 10) || is_numeric(tracking_number, 11) || is_numeric(tracking_number, 12)
    }

    /// The lifecycle stage of one of the courier's status texts.
    pub fn state_from(status: &str) -> (r: StateType)
        ensures
            r == state_of(status@),
    {
        if contains_text(status, "점포접수") {
            StateType::AtPickup
        } else if contains_text(status, "입고") || contains_text(status, "출고") {
            StateType::InTransit
        } else if contains_text(status, "도착") {
            StateType::OutForDelivery
        } else if contains_text(status, "수령") {
            StateType::Delivered
        } else {
            StateType::Unknown
        }
    }
}

} // verus!

verus! {

pub const ENDPOINT: &'static str = "https://www.cupost.co.kr/postbox/delivery/localResult.cupost";
pub const HOME: &'static str = "https://www.cupost.co.kr/postbox/delivery/local.cupost";
/// The mark of a page that hands the parcel over to CJ Logistics.
pub const HANDED_OVER: &'static str = "<iframe";
pub const NOT_FOUND: &'static str = "조회하신 내용이 없습니다";
pub const ROWS: &'static str = "#gotoMainContents > table:nth-child(10) > tbody > tr";
pub const NUMBER: &'static str = "#gotoMainContents > table:nth-child(5) > tbody > tr:nth-child(1) > td:nth-child(2)";
pub const PRODUCT: &'static str = "#gotoMainContents > table:nth-child(5) > tbody > tr:nth-child(1) > td:nth-child(4)";
pub const SENDER: &'static str = "#gotoMainContents > table:nth-child(5) > tbody > tr:nth-child(3) > td:nth-child(2)";
pub const RECEIVER: &'static str = "#gotoMainContents > table:nth-child(5) > tbody > tr:nth-child(3) > td:nth-child(4)";
pub const STEP: &'static str = "#local_result > tbody > tr:nth-child(1) > td:nth-child(9) > img";

pub open spec fn cells() -> Seq<Seq<char>> {
    seq!["td:nth-child(1)"@, "td:nth-child(3)"@, "td:nth-child(2)"@]
}

/// The event of one table row.
pub open spec fn row_events(row: Seq<Seq<char>>) -> Option<Seq<EventView>> {
    if row.len() != 4 {
        None
    } else {
        match seoul(trimmed(row[1]), "%Y.%m.%d %H:%M"@) {
            None => None,
            Some(t) => Some(
                seq![
                    EventView {
                        time: t,
                        status: Some(trimmed(row[2])),
                        message: None,
                        location: Some(trimmed(row[3])),
                        live_tracking_url: None,
                        state: state_of(trimmed(row[2])),
                    },
                ],
            ),
        }
    }
}

/// What a reply page says; `None` where the parcel was handed over to CJ Logistics.
pub open spec fn parsed(body: Seq<char>) -> Option<Result<InfoView, ErrorView>> {
    if has_text(body, HANDED_OVER@) {
        None
    } else if has_text(body, NOT_FOUND@) {
        Some(Err(ErrorView::NotExistsTrackingNumber))
    } else {
        Some(
            match (
                gather_html(CourierType::Cupost, html_rows(body, ROWS@, cells())),
                html_attr(body, STEP@, "src"@),
            ) {
                (None, _) => Err(unreadable()),
                (Some(_), None) => Err(missing()),
                (Some(evs), Some(step)) => Ok(
                    InfoView {
                        id: "kr.cupost"@,
                        name: "CU 편의점택배"@,
                        url: HOME@,
                        tracking_number: html_text(body, NUMBER@),
                        is_delivered: has_text(step, "step5_on"@),
                        sender: Some(trimmed(html_text(body, SENDER@))),
                        receiver: Some(trimmed(html_text(body, RECEIVER@))),
                        product: Some(html_text(body, PRODUCT@)),
                        tracks: normalized(evs, false, false),
                    },
                ),
            },
        )
    }
}

impl Cupost {
    pub fn request(tracking_number: &str) -> (r: HttpRequest)
        ensures
            r@ == post_view(ENDPOINT@, agent_headers(), seq![("invoice_no"@, tracking_number@)]),
    {
        post(ENDPOINT.to_string(), agent_header(), pair("invoice_no", tracking_number))
    }

    pub fn row(row: &Vec<String>) -> (r: Option<Vec<TrackingStatus>>)
        ensures
            opt_events(r) == row_events(texts_view(row@)),
    {
        if row.len() != 4 {
            return None;
        }
        let when = trim_text(row[1].as_str());
        let t = match read_time(when.as_str(), "%Y.%m.%d %H:%M") {
            Some(t) => t,
            None => return None,
        };
        let status = trim_text(row[2].as_str());
        let state = Cupost::state_from(status.as_str());
        Some(single(TrackingStatus {
            time: t,
            status: Some(status),
            message: None,
            location: Some(trim_text(row[3].as_str())),
            live_tracking_url: None,
            state,
        }))
    }

    /// Reads a reply page; `None` where the parcel was handed over to CJ Logistics.
    pub fn parse(body: &str) -> (r: Option<Result<DeliveryStatus, TrackingError>>)
        ensures
            opt_result_view(r) == parsed(body@),
    {
        if contains_text(body, HANDED_OVER) {
            return None;
        }
        if contains_text(body, NOT_FOUND) {
            return Some(Err(TrackingError::NotExistsTrackingNumber));
        }
        let cells = selectors3("td:nth-child(1)", "td:nth-child(3)", "td:nth-child(2)");
        let rows = select_rows(body, ROWS, &cells);
        let evs = match gather_html_rows(CourierType::Cupost, &rows) {
            Some(evs) => evs,
            None => return Some(Err(unreadable_event())),
        };
        let step = match select_attr(body, STEP, "src") {
            Some(s) => s,
            None => return Some(Err(missing_field())),
        };
        let sender = select_text(body, SENDER);
        let receiver = select_text(body, RECEIVER);
        Some(Ok(DeliveryStatus {
            id: Cupost::id().to_string(),
            name: Cupost::name().to_string(),
            url: HOME.to_string(),
            tracking_number: select_text(body, NUMBER),
            is_delivered: contains_text(step.as_str(), "step5_on"),
            sender: Some(trim_text(sender.as_str())),
            receiver: Some(trim_text(receiver.as_str())),
            product: Some(select_text(body, PRODUCT)),
            tracks: normalize(evs, false, false),
        }))
    }
}

} // verus!
