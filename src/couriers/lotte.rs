//! Lotte Global Logistics; lists its events newest first.
use vstd::prelude::*;
use crate::state::StateType;
use crate::format::{is_numeric, numeric};
use crate::couriers::{CourierType, single, selectors4};
use crate::error::{ErrorView, TrackingError};
use crate::extract::{gather_html, gather_html_rows, opt_events, read_time, result_view, seoul, unreadable, unreadable_event};
use crate::markup::{html_rows, html_text, select_rows, select_text, texts_view};
use crate::status::{DeliveryStatus, EventView, InfoView, TrackingStatus, normalize, normalized};
use crate::text::{contains_text, has_text, replace_text, replaced, same_text, trim_text, trimmed};
use crate::transport::{HttpRequest, agent_header, agent_headers, pair, post, post_view};

verus! {

/// Lotte Global Logistics.
pub struct Lotte;

/// The tracking-number format.
pub open spec fn valid(s: Seq<char>) -> bool {
    numeric(s, 10) || numeric(s, 12) || numeric(s, 13)
}

/// The classification of a status text.
pub open spec fn state_of(s: Seq<char>) -> StateType {
    if s == "상품접수"@ {
        StateType::AtPickup
    } else if s == "상품 이동중"@ {
        StateType::InTransit
    } else if s == "배송 출발"@ {
        StateType::OutForDelivery
    } else if s == "배달 완료"@ {
        StateType::Delivered
    } else {
        StateType::Unknown
    }
}

impl Lotte {
    pub fn id() -> (r: &'static str)
        ensures
            r@ == "kr.lotte"@,
    {
        "kr.lotte"
    }

    pub fn name() -> (r: &'static str)
        ensures
            r@ == "롯데택배"@,
    {
        "롯데택배"
    }

    /// The expected format, as the error for a malformed number states it.
    pub fn hint() -> (r: &'static str)
        ensures
            r@ == "숫자 10자리 또는 숫자 12자리 또는 숫자 13자리"@,
    {
        "숫자 10자리 또는 숫자 12자리 또는 숫자 13자리"
    }

    /// Whether `tracking_number` has the courier's format.
    pub fn validate(tracking_number: &str) -> (r: bool)
        ensures
            r == valid(tracking_number@),
    {
        is_numeric(tracking_number, 10) || is_numeric(tracking_number, 12) || is_numeric(tracking_number, 13)
    }

    /// The lifecycle stage of one of the courier's status texts.
    pub fn state_from(status: &str) -> (r: StateType)
        ensures
            r == state_of(status@),
    {
        if same_text(status, "상품접수") {
            StateType::AtPickup
        } else if same_text(status, "상품 이동중") {
            StateType::InTransit
        } else if same_text(status, "배송 출발") {
            StateType::OutForDelivery
        } else if same_text(status, "배달 완료") {
            StateType::Delivered
        } else {
            StateType::Unknown
        }
    }
}

} // verus!

verus! {

pub const ENDPOINT: &'static str = "https://www.lotteglogis.com/home/reservation/tracking/linkView";
pub const HOME: &'static str = "https://www.lotteglogis.com/home/main";
pub const NOT_FOUND: &'static str = "운송장이 등록되지 않았거나";
pub const ROWS: &'static str = "#contents > div > div.contArea > table:nth-child(4) > tbody > tr";
pub const NUMBER: &'static str = "#contents > div > div.contArea > table.tblH.mt60 > tbody > tr > td:nth-child(1)";
pub const SENDER: &'static str = "#contents > div > div.contArea > table.tblH.mt60 > tbody > tr > td:nth-child(2)";
pub const RECEIVER: &'static str = "#contents > div > div.contArea > table.tblH.mt60 > tbody > tr > td:nth-child(3)";
pub const DELIVERY: &'static str = "#contents > div > div.contArea > table.tblH.mt60 > tbody > tr > td:nth-child(4)";

pub open spec fn cells() -> Seq<Seq<char>> {
    seq!["td:nth-child(1)"@, "td:nth-child(2)"@, "td:nth-child(3)"@, "td:nth-child(4)"@]
}

pub open spec fn message_text(cell: Seq<char>) -> Seq<char> {
    replaced(replaced(cell, "  "@, " "@), ".("@, ". ("@)
}

/// The event of one table row; a row without a time gives none.
pub open spec fn row_events(row: Seq<Seq<char>>) -> Option<Seq<EventView>> {
    if row.len() != 5 {
        None
    } else if has_text(row[2], "--:--"@) {
        Some(Seq::empty())
    } else {
        match seoul(row[2], "%Y-%m-%d %H:%M"@) {
            None => None,
            Some(t) => Some(
                seq![
                    EventView {
                        time: t,
                        status: Some(row[1]),
                        message: Some(message_text(row[4])),
                        location: Some(trimmed(row[3])),
                        live_tracking_url: None,
                        state: state_of(row[1]),
                    },
                ],
            ),
        }
    }
}

/// What a reply page says; it lists the newest event first.
pub open spec fn parsed(tn: Seq<char>, body: Seq<char>) -> Result<InfoView, ErrorView> {
    if has_text(body, NOT_FOUND@) {
        Err(ErrorView::NotExistsTrackingNumber)
    } else {
        match gather_html(CourierType::Lotte, html_rows(body, ROWS@, cells())) {
            None => Err(unreadable()),
            Some(evs) => Ok(
                InfoView {
                    id: "kr.lotte"@,
                    name: "롯데택배"@,
                    url: HOME@,
                    tracking_number: html_text(body, NUMBER@),
                    is_delivered: has_text(html_text(body, DELIVERY@), "배달완료"@),
                    sender: Some(html_text(body, SENDER@)),
                    receiver: Some(html_text(body, RECEIVER@)),
                    product: None,
                    tracks: normalized(evs, true, false),
                },
            ),
        }
    }
}

impl Lotte {
    pub fn request(tracking_number: &str) -> (r: HttpRequest)
        ensures
            r@ == post_view(ENDPOINT@, agent_headers(), seq![("InvNo"@, tracking_number@)]),
    {
        post(ENDPOINT.to_string(), agent_header(), pair("InvNo", tracking_number))
    }

    pub fn row(row: &Vec<String>) -> (r: Option<Vec<TrackingStatus>>)
        ensures
            opt_events(r) == row_events(texts_view(row@)),
    {
        if row.len() != 5 {
            return None;
        }
        if contains_text(row[2].as_str(), "--:--") {
            return Some(Vec::new());
        }
        let t = match read_time(row[2].as_str(), "%Y-%m-%d %H:%M") {
            Some(t) => t,
            None => return None,
        };
        proof {
            reveal_strlit("  ");
            reveal_strlit(".(");
        }
        let message = replace_text(row[4].as_str(), "  ", " ");
        let message = replace_text(message.as_str(), ".(", ". (");
        let state = Lotte::state_from(row[1].as_str());
        Some(single(TrackingStatus {
            time: t,
            status: Some(row[1].clone()),
            message: Some(message),
            location: Some(trim_text(row[3].as_str())),
            live_tracking_url: None,
            state,
        }))
    }

    /// Reads a reply page.
    pub fn parse(tracking_number: &str, body: &str) -> (r: Result<DeliveryStatus, TrackingError>)
        ensures
            result_view(r) == parsed(tracking_number@, body@),
    {
        if contains_text(body, NOT_FOUND) {
            return Err(TrackingError::NotExistsTrackingNumber);
        }
        let cells = selectors4("td:nth-child(1)", "td:nth-child(2)", "td:nth-child(3)", "td:nth-child(4)");
        let rows = select_rows(body, ROWS, &cells);
        let evs = match gather_html_rows(CourierType::Lotte, &rows) {
            Some(evs) => evs,
            None => return Err(unreadable_event()),
        };
        let delivered = select_text(body, DELIVERY);
        Ok(DeliveryStatus {
            id: Lotte::id().to_string(),
            name: Lotte::name().to_string(),
            url: HOME.to_string(),
            tracking_number: select_text(body, NUMBER),
            is_delivered: contains_text(delivered.as_str(), "배달완료"),
            sender: Some(select_text(body, SENDER)),
            receiver: Some(select_text(body, RECEIVER)),
            product: None,
            tracks: normalize(evs, true, false),
        })
    }
}

} // verus!
