//! Hanjin Express.
use vstd::prelude::*;
use crate::state::StateType;
use crate::format::{is_numeric, numeric};
use crate::couriers::{CourierType, single, selectors4};
use crate::error::{ErrorView, TrackingError};
use crate::extract::{gather_html, gather_html_rows, opt_events, read_time, result_view, seoul, unreadable, unreadable_event};
use crate::markup::{html_rows, html_text, select_rows, select_text, texts_view};
use crate::status::{DeliveryStatus, EventView, InfoView, TrackingStatus, normalize, normalized};
use crate::text::{contains_text, has_text, join2, join3, replace_text, replaced, same_text};
use crate::transport::{HttpRequest, agent_header, agent_headers, get, get_view};

verus! {

/// Hanjin Express.
pub struct Hanjin;

/// The tracking-number format.
pub open spec fn valid(s: Seq<char>) -> bool {
    numeric(s, 12) || numeric(s, 14)
}

/// The classification of a status text.
pub open spec fn state_of(s: Seq<char>) -> StateType {
    if s == "접수"@ {
        StateType::InformationReceived
    } else if s == "입고"@ {
        StateType::AtPickup
    } else if s == "이동중"@ || s == "도착"@ || s == "배송준비중"@ {
        StateType::InTransit
    } else if s == "배송출발"@ {
        StateType::OutForDelivery
    } else if s == "배송완료"@ {
        StateType::Delivered
    } else {
        StateType::Unknown
    }
}

impl Hanjin {
    pub fn id() -> (r: &'static str)
        ensures
            r@ == "kr.hanjin"@,
    {
        "kr.hanjin"
    }

    pub fn name() -> (r: &'static str)
        ensures
            r@ == "한진택배"@,
    {
        "한진택배"
    }

    /// The expected format, as the error for a malformed number states it.
    pub fn hint() -> (r: &'static str)
        ensures
            r@ == "숫자 12자리 또는 숫자 14자리"@,
    {
        "숫자 12자리 또는 숫자 14자리"
    }

    /// Whether `tracking_number` has the courier's format.
    pub fn validate(tracking_number: &str) -> (r: bool)
        ensures
            r == valid(tracking_number@),
    {
        is_numeric(tracking_number, 12) || is_numeric(tracking_number, 14)
    }

    /// The lifecycle stage of one of the courier's status texts.
    pub fn state_from(status: &str) -> (r: StateType)
        ensures
            r == state_of(status@),
    {
        if same_text(status, "접수") {
            StateType::InformationReceived
        } else if same_text(status, "입고") {
            StateType::AtPickup
        } else if same_text(status, "이동중") || same_text(status, "도착") || same_text(status, "배송준비중") {
            StateType::InTransit
        } else if same_text(status, "배송출발") {
            StateType::OutForDelivery
        } else if same_text(status, "배송완료") {
            StateType::Delivered
        } else {
            StateType::Unknown
        }
    }
}

} // verus!

verus! {

pub const PAGE: &'static str = "https://www.hanjin.co.kr/kor/CMS/DeliveryMgr/WaybillResult.do?mCode=MN038&schLang=KR&wblnum=";
pub const NOT_FOUND: &'static str = "운송장이 등록되지 않았거나";
pub const ROWS: &'static str = "#delivery-wr > div > div.waybill-tbl > table > tbody > tr";
pub const NUMBER: &'static str = ".songjang-num > .num";
pub const DELIVERY: &'static str = "li.on > span.num";
pub const SENDER: &'static str = "td[data-label='보내는 분']";
pub const RECEIVER: &'static str = "td[data-label='받는 분']";
pub const PRODUCT: &'static str = "td[data-label='상품명']";

pub open spec fn cells() -> Seq<Seq<char>> {
    seq!["td.w-date"@, "td.w-time"@, ".stateDesc"@, "td.w-org"@]
}

/// The event of one table row.
pub open spec fn row_events(row: Seq<Seq<char>>) -> Option<Seq<EventView>> {
    if row.len() != 5 {
        None
    } else {
        match seoul(row[1] + " "@ + row[2], "%Y-%m-%d %H:%M"@) {
            None => None,
            Some(t) => Some(
                seq![
                    EventView {
                        time: t,
                        status: Some(replaced(row[3], "  "@, " "@)),
                        message: None,
                        location: Some(row[4]),
                        live_tracking_url: None,
                        state: state_of(replaced(row[3], "  "@, " "@)),
                    },
                ],
            ),
        }
    }
}

/// What a reply page says.
pub open spec fn parsed(tn: Seq<char>, body: Seq<char>) -> Result<InfoView, ErrorView> {
    if has_text(body, NOT_FOUND@) {
        Err(ErrorView::NotExistsTrackingNumber)
    } else {
        match gather_html(CourierType::Hanjin, html_rows(body, ROWS@, cells())) {
            None => Err(unreadable()),
            Some(evs) => Ok(
                InfoView {
                    id: "kr.hanjin"@,
                    name: "한진택배"@,
                    url: PAGE@ + tn,
                    tracking_number: html_text(body, NUMBER@),
                    is_delivered: has_text(html_text(body, DELIVERY@), "STEP6"@),
                    sender: Some(html_text(body, SENDER@)),
                    receiver: Some(html_text(body, RECEIVER@)),
                    product: Some(html_text(body, PRODUCT@)),
                    tracks: normalized(evs, false, false),
                },
            ),
        }
    }
}

impl Hanjin {
    pub fn request(tracking_number: &str) -> (r: HttpRequest)
        ensures
            r@ == get_view(PAGE@ + tracking_number@, agent_headers()),
    {
        get(join2(PAGE, tracking_number), agent_header())
    }

    pub fn row(row: &Vec<String>) -> (r: Option<Vec<TrackingStatus>>)
        ensures
            opt_events(r) == row_events(texts_view(row@)),
    {
        if row.len() != 5 {
            return None;
        }
        let when = join3(row[1].as_str(), " ", row[2].as_str());
        let t = match read_time(when.as_str(), "%Y-%m-%d %H:%M") {
            Some(t) => t,
            None => return None,
        };
        proof {
            reveal_strlit("  ");
        }
        let status = replace_text(row[3].as_str(), "  ", " ");
        let state = Hanjin::state_from(status.as_str());
        Some(single(TrackingStatus {
            time: t,
            status: Some(status),
            message: None,
            location: Some(row[4].clone()),
            live_tracking_url: None,
            state,
        }))
    }

    /// Reads a reply page.
    pub fn parse(tracking_number: &str, body: &str) -> (r: Result<DeliveryStatus, TrackingError>)
        ensures
            result_view(r) == parsed(tracking_number@, body@),
    {
        if contains_text(body, NOT_FOUND) {
            return Err(TrackingError::NotExistsTrackingNumber);
        }
        let cells = selectors4("td.w-date", "td.w-time", ".stateDesc", "td.w-org");
        let rows = select_rows(body, ROWS, &cells);
        let evs = match gather_html_rows(CourierType::Hanjin, &rows) {
            Some(evs) => evs,
            None => return Err(unreadable_event()),
        };
        let delivered = select_text(body, DELIVERY);
        Ok(DeliveryStatus {
            id: Hanjin::id().to_string(),
            name: Hanjin::name().to_string(),
            url: join2(PAGE, tracking_number),
            tracking_number: select_text(body, NUMBER),
            is_delivered: contains_text(delivered.as_str(), "STEP6"),
            sender: Some(select_text(body, SENDER)),
            receiver: Some(select_text(body, RECEIVER)),
            product: Some(select_text(body, PRODUCT)),
            tracks: normalize(evs, false, false),
        })
    }
}

} // verus!
