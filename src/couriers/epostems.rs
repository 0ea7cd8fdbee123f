//! Korea Post's international express mail service.
use vstd::prelude::*;
use crate::state::StateType;
use crate::format::{is_postal_item, postal_item_format};
use crate::couriers::{CourierType, single, selectors3};
use crate::error::{ErrorView, TrackingError};
use crate::extract::{gather_html, gather_html_rows, opt_events, read_time, result_view, seoul, unreadable, unreadable_event};
use crate::markup::{html_rows, html_text, select_rows, select_text, texts_view};
use crate::status::{DeliveryStatus, EventView, InfoView, TrackingStatus, normalize, normalized};
use crate::text::{contains_text, has_text, join2, same_text, trim_text, trimmed};
use crate::transport::{HttpRequest, get, get_view, no_headers};

verus! {

/// Korea Post's international express mail service.
pub struct EpostEMS;

/// The tracking-number format.
pub open spec fn valid(s: Seq<char>) -> bool {
    postal_item_format(s)
}

/// The classification of a status text.
pub open spec fn state_of(s: Seq<char>) -> StateType {
    if s == "접수"@ {
        StateType::InformationReceived
    } else if s == "인수완료"@ || s == "집하완료"@ {
        StateType::AtPickup
    } else if s == "발송"@ {
        StateType::InTransitSent
    } else if s == "도착"@ {
        StateType::InTransitReceived
    } else if has_text(s, "배달준비"@) {
        StateType::OutForDelivery
    } else if has_text(s, "배달완료"@) {
        StateType::Delivered
    } else {
        StateType::Unknown
    }
}

impl EpostEMS {
    pub fn id() -> (r: &'static str)
        ensures
            r@ == "kr.epostems"@,
    {
        "kr.epostems"
    }

    pub fn name() -> (r: &'static str)
        ensures
            r@ == "우체국 EMS"@,
    {
        "우체국 EMS"
    }

    /// The expected format, as the error for a malformed number states it.
    pub fn hint() -> (r: &'static str)
        ensures
            r@ == "영문 2자리, 숫자 9자리, 영문 2자리"@,
    {
        "영문 2자리, 숫자 9자리, 영문 2자리"
    }

    /// Whether `tracking_number` has the courier's format.
    pub fn validate(tracking_number: &str) -> (r: bool)
        ensures
            r == valid(tracking_number@),
    {
        is_postal_item(tracking_number)
    }

    /// The lifecycle stage of one of the courier's status texts.
    pub fn state_from(status: &str) -> (r: StateType)
        ensures
            r == state_of(status@),
    {
        if same_text(status, "접수") {
            StateType::InformationReceived
        } else if same_text(status, "인수완료") || same_text(status, "집하완료") {
            StateType::AtPickup
        } else if same_text(status, "발송") {
            StateType::InTransitSent
        } else if same_text(status, "도착") {
            StateType::InTransitReceived
        } else if contains_text(status, "배달준비") {
            StateType::OutForDelivery
        } else if contains_text(status, "배달완료") {
            StateType::Delivered
        } else {
            StateType::Unknown
        }
    }
}

} // verus!

verus! {

/// The page that lists a shipment's events.
pub open spec fn page(tn: Seq<char>) -> Seq<char> {
    "https://service.epost.go.kr/trace.RetrieveEmsRigiTraceList.comm?POST_CODE="@ + tn
}

pub open spec fn cells() -> Seq<Seq<char>> {
    seq!["td:nth-child(1)"@, "td:nth-child(2)"@, "td:nth-child(3)"@]
}

/// The event of one table row: its time, status and location.
pub open spec fn row_events(row: Seq<Seq<char>>) -> Option<Seq<EventView>> {
    if row.len() != 4 {
        None
    } else {
        match seoul(row[1], "%Y.%m.%d %H:%M"@) {
            None => None,
            Some(t) => Some(
                seq![
                    EventView {
                        time: t,
                        status: Some(trimmed(row[2])),
                        message: None,
                        location: Some(trimmed(row[3])),
                        live_tracking_url: None,
                        state: state_of(trimmed(row[2])),
                    },
                ],
            ),
        }
    }
}

/// What a reply page says.
pub open spec fn parsed(tn: Seq<char>, body: Seq<char>) -> Result<InfoView, ErrorView> {
    if has_text(body, "배달정보를 찾지 못했습니다"@) {
        Err(ErrorView::NotExistsTrackingNumber)
    } else {
        match gather_html(
            CourierType::EpostEMS,
            html_rows(body, "#print > table.table_col.detail_off.ma_t_5 > tbody > tr"@, cells()),
        ) {
            None => Err(unreadable()),
            Some(evs) => Ok(
                InfoView {
                    id: "kr.epostems"@,
                    name: "우체국 EMS"@,
                    url: page(tn),
                    tracking_number: html_text(body, "#print > table > tbody > tr > th"@),
                    is_delivered: has_text(
                        html_text(body, "#print > table > tbody > tr > td:nth-child(5)"@),
                        "배달완료"@,
                    ),
                    sender: None,
                    receiver: None,
                    product: None,
                    tracks: normalized(evs, false, false),
                },
            ),
        }
    }
}

impl EpostEMS {
    pub fn request(tracking_number: &str) -> (r: HttpRequest)
        ensures
            r@ == get_view(page(tracking_number@), Seq::empty()),
    {
        let url = join2("https://service.epost.go.kr/trace.RetrieveEmsRigiTraceList.comm?POST_CODE=", tracking_number);
        get(url, no_headers())
    }

    pub fn row(row: &Vec<String>) -> (r: Option<Vec<TrackingStatus>>)
        ensures
            opt_events(r) == row_events(texts_view(row@)),
    {
        if row.len() != 4 {
            return None;
        }
        let t = match read_time(row[1].as_str(), "%Y.%m.%d %H:%M") {
            Some(t) => t,
            None => return None,
        };
        let status = trim_text(row[2].as_str());
        let state = EpostEMS::state_from(status.as_str());
        let e = TrackingStatus {
            time: t,
            status: Some(status),
            message: None,
            location: Some(trim_text(row[3].as_str())),
            live_tracking_url: None,
            state,
        };
        Some(single(e))
    }

    /// Reads a reply page.
    pub fn parse(tracking_number: &str, body: &str) -> (r: Result<DeliveryStatus, TrackingError>)
        ensures
            result_view(r) == parsed(tracking_number@, body@),
    {
        if contains_text(body, "배달정보를 찾지 못했습니다") {
            return Err(TrackingError::NotExistsTrackingNumber);
        }
        let cells = selectors3("td:nth-child(1)", "td:nth-child(2)", "td:nth-child(3)");
        let rows = select_rows(body, "#print > table.table_col.detail_off.ma_t_5 > tbody > tr", &cells);
        let evs = match gather_html_rows(CourierType::EpostEMS, &rows) {
            Some(evs) => evs,
            None => return Err(unreadable_event()),
        };
        let delivered = select_text(body, "#print > table > tbody > tr > td:nth-child(5)");
        Ok(DeliveryStatus {
            id: EpostEMS::id().to_string(),
            name: EpostEMS::name().to_string(),
            url: join2("https://service.epost.go.kr/trace.RetrieveEmsRigiTraceList.comm?POST_CODE=", tracking_number),
            tracking_number: select_text(body, "#print > table > tbody > tr > th"),
            is_delivered: contains_text(delivered.as_str(), "배달완료"),
            sender: None,
            receiver: None,
            product: None,
            tracks: normalize(evs, false, false),
        })
    }
}

} // verus!
