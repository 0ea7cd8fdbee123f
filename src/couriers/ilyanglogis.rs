//! Ilyang Logis.
use vstd::prelude::*;
use crate::state::StateType;
use crate::format::{is_numeric, numeric};
use crate::couriers::{CourierType, single, selectors4};
use crate::error::{ErrorView, TrackingError};
use crate::extract::{gather_html, gather_html_rows, opt_events, read_time, result_view, seoul, unreadable, unreadable_event};
use crate::markup::{html_rows, html_text, select_rows, select_text, texts_view};
use crate::status::{DeliveryStatus, EventView, InfoView, TrackingStatus, normalize, normalized};
use crate::text::{contains_text, has_text, join2, join3, trim_text, trimmed};
use crate::transport::{HttpRequest, get, get_view, no_headers};

verus! {

/// Ilyang Logis.
pub struct IlyangLogis;

/// The tracking-number format.
pub open spec fn valid(s: Seq<char>) -> bool {
    numeric(s, 10)
}

/// The classification of a status text.
pub open spec fn state_of(s: Seq<char>) -> StateType {
    if has_text(s, "배송완료"@) {
        StateType::Delivered
    } else {
        StateType::Unknown
    }
}

impl IlyangLogis {
    pub fn id() -> (r: &'static str)
        ensures
            r@ == "kr.ilyanglogis"@,
    {
        "kr.ilyanglogis"
    }

    pub fn name() -> (r: &'static str)
        ensures
            r@ == "일양로지스"@,
    {
        "일양로지스"
    }

    /// The expected format, as the error for a malformed number states it.
    pub fn hint() -> (r: &'static str)
        ensures
            r@ == "숫자 10자리"@,
    {
        "숫자 10자리"
    }

    /// Whether `tracking_number` has the courier's format.
    pub fn validate(tracking_number: &str) -> (r: bool)
        ensures
            r == valid(tracking_number@),
    {
        is_numeric(tracking_number, 10)
    }

    /// The lifecycle stage of one of the courier's status texts.
    pub fn state_from(status: &str) -> (r: StateType)
        ensures
            r == state_of(status@),
    {
        if contains_text(status, "배송완료") {
            StateType::Delivered
        } else {
            StateType::Unknown
        }
    }
}

} // verus!

verus! {

pub const PAGE: &'static str = "https://www.ilyanglogis.com/functionality/tracking_result.asp?hawb_no=";
pub const NOT_FOUND: &'static str = "해당 자료가 없습니다";
pub const ROWS: &'static str = "#popContainer > div > table > tbody > tr";
pub const NUMBER: &'static str = "#popContainer > div > dl > dd:nth-child(2)";
pub const DELIVERY: &'static str = "#popContainer > div > dl > dd:nth-child(10) > strong";
pub const SENDER: &'static str = "#popContainer > div > dl > dd:nth-child(4)";
pub const RECEIVER: &'static str = "#popContainer > div > dl > dd:nth-child(6)";

pub open spec fn cells() -> Seq<Seq<char>> {
    seq!["td:nth-child(1)"@, "td:nth-child(2)"@, "td:nth-child(3)"@, "td:nth-child(4)"@]
}

/// The event of one table row.
pub open spec fn row_events(row: Seq<Seq<char>>) -> Option<Seq<EventView>> {
    if row.len() != 5 {
        None
    } else {
        match seoul(row[1] + " "@ + row[2], "%Y-%m-%d %H:%M"@) {
            None => None,
            Some(t) => Some(
                seq![
                    EventView {
                        time: t,
                        status: Some(row[3]),
                        message: None,
                        location: Some(row[4]),
                        live_tracking_url: None,
                        state: state_of(row[3]),
                    },
                ],
            ),
        }
    }
}

/// What a reply page says.
pub open spec fn parsed(tn: Seq<char>, body: Seq<char>) -> Result<InfoView, ErrorView> {
    if has_text(body, NOT_FOUND@) {
        Err(ErrorView::NotExistsTrackingNumber)
    } else {
        match gather_html(CourierType::IlyangLogis, html_rows(body, ROWS@, cells())) {
            None => Err(unreadable()),
            Some(evs) => Ok(
                InfoView {
                    id: "kr.ilyanglogis"@,
                    name: "일양로지스"@,
                    url: PAGE@ + tn,
                    tracking_number: html_text(body, NUMBER@),
                    is_delivered: has_text(html_text(body, DELIVERY@), "배송완료"@),
                    sender: Some(trimmed(html_text(body, SENDER@))),
                    receiver: Some(trimmed(html_text(body, RECEIVER@))),
                    product: None,
                    tracks: normalized(evs, false, false),
                },
            ),
        }
    }
}

impl IlyangLogis {
    pub fn request(tracking_number: &str) -> (r: HttpRequest)
        ensures
            r@ == get_view(PAGE@ + tracking_number@, Seq::empty()),
    {
        get(join2(PAGE, tracking_number), no_headers())
    }

    pub fn row(row: &Vec<String>) -> (r: Option<Vec<TrackingStatus>>)
        ensures
            opt_events(r) == row_events(texts_view(row@)),
    {
        if row.len() != 5 {
            return None;
        }
        let when = join3(row[1].as_str(), " ", row[2].as_str());
        let t = match read_time(when.as_str(), "%Y-%m-%d %H:%M") {
            Some(t) => t,
            None => return None,
        };
        let state = IlyangLogis::state_from(row[3].as_str());
        Some(single(TrackingStatus {
            time: t,
            status: Some(row[3].clone()),
            message: None,
            location: Some(row[4].clone()),
            live_tracking_url: None,
            state,
        }))
    }

    /// Reads a reply page.
    pub fn parse(tracking_number: &str, body: &str) -> (r: Result<DeliveryStatus, TrackingError>)
        ensures
            result_view(r) == parsed(tracking_number@, body@),
    {
        if contains_text(body, NOT_FOUND) {
            return Err(TrackingError::NotExistsTrackingNumber);
        }
        let cells = selectors4("td:nth-child(1)", "td:nth-child(2)", "td:nth-child(3)", "td:nth-child(4)");
        let rows = select_rows(body, ROWS, &cells);
        let evs = match gather_html_rows(CourierType::IlyangLogis, &rows) {
            Some(evs) => evs,
            None => return Err(unreadable_event()),
        };
        let delivered = select_text(body, DELIVERY);
        let sender = select_text(body, SENDER);
        let receiver = select_text(body, RECEIVER);
        Ok(DeliveryStatus {
            id: IlyangLogis::id().to_string(),
            name: IlyangLogis::name().to_string(),
            url: join2(PAGE, tracking_number),
            tracking_number: select_text(body, NUMBER),
            is_delivered: contains_text(delivered.as_str(), "배송완료"),
            sender: Some(trim_text(sender.as_str())),
            receiver: Some(trim_text(receiver.as_str())),
            product: None,
            tracks: normalize(evs, false, false),
        })
    }
}

} // verus!
