//! Korea Post's domestic parcel service.
use vstd::prelude::*;
use crate::state::StateType;
use crate::format::{is_numeric, numeric};
use crate::couriers::{CourierType, single, selectors4};
use crate::error::{ErrorView, TrackingError};
use crate::extract::{gather_html, gather_html_rows, missing, missing_field, opt_events, read_time, result_view, seoul, unreadable, unreadable_event};
use crate::markup::{html_markup, html_rows, html_text, select_markup, select_rows, select_text, texts_view};
use crate::status::{DeliveryStatus, EventView, InfoView, TrackingStatus, normalize, normalized};
use crate::text::{contains_text, has_text, join2, join3, replace_text, replaced, same_text, split_at_first, split_first, trim_text, trimmed, collapse_from};
use crate::pattern::{collapse_spaces, capture_first_cell, first_cell_capture};
use crate::transport::{HttpRequest, get, get_view, no_headers};

verus! {

/// Korea Post's domestic parcel service.
pub struct Epost;

/// The tracking-number format.
pub open spec fn valid(s: Seq<char>) -> bool {
    numeric(s, 13)
}

/// The classification of a status text.
pub open spec fn state_of(s: Seq<char>) -> StateType {
    if s == "접수"@ {
        StateType::InformationReceived
    } else if s == "인수완료"@ || s == "집하완료"@ {
        StateType::AtPickup
    } else if s == "발송"@ {
        StateType::InTransitSent
    } else if s == "도착"@ {
        StateType::InTransitReceived
    } else if has_text(s, "배달준비"@) {
        StateType::OutForDelivery
    } else if has_text(s, "배달완료"@) {
        StateType::Delivered
    } else {
        StateType::Unknown
    }
}

impl Epost {
    pub fn id() -> (r: &'static str)
        ensures
            r@ == "kr.epost"@,
    {
        "kr.epost"
    }

    pub fn name() -> (r: &'static str)
        ensures
            r@ == "우체국택배"@,
    {
        "우체국택배"
    }

    /// The expected format, as the error for a malformed number states it.
    pub fn hint() -> (r: &'static str)
        ensures
            r@ == "숫자 13자리"@,
    {
        "숫자 13자리"
    }

    /// Whether `tracking_number` has the courier's format.
    pub fn validate(tracking_number: &str) -> (r: bool)
        ensures
            r == valid(tracking_number@),
    {
        is_numeric(tracking_number, 13)
    }

    /// The lifecycle stage of one of the courier's status texts.
    pub fn state_from(status: &str) -> (r: StateType)
        ensures
            r == state_of(status@),
    {
        if same_text(status, "접수") {
            StateType::InformationReceived
        } else if same_text(status, "인수완료") || same_text(status, "집하완료") {
            StateType::AtPickup
        } else if same_text(status, "발송") {
            StateType::InTransitSent
        } else if same_text(status, "도착") {
            StateType::InTransitReceived
        } else if contains_text(status, "배달준비") {
            StateType::OutForDelivery
        } else if contains_text(status, "배달완료") {
            StateType::Delivered
        } else {
            StateType::Unknown
        }
    }
}

} // verus!

verus! {

pub const PAGE: &'static str = "https://service.epost.go.kr/trace.RetrieveDomRigiTraceList.comm?sid1=";
pub const NOT_FOUND: &'static str = "배달정보를 찾지 못했습니다";
pub const ROWS: &'static str = "#processTable > tbody > tr";
pub const NUMBER: &'static str = "#print > table > tbody > tr > th";
pub const SENDER: &'static str = "#print > table > tbody > tr > td:nth-child(2)";
pub const RECEIVER: &'static str = "#print > table > tbody > tr > td:nth-child(3)";
pub const DELIVERY: &'static str = "#print > table > tbody > tr > td:nth-child(6)";

pub open spec fn cells() -> Seq<Seq<char>> {
    seq!["td:nth-child(1)"@, "td:nth-child(2)"@, "td:nth-child(3)"@, "td:nth-child(4)"@]
}

/// The status cell on one line, without what follows ` (`.
pub open spec fn status_text(cell: Seq<char>) -> Seq<char> {
    let one_line = collapse_from(
        replaced(replaced(trimmed(cell), "\n"@, ""@), "\t"@, ""@),
        false,
        false,
    );
    match split_at_first(trimmed(one_line), " ("@) {
        Some((head, _)) => head,
        None => one_line,
    }
}

/// The first line of the location cell.
pub open spec fn location_text(cell: Seq<char>) -> Seq<char> {
    match split_at_first(trimmed(cell), "\n"@) {
        Some((head, _)) => head,
        None => trimmed(cell),
    }
}

/// The event of one table row.
pub open spec fn row_events(row: Seq<Seq<char>>) -> Option<Seq<EventView>> {
    if row.len() != 5 {
        None
    } else {
        match seoul(row[1] + " "@ + row[2], "%Y.%m.%d %H:%M"@) {
            None => None,
            Some(t) => Some(
                seq![
                    EventView {
                        time: t,
                        status: Some(status_text(row[4])),
                        message: None,
                        location: Some(location_text(row[3])),
                        live_tracking_url: None,
                        state: state_of(status_text(row[4])),
                    },
                ],
            ),
        }
    }
}

/// What a reply page says. Events of the same time are ordered by stage.
pub open spec fn parsed(tn: Seq<char>, body: Seq<char>) -> Result<InfoView, ErrorView> {
    if has_text(body, NOT_FOUND@) {
        Err(ErrorView::NotExistsTrackingNumber)
    } else {
        match gather_html(CourierType::Epost, html_rows(body, ROWS@, cells())) {
            None => Err(unreadable()),
            Some(evs) => match first_cell_capture(html_markup(body, SENDER@)) {
                None => Err(missing()),
                Some(sender) => Ok(
                    InfoView {
                        id: "kr.epost"@,
                        name: "우체국택배"@,
                        url: PAGE@ + tn,
                        tracking_number: html_text(body, NUMBER@),
                        is_delivered: has_text(html_text(body, DELIVERY@), "배달완료"@),
                        sender: Some(sender),
                        receiver: Some(trimmed(html_text(body, RECEIVER@))),
                        product: None,
                        tracks: normalized(evs, false, true),
                    },
                ),
            },
        }
    }
}

impl Epost {
    pub fn request(tracking_number: &str) -> (r: HttpRequest)
        ensures
            r@ == get_view(PAGE@ + tracking_number@, Seq::empty()),
    {
        get(join2(PAGE, tracking_number), no_headers())
    }

    fn status_of(cell: &str) -> (r: String)
        ensures
            r@ == status_text(cell@),
    {
        let t = trim_text(cell);
        proof {
            reveal_strlit("\n");
        }
        let t = replace_text(t.as_str(), "\n", "");
        proof {
            reveal_strlit("\t");
        }
        let t = replace_text(t.as_str(), "\t", "");
        let one_line = collapse_spaces(t.as_str());
        let trimmed_line = trim_text(one_line.as_str());
        match split_first(trimmed_line.as_str(), " (") {
            Some((head, _)) => head,
            None => one_line,
        }
    }

    fn location_of(cell: &str) -> (r: String)
        ensures
            r@ == location_text(cell@),
    {
        let t = trim_text(cell);
        match split_first(t.as_str(), "\n") {
            Some((head, _)) => head,
            None => t,
        }
    }

    pub fn row(row: &Vec<String>) -> (r: Option<Vec<TrackingStatus>>)
        ensures
            opt_events(r) == row_events(texts_view(row@)),
    {
        if row.len() != 5 {
            return None;
        }
        let when = join3(row[1].as_str(), " ", row[2].as_str());
        let t = match read_time(when.as_str(), "%Y.%m.%d %H:%M") {
            Some(t) => t,
            None => return None,
        };
        let status = Epost::status_of(row[4].as_str());
        let state = Epost::state_from(status.as_str());
        Some(single(TrackingStatus {
            time: t,
            status: Some(status),
            message: None,
            location: Some(Epost::location_of(row[3].as_str())),
            live_tracking_url: None,
            state,
        }))
    }

    /// Reads a reply page.
    pub fn parse(tracking_number: &str, body: &str) -> (r: Result<DeliveryStatus, TrackingError>)
        ensures
            result_view(r) == parsed(tracking_number@, body@),
    {
        if contains_text(body, NOT_FOUND) {
            return Err(TrackingError::NotExistsTrackingNumber);
        }
        let cells = selectors4("td:nth-child(1)", "td:nth-child(2)", "td:nth-child(3)", "td:nth-child(4)");
        let rows = select_rows(body, ROWS, &cells);
        let evs = match gather_html_rows(CourierType::Epost, &rows) {
            Some(evs) => evs,
            None => return Err(unreadable_event()),
        };
        let sender_cell = select_markup(body, SENDER);
        let sender = match capture_first_cell(sender_cell.as_str()) {
            Some(s) => s,
            None => return Err(missing_field()),
        };
        let delivered = select_text(body, DELIVERY);
        let receiver = select_text(body, RECEIVER);
        Ok(DeliveryStatus {
            id: Epost::id().to_string(),
            name: Epost::name().to_string(),
            url: join2(PAGE, tracking_number),
            tracking_number: select_text(body, NUMBER),
            is_delivered: contains_text(delivered.as_str(), "배달완료"),
            sender: Some(sender),
            receiver: Some(trim_text(receiver.as_str())),
            product: None,
            tracks: normalize(evs, false, true),
        })
    }
}

} // verus!
