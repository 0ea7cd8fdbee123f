//! The GS25 convenience-store parcel service; parcels that CJ Logistics carries are resolved there.
use vstd::prelude::*;
use crate::state::StateType;
use crate::format::{is_numeric, numeric};
use crate::couriers::{CourierType, single, selectors3};
use crate::error::{ErrorView, TrackingError};
use crate::extract::{embedded, embedded_error, gather_json, gather_json_rows, malformed, missing, missing_field, opt_events, opt_result_view, read_time, seoul, unreadable, unreadable_event};
use crate::json::{json_parses, json_rows, json_str, opt_row_view, parses_as_json, rows_at, string_at};
use crate::pattern::{capture_tracking_info, tracking_info_capture};
use crate::status::{DeliveryStatus, EventView, InfoView, TrackingStatus, normalize, normalized};
use crate::text::{contains_text, has_text, join2, join3, replace_text, replaced, same_text};
use crate::transport::{HttpRequest, agent_header, agent_headers, get, get_view};

verus! {

/// The GS25 convenience-store parcel service.
pub struct Gspostbox;

/// The tracking-number format.
pub open spec fn valid(s: Seq<char>) -> bool {
    numeric(s, 10) || numeric(s, 12)
}

/// The classification of a status text.
pub open spec fn state_of(s: Seq<char>) -> StateType {
    if s == "점포접수"@ {
        StateType::InformationReceived
    } else if has_text(s, "인수"@) {
        StateType::AtPickup
    } else if has_text(s, "입고"@) || has_text(s, "인계"@) {
        StateType::InTransitReceived
    } else if has_text(s, "출고"@) {
        StateType::InTransitSent
    } else if s == "점포도착"@ {
        StateType::OutForDelivery
    } else if s == "고객전달"@ {
        StateType::Delivered
    } else {
        StateType::Unknown
    }
}

impl Gspostbox {
    pub fn id() -> (r: &'static str)
        ensures
            r@ == "kr.gspostbox"@,
    {
        "kr.gspostbox"
    }

    pub fn name() -> (r: &'static str)
        ensures
            r@ == "GS Postbox"@,
    {
        "GS Postbox"
    }

    /// The expected format, as the error for a malformed number states it.
    pub fn hint() -> (r: &'static str)
        ensures
            r@ == "숫자 10자리 또는 12자리"@,
    {
        "숫자 10자리 또는 12자리"
    }

    /// Whether `tracking_number` has the courier's format.
    pub fn validate(tracking_number: &str) -> (r: bool)
        ensures
            r == valid(tracking_number@),
    {
        is_numeric(tracking_number, 10) || is_numeric(tracking_number, 12)
    }

    /// The lifecycle stage of one of the courier's status texts.
    pub fn state_from(status: &str) -> (r: StateType)
        ensures
            r == state_of(status@),
    {
        if same_text(status, "점포접수") {
            StateType::InformationReceived
        } else if contains_text(status, "인수") {
            StateType::AtPickup
        } else if contains_text(status, "입고") || contains_text(status, "인계") {
            StateType::InTransitReceived
        } else if contains_text(status, "출고") {
            StateType::InTransitSent
        } else if same_text(status, "점포도착") {
            StateType::OutForDelivery
        } else if same_text(status, "고객전달") {
            StateType::Delivered
        } else {
            StateType::Unknown
        }
    }
}

} // verus!

verus! {

pub const PAGE: &'static str = "https://www.cvsnet.co.kr/invoice/tracking.do?invoice_no=";
pub const NOT_FOUND: &'static str = "해당 운송장의 배송정보를 조회할 수 없습니다";
/// The carrier name of a parcel that CJ Logistics carries.
pub const CJ: &'static str = "CJ대한통운";

pub open spec fn fields() -> Seq<Seq<char>> {
    seq!["/transTime"@, "/transKind"@, "/transWhere"@]
}

/// The event of one element of the event list.
pub open spec fn row_events(row: Seq<Option<Seq<char>>>) -> Option<Seq<EventView>> {
    if row.len() != 3 {
        None
    } else {
        match (row[0], row[1], row[2]) {
            (Some(time), Some(kind), Some(place)) => match seoul(time, "%Y-%m-%dT%H:%M:%S"@) {
                None => None,
                Some(t) => Some(
                    seq![
                        EventView {
                            time: t,
                            status: Some(replaced(kind, "  "@, " "@)),
                            message: None,
                            location: Some(place),
                            live_tracking_url: None,
                            state: state_of(replaced(kind, "  "@, " "@)),
                        },
                    ],
                ),
            },
            _ => None,
        }
    }
}

/// What the data embedded in a reply page says; `None` where CJ Logistics
/// carries the parcel. Events of the same time are ordered by stage.
pub open spec fn parsed(tn: Seq<char>, body: Seq<char>) -> Option<Result<InfoView, ErrorView>> {
    if has_text(body, NOT_FOUND@) {
        Some(Err(ErrorView::NotExistsTrackingNumber))
    } else {
        match tracking_info_capture(body) {
            None => Some(Err(missing())),
            Some(data) => if !json_parses(data) {
                Some(Err(embedded()))
            } else if json_str(data, "/carrierName"@) == Some(CJ@) {
                None
            } else {
                Some(
                    match json_rows(data, "/trackingDetails"@, fields()) {
                        None => Err(missing()),
                        Some(rows) => match gather_json(CourierType::Gspostbox, ""@, rows) {
                            None => Err(unreadable()),
                            Some(evs) => match (
                                json_str(data, "/serviceName"@),
                                json_str(data, "/invoiceNo"@),
                                json_str(data, "/sender/name"@),
                                json_str(data, "/receiver/name"@),
                                json_str(data, "/goodsName"@),
                            ) {
                                (
                                    Some(service),
                                    Some(number),
                                    Some(sender),
                                    Some(receiver),
                                    Some(product),
                                ) => Ok(
                                    InfoView {
                                        id: "kr.gspostbox"@,
                                        name: "GS Postbox"@ + " "@ + service,
                                        url: PAGE@ + tn,
                                        tracking_number: number,
                                        is_delivered: json_str(data, "/latestTrackingDetail/transKind"@)
                                            == Some("고객전달"@),
                                        sender: Some(sender),
                                        receiver: Some(receiver),
                                        product: Some(product),
                                        tracks: normalized(evs, false, true),
                                    },
                                ),
                                _ => Err(missing()),
                            },
                        },
                    },
                )
            },
        }
    }
}

impl Gspostbox {
    pub fn request(tracking_number: &str) -> (r: HttpRequest)
        ensures
            r@ == get_view(PAGE@ + tracking_number@, agent_headers()),
    {
        get(join2(PAGE, tracking_number), agent_header())
    }

    pub fn row(row: &Vec<Option<String>>) -> (r: Option<Vec<TrackingStatus>>)
        ensures
            opt_events(r) == row_events(opt_row_view(row@)),
    {
        if row.len() != 3 {
            return None;
        }
        let (time, kind, place) = match (&row[0], &row[1], &row[2]) {
            (Some(a), Some(b), Some(c)) => (a, b, c),
            _ => return None,
        };
        let t = match read_time(time.as_str(), "%Y-%m-%dT%H:%M:%S") {
            Some(t) => t,
            None => return None,
        };
        proof {
            reveal_strlit("  ");
        }
        let status = replace_text(kind.as_str(), "  ", " ");
        let state = Gspostbox::state_from(status.as_str());
        Some(single(TrackingStatus {
            time: t,
            status: Some(status),
            message: None,
            location: Some(place.clone()),
            live_tracking_url: None,
            state,
        }))
    }

    /// Reads a reply page; `None` where CJ Logistics carries the parcel.
    pub fn parse(tracking_number: &str, body: &str) -> (r: Option<Result<DeliveryStatus, TrackingError>>)
        ensures
            opt_result_view(r) == parsed(tracking_number@, body@),
    {
        if contains_text(body, NOT_FOUND) {
            return Some(Err(TrackingError::NotExistsTrackingNumber));
        }
        let data = match capture_tracking_info(body) {
            Some(d) => d,
            None => return Some(Err(missing_field())),
        };
        if !parses_as_json(data.as_str()) {
            return Some(Err(embedded_error()));
        }
        match string_at(data.as_str(), "/carrierName") {
            Some(carrier) => if same_text(carrier.as_str(), CJ) {
                return None;
            },
            None => {},
        }
        let fields = selectors3("/transTime", "/transKind", "/transWhere");
        let rows = match rows_at(data.as_str(), "/trackingDetails", &fields) {
            Some(rows) => rows,
            None => return Some(Err(missing_field())),
        };
        let evs = match gather_json_rows(CourierType::Gspostbox, "", &rows) {
            Some(evs) => evs,
            None => return Some(Err(unreadable_event())),
        };
        let service = string_at(data.as_str(), "/serviceName");
        let number = string_at(data.as_str(), "/invoiceNo");
        let sender = string_at(data.as_str(), "/sender/name");
        let receiver = string_at(data.as_str(), "/receiver/name");
        let product = string_at(data.as_str(), "/goodsName");
        let latest = string_at(data.as_str(), "/latestTrackingDetail/transKind");
        let delivered = match latest {
            Some(kind) => same_text(kind.as_str(), "고객전달"),
            None => false,
        };
        match (service, number, sender, receiver, product) {
            (Some(service), Some(number), Some(sender), Some(receiver), Some(product)) => {
                Some(Ok(DeliveryStatus {
                    id: Gspostbox::id().to_string(),
                    name: join3(Gspostbox::name(), " ", service.as_str()),
                    url: join2(PAGE, tracking_number),
                    tracking_number: number,
                    is_delivered: delivered,
                    sender: Some(sender),
                    receiver: Some(receiver),
                    product: Some(product),
                    tracks: normalize(evs, false, true),
                }))
            },
            _ => Some(Err(missing_field())),
        }
    }
}

} // verus!
