//! Cainiao, for parcels from China; lists its events newest first.
use vstd::prelude::*;
use crate::state::StateType;
use crate::format::{is_lp_number, is_numeric, lp_format, numeric};
use crate::couriers::{CourierType, single, selectors2};
use crate::error::{ErrorView, TrackingError};
use crate::extract::{embedded, embedded_error, gather_json, gather_json_rows, malformed, missing, missing_field, opt_events, read_time, result_view, seoul, unreadable, unreadable_event};
use crate::json::{json_null, json_parses, json_rows, json_str, opt_row_view, opt_view, null_at, parses_as_json, rows_at, string_at};
use crate::markup::{html_text, select_text};
use crate::status::{DeliveryStatus, EventView, InfoView, TrackingStatus, normalize, normalized};
use crate::text::{contains_text, has_text, join2, join3, replace_text, replaced, same_text};
use crate::transport::{HttpRequest, agent_header, agent_headers, get, get_view};

verus! {

/// Cainiao.
pub struct Cainiao;

/// The tracking-number format.
pub open spec fn valid(s: Seq<char>) -> bool {
    numeric(s, 13) || lp_format(s)
}

/// The classification of a status text.
pub open spec fn state_of(s: Seq<char>) -> StateType {
    if has_text(s, "Delivered"@) {
        StateType::Delivered
    } else {
        StateType::Unknown
    }
}

impl Cainiao {
    pub fn id() -> (r: &'static str)
        ensures
            r@ == "cn.cainiao"@,
    {
        "cn.cainiao"
    }

    pub fn name() -> (r: &'static str)
        ensures
            r@ == "CAINIAO"@,
    {
        "CAINIAO"
    }

    /// The expected format, as the error for a malformed number states it.
    pub fn hint() -> (r: &'static str)
        ensures
            r@ == "숫자 13자리 또는 LP + 숫자 14자리"@,
    {
        "숫자 13자리 또는 LP + 숫자 14자리"
    }

    /// Whether `tracking_number` has the courier's format.
    pub fn validate(tracking_number: &str) -> (r: bool)
        ensures
            r == valid(tracking_number@),
    {
        is_numeric(tracking_number, 13) || is_lp_number(tracking_number)
    }

    /// The lifecycle stage of one of the courier's status texts.
    pub fn state_from(status: &str) -> (r: StateType)
        ensures
            r == state_of(status@),
    {
        if contains_text(status, "Delivered") {
            StateType::Delivered
        } else {
            StateType::Unknown
        }
    }
}

} // verus!

verus! {

pub const PAGE: &'static str = "https://global.cainiao.com/detail.htm?lang=en&mailNoList=";
/// The element whose text holds the shipment's data, as escaped JSON.
pub const DATA_BOX: &'static str = "#waybill_list_val_box";
pub const SHIPMENT: &'static str = "/data/0";

pub open spec fn fields() -> Seq<Seq<char>> {
    seq!["/time"@, "/desc"@]
}

/// The event of one element of the event list.
pub open spec fn row_events(row: Seq<Option<Seq<char>>>) -> Option<Seq<EventView>> {
    if row.len() != 2 {
        None
    } else {
        match (row[0], row[1]) {
            (Some(time), Some(desc)) => match seoul(time, "%Y-%m-%d %H:%M:%S"@) {
                None => None,
                Some(t) => Some(
                    seq![
                        EventView {
                            time: t,
                            status: Some(desc),
                            message: None,
                            location: None,
                            live_tracking_url: None,
                            state: state_of(desc),
                        },
                    ],
                ),
            },
            _ => None,
        }
    }
}

/// The data embedded in a reply page, unescaped.
pub open spec fn data_of(body: Seq<char>) -> Seq<char> {
    replaced(html_text(body, DATA_BOX@), "&quot;"@, "\""@)
}

pub open spec fn shipment(data: Seq<char>, name: Seq<char>) -> Option<Seq<char>> {
    json_str(data, SHIPMENT@ + "/"@ + name)
}

/// What a reply page says; it lists the newest event first, and events of the
/// same time are ordered by stage.
pub open spec fn parsed(tn: Seq<char>, body: Seq<char>) -> Result<InfoView, ErrorView> {
    let data = data_of(body);
    if !json_parses(data) {
        Err(embedded())
    } else if !json_null(data, SHIPMENT@ + "/errorCode"@) {
        Err(ErrorView::NotExistsTrackingNumber)
    } else {
        match json_rows(data, SHIPMENT@ + "/section2/detailList"@, fields()) {
            None => Err(missing()),
            Some(rows) => match gather_json(CourierType::Cainiao, ""@, rows) {
                None => Err(unreadable()),
                Some(evs) => match (
                    shipment(data, "mailNo"@),
                    shipment(data, "statusDesc"@),
                    shipment(data, "originCountry"@),
                    shipment(data, "destCountry"@),
                ) {
                    (Some(number), Some(status), Some(origin), Some(destination)) => Ok(
                        InfoView {
                            id: "cn.cainiao"@,
                            name: "CAINIAO"@,
                            url: PAGE@ + tn,
                            tracking_number: number,
                            is_delivered: status == "Delivered"@,
                            sender: Some(origin),
                            receiver: Some(destination),
                            product: None,
                            tracks: normalized(evs, true, true),
                        },
                    ),
                    _ => Err(missing()),
                },
            },
        }
    }
}

impl Cainiao {
    pub fn request(tracking_number: &str) -> (r: HttpRequest)
        ensures
            r@ == get_view(PAGE@ + tracking_number@, agent_headers()),
    {
        get(join2(PAGE, tracking_number), agent_header())
    }

    pub fn row(row: &Vec<Option<String>>) -> (r: Option<Vec<TrackingStatus>>)
        ensures
            opt_events(r) == row_events(opt_row_view(row@)),
    {
        if row.len() != 2 {
            return None;
        }
        let (time, desc) = match (&row[0], &row[1]) {
            (Some(a), Some(b)) => (a, b),
            _ => return None,
        };
        let t = match read_time(time.as_str(), "%Y-%m-%d %H:%M:%S") {
            Some(t) => t,
            None => return None,
        };
        let state = Cainiao::state_from(desc.as_str());
        Some(single(TrackingStatus {
            time: t,
            status: Some(desc.clone()),
            message: None,
            location: None,
            live_tracking_url: None,
            state,
        }))
    }

    fn shipment(data: &str, name: &str) -> (r: Option<String>)
        ensures
            opt_view(r) == shipment(data@, name@),
    {
        let pointer = join3(SHIPMENT, "/", name);
        string_at(data, pointer.as_str())
    }

    /// Reads a reply page.
    pub fn parse(tracking_number: &str, body: &str) -> (r: Result<DeliveryStatus, TrackingError>)
        ensures
            result_view(r) == parsed(tracking_number@, body@),
    {
        let escaped = select_text(body, DATA_BOX);
        proof {
            reveal_strlit("&quot;");
        }
        let data = replace_text(escaped.as_str(), "&quot;", "\"");
        if !parses_as_json(data.as_str()) {
            return Err(embedded_error());
        }
        let code = join2(SHIPMENT, "/errorCode");
        if !null_at(data.as_str(), code.as_str()) {
            return Err(TrackingError::NotExistsTrackingNumber);
        }
        let fields = selectors2("/time", "/desc");
        let list = join2(SHIPMENT, "/section2/detailList");
        let rows = match rows_at(data.as_str(), list.as_str(), &fields) {
            Some(rows) => rows,
            None => return Err(missing_field()),
        };
        let evs = match gather_json_rows(CourierType::Cainiao, "", &rows) {
            Some(evs) => evs,
            None => return Err(unreadable_event()),
        };
        let number = Cainiao::shipment(data.as_str(), "mailNo");
        let status = Cainiao::shipment(data.as_str(), "statusDesc");
        let origin = Cainiao::shipment(data.as_str(), "originCountry");
        let destination = Cainiao::shipment(data.as_str(), "destCountry");
        match (number, status, origin, destination) {
            (Some(number), Some(status), Some(origin), Some(destination)) => Ok(DeliveryStatus {
                id: Cainiao::id().to_string(),
                name: Cainiao::name().to_string(),
                url: join2(PAGE, tracking_number),
                tracking_number: number,
                is_delivered: same_text(status.as_str(), "Delivered"),
                sender: Some(origin),
                receiver: Some(destination),
                product: None,
                tracks: normalize(evs, true, true),
            }),
            _ => Err(missing_field()),
        }
    }
}

} // verus!
