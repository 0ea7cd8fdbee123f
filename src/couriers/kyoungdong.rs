//! Kyungdong Express.
use vstd::prelude::*;
use crate::state::StateType;
use crate::format::{is_numeric, numeric};
use crate::couriers::{CourierType, single, selectors3};
use crate::error::{ErrorView, TrackingError};
use crate::extract::{gather_json, gather_json_rows, malformed, malformed_response, missing, missing_field, opt_events, read_time, result_view, seoul, unreadable, unreadable_event};
use crate::json::{json_null, json_parses, json_rows, json_str, opt_row_view, null_at, parses_as_json, rows_at, string_at};
use crate::status::{DeliveryStatus, EventView, InfoView, TrackingStatus, normalize, normalized};
use crate::text::{contains_text, has_text, join2, join3, same_text};
use crate::transport::{HttpRequest, get, get_view, no_headers};

verus! {

/// Kyungdong Express.
pub struct Kyoungdong;

/// The tracking-number format.
pub open spec fn valid(s: Seq<char>) -> bool {
    numeric(s, 13)
}

/// The classification of a status text.
pub open spec fn state_of(s: Seq<char>) -> StateType {
    if has_text(s, "배송완료"@) {
        StateType::Delivered
    } else {
        StateType::Unknown
    }
}

impl Kyoungdong {
    pub fn id() -> (r: &'static str)
        ensures
            r@ == "kr.kyoungdong"@,
    {
        "kr.kyoungdong"
    }

    pub fn name() -> (r: &'static str)
        ensures
            r@ == "경동택배"@,
    {
        "경동택배"
    }

    /// The expected format, as the error for a malformed number states it.
    pub fn hint() -> (r: &'static str)
        ensures
            r@ == "숫자 13자리"@,
    {
        "숫자 13자리"
    }

    /// Whether `tracking_number` has the courier's format.
    pub fn validate(tracking_number: &str) -> (r: bool)
        ensures
            r == valid(tracking_number@),
    {
        is_numeric(tracking_number, 13)
    }

    /// The lifecycle stage of one of the courier's status texts.
    pub fn state_from(status: &str) -> (r: StateType)
        ensures
            r == state_of(status@),
    {
        if contains_text(status, "배송완료") {
            StateType::Delivered
        } else {
            StateType::Unknown
        }
    }
}

} // verus!

verus! {

pub const ENDPOINT: &'static str = "https://kdexp.com/newDeliverySearch.kd?barcode=";
pub const HOME: &'static str = "https://kdexp.com/main.kd";

pub open spec fn fields() -> Seq<Seq<char>> {
    seq!["/reg_date"@, "/stat"@, "/location"@]
}

/// The event of one element of the event list.
pub open spec fn row_events(row: Seq<Option<Seq<char>>>) -> Option<Seq<EventView>> {
    if row.len() != 3 {
        None
    } else {
        match (row[0], row[1], row[2]) {
            (Some(time), Some(status), Some(place)) => match seoul(time, "%Y-%m-%d %H:%M:%S%.f"@) {
                None => None,
                Some(t) => Some(
                    seq![
                        EventView {
                            time: t,
                            status: Some(status),
                            message: None,
                            location: Some(place),
                            live_tracking_url: None,
                            state: state_of(status),
                        },
                    ],
                ),
            },
            _ => None,
        }
    }
}

/// `name (branch)`.
pub open spec fn party(name: Seq<char>, branch: Seq<char>) -> Seq<char> {
    name + " ("@ + branch + ")"@
}

/// What the JSON reply says.
pub open spec fn parsed(text: Seq<char>) -> Result<InfoView, ErrorView> {
    if !json_parses(text) {
        Err(malformed())
    } else {
        match json_str(text, "/result"@) {
            None => Err(missing()),
            Some(result) => if result == "fail"@ {
                Err(ErrorView::NotExistsTrackingNumber)
            } else {
                match json_rows(text, "/items"@, fields()) {
                    None => Err(missing()),
                    Some(rows) => match gather_json(CourierType::Kyoungdong, ""@, rows) {
                        None => Err(unreadable()),
                        Some(evs) => match (
                            json_str(text, "/info/barcode"@),
                            json_str(text, "/info/send_name"@),
                            json_str(text, "/info/branch_start"@),
                            json_str(text, "/info/re_name"@),
                            json_str(text, "/info/branch_end"@),
                            json_str(text, "/info/prod"@),
                        ) {
                            (Some(number), Some(s), Some(sb), Some(r), Some(rb), Some(product)) => Ok(
                                InfoView {
                                    id: "kr.kyoungdong"@,
                                    name: "경동택배"@,
                                    url: HOME@,
                                    tracking_number: number,
                                    is_delivered: !json_null(text, "/info/rec_dt"@),
                                    sender: Some(party(s, sb)),
                                    receiver: Some(party(r, rb)),
                                    product: Some(product),
                                    tracks: normalized(evs, false, false),
                                },
                            ),
                            _ => Err(missing()),
                        },
                    },
                }
            },
        }
    }
}

impl Kyoungdong {
    pub fn request(tracking_number: &str) -> (r: HttpRequest)
        ensures
            r@ == get_view(ENDPOINT@ + tracking_number@, Seq::empty()),
    {
        get(join2(ENDPOINT, tracking_number), no_headers())
    }

    pub fn row(row: &Vec<Option<String>>) -> (r: Option<Vec<TrackingStatus>>)
        ensures
            opt_events(r) == row_events(opt_row_view(row@)),
    {
        if row.len() != 3 {
            return None;
        }
        let (time, status, place) = match (&row[0], &row[1], &row[2]) {
            (Some(a), Some(b), Some(c)) => (a, b, c),
            _ => return None,
        };
        let t = match read_time(time.as_str(), "%Y-%m-%d %H:%M:%S%.f") {
            Some(t) => t,
            None => return None,
        };
        let state = Kyoungdong::state_from(status.as_str());
        Some(single(TrackingStatus {
            time: t,
            status: Some(status.clone()),
            message: None,
            location: Some(place.clone()),
            live_tracking_url: None,
            state,
        }))
    }

    /// Reads the JSON reply.
    pub fn parse(text: &str) -> (r: Result<DeliveryStatus, TrackingError>)
        ensures
            result_view(r) == parsed(text@),
    {
        if !parses_as_json(text) {
            return Err(malformed_response());
        }
        let result = match string_at(text, "/result") {
            Some(r) => r,
            None => return Err(missing_field()),
        };
        if same_text(result.as_str(), "fail") {
            return Err(TrackingError::NotExistsTrackingNumber);
        }
        let fields = selectors3("/reg_date", "/stat", "/location");
        let rows = match rows_at(text, "/items", &fields) {
            Some(rows) => rows,
            None => return Err(missing_field()),
        };
        let evs = match gather_json_rows(CourierType::Kyoungdong, "", &rows) {
            Some(evs) => evs,
            None => return Err(unreadable_event()),
        };
        let number = string_at(text, "/info/barcode");
        let s = string_at(text, "/info/send_name");
        let sb = string_at(text, "/info/branch_start");
        let r = string_at(text, "/info/re_name");
        let rb = string_at(text, "/info/branch_end");
        let product = string_at(text, "/info/prod");
        match (number, s, sb, r, rb, product) {
            (Some(number), Some(s), Some(sb), Some(r), Some(rb), Some(product)) => {
                let sender = join3(s.as_str(), " (", sb.as_str());
                let receiver = join3(r.as_str(), " (", rb.as_str());
                Ok(DeliveryStatus {
                    id: Kyoungdong::id().to_string(),
                    name: Kyoungdong::name().to_string(),
                    url: HOME.to_string(),
                    tracking_number: number,
                    is_delivered: !null_at(text, "/info/rec_dt"),
                    sender: Some(join2(sender.as_str(), ")")),
                    receiver: Some(join2(receiver.as_str(), ")")),
                    product: Some(product),
                    tracks: normalize(evs, false, false),
                })
            },
            _ => Err(missing_field()),
        }
    }
}

} // verus!
