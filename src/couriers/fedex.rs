//! FedEx; its status codes are classified, and its events come newest first.
use vstd::prelude::*;
use crate::state::StateType;
use crate::format::{is_numeric, numeric};
use crate::couriers::{CourierType, single, selectors6};
use crate::error::{ErrorView, TrackingError};
use crate::extract::{gather_json, gather_json_rows, instant, malformed, malformed_response, missing, missing_field, opt_events, read_instant, result_view, unreadable, unreadable_event};
use crate::json::{json_bool, json_parses, json_rows, json_str, opt_row_view, opt_view, bool_at, parses_as_json, rows_at, string_at};
use crate::status::{DeliveryStatus, EventView, InfoView, TrackingStatus, normalize, normalized};
use crate::text::{join2, join3, replace_text, replaced, same_text};
use crate::transport::{push_pair, HttpRequest, PairsView, no_headers, pair, post, post_view};

verus! {

/// FedEx.
pub struct Fedex;

/// The tracking-number format.
pub open spec fn valid(s: Seq<char>) -> bool {
    numeric(s, 12)
}

/// The classification of a status text.
pub open spec fn state_of(s: Seq<char>) -> StateType {
    if s == "OC"@ {
        StateType::InformationReceived
    } else if s == "PU"@ {
        StateType::AtPickup
    } else if s == "DP"@ {
        StateType::InTransitSent
    } else if s == "AR"@ || s == "CC"@ {
        StateType::InTransitReceived
    } else if s == "IT"@ {
        StateType::InTransit
    } else if s == "OD"@ {
        StateType::OutForDelivery
    } else if s == "DL"@ {
        StateType::Delivered
    } else {
        StateType::Unknown
    }
}

impl Fedex {
    pub fn id() -> (r: &'static str)
        ensures
            r@ == "us.fedex"@,
    {
        "us.fedex"
    }

    pub fn name() -> (r: &'static str)
        ensures
            r@ == "FedEx"@,
    {
        "FedEx"
    }

    /// The expected format, as the error for a malformed number states it.
    pub fn hint() -> (r: &'static str)
        ensures
            r@ == "숫자 12자리"@,
    {
        "숫자 12자리"
    }

    /// Whether `tracking_number` has the courier's format.
    pub fn validate(tracking_number: &str) -> (r: bool)
        ensures
            r == valid(tracking_number@),
    {
        is_numeric(tracking_number, 12)
    }

    /// The lifecycle stage of one of the courier's status texts.
    pub fn state_from(status: &str) -> (r: StateType)
        ensures
            r == state_of(status@),
    {
        if same_text(status, "OC") {
            StateType::InformationReceived
        } else if same_text(status, "PU") {
            StateType::AtPickup
        } else if same_text(status, "DP") {
            StateType::InTransitSent
        } else if same_text(status, "AR") || same_text(status, "CC") {
            StateType::InTransitReceived
        } else if same_text(status, "IT") {
            StateType::InTransit
        } else if same_text(status, "OD") {
            StateType::OutForDelivery
        } else if same_text(status, "DL") {
            StateType::Delivered
        } else {
            StateType::Unknown
        }
    }
}

} // verus!

verus! {

pub const ENDPOINT: &'static str = "https://www.fedex.com/trackingCal/track";
pub const PAGE: &'static str = "https://www.fedex.com/fedextrack/?action=track&trackingnumber=";
pub const PAGE_TAIL: &'static str = "&cntry_code=kr&locale=ko_kr";
pub const DATA_HEAD: &'static str = "{\"TrackPackagesRequest\":{\"appDeviceType\":\"DESKTOP\",\"appType\":\"WTRK\",\"processingParameters\":{},\"uniqueKey\":\"\",\"supportCurrentLocation\":true,\"supportHTML\":true,\"trackingInfoList\":[{\"trackNumberInfo\":{\"trackingNumber\":\"";
pub const DATA_TAIL: &'static str = "\",\"trackingQualifier\":null,\"trackingCarrier\":null}}]}}";
pub const PACKAGE: &'static str = "/TrackPackagesResponse/packageList/0";

/// The query's form: the JSON request for `tn`, and how the reply should come.
pub open spec fn form(tn: Seq<char>) -> PairsView {
    seq![
        ("action"@, "trackpackages"@),
        ("format"@, "json"@),
        ("data"@, DATA_HEAD@ + tn + DATA_TAIL@),
        ("locale"@, "ko_KR"@),
        ("version"@, "1"@),
    ]
}

pub open spec fn fields() -> Seq<Seq<char>> {
    seq!["/date"@, "/time"@, "/gmtOffset"@, "/status"@, "/scanLocation"@, "/statusCD"@]
}

/// The event of one scan; its status code is what is classified.
pub open spec fn row_events(row: Seq<Option<Seq<char>>>) -> Option<Seq<EventView>> {
    if row.len() != 6 {
        None
    } else {
        match (row[0], row[1], row[2], row[4]) {
            (Some(date), Some(time), Some(offset), Some(place)) => match instant(
                date + " "@ + time + " "@ + offset,
                "%Y-%m-%d %H:%M:%S %:z"@,
            ) {
                None => None,
                Some(t) => Some(
                    seq![
                        EventView {
                            time: t,
                            status: row[5],
                            message: row[3],
                            location: Some(place),
                            live_tracking_url: None,
                            state: match row[5] {
                                Some(code) => state_of(code),
                                None => StateType::Unknown,
                            },
                        },
                    ],
                ),
            },
            _ => None,
        }
    }
}

pub open spec fn package(text: Seq<char>, name: Seq<char>) -> Option<Seq<char>> {
    json_str(text, PACKAGE@ + "/"@ + name)
}

/// `city, state country`, with double spaces made single.
pub open spec fn place(city: Seq<char>, state: Seq<char>, country: Seq<char>) -> Seq<char> {
    replaced(city + ", "@ + state + " "@ + country, "  "@, " "@)
}

/// The reply carries an error code: a non-empty string where the first
/// package's first error stands.
pub open spec fn error_code(text: Seq<char>) -> bool {
    match json_str(text, PACKAGE@ + "/errorList/0/code"@) {
        Some(code) => code.len() > 0,
        None => false,
    }
}

/// What the JSON reply says; it lists the newest scan first.
pub open spec fn parsed(tn: Seq<char>, text: Seq<char>) -> Result<InfoView, ErrorView> {
    if !json_parses(text) {
        Err(malformed())
    } else if error_code(text) {
        Err(ErrorView::NotExistsTrackingNumber)
    } else {
        match json_rows(text, PACKAGE@ + "/scanEventList"@, fields()) {
            None => Err(missing()),
            Some(rows) => match gather_json(CourierType::Fedex, ""@, rows) {
                None => Err(unreadable()),
                Some(evs) => match (
                    json_bool(text, PACKAGE@ + "/isDelivered"@),
                    package(text, "shipperCity"@),
                    package(text, "shipperStateCD"@),
                    package(text, "shipperCntryCD"@),
                    package(text, "recipientCity"@),
                    package(text, "recipientStateCD"@),
                    package(text, "recipientCntryCD"@),
                ) {
                    (Some(delivered), Some(sc), Some(ss), Some(sn), Some(rc), Some(rs), Some(rn)) => Ok(
                        InfoView {
                            id: "us.fedex"@,
                            name: "FedEx"@,
                            url: PAGE@ + tn + PAGE_TAIL@,
                            tracking_number: tn,
                            is_delivered: delivered,
                            sender: Some(place(sc, ss, sn)),
                            receiver: Some(place(rc, rs, rn)),
                            product: None,
                            tracks: normalized(evs, true, false),
                        },
                    ),
                    _ => Err(missing()),
                },
            },
        }
    }
}

impl Fedex {
    pub fn request(tracking_number: &str) -> (r: HttpRequest)
        ensures
            r@ == post_view(ENDPOINT@, Seq::empty(), form(tracking_number@)),
    {
        let data = join3(DATA_HEAD, tracking_number, DATA_TAIL);
        let mut fields = pair("action", "trackpackages");
        
        push_pair(&mut fields, "format", "json");
        push_pair(&mut fields, "data", data.as_str());
        push_pair(&mut fields, "locale", "ko_KR");
        push_pair(&mut fields, "version", "1");
        proof {
            assert(crate::transport::pairs_view(fields@) =~= form(tracking_number@));
        }
        post(ENDPOINT.to_string(), no_headers(), fields)
    }

    pub fn row(row: &Vec<Option<String>>) -> (r: Option<Vec<TrackingStatus>>)
        ensures
            opt_events(r) == row_events(opt_row_view(row@)),
    {
        if row.len() != 6 {
            return None;
        }
        let (date, time, offset, place) = match (&row[0], &row[1], &row[2], &row[4]) {
            (Some(a), Some(b), Some(c), Some(d)) => (a, b, c, d),
            _ => return None,
        };
        let when = join3(date.as_str(), " ", time.as_str());
        let when = join3(when.as_str(), " ", offset.as_str());
        let t = match read_instant(when.as_str(), "%Y-%m-%d %H:%M:%S %:z") {
            Some(t) => t,
            None => return None,
        };
        let state = match &row[5] {
            Some(code) => Fedex::state_from(code.as_str()),
            None => StateType::Unknown,
        };
        let status = match &row[5] {
            Some(code) => Some(code.clone()),
            None => None,
        };
        let message = match &row[3] {
            Some(m) => Some(m.clone()),
            None => None,
        };
        Some(single(TrackingStatus {
            time: t,
            status,
            message,
            location: Some(place.clone()),
            live_tracking_url: None,
            state,
        }))
    }

    fn package(text: &str, name: &str) -> (r: Option<String>)
        ensures
            opt_view(r) == package(text@, name@),
    {
        let pointer = join3(PACKAGE, "/", name);
        string_at(text, pointer.as_str())
    }

    fn place_of(city: &str, state: &str, country: &str) -> (r: String)
        ensures
            r@ == place(city@, state@, country@),
    {
        let head = join3(city, ", ", state);
        let whole = join3(head.as_str(), " ", country);
        proof {
            reveal_strlit("  ");
        }
        replace_text(whole.as_str(), "  ", " ")
    }

    /// Reads the JSON reply.
    pub fn parse(tracking_number: &str, text: &str) -> (r: Result<DeliveryStatus, TrackingError>)
        ensures
            result_view(r) == parsed(tracking_number@, text@),
    {
        if !parses_as_json(text) {
            return Err(malformed_response());
        }
        let code = join2(PACKAGE, "/errorList/0/code");
        match string_at(text, code.as_str()) {
            Some(code) => if !code.as_str().is_empty() {
                return Err(TrackingError::NotExistsTrackingNumber);
            },
            None => {},
        }
        let fields = selectors6("/date", "/time", "/gmtOffset", "/status", "/scanLocation", "/statusCD");
        let scans = join2(PACKAGE, "/scanEventList");
        let rows = match rows_at(text, scans.as_str(), &fields) {
            Some(rows) => rows,
            None => return Err(missing_field()),
        };
        let evs = match gather_json_rows(CourierType::Fedex, "", &rows) {
            Some(evs) => evs,
            None => return Err(unreadable_event()),
        };
        let flag = join2(PACKAGE, "/isDelivered");
        let delivered = bool_at(text, flag.as_str());
        let sc = Fedex::package(text, "shipperCity");
        let ss = Fedex::package(text, "shipperStateCD");
        let sn = Fedex::package(text, "shipperCntryCD");
        let rc = Fedex::package(text, "recipientCity");
        let rs = Fedex::package(text, "recipientStateCD");
        let rn = Fedex::package(text, "recipientCntryCD");
        match (delivered, sc, ss, sn, rc, rs, rn) {
            (Some(delivered), Some(sc), Some(ss), Some(sn), Some(rc), Some(rs), Some(rn)) => {
                let url = join3(PAGE, tracking_number, PAGE_TAIL);
                Ok(DeliveryStatus {
                    id: Fedex::id().to_string(),
                    name: Fedex::name().to_string(),
                    url,
                    tracking_number: tracking_number.to_string(),
                    is_delivered: delivered,
                    sender: Some(Fedex::place_of(sc.as_str(), ss.as_str(), sn.as_str())),
                    receiver: Some(Fedex::place_of(rc.as_str(), rs.as_str(), rn.as_str())),
                    product: None,
                    tracks: normalize(evs, true, false),
                })
            },
            _ => Err(missing_field()),
        }
    }
}

} // verus!
