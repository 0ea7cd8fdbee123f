//! CJ Logistics, reached through a session token handshake.
use vstd::prelude::*;
use crate::state::StateType;
use crate::format::{is_numeric, numeric};
use crate::couriers::{CourierType, single, selectors5};
use crate::error::{ErrorView, TrackingError};
use crate::extract::{gather_json, gather_json_rows, malformed, malformed_response, missing, missing_field, opt_events, read_time, result_view, seoul, unreadable, unreadable_event};
use crate::json::{json_parses, json_rows, json_str, opt_row_view, opt_view, parses_as_json, rows_at, string_at};
use crate::markup::{html_attr, select_attr};
use crate::status::{DeliveryStatus, EventView, InfoView, TrackingStatus, normalize, normalized};
use crate::text::{join2, join3, replace_text, replaced, same_text};
use crate::transport::{HttpRequest, PairsView, get, get_view, no_headers, pair, post, post_view};

verus! {

/// CJ Logistics.
pub struct Cjlogistics;

/// The tracking-number format.
pub open spec fn valid(s: Seq<char>) -> bool {
    numeric(s, 10) || numeric(s, 12)
}

/// The classification of a status text.
pub open spec fn state_of(s: Seq<char>) -> StateType {
    if s == "상품인수"@ {
        StateType::AtPickup
    } else if s == "상품이동중"@ || s == "배달지도착"@ {
        StateType::InTransit
    } else if s == "배달출발"@ {
        StateType::OutForDelivery
    } else if s == "배달완료"@ {
        StateType::Delivered
    } else {
        StateType::Unknown
    }
}

impl Cjlogistics {
    pub fn id() -> (r: &'static str)
        ensures
            r@ == "kr.cjlogistics"@,
    {
        "kr.cjlogistics"
    }

    pub fn name() -> (r: &'static str)
        ensures
            r@ == "CJ대한통운"@,
    {
        "CJ대한통운"
    }

    /// The expected format, as the error for a malformed number states it.
    pub fn hint() -> (r: &'static str)
        ensures
            r@ == "숫자 10자리 또는 12자리"@,
    {
        "숫자 10자리 또는 12자리"
    }

    /// Whether `tracking_number` has the courier's format.
    pub fn validate(tracking_number: &str) -> (r: bool)
        ensures
            r == valid(tracking_number@),
    {
        is_numeric(tracking_number, 10) || is_numeric(tracking_number, 12)
    }

    /// The lifecycle stage of one of the courier's status texts.
    pub fn state_from(status: &str) -> (r: StateType)
        ensures
            r == state_of(status@),
    {
        if same_text(status, "상품인수") {
            StateType::AtPickup
        } else if same_text(status, "상품이동중") || same_text(status, "배달지도착") {
            StateType::InTransit
        } else if same_text(status, "배달출발") {
            StateType::OutForDelivery
        } else if same_text(status, "배달완료") {
            StateType::Delivered
        } else {
            StateType::Unknown
        }
    }
}

} // verus!

verus! {

/// The page that hands out a session token, and that shows a shipment.
pub const PAGE: &'static str = "https://www.cjlogistics.com/ko/tool/parcel/tracking";
pub const DETAIL: &'static str = "https://www.cjlogistics.com/ko/tool/parcel/tracking-detail";
pub const TOKEN: &'static str = "input[name='_csrf']";
pub const LIVE: &'static str = "https://mms.doortodoor.co.kr:8443/MMSPUSH/location.do?empnum=";
/// The driver image name of an event that no driver handled.
pub const NO_DRIVER: &'static str = "EMP_IMG_NM";
pub const RESULTS: &'static str = "/parcelResultMap/resultList";
pub const EVENTS: &'static str = "/parcelDetailResultMap/resultList";

/// The `Cookie` header that sends `cookies` back: `name=value` pairs joined by `;`.
pub open spec fn cookie_header(cookies: PairsView) -> Seq<char>
    decreases cookies.len(),
{
    if cookies.len() == 0 {
        Seq::empty()
    } else if cookies.len() == 1 {
        cookies[0].0 + "="@ + cookies[0].1
    } else {
        cookie_header(cookies.drop_last()) + ";"@ + cookies.last().0 + "="@ + cookies.last().1
    }
}

/// The session token on the tracking page.
pub open spec fn token_of(page: Seq<char>) -> Option<Seq<char>> {
    html_attr(page, TOKEN@, "value"@)
}

/// The query for `tn`, with the session's token and cookies.
pub open spec fn detail_request(tn: Seq<char>, token: Seq<char>, cookies: PairsView) -> crate::transport::RequestView {
    post_view(
        DETAIL@,
        seq![("Cookie"@, cookie_header(cookies))],
        seq![("paramInvcNo"@, tn), ("_csrf"@, token)],
    )
}

pub open spec fn fields() -> Seq<Seq<char>> {
    seq!["/dTime"@, "/crgNm"@, "/scanNm"@, "/regBranNm"@, "/empImgNm"@]
}

/// The page that follows the driver of an event live.
pub open spec fn live_url(driver: Seq<char>, number: Seq<char>) -> Option<Seq<char>> {
    if driver == NO_DRIVER@ {
        None
    } else {
        Some(LIVE@ + crate::codec::base64_of(driver) + "&trspbillnum="@ + crate::codec::base64_of(number))
    }
}

/// The event of one element of the event list; `number` is the shipment's.
pub open spec fn row_events(number: Seq<char>, row: Seq<Option<Seq<char>>>) -> Option<Seq<EventView>> {
    if row.len() != 5 {
        None
    } else {
        match (row[0], row[1], row[2], row[3], row[4]) {
            (Some(time), Some(message), Some(status), Some(place), Some(driver)) => match seoul(
                time,
                "%Y-%m-%d %H:%M:%S%.f"@,
            ) {
                None => None,
                Some(t) => Some(
                    seq![
                        EventView {
                            time: t,
                            status: Some(status),
                            message: Some(replaced(message, ".("@, ". ("@)),
                            location: Some(place),
                            live_tracking_url: live_url(driver, number),
                            state: state_of(status),
                        },
                    ],
                ),
            },
            _ => None,
        }
    }
}

pub open spec fn result_field(text: Seq<char>, name: Seq<char>) -> Option<Seq<char>> {
    json_str(text, RESULTS@ + "/0/"@ + name)
}

/// What the query's JSON reply says.
pub open spec fn parsed(text: Seq<char>) -> Result<InfoView, ErrorView> {
    if !json_parses(text) {
        Err(malformed())
    } else {
        match json_rows(text, RESULTS@, Seq::empty()) {
            None => Err(missing()),
            Some(results) => if results.len() == 0 {
                Err(ErrorView::NotExistsTrackingNumber)
            } else {
                match (result_field(text, "invcNo"@), json_rows(text, EVENTS@, fields())) {
                    (Some(number), Some(rows)) => match gather_json(CourierType::Cjlogistics, number, rows) {
                        None => Err(unreadable()),
                        Some(evs) => match (
                            result_field(text, "nsDlvNm"@),
                            result_field(text, "sendrNm"@),
                            result_field(text, "rcvrNm"@),
                            result_field(text, "itemNm"@),
                        ) {
                            (Some(code), Some(sender), Some(receiver), Some(product)) => Ok(
                                InfoView {
                                    id: "kr.cjlogistics"@,
                                    name: "CJ대한통운"@,
                                    url: PAGE@,
                                    tracking_number: number,
                                    is_delivered: code == "91"@,
                                    sender: Some(sender),
                                    receiver: Some(receiver),
                                    product: Some(product),
                                    tracks: normalized(evs, false, false),
                                },
                            ),
                            _ => Err(missing()),
                        },
                    },
                    _ => Err(missing()),
                }
            },
        }
    }
}

impl Cjlogistics {
    /// The first request: the tracking page, whose reply carries the session.
    pub fn token_request() -> (r: HttpRequest)
        ensures
            r@ == get_view(PAGE@, Seq::empty()),
    {
        get(PAGE.to_string(), no_headers())
    }

    /// The session token on the tracking page.
    pub fn token(page: &str) -> (r: Option<String>)
        ensures
            opt_view(r) == token_of(page@),
    {
        select_attr(page, TOKEN, "value")
    }

    pub fn cookies(cookies: &Vec<(String, String)>) -> (r: String)
        ensures
            r@ == cookie_header(crate::transport::pairs_view(cookies@)),
    {
        let ghost v = crate::transport::pairs_view(cookies@);
        let mut out = String::new();
        let mut i: usize = 0;
        proof {
            assert(v.subrange(0, 0) =~= Seq::<(Seq<char>, Seq<char>)>::empty());
        }
        while i < cookies.len()
            invariant
                v == crate::transport::pairs_view(cookies@),
                i <= cookies@.len(),
                out@ == cookie_header(v.subrange(0, i as int)),
            decreases cookies@.len() - i,
        {
            let (name, value) = &cookies[i];
            let part = join3(name.as_str(), "=", value.as_str());
            proof {
                let next = v.subrange(0, i + 1);
                assert(next.drop_last() =~= v.subrange(0, i as int));
                assert(next.last() == v[i as int]);
                if i == 0 {
                    assert(next[0] == v[0]);
                }
            }
            if i > 0 {
                out.append(";");
            }
            out.append(part.as_str());
            proof {
                let next = v.subrange(0, i + 1);
                if i == 0 {
                    assert(out@ =~= cookie_header(next));
                } else {
                    assert(out@ =~= cookie_header(next));
                }
            }
            i = i + 1;
        }
        proof {
            assert(v.subrange(0, cookies@.len() as int) =~= v);
        }
        out
    }

    /// The query for `tracking_number`, with the session's token and cookies.
    pub fn request(tracking_number: &str, token: &str, cookies: &Vec<(String, String)>) -> (r: HttpRequest)
        ensures
            r@ == detail_request(tracking_number@, token@, crate::transport::pairs_view(cookies@)),
    {
        let header = Cjlogistics::cookies(cookies);
        let headers = pair("Cookie", header.as_str());
        let mut form = pair("paramInvcNo", tracking_number);
        let ghost first = crate::transport::pairs_view(form@);
        form.push(("_csrf".to_string(), token.to_string()));
        proof {
            assert(crate::transport::pairs_view(form@) =~= first.push(("_csrf"@, token@)));
            assert(crate::transport::pairs_view(form@) =~= seq![
                ("paramInvcNo"@, tracking_number@),
                ("_csrf"@, token@),
            ]);
        }
        post(DETAIL.to_string(), headers, form)
    }

    pub fn row(number: &str, row: &Vec<Option<String>>) -> (r: Option<Vec<TrackingStatus>>)
        ensures
            opt_events(r) == row_events(number@, opt_row_view(row@)),
    {
        if row.len() != 5 {
            return None;
        }
        let (time, message, status, place, driver) = match (&row[0], &row[1], &row[2], &row[3], &row[4]) {
            (Some(a), Some(b), Some(c), Some(d), Some(e)) => (a, b, c, d, e),
            _ => return None,
        };
        let t = match read_time(time.as_str(), "%Y-%m-%d %H:%M:%S%.f") {
            Some(t) => t,
            None => return None,
        };
        let live = if same_text(driver.as_str(), NO_DRIVER) {
            None
        } else {
            let who = crate::codec::encode_base64(driver.as_str());
            let which = crate::codec::encode_base64(number);
            let head = join3(LIVE, who.as_str(), "&trspbillnum=");
            Some(join2(head.as_str(), which.as_str()))
        };
        proof {
            reveal_strlit(".(");
        }
        let state = Cjlogistics::state_from(status.as_str());
        Some(single(TrackingStatus {
            time: t,
            status: Some(status.clone()),
            message: Some(replace_text(message.as_str(), ".(", ". (")),
            location: Some(place.clone()),
            live_tracking_url: live,
            state,
        }))
    }

    fn result_field(text: &str, name: &str) -> (r: Option<String>)
        ensures
            opt_view(r) == result_field(text@, name@),
    {
        let pointer = join3(RESULTS, "/0/", name);
        string_at(text, pointer.as_str())
    }

    /// Reads the query's JSON reply.
    pub fn parse(text: &str) -> (r: Result<DeliveryStatus, TrackingError>)
        ensures
            result_view(r) == parsed(text@),
    {
        if !parses_as_json(text) {
            return Err(malformed_response());
        }
        let none: Vec<&str> = Vec::new();
        proof {
            assert(crate::markup::selectors_view(none@) =~= Seq::<Seq<char>>::empty());
        }
        match rows_at(text, RESULTS, &none) {
            None => return Err(missing_field()),
            Some(results) => if results.len() == 0 {
                return Err(TrackingError::NotExistsTrackingNumber);
            },
        }
        let number = Cjlogistics::result_field(text, "invcNo");
        let fields = selectors5("/dTime", "/crgNm", "/scanNm", "/regBranNm", "/empImgNm");
        let rows = rows_at(text, EVENTS, &fields);
        let (number, rows) = match (number, rows) {
            (Some(n), Some(r)) => (n, r),
            _ => return Err(missing_field()),
        };
        let evs = match gather_json_rows(CourierType::Cjlogistics, number.as_str(), &rows) {
            Some(evs) => evs,
            None => return Err(unreadable_event()),
        };
        let code = Cjlogistics::result_field(text, "nsDlvNm");
        let sender = Cjlogistics::result_field(text, "sendrNm");
        let receiver = Cjlogistics::result_field(text, "rcvrNm");
        let product = Cjlogistics::result_field(text, "itemNm");
        match (code, sender, receiver, product) {
            (Some(code), Some(sender), Some(receiver), Some(product)) => Ok(DeliveryStatus {
                id: Cjlogistics::id().to_string(),
                name: Cjlogistics::name().to_string(),
                url: PAGE.to_string(),
                tracking_number: number,
                is_delivered: same_text(code.as_str(), "91"),
                sender: Some(sender),
                receiver: Some(receiver),
                product: Some(product),
                tracks: normalize(evs, false, false),
            }),
            _ => Err(missing_field()),
        }
    }
}

} // verus!
