//! WarpEX, a forwarder from the United States.
use vstd::prelude::*;
use crate::state::StateType;
use crate::format::{is_numeric, numeric};
use crate::couriers::{CourierType, single, selectors2};
use crate::error::{ErrorView, TrackingError};
use crate::json::opt_view;
use crate::extract::{gather_html, gather_html_rows, missing, missing_field, opt_events, read_time, result_view, seoul, unreadable, unreadable_event};
use crate::markup::{html_attr, html_markup, html_rows, select_attr, select_markup, select_rows, texts_view};
use crate::status::{DeliveryStatus, EventView, InfoView, TrackingStatus, normalize, normalized};
use crate::text::{contains_text, has_text, join2, replace_text, replaced, split_at_first, split_first, trim_text, trimmed, collapse_from};
use crate::pattern::{collapse_spaces, collapse_spaces_and_bars};
use crate::transport::{HttpRequest, get, get_view, no_headers};

verus! {

/// WarpEX.
pub struct Warpex;

/// The tracking-number format.
pub open spec fn valid(s: Seq<char>) -> bool {
    numeric(s, 12)
}

/// The classification of a status text.
pub open spec fn state_of(s: Seq<char>) -> StateType {
    if has_text(s, "배송완료"@) {
        StateType::Delivered
    } else {
        StateType::Unknown
    }
}

impl Warpex {
    pub fn id() -> (r: &'static str)
        ensures
            r@ == "us.warpex"@,
    {
        "us.warpex"
    }

    pub fn name() -> (r: &'static str)
        ensures
            r@ == "WarpEX"@,
    {
        "WarpEX"
    }

    /// The expected format, as the error for a malformed number states it.
    pub fn hint() -> (r: &'static str)
        ensures
            r@ == "숫자 12자리"@,
    {
        "숫자 12자리"
    }

    /// Whether `tracking_number` has the courier's format.
    pub fn validate(tracking_number: &str) -> (r: bool)
        ensures
            r == valid(tracking_number@),
    {
        is_numeric(tracking_number, 12)
    }

    /// The lifecycle stage of one of the courier's status texts.
    pub fn state_from(status: &str) -> (r: StateType)
        ensures
            r == state_of(status@),
    {
        if contains_text(status, "배송완료") {
            StateType::Delivered
        } else {
            StateType::Unknown
        }
    }
}

} // verus!

verus! {

pub const PAGE: &'static str = "https://packing.warpex.com/api/warpexTrack?wbl=";
pub const NOT_FOUND: &'static str = "조회된 데이터가 없습니다";
pub const ROWS: &'static str = "#history > ul > li";
pub const SENDER: &'static str = "div.Tdate > div > p:nth-child(1) > span";
pub const RECEIVER: &'static str = "div.Tdate > div > p:nth-child(2) > span";
pub const STEP: &'static str = "body > section > section > div:nth-child(2) > div.step > p > img";

pub open spec fn cells() -> Seq<Seq<char>> {
    seq![".date"@, ".txt"@]
}

pub open spec fn message_text(cell: Seq<char>) -> Seq<char> {
    trimmed(collapse_from(cell, false, false))
}

/// The event of one list item; its message is all the text it has.
pub open spec fn row_events(row: Seq<Seq<char>>) -> Option<Seq<EventView>> {
    if row.len() != 3 {
        None
    } else {
        match seoul(row[1], "%Y-%m-%d %p %I:%M:%S"@) {
            None => None,
            Some(t) => Some(
                seq![
                    EventView {
                        time: t,
                        status: None,
                        message: Some(message_text(row[2])),
                        location: None,
                        live_tracking_url: None,
                        state: state_of(message_text(row[2])),
                    },
                ],
            ),
        }
    }
}

/// The text after the line break of a party's box.
pub open spec fn party(markup: Seq<char>, bars: bool) -> Option<Seq<char>> {
    match split_at_first(markup, "<br>"@) {
        None => None,
        Some((_, rest)) => Some(
            trimmed(
                replaced(
                    if bars {
                        collapse_from(rest, true, false)
                    } else {
                        rest
                    },
                    "</span>"@,
                    ""@,
                ),
            ),
        ),
    }
}

/// What a reply page says.
pub open spec fn parsed(tn: Seq<char>, body: Seq<char>) -> Result<InfoView, ErrorView> {
    if has_text(body, NOT_FOUND@) {
        Err(ErrorView::NotExistsTrackingNumber)
    } else {
        match (
            gather_html(CourierType::Warpex, html_rows(body, ROWS@, cells())),
            party(html_markup(body, SENDER@), true),
            party(html_markup(body, RECEIVER@), false),
            html_attr(body, STEP@, "src"@),
        ) {
            (None, _, _, _) => Err(unreadable()),
            (Some(evs), Some(sender), Some(receiver), Some(step)) => Ok(
                InfoView {
                    id: "us.warpex"@,
                    name: "WarpEX"@,
                    url: PAGE@ + tn,
                    tracking_number: tn,
                    is_delivered: has_text(step, "step5"@),
                    sender: Some(sender),
                    receiver: Some(receiver),
                    product: None,
                    tracks: normalized(evs, false, false),
                },
            ),
            _ => Err(missing()),
        }
    }
}

impl Warpex {
    pub fn request(tracking_number: &str) -> (r: HttpRequest)
        ensures
            r@ == get_view(PAGE@ + tracking_number@, Seq::empty()),
    {
        get(join2(PAGE, tracking_number), no_headers())
    }

    pub fn row(row: &Vec<String>) -> (r: Option<Vec<TrackingStatus>>)
        ensures
            opt_events(r) == row_events(texts_view(row@)),
    {
        if row.len() != 3 {
            return None;
        }
        let t = match read_time(row[1].as_str(), "%Y-%m-%d %p %I:%M:%S") {
            Some(t) => t,
            None => return None,
        };
        let message = collapse_spaces(row[2].as_str());
        let message = trim_text(message.as_str());
        let state = Warpex::state_from(message.as_str());
        Some(single(TrackingStatus {
            time: t,
            status: None,
            message: Some(message),
            location: None,
            live_tracking_url: None,
            state,
        }))
    }

    fn party_of(markup: &str, bars: bool) -> (r: Option<String>)
        ensures
            opt_view(r) == party(markup@, bars),
    {
        let rest = match split_first(markup, "<br>") {
            Some((_, rest)) => rest,
            None => return None,
        };
        let rest = if bars {
            collapse_spaces_and_bars(rest.as_str())
        } else {
            rest
        };
        proof {
            reveal_strlit("</span>");
        }
        let cleaned = replace_text(rest.as_str(), "</span>", "");
        Some(trim_text(cleaned.as_str()))
    }

    /// Reads a reply page.
    pub fn parse(tracking_number: &str, body: &str) -> (r: Result<DeliveryStatus, TrackingError>)
        ensures
            result_view(r) == parsed(tracking_number@, body@),
    {
        if contains_text(body, NOT_FOUND) {
            return Err(TrackingError::NotExistsTrackingNumber);
        }
        let cells = selectors2(".date", ".txt");
        let rows = select_rows(body, ROWS, &cells);
        let evs = match gather_html_rows(CourierType::Warpex, &rows) {
            Some(evs) => evs,
            None => return Err(unreadable_event()),
        };
        let sender_box = select_markup(body, SENDER);
        let sender = match Warpex::party_of(sender_box.as_str(), true) {
            Some(s) => s,
            None => return Err(missing_field()),
        };
        let receiver_box = select_markup(body, RECEIVER);
        let receiver = match Warpex::party_of(receiver_box.as_str(), false) {
            Some(s) => s,
            None => return Err(missing_field()),
        };
        let step = match select_attr(body, STEP, "src") {
            Some(s) => s,
            None => return Err(missing_field()),
        };
        Ok(DeliveryStatus {
            id: Warpex::id().to_string(),
            name: Warpex::name().to_string(),
            url: join2(PAGE, tracking_number),
            tracking_number: tracking_number.to_string(),
            is_delivered: contains_text(step.as_str(), "step5"),
            sender: Some(sender),
            receiver: Some(receiver),
            product: None,
            tracks: normalize(evs, false, false),
        })
    }
}

} // verus!
