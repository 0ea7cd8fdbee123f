use delivery_tracker::error::TrackingError;
use delivery_tracker::registry::DeliveryTracker;
use delivery_tracker::session::{Action, Tracking};
use delivery_tracker::couriers::CourierType;
use delivery_tracker::state::StateType;
use delivery_tracker::status::DeliveryStatus;
use delivery_tracker::time::Timestamp;
use delivery_tracker::transport::{HttpReply, Method};

fn reply(body: &str) -> Result<HttpReply, String> {
    Ok(HttpReply { body: body.to_string(), cookies: Vec::new() })
}

const CJ_PAGE: &str =
    "<html><body><form><input type=\"hidden\" name=\"_csrf\" value=\"tok-1\"></form></body></html>";

const CJ_DETAIL: &str = r#"{
  "parcelResultMap": {"resultList": [{"invcNo": "1234567890", "nsDlvNm": "91",
    "sendrNm": "홍*동", "rcvrNm": "김*수", "itemNm": "도서"}]},
  "parcelDetailResultMap": {"resultList": [
    {"dTime": "2021-03-01 10:00:00.0", "crgNm": "인수되었습니다.(담당)", "scanNm": "상품인수",
     "regBranNm": "서울", "empImgNm": "EMP_IMG_NM"},
    {"dTime": "2021-03-02 15:30:00.0", "crgNm": "배달되었습니다.", "scanNm": "배달완료",
     "regBranNm": "부산", "empImgNm": "kim"}
  ]}
}"#;

fn cj_replies() -> Vec<Result<HttpReply, String>> {
    vec![
        Ok(HttpReply {
            body: CJ_PAGE.to_string(),
            cookies: vec![("JSESSIONID".to_string(), "abc".to_string()), ("lang".to_string(), "ko".to_string())],
        }),
        reply(CJ_DETAIL),
    ]
}

fn at(year: i32, month: u8, day: u8, hour: u8, minute: u8) -> Timestamp {
    Timestamp { year, month, day, hour, minute, second: 0 }
}

fn success(r: Option<Result<DeliveryStatus, TrackingError>>) -> DeliveryStatus {
    match r {
        Some(Ok(info)) => info,
        other => panic!("expected a result, got {:?}", other),
    }
}

#[test]
fn cj_two_rows_in_order() {
    let tracker = DeliveryTracker::new();
    let info = success(tracker.resolve_with("kr.cjlogistics", "1234567890", cj_replies()));
    assert!(info.is_delivered);
    assert_eq!(info.id, "kr.cjlogistics");
    assert_eq!(info.tracking_number, "1234567890");
    assert_eq!(info.sender.as_deref(), Some("홍*동"));
    assert_eq!(info.tracks.len(), 2);
    assert_eq!(info.tracks[0].time, at(2021, 3, 1, 10, 0));
    assert_eq!(info.tracks[0].state, StateType::AtPickup);
    assert_eq!(info.tracks[0].message.as_deref(), Some("인수되었습니다. (담당)"));
    assert_eq!(info.tracks[0].live_tracking_url, None);
    assert_eq!(info.tracks[1].time, at(2021, 3, 2, 15, 30));
    assert_eq!(info.tracks[1].state, StateType::Delivered);
    assert_eq!(
        info.tracks[1].live_tracking_url.as_deref(),
        Some("https://mms.doortodoor.co.kr:8443/MMSPUSH/location.do?empnum=a2lt&trspbillnum=MTIzNDU2Nzg5MA==")
    );
}

#[test]
fn cj_handshake_requests() {
    let (mut t, action) = Tracking::start(CourierType::Cjlogistics, "1234567890");
    match action {
        Action::Send(q) => {
            assert_eq!(q.method, Method::Get);
            assert_eq!(q.url, "https://www.cjlogistics.com/ko/tool/parcel/tracking");
        }
        Action::Finish(_) => panic!("expected a request"),
    }
    let mut replies = cj_replies();
    let action = t.receive(replies.remove(0));
    match action {
        Action::Send(q) => {
            assert_eq!(q.method, Method::Post);
            assert_eq!(q.url, "https://www.cjlogistics.com/ko/tool/parcel/tracking-detail");
            assert_eq!(q.headers, vec![("Cookie".to_string(), "JSESSIONID=abc;lang=ko".to_string())]);
            assert_eq!(
                q.form,
                vec![
                    ("paramInvcNo".to_string(), "1234567890".to_string()),
                    ("_csrf".to_string(), "tok-1".to_string())
                ]
            );
        }
        Action::Finish(_) => panic!("expected the query"),
    }
}

#[test]
fn cj_missing_token_is_a_parsing_error() {
    let tracker = DeliveryTracker::new();
    let r = tracker.resolve_with("kr.cjlogistics", "1234567890", vec![reply("<html></html>")]);
    assert!(matches!(r, Some(Err(TrackingError::ParsingError(_)))));
}

#[test]
fn cj_empty_result_list_means_unknown_number() {
    let tracker = DeliveryTracker::new();
    let detail = r#"{"parcelResultMap": {"resultList": []}, "parcelDetailResultMap": {"resultList": []}}"#;
    let r = tracker.resolve_with("kr.cjlogistics", "1234567890", vec![reply(CJ_PAGE), reply(detail)]);
    assert_eq!(r.unwrap().unwrap_err(), TrackingError::NotExistsTrackingNumber);
}

#[test]
fn cj_reply_that_is_not_json_is_a_request_failure() {
    let tracker = DeliveryTracker::new();
    let r = tracker.resolve_with("kr.cjlogistics", "1234567890", vec![reply(CJ_PAGE), reply("<html>")]);
    assert!(matches!(r, Some(Err(TrackingError::RequestFailed(_)))));
}

#[test]
fn transport_failure_is_a_request_failure() {
    let tracker = DeliveryTracker::new();
    let r = tracker.resolve_with("kr.epost", "1234567890123", vec![Err("timeout".to_string())]);
    assert_eq!(r.unwrap().unwrap_err(), TrackingError::RequestFailed("timeout".to_string()));
}

#[test]
fn replies_running_out_leave_it_open() {
    let tracker = DeliveryTracker::new();
    assert!(tracker.resolve_with("kr.cjlogistics", "1234567890", vec![reply(CJ_PAGE)]).is_none());
}

#[test]
fn same_replies_same_outcome() {
    let tracker = DeliveryTracker::new();
    let a = success(tracker.resolve_with("kr.cjlogistics", "1234567890", cj_replies()));
    let b = success(tracker.resolve_with("kr.cjlogistics", "1234567890", cj_replies()));
    assert_eq!(format!("{:?}", a), format!("{:?}", b));
    let mut more = cj_replies();
    more.push(reply("ignored"));
    let c = success(tracker.resolve_with("kr.cjlogistics", "1234567890", more));
    assert_eq!(format!("{:?}", a), format!("{:?}", c));
}

#[test]
fn cupost_hands_over_to_cj() {
    let tracker = DeliveryTracker::new();
    let mut replies = vec![reply("<html><body><iframe src=\"x\"></iframe></body></html>")];
    replies.extend(cj_replies());
    let broker = success(tracker.resolve_with("kr.cupost", "1234567890", replies));
    let carrier = success(tracker.resolve_with("kr.cjlogistics", "1234567890", cj_replies()));
    assert_eq!(broker.id, "kr.cupost");
    assert_eq!(broker.name, "CU 편의점택배");
    assert_eq!(format!("{:?}", broker.tracks), format!("{:?}", carrier.tracks));
    assert_eq!(broker.is_delivered, carrier.is_delivered);
}

#[test]
fn gspostbox_hands_over_to_cj() {
    let tracker = DeliveryTracker::new();
    let page = "<script>var trackingInfo = {\"code\":200,\"carrierName\":\"CJ대한통운\"};</script>";
    let mut replies = vec![reply(page)];
    replies.extend(cj_replies());
    let broker = success(tracker.resolve_with("kr.gspostbox", "1234567890", replies));
    assert_eq!(broker.id, "kr.gspostbox");
    assert_eq!(broker.name, "GS Postbox");
    assert_eq!(broker.tracks.len(), 2);
}

const LOTTE_PAGE: &str = r#"<html><body><div id="contents"><div><div class="contArea">
<p>a</p><p>b</p>
<table class="tblH mt60"><tbody><tr><td>123456789012</td><td>홍*동</td><td>김*수</td><td>배달완료</td></tr></tbody></table>
<table><tbody>
<tr><td>배달 완료</td><td>2021-03-02 15:30</td><td> 서울 </td><td>배달  완료.(기사)</td></tr>
<tr><td>상품 이동중</td><td>--:--</td><td>대전</td><td>이동</td></tr>
<tr><td>상품접수</td><td>2021-03-01 10:00</td><td>부산</td><td>접수</td></tr>
</tbody></table>
</div></div></div></body></html>"#;

#[test]
fn newest_first_pages_come_out_oldest_first() {
    let tracker = DeliveryTracker::new();
    let info = success(tracker.resolve_with("kr.lotte", "123456789012", vec![reply(LOTTE_PAGE)]));
    assert_eq!(info.tracking_number, "123456789012");
    assert!(info.is_delivered);
    assert_eq!(info.tracks.len(), 2);
    assert_eq!(info.tracks[0].time, at(2021, 3, 1, 10, 0));
    assert_eq!(info.tracks[0].state, StateType::AtPickup);
    assert_eq!(info.tracks[1].state, StateType::Delivered);
    assert_eq!(info.tracks[1].message.as_deref(), Some("배달 완료. (기사)"));
    assert_eq!(info.tracks[1].location.as_deref(), Some("서울"));
    for w in info.tracks.windows(2) {
        let (a, b) = (w[0].time, w[1].time);
        assert!((a.year, a.month, a.day, a.hour, a.minute, a.second) <= (b.year, b.month, b.day, b.hour, b.minute, b.second));
    }
}

#[test]
fn marker_means_unknown_number() {
    let tracker = DeliveryTracker::new();
    let r = tracker.resolve_with("kr.lotte", "123456789012", vec![reply("<p>운송장이 등록되지 않았거나 ...</p>")]);
    assert_eq!(r.unwrap().unwrap_err(), TrackingError::NotExistsTrackingNumber);
}

#[test]
fn unreadable_time_is_a_parsing_error() {
    let tracker = DeliveryTracker::new();
    let page = LOTTE_PAGE.replace("2021-03-01 10:00", "yesterday");
    let r = tracker.resolve_with("kr.lotte", "123456789012", vec![reply(&page)]);
    assert!(matches!(r, Some(Err(TrackingError::ParsingError(_)))));
}

#[test]
fn error_status_codes() {
    assert_eq!(TrackingError::RequestFailed(String::new()).status_code(), 1);
    assert_eq!(TrackingError::WrongTrackingNumber(String::new()).status_code(), 2);
    assert_eq!(TrackingError::NotExistsTrackingNumber.status_code(), 3);
    assert_eq!(TrackingError::ParsingError(String::new()).status_code(), 4);
}

const KYOUNGDONG: &str = r#"{"result": "suc",
 "items": [{"reg_date": "2021-03-02 09:00:00.0", "stat": "배송완료", "location": "대구"},
           {"reg_date": "2021-03-01 18:00:00.0", "stat": "접수", "location": "서울"}],
 "info": {"barcode": "1234567890123", "send_name": "홍*동", "branch_start": "서울",
          "re_name": "김*수", "branch_end": "대구", "prod": "상자", "rec_dt": "2021-03-02"}}"#;

#[test]
fn json_events_are_sorted_by_time() {
    let tracker = DeliveryTracker::new();
    let info = success(tracker.resolve_with("kr.kyoungdong", "1234567890123", vec![reply(KYOUNGDONG)]));
    assert_eq!(info.sender.as_deref(), Some("홍*동 (서울)"));
    assert!(info.is_delivered);
    assert_eq!(info.tracks[0].time, Timestamp { year: 2021, month: 3, day: 1, hour: 18, minute: 0, second: 0 });
    assert_eq!(info.tracks[1].state, StateType::Delivered);
}

#[test]
fn kyoungdong_failure_flag() {
    let tracker = DeliveryTracker::new();
    let r = tracker.resolve_with("kr.kyoungdong", "1234567890123", vec![reply(r#"{"result":"fail"}"#)]);
    assert_eq!(r.unwrap().unwrap_err(), TrackingError::NotExistsTrackingNumber);
}
