use delivery_tracker::couriers::cainiao::Cainiao;
use delivery_tracker::couriers::daesin::Daesin;
use delivery_tracker::couriers::epost::Epost;
use delivery_tracker::couriers::epostems::EpostEMS;
use delivery_tracker::couriers::fedex::Fedex;
use delivery_tracker::couriers::gspostbox::Gspostbox;
use delivery_tracker::couriers::warpex::Warpex;
use delivery_tracker::error::TrackingError;
use delivery_tracker::state::StateType;
use delivery_tracker::status::DeliveryStatus;
use delivery_tracker::time::Timestamp;
use delivery_tracker::transport::Method;

fn at(year: i32, month: u8, day: u8, hour: u8, minute: u8) -> Timestamp {
    Timestamp { year, month, day, hour, minute, second: 0 }
}

fn ok(r: Result<DeliveryStatus, TrackingError>) -> DeliveryStatus {
    match r {
        Ok(info) => info,
        Err(e) => panic!("expected a result, got {:?}", e),
    }
}

const EMS_PAGE: &str = "<html><body><div id=\"print\">\
<table><tbody><tr><th>EE123456789KR</th><td>a</td><td>b</td><td>c</td><td>배달완료</td></tr></tbody></table>\
<table class=\"table_col detail_off ma_t_5\"><tbody>\
<tr><td>2021.03.01 10:00</td><td> 접수 </td><td> 인천 </td></tr>\
</tbody></table></div></body></html>";

#[test]
fn ems_page() {
    let info = ok(EpostEMS::parse("EE123456789KR", EMS_PAGE));
    assert_eq!(info.tracking_number, "EE123456789KR");
    assert!(info.is_delivered);
    assert_eq!(info.sender, None);
    assert_eq!(info.tracks.len(), 1);
    assert_eq!(info.tracks[0].status.as_deref(), Some("접수"));
    assert_eq!(info.tracks[0].location.as_deref(), Some("인천"));
    assert_eq!(info.tracks[0].state, StateType::InformationReceived);
    assert_eq!(
        info.url,
        "https://service.epost.go.kr/trace.RetrieveEmsRigiTraceList.comm?POST_CODE=EE123456789KR"
    );
    let q = EpostEMS::request("EE123456789KR");
    assert_eq!(q.method, Method::Get);
    assert_eq!(q.url, info.url);
}

#[test]
fn ems_unknown_number() {
    let r = EpostEMS::parse("EE123456789KR", "<p>배달정보를 찾지 못했습니다</p>");
    assert_eq!(r.unwrap_err(), TrackingError::NotExistsTrackingNumber);
}

const EPOST_PAGE: &str = "<html><body>\
<div id=\"print\"><table><tbody><tr><th>1234567890123</th><td>홍*동<br>2021.03.01</td>\
<td> 김*수 </td><td>x</td><td>y</td><td>배달완료</td></tr></tbody></table></div>\
<table id=\"processTable\"><tbody>\
<tr><td>2021.03.02</td><td>09:00</td><td>부산</td><td>배달준비\t</td></tr>\
<tr><td>2021.03.01</td><td>10:00</td><td> 서울중앙\n (02-000) </td><td>  접수 \n (소포)</td></tr>\
</tbody></table></body></html>";

#[test]
fn epost_page() {
    let info = ok(Epost::parse("1234567890123", EPOST_PAGE));
    assert_eq!(info.tracking_number, "1234567890123");
    assert_eq!(info.sender.as_deref(), Some("홍*동"));
    assert_eq!(info.receiver.as_deref(), Some("김*수"));
    assert!(info.is_delivered);
    assert_eq!(info.tracks.len(), 2);
    assert_eq!(info.tracks[0].time, at(2021, 3, 1, 10, 0));
    assert_eq!(info.tracks[0].status.as_deref(), Some("접수"));
    assert_eq!(info.tracks[0].location.as_deref(), Some("서울중앙"));
    assert_eq!(info.tracks[0].state, StateType::InformationReceived);
    assert_eq!(info.tracks[1].status.as_deref(), Some("배달준비"));
    assert_eq!(info.tracks[1].state, StateType::OutForDelivery);
}

#[test]
fn epost_without_sender_cell_is_a_parsing_error() {
    let page = EPOST_PAGE.replace("<br>", " ");
    assert!(matches!(Epost::parse("1234567890123", &page), Err(TrackingError::ParsingError(_))));
}

const DAESIN_PAGE: &str = "<html><body><div id=\"printarea\"><p>1</p><p>2</p>\
<table class=\"depth01 tmar_15 bmar_50\"><tbody><tr><td>보내는분</td><td>홍*동</td></tr>\
<tr><td>받는분</td><td>김*수</td></tr><tr><td>상품</td><td>부품</td></tr></tbody></table>\
<p>4</p><table><tbody>\
<tr><th>구분</th><th>지점</th></tr>\
<tr><td>발송취급점</td><td> 서울 </td><td>x</td><td>2021-03-01 10:00</td><td>2021-03-01 18:00</td><td>출발</td></tr>\
<tr><td>도착취급점</td><td>부산</td><td>x</td><td>2021-03-02 08:00</td><td></td><td>배송완료</td></tr>\
</tbody></table></div></body></html>";

#[test]
fn daesin_branch_rows() {
    let info = ok(Daesin::parse("123456789012", DAESIN_PAGE));
    assert!(info.is_delivered);
    assert_eq!(info.sender.as_deref(), Some("홍*동"));
    assert_eq!(info.product.as_deref(), Some("부품"));
    let states: Vec<StateType> = info.tracks.iter().map(|e| e.state).collect();
    assert_eq!(states, vec![StateType::AtPickup, StateType::InTransitSent, StateType::InTransitReceived]);
    assert_eq!(info.tracks[0].location.as_deref(), Some("[발송취급점] 서울"));
    assert_eq!(info.tracks[1].time, at(2021, 3, 1, 18, 0));
    assert_eq!(info.tracks[2].status.as_deref(), Some("도착"));
}

const WARPEX_PAGE: &str = "<html><body>\
<section><section><div>a</div><div><div class=\"step\"><p><img src=\"/img/step5.png\"></p></div></div></section></section>\
<div class=\"Tdate\"><div><p><span>보내는 분<br>  John |\n Doe </span></p><p><span>받는 분<br> 홍길동 </span></p></div></div>\
<div id=\"history\"><ul>\
<li><span class=\"date\">2021-03-02 PM 03:30:00</span><span class=\"txt\">배송  완료\n 되었습니다</span></li>\
<li><span class=\"date\">2021-03-01 AM 10:00:00</span><span class=\"txt\">접수</span></li>\
</ul></div></body></html>";

#[test]
fn warpex_page() {
    let info = ok(Warpex::parse("123456789012", WARPEX_PAGE));
    assert!(info.is_delivered);
    assert_eq!(info.sender.as_deref(), Some("John Doe"));
    assert_eq!(info.receiver.as_deref(), Some("홍길동"));
    assert_eq!(info.tracks[0].time, at(2021, 3, 1, 10, 0));
    assert_eq!(info.tracks[1].time, at(2021, 3, 2, 15, 30));
    assert_eq!(info.tracks[1].message.as_deref(), Some("배송 완료 되었습니다"));
}

const FEDEX_REPLY: &str = r#"{"TrackPackagesResponse":{"packageList":[{
 "errorList":[{"code":"","message":""}],"isDelivered":true,
 "shipperCity":"MEMPHIS","shipperStateCD":"TN","shipperCntryCD":"US",
 "recipientCity":"SEOUL","recipientStateCD":"","recipientCntryCD":"KR",
 "scanEventList":[
  {"date":"2021-03-02","time":"10:00:00","gmtOffset":"+09:00","status":"Delivered","statusCD":"DL","scanLocation":"SEOUL KR"},
  {"date":"2021-03-01","time":"08:00:00","gmtOffset":"-05:00","status":"Picked up","statusCD":"PU","scanLocation":"MEMPHIS, TN"}]}]}}"#;

#[test]
fn fedex_reply() {
    let info = ok(Fedex::parse("123456789012", FEDEX_REPLY));
    assert!(info.is_delivered);
    assert_eq!(info.sender.as_deref(), Some("MEMPHIS, TN US"));
    assert_eq!(info.receiver.as_deref(), Some("SEOUL, KR"));
    assert_eq!(info.tracks[0].time, at(2021, 3, 1, 22, 0));
    assert_eq!(info.tracks[0].state, StateType::AtPickup);
    assert_eq!(info.tracks[0].message.as_deref(), Some("Picked up"));
    assert_eq!(info.tracks[1].state, StateType::Delivered);
    let q = Fedex::request("123456789012");
    assert_eq!(q.method, Method::Post);
    assert!(q.form[2].1.contains("\"trackingNumber\":\"123456789012\""));
}

#[test]
fn fedex_error_code_means_unknown_number() {
    let r = Fedex::parse(
        "123456789012",
        r#"{"TrackPackagesResponse":{"packageList":[{"errorList":[{"code":"1041","message":"not found"}]}]}}"#,
    );
    assert_eq!(r.unwrap_err(), TrackingError::NotExistsTrackingNumber);
}

#[test]
fn fedex_without_error_code_is_read() {
    let r = Fedex::parse("123456789012", r#"{"TrackPackagesResponse":{"packageList":[{"errorList":[{}]}]}}"#);
    assert!(matches!(r, Err(TrackingError::ParsingError(_))));
}

const GS_PAGE: &str = "<html><script>var trackingInfo = {\"code\":200,\"carrierName\":\"GS\",\
\"serviceName\":\"반값택배\",\"invoiceNo\":\"123456789012\",\"sender\":{\"name\":\"홍*동\"},\
\"receiver\":{\"name\":\"김*수\"},\"goodsName\":\"옷\",\"latestTrackingDetail\":{\"transKind\":\"고객전달\"},\
\"trackingDetails\":[{\"transTime\":\"2021-03-01T10:00:00\",\"transKind\":\"점포접수\",\"transWhere\":\"A점\"},\
{\"transTime\":\"2021-03-01T10:00:00\",\"transKind\":\"고객전달\",\"transWhere\":\"B점\"},\
{\"transTime\":\"2021-03-01T09:00:00\",\"transKind\":\"택배  인수\",\"transWhere\":\"허브\"}]};</script></html>";

#[test]
fn gspostbox_orders_ties_by_stage() {
    let info = ok(Gspostbox::parse("123456789012", GS_PAGE).unwrap());
    assert_eq!(info.name, "GS Postbox 반값택배");
    assert!(info.is_delivered);
    let states: Vec<StateType> = info.tracks.iter().map(|e| e.state).collect();
    assert_eq!(states, vec![StateType::AtPickup, StateType::InformationReceived, StateType::Delivered]);
    assert_eq!(info.tracks[0].status.as_deref(), Some("택배 인수"));
}

#[test]
fn gspostbox_page_without_data_is_a_parsing_error() {
    let r = Gspostbox::parse("123456789012", "<html></html>").unwrap();
    assert!(matches!(r, Err(TrackingError::ParsingError(_))));
}

const CAINIAO_PAGE: &str = "<html><body><textarea id=\"waybill_list_val_box\">\
{&amp;quot;data&amp;quot;:[{&amp;quot;mailNo&amp;quot;:&amp;quot;LP00123456789012&amp;quot;,\
&amp;quot;statusDesc&amp;quot;:&amp;quot;Delivered&amp;quot;,&amp;quot;originCountry&amp;quot;:&amp;quot;China&amp;quot;,\
&amp;quot;destCountry&amp;quot;:&amp;quot;Korea&amp;quot;,&amp;quot;section2&amp;quot;:{&amp;quot;detailList&amp;quot;:[\
{&amp;quot;time&amp;quot;:&amp;quot;2021-03-02 10:00:00&amp;quot;,&amp;quot;desc&amp;quot;:&amp;quot;Delivered&amp;quot;},\
{&amp;quot;time&amp;quot;:&amp;quot;2021-03-01 10:00:00&amp;quot;,&amp;quot;desc&amp;quot;:&amp;quot;Departed&amp;quot;}]}}]}\
</textarea></body></html>";

#[test]
fn cainiao_embedded_data() {
    let info = ok(Cainiao::parse("LP00123456789012", CAINIAO_PAGE));
    assert!(info.is_delivered);
    assert_eq!(info.sender.as_deref(), Some("China"));
    assert_eq!(info.tracks[0].status.as_deref(), Some("Departed"));
    assert_eq!(info.tracks[0].state, StateType::Unknown);
    assert_eq!(info.tracks[1].state, StateType::Delivered);
}

#[test]
fn cainiao_error_code_means_unknown_number() {
    let page = "<div id=\"waybill_list_val_box\">{\"data\":[{\"errorCode\":\"NOT_FOUND\"}]}</div>";
    assert_eq!(Cainiao::parse("LP00123456789012", page).unwrap_err(), TrackingError::NotExistsTrackingNumber);
}
