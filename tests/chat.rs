use delivery_tracker::chat::{create_info_header_message, escape, Command};
use delivery_tracker::status::DeliveryStatus;

#[test]
fn command_with_bot_name_and_arguments() {
    let cmd = Command::new("/track@deliverybot kr.cjlogistics  1234567890");
    assert_eq!(cmd.label, "/track");
    assert_eq!(cmd.username.as_deref(), Some("deliverybot"));
    let mut args = cmd.args();
    assert_eq!(args.next().as_deref(), Some("kr.cjlogistics"));
    assert_eq!(args.next().as_deref(), Some("1234567890"));
    assert_eq!(args.next(), None);
    assert_eq!(args.next(), None);
}

#[test]
fn bare_command() {
    let cmd = Command::new("/start");
    assert_eq!(cmd.label, "/start");
    assert_eq!(cmd.username, None);
    assert_eq!(cmd.rest, "");
    assert_eq!(cmd.args().next(), None);
}

#[test]
fn escapes_reserved_characters() {
    assert_eq!(escape("a.b (c)!"), "a\\.b \\(c\\)\\!");
    assert_eq!(escape("택배"), "택배");
    assert_eq!(escape(""), "");
}

#[test]
fn info_header_escapes_parties() {
    let info = DeliveryStatus {
        id: "kr.cjlogistics".to_string(),
        name: "CJ대한통운".to_string(),
        url: String::new(),
        tracking_number: "1234567890".to_string(),
        is_delivered: false,
        sender: Some("홍*동".to_string()),
        receiver: None,
        product: Some("책.".to_string()),
        tracks: Vec::new(),
    };
    assert_eq!(
        create_info_header_message(&info),
        "📦 *CJ대한통운* 1234567890\n홍\\*동 ▶️ 정보 없음 \\(책\\.\\)"
    );
}
