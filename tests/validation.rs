use delivery_tracker::couriers::cainiao::Cainiao;
use delivery_tracker::couriers::cjlogistics::Cjlogistics;
use delivery_tracker::couriers::epost::Epost;
use delivery_tracker::couriers::epostems::EpostEMS;
use delivery_tracker::couriers::hanjin::Hanjin;
use delivery_tracker::couriers::lotte::Lotte;
use delivery_tracker::couriers::CourierType;
use delivery_tracker::error::TrackingError;
use delivery_tracker::registry::DeliveryTracker;
use delivery_tracker::session::Action;

#[test]
fn epost_rejects_twelve_digits() {
    assert!(!Epost::validate("123456789012"));
    assert!(Epost::validate("1234567890123"));
}

#[test]
fn epost_twelve_digits_fail_before_any_request() {
    let tracker = DeliveryTracker::new();
    let (_, action) = tracker.track("kr.epost", "123456789012").unwrap();
    match action {
        Action::Finish(Err(TrackingError::WrongTrackingNumber(hint))) => {
            assert_eq!(hint, "숫자 13자리")
        }
        Action::Finish(_) => panic!("expected a format error"),
        Action::Send(_) => panic!("no request may be made"),
    }
}

#[test]
fn numeric_couriers_check_length_and_digits() {
    assert!(Cjlogistics::validate("1234567890"));
    assert!(Cjlogistics::validate("123456789012"));
    assert!(!Cjlogistics::validate("12345678901"));
    assert!(!Cjlogistics::validate("12345a7890"));
    assert!(!Cjlogistics::validate("+234567890"));
    assert!(!Cjlogistics::validate(""));
    assert!(Hanjin::validate("12345678901234"));
    assert!(!Hanjin::validate("1234567890123"));
    assert!(Lotte::validate("1234567890123"));
    assert!(!Lotte::validate("１２３４５６７８９０"));
}

#[test]
fn every_courier_accepts_its_documented_format() {
    let samples = [
        (CourierType::Cjlogistics, "1234567890"),
        (CourierType::Epost, "1234567890123"),
        (CourierType::EpostEMS, "EE123456789KR"),
        (CourierType::Hanjin, "123456789012"),
        (CourierType::Logen, "12345678901"),
        (CourierType::Lotte, "123456789012"),
        (CourierType::Cupost, "12345678901"),
        (CourierType::Gspostbox, "123456789012"),
        (CourierType::Chunil, "12345678901"),
        (CourierType::Daesin, "1234567890123"),
        (CourierType::IlyangLogis, "1234567890"),
        (CourierType::Kyoungdong, "1234567890123"),
        (CourierType::Warpex, "123456789012"),
        (CourierType::Fedex, "123456789012"),
        (CourierType::Cainiao, "LP00123456789012"),
    ];
    for (courier, number) in samples {
        assert!(courier.validate(number), "{} should accept {}", courier.id(), number);
        assert!(!courier.validate("12"), "{} should reject 12", courier.id());
    }
}

#[test]
fn pattern_formats() {
    assert!(EpostEMS::validate("EE123456789KR"));
    assert!(!EpostEMS::validate("EE12345678KR"));
    assert!(Cainiao::validate("1234567890123"));
    assert!(Cainiao::validate("LP00123456789012"));
    assert!(!Cainiao::validate("123456789012"));
    assert!(!Cainiao::validate("12345678901234"));
    assert!(!Cainiao::validate("LP0012345678901A"));
    assert!(!Cainiao::validate("xxLP00123456789012"));
    assert!(!EpostEMS::validate("EE123456789KRX"));
    assert!(!EpostEMS::validate("1E123456789KR"));
    assert!(!EpostEMS::validate("E_123456789KR"));
    assert!(EpostEMS::validate("ee123456789kr"));
}
