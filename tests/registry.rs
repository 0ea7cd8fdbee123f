use delivery_tracker::couriers::CourierType;
use delivery_tracker::registry::DeliveryTracker;

#[test]
fn eleven_digit_candidates_in_registration_order() {
    let tracker = DeliveryTracker::new();
    let found: Vec<String> = tracker
        .get_support_couriers("12345678901")
        .into_iter()
        .map(|c| c.id)
        .collect();
    let expected: Vec<String> = tracker
        .list_all()
        .into_iter()
        .filter(|c| CourierType::get_courier(&c.id).unwrap().validate("12345678901"))
        .map(|c| c.id)
        .collect();
    assert_eq!(found, vec!["kr.logen", "kr.cupost", "kr.chunil"]);
    assert_eq!(found, expected);
}

#[test]
fn candidates_carry_names() {
    let tracker = DeliveryTracker::new();
    let found = tracker.get_support_couriers("EE123456789KR");
    assert_eq!(found.len(), 1);
    assert_eq!(found[0].id, "kr.epostems");
    assert_eq!(found[0].name, "우체국 EMS");
    assert!(tracker.get_support_couriers("").is_empty());
}

#[test]
fn all_couriers_are_listed_once() {
    let tracker = DeliveryTracker::new();
    let all = tracker.list_all();
    assert_eq!(all.len(), 15);
    assert_eq!(all[0].id, "kr.cjlogistics");
    assert_eq!(all[0].name, "CJ대한통운");
    for c in &all {
        assert_eq!(CourierType::get_courier(&c.id).unwrap().id(), c.id);
    }
}

#[test]
fn unknown_courier_is_unsupported() {
    let tracker = DeliveryTracker::new();
    assert!(CourierType::get_courier("kr.nowhere").is_none());
    assert!(tracker.track("kr.nowhere", "1234567890").is_none());
    assert!(tracker.resolve_with("kr.nowhere", "1234567890", Vec::new()).is_none());
}
