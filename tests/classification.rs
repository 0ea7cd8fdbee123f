use delivery_tracker::couriers::cupost::Cupost;
use delivery_tracker::couriers::epost::Epost;
use delivery_tracker::couriers::fedex::Fedex;
use delivery_tracker::couriers::gspostbox::Gspostbox;
use delivery_tracker::couriers::CourierType;
use delivery_tracker::registry::DeliveryTracker;
use delivery_tracker::state::StateType;

#[test]
fn unrecognized_text_is_unknown_for_every_courier() {
    let tracker = DeliveryTracker::new();
    for courier in tracker.list_all() {
        let c = CourierType::get_courier(&courier.id).unwrap();
        for text in ["", "???", "完全に不明", "\u{0}"] {
            assert_eq!(StateType::to_type(c, text), StateType::Unknown);
        }
    }
}

#[test]
fn cj_vocabulary() {
    assert_eq!(StateType::to_type(CourierType::Cjlogistics, "상품인수"), StateType::AtPickup);
    assert_eq!(StateType::to_type(CourierType::Cjlogistics, "배달지도착"), StateType::InTransit);
    assert_eq!(StateType::to_type(CourierType::Cjlogistics, "배달출발"), StateType::OutForDelivery);
    assert_eq!(StateType::to_type(CourierType::Cjlogistics, "배달완료"), StateType::Delivered);
    assert_eq!(StateType::to_type(CourierType::Cjlogistics, "배달완료 "), StateType::Unknown);
}

#[test]
fn substring_rules() {
    assert_eq!(Epost::state_from("배달준비(집배원)"), StateType::OutForDelivery);
    assert_eq!(Epost::state_from("발송"), StateType::InTransitSent);
    assert_eq!(Epost::state_from("도착"), StateType::InTransitReceived);
    assert_eq!(Cupost::state_from("[점포접수] 완료"), StateType::AtPickup);
    assert_eq!(Cupost::state_from("고객 수령"), StateType::Delivered);
    assert_eq!(Gspostbox::state_from("허브 입고"), StateType::InTransitReceived);
    assert_eq!(Gspostbox::state_from("허브 출고"), StateType::InTransitSent);
    assert_eq!(Fedex::state_from("DL"), StateType::Delivered);
    assert_eq!(Fedex::state_from("CC"), StateType::InTransitReceived);
}

#[test]
fn priorities_follow_the_pipeline() {
    let order = [
        StateType::Unknown,
        StateType::InformationReceived,
        StateType::AtPickup,
        StateType::InTransitSent,
        StateType::InTransitReceived,
        StateType::InTransit,
        StateType::OutForDelivery,
        StateType::Delivered,
    ];
    for (i, s) in order.iter().enumerate() {
        assert_eq!(StateType::get_priority(*s) as usize, i);
    }
}
