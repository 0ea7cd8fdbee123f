use vstd::prelude::*;

verus! {

/// Shared lifecycle stage that a courier's raw status text is classified into.
#[derive(Clone, Copy, PartialEq, Eq, Structural, Debug)]
pub enum StateType {
    /// The shipment was registered but not handed over yet.
    InformationReceived,
    /// The courier picked the parcel up.
    AtPickup,
    /// The parcel left a hub.
    InTransitSent,
    /// The parcel arrived at a hub.
    InTransitReceived,
    /// The parcel is moving between hubs.
    InTransit,
    /// The parcel is on its last leg to the receiver.
    OutForDelivery,
    /// The parcel was handed to the receiver.
    Delivered,
    /// The status text was not recognized.
    Unknown,
}

/// Position of a state in the delivery pipeline; `Unknown` ranks lowest.
pub open spec fn priority(state: StateType) -> nat {
    match state {
        StateType::Unknown => 0,
        StateType::InformationReceived => 1,
        StateType::AtPickup => 2,
        StateType::InTransitSent => 3,
        StateType::InTransitReceived => 4,
        StateType::InTransit => 5,
        StateType::OutForDelivery => 6,
        StateType::Delivered => 7,
    }
}

impl StateType {
    /// The pipeline priority of `state`.
    pub fn get_priority(state: StateType) -> (r: u8)
        ensures
            r as nat == priority(state),
    {
        match state {
            StateType::Unknown => 0,
            StateType::InformationReceived => 1,
            StateType::AtPickup => 2,
            StateType::InTransitSent => 3,
            StateType::InTransitReceived => 4,
            StateType::InTransit => 5,
            StateType::OutForDelivery => 6,
            StateType::Delivered => 7,
        }
    }
}

} // verus!
