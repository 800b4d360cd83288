//! Tests of the bridge registry: topic-based dispatch to the right module
//! codec, dropping of unknown or malformed topics, and strict in-order
//! processing of back-to-back frames.

use coffee_maker_driver::registry::ModuleStatus;
use coffee_maker_driver::registry::Registry;

#[test]
fn dispatch_routes_to_coffee_feeder() {
    let registry = Registry::new();
    match registry.dispatch("coffee_feeder/get", "@COF0000062010009F#") {
        Some(ModuleStatus::CoffeeFeeder(out)) => {
            assert_eq!(out.state, 2);
            assert_eq!(out.water_level, 2);
        },
        other => panic!("expected a coffee feeder record, got {:?}", other),
    }
}

#[test]
fn dispatch_routes_each_module() {
    let registry = Registry::new();
    assert!(matches!(
        registry.dispatch("capsule_feeder/get", "@CAP0000112095850135490#"),
        Some(ModuleStatus::CapsuleFeeder(_))
    ));
    assert!(matches!(
        registry.dispatch("cup_holder/get", "@CUP00001610001300100-0123A8#"),
        Some(ModuleStatus::CupHolder(_))
    ));
    assert!(matches!(
        registry.dispatch("tank/get", "@TNK00001600000000005000099E#"),
        Some(ModuleStatus::Tank(_))
    ));
    assert!(matches!(
        registry.dispatch("pdu/get", "@PDU0000161000110020000100AA#"),
        Some(ModuleStatus::Pdu(_))
    ));
    assert!(matches!(
        registry.dispatch("light/get", "@LIG000001390#"),
        Some(ModuleStatus::Light(_))
    ));
}

#[test]
fn dispatch_drops_unknown_namespace() {
    let registry = Registry::new();
    assert!(registry.dispatch("grinder/get", "@COF0000062010009F#").is_none());
    assert!(registry.dispatch("", "@COF0000062010009F#").is_none());
}

#[test]
fn dispatch_drops_malformed_topic_shape() {
    let registry = Registry::new();
    assert!(registry.dispatch("coffee_feeder/set", "@COF0000062010009F#").is_none());
    assert!(registry.dispatch("coffee_feeder", "@COF0000062010009F#").is_none());
    assert!(registry.dispatch("coffee_feeder/get/extra", "@COF0000062010009F#").is_none());
}

#[test]
fn dispatch_drops_frame_on_wrong_module_topic() {
    // A valid coffee feeder frame on the tank's topic fails the tank's
    // length check and is dropped.
    let registry = Registry::new();
    assert!(registry.dispatch("tank/get", "@COF0000062010009F#").is_none());
}

#[test]
fn dispatch_rejects_short_pdu_frame() {
    let registry = Registry::new();
    assert!(registry.dispatch("pdu/get", "@PDU000016100011002000100AA#").is_none());
}

#[test]
fn back_to_back_frames_dispatch_in_order() {
    // Two rapid tank frames are each dispatched and decoded strictly in
    // arrival order, each producing its own independent record.
    let registry = Registry::new();
    let first = registry.dispatch("tank/get", "@TNK00001600000000005000099E#");
    let second = registry.dispatch("tank/get", "@TNK00001600000000007000099C#");
    match (first, second) {
        (Some(ModuleStatus::Tank(a)), Some(ModuleStatus::Tank(b))) => {
            assert_eq!(a.water_quantity, 5);
            assert_eq!(b.water_quantity, 7);
            assert_eq!(a.waste_quantity, 9);
            assert_eq!(b.waste_quantity, 9);
        },
        other => panic!("expected two tank records, got {:?}", other),
    }
}
