//! Scenario tests of the six module codecs: literal command frames, literal
//! status frames and their decoded records, sign handling, boundary frames
//! and every rejection path.

use coffee_maker_driver::module_msg_converter::Converter;
use coffee_maker_driver::module_msg_converter::capsule_feeder_converter::CapsuleFeederConverter;
use coffee_maker_driver::module_msg_converter::capsule_feeder_converter::CapsuleFeederInput;
use coffee_maker_driver::module_msg_converter::coffee_feeder_converter::CoffeeFeederConverter;
use coffee_maker_driver::module_msg_converter::coffee_feeder_converter::CoffeeFeederInput;
use coffee_maker_driver::module_msg_converter::cup_holder_converter::CupHolderConverter;
use coffee_maker_driver::module_msg_converter::cup_holder_converter::CupHolderInput;
use coffee_maker_driver::module_msg_converter::light_converter::LightConverter;
use coffee_maker_driver::module_msg_converter::light_converter::LightInput;
use coffee_maker_driver::module_msg_converter::pdu_converter::PDUConverter;
use coffee_maker_driver::module_msg_converter::pdu_converter::PDUInput;
use coffee_maker_driver::module_msg_converter::tank_converter::TankConverter;
use coffee_maker_driver::module_msg_converter::tank_converter::TankInput;

#[test]
fn coffee_feeder_encodes_command() {
    let conv = CoffeeFeederConverter::new();
    let frame = conv.ros_2_mqtt(&CoffeeFeederInput { command: 3, value: 7 });
    assert_eq!(frame, "@COF000007030000767#");
    assert_eq!(frame.len(), 20);
}

#[test]
fn encoding_is_deterministic() {
    // Equal inputs yield byte-identical frames, across calls and instances.
    let a = CoffeeFeederConverter::new();
    let b = CoffeeFeederConverter::new();
    let msg = CoffeeFeederInput { command: 9, value: 250 };
    assert_eq!(a.ros_2_mqtt(&msg), a.ros_2_mqtt(&msg));
    assert_eq!(a.ros_2_mqtt(&msg), b.ros_2_mqtt(&msg));
}

#[test]
fn coffee_feeder_decodes_status() {
    let conv = CoffeeFeederConverter::new();
    let out = conv.mqtt_2_ros("@COF0000062010009F#").expect("frame must decode");
    assert_eq!(out.state, 2);
    assert_eq!(out.capsule, 0);
    assert_eq!(out.water_level, 2);
    assert_eq!(out.water_filling, 2);
    assert_eq!(out.coffee_feeder, 3);
}

#[test]
fn coffee_feeder_decodes_all_zero_frame() {
    // An all-zero frame with a closing checksum gives the all-zero record.
    let conv = CoffeeFeederConverter::new();
    let out = conv.mqtt_2_ros("@COF000006000000A2#").expect("frame must decode");
    assert_eq!(out.state, 0);
    assert_eq!(out.capsule, 0);
    assert_eq!(out.water_level, 0);
    assert_eq!(out.water_filling, 0);
    assert_eq!(out.coffee_feeder, 0);
}

#[test]
fn coffee_feeder_rejects_nondigit_state() {
    let conv = CoffeeFeederConverter::new();
    assert!(conv.mqtt_2_ros("@COF000006A0100090#").is_none());
}

#[test]
fn coffee_feeder_rejects_payload_over_16_bits() {
    // 99999 does not fit 16 bits: the decode aborts.
    let conv = CoffeeFeederConverter::new();
    assert!(conv.mqtt_2_ros("@COF00000629999973#").is_none());
}

#[test]
fn coffee_feeder_rejects_nondigit_payload() {
    let conv = CoffeeFeederConverter::new();
    assert!(conv.mqtt_2_ros("@COF00000620100Z75#").is_none());
}

#[test]
fn coffee_feeder_rejects_open_checksum() {
    let conv = CoffeeFeederConverter::new();
    assert!(conv.mqtt_2_ros("@COF0000062010009E#").is_none());
}

#[test]
fn checksum_closure_does_not_detect_transposition() {
    // The acceptance test is solely a modulo-256 closure over the body and
    // the checksum byte; transposing two body characters leaves the sum
    // unchanged, so the corrupted frame still validates and decodes.  This
    // pins the weak check down as wire behaviour rather than fixing it.
    let conv = CoffeeFeederConverter::new();
    let out = conv.mqtt_2_ros("@COF0000060210009F#").expect("closure still holds");
    assert_eq!(out.state, 0);
    assert_eq!(out.capsule, 0);
    assert_eq!(out.water_level, 2);
    assert_eq!(out.water_filling, 0);
    assert_eq!(out.coffee_feeder, 2);
}

#[test]
fn capsule_feeder_encodes_command() {
    let conv = CapsuleFeederConverter::new();
    assert_eq!(
        conv.ros_2_mqtt(&CapsuleFeederInput { command: 1, value: 2 }),
        "@CAP000007010000272#"
    );
}

#[test]
fn capsule_feeder_decodes_status() {
    let conv = CapsuleFeederConverter::new();
    let out = conv.mqtt_2_ros("@CAP0000112095850135490#").expect("frame must decode");
    assert_eq!(out.state, 2);
    assert_eq!(out.capsule_status_list, vec![1, 0, 3, 1, 1, 1]);
    assert!(out.capsule_detect);
    assert_eq!(out.capsule_slot_pos, 10);
    assert_eq!(out.capsule_selector_pos, 4);
    assert_eq!(out.home_detect, 1);
}

#[test]
fn capsule_feeder_rejects_wrong_length() {
    let conv = CapsuleFeederConverter::new();
    // A 19-character coffee feeder frame is not a 24-character capsule one.
    assert!(conv.mqtt_2_ros("@COF0000062010009F#").is_none());
}

#[test]
fn cup_holder_encodes_command() {
    let conv = CupHolderConverter::new();
    assert_eq!(
        conv.ros_2_mqtt(&CupHolderInput { command: 5, value: 10 }),
        "@CUP00000705000105B#"
    );
}

#[test]
fn cup_holder_weight_negative_sign() {
    // A leading '-' on the weight field negates the parsed magnitude.
    let conv = CupHolderConverter::new();
    let out = conv.mqtt_2_ros("@CUP00001610001300100-0123A8#").expect("frame must decode");
    assert_eq!(out.state, 1);
    assert!(out.coffee_detect);
    assert!(!out.cup_detect);
    assert!(out.water_detect);
    assert!(out.ice_detect);
    assert!(!out.cup_pump);
    assert_eq!(out.cup_stock, 0);
    assert_eq!(out.position, 100);
    assert_eq!(out.weight, -123);
}

#[test]
fn cup_holder_weight_positive_sign() {
    // A leading '0' on the same magnitude decodes to the positive value.
    let conv = CupHolderConverter::new();
    let out = conv.mqtt_2_ros("@CUP0000161000130010000123A5#").expect("frame must decode");
    assert_eq!(out.weight, 123);
    assert_eq!(out.position, 100);
}

#[test]
fn cup_holder_rejects_position_over_byte() {
    // The position counter is read through the byte-wide primitive; a value
    // past 255 aborts the decode.
    let conv = CupHolderConverter::new();
    assert!(conv.mqtt_2_ros("@CUP0000161000000030000001AC#").is_none());
}

#[test]
fn tank_encodes_command() {
    let conv = TankConverter::new();
    assert_eq!(
        conv.ros_2_mqtt(&TankInput { command: 2, value: 3 }),
        "@TNK000007020000357#"
    );
}

#[test]
fn tank_decodes_status() {
    let conv = TankConverter::new();
    let out = conv.mqtt_2_ros("@TNK00001600000000005000099E#").expect("frame must decode");
    assert_eq!(out.state, 0);
    assert_eq!(out.water_quantity, 5);
    assert_eq!(out.waste_quantity, 9);
}

#[test]
fn pdu_encodes_command() {
    let conv = PDUConverter::new();
    assert_eq!(
        conv.ros_2_mqtt(&PDUInput { command: 1, value: 1 }),
        "@PDU00000701000015E#"
    );
}

#[test]
fn pdu_decodes_status() {
    let conv = PDUConverter::new();
    let out = conv.mqtt_2_ros("@PDU0000161000110020000100AA#").expect("frame must decode");
    assert_eq!(out.state, 1);
    assert!(out.coffee_pwr);
    assert!(out.capsule_pwr);
    assert!(!out.cup_pwr);
    assert!(out.tank_pwr);
    assert!(!out.light_pwr);
    assert_eq!(out.voltage, 200);
    assert_eq!(out.current, 100);
}

#[test]
fn pdu_rejects_short_frame() {
    // One byte short of the expected 29: validation fails, nothing decodes.
    let conv = PDUConverter::new();
    let short = "@PDU000016100011002000100AA#";
    assert_eq!(short.len(), 28);
    assert!(conv.mqtt_2_ros(short).is_none());
}

#[test]
fn light_encodes_command() {
    let conv = LightConverter::new();
    assert_eq!(
        conv.ros_2_mqtt(&LightInput { command: 1, value: 0 }),
        "@LIG00000701000006C#"
    );
}

#[test]
fn light_decodes_state_only_status() {
    let conv = LightConverter::new();
    let out = conv.mqtt_2_ros("@LIG000001390#").expect("frame must decode");
    assert_eq!(out.state, 3);
}

#[test]
fn handle_message_requires_exact_get_topic() {
    let conv = CoffeeFeederConverter::new();
    let frame = "@COF0000062010009F#";
    assert!(conv.handle_mqtt_message("coffee_feeder/get", frame).is_some());
    assert!(conv.handle_mqtt_message("coffee_feeder/set", frame).is_none());
    assert!(conv.handle_mqtt_message("coffee_feeder/get/extra", frame).is_none());
    assert!(conv.handle_mqtt_message("tank/get", frame).is_none());
}
