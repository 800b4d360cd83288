//! Tests of the generic codec engine: checksum computation and closure,
//! frame validation, the bit primitives and command-frame assembly.

use coffee_maker_driver::module_msg_converter::coffee_feeder_converter::CoffeeFeederConverter;
use coffee_maker_driver::module_msg_converter::ModuleMsgConverter;
use coffee_maker_driver::module_struct::ModuleDataField;
use coffee_maker_driver::module_struct::ModuleHead;
use coffee_maker_driver::module_struct::ModuleInputFormat;
use coffee_maker_driver::module_struct::ModuleOutputFormat;
use coffee_maker_driver::module_struct::ModuleTail;

fn coffee_engine() -> ModuleMsgConverter {
    CoffeeFeederConverter::new().base_converter
}

fn hand_built_input_format() -> ModuleInputFormat {
    ModuleInputFormat::new(
        ModuleHead::new(
            ModuleDataField::new(4, 0, String::from("@COF")),
            ModuleDataField::new(2, 4, String::from("00")),
            ModuleDataField::new(2, 6, String::from("00")),
            ModuleDataField::new(2, 8, String::from("07")),
        ),
        ModuleDataField::new(2, 10, String::from("00")),
        ModuleDataField::new(5, 12, String::from("00000")),
        ModuleTail::new(
            ModuleDataField::new(2, 17, String::from("00")),
            ModuleDataField::new(1, 19, String::from("#")),
        ),
    )
}

#[test]
fn checksum_of_known_body() {
    let engine = coffee_engine();
    assert_eq!(engine.calculate_lrc_from_string("@COF0000070300007"), "67");
    assert_eq!(engine.calculate_lrc_from_string(""), "00");
}

#[test]
fn checksum_round_trip_closes() {
    // For a body b, the frame b + checksum(b) + terminator is accepted.
    let engine = coffee_engine();
    let body = "@COF000006201000";
    let lrc = engine.calculate_lrc_from_string(body);
    let frame = format!("{}{}{}", body, lrc, "#");
    assert!(engine.validate_get_str(&frame));
}

#[test]
fn validate_rejects_wrong_length() {
    let engine = coffee_engine();
    // One char short and one char long of the 19-character status layout.
    assert!(!engine.validate_get_str("@COF000006201009F#"));
    assert!(!engine.validate_get_str("@COF00000620100009F#"));
    assert!(!engine.validate_get_str(""));
}

#[test]
fn validate_rejects_open_checksum() {
    let engine = coffee_engine();
    // Correct length, checksum characters that do not close the sum.
    assert!(!engine.validate_get_str("@COF0000062010009E#"));
}

#[test]
fn validate_rejects_lowercase_checksum_chars() {
    let engine = coffee_engine();
    // The closure test reads uppercase hex only, as transmitted by the wire.
    assert!(!engine.validate_get_str("@COF0000062010009f#"));
}

#[test]
fn validate_accepts_only_closing_frames() {
    let engine = coffee_engine();
    assert!(engine.validate_get_str("@COF0000062010009F#"));
}

#[test]
fn payload_to_binary_string_reverses_bit_order() {
    let engine = coffee_engine();
    // 1000 is 0000001111101000 in binary; the wire string is its reversal.
    assert_eq!(engine.payload_to_binary_string("01000"), "0001011111000000");
    assert_eq!(engine.payload_to_binary_string("00000"), "0000000000000000");
    assert_eq!(engine.payload_to_binary_string("00001"), "1000000000000000");
}

#[test]
fn bits_round_trip_reconstructs_value() {
    // Rendering a value and reading the whole 16-character string back is
    // the identity, for values a byte can hold.
    let engine = coffee_engine();
    for n in [0u32, 1, 2, 7, 100, 200, 255] {
        let field = format!("{:05}", n);
        let bin = engine.payload_to_binary_string(&field);
        assert_eq!(engine.binary_string_to_int(&bin) as u32, n);
    }
}

#[test]
fn binary_slices_read_bit_fields() {
    let engine = coffee_engine();
    let bin = engine.payload_to_binary_string("01000");
    assert_eq!(engine.binary_string_to_int(&bin[0..2]), 0);
    assert_eq!(engine.binary_string_to_int(&bin[2..4]), 2);
    assert_eq!(engine.binary_string_to_int(&bin[4..6]), 2);
    assert_eq!(engine.binary_string_to_int(&bin[8..12]), 3);
}

#[test]
fn create_module_set_message_zero_pads() {
    let engine = coffee_engine();
    assert_eq!(engine.create_module_set_message(&3, &7), "@COF0000070300007");
    assert_eq!(engine.create_module_set_message(&0, &0), "@COF0000070000000");
    // A command too wide for its 2-character slot keeps all of its digits.
    assert_eq!(engine.create_module_set_message(&255, &7), "@COF00000725500007");
}

#[test]
fn pkg_lengths_follow_layout() {
    let engine = coffee_engine();
    assert_eq!(engine.input_pkg_length(), 20);
    assert_eq!(engine.output_pkg_length(), 19);
}

#[test]
fn payload_slice_strips_head_and_tail() {
    let engine = coffee_engine();
    assert_eq!(
        engine.payload_from_full_output_format_string("@COF0000062010009F#"),
        "201000"
    );
}

#[test]
fn set_command_and_value_overwrite_slots() {
    let mut fmt = hand_built_input_format();
    fmt.set_command(3);
    fmt.set_value(12);
    assert_eq!(fmt.command.string, "3");
    assert_eq!(fmt.value.string, "12");
    assert_eq!(fmt.header().string, "@COF");
    assert_eq!(fmt.package().string, "00");
    assert_eq!(fmt.setting().string, "00");
    assert_eq!(fmt.length().string, "07");
    assert_eq!(fmt.lrc().string, "00");
    assert_eq!(fmt.end().string, "#");
}

#[test]
fn hand_built_engine_matches_module_engine() {
    // The engine is data-driven: building the same layouts by hand gives
    // byte-identical encoding.
    let fmt = hand_built_input_format();
    let out = ModuleOutputFormat::new(
        ModuleHead::new(
            ModuleDataField::new(4, 0, String::from("@COF")),
            ModuleDataField::new(2, 4, String::from("00")),
            ModuleDataField::new(2, 6, String::from("00")),
            ModuleDataField::new(2, 8, String::from("06")),
        ),
        ModuleDataField::new(1, 10, String::from("0")),
        vec![ModuleDataField::new(5, 11, String::from("00000"))],
        ModuleTail::new(
            ModuleDataField::new(2, 16, String::from("00")),
            ModuleDataField::new(1, 18, String::from("#")),
        ),
    );
    let engine = ModuleMsgConverter::new(String::from("coffee_feeder"), fmt, out);
    assert_eq!(
        engine.create_module_set_message(&3, &7),
        coffee_engine().create_module_set_message(&3, &7)
    );
    assert_eq!(engine.output_pkg_length(), 19);
}
