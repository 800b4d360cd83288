//! The tank module codec: header tag `@TNK`, three 5-digit payload fields —
//! a status field that carries no decoded meaning in the base protocol, then
//! the water and waste quantity counters.

use vstd::prelude::*;
use vstd::utf8::is_ascii_chars;

use crate::bits::lemma_bits_chars;
use crate::bits::lemma_bits_round_trip;
use crate::digits::dec_val;
use crate::digits::is_dec_digits;
use crate::lrc::frame_accepted;
use crate::module_struct::ModuleDataField;
use crate::module_struct::ModuleHead;
use crate::module_struct::ModuleInputFormat;
use crate::module_struct::ModuleOutputFormat;
use crate::module_struct::ModuleTail;
use super::command_frame_spec;
use super::lemma_command_body_ascii;
use super::lemma_protocol_literals_ascii;
use super::standard_input_layout;
use super::standard_output_layout;
use super::ModuleMsgConverter;

verus! {

/// A command for the tank as the typed bus carries it.
pub struct TankInput {
    pub command: u8,
    pub value: u8,
}

/// The decoded tank status record.
#[derive(Clone, Copy, Debug, PartialEq, Eq)]
pub struct TankOutput {
    pub state: u8,
    pub water_quantity: u8,
    pub waste_quantity: u8,
}

/// What a received tank status frame decodes to: `None` unless the
/// 29-character frame passes the checksum test, the state digit parses,
/// every payload field is a decimal number fitting 16 bits — the status
/// field is checked even though nothing is decoded from it — and the water
/// and waste counters fit a byte.
pub open spec fn tank_status_spec(frame: Seq<char>) -> Option<TankOutput> {
    if !frame_accepted(frame, 29) {
        None
    } else {
        let state_s = frame.subrange(10, 11);
        let status_s = frame.subrange(11, 16);
        let water_s = frame.subrange(16, 21);
        let waste_s = frame.subrange(21, 26);
        if !(is_dec_digits(state_s) && dec_val(state_s) < 256) {
            None
        } else if !(is_dec_digits(status_s) && dec_val(status_s) < 65536) {
            None
        } else if !(is_dec_digits(water_s) && dec_val(water_s) < 65536) {
            None
        } else if !(is_dec_digits(waste_s) && dec_val(waste_s) < 65536) {
            None
        } else if !(dec_val(water_s) < 256 && dec_val(waste_s) < 256) {
            None
        } else {
            Some(
                TankOutput {
                    state: dec_val(state_s) as u8,
                    water_quantity: dec_val(water_s) as u8,
                    waste_quantity: dec_val(waste_s) as u8,
                },
            )
        }
    }
}

/// The tank's codec: the shared engine instantiated with the `@TNK`
/// layouts.
pub struct TankConverter {
    pub name: String,
    pub base_converter: ModuleMsgConverter,
}

impl TankConverter {
    /// The codec carries exactly the tank layouts: command frames of 20
    /// characters, status frames of 29 with three payload fields.
    pub open spec fn wf(&self) -> bool {
        &&& self.name@ == "tank"@
        &&& self.base_converter.module_name@ == "tank"@
        &&& standard_input_layout(self.base_converter.input_format, "@TNK"@)
        &&& standard_output_layout(self.base_converter.output_format, "@TNK"@, "16"@, 3)
    }

    pub fn new() -> (r: Self)
        ensures
            r.wf(),
            r.base_converter.input_format.wf(),
            r.base_converter.output_format.wf(),
    {
        let module_name = String::from_str("tank");
        let input_format = ModuleInputFormat::new(
            ModuleHead::new(
                ModuleDataField::new(4, 0, String::from_str("@TNK")),
                ModuleDataField::new(2, 4, String::from_str("00")),
                ModuleDataField::new(2, 6, String::from_str("00")),
                ModuleDataField::new(2, 8, String::from_str("07")),
            ),
            ModuleDataField::new(2, 10, String::from_str("00")),
            ModuleDataField::new(5, 12, String::from_str("00000")),
            ModuleTail::new(
                ModuleDataField::new(2, 17, String::from_str("00")),
                ModuleDataField::new(1, 19, String::from_str("#")),
            ),
        );
        let mut payload: Vec<ModuleDataField> = Vec::new();
        payload.push(ModuleDataField::new(5, 11, String::from_str("00000")));
        payload.push(ModuleDataField::new(5, 16, String::from_str("00000")));
        payload.push(ModuleDataField::new(5, 21, String::from_str("00000")));
        let output_format = ModuleOutputFormat::new(
            ModuleHead::new(
                ModuleDataField::new(4, 0, String::from_str("@TNK")),
                ModuleDataField::new(2, 4, String::from_str("00")),
                ModuleDataField::new(2, 6, String::from_str("00")),
                ModuleDataField::new(2, 8, String::from_str("16")),
            ),
            ModuleDataField::new(1, 10, String::from_str("0")),
            payload,
            ModuleTail::new(
                ModuleDataField::new(2, 26, String::from_str("00")),
                ModuleDataField::new(1, 28, String::from_str("#")),
            ),
        );
        let name = module_name.clone();
        let base_converter = ModuleMsgConverter::new(module_name, input_format, output_format);
        proof {
            reveal_strlit("@TNK");
            reveal_strlit("16");
            lemma_protocol_literals_ascii();
            assert(is_ascii_chars("@TNK"@)) by {
                assert(forall|i: int|
                    0 <= i < "@TNK"@.len() ==> '\0' <= #[trigger] "@TNK"@[i] <= '\u{7f}');
            }
            super::lemma_standard_layout_wf(
                base_converter.input_format,
                base_converter.output_format,
                "@TNK"@,
                "16"@,
                3,
            );
        }
        Self { name, base_converter }
    }
}

impl super::Converter for TankConverter {
    type ModuleInput = TankInput;

    type ModuleOutput = TankOutput;

    open spec fn converter_wf(&self) -> bool {
        self.wf()
    }

    open spec fn name_spec(&self) -> Seq<char> {
        self.name@
    }

    open spec fn input_spec(msg: &TankInput) -> (u8, u8) {
        (msg.command, msg.value)
    }

    open spec fn encode_spec(&self, command: u8, value: u8) -> Seq<char> {
        command_frame_spec(self.base_converter.input_format, command, value)
    }

    open spec fn decode_ok(&self, frame: Seq<char>) -> bool {
        tank_status_spec(frame) is Some
    }

    open spec fn decode_fields(&self, frame: Seq<char>, out: &TankOutput) -> bool {
        tank_status_spec(frame) == Some(*out)
    }

    /// Encodes a typed command record as a complete command frame: body,
    /// checksum, terminator.
    fn ros_2_mqtt(&self, ros_msg: &TankInput) -> String {
        let header_to_payload_str = self.base_converter.create_module_set_message(
            &ros_msg.command,
            &ros_msg.value,
        );
        proof {
            reveal_strlit("@TNK");
            lemma_protocol_literals_ascii();
            assert(is_ascii_chars("@TNK"@)) by {
                assert(forall|i: int|
                    0 <= i < "@TNK"@.len() ==> '\0' <= #[trigger] "@TNK"@[i] <= '\u{7f}');
            }
            lemma_command_body_ascii(
                self.base_converter.input_format,
                ros_msg.command,
                ros_msg.value,
            );
        }
        let lrc = self.base_converter.calculate_lrc_from_string(header_to_payload_str.as_str());
        let mut mqtt_string = header_to_payload_str;
        mqtt_string.append(lrc.as_str());
        mqtt_string.append(self.base_converter.input_format.end().string.as_str());
        proof {
            assert(mqtt_string@ =~= command_frame_spec(
                self.base_converter.input_format,
                ros_msg.command,
                ros_msg.value,
            ));
        }
        mqtt_string
    }

    /// Decodes a received status frame, or reports that it must be dropped.
    fn mqtt_2_ros(&self, mqtt_msg: &str) -> Option<TankOutput> {
        let msg_validated: bool = self.base_converter.validate_get_str(mqtt_msg);
        if !msg_validated {
            return None;
        }
        let full = self.base_converter.payload_from_full_output_format_string(mqtt_msg);
        let ghost state_s = mqtt_msg@.subrange(10, 11);
        let ghost status_s = mqtt_msg@.subrange(11, 16);
        let ghost water_s = mqtt_msg@.subrange(16, 21);
        let ghost waste_s = mqtt_msg@.subrange(21, 26);
        let state_str = full.as_str().substring_ascii(0, 1);
        proof {
            assert(state_str@ =~= state_s);
        }
        let state: u8 = match crate::digits::parse_dec_bounded(state_str, 255) {
            Some(v) => v as u8,
            None => {
                return None;
            },
        };
        let status_byte_str = full.as_str().substring_ascii(1, 6);
        let water_byte_str = full.as_str().substring_ascii(6, 11);
        let waste_byte_str = full.as_str().substring_ascii(11, 16);
        proof {
            assert(status_byte_str@ =~= status_s);
            assert(water_byte_str@ =~= water_s);
            assert(waste_byte_str@ =~= waste_s);
        }
        if crate::digits::parse_dec_bounded(status_byte_str, 65535).is_none() {
            return None;
        }
        let water32: u32 = match crate::digits::parse_dec_bounded(water_byte_str, 65535) {
            Some(v) => v,
            None => {
                return None;
            },
        };
        let waste32: u32 = match crate::digits::parse_dec_bounded(waste_byte_str, 65535) {
            Some(v) => v,
            None => {
                return None;
            },
        };
        if water32 > 255 || waste32 > 255 {
            return None;
        }
        let ghost nw = dec_val(water_s);
        let ghost nz = dec_val(waste_s);
        let water_bin = self.base_converter.payload_to_binary_string(water_byte_str);
        let waste_bin = self.base_converter.payload_to_binary_string(waste_byte_str);
        proof {
            lemma_bits_chars(nw, 16);
            lemma_bits_chars(nz, 16);
            lemma_bits_round_trip(nw);
            lemma_bits_round_trip(nz);
        }
        let water = self.base_converter.binary_string_to_int(water_bin.as_str());
        let waste = self.base_converter.binary_string_to_int(waste_bin.as_str());
        Some(TankOutput { state, water_quantity: water, waste_quantity: waste })
    }

    /// The dispatch decision for one received field-bus publish: decode the
    /// payload exactly when the topic is this module's `get` topic.
    fn handle_mqtt_message(&self, topic: &str, payload: &str) -> Option<TankOutput> {
        let mut expected = self.name.clone();
        expected.append("/get");
        if topic.to_owned() == expected {
            self.mqtt_2_ros(payload)
        } else {
            None
        }
    }
}

} // verus!
