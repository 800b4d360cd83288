//! The power distribution unit module codec: header tag `@PDU`, three
//! 5-digit payload fields — five single-bit power-rail flags, then the
//! voltage and current counters.

use vstd::prelude::*;
use vstd::utf8::is_ascii_chars;

use crate::bits::extract_bits;
use crate::bits::lemma_bits_chars;
use crate::bits::lemma_bits_round_trip;
use crate::digits::dec_val;
use crate::digits::is_dec_digits;
use crate::lrc::frame_accepted;
use crate::module_struct::ModuleDataField;
use crate::module_struct::ModuleHead;
use crate::module_struct::ModuleInputFormat;
use crate::module_struct::ModuleOutputFormat;
use crate::module_struct::ModuleTail;
use super::command_frame_spec;
use super::lemma_command_body_ascii;
use super::lemma_protocol_literals_ascii;
use super::standard_input_layout;
use super::standard_output_layout;
use super::ModuleMsgConverter;

verus! {

/// A command for the power distribution unit as the typed bus carries it.
pub struct PDUInput {
    pub command: u8,
    pub value: u8,
}

/// The decoded power distribution unit status record.
#[derive(Clone, Copy, Debug, PartialEq, Eq)]
pub struct PDUOutput {
    pub state: u8,
    pub coffee_pwr: bool,
    pub capsule_pwr: bool,
    pub cup_pwr: bool,
    pub tank_pwr: bool,
    pub light_pwr: bool,
    pub voltage: u8,
    pub current: u8,
}

/// What a received power distribution unit status frame decodes to: `None`
/// unless the 29-character frame passes the checksum test, the state digit
/// parses, every payload field is a decimal number fitting 16 bits, and the
/// voltage and current counters fit a byte.
pub open spec fn pdu_status_spec(frame: Seq<char>) -> Option<PDUOutput> {
    if !frame_accepted(frame, 29) {
        None
    } else {
        let state_s = frame.subrange(10, 11);
        let status_s = frame.subrange(11, 16);
        let voltage_s = frame.subrange(16, 21);
        let current_s = frame.subrange(21, 26);
        if !(is_dec_digits(state_s) && dec_val(state_s) < 256) {
            None
        } else if !(is_dec_digits(status_s) && dec_val(status_s) < 65536) {
            None
        } else if !(is_dec_digits(voltage_s) && dec_val(voltage_s) < 65536) {
            None
        } else if !(is_dec_digits(current_s) && dec_val(current_s) < 65536) {
            None
        } else if !(dec_val(voltage_s) < 256 && dec_val(current_s) < 256) {
            None
        } else {
            let ns = dec_val(status_s);
            Some(
                PDUOutput {
                    state: dec_val(state_s) as u8,
                    coffee_pwr: extract_bits(ns, 0, 1) == 1,
                    capsule_pwr: extract_bits(ns, 1, 1) == 1,
                    cup_pwr: extract_bits(ns, 2, 1) == 1,
                    tank_pwr: extract_bits(ns, 3, 1) == 1,
                    light_pwr: extract_bits(ns, 4, 1) == 1,
                    voltage: dec_val(voltage_s) as u8,
                    current: dec_val(current_s) as u8,
                },
            )
        }
    }
}

/// The power distribution unit's codec: the shared engine instantiated with
/// the `@PDU` layouts.
pub struct PDUConverter {
    pub name: String,
    pub base_converter: ModuleMsgConverter,
}

impl PDUConverter {
    /// The codec carries exactly the power distribution unit layouts:
    /// command frames of 20 characters, status frames of 29 with three
    /// payload fields.
    pub open spec fn wf(&self) -> bool {
        &&& self.name@ == "pdu"@
        &&& self.base_converter.module_name@ == "pdu"@
        &&& standard_input_layout(self.base_converter.input_format, "@PDU"@)
        &&& standard_output_layout(self.base_converter.output_format, "@PDU"@, "16"@, 3)
    }

    pub fn new() -> (r: Self)
        ensures
            r.wf(),
            r.base_converter.input_format.wf(),
            r.base_converter.output_format.wf(),
    {
        let module_name = String::from_str("pdu");
        let input_format = ModuleInputFormat::new(
            ModuleHead::new(
                ModuleDataField::new(4, 0, String::from_str("@PDU")),
                ModuleDataField::new(2, 4, String::from_str("00")),
                ModuleDataField::new(2, 6, String::from_str("00")),
                ModuleDataField::new(2, 8, String::from_str("07")),
            ),
            ModuleDataField::new(2, 10, String::from_str("00")),
            ModuleDataField::new(5, 12, String::from_str("00000")),
            ModuleTail::new(
                ModuleDataField::new(2, 17, String::from_str("00")),
                ModuleDataField::new(1, 19, String::from_str("#")),
            ),
        );
        let mut payload: Vec<ModuleDataField> = Vec::new();
        payload.push(ModuleDataField::new(5, 11, String::from_str("00000")));
        payload.push(ModuleDataField::new(5, 16, String::from_str("00000")));
        payload.push(ModuleDataField::new(5, 21, String::from_str("00000")));
        let output_format = ModuleOutputFormat::new(
            ModuleHead::new(
                ModuleDataField::new(4, 0, String::from_str("@PDU")),
                ModuleDataField::new(2, 4, String::from_str("00")),
                ModuleDataField::new(2, 6, String::from_str("00")),
                ModuleDataField::new(2, 8, String::from_str("16")),
            ),
            ModuleDataField::new(1, 10, String::from_str("0")),
            payload,
            ModuleTail::new(
                ModuleDataField::new(2, 26, String::from_str("00")),
                ModuleDataField::new(1, 28, String::from_str("#")),
            ),
        );
        let name = module_name.clone();
        let base_converter = ModuleMsgConverter::new(module_name, input_format, output_format);
        proof {
            reveal_strlit("@PDU");
            reveal_strlit("16");
            lemma_protocol_literals_ascii();
            assert(is_ascii_chars("@PDU"@)) by {
                assert(forall|i: int|
                    0 <= i < "@PDU"@.len() ==> '\0' <= #[trigger] "@PDU"@[i] <= '\u{7f}');
            }
            super::lemma_standard_layout_wf(
                base_converter.input_format,
                base_converter.output_format,
                "@PDU"@,
                "16"@,
                3,
            );
        }
        Self { name, base_converter }
    }
}

impl super::Converter for PDUConverter {
    type ModuleInput = PDUInput;

    type ModuleOutput = PDUOutput;

    open spec fn converter_wf(&self) -> bool {
        self.wf()
    }

    open spec fn name_spec(&self) -> Seq<char> {
        self.name@
    }

    open spec fn input_spec(msg: &PDUInput) -> (u8, u8) {
        (msg.command, msg.value)
    }

    open spec fn encode_spec(&self, command: u8, value: u8) -> Seq<char> {
        command_frame_spec(self.base_converter.input_format, command, value)
    }

    open spec fn decode_ok(&self, frame: Seq<char>) -> bool {
        pdu_status_spec(frame) is Some
    }

    open spec fn decode_fields(&self, frame: Seq<char>, out: &PDUOutput) -> bool {
        pdu_status_spec(frame) == Some(*out)
    }

    /// Encodes a typed command record as a complete command frame: body,
    /// checksum, terminator.
    fn ros_2_mqtt(&self, ros_msg: &PDUInput) -> String {
        let header_to_payload_str = self.base_converter.create_module_set_message(
            &ros_msg.command,
            &ros_msg.value,
        );
        proof {
            reveal_strlit("@PDU");
            lemma_protocol_literals_ascii();
            assert(is_ascii_chars("@PDU"@)) by {
                assert(forall|i: int|
                    0 <= i < "@PDU"@.len() ==> '\0' <= #[trigger] "@PDU"@[i] <= '\u{7f}');
            }
            lemma_command_body_ascii(
                self.base_converter.input_format,
                ros_msg.command,
                ros_msg.value,
            );
        }
        let lrc = self.base_converter.calculate_lrc_from_string(header_to_payload_str.as_str());
        let mut mqtt_string = header_to_payload_str;
        mqtt_string.append(lrc.as_str());
        mqtt_string.append(self.base_converter.input_format.end().string.as_str());
        proof {
            assert(mqtt_string@ =~= command_frame_spec(
                self.base_converter.input_format,
                ros_msg.command,
                ros_msg.value,
            ));
        }
        mqtt_string
    }

    /// Decodes a received status frame, or reports that it must be dropped.
    fn mqtt_2_ros(&self, mqtt_msg: &str) -> Option<PDUOutput> {
        let msg_validated: bool = self.base_converter.validate_get_str(mqtt_msg);
        if !msg_validated {
            return None;
        }
        let full = self.base_converter.payload_from_full_output_format_string(mqtt_msg);
        let ghost state_s = mqtt_msg@.subrange(10, 11);
        let ghost status_s = mqtt_msg@.subrange(11, 16);
        let ghost voltage_s = mqtt_msg@.subrange(16, 21);
        let ghost current_s = mqtt_msg@.subrange(21, 26);
        let state_str = full.as_str().substring_ascii(0, 1);
        proof {
            assert(state_str@ =~= state_s);
        }
        let state: u8 = match crate::digits::parse_dec_bounded(state_str, 255) {
            Some(v) => v as u8,
            None => {
                return None;
            },
        };
        let status_byte_str = full.as_str().substring_ascii(1, 6);
        let voltage_byte_str = full.as_str().substring_ascii(6, 11);
        let current_byte_str = full.as_str().substring_ascii(11, 16);
        proof {
            assert(status_byte_str@ =~= status_s);
            assert(voltage_byte_str@ =~= voltage_s);
            assert(current_byte_str@ =~= current_s);
        }
        if crate::digits::parse_dec_bounded(status_byte_str, 65535).is_none() {
            return None;
        }
        let voltage32: u32 = match crate::digits::parse_dec_bounded(voltage_byte_str, 65535) {
            Some(v) => v,
            None => {
                return None;
            },
        };
        let current32: u32 = match crate::digits::parse_dec_bounded(current_byte_str, 65535) {
            Some(v) => v,
            None => {
                return None;
            },
        };
        if voltage32 > 255 || current32 > 255 {
            return None;
        }
        let ghost ns = dec_val(status_s);
        let ghost nv = dec_val(voltage_s);
        let ghost nc = dec_val(current_s);
        let status_bin = self.base_converter.payload_to_binary_string(status_byte_str);
        let voltage_bin = self.base_converter.payload_to_binary_string(voltage_byte_str);
        let current_bin = self.base_converter.payload_to_binary_string(current_byte_str);
        proof {
            lemma_bits_chars(ns, 16);
            lemma_bits_chars(nv, 16);
            lemma_bits_chars(nc, 16);
            vstd::arithmetic::power2::lemma2_to64();
            vstd::arithmetic::div_mod::lemma_div_basics(ns as int);
            lemma_bits_round_trip(nv);
            lemma_bits_round_trip(nc);
            assert(extract_bits(ns, 0, 1) == (ns / vstd::arithmetic::power2::pow2(0)) % 2);
            assert(extract_bits(ns, 1, 1) == (ns / vstd::arithmetic::power2::pow2(1)) % 2);
            assert(extract_bits(ns, 2, 1) == (ns / vstd::arithmetic::power2::pow2(2)) % 2);
            assert(extract_bits(ns, 3, 1) == (ns / vstd::arithmetic::power2::pow2(3)) % 2);
            assert(extract_bits(ns, 4, 1) == (ns / vstd::arithmetic::power2::pow2(4)) % 2);
        }
        let coffee_pwr = status_bin.as_str().get_char(0) == '1';
        let caps_pwr = status_bin.as_str().get_char(1) == '1';
        let cups_pwr = status_bin.as_str().get_char(2) == '1';
        let tank_pwr = status_bin.as_str().get_char(3) == '1';
        let light_pwr = status_bin.as_str().get_char(4) == '1';
        let voltage = self.base_converter.binary_string_to_int(voltage_bin.as_str());
        let current = self.base_converter.binary_string_to_int(current_bin.as_str());
        Some(
            PDUOutput {
                state,
                coffee_pwr,
                capsule_pwr: caps_pwr,
                cup_pwr: cups_pwr,
                tank_pwr,
                light_pwr,
                voltage,
                current,
            },
        )
    }

    /// The dispatch decision for one received field-bus publish: decode the
    /// payload exactly when the topic is this module's `get` topic.
    fn handle_mqtt_message(&self, topic: &str, payload: &str) -> Option<PDUOutput> {
        let mut expected = self.name.clone();
        expected.append("/get");
        if topic.to_owned() == expected {
            self.mqtt_2_ros(payload)
        } else {
            None
        }
    }
}

} // verus!
