//! The coffee feeder module codec: header tag `@COF`, one 5-digit status
//! payload field carrying the capsule, water-level, water-filling and feeder
//! stage bit ranges.

use vstd::prelude::*;
use vstd::utf8::is_ascii_chars;

use crate::bits::bits_lsbf;
use crate::bits::extract_bits;
use crate::bits::lemma_bin_digits_subrange;
use crate::bits::lemma_bin_val_slice;
use crate::bits::lemma_bits_chars;
use crate::bits::lemma_extract_bits_bound;
use crate::digits::dec_val;
use crate::digits::is_dec_digits;
use crate::lrc::frame_accepted;
use crate::module_struct::ModuleDataField;
use crate::module_struct::ModuleHead;
use crate::module_struct::ModuleInputFormat;
use crate::module_struct::ModuleOutputFormat;
use crate::module_struct::ModuleTail;
use super::command_frame_spec;
use super::lemma_command_body_ascii;
use super::lemma_protocol_literals_ascii;
use super::standard_input_layout;
use super::standard_output_layout;
use super::ModuleMsgConverter;

verus! {

/// A command for the coffee feeder as the typed bus carries it.
pub struct CoffeeFeederInput {
    pub command: u8,
    pub value: u8,
}

/// The decoded coffee feeder status record.
#[derive(Clone, Copy, Debug, PartialEq, Eq)]
pub struct CoffeeFeederOutput {
    pub state: u8,
    pub capsule: u8,
    pub water_level: u8,
    pub water_filling: u8,
    pub coffee_feeder: u8,
}

/// What a received coffee feeder status frame decodes to: `None` unless the
/// 19-character frame passes the checksum test, its state digit parses, and
/// its payload field is a decimal number fitting 16 bits; otherwise the
/// record read from the payload's bit fields.
pub open spec fn coffee_feeder_status_spec(frame: Seq<char>) -> Option<CoffeeFeederOutput> {
    if !frame_accepted(frame, 19) {
        None
    } else {
        let state_s = frame.subrange(10, 11);
        let pay = frame.subrange(11, 16);
        if !(is_dec_digits(state_s) && dec_val(state_s) < 256) {
            None
        } else if !(is_dec_digits(pay) && dec_val(pay) < 65536) {
            None
        } else {
            let n = dec_val(pay);
            Some(
                CoffeeFeederOutput {
                    state: dec_val(state_s) as u8,
                    capsule: extract_bits(n, 0, 2) as u8,
                    water_level: extract_bits(n, 2, 2) as u8,
                    water_filling: extract_bits(n, 4, 2) as u8,
                    coffee_feeder: extract_bits(n, 8, 4) as u8,
                },
            )
        }
    }
}

/// The coffee feeder's codec: the shared engine instantiated with the
/// `@COF` layouts.
pub struct CoffeeFeederConverter {
    pub name: String,
    pub base_converter: ModuleMsgConverter,
}

impl CoffeeFeederConverter {
    /// The codec carries exactly the coffee feeder layouts: command frames
    /// of 20 characters, status frames of 19 with one payload field.
    pub open spec fn wf(&self) -> bool {
        &&& self.name@ == "coffee_feeder"@
        &&& self.base_converter.module_name@ == "coffee_feeder"@
        &&& standard_input_layout(self.base_converter.input_format, "@COF"@)
        &&& standard_output_layout(self.base_converter.output_format, "@COF"@, "06"@, 1)
    }

    pub fn new() -> (r: Self)
        ensures
            r.wf(),
            r.base_converter.input_format.wf(),
            r.base_converter.output_format.wf(),
    {
        let module_name = String::from_str("coffee_feeder");
        let input_format = ModuleInputFormat::new(
            ModuleHead::new(
                ModuleDataField::new(4, 0, String::from_str("@COF")),
                ModuleDataField::new(2, 4, String::from_str("00")),
                ModuleDataField::new(2, 6, String::from_str("00")),
                ModuleDataField::new(2, 8, String::from_str("07")),
            ),
            ModuleDataField::new(2, 10, String::from_str("00")),
            ModuleDataField::new(5, 12, String::from_str("00000")),
            ModuleTail::new(
                ModuleDataField::new(2, 17, String::from_str("00")),
                ModuleDataField::new(1, 19, String::from_str("#")),
            ),
        );
        let mut payload: Vec<ModuleDataField> = Vec::new();
        payload.push(ModuleDataField::new(5, 11, String::from_str("00000")));
        let output_format = ModuleOutputFormat::new(
            ModuleHead::new(
                ModuleDataField::new(4, 0, String::from_str("@COF")),
                ModuleDataField::new(2, 4, String::from_str("00")),
                ModuleDataField::new(2, 6, String::from_str("00")),
                ModuleDataField::new(2, 8, String::from_str("06")),
            ),
            ModuleDataField::new(1, 10, String::from_str("0")),
            payload,
            ModuleTail::new(
                ModuleDataField::new(2, 16, String::from_str("00")),
                ModuleDataField::new(1, 18, String::from_str("#")),
            ),
        );
        let name = module_name.clone();
        let base_converter = ModuleMsgConverter::new(module_name, input_format, output_format);
        proof {
            reveal_strlit("@COF");
            reveal_strlit("06");
            lemma_protocol_literals_ascii();
            assert(is_ascii_chars("@COF"@)) by {
                assert(forall|i: int|
                    0 <= i < "@COF"@.len() ==> '\0' <= #[trigger] "@COF"@[i] <= '\u{7f}');
            }
            super::lemma_standard_layout_wf(
                base_converter.input_format,
                base_converter.output_format,
                "@COF"@,
                "06"@,
                1,
            );
        }
        Self { name, base_converter }
    }
}

impl super::Converter for CoffeeFeederConverter {
    type ModuleInput = CoffeeFeederInput;

    type ModuleOutput = CoffeeFeederOutput;

    open spec fn converter_wf(&self) -> bool {
        self.wf()
    }

    open spec fn name_spec(&self) -> Seq<char> {
        self.name@
    }

    open spec fn input_spec(msg: &CoffeeFeederInput) -> (u8, u8) {
        (msg.command, msg.value)
    }

    open spec fn encode_spec(&self, command: u8, value: u8) -> Seq<char> {
        command_frame_spec(self.base_converter.input_format, command, value)
    }

    open spec fn decode_ok(&self, frame: Seq<char>) -> bool {
        coffee_feeder_status_spec(frame) is Some
    }

    open spec fn decode_fields(&self, frame: Seq<char>, out: &CoffeeFeederOutput) -> bool {
        coffee_feeder_status_spec(frame) == Some(*out)
    }

    /// Encodes a typed command record as a complete command frame: body,
    /// checksum, terminator.
    fn ros_2_mqtt(&self, ros_msg: &CoffeeFeederInput) -> String {
        let header_to_payload_str = self.base_converter.create_module_set_message(
            &ros_msg.command,
            &ros_msg.value,
        );
        proof {
            reveal_strlit("@COF");
            lemma_protocol_literals_ascii();
            assert(is_ascii_chars("@COF"@)) by {
                assert(forall|i: int|
                    0 <= i < "@COF"@.len() ==> '\0' <= #[trigger] "@COF"@[i] <= '\u{7f}');
            }
            lemma_command_body_ascii(
                self.base_converter.input_format,
                ros_msg.command,
                ros_msg.value,
            );
        }
        let lrc = self.base_converter.calculate_lrc_from_string(header_to_payload_str.as_str());
        let mut mqtt_string = header_to_payload_str;
        mqtt_string.append(lrc.as_str());
        mqtt_string.append(self.base_converter.input_format.end().string.as_str());
        proof {
            assert(mqtt_string@ =~= command_frame_spec(
                self.base_converter.input_format,
                ros_msg.command,
                ros_msg.value,
            ));
        }
        mqtt_string
    }

    /// Decodes a received status frame, or reports that it must be dropped.
    fn mqtt_2_ros(&self, mqtt_msg: &str) -> Option<CoffeeFeederOutput> {
        let msg_validated: bool = self.base_converter.validate_get_str(mqtt_msg);
        if !msg_validated {
            return None;
        }
        let full = self.base_converter.payload_from_full_output_format_string(mqtt_msg);
        let ghost state_s = mqtt_msg@.subrange(10, 11);
        let ghost pay = mqtt_msg@.subrange(11, 16);
        let state_str = full.as_str().substring_ascii(0, 1);
        proof {
            assert(state_str@ =~= state_s);
        }
        let state: u8 = match crate::digits::parse_dec_bounded(state_str, 255) {
            Some(v) => v as u8,
            None => {
                return None;
            },
        };
        let payload_str = full.as_str().substring_ascii(1, 6);
        proof {
            assert(payload_str@ =~= pay);
        }
        if crate::digits::parse_dec_bounded(payload_str, 65535).is_none() {
            return None;
        }
        let ghost n = dec_val(pay);
        let status_bin = self.base_converter.payload_to_binary_string(payload_str);
        proof {
            lemma_bits_chars(n, 16);
            vstd::arithmetic::power2::lemma2_to64();
            lemma_bin_digits_subrange(bits_lsbf(n, 16), 0, 2);
            lemma_bin_digits_subrange(bits_lsbf(n, 16), 2, 4);
            lemma_bin_digits_subrange(bits_lsbf(n, 16), 4, 6);
            lemma_bin_digits_subrange(bits_lsbf(n, 16), 8, 12);
            lemma_bin_val_slice(n, 16, 0, 2);
            lemma_bin_val_slice(n, 16, 2, 4);
            lemma_bin_val_slice(n, 16, 4, 6);
            lemma_bin_val_slice(n, 16, 8, 12);
            lemma_extract_bits_bound(n, 0, 2);
            lemma_extract_bits_bound(n, 2, 2);
            lemma_extract_bits_bound(n, 4, 2);
            lemma_extract_bits_bound(n, 8, 4);
        }
        let capsule = self.base_converter.binary_string_to_int(
            status_bin.as_str().substring_ascii(0, 2),
        );
        let water_level = self.base_converter.binary_string_to_int(
            status_bin.as_str().substring_ascii(2, 4),
        );
        let water_filling = self.base_converter.binary_string_to_int(
            status_bin.as_str().substring_ascii(4, 6),
        );
        let coffee_feeder = self.base_converter.binary_string_to_int(
            status_bin.as_str().substring_ascii(8, 12),
        );
        Some(
            CoffeeFeederOutput {
                state,
                capsule,
                water_level,
                water_filling,
                coffee_feeder,
            },
        )
    }

    /// The dispatch decision for one received field-bus publish: decode the
    /// payload exactly when the topic is this module's `get` topic.
    fn handle_mqtt_message(&self, topic: &str, payload: &str) -> Option<CoffeeFeederOutput> {
        let mut expected = self.name.clone();
        expected.append("/get");
        if topic.to_owned() == expected {
            self.mqtt_2_ros(payload)
        } else {
            None
        }
    }
}

} // verus!
