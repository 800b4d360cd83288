//! The cup holder module codec: header tag `@CUP`, three 5-digit payload
//! fields — four detect bits with pump and stock ranges, the holder
//! position, and a weight whose leading character is a sign marker.

use vstd::prelude::*;
use vstd::utf8::is_ascii_chars;

use crate::bits::bits_lsbf;
use crate::bits::extract_bits;
use crate::bits::lemma_bin_digits_subrange;
use crate::bits::lemma_bin_val_slice;
use crate::bits::lemma_bits_chars;
use crate::bits::lemma_bits_round_trip;
use crate::bits::lemma_extract_bits_bound;
use crate::digits::dec_val;
use crate::digits::is_dec_digits;
use crate::lrc::frame_accepted;
use crate::module_struct::ModuleDataField;
use crate::module_struct::ModuleHead;
use crate::module_struct::ModuleInputFormat;
use crate::module_struct::ModuleOutputFormat;
use crate::module_struct::ModuleTail;
use super::command_frame_spec;
use super::lemma_command_body_ascii;
use super::lemma_protocol_literals_ascii;
use super::standard_input_layout;
use super::standard_output_layout;
use super::ModuleMsgConverter;

verus! {

/// A command for the cup holder as the typed bus carries it.
pub struct CupHolderInput {
    pub command: u8,
    pub value: u8,
}

/// The decoded cup holder status record.
#[derive(Clone, Copy, Debug, PartialEq, Eq)]
pub struct CupHolderOutput {
    pub state: u8,
    pub coffee_detect: bool,
    pub cup_detect: bool,
    pub water_detect: bool,
    pub ice_detect: bool,
    pub cup_pump: bool,
    pub cup_stock: u8,
    pub position: u8,
    pub weight: i16,
}

/// What a received cup holder status frame decodes to.  `None` unless the
/// 29-character frame passes the checksum test, the state digit parses,
/// every payload field is decimal (the weight field after its leading sign
/// marker is replaced by a zero), and the position and weight magnitudes fit
/// a byte.  The weight is negative exactly when its leading character is
/// `'-'`; any other leading character, digit or not, leaves it positive.
pub open spec fn cup_holder_status_spec(frame: Seq<char>) -> Option<CupHolderOutput> {
    if !frame_accepted(frame, 29) {
        None
    } else {
        let state_s = frame.subrange(10, 11);
        let status_s = frame.subrange(11, 16);
        let position_s = frame.subrange(16, 21);
        let weight_mag_s = seq!['0'] + frame.subrange(22, 26);
        if !(is_dec_digits(state_s) && dec_val(state_s) < 256) {
            None
        } else if !(is_dec_digits(status_s) && dec_val(status_s) < 65536) {
            None
        } else if !(is_dec_digits(position_s) && dec_val(position_s) < 65536) {
            None
        } else if !(is_dec_digits(weight_mag_s) && dec_val(weight_mag_s) < 65536) {
            None
        } else if !(dec_val(position_s) < 256 && dec_val(weight_mag_s) < 256) {
            None
        } else {
            let ns = dec_val(status_s);
            let np = dec_val(position_s);
            let wm = dec_val(weight_mag_s);
            Some(
                CupHolderOutput {
                    state: dec_val(state_s) as u8,
                    coffee_detect: extract_bits(ns, 0, 1) == 1,
                    cup_detect: extract_bits(ns, 1, 1) == 1,
                    water_detect: extract_bits(ns, 2, 1) == 1,
                    ice_detect: extract_bits(ns, 3, 1) == 1,
                    cup_pump: extract_bits(ns, 4, 2) == 1,
                    cup_stock: extract_bits(ns, 6, 2) as u8,
                    position: np as u8,
                    weight: (if frame[21] == '-' {
                        0 - (wm as int)
                    } else {
                        wm as int
                    }) as i16,
                },
            )
        }
    }
}

/// The cup holder's codec: the shared engine instantiated with the `@CUP`
/// layouts.
pub struct CupHolderConverter {
    pub name: String,
    pub base_converter: ModuleMsgConverter,
}

impl CupHolderConverter {
    /// The codec carries exactly the cup holder layouts: command frames of
    /// 20 characters, status frames of 29 with three payload fields.
    pub open spec fn wf(&self) -> bool {
        &&& self.name@ == "cup_holder"@
        &&& self.base_converter.module_name@ == "cup_holder"@
        &&& standard_input_layout(self.base_converter.input_format, "@CUP"@)
        &&& standard_output_layout(self.base_converter.output_format, "@CUP"@, "16"@, 3)
    }

    pub fn new() -> (r: Self)
        ensures
            r.wf(),
            r.base_converter.input_format.wf(),
            r.base_converter.output_format.wf(),
    {
        let module_name = String::from_str("cup_holder");
        let input_format = ModuleInputFormat::new(
            ModuleHead::new(
                ModuleDataField::new(4, 0, String::from_str("@CUP")),
                ModuleDataField::new(2, 4, String::from_str("00")),
                ModuleDataField::new(2, 6, String::from_str("00")),
                ModuleDataField::new(2, 8, String::from_str("07")),
            ),
            ModuleDataField::new(2, 10, String::from_str("00")),
            ModuleDataField::new(5, 12, String::from_str("00000")),
            ModuleTail::new(
                ModuleDataField::new(2, 17, String::from_str("00")),
                ModuleDataField::new(1, 19, String::from_str("#")),
            ),
        );
        let mut payload: Vec<ModuleDataField> = Vec::new();
        payload.push(ModuleDataField::new(5, 11, String::from_str("00000")));
        payload.push(ModuleDataField::new(5, 16, String::from_str("00000")));
        payload.push(ModuleDataField::new(5, 21, String::from_str("00000")));
        let output_format = ModuleOutputFormat::new(
            ModuleHead::new(
                ModuleDataField::new(4, 0, String::from_str("@CUP")),
                ModuleDataField::new(2, 4, String::from_str("00")),
                ModuleDataField::new(2, 6, String::from_str("00")),
                ModuleDataField::new(2, 8, String::from_str("16")),
            ),
            ModuleDataField::new(1, 10, String::from_str("0")),
            payload,
            ModuleTail::new(
                ModuleDataField::new(2, 26, String::from_str("00")),
                ModuleDataField::new(1, 28, String::from_str("#")),
            ),
        );
        let name = module_name.clone();
        let base_converter = ModuleMsgConverter::new(module_name, input_format, output_format);
        proof {
            reveal_strlit("@CUP");
            reveal_strlit("16");
            lemma_protocol_literals_ascii();
            assert(is_ascii_chars("@CUP"@)) by {
                assert(forall|i: int|
                    0 <= i < "@CUP"@.len() ==> '\0' <= #[trigger] "@CUP"@[i] <= '\u{7f}');
            }
            super::lemma_standard_layout_wf(
                base_converter.input_format,
                base_converter.output_format,
                "@CUP"@,
                "16"@,
                3,
            );
        }
        Self { name, base_converter }
    }
}

impl super::Converter for CupHolderConverter {
    type ModuleInput = CupHolderInput;

    type ModuleOutput = CupHolderOutput;

    open spec fn converter_wf(&self) -> bool {
        self.wf()
    }

    open spec fn name_spec(&self) -> Seq<char> {
        self.name@
    }

    open spec fn input_spec(msg: &CupHolderInput) -> (u8, u8) {
        (msg.command, msg.value)
    }

    open spec fn encode_spec(&self, command: u8, value: u8) -> Seq<char> {
        command_frame_spec(self.base_converter.input_format, command, value)
    }

    open spec fn decode_ok(&self, frame: Seq<char>) -> bool {
        cup_holder_status_spec(frame) is Some
    }

    open spec fn decode_fields(&self, frame: Seq<char>, out: &CupHolderOutput) -> bool {
        cup_holder_status_spec(frame) == Some(*out)
    }

    /// Encodes a typed command record as a complete command frame: body,
    /// checksum, terminator.
    fn ros_2_mqtt(&self, ros_msg: &CupHolderInput) -> String {
        let header_to_payload_str = self.base_converter.create_module_set_message(
            &ros_msg.command,
            &ros_msg.value,
        );
        proof {
            reveal_strlit("@CUP");
            lemma_protocol_literals_ascii();
            assert(is_ascii_chars("@CUP"@)) by {
                assert(forall|i: int|
                    0 <= i < "@CUP"@.len() ==> '\0' <= #[trigger] "@CUP"@[i] <= '\u{7f}');
            }
            lemma_command_body_ascii(
                self.base_converter.input_format,
                ros_msg.command,
                ros_msg.value,
            );
        }
        let lrc = self.base_converter.calculate_lrc_from_string(header_to_payload_str.as_str());
        let mut mqtt_string = header_to_payload_str;
        mqtt_string.append(lrc.as_str());
        mqtt_string.append(self.base_converter.input_format.end().string.as_str());
        proof {
            assert(mqtt_string@ =~= command_frame_spec(
                self.base_converter.input_format,
                ros_msg.command,
                ros_msg.value,
            ));
        }
        mqtt_string
    }

    /// Decodes a received status frame, or reports that it must be dropped.
    fn mqtt_2_ros(&self, mqtt_msg: &str) -> Option<CupHolderOutput> {
        let msg_validated: bool = self.base_converter.validate_get_str(mqtt_msg);
        if !msg_validated {
            return None;
        }
        let full = self.base_converter.payload_from_full_output_format_string(mqtt_msg);
        let ghost state_s = mqtt_msg@.subrange(10, 11);
        let ghost status_s = mqtt_msg@.subrange(11, 16);
        let ghost position_s = mqtt_msg@.subrange(16, 21);
        let ghost weight_mag_s = seq!['0'] + mqtt_msg@.subrange(22, 26);
        let state_str = full.as_str().substring_ascii(0, 1);
        proof {
            assert(state_str@ =~= state_s);
        }
        let state: u8 = match crate::digits::parse_dec_bounded(state_str, 255) {
            Some(v) => v as u8,
            None => {
                return None;
            },
        };
        let status_byte_str = full.as_str().substring_ascii(1, 6);
        let position_byte_str = full.as_str().substring_ascii(6, 11);
        proof {
            assert(status_byte_str@ =~= status_s);
            assert(position_byte_str@ =~= position_s);
        }
        let weight_signed = full.as_str().get_char(11);
        let mut weight_byte_str = String::from_str("0");
        let weight_tail = full.as_str().substring_ascii(12, 16);
        weight_byte_str.append(weight_tail);
        proof {
            reveal_strlit("0");
            assert(weight_byte_str@ =~= weight_mag_s);
        }
        if crate::digits::parse_dec_bounded(status_byte_str, 65535).is_none() {
            return None;
        }
        let np32: u32 = match crate::digits::parse_dec_bounded(position_byte_str, 65535) {
            Some(v) => v,
            None => {
                return None;
            },
        };
        let wm32: u32 = match crate::digits::parse_dec_bounded(weight_byte_str.as_str(), 65535) {
            Some(v) => v,
            None => {
                return None;
            },
        };
        if np32 > 255 || wm32 > 255 {
            return None;
        }
        let ghost ns = dec_val(status_s);
        let ghost np = dec_val(position_s);
        let ghost wm = dec_val(weight_mag_s);
        let status_bin = self.base_converter.payload_to_binary_string(status_byte_str);
        let position_bin = self.base_converter.payload_to_binary_string(position_byte_str);
        let weight_bin = self.base_converter.payload_to_binary_string(weight_byte_str.as_str());
        proof {
            lemma_bits_chars(ns, 16);
            lemma_bits_chars(np, 16);
            lemma_bits_chars(wm, 16);
            vstd::arithmetic::power2::lemma2_to64();
            vstd::arithmetic::div_mod::lemma_div_basics(ns as int);
            lemma_bin_digits_subrange(bits_lsbf(ns, 16), 4, 6);
            lemma_bin_digits_subrange(bits_lsbf(ns, 16), 6, 8);
            lemma_bin_val_slice(ns, 16, 4, 6);
            lemma_bin_val_slice(ns, 16, 6, 8);
            lemma_extract_bits_bound(ns, 4, 2);
            lemma_extract_bits_bound(ns, 6, 2);
            lemma_bits_round_trip(np);
            lemma_bits_round_trip(wm);
        }
        let coffee_detect = status_bin.as_str().get_char(0) == '1';
        let cup_detect = status_bin.as_str().get_char(1) == '1';
        let water_detect = status_bin.as_str().get_char(2) == '1';
        let ice_detect = status_bin.as_str().get_char(3) == '1';
        proof {
            assert(status_bin@[0] == crate::bits::bit_char(ns, 0));
            assert(extract_bits(ns, 0, 1) == (ns / vstd::arithmetic::power2::pow2(0)) % 2);
            assert(extract_bits(ns, 1, 1) == (ns / vstd::arithmetic::power2::pow2(1)) % 2);
            assert(extract_bits(ns, 2, 1) == (ns / vstd::arithmetic::power2::pow2(2)) % 2);
            assert(extract_bits(ns, 3, 1) == (ns / vstd::arithmetic::power2::pow2(3)) % 2);
        }
        let cup_pump = self.base_converter.binary_string_to_int(
            status_bin.as_str().substring_ascii(4, 6),
        ) == 1;
        let cup_stock = self.base_converter.binary_string_to_int(
            status_bin.as_str().substring_ascii(6, 8),
        );
        let position = self.base_converter.binary_string_to_int(position_bin.as_str());
        let w = self.base_converter.binary_string_to_int(weight_bin.as_str());
        let mut weight: i16 = w as i16;
        if weight_signed == '-' {
            weight = -weight;
        }
        Some(
            CupHolderOutput {
                state,
                coffee_detect,
                cup_detect,
                water_detect,
                ice_detect,
                cup_pump,
                cup_stock,
                position,
                weight,
            },
        )
    }

    /// The dispatch decision for one received field-bus publish: decode the
    /// payload exactly when the topic is this module's `get` topic.
    fn handle_mqtt_message(&self, topic: &str, payload: &str) -> Option<CupHolderOutput> {
        let mut expected = self.name.clone();
        expected.append("/get");
        if topic.to_owned() == expected {
            self.mqtt_2_ros(payload)
        } else {
            None
        }
    }
}

} // verus!
