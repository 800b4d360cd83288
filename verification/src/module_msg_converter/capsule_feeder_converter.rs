//! The capsule feeder module codec: header tag `@CAP`, two 5-digit payload
//! fields — six 2-bit capsule slot states plus a detect flag, then the slot,
//! selector and home positions.

use vstd::prelude::*;
use vstd::utf8::is_ascii_chars;

use crate::bits::bits_lsbf;
use crate::bits::extract_bits;
use crate::bits::lemma_bin_digits_subrange;
use crate::bits::lemma_bin_val_slice;
use crate::bits::lemma_bits_chars;
use crate::bits::lemma_extract_bits_bound;
use crate::digits::dec_val;
use crate::digits::is_dec_digits;
use crate::lrc::frame_accepted;
use crate::module_struct::ModuleDataField;
use crate::module_struct::ModuleHead;
use crate::module_struct::ModuleInputFormat;
use crate::module_struct::ModuleOutputFormat;
use crate::module_struct::ModuleTail;
use super::command_frame_spec;
use super::lemma_command_body_ascii;
use super::lemma_protocol_literals_ascii;
use super::standard_input_layout;
use super::standard_output_layout;
use super::ModuleMsgConverter;

verus! {

/// A command for the capsule feeder as the typed bus carries it.
pub struct CapsuleFeederInput {
    pub command: u8,
    pub value: u8,
}

/// The decoded capsule feeder status record.
#[derive(Clone, Debug, PartialEq, Eq)]
pub struct CapsuleFeederOutput {
    pub state: u8,
    pub capsule_status_list: Vec<u8>,
    pub capsule_detect: bool,
    pub capsule_slot_pos: u8,
    pub capsule_selector_pos: u8,
    pub home_detect: u8,
}

/// A received capsule feeder status frame decodes at all: the 24-character
/// frame passes the checksum test, the state digit parses, and both payload
/// fields are decimal numbers fitting 16 bits.
pub open spec fn capsule_feeder_frame_ok(frame: Seq<char>) -> bool {
    &&& frame_accepted(frame, 24)
    &&& is_dec_digits(frame.subrange(10, 11))
    &&& dec_val(frame.subrange(10, 11)) < 256
    &&& is_dec_digits(frame.subrange(11, 16))
    &&& dec_val(frame.subrange(11, 16)) < 65536
    &&& is_dec_digits(frame.subrange(16, 21))
    &&& dec_val(frame.subrange(16, 21)) < 65536
}

/// The six 2-bit capsule slot states packed into the status field.
pub open spec fn capsule_status_list_spec(ns: nat) -> Seq<u8> {
    seq![
        extract_bits(ns, 0, 2) as u8,
        extract_bits(ns, 2, 2) as u8,
        extract_bits(ns, 4, 2) as u8,
        extract_bits(ns, 6, 2) as u8,
        extract_bits(ns, 8, 2) as u8,
        extract_bits(ns, 10, 2) as u8,
    ]
}

/// What every field of a decoded capsule feeder record holds, in terms of
/// the two payload values of the accepted frame.
pub open spec fn capsule_feeder_fields(frame: Seq<char>, out: CapsuleFeederOutput) -> bool {
    let ns = dec_val(frame.subrange(11, 16));
    let np = dec_val(frame.subrange(16, 21));
    &&& out.state == dec_val(frame.subrange(10, 11)) as u8
    &&& out.capsule_status_list@ == capsule_status_list_spec(ns)
    &&& out.capsule_detect == (extract_bits(ns, 12, 2) != 0)
    &&& out.capsule_slot_pos == extract_bits(np, 0, 4) as u8
    &&& out.capsule_selector_pos == extract_bits(np, 4, 4) as u8
    &&& out.home_detect == extract_bits(np, 8, 2) as u8
}

/// The capsule feeder's codec: the shared engine instantiated with the
/// `@CAP` layouts.
pub struct CapsuleFeederConverter {
    pub name: String,
    pub base_converter: ModuleMsgConverter,
}

impl CapsuleFeederConverter {
    /// The codec carries exactly the capsule feeder layouts: command frames
    /// of 20 characters, status frames of 24 with two payload fields.
    pub open spec fn wf(&self) -> bool {
        &&& self.name@ == "capsule_feeder"@
        &&& self.base_converter.module_name@ == "capsule_feeder"@
        &&& standard_input_layout(self.base_converter.input_format, "@CAP"@)
        &&& standard_output_layout(self.base_converter.output_format, "@CAP"@, "11"@, 2)
    }

    pub fn new() -> (r: Self)
        ensures
            r.wf(),
            r.base_converter.input_format.wf(),
            r.base_converter.output_format.wf(),
    {
        let module_name = String::from_str("capsule_feeder");
        let input_format = ModuleInputFormat::new(
            ModuleHead::new(
                ModuleDataField::new(4, 0, String::from_str("@CAP")),
                ModuleDataField::new(2, 4, String::from_str("00")),
                ModuleDataField::new(2, 6, String::from_str("00")),
                ModuleDataField::new(2, 8, String::from_str("07")),
            ),
            ModuleDataField::new(2, 10, String::from_str("00")),
            ModuleDataField::new(5, 12, String::from_str("00000")),
            ModuleTail::new(
                ModuleDataField::new(2, 17, String::from_str("00")),
                ModuleDataField::new(1, 19, String::from_str("#")),
            ),
        );
        let mut payload: Vec<ModuleDataField> = Vec::new();
        payload.push(ModuleDataField::new(5, 11, String::from_str("00000")));
        payload.push(ModuleDataField::new(5, 16, String::from_str("00000")));
        let output_format = ModuleOutputFormat::new(
            ModuleHead::new(
                ModuleDataField::new(4, 0, String::from_str("@CAP")),
                ModuleDataField::new(2, 4, String::from_str("00")),
                ModuleDataField::new(2, 6, String::from_str("00")),
                ModuleDataField::new(2, 8, String::from_str("11")),
            ),
            ModuleDataField::new(1, 10, String::from_str("0")),
            payload,
            ModuleTail::new(
                ModuleDataField::new(2, 21, String::from_str("00")),
                ModuleDataField::new(1, 23, String::from_str("#")),
            ),
        );
        let name = module_name.clone();
        let base_converter = ModuleMsgConverter::new(module_name, input_format, output_format);
        proof {
            reveal_strlit("@CAP");
            reveal_strlit("11");
            lemma_protocol_literals_ascii();
            assert(is_ascii_chars("@CAP"@)) by {
                assert(forall|i: int|
                    0 <= i < "@CAP"@.len() ==> '\0' <= #[trigger] "@CAP"@[i] <= '\u{7f}');
            }
            super::lemma_standard_layout_wf(
                base_converter.input_format,
                base_converter.output_format,
                "@CAP"@,
                "11"@,
                2,
            );
        }
        Self { name, base_converter }
    }
}

impl super::Converter for CapsuleFeederConverter {
    type ModuleInput = CapsuleFeederInput;

    type ModuleOutput = CapsuleFeederOutput;

    open spec fn converter_wf(&self) -> bool {
        self.wf()
    }

    open spec fn name_spec(&self) -> Seq<char> {
        self.name@
    }

    open spec fn input_spec(msg: &CapsuleFeederInput) -> (u8, u8) {
        (msg.command, msg.value)
    }

    open spec fn encode_spec(&self, command: u8, value: u8) -> Seq<char> {
        command_frame_spec(self.base_converter.input_format, command, value)
    }

    open spec fn decode_ok(&self, frame: Seq<char>) -> bool {
        capsule_feeder_frame_ok(frame)
    }

    open spec fn decode_fields(&self, frame: Seq<char>, out: &CapsuleFeederOutput) -> bool {
        capsule_feeder_fields(frame, *out)
    }

    /// Encodes a typed command record as a complete command frame: body,
    /// checksum, terminator.
    fn ros_2_mqtt(&self, ros_msg: &CapsuleFeederInput) -> String {
        let header_to_payload_str = self.base_converter.create_module_set_message(
            &ros_msg.command,
            &ros_msg.value,
        );
        proof {
            reveal_strlit("@CAP");
            lemma_protocol_literals_ascii();
            assert(is_ascii_chars("@CAP"@)) by {
                assert(forall|i: int|
                    0 <= i < "@CAP"@.len() ==> '\0' <= #[trigger] "@CAP"@[i] <= '\u{7f}');
            }
            lemma_command_body_ascii(
                self.base_converter.input_format,
                ros_msg.command,
                ros_msg.value,
            );
        }
        let lrc = self.base_converter.calculate_lrc_from_string(header_to_payload_str.as_str());
        let mut mqtt_string = header_to_payload_str;
        mqtt_string.append(lrc.as_str());
        mqtt_string.append(self.base_converter.input_format.end().string.as_str());
        proof {
            assert(mqtt_string@ =~= command_frame_spec(
                self.base_converter.input_format,
                ros_msg.command,
                ros_msg.value,
            ));
        }
        mqtt_string
    }

    /// Decodes a received status frame, or reports that it must be dropped.
    fn mqtt_2_ros(&self, mqtt_msg: &str) -> Option<CapsuleFeederOutput> {
        let msg_validated: bool = self.base_converter.validate_get_str(mqtt_msg);
        if !msg_validated {
            return None;
        }
        let full = self.base_converter.payload_from_full_output_format_string(mqtt_msg);
        let ghost state_s = mqtt_msg@.subrange(10, 11);
        let ghost status_s = mqtt_msg@.subrange(11, 16);
        let ghost position_s = mqtt_msg@.subrange(16, 21);
        let state_str = full.as_str().substring_ascii(0, 1);
        proof {
            assert(state_str@ =~= state_s);
        }
        let state: u8 = match crate::digits::parse_dec_bounded(state_str, 255) {
            Some(v) => v as u8,
            None => {
                return None;
            },
        };
        let status_byte_str = full.as_str().substring_ascii(1, 6);
        let position_byte_str = full.as_str().substring_ascii(6, 11);
        proof {
            assert(status_byte_str@ =~= status_s);
            assert(position_byte_str@ =~= position_s);
        }
        if crate::digits::parse_dec_bounded(status_byte_str, 65535).is_none() {
            return None;
        }
        if crate::digits::parse_dec_bounded(position_byte_str, 65535).is_none() {
            return None;
        }
        let ghost ns = dec_val(status_s);
        let ghost np = dec_val(position_s);
        let status_bin = self.base_converter.payload_to_binary_string(status_byte_str);
        let position_bin = self.base_converter.payload_to_binary_string(position_byte_str);
        proof {
            lemma_bits_chars(ns, 16);
            lemma_bits_chars(np, 16);
            vstd::arithmetic::power2::lemma2_to64();
            lemma_bin_digits_subrange(bits_lsbf(ns, 16), 0, 2);
            lemma_bin_digits_subrange(bits_lsbf(ns, 16), 2, 4);
            lemma_bin_digits_subrange(bits_lsbf(ns, 16), 4, 6);
            lemma_bin_digits_subrange(bits_lsbf(ns, 16), 6, 8);
            lemma_bin_digits_subrange(bits_lsbf(ns, 16), 8, 10);
            lemma_bin_digits_subrange(bits_lsbf(ns, 16), 10, 12);
            lemma_bin_digits_subrange(bits_lsbf(ns, 16), 12, 14);
            lemma_bin_val_slice(ns, 16, 0, 2);
            lemma_bin_val_slice(ns, 16, 2, 4);
            lemma_bin_val_slice(ns, 16, 4, 6);
            lemma_bin_val_slice(ns, 16, 6, 8);
            lemma_bin_val_slice(ns, 16, 8, 10);
            lemma_bin_val_slice(ns, 16, 10, 12);
            lemma_bin_val_slice(ns, 16, 12, 14);
            lemma_extract_bits_bound(ns, 0, 2);
            lemma_extract_bits_bound(ns, 2, 2);
            lemma_extract_bits_bound(ns, 4, 2);
            lemma_extract_bits_bound(ns, 6, 2);
            lemma_extract_bits_bound(ns, 8, 2);
            lemma_extract_bits_bound(ns, 10, 2);
            lemma_extract_bits_bound(ns, 12, 2);
            lemma_bin_digits_subrange(bits_lsbf(np, 16), 0, 4);
            lemma_bin_digits_subrange(bits_lsbf(np, 16), 4, 8);
            lemma_bin_digits_subrange(bits_lsbf(np, 16), 8, 10);
            lemma_bin_val_slice(np, 16, 0, 4);
            lemma_bin_val_slice(np, 16, 4, 8);
            lemma_bin_val_slice(np, 16, 8, 10);
            lemma_extract_bits_bound(np, 0, 4);
            lemma_extract_bits_bound(np, 4, 4);
            lemma_extract_bits_bound(np, 8, 2);
        }
        let capsule_1 = self.base_converter.binary_string_to_int(
            status_bin.as_str().substring_ascii(0, 2),
        );
        let capsule_2 = self.base_converter.binary_string_to_int(
            status_bin.as_str().substring_ascii(2, 4),
        );
        let capsule_3 = self.base_converter.binary_string_to_int(
            status_bin.as_str().substring_ascii(4, 6),
        );
        let capsule_4 = self.base_converter.binary_string_to_int(
            status_bin.as_str().substring_ascii(6, 8),
        );
        let capsule_5 = self.base_converter.binary_string_to_int(
            status_bin.as_str().substring_ascii(8, 10),
        );
        let capsule_6 = self.base_converter.binary_string_to_int(
            status_bin.as_str().substring_ascii(10, 12),
        );
        let mut capsule_status_list: Vec<u8> = Vec::new();
        capsule_status_list.push(capsule_1);
        capsule_status_list.push(capsule_2);
        capsule_status_list.push(capsule_3);
        capsule_status_list.push(capsule_4);
        capsule_status_list.push(capsule_5);
        capsule_status_list.push(capsule_6);
        let cap_detect = self.base_converter.binary_string_to_int(
            status_bin.as_str().substring_ascii(12, 14),
        );
        let capsule_slot_pos = self.base_converter.binary_string_to_int(
            position_bin.as_str().substring_ascii(0, 4),
        );
        let capsule_selector_pos = self.base_converter.binary_string_to_int(
            position_bin.as_str().substring_ascii(4, 8),
        );
        let home_detect = self.base_converter.binary_string_to_int(
            position_bin.as_str().substring_ascii(8, 10),
        );
        proof {
            assert(capsule_status_list@ =~= capsule_status_list_spec(ns));
        }
        Some(
            CapsuleFeederOutput {
                state,
                capsule_status_list,
                capsule_detect: cap_detect != 0,
                capsule_slot_pos,
                capsule_selector_pos,
                home_detect,
            },
        )
    }

    /// The dispatch decision for one received field-bus publish: decode the
    /// payload exactly when the topic is this module's `get` topic.
    fn handle_mqtt_message(&self, topic: &str, payload: &str) -> Option<CapsuleFeederOutput> {
        let mut expected = self.name.clone();
        expected.append("/get");
        if topic.to_owned() == expected {
            self.mqtt_2_ros(payload)
        } else {
            None
        }
    }
}

} // verus!
