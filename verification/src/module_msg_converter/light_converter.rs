//! The light module codec: header tag `@LIG`.  The base protocol defines no
//! payload semantics for this module, so its status frame carries only the
//! state digit between head and tail, and decoding yields the state alone.

use vstd::prelude::*;
use vstd::utf8::is_ascii_chars;

use crate::digits::dec_val;
use crate::digits::is_dec_digits;
use crate::lrc::frame_accepted;
use crate::module_struct::ModuleDataField;
use crate::module_struct::ModuleHead;
use crate::module_struct::ModuleInputFormat;
use crate::module_struct::ModuleOutputFormat;
use crate::module_struct::ModuleTail;
use super::command_frame_spec;
use super::lemma_command_body_ascii;
use super::lemma_protocol_literals_ascii;
use super::standard_input_layout;
use super::standard_output_layout;
use super::ModuleMsgConverter;

verus! {

/// A command for the light as the typed bus carries it.
pub struct LightInput {
    pub command: u8,
    pub value: u8,
}

/// The decoded light status record.
#[derive(Clone, Copy, Debug, PartialEq, Eq)]
pub struct LightOutput {
    pub state: u8,
}

/// What a received light status frame decodes to: `None` unless the
/// 14-character frame passes the checksum test and the state digit parses.
pub open spec fn light_status_spec(frame: Seq<char>) -> Option<LightOutput> {
    if !frame_accepted(frame, 14) {
        None
    } else {
        let state_s = frame.subrange(10, 11);
        if !(is_dec_digits(state_s) && dec_val(state_s) < 256) {
            None
        } else {
            Some(LightOutput { state: dec_val(state_s) as u8 })
        }
    }
}

/// The light's codec: the shared engine instantiated with the `@LIG`
/// layouts.
pub struct LightConverter {
    pub name: String,
    pub base_converter: ModuleMsgConverter,
}

impl LightConverter {
    /// The codec carries exactly the light layouts: command frames of 20
    /// characters, status frames of 14 with no payload fields.
    pub open spec fn wf(&self) -> bool {
        &&& self.name@ == "light"@
        &&& self.base_converter.module_name@ == "light"@
        &&& standard_input_layout(self.base_converter.input_format, "@LIG"@)
        &&& standard_output_layout(self.base_converter.output_format, "@LIG"@, "01"@, 0)
    }

    pub fn new() -> (r: Self)
        ensures
            r.wf(),
            r.base_converter.input_format.wf(),
            r.base_converter.output_format.wf(),
    {
        let module_name = String::from_str("light");
        let input_format = ModuleInputFormat::new(
            ModuleHead::new(
                ModuleDataField::new(4, 0, String::from_str("@LIG")),
                ModuleDataField::new(2, 4, String::from_str("00")),
                ModuleDataField::new(2, 6, String::from_str("00")),
                ModuleDataField::new(2, 8, String::from_str("07")),
            ),
            ModuleDataField::new(2, 10, String::from_str("00")),
            ModuleDataField::new(5, 12, String::from_str("00000")),
            ModuleTail::new(
                ModuleDataField::new(2, 17, String::from_str("00")),
                ModuleDataField::new(1, 19, String::from_str("#")),
            ),
        );
        let payload: Vec<ModuleDataField> = Vec::new();
        let output_format = ModuleOutputFormat::new(
            ModuleHead::new(
                ModuleDataField::new(4, 0, String::from_str("@LIG")),
                ModuleDataField::new(2, 4, String::from_str("00")),
                ModuleDataField::new(2, 6, String::from_str("00")),
                ModuleDataField::new(2, 8, String::from_str("01")),
            ),
            ModuleDataField::new(1, 10, String::from_str("0")),
            payload,
            ModuleTail::new(
                ModuleDataField::new(2, 11, String::from_str("00")),
                ModuleDataField::new(1, 13, String::from_str("#")),
            ),
        );
        let name = module_name.clone();
        let base_converter = ModuleMsgConverter::new(module_name, input_format, output_format);
        proof {
            reveal_strlit("@LIG");
            reveal_strlit("01");
            lemma_protocol_literals_ascii();
            assert(is_ascii_chars("@LIG"@)) by {
                assert(forall|i: int|
                    0 <= i < "@LIG"@.len() ==> '\0' <= #[trigger] "@LIG"@[i] <= '\u{7f}');
            }
            super::lemma_standard_layout_wf(
                base_converter.input_format,
                base_converter.output_format,
                "@LIG"@,
                "01"@,
                0,
            );
        }
        Self { name, base_converter }
    }
}

impl super::Converter for LightConverter {
    type ModuleInput = LightInput;

    type ModuleOutput = LightOutput;

    open spec fn converter_wf(&self) -> bool {
        self.wf()
    }

    open spec fn name_spec(&self) -> Seq<char> {
        self.name@
    }

    open spec fn input_spec(msg: &LightInput) -> (u8, u8) {
        (msg.command, msg.value)
    }

    open spec fn encode_spec(&self, command: u8, value: u8) -> Seq<char> {
        command_frame_spec(self.base_converter.input_format, command, value)
    }

    open spec fn decode_ok(&self, frame: Seq<char>) -> bool {
        light_status_spec(frame) is Some
    }

    open spec fn decode_fields(&self, frame: Seq<char>, out: &LightOutput) -> bool {
        light_status_spec(frame) == Some(*out)
    }

    /// Encodes a typed command record as a complete command frame: body,
    /// checksum, terminator.
    fn ros_2_mqtt(&self, ros_msg: &LightInput) -> String {
        let header_to_payload_str = self.base_converter.create_module_set_message(
            &ros_msg.command,
            &ros_msg.value,
        );
        proof {
            reveal_strlit("@LIG");
            lemma_protocol_literals_ascii();
            assert(is_ascii_chars("@LIG"@)) by {
                assert(forall|i: int|
                    0 <= i < "@LIG"@.len() ==> '\0' <= #[trigger] "@LIG"@[i] <= '\u{7f}');
            }
            lemma_command_body_ascii(
                self.base_converter.input_format,
                ros_msg.command,
                ros_msg.value,
            );
        }
        let lrc = self.base_converter.calculate_lrc_from_string(header_to_payload_str.as_str());
        let mut mqtt_string = header_to_payload_str;
        mqtt_string.append(lrc.as_str());
        mqtt_string.append(self.base_converter.input_format.end().string.as_str());
        proof {
            assert(mqtt_string@ =~= command_frame_spec(
                self.base_converter.input_format,
                ros_msg.command,
                ros_msg.value,
            ));
        }
        mqtt_string
    }

    /// Decodes a received status frame, or reports that it must be dropped.
    fn mqtt_2_ros(&self, mqtt_msg: &str) -> Option<LightOutput> {
        let msg_validated: bool = self.base_converter.validate_get_str(mqtt_msg);
        if !msg_validated {
            return None;
        }
        let full = self.base_converter.payload_from_full_output_format_string(mqtt_msg);
        let ghost state_s = mqtt_msg@.subrange(10, 11);
        let state_str = full.as_str().substring_ascii(0, 1);
        proof {
            assert(state_str@ =~= state_s);
        }
        let state: u8 = match crate::digits::parse_dec_bounded(state_str, 255) {
            Some(v) => v as u8,
            None => {
                return None;
            },
        };
        Some(LightOutput { state })
    }

    /// The dispatch decision for one received field-bus publish: decode the
    /// payload exactly when the topic is this module's `get` topic.
    fn handle_mqtt_message(&self, topic: &str, payload: &str) -> Option<LightOutput> {
        let mut expected = self.name.clone();
        expected.append("/get");
        if topic.to_owned() == expected {
            self.mqtt_2_ros(payload)
        } else {
            None
        }
    }
}

} // verus!
