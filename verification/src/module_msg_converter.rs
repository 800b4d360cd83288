//! The generic codec engine shared by every module: building command frame
//! bodies, computing and checking the LRC checksum, slicing the payload out
//! of a status frame, and the two bit primitives that turn 5-digit decimal
//! payload fields into readable bit strings and back.

use vstd::prelude::*;
use vstd::arithmetic::power2::pow2;
use vstd::arithmetic::power2::lemma_pow2_adds;
use vstd::arithmetic::power2::lemma_pow2_pos;
use vstd::arithmetic::power2::lemma2_to64;
use vstd::arithmetic::div_mod::lemma_div_denominator;
use vstd::arithmetic::div_mod::lemma_add_mod_noop;
use vstd::arithmetic::div_mod::lemma_small_mod;
use vstd::arithmetic::div_mod::lemma_mod_division_less_than_divisor;
use vstd::utf8::is_ascii_chars;

pub mod capsule_feeder_converter;
pub mod coffee_feeder_converter;
pub mod cup_holder_converter;
pub mod light_converter;
pub mod pdu_converter;
pub mod tank_converter;

use crate::bits::bit_char;
use crate::bits::bits_lsbf;
use crate::bits::is_bin_digits;
use crate::bits::bin_val_lsbf;
use crate::bits::lemma_bin_val_split;
use crate::digits::is_dec_digits;
use crate::digits::dec_val;
use crate::digits::pad_dec;
use crate::digits::parse_dec_bounded;
use crate::digits::append_dec_padded;
use crate::lrc::sum_codes;
use crate::lrc::lrc_chars;
use crate::lrc::lrc_byte;
use crate::lrc::frame_accepted;
use crate::lrc::lemma_sum_codes_snoc;
use crate::lrc::push_hex_char;
use crate::module_struct::ModuleInputFormat;
use crate::module_struct::ModuleOutputFormat;

verus! {

/// The command-frame body for `(c, v)` under a layout: the four head slots'
/// content, then `c` and `v` zero-padded to the command and value widths.
/// No checksum or terminator yet.
pub open spec fn command_body_spec(fmt: ModuleInputFormat, c: u8, v: u8) -> Seq<char> {
    fmt.head.text() + pad_dec(c as nat, fmt.command.size as nat) + pad_dec(
        v as nat,
        fmt.value.size as nat,
    )
}

/// The complete command frame for `(c, v)`: the body, its two checksum
/// characters, and the terminator slot's content.
pub open spec fn command_frame_spec(fmt: ModuleInputFormat, c: u8, v: u8) -> Seq<char> {
    command_body_spec(fmt, c, v) + lrc_chars(command_body_spec(fmt, c, v))
        + fmt.tail.end.string@
}

/// The interface every module codec offers the bridge: encoding one typed
/// command record as a wire frame, decoding one wire status frame into a
/// typed record, and the dispatch decision for one received publish.  The
/// bus wiring around these (subscriptions, publishers, the connection) is
/// the process's concern, not the codec's.
pub trait Converter: Sized {
    type ModuleInput;

    type ModuleOutput;

    /// The codec carries its module's exact layouts.
    spec fn converter_wf(&self) -> bool;

    /// The module name that owns the codec's topic namespace.
    spec fn name_spec(&self) -> Seq<char>;

    /// The command and value bytes of a typed command record.
    spec fn input_spec(msg: &Self::ModuleInput) -> (u8, u8);

    /// The complete command frame encoded for given command and value bytes.
    spec fn encode_spec(&self, command: u8, value: u8) -> Seq<char>;

    /// Whether a received status frame decodes at all.
    spec fn decode_ok(&self, frame: Seq<char>) -> bool;

    /// What the decoded record holds, for a frame that decodes.
    spec fn decode_fields(&self, frame: Seq<char>, out: &Self::ModuleOutput) -> bool;

    /// Encodes a typed command record as a complete command frame: body,
    /// checksum, terminator.
    fn ros_2_mqtt(&self, ros_msg: &Self::ModuleInput) -> (r: String)
        requires
            self.converter_wf(),
        ensures
            r@ == self.encode_spec(Self::input_spec(ros_msg).0, Self::input_spec(ros_msg).1),
    ;

    /// Decodes a received status frame, or reports that it must be dropped.
    fn mqtt_2_ros(&self, mqtt_msg: &str) -> (r: Option<Self::ModuleOutput>)
        requires
            self.converter_wf(),
        ensures
            r is Some <==> self.decode_ok(mqtt_msg@),
            r matches Some(out) ==> self.decode_fields(mqtt_msg@, &out),
    ;

    /// The dispatch decision for one received field-bus publish: decode the
    /// payload exactly when the topic is this codec's `get` topic.
    fn handle_mqtt_message(&self, topic: &str, payload: &str) -> (r: Option<Self::ModuleOutput>)
        requires
            self.converter_wf(),
        ensures
            topic@ == self.name_spec() + "/get"@ ==> (r is Some <==> self.decode_ok(payload@)),
            topic@ == self.name_spec() + "/get"@ ==> (r matches Some(out) ==> self.decode_fields(
                payload@,
                &out,
            )),
            topic@ != self.name_spec() + "/get"@ ==> r is None,
    ;
}

/// Command-frame encoding is pure and deterministic: two layouts that agree
/// on slot content and slot widths yield byte-identical frames for equal
/// command and value bytes, checksum included.
pub proof fn lemma_encode_deterministic(
    f1: ModuleInputFormat,
    f2: ModuleInputFormat,
    c: u8,
    v: u8,
)
    requires
        f1.head.header.string@ == f2.head.header.string@,
        f1.head.package.string@ == f2.head.package.string@,
        f1.head.setting.string@ == f2.head.setting.string@,
        f1.head.length.string@ == f2.head.length.string@,
        f1.command.size == f2.command.size,
        f1.value.size == f2.value.size,
        f1.tail.end.string@ == f2.tail.end.string@,
    ensures
        command_frame_spec(f1, c, v) == command_frame_spec(f2, c, v),
{
    assert(command_body_spec(f1, c, v) =~= command_body_spec(f2, c, v));
    assert(command_frame_spec(f1, c, v) =~= command_frame_spec(f2, c, v));
}

/// Slot `f` has exactly this size, offset and content.
pub open spec fn field_is(f: crate::module_struct::ModuleDataField, size: int, index: int, s: Seq<
    char,
>) -> bool {
    &&& f.size == size
    &&& f.index == index
    &&& f.string@ == s
}

/// The command-frame layout every module shares: a 4-character header tag,
/// package `00`, setting `00`, frame kind `07`, a 2-digit command slot, a
/// 5-digit value slot, the 2-character checksum and the `#` terminator —
/// 20 characters in all.
pub open spec fn standard_input_layout(fmt: ModuleInputFormat, header: Seq<char>) -> bool {
    &&& field_is(fmt.head.header, 4, 0, header)
    &&& field_is(fmt.head.package, 2, 4, "00"@)
    &&& field_is(fmt.head.setting, 2, 6, "00"@)
    &&& field_is(fmt.head.length, 2, 8, "07"@)
    &&& field_is(fmt.command, 2, 10, "00"@)
    &&& field_is(fmt.value, 5, 12, "00000"@)
    &&& field_is(fmt.tail.lrc, 2, 17, "00"@)
    &&& field_is(fmt.tail.end, 1, 19, "#"@)
}

/// The status-frame layout every module shares, parameterised by its header
/// tag, its frame-kind code and its number of 5-digit payload slots: head,
/// one state digit at offset 10, `nfields` payload slots of 5 characters
/// each, the checksum and the `#` terminator.
pub open spec fn standard_output_layout(
    fmt: ModuleOutputFormat,
    header: Seq<char>,
    kind: Seq<char>,
    nfields: int,
) -> bool {
    &&& field_is(fmt.head.header, 4, 0, header)
    &&& field_is(fmt.head.package, 2, 4, "00"@)
    &&& field_is(fmt.head.setting, 2, 6, "00"@)
    &&& field_is(fmt.head.length, 2, 8, kind)
    &&& field_is(fmt.state, 1, 10, "0"@)
    &&& fmt.payload.len() == nfields
    &&& (forall|i: int|
        0 <= i < nfields ==> field_is(#[trigger] fmt.payload@[i], 5, 11 + 5 * i, "00000"@))
    &&& field_is(fmt.tail.lrc, 2, 11 + 5 * nfields, "00"@)
    &&& field_is(fmt.tail.end, 1, 13 + 5 * nfields, "#"@)
}

/// The protocol's literal slot contents are ASCII.
pub proof fn lemma_protocol_literals_ascii()
    ensures
        is_ascii_chars("00"@),
        is_ascii_chars("07"@),
        is_ascii_chars("06"@),
        is_ascii_chars("11"@),
        is_ascii_chars("16"@),
        is_ascii_chars("01"@),
        is_ascii_chars("0"@),
        is_ascii_chars("00000"@),
        is_ascii_chars("#"@),
{
    reveal_strlit("00");
    reveal_strlit("07");
    reveal_strlit("06");
    reveal_strlit("11");
    reveal_strlit("16");
    reveal_strlit("01");
    reveal_strlit("0");
    reveal_strlit("00000");
    reveal_strlit("#");
}

/// The shared layout shapes satisfy the frame layout invariants: every slot
/// holds exactly its declared number of ASCII characters, and the slots are
/// packed back to back from the start of the frame through the terminator.
pub proof fn lemma_standard_layout_wf(
    input: ModuleInputFormat,
    output: ModuleOutputFormat,
    header: Seq<char>,
    kind: Seq<char>,
    nfields: int,
)
    requires
        standard_input_layout(input, header),
        standard_output_layout(output, header, kind, nfields),
        header.len() == 4,
        is_ascii_chars(header),
        kind.len() == 2,
        is_ascii_chars(kind),
        0 <= nfields,
    ensures
        input.wf(),
        output.wf(),
{
    reveal_strlit("00");
    reveal_strlit("07");
    reveal_strlit("0");
    reveal_strlit("00000");
    reveal_strlit("#");
    lemma_protocol_literals_ascii();
    if nfields == 0 {
        assert(output.payload_end() == output.state.index + output.state.size);
    } else {
        assert(field_is(output.payload@[nfields - 1], 5, 11 + 5 * (nfields - 1), "00000"@));
        assert(output.payload_end() == 11 + 5 * nfields);
    }
}

/// A command-frame body is ASCII whenever the four head slots are.
pub proof fn lemma_command_body_ascii(fmt: ModuleInputFormat, c: u8, v: u8)
    requires
        is_ascii_chars(fmt.head.header.string@),
        is_ascii_chars(fmt.head.package.string@),
        is_ascii_chars(fmt.head.setting.string@),
        is_ascii_chars(fmt.head.length.string@),
    ensures
        is_ascii_chars(command_body_spec(fmt, c, v)),
{
    crate::digits::lemma_pad_dec_digits(c as nat, fmt.command.size as nat);
    crate::digits::lemma_pad_dec_digits(v as nat, fmt.value.size as nat);
    let body = command_body_spec(fmt, c, v);
    let h = fmt.head.header.string@;
    let p = fmt.head.package.string@;
    let st = fmt.head.setting.string@;
    let l = fmt.head.length.string@;
    let pc = pad_dec(c as nat, fmt.command.size as nat);
    let pv = pad_dec(v as nat, fmt.value.size as nat);
    assert forall|i: int| 0 <= i < body.len() implies '\0' <= #[trigger] body[i] <= '\u{7f}' by {
        let hl = h.len() as int;
        let pl = hl + p.len();
        let sl = pl + st.len();
        let ll = sl + l.len();
        let cl = ll + pc.len();
        if i < hl {
            assert(body[i] == h[i]);
        } else if i < pl {
            assert(body[i] == p[i - hl]);
        } else if i < sl {
            assert(body[i] == st[i - pl]);
        } else if i < ll {
            assert(body[i] == l[i - sl]);
        } else if i < cl {
            assert(body[i] == pc[i - ll]);
        } else {
            assert(body[i] == pv[i - cl]);
        }
    }
}

/// One module's codec: its name (the topic namespace on both buses) and its
/// command and status frame layouts.
pub struct ModuleMsgConverter {
    pub module_name: String,
    pub input_format: ModuleInputFormat,
    pub output_format: ModuleOutputFormat,
}

impl Clone for ModuleMsgConverter {
    fn clone(&self) -> (r: Self)
        ensures
            r.module_name == self.module_name,
            r.input_format == self.input_format,
            r.output_format.head == self.output_format.head,
            r.output_format.state == self.output_format.state,
            r.output_format.payload@ == self.output_format.payload@,
            r.output_format.tail == self.output_format.tail,
    {
        ModuleMsgConverter {
            module_name: self.module_name.clone(),
            input_format: self.input_format.clone(),
            output_format: self.output_format.clone(),
        }
    }
}

impl ModuleMsgConverter {
    pub fn new(
        module_name: String,
        input_format: ModuleInputFormat,
        output_format: ModuleOutputFormat,
    ) -> (r: Self)
        ensures
            r.module_name == module_name,
            r.input_format == input_format,
            r.output_format == output_format,
    {
        Self { module_name, input_format, output_format }
    }

    /// Total length of this module's command frames.
    pub open spec fn input_total(&self) -> int {
        self.input_format.total_len()
    }

    /// Total length of this module's status frames.
    pub open spec fn output_total(&self) -> int {
        self.output_format.total_len()
    }

    pub fn input_pkg_length(&self) -> (r: usize)
        requires
            self.input_format.tail.end.index < usize::MAX,
        ensures
            r == self.input_total(),
    {
        self.input_format.tail.end.index + 1
    }

    pub fn output_pkg_length(&self) -> (r: usize)
        requires
            self.output_format.tail.end.index < usize::MAX,
        ensures
            r == self.output_total(),
    {
        self.output_format.tail.end.index + 1
    }

    /// Renders a 5-digit decimal payload field as the 16-character binary
    /// string of its value, least significant bit first — the reversed order
    /// all bit-range unpacking works in.
    pub fn payload_to_binary_string(&self, payload: &str) -> (r: String)
        requires
            payload@.len() == 5,
            is_dec_digits(payload@),
            dec_val(payload@) < 65536,
        ensures
            r@ == bits_lsbf(dec_val(payload@), 16),
    {
        let parsed = parse_dec_bounded(payload, 65535);
        let n: u32 = match parsed {
            Some(n) => n,
            None => {
                proof {
                    assert(false);
                }
                0
            },
        };
        let ghost nv = dec_val(payload@);
        let mut s = String::new();
        let mut m: u32 = n;
        let mut i: usize = 0;
        proof {
            lemma2_to64();
            vstd::arithmetic::div_mod::lemma_div_basics(n as int);
        }
        while i < 16
            invariant
                0 <= i <= 16,
                n == nv,
                n < 65536,
                m == nv / pow2(i as nat),
                s@ =~= bits_lsbf(nv, i as nat),
            decreases 16 - i,
        {
            let b: u8 = (m % 2) as u8;
            crate::digits::push_digit(&mut s, b);
            proof {
                assert(crate::digits::digit_char(b as nat) == bit_char(nv, i as nat));
                assert(s@ =~= bits_lsbf(nv, (i + 1) as nat));
                lemma_pow2_pos(i as nat);
                lemma_div_denominator(nv as int, pow2(i as nat) as int, 2);
                lemma_pow2_adds(i as nat, 1);
                lemma2_to64();
                assert(pow2((i + 1) as nat) == pow2(i as nat) * 2);
                assert(m / 2 == nv / pow2((i + 1) as nat));
            }
            m = m / 2;
            i = i + 1;
        }
        s
    }

    /// Reads a slice of such a reversed binary string back as an integer:
    /// the inverse primitive, re-reversing just the slice before parsing.
    pub fn binary_string_to_int(&self, bin_str: &str) -> (r: u8)
        requires
            bin_str@.len() >= 1,
            is_bin_digits(bin_str@),
            bin_val_lsbf(bin_str@) < 256,
        ensures
            r == bin_val_lsbf(bin_str@),
    {
        let len = bin_str.unicode_len();
        let mut val: u32 = 0;
        let mut i: usize = len;
        proof {
            assert(bin_str@.subrange(len as int, len as int) =~= Seq::<char>::empty());
        }
        while i > 0
            invariant
                0 <= i <= len,
                len == bin_str@.len(),
                is_bin_digits(bin_str@),
                bin_val_lsbf(bin_str@) < 256,
                val == bin_val_lsbf(bin_str@.subrange(i as int, len as int)),
                val < 256,
            decreases i,
        {
            let c = bin_str.get_char(i - 1);
            let b: u32 = if c == '1' {
                1
            } else {
                0
            };
            proof {
                let tail = bin_str@.subrange(i - 1, len as int);
                assert(tail[0] == bin_str@[i - 1]);
                assert(tail.subrange(1, tail.len() as int) =~= bin_str@.subrange(
                    i as int,
                    len as int,
                ));
                lemma_bin_val_split(bin_str@, i - 1);
                lemma_pow2_pos((i - 1) as nat);
                assert(bin_val_lsbf(tail) <= bin_val_lsbf(bin_str@)) by (nonlinear_arith)
                    requires
                        bin_val_lsbf(bin_str@) == bin_val_lsbf(bin_str@.subrange(0, i - 1)) + pow2(
                            (i - 1) as nat,
                        ) * bin_val_lsbf(tail),
                        pow2((i - 1) as nat) >= 1,
                ;
            }
            val = b + 2 * val;
            i = i - 1;
        }
        proof {
            assert(bin_str@.subrange(0, len as int) =~= bin_str@);
        }
        val as u8
    }

    /// Assembles the command-frame body for `(cmd_int, val_int)`: the head
    /// slots' literal content followed by the two zero-padded numbers.
    pub fn create_module_set_message(&self, cmd_int: &u8, val_int: &u8) -> (r: String)
        ensures
            r@ == command_body_spec(self.input_format, *cmd_int, *val_int),
    {
        let mut s = String::new();
        s.append(self.input_format.head.header.string.as_str());
        s.append(self.input_format.head.package.string.as_str());
        s.append(self.input_format.head.setting.string.as_str());
        s.append(self.input_format.head.length.string.as_str());
        append_dec_padded(&mut s, *cmd_int, self.input_format.command.size);
        append_dec_padded(&mut s, *val_int, self.input_format.value.size);
        proof {
            assert(s@ =~= command_body_spec(self.input_format, *cmd_int, *val_int));
        }
        s
    }

    /// Computes the two checksum characters for a frame body.
    pub fn calculate_lrc_from_string(&self, data: &str) -> (r: String)
        requires
            data.is_ascii(),
        ensures
            r@ == lrc_chars(data@),
    {
        let len = data.unicode_len();
        let mut sum_val: u32 = 0;
        let mut i: usize = 0;
        proof {
            assert(data@.subrange(0, 0) =~= Seq::<char>::empty());
            lemma_small_mod(0, 256);
        }
        while i < len
            invariant
                0 <= i <= len,
                len == data@.len(),
                is_ascii_chars(data@),
                sum_val == sum_codes(data@.subrange(0, i as int)) % 256,
            decreases len - i,
        {
            let c = data.get_char(i);
            let u: u32 = c as u32;
            proof {
                assert('\0' <= data@[i as int] <= '\u{7f}');
                assert(u < 128);
                let pre = data@.subrange(0, i as int);
                lemma_sum_codes_snoc(pre, data@[i as int]);
                assert(pre.push(data@[i as int]) =~= data@.subrange(0, i as int + 1));
                lemma_add_mod_noop(sum_codes(pre) as int, u as int, 256);
                lemma_small_mod(u as nat, 256);
                lemma_mod_division_less_than_divisor(sum_codes(pre) as int, 256);
            }
            sum_val = (sum_val + u) % 256;
            i = i + 1;
        }
        proof {
            assert(data@.subrange(0, len as int) =~= data@);
        }
        proof {
            lemma_mod_division_less_than_divisor(sum_codes(data@) as int, 256);
            assert(sum_val < 256);
            assert(sum_val < 256 ==> (sum_val ^ 0xFF) + 1 <= 256) by (bit_vector);
        }
        let lrc_i: u32 = (sum_val ^ 0xFF) + 1;
        proof {
            assert((lrc_i >> 4) & 0x0F < 16 && lrc_i & 0x0F < 16) by (bit_vector);
        }
        let lrc_0: u8 = ((lrc_i >> 4) & 0x0F) as u8;
        let lrc_1: u8 = (lrc_i & 0x0F) as u8;
        proof {
            assert(sum_val < 256 ==> (sum_val ^ 0xFF) + 1 == 256 - sum_val) by (bit_vector);
            assert(lrc_i == 256 - sum_val);
            assert(lrc_i <= 256 ==> ((lrc_i >> 4) & 0x0F) == (lrc_i % 256) / 16 && (lrc_i & 0x0F)
                == (lrc_i % 256) % 16) by (bit_vector);
            assert(lrc_byte(data@) == (256 - sum_codes(data@) % 256) % 256);
            if sum_val == 0 {
                lemma_small_mod(0, 256);
                assert(lrc_i == 256);
                assert(lrc_byte(data@) == 0);
            } else {
                lemma_small_mod((256 - sum_val) as nat, 256);
                assert(lrc_byte(data@) == lrc_i);
            }
        }
        let mut out = String::new();
        push_hex_char(&mut out, lrc_0);
        push_hex_char(&mut out, lrc_1);
        proof {
            assert(out@ =~= lrc_chars(data@));
        }
        out
    }

    /// Cuts the state-plus-payload region out of a full status frame:
    /// everything from the state slot up to (excluding) the checksum.
    pub fn payload_from_full_output_format_string(&self, output_format_string: &str) -> (r:
        String)
        requires
            output_format_string.is_ascii(),
            0 <= self.output_format.state.index <= self.output_format.tail.lrc.index
                <= output_format_string@.len(),
        ensures
            r@ == output_format_string@.subrange(
                self.output_format.state.index as int,
                self.output_format.tail.lrc.index as int,
            ),
            is_ascii_chars(r@),
    {
        let idx_start = self.output_format.state.index;
        let idx_end = self.output_format.tail.lrc.index;
        let sub = output_format_string.substring_ascii(idx_start, idx_end);
        sub.to_owned()
    }

    /// The acceptance test for a received status frame: exact layout length,
    /// ASCII content, and checksum closure — the sum of the body's codes
    /// plus the byte spelled by the two checksum characters must be zero
    /// modulo 256.  The transmitted checksum is not compared to a
    /// recomputed one; closure alone decides.
    pub fn validate_get_str(&self, msg: &str) -> (r: bool)
        requires
            self.output_format.tail.end.index < usize::MAX,
        ensures
            r == frame_accepted(msg@, self.output_total() as nat),
    {
        let total = self.output_pkg_length();
        if total < 3 {
            return false;
        }
        let len = msg.unicode_len();
        if len != total {
            return false;
        }
        if !msg.is_ascii() {
            return false;
        }
        let mut sum_val: u32 = 0;
        let mut i: usize = 0;
        proof {
            assert(msg@.subrange(0, 0) =~= Seq::<char>::empty());
            lemma_small_mod(0, 256);
        }
        while i < total - 3
            invariant
                0 <= i <= total - 3,
                3 <= total,
                len == msg@.len(),
                len == total,
                is_ascii_chars(msg@),
                sum_val == sum_codes(msg@.subrange(0, i as int)) % 256,
            decreases total - i,
        {
            let c = msg.get_char(i);
            let u: u32 = c as u32;
            proof {
                assert('\0' <= msg@[i as int] <= '\u{7f}');
                let pre = msg@.subrange(0, i as int);
                lemma_sum_codes_snoc(pre, msg@[i as int]);
                assert(pre.push(msg@[i as int]) =~= msg@.subrange(0, i as int + 1));
                lemma_add_mod_noop(sum_codes(pre) as int, u as int, 256);
                lemma_small_mod(u as nat, 256);
                lemma_mod_division_less_than_divisor(sum_codes(pre) as int, 256);
            }
            sum_val = (sum_val + u) % 256;
            i = i + 1;
        }
        let hi = msg.get_char(total - 3);
        let lo = msg.get_char(total - 2);
        let hu: u32 = hi as u32;
        let lu: u32 = lo as u32;
        if !((48 <= hu && hu <= 57) || (65 <= hu && hu <= 70)) {
            proof {
                assert(!crate::lrc::is_hex_upper(msg@[total - 3]));
            }
            return false;
        }
        if !((48 <= lu && lu <= 57) || (65 <= lu && lu <= 70)) {
            proof {
                assert(!crate::lrc::is_hex_upper(msg@[total - 2]));
            }
            return false;
        }
        let vh: u32 = if hu <= 57 {
            hu - 48
        } else {
            hu - 55
        };
        let vl: u32 = if lu <= 57 {
            lu - 48
        } else {
            lu - 55
        };
        proof {
            let body = msg@.subrange(0, total - 3);
            assert(vh == crate::lrc::hex_val(msg@[total - 3]));
            assert(vl == crate::lrc::hex_val(msg@[total - 2]));
            let k = (vh * 16 + vl) as int;
            assert(vh <= 15 && vl <= 15);
            assert(k < 256);
            lemma_add_mod_noop(sum_codes(body) as int, k, 256);
            lemma_small_mod(k as nat, 256);
            lemma_mod_division_less_than_divisor(sum_codes(body) as int, 256);
        }
        (sum_val + vh * 16 + vl) % 256 == 0
    }
}

} // verus!
