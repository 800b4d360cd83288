//! The LRC checksum model: sum of the ASCII codes of the frame body, one's
//! complement plus one of the low byte, rendered as two uppercase hex
//! characters.  A received frame is accepted when the body codes plus the
//! byte encoded by the two checksum characters sum to zero modulo 256.
//!
//! Note the deliberate weakness inherited from the wire protocol: acceptance
//! rests solely on that modulo-256 closure, so a corrupted body paired with
//! checksum characters that happen to close the sum still passes; the
//! transmitted checksum is never compared against a freshly recomputed one.

use vstd::prelude::*;
use vstd::arithmetic::div_mod::lemma_fundamental_div_mod;
use vstd::arithmetic::div_mod::lemma_mod_multiples_basic;
use crate::digits::digit_char;
use crate::digits::push_digit;

verus! {

/// Sum of the Unicode code points of `s`; for ASCII text this is the byte
/// sum the wire protocol defines the checksum over.
pub open spec fn sum_codes(s: Seq<char>) -> nat
    decreases s.len(),
{
    if s.len() == 0 {
        0
    } else {
        sum_codes(s.drop_last()) + (s.last() as nat)
    }
}

/// The uppercase hexadecimal character for a nibble value.
pub open spec fn hex_char(v: nat) -> char {
    if v < 10 {
        digit_char(v)
    } else if v == 10 {
        'A'
    } else if v == 11 {
        'B'
    } else if v == 12 {
        'C'
    } else if v == 13 {
        'D'
    } else if v == 14 {
        'E'
    } else {
        'F'
    }
}

/// `c` is a digit or an uppercase hex letter, the only characters the
/// checksum field may carry.
pub open spec fn is_hex_upper(c: char) -> bool {
    ('0' <= c && c <= '9') || ('A' <= c && c <= 'F')
}

/// Nibble value of a hex character.
pub open spec fn hex_val(c: char) -> nat {
    if '0' <= c && c <= '9' {
        ((c as int) - 48) as nat
    } else {
        ((c as int) - 55) as nat
    }
}

/// The checksum byte for a frame body: one's complement of the low byte of
/// the code sum, plus one, reduced to a byte.
pub open spec fn lrc_byte(s: Seq<char>) -> nat {
    (((256 - sum_codes(s) % 256) % 256) as nat)
}

/// The two checksum characters appended to a frame body: the high then the
/// low nibble of the checksum byte, in uppercase hex.
pub open spec fn lrc_chars(s: Seq<char>) -> Seq<char> {
    seq![hex_char(lrc_byte(s) / 16), hex_char(lrc_byte(s) % 16)]
}

/// The acceptance test for a received body and its two checksum characters:
/// both characters are hex, and body codes plus the encoded byte close to
/// zero modulo 256.
pub open spec fn lrc_closes(body: Seq<char>, hi: char, lo: char) -> bool {
    &&& is_hex_upper(hi)
    &&& is_hex_upper(lo)
    &&& (sum_codes(body) + hex_val(hi) * 16 + hex_val(lo)) % 256 == 0
}

/// A whole received frame of expected length `total` is accepted: right
/// length, ASCII throughout, and the two characters before the terminator
/// close the checksum over everything that precedes them.
pub open spec fn frame_accepted(frame: Seq<char>, total: nat) -> bool {
    &&& frame.len() == total
    &&& total >= 3
    &&& vstd::utf8::is_ascii_chars(frame)
    &&& lrc_closes(frame.subrange(0, total - 3), frame[total - 3], frame[total - 2])
}

/// The length law of frame acceptance: an accepted frame has exactly the
/// expected total length, and any shorter or longer string is rejected.
pub proof fn lemma_accepted_length(frame: Seq<char>, total: nat)
    ensures
        frame_accepted(frame, total) ==> frame.len() == total,
        frame.len() != total ==> !frame_accepted(frame, total),
{
}

/// Code-sum of a string extended by one character.
pub proof fn lemma_sum_codes_snoc(s: Seq<char>, c: char)
    ensures
        sum_codes(s.push(c)) == sum_codes(s) + (c as nat),
{
    assert(s.push(c).drop_last() =~= s);
    assert(s.push(c).last() == c);
}

/// The hex character of a nibble is a hex character, decodes back to the
/// nibble, and is ASCII.
pub proof fn lemma_hex_char_val(v: nat)
    requires
        v < 16,
    ensures
        is_hex_upper(hex_char(v)),
        hex_val(hex_char(v)) == v,
        (hex_char(v) as int) < 128,
{
}

/// The checksum round-trip law: the two checksum characters computed for any
/// body close the checksum over that same body.
pub proof fn lemma_lrc_round_trip(body: Seq<char>)
    ensures
        lrc_closes(body, lrc_chars(body)[0], lrc_chars(body)[1]),
{
    let s = sum_codes(body);
    let l = lrc_byte(body);
    assert(s % 256 < 256) by {
        lemma_fundamental_div_mod(s as int, 256);
    }
    assert(l < 256);
    assert(l / 16 < 16);
    lemma_hex_char_val(l / 16);
    lemma_hex_char_val(l % 16);
    assert((l / 16) * 16 + l % 16 == l) by {
        lemma_fundamental_div_mod(l as int, 16);
    }
    assert(hex_val(lrc_chars(body)[0]) == l / 16);
    assert(hex_val(lrc_chars(body)[1]) == l % 16);
    assert((s + l) % 256 == 0) by {
        lemma_fundamental_div_mod(s as int, 256);
        if s % 256 == 0 {
            assert(l == 0);
            assert(s + l == 256 * (s as int / 256));
            lemma_mod_multiples_basic(s as int / 256, 256);
        } else {
            assert(l == 256 - s % 256);
            assert(s as int + l == 256 * (s as int / 256) + 256);
            assert(s as int + l == 256 * (s as int / 256 + 1));
            lemma_mod_multiples_basic(s as int / 256 + 1, 256);
        }
    }
}

/// The full checksum round-trip for an assembled frame: any ASCII body,
/// followed by its two checksum characters and an ASCII terminator, is
/// accepted as a frame of the corresponding total length.
pub proof fn lemma_frame_round_trip(body: Seq<char>, term: char)
    requires
        vstd::utf8::is_ascii_chars(body),
        (term as int) < 128,
    ensures
        frame_accepted(body + lrc_chars(body) + seq![term], body.len() + 3),
{
    let frame = body + lrc_chars(body) + seq![term];
    let total = body.len() + 3;
    assert(frame.len() == total);
    let l = lrc_byte(body);
    assert(l < 256) by {
        lemma_fundamental_div_mod(sum_codes(body) as int, 256);
    }
    lemma_hex_char_val(l / 16);
    lemma_hex_char_val(l % 16);
    assert(vstd::utf8::is_ascii_chars(frame)) by {
        assert(forall|i: int|
            0 <= i < frame.len() ==> '\0' <= #[trigger] frame[i] <= '\u{7f}') by {
            assert(frame[total - 3] == hex_char(l / 16));
            assert(frame[total - 2] == hex_char(l % 16));
            assert(frame[total - 1] == term);
        }
    }
    assert(frame.subrange(0, total - 3) =~= body);
    assert(frame[total - 3] == lrc_chars(body)[0]);
    assert(frame[total - 2] == lrc_chars(body)[1]);
    lemma_lrc_round_trip(body);
}

/// Appends the uppercase hex character for the nibble `v`.
pub fn push_hex_char(s: &mut String, v: u8)
    requires
        v < 16,
    ensures
        final(s)@ == old(s)@ + seq![hex_char(v as nat)],
{
    if v < 10 {
        push_digit(s, v);
    } else {
        proof {
            reveal_strlit("A");
            reveal_strlit("B");
            reveal_strlit("C");
            reveal_strlit("D");
            reveal_strlit("E");
            reveal_strlit("F");
        }
        match v {
            10 => s.append("A"),
            11 => s.append("B"),
            12 => s.append("C"),
            13 => s.append("D"),
            14 => s.append("E"),
            _ => s.append("F"),
        }
        assert(final(s)@ =~= old(s)@ + seq![hex_char(v as nat)]);
    }
}

} // verus!
