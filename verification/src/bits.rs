//! The bit-string model behind the payload unpacking: a 5-digit decimal
//! payload field is turned into a 16-character binary string whose character
//! at position `i` is bit `i` of the value (least significant bit first), and
//! semantic sub-fields are slices of that string read back as integers.

use vstd::prelude::*;
use vstd::arithmetic::power2::pow2;
use vstd::arithmetic::power2::lemma_pow2_adds;
use vstd::arithmetic::power2::lemma_pow2_pos;
use vstd::arithmetic::power2::lemma2_to64;
use vstd::arithmetic::div_mod::lemma_div_denominator;
use vstd::arithmetic::div_mod::lemma_breakdown;
use vstd::arithmetic::div_mod::lemma_small_mod;
use vstd::arithmetic::div_mod::lemma_mod_division_less_than_divisor;

verus! {

/// The character for bit `i` of `n`: `'1'` when the bit is set, else `'0'`.
pub open spec fn bit_char(n: nat, i: nat) -> char {
    if (n / pow2(i)) % 2 == 1 {
        '1'
    } else {
        '0'
    }
}

/// The `len`-character binary string of `n`, least significant bit first.
/// This is the reversed rendering the wire protocol works with: the standard
/// big-endian binary string written backwards.
pub open spec fn bits_lsbf(n: nat, len: nat) -> Seq<char> {
    Seq::new(len, |i: int| bit_char(n, i as nat))
}

/// Every character of `s` is `'0'` or `'1'`.
pub open spec fn is_bin_digits(s: Seq<char>) -> bool {
    forall|i: int| 0 <= i < s.len() ==> (#[trigger] s[i] == '0' || s[i] == '1')
}

/// The value of a binary string read least significant bit first.
pub open spec fn bin_val_lsbf(s: Seq<char>) -> nat
    decreases s.len(),
{
    if s.len() == 0 {
        0
    } else {
        (if s[0] == '1' {
            1nat
        } else {
            0nat
        }) + 2 * bin_val_lsbf(s.subrange(1, s.len() as int))
    }
}

/// The `w`-bit field of `n` that starts at bit `lo`.
pub open spec fn extract_bits(n: nat, lo: nat, w: nat) -> nat {
    (n / pow2(lo)) % pow2(w)
}

/// Slicing the bit string of `n` is the bit string of a shifted value.
pub proof fn lemma_bits_subrange(n: nat, len: nat, a: int, b: int)
    requires
        0 <= a <= b <= len,
    ensures
        bits_lsbf(n, len).subrange(a, b) =~= bits_lsbf(n / pow2(a as nat), (b - a) as nat),
{
    assert forall|i: int| 0 <= i < b - a implies bits_lsbf(n, len).subrange(a, b)[i] == bit_char(
        n / pow2(a as nat),
        i as nat,
    ) by {
        lemma_pow2_adds(a as nat, i as nat);
        lemma_pow2_pos(a as nat);
        lemma_pow2_pos(i as nat);
        lemma_div_denominator(n as int, pow2(a as nat) as int, pow2(i as nat) as int);
        assert(n / pow2((a + i) as nat) == (n / pow2(a as nat)) / pow2(i as nat));
    }
}

/// Reading the `len`-bit string of `n` back yields `n` modulo `pow2(len)`.
pub proof fn lemma_bin_val_of_bits(n: nat, len: nat)
    ensures
        bin_val_lsbf(bits_lsbf(n, len)) == n % pow2(len),
    decreases len,
{
    if len == 0 {
        assert(pow2(0) == 1) by {
            lemma2_to64();
        }
        assert(n % 1 == 0) by {
            vstd::arithmetic::div_mod::lemma_mod_self_0(1);
            vstd::arithmetic::div_mod::lemma_mod_multiples_basic(n as int, 1);
        }
    } else {
        let s = bits_lsbf(n, len);
        assert(pow2(0) == 1 && pow2(1) == 2) by {
            lemma2_to64();
        }
        assert(n / pow2(0) == n) by {
            vstd::arithmetic::div_mod::lemma_div_basics(n as int);
        }
        assert(s[0] == bit_char(n, 0));
        assert(s[0] == '1' <==> n % 2 == 1);
        lemma_bits_subrange(n, len, 1, len as int);
        assert(s.subrange(1, len as int) =~= bits_lsbf(n / 2, (len - 1) as nat));
        lemma_bin_val_of_bits(n / 2, (len - 1) as nat);
        lemma_pow2_pos((len - 1) as nat);
        lemma_breakdown(n as int, 2, pow2((len - 1) as nat) as int);
        lemma_pow2_adds(1, (len - 1) as nat);
        assert(pow2(len) == 2 * pow2((len - 1) as nat));
        assert(n % (2 * pow2((len - 1) as nat)) == 2 * ((n / 2) % pow2((len - 1) as nat)) + n
            % 2);
        assert(n % 2 == 0 || n % 2 == 1);
        assert(bin_val_lsbf(s) == (if n % 2 == 1 {
            1nat
        } else {
            0nat
        }) + 2 * ((n / 2) % pow2((len - 1) as nat)));
    }
}

/// The inverse law of the two bit primitives: for any value that fits 16
/// bits, rendering it as the reversed 16-character binary string and reading
/// that whole string back reconstructs the value.
pub proof fn lemma_bits_round_trip(n: nat)
    requires
        n < 65536,
    ensures
        bin_val_lsbf(bits_lsbf(n, 16)) == n,
{
    lemma_bin_val_of_bits(n, 16);
    assert(pow2(16) == 65536) by {
        lemma2_to64();
    }
    lemma_small_mod(n, pow2(16));
}

/// Reading a slice `[a, b)` of the bit string of `n` yields the bit field of
/// `n` that starts at bit `a` and is `b - a` bits wide.
pub proof fn lemma_bin_val_slice(n: nat, len: nat, a: int, b: int)
    requires
        0 <= a <= b <= len,
    ensures
        bin_val_lsbf(bits_lsbf(n, len).subrange(a, b)) == extract_bits(n, a as nat, (b - a) as nat),
{
    lemma_bits_subrange(n, len, a, b);
    lemma_bin_val_of_bits(n / pow2(a as nat), (b - a) as nat);
}

/// A bit field of width `w` is below `pow2(w)`.
pub proof fn lemma_extract_bits_bound(n: nat, lo: nat, w: nat)
    ensures
        extract_bits(n, lo, w) < pow2(w),
{
    lemma_pow2_pos(w);
    lemma_mod_division_less_than_divisor((n / pow2(lo)) as int, pow2(w) as int);
}

/// A rendered bit string consists of `'0'` and `'1'` characters only, and is
/// therefore ASCII.
pub proof fn lemma_bits_chars(n: nat, len: nat)
    ensures
        is_bin_digits(bits_lsbf(n, len)),
        vstd::utf8::is_ascii_chars(bits_lsbf(n, len)),
{
    assert forall|i: int| 0 <= i < len implies '\0' <= #[trigger] bits_lsbf(n, len)[i]
        <= '\u{7f}' by {
        assert(bits_lsbf(n, len)[i] == '0' || bits_lsbf(n, len)[i] == '1');
    }
}

/// A slice of a binary string is a binary string.
pub proof fn lemma_bin_digits_subrange(s: Seq<char>, a: int, b: int)
    requires
        is_bin_digits(s),
        0 <= a <= b <= s.len(),
    ensures
        is_bin_digits(s.subrange(a, b)),
{
    assert forall|i: int| 0 <= i < b - a implies (#[trigger] s.subrange(a, b)[i] == '0'
        || s.subrange(a, b)[i] == '1') by {
        assert(s.subrange(a, b)[i] == s[a + i]);
    }
}

/// Splitting a binary string at `i`: the whole value is the low part plus the
/// high part shifted up by `i` bits.
pub proof fn lemma_bin_val_split(s: Seq<char>, i: int)
    requires
        0 <= i <= s.len(),
    ensures
        bin_val_lsbf(s) == bin_val_lsbf(s.subrange(0, i)) + pow2(i as nat) * bin_val_lsbf(
            s.subrange(i, s.len() as int),
        ),
    decreases i,
{
    if i == 0 {
        assert(pow2(0) == 1) by {
            lemma2_to64();
        }
        assert(s.subrange(0, s.len() as int) =~= s);
        assert(bin_val_lsbf(s.subrange(0, 0)) == 0);
        assert(pow2(0) * bin_val_lsbf(s) == bin_val_lsbf(s));
    } else {
        let t = s.subrange(1, s.len() as int);
        lemma_bin_val_split(t, i - 1);
        assert(t.subrange(0, i - 1) =~= s.subrange(0, i).subrange(1, i));
        assert(t.subrange(i - 1, t.len() as int) =~= s.subrange(i, s.len() as int));
        assert(s.subrange(0, i)[0] == s[0]);
        vstd::arithmetic::power2::lemma_pow2_unfold(i as nat);
        assert(pow2(i as nat) == 2 * pow2((i - 1) as nat));
        let low = s.subrange(0, i);
        assert(bin_val_lsbf(low) == (if s[0] == '1' {
            1nat
        } else {
            0nat
        }) + 2 * bin_val_lsbf(t.subrange(0, i - 1)));
        assert(bin_val_lsbf(s) == (if s[0] == '1' {
            1nat
        } else {
            0nat
        }) + 2 * (bin_val_lsbf(t.subrange(0, i - 1)) + pow2((i - 1) as nat) * bin_val_lsbf(
            t.subrange(i - 1, t.len() as int),
        )));
        let lo_tail = bin_val_lsbf(t.subrange(0, i - 1));
        let hi = bin_val_lsbf(t.subrange(i - 1, t.len() as int));
        assert(2 * (lo_tail + pow2((i - 1) as nat) * hi) == 2 * lo_tail + (2 * pow2(
            (i - 1) as nat,
        )) * hi) by (nonlinear_arith);
        assert((2 * pow2((i - 1) as nat)) * hi == pow2(i as nat) * hi);
        assert(bin_val_lsbf(s) == bin_val_lsbf(low) + pow2(i as nat) * hi);
        assert(hi == bin_val_lsbf(s.subrange(i, s.len() as int)));
    }
}

} // verus!
