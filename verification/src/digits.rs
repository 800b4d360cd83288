//! Decimal ASCII text: the mathematical model of digit strings and the
//! verified parsing/formatting primitives the frame codec is built on.

use vstd::prelude::*;

verus! {

/// `c` is one of the ASCII digits `'0'..='9'`.
pub open spec fn is_digit(c: char) -> bool {
    '0' <= c && c <= '9'
}

/// Numeric value of an ASCII digit character.
pub open spec fn digit_val(c: char) -> nat {
    ((c as int) - 48) as nat
}

/// Every character of `s` is an ASCII digit.
pub open spec fn is_dec_digits(s: Seq<char>) -> bool {
    forall|i: int| 0 <= i < s.len() ==> is_digit(#[trigger] s[i])
}

/// The unsigned base-10 value of a digit string (most significant digit first).
pub open spec fn dec_val(s: Seq<char>) -> nat
    decreases s.len(),
{
    if s.len() == 0 {
        0
    } else {
        dec_val(s.drop_last()) * 10 + digit_val(s.last())
    }
}

/// The ASCII digit character for a value below ten.
pub open spec fn digit_char(d: nat) -> char {
    if d == 0 {
        '0'
    } else if d == 1 {
        '1'
    } else if d == 2 {
        '2'
    } else if d == 3 {
        '3'
    } else if d == 4 {
        '4'
    } else if d == 5 {
        '5'
    } else if d == 6 {
        '6'
    } else if d == 7 {
        '7'
    } else if d == 8 {
        '8'
    } else {
        '9'
    }
}

/// Shortest decimal rendering of `n`, most significant digit first.
pub open spec fn dec_string(n: nat) -> Seq<char>
    decreases n,
{
    if n < 10 {
        seq![digit_char(n)]
    } else {
        dec_string(n / 10).push(digit_char(n % 10))
    }
}

/// `n` rendered in decimal and left-padded with `'0'` up to `w` characters;
/// a value too wide for `w` keeps all of its digits.
pub open spec fn pad_dec(n: nat, w: nat) -> Seq<char> {
    if dec_string(n).len() >= w {
        dec_string(n)
    } else {
        Seq::new((w - dec_string(n).len()) as nat, |i: int| '0') + dec_string(n)
    }
}

/// A digit-string prefix never exceeds the value of the whole string.
pub proof fn lemma_dec_val_prefix(s: Seq<char>, i: int)
    requires
        0 <= i <= s.len(),
    ensures
        dec_val(s.subrange(0, i)) <= dec_val(s),
    decreases s.len() - i,
{
    if i == s.len() {
        assert(s.subrange(0, i) =~= s);
    } else {
        let a = s.subrange(0, i);
        let b = s.subrange(0, i + 1);
        assert(b.drop_last() =~= a);
        assert(b.last() == s[i]);
        lemma_dec_val_prefix(s, i + 1);
    }
}

/// Extending a digit string by one character multiplies its value by ten and
/// adds the new digit.
pub proof fn lemma_dec_val_snoc(s: Seq<char>, c: char)
    ensures
        dec_val(s.push(c)) == dec_val(s) * 10 + digit_val(c),
{
    assert(s.push(c).drop_last() =~= s);
    assert(s.push(c).last() == c);
}

/// A decimal rendering consists of digit characters only.
pub proof fn lemma_dec_string_digits(n: nat)
    ensures
        is_dec_digits(dec_string(n)),
    decreases n,
{
    if n >= 10 {
        lemma_dec_string_digits(n / 10);
        let s = dec_string(n / 10);
        assert forall|i: int| 0 <= i < dec_string(n).len() implies is_digit(
            #[trigger] dec_string(n)[i],
        ) by {
            if i < s.len() {
                assert(dec_string(n)[i] == s[i]);
            }
        }
    }
}

/// A zero-padded decimal rendering consists of digit characters only, and is
/// therefore ASCII.
pub proof fn lemma_pad_dec_digits(n: nat, w: nat)
    ensures
        is_dec_digits(pad_dec(n, w)),
        vstd::utf8::is_ascii_chars(pad_dec(n, w)),
{
    lemma_dec_string_digits(n);
    let p = pad_dec(n, w);
    assert forall|i: int| 0 <= i < p.len() implies is_digit(#[trigger] p[i]) by {
        if dec_string(n).len() < w {
            let z = (w - dec_string(n).len()) as int;
            if i >= z {
                assert(p[i] == dec_string(n)[i - z]);
            }
        }
    }
    assert forall|i: int| 0 <= i < p.len() implies '\0' <= #[trigger] p[i] <= '\u{7f}' by {
        assert(is_digit(p[i]));
    }
}

/// Parses `s` as an unsigned decimal number of at most `max`.
/// Returns the value exactly when `s` is a non-empty, all-digit string whose
/// value fits the bound; anything else is rejected.
pub fn parse_dec_bounded(s: &str, max: u32) -> (r: Option<u32>)
    requires
        max <= 65535,
    ensures
        (s@.len() > 0 && is_dec_digits(s@) && dec_val(s@) <= max as nat) ==> r == Some(
            (dec_val(s@) as u32),
        ),
        !(s@.len() > 0 && is_dec_digits(s@) && dec_val(s@) <= max as nat) ==> r is None,
{
    let len = s.unicode_len();
    if len == 0 {
        return None;
    }
    let mut val: u32 = 0;
    let mut i: usize = 0;
    while i < len
        invariant
            0 <= i <= len,
            len == s@.len(),
            max <= 65535,
            is_dec_digits(s@.subrange(0, i as int)),
            val == dec_val(s@.subrange(0, i as int)),
            val <= max,
        decreases len - i,
    {
        let c = s.get_char(i);
        let u: u32 = c as u32;
        if u < 48 || u > 57 {
            assert(!is_digit(s@[i as int]));
            return None;
        }
        let d: u32 = u - 48;
        proof {
            lemma_dec_val_snoc(s@.subrange(0, i as int), s@[i as int]);
            assert(s@.subrange(0, i as int).push(s@[i as int]) =~= s@.subrange(0, i as int + 1));
        }
        val = val * 10 + d;
        if val > max {
            proof {
                lemma_dec_val_prefix(s@, i as int + 1);
            }
            return None;
        }
        i = i + 1;
    }
    proof {
        assert(s@.subrange(0, len as int) =~= s@);
    }
    Some(val)
}

/// Appends the single ASCII digit for `d` to `s`.
pub fn push_digit(s: &mut String, d: u8)
    requires
        d < 10,
    ensures
        final(s)@ == old(s)@ + seq![digit_char(d as nat)],
{
    proof {
        reveal_strlit("0");
        reveal_strlit("1");
        reveal_strlit("2");
        reveal_strlit("3");
        reveal_strlit("4");
        reveal_strlit("5");
        reveal_strlit("6");
        reveal_strlit("7");
        reveal_strlit("8");
        reveal_strlit("9");
    }
    match d {
        0 => s.append("0"),
        1 => s.append("1"),
        2 => s.append("2"),
        3 => s.append("3"),
        4 => s.append("4"),
        5 => s.append("5"),
        6 => s.append("6"),
        7 => s.append("7"),
        8 => s.append("8"),
        _ => s.append("9"),
    }
    assert(final(s)@ =~= old(s)@ + seq![digit_char(d as nat)]);
}

/// Appends `n` in decimal, left-padded with zeros to `width` characters.
pub fn append_dec_padded(s: &mut String, n: u8, width: usize)
    ensures
        final(s)@ == old(s)@ + pad_dec(n as nat, width as nat),
{
    let digits: usize = if n >= 100 {
        3
    } else if n >= 10 {
        2
    } else {
        1
    };
    proof {
        lemma_dec_string_u8(n as nat);
        assert(dec_string(n as nat).len() == digits);
    }
    let mut pad: usize = 0;
    if width > digits {
        pad = width - digits;
    }
    let mut k: usize = 0;
    while k < pad
        invariant
            0 <= k <= pad,
            s@ =~= old(s)@ + Seq::new(k as nat, |i: int| '0'),
        decreases pad - k,
    {
        push_digit(s, 0);
        proof {
            assert(s@ =~= old(s)@ + Seq::new((k + 1) as nat, |i: int| '0'));
        }
        k = k + 1;
    }
    if n >= 100 {
        push_digit(s, n / 100);
        push_digit(s, (n / 10) % 10);
        push_digit(s, n % 10);
    } else if n >= 10 {
        push_digit(s, n / 10);
        push_digit(s, n % 10);
    } else {
        push_digit(s, n);
    }
    proof {
        lemma_dec_string_u8(n as nat);
        assert(final(s)@ =~= old(s)@ + pad_dec(n as nat, width as nat));
    }
}

/// The decimal rendering of a byte value, digit by digit.
pub proof fn lemma_dec_string_u8(n: nat)
    requires
        n < 256,
    ensures
        n < 10 ==> dec_string(n) =~= seq![digit_char(n)],
        10 <= n < 100 ==> dec_string(n) =~= seq![digit_char(n / 10), digit_char(n % 10)],
        100 <= n ==> dec_string(n) =~= seq![
            digit_char(n / 100),
            digit_char((n / 10) % 10),
            digit_char(n % 10),
        ],
{
    if n < 10 {
        assert(dec_string(n) =~= seq![digit_char(n)]);
    } else if n < 100 {
        assert(n / 10 < 10) by (nonlinear_arith)
            requires
                n < 100,
        ;
        assert(dec_string(n / 10) =~= seq![digit_char(n / 10)]);
        assert(dec_string(n) =~= dec_string(n / 10).push(digit_char(n % 10)));
        assert(dec_string(n) =~= seq![digit_char(n / 10), digit_char(n % 10)]);
    } else {
        assert(n / 10 / 10 == n / 100) by (nonlinear_arith);
        assert(10 <= n / 10 < 100) by (nonlinear_arith)
            requires
                100 <= n < 256,
        ;
        assert(n / 100 < 10) by (nonlinear_arith)
            requires
                100 <= n < 256,
        ;
        assert(dec_string(n / 10 / 10) =~= seq![digit_char(n / 10 / 10)]);
        assert(dec_string(n / 10) =~= dec_string(n / 10 / 10).push(digit_char((n / 10) % 10)));
        assert(dec_string(n / 10) =~= seq![digit_char(n / 100), digit_char((n / 10) % 10)]);
        assert(dec_string(n) =~= dec_string(n / 10).push(digit_char(n % 10)));
        assert(dec_string(n) =~= seq![digit_char(n / 100), digit_char((n / 10) % 10), digit_char(n % 10)]);
    }
}

} // verus!
