//! Decimal rendering of integers, as used in protocol commands and error
//! messages.

use vstd::prelude::*;

verus! {

/// ASCII code of the decimal digit `d`.
pub open spec fn digit_byte(d: nat) -> u8 {
    (48 + d) as u8
}

/// Whether `b` is the ASCII code of a decimal digit.
pub open spec fn is_digit_byte(b: u8) -> bool {
    48 <= b <= 57
}

/// The shortest decimal representation of `n`, most significant digit
/// first, as ASCII bytes.
pub open spec fn decimal_spec(n: nat) -> Seq<u8>
    decreases n,
{
    if n < 10 {
        seq![digit_byte(n)]
    } else {
        decimal_spec(n / 10).push(digit_byte(n % 10))
    }
}

/// Decimal representation of a signed integer: a `-` in front of the
/// digits of its magnitude when it is negative.
pub open spec fn signed_decimal_spec(n: int) -> Seq<u8> {
    if n < 0 {
        seq![45u8] + decimal_spec((-n) as nat)
    } else {
        decimal_spec(n as nat)
    }
}

/// The number that a string of ASCII decimal digits denotes.
pub open spec fn digits_value(s: Seq<u8>) -> int
    decreases s.len(),
{
    if s.len() == 0 {
        0
    } else {
        digits_value(s.drop_last()) * 10 + (s.last() - 48)
    }
}

/// Characters with the same codes as the given ASCII bytes.
pub open spec fn ascii_chars(s: Seq<u8>) -> Seq<char> {
    s.map_values(|b: u8| b as char)
}

/// Rendering a number in decimal loses nothing: the digits are ASCII
/// digits, there is no leading zero (but for zero itself), and reading them
/// back gives the number.
pub proof fn lemma_decimal_round_trip(n: nat)
    ensures
        decimal_spec(n).len() >= 1,
        forall|i: int| 0 <= i < decimal_spec(n).len() ==> is_digit_byte(#[trigger] decimal_spec(n)[i]),
        n > 0 ==> decimal_spec(n)[0] != 48u8,
        digits_value(decimal_spec(n)) == n,
    decreases n,
{
    if n >= 10 {
        lemma_decimal_round_trip(n / 10);
        let s = decimal_spec(n);
        assert(s.drop_last() =~= decimal_spec(n / 10));
        assert(s.last() == digit_byte(n % 10));
        assert(digit_byte(n % 10) - 48 == n % 10);
        assert(n == (n / 10) * 10 + n % 10);
        assert(s.len() > 0);
        assert(digits_value(s) == digits_value(s.drop_last()) * 10 + (s.last() - 48));
    } else {
        let s = decimal_spec(n);
        assert(s.drop_last() =~= Seq::<u8>::empty());
        assert(digits_value(s.drop_last()) == 0);
        assert(s.last() == digit_byte(n));
    }
}

/// A signed number renders as a `-` followed by the digits of its
/// magnitude when it is negative, and as its digits alone otherwise; either
/// way the digits read back to the magnitude.
pub proof fn lemma_signed_decimal_round_trip(n: int)
    ensures
        n < 0 ==> signed_decimal_spec(n)[0] == 45u8,
        n < 0 ==> signed_decimal_spec(n).len() >= 2,
        n < 0 ==> digits_value(signed_decimal_spec(n).subrange(1, signed_decimal_spec(n).len() as int)) == -n,
        n >= 0 ==> digits_value(signed_decimal_spec(n)) == n,
        n >= 0 ==> is_digit_byte(signed_decimal_spec(n)[0]),
{
    if n < 0 {
        lemma_decimal_round_trip((-n) as nat);
        let s = signed_decimal_spec(n);
        assert(s.subrange(1, s.len() as int) =~= decimal_spec((-n) as nat));
    } else {
        lemma_decimal_round_trip(n as nat);
    }
}

/// The characters made from ASCII bytes are as many as the bytes, and each
/// has the code of its byte.
pub proof fn lemma_ascii_chars(s: Seq<u8>)
    ensures
        ascii_chars(s).len() == s.len(),
        forall|i: int| 0 <= i < s.len() ==> (#[trigger] ascii_chars(s)[i]) as u32 == s[i] as u32,
{
}

/// Renders `n` in decimal.
pub fn decimal_bytes(n: u64) -> (out: Vec<u8>)
    ensures
        out@ == decimal_spec(n as nat),
    decreases n,
{
    if n < 10 {
        let mut v: Vec<u8> = Vec::new();
        v.push(48u8 + n as u8);
        v
    } else {
        let mut v = decimal_bytes(n / 10);
        v.push(48u8 + (n % 10) as u8);
        v
    }
}

/// Renders a signed `n` in decimal.
pub fn signed_decimal_bytes(n: i32) -> (out: Vec<u8>)
    ensures
        out@ == signed_decimal_spec(n as int),
{
    if n < 0 {
        let magnitude: u64 = (0i64 - n as i64) as u64;
        let digits = decimal_bytes(magnitude);
        let mut out: Vec<u8> = Vec::new();
        out.push(45u8);
        let mut i: usize = 0;
        while i < digits.len()
            invariant
                0 <= i <= digits.len(),
                out@ == seq![45u8] + digits@.subrange(0, i as int),
            decreases digits.len() - i,
        {
            out.push(digits[i]);
            i = i + 1;
            assert(out@ =~= seq![45u8] + digits@.subrange(0, i as int));
        }
        assert(digits@.subrange(0, digits.len() as int) =~= digits@);
        out
    } else {
        decimal_bytes(n as u64)
    }
}

/// `String::push`: appends the character `c` at the end of `s`.
#[verifier::external_body]
pub(crate) fn push_char(s: &mut String, c: char)
    ensures
        final(s)@ == old(s)@.push(c),
{
    s.push(c)
}

/// Appends the characters whose codes are the ASCII bytes `bytes`.
pub fn append_ascii(s: &mut String, bytes: &[u8])
    ensures
        final(s)@ == old(s)@ + ascii_chars(bytes@),
{
    let ghost start = s@;
    let mut i: usize = 0;
    while i < bytes.len()
        invariant
            0 <= i <= bytes.len(),
            s@ == start + ascii_chars(bytes@.subrange(0, i as int)),
        decreases bytes.len() - i,
    {
        let c = bytes[i] as char;
        push_char(s, c);
        i = i + 1;
        assert(ascii_chars(bytes@.subrange(0, i as int)) =~= ascii_chars(
            bytes@.subrange(0, i - 1),
        ).push(c));
    }
    assert(bytes@.subrange(0, bytes.len() as int) =~= bytes@);
}

} // verus!
