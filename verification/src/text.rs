//! Small string helpers shared by the domain types: lower-case hex and
//! decimal rendering, and exact string comparison.
use vstd::prelude::*;

verus! {

/// Lower-case hexadecimal digit for a nibble (`0..16`).
pub open spec fn hex_digit(n: int) -> char {
    if n < 10 {
        (n + 48) as char
    } else {
        (n + 87) as char
    }
}

/// The two lower-case hex digits of one byte, high nibble first.
pub open spec fn hex_byte(b: u8) -> Seq<char> {
    seq![hex_digit(b as int / 16), hex_digit(b as int % 16)]
}

/// Lower-case hex rendering of a byte sequence (two digits per byte, in
/// order).
pub open spec fn hex_of(s: Seq<u8>) -> Seq<char>
    decreases s.len(),
{
    if s.len() == 0 {
        Seq::empty()
    } else {
        hex_of(s.drop_last()) + hex_byte(s.last())
    }
}

/// True iff `c` is one of `0-9a-f`.
pub open spec fn is_lower_hex_char(c: char) -> bool {
    ('0' <= c && c <= '9') || ('a' <= c && c <= 'f')
}

/// The hex rendering has two characters per byte, each a lower-case hex
/// digit.
pub proof fn lemma_hex_of_shape(s: Seq<u8>)
    ensures
        hex_of(s).len() == 2 * s.len(),
        forall|i: int| 0 <= i < hex_of(s).len() ==> is_lower_hex_char(#[trigger] hex_of(s)[i]),
    decreases s.len(),
{
    if s.len() > 0 {
        lemma_hex_of_shape(s.drop_last());
        let b = s.last();
        assert(0 <= b as int / 16 < 16 && 0 <= b as int % 16 < 16);
    }
}

/// Appending one byte appends its two hex digits.
pub proof fn lemma_hex_of_push(s: Seq<u8>, b: u8)
    ensures
        hex_of(s.push(b)) == hex_of(s) + hex_byte(b),
{
    assert(s.push(b).drop_last() =~= s);
}

/// Append `c` to `s`.
#[verifier::external_body]
pub(crate) fn push_char(s: &mut String, c: char)
    ensures
        final(s)@ == old(s)@.push(c),
{
    s.push(c);
}

/// The lower-case hex digit for a nibble.
pub fn hex_digit_exec(n: u8) -> (c: char)
    requires
        n < 16,
    ensures
        c == hex_digit(n as int),
{
    if n < 10 {
        (n + 48) as char
    } else {
        (n + 87) as char
    }
}

/// Append the two hex digits of `b` to `s`.
pub fn push_hex_byte(s: &mut String, b: u8)
    ensures
        final(s)@ == old(s)@ + hex_byte(b),
{
    let hi = hex_digit_exec(b / 16);
    let lo = hex_digit_exec(b % 16);
    push_char(s, hi);
    push_char(s, lo);
    assert(final(s)@ =~= old(s)@ + hex_byte(b));
}

/// The decimal digit character for `d` (`0..10`).
pub open spec fn decimal_digit(d: nat) -> char {
    (d + 48) as char
}

/// Decimal rendering of a natural number, most significant digit first, with
/// no leading zero.
pub open spec fn decimal_of(n: nat) -> Seq<char>
    decreases n,
{
    if n < 10 {
        seq![decimal_digit(n)]
    } else {
        decimal_of(n / 10).push(decimal_digit(n % 10))
    }
}

/// Append the decimal rendering of `n` to `s`.
pub fn push_decimal(s: &mut String, n: usize)
    ensures
        final(s)@ == old(s)@ + decimal_of(n as nat),
    decreases n,
{
    if n >= 10 {
        push_decimal(s, n / 10);
    }
    let d: u8 = (n % 10) as u8;
    push_char(s, (d + 48) as char);
    assert(s@ =~= old(s)@ + decimal_of(n as nat));
}

/// Exact comparison of two string slices.
pub fn str_eq(a: &str, b: &str) -> (r: bool)
    ensures
        r == (a@ == b@),
{
    let x = a.to_owned();
    let y = b.to_owned();
    x == y
}

} // verus!
