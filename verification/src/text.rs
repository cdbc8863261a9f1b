//! Text rendering used by the palette views: decimal numbers and
//! `#RRGGBB` colour codes.
use vstd::prelude::*;

verus! {

/// Appends one character to a string (`String::push`).
///
/// Trusted: std documents `push` as appending the given `char` to the end of
/// the string, so the new contents are the old contents followed by `c`.
#[verifier::external_body]
pub(crate) fn push_char(s: &mut String, c: char)
    ensures
        final(s)@ == old(s)@.push(c),
{
    s.push(c);
}

/// The character of a digit in base sixteen, upper case (`0`-`9`, `A`-`F`).
pub open spec fn digit_char(d: int) -> char {
    if d == 0 { '0' }
    else if d == 1 { '1' }
    else if d == 2 { '2' }
    else if d == 3 { '3' }
    else if d == 4 { '4' }
    else if d == 5 { '5' }
    else if d == 6 { '6' }
    else if d == 7 { '7' }
    else if d == 8 { '8' }
    else if d == 9 { '9' }
    else if d == 10 { 'A' }
    else if d == 11 { 'B' }
    else if d == 12 { 'C' }
    else if d == 13 { 'D' }
    else if d == 14 { 'E' }
    else { 'F' }
}

/// The value of a digit character, the inverse of `digit_char` on `0..16`.
pub open spec fn digit_value(c: char) -> int {
    if c == '0' { 0 }
    else if c == '1' { 1 }
    else if c == '2' { 2 }
    else if c == '3' { 3 }
    else if c == '4' { 4 }
    else if c == '5' { 5 }
    else if c == '6' { 6 }
    else if c == '7' { 7 }
    else if c == '8' { 8 }
    else if c == '9' { 9 }
    else if c == 'A' { 10 }
    else if c == 'B' { 11 }
    else if c == 'C' { 12 }
    else if c == 'D' { 13 }
    else if c == 'E' { 14 }
    else { 15 }
}

/// Whether a character is an upper-case hexadecimal digit: `0`-`9` or `A`-`F`.
pub open spec fn is_upper_hex_digit(c: char) -> bool {
    ('0' <= c && c <= '9') || ('A' <= c && c <= 'F')
}

/// The number an upper-case hexadecimal digit stands for, by its code point.
pub open spec fn hex_char_value(c: char) -> int {
    if '0' <= c && c <= '9' {
        c as int - '0' as int
    } else {
        c as int - 'A' as int + 10
    }
}

/// Whether a character is an ASCII lower-case letter.
pub open spec fn is_ascii_lower(c: char) -> bool {
    'a' <= c && c <= 'z'
}

/// The decimal rendering of a natural number, without sign or leading zeros.
pub open spec fn decimal(n: nat) -> Seq<char>
    decreases n,
{
    if n < 10 {
        seq![digit_char(n as int)]
    } else {
        decimal(n / 10).push(digit_char((n % 10) as int))
    }
}

/// The number that a string of decimal digits denotes.
pub open spec fn decimal_value(s: Seq<char>) -> int
    decreases s.len(),
{
    if s.len() == 0 {
        0
    } else {
        decimal_value(s.drop_last()) * 10 + digit_value(s.last())
    }
}

/// Two upper-case hexadecimal digits of a byte, high nibble first.
pub open spec fn byte_hex(b: u8) -> Seq<char> {
    seq![digit_char(b as int / 16), digit_char(b as int % 16)]
}

/// The colour code `#RRGGBB` of an RGB colour, in upper-case hexadecimal.
pub open spec fn hex_code(r: u8, g: u8, b: u8) -> Seq<char> {
    seq!['#'] + byte_hex(r) + byte_hex(g) + byte_hex(b)
}

/// The character of a digit below sixteen.
fn digit(d: u8) -> (c: char)
    requires
        d < 16,
    ensures
        c == digit_char(d as int),
{
    match d {
        0 => '0',
        1 => '1',
        2 => '2',
        3 => '3',
        4 => '4',
        5 => '5',
        6 => '6',
        7 => '7',
        8 => '8',
        9 => '9',
        10 => 'A',
        11 => 'B',
        12 => 'C',
        13 => 'D',
        14 => 'E',
        _ => 'F',
    }
}

/// Appends the decimal rendering of `n` to `s`.
pub fn push_decimal(s: &mut String, n: usize)
    ensures
        final(s)@ == old(s)@ + decimal(n as nat),
    decreases n,
{
    if n >= 10 {
        push_decimal(s, n / 10);
    }
    let d: u8 = (n % 10) as u8;
    push_char(s, digit(d));
    proof {
        assert(decimal(n as nat) == if n < 10 {
            seq![digit_char(n as int)]
        } else {
            decimal((n / 10) as nat).push(digit_char((n % 10) as int))
        });
    }
}

/// The decimal rendering of `n`, as `n.to_string()` writes it.
pub fn decimal_string(n: usize) -> (s: String)
    ensures
        s@ == decimal(n as nat),
{
    let mut s = String::new();
    push_decimal(&mut s, n);
    s
}

/// Appends the two hexadecimal digits of a byte to `s`.
fn push_byte_hex(s: &mut String, b: u8)
    ensures
        final(s)@ == old(s)@ + byte_hex(b),
{
    push_char(s, digit(b / 16));
    push_char(s, digit(b % 16));
}

/// The colour code `#RRGGBB` of an RGB colour.
pub fn hex_string(r: u8, g: u8, b: u8) -> (s: String)
    ensures
        s@ == hex_code(r, g, b),
        s@.len() == 7,
        s@[0] == '#',
        forall|i: int| 1 <= i < 7 ==> is_upper_hex_digit(#[trigger] s@[i]),
        hex_char_value(s@[1]) * 16 + hex_char_value(s@[2]) == r,
        hex_char_value(s@[3]) * 16 + hex_char_value(s@[4]) == g,
        hex_char_value(s@[5]) * 16 + hex_char_value(s@[6]) == b,
{
    let mut s = String::new();
    push_char(&mut s, '#');
    push_byte_hex(&mut s, r);
    push_byte_hex(&mut s, g);
    push_byte_hex(&mut s, b);
    proof {
        assert(s@ =~= hex_code(r, g, b));
        lemma_hex_code_digits(r, g, b);
    }
    s
}

/// A decimal rendering has at least one character, every character is a
/// digit, and it starts with `0` only when it is the number zero.
pub proof fn lemma_decimal_shape(n: nat)
    ensures
        decimal(n).len() >= 1,
        forall|i: int| 0 <= i < decimal(n).len() ==> '0' <= #[trigger] decimal(n)[i] <= '9',
        decimal(n)[0] == '0' ==> n == 0,
    decreases n,
{
    if n >= 10 {
        lemma_decimal_shape(n / 10);
        assert forall|i: int| 0 <= i < decimal(n).len() implies '0' <= #[trigger] decimal(n)[i]
            <= '9' by {
            if i < decimal(n / 10).len() {
                assert(decimal(n)[i] == decimal(n / 10)[i]);
            }
        }
    }
}

/// Reading the decimal rendering of a number back gives that number.
pub proof fn lemma_decimal_value(n: nat)
    ensures
        decimal_value(decimal(n)) == n,
    decreases n,
{
    if n < 10 {
        lemma_digit_value(n as int);
        assert(decimal(n).drop_last() =~= Seq::<char>::empty());
        assert(decimal_value(Seq::<char>::empty()) == 0);
        assert(decimal_value(decimal(n)) == decimal_value(decimal(n).drop_last()) * 10
            + digit_value(decimal(n).last()));
    } else {
        lemma_decimal_value(n / 10);
        lemma_digit_value((n % 10) as int);
        assert(decimal(n).drop_last() =~= decimal(n / 10));
        assert(decimal(n).last() == digit_char((n % 10) as int));
        assert((n / 10) * 10 + n % 10 == n) by (nonlinear_arith);
        assert(decimal_value(decimal(n)) == decimal_value(decimal(n).drop_last()) * 10
            + digit_value(decimal(n).last()));
    }
}

/// Distinct numbers have distinct decimal renderings.
pub proof fn lemma_decimal_injective(m: nat, n: nat)
    requires
        decimal(m) == decimal(n),
    ensures
        m == n,
{
    lemma_decimal_value(m);
    lemma_decimal_value(n);
}

/// Reading a digit back: `digit_value` inverts `digit_char` on `0..16`.
proof fn lemma_digit_value(d: int)
    requires
        0 <= d < 16,
    ensures
        digit_value(digit_char(d)) == d,
{
}

/// A colour code has seven characters: `#` and six upper-case hexadecimal
/// digits, and reading the digits back gives the three channels.
pub proof fn lemma_hex_code_shape(r: u8, g: u8, b: u8)
    ensures
        hex_code(r, g, b).len() == 7,
        hex_code(r, g, b)[0] == '#',
        digit_value(hex_code(r, g, b)[1]) * 16 + digit_value(hex_code(r, g, b)[2]) == r,
        digit_value(hex_code(r, g, b)[3]) * 16 + digit_value(hex_code(r, g, b)[4]) == g,
        digit_value(hex_code(r, g, b)[5]) * 16 + digit_value(hex_code(r, g, b)[6]) == b,
{
    let h = hex_code(r, g, b);
    assert(h[1] == digit_char(r as int / 16));
    assert(h[2] == digit_char(r as int % 16));
    assert(h[3] == digit_char(g as int / 16));
    assert(h[4] == digit_char(g as int % 16));
    assert(h[5] == digit_char(b as int / 16));
    assert(h[6] == digit_char(b as int % 16));
    lemma_digit_value(r as int / 16);
    lemma_digit_value(r as int % 16);
    lemma_digit_value(g as int / 16);
    lemma_digit_value(g as int % 16);
    lemma_digit_value(b as int / 16);
    lemma_digit_value(b as int % 16);
}

/// Every character of a colour code after `#` is an upper-case hexadecimal
/// digit (`0`-`9`, `A`-`F`), and the digits, read by their code points, give
/// the red, green and blue channels, high digit first.
pub proof fn lemma_hex_code_digits(r: u8, g: u8, b: u8)
    ensures
        hex_code(r, g, b).len() == 7,
        hex_code(r, g, b)[0] == '#',
        forall|i: int| 1 <= i < 7 ==> is_upper_hex_digit(#[trigger] hex_code(r, g, b)[i]),
        hex_char_value(hex_code(r, g, b)[1]) * 16 + hex_char_value(hex_code(r, g, b)[2]) == r,
        hex_char_value(hex_code(r, g, b)[3]) * 16 + hex_char_value(hex_code(r, g, b)[4]) == g,
        hex_char_value(hex_code(r, g, b)[5]) * 16 + hex_char_value(hex_code(r, g, b)[6]) == b,
{
    let h = hex_code(r, g, b);
    assert(h[1] == digit_char(r as int / 16));
    assert(h[2] == digit_char(r as int % 16));
    assert(h[3] == digit_char(g as int / 16));
    assert(h[4] == digit_char(g as int % 16));
    assert(h[5] == digit_char(b as int / 16));
    assert(h[6] == digit_char(b as int % 16));
    lemma_digit_char_hex(r as int / 16);
    lemma_digit_char_hex(r as int % 16);
    lemma_digit_char_hex(g as int / 16);
    lemma_digit_char_hex(g as int % 16);
    lemma_digit_char_hex(b as int / 16);
    lemma_digit_char_hex(b as int % 16);
}

/// A digit below sixteen is written as an upper-case hexadecimal digit that
/// stands for it.
proof fn lemma_digit_char_hex(d: int)
    requires
        0 <= d < 16,
    ensures
        is_upper_hex_digit(digit_char(d)),
        hex_char_value(digit_char(d)) == d,
{
}

/// Distinct colours have distinct colour codes.
pub proof fn lemma_hex_code_injective(r1: u8, g1: u8, b1: u8, r2: u8, g2: u8, b2: u8)
    requires
        hex_code(r1, g1, b1) == hex_code(r2, g2, b2),
    ensures
        r1 == r2 && g1 == g2 && b1 == b2,
{
    lemma_hex_code_shape(r1, g1, b1);
    lemma_hex_code_shape(r2, g2, b2);
}

/// A colour code holds no lower-case letter, so upper-casing it leaves it as it is.
pub proof fn lemma_hex_code_upper_case(r: u8, g: u8, b: u8)
    ensures
        forall|i: int| 0 <= i < hex_code(r, g, b).len() ==> !is_ascii_lower(
            #[trigger] hex_code(r, g, b)[i],
        ),
{
    let h = hex_code(r, g, b);
    assert(h.len() == 7);
    assert forall|i: int| 0 <= i < h.len() implies !is_ascii_lower(#[trigger] h[i]) by {
        if i == 0 {
        } else if i == 1 {
            assert(h[1] == digit_char(r as int / 16));
        } else if i == 2 {
            assert(h[2] == digit_char(r as int % 16));
        } else if i == 3 {
            assert(h[3] == digit_char(g as int / 16));
        } else if i == 4 {
            assert(h[4] == digit_char(g as int % 16));
        } else if i == 5 {
            assert(h[5] == digit_char(b as int / 16));
        } else {
            assert(h[6] == digit_char(b as int % 16));
        }
    }
}

} // verus!
