//! Hexadecimal digits: which characters are digits, what they are worth, and how a string
//! of them is read as a number.

use vstd::prelude::*;

verus! {

/// `c` is one of `0` to `9`.
pub open spec fn is_decimal_digit(c: char) -> bool {
    '0' <= c && c <= '9'
}

/// `c` is one of `a` to `f`.
pub open spec fn is_lower_hex_letter(c: char) -> bool {
    'a' <= c && c <= 'f'
}

/// `c` is one of `A` to `F`.
pub open spec fn is_upper_hex_letter(c: char) -> bool {
    'A' <= c && c <= 'F'
}

/// `c` is a hexadecimal digit in either case.
pub open spec fn is_hex_digit(c: char) -> bool {
    is_decimal_digit(c) || is_lower_hex_letter(c) || is_upper_hex_letter(c)
}

/// `c` is a hexadecimal digit as the canonical form writes it: a decimal digit or a
/// lower-case letter.
pub open spec fn is_canonical_digit(c: char) -> bool {
    is_decimal_digit(c) || is_lower_hex_letter(c)
}

/// `c` with the letters `A` to `Z` replaced by `a` to `z`; every other character is itself.
pub open spec fn ascii_lower(c: char) -> char {
    if 'A' <= c && c <= 'Z' {
        ((c as u8) + 32) as char
    } else {
        c
    }
}

/// The number from 0 to 15 that a hexadecimal digit stands for; 0 for any other character.
pub open spec fn digit_value(c: char) -> nat {
    if is_decimal_digit(c) {
        (c as u8 - 48) as nat
    } else if is_lower_hex_letter(c) {
        (c as u8 - 87) as nat
    } else if is_upper_hex_letter(c) {
        (c as u8 - 55) as nat
    } else {
        0
    }
}

/// The canonical digit that stands for `n`, for `n` below 16.
pub open spec fn digit_char(n: nat) -> char
    recommends
        n < 16,
{
    if n < 10 {
        (48 + n) as char
    } else {
        (87 + n) as char
    }
}

/// The number that `s` denotes in base 16, the first digit being the most significant.
pub open spec fn hex_value(s: Seq<char>) -> nat
    decreases s.len(),
{
    if s.len() == 0 {
        0
    } else {
        16 * hex_value(s.drop_last()) + digit_value(s.last())
    }
}

/// Every character of `s` is a hexadecimal digit.
pub open spec fn all_hex(s: Seq<char>) -> bool {
    forall|i: int| 0 <= i < s.len() ==> is_hex_digit(#[trigger] s[i])
}

/// Every character of `s` is a canonical digit.
pub open spec fn all_canonical(s: Seq<char>) -> bool {
    forall|i: int| 0 <= i < s.len() ==> is_canonical_digit(#[trigger] s[i])
}

/// Some character of `s` is an upper-case hexadecimal letter.
pub open spec fn has_upper_hex(s: Seq<char>) -> bool {
    exists|i: int| 0 <= i < s.len() && is_upper_hex_letter(#[trigger] s[i])
}

/// `s` with each character replaced by its `ascii_lower`.
pub open spec fn ascii_lowered(s: Seq<char>) -> Seq<char> {
    Seq::new(s.len(), |i: int| ascii_lower(s[i]))
}

/// The two canonical digits that write the byte `b`, the high one first.
pub open spec fn byte_digits(b: u8) -> Seq<char> {
    seq![digit_char((b / 16) as nat), digit_char((b % 16) as nat)]
}

/// Lower-casing keeps a hexadecimal digit's value and makes it canonical; any other
/// character stays outside the hexadecimal digits.
pub proof fn lemma_ascii_lower(c: char)
    ensures
        is_hex_digit(c) ==> is_canonical_digit(ascii_lower(c)),
        is_hex_digit(ascii_lower(c)) ==> is_hex_digit(c),
        digit_value(ascii_lower(c)) == digit_value(c),
        is_canonical_digit(c) ==> ascii_lower(c) == c,
        digit_value(c) < 16,
{
}

/// A digit made from a number below 16 is canonical and stands for that number.
pub proof fn lemma_digit_char(n: nat)
    requires
        n < 16,
    ensures
        is_canonical_digit(digit_char(n)),
        digit_value(digit_char(n)) == n,
{
}

/// Appending one digit multiplies the value by 16 and adds the digit's value.
pub proof fn lemma_hex_value_push(s: Seq<char>, c: char)
    ensures
        hex_value(s.push(c)) == 16 * hex_value(s) + digit_value(c),
{
    assert(s.push(c).drop_last() =~= s);
}

/// A string of `n` digits denotes a number below 16 to the power `n`; stated here for the
/// lengths up to six that colour codes have.
pub proof fn lemma_hex_value_bound(s: Seq<char>)
    requires
        s.len() <= 6,
    ensures
        s.len() == 0 ==> hex_value(s) == 0,
        s.len() == 1 ==> hex_value(s) < 0x10,
        s.len() == 2 ==> hex_value(s) < 0x100,
        s.len() == 3 ==> hex_value(s) < 0x1000,
        s.len() == 4 ==> hex_value(s) < 0x1_0000,
        s.len() == 5 ==> hex_value(s) < 0x10_0000,
        s.len() == 6 ==> hex_value(s) < 0x100_0000,
    decreases s.len(),
{
    if s.len() > 0 {
        lemma_hex_value_bound(s.drop_last());
        lemma_ascii_lower(s.last());
    }
}

/// The value of six digits, written out digit by digit.
pub proof fn lemma_hex_value_six(s: Seq<char>)
    requires
        s.len() == 6,
    ensures
        hex_value(s) == 0x10_0000 * digit_value(s[0]) + 0x1_0000 * digit_value(s[1]) + 0x1000
            * digit_value(s[2]) + 0x100 * digit_value(s[3]) + 0x10 * digit_value(s[4])
            + digit_value(s[5]),
{
    let s5 = s.drop_last();
    let s4 = s5.drop_last();
    let s3 = s4.drop_last();
    let s2 = s3.drop_last();
    let s1 = s2.drop_last();
    let s0 = s1.drop_last();
    assert(hex_value(s0) == 0);
    assert(hex_value(s1) == 16 * hex_value(s0) + digit_value(s1.last()));
    assert(hex_value(s2) == 16 * hex_value(s1) + digit_value(s2.last()));
    assert(hex_value(s3) == 16 * hex_value(s2) + digit_value(s3.last()));
    assert(hex_value(s4) == 16 * hex_value(s3) + digit_value(s4.last()));
    assert(hex_value(s5) == 16 * hex_value(s4) + digit_value(s5.last()));
    assert(hex_value(s) == 16 * hex_value(s5) + digit_value(s.last()));
}

/// Whether `c` is a hexadecimal digit.
pub fn char_is_hex_digit(c: char) -> (yes: bool)
    ensures
        yes == is_hex_digit(c),
{
    ('0' <= c && c <= '9') || ('a' <= c && c <= 'f') || ('A' <= c && c <= 'F')
}

/// Whether `c` is an upper-case hexadecimal letter.
pub fn char_is_upper_hex_letter(c: char) -> (yes: bool)
    ensures
        yes == is_upper_hex_letter(c),
{
    'A' <= c && c <= 'F'
}

/// `c` in lower case, as far as ASCII goes.
pub fn char_to_ascii_lower(c: char) -> (lowered: char)
    ensures
        lowered == ascii_lower(c),
{
    if 'A' <= c && c <= 'Z' {
        ((c as u8) + 32) as char
    } else {
        c
    }
}

/// The value of the hexadecimal digit `c`.
pub fn char_digit_value(c: char) -> (value: u8)
    ensures
        value == digit_value(c),
        value < 16,
{
    if '0' <= c && c <= '9' {
        (c as u8) - 48
    } else if 'a' <= c && c <= 'f' {
        (c as u8) - 87
    } else if 'A' <= c && c <= 'F' {
        (c as u8) - 55
    } else {
        0
    }
}

/// The canonical digit for `n`.
pub fn digit_char_of(n: u8) -> (c: char)
    requires
        n < 16,
    ensures
        c == digit_char(n as nat),
{
    if n < 10 {
        (48 + n) as char
    } else {
        (87 + n) as char
    }
}

/// Whether every character of `chars` is a hexadecimal digit.
pub fn chars_all_hex(chars: &[char]) -> (yes: bool)
    ensures
        yes == all_hex(chars@),
{
    let mut i: usize = 0;
    while i < chars.len()
        invariant
            i <= chars@.len(),
            forall|j: int| 0 <= j < i ==> is_hex_digit(#[trigger] chars@[j]),
        decreases chars@.len() - i,
    {
        if !char_is_hex_digit(chars[i]) {
            return false;
        }
        i += 1;
    }
    true
}

/// Whether some character of `chars` is an upper-case hexadecimal letter.
pub fn chars_have_upper_hex(chars: &[char]) -> (yes: bool)
    ensures
        yes == has_upper_hex(chars@),
{
    let mut i: usize = 0;
    while i < chars.len()
        invariant
            i <= chars@.len(),
            forall|j: int| 0 <= j < i ==> !is_upper_hex_letter(#[trigger] chars@[j]),
        decreases chars@.len() - i,
    {
        if char_is_upper_hex_letter(chars[i]) {
            return true;
        }
        i += 1;
    }
    false
}

/// The number that at most six digits denote in base 16.
pub fn chars_hex_value(chars: &[char]) -> (value: u32)
    requires
        chars@.len() <= 6,
    ensures
        value == hex_value(chars@),
        value < 0x100_0000,
{
    let mut value: u32 = 0;
    let mut i: usize = 0;
    while i < chars.len()
        invariant
            i <= chars@.len() <= 6,
            value == hex_value(chars@.take(i as int)),
            value < 0x100_0000,
        decreases chars@.len() - i,
    {
        let digit = char_digit_value(chars[i]);
        proof {
            let before = chars@.take(i as int);
            lemma_hex_value_bound(before);
            lemma_hex_value_push(before, chars@[i as int]);
            assert(before.push(chars@[i as int]) =~= chars@.take(i + 1));
            lemma_hex_value_bound(chars@.take(i + 1));
        }
        value = 16 * value + digit as u32;
        i += 1;
    }
    proof {
        assert(chars@.take(chars@.len() as int) =~= chars@);
    }
    value
}

} // verus!
