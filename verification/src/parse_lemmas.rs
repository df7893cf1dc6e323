//! What holds of parsing for every string: which strings redirect and where to, which are
//! valid and as what colour, which are invalid, and that a redirect leads to a valid code.

use crate::hex::{
    all_canonical, all_hex, ascii_lower, ascii_lowered, byte_digits, digit_char, digit_value,
    has_upper_hex, hex_value, is_canonical_digit, is_hex_digit, is_upper_hex_letter,
    lemma_ascii_lower, lemma_digit_char, lemma_hex_value_six,
};
use crate::hex_colour::{
    canonical_code, channels_of, expand_shorthand, lowercased, parse_outcome, ParseOutcome,
};
use vstd::prelude::*;

verus! {

/// The channels that six hexadecimal digits denote: each pair of digits is one byte.
pub open spec fn channels_of_digits(s: Seq<char>) -> (u8, u8, u8) {
    (
        (16 * digit_value(s[0]) + digit_value(s[1])) as u8,
        (16 * digit_value(s[2]) + digit_value(s[3])) as u8,
        (16 * digit_value(s[4]) + digit_value(s[5])) as u8,
    )
}

/// The channels that three hexadecimal digits denote: each digit stands for itself twice.
pub open spec fn channels_of_shorthand(s: Seq<char>) -> (u8, u8, u8) {
    (
        (17 * digit_value(s[0])) as u8,
        (17 * digit_value(s[1])) as u8,
        (17 * digit_value(s[2])) as u8,
    )
}

/// The bytes of the 24-bit number made of three bytes are those bytes.
pub proof fn lemma_channels_of_bytes(red: u8, green: u8, blue: u8)
    ensures
        channels_of((0x1_0000 * red + 0x100 * green + blue) as nat) == (red, green, blue),
{
    let value = 0x1_0000 * red + 0x100 * green + blue;
    assert(value / 0x1_0000 == red);
    assert(value / 0x100 == 0x100 * red + green);
    assert(value % 0x100 == blue);
}

/// Six hexadecimal digits denote a 24-bit number whose bytes, the most significant first,
/// are the values of the three pairs of digits.
pub proof fn lemma_channels_of_six_digits(s: Seq<char>)
    requires
        s.len() == 6,
    ensures
        hex_value(s) < 0x100_0000,
        channels_of(hex_value(s)) == channels_of_digits(s),
        hex_value(s) == 0x1_0000 * channels_of_digits(s).0 + 0x100 * channels_of_digits(s).1
            + channels_of_digits(s).2,
{
    lemma_hex_value_six(s);
    lemma_ascii_lower(s[0]);
    lemma_ascii_lower(s[1]);
    lemma_ascii_lower(s[2]);
    lemma_ascii_lower(s[3]);
    lemma_ascii_lower(s[4]);
    lemma_ascii_lower(s[5]);
    let c = channels_of_digits(s);
    assert(c.0 == 16 * digit_value(s[0]) + digit_value(s[1]));
    assert(c.1 == 16 * digit_value(s[2]) + digit_value(s[3]));
    assert(c.2 == 16 * digit_value(s[4]) + digit_value(s[5]));
    assert(hex_value(s) == 0x1_0000 * c.0 + 0x100 * c.1 + c.2);
    lemma_channels_of_bytes(c.0, c.1, c.2);
}

/// Three hexadecimal digits `abc`, in either case, redirect to `aabbcc` in lower case.
pub proof fn lemma_shorthand_redirects(s: Seq<char>)
    requires
        s.len() == 3,
        all_hex(s),
    ensures
        parse_outcome(s) == ParseOutcome::Redirect(
            seq![
                ascii_lower(s[0]),
                ascii_lower(s[0]),
                ascii_lower(s[1]),
                ascii_lower(s[1]),
                ascii_lower(s[2]),
                ascii_lower(s[2]),
            ],
        ),
{
    assert(expand_shorthand(s) =~= seq![
        ascii_lower(s[0]),
        ascii_lower(s[0]),
        ascii_lower(s[1]),
        ascii_lower(s[1]),
        ascii_lower(s[2]),
        ascii_lower(s[2]),
    ]);
}

/// Six characters with an upper-case hexadecimal letter among them redirect to the same
/// string in lower case. Where all six are hexadecimal digits, that is the string with
/// its letters `A` to `F` replaced by `a` to `f`.
pub proof fn lemma_upper_case_redirects(s: Seq<char>)
    requires
        s.len() == 6,
        has_upper_hex(s),
    ensures
        parse_outcome(s) == ParseOutcome::Redirect(lowercased(s)),
        all_hex(s) ==> lowercased(s) == ascii_lowered(s),
{
    if all_hex(s) {
        assert forall|i: int| 0 <= i < s.len() implies '\0' <= #[trigger] s[i] <= '\u{7f}' by {
            assert(is_hex_digit(s[i]));
        }
    }
}

/// Six lower-case hexadecimal digits are valid, and denote the colour whose channels are
/// the bytes of the number they write in base 16, the most significant byte being red.
pub proof fn lemma_canonical_is_valid(s: Seq<char>)
    requires
        s.len() == 6,
        all_canonical(s),
    ensures
        parse_outcome(s) == ParseOutcome::Valid(channels_of(hex_value(s))),
        hex_value(s) < 0x100_0000,
        channels_of(hex_value(s)) == channels_of_digits(s),
{
    assert forall|i: int| 0 <= i < s.len() implies !is_upper_hex_letter(#[trigger] s[i])
        && is_hex_digit(s[i]) by {
        assert(is_canonical_digit(s[i]));
    }
    lemma_channels_of_six_digits(s);
}

/// A string is invalid exactly when its length is neither three nor six, or it has three
/// characters that are not all hexadecimal digits, or it has six characters that are not
/// all hexadecimal digits and none of which is an upper-case hexadecimal letter.
pub proof fn lemma_invalid(s: Seq<char>)
    ensures
        parse_outcome(s) is Invalid <==> {
            ||| (s.len() != 3 && s.len() != 6)
            ||| (s.len() == 3 && !all_hex(s))
            ||| (s.len() == 6 && !all_hex(s) && !has_upper_hex(s))
        },
{
}

/// Only six lower-case hexadecimal digits are valid.
pub proof fn lemma_valid_is_canonical(s: Seq<char>)
    ensures
        parse_outcome(s) is Valid <==> s.len() == 6 && all_canonical(s),
{
    if s.len() == 6 && all_canonical(s) {
        lemma_canonical_is_valid(s);
    }
    if parse_outcome(s) is Valid {
        assert forall|i: int| 0 <= i < s.len() implies is_canonical_digit(#[trigger] s[i]) by {
            assert(is_hex_digit(s[i]));
            assert(!is_upper_hex_letter(s[i]));
        }
    }
}

/// Where a string of hexadecimal digits redirects, the code it redirects to is valid, and
/// is the colour that the digits denote.
pub proof fn lemma_redirect_is_valid(s: Seq<char>)
    requires
        parse_outcome(s) is Redirect,
        all_hex(s),
    ensures
        parse_outcome(parse_outcome(s)->Redirect_0) is Valid,
        s.len() == 3 ==> parse_outcome(parse_outcome(s)->Redirect_0) == ParseOutcome::Valid(
            channels_of_shorthand(s),
        ),
        s.len() == 6 ==> parse_outcome(parse_outcome(s)->Redirect_0) == ParseOutcome::Valid(
            channels_of_digits(s),
        ),
{
    let t = parse_outcome(s)->Redirect_0;
    if s.len() == 3 {
        assert(t == expand_shorthand(s));
        assert forall|i: int| 0 <= i < t.len() implies is_canonical_digit(#[trigger] t[i]) by {
            assert(is_hex_digit(s[i / 2]));
            lemma_ascii_lower(s[i / 2]);
        }
        lemma_canonical_is_valid(t);
        lemma_ascii_lower(s[0]);
        lemma_ascii_lower(s[1]);
        lemma_ascii_lower(s[2]);
        assert(t[0] == ascii_lower(s[0]) && t[1] == ascii_lower(s[0]));
        assert(t[2] == ascii_lower(s[1]) && t[3] == ascii_lower(s[1]));
        assert(t[4] == ascii_lower(s[2]) && t[5] == ascii_lower(s[2]));
    } else {
        lemma_upper_case_redirects(s);
        assert(t == ascii_lowered(s));
        assert forall|i: int| 0 <= i < t.len() implies is_canonical_digit(#[trigger] t[i]) by {
            assert(is_hex_digit(s[i]));
            lemma_ascii_lower(s[i]);
        }
        lemma_canonical_is_valid(t);
        lemma_ascii_lower(s[0]);
        lemma_ascii_lower(s[1]);
        lemma_ascii_lower(s[2]);
        lemma_ascii_lower(s[3]);
        lemma_ascii_lower(s[4]);
        lemma_ascii_lower(s[5]);
    }
}

/// The canonical code of a colour is valid and parses back to that colour.
pub proof fn lemma_code_parses_back(c: (u8, u8, u8))
    ensures
        canonical_code(c).len() == 6,
        all_canonical(canonical_code(c)),
        parse_outcome(canonical_code(c)) == ParseOutcome::Valid(c),
{
    let s = canonical_code(c);
    assert(s =~= seq![
        digit_char((c.0 / 16) as nat),
        digit_char((c.0 % 16) as nat),
        digit_char((c.1 / 16) as nat),
        digit_char((c.1 % 16) as nat),
        digit_char((c.2 / 16) as nat),
        digit_char((c.2 % 16) as nat),
    ]) by {
        assert(byte_digits(c.0).len() == 2);
        assert(byte_digits(c.1).len() == 2);
        assert(byte_digits(c.2).len() == 2);
    }
    lemma_digit_char((c.0 / 16) as nat);
    lemma_digit_char((c.0 % 16) as nat);
    lemma_digit_char((c.1 / 16) as nat);
    lemma_digit_char((c.1 % 16) as nat);
    lemma_digit_char((c.2 / 16) as nat);
    lemma_digit_char((c.2 % 16) as nat);
    lemma_canonical_is_valid(s);
}

} // verus!
