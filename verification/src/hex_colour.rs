//! Parsing of hexadecimal colour codes.
//!
//! A colour code is canonical when it is six lower-case hexadecimal digits. A canonical code
//! parses to a colour. A code that only spells a colour differently (three digits, or six
//! with upper-case letters) is answered with the canonical spelling to redirect to.
//! Everything else is invalid.

use crate::hex::{
    all_hex, ascii_lower, ascii_lowered, byte_digits, char_to_ascii_lower, chars_all_hex,
    chars_have_upper_hex, chars_hex_value, digit_char_of, has_upper_hex, hex_value,
};
use crate::text::{collect_chars, push_char, to_lowercase, unicode_lowercase};
use vstd::prelude::*;

verus! {

/// A colour in RGB form.
#[derive(Clone, Copy, Debug, PartialEq, Eq)]
pub struct HexColour(u8, u8, u8);

impl View for HexColour {
    type V = (u8, u8, u8);

    /// The red, green and blue channels.
    closed spec fn view(&self) -> (u8, u8, u8) {
        (self.0, self.1, self.2)
    }
}

/// Why a string did not parse to a colour.
#[derive(Debug, PartialEq, Eq)]
pub enum HexColourParseError {
    /// The string spells a colour, but not canonically. The payload is the canonical
    /// six-digit lower-case form, which a web server redirects the client to.
    Redirect(String),
    /// The string is not a colour code.
    Invalid,
}

/// The rejection a web server answers with when a string is not a colour code.
#[derive(Debug)]
pub struct InvalidHexColour;

/// What parsing a string yields, as a mathematical value.
pub enum ParseOutcome {
    /// The string is canonical and denotes the colour with these channels.
    Valid((u8, u8, u8)),
    /// The string is to be replaced by this canonical-looking form.
    Redirect(Seq<char>),
    /// The string is not a colour code.
    Invalid,
}

/// The three bytes of a 24-bit number, the most significant first.
pub open spec fn channels_of(value: nat) -> (u8, u8, u8) {
    ((value / 0x1_0000 % 0x100) as u8, (value / 0x100 % 0x100) as u8, (value % 0x100) as u8)
}

/// The six-digit form of a three-digit code: each digit twice, in lower case.
pub open spec fn expand_shorthand(s: Seq<char>) -> Seq<char> {
    Seq::new(6, |i: int| ascii_lower(s[i / 2]))
}

/// `s` in lower case. For a string of ASCII characters this is the string with `A` to `Z`
/// replaced by `a` to `z`; for any other string it is what `str::to_lowercase` makes of it.
pub open spec fn lowercased(s: Seq<char>) -> Seq<char> {
    if vstd::utf8::is_ascii_chars(s) {
        ascii_lowered(s)
    } else {
        unicode_lowercase(s)
    }
}

/// The canonical code of the colour with the channels `c`.
pub open spec fn canonical_code(c: (u8, u8, u8)) -> Seq<char> {
    byte_digits(c.0) + byte_digits(c.1) + byte_digits(c.2)
}

/// What the string with the characters `s` parses to. The length counts characters.
pub open spec fn parse_outcome(s: Seq<char>) -> ParseOutcome {
    if s.len() == 3 {
        if all_hex(s) {
            ParseOutcome::Redirect(expand_shorthand(s))
        } else {
            ParseOutcome::Invalid
        }
    } else if s.len() == 6 {
        if has_upper_hex(s) {
            ParseOutcome::Redirect(lowercased(s))
        } else if all_hex(s) {
            ParseOutcome::Valid(channels_of(hex_value(s)))
        } else {
            ParseOutcome::Invalid
        }
    } else {
        ParseOutcome::Invalid
    }
}

/// The outcome that a parse result stands for.
pub open spec fn outcome_of(result: Result<HexColour, HexColourParseError>) -> ParseOutcome {
    match result {
        Ok(colour) => ParseOutcome::Valid(colour@),
        Err(HexColourParseError::Redirect(canonical)) => ParseOutcome::Redirect(canonical@),
        Err(HexColourParseError::Invalid) => ParseOutcome::Invalid,
    }
}

impl HexColour {
    /// The colour with the given channels.
    pub fn new(red: u8, green: u8, blue: u8) -> (colour: HexColour)
        ensures
            colour@ == (red, green, blue),
    {
        HexColour(red, green, blue)
    }

    /// Returns a byte array with the red, green, and blue channels of the colour.
    pub fn channels(&self) -> (bytes: [u8; 3])
        ensures
            bytes@ == seq![self@.0, self@.1, self@.2],
    {
        [self.0, self.1, self.2]
    }

    /// The canonical code of the colour: six lower-case hexadecimal digits.
    pub fn code(&self) -> (code: String)
        ensures
            code@ == canonical_code(self@),
    {
        let mut code = String::new();
        push_byte_digits(&mut code, self.0);
        push_byte_digits(&mut code, self.1);
        push_byte_digits(&mut code, self.2);
        code
    }

    /// Parses a colour code. Only a canonical code gives a colour; a three-digit code or a
    /// six-character code with an upper-case hexadecimal letter gives the form to redirect
    /// to; anything else is invalid.
    pub fn parse(source: &str) -> (result: Result<HexColour, HexColourParseError>)
        ensures
            outcome_of(result) == parse_outcome(source@),
    {
        let chars = collect_chars(source);
        if chars.len() == 3 {
            if chars_all_hex(chars.as_slice()) {
                Err(HexColourParseError::Redirect(doubled(&chars)))
            } else {
                Err(HexColourParseError::Invalid)
            }
        } else if chars.len() == 6 {
            if chars_have_upper_hex(chars.as_slice()) {
                Err(HexColourParseError::Redirect(lower_case(source, &chars)))
            } else if chars_all_hex(chars.as_slice()) {
                let value = chars_hex_value(chars.as_slice());
                Ok(
                    HexColour(
                        (value / 0x1_0000 % 0x100) as u8,
                        (value / 0x100 % 0x100) as u8,
                        (value % 0x100) as u8,
                    ),
                )
            } else {
                Err(HexColourParseError::Invalid)
            }
        } else {
            Err(HexColourParseError::Invalid)
        }
    }
}

impl std::str::FromStr for HexColour {
    type Err = HexColourParseError;

    /// Determines whether the hex colour code is perfect (6 digits, all lowercase). If not,
    /// the string parsing fails, but the error will contain the normalised form.
    fn from_str(source: &str) -> (result: Result<HexColour, HexColourParseError>)
        ensures
            outcome_of(result) == parse_outcome(source@),
    {
        HexColour::parse(source)
    }
}

/// Appends the two canonical digits of `byte`.
fn push_byte_digits(code: &mut String, byte: u8)
    ensures
        final(code)@ == old(code)@ + byte_digits(byte),
{
    push_char(code, digit_char_of(byte / 16));
    push_char(code, digit_char_of(byte % 16));
    proof {
        assert(final(code)@ =~= old(code)@ + byte_digits(byte));
    }
}

/// The six-digit form of three digits.
fn doubled(chars: &Vec<char>) -> (code: String)
    requires
        chars@.len() == 3,
    ensures
        code@ == expand_shorthand(chars@),
{
    let mut code = String::new();
    let mut i: usize = 0;
    while i < 3
        invariant
            i <= 3,
            chars@.len() == 3,
            code@.len() == 2 * i,
            forall|j: int| 0 <= j < 2 * i ==> code@[j] == ascii_lower(chars@[j / 2]),
        decreases 3 - i,
    {
        let c = char_to_ascii_lower(chars[i]);
        push_char(&mut code, c);
        push_char(&mut code, c);
        i += 1;
    }
    proof {
        assert(code@ =~= expand_shorthand(chars@));
    }
    code
}

/// `source`, whose characters are `chars`, in lower case.
fn lower_case(source: &str, chars: &Vec<char>) -> (lowered: String)
    requires
        chars@ == source@,
    ensures
        lowered@ == lowercased(source@),
{
    if source.is_ascii() {
        let mut lowered = String::new();
        let mut i: usize = 0;
        while i < chars.len()
            invariant
                i <= chars@.len(),
                lowered@.len() == i,
                forall|j: int| 0 <= j < i ==> lowered@[j] == ascii_lower(chars@[j]),
            decreases chars@.len() - i,
        {
            push_char(&mut lowered, char_to_ascii_lower(chars[i]));
            i += 1;
        }
        proof {
            assert(lowered@ =~= ascii_lowered(source@));
        }
        lowered
    } else {
        to_lowercase(source)
    }
}

} // verus!
