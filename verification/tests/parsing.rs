use colour_previewer::hex_colour::{HexColour, HexColourParseError};

fn redirect(code: &str) -> Result<HexColour, HexColourParseError> {
    Err(HexColourParseError::Redirect(code.to_string()))
}

fn channels(source: &str) -> [u8; 3] {
    match HexColour::parse(source) {
        Ok(colour) => colour.channels(),
        other => panic!("{:?} did not parse to a colour: {:?}", source, other),
    }
}

#[test]
fn shorthand_doubles_each_digit() {
    assert_eq!(HexColour::parse("1ab"), redirect("11aabb"));
    assert_eq!(HexColour::parse("000"), redirect("000000"));
    assert_eq!(HexColour::parse("f09"), redirect("ff0099"));
}

#[test]
fn shorthand_is_lower_cased() {
    assert_eq!(HexColour::parse("FFF"), redirect("ffffff"));
    assert_eq!(HexColour::parse("AbC"), redirect("aabbcc"));
    assert_eq!(HexColour::parse("9D0"), redirect("99dd00"));
}

#[test]
fn shorthand_is_never_valid_itself() {
    let digits = "0123456789abcdefABCDEF";
    for a in digits.chars() {
        for b in digits.chars() {
            for c in digits.chars() {
                let source: String = [a, b, c].iter().collect();
                let expected: String = [a, a, b, b, c, c]
                    .iter()
                    .map(|d| d.to_ascii_lowercase())
                    .collect();
                assert_eq!(HexColour::parse(&source), redirect(&expected));
            }
        }
    }
}

#[test]
fn shorthand_with_other_characters_is_invalid() {
    assert_eq!(HexColour::parse("xyz"), Err(HexColourParseError::Invalid));
    assert_eq!(HexColour::parse("12g"), Err(HexColourParseError::Invalid));
    assert_eq!(HexColour::parse("#ff"), Err(HexColourParseError::Invalid));
    assert_eq!(HexColour::parse("a b"), Err(HexColourParseError::Invalid));
    assert_eq!(HexColour::parse("GGG"), Err(HexColourParseError::Invalid));
}

#[test]
fn upper_case_redirects_to_lower_case() {
    assert_eq!(HexColour::parse("1A2B3C"), redirect("1a2b3c"));
    assert_eq!(HexColour::parse("FFFFFF"), redirect("ffffff"));
    assert_eq!(HexColour::parse("00000A"), redirect("00000a"));
    assert_eq!(HexColour::parse("abcdeF"), redirect("abcdef"));
}

#[test]
fn upper_case_hex_letter_redirects_whatever_else_is_there() {
    assert_eq!(HexColour::parse("ABCDEG"), redirect("abcdeg"));
    assert_eq!(HexColour::parse("A-----"), redirect("a-----"));
    assert_eq!(HexColour::parse("zzzzzF"), redirect("zzzzzf"));
    assert_eq!(HexColour::parse("AXYZ12"), redirect("axyz12"));
}

#[test]
fn upper_case_beyond_ascii_is_lower_cased_too() {
    assert_eq!(HexColour::parse("ABCDE\u{c9}"), redirect("abcde\u{e9}"));
    assert_eq!(HexColour::parse("\u{c0}BCDEF"), redirect("\u{e0}bcdef"));
    assert_eq!(HexColour::parse("A\u{3a9}1234"), redirect("a\u{3c9}1234"));
}

#[test]
fn canonical_code_is_valid() {
    assert_eq!(channels("1a2b3c"), [0x1a, 0x2b, 0x3c]);
    assert_eq!(channels("000000"), [0, 0, 0]);
    assert_eq!(channels("ffffff"), [0xff, 0xff, 0xff]);
    assert_eq!(channels("0000ff"), [0, 0, 0xff]);
    assert_eq!(channels("ff0000"), [0xff, 0, 0]);
    assert_eq!(channels("00ff00"), [0, 0xff, 0]);
    assert_eq!(channels("123456"), [0x12, 0x34, 0x56]);
    assert_eq!(channels("abcdef"), [0xab, 0xcd, 0xef]);
    assert_eq!(channels("09af10"), [0x09, 0xaf, 0x10]);
}

#[test]
fn channels_are_the_bytes_of_the_number() {
    for value in [0u32, 1, 0xff, 0x100, 0xffff, 0x1_0000, 0x7f_80_01, 0xff_ff_ff, 0xc0_ff_ee] {
        let source = format!("{:06x}", value);
        let bytes = value.to_be_bytes();
        assert_eq!(channels(&source), [bytes[1], bytes[2], bytes[3]]);
    }
}

#[test]
fn other_lengths_are_invalid() {
    for source in ["", "z", "zz", "ff", "1234", "12345", "1234567", "ffffffff", "aabbccdd0"] {
        assert_eq!(HexColour::parse(source), Err(HexColourParseError::Invalid));
    }
}

#[test]
fn six_characters_that_are_not_digits_are_invalid() {
    for source in ["gggggg", "GGGGGG", "12345g", "+12345", "-12345", "ffff f", "#fffff", "0x1234"] {
        assert_eq!(HexColour::parse(source), Err(HexColourParseError::Invalid));
    }
}

#[test]
fn length_counts_characters_not_bytes() {
    assert_eq!(HexColour::parse("\u{e9}\u{e9}\u{e9}"), Err(HexColourParseError::Invalid));
    assert_eq!(HexColour::parse("\u{e9}\u{e9}"), Err(HexColourParseError::Invalid));
    assert_eq!(HexColour::parse("abcde\u{e9}"), Err(HexColourParseError::Invalid));
    assert_eq!(HexColour::parse("ab\u{e9}"), Err(HexColourParseError::Invalid));
    assert_eq!(HexColour::parse("\u{65e5}\u{672c}\u{8a9e}"), Err(HexColourParseError::Invalid));
}

#[test]
fn a_redirect_leads_to_a_valid_code() {
    for source in ["FFF", "1ab", "AbC", "1A2B3C", "FFFFFF", "abcdeF", "00F", "C0FFEE"] {
        match HexColour::parse(source) {
            Err(HexColourParseError::Redirect(code)) => {
                assert!(matches!(HexColour::parse(&code), Ok(_)), "{} -> {}", source, code);
            }
            other => panic!("{} did not redirect: {:?}", source, other),
        }
    }
}

#[test]
fn a_redirect_keeps_the_colour() {
    assert_eq!(HexColour::parse("1ab"), redirect("11aabb"));
    assert_eq!(channels("11aabb"), [0x11, 0xaa, 0xbb]);
    assert_eq!(HexColour::parse("C0FFEE"), redirect("c0ffee"));
    assert_eq!(channels("c0ffee"), [0xc0, 0xff, 0xee]);
}

#[test]
fn a_redirect_of_other_characters_leads_to_an_invalid_code() {
    assert_eq!(HexColour::parse("ABCDEG"), redirect("abcdeg"));
    assert_eq!(HexColour::parse("abcdeg"), Err(HexColourParseError::Invalid));
}

#[test]
fn from_str_parses_as_parse_does() {
    assert_eq!("1a2b3c".parse::<HexColour>(), Ok(HexColour::new(0x1a, 0x2b, 0x3c)));
    assert_eq!("FFF".parse::<HexColour>(), redirect("ffffff"));
    assert_eq!("1234".parse::<HexColour>(), Err(HexColourParseError::Invalid));
}

#[test]
fn new_keeps_the_channels() {
    assert_eq!(HexColour::new(1, 2, 3).channels(), [1, 2, 3]);
    assert_eq!(HexColour::new(0xff, 0, 0x80).channels(), [0xff, 0, 0x80]);
}

#[test]
fn code_is_six_lower_case_digits() {
    assert_eq!(HexColour::new(0x1a, 0x2b, 0x3c).code(), "1a2b3c");
    assert_eq!(HexColour::new(0, 0, 0).code(), "000000");
    assert_eq!(HexColour::new(0xff, 0xff, 0xff).code(), "ffffff");
    assert_eq!(HexColour::new(0x0a, 0x90, 0x09).code(), "0a9009");
}

#[test]
fn code_parses_back_to_the_colour() {
    for red in [0u8, 1, 9, 10, 15, 16, 0x7f, 0x80, 0x9a, 0xa9, 0xff] {
        for green in [0u8, 0x0f, 0xf0, 0xff] {
            for blue in [0u8, 0x5a, 0xa5, 0xff] {
                let colour = HexColour::new(red, green, blue);
                assert_eq!(HexColour::parse(&colour.code()), Ok(colour));
            }
        }
    }
}
