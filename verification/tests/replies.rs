use colour_previewer::handlers::fooling_around::{return_int, three_string, ThreeStringFailure};
use colour_previewer::handlers::{
    colour_preview, gen_image, random_colour, redirect_to_colour, Reply,
};
use colour_previewer::hex_colour::HexColour;
use colour_previewer::image::{patch, Template, CHECKSUM_END};
use colour_previewer::text::{collect_chars, substitute};

fn template() -> Template {
    let mut bytes = vec![0u8; CHECKSUM_END + 12];
    bytes[0x43..0x4b].copy_from_slice(&[0, 0, 0, 3, b'P', b'L', b'T', b'E']);
    Template::new(bytes).expect("the layout is right")
}

const PAGE: &str = "<title>#HEX</title><img src=\"/colour/HEX/preview\"><p>HE HEXHEX X</p>";

#[test]
fn image_of_a_canonical_code() {
    let template = template();
    let reply = gen_image(&template, "1a2b3c").expect("the code is valid");
    let expected = patch(template.bytes(), &HexColour::new(0x1a, 0x2b, 0x3c));
    assert_eq!(reply, Reply::Image(expected));
}

#[test]
fn image_redirects_shorthand() {
    let reply = gen_image(&template(), "FFF").expect("the code is a colour");
    assert_eq!(reply, Reply::Redirect("/colour/ffffff/preview".to_string()));
}

#[test]
fn image_redirects_upper_case() {
    let reply = gen_image(&template(), "C0FFEE").expect("the code is a colour");
    assert_eq!(reply, Reply::Redirect("/colour/c0ffee/preview".to_string()));
}

#[test]
fn image_rejects_what_is_no_code() {
    for source in ["", "zz", "1234", "gggggg", "+12345"] {
        assert!(gen_image(&template(), source).is_err(), "{:?}", source);
    }
}

#[test]
fn page_of_a_canonical_code() {
    let reply = colour_preview(PAGE, "1a2b3c").expect("the code is valid");
    let expected =
        "<title>#1a2b3c</title><img src=\"/colour/1a2b3c/preview\"><p>HE 1a2b3c1a2b3c X</p>";
    assert_eq!(reply, Reply::Page(expected.to_string()));
}

#[test]
fn page_without_the_token_is_unchanged() {
    let reply = colour_preview("<p>no token</p>", "000000").expect("the code is valid");
    assert_eq!(reply, Reply::Page("<p>no token</p>".to_string()));
}

#[test]
fn page_redirects_shorthand() {
    let reply = colour_preview(PAGE, "1ab").expect("the code is a colour");
    assert_eq!(reply, Reply::Redirect("/colour/11aabb/".to_string()));
}

#[test]
fn page_redirects_upper_case() {
    let reply = colour_preview(PAGE, "ABCDEF").expect("the code is a colour");
    assert_eq!(reply, Reply::Redirect("/colour/abcdef/".to_string()));
}

#[test]
fn page_rejects_what_is_no_code() {
    for source in ["", "zz", "1234", "gggggg", "fffffg"] {
        assert!(colour_preview(PAGE, source).is_err(), "{:?}", source);
    }
}

#[test]
fn substitute_replaces_every_occurrence() {
    assert_eq!(substitute("HEX", "HEX", "abc"), "abc");
    assert_eq!(substitute("HEXHEX", "HEX", "-"), "--");
    assert_eq!(substitute("aHEXbHEXc", "HEX", ""), "abc");
    assert_eq!(substitute("", "HEX", "abc"), "");
    assert_eq!(substitute("HE", "HEX", "abc"), "HE");
    assert_eq!(substitute("hex", "HEX", "abc"), "hex");
}

#[test]
fn substitute_goes_from_left_to_right_without_overlap() {
    assert_eq!(substitute("aaaa", "aa", "b"), "bb");
    assert_eq!(substitute("aaa", "aa", "b"), "ba");
    assert_eq!(substitute("HEHEX", "HEX", "1"), "HE1");
    assert_eq!(substitute("ababab", "aba", "x"), "xbab");
    assert_eq!(substitute("xHEX", "HEX", "HEX"), "xHEX");
}

#[test]
fn substitute_agrees_with_str_replace() {
    let texts = ["", "HEX", "HHEXX", "HEXHEXHEX", "\u{e9}HEX\u{65e5}", "HE\u{e9}X", PAGE];
    for text in texts {
        for with in ["", "1a2b3c", "HEX", "\u{e9}"] {
            assert_eq!(substitute(text, "HEX", with), text.replace("HEX", with));
        }
    }
}

#[test]
fn collect_chars_gives_the_characters() {
    assert_eq!(collect_chars(""), Vec::<char>::new());
    assert_eq!(collect_chars("a\u{e9}\u{65e5}"), vec!['a', '\u{e9}', '\u{65e5}']);
}

#[test]
fn redirect_to_a_colour_names_its_code() {
    let reply = redirect_to_colour(&HexColour::new(0x0a, 0xff, 0x01));
    assert_eq!(reply, Reply::Redirect("/colour/0aff01/".to_string()));
}

#[test]
fn random_colour_redirects_to_a_valid_code() {
    for _ in 0..64 {
        let location = match random_colour() {
            Reply::Redirect(location) => location,
            other => panic!("no redirect: {:?}", other),
        };
        let code = location
            .strip_prefix("/colour/")
            .and_then(|rest| rest.strip_suffix("/"))
            .expect("the location is that of a page");
        assert_eq!(code.len(), 6);
        let colour = HexColour::parse(code).expect("the code is valid");
        assert_eq!(colour.code(), code);
    }
}

#[test]
fn random_colour_is_not_always_the_same() {
    let first = random_colour();
    assert!((0..64).any(|_| random_colour() != first));
}

#[test]
fn return_int_names_the_number() {
    assert_eq!(return_int(0), "here is cool int: 0");
    assert_eq!(return_int(7), "here is cool int: 7");
    assert_eq!(return_int(10), "here is cool int: 10");
    assert_eq!(return_int(1234567), "here is cool int: 1234567");
    assert_eq!(return_int(4294967295), "here is cool int: 4294967295");
}

#[test]
fn three_string_accepts_three_bytes() {
    assert_eq!(three_string("abc".to_string()), Ok("abc".to_string()));
    assert_eq!(three_string("a\u{e9}".to_string()), Ok("a\u{e9}".to_string()));
    assert_eq!(three_string("\u{65e5}".to_string()), Ok("\u{65e5}".to_string()));
}

#[test]
fn three_string_says_what_is_too_short() {
    assert_eq!(three_string("".to_string()), Err(ThreeStringFailure::TooShort));
    assert_eq!(three_string("ab".to_string()), Err(ThreeStringFailure::TooShort));
    assert_eq!(three_string("\u{e9}".to_string()), Err(ThreeStringFailure::TooShort));
}

#[test]
fn three_string_says_what_is_too_long() {
    assert_eq!(three_string("abcd".to_string()), Err(ThreeStringFailure::TooLong));
    assert_eq!(three_string("\u{e9}\u{e9}".to_string()), Err(ThreeStringFailure::TooLong));
    assert_eq!(three_string("a much longer one".to_string()), Err(ThreeStringFailure::TooLong));
}

#[test]
fn substitute_with_an_empty_token_changes_nothing() {
    assert_eq!(substitute("abc", "", "x"), "abc");
    assert_eq!(substitute("", "", "x"), "");
}
