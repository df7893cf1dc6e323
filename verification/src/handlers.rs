//! What the server answers to each request, as plain values.
//!
//! A handler takes what the route took from the URL and decides the reply: an image, a
//! page, a redirect to the canonical URL, or a rejection. Sending the reply is left to the
//! caller.

use crate::hex_colour::{
    canonical_code, parse_outcome, HexColour, HexColourParseError, InvalidHexColour,
    ParseOutcome,
};
use crate::image::{patched, Template};
use crate::text::{replace_all, substitute};
use vstd::prelude::*;

pub mod fooling_around;

verus! {

/// A reply that a handler decides on.
#[derive(Debug, PartialEq, Eq)]
pub enum Reply {
    /// Status 302 with this `Location` header and an empty body.
    Redirect(String),
    /// A body of content type `image/png`.
    Image(Vec<u8>),
    /// A body of content type `text/html; charset=utf-8`.
    Page(String),
}

/// The URL of the preview image of the colour with the code `code`.
pub open spec fn image_location(code: Seq<char>) -> Seq<char> {
    "/colour/"@ + code + "/preview"@
}

/// The URL of the preview page of the colour with the code `code`.
pub open spec fn page_location(code: Seq<char>) -> Seq<char> {
    "/colour/"@ + code + "/"@
}

/// The page template `page` filled in for the colour code `code`: every `HEX` in it is
/// replaced by the code.
pub open spec fn filled_page(page: Seq<char>, code: Seq<char>) -> Seq<char> {
    replace_all(page, "HEX"@, code)
}

/// Generates the preview image for `hex_colour` from the template. A canonical code gives
/// the template recoloured; a code that is not canonical gives a redirect to the image of
/// its canonical form; anything else is rejected.
pub fn gen_image(template: &Template, hex_colour: &str) -> (reply: Result<
    Reply,
    InvalidHexColour,
>)
    ensures
        match parse_outcome(hex_colour@) {
            ParseOutcome::Valid(c) => reply matches Ok(Reply::Image(image)) && image@ == patched(
                template@,
                c,
            ),
            ParseOutcome::Redirect(normalised) => reply matches Ok(Reply::Redirect(location))
                && location@ == image_location(normalised),
            ParseOutcome::Invalid => reply is Err,
        },
{
    match HexColour::parse(hex_colour) {
        Ok(colour) => Ok(Reply::Image(template.patch(&colour))),
        Err(HexColourParseError::Redirect(normalised)) => {
            let mut location = String::from_str("/colour/");
            location.append(normalised.as_str());
            location.append("/preview");
            Ok(Reply::Redirect(location))
        },
        Err(HexColourParseError::Invalid) => Err(InvalidHexColour),
    }
}

/// Generates the preview page for `hex_colour` from the page template. A canonical code
/// gives the page filled in with the code; a code that is not canonical gives a redirect to
/// the page of its canonical form; anything else is rejected.
pub fn colour_preview(page: &str, hex_colour: &str) -> (reply: Result<Reply, InvalidHexColour>)
    ensures
        match parse_outcome(hex_colour@) {
            ParseOutcome::Valid(c) => reply matches Ok(Reply::Page(body)) && body@ == filled_page(
                page@,
                hex_colour@,
            ),
            ParseOutcome::Redirect(normalised) => reply matches Ok(Reply::Redirect(location))
                && location@ == page_location(normalised),
            ParseOutcome::Invalid => reply is Err,
        },
{
    match HexColour::parse(hex_colour) {
        Ok(_) => Ok(Reply::Page(substitute(page, "HEX", hex_colour))),
        Err(HexColourParseError::Redirect(normalised)) => {
            let mut location = String::from_str("/colour/");
            location.append(normalised.as_str());
            location.append("/");
            Ok(Reply::Redirect(location))
        },
        Err(HexColourParseError::Invalid) => Err(InvalidHexColour),
    }
}

/// The redirect to the preview page of `colour`.
pub fn redirect_to_colour(colour: &HexColour) -> (reply: Reply)
    ensures
        reply matches Reply::Redirect(location) && location@ == page_location(
            canonical_code(colour@),
        ),
{
    let mut location = String::from_str("/colour/");
    location.append(colour.code().as_str());
    location.append("/");
    Reply::Redirect(location)
}

/// Calls `rand::random` for three bytes. Trusted: nothing is claimed about the bytes; they
/// differ from call to call.
#[verifier::external_body]
fn random_channels() -> (channels: (u8, u8, u8)) {
    rand::random::<(u8, u8, u8)>()
}

/// Redirects to the preview page of a colour chosen at random. Whatever the colour, the
/// reply is the redirect to the page of its canonical code.
pub fn random_colour() -> (reply: Reply)
    ensures
        exists|c: (u8, u8, u8)|
            reply matches Reply::Redirect(location) && location@ == #[trigger] page_location(
                canonical_code(c),
            ),
{
    let channels = random_channels();
    let colour = HexColour::new(channels.0, channels.1, channels.2);
    let reply = redirect_to_colour(&colour);
    proof {
        assert(reply matches Reply::Redirect(location) && location@ == page_location(
            canonical_code(colour@),
        ));
    }
    reply
}

} // verus!
