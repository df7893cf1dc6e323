//! Handlers for trying out how the server answers: one that echoes a number and one that
//! accepts only strings of three bytes.

use crate::text::{decimal, push_decimal};
use vstd::prelude::*;
use vstd::utf8::encode_utf8;

verus! {

/// Why `three_string` rejected a string.
#[derive(Debug, PartialEq, Eq)]
pub enum ThreeStringFailure {
    TooLong,
    TooShort,
}

/// The body that answers `number`.
pub open spec fn int_body(number: u32) -> Seq<char> {
    "here is cool int: "@ + decimal(number as nat)
}

/// Responds with an int from the URL: the body of the reply, which names the number in
/// decimal.
pub fn return_int(number: u32) -> (body: String)
    ensures
        body@ == int_body(number),
{
    let mut body = String::from_str("here is cool int: ");
    push_decimal(&mut body, number);
    body
}

/// Responds with a string from the URL if it is three bytes long in UTF-8, and says
/// otherwise whether it is too short or too long.
pub fn three_string(string: String) -> (reply: Result<String, ThreeStringFailure>)
    ensures
        encode_utf8(string@).len() == 3 ==> (reply matches Ok(body) && body@ == string@),
        encode_utf8(string@).len() < 3 ==> reply == Err::<String, ThreeStringFailure>(
            ThreeStringFailure::TooShort,
        ),
        encode_utf8(string@).len() > 3 ==> reply == Err::<String, ThreeStringFailure>(
            ThreeStringFailure::TooLong,
        ),
{
    let length = string.as_str().as_bytes().len();
    if length == 3 {
        Ok(string)
    } else if length < 3 {
        Err(ThreeStringFailure::TooShort)
    } else {
        Err(ThreeStringFailure::TooLong)
    }
}

} // verus!
