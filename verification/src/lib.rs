//! Colour previews: parsing of hexadecimal colour codes, recolouring of a template image
//! whose palette holds one colour, and the replies of a server that previews colours.

pub mod checksum;
pub mod handlers;
pub mod hex;
pub mod hex_colour;
pub mod image;
pub mod image_lemmas;
pub mod parse_lemmas;
pub mod text;
