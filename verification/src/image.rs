//! Recolouring of the template image.
//!
//! The template is a PNG with a palette of one colour. Its layout is fixed: the palette
//! chunk's length field, type tag, one three-byte entry and checksum stand at known
//! offsets. To recolour the image, a copy of the template gets the colour written over the
//! palette entry and the chunk's checksum computed anew; no other byte changes.

use crate::checksum::{checksum, crc32};
use crate::hex_colour::HexColour;
use vstd::prelude::*;
use vstd::slice::{slice_subrange, slice_to_vec};

verus! {

/// Where the palette chunk's four-byte length field starts.
pub const CHUNK_LENGTH_START: usize = 0x43;

/// Where the palette chunk's four-byte type tag starts. The checksum covers the bytes from
/// here to the end of the palette entry.
pub const CHUNK_TYPE_START: usize = 0x47;

/// Where the three bytes of the palette entry start.
pub const PALETTE_START: usize = 0x4b;

/// Where the palette entry ends and the four-byte checksum starts.
pub const PALETTE_END: usize = 0x4e;

/// Where the checksum ends.
pub const CHECKSUM_END: usize = 0x52;

/// `bytes` reaches to the end of the palette chunk's checksum.
pub open spec fn holds_palette_chunk(bytes: Seq<u8>) -> bool {
    bytes.len() >= CHECKSUM_END
}

/// `bytes` has the layout of the template: at the fixed offsets stand a chunk length of
/// three and the type tag `PLTE`, and the chunk's checksum fits in.
pub open spec fn is_template(bytes: Seq<u8>) -> bool {
    &&& holds_palette_chunk(bytes)
    &&& bytes.subrange(CHUNK_LENGTH_START as int, CHUNK_TYPE_START as int) == seq![
        0u8,
        0u8,
        0u8,
        3u8,
    ]
    &&& bytes.subrange(CHUNK_TYPE_START as int, PALETTE_START as int) == seq![
        0x50u8,
        0x4cu8,
        0x54u8,
        0x45u8,
    ]
}

/// The four bytes of `value`, the most significant first.
pub open spec fn be_bytes(value: u32) -> Seq<u8> {
    seq![
        (value / 0x100_0000) as u8,
        (value / 0x1_0000 % 0x100) as u8,
        (value / 0x100 % 0x100) as u8,
        (value % 0x100) as u8,
    ]
}

/// The bytes that the palette chunk's checksum covers: its type tag and its entry.
pub open spec fn checksummed(bytes: Seq<u8>) -> Seq<u8> {
    bytes.subrange(CHUNK_TYPE_START as int, PALETTE_END as int)
}

/// The palette entry of `bytes`.
pub open spec fn palette(bytes: Seq<u8>) -> Seq<u8> {
    bytes.subrange(PALETTE_START as int, PALETTE_END as int)
}

/// The checksum field of `bytes`.
pub open spec fn stored_checksum(bytes: Seq<u8>) -> Seq<u8> {
    bytes.subrange(PALETTE_END as int, CHECKSUM_END as int)
}

/// `bytes` with the palette entry replaced by the channels `c`: red, green, blue.
pub open spec fn with_palette(bytes: Seq<u8>, c: (u8, u8, u8)) -> Seq<u8> {
    bytes.update(PALETTE_START as int, c.0).update(PALETTE_START + 1, c.1).update(
        PALETTE_START + 2,
        c.2,
    )
}

/// `bytes` with the checksum field replaced by `sum`, the most significant byte first.
pub open spec fn with_checksum(bytes: Seq<u8>, sum: u32) -> Seq<u8> {
    bytes.update(PALETTE_END as int, be_bytes(sum)[0]).update(
        PALETTE_END + 1,
        be_bytes(sum)[1],
    ).update(PALETTE_END + 2, be_bytes(sum)[2]).update(PALETTE_END + 3, be_bytes(sum)[3])
}

/// The template `bytes` recoloured to `c`: the palette entry is `c`, and the checksum field
/// is the CRC-32 of the chunk's type tag and new entry.
pub open spec fn patched(bytes: Seq<u8>, c: (u8, u8, u8)) -> Seq<u8> {
    let recoloured = with_palette(bytes, c);
    with_checksum(recoloured, crc32(checksummed(recoloured)))
}

/// The checksum field of `bytes` is the CRC-32 of the bytes it covers.
pub open spec fn checksum_holds(bytes: Seq<u8>) -> bool {
    stored_checksum(bytes) == be_bytes(crc32(checksummed(bytes)))
}

/// Writes the channels of `colour` over the palette entry, red first.
pub fn set_palette(bytes: &mut Vec<u8>, colour: &HexColour)
    requires
        old(bytes)@.len() >= PALETTE_END,
    ensures
        final(bytes)@ == with_palette(old(bytes)@, colour@),
{
    let channels = colour.channels();
    bytes[PALETTE_START] = channels[0];
    bytes[PALETTE_START + 1] = channels[1];
    bytes[PALETTE_START + 2] = channels[2];
}

/// Writes `sum` over the checksum field, the most significant byte first.
pub fn write_checksum(bytes: &mut Vec<u8>, sum: u32)
    requires
        holds_palette_chunk(old(bytes)@),
    ensures
        final(bytes)@ == with_checksum(old(bytes)@, sum),
{
    bytes[PALETTE_END] = (sum / 0x100_0000) as u8;
    bytes[PALETTE_END + 1] = (sum / 0x1_0000 % 0x100) as u8;
    bytes[PALETTE_END + 2] = (sum / 0x100 % 0x100) as u8;
    bytes[PALETTE_END + 3] = (sum % 0x100) as u8;
}

/// Whether `bytes` has the layout of the template.
pub fn check_template(bytes: &[u8]) -> (ok: bool)
    ensures
        ok == is_template(bytes@),
{
    if bytes.len() < CHECKSUM_END {
        return false;
    }
    let ok = bytes[CHUNK_LENGTH_START] == 0 && bytes[CHUNK_LENGTH_START + 1] == 0
        && bytes[CHUNK_LENGTH_START + 2] == 0 && bytes[CHUNK_LENGTH_START + 3] == 3
        && bytes[CHUNK_TYPE_START] == 0x50 && bytes[CHUNK_TYPE_START + 1] == 0x4c
        && bytes[CHUNK_TYPE_START + 2] == 0x54 && bytes[CHUNK_TYPE_START + 3] == 0x45;
    proof {
        let length = bytes@.subrange(CHUNK_LENGTH_START as int, CHUNK_TYPE_START as int);
        let tag = bytes@.subrange(CHUNK_TYPE_START as int, PALETTE_START as int);
        if ok {
            assert(length =~= seq![0u8, 0u8, 0u8, 3u8]);
            assert(tag =~= seq![0x50u8, 0x4cu8, 0x54u8, 0x45u8]);
        } else {
            assert(length[0] == bytes@[CHUNK_LENGTH_START as int]);
            assert(length[1] == bytes@[CHUNK_LENGTH_START + 1]);
            assert(length[2] == bytes@[CHUNK_LENGTH_START + 2]);
            assert(length[3] == bytes@[CHUNK_LENGTH_START + 3]);
            assert(tag[0] == bytes@[CHUNK_TYPE_START as int]);
            assert(tag[1] == bytes@[CHUNK_TYPE_START + 1]);
            assert(tag[2] == bytes@[CHUNK_TYPE_START + 2]);
            assert(tag[3] == bytes@[CHUNK_TYPE_START + 3]);
        }
    }
    ok
}

/// A copy of `template` recoloured to `colour`. The template itself is not changed.
pub fn patch(template: &[u8], colour: &HexColour) -> (image: Vec<u8>)
    requires
        holds_palette_chunk(template@),
    ensures
        image@ == patched(template@, colour@),
{
    let mut image = slice_to_vec(template);
    set_palette(&mut image, colour);
    let sum = checksum(slice_subrange(image.as_slice(), CHUNK_TYPE_START, PALETTE_END));
    write_checksum(&mut image, sum);
    image
}

/// A template image whose layout has been checked.
pub struct Template {
    bytes: Vec<u8>,
}

impl View for Template {
    type V = Seq<u8>;

    /// The bytes of the template.
    closed spec fn view(&self) -> Seq<u8> {
        self.bytes@
    }
}

impl Template {
    #[verifier::type_invariant]
    spec fn laid_out(self) -> bool {
        is_template(self.bytes@)
    }

    /// Checks the layout of `bytes` and keeps them as a template. Returns `None` exactly
    /// when the layout is not that of the template.
    pub fn new(bytes: Vec<u8>) -> (template: Option<Template>)
        ensures
            template is Some <==> is_template(bytes@),
            template matches Some(t) ==> t@ == bytes@,
    {
        if check_template(bytes.as_slice()) {
            Some(Template { bytes })
        } else {
            None
        }
    }

    /// The bytes of the template, which have its layout.
    pub fn bytes(&self) -> (bytes: &[u8])
        ensures
            bytes@ == self@,
            is_template(self@),
    {
        proof {
            use_type_invariant(self);
        }
        self.bytes.as_slice()
    }

    /// A copy of the template recoloured to `colour`.
    pub fn patch(&self, colour: &HexColour) -> (image: Vec<u8>)
        ensures
            image@ == patched(self@, colour@),
            is_template(self@),
    {
        patch(self.bytes(), colour)
    }
}

} // verus!
