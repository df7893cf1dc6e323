//! What holds of recolouring for every template and colour: which bytes it leaves alone,
//! that its checksum is right, and that it depends on the template and colour alone.

use crate::checksum::crc32;
use crate::image::{
    be_bytes, checksum_holds, checksummed, holds_palette_chunk, is_template, palette, patched,
    stored_checksum, with_checksum, with_palette, CHECKSUM_END, CHUNK_LENGTH_START,
    CHUNK_TYPE_START, PALETTE_END, PALETTE_START,
};
use vstd::prelude::*;

verus! {

/// Recolouring keeps the length, writes the colour into the palette entry, and changes no
/// byte outside the three bytes of the palette entry and the four bytes of the checksum.
pub proof fn lemma_patch_changes_seven_bytes(bytes: Seq<u8>, c: (u8, u8, u8))
    requires
        holds_palette_chunk(bytes),
    ensures
        patched(bytes, c).len() == bytes.len(),
        palette(patched(bytes, c)) == seq![c.0, c.1, c.2],
        forall|i: int|
            0 <= i < bytes.len() && !(PALETTE_START <= i < CHECKSUM_END) ==> patched(bytes, c)[i]
                == bytes[i],
{
    assert(palette(patched(bytes, c)) =~= seq![c.0, c.1, c.2]);
}

/// The checksum field of a recoloured image is the CRC-32, most significant byte first, of
/// the chunk's type tag and palette entry as they stand in that image.
pub proof fn lemma_patched_checksum_holds(bytes: Seq<u8>, c: (u8, u8, u8))
    requires
        holds_palette_chunk(bytes),
    ensures
        checksum_holds(patched(bytes, c)),
        checksummed(patched(bytes, c)) == bytes.subrange(
            CHUNK_TYPE_START as int,
            PALETTE_START as int,
        ) + seq![c.0, c.1, c.2],
{
    let recoloured = with_palette(bytes, c);
    let sum = crc32(checksummed(recoloured));
    assert(checksummed(patched(bytes, c)) =~= checksummed(recoloured));
    assert(stored_checksum(patched(bytes, c)) =~= be_bytes(sum));
    assert(checksummed(recoloured) =~= bytes.subrange(
        CHUNK_TYPE_START as int,
        PALETTE_START as int,
    ) + seq![c.0, c.1, c.2]);
}

/// A recoloured template still has the layout of the template.
pub proof fn lemma_patch_keeps_layout(bytes: Seq<u8>, c: (u8, u8, u8))
    requires
        is_template(bytes),
    ensures
        is_template(patched(bytes, c)),
{
    assert(patched(bytes, c).subrange(CHUNK_LENGTH_START as int, CHUNK_TYPE_START as int)
        =~= bytes.subrange(CHUNK_LENGTH_START as int, CHUNK_TYPE_START as int));
    assert(patched(bytes, c).subrange(CHUNK_TYPE_START as int, PALETTE_START as int)
        =~= bytes.subrange(CHUNK_TYPE_START as int, PALETTE_START as int));
}

/// Recolouring depends on nothing but the template and the colour: the same template and
/// colour give the same image, byte for byte.
pub proof fn lemma_patch_is_deterministic(
    first: Seq<u8>,
    second: Seq<u8>,
    c: (u8, u8, u8),
    d: (u8, u8, u8),
)
    requires
        first == second,
        c == d,
    ensures
        patched(first, c) == patched(second, d),
{
}

/// Recolouring an image that was recoloured before gives what recolouring the template
/// gives: the earlier colour leaves no trace.
pub proof fn lemma_patch_forgets_earlier_colour(bytes: Seq<u8>, c: (u8, u8, u8), d: (u8, u8, u8))
    requires
        holds_palette_chunk(bytes),
    ensures
        patched(patched(bytes, c), d) == patched(bytes, d),
{
    let once = patched(bytes, c);
    assert(with_palette(once, d) =~= with_checksum(
        with_palette(bytes, d),
        crc32(checksummed(with_palette(bytes, c))),
    ));
    assert(checksummed(with_palette(once, d)) =~= checksummed(with_palette(bytes, d)));
    assert(patched(once, d) =~= patched(bytes, d));
}

/// The four bytes that write a number give the number back.
pub proof fn lemma_be_bytes_value(value: u32)
    ensures
        be_bytes(value).len() == 4,
        value == 0x100_0000 * be_bytes(value)[0] + 0x1_0000 * be_bytes(value)[1] + 0x100
            * be_bytes(value)[2] + be_bytes(value)[3],
{
}

} // verus!
