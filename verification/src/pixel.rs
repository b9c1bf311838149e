//! Copying a rendered canvas into a window surface.
//!
//! The canvas holds one 32-bit word per pixel, with alpha in the top byte and
//! then red, green and blue. The surface wants four bytes per pixel in the
//! order red, green, blue, alpha.
use vstd::prelude::*;

verus! {

/// The alpha channel of an ARGB word: its top byte.
pub open spec fn alpha(argb: u32) -> u8 {
    (argb / 0x100_0000) as u8
}

/// The red channel of an ARGB word: its second byte from the top.
pub open spec fn red(argb: u32) -> u8 {
    (argb / 0x1_0000 % 0x100) as u8
}

/// The green channel of an ARGB word: its third byte from the top.
pub open spec fn green(argb: u32) -> u8 {
    (argb / 0x100 % 0x100) as u8
}

/// The blue channel of an ARGB word: its lowest byte.
pub open spec fn blue(argb: u32) -> u8 {
    (argb % 0x100) as u8
}

/// The four surface bytes of one pixel: red, green, blue, alpha.
pub open spec fn rgba_bytes(argb: u32) -> Seq<u8> {
    seq![red(argb), green(argb), blue(argb), alpha(argb)]
}

/// How many pixels a copy moves: one for each whole group of four bytes in
/// the destination, as long as the source has a word for it.
pub open spec fn pixels_copied(destination_len: nat, source_len: nat) -> nat {
    if destination_len / 4 <= source_len {
        destination_len / 4
    } else {
        source_len
    }
}

/// The destination after a copy: the bytes of the copied pixels in front,
/// everything behind them as it was.
pub open spec fn blitted(destination: Seq<u8>, source: Seq<u32>) -> Seq<u8> {
    Seq::new(
        destination.len(),
        |j: int|
            if j / 4 < pixels_copied(destination.len(), source.len()) {
                rgba_bytes(source[j / 4])[j % 4]
            } else {
                destination[j]
            },
    )
}

/// Splits an ARGB word into the bytes of one surface pixel.
pub fn to_rgba(argb: u32) -> (bytes: [u8; 4])
    ensures
        bytes@ == rgba_bytes(argb),
{
    let r: u8 = #[verifier::truncate] ((argb >> 16) as u8);
    let g: u8 = #[verifier::truncate] ((argb >> 8) as u8);
    let b: u8 = #[verifier::truncate] (argb as u8);
    let a: u8 = #[verifier::truncate] ((argb >> 24) as u8);
    assert(r == red(argb) && g == green(argb) && b == blue(argb) && a == alpha(argb)) by {
        assert((argb >> 16) as u8 == (argb / 0x1_0000 % 0x100) as u8) by (bit_vector);
        assert((argb >> 8) as u8 == (argb / 0x100 % 0x100) as u8) by (bit_vector);
        assert(argb as u8 == (argb % 0x100) as u8) by (bit_vector);
        assert((argb >> 24) as u8 == (argb / 0x100_0000) as u8) by (bit_vector);
    }
    let bytes = [r, g, b, a];
    assert(bytes@ =~= rgba_bytes(argb));
    bytes
}

/// Copies the canvas `source` into the surface `destination`, pixel by pixel
/// from the start, and stops where either runs out. Bytes of the destination
/// behind the last copied pixel keep their value.
pub fn blit(destination: &mut [u8], source: &[u32])
    ensures
        final(destination)@ == blitted(old(destination)@, source@),
{
    let ghost before = destination@;
    let groups: usize = destination.len() / 4;
    let count: usize = if groups <= source.len() { groups } else { source.len() };
    let mut i: usize = 0;
    while i < count
        invariant
            i <= count,
            count == pixels_copied(before.len(), source@.len()),
            count <= source@.len(),
            4 * count <= before.len() <= usize::MAX,
            destination@.len() == before.len(),
            forall|j: int| 0 <= j < 4 * i ==> destination@[j] == rgba_bytes(source@[j / 4])[j % 4],
            forall|j: int| 4 * i <= j < before.len() ==> destination@[j] == before[j],
        decreases count - i,
    {
        let bytes = to_rgba(source[i]);
        destination[4 * i] = bytes[0];
        destination[4 * i + 1] = bytes[1];
        destination[4 * i + 2] = bytes[2];
        destination[4 * i + 3] = bytes[3];
        i += 1;
    }
    assert(destination@ =~= blitted(before, source@));
}

/// The four channels of a word, put back at their places, give the word:
/// splitting a pixel loses nothing.
pub proof fn lemma_channels_recompose(argb: u32)
    ensures
        alpha(argb) * 0x100_0000 + red(argb) * 0x1_0000 + green(argb) * 0x100 + blue(argb) == argb,
{
}

/// Where the source has a word for every pixel of a destination made of whole
/// pixels, nothing of the destination's old content is left after a copy.
pub proof fn lemma_blit_overwrites(first: Seq<u8>, second: Seq<u8>, source: Seq<u32>)
    requires
        first.len() == second.len(),
        first.len() % 4 == 0,
        first.len() / 4 <= source.len(),
    ensures
        blitted(first, source) == blitted(second, source),
{
    assert(blitted(first, source) =~= blitted(second, source));
}

} // verus!
