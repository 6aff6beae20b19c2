//! The display transform: turns a decoded image into RGBA8 bytes.

use crate::surface::Size;
use vstd::prelude::*;

verus! {

/// The color that the display transform gives every pixel, as RGBA.
pub const FILL_COLOR: [u8; 4] = [0x48, 0xb2, 0xe8, 0xff];

/// One decoded image: what the image source handed over for it. The value is
/// taken by value where it is used, so one image populates one buffer.
pub struct DecodedImage {
    samples: (),
}

/// The image source could not produce an image.
#[derive(Clone, Copy, Debug, PartialEq, Eq)]
pub struct DecodeError;

impl DecodedImage {
    /// Wraps what the image source returned.
    pub fn new(samples: ()) -> (image: DecodedImage) {
        DecodedImage { samples }
    }
}

/// The byte that the display transform writes at offset `i` of a buffer.
pub open spec fn fill_byte(i: int) -> u8 {
    FILL_COLOR[i % 4]
}

/// A buffer of `len` bytes in which every pixel has the fill color.
pub open spec fn filled(len: nat) -> Seq<u8> {
    Seq::new(len, |i: int| fill_byte(i))
}

/// `frame` after the display transform ran over it: its whole four-byte pixel
/// slots hold the fill color, and the bytes after the last whole slot, at most
/// three, are as they were.
pub open spec fn drawn(frame: Seq<u8>) -> Seq<u8> {
    Seq::new(
        frame.len(),
        |i: int|
            if i < frame.len() - frame.len() % 4 {
                fill_byte(i)
            } else {
                frame[i]
            },
    )
}

/// On a buffer made of whole pixels the transform leaves nothing of the old
/// content.
pub proof fn lemma_drawn_whole(frame: Seq<u8>)
    requires
        frame.len() % 4 == 0,
    ensures
        drawn(frame) == filled(frame.len()),
{
    assert(drawn(frame) =~= filled(frame.len()));
}

/// Sets every pixel slot of `frame` to the fill color, whatever the image
/// holds.
pub fn draw_image(frame: &mut [u8], _pixels: ())
    ensures
        final(frame)@ == drawn(old(frame)@),
{
    let n: usize = frame.len();
    let mut at: usize = 0;
    while n - at >= 4
        invariant
            at <= n,
            at % 4 == 0,
            n == old(frame)@.len(),
            frame@.len() == n,
            forall|i: int| 0 <= i < at ==> frame@[i] == fill_byte(i),
            forall|i: int| at <= i < n ==> frame@[i] == old(frame)@[i],
        decreases n - at,
    {
        frame[at] = FILL_COLOR[0];
        frame[at + 1] = FILL_COLOR[1];
        frame[at + 2] = FILL_COLOR[2];
        frame[at + 3] = FILL_COLOR[3];
        at = at + 4;
    }
}

/// The RGBA8 bytes that show `image` on a display of the given size: one
/// four-byte slot per pixel, row by row from the top, each with the fill color.
pub fn convert(image: DecodedImage, display: Size) -> (bytes: Vec<u8>)
    requires
        display.fits(),
    ensures
        bytes@ == filled(display.byte_len()),
{
    let len: usize = display.buffer_len().unwrap();
    let mut bytes: Vec<u8> = vec![0u8; len];
    draw_image(bytes.as_mut_slice(), image.samples);
    proof {
        lemma_drawn_whole(Seq::new(len as nat, |i: int| 0u8));
    }
    bytes
}

} // verus!
