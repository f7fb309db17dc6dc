use crate::bits::{nth_bit, spec_bit, spec_u16_le, u16_le};
use crate::cursor::read_exact;
use crate::error::Error;
use crate::types::ImageDescriptor;
use vstd::prelude::*;

verus! {

/// The image descriptor encoded in the 10 bytes at `c`: the image
/// separator tag byte, left, top, width and height little-endian 16-bit,
/// then the flags byte (bit 7 local palette present, bit 6 interlace,
/// bits 2-0 palette size exponent).
pub open spec fn spec_image_descriptor(bytes: Seq<u8>, c: int) -> ImageDescriptor {
    ImageDescriptor {
        image_left: spec_u16_le(bytes[c + 1], bytes[c + 2]),
        image_top: spec_u16_le(bytes[c + 3], bytes[c + 4]),
        image_width: spec_u16_le(bytes[c + 5], bytes[c + 6]),
        image_height: spec_u16_le(bytes[c + 7], bytes[c + 8]),
        m: spec_bit(bytes[c + 9], 7),
        i: spec_bit(bytes[c + 9], 6),
        pixel: bytes[c + 9] & 7,
    }
}

/// Reads the 10-byte image descriptor block at `cursor` (the image
/// separator tag included) and decodes its bit-packed flags into plain
/// fields.
pub fn decode(bytes: &Vec<u8>, cursor: usize) -> (r: Result<(ImageDescriptor, usize), Error>)
    ensures
        r is Ok <==> cursor + 10 <= bytes@.len(),
        r matches Ok(p) ==> p.0 == spec_image_descriptor(bytes@, cursor as int) && p.1 == cursor
            + 10,
        r matches Err(e) ==> e == Error::UnexpectedEndOfStream,
{
    let (win, end) = match read_exact(bytes, cursor, 10) {
        Ok(p) => p,
        Err(e) => {
            return Err(e);
        },
    };
    let flags = win[9];
    let descriptor = ImageDescriptor {
        image_left: u16_le(win[1], win[2]),
        image_top: u16_le(win[3], win[4]),
        image_width: u16_le(win[5], win[6]),
        image_height: u16_le(win[7], win[8]),
        m: nth_bit(flags, 7),
        i: nth_bit(flags, 6),
        pixel: flags & 7,
    };
    Ok((descriptor, end))
}

} // verus!
