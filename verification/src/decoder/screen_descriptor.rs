use crate::bits::{nth_bit, spec_bit, spec_u16_le, u16_le};
use crate::cursor::read_exact;
use crate::error::Error;
use crate::types::ScreenDescriptor;
use vstd::prelude::*;

verus! {

/// The screen descriptor encoded in the 7 bytes at `c`: width and height
/// little-endian 16-bit, then the flags byte (bit 7 global palette present,
/// bits 6-4 color resolution, bit 3 sort, bits 2-0 palette size exponent),
/// the background color index, and the aspect ratio byte.
pub open spec fn spec_screen_descriptor(bytes: Seq<u8>, c: int) -> ScreenDescriptor {
    ScreenDescriptor {
        width: spec_u16_le(bytes[c], bytes[c + 1]),
        height: spec_u16_le(bytes[c + 2], bytes[c + 3]),
        m: spec_bit(bytes[c + 4], 7),
        cr: (bytes[c + 4] >> 4) & 7,
        sort: spec_bit(bytes[c + 4], 3),
        pixel: bytes[c + 4] & 7,
        background: bytes[c + 5],
        aspect_ratio: bytes[c + 6],
    }
}

/// Reads the 7-byte screen descriptor at `cursor` and decodes its
/// bit-packed flags into plain fields.
pub fn decode(bytes: &Vec<u8>, cursor: usize) -> (r: Result<(ScreenDescriptor, usize), Error>)
    ensures
        r is Ok <==> cursor + 7 <= bytes@.len(),
        r matches Ok(p) ==> p.0 == spec_screen_descriptor(bytes@, cursor as int) && p.1 == cursor
            + 7,
        r matches Err(e) ==> e == Error::UnexpectedEndOfStream,
{
    let (win, end) = match read_exact(bytes, cursor, 7) {
        Ok(p) => p,
        Err(e) => {
            return Err(e);
        },
    };
    let flags = win[4];
    let descriptor = ScreenDescriptor {
        width: u16_le(win[0], win[1]),
        height: u16_le(win[2], win[3]),
        m: nth_bit(flags, 7),
        cr: (flags >> 4) & 7,
        sort: nth_bit(flags, 3),
        pixel: flags & 7,
        background: win[5],
        aspect_ratio: win[6],
    };
    Ok((descriptor, end))
}

} // verus!
