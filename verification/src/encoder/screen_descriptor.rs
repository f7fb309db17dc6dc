use crate::bits::lemma_u16_le_split;
use crate::encoder::{put_bytes, write_at};
use crate::error::Error;
use crate::types::ScreenDescriptor;
use vstd::prelude::*;

verus! {

/// The bit-packed flags byte of a screen descriptor: the global palette
/// presence flag in bit 7, the color resolution in bits 6-4, the sort
/// flag in bit 3, and the palette size exponent in bits 2-0.
pub open spec fn spec_screen_flags_byte(sd: ScreenDescriptor) -> u8 {
    ((if sd.m {
        1u8
    } else {
        0u8
    }) << 7) ^ (sd.cr << 4) ^ ((if sd.sort {
        1u8
    } else {
        0u8
    }) << 3) ^ sd.pixel
}

/// The 7 bytes a screen descriptor re-encodes to: width and height
/// little-endian, the flags byte, the background color index, and the
/// aspect ratio byte.
pub open spec fn spec_screen_descriptor_bytes(sd: ScreenDescriptor) -> Seq<u8> {
    seq![
        (sd.width & 0xff) as u8,
        (sd.width >> 8) as u8,
        (sd.height & 0xff) as u8,
        (sd.height >> 8) as u8,
        spec_screen_flags_byte(sd),
        sd.background,
        sd.aspect_ratio,
    ]
}

/// Writes the 7 bytes of a screen descriptor at `cursor` and returns the
/// advanced cursor.
pub fn encode(bytes: &mut Vec<u8>, screen_descriptor: &ScreenDescriptor, cursor: usize) -> (r:
    Result<usize, Error>)
    requires
        cursor <= old(bytes)@.len(),
        cursor + 7 <= usize::MAX,
    ensures
        r matches Ok(c2) && final(bytes)@ == write_at(
            old(bytes)@,
            cursor as int,
            spec_screen_descriptor_bytes(*screen_descriptor),
        ) && c2 == cursor + 7,
{
    proof {
        lemma_u16_le_split(screen_descriptor.width);
        lemma_u16_le_split(screen_descriptor.height);
    }
    let flags: u8 = ((if screen_descriptor.m {
        1u8
    } else {
        0u8
    }) << 7) ^ (screen_descriptor.cr << 4) ^ ((if screen_descriptor.sort {
        1u8
    } else {
        0u8
    }) << 3) ^ screen_descriptor.pixel;
    let mut data: Vec<u8> = Vec::new();
    data.push((screen_descriptor.width & 0xff) as u8);
    data.push((screen_descriptor.width >> 8) as u8);
    data.push((screen_descriptor.height & 0xff) as u8);
    data.push((screen_descriptor.height >> 8) as u8);
    data.push(flags);
    data.push(screen_descriptor.background);
    data.push(screen_descriptor.aspect_ratio);
    proof {
        assert(data@ =~= spec_screen_descriptor_bytes(*screen_descriptor));
    }
    put_bytes(bytes, cursor, &data);
    Ok(cursor + 7)
}

} // verus!
