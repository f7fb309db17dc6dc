use crate::encoder::{put_bytes, write_at};
use crate::types::GraphicControlExtension;
use vstd::prelude::*;

verus! {

/// The bit-packed flags byte of a graphic-control block: the disposal
/// method in bits 4-2, the user-input flag in bit 1, and the transparency
/// flag in bit 0.
pub open spec fn spec_gce_flags_byte(g: GraphicControlExtension) -> u8 {
    (g.disposal_method << 2) ^ ((if g.user_input {
        1u8
    } else {
        0u8
    }) << 1) ^ (if g.transparent_color {
        1u8
    } else {
        0u8
    })
}

/// The bytes a graphic-control block re-encodes to: the introducer and
/// label, the fixed block size, the flags byte, the little-endian delay
/// time, the transparent color index when present, and the terminator.
pub open spec fn spec_gce_bytes(g: GraphicControlExtension) -> Seq<u8> {
    seq![
        0x21u8,
        0xf9u8,
        4u8,
        spec_gce_flags_byte(g),
        (g.delay_time & 0xff) as u8,
        (g.delay_time >> 8) as u8,
    ] + (match g.transparent_color_index {
        Some(t) => seq![t, 0u8],
        None => seq![0u8],
    })
}

/// Writes a graphic-control metadata block at `cursor` and returns the
/// cursor past its terminator.
pub fn encode_graphic_control_extension(
    bytes: &mut Vec<u8>,
    graphic_control_extension: &GraphicControlExtension,
    cursor: usize,
) -> (r: usize)
    requires
        cursor <= old(bytes)@.len(),
        cursor + 8 <= usize::MAX,
    ensures
        final(bytes)@ == write_at(
            old(bytes)@,
            cursor as int,
            spec_gce_bytes(*graphic_control_extension),
        ),
        r == cursor + spec_gce_bytes(*graphic_control_extension).len(),
{
    proof {
        crate::bits::lemma_u16_le_split(graphic_control_extension.delay_time);
    }
    let flags: u8 = (graphic_control_extension.disposal_method << 2) ^ ((
    if graphic_control_extension.user_input {
        1u8
    } else {
        0u8
    }) << 1) ^ (if graphic_control_extension.transparent_color {
        1u8
    } else {
        0u8
    });
    let mut data: Vec<u8> = Vec::new();
    data.push(0x21);
    data.push(0xf9);
    data.push(4);
    data.push(flags);
    data.push((graphic_control_extension.delay_time & 0xff) as u8);
    data.push((graphic_control_extension.delay_time >> 8) as u8);
    match graphic_control_extension.transparent_color_index {
        Some(index) => {
            data.push(index);
            data.push(0);
        },
        None => {
            data.push(0);
        },
    }
    proof {
        assert(data@ =~= spec_gce_bytes(*graphic_control_extension));
    }
    let written = data.len();
    put_bytes(bytes, cursor, &data);
    cursor + written
}

} // verus!
