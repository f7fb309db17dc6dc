use yaged::decoder::{decode, signature, ColorOutput, Decoding};
use yaged::error::Error;
use yaged::types::Gif;

/// Drives a decode session to completion, handing each paused frame the
/// next of the given index buffers, as the external pixel codec would.
fn decode_all(bytes: Vec<u8>, mode: ColorOutput, rasters: Vec<Vec<u8>>) -> Result<Gif, Error> {
    let mut step = decode(bytes, mode)?;
    let mut supply = rasters.into_iter();
    loop {
        match step {
            Decoding::Done(gif) => return Ok(gif),
            Decoding::NeedPixelData(paused) => {
                let raster = supply.next().expect("more frames than supplied index buffers");
                step = paused.resume(raster)?;
            }
        }
    }
}

/// Signature, screen descriptor with a 4-entry global palette, one
/// graphic-control block (transparency on, index 3), one 2x2 frame
/// without a local palette, and the trailer.
fn example_with_frame() -> Vec<u8> {
    let mut bytes = vec![
        0x47, 0x49, 0x46, 0x38, 0x39, 0x61, // GIF89a
        0x02, 0x00, 0x02, 0x00, 0x81, 0x00, 0x00, // screen: 2x2, global palette, exponent 1
    ];
    // 4 palette entries
    bytes.extend_from_slice(&[1, 2, 3, 4, 5, 6, 7, 8, 9, 10, 11, 12]);
    // graphic control: transparency on, disposal 2, delay 0, transparent index 3
    bytes.extend_from_slice(&[0x21, 0xf9, 0x04, 0x09, 0x00, 0x00, 0x03, 0x00]);
    // image descriptor: left 0, top 0, 2x2, no local palette
    bytes.extend_from_slice(&[0x2c, 0x00, 0x00, 0x00, 0x00, 0x02, 0x00, 0x02, 0x00, 0x00]);
    // pixel data: one sub-block of one byte, then the terminator
    bytes.extend_from_slice(&[0x01, 0xaa, 0x00]);
    bytes.push(0x3b);
    bytes
}

#[test]
pub fn should_decode() {
    let bytes = vec![71, 73, 70, 56, 57, 97];

    let (decoded, cursor) = signature::decode(&bytes, 0).unwrap();

    assert_eq!("GIF89a".to_string(), decoded);
    assert_eq!(6, cursor);
}

#[test]
fn should_decode_older_signature() {
    let bytes = vec![71, 73, 70, 56, 55, 97];

    let (decoded, cursor) = signature::decode(&bytes, 0).unwrap();

    assert_eq!("GIF87a".to_string(), decoded);
    assert_eq!(6, cursor);
}

#[test]
fn should_fail_on_unrecognized_signature() {
    let bytes = vec![71, 73, 70, 56, 54, 97, 0, 0, 0, 0, 0, 0, 0, 0x3b];

    assert_eq!(Err(Error::InvalidSignature), signature::decode(&bytes, 0));
    match decode(bytes, ColorOutput::ColorMap) {
        Err(Error::InvalidSignature) => {}
        other => panic!("expected InvalidSignature, got {:?}", other),
    }
}

#[test]
fn should_decode_screen_descriptor_and_palette() {
    // width 10, height 5, flags 0x80: global palette present, exponent 0
    let bytes = vec![0x0a, 0x00, 0x05, 0x00, 0x80, 0x07, 0x00, 9, 8, 7, 6, 5, 4];

    let (descriptor, cursor) = yaged::decoder::screen_descriptor::decode(&bytes, 0).unwrap();

    assert_eq!(10, descriptor.width());
    assert_eq!(5, descriptor.height());
    assert!(descriptor.m());
    assert_eq!(0, descriptor.cr());
    assert_eq!(0, descriptor.pixel());
    assert_eq!(7, descriptor.background());
    assert_eq!(7, cursor);

    let (table, end) =
        yaged::decoder::color_map::decode(&bytes, descriptor.pixel(), descriptor.m(), cursor)
            .unwrap();
    let table = table.unwrap();
    assert_eq!(2, table.len());
    assert_eq!((9, 8, 7), (table[0].r(), table[0].g(), table[0].b()));
    assert_eq!((6, 5, 4), (table[1].r(), table[1].g(), table[1].b()));
    assert_eq!(13, end);
}

#[test]
fn should_not_advance_when_palette_absent() {
    let bytes = vec![0x00, 0x11, 0x22];

    let (table, cursor) = yaged::decoder::color_map::decode(&bytes, 3, false, 1).unwrap();

    assert!(table.is_none());
    assert_eq!(1, cursor);
}

#[test]
fn should_decode_empty_document() {
    // signature + screen descriptor + trailer: no image blocks at all
    let bytes = vec![
        0x47, 0x49, 0x46, 0x38, 0x39, 0x61, 0x0a, 0x00, 0x05, 0x00, 0x00, 0x00, 0x00, 0x3b,
    ];

    let gif = decode_all(bytes, ColorOutput::ColorMap, vec![]).unwrap();

    assert_eq!("GIF89a", gif.signature());
    assert!(gif.frames().is_empty());
    assert!(gif.global_color_map().is_none());
}

#[test]
fn should_decode_frame_in_color_map_mode() {
    let gif = decode_all(
        example_with_frame(),
        ColorOutput::ColorMap,
        vec![vec![0, 3, 1, 3]],
    )
    .unwrap();

    assert_eq!(1, gif.frames().len());
    let frame = &gif.frames()[0];
    assert_eq!(&vec![0, 3, 1, 3], frame.raster_data());
    assert_eq!(&None, frame.rgba_raster_data());
    assert!(frame.local_color_map().is_none());
    let gce = frame.graphic_control_extension().as_ref().unwrap();
    assert!(gce.transparent_color());
    assert!(!gce.user_input());
    assert_eq!(2, gce.disposal_method());
    assert_eq!(0, gce.delay_time());
    assert_eq!(Some(3), gce.transparent_color_index());
}

#[test]
fn should_resolve_transparency_in_rgba_mode() {
    let gif = decode_all(
        example_with_frame(),
        ColorOutput::RGBA,
        vec![vec![0, 3, 1, 3]],
    )
    .unwrap();

    let frame = &gif.frames()[0];
    let rgba = frame.rgba_raster_data().as_ref().unwrap();
    // pixels with index 3 get alpha 0; all others alpha 255
    assert_eq!(
        &vec![1, 2, 3, 255, 10, 11, 12, 0, 4, 5, 6, 255, 10, 11, 12, 0],
        rgba
    );
    assert_eq!(rgba.len(), frame.raster_data().len() * 4);
}

#[test]
fn should_hand_codec_the_packed_bitstream() {
    match decode(example_with_frame(), ColorOutput::ColorMap).unwrap() {
        Decoding::NeedPixelData(paused) => {
            // the sub-block framing is removed before the codec sees the data
            assert_eq!(&vec![0xaa], paused.compressed_data());
            assert_eq!(4, paused.pixel_count());
            assert_eq!(2, paused.current_descriptor().image_width());
            assert_eq!(2, paused.current_descriptor().image_height());
        }
        Decoding::Done(_) => panic!("expected a pause at the frame's pixel data"),
    }
}

#[test]
fn should_skip_metadata_whose_payload_holds_tag_bytes() {
    // a generic metadata block whose sub-block payload bytes equal the
    // image separator and trailer tags: the decoder must honor the length
    // prefixes instead of scanning for tag values
    let mut bytes = vec![
        0x47, 0x49, 0x46, 0x38, 0x39, 0x61, 0x02, 0x00, 0x02, 0x00, 0x00, 0x00, 0x00,
    ];
    bytes.extend_from_slice(&[0x21, 0x01, 0x03, 0x2c, 0x3b, 0x2c, 0x02, 0x2c, 0x2c, 0x00]);
    bytes.push(0x3b);

    let gif = decode_all(bytes, ColorOutput::ColorMap, vec![]).unwrap();

    assert!(gif.frames().is_empty());
}

#[test]
fn should_replace_pending_metadata_not_accumulate() {
    // two graphic-control blocks before one frame: only the most recently
    // seen one applies to it
    let mut bytes = vec![
        0x47, 0x49, 0x46, 0x38, 0x39, 0x61, 0x02, 0x00, 0x01, 0x00, 0x00, 0x00, 0x00,
    ];
    bytes.extend_from_slice(&[0x21, 0xf9, 0x04, 0x00, 0x05, 0x00, 0x00]);
    bytes.extend_from_slice(&[0x21, 0xf9, 0x04, 0x00, 0x09, 0x00, 0x00]);
    bytes.extend_from_slice(&[0x2c, 0x00, 0x00, 0x00, 0x00, 0x02, 0x00, 0x01, 0x00, 0x00]);
    bytes.extend_from_slice(&[0x00]);
    bytes.push(0x3b);

    let gif = decode_all(bytes, ColorOutput::ColorMap, vec![vec![0, 0]]).unwrap();

    let gce = gif.frames()[0].graphic_control_extension().as_ref().unwrap();
    assert_eq!(9, gce.delay_time());
}

#[test]
fn should_fail_on_truncated_input() {
    let bytes = vec![0x47, 0x49, 0x46, 0x38, 0x39, 0x61, 0x0a, 0x00];

    match decode(bytes, ColorOutput::ColorMap) {
        Err(Error::UnexpectedEndOfStream) => {}
        other => panic!("expected UnexpectedEndOfStream, got {:?}", other),
    }
}

#[test]
fn should_fail_on_missing_trailer() {
    let bytes = vec![
        0x47, 0x49, 0x46, 0x38, 0x39, 0x61, 0x0a, 0x00, 0x05, 0x00, 0x00, 0x00, 0x00,
    ];

    match decode(bytes, ColorOutput::ColorMap) {
        Err(Error::UnexpectedEndOfStream) => {}
        other => panic!("expected UnexpectedEndOfStream, got {:?}", other),
    }
}

#[test]
fn should_reject_index_buffer_of_wrong_length() {
    match decode(example_with_frame(), ColorOutput::ColorMap).unwrap() {
        Decoding::NeedPixelData(paused) => match paused.resume(vec![0, 3, 1]) {
            Err(Error::CorruptFrameData) => {}
            other => panic!("expected CorruptFrameData, got {:?}", other),
        },
        Decoding::Done(_) => panic!("expected a pause at the frame's pixel data"),
    }
}

#[test]
fn should_fail_without_any_palette_in_rgba_mode() {
    // no global palette and no local palette, but color resolution requested
    let mut bytes = vec![
        0x47, 0x49, 0x46, 0x38, 0x39, 0x61, 0x02, 0x00, 0x01, 0x00, 0x00, 0x00, 0x00,
    ];
    bytes.extend_from_slice(&[0x2c, 0x00, 0x00, 0x00, 0x00, 0x02, 0x00, 0x01, 0x00, 0x00]);
    bytes.extend_from_slice(&[0x00]);
    bytes.push(0x3b);

    match decode_all(bytes, ColorOutput::RGBA, vec![vec![0, 0]]) {
        Err(Error::MissingPaletteTable) => {}
        other => panic!("expected MissingPaletteTable, got {:?}", other),
    }
}

#[test]
fn should_fail_on_out_of_range_palette_index() {
    // indices 0..3 exist; index 7 does not
    match decode_all(example_with_frame(), ColorOutput::RGBA, vec![vec![0, 7, 1, 3]]) {
        Err(Error::PaletteIndexOutOfRange) => {}
        other => panic!("expected PaletteIndexOutOfRange, got {:?}", other),
    }
}

#[test]
fn should_decode_local_palette_iff_flagged() {
    // one frame with a local palette (exponent 0), one without
    let mut bytes = vec![
        0x47, 0x49, 0x46, 0x38, 0x39, 0x61, 0x02, 0x00, 0x01, 0x00, 0x81, 0x00, 0x00,
    ];
    bytes.extend_from_slice(&[1, 2, 3, 4, 5, 6, 7, 8, 9, 10, 11, 12]);
    // first frame: local palette present, exponent 0
    bytes.extend_from_slice(&[0x2c, 0x00, 0x00, 0x00, 0x00, 0x02, 0x00, 0x01, 0x00, 0x80]);
    bytes.extend_from_slice(&[21, 22, 23, 31, 32, 33]);
    bytes.extend_from_slice(&[0x00]);
    // second frame: no local palette
    bytes.extend_from_slice(&[0x2c, 0x00, 0x00, 0x00, 0x00, 0x02, 0x00, 0x01, 0x00, 0x00]);
    bytes.extend_from_slice(&[0x00]);
    bytes.push(0x3b);

    let gif = decode_all(
        bytes,
        ColorOutput::RGBA,
        vec![vec![1, 0], vec![2, 3]],
    )
    .unwrap();

    assert_eq!(2, gif.frames().len());
    let with_local = &gif.frames()[0];
    let without_local = &gif.frames()[1];

    // a frame's local palette is present iff its descriptor flags one
    assert!(with_local.image_descriptor().m());
    let local = with_local.local_color_map().as_ref().unwrap();
    assert_eq!(2, local.len());
    assert!(!without_local.image_descriptor().m());
    assert!(without_local.local_color_map().is_none());

    // the local palette overrides the global one; the global applies otherwise
    assert_eq!(
        &vec![31, 32, 33, 255, 21, 22, 23, 255],
        with_local.rgba_raster_data().as_ref().unwrap()
    );
    assert_eq!(
        &vec![7, 8, 9, 255, 10, 11, 12, 255],
        without_local.rgba_raster_data().as_ref().unwrap()
    );
}

#[test]
fn should_unpack_all_screen_flag_fields() {
    // 0xd5 = bit 7 set, color resolution 0b101, sort clear, exponent 0b101
    let bytes = vec![0x01, 0x00, 0x01, 0x00, 0xd5, 0x00, 0x31];

    let (descriptor, _) = yaged::decoder::screen_descriptor::decode(&bytes, 0).unwrap();

    assert!(descriptor.m());
    assert_eq!(5, descriptor.cr());
    assert!(!descriptor.sort());
    assert_eq!(5, descriptor.pixel());
    assert_eq!(0x31, descriptor.aspect_ratio());
}

#[test]
fn should_decode_largest_palette() {
    // exponent 7: 256 entries, 768 bytes
    let mut bytes = vec![0u8; 768];
    for (position, byte) in bytes.iter_mut().enumerate() {
        *byte = (position % 256) as u8;
    }

    let (table, end) = yaged::decoder::color_map::decode(&bytes, 7, true, 0).unwrap();
    let table = table.unwrap();

    assert_eq!(256, table.len());
    assert_eq!(768, end);
    assert_eq!((0, 1, 2), (table[0].r(), table[0].g(), table[0].b()));
    assert_eq!((253, 254, 255), (table[255].r(), table[255].g(), table[255].b()));
}

#[test]
fn should_fail_on_truncated_palette() {
    // palette needs 6 bytes but only 5 remain
    let bytes = vec![1, 2, 3, 4, 5];

    assert_eq!(
        Err(Error::UnexpectedEndOfStream),
        yaged::decoder::color_map::decode(&bytes, 0, true, 0)
    );
}

#[test]
fn should_accept_zero_pixel_frame() {
    // a frame whose width is zero: the index buffer must be empty
    let mut bytes = vec![
        0x47, 0x49, 0x46, 0x38, 0x39, 0x61, 0x02, 0x00, 0x01, 0x00, 0x00, 0x00, 0x00,
    ];
    bytes.extend_from_slice(&[0x2c, 0x00, 0x00, 0x00, 0x00, 0x00, 0x00, 0x01, 0x00, 0x00]);
    bytes.extend_from_slice(&[0x00]);
    bytes.push(0x3b);

    let gif = decode_all(bytes, ColorOutput::ColorMap, vec![vec![]]).unwrap();

    assert_eq!(1, gif.frames().len());
    assert!(gif.frames()[0].raster_data().is_empty());
}

#[test]
fn should_decode_deterministically() {
    let first = decode_all(
        example_with_frame(),
        ColorOutput::RGBA,
        vec![vec![0, 3, 1, 3]],
    )
    .unwrap();
    let second = decode_all(
        example_with_frame(),
        ColorOutput::RGBA,
        vec![vec![0, 3, 1, 3]],
    )
    .unwrap();

    assert_eq!(first, second);
}
