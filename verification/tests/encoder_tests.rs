use yaged::decoder::{decode, ColorOutput, Decoding};
use yaged::encoder;
use yaged::error::Error;
use yaged::types::{Frame, Gif, GraphicControlExtension, ImageDescriptor};

/// Drives a decode session to completion, handing each paused frame the
/// next of the given index buffers, as the external pixel codec would.
fn decode_all(
    bytes: Vec<u8>,
    mode: ColorOutput,
    rasters: Vec<Vec<u8>>,
) -> Result<Gif, Error> {
    let mut step = decode(bytes, mode)?;
    let mut supply = rasters.into_iter();
    loop {
        match step {
            Decoding::Done(gif) => return Ok(gif),
            Decoding::NeedPixelData(paused) => {
                let raster = supply.next().expect("more frames than supplied index buffers");
                step = paused.resume(raster)?;
            }
        }
    }
}

/// A document whose first graphic-control block sits at byte offset 32:
/// signature, screen descriptor, a generic metadata block of 19 bytes,
/// the graphic-control block, one 2x2 frame, and the trailer.
fn example_source() -> Vec<u8> {
    let mut bytes = vec![
        0x47, 0x49, 0x46, 0x38, 0x39, 0x61, // GIF89a
        0x02, 0x00, 0x02, 0x00, 0x00, 0x00, 0x00, // screen: 2x2, no global palette
    ];
    // generic metadata block: introducer, label, a 15-byte sub-block, terminator
    bytes.extend_from_slice(&[0x21, 0xfe]);
    bytes.push(15);
    bytes.extend_from_slice(&[0; 15]);
    bytes.push(0);
    // graphic control at offset 32: transparency on, delay 0x0014, index 3
    bytes.extend_from_slice(&[0x21, 0xf9, 0x04, 0x09, 0x14, 0x00, 0x03, 0x00]);
    // image descriptor and pixel data
    bytes.extend_from_slice(&[0x2c, 0x00, 0x00, 0x00, 0x00, 0x02, 0x00, 0x02, 0x00, 0x00]);
    bytes.extend_from_slice(&[0x01, 0xaa, 0x00]);
    bytes.push(0x3b);
    bytes
}

#[test]
pub fn signature_should_encode() {
    let mut bytes = vec![];
    let signature = "GIF89a".to_string();
    encoder::signature::encode(&mut bytes, &signature, 0).unwrap();

    assert_eq!([71, 73, 70, 56, 57, 97], bytes[0..6]);
}

#[test]
fn signature_should_reject_unrecognized_literal() {
    let mut bytes = vec![];
    let signature = "GIF90a".to_string();

    assert_eq!(
        Err(Error::InvalidSignature),
        encoder::signature::encode(&mut bytes, &signature, 0)
    );
    assert!(bytes.is_empty());
}

#[test]
pub fn screen_descriptor_should_encode() {
    let source_bytes = example_source();
    let gif = decode_all(source_bytes.clone(), ColorOutput::ColorMap, vec![vec![0; 4]]).unwrap();

    let mut bytes: Vec<u8> = [0; 7].to_vec();
    encoder::screen_descriptor::encode(&mut bytes, &gif.screen_descriptor(), 0).unwrap();

    assert_eq!(source_bytes[6..13].to_vec(), bytes);
}

#[test]
pub fn color_map_should_encode() {
    let gif = decode_all(example_source(), ColorOutput::ColorMap, vec![vec![0; 4]]).unwrap();

    let mut bytes: Vec<u8> = Vec::new();
    encoder::color_map::encode(&mut bytes, gif.global_color_map().as_ref(), 0).unwrap();

    assert_eq!(Vec::new() as Vec<u8>, bytes);
}

#[test]
fn color_map_should_encode_triples_in_order() {
    let mut bytes: Vec<u8> = Vec::new();
    let table = vec![
        yaged::types::Rgb::new(9, 8, 7),
        yaged::types::Rgb::new(6, 5, 4),
    ];

    let end = encoder::color_map::encode(&mut bytes, Some(&table), 0).unwrap();

    assert_eq!(vec![9, 8, 7, 6, 5, 4], bytes);
    assert_eq!(6, end);
}

#[test]
pub fn extension_block_should_encode() {
    let source_bytes = example_source();
    let gif = decode_all(source_bytes.clone(), ColorOutput::ColorMap, vec![vec![0; 4]]).unwrap();

    // first frame has graphic control extension block
    let test_frame = &gif.frames()[0];
    // index of the first decoded graphic control extension block
    let from_index = 32;

    let mut bytes: Vec<u8> = Vec::new();

    encoder::extension_block::encode_graphic_control_extension(
        &mut bytes,
        test_frame.graphic_control_extension().as_ref().unwrap(),
        0,
    );

    assert_eq!(source_bytes[from_index..from_index + 7].to_vec(), bytes[0..7].to_vec());
}

#[test]
fn extension_block_should_terminate() {
    let gce = GraphicControlExtension::new(2, false, true, 20, Some(3));
    let mut bytes: Vec<u8> = Vec::new();

    let end = encoder::extension_block::encode_graphic_control_extension(&mut bytes, &gce, 0);

    assert_eq!(vec![0x21, 0xf9, 0x04, 0x09, 0x14, 0x00, 0x03, 0x00], bytes);
    assert_eq!(8, end);
}

#[test]
pub fn mod_should_encode() {}

#[test]
fn frames_should_encode_graphic_control_blocks() {
    let descriptor = ImageDescriptor::new(0, 0, 1, 1, false, false, 0);
    let gce = GraphicControlExtension::new(0, false, false, 7, None);
    let frames = vec![
        Frame::new(descriptor, None, vec![0], None, Some(gce)),
        Frame::new(ImageDescriptor::new(0, 0, 1, 1, false, false, 0), None, vec![0], None, None),
    ];
    let mut bytes: Vec<u8> = Vec::new();

    let end = encoder::encode_frames(&mut bytes, &frames, 0).unwrap();

    assert_eq!(vec![0x21, 0xf9, 0x04, 0x00, 0x07, 0x00, 0x00], bytes);
    assert_eq!(7, end);
}

#[test]
fn encode_should_emit_header() {
    let gif = decode_all(example_source(), ColorOutput::ColorMap, vec![vec![0; 4]]).unwrap();

    let encoded = encoder::encode(gif).unwrap();

    assert_eq!(example_source()[0..13].to_vec(), encoded);
}

#[test]
fn encode_should_decline_interlaced_frames() {
    let descriptor = ImageDescriptor::new(0, 0, 1, 1, false, true, 0);
    let frame = Frame::new(descriptor, None, vec![0], None, None);
    let screen = yaged::types::ScreenDescriptor::new(1, 1, false, 0, false, 0, 0, 0);
    let gif = Gif::new("GIF89a".to_string(), screen, None, vec![frame]);

    match encoder::encode(gif) {
        Err(Error::UnsupportedInterlacedFrame) => {}
        other => panic!("expected UnsupportedInterlacedFrame, got {:?}", other),
    }
}

#[test]
fn encode_should_reject_invalid_signature() {
    let screen = yaged::types::ScreenDescriptor::new(1, 1, false, 0, false, 0, 0, 0);
    let gif = Gif::new("NOTGIF".to_string(), screen, None, vec![]);

    match encoder::encode(gif) {
        Err(Error::InvalidSignature) => {}
        other => panic!("expected InvalidSignature, got {:?}", other),
    }
}
