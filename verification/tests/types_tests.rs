use yaged::bits::{color_table_entries, nth_bit, u16_le};
use yaged::decoder::{rgba_raster_data, table_index_to_rgba};
use yaged::error::Error;
use yaged::types::{GraphicControlExtension, ImageDescriptor, Rgb, ScreenDescriptor};

#[test]
fn nth_bit_counts_from_least_significant() {
    assert!(nth_bit(0b0000_0001, 0));
    assert!(!nth_bit(0b0000_0001, 1));
    assert!(nth_bit(0b1000_0000, 7));
    assert!(nth_bit(0b0000_1000, 3));
    assert!(!nth_bit(0b1111_0111, 3));
}

#[test]
fn u16_le_combines_byte_pairs() {
    assert_eq!(0, u16_le(0, 0));
    assert_eq!(10, u16_le(10, 0));
    assert_eq!(0x1234, u16_le(0x34, 0x12));
    assert_eq!(0xffff, u16_le(0xff, 0xff));
}

#[test]
fn palette_entry_count_is_two_to_exponent_plus_one() {
    let expected = [2, 4, 8, 16, 32, 64, 128, 256];
    for exponent in 0..8 {
        assert_eq!(expected[exponent as usize], color_table_entries(exponent));
    }
}

#[test]
fn screen_descriptor_holds_its_fields() {
    let mut descriptor = ScreenDescriptor::new(640, 480, true, 5, false, 3, 9, 17);

    assert_eq!(640, descriptor.width());
    assert_eq!(480, descriptor.height());
    assert!(descriptor.m());
    assert_eq!(5, descriptor.cr());
    assert!(!descriptor.sort());
    assert_eq!(3, descriptor.pixel());
    assert_eq!(9, descriptor.background());
    assert_eq!(17, descriptor.aspect_ratio());

    descriptor.set_m(false);
    assert!(!descriptor.m());
    assert_eq!(640, descriptor.width());
}

#[test]
fn image_descriptor_holds_its_fields() {
    let descriptor = ImageDescriptor::new(1, 2, 3, 4, true, false, 6);

    assert_eq!(1, descriptor.image_left());
    assert_eq!(2, descriptor.image_top());
    assert_eq!(3, descriptor.image_width());
    assert_eq!(4, descriptor.image_height());
    assert!(descriptor.m());
    assert!(!descriptor.i());
    assert_eq!(6, descriptor.pixel());
}

#[test]
fn graphic_control_extension_holds_its_fields() {
    let extension = GraphicControlExtension::new(2, true, true, 100, Some(7));

    assert_eq!(2, extension.disposal_method());
    assert!(extension.user_input());
    assert!(extension.transparent_color());
    assert_eq!(100, extension.delay_time());
    assert_eq!(Some(7), extension.transparent_color_index());
}

#[test]
fn rgb_holds_its_channels() {
    let color = Rgb::new(1, 2, 3);

    assert_eq!(1, color.r());
    assert_eq!(2, color.g());
    assert_eq!(3, color.b());
}

#[test]
fn pixel_lookup_resolves_color_and_alpha() {
    let table = vec![Rgb::new(1, 2, 3), Rgb::new(4, 5, 6)];

    assert_eq!(vec![4, 5, 6, 255], table_index_to_rgba(1, &table, None).unwrap());
    assert_eq!(vec![4, 5, 6, 0], table_index_to_rgba(1, &table, Some(1)).unwrap());
    assert_eq!(vec![1, 2, 3, 255], table_index_to_rgba(0, &table, Some(1)).unwrap());
    assert_eq!(Err(Error::PaletteIndexOutOfRange), table_index_to_rgba(2, &table, None));
}

#[test]
fn raster_resolution_is_four_bytes_per_pixel() {
    let table = vec![Rgb::new(1, 2, 3), Rgb::new(4, 5, 6)];
    let raster = vec![0, 1, 1, 0];
    let gce = Some(GraphicControlExtension::new(0, false, true, 0, Some(0)));

    let rgba = rgba_raster_data(&raster, &gce, &table).unwrap();

    assert_eq!(4 * raster.len(), rgba.len());
    assert_eq!(
        vec![1, 2, 3, 0, 4, 5, 6, 255, 4, 5, 6, 255, 1, 2, 3, 0],
        rgba
    );
}
