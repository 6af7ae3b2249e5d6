use image_processing::pixel::{ChannelLayout, GrayscaleBuffer, PixelBuffer};
use image_processing::transform::{luma601_of, to_grayscale};

#[test]
fn luma_formula_values() {
    assert_eq!(luma601_of(255, 0, 0), 76);
    assert_eq!(luma601_of(0, 255, 0), 150);
    assert_eq!(luma601_of(0, 0, 255), 29);
    assert_eq!(luma601_of(255, 255, 255), 255);
    assert_eq!(luma601_of(0, 0, 0), 0);
    assert_eq!(luma601_of(100, 100, 100), 100);
}

#[test]
fn grayscale_idempotent_on_single_channel() {
    let buf = PixelBuffer::new(2, 2, ChannelLayout::Gray, vec![10, 20, 30, 40]).unwrap();
    let gray = to_grayscale(&buf);
    assert_eq!(gray.width, 2);
    assert_eq!(gray.height, 2);
    assert_eq!(gray.data, vec![10, 20, 30, 40]);

    let again = PixelBuffer::new(gray.width, gray.height, ChannelLayout::Gray, gray.data.clone())
        .unwrap();
    let twice = to_grayscale(&again);
    assert_eq!(twice.data, gray.data);
}

#[test]
fn transform_drops_alpha() {
    let buf = PixelBuffer::new(2, 1, ChannelLayout::GrayAlpha, vec![10, 255, 20, 0]).unwrap();
    let gray = to_grayscale(&buf);
    assert_eq!(gray.data, vec![10, 20]);

    let rgba = PixelBuffer::new(
        1,
        2,
        ChannelLayout::Rgba,
        vec![255, 0, 0, 128, 0, 0, 255, 0],
    )
    .unwrap();
    let gray = to_grayscale(&rgba);
    assert_eq!(gray.data, vec![76, 29]);
}

#[test]
fn transform_preserves_dimensions_and_order() {
    let buf = PixelBuffer::new(
        3,
        1,
        ChannelLayout::Rgb,
        vec![255, 0, 0, 0, 255, 0, 0, 0, 255],
    )
    .unwrap();
    let gray = to_grayscale(&buf);
    assert_eq!(gray.width, 3);
    assert_eq!(gray.height, 1);
    assert_eq!(gray.data, vec![76, 150, 29]);
}

#[test]
fn pixel_buffer_constructor_checks_invariant() {
    assert!(PixelBuffer::new(0, 1, ChannelLayout::Gray, vec![]).is_none());
    assert!(PixelBuffer::new(1, 0, ChannelLayout::Gray, vec![]).is_none());
    assert!(PixelBuffer::new(2, 2, ChannelLayout::Rgb, vec![0, 0, 0]).is_none());
    assert!(PixelBuffer::new(1, 1, ChannelLayout::Rgb, vec![1, 2, 3]).is_some());
    assert_eq!(ChannelLayout::Rgba.channels(), 4);
}

#[test]
fn grayscale_buffer_constructor_checks_invariant() {
    assert!(GrayscaleBuffer::new(2, 2, vec![1, 2, 3]).is_none());
    assert!(GrayscaleBuffer::new(0, 2, vec![]).is_none());
    let g = GrayscaleBuffer::new(2, 2, vec![1, 2, 3, 4]).unwrap();
    assert_eq!(g.width, 2);
    assert_eq!(g.data.len(), 4);
}
