use video_frames::crop::CropRectParams;
use video_frames::crop::CropSkip;
use video_frames::frame::Frame;

fn rect(x: u32, y: u32, width: u32, height: u32) -> CropRectParams {
    CropRectParams { x, y, width, height }
}

/// A frame in which every sample tells its place: column, row, channel.
fn numbered(width: u32, height: u32) -> Frame {
    let mut pixels = Vec::new();
    for row in 0..height {
        for col in 0..width {
            pixels.push(col as u8);
            pixels.push(row as u8);
            pixels.push((10 * row + col) as u8);
            pixels.push(255);
        }
    }
    Frame::new(width, height, pixels).unwrap()
}

#[test]
fn new_takes_four_samples_per_pixel() {
    let frame = Frame::new(2, 3, vec![0; 24]).unwrap();
    assert_eq!(frame.width(), 2);
    assert_eq!(frame.height(), 3);
    assert_eq!(frame.pixels().len(), 24);
    assert!(Frame::new(0, 0, Vec::new()).is_some());
    assert!(Frame::new(0, 5, Vec::new()).is_some());
}

#[test]
fn new_refuses_a_wrong_number_of_samples() {
    assert!(Frame::new(2, 3, vec![0; 23]).is_none());
    assert!(Frame::new(2, 3, vec![0; 25]).is_none());
    assert!(Frame::new(2, 3, vec![0; 6]).is_none());
    assert!(Frame::new(1, 1, Vec::new()).is_none());
    assert!(Frame::new(u32::MAX, u32::MAX, vec![0; 4]).is_none());
}

#[test]
fn into_pixels_returns_the_samples() {
    let samples: Vec<u8> = (0..16).collect();
    let frame = Frame::new(2, 2, samples.clone()).unwrap();
    assert_eq!(frame.pixels(), &samples);
    assert_eq!(frame.into_pixels(), samples);
}

#[test]
fn crop_inside_takes_exactly_the_rectangle() {
    let out = numbered(4, 3).crop(rect(1, 1, 2, 2)).unwrap();
    assert_eq!(out.width(), 2);
    assert_eq!(out.height(), 2);
    assert_eq!(
        out.into_pixels(),
        vec![1, 1, 11, 255, 2, 1, 12, 255, 1, 2, 21, 255, 2, 2, 22, 255]
    );
}

#[test]
fn crop_of_one_pixel() {
    let out = numbered(5, 5).crop(rect(4, 3, 1, 1)).unwrap();
    assert_eq!((out.width(), out.height()), (1, 1));
    assert_eq!(out.into_pixels(), vec![4, 3, 34, 255]);
}

#[test]
fn crop_of_the_whole_frame_keeps_the_samples() {
    let before = numbered(3, 2).into_pixels();
    let out = numbered(3, 2).crop(rect(0, 0, 3, 2)).unwrap();
    assert_eq!((out.width(), out.height()), (3, 2));
    assert_eq!(out.into_pixels(), before);
}

#[test]
fn crop_over_the_edges_is_clamped() {
    let out = numbered(4, 3).crop(rect(2, 1, 100, 100)).unwrap();
    assert_eq!((out.width(), out.height()), (2, 2));
    assert_eq!(
        out.into_pixels(),
        vec![2, 1, 12, 255, 3, 1, 13, 255, 2, 2, 22, 255, 3, 2, 23, 255]
    );
}

#[test]
fn crop_with_far_corner_beyond_u32_is_clamped() {
    let out = numbered(4, 3).crop(rect(3, 2, u32::MAX, u32::MAX)).unwrap();
    assert_eq!((out.width(), out.height()), (1, 1));
    assert_eq!(out.into_pixels(), vec![3, 2, 23, 255]);
}

#[test]
fn crop_matches_every_pixel_of_the_source() {
    let source = numbered(7, 6);
    let samples = source.pixels().clone();
    let area = rect(2, 1, 4, 3);
    let out = source.crop(area).unwrap();
    let cropped = out.pixels();
    assert_eq!(cropped.len(), 4 * 4 * 3);
    for row in 0..3usize {
        for col in 0..4usize {
            for channel in 0..4usize {
                assert_eq!(
                    cropped[(row * 4 + col) * 4 + channel],
                    samples[((row + 1) * 7 + col + 2) * 4 + channel]
                );
            }
        }
    }
}

#[test]
fn crop_with_origin_outside_is_refused() {
    assert_eq!(numbered(4, 3).crop(rect(4, 0, 1, 1)).err(), Some(CropSkip::OriginOutside));
    assert_eq!(numbered(4, 3).crop(rect(0, 3, 1, 1)).err(), Some(CropSkip::OriginOutside));
}

#[test]
fn crop_with_empty_rectangle_is_refused() {
    assert_eq!(numbered(4, 3).crop(rect(0, 0, 0, 1)).err(), Some(CropSkip::EmptyArea));
    assert_eq!(numbered(4, 3).crop(rect(0, 0, 1, 0)).err(), Some(CropSkip::EmptyArea));
}

#[test]
fn crop_agrees_with_a_view_on_a_decoded_rgb_image() {
    let source = image::RgbImage::from_fn(5, 4, |x, y| {
        image::Rgb([(10 * x) as u8, (20 * y) as u8, (x + y) as u8])
    });
    let decoded = image::DynamicImage::ImageRgb8(source);
    let expected = image::imageops::crop_imm(&decoded, 1, 1, 3, 2).to_image();
    let frame = Frame::new(5, 4, decoded.to_rgba8().into_raw()).unwrap();
    let out = frame.crop(rect(1, 1, 3, 2)).unwrap();
    assert_eq!((out.width(), out.height()), expected.dimensions());
    assert_eq!(out.into_pixels(), expected.into_raw());
}

#[test]
fn crop_agrees_with_a_view_on_a_decoded_gray_image() {
    let source = image::ImageBuffer::from_fn(6, 3, |x, y| image::Luma([(4000 * x + 300 * y) as u16]));
    let decoded = image::DynamicImage::ImageLuma16(source);
    let expected = image::imageops::crop_imm(&decoded, 2, 0, 10, 10).to_image();
    let frame = Frame::new(6, 3, decoded.to_rgba8().into_raw()).unwrap();
    let out = frame.crop(rect(2, 0, 10, 10)).unwrap();
    assert_eq!((out.width(), out.height()), (4, 3));
    assert_eq!((out.width(), out.height()), expected.dimensions());
    assert_eq!(out.into_pixels(), expected.into_raw());
}
