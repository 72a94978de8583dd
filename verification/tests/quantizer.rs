//! Tests of the image-to-character quantizer.
use tplay::char_maps::chars1;
use tplay::errors::MyError;
use tplay::frame::Frame;
use tplay::frames::FrameIterator;
use tplay::image_pipeline::ImagePipeline;
use tplay::runner::Runner;

#[test]
fn test_new() {
    let image = ImagePipeline::new((120, 80), vec!['a', 'b', 'c']);
    assert_eq!(image.target_resolution, (120, 80));
    assert_eq!(image.char_map, vec!['a', 'b', 'c']);
}

fn gray2x2() -> Frame {
    // Pixels (0,0,0), (255,255,255), (128,128,128), (64,64,64), row-major.
    Frame::new(
        2,
        2,
        vec![0, 0, 0, 255, 255, 255, 128, 128, 128, 64, 64, 64],
    )
    .unwrap()
}

/// A generated input image: a 64x64 diagonal gradient, standing in for a
/// fetched photograph.
fn sample_image() -> Frame {
    let mut data = Vec::with_capacity(64 * 64 * 3);
    for y in 0..64u32 {
        for x in 0..64u32 {
            let level = ((x + y) * 2) as u8;
            data.push(level);
            data.push(level);
            data.push(level);
        }
    }
    Frame::new(64, 64, data).unwrap()
}

#[test]
fn test_process() {
    let image = ImagePipeline::new((120, 80), vec!['a', 'b', 'c']);
    let input = sample_image();
    let output = image.resize(&input).expect("Failed to resize image");
    assert_eq!(output.width, 120);
    assert_eq!(output.height, 80);
}

#[test]
fn test_to_ascii_ext() {
    let image = ImagePipeline::new((120, 80), chars1());
    let input = sample_image();
    let output = image.to_ascii(
        &image.resize(&input).expect("Failed to resize image").to_gray(),
    );
    assert_eq!(output.chars().count(), 120 * 80);
}

#[test]
fn test_to_ascii() {
    let image = ImagePipeline::new((120, 80), vec!['a', 'b', 'c']);
    let input = sample_image();
    let output = image.to_ascii(
        &image.resize(&input).expect("Failed to resize image").to_gray(),
    );
    assert_eq!(output.len(), 120 * 80);
}

#[test]
fn still_image_ramp_eight_by_two() {
    // A 2x2 gray image upscaled to 8x2 with the ten-character ramp: each
    // source pixel covers four cells; luminances 0, 255, 128, 64 pick
    // indices 0, 9, 5, 2 of " .:-=+*#%@".
    let frame = gray2x2();
    let pipeline = ImagePipeline::new((8, 2), chars1());
    let media = FrameIterator::Image(Some(frame.clone()));
    let runner = Runner::init(pipeline, media, 30, 1);
    let (glyphs, colors) = runner.process_frame(&frame).unwrap();
    assert_eq!(glyphs, "    @@@@++++::::".to_string());
    assert_eq!(glyphs.chars().count(), 16);
    assert_eq!(colors.len(), 48);
    // The color bytes are the resized frame verbatim: top row black then
    // white, bottom row mid then dark gray, each four cells wide.
    assert_eq!(&colors[0..3], &[0, 0, 0]);
    assert_eq!(&colors[12..15], &[255, 255, 255]);
    assert_eq!(&colors[24..27], &[128, 128, 128]);
    assert_eq!(&colors[36..39], &[64, 64, 64]);
}

#[test]
fn resize_upscales_nearest_neighbor() {
    let frame = gray2x2();
    let pipeline = ImagePipeline::new((4, 4), chars1());
    let out = pipeline.resize(&frame).unwrap();
    assert_eq!(out.width, 4);
    assert_eq!(out.height, 4);
    assert_eq!(out.data.len(), 48);
    // Each source pixel becomes a 2x2 block.
    assert_eq!(out.data[0], 0);
    assert_eq!(out.data[3 * (0 * 4 + 2)], 255);
    assert_eq!(out.data[3 * (2 * 4 + 0)], 128);
    assert_eq!(out.data[3 * (2 * 4 + 2)], 64);
}

#[test]
fn resize_rejects_zero_extents() {
    let frame = gray2x2();
    let pipeline = ImagePipeline::new((0, 2), chars1());
    assert!(matches!(pipeline.resize(&frame), Err(MyError::Pipeline(_))));
    let pipeline = ImagePipeline::new((2, 0), chars1());
    assert!(matches!(pipeline.resize(&frame), Err(MyError::Pipeline(_))));
    let empty = Frame::new(0, 0, vec![]).unwrap();
    let pipeline = ImagePipeline::new((2, 2), chars1());
    assert!(matches!(pipeline.resize(&empty), Err(MyError::Pipeline(_))));
}

#[test]
fn luminance_weighs_channels() {
    // Rec. 709 integer weighting: 2126 R / 10000 for pure red, and so on.
    let frame = Frame::new(3, 1, vec![255, 0, 0, 0, 255, 0, 0, 0, 255]).unwrap();
    let gray = frame.to_gray();
    assert_eq!(gray.data, vec![54, 182, 18]);
}

#[test]
fn to_ascii_buckets_luminance() {
    let frame = Frame::new(4, 1, vec![0, 0, 0, 25, 25, 25, 26, 26, 26, 255, 255, 255]).unwrap();
    let pipeline = ImagePipeline::new((4, 1), chars1());
    let gray = frame.to_gray();
    let glyphs = pipeline.to_ascii(&gray);
    // 10 * 25 / 256 = 0 but 10 * 26 / 256 = 1: the bucket boundary.
    assert_eq!(glyphs, "  .@".to_string());
}

#[test]
fn frame_new_checks_buffer_size() {
    assert!(Frame::new(2, 2, vec![0; 12]).is_ok());
    let r = Frame::new(2, 2, vec![0; 11]);
    assert!(matches!(r, Err(MyError::Pipeline(_))));
    if let Err(e) = r {
        assert_eq!(e.message(), "Data error".to_string());
    }
}

#[test]
fn set_target_resolution_keeps_map() {
    let mut pipeline = ImagePipeline::new((120, 80), vec!['a', 'b', 'c']);
    pipeline.set_target_resolution(40, 12);
    assert_eq!(pipeline.target_resolution, (40, 12));
    assert_eq!(pipeline.char_map, vec!['a', 'b', 'c']);
}
