use clip_capture::frame::{
    can_make_image, frame_timestamps, frame_to_imgvec, frame_to_pixels, frames_to_binary,
    is_whole_frame, u16_to_bytes, u64_to_bytes, ClipFrame, Pixel,
};

fn frames_with_delays(delays: &[u64]) -> Vec<ClipFrame> {
    delays.iter().map(|d| ClipFrame { frame: vec![1, 2, 3, 4], delay: *d }).collect()
}

#[test]
fn u16_bytes_are_big_endian() {
    assert_eq!(u16_to_bytes(0x1234), [0x12, 0x34]);
    assert_eq!(u16_to_bytes(0), [0, 0]);
    assert_eq!(u16_to_bytes(255), [0, 255]);
    assert_eq!(u16_to_bytes(256), [1, 0]);
    assert_eq!(u16_to_bytes(u16::MAX), [255, 255]);
}

#[test]
fn u16_bytes_agree_with_std() {
    for value in [0u16, 1, 255, 256, 4660, 32767, 32768, 65535] {
        assert_eq!(u16_to_bytes(value), value.to_be_bytes());
    }
}

#[test]
fn u64_bytes_are_big_endian() {
    assert_eq!(u64_to_bytes(0x0102030405060708), [1, 2, 3, 4, 5, 6, 7, 8]);
    assert_eq!(u64_to_bytes(0), [0; 8]);
    assert_eq!(u64_to_bytes(u64::MAX), [255; 8]);
    for value in [1u64, 255, 256, 200_000_000, 1 << 40, u64::MAX - 1] {
        assert_eq!(u64_to_bytes(value), value.to_be_bytes());
    }
}

#[test]
fn pixels_are_reordered_from_bgra() {
    let frame: Vec<u8> = vec![10, 20, 30, 40, 50, 60, 70, 80];
    assert_eq!(
        frame_to_pixels(&frame),
        vec![Pixel { r: 30, g: 20, b: 10, a: 40 }, Pixel { r: 70, g: 60, b: 50, a: 80 }]
    );
    assert_eq!(frame_to_pixels(&vec![]), Vec::<Pixel>::new());
}

#[test]
fn image_holds_the_reordered_pixels() {
    let frame: Vec<u8> = vec![10, 20, 30, 40, 50, 60, 70, 80, 1, 2, 3, 4, 5, 6, 7, 8];
    assert!(can_make_image(&frame, (2, 2)));
    let image = frame_to_imgvec(&frame, (2, 2));
    assert_eq!(image.width(), 2);
    assert_eq!(image.height(), 2);
    assert_eq!(image.stride(), 2);
    let expected = vec![
        rgb::RGBA8 { r: 30, g: 20, b: 10, a: 40 },
        rgb::RGBA8 { r: 70, g: 60, b: 50, a: 80 },
        rgb::RGBA8 { r: 3, g: 2, b: 1, a: 4 },
        rgb::RGBA8 { r: 7, g: 6, b: 5, a: 8 },
    ];
    assert_eq!(image.buf(), &expected);
    let pixels: Vec<rgb::RGBA8> = image.pixels().collect();
    assert_eq!(pixels, expected);
}

#[test]
fn image_needs_whole_pixels_and_a_width() {
    assert!(can_make_image(&vec![0; 8], (2, 1)));
    assert!(can_make_image(&vec![0; 8], (1, 0)));
    assert!(!can_make_image(&vec![0; 7], (2, 1)));
    assert!(!can_make_image(&vec![0; 8], (0, 1)));
    assert!(can_make_image(&vec![], (1, 1)));
}

#[test]
fn timestamps_are_running_sums_from_zero() {
    let frames = frames_with_delays(&[0, 200_000_000, 200_000_000, 200_000_000]);
    assert_eq!(frame_timestamps(&frames), vec![0, 200_000_000, 400_000_000, 600_000_000]);
    let uneven = frames_with_delays(&[0, 5, 7, 0, 9]);
    assert_eq!(frame_timestamps(&uneven), vec![0, 5, 12, 12, 21]);
}

#[test]
fn first_frame_is_at_zero_whatever_its_delay() {
    let frames = frames_with_delays(&[123, 5, 7]);
    assert_eq!(frame_timestamps(&frames), vec![0, 5, 12]);
    assert_eq!(frame_timestamps(&frames_with_delays(&[99])), vec![0]);
    assert_eq!(frame_timestamps(&Vec::new()), Vec::<u128>::new());
}

#[test]
fn timestamps_strictly_increase_with_positive_delays() {
    let frames = frames_with_delays(&[0, 3, 1, 4, 1, 5, 9, 2, 6]);
    let stamps = frame_timestamps(&frames);
    for i in 1..stamps.len() {
        assert!(stamps[i - 1] < stamps[i]);
        assert_eq!(stamps[i] - stamps[i - 1], frames[i].delay as u128);
    }
}

#[test]
fn timestamps_do_not_overflow() {
    let frames = frames_with_delays(&[0, u64::MAX, u64::MAX]);
    assert_eq!(
        frame_timestamps(&frames),
        vec![0, u64::MAX as u128, 2 * (u64::MAX as u128)]
    );
}

fn seconds(stamps: &[f64]) -> Vec<[u8; 8]> {
    stamps.iter().map(|s| s.to_be_bytes()).collect()
}

#[test]
fn binary_dump_layout() {
    let frames = vec![
        ClipFrame { frame: vec![1, 2, 3, 4], delay: 500_000_000 },
        ClipFrame { frame: vec![5, 6, 7, 8], delay: 1_000_000_000 },
    ];
    let dump = frames_to_binary(frames, seconds(&[0.0, 1.0]), (1, 1)).unwrap();
    let expected: Vec<u8> = vec![
        0, 0, 0, 0, 0, 0, 0, 1, // width
        0, 0, 0, 0, 0, 0, 0, 1, // height
        0, 0, 0, 0, 0, 0, 0, 0, // first timestamp
        1, 2, 3, 4, // first frame
        63, 240, 0, 0, 0, 0, 0, 0, // second timestamp
        5, 6, 7, 8, // second frame
    ];
    assert_eq!(dump, expected);
}

#[test]
fn binary_dump_takes_the_stamps_as_they_are() {
    let frames = vec![
        ClipFrame { frame: vec![9, 8, 7, 6], delay: 77 },
        ClipFrame { frame: vec![], delay: 258 },
        ClipFrame { frame: vec![5], delay: 0 },
    ];
    let stamps: Vec<[u8; 8]> = vec![[1, 2, 3, 4, 5, 6, 7, 8], [0; 8], [255; 8]];
    let dump = frames_to_binary(frames, stamps, (1, 513)).unwrap();
    let expected: Vec<u8> = vec![
        0, 0, 0, 0, 0, 0, 0, 1, // width
        0, 0, 0, 0, 0, 0, 2, 1, // height
        1, 2, 3, 4, 5, 6, 7, 8, // first timestamp
        9, 8, 7, 6, // first frame
        0, 0, 0, 0, 0, 0, 0, 0, // second timestamp, and no pixels
        255, 255, 255, 255, 255, 255, 255, 255, // third timestamp
        5, // third frame
    ];
    assert_eq!(dump, expected);
}

#[test]
fn binary_dump_of_no_frames_is_the_header() {
    let dump = frames_to_binary(Vec::new(), Vec::new(), (640, 360)).unwrap();
    assert_eq!(dump, vec![0, 0, 0, 0, 0, 0, 2, 128, 0, 0, 0, 0, 0, 0, 1, 104]);
}

#[test]
fn binary_dump_with_stamps_from_the_delays() {
    let frames = frames_with_delays(&[0, 200_000_000, 200_000_000, 200_000_000]);
    let stamps: Vec<f64> = frame_timestamps(&frames).iter().map(|t| *t as f64 / 1e9).collect();
    assert_eq!(stamps, vec![0.0, 0.2, 0.4, 0.6]);
    let dump = frames_to_binary(frames, seconds(&stamps), (3, 5)).unwrap();
    assert_eq!(dump.len(), 16 + 4 * (8 + 4));
    assert_eq!(dump[0..8], 3u64.to_be_bytes());
    assert_eq!(dump[8..16], 5u64.to_be_bytes());
    for (i, stamp) in stamps.iter().enumerate() {
        let at = 16 + i * 12;
        assert_eq!(dump[at..at + 8], stamp.to_be_bytes());
        assert_eq!(dump[at + 8..at + 12], [1, 2, 3, 4]);
    }
}

#[test]
fn whole_frames_have_four_bytes_for_every_pixel() {
    assert!(is_whole_frame(&vec![0; 8], (2, 1)));
    assert!(is_whole_frame(&vec![0; 8], (1, 2)));
    assert!(is_whole_frame(&vec![0; 24], (2, 3)));
    assert!(is_whole_frame(&vec![], (1, 0)));
    assert!(!is_whole_frame(&vec![0; 4], (2, 1)));
    assert!(!is_whole_frame(&vec![0; 12], (2, 1)));
    assert!(!is_whole_frame(&vec![0; 7], (2, 1)));
    assert!(!is_whole_frame(&vec![], (0, 1)));
    assert!(!is_whole_frame(&vec![], (0, 0)));
    assert!(!is_whole_frame(&vec![], (1, 1)));
    assert!(!is_whole_frame(&vec![], (4294967295, 4294967295)));
    assert!(!is_whole_frame(&vec![0; 8], (usize::MAX, 1)));
    for frame in [vec![0u8; 8], vec![0u8; 24]] {
        for dimensions in [(2, 1), (1, 2), (2, 3), (3, 2), (6, 1)] {
            if is_whole_frame(&frame, dimensions) {
                assert!(can_make_image(&frame, dimensions));
                let image = frame_to_imgvec(&frame, dimensions);
                assert_eq!(image.buf().len(), dimensions.0 * dimensions.1);
            }
        }
    }
}

#[test]
fn clone_copies_bytes_and_delay() {
    let frame = ClipFrame { frame: vec![1, 2, 3, 4], delay: 42 };
    let copy = frame.clone();
    assert_eq!(copy.frame, vec![1, 2, 3, 4]);
    assert_eq!(copy.delay, 42);
    assert_eq!(frame.frame, copy.frame);
}
