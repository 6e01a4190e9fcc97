use ale_env::frame::downsample;

#[test]
fn stride_one_keeps_the_frame() {
    let frame: Vec<u8> = (0..24).collect();
    assert_eq!(downsample(&frame, 2, 4, 3, 1), frame);
    assert_eq!(downsample(&frame, 4, 6, 1, 1), frame);
}

#[test]
fn stride_two_keeps_every_other_row_and_column() {
    // 4 rows of 4 gray pixels, valued row * 10 + column
    let mut frame = Vec::new();
    for row in 0..4u8 {
        for col in 0..4u8 {
            frame.push(row * 10 + col);
        }
    }
    assert_eq!(downsample(&frame, 4, 4, 1, 2), vec![0, 2, 20, 22]);
}

#[test]
fn odd_sizes_keep_the_last_row_and_column() {
    // 3 rows of 5 gray pixels
    let mut frame = Vec::new();
    for row in 0..3u8 {
        for col in 0..5u8 {
            frame.push(row * 10 + col);
        }
    }
    assert_eq!(downsample(&frame, 3, 5, 1, 2), vec![0, 2, 4, 20, 22, 24]);
    assert_eq!(downsample(&frame, 3, 5, 1, 3), vec![0, 3]);
    assert_eq!(downsample(&frame, 3, 5, 1, 4), vec![0, 4]);
}

#[test]
fn packed_pixels_stay_whole() {
    // 2 rows of 4 RGB pixels; byte = row * 100 + column * 10 + channel
    let mut frame = Vec::new();
    for row in 0..2u8 {
        for col in 0..4u8 {
            for k in 0..3u8 {
                frame.push(row * 100 + col * 10 + k);
            }
        }
    }
    assert_eq!(downsample(&frame, 2, 4, 3, 2), vec![0, 1, 2, 20, 21, 22]);
    assert_eq!(downsample(&frame, 2, 4, 3, 3), vec![0, 1, 2, 30, 31, 32]);
}

#[test]
fn stride_beyond_the_frame_keeps_one_pixel() {
    let frame: Vec<u8> = (10..22).collect();
    assert_eq!(downsample(&frame, 3, 4, 1, 100), vec![10]);
    assert_eq!(downsample(&frame, 3, 4, 1, usize::MAX), vec![10]);
}

#[test]
fn empty_frames_stay_empty() {
    let frame: Vec<u8> = Vec::new();
    assert_eq!(downsample(&frame, 0, 4, 3, 2), Vec::<u8>::new());
    assert_eq!(downsample(&frame, 4, 0, 3, 2), Vec::<u8>::new());
    assert_eq!(downsample(&frame, 4, 4, 0, 2), Vec::<u8>::new());
}

#[test]
fn atari_screen_halves() {
    let frame = vec![7u8; 210 * 160];
    let small = downsample(&frame, 210, 160, 1, 2);
    assert_eq!(small.len(), 105 * 80);
    let small = downsample(&frame, 210, 160, 1, 4);
    assert_eq!(small.len(), 53 * 40);
}
