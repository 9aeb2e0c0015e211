use aw_watcher_screenshot::capture::frame::Frame;
use aw_watcher_screenshot::capture::utils::{dHash, gradient_hash, hamming_distance};

fn solid(width: u32, height: u32, rgba: [u8; 4]) -> Frame {
    let mut pixels = Vec::new();
    for _ in 0..(width * height) {
        pixels.extend_from_slice(&rgba);
    }
    Frame::new(width, height, pixels).unwrap()
}

#[test]
fn distance_of_equal_hashes_is_zero() {
    assert_eq!(hamming_distance(0, 0), 0);
    assert_eq!(hamming_distance(0xdead_beef, 0xdead_beef), 0);
    assert_eq!(hamming_distance(u64::MAX, u64::MAX), 0);
}

#[test]
fn distance_counts_differing_bits() {
    assert_eq!(hamming_distance(0b1011, 0b0001), 2);
    assert_eq!(hamming_distance(0, u64::MAX), 64);
    assert_eq!(hamming_distance(1 << 63, 0), 1);
    assert_eq!(hamming_distance(0xff00, 0x00ff), 16);
}

#[test]
fn distance_is_symmetric() {
    let a = 0x0123_4567_89ab_cdef_u64;
    let b = 0xfedc_ba98_7654_3210_u64;
    assert_eq!(hamming_distance(a, b), hamming_distance(b, a));
    assert_eq!(hamming_distance(a, b), (a ^ b).count_ones());
}

#[test]
fn solid_image_hashes_to_zero() {
    let frame = solid(64, 48, [120, 30, 200, 255]);
    assert_eq!(dHash(&frame, 8), 0);
}

#[test]
fn identical_frames_have_equal_hashes() {
    let mut pixels = Vec::new();
    for y in 0..32u32 {
        for x in 0..40u32 {
            let v = ((x * 7 + y * 13) % 256) as u8;
            pixels.extend_from_slice(&[v, v.wrapping_mul(3), 255 - v, 255]);
        }
    }
    let a = Frame::new(40, 32, pixels.clone()).unwrap();
    let b = Frame::new(40, 32, pixels).unwrap();
    assert_eq!(dHash(&a, 8), dHash(&b, 8));
    assert_eq!(hamming_distance(dHash(&a, 8), dHash(&b, 8)), 0);
}

#[test]
fn horizontal_ramp_sets_every_bit() {
    // Brightness grows from left to right in every row, so each pixel of the
    // reduced image is darker than its right neighbour.
    let mut pixels = Vec::new();
    for _y in 0..90u32 {
        for x in 0..90u32 {
            let v = (x * 2 + 10) as u8;
            pixels.extend_from_slice(&[v, v, v, 255]);
        }
    }
    let frame = Frame::new(90, 90, pixels).unwrap();
    assert_eq!(dHash(&frame, 8), u64::MAX);
}

#[test]
fn nine_by_eight_frame_is_hashed_as_it_is() {
    // A frame that already has the reduced size is not resampled, so the
    // hash follows from the grayscale formula alone.
    let mut pixels = Vec::new();
    for y in 0..8u32 {
        for x in 0..9u32 {
            // Green rises along even rows and falls along odd rows.
            let g = if y % 2 == 0 { (x * 20) as u8 } else { (200 - x * 20) as u8 };
            pixels.extend_from_slice(&[0, g, 0, 255]);
        }
    }
    let frame = Frame::new(9, 8, pixels).unwrap();
    let mut expected = 0u64;
    for y in 0..8u32 {
        if y % 2 == 0 {
            expected |= 0xffu64 << (8 * y);
        }
    }
    assert_eq!(dHash(&frame, 8), expected);
}

#[test]
fn resolution_above_eight_is_hashed_at_eight() {
    let mut pixels = Vec::new();
    for y in 0..50u32 {
        for x in 0..70u32 {
            let v = ((x * x + y * 3) % 251) as u8;
            pixels.extend_from_slice(&[v, 255 - v, v / 2, 255]);
        }
    }
    let frame = Frame::new(70, 50, pixels).unwrap();
    assert_eq!(dHash(&frame, 16), dHash(&frame, 8));
}

#[test]
fn resolution_zero_hashes_to_zero() {
    let frame = solid(4, 4, [1, 2, 3, 4]);
    assert_eq!(dHash(&frame, 0), 0);
}

#[test]
fn small_resolution_uses_low_bits_only() {
    let mut pixels = Vec::new();
    for _y in 0..2u32 {
        for x in 0..3u32 {
            let v = (x * 100) as u8;
            pixels.extend_from_slice(&[v, v, v, 255]);
        }
    }
    let frame = Frame::new(3, 2, pixels).unwrap();
    assert_eq!(dHash(&frame, 2), 0b1111);
}

#[test]
fn gradient_hash_of_given_grayscale() {
    // Two columns, one row: a single comparison.
    assert_eq!(gradient_hash(&vec![1, 2], 1), 1);
    assert_eq!(gradient_hash(&vec![2, 2], 1), 0);
    assert_eq!(gradient_hash(&vec![3, 2], 1), 0);
    // Three columns, two rows.
    assert_eq!(gradient_hash(&vec![0, 1, 0, 5, 5, 9], 2), 0b1001);
}

#[test]
fn frame_rejects_wrong_length() {
    assert!(Frame::new(2, 2, vec![0; 15]).is_none());
    assert!(Frame::new(2, 2, vec![0; 16]).is_some());
    assert!(Frame::new(0, 7, Vec::new()).is_some());
}

/// The hash as the definition gives it, computed on the image that the
/// resampling library returns.
fn reference_hash(width: u32, height: u32, pixels: Vec<u8>, side: u32) -> u64 {
    let source = image::RgbaImage::from_raw(width, height, pixels).unwrap();
    let resized = image::imageops::resize(
        &source,
        side + 1,
        side,
        image::imageops::FilterType::Lanczos3,
    );
    let gray = image::imageops::grayscale(&resized);
    let mut hash = 0u64;
    for y in 0..side {
        for x in 0..side {
            if gray.get_pixel(x, y)[0] < gray.get_pixel(x + 1, y)[0] {
                hash |= 1 << (y * side + x);
            }
        }
    }
    hash
}

fn noisy_pixels(width: u32, height: u32, seed: u32) -> Vec<u8> {
    let mut state = seed;
    let mut pixels = Vec::new();
    for _ in 0..(width * height * 4) {
        state = state.wrapping_mul(1_664_525).wrapping_add(1_013_904_223);
        pixels.push((state >> 24) as u8);
    }
    pixels
}

#[test]
fn hash_agrees_with_the_resampled_image() {
    for (width, height, seed) in [(37, 23, 1), (64, 64, 2), (5, 3, 3), (200, 11, 4), (1, 1, 5)] {
        let pixels = noisy_pixels(width, height, seed);
        let frame = Frame::new(width, height, pixels.clone()).unwrap();
        for side in 1..=8 {
            assert_eq!(
                dHash(&frame, side),
                reference_hash(width, height, pixels.clone(), side),
                "{}x{} at {}",
                width,
                height,
                side
            );
        }
    }
}

#[test]
fn noisy_frames_differ() {
    let a = Frame::new(40, 40, noisy_pixels(40, 40, 7)).unwrap();
    let b = Frame::new(40, 40, noisy_pixels(40, 40, 8)).unwrap();
    let (ha, hb) = (dHash(&a, 8), dHash(&b, 8));
    assert_ne!(ha, 0);
    assert_ne!(ha, hb);
    assert_eq!(hamming_distance(ha, hb), (ha ^ hb).count_ones());
}

#[test]
fn empty_frame_hashes_to_zero() {
    let frame = Frame::new(0, 0, Vec::new()).unwrap();
    assert_eq!(dHash(&frame, 8), 0);
    let frame = Frame::new(0, 5, Vec::new()).unwrap();
    assert_eq!(dHash(&frame, 3), 0);
}

#[test]
fn grayscale_weights_green_over_red_over_blue() {
    // One row of nine pixels whose colours have the intensities
    // 0, 18, 54, 182, 255 and so on under the weights 2126, 7152, 722.
    let colours: [[u8; 3]; 9] = [
        [0, 0, 0],
        [0, 0, 255],
        [255, 0, 0],
        [0, 255, 0],
        [255, 255, 255],
        [255, 255, 0],
        [255, 0, 255],
        [0, 0, 254],
        [1, 1, 1],
    ];
    // Intensities: 0, 18, 54, 182, 255, 236, 72, 18, 1.
    let mut pixels = Vec::new();
    for _y in 0..8 {
        for c in colours {
            pixels.extend_from_slice(&[c[0], c[1], c[2], 0]);
        }
    }
    let frame = Frame::new(9, 8, pixels).unwrap();
    let row = 0b0000_1111u64;
    let mut expected = 0u64;
    for y in 0..8 {
        expected |= row << (8 * y);
    }
    assert_eq!(dHash(&frame, 8), expected);
}
