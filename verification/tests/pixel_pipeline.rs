//! The pixel pipeline: box-fit resize dimensions and sampling, and
//! bitmap materialization.

use ltk_tex::{materialize_bitmap, scale_image};

fn patterned_rgba(width: u32, height: u32) -> Vec<u8> {
    let mut rgba = Vec::new();
    for y in 0..height {
        for x in 0..width {
            rgba.extend_from_slice(&[x as u8, y as u8, (x + y) as u8, 255]);
        }
    }
    rgba
}

#[test]
fn identity_scale_copies_every_pixel() {
    // A 100x50 image resized to its own long edge comes back unchanged.
    let src = patterned_rgba(100, 50);
    let (out, w, h) = scale_image(&src, 100, 50, 100);
    assert_eq!((w, h), (100, 50));
    assert_eq!(out, src);
}

#[test]
fn identity_scale_copies_every_pixel_portrait() {
    let src = patterned_rgba(50, 100);
    let (out, w, h) = scale_image(&src, 50, 100, 100);
    assert_eq!((w, h), (50, 100));
    assert_eq!(out, src);
}

#[test]
fn landscape_and_portrait_pick_the_bounded_edge() {
    let landscape = patterned_rgba(200, 100);
    let (_, w, h) = scale_image(&landscape, 200, 100, 50);
    assert_eq!((w, h), (50, 25));

    let portrait = patterned_rgba(100, 200);
    let (_, w, h) = scale_image(&portrait, 100, 200, 50);
    assert_eq!((w, h), (25, 50));
}

#[test]
fn short_edge_rounds_half_up() {
    // 3x2 to edge 2: height is round(2 * 2 / 3) = round(1.33) = 1.
    let src = patterned_rgba(3, 2);
    let (_, w, h) = scale_image(&src, 3, 2, 2);
    assert_eq!((w, h), (2, 1));

    // 4x3 to edge 2: height is round(3 * 2 / 4) = round(1.5) = 2.
    let src = patterned_rgba(4, 3);
    let (_, w, h) = scale_image(&src, 4, 3, 2);
    assert_eq!((w, h), (2, 2));
}

#[test]
fn upscale_samples_nearest_neighbour() {
    // A 2x1 image of one red and one green pixel, scaled to edge 4:
    // the result is 4x2 with the left half red and the right green.
    let src = vec![255, 0, 0, 255, 0, 255, 0, 255];
    let (out, w, h) = scale_image(&src, 2, 1, 4);
    assert_eq!((w, h), (4, 2));
    for y in 0..2u32 {
        for x in 0..4u32 {
            let i = (4 * (y * 4 + x)) as usize;
            let expected: [u8; 4] = if x < 2 {
                [255, 0, 0, 255]
            } else {
                [0, 255, 0, 255]
            };
            assert_eq!(&out[i..i + 4], &expected, "pixel ({x}, {y})");
        }
    }
}

#[test]
fn downscale_samples_by_truncating_division() {
    // A 4x4 image with a distinct value per pixel, scaled to edge 2:
    // destination (x, y) samples source (x * 4 / 2, y * 4 / 2).
    let mut src = Vec::new();
    for i in 0..16u8 {
        src.extend_from_slice(&[i, 0, 0, 255]);
    }
    let (out, w, h) = scale_image(&src, 4, 4, 2);
    assert_eq!((w, h), (2, 2));
    let sampled: Vec<u8> = (0..4).map(|p| out[4 * p]).collect();
    assert_eq!(sampled, vec![0, 2, 8, 10]);
}

#[test]
fn materialization_swaps_red_and_blue_and_keeps_alpha() {
    let rgba = vec![10, 20, 30, 255];
    let bitmap = materialize_bitmap(&rgba, 1, 1);
    assert_eq!((bitmap.width, bitmap.height), (1, 1));
    assert_eq!(bitmap.data, vec![30, 20, 10, 255]);
}

#[test]
fn materialization_is_per_pixel_and_top_down() {
    // Two rows of two pixels; the byte order of the output keeps the
    // row-major top-down layout of the input.
    let rgba = vec![
        1, 2, 3, 4, 5, 6, 7, 8, // top row
        9, 10, 11, 12, 13, 14, 15, 16, // bottom row
    ];
    let bitmap = materialize_bitmap(&rgba, 2, 2);
    assert_eq!(
        bitmap.data,
        vec![3, 2, 1, 4, 7, 6, 5, 8, 11, 10, 9, 12, 15, 14, 13, 16]
    );
}
