use combine_images::compose::combine_images;
use combine_images::grid::PixelGrid;
use combine_images::reconcile::{common_denominator, min};

fn grid(width: u32, height: u32, pixel: [u8; 4]) -> PixelGrid {
    let mut data = Vec::new();
    for _ in 0..(width * height) {
        data.extend_from_slice(&pixel);
    }
    PixelGrid::new(width, height, data).unwrap()
}

#[test]
fn min_picks_smaller_area() {
    assert_eq!(min((4, 4), (2, 2)), (2, 2));
    assert_eq!(min((2, 2), (4, 4)), (2, 2));
}

#[test]
fn min_tie_favours_second() {
    assert_eq!(min((2, 8), (4, 4)), (4, 4));
    assert_eq!(min((4, 4), (4, 4)), (4, 4));
}

#[test]
fn reconcile_picks_smaller_dimensions_for_both() {
    let a = grid(4, 4, [255, 0, 0, 255]);
    let b = grid(2, 2, [0, 0, 255, 255]);
    let (background, overlay) = common_denominator(a, b);
    assert_eq!((background.width, background.height), (2, 2));
    assert_eq!((overlay.width, overlay.height), (2, 2));
    assert_eq!(background.data.len(), 2 * 2 * 4);
    assert_eq!(overlay.data.len(), 2 * 2 * 4);
}

#[test]
fn reconcile_smaller_grid_is_the_unresized_overlay() {
    let a = grid(4, 4, [255, 0, 0, 255]);
    let b = grid(2, 2, [0, 0, 255, 255]);
    let b_bytes = b.data.clone();
    let (_, overlay) = common_denominator(a, b);
    assert_eq!(overlay.data, b_bytes);

    // same pair the other way round: the smaller grid still wins.
    let a = grid(2, 2, [0, 0, 255, 255]);
    let b = grid(4, 4, [255, 0, 0, 255]);
    let a_bytes = a.data.clone();
    let (background, overlay) = common_denominator(a, b);
    assert_eq!((background.width, background.height), (2, 2));
    assert_eq!(overlay.data, a_bytes);
}

#[test]
fn reconcile_equal_dimensions_resizes_nothing() {
    let a = grid(3, 3, [1, 2, 3, 4]);
    let b = grid(3, 3, [5, 6, 7, 8]);
    let a_bytes = a.data.clone();
    let b_bytes = b.data.clone();
    let (background, overlay) = common_denominator(a, b);
    assert_eq!(background.data, a_bytes);
    assert_eq!(overlay.data, b_bytes);
}

#[test]
fn reconcile_equal_area_tie_keeps_second_grid() {
    // equal pixel counts, different shapes: the tie goes to the second
    // grid's dimensions and the first is resampled to them.
    let a = grid(2, 8, [9, 9, 9, 9]);
    let b = grid(4, 4, [7, 7, 7, 7]);
    let b_bytes = b.data.clone();
    let (background, overlay) = common_denominator(a, b);
    assert_eq!((background.width, background.height), (4, 4));
    assert_eq!((overlay.width, overlay.height), (4, 4));
    assert_eq!(overlay.data, b_bytes);
}

#[test]
fn end_to_end_red_background_blue_overlay() {
    // 4x4 opaque red background, 2x2 fully opaque blue overlay: the
    // reconciled target is 2x2, the red image is resampled down, and the
    // fully opaque overlay wins every colour channel.
    let red = grid(4, 4, [255, 0, 0, 255]);
    let blue = grid(2, 2, [0, 0, 255, 255]);
    let (background, overlay) = common_denominator(red, blue);
    assert_eq!((background.width, background.height), (2, 2));
    assert_eq!((overlay.width, overlay.height), (2, 2));
    let out = combine_images(background, overlay);
    assert_eq!(out.len(), 2 * 2 * 4);
    for p in 0..4 {
        assert_eq!(&out[4 * p..4 * p + 4], &[0, 0, 255, 255]);
    }
}

#[test]
fn resampling_a_constant_image_keeps_its_colour() {
    // a constant 4x4 image scaled down to 3x2 stays that colour whatever
    // the filter weights are; fails if the resampler handed the source
    // bytes back unchanged, since the byte count must shrink.
    let a = grid(4, 4, [20, 40, 60, 255]);
    let b = grid(3, 2, [0, 0, 0, 0]);
    let (background, _) = common_denominator(a, b);
    assert_eq!((background.width, background.height), (3, 2));
    assert_eq!(background.data.len(), 3 * 2 * 4);
    for p in 0..6 {
        assert_eq!(&background.data[4 * p..4 * p + 4], &[20, 40, 60, 255]);
    }
}
