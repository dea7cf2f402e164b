use measurement_service::photo::Photo;
use measurement_service::segmentation::{silhouette_mask, width_at_row, BodyMask, U2NET_SIZE};

fn blank_photo(width: u32, height: u32) -> Photo {
    Photo { image: image::DynamicImage::new_luma8(width, height) }
}

fn mask(width: u32, height: u32, samples: Vec<u8>) -> BodyMask {
    BodyMask::from_samples(width, height, samples).unwrap()
}

#[test]
fn from_samples_wants_one_sample_per_pixel() {
    assert!(BodyMask::from_samples(3, 2, vec![0; 5]).is_none());
    assert!(BodyMask::from_samples(3, 2, vec![0; 6]).is_some());
    assert!(BodyMask::from_samples(3, 2, vec![0; 7]).is_none());
    assert!(BodyMask::from_samples(0, 5, vec![]).is_some());
}

#[test]
fn dimensions_are_kept() {
    assert_eq!(mask(3, 2, vec![0; 6]).dimensions(), (3, 2));
}

#[test]
fn width_spans_leftmost_to_rightmost_body_pixel() {
    let m = mask(5, 3, vec![0, 0, 0, 0, 0, 0, 200, 0, 255, 0, 0, 0, 0, 0, 0]);
    assert_eq!(width_at_row(&m, 1), 2);
}

#[test]
fn empty_row_has_no_width() {
    let m = mask(5, 3, vec![0, 0, 0, 0, 0, 0, 200, 0, 255, 0, 0, 0, 0, 0, 0]);
    assert_eq!(width_at_row(&m, 0), 0);
}

#[test]
fn threshold_is_above_127() {
    let m = mask(4, 1, vec![127, 128, 127, 200]);
    assert_eq!(width_at_row(&m, 0), 2);
    let dim = mask(4, 1, vec![127, 127, 127, 127]);
    assert_eq!(width_at_row(&dim, 0), 0);
}

#[test]
fn single_body_pixel_has_zero_width() {
    let m = mask(4, 1, vec![0, 0, 255, 0]);
    assert_eq!(width_at_row(&m, 0), 0);
}

#[test]
fn rows_below_the_mask_read_the_last_row() {
    let m = mask(4, 2, vec![255, 0, 0, 255, 0, 255, 255, 0]);
    assert_eq!(width_at_row(&m, 1), 1);
    assert_eq!(width_at_row(&m, 7), 1);
    assert_eq!(width_at_row(&m, u32::MAX), 1);
    assert_eq!(width_at_row(&m, 0), 3);
}

#[test]
fn full_row_spans_the_width_minus_one() {
    let m = mask(6, 1, vec![255; 6]);
    assert_eq!(width_at_row(&m, 0), 5);
}

#[test]
fn silhouette_takes_the_requested_size() {
    let flags = vec![true, false, false, true];
    let m = silhouette_mask(2, &flags, &blank_photo(4, 6));
    assert_eq!(m.dimensions(), (4, 6));
}

#[test]
fn silhouette_grid_is_binarised_and_scaled() {
    let flags = vec![true, false, false, true];
    let m = silhouette_mask(2, &flags, &blank_photo(4, 4));
    assert_eq!(m.dimensions(), (4, 4));
    assert_eq!(width_at_row(&m, 0), 1);
    assert_eq!(width_at_row(&m, 3), 1);
}

#[test]
fn silhouette_at_grid_size_keeps_the_decisions() {
    let flags = vec![false, true, true, false, true, false, false, false, false];
    let m = silhouette_mask(3, &flags, &blank_photo(3, 3));
    assert_eq!(m.dimensions(), (3, 3));
    assert_eq!(width_at_row(&m, 0), 1);
    assert_eq!(width_at_row(&m, 1), 0);
    assert_eq!(width_at_row(&m, 2), 0);
}

#[test]
fn model_grid_is_320() {
    assert_eq!(U2NET_SIZE, 320);
    let flags = vec![true; (U2NET_SIZE * U2NET_SIZE) as usize];
    let m = silhouette_mask(U2NET_SIZE, &flags, &blank_photo(640, 480));
    assert_eq!(m.dimensions(), (640, 480));
    assert_eq!(width_at_row(&m, 100), 639);
}

#[test]
fn silhouette_shrinks_to_small_photos() {
    let mut flags = vec![false; 16];
    flags[5] = true;
    flags[6] = true;
    let m = silhouette_mask(4, &flags, &blank_photo(2, 2));
    assert_eq!(m.dimensions(), (2, 2));
}

#[test]
fn empty_grid_gives_an_empty_silhouette() {
    let m = silhouette_mask(0, &vec![], &blank_photo(3, 2));
    assert_eq!(m.dimensions(), (3, 2));
    assert_eq!(width_at_row(&m, 0), 0);
    assert_eq!(width_at_row(&m, 1), 0);
}
