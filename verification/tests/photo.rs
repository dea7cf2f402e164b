use measurement_service::photo::decode_photos;

fn png(width: u32, height: u32) -> Vec<u8> {
    let img = image::GrayImage::from_raw(width, height, vec![128; (width * height) as usize]).unwrap();
    let mut out = std::io::Cursor::new(Vec::new());
    img.write_to(&mut out, image::ImageFormat::Png).unwrap();
    out.into_inner()
}

fn decode_error(bytes: &[u8]) -> String {
    image::load_from_memory(bytes).unwrap_err().to_string()
}

#[test]
fn both_photos_decode() {
    let (front, side) = decode_photos(&png(4, 3), &png(2, 5)).unwrap();
    assert_eq!(front.dimensions(), (4, 3));
    assert_eq!(side.dimensions(), (2, 5));
}

#[test]
fn undecodable_front_is_reported_first() {
    let garbage = b"not a photo".to_vec();
    let mut truncated = png(4, 4);
    truncated.truncate(20);
    let err = decode_photos(&garbage, &truncated).err().unwrap();
    assert_eq!(err, decode_error(&garbage));
    assert_ne!(err, decode_error(&truncated));
}

#[test]
fn undecodable_side_is_reported_after_a_good_front() {
    let mut truncated = png(4, 4);
    truncated.truncate(20);
    let err = decode_photos(&png(2, 2), &truncated).err().unwrap();
    assert_eq!(err, decode_error(&truncated));
}

#[test]
fn empty_upload_does_not_decode() {
    assert!(decode_photos(&[], &png(1, 1)).is_err());
}
