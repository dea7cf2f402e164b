use measurement_service::service::{
    check_upload, default_gender, demo_mode, demo_seed, demo_variance_cm, model_paths, port_or_default,
    upload_field, RequestError, UploadField, DEFAULT_PORT,
};

#[test]
fn fields_are_told_apart_by_name() {
    assert_eq!(upload_field("front_photo"), UploadField::FrontPhoto);
    assert_eq!(upload_field("side_photo"), UploadField::SidePhoto);
    assert_eq!(upload_field("height_cm"), UploadField::HeightCm);
    assert_eq!(upload_field("gender"), UploadField::Gender);
    assert_eq!(upload_field(""), UploadField::Other);
    assert_eq!(upload_field("Front_photo"), UploadField::Other);
    assert_eq!(upload_field("front_photo "), UploadField::Other);
    assert_eq!(upload_field("height"), UploadField::Other);
}

#[test]
fn request_errors_answer_bad_request() {
    assert_eq!(RequestError::MissingFrontPhoto.status(), 400);
    assert_eq!(RequestError::MissingSidePhoto.status(), 400);
    assert_eq!(RequestError::HeightOutOfRange.status(), 400);
    assert_eq!(RequestError::Multipart("bad boundary".to_string()).status(), 400);
}

#[test]
fn measurement_errors_answer_unprocessable() {
    assert_eq!(RequestError::MeasurementFailed("no body".to_string()).status(), 422);
}

#[test]
fn task_errors_answer_internal_error() {
    assert_eq!(RequestError::TaskFailed("panicked".to_string()).status(), 500);
}

#[test]
fn error_messages() {
    assert_eq!(RequestError::MissingFrontPhoto.message(), "front_photo is required");
    assert_eq!(RequestError::MissingSidePhoto.message(), "side_photo is required");
    assert_eq!(RequestError::HeightOutOfRange.message(), "height_cm must be 130–220");
    assert_eq!(RequestError::Multipart("bad boundary".to_string()).message(), "bad boundary");
    assert_eq!(RequestError::TaskFailed("panicked".to_string()).message(), "panicked");
    assert_eq!(RequestError::MeasurementFailed("no body".to_string()).message(), "no body");
}

#[test]
fn missing_front_photo_is_reported_first() {
    let r = check_upload::<u32>(None, None, None);
    assert_eq!(r, Err(RequestError::MissingFrontPhoto));
    let r = check_upload(None, Some(vec![2]), Some(170u32));
    assert_eq!(r, Err(RequestError::MissingFrontPhoto));
}

#[test]
fn missing_side_photo_is_reported_next() {
    let r = check_upload::<u32>(Some(vec![1]), None, None);
    assert_eq!(r, Err(RequestError::MissingSidePhoto));
}

#[test]
fn bad_height_is_reported_last() {
    let r = check_upload::<u32>(Some(vec![1]), Some(vec![2]), None);
    assert_eq!(r, Err(RequestError::HeightOutOfRange));
}

#[test]
fn complete_upload_passes() {
    let r = check_upload(Some(vec![1]), Some(vec![2, 3]), Some(170u32));
    assert_eq!(r, Ok((vec![1], vec![2, 3], 170)));
}

#[test]
fn seed_is_the_wrapping_byte_sum() {
    assert_eq!(demo_seed(&vec![]), 0);
    assert_eq!(demo_seed(&vec![1, 2, 3]), 6);
    assert_eq!(demo_seed(&vec![255; 1000]), 255_000);
}

#[test]
fn seed_of_joined_photos_adds_up() {
    let a = vec![10u8, 200, 7];
    let b = vec![99u8, 1];
    let mut ab = a.clone();
    ab.extend_from_slice(&b);
    let mut ba = b.clone();
    ba.extend_from_slice(&a);
    assert_eq!(demo_seed(&ab), demo_seed(&a).wrapping_add(demo_seed(&b)));
    assert_eq!(demo_seed(&ab), demo_seed(&ba));
}

#[test]
fn variance_spans_minus_six_to_five() {
    assert_eq!(demo_variance_cm(0), -6);
    assert_eq!(demo_variance_cm(6), 0);
    assert_eq!(demo_variance_cm(11), 5);
    assert_eq!(demo_variance_cm(12), -6);
    assert_eq!(demo_variance_cm(17), -1);
    assert_eq!(demo_variance_cm(u64::MAX), -3);
}

#[test]
fn demo_mode_unless_both_models() {
    assert!(!demo_mode(true, true));
    assert!(demo_mode(true, false));
    assert!(demo_mode(false, true));
    assert!(demo_mode(false, false));
}

#[test]
fn model_paths_in_directory() {
    let (pose, segmentation) = model_paths("models");
    assert_eq!(pose, "models/blazepose_full.onnx");
    assert_eq!(segmentation, "models/u2net.onnx");
}

#[test]
fn port_defaults_to_9090() {
    assert_eq!(DEFAULT_PORT, 9090);
    assert_eq!(port_or_default(None), 9090);
}

#[test]
fn port_parses_decimal() {
    assert_eq!(port_or_default(Some("8080")), 8080);
    assert_eq!(port_or_default(Some("+80")), 80);
    assert_eq!(port_or_default(Some("007")), 7);
    assert_eq!(port_or_default(Some("65535")), 65535);
    assert_eq!(port_or_default(Some("0")), 0);
}

#[test]
fn unusable_port_falls_back() {
    assert_eq!(port_or_default(Some("65536")), 9090);
    assert_eq!(port_or_default(Some(" 80")), 9090);
    assert_eq!(port_or_default(Some("80 ")), 9090);
    assert_eq!(port_or_default(Some("")), 9090);
    assert_eq!(port_or_default(Some("+")), 9090);
    assert_eq!(port_or_default(Some("-1")), 9090);
    assert_eq!(port_or_default(Some("8_080")), 9090);
    assert_eq!(port_or_default(Some("abc")), 9090);
}

#[test]
fn photo_and_height_read_failures_are_fatal() {
    assert!(UploadField::FrontPhoto.read_failure_is_fatal());
    assert!(UploadField::SidePhoto.read_failure_is_fatal());
    assert!(UploadField::HeightCm.read_failure_is_fatal());
    assert!(!UploadField::Gender.read_failure_is_fatal());
    assert!(!UploadField::Other.read_failure_is_fatal());
}

#[test]
fn gender_defaults_to_women() {
    assert_eq!(default_gender(), "women");
}
