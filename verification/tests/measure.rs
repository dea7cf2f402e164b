use measurement_service::measure::{key_landmark_indices, landmarks_in_reach, validate_landmarks};
use measurement_service::pose::{lm, BLAZEPOSE_INPUT_SIZE, N_LANDMARKS};

fn all_visible() -> Vec<bool> {
    vec![true; N_LANDMARKS]
}

#[test]
fn pose_constants() {
    assert_eq!(BLAZEPOSE_INPUT_SIZE, 256);
    assert_eq!(N_LANDMARKS, 33);
    assert_eq!(lm::NOSE, 0);
    assert_eq!(lm::LEFT_SHOULDER, 11);
    assert_eq!(lm::RIGHT_SHOULDER, 12);
    assert_eq!(lm::LEFT_HIP, 23);
    assert_eq!(lm::RIGHT_HIP, 24);
    assert_eq!(lm::LEFT_ANKLE, 27);
    assert_eq!(lm::RIGHT_ANKLE, 28);
}

#[test]
fn key_landmarks_in_checking_order() {
    assert_eq!(key_landmark_indices(), &[0, 11, 12, 23, 24, 27, 28]);
}

#[test]
fn all_visible_passes() {
    assert_eq!(validate_landmarks(&all_visible()), Ok(()));
}

#[test]
fn hidden_nose_is_reported() {
    let mut v = all_visible();
    v[0] = false;
    assert_eq!(validate_landmarks(&v), Err(0));
}

#[test]
fn hidden_right_ankle_is_reported() {
    let mut v = all_visible();
    v[28] = false;
    assert_eq!(validate_landmarks(&v), Err(28));
}

#[test]
fn first_hidden_key_landmark_is_reported() {
    let mut v = all_visible();
    v[24] = false;
    v[11] = false;
    assert_eq!(validate_landmarks(&v), Err(11));
}

#[test]
fn other_landmarks_may_be_hidden() {
    let mut v = all_visible();
    v[5] = false;
    v[32] = false;
    assert_eq!(validate_landmarks(&v), Ok(()));
}

#[test]
fn exactly_enough_landmarks_are_checked() {
    let v = vec![true; 29];
    assert_eq!(validate_landmarks(&v), Ok(()));
}

#[test]
fn full_landmark_lists_are_in_reach() {
    assert!(landmarks_in_reach(&all_visible()));
    assert!(landmarks_in_reach(&vec![true; 29]));
}

#[test]
fn short_visible_list_is_out_of_reach() {
    assert!(!landmarks_in_reach(&vec![true; 28]));
    assert!(!landmarks_in_reach(&vec![]));
}

#[test]
fn short_list_with_an_earlier_hidden_landmark_is_checked() {
    let mut v = vec![true; 15];
    v[12] = false;
    assert!(landmarks_in_reach(&v));
    assert_eq!(validate_landmarks(&v), Err(12));
    let mut w = vec![true; 5];
    w[0] = false;
    assert!(landmarks_in_reach(&w));
    assert_eq!(validate_landmarks(&w), Err(0));
}
