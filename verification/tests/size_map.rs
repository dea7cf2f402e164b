use measurement_service::size_map::{recommend_tops, BodyMeasurements, SizeLabel};

fn body(chest_mm: u32, waist_mm: u32) -> BodyMeasurements {
    BodyMeasurements {
        height_mm: 1650,
        chest_mm,
        waist_mm,
        hip_mm: 940,
        shoulder_width_mm: 380,
        inseam_mm: 740,
    }
}

#[test]
fn labels_print_their_names() {
    assert_eq!(SizeLabel::XS.as_str(), "XS");
    assert_eq!(SizeLabel::S.as_str(), "S");
    assert_eq!(SizeLabel::M.as_str(), "M");
    assert_eq!(SizeLabel::L.as_str(), "L");
    assert_eq!(SizeLabel::XL.as_str(), "XL");
    assert_eq!(SizeLabel::XXL.as_str(), "XXL");
}

#[test]
fn all_lists_labels_in_order() {
    let all = SizeLabel::all();
    assert_eq!(all.len(), 6);
    for (i, label) in all.iter().enumerate() {
        assert_eq!(label.order(), i);
    }
    assert_eq!(all[0], SizeLabel::XS);
    assert_eq!(all[5], SizeLabel::XXL);
}

#[test]
fn fitting_measurement_gets_its_size() {
    assert_eq!(recommend_tops(&body(850, 650)), SizeLabel::S);
    assert_eq!(recommend_tops(&body(910, 700)), SizeLabel::M);
    assert_eq!(recommend_tops(&body(1100, 900)), SizeLabel::XXL);
}

#[test]
fn shared_boundary_goes_to_the_smaller_size() {
    assert_eq!(recommend_tops(&body(820, 630)), SizeLabel::XS);
    assert_eq!(recommend_tops(&body(820, 640)), SizeLabel::S);
}

#[test]
fn tenth_of_a_centimetre_past_a_bound_moves_up() {
    assert_eq!(recommend_tops(&body(821, 631)), SizeLabel::S);
}

#[test]
fn no_fit_falls_back_to_nearest_chest() {
    assert_eq!(recommend_tops(&body(900, 500)), SizeLabel::M);
    assert_eq!(recommend_tops(&body(2000, 500)), SizeLabel::XXL);
    assert_eq!(recommend_tops(&body(0, 1000)), SizeLabel::XS);
}

#[test]
fn fallback_tie_goes_to_the_smaller_size() {
    // 82.0 cm lies 3 cm from the middles of XS (79) and S (85).
    assert_eq!(recommend_tops(&body(820, 500)), SizeLabel::XS);
}
