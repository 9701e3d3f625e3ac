use pdf_to_ocr::ocr::{recognition_result, OcrError, OcrProfile};

fn text(s: &str) -> String {
    s.to_string()
}

#[test]
fn portuguese_profile() {
    let profile = OcrProfile::portuguese();
    assert_eq!(profile.language, "por");
    assert_eq!(profile.dpi, Some(300));
    assert_eq!(profile.segmentation_mode, Some(6));
    assert_eq!(profile.engine_mode, Some(3));
    assert_eq!(
        profile.config_variables,
        vec![(text("tessedit_create_txt"), text("1"))]
    );
    assert!(profile.has_distinct_names());
}

#[test]
fn profile_with_a_repeated_variable_is_not_well_formed() {
    let mut profile = OcrProfile::portuguese();
    profile.config_variables.push((text("preserve_interword_spaces"), text("1")));
    assert!(profile.has_distinct_names());
    profile.config_variables.push((text("tessedit_create_txt"), text("0")));
    assert!(!profile.has_distinct_names());
}

#[test]
fn profile_names_are_compared_not_values() {
    let mut profile = OcrProfile::portuguese();
    profile.config_variables = vec![(text("a"), text("1")), (text("b"), text("1"))];
    assert!(profile.has_distinct_names());
    profile.config_variables = vec![(text("a"), text("1")), (text("b"), text("2")), (text("b"), text("3"))];
    assert!(!profile.has_distinct_names());
    profile.config_variables = Vec::new();
    assert!(profile.has_distinct_names());
}

#[test]
fn printed_text_is_normalised() {
    assert_eq!(recognition_result(Ok(text("  Olá\u{000C}\n"))), Ok(text("Olá")));
    assert_eq!(recognition_result(Ok(text("linha 1\nlinha 2\n"))), Ok(text("linha 1linha 2")));
    assert_eq!(recognition_result(Ok(String::new())), Ok(String::new()));
}

#[test]
fn engine_failure_stays_a_failure() {
    assert_eq!(
        recognition_result(Err(text("Tesseract not found. Please check installation path!"))),
        Err(OcrError { detail: text("Tesseract not found. Please check installation path!") })
    );
    assert_eq!(recognition_result(Err(String::new())), Err(OcrError { detail: String::new() }));
}
